use vstd::prelude::*;

use crate::draw::{phase_plan, DrawCommand};
use crate::engine::{scroll_amount, scroll_distance, Position, TIME_UNITS_PER_SECOND};
use crate::physics::{BodyHandle, PhysicsRequest};
use crate::sprites::Spritesheet;
use crate::track::{retired, shifted, spaced, spawned, ObstacleTrack};

verus! {

/// How long the countdown lasts: four seconds, in time units.
pub const GET_READY_DURATION: u64 = 4 * TIME_UNITS_PER_SECOND;

/// The longest tick the state machine accepts: one second, in time units.
pub const MAX_TICK_DELTA: u64 = TIME_UNITS_PER_SECOND;

/// The fastest scroll speed a session may have.
pub const MAX_SCROLL_SPEED: u64 = 16;

/// Number of frames of the plane's propeller animation.
pub const PLANE_FRAMES: u64 = 3;

/// How long each animation frame shows: 1/20 s, in time units.
pub const PLANE_FRAME_DURATION: u64 = TIME_UNITS_PER_SECOND / 20;

/// One full turn of the animation, in time units.
pub const PLANE_CYCLE: u64 = PLANE_FRAMES * PLANE_FRAME_DURATION;

/// Width of one terrain tile: 808 px, in subpixels.
pub const TERRAIN_TILE_WIDTH: i64 = 484_800;

/// Horizontal distance between successive obstacles: 400 px, in subpixels.
pub const OBSTACLE_SPACING: i64 = 240_000;

/// Obstacles left of this x (-200 px, in subpixels) are retired.
pub const RETIRE_X: i64 = -120_000;

/// The right edge of the canvas (800 px), in subpixels: obstacles appear here.
pub const CANVAS_RIGHT: i64 = 480_000;

/// Lower edge of the top terrain band (71 px), in subpixels.
pub const TOP_LIMIT: i64 = 42_600;

/// Upper edge of the bottom terrain band (480 - 71 = 409 px), in subpixels.
pub const BOTTOM_LIMIT: i64 = 245_400;

/// Half the height of the player body (36.5 px), in subpixels.
pub const PLANE_HALF_HEIGHT: i64 = 21_900;

/// The game-over frame counter stops here.
pub const GAME_OVER_FRAME_CAP: u8 = 2;

/// Whether a player body centred at height `y` (subpixels) reaches into the
/// top or the bottom terrain band.
pub open spec fn out_of_band(y: int) -> bool {
    y - PLANE_HALF_HEIGHT < TOP_LIMIT || y + PLANE_HALF_HEIGHT > BOTTOM_LIMIT
}

/// Everything one tick hands to the state machine: the fixed step, the
/// sampled input, what the physics world reported, and the random draw of
/// the side of an obstacle that may spawn.
#[derive(Clone, Copy, Debug, PartialEq, Eq)]
pub struct TickInput {
    /// Elapsed time of the tick, in time units.
    pub delta: u64,
    /// Whether the trigger is held.
    pub pressed: bool,
    /// The player body, when the world built it on this tick.
    pub new_body: Option<BodyHandle>,
    /// Height (subpixels) of the player body after this tick's step.
    pub body_y: Option<i64>,
    /// Side of an obstacle spawned on this tick: hanging from the top or not.
    pub obstacle_from_top: bool,
}

/// The mathematical value of a game phase.
pub enum PhaseModel {
    Waiting,
    GetReady { scroll_speed: u64, time_elapsed: u64 },
    Playing {
        plane_clock: u64,
        scroll_speed: u64,
        terrain_offset: i64,
        obstacles: Seq<Position>,
        spacing: i64,
        plane: Option<BodyHandle>,
    },
    GameOver { frames: u8 },
}

/// Obstacles all lie between `lo` and `hi` horizontally.
pub open spec fn within(s: Seq<Position>, lo: int, hi: int) -> bool {
    forall|i: int| 0 <= i < s.len() ==> lo <= #[trigger] s[i].x <= hi
}

/// The invariant of each phase.
pub open spec fn model_wf(m: PhaseModel) -> bool {
    match m {
        PhaseModel::Waiting => true,
        PhaseModel::GetReady { scroll_speed, time_elapsed } => {
            &&& time_elapsed < GET_READY_DURATION
            &&& scroll_speed <= MAX_SCROLL_SPEED
        },
        PhaseModel::Playing { plane_clock, scroll_speed, terrain_offset, obstacles, spacing, .. } => {
            &&& plane_clock < PLANE_CYCLE
            &&& 0 <= terrain_offset < TERRAIN_TILE_WIDTH
            &&& scroll_speed <= MAX_SCROLL_SPEED
            &&& spacing == OBSTACLE_SPACING
            &&& spaced(obstacles, spacing as int)
            &&& within(obstacles, RETIRE_X as int, CANVAS_RIGHT as int)
        },
        PhaseModel::GameOver { frames } => frames <= GAME_OVER_FRAME_CAP,
    }
}

/// The countdown as it starts: scroll speed 1, nothing elapsed.
pub open spec fn fresh_get_ready() -> PhaseModel {
    PhaseModel::GetReady { scroll_speed: 1, time_elapsed: 0 }
}

/// Play as it starts: animation on its second frame, no scroll yet, no
/// obstacle and no physics body.
pub open spec fn fresh_playing(scroll_speed: u64) -> PhaseModel {
    PhaseModel::Playing {
        plane_clock: PLANE_FRAME_DURATION,
        scroll_speed,
        terrain_offset: 0,
        obstacles: Seq::empty(),
        spacing: OBSTACLE_SPACING,
        plane: None,
    }
}

/// The obstacles after one tick of play: moved, retired, then topped up.
pub open spec fn next_obstacles(
    obstacles: Seq<Position>,
    spacing: i64,
    d: int,
    from_top: bool,
) -> Seq<Position> {
    spawned(retired(shifted(obstacles, d), RETIRE_X), CANVAS_RIGHT, spacing, from_top)
}

/// The player body after a tick of play: the one already held, else the one
/// the world built on this tick.
pub open spec fn adopted_body(plane: Option<BodyHandle>, t: TickInput) -> Option<BodyHandle> {
    if plane is Some {
        plane
    } else {
        t.new_body
    }
}

/// Whether the tick ends the phase: a press on the title or end screen, the
/// countdown running out, or the player body reaching a terrain band.
pub open spec fn leaves(m: PhaseModel, t: TickInput) -> bool {
    match m {
        PhaseModel::Waiting => t.pressed,
        PhaseModel::GetReady { time_elapsed, .. } => time_elapsed + t.delta >= GET_READY_DURATION,
        PhaseModel::Playing { plane, .. } => adopted_body(plane, t) is Some && (t.body_y matches Some(
            y,
        ) && out_of_band(y as int)),
        PhaseModel::GameOver { .. } => t.pressed,
    }
}

/// The phase's own value after the work of a tick, whether or not the tick
/// ends it: the countdown counts, play moves on, the end screen counts its
/// frames up to the cap.
pub open spec fn stepped(m: PhaseModel, t: TickInput) -> PhaseModel {
    match m {
        PhaseModel::Waiting => PhaseModel::Waiting,
        PhaseModel::GetReady { scroll_speed, time_elapsed } => PhaseModel::GetReady {
            scroll_speed,
            time_elapsed: (time_elapsed + t.delta) as u64,
        },
        PhaseModel::Playing {
            plane_clock,
            scroll_speed,
            terrain_offset,
            obstacles,
            spacing,
            plane,
        } => {
            let d = scroll_distance(t.delta as int, scroll_speed as int);
            PhaseModel::Playing {
                plane_clock: ((plane_clock + t.delta) % (PLANE_CYCLE as int)) as u64,
                scroll_speed,
                terrain_offset: ((terrain_offset + d) % (TERRAIN_TILE_WIDTH as int)) as i64,
                obstacles: next_obstacles(obstacles, spacing, d, t.obstacle_from_top),
                spacing,
                plane: adopted_body(plane, t),
            }
        },
        PhaseModel::GameOver { frames } => {
            if frames >= GAME_OVER_FRAME_CAP {
                PhaseModel::GameOver { frames }
            } else {
                PhaseModel::GameOver { frames: (frames + 1) as u8 }
            }
        },
    }
}

/// The phase that replaces one that ends.
pub open spec fn successor(m: PhaseModel) -> PhaseModel {
    match m {
        PhaseModel::Waiting => fresh_get_ready(),
        PhaseModel::GetReady { scroll_speed, .. } => fresh_playing(scroll_speed),
        PhaseModel::Playing { .. } => PhaseModel::GameOver { frames: 0 },
        PhaseModel::GameOver { .. } => fresh_get_ready(),
    }
}

/// The phase after one tick.
pub open spec fn next_phase(m: PhaseModel, t: TickInput) -> PhaseModel {
    if leaves(m, t) {
        successor(m)
    } else {
        stepped(m, t)
    }
}

/// What the physics world is asked to do on a tick: only in play, it steps;
/// it builds the bodies when there is none yet; it pushes the player body
/// exactly when the trigger is held.
pub open spec fn physics_request_of(m: PhaseModel, pressed: bool) -> PhysicsRequest {
    match m {
        PhaseModel::Playing { plane, .. } => PhysicsRequest {
            step: true,
            create_bodies: plane is None,
            apply_impulse: pressed,
        },
        _ => PhysicsRequest { step: false, create_bodies: false, apply_impulse: false },
    }
}

/// The phase to be in after an update: the replacement if there is one.
pub open spec fn outcome(stay: PhaseModel, r: Option<GameState>) -> PhaseModel {
    match r {
        Some(s) => s@,
        None => stay,
    }
}

/// One tick of play keeps the obstacle track spaced and on its stretch.
pub proof fn lemma_next_obstacles_wf(obstacles: Seq<Position>, d: int, from_top: bool)
    requires
        0 <= d <= MAX_TICK_DELTA * MAX_SCROLL_SPEED,
        spaced(obstacles, OBSTACLE_SPACING as int),
        within(obstacles, RETIRE_X as int, CANVAS_RIGHT as int),
    ensures
        spaced(next_obstacles(obstacles, OBSTACLE_SPACING, d, from_top), OBSTACLE_SPACING as int),
        within(
            next_obstacles(obstacles, OBSTACLE_SPACING, d, from_top),
            RETIRE_X as int,
            CANVAS_RIGHT as int,
        ),
{
    let a = shifted(obstacles, d);
    assert forall|i: int| 0 <= i < obstacles.len() implies i64::MIN <= #[trigger] obstacles[i].x - d
        <= i64::MAX by {
        assert(RETIRE_X <= obstacles[i].x <= CANVAS_RIGHT);
    }
    crate::track::lemma_shift_keeps_spacing(obstacles, d, OBSTACLE_SPACING as int);
    assert(within(a, i64::MIN as int, CANVAS_RIGHT as int)) by {
        assert forall|i: int| 0 <= i < a.len() implies i64::MIN <= #[trigger] a[i].x
            <= CANVAS_RIGHT by {
            assert(RETIRE_X <= obstacles[i].x <= CANVAS_RIGHT);
        }
    }
    let b = retired(a, RETIRE_X);
    crate::track::lemma_retire_keeps_spacing(a, RETIRE_X, OBSTACLE_SPACING as int);
    crate::track::lemma_retire_exact(a, RETIRE_X);
    assert(within(b, RETIRE_X as int, CANVAS_RIGHT as int)) by {
        assert forall|i: int| 0 <= i < b.len() implies RETIRE_X <= #[trigger] b[i].x
            <= CANVAS_RIGHT by {
            let f = |p: Position| p.x >= RETIRE_X;
            assert(b.contains(b[i]));
            a.lemma_filter_contains_rev(f, b[i]);
        }
    }
    crate::track::lemma_spawn_keeps_spacing(b, CANVAS_RIGHT, OBSTACLE_SPACING, from_top);
    let c = spawned(b, CANVAS_RIGHT, OBSTACLE_SPACING, from_top);
    assert(within(c, RETIRE_X as int, CANVAS_RIGHT as int)) by {
        assert forall|i: int| 0 <= i < c.len() implies RETIRE_X <= #[trigger] c[i].x
            <= CANVAS_RIGHT by {
            if i < b.len() {
                assert(c[i] == b[i]);
            } else if b.len() > 0 {
                assert(RETIRE_X <= b[b.len() - 1].x);
            }
        }
    }
}

/// A tick keeps every phase's invariant.
pub proof fn lemma_next_phase_wf(m: PhaseModel, t: TickInput)
    requires
        model_wf(m),
        t.delta <= MAX_TICK_DELTA,
    ensures
        model_wf(next_phase(m, t)),
        model_wf(successor(m)),
        (m !is GetReady || !leaves(m, t)) ==> model_wf(stepped(m, t)),
{
    match m {
        PhaseModel::Playing { scroll_speed, obstacles, .. } => {
            let d = scroll_distance(t.delta as int, scroll_speed as int);
            assert(d == t.delta * scroll_speed) by {
                let x = t.delta * scroll_speed;
                assert(t.delta * scroll_speed * 100 * 600 == x * 60000) by (nonlinear_arith)
                    requires x == t.delta * scroll_speed;
                vstd::arithmetic::div_mod::lemma_div_by_multiple(x as int, 60000);
            }
            assert(0 <= t.delta * scroll_speed <= MAX_TICK_DELTA * MAX_SCROLL_SPEED) by (nonlinear_arith)
                requires t.delta <= MAX_TICK_DELTA, scroll_speed <= MAX_SCROLL_SPEED;
            lemma_next_obstacles_wf(obstacles, d, t.obstacle_from_top);
        },
        _ => {},
    }
}

/// The title screen: nothing moves until the trigger is pressed.
pub struct Waiting;

/// The countdown before play.
pub struct GetReady {
    scroll_speed: u64,
    time_elapsed: u64,
}

/// A session in play.
pub struct Playing {
    plane_frame: u64,
    scroll_speed: u64,
    terrain_offset: i64,
    obstacles: ObstacleTrack,
    distance_between_obstacles: i64,
    plane_collider: Option<BodyHandle>,
}

/// The end of a session, until the trigger is pressed again.
pub struct GameOver {
    frames: u8,
}

/// The live phase: exactly one of the four.
pub enum GameState {
    Waiting(Waiting),
    GetReady(GetReady),
    Playing(Playing),
    GameOver(GameOver),
}

impl View for Waiting {
    type V = PhaseModel;

    open spec fn view(&self) -> PhaseModel {
        PhaseModel::Waiting
    }
}

impl View for GetReady {
    type V = PhaseModel;

    closed spec fn view(&self) -> PhaseModel {
        PhaseModel::GetReady { scroll_speed: self.scroll_speed, time_elapsed: self.time_elapsed }
    }
}

impl View for Playing {
    type V = PhaseModel;

    closed spec fn view(&self) -> PhaseModel {
        PhaseModel::Playing {
            plane_clock: self.plane_frame,
            scroll_speed: self.scroll_speed,
            terrain_offset: self.terrain_offset,
            obstacles: self.obstacles@,
            spacing: self.distance_between_obstacles,
            plane: self.plane_collider,
        }
    }
}

impl View for GameOver {
    type V = PhaseModel;

    closed spec fn view(&self) -> PhaseModel {
        PhaseModel::GameOver { frames: self.frames }
    }
}

/// Every `GetReady` is a countdown.
pub broadcast proof fn lemma_get_ready_view(g: &GetReady)
    ensures
        #[trigger] g@ is GetReady,
{
}

/// Every `Playing` is a session in play.
pub broadcast proof fn lemma_playing_view(p: &Playing)
    ensures
        #[trigger] p@ is Playing,
{
}

/// Every `GameOver` is an end screen.
pub broadcast proof fn lemma_game_over_view(o: &GameOver)
    ensures
        #[trigger] o@ is GameOver,
{
}

/// The variant of each phase type's model.
pub broadcast group group_phase_views {
    lemma_get_ready_view,
    lemma_playing_view,
    lemma_game_over_view,
}

impl View for GameState {
    type V = PhaseModel;

    open spec fn view(&self) -> PhaseModel {
        match self {
            GameState::Waiting(w) => w@,
            GameState::GetReady(g) => g@,
            GameState::Playing(p) => p@,
            GameState::GameOver(o) => o@,
        }
    }
}

impl Waiting {
    /// Starts the countdown when the trigger is pressed.
    pub fn update(&self, input: &TickInput) -> (r: Option<GameState>)
        ensures
            self@ == stepped(self@, *input),
            (r is None) == !leaves(self@, *input),
            r matches Some(s) ==> s@ == successor(self@) && model_wf(s@),
            outcome(self@, r) == next_phase(self@, *input),
            model_wf(outcome(self@, r)),
    {
        if input.pressed {
            Some(GameState::GetReady(GetReady::new()))
        } else {
            None
        }
    }
}

impl GetReady {
    /// A countdown at scroll speed 1 with nothing elapsed.
    pub fn new() -> (r: GetReady)
        ensures
            r@ == fresh_get_ready(),
    {
        GetReady { scroll_speed: 1, time_elapsed: 0 }
    }

    /// Time (time units) elapsed in the countdown.
    pub fn time_elapsed(&self) -> (r: u64)
        ensures
            self@ matches PhaseModel::GetReady { time_elapsed, .. } && r == time_elapsed,
    {
        self.time_elapsed
    }

    /// Counts the tick; once four seconds have elapsed, play starts.
    pub fn update(&mut self, input: &TickInput) -> (r: Option<GameState>)
        requires
            model_wf(old(self)@),
            input.delta <= MAX_TICK_DELTA,
        ensures
            old(self)@ is GetReady,
            final(self)@ == stepped(old(self)@, *input),
            (r is None) == !leaves(old(self)@, *input),
            r matches Some(s) ==> s@ == successor(old(self)@) && model_wf(s@),
            outcome(final(self)@, r) == next_phase(old(self)@, *input),
            model_wf(outcome(final(self)@, r)),
    {
        proof {
            lemma_next_phase_wf(self@, *input);
        }
        self.time_elapsed = self.time_elapsed + input.delta;
        if self.time_elapsed >= GET_READY_DURATION {
            Some(GameState::Playing(Playing::new(self.scroll_speed)))
        } else {
            None
        }
    }
}

impl Playing {
    /// A fresh session: no obstacle, no physics body, no scroll yet.
    pub fn new(scroll_speed: u64) -> (r: Playing)
        ensures
            r@ == fresh_playing(scroll_speed),
    {
        Playing {
            plane_frame: PLANE_FRAME_DURATION,
            scroll_speed,
            terrain_offset: 0,
            obstacles: ObstacleTrack::new(),
            distance_between_obstacles: OBSTACLE_SPACING,
            plane_collider: None,
        }
    }

    /// The animation frame showing, from 0 to `PLANE_FRAMES - 1`.
    pub fn plane_frame(&self) -> (r: u64)
        requires
            model_wf(self@),
        ensures
            self@ matches PhaseModel::Playing { plane_clock, .. } && r == plane_clock
                / PLANE_FRAME_DURATION,
            r < PLANE_FRAMES,
    {
        self.plane_frame / PLANE_FRAME_DURATION
    }

    /// How far (subpixels) the terrain has scrolled within its tile.
    pub fn terrain_offset(&self) -> (r: i64)
        ensures
            self@ matches PhaseModel::Playing { terrain_offset, .. } && r == terrain_offset,
    {
        self.terrain_offset
    }

    /// The obstacles, left to right.
    pub fn obstacles(&self) -> (r: &Vec<Position>)
        ensures
            self@ matches PhaseModel::Playing { obstacles, .. } && r@ == obstacles,
    {
        self.obstacles.obstacles()
    }

    /// The player body, once the world has built it.
    pub fn plane_collider(&self) -> (r: Option<BodyHandle>)
        ensures
            self@ matches PhaseModel::Playing { plane, .. } && r == plane,
    {
        self.plane_collider
    }

    /// What the physics world must do on this tick.
    pub fn physics_request(&self, pressed: bool) -> (r: PhysicsRequest)
        ensures
            r == physics_request_of(self@, pressed),
            r.step,
            r.apply_impulse == pressed,
            r.create_bodies == self@->Playing_plane is None,
    {
        PhysicsRequest {
            step: true,
            create_bodies: self.plane_collider.is_none(),
            apply_impulse: pressed,
        }
    }

    /// One tick of play: adopts the new body, turns the propeller, scrolls
    /// the terrain and the obstacles, and ends the session when the body
    /// reaches a terrain band.
    pub fn update(&mut self, input: &TickInput) -> (r: Option<GameState>)
        requires
            model_wf(old(self)@),
            input.delta <= MAX_TICK_DELTA,
        ensures
            old(self)@ is Playing,
            final(self)@ == stepped(old(self)@, *input),
            (r is None) == !leaves(old(self)@, *input),
            r matches Some(s) ==> s@ == successor(old(self)@) && model_wf(s@),
            outcome(final(self)@, r) == next_phase(old(self)@, *input),
            model_wf(outcome(final(self)@, r)),
            model_wf(final(self)@),
    {
        let ghost m = self@;
        proof {
            lemma_next_phase_wf(m, *input);
            assert(input.delta * self.scroll_speed <= MAX_TICK_DELTA * MAX_SCROLL_SPEED) by (nonlinear_arith)
                requires input.delta <= MAX_TICK_DELTA, self.scroll_speed <= MAX_SCROLL_SPEED;
        }
        if self.plane_collider.is_none() {
            self.plane_collider = input.new_body;
        }
        self.plane_frame = (self.plane_frame + input.delta) % PLANE_CYCLE;
        let d = scroll_amount(input.delta, self.scroll_speed);
        self.terrain_offset = (self.terrain_offset + d as i64) % TERRAIN_TILE_WIDTH;
        proof {
            assert forall|i: int| 0 <= i < self.obstacles@.len() implies #[trigger] self.obstacles@[i].x
                - input.delta * self.scroll_speed >= i64::MIN by {
                assert(RETIRE_X <= self.obstacles@[i].x);
            }
        }
        self.obstacles.advance(input.delta, self.scroll_speed);
        self.obstacles.retire_offscreen(RETIRE_X);
        self.obstacles.spawn_if_needed(
            CANVAS_RIGHT,
            self.distance_between_obstacles,
            input.obstacle_from_top,
        );
        if self.plane_collider.is_some() {
            if let Some(y) = input.body_y {
                if y < TOP_LIMIT + PLANE_HALF_HEIGHT || y > BOTTOM_LIMIT - PLANE_HALF_HEIGHT {
                    return Some(GameState::GameOver(GameOver::new()));
                }
            }
        }
        None
    }
}

impl GameOver {
    /// The end of a session, before any frame has been drawn.
    pub fn new() -> (r: GameOver)
        ensures
            r@ == (PhaseModel::GameOver { frames: 0 }),
    {
        GameOver { frames: 0 }
    }

    /// Ticks seen since the session ended, up to `GAME_OVER_FRAME_CAP`.
    pub fn frames(&self) -> (r: u8)
        ensures
            self@ matches PhaseModel::GameOver { frames } && r == frames,
    {
        self.frames
    }

    /// Counts the tick, up to the cap; a press starts a new countdown.
    pub fn update(&mut self, input: &TickInput) -> (r: Option<GameState>)
        requires
            model_wf(old(self)@),
        ensures
            old(self)@ is GameOver,
            final(self)@ == stepped(old(self)@, *input),
            (r is None) == !leaves(old(self)@, *input),
            r matches Some(s) ==> s@ == successor(old(self)@) && model_wf(s@),
            outcome(final(self)@, r) == next_phase(old(self)@, *input),
            model_wf(outcome(final(self)@, r)),
            model_wf(final(self)@),
    {
        if self.frames < GAME_OVER_FRAME_CAP {
            self.frames = self.frames + 1;
        }
        if input.pressed {
            Some(GameState::GetReady(GetReady::new()))
        } else {
            None
        }
    }
}

impl GameState {
    /// The title screen.
    pub fn new() -> (r: GameState)
        ensures
            r@ == PhaseModel::Waiting,
    {
        GameState::Waiting(Waiting)
    }

    /// What the physics world must do on this tick.
    pub fn physics_request(&self, pressed: bool) -> (r: PhysicsRequest)
        ensures
            r == physics_request_of(self@, pressed),
    {
        match self {
            GameState::Playing(p) => p.physics_request(pressed),
            _ => PhysicsRequest { step: false, create_bodies: false, apply_impulse: false },
        }
    }

    /// What to draw for the live phase; `body` is the player body's
    /// position (subpixels) when the physics world has one.
    pub fn draw(&self, body: Option<Position>, sheet: &Spritesheet) -> (r: Vec<DrawCommand>)
        requires
            sheet.wf(),
            model_wf(self@),
        ensures
            r@ == phase_plan(self@, body, sheet@),
    {
        match self {
            GameState::Waiting(w) => w.draw(sheet),
            GameState::GetReady(g) => g.draw(sheet),
            GameState::Playing(p) => p.draw(body, sheet),
            GameState::GameOver(o) => o.draw(sheet),
        }
    }

    /// One tick: the live phase updates and is replaced when it asks to be.
    pub fn update(&mut self, input: &TickInput)
        requires
            model_wf(old(self)@),
            input.delta <= MAX_TICK_DELTA,
        ensures
            final(self)@ == next_phase(old(self)@, *input),
            model_wf(final(self)@),
    {
        let next = match self {
            GameState::Waiting(w) => w.update(input),
            GameState::GetReady(g) => g.update(input),
            GameState::Playing(p) => p.update(input),
            GameState::GameOver(o) => o.update(input),
        };
        if let Some(n) = next {
            *self = n;
        }
    }
}

/// The top-level session: the single live phase.
pub struct TappyPlane {
    state: GameState,
}

impl View for TappyPlane {
    type V = PhaseModel;

    closed spec fn view(&self) -> PhaseModel {
        self.state@
    }
}

impl Default for TappyPlane {
    fn default() -> (r: TappyPlane)
        ensures
            r@ == PhaseModel::Waiting,
    {
        TappyPlane { state: GameState::new() }
    }
}

impl TappyPlane {
    /// A session on the title screen.
    pub fn new() -> (r: TappyPlane)
        ensures
            r@ == PhaseModel::Waiting,
            model_wf(r@),
    {
        TappyPlane { state: GameState::new() }
    }

    /// The live phase.
    pub fn state(&self) -> (r: &GameState)
        ensures
            r@ == self@,
    {
        &self.state
    }

    /// What the physics world must do on this tick, before `update`.
    pub fn physics_request(&self, pressed: bool) -> (r: PhysicsRequest)
        ensures
            r == physics_request_of(self@, pressed),
    {
        self.state.physics_request(pressed)
    }

    /// What to draw for the session's live phase.
    pub fn draw(&self, body: Option<Position>, sheet: &Spritesheet) -> (r: Vec<DrawCommand>)
        requires
            sheet.wf(),
            model_wf(self@),
        ensures
            r@ == phase_plan(self@, body, sheet@),
    {
        self.state().draw(body, sheet)
    }

    /// One tick of the session.
    pub fn update(&mut self, input: &TickInput)
        requires
            model_wf(old(self)@),
            input.delta <= MAX_TICK_DELTA,
        ensures
            final(self)@ == next_phase(old(self)@, *input),
            model_wf(final(self)@),
    {
        self.state.update(input);
    }
}

} // verus!
