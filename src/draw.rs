use vstd::prelude::*;

use crate::engine::{Position, Rect, CANVAS_HEIGHT, CANVAS_WIDTH, SUBPIXELS_PER_PIXEL, TIME_UNITS_PER_SECOND};
use crate::game::{
    model_wf, GameOver, GetReady, PhaseModel, Playing, Waiting, GET_READY_DURATION,
    PLANE_FRAME_DURATION,
};
use crate::sprites::{plane_sprite, sprite_index, Sprite, Spritesheet};

verus! {

/// Gap in pixels between the plane and each "tap" hint on the title screen.
pub const TAP_HINT_GAP: i64 = 8;

/// One request to the renderer. Rectangles are in canvas pixels.
#[derive(Clone, Copy, Debug, PartialEq, Eq)]
pub enum DrawCommand {
    /// Clear a region.
    Clear(Rect),
    /// Draw a sprite into a region.
    Image { sprite: Sprite, dest: Rect },
    /// Draw a sprite turned by half a turn into a region.
    ImageTurned { sprite: Sprite, dest: Rect },
}

/// `v` brought into the range of `i32`.
pub open spec fn clamp32(v: int) -> i32 {
    if v < i32::MIN {
        i32::MIN
    } else if v > i32::MAX {
        i32::MAX
    } else {
        v as i32
    }
}

/// `v` brought into the range of `i32`.
pub fn to_i32(v: i128) -> (r: i32)
    ensures
        r == clamp32(v as int),
{
    if v < i32::MIN as i128 {
        i32::MIN
    } else if v > i32::MAX as i128 {
        i32::MAX
    } else {
        v as i32
    }
}

/// `v / d` rounded towards negative infinity.
pub fn floor_div(v: i128, d: i128) -> (r: i128)
    requires
        d > 0,
    ensures
        r == v / d,
{
    if v >= 0 {
        v / d
    } else {
        let w = -(v + 1);
        let q = w / d;
        proof {
            let r = w % d;
            vstd::arithmetic::div_mod::lemma_fundamental_div_mod(w as int, d as int);
            assert(v == d * (-q - 1) + (d - 1 - r)) by (nonlinear_arith)
                requires
                    w == d * q + r,
                    v == -w - 1,
            ;
            vstd::arithmetic::div_mod::lemma_fundamental_div_mod_converse(
                v as int,
                d as int,
                -q - 1,
                d - 1 - r,
            );
        }
        -q - 1
    }
}

/// `v / d` rounded towards zero, as a cast of a fraction to an integer does.
pub open spec fn trunc_div(v: int, d: int) -> int {
    if v >= 0 {
        v / d
    } else {
        -((-v) / d)
    }
}

/// `v / d` rounded towards zero.
pub fn truncating_div(v: i128, d: i128) -> (r: i128)
    requires
        d > 0,
        v > i128::MIN,
    ensures
        r == trunc_div(v as int, d as int),
{
    if v >= 0 {
        v / d
    } else {
        -((-v) / d)
    }
}

/// The whole canvas.
pub open spec fn canvas_rect() -> Rect {
    Rect { x: 0, y: 0, width: CANVAS_WIDTH as i32, height: CANVAS_HEIGHT as i32 }
}

/// The region of a sprite in an atlas table.
pub open spec fn tile_of(tiles: Seq<Rect>, s: Sprite) -> Rect {
    tiles[sprite_index(s)]
}

/// A sprite drawn at full size with its top-left corner at (x, y).
pub open spec fn placed(sprite: Sprite, x: int, y: int, size: Rect) -> DrawCommand {
    DrawCommand::Image {
        sprite,
        dest: Rect { x: clamp32(x), y: clamp32(y), width: size.width, height: size.height },
    }
}

/// A sprite turned by half a turn, filling the region with top-left corner
/// (x, y) and the sprite's size.
pub open spec fn turned(sprite: Sprite, x: int, y: int, size: Rect) -> DrawCommand {
    DrawCommand::ImageTurned {
        sprite,
        dest: Rect { x: clamp32(x), y: clamp32(y), width: size.width, height: size.height },
    }
}

/// Whole pixels in a subpixel coordinate, rounded down.
pub open spec fn to_pixels(v: int) -> int {
    v / (SUBPIXELS_PER_PIXEL as int)
}

/// The terrain: two grass tiles along the bottom and two dirt tiles, turned
/// upside down, along the top, all shifted left by `offset` pixels.
pub open spec fn limits_plan(offset: int, tiles: Seq<Rect>) -> Seq<DrawCommand> {
    let below = tile_of(tiles, Sprite::GroundGrass);
    let above = tile_of(tiles, Sprite::GroundDirt);
    seq![
        placed(Sprite::GroundGrass, -offset, CANVAS_HEIGHT - below.height, below),
        placed(Sprite::GroundGrass, -offset + below.width, CANVAS_HEIGHT - below.height, below),
        turned(Sprite::GroundDirt, -offset, 0, above),
        turned(Sprite::GroundDirt, -offset + above.width, 0, above),
    ]
}

/// An obstacle: a rock standing on the bottom, or one hanging from the top.
pub open spec fn obstacle_command(p: Position, tiles: Seq<Rect>) -> DrawCommand {
    if p.y > 0 {
        let rock = tile_of(tiles, Sprite::Rock);
        placed(Sprite::Rock, to_pixels(p.x as int), to_pixels(p.y as int) - rock.height, rock)
    } else {
        let rock = tile_of(tiles, Sprite::RockDown);
        placed(Sprite::RockDown, to_pixels(p.x as int), to_pixels(p.y as int), rock)
    }
}

/// Every obstacle, in order.
pub open spec fn obstacles_plan(s: Seq<Position>, tiles: Seq<Rect>) -> Seq<DrawCommand> {
    Seq::new(s.len(), |i: int| obstacle_command(s[i], tiles))
}

/// Left edge (pixels) of a sprite of width `w` centred on the canvas,
/// rounded towards zero.
pub open spec fn centred_x(w: int) -> int {
    trunc_div(CANVAS_WIDTH - w, 2)
}

/// Top edge (pixels) of a sprite of height `h` centred on the canvas,
/// rounded towards zero.
pub open spec fn centred_y(h: int) -> int {
    trunc_div(CANVAS_HEIGHT - h, 2)
}

/// A sprite in the middle of the canvas, halves rounded down separately.
pub open spec fn centred(sprite: Sprite, tiles: Seq<Rect>) -> DrawCommand {
    let t = tile_of(tiles, sprite);
    placed(sprite, CANVAS_WIDTH / 2 - t.width / 2, CANVAS_HEIGHT / 2 - t.height / 2, t)
}

/// The title screen: the plane in the middle between two "tap" hints.
pub open spec fn waiting_plan(tiles: Seq<Rect>) -> Seq<DrawCommand> {
    let plane = tile_of(tiles, Sprite::PlaneRed1);
    let right = tile_of(tiles, Sprite::TapRight);
    let left = tile_of(tiles, Sprite::TapLeft);
    let h = centred_x(plane.width as int);
    seq![DrawCommand::Clear(canvas_rect()), placed(Sprite::Background, 0, 0, canvas_rect())]
        + limits_plan(0, tiles) + seq![
        placed(Sprite::PlaneRed1, h, centred_y(plane.height as int), plane),
        placed(
            Sprite::TapRight,
            h - right.width - TAP_HINT_GAP,
            CANVAS_HEIGHT / 2 - right.height / 2,
            right,
        ),
        placed(
            Sprite::TapLeft,
            h + left.width + TAP_HINT_GAP,
            CANVAS_HEIGHT / 2 - left.height / 2,
            left,
        ),
    ]
}

/// The countdown sprite after `t` time units: "get ready", then 3, 2, 1,
/// never past the last one.
pub open spec fn countdown_sprite(t: int) -> Sprite {
    let second = t / (TIME_UNITS_PER_SECOND as int);
    if second <= 0 {
        Sprite::TextGetReady
    } else if second == 1 {
        Sprite::Number3
    } else if second == 2 {
        Sprite::Number2
    } else {
        Sprite::Number1
    }
}

/// Left edge (pixels) of the plane of width `w` during the countdown: it
/// glides from the middle of the canvas to `w` from the left edge, linearly
/// over the countdown; rounded towards zero.
pub open spec fn gliding_x(w: int, t: int) -> int {
    let d = GET_READY_DURATION as int;
    trunc_div(CANVAS_WIDTH * d - w * d - (CANVAS_WIDTH - 3 * w) * t, 2 * d)
}

/// The countdown screen after `t` time units.
pub open spec fn get_ready_plan(t: int, tiles: Seq<Rect>) -> Seq<DrawCommand> {
    let plane = tile_of(tiles, Sprite::PlaneRed1);
    seq![DrawCommand::Clear(canvas_rect()), placed(Sprite::Background, 0, 0, canvas_rect())]
        + limits_plan(0, tiles) + seq![
        placed(
            Sprite::PlaneRed1,
            gliding_x(plane.width as int, t),
            centred_y(plane.height as int),
            plane,
        ),
        centred(countdown_sprite(t), tiles),
    ]
}

/// The plane of animation frame `frame` centred on body position `pos`
/// (subpixels); its offset is half the first frame's size, and the corner
/// is rounded to whole pixels towards zero.
pub open spec fn plane_command(frame: int, pos: Position, tiles: Seq<Rect>) -> DrawCommand {
    let first = tile_of(tiles, Sprite::PlaneRed1);
    let sprite = plane_sprite(frame);
    placed(
        sprite,
        trunc_div(pos.x - first.width * SUBPIXELS_PER_PIXEL / 2, SUBPIXELS_PER_PIXEL as int),
        trunc_div(pos.y - first.height * SUBPIXELS_PER_PIXEL / 2, SUBPIXELS_PER_PIXEL as int),
        tile_of(tiles, sprite),
    )
}

/// A frame of play: the plane where the physics world has it (if it has
/// built it), the obstacles, then the terrain in front.
pub open spec fn playing_plan(
    m: PhaseModel,
    body: Option<Position>,
    tiles: Seq<Rect>,
) -> Seq<DrawCommand> {
    match m {
        PhaseModel::Playing { plane_clock, terrain_offset, obstacles, plane, .. } => {
            let base = seq![
                DrawCommand::Clear(canvas_rect()),
                placed(Sprite::Background, 0, 0, canvas_rect()),
            ];
            let with_plane = if plane is Some && body is Some {
                base.push(
                    plane_command(
                        plane_clock as int / (PLANE_FRAME_DURATION as int),
                        body->Some_0,
                        tiles,
                    ),
                )
            } else {
                base
            };
            with_plane + obstacles_plan(obstacles, tiles) + limits_plan(
                to_pixels(terrain_offset as int),
                tiles,
            )
        },
        _ => Seq::empty(),
    }
}

/// The end screen: the "game over" text over the last frame of play, on the
/// first frame only.
pub open spec fn game_over_plan(frames: int, tiles: Seq<Rect>) -> Seq<DrawCommand> {
    if frames < 1 {
        seq![centred(Sprite::TextGameOver, tiles)]
    } else {
        Seq::empty()
    }
}

/// What to draw for a phase.
pub open spec fn phase_plan(m: PhaseModel, body: Option<Position>, tiles: Seq<Rect>) -> Seq<
    DrawCommand,
> {
    match m {
        PhaseModel::Waiting => waiting_plan(tiles),
        PhaseModel::GetReady { time_elapsed, .. } => get_ready_plan(time_elapsed as int, tiles),
        PhaseModel::Playing { .. } => playing_plan(m, body, tiles),
        PhaseModel::GameOver { frames } => game_over_plan(frames as int, tiles),
    }
}

fn place(sprite: Sprite, x: i128, y: i128, size: Rect) -> (r: DrawCommand)
    ensures
        r == placed(sprite, x as int, y as int, size),
{
    DrawCommand::Image {
        sprite,
        dest: Rect { x: to_i32(x), y: to_i32(y), width: size.width, height: size.height },
    }
}

fn turn(sprite: Sprite, x: i128, y: i128, size: Rect) -> (r: DrawCommand)
    ensures
        r == turned(sprite, x as int, y as int, size),
{
    DrawCommand::ImageTurned {
        sprite,
        dest: Rect { x: to_i32(x), y: to_i32(y), width: size.width, height: size.height },
    }
}

/// Clears the whole canvas.
pub fn clear_canvas() -> (r: DrawCommand)
    ensures
        r == DrawCommand::Clear(canvas_rect()),
{
    DrawCommand::Clear(Rect { x: 0, y: 0, width: CANVAS_WIDTH as i32, height: CANVAS_HEIGHT as i32 })
}

/// The background, stretched over the canvas.
pub fn draw_background() -> (r: DrawCommand)
    ensures
        r == placed(Sprite::Background, 0, 0, canvas_rect()),
{
    place(Sprite::Background, 0, 0, Rect { x: 0, y: 0, width: CANVAS_WIDTH as i32, height: CANVAS_HEIGHT as i32 })
}

/// The terrain, scrolled left by `offset` pixels.
pub fn draw_limits(offset: i64, sheet: &Spritesheet) -> (r: Vec<DrawCommand>)
    requires
        sheet.wf(),
    ensures
        r@ == limits_plan(offset as int, sheet@),
{
    let below = sheet.tile(Sprite::GroundGrass);
    let above = sheet.tile(Sprite::GroundDirt);
    let o = offset as i128;
    let mut r: Vec<DrawCommand> = Vec::new();
    r.push(place(Sprite::GroundGrass, -o, (CANVAS_HEIGHT as i128) - below.height as i128, below));
    r.push(
        place(
            Sprite::GroundGrass,
            -o + below.width as i128,
            (CANVAS_HEIGHT as i128) - below.height as i128,
            below,
        ),
    );
    r.push(turn(Sprite::GroundDirt, -o, 0, above));
    r.push(turn(Sprite::GroundDirt, -o + above.width as i128, 0, above));
    proof {
        assert(r@ =~= limits_plan(offset as int, sheet@));
    }
    r
}

/// A plane sprite with its top-left corner at (x, y) pixels.
pub fn draw_plane(sprite: Sprite, x: i64, y: i64, sheet: &Spritesheet) -> (r: DrawCommand)
    requires
        sheet.wf(),
    ensures
        r == placed(sprite, x as int, y as int, tile_of(sheet@, sprite)),
{
    place(sprite, x as i128, y as i128, sheet.tile(sprite))
}

fn draw_obstacle(p: Position, sheet: &Spritesheet) -> (r: DrawCommand)
    requires
        sheet.wf(),
    ensures
        r == obstacle_command(p, sheet@),
{
    let x = floor_div(p.x as i128, SUBPIXELS_PER_PIXEL as i128);
    let y = floor_div(p.y as i128, SUBPIXELS_PER_PIXEL as i128);
    if p.y > 0 {
        let rock = sheet.tile(Sprite::Rock);
        place(Sprite::Rock, x, y - rock.height as i128, rock)
    } else {
        place(Sprite::RockDown, x, y, sheet.tile(Sprite::RockDown))
    }
}

/// Every obstacle, in order, with its visible edge flush with the terrain
/// band it belongs to.
pub fn draw_obstacles(obstacles: &Vec<Position>, sheet: &Spritesheet) -> (r: Vec<DrawCommand>)
    requires
        sheet.wf(),
    ensures
        r@ == obstacles_plan(obstacles@, sheet@),
{
    let mut r: Vec<DrawCommand> = Vec::new();
    let mut i: usize = 0;
    while i < obstacles.len()
        invariant
            sheet.wf(),
            i <= obstacles@.len(),
            r@ =~= obstacles_plan(obstacles@.subrange(0, i as int), sheet@),
        decreases obstacles@.len() - i,
    {
        r.push(draw_obstacle(obstacles[i], sheet));
        i = i + 1;
    }
    proof {
        assert(obstacles@.subrange(0, i as int) =~= obstacles@);
    }
    r
}

fn draw_centred(sprite: Sprite, sheet: &Spritesheet) -> (r: DrawCommand)
    requires
        sheet.wf(),
    ensures
        r == centred(sprite, sheet@),
{
    let t = sheet.tile(sprite);
    place(
        sprite,
        (CANVAS_WIDTH / 2) as i128 - (t.width / 2) as i128,
        (CANVAS_HEIGHT / 2) as i128 - (t.height / 2) as i128,
        t,
    )
}

impl Waiting {
    /// The title screen.
    pub fn draw(&self, sheet: &Spritesheet) -> (r: Vec<DrawCommand>)
        requires
            sheet.wf(),
        ensures
            r@ == waiting_plan(sheet@),
    {
        let plane = sheet.tile(Sprite::PlaneRed1);
        let right = sheet.tile(Sprite::TapRight);
        let left = sheet.tile(Sprite::TapLeft);
        let h = truncating_div(CANVAS_WIDTH as i128 - plane.width as i128, 2);
        let v = truncating_div(CANVAS_HEIGHT as i128 - plane.height as i128, 2);
        let mut r: Vec<DrawCommand> = Vec::new();
        r.push(clear_canvas());
        r.push(draw_background());
        let mut limits = draw_limits(0, sheet);
        r.append(&mut limits);
        r.push(place(Sprite::PlaneRed1, h, v, plane));
        r.push(
            place(
                Sprite::TapRight,
                h - right.width as i128 - TAP_HINT_GAP as i128,
                (CANVAS_HEIGHT / 2) as i128 - (right.height / 2) as i128,
                right,
            ),
        );
        r.push(
            place(
                Sprite::TapLeft,
                h + left.width as i128 + TAP_HINT_GAP as i128,
                (CANVAS_HEIGHT / 2) as i128 - (left.height / 2) as i128,
                left,
            ),
        );
        proof {
            assert(r@ =~= waiting_plan(sheet@));
        }
        r
    }
}

impl GetReady {
    /// The countdown screen.
    pub fn draw(&self, sheet: &Spritesheet) -> (r: Vec<DrawCommand>)
        requires
            sheet.wf(),
            model_wf(self@),
        ensures
            self@ matches PhaseModel::GetReady { time_elapsed, .. } && r@ == get_ready_plan(
                time_elapsed as int,
                sheet@,
            ),
    {
        let t = self.time_elapsed();
        let plane = sheet.tile(Sprite::PlaneRed1);
        let w = plane.width as i128;
        let d = GET_READY_DURATION as i128;
        let cw = CANVAS_WIDTH as i128;
        proof {
            assert(0 <= w * d <= 0x8000_0000 * 240000) by (nonlinear_arith)
                requires 0 <= w <= 0x8000_0000, d == 240000;
            assert(-0x2_0000_0000 * 240000 <= (cw - 3 * w) * (t as i128) <= 0x2_0000_0000 * 240000) by (nonlinear_arith)
                requires 0 <= w <= 0x8000_0000, 0 <= t < 240000, cw == 800;
        }
        let h = truncating_div(cw * d - w * d - (cw - 3 * w) * (t as i128), 2 * d);
        let v = truncating_div(CANVAS_HEIGHT as i128 - plane.height as i128, 2);
        let second = t / TIME_UNITS_PER_SECOND;
        let sprite = if second == 0 {
            Sprite::TextGetReady
        } else if second == 1 {
            Sprite::Number3
        } else if second == 2 {
            Sprite::Number2
        } else {
            Sprite::Number1
        };
        let mut r: Vec<DrawCommand> = Vec::new();
        r.push(clear_canvas());
        r.push(draw_background());
        let mut limits = draw_limits(0, sheet);
        r.append(&mut limits);
        r.push(place(Sprite::PlaneRed1, h, v, plane));
        r.push(draw_centred(sprite, sheet));
        proof {
            assert(r@ =~= get_ready_plan(t as int, sheet@));
        }
        r
    }
}

impl Playing {
    /// A frame of play; `body` is the player body's position (subpixels) as
    /// the physics world reports it.
    pub fn draw(&self, body: Option<Position>, sheet: &Spritesheet) -> (r: Vec<DrawCommand>)
        requires
            sheet.wf(),
            model_wf(self@),
        ensures
            r@ == playing_plan(self@, body, sheet@),
    {
        let mut r: Vec<DrawCommand> = Vec::new();
        r.push(clear_canvas());
        r.push(draw_background());
        if self.plane_collider().is_some() {
            if let Some(pos) = body {
                let first = sheet.tile(Sprite::PlaneRed1);
                let sprite = Sprite::plane(self.plane_frame());
                let half_w = first.width as i128 * SUBPIXELS_PER_PIXEL as i128 / 2;
                let half_h = first.height as i128 * SUBPIXELS_PER_PIXEL as i128 / 2;
                let x = truncating_div(pos.x as i128 - half_w, SUBPIXELS_PER_PIXEL as i128);
                let y = truncating_div(pos.y as i128 - half_h, SUBPIXELS_PER_PIXEL as i128);
                r.push(place(sprite, x, y, sheet.tile(sprite)));
            }
        }
        let mut obstacles = draw_obstacles(self.obstacles(), sheet);
        r.append(&mut obstacles);
        let offset = self.terrain_offset() / SUBPIXELS_PER_PIXEL;
        let mut limits = draw_limits(offset, sheet);
        r.append(&mut limits);
        proof {
            assert(r@ =~= playing_plan(self@, body, sheet@));
        }
        r
    }
}

impl GameOver {
    /// The end screen, drawn over the last frame of play.
    pub fn draw(&self, sheet: &Spritesheet) -> (r: Vec<DrawCommand>)
        requires
            sheet.wf(),
        ensures
            self@ matches PhaseModel::GameOver { frames } && r@ == game_over_plan(
                frames as int,
                sheet@,
            ),
    {
        let mut r: Vec<DrawCommand> = Vec::new();
        if self.frames() < 1 {
            r.push(draw_centred(Sprite::TextGameOver, sheet));
        }
        proof {
            assert(r@ =~= game_over_plan(self@->GameOver_frames as int, sheet@));
        }
        r
    }
}

} // verus!
