use tappy_plane::engine::FRAME_RATE;
use tappy_plane::game::{
    GameOver, GameState, GetReady, Waiting, TappyPlane, TickInput, BOTTOM_LIMIT, CANVAS_RIGHT, GAME_OVER_FRAME_CAP,
    OBSTACLE_SPACING, PLANE_HALF_HEIGHT, TERRAIN_TILE_WIDTH, TOP_LIMIT,
};
use tappy_plane::physics::{plane_rect, BodyHandle, PhysicsRequest};

const HANDLE: BodyHandle = BodyHandle { index: 3, generation: 0 };

fn tick(pressed: bool) -> TickInput {
    TickInput { delta: FRAME_RATE, pressed, new_body: None, body_y: None, obstacle_from_top: false }
}

fn body_tick(pressed: bool, y: i64) -> TickInput {
    TickInput {
        delta: FRAME_RATE,
        pressed,
        new_body: Some(HANDLE),
        body_y: Some(y),
        obstacle_from_top: true,
    }
}

fn is_waiting(g: &TappyPlane) -> bool {
    matches!(g.state(), GameState::Waiting(_))
}
fn is_get_ready(g: &TappyPlane) -> bool {
    matches!(g.state(), GameState::GetReady(_))
}
fn is_playing(g: &TappyPlane) -> bool {
    matches!(g.state(), GameState::Playing(_))
}
fn is_game_over(g: &TappyPlane) -> bool {
    matches!(g.state(), GameState::GameOver(_))
}

fn playing() -> TappyPlane {
    let mut g = TappyPlane::new();
    g.update(&tick(true));
    for _ in 0..240 {
        g.update(&tick(false));
    }
    assert!(is_playing(&g));
    g
}

const MIDDLE: i64 = 239 * 600;

#[test]
fn waiting_never_moves_without_a_press() {
    let mut g = TappyPlane::default();
    for _ in 0..1_000 {
        g.update(&tick(false));
        assert!(is_waiting(&g));
    }
}

#[test]
fn press_on_title_screen_starts_countdown() {
    let mut g = TappyPlane::new();
    g.update(&tick(true));
    match g.state() {
        GameState::GetReady(r) => assert_eq!(r.time_elapsed(), 0),
        _ => panic!("expected the countdown"),
    }
}

#[test]
fn scenario_press_once_then_countdown_to_play() {
    let mut g = TappyPlane::new();
    g.update(&tick(true));
    assert!(is_get_ready(&g));
    for t in 2..=240 {
        g.update(&tick(false));
        assert!(is_get_ready(&g), "tick {}", t);
    }
    g.update(&tick(false));
    assert!(is_playing(&g));
}

#[test]
fn countdown_ignores_input() {
    let mut g = TappyPlane::new();
    g.update(&tick(true));
    for t in 0..239 {
        g.update(&tick(t % 2 == 0));
        assert!(is_get_ready(&g));
    }
    g.update(&tick(true));
    assert!(is_playing(&g));
}

#[test]
fn countdown_with_a_coarser_step_rounds_up() {
    // 4 s in steps of 7000 units (7/60 s): ceil(240000 / 7000) = 35 ticks
    let mut g = TappyPlane::new();
    g.update(&tick(true));
    let step = TickInput { delta: 7_000, ..tick(false) };
    for _ in 0..34 {
        g.update(&step);
        assert!(is_get_ready(&g));
    }
    g.update(&step);
    assert!(is_playing(&g));
}

#[test]
fn physics_is_only_asked_for_in_play() {
    let g = TappyPlane::new();
    let none = PhysicsRequest { step: false, create_bodies: false, apply_impulse: false };
    assert_eq!(g.physics_request(true), none);
    assert_eq!(g.physics_request(false), none);
}

#[test]
fn impulse_requested_exactly_when_pressed_in_play() {
    let mut g = playing();
    assert_eq!(
        g.physics_request(true),
        PhysicsRequest { step: true, create_bodies: true, apply_impulse: true }
    );
    assert_eq!(
        g.physics_request(false),
        PhysicsRequest { step: true, create_bodies: true, apply_impulse: false }
    );
    g.update(&body_tick(true, MIDDLE));
    assert!(is_playing(&g));
    assert_eq!(
        g.physics_request(true),
        PhysicsRequest { step: true, create_bodies: false, apply_impulse: true }
    );
    assert_eq!(
        g.physics_request(false),
        PhysicsRequest { step: true, create_bodies: false, apply_impulse: false }
    );
    match g.state() {
        GameState::Playing(p) => assert_eq!(p.plane_collider(), Some(HANDLE)),
        _ => panic!("expected play"),
    }
}

#[test]
fn first_tick_of_play_spawns_an_obstacle_at_the_right_edge() {
    let mut g = playing();
    g.update(&body_tick(false, MIDDLE));
    match g.state() {
        GameState::Playing(p) => {
            assert_eq!(p.obstacles().len(), 1);
            assert_eq!(p.obstacles()[0].x, CANVAS_RIGHT);
            assert_eq!(p.obstacles()[0].y, 0);
        }
        _ => panic!("expected play"),
    }
}

#[test]
fn obstacles_in_play_keep_their_spacing() {
    let mut g = playing();
    for _ in 0..2_000 {
        g.update(&body_tick(false, MIDDLE));
        match g.state() {
            GameState::Playing(p) => {
                let v = p.obstacles();
                for w in v.windows(2) {
                    assert!(w[1].x - w[0].x >= OBSTACLE_SPACING);
                }
                assert!(v.iter().all(|o| o.x >= -120_000 && o.x <= CANVAS_RIGHT));
            }
            _ => panic!("expected play"),
        }
    }
}

#[test]
fn terrain_offset_wraps_within_one_tile() {
    let mut g = playing();
    let mut expected: i64 = 0;
    for _ in 0..1_000 {
        g.update(&body_tick(false, MIDDLE));
        expected = (expected + 1_000) % TERRAIN_TILE_WIDTH;
        match g.state() {
            GameState::Playing(p) => {
                let o = p.terrain_offset();
                assert!(o >= 0 && o < TERRAIN_TILE_WIDTH);
                assert_eq!(o, expected);
            }
            _ => panic!("expected play"),
        }
    }
    // 1000 steps of 1000 subpixels, minus two whole tiles
    assert_eq!(expected, 1_000_000 - 2 * TERRAIN_TILE_WIDTH);
}

#[test]
fn propeller_cycles_through_three_frames() {
    let mut g = playing();
    let mut frames = Vec::new();
    for _ in 0..9 {
        g.update(&body_tick(false, MIDDLE));
        if let GameState::Playing(p) = g.state() {
            frames.push(p.plane_frame());
        }
    }
    assert_eq!(frames, vec![1, 1, 2, 2, 2, 0, 0, 0, 1]);
}

#[test]
fn game_over_fires_on_the_exact_crossing_tick() {
    let mut g = playing();
    let top_edge = TOP_LIMIT + PLANE_HALF_HEIGHT;
    let ys = [MIDDLE, MIDDLE - 30_000, top_edge + 600, top_edge];
    for y in ys {
        g.update(&body_tick(false, y));
        assert!(is_playing(&g));
    }
    g.update(&body_tick(false, top_edge - 1));
    assert!(is_game_over(&g));
}

#[test]
fn game_over_at_the_bottom_band() {
    let mut g = playing();
    let bottom_edge = BOTTOM_LIMIT - PLANE_HALF_HEIGHT;
    g.update(&body_tick(false, bottom_edge));
    assert!(is_playing(&g));
    g.update(&body_tick(false, bottom_edge + 1));
    assert!(is_game_over(&g));
}

#[test]
fn no_game_over_before_the_body_exists() {
    let mut g = playing();
    let t = TickInput { body_y: Some(0), ..tick(false) };
    g.update(&t);
    assert!(is_playing(&g));
}

#[test]
fn scenario_free_fall_ends_the_session() {
    // a deterministic fall: gravity 98.1 px/s^2, no impulse, from the
    // starting centre of the player body
    let mut y: i64 = plane_rect().collider_shape().center_y;
    assert_eq!(y, 239 * 600 + 300);
    let mut vy: i64 = 0;
    let g_per_tick: i64 = 98_1 * 600 / 10 / 60;
    let mut g = playing();
    let mut ticks = 0;
    let mut last_y = y;
    while is_playing(&g) {
        assert!(ticks < 600, "the session did not end");
        vy += g_per_tick;
        y += vy / 60;
        last_y = y;
        g.update(&body_tick(false, y));
        ticks += 1;
    }
    assert!(is_game_over(&g));
    assert!(last_y + PLANE_HALF_HEIGHT > BOTTOM_LIMIT);
    assert!(!(last_y - PLANE_HALF_HEIGHT < TOP_LIMIT));
}

#[test]
fn game_over_frames_saturate_and_press_restarts() {
    let mut g = playing();
    g.update(&body_tick(false, 0));
    match g.state() {
        GameState::GameOver(o) => assert_eq!(o.frames(), 0),
        _ => panic!("expected game over"),
    }
    for _ in 0..10 {
        g.update(&tick(false));
    }
    match g.state() {
        GameState::GameOver(o) => assert_eq!(o.frames(), GAME_OVER_FRAME_CAP),
        _ => panic!("expected game over"),
    }
    g.update(&tick(true));
    match g.state() {
        GameState::GetReady(r) => assert_eq!(r.time_elapsed(), 0),
        _ => panic!("expected the countdown"),
    }
}

#[test]
fn a_new_session_starts_fresh() {
    let mut g = playing();
    for _ in 0..100 {
        g.update(&body_tick(false, MIDDLE));
    }
    g.update(&body_tick(false, 0));
    g.update(&tick(true));
    for _ in 0..240 {
        g.update(&tick(false));
    }
    match g.state() {
        GameState::Playing(p) => {
            assert_eq!(p.obstacles().len(), 0);
            assert_eq!(p.plane_collider(), None);
            assert_eq!(p.terrain_offset(), 0);
        }
        _ => panic!("expected play"),
    }
    assert_eq!(g.physics_request(false).create_bodies, true);
}

fn input(delta: u64, pressed: bool) -> TickInput {
    TickInput { delta, ..tick(pressed) }
}

#[test]
fn waiting_update_returns_none_without_press() {
    let w = Waiting;
    assert!(w.update(&input(FRAME_RATE, false)).is_none());
    assert!(w.update(&input(0, false)).is_none());
    match w.update(&input(FRAME_RATE, true)) {
        Some(GameState::GetReady(r)) => assert_eq!(r.time_elapsed(), 0),
        _ => panic!("expected the countdown"),
    }
}

#[test]
fn get_ready_update_counts_even_on_the_last_tick() {
    let mut r = GetReady::new();
    for k in 1..240u64 {
        assert!(r.update(&input(FRAME_RATE, k % 2 == 0)).is_none());
        assert_eq!(r.time_elapsed(), k * FRAME_RATE);
    }
    match r.update(&input(FRAME_RATE, false)) {
        Some(GameState::Playing(p)) => {
            assert_eq!(p.obstacles().len(), 0);
            assert_eq!(p.plane_collider(), None);
            assert_eq!(p.terrain_offset(), 0);
            assert_eq!(p.plane_frame(), 1);
        }
        _ => panic!("expected play"),
    }
    assert_eq!(r.time_elapsed(), 240 * FRAME_RATE);
}

#[test]
fn game_over_update_counts_frames_before_restart() {
    let mut o = GameOver::new();
    assert!(o.update(&input(FRAME_RATE, false)).is_none());
    assert_eq!(o.frames(), 1);
    assert!(o.update(&input(FRAME_RATE, false)).is_none());
    assert!(o.update(&input(FRAME_RATE, false)).is_none());
    assert_eq!(o.frames(), 2);
    assert!(matches!(o.update(&input(FRAME_RATE, true)), Some(GameState::GetReady(_))));
    assert_eq!(o.frames(), 2);
}
