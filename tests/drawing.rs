use tappy_plane::draw::{
    clear_canvas, draw_background, draw_limits, draw_obstacles, draw_plane, floor_div, to_i32,
    DrawCommand,
};
use tappy_plane::engine::{Position, Rect, FRAME_RATE};
use tappy_plane::game::{GameState, TappyPlane, TickInput};
use tappy_plane::physics::BodyHandle;
use tappy_plane::sprites::{all_sprites, Sprite, Spritesheet, SPRITE_COUNT};

fn size(sprite: Sprite) -> (i32, i32) {
    match sprite {
        Sprite::Background => (800, 480),
        Sprite::GroundDirt => (808, 71),
        Sprite::GroundGrass => (808, 71),
        Sprite::PlaneRed1 | Sprite::PlaneRed2 | Sprite::PlaneRed3 => (88, 73),
        Sprite::Rock | Sprite::RockDown => (108, 239),
        Sprite::TapLeft | Sprite::TapRight => (85, 42),
        Sprite::TextGetReady => (400, 73),
        Sprite::Number3 | Sprite::Number2 | Sprite::Number1 => (61, 79),
        Sprite::TextGameOver => (412, 78),
    }
}

fn sheet() -> Spritesheet {
    let tiles: Vec<Rect> = all_sprites()
        .iter()
        .enumerate()
        .map(|(i, s)| {
            let (w, h) = size(*s);
            Rect { x: i as i32 * 10, y: 0, width: w, height: h }
        })
        .collect();
    Spritesheet::new(String::from("sheet.png"), tiles).unwrap()
}

fn image(sprite: Sprite, x: i32, y: i32) -> DrawCommand {
    let (width, height) = size(sprite);
    DrawCommand::Image { sprite, dest: Rect { x, y, width, height } }
}

fn tick(pressed: bool) -> TickInput {
    TickInput { delta: FRAME_RATE, pressed, new_body: None, body_y: None, obstacle_from_top: false }
}

#[test]
fn sprite_table_is_complete_and_ordered() {
    let all = all_sprites();
    assert_eq!(all.len(), SPRITE_COUNT);
    for (i, s) in all.iter().enumerate() {
        assert_eq!(s.index(), i);
    }
    assert_eq!(Sprite::Rock.file_name(), "rock.png");
    assert_eq!(Sprite::PlaneRed3.file_name(), "planeRed3.png");
    assert_eq!(Sprite::plane(0), Sprite::PlaneRed1);
    assert_eq!(Sprite::plane(2), Sprite::PlaneRed3);
}

#[test]
fn spritesheet_rejects_wrong_tables() {
    let short = vec![Rect { x: 0, y: 0, width: 1, height: 1 }; SPRITE_COUNT - 1];
    assert!(Spritesheet::new(String::from("a.png"), short).is_none());
    let mut bad = vec![Rect { x: 0, y: 0, width: 1, height: 1 }; SPRITE_COUNT];
    bad[4].height = -1;
    assert!(Spritesheet::new(String::from("a.png"), bad).is_none());
    let s = sheet();
    assert_eq!(s.image(), "sheet.png");
    assert_eq!(s.tile(Sprite::Rock), Rect { x: 60, y: 0, width: 108, height: 239 });
}

#[test]
fn floor_division_rounds_down() {
    assert_eq!(floor_div(7, 2), 3);
    assert_eq!(floor_div(-7, 2), -4);
    assert_eq!(floor_div(-600, 600), -1);
    assert_eq!(floor_div(-601, 600), -2);
    assert_eq!(floor_div(0, 600), 0);
}

#[test]
fn conversion_to_i32_clamps() {
    assert_eq!(to_i32(5), 5);
    assert_eq!(to_i32(-5), -5);
    assert_eq!(to_i32(1 << 40), i32::MAX);
    assert_eq!(to_i32(-(1 << 40)), i32::MIN);
}

#[test]
fn canvas_clear_and_background() {
    let canvas = Rect { x: 0, y: 0, width: 800, height: 480 };
    assert_eq!(clear_canvas(), DrawCommand::Clear(canvas));
    assert_eq!(
        draw_background(),
        DrawCommand::Image { sprite: Sprite::Background, dest: canvas }
    );
}

#[test]
fn terrain_tiles_scroll_with_offset() {
    let s = sheet();
    let turned = |x: i32| DrawCommand::ImageTurned {
        sprite: Sprite::GroundDirt,
        dest: Rect { x, y: 0, width: 808, height: 71 },
    };
    assert_eq!(
        draw_limits(100, &s),
        vec![
            image(Sprite::GroundGrass, -100, 409),
            image(Sprite::GroundGrass, 708, 409),
            turned(-100),
            turned(708),
        ]
    );
}

#[test]
fn obstacles_sit_flush_with_their_band() {
    let s = sheet();
    let obstacles = vec![Position { x: 300_000, y: 480 * 600 }, Position { x: -601, y: 0 }];
    assert_eq!(
        draw_obstacles(&obstacles, &s),
        vec![image(Sprite::Rock, 500, 480 - 239), image(Sprite::RockDown, -2, 0)]
    );
}

#[test]
fn plane_is_drawn_at_its_corner() {
    let s = sheet();
    assert_eq!(draw_plane(Sprite::PlaneRed2, 10, 20, &s), image(Sprite::PlaneRed2, 10, 20));
}

#[test]
fn title_screen_plan() {
    let s = sheet();
    let g = TappyPlane::new();
    let plan = g.draw(None, &s);
    assert_eq!(plan.len(), 9);
    assert_eq!(plan[0], clear_canvas());
    assert_eq!(plan[1], draw_background());
    assert_eq!(&plan[2..6], &draw_limits(0, &s)[..]);
    assert_eq!(plan[6], image(Sprite::PlaneRed1, 356, 203));
    assert_eq!(plan[7], image(Sprite::TapRight, 356 - 85 - 8, 240 - 21));
    assert_eq!(plan[8], image(Sprite::TapLeft, 356 + 85 + 8, 240 - 21));
}

#[test]
fn countdown_plan_glides_and_counts() {
    let s = sheet();
    let mut g = TappyPlane::new();
    g.update(&tick(true));
    let plan = g.draw(None, &s);
    assert_eq!(plan.len(), 8);
    assert_eq!(plan[6], image(Sprite::PlaneRed1, 356, 203));
    assert_eq!(plan[7], image(Sprite::TextGetReady, 200, 240 - 36));
    // two seconds in: halfway from 356 to 88
    for _ in 0..120 {
        g.update(&tick(false));
    }
    let plan = g.draw(None, &s);
    assert_eq!(plan[6], image(Sprite::PlaneRed1, 222, 203));
    assert_eq!(plan[7], image(Sprite::Number2, 400 - 30, 240 - 39));
    // the last tick before play still shows the last number
    for _ in 0..119 {
        g.update(&tick(false));
    }
    let plan = g.draw(None, &s);
    assert_eq!(plan[7], image(Sprite::Number1, 400 - 30, 240 - 39));
    assert!(matches!(g.state(), GameState::GetReady(_)));
}

#[test]
fn play_plan_draws_plane_obstacles_and_terrain() {
    let s = sheet();
    let mut g = TappyPlane::new();
    g.update(&tick(true));
    for _ in 0..240 {
        g.update(&tick(false));
    }
    let body = TickInput {
        new_body: Some(BodyHandle { index: 0, generation: 1 }),
        body_y: Some(239 * 600),
        ..tick(false)
    };
    g.update(&body);
    let plan = g.draw(Some(Position { x: 132 * 600, y: 239 * 600 }), &s);
    assert_eq!(plan.len(), 3 + 1 + 4);
    assert_eq!(plan[2], image(Sprite::PlaneRed2, 132 - 44, 239 - 37));
    // the obstacle spawned at 800 px and the terrain scrolled by one step
    assert_eq!(plan[3], image(Sprite::Rock, 800, 480 - 239));
    assert_eq!(plan[4], image(Sprite::GroundGrass, -1, 409));
    let without_body = g.draw(None, &s);
    assert_eq!(without_body.len(), 2 + 1 + 4);
}

#[test]
fn game_over_text_shows_on_the_first_frame_only() {
    let s = sheet();
    let mut g = TappyPlane::new();
    g.update(&tick(true));
    for _ in 0..240 {
        g.update(&tick(false));
    }
    let crash = TickInput {
        new_body: Some(BodyHandle { index: 0, generation: 1 }),
        body_y: Some(0),
        ..tick(false)
    };
    g.update(&crash);
    assert_eq!(g.draw(None, &s), vec![image(Sprite::TextGameOver, 400 - 206, 240 - 39)]);
    g.update(&tick(false));
    assert_eq!(g.draw(None, &s), vec![]);
}

fn sheet_with_plane(w: i32, h: i32) -> Spritesheet {
    let tiles: Vec<Rect> = all_sprites()
        .iter()
        .map(|s| {
            let (sw, sh) = match s {
                Sprite::PlaneRed1 | Sprite::PlaneRed2 | Sprite::PlaneRed3 => (w, h),
                other => size(*other),
            };
            Rect { x: 0, y: 0, width: sw, height: sh }
        })
        .collect();
    Spritesheet::new(String::from("sheet.png"), tiles).unwrap()
}

#[test]
fn title_plane_position_rounds_towards_zero() {
    let s = sheet_with_plane(801, 481);
    let plan = TappyPlane::new().draw(None, &s);
    let DrawCommand::Image { dest, .. } = plan[6] else { panic!("expected the plane") };
    assert_eq!((dest.x, dest.y), (0, 0));
    let DrawCommand::Image { dest, .. } = plan[7] else { panic!("expected a hint") };
    assert_eq!(dest.x, -85 - 8);
}

#[test]
fn play_plane_corner_rounds_towards_zero() {
    let s = sheet();
    let mut g = TappyPlane::new();
    g.update(&tick(true));
    for _ in 0..240 {
        g.update(&tick(false));
    }
    let body = TickInput {
        new_body: Some(BodyHandle { index: 0, generation: 1 }),
        body_y: Some(239 * 600),
        ..tick(false)
    };
    g.update(&body);
    // corner at 37.5 - 44 = -6.5 px horizontally and 40 - 36.5 = 3.5 px vertically
    let plan = g.draw(Some(Position { x: 37 * 600 + 300, y: 40 * 600 }), &s);
    assert_eq!(plan[2], image(Sprite::PlaneRed2, -6, 3));
}

#[test]
fn very_large_tiles_are_accepted() {
    let s = sheet_with_plane(i32::MAX, 5_000);
    assert_eq!(s.tile(Sprite::PlaneRed1).width, i32::MAX);
    let mut g = TappyPlane::new();
    g.update(&tick(true));
    let plan = g.draw(None, &s);
    assert_eq!(plan.len(), 8);
}
