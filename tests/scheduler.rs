use tappy_plane::engine::{scroll_amount, GameLoop, FRAME_RATE, TIME_UNITS_PER_SECOND};

#[test]
fn fixed_step_is_a_sixtieth_of_a_second() {
    assert_eq!(FRAME_RATE * 60, TIME_UNITS_PER_SECOND);
}

#[test]
fn frame_runs_whole_steps_and_keeps_the_rest() {
    let mut lp = GameLoop::new(5_000);
    assert_eq!(lp.frame(5_000), 0);
    assert_eq!(lp.frame(5_999), 0);
    assert_eq!(lp.accumulated_delta(), 999);
    assert_eq!(lp.frame(7_001), 2);
    assert_eq!(lp.accumulated_delta(), 1);
    assert_eq!(lp.last_frame(), 7_001);
}

#[test]
fn frame_after_a_long_pause_catches_up() {
    let mut lp = GameLoop::new(0);
    assert_eq!(lp.frame(TIME_UNITS_PER_SECOND + 250), 60);
    assert_eq!(lp.accumulated_delta(), 250);
}

#[test]
fn jittery_frames_average_to_sixty_steps_per_second() {
    let mut lp = GameLoop::new(0);
    let mut now: u64 = 0;
    let mut steps: u64 = 0;
    for i in 0..120u64 {
        now += if i % 2 == 0 { 700 } else { 1_300 };
        steps += lp.frame(now);
    }
    assert_eq!(now, 2 * TIME_UNITS_PER_SECOND);
    assert_eq!(steps, 120);
    assert_eq!(lp.accumulated_delta(), 0);
}

#[test]
fn scroll_amount_is_one_subpixel_per_time_unit_at_speed_one() {
    // 100 px/s for one step of 1/60 s is 5/3 px, i.e. 1000 subpixels
    assert_eq!(scroll_amount(FRAME_RATE, 1), 1_000);
    assert_eq!(scroll_amount(FRAME_RATE, 3), 3_000);
    assert_eq!(scroll_amount(0, 5), 0);
}
