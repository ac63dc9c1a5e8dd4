use video_live_delay::config::{DELAY_STEP_FRAMES, FPS, INITIAL_DELAY_FRAMES, MAX_DELAY_FRAMES};
use video_live_delay::delay::DelayController;

fn float_text(frames: usize) -> String {
    format!("{:.1} s", frames as f64 / FPS as f64)
}

#[test]
fn new_starts_at_two_seconds() {
    let delay = DelayController::new();
    assert_eq!(delay.frames(), 120);
    assert_eq!(delay.frames(), INITIAL_DELAY_FRAMES);
    assert_eq!(delay.display_text(), "2.0 s");
}

#[test]
fn increase_adds_half_a_second() {
    let mut delay = DelayController::new();
    delay.increase();
    assert_eq!(delay.frames(), 150);
    assert_eq!(delay.display_text(), "2.5 s");
}

#[test]
fn decrease_removes_half_a_second() {
    let mut delay = DelayController::new();
    delay.decrease();
    assert_eq!(delay.frames(), 90);
    assert_eq!(delay.display_text(), "1.5 s");
}

#[test]
fn increase_stops_at_fifteen_seconds() {
    let mut delay = DelayController::new();
    for _ in 0..100 {
        delay.increase();
    }
    assert_eq!(delay.frames(), MAX_DELAY_FRAMES);
    assert_eq!(delay.frames(), 900);
    assert_eq!(delay.display_text(), "15.0 s");
    delay.increase();
    assert_eq!(delay.frames(), 900);
}

#[test]
fn decrease_stops_at_zero() {
    let mut delay = DelayController::new();
    for _ in 0..10 {
        delay.decrease();
    }
    assert_eq!(delay.frames(), 0);
    assert_eq!(delay.display_text(), "0.0 s");
    delay.decrease();
    assert_eq!(delay.frames(), 0);
}

#[test]
fn decrease_undoes_increase_below_maximum() {
    let mut delay = DelayController::new();
    delay.increase();
    delay.decrease();
    assert_eq!(delay.frames(), INITIAL_DELAY_FRAMES);
    delay.decrease();
    delay.increase();
    assert_eq!(delay.frames(), INITIAL_DELAY_FRAMES);
}

#[test]
fn thirty_presses_cover_the_whole_range() {
    let mut delay = DelayController::new();
    for _ in 0..30 {
        delay.increase();
    }
    assert_eq!(delay.frames(), MAX_DELAY_FRAMES);
    for _ in 0..30 {
        delay.decrease();
    }
    assert_eq!(delay.frames(), 0);
}

#[test]
fn display_text_matches_one_decimal_seconds_everywhere() {
    let mut delay = DelayController::new();
    for _ in 0..10 {
        delay.decrease();
    }
    for _ in 0..=(MAX_DELAY_FRAMES / DELAY_STEP_FRAMES) {
        let frames = delay.frames();
        assert_eq!(frames % DELAY_STEP_FRAMES, 0);
        assert_eq!(delay.display_text(), float_text(frames));
        delay.increase();
    }
}
