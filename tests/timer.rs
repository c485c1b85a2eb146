use ittoku_click_game::timer::GameTimer;

#[test]
fn timer_finishes_once() {
    let mut t = GameTimer::new(1000);
    assert!(!t.tick(400));
    assert_eq!((t.elapsed, t.finished), (400, false));
    assert_eq!(t.remaining(), 600);
    assert!(t.tick(700));
    assert_eq!((t.elapsed, t.finished, t.just_finished), (1000, true, true));
    assert!(!t.tick(1));
    assert_eq!((t.elapsed, t.finished, t.just_finished), (1000, true, false));
    assert_eq!(t.remaining(), 0);
}

#[test]
fn timer_finishes_on_exact_duration() {
    let mut t = GameTimer::new(1000);
    assert!(t.tick(1000));
    assert!(t.finished);
}

#[test]
fn zero_length_timer_finishes_on_first_tick() {
    let mut t = GameTimer::new(0);
    assert!(!t.finished);
    assert!(t.tick(0));
}

#[test]
fn timer_reset_starts_over() {
    let mut t = GameTimer::new(1000);
    t.tick(2000);
    t.reset();
    assert_eq!(t, GameTimer::new(1000));
}

#[test]
fn remaining_seconds_round_halves_up() {
    let mut t = GameTimer::new(25_000_000_000);
    assert_eq!(t.remaining_seconds(), 25);
    t.tick(500_000_000);
    assert_eq!(t.remaining_seconds(), 25);
    t.tick(100_000_000);
    assert_eq!(t.remaining_seconds(), 24);
    t.tick(24_400_000_000);
    assert_eq!(t.remaining_seconds(), 0);
}

#[test]
fn elapsed_centiseconds_from_rounded_remainder() {
    let mut t = GameTimer::new(25_000_000_000);
    assert_eq!(t.elapsed_centiseconds(), 0);
    t.tick(12_345_000_000);
    // 12.655 s left round to 12.66 s; 25.00 - 12.66 = 12.34.
    assert_eq!(t.elapsed_centiseconds(), 1234);
    t.tick(20_000_000_000);
    assert_eq!(t.elapsed_centiseconds(), 2500);
}

#[test]
fn round_division_does_not_overflow() {
    let t = GameTimer::new(u64::MAX);
    assert_eq!(t.remaining_seconds(), 18_446_744_074);
}
