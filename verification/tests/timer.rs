use jumper::timer::GameTimer;

#[test]
fn one_shot_timer_finishes_once() {
    let mut t = GameTimer::from_millis(150, false);
    assert!(!t.finished());
    assert!(!t.just_finished());

    t.tick(100);
    assert_eq!(t.elapsed_ms, 100);
    assert!(!t.finished());
    assert!(!t.just_finished());

    t.tick(50);
    assert_eq!(t.elapsed_ms, 150);
    assert!(t.finished());
    assert!(t.just_finished());

    t.tick(10);
    assert_eq!(t.elapsed_ms, 150);
    assert!(t.finished());
    assert!(!t.just_finished());
}

#[test]
fn one_shot_timer_overshoot_caps_elapsed() {
    let mut t = GameTimer::from_millis(2000, false);
    t.tick(5000);
    assert_eq!(t.elapsed_ms, 2000);
    assert!(t.finished());
    assert!(t.just_finished());
}

#[test]
fn repeating_timer_wraps() {
    let mut t = GameTimer::from_millis(1000, true);
    t.tick(600);
    assert!(!t.finished());
    assert_eq!(t.elapsed_ms, 600);

    t.tick(600);
    assert!(t.finished());
    assert!(t.just_finished());
    assert_eq!(t.elapsed_ms, 200);

    t.tick(100);
    assert!(!t.finished());
    assert!(!t.just_finished());
    assert_eq!(t.elapsed_ms, 300);
}

#[test]
fn repeating_timer_exact_period() {
    let mut t = GameTimer::from_millis(1500, true);
    t.tick(1500);
    assert!(t.finished());
    assert!(t.just_finished());
    assert_eq!(t.elapsed_ms, 0);
}

#[test]
fn reset_rewinds() {
    let mut t = GameTimer::from_millis(150, false);
    t.tick(150);
    assert!(t.finished());
    t.reset();
    assert_eq!(t.elapsed_ms, 0);
    assert!(!t.finished());
    assert!(!t.just_finished());
    assert_eq!(t.duration_ms, 150);
}
