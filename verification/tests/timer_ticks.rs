//! Tests of the attack countdown: elapses per tick and the carried
//! remainder, matching floor-of-window-over-period counting.

use arena_core::timer::AttackTimer;

#[test]
fn fresh_timer_is_empty() {
    let t = AttackTimer::new();
    assert_eq!(t.acc_ms, 0);
}

#[test]
fn sub_period_ticks_accumulate() {
    let mut t = AttackTimer::new();
    assert_eq!(t.tick(100), 0);
    assert_eq!(t.tick(399), 0);
    assert_eq!(t.acc_ms, 499);
    assert_eq!(t.tick(1), 1);
    assert_eq!(t.acc_ms, 0);
}

#[test]
fn long_tick_reports_every_whole_period() {
    let mut t = AttackTimer::new();
    assert_eq!(t.tick(1732), 3);
    assert_eq!(t.acc_ms, 232);
}

#[test]
fn window_count_is_floor_of_total_over_period() {
    // 60 ticks of 16 ms are 960 ms: one elapse, 460 ms carried.
    let mut t = AttackTimer::new();
    let mut elapses: u64 = 0;
    for _ in 0..60 {
        elapses += t.tick(16);
    }
    assert_eq!(elapses, 1);
    assert_eq!(t.acc_ms, 460);
    // Another 60 bring the total to 1920 ms: three elapses in all.
    for _ in 0..60 {
        elapses += t.tick(16);
    }
    assert_eq!(elapses, 3);
    assert_eq!(t.acc_ms, 420);
}
