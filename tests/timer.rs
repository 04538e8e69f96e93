use linkage::scheduler::{Scheduler, TimerAction};

const SECOND: u64 = 1_000_000_000;

fn period(seconds: f64) -> u64 {
    seconds.to_bits()
}

#[test]
fn starts_stopped_without_timer() {
    let s = Scheduler::new(period(5.0));
    assert!(!s.autorun());
    assert_eq!(s.timer(), None);
    assert_eq!(s.last_tick(), None);
    assert!(s.is_settled());
}

#[test]
fn autorun_on_installs_one_timer() {
    let mut s = Scheduler::new(period(5.0));
    assert_eq!(s.configure(true, period(5.0), 10), TimerAction::Start);
    assert_eq!(s.last_tick(), Some(10));
    assert!(!s.is_settled());
    s.timer_started(7);
    assert!(s.is_settled());
    assert_eq!(s.timer(), Some(7));
}

#[test]
fn unchanged_configuration_keeps_timer() {
    let mut s = Scheduler::new(period(5.0));
    s.configure(true, period(5.0), 0);
    s.timer_started(1);
    assert_eq!(s.configure(true, period(5.0), 50), TimerAction::Keep);
    assert_eq!(s.timer(), Some(1));
    assert_eq!(s.last_tick(), Some(0));
}

#[test]
fn period_change_while_running_restarts() {
    let mut s = Scheduler::new(period(5.0));
    s.configure(true, period(5.0), 0);
    s.timer_started(1);
    assert_eq!(s.configure(true, period(2.0), 30), TimerAction::Restart(1));
    assert_eq!(s.timer(), None);
    assert_eq!(s.last_tick(), Some(30));
    s.timer_started(2);
    assert_eq!(s.timer(), Some(2));
}

#[test]
fn period_change_while_stopped_does_nothing() {
    let mut s = Scheduler::new(period(5.0));
    assert_eq!(s.configure(false, period(3.0), 0), TimerAction::Keep);
    assert_eq!(s.timer(), None);
    assert_eq!(s.last_tick(), None);
}

#[test]
fn toggle_autorun_never_two_timers() {
    let mut s = Scheduler::new(period(5.0));
    let mut live: Vec<i32> = Vec::new();
    let mut next: i32 = 100;
    for (step, on) in [true, false, true].into_iter().enumerate() {
        match s.configure(on, period(5.0), step as u64) {
            TimerAction::Keep => {}
            TimerAction::Start => {
                live.push(next);
                s.timer_started(next);
                next += 1;
            }
            TimerAction::Stop(h) => live.retain(|&x| x != h),
            TimerAction::Restart(h) => {
                live.retain(|&x| x != h);
                live.push(next);
                s.timer_started(next);
                next += 1;
            }
        }
        assert!(live.len() <= 1);
        assert_eq!(live.len(), if on { 1 } else { 0 });
        assert_eq!(s.timer(), live.first().copied());
    }
}

#[test]
fn ticks_measure_elapsed_time() {
    let mut s = Scheduler::new(period(5.0));
    s.configure(true, period(5.0), 0);
    s.timer_started(1);
    let mut phase = 0.0_f64;
    for k in 1..=3u64 {
        let dt = s.tick(k * SECOND).unwrap();
        assert_eq!(dt, SECOND);
        phase = (phase + dt as f64 / SECOND as f64 / 5.0) % 1.0;
    }
    assert!((phase - 0.6).abs() < 1e-9);
    assert_eq!(s.last_tick(), Some(3 * SECOND));
}

#[test]
fn tick_with_uneven_intervals() {
    let mut s = Scheduler::new(period(1.0));
    s.configure(true, period(1.0), 1000);
    s.timer_started(1);
    assert_eq!(s.tick(1016), Some(16));
    assert_eq!(s.tick(1050), Some(34));
}

#[test]
fn tick_with_clock_behind_counts_nothing() {
    let mut s = Scheduler::new(period(1.0));
    s.configure(true, period(1.0), 500);
    s.timer_started(1);
    assert_eq!(s.tick(400), Some(0));
    assert_eq!(s.last_tick(), Some(400));
}

#[test]
fn stale_tick_after_stop_is_ignored() {
    let mut s = Scheduler::new(period(5.0));
    s.configure(true, period(5.0), 0);
    s.timer_started(9);
    assert_eq!(s.configure(false, period(5.0), 10), TimerAction::Stop(9));
    assert_eq!(s.last_tick(), None);
    assert_eq!(s.tick(20), None);
    assert_eq!(s.last_tick(), None);
}
