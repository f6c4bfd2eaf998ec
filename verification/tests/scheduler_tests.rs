use launcher::scheduler::{RefreshScheduler, SchedulerConfig, SchedulerState};

#[test]
fn profiles_carry_interval_and_sampling_choice() {
    let clock_only = SchedulerConfig::clock_only();
    assert_eq!(clock_only.interval_ms, 1000);
    assert!(!clock_only.sample_usage);

    let full = SchedulerConfig::clock_and_usage();
    assert_eq!(full.interval_ms, 500);
    assert!(full.sample_usage);
}

#[test]
fn dead_ui_layer_yields_no_writes() {
    let mut s = RefreshScheduler::new(SchedulerConfig::clock_and_usage());
    s.start();
    let w = s.tick(false);
    assert!(w.is_none());
    assert_eq!(s.state, SchedulerState::Running);
}

#[test]
fn clock_only_tick_writes_time_without_usage() {
    let mut s = RefreshScheduler::new(SchedulerConfig::clock_only());
    s.start();
    let w = s.tick(true).expect("a live UI layer gets writes");
    assert!(w.usage.is_none());
    assert!((1..=12).contains(&w.time.hour12));
    assert!(w.time.minute < 60);
}

#[test]
fn usage_tick_writes_stable_shape_across_ticks() {
    let mut s = RefreshScheduler::new(SchedulerConfig::clock_and_usage());
    s.start();
    let first = s.tick(true).expect("a live UI layer gets writes");
    let first_usage = first.usage.expect("the usage profile samples the probe");
    let cores = first_usage.per_core.len();
    for _ in 0..3 {
        let w = s.tick(true).expect("a live UI layer gets writes");
        let u = w.usage.expect("the usage profile samples the probe");
        assert_eq!(u.per_core.len(), cores);
        assert!(u.per_core.iter().all(|&v| v <= 100));
        assert!(u.memory_percent <= 100);
        assert!(u.swap_percent <= 100);
        assert!((1..=12).contains(&w.time.hour12));
    }
}

#[test]
fn stop_is_idempotent_and_safe_without_start() {
    let mut never_started = RefreshScheduler::new(SchedulerConfig::clock_only());
    never_started.stop();
    never_started.stop();
    assert_eq!(never_started.state, SchedulerState::Stopped);

    let mut s = RefreshScheduler::new(SchedulerConfig::clock_and_usage());
    s.start();
    assert_eq!(s.state, SchedulerState::Running);
    s.stop();
    s.stop();
    assert_eq!(s.state, SchedulerState::Stopped);
}
