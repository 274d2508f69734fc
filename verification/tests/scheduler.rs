use esp32c3_devkit_demo::scheduler::Scheduler;

#[test]
fn new_scheduler_is_idle() {
    let s = Scheduler::new();
    assert!(!s.is_armed());
    assert_eq!(s.deadline(), None);
    assert_eq!(s.period(), None);
    assert_eq!(s.remaining(1_000), None);
    assert!(!s.is_due(0));
    assert!(!s.is_due(u64::MAX));
}

#[test]
fn arm_sets_deadline_one_period_ahead() {
    let mut s = Scheduler::new();
    s.arm(1_000, 250);
    assert!(s.is_armed());
    assert_eq!(s.deadline(), Some(1_250));
    assert_eq!(s.period(), Some(250));
    assert!(!s.is_due(1_249));
    assert!(s.is_due(1_250));
    assert!(s.is_due(9_999));
    assert_eq!(s.remaining(1_000), Some(250));
    assert_eq!(s.remaining(1_200), Some(50));
    assert_eq!(s.remaining(1_250), Some(0));
    assert_eq!(s.remaining(2_000), Some(0));
}

#[test]
fn arm_replaces_an_earlier_schedule() {
    let mut s = Scheduler::new();
    s.arm(0, 100);
    s.arm(40, 7);
    assert_eq!(s, Scheduler::Armed { deadline: 47, period: 7 });
}

#[test]
fn arm_due_fires_at_once() {
    let mut s = Scheduler::new();
    s.arm_due(500, 100);
    assert!(s.is_due(500));
    assert_eq!(s.deadline(), Some(500));
    assert_eq!(s.period(), Some(100));
}

#[test]
fn disarm_clears_the_slot() {
    let mut s = Scheduler::new();
    s.arm(10, 10);
    s.disarm();
    assert_eq!(s, Scheduler::Idle);
    assert!(!s.is_due(1_000_000));
}

#[test]
fn rearm_takes_the_elapsed_time_off_the_period() {
    let mut s = Scheduler::new();
    s.arm_due(1_000, 1_000);
    // the step ran for 130: 870 left to wait, so the next deadline is one
    // period after the step started
    s.rearm_after_step(1_000, 1_130);
    assert_eq!(s, Scheduler::Armed { deadline: 2_000, period: 1_000 });
    assert_eq!(s.remaining(1_130), Some(870));
}

#[test]
fn rearm_after_an_overrun_waits_no_time() {
    let mut s = Scheduler::new();
    s.arm_due(1_000, 1_000);
    s.rearm_after_step(1_000, 2_500);
    assert_eq!(s, Scheduler::Armed { deadline: 2_500, period: 1_000 });
    assert!(s.is_due(2_500));
}

#[test]
fn rearm_after_a_step_of_exactly_one_period() {
    let mut s = Scheduler::new();
    s.arm_due(0, 1_000);
    s.rearm_after_step(0, 1_000);
    assert_eq!(s, Scheduler::Armed { deadline: 1_000, period: 1_000 });
}

#[test]
fn rearm_leaves_an_idle_scheduler_idle() {
    let mut s = Scheduler::new();
    s.rearm_after_step(5, 10);
    assert_eq!(s, Scheduler::Idle);
}

#[test]
fn drift_does_not_add_up_over_steps() {
    let mut s = Scheduler::new();
    s.arm_due(0, 1_000);
    let took = [10u64, 999, 1, 500, 0, 730];
    let mut started = 0u64;
    for d in took {
        s.rearm_after_step(started, started + d);
        started = s.deadline().unwrap();
    }
    assert_eq!(s.deadline(), Some(6_000));
}
