use esp32c3_devkit_demo::ambient::{AmbientSensor, PowerMode as AmbientMode};
use esp32c3_devkit_demo::ble::{
    next_update, notify_ambient, notify_imu, AmbientNotification, Axis, Update,
};
use esp32c3_devkit_demo::imu::{ImuSensor, PowerMode as ImuMode};
use esp32c3_devkit_demo::scheduler::Scheduler;
use esp32c3_devkit_demo::sensor::{Sampled, Sampler, MAX_FAILED_READS};
use esp32c3_devkit_demo::AppError;

#[test]
fn new_sampler_is_idle() {
    let s = Sampler::new();
    assert_eq!(s.timer, Scheduler::Idle);
    assert!(!s.errored);
    assert_eq!(s.failures, 0);
    assert!(!s.wants_read());
}

#[test]
fn start_above_latency_samples_at_once() {
    let mut s = Sampler::new();
    assert_eq!(s.start(1_000, 999, 42), Ok(()));
    assert_eq!(s.timer, Scheduler::Armed { deadline: 42, period: 1_000 });
    assert!(s.timer.is_due(42));
    assert!(s.wants_read());
}

#[test]
fn start_at_or_below_latency_is_rejected() {
    let mut s = Sampler::new();
    assert_eq!(s.start(1_000, 1_000, 42), Err(AppError::InvalidReadPeriod(1_000, 1_000)));
    assert_eq!(s, Sampler::new());
    assert_eq!(s.start(10, 1_000, 42), Err(AppError::InvalidReadPeriod(10, 1_000)));
    assert_eq!(s, Sampler::new());
    assert_eq!(s.start(0, 0, 42), Err(AppError::InvalidReadPeriod(0, 0)));
    assert_eq!(s, Sampler::new());
    assert!(!s.wants_read());
}

#[test]
fn rejected_start_keeps_a_running_schedule() {
    let mut s = Sampler::new();
    s.start(1_000, 100, 0).unwrap();
    let before = s;
    assert_eq!(s.start(50, 100, 7), Err(AppError::InvalidReadPeriod(50, 100)));
    assert_eq!(s, before);
}

#[test]
fn overlapping_start_replaces_the_schedule() {
    let mut s = Sampler::new();
    s.start(1_000, 100, 0).unwrap();
    s.tick(0, 100, true);
    s.start(300, 100, 500).unwrap();
    assert_eq!(s.timer, Scheduler::Armed { deadline: 500, period: 300 });
}

#[test]
fn stop_disarms() {
    let mut s = Sampler::new();
    s.start(1_000, 100, 0).unwrap();
    s.stop();
    assert_eq!(s.timer, Scheduler::Idle);
    assert_eq!(s.tick(0, 10, true), Sampled::Idle);
    assert_eq!(s.timer, Scheduler::Idle);
}

#[test]
fn tick_corrects_drift() {
    let mut s = Sampler::new();
    s.start(1_000_000, 100_000, 7).unwrap();
    assert_eq!(s.tick(7, 150_007, true), Sampled::Forwarded);
    assert_eq!(s.timer, Scheduler::Armed { deadline: 1_000_007, period: 1_000_000 });
    // an overrun: the next step is due at once
    assert_eq!(s.tick(1_000_007, 3_000_000, true), Sampled::Forwarded);
    assert_eq!(s.timer, Scheduler::Armed { deadline: 3_000_000, period: 1_000_000 });
}

#[test]
fn failed_read_is_skipped_and_the_schedule_goes_on() {
    let mut s = Sampler::new();
    s.start(1_000, 100, 0).unwrap();
    assert_eq!(s.tick(0, 100, false), Sampled::Skipped);
    assert_eq!(s.failures, 1);
    assert_eq!(s.timer, Scheduler::Armed { deadline: 1_000, period: 1_000 });
    assert_eq!(s.tick(1_000, 1_100, true), Sampled::Forwarded);
    assert_eq!(s.failures, 0);
    assert_eq!(s.timer, Scheduler::Armed { deadline: 2_000, period: 1_000 });
}

#[test]
fn third_failed_read_in_a_row_disarms() {
    let mut s = Sampler::new();
    s.start(1_000, 100, 0).unwrap();
    assert_eq!(s.tick(0, 100, false), Sampled::Skipped);
    assert_eq!(s.tick(1_000, 1_100, false), Sampled::Skipped);
    assert_eq!(s.tick(2_000, 2_100, false), Sampled::GaveUp);
    assert_eq!(s.timer, Scheduler::Idle);
    assert_eq!(s.failures, MAX_FAILED_READS);
    assert_eq!(MAX_FAILED_READS, 3);
    // a fresh start clears the count
    s.start(1_000, 100, 5_000).unwrap();
    assert_eq!(s.failures, 0);
    assert!(s.wants_read());
}

#[test]
fn failed_reads_apart_do_not_disarm() {
    let mut s = Sampler::new();
    s.start(1_000, 100, 0).unwrap();
    let mut now = 0u64;
    for _ in 0..10 {
        assert_eq!(s.tick(now, now + 100, false), Sampled::Skipped);
        now += 1_000;
        assert_eq!(s.tick(now, now + 100, false), Sampled::Skipped);
        now += 1_000;
        assert_eq!(s.tick(now, now + 100, true), Sampled::Forwarded);
        now += 1_000;
    }
    assert_eq!(s.timer, Scheduler::Armed { deadline: now, period: 1_000 });
}

#[test]
fn sticky_error_refuses_reads_until_cleared() {
    let mut s = Sampler::new();
    s.start(1_000, 100, 0).unwrap();
    s.power_mode_applied(false);
    assert!(s.errored);
    assert!(!s.wants_read());
    // the schedule is not touched
    assert_eq!(s.timer, Scheduler::Armed { deadline: 0, period: 1_000 });
    assert_eq!(s.tick(0, 1, true), Sampled::Refused);
    assert_eq!(s.tick(1_000, 1_001, false), Sampled::Refused);
    assert_eq!(s.failures, 0);
    assert_eq!(s.timer, Scheduler::Armed { deadline: 2_000, period: 1_000 });
    s.power_mode_applied(true);
    assert!(s.wants_read());
    assert_eq!(s.tick(2_000, 2_100, true), Sampled::Forwarded);
}

#[test]
fn ambient_starts_in_low_power_with_100_ms() {
    let a = AmbientSensor::new();
    assert_eq!(a.power_mode, AmbientMode::LowPower);
    assert_eq!(a.read_time, 100_000);
    assert_eq!(a.sampler, Sampler::new());
}

#[test]
fn ambient_read_time_is_held_to_the_mode_limit() {
    let mut a = AmbientSensor::new();
    assert_eq!(a.set_power_mode(AmbientMode::LowPower, 800_000), Ok(()));
    assert_eq!(a.read_time, 800_000);
    assert_eq!(
        a.set_power_mode(AmbientMode::LowPower, 800_001),
        Err(AppError::InvalidReadTime(800_001, 800_000))
    );
    assert_eq!(a.read_time, 800_000);
    assert_eq!(a.power_mode, AmbientMode::LowPower);
    assert_eq!(a.set_power_mode(AmbientMode::NormalMode, 12_100_000), Ok(()));
    assert_eq!(a.power_mode, AmbientMode::NormalMode);
    assert_eq!(a.read_time, 12_100_000);
    assert_eq!(
        a.set_power_mode(AmbientMode::NormalMode, 12_100_001),
        Err(AppError::InvalidReadTime(12_100_001, 12_100_000))
    );
    assert_eq!(a.set_power_mode(AmbientMode::NormalMode, 0), Ok(()));
    assert_eq!(a.read_time, 0);
}

#[test]
fn ambient_set_power_mode_keeps_the_schedule() {
    let mut a = AmbientSensor::new();
    a.start_task(1_000_000, 0).unwrap();
    let sampler = a.sampler;
    a.set_power_mode(AmbientMode::NormalMode, 20_000).unwrap();
    assert_eq!(a.sampler, sampler);
}

#[test]
fn ambient_start_needs_a_period_above_the_read_time() {
    let mut a = AmbientSensor::new();
    assert_eq!(a.start_task(100_000, 5), Err(AppError::InvalidReadPeriod(100_000, 100_000)));
    assert_eq!(a, AmbientSensor::new());
    assert_eq!(a.start_task(100_001, 5), Ok(()));
    assert_eq!(a.sampler.timer, Scheduler::Armed { deadline: 5, period: 100_001 });
    assert_eq!(a.tick(5, 100_005, true), Ok(Sampled::Forwarded));
    assert_eq!(a.sampler.timer, Scheduler::Armed { deadline: 100_006, period: 100_001 });
    a.stop();
    assert_eq!(a.sampler.timer, Scheduler::Idle);
    assert_eq!(a.read_time, 100_000);
}

#[test]
fn ambient_reports_the_read_that_stops_sampling() {
    let mut a = AmbientSensor::new();
    a.start_task(1_000_000, 0).unwrap();
    assert_eq!(a.tick(0, 100_000, false), Ok(Sampled::Skipped));
    assert_eq!(a.tick(1_000_000, 1_100_000, false), Ok(Sampled::Skipped));
    assert_eq!(a.tick(2_000_000, 2_100_000, false), Err(AppError::AmbientI2cRead));
    assert_eq!(a.sampler.timer, Scheduler::Idle);
    assert_eq!(a.tick(3_000_000, 3_100_000, false), Ok(Sampled::Idle));
}

#[test]
fn imu_starts_in_standby() {
    let i = ImuSensor::new();
    assert_eq!(i.power_mode, ImuMode::Standby);
    assert!(!i.fusing);
    assert_eq!(i.sampler, Sampler::new());
}

#[test]
fn imu_start_needs_a_period_above_one_sample() {
    let mut i = ImuSensor::new();
    // 1600 samples a second: 625 microseconds each
    assert_eq!(i.start_task(625, 1_600, 9), Err(AppError::InvalidReadPeriod(625, 625)));
    assert_eq!(i, ImuSensor::new());
    assert_eq!(i.start_task(626, 1_600, 9), Ok(()));
    assert!(i.fusing);
    assert_eq!(i.sampler.timer, Scheduler::Armed { deadline: 9, period: 626 });
    // 3 samples a second: 333333 microseconds, rounded down
    let mut j = ImuSensor::new();
    assert_eq!(j.start_task(333_333, 3, 0), Err(AppError::InvalidReadPeriod(333_333, 333_333)));
    assert_eq!(j.start_task(50_000, 20, 0), Err(AppError::InvalidReadPeriod(50_000, 50_000)));
    assert_eq!(j.start_task(50_000, 800, 0), Ok(()));
}

#[test]
fn imu_stop_drops_the_filter() {
    let mut i = ImuSensor::new();
    i.start_task(50_000, 800, 0).unwrap();
    assert_eq!(i.tick(0, 2_000, true), Sampled::Forwarded);
    assert_eq!(i.sampler.timer, Scheduler::Armed { deadline: 50_000, period: 50_000 });
    i.stop();
    assert!(!i.fusing);
    assert_eq!(i.sampler.timer, Scheduler::Idle);
}

#[test]
fn imu_refused_power_mode_is_sticky() {
    let mut i = ImuSensor::new();
    i.start_task(50_000, 800, 0).unwrap();
    i.set_power_mode(ImuMode::SixAxisLowNoise, false);
    assert_eq!(i.power_mode, ImuMode::SixAxisLowNoise);
    assert!(i.sampler.errored);
    assert_eq!(i.sampler.timer, Scheduler::Armed { deadline: 0, period: 50_000 });
    assert_eq!(i.tick(0, 10, true), Sampled::Refused);
    i.set_power_mode(ImuMode::SixAxisLowNoise, true);
    assert!(!i.sampler.errored);
    assert_eq!(i.tick(50_000, 50_010, true), Sampled::Forwarded);
}

#[test]
fn ambient_notification_is_in_hundredths() {
    assert_eq!(
        notify_ambient(62_968, 23_730),
        AmbientNotification { humidity: 6_296, temperature: 2_373 }
    );
    assert_eq!(notify_ambient(0, -45_000), AmbientNotification { humidity: 0, temperature: -4_500 });
    // rounded towards zero
    assert_eq!(notify_ambient(9, -9), AmbientNotification { humidity: 0, temperature: 0 });
    assert_eq!(notify_ambient(19, -19), AmbientNotification { humidity: 1, temperature: -1 });
    assert_eq!(
        notify_ambient(99_998, 129_998),
        AmbientNotification { humidity: 9_999, temperature: 12_999 }
    );
}

#[test]
fn ambient_notification_cuts_to_sixteen_bits() {
    assert_eq!(
        notify_ambient(327_680, -327_690),
        AmbientNotification { humidity: -32_768, temperature: 32_767 }
    );
}

#[test]
fn imu_notification_order() {
    assert_eq!(
        notify_imu(false),
        vec![
            Update::Acceleration(Axis::X),
            Update::Acceleration(Axis::Y),
            Update::Acceleration(Axis::Z),
            Update::Gyroscope(Axis::X),
            Update::Gyroscope(Axis::Y),
            Update::Gyroscope(Axis::Z),
        ]
    );
    assert_eq!(
        notify_imu(true),
        vec![
            Update::Acceleration(Axis::X),
            Update::Acceleration(Axis::Y),
            Update::Acceleration(Axis::Z),
            Update::Gyroscope(Axis::X),
            Update::Gyroscope(Axis::Y),
            Update::Gyroscope(Axis::Z),
            Update::Inclination(Axis::X),
            Update::Inclination(Axis::Y),
            Update::Inclination(Axis::Z),
        ]
    );
}

#[test]
fn failed_update_ends_the_notification() {
    let plan = notify_imu(true);
    assert_eq!(next_update(&plan, 0, true), Some(Update::Acceleration(Axis::X)));
    assert_eq!(next_update(&plan, 4, true), Some(Update::Gyroscope(Axis::Y)));
    assert_eq!(next_update(&plan, 8, true), Some(Update::Inclination(Axis::Z)));
    assert_eq!(next_update(&plan, 9, true), None);
    assert_eq!(next_update(&plan, 4, false), None);
    assert_eq!(next_update(&plan, 0, false), None);
    let short = notify_imu(false);
    assert_eq!(next_update(&short, 6, true), None);
}
