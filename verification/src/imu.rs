//! The inertial sensor actor.
use vstd::prelude::*;
use crate::sensor::{Sampled, Sampler};
use crate::AppError;

verus! {

/// The power modes of the inertial sensor.
#[derive(Clone, Copy, Debug, PartialEq, Eq, Structural)]
pub enum PowerMode {
    /// Gyroscope off, accelerometer off.
    Sleep,
    /// Gyroscope drive on, accelerometer off.
    Standby,
    /// Gyroscope off, accelerometer duty-cycled.
    AccelLowPower,
    /// Gyroscope off, accelerometer on.
    AccelLowNoise,
    /// Gyroscope on, accelerometer off.
    GyroLowNoise,
    /// Gyroscope on, accelerometer on.
    SixAxisLowNoise,
}

/// The time one sample takes at `sample_rate` samples a second.
pub open spec fn read_time(sample_rate: u32) -> u64 {
    (1_000_000int / sample_rate as int) as u64
}

/// The inertial sensor actor: the commanded power mode, whether a fusion
/// filter runs, and the sampling schedule.
#[derive(Clone, Copy, Debug, PartialEq, Eq)]
pub struct ImuSensor {
    /// The commanded power mode.
    pub power_mode: PowerMode,
    /// Whether samples go through a fusion filter: from an accepted start to
    /// the next stop.
    pub fusing: bool,
    /// The sampling schedule.
    pub sampler: Sampler,
}

impl ImuSensor {
    /// An idle actor in standby, without a filter.
    pub fn new() -> (sensor: ImuSensor)
        ensures
            sensor.power_mode == PowerMode::Standby,
            !sensor.fusing,
            sensor.sampler == Sampler::initial(),
    {
        ImuSensor { power_mode: PowerMode::Standby, fusing: false, sampler: Sampler::new() }
    }

    /// Records a power-mode command and whether the device took it. The mode
    /// is the commanded one either way; a refusal sets the sticky error flag
    /// and a success clears it. The schedule is not touched.
    pub fn set_power_mode(&mut self, power_mode: PowerMode, applied: bool)
        ensures
            *final(self) == (ImuSensor {
                power_mode,
                sampler: Sampler { errored: !applied, ..old(self).sampler },
                ..*old(self)
            }),
    {
        self.power_mode = power_mode;
        self.sampler.power_mode_applied(applied);
    }

    /// Handles a start command at `now` for a device that samples
    /// `sample_rate` times a second: sampling every `period`, first sample at
    /// once, through a fresh filter. A period that does not exceed the time of
    /// one sample is rejected and changes nothing.
    pub fn start_task(&mut self, period: u64, sample_rate: u32, now: u64) -> (r: Result<
        (),
        AppError,
    >)
        requires
            sample_rate > 0,
        ensures
            period > read_time(sample_rate) ==> r is Ok && *final(self) == (ImuSensor {
                fusing: true,
                sampler: old(self).sampler.started(period, now),
                ..*old(self)
            }),
            period <= read_time(sample_rate) ==> r == Err::<(), AppError>(
                AppError::InvalidReadPeriod(period, read_time(sample_rate)),
            ) && *final(self) == *old(self),
    {
        let latency: u64 = 1_000_000 / (sample_rate as u64);
        let r = self.sampler.start(period, latency, now);
        if r.is_ok() {
            self.fusing = true;
        }
        r
    }

    /// Handles a stop command: the schedule is disarmed and the filter
    /// dropped.
    pub fn stop(&mut self)
        ensures
            *final(self) == (ImuSensor {
                fusing: false,
                sampler: old(self).sampler.stopped(),
                ..*old(self)
            }),
    {
        self.sampler.stop();
        self.fusing = false;
    }

    /// Handles a scheduled step that ran from `started` to `finished`; see
    /// [`Sampler::tick`].
    pub fn tick(&mut self, started: u64, finished: u64, read_ok: bool) -> (r: Sampled)
        requires
            started <= finished,
            old(self).sampler.timer matches crate::scheduler::Scheduler::Armed { period, .. }
                ==> finished + period <= u64::MAX,
        ensures
            r == old(self).sampler.outcome(read_ok),
            *final(self) == (ImuSensor {
                sampler: old(self).sampler.stepped(started, finished, read_ok),
                ..*old(self)
            }),
    {
        self.sampler.tick(started, finished, read_ok)
    }
}

} // verus!
