//! The ambient (temperature and humidity) sensor actor.
use vstd::prelude::*;
use crate::sensor::{Sampled, Sampler};
use crate::AppError;

verus! {

/// The measurement modes of the sensor.
#[derive(Clone, Copy, Debug, PartialEq, Eq, Structural)]
pub enum PowerMode {
    /// Normal measurement.
    NormalMode,
    /// Low power measurement: less energy, less accuracy.
    LowPower,
}

/// The figure that the driver gives for the longest measurement in a mode.
pub open spec fn driver_max_duration(mode: PowerMode) -> u32 {
    match mode {
        PowerMode::NormalMode => 12100,
        PowerMode::LowPower => 800,
    }
}

/// The longest read time that may be set for a mode: the driver's figure,
/// taken as milliseconds.
pub open spec fn max_read_time(mode: PowerMode) -> u64 {
    (driver_max_duration(mode) * 1000) as u64
}

/// Calls `shtcx::max_measurement_duration` for an SHTC3. Trusted: the result
/// is 12100 in normal mode and 800 in low power mode, as the driver's table
/// for second-generation sensors has it; the bus handle is not touched.
#[verifier::external_body]
fn max_measurement_duration(mode: PowerMode) -> (duration: u32)
    ensures
        duration == driver_max_duration(mode),
{
    shtcx::max_measurement_duration(
        &shtcx::shtc3(()),
        match mode {
            PowerMode::NormalMode => shtcx::PowerMode::NormalMode,
            PowerMode::LowPower => shtcx::PowerMode::LowPower,
        },
    )
}

/// The ambient sensor actor: the commanded power mode, the time to wait for
/// a measurement, and the sampling schedule.
#[derive(Clone, Copy, Debug, PartialEq, Eq)]
pub struct AmbientSensor {
    /// The power mode in which measurements are made.
    pub power_mode: PowerMode,
    /// The time between starting a measurement and fetching its result.
    pub read_time: u64,
    /// The sampling schedule.
    pub sampler: Sampler,
}

impl AmbientSensor {
    /// An idle actor in low power mode with a read time of 100 ms.
    pub fn new() -> (sensor: AmbientSensor)
        ensures
            sensor.power_mode == PowerMode::LowPower,
            sensor.read_time == 100_000,
            sensor.sampler == Sampler::initial(),
    {
        AmbientSensor {
            power_mode: PowerMode::LowPower,
            read_time: 100_000,
            sampler: Sampler::new(),
        }
    }

    /// Sets the power mode and the read time. A read time above the longest
    /// one for the mode is rejected and changes nothing. The schedule is not
    /// touched.
    pub fn set_power_mode(&mut self, power_mode: PowerMode, read_time: u64) -> (r: Result<
        (),
        AppError,
    >)
        ensures
            read_time <= max_read_time(power_mode) ==> r is Ok && *final(self) == (AmbientSensor {
                power_mode,
                read_time,
                ..*old(self)
            }),
            read_time > max_read_time(power_mode) ==> r == Err::<(), AppError>(
                AppError::InvalidReadTime(read_time, max_read_time(power_mode)),
            ) && *final(self) == *old(self),
    {
        let limit: u64 = max_measurement_duration(power_mode) as u64 * 1000;
        if read_time > limit {
            return Err(AppError::InvalidReadTime(read_time, limit));
        }
        self.power_mode = power_mode;
        self.read_time = read_time;
        Ok(())
    }

    /// Handles a start command at `now`: sampling every `period`, first
    /// sample at once. A period that does not exceed the read time is
    /// rejected and changes nothing.
    pub fn start_task(&mut self, period: u64, now: u64) -> (r: Result<(), AppError>)
        ensures
            period > old(self).read_time ==> r is Ok && *final(self) == (AmbientSensor {
                sampler: old(self).sampler.started(period, now),
                ..*old(self)
            }),
            period <= old(self).read_time ==> r == Err::<(), AppError>(
                AppError::InvalidReadPeriod(period, old(self).read_time),
            ) && *final(self) == *old(self),
    {
        self.sampler.start(period, self.read_time, now)
    }

    /// Handles a stop command.
    pub fn stop(&mut self)
        ensures
            *final(self) == (AmbientSensor { sampler: old(self).sampler.stopped(), ..*old(self) }),
    {
        self.sampler.stop();
    }

    /// Handles a scheduled step that ran from `started` to `finished`; see
    /// [`Sampler::tick`]. The failed read that disarms the schedule is
    /// reported as an error; every other step reports what it came to.
    pub fn tick(&mut self, started: u64, finished: u64, read_ok: bool) -> (r: Result<
        Sampled,
        AppError,
    >)
        requires
            started <= finished,
            old(self).sampler.timer matches crate::scheduler::Scheduler::Armed { period, .. }
                ==> finished + period <= u64::MAX,
        ensures
            r == (if old(self).sampler.outcome(read_ok) == Sampled::GaveUp {
                Err::<Sampled, AppError>(AppError::AmbientI2cRead)
            } else {
                Ok::<Sampled, AppError>(old(self).sampler.outcome(read_ok))
            }),
            *final(self) == (AmbientSensor {
                sampler: old(self).sampler.stepped(started, finished, read_ok),
                ..*old(self)
            }),
    {
        match self.sampler.tick(started, finished, read_ok) {
            Sampled::GaveUp => Err(AppError::AmbientI2cRead),
            outcome => Ok(outcome),
        }
    }
}

} // verus!
