//! Actor and scheduler core of a small sensor board: a single-slot deadline
//! holder, the state machines of the sensor readers and of the LED sequencer
//! built on it, and the bounded mailbox through which commands reach an actor.
//!
//! Instants and durations are microseconds of a monotonic clock, as `u64`.
use vstd::prelude::*;

pub mod ambient;
pub mod ble;
pub mod colour;
pub mod imu;
pub mod led;
pub mod mailbox;
pub mod playback;
pub mod runtime;
pub mod scheduler;
pub mod sensor;

verus! {

/// The errors a command or a scheduled step can report.
#[derive(Clone, Copy, Debug, PartialEq, Eq)]
pub enum AppError {
    /// The output device refused a write.
    LedWrite,
    /// The LED actor's mailbox was full.
    LedActorSend,
    /// The inertial sensor actor's mailbox was full.
    ImuActorSend,
    /// The read time (first field) exceeds the sensor's maximum (second field).
    InvalidReadTime(u64, u64),
    /// The period (first field) does not exceed the read time (second field).
    InvalidReadPeriod(u64, u64),
    /// The ambient sensor could not be read.
    AmbientI2cRead,
}

} // verus!
