//! The state machine that the sensor actors share: idle, or sampling on a
//! drift-corrected schedule, with the policy for failed reads.
//!
//! Policy. A power-mode change that the device refused sets a sticky flag;
//! while it is set the schedule goes on but no read is made, until a later
//! change succeeds. A failed read is skipped; the third failed read in a row
//! disarms the schedule.
use vstd::prelude::*;
use crate::scheduler::Scheduler;
use crate::AppError;

verus! {

/// The number of failed reads in a row at which sampling stops.
pub const MAX_FAILED_READS: u8 = 3;

/// The scheduling state of a sensor actor.
#[derive(Clone, Copy, Debug, PartialEq, Eq)]
pub struct Sampler {
    /// The schedule of the reads; idle when not sampling.
    pub timer: Scheduler,
    /// Set while the device's power mode is not the commanded one.
    pub errored: bool,
    /// The failed reads in a row, up to [`MAX_FAILED_READS`].
    pub failures: u8,
}

/// What a scheduled step came to.
#[derive(Clone, Copy, Debug, PartialEq, Eq, Structural)]
pub enum Sampled {
    /// No schedule was armed; nothing happened.
    Idle,
    /// The read succeeded; its measurement goes to the sink.
    Forwarded,
    /// No read was made, because the sticky error flag is set.
    Refused,
    /// The read failed; this cycle is skipped.
    Skipped,
    /// The read failed once too often; the schedule is disarmed.
    GaveUp,
}

impl Sampler {
    /// The state of a new actor: idle, no error, no failed read.
    pub open spec fn initial() -> Sampler {
        Sampler { timer: Scheduler::Idle, errored: false, failures: 0 }
    }

    /// Whether the actor is sampling.
    pub open spec fn sampling(self) -> bool {
        self.timer is Armed
    }

    /// Whether a step that is due makes a read.
    pub open spec fn reads(self) -> bool {
        self.timer is Armed && !self.errored
    }

    /// The state after an accepted start at `now`: armed with `period`, the
    /// first step due at once, the count of failed reads cleared.
    pub open spec fn started(self, period: u64, now: u64) -> Sampler {
        Sampler { timer: Scheduler::Armed { deadline: now, period }, failures: 0, ..self }
    }

    /// The state after a stop: idle, all else as it was.
    pub open spec fn stopped(self) -> Sampler {
        Sampler { timer: Scheduler::Idle, ..self }
    }

    /// What a scheduled step comes to, given whether its read succeeded.
    pub open spec fn outcome(self, read_ok: bool) -> Sampled {
        if !(self.timer is Armed) {
            Sampled::Idle
        } else if self.errored {
            Sampled::Refused
        } else if read_ok {
            Sampled::Forwarded
        } else if self.failures + 1 >= MAX_FAILED_READS {
            Sampled::GaveUp
        } else {
            Sampled::Skipped
        }
    }

    /// The state after a step that ran from `started` to `finished`.
    pub open spec fn stepped(self, started: u64, finished: u64, read_ok: bool) -> Sampler {
        match self.outcome(read_ok) {
            Sampled::Idle => self,
            Sampled::Refused => Sampler {
                timer: self.timer.after_step(started, finished),
                ..self
            },
            Sampled::Forwarded => Sampler {
                timer: self.timer.after_step(started, finished),
                failures: 0,
                ..self
            },
            Sampled::Skipped => Sampler {
                timer: self.timer.after_step(started, finished),
                failures: (self.failures + 1) as u8,
                ..self
            },
            Sampled::GaveUp => Sampler {
                timer: Scheduler::Idle,
                failures: MAX_FAILED_READS,
                ..self
            },
        }
    }

    /// An idle sampler without error.
    pub fn new() -> (s: Sampler)
        ensures
            s == Sampler::initial(),
    {
        Sampler { timer: Scheduler::new(), errored: false, failures: 0 }
    }

    /// Handles a start command at `now` for a device whose read takes
    /// `latency`. A period that does not exceed the latency is rejected and
    /// changes nothing. Otherwise the schedule is armed, replacing any earlier
    /// one, with its first step due at once.
    pub fn start(&mut self, period: u64, latency: u64, now: u64) -> (r: Result<(), AppError>)
        ensures
            period > latency ==> r is Ok && *final(self) == old(self).started(period, now),
            period <= latency ==> r == Err::<(), AppError>(
                AppError::InvalidReadPeriod(period, latency),
            ) && *final(self) == *old(self),
    {
        if period <= latency {
            return Err(AppError::InvalidReadPeriod(period, latency));
        }
        self.timer.arm_due(now, period);
        self.failures = 0;
        Ok(())
    }

    /// Handles a stop command: the schedule is disarmed.
    pub fn stop(&mut self)
        ensures
            *final(self) == old(self).stopped(),
    {
        self.timer.disarm();
    }

    /// Records whether the device took the commanded power mode. The
    /// schedule is not touched.
    pub fn power_mode_applied(&mut self, applied: bool)
        ensures
            *final(self) == (Sampler { errored: !applied, ..*old(self) }),
    {
        self.errored = !applied;
    }

    /// Whether the step now due has to read the device.
    pub fn wants_read(&self) -> (b: bool)
        ensures
            b == self.reads(),
    {
        self.timer.is_armed() && !self.errored
    }

    /// Handles a scheduled step that ran from `started` to `finished`.
    /// `read_ok` tells whether the read succeeded; it is not looked at where
    /// no read was due. The schedule is re-armed for what is left of the
    /// period, unless this was one failed read too many.
    pub fn tick(&mut self, started: u64, finished: u64, read_ok: bool) -> (r: Sampled)
        requires
            started <= finished,
            old(self).timer matches Scheduler::Armed { period, .. } ==> finished + period
                <= u64::MAX,
        ensures
            r == old(self).outcome(read_ok),
            *final(self) == old(self).stepped(started, finished, read_ok),
    {
        if !self.timer.is_armed() {
            return Sampled::Idle;
        }
        if self.errored {
            self.timer.rearm_after_step(started, finished);
            return Sampled::Refused;
        }
        if read_ok {
            self.timer.rearm_after_step(started, finished);
            self.failures = 0;
            return Sampled::Forwarded;
        }
        if self.failures >= MAX_FAILED_READS - 1 {
            self.timer.disarm();
            self.failures = MAX_FAILED_READS;
            Sampled::GaveUp
        } else {
            self.timer.rearm_after_step(started, finished);
            self.failures = self.failures + 1;
            Sampled::Skipped
        }
    }
}

/// A start with a period above the read latency leaves the actor sampling
/// with that period, and its first step is due at the very instant of the
/// start, so before the period has elapsed.
pub proof fn lemma_start_samples_at_once(s: Sampler, period: u64, latency: u64, now: u64)
    requires
        period > latency,
    ensures
        s.started(period, now).sampling(),
        s.started(period, now).timer->period == period,
        s.started(period, now).timer.due(now),
        s.started(period, now).timer->deadline < now + period,
        s.started(period, now).errored == s.errored,
{
}

/// The schedule after a run of steps, each started at its deadline and
/// taking as long as `took` says.
pub open spec fn after_steps(timer: Scheduler, took: Seq<u64>) -> Scheduler
    decreases took.len(),
{
    if took.len() == 0 {
        timer
    } else {
        match timer {
            Scheduler::Idle => timer,
            Scheduler::Armed { deadline, .. } => after_steps(
                timer.after_step(deadline, (deadline + took[0]) as u64),
                took.drop_first(),
            ),
        }
    }
}

/// Drift does not add up: when every step starts at its deadline and takes
/// less than the period, the deadline after any number of steps is the first
/// deadline plus that many periods, whatever the single steps took.
pub proof fn lemma_no_cumulative_drift(deadline: u64, period: u64, took: Seq<u64>)
    requires
        forall|i: int| 0 <= i < took.len() ==> took[i] < period,
        deadline + took.len() * period <= u64::MAX,
    ensures
        after_steps(Scheduler::Armed { deadline, period }, took) == (Scheduler::Armed {
            deadline: (deadline + took.len() * period) as u64,
            period,
        }),
    decreases took.len(),
{
    if took.len() > 0 {
        let rest = took.drop_first();
        assert(took.len() * period == period + rest.len() * period) by (nonlinear_arith)
            requires
                took.len() == rest.len() + 1,
        ;
        assert(rest.len() * period >= 0) by (nonlinear_arith);
        assert(took[0] < period);
        let next = (deadline + period) as u64;
        assert(forall|i: int| 0 <= i < rest.len() ==> rest[i] == took[i + 1]);
        lemma_no_cumulative_drift(next, period, rest);
    }
}

} // verus!
