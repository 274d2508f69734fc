//! The scheduler primitive: one slot that is either idle or holds the instant
//! of the next scheduled step together with the commanded period.
use vstd::prelude::*;

verus! {

/// A single-slot deadline holder.
#[derive(Clone, Copy, Debug, PartialEq, Eq)]
pub enum Scheduler {
    /// No step is scheduled; the deadline never fires.
    Idle,
    /// A step is scheduled.
    Armed {
        /// The instant at which the next step fires.
        deadline: u64,
        /// The commanded spacing between steps.
        period: u64,
    },
}

/// The time left of `period` once `elapsed` of it has been spent: zero when
/// the step overran.
pub open spec fn remainder(period: u64, elapsed: int) -> int {
    if elapsed >= period {
        0
    } else if elapsed <= 0 {
        period as int
    } else {
        period - elapsed
    }
}

impl Scheduler {
    /// Whether a step is scheduled.
    pub open spec fn armed(self) -> bool {
        self is Armed
    }

    /// Whether the deadline has been reached at `now`. An idle scheduler is
    /// never due.
    pub open spec fn due(self, now: u64) -> bool {
        match self {
            Scheduler::Idle => false,
            Scheduler::Armed { deadline, .. } => deadline <= now,
        }
    }

    /// The scheduler after a step that ran from `started` to `finished`:
    /// the rest of the period is left to wait.
    pub open spec fn after_step(self, started: u64, finished: u64) -> Scheduler {
        match self {
            Scheduler::Idle => Scheduler::Idle,
            Scheduler::Armed { period, .. } => Scheduler::Armed {
                deadline: (finished + remainder(period, finished - started)) as u64,
                period,
            },
        }
    }

    /// An idle scheduler.
    pub fn new() -> (s: Scheduler)
        ensures
            s == Scheduler::Idle,
    {
        Scheduler::Idle
    }

    /// Schedules the next step one `period` after `now`, replacing whatever
    /// was scheduled.
    pub fn arm(&mut self, now: u64, period: u64)
        requires
            now + period <= u64::MAX,
        ensures
            *final(self) == (Scheduler::Armed { deadline: (now + period) as u64, period }),
    {
        *self = Scheduler::Armed { deadline: now + period, period };
    }

    /// Schedules the next step at `now` itself, with later steps `period`
    /// apart.
    pub fn arm_due(&mut self, now: u64, period: u64)
        ensures
            *final(self) == (Scheduler::Armed { deadline: now, period }),
            final(self).due(now),
    {
        *self = Scheduler::Armed { deadline: now, period };
    }

    /// Clears the slot.
    pub fn disarm(&mut self)
        ensures
            *final(self) == Scheduler::Idle,
    {
        *self = Scheduler::Idle;
    }

    /// Whether a step is scheduled.
    pub fn is_armed(&self) -> (b: bool)
        ensures
            b == self.armed(),
    {
        match self {
            Scheduler::Idle => false,
            Scheduler::Armed { .. } => true,
        }
    }

    /// The instant of the next step, if one is scheduled.
    pub fn deadline(&self) -> (d: Option<u64>)
        ensures
            d == (match *self {
                Scheduler::Idle => None::<u64>,
                Scheduler::Armed { deadline, .. } => Some(deadline),
            }),
    {
        match self {
            Scheduler::Idle => None,
            Scheduler::Armed { deadline, .. } => Some(*deadline),
        }
    }

    /// The commanded period, if a step is scheduled.
    pub fn period(&self) -> (p: Option<u64>)
        ensures
            p == (match *self {
                Scheduler::Idle => None::<u64>,
                Scheduler::Armed { period, .. } => Some(period),
            }),
    {
        match self {
            Scheduler::Idle => None,
            Scheduler::Armed { period, .. } => Some(*period),
        }
    }

    /// Whether the scheduled step is due at `now`.
    pub fn is_due(&self, now: u64) -> (b: bool)
        ensures
            b == self.due(now),
    {
        match self {
            Scheduler::Idle => false,
            Scheduler::Armed { deadline, .. } => *deadline <= now,
        }
    }

    /// How long a caller at `now` has to wait for the deadline: `None` when
    /// idle (wait forever), zero when the deadline has passed.
    pub fn remaining(&self, now: u64) -> (r: Option<u64>)
        ensures
            r == (match *self {
                Scheduler::Idle => None::<u64>,
                Scheduler::Armed { deadline, .. } => Some(
                    if deadline <= now {
                        0u64
                    } else {
                        (deadline - now) as u64
                    },
                ),
            }),
    {
        match self {
            Scheduler::Idle => None,
            Scheduler::Armed { deadline, .. } => Some(deadline.saturating_sub(now)),
        }
    }

    /// Re-arms after a step that ran from `started` to `finished`, with drift
    /// correction: what the step took is taken off the period, and a step that
    /// overran leaves nothing to wait. An idle scheduler stays idle.
    pub fn rearm_after_step(&mut self, started: u64, finished: u64)
        requires
            started <= finished,
            *old(self) matches Scheduler::Armed { period, .. } ==> finished + period <= u64::MAX,
        ensures
            *final(self) == old(self).after_step(started, finished),
    {
        match *self {
            Scheduler::Idle => {},
            Scheduler::Armed { period, .. } => {
                let elapsed: u64 = finished - started;
                let wait: u64 = match period.checked_sub(elapsed) {
                    Some(rest) => rest,
                    None => 0,
                };
                *self = Scheduler::Armed { deadline: finished + wait, period };
            },
        }
    }
}

/// Drift correction: a step that took less than the period leaves the next
/// deadline exactly one period after the step started, however long it took.
pub proof fn lemma_drift_corrected(s: Scheduler, started: u64, finished: u64)
    requires
        s is Armed,
        started <= finished,
        finished - started < s->period,
        started + s->period <= u64::MAX,
    ensures
        s.after_step(started, finished) is Armed,
        s.after_step(started, finished)->period == s->period,
        s.after_step(started, finished)->deadline == started + s->period,
        s.after_step(started, finished)->deadline - finished == s->period - (finished
            - started),
{
}

} // verus!
