//! The choice an actor's loop makes on each turn, between its mailbox and
//! its schedule.
use vstd::prelude::*;
use crate::scheduler::Scheduler;

verus! {

/// What one turn of an actor's loop is spent on. A turn handles a message or
/// a scheduled step, never both.
#[derive(Clone, Copy, Debug, PartialEq, Eq, Structural)]
pub enum Turn {
    /// Handle the oldest waiting message.
    Message,
    /// Run the scheduled step.
    Tick,
    /// Nothing is ready: wait for a message, and no longer than this where a
    /// step is scheduled. `None` waits for a message alone.
    Rest(Option<u64>),
}

/// The turn to take at `now`. A waiting message wins over a step that is
/// due; an idle schedule never wins.
pub open spec fn turn(waiting: bool, timer: Scheduler, now: u64) -> Turn {
    if waiting {
        Turn::Message
    } else {
        match timer {
            Scheduler::Idle => Turn::Rest(None),
            Scheduler::Armed { deadline, .. } => if deadline <= now {
                Turn::Tick
            } else {
                Turn::Rest(Some((deadline - now) as u64))
            },
        }
    }
}

/// Picks the turn to take at `now`, given whether a message is waiting.
pub fn take_turn(waiting: bool, timer: &Scheduler, now: u64) -> (t: Turn)
    ensures
        t == turn(waiting, *timer, now),
{
    if waiting {
        Turn::Message
    } else if timer.is_due(now) {
        Turn::Tick
    } else {
        Turn::Rest(timer.remaining(now))
    }
}

/// A turn is a tick only when no message waits and the step is due, and a
/// rest never outlasts the deadline.
pub proof fn lemma_turn_is_exclusive(waiting: bool, timer: Scheduler, now: u64)
    ensures
        turn(waiting, timer, now) == Turn::Message <==> waiting,
        turn(waiting, timer, now) == Turn::Tick <==> !waiting && timer.due(now),
        turn(waiting, timer, now) matches Turn::Rest(Some(wait)) ==> timer is Armed && now + wait
            == timer->deadline,
        turn(waiting, timer, now) == Turn::Rest(None) <==> !waiting && timer is Idle,
{
}

} // verus!
