//! The LED sequencer: an actor that shows one colour on command, or steps
//! through a sequence of colours on a schedule, under a repeat policy.
//!
//! The actor decides; its caller owns the output device. A command yields the
//! pixel to write, if any. A tick is handled in one call once the caller has
//! written the pixel that was due and knows whether the device accepted it.
use vstd::prelude::*;
use crate::AppError;
use crate::colour::{black, correct, dim, lemma_level_zero_is_dark, lit, Rgb};
use crate::mailbox::{
    capacity, channel_len, channel_new, channel_try_receive, channel_try_send, offer, queued,
    Inbox,
};
use crate::runtime::{take_turn, turn, Turn};
use crate::scheduler::Scheduler;

verus! {

/// How a sequence goes on once its last colour has been shown.
#[derive(Clone, Copy, Debug, PartialEq, Eq, Structural)]
pub enum Repeat {
    /// Run the sequence once.
    Once,
    /// Run the sequence again this many times after the first run.
    N(u8),
    /// Run the sequence forever.
    Forever,
}

/// A command to the sequencer.
#[derive(Debug, PartialEq, Eq)]
pub enum Message {
    /// Show this colour at the current brightness.
    SetColour(Rgb),
    /// Show the current colour at this brightness.
    SetBrightness(u8),
    /// Go dark. Colour and brightness are kept.
    Off,
    /// Show the current colour at the current brightness.
    On,
    /// Step through these colours, one per period, under the repeat policy.
    SetSequence(Vec<Rgb>, u64, Repeat),
}

/// The pixel to hand to the output device for `colour` at brightness `level`:
/// the colour gamma-corrected, then dimmed.
pub fn write(colour: Rgb, level: u8) -> (pixel: Rgb)
    ensures
        pixel == lit(colour, level),
{
    dim(correct(colour), level)
}

/// The position of a playback in its sequence.
pub struct Track {
    /// The colours to show, in order.
    pub sequence: Seq<Rgb>,
    /// The colour to show next; equal to the length once all were shown.
    pub index: nat,
    /// What is left of the repeat policy.
    pub repeat: Repeat,
}

/// A playback in progress.
pub struct Playing {
    /// The instant of the next tick.
    pub deadline: u64,
    /// The spacing of the ticks.
    pub period: u64,
    /// Where the playback stands.
    pub track: Track,
}

/// What the sequencer is: its colour and brightness, and the playback if one
/// is in progress.
pub struct ActorState {
    /// The current colour.
    pub colour: Rgb,
    /// The current brightness.
    pub brightness: u8,
    /// The playback in progress, if any.
    pub playing: Option<Playing>,
}

/// The colour that the next tick of a track shows, if any is left.
pub open spec fn track_colour(track: Option<Track>) -> Option<Rgb> {
    match track {
        Some(t) if t.index < t.sequence.len() => Some(t.sequence[t.index as int]),
        _ => None,
    }
}

/// A track after one tick whose write, if one was due, succeeded. `None` is
/// the end of the playback.
pub open spec fn track_step(track: Option<Track>) -> Option<Track> {
    match track {
        None => None,
        Some(t) => if t.index < t.sequence.len() {
            Some(Track { index: t.index + 1, ..t })
        } else {
            match t.repeat {
                Repeat::Once => None,
                Repeat::N(n) => if n == 0 {
                    None
                } else {
                    Some(Track { index: 0, repeat: Repeat::N((n - 1) as u8), ..t })
                },
                Repeat::Forever => Some(Track { index: 0, ..t }),
            }
        },
    }
}

/// The state after a command handled at `now`. Every command first cancels
/// the playback; only `SetSequence` starts a new one.
pub open spec fn act_state(s: ActorState, msg: Message, now: u64) -> ActorState {
    match msg {
        Message::SetColour(colour) => ActorState { colour, playing: None, ..s },
        Message::SetBrightness(level) => ActorState { brightness: level, playing: None, ..s },
        Message::Off => ActorState { playing: None, ..s },
        Message::On => ActorState { playing: None, ..s },
        Message::SetSequence(sequence, period, repeat) => ActorState {
            playing: Some(
                Playing {
                    deadline: (now + period) as u64,
                    period,
                    track: Track { sequence: sequence@, index: 0, repeat },
                },
            ),
            ..s
        },
    }
}

/// The pixel that a command has written, if it writes one.
pub open spec fn act_pixel(s: ActorState, msg: Message) -> Option<Rgb> {
    match msg {
        Message::SetColour(colour) => Some(lit(colour, s.brightness)),
        Message::SetBrightness(level) => Some(lit(s.colour, level)),
        Message::Off => Some(lit(black(), 0)),
        Message::On => Some(lit(s.colour, s.brightness)),
        Message::SetSequence(..) => None,
    }
}

/// The track of a state, if it is playing.
pub open spec fn track_of(s: ActorState) -> Option<Track> {
    match s.playing {
        None => None,
        Some(p) => Some(p.track),
    }
}

/// The pixel that the next tick writes, if it writes one.
pub open spec fn due_pixel(s: ActorState) -> Option<Rgb> {
    match track_colour(track_of(s)) {
        None => None,
        Some(colour) => Some(lit(colour, s.brightness)),
    }
}

/// The state after a tick taken at `now`. `written` tells whether the device
/// accepted the pixel that was due; it matters only where one was due. A
/// failed write re-arms the schedule and leaves the track where it was.
pub open spec fn next_state(s: ActorState, now: u64, written: bool) -> ActorState {
    match s.playing {
        None => s,
        Some(p) => {
            let track = if due_pixel(s) is Some && !written {
                Some(p.track)
            } else {
                track_step(Some(p.track))
            };
            match track {
                None => ActorState { playing: None, ..s },
                Some(t) => ActorState {
                    playing: Some(
                        Playing { deadline: (now + p.period) as u64, period: p.period, track: t },
                    ),
                    ..s
                },
            }
        },
    }
}

/// The sequencer's private state.
pub struct Actor {
    /// The schedule of the playback; idle when none is in progress.
    timer: Scheduler,
    /// The colours of the playback.
    sequence: Vec<Rgb>,
    /// The colour of the playback to show next.
    index: usize,
    /// What is left of the playback's repeat policy.
    repeat: Repeat,
    /// The current colour.
    colour: Rgb,
    /// The current brightness.
    brightness: u8,
}

impl View for Actor {
    type V = ActorState;

    closed spec fn view(&self) -> ActorState {
        ActorState {
            colour: self.colour,
            brightness: self.brightness,
            playing: match self.timer {
                Scheduler::Idle => None,
                Scheduler::Armed { deadline, period } => Some(
                    Playing {
                        deadline,
                        period,
                        track: Track {
                            sequence: self.sequence@,
                            index: self.index as nat,
                            repeat: self.repeat,
                        },
                    },
                ),
            },
        }
    }
}

impl Actor {
    /// A sequencer that is idle, with a black colour at brightness 50.
    pub fn new() -> (actor: Actor)
        ensures
            actor@ == (ActorState { colour: black(), brightness: 50, playing: None }),
    {
        Actor {
            timer: Scheduler::new(),
            sequence: Vec::new(),
            index: 0,
            repeat: Repeat::Once,
            colour: Rgb { r: 0, g: 0, b: 0 },
            brightness: 50,
        }
    }

    /// The current colour.
    pub fn colour(&self) -> (colour: Rgb)
        ensures
            colour == self@.colour,
    {
        self.colour
    }

    /// The current brightness.
    pub fn brightness(&self) -> (level: u8)
        ensures
            level == self@.brightness,
    {
        self.brightness
    }

    /// Whether a playback is in progress.
    pub fn is_playing(&self) -> (playing: bool)
        ensures
            playing == self@.playing is Some,
    {
        self.timer.is_armed()
    }

    /// The instant of the next tick, if a playback is in progress.
    pub fn deadline(&self) -> (deadline: Option<u64>)
        ensures
            deadline == (match self@.playing {
                None => None::<u64>,
                Some(p) => Some(p.deadline),
            }),
    {
        self.timer.deadline()
    }

    /// The spacing of the ticks, if a playback is in progress.
    pub fn period(&self) -> (period: Option<u64>)
        ensures
            period == (match self@.playing {
                None => None::<u64>,
                Some(p) => Some(p.period),
            }),
    {
        self.timer.period()
    }

    /// Handles a command at `now` and returns the pixel to write, if the
    /// command writes one.
    pub fn act(&mut self, msg: Message, now: u64) -> (pixel: Option<Rgb>)
        requires
            msg matches Message::SetSequence(_, period, _) ==> now + period <= u64::MAX,
        ensures
            final(self)@ == act_state(old(self)@, msg, now),
            pixel == act_pixel(old(self)@, msg),
    {
        self.timer.disarm();
        match msg {
            Message::SetColour(colour) => {
                self.colour = colour;
                Some(write(colour, self.brightness))
            },
            Message::SetBrightness(level) => {
                self.brightness = level;
                Some(write(self.colour, level))
            },
            Message::Off => Some(write(Rgb { r: 0, g: 0, b: 0 }, 0)),
            Message::On => Some(write(self.colour, self.brightness)),
            Message::SetSequence(sequence, period, repeat) => {
                self.timer.arm(now, period);
                self.sequence = sequence;
                self.index = 0;
                self.repeat = repeat;
                None
            },
        }
    }

    /// The pixel that the tick now due has to write, if any: the colour at the
    /// playback's position, at the current brightness.
    pub fn due_frame(&self) -> (pixel: Option<Rgb>)
        ensures
            pixel == due_pixel(self@),
    {
        if self.timer.is_armed() && self.index < self.sequence.len() {
            Some(write(self.sequence[self.index], self.brightness))
        } else {
            None
        }
    }

    /// Handles a tick taken at `now`. `written` tells whether the device
    /// accepted the pixel of [`Actor::due_frame`]. Reports a refused write;
    /// the schedule goes on either way.
    pub fn next(&mut self, now: u64, written: bool) -> (r: Result<(), AppError>)
        requires
            old(self)@.playing matches Some(p) ==> now + p.period <= u64::MAX,
        ensures
            final(self)@ == next_state(old(self)@, now, written),
            r == (if due_pixel(old(self)@) is Some && !written {
                Err::<(), AppError>(AppError::LedWrite)
            } else {
                Ok::<(), AppError>(())
            }),
    {
        let period: u64 = match self.timer.period() {
            Some(period) => period,
            None => {
                return Ok(());
            },
        };
        self.timer.arm(now, period);
        if self.index < self.sequence.len() {
            if !written {
                return Err(AppError::LedWrite);
            }
            self.index = self.index + 1;
        } else {
            match self.repeat {
                Repeat::Once => self.timer.disarm(),
                Repeat::N(n) => {
                    if n == 0 {
                        self.timer.disarm();
                    } else {
                        self.repeat = Repeat::N(n - 1);
                        self.index = 0;
                    }
                },
                Repeat::Forever => {
                    self.index = 0;
                },
            }
        }
        Ok(())
    }
}

/// A `SetSequence` command leaves the playback at the start of its
/// sequence, armed one period ahead, and writes nothing.
pub proof fn lemma_sequence_starts_fresh(
    s: ActorState,
    sequence: Vec<Rgb>,
    period: u64,
    repeat: Repeat,
    now: u64,
)
    requires
        now + period <= u64::MAX,
    ensures
        track_of(act_state(s, Message::SetSequence(sequence, period, repeat), now)) == Some(
            Track { sequence: sequence@, index: 0, repeat },
        ),
        timer_of(act_state(s, Message::SetSequence(sequence, period, repeat), now)) == (
        Scheduler::Armed { deadline: (now + period) as u64, period }),
        act_pixel(s, Message::SetSequence(sequence, period, repeat)) is None,
{
}

/// A tick whose write succeeded moves the track by one step, whenever it is
/// taken, and touches neither colour nor brightness.
pub proof fn lemma_tick_steps_track(s: ActorState, now: u64)
    ensures
        track_of(next_state(s, now, true)) == track_step(track_of(s)),
        next_state(s, now, true).colour == s.colour,
        next_state(s, now, true).brightness == s.brightness,
{
}

/// A tick whose write failed leaves the track where it was, and the schedule
/// armed.
pub proof fn lemma_failed_write_keeps_track(s: ActorState, now: u64)
    requires
        due_pixel(s) is Some,
    ensures
        next_state(s, now, false).playing is Some,
        track_of(next_state(s, now, false)) == track_of(s),
{
}

/// A direct command takes precedence over a playback: it ends the playback
/// and writes a pixel at once, and no later tick writes or brings the old
/// schedule back. `Off` writes a dark pixel and keeps colour and brightness.
pub proof fn lemma_direct_command_cancels(
    s: ActorState,
    msg: Message,
    now: u64,
    later: u64,
    written: bool,
)
    requires
        !(msg is SetSequence),
    ensures
        act_state(s, msg, now).playing is None,
        act_pixel(s, msg) is Some,
        due_pixel(act_state(s, msg, now)) is None,
        next_state(act_state(s, msg, now), later, written) == act_state(s, msg, now),
        msg is Off ==> act_pixel(s, msg) == Some(black()) && act_state(s, msg, now).colour
            == s.colour && act_state(s, msg, now).brightness == s.brightness,
{
    lemma_level_zero_is_dark(black());
}

/// The sending side of the sequencer: its mailbox, of capacity ten.
pub struct LedActor {
    inbox: Inbox,
}

/// What the actor's loop turns to next.
#[derive(Debug, PartialEq, Eq)]
pub enum Wake {
    /// A command was waiting; it has been taken out of the mailbox.
    Command(Message),
    /// The scheduled step is due.
    Tick,
    /// Nothing is ready: wait for a message, and no longer than this many
    /// ticks where a step is scheduled.
    Rest(Option<u64>),
}

impl View for LedActor {
    type V = Seq<Message>;

    closed spec fn view(&self) -> Seq<Message> {
        queued(self.inbox)
    }
}

impl LedActor {
    /// A mailbox with nothing queued.
    pub fn new() -> (actor: LedActor)
        ensures
            actor@ == Seq::<Message>::empty(),
    {
        LedActor { inbox: channel_new() }
    }

    /// Queues `msg` unless the mailbox is full, without waiting.
    pub fn send(&mut self, msg: Message) -> (r: Result<(), AppError>)
        ensures
            final(self)@ == offer(old(self)@, msg),
            r == (if old(self)@.len() < capacity() {
                Ok::<(), AppError>(())
            } else {
                Err::<(), AppError>(AppError::LedActorSend)
            }),
    {
        match channel_try_send(&mut self.inbox, msg) {
            None => Ok(()),
            Some(_) => Err(AppError::LedActorSend),
        }
    }

    /// Turn on the LED.
    pub fn on(&mut self) -> (r: Result<(), AppError>)
        ensures
            final(self)@ == offer(old(self)@, Message::On),
            r == (if old(self)@.len() < capacity() {
                Ok::<(), AppError>(())
            } else {
                Err::<(), AppError>(AppError::LedActorSend)
            }),
    {
        self.send(Message::On)
    }

    /// Turn off the LED.
    pub fn off(&mut self) -> (r: Result<(), AppError>)
        ensures
            final(self)@ == offer(old(self)@, Message::Off),
            r == (if old(self)@.len() < capacity() {
                Ok::<(), AppError>(())
            } else {
                Err::<(), AppError>(AppError::LedActorSend)
            }),
    {
        self.send(Message::Off)
    }

    /// Set the colour of the LED.
    pub fn set_colour(&mut self, colour: Rgb) -> (r: Result<(), AppError>)
        ensures
            final(self)@ == offer(old(self)@, Message::SetColour(colour)),
            r == (if old(self)@.len() < capacity() {
                Ok::<(), AppError>(())
            } else {
                Err::<(), AppError>(AppError::LedActorSend)
            }),
    {
        self.send(Message::SetColour(colour))
    }

    /// Set the brightness of the LED.
    pub fn set_brightness(&mut self, level: u8) -> (r: Result<(), AppError>)
        ensures
            final(self)@ == offer(old(self)@, Message::SetBrightness(level)),
            r == (if old(self)@.len() < capacity() {
                Ok::<(), AppError>(())
            } else {
                Err::<(), AppError>(AppError::LedActorSend)
            }),
    {
        self.send(Message::SetBrightness(level))
    }

    /// Set the LED to a sequence of colours.
    pub fn set_sequence(&mut self, sequence: Vec<Rgb>, step_duration: u64, repeat: Repeat) -> (r:
        Result<(), AppError>)
        ensures
            final(self)@ == offer(
                old(self)@,
                Message::SetSequence(sequence, step_duration, repeat),
            ),
            r == (if old(self)@.len() < capacity() {
                Ok::<(), AppError>(())
            } else {
                Err::<(), AppError>(AppError::LedActorSend)
            }),
    {
        self.send(Message::SetSequence(sequence, step_duration, repeat))
    }

    /// The number of commands waiting.
    pub fn pending(&self) -> (n: usize)
        ensures
            n == self@.len(),
    {
        channel_len(&self.inbox)
    }

    /// One turn of the actor's loop at `now`: exactly one of a waiting
    /// command, oldest first, the scheduled step if it is due, or a rest. A
    /// waiting command wins over a step that is due, and is taken out of the
    /// mailbox.
    pub fn select(&mut self, actor: &Actor, now: u64) -> (wake: Wake)
        ensures
            wake == wake_of(old(self)@, actor@, now),
            final(self)@ == (if old(self)@.len() > 0 {
                old(self)@.drop_first()
            } else {
                old(self)@
            }),
    {
        let waiting = channel_len(&self.inbox) > 0;
        match take_turn(waiting, &actor.timer, now) {
            Turn::Message => match channel_try_receive(&mut self.inbox) {
                Some(msg) => Wake::Command(msg),
                // not taken: the mailbox was just seen to hold a message
                None => Wake::Rest(None),
            },
            Turn::Tick => Wake::Tick,
            Turn::Rest(wait) => Wake::Rest(wait),
        }
    }
}

/// The schedule of a sequencer state.
pub open spec fn timer_of(s: ActorState) -> Scheduler {
    match s.playing {
        None => Scheduler::Idle,
        Some(p) => Scheduler::Armed { deadline: p.deadline, period: p.period },
    }
}

/// What the loop turns to, given the queue, the sequencer and the time.
pub open spec fn wake_of(queue: Seq<Message>, s: ActorState, now: u64) -> Wake {
    match turn(queue.len() > 0, timer_of(s), now) {
        Turn::Message => Wake::Command(queue[0]),
        Turn::Tick => Wake::Tick,
        Turn::Rest(wait) => Wake::Rest(wait),
    }
}

} // verus!
