//! The sequencer's mailbox: a bounded first-in-first-out channel of
//! `embassy_sync`, held behind contracts over the messages it has queued.
use vstd::prelude::*;
use embassy_sync::blocking_mutex::raw::NoopRawMutex;
use embassy_sync::channel::Channel;
use embassy_sync::channel::TryReceiveError;
use embassy_sync::channel::TrySendError;
use crate::led::Message;

verus! {

/// A channel of `embassy_sync` for up to ten messages. It is opaque to the
/// proofs: what it holds is known only through [`queued`], and only the
/// trusted functions below touch it.
#[verifier::external_body]
pub struct Inbox {
    channel: Channel<NoopRawMutex, Message, 10>,
}

/// The messages that a channel holds, oldest first.
pub uninterp spec fn queued(inbox: Inbox) -> Seq<Message>;

/// The number of messages the mailbox holds at most.
pub open spec fn capacity() -> nat {
    10
}

/// The queue after an attempt to send `msg`: the message is appended while
/// there is room, and dropped when the mailbox is full.
pub open spec fn offer(queue: Seq<Message>, msg: Message) -> Seq<Message> {
    if queue.len() < capacity() {
        queue.push(msg)
    } else {
        queue
    }
}

/// Calls `Channel::new`. Trusted: a new channel holds no message.
#[verifier::external_body]
pub(crate) fn channel_new() -> (inbox: Inbox)
    ensures
        queued(inbox) == Seq::<Message>::empty(),
{
    Inbox { channel: Channel::new() }
}

/// Calls `Channel::try_send`. Trusted: with fewer than ten messages queued
/// the message is appended and nothing comes back; with ten the channel is
/// left as it is and the message is handed back.
#[verifier::external_body]
pub(crate) fn channel_try_send(inbox: &mut Inbox, msg: Message) -> (rejected: Option<Message>)
    ensures
        queued(*old(inbox)).len() < 10 ==> rejected is None && queued(*final(inbox)) == queued(
            *old(inbox),
        ).push(msg),
        queued(*old(inbox)).len() >= 10 ==> rejected == Some(msg) && queued(*final(inbox))
            == queued(*old(inbox)),
{
    match inbox.channel.try_send(msg) {
        Ok(()) => None,
        Err(TrySendError::Full(msg)) => Some(msg),
    }
}

/// Calls `Channel::try_receive`. Trusted: the oldest message is taken out
/// and returned; an empty channel gives `None` and stays as it is.
#[verifier::external_body]
pub(crate) fn channel_try_receive(inbox: &mut Inbox) -> (r: Option<Message>)
    ensures
        queued(*old(inbox)).len() == 0 ==> r is None && queued(*final(inbox)) == queued(
            *old(inbox),
        ),
        queued(*old(inbox)).len() > 0 ==> r == Some(queued(*old(inbox))[0]) && queued(
            *final(inbox),
        ) == queued(*old(inbox)).drop_first(),
{
    match inbox.channel.try_receive() {
        Ok(msg) => Some(msg),
        Err(TryReceiveError::Empty) => None,
    }
}

/// Calls `Channel::len`. Trusted: the result is the number of messages
/// queued.
#[verifier::external_body]
pub(crate) fn channel_len(inbox: &Inbox) -> (n: usize)
    ensures
        n == queued(*inbox).len(),
{
    inbox.channel.len()
}

/// The queue after a burst of sends, one attempt per message, in order.
pub open spec fn burst(queue: Seq<Message>, msgs: Seq<Message>) -> Seq<Message>
    decreases msgs.len(),
{
    if msgs.len() == 0 {
        queue
    } else {
        burst(offer(queue, msgs[0]), msgs.drop_first())
    }
}

/// How many sends of a burst of `count` succeed on a queue of `len`
/// messages.
pub open spec fn accepted(len: nat, count: nat) -> nat {
    if len >= capacity() {
        0
    } else if count <= capacity() - len {
        count
    } else {
        (capacity() - len) as nat
    }
}

/// A burst fills the free slots with its first messages, in the order sent,
/// and drops the rest: what was queued before stays in place and the mailbox
/// never holds more than its capacity.
pub proof fn lemma_burst(queue: Seq<Message>, msgs: Seq<Message>)
    requires
        queue.len() <= capacity(),
    ensures
        burst(queue, msgs) == queue + msgs.take(accepted(queue.len(), msgs.len()) as int),
        burst(queue, msgs).len() <= capacity(),
    decreases msgs.len(),
{
    let fit = accepted(queue.len(), msgs.len());
    if msgs.len() == 0 {
        assert(burst(queue, msgs) =~= queue + msgs.take(fit as int));
    } else {
        let next = offer(queue, msgs[0]);
        let rest = msgs.drop_first();
        lemma_burst(next, rest);
        let fit_rest = accepted(next.len(), rest.len());
        assert(next + rest.take(fit_rest as int) =~= queue + msgs.take(fit as int));
    }
}

/// Whether the send numbered `i` of a burst succeeds: whether the mailbox
/// has room once the sends before it have been made.
pub open spec fn sent(queue: Seq<Message>, msgs: Seq<Message>, i: int) -> bool {
    burst(queue, msgs.take(i)).len() < capacity()
}

/// In a burst exactly the sends for which a slot is still free succeed; the
/// excess ones fail, each leaving the mailbox as it found it.
pub proof fn lemma_burst_excess_fails(queue: Seq<Message>, msgs: Seq<Message>, i: int)
    requires
        queue.len() <= capacity(),
        0 <= i < msgs.len(),
    ensures
        sent(queue, msgs, i) <==> queue.len() + i < capacity(),
        !sent(queue, msgs, i) ==> offer(burst(queue, msgs.take(i)), msgs[i]) == burst(
            queue,
            msgs.take(i),
        ),
{
    lemma_burst(queue, msgs.take(i));
}

} // verus!
