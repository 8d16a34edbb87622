//! The message bus: every line that arrives is handed to each viewer that
//! is subscribed at that moment.
//!
//! The bus is a broadcast channel of `tokio`. The channel takes a line
//! where at least one receiver is alive, and numbers the lines that it
//! takes: the first one has position 0. A viewer that subscribes gets a
//! receiver of its own, which reads from the position that the channel has
//! reached at that moment: it sees the lines published from then on, never
//! an earlier one. A line that is published while nobody listens is dropped
//! and takes no position. Publishing never waits: a viewer that falls
//! behind the capacity of the bus loses the oldest lines and is told so by
//! its receiver. A viewer leaves by dropping its receiver.

use vstd::prelude::*;
use tokio::sync::broadcast::{Receiver, Sender};

verus! {

/// Declares `tokio::sync::broadcast::Sender`. Nothing is known of a value
/// but what `taken_lines` names.
#[verifier::external_type_specification]
#[verifier::external_body]
#[verifier::reject_recursive_types(T)]
pub struct ExBroadcastSender<T>(Sender<T>);

/// Declares `tokio::sync::broadcast::Receiver`. Nothing is known of a
/// value but what `reads_from` names.
#[verifier::external_type_specification]
#[verifier::external_body]
#[verifier::reject_recursive_types(T)]
pub struct ExBroadcastReceiver<T>(Receiver<T>);

/// The sending side of the bus.
pub type MessageSender = Sender<String>;

/// The receiving side of one viewer.
pub type MessageReceiver = Receiver<String>;

/// The number of lines that the bus holds for viewers that lag behind.
pub const BUS_CAPACITY: usize = 100;

/// The lines that the channel of this sender has taken since it was made,
/// in the order of their positions: the values of the sends that went
/// through. The sender must be the only one of its channel, as the one of a
/// bus is.
pub uninterp spec fn taken_lines(tx: Sender<String>) -> Seq<Seq<char>>;

/// The number of lines that the channel of this sender has taken: the
/// position that the next line gets. (The channel keeps the number modulo
/// 2^64, which no run reaches.)
pub open spec fn lines_taken(tx: Sender<String>) -> nat {
    taken_lines(tx).len()
}

/// The position of the line that this receiver reads next.
pub uninterp spec fn reads_from(rx: Receiver<String>) -> nat;

/// Calls `tokio::sync::broadcast::channel`, which panics on a capacity of
/// zero or above half of `usize::MAX`. Trusted: the new channel has taken no
/// line, and its first receiver reads from the start.
#[verifier::external_body]
fn channel_open(capacity: usize) -> (out: (Sender<String>, Receiver<String>))
    requires
        0 < capacity <= usize::MAX / 2,
    ensures
        taken_lines(out.0) == Seq::<Seq<char>>::empty(),
        reads_from(out.1) == 0,
{
    tokio::sync::broadcast::channel(capacity)
}

/// Calls `Sender::send`. Trusted: a count that comes back is the number of
/// receivers at that moment and is not zero, and the channel has then taken
/// this line, behind those that it took before; without a receiver the call
/// fails, nothing comes back, and the channel has taken nothing.
#[verifier::external_body]
fn sender_send(tx: &mut Sender<String>, line: String) -> (out: Option<usize>)
    ensures
        out matches Some(count) ==> count > 0,
        taken_lines(*final(tx)) == if out is Some {
            taken_lines(*old(tx)).push(line@)
        } else {
            taken_lines(*old(tx))
        },
{
    tx.send(line).ok()
}

/// Calls `Sender::subscribe`, which panics only once the channel counts a
/// quarter of `usize::MAX` receivers, more than memory can hold. Trusted:
/// the new receiver reads from the position that the channel has reached.
#[verifier::external_body]
fn sender_subscribe(tx: &Sender<String>) -> (out: Receiver<String>)
    ensures
        reads_from(out) == lines_taken(*tx),
{
    tx.subscribe()
}

/// The bus.
pub struct MessageBus {
    tx: Sender<String>,
}

impl MessageBus {
    /// The lines that the bus has delivered, in their order: those that
    /// were published while somebody listened.
    pub closed spec fn delivered(&self) -> Seq<Seq<char>> {
        taken_lines(self.tx)
    }

    /// A bus with its first receiver. Nothing was delivered yet, and the
    /// receiver reads from the start.
    pub fn new() -> (out: (Self, MessageReceiver))
        ensures
            out.0.delivered() == Seq::<Seq<char>>::empty(),
            reads_from(out.1) == 0,
    {
        let (tx, rx) = channel_open(BUS_CAPACITY);
        (MessageBus { tx }, rx)
    }

    /// Hands a line to every receiver there is at this moment, and returns
    /// their number: zero where nobody listens, which is no error. Where
    /// somebody listens, the bus has delivered this line, behind those that
    /// it delivered before; where nobody listens, the line is dropped.
    pub fn publish(&mut self, line: String) -> (out: usize)
        ensures
            final(self).delivered() == if out > 0 {
                old(self).delivered().push(line@)
            } else {
                old(self).delivered()
            },
    {
        let sent = sender_send(&mut self.tx, line);
        receivers_reached(sent)
    }

    /// A receiver for a new viewer. It reads from the position that the
    /// bus has reached: it sees what is delivered from now on, never an
    /// earlier line, and is independent of every other receiver. The
    /// viewer leaves by dropping it.
    pub fn subscribe(&self) -> (out: MessageReceiver)
        ensures
            reads_from(out) == self.delivered().len(),
    {
        sender_subscribe(&self.tx)
    }
}

/// The number of receivers that a line reached, from what the channel
/// answered to the send: the count that came back, or zero where the send
/// failed for want of a receiver.
pub fn receivers_reached(sent: Option<usize>) -> (out: usize)
    ensures
        out == match sent {
            Some(count) => count,
            None => 0,
        },
{
    match sent {
        Some(count) => count,
        None => 0,
    }
}

/// The receiver is due the line at this position: it reads from there or
/// from before.
pub open spec fn is_due(rx: Receiver<String>, position: nat) -> bool {
    reads_from(rx) <= position
}

/// A line that is published while somebody listens is delivered at the
/// position that the bus had reached before. A viewer that subscribed
/// before the publish is due that line; a viewer that subscribes after it
/// is not.
pub proof fn lemma_subscribers_before_and_after(
    before: MessageBus,
    after: MessageBus,
    line: Seq<char>,
    reached: usize,
    early: Receiver<String>,
    late: Receiver<String>,
)
    requires
        reads_from(early) == before.delivered().len(),
        after.delivered() == if reached > 0 {
            before.delivered().push(line)
        } else {
            before.delivered()
        },
        reached > 0,
        reads_from(late) == after.delivered().len(),
    ensures
        after.delivered()[before.delivered().len() as int] == line,
        is_due(early, before.delivered().len()),
        !is_due(late, before.delivered().len()),
{
}

} // verus!
