//! The event bridge: unbounded channels that carry texts from their producers
//! to the one consumer.

use crossbeam_channel::{Receiver, Sender};
use vstd::prelude::*;

verus! {

#[verifier::external_type_specification]
#[verifier::external_body]
#[verifier::reject_recursive_types(T)]
pub struct ExSender<T>(Sender<T>);

#[verifier::external_type_specification]
#[verifier::external_body]
#[verifier::reject_recursive_types(T)]
pub struct ExReceiver<T>(Receiver<T>);

/// What one poll of a channel found.
pub enum Polled {
    /// A text was waiting, and has been taken out.
    Message(String),
    /// Nothing is waiting; a producer may still send.
    Empty,
    /// Nothing is waiting and every producer is gone.
    Closed,
}

/// `crossbeam_channel::unbounded`: a new channel without a limit. Nothing is
/// claimed of the two ends.
#[verifier::external_body]
fn unbounded_pair() -> (ends: (Sender<String>, Receiver<String>)) {
    crossbeam_channel::unbounded()
}

/// `Sender::send`, on a sender of a channel without a limit, where the call
/// never waits. `Ok` says that the text was queued; `Err` that every receiver
/// is gone, and hands the text back unchanged.
#[verifier::external_body]
fn send_unbounded(tx: &EventSender, text: String) -> (r: Result<(), String>)
    ensures
        r matches Err(back) ==> back@ == text@,
{
    match tx.tx.send(text) {
        Ok(()) => Ok(()),
        Err(e) => Err(e.0),
    }
}

/// `Sender::clone`: one more producer of the same channel. The clone holds
/// the same pointer to the channel as the sender it was made from, so as a
/// value it is that sender.
#[verifier::external_body]
fn clone_sender(tx: &EventSender) -> (r: EventSender)
    ensures
        r == *tx,
{
    EventSender { tx: tx.tx.clone() }
}

/// `Receiver::try_recv`: takes a waiting text out, without waiting for one.
/// Which of the three comes back depends on the producers.
#[verifier::external_body]
fn try_recv_now(rx: &EventReceiver) -> (r: Polled) {
    match rx.rx.try_recv() {
        Ok(text) => Polled::Message(text),
        Err(crossbeam_channel::TryRecvError::Empty) => Polled::Empty,
        Err(crossbeam_channel::TryRecvError::Disconnected) => Polled::Closed,
    }
}

/// A producer's end of an event channel. Every value of this type comes from
/// `event_channel`, so its channel has no limit and a send never waits.
pub struct EventSender {
    tx: Sender<String>,
}

/// The consumer's end of an event channel.
pub struct EventReceiver {
    rx: Receiver<String>,
}

/// A new event channel, empty and without a limit.
pub fn event_channel() -> (ends: (EventSender, EventReceiver)) {
    let (tx, rx) = unbounded_pair();
    (EventSender { tx }, EventReceiver { rx })
}

impl EventSender {
    /// Hands `text` to the channel. `Err` says that the consumer is gone, and
    /// gives the text back.
    pub fn send(&self, text: String) -> (r: Result<(), String>)
        ensures
            r matches Err(back) ==> back@ == text@,
    {
        send_unbounded(self, text)
    }

    /// One more producer of the same channel: a sender equal to this one.
    pub fn duplicate(&self) -> (r: EventSender)
        ensures
            r == *self,
    {
        clone_sender(self)
    }
}

impl EventReceiver {
    /// Takes the next text out of the channel if one is waiting; never
    /// waits.
    pub fn try_recv(&self) -> (r: Polled) {
        try_recv_now(self)
    }
}

} // verus!
