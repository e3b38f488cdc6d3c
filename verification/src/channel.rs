//! The channel on which an endpoint announces new connections: an unbounded
//! queue of `futures`, used here without waiting on it.

use futures::channel::mpsc::{TryRecvError, UnboundedReceiver, UnboundedSender};
use vstd::prelude::*;

verus! {

#[verifier::external_type_specification]
#[verifier::external_body]
#[verifier::reject_recursive_types(T)]
pub struct ExUnboundedSender<T>(UnboundedSender<T>);

#[verifier::external_type_specification]
#[verifier::external_body]
#[verifier::reject_recursive_types(T)]
pub struct ExUnboundedReceiver<T>(UnboundedReceiver<T>);

/// What a look into the queue found.
pub enum Polled<T> {
    /// The oldest item that was waiting.
    Item(T),
    /// Nothing is waiting, but a sender is still there.
    Empty,
    /// Nothing is waiting and no sender is left: nothing will come.
    Closed,
}

/// One offer made to a queue: what was offered, and whether the queue took
/// it.
pub struct Offer<T> {
    pub item: T,
    pub taken: bool,
}

/// The sending end of a queue together with the record of the offers made
/// through it, oldest first. The record is ghost state: it lets a contract
/// say what a function offers, and what it does with the queue's answer.
#[verifier::reject_recursive_types(T)]
pub struct Outbox<T> {
    sender: UnboundedSender<T>,
    offers: Ghost<Seq<Offer<T>>>,
}

impl<T> Outbox<T> {
    /// The sending end itself.
    pub closed spec fn sender(&self) -> UnboundedSender<T> {
        self.sender
    }

    /// The offers made so far.
    pub closed spec fn offers(&self) -> Seq<Offer<T>> {
        self.offers@
    }

    /// A new queue: its sending end, through which nothing has been offered
    /// yet, and its receiving end.
    pub fn new() -> (ends: (Outbox<T>, UnboundedReceiver<T>))
        ensures
            ends.0.offers() == Seq::<Offer<T>>::empty(),
    {
        let (sender, receiver) = unbounded();
        (Outbox { sender, offers: Ghost(Seq::empty()) }, receiver)
    }

    /// Offers `item` to the queue. The answer is the queue's: it takes the
    /// item as long as its receiving end is open.
    pub fn offer(&mut self, item: T) -> (taken: bool)
        ensures
            final(self).sender() == old(self).sender(),
            final(self).offers() == old(self).offers().push(Offer { item, taken }),
    {
        let ghost offered = item;
        let taken = publish(&self.sender, item);
        self.offers = Ghost(self.offers@.push(Offer { item: offered, taken }));
        taken
    }
}

/// `mpsc::unbounded`: the two ends of a new queue.
#[verifier::external_body]
fn unbounded<T>() -> (ends: (UnboundedSender<T>, UnboundedReceiver<T>)) {
    futures::channel::mpsc::unbounded()
}

/// `UnboundedSender::unbounded_send`. `true` says that the item was queued;
/// `false`, that the receiving end is closed or gone, and the item with it.
/// Whether a receiver is still there is not for the sender to know in
/// advance, so nothing is promised of the answer.
#[verifier::external_body]
fn publish<T>(sender: &UnboundedSender<T>, item: T) -> (queued: bool) {
    sender.unbounded_send(item).is_ok()
}

/// `UnboundedReceiver::try_recv`: takes the oldest waiting item, if any,
/// without waiting for one.
#[verifier::external_body]
pub(crate) fn try_recv<T>(receiver: &mut UnboundedReceiver<T>) -> (polled: Polled<T>) {
    match receiver.try_recv() {
        Ok(item) => Polled::Item(item),
        Err(TryRecvError::Empty) => Polled::Empty,
        Err(TryRecvError::Closed) => Polled::Closed,
    }
}

} // verus!
