//! The message queues that connect the switch to its endpoints.
//!
//! The queues are `crossbeam_channel`'s unbounded channels. What travels through them
//! depends on the other threads of the program, so nothing is claimed about what a
//! `send` or a `recv` returns; the code that calls them is verified for every outcome.

use crossbeam_channel::Receiver;
use crossbeam_channel::RecvError;
use crossbeam_channel::Sender;
use vstd::prelude::*;

verus! {

/// `crossbeam_channel::Sender`, the writing end of a queue. Opaque.
#[verifier::external_type_specification]
#[verifier::external_body]
#[verifier::reject_recursive_types(T)]
pub struct ExSender<T>(Sender<T>);

/// `crossbeam_channel::Receiver`, the reading end of a queue. Opaque.
#[verifier::external_type_specification]
#[verifier::external_body]
#[verifier::reject_recursive_types(T)]
pub struct ExReceiver<T>(Receiver<T>);

/// `crossbeam_channel::RecvError`, returned when the queue is empty and has no writer left.
#[verifier::external_type_specification]
#[verifier::external_body]
pub struct ExRecvError(RecvError);

/// `crossbeam_channel::unbounded` creates a queue and hands out its two ends.
/// Nothing is claimed about them.
pub assume_specification<T>[ crossbeam_channel::unbounded::<T> ]() -> (ends: (
    Sender<T>,
    Receiver<T>,
));

/// `Receiver::recv` waits for the next message, or fails when the queue is empty and no
/// writer is left. Which message arrives is not claimed.
pub assume_specification<T>[ Receiver::<T>::recv ](rx: &Receiver<T>) -> (got: Result<
    T,
    RecvError,
>);

/// `Sender::clone` makes another writing end of the same queue: the clone holds the
/// same reference to the queue as the original, so the two are the same value.
pub assume_specification<T>[ <Sender<T> as Clone>::clone ](tx: &Sender<T>) -> (other: Sender<T>)
    ensures
        other == *tx,
;

/// `Receiver::clone` makes another reading end of the same queue: the clone holds the
/// same reference to the queue as the original, so the two are the same value.
pub assume_specification<T>[ <Receiver<T> as Clone>::clone ](rx: &Receiver<T>) -> (other:
    Receiver<T>)
    ensures
        other == *rx,
;

/// The writing end of a queue, together with the record of every message that was
/// handed to it. The record grows only where a message is sent.
#[verifier::reject_recursive_types(T)]
pub struct Outlet<T> {
    tx: Sender<T>,
    log: Ghost<Seq<T>>,
}

impl<T> Outlet<T> {
    /// The writing end.
    pub closed spec fn sender(&self) -> Sender<T> {
        self.tx
    }

    /// Every message that was handed to the queue through this outlet, oldest first.
    pub closed spec fn sent(&self) -> Seq<T> {
        self.log@
    }

    /// An outlet to the queue that `tx` writes to, with nothing handed to it yet.
    pub fn new(tx: Sender<T>) -> (outlet: Outlet<T>)
        ensures
            outlet.sender() == tx,
            outlet.sent() == Seq::<T>::empty(),
    {
        Outlet { tx, log: Ghost(Seq::empty()) }
    }

    /// Calls `Sender::send`, which puts the message on the queue, or fails when no
    /// reader is left; the result tells which. Which of the two happens is not
    /// claimed. The record of what was handed to `send` through this outlet grows by
    /// `msg`, and the writing end stays the same.
    #[verifier::external_body]
    pub(crate) fn post(&mut self, msg: T) -> (delivered: bool)
        ensures
            final(self).sender() == old(self).sender(),
            final(self).sent() == old(self).sent().push(msg),
    {
        self.tx.send(msg).is_ok()
    }
}

} // verus!
