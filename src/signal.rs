//! A one-shot completion signal that two racing callbacks share: the first
//! delivery goes through, every later one is a no-op.
use vstd::prelude::*;

use futures::channel::oneshot::Sender;

verus! {

#[verifier::external_type_specification]
#[verifier::external_body]
#[verifier::reject_recursive_types(T)]
pub struct ExSender<T>(Sender<T>);

/// Relies on futures' oneshot `Sender::send`: when the value cannot be
/// handed over it comes back unchanged in `Err`.
pub assume_specification<T>[ Sender::<T>::send ](sender: Sender<T>, t: T) -> (r: Result<(), T>)
    ensures
        r matches Err(u) ==> u == t,
;

/// How a delivery attempt went.
#[derive(Clone, Copy, Debug, PartialEq, Eq)]
pub enum Delivery {
    /// The result was handed to the waiting side.
    Sent,
    /// This was the first delivery, but the waiting side had gone.
    ReceiverGone,
    /// A result had been delivered before: nothing was sent.
    AlreadyDelivered,
}

/// The sending side of a one-shot channel that carries an asset load's
/// outcome, guarded so that only the first delivery is sent.
pub struct LoadSignal {
    sender: Option<Sender<Result<(), String>>>,
}

impl LoadSignal {
    /// Whether no result has been delivered yet.
    pub closed spec fn is_armed(&self) -> bool {
        self.sender is Some
    }

    /// A signal that has not delivered yet.
    pub fn new(sender: Sender<Result<(), String>>) -> (r: Self)
        ensures
            r.is_armed(),
    {
        LoadSignal { sender: Some(sender) }
    }

    /// Whether no result has been delivered yet.
    pub fn armed(&self) -> (r: bool)
        ensures
            r == self.is_armed(),
    {
        self.sender.is_some()
    }

    /// Delivers `result` if nothing was delivered before. The first call
    /// sends, and afterwards the signal is spent; a later call sends nothing
    /// and says so.
    pub fn deliver(&mut self, result: Result<(), String>) -> (r: Delivery)
        ensures
            !final(self).is_armed(),
            old(self).is_armed() ==> r == Delivery::Sent || r == Delivery::ReceiverGone,
            !old(self).is_armed() ==> r == Delivery::AlreadyDelivered,
    {
        match self.sender.take() {
            Some(sender) => match sender.send(result) {
                Ok(()) => Delivery::Sent,
                Err(_) => Delivery::ReceiverGone,
            },
            None => Delivery::AlreadyDelivered,
        }
    }
}

} // verus!
