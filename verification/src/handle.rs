use vstd::prelude::*;
use crate::error::{ActorHandleSendError, ShutdownError};
use crate::tokio_specs::channel_send;

verus! {

/// The externally visible control surface of one actor: the producing end
/// of its queue, held in a take-once slot, and the join reference to its
/// independently scheduled unit of work.
///
/// The sender slot moves one way, from present to taken, when a graceful
/// shutdown begins; `send` is valid only while it is present. Joining and
/// aborting the scheduled unit are suspension points and live with the
/// runtime driving this handle, as does the documented hazard that waiting
/// on the unit after requesting an abort can block indefinitely while a
/// synchronous dispatch cannot be interrupted.
#[verifier::reject_recursive_types(T)]
pub struct ActorHandle<T> {
    sender: Option<tokio::sync::mpsc::UnboundedSender<T>>,
    join_handle: tokio::task::JoinHandle<()>,
}

impl<T> ActorHandle<T> {
    /// Whether the handle still holds its producing end.
    pub closed spec fn sender_available(self) -> bool {
        self.sender is Some
    }

    /// Builds a handle from the producing end of the actor's queue and the
    /// join reference of its already scheduled unit of work.
    pub fn from_parts(
        sender: tokio::sync::mpsc::UnboundedSender<T>,
        join_handle: tokio::task::JoinHandle<()>,
    ) -> (h: Self)
        ensures
            h.sender_available(),
    {
        ActorHandle { sender: Some(sender), join_handle }
    }

    /// Sends a message to this actor.
    ///
    /// Succeeds immediately — without waiting for the message to be
    /// processed — while the sender slot is present and the actor still
    /// holds the consuming end. Fails with `NoneSender` exactly when a
    /// prior shutdown took the slot; fails with `SendError`, handing the
    /// undelivered message back unchanged, when the actor has already
    /// terminated and released the consuming end.
    pub fn send(&self, message: T) -> (r: Result<(), ActorHandleSendError<T>>)
        ensures
            !self.sender_available() ==> (r matches Err(e) && e is NoneSender),
            self.sender_available() ==> !(r matches Err(e) && e is NoneSender),
            r matches Err(e) ==> (e matches ActorHandleSendError::SendError(m) ==> m == message
                && self.sender_available()),
    {
        match &self.sender {
            Some(tx) => match channel_send(tx, message) {
                Ok(()) => Ok(()),
                Err(m) => Err(ActorHandleSendError::SendError(m)),
            },
            None => Err(ActorHandleSendError::NoneSender),
        }
    }

    /// Begins a graceful shutdown: takes the producing end out of its slot
    /// and drops it, permanently disabling `send`; the queue then yields
    /// end-of-stream to the actor once the already accepted messages are
    /// drained. A one-time operation: fails with `NoneSender`, changing
    /// nothing, if the slot was already taken.
    pub fn begin_shutdown(&mut self) -> (r: Result<(), ShutdownError>)
        ensures
            !old(self).sender_available() ==> (r matches Err(e) && e is NoneSender)
                && *final(self) == *old(self),
            old(self).sender_available() ==> r is Ok && !final(self).sender_available(),
    {
        if self.sender.is_some() {
            self.sender = None;
            Ok(())
        } else {
            Err(ShutdownError::NoneSender)
        }
    }

    /// Splits the handle into its producing end, if still present, and the
    /// join reference, for the runtime to wait on the actor's unit of work.
    pub fn into_parts(self) -> (r: (
        Option<tokio::sync::mpsc::UnboundedSender<T>>,
        tokio::task::JoinHandle<()>,
    ))
        ensures
            (r.0 is Some) == self.sender_available(),
    {
        let ActorHandle { sender, join_handle } = self;
        (sender, join_handle)
    }
}

} // verus!
