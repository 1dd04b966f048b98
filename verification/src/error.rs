use vstd::prelude::*;

verus! {

/// The opaque failure value a handler reports when a message cannot be
/// processed. It carries a human-readable description of what went wrong.
#[derive(Debug)]
pub struct ActorError {
    pub message: String,
}

impl ActorError {
    /// Builds a failure value from its description.
    pub fn new(message: String) -> (e: ActorError)
        ensures
            e.message == message,
    {
        ActorError { message }
    }
}

/// Why a graceful shutdown request failed.
#[derive(Debug)]
pub enum ShutdownError {
    /// The sender slot was already taken: shutdown is a one-time operation.
    NoneSender,
    /// The actor's unit of execution terminated abnormally while being joined.
    JoinError,
}

/// Any failure surfaced by a handle's lifecycle operations.
#[derive(Debug)]
pub enum ActorHandleError {
    ShutdownError(ShutdownError),
}

/// Why a send was rejected. In both cases the message was not delivered.
#[derive(Debug)]
pub enum ActorHandleSendError<T> {
    /// The sender slot was already taken by a prior shutdown.
    NoneSender,
    /// The actor already terminated and dropped the consuming end;
    /// the rejected message is handed back to the caller.
    SendError(T),
}

} // verus!
