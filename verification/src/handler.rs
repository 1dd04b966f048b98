use vstd::prelude::*;
use crate::error::ActorError;

verus! {

/// The capability an actor's user supplies: how one message is consumed and
/// how a terminal failure is reported.
///
/// The runtime guarantees that at most one of these operations is in flight
/// at a time for a given actor, so implementations may use unsynchronized
/// internal state. A failure returned from `handle_message` is fatal to the
/// owning actor: it is not retried and no later message is dispatched.
/// `on_error` is invoked exactly once on that path and is best-effort: its
/// own failures are not observed by the runtime.
pub trait Handler<T> {
    /// Consumes one message, running to completion before the next message
    /// is dequeued.
    fn handle_message(&mut self, message: T) -> Result<(), ActorError>;

    /// Reports the fatal failure that ends this actor.
    fn on_error(&mut self, error: ActorError);
}

} // verus!
