use vstd::prelude::*;
use crate::error::ActorError;

verus! {

/// The synchronous handler variant: `handle_message` runs to completion
/// without suspending before the next message is dequeued. Implemented by
/// user state that is driven by a synchronous message loop.
///
/// A returned failure is fatal to the owning actor; `on_error` is then
/// invoked exactly once, synchronously, and the loop terminates.
pub trait Handler<T> {
    /// Consumes one message without suspending.
    fn handle_message(&mut self, message: T) -> Result<(), ActorError>;

    /// Reports the fatal failure that ends this actor.
    fn on_error(&mut self, error: ActorError);
}

} // verus!
