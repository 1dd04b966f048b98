use vstd::prelude::*;
use crate::sync::handler::Handler;
use crate::tokio_specs::close_receiver;

verus! {

/// The message loop's owning side: the consuming end of the actor's queue
/// and the handler it dispatches to. Exclusively owned by the actor's unit
/// of work for its entire lifetime.
///
/// Two ghost fields mirror what the loop does to the world: whether the
/// consuming end is still open, and how many times `on_error` has been
/// invoked. `handle_one`'s contract is stated over them.
#[verifier::reject_recursive_types(T)]
pub struct Actor<T, U: Handler<T>> {
    receiver: tokio::sync::mpsc::UnboundedReceiver<T>,
    handler: U,
    accepting: Ghost<bool>,
    reports: Ghost<nat>,
}

impl<T, U: Handler<T>> Actor<T, U> {
    /// The handler owned by this loop.
    pub closed spec fn spec_handler(self) -> U {
        self.handler
    }

    /// Whether the consuming end is still open: becomes false exactly when
    /// a fatal failure makes the loop close it.
    pub closed spec fn accepting(self) -> bool {
        self.accepting@
    }

    /// How many times `on_error` has been invoked.
    pub closed spec fn reports(self) -> nat {
        self.reports@
    }

    /// Builds the loop state from the consuming end and the handler.
    pub fn new(rx: tokio::sync::mpsc::UnboundedReceiver<T>, handler: U) -> (a: Self)
        ensures
            a.spec_handler() == handler,
            a.accepting(),
            a.reports() == 0,
    {
        Actor { receiver: rx, handler, accepting: Ghost(true), reports: Ghost(0) }
    }

    /// One dispatch of the message loop: hands the dequeued message to the
    /// handler. While the handler succeeds the loop keeps running and
    /// touches nothing else; on a fatal failure it closes the consuming end
    /// first, then reports the error — exactly one additional report — and
    /// tells the driver to stop.
    pub fn handle_one(&mut self, message: T) -> (continue_running: bool)
        ensures
            continue_running ==> final(self).accepting() == old(self).accepting()
                && final(self).reports() == old(self).reports(),
            !continue_running ==> !final(self).accepting()
                && final(self).reports() == old(self).reports() + 1,
    {
        match self.handler.handle_message(message) {
            Ok(()) => true,
            Err(e) => {
                close_receiver(&mut self.receiver);
                proof {
                    self.accepting@ = false;
                    self.reports@ = self.reports@ + 1;
                }
                self.handler.on_error(e);
                false
            },
        }
    }

    /// The consuming end, for the loop's driver to await the next message
    /// on between dispatches.
    pub fn receiver_mut(&mut self) -> &mut tokio::sync::mpsc::UnboundedReceiver<T> {
        &mut self.receiver
    }
}

} // verus!
