use vstd::prelude::*;
use crate::error::{ActorError, ActorHandleSendError, ShutdownError};
use crate::handler::Handler;

verus! {

/// Which terminal state, if any, a message loop has reached.
#[derive(Clone, Copy, PartialEq, Eq, Structural, Debug)]
pub enum Status {
    /// The loop is still dequeuing and dispatching messages.
    Running,
    /// The loop ended because the queue yielded end-of-stream.
    DoneGraceful,
    /// The loop ended because the handler reported a fatal failure.
    DoneFatal,
}

/// The lifecycle protocol between an actor handle and its message loop,
/// driven one transition at a time.
///
/// This type holds everything the two sides coordinate through: the FIFO
/// queue of undelivered messages, the handle's one-way sender slot
/// (`Present` until a shutdown takes it), the consuming end's open/closed
/// state, and the loop status. The ghost history fields record every message
/// the queue accepted (`sent`) and every message handed to the handler
/// (`dispatched`), in order; the contracts below state the ordering,
/// exactly-once error reporting, and shutdown guarantees over them.
///
/// The asynchronous runtime around this crate realizes the same protocol
/// with a real channel and scheduler: `send` runs on the handle's side,
/// while `step` is one turn of the actor's loop. The model tracks the
/// handle's retained producing end; since one queue serializes all
/// producers into a single delivery order, its send history stands for
/// whatever interleaving racing producers settle on.
pub struct ActorProtocol<T, U: Handler<T>> {
    handler: U,
    queue: Vec<T>,
    sender_present: bool,
    consumer_open: bool,
    status: Status,
    errors_reported: u64,
    sent: Ghost<Seq<T>>,
    dispatched: Ghost<Seq<T>>,
}

impl<T, U: Handler<T>> ActorProtocol<T, U> {
    /// Every message the queue has accepted, in send order.
    pub closed spec fn sent(self) -> Seq<T> {
        self.sent@
    }

    /// Every message handed to the handler, in dispatch order.
    pub closed spec fn dispatched(self) -> Seq<T> {
        self.dispatched@
    }

    /// The accepted messages not yet handed to the handler, in order.
    pub closed spec fn queued(self) -> Seq<T> {
        self.queue@
    }

    /// Whether the handle still holds its producing end.
    pub closed spec fn sender_available(self) -> bool {
        self.sender_present
    }

    /// Whether the consuming end still admits messages into the queue.
    pub closed spec fn accepting(self) -> bool {
        self.consumer_open
    }

    /// The loop's status.
    pub closed spec fn status_of(self) -> Status {
        self.status
    }

    /// How many times `on_error` has been invoked.
    pub closed spec fn error_count(self) -> u64 {
        self.errors_reported
    }

    /// The handler owned by the loop.
    pub closed spec fn spec_handler(self) -> U {
        self.handler
    }

    /// Well-formedness: what every reachable protocol state satisfies.
    ///
    /// The first conjunct is the heart of the FIFO guarantee: the accepted
    /// history is exactly the dispatched history followed by the queue, so
    /// the handler only ever observes a prefix of the send order.
    pub closed spec fn wf(self) -> bool {
        &&& self.sent@ =~= self.dispatched@ + self.queue@
        &&& self.errors_reported == (if self.status is DoneFatal { 1u64 } else { 0u64 })
        &&& (self.status is Running ==> self.consumer_open)
        &&& (self.status is DoneFatal ==> !self.consumer_open)
        &&& (self.status is DoneGraceful ==> self.queue@.len() == 0)
        &&& (self.status is DoneGraceful ==> !self.sender_present)
    }

    /// The loop's status, for observers.
    pub fn status(&self) -> (s: Status)
        ensures
            s == self.status_of(),
    {
        self.status
    }

    /// How many times `on_error` has been invoked, for observers.
    pub fn error_reports(&self) -> (n: u64)
        ensures
            n == self.error_count(),
    {
        self.errors_reported
    }

    /// A view of the handler owned by the loop, for observers.
    pub fn handler_ref(&self) -> (h: &U)
        ensures
            *h == self.spec_handler(),
    {
        &self.handler
    }

    /// Builds a fresh protocol state: loop running, queue empty, sender
    /// present, nothing dispatched, no error reported.
    pub fn new(handler: U) -> (p: Self)
        ensures
            p.wf(),
            p.status_of() is Running,
            p.sender_available(),
            p.accepting(),
            p.sent() =~= Seq::<T>::empty(),
            p.dispatched() =~= Seq::<T>::empty(),
            p.queued() =~= Seq::<T>::empty(),
            p.error_count() == 0,
            p.spec_handler() == handler,
    {
        ActorProtocol {
            handler,
            queue: Vec::new(),
            sender_present: true,
            consumer_open: true,
            status: Status::Running,
            errors_reported: 0,
            sent: Ghost(Seq::empty()),
            dispatched: Ghost(Seq::empty()),
        }
    }

    /// The handle's send operation.
    ///
    /// Succeeds immediately while the sender slot is present and the
    /// consuming end is open, appending the message in send order. After a
    /// shutdown has taken the sender slot, every send fails with `NoneSender`
    /// and nothing changes; after the loop has terminated fatally and closed
    /// the consuming end, the rejected message is handed back unchanged.
    pub fn send(&mut self, message: T) -> (r: Result<(), ActorHandleSendError<T>>)
        requires
            old(self).wf(),
        ensures
            final(self).wf(),
            !old(self).sender_available() ==> {
                &&& r is Err
                &&& (r matches Err(e) ==> e is NoneSender)
                &&& *final(self) == *old(self)
            },
            old(self).sender_available() && !old(self).accepting() ==> {
                &&& (r matches Err(e) ==> e matches ActorHandleSendError::SendError(m) && m == message)
                &&& r is Err
                &&& *final(self) == *old(self)
            },
            old(self).sender_available() && old(self).accepting() ==> {
                &&& r is Ok
                &&& final(self).sent() =~= old(self).sent().push(message)
                &&& final(self).queued() =~= old(self).queued().push(message)
                &&& final(self).dispatched() == old(self).dispatched()
                &&& final(self).status_of() == old(self).status_of()
                &&& final(self).sender_available()
                &&& final(self).accepting()
                &&& final(self).error_count() == old(self).error_count()
                &&& final(self).spec_handler() == old(self).spec_handler()
            },
    {
        if !self.sender_present {
            return Err(ActorHandleSendError::NoneSender);
        }
        if !self.consumer_open {
            return Err(ActorHandleSendError::SendError(message));
        }
        let ghost m = message;
        self.queue.push(message);
        proof {
            self.sent@ = self.sent@.push(m);
        }
        Ok(())
    }

    /// One turn of the actor's message loop.
    ///
    /// A terminated loop does nothing: both terminal states are permanent,
    /// and in particular the handler is never invoked again. A running loop
    /// with an empty queue either keeps waiting (sender still present) or
    /// observes end-of-stream and terminates gracefully (sender gone).
    /// Otherwise the front message — the oldest accepted one — is dispatched
    /// to the handler; a failure closes the consuming end, reports the error
    /// exactly once, and terminates the loop before any later message is
    /// touched.
    pub fn step(&mut self) -> (progressed: bool)
        requires
            old(self).wf(),
        ensures
            final(self).wf(),
            final(self).sent() == old(self).sent(),
            final(self).sender_available() == old(self).sender_available(),
            !(old(self).status_of() is Running) ==> {
                &&& !progressed
                &&& *final(self) == *old(self)
            },
            old(self).status_of() is Running && old(self).queued().len() == 0
                && old(self).sender_available() ==> {
                &&& !progressed
                &&& *final(self) == *old(self)
            },
            old(self).status_of() is Running && old(self).queued().len() == 0
                && !old(self).sender_available() ==> {
                &&& progressed
                &&& final(self).status_of() is DoneGraceful
                &&& final(self).dispatched() == old(self).dispatched()
                &&& final(self).error_count() == old(self).error_count()
                &&& final(self).spec_handler() == old(self).spec_handler()
            },
            old(self).status_of() is Running && old(self).queued().len() > 0 ==> {
                &&& progressed
                &&& final(self).dispatched() =~= old(self).dispatched().push(
                    old(self).queued()[0],
                )
                &&& final(self).queued() =~= old(self).queued().drop_first()
                &&& (final(self).status_of() is Running || final(self).status_of()
                    is DoneFatal)
                &&& (final(self).status_of() is DoneFatal ==> final(self).error_count() == 1
                    && !final(self).accepting())
                &&& (final(self).status_of() is Running ==> final(self).error_count()
                    == old(self).error_count() && final(self).accepting())
            },
    {
        match self.status {
            Status::DoneGraceful | Status::DoneFatal => false,
            Status::Running => {
                if self.queue.len() == 0 {
                    if self.sender_present {
                        false
                    } else {
                        self.status = Status::DoneGraceful;
                        true
                    }
                } else {
                    let message = self.queue.remove(0);
                    let ghost m = message;
                    proof {
                        self.dispatched@ = self.dispatched@.push(m);
                        assert(self.sent@ =~= self.dispatched@ + self.queue@);
                    }
                    let outcome = self.handler.handle_message(message);
                    self.apply_outcome(outcome);
                    true
                }
            },
        }
    }

    /// Applies one dispatch outcome to the protocol state: the loop keeps
    /// running exactly when the handler succeeded, and nothing else changes
    /// then. A failure closes the consuming end, invokes `on_error` with it
    /// — the one additional report — and terminates the loop.
    pub fn apply_outcome(&mut self, outcome: Result<(), ActorError>) -> (continue_running: bool)
        requires
            old(self).wf(),
            old(self).status_of() is Running,
        ensures
            final(self).wf(),
            continue_running == (outcome is Ok),
            outcome is Ok ==> *final(self) == *old(self),
            outcome is Err ==> {
                &&& final(self).status_of() is DoneFatal
                &&& final(self).error_count() == old(self).error_count() + 1
                &&& !final(self).accepting()
                &&& final(self).sent() == old(self).sent()
                &&& final(self).dispatched() == old(self).dispatched()
                &&& final(self).queued() == old(self).queued()
                &&& final(self).sender_available() == old(self).sender_available()
            },
    {
        match outcome {
            Ok(()) => true,
            Err(e) => {
                self.consumer_open = false;
                self.errors_reported = self.errors_reported + 1;
                self.handler.on_error(e);
                self.status = Status::DoneFatal;
                false
            },
        }
    }

    /// Drives the loop until it terminates, as the actor's loop does once
    /// the producing end is gone and end-of-stream is in sight.
    ///
    /// If no queued message provokes a fatal failure, the loop ends
    /// gracefully having dispatched every accepted message; on a fatal
    /// failure it stops early, still having dispatched an in-order prefix
    /// of the send history. A loop that had already terminated is left
    /// untouched.
    pub fn drain(&mut self)
        requires
            old(self).wf(),
            !old(self).sender_available(),
        ensures
            final(self).wf(),
            !(final(self).status_of() is Running),
            final(self).sent() == old(self).sent(),
            !final(self).sender_available(),
            final(self).status_of() is DoneGraceful ==> final(self).dispatched()
                =~= final(self).sent(),
            final(self).dispatched() =~= final(self).sent().take(
                final(self).dispatched().len() as int,
            ),
            !(old(self).status_of() is Running) ==> *final(self) == *old(self),
            old(self).status_of() is Running && old(self).queued().len() == 0 ==> {
                &&& final(self).status_of() is DoneGraceful
                &&& final(self).dispatched() == old(self).dispatched()
            },
    {
        while self.status == Status::Running
            invariant
                self.wf(),
                !self.sender_available(),
                self.sent() == old(self).sent(),
                !(old(self).status_of() is Running) ==> *self == *old(self),
                old(self).status_of() is Running && old(self).queued().len() == 0 ==> {
                    &&& self.queued().len() == 0
                    &&& self.dispatched() == old(self).dispatched()
                    &&& !(self.status_of() is DoneFatal)
                },
            decreases self.queued().len() * 2 + (if self.status_of() is Running {
                1int
            } else {
                0int
            }),
        {
            self.step();
        }
        proof {
            lemma_fifo_prefix(*self);
            if self.status is DoneGraceful {
                assert(self.dispatched() =~= self.sent());
            }
        }
    }

    /// The handle's graceful shutdown.
    ///
    /// Takes the sender slot — permanently disabling `send` — and waits for
    /// the loop to drain and terminate. Every message accepted before the
    /// call is dispatched, in send order, unless one of them provokes a
    /// fatal failure first. Shutdown is a one-time operation: if the slot
    /// was already taken, the call fails with `NoneSender` and changes
    /// nothing.
    pub fn shutdown(&mut self) -> (r: Result<(), ShutdownError>)
        requires
            old(self).wf(),
        ensures
            final(self).wf(),
            !old(self).sender_available() ==> {
                &&& r is Err
                &&& (r matches Err(e) ==> e is NoneSender)
                &&& *final(self) == *old(self)
            },
            old(self).sender_available() ==> {
                &&& r is Ok
                &&& !final(self).sender_available()
                &&& !(final(self).status_of() is Running)
                &&& final(self).sent() == old(self).sent()
                &&& (final(self).status_of() is DoneGraceful ==> final(self).dispatched()
                    =~= old(self).sent())
                &&& final(self).dispatched() =~= final(self).sent().take(
                    final(self).dispatched().len() as int,
                )
                &&& (old(self).status_of() is Running && old(self).queued().len() == 0
                    ==> final(self).status_of() is DoneGraceful)
            },
    {
        if !self.sender_present {
            return Err(ShutdownError::NoneSender);
        }
        self.sender_present = false;
        self.drain();
        Ok(())
    }
}

/// FIFO delivery: in every reachable protocol state, what the handler has
/// observed is exactly a prefix of the send history — messages are
/// dispatched in send order, none skipped, none reordered.
pub proof fn lemma_fifo_prefix<T, U: Handler<T>>(p: ActorProtocol<T, U>)
    requires
        p.wf(),
    ensures
        p.dispatched() =~= p.sent().take(p.dispatched().len() as int),
{
    assert(p.sent() =~= p.dispatched() + p.queued());
}

/// Exactly-once error reporting: in every reachable protocol state,
/// `on_error` has run exactly once if the loop terminated fatally and never
/// otherwise. (That no message after the failing one reaches the handler is
/// stated by `step`: a terminated loop leaves the state, the handler
/// included, untouched.)
pub proof fn lemma_error_reported_exactly_once<T, U: Handler<T>>(p: ActorProtocol<T, U>)
    requires
        p.wf(),
    ensures
        p.error_count() <= 1,
        p.error_count() == 1 <==> p.status_of() is DoneFatal,
{
}

} // verus!
