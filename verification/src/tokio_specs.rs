use vstd::prelude::*;

verus! {

#[verifier::external_type_specification]
#[verifier::external_body]
#[verifier::reject_recursive_types(T)]
pub struct ExUnboundedSender<T>(tokio::sync::mpsc::UnboundedSender<T>);

#[verifier::external_type_specification]
#[verifier::external_body]
#[verifier::reject_recursive_types(T)]
pub struct ExUnboundedReceiver<T>(tokio::sync::mpsc::UnboundedReceiver<T>);

#[verifier::external_type_specification]
#[verifier::external_body]
#[verifier::reject_recursive_types(T)]
pub struct ExJoinHandle<T>(tokio::task::JoinHandle<T>);

// Declaring JoinHandle obliges Verus to read its Future impl, whose output
// type mentions JoinError, so that type is declared as well.
#[verifier::external_type_specification]
#[verifier::external_body]
pub struct ExJoinError(tokio::task::JoinError);

/// Relies on tokio's UnboundedSender::send: it never blocks, and when the
/// consuming end is gone or closed it fails, handing back exactly the
/// message that was passed in.
#[verifier::external_body]
pub(crate) fn channel_send<T>(
    tx: &tokio::sync::mpsc::UnboundedSender<T>,
    message: T,
) -> (r: Result<(), T>)
    ensures
        r matches Err(m) ==> m == message,
{
    match tx.send(message) {
        Ok(()) => Ok(()),
        Err(tokio::sync::mpsc::error::SendError(m)) => Err(m),
    }
}

/// Relies on tokio's UnboundedReceiver::close: it closes the consuming end
/// without dropping it, so no further message can be sent while buffered
/// ones may still be drained.
#[verifier::external_body]
pub(crate) fn close_receiver<T>(rx: &mut tokio::sync::mpsc::UnboundedReceiver<T>) {
    rx.close();
}

} // verus!
