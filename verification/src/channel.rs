//! Trusted bindings for the std rendezvous channel that hands snapshots from
//! a worker thread to the async bridge. The channel's behavior depends on the
//! other thread's timing, so none of these promise anything of their outcome;
//! the verified callers state what holds whatever came back.
use vstd::prelude::*;
use std::sync::mpsc::Receiver;
use std::sync::mpsc::SyncSender;

verus! {

#[verifier::external_type_specification]
#[verifier::external_body]
#[verifier::reject_recursive_types(T)]
pub struct ExReceiver<T>(Receiver<T>);

#[verifier::external_type_specification]
#[verifier::external_body]
#[verifier::reject_recursive_types(T)]
pub struct ExSyncSender<T>(SyncSender<T>);

/// Relies on std::sync::mpsc::sync_channel with capacity zero: a rendezvous
/// channel whose send blocks until a matching receive, so at most one value
/// is ever in flight between the two halves.
#[verifier::external_body]
pub(crate) fn rendezvous_channel<T>() -> (SyncSender<T>, Receiver<T>) {
    std::sync::mpsc::sync_channel(0)
}

/// Relies on Receiver::try_recv: returns without blocking, with the oldest
/// waiting value if the worker has one ready and nothing otherwise.
#[verifier::external_body]
pub(crate) fn poll_receiver<T>(rx: &Receiver<T>) -> Option<T> {
    rx.try_recv().ok()
}

/// Relies on SyncSender::send: blocks until the receiver takes the value, and
/// returns an error exactly when the receiving half is gone — the defined
/// shutdown signal for an abandoned worker, treated as ordinary termination.
#[verifier::external_body]
pub(crate) fn send_value<T>(tx: &SyncSender<T>, value: T) -> bool {
    tx.send(value).is_ok()
}

} // verus!
