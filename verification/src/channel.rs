//! The bounded writer channel that decouples log callers from the
//! transport worker.
//!
//! Callers hand finished payloads to a `SyncSender`; a single dedicated
//! worker owns the socket or stream exclusively and drains the channel. The
//! channel's fixed capacity is a deliberate backpressure mechanism: when it
//! is full, a submitting caller blocks until space frees, and no message is
//! dropped on that account.

use vstd::prelude::*;
use std::sync::mpsc::SyncSender;

verus! {

/// The sending half of std's bounded channel, opaque to the verifier.
#[verifier::external_type_specification]
#[verifier::external_body]
#[verifier::reject_recursive_types(T)]
pub struct ExSyncSender<T>(SyncSender<T>);

/// Relies on `std::sync::mpsc::SyncSender::send`: it blocks until buffer
/// space becomes available and fails exactly when the receiving half has
/// disconnected, in which case it hands the undelivered message back.
#[verifier::external_body]
pub(crate) fn channel_send(writer: &SyncSender<Vec<u8>>, payload: Vec<u8>) -> (r: Result<
    (),
    Vec<u8>,
>)
    ensures
        r matches Err(v) ==> v@ == payload@,
{
    match writer.send(payload) {
        Ok(()) => Ok(()),
        Err(std::sync::mpsc::SendError(v)) => Err(v),
    }
}

} // verus!
