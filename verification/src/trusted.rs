//! What this library takes on trust from the crates it is built on.
//!
//! Nothing in this file is proved. Each item states, of one function or type
//! of `tokio`, `tokio_util`, `uuid` or `std`, what the rest of the library
//! relies on.
use crate::chat::SessionId;
use std::sync::Arc;
use tokio::sync::mpsc::UnboundedSender;
use tokio_util::task::AbortOnDropHandle;
use uuid::Uuid;
use vstd::prelude::*;

verus! {

/// `tokio::sync::mpsc::UnboundedSender`, the sending half of an unbounded
/// queue. Nothing is known of what it holds.
#[verifier::external_type_specification]
#[verifier::external_body]
#[verifier::reject_recursive_types(T)]
pub struct ExUnboundedSender<T>(UnboundedSender<T>);

/// `tokio::task::JoinError`, what awaiting an aborted task yields. It occurs
/// in the declaration of the handle below and nowhere in this library.
#[verifier::external_type_specification]
#[verifier::external_body]
pub struct ExJoinError(tokio::task::JoinError);

/// `tokio_util::task::AbortOnDropHandle`, which aborts the task it stands for
/// when it is dropped. It is only ever stored.
#[verifier::external_type_specification]
#[verifier::external_body]
#[verifier::reject_recursive_types(T)]
pub struct ExAbortOnDropHandle<T>(AbortOnDropHandle<T>);

/// Calls `UnboundedSender::send`, which never blocks. Whether the message is
/// taken depends on whether the receiving half is still open, which nothing
/// here can know; what is claimed is only that a refused message is the one
/// that was offered, handed back. (The call ends the process if the count of
/// queued messages overflows `usize`; memory runs out long before.)
#[verifier::external_body]
pub(crate) fn enqueue<T>(queue: &UnboundedSender<T>, message: T) -> (res: Result<(), T>)
    ensures
        res matches Err(refused) ==> refused == message,
{
    match queue.send(message) {
        Ok(()) => Ok(()),
        Err(error) => Err(error.0),
    }
}

/// Calls `Arc::clone`: the result points to the same value as `handle`.
#[verifier::external_body]
pub(crate) fn share<T>(handle: &Arc<T>) -> (res: Arc<T>)
    ensures
        res == *handle,
{
    Arc::clone(handle)
}

/// The bits of a session id that tell a UUID's version and variant.
pub const VERSION_AND_VARIANT: u128 = 0x0000_0000_0000_f000_c000_0000_0000_0000;

/// What those bits hold in a random (version 4) UUID.
pub const RANDOM_UUID: u128 = 0x0000_0000_0000_4000_8000_0000_0000_0000;

/// Whether `id` is the number of a random (version 4) UUID.
pub open spec fn is_random_uuid(id: SessionId) -> bool {
    id & VERSION_AND_VARIANT == RANDOM_UUID
}

/// Calls `Uuid::new_v4` and takes the result as a number with
/// `Uuid::as_u128`. The value is drawn from the operating system's random
/// source, so only its version and variant bits are known. The call panics
/// should that source fail.
#[verifier::external_body]
pub(crate) fn fresh_session_id() -> (id: SessionId)
    ensures
        is_random_uuid(id),
{
    Uuid::new_v4().as_u128()
}

} // verus!
