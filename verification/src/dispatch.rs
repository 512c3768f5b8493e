//! The operation dispatchers.
//!
//! A call is decided on the caller's thread, before anything is spawned: it
//! is dropped, rejected, or spawned as a task. The scheduler runs a spawned
//! task to its outcome, and the task turns the outcome into the one delivery
//! that its callback is owed. A callback is thus invoked exactly once, and
//! never where none was supplied.

pub mod create;
pub mod login;
pub mod rooms;
pub mod sync;

pub use create::{mx_client_create, ClientCreated, CreateOutcome, CreateTask, CREATE_TIMEOUT_SECS};
pub use login::{login_rejection, mx_client_login_password, LoginFinished, LoginTask};
pub use rooms::{
    lemma_room_list_buffers, mx_client_rooms, room_list, rooms_listed, texts, RoomsListed,
    RoomsTask,
};
pub use sync::{mx_client_sync_once, SyncFinished, SyncTask};

use crate::wire::{BridgeError, BridgeErrorView, MX_ERROR_NULL_ARGUMENT, MX_ERROR_OPERATION};
use vstd::prelude::*;
use vstd::string::*;

verus! {

/// What becomes of one call.
pub enum Dispatch<F, D, T> {
    /// No callback was supplied: nothing is invoked and nothing is spawned.
    Dropped,
    /// The call was rejected on the caller's thread: `callback` is invoked
    /// once, now, with `delivery`.
    Rejected { callback: F, delivery: D },
    /// The call was accepted: `task` runs on the scheduler, and `callback` is
    /// invoked once with what the task delivers.
    Spawned { callback: F, task: T },
}

impl<F, D, T> Dispatch<F, D, T> {
    /// The callback that is owed exactly one invocation, if any is.
    pub open spec fn owed(&self) -> Option<F> {
        match *self {
            Dispatch::Dropped => None,
            Dispatch::Rejected { callback, .. } => Some(callback),
            Dispatch::Spawned { callback, .. } => Some(callback),
        }
    }
}

/// The error for a call on the null handle.
pub open spec fn client_is_null() -> BridgeErrorView {
    BridgeErrorView { code: 2, message: "client is null"@ }
}

/// The error for an operation that failed with the description `message`.
pub open spec fn operation_failed(message: Seq<char>) -> BridgeErrorView {
    BridgeErrorView { code: 1, message }
}

pub(crate) fn client_is_null_error() -> (error: BridgeError)
    ensures
        error@ == client_is_null(),
{
    BridgeError { code: MX_ERROR_NULL_ARGUMENT, message: String::from_str("client is null") }
}

pub(crate) fn operation_error(prefix: &str, detail: &str) -> (error: BridgeError)
    ensures
        error@ == operation_failed(prefix@ + detail@),
{
    let mut message = String::from_str(prefix);
    message.append(detail);
    BridgeError { code: MX_ERROR_OPERATION, message }
}

} // verus!
