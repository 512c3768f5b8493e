//! Synchronizing once.

use crate::client::mx_client_t;
use crate::dispatch::{
    client_is_null, client_is_null_error, operation_error, operation_failed, Dispatch,
};
use crate::wire::{
    error_result, make_error_result, make_ok_result, mx_result_t, ok_result, BridgeError,
    BridgeErrorView,
};
use matrix_sdk::Client;
use vstd::prelude::*;

verus! {

/// An accepted synchronization round: what the scheduler needs to run it.
pub struct SyncTask {
    pub client: Client,
    pub user_data: usize,
}

/// What the synchronization callback receives.
pub struct SyncFinished {
    pub result: mx_result_t,
    pub user_data: usize,
}

impl SyncFinished {
    pub open spec fn wf(&self) -> bool {
        self.result.wf()
    }

    /// The delivery reports `error`.
    pub open spec fn reports(&self, error: BridgeErrorView, user_data: usize) -> bool {
        &&& self.result@ == error_result(error)
        &&& self.user_data == user_data
        &&& self.wf()
    }
}

fn sync_rejected(error: BridgeError, user_data: usize) -> (delivery: SyncFinished)
    ensures
        delivery.reports(error@, user_data),
{
    SyncFinished { result: make_error_result(error), user_data }
}

/// Decides one synchronization round on `client`.
///
/// Without a callback the call has no effect. A null handle is reported at
/// once. Otherwise the round is accepted as a task on a clone of the handle's
/// client.
pub fn mx_client_sync_once<F>(client: Option<&mx_client_t>, cb: Option<F>, user_data: usize) -> (step:
    Dispatch<F, SyncFinished, SyncTask>)
    ensures
        step.owed() == cb,
        cb is None ==> step is Dropped,
        cb is Some && client is None ==> (step matches Dispatch::Rejected { delivery, .. }
            && delivery.reports(client_is_null(), user_data)),
        cb is Some && client is Some ==> (step matches Dispatch::Spawned { task, .. } && task.client
            == client->0.session() && task.user_data == user_data),
{
    let callback = match cb {
        Some(callback) => callback,
        None => {
            return Dispatch::Dropped;
        },
    };
    let handle = match client {
        Some(handle) => handle,
        None => {
            let delivery = sync_rejected(client_is_null_error(), user_data);
            return Dispatch::Rejected { callback, delivery };
        },
    };
    Dispatch::Spawned { callback, task: SyncTask { client: handle.share(), user_data } }
}

impl SyncTask {
    /// Turns the outcome of the round into the delivery.
    pub fn complete(self, outcome: Result<(), String>) -> (done: SyncFinished)
        ensures
            done.wf(),
            done.user_data == self.user_data,
            match outcome {
                Ok(_) => done.result@ == ok_result(),
                Err(detail) => done.reports(
                    operation_failed("sync failed: "@ + detail@),
                    self.user_data,
                ),
            },
    {
        match outcome {
            Ok(_) => SyncFinished { result: make_ok_result(), user_data: self.user_data },
            Err(detail) => sync_rejected(
                operation_error("sync failed: ", detail.as_str()),
                self.user_data,
            ),
        }
    }
}

} // verus!
