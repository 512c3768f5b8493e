//! Creating a client.

use crate::client::mx_client_t;
use crate::dispatch::{operation_error, operation_failed, Dispatch};
use crate::wire::{
    c_str_to_string, decoded, error_result, foreign_bytes, make_error_result, make_ok_result,
    mx_result_t, ok_result, BridgeError, BridgeErrorView, MX_ERROR_OPERATION,
};
use matrix_sdk::Client;
use vstd::prelude::*;
use vstd::string::*;

verus! {

/// The number of seconds a client build may take.
pub const CREATE_TIMEOUT_SECS: u64 = 15;

/// An accepted client creation: what the scheduler needs to run it.
pub struct CreateTask {
    pub homeserver_url: String,
    /// The bound on the build, in seconds.
    pub timeout_secs: u64,
    pub user_data: usize,
}

/// How a client build ended.
pub enum CreateOutcome {
    /// The client was built.
    Built(Client),
    /// The build failed, with this description.
    Failed(String),
    /// The build did not end within the bound.
    TimedOut,
}

/// What the creation callback receives.
pub struct ClientCreated {
    /// The new handle; null unless the client was built.
    pub handle: Option<Box<mx_client_t>>,
    pub result: mx_result_t,
    pub user_data: usize,
}

impl ClientCreated {
    pub open spec fn wf(&self) -> bool {
        self.result.wf()
    }

    /// The delivery reports `error`, with a null handle.
    pub open spec fn reports(&self, error: BridgeErrorView, user_data: usize) -> bool {
        &&& self.result@ == error_result(error)
        &&& self.handle is None
        &&& self.user_data == user_data
        &&& self.wf()
    }
}

fn create_rejected(error: BridgeError, user_data: usize) -> (delivery: ClientCreated)
    ensures
        delivery.reports(error@, user_data),
{
    ClientCreated { handle: None, result: make_error_result(error), user_data }
}

/// Decides the creation of a client for the server at `homeserver_url`.
///
/// Without a callback the call has no effect. An address that is null or not
/// UTF-8 is reported at once. Otherwise the build is accepted as a task
/// bounded by `CREATE_TIMEOUT_SECS`.
pub fn mx_client_create<F>(homeserver_url: Option<&[u8]>, cb: Option<F>, user_data: usize) -> (step:
    Dispatch<F, ClientCreated, CreateTask>)
    ensures
        step.owed() == cb,
        cb is None ==> step is Dropped,
        cb is Some ==> match decoded(foreign_bytes(homeserver_url), "homeserver_url"@) {
            Err(error) => step matches Dispatch::Rejected { delivery, .. } && delivery.reports(
                error,
                user_data,
            ),
            Ok(url) => step matches Dispatch::Spawned { task, .. } && task.homeserver_url@ == url
                && task.timeout_secs == 15 && task.user_data == user_data,
        },
{
    let callback = match cb {
        Some(callback) => callback,
        None => {
            return Dispatch::Dropped;
        },
    };
    let homeserver_url = match c_str_to_string(homeserver_url, "homeserver_url") {
        Ok(value) => value,
        Err(error) => {
            return Dispatch::Rejected { callback, delivery: create_rejected(error, user_data) };
        },
    };
    let task = CreateTask { homeserver_url, timeout_secs: CREATE_TIMEOUT_SECS, user_data };
    Dispatch::Spawned { callback, task }
}

impl CreateTask {
    /// Turns the outcome of the build into the delivery: a new handle around
    /// the client, or a null handle with the failure. A failed build and a
    /// build that ran out of time share one code and differ in the message.
    pub fn complete(self, outcome: CreateOutcome) -> (done: ClientCreated)
        ensures
            done.wf(),
            done.user_data == self.user_data,
            match outcome {
                CreateOutcome::Built(client) => done.handle matches Some(handle)
                    && handle.session() == client && done.result@ == ok_result(),
                CreateOutcome::Failed(detail) => done.reports(
                    operation_failed("client create failed: "@ + detail@),
                    self.user_data,
                ),
                CreateOutcome::TimedOut => done.reports(
                    operation_failed("client create timed out"@),
                    self.user_data,
                ),
            },
    {
        match outcome {
            CreateOutcome::Built(client) => ClientCreated {
                handle: Some(Box::new(mx_client_t::new(client))),
                result: make_ok_result(),
                user_data: self.user_data,
            },
            CreateOutcome::Failed(detail) => create_rejected(
                operation_error("client create failed: ", detail.as_str()),
                self.user_data,
            ),
            CreateOutcome::TimedOut => {
                let error = BridgeError {
                    code: MX_ERROR_OPERATION,
                    message: String::from_str("client create timed out"),
                };
                create_rejected(error, self.user_data)
            },
        }
    }
}

} // verus!
