//! Logging in with a password.

use crate::client::mx_client_t;
use crate::dispatch::{
    client_is_null, client_is_null_error, operation_error, operation_failed, Dispatch,
};
use crate::text::wire_bytes;
use crate::wire::{
    c_str_to_string, decoded, error_result, foreign_bytes, make_error_result, make_ok_result,
    make_string, mx_result_t, mx_string_t, null_string, ok_result, BridgeError, BridgeErrorView,
};
use matrix_sdk::Client;
use vstd::prelude::*;
use vstd::string::*;
use vstd::utf8::*;

verus! {

/// An accepted password login: what the scheduler needs to run it.
pub struct LoginTask {
    pub client: Client,
    pub username: String,
    pub password: String,
    pub user_data: usize,
}

/// What the login callback receives.
pub struct LoginFinished {
    pub result: mx_result_t,
    /// The account identifier; null unless the login succeeded.
    pub user_id: mx_string_t,
    pub user_data: usize,
}

impl LoginFinished {
    pub open spec fn wf(&self) -> bool {
        self.result.wf() && self.user_id.wf()
    }

    /// The delivery reports `error`, with a null account identifier.
    pub open spec fn reports(&self, error: BridgeErrorView, user_data: usize) -> bool {
        &&& self.result@ == error_result(error)
        &&& self.user_id@ is None
        &&& self.user_data == user_data
        &&& self.wf()
    }
}

/// The error, if there is one, that rejects a login call before anything is
/// spawned: the handle is checked first, then the user name, then the
/// password.
pub open spec fn login_rejection(
    has_client: bool,
    username: Option<Seq<u8>>,
    password: Option<Seq<u8>>,
) -> Option<BridgeErrorView> {
    if !has_client {
        Some(client_is_null())
    } else if decoded(username, "username"@) is Err {
        Some(decoded(username, "username"@)->Err_0)
    } else if decoded(password, "password"@) is Err {
        Some(decoded(password, "password"@)->Err_0)
    } else {
        None
    }
}

fn login_rejected(error: BridgeError, user_data: usize) -> (delivery: LoginFinished)
    ensures
        delivery.reports(error@, user_data),
{
    LoginFinished { result: make_error_result(error), user_id: null_string(), user_data }
}

/// Decides a password login on `client`.
///
/// Without a callback the call has no effect. A null handle, or a user name
/// or password that is null or not UTF-8, is reported at once. Otherwise the
/// login is accepted as a task on a clone of the handle's client.
pub fn mx_client_login_password<F>(
    client: Option<&mx_client_t>,
    username: Option<&[u8]>,
    password: Option<&[u8]>,
    cb: Option<F>,
    user_data: usize,
) -> (step: Dispatch<F, LoginFinished, LoginTask>)
    ensures
        step.owed() == cb,
        cb is None ==> step is Dropped,
        cb is Some && client is None ==> (step matches Dispatch::Rejected { delivery, .. }
            && delivery.reports(client_is_null(), user_data)),
        cb is Some ==> match login_rejection(
            client is Some,
            foreign_bytes(username),
            foreign_bytes(password),
        ) {
            Some(error) => step matches Dispatch::Rejected { delivery, .. } && delivery.reports(
                error,
                user_data,
            ),
            None => step matches Dispatch::Spawned { task, .. } && task.client
                == client->0.session() && task.username@ == decode_utf8(username->0@)
                && task.password@ == decode_utf8(password->0@) && task.user_data == user_data,
        },
{
    let callback = match cb {
        Some(callback) => callback,
        None => {
            return Dispatch::Dropped;
        },
    };
    let handle = match client {
        Some(handle) => handle,
        None => {
            let delivery = login_rejected(client_is_null_error(), user_data);
            return Dispatch::Rejected { callback, delivery };
        },
    };
    let username = match c_str_to_string(username, "username") {
        Ok(value) => value,
        Err(error) => {
            return Dispatch::Rejected { callback, delivery: login_rejected(error, user_data) };
        },
    };
    let password = match c_str_to_string(password, "password") {
        Ok(value) => value,
        Err(error) => {
            return Dispatch::Rejected { callback, delivery: login_rejected(error, user_data) };
        },
    };
    let task = LoginTask { client: handle.share(), username, password, user_data };
    Dispatch::Spawned { callback, task }
}

impl LoginTask {
    /// Turns the outcome of the login into the delivery: the account
    /// identifier on success, the failure's description otherwise.
    pub fn complete(self, outcome: Result<String, String>) -> (done: LoginFinished)
        ensures
            done.wf(),
            done.user_data == self.user_data,
            match outcome {
                Ok(user_id) => done.result@ == ok_result() && done.user_id@ == Some(
                    wire_bytes(user_id@),
                ),
                Err(detail) => done.reports(
                    operation_failed("login failed: "@ + detail@),
                    self.user_data,
                ),
            },
    {
        match outcome {
            Ok(user_id) => LoginFinished {
                result: make_ok_result(),
                user_id: make_string(user_id),
                user_data: self.user_data,
            },
            Err(detail) => login_rejected(
                operation_error("login failed: ", detail.as_str()),
                self.user_data,
            ),
        }
    }
}

} // verus!
