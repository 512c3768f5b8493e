//! The client handle: the owner of one live protocol client.

use matrix_sdk::Client;
use vstd::prelude::*;

verus! {

/// `matrix_sdk::Client`, the protocol client. Nothing inside it is visible
/// here: a handle owns one, and each task carries a clone.
#[verifier::external_type_specification]
#[verifier::external_body]
pub struct ExClient(matrix_sdk::Client);

/// `Clone::clone` of `matrix_sdk::Client`.
///
/// Trusted: the client is one `Arc` around its state, so a clone is a second
/// reference to the same session and equals the client it was made from.
pub assume_specification[ <matrix_sdk::Client as Clone>::clone ](
    client: &matrix_sdk::Client,
) -> (shared: matrix_sdk::Client)
    ensures
        shared == *client,
;

/// `Client::rooms`, with each room reduced to the text of its identifier.
///
/// Trusted: nothing is promised of the outcome, which is whatever the client
/// has learned so far. The call reads the client's room table under its lock
/// and does not touch the network; it panics only where a panic elsewhere
/// has poisoned that lock.
#[verifier::external_body]
pub(crate) fn known_room_ids(client: &Client) -> (room_ids: Vec<String>) {
    client.rooms().into_iter().map(|room| room.room_id().to_string()).collect()
}

/// A handle: the caller-owned wrapper around one live protocol client.
pub struct mx_client_t {
    client: Client,
}

impl mx_client_t {
    /// The protocol client that the handle owns.
    pub closed spec fn session(&self) -> Client {
        self.client
    }

    /// Wraps a freshly built client in a handle.
    pub fn new(client: Client) -> (handle: Self)
        ensures
            handle.session() == client,
    {
        mx_client_t { client }
    }

    /// A clone of the owned client, for work that must outlive the handle.
    pub fn share(&self) -> (client: Client)
        ensures
            client == self.session(),
    {
        self.client.clone()
    }
}

/// Releases a handle and the client it owns. The null handle releases nothing.
pub fn mx_client_free(client: Option<Box<mx_client_t>>) -> (released: bool)
    ensures
        released == client is Some,
{
    match client {
        Some(_) => true,
        None => false,
    }
}

} // verus!
