//! Listing the known rooms.

use crate::client::{known_room_ids, mx_client_t};
use crate::dispatch::{client_is_null, client_is_null_error, Dispatch};
use crate::text::wire_bytes;
use crate::wire::{
    buffers, error_result, lemma_buffers_of_owned, make_error_result, make_ok_result,
    make_room_list, make_string, mx_result_t, mx_room_list_t, mx_string_t, ok_result,
    BridgeError, BridgeErrorView,
};
use matrix_sdk::Client;
use vstd::prelude::*;

verus! {

/// An accepted room enumeration: what the scheduler needs to run it.
pub struct RoomsTask {
    pub client: Client,
    pub user_data: usize,
}

/// What the rooms callback receives.
pub struct RoomsListed {
    pub result: mx_result_t,
    /// The identifiers of the known rooms; the null sentinel on failure.
    pub rooms: mx_room_list_t,
    pub user_data: usize,
}

/// What the list of the rooms `room_ids` holds: the null sentinel when there
/// is no room, else one buffer for each identifier, in order.
pub open spec fn room_list(room_ids: Seq<Seq<char>>) -> Option<Seq<Option<Seq<u8>>>> {
    if room_ids.len() == 0 {
        None
    } else {
        Some(Seq::new(room_ids.len(), |i: int| Some(wire_bytes(room_ids[i]))))
    }
}

/// The texts of `room_ids`, in order.
pub open spec fn texts(room_ids: Seq<String>) -> Seq<Seq<char>> {
    Seq::new(room_ids.len(), |i: int| room_ids[i]@)
}

impl RoomsListed {
    pub open spec fn wf(&self) -> bool {
        self.result.wf() && self.rooms.wf()
    }

    /// The delivery reports `error`, with the empty list.
    pub open spec fn reports(&self, error: BridgeErrorView, user_data: usize) -> bool {
        &&& self.result@ == error_result(error)
        &&& self.rooms@ is None
        &&& self.user_data == user_data
        &&& self.wf()
    }

    /// The delivery is a success that lists `room_ids`, in order.
    pub open spec fn lists(&self, room_ids: Seq<Seq<char>>, user_data: usize) -> bool {
        &&& self.result@ == ok_result()
        &&& self.rooms@ == room_list(room_ids)
        &&& self.rooms.count == room_ids.len()
        &&& self.user_data == user_data
        &&& self.wf()
    }
}

/// Every listed room owns a buffer: releasing the list of `room_ids`
/// releases one string for each room.
pub proof fn lemma_room_list_buffers(room_ids: Seq<Seq<char>>)
    ensures
        room_list(room_ids) matches Some(items) ==> buffers(items) == room_ids.len(),
{
    if room_ids.len() > 0 {
        lemma_buffers_of_owned(room_list(room_ids)->0);
    }
}

fn rooms_rejected(error: BridgeError, user_data: usize) -> (delivery: RoomsListed)
    ensures
        delivery.reports(error@, user_data),
{
    RoomsListed { result: make_error_result(error), rooms: make_room_list(Vec::new()), user_data }
}

/// Decides the enumeration of the rooms known to `client`.
///
/// Without a callback the call has no effect. A null handle is reported at
/// once, with the empty list. Otherwise the enumeration is accepted as a task
/// on a clone of the handle's client.
pub fn mx_client_rooms<F>(client: Option<&mx_client_t>, cb: Option<F>, user_data: usize) -> (step:
    Dispatch<F, RoomsListed, RoomsTask>)
    ensures
        step.owed() == cb,
        cb is None ==> step is Dropped,
        cb is Some && client is None ==> (step matches Dispatch::Rejected { delivery, .. }
            && delivery.reports(client_is_null(), user_data)),
        cb is Some && client is Some ==> (step matches Dispatch::Spawned { task, .. } && task.client
            == client->0.session() && task.user_data == user_data),
{
    let callback = match cb {
        Some(callback) => callback,
        None => {
            return Dispatch::Dropped;
        },
    };
    let handle = match client {
        Some(handle) => handle,
        None => {
            let delivery = rooms_rejected(client_is_null_error(), user_data);
            return Dispatch::Rejected { callback, delivery };
        },
    };
    Dispatch::Spawned { callback, task: RoomsTask { client: handle.share(), user_data } }
}

/// Puts the identifiers `room_ids` on the wire as a successful delivery: one
/// buffer for each identifier, in order.
pub fn rooms_listed(room_ids: Vec<String>, user_data: usize) -> (done: RoomsListed)
    ensures
        done.lists(texts(room_ids@), user_data),
{
    let ghost ids = room_ids@;
    let mut strings: Vec<mx_string_t> = Vec::new();
    for room_id in it: room_ids
        invariant
            it.seq() == ids,
            strings@.len() == it.index(),
            forall|i: int|
                0 <= i < strings@.len() ==> (#[trigger] strings@[i]).wf() && strings@[i]@ == Some(
                    wire_bytes(ids[i]@),
                ),
    {
        strings.push(make_string(room_id));
    }
    let rooms = make_room_list(strings);
    proof {
        if ids.len() > 0 {
            assert(rooms@->0 =~= room_list(texts(ids))->0);
        }
    }
    RoomsListed { result: make_ok_result(), rooms, user_data }
}

impl RoomsTask {
    /// Lists the rooms the client knows about at this moment. The
    /// enumeration reads the client's own table and cannot fail.
    pub fn run(self) -> (done: RoomsListed)
        ensures
            exists|room_ids: Seq<Seq<char>>| done.lists(room_ids, self.user_data),
    {
        let room_ids = known_room_ids(&self.client);
        let done = rooms_listed(room_ids, self.user_data);
        assert(done.lists(texts(room_ids@), self.user_data));
        done
    }
}

} // verus!
