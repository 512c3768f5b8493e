use matrix_bridge::client::{mx_client_free, mx_client_t};
use matrix_bridge::dispatch::{
    mx_client_create, mx_client_login_password, mx_client_rooms, mx_client_sync_once,
    ClientCreated, CreateOutcome, CreateTask, Dispatch, LoginFinished, LoginTask, RoomsListed,
    RoomsTask, SyncFinished, SyncTask, CREATE_TIMEOUT_SECS,
};
use matrix_sdk::Client;

type Callback = u32;

fn offline_client() -> Client {
    let runtime = tokio::runtime::Runtime::new().expect("a runtime for the test");
    runtime
        .block_on(Client::builder().homeserver_url("http://127.0.0.1:9").build())
        .expect("a client for a fixed address builds without the network")
}

fn handle() -> mx_client_t {
    mx_client_t::new(offline_client())
}

fn message_of(result: &matrix_bridge::mx_result_t) -> String {
    let bytes = result.error.message.data.clone().expect("an error carries a message");
    String::from_utf8(bytes).expect("messages are text")
}

fn delivered<D, T>(step: Dispatch<Callback, D, T>) -> (Callback, D) {
    match step {
        Dispatch::Rejected { callback, delivery } => (callback, delivery),
        Dispatch::Dropped => panic!("the call was dropped"),
        Dispatch::Spawned { .. } => panic!("the call was spawned"),
    }
}

fn spawned<D, T>(step: Dispatch<Callback, D, T>) -> (Callback, T) {
    match step {
        Dispatch::Spawned { callback, task } => (callback, task),
        Dispatch::Dropped => panic!("the call was dropped"),
        Dispatch::Rejected { .. } => panic!("the call was rejected"),
    }
}

#[test]
fn create_without_callback_does_nothing() {
    let step = mx_client_create::<Callback>(Some(b"https://example.org"), None, 1);
    assert!(matches!(step, Dispatch::Dropped));
    let step = mx_client_create::<Callback>(None, None, 1);
    assert!(matches!(step, Dispatch::Dropped));
}

#[test]
fn login_without_callback_does_nothing() {
    let h = handle();
    let step = mx_client_login_password::<Callback>(Some(&h), Some(b"alice"), Some(b"pw"), None, 1);
    assert!(matches!(step, Dispatch::Dropped));
    let step = mx_client_login_password::<Callback>(None, None, None, None, 1);
    assert!(matches!(step, Dispatch::Dropped));
}

#[test]
fn sync_without_callback_does_nothing() {
    let h = handle();
    assert!(matches!(mx_client_sync_once::<Callback>(Some(&h), None, 1), Dispatch::Dropped));
    assert!(matches!(mx_client_sync_once::<Callback>(None, None, 1), Dispatch::Dropped));
}

#[test]
fn rooms_without_callback_does_nothing() {
    let h = handle();
    assert!(matches!(mx_client_rooms::<Callback>(Some(&h), None, 1), Dispatch::Dropped));
    assert!(matches!(mx_client_rooms::<Callback>(None, None, 1), Dispatch::Dropped));
}

#[test]
fn login_on_null_handle_reports_code_two() {
    let step = mx_client_login_password(None, Some(b"alice"), Some(b"pw"), Some(11), 0xabc);
    let (callback, LoginFinished { result, user_id, user_data }) = delivered(step);
    assert_eq!(callback, 11);
    assert_eq!(user_data, 0xabc);
    assert_eq!(result.ok, 0);
    assert_eq!(result.error.code, 2);
    assert_eq!(message_of(&result), "client is null");
    assert!(user_id.data.is_none());
    assert_eq!(user_id.len, 0);
}

#[test]
fn sync_on_null_handle_reports_code_two() {
    let step = mx_client_sync_once(None, Some(12), 5);
    let (callback, SyncFinished { result, user_data }) = delivered(step);
    assert_eq!(callback, 12);
    assert_eq!(user_data, 5);
    assert_eq!(result.ok, 0);
    assert_eq!(result.error.code, 2);
    assert_eq!(message_of(&result), "client is null");
}

#[test]
fn rooms_on_null_handle_reports_code_two_with_empty_list() {
    let step = mx_client_rooms(None, Some(13), 6);
    let (callback, RoomsListed { result, rooms, user_data }) = delivered(step);
    assert_eq!(callback, 13);
    assert_eq!(user_data, 6);
    assert_eq!(result.ok, 0);
    assert_eq!(result.error.code, 2);
    assert_eq!(message_of(&result), "client is null");
    assert!(rooms.room_ids.is_none());
    assert_eq!(rooms.count, 0);
}

#[test]
fn login_checks_the_handle_before_the_texts() {
    let step = mx_client_login_password(None, None, None, Some(1), 0);
    let (_, delivery) = delivered(step);
    assert_eq!(message_of(&delivery.result), "client is null");
}

#[test]
fn login_with_null_username_is_rejected_at_once() {
    let h = handle();
    let step = mx_client_login_password(Some(&h), None, Some(b"pw"), Some(21), 0x77);
    let (callback, LoginFinished { result, user_id, user_data }) = delivered(step);
    assert_eq!(callback, 21);
    assert_eq!(user_data, 0x77);
    assert_eq!(result.ok, 0);
    assert_eq!(result.error.code, 2);
    assert_eq!(message_of(&result), "username is null");
    assert!(user_id.data.is_none());
    assert_eq!(user_id.len, 0);
}

#[test]
fn login_with_null_password_is_rejected_at_once() {
    let h = handle();
    let step = mx_client_login_password(Some(&h), Some(b"alice"), None, Some(22), 0);
    let (_, delivery) = delivered(step);
    assert_eq!(delivery.result.error.code, 2);
    assert_eq!(message_of(&delivery.result), "password is null");
    assert!(delivery.user_id.data.is_none());
}

#[test]
fn login_checks_the_username_before_the_password() {
    let h = handle();
    let bad = [0xffu8];
    let step = mx_client_login_password(Some(&h), Some(&bad[..]), None, Some(1), 0);
    let (_, delivery) = delivered(step);
    assert_eq!(delivery.result.error.code, 3);
    assert_eq!(
        message_of(&delivery.result),
        "username is not valid utf-8: invalid utf-8 sequence of 1 bytes from index 0"
    );
}

#[test]
fn login_with_malformed_password_is_an_encoding_error() {
    let h = handle();
    let bad = [0x70, 0x77, 0xc3];
    let step = mx_client_login_password(Some(&h), Some(b"alice"), Some(&bad[..]), Some(1), 0);
    let (_, delivery) = delivered(step);
    assert_eq!(delivery.result.ok, 0);
    assert_eq!(delivery.result.error.code, 3);
    assert_eq!(
        message_of(&delivery.result),
        "password is not valid utf-8: incomplete utf-8 byte sequence from index 2"
    );
    assert!(delivery.user_id.data.is_none());
}

#[test]
fn login_with_valid_arguments_is_spawned() {
    let h = handle();
    let step = mx_client_login_password(
        Some(&h),
        Some("alice".as_bytes()),
        Some("s\u{e9}cret".as_bytes()),
        Some(23),
        0x1234,
    );
    let (callback, LoginTask { client: _, username, password, user_data }) = spawned(step);
    assert_eq!(callback, 23);
    assert_eq!(username, "alice");
    assert_eq!(password, "s\u{e9}cret");
    assert_eq!(user_data, 0x1234);
}

#[test]
fn login_task_outlives_the_handle() {
    let h = Box::new(handle());
    let step = mx_client_login_password(Some(&*h), Some(b"alice"), Some(b"pw"), Some(1), 2);
    let (_, task) = spawned(step);
    assert!(mx_client_free(Some(h)));
    assert_eq!(task.client.homeserver().as_str(), "http://127.0.0.1:9/");
    let done = task.complete(Ok("@alice:example.org".to_string()));
    assert_eq!(done.result.ok, 1);
}

#[test]
fn login_success_delivers_the_account_identifier() {
    let task = LoginTask {
        client: offline_client(),
        username: "alice".to_string(),
        password: "pw".to_string(),
        user_data: 99,
    };
    let done = task.complete(Ok("@alice:example.org".to_string()));
    assert_eq!(done.user_data, 99);
    assert_eq!(done.result.ok, 1);
    assert_eq!(done.result.error.code, 0);
    assert!(done.result.error.message.data.is_none());
    assert_eq!(done.user_id.data, Some(b"@alice:example.org".to_vec()));
    assert_eq!(done.user_id.len, 18);
}

#[test]
fn login_failure_delivers_code_one_and_a_null_identifier() {
    let task = LoginTask {
        client: offline_client(),
        username: "alice".to_string(),
        password: "pw".to_string(),
        user_data: 99,
    };
    let done = task.complete(Err("Invalid username or password".to_string()));
    assert_eq!(done.user_data, 99);
    assert_eq!(done.result.ok, 0);
    assert_eq!(done.result.error.code, 1);
    assert_eq!(message_of(&done.result), "login failed: Invalid username or password");
    assert!(done.user_id.data.is_none());
    assert_eq!(done.user_id.len, 0);
}

#[test]
fn create_with_null_address_is_rejected_at_once() {
    let step = mx_client_create(None, Some(31), 8);
    let (callback, ClientCreated { handle, result, user_data }) = delivered(step);
    assert_eq!(callback, 31);
    assert_eq!(user_data, 8);
    assert!(handle.is_none());
    assert_eq!(result.ok, 0);
    assert_eq!(result.error.code, 2);
    assert_eq!(message_of(&result), "homeserver_url is null");
}

#[test]
fn create_with_malformed_address_is_an_encoding_error() {
    let bad = [0x68, 0x80];
    let step = mx_client_create(Some(&bad[..]), Some(32), 8);
    let (_, delivery) = delivered(step);
    assert!(delivery.handle.is_none());
    assert_eq!(delivery.result.error.code, 3);
    assert_eq!(
        message_of(&delivery.result),
        "homeserver_url is not valid utf-8: invalid utf-8 sequence of 1 bytes from index 1"
    );
}

#[test]
fn create_with_valid_address_is_spawned_with_the_bound() {
    let step = mx_client_create(Some(b"https://matrix.example.org"), Some(33), 0xdead);
    let (callback, CreateTask { homeserver_url, timeout_secs, user_data }) = spawned(step);
    assert_eq!(callback, 33);
    assert_eq!(homeserver_url, "https://matrix.example.org");
    assert_eq!(timeout_secs, 15);
    assert_eq!(CREATE_TIMEOUT_SECS, 15);
    assert_eq!(user_data, 0xdead);
}

fn create_task() -> CreateTask {
    CreateTask { homeserver_url: "http://127.0.0.1:9".to_string(), timeout_secs: 15, user_data: 42 }
}

#[test]
fn create_timeout_delivers_code_one_and_a_null_handle() {
    let done = create_task().complete(CreateOutcome::TimedOut);
    assert_eq!(done.user_data, 42);
    assert!(done.handle.is_none());
    assert_eq!(done.result.ok, 0);
    assert_eq!(done.result.error.code, 1);
    assert_eq!(message_of(&done.result), "client create timed out");
}

#[test]
fn create_failure_delivers_code_one_and_a_null_handle() {
    let done = create_task().complete(CreateOutcome::Failed("connection refused".to_string()));
    assert_eq!(done.user_data, 42);
    assert!(done.handle.is_none());
    assert_eq!(done.result.ok, 0);
    assert_eq!(done.result.error.code, 1);
    assert_eq!(message_of(&done.result), "client create failed: connection refused");
}

#[test]
fn create_success_delivers_a_handle() {
    let done = create_task().complete(CreateOutcome::Built(offline_client()));
    assert_eq!(done.user_data, 42);
    assert_eq!(done.result.ok, 1);
    assert_eq!(done.result.error.code, 0);
    assert!(done.result.error.message.data.is_none());
    let handle = done.handle.expect("a built client comes in a handle");
    assert_eq!(handle.share().homeserver().as_str(), "http://127.0.0.1:9/");
    assert!(mx_client_free(Some(handle)));
}

#[test]
fn client_free_of_the_null_handle_is_a_no_op() {
    assert!(!mx_client_free(None));
}

#[test]
fn sync_with_a_handle_is_spawned() {
    let h = handle();
    let step = mx_client_sync_once(Some(&h), Some(41), 0x55);
    let (callback, SyncTask { client: _, user_data }) = spawned(step);
    assert_eq!(callback, 41);
    assert_eq!(user_data, 0x55);
}

#[test]
fn sync_success_delivers_ok() {
    let done = SyncTask { client: offline_client(), user_data: 3 }.complete(Ok(()));
    assert_eq!(done.user_data, 3);
    assert_eq!(done.result.ok, 1);
    assert_eq!(done.result.error.code, 0);
    assert!(done.result.error.message.data.is_none());
}

#[test]
fn sync_failure_delivers_code_one() {
    let done = SyncTask { client: offline_client(), user_data: 3 }
        .complete(Err("the server is unreachable".to_string()));
    assert_eq!(done.user_data, 3);
    assert_eq!(done.result.ok, 0);
    assert_eq!(done.result.error.code, 1);
    assert_eq!(message_of(&done.result), "sync failed: the server is unreachable");
}

#[test]
fn rooms_with_a_handle_is_spawned() {
    let h = handle();
    let step = mx_client_rooms(Some(&h), Some(51), 0x66);
    let (callback, RoomsTask { client: _, user_data }) = spawned(step);
    assert_eq!(callback, 51);
    assert_eq!(user_data, 0x66);
}

#[test]
fn rooms_of_a_fresh_client_is_the_empty_list() {
    let done = RoomsTask { client: offline_client(), user_data: 4 }.run();
    assert_eq!(done.user_data, 4);
    assert_eq!(done.result.ok, 1);
    assert_eq!(done.result.error.code, 0);
    assert!(done.rooms.room_ids.is_none());
    assert_eq!(done.rooms.count, 0);
}

#[test]
fn failure_detail_with_terminator_is_substituted() {
    let done = SyncTask { client: offline_client(), user_data: 3 }.complete(Err("a\0b".to_string()));
    assert_eq!(done.result.error.code, 1);
    assert_eq!(message_of(&done.result), "ffi string contains interior null");
}
