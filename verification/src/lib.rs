//! The safe core of a C bridge to a chat-protocol client.
//!
//! Foreign callers drive four operations (create a client, log in,
//! synchronize once, list rooms) through callbacks. This crate holds what
//! the bridge decides and what it hands back: the wire values and their
//! allocate and release pairs, the decoding of foreign text, the handle
//! around the protocol client, and for each operation the decision taken on
//! the caller's thread and the delivery made when the work has ended.
//!
//! Pointers, the calling convention and the scheduler belong to the shell
//! around this crate. The shell hands in plain values (a null pointer is
//! `None`, a text pointer is the bytes before its terminator, the context
//! pointer is its address) and performs what a [`dispatch::Dispatch`] says.

#![allow(non_camel_case_types)]

pub mod client;
pub mod dispatch;
pub mod text;
pub mod wire;

pub use client::{mx_client_free, mx_client_t};
pub use dispatch::{mx_client_create, mx_client_login_password, mx_client_rooms, mx_client_sync_once};
pub use wire::{
    mx_error_t, mx_result_free, mx_result_t, mx_room_list_free, mx_room_list_t, mx_string_free,
    mx_string_t,
};
