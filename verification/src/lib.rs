//! Cells that let a value tied to one thread, or lacking synchronization of its
//! own, be carried across or shared between threads.
//!
//! A [`SendCell`] remembers the thread that made it and admits an access only
//! from that thread; a [`SyncCell`] runs every access behind a lock. Each has
//! an unchecked counterpart that applies no policy at all.

#![allow(unused_variables)]

pub mod send_cell;
pub mod sync_cell;
pub mod sys;
pub mod unsafe_send_cell;
pub mod unsafe_sync_cell;

pub use send_cell::{AffinityViolation, Operation, SendCell, SendFuture};
pub use sync_cell::{LockError, SyncCell};
pub use sys::ThreadId;
pub use unsafe_send_cell::{UnsafeSendCell, UnsafeSendFuture};
pub use unsafe_sync_cell::UnsafeSyncCell;
