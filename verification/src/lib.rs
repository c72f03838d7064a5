//! A safe access layer over a message-bus IPC session: validated addressable
//! names, a reference-counting discipline for shared native handles, a message
//! lifecycle state machine (mutable until sealed by transmission), a typed
//! marshaling protocol over a cursor, and a dual error channel.
//!
//! The native bus runtime itself (transport, authentication, multiplexing) is
//! an external collaborator: this crate holds the logic that decides what may
//! cross that boundary and in which state, and models the data that does.

pub mod bus;
mod bytes;
pub mod error;
pub mod journal;
pub mod message;
pub mod names;
pub mod refcount;
pub mod types;
