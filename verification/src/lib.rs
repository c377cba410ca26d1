//! An RPC library in the style of golang's `net/rpc`: a framed binary transport,
//! a message protocol between clients and servers, publish/subscribe bookkeeping
//! and the decisions that the client and the server brokers take on each event.
//!
//! The I/O itself (sockets, WebSockets, timers, tasks) is left to the caller;
//! this crate states and proves what is written to and read from the wire and
//! how the brokers' state changes.

pub mod client;
pub mod client_new;
pub mod codec;
pub mod error;
pub mod message;
pub mod numeral;
pub mod protocol;
pub mod pubsub;
pub mod server;
pub mod service;
pub mod transport;
pub mod util;

pub use error::Error;

use vstd::prelude::*;

verus! {

/// The path that clients and servers of earlier versions appended to the
/// HTTP endpoint. It no longer takes effect: a client that talks to such a
/// server appends it to the path it dials itself.
pub const DEFAULT_RPC_PATH: &'static str = "_rpc_";

} // verus!
