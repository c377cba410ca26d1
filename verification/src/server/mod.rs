//! RPC server: the decisions its reader, writer and publish/subscribe broker take

use vstd::prelude::*;

pub mod broker;
pub mod pubsub;
pub mod reader;
pub mod writer;

verus! {

/// Id of a client connected to the server
pub type ClientId = u64;

/// Client ID 0 is reserved for publisher and subscriber on the server side.
/// Remote client have their ID starting from `RESERVED_CLIENT_ID + 1`
pub const RESERVED_CLIENT_ID: ClientId = 0;

} // verus!
