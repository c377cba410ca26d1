//! RPC client: its builder and the decisions its broker, reader and writer take

pub mod broker;
pub mod builder;
pub mod writer;
pub mod reader;
pub mod call;
pub mod pubsub;
pub mod timeout;
