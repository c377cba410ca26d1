//! PubSub support

use std::time::Duration;
use vstd::prelude::*;

use crate::message::MessageId;

verus! {

/// Default number of seconds a publisher waits for an Ack before it retries
pub const DEFAULT_PUB_RETRY_TIMEOUT_SECS: u64 = 10;

/// Default number of times a publisher retries when no Ack comes back
pub const DEFAULT_PUB_RETRIES: u32 = 5;

/// The duration of a whole number of seconds (`Duration::from_secs`); it
/// depends on the number of seconds alone
pub uninterp spec fn duration_of_secs(secs: u64) -> Duration;

/// A duration of a whole number of seconds (`Duration::from_secs`).
#[verifier::external_body]
pub(crate) fn duration_from_secs(secs: u64) -> (d: Duration)
    ensures
        d == duration_of_secs(secs),
{
    Duration::from_secs(secs)
}

/// `Duration` is `Copy`: its `clone` returns the same duration.
pub assume_specification[ <Duration as Clone>::clone ](d: &Duration) -> (r: Duration)
    ensures
        r == *d,
;

/// The duration a publisher waits for an Ack by default
pub fn default_pub_retry_timeout() -> (d: Duration)
    ensures
        d == duration_of_secs(DEFAULT_PUB_RETRY_TIMEOUT_SECS),
{
    duration_from_secs(DEFAULT_PUB_RETRY_TIMEOUT_SECS)
}

/// PubSub Sequence ID that is tracked by the PubSub server
#[derive(Debug, Clone, Copy, PartialEq, Eq, Structural)]
pub struct SeqId(pub MessageId);

impl SeqId {
    /// Creates a new sequence ID
    pub fn new(val: MessageId) -> (s: Self)
        ensures
            s.0 == val,
    {
        Self(val)
    }
}

/// Type state of AckMode. No Ack will be sent back.
#[derive(Clone)]
pub struct AckModeNone {}

/// Type state of AckMode. One Ack message will be sent back automatically upon recving the Publish message
#[derive(Clone)]
pub struct AckModeAuto {}

/// Type state of AckMode. The user need to manually acknowledge delivery of a Publish message
#[derive(Clone)]
pub struct AckModeManual {}

} // verus!
