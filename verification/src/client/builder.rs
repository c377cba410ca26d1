//! Client builder

use std::marker::PhantomData;
use std::time::Duration;
use vstd::prelude::*;

use crate::pubsub::{
    default_pub_retry_timeout, duration_of_secs, AckModeAuto, AckModeManual, AckModeNone,
    DEFAULT_PUB_RETRIES, DEFAULT_PUB_RETRY_TIMEOUT_SECS,
};

verus! {

/// Client builder
pub struct ClientBuilder<AckMode> {
    /// Marker for AckMode
    pub ack_mode: PhantomData<AckMode>,
    /// The duration a publisher waits for the Ack
    /// Waiting is non-blocking, and thus the publisher can still
    /// send out new Publish messages while waiting for the Ack of previous
    /// Publish message
    pub pub_retry_timeout: Duration,
    /// The number of retries that a publisher will attempt if Ack is not received.
    /// This only affects when Ack is enabled (ie. AckModeAuto, AckModeManual)
    pub max_num_retries: u32,
}

impl Default for ClientBuilder<AckModeNone> {
    fn default() -> (b: Self)
        ensures
            b.pub_retry_timeout == duration_of_secs(DEFAULT_PUB_RETRY_TIMEOUT_SECS),
            b.max_num_retries == DEFAULT_PUB_RETRIES,
    {
        Self {
            ack_mode: PhantomData,
            pub_retry_timeout: default_pub_retry_timeout(),
            max_num_retries: DEFAULT_PUB_RETRIES,
        }
    }
}

impl<AckMode> ClientBuilder<AckMode> {
    /// Creates a new ClientBuilder
    pub fn new() -> (b: ClientBuilder<AckMode>)
        ensures
            b.pub_retry_timeout == duration_of_secs(DEFAULT_PUB_RETRY_TIMEOUT_SECS),
            b.max_num_retries == DEFAULT_PUB_RETRIES,
    {
        ClientBuilder::<AckMode> {
            ack_mode: PhantomData,
            pub_retry_timeout: default_pub_retry_timeout(),
            max_num_retries: DEFAULT_PUB_RETRIES,
        }
    }

    /// Set the AckMode to None
    pub fn set_ack_mode_none(self) -> (b: ClientBuilder<AckModeNone>)
        ensures
            b.pub_retry_timeout == self.pub_retry_timeout,
            b.max_num_retries == self.max_num_retries,
    {
        ClientBuilder::<AckModeNone> {
            ack_mode: PhantomData,
            pub_retry_timeout: self.pub_retry_timeout,
            max_num_retries: self.max_num_retries,
        }
    }

    /// Set the AckMode to Auto
    pub fn set_ack_mode_auto(self) -> (b: ClientBuilder<AckModeAuto>)
        ensures
            b.pub_retry_timeout == self.pub_retry_timeout,
            b.max_num_retries == self.max_num_retries,
    {
        ClientBuilder::<AckModeAuto> {
            ack_mode: PhantomData,
            pub_retry_timeout: self.pub_retry_timeout,
            max_num_retries: self.max_num_retries,
        }
    }

    /// Set the AckMode to Manual
    pub fn set_ack_mode_manual(self) -> (b: ClientBuilder<AckModeManual>)
        ensures
            b.pub_retry_timeout == self.pub_retry_timeout,
            b.max_num_retries == self.max_num_retries,
    {
        ClientBuilder::<AckModeManual> {
            ack_mode: PhantomData,
            pub_retry_timeout: self.pub_retry_timeout,
            max_num_retries: self.max_num_retries,
        }
    }
}

impl ClientBuilder<AckModeAuto> {
    /// Sets the duration that a publisher waits for the Ack from the server. If an Ack is not
    /// received before the duration expires, the publisher will try to re-send the Publish message.
    ///
    /// This does not affect the timeout from the Server to all the `Subscriber`s.
    pub fn set_publisher_retry_timeout(self, duration: Duration) -> (b: Self)
        ensures
            b.pub_retry_timeout == duration,
            b.max_num_retries == self.max_num_retries,
    {
        Self { pub_retry_timeout: duration, ..self }
    }

    /// Set the number of retries for the publisher
    ///
    /// This does not affect the max number of retries from the Server to all the
    /// `Subscriber`s.
    pub fn set_publisher_max_num_retries(self, val: u32) -> (b: Self)
        ensures
            b.pub_retry_timeout == self.pub_retry_timeout,
            b.max_num_retries == val,
    {
        Self { max_num_retries: val, ..self }
    }
}

impl ClientBuilder<AckModeManual> {
    /// Sets the duration that a publisher waits for the Ack from the server. If an Ack is not
    /// received before the duration expires, the publisher will try to re-send the Publish message.
    pub fn set_publisher_retry_timeout(self, duration: Duration) -> (b: Self)
        ensures
            b.pub_retry_timeout == duration,
            b.max_num_retries == self.max_num_retries,
    {
        Self { pub_retry_timeout: duration, ..self }
    }

    /// Set the number of retries
    pub fn set_max_num_retries(self, val: u32) -> (b: Self)
        ensures
            b.pub_retry_timeout == self.pub_retry_timeout,
            b.max_num_retries == val,
    {
        Self { max_num_retries: val, ..self }
    }
}

} // verus!
