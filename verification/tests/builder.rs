use std::time::Duration;

use toy_rpc::client::builder::ClientBuilder;
use toy_rpc::client::timeout::{Timeouts, DEFAULT_TIMEOUT_SECONDS};
use toy_rpc::pubsub::{AckModeNone, SeqId, DEFAULT_PUB_RETRIES};

#[test]
fn client_builder_defaults() {
    let b: ClientBuilder<AckModeNone> = ClientBuilder::new();
    assert_eq!(b.pub_retry_timeout, Duration::from_secs(10));
    assert_eq!(b.max_num_retries, DEFAULT_PUB_RETRIES);
    let d = ClientBuilder::<AckModeNone>::default();
    assert_eq!(d.pub_retry_timeout, Duration::from_secs(10));
}

#[test]
fn client_builder_settings() {
    let b = ClientBuilder::<AckModeNone>::new()
        .set_ack_mode_auto()
        .set_publisher_retry_timeout(Duration::from_millis(250))
        .set_publisher_max_num_retries(2);
    assert_eq!(b.pub_retry_timeout, Duration::from_millis(250));
    assert_eq!(b.max_num_retries, 2);
    let m = b.set_ack_mode_manual().set_max_num_retries(9).set_publisher_retry_timeout(Duration::from_secs(1));
    assert_eq!(m.max_num_retries, 9);
    assert_eq!(m.pub_retry_timeout, Duration::from_secs(1));
    let n = m.set_ack_mode_none();
    assert_eq!(n.max_num_retries, 9);
    assert_eq!(SeqId::new(4).0, 4);
}

#[test]
fn next_timeout_applies_once() {
    let mut t = Timeouts::default();
    assert_eq!(t.take_timeout(), Duration::from_secs(DEFAULT_TIMEOUT_SECONDS));
    t.set_next_timeout(Duration::from_secs(2));
    t.set_default_timeout(Duration::from_secs(5));
    assert_eq!(t.take_timeout(), Duration::from_secs(2));
    assert_eq!(t.take_timeout(), Duration::from_secs(5));
    let mut u = Timeouts::new(Duration::from_millis(300));
    assert_eq!(u.take_timeout(), Duration::from_millis(300));
    u.set_next_timeout(Duration::from_millis(1));
    assert_eq!(u.take_timeout(), Duration::from_millis(1));
    assert_eq!(u.take_timeout(), Duration::from_millis(300));
}
