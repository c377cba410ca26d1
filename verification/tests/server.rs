use std::time::Duration;

use toy_rpc::error::{Error, IoErrorKind};
use toy_rpc::message::{cancellation_token, ErrorMessage};
use toy_rpc::protocol::Header;
use toy_rpc::pubsub::SeqId;
use toy_rpc::server::broker::{PubSubItem, ServerBrokerEvent};
use toy_rpc::server::pubsub::publisher::Publisher;
use toy_rpc::server::pubsub::subscriber::Subscriber;
use toy_rpc::server::pubsub::{AckWaiter, ClientSet, PubSubAction, PubSubBroker, PubSubEvent};
use toy_rpc::server::reader::{
    server_body_kind, server_inbound, service, split_service_method_exec, ServerBody,
    ServerBodyKind, ServerInbound,
};
use toy_rpc::server::writer::{server_write_action, ServerBodyOut, ServerWriteAction, ServerWriterItem};
use toy_rpc::transport::ws::{payload_of_message, WsIncoming};

fn services() -> Vec<String> {
    vec!["Echo".into(), "Arith".into()]
}

#[test]
fn service_lookup() {
    assert!(matches!(service(&services(), "Arith.add"), Ok((1, ref m)) if m == "add"));
    assert!(matches!(service(&services(), "Echo.")  , Ok((0, ref m)) if m.is_empty()));
    assert!(matches!(service(&services(), "Arith"), Err(Error::MethodNotFound)));
    assert!(matches!(service(&services(), "Arith.add.more"), Err(Error::MethodNotFound)));
    assert!(matches!(service(&services(), "Nope.add"), Err(Error::ServiceNotFound)));
    assert_eq!(split_service_method_exec(".x"), Some((String::new(), String::from("x"))));
}

#[test]
fn reader_requests() {
    let h = Header::Request { id: 4, service_method: "Echo.echo".into(), timeout: Duration::from_secs(2) };
    assert_eq!(server_body_kind(&h), ServerBodyKind::Deserializer);
    match server_inbound(h, &services(), ServerBody::Deserializer) {
        Ok(ServerInbound::Request { service, id, method, duration }) => {
            assert_eq!((service, id, method.as_str(), duration), (0, 4, "echo", Duration::from_secs(2)));
        }
        other => panic!("unexpected {:?}", other),
    }
    let h = Header::Request { id: 5, service_method: "Nope.x".into(), timeout: Duration::from_secs(2) };
    assert!(matches!(
        server_inbound(h, &services(), ServerBody::Deserializer),
        Ok(ServerInbound::Response { id: 5, error: Error::ServiceNotFound })
    ));
}

#[test]
fn reader_cancellations() {
    let ok = server_inbound(Header::Cancel(6), &services(), ServerBody::Token(Ok(cancellation_token(6))));
    assert!(matches!(ok, Ok(ServerInbound::Cancel(6))));
    let bad = server_inbound(Header::Cancel(6), &services(), ServerBody::Token(Ok(cancellation_token(7))));
    assert!(matches!(bad, Ok(ServerInbound::Response { id: 6, error: Error::InvalidArgument })));
    let broken = server_inbound(
        Header::Cancel(6),
        &services(),
        ServerBody::Token(Err(Error::ParseError("x".into()))),
    );
    assert!(matches!(broken, Ok(ServerInbound::Response { id: 6, error: Error::ParseError(_) })));
}

#[test]
fn reader_other_headers() {
    match server_inbound(Header::Response { id: 3, is_ok: true }, &services(), ServerBody::Deserializer) {
        Err(Error::Internal(m)) => assert_eq!(m, "Server received Response {id: 3, is_ok: true}"),
        other => panic!("unexpected {:?}", other),
    }
    assert!(matches!(
        server_inbound(Header::Publish { id: 1, topic: "t".into() }, &services(), ServerBody::Bytes(vec![1, 2])),
        Ok(ServerInbound::Publish { id: 1, ref content, .. }) if *content == vec![1, 2]
    ));
    assert_eq!(server_body_kind(&Header::Subscribe { id: 1, topic: "t".into() }), ServerBodyKind::Ignored);
    assert!(matches!(
        server_inbound(Header::Ack(9), &services(), ServerBody::Absent),
        Ok(ServerInbound::InboundAck { seq_id }) if seq_id.0 == 9
    ));
    match server_inbound(Header::Consume { id: 1, topic: "t".into() }, &services(), ServerBody::Absent) {
        Err(Error::Internal(m)) => assert_eq!(m, "Unexpected Header type (Header::Consume)"),
        other => panic!("unexpected {:?}", other),
    }
}

#[test]
fn server_writer_actions() {
    assert!(matches!(
        server_write_action(ServerWriterItem::Response { id: 1, result: Ok(()) }),
        ServerWriteAction::Write(Header::Response { id: 1, is_ok: true }, ServerBodyOut::CallResult)
    ));
    assert!(matches!(
        server_write_action(ServerWriterItem::Response { id: 2, result: Err(Error::ExecutionError("e".into())) }),
        ServerWriteAction::Write(Header::Response { id: 2, is_ok: false }, ServerBodyOut::ErrorMessage(ErrorMessage::ExecutionError(ref s))) if s == "e"
    ));
    assert!(matches!(
        server_write_action(ServerWriterItem::Response { id: 3, result: Err(Error::Timeout(3)) }),
        ServerWriteAction::Skip
    ));
    assert!(matches!(
        server_write_action(ServerWriterItem::Publication { seq_id: SeqId::new(8), topic: "t".into() }),
        ServerWriteAction::Write(Header::Publish { id: 8, .. }, ServerBodyOut::Content)
    ));
}

#[test]
fn pubsub_bookkeeping() {
    let mut b = PubSubBroker::new(Duration::from_secs(10));
    let t = String::from("news");
    assert!(b.publication_targets(&t).is_empty());
    assert!(!b.has_topic(&t));
    b.handle_subscribe(5, t.clone());
    b.handle_subscribe(2, t.clone());
    b.handle_subscribe(9, t.clone());
    b.handle_subscribe(5, t.clone());
    assert!(b.has_topic(&t));
    assert_eq!(b.publication_targets(&t), vec![2, 5, 9]);
    b.handle_unsubscribe(5, t.clone());
    assert_eq!(b.publication_targets(&t), vec![2, 9]);
    b.remove_disconnected(&t, &vec![9, 100]);
    assert_eq!(b.publication_targets(&t), vec![2]);
    assert_eq!(b.retry_targets(&t, &vec![7, 2, 2]), vec![2, 2]);
    assert_eq!(b.get_seq_id().0, 0);
    assert_eq!(b.get_seq_id().0, 1);
    b.add_pending_ack(SeqId::new(1));
    b.remove_pending_acks(SeqId::new(1));
    assert_eq!(b.pub_retry_timeout(), Duration::from_secs(10));
}

#[test]
fn ack_waiter() {
    let mut w = AckWaiter::new(&vec![3, 1, 2]);
    assert!(!w.is_done());
    assert!(w.ack(2));
    assert!(!w.ack(2));
    assert_eq!(w.remaining_ids(), vec![1, 3]);
    assert!(w.ack(1));
    assert!(w.ack(3));
    assert!(w.is_done());
}

#[test]
fn acks_collected_in_any_order() {
    let mut w = AckWaiter::new(&vec![7, 4, 9]);
    for c in [9u64, 12, 9] {
        w.ack(c);
    }
    assert_eq!(w.remaining_ids(), vec![4, 7]);
    assert!(!w.is_done());
    for c in [4u64, 7] {
        w.ack(c);
    }
    assert!(w.is_done());
    assert!(w.remaining_ids().is_empty());
}

#[test]
fn client_set_in_order() {
    let mut s = ClientSet::new();
    for c in [5u64, 1, 3, 5] {
        s.insert(c);
    }
    assert_eq!(s.to_vec(), vec![1, 3, 5]);
    assert!(s.contains(3));
    s.remove(3);
    assert!(!s.contains(3));
    assert!(!s.is_empty());
    s.remove(1);
    s.remove(5);
    assert!(s.is_empty());
}

#[test]
fn websocket_payloads() {
    assert!(matches!(payload_of_message(Ok(WsIncoming::Binary(vec![1]))), Some(Ok(ref b)) if *b == vec![1]));
    assert!(payload_of_message(Ok(WsIncoming::Close)).is_none());
    match payload_of_message(Ok(WsIncoming::Other)) {
        Some(Err(Error::IoError(e))) => {
            assert_eq!(e.kind, IoErrorKind::InvalidData);
            assert_eq!(e.message, "Expecting WebSocket::Message::Binary");
        }
        other => panic!("unexpected {:?}", other),
    }
    assert!(matches!(payload_of_message(Err("reset".into())), Some(Err(Error::IoError(ref e))) if e.message == "reset"));
}

#[test]
fn server_side_publisher_ids() {
    let mut p = Publisher::new("news".into());
    for expected in 0..3u16 {
        match p.start_send() {
            PubSubItem::Publish { client_id, msg_id, topic } => {
                assert_eq!((client_id, msg_id, topic.as_str()), (0, expected, "news"));
            }
            other => panic!("unexpected {:?}", other),
        }
    }
}

#[test]
fn server_side_subscriber_items() {
    let publication = ServerBrokerEvent::Publication { seq_id: SeqId(7), topic: "news".into() };
    let auto = Subscriber::new("news".into(), true);
    assert!(matches!(
        auto.on_item(&publication),
        Ok(Some(PubSubItem::Ack { seq_id: SeqId(7), client_id: 0 }))
    ));
    assert!(matches!(auto.subscribe_item(), PubSubItem::Subscribe { client_id: 0, ref topic } if topic == "news"));
    assert!(matches!(auto.unsubscribe_item(), PubSubItem::Unsubscribe { client_id: 0, ref topic } if topic == "news"));
    let plain = Subscriber::new("news".into(), false);
    assert!(matches!(plain.on_item(&publication), Ok(None)));
    match plain.on_item(&ServerBrokerEvent::Stop) {
        Err(Error::Internal(m)) => assert_eq!(m, "Invalid PubSub item"),
        other => panic!("unexpected {:?}", other),
    }
}

#[test]
fn pubsub_steps() {
    let mut b = PubSubBroker::new(Duration::from_secs(1));
    let t = String::from("t");
    assert!(matches!(b.op(PubSubEvent::Subscribe { client_id: 4, topic: t.clone() }, true), PubSubAction::Nothing));
    assert!(matches!(b.op(PubSubEvent::Subscribe { client_id: 2, topic: t.clone() }, true), PubSubAction::Nothing));
    match b.op(PubSubEvent::Publish { client_id: 9, msg_id: 0, topic: t.clone() }, true) {
        PubSubAction::Deliver { seq_id, targets, .. } => {
            assert_eq!((seq_id.0, targets), (0, vec![2, 4]));
        }
        other => panic!("unexpected {:?}", other),
    }
    match b.op(PubSubEvent::Delivered { seq_id: SeqId(0), topic: t.clone(), gone: vec![4] }, true) {
        PubSubAction::WaitForAcks { seq_id, targets, .. } => assert_eq!((seq_id.0, targets), (0, vec![2])),
        other => panic!("unexpected {:?}", other),
    }
    assert!(matches!(
        b.op(PubSubEvent::Ack { seq_id: SeqId(0), client_id: 2 }, true),
        PubSubAction::ForwardAck { seq_id: SeqId(0), client_id: 2 }
    ));
    assert!(matches!(b.op(PubSubEvent::RemovePendingAcks { seq_id: SeqId(0) }, true), PubSubAction::Nothing));
    assert!(matches!(b.op(PubSubEvent::Ack { seq_id: SeqId(0), client_id: 2 }, true), PubSubAction::Nothing));
    match b.op(PubSubEvent::PublishRetry { client_ids: vec![4, 2], seq_id: SeqId(0), topic: t.clone() }, true) {
        PubSubAction::Redeliver { targets, .. } => assert_eq!(targets, vec![2]),
        other => panic!("unexpected {:?}", other),
    }
    // no wait without Acks, and none for a topic without an entry
    assert!(matches!(
        b.op(PubSubEvent::Delivered { seq_id: SeqId(1), topic: t.clone(), gone: vec![] }, false),
        PubSubAction::Nothing
    ));
    assert!(matches!(
        b.op(PubSubEvent::Delivered { seq_id: SeqId(2), topic: "none".into(), gone: vec![] }, true),
        PubSubAction::Nothing
    ));
    assert!(b.is_pending(SeqId(2)));
    assert!(matches!(b.op(PubSubEvent::Unsubscribe { client_id: 2, topic: t.clone() }, true), PubSubAction::Nothing));
    assert!(b.publication_targets(&t).is_empty());
    assert!(matches!(b.op(PubSubEvent::Stop, true), PubSubAction::Stop));
}
