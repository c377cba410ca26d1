use std::time::Duration;

use toy_rpc::client::broker::{ClientBroker, ClientBrokerEvent, ClientBrokerState, ClientWriterItem, DeliveryOutcome};
use toy_rpc::client::call::{Call, CallDelivery, CallPoll, CallStatus};
use toy_rpc::client::pubsub::LocalSubscriptions;
use toy_rpc::client::reader::{client_read_action, ClientInbound, ClientReadAction};
use toy_rpc::client::writer::{client_write_action, ClientBody, ClientWriteAction};
use toy_rpc::error::Error;
use toy_rpc::message::ErrorMessage;
use toy_rpc::protocol::Header;

fn broker() -> ClientBroker {
    ClientBroker::new(0, Duration::from_secs(10), 2)
}

#[test]
fn request_then_response_resolves_once() {
    let mut b = broker();
    let item = b.handle_request(3, "Arith.add".into(), Duration::from_secs(1)).unwrap();
    assert!(matches!(item, Some(ClientWriterItem::Request(3, ref s, _)) if s == "Arith.add"));
    assert!(b.pending.contains(&3));
    assert!(matches!(b.handle_response(3), Ok(None)));
    match b.handle_response(3) {
        Err(Error::Internal(m)) => assert_eq!(m, "InternalError: Response channel not found for id: 3"),
        other => panic!("unexpected {:?}", other),
    }
}

#[test]
fn cancel_removes_pending() {
    let mut b = broker();
    b.handle_request(1, "a.b".into(), Duration::from_secs(1)).unwrap();
    assert!(matches!(b.handle_cancel(1), Ok(Some(ClientWriterItem::Cancel(1)))));
    assert!(!b.pending.contains(&1));
    assert!(matches!(b.handle_cancel(1), Ok(Some(ClientWriterItem::Cancel(1)))));
}

#[test]
fn ids_are_handed_out_in_order_and_wrap() {
    let mut b = ClientBroker::new(65534, Duration::from_secs(1), 0);
    assert!(matches!(b.handle_publish("t".into()), Ok(Some(ClientWriterItem::Publish(65534, _)))));
    assert!(matches!(b.handle_subscribe("t".into()), Ok(Some(ClientWriterItem::Subscribe(65535, _)))));
    assert!(matches!(b.handle_unsubscribe("t".into()), Ok(Some(ClientWriterItem::Unsubscribe(0, _)))));
    assert_eq!(b.count, 1);
}

#[test]
fn publish_retries_are_bounded() {
    let mut b = broker();
    let (r, c) = b.handle_publish_retry(0, 9, "t".into());
    assert!(matches!(r, Ok(Some(ClientWriterItem::Publish(9, _)))));
    assert_eq!(c, 1);
    assert!(b.pending_acks.contains(&9));
    let (r, c) = b.handle_publish_retry(c, 9, "t".into());
    assert!(r.is_ok());
    assert_eq!(c, 2);
    let (r, c) = b.handle_publish_retry(c, 9, "t".into());
    assert!(matches!(r, Err(Error::MaxRetriesReached(9))));
    assert_eq!(c, 2);
}

#[test]
fn acks() {
    let mut b = broker();
    b.handle_publish_retry(0, 4, "t".into());
    assert!(matches!(b.handle_inbound_ack(4), Ok(None)));
    match b.handle_inbound_ack(4) {
        Err(Error::Internal(m)) => {
            assert_eq!(m, "InternalError: Ack timeout task channel not found for id: 4")
        }
        other => panic!("unexpected {:?}", other),
    }
}

#[test]
fn subscriptions() {
    let mut b = broker();
    let t = String::from("news");
    assert!(matches!(b.handle_subscription(&t), Err(Error::Internal(ref m)) if m == "Topic is not found locally"));
    b.handle_subscribe(t.clone()).unwrap();
    b.handle_new_local_subscriber(t.clone()).unwrap();
    assert_eq!(b.subscriptions.len(), 1);
    assert!(b.handle_subscription(&t).is_ok());
    assert!(matches!(b.handle_subscription_delivery(&t, DeliveryOutcome::Full), Ok(None)));
    assert!(matches!(b.handle_subscription_delivery(&t, DeliveryOutcome::Sent), Ok(None)));
    assert!(matches!(
        b.handle_subscription_delivery(&t, DeliveryOutcome::Disconnected),
        Err(Error::Internal(ref m)) if m == "Subscription recver is Disconnected"
    ));
    assert!(b.handle_subscription(&t).is_err());
}

#[test]
fn stopping_twice_stops() {
    let mut b = broker();
    assert!(matches!(b.handle_stopping(), Ok(Some(ClientWriterItem::Stopping))));
    assert_eq!(b.state, ClientBrokerState::Stopping);
    assert!(matches!(b.handle_stopping(), Ok(Some(ClientWriterItem::Stopping))));
    assert_eq!(b.state, ClientBrokerState::Stopped);
    assert!(matches!(b.handle_stopping(), Ok(None)));
    assert!(matches!(b.handle_stop(), Ok(Some(ClientWriterItem::Stop))));
}

#[test]
fn client_writer_actions() {
    match client_write_action(ClientWriterItem::Cancel(12)) {
        ClientWriteAction::Write(Header::Cancel(12), ClientBody::Text(t)) => {
            assert_eq!(t, "RPC_TASK_CANCELLATION.12")
        }
        other => panic!("unexpected {:?}", other),
    }
    assert!(matches!(
        client_write_action(ClientWriterItem::Subscribe(1, "t".into())),
        ClientWriteAction::Write(Header::Subscribe { id: 1, .. }, ClientBody::Unit)
    ));
    assert!(matches!(
        client_write_action(ClientWriterItem::Request(2, "a.b".into(), Duration::from_secs(3))),
        ClientWriteAction::Write(Header::Request { id: 2, .. }, ClientBody::ItemBody)
    ));
    assert!(matches!(client_write_action(ClientWriterItem::Stopping), ClientWriteAction::Close));
    assert!(matches!(client_write_action(ClientWriterItem::Stop), ClientWriteAction::Stop));
}

#[test]
fn client_reader_actions() {
    assert!(matches!(
        client_read_action(Header::Response { id: 4, is_ok: false }),
        ClientReadAction::ReadBodyThen(ClientInbound::Response { id: 4, is_ok: false })
    ));
    assert!(matches!(
        client_read_action(Header::Ack(8)),
        ClientReadAction::Emit(ClientInbound::InboundAck(s)) if s.0 == 8
    ));
    assert!(matches!(
        client_read_action(Header::Cancel(8)),
        ClientReadAction::Fail(Error::Internal(ref m)) if m == "Unexpected Header type"
    ));
}

#[test]
fn call_lifecycle() {
    let mut c = Call::new(5);
    assert_eq!(c.get_id(), 5);
    assert!(matches!(c.poll(CallDelivery::NotReady), CallPoll::Pending));
    assert!(matches!(
        c.poll(CallDelivery::Failure(Ok(ErrorMessage::MethodNotFound))),
        CallPoll::Ready(Err(Error::MethodNotFound))
    ));
    assert_eq!(c.status, CallStatus::Received);
    assert_eq!(c.drop_call(), None);

    let mut d = Call::new(6);
    assert_eq!(d.drop_call(), Some(6));
    assert!(matches!(d.poll(CallDelivery::Success(Ok(()))), CallPoll::Ready(Err(Error::Canceled(6)))));

    let mut e = Call::new(7);
    assert_eq!(e.cancel(), 7);
    assert!(matches!(e.poll(CallDelivery::NotReady), CallPoll::Ready(Err(Error::Canceled(7)))));

    let mut f = Call::new(8);
    assert!(matches!(f.poll(CallDelivery::Closed), CallPoll::Ready(Err(Error::Canceled(8)))));
    assert_eq!(f.status, CallStatus::Received);
    assert_eq!(f.drop_call(), None);
    let mut g = Call::new(9);
    assert!(matches!(g.poll(CallDelivery::Failed(Error::Timeout(9))), CallPoll::Ready(Err(Error::Timeout(9)))));
    assert_eq!(g.status, CallStatus::Received);
    assert_eq!(g.drop_call(), None);
    let mut h = Call::new(10);
    assert!(matches!(h.poll(CallDelivery::Success(Ok(()))), CallPoll::Ready(Ok(()))));
    assert_eq!(h.drop_call(), None);
}

#[test]
fn local_subscriptions() {
    let mut s = LocalSubscriptions::new();
    assert!(s.create_subscriber("a".into(), 1).is_ok());
    assert!(matches!(
        s.create_subscriber("a".into(), 2),
        Err(Error::Internal(ref m)) if m == "Only one local subscriber per topic is allowed"
    ));
    assert!(matches!(
        s.replace_local_subscriber(&"a".into(), 2),
        Err(Error::Internal(ref m)) if m == "TypeId mismatch"
    ));
    assert!(s.replace_local_subscriber(&"a".into(), 1).is_ok());
    assert!(matches!(
        s.replace_local_subscriber(&"b".into(), 1),
        Err(Error::Internal(ref m)) if m == "There is no existing local subscriber"
    ));
    assert!(matches!(
        s.unsubscribe(&"a".into(), 2),
        Err(Error::Internal(ref m)) if m == "Not registered to topic: a"
    ));
    assert!(s.create_subscriber("b".into(), 3).is_ok());
    assert!(s.unsubscribe(&"a".into(), 1).is_ok());
    assert!(s.unsubscribe(&"a".into(), 1).is_err());
    let topics = s.drain();
    assert_eq!(topics, vec![String::from("b")]);
    assert!(s.unsubscribe(&"b".into(), 3).is_err());
}

#[test]
fn broker_steps() {
    let mut b = ClientBroker::new(0, Duration::from_secs(1), 1);
    assert!(matches!(
        b.op(ClientBrokerEvent::Request { id: 3, service_method: "A.b".into(), duration: Duration::from_secs(2) }),
        Ok(Some(ClientWriterItem::Request(3, _, _)))
    ));
    assert!(matches!(b.op(ClientBrokerEvent::Response { id: 3 }), Ok(None)));
    assert!(matches!(b.op(ClientBrokerEvent::Response { id: 3 }), Err(Error::Internal(_))));
    assert!(matches!(b.op(ClientBrokerEvent::Subscribe { topic: "t".into() }), Ok(Some(ClientWriterItem::Subscribe(0, _)))));
    assert!(matches!(
        b.op(ClientBrokerEvent::Subscription { topic: "t".into(), outcome: DeliveryOutcome::Full }),
        Ok(None)
    ));
    match b.op(ClientBrokerEvent::Subscription { topic: "u".into(), outcome: DeliveryOutcome::Sent }) {
        Err(Error::Internal(m)) => assert_eq!(m, "Topic is not found locally"),
        other => panic!("unexpected {:?}", other),
    }
    assert!(matches!(
        b.op(ClientBrokerEvent::PublishRetry { count: 0, id: 7, topic: "t".into() }),
        Ok(Some(ClientWriterItem::Publish(7, _)))
    ));
    assert!(matches!(b.op(ClientBrokerEvent::InboundAck(toy_rpc::pubsub::SeqId(7))), Ok(None)));
    assert!(matches!(
        b.op(ClientBrokerEvent::PublishRetry { count: 1, id: 7, topic: "t".into() }),
        Err(Error::MaxRetriesReached(7))
    ));
    assert!(matches!(b.op(ClientBrokerEvent::Stopping), Ok(Some(ClientWriterItem::Stopping))));
    assert!(matches!(b.op(ClientBrokerEvent::Stop), Ok(Some(ClientWriterItem::Stop))));
    assert_eq!(b.state, ClientBrokerState::Stopped);
    assert!(matches!(b.op(ClientBrokerEvent::Stopping), Ok(None)));
}
