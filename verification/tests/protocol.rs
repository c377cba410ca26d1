use std::time::Duration;

use bincode::Options;
use toy_rpc::message::Metadata;
use toy_rpc::protocol::Header;

/// The size of a header as the default codec writes it: bincode with varint
/// integers writes an enum as its variant index followed by its fields, which
/// is what a tuple of the index and the fields gives.
fn header_size(header: &Header) -> u64 {
    let opt = bincode::DefaultOptions::new().with_varint_encoding();
    match header {
        Header::Request { id, service_method, timeout } => {
            opt.serialized_size(&(0u32, *id, service_method, *timeout)).unwrap()
        }
        Header::Response { id, is_ok } => opt.serialized_size(&(1u32, *id, *is_ok)).unwrap(),
        Header::Cancel(id) => opt.serialized_size(&(2u32, *id)).unwrap(),
        Header::Publish { id, topic } => opt.serialized_size(&(3u32, *id, topic)).unwrap(),
        Header::Subscribe { id, topic } => opt.serialized_size(&(4u32, *id, topic)).unwrap(),
        Header::Unsubscribe { id, topic } => opt.serialized_size(&(5u32, *id, topic)).unwrap(),
        Header::Ack(id) => opt.serialized_size(&(6u32, *id)).unwrap(),
        Header::Produce { id, topic, tickets } => {
            opt.serialized_size(&(7u32, *id, topic, *tickets)).unwrap()
        }
        Header::Consume { id, topic } => opt.serialized_size(&(8u32, *id, topic)).unwrap(),
        Header::Ext { id, content, marker } => {
            opt.serialized_size(&(9u32, *id, content, *marker)).unwrap()
        }
    }
}

#[test]
fn size_of_header() {
    let header = Header::Request {
        id: 3000,
        service_method: "".into(),
        timeout: Duration::from_secs(10),
    };
    let size = header_size(&header);
    println!("Header::Request size: {:?}", size);

    let header = Header::Response { id: 0, is_ok: true };
    let size = header_size(&header);
    println!("Header::Response size: {:?}", size);

    let header = Header::Cancel(0);
    let size = header_size(&header);
    println!("Header::Cancel size: {:?}", size);

    let header = Header::Publish {
        id: 0,
        topic: "".into(),
    };
    let size = header_size(&header);
    println!("Header::Publish size: {:?}", size);

    let header = Header::Subscribe {
        id: 0,
        topic: "".into(),
    };
    let size = header_size(&header);
    println!("Header::Subscribe size: {:?}", size);

    let header = Header::Ack(0);
    let size = header_size(&header);
    println!("Header::Ack size: {:?}", size);

    let opt = bincode::DefaultOptions::new().with_varint_encoding();
    let size = opt.serialized_size(&(1u32, "")).unwrap();
    println!("size: {:?}", size);
}

#[test]
fn header_ids() {
    let headers = vec![
        Header::Request { id: 1, service_method: "a.b".into(), timeout: Duration::from_secs(1) },
        Header::Response { id: 2, is_ok: false },
        Header::Cancel(3),
        Header::Publish { id: 4, topic: "t".into() },
        Header::Subscribe { id: 5, topic: "t".into() },
        Header::Unsubscribe { id: 6, topic: "t".into() },
        Header::Ack(7),
        Header::Produce { id: 8, topic: "t".into(), tickets: 1 },
        Header::Consume { id: 9, topic: "t".into() },
        Header::Ext { id: 10, content: "c".into(), marker: 0 },
    ];
    for (i, h) in headers.iter().enumerate() {
        assert_eq!(h.get_id() as usize, i + 1);
    }
}
