//! What the server does with each header read from a client: which service a
//! request goes to, whether a cancellation is genuine, and which event the
//! server broker gets.

use std::time::Duration;
use vstd::prelude::*;

use crate::error::Error;
use crate::message::{cancellation_body, cancellation_token_base, MessageId};
use crate::numeral::{chars_of, decimal, lemma_parse_u16_of_decimal, parse_u16, parse_u16_spec};
use crate::protocol::Header;
use crate::pubsub::SeqId;

verus! {

/// Whether `i` is the position of the only `.` in `s`
pub open spec fn is_only_dot(s: Seq<char>, i: int) -> bool {
    &&& 0 <= i < s.len()
    &&& s[i] == '.'
    &&& forall|j: int| 0 <= j < s.len() && j != i ==> s[j] != '.'
}

/// The service and the method of "{Service}.{method}": the text before and
/// after its only `.`; `None` when it holds no `.` or more than one
pub open spec fn split_service_method(s: Seq<char>) -> Option<(Seq<char>, Seq<char>)> {
    if exists|i: int| is_only_dot(s, i) {
        let i = choose|i: int| is_only_dot(s, i);
        Some((s.take(i), s.skip(i + 1)))
    } else {
        None
    }
}

/// Whether `i` is the position of the first `.` in `s`
pub open spec fn is_first_dot(s: Seq<char>, i: int) -> bool {
    &&& 0 <= i < s.len()
    &&& s[i] == '.'
    &&& forall|j: int| 0 <= j < i ==> s[j] != '.'
}

/// Whether `token` cancels request `id`: before its first `.` stands the
/// cancellation token, and after it a number that reads as `id`
pub open spec fn is_cancellation_of(id: MessageId, token: Seq<char>) -> bool {
    exists|i: int|
        is_first_dot(token, i) && token.take(i) == cancellation_token_base() && parse_u16_spec(
            token.skip(i + 1),
        ) == Some(id)
}

/// Splits "{Service}.{method}" at its only `.`
pub fn split_service_method_exec(service_method: &str) -> (r: Option<(String, String)>)
    ensures
        match split_service_method(service_method@) {
            Some((s, m)) => r matches Some((rs, rm)) && rs@ == s && rm@ == m,
            None => r is None,
        },
{
    let chars = chars_of(service_method);
    let ghost s = service_method@;
    let mut dot: usize = 0;
    let mut count: usize = 0;
    let mut i: usize = 0;
    while i < chars.len()
        invariant
            i <= chars@.len(),
            chars@ == s,
            count <= i,
            count == 0 ==> forall|j: int| 0 <= j < i ==> s[j] != '.',
            count == 1 ==> (dot < i && s[dot as int] == '.' && forall|j: int|
                0 <= j < i && j != dot ==> s[j] != '.'),
            count >= 2 ==> !(exists|k: int| is_only_dot(s, k)),
        decreases chars@.len() - i,
    {
        if chars[i] == '.' {
            if count == 0 {
                dot = i;
                count = 1;
            } else {
                proof {
                    if count == 1 {
                        assert forall|k: int| !is_only_dot(s, k) by {
                            if is_only_dot(s, k) {
                                if k == dot {
                                    assert(s[i as int] == '.');
                                } else {
                                    assert(s[dot as int] == '.');
                                }
                            }
                        }
                    }
                }
                count = 2;
            }
        }
        i = i + 1;
    }
    if count != 1 {
        assert(!(exists|k: int| is_only_dot(s, k))) by {
            if count == 0 {
                assert forall|k: int| !is_only_dot(s, k) by {
                    if 0 <= k < s.len() {
                        assert(s[k] != '.');
                    }
                }
            }
        }
        return None;
    }
    assert(is_only_dot(s, dot as int));
    let ghost k = choose|k: int| is_only_dot(s, k);
    assert(k == dot);
    let mut svc: Vec<char> = Vec::new();
    let mut j: usize = 0;
    while j < dot
        invariant
            j <= dot < chars@.len(),
            chars@ == s,
            svc@ == s.take(j as int),
        decreases dot - j,
    {
        svc.push(chars[j]);
        j = j + 1;
        assert(s.take(j as int) =~= s.take(j - 1).push(s[j - 1]));
    }
    let mut method: Vec<char> = Vec::new();
    let mut j: usize = dot + 1;
    while j < chars.len()
        invariant
            dot + 1 <= j <= chars@.len(),
            chars@ == s,
            method@ == s.subrange(dot + 1, j as int),
        decreases chars@.len() - j,
    {
        method.push(chars[j]);
        j = j + 1;
        assert(s.subrange(dot + 1, j as int) =~= s.subrange(dot + 1, j - 1).push(s[j - 1]));
    }
    assert(method@ =~= s.skip(dot + 1));
    Some((crate::numeral::string_from_chars(&svc), crate::numeral::string_from_chars(&method)))
}

/// A service name and a method name without `.` joined by `.` split back into
/// the same names.
pub proof fn lemma_split_service_method(service: Seq<char>, method: Seq<char>)
    requires
        forall|i: int| 0 <= i < service.len() ==> service[i] != '.',
        forall|i: int| 0 <= i < method.len() ==> method[i] != '.',
    ensures
        split_service_method(service + seq!['.'] + method) == Some((service, method)),
{
    let s = service + seq!['.'] + method;
    let n = service.len() as int;
    assert forall|j: int| 0 <= j < s.len() && j != n implies s[j] != '.' by {
        if j < n {
            assert(s[j] == service[j]);
        } else {
            assert(s[j] == method[j - n - 1]);
        }
    }
    assert(is_only_dot(s, n));
    let k = choose|k: int| is_only_dot(s, k);
    assert(k == n);
    assert(s.take(n) =~= service);
    assert(s.skip(n + 1) =~= method);
}

/// Whether a registered service has this name; the first one that has it
pub open spec fn is_first_service(services: Seq<String>, name: Seq<char>, k: int) -> bool {
    &&& 0 <= k < services.len()
    &&& services[k]@ == name
    &&& forall|j: int| 0 <= j < k ==> services[j]@ != name
}

/// Finds the service of a request among the registered service names, and
/// the method it calls: `MethodNotFound` when "{Service}.{method}" does not
/// hold exactly one `.`, `ServiceNotFound` when no service has the name.
pub fn service(services: &Vec<String>, service_method: &str) -> (r: Result<(usize, String), Error>)
    ensures
        match split_service_method(service_method@) {
            None => r matches Err(Error::MethodNotFound),
            Some((s, m)) => if exists|k: int| is_first_service(services@, s, k) {
                r matches Ok((k, rm)) && is_first_service(services@, s, k as int) && rm@ == m
            } else {
                r matches Err(Error::ServiceNotFound)
            },
        },
{
    let (svc, method) = match split_service_method_exec(service_method) {
        Some(p) => p,
        None => return Err(Error::MethodNotFound),
    };
    let mut k: usize = 0;
    while k < services.len()
        invariant
            k <= services@.len(),
            split_service_method(service_method@) == Some((svc@, method@)),
            forall|j: int| 0 <= j < k ==> services@[j]@ != svc@,
        decreases services@.len() - k,
    {
        if services[k] == svc {
            assert(is_first_service(services@, svc@, k as int));
            assert(exists|q: int| is_first_service(services@, svc@, q));
            return Ok((k, method));
        }
        k = k + 1;
    }
    assert forall|k: int| !is_first_service(services@, svc@, k) by {
        if is_first_service(services@, svc@, k) {
            assert(services@[k]@ != svc@);
        }
    }
    Err(Error::ServiceNotFound)
}

/// Whether `token` is the genuine cancellation of request `id`
pub fn is_correct_cancellation_token(id: MessageId, token: &str) -> (b: bool)
    ensures
        b == is_cancellation_of(id, token@),
{
    let chars = chars_of(token);
    let ghost t = token@;
    let mut i: usize = 0;
    while i < chars.len() && chars[i] != '.'
        invariant
            i <= chars@.len(),
            chars@ == t,
            forall|j: int| 0 <= j < i ==> t[j] != '.',
        decreases chars@.len() - i,
    {
        i = i + 1;
    }
    if i == chars.len() {
        assert forall|k: int| !is_first_dot(t, k) by {
            if is_first_dot(t, k) {
                assert(t[k] != '.');
            }
        }
        return false;
    }
    assert(is_first_dot(t, i as int));
    assert forall|k: int| is_first_dot(t, k) implies k == i by {
        if k < i {
            assert(t[k] != '.');
        } else if k > i {
            assert(t[i as int] != '.');
        }
    }
    let base = chars_of("RPC_TASK_CANCELLATION");
    let mut same = base.len() == i;
    let mut j: usize = 0;
    while same && j < i
        invariant
            i < chars@.len(),
            chars@ == t,
            base@ == cancellation_token_base(),
            same ==> base@.len() == i,
            same ==> forall|q: int| 0 <= q < j ==> t[q] == base@[q],
            !same ==> t.take(i as int) != cancellation_token_base(),
            j <= i,
        decreases i - j,
    {
        if chars[j] != base[j] {
            same = false;
            assert(t.take(i as int)[j as int] != base@[j as int]);
        }
        j = j + 1;
    }
    if same {
        assert(t.take(i as int) =~= cancellation_token_base());
    }
    let mut rest: Vec<char> = Vec::new();
    let mut q: usize = i + 1;
    while q < chars.len()
        invariant
            i + 1 <= q <= chars@.len(),
            chars@ == t,
            rest@ == t.subrange(i + 1, q as int),
        decreases chars@.len() - q,
    {
        rest.push(chars[q]);
        q = q + 1;
        assert(t.subrange(i + 1, q as int) =~= t.subrange(i + 1, q - 1).push(t[q - 1]));
    }
    assert(rest@ =~= t.skip(i + 1));
    let parsed = parse_u16(rest.as_slice());
    let ok = match parsed {
        Some(n) => n == id,
        None => false,
    };
    same && ok
}

/// The token of a cancellation names request `id2` and no other: it cancels
/// request `id` exactly when `id == id2`.
pub proof fn lemma_cancellation_token_roundtrip(id: MessageId, id2: MessageId)
    ensures
        is_cancellation_of(id, cancellation_body(id2)) <==> id == id2,
{
    reveal_strlit("RPC_TASK_CANCELLATION");
    reveal_strlit(".");
    let t = cancellation_body(id2);
    let base = cancellation_token_base();
    assert(base.len() == 21);
    assert(t[21] == '.');
    assert forall|j: int| 0 <= j < 21 implies t[j] != '.' by {
        assert(t[j] == base[j]);
    }
    assert(is_first_dot(t, 21));
    assert(t.take(21) =~= base);
    assert(t.skip(22) =~= decimal(id2 as nat));
    lemma_parse_u16_of_decimal(id2);
    assert forall|k: int| is_first_dot(t, k) implies k == 21 by {
        if k < 21 {
            assert(t[k] != '.');
        } else if k > 21 {
            assert(t[21] != '.');
        }
    }
}

/// Checks the token of a cancellation of request `id`: a token that does not
/// cancel `id` is an invalid argument
pub fn handle_cancel(id: MessageId, token: &str) -> (r: Result<(), Error>)
    ensures
        is_cancellation_of(id, token@) <==> r is Ok,
        r is Err ==> r matches Err(Error::InvalidArgument),
{
    if is_correct_cancellation_token(id, token) {
        Ok(())
    } else {
        Err(Error::InvalidArgument)
    }
}

/// The body that follows a header read from a client
#[derive(Debug, Clone, Copy, PartialEq, Eq, Structural)]
pub enum ServerBodyKind {
    /// No body follows
    NoBody,
    /// A body to deserialize
    Deserializer,
    /// A body kept as raw bytes
    Bytes,
    /// A body that is read and thrown away, whatever the read gives
    Ignored,
}

/// Which body follows a header read from a client
pub open spec fn server_body_kind_of(h: Header) -> ServerBodyKind {
    match h {
        Header::Request { .. } => ServerBodyKind::Deserializer,
        Header::Response { .. } => ServerBodyKind::Deserializer,
        Header::Cancel(_) => ServerBodyKind::Deserializer,
        Header::Publish { .. } => ServerBodyKind::Bytes,
        Header::Subscribe { .. } => ServerBodyKind::Ignored,
        Header::Unsubscribe { .. } => ServerBodyKind::Ignored,
        _ => ServerBodyKind::NoBody,
    }
}

/// Which body follows a header read from a client
pub fn server_body_kind(header: &Header) -> (k: ServerBodyKind)
    ensures
        k == server_body_kind_of(*header),
{
    match header {
        Header::Request { .. } => ServerBodyKind::Deserializer,
        Header::Response { .. } => ServerBodyKind::Deserializer,
        Header::Cancel(_) => ServerBodyKind::Deserializer,
        Header::Publish { .. } => ServerBodyKind::Bytes,
        Header::Subscribe { .. } => ServerBodyKind::Ignored,
        Header::Unsubscribe { .. } => ServerBodyKind::Ignored,
        _ => ServerBodyKind::NoBody,
    }
}

/// The body that was read after a header
#[derive(Debug)]
pub enum ServerBody {
    /// No body, or one thrown away
    Absent,
    /// A body handed on to be deserialized by whoever handles the message
    Deserializer,
    /// The body of a cancellation, read as a string (or the error of reading it)
    Token(Result<String, Error>),
    /// Raw bytes
    Bytes(Vec<u8>),
}

/// An event for the server broker, made from a message read from a client
#[derive(Debug, Clone)]
pub enum ServerInbound {
    /// A request to a registered service; its body goes along
    Request {
        /// Position of the service among the registered services
        service: usize,
        /// Message id
        id: MessageId,
        /// Method to call
        method: String,
        /// Timeout of the request
        duration: Duration,
    },
    /// An error to send back as the response to message `id`
    Response {
        /// Message id
        id: MessageId,
        /// The error
        error: Error,
    },
    /// Cancel request `id`
    Cancel(MessageId),
    /// A publication from the client
    Publish {
        /// Message id
        id: MessageId,
        /// Topic
        topic: String,
        /// Content
        content: Vec<u8>,
    },
    /// A subscription of the client
    Subscribe {
        /// Message id
        id: MessageId,
        /// Topic
        topic: String,
    },
    /// The end of a subscription of the client
    Unsubscribe {
        /// Message id
        id: MessageId,
        /// Topic
        topic: String,
    },
    /// The client acknowledged a publication
    InboundAck {
        /// Sequence id of the publication
        seq_id: SeqId,
    },
}

/// Text of the error for a Response received by the server
pub open spec fn response_to_server_msg(id: MessageId, is_ok: bool) -> Seq<char> {
    "Server received Response {id: "@ + decimal(id as nat) + ", is_ok: "@ + (if is_ok {
        "true"@
    } else {
        "false"@
    }) + "}"@
}

/// The event that the server broker gets for a header and the body read after
/// it (`body` is read as `server_body_kind` says); `Err` is a failure of the
/// connection.
///
/// A request goes to its service, or is answered with `MethodNotFound` or
/// `ServiceNotFound`; a cancellation with a wrong token is answered with
/// `InvalidArgument` (or the error of reading the token); a Response or a
/// reserved header is an internal error.
pub fn server_inbound(header: Header, services: &Vec<String>, body: ServerBody) -> (r: Result<
    ServerInbound,
    Error,
>)
    ensures
        match header {
            Header::Request { id, service_method, timeout } => match split_service_method(
                service_method@,
            ) {
                None => r matches Ok(ServerInbound::Response { id: i, error: Error::MethodNotFound })
                    && i == id,
                Some((s, m)) => if exists|k: int| is_first_service(services@, s, k) {
                    r matches Ok(ServerInbound::Request { service: k, id: i, method: rm, duration: d })
                        && is_first_service(services@, s, k as int) && i == id && rm@ == m && d
                        == timeout
                } else {
                    r matches Ok(ServerInbound::Response { id: i, error: Error::ServiceNotFound })
                        && i == id
                },
            },
            Header::Response { id, is_ok } => r matches Err(Error::Internal(msg)) && msg@
                == response_to_server_msg(id, is_ok),
            Header::Cancel(id) => match body {
                ServerBody::Token(Ok(t)) => if is_cancellation_of(id, t@) {
                    r matches Ok(ServerInbound::Cancel(i)) && i == id
                } else {
                    r matches Ok(ServerInbound::Response { id: i, error: Error::InvalidArgument })
                        && i == id
                },
                ServerBody::Token(Err(e)) => r matches Ok(ServerInbound::Response { id: i, error: re })
                    && i == id && re == e,
                _ => r matches Ok(ServerInbound::Response { id: i, error: Error::InvalidArgument })
                    && i == id,
            },
            Header::Publish { id, topic } => match body {
                ServerBody::Bytes(b) => r matches Ok(ServerInbound::Publish { id: i, topic: t, content: c })
                    && i == id && t@ == topic@ && c@ == b@,
                _ => r matches Ok(ServerInbound::Publish { id: i, topic: t, content: c }) && i == id
                    && t@ == topic@ && c@ == Seq::<u8>::empty(),
            },
            Header::Subscribe { id, topic } => r matches Ok(ServerInbound::Subscribe { id: i, topic: t })
                && i == id && t@ == topic@,
            Header::Unsubscribe { id, topic } => r matches Ok(ServerInbound::Unsubscribe { id: i, topic: t })
                && i == id && t@ == topic@,
            Header::Ack(id) => r matches Ok(ServerInbound::InboundAck { seq_id: s }) && s.0 == id,
            Header::Produce { .. } => r matches Err(Error::Internal(m)) && m@
                == "Unexpected Header type (Header::Produce)"@,
            Header::Consume { .. } => r matches Err(Error::Internal(m)) && m@
                == "Unexpected Header type (Header::Consume)"@,
            Header::Ext { .. } => r matches Err(Error::Internal(m)) && m@
                == "Unexpected Header type (Header::Ext)"@,
        },
{
    match header {
        Header::Request { id, service_method, timeout } => {
            match service(services, service_method.as_str()) {
                Ok((k, method)) => Ok(ServerInbound::Request { service: k, id, method, duration: timeout }),
                Err(err) => Ok(ServerInbound::Response { id, error: err }),
            }
        },
        Header::Response { id, is_ok } => {
            let mut out: Vec<char> = Vec::new();
            crate::numeral::push_str("Server received Response {id: ", &mut out);
            crate::numeral::push_decimal(id as u64, &mut out);
            crate::numeral::push_str(", is_ok: ", &mut out);
            if is_ok {
                crate::numeral::push_str("true", &mut out);
            } else {
                crate::numeral::push_str("false", &mut out);
            }
            crate::numeral::push_str("}", &mut out);
            assert(out@ =~= response_to_server_msg(id, is_ok));
            Err(Error::Internal(crate::numeral::string_from_chars(&out)))
        },
        Header::Cancel(id) => {
            match body {
                ServerBody::Token(Ok(t)) => match handle_cancel(id, t.as_str()) {
                    Ok(()) => Ok(ServerInbound::Cancel(id)),
                    Err(err) => Ok(ServerInbound::Response { id, error: err }),
                },
                ServerBody::Token(Err(e)) => Ok(ServerInbound::Response { id, error: e }),
                _ => Ok(ServerInbound::Response { id, error: Error::InvalidArgument }),
            }
        },
        Header::Publish { id, topic } => {
            let content = match body {
                ServerBody::Bytes(b) => b,
                _ => Vec::new(),
            };
            Ok(ServerInbound::Publish { id, topic, content })
        },
        Header::Subscribe { id, topic } => Ok(ServerInbound::Subscribe { id, topic }),
        Header::Unsubscribe { id, topic } => Ok(ServerInbound::Unsubscribe { id, topic }),
        Header::Ack(id) => Ok(ServerInbound::InboundAck { seq_id: SeqId::new(id) }),
        Header::Produce { .. } => Err(
            Error::Internal(String::from_str("Unexpected Header type (Header::Produce)")),
        ),
        Header::Consume { .. } => Err(
            Error::Internal(String::from_str("Unexpected Header type (Header::Consume)")),
        ),
        Header::Ext { .. } => Err(
            Error::Internal(String::from_str("Unexpected Header type (Header::Ext)")),
        ),
    }
}

/// What the server does with the body after each header: the body of a
/// publication is kept as it was sent, so the subscribers get exactly the
/// client's item; the body of a request, a response or a cancellation is read
/// as a value (the cancellation's token is checked); a subscription's body is
/// read and dropped; an Ack and the reserved headers carry none.
pub proof fn lemma_server_body_kinds(h: Header)
    ensures
        h is Publish ==> server_body_kind_of(h) == ServerBodyKind::Bytes,
        h is Cancel ==> server_body_kind_of(h) == ServerBodyKind::Deserializer,
        h is Request ==> server_body_kind_of(h) == ServerBodyKind::Deserializer,
        h is Response ==> server_body_kind_of(h) == ServerBodyKind::Deserializer,
        (h is Subscribe || h is Unsubscribe) ==> server_body_kind_of(h) == ServerBodyKind::Ignored,
        (h is Ack || h is Produce || h is Consume || h is Ext) ==> server_body_kind_of(h)
            == ServerBodyKind::NoBody,
        server_body_kind_of(h) == ServerBodyKind::Bytes <==> h is Publish,
{
}

/// A genuine cancellation reaches the broker: after `Cancel(id)`, its body is
/// read as the token, and the token `cancellation_token(id)` sent by the client
/// gives `Cancel(id)`; any other body read from a cancellation is answered
/// with an error and cancels nothing.
pub proof fn lemma_cancellation_is_read(id: MessageId)
    ensures
        server_body_kind_of(Header::Cancel(id)) == ServerBodyKind::Deserializer,
        is_cancellation_of(id, cancellation_body(id)),
{
    lemma_cancellation_token_roundtrip(id, id);
}

} // verus!
