//! The default codec: it holds the two halves of a connection and writes each
//! message as a header frame followed by a body frame.

use std::marker::PhantomData;
use vstd::prelude::*;

use crate::error::{IoError, IoErrorKind};
use crate::message::MessageId;
use crate::transport::frame::{
    byte_of_payload_type, encode_frame, frame_bytes, frame_outcome, is_end_fields,
    lemma_frame_roundtrip, payload_too_long_msg, payload_type_of_byte, FrameHeader, END_FRAME_ID,
    FrameHeaderFields, FrameOutcome, PayloadType, HEADER_LEN,
};

verus! {

/// Type state for AsyncRead and AsyncWrite connections (ie. raw TCP)
pub struct ConnTypeReadWrite {}

/// Type state for PayloadRead and PayloadWrite connections (ie. WebSocket)
pub struct ConnTypePayload {}

/// Reserved type state for Reader/Writer for Codec
pub struct Reserved {}

/// Default codec: a reader, a writer and the type of connection they serve
pub struct Codec<R, W, C> {
    /// The reading half
    pub reader: R,
    /// The writing half
    pub writer: W,
    /// The type of connection
    pub conn_type: PhantomData<C>,
}

impl<R, W> Codec<R, W, ConnTypeReadWrite> {
    /// Creates a `Codec` with a reader and a writer
    pub fn with_reader_writer(reader: R, writer: W) -> (c: Self)
        ensures
            c.reader == reader,
            c.writer == writer,
    {
        Self { reader, writer, conn_type: PhantomData }
    }
}

impl<R, W, C> Codec<R, W, C> {
    /// Splits the codec into its writing half and its reading half
    pub fn split(self) -> (halves: (W, R))
        ensures
            halves.0 == self.writer,
            halves.1 == self.reader,
    {
        (self.writer, self.reader)
    }
}

/// The frame id of a message's header frame
pub const HEADER_FRAME_ID: u8 = 0;

/// The frame id of a message's body frame
pub const BODY_FRAME_ID: u8 = 1;

/// The fields of the frame that carries a message part of `len` bytes; the
/// length is cut to 32 bits, as such a frame is refused anyway
pub open spec fn part_fields(id: MessageId, frame_id: u8, t: PayloadType, len: nat) -> FrameHeaderFields {
    (id, frame_id, byte_of_payload_type(t), (len % 0x1_0000_0000) as u32)
}

/// The bytes written for one part of a message (its header or its body)
fn write_part(id: MessageId, frame_id: u8, t: PayloadType, buf: &[u8]) -> (r: Result<Vec<u8>, IoError>)
    ensures
        buf@.len() <= u32::MAX ==> (r matches Ok(v) && v@ == frame_bytes(
            part_fields(id, frame_id, t, buf@.len()),
            buf@,
        )),
        buf@.len() > u32::MAX ==> (r matches Err(e) && e.kind == IoErrorKind::InvalidData
            && e.message@ == payload_too_long_msg(buf@.len())),
{
    let len: u32 = ((buf.len() as u64) % 0x1_0000_0000u64) as u32;
    let h = FrameHeader::new(id, frame_id, t, len);
    encode_frame(&h, buf)
}

/// The bytes written for the (already serialized) header of message `id`
pub fn header_frame(id: MessageId, buf: &[u8]) -> (r: Result<Vec<u8>, IoError>)
    ensures
        buf@.len() <= u32::MAX ==> (r matches Ok(v) && v@ == frame_bytes(
            part_fields(id, HEADER_FRAME_ID, PayloadType::Header, buf@.len()),
            buf@,
        )),
        buf@.len() > u32::MAX ==> (r matches Err(e) && e.kind == IoErrorKind::InvalidData
            && e.message@ == payload_too_long_msg(buf@.len())),
{
    write_part(id, HEADER_FRAME_ID, PayloadType::Header, buf)
}

/// The bytes written for the (already serialized) body of message `id`
pub fn body_frame(id: MessageId, buf: &[u8]) -> (r: Result<Vec<u8>, IoError>)
    ensures
        buf@.len() <= u32::MAX ==> (r matches Ok(v) && v@ == frame_bytes(
            part_fields(id, BODY_FRAME_ID, PayloadType::Data, buf@.len()),
            buf@,
        )),
        buf@.len() > u32::MAX ==> (r matches Err(e) && e.kind == IoErrorKind::InvalidData
            && e.message@ == payload_too_long_msg(buf@.len())),
{
    write_part(id, BODY_FRAME_ID, PayloadType::Data, buf)
}

/// A message part written by the codec is read back by the codec: the frame
/// carries the message id, the frame id and the payload type of the part, and
/// exactly its bytes; what follows in the stream is left for the next read.
pub proof fn lemma_part_roundtrip(
    id: MessageId,
    frame_id: u8,
    t: PayloadType,
    buf: Seq<u8>,
    rest: Seq<u8>,
)
    requires
        buf.len() <= u32::MAX,
        frame_id != END_FRAME_ID,
    ensures
        frame_outcome(frame_bytes(part_fields(id, frame_id, t, buf.len()), buf) + rest)
            == FrameOutcome::Frame(
            part_fields(id, frame_id, t, buf.len()),
            buf,
            (1 + HEADER_LEN + buf.len()) as nat,
        ),
        payload_type_of_byte(part_fields(id, frame_id, t, buf.len()).2) == t,
{
    let h = part_fields(id, frame_id, t, buf.len());
    assert(h.3 == buf.len());
    assert(!is_end_fields(h));
    lemma_frame_roundtrip(h, buf, rest);
}

} // verus!
