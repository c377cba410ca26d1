//! A custom framed binary transport
//!
//! A frame on the wire is the magic byte, an 8-byte header and the payload.
//! The header holds, in this order and little-endian with fixed widths,
//! the message id (2 bytes), the frame id (1 byte), the payload type
//! (1 byte) and the payload length (4 bytes).

use vstd::prelude::*;

use crate::error::{Error, IoError, IoErrorKind};
use crate::message::MessageId;
use crate::numeral::{decimal, push_decimal, push_str, string_from_chars};
use super::as_io_err_other;

verus! {

/// Id of a frame within a message
pub type FrameId = u8;

/// Length of a payload in bytes
pub type PayloadLen = u32;

/// The byte that starts every frame
pub const MAGIC: u8 = 13;

/// Frame id of the frame that ends a connection
pub const END_FRAME_ID: FrameId = 131;

/// Length in bytes of an encoded frame header
pub const HEADER_LEN: usize = 8;

/// Little-endian bytes of a `u16`
pub open spec fn u16_le_bytes(v: u16) -> Seq<u8> {
    seq![(v % 256) as u8, (v / 256) as u8]
}

/// Little-endian bytes of a `u32`
pub open spec fn u32_le_bytes(v: u32) -> Seq<u8> {
    seq![(v % 256) as u8, ((v / 256) % 256) as u8, ((v / 65536) % 256) as u8, (v / 16777216) as u8]
}

/// The `u16` whose little-endian bytes are `b0, b1`
pub open spec fn u16_from_le(b0: u8, b1: u8) -> u16 {
    (b0 + 256 * b1) as u16
}

/// The `u32` whose little-endian bytes are `b0, b1, b2, b3`
pub open spec fn u32_from_le(b0: u8, b1: u8, b2: u8, b3: u8) -> u32 {
    (b0 + 256 * b1 + 65536 * b2 + 16777216 * b3) as u32
}

/// Header of a frame
#[derive(Debug, Clone)]
pub struct FrameHeader {
    message_id: MessageId,
    frame_id: FrameId,
    payload_type: u8,  // this is not used for now
    payload_len: PayloadLen,
}

/// The fields of a frame header: message id, frame id, payload type, payload length
pub type FrameHeaderFields = (MessageId, FrameId, u8, PayloadLen);

impl View for FrameHeader {
    type V = FrameHeaderFields;

    closed spec fn view(&self) -> FrameHeaderFields {
        (self.message_id, self.frame_id, self.payload_type, self.payload_len)
    }
}

/// The bytes of a frame header with the given fields
pub open spec fn header_bytes(h: FrameHeaderFields) -> Seq<u8> {
    u16_le_bytes(h.0) + seq![h.1, h.2] + u32_le_bytes(h.3)
}

/// The fields read from exactly eight header bytes
pub open spec fn header_fields_of(b: Seq<u8>) -> FrameHeaderFields {
    (u16_from_le(b[0], b[1]), b[2], b[3], u32_from_le(b[4], b[5], b[6], b[7]))
}

/// Message of the parse error for a header buffer that is too short
pub open spec fn short_header_msg() -> Seq<char> {
    "io error: unexpected end of file"@
}

/// Message of the parse error for a header buffer that is too long
pub open spec fn long_header_msg() -> Seq<char> {
    "Slice had bytes remaining after deserialization"@
}

/// Type of payload carried by a frame
#[derive(Debug, Clone, Copy, PartialEq, Eq, Structural)]
pub enum PayloadType {
    /// Message header
    Header,
    /// Message body
    Data,
    /// Message trailer
    Trailer,
}

/// The payload type that a byte stands for; every byte above 2 stands for `Trailer`
pub open spec fn payload_type_of_byte(t: u8) -> PayloadType {
    if t == 0 {
        PayloadType::Header
    } else if t == 1 {
        PayloadType::Data
    } else {
        PayloadType::Trailer
    }
}

/// The byte that stands for a payload type
pub open spec fn byte_of_payload_type(t: PayloadType) -> u8 {
    match t {
        PayloadType::Header => 0,
        PayloadType::Data => 1,
        PayloadType::Trailer => 2,
    }
}

impl PayloadType {
    /// The payload type that a byte stands for
    pub fn from_byte(t: u8) -> (r: PayloadType)
        ensures
            r == payload_type_of_byte(t),
    {
        match t {
            0 => PayloadType::Header,
            1 => PayloadType::Data,
            2 => PayloadType::Trailer,
            _ => PayloadType::Trailer,
        }
    }

    /// The byte that stands for this payload type
    pub fn to_byte(self) -> (r: u8)
        ensures
            r == byte_of_payload_type(self),
    {
        match self {
            PayloadType::Header => 0,
            PayloadType::Data => 1,
            PayloadType::Trailer => 2,
        }
    }
}

impl From<u8> for PayloadType {
    fn from(t: u8) -> (r: Self)
        ensures
            r == payload_type_of_byte(t),
    {
        PayloadType::from_byte(t)
    }
}

impl vstd::std_specs::convert::FromSpecImpl<u8> for PayloadType {
    open spec fn obeys_from_spec() -> bool {
        true
    }

    open spec fn from_spec(t: u8) -> Self {
        payload_type_of_byte(t)
    }
}

impl From<PayloadType> for u8 {
    fn from(t: PayloadType) -> (r: Self)
        ensures
            r == byte_of_payload_type(t),
    {
        t.to_byte()
    }
}

impl vstd::std_specs::convert::FromSpecImpl<PayloadType> for u8 {
    open spec fn obeys_from_spec() -> bool {
        true
    }

    open spec fn from_spec(t: PayloadType) -> Self {
        byte_of_payload_type(t)
    }
}

/// Converting a payload type to its byte and back gives the same payload type.
pub proof fn lemma_payload_type_byte_roundtrip(t: PayloadType)
    ensures
        payload_type_of_byte(byte_of_payload_type(t)) == t,
{
}

/// Converting a byte to a payload type and back gives the byte when it is at
/// most 2, and 2 otherwise.
pub proof fn lemma_byte_payload_type_roundtrip(b: u8)
    ensures
        byte_of_payload_type(payload_type_of_byte(b)) == (if b <= 2 { b } else { 2u8 }),
{
}

proof fn lemma_u16_le_roundtrip(v: u16)
    ensures
        u16_from_le(u16_le_bytes(v)[0], u16_le_bytes(v)[1]) == v,
{
}

proof fn lemma_u32_le_roundtrip(v: u32)
    ensures
        u32_from_le(u32_le_bytes(v)[0], u32_le_bytes(v)[1], u32_le_bytes(v)[2], u32_le_bytes(v)[3])
            == v,
{
}

/// Encoding header fields and reading them back gives the same fields.
pub proof fn lemma_header_fields_roundtrip(h: FrameHeaderFields)
    ensures
        header_bytes(h).len() == HEADER_LEN,
        header_fields_of(header_bytes(h)) == h,
{
    lemma_u16_le_roundtrip(h.0);
    lemma_u32_le_roundtrip(h.3);
}

/// Reading fields from eight bytes and encoding them again gives the same bytes.
pub proof fn lemma_header_bytes_roundtrip(b: Seq<u8>)
    requires
        b.len() == HEADER_LEN,
    ensures
        header_bytes(header_fields_of(b)) == b,
{
    let h = header_fields_of(b);
    lemma_u16_from_le_bytes(b[0], b[1]);
    lemma_u32_from_le_bytes(b[4], b[5], b[6], b[7]);
    assert(header_bytes(h) =~= b);
}

proof fn lemma_u16_from_le_bytes(b0: u8, b1: u8)
    ensures
        u16_le_bytes(u16_from_le(b0, b1)) == seq![b0, b1],
{
    let v = b0 + 256 * b1;
    assert(v % 256 == b0 && v / 256 == b1) by (nonlinear_arith)
        requires
            v == b0 + 256 * b1,
            0 <= b0 < 256,
            0 <= b1 < 256,
    ;
    assert(u16_le_bytes(u16_from_le(b0, b1)) =~= seq![b0, b1]);
}

proof fn lemma_u32_from_le_bytes(b0: u8, b1: u8, b2: u8, b3: u8)
    ensures
        u32_le_bytes(u32_from_le(b0, b1, b2, b3)) == seq![b0, b1, b2, b3],
{
    let v = b0 + 256 * b1 + 65536 * b2 + 16777216 * b3;
    assert(v % 256 == b0 && (v / 256) % 256 == b1 && (v / 65536) % 256 == b2 && v / 16777216
        == b3) by (nonlinear_arith)
        requires
            v == b0 + 256 * b1 + 65536 * b2 + 16777216 * b3,
            0 <= b0 < 256,
            0 <= b1 < 256,
            0 <= b2 < 256,
            0 <= b3 < 256,
    ;
    assert(u32_le_bytes(u32_from_le(b0, b1, b2, b3)) =~= seq![b0, b1, b2, b3]);
}


/// Message of the error for a frame that does not start with the magic byte
pub const INVALID_PROTOCOL: &'static str = "Magic byte mismatch.\rClient may be using a different protocol or version.\rClient of version <0.5.0 is not compatible with Server of version >0.5.0";

impl FrameHeader {
    /// Constructs a new frame header
    pub fn new(
        message_id: MessageId,
        frame_id: FrameId,
        payload_type: PayloadType,
        payload_len: PayloadLen,
    ) -> (h: Self)
        ensures
            h@ == (message_id, frame_id, byte_of_payload_type(payload_type), payload_len),
    {
        Self { message_id, frame_id, payload_type: payload_type.to_byte(), payload_len }
    }

    /// Message id of the frame
    pub fn message_id(&self) -> (r: MessageId)
        ensures
            r == self@.0,
    {
        self.message_id
    }

    /// Frame id of the frame
    pub fn frame_id(&self) -> (r: FrameId)
        ensures
            r == self@.1,
    {
        self.frame_id
    }

    /// Payload type byte of the frame
    pub fn payload_type(&self) -> (r: u8)
        ensures
            r == self@.2,
    {
        self.payload_type
    }

    /// Payload length of the frame
    pub fn payload_len(&self) -> (r: PayloadLen)
        ensures
            r == self@.3,
    {
        self.payload_len
    }

    /// Constructs a new frame header from bytes
    ///
    /// Exactly eight bytes are read; a shorter or a longer buffer is refused
    /// with a parse error.
    pub fn from_slice(buf: &[u8]) -> (r: Result<Self, Error>)
        ensures
            buf@.len() == HEADER_LEN ==> (r matches Ok(h) && h@ == header_fields_of(buf@)),
            buf@.len() < HEADER_LEN ==> (r matches Err(Error::ParseError(m)) && m@ == short_header_msg()),
            buf@.len() > HEADER_LEN ==> (r matches Err(Error::ParseError(m)) && m@ == long_header_msg()),
    {
        if buf.len() < HEADER_LEN {
            return Err(Error::ParseError(String::from_str("io error: unexpected end of file")));
        }
        let message_id: u16 = (buf[0] as u16) + (buf[1] as u16) * 256;
        let payload_len: u32 = (buf[4] as u32) + (buf[5] as u32) * 256 + (buf[6] as u32) * 65536
            + (buf[7] as u32) * 16777216;
        if buf.len() > HEADER_LEN {
            return Err(
                Error::ParseError(String::from_str("Slice had bytes remaining after deserialization")),
            );
        }
        Ok(Self { message_id, frame_id: buf[2], payload_type: buf[3], payload_len })
    }

    /// Convert a frame header to bytes
    pub fn to_vec(&self) -> (r: Result<Vec<u8>, IoError>)
        ensures
            r matches Ok(v) && v@ == header_bytes(self@),
    {
        let mut v: Vec<u8> = Vec::new();
        v.push((self.message_id % 256) as u8);
        v.push((self.message_id / 256) as u8);
        v.push(self.frame_id);
        v.push(self.payload_type);
        v.push((self.payload_len % 256) as u8);
        v.push(((self.payload_len / 256) % 256) as u8);
        v.push(((self.payload_len / 65536) % 256) as u8);
        v.push((self.payload_len / 16777216) as u8);
        assert(v@ =~= header_bytes(self@));
        Ok(v)
    }

    /// Whether this header marks the end of the connection: a trailer with
    /// message id 0, the end frame id and an empty payload
    pub fn is_end_frame(&self) -> (r: bool)
        ensures
            r == is_end_fields(self@),
    {
        let t = PayloadType::from_byte(self.payload_type);
        match t {
            PayloadType::Trailer => self.frame_id == END_FRAME_ID && self.message_id == 0
                && self.payload_len == 0,
            _ => false,
        }
    }
}

impl Default for FrameHeader {
    fn default() -> (h: Self)
        ensures
            h@ == (0u16, 0u8, 0u8, 0u32),
    {
        Self { message_id: 0, frame_id: 0, payload_type: 0, payload_len: 0 }
    }
}

impl Default for PayloadType {
    fn default() -> (t: Self)
        ensures
            t == PayloadType::Header,
    {
        PayloadType::Header
    }
}

/// Whether header fields mark the end of the connection
pub open spec fn is_end_fields(h: FrameHeaderFields) -> bool {
    &&& payload_type_of_byte(h.2) == PayloadType::Trailer
    &&& h.1 == END_FRAME_ID
    &&& h.0 == 0
    &&& h.3 == 0
}

/// The header sent to close a connection: a trailer with message id 0,
/// `END_FRAME_ID` and an empty payload
pub fn end_frame_header() -> (h: FrameHeader)
    ensures
        h@ == (0u16, END_FRAME_ID, 2u8, 0u32),
        is_end_fields(h@),
{
    FrameHeader::new(0, END_FRAME_ID, PayloadType::Trailer, 0)
}


/// Frame
#[derive(Debug)]
pub struct Frame {
    /// Message id
    pub message_id: MessageId,
    /// (RESERVED) Frame id, this is a separate id reserved for multi-frame transport
    pub frame_id: FrameId,
    /// Type of the payload
    pub payload_type: PayloadType,
    /// Payload
    pub payload: Vec<u8>,
}

impl Frame {
    /// Constructs a new frame
    pub fn new(
        message_id: MessageId,
        frame_id: FrameId,
        payload_type: PayloadType,
        payload: Vec<u8>,
    ) -> (f: Self)
        ensures
            f.message_id == message_id,
            f.frame_id == frame_id,
            f.payload_type == payload_type,
            f.payload@ == payload@,
    {
        Self { message_id, frame_id, payload_type, payload }
    }
}

/// The bytes of a whole frame: the magic byte, the header and the payload
pub open spec fn frame_bytes(h: FrameHeaderFields, payload: Seq<u8>) -> Seq<u8> {
    seq![MAGIC] + header_bytes(h) + payload
}

/// Text of the error for a payload longer than a frame can carry
pub open spec fn payload_too_long_msg(len: nat) -> Seq<char> {
    "Payload length exceeded maximum. Max is "@ + decimal(u32::MAX as nat) + ", found "@ + decimal(
        len,
    )
}

/// The bytes written for a frame with the given header and payload.
///
/// A payload longer than `u32::MAX` bytes is refused with an `InvalidData`
/// error, as the length would not fit in the header.
pub fn encode_frame(frame_header: &FrameHeader, payload: &[u8]) -> (r: Result<Vec<u8>, IoError>)
    ensures
        payload@.len() <= u32::MAX ==> (r matches Ok(v) && v@ == frame_bytes(
            frame_header@,
            payload@,
        )),
        payload@.len() > u32::MAX ==> (r matches Err(e) && e.kind == IoErrorKind::InvalidData
            && e.message@ == payload_too_long_msg(payload@.len())),
{
    if payload.len() > 4294967295usize {
        let mut out: Vec<char> = Vec::new();
        push_str("Payload length exceeded maximum. Max is ", &mut out);
        push_decimal(4294967295u64, &mut out);
        push_str(", found ", &mut out);
        push_decimal(payload.len() as u64, &mut out);
        assert(out@ =~= payload_too_long_msg(payload@.len()));
        return Err(IoError::new(IoErrorKind::InvalidData, string_from_chars(&out)));
    }
    let mut bytes: Vec<u8> = Vec::new();
    bytes.push(MAGIC);
    let mut header = match frame_header.to_vec() {
        Ok(h) => h,
        Err(e) => return Err(e),
    };
    bytes.append(&mut header);
    let mut i: usize = 0;
    while i < payload.len()
        invariant
            i <= payload@.len(),
            bytes@ == seq![MAGIC] + header_bytes(frame_header@) + payload@.take(i as int),
        decreases payload@.len() - i,
    {
        bytes.push(payload[i]);
        i = i + 1;
        assert(payload@.take(i as int) =~= payload@.take(i - 1).push(payload@[i - 1]));
    }
    assert(payload@.take(i as int) =~= payload@);
    Ok(bytes)
}

/// The error for a frame that does not start with the magic byte
pub open spec fn is_invalid_protocol_error(e: IoError) -> bool {
    e.kind == IoErrorKind::InvalidData && e.message@ == INVALID_PROTOCOL@
}

/// Checks the first byte of a frame
pub fn check_magic(magic: u8) -> (r: Result<(), IoError>)
    ensures
        magic == MAGIC <==> r is Ok,
        r matches Err(e) ==> is_invalid_protocol_error(e),
{
    if magic != MAGIC {
        return Err(IoError::new(IoErrorKind::InvalidData, String::from_str(INVALID_PROTOCOL)));
    }
    Ok(())
}

/// A frame made from a header and the payload read after it
pub fn frame_from_header(header: &FrameHeader, payload: Vec<u8>) -> (f: Frame)
    ensures
        f.message_id == header@.0,
        f.frame_id == header@.1,
        f.payload_type == payload_type_of_byte(header@.2),
        f.payload@ == payload@,
{
    Frame::new(
        header.message_id(),
        header.frame_id(),
        PayloadType::from_byte(header.payload_type()),
        payload,
    )
}

/// What reading one frame from a byte stream gives
pub enum FrameOutcome {
    /// The stream ended: it ran out of bytes, or it carried the end frame
    Closed,
    /// The stream does not start with the magic byte
    InvalidProtocol,
    /// A frame with these header fields and this payload, and the number of
    /// bytes it took
    Frame(FrameHeaderFields, Seq<u8>, nat),
}

/// What reading one frame from the start of `buf` gives, when `buf` is all
/// that the stream holds
pub open spec fn frame_outcome(buf: Seq<u8>) -> FrameOutcome {
    if buf.len() == 0 {
        FrameOutcome::Closed
    } else if buf[0] != MAGIC {
        FrameOutcome::InvalidProtocol
    } else if buf.len() < 1 + HEADER_LEN {
        FrameOutcome::Closed
    } else {
        let h = header_fields_of(buf.subrange(1, 1 + HEADER_LEN as int));
        if is_end_fields(h) {
            FrameOutcome::Closed
        } else if buf.len() < 1 + HEADER_LEN + h.3 {
            FrameOutcome::Closed
        } else {
            FrameOutcome::Frame(
                h,
                buf.subrange(1 + HEADER_LEN as int, 1 + HEADER_LEN + h.3),
                (1 + HEADER_LEN + h.3) as nat,
            )
        }
    }
}

/// Reads one frame from the start of `buf`, as reading from a stream that
/// holds exactly `buf` does: `None` when the stream ends (too few bytes, or the
/// end frame), an `InvalidData` error when the magic byte is wrong, and else
/// the frame and the number of bytes it took.
pub fn decode_frame(buf: &[u8]) -> (r: Option<Result<(Frame, usize), IoError>>)
    ensures
        match frame_outcome(buf@) {
            FrameOutcome::Closed => r is None,
            FrameOutcome::InvalidProtocol => r matches Some(Err(e)) && is_invalid_protocol_error(e),
            FrameOutcome::Frame(h, p, n) => r matches Some(Ok((f, k))) && f.message_id == h.0
                && f.frame_id == h.1 && f.payload_type == payload_type_of_byte(h.2) && f.payload@
                == p && k == n,
        },
{
    if buf.len() == 0 {
        return None;
    }
    if let Err(e) = check_magic(buf[0]) {
        return Some(Err(e));
    }
    if buf.len() < 1 + HEADER_LEN {
        return None;
    }
    let mut hbuf: Vec<u8> = Vec::new();
    let mut i: usize = 1;
    while i < 1 + HEADER_LEN
        invariant
            1 <= i <= 1 + HEADER_LEN,
            1 + HEADER_LEN <= buf@.len(),
            hbuf@ == buf@.subrange(1, i as int),
        decreases 1 + HEADER_LEN - i,
    {
        hbuf.push(buf[i]);
        i = i + 1;
        assert(buf@.subrange(1, i as int) =~= buf@.subrange(1, i - 1).push(buf@[i - 1]));
    }
    let header = match FrameHeader::from_slice(hbuf.as_slice()) {
        Ok(h) => h,
        Err(e) => {
            return Some(Err(as_io_err_other(&e)));
        },
    };
    if header.is_end_frame() {
        return None;
    }
    let len = header.payload_len() as usize;
    if buf.len() - (1 + HEADER_LEN) < len {
        return None;
    }
    let end = 1 + HEADER_LEN + len;
    let mut payload: Vec<u8> = Vec::new();
    let mut j: usize = 1 + HEADER_LEN;
    while j < end
        invariant
            1 + HEADER_LEN <= j <= end,
            end <= buf@.len(),
            payload@ == buf@.subrange(1 + HEADER_LEN as int, j as int),
        decreases end - j,
    {
        payload.push(buf[j]);
        j = j + 1;
        assert(buf@.subrange(1 + HEADER_LEN as int, j as int) =~= buf@.subrange(
            1 + HEADER_LEN as int,
            j - 1,
        ).push(buf@[j - 1]));
    }
    let frame = frame_from_header(&header, payload);
    Some(Ok((frame, end)))
}

/// How many more bytes reading one frame needs after the bytes `buf` read so
/// far from the start of a stream: first the magic byte, then the header, then
/// the payload; none once `buf` decides the frame, the end of the stream or the
/// refusal of the stream
pub open spec fn frame_bytes_wanted_spec(buf: Seq<u8>) -> nat {
    if buf.len() == 0 {
        1
    } else if buf[0] != MAGIC {
        0
    } else if buf.len() < 1 + HEADER_LEN {
        (1 + HEADER_LEN - buf.len()) as nat
    } else {
        let h = header_fields_of(buf.subrange(1, 1 + HEADER_LEN as int));
        if is_end_fields(h) {
            0
        } else if buf.len() < 1 + HEADER_LEN + h.3 {
            (1 + HEADER_LEN + h.3 - buf.len()) as nat
        } else {
            0
        }
    }
}

/// How many more bytes reading one frame needs after the bytes `buf` read so
/// far; once it is 0, `decode_frame(buf)` gives what the stream holds
pub fn frame_bytes_wanted(buf: &[u8]) -> (n: usize)
    ensures
        n == frame_bytes_wanted_spec(buf@),
{
    let len = buf.len();
    if len == 0 {
        return 1;
    }
    if buf[0] != MAGIC {
        return 0;
    }
    if len < 1 + HEADER_LEN {
        return 1 + HEADER_LEN - len;
    }
    let message_id: u16 = (buf[1] as u16) + (buf[2] as u16) * 256;
    let frame_id: u8 = buf[3];
    let payload_type: u8 = buf[4];
    let payload_len: u32 = (buf[5] as u32) + (buf[6] as u32) * 256 + (buf[7] as u32) * 65536
        + (buf[8] as u32) * 16777216;
    let ghost h = header_fields_of(buf@.subrange(1, 1 + HEADER_LEN as int));
    assert(h == (message_id, frame_id, payload_type, payload_len));
    let is_end = match PayloadType::from_byte(payload_type) {
        PayloadType::Trailer => frame_id == END_FRAME_ID && message_id == 0 && payload_len == 0,
        _ => false,
    };
    if is_end {
        return 0;
    }
    let got = len - (1 + HEADER_LEN);
    let plen = payload_len as usize;
    if got < plen {
        plen - got
    } else {
        0
    }
}

/// Once no more bytes are wanted, the bytes read decide what reading a frame
/// gives, whatever else the stream holds after them.
pub proof fn lemma_frame_decided(buf: Seq<u8>, stream: Seq<u8>)
    requires
        frame_bytes_wanted_spec(buf) == 0,
        buf.len() <= stream.len(),
        stream.subrange(0, buf.len() as int) == buf,
    ensures
        frame_outcome(stream) == frame_outcome(buf),
{
    assert(buf.len() > 0);
    assert(stream[0] == buf[0]);
    if buf[0] == MAGIC {
        assert(stream.subrange(1, 1 + HEADER_LEN as int) =~= buf.subrange(1, 1 + HEADER_LEN as int));
        let h = header_fields_of(buf.subrange(1, 1 + HEADER_LEN as int));
        if !is_end_fields(h) {
            assert(stream.subrange(1 + HEADER_LEN as int, 1 + HEADER_LEN + h.3) =~= buf.subrange(
                1 + HEADER_LEN as int,
                1 + HEADER_LEN + h.3,
            ));
        }
    }
}

/// A stream that ends before the wanted bytes arrive is closed: reading a
/// frame from it gives the end of the stream.
pub proof fn lemma_frame_cut_short(buf: Seq<u8>, stream: Seq<u8>)
    requires
        frame_bytes_wanted_spec(buf) > 0,
        buf.len() <= stream.len() < buf.len() + frame_bytes_wanted_spec(buf),
        stream.subrange(0, buf.len() as int) == buf,
    ensures
        frame_outcome(stream) == FrameOutcome::Closed,
{
    if buf.len() > 0 {
        assert(stream[0] == buf[0]);
        if buf.len() >= 1 + HEADER_LEN {
            assert(stream.subrange(1, 1 + HEADER_LEN as int) =~= buf.subrange(
                1,
                1 + HEADER_LEN as int,
            ));
        }
    }
}

/// A frame written with a header whose length field matches its payload is
/// read back as the same frame, taking exactly its own bytes, whatever follows
/// it; the end frame is read back as the end of the stream.
pub proof fn lemma_frame_roundtrip(h: FrameHeaderFields, payload: Seq<u8>, rest: Seq<u8>)
    requires
        h.3 == payload.len(),
    ensures
        is_end_fields(h) ==> frame_outcome(frame_bytes(h, payload) + rest) == FrameOutcome::Closed,
        !is_end_fields(h) ==> frame_outcome(frame_bytes(h, payload) + rest) == FrameOutcome::Frame(
            h,
            payload,
            (1 + HEADER_LEN + payload.len()) as nat,
        ),
{
    let buf = frame_bytes(h, payload) + rest;
    lemma_header_fields_roundtrip(h);
    assert(buf.subrange(1, 1 + HEADER_LEN as int) =~= header_bytes(h));
    assert(buf.subrange(1 + HEADER_LEN as int, 1 + HEADER_LEN + h.3) =~= payload);
}

/// The frame sent to close a connection ends the stream for the reader,
/// whatever follows it.
pub proof fn lemma_close_ends_stream(rest: Seq<u8>)
    ensures
        frame_outcome(frame_bytes((0u16, END_FRAME_ID, 2u8, 0u32), Seq::<u8>::empty()) + rest)
            == FrameOutcome::Closed,
{
    lemma_frame_roundtrip((0u16, END_FRAME_ID, 2u8, 0u32), Seq::<u8>::empty(), rest);
}

/// A stream whose first byte is not the magic byte is refused.
pub proof fn lemma_frame_wrong_magic(buf: Seq<u8>)
    requires
        buf.len() > 0,
        buf[0] != MAGIC,
    ensures
        frame_outcome(buf) == FrameOutcome::InvalidProtocol,
{
}

} // verus!
