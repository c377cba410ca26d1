//! Custom errors

use vstd::prelude::*;

use crate::message::{ErrorMessage, MessageId};
use crate::numeral::{decimal, decimal_int, push_decimal, push_decimal_signed, push_str, string_from_chars};

verus! {

/// The kind of an I/O error, as far as this crate tells them apart.
#[derive(Debug, Clone, Copy, PartialEq, Eq, Structural)]
pub enum IoErrorKind {
    /// Data read from the transport is not valid for the protocol
    InvalidData,
    /// The transport ended before the expected number of bytes was read
    UnexpectedEof,
    /// Any other failure of the transport
    Other,
}

/// An error of the transport layer: its kind and its message.
#[derive(Debug, Clone)]
pub struct IoError {
    /// Kind of the error
    pub kind: IoErrorKind,
    /// Human readable message
    pub message: String,
}

impl IoError {
    /// Constructs an I/O error from a kind and a message
    pub fn new(kind: IoErrorKind, message: String) -> (e: IoError)
        ensures
            e.kind == kind,
            e.message@ == message@,
    {
        IoError { kind, message }
    }
}

/// Custom error type
#[derive(Debug, Clone)]
pub enum Error {
    /// Errors with IO including that from the transport layer.
    IoError(IoError),
    /// Errors with serialization/deserialization, with the parser's message
    ParseError(String),
    /// Errors with server or client, with a message
    Internal(String),
    /// The supplied argument for the function is invalid
    InvalidArgument,
    /// The specified service is not found on server side
    ServiceNotFound,
    /// The specified method is not found on the specified service
    MethodNotFound,
    /// Execution error returned by RPC method
    ExecutionError(String),
    /// Cancellation error when an RPC call is cancelled
    Canceled(MessageId),
    /// Timeout error when an RPC request timesout
    Timeout(MessageId),
    /// Maximum number of retries is reached before an Ack is received
    MaxRetriesReached(MessageId),
}


/// The name of an I/O error kind, as its `Debug` writes it
pub open spec fn io_kind_name(k: IoErrorKind) -> Seq<char> {
    match k {
        IoErrorKind::InvalidData => "InvalidData"@,
        IoErrorKind::UnexpectedEof => "UnexpectedEof"@,
        IoErrorKind::Other => "Other"@,
    }
}

/// What `Debug` writes for a string: the string quoted, with its special
/// characters escaped (`<str as Debug>::fmt`); it depends on the string alone
pub uninterp spec fn str_debug(s: Seq<char>) -> Seq<char>;

/// The text of an I/O error made of a kind and a message, as the `Debug` of
/// `std::io::Error::new(kind, message)` writes it, given the quoted message
pub open spec fn io_error_debug(kind: IoErrorKind, quoted_message: Seq<char>) -> Seq<char> {
    "Custom { kind: "@ + io_kind_name(kind) + ", error: "@ + quoted_message + " }"@
}

/// A string quoted and escaped as `Debug` writes it (`<str as Debug>::fmt`).
#[verifier::external_body]
pub(crate) fn debug_quoted(s: &str) -> (r: String)
    ensures
        r@ == str_debug(s@),
{
    format!("{:?}", s)
}

/// The text of an I/O error of this kind whose message, quoted and escaped,
/// is `quoted_message`
pub fn io_error_text(kind: IoErrorKind, quoted_message: &str) -> (s: String)
    ensures
        s@ == io_error_debug(kind, quoted_message@),
{
    let mut out: Vec<char> = Vec::new();
    push_str("Custom { kind: ", &mut out);
    match kind {
        IoErrorKind::InvalidData => push_str("InvalidData", &mut out),
        IoErrorKind::UnexpectedEof => push_str("UnexpectedEof", &mut out),
        IoErrorKind::Other => push_str("Other", &mut out),
    }
    push_str(", error: ", &mut out);
    push_str(quoted_message, &mut out);
    push_str(" }", &mut out);
    assert(out@ =~= io_error_debug(kind, quoted_message@));
    string_from_chars(&out)
}

/// The kinds of errors that can be sent to the other end of a connection
pub open spec fn is_sendable(e: Error) -> bool {
    e is InvalidArgument || e is ServiceNotFound || e is MethodNotFound || e is ExecutionError
}

/// The text of an error, as its `Display` writes it; an I/O error is written
/// as its `Debug` writes it
pub open spec fn error_text(e: Error) -> Seq<char> {
    match e {
        Error::IoError(io) => io_error_debug(io.kind, str_debug(io.message@)),
        Error::ParseError(m) => m@,
        Error::Internal(m) => "InternalError: "@ + m@,
        Error::InvalidArgument => "InvalidArgument"@,
        Error::ServiceNotFound => "ServiceNotFound"@,
        Error::MethodNotFound => "MethodNotFound"@,
        Error::ExecutionError(m) => m@,
        Error::Canceled(id) => "Request ("@ + decimal(id as nat) + ") is canceled"@,
        Error::Timeout(id) => "Request ("@ + decimal(id as nat) + ") reached timeout"@,
        Error::MaxRetriesReached(id) => "Maximum number of retries is reached for message "@
            + decimal(id as nat),
    }
}

/// The error that an error message received from the other end stands for
pub open spec fn error_of_message(msg: ErrorMessage) -> Error {
    match msg {
        ErrorMessage::InvalidArgument => Error::InvalidArgument,
        ErrorMessage::ServiceNotFound => Error::ServiceNotFound,
        ErrorMessage::MethodNotFound => Error::MethodNotFound,
        ErrorMessage::ExecutionError(s) => Error::ExecutionError(s),
    }
}

impl Error {
    /// Converts an error message received from the other end into an error
    pub fn from_err_msg(msg: ErrorMessage) -> (e: Self)
        ensures
            e == error_of_message(msg),
    {
        match msg {
            ErrorMessage::InvalidArgument => Self::InvalidArgument,
            ErrorMessage::ServiceNotFound => Self::ServiceNotFound,
            ErrorMessage::MethodNotFound => Self::MethodNotFound,
            ErrorMessage::ExecutionError(s) => Self::ExecutionError(s),
        }
    }

    /// The text of the error, as its `Display` writes it
    pub fn to_text(&self) -> (s: String)
        ensures
            s@ == error_text(*self),
    {
        let mut out: Vec<char> = Vec::new();
        match self {
            Error::IoError(io) => {
                let quoted = debug_quoted(io.message.as_str());
                let text = io_error_text(io.kind, quoted.as_str());
                push_str(text.as_str(), &mut out);
            },
            Error::ParseError(m) => {
                push_str(m.as_str(), &mut out);
            },
            Error::Internal(m) => {
                push_str("InternalError: ", &mut out);
                push_str(m.as_str(), &mut out);
            },
            Error::InvalidArgument => {
                push_str("InvalidArgument", &mut out);
            },
            Error::ServiceNotFound => {
                push_str("ServiceNotFound", &mut out);
            },
            Error::MethodNotFound => {
                push_str("MethodNotFound", &mut out);
            },
            Error::ExecutionError(m) => {
                push_str(m.as_str(), &mut out);
            },
            Error::Canceled(id) => {
                push_str("Request (", &mut out);
                push_decimal(*id as u64, &mut out);
                push_str(") is canceled", &mut out);
            },
            Error::Timeout(id) => {
                push_str("Request (", &mut out);
                push_decimal(*id as u64, &mut out);
                push_str(") reached timeout", &mut out);
            },
            Error::MaxRetriesReached(id) => {
                push_str("Maximum number of retries is reached for message ", &mut out);
                push_decimal(*id as u64, &mut out);
            },
        }
        let s = string_from_chars(&out);
        proof {
            match self {
                Error::IoError(io) => assert(out@ =~= io_error_debug(io.kind, str_debug(io.message@))),
                Error::ParseError(m) => assert(out@ =~= m@),
                Error::Internal(m) => assert(out@ =~= "InternalError: "@ + m@),
                Error::InvalidArgument => assert(out@ =~= "InvalidArgument"@),
                Error::ServiceNotFound => assert(out@ =~= "ServiceNotFound"@),
                Error::MethodNotFound => assert(out@ =~= "MethodNotFound"@),
                Error::ExecutionError(m) => assert(out@ =~= m@),
                Error::Canceled(id) => assert(out@ =~= "Request ("@ + decimal(*id as nat) + ") is canceled"@),
                Error::Timeout(id) => assert(out@ =~= "Request ("@ + decimal(*id as nat) + ") reached timeout"@),
                Error::MaxRetriesReached(id) => assert(out@ =~= "Maximum number of retries is reached for message "@ + decimal(*id as nat)),
            }
        }
        s
    }
}


impl ErrorMessage {
    /// Converts an error into the message sent to the other end; errors that
    /// cannot be sent are handed back
    pub fn from_err(err: Error) -> (r: Result<Self, Error>)
        ensures
            is_sendable(err) <==> r is Ok,
            r matches Ok(m) ==> error_of_message(m) == err,
            r matches Err(e) ==> e == err,
    {
        match err {
            Error::InvalidArgument => Ok(Self::InvalidArgument),
            Error::ServiceNotFound => Ok(Self::ServiceNotFound),
            Error::MethodNotFound => Ok(Self::MethodNotFound),
            Error::ExecutionError(s) => Ok(Self::ExecutionError(s)),
            e => Err(e),
        }
    }
}

/// An error message turned into an error and back into a message is the same
/// message: every error that a peer can send is one that can be sent, and
/// different messages give different errors, so `from_err` gives the message
/// back.
pub proof fn lemma_error_message_roundtrip(msg: ErrorMessage, other: ErrorMessage)
    ensures
        is_sendable(error_of_message(msg)),
        error_of_message(msg) == error_of_message(other) ==> msg == other,
{
}

/// An error that can be sent is the error of some message.
pub proof fn lemma_sendable_error_has_message(e: Error)
    requires
        is_sendable(e),
    ensures
        exists|m: ErrorMessage| error_of_message(m) == e,
{
    match e {
        Error::InvalidArgument => assert(error_of_message(ErrorMessage::InvalidArgument) == e),
        Error::ServiceNotFound => assert(error_of_message(ErrorMessage::ServiceNotFound) == e),
        Error::MethodNotFound => assert(error_of_message(ErrorMessage::MethodNotFound) == e),
        Error::ExecutionError(s) => assert(error_of_message(ErrorMessage::ExecutionError(s)) == e),
        _ => {},
    }
}

impl From<ErrorMessage> for Error {
    fn from(msg: ErrorMessage) -> (e: Self)
        ensures
            e == error_of_message(msg),
    {
        Self::from_err_msg(msg)
    }
}

impl vstd::std_specs::convert::FromSpecImpl<ErrorMessage> for Error {
    open spec fn obeys_from_spec() -> bool {
        true
    }

    open spec fn from_spec(msg: ErrorMessage) -> Self {
        error_of_message(msg)
    }
}

impl From<String> for Error {
    fn from(val: String) -> (e: Self)
        ensures
            e == Error::ExecutionError(val),
    {
        Self::ExecutionError(val)
    }
}

impl vstd::std_specs::convert::FromSpecImpl<String> for Error {
    open spec fn obeys_from_spec() -> bool {
        true
    }

    open spec fn from_spec(val: String) -> Self {
        Error::ExecutionError(val)
    }
}

impl vstd::std_specs::convert::FromSpecImpl<&str> for Error {
    /// The text of the error is a `String` built from the value, which no spec
    /// function can construct; what `from` returns is stated on `from` itself.
    open spec fn obeys_from_spec() -> bool {
        false
    }

    open spec fn from_spec(val: &str) -> Self {
        arbitrary()
    }
}

impl From<&str> for Error {
    fn from(val: &str) -> (e: Self)
        ensures
            e matches Error::ExecutionError(m) && m@ == val@,
    {
        Self::ExecutionError(String::from_str(val))
    }
}

impl vstd::std_specs::convert::FromSpecImpl<bool> for Error {
    /// The text of the error is a `String` built from the value, which no spec
    /// function can construct; what `from` returns is stated on `from` itself.
    open spec fn obeys_from_spec() -> bool {
        false
    }

    open spec fn from_spec(val: bool) -> Self {
        arbitrary()
    }
}

impl From<bool> for Error {
    fn from(val: bool) -> (e: Self)
        ensures
            e matches Error::ExecutionError(m) && m@ == (if val { "true"@ } else { "false"@ }),
    {
        if val {
            Self::ExecutionError(String::from_str("true"))
        } else {
            Self::ExecutionError(String::from_str("false"))
        }
    }
}

/// An execution error whose text is the decimal numeral of an unsigned value
fn execution_error_of_unsigned(val: u64) -> (e: Error)
    ensures
        e matches Error::ExecutionError(m) && m@ == decimal(val as nat),
{
    let mut out: Vec<char> = Vec::new();
    push_decimal(val, &mut out);
    assert(out@ =~= decimal(val as nat));
    Error::ExecutionError(string_from_chars(&out))
}

/// An execution error whose text is the decimal numeral of a signed value
fn execution_error_of_signed(val: i64) -> (e: Error)
    ensures
        e matches Error::ExecutionError(m) && m@ == decimal_int(val as int),
{
    let mut out: Vec<char> = Vec::new();
    push_decimal_signed(val, &mut out);
    assert(out@ =~= decimal_int(val as int));
    Error::ExecutionError(string_from_chars(&out))
}

impl vstd::std_specs::convert::FromSpecImpl<u8> for Error {
    /// The text of the error is a `String` built from the value, which no spec
    /// function can construct; what `from` returns is stated on `from` itself.
    open spec fn obeys_from_spec() -> bool {
        false
    }

    open spec fn from_spec(val: u8) -> Self {
        arbitrary()
    }
}

impl From<u8> for Error {
    fn from(val: u8) -> (e: Self)
        ensures
            e matches Error::ExecutionError(m) && m@ == decimal(val as nat),
    {
        execution_error_of_unsigned(val as u64)
    }
}

impl vstd::std_specs::convert::FromSpecImpl<u16> for Error {
    /// The text of the error is a `String` built from the value, which no spec
    /// function can construct; what `from` returns is stated on `from` itself.
    open spec fn obeys_from_spec() -> bool {
        false
    }

    open spec fn from_spec(val: u16) -> Self {
        arbitrary()
    }
}

impl From<u16> for Error {
    fn from(val: u16) -> (e: Self)
        ensures
            e matches Error::ExecutionError(m) && m@ == decimal(val as nat),
    {
        execution_error_of_unsigned(val as u64)
    }
}

impl vstd::std_specs::convert::FromSpecImpl<u32> for Error {
    /// The text of the error is a `String` built from the value, which no spec
    /// function can construct; what `from` returns is stated on `from` itself.
    open spec fn obeys_from_spec() -> bool {
        false
    }

    open spec fn from_spec(val: u32) -> Self {
        arbitrary()
    }
}

impl From<u32> for Error {
    fn from(val: u32) -> (e: Self)
        ensures
            e matches Error::ExecutionError(m) && m@ == decimal(val as nat),
    {
        execution_error_of_unsigned(val as u64)
    }
}

impl vstd::std_specs::convert::FromSpecImpl<u64> for Error {
    /// The text of the error is a `String` built from the value, which no spec
    /// function can construct; what `from` returns is stated on `from` itself.
    open spec fn obeys_from_spec() -> bool {
        false
    }

    open spec fn from_spec(val: u64) -> Self {
        arbitrary()
    }
}

impl From<u64> for Error {
    fn from(val: u64) -> (e: Self)
        ensures
            e matches Error::ExecutionError(m) && m@ == decimal(val as nat),
    {
        execution_error_of_unsigned(val)
    }
}

impl vstd::std_specs::convert::FromSpecImpl<i8> for Error {
    /// The text of the error is a `String` built from the value, which no spec
    /// function can construct; what `from` returns is stated on `from` itself.
    open spec fn obeys_from_spec() -> bool {
        false
    }

    open spec fn from_spec(val: i8) -> Self {
        arbitrary()
    }
}

impl From<i8> for Error {
    fn from(val: i8) -> (e: Self)
        ensures
            e matches Error::ExecutionError(m) && m@ == decimal_int(val as int),
    {
        execution_error_of_signed(val as i64)
    }
}

impl vstd::std_specs::convert::FromSpecImpl<i16> for Error {
    /// The text of the error is a `String` built from the value, which no spec
    /// function can construct; what `from` returns is stated on `from` itself.
    open spec fn obeys_from_spec() -> bool {
        false
    }

    open spec fn from_spec(val: i16) -> Self {
        arbitrary()
    }
}

impl From<i16> for Error {
    fn from(val: i16) -> (e: Self)
        ensures
            e matches Error::ExecutionError(m) && m@ == decimal_int(val as int),
    {
        execution_error_of_signed(val as i64)
    }
}

impl vstd::std_specs::convert::FromSpecImpl<i32> for Error {
    /// The text of the error is a `String` built from the value, which no spec
    /// function can construct; what `from` returns is stated on `from` itself.
    open spec fn obeys_from_spec() -> bool {
        false
    }

    open spec fn from_spec(val: i32) -> Self {
        arbitrary()
    }
}

impl From<i32> for Error {
    fn from(val: i32) -> (e: Self)
        ensures
            e matches Error::ExecutionError(m) && m@ == decimal_int(val as int),
    {
        execution_error_of_signed(val as i64)
    }
}

impl vstd::std_specs::convert::FromSpecImpl<i64> for Error {
    /// The text of the error is a `String` built from the value, which no spec
    /// function can construct; what `from` returns is stated on `from` itself.
    open spec fn obeys_from_spec() -> bool {
        false
    }

    open spec fn from_spec(val: i64) -> Self {
        arbitrary()
    }
}

impl From<i64> for Error {
    fn from(val: i64) -> (e: Self)
        ensures
            e matches Error::ExecutionError(m) && m@ == decimal_int(val as int),
    {
        execution_error_of_signed(val)
    }
}

} // verus!
