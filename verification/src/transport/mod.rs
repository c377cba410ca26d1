//! Custom binary transport and WebSocket integration

use vstd::prelude::*;

use crate::error::{error_text, Error, IoError, IoErrorKind};

pub mod frame;
pub mod ws;

verus! {

/// Wraps an error of this crate as an I/O error of kind `Other` that carries
/// the error's text
pub fn as_io_err_other(err: &Error) -> (e: IoError)
    ensures
        e.kind == IoErrorKind::Other,
        e.message@ == error_text(*err),
{
    let msg = err.to_text();
    IoError::new(IoErrorKind::Other, msg)
}

} // verus!
