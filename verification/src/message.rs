//! Message ids and the metadata trait shared by all message headers.

use vstd::prelude::*;

use crate::numeral::{decimal, push_decimal, push_str, string_from_chars};

verus! {

/// Type of message id is u16
pub type MessageId = u16;

/// Returning the metadata
pub trait Metadata {
    /// Gets the id from the metadata
    fn get_id(&self) -> MessageId;
}


/// The Error message that will be sent over for a error response
#[derive(Debug, Clone)]
pub enum ErrorMessage {
    /// The supplied argument is invalid
    InvalidArgument,
    /// The requested service is not registered
    ServiceNotFound,
    /// The requested method is not found on the service
    MethodNotFound,
    /// The method returned an error, with its text
    ExecutionError(String),
}


/// The id handed out after `c`: counters of message ids wrap around
pub open spec fn next_message_id(c: MessageId) -> MessageId {
    if c == u16::MAX {
        0
    } else {
        (c + 1) as u16
    }
}

/// The id handed out after `n` more allocations starting at `c`
pub open spec fn nth_message_id(c: MessageId, n: nat) -> MessageId
    decreases n,
{
    if n == 0 {
        c
    } else {
        next_message_id(nth_message_id(c, (n - 1) as nat))
    }
}

proof fn lemma_nth_message_id(c: MessageId, n: nat)
    ensures
        nth_message_id(c, n) == (c + n) % 65536,
    decreases n,
{
    if n > 0 {
        lemma_nth_message_id(c, (n - 1) as nat);
        let p = (c + n - 1) % 65536;
        assert(p == nth_message_id(c, (n - 1) as nat));
        if p == 65535 {
            assert((c + n) % 65536 == 0) by {
                vstd::arithmetic::div_mod::lemma_add_mod_noop(c + n - 1, 1, 65536);
            }
        } else {
            assert((c + n) % 65536 == p + 1) by {
                vstd::arithmetic::div_mod::lemma_add_mod_noop(c + n - 1, 1, 65536);
            }
        }
    }
}

/// Message ids handed out by fewer than 65536 consecutive allocations are
/// pairwise distinct: no two requests in flight at once share an id unless
/// the counter wrapped around.
pub proof fn lemma_message_ids_distinct(c: MessageId, i: nat, j: nat)
    requires
        i < j < 65536,
    ensures
        nth_message_id(c, i) != nth_message_id(c, j),
{
    lemma_nth_message_id(c, i);
    lemma_nth_message_id(c, j);
    if (c + i) % 65536 == (c + j) % 65536 {
        vstd::arithmetic::div_mod::lemma_fundamental_div_mod(c + i, 65536);
        vstd::arithmetic::div_mod::lemma_fundamental_div_mod(c + j, 65536);
        assert(65536 * ((c + j) / 65536 - (c + i) / 65536) == j - i);
        assert(false) by (nonlinear_arith)
            requires
                65536 * ((c + j) / 65536 - (c + i) / 65536) == j - i,
                0 < j - i < 65536,
        ;
    }
}

/// Token indicating a cancellation request
pub const CANCELLATION_TOKEN: &'static str = "RPC_TASK_CANCELLATION";

/// Delimiter between the cancellation token and the id of the canceled request
pub const CANCELLATION_TOKEN_DELIM: &'static str = ".";

/// The text of the cancellation token
pub open spec fn cancellation_token_base() -> Seq<char> {
    "RPC_TASK_CANCELLATION"@
}

/// The body of the cancellation of request `id`: the token, the delimiter and
/// the id in decimal
pub open spec fn cancellation_body(id: MessageId) -> Seq<char> {
    cancellation_token_base() + "."@ + decimal(id as nat)
}

/// The body sent to cancel request `id`
pub fn cancellation_token(id: MessageId) -> (s: String)
    ensures
        s@ == cancellation_body(id),
{
    let mut out: Vec<char> = Vec::new();
    push_str("RPC_TASK_CANCELLATION", &mut out);
    push_str(".", &mut out);
    push_decimal(id as u64, &mut out);
    assert(out@ =~= cancellation_body(id));
    string_from_chars(&out)
}

} // verus!
