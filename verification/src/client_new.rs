//! Type states of a client connection

use vstd::prelude::*;

verus! {

/// Type state of a client that is not connected yet
pub struct NotConnected {}

/// Type state of a connected client
pub struct Connected {}

} // verus!
