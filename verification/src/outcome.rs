//! The observable outcome of one HTTP exchange, as plain values.

use vstd::prelude::*;

verus! {

/// What one HTTP request to a server can come back with: a response with a
/// status code and a buffered body, or a transport failure (DNS, connect,
/// IO) described by a message.
pub enum HttpOutcome {
    Response { status: u16, body: String },
    TransportError { message: String },
}

/// An HTTP status code in the success range.
pub open spec fn is_success_status(status: u16) -> bool {
    200 <= status && status < 300
}

pub fn status_is_success(status: u16) -> (r: bool)
    ensures
        r == is_success_status(status),
{
    200 <= status && status < 300
}

} // verus!
