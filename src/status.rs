use vstd::prelude::*;

verus! {

/// A 4xx status: the client's request was refused.
pub open spec fn is_client_error(code: u16) -> bool {
    400 <= code < 500
}

/// A 5xx status: the server failed.
pub open spec fn is_server_error(code: u16) -> bool {
    500 <= code < 600
}

/// A status that ends the run as a failure: a client or a server error.
pub open spec fn is_failure(code: u16) -> bool {
    is_client_error(code) || is_server_error(code)
}

/// Whether a response with status `code` is a failure, so that its body is
/// reported as the error and nothing is saved.
pub fn is_failure_status(code: u16) -> (r: bool)
    ensures
        r == is_failure(code),
{
    (400 <= code && code < 500) || (500 <= code && code < 600)
}

} // verus!
