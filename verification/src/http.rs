//! HTTP response classification shared by the token and credentials requests.

use vstd::prelude::*;

verus! {

/// Whether an HTTP status code is a success (2xx).
pub fn status_is_success(code: u16) -> (res: bool)
    ensures
        res == (200 <= code && code <= 299),
{
    200 <= code && code <= 299
}

} // verus!
