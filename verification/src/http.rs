//! How an HTTP response is judged.

use vstd::prelude::*;

verus! {

/// Whether an HTTP status counts as success: 200 up to 299.
pub open spec fn is_success(status: u16) -> bool {
    200 <= status < 300
}

/// Whether an HTTP status counts as success.
pub fn status_is_success(status: u16) -> (ok: bool)
    ensures
        ok == is_success(status),
{
    200 <= status && status < 300
}

} // verus!
