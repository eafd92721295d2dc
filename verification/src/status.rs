//! The status endpoint the application polls.

use vstd::prelude::*;

verus! {

/// The fixed local endpoint whose body the status command returns verbatim.
pub fn status_url() -> (r: String)
    ensures
        r@ == "http://localhost:8000/status"@,
{
    String::from_str("http://localhost:8000/status")
}

} // verus!
