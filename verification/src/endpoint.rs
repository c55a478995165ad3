//! Endpoint resolution: joining a base address and a relative path.

use vstd::prelude::*;

verus! {

/// The resolved URL for a base address and a relative endpoint path: the
/// base, a single separating slash, then the path, with no normalization.
pub open spec fn spec_resolved(base: Seq<char>, endpoint: Seq<char>) -> Seq<char> {
    base + seq!['/'] + endpoint
}

/// Joins the given endpoint with the base URL.
///
/// Pure concatenation: `base + "/" + endpoint`. The endpoint is not
/// validated or escaped; a trailing slash on the base or a leading slash on
/// the endpoint passes through unchanged, so callers must supply well-formed
/// paths.
pub fn create_endpoint(base: &str, endpoint: &str) -> (url: String)
    ensures
        url@ == spec_resolved(base@, endpoint@),
{
    proof {
        reveal_strlit("/");
    }
    String::from_str(base).concat("/").concat(endpoint)
}

} // verus!
