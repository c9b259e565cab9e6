use vstd::prelude::*;
use vstd::string::StringExecFns;

verus! {

/// Outcome of request authentication: either the presented header carried
/// exactly the expected bearer credential, or the request is rejected.
pub enum AuthDecision {
    Allowed,
    Denied,
}

/// The exact `Authorization` header value that carries `credential` as a
/// bearer token.
pub open spec fn bearer_line(credential: Seq<char>) -> Seq<char> {
    "Bearer "@ + credential
}

/// Validates the raw `Authorization` header (absent, or its full value)
/// against the configured credential. Only a header byte-for-byte equal to
/// `"Bearer " + expected` is allowed; a missing header, a different scheme or
/// a different credential is denied. Authentication failure is never
/// transient, so it is never retried.
pub fn authenticate(presented: &Option<String>, expected: &str) -> (r: AuthDecision)
    ensures
        r is Allowed <==> (presented matches Some(h) && h@ == bearer_line(expected@)),
{
    match presented {
        None => AuthDecision::Denied,
        Some(h) => {
            let mut full = <String as StringExecFns>::from_str("Bearer ");
            full.append(expected);
            if h.eq(&full) {
                AuthDecision::Allowed
            } else {
                AuthDecision::Denied
            }
        },
    }
}

} // verus!
