//! The health endpoint's answer.

use vstd::prelude::*;

verus! {

/// The liveness answer the service returns unconditionally.
pub struct HealthResponse {
    status: String,
}

impl HealthResponse {
    /// The status word carried by this answer.
    pub closed spec fn spec_status(&self) -> Seq<char> {
        self.status@
    }

    /// The status word carried by this answer.
    pub fn status_text(&self) -> (r: &String)
        ensures
            r@ == self.spec_status(),
    {
        &self.status
    }
}

/// A healthy answer.
pub fn health_check() -> (r: HealthResponse)
    ensures
        r.spec_status() == "ok"@,
{
    HealthResponse { status: String::from_str("ok") }
}

} // verus!
