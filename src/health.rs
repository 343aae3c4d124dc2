//! The health check answer.
use vstd::prelude::*;
use vstd::string::StringExecFns;

verus! {

/// Body of the health check.
#[derive(Debug)]
pub struct HealthResponse {
    pub status: String,
}

/// The service is up: its status reads "healthy".
pub fn health() -> (r: HealthResponse)
    ensures
        r.status@ == "healthy"@,
{
    HealthResponse { status: String::from_str("healthy") }
}

} // verus!
