//! Liveness and readiness reports.
use vstd::prelude::*;
use vstd::string::*;
use crate::time::{instant_in_range, now, rfc3339_text, Timestamp};

verus! {

/// Answer of the liveness probe.
#[derive(Debug)]
pub struct LivenessResponse {
    pub status: String,
}

/// State of each part of the service.
#[derive(Debug)]
pub struct ReadinessServices {
    pub api: String,
    pub database: String,
}

/// Answer of the readiness probe.
#[derive(Debug)]
pub struct ReadinessResponse {
    pub status: String,
    pub timestamp: String,
    pub services: ReadinessServices,
    /// Why the database check failed, when it did.
    pub error: Option<String>,
}

/// The process is alive.
pub fn liveness() -> (r: LivenessResponse)
    ensures
        r.status@ == "ok"@,
{
    LivenessResponse { status: String::from_str("ok") }
}

/// The readiness report at instant `at` for the outcome of the database check:
/// `200` and "ready" when it passed, `503` and "not_ready" with its error
/// when it failed.
pub open spec fn readiness_report(at: (int, int), probe: Result<(), String>, r: (u16, ReadinessResponse)) -> bool {
    &&& r.1.timestamp@ == rfc3339_text(at.0, at.1)
    &&& r.1.services.api@ == "ok"@
    &&& match probe {
        Ok(()) => r.0 == 200 && r.1.status@ == "ready"@ && r.1.services.database@ == "ok"@ && r.1.error is None,
        Err(m) => r.0 == 503 && r.1.status@ == "not_ready"@ && r.1.services.database@ == "error"@
            && r.1.error == Some(m),
    }
}

/// The readiness report at a given instant, with the status code to answer with.
pub fn readiness_at(at: Timestamp, probe: Result<(), String>) -> (r: (u16, ReadinessResponse))
    ensures
        readiness_report(at@, probe, r),
{
    let timestamp = at.to_rfc3339();
    let api = String::from_str("ok");
    match probe {
        Ok(()) => (200, ReadinessResponse {
            status: String::from_str("ready"),
            timestamp,
            services: ReadinessServices { api, database: String::from_str("ok") },
            error: None,
        }),
        Err(m) => (503, ReadinessResponse {
            status: String::from_str("not_ready"),
            timestamp,
            services: ReadinessServices { api, database: String::from_str("error") },
            error: Some(m),
        }),
    }
}

/// The readiness report now: the same report, stamped with the current time.
pub fn readiness(probe: Result<(), String>) -> (r: (u16, ReadinessResponse))
    ensures
        exists|at: (int, int)| instant_in_range(at.0, at.1) && #[trigger] readiness_report(at, probe, r),
{
    let at = now();
    at.check_range();
    let r = readiness_at(at, probe);
    assert(readiness_report(at@, probe, r));
    r
}

} // verus!
