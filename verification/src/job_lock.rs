//! Short-lived leases that keep two runs of one job kind apart.
use vstd::prelude::*;
use crate::api_error::{ApiError, ApiErrorKind};
use crate::time::{format_rfc3339, rfc3339_utc_text, UtcInstant};

verus! {

/// How long a lease lasts, in minutes.
pub const JOB_LOCK_TTL_MINUTES: i64 = 10;

/// Message of the error when the lease is held by another run.
pub const JOB_ALREADY_RUNNING: &'static str = "internal job already running for requested job_kind";

/// Lease metadata reported by the job status endpoint.
pub struct ActiveJobLock {
    pub owner_token: String,
    pub expires_at: String,
}

/// The times a lease is requested with.
pub struct JobLeaseWindow {
    pub acquired_at: String,
    pub expires_at: String,
}

/// A lease taken at `now` runs out `JOB_LOCK_TTL_MINUTES` minutes later, to
/// the nanosecond.
pub open spec fn lease_expiry(now: UtcInstant) -> UtcInstant {
    UtcInstant { secs: (now.secs + JOB_LOCK_TTL_MINUTES * 60) as i64, nanos: now.nanos }
}

/// Computes the acquisition and expiry texts of a lease taken at `now`.
/// `None` when `chrono` cannot render one of the two instants.
pub fn plan_job_lease(now: UtcInstant) -> (window: Option<JobLeaseWindow>)
    requires
        now.secs <= i64::MAX - JOB_LOCK_TTL_MINUTES * 60,
    ensures
        window is Some <==> (rfc3339_utc_text(now.secs as int, now.nanos as int) is Some
            && rfc3339_utc_text(lease_expiry(now).secs as int, now.nanos as int) is Some),
        window matches Some(w) ==> {
            &&& w.acquired_at@ == rfc3339_utc_text(now.secs as int, now.nanos as int)->0
            &&& w.expires_at@ == rfc3339_utc_text(lease_expiry(now).secs as int, now.nanos as int)->0
        },
{
    let expiry_secs = now.secs + JOB_LOCK_TTL_MINUTES * 60;
    let acquired_at = format_rfc3339(now.secs, now.nanos);
    let expires_at = format_rfc3339(expiry_secs, now.nanos);
    match (acquired_at, expires_at) {
        (Some(acquired_at), Some(expires_at)) => Some(JobLeaseWindow { acquired_at, expires_at }),
        _ => None,
    }
}

/// Turns the outcome of a lease request into the endpoint's answer: a lease
/// held by another run is a conflict.
pub fn lock_acquisition_outcome(acquired: bool) -> (res: Result<(), ApiError>)
    ensures
        res is Ok <==> acquired,
        res matches Err(e) ==> e.kind == ApiErrorKind::Conflict && e.message@ == JOB_ALREADY_RUNNING@,
{
    if acquired {
        Ok(())
    } else {
        Err(ApiError::conflict(JOB_ALREADY_RUNNING))
    }
}

} // verus!
