//! Internal job kinds accepted by the job endpoints.
use vstd::prelude::*;
use crate::api_error::{ApiError, ApiErrorKind};

verus! {

/// Job kind that recomputes every KPI family.
pub const JOB_KIND_RECOMPUTE_KPIS: &'static str = "recompute_kpis";

/// Job kind that rebuilds cohort rankings.
pub const JOB_KIND_BUILD_RANKINGS: &'static str = "build_rankings";

/// The job kinds the service accepts.
pub open spec fn is_supported_job_kind(kind: Seq<char>) -> bool {
    kind == "recompute_kpis"@ || kind == "build_rankings"@
}

/// The job kind a request names once normalized: a missing kind means
/// `recompute_kpis`; `None` for an unsupported kind.
pub open spec fn normalized_job_kind(requested: Option<Seq<char>>) -> Option<Seq<char>> {
    match requested {
        None => Some("recompute_kpis"@),
        Some(k) => if is_supported_job_kind(k) {
            Some(k)
        } else {
            None
        },
    }
}

/// The text of an optional string.
pub open spec fn opt_text(s: Option<String>) -> Option<Seq<char>> {
    match s {
        Some(t) => Some(t@),
        None => None,
    }
}

/// Normalizes a user-provided job kind: a missing kind means
/// `recompute_kpis`; a supported kind is returned unchanged; any other kind is
/// rejected as unprocessable.
pub fn normalize_job_kind(job_kind: Option<String>) -> (res: Result<String, ApiError>)
    ensures
        res is Ok <==> normalized_job_kind(opt_text(job_kind)) is Some,
        res matches Ok(r) ==> normalized_job_kind(opt_text(job_kind)) == Some(r@),
        job_kind is None ==> res is Ok && res->Ok_0@ == "recompute_kpis"@,
        job_kind matches Some(k) ==> (is_supported_job_kind(k@) <==> res is Ok),
        job_kind matches Some(k) ==> (res is Ok ==> res->Ok_0@ == k@),
        job_kind matches Some(k) ==> (res is Err ==> res->Err_0.kind == ApiErrorKind::Unprocessable
            && res->Err_0.message@ == "unsupported job_kind: "@ + k@),
{
    let job_kind = match job_kind {
        Some(k) => k,
        None => String::from_str(JOB_KIND_RECOMPUTE_KPIS),
    };
    let recompute = String::from_str(JOB_KIND_RECOMPUTE_KPIS);
    let rankings = String::from_str(JOB_KIND_BUILD_RANKINGS);
    if job_kind == recompute || job_kind == rankings {
        Ok(job_kind)
    } else {
        let message = String::from_str("unsupported job_kind: ").concat(job_kind.as_str());
        Err(ApiError::unprocessable(message))
    }
}

/// Normalizing is idempotent: a normalized kind normalizes to itself, and it
/// is always a supported kind.
pub proof fn lemma_normalize_job_kind_idempotent(requested: Option<Seq<char>>)
    ensures
        normalized_job_kind(requested) matches Some(r) ==> is_supported_job_kind(r)
            && normalized_job_kind(Some(r)) == Some(r),
{
}

} // verus!
