//! Bookkeeping rows of internal job runs.
use vstd::prelude::*;
use crate::backend::{backend_label, DatabaseBackend};
use crate::ids::{is_hyphenated_uuid_v4, new_uuid_v4_text};

verus! {

/// Status of a run that has started and not finished.
pub const JOB_RUN_RUNNING: &'static str = "running";

/// Status of a run that finished successfully.
pub const JOB_RUN_SUCCEEDED: &'static str = "succeeded";

/// Status of a run that failed.
pub const JOB_RUN_FAILED: &'static str = "failed";

/// Counters reported by a finished KPI job.
pub struct JobResponse {
    pub ok: bool,
    pub job_id: String,
    pub charging_sessions_upserted: usize,
    pub kpi_rows_upserted: usize,
    pub ranking_rows_upserted: usize,
    pub recomputed_vehicles: usize,
}

/// The row that records the start of a run.
pub struct JobRunStart {
    pub job_run_id: String,
    pub job_kind: String,
    pub backend: String,
    pub status: String,
    pub started_at: String,
}

/// Plans the start row of a run of `job_kind` on `backend`, under a fresh run
/// identifier.
pub fn plan_job_run_start(job_kind: &str, backend: DatabaseBackend, started_at: String) -> (start:
    JobRunStart)
    ensures
        is_hyphenated_uuid_v4(start.job_run_id@),
        start.job_kind@ == job_kind@,
        start.backend@ == backend_label_text(backend),
        start.status@ == JOB_RUN_RUNNING@,
        start.started_at@ == started_at@,
{
    JobRunStart {
        job_run_id: new_uuid_v4_text(),
        job_kind: String::from_str(job_kind),
        backend: String::from_str(backend_label(backend)),
        status: String::from_str(JOB_RUN_RUNNING),
        started_at,
    }
}

/// The label a backend is recorded under.
pub open spec fn backend_label_text(backend: DatabaseBackend) -> Seq<char> {
    match backend {
        DatabaseBackend::Sqlite => "sqlite"@,
        DatabaseBackend::Postgres => "postgres"@,
    }
}

/// The update that records a successful run. Counters are stored as 64-bit
/// signed integers, converted as Rust's `as` converts.
pub struct JobRunSuccess {
    pub status: String,
    pub finished_at: String,
    pub response_job_id: String,
    pub charging_sessions_upserted: i64,
    pub kpi_rows_upserted: i64,
    pub ranking_rows_upserted: i64,
    pub recomputed_vehicles: i64,
}

/// Plans the update that records a successful run from its response.
pub fn plan_job_run_success(finished_at: String, response: &JobResponse) -> (update: JobRunSuccess)
    ensures
        update.status@ == JOB_RUN_SUCCEEDED@,
        update.finished_at@ == finished_at@,
        update.response_job_id@ == response.job_id@,
        update.charging_sessions_upserted == response.charging_sessions_upserted as i64,
        update.kpi_rows_upserted == response.kpi_rows_upserted as i64,
        update.ranking_rows_upserted == response.ranking_rows_upserted as i64,
        update.recomputed_vehicles == response.recomputed_vehicles as i64,
        response.charging_sessions_upserted <= i64::MAX ==> update.charging_sessions_upserted
            == response.charging_sessions_upserted,
        response.kpi_rows_upserted <= i64::MAX ==> update.kpi_rows_upserted
            == response.kpi_rows_upserted,
        response.ranking_rows_upserted <= i64::MAX ==> update.ranking_rows_upserted
            == response.ranking_rows_upserted,
        response.recomputed_vehicles <= i64::MAX ==> update.recomputed_vehicles
            == response.recomputed_vehicles,
{
    JobRunSuccess {
        status: String::from_str(JOB_RUN_SUCCEEDED),
        finished_at,
        response_job_id: response.job_id.clone(),
        charging_sessions_upserted: response.charging_sessions_upserted as i64,
        kpi_rows_upserted: response.kpi_rows_upserted as i64,
        ranking_rows_upserted: response.ranking_rows_upserted as i64,
        recomputed_vehicles: response.recomputed_vehicles as i64,
    }
}

/// The update that records a failed run.
pub struct JobRunFailure {
    pub status: String,
    pub finished_at: String,
    pub error_message: String,
}

/// Plans the update that records a failed run.
pub fn plan_job_run_failure(finished_at: String, error_message: String) -> (update: JobRunFailure)
    ensures
        update.status@ == JOB_RUN_FAILED@,
        update.finished_at@ == finished_at@,
        update.error_message@ == error_message@,
{
    JobRunFailure { status: String::from_str(JOB_RUN_FAILED), finished_at, error_message }
}

/// The latest stored run of a job kind, as read back.
pub struct JobRunRecord {
    pub job_run_id: String,
    pub job_kind: String,
    pub backend: String,
    pub status: String,
    pub started_at: String,
    pub finished_at: Option<String>,
    pub error_message: Option<String>,
    pub response_job_id: Option<String>,
    pub charging_sessions_upserted: Option<i64>,
    pub kpi_rows_upserted: Option<i64>,
    pub ranking_rows_upserted: Option<i64>,
    pub recomputed_vehicles: Option<i64>,
}

/// Run status reported by the job status endpoint.
pub struct JobRunStatusResponse {
    pub job_run_id: String,
    pub job_kind: String,
    pub backend: String,
    pub status: String,
    pub started_at: String,
    pub finished_at: Option<String>,
    pub error_message: Option<String>,
    pub response_job_id: Option<String>,
    pub charging_sessions_upserted: Option<i64>,
    pub kpi_rows_upserted: Option<i64>,
    pub ranking_rows_upserted: Option<i64>,
    pub recomputed_vehicles: Option<i64>,
    pub active_lock_owner_token: Option<String>,
    pub active_lock_expires_at: Option<String>,
}

/// Reports a stored run; the lease fields are left empty, to be filled by
/// whoever looks the lease up.
pub fn job_run_status(record: JobRunRecord) -> (status: JobRunStatusResponse)
    ensures
        status.job_run_id == record.job_run_id,
        status.job_kind == record.job_kind,
        status.backend == record.backend,
        status.status == record.status,
        status.started_at == record.started_at,
        status.finished_at == record.finished_at,
        status.error_message == record.error_message,
        status.response_job_id == record.response_job_id,
        status.charging_sessions_upserted == record.charging_sessions_upserted,
        status.kpi_rows_upserted == record.kpi_rows_upserted,
        status.ranking_rows_upserted == record.ranking_rows_upserted,
        status.recomputed_vehicles == record.recomputed_vehicles,
        status.active_lock_owner_token is None,
        status.active_lock_expires_at is None,
{
    JobRunStatusResponse {
        job_run_id: record.job_run_id,
        job_kind: record.job_kind,
        backend: record.backend,
        status: record.status,
        started_at: record.started_at,
        finished_at: record.finished_at,
        error_message: record.error_message,
        response_job_id: record.response_job_id,
        charging_sessions_upserted: record.charging_sessions_upserted,
        kpi_rows_upserted: record.kpi_rows_upserted,
        ranking_rows_upserted: record.ranking_rows_upserted,
        recomputed_vehicles: record.recomputed_vehicles,
        active_lock_owner_token: None,
        active_lock_expires_at: None,
    }
}

} // verus!
