use backend::api_error::ApiErrorKind;
use backend::backend::{backend_label, resolve_backend, DatabaseBackend};
use backend::job_kind::normalize_job_kind;
use backend::job_lock::{lock_acquisition_outcome, plan_job_lease, JOB_LOCK_TTL_MINUTES};
use backend::job_runs::{
    job_run_status, plan_job_run_failure, plan_job_run_start, plan_job_run_success, JobResponse,
    JobRunRecord,
};
use backend::job_summary::{
    bridged_job_response, combine_kpi_passes, combine_ranking_passes, kpi_job_response,
    native_job_summary, vehicle_count, CompositeNativeSummary,
};
use backend::time::UtcInstant;

fn is_uuid_v4_text(s: &str) -> bool {
    let b = s.as_bytes();
    b.len() == 36
        && b.iter().enumerate().all(|(i, c)| {
            if i == 8 || i == 13 || i == 18 || i == 23 {
                *c == b'-'
            } else {
                c.is_ascii_digit() || (b'a'..=b'f').contains(c)
            }
        })
        && b[14] == b'4'
}

#[test]
fn missing_job_kind_defaults_to_kpi_recompute() {
    assert_eq!(normalize_job_kind(None).ok().unwrap(), "recompute_kpis");
}

#[test]
fn supported_job_kinds_pass_unchanged() {
    assert_eq!(normalize_job_kind(Some("build_rankings".to_string())).ok().unwrap(), "build_rankings");
    assert_eq!(normalize_job_kind(Some("recompute_kpis".to_string())).ok().unwrap(), "recompute_kpis");
}

#[test]
fn unsupported_job_kind_is_unprocessable() {
    let err = normalize_job_kind(Some("vacuum".to_string())).err().unwrap();
    assert_eq!(err.kind, ApiErrorKind::Unprocessable);
    assert_eq!(err.message, "unsupported job_kind: vacuum");
}

#[test]
fn normalized_job_kind_normalizes_to_itself() {
    let once = normalize_job_kind(None).ok().unwrap();
    let twice = normalize_job_kind(Some(once.clone())).ok().unwrap();
    assert_eq!(once, twice);
}

#[test]
fn backend_labels_match_storage() {
    assert_eq!(backend_label(DatabaseBackend::Sqlite), "sqlite");
    assert_eq!(backend_label(DatabaseBackend::Postgres), "postgres");
}

#[test]
fn postgres_without_pool_is_internal_error() {
    let err = resolve_backend(DatabaseBackend::Postgres, false).err().unwrap();
    assert_eq!(err.kind, ApiErrorKind::Internal);
    assert_eq!(err.message, "postgres pool is not configured");
    assert_eq!(resolve_backend(DatabaseBackend::Postgres, true).ok(), Some(DatabaseBackend::Postgres));
    assert_eq!(resolve_backend(DatabaseBackend::Sqlite, false).ok(), Some(DatabaseBackend::Sqlite));
}

#[test]
fn lease_lasts_ten_minutes() {
    assert_eq!(JOB_LOCK_TTL_MINUTES, 10);
    let lease = plan_job_lease(UtcInstant { secs: 1431648000, nanos: 0 }).unwrap();
    assert_eq!(lease.acquired_at, "2015-05-15T00:00:00+00:00");
    assert_eq!(lease.expires_at, "2015-05-15T00:10:00+00:00");
}

#[test]
fn lease_keeps_subsecond_precision() {
    let lease = plan_job_lease(UtcInstant { secs: 1431648000, nanos: 250_000_000 }).unwrap();
    assert_eq!(lease.acquired_at, "2015-05-15T00:00:00.250+00:00");
    assert_eq!(lease.expires_at, "2015-05-15T00:10:00.250+00:00");
}

#[test]
fn held_lease_is_a_conflict() {
    assert!(lock_acquisition_outcome(true).is_ok());
    let err = lock_acquisition_outcome(false).err().unwrap();
    assert_eq!(err.kind, ApiErrorKind::Conflict);
    assert_eq!(err.message, "internal job already running for requested job_kind");
}

#[test]
fn job_run_start_is_running_with_fresh_id() {
    let start = plan_job_run_start("build_rankings", DatabaseBackend::Postgres, "t0".to_string());
    assert!(is_uuid_v4_text(&start.job_run_id));
    assert_eq!(start.job_kind, "build_rankings");
    assert_eq!(start.backend, "postgres");
    assert_eq!(start.status, "running");
    assert_eq!(start.started_at, "t0");
    let other = plan_job_run_start("build_rankings", DatabaseBackend::Postgres, "t0".to_string());
    assert_ne!(start.job_run_id, other.job_run_id);
}

#[test]
fn job_run_success_copies_counters() {
    let response = JobResponse {
        ok: true,
        job_id: "job-1".to_string(),
        charging_sessions_upserted: 3,
        kpi_rows_upserted: 40,
        ranking_rows_upserted: 12,
        recomputed_vehicles: 2,
    };
    let update = plan_job_run_success("t1".to_string(), &response);
    assert_eq!(update.status, "succeeded");
    assert_eq!(update.finished_at, "t1");
    assert_eq!(update.response_job_id, "job-1");
    assert_eq!(update.charging_sessions_upserted, 3);
    assert_eq!(update.kpi_rows_upserted, 40);
    assert_eq!(update.ranking_rows_upserted, 12);
    assert_eq!(update.recomputed_vehicles, 2);
}

#[test]
fn job_run_failure_records_message() {
    let update = plan_job_run_failure("t2".to_string(), "boom".to_string());
    assert_eq!(update.status, "failed");
    assert_eq!(update.finished_at, "t2");
    assert_eq!(update.error_message, "boom");
}

#[test]
fn job_run_status_leaves_lease_fields_empty() {
    let status = job_run_status(JobRunRecord {
        job_run_id: "r".to_string(),
        job_kind: "recompute_kpis".to_string(),
        backend: "sqlite".to_string(),
        status: "succeeded".to_string(),
        started_at: "a".to_string(),
        finished_at: Some("b".to_string()),
        error_message: None,
        response_job_id: Some("j".to_string()),
        charging_sessions_upserted: Some(1),
        kpi_rows_upserted: Some(2),
        ranking_rows_upserted: Some(3),
        recomputed_vehicles: Some(4),
    });
    assert_eq!(status.job_run_id, "r");
    assert_eq!(status.finished_at.as_deref(), Some("b"));
    assert_eq!(status.recomputed_vehicles, Some(4));
    assert!(status.active_lock_owner_token.is_none());
    assert!(status.active_lock_expires_at.is_none());
}

#[test]
fn native_summary_totals_add_up() {
    let summary = native_job_summary(
        5,
        1,
        2,
        3,
        CompositeNativeSummary { composite_kpi_rows_upserted: 4, composite_ranking_rows_upserted: 40 },
        10,
        20,
        30,
    );
    assert_eq!(summary.total_kpi_rows_upserted(), 10);
    assert_eq!(summary.total_ranking_rows_upserted(), 100);
    assert_eq!(summary.charging_sessions_upserted, 5);
}

#[test]
fn kpi_passes_add_rows_and_keep_larger_vehicle_count() {
    assert_eq!(combine_kpi_passes((12, 4), (30, 3)), (42, 4));
    assert_eq!(combine_kpi_passes((0, 0), (9, 7)), (9, 7));
    assert_eq!(combine_ranking_passes(6, 9), 15);
}

#[test]
fn kpi_job_response_reports_counters() {
    let response = kpi_job_response(3, (40, 2), 12);
    assert!(response.ok);
    assert!(is_uuid_v4_text(&response.job_id));
    assert_eq!(response.charging_sessions_upserted, 3);
    assert_eq!(response.kpi_rows_upserted, 40);
    assert_eq!(response.recomputed_vehicles, 2);
    assert_eq!(response.ranking_rows_upserted, 12);
    let bridged = bridged_job_response(response, 7);
    assert_eq!(bridged.charging_sessions_upserted, 7);
    assert_eq!(bridged.kpi_rows_upserted, 40);
}

#[test]
fn negative_vehicle_count_floors_at_zero() {
    assert_eq!(vehicle_count(-3), 0);
    assert_eq!(vehicle_count(0), 0);
    assert_eq!(vehicle_count(17), 17);
}
