//! Decision logic of the EV telemetry backend's internal jobs: job kinds,
//! leases, run bookkeeping, KPI snapshot planning, charging-session series
//! and cohort rankings.
use vstd::prelude::*;

pub mod api_error;
pub mod backend;
pub mod charging_sessions;
pub mod counting;
pub mod diagnostics;
pub mod ids;
pub mod ingest_rows;
pub mod job_kind;
pub mod job_lock;
pub mod job_runs;
pub mod job_summary;
pub mod kpi_inputs;
pub mod kpi_snapshots;
pub mod output_sync;
pub mod ranking;
pub mod ranking_rows;
pub mod session_events;
pub mod text_order;
pub mod time;

verus! {

} // verus!
