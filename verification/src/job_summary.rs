//! Counters of the KPI job and of its native PostgreSQL stages.
use vstd::prelude::*;
use crate::ids::{is_hyphenated_uuid_v4, new_uuid_v4_text};
use crate::job_runs::JobResponse;

verus! {

/// Output summary of the native PostgreSQL recompute stages.
pub struct NativeJobSummary {
    pub charging_sessions_upserted: usize,
    pub charging_kpi_rows_upserted: usize,
    pub range_kpi_rows_upserted: usize,
    pub temperature_kpi_rows_upserted: usize,
    pub composite_kpi_rows_upserted: usize,
    pub charging_ranking_rows_upserted: usize,
    pub range_ranking_rows_upserted: usize,
    pub composite_ranking_rows_upserted: usize,
    pub temperature_ranking_rows_upserted: usize,
}

/// Summary of the native composite stages.
pub struct CompositeNativeSummary {
    pub composite_kpi_rows_upserted: usize,
    pub composite_ranking_rows_upserted: usize,
}

impl NativeJobSummary {
    /// Sum of the KPI row counters.
    pub open spec fn kpi_rows_total(&self) -> int {
        self.charging_kpi_rows_upserted + self.range_kpi_rows_upserted
            + self.temperature_kpi_rows_upserted + self.composite_kpi_rows_upserted
    }

    /// Sum of the ranking row counters.
    pub open spec fn ranking_rows_total(&self) -> int {
        self.charging_ranking_rows_upserted + self.range_ranking_rows_upserted
            + self.composite_ranking_rows_upserted + self.temperature_ranking_rows_upserted
    }

    /// Total KPI snapshot rows upserted by this native run.
    pub fn total_kpi_rows_upserted(&self) -> (total: usize)
        requires
            self.kpi_rows_total() <= usize::MAX,
        ensures
            total == self.kpi_rows_total(),
    {
        self.charging_kpi_rows_upserted + self.range_kpi_rows_upserted
            + self.temperature_kpi_rows_upserted + self.composite_kpi_rows_upserted
    }

    /// Total ranking snapshot rows upserted by this native run.
    pub fn total_ranking_rows_upserted(&self) -> (total: usize)
        requires
            self.ranking_rows_total() <= usize::MAX,
        ensures
            total == self.ranking_rows_total(),
    {
        self.charging_ranking_rows_upserted + self.range_ranking_rows_upserted
            + self.composite_ranking_rows_upserted + self.temperature_ranking_rows_upserted
    }
}

/// Assembles the native summary from the counters of its stages.
pub fn native_job_summary(
    charging_sessions_upserted: usize,
    charging_kpi_rows_upserted: usize,
    range_kpi_rows_upserted: usize,
    temperature_kpi_rows_upserted: usize,
    composite: CompositeNativeSummary,
    charging_ranking_rows_upserted: usize,
    range_ranking_rows_upserted: usize,
    temperature_ranking_rows_upserted: usize,
) -> (summary: NativeJobSummary)
    ensures
        summary.charging_sessions_upserted == charging_sessions_upserted,
        summary.charging_kpi_rows_upserted == charging_kpi_rows_upserted,
        summary.range_kpi_rows_upserted == range_kpi_rows_upserted,
        summary.temperature_kpi_rows_upserted == temperature_kpi_rows_upserted,
        summary.composite_kpi_rows_upserted == composite.composite_kpi_rows_upserted,
        summary.charging_ranking_rows_upserted == charging_ranking_rows_upserted,
        summary.range_ranking_rows_upserted == range_ranking_rows_upserted,
        summary.composite_ranking_rows_upserted == composite.composite_ranking_rows_upserted,
        summary.temperature_ranking_rows_upserted == temperature_ranking_rows_upserted,
{
    NativeJobSummary {
        charging_sessions_upserted,
        charging_kpi_rows_upserted,
        range_kpi_rows_upserted,
        temperature_kpi_rows_upserted,
        composite_kpi_rows_upserted: composite.composite_kpi_rows_upserted,
        charging_ranking_rows_upserted,
        range_ranking_rows_upserted,
        composite_ranking_rows_upserted: composite.composite_ranking_rows_upserted,
        temperature_ranking_rows_upserted,
    }
}

/// Combines the temperature and non-temperature KPI passes: rows add up, and
/// the vehicle count is the larger of the two.
pub fn combine_kpi_passes(temperature: (usize, usize), other: (usize, usize)) -> (combined: (
    usize,
    usize,
))
    requires
        temperature.0 + other.0 <= usize::MAX,
    ensures
        combined.0 == temperature.0 + other.0,
        combined.1 == if temperature.1 >= other.1 {
            temperature.1
        } else {
            other.1
        },
{
    let vehicles = if temperature.1 >= other.1 {
        temperature.1
    } else {
        other.1
    };
    (temperature.0 + other.0, vehicles)
}

/// Combines the temperature and non-temperature ranking passes.
pub fn combine_ranking_passes(temperature_rows: usize, other_rows: usize) -> (total: usize)
    requires
        temperature_rows + other_rows <= usize::MAX,
    ensures
        total == temperature_rows + other_rows,
{
    temperature_rows + other_rows
}

/// Assembles the response of a KPI job under a fresh job identifier.
pub fn kpi_job_response(
    charging_sessions_upserted: usize,
    kpi_pass: (usize, usize),
    ranking_rows_upserted: usize,
) -> (response: JobResponse)
    ensures
        response.ok,
        is_hyphenated_uuid_v4(response.job_id@),
        response.charging_sessions_upserted == charging_sessions_upserted,
        response.kpi_rows_upserted == kpi_pass.0,
        response.recomputed_vehicles == kpi_pass.1,
        response.ranking_rows_upserted == ranking_rows_upserted,
{
    JobResponse {
        ok: true,
        job_id: new_uuid_v4_text(),
        charging_sessions_upserted,
        kpi_rows_upserted: kpi_pass.0,
        ranking_rows_upserted,
        recomputed_vehicles: kpi_pass.1,
    }
}

/// In bridged PostgreSQL mode the reported charging-session count is the one
/// of the native charging stage; every other counter is kept.
pub fn bridged_job_response(response: JobResponse, native_charging_sessions: usize) -> (out:
    JobResponse)
    ensures
        out.ok == response.ok,
        out.job_id == response.job_id,
        out.charging_sessions_upserted == native_charging_sessions,
        out.kpi_rows_upserted == response.kpi_rows_upserted,
        out.ranking_rows_upserted == response.ranking_rows_upserted,
        out.recomputed_vehicles == response.recomputed_vehicles,
{
    let mut out = response;
    out.charging_sessions_upserted = native_charging_sessions;
    out
}

/// The vehicle count reported by PostgreSQL, floored at zero.
pub fn vehicle_count(count: i64) -> (n: usize)
    ensures
        count <= 0 ==> n == 0,
        0 < count <= usize::MAX ==> n == count,
        count > usize::MAX ==> n == count as usize,
{
    if count <= 0 {
        0
    } else {
        count as usize
    }
}

} // verus!
