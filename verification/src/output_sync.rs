//! Which computed outputs are copied back to PostgreSQL after a bridged job,
//! and which PostgreSQL rows are cleared to make room for them.
use vstd::prelude::*;

verus! {

/// Ranking type of the charging-performance family.
pub const CHARGING_RANKING_TYPE: &'static str = "ev_charging_performance";

/// Ranking type of the composite family.
pub const COMPOSITE_RANKING_TYPE: &'static str = "ev_composite";

/// Controls which SQLite outputs overwrite PostgreSQL tables.
pub struct OutputSyncOptions {
    pub sync_charging_sessions: bool,
    pub sync_charging_kpi_snapshots: bool,
    pub sync_charging_rankings: bool,
    pub sync_composite_kpi_snapshots: bool,
    pub sync_composite_rankings: bool,
}

/// The ranking types whose rows a snapshot table exchange covers.
#[derive(Clone, Copy, Debug, PartialEq, Eq)]
pub enum RankingTypeScope {
    AllTypes,
    AllButComposite,
    AllButCharging,
    AllButChargingAndComposite,
}

/// The scope that covers the charging family only when `include_charging`
/// and the composite family only when `include_composite`.
pub open spec fn scope_for(include_charging: bool, include_composite: bool) -> RankingTypeScope {
    if include_charging && include_composite {
        RankingTypeScope::AllTypes
    } else if include_charging {
        RankingTypeScope::AllButComposite
    } else if include_composite {
        RankingTypeScope::AllButCharging
    } else {
        RankingTypeScope::AllButChargingAndComposite
    }
}

/// Whether `scope` covers rows of `ranking_type`.
pub open spec fn scope_includes(scope: RankingTypeScope, ranking_type: Seq<char>) -> bool {
    match scope {
        RankingTypeScope::AllTypes => true,
        RankingTypeScope::AllButComposite => ranking_type != COMPOSITE_RANKING_TYPE@,
        RankingTypeScope::AllButCharging => ranking_type != CHARGING_RANKING_TYPE@,
        RankingTypeScope::AllButChargingAndComposite => ranking_type != CHARGING_RANKING_TYPE@
            && ranking_type != COMPOSITE_RANKING_TYPE@,
    }
}

/// Chooses the scope of a snapshot exchange.
pub fn ranking_type_scope(include_charging: bool, include_composite: bool) -> (scope:
    RankingTypeScope)
    ensures
        scope == scope_for(include_charging, include_composite),
{
    if include_charging && include_composite {
        RankingTypeScope::AllTypes
    } else if include_charging {
        RankingTypeScope::AllButComposite
    } else if include_composite {
        RankingTypeScope::AllButCharging
    } else {
        RankingTypeScope::AllButChargingAndComposite
    }
}

/// A snapshot exchange covers a ranking type exactly when the type is neither
/// the charging family left out nor the composite family left out.
pub proof fn lemma_scope_covers(include_charging: bool, include_composite: bool, ranking_type: Seq<char>)
    ensures
        scope_includes(scope_for(include_charging, include_composite), ranking_type) <==> (
        (ranking_type != CHARGING_RANKING_TYPE@ || include_charging) && (ranking_type
            != COMPOSITE_RANKING_TYPE@ || include_composite)),
{
}

/// SQL that clears the ranking snapshots in `scope`.
pub open spec fn delete_ranking_snapshots_text(scope: RankingTypeScope) -> Seq<char> {
    match scope {
        RankingTypeScope::AllTypes => "DELETE FROM cohort_ranking_snapshot"@,
        RankingTypeScope::AllButComposite => "DELETE FROM cohort_ranking_snapshot WHERE ranking_type <> 'ev_composite'"@,
        RankingTypeScope::AllButCharging => "DELETE FROM cohort_ranking_snapshot WHERE ranking_type <> 'ev_charging_performance'"@,
        RankingTypeScope::AllButChargingAndComposite => "DELETE FROM cohort_ranking_snapshot WHERE ranking_type NOT IN ('ev_charging_performance', 'ev_composite')"@,
    }
}

/// SQL that clears the KPI snapshots in `scope`.
pub open spec fn delete_kpi_snapshots_text(scope: RankingTypeScope) -> Seq<char> {
    match scope {
        RankingTypeScope::AllTypes => "DELETE FROM vehicle_kpi_snapshot"@,
        RankingTypeScope::AllButComposite => "DELETE FROM vehicle_kpi_snapshot WHERE ranking_type <> 'ev_composite'"@,
        RankingTypeScope::AllButCharging => "DELETE FROM vehicle_kpi_snapshot WHERE ranking_type <> 'ev_charging_performance'"@,
        RankingTypeScope::AllButChargingAndComposite => "DELETE FROM vehicle_kpi_snapshot WHERE ranking_type NOT IN ('ev_charging_performance', 'ev_composite')"@,
    }
}

/// The `WHERE` clause that selects the rows of `scope` (empty for all rows).
pub open spec fn scope_filter_text(scope: RankingTypeScope) -> Seq<char> {
    match scope {
        RankingTypeScope::AllTypes => ""@,
        RankingTypeScope::AllButComposite => "WHERE ranking_type <> 'ev_composite'"@,
        RankingTypeScope::AllButCharging => "WHERE ranking_type <> 'ev_charging_performance'"@,
        RankingTypeScope::AllButChargingAndComposite => "WHERE ranking_type NOT IN ('ev_charging_performance', 'ev_composite')"@,
    }
}

/// SQL that clears the ranking snapshots in `scope`.
pub fn delete_ranking_snapshots_sql(scope: RankingTypeScope) -> (sql: &'static str)
    ensures
        sql@ == delete_ranking_snapshots_text(scope),
{
    match scope {
        RankingTypeScope::AllTypes => "DELETE FROM cohort_ranking_snapshot",
        RankingTypeScope::AllButComposite => "DELETE FROM cohort_ranking_snapshot WHERE ranking_type <> 'ev_composite'",
        RankingTypeScope::AllButCharging => "DELETE FROM cohort_ranking_snapshot WHERE ranking_type <> 'ev_charging_performance'",
        RankingTypeScope::AllButChargingAndComposite => "DELETE FROM cohort_ranking_snapshot WHERE ranking_type NOT IN ('ev_charging_performance', 'ev_composite')",
    }
}

/// SQL that clears the KPI snapshots in `scope`.
pub fn delete_kpi_snapshots_sql(scope: RankingTypeScope) -> (sql: &'static str)
    ensures
        sql@ == delete_kpi_snapshots_text(scope),
{
    match scope {
        RankingTypeScope::AllTypes => "DELETE FROM vehicle_kpi_snapshot",
        RankingTypeScope::AllButComposite => "DELETE FROM vehicle_kpi_snapshot WHERE ranking_type <> 'ev_composite'",
        RankingTypeScope::AllButCharging => "DELETE FROM vehicle_kpi_snapshot WHERE ranking_type <> 'ev_charging_performance'",
        RankingTypeScope::AllButChargingAndComposite => "DELETE FROM vehicle_kpi_snapshot WHERE ranking_type NOT IN ('ev_charging_performance', 'ev_composite')",
    }
}

/// The `WHERE` clause that selects the rows of `scope`.
pub fn scope_filter_sql(scope: RankingTypeScope) -> (sql: &'static str)
    ensures
        sql@ == scope_filter_text(scope),
{
    match scope {
        RankingTypeScope::AllTypes => "",
        RankingTypeScope::AllButComposite => "WHERE ranking_type <> 'ev_composite'",
        RankingTypeScope::AllButCharging => "WHERE ranking_type <> 'ev_charging_performance'",
        RankingTypeScope::AllButChargingAndComposite => "WHERE ranking_type NOT IN ('ev_charging_performance', 'ev_composite')",
    }
}

/// What one output synchronization moves: the ranking and KPI snapshot
/// scopes, and whether charging sessions are replaced.
#[derive(Clone, Copy, Debug, PartialEq, Eq)]
pub struct OutputSyncPlan {
    pub ranking_scope: RankingTypeScope,
    pub kpi_scope: RankingTypeScope,
    pub replace_charging_sessions: bool,
}

/// The plan that `options` ask for.
pub open spec fn plan_for(options: OutputSyncOptions) -> OutputSyncPlan {
    OutputSyncPlan {
        ranking_scope: scope_for(options.sync_charging_rankings, options.sync_composite_rankings),
        kpi_scope: scope_for(options.sync_charging_kpi_snapshots, options.sync_composite_kpi_snapshots),
        replace_charging_sessions: options.sync_charging_sessions,
    }
}

/// Decides what an output synchronization exchanges.
pub fn output_sync_plan(options: &OutputSyncOptions) -> (plan: OutputSyncPlan)
    ensures
        plan == plan_for(*options),
{
    OutputSyncPlan {
        ranking_scope: ranking_type_scope(options.sync_charging_rankings, options.sync_composite_rankings),
        kpi_scope: ranking_type_scope(
            options.sync_charging_kpi_snapshots,
            options.sync_composite_kpi_snapshots,
        ),
        replace_charging_sessions: options.sync_charging_sessions,
    }
}

/// The statements that clear PostgreSQL outputs before the export, in order:
/// ranking snapshots, KPI snapshots, then charging sessions when they are
/// replaced.
pub fn output_clear_statements(options: &OutputSyncOptions) -> (statements: Vec<&'static str>)
    ensures
        statements.len() == if options.sync_charging_sessions { 3int } else { 2int },
        statements[0]@ == delete_ranking_snapshots_text(plan_for(*options).ranking_scope),
        statements[1]@ == delete_kpi_snapshots_text(plan_for(*options).kpi_scope),
        options.sync_charging_sessions ==> statements[2]@ == "DELETE FROM vehicle_charging_session"@,
{
    let plan = output_sync_plan(options);
    let mut statements: Vec<&'static str> = Vec::new();
    statements.push(delete_ranking_snapshots_sql(plan.ranking_scope));
    statements.push(delete_kpi_snapshots_sql(plan.kpi_scope));
    if plan.replace_charging_sessions {
        statements.push("DELETE FROM vehicle_charging_session");
    }
    statements
}

/// Every ranking type whose PostgreSQL rows a synchronization clears is one
/// whose SQLite rows it exports, and the other way round: the clear and the
/// export of each snapshot table use one scope, and that scope holds a type
/// exactly when the options do not leave its family out.
pub proof fn lemma_cleared_types_are_exported(options: OutputSyncOptions, ranking_type: Seq<char>)
    ensures
        scope_includes(plan_for(options).ranking_scope, ranking_type) <==> (
        (ranking_type != CHARGING_RANKING_TYPE@ || options.sync_charging_rankings) && (ranking_type
            != COMPOSITE_RANKING_TYPE@ || options.sync_composite_rankings)),
        scope_includes(plan_for(options).kpi_scope, ranking_type) <==> (
        (ranking_type != CHARGING_RANKING_TYPE@ || options.sync_charging_kpi_snapshots) && (
        ranking_type != COMPOSITE_RANKING_TYPE@ || options.sync_composite_kpi_snapshots)),
{
    lemma_scope_covers(options.sync_charging_rankings, options.sync_composite_rankings, ranking_type);
    lemma_scope_covers(
        options.sync_charging_kpi_snapshots,
        options.sync_composite_kpi_snapshots,
        ranking_type,
    );
}

/// The statements that empty the SQLite job tables before inputs are copied
/// in from PostgreSQL: outputs first, then events and observations, then the
/// batches, users and vehicles they refer to.
pub fn input_sync_clear_statements() -> (statements: Vec<&'static str>)
    ensures
        statements@.map_values(|s: &'static str| s@) == seq![
            "DELETE FROM cohort_ranking_snapshot"@,
            "DELETE FROM vehicle_kpi_snapshot"@,
            "DELETE FROM vehicle_charging_session"@,
            "DELETE FROM vehicle_diagnostic_event"@,
            "DELETE FROM vehicle_session_event"@,
            "DELETE FROM vehicle_signal_observation"@,
            "DELETE FROM ingest_batch"@,
            "DELETE FROM user_vehicle_access"@,
            "DELETE FROM app_user"@,
            "DELETE FROM vehicle"@,
        ],
{
    let mut statements: Vec<&'static str> = Vec::new();
    statements.push("DELETE FROM cohort_ranking_snapshot");
    statements.push("DELETE FROM vehicle_kpi_snapshot");
    statements.push("DELETE FROM vehicle_charging_session");
    statements.push("DELETE FROM vehicle_diagnostic_event");
    statements.push("DELETE FROM vehicle_session_event");
    statements.push("DELETE FROM vehicle_signal_observation");
    statements.push("DELETE FROM ingest_batch");
    statements.push("DELETE FROM user_vehicle_access");
    statements.push("DELETE FROM app_user");
    statements.push("DELETE FROM vehicle");
    assert(statements@.map_values(|s: &'static str| s@) =~= seq![
        "DELETE FROM cohort_ranking_snapshot"@,
        "DELETE FROM vehicle_kpi_snapshot"@,
        "DELETE FROM vehicle_charging_session"@,
        "DELETE FROM vehicle_diagnostic_event"@,
        "DELETE FROM vehicle_session_event"@,
        "DELETE FROM vehicle_signal_observation"@,
        "DELETE FROM ingest_batch"@,
        "DELETE FROM user_vehicle_access"@,
        "DELETE FROM app_user"@,
        "DELETE FROM vehicle"@,
    ]);
    statements
}

} // verus!
