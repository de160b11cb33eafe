use backend::charging_sessions::{
    charging_duration_seconds, charging_session_windows, classify_signal_key,
    collect_session_series, observation_window_end, session_status, soc_endpoints,
    ChargingObservation, NumberValue, SessionEventBounds, SignalKind, SocEndpoints,
};
use backend::diagnostics::{plan_diagnostic_events, DiagnosticInput};
use backend::ingest_rows::{
    plan_ingest_batch_row, plan_signal_observation_rows, plan_vehicle_row, stored_bool_value,
    stored_estimated_flag, IngestRecordError, ObservationInput, RecordOutcome,
};
use backend::kpi_inputs::{
    charge_bin_membership, composite_sample_count, composite_snapshot_count,
    retention_sample_count,
};
use backend::kpi_snapshots::{
    non_temperature_pass_order, plan_family_kpi_snapshots, plan_temperature_kpi_snapshots,
    validate_locked_kpi_snapshot, KpiSnapshotError, LockedKpiSpec, MetricCalc,
};
use backend::output_sync::{
    input_sync_clear_statements, output_clear_statements, output_sync_plan, scope_filter_sql,
    OutputSyncOptions, RankingTypeScope,
};
use backend::session_events::{
    normalize_session_event, plan_session_event_rows, SessionEventInput, SessionEventMapping,
    SessionEventRowsError,
};
use backend::text_order::text_precedes;
use backend::time::UtcInstant;

fn obs(key: &str, at: &str, number: NumberValue, text: Option<&str>) -> ChargingObservation {
    ChargingObservation {
        signal_key: key.to_string(),
        observed_at: at.to_string(),
        number,
        value_string: text.map(|t| t.to_string()),
    }
}

fn options(sessions: bool, ck: bool, cr: bool, xk: bool, xr: bool) -> OutputSyncOptions {
    OutputSyncOptions {
        sync_charging_sessions: sessions,
        sync_charging_kpi_snapshots: ck,
        sync_charging_rankings: cr,
        sync_composite_kpi_snapshots: xk,
        sync_composite_rankings: xr,
    }
}

#[test]
fn bridged_job_keeps_native_charging_and_composite_outputs() {
    let statements = output_clear_statements(&options(false, false, false, false, false));
    assert_eq!(
        statements,
        vec![
            "DELETE FROM cohort_ranking_snapshot WHERE ranking_type NOT IN ('ev_charging_performance', 'ev_composite')",
            "DELETE FROM vehicle_kpi_snapshot WHERE ranking_type NOT IN ('ev_charging_performance', 'ev_composite')",
        ]
    );
}

#[test]
fn full_output_sync_replaces_everything() {
    let statements = output_clear_statements(&options(true, true, true, true, true));
    assert_eq!(
        statements,
        vec![
            "DELETE FROM cohort_ranking_snapshot",
            "DELETE FROM vehicle_kpi_snapshot",
            "DELETE FROM vehicle_charging_session",
        ]
    );
    let plan = output_sync_plan(&options(false, true, false, false, true));
    assert_eq!(plan.kpi_scope, RankingTypeScope::AllButComposite);
    assert_eq!(plan.ranking_scope, RankingTypeScope::AllButCharging);
    assert_eq!(scope_filter_sql(plan.ranking_scope), "WHERE ranking_type <> 'ev_charging_performance'");
    assert_eq!(scope_filter_sql(RankingTypeScope::AllTypes), "");
}

#[test]
fn input_sync_clears_dependents_before_vehicles() {
    let statements = input_sync_clear_statements();
    assert_eq!(statements.len(), 10);
    assert_eq!(statements[0], "DELETE FROM cohort_ranking_snapshot");
    assert_eq!(statements[9], "DELETE FROM vehicle");
}

#[test]
fn sessions_without_start_are_skipped() {
    let rows = vec![
        SessionEventBounds { vehicle_uid: "v".into(), session_id: "s1".into(), started_at: Some("a".into()), ended_at: None },
        SessionEventBounds { vehicle_uid: "v".into(), session_id: "s2".into(), started_at: None, ended_at: Some("b".into()) },
        SessionEventBounds { vehicle_uid: "w".into(), session_id: "s3".into(), started_at: Some("c".into()), ended_at: Some("d".into()) },
    ];
    let windows = charging_session_windows(rows);
    assert_eq!(windows.len(), 2);
    assert_eq!(windows[0].session_id, "s1");
    assert_eq!(windows[1].session_id, "s3");
    assert_eq!(windows[1].ended_at.as_deref(), Some("d"));
    assert_eq!(session_status(&windows[0].ended_at), "partial");
    assert_eq!(session_status(&windows[1].ended_at), "complete");
    assert_eq!(observation_window_end(&windows[0].ended_at, "now".into()), "now");
    assert_eq!(observation_window_end(&windows[1].ended_at, "now".into()), "d");
}

#[test]
fn signal_keys_route_to_series() {
    assert_eq!(classify_signal_key(&"ev.soc_pct".to_string()), SignalKind::StateOfCharge);
    assert_eq!(classify_signal_key(&"power.battery_power_kw".to_string()), SignalKind::ChargePower);
    assert_eq!(classify_signal_key(&"ev.charge_power_kw".to_string()), SignalKind::ChargePower);
    assert_eq!(classify_signal_key(&"environment.ambient_temp_c".to_string()), SignalKind::AmbientTemperature);
    assert_eq!(classify_signal_key(&"ev.battery_temp_c".to_string()), SignalKind::BatteryTemperature);
    assert_eq!(classify_signal_key(&"ev.charger_type".to_string()), SignalKind::ChargerType);
    assert_eq!(classify_signal_key(&"vehicle.speed".to_string()), SignalKind::Other);
}

#[test]
fn series_keep_only_usable_readings() {
    let observations = vec![
        obs("ev.soc_pct", "2024-01-01T00:05:00Z", NumberValue::Finite, None),
        obs("ev.charge_power_kw", "2024-01-01T00:01:00Z", NumberValue::NonFinite, None),
        obs("ev.charge_power_kw", "2024-01-01T00:02:00Z", NumberValue::Finite, None),
        obs("ev.soc_pct", "2024-01-01T00:01:00Z", NumberValue::Absent, None),
        obs("ev.charger_type", "2024-01-01T00:01:00Z", NumberValue::Absent, Some("dc")),
        obs("ev.charger_type", "2024-01-01T00:03:00Z", NumberValue::Absent, None),
        obs("environment.ambient_temp_c", "2024-01-01T00:03:00Z", NumberValue::NonFinite, None),
        obs("ev.battery_temp_c", "2024-01-01T00:03:00Z", NumberValue::Finite, None),
    ];
    let series = collect_session_series(&observations);
    assert_eq!(series.soc, vec![0]);
    assert_eq!(series.power, vec![2]);
    assert_eq!(series.ambient, vec![6]);
    assert_eq!(series.battery, vec![7]);
    assert_eq!(series.charger_type_source, Some(4));
}

#[test]
fn soc_endpoints_follow_stable_timestamp_order() {
    let observations = vec![
        obs("ev.soc_pct", "2024-01-01T00:05:00Z", NumberValue::Finite, None),
        obs("ev.soc_pct", "2024-01-01T00:01:00Z", NumberValue::Finite, None),
        obs("ev.soc_pct", "2024-01-01T00:09:00Z", NumberValue::Finite, None),
        obs("ev.soc_pct", "2024-01-01T00:01:00Z", NumberValue::Finite, None),
        obs("ev.soc_pct", "2024-01-01T00:09:00Z", NumberValue::Finite, None),
    ];
    let series = collect_session_series(&observations);
    assert_eq!(soc_endpoints(&observations, &series.soc), Some(SocEndpoints { start: 1, end: 4 }));
    assert_eq!(soc_endpoints(&observations, &Vec::new()), None);
}

#[test]
fn text_order_is_bytewise() {
    assert!(text_precedes("2024-01-01", "2024-01-02"));
    assert!(!text_precedes("2024-01-02", "2024-01-01"));
    assert!(text_precedes("abc", "abcd"));
    assert!(!text_precedes("abc", "abc"));
    assert!(text_precedes("Z", "a"));
}

#[test]
fn duration_rounds_down_to_whole_seconds() {
    let start = UtcInstant { secs: 100, nanos: 900_000_000 };
    let end = UtcInstant { secs: 3700, nanos: 100_000_000 };
    assert_eq!(charging_duration_seconds(Some(start), Some(end)), 3599);
    assert_eq!(charging_duration_seconds(Some(end), Some(start)), 0);
    assert_eq!(charging_duration_seconds(Some(start), None), 0);
    assert_eq!(charging_duration_seconds(Some(start), Some(start)), 0);
}

#[test]
fn locked_metrics_pass_validation() {
    let locked = vec![LockedKpiSpec {
        ranking_type: "ev_composite".into(),
        kpi_key: "ev_composite_score".into(),
        formula: "0.6 * range + 0.4 * charging".into(),
        required_signals: vec!["ev.soc_pct".into()],
        optional_signals: vec![],
    }];
    let metric = |key: &str, samples: i64| MetricCalc {
        key: key.into(),
        unit: "score".into(),
        direction: "higher_is_better".into(),
        sample_count: samples,
        confidence_level: "medium".into(),
    };
    let ok = validate_locked_kpi_snapshot("ev_composite", &metric("ev_composite_score", 4), &locked);
    assert_eq!(ok.ok().unwrap().formula, "0.6 * range + 0.4 * charging");
    match validate_locked_kpi_snapshot("ev_range_efficiency", &metric("ev_composite_score", 4), &locked) {
        Err(KpiSnapshotError::NotLocked { kpi_key, ranking_type }) => {
            assert_eq!(kpi_key, "ev_composite_score");
            assert_eq!(ranking_type, "ev_range_efficiency");
        }
        _ => panic!("expected a lock error"),
    }
    match validate_locked_kpi_snapshot("ev_composite", &metric("ev_composite_score", -1), &locked) {
        Err(KpiSnapshotError::NegativeSampleCount { sample_count, .. }) => assert_eq!(sample_count, -1),
        _ => panic!("expected a sample count error"),
    }
}

#[test]
fn temperature_snapshots_write_each_metric_twice() {
    let rows = plan_temperature_kpi_snapshots("180d", 2);
    assert_eq!(rows.len(), 4);
    let bins: Vec<&str> = rows.iter().map(|r| r.temperature_bin.as_str()).collect();
    assert_eq!(bins, vec!["all", "cold", "all", "cold"]);
    let metrics: Vec<usize> = rows.iter().map(|r| r.metric_index).collect();
    assert_eq!(metrics, vec![0, 0, 1, 1]);
    assert!(rows.iter().all(|r| r.ranking_type == "ev_temperature_impact"
        && r.baseline_temperature_bin.as_deref() == Some("mild")
        && r.compare_temperature_bin.as_deref() == Some("cold")
        && r.source_job_id == "internal_recompute"));
}

#[test]
fn family_snapshots_write_each_metric_once() {
    let rows = plan_family_kpi_snapshots("ev_range_efficiency", "30d", 3);
    assert_eq!(rows.len(), 3);
    assert!(rows.iter().all(|r| r.temperature_bin == "all"
        && r.baseline_temperature_bin.is_none()
        && r.compare_temperature_bin.is_none()
        && r.timeframe == "30d"));
    assert!(plan_family_kpi_snapshots("ev_composite", "90d", 0).is_empty());
}

#[test]
fn non_temperature_passes_walk_timeframes_then_families() {
    let pairs = non_temperature_pass_order();
    assert_eq!(pairs.len(), 9);
    assert_eq!(pairs[0], ("30d", "ev_range_efficiency"));
    assert_eq!(pairs[4], ("90d", "ev_charging_performance"));
    assert_eq!(pairs[8], ("180d", "ev_composite"));
}

#[test]
fn composite_and_charging_inputs() {
    assert_eq!(composite_sample_count(Some(4), None, 2), 4);
    assert_eq!(composite_sample_count(None, Some(3), 9), 9);
    assert_eq!(composite_sample_count(None, None, 0), 0);
    assert_eq!(composite_snapshot_count(false, false), 0);
    assert_eq!(composite_snapshot_count(false, true), 3);
    let very_cold = charge_bin_membership(&"very_cold".to_string());
    assert!(very_cold.cold && !very_cold.mild);
    let mild = charge_bin_membership(&"mild".to_string());
    assert!(mild.mild && !mild.cold);
    assert!(!charge_bin_membership(&"hot".to_string()).cold);
    assert_eq!(retention_sample_count(7, 4), 4);
}

fn catalog() -> Vec<SessionEventMapping> {
    vec![
        SessionEventMapping { label: "charge_start".into(), session_type: "charging".into(), event_type: "start".into() },
        SessionEventMapping { label: "charge_stop".into(), session_type: "charging".into(), event_type: "stop".into() },
        SessionEventMapping { label: "charge_start".into(), session_type: "other".into(), event_type: "other".into() },
    ]
}

#[test]
fn session_labels_use_first_mapping() {
    let n = normalize_session_event("charge_start", &catalog()).ok().unwrap();
    assert_eq!((n.session_type.as_str(), n.event_type.as_str()), ("charging", "start"));
    let err = normalize_session_event("drive_start", &catalog()).err().unwrap();
    assert_eq!(err.event_type, "drive_start");
    assert_eq!(err.context(), "failed to map session event");
    assert_eq!(err.cause(), "unsupported session event type drive_start");
}

fn at(secs: i64, nanos: u32) -> UtcInstant {
    UtcInstant { secs, nanos }
}

/// An instant far outside any calendar date `chrono` represents.
fn unrepresentable() -> UtcInstant {
    at(i64::MAX / 2, 0)
}

#[test]
fn session_event_rows_fail_on_unknown_label() {
    let events = vec![
        SessionEventInput { session_id: "s".into(), event_type: "charge_start".into(), observed_at: at(1_431_648_000, 0) },
        SessionEventInput { session_id: "s".into(), event_type: "charge_stop".into(), observed_at: at(1_431_648_060, 500_000_000) },
    ];
    let rows = plan_session_event_rows(&events, &catalog(), "veh", "now").ok().unwrap();
    assert_eq!(rows.len(), 2);
    assert_eq!(rows[0].session_type, "charging");
    assert_eq!(rows[0].event_type, "start");
    assert_eq!(rows[1].event_type, "stop");
    assert_eq!(rows[0].observed_at, "2015-05-15T00:00:00+00:00");
    assert_eq!(rows[1].observed_at, "2015-05-15T00:01:00.500+00:00");
    assert_eq!(rows[0].source, "OBD");
    assert_eq!(rows[0].vehicle_uid, "veh");
    assert_eq!(rows[0].ingested_at, "now");
    assert_ne!(rows[0].session_event_id, rows[1].session_event_id);
    let bad = vec![
        SessionEventInput { session_id: "s".into(), event_type: "charge_start".into(), observed_at: at(0, 0) },
        SessionEventInput { session_id: "s".into(), event_type: "x".into(), observed_at: unrepresentable() },
        SessionEventInput { session_id: "s".into(), event_type: "y".into(), observed_at: at(0, 0) },
    ];
    match plan_session_event_rows(&bad, &catalog(), "veh", "now") {
        Err(SessionEventRowsError::UnsupportedLabel(e)) => assert_eq!(e.event_type, "x"),
        _ => panic!("expected the first unmapped label"),
    }
}

#[test]
fn session_event_rows_fail_on_unrepresentable_time() {
    let events = vec![
        SessionEventInput { session_id: "s".into(), event_type: "charge_start".into(), observed_at: at(0, 0) },
        SessionEventInput { session_id: "s".into(), event_type: "charge_stop".into(), observed_at: unrepresentable() },
    ];
    match plan_session_event_rows(&events, &catalog(), "veh", "now") {
        Err(SessionEventRowsError::UnrepresentableTime { index }) => assert_eq!(index, 1),
        _ => panic!("expected an unrepresentable time"),
    }
}

#[test]
fn diagnostics_expand_mil_then_codes() {
    let diagnostics = vec![
        DiagnosticInput { observed_at: at(1_431_648_000, 0), mil_on: Some(true), dtcs_active: Some(vec!["P0A80".into(), "P0420".into()]) },
        DiagnosticInput { observed_at: at(1_431_648_001, 0), mil_on: None, dtcs_active: None },
        DiagnosticInput { observed_at: at(0, 0), mil_on: Some(false), dtcs_active: Some(vec![]) },
    ];
    let rows = plan_diagnostic_events(&diagnostics, "veh", "batch", "now").unwrap();
    let kinds: Vec<(&str, Option<&str>, &str)> = rows
        .iter()
        .map(|r| (r.event_type.as_str(), r.code.as_deref(), r.observed_at.as_str()))
        .collect();
    assert_eq!(
        kinds,
        vec![
            ("MIL_ON", None, "2015-05-15T00:00:00+00:00"),
            ("DTC_ACTIVE", Some("P0A80"), "2015-05-15T00:00:00+00:00"),
            ("DTC_ACTIVE", Some("P0420"), "2015-05-15T00:00:00+00:00"),
            ("MIL_OFF", None, "1970-01-01T00:00:00+00:00"),
        ]
    );
    assert!(rows.iter().all(|r| r.batch_id == "batch" && r.source == "OBD" && r.ingested_at == "now"));
    assert!(rows.iter().all(|r| is_uuid_v4_text(&r.event_id)));
}

#[test]
fn diagnostics_with_unrepresentable_time_are_refused() {
    let diagnostics = vec![
        DiagnosticInput { observed_at: at(0, 0), mil_on: Some(true), dtcs_active: None },
        DiagnosticInput { observed_at: unrepresentable(), mil_on: None, dtcs_active: None },
    ];
    assert!(plan_diagnostic_events(&diagnostics, "veh", "batch", "now").is_none());
}

fn is_uuid_v4_text(id: &str) -> bool {
    let bytes = id.as_bytes();
    bytes.len() == 36
        && bytes.iter().enumerate().all(|(i, b)| match i {
            8 | 13 | 18 | 23 => *b == b'-',
            14 => *b == b'4',
            19 => matches!(b, b'8' | b'9' | b'a' | b'b'),
            _ => b.is_ascii_digit() || (b'a'..=b'f').contains(b),
        })
}

#[test]
fn ingest_batch_row_renders_capture_window() {
    let row = plan_ingest_batch_row(
        "batch".to_string(),
        "veh",
        "1.0",
        "OBD",
        at(1_431_648_000, 0),
        at(1_431_648_030, 250_000_000),
        "now",
    )
    .unwrap();
    assert_eq!(row.batch_id, "batch");
    assert_eq!(row.vehicle_uid, "veh");
    assert_eq!(row.schema_version, "1.0");
    assert_eq!(row.source, "OBD");
    assert_eq!(row.capture_started_at, "2015-05-15T00:00:00+00:00");
    assert_eq!(row.capture_ended_at, "2015-05-15T00:00:30.250+00:00");
    assert_eq!(row.received_at, "now");
    assert!(plan_ingest_batch_row("b".into(), "v", "1", "OBD", at(0, 0), unrepresentable(), "now").is_none());
}

fn record(key: &str, secs: i64, value_bool: Option<bool>, estimated: Option<bool>) -> ObservationInput {
    ObservationInput {
        session_id: Some("sess".into()),
        signal_key: key.into(),
        value_string: None,
        value_bool,
        value_json: Some("{\"a\":1}".into()),
        unit: Some("pct".into()),
        observed_at: at(secs, 0),
        source_signal: None,
        status: "ok".into(),
        freshness_ttl_seconds: Some(30),
        temperature_bin: Some("mild".into()),
        is_temperature_estimated: estimated,
        raw_payload_ref: None,
    }
}

fn rejected(index: usize, message: &str) -> IngestRecordError {
    IngestRecordError { index, message: message.into() }
}

#[test]
fn observation_rows_keep_accepted_and_rejected_in_order() {
    let outcomes: Vec<RecordOutcome> = vec![
        Err(rejected(0, "unknown signal")),
        Ok(record("ev.soc_pct", 1_431_648_000, Some(true), None)),
        Err(rejected(2, "bad unit")),
        Ok(record("ev.charge_power_kw", 0, Some(false), Some(true))),
        Ok(record("ev.charger_type", 1_431_648_001, None, Some(false))),
    ];
    let (rows, errors) = plan_signal_observation_rows(&outcomes, "veh", "batch", "now").unwrap();
    assert_eq!(rows.len() + errors.len(), outcomes.len());
    let indices: Vec<usize> = rows.iter().map(|r| r.record_index).collect();
    assert_eq!(indices, vec![1, 3, 4]);
    let keys: Vec<&str> = rows.iter().map(|r| r.signal_key.as_str()).collect();
    assert_eq!(keys, vec!["ev.soc_pct", "ev.charge_power_kw", "ev.charger_type"]);
    assert_eq!(rows[0].observed_at, "2015-05-15T00:00:00+00:00");
    assert_eq!(rows[1].observed_at, "1970-01-01T00:00:00+00:00");
    let bools: Vec<Option<i64>> = rows.iter().map(|r| r.value_bool).collect();
    assert_eq!(bools, vec![Some(1), Some(0), None]);
    let estimated: Vec<i64> = rows.iter().map(|r| r.is_temperature_estimated).collect();
    assert_eq!(estimated, vec![0, 1, 0]);
    assert!(rows.iter().all(|r| r.source == "OBD"
        && r.vehicle_uid == "veh"
        && r.batch_id == "batch"
        && r.ingested_at == "now"
        && r.session_id.as_deref() == Some("sess")
        && r.value_json.as_deref() == Some("{\"a\":1}")
        && r.temperature_bin.as_deref() == Some("mild")
        && r.freshness_ttl_seconds == Some(30)
        && is_uuid_v4_text(&r.observation_id)));
    assert_ne!(rows[0].observation_id, rows[1].observation_id);
    let errs: Vec<(usize, &str)> = errors.iter().map(|e| (e.index, e.message.as_str())).collect();
    assert_eq!(errs, vec![(0, "unknown signal"), (2, "bad unit")]);
}

#[test]
fn observation_rows_refuse_unrepresentable_accepted_time() {
    let mut bad = record("ev.soc_pct", 0, None, None);
    bad.observed_at = unrepresentable();
    let outcomes: Vec<RecordOutcome> = vec![Ok(record("ev.soc_pct", 0, None, None)), Ok(bad)];
    assert!(plan_signal_observation_rows(&outcomes, "veh", "batch", "now").is_none());
    let mut bad_rejected = rejected(0, "late");
    bad_rejected.index = 0;
    let only_rejected: Vec<RecordOutcome> = vec![Err(bad_rejected)];
    let (rows, errors) = plan_signal_observation_rows(&only_rejected, "veh", "batch", "now").unwrap();
    assert!(rows.is_empty());
    assert_eq!(errors.len(), 1);
    assert_eq!(errors[0].duplicate().message, "late");
}

#[test]
fn ignored_observations_change_no_series() {
    let relevant = || {
        vec![
            obs("ev.soc_pct", "2024-01-01T00:05:00Z", NumberValue::Finite, None),
            obs("ev.charge_power_kw", "2024-01-01T00:02:00Z", NumberValue::Finite, None),
            obs("ev.soc_pct", "2024-01-01T00:01:00Z", NumberValue::Finite, None),
            obs("ev.charger_type", "2024-01-01T00:01:00Z", NumberValue::Absent, Some("dc")),
        ]
    };
    let base = relevant();
    let mut kept = relevant().into_iter();
    let padded = vec![
        obs("vehicle.speed", "2024-01-01T00:00:00Z", NumberValue::Finite, None),
        kept.next().unwrap(),
        obs("ev.soc_pct", "2024-01-01T00:00:00Z", NumberValue::Absent, None),
        kept.next().unwrap(),
        obs("ev.charge_power_kw", "2024-01-01T00:00:00Z", NumberValue::NonFinite, None),
        kept.next().unwrap(),
        obs("ev.charger_type", "2024-01-01T00:09:00Z", NumberValue::Absent, None),
        kept.next().unwrap(),
    ];
    let s1 = collect_session_series(&base);
    let s2 = collect_session_series(&padded);
    let pick = |o: &Vec<ChargingObservation>, ix: &Vec<usize>| -> Vec<String> {
        ix.iter().map(|i| o[*i].observed_at.clone()).collect()
    };
    assert_eq!(pick(&base, &s1.soc), pick(&padded, &s2.soc));
    assert_eq!(pick(&base, &s1.power), pick(&padded, &s2.power));
    assert_eq!(
        base[s1.charger_type_source.unwrap()].value_string,
        padded[s2.charger_type_source.unwrap()].value_string
    );
    assert_eq!(soc_endpoints(&base, &s1.soc), Some(SocEndpoints { start: 1, end: 0 }));
    assert_eq!(soc_endpoints(&padded, &s2.soc), Some(SocEndpoints { start: 1, end: 0 }));
}

#[test]
fn vehicle_rows_are_battery_electric() {
    let row = plan_vehicle_row("veh", "acct", "now");
    assert_eq!(row.powertrain_class, "bev");
    assert_eq!(row.created_at, "now");
    assert_eq!(row.updated_at, "now");
    assert_eq!(stored_bool_value(Some(true)), Some(1));
    assert_eq!(stored_bool_value(None), None);
    assert_eq!(stored_estimated_flag(None), 0);
    assert_eq!(stored_estimated_flag(Some(true)), 1);
}
