use backend::ranking::{rank_cohorts, CohortPlacement, RankingCandidate};
use backend::ranking_rows::{
    cohort_key, plan_kpi_rankings, plan_temperature_rankings, KpiRankingEntry,
    TemperatureRankingSeed, VehicleCohortFields,
};

fn candidate(uid: &str, key: &str, score: u64) -> RankingCandidate {
    RankingCandidate { vehicle_uid: uid.to_string(), cohort_key: key.to_string(), score_key: score }
}

fn vehicle(uid: &str, make: &str, model: &str) -> VehicleCohortFields {
    VehicleCohortFields {
        vehicle_uid: uid.to_string(),
        make: make.to_string(),
        model: model.to_string(),
        trim: "base".to_string(),
        year_band: "2020_2022".to_string(),
    }
}

#[test]
fn cohort_key_joins_catalog_fields() {
    assert_eq!(cohort_key("tesla", "model3", "lr", "2021_2023"), "bev|tesla|model3|lr|2021_2023");
}

#[test]
fn ranks_follow_descending_score_within_cohort() {
    let candidates = vec![
        candidate("a", "x", 50),
        candidate("b", "y", 10),
        candidate("c", "x", 70),
        candidate("d", "x", 60),
    ];
    let placements = rank_cohorts(&candidates);
    let ranks: Vec<i64> = placements.iter().map(|p| p.rank_position).collect();
    assert_eq!(ranks, vec![3, 1, 1, 2]);
    assert_eq!(placements[0].cohort_size, 3);
    assert_eq!(placements[1].cohort_size, 1);
    assert!(!placements[0].sample_gate_passed);
}

#[test]
fn equal_scores_keep_input_order() {
    let candidates = vec![candidate("a", "x", 5), candidate("b", "x", 5), candidate("c", "x", 9)];
    let placements = rank_cohorts(&candidates);
    let ranks: Vec<i64> = placements.iter().map(|p| p.rank_position).collect();
    assert_eq!(ranks, vec![2, 3, 1]);
}

#[test]
fn ten_member_cohort_passes_sample_gate() {
    let mut candidates: Vec<RankingCandidate> =
        (0..10).map(|i| candidate(&format!("v{}", i), "x", i as u64)).collect();
    candidates.push(candidate("lone", "z", 1));
    let placements = rank_cohorts(&candidates);
    assert!(placements[..10].iter().all(|p| p.sample_gate_passed && p.cohort_size == 10));
    assert_eq!(placements[10], CohortPlacement { cohort_size: 1, rank_position: 1, sample_gate_passed: false });
    let mut ranks: Vec<i64> = placements[..10].iter().map(|p| p.rank_position).collect();
    ranks.sort();
    assert_eq!(ranks, (1..=10).collect::<Vec<i64>>());
}

#[test]
fn empty_ranking_pass_writes_nothing() {
    assert!(rank_cohorts(&Vec::new()).is_empty());
}

#[test]
fn temperature_rankings_need_both_retentions() {
    let seeds = vec![
        TemperatureRankingSeed {
            vehicle: vehicle("a", "kia", "ev6"),
            has_range_retention: true,
            has_sensitivity: true,
            has_charge_retention: true,
            score_key: 80,
        },
        TemperatureRankingSeed {
            vehicle: vehicle("b", "kia", "ev6"),
            has_range_retention: true,
            has_sensitivity: false,
            has_charge_retention: false,
            score_key: 99,
        },
        TemperatureRankingSeed {
            vehicle: vehicle("c", "kia", "ev6"),
            has_range_retention: true,
            has_sensitivity: false,
            has_charge_retention: true,
            score_key: 90,
        },
    ];
    let rows = plan_temperature_rankings("90d", &seeds);
    assert_eq!(rows.len(), 4);
    assert_eq!(rows[0].vehicle_uid, "a");
    assert_eq!(rows[0].temperature_bin, "all");
    assert_eq!(rows[1].temperature_bin, "cold");
    assert_eq!(rows[0].rank_position, 2);
    assert_eq!(rows[0].confidence_level, "stable");
    assert_eq!(rows[2].vehicle_uid, "c");
    assert_eq!(rows[2].rank_position, 1);
    assert_eq!(rows[2].source_index, 2);
    assert_eq!(rows[3].confidence_level, "medium");
    assert!(rows.iter().all(|r| r.cohort_size == 2
        && r.sample_gate_passed == 0
        && r.ranking_type == "ev_temperature_impact"
        && r.timeframe == "90d"
        && r.cohort_key == "bev|kia|ev6|base|2020_2022"));
}

#[test]
fn kpi_rankings_skip_vehicles_without_kpis() {
    let entries = vec![
        KpiRankingEntry { vehicle: vehicle("a", "vw", "id4"), has_kpis: false, score_key: 0, confidence_level: "low".to_string() },
        KpiRankingEntry { vehicle: vehicle("b", "vw", "id4"), has_kpis: true, score_key: 10, confidence_level: "medium".to_string() },
        KpiRankingEntry { vehicle: vehicle("c", "vw", "id3"), has_kpis: true, score_key: 30, confidence_level: "high".to_string() },
    ];
    let rows = plan_kpi_rankings("ev_composite", "30d", &entries);
    assert_eq!(rows.len(), 2);
    assert_eq!(rows[0].vehicle_uid, "b");
    assert_eq!(rows[0].cohort_key, "bev|vw|id4|base|2020_2022");
    assert_eq!(rows[0].rank_position, 1);
    assert_eq!(rows[0].cohort_size, 1);
    assert_eq!(rows[1].confidence_level, "high");
    assert_eq!(rows[1].source_index, 2);
    assert!(rows.iter().all(|r| r.temperature_bin == "all" && r.ranking_type == "ev_composite"));
    assert_ne!(rows[0].ranking_snapshot_id, rows[1].ranking_snapshot_id);
}
