//! Ranking snapshot rows: which vehicles are ranked in a pass, in which
//! cohort, and the rows written for them.
use vstd::prelude::*;
use crate::counting::{
    indices_where, lemma_indices_where_complete, lemma_indices_where_step, lemma_indices_where_valid,
};
use crate::ids::{is_hyphenated_uuid_v4, new_uuid_v4_text};
use crate::ranking::{
    candidate_keys, expected_placement, rank_cohorts, CohortPlacement, RankingCandidate,
};

verus! {

/// Ranking type of the temperature-impact family.
pub const TEMPERATURE_RANKING_TYPE: &'static str = "ev_temperature_impact";

/// The cohort key of a vehicle: powertrain, make, model, trim and model-year
/// band joined by `|`.
pub open spec fn cohort_key_text(
    make: Seq<char>,
    model: Seq<char>,
    trim: Seq<char>,
    year_band: Seq<char>,
) -> Seq<char> {
    "bev|"@ + make + "|"@ + model + "|"@ + trim + "|"@ + year_band
}

/// Builds the cohort key `bev|<make>|<model>|<trim>|<year band>`.
pub fn cohort_key(make: &str, model: &str, trim: &str, year_band: &str) -> (key: String)
    ensures
        key@ == cohort_key_text(make@, model@, trim@, year_band@),
{
    let mut key = String::from_str("bev|");
    key.append(make);
    key.append("|");
    key.append(model);
    key.append("|");
    key.append(trim);
    key.append("|");
    key.append(year_band);
    key
}

/// The catalog fields of a vehicle that decide its cohort.
pub struct VehicleCohortFields {
    pub vehicle_uid: String,
    pub make: String,
    pub model: String,
    pub trim: String,
    pub year_band: String,
}

/// The cohort key of a catalog row.
pub open spec fn vehicle_cohort_key(v: VehicleCohortFields) -> Seq<char> {
    cohort_key_text(v.make@, v.model@, v.trim@, v.year_band@)
}

/// One row of `cohort_ranking_snapshot`. `source_index` names the input entry
/// whose score the row carries.
pub struct RankingSnapshotRow {
    pub ranking_snapshot_id: String,
    pub ranking_type: String,
    pub timeframe: String,
    pub temperature_bin: String,
    pub cohort_key: String,
    pub cohort_size: i64,
    pub sample_gate_passed: i64,
    pub vehicle_uid: String,
    pub rank_position: i64,
    pub source_index: usize,
    pub confidence_level: String,
}

/// `row` is the snapshot row of the `m`-th ranked entry, whose ranking keys
/// are `keys`, written for `bin`.
pub open spec fn ranking_row_matches(
    row: RankingSnapshotRow,
    ranking_type: Seq<char>,
    timeframe: Seq<char>,
    bin: Seq<char>,
    keys: Seq<(Seq<char>, u64)>,
    m: int,
    vehicle_uid: Seq<char>,
    source_index: int,
    confidence_level: Seq<char>,
) -> bool {
    let p = expected_placement(keys, m);
    &&& is_hyphenated_uuid_v4(row.ranking_snapshot_id@)
    &&& row.ranking_type@ == ranking_type
    &&& row.timeframe@ == timeframe
    &&& row.temperature_bin@ == bin
    &&& row.cohort_key@ == keys[m].0
    &&& row.cohort_size == p.cohort_size
    &&& row.sample_gate_passed == (if p.sample_gate_passed { 1i64 } else { 0i64 })
    &&& row.vehicle_uid@ == vehicle_uid
    &&& row.rank_position == p.rank_position
    &&& row.source_index == source_index
    &&& row.confidence_level@ == confidence_level
}

fn make_ranking_row(
    ranking_type: &str,
    timeframe: &str,
    bin: &str,
    cohort_key: &String,
    placement: CohortPlacement,
    vehicle_uid: &String,
    source_index: usize,
    confidence_level: &str,
) -> (row: RankingSnapshotRow)
    ensures
        is_hyphenated_uuid_v4(row.ranking_snapshot_id@),
        row.ranking_type@ == ranking_type@,
        row.timeframe@ == timeframe@,
        row.temperature_bin@ == bin@,
        row.cohort_key@ == cohort_key@,
        row.cohort_size == placement.cohort_size,
        row.sample_gate_passed == (if placement.sample_gate_passed { 1i64 } else { 0i64 }),
        row.vehicle_uid@ == vehicle_uid@,
        row.rank_position == placement.rank_position,
        row.source_index == source_index,
        row.confidence_level@ == confidence_level@,
{
    RankingSnapshotRow {
        ranking_snapshot_id: new_uuid_v4_text(),
        ranking_type: String::from_str(ranking_type),
        timeframe: String::from_str(timeframe),
        temperature_bin: String::from_str(bin),
        cohort_key: cohort_key.clone(),
        cohort_size: placement.cohort_size,
        sample_gate_passed: if placement.sample_gate_passed { 1 } else { 0 },
        vehicle_uid: vehicle_uid.clone(),
        rank_position: placement.rank_position,
        source_index,
        confidence_level: String::from_str(confidence_level),
    }
}

// ---------------------------------------------------------------------------
// Temperature-impact rankings
// ---------------------------------------------------------------------------

/// A vehicle's temperature-impact KPI presence for one timeframe, with the
/// order key of its score.
pub struct TemperatureRankingSeed {
    pub vehicle: VehicleCohortFields,
    pub has_range_retention: bool,
    pub has_sensitivity: bool,
    pub has_charge_retention: bool,
    pub score_key: u64,
}

/// Temperature-impact rankings need both gated retention metrics.
pub open spec fn seed_is_rankable(s: TemperatureRankingSeed) -> bool {
    s.has_range_retention && s.has_charge_retention
}

/// Confidence of a temperature seed: `stable` with a sensitivity index,
/// `medium` without.
pub open spec fn temperature_seed_confidence(s: TemperatureRankingSeed) -> Seq<char> {
    if s.has_sensitivity {
        "stable"@
    } else {
        "medium"@
    }
}

/// Indices of the rankable seeds, in input order.
pub open spec fn rankable_seed_indices(s: Seq<TemperatureRankingSeed>) -> Seq<int> {
    indices_where(s, |x: TemperatureRankingSeed| seed_is_rankable(x))
}

/// Ranking keys of the rankable seeds.
pub open spec fn temperature_ranking_keys(s: Seq<TemperatureRankingSeed>) -> Seq<(Seq<char>, u64)> {
    rankable_seed_indices(s).map_values(|k: int| (vehicle_cohort_key(s[k].vehicle), s[k].score_key))
}

/// Plans the temperature-impact ranking rows of one timeframe: rankable seeds
/// are ranked within their cohorts, and each gets one row for the `all` bin
/// and one for the `cold` bin, in that order.
pub fn plan_temperature_rankings(timeframe: &str, seeds: &Vec<TemperatureRankingSeed>) -> (rows:
    Vec<RankingSnapshotRow>)
    requires
        seeds.len() < i64::MAX,
    ensures
        rows.len() == 2 * rankable_seed_indices(seeds@).len(),
        forall|m: int, b: int|
            0 <= m < rankable_seed_indices(seeds@).len() && 0 <= b < 2 ==> {
                let k = rankable_seed_indices(seeds@)[m];
                ranking_row_matches(
                    #[trigger] rows[2 * m + b],
                    TEMPERATURE_RANKING_TYPE@,
                    timeframe@,
                    if b == 0 {
                        "all"@
                    } else {
                        "cold"@
                    },
                    temperature_ranking_keys(seeds@),
                    m,
                    seeds@[k].vehicle.vehicle_uid@,
                    k,
                    temperature_seed_confidence(seeds@[k]),
                )
            },
        forall|j: int|
            0 <= j < rows.len() ==> (#[trigger] rows[j]).source_index < seeds.len()
                && seeds@[rows[j].source_index as int].has_range_retention
                && seeds@[rows[j].source_index as int].has_charge_retention,
        forall|k: int|
            0 <= k < seeds.len() && (#[trigger] seeds@[k]).has_range_retention && seeds@[k].has_charge_retention
                ==> (exists|j: int|
                0 <= j < rows.len() && (#[trigger] rows[j]).source_index == k && rows[j].temperature_bin@
                    == "all"@) && (exists|j: int|
                0 <= j < rows.len() && (#[trigger] rows[j]).source_index == k && rows[j].temperature_bin@
                    == "cold"@),
{
    let ghost s = seeds@;
    let mut candidates: Vec<RankingCandidate> = Vec::new();
    let mut sources: Vec<usize> = Vec::new();
    let n = seeds.len();
    let mut i: usize = 0;
    while i < n
        invariant
            n == seeds.len(),
            s == seeds@,
            i <= n,
            n < i64::MAX,
            candidates@.len() <= i,
            sources@.len() == candidates@.len(),
            sources@.map_values(|x: usize| x as int) == rankable_seed_indices(s.take(i as int)),
            forall|m: int|
                0 <= m < candidates@.len() ==> {
                    &&& (#[trigger] candidates@[m]).cohort_key@ == vehicle_cohort_key(
                        s[sources@[m] as int].vehicle,
                    )
                    &&& candidates@[m].score_key == s[sources@[m] as int].score_key
                    &&& candidates@[m].vehicle_uid@ == s[sources@[m] as int].vehicle.vehicle_uid@
                },
        decreases n - i,
    {
        let seed = &seeds[i];
        proof {
            lemma_indices_where_step(s, |x: TemperatureRankingSeed| seed_is_rankable(x), i as int);
        }
        if seed.has_range_retention && seed.has_charge_retention {
            let v = &seed.vehicle;
            let key = cohort_key(v.make.as_str(), v.model.as_str(), v.trim.as_str(), v.year_band.as_str());
            candidates.push(RankingCandidate {
                vehicle_uid: v.vehicle_uid.clone(),
                cohort_key: key,
                score_key: seed.score_key,
            });
            sources.push(i);
            assert(sources@.map_values(|x: usize| x as int) =~= rankable_seed_indices(s.take(i + 1)));
        } else {
            assert(sources@.map_values(|x: usize| x as int) =~= rankable_seed_indices(s.take(i + 1)));
        }
        i = i + 1;
    }
    assert(s.take(n as int) =~= s);
    let ghost idx = rankable_seed_indices(s);
    proof {
        lemma_indices_where_valid(s, |x: TemperatureRankingSeed| seed_is_rankable(x));
        assert(candidate_keys(candidates@) =~= temperature_ranking_keys(s)) by {
            assert forall|m: int| 0 <= m < candidates@.len() implies #[trigger] candidate_keys(candidates@)[m]
                == temperature_ranking_keys(s)[m] by {
                assert(sources@.map_values(|x: usize| x as int)[m] == idx[m]);
            }
        }
    }
    let placements = rank_cohorts(&candidates);
    let mut rows: Vec<RankingSnapshotRow> = Vec::new();
    let count = candidates.len();
    let mut m: usize = 0;
    while m < count
        invariant
            count == candidates.len(),
            count == idx.len(),
            placements.len() == count,
            s == seeds@,
            idx == rankable_seed_indices(s),
            candidate_keys(candidates@) == temperature_ranking_keys(s),
            sources@.len() == count,
            forall|q: int| 0 <= q < count ==> #[trigger] sources@[q] as int == idx[q],
            forall|q: int| 0 <= q < count ==> 0 <= #[trigger] idx[q] < s.len(),
            forall|q: int| 0 <= q < count ==> #[trigger] placements[q] == expected_placement(
                candidate_keys(candidates@), q),
            forall|q: int|
                0 <= q < count ==> (#[trigger] candidates@[q]).vehicle_uid@ == s[sources@[q] as int].vehicle.vehicle_uid@,
            m <= count,
            rows.len() == 2 * m,
            forall|q: int, b: int|
                0 <= q < m && 0 <= b < 2 ==> {
                    let k = idx[q];
                    ranking_row_matches(
                        #[trigger] rows[2 * q + b],
                        TEMPERATURE_RANKING_TYPE@,
                        timeframe@,
                        if b == 0 {
                            "all"@
                        } else {
                            "cold"@
                        },
                        temperature_ranking_keys(s),
                        q,
                        s[k].vehicle.vehicle_uid@,
                        k,
                        temperature_seed_confidence(s[k]),
                    )
                },
        decreases count - m,
    {
        let k = sources[m];
        let seed = &seeds[k];
        let confidence = if seed.has_sensitivity { "stable" } else { "medium" };
        let candidate = &candidates[m];
        let placement = placements[m];
        let row_all = make_ranking_row(
            TEMPERATURE_RANKING_TYPE,
            timeframe,
            "all",
            &candidate.cohort_key,
            placement,
            &candidate.vehicle_uid,
            k,
            confidence,
        );
        let row_cold = make_ranking_row(
            TEMPERATURE_RANKING_TYPE,
            timeframe,
            "cold",
            &candidate.cohort_key,
            placement,
            &candidate.vehicle_uid,
            k,
            confidence,
        );
        rows.push(row_all);
        rows.push(row_cold);
        proof {
            assert(candidate_keys(candidates@)[m as int].0 == candidate.cohort_key@);
        }
        m = m + 1;
    }
    proof {
        lemma_temperature_rows_rank_seeds_with_both_retentions(timeframe@, seeds@, rows@);
    }
    rows
}

/// Temperature-impact rankings rank exactly the vehicles that have both the
/// range-retention and the charge-retention metric: every row's seed has
/// both, and every seed with both is ranked in the `all` and the `cold` bin.
pub proof fn lemma_temperature_rows_rank_seeds_with_both_retentions(
    timeframe: Seq<char>,
    seeds: Seq<TemperatureRankingSeed>,
    rows: Seq<RankingSnapshotRow>,
)
    requires
        rows.len() == 2 * rankable_seed_indices(seeds).len(),
        forall|m: int, b: int|
            0 <= m < rankable_seed_indices(seeds).len() && 0 <= b < 2 ==> {
                let k = rankable_seed_indices(seeds)[m];
                ranking_row_matches(
                    #[trigger] rows[2 * m + b],
                    TEMPERATURE_RANKING_TYPE@,
                    timeframe,
                    if b == 0 {
                        "all"@
                    } else {
                        "cold"@
                    },
                    temperature_ranking_keys(seeds),
                    m,
                    seeds[k].vehicle.vehicle_uid@,
                    k,
                    temperature_seed_confidence(seeds[k]),
                )
            },
    ensures
        forall|j: int|
            0 <= j < rows.len() ==> (#[trigger] rows[j]).source_index < seeds.len()
                && seeds[rows[j].source_index as int].has_range_retention
                && seeds[rows[j].source_index as int].has_charge_retention,
        forall|k: int|
            0 <= k < seeds.len() && (#[trigger] seeds[k]).has_range_retention && seeds[k].has_charge_retention
                ==> (exists|j: int|
                0 <= j < rows.len() && (#[trigger] rows[j]).source_index == k && rows[j].temperature_bin@
                    == "all"@) && (exists|j: int|
                0 <= j < rows.len() && (#[trigger] rows[j]).source_index == k && rows[j].temperature_bin@
                    == "cold"@),
{
    let p = |x: TemperatureRankingSeed| seed_is_rankable(x);
    let idx = rankable_seed_indices(seeds);
    lemma_indices_where_valid(seeds, p);
    assert forall|j: int| 0 <= j < rows.len() implies (#[trigger] rows[j]).source_index < seeds.len()
        && seeds[rows[j].source_index as int].has_range_retention
        && seeds[rows[j].source_index as int].has_charge_retention by {
        let m = j / 2;
        let b = j % 2;
        assert(j == 2 * m + b);
        assert(0 <= m < idx.len());
        assert(rows[2 * m + b].source_index == idx[m]);
        assert(0 <= idx[m] < seeds.len() && p(seeds[idx[m]]));
    }
    assert forall|k: int|
        0 <= k < seeds.len() && (#[trigger] seeds[k]).has_range_retention && seeds[k].has_charge_retention implies (
        exists|j: int|
            0 <= j < rows.len() && (#[trigger] rows[j]).source_index == k && rows[j].temperature_bin@ == "all"@)
        && (exists|j: int|
            0 <= j < rows.len() && (#[trigger] rows[j]).source_index == k && rows[j].temperature_bin@
                == "cold"@) by {
        assert(p(seeds[k]));
        lemma_indices_where_complete(seeds, p, k);
        let m = choose|m: int| 0 <= m < idx.len() && #[trigger] idx[m] == k;
        assert(rows[2 * m + 0].source_index == k && rows[2 * m + 0].temperature_bin@ == "all"@);
        assert(rows[2 * m + 1].source_index == k && rows[2 * m + 1].temperature_bin@ == "cold"@);
    }
}

// ---------------------------------------------------------------------------
// Range, charging and composite rankings
// ---------------------------------------------------------------------------

/// A vehicle's latest KPI set for one ranking type and timeframe, reduced to
/// what ranking needs: whether it has any KPI, the order key of its score and
/// its confidence level.
pub struct KpiRankingEntry {
    pub vehicle: VehicleCohortFields,
    pub has_kpis: bool,
    pub score_key: u64,
    pub confidence_level: String,
}

/// Indices of the entries that have KPIs, in input order.
pub open spec fn ranked_entry_indices(s: Seq<KpiRankingEntry>) -> Seq<int> {
    indices_where(s, |x: KpiRankingEntry| x.has_kpis)
}

/// Ranking keys of the entries that have KPIs.
pub open spec fn kpi_ranking_keys(s: Seq<KpiRankingEntry>) -> Seq<(Seq<char>, u64)> {
    ranked_entry_indices(s).map_values(|k: int| (vehicle_cohort_key(s[k].vehicle), s[k].score_key))
}

/// Plans the ranking rows of one non-temperature ranking type and timeframe:
/// vehicles with KPIs are ranked within their cohorts and get one row each,
/// for the `all` bin.
pub fn plan_kpi_rankings(ranking_type: &str, timeframe: &str, entries: &Vec<KpiRankingEntry>) -> (rows:
    Vec<RankingSnapshotRow>)
    requires
        entries.len() < i64::MAX,
    ensures
        rows.len() == ranked_entry_indices(entries@).len(),
        forall|m: int|
            0 <= m < ranked_entry_indices(entries@).len() ==> {
                let k = ranked_entry_indices(entries@)[m];
                ranking_row_matches(
                    #[trigger] rows[m],
                    ranking_type@,
                    timeframe@,
                    "all"@,
                    kpi_ranking_keys(entries@),
                    m,
                    entries@[k].vehicle.vehicle_uid@,
                    k,
                    entries@[k].confidence_level@,
                )
            },
{
    let ghost s = entries@;
    let mut candidates: Vec<RankingCandidate> = Vec::new();
    let mut sources: Vec<usize> = Vec::new();
    let n = entries.len();
    let mut i: usize = 0;
    while i < n
        invariant
            n == entries.len(),
            s == entries@,
            i <= n,
            n < i64::MAX,
            candidates@.len() <= i,
            sources@.len() == candidates@.len(),
            sources@.map_values(|x: usize| x as int) == ranked_entry_indices(s.take(i as int)),
            forall|m: int|
                0 <= m < candidates@.len() ==> {
                    &&& (#[trigger] candidates@[m]).cohort_key@ == vehicle_cohort_key(
                        s[sources@[m] as int].vehicle,
                    )
                    &&& candidates@[m].score_key == s[sources@[m] as int].score_key
                    &&& candidates@[m].vehicle_uid@ == s[sources@[m] as int].vehicle.vehicle_uid@
                },
        decreases n - i,
    {
        let entry = &entries[i];
        proof {
            lemma_indices_where_step(s, |x: KpiRankingEntry| x.has_kpis, i as int);
        }
        if entry.has_kpis {
            let v = &entry.vehicle;
            let key = cohort_key(v.make.as_str(), v.model.as_str(), v.trim.as_str(), v.year_band.as_str());
            candidates.push(RankingCandidate {
                vehicle_uid: v.vehicle_uid.clone(),
                cohort_key: key,
                score_key: entry.score_key,
            });
            sources.push(i);
            assert(sources@.map_values(|x: usize| x as int) =~= ranked_entry_indices(s.take(i + 1)));
        } else {
            assert(sources@.map_values(|x: usize| x as int) =~= ranked_entry_indices(s.take(i + 1)));
        }
        i = i + 1;
    }
    assert(s.take(n as int) =~= s);
    let ghost idx = ranked_entry_indices(s);
    proof {
        lemma_indices_where_valid(s, |x: KpiRankingEntry| x.has_kpis);
        assert(candidate_keys(candidates@) =~= kpi_ranking_keys(s)) by {
            assert forall|m: int| 0 <= m < candidates@.len() implies #[trigger] candidate_keys(candidates@)[m]
                == kpi_ranking_keys(s)[m] by {
                assert(sources@.map_values(|x: usize| x as int)[m] == idx[m]);
            }
        }
    }
    let placements = rank_cohorts(&candidates);
    let mut rows: Vec<RankingSnapshotRow> = Vec::new();
    let count = candidates.len();
    let mut m: usize = 0;
    while m < count
        invariant
            count == candidates.len(),
            count == idx.len(),
            placements.len() == count,
            s == entries@,
            idx == ranked_entry_indices(s),
            candidate_keys(candidates@) == kpi_ranking_keys(s),
            sources@.len() == count,
            forall|q: int| 0 <= q < count ==> #[trigger] sources@[q] as int == idx[q],
            forall|q: int| 0 <= q < count ==> 0 <= #[trigger] idx[q] < s.len(),
            forall|q: int| 0 <= q < count ==> #[trigger] placements[q] == expected_placement(
                candidate_keys(candidates@), q),
            forall|q: int|
                0 <= q < count ==> (#[trigger] candidates@[q]).vehicle_uid@ == s[sources@[q] as int].vehicle.vehicle_uid@,
            m <= count,
            rows.len() == m,
            forall|q: int|
                0 <= q < m ==> {
                    let k = idx[q];
                    ranking_row_matches(
                        #[trigger] rows[q],
                        ranking_type@,
                        timeframe@,
                        "all"@,
                        kpi_ranking_keys(s),
                        q,
                        s[k].vehicle.vehicle_uid@,
                        k,
                        s[k].confidence_level@,
                    )
                },
        decreases count - m,
    {
        let k = sources[m];
        let entry = &entries[k];
        let candidate = &candidates[m];
        let placement = placements[m];
        let row = make_ranking_row(
            ranking_type,
            timeframe,
            "all",
            &candidate.cohort_key,
            placement,
            &candidate.vehicle_uid,
            k,
            entry.confidence_level.as_str(),
        );
        rows.push(row);
        proof {
            assert(candidate_keys(candidates@)[m as int].0 == candidate.cohort_key@);
        }
        m = m + 1;
    }
    rows
}

} // verus!
