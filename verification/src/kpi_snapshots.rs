//! KPI snapshot passes: the timeframes and families recomputed, the lock
//! check every snapshot passes before it is written, and the rows a pass
//! writes for a vehicle and timeframe.
use vstd::prelude::*;
use crate::counting::{
    indices_where, lemma_indices_where_bounds, lemma_indices_where_step, lemma_indices_where_valid,
};
use crate::ids::{is_hyphenated_uuid_v4, new_uuid_v4_text};

verus! {

/// Ranking type of the range-efficiency family.
pub const RANGE_RANKING_TYPE: &'static str = "ev_range_efficiency";

/// Ranking type of the charging-performance family.
pub const CHARGING_RANKING_TYPE: &'static str = "ev_charging_performance";

/// Ranking type of the composite family.
pub const COMPOSITE_RANKING_TYPE: &'static str = "ev_composite";

/// Ranking type of the temperature-impact family.
pub const TEMPERATURE_RANKING_TYPE: &'static str = "ev_temperature_impact";

/// Temperature bin the temperature-impact family compares against.
pub const TEMPERATURE_BASELINE_BIN: &'static str = "mild";

/// Temperature bin the temperature-impact family measures.
pub const TEMPERATURE_COMPARE_BIN: &'static str = "cold";

/// Provenance recorded on every recomputed snapshot.
pub const SNAPSHOT_SOURCE_JOB: &'static str = "internal_recompute";

/// The timeframes every KPI pass materializes, in pass order.
pub open spec fn kpi_timeframe_texts() -> Seq<Seq<char>> {
    seq!["30d"@, "90d"@, "180d"@]
}

/// The families the non-temperature pass recomputes, in pass order.
pub open spec fn non_temperature_family_texts() -> Seq<Seq<char>> {
    seq![RANGE_RANKING_TYPE@, CHARGING_RANKING_TYPE@, COMPOSITE_RANKING_TYPE@]
}

/// The timeframes every KPI pass materializes.
pub fn kpi_timeframes() -> (timeframes: Vec<&'static str>)
    ensures
        timeframes.len() == 3,
        forall|i: int| 0 <= i < 3 ==> (#[trigger] timeframes[i])@ == kpi_timeframe_texts()[i],
{
    let mut timeframes: Vec<&'static str> = Vec::new();
    timeframes.push("30d");
    timeframes.push("90d");
    timeframes.push("180d");
    timeframes
}

/// The families the non-temperature pass recomputes.
pub fn non_temperature_families() -> (families: Vec<&'static str>)
    ensures
        families.len() == 3,
        forall|i: int| 0 <= i < 3 ==> (#[trigger] families[i])@ == non_temperature_family_texts()[i],
{
    let mut families: Vec<&'static str> = Vec::new();
    families.push(RANGE_RANKING_TYPE);
    families.push(CHARGING_RANKING_TYPE);
    families.push(COMPOSITE_RANKING_TYPE);
    families
}

/// The (timeframe, family) pairs the non-temperature passes clear and
/// rebuild, timeframe by timeframe.
pub fn non_temperature_pass_order() -> (pairs: Vec<(&'static str, &'static str)>)
    ensures
        pairs.len() == 9,
        forall|t: int, f: int|
            0 <= t < 3 && 0 <= f < 3 ==> (#[trigger] pairs[3 * t + f]).0@ == kpi_timeframe_texts()[t]
                && pairs[3 * t + f].1@ == non_temperature_family_texts()[f],
{
    let timeframes = kpi_timeframes();
    let families = non_temperature_families();
    let mut pairs: Vec<(&'static str, &'static str)> = Vec::new();
    let mut t: usize = 0;
    while t < 3
        invariant
            timeframes.len() == 3,
            families.len() == 3,
            forall|i: int| 0 <= i < 3 ==> (#[trigger] timeframes[i])@ == kpi_timeframe_texts()[i],
            forall|i: int| 0 <= i < 3 ==> (#[trigger] families[i])@ == non_temperature_family_texts()[i],
            t <= 3,
            pairs.len() == 3 * t,
            forall|a: int, b: int|
                0 <= a < t && 0 <= b < 3 ==> (#[trigger] pairs[3 * a + b]).0@ == kpi_timeframe_texts()[a]
                    && pairs[3 * a + b].1@ == non_temperature_family_texts()[b],
        decreases 3 - t,
    {
        let mut f: usize = 0;
        while f < 3
            invariant
                timeframes.len() == 3,
                families.len() == 3,
                forall|i: int| 0 <= i < 3 ==> (#[trigger] timeframes[i])@ == kpi_timeframe_texts()[i],
                forall|i: int| 0 <= i < 3 ==> (#[trigger] families[i])@ == non_temperature_family_texts()[i],
                t < 3,
                f <= 3,
                pairs.len() == 3 * t + f,
                forall|a: int, b: int|
                    0 <= a < t && 0 <= b < 3 ==> (#[trigger] pairs[3 * a + b]).0@ == kpi_timeframe_texts()[a]
                        && pairs[3 * a + b].1@ == non_temperature_family_texts()[b],
                forall|b: int|
                    0 <= b < f ==> (#[trigger] pairs[3 * t + b]).0@ == kpi_timeframe_texts()[t as int]
                        && pairs[3 * t + b].1@ == non_temperature_family_texts()[b],
            decreases 3 - f,
        {
            pairs.push((timeframes[t], families[f]));
            f = f + 1;
        }
        t = t + 1;
    }
    pairs
}

// ---------------------------------------------------------------------------
// Lock check
// ---------------------------------------------------------------------------

/// A KPI computed for a vehicle and timeframe, without its numeric value.
pub struct MetricCalc {
    pub key: String,
    pub unit: String,
    pub direction: String,
    pub sample_count: i64,
    pub confidence_level: String,
}

/// An approved (locked) KPI formula of one ranking family.
pub struct LockedKpiSpec {
    pub ranking_type: String,
    pub kpi_key: String,
    pub formula: String,
    pub required_signals: Vec<String>,
    pub optional_signals: Vec<String>,
}

/// Why a snapshot may not be written.
pub enum KpiSnapshotError {
    /// No locked formula exists for the key in the family.
    NotLocked { kpi_key: String, ranking_type: String },
    /// The metric reports a negative sample count.
    NegativeSampleCount { kpi_key: String, sample_count: i64 },
}

/// Lock table entry `e` approves `kpi_key` for `ranking_type`.
pub open spec fn approves(e: LockedKpiSpec, ranking_type: Seq<char>, kpi_key: Seq<char>) -> bool {
    e.ranking_type@ == ranking_type && e.kpi_key@ == kpi_key
}

/// Positions of the lock entries that approve `kpi_key` for `ranking_type`.
pub open spec fn approving_entries(
    locked: Seq<LockedKpiSpec>,
    ranking_type: Seq<char>,
    kpi_key: Seq<char>,
) -> Seq<int> {
    indices_where(locked, |e: LockedKpiSpec| approves(e, ranking_type, kpi_key))
}

/// A lock lookup is by family and key together: no entry approves a key
/// exactly when no entry has both the family and the key, and the first
/// approving entry has both, with no entry before it having both.
pub proof fn lemma_lock_lookup_by_family_and_key(
    locked: Seq<LockedKpiSpec>,
    ranking_type: Seq<char>,
    kpi_key: Seq<char>,
)
    ensures
        approving_entries(locked, ranking_type, kpi_key).len() == 0 <==> forall|k: int|
            0 <= k < locked.len() ==> !((#[trigger] locked[k]).ranking_type@ == ranking_type
                && locked[k].kpi_key@ == kpi_key),
        approving_entries(locked, ranking_type, kpi_key).len() > 0 ==> {
            let first = approving_entries(locked, ranking_type, kpi_key)[0];
            &&& 0 <= first < locked.len()
            &&& locked[first].ranking_type@ == ranking_type
            &&& locked[first].kpi_key@ == kpi_key
            &&& forall|j: int|
                0 <= j < first ==> !((#[trigger] locked[j]).ranking_type@ == ranking_type
                    && locked[j].kpi_key@ == kpi_key)
        },
{
    let p = |e: LockedKpiSpec| approves(e, ranking_type, kpi_key);
    lemma_indices_where_valid(locked, p);
    lemma_indices_where_bounds(locked, p);
    let found = indices_where(locked, p);
    if found.len() > 0 {
        assert(0 <= found[0] < locked.len() && p(locked[found[0]]));
    }
}

/// Checks one snapshot against the lock table before it is written: the
/// metric's key must be locked for the family, and its sample count must not
/// be negative. On success, returns the first approving lock entry.
pub fn validate_locked_kpi_snapshot<'a>(
    ranking_type: &str,
    metric: &MetricCalc,
    locked: &'a Vec<LockedKpiSpec>,
) -> (res: Result<&'a LockedKpiSpec, KpiSnapshotError>)
    ensures
        ({
            let found = approving_entries(locked@, ranking_type@, metric.key@);
            &&& res is Ok <==> (found.len() > 0 && metric.sample_count >= 0)
            &&& res matches Ok(spec) ==> *spec == locked@[found[0]]
            &&& res matches Err(e) ==> (if found.len() == 0 {
                e matches KpiSnapshotError::NotLocked { kpi_key, ranking_type: rt } && kpi_key@
                    == metric.key@ && rt@ == ranking_type@
            } else {
                e matches KpiSnapshotError::NegativeSampleCount { kpi_key, sample_count } && kpi_key@
                    == metric.key@ && sample_count == metric.sample_count
            })
        }),
        res matches Ok(spec) ==> spec.ranking_type@ == ranking_type@ && spec.kpi_key@ == metric.key@
            && metric.sample_count >= 0 && exists|k: int|
            0 <= k < locked.len() && *spec == locked@[k] && forall|j: int|
                0 <= j < k ==> !((#[trigger] locked@[j]).ranking_type@ == ranking_type@ && locked@[j].kpi_key@
                    == metric.key@),
        (forall|k: int|
            0 <= k < locked.len() ==> !((#[trigger] locked@[k]).ranking_type@ == ranking_type@
                && locked@[k].kpi_key@ == metric.key@)) ==> res matches Err(
            KpiSnapshotError::NotLocked { .. },
        ),
        (exists|k: int|
            0 <= k < locked.len() && (#[trigger] locked@[k]).ranking_type@ == ranking_type@
                && locked@[k].kpi_key@ == metric.key@) ==> (res is Ok <==> metric.sample_count >= 0),
{
    proof {
        lemma_lock_lookup_by_family_and_key(locked@, ranking_type@, metric.key@);
    }
    let ghost p = |e: LockedKpiSpec| approves(e, ranking_type@, metric.key@);
    let ghost s = locked@;
    let rt = ranking_type.to_owned();
    let n = locked.len();
    let mut i: usize = 0;
    let mut found: Option<usize> = None;
    while i < n
        invariant
            n == locked.len(),
            s == locked@,
            rt@ == ranking_type@,
            p == (|e: LockedKpiSpec| approves(e, ranking_type@, metric.key@)),
            i <= n,
            found is None ==> indices_where(s.take(i as int), p).len() == 0,
            found matches Some(k) ==> indices_where(s.take(i as int), p).len() > 0
                && indices_where(s.take(i as int), p)[0] == k,
        decreases n - i,
    {
        proof {
            lemma_indices_where_step(s, p, i as int);
        }
        if found.is_none() && locked[i].ranking_type == rt && locked[i].kpi_key == metric.key {
            found = Some(i);
        }
        i = i + 1;
    }
    assert(s.take(n as int) =~= s);
    proof {
        lemma_indices_where_valid(s, p);
    }
    match found {
        None => Err(
            KpiSnapshotError::NotLocked { kpi_key: metric.key.clone(), ranking_type: rt },
        ),
        Some(k) => {
            if metric.sample_count < 0 {
                Err(
                    KpiSnapshotError::NegativeSampleCount {
                        kpi_key: metric.key.clone(),
                        sample_count: metric.sample_count,
                    },
                )
            } else {
                Ok(&locked[k])
            }
        },
    }
}

// ---------------------------------------------------------------------------
// Snapshot rows of one vehicle and timeframe
// ---------------------------------------------------------------------------

/// One `vehicle_kpi_snapshot` row to write; `metric_index` names the metric
/// whose value, unit, direction, confidence and sample count it carries.
pub struct KpiSnapshotPlan {
    pub snapshot_id: String,
    pub ranking_type: String,
    pub timeframe: String,
    pub metric_index: usize,
    pub temperature_bin: String,
    pub baseline_temperature_bin: Option<String>,
    pub compare_temperature_bin: Option<String>,
    pub source_job_id: String,
}

/// `row` writes metric `m` of `ranking_type` and `timeframe` in `bin`, with
/// the given comparison bins.
pub open spec fn snapshot_row_matches(
    row: KpiSnapshotPlan,
    ranking_type: Seq<char>,
    timeframe: Seq<char>,
    m: int,
    bin: Seq<char>,
    baseline: Option<Seq<char>>,
    compare: Option<Seq<char>>,
) -> bool {
    &&& is_hyphenated_uuid_v4(row.snapshot_id@)
    &&& row.ranking_type@ == ranking_type
    &&& row.timeframe@ == timeframe
    &&& row.metric_index == m
    &&& row.temperature_bin@ == bin
    &&& opt_seq(row.baseline_temperature_bin) == baseline
    &&& opt_seq(row.compare_temperature_bin) == compare
    &&& row.source_job_id@ == SNAPSHOT_SOURCE_JOB@
}

/// The text of an optional string.
pub open spec fn opt_seq(s: Option<String>) -> Option<Seq<char>> {
    match s {
        Some(t) => Some(t@),
        None => None,
    }
}

fn snapshot_row(
    ranking_type: &str,
    timeframe: &str,
    metric_index: usize,
    bin: &str,
    baseline: Option<&str>,
    compare: Option<&str>,
) -> (row: KpiSnapshotPlan)
    ensures
        snapshot_row_matches(
            row,
            ranking_type@,
            timeframe@,
            metric_index as int,
            bin@,
            match baseline {
                Some(b) => Some(b@),
                None => None,
            },
            match compare {
                Some(c) => Some(c@),
                None => None,
            },
        ),
{
    let baseline_temperature_bin = match baseline {
        Some(b) => Some(String::from_str(b)),
        None => None,
    };
    let compare_temperature_bin = match compare {
        Some(c) => Some(String::from_str(c)),
        None => None,
    };
    KpiSnapshotPlan {
        snapshot_id: new_uuid_v4_text(),
        ranking_type: String::from_str(ranking_type),
        timeframe: String::from_str(timeframe),
        metric_index,
        temperature_bin: String::from_str(bin),
        baseline_temperature_bin,
        compare_temperature_bin,
        source_job_id: String::from_str(SNAPSHOT_SOURCE_JOB),
    }
}

/// Plans the temperature-impact rows of one vehicle and timeframe: each
/// metric is written twice, for the `all` and the `cold` bin, both comparing
/// `cold` against `mild`.
pub fn plan_temperature_kpi_snapshots(timeframe: &str, metric_count: usize) -> (rows: Vec<
    KpiSnapshotPlan,
>)
    requires
        metric_count <= usize::MAX / 2,
    ensures
        rows.len() == 2 * metric_count,
        forall|m: int, b: int|
            0 <= m < metric_count && 0 <= b < 2 ==> snapshot_row_matches(
                #[trigger] rows[2 * m + b],
                TEMPERATURE_RANKING_TYPE@,
                timeframe@,
                m,
                if b == 0 {
                    "all"@
                } else {
                    "cold"@
                },
                Some(TEMPERATURE_BASELINE_BIN@),
                Some(TEMPERATURE_COMPARE_BIN@),
            ),
{
    let mut rows: Vec<KpiSnapshotPlan> = Vec::new();
    let mut m: usize = 0;
    while m < metric_count
        invariant
            m <= metric_count,
            rows.len() == 2 * m,
            forall|q: int, b: int|
                0 <= q < m && 0 <= b < 2 ==> snapshot_row_matches(
                    #[trigger] rows[2 * q + b],
                    TEMPERATURE_RANKING_TYPE@,
                    timeframe@,
                    q,
                    if b == 0 {
                        "all"@
                    } else {
                        "cold"@
                    },
                    Some(TEMPERATURE_BASELINE_BIN@),
                    Some(TEMPERATURE_COMPARE_BIN@),
                ),
        decreases metric_count - m,
    {
        let all = snapshot_row(
            TEMPERATURE_RANKING_TYPE,
            timeframe,
            m,
            "all",
            Some(TEMPERATURE_BASELINE_BIN),
            Some(TEMPERATURE_COMPARE_BIN),
        );
        let cold = snapshot_row(
            TEMPERATURE_RANKING_TYPE,
            timeframe,
            m,
            "cold",
            Some(TEMPERATURE_BASELINE_BIN),
            Some(TEMPERATURE_COMPARE_BIN),
        );
        rows.push(all);
        rows.push(cold);
        m = m + 1;
    }
    rows
}

/// Plans the rows of one non-temperature family for one vehicle and
/// timeframe: each metric once, in the `all` bin, without comparison bins.
pub fn plan_family_kpi_snapshots(ranking_type: &str, timeframe: &str, metric_count: usize) -> (rows:
    Vec<KpiSnapshotPlan>)
    ensures
        rows.len() == metric_count,
        forall|m: int|
            0 <= m < metric_count ==> snapshot_row_matches(
                #[trigger] rows[m],
                ranking_type@,
                timeframe@,
                m,
                "all"@,
                None,
                None,
            ),
{
    let mut rows: Vec<KpiSnapshotPlan> = Vec::new();
    let mut m: usize = 0;
    while m < metric_count
        invariant
            m <= metric_count,
            rows.len() == m,
            forall|q: int|
                0 <= q < m ==> snapshot_row_matches(
                    #[trigger] rows[q],
                    ranking_type@,
                    timeframe@,
                    q,
                    "all"@,
                    None,
                    None,
                ),
        decreases metric_count - m,
    {
        rows.push(snapshot_row(ranking_type, timeframe, m, "all", None, None));
        m = m + 1;
    }
    rows
}

} // verus!
