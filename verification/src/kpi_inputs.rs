//! Integer and label decisions inside the charging and composite KPI passes.
use vstd::prelude::*;

verus! {

/// The larger of two counts.
pub open spec fn max_i64(a: i64, b: i64) -> i64 {
    if a >= b {
        a
    } else {
        b
    }
}

/// Sample count of the composite scores: the largest of the range-score,
/// charging-score (missing ones counting zero) and health-penalty samples.
pub fn composite_sample_count(
    range_samples: Option<i64>,
    charging_samples: Option<i64>,
    health_samples: i64,
) -> (samples: i64)
    ensures
        samples == max_i64(
            max_i64(
                match range_samples {
                    Some(r) => r,
                    None => 0,
                },
                match charging_samples {
                    Some(c) => c,
                    None => 0,
                },
            ),
            health_samples,
        ),
{
    let range = match range_samples {
        Some(r) => r,
        None => 0,
    };
    let charging = match charging_samples {
        Some(c) => c,
        None => 0,
    };
    let scores = if range >= charging {
        range
    } else {
        charging
    };
    if scores >= health_samples {
        scores
    } else {
        health_samples
    }
}

/// Number of composite snapshots written for a vehicle and timeframe: the
/// base score, the health penalty and the adjusted score when at least one
/// family score exists, none otherwise.
pub fn composite_snapshot_count(has_range_score: bool, has_charging_score: bool) -> (count: usize)
    ensures
        count == if has_range_score || has_charging_score {
            3usize
        } else {
            0usize
        },
{
    if has_range_score || has_charging_score {
        3
    } else {
        0
    }
}

/// Which charging-power buckets a session's temperature bin feeds besides
/// the overall one.
#[derive(Clone, Copy, Debug, PartialEq, Eq)]
pub struct ChargeBinMembership {
    pub cold: bool,
    pub mild: bool,
}

/// Sessions in the `cold` or `very_cold` bin feed the cold bucket; sessions
/// in the `mild` bin feed the mild bucket.
pub fn charge_bin_membership(bin: &String) -> (m: ChargeBinMembership)
    ensures
        m.cold == (bin@ == "cold"@ || bin@ == "very_cold"@),
        m.mild == (bin@ == "mild"@),
{
    let cold = *bin == String::from_str("cold") || *bin == String::from_str("very_cold");
    let mild = *bin == String::from_str("mild");
    ChargeBinMembership { cold, mild }
}

/// Sample count of the cold-weather retention metric: the smaller bucket.
pub fn retention_sample_count(cold_sessions: usize, mild_sessions: usize) -> (samples: i64)
    ensures
        samples == (if cold_sessions <= mild_sessions {
            cold_sessions
        } else {
            mild_sessions
        }) as i64,
{
    let smaller = if cold_sessions <= mild_sessions {
        cold_sessions
    } else {
        mild_sessions
    };
    smaller as i64
}

} // verus!
