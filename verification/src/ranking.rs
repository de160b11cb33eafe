//! Cohort rankings: vehicles sharing a cohort key are ranked by score,
//! best first, ties keeping their input order.
use vstd::prelude::*;
use vstd::set_lib::{lemma_int_range, lemma_len_subset, lemma_map_size, set_int_range};
use crate::counting::{
    count_where, index_set, lemma_index_set_len, lemma_count_equal, lemma_count_monotone, lemma_count_strictly_monotone,
    lemma_count_without,
};

verus! {

/// A cohort of at least this many vehicles passes the sample gate.
pub const COHORT_SAMPLE_GATE: i64 = 10;

/// One vehicle entering a ranking pass.
///
/// `score_key` orders scores: a larger key is a better score.
pub struct RankingCandidate {
    pub vehicle_uid: String,
    pub cohort_key: String,
    pub score_key: u64,
}

/// Where one candidate lands in its cohort.
#[derive(Clone, Copy, Debug, PartialEq, Eq)]
pub struct CohortPlacement {
    /// Number of candidates that share the cohort key.
    pub cohort_size: i64,
    /// 1-based position within the cohort.
    pub rank_position: i64,
    /// Whether the cohort is large enough to publish.
    pub sample_gate_passed: bool,
}

/// The ranking view of candidates: each one's cohort key and score key.
pub open spec fn candidate_keys(c: Seq<RankingCandidate>) -> Seq<(Seq<char>, u64)> {
    c.map_values(|x: RankingCandidate| (x.cohort_key@, x.score_key))
}

/// Candidates `j` and `i` belong to the same cohort.
pub open spec fn same_cohort(c: Seq<(Seq<char>, u64)>, j: int, i: int) -> bool {
    c[j].0 == c[i].0
}

/// Candidate `j` is placed before candidate `i`: same cohort and a better
/// score, or an equal score and an earlier input position.
pub open spec fn ranked_ahead(c: Seq<(Seq<char>, u64)>, j: int, i: int) -> bool {
    &&& same_cohort(c, j, i)
    &&& (c[j].1 > c[i].1 || (c[j].1 == c[i].1 && j < i))
}

/// Number of candidates in the cohort of candidate `i`.
pub open spec fn cohort_size_of(c: Seq<(Seq<char>, u64)>, i: int) -> nat {
    count_where(c.len() as int, |j: int| same_cohort(c, j, i))
}

/// 1-based rank of candidate `i`: one more than the number placed ahead of it.
/// This is its position after a stable sort of its cohort by descending score.
pub open spec fn rank_position_of(c: Seq<(Seq<char>, u64)>, i: int) -> nat {
    1 + count_where(c.len() as int, |j: int| ranked_ahead(c, j, i))
}

/// The placement the ranking assigns to candidate `i`.
pub open spec fn expected_placement(c: Seq<(Seq<char>, u64)>, i: int) -> CohortPlacement {
    CohortPlacement {
        cohort_size: cohort_size_of(c, i) as i64,
        rank_position: rank_position_of(c, i) as i64,
        sample_gate_passed: cohort_size_of(c, i) >= COHORT_SAMPLE_GATE,
    }
}

/// Ranks every candidate within its cohort. `placements[i]` belongs to
/// `candidates[i]`.
pub fn rank_cohorts(candidates: &Vec<RankingCandidate>) -> (placements: Vec<CohortPlacement>)
    requires
        candidates.len() < i64::MAX,
    ensures
        placements.len() == candidates.len(),
        forall|i: int|
            0 <= i < candidates.len() ==> #[trigger] placements[i] == expected_placement(
                candidate_keys(candidates@),
                i,
            ),
{
    let n = candidates.len();
    let ghost c = candidate_keys(candidates@);
    let mut placements: Vec<CohortPlacement> = Vec::new();
    let mut i: usize = 0;
    while i < n
        invariant
            n == candidates.len(),
            c == candidate_keys(candidates@),
            n < i64::MAX,
            i <= n,
            placements.len() == i,
            forall|k: int| 0 <= k < i ==> #[trigger] placements[k] == expected_placement(c, k),
        decreases n - i,
    {
        let ghost in_cohort = |j: int| same_cohort(c, j, i as int);
        let ghost ahead = |j: int| ranked_ahead(c, j, i as int);
        let mut size: usize = 0;
        let mut before: usize = 0;
        let mut j: usize = 0;
        while j < n
            invariant
                n == candidates.len(),
                c == candidate_keys(candidates@),
                i < n,
                n < i64::MAX,
                j <= n,
                size <= j,
                before <= j,
                j > i ==> before < j,
                in_cohort == (|k: int| same_cohort(c, k, i as int)),
                ahead == (|k: int| ranked_ahead(c, k, i as int)),
                size == count_where(j as int, in_cohort),
                before == count_where(j as int, ahead),
            decreases n - j,
        {
            let same = candidates[j].cohort_key == candidates[i].cohort_key;
            let sj = candidates[j].score_key;
            let si = candidates[i].score_key;
            let is_ahead = same && (sj > si || (sj == si && j < i));
            proof {
                assert(in_cohort(j as int) == same);
                assert(ahead(j as int) == is_ahead);
                assert(count_where(j + 1, in_cohort) == count_where(j as int, in_cohort) + (if same { 1nat } else { 0nat }));
                assert(count_where(j + 1, ahead) == count_where(j as int, ahead) + (if is_ahead { 1nat } else { 0nat }));
            }
            if same {
                size = size + 1;
            }
            if is_ahead {
                before = before + 1;
            }
            j = j + 1;
        }
        let size_i64 = size as i64;
        let placement = CohortPlacement {
            cohort_size: size_i64,
            rank_position: (before + 1) as i64,
            sample_gate_passed: size_i64 >= COHORT_SAMPLE_GATE,
        };
        placements.push(placement);
        i = i + 1;
    }
    placements
}

/// Every rank lies between 1 and the size of the candidate's cohort.
pub proof fn lemma_rank_within_cohort(c: Seq<(Seq<char>, u64)>, i: int)
    requires
        0 <= i < c.len(),
    ensures
        1 <= rank_position_of(c, i) <= cohort_size_of(c, i),
{
    let n = c.len() as int;
    let in_cohort = |j: int| same_cohort(c, j, i);
    let ahead = |j: int| ranked_ahead(c, j, i);
    lemma_count_without(n, in_cohort, i);
    lemma_count_monotone(n, ahead, |k: int| in_cohort(k) && k != i);
}

/// All members of one cohort report the same cohort size.
pub proof fn lemma_cohort_members_share_size(c: Seq<(Seq<char>, u64)>, i: int, j: int)
    requires
        0 <= i < c.len(),
        0 <= j < c.len(),
        same_cohort(c, i, j),
    ensures
        cohort_size_of(c, i) == cohort_size_of(c, j),
{
    lemma_count_equal(
        c.len() as int,
        |k: int| same_cohort(c, k, i),
        |k: int| same_cohort(c, k, j),
    );
}

/// A candidate placed ahead of another gets a strictly smaller rank.
proof fn lemma_ahead_ranks_first(c: Seq<(Seq<char>, u64)>, i: int, j: int)
    requires
        0 <= i < c.len(),
        0 <= j < c.len(),
        ranked_ahead(c, i, j),
    ensures
        rank_position_of(c, i) < rank_position_of(c, j),
{
    let ahead_i = |k: int| ranked_ahead(c, k, i);
    let ahead_j = |k: int| ranked_ahead(c, k, j);
    assert forall|k: int| 0 <= k < c.len() && #[trigger] ahead_i(k) implies ahead_j(k) by {}
    lemma_count_strictly_monotone(c.len() as int, ahead_i, ahead_j, i);
}

/// Within a cohort, a better score earns a better (smaller) rank.
pub proof fn lemma_better_score_ranks_first(c: Seq<(Seq<char>, u64)>, i: int, j: int)
    requires
        0 <= i < c.len(),
        0 <= j < c.len(),
        same_cohort(c, i, j),
        c[i].1 > c[j].1,
    ensures
        rank_position_of(c, i) < rank_position_of(c, j),
{
    lemma_ahead_ranks_first(c, i, j);
}

/// Within a cohort, equal scores keep their input order.
pub proof fn lemma_ties_keep_input_order(c: Seq<(Seq<char>, u64)>, i: int, j: int)
    requires
        0 <= i < j < c.len(),
        same_cohort(c, i, j),
        c[i].1 == c[j].1,
    ensures
        rank_position_of(c, i) < rank_position_of(c, j),
{
    lemma_ahead_ranks_first(c, i, j);
}

/// No two members of one cohort share a rank.
pub proof fn lemma_ranks_distinct_within_cohort(c: Seq<(Seq<char>, u64)>, i: int, j: int)
    requires
        0 <= i < c.len(),
        0 <= j < c.len(),
        i != j,
        same_cohort(c, i, j),
    ensures
        rank_position_of(c, i) != rank_position_of(c, j),
{
    if ranked_ahead(c, i, j) {
        lemma_ahead_ranks_first(c, i, j);
    } else {
        lemma_ahead_ranks_first(c, j, i);
    }
}

/// Within a cohort every rank from 1 to the cohort size is taken: together
/// with `lemma_ranks_distinct_within_cohort` and `lemma_rank_within_cohort`,
/// the ranks of a cohort are exactly `1..=size`.
pub proof fn lemma_cohort_ranks_cover_all_positions(c: Seq<(Seq<char>, u64)>, i: int, r: int)
    requires
        0 <= i < c.len(),
        1 <= r <= cohort_size_of(c, i),
    ensures
        exists|j: int| 0 <= j < c.len() && same_cohort(c, j, i) && #[trigger] rank_position_of(c, j) == r,
{
    let n = c.len() as int;
    let in_cohort = |j: int| same_cohort(c, j, i);
    let size = cohort_size_of(c, i) as int;
    let members = index_set(n, in_cohort);
    let rank = |j: int| rank_position_of(c, j) as int;
    if !(exists|j: int| 0 <= j < c.len() && same_cohort(c, j, i) && #[trigger] rank_position_of(c, j) == r) {
        lemma_index_set_len(n, in_cohort);
        assert(vstd::relations::injective_on(rank, members)) by {
            assert forall|a: int, b: int| members.contains(a) && members.contains(b) && #[trigger] rank(a)
                == #[trigger] rank(b) implies a == b by {
                if a != b {
                    lemma_ranks_distinct_within_cohort(c, a, b);
                }
            }
        }
        let image = members.map(rank);
        lemma_map_size(members, image, rank);
        let allowed = set_int_range(1, size + 1).remove(r);
        lemma_int_range(1, size + 1);
        assert(image.subset_of(allowed)) by {
            assert forall|v: int| image.contains(v) implies #[trigger] allowed.contains(v) by {
                let j = choose|j: int| members.contains(j) && rank(j) == v;
                lemma_rank_within_cohort(c, j);
                lemma_cohort_members_share_size(c, j, i);
            }
        }
        assert(set_int_range(1, size + 1).contains(r));
        lemma_len_subset(image, allowed);
        assert(false);
    }
}

} // verus!
