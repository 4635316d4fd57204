//! Candidate selection for expected-improvement maximization: the
//! first-maximum argmax over a batch of acquisition scores, and the
//! degenerate-uncertainty rule.

use vstd::prelude::*;

use crate::OptimizerError;

verus! {

/// The index of the first maximum of `s`: every entry is at most
/// `s[first_max_index(s)]`, and every earlier entry is strictly below it,
/// so ties are broken by earliest position.
pub open spec fn first_max_index(s: Seq<i64>) -> int
    decreases s.len(),
{
    if s.len() <= 1 {
        0
    } else {
        let prev = first_max_index(s.drop_last());
        if s.last() > s[prev] {
            s.len() - 1
        } else {
            prev
        }
    }
}

/// `first_max_index` indeed names the first maximum: it is in range, no
/// entry exceeds it, and every earlier entry is strictly smaller.
pub proof fn lemma_first_max_index_properties(s: Seq<i64>)
    requires
        s.len() > 0,
    ensures
        0 <= first_max_index(s) < s.len(),
        forall|j: int| 0 <= j < s.len() ==> #[trigger] s[j] <= s[first_max_index(s)],
        forall|j: int| 0 <= j < first_max_index(s) ==> #[trigger] s[j] < s[first_max_index(s)],
    decreases s.len(),
{
    if s.len() > 1 {
        lemma_first_max_index_properties(s.drop_last());
        assert forall|j: int| 0 <= j < s.len() implies #[trigger] s[j] <= s[first_max_index(s)] by {
            if j < s.len() - 1 {
                assert(s.drop_last()[j] == s[j]);
            }
        }
        assert forall|j: int| 0 <= j < first_max_index(s) implies #[trigger] s[j] < s[first_max_index(
            s,
        )] by {
            if j < s.len() - 1 {
                assert(s.drop_last()[j] == s[j]);
            }
        }
    }
}

/// Law: a single-candidate set is selected unconditionally — the first
/// maximum of a one-entry score list is that entry.
pub proof fn lemma_single_candidate(s: Seq<i64>)
    requires
        s.len() == 1,
    ensures
        first_max_index(s) == 0,
{
}

/// Returns the index of the candidate with the greatest acquisition score,
/// ties broken by earliest position in the batch, or `InvalidInput` for an
/// empty batch.
pub fn select_best_candidate(scores: &Vec<i64>) -> (r: Result<usize, OptimizerError>)
    ensures
        scores@.len() == 0 ==> r == Err::<usize, OptimizerError>(OptimizerError::InvalidInput),
        scores@.len() > 0 ==> r == Ok::<usize, OptimizerError>(first_max_index(scores@) as usize),
{
    if scores.len() == 0 {
        return Err(OptimizerError::InvalidInput);
    }
    let mut best: usize = 0;
    let mut k: usize = 1;
    while k < scores.len()
        invariant
            1 <= k <= scores@.len(),
            best < k,
            best as int == first_max_index(scores@.take(k as int)),
        decreases scores@.len() - k,
    {
        proof {
            lemma_first_max_index_properties(scores@.take(k as int));
            assert(scores@.take(k as int + 1).drop_last() =~= scores@.take(k as int));
        }
        if scores[k] > scores[best] {
            best = k;
        }
        k = k + 1;
    }
    proof {
        assert(scores@.take(scores@.len() as int) =~= scores@);
        lemma_first_max_index_properties(scores@);
    }
    Ok(best)
}

/// The degenerate-uncertainty rule of expected improvement: a candidate
/// with no predictive uncertainty offers no expected improvement over the
/// incumbent, whatever its raw formula score; with positive uncertainty
/// the formula's score stands. `0` is the code of the value zero, and a
/// zero or negative standard deviation has a code at most `0`.
pub fn expected_improvement_guard(std_dev: i64, raw_score: i64) -> (r: i64)
    ensures
        r == if std_dev <= 0 {
            0i64
        } else {
            raw_score
        },
{
    if std_dev <= 0 {
        0
    } else {
        raw_score
    }
}

} // verus!
