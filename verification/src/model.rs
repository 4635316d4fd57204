//! The observation history that the surrogate model conditions on, the
//! incumbent-value specification the optimizer maintains over it, and the
//! non-negativity clamp applied to predictive variances.

use vstd::prelude::*;

use crate::INFINITY_CODE;

verus! {

/// The running minimum of a sequence of output codes, starting from
/// `INFINITY_CODE`: the incumbent best value after observing `s` in order,
/// for minimization.
pub open spec fn incumbent_value(s: Seq<i64>) -> i64
    decreases s.len(),
{
    if s.len() == 0 {
        INFINITY_CODE
    } else {
        let prev = incumbent_value(s.drop_last());
        if s.last() < prev {
            s.last()
        } else {
            prev
        }
    }
}

/// Appending one observation turns the incumbent into the smaller of the
/// old incumbent and the new value; ties keep the old incumbent.
pub proof fn lemma_incumbent_step(s: Seq<i64>, y: i64)
    ensures
        incumbent_value(s.push(y)) == if y < incumbent_value(s) {
            y
        } else {
            incumbent_value(s)
        },
{
    assert(s.push(y).drop_last() =~= s);
}

/// Law: across a run, the incumbent value is non-increasing iteration over
/// iteration — after `j` observations it is at most what it was after any
/// earlier `i` observations of the same run.
pub proof fn lemma_incumbent_non_increasing(s: Seq<i64>, i: int, j: int)
    requires
        0 <= i <= j <= s.len(),
    ensures
        incumbent_value(s.take(j)) <= incumbent_value(s.take(i)),
    decreases j - i,
{
    if i < j {
        lemma_incumbent_non_increasing(s, i, j - 1);
        assert(s.take(j).drop_last() =~= s.take(j - 1));
    }
}

/// The incumbent value is a lower bound on every output observed so far,
/// and never exceeds its starting point `INFINITY_CODE`.
pub proof fn lemma_incumbent_at_most_each(s: Seq<i64>)
    ensures
        incumbent_value(s) <= INFINITY_CODE,
        forall|k: int| 0 <= k < s.len() ==> incumbent_value(s) <= s[k],
    decreases s.len(),
{
    if s.len() > 0 {
        lemma_incumbent_at_most_each(s.drop_last());
        assert forall|k: int| 0 <= k < s.len() implies incumbent_value(s) <= s[k] by {
            if k < s.len() - 1 {
                assert(s.drop_last()[k] == s[k]);
            }
        }
    }
}

/// The ordered observation history: one point per observed output,
/// index-aligned, every point of the search space's dimension.
pub struct ObservationLog {
    /// Observed points, in evaluation order.
    pub inputs: Vec<Vec<i64>>,
    /// Observed output codes; `outputs[i]` belongs to `inputs[i]`.
    pub outputs: Vec<i64>,
    /// Number of coordinates of each observed point.
    pub dim: usize,
}

impl ObservationLog {
    /// Both histories stay index-aligned, and every recorded point has the
    /// search space's dimension.
    pub open spec fn wf(&self) -> bool {
        &&& self.inputs@.len() == self.outputs@.len()
        &&& forall|i: int| 0 <= i < self.inputs@.len() ==> self.inputs@[i]@.len() == self.dim
    }

    /// An empty history for a `dim`-dimensional search space.
    pub fn new(dim: usize) -> (log: Self)
        ensures
            log.wf(),
            log.dim == dim,
            log.inputs@.len() == 0,
            log.outputs@.len() == 0,
    {
        ObservationLog { inputs: Vec::new(), outputs: Vec::new(), dim }
    }

    /// True iff nothing has been observed yet.
    pub fn is_empty(&self) -> (r: bool)
        ensures
            r == (self.outputs@.len() == 0),
    {
        self.outputs.len() == 0
    }

    /// The number of observations made so far.
    pub fn len(&self) -> (n: usize)
        ensures
            n == self.outputs@.len(),
    {
        self.outputs.len()
    }

    /// Appends one (point, output) observation to the history.
    pub fn push(&mut self, x: Vec<i64>, y: i64)
        requires
            old(self).wf(),
            x@.len() == old(self).dim,
        ensures
            final(self).wf(),
            final(self).dim == old(self).dim,
            final(self).inputs@ == old(self).inputs@.push(x),
            final(self).outputs@ == old(self).outputs@.push(y),
    {
        self.inputs.push(x);
        self.outputs.push(y);
    }
}

/// A predictive variance is clamped to be non-negative before its square
/// root is taken: rounding in the posterior algebra can leave it slightly
/// below zero. Negative values have negative codes and zero has code `0`,
/// so the clamp on codes is the clamp on values.
pub fn clamp_variance(variance: i64) -> (r: i64)
    ensures
        r == if variance < 0 {
            0i64
        } else {
            variance
        },
        r >= 0,
{
    if variance < 0 {
        0
    } else {
        variance
    }
}

} // verus!
