//! The optimizer's decision core: search-space bounds, the iteration
//! budget, an owned pseudorandom source, the observation history and the
//! incumbent, and the suggest / record steps that drive one run.

use vstd::prelude::*;

use crate::INFINITY_CODE;
use crate::OptimizerError;
use crate::model::ObservationLog;
use crate::model::incumbent_value;
use crate::model::lemma_incumbent_step;

verus! {

/// Number of uniform random candidate points drawn per suggestion once the
/// model has data: a fixed sampling budget, not a contract.
pub const DEFAULT_CANDIDATES: usize = 100;

/// rand's standard generator, opaque to the verifier: the seedable
/// pseudorandom source the optimizer owns.
#[verifier::external_type_specification]
#[verifier::external_body]
pub struct ExStdRng(rand::rngs::StdRng);

/// Relies on rand's `StdRng::seed_from_u64`: builds the generator's state
/// from the given seed alone.
#[verifier::external_body]
fn rng_from_seed(seed: u64) -> rand::rngs::StdRng {
    <rand::rngs::StdRng as rand::SeedableRng>::seed_from_u64(seed)
}

/// Relies on rand's `StdRng::from_entropy`: builds the generator's state
/// from the operating system's entropy source.
#[verifier::external_body]
fn rng_from_entropy() -> rand::rngs::StdRng {
    <rand::rngs::StdRng as rand::SeedableRng>::from_entropy()
}

/// Relies on rand's `RngCore::next_u64` on `StdRng`: the generator's next
/// pseudorandom word. Nothing is promised of its value.
#[verifier::external_body]
fn rng_next(rng: &mut rand::rngs::StdRng) -> u64 {
    rand::RngCore::next_u64(rng)
}

/// An owned copy of a point of codes.
fn copy_point(x: &Vec<i64>) -> (r: Vec<i64>)
    ensures
        r@ == x@,
{
    let mut r: Vec<i64> = Vec::new();
    let mut i: usize = 0;
    while i < x.len()
        invariant
            i <= x@.len(),
            r@ == x@.take(i as int),
        decreases x@.len() - i,
    {
        proof {
            assert(x@.take(i as int + 1) =~= x@.take(i as int).push(x@[i as int]));
        }
        r.push(x[i]);
        i = i + 1;
    }
    proof {
        assert(x@.take(x@.len() as int) =~= x@);
    }
    r
}

/// What the optimizer does for one suggestion. Draw words are raw
/// pseudorandom 64-bit words; the caller maps each word uniformly into the
/// `(low, high)` bound of its dimension.
pub enum Suggestion {
    /// No observations yet: evaluate one uniform random point, one draw
    /// word per dimension.
    ColdStart { point_draws: Vec<u64> },
    /// The model has data: score this batch of uniform random candidate
    /// points (one draw word per dimension of each) with the acquisition
    /// function against the incumbent, and evaluate the best of them.
    Candidates { candidate_draws: Vec<Vec<u64>> },
}

/// The optimizer's state across one minimization run.
pub struct BayesianOptimizer {
    /// `(low, high)` code pair per search dimension, with `low < high`.
    pub bounds: Vec<(i64, i64)>,
    /// The fixed number of iterations in the run.
    pub n_iterations: usize,
    /// Number of random candidate points per suggestion after cold start.
    pub n_candidates: usize,
    /// The observation history the surrogate model conditions on.
    pub log: ObservationLog,
    /// The incumbent point: empty until a first improvement is recorded.
    pub best_point: Vec<i64>,
    /// The incumbent value: `INFINITY_CODE` until an improvement is
    /// recorded, and non-increasing from then on.
    pub best_value: i64,
    /// The owned pseudorandom source for candidate sampling.
    pub rng: rand::rngs::StdRng,
}

impl BayesianOptimizer {
    /// The optimizer's invariant: bounds are proper intervals, the history
    /// is well formed over the same dimension, the incumbent value is
    /// exactly the running minimum of all recorded outputs, and once an
    /// improvement has been recorded the incumbent pair was observed
    /// together — the incumbent point is a recorded point whose output is
    /// the incumbent value.
    pub open spec fn wf(&self) -> bool {
        &&& self.log.wf()
        &&& self.log.dim == self.bounds@.len()
        &&& forall|i: int|
            0 <= i < self.bounds@.len() ==> (#[trigger] self.bounds@[i]).0 < self.bounds@[i].1
        &&& self.n_iterations >= 1
        &&& self.n_candidates >= 1
        &&& self.best_value == incumbent_value(self.log.outputs@)
        &&& self.best_value <= INFINITY_CODE
        &&& (self.best_value == INFINITY_CODE ==> self.best_point@.len() == 0)
        &&& (self.best_value < INFINITY_CODE ==> self.best_point@.len() == self.bounds@.len())
        &&& (self.best_value < INFINITY_CODE ==> exists|k: int|
            0 <= k < self.log.outputs@.len() && self.log.outputs@[k] == self.best_value && (
            #[trigger] self.log.inputs@[k])@ == self.best_point@)
    }

    /// Everything but the pseudorandom source is unchanged.
    pub open spec fn same_but_rng(pre: &Self, post: &Self) -> bool {
        &&& post.bounds == pre.bounds
        &&& post.n_iterations == pre.n_iterations
        &&& post.n_candidates == pre.n_candidates
        &&& post.log == pre.log
        &&& post.best_point == pre.best_point
        &&& post.best_value == pre.best_value
    }

    /// A fresh optimizer: a seeded generator when a seed is given, one from
    /// entropy otherwise; an empty history; the incumbent at
    /// `INFINITY_CODE`.
    pub fn with_seed(bounds: Vec<(i64, i64)>, n_iterations: usize, seed: Option<u64>) -> (opt:
        Self)
        requires
            forall|i: int|
                0 <= i < bounds@.len() ==> (#[trigger] bounds@[i]).0 < bounds@[i].1,
            n_iterations >= 1,
        ensures
            opt.wf(),
            opt.bounds == bounds,
            opt.n_iterations == n_iterations,
            opt.n_candidates == DEFAULT_CANDIDATES,
            opt.log.outputs@.len() == 0,
            opt.best_value == INFINITY_CODE,
            opt.best_point@.len() == 0,
    {
        let dim = bounds.len();
        let rng = match seed {
            Some(s) => rng_from_seed(s),
            None => rng_from_entropy(),
        };
        BayesianOptimizer {
            bounds,
            n_iterations,
            n_candidates: DEFAULT_CANDIDATES,
            log: ObservationLog::new(dim),
            best_point: Vec::new(),
            best_value: INFINITY_CODE,
            rng,
        }
    }

    /// One uniform-draw word per search dimension.
    fn draw_point(rng: &mut rand::rngs::StdRng, dim: usize) -> (p: Vec<u64>)
        ensures
            p@.len() == dim,
    {
        let mut p: Vec<u64> = Vec::new();
        let mut d: usize = 0;
        while d < dim
            invariant
                d <= dim,
                p@.len() == d,
            decreases dim - d,
        {
            p.push(rng_next(rng));
            d = d + 1;
        }
        p
    }

    /// One suggestion step: with an empty history there is nothing to
    /// condition on, so the suggestion is one uniform random cold-start
    /// point; with data, it is a batch of `n_candidates` uniform random
    /// candidate points for acquisition scoring against the incumbent.
    /// Only the pseudorandom source changes.
    pub fn suggest(&mut self) -> (s: Suggestion)
        requires
            old(self).wf(),
        ensures
            final(self).wf(),
            Self::same_but_rng(old(self), final(self)),
            old(self).log.outputs@.len() == 0 ==> (s matches Suggestion::ColdStart { point_draws }
                && point_draws@.len() == old(self).bounds@.len()),
            old(self).log.outputs@.len() > 0 ==> (s matches Suggestion::Candidates {
                candidate_draws,
            } && candidate_draws@.len() == old(self).n_candidates && forall|i: int|
                0 <= i < candidate_draws@.len() ==> (#[trigger] candidate_draws@[i])@.len()
                    == old(self).bounds@.len()),
    {
        let dim = self.bounds.len();
        if self.log.is_empty() {
            let p = Self::draw_point(&mut self.rng, dim);
            Suggestion::ColdStart { point_draws: p }
        } else {
            let mut cands: Vec<Vec<u64>> = Vec::new();
            let mut c: usize = 0;
            while c < self.n_candidates
                invariant
                    c <= self.n_candidates,
                    cands@.len() == c,
                    forall|i: int| 0 <= i < c ==> (#[trigger] cands@[i])@.len() == dim,
                    dim == self.bounds@.len(),
                    Self::same_but_rng(old(self), self),
                decreases self.n_candidates - c,
            {
                let p = Self::draw_point(&mut self.rng, dim);
                cands.push(p);
                c = c + 1;
            }
            Suggestion::Candidates { candidate_draws: cands }
        }
    }

    /// Records one evaluated iteration: appends `(x, y)` to the history
    /// and moves the incumbent exactly when `y` strictly improves on it
    /// (ties keep the old incumbent). A point whose dimension does not
    /// match the bounds is rejected unchanged.
    pub fn record_observation(&mut self, x: Vec<i64>, y: i64) -> (r: Result<(), OptimizerError>)
        requires
            old(self).wf(),
        ensures
            final(self).wf(),
            x@.len() != old(self).bounds@.len() ==> (r == Err::<(), OptimizerError>(
                OptimizerError::InvalidInput,
            ) && *final(self) == *old(self)),
            x@.len() == old(self).bounds@.len() ==> (r == Ok::<(), OptimizerError>(())
                && final(self).log.inputs@ == old(self).log.inputs@.push(x)
                && final(self).log.outputs@ == old(self).log.outputs@.push(y)
                && final(self).best_value == (if y < old(self).best_value { y } else { old(self).best_value })
                && final(self).best_point@ == (if y < old(self).best_value { x@ } else { old(self).best_point@ })
                && final(self).best_value <= old(self).best_value
                && final(self).bounds == old(self).bounds
                && final(self).n_iterations == old(self).n_iterations
                && final(self).n_candidates == old(self).n_candidates),
    {
        if x.len() != self.bounds.len() {
            return Err(OptimizerError::InvalidInput);
        }
        proof {
            lemma_incumbent_step(self.log.outputs@, y);
        }
        if y < self.best_value {
            self.best_point = copy_point(&x);
            self.best_value = y;
        }
        self.log.push(x, y);
        proof {
            if y < old(self).best_value {
                let n: int = old(self).log.outputs@.len() as int;
                assert(self.log.outputs@[n] == y);
                assert(self.log.inputs@[n]@ == self.best_point@);
            } else if old(self).best_value < INFINITY_CODE {
                let k: int = choose|k: int|
                    0 <= k < old(self).log.outputs@.len() && old(self).log.outputs@[k] == old(
                        self,
                    ).best_value && (#[trigger] old(self).log.inputs@[k])@ == old(
                        self,
                    ).best_point@;
                assert(self.log.outputs@[k] == self.best_value);
                assert(self.log.inputs@[k]@ == self.best_point@);
            }
        }
        Ok(())
    }

    /// True once the fixed iteration budget has been spent: one recorded
    /// observation per iteration, with no early stopping.
    pub fn is_finished(&self) -> (r: bool)
        ensures
            r == (self.log.outputs@.len() >= self.n_iterations),
    {
        self.log.len() >= self.n_iterations
    }

    /// The incumbent `(best_point, best_value)` pair: the run's result
    /// once `is_finished` holds.
    pub fn result(&self) -> (r: (Vec<i64>, i64))
        ensures
            r.0@ == self.best_point@,
            r.1 == self.best_value,
    {
        (copy_point(&self.best_point), self.best_value)
    }
}

} // verus!
