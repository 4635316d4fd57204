//! Decision core for Bayesian optimization of a black-box objective over a
//! bounded continuous search space.
//!
//! Real-valued quantities (observed outputs, predictive variances,
//! acquisition scores, bound endpoints) enter this crate as *value codes*:
//! the caller maps each IEEE-754 double, through an order-preserving
//! bijection on its bit pattern, to an `i64`, so that comparing two codes
//! with `<` agrees with comparing the values they stand for, and `0` is the
//! code of the value zero. The numerical work that produces those values
//! (the Gaussian-process regression and the expected-improvement formula)
//! happens outside this crate, in the caller that owns the surrogate model;
//! every decision taken on the resulting values — candidate selection,
//! incumbent tracking, variance clamping, the degenerate-uncertainty rule,
//! the cold-start rule — is made here against a verified contract.

use vstd::prelude::*;

pub mod acquisition;
pub mod model;
pub mod optimizer;

verus! {

/// The value code of positive infinity, `0x7FF0_0000_0000_0000`: greater
/// than the code of every finite value. The incumbent best value starts
/// here and only ever decreases.
pub const INFINITY_CODE: i64 = 0x7FF0_0000_0000_0000;

/// The error kinds the optimization core surfaces to its caller.
#[derive(Clone, Copy, Debug, PartialEq, Eq)]
pub enum OptimizerError {
    /// The regularized covariance matrix was not invertible during a model
    /// refit; continuing would corrupt all later predictions, so the run
    /// aborts.
    NumericalError,
    /// An empty candidate set, or a point whose dimension does not match
    /// the search-space bounds.
    InvalidInput,
}

} // verus!
