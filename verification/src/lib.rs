//! A toy savings-plan simulator together with the decision core of a
//! Nelder-Mead simplex minimizer.
//!
//! The simulator applies a fixed list of signed transactions to a
//! zero-initialized account balance and measures how far the balance
//! trajectory stays from a target value. Plans ("designs") are built from a
//! pair of whole-currency parameters, optionally interleaved with a
//! deterministic pseudo-random stream of withdrawals.
//!
//! The minimizer module holds the per-iteration move selection of the
//! Nelder-Mead protocol: given the outcomes of the score comparisons of one
//! iteration, it decides which candidate vertex replaces the worst one and
//! whether the simplex must shrink. The floating-point geometry around it
//! (centroid, trial points, objective evaluation) belongs to the host
//! program; this crate keeps the branch logic, which is where the edge cases
//! live.

pub mod account;
pub mod design;
pub mod nelder;
pub mod xs;
