//! Turns numeric series into tab-separated data files and gnuplot scripts.
use vstd::prelude::*;

pub mod text;
pub mod configuration;
pub mod series;
pub mod sequence;
pub mod process;
pub mod distribution;
pub mod laws;

verus! {

/// Why no script can be written for a series or a comparison.
#[derive(Clone, Copy, Debug, PartialEq, Eq, Structural)]
pub enum ScriptError {
    /// A binned sequence without any group.
    NoGroups,
    /// The distribution at this position of a comparison has no realization.
    EmptyDistribution(usize),
}

} // verus!
