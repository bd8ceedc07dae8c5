//! The algorithms, and what they have in common.

use vstd::prelude::*;

pub mod hpcp;
pub mod io;
pub mod stft;
pub mod synth;

verus! {

/// What every algorithm of the library offers.
pub trait Algorithm: Sized {
    /// An instance with default parameters.
    fn new() -> Self;

    /// Runs the algorithm on the inputs that the instance holds, and stores
    /// the outputs in it.
    fn compute(&mut self);
}

} // verus!
