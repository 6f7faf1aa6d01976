//! Combiners: nodes that own two sources, evaluate both at the same
//! point, and merge the two outputs. The merge itself (sum, product,
//! power) is the sampler's real-valued step; the nodes here hold the two
//! sources by value, and their constructors guarantee that the sources
//! are stored exactly as given, so a graph samples what it was built of.

use vstd::prelude::*;

verus! {

/// Noise function that outputs the sum of the two output values from two
/// source functions.
pub struct Add<T, U, const DIM: usize> {
    /// Outputs a value.
    pub source1: T,
    /// Outputs a value.
    pub source2: U,
}

impl<T, U, const DIM: usize> Add<T, U, DIM> {
    /// Combine two sources into a sum node.
    pub fn new(source1: T, source2: U) -> (r: Self)
        ensures
            r.source1 == source1,
            r.source2 == source2,
    {
        Add { source1, source2 }
    }
}

/// Noise function that outputs the product of the two output values from
/// two source functions.
pub struct Multiply<T, U, const DIM: usize> {
    /// Outputs a value.
    pub source1: T,
    /// Outputs a value.
    pub source2: U,
}

impl<T, U, const DIM: usize> Multiply<T, U, DIM> {
    /// Combine two sources into a product node.
    pub fn new(source1: T, source2: U) -> (r: Self)
        ensures
            r.source1 == source1,
            r.source2 == source2,
    {
        Multiply { source1, source2 }
    }
}

/// Noise function that raises the output value from the first source
/// function to the power of the output value of the second source
/// function.
pub struct Power<T, U, const DIM: usize> {
    /// Outputs a value.
    pub source1: T,
    /// Outputs a value.
    pub source2: U,
}

impl<T, U, const DIM: usize> Power<T, U, DIM> {
    /// Combine two sources into a power node.
    pub fn new(source1: T, source2: U) -> (r: Self)
        ensures
            r.source1 == source1,
            r.source2 == source2,
    {
        Power { source1, source2 }
    }
}

} // verus!
