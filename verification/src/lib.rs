//! Coherent-noise generation: deterministic, seedable, continuous
//! pseudo-random scalar fields sampled at arbitrary coordinates.
//!
//! The integer core lives here: the seeded permutation table that makes
//! every primitive reproducible, the lattice-corner hashing that value
//! noise interpolates, and the compositional node types (combiners and
//! modifiers) with their seed-forwarding contracts.

use vstd::prelude::*;

pub mod combiners;
pub mod modifiers;
pub mod permutation;
pub mod value;

pub use combiners::{Add, Multiply, Power};
pub use modifiers::{Abs, Exponent};
pub use permutation::{NoiseHasher, PermutationTable};
pub use value::Value;

verus! {

/// A noise node that carries a seed. `set_seed` yields a new node whose
/// seedable parts are regenerated from the given seed; `seed` recalls it.
pub trait Seedable: Sized {
    /// The seed this node reports.
    spec fn seed_spec(&self) -> u32;

    /// The node-local configuration (everything but the seed and what the
    /// seed determines) agrees between `self` and `other`.
    spec fn same_config(&self, other: &Self) -> bool;

    /// Build a node from a seed alone, with default configuration.
    fn new(seed: u32) -> (r: Self)
        ensures
            r.seed_spec() == seed,
    ;

    /// Return a copy of this node reseeded with `seed`; the node-local
    /// configuration survives the reseed.
    fn set_seed(self, seed: u32) -> (r: Self)
        ensures
            r.seed_spec() == seed,
            self.same_config(&r),
    ;

    /// Recall the seed.
    fn seed(&self) -> (r: u32)
        ensures
            r == self.seed_spec(),
    ;
}

/// A noise node with fractal parameters: octave count, frequency,
/// lacunarity and persistence. The three real-valued parameters are
/// carried as IEEE-754 double bit patterns, so that a verified node can
/// store and forward them exactly; samplers decode them.
pub trait MultiFractal: Sized {
    /// The octave count this node reports.
    spec fn octaves_spec(&self) -> usize;

    /// Bit pattern of the frequency this node reports.
    spec fn frequency_spec(&self) -> u64;

    /// Bit pattern of the lacunarity this node reports.
    spec fn lacunarity_spec(&self) -> u64;

    /// Bit pattern of the persistence this node reports.
    spec fn persistence_spec(&self) -> u64;

    /// The node-local configuration outside the fractal parameters agrees
    /// between `self` and `other`.
    spec fn same_params(&self, other: &Self) -> bool;

    /// Return a copy with the octave count replaced; everything else kept.
    fn set_octaves(self, octaves: usize) -> (r: Self)
        ensures
            r.octaves_spec() == octaves,
            r.frequency_spec() == self.frequency_spec(),
            r.lacunarity_spec() == self.lacunarity_spec(),
            r.persistence_spec() == self.persistence_spec(),
            self.same_params(&r),
    ;

    /// Return a copy with the frequency replaced; everything else kept.
    fn set_frequency(self, frequency_bits: u64) -> (r: Self)
        ensures
            r.frequency_spec() == frequency_bits,
            r.octaves_spec() == self.octaves_spec(),
            r.lacunarity_spec() == self.lacunarity_spec(),
            r.persistence_spec() == self.persistence_spec(),
            self.same_params(&r),
    ;

    /// Return a copy with the lacunarity replaced; everything else kept.
    fn set_lacunarity(self, lacunarity_bits: u64) -> (r: Self)
        ensures
            r.lacunarity_spec() == lacunarity_bits,
            r.octaves_spec() == self.octaves_spec(),
            r.frequency_spec() == self.frequency_spec(),
            r.persistence_spec() == self.persistence_spec(),
            self.same_params(&r),
    ;

    /// Return a copy with the persistence replaced; everything else kept.
    fn set_persistence(self, persistence_bits: u64) -> (r: Self)
        ensures
            r.persistence_spec() == persistence_bits,
            r.octaves_spec() == self.octaves_spec(),
            r.frequency_spec() == self.frequency_spec(),
            r.lacunarity_spec() == self.lacunarity_spec(),
            self.same_params(&r),
    ;
}

} // verus!
