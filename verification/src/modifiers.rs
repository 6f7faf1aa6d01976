//! Modifiers: nodes that own a single source and post-process its output
//! value. The post-processing (absolute value, exponential remap) is the
//! sampler's real-valued step; here the nodes store their source and
//! their local configuration, and forward the `Seedable` and
//! `MultiFractal` capabilities to the source while keeping that local
//! configuration intact.

use vstd::prelude::*;

use crate::value::Value;
use crate::{MultiFractal, Seedable};

verus! {

/// Noise function that outputs the absolute value of the output value
/// from the source function.
pub struct Abs<T, const DIM: usize> {
    /// Outputs a value.
    pub source: T,
}

impl<T, const DIM: usize> Abs<T, DIM> {
    /// Wrap a source in an absolute-value node.
    pub fn new(source: T) -> (r: Self)
        ensures
            r.source == source,
    {
        Abs { source }
    }
}

impl<T: Seedable, const DIM: usize> Seedable for Abs<T, DIM> {
    open spec fn seed_spec(&self) -> u32 {
        self.source.seed_spec()
    }

    open spec fn same_config(&self, other: &Self) -> bool {
        self.source.same_config(&other.source)
    }

    fn new(seed: u32) -> (r: Self) {
        Abs { source: T::new(seed) }
    }

    fn set_seed(self, seed: u32) -> (r: Self) {
        Abs { source: self.source.set_seed(seed) }
    }

    fn seed(&self) -> (r: u32) {
        self.source.seed()
    }
}

impl<T: MultiFractal, const DIM: usize> MultiFractal for Abs<T, DIM> {
    open spec fn octaves_spec(&self) -> usize {
        self.source.octaves_spec()
    }

    open spec fn frequency_spec(&self) -> u64 {
        self.source.frequency_spec()
    }

    open spec fn lacunarity_spec(&self) -> u64 {
        self.source.lacunarity_spec()
    }

    open spec fn persistence_spec(&self) -> u64 {
        self.source.persistence_spec()
    }

    open spec fn same_params(&self, other: &Self) -> bool {
        self.source.same_params(&other.source)
    }

    fn set_octaves(self, octaves: usize) -> (r: Self) {
        Abs { source: self.source.set_octaves(octaves) }
    }

    fn set_frequency(self, frequency_bits: u64) -> (r: Self) {
        Abs { source: self.source.set_frequency(frequency_bits) }
    }

    fn set_lacunarity(self, lacunarity_bits: u64) -> (r: Self) {
        Abs { source: self.source.set_lacunarity(lacunarity_bits) }
    }

    fn set_persistence(self, persistence_bits: u64) -> (r: Self) {
        Abs { source: self.source.set_persistence(persistence_bits) }
    }
}

/// Bit pattern of the double 1.0, the default exponent.
pub const DEFAULT_EXPONENT_BITS: u64 = 0x3FF0000000000000;

/// Noise function that maps the output value from the source function
/// onto an exponential curve.
///
/// Because most noise functions output values ranging from -1.0 to 1.0,
/// the sampler first normalizes the output value to [0, 1], raises it to
/// the stored exponent, then rescales the result back to the original
/// range.
pub struct Exponent<T, const DIM: usize> {
    /// Outputs a value.
    pub source: T,
    /// Bit pattern of the exponent the sampler applies to the source's
    /// normalized output value. Defaults to the pattern of 1.0.
    pub exponent_bits: u64,
}

impl<T, const DIM: usize> Exponent<T, DIM> {
    /// Wrap a source in an exponent node with the default exponent.
    pub fn new(source: T) -> (r: Self)
        ensures
            r.source == source,
            r.exponent_bits == DEFAULT_EXPONENT_BITS,
    {
        Exponent { source, exponent_bits: DEFAULT_EXPONENT_BITS }
    }

    /// Replace the exponent, keeping the source.
    pub fn set_exponent(self, exponent_bits: u64) -> (r: Self)
        ensures
            r.exponent_bits == exponent_bits,
            r.source == self.source,
    {
        Exponent { exponent_bits, ..self }
    }
}

impl<T: Seedable, const DIM: usize> Seedable for Exponent<T, DIM> {
    open spec fn seed_spec(&self) -> u32 {
        self.source.seed_spec()
    }

    open spec fn same_config(&self, other: &Self) -> bool {
        self.exponent_bits == other.exponent_bits && self.source.same_config(&other.source)
    }

    fn new(seed: u32) -> (r: Self) {
        Exponent { source: T::new(seed), exponent_bits: DEFAULT_EXPONENT_BITS }
    }

    fn set_seed(self, seed: u32) -> (r: Self) {
        let Exponent { source, exponent_bits } = self;
        Exponent { source: source.set_seed(seed), exponent_bits }
    }

    fn seed(&self) -> (r: u32) {
        self.source.seed()
    }
}

impl<T: MultiFractal, const DIM: usize> MultiFractal for Exponent<T, DIM> {
    open spec fn octaves_spec(&self) -> usize {
        self.source.octaves_spec()
    }

    open spec fn frequency_spec(&self) -> u64 {
        self.source.frequency_spec()
    }

    open spec fn lacunarity_spec(&self) -> u64 {
        self.source.lacunarity_spec()
    }

    open spec fn persistence_spec(&self) -> u64 {
        self.source.persistence_spec()
    }

    open spec fn same_params(&self, other: &Self) -> bool {
        self.exponent_bits == other.exponent_bits && self.source.same_params(&other.source)
    }

    fn set_octaves(self, octaves: usize) -> (r: Self) {
        let Exponent { source, exponent_bits } = self;
        Exponent { source: source.set_octaves(octaves), exponent_bits }
    }

    fn set_frequency(self, frequency_bits: u64) -> (r: Self) {
        let Exponent { source, exponent_bits } = self;
        Exponent { source: source.set_frequency(frequency_bits), exponent_bits }
    }

    fn set_lacunarity(self, lacunarity_bits: u64) -> (r: Self) {
        let Exponent { source, exponent_bits } = self;
        Exponent { source: source.set_lacunarity(lacunarity_bits), exponent_bits }
    }

    fn set_persistence(self, persistence_bits: u64) -> (r: Self) {
        let Exponent { source, exponent_bits } = self;
        Exponent { source: source.set_persistence(persistence_bits), exponent_bits }
    }
}

/// Modifier forwarding: an `Abs` node reports exactly its source's seed.
pub proof fn lemma_abs_forwards_seed<T: Seedable, const DIM: usize>(a: &Abs<T, DIM>)
    ensures
        a.seed_spec() == a.source.seed_spec(),
{
}

/// Modifier forwarding: an `Exponent` node reports exactly its source's
/// seed.
pub proof fn lemma_exponent_forwards_seed<T: Seedable, const DIM: usize>(e: &Exponent<T, DIM>)
    ensures
        e.seed_spec() == e.source.seed_spec(),
{
}

/// Reseeding keeps a modifier's local configuration: `set_seed` relates
/// its input and output by `same_config`, and for an `Exponent` node
/// that relation pins the exponent, so the exponent survives a reseed.
pub proof fn lemma_exponent_config_survives<T: Seedable, const DIM: usize>(
    a: &Exponent<T, DIM>,
    b: &Exponent<T, DIM>,
)
    requires
        a.same_config(b),
    ensures
        a.exponent_bits == b.exponent_bits,
        a.source.same_config(&b.source),
{
}

/// Seed propagation through a modifier chain: whatever seed the root of
/// an `Abs`-over-`Exponent`-over-`Value` graph reports, each inner node
/// and the seedable leaf report the same seed, since every modifier
/// forwards its seed wholesale.
pub proof fn lemma_seed_reaches_leaf<const DIM: usize>(g: &Abs<Exponent<Value, DIM>, DIM>, s: u32)
    requires
        g.seed_spec() == s,
    ensures
        g.source.seed_spec() == s,
        g.source.source.seed_spec() == s,
{
}

} // verus!
