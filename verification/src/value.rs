//! The lattice half of value noise.
//!
//! A value-noise sample at a real point interpolates the hashed values of
//! the `2^n` integer lattice corners of the cell the point falls in. The
//! corner hashing is the seeded, discrete heart of the primitive and is
//! verified here, corner by corner, against the hasher's fold; a sampler
//! turns the bytes into `[0, 1]` corner values and interpolates them.

use vstd::prelude::*;

use crate::Seedable;
use crate::permutation::{NoiseHasher, PermutationTable, table_from_seed};

verus! {

/// The value-noise primitive: a seed and the permutation table the seed
/// generates. Sampling interpolates the hashed lattice corners around
/// the query point; the table is pinned to the seed, so the primitive is
/// a fixed function of (seed, point).
pub struct Value {
    seed: u32,
    perm_table: PermutationTable,
}

impl Value {
    #[verifier::type_invariant]
    spec fn wf(self) -> bool {
        self.perm_table@ == table_from_seed(self.seed)
    }

    /// Build the primitive for a seed, generating its permutation table.
    pub fn new(seed: u32) -> (r: Self)
        ensures
            r.seed_spec() == seed,
    {
        Value { seed, perm_table: PermutationTable::new(seed) }
    }

    /// The seeded hasher this primitive samples the lattice with.
    pub fn hasher(&self) -> (r: &PermutationTable)
        ensures
            r@ == table_from_seed(self.seed_spec()),
    {
        proof {
            use_type_invariant(&*self);
        }
        &self.perm_table
    }
}

impl Seedable for Value {
    closed spec fn seed_spec(&self) -> u32 {
        self.seed
    }

    open spec fn same_config(&self, other: &Self) -> bool {
        true
    }

    fn new(seed: u32) -> (r: Self) {
        Value::new(seed)
    }

    fn set_seed(self, seed: u32) -> (r: Self) {
        Value::new(seed)
    }

    fn seed(&self) -> (r: u32) {
        self.seed
    }
}

/// Hash the four corners of the 2D lattice cell whose lowest corner is
/// `corner`: in order, the corners offset by (0,0), (1,0), (0,1), (1,1).
pub fn value_corner_hashes_2d<H: NoiseHasher>(hasher: &H, corner: [i64; 2]) -> (r: [u8; 4])
    requires
        corner[0] < i64::MAX,
        corner[1] < i64::MAX,
    ensures
        r[0] == hasher.hash_spec(seq![corner[0], corner[1]]),
        r[1] == hasher.hash_spec(seq![(corner[0] + 1) as i64, corner[1]]),
        r[2] == hasher.hash_spec(seq![corner[0], (corner[1] + 1) as i64]),
        r[3] == hasher.hash_spec(seq![(corner[0] + 1) as i64, (corner[1] + 1) as i64]),
{
    let x0 = corner[0];
    let y0 = corner[1];
    let x1 = x0 + 1;
    let y1 = y0 + 1;
    let a00: [i64; 2] = [x0, y0];
    let a10: [i64; 2] = [x1, y0];
    let a01: [i64; 2] = [x0, y1];
    let a11: [i64; 2] = [x1, y1];
    proof {
        assert(a00@ =~= seq![x0, y0]);
        assert(a10@ =~= seq![x1, y0]);
        assert(a01@ =~= seq![x0, y1]);
        assert(a11@ =~= seq![x1, y1]);
    }
    let f00 = hasher.hash(a00.as_slice());
    let f10 = hasher.hash(a10.as_slice());
    let f01 = hasher.hash(a01.as_slice());
    let f11 = hasher.hash(a11.as_slice());
    let r: [u8; 4] = [f00, f10, f01, f11];
    r
}

/// Hash the eight corners of the 3D lattice cell whose lowest corner is
/// `corner`: offsets in the order (0,0,0), (1,0,0), (0,1,0), (1,1,0),
/// (0,0,1), (1,0,1), (0,1,1), (1,1,1).
pub fn value_corner_hashes_3d<H: NoiseHasher>(hasher: &H, corner: [i64; 3]) -> (r: [u8; 8])
    requires
        corner[0] < i64::MAX,
        corner[1] < i64::MAX,
        corner[2] < i64::MAX,
    ensures
        r[0] == hasher.hash_spec(seq![corner[0], corner[1], corner[2]]),
        r[1] == hasher.hash_spec(seq![(corner[0] + 1) as i64, corner[1], corner[2]]),
        r[2] == hasher.hash_spec(seq![corner[0], (corner[1] + 1) as i64, corner[2]]),
        r[3] == hasher.hash_spec(seq![(corner[0] + 1) as i64, (corner[1] + 1) as i64, corner[2]]),
        r[4] == hasher.hash_spec(seq![corner[0], corner[1], (corner[2] + 1) as i64]),
        r[5] == hasher.hash_spec(seq![(corner[0] + 1) as i64, corner[1], (corner[2] + 1) as i64]),
        r[6] == hasher.hash_spec(seq![corner[0], (corner[1] + 1) as i64, (corner[2] + 1) as i64]),
        r[7] == hasher.hash_spec(
            seq![(corner[0] + 1) as i64, (corner[1] + 1) as i64, (corner[2] + 1) as i64],
        ),
{
    let x0 = corner[0];
    let y0 = corner[1];
    let z0 = corner[2];
    let x1 = x0 + 1;
    let y1 = y0 + 1;
    let z1 = z0 + 1;
    let a000: [i64; 3] = [x0, y0, z0];
    let a100: [i64; 3] = [x1, y0, z0];
    let a010: [i64; 3] = [x0, y1, z0];
    let a110: [i64; 3] = [x1, y1, z0];
    let a001: [i64; 3] = [x0, y0, z1];
    let a101: [i64; 3] = [x1, y0, z1];
    let a011: [i64; 3] = [x0, y1, z1];
    let a111: [i64; 3] = [x1, y1, z1];
    proof {
        assert(a000@ =~= seq![x0, y0, z0]);
        assert(a100@ =~= seq![x1, y0, z0]);
        assert(a010@ =~= seq![x0, y1, z0]);
        assert(a110@ =~= seq![x1, y1, z0]);
        assert(a001@ =~= seq![x0, y0, z1]);
        assert(a101@ =~= seq![x1, y0, z1]);
        assert(a011@ =~= seq![x0, y1, z1]);
        assert(a111@ =~= seq![x1, y1, z1]);
    }
    let f000 = hasher.hash(a000.as_slice());
    let f100 = hasher.hash(a100.as_slice());
    let f010 = hasher.hash(a010.as_slice());
    let f110 = hasher.hash(a110.as_slice());
    let f001 = hasher.hash(a001.as_slice());
    let f101 = hasher.hash(a101.as_slice());
    let f011 = hasher.hash(a011.as_slice());
    let f111 = hasher.hash(a111.as_slice());
    let r: [u8; 8] = [f000, f100, f010, f110, f001, f101, f011, f111];
    r
}

/// Hash the sixteen corners of the 4D lattice cell whose lowest corner
/// is `corner`: offsets in binary order over (x, y, z, w), x varying
/// fastest, matching the contraction order of the sampler.
pub fn value_corner_hashes_4d<H: NoiseHasher>(hasher: &H, corner: [i64; 4]) -> (r: [u8; 16])
    requires
        corner[0] < i64::MAX,
        corner[1] < i64::MAX,
        corner[2] < i64::MAX,
        corner[3] < i64::MAX,
    ensures
        forall|ox: int, oy: int, oz: int, ow: int|
            0 <= ox <= 1 && 0 <= oy <= 1 && 0 <= oz <= 1 && 0 <= ow <= 1
                ==> #[trigger] r[ox + 2 * oy + 4 * oz + 8 * ow] == hasher.hash_spec(
                seq![
                    (corner[0] + ox) as i64,
                    (corner[1] + oy) as i64,
                    (corner[2] + oz) as i64,
                    (corner[3] + ow) as i64,
                ],
            ),
{
    let x0 = corner[0];
    let y0 = corner[1];
    let z0 = corner[2];
    let w0 = corner[3];
    let x1 = x0 + 1;
    let y1 = y0 + 1;
    let z1 = z0 + 1;
    let w1 = w0 + 1;
    let mut out: Vec<u8> = Vec::new();
    let xs: [i64; 2] = [x0, x1];
    let ys: [i64; 2] = [y0, y1];
    let zs: [i64; 2] = [z0, z1];
    let ws: [i64; 2] = [w0, w1];
    let mut index: usize = 0;
    while index < 16
        invariant
            index <= 16,
            out@.len() == index,
            xs@ == seq![corner[0] as i64, (corner[0] + 1) as i64],
            ys@ == seq![corner[1] as i64, (corner[1] + 1) as i64],
            zs@ == seq![corner[2] as i64, (corner[2] + 1) as i64],
            ws@ == seq![corner[3] as i64, (corner[3] + 1) as i64],
            forall|m: int|
                0 <= m < index ==> #[trigger] out@[m] == hasher.hash_spec(
                    seq![xs@[m % 2], ys@[(m / 2) % 2], zs@[(m / 4) % 2], ws@[m / 8]],
                ),
        decreases 16 - index,
    {
        let ox = index % 2;
        let oy = (index / 2) % 2;
        let oz = (index / 4) % 2;
        let ow = index / 8;
        let a: [i64; 4] = [xs[ox], ys[oy], zs[oz], ws[ow]];
        proof {
            assert(a@ =~= seq![xs@[ox as int], ys@[oy as int], zs@[oz as int], ws@[ow as int]]);
        }
        let f = hasher.hash(a.as_slice());
        out.push(f);
        index += 1;
    }
    let r: [u8; 16] = [
        out[0],
        out[1],
        out[2],
        out[3],
        out[4],
        out[5],
        out[6],
        out[7],
        out[8],
        out[9],
        out[10],
        out[11],
        out[12],
        out[13],
        out[14],
        out[15],
    ];
    proof {
        assert forall|ox: int, oy: int, oz: int, ow: int|
            0 <= ox <= 1 && 0 <= oy <= 1 && 0 <= oz <= 1 && 0 <= ow
                <= 1 implies #[trigger] r[ox + 2 * oy + 4 * oz + 8 * ow] == hasher.hash_spec(
            seq![
                (corner[0] + ox) as i64,
                (corner[1] + oy) as i64,
                (corner[2] + oz) as i64,
                (corner[3] + ow) as i64,
            ],
        ) by {
            let m = ox + 2 * oy + 4 * oz + 8 * ow;
            assert(0 <= m < 16);
            assert(r[m] == out@[m]);
            assert(m % 2 == ox && (m / 2) % 2 == oy && (m / 4) % 2 == oz && m / 8 == ow);
        }
    }
    r
}

} // verus!
