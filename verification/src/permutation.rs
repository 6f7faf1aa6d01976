//! The seeded permutation table and the lattice-coordinate hasher.
//!
//! A table is a permutation of the byte values `0..=255`, derived from a
//! 32-bit seed by a Fisher-Yates shuffle driven by the xorshift32
//! generator, and stored doubled (512 entries) so that hashing needs no
//! modular indexing. The whole construction is a fixed function of the
//! seed: the spec functions here pin the exact sequence, so two tables
//! built from the same seed are equal entry for entry.

use vstd::prelude::*;

verus! {

/// One step of the xorshift32 generator: shift-xor by 13 left, 17 right,
/// 5 left. The state must never be zero; `initial_state` guarantees that.
pub open spec fn xorshift_step(state: u32) -> u32 {
    let a = state ^ (state << 13);
    let b = a ^ (a >> 17);
    b ^ (b << 5)
}

/// The generator state a seed starts from. Zero is a fixed point of
/// xorshift32, so the zero seed is mapped to a fixed nonzero constant.
pub open spec fn initial_state(seed: u32) -> u32 {
    if seed == 0 {
        0x9E3779B9u32
    } else {
        seed
    }
}

/// The identity table: entry `i` holds the byte `i`.
pub open spec fn identity_table() -> Seq<u8> {
    Seq::new(256, |i: int| i as u8)
}

/// `t` with the entries at `a` and `b` exchanged.
pub open spec fn swap_entries(t: Seq<u8>, a: int, b: int) -> Seq<u8> {
    t.update(a, t[b]).update(b, t[a])
}

/// The Fisher-Yates shuffle, walking `i` down to 1: each step draws the
/// next generator state and exchanges entry `i` with a uniformly indexed
/// entry at or below it.
pub open spec fn shuffle(t: Seq<u8>, state: u32, i: int) -> Seq<u8>
    decreases i,
{
    if i <= 0 {
        t
    } else {
        let s2 = xorshift_step(state);
        let j = (s2 as int) % (i + 1);
        shuffle(swap_entries(t, i, j), s2, i - 1)
    }
}

/// The first 256 entries of the table a seed generates.
pub open spec fn base_table_from_seed(seed: u32) -> Seq<u8> {
    shuffle(identity_table(), initial_state(seed), 255)
}

/// The full 512-entry table a seed generates: the base table, doubled.
pub open spec fn table_from_seed(seed: u32) -> Seq<u8> {
    base_table_from_seed(seed) + base_table_from_seed(seed)
}

/// No two entries of `t` are equal.
pub open spec fn distinct_entries(t: Seq<u8>) -> bool {
    forall|a: int, b: int|
        0 <= a < t.len() && 0 <= b < t.len() && a != b ==> t[a] != t[b]
}

/// The hash fold over a table: starting from `acc`, each coordinate's low
/// byte is added to the accumulator, which is replaced by the table entry
/// at that index. The doubled table makes every such index in bounds.
pub open spec fn hash_acc(table: Seq<u8>, acc: u8, coords: Seq<i64>) -> u8
    decreases coords.len(),
{
    if coords.len() == 0 {
        acc
    } else {
        hash_acc(table, table[acc as int + (coords[0] & 0xff)], coords.drop_first())
    }
}

/// Exchanging two entries keeps all entries distinct.
proof fn lemma_swap_keeps_distinct(t: Seq<u8>, a: int, b: int)
    requires
        t.len() == 256,
        distinct_entries(t),
        0 <= a < 256,
        0 <= b < 256,
    ensures
        swap_entries(t, a, b).len() == 256,
        distinct_entries(swap_entries(t, a, b)),
{
    let s = swap_entries(t, a, b);
    assert forall|x: int, y: int|
        0 <= x < s.len() && 0 <= y < s.len() && x != y implies s[x] != s[y] by {
        let sx: int = if x == b { a } else if x == a { b } else { x };
        let sy: int = if y == b { a } else if y == a { b } else { y };
        assert(s[x] == t[sx]);
        assert(s[y] == t[sy]);
        assert(sx != sy);
    }
}

/// The shuffle keeps the length and keeps all entries distinct.
proof fn lemma_shuffle_keeps_distinct(t: Seq<u8>, state: u32, i: int)
    requires
        t.len() == 256,
        distinct_entries(t),
        0 <= i < 256,
    ensures
        shuffle(t, state, i).len() == 256,
        distinct_entries(shuffle(t, state, i)),
    decreases i,
{
    if i > 0 {
        let s2 = xorshift_step(state);
        let j = (s2 as int) % (i + 1);
        lemma_swap_keeps_distinct(t, i, j);
        lemma_shuffle_keeps_distinct(swap_entries(t, i, j), s2, i - 1);
    }
}

/// Pigeonhole: 256 pairwise distinct bytes leave no byte value out.
proof fn lemma_distinct_bytes_cover_all(t: Seq<u8>)
    requires
        t.len() == 256,
        distinct_entries(t),
    ensures
        forall|v: u8| #[trigger] t.contains(v),
{
    broadcast use vstd::seq_lib::seq_to_set_is_finite;

    assert(t.no_duplicates());
    t.unique_seq_to_set();
    let cast = |i: int| i as u8;
    let bytes = vstd::set_lib::set_int_range(0, 256).map(cast);
    vstd::set_lib::lemma_int_range(0, 256);
    assert(vstd::relations::injective_on(cast, vstd::set_lib::set_int_range(0, 256)));
    vstd::set_lib::lemma_map_size(vstd::set_lib::set_int_range(0, 256), bytes, cast);
    assert forall|v: u8| #[trigger] bytes.contains(v) by {
        assert(vstd::set_lib::set_int_range(0, 256).contains(v as int));
        assert(cast(v as int) == v);
    }
    assert(t.to_set().subset_of(bytes));
    vstd::set_lib::lemma_subset_equality(t.to_set(), bytes);
    assert forall|v: u8| #[trigger] t.contains(v) by {
        assert(bytes.contains(v));
        assert(t.to_set().contains(v));
    }
}

/// The table a seed generates is a true permutation table: 512 entries,
/// the second half repeating the first, and the first 256 entries
/// pairwise distinct and covering every byte value, hence a permutation
/// of `0..=255`.
pub proof fn lemma_table_from_seed_permutation(seed: u32)
    ensures
        table_from_seed(seed).len() == 512,
        base_table_from_seed(seed).len() == 256,
        distinct_entries(base_table_from_seed(seed)),
        forall|v: u8| #[trigger] base_table_from_seed(seed).contains(v),
        forall|m: int|
            0 <= m < 256 ==> #[trigger] table_from_seed(seed)[m + 256] == table_from_seed(seed)[m],
        forall|m: int|
            0 <= m < 256 ==> #[trigger] table_from_seed(seed)[m] == base_table_from_seed(seed)[m],
{
    let id = identity_table();
    assert(distinct_entries(id)) by {
        assert forall|a: int, b: int|
            0 <= a < id.len() && 0 <= b < id.len() && a != b implies id[a] != id[b] by {
            assert(id[a] == a as u8);
            assert(id[b] == b as u8);
        }
    }
    lemma_shuffle_keeps_distinct(id, initial_state(seed), 255);
    lemma_distinct_bytes_cover_all(base_table_from_seed(seed));
}

/// Determinism: a table's hash depends on the table contents alone, and
/// `PermutationTable::new` pins the contents to the seed, so two tables
/// built from one seed hash every coordinate sequence alike — same seed
/// and same coordinates give the same byte, in any process.
pub proof fn lemma_hash_deterministic(a: &PermutationTable, b: &PermutationTable, coords: Seq<i64>)
    requires
        a@ == b@,
    ensures
        a.hash_spec(coords) == b.hash_spec(coords),
{
}

/// The two-coordinate hash is the closed formula the doubled table
/// realizes without modular indexing: the first coordinate's low byte
/// indexes the table, the second coordinate's low byte is added, and the
/// sum indexes the table again.
pub proof fn lemma_hash_2d_formula(t: &PermutationTable, x: i64, y: i64)
    ensures
        t.hash_spec(seq![x, y]) == t@[t@[(x & 0xff) as int] as int + (y & 0xff)],
{
    let s = seq![x, y];
    assert(s.drop_first() =~= seq![y]);
    assert(seq![y].drop_first() =~= Seq::<i64>::empty());
    let a1 = t@[0 + (x & 0xff)];
    assert(t.hash_spec(s) == hash_acc(t@, a1, seq![y]));
    let a2 = t@[a1 as int + (y & 0xff)];
    assert(hash_acc(t@, a1, seq![y]) == hash_acc(t@, a2, Seq::<i64>::empty()));
    assert(hash_acc(t@, a2, Seq::<i64>::empty()) == a2);
}

/// A hasher folds integer lattice coordinates into a single byte, as a
/// fixed function of the hasher's state and the coordinates.
pub trait NoiseHasher {
    /// The byte this hasher assigns to a coordinate sequence.
    spec fn hash_spec(&self, coords: Seq<i64>) -> u8;

    /// Hash a sequence of integer lattice coordinates to a byte.
    fn hash(&self, to_hash: &[i64]) -> (r: u8)
        ensures
            r == self.hash_spec(to_hash@),
    ;
}

/// A seeded 256-byte permutation, stored doubled to 512 entries.
pub struct PermutationTable {
    values: Vec<u8>,
}

impl View for PermutationTable {
    type V = Seq<u8>;

    closed spec fn view(&self) -> Seq<u8> {
        self.values@
    }
}

impl PermutationTable {
    #[verifier::type_invariant]
    spec fn wf(self) -> bool {
        self.values@.len() == 512
    }

    /// Advance the xorshift32 generator by one step.
    fn next_state(state: u32) -> (r: u32)
        ensures
            r == xorshift_step(state),
    {
        let a = state ^ (state << 13u32);
        let b = a ^ (a >> 17u32);
        b ^ (b << 5u32)
    }

    /// Build the table a seed generates: the identity permutation,
    /// shuffled by seeded Fisher-Yates, then doubled.
    pub fn new(seed: u32) -> (r: Self)
        ensures
            r@ == table_from_seed(seed),
    {
        let mut values: Vec<u8> = Vec::new();
        let mut k: usize = 0;
        while k < 256
            invariant
                k <= 256,
                values@.len() == k,
                forall|m: int| 0 <= m < k ==> values@[m] == m as u8,
            decreases 256 - k,
        {
            values.push(k as u8);
            k += 1;
        }
        proof {
            assert(values@ =~= identity_table());
        }
        let mut state: u32 = if seed == 0 { 0x9E3779B9 } else { seed };
        proof {
            assert(state == initial_state(seed));
        }
        let mut i: usize = 255;
        while i > 0
            invariant
                i <= 255,
                values@.len() == 256,
                shuffle(values@, state, i as int) == base_table_from_seed(seed),
            decreases i,
        {
            let ghost t_old = values@;
            let ghost state_old = state;
            state = Self::next_state(state);
            let j: usize = (state as usize) % (i + 1);
            let ti = values[i];
            let tj = values[j];
            values[i] = tj;
            values[j] = ti;
            proof {
                assert(j == (xorshift_step(state_old) as int) % (i as int + 1));
                assert(values@ == swap_entries(t_old, i as int, j as int));
                assert(shuffle(t_old, state_old, i as int)
                    == shuffle(swap_entries(t_old, i as int, j as int), state, i as int - 1));
            }
            i -= 1;
        }
        proof {
            assert(values@ == base_table_from_seed(seed));
        }
        let ghost base = values@;
        let mut k2: usize = 0;
        proof {
            assert(values@ =~= base + base.take(0));
        }
        while k2 < 256
            invariant
                k2 <= 256,
                base.len() == 256,
                base == base_table_from_seed(seed),
                values@ == base + base.take(k2 as int),
            decreases 256 - k2,
        {
            let v = values[k2];
            values.push(v);
            k2 += 1;
            proof {
                assert(base.take(k2 as int) =~= base.take(k2 as int - 1).push(base[k2 as int - 1]));
                assert(values@ =~= base + base.take(k2 as int));
            }
        }
        proof {
            assert(base.take(256) =~= base);
            assert(values@ =~= table_from_seed(seed));
        }
        PermutationTable { values }
    }

    /// Read one entry of the doubled table.
    pub fn lookup(&self, index: usize) -> (r: u8)
        requires
            index < 512,
        ensures
            r == self@[index as int],
    {
        proof {
            use_type_invariant(&*self);
        }
        self.values[index]
    }
}

impl NoiseHasher for PermutationTable {
    open spec fn hash_spec(&self, coords: Seq<i64>) -> u8 {
        hash_acc(self@, 0u8, coords)
    }

    /// Fold the coordinates into a byte: each coordinate contributes its
    /// two's-complement low byte, added to the previous table entry and
    /// looked up in the doubled table.
    fn hash(&self, to_hash: &[i64]) -> (r: u8) {
        proof {
            use_type_invariant(&*self);
        }
        let mut acc: u8 = 0;
        let mut k: usize = 0;
        proof {
            assert(to_hash@.skip(0) =~= to_hash@);
        }
        while k < to_hash.len()
            invariant
                k <= to_hash@.len(),
                self.values@.len() == 512,
                self@ == self.values@,
                hash_acc(self@, acc, to_hash@.skip(k as int)) == hash_acc(self@, 0u8, to_hash@),
            decreases to_hash@.len() - k,
        {
            let ghost rest = to_hash@.skip(k as int);
            let c = to_hash[k];
            let b = c & 0xff;
            proof {
                assert(0 <= (c & 0xff) < 256) by (bit_vector);
                assert(rest[0] == c);
                assert(rest.drop_first() =~= to_hash@.skip(k as int + 1));
            }
            let idx: usize = (acc as usize) + (b as usize);
            acc = self.values[idx];
            k += 1;
        }
        proof {
            assert(to_hash@.skip(to_hash@.len() as int) =~= Seq::<i64>::empty());
        }
        acc
    }
}

} // verus!
