use noise::{Abs, Add, Exponent, Multiply, NoiseHasher, Power, Value};
use noise::value::{value_corner_hashes_2d, value_corner_hashes_3d, value_corner_hashes_4d};
use noise::{PermutationTable, Seedable};

// An independent copy of the table construction, kept deliberately
// separate from the library, to pin the generator and shuffle sequence.

fn reference_xorshift(state: u32) -> u32 {
    let a = state ^ (state << 13);
    let b = a ^ (a >> 17);
    b ^ (b << 5)
}

fn reference_table(seed: u32) -> Vec<u8> {
    let mut t: Vec<u8> = (0..=255u8).collect();
    let mut state: u32 = if seed == 0 { 0x9E3779B9 } else { seed };
    let mut i: usize = 255;
    while i > 0 {
        state = reference_xorshift(state);
        let j = (state as usize) % (i + 1);
        t.swap(i, j);
        i -= 1;
    }
    let mut doubled = t.clone();
    doubled.extend_from_slice(&t);
    doubled
}

fn table_entries(t: &PermutationTable) -> Vec<u8> {
    (0..512).map(|i| t.lookup(i)).collect()
}

// A plain reimplementation of the sampler's real-valued half, driven by
// the library's verified corner hashing.

fn lerp(a: f64, b: f64, t: f64) -> f64 {
    a + t * (b - a)
}

fn quintic(t: f64) -> f64 {
    t * t * t * (t * (t * 6.0 - 15.0) + 10.0)
}

fn sample_value_2d(table: &PermutationTable, point: [f64; 2]) -> f64 {
    let fx = point[0].floor();
    let fy = point[1].floor();
    let corner = [fx as i64, fy as i64];
    let wx = quintic(point[0] - fx);
    let wy = quintic(point[1] - fy);
    let f = value_corner_hashes_2d(table, corner);
    let f00 = f[0] as f64 / 255.0;
    let f10 = f[1] as f64 / 255.0;
    let f01 = f[2] as f64 / 255.0;
    let f11 = f[3] as f64 / 255.0;
    let d0 = lerp(f00, f10, wx);
    let d1 = lerp(f01, f11, wx);
    let d = lerp(d0, d1, wy);
    d * 2.0 - 1.0
}

fn sample_value_3d(table: &PermutationTable, point: [f64; 3]) -> f64 {
    let fx = point[0].floor();
    let fy = point[1].floor();
    let fz = point[2].floor();
    let corner = [fx as i64, fy as i64, fz as i64];
    let wx = quintic(point[0] - fx);
    let wy = quintic(point[1] - fy);
    let wz = quintic(point[2] - fz);
    let f = value_corner_hashes_3d(table, corner);
    let v: Vec<f64> = f.iter().map(|&b| b as f64 / 255.0).collect();
    let d00 = lerp(v[0], v[1], wx);
    let d10 = lerp(v[2], v[3], wx);
    let d01 = lerp(v[4], v[5], wx);
    let d11 = lerp(v[6], v[7], wx);
    let d0 = lerp(d00, d10, wy);
    let d1 = lerp(d01, d11, wy);
    let d = lerp(d0, d1, wz);
    d * 2.0 - 1.0
}

fn sample_value_4d(table: &PermutationTable, point: [f64; 4]) -> f64 {
    let fx = point[0].floor();
    let fy = point[1].floor();
    let fz = point[2].floor();
    let fw = point[3].floor();
    let corner = [fx as i64, fy as i64, fz as i64, fw as i64];
    let wx = quintic(point[0] - fx);
    let wy = quintic(point[1] - fy);
    let wz = quintic(point[2] - fz);
    let ww = quintic(point[3] - fw);
    let f = value_corner_hashes_4d(table, corner);
    let v: Vec<f64> = f.iter().map(|&b| b as f64 / 255.0).collect();
    let mut d: Vec<f64> = (0..8).map(|i| lerp(v[2 * i], v[2 * i + 1], wx)).collect();
    d = (0..4).map(|i| lerp(d[2 * i], d[2 * i + 1], wy)).collect();
    d = (0..2).map(|i| lerp(d[2 * i], d[2 * i + 1], wz)).collect();
    lerp(d[0], d[1], ww) * 2.0 - 1.0
}

// A small deterministic generator for test points.

fn lcg_next(state: &mut u64) -> f64 {
    *state = state.wrapping_mul(6364136223846793005).wrapping_add(1442695040888963407);
    // top 32 bits, mapped to [-50, 50)
    let top = (*state >> 32) as u32;
    (top as f64 / 4294967296.0) * 100.0 - 50.0
}

#[test]
fn table_matches_reference_construction() {
    for seed in [0u32, 1, 42, 0x9E3779B9, u32::MAX] {
        let t = PermutationTable::new(seed);
        assert_eq!(table_entries(&t), reference_table(seed));
    }
}

#[test]
fn table_entries_are_pinned() {
    // Explicit leading entries for a few seeds, locking the generator
    // and shuffle sequence against regressions.
    let t0 = PermutationTable::new(0);
    let lead0: Vec<u8> = (0..16).map(|i| t0.lookup(i)).collect();
    assert_eq!(
        lead0,
        [73, 3, 164, 38, 166, 23, 156, 148, 223, 77, 198, 5, 179, 197, 19, 247]
    );
    let t1 = PermutationTable::new(1);
    let lead1: Vec<u8> = (0..8).map(|i| t1.lookup(i)).collect();
    assert_eq!(lead1, [150, 158, 12, 60, 107, 149, 223, 53]);
    let t42 = PermutationTable::new(42);
    let lead42: Vec<u8> = (0..8).map(|i| t42.lookup(i)).collect();
    assert_eq!(lead42, [53, 37, 236, 207, 116, 34, 82, 127]);
}

#[test]
fn value_2d_origin_pinned_float() {
    // Seed 0 at the origin: the sample is the hash of (0, 0), which the
    // pinned table makes 50, mapped to [-1, 1].
    let t = PermutationTable::new(0);
    assert_eq!(t.hash(&[0, 0]), 50);
    let expected = 50.0 / 255.0 * 2.0 - 1.0;
    assert!((sample_value_2d(&t, [0.0, 0.0]) - expected).abs() < 1e-6);
    assert!((expected - (-0.6078431372549019)).abs() < 1e-12);
}

#[test]
fn table_is_permutation_and_doubled() {
    for seed in [0u32, 7, 123456789] {
        let t = PermutationTable::new(seed);
        let e = table_entries(&t);
        let mut counts = [0u32; 256];
        for i in 0..256 {
            counts[e[i] as usize] += 1;
            assert_eq!(e[i], e[i + 256]);
        }
        for c in counts.iter() {
            assert_eq!(*c, 1);
        }
    }
}

#[test]
fn same_seed_same_table_and_hash() {
    let a = PermutationTable::new(99);
    let b = PermutationTable::new(99);
    assert_eq!(table_entries(&a), table_entries(&b));
    for coords in [[0i64, 0], [17, -3], [-256, 511], [i64::MIN, i64::MAX]] {
        assert_eq!(a.hash(&coords), b.hash(&coords));
    }
}

#[test]
fn hash_folds_through_table() {
    let t = PermutationTable::new(5);
    assert_eq!(t.hash(&[]), 0);
    for x in [0i64, 17, -300] {
        assert_eq!(t.hash(&[x]), t.lookup((x & 0xff) as usize));
    }
    for (x, y) in [(0i64, 0i64), (3, -5), (-1, -256), (255, 255)] {
        let expected = {
            let first = t.lookup((x & 0xff) as usize);
            t.lookup(first as usize + (y & 0xff) as usize)
        };
        assert_eq!(t.hash(&[x, y]), expected);
    }
}

#[test]
fn quintic_fade_fixed_points() {
    assert_eq!(quintic(0.0), 0.0);
    assert_eq!(quintic(1.0), 1.0);
    assert_eq!(quintic(0.5), 0.5);
}

#[test]
fn hash_depends_on_low_bytes_only() {
    let t = PermutationTable::new(11);
    assert_eq!(t.hash(&[256, 0]), t.hash(&[0, 0]));
    assert_eq!(t.hash(&[-1, 7]), t.hash(&[255, 7]));
    assert_eq!(t.hash(&[1000, -1000]), t.hash(&[1000 % 256, -1000 & 0xff]));
    assert_eq!(t.hash(&[1, 2, 3]), t.hash(&[257, -254, 259]));
}

#[test]
fn corner_hashes_match_individual_hashes_2d() {
    let t = PermutationTable::new(8);
    for corner in [[0i64, 0], [5, -9], [-100, 100]] {
        let f = value_corner_hashes_2d(&t, corner);
        let (x, y) = (corner[0], corner[1]);
        assert_eq!(f[0], t.hash(&[x, y]));
        assert_eq!(f[1], t.hash(&[x + 1, y]));
        assert_eq!(f[2], t.hash(&[x, y + 1]));
        assert_eq!(f[3], t.hash(&[x + 1, y + 1]));
    }
}

#[test]
fn corner_hashes_match_individual_hashes_3d() {
    let t = PermutationTable::new(8);
    let corner = [2i64, -3, 4];
    let f = value_corner_hashes_3d(&t, corner);
    let (x, y, z) = (corner[0], corner[1], corner[2]);
    let expected = [
        t.hash(&[x, y, z]),
        t.hash(&[x + 1, y, z]),
        t.hash(&[x, y + 1, z]),
        t.hash(&[x + 1, y + 1, z]),
        t.hash(&[x, y, z + 1]),
        t.hash(&[x + 1, y, z + 1]),
        t.hash(&[x, y + 1, z + 1]),
        t.hash(&[x + 1, y + 1, z + 1]),
    ];
    assert_eq!(f, expected);
}

#[test]
fn corner_hashes_match_individual_hashes_4d() {
    let t = PermutationTable::new(21);
    let corner = [-2i64, 0, 7, -30];
    let f = value_corner_hashes_4d(&t, corner);
    let (x, y, z, w) = (corner[0], corner[1], corner[2], corner[3]);
    for ow in 0..2i64 {
        for oz in 0..2i64 {
            for oy in 0..2i64 {
                for ox in 0..2i64 {
                    let idx = (ox + 2 * oy + 4 * oz + 8 * ow) as usize;
                    assert_eq!(f[idx], t.hash(&[x + ox, y + oy, z + oz, w + ow]));
                }
            }
        }
    }
}

#[test]
fn value_2d_at_origin_matches_pinned_table() {
    // At an integer lattice point the sample is the corner hash itself,
    // mapped from [0, 255] to [-1, 1].
    let t = PermutationTable::new(0);
    let expected = t.lookup(t.lookup(0) as usize) as f64 / 255.0 * 2.0 - 1.0;
    let got = sample_value_2d(&t, [0.0, 0.0]);
    assert!((got - expected).abs() < 1e-6);
}

#[test]
fn value_2d_at_cell_center_is_corner_average() {
    let t = PermutationTable::new(0);
    let f = value_corner_hashes_2d(&t, [0, 0]);
    let avg = (f[0] as f64 + f[1] as f64 + f[2] as f64 + f[3] as f64) / 4.0 / 255.0;
    let expected = avg * 2.0 - 1.0;
    let got = sample_value_2d(&t, [0.5, 0.5]);
    assert!((got - expected).abs() < 1e-6);
}

#[test]
fn sampling_is_deterministic_bitwise() {
    let t1 = PermutationTable::new(77);
    let t2 = PermutationTable::new(77);
    let mut state: u64 = 1;
    for _ in 0..100 {
        let p2 = [lcg_next(&mut state), lcg_next(&mut state)];
        assert_eq!(
            sample_value_2d(&t1, p2).to_bits(),
            sample_value_2d(&t2, p2).to_bits()
        );
        let p3 = [lcg_next(&mut state), lcg_next(&mut state), lcg_next(&mut state)];
        assert_eq!(
            sample_value_3d(&t1, p3).to_bits(),
            sample_value_3d(&t2, p3).to_bits()
        );
        let p4 = [
            lcg_next(&mut state),
            lcg_next(&mut state),
            lcg_next(&mut state),
            lcg_next(&mut state),
        ];
        assert_eq!(
            sample_value_4d(&t1, p4).to_bits(),
            sample_value_4d(&t2, p4).to_bits()
        );
    }
}

#[test]
fn value_noise_stays_in_unit_range() {
    let t = PermutationTable::new(31);
    let mut state: u64 = 42;
    for _ in 0..2000 {
        let v2 = sample_value_2d(&t, [lcg_next(&mut state), lcg_next(&mut state)]);
        assert!(v2.abs() <= 1.0 + 1e-9);
        let v3 = sample_value_3d(
            &t,
            [lcg_next(&mut state), lcg_next(&mut state), lcg_next(&mut state)],
        );
        assert!(v3.abs() <= 1.0 + 1e-9);
        let v4 = sample_value_4d(
            &t,
            [
                lcg_next(&mut state),
                lcg_next(&mut state),
                lcg_next(&mut state),
                lcg_next(&mut state),
            ],
        );
        assert!(v4.abs() <= 1.0 + 1e-9);
    }
}

#[test]
fn value_noise_is_continuous_at_lattice_crossings() {
    let t = PermutationTable::new(13);
    let eps = 1e-7;
    let dirs = [
        [1.0, 0.0],
        [0.0, 1.0],
        [-1.0, 0.0],
        [0.0, -1.0],
        [0.70710678, 0.70710678],
        [-0.6, 0.8],
    ];
    for k in -3i32..4 {
        for frac in [0.0, 0.25, 0.75] {
            let p = [k as f64, k as f64 + frac];
            let base = sample_value_2d(&t, p);
            for d in dirs.iter() {
                let q = [p[0] + eps * d[0], p[1] + eps * d[1]];
                assert!((base - sample_value_2d(&t, q)).abs() < 1e-4);
            }
        }
    }
}

#[test]
fn add_combiner_stores_sources_and_sums() {
    let add: Add<Value, Value, 2> = Add::new(Value::new(1), Value::new(2));
    let p = [0.1, 0.2];
    let s1 = sample_value_2d(add.source1.hasher(), p);
    let s2 = sample_value_2d(add.source2.hasher(), p);
    let expected =
        sample_value_2d(Value::new(1).hasher(), p) + sample_value_2d(Value::new(2).hasher(), p);
    assert_eq!(s1 + s2, expected);
}

#[test]
fn multiply_and_power_store_sources() {
    let m: Multiply<Value, Value, 3> = Multiply::new(Value::new(4), Value::new(5));
    assert_eq!(m.source1.seed(), 4);
    assert_eq!(m.source2.seed(), 5);
    let p: Power<Value, Value, 4> = Power::new(Value::new(6), Value::new(7));
    assert_eq!(p.source1.seed(), 6);
    assert_eq!(p.source2.seed(), 7);
}

#[test]
fn abs_reseed_forwards_to_source() {
    let abs: Abs<Value, 2> = Abs::new(Value::new(7));
    let abs = abs.set_seed(9);
    assert_eq!(abs.seed(), 9);
    let fresh = Value::new(9);
    let p = [1.25, -0.75];
    let inner = sample_value_2d(abs.source.hasher(), p);
    let direct = sample_value_2d(fresh.hasher(), p);
    assert_eq!(inner.abs().to_bits(), direct.abs().to_bits());
}

#[test]
fn exponent_default_and_survives_reseed() {
    let e: Exponent<Value, 2> = Exponent::new(Value::new(1));
    assert_eq!(e.exponent_bits, 1.0f64.to_bits());
    let e = e.set_exponent(2.0f64.to_bits());
    let e = e.set_seed(5);
    assert_eq!(e.exponent_bits, 2.0f64.to_bits());
    assert_eq!(e.seed(), 5);
}

#[test]
fn whole_graph_reseed_reaches_every_leaf() {
    let graph: Abs<Exponent<Value, 2>, 2> = Abs::new(Exponent::new(Value::new(1)));
    let graph = graph.set_seed(33);
    assert_eq!(graph.seed(), 33);
    assert_eq!(graph.source.seed(), 33);
    assert_eq!(graph.source.source.seed(), 33);
}

#[test]
fn seedable_new_reports_its_seed() {
    let v = Value::new(12345);
    assert_eq!(v.seed(), 12345);
    let a = <Abs<Value, 3> as Seedable>::new(54321);
    assert_eq!(a.seed(), 54321);
    assert_eq!(a.source.seed(), 54321);
}
