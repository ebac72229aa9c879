//! The tile-query policy, stated exactly: which features a tile at zoom `z`
//! shows, and in which order they are drawn.

use vstd::prelude::*;

verus! {

/// `ceil(log2(n))` for `n >= 1`: the least `k` with `2^k >= n`.
pub open spec fn ceil_log2(n: int) -> nat
    decreases n,
{
    if n <= 1 {
        0
    } else {
        1 + ceil_log2((n + 1) / 2)
    }
}

/// The least zoom at which a feature of the given scale shows.
pub open spec fn min_zoom(scale: int) -> int {
    28 - ceil_log2(scale)
}

/// A feature as the tile query sees it: compilation scale of its chart and
/// its own scale minimum, if any.
#[derive(Debug, Clone, Copy, PartialEq, Eq, Structural)]
pub struct TileFeature {
    pub compilation_scale: i32,
    pub scamin: Option<i32>,
}

/// The feature shows at zoom `z`: the zoom that its chart's compilation
/// scale allows has been reached, and so has the one its scale minimum
/// allows where it has one (scales are positive).
pub open spec fn visible(f: TileFeature, z: int) -> bool {
    &&& f.compilation_scale >= 1
    &&& min_zoom(f.compilation_scale as int) <= z
    &&& match f.scamin {
        Some(s) => s >= 1 && min_zoom(s as int) <= z,
        None => true,
    }
}

/// `ceil(log2(n))` for a positive scale.
pub fn ceil_log2_exec(n: i32) -> (r: u32)
    requires
        n >= 1,
    ensures
        r == ceil_log2(n as int),
        r <= 31,
{
    let mut m: i64 = n as i64;
    let mut k: u32 = 0;
    proof {
        lemma_ceil_log2_bound(n as int);
    }
    while m > 1
        invariant
            1 <= m <= i32::MAX,
            k + ceil_log2(m as int) == ceil_log2(n as int),
            ceil_log2(n as int) <= 31,
        decreases m,
    {
        m = (m + 1) / 2;
        k = k + 1;
    }
    k
}

proof fn lemma_ceil_log2_bound(m: int)
    requires
        1 <= m <= i32::MAX,
    ensures
        ceil_log2(m) <= 31,
{
    lemma_ceil_log2_le(m);
}

proof fn lemma_ceil_log2_le(m: int)
    requires
        1 <= m <= 0x8000_0000,
    ensures
        ceil_log2(m) <= 31,
{
    lemma_ceil_log2_mono(m, 0x8000_0000);
    assert(ceil_log2(0x8000_0000) == 31) by {
        reveal_with_fuel(ceil_log2, 32);
    }
}

proof fn lemma_ceil_log2_mono(a: int, b: int)
    requires
        1 <= a <= b,
    ensures
        ceil_log2(a) <= ceil_log2(b),
    decreases b,
{
    if a > 1 {
        lemma_ceil_log2_mono((a + 1) / 2, (b + 1) / 2);
    }
}

/// Whether a feature shows in a tile at zoom `z`.
pub fn is_visible(f: TileFeature, z: i32) -> (r: bool)
    ensures
        r == visible(f, z as int),
{
    if f.compilation_scale < 1 {
        return false;
    }
    let c = ceil_log2_exec(f.compilation_scale) as i64;
    if 28 - c > z as i64 {
        return false;
    }
    match f.scamin {
        Some(s) => {
            if s < 1 {
                return false;
            }
            let d = ceil_log2_exec(s) as i64;
            28 - d <= z as i64
        },
        None => true,
    }
}

/// The order is drawing order: coarser charts (larger compilation scale)
/// first, so that finer charts are drawn over them.
pub open spec fn drawn_in_order(fs: Seq<TileFeature>, order: Seq<usize>) -> bool {
    forall|i: int, j: int|
        0 <= i < j < order.len() ==> fs[order[i] as int].compilation_scale >= fs[order[j] as int].compilation_scale
}

/// The features of a tile at zoom `z`, by index, in drawing order: exactly
/// the visible ones, each once, coarsest compilation scale first.
pub fn tile_order(fs: &Vec<TileFeature>, z: i32) -> (r: Vec<usize>)
    ensures
        r@.no_duplicates(),
        forall|k: usize| r@.contains(k) <==> (k < fs@.len() && visible(fs@[k as int], z as int)),
        drawn_in_order(fs@, r@),
{
    let mut r: Vec<usize> = Vec::new();
    let mut k: usize = 0;
    while k < fs.len()
        invariant
            k <= fs@.len(),
            r@.no_duplicates(),
            forall|x: usize| r@.contains(x) <==> (x < k && visible(fs@[x as int], z as int)),
            forall|i: int| 0 <= i < r@.len() ==> (#[trigger] r@[i]) < fs@.len(),
            drawn_in_order(fs@, r@),
        decreases fs@.len() - k,
    {
        if is_visible(fs[k], z) {
            let s = fs[k].compilation_scale;
            let mut p: usize = 0;
            while p < r.len() && fs[r[p]].compilation_scale >= s
                invariant
                    p <= r@.len(),
                    forall|i: int| 0 <= i < r@.len() ==> (#[trigger] r@[i]) < fs@.len(),
                    forall|i: int| 0 <= i < p ==> fs@[r@[i] as int].compilation_scale >= s,
                decreases r@.len() - p,
            {
                p = p + 1;
            }
            let ghost old_r = r@;
            proof {
                assert(visible(fs@[k as int], z as int));
                assert(!old_r.contains(k));
                if p < old_r.len() {
                    assert(fs@[old_r[p as int] as int].compilation_scale < s);
                }
            }
            r.insert(p, k);
            proof {
                assert(r@ == old_r.insert(p as int, k));
                assert forall|i: int, j: int| 0 <= i < j < r@.len() implies fs@[r@[i] as int].compilation_scale
                    >= fs@[r@[j] as int].compilation_scale by {
                    if j < p {
                        assert(r@[i] == old_r[i] && r@[j] == old_r[j]);
                    } else if j == p {
                        assert(r@[i] == old_r[i]);
                    } else if i < p {
                        assert(r@[i] == old_r[i] && r@[j] == old_r[j - 1]);
                        assert(fs@[old_r[p as int] as int].compilation_scale < s);
                        if j - 1 > p {
                            assert(fs@[old_r[p as int] as int].compilation_scale >= fs@[old_r[j - 1] as int].compilation_scale);
                        }
                    } else if i == p {
                        assert(r@[j] == old_r[j - 1]);
                        assert(fs@[old_r[p as int] as int].compilation_scale < s);
                        if j - 1 > p {
                            assert(fs@[old_r[p as int] as int].compilation_scale >= fs@[old_r[j - 1] as int].compilation_scale);
                        }
                    } else {
                        assert(r@[i] == old_r[i - 1] && r@[j] == old_r[j - 1]);
                    }
                }
                assert forall|x: usize| r@.contains(x) <==> (x < k + 1 && visible(fs@[x as int], z as int)) by {
                    if r@.contains(x) {
                        let i = choose|i: int| 0 <= i < r@.len() && r@[i] == x;
                        if i < p {
                            assert(old_r[i] == x);
                            assert(old_r.contains(x));
                        } else if i > p {
                            assert(old_r[i - 1] == x);
                            assert(old_r.contains(x));
                        } else {
                            assert(x == k);
                        }
                    }
                    if x < k + 1 && visible(fs@[x as int], z as int) {
                        if x == k {
                            assert(r@[p as int] == x);
                        } else {
                            assert(old_r.contains(x));
                            let i = choose|i: int| 0 <= i < old_r.len() && old_r[i] == x;
                            if i < p {
                                assert(r@[i] == x);
                            } else {
                                assert(r@[i + 1] == x);
                            }
                        }
                    }
                }
                assert forall|i: int, j: int| 0 <= i < j < r@.len() implies r@[i] != r@[j] by {
                    if i == p as int {
                        assert(old_r.contains(r@[j]));
                    } else if j == p as int {
                        assert(old_r.contains(r@[i]));
                    } else {
                        let oi = if i < p { i } else { i - 1 };
                        let oj = if j < p { j } else { j - 1 };
                        assert(r@[i] == old_r[oi] && r@[j] == old_r[oj]);
                    }
                }
                assert forall|i: int| 0 <= i < r@.len() implies (#[trigger] r@[i]) < fs@.len() by {
                    if i < p {
                        assert(r@[i] == old_r[i]);
                    } else if i > p {
                        assert(r@[i] == old_r[i - 1]);
                    }
                }
            }
        } else {
            proof {
                assert(!visible(fs@[k as int], z as int));
                assert forall|x: usize| r@.contains(x) <==> (x < k + 1 && visible(fs@[x as int], z as int)) by {
                    if x == k {
                        assert(!r@.contains(x));
                    }
                }
            }
        }
        k = k + 1;
    }
    r
}

} // verus!
