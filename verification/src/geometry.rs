//! The fixed cube geometry and the edge-selection rule.
//!
//! A cube centered at the origin with half-extent 50 on each axis has eight
//! corners. A pair of distinct corners is a true cube edge exactly when the
//! two agree on two of the three coordinates; pairs agreeing on fewer axes are
//! face diagonals or the space diagonal and are not drawn.

use vstd::prelude::*;
use vstd::arithmetic::div_mod::{
    lemma_div_is_ordered, lemma_fundamental_div_mod, lemma_fundamental_div_mod_converse,
};
use vstd::arithmetic::mul::lemma_mul_is_commutative;

verus! {

/// A point in three-dimensional model space, coordinates in model units.
#[derive(Clone, Copy, Debug, PartialEq, Eq, Structural)]
pub struct Vec3 {
    pub x: i64,
    pub y: i64,
    pub z: i64,
}

/// Half of the cube's side length, in model units.
pub const HALF_EXTENT: i64 = 50;

/// The eight corners of the cube, indexed as the renderer scans them.
pub open spec fn spec_cube_vertices() -> Seq<Vec3> {
    seq![
        Vec3 { x: -50i64, y: -50i64, z: -50i64 },
        Vec3 { x: -50i64, y: -50i64, z: 50i64 },
        Vec3 { x: -50i64, y: 50i64, z: -50i64 },
        Vec3 { x: -50i64, y: 50i64, z: 50i64 },
        Vec3 { x: 50i64, y: -50i64, z: -50i64 },
        Vec3 { x: 50i64, y: -50i64, z: 50i64 },
        Vec3 { x: 50i64, y: 50i64, z: -50i64 },
        Vec3 { x: 50i64, y: 50i64, z: 50i64 },
    ]
}

/// How many of the three axes carry equal coordinates in `a` and `b`.
pub open spec fn spec_axes_equal(a: Vec3, b: Vec3) -> int {
    (if a.x == b.x { 1int } else { 0int })
        + (if a.y == b.y { 1int } else { 0int })
        + (if a.z == b.z { 1int } else { 0int })
}

/// Two vertices bound a cube edge exactly when they agree on two axes.
pub open spec fn spec_is_edge(a: Vec3, b: Vec3) -> bool {
    spec_axes_equal(a, b) == 2
}

/// The squared Euclidean distance between two vertices, in model units.
pub open spec fn spec_dist2(a: Vec3, b: Vec3) -> int {
    (a.x - b.x) * (a.x - b.x) + (a.y - b.y) * (a.y - b.y) + (a.z - b.z) * (a.z - b.z)
}

/// Builds the cube's eight corners.
pub fn cube_vertices() -> (vs: Vec<Vec3>)
    ensures
        vs@ == spec_cube_vertices(),
        vs@.len() == 8,
        forall|k: int|
            0 <= k < 8 ==> -HALF_EXTENT <= #[trigger] vs@[k].x <= HALF_EXTENT
                && -HALF_EXTENT <= vs@[k].y <= HALF_EXTENT
                && -HALF_EXTENT <= vs@[k].z <= HALF_EXTENT,
{
    let mut vs: Vec<Vec3> = Vec::new();
    vs.push(Vec3 { x: -50, y: -50, z: -50 });
    vs.push(Vec3 { x: -50, y: -50, z: 50 });
    vs.push(Vec3 { x: -50, y: 50, z: -50 });
    vs.push(Vec3 { x: -50, y: 50, z: 50 });
    vs.push(Vec3 { x: 50, y: -50, z: -50 });
    vs.push(Vec3 { x: 50, y: -50, z: 50 });
    vs.push(Vec3 { x: 50, y: 50, z: -50 });
    vs.push(Vec3 { x: 50, y: 50, z: 50 });
    proof {
        assert(vs@ =~= spec_cube_vertices());
    }
    vs
}

/// Counts the axes on which the two vertices agree.
pub fn axes_equal_count(a: &Vec3, b: &Vec3) -> (n: u8)
    ensures
        n == spec_axes_equal(*a, *b),
{
    let mut n: u8 = 0;
    if a.x == b.x {
        n = n + 1;
    }
    if a.y == b.y {
        n = n + 1;
    }
    if a.z == b.z {
        n = n + 1;
    }
    n
}

/// Decides whether the pair is a true cube edge: exactly two equal axes.
pub fn is_cube_edge(a: &Vec3, b: &Vec3) -> (r: bool)
    ensures
        r == spec_is_edge(*a, *b),
{
    axes_equal_count(a, b) == 2
}

/// The squared Euclidean distance between two vertices.
pub fn squared_distance(a: &Vec3, b: &Vec3) -> (d: i64)
    requires
        -1_000_000 <= a.x <= 1_000_000,
        -1_000_000 <= a.y <= 1_000_000,
        -1_000_000 <= a.z <= 1_000_000,
        -1_000_000 <= b.x <= 1_000_000,
        -1_000_000 <= b.y <= 1_000_000,
        -1_000_000 <= b.z <= 1_000_000,
    ensures
        d == spec_dist2(*a, *b),
{
    let dx: i64 = a.x - b.x;
    let dy: i64 = a.y - b.y;
    let dz: i64 = a.z - b.z;
    proof {
        assert(dx * dx <= 2_000_000 * 2_000_000 && dx * dx >= 0) by (nonlinear_arith)
            requires
                -2_000_000 <= dx <= 2_000_000,
        ;
        assert(dy * dy <= 2_000_000 * 2_000_000 && dy * dy >= 0) by (nonlinear_arith)
            requires
                -2_000_000 <= dy <= 2_000_000,
        ;
        assert(dz * dz <= 2_000_000 * 2_000_000 && dz * dz >= 0) by (nonlinear_arith)
            requires
                -2_000_000 <= dz <= 2_000_000,
        ;
    }
    dx * dx + dy * dy + dz * dz
}

/// The pairs that the scan over flattened pair index `k` has selected so far.
///
/// The scan walks the pair indices in the order `(0, 0), (0, 1), ...,
/// (0, n-1), (1, 0), ...`; step `k` looks at the pair `(k / n, k % n)` and
/// keeps it when the first index is smaller and the pair is a true edge.
pub open spec fn spec_edge_scan(vs: Seq<Vec3>, k: nat) -> Seq<(usize, usize)>
    decreases k,
{
    if k == 0 || vs.len() == 0 {
        Seq::empty()
    } else {
        let prev = spec_edge_scan(vs, (k - 1) as nat);
        let i = ((k - 1) as nat) / vs.len();
        let j = ((k - 1) as nat) % vs.len();
        if i < j && spec_is_edge(vs[i as int], vs[j as int]) {
            prev.push((i as usize, j as usize))
        } else {
            prev
        }
    }
}

/// A pair stands in the scan's output exactly when its flattened index has
/// been passed, its first index is the smaller, and it is a true edge.
pub proof fn lemma_edge_scan_membership(vs: Seq<Vec3>, k: nat, p: (usize, usize))
    requires
        k <= vs.len() * vs.len(),
        vs.len() <= usize::MAX,
    ensures
        spec_edge_scan(vs, k).contains(p) <==> ((p.0 as int) * vs.len() + p.1 < k && p.0 < p.1
            && (p.1 as int) < vs.len() && spec_is_edge(vs[p.0 as int], vs[p.1 as int])),
    decreases k,
{
    let n = vs.len() as int;
    assert(0 <= (p.0 as int) * n) by (nonlinear_arith)
        requires
            0 <= p.0 as int && 0 <= n,
    ;
    if k == 0 || n == 0 {
        assert(!spec_edge_scan(vs, k).contains(p)) by {
            assert(spec_edge_scan(vs, k).len() == 0);
        }
    } else {
        let km1 = (k - 1) as nat;
        lemma_edge_scan_membership(vs, km1, p);
        let prev = spec_edge_scan(vs, km1);
        let i = km1 / vs.len();
        let j = km1 % vs.len();
        lemma_fundamental_div_mod(km1 as int, n);
        lemma_mul_is_commutative(n, i as int);
        assert(i * n + j == k - 1);
        // the row index stays inside the vertex list
        assert((k - 1) as int <= n * n - 1);
        lemma_div_is_ordered(km1 as int, n * n - 1, n);
        assert(n * n - 1 == (n - 1) * n + (n - 1)) by (nonlinear_arith);
        lemma_fundamental_div_mod_converse(n * n - 1, n, n - 1, n - 1);
        assert(i < n);
        let e = ((i as usize), (j as usize));
        assert(e.0 as int == i && e.1 as int == j);
        let selected = i < j && spec_is_edge(vs[i as int], vs[j as int]);
        if selected {
            assert(spec_edge_scan(vs, k) == prev.push(e));
            assert(prev.push(e)[prev.len() as int] == e);
            assert(prev.push(e).contains(e));
            if prev.contains(p) {
                assert(prev.push(e).contains(p)) by {
                    let idx = choose|idx: int| 0 <= idx < prev.len() && prev[idx] == p;
                    assert(prev.push(e)[idx] == p);
                }
            }
        } else {
            assert(spec_edge_scan(vs, k) == prev);
        }
        if spec_edge_scan(vs, k).contains(p) && !prev.contains(p) {
            // only the pair of this step is new
            assert(selected && p == e) by {
                let idx = choose|idx: int|
                    0 <= idx < spec_edge_scan(vs, k).len() && spec_edge_scan(vs, k)[idx] == p;
                if selected && idx < prev.len() {
                    assert(prev[idx] == p);
                }
            }
            assert((p.0 as int) * n + p.1 == k - 1);
        }
        if (p.0 as int) * n + p.1 < k && p.0 < p.1 && (p.1 as int) < n && spec_is_edge(
            vs[p.0 as int],
            vs[p.1 as int],
        ) {
            if (p.0 as int) * n + p.1 == k - 1 {
                lemma_fundamental_div_mod_converse(km1 as int, n, p.0 as int, p.1 as int);
                assert(p.0 as int == i && p.1 as int == j);
                assert(p == e);
                assert(selected);
                assert(spec_edge_scan(vs, k).contains(p));
            } else {
                assert((p.0 as int) * n + p.1 < k - 1);
                assert(prev.contains(p));
                assert(spec_edge_scan(vs, k).contains(p));
            }
        }
        if p == e {
            assert((p.0 as int) * n + p.1 == i * n + j);
        }
    }
}

/// The twelve index pairs that the scan keeps for the cube, in scan order.
pub open spec fn spec_twelve_edges() -> Seq<(usize, usize)> {
    seq![
        (0usize, 1usize),
        (0usize, 2usize),
        (0usize, 4usize),
        (1usize, 3usize),
        (1usize, 5usize),
        (2usize, 3usize),
        (2usize, 6usize),
        (3usize, 7usize),
        (4usize, 5usize),
        (4usize, 6usize),
        (5usize, 7usize),
        (6usize, 7usize),
    ]
}

/// Scanning all pairs of the cube's corners keeps exactly the twelve edges.
pub proof fn lemma_cube_scan_yields_twelve()
    ensures
        spec_edge_scan(spec_cube_vertices(), 64) == spec_twelve_edges(),
{
    let cv = spec_cube_vertices();
    assert(cv.len() == 8);
    assert(spec_edge_scan(cv, 0) == Seq::<(usize, usize)>::empty());
    lemma_fundamental_div_mod_converse(0, 8, 0, 0);
    assert(spec_edge_scan(cv, 1) == spec_edge_scan(cv, 0));
    lemma_fundamental_div_mod_converse(1, 8, 0, 1);
    assert(spec_edge_scan(cv, 2) == spec_edge_scan(cv, 1).push((0usize, 1usize)));
    lemma_fundamental_div_mod_converse(2, 8, 0, 2);
    assert(spec_edge_scan(cv, 3) == spec_edge_scan(cv, 2).push((0usize, 2usize)));
    lemma_fundamental_div_mod_converse(3, 8, 0, 3);
    assert(spec_edge_scan(cv, 4) == spec_edge_scan(cv, 3));
    lemma_fundamental_div_mod_converse(4, 8, 0, 4);
    assert(spec_edge_scan(cv, 5) == spec_edge_scan(cv, 4).push((0usize, 4usize)));
    lemma_fundamental_div_mod_converse(5, 8, 0, 5);
    assert(spec_edge_scan(cv, 6) == spec_edge_scan(cv, 5));
    lemma_fundamental_div_mod_converse(6, 8, 0, 6);
    assert(spec_edge_scan(cv, 7) == spec_edge_scan(cv, 6));
    lemma_fundamental_div_mod_converse(7, 8, 0, 7);
    assert(spec_edge_scan(cv, 8) == spec_edge_scan(cv, 7));
    lemma_fundamental_div_mod_converse(8, 8, 1, 0);
    assert(spec_edge_scan(cv, 9) == spec_edge_scan(cv, 8));
    lemma_fundamental_div_mod_converse(9, 8, 1, 1);
    assert(spec_edge_scan(cv, 10) == spec_edge_scan(cv, 9));
    lemma_fundamental_div_mod_converse(10, 8, 1, 2);
    assert(spec_edge_scan(cv, 11) == spec_edge_scan(cv, 10));
    lemma_fundamental_div_mod_converse(11, 8, 1, 3);
    assert(spec_edge_scan(cv, 12) == spec_edge_scan(cv, 11).push((1usize, 3usize)));
    lemma_fundamental_div_mod_converse(12, 8, 1, 4);
    assert(spec_edge_scan(cv, 13) == spec_edge_scan(cv, 12));
    lemma_fundamental_div_mod_converse(13, 8, 1, 5);
    assert(spec_edge_scan(cv, 14) == spec_edge_scan(cv, 13).push((1usize, 5usize)));
    lemma_fundamental_div_mod_converse(14, 8, 1, 6);
    assert(spec_edge_scan(cv, 15) == spec_edge_scan(cv, 14));
    lemma_fundamental_div_mod_converse(15, 8, 1, 7);
    assert(spec_edge_scan(cv, 16) == spec_edge_scan(cv, 15));
    lemma_fundamental_div_mod_converse(16, 8, 2, 0);
    assert(spec_edge_scan(cv, 17) == spec_edge_scan(cv, 16));
    lemma_fundamental_div_mod_converse(17, 8, 2, 1);
    assert(spec_edge_scan(cv, 18) == spec_edge_scan(cv, 17));
    lemma_fundamental_div_mod_converse(18, 8, 2, 2);
    assert(spec_edge_scan(cv, 19) == spec_edge_scan(cv, 18));
    lemma_fundamental_div_mod_converse(19, 8, 2, 3);
    assert(spec_edge_scan(cv, 20) == spec_edge_scan(cv, 19).push((2usize, 3usize)));
    lemma_fundamental_div_mod_converse(20, 8, 2, 4);
    assert(spec_edge_scan(cv, 21) == spec_edge_scan(cv, 20));
    lemma_fundamental_div_mod_converse(21, 8, 2, 5);
    assert(spec_edge_scan(cv, 22) == spec_edge_scan(cv, 21));
    lemma_fundamental_div_mod_converse(22, 8, 2, 6);
    assert(spec_edge_scan(cv, 23) == spec_edge_scan(cv, 22).push((2usize, 6usize)));
    lemma_fundamental_div_mod_converse(23, 8, 2, 7);
    assert(spec_edge_scan(cv, 24) == spec_edge_scan(cv, 23));
    lemma_fundamental_div_mod_converse(24, 8, 3, 0);
    assert(spec_edge_scan(cv, 25) == spec_edge_scan(cv, 24));
    lemma_fundamental_div_mod_converse(25, 8, 3, 1);
    assert(spec_edge_scan(cv, 26) == spec_edge_scan(cv, 25));
    lemma_fundamental_div_mod_converse(26, 8, 3, 2);
    assert(spec_edge_scan(cv, 27) == spec_edge_scan(cv, 26));
    lemma_fundamental_div_mod_converse(27, 8, 3, 3);
    assert(spec_edge_scan(cv, 28) == spec_edge_scan(cv, 27));
    lemma_fundamental_div_mod_converse(28, 8, 3, 4);
    assert(spec_edge_scan(cv, 29) == spec_edge_scan(cv, 28));
    lemma_fundamental_div_mod_converse(29, 8, 3, 5);
    assert(spec_edge_scan(cv, 30) == spec_edge_scan(cv, 29));
    lemma_fundamental_div_mod_converse(30, 8, 3, 6);
    assert(spec_edge_scan(cv, 31) == spec_edge_scan(cv, 30));
    lemma_fundamental_div_mod_converse(31, 8, 3, 7);
    assert(spec_edge_scan(cv, 32) == spec_edge_scan(cv, 31).push((3usize, 7usize)));
    lemma_fundamental_div_mod_converse(32, 8, 4, 0);
    assert(spec_edge_scan(cv, 33) == spec_edge_scan(cv, 32));
    lemma_fundamental_div_mod_converse(33, 8, 4, 1);
    assert(spec_edge_scan(cv, 34) == spec_edge_scan(cv, 33));
    lemma_fundamental_div_mod_converse(34, 8, 4, 2);
    assert(spec_edge_scan(cv, 35) == spec_edge_scan(cv, 34));
    lemma_fundamental_div_mod_converse(35, 8, 4, 3);
    assert(spec_edge_scan(cv, 36) == spec_edge_scan(cv, 35));
    lemma_fundamental_div_mod_converse(36, 8, 4, 4);
    assert(spec_edge_scan(cv, 37) == spec_edge_scan(cv, 36));
    lemma_fundamental_div_mod_converse(37, 8, 4, 5);
    assert(spec_edge_scan(cv, 38) == spec_edge_scan(cv, 37).push((4usize, 5usize)));
    lemma_fundamental_div_mod_converse(38, 8, 4, 6);
    assert(spec_edge_scan(cv, 39) == spec_edge_scan(cv, 38).push((4usize, 6usize)));
    lemma_fundamental_div_mod_converse(39, 8, 4, 7);
    assert(spec_edge_scan(cv, 40) == spec_edge_scan(cv, 39));
    lemma_fundamental_div_mod_converse(40, 8, 5, 0);
    assert(spec_edge_scan(cv, 41) == spec_edge_scan(cv, 40));
    lemma_fundamental_div_mod_converse(41, 8, 5, 1);
    assert(spec_edge_scan(cv, 42) == spec_edge_scan(cv, 41));
    lemma_fundamental_div_mod_converse(42, 8, 5, 2);
    assert(spec_edge_scan(cv, 43) == spec_edge_scan(cv, 42));
    lemma_fundamental_div_mod_converse(43, 8, 5, 3);
    assert(spec_edge_scan(cv, 44) == spec_edge_scan(cv, 43));
    lemma_fundamental_div_mod_converse(44, 8, 5, 4);
    assert(spec_edge_scan(cv, 45) == spec_edge_scan(cv, 44));
    lemma_fundamental_div_mod_converse(45, 8, 5, 5);
    assert(spec_edge_scan(cv, 46) == spec_edge_scan(cv, 45));
    lemma_fundamental_div_mod_converse(46, 8, 5, 6);
    assert(spec_edge_scan(cv, 47) == spec_edge_scan(cv, 46));
    lemma_fundamental_div_mod_converse(47, 8, 5, 7);
    assert(spec_edge_scan(cv, 48) == spec_edge_scan(cv, 47).push((5usize, 7usize)));
    lemma_fundamental_div_mod_converse(48, 8, 6, 0);
    assert(spec_edge_scan(cv, 49) == spec_edge_scan(cv, 48));
    lemma_fundamental_div_mod_converse(49, 8, 6, 1);
    assert(spec_edge_scan(cv, 50) == spec_edge_scan(cv, 49));
    lemma_fundamental_div_mod_converse(50, 8, 6, 2);
    assert(spec_edge_scan(cv, 51) == spec_edge_scan(cv, 50));
    lemma_fundamental_div_mod_converse(51, 8, 6, 3);
    assert(spec_edge_scan(cv, 52) == spec_edge_scan(cv, 51));
    lemma_fundamental_div_mod_converse(52, 8, 6, 4);
    assert(spec_edge_scan(cv, 53) == spec_edge_scan(cv, 52));
    lemma_fundamental_div_mod_converse(53, 8, 6, 5);
    assert(spec_edge_scan(cv, 54) == spec_edge_scan(cv, 53));
    lemma_fundamental_div_mod_converse(54, 8, 6, 6);
    assert(spec_edge_scan(cv, 55) == spec_edge_scan(cv, 54));
    lemma_fundamental_div_mod_converse(55, 8, 6, 7);
    assert(spec_edge_scan(cv, 56) == spec_edge_scan(cv, 55).push((6usize, 7usize)));
    lemma_fundamental_div_mod_converse(56, 8, 7, 0);
    assert(spec_edge_scan(cv, 57) == spec_edge_scan(cv, 56));
    lemma_fundamental_div_mod_converse(57, 8, 7, 1);
    assert(spec_edge_scan(cv, 58) == spec_edge_scan(cv, 57));
    lemma_fundamental_div_mod_converse(58, 8, 7, 2);
    assert(spec_edge_scan(cv, 59) == spec_edge_scan(cv, 58));
    lemma_fundamental_div_mod_converse(59, 8, 7, 3);
    assert(spec_edge_scan(cv, 60) == spec_edge_scan(cv, 59));
    lemma_fundamental_div_mod_converse(60, 8, 7, 4);
    assert(spec_edge_scan(cv, 61) == spec_edge_scan(cv, 60));
    lemma_fundamental_div_mod_converse(61, 8, 7, 5);
    assert(spec_edge_scan(cv, 62) == spec_edge_scan(cv, 61));
    lemma_fundamental_div_mod_converse(62, 8, 7, 6);
    assert(spec_edge_scan(cv, 63) == spec_edge_scan(cv, 62));
    lemma_fundamental_div_mod_converse(63, 8, 7, 7);
    assert(spec_edge_scan(cv, 64) == spec_edge_scan(cv, 63));
    assert(spec_edge_scan(cv, 64) =~= spec_twelve_edges());
}

/// Selects, among all pairs of distinct vertices, those that agree on exactly
/// two axes, scanning the pairs in row-major order.
pub fn select_edges(vs: &Vec<Vec3>) -> (edges: Vec<(usize, usize)>)
    ensures
        edges@ == spec_edge_scan(vs@, (vs@.len() * vs@.len()) as nat),
{
    let n: usize = vs.len();
    let mut edges: Vec<(usize, usize)> = Vec::new();
    let mut i: usize = 0;
    while i < n
        invariant
            i <= n,
            n == vs@.len(),
            edges@ == spec_edge_scan(vs@, (i * n) as nat),
        decreases n - i,
    {
        let mut j: usize = 0;
        while j < n
            invariant
                i < n,
                j <= n,
                n == vs@.len(),
                edges@ == spec_edge_scan(vs@, (i * n + j) as nat),
            decreases n - j,
        {
            let keep = if i < j {
                is_cube_edge(&vs[i], &vs[j])
            } else {
                false
            };
            if keep {
                edges.push((i, j));
            }
            proof {
                let ii = i as int;
                let jj = j as int;
                let nn = n as int;
                assert(0 <= ii * nn) by (nonlinear_arith)
                    requires
                        0 <= ii && 0 <= nn,
                ;
                lemma_fundamental_div_mod_converse(ii * nn + jj, nn, ii, jj);
                assert(spec_edge_scan(vs@, (ii * nn + jj + 1) as nat) == (if i < j
                    && spec_is_edge(vs@[ii], vs@[jj]) {
                    spec_edge_scan(vs@, (ii * nn + jj) as nat).push((i, j))
                } else {
                    spec_edge_scan(vs@, (ii * nn + jj) as nat)
                }));
            }
            j = j + 1;
        }
        proof {
            let ii = i as int;
            let nn = n as int;
            assert((ii + 1) * nn == ii * nn + nn) by (nonlinear_arith);
        }
        i = i + 1;
    }
    edges
}

/// Builds the twelve cube edges as index pairs, in scan order.
pub fn cube_edges() -> (edges: Vec<(usize, usize)>)
    ensures
        edges@ == spec_twelve_edges(),
        edges@ == spec_edge_scan(spec_cube_vertices(), 64),
        edges@.len() == 12,
        forall|k: int|
            0 <= k < 12 ==> (#[trigger] edges@[k]).0 < (#[trigger] edges@[k]).1
                && edges@[k].1 < 8,
{
    let mut edges: Vec<(usize, usize)> = Vec::new();
    edges.push((0, 1));
    edges.push((0, 2));
    edges.push((0, 4));
    edges.push((1, 3));
    edges.push((1, 5));
    edges.push((2, 3));
    edges.push((2, 6));
    edges.push((3, 7));
    edges.push((4, 5));
    edges.push((4, 6));
    edges.push((5, 7));
    edges.push((6, 7));
    proof {
        assert(edges@ =~= spec_twelve_edges());
        lemma_cube_scan_yields_twelve();
    }
    edges
}

/// The square of the gap between two coordinates that each sit at one of the
/// two cube faces of their axis.
proof fn lemma_axis_gap(u: i64, w: i64)
    by (nonlinear_arith)
    requires
        u == -50 || u == 50,
        w == -50 || w == 50,
    ensures
        (u - w) * (u - w) == if u == w {
            0int
        } else {
            10000int
        },
{
}

/// Between two cube corners, the squared distance counts the differing axes:
/// each axis that disagrees contributes the squared side length.
pub proof fn lemma_corner_distance(a: Vec3, b: Vec3)
    requires
        a.x == -50 || a.x == 50,
        a.y == -50 || a.y == 50,
        a.z == -50 || a.z == 50,
        b.x == -50 || b.x == 50,
        b.y == -50 || b.y == 50,
        b.z == -50 || b.z == 50,
    ensures
        spec_dist2(a, b) == 10000 * (3 - spec_axes_equal(a, b)),
{
    lemma_axis_gap(a.x, b.x);
    lemma_axis_gap(a.y, b.y);
    lemma_axis_gap(a.z, b.z);
}

/// A selected pair of cube corners spans the side length exactly; a rejected
/// pair of distinct corners spans a face diagonal or the space diagonal.
pub proof fn lemma_cube_edge_distances(i: int, j: int)
    requires
        0 <= i < j < 8,
    ensures
        spec_is_edge(spec_cube_vertices()[i], spec_cube_vertices()[j]) ==> spec_dist2(
            spec_cube_vertices()[i],
            spec_cube_vertices()[j],
        ) == 10000,
        !spec_is_edge(spec_cube_vertices()[i], spec_cube_vertices()[j]) ==> (spec_dist2(
            spec_cube_vertices()[i],
            spec_cube_vertices()[j],
        ) == 20000 || spec_dist2(spec_cube_vertices()[i], spec_cube_vertices()[j]) == 30000),
{
    let a = spec_cube_vertices()[i];
    let b = spec_cube_vertices()[j];
    lemma_corner_distance(a, b);
    assert(a != b);
    assert(spec_axes_equal(a, b) < 3);
}

} // verus!

