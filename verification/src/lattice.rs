use crate::permutation::{is_doubled_permutation, is_permutation, PermutationTable};
use vstd::prelude::*;

verus! {

/// What a noise attaches to the four lattice points around a sample in the
/// plane. The first letter tells the side along x, the second the side along
/// y: `l` is the low side of the cell, `h` the high one.
#[derive(Debug, PartialEq, Eq)]
pub struct Square<T> {
    pub ll: T,
    pub hl: T,
    pub lh: T,
    pub hh: T,
}

/// What a noise attaches to the eight lattice points around a sample in
/// space. The letters tell the sides along x, y and z, as in [`Square`].
#[derive(Debug, PartialEq, Eq)]
pub struct Cube<T> {
    pub lll: T,
    pub hll: T,
    pub lhl: T,
    pub hhl: T,
    pub llh: T,
    pub hlh: T,
    pub lhh: T,
    pub hhh: T,
}

impl<T: Copy> Clone for Square<T> {
    fn clone(&self) -> (copy: Self)
        ensures
            copy == *self,
    {
        *self
    }
}

impl<T: Copy> Copy for Square<T> {}

impl<T: Copy> Clone for Cube<T> {
    fn clone(&self) -> (copy: Self)
        ensures
            copy == *self,
    {
        *self
    }
}

impl<T: Copy> Copy for Cube<T> {}

/// The table position of a lattice coordinate: the lattice repeats every 256
/// points, towards the negative side too.
pub open spec fn wrap(c: int) -> int {
    c % 256
}

/// The table entry of the lattice point `(a, b)`.
pub open spec fn hash_2d(t: Seq<u8>, a: int, b: int) -> u8 {
    t[wrap(a) + t[wrap(b)]]
}

/// The table entry of the lattice point `(a, b, c)`.
pub open spec fn hash_3d(t: Seq<u8>, a: int, b: int, c: int) -> u8 {
    t[wrap(a) + t[wrap(b) + t[wrap(c)]]]
}

/// The table position of the lattice coordinate `c`.
pub fn wrap_coordinate(c: i32) -> (position: usize)
    ensures
        position == wrap(c as int),
        position < 256,
{
    let masked = c & 255;
    assert(masked == c % 256) by (bit_vector)
        requires
            masked == c & 255,
    ;
    masked as usize
}

/// The position one past a wrapped coordinate selects the entry of the next
/// coordinate: past the end of the table's first half lies the copy of its
/// start.
pub proof fn lemma_step_wraps(t: Seq<u8>, c: int, offset: int)
    requires
        is_doubled_permutation(t),
        0 <= offset < 256,
    ensures
        t[wrap(c) + 1 + offset] == t[wrap(c + 1) + offset],
{
    if wrap(c) == 255 {
        assert(t[offset] == t[offset + 256]);
    }
}

/// The lattice repeats after 256 points along each axis.
pub proof fn lemma_lattice_is_periodic(t: Seq<u8>, a: int, b: int, c: int, m: int, n: int, o: int)
    ensures
        hash_2d(t, a + 256 * m, b + 256 * n) == hash_2d(t, a, b),
        hash_3d(t, a + 256 * m, b + 256 * n, c + 256 * o) == hash_3d(t, a, b, c),
{
    assert(wrap(a + 256 * m) == wrap(a));
    assert(wrap(b + 256 * n) == wrap(b));
    assert(wrap(c + 256 * o) == wrap(c));
}

/// Positions that lie up to one step past two wrapped coordinates select the
/// entry of the lattice point that lies as many steps from the coordinates.
pub proof fn lemma_corner_2d(t: Seq<u8>, i: int, j: int, dx: int, dy: int)
    requires
        is_doubled_permutation(t),
        0 <= dx <= 1,
        0 <= dy <= 1,
    ensures
        t[wrap(i) + dx + t[wrap(j) + dy]] == hash_2d(t, i + dx, j + dy),
{
    if dy == 1 {
        lemma_step_wraps(t, j, 0);
    }
    if dx == 1 {
        lemma_step_wraps(t, i, t[wrap(j + dy)] as int);
    }
}

/// Positions that lie up to one step past three wrapped coordinates select
/// the entry of the lattice point that lies as many steps from the
/// coordinates.
pub proof fn lemma_corner_3d(t: Seq<u8>, i: int, j: int, k: int, dx: int, dy: int, dz: int)
    requires
        is_doubled_permutation(t),
        0 <= dx <= 1,
        0 <= dy <= 1,
        0 <= dz <= 1,
    ensures
        t[wrap(i) + dx + t[wrap(j) + dy + t[wrap(k) + dz]]] == hash_3d(t, i + dx, j + dy, k + dz),
{
    if dz == 1 {
        lemma_step_wraps(t, k, 0);
    }
    let inner = t[wrap(k + dz)] as int;
    if dy == 1 {
        lemma_step_wraps(t, j, inner);
    }
    if dx == 1 {
        lemma_step_wraps(t, i, t[wrap(j + dy) + inner] as int);
    }
}

/// The entries that 256 lattice points in a row select, from `(0, b)` to
/// `(255, b)`.
pub open spec fn row_2d(t: Seq<u8>, b: int) -> Seq<u8> {
    Seq::new(256, |a: int| hash_2d(t, a, b))
}

/// The entries that 256 lattice points in a row select, from `(0, b, c)` to
/// `(255, b, c)`.
pub open spec fn row_3d(t: Seq<u8>, b: int, c: int) -> Seq<u8> {
    Seq::new(256, |a: int| hash_3d(t, a, b, c))
}

/// Reading the table from any position of its first half on, 256 entries in
/// a row hold every value exactly once.
proof fn lemma_window_is_permutation(t: Seq<u8>, start: int)
    requires
        is_doubled_permutation(t),
        0 <= start < 256,
    ensures
        is_permutation(t.subrange(start, start + 256)),
{
    let first = t.subrange(0, 256);
    let window = t.subrange(start, start + 256);
    assert forall|a: int| 0 <= a < 256 implies #[trigger] window[a] == first[(a + start) % 256] by {
        if a + start >= 256 {
            assert(t[a + start - 256] == t[a + start - 256 + 256]);
        }
    }
    assert forall|a: int, b: int| 0 <= a < 256 && 0 <= b < 256 && a != b implies window[a]
        != window[b] by {
        assert(window[a] == first[(a + start) % 256]);
        assert(window[b] == first[(b + start) % 256]);
    }
    assert forall|v: u8| #[trigger] window.contains(v) by {
        assert(first.contains(v));
        let k = choose|k: int| 0 <= k < 256 && first[k] == v;
        let a = (k - start) % 256;
        assert(window[a] == first[(a + start) % 256]);
    }
}

/// Along a row of the lattice every table value occurs once in each period:
/// no value is favoured, because the table is a permutation.
pub proof fn lemma_rows_are_permutations(t: Seq<u8>, b: int, c: int)
    requires
        is_doubled_permutation(t),
    ensures
        is_permutation(row_2d(t, b)),
        is_permutation(row_3d(t, b, c)),
{
    let start = t[wrap(b)] as int;
    lemma_window_is_permutation(t, start);
    assert(row_2d(t, b) =~= t.subrange(start, start + 256));
    let start = t[wrap(b) + t[wrap(c)]] as int;
    lemma_window_is_permutation(t, start);
    assert(row_3d(t, b, c) =~= t.subrange(start, start + 256));
}

impl PermutationTable {
    /// The table entry of the lattice point that lies `dx` and `dy` steps
    /// from `(i, j)`. The coordinates are wrapped once; the steps then lead
    /// at most one position past the table's first half.
    pub fn corner_2d(&self, i: i32, j: i32, dx: u8, dy: u8) -> (entry: u8)
        requires
            dx <= 1,
            dy <= 1,
        ensures
            entry == hash_2d(self@, i + dx, j + dy),
    {
        let x = wrap_coordinate(i) + dx as usize;
        let y = wrap_coordinate(j) + dy as usize;
        proof {
            self.lemma_view();
            lemma_corner_2d(self@, i as int, j as int, dx as int, dy as int);
        }
        self.get(x + self.get(y) as usize)
    }

    /// The table entry of the lattice point that lies `dx`, `dy` and `dz`
    /// steps from `(i, j, k)`.
    pub fn corner_3d(&self, i: i32, j: i32, k: i32, dx: u8, dy: u8, dz: u8) -> (entry: u8)
        requires
            dx <= 1,
            dy <= 1,
            dz <= 1,
        ensures
            entry == hash_3d(self@, i + dx, j + dy, k + dz),
    {
        let x = wrap_coordinate(i) + dx as usize;
        let y = wrap_coordinate(j) + dy as usize;
        let z = wrap_coordinate(k) + dz as usize;
        proof {
            self.lemma_view();
            lemma_corner_3d(self@, i as int, j as int, k as int, dx as int, dy as int, dz as int);
        }
        self.get(x + self.get(y + self.get(z) as usize) as usize)
    }
}

} // verus!
