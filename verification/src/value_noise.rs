use crate::lattice::{hash_2d, hash_3d, Cube, Square};
use crate::permutation::PermutationTable;
use vstd::prelude::*;

verus! {

/// The table entries of the four lattice points around a sample in cell
/// `(i, j)`. Value noise blends them, each taken as a fraction of 255.
pub open spec fn value_square(t: Seq<u8>, i: int, j: int) -> Square<u8> {
    Square {
        ll: hash_2d(t, i, j),
        hl: hash_2d(t, i + 1, j),
        lh: hash_2d(t, i, j + 1),
        hh: hash_2d(t, i + 1, j + 1),
    }
}

/// The table entries of the eight lattice points around a sample in cell
/// `(i, j, k)`.
pub open spec fn value_cube(t: Seq<u8>, i: int, j: int, k: int) -> Cube<u8> {
    Cube {
        lll: hash_3d(t, i, j, k),
        hll: hash_3d(t, i + 1, j, k),
        lhl: hash_3d(t, i, j + 1, k),
        hhl: hash_3d(t, i + 1, j + 1, k),
        llh: hash_3d(t, i, j, k + 1),
        hlh: hash_3d(t, i + 1, j, k + 1),
        lhh: hash_3d(t, i, j + 1, k + 1),
        hhh: hash_3d(t, i + 1, j + 1, k + 1),
    }
}

impl PermutationTable {
    /// The table entries that value noise blends for a sample in cell
    /// `(i, j)`.
    pub fn value(&self, i: i32, j: i32) -> (corners: Square<u8>)
        ensures
            corners == value_square(self@, i as int, j as int),
    {
        Square {
            ll: self.corner_2d(i, j, 0, 0),
            hl: self.corner_2d(i, j, 1, 0),
            lh: self.corner_2d(i, j, 0, 1),
            hh: self.corner_2d(i, j, 1, 1),
        }
    }

    /// The table entries that value noise blends for a sample in cell
    /// `(i, j, k)`.
    pub fn value_3d(&self, i: i32, j: i32, k: i32) -> (corners: Cube<u8>)
        ensures
            corners == value_cube(self@, i as int, j as int, k as int),
    {
        Cube {
            lll: self.corner_3d(i, j, k, 0, 0, 0),
            hll: self.corner_3d(i, j, k, 1, 0, 0),
            lhl: self.corner_3d(i, j, k, 0, 1, 0),
            hhl: self.corner_3d(i, j, k, 1, 1, 0),
            llh: self.corner_3d(i, j, k, 0, 0, 1),
            hlh: self.corner_3d(i, j, k, 1, 0, 1),
            lhh: self.corner_3d(i, j, k, 0, 1, 1),
            hhh: self.corner_3d(i, j, k, 1, 1, 1),
        }
    }
}

} // verus!
