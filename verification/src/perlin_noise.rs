use crate::gradient::{gradient_of, Gradient};
use crate::lattice::{hash_2d, hash_3d, Cube, Square};
use crate::permutation::PermutationTable;
use vstd::prelude::*;

verus! {

/// The gradient of the lattice point `(a, b)`.
pub open spec fn gradient_2d(t: Seq<u8>, a: int, b: int) -> (int, int, int) {
    gradient_of(hash_2d(t, a, b) as int)
}

/// The gradient of the lattice point `(a, b, c)`.
pub open spec fn gradient_3d(t: Seq<u8>, a: int, b: int, c: int) -> (int, int, int) {
    gradient_of(hash_3d(t, a, b, c) as int)
}

/// `gradients` holds the gradients of the four lattice points around a
/// sample in cell `(i, j)`.
pub open spec fn is_perlin_square(gradients: Square<Gradient>, t: Seq<u8>, i: int, j: int) -> bool {
    &&& gradients.ll@ == gradient_2d(t, i, j)
    &&& gradients.hl@ == gradient_2d(t, i + 1, j)
    &&& gradients.lh@ == gradient_2d(t, i, j + 1)
    &&& gradients.hh@ == gradient_2d(t, i + 1, j + 1)
}

/// `gradients` holds the gradients of the eight lattice points around a
/// sample in cell `(i, j, k)`.
pub open spec fn is_perlin_cube(gradients: Cube<Gradient>, t: Seq<u8>, i: int, j: int, k: int) -> bool {
    &&& gradients.lll@ == gradient_3d(t, i, j, k)
    &&& gradients.hll@ == gradient_3d(t, i + 1, j, k)
    &&& gradients.lhl@ == gradient_3d(t, i, j + 1, k)
    &&& gradients.hhl@ == gradient_3d(t, i + 1, j + 1, k)
    &&& gradients.llh@ == gradient_3d(t, i, j, k + 1)
    &&& gradients.hlh@ == gradient_3d(t, i + 1, j, k + 1)
    &&& gradients.lhh@ == gradient_3d(t, i, j + 1, k + 1)
    &&& gradients.hhh@ == gradient_3d(t, i + 1, j + 1, k + 1)
}

impl PermutationTable {
    /// The gradients that Perlin noise blends for a sample in cell `(i, j)`.
    /// Each is to be multiplied with the offset of the sample from its
    /// lattice point.
    pub fn perlin(&self, i: i32, j: i32) -> (gradients: Square<Gradient>)
        ensures
            is_perlin_square(gradients, self@, i as int, j as int),
    {
        Square {
            ll: Gradient::from_hash(self.corner_2d(i, j, 0, 0)),
            hl: Gradient::from_hash(self.corner_2d(i, j, 1, 0)),
            lh: Gradient::from_hash(self.corner_2d(i, j, 0, 1)),
            hh: Gradient::from_hash(self.corner_2d(i, j, 1, 1)),
        }
    }

    /// The gradients that Perlin noise blends for a sample in cell
    /// `(i, j, k)`.
    pub fn perlin_3d(&self, i: i32, j: i32, k: i32) -> (gradients: Cube<Gradient>)
        ensures
            is_perlin_cube(gradients, self@, i as int, j as int, k as int),
    {
        Cube {
            lll: Gradient::from_hash(self.corner_3d(i, j, k, 0, 0, 0)),
            hll: Gradient::from_hash(self.corner_3d(i, j, k, 1, 0, 0)),
            lhl: Gradient::from_hash(self.corner_3d(i, j, k, 0, 1, 0)),
            hhl: Gradient::from_hash(self.corner_3d(i, j, k, 1, 1, 0)),
            llh: Gradient::from_hash(self.corner_3d(i, j, k, 0, 0, 1)),
            hlh: Gradient::from_hash(self.corner_3d(i, j, k, 1, 0, 1)),
            lhh: Gradient::from_hash(self.corner_3d(i, j, k, 0, 1, 1)),
            hhh: Gradient::from_hash(self.corner_3d(i, j, k, 1, 1, 1)),
        }
    }
}

} // verus!
