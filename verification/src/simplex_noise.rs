use crate::gradient::Gradient;
use crate::permutation::PermutationTable;
use crate::perlin_noise::{gradient_2d, gradient_3d};
use vstd::prelude::*;

verus! {

/// A corner of a simplex, as steps of 0 or 1 from the cell's origin.
#[derive(Clone, Copy, Debug, PartialEq, Eq, Structural)]
pub struct Offset2 {
    pub x: u8,
    pub y: u8,
}

/// A corner of a simplex, as steps of 0 or 1 from the cell's origin.
#[derive(Clone, Copy, Debug, PartialEq, Eq, Structural)]
pub struct Offset3 {
    pub x: u8,
    pub y: u8,
    pub z: u8,
}

impl View for Offset2 {
    type V = (int, int);

    open spec fn view(&self) -> (int, int) {
        (self.x as int, self.y as int)
    }
}

impl View for Offset3 {
    type V = (int, int, int);

    open spec fn view(&self) -> (int, int, int) {
        (self.x as int, self.y as int, self.z as int)
    }
}

/// The triangle that holds a sample: its middle corner, and the gradients of
/// its three corners in the order origin, middle corner, far corner.
#[derive(Clone, Copy, Debug, PartialEq, Eq)]
pub struct Triangle {
    pub middle: Offset2,
    pub gradients: [Gradient; 3],
}

/// The tetrahedron that holds a sample: its second and third corner, and the
/// gradients of its four corners in the order origin, second, third, far
/// corner.
#[derive(Clone, Copy, Debug, PartialEq, Eq)]
pub struct Tetrahedron {
    pub second: Offset3,
    pub third: Offset3,
    pub gradients: [Gradient; 4],
}

/// The middle corner of the triangle that holds a sample. A square cell is
/// cut along its diagonal; a sample whose offset along x exceeds that along
/// y lies in the lower triangle, whose middle corner is `(1, 0)`, and any
/// other sample, one on the diagonal too, in the upper one.
pub open spec fn middle_corner(x_gt_y: bool) -> (int, int) {
    if x_gt_y {
        (1, 0)
    } else {
        (0, 1)
    }
}

/// The second and third corner of the tetrahedron that holds a sample, from
/// how the sample's offsets along the axes compare. The walk from the origin
/// to the far corner takes the axes by falling offset. Where two offsets are
/// equal, x goes before y and y before z. The comparison of x with z is read
/// only where the other two do not settle the order.
pub open spec fn middle_corners(x_ge_y: bool, y_ge_z: bool, x_ge_z: bool) -> (
    (int, int, int),
    (int, int, int),
) {
    if x_ge_y && y_ge_z {
        ((1, 0, 0), (1, 1, 0))
    } else if x_ge_y && x_ge_z {
        ((1, 0, 0), (1, 0, 1))
    } else if x_ge_y {
        ((0, 0, 1), (1, 0, 1))
    } else if !y_ge_z {
        ((0, 0, 1), (0, 1, 1))
    } else if !x_ge_z {
        ((0, 1, 0), (0, 1, 1))
    } else {
        ((0, 1, 0), (1, 1, 0))
    }
}

/// The middle corner of the triangle that holds a sample whose offsets from
/// the cell's origin compare as `x_gt_y` says.
pub fn simplex_order(x_gt_y: bool) -> (middle: Offset2)
    ensures
        middle@ == middle_corner(x_gt_y),
{
    if x_gt_y {
        Offset2 { x: 1, y: 0 }
    } else {
        Offset2 { x: 0, y: 1 }
    }
}

/// The second and third corner of the tetrahedron that holds a sample whose
/// offsets from the cell's origin compare as the arguments say.
pub fn simplex_order_3d(x_ge_y: bool, y_ge_z: bool, x_ge_z: bool) -> (corners: (Offset3, Offset3))
    ensures
        (corners.0@, corners.1@) == middle_corners(x_ge_y, y_ge_z, x_ge_z),
{
    if x_ge_y {
        if y_ge_z {
            (Offset3 { x: 1, y: 0, z: 0 }, Offset3 { x: 1, y: 1, z: 0 })
        } else if x_ge_z {
            (Offset3 { x: 1, y: 0, z: 0 }, Offset3 { x: 1, y: 0, z: 1 })
        } else {
            (Offset3 { x: 0, y: 0, z: 1 }, Offset3 { x: 1, y: 0, z: 1 })
        }
    } else {
        if !y_ge_z {
            (Offset3 { x: 0, y: 0, z: 1 }, Offset3 { x: 0, y: 1, z: 1 })
        } else if !x_ge_z {
            (Offset3 { x: 0, y: 1, z: 0 }, Offset3 { x: 0, y: 1, z: 1 })
        } else {
            (Offset3 { x: 0, y: 1, z: 0 }, Offset3 { x: 1, y: 1, z: 0 })
        }
    }
}

/// Whatever the comparisons say, the corners form a walk along the edges of
/// the cell: the second corner lies one step from the origin, the third one
/// step further along another axis.
pub proof fn lemma_corners_form_a_walk(x_ge_y: bool, y_ge_z: bool, x_ge_z: bool)
    ensures
        ({
            let (second, third) = middle_corners(x_ge_y, y_ge_z, x_ge_z);
            &&& 0 <= second.0 <= third.0 <= 1
            &&& 0 <= second.1 <= third.1 <= 1
            &&& 0 <= second.2 <= third.2 <= 1
            &&& second.0 + second.1 + second.2 == 1
            &&& third.0 + third.1 + third.2 == 2
        }),
{
}

/// The walk takes the axes by falling offset: the step to the second corner
/// goes along an axis of the largest offset, and the axis that is left for
/// the last step is one of the smallest. The offsets are given as integers
/// here; only their order matters.
pub proof fn lemma_walk_follows_offsets(x: int, y: int, z: int)
    ensures
        ({
            let (second, third) = middle_corners(x >= y, y >= z, x >= z);
            &&& second.0 == 1 ==> x >= y && x >= z
            &&& second.1 == 1 ==> y >= x && y >= z
            &&& second.2 == 1 ==> z >= x && z >= y
            &&& third.0 == 0 ==> x <= y && x <= z
            &&& third.1 == 0 ==> y <= x && y <= z
            &&& third.2 == 0 ==> z <= x && z <= y
        }),
        ({
            let middle = middle_corner(x > y);
            &&& middle.0 == 1 ==> x >= y
            &&& middle.1 == 1 ==> y >= x
        }),
{
}

/// `triangle` is the triangle of cell `(i, j)` that `x_gt_y` selects, with the
/// gradients of its corners.
pub open spec fn is_triangle_of(triangle: Triangle, t: Seq<u8>, i: int, j: int, x_gt_y: bool) -> bool {
    let middle = middle_corner(x_gt_y);
    &&& triangle.middle@ == middle
    &&& triangle.gradients[0]@ == gradient_2d(t, i, j)
    &&& triangle.gradients[1]@ == gradient_2d(t, i + middle.0, j + middle.1)
    &&& triangle.gradients[2]@ == gradient_2d(t, i + 1, j + 1)
}

/// `tetrahedron` is the tetrahedron of cell `(i, j, k)` that the comparisons
/// select, with the gradients of its corners.
pub open spec fn is_tetrahedron_of(
    tetrahedron: Tetrahedron,
    t: Seq<u8>,
    i: int,
    j: int,
    k: int,
    x_ge_y: bool,
    y_ge_z: bool,
    x_ge_z: bool,
) -> bool {
    let (second, third) = middle_corners(x_ge_y, y_ge_z, x_ge_z);
    &&& tetrahedron.second@ == second
    &&& tetrahedron.third@ == third
    &&& tetrahedron.gradients[0]@ == gradient_3d(t, i, j, k)
    &&& tetrahedron.gradients[1]@ == gradient_3d(t, i + second.0, j + second.1, k + second.2)
    &&& tetrahedron.gradients[2]@ == gradient_3d(t, i + third.0, j + third.1, k + third.2)
    &&& tetrahedron.gradients[3]@ == gradient_3d(t, i + 1, j + 1, k + 1)
}

impl PermutationTable {
    /// The triangle that simplex noise reads for a sample in the skewed cell
    /// `(i, j)`, where `x_gt_y` tells whether the sample's offset from the
    /// cell's origin is larger along x than along y.
    pub fn simplex(&self, i: i32, j: i32, x_gt_y: bool) -> (triangle: Triangle)
        ensures
            is_triangle_of(triangle, self@, i as int, j as int, x_gt_y),
    {
        let middle = simplex_order(x_gt_y);
        let origin = Gradient::from_hash(self.corner_2d(i, j, 0, 0));
        let between = Gradient::from_hash(self.corner_2d(i, j, middle.x, middle.y));
        let far = Gradient::from_hash(self.corner_2d(i, j, 1, 1));
        Triangle { middle, gradients: [origin, between, far] }
    }

    /// The tetrahedron that simplex noise reads for a sample in the skewed
    /// cell `(i, j, k)`, where the last three arguments tell how the sample's
    /// offsets from the cell's origin compare.
    pub fn simplex_3d(
        &self,
        i: i32,
        j: i32,
        k: i32,
        x_ge_y: bool,
        y_ge_z: bool,
        x_ge_z: bool,
    ) -> (tetrahedron: Tetrahedron)
        ensures
            is_tetrahedron_of(tetrahedron, self@, i as int, j as int, k as int, x_ge_y, y_ge_z, x_ge_z),
    {
        let (second, third) = simplex_order_3d(x_ge_y, y_ge_z, x_ge_z);
        proof {
            lemma_corners_form_a_walk(x_ge_y, y_ge_z, x_ge_z);
        }
        let origin = Gradient::from_hash(self.corner_3d(i, j, k, 0, 0, 0));
        let near = Gradient::from_hash(self.corner_3d(i, j, k, second.x, second.y, second.z));
        let next = Gradient::from_hash(self.corner_3d(i, j, k, third.x, third.y, third.z));
        let far = Gradient::from_hash(self.corner_3d(i, j, k, 1, 1, 1));
        Tetrahedron { second, third, gradients: [origin, near, next, far] }
    }
}

} // verus!
