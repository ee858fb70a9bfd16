use vstd::prelude::*;

verus! {

/// One of the fixed directions attached to lattice points.
///
/// Two-dimensional noise reads `x` and `y` only.
#[derive(Clone, Copy, Debug, PartialEq, Eq, Structural)]
pub struct Gradient {
    pub x: i8,
    pub y: i8,
    pub z: i8,
}

impl View for Gradient {
    type V = (int, int, int);

    open spec fn view(&self) -> (int, int, int) {
        (self.x as int, self.y as int, self.z as int)
    }
}

/// Number of gradients in the set.
pub const GRADIENT_COUNT: u8 = 12;

/// The gradient set: the midpoints of the twelve edges of the cube
/// `[-1, 1]^3`, in the order in which a hash selects them.
pub open spec fn gradient_set() -> Seq<(int, int, int)> {
    seq![
        (1, 1, 0),
        (-1, 1, 0),
        (1, -1, 0),
        (-1, -1, 0),
        (1, 0, 1),
        (-1, 0, 1),
        (1, 0, -1),
        (-1, 0, -1),
        (0, 1, 1),
        (0, -1, 1),
        (0, 1, -1),
        (0, -1, -1),
    ]
}

/// The gradient that a table entry selects: the entry is reduced modulo the
/// size of the set.
pub open spec fn gradient_of(hash: int) -> (int, int, int) {
    gradient_set()[hash % 12]
}

/// `g` is the midpoint of a cube edge: one component is zero and the other
/// two are `1` or `-1`.
pub open spec fn is_edge_midpoint(g: (int, int, int)) -> bool {
    &&& -1 <= g.0 <= 1
    &&& -1 <= g.1 <= 1
    &&& -1 <= g.2 <= 1
    &&& (g.0 == 0 && g.1 != 0 && g.2 != 0) || (g.0 != 0 && g.1 == 0 && g.2 != 0) || (g.0 != 0
        && g.1 != 0 && g.2 == 0)
}

impl Gradient {
    /// The gradient at position `index` of the set.
    pub fn new(index: u8) -> (g: Gradient)
        requires
            index < GRADIENT_COUNT,
        ensures
            g@ == gradient_set()[index as int],
    {
        match index {
            0 => Gradient { x: 1, y: 1, z: 0 },
            1 => Gradient { x: -1, y: 1, z: 0 },
            2 => Gradient { x: 1, y: -1, z: 0 },
            3 => Gradient { x: -1, y: -1, z: 0 },
            4 => Gradient { x: 1, y: 0, z: 1 },
            5 => Gradient { x: -1, y: 0, z: 1 },
            6 => Gradient { x: 1, y: 0, z: -1 },
            7 => Gradient { x: -1, y: 0, z: -1 },
            8 => Gradient { x: 0, y: 1, z: 1 },
            9 => Gradient { x: 0, y: -1, z: 1 },
            10 => Gradient { x: 0, y: 1, z: -1 },
            _ => Gradient { x: 0, y: -1, z: -1 },
        }
    }

    /// The gradient that the table entry `hash` selects.
    pub fn from_hash(hash: u8) -> (g: Gradient)
        ensures
            g@ == gradient_of(hash as int),
            is_edge_midpoint(g@),
    {
        let g = Gradient::new(hash % GRADIENT_COUNT);
        proof {
            lemma_gradients_are_edge_midpoints(hash as int % 12);
        }
        g
    }
}

/// Every gradient of the set is the midpoint of a cube edge, so all twelve
/// have the same length.
pub proof fn lemma_gradients_are_edge_midpoints(index: int)
    requires
        0 <= index < 12,
    ensures
        is_edge_midpoint(gradient_set()[index]),
{
}

} // verus!
