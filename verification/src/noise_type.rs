use vstd::prelude::*;

verus! {

/// The three lattice noises.
#[derive(Clone, Copy, Debug, PartialEq, Eq, Structural)]
pub enum NoiseType {
    Value,
    Perlin,
    Simplex,
}

impl Default for NoiseType {
    /// Simplex noise is the default.
    fn default() -> (kind: NoiseType)
        ensures
            kind == NoiseType::Simplex,
    {
        NoiseType::Simplex
    }
}

} // verus!
