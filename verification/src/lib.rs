//! The lattice core of a procedural-noise generator.
//!
//! Value, Perlin and Simplex noise all attach pseudo-random data to the points
//! of an integer lattice and blend the data of the points around a sample.
//! This crate holds the part of that work that is exact: the seeded
//! permutation table, the wrapped lattice lookups, the fixed gradient set and
//! the order in which a simplex cell is walked. Each function states its
//! result over a mathematical model of the table.

pub mod gradient;
pub mod lattice;
pub mod noise_type;
pub mod perlin_noise;
pub mod permutation;
pub mod simplex_noise;
pub mod value_noise;
