//! Verified core of the Symbiote artificial-life ecosystem: the B3/S23 axiom
//! lattice, density and root-growth policy, substrate neighbourhood counting,
//! trophic census and the small vocabularies (tribes, archetypes, kinds) that
//! the simulation and renderer share.

pub mod hashing;
pub mod text;
pub mod environment;
pub mod life;
pub mod life_laws;
pub mod particle;
pub mod species;
pub mod smarticles;
pub mod pattern;
pub mod ecology;
pub mod cluster;
pub mod sim;
pub mod log;
pub mod density;
pub mod tree;
pub mod automata;
pub mod memory;
pub mod glyphs;
pub mod substrate;
pub mod field;
