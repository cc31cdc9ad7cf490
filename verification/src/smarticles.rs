//! The cell roles of the smarticle morphogenesis rules.

use vstd::prelude::*;

verus! {

/// The number of smarticle roles.
pub const SMARTICLE_ROLE_COUNT: usize = 7;

/// A substrate role in the morphogenesis rule matrix.
#[derive(Clone, Copy, Debug, PartialEq, Eq, Structural)]
pub enum SmarticleRole {
    Life,
    Nutrient,
    Dead,
    Mutagen,
    Nest,
    Spore,
    Root,
}

impl SmarticleRole {
    /// The row and column of the role in the rule matrix.
    pub fn index(self) -> (r: usize)
        ensures
            self == SmarticleRole::Life ==> r == 0,
            self == SmarticleRole::Nutrient ==> r == 1,
            self == SmarticleRole::Dead ==> r == 2,
            self == SmarticleRole::Mutagen ==> r == 3,
            self == SmarticleRole::Nest ==> r == 4,
            self == SmarticleRole::Spore ==> r == 5,
            self == SmarticleRole::Root ==> r == 6,
            r < SMARTICLE_ROLE_COUNT,
    {
        match self {
            SmarticleRole::Life => 0,
            SmarticleRole::Nutrient => 1,
            SmarticleRole::Dead => 2,
            SmarticleRole::Mutagen => 3,
            SmarticleRole::Nest => 4,
            SmarticleRole::Spore => 5,
            SmarticleRole::Root => 6,
        }
    }
}

} // verus!
