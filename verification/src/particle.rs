//! The six tribes that every particle belongs to, and the rare traits a
//! particle may carry.

use vstd::prelude::*;
use crate::glyphs::Hue;

verus! {

/// The number of tribes.
pub const TRIBE_COUNT: usize = 6;

/// A particle tribe.
#[derive(Clone, Copy, Debug, PartialEq, Eq, Structural)]
pub enum Tribe {
    Blood,
    Moss,
    Deep,
    Solar,
    Dream,
    Static,
}

/// The position of a tribe in the fixed order Blood, Moss, Deep, Solar, Dream, Static.
pub open spec fn tribe_index(t: Tribe) -> nat {
    match t {
        Tribe::Blood => 0,
        Tribe::Moss => 1,
        Tribe::Deep => 2,
        Tribe::Solar => 3,
        Tribe::Dream => 4,
        Tribe::Static => 5,
    }
}

/// The tribe at a position of the fixed order.
pub open spec fn tribe_at(i: nat) -> Tribe {
    if i == 0 {
        Tribe::Blood
    } else if i == 1 {
        Tribe::Moss
    } else if i == 2 {
        Tribe::Deep
    } else if i == 3 {
        Tribe::Solar
    } else if i == 4 {
        Tribe::Dream
    } else {
        Tribe::Static
    }
}

impl Tribe {
    /// The tribe at `index` modulo 6.
    pub fn from_index(index: usize) -> (r: Self)
        ensures
            r == tribe_at((index % 6) as nat),
            tribe_index(r) == index % 6,
    {
        match index % 6 {
            0 => Tribe::Blood,
            1 => Tribe::Moss,
            2 => Tribe::Deep,
            3 => Tribe::Solar,
            4 => Tribe::Dream,
            _ => Tribe::Static,
        }
    }

    /// The position of the tribe in the fixed order.
    pub fn index(self) -> (r: usize)
        ensures
            r == tribe_index(self),
            r < TRIBE_COUNT,
    {
        match self {
            Tribe::Blood => 0,
            Tribe::Moss => 1,
            Tribe::Deep => 2,
            Tribe::Solar => 3,
            Tribe::Dream => 4,
            Tribe::Static => 5,
        }
    }

    /// The three-letter tribe tag.
    pub fn name(self) -> (r: &'static str)
        ensures
            self == Tribe::Blood ==> r@ == "BLD"@,
            self == Tribe::Moss ==> r@ == "MOS"@,
            self == Tribe::Deep ==> r@ == "DEP"@,
            self == Tribe::Solar ==> r@ == "SOL"@,
            self == Tribe::Dream ==> r@ == "DRM"@,
            self == Tribe::Static ==> r@ == "STC"@,
    {
        match self {
            Tribe::Blood => "BLD",
            Tribe::Moss => "MOS",
            Tribe::Deep => "DEP",
            Tribe::Solar => "SOL",
            Tribe::Dream => "DRM",
            Tribe::Static => "STC",
        }
    }

    /// The colour the tribe is painted in.
    pub fn color(self) -> (r: Hue)
        ensures
            r == (match self {
                Tribe::Blood => Hue::Red,
                Tribe::Moss => Hue::Green,
                Tribe::Deep => Hue::Blue,
                Tribe::Solar => Hue::Yellow,
                Tribe::Dream => Hue::Magenta,
                Tribe::Static => Hue::Cyan,
            }),
    {
        match self {
            Tribe::Blood => Hue::Red,
            Tribe::Moss => Hue::Green,
            Tribe::Deep => Hue::Blue,
            Tribe::Solar => Hue::Yellow,
            Tribe::Dream => Hue::Magenta,
            Tribe::Static => Hue::Cyan,
        }
    }
}

/// Where one tribe stands to another in the cycle of tribes: the other is
/// the next tribe (`Ahead`), the previous one (`Behind`), or neither.
#[derive(Clone, Copy, Debug, PartialEq, Eq, Structural)]
pub enum TribeLane {
    Ahead,
    Behind,
    Apart,
}

/// The lane from tribe `a` to tribe `b`.
pub open spec fn lane_of(a: Tribe, b: Tribe) -> TribeLane {
    if (tribe_index(a) + 1) % 6 == tribe_index(b) {
        TribeLane::Ahead
    } else if (tribe_index(b) + 1) % 6 == tribe_index(a) {
        TribeLane::Behind
    } else {
        TribeLane::Apart
    }
}

/// The lane from tribe `a` to tribe `b` (see `lane_of`).
pub fn tribe_lane(a: Tribe, b: Tribe) -> (r: TribeLane)
    ensures
        r == lane_of(a, b),
{
    let ai = a.index();
    let bi = b.index();
    if (ai + 1) % TRIBE_COUNT == bi {
        TribeLane::Ahead
    } else if (bi + 1) % TRIBE_COUNT == ai {
        TribeLane::Behind
    } else {
        TribeLane::Apart
    }
}

/// Lanes mirror each other: `b` is ahead of `a` exactly when `a` is behind
/// `b`, and no tribe is in a lane with itself.
pub proof fn law_lanes_mirror(a: Tribe, b: Tribe)
    ensures
        lane_of(a, b) == TribeLane::Ahead <==> lane_of(b, a) == TribeLane::Behind,
        lane_of(a, a) == TribeLane::Apart,
{
}

/// Tribe indices round-trip: the tribe at position `i % 6` has position
/// `i % 6`, and every tribe is found again at its own position.
pub proof fn law_tribe_round_trip(t: Tribe, i: nat)
    ensures
        tribe_at(tribe_index(t)) == t,
        tribe_index(tribe_at(i % 6)) == i % 6,
{
}

/// A rare trait that sets a particle apart from its tribe; `Common` marks a
/// particle without one.
#[derive(Clone, Copy, Debug, PartialEq, Eq, Structural)]
pub enum RareTrait {
    Common,
    ElderCore,
    Radiant,
    Voracious,
    Voidborne,
    SymbioticCore,
    SporeKing,
    Devourer,
}

} // verus!
