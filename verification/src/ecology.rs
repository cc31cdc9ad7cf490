//! Ecology zones: their kinds, which kind a new zone takes, and when the
//! world spawns one.

use vstd::prelude::*;
use crate::environment::Environment;
use crate::hashing::{hash, mix_hash};

verus! {

/// The kind of an ecology zone.
#[derive(Clone, Copy, Debug, PartialEq, Eq, Structural)]
pub enum ZoneKind {
    Nutrient,
    Dead,
    Turbulent,
    Mutagen,
    Nest,
}

impl ZoneKind {
    /// The glyph drawn at a zone's centre.
    pub fn glyph(self) -> (r: char)
        ensures
            self == ZoneKind::Nutrient ==> r == '+',
            self == ZoneKind::Dead ==> r == '×',
            self == ZoneKind::Turbulent ==> r == '∴',
            self == ZoneKind::Mutagen ==> r == '*',
            self == ZoneKind::Nest ==> r == '◎',
    {
        match self {
            ZoneKind::Nutrient => '+',
            ZoneKind::Dead => '×',
            ZoneKind::Turbulent => '∴',
            ZoneKind::Mutagen => '*',
            ZoneKind::Nest => '◎',
        }
    }

    /// The lower-case zone name.
    pub fn name(self) -> (r: &'static str)
        ensures
            self == ZoneKind::Nutrient ==> r@ == "nutrient"@,
            self == ZoneKind::Dead ==> r@ == "dead"@,
            self == ZoneKind::Turbulent ==> r@ == "turbulent"@,
            self == ZoneKind::Mutagen ==> r@ == "mutagen"@,
            self == ZoneKind::Nest ==> r@ == "nest"@,
    {
        match self {
            ZoneKind::Nutrient => "nutrient",
            ZoneKind::Dead => "dead",
            ZoneKind::Turbulent => "turbulent",
            ZoneKind::Mutagen => "mutagen",
            ZoneKind::Nest => "nest",
        }
    }
}

/// The zone kind for a percentile roll: 0-32 nutrient, 33-47 turbulent,
/// 48-61 mutagen, 62-78 nest, the rest dead.
pub open spec fn zone_kind_for_roll(roll: nat) -> ZoneKind {
    if roll <= 32 {
        ZoneKind::Nutrient
    } else if roll <= 47 {
        ZoneKind::Turbulent
    } else if roll <= 61 {
        ZoneKind::Mutagen
    } else if roll <= 78 {
        ZoneKind::Nest
    } else {
        ZoneKind::Dead
    }
}

/// The kind of the zone spawned with `seed` and `salt`: the roll is the
/// hash of the seed, the salt and 99, modulo 100.
pub fn spawn_zone_kind(seed: u64, salt: usize) -> (r: ZoneKind)
    ensures
        r == zone_kind_for_roll((mix_hash(seed, salt, 99) % 100) as nat),
{
    let roll = hash(seed, salt, 99) % 100;
    if roll <= 32 {
        ZoneKind::Nutrient
    } else if roll <= 47 {
        ZoneKind::Turbulent
    } else if roll <= 61 {
        ZoneKind::Mutagen
    } else if roll <= 78 {
        ZoneKind::Nest
    } else {
        ZoneKind::Dead
    }
}

/// The number of zones the world starts with.
pub const INITIAL_ZONES: usize = 9;

/// The most zones that may exist before spawning stops.
pub const MAX_ZONES: usize = 16;

/// The age at which a zone dissolves.
pub const ZONE_LIFETIME: u64 = 24_000;

/// How many ticks separate zone spawns under an environment.
pub open spec fn spawn_interval_of(env: Environment) -> u64 {
    match env {
        Environment::Bloom => 2600,
        Environment::Storm => 3200,
        Environment::Hunger => 4200,
        Environment::Drift => 3800,
        Environment::Calm => 5200,
    }
}

/// Whether a tick at world age `age` spawns a new zone: the age is a
/// multiple of the environment's spawn interval and fewer than 16 zones live.
pub fn should_spawn_zone(age: u64, env: Environment, zone_count: usize) -> (r: bool)
    ensures
        r == (age % spawn_interval_of(env) == 0 && zone_count < MAX_ZONES),
{
    let spawn_rate: u64 = match env {
        Environment::Bloom => 2600,
        Environment::Storm => 3200,
        Environment::Hunger => 4200,
        Environment::Drift => 3800,
        Environment::Calm => 5200,
    };
    age % spawn_rate == 0 && zone_count < MAX_ZONES
}

/// Whether a zone of age `age` survives the tick.
pub fn zone_survives(age: u64) -> (r: bool)
    ensures
        r == (age < ZONE_LIFETIME),
{
    age < ZONE_LIFETIME
}

} // verus!
