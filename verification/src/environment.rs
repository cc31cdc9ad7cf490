//! The five global weather regimes of the ecosystem.

use vstd::prelude::*;
use crate::hashing::{hash, mix_hash};

verus! {

/// The global regime that scales forces, hunger and perception.
#[derive(Clone, Copy, Debug, PartialEq, Eq, Structural)]
pub enum Environment {
    Calm,
    Bloom,
    Hunger,
    Storm,
    Drift,
}

impl Environment {
    /// The lower-case label shown in event lines.
    pub fn name(self) -> (r: &'static str)
        ensures
            self == Environment::Calm ==> r@ == "calm"@,
            self == Environment::Bloom ==> r@ == "bloom"@,
            self == Environment::Hunger ==> r@ == "hunger"@,
            self == Environment::Storm ==> r@ == "storm"@,
            self == Environment::Drift ==> r@ == "drift"@,
    {
        match self {
            Environment::Calm => "calm",
            Environment::Bloom => "bloom",
            Environment::Hunger => "hunger",
            Environment::Storm => "storm",
            Environment::Drift => "drift",
        }
    }
}

/// The environment for a percentile roll: 0-32 calm, 33-55 bloom,
/// 56-70 hunger, 71-86 drift, the rest storm.
pub open spec fn environment_for_roll(roll: nat) -> Environment {
    if roll <= 32 {
        Environment::Calm
    } else if roll <= 55 {
        Environment::Bloom
    } else if roll <= 70 {
        Environment::Hunger
    } else if roll <= 86 {
        Environment::Drift
    } else {
        Environment::Storm
    }
}

/// The environment the world shifts to at `age` in `generation`: the roll is
/// the hash of the seed, the age and the generation, modulo 100.
pub fn shifted_environment(seed: u64, age: u64, generation: u64) -> (r: Environment)
    ensures
        r == environment_for_roll((mix_hash(seed, age as usize, generation as usize) % 100) as nat),
{
    let roll = hash(seed, age as usize, generation as usize) % 100;
    if roll <= 32 {
        Environment::Calm
    } else if roll <= 55 {
        Environment::Bloom
    } else if roll <= 70 {
        Environment::Hunger
    } else if roll <= 86 {
        Environment::Drift
    } else {
        Environment::Storm
    }
}

/// The tick interval after speeding up: 4 ms shorter, but never under 4 ms.
pub fn faster_tick(tick_ms: u64) -> (r: u64)
    ensures
        r == (if tick_ms >= 8 { tick_ms - 4 } else { 4 }),
{
    let t = tick_ms.saturating_sub(4);
    if t > 4 { t } else { 4 }
}

/// The tick interval after slowing down: 4 ms longer, but never over 220 ms.
pub fn slower_tick(tick_ms: u64) -> (r: u64)
    requires
        tick_ms <= u64::MAX - 4,
    ensures
        r == (if tick_ms + 4 < 220 { tick_ms + 4 } else { 220 }),
{
    let t = tick_ms + 4;
    if t < 220 { t } else { 220 }
}

} // verus!
