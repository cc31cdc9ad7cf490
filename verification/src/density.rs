//! Density observation: how full the world is, and how strongly each layer
//! should spawn or refill.

use vstd::prelude::*;

verus! {

/// How crowded the world is overall.
#[derive(Clone, Copy, Debug, PartialEq, Eq, Structural)]
pub enum DensityBand {
    Starved,
    Sparse,
    Balanced,
    Crowded,
    Saturated,
}

/// `a * b`, saturating at `usize::MAX`.
pub open spec fn sat_mul(a: usize, b: usize) -> usize {
    if a * b > usize::MAX { usize::MAX } else { (a * b) as usize }
}

/// `a + b`, saturating at `usize::MAX`.
pub open spec fn sat_add(a: usize, b: usize) -> usize {
    if a + b > usize::MAX { usize::MAX } else { (a + b) as usize }
}

/// `a - b`, stopping at zero.
pub open spec fn sat_sub(a: usize, b: usize) -> usize {
    if a >= b { (a - b) as usize } else { 0 }
}

fn saturating_mul(a: usize, b: usize) -> (r: usize)
    ensures
        r == sat_mul(a, b),
{
    match a.checked_mul(b) {
        Some(v) => v,
        None => usize::MAX,
    }
}

/// A count of what occupies a `width` by `height` world.
#[derive(Clone, Copy, Debug, PartialEq, Eq, Structural)]
pub struct DensitySnapshot {
    pub width: usize,
    pub height: usize,
    pub cells: usize,
    pub particles: usize,
    pub roots: usize,
}

/// The area of a snapshot (saturating).
pub open spec fn area_of(s: DensitySnapshot) -> usize {
    sat_mul(s.width, s.height)
}

/// The occupied positions: cells, particles and roots (saturating), at most the area.
pub open spec fn occupied_of(s: DensitySnapshot) -> usize {
    let total = sat_add(sat_add(s.cells, s.particles), s.roots);
    if total < area_of(s) { total } else { area_of(s) }
}

impl DensitySnapshot {
    /// A snapshot of the given counts.
    pub fn new(width: usize, height: usize, cells: usize, particles: usize, roots: usize) -> (r: Self)
        ensures
            r == (DensitySnapshot { width, height, cells, particles, roots }),
    {
        DensitySnapshot { width, height, cells, particles, roots }
    }

    /// The number of positions of the world (saturating).
    pub fn area(&self) -> (r: usize)
        ensures
            r == area_of(*self),
    {
        saturating_mul(self.width, self.height)
    }

    /// The occupied positions, never more than the area.
    pub fn occupied(&self) -> (r: usize)
        ensures
            r == occupied_of(*self),
            r <= area_of(*self),
    {
        let total = self.cells.saturating_add(self.particles).saturating_add(self.roots);
        let area = self.area();
        if total < area { total } else { area }
    }

    /// The free positions: the area minus the occupied ones.
    pub fn empty(&self) -> (r: usize)
        ensures
            r + occupied_of(*self) == area_of(*self),
    {
        self.area().saturating_sub(self.occupied())
    }
}

/// Target counts derived from a snapshot's area.
#[derive(Clone, Copy, Debug, PartialEq, Eq, Structural)]
pub struct DensityTargets {
    pub min_cells: usize,
    pub target_cells: usize,
    pub max_cells: usize,
    pub min_particles: usize,
    pub target_particles: usize,
    pub max_particles: usize,
    pub target_roots: usize,
    pub reserved_empty: usize,
}

/// The pressures the density layer exerts on the world.
#[derive(Clone, Copy, Debug, PartialEq, Eq, Structural)]
pub struct DensityPressure {
    pub band: DensityBand,
    pub cell_spawn_pressure: u16,
    pub particle_spawn_pressure: u16,
    pub root_growth_pressure: u16,
    pub refill_pressure: u16,
    pub crowding_pressure: u16,
}

impl DensityPressure {
    /// Whether the world is crowded or saturated.
    pub fn is_crowded(&self) -> (r: bool)
        ensures
            r == (self.band == DensityBand::Crowded || self.band == DensityBand::Saturated),
    {
        match self.band {
            DensityBand::Crowded | DensityBand::Saturated => true,
            _ => false,
        }
    }

    /// Whether the world is starved or sparse and wants refilling.
    pub fn wants_refill(&self) -> (r: bool)
        ensures
            r == (self.band == DensityBand::Starved || self.band == DensityBand::Sparse),
    {
        match self.band {
            DensityBand::Starved | DensityBand::Sparse => true,
            _ => false,
        }
    }
}

/// A world is never both crowded and in want of refilling.
pub proof fn law_crowded_excludes_refill(p: DensityPressure)
    ensures
        !((p.band == DensityBand::Crowded || p.band == DensityBand::Saturated) && (p.band
            == DensityBand::Starved || p.band == DensityBand::Sparse)),
{
}

/// The spawn pressure for a layer with `current` members against its
/// minimum, target and maximum: 0 at or past the maximum, 1000 at or below
/// the minimum, from 520 up to 1000 as the count falls from the target to
/// the minimum, and from 0 up to 520 as it falls from the maximum to the target.
pub open spec fn spawn_pressure_of(current: usize, min: usize, target: usize, max: usize) -> int {
    if current >= max {
        0
    } else if current <= min {
        1000
    } else if current <= target {
        let span = if target - min > 1 { target - min } else { 1 };
        520 + (sat_mul((target - current) as usize, 480) as int) / span
    } else {
        let span = if max - target > 1 { max - target } else { 1 };
        (sat_mul((max - current) as usize, 520) as int) / span
    }
}

proof fn lemma_scaled_fraction(r: usize, s: int, k: usize)
    requires
        0 <= r < s,
        s <= usize::MAX,
        1 <= k <= 520,
    ensures
        0 <= (sat_mul(r, k) as int) / s <= k,
{
    if r * k > usize::MAX {
        assert((usize::MAX as int) / s <= k) by (nonlinear_arith)
            requires
                r * k > usize::MAX,
                r < s,
                k >= 1,
                s >= 1,
        {
            assert(s * k > usize::MAX);
            assert((usize::MAX as int) / s < k + 1);
        }
    } else {
        assert(((r * k) as int) / s <= k) by (nonlinear_arith)
            requires
                0 <= r < s,
                k >= 1,
        {
            assert(r * k < s * k);
        }
    }
}

/// The spawn pressure for a layer (see `spawn_pressure_of`).
pub fn spawn_pressure(current: usize, min: usize, target: usize, max: usize) -> (r: u16)
    ensures
        r == spawn_pressure_of(current, min, target, max),
        r <= 1000,
{
    if current >= max {
        return 0;
    }
    if current <= min {
        return 1000;
    }
    if current <= target {
        let diff = target - min;
        let span = if diff > 1 { diff } else { 1 };
        let remaining = target - current;
        proof {
            lemma_scaled_fraction(remaining, span as int, 480);
        }
        let part = saturating_mul(remaining, 480) / span;
        return 520 + (part as u16);
    }
    let diff = max - target;
    let span = if diff > 1 { diff } else { 1 };
    let remaining = max - current;
    proof {
        lemma_scaled_fraction(remaining, span as int, 520);
    }
    (saturating_mul(remaining, 520) / span) as u16
}

proof fn lemma_sat_mul_monotone(a: usize, b: usize, k: usize)
    requires
        a <= b,
    ensures
        sat_mul(a, k) <= sat_mul(b, k),
{
    assert(a * k <= b * k) by (nonlinear_arith)
        requires
            a <= b,
            k >= 0,
    {
    }
}

/// Spawn pressure never rises as a layer fills up, and stays within 0..=1000.
pub proof fn law_spawn_pressure_monotone(c1: usize, c2: usize, min: usize, target: usize, max: usize)
    requires
        c1 <= c2,
    ensures
        spawn_pressure_of(c2, min, target, max) <= spawn_pressure_of(c1, min, target, max),
        0 <= spawn_pressure_of(c1, min, target, max) <= 1000,
{
    let p1 = spawn_pressure_of(c1, min, target, max);
    let p2 = spawn_pressure_of(c2, min, target, max);
    if c1 < max && c1 > min && c1 <= target {
        let span = if target - min > 1 { target - min } else { 1 };
        lemma_scaled_fraction((target - c1) as usize, span, 480);
    }
    if c1 < max && c1 > min && c1 > target {
        let span = if max - target > 1 { max - target } else { 1 };
        lemma_scaled_fraction((max - c1) as usize, span, 520);
    }
    if c2 < max && c2 > min && c2 <= target {
        let span = if target - min > 1 { target - min } else { 1 };
        lemma_scaled_fraction((target - c2) as usize, span, 480);
        lemma_sat_mul_monotone((target - c2) as usize, (target - c1) as usize, 480);
        vstd::arithmetic::div_mod::lemma_div_is_ordered(
            sat_mul((target - c2) as usize, 480) as int,
            sat_mul((target - c1) as usize, 480) as int,
            span,
        );
    }
    if c2 < max && c2 > min && c2 > target {
        let span = if max - target > 1 { max - target } else { 1 };
        lemma_scaled_fraction((max - c2) as usize, span, 520);
        if c1 > target {
            lemma_sat_mul_monotone((max - c2) as usize, (max - c1) as usize, 520);
            vstd::arithmetic::div_mod::lemma_div_is_ordered(
                sat_mul((max - c2) as usize, 520) as int,
                sat_mul((max - c1) as usize, 520) as int,
                span,
            );
        }
    }
}

/// The refill pressure: the combined cell and particle shortfall below
/// their targets (saturating), capped at 1000.
pub open spec fn refill_pressure_of(snapshot: DensitySnapshot, targets: DensityTargets) -> int {
    let deficit = sat_add(
        sat_sub(targets.target_cells, snapshot.cells),
        sat_sub(targets.target_particles, snapshot.particles),
    );
    if deficit < 1000 { deficit as int } else { 1000 }
}

/// The refill pressure (see `refill_pressure_of`).
pub fn refill_pressure(snapshot: DensitySnapshot, targets: DensityTargets) -> (r: u16)
    ensures
        r == refill_pressure_of(snapshot, targets),
{
    let cell_deficit = targets.target_cells.saturating_sub(snapshot.cells);
    let particle_deficit = targets.target_particles.saturating_sub(snapshot.particles);
    let total_deficit = cell_deficit.saturating_add(particle_deficit);
    if total_deficit == 0 {
        0
    } else if total_deficit < 1000 {
        total_deficit as u16
    } else {
        1000
    }
}

} // verus!
