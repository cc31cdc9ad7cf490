//! The schedule of one simulation step, and what a step reports about
//! consumption and substrate.

use vstd::prelude::*;
use crate::particle::RareTrait;
use crate::species::Archetype;

verus! {

/// Counters gathered during one particle step.
#[derive(Clone, Copy, Debug, PartialEq, Eq, Structural)]
pub struct StepReport {
    pub cells_consumed: usize,
    pub harvesters_consumed: usize,
    pub harvester_particles: usize,
    pub reaper_particles: usize,
    pub living_substrate: usize,
    pub total_substrate: usize,
}

impl Default for StepReport {
    fn default() -> (r: Self)
        ensures
            r == (StepReport {
                cells_consumed: 0,
                harvesters_consumed: 0,
                harvester_particles: 0,
                reaper_particles: 0,
                living_substrate: 0,
                total_substrate: 0,
            }),
    {
        StepReport {
            cells_consumed: 0,
            harvesters_consumed: 0,
            harvester_particles: 0,
            reaper_particles: 0,
            living_substrate: 0,
            total_substrate: 0,
        }
    }
}


/// The most particles the world holds.
pub const MAX_PARTICLES: usize = 2500;

/// The fewest particles the world keeps after selection.
pub const MIN_PARTICLES: usize = 600;

/// The particles a fresh world starts with.
pub const PARTICLE_COUNT: usize = 1200;

/// Which subsystems run in a step of the world.
#[derive(Clone, Copy, Debug, PartialEq, Eq, Structural)]
pub struct StepPlan {
    /// Particles deposit into the substrate (every 2nd step).
    pub deposit: bool,
    /// The substrate ticks (every 3rd step).
    pub substrate: bool,
    /// Particles reproduce and selection acts (every 32nd step).
    pub reproduce: bool,
    /// Clusters and species are tracked (every 24th step).
    pub clusters: bool,
    /// The environment may shift (every 360th step).
    pub shift_environment: bool,
    /// The rule matrix mutates and a generation passes (every 280th step).
    pub mutate_rules: bool,
    /// Memory and ecosystem are saved (every 600th step).
    pub save: bool,
}

/// The subsystems that run once the world has reached age `age`.
pub open spec fn step_plan_of(age: u64) -> StepPlan {
    StepPlan {
        deposit: age % 2 == 0,
        substrate: age % 3 == 0,
        reproduce: age % 32 == 0,
        clusters: age % 24 == 0,
        shift_environment: age % 360 == 0,
        mutate_rules: age % 280 == 0,
        save: age % 600 == 0,
    }
}

/// The subsystems that run at age `age` (see `step_plan_of`).
pub fn plan_step(age: u64) -> (r: StepPlan)
    ensures
        r == step_plan_of(age),
{
    StepPlan {
        deposit: age % 2 == 0,
        substrate: age % 3 == 0,
        reproduce: age % 32 == 0,
        clusters: age % 24 == 0,
        shift_environment: age % 360 == 0,
        mutate_rules: age % 280 == 0,
        save: age % 600 == 0,
    }
}

/// Every step that tracks clusters or saves also deposits, and every
/// save falls on an environment shift and a substrate tick.
pub proof fn law_schedule_nesting(age: u64)
    ensures
        step_plan_of(age).clusters ==> step_plan_of(age).deposit && step_plan_of(age).substrate,
        step_plan_of(age).save ==> step_plan_of(age).deposit && step_plan_of(age).substrate
            && step_plan_of(age).clusters,
        step_plan_of(age).shift_environment ==> step_plan_of(age).clusters,
{
    assert(age % 24 == 0 ==> age % 2 == 0 && age % 3 == 0) by (nonlinear_arith);
    assert(age % 600 == 0 ==> age % 2 == 0 && age % 3 == 0 && age % 24 == 0) by (nonlinear_arith);
    assert(age % 360 == 0 ==> age % 24 == 0) by (nonlinear_arith);
}

/// Whether a particle feeds on the substrate as a harvester: its species is
/// of the harvester archetype, or it carries the devourer trait.
pub open spec fn harvester_like(archetype: Option<Archetype>, rare: RareTrait) -> bool {
    archetype == Some(Archetype::Harvester) || rare == RareTrait::Devourer
}

/// How many of the first `k` particles are harvester-like.
pub open spec fn harvesters_among(archetypes: Seq<Option<Archetype>>, rares: Seq<RareTrait>, k: nat) -> nat
    decreases k,
{
    if k == 0 {
        0
    } else {
        harvesters_among(archetypes, rares, (k - 1) as nat) + if harvester_like(
            archetypes[k - 1],
            rares[k - 1],
        ) {
            1nat
        } else {
            0nat
        }
    }
}

/// How many of the first `k` particles belong to reaper species.
pub open spec fn reapers_among(archetypes: Seq<Option<Archetype>>, k: nat) -> nat
    decreases k,
{
    if k == 0 {
        0
    } else {
        reapers_among(archetypes, (k - 1) as nat) + if archetypes[k - 1] == Some(Archetype::Reaper) {
            1nat
        } else {
            0nat
        }
    }
}

/// The trophic state that steers one particle step.
#[derive(Clone, Copy, Debug, PartialEq, Eq, Structural)]
pub struct TrophicPressure {
    /// Harvester-like particles moving this step.
    pub harvester_particles: usize,
    /// Reaper particles moving this step.
    pub reaper_particles: usize,
    /// Under 3.5% of the substrate lives.
    pub low_substrate: bool,
    /// Over 15.5% of the particles are harvester-like.
    pub harvester_overgrowth: bool,
    /// Reapers should hunt harder: over 9.5% of the particles are
    /// harvester-like, or at least 10 are, or at least 6 are while under
    /// 7.5% of the substrate lives.
    pub reaper_pressure_needed: bool,
}

/// The trophic state for `harvesters` harvester-like and `reapers` reaper
/// particles among `particles`, on a substrate of `total` cells of which
/// `living` live (an empty world or substrate counts as one).
pub open spec fn trophic_pressure_of(harvesters: nat, reapers: nat, particles: nat, living: nat, total: nat) -> TrophicPressure {
    let n = if particles > 1 { particles } else { 1 };
    let t = if total > 1 { total } else { 1 };
    TrophicPressure {
        harvester_particles: harvesters as usize,
        reaper_particles: reapers as usize,
        low_substrate: living * 1000 < 35 * t,
        harvester_overgrowth: harvesters * 1000 > 155 * n,
        reaper_pressure_needed: harvesters * 1000 > 95 * n || harvesters >= 10 || (harvesters >= 6
            && living * 1000 < 75 * t),
    }
}

proof fn lemma_totals_bounded(archetypes: Seq<Option<Archetype>>, rares: Seq<RareTrait>, k: nat)
    ensures
        harvesters_among(archetypes, rares, k) <= k,
        reapers_among(archetypes, k) <= k,
    decreases k,
{
    if k > 0 {
        lemma_totals_bounded(archetypes, rares, (k - 1) as nat);
    }
}

/// The trophic state of a step: the particles' archetypes (by species) and
/// rare traits are counted, and the pressures follow from those counts and
/// from how much of the substrate lives.
pub fn trophic_pressure(
    archetypes: &Vec<Option<Archetype>>,
    rares: &Vec<RareTrait>,
    living_substrate: usize,
    total_substrate: usize,
) -> (r: TrophicPressure)
    requires
        archetypes.len() == rares.len(),
    ensures
        r == trophic_pressure_of(
            harvesters_among(archetypes@, rares@, archetypes.len() as nat),
            reapers_among(archetypes@, archetypes.len() as nat),
            archetypes.len() as nat,
            living_substrate as nat,
            total_substrate as nat,
        ),
{
    let n = archetypes.len();
    let mut harvesters: usize = 0;
    let mut reapers: usize = 0;
    let mut i: usize = 0;
    while i < n
        invariant
            i <= n,
            n == archetypes.len(),
            n == rares.len(),
            harvesters as nat == harvesters_among(archetypes@, rares@, i as nat),
            reapers as nat == reapers_among(archetypes@, i as nat),
        decreases n - i,
    {
        proof {
            lemma_totals_bounded(archetypes@, rares@, i as nat);
        }
        let a = archetypes[i];
        let is_harvester = match a {
            Some(Archetype::Harvester) => true,
            _ => match rares[i] {
                RareTrait::Devourer => true,
                _ => false,
            },
        };
        let is_reaper = match a {
            Some(Archetype::Reaper) => true,
            _ => false,
        };
        if is_harvester {
            harvesters = harvesters + 1;
        }
        if is_reaper {
            reapers = reapers + 1;
        }
        i = i + 1;
    }
    let n_wide: u128 = if n > 1 { n as u128 } else { 1 };
    let t_wide: u128 = if total_substrate > 1 { total_substrate as u128 } else { 1 };
    let h_wide = harvesters as u128;
    let l_wide = living_substrate as u128;
    TrophicPressure {
        harvester_particles: harvesters,
        reaper_particles: reapers,
        low_substrate: l_wide * 1000 < 35 * t_wide,
        harvester_overgrowth: h_wide * 1000 > 155 * n_wide,
        reaper_pressure_needed: h_wide * 1000 > 95 * n_wide || harvesters >= 10 || (harvesters >= 6 && l_wide
            * 1000 < 75 * t_wide),
    }
}

/// The report a particle step opens with: nothing consumed yet, the
/// trophic counts and the substrate as it stood.
pub fn opening_report(pressure: TrophicPressure, living_substrate: usize, total_substrate: usize) -> (r: StepReport)
    ensures
        r == (StepReport {
            cells_consumed: 0,
            harvesters_consumed: 0,
            harvester_particles: pressure.harvester_particles,
            reaper_particles: pressure.reaper_particles,
            living_substrate,
            total_substrate,
        }),
{
    StepReport {
        cells_consumed: 0,
        harvesters_consumed: 0,
        harvester_particles: pressure.harvester_particles,
        reaper_particles: pressure.reaper_particles,
        living_substrate,
        total_substrate,
    }
}

/// Harvester overgrowth always calls the reapers in, and a world without
/// harvesters neither overgrows nor needs them.
pub proof fn law_overgrowth_calls_reapers(harvesters: nat, reapers: nat, particles: nat, living: nat, total: nat)
    ensures
        trophic_pressure_of(harvesters, reapers, particles, living, total).harvester_overgrowth
            ==> trophic_pressure_of(harvesters, reapers, particles, living, total).reaper_pressure_needed,
        harvesters == 0 ==> !trophic_pressure_of(harvesters, reapers, particles, living, total).harvester_overgrowth
            && !trophic_pressure_of(harvesters, reapers, particles, living, total).reaper_pressure_needed,
{
}

/// A substrate low enough to starve harvesters is also low enough for six
/// of them to call the reapers in.
pub proof fn law_low_substrate_sharpens_hunt(reapers: nat, particles: nat, living: nat, total: nat, harvesters: nat)
    requires
        harvesters >= 6,
        trophic_pressure_of(harvesters, reapers, particles, living, total).low_substrate,
    ensures
        trophic_pressure_of(harvesters, reapers, particles, living, total).reaper_pressure_needed,
{
}

} // verus!
