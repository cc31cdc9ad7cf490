//! The archetype census of the long-run memory: live, peak and cumulative
//! counts per archetype, and the trophic balance they describe.

use vstd::prelude::*;
use crate::species::ARCHETYPE_COUNT;
use crate::text::{decimal, push_decimal};

verus! {

/// Prey archetypes: swarmers, grazers, orbiters, architects, leviathans,
/// mycelials and phantoms.
pub open spec fn prey_total(c: Seq<usize>) -> int {
    c[0] + c[2] + c[3] + c[5] + c[6] + c[7] + c[8]
}

/// Herbivores: grazers, mycelials and harvesters.
pub open spec fn herbivore_total(c: Seq<usize>) -> int {
    c[2] + c[7] + c[9]
}

/// Apex hunters: hunters, parasites and reapers.
pub open spec fn apex_total(c: Seq<usize>) -> int {
    c[1] + c[4] + c[10]
}

/// The census counts fit the machine when every group total does.
pub open spec fn census_fits(c: Seq<usize>) -> bool {
    &&& prey_total(c) <= usize::MAX
    &&& herbivore_total(c) <= usize::MAX
    &&& apex_total(c) <= usize::MAX
}

/// The number of prey organisms in a census.
pub fn prey_count(counts: &[usize; 11]) -> (r: usize)
    requires
        prey_total(counts@) <= usize::MAX,
    ensures
        r == prey_total(counts@),
{
    counts[0] + counts[2] + counts[3] + counts[5] + counts[6] + counts[7] + counts[8]
}

/// The number of herbivores in a census.
pub fn herbivore_count(counts: &[usize; 11]) -> (r: usize)
    requires
        herbivore_total(counts@) <= usize::MAX,
    ensures
        r == herbivore_total(counts@),
{
    counts[2] + counts[7] + counts[9]
}

/// The number of apex hunters in a census.
pub fn apex_count(counts: &[usize; 11]) -> (r: usize)
    requires
        apex_total(counts@) <= usize::MAX,
    ensures
        r == apex_total(counts@),
{
    counts[1] + counts[4] + counts[10]
}

/// The trophic balance of a census: "cycling" when harvesters and reapers
/// coexist, "grazing" with at least 8 harvesters and no reaper, "predatory"
/// when reapers live and apex hunters outnumber herbivores by more than 6,
/// "prey bloom" when prey reach three times the herbivores and apex hunters
/// (and at least 1), "basal" with neither herbivores nor apex hunters,
/// otherwise "balanced".
pub open spec fn trophic_label(c: Seq<usize>) -> &'static str {
    let herb = herbivore_total(c);
    let apex = apex_total(c);
    let prey = prey_total(c);
    let harvesters = c[9];
    let reapers = c[10];
    let herb6 = if herb + 6 > usize::MAX { usize::MAX as int } else { herb + 6 };
    let both = if herb + apex > usize::MAX { usize::MAX as int } else { herb + apex };
    let tripled = if both * 3 > usize::MAX { usize::MAX as int } else { both * 3 };
    let bloom = if tripled > 1 { tripled } else { 1 };
    if reapers > 0 && harvesters > 0 {
        "cycling"
    } else if harvesters >= 8 && reapers == 0 {
        "grazing"
    } else if reapers > 0 && apex > herb6 {
        "predatory"
    } else if prey >= bloom {
        "prey bloom"
    } else if herb == 0 && apex == 0 {
        "basal"
    } else {
        "balanced"
    }
}

/// The trophic balance of a census (see `trophic_label`).
pub fn trophic_balance_label(counts: &[usize; 11]) -> (r: &'static str)
    requires
        census_fits(counts@),
    ensures
        r == trophic_label(counts@),
{
    let herb = herbivore_count(counts);
    let apex = apex_count(counts);
    let prey = prey_count(counts);
    let harvesters = counts[9];
    let reapers = counts[10];
    let both = herb.saturating_add(apex);
    let tripled = match both.checked_mul(3) {
        Some(v) => v,
        None => usize::MAX,
    };
    let bloom = if tripled > 1 { tripled } else { 1 };
    if reapers > 0 && harvesters > 0 {
        "cycling"
    } else if harvesters >= 8 && reapers == 0 {
        "grazing"
    } else if reapers > 0 && apex > herb.saturating_add(6) {
        "predatory"
    } else if prey >= bloom {
        "prey bloom"
    } else if herb == 0 && apex == 0 {
        "basal"
    } else {
        "balanced"
    }
}

/// The archetype census kept by the long-run memory.
pub struct ArchetypeCensus {
    pub live_counts: [usize; 11],
    pub peak_counts: [usize; 11],
    pub seen_counts: [u64; 11],
    pub population_samples: u64,
    pub trophic_balance_label: String,
}

impl ArchetypeCensus {
    /// Records a census of living archetypes: it becomes the live census,
    /// the sample counter advances (saturating), every peak rises to the new
    /// count, every archetype seen alive adds its count to its cumulative
    /// total (saturating) and the trophic label is recomputed.
    pub fn observe_archetypes(&mut self, live_counts: [usize; 11])
        requires
            census_fits(live_counts@),
        ensures
            final(self).live_counts@ == live_counts@,
            final(self).population_samples == old(self).population_samples.saturating_add(1),
            forall|i: int|
                0 <= i < ARCHETYPE_COUNT ==> #[trigger] final(self).peak_counts@[i] == (if old(self).peak_counts@[i]
                    > live_counts@[i] { old(self).peak_counts@[i] } else { live_counts@[i] }),
            forall|i: int|
                0 <= i < ARCHETYPE_COUNT ==> #[trigger] final(self).seen_counts@[i] == (if live_counts@[i] > 0 {
                    old(self).seen_counts@[i].saturating_add(live_counts@[i] as u64)
                } else {
                    old(self).seen_counts@[i]
                }),
            final(self).trophic_balance_label@ == trophic_label(live_counts@)@,
    {
        self.live_counts = live_counts;
        self.population_samples = self.population_samples.saturating_add(1);
        let mut idx: usize = 0;
        while idx < 11
            invariant
                0 <= idx <= 11,
                self.live_counts@ == live_counts@,
                self.population_samples == old(self).population_samples.saturating_add(1),
                self.peak_counts@.len() == 11,
                self.seen_counts@.len() == 11,
                forall|i: int|
                    0 <= i < idx ==> #[trigger] self.peak_counts@[i] == (if old(self).peak_counts@[i]
                        > live_counts@[i] { old(self).peak_counts@[i] } else { live_counts@[i] }),
                forall|i: int|
                    0 <= i < idx ==> #[trigger] self.seen_counts@[i] == (if live_counts@[i] > 0 {
                        old(self).seen_counts@[i].saturating_add(live_counts@[i] as u64)
                    } else {
                        old(self).seen_counts@[i]
                    }),
                forall|i: int| idx <= i < 11 ==> #[trigger] self.peak_counts@[i] == old(self).peak_counts@[i],
                forall|i: int| idx <= i < 11 ==> #[trigger] self.seen_counts@[i] == old(self).seen_counts@[i],
            decreases 11 - idx,
        {
            let peak = self.peak_counts[idx];
            let live = live_counts[idx];
            self.peak_counts[idx] = if peak > live { peak } else { live };
            if live > 0 {
                let seen = self.seen_counts[idx];
                self.seen_counts[idx] = seen.saturating_add(live as u64);
            }
            idx = idx + 1;
        }
        self.trophic_balance_label = String::from_str(trophic_balance_label(&live_counts));
    }

    /// The trophic status line:
    /// `<label> prey:<p> herb:<h> apex:<a> peak_hrv:<peak harvesters> peak_rpr:<peak reapers>`.
    pub fn trophic_status_line(&self) -> (r: String)
        requires
            census_fits(self.live_counts@),
        ensures
            r@ == self.trophic_balance_label@ + " prey:"@ + decimal(prey_total(self.live_counts@) as nat)
                + " herb:"@ + decimal(herbivore_total(self.live_counts@) as nat) + " apex:"@ + decimal(
                apex_total(self.live_counts@) as nat,
            ) + " peak_hrv:"@ + decimal(self.peak_counts@[9] as nat) + " peak_rpr:"@ + decimal(
                self.peak_counts@[10] as nat,
            ),
    {
        let mut out = self.trophic_balance_label.clone();
        out.append(" prey:");
        push_decimal(&mut out, prey_count(&self.live_counts) as u64);
        out.append(" herb:");
        push_decimal(&mut out, herbivore_count(&self.live_counts) as u64);
        out.append(" apex:");
        push_decimal(&mut out, apex_count(&self.live_counts) as u64);
        out.append(" peak_hrv:");
        push_decimal(&mut out, self.peak_counts[9] as u64);
        out.append(" peak_rpr:");
        push_decimal(&mut out, self.peak_counts[10] as u64);
        out
    }
}

/// The cycling label holds exactly when harvesters and reapers coexist.
pub proof fn law_cycling_iff_coexist(c: Seq<usize>)
    requires
        c.len() == ARCHETYPE_COUNT,
    ensures
        (trophic_label(c)@ == "cycling"@) <==> (c[9] > 0 && c[10] > 0),
{
    reveal_strlit("cycling");
    reveal_strlit("grazing");
    reveal_strlit("predatory");
    reveal_strlit("prey bloom");
    reveal_strlit("basal");
    reveal_strlit("balanced");
    assert("grazing"@[0] != "cycling"@[0]);
    assert("grazing"@ != "cycling"@);
}


/// The tree and substrate counters of the long-run memory.
pub struct SubstrateLedger {
    pub peak_living_cells: usize,
    pub peak_root_cells: usize,
    pub peak_tree_trunk_cells: usize,
    pub peak_tree_branch_cells: usize,
    pub peak_tree_canopy_cells: usize,
    pub tree_growth_events: u64,
    pub tree_wall_events: u64,
    pub tree_surface_flow_events: u64,
    pub root_collision_events: u64,
    pub root_corridor_events: u64,
    pub total_cells_consumed: u64,
    pub root_pressure_samples: u64,
    pub substrate_balance_samples: u64,
    pub substrate_starved_ticks: u64,
    pub substrate_overgrown_ticks: u64,
    pub root_choked_ticks: u64,
}

/// The larger of two counts.
pub open spec fn peak(a: usize, b: usize) -> usize {
    if a > b { a } else { b }
}

/// Less than 7/200 (0.035) of the substrate alive.
pub open spec fn starved(living: int, total: int) -> bool {
    living * 200 < total * 7
}

/// More than 9/50 (0.18) of the substrate alive.
pub open spec fn overgrown(living: int, total: int) -> bool {
    living * 50 > total * 9
}

/// More than 7/100 (0.07) of the substrate roots while less than 7/100 is alive.
pub open spec fn root_choked(living: int, roots: int, total: int) -> bool {
    roots * 100 > total * 7 && living * 100 < total * 7
}

fn peak_of(a: usize, b: usize) -> (r: usize)
    ensures
        r == peak(a, b),
{
    if a > b { a } else { b }
}

fn bump(count: u64, hit: bool) -> (r: u64)
    ensures
        r == (if hit { count.saturating_add(1) } else { count }),
{
    if hit { count.saturating_add(1) } else { count }
}

impl SubstrateLedger {
    /// An empty ledger.
    pub fn new() -> (r: Self)
        ensures
            r.peak_living_cells == 0 && r.peak_root_cells == 0 && r.peak_tree_trunk_cells == 0
                && r.peak_tree_branch_cells == 0 && r.peak_tree_canopy_cells == 0,
            r.tree_growth_events == 0 && r.tree_wall_events == 0 && r.tree_surface_flow_events == 0,
            r.root_collision_events == 0 && r.root_corridor_events == 0 && r.total_cells_consumed == 0,
            r.root_pressure_samples == 0 && r.substrate_balance_samples == 0,
            r.substrate_starved_ticks == 0 && r.substrate_overgrown_ticks == 0 && r.root_choked_ticks == 0,
    {
        SubstrateLedger {
            peak_living_cells: 0,
            peak_root_cells: 0,
            peak_tree_trunk_cells: 0,
            peak_tree_branch_cells: 0,
            peak_tree_canopy_cells: 0,
            tree_growth_events: 0,
            tree_wall_events: 0,
            tree_surface_flow_events: 0,
            root_collision_events: 0,
            root_corridor_events: 0,
            total_cells_consumed: 0,
            root_pressure_samples: 0,
            substrate_balance_samples: 0,
            substrate_starved_ticks: 0,
            substrate_overgrown_ticks: 0,
            root_choked_ticks: 0,
        }
    }

    /// Records a census of the tree layers: each layer's peak rises to its
    /// count, and a growth event is counted (saturating) when any layer is
    /// non-empty. Nothing else changes.
    pub fn observe_tree(&mut self, root_cells: usize, trunk_cells: usize, branch_cells: usize, canopy_cells: usize)
        ensures
            final(self).peak_root_cells == peak(old(self).peak_root_cells, root_cells),
            final(self).peak_tree_trunk_cells == peak(old(self).peak_tree_trunk_cells, trunk_cells),
            final(self).peak_tree_branch_cells == peak(old(self).peak_tree_branch_cells, branch_cells),
            final(self).peak_tree_canopy_cells == peak(old(self).peak_tree_canopy_cells, canopy_cells),
            final(self).tree_growth_events == (if root_cells + trunk_cells + branch_cells + canopy_cells > 0 {
                old(self).tree_growth_events.saturating_add(1)
            } else {
                old(self).tree_growth_events
            }),
            final(self).peak_living_cells == old(self).peak_living_cells,
            final(self).tree_wall_events == old(self).tree_wall_events,
            final(self).tree_surface_flow_events == old(self).tree_surface_flow_events,
            final(self).root_collision_events == old(self).root_collision_events,
            final(self).root_corridor_events == old(self).root_corridor_events,
            final(self).total_cells_consumed == old(self).total_cells_consumed,
            final(self).root_pressure_samples == old(self).root_pressure_samples,
            final(self).substrate_balance_samples == old(self).substrate_balance_samples,
            final(self).substrate_starved_ticks == old(self).substrate_starved_ticks,
            final(self).substrate_overgrown_ticks == old(self).substrate_overgrown_ticks,
            final(self).root_choked_ticks == old(self).root_choked_ticks,
    {
        self.peak_root_cells = peak_of(self.peak_root_cells, root_cells);
        self.peak_tree_trunk_cells = peak_of(self.peak_tree_trunk_cells, trunk_cells);
        self.peak_tree_branch_cells = peak_of(self.peak_tree_branch_cells, branch_cells);
        self.peak_tree_canopy_cells = peak_of(self.peak_tree_canopy_cells, canopy_cells);
        let any = root_cells > 0 || trunk_cells > 0 || branch_cells > 0 || canopy_cells > 0;
        self.tree_growth_events = bump(self.tree_growth_events, any);
    }

    /// A root met a wall: the wall and collision counters advance (saturating).
    pub fn observe_tree_wall_event(&mut self)
        ensures
            final(self).tree_wall_events == old(self).tree_wall_events.saturating_add(1),
            final(self).root_collision_events == old(self).root_collision_events.saturating_add(1),
            final(self).tree_surface_flow_events == old(self).tree_surface_flow_events,
            final(self).root_corridor_events == old(self).root_corridor_events,
            final(self).tree_growth_events == old(self).tree_growth_events,
    {
        self.tree_wall_events = self.tree_wall_events.saturating_add(1);
        self.root_collision_events = self.root_collision_events.saturating_add(1);
    }

    /// A root flowed along the surface: the surface-flow and corridor
    /// counters advance (saturating).
    pub fn observe_tree_surface_flow_event(&mut self)
        ensures
            final(self).tree_surface_flow_events == old(self).tree_surface_flow_events.saturating_add(1),
            final(self).root_corridor_events == old(self).root_corridor_events.saturating_add(1),
            final(self).tree_wall_events == old(self).tree_wall_events,
            final(self).root_collision_events == old(self).root_collision_events,
            final(self).tree_growth_events == old(self).tree_growth_events,
    {
        self.tree_surface_flow_events = self.tree_surface_flow_events.saturating_add(1);
        self.root_corridor_events = self.root_corridor_events.saturating_add(1);
    }

    /// Records a census of the substrate (`total` counted as at least 1):
    /// the living and root peaks rise, the consumed total and both sample
    /// counters advance, and the starved, overgrown and root-choked tick
    /// counters advance when their thresholds hold (all saturating).
    pub fn observe_substrate(&mut self, living_cells: usize, total_cells: usize, root_cells: usize, consumed_cells: usize)
        ensures
            ({
                let total = if total_cells > 1 { total_cells as int } else { 1int };
                &&& final(self).peak_living_cells == peak(old(self).peak_living_cells, living_cells)
                &&& final(self).peak_root_cells == peak(old(self).peak_root_cells, root_cells)
                &&& final(self).total_cells_consumed == old(self).total_cells_consumed.saturating_add(
                    consumed_cells as u64,
                )
                &&& final(self).root_pressure_samples == old(self).root_pressure_samples.saturating_add(1)
                &&& final(self).substrate_balance_samples == old(self).substrate_balance_samples.saturating_add(1)
                &&& final(self).substrate_starved_ticks == (if starved(living_cells as int, total) {
                    old(self).substrate_starved_ticks.saturating_add(1)
                } else {
                    old(self).substrate_starved_ticks
                })
                &&& final(self).substrate_overgrown_ticks == (if overgrown(living_cells as int, total) {
                    old(self).substrate_overgrown_ticks.saturating_add(1)
                } else {
                    old(self).substrate_overgrown_ticks
                })
                &&& final(self).root_choked_ticks == (if root_choked(living_cells as int, root_cells as int, total) {
                    old(self).root_choked_ticks.saturating_add(1)
                } else {
                    old(self).root_choked_ticks
                })
            }),
            final(self).peak_tree_trunk_cells == old(self).peak_tree_trunk_cells,
            final(self).peak_tree_branch_cells == old(self).peak_tree_branch_cells,
            final(self).peak_tree_canopy_cells == old(self).peak_tree_canopy_cells,
            final(self).tree_growth_events == old(self).tree_growth_events,
            final(self).tree_wall_events == old(self).tree_wall_events,
            final(self).tree_surface_flow_events == old(self).tree_surface_flow_events,
            final(self).root_collision_events == old(self).root_collision_events,
            final(self).root_corridor_events == old(self).root_corridor_events,
    {
        let total: u128 = if total_cells > 1 { total_cells as u128 } else { 1 };
        let living = living_cells as u128;
        let roots = root_cells as u128;
        self.peak_living_cells = peak_of(self.peak_living_cells, living_cells);
        self.peak_root_cells = peak_of(self.peak_root_cells, root_cells);
        self.total_cells_consumed = self.total_cells_consumed.saturating_add(consumed_cells as u64);
        self.root_pressure_samples = self.root_pressure_samples.saturating_add(1);
        self.substrate_balance_samples = self.substrate_balance_samples.saturating_add(1);
        self.substrate_starved_ticks = bump(self.substrate_starved_ticks, living * 200 < total * 7);
        self.substrate_overgrown_ticks = bump(self.substrate_overgrown_ticks, living * 50 > total * 9);
        self.root_choked_ticks = bump(self.root_choked_ticks, roots * 100 > total * 7 && living * 100 < total * 7);
    }
}

/// Peaks never fall: after any observation every peak is at least what it was.
pub proof fn law_peaks_never_fall(before: usize, count: usize)
    ensures
        peak(before, count) >= before,
        peak(before, count) >= count,
{
}

/// A substrate is never both starved and overgrown.
pub proof fn law_starved_excludes_overgrown(living: int, total: int)
    requires
        total >= 1,
        living >= 0,
    ensures
        !(starved(living, total) && overgrown(living, total)),
{
}

} // verus!
