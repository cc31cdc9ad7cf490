//! One tick of the substrate, as decisions. For every cell the tick picks a
//! rule from the cell's kind and its neighbourhood in the snapshot taken at
//! the start of the tick; the rule fixes the kind, age and tribe hint the
//! cell has afterwards. Energies and signals are the caller's to update from
//! the rule: where a rule only drains energy, the caller also decides
//! whether the cell ran dry (see `settled`).

use vstd::prelude::*;
use crate::automata::{CellKind, SignalKind, SubstrateGrid, living_kind, trunk_phase};
use crate::species::Archetype;
use crate::hashing::{hash, mix_hash};
use crate::tree::{root_cap, root_cap_of, standard_policy, TreePolicy};

verus! {

/// The rule that decides a cell's next state in a substrate tick.
#[derive(Clone, Copy, Debug, PartialEq, Eq, Structural)]
pub enum SubstrateRule {
    /// A root tendril claims soft ground (never a surviving live cell).
    RootInvasion,
    /// A root grows into empty ground.
    RootSprout,
    /// Empty ground with three live (or three living and a nutrient) neighbours comes alive.
    EmptyBirth,
    /// In recovery, empty ground between a root and a nutrient comes alive.
    RootNurseBirth,
    /// In recovery, empty ground between a nutrient and a spore comes alive.
    SporeNurseBirth,
    /// In a bloom, empty ground turns to nutrient.
    NutrientBloom,
    /// In recovery, empty ground sprouts a spore.
    SporeBloom,
    /// Empty ground stays empty.
    StayEmpty,
    /// Life with fewer than two live neighbours dies.
    LifeLonely,
    /// Life with more than three live neighbours dies.
    LifeCrowded,
    /// In recovery, surviving life beside a root with at most four living neighbours is fed.
    LifeNursed,
    /// Life with two or three live neighbours survives, feeding on its
    /// nutrients and burning energy; it does not die of running dry.
    LifeMetabolizes,
    /// A spore with three live neighbours and no root comes alive.
    SporeWakes,
    /// A spore touching two or more roots turns to nutrient.
    SporeRooted,
    /// In recovery, a spore beside a root and a nutrient comes alive.
    SporeNursed,
    /// A spore with fewer than two or more than four living neighbours dies.
    SporeWithers,
    /// A spore burns energy; it dies if it runs dry.
    SporeMetabolizes,
    /// A nutrient with three live neighbours and no root comes alive.
    NutrientWakes,
    /// A nutrient touching two or more roots in a populated world is cleared.
    NutrientCleared,
    /// In recovery, a nutrient beside a root and a living cell turns to spore.
    NutrientNursed,
    /// A rich nutrient in a birth-like neighbourhood comes alive.
    NutrientRipens,
    /// In recovery, a nutrient with two living neighbours turns to spore.
    NutrientSporulates,
    /// A nutrient decays; it empties if it runs dry.
    NutrientDecays,
    /// A dead cell with three live neighbours, or two dead and two nutrients, comes alive.
    DeadWakes,
    /// In recovery, a dead cell beside a root composts to nutrient.
    DeadRootCompost,
    /// A dead cell with two nutrients and two living neighbours composts to nutrient.
    DeadCompost,
    /// In recovery, a dead cell with two dead neighbours in a sparse world composts.
    DeadSparseCompost,
    /// A dead cell with more than five dead neighbours is cleared.
    DeadCleared,
    /// A dead cell decays; it empties if it runs dry.
    DeadDecays,
    /// In recovery, a mutagen beside a root turns to spore.
    MutagenRooted,
    /// A mutagen with three living neighbours turns to spore.
    MutagenSporulates,
    /// A mutagen decays; it turns to nutrient if it runs dry.
    MutagenDecays,
    /// A nest touching two roots or more than four living cells collapses.
    NestCollapses,
    /// In recovery, a nest with a living neighbour is fed.
    NestNursed,
    /// A nest decays; it turns to nutrient if it runs dry.
    NestDecays,
    /// A root among more than four roots is starved (it stays a root).
    RootOvercrowded,
    /// Over the cap, a crowded root loses a cull roll (it stays a root).
    RootCulled,
    /// A root matures.
    RootMatures,
}

/// The global state of the substrate a tick reads from its snapshot.
#[derive(Clone, Copy, Debug, PartialEq, Eq, Structural)]
pub struct SubstrateMood {
    pub living: usize,
    pub total: usize,
    pub root_count: usize,
    pub root_cap: usize,
    /// Fewer than 1 400 living cells.
    pub recovery: bool,
    /// Fewer than 800 living cells.
    pub bloom: bool,
    /// More than 41/50 (0.82) of the cells living.
    pub crowded: bool,
    /// More than 7/50 (0.14) of the cells living.
    pub populated: bool,
    /// Fewer than 3/50 (0.06) of the cells living.
    pub sparse: bool,
}

/// What a tick does to one cell.
#[derive(Clone, Copy, Debug, PartialEq, Eq, Structural)]
pub struct CellStep {
    pub rule: SubstrateRule,
    pub kind: CellKind,
    pub age: u16,
    pub tribe_hint: usize,
    /// The nutrient neighbours of the cell (the caller's energy gains use them).
    pub nutrients: usize,
}

/// Ground a root tendril may claim.
pub open spec fn soft_ground(k: CellKind) -> bool {
    k == CellKind::Empty || k == CellKind::Life || k == CellKind::Nutrient || k == CellKind::Dead
        || k == CellKind::Spore
}

/// Ground a root tendril may claim: soft ground, except a live cell with two
/// or three live neighbours, which survives the tick.
pub open spec fn claimable(k: CellKind, c: int) -> bool {
    soft_ground(k) && !(k == CellKind::Life && 2 <= c <= 3)
}

/// The roll (out of 10 000) that decides whether a root claims soft ground.
pub open spec fn invasion_roll(seed: u64, cycle: u64, x: usize, y: usize) -> usize {
    mix_hash(seed ^ cycle ^ 0xA17E_5EEDu64, x, y) % 10_000
}

/// The roll (out of 10 000) of empty ground: root sprouting and blooms.
pub open spec fn ground_roll(seed: u64, cycle: u64, x: usize, y: usize) -> usize {
    mix_hash(seed ^ cycle, x, y) % 10_000
}

/// The roll (out of 10 000) that culls crowded roots.
pub open spec fn cull_roll(seed: u64, cycle: u64, x: usize, y: usize) -> usize {
    mix_hash(seed ^ cycle ^ 0xBEEFu64, x, y) % 10_000
}

/// The rule for empty ground (`sprout`: a root grows in on the ground roll).
pub open spec fn empty_rule(sprout: bool, roll: int, n: int, c: int, nut: int, spore: int, rootn: int, m: SubstrateMood) -> SubstrateRule {
    if sprout {
        SubstrateRule::RootSprout
    } else if c == 3 || (n == 3 && nut >= 1) {
        SubstrateRule::EmptyBirth
    } else if m.recovery && rootn > 0 && nut > 0 {
        SubstrateRule::RootNurseBirth
    } else if m.recovery && nut >= 1 && spore >= 1 {
        SubstrateRule::SporeNurseBirth
    } else if m.bloom && roll < 160 {
        SubstrateRule::NutrientBloom
    } else if m.recovery && roll < 70 {
        SubstrateRule::SporeBloom
    } else {
        SubstrateRule::StayEmpty
    }
}

/// The rule for a live cell: it dies with fewer than two or more than three
/// live neighbours and survives with two or three.
pub open spec fn life_rule(n: int, c: int, rootn: int, m: SubstrateMood) -> SubstrateRule {
    if c < 2 {
        SubstrateRule::LifeLonely
    } else if c > 3 {
        SubstrateRule::LifeCrowded
    } else if rootn > 0 && m.recovery && n <= 4 {
        SubstrateRule::LifeNursed
    } else {
        SubstrateRule::LifeMetabolizes
    }
}

/// The rule for a spore.
pub open spec fn spore_rule(n: int, c: int, nut: int, rootn: int, m: SubstrateMood) -> SubstrateRule {
    if c == 3 && rootn == 0 {
        SubstrateRule::SporeWakes
    } else if rootn > 1 {
        SubstrateRule::SporeRooted
    } else if rootn > 0 && m.recovery && nut > 0 {
        SubstrateRule::SporeNursed
    } else if n < 2 || n > 4 {
        SubstrateRule::SporeWithers
    } else {
        SubstrateRule::SporeMetabolizes
    }
}

/// The rule for a nutrient (`rich`: its energy is above 12).
pub open spec fn nutrient_rule(n: int, c: int, nut: int, dead: int, rootn: int, rich: bool, m: SubstrateMood) -> SubstrateRule {
    if c == 3 && rootn == 0 {
        SubstrateRule::NutrientWakes
    } else if rootn > 1 && m.populated {
        SubstrateRule::NutrientCleared
    } else if rootn > 0 && m.recovery && n >= 1 {
        SubstrateRule::NutrientNursed
    } else if ((n == 3 || c == 3) || (dead >= 2 && nut >= 2)) && rich {
        SubstrateRule::NutrientRipens
    } else if m.recovery && n >= 2 {
        SubstrateRule::NutrientSporulates
    } else {
        SubstrateRule::NutrientDecays
    }
}

/// The rule for a dead cell.
pub open spec fn dead_rule(n: int, c: int, nut: int, dead: int, rootn: int, m: SubstrateMood) -> SubstrateRule {
    if c == 3 || (dead >= 2 && nut >= 2) {
        SubstrateRule::DeadWakes
    } else if rootn > 0 && m.recovery {
        SubstrateRule::DeadRootCompost
    } else if nut >= 2 && n >= 2 {
        SubstrateRule::DeadCompost
    } else if m.recovery && dead >= 2 && m.sparse {
        SubstrateRule::DeadSparseCompost
    } else if dead > 5 {
        SubstrateRule::DeadCleared
    } else {
        SubstrateRule::DeadDecays
    }
}

/// The rule for a mutagen.
pub open spec fn mutagen_rule(n: int, rootn: int, m: SubstrateMood) -> SubstrateRule {
    if rootn > 0 && m.recovery {
        SubstrateRule::MutagenRooted
    } else if n == 3 {
        SubstrateRule::MutagenSporulates
    } else {
        SubstrateRule::MutagenDecays
    }
}

/// The rule for a nest.
pub open spec fn nest_rule(n: int, rootn: int, m: SubstrateMood) -> SubstrateRule {
    if rootn > 1 || n > 4 {
        SubstrateRule::NestCollapses
    } else if m.recovery && n >= 1 {
        SubstrateRule::NestNursed
    } else {
        SubstrateRule::NestDecays
    }
}

/// The rule for a root.
pub open spec fn root_rule(rootn: int, roll: int, m: SubstrateMood) -> SubstrateRule {
    if rootn > 4 {
        SubstrateRule::RootOvercrowded
    } else if m.root_count > m.root_cap && rootn > 2 && roll < 120 {
        SubstrateRule::RootCulled
    } else {
        SubstrateRule::RootMatures
    }
}

/// The kind a cell has after a rule (before running dry, see `dry_kind`).
pub open spec fn rule_kind(rule: SubstrateRule) -> CellKind {
    match rule {
        SubstrateRule::RootInvasion | SubstrateRule::RootSprout | SubstrateRule::RootOvercrowded
        | SubstrateRule::RootCulled | SubstrateRule::RootMatures => CellKind::Root,
        SubstrateRule::EmptyBirth | SubstrateRule::RootNurseBirth | SubstrateRule::SporeNurseBirth
        | SubstrateRule::LifeNursed | SubstrateRule::LifeMetabolizes | SubstrateRule::SporeWakes
        | SubstrateRule::SporeNursed | SubstrateRule::NutrientWakes | SubstrateRule::NutrientRipens
        | SubstrateRule::DeadWakes => CellKind::Life,
        SubstrateRule::NutrientBloom | SubstrateRule::SporeRooted | SubstrateRule::NutrientDecays
        | SubstrateRule::DeadRootCompost | SubstrateRule::DeadCompost | SubstrateRule::DeadSparseCompost => CellKind::Nutrient,
        SubstrateRule::SporeBloom | SubstrateRule::SporeMetabolizes
        | SubstrateRule::NutrientNursed | SubstrateRule::NutrientSporulates | SubstrateRule::MutagenRooted
        | SubstrateRule::MutagenSporulates => CellKind::Spore,
        SubstrateRule::StayEmpty | SubstrateRule::NutrientCleared | SubstrateRule::DeadCleared => CellKind::Empty,
        SubstrateRule::LifeLonely | SubstrateRule::LifeCrowded | SubstrateRule::SporeWithers | SubstrateRule::DeadDecays
        | SubstrateRule::NestCollapses => CellKind::Dead,
        SubstrateRule::MutagenDecays => CellKind::Mutagen,
        SubstrateRule::NestNursed | SubstrateRule::NestDecays => CellKind::Nest,
    }
}

/// The rules that restart a cell's age.
pub open spec fn resets_age(rule: SubstrateRule) -> bool {
    match rule {
        SubstrateRule::RootInvasion | SubstrateRule::RootSprout | SubstrateRule::EmptyBirth
        | SubstrateRule::RootNurseBirth | SubstrateRule::SporeNurseBirth | SubstrateRule::NutrientBloom
        | SubstrateRule::SporeBloom | SubstrateRule::SporeWakes | SubstrateRule::NutrientWakes
        | SubstrateRule::NutrientCleared | SubstrateRule::NutrientRipens | SubstrateRule::DeadWakes
        | SubstrateRule::DeadCleared => true,
        _ => false,
    }
}

/// The rules that give the cell the tribe its neighbourhood leans to.
pub open spec fn takes_lean(rule: SubstrateRule) -> bool {
    match rule {
        SubstrateRule::RootInvasion | SubstrateRule::RootSprout | SubstrateRule::EmptyBirth
        | SubstrateRule::RootNurseBirth | SubstrateRule::SporeNurseBirth | SubstrateRule::DeadWakes => true,
        _ => false,
    }
}

/// The rules that give the cell the tribe of its ground roll.
pub open spec fn takes_roll(rule: SubstrateRule) -> bool {
    rule == SubstrateRule::NutrientBloom || rule == SubstrateRule::SporeBloom
}

/// The kind a cell takes instead when its energy runs out under a draining rule.
pub open spec fn dry_kind(rule: SubstrateRule) -> Option<CellKind> {
    match rule {
        SubstrateRule::SporeMetabolizes => Some(CellKind::Dead),
        SubstrateRule::NutrientDecays | SubstrateRule::DeadDecays => Some(CellKind::Empty),
        SubstrateRule::MutagenDecays | SubstrateRule::NestDecays => Some(CellKind::Nutrient),
        _ => None,
    }
}

/// One more tick of age, saturating.
pub open spec fn age_up(a: u16) -> u16 {
    if a == u16::MAX { a } else { (a + 1) as u16 }
}

/// The step a rule makes of a cell of age `age` and tribe hint `hint`:
/// the rule's kind; the age restarted by the rules that restart it, then one
/// tick older unless the cell is empty or a root just claimed it; the tribe
/// the neighbourhood leans to, the ground roll's tribe, or the old hint.
pub open spec fn outcome(rule: SubstrateRule, age: u16, hint: usize, lean: usize, roll: usize, nut: usize) -> CellStep {
    let kind = rule_kind(rule);
    let base: u16 = if resets_age(rule) { 0 } else { age };
    CellStep {
        rule,
        kind,
        age: if rule == SubstrateRule::RootInvasion || kind == CellKind::Empty { base } else { age_up(base) },
        tribe_hint: if takes_lean(rule) { lean } else if takes_roll(rule) { roll % 6 } else { hint },
        nutrients: nut,
    }
}

/// The step once the caller found that the cell ran dry under a draining
/// rule: the dry kind, and age 0 if that kind is empty. Other steps stand.
pub open spec fn settled(s: CellStep) -> CellStep {
    match dry_kind(s.rule) {
        Some(k) => CellStep {
            rule: s.rule,
            kind: k,
            age: if k == CellKind::Empty { 0 } else { s.age },
            tribe_hint: s.tribe_hint,
            nutrients: s.nutrients,
        },
        None => s,
    }
}

/// The step a cell lands on once the caller reported whether it ran dry.
pub open spec fn landed(s: CellStep, dry: bool) -> CellStep {
    if dry { settled(s) } else { s }
}

impl SubstrateGrid {
    /// `next` is this grid after the planned steps `plan` landed, with the
    /// dry flags `dry`: same size, and each cell's kind, age and tribe hint
    /// those of its landed step.
    pub open spec fn lands_as(&self, plan: Seq<CellStep>, dry: Seq<bool>, next: SubstrateGrid) -> bool {
        &&& next.width == self.width
        &&& next.height == self.height
        &&& next.kinds@.len() == self.kinds@.len()
        &&& next.ages@.len() == self.ages@.len()
        &&& next.tribe_hints@.len() == self.tribe_hints@.len()
        &&& forall|i: int|
            0 <= i < self.kinds@.len() ==> {
                &&& #[trigger] next.kinds@[i] == landed(plan[i], dry[i]).kind
                &&& next.ages@[i] == landed(plan[i], dry[i]).age
                &&& next.tribe_hints@[i] == landed(plan[i], dry[i]).tribe_hint
            }
    }

    /// The steps `plan` are those `plan_tick` makes at `cycle` with the
    /// richness flags `rich`.
    pub open spec fn planned(&self, plan: Seq<CellStep>, cycle: u64, seed: u64, rich: Seq<bool>) -> bool {
        &&& plan.len() == self.kinds@.len()
        &&& forall|i: int|
            0 <= i < self.kinds@.len() ==> #[trigger] plan[i] == self.step_of(
                (i % (self.width as int)) as usize,
                (i / (self.width as int)) as usize,
                cycle,
                seed,
                rich[i],
                self.mood_of(),
            )
    }

    /// The mood of the grid: its living, total and root cells, the root cap
    /// of the standard policy, and the thresholds derived from them.
    pub open spec fn mood_of(&self) -> SubstrateMood {
        let total = self.kinds@.len();
        let living = self.living_total(total);
        SubstrateMood {
            living: living as usize,
            total: total as usize,
            root_count: self.kind_total(CellKind::Root, total) as usize,
            root_cap: root_cap_of(total as usize, self.width, standard_policy()),
            recovery: living < 1_400,
            bloom: living < 800,
            crowded: living * 50 > total * 41,
            populated: living * 50 > total * 7,
            sparse: living * 50 < total * 3,
        }
    }

    /// Whether a root grows into `(x, y)` on the given roll.
    pub open spec fn root_grows(&self, x: usize, y: usize, cycle: u64, seed: u64, m: SubstrateMood, roll: usize) -> bool {
        self.grows_trunk_root(
            x,
            y,
            cycle,
            seed,
            m.root_count,
            m.root_cap,
            self.kind_count(x as int, y as int, CellKind::Root) as usize,
            self.living_count(x as int, y as int) as usize,
            roll,
        )
    }

    /// The rule a tick applies at `(x, y)`.
    pub open spec fn rule_at(&self, x: usize, y: usize, cycle: u64, seed: u64, rich: bool, m: SubstrateMood) -> SubstrateRule {
        let xi = x as int;
        let yi = y as int;
        let k = self.kind_at(xi, yi);
        let n = self.living_count(xi, yi);
        let c = self.kind_count(xi, yi, CellKind::Life);
        let nut = self.kind_count(xi, yi, CellKind::Nutrient);
        let dead = self.kind_count(xi, yi, CellKind::Dead);
        let spore = self.kind_count(xi, yi, CellKind::Spore);
        let rootn = self.kind_count(xi, yi, CellKind::Root);
        if claimable(k, c) && self.root_grows(x, y, cycle, seed, m, invasion_roll(seed, cycle, x, y)) {
            SubstrateRule::RootInvasion
        } else {
            match k {
                CellKind::Empty => empty_rule(
                    self.root_grows(x, y, cycle, seed, m, ground_roll(seed, cycle, x, y)),
                    ground_roll(seed, cycle, x, y) as int,
                    n,
                    c,
                    nut,
                    spore,
                    rootn,
                    m,
                ),
                CellKind::Life => life_rule(n, c, rootn, m),
                CellKind::Spore => spore_rule(n, c, nut, rootn, m),
                CellKind::Nutrient => nutrient_rule(n, c, nut, dead, rootn, rich, m),
                CellKind::Dead => dead_rule(n, c, nut, dead, rootn, m),
                CellKind::Mutagen => mutagen_rule(n, rootn, m),
                CellKind::Nest => nest_rule(n, rootn, m),
                CellKind::Root => root_rule(rootn, cull_roll(seed, cycle, x, y) as int, m),
            }
        }
    }

    /// The step a tick makes at `(x, y)` (see `rule_at` and `outcome`).
    pub open spec fn step_of(&self, x: usize, y: usize, cycle: u64, seed: u64, rich: bool, m: SubstrateMood) -> CellStep {
        let i = y * self.width + x;
        outcome(
            self.rule_at(x, y, cycle, seed, rich, m),
            self.ages@[i],
            self.tribe_hints@[i],
            self.leaning_tribe(x as int, y as int) as usize,
            ground_roll(seed, cycle, x, y),
            self.kind_count(x as int, y as int, CellKind::Nutrient) as usize,
        )
    }

    /// At `(x, y)`, computing a root's growth phase does not overflow: the
    /// sum of cycle and phase is only formed on soft ground that is a root site.
    pub open spec fn phase_fits_at(&self, x: int, y: int, cycle: u64, seed: u64, m: SubstrateMood) -> bool {
        (claimable(self.kind_at(x, y), self.kind_count(x, y, CellKind::Life)) && self.trunk_root_site(
            x,
            y,
            m.root_count,
            m.root_cap,
            self.kind_count(x, y, CellKind::Root) as usize,
            self.living_count(x, y) as usize,
        )) ==> cycle + trunk_phase(seed, cycle, x as usize, y as usize) <= u64::MAX
    }

    /// A tick at `cycle` forms no overflowing growth phase anywhere.
    pub open spec fn tick_phases_fit(&self, cycle: u64, seed: u64) -> bool {
        forall|i: int|
            0 <= i < self.kinds@.len() ==> #[trigger] self.phase_fits_at(
                i % (self.width as int),
                i / (self.width as int),
                cycle,
                seed,
                self.mood_of(),
            )
    }
}


impl SubstrateRule {
    /// The kind a cell has after this rule (see `rule_kind`).
    pub fn kind(self) -> (r: CellKind)
        ensures
            r == rule_kind(self),
    {
        match self {
            SubstrateRule::RootInvasion | SubstrateRule::RootSprout | SubstrateRule::RootOvercrowded
            | SubstrateRule::RootCulled | SubstrateRule::RootMatures => CellKind::Root,
            SubstrateRule::EmptyBirth | SubstrateRule::RootNurseBirth | SubstrateRule::SporeNurseBirth
            | SubstrateRule::LifeNursed | SubstrateRule::LifeMetabolizes | SubstrateRule::SporeWakes
            | SubstrateRule::SporeNursed | SubstrateRule::NutrientWakes | SubstrateRule::NutrientRipens
            | SubstrateRule::DeadWakes => CellKind::Life,
            SubstrateRule::NutrientBloom | SubstrateRule::SporeRooted | SubstrateRule::NutrientDecays
            | SubstrateRule::DeadRootCompost | SubstrateRule::DeadCompost
            | SubstrateRule::DeadSparseCompost => CellKind::Nutrient,
            SubstrateRule::SporeBloom | SubstrateRule::SporeMetabolizes
            | SubstrateRule::NutrientNursed | SubstrateRule::NutrientSporulates
            | SubstrateRule::MutagenRooted | SubstrateRule::MutagenSporulates => CellKind::Spore,
            SubstrateRule::StayEmpty | SubstrateRule::NutrientCleared | SubstrateRule::DeadCleared => CellKind::Empty,
            SubstrateRule::LifeLonely | SubstrateRule::LifeCrowded | SubstrateRule::SporeWithers | SubstrateRule::DeadDecays
            | SubstrateRule::NestCollapses => CellKind::Dead,
            SubstrateRule::MutagenDecays => CellKind::Mutagen,
            SubstrateRule::NestNursed | SubstrateRule::NestDecays => CellKind::Nest,
        }
    }

    /// The kind a cell takes if it runs dry under this rule (see `dry_kind`).
    pub fn dry_kind(self) -> (r: Option<CellKind>)
        ensures
            r == dry_kind(self),
    {
        match self {
            SubstrateRule::SporeMetabolizes => Some(CellKind::Dead),
            SubstrateRule::NutrientDecays | SubstrateRule::DeadDecays => Some(CellKind::Empty),
            SubstrateRule::MutagenDecays | SubstrateRule::NestDecays => Some(CellKind::Nutrient),
            _ => None,
        }
    }

    fn restarts_age(self) -> (r: bool)
        ensures
            r == resets_age(self),
    {
        match self {
            SubstrateRule::RootInvasion | SubstrateRule::RootSprout | SubstrateRule::EmptyBirth
            | SubstrateRule::RootNurseBirth | SubstrateRule::SporeNurseBirth | SubstrateRule::NutrientBloom
            | SubstrateRule::SporeBloom | SubstrateRule::SporeWakes | SubstrateRule::NutrientWakes
            | SubstrateRule::NutrientCleared | SubstrateRule::NutrientRipens | SubstrateRule::DeadWakes
            | SubstrateRule::DeadCleared => true,
            _ => false,
        }
    }

    fn leans(self) -> (r: bool)
        ensures
            r == takes_lean(self),
    {
        match self {
            SubstrateRule::RootInvasion | SubstrateRule::RootSprout | SubstrateRule::EmptyBirth
            | SubstrateRule::RootNurseBirth | SubstrateRule::SporeNurseBirth | SubstrateRule::DeadWakes => true,
            _ => false,
        }
    }
}

/// The step once the caller found that the cell ran dry (see `settled`).
pub fn settle_dry(step: CellStep) -> (r: CellStep)
    ensures
        r == settled(step),
{
    match step.rule.dry_kind() {
        Some(k) => CellStep {
            rule: step.rule,
            kind: k,
            age: if k == CellKind::Empty { 0 } else { step.age },
            tribe_hint: step.tribe_hint,
            nutrients: step.nutrients,
        },
        None => step,
    }
}

fn pick_empty_rule(sprout: bool, roll: usize, n: usize, c: usize, nut: usize, spore: usize, rootn: usize, m: SubstrateMood) -> (r: SubstrateRule)
    ensures
        r == empty_rule(sprout, roll as int, n as int, c as int, nut as int, spore as int, rootn as int, m),
{
    if sprout {
        SubstrateRule::RootSprout
    } else if c == 3 || (n == 3 && nut >= 1) {
        SubstrateRule::EmptyBirth
    } else if m.recovery && rootn > 0 && nut > 0 {
        SubstrateRule::RootNurseBirth
    } else if m.recovery && nut >= 1 && spore >= 1 {
        SubstrateRule::SporeNurseBirth
    } else if m.bloom && roll < 160 {
        SubstrateRule::NutrientBloom
    } else if m.recovery && roll < 70 {
        SubstrateRule::SporeBloom
    } else {
        SubstrateRule::StayEmpty
    }
}

fn pick_life_rule(n: usize, c: usize, rootn: usize, m: SubstrateMood) -> (r: SubstrateRule)
    ensures
        r == life_rule(n as int, c as int, rootn as int, m),
{
    if c < 2 {
        SubstrateRule::LifeLonely
    } else if c > 3 {
        SubstrateRule::LifeCrowded
    } else if rootn > 0 && m.recovery && n <= 4 {
        SubstrateRule::LifeNursed
    } else {
        SubstrateRule::LifeMetabolizes
    }
}

fn pick_spore_rule(n: usize, c: usize, nut: usize, rootn: usize, m: SubstrateMood) -> (r: SubstrateRule)
    ensures
        r == spore_rule(n as int, c as int, nut as int, rootn as int, m),
{
    if c == 3 && rootn == 0 {
        SubstrateRule::SporeWakes
    } else if rootn > 1 {
        SubstrateRule::SporeRooted
    } else if rootn > 0 && m.recovery && nut > 0 {
        SubstrateRule::SporeNursed
    } else if n < 2 || n > 4 {
        SubstrateRule::SporeWithers
    } else {
        SubstrateRule::SporeMetabolizes
    }
}

fn pick_nutrient_rule(n: usize, c: usize, nut: usize, dead: usize, rootn: usize, rich: bool, m: SubstrateMood) -> (r: SubstrateRule)
    ensures
        r == nutrient_rule(n as int, c as int, nut as int, dead as int, rootn as int, rich, m),
{
    if c == 3 && rootn == 0 {
        SubstrateRule::NutrientWakes
    } else if rootn > 1 && m.populated {
        SubstrateRule::NutrientCleared
    } else if rootn > 0 && m.recovery && n >= 1 {
        SubstrateRule::NutrientNursed
    } else if ((n == 3 || c == 3) || (dead >= 2 && nut >= 2)) && rich {
        SubstrateRule::NutrientRipens
    } else if m.recovery && n >= 2 {
        SubstrateRule::NutrientSporulates
    } else {
        SubstrateRule::NutrientDecays
    }
}

fn pick_dead_rule(n: usize, c: usize, nut: usize, dead: usize, rootn: usize, m: SubstrateMood) -> (r: SubstrateRule)
    ensures
        r == dead_rule(n as int, c as int, nut as int, dead as int, rootn as int, m),
{
    if c == 3 || (dead >= 2 && nut >= 2) {
        SubstrateRule::DeadWakes
    } else if rootn > 0 && m.recovery {
        SubstrateRule::DeadRootCompost
    } else if nut >= 2 && n >= 2 {
        SubstrateRule::DeadCompost
    } else if m.recovery && dead >= 2 && m.sparse {
        SubstrateRule::DeadSparseCompost
    } else if dead > 5 {
        SubstrateRule::DeadCleared
    } else {
        SubstrateRule::DeadDecays
    }
}

fn pick_mutagen_rule(n: usize, rootn: usize, m: SubstrateMood) -> (r: SubstrateRule)
    ensures
        r == mutagen_rule(n as int, rootn as int, m),
{
    if rootn > 0 && m.recovery {
        SubstrateRule::MutagenRooted
    } else if n == 3 {
        SubstrateRule::MutagenSporulates
    } else {
        SubstrateRule::MutagenDecays
    }
}

fn pick_nest_rule(n: usize, rootn: usize, m: SubstrateMood) -> (r: SubstrateRule)
    ensures
        r == nest_rule(n as int, rootn as int, m),
{
    if rootn > 1 || n > 4 {
        SubstrateRule::NestCollapses
    } else if m.recovery && n >= 1 {
        SubstrateRule::NestNursed
    } else {
        SubstrateRule::NestDecays
    }
}

fn pick_root_rule(rootn: usize, roll: usize, m: SubstrateMood) -> (r: SubstrateRule)
    ensures
        r == root_rule(rootn as int, roll as int, m),
{
    if rootn > 4 {
        SubstrateRule::RootOvercrowded
    } else if m.root_count > m.root_cap && rootn > 2 && roll < 120 {
        SubstrateRule::RootCulled
    } else {
        SubstrateRule::RootMatures
    }
}

impl SubstrateGrid {
    /// The mood of the grid (see `mood_of`).
    pub fn mood(&self) -> (m: SubstrateMood)
        requires
            self.wf(),
        ensures
            m == self.mood_of(),
    {
        let living = self.living_cells();
        let total = self.kinds.len();
        let roots = self.count_kind(CellKind::Root);
        let cap = root_cap(total, self.width, TreePolicy::default());
        let l = living as u128;
        let t = total as u128;
        SubstrateMood {
            living,
            total,
            root_count: roots,
            root_cap: cap,
            recovery: living < 1_400,
            bloom: living < 800,
            crowded: l * 50 > t * 41,
            populated: l * 50 > t * 7,
            sparse: l * 50 < t * 3,
        }
    }

    /// The step a tick makes at `(x, y)`, given the grid's mood and whether
    /// the cell's energy is above 12 (see `step_of`).
    pub fn cell_step(&self, x: usize, y: usize, cycle: u64, seed: u64, rich: bool, m: SubstrateMood) -> (r: CellStep)
        requires
            self.wf(),
            x < self.width,
            y < self.height,
            m == self.mood_of(),
            self.phase_fits_at(x as int, y as int, cycle, seed, m),
        ensures
            r == self.step_of(x, y, cycle, seed, rich, m),
    {
        proof {
            crate::automata::lemma_grid_size(self.width as int, self.height as int);
            crate::automata::lemma_grid_index(x as int, y as int, self.width as int, self.height as int);
        }
        let i = y * self.width + x;
        let k = self.kinds[i];
        let n = self.alive_neighbors(x, y);
        let c = self.life_neighbors(x, y);
        let nut = self.kind_neighbors(x, y, CellKind::Nutrient);
        let dead = self.kind_neighbors(x, y, CellKind::Dead);
        let spore = self.kind_neighbors(x, y, CellKind::Spore);
        let rootn = self.kind_neighbors(x, y, CellKind::Root);
        let ground = hash(seed ^ cycle, x, y) % 10_000;
        let soft = match k {
            CellKind::Empty | CellKind::Nutrient | CellKind::Dead | CellKind::Spore => true,
            CellKind::Life => c < 2 || c > 3,
            _ => false,
        };
        let invaded = soft && self.should_grow_trunk_root(
            x,
            y,
            cycle,
            seed,
            m.root_count,
            m.root_cap,
            rootn,
            n,
            hash(seed ^ cycle ^ 0xA17E_5EED, x, y) % 10_000,
        );
        let rule = if invaded {
            SubstrateRule::RootInvasion
        } else {
            match k {
                CellKind::Empty => {
                    let sprout = self.should_grow_trunk_root(x, y, cycle, seed, m.root_count, m.root_cap, rootn, n, ground);
                    pick_empty_rule(sprout, ground, n, c, nut, spore, rootn, m)
                },
                CellKind::Life => pick_life_rule(n, c, rootn, m),
                CellKind::Spore => pick_spore_rule(n, c, nut, rootn, m),
                CellKind::Nutrient => pick_nutrient_rule(n, c, nut, dead, rootn, rich, m),
                CellKind::Dead => pick_dead_rule(n, c, nut, dead, rootn, m),
                CellKind::Mutagen => pick_mutagen_rule(n, rootn, m),
                CellKind::Nest => pick_nest_rule(n, rootn, m),
                CellKind::Root => pick_root_rule(rootn, hash(seed ^ cycle ^ 0xBEEF, x, y) % 10_000, m),
            }
        };
        let kind = rule.kind();
        let base: u16 = if rule.restarts_age() { 0 } else { self.ages[i] };
        let age: u16 = if rule == SubstrateRule::RootInvasion || kind == CellKind::Empty {
            base
        } else if base == u16::MAX {
            base
        } else {
            base + 1
        };
        let tribe_hint = if rule.leans() {
            self.local_tribe_hint(x, y)
        } else if rule == SubstrateRule::NutrientBloom || rule == SubstrateRule::SporeBloom {
            ground % 6
        } else {
            self.tribe_hints[i]
        };
        CellStep { rule, kind, age, tribe_hint, nutrients: nut }
    }

    /// Whether a tick at `cycle` forms no overflowing growth phase (see
    /// `tick_phases_fit`); where one would, the sum of cycle and phase overflows.
    pub fn phases_fit(&self, cycle: u64, seed: u64) -> (r: bool)
        requires
            self.wf(),
        ensures
            r == self.tick_phases_fit(cycle, seed),
    {
        let m = self.mood();
        let w = self.width;
        let len = self.kinds.len();
        let mut i: usize = 0;
        while i < len
            invariant
                self.wf(),
                w == self.width,
                len == self.kinds@.len(),
                m == self.mood_of(),
                0 <= i <= len,
                forall|j: int|
                    0 <= j < i ==> #[trigger] self.phase_fits_at(j % (w as int), j / (w as int), cycle, seed, m),
            decreases len - i,
        {
            proof {
                crate::life::lemma_row_major(i as int, w as int, self.height as int);
            }
            let x = i % w;
            let y = i / w;
            let k = self.kinds[i];
            let soft = match k {
                CellKind::Empty | CellKind::Nutrient | CellKind::Dead | CellKind::Spore => true,
                CellKind::Life => {
                    let c = self.life_neighbors(x, y);
                    c < 2 || c > 3
                },
                _ => false,
            };
            if soft {
                let n = self.alive_neighbors(x, y);
                let rootn = self.kind_neighbors(x, y, CellKind::Root);
                if self.trunk_site_ok(x, y, m.root_count, m.root_cap, rootn, n) {
                    let phase = hash(seed ^ 0x51A7_EEAFu64 ^ cycle, x, y) as u64;
                    if cycle.checked_add(phase).is_none() {
                        assert(!self.phase_fits_at(i as int % (w as int), i as int / (w as int), cycle, seed, m));
                        return false;
                    }
                }
            }
            i = i + 1;
        }
        true
    }

    /// The steps of a whole tick at `cycle`, in row-major order, given which
    /// cells have energy above 12 (see `step_of`).
    pub fn plan_tick(&self, cycle: u64, seed: u64, rich: &Vec<bool>) -> (r: Vec<CellStep>)
        requires
            self.wf(),
            rich@.len() == self.kinds@.len(),
            self.tick_phases_fit(cycle, seed),
        ensures
            r@.len() == self.kinds@.len(),
            forall|i: int|
                0 <= i < self.kinds@.len() ==> #[trigger] r@[i] == self.step_of(
                    (i % (self.width as int)) as usize,
                    (i / (self.width as int)) as usize,
                    cycle,
                    seed,
                    rich@[i],
                    self.mood_of(),
                ),
    {
        let m = self.mood();
        let w = self.width;
        let len = self.kinds.len();
        let mut out: Vec<CellStep> = Vec::new();
        let mut i: usize = 0;
        while i < len
            invariant
                self.wf(),
                w == self.width,
                len == self.kinds@.len(),
                rich@.len() == len,
                m == self.mood_of(),
                self.tick_phases_fit(cycle, seed),
                0 <= i <= len,
                out@.len() == i,
                forall|j: int|
                    0 <= j < i ==> #[trigger] out@[j] == self.step_of(
                        (j % (w as int)) as usize,
                        (j / (w as int)) as usize,
                        cycle,
                        seed,
                        rich@[j],
                        m,
                    ),
            decreases len - i,
        {
            proof {
                crate::life::lemma_row_major(i as int, w as int, self.height as int);
                assert(self.phase_fits_at(i as int % (w as int), i as int / (w as int), cycle, seed, self.mood_of()));
            }
            let s = self.cell_step(i % w, i / w, cycle, seed, rich[i], m);
            out.push(s);
            i = i + 1;
        }
        out
    }

    /// The cycle the next tick runs at: one past `cycle`, where that does
    /// not overflow and no growth phase of the tick overflows either;
    /// `None` otherwise.
    pub fn begin_tick(&self, cycle: u64, seed: u64) -> (r: Option<u64>)
        requires
            self.wf(),
        ensures
            r == (if cycle < u64::MAX && self.tick_phases_fit((cycle + 1) as u64, seed) {
                Some((cycle + 1) as u64)
            } else {
                None
            }),
    {
        if cycle == u64::MAX {
            return None;
        }
        let next = cycle + 1;
        if self.phases_fit(next, seed) {
            Some(next)
        } else {
            None
        }
    }

    /// Writes a planned tick back into the grid: every cell takes the kind,
    /// age and tribe hint of its step, settled where `dry` says it ran dry.
    pub fn apply_tick(&mut self, plan: &Vec<CellStep>, dry: &Vec<bool>)
        requires
            old(self).wf(),
            plan@.len() == old(self).kinds@.len(),
            dry@.len() == plan@.len(),
        ensures
            final(self).wf(),
            old(self).lands_as(plan@, dry@, *final(self)),
    {
        let len = self.kinds.len();
        let mut i: usize = 0;
        while i < len
            invariant
                old(self).wf(),
                len == old(self).kinds@.len(),
                plan@.len() == len,
                dry@.len() == len,
                self.width == old(self).width,
                self.height == old(self).height,
                self.kinds@.len() == len,
                self.ages@.len() == len,
                self.tribe_hints@.len() == len,
                0 <= i <= len,
                forall|j: int|
                    0 <= j < i ==> {
                        &&& #[trigger] self.kinds@[j] == landed(plan@[j], dry@[j]).kind
                        &&& self.ages@[j] == landed(plan@[j], dry@[j]).age
                        &&& self.tribe_hints@[j] == landed(plan@[j], dry@[j]).tribe_hint
                    },
            decreases len - i,
        {
            let step = if dry[i] { settle_dry(plan[i]) } else { plan[i] };
            self.kinds.set(i, step.kind);
            self.ages.set(i, step.age);
            self.tribe_hints.set(i, step.tribe_hint);
            i = i + 1;
        }
    }
}


/// Roots are permanent terrain: whatever rule a tick applies to a root, it
/// stays a root, and no root can run dry.
#[verifier::spinoff_prover]
pub proof fn law_roots_stay_roots(g: SubstrateGrid, x: usize, y: usize, cycle: u64, seed: u64, rich: bool, m: SubstrateMood)
    requires
        g.wf(),
        x < g.width,
        y < g.height,
        g.kind_at(x as int, y as int) == CellKind::Root,
    ensures
        g.step_of(x, y, cycle, seed, rich, m).kind == CellKind::Root,
        settled(g.step_of(x, y, cycle, seed, rich, m)).kind == CellKind::Root,
{
}

/// A live cell with fewer than two live neighbours dies of underpopulation,
/// unless a root claims its ground.
#[verifier::spinoff_prover]
pub proof fn law_underpopulation_kills(g: SubstrateGrid, x: usize, y: usize, cycle: u64, seed: u64, rich: bool, m: SubstrateMood)
    requires
        g.wf(),
        x < g.width,
        y < g.height,
        g.kind_at(x as int, y as int) == CellKind::Life,
        g.kind_count(x as int, y as int, CellKind::Life) < 2,
    ensures
        g.step_of(x, y, cycle, seed, rich, m).kind == CellKind::Dead
            || g.step_of(x, y, cycle, seed, rich, m).rule == SubstrateRule::RootInvasion,
        settled(g.step_of(x, y, cycle, seed, rich, m)).kind == g.step_of(x, y, cycle, seed, rich, m).kind,
{
}

/// A live cell with more than three live neighbours dies of overpopulation,
/// unless a root claims its ground.
#[verifier::spinoff_prover]
pub proof fn law_overpopulation_kills(g: SubstrateGrid, x: usize, y: usize, cycle: u64, seed: u64, rich: bool, m: SubstrateMood)
    requires
        g.wf(),
        x < g.width,
        y < g.height,
        g.kind_at(x as int, y as int) == CellKind::Life,
        g.kind_count(x as int, y as int, CellKind::Life) > 3,
    ensures
        g.step_of(x, y, cycle, seed, rich, m).kind == CellKind::Dead
            || g.step_of(x, y, cycle, seed, rich, m).rule == SubstrateRule::RootInvasion,
        settled(g.step_of(x, y, cycle, seed, rich, m)).kind == g.step_of(x, y, cycle, seed, rich, m).kind,
{
}

/// Empty or dead ground with exactly three live neighbours comes alive,
/// unless a root grows into it.
#[verifier::spinoff_prover]
pub proof fn law_birth_on_three(g: SubstrateGrid, x: usize, y: usize, cycle: u64, seed: u64, rich: bool, m: SubstrateMood)
    requires
        g.wf(),
        x < g.width,
        y < g.height,
        g.kind_at(x as int, y as int) == CellKind::Empty || g.kind_at(x as int, y as int) == CellKind::Dead,
        g.kind_count(x as int, y as int, CellKind::Life) == 3,
    ensures
        g.step_of(x, y, cycle, seed, rich, m).kind == CellKind::Life
            || g.step_of(x, y, cycle, seed, rich, m).kind == CellKind::Root,
        settled(g.step_of(x, y, cycle, seed, rich, m)).kind == g.step_of(x, y, cycle, seed, rich, m).kind,
{
}

/// A live cell with two or three live neighbours survives the tick: it
/// stays alive, no root claims it, and it cannot run dry.
#[verifier::spinoff_prover]
pub proof fn law_survival(g: SubstrateGrid, x: usize, y: usize, cycle: u64, seed: u64, rich: bool, m: SubstrateMood)
    requires
        g.wf(),
        x < g.width,
        y < g.height,
        g.kind_at(x as int, y as int) == CellKind::Life,
        2 <= g.kind_count(x as int, y as int, CellKind::Life) <= 3,
    ensures
        g.step_of(x, y, cycle, seed, rich, m).kind == CellKind::Life,
        settled(g.step_of(x, y, cycle, seed, rich, m)).kind == CellKind::Life,
{
}

/// Over a whole tick, whatever cells ran dry: a live cell with two or three
/// live neighbours is alive afterwards, and a root is still a root.
#[verifier::spinoff_prover]
pub proof fn law_tick_keeps_survivors_and_roots(
    g: SubstrateGrid,
    next: SubstrateGrid,
    plan: Seq<CellStep>,
    dry: Seq<bool>,
    cycle: u64,
    seed: u64,
    rich: Seq<bool>,
    x: usize,
    y: usize,
)
    requires
        g.wf(),
        x < g.width,
        y < g.height,
        g.planned(plan, cycle, seed, rich),
        g.lands_as(plan, dry, next),
    ensures
        g.kind_at(x as int, y as int) == CellKind::Life && 2 <= g.kind_count(x as int, y as int, CellKind::Life) <= 3
            ==> next.kind_at(x as int, y as int) == CellKind::Life,
        g.kind_at(x as int, y as int) == CellKind::Root ==> next.kind_at(x as int, y as int) == CellKind::Root,
{
    let w = g.width as int;
    let i = y * w + x;
    crate::automata::lemma_grid_index(x as int, y as int, w, g.height as int);
    vstd::arithmetic::div_mod::lemma_fundamental_div_mod_converse(i, w, y as int, x as int);
    assert(i % w == x && i / w == y);
    assert(plan[i] == g.step_of(x, y, cycle, seed, rich[i], g.mood_of()));
    if g.kind_at(x as int, y as int) == CellKind::Life && 2 <= g.kind_count(x as int, y as int, CellKind::Life) <= 3 {
        law_survival(g, x, y, cycle, seed, rich[i], g.mood_of());
    }
    if g.kind_at(x as int, y as int) == CellKind::Root {
        law_roots_stay_roots(g, x, y, cycle, seed, rich[i], g.mood_of());
    }
    assert(next.kinds@[i] == landed(plan[i], dry[i]).kind);
}

/// Roots only spread while the substrate holds fewer roots than its cap.
#[verifier::spinoff_prover]
pub proof fn law_root_spread_capped(g: SubstrateGrid, x: usize, y: usize, cycle: u64, seed: u64, rich: bool, m: SubstrateMood)
    requires
        g.wf(),
        x < g.width,
        y < g.height,
        g.kind_at(x as int, y as int) != CellKind::Root,
        g.step_of(x, y, cycle, seed, rich, m).kind == CellKind::Root,
    ensures
        m.root_count < m.root_cap,
{
    let r = g.rule_at(x, y, cycle, seed, rich, m);
    assert(rule_kind(r) == CellKind::Root);
    if r == SubstrateRule::RootInvasion {
        assert(g.root_grows(x, y, cycle, seed, m, invasion_roll(seed, cycle, x, y)));
    } else {
        assert(g.kind_at(x as int, y as int) == CellKind::Empty);
        assert(r == SubstrateRule::RootSprout);
        assert(g.root_grows(x, y, cycle, seed, m, ground_roll(seed, cycle, x, y)));
    }
}


/// The kind a particle's deposit turns a cell into, or `None` where the
/// cell refuses it. `energy_ceil` is the particle's energy rounded up, so
/// that `energy_ceil > t` exactly when the energy exceeds a whole `t`.
/// Roots refuse everything; empty ground takes anything; dead cells take a
/// particle above 80, nutrients a grazer or mycelial one, mutagens a rare
/// one, and living cells one above 125. A rare particle above 110 leaves a
/// mutagen; otherwise the archetype decides.
pub open spec fn deposit_of(current: CellKind, archetype: Option<Archetype>, rare: bool, energy_ceil: u32) -> Option<CellKind> {
    let allowed = match current {
        CellKind::Empty => true,
        CellKind::Dead => energy_ceil > 80,
        CellKind::Nutrient => archetype == Some(Archetype::Grazer) || archetype == Some(Archetype::Mycelial),
        CellKind::Mutagen => rare,
        CellKind::Life | CellKind::Spore | CellKind::Nest => energy_ceil > 125,
        CellKind::Root => false,
    };
    if !allowed {
        None
    } else if rare && energy_ceil > 110 {
        Some(CellKind::Mutagen)
    } else {
        Some(
            match archetype {
                Some(Archetype::Grazer) | Some(Archetype::Harvester) => CellKind::Nutrient,
                Some(Archetype::Hunter) | Some(Archetype::Reaper) => CellKind::Dead,
                Some(Archetype::Architect) | Some(Archetype::Leviathan) => CellKind::Nest,
                Some(Archetype::Mycelial) => CellKind::Spore,
                Some(Archetype::Phantom) => CellKind::Mutagen,
                _ => CellKind::Life,
            },
        )
    }
}

/// The kind a particle's deposit turns a cell into (see `deposit_of`).
pub fn deposit_kind(current: CellKind, archetype: Option<Archetype>, rare: bool, energy_ceil: u32) -> (r: Option<CellKind>)
    ensures
        r == deposit_of(current, archetype, rare, energy_ceil),
{
    let allowed = match current {
        CellKind::Empty => true,
        CellKind::Dead => energy_ceil > 80,
        CellKind::Nutrient => match archetype {
            Some(Archetype::Grazer) | Some(Archetype::Mycelial) => true,
            _ => false,
        },
        CellKind::Mutagen => rare,
        CellKind::Life | CellKind::Spore | CellKind::Nest => energy_ceil > 125,
        CellKind::Root => false,
    };
    if !allowed {
        None
    } else if rare && energy_ceil > 110 {
        Some(CellKind::Mutagen)
    } else {
        Some(
            match archetype {
                Some(Archetype::Grazer) | Some(Archetype::Harvester) => CellKind::Nutrient,
                Some(Archetype::Hunter) | Some(Archetype::Reaper) => CellKind::Dead,
                Some(Archetype::Architect) | Some(Archetype::Leviathan) => CellKind::Nest,
                Some(Archetype::Mycelial) => CellKind::Spore,
                Some(Archetype::Phantom) => CellKind::Mutagen,
                _ => CellKind::Life,
            },
        )
    }
}

/// The signal a deposit raises on its cell, by the depositor's archetype.
pub open spec fn deposit_signal_of(archetype: Option<Archetype>) -> Option<SignalKind> {
    match archetype {
        Some(Archetype::Harvester) => Some(SignalKind::Hunger),
        Some(Archetype::Reaper) => Some(SignalKind::Fear),
        Some(Archetype::Grazer) | Some(Archetype::Mycelial) | Some(Archetype::Architect)
        | Some(Archetype::Leviathan) => Some(SignalKind::Growth),
        Some(Archetype::Hunter) | Some(Archetype::Parasite) => Some(SignalKind::Danger),
        _ => None,
    }
}

/// The signal a deposit raises (see `deposit_signal_of`).
pub fn deposit_signal(archetype: Option<Archetype>) -> (r: Option<SignalKind>)
    ensures
        r == deposit_signal_of(archetype),
{
    match archetype {
        Some(Archetype::Harvester) => Some(SignalKind::Hunger),
        Some(Archetype::Reaper) => Some(SignalKind::Fear),
        Some(Archetype::Grazer) | Some(Archetype::Mycelial) | Some(Archetype::Architect)
        | Some(Archetype::Leviathan) => Some(SignalKind::Growth),
        Some(Archetype::Hunter) | Some(Archetype::Parasite) => Some(SignalKind::Danger),
        _ => None,
    }
}

/// What eating a cell does: `None` for empty ground, roots and the kinds
/// that regenerate the substrate; otherwise the kind eaten and the kind left
/// behind. Everything edible is removed when eaten: composted, life and
/// nests leave a dead cell and mutagens a nutrient; otherwise empty ground.
pub open spec fn consumed_of(kind: CellKind, compost: bool) -> Option<(CellKind, CellKind)> {
    if kind == CellKind::Empty || kind == CellKind::Root || kind == CellKind::Dead || kind == CellKind::Nutrient
        || kind == CellKind::Spore {
        None
    } else if !compost {
        Some((kind, CellKind::Empty))
    } else if kind == CellKind::Mutagen {
        Some((kind, CellKind::Nutrient))
    } else {
        Some((kind, CellKind::Dead))
    }
}

/// What eating a cell does (see `consumed_of`).
pub fn consume_outcome(kind: CellKind, compost: bool) -> (r: Option<(CellKind, CellKind)>)
    ensures
        r == consumed_of(kind, compost),
{
    if kind == CellKind::Empty || kind.is_protected() || kind.is_regenerative() {
        return None;
    }
    let left = if compost {
        match kind {
            CellKind::Life | CellKind::Nest => CellKind::Dead,
            CellKind::Mutagen => CellKind::Nutrient,
            _ => kind,
        }
    } else {
        CellKind::Empty
    };
    Some((kind, left))
}

/// Which cells take a particle's deposit: empty ground always, dead ground
/// above 80 energy, nutrients only from grazers and mycelials, mutagens only
/// from rare particles, life, spores and nests above 125 energy, and roots
/// never.
pub proof fn law_deposit_acceptance(current: CellKind, archetype: Option<Archetype>, rare: bool, energy_ceil: u32)
    ensures
        current == CellKind::Empty ==> deposit_of(current, archetype, rare, energy_ceil) is Some,
        current == CellKind::Root ==> deposit_of(current, archetype, rare, energy_ceil) is None,
        current == CellKind::Dead ==> (deposit_of(current, archetype, rare, energy_ceil) is Some <==> energy_ceil > 80),
        current == CellKind::Nutrient ==> (deposit_of(current, archetype, rare, energy_ceil) is Some <==> (archetype
            == Some(Archetype::Grazer) || archetype == Some(Archetype::Mycelial))),
        current == CellKind::Mutagen ==> (deposit_of(current, archetype, rare, energy_ceil) is Some <==> rare),
        current == CellKind::Life || current == CellKind::Spore || current == CellKind::Nest
            ==> (deposit_of(current, archetype, rare, energy_ceil) is Some <==> energy_ceil > 125),
{
}

/// What an accepted deposit leaves: a mutagen from a rare particle above
/// 110 energy; otherwise a nest from architects and leviathans, nutrient
/// from grazers and harvesters, a dead cell from hunters and reapers, a
/// spore from mycelials, a mutagen from phantoms, and life from every other
/// particle (swarmers, orbiters, parasites and those of no species).
pub proof fn law_deposit_leaves(current: CellKind, archetype: Option<Archetype>, rare: bool, energy_ceil: u32)
    requires
        deposit_of(current, archetype, rare, energy_ceil) is Some,
    ensures
        rare && energy_ceil > 110 ==> deposit_of(current, archetype, rare, energy_ceil) == Some(CellKind::Mutagen),
        !(rare && energy_ceil > 110) ==> {
            let left = deposit_of(current, archetype, rare, energy_ceil)->0;
            &&& (archetype == Some(Archetype::Architect) || archetype == Some(Archetype::Leviathan)) ==> left
                == CellKind::Nest
            &&& (archetype == Some(Archetype::Grazer) || archetype == Some(Archetype::Harvester)) ==> left
                == CellKind::Nutrient
            &&& (archetype == Some(Archetype::Hunter) || archetype == Some(Archetype::Reaper)) ==> left
                == CellKind::Dead
            &&& archetype == Some(Archetype::Mycelial) ==> left == CellKind::Spore
            &&& archetype == Some(Archetype::Phantom) ==> left == CellKind::Mutagen
            &&& (archetype is None || archetype == Some(Archetype::Swarmer) || archetype == Some(Archetype::Orbiter)
                || archetype == Some(Archetype::Parasite)) ==> left == CellKind::Life
        },
{
}

/// Eating never touches protected or regenerating ground, and never leaves
/// a living cell behind.
pub proof fn law_eating_spares_terrain(kind: CellKind, compost: bool)
    ensures
        (kind == CellKind::Root || kind == CellKind::Dead || kind == CellKind::Nutrient || kind
            == CellKind::Spore) ==> consumed_of(kind, compost) is None,
        consumed_of(kind, compost) matches Some((eaten, left)) ==> eaten == kind && !living_kind(left),
{
}

} // verus!
