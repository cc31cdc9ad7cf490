//! The vocabulary of the Conway-inspired morphology layer: pattern kinds,
//! their motion, and the visual roles of occupied screen cells.

use vstd::prelude::*;

verus! {

/// A morphology pattern recognised in a neighbourhood.
#[derive(Clone, Copy, Debug, PartialEq, Eq, Structural)]
pub enum PatternKind {
    Dormant,
    StillLife,
    Oscillator,
    Glider,
    Halo,
    Lattice,
    Bloom,
    Chain,
    Swarmfront,
    Nest,
}

impl PatternKind {
    /// The pattern's name.
    pub fn name(self) -> (r: &'static str)
        ensures
            self == PatternKind::Dormant ==> r@ == "Dormant"@,
            self == PatternKind::StillLife ==> r@ == "StillLife"@,
            self == PatternKind::Oscillator ==> r@ == "Oscillator"@,
            self == PatternKind::Glider ==> r@ == "Glider"@,
            self == PatternKind::Halo ==> r@ == "Halo"@,
            self == PatternKind::Lattice ==> r@ == "Lattice"@,
            self == PatternKind::Bloom ==> r@ == "Bloom"@,
            self == PatternKind::Chain ==> r@ == "Chain"@,
            self == PatternKind::Swarmfront ==> r@ == "Swarmfront"@,
            self == PatternKind::Nest ==> r@ == "Nest"@,
    {
        match self {
            PatternKind::Dormant => "Dormant",
            PatternKind::StillLife => "StillLife",
            PatternKind::Oscillator => "Oscillator",
            PatternKind::Glider => "Glider",
            PatternKind::Halo => "Halo",
            PatternKind::Lattice => "Lattice",
            PatternKind::Bloom => "Bloom",
            PatternKind::Chain => "Chain",
            PatternKind::Swarmfront => "Swarmfront",
            PatternKind::Nest => "Nest",
        }
    }

    /// The three-letter tag of the pattern.
    pub fn short(self) -> (r: &'static str)
        ensures
            self == PatternKind::Dormant ==> r@ == "DRM"@,
            self == PatternKind::StillLife ==> r@ == "STL"@,
            self == PatternKind::Oscillator ==> r@ == "OSC"@,
            self == PatternKind::Glider ==> r@ == "GLD"@,
            self == PatternKind::Halo ==> r@ == "HAL"@,
            self == PatternKind::Lattice ==> r@ == "LAT"@,
            self == PatternKind::Bloom ==> r@ == "BLM"@,
            self == PatternKind::Chain ==> r@ == "CHN"@,
            self == PatternKind::Swarmfront ==> r@ == "SWF"@,
            self == PatternKind::Nest ==> r@ == "NST"@,
    {
        match self {
            PatternKind::Dormant => "DRM",
            PatternKind::StillLife => "STL",
            PatternKind::Oscillator => "OSC",
            PatternKind::Glider => "GLD",
            PatternKind::Halo => "HAL",
            PatternKind::Lattice => "LAT",
            PatternKind::Bloom => "BLM",
            PatternKind::Chain => "CHN",
            PatternKind::Swarmfront => "SWF",
            PatternKind::Nest => "NST",
        }
    }
}

impl Default for PatternKind {
    fn default() -> (r: Self)
        ensures
            r == PatternKind::Dormant,
    {
        PatternKind::Dormant
    }
}

/// How a recognised pattern moves.
#[derive(Clone, Copy, Debug, PartialEq, Eq, Structural)]
pub enum PatternMotion {
    Static,
    Pulse,
    Drift,
    Translate,
    Expand,
    Contract,
}

impl PatternMotion {
    /// The lower-case name of the motion.
    pub fn name(self) -> (r: &'static str)
        ensures
            self == PatternMotion::Static ==> r@ == "static"@,
            self == PatternMotion::Pulse ==> r@ == "pulse"@,
            self == PatternMotion::Drift ==> r@ == "drift"@,
            self == PatternMotion::Translate ==> r@ == "translate"@,
            self == PatternMotion::Expand ==> r@ == "expand"@,
            self == PatternMotion::Contract ==> r@ == "contract"@,
    {
        match self {
            PatternMotion::Static => "static",
            PatternMotion::Pulse => "pulse",
            PatternMotion::Drift => "drift",
            PatternMotion::Translate => "translate",
            PatternMotion::Expand => "expand",
            PatternMotion::Contract => "contract",
        }
    }
}

impl Default for PatternMotion {
    fn default() -> (r: Self)
        ensures
            r == PatternMotion::Static,
    {
        PatternMotion::Static
    }
}

/// The visual role of an occupied screen cell.
#[derive(Clone, Copy, Debug, PartialEq, Eq, Structural)]
pub enum MorphologyRole {
    Dormant,
    Anchor,
    Oscillator,
    Migrator,
    Seeder,
    Membrane,
    PredatorFront,
}

/// The glyph a morphology role shows at a world age and visual phase, or
/// nothing (the cell stays blank) for the gaps of each role's cycle.
pub open spec fn morphology_glyph(role: MorphologyRole, age: u64, phase: usize) -> Option<char> {
    match role {
        MorphologyRole::Dormant => None,
        MorphologyRole::Anchor => if phase % 5 <= 3 { Some('●') } else { Some('•') },
        MorphologyRole::Oscillator => if (age / 4 + phase) % 2 == 0 { Some('◐') } else { Some('◑') },
        MorphologyRole::Migrator => {
            let p = phase % 4;
            if p == 0 { Some('›') } else if p == 1 { Some('»') } else if p == 2 { Some('·') } else { None }
        },
        MorphologyRole::Seeder => {
            let p = phase % 5;
            if p == 0 { Some('✦') } else if p == 1 { Some('✧') } else if p == 2 { Some('∙') } else { None }
        },
        MorphologyRole::Membrane => {
            let p = phase % 4;
            if p == 0 { Some('◎') } else if p == 1 { Some('◉') } else if p == 2 { Some('◌') } else { Some('○') }
        },
        MorphologyRole::PredatorFront => {
            let p = phase % 4;
            if p == 0 { Some('▲') } else if p == 1 { Some('ϟ') } else if p == 2 { Some('Ω') } else { None }
        },
    }
}

/// The glyph a morphology role shows at a world age and visual phase.
pub fn morphology_render_glyph(role: MorphologyRole, age: u64, phase: usize) -> (r: Option<char>)
    requires
        role == MorphologyRole::Oscillator ==> age / 4 + phase <= u64::MAX,
    ensures
        r == morphology_glyph(role, age, phase),
{
    match role {
        MorphologyRole::Dormant => None,
        MorphologyRole::Anchor => {
            if phase % 5 <= 3 {
                Some('●')
            } else {
                Some('•')
            }
        },
        MorphologyRole::Oscillator => {
            if (age / 4 + phase as u64) % 2 == 0 {
                Some('◐')
            } else {
                Some('◑')
            }
        },
        MorphologyRole::Migrator => match phase % 4 {
            0 => Some('›'),
            1 => Some('»'),
            2 => Some('·'),
            _ => None,
        },
        MorphologyRole::Seeder => match phase % 5 {
            0 => Some('✦'),
            1 => Some('✧'),
            2 => Some('∙'),
            _ => None,
        },
        MorphologyRole::Membrane => match phase % 4 {
            0 => Some('◎'),
            1 => Some('◉'),
            2 => Some('◌'),
            _ => Some('○'),
        },
        MorphologyRole::PredatorFront => match phase % 4 {
            0 => Some('▲'),
            1 => Some('ϟ'),
            2 => Some('Ω'),
            _ => None,
        },
    }
}

/// The integer thresholds of the adapted Conway rule.
#[derive(Clone, Copy, Debug, PartialEq, Eq, Structural)]
pub struct PatternThresholds {
    pub birth_min: u8,
    pub birth_max: u8,
    pub survive_min: u8,
    pub survive_max: u8,
}

/// The standard thresholds: birth on 3 or 4 live neighbours, survival on 2 to 5.
pub open spec fn standard_thresholds() -> PatternThresholds {
    PatternThresholds { birth_min: 3, birth_max: 4, survive_min: 2, survive_max: 5 }
}

impl Default for PatternThresholds {
    fn default() -> (r: Self)
        ensures
            r == standard_thresholds(),
    {
        PatternThresholds { birth_min: 3, birth_max: 4, survive_min: 2, survive_max: 5 }
    }
}

/// The outcome flags of the adapted Conway rule for one cell.
#[derive(Clone, Copy, Debug, PartialEq, Eq, Structural)]
pub struct RuleFlags {
    pub survives: bool,
    pub birth: bool,
    pub starves: bool,
    pub overcrowded: bool,
}

/// The adapted Conway rule: a root cell does nothing; a live cell survives
/// with a live-neighbour count within the survival band, starves below it
/// and is overcrowded above it; a dead cell is born with a count within the
/// birth band unless five or more roots surround it.
pub open spec fn conway_flags(root: bool, alive: bool, live: u8, root_neighbors: u8, t: PatternThresholds) -> RuleFlags {
    if root {
        RuleFlags { survives: false, birth: false, starves: false, overcrowded: false }
    } else if alive {
        RuleFlags {
            survives: t.survive_min <= live && live <= t.survive_max,
            birth: false,
            starves: live < t.survive_min,
            overcrowded: live > t.survive_max,
        }
    } else {
        RuleFlags {
            survives: false,
            birth: t.birth_min <= live && live <= t.birth_max && root_neighbors < 5,
            starves: false,
            overcrowded: false,
        }
    }
}

/// The flags of the adapted Conway rule (see `conway_flags`).
pub fn conway_rule_flags(root: bool, alive: bool, live_neighbors: u8, root_neighbors: u8, thresholds: PatternThresholds) -> (r: RuleFlags)
    ensures
        r == conway_flags(root, alive, live_neighbors, root_neighbors, thresholds),
{
    if root {
        return RuleFlags { survives: false, birth: false, starves: false, overcrowded: false };
    }
    let live = live_neighbors;
    if alive {
        RuleFlags {
            survives: live >= thresholds.survive_min && live <= thresholds.survive_max,
            birth: false,
            starves: live < thresholds.survive_min,
            overcrowded: live > thresholds.survive_max,
        }
    } else {
        RuleFlags {
            survives: false,
            birth: live >= thresholds.birth_min && live <= thresholds.birth_max && root_neighbors < 5,
            starves: false,
            overcrowded: false,
        }
    }
}

/// A cell never both survives and is born, and a live cell that does not
/// survive either starved or was overcrowded.
pub proof fn law_rule_flags_exclusive(root: bool, alive: bool, live: u8, root_neighbors: u8, t: PatternThresholds)
    ensures
        !(conway_flags(root, alive, live, root_neighbors, t).survives && conway_flags(
            root,
            alive,
            live,
            root_neighbors,
            t,
        ).birth),
        !root && alive && !conway_flags(root, alive, live, root_neighbors, t).survives ==> (conway_flags(
            root,
            alive,
            live,
            root_neighbors,
            t,
        ).starves || conway_flags(root, alive, live, root_neighbors, t).overcrowded),
{
}


/// The glyph of a pattern kind at a tick: oscillators flip every tick and
/// halos pulse every third tick; the other kinds are steady.
pub open spec fn pattern_glyph_of(kind: PatternKind, tick: u64) -> char {
    match kind {
        PatternKind::Dormant => '.',
        PatternKind::StillLife => '■',
        PatternKind::Oscillator => if tick % 2 == 0 { '◆' } else { '◇' },
        PatternKind::Glider => '➤',
        PatternKind::Halo => if tick % 3 == 0 { '◉' } else { '○' },
        PatternKind::Lattice => '▦',
        PatternKind::Bloom => '✦',
        PatternKind::Chain => '⛓',
        PatternKind::Swarmfront => '≫',
        PatternKind::Nest => '◎',
    }
}

/// The glyph of a pattern kind at a tick (see `pattern_glyph_of`).
pub fn pattern_glyph(kind: PatternKind, tick: u64) -> (r: char)
    ensures
        r == pattern_glyph_of(kind, tick),
{
    match kind {
        PatternKind::Dormant => '.',
        PatternKind::StillLife => '■',
        PatternKind::Oscillator => if tick % 2 == 0 { '◆' } else { '◇' },
        PatternKind::Glider => '➤',
        PatternKind::Halo => if tick % 3 == 0 { '◉' } else { '○' },
        PatternKind::Lattice => '▦',
        PatternKind::Bloom => '✦',
        PatternKind::Chain => '⛓',
        PatternKind::Swarmfront => '≫',
        PatternKind::Nest => '◎',
    }
}

/// What the pattern layer reads of an occupied cell.
#[derive(Clone, Copy, Debug, PartialEq, Eq, Structural)]
pub struct PatternTraits {
    pub alive: bool,
    pub clustered: bool,
    pub rare: bool,
    pub predator: bool,
    pub harvester: bool,
    pub root: bool,
}

impl PatternTraits {
    /// A cell with nothing in it.
    pub fn empty() -> (r: Self)
        ensures
            r == (PatternTraits { alive: false, clustered: false, rare: false, predator: false, harvester: false, root: false }),
    {
        PatternTraits { alive: false, clustered: false, rare: false, predator: false, harvester: false, root: false }
    }

    /// A live cell with no other trait.
    pub fn occupied() -> (r: Self)
        ensures
            r == (PatternTraits { alive: true, clustered: false, rare: false, predator: false, harvester: false, root: false }),
    {
        PatternTraits { alive: true, clustered: false, rare: false, predator: false, harvester: false, root: false }
    }

    /// A cell blocked by a root.
    pub fn blocked_root() -> (r: Self)
        ensures
            r == (PatternTraits { alive: false, clustered: false, rare: false, predator: false, harvester: false, root: true }),
    {
        PatternTraits { alive: false, clustered: false, rare: false, predator: false, harvester: false, root: true }
    }

    /// A cell counts as alive when it is alive and not a root.
    pub fn effective_alive(self) -> (r: bool)
        ensures
            r == (self.alive && !self.root),
    {
        self.alive && !self.root
    }
}

/// How many of a cell's neighbours carry each trait.
#[derive(Clone, Copy, Debug, PartialEq, Eq, Structural)]
pub struct NeighbourCounts {
    pub live: u8,
    pub clustered: u8,
    pub rare: u8,
    pub predator: u8,
    pub harvester: u8,
    pub root: u8,
}

/// The neighbour of `(x, y)` at offset `(dx, dy)` in a row-major grid
/// `w` wide and `h` tall, or nothing past its edges (the grid does not wrap).
pub open spec fn neighbour_at(cells: Seq<PatternTraits>, w: int, h: int, x: int, y: int, dx: int, dy: int) -> Option<PatternTraits> {
    if 0 <= x + dx < w && 0 <= y + dy < h {
        Some(cells[(y + dy) * w + (x + dx)])
    } else {
        None
    }
}

/// The traits the neighbour counts tally.
#[derive(Clone, Copy, Debug, PartialEq, Eq, Structural)]
pub enum NeighbourTrait {
    Live,
    Clustered,
    Rare,
    Predator,
    Harvester,
    Root,
}

/// Whether a cell carries a trait; a live cell is alive and not a root.
pub open spec fn has_trait(t: PatternTraits, k: NeighbourTrait) -> bool {
    match k {
        NeighbourTrait::Live => t.alive && !t.root,
        NeighbourTrait::Clustered => t.clustered,
        NeighbourTrait::Rare => t.rare,
        NeighbourTrait::Predator => t.predator,
        NeighbourTrait::Harvester => t.harvester,
        NeighbourTrait::Root => t.root,
    }
}

/// 1 for a neighbour that exists and carries the trait, else 0.
pub open spec fn hit(o: Option<PatternTraits>, k: NeighbourTrait) -> int {
    match o {
        Some(t) => if has_trait(t, k) { 1 } else { 0 },
        None => 0,
    }
}

/// The number of the (up to eight) neighbours of `(x, y)` carrying a trait.
pub open spec fn trait_count(cells: Seq<PatternTraits>, w: int, h: int, x: int, y: int, k: NeighbourTrait) -> int {
    hit(neighbour_at(cells, w, h, x, y, -1, -1), k) + hit(neighbour_at(cells, w, h, x, y, 0, -1), k)
        + hit(neighbour_at(cells, w, h, x, y, 1, -1), k) + hit(neighbour_at(cells, w, h, x, y, -1, 0), k)
        + hit(neighbour_at(cells, w, h, x, y, 1, 0), k) + hit(neighbour_at(cells, w, h, x, y, -1, 1), k)
        + hit(neighbour_at(cells, w, h, x, y, 0, 1), k) + hit(neighbour_at(cells, w, h, x, y, 1, 1), k)
}

/// The neighbour counts of `(x, y)`: live (alive and not a root),
/// clustered, rare, predator, harvester and root neighbours.
pub open spec fn neighbourhood_of(cells: Seq<PatternTraits>, w: int, h: int, x: int, y: int) -> NeighbourCounts {
    NeighbourCounts {
        live: trait_count(cells, w, h, x, y, NeighbourTrait::Live) as u8,
        clustered: trait_count(cells, w, h, x, y, NeighbourTrait::Clustered) as u8,
        rare: trait_count(cells, w, h, x, y, NeighbourTrait::Rare) as u8,
        predator: trait_count(cells, w, h, x, y, NeighbourTrait::Predator) as u8,
        harvester: trait_count(cells, w, h, x, y, NeighbourTrait::Harvester) as u8,
        root: trait_count(cells, w, h, x, y, NeighbourTrait::Root) as u8,
    }
}

fn neighbour(cells: &Vec<PatternTraits>, width: isize, height: isize, x: isize, y: isize, dx: isize, dy: isize) -> (r: Option<PatternTraits>)
    requires
        width >= 0,
        height >= 0,
        cells@.len() == width * height,
        isize::MIN < x < isize::MAX,
        isize::MIN < y < isize::MAX,
        -1 <= dx <= 1,
        -1 <= dy <= 1,
    ensures
        r == neighbour_at(cells@, width as int, height as int, x as int, y as int, dx as int, dy as int),
{
    let nx = x + dx;
    let ny = y + dy;
    if nx < 0 || ny < 0 || nx >= width || ny >= height {
        return None;
    }
    let n = cells.len();
    assert(0 <= ny * width <= ny * width + nx < n) by (nonlinear_arith)
        requires
            0 <= nx < width,
            0 <= ny < height,
            n == width * height,
    {
    }
    Some(cells[(ny as usize) * (width as usize) + (nx as usize)])
}

fn bit(b: bool) -> (r: u8)
    ensures
        r == (if b { 1u8 } else { 0u8 }),
{
    if b { 1 } else { 0 }
}

fn add_neighbour(c: NeighbourCounts, n: Option<PatternTraits>) -> (r: NeighbourCounts)
    requires
        c.live < 8 && c.clustered < 8 && c.rare < 8 && c.predator < 8 && c.harvester < 8 && c.root < 8,
    ensures
        r.live == c.live + hit(n, NeighbourTrait::Live),
        r.clustered == c.clustered + hit(n, NeighbourTrait::Clustered),
        r.rare == c.rare + hit(n, NeighbourTrait::Rare),
        r.predator == c.predator + hit(n, NeighbourTrait::Predator),
        r.harvester == c.harvester + hit(n, NeighbourTrait::Harvester),
        r.root == c.root + hit(n, NeighbourTrait::Root),
{
    match n {
        Some(t) => NeighbourCounts {
            live: c.live + bit(t.effective_alive()),
            clustered: c.clustered + bit(t.clustered),
            rare: c.rare + bit(t.rare),
            predator: c.predator + bit(t.predator),
            harvester: c.harvester + bit(t.harvester),
            root: c.root + bit(t.root),
        },
        None => c,
    }
}

/// The neighbour counts of `(x, y)` in a row-major grid of traits
/// `width` by `height` (see `neighbourhood_of`).
pub fn sample_neighborhood(x: isize, y: isize, width: isize, height: isize, cells: &Vec<PatternTraits>) -> (r: NeighbourCounts)
    requires
        width >= 0,
        height >= 0,
        cells@.len() == width * height,
        isize::MIN < x < isize::MAX,
        isize::MIN < y < isize::MAX,
    ensures
        r == neighbourhood_of(cells@, width as int, height as int, x as int, y as int),
{
    let zero = NeighbourCounts { live: 0, clustered: 0, rare: 0, predator: 0, harvester: 0, root: 0 };
    let c1 = add_neighbour(zero, neighbour(cells, width, height, x, y, -1, -1));
    let c2 = add_neighbour(c1, neighbour(cells, width, height, x, y, 0, -1));
    let c3 = add_neighbour(c2, neighbour(cells, width, height, x, y, 1, -1));
    let c4 = add_neighbour(c3, neighbour(cells, width, height, x, y, -1, 0));
    let c5 = add_neighbour(c4, neighbour(cells, width, height, x, y, 1, 0));
    let c6 = add_neighbour(c5, neighbour(cells, width, height, x, y, -1, 1));
    let c7 = add_neighbour(c6, neighbour(cells, width, height, x, y, 0, 1));
    let c8 = add_neighbour(c7, neighbour(cells, width, height, x, y, 1, 1));
    c8
}


/// The 3 by 3 grid the bootstrap probe samples around its centre: roots on
/// the main diagonal's corners, clustered harvesters left, above and right,
/// a rare cell below that preys on even ticks, and empty ground elsewhere.
pub open spec fn probe_grid(tick: u64) -> Seq<PatternTraits> {
    let root = PatternTraits { alive: false, clustered: false, rare: false, predator: false, harvester: false, root: true };
    let empty = PatternTraits { alive: false, clustered: false, rare: false, predator: false, harvester: false, root: false };
    let worker = PatternTraits { alive: true, clustered: true, rare: false, predator: false, harvester: true, root: false };
    let stray = PatternTraits { alive: true, clustered: false, rare: true, predator: tick % 2 == 0, harvester: false, root: false };
    seq![root, worker, empty, worker, empty, worker, empty, stray, root]
}

/// The traits of the probe's centre cell: alive and clustered, rare every
/// 11th tick, a predator every 17th and a harvester every 7th.
pub open spec fn probe_centre(tick: u64) -> PatternTraits {
    PatternTraits {
        alive: true,
        clustered: true,
        rare: tick % 11 == 0,
        predator: tick % 17 == 0,
        harvester: tick % 7 == 0,
        root: false,
    }
}

/// Exercises the pattern layer on its fixed probe: the neighbour counts
/// around the probe's centre, and the standard Conway flags of the centre.
pub fn bootstrap_probe(tick: u64) -> (r: (NeighbourCounts, RuleFlags))
    ensures
        r.0 == neighbourhood_of(probe_grid(tick), 3, 3, 1, 1),
        r.1 == conway_flags(probe_centre(tick).root, probe_centre(tick).alive && !probe_centre(tick).root, r.0.live, r.0.root, standard_thresholds()),
{
    let centre = PatternTraits {
        alive: true,
        clustered: true,
        rare: tick % 11 == 0,
        predator: tick % 17 == 0,
        harvester: tick % 7 == 0,
        root: false,
    };
    let occupied = PatternTraits::occupied();
    let root = PatternTraits::blocked_root();
    let empty = PatternTraits::empty();
    let worker = PatternTraits { clustered: true, harvester: true, ..occupied };
    let stray = PatternTraits { rare: true, predator: tick % 2 == 0, ..occupied };
    let cells: Vec<PatternTraits> = vec![root, worker, empty, worker, empty, worker, empty, stray, root];
    assert(cells@ =~= probe_grid(tick));
    let counts = sample_neighborhood(1, 1, 3, 3, &cells);
    let flags = conway_rule_flags(centre.root, centre.effective_alive(), counts.live, counts.root, PatternThresholds::default());
    (counts, flags)
}

/// Whatever the tick, the probe's centre sees four live neighbours, three
/// clustered, one rare, three harvesters and two roots, and survives.
pub proof fn law_probe_survives(tick: u64)
    ensures
        neighbourhood_of(probe_grid(tick), 3, 3, 1, 1).live == 4,
        neighbourhood_of(probe_grid(tick), 3, 3, 1, 1).clustered == 3,
        neighbourhood_of(probe_grid(tick), 3, 3, 1, 1).rare == 1,
        neighbourhood_of(probe_grid(tick), 3, 3, 1, 1).harvester == 3,
        neighbourhood_of(probe_grid(tick), 3, 3, 1, 1).root == 2,
        neighbourhood_of(probe_grid(tick), 3, 3, 1, 1).predator == (if tick % 2 == 0 { 1u8 } else { 0u8 }),
        conway_flags(false, true, 4, 2, standard_thresholds()).survives,
{
}

} // verus!
