//! Pure choices of the renderer: which lattice cells shimmer through the
//! world view, and the tags and glyphs of archetype census columns.

use vstd::prelude::*;
use crate::hashing::{hash, mix_hash};
use crate::life::AxiomPatternState;
use crate::species::archetype_tag;
use crate::tree::{stage_for, tree_stage_for_height, TreeStage};
use crate::automata::first_best;
use crate::particle::{tribe_at, tribe_index, Tribe};
use crate::pattern::MorphologyRole;
use crate::environment::Environment;
use crate::density::DensityBand;

verus! {

/// The per-state offset that decorrelates the shimmer of each pattern state.
pub open spec fn state_offset(state: AxiomPatternState) -> u64 {
    match state {
        AxiomPatternState::Dormant => 1,
        AxiomPatternState::Static => 2,
        AxiomPatternState::Oscillating => 3,
        AxiomPatternState::Translating => 4,
        AxiomPatternState::Expanding => 5,
        AxiomPatternState::Collapsing => 6,
        AxiomPatternState::Chaotic => 7,
    }
}

/// The per-state offset of the lattice shimmer (see `state_offset`).
pub fn axiom_state_offset(state: AxiomPatternState) -> (r: u64)
    ensures
        r == state_offset(state),
{
    match state {
        AxiomPatternState::Dormant => 1,
        AxiomPatternState::Static => 2,
        AxiomPatternState::Oscillating => 3,
        AxiomPatternState::Translating => 4,
        AxiomPatternState::Expanding => 5,
        AxiomPatternState::Collapsing => 6,
        AxiomPatternState::Chaotic => 7,
    }
}

/// The visual hash of a world age and a screen position.
pub fn visual_hash(age: u64, x: usize, y: usize) -> (r: usize)
    ensures
        r == mix_hash(age, x, y),
{
    hash(age, x, y)
}

/// Whether the lattice shows through at screen cell `(x, y)`: only while it
/// oscillates, translates or expands, on cells whose hash for the current
/// epoch (generation / 18 plus the state offset) is a multiple of 31, 37 or
/// 43 respectively; an expanding lattice also needs the coarse hash of the
/// next epoch but 17 at `(x / 2, y / 2)` to be a multiple of 11.
pub open spec fn shows_axiom_cell(generation: u64, x: usize, y: usize, state: AxiomPatternState) -> bool {
    let epoch = (generation / 18 + state_offset(state)) as u64;
    match state {
        AxiomPatternState::Oscillating => mix_hash(epoch, x, y) % 31 == 0,
        AxiomPatternState::Translating => mix_hash(epoch, x, y) % 37 == 0,
        AxiomPatternState::Expanding => mix_hash(epoch, x, y) % 43 == 0 && mix_hash((epoch + 17) as u64, x / 2, y / 2)
            % 11 == 0,
        _ => false,
    }
}

/// Whether the lattice shows through at a screen cell (see `shows_axiom_cell`).
pub fn should_render_axiom_cell(generation: u64, x: usize, y: usize, state: AxiomPatternState) -> (r: bool)
    ensures
        r == shows_axiom_cell(generation, x, y, state),
{
    let spacing: usize = match state {
        AxiomPatternState::Oscillating => 31,
        AxiomPatternState::Translating => 37,
        AxiomPatternState::Expanding => 43,
        _ => return false,
    };
    let stable_epoch = generation / 18 + axiom_state_offset(state);
    match state {
        AxiomPatternState::Expanding => visual_hash(stable_epoch, x, y) % spacing == 0 && visual_hash(
            stable_epoch + 17,
            x / 2,
            y / 2,
        ) % 11 == 0,
        _ => visual_hash(stable_epoch, x, y) % spacing == 0,
    }
}

/// The three-letter tag of a census column ("UNK" past the last archetype).
pub fn archetype_short_from_index(index: usize) -> (r: &'static str)
    ensures
        r == archetype_tag(index as nat),
{
    match index {
        0 => "SWR",
        1 => "HNT",
        2 => "GRZ",
        3 => "ORB",
        4 => "PAR",
        5 => "ARC",
        6 => "LEV",
        7 => "MYC",
        8 => "PHM",
        9 => "HRV",
        10 => "RPR",
        _ => "UNK",
    }
}

/// The glyph of a census column ("?" past the last archetype).
pub fn archetype_glyph_from_index(index: usize) -> (r: &'static str)
    ensures
        index == 0 ==> r@ == "›"@,
        index == 1 ==> r@ == "▲"@,
        index == 2 ==> r@ == "+"@,
        index == 3 ==> r@ == "◌"@,
        index == 4 ==> r@ == "×"@,
        index == 5 ==> r@ == "▣"@,
        index == 6 ==> r@ == "◉"@,
        index == 7 ==> r@ == "§"@,
        index == 8 ==> r@ == "◇"@,
        index == 9 ==> r@ == "♻"@,
        index == 10 ==> r@ == "Ω"@,
        index > 10 ==> r@ == "?"@,
{
    match index {
        0 => "›",
        1 => "▲",
        2 => "+",
        3 => "◌",
        4 => "×",
        5 => "▣",
        6 => "◉",
        7 => "§",
        8 => "◇",
        9 => "♻",
        10 => "Ω",
        _ => "?",
    }
}

/// Dormant, static, collapsing and chaotic lattices never show through.
pub proof fn law_quiet_states_hidden(generation: u64, x: usize, y: usize, state: AxiomPatternState)
    requires
        state != AxiomPatternState::Oscillating,
        state != AxiomPatternState::Translating,
        state != AxiomPatternState::Expanding,
    ensures
        !shows_axiom_cell(generation, x, y, state),
{
}


/// The growth phase of a root glyph at `(x, y)`: the world age over the
/// wiggle rate 5, plus the visual hash of a third of the age, modulo 6.
pub open spec fn root_phase(age: u64, x: usize, y: usize) -> int {
    ((age / 5) as usize + mix_hash(age / 3, x, y)) % 6
}

/// The glyph of a root cell from which of its four screen neighbours are
/// roots (`up`, `down`, `left`, `right`), its growth phase, and whether it
/// lies in the upper part of the world (depth ratio below 19/50): junctions,
/// tees, straight runs, corners and tips, each alternating with the phase.
pub open spec fn root_glyph_of(up: bool, down: bool, left: bool, right: bool, phase: int, upper: bool) -> char {
    let even = phase % 2 == 0;
    if up && down && left && right {
        if even { '┼' } else { '╋' }
    } else if up && down && left && !right {
        if phase % 3 == 0 { '┤' } else { '┫' }
    } else if up && down && !left && right {
        if phase % 3 == 0 { '├' } else { '┣' }
    } else if up && !down && left && right {
        if even { '┴' } else { '┻' }
    } else if !up && down && left && right {
        if even { '┬' } else { '┳' }
    } else if up && down && !left && !right {
        if phase == 0 || phase == 3 { '│' } else if phase == 1 || phase == 4 { '╽' } else { '╿' }
    } else if !up && !down && left && right {
        if phase == 0 || phase == 3 { '─' } else if phase == 1 || phase == 4 { '╼' } else { '╾' }
    } else if !up && down && !left && right {
        if even { '┌' } else { '╭' }
    } else if !up && down && left && !right {
        if even { '┐' } else { '╮' }
    } else if up && !down && !left && right {
        if even { '└' } else { '╰' }
    } else if up && !down && left && !right {
        if even { '┘' } else { '╯' }
    } else if up && !down && !left && !right {
        '╵'
    } else if !up && down && !left && !right {
        '╷'
    } else if !up && !down && left && !right {
        if even { '╴' } else { '╌' }
    } else if !up && !down && !left && right {
        if even { '╶' } else { '╍' }
    } else if upper {
        '╵'
    } else if even {
        '│'
    } else {
        '╎'
    }
}

/// The glyph of the root at screen cell `(x, y)` of a world `height` rows
/// tall (see `root_glyph_of` and `root_phase`).
pub fn root_glyph(up: bool, down: bool, left: bool, right: bool, age: u64, x: usize, y: usize, height: usize) -> (r: char)
    requires
        (age / 5) as usize + mix_hash(age / 3, x, y) <= usize::MAX,
    ensures
        r == root_glyph_of(
            up,
            down,
            left,
            right,
            root_phase(age, x, y),
            y * 50 < 19 * (if height > 1 { height as int } else { 1 }),
        ),
{
    let phase = ((age / 5) as usize + visual_hash(age / 3, x, y)) % 6;
    let h: u128 = if height > 1 { height as u128 } else { 1 };
    let upper = (y as u128) * 50 < 19 * h;
    match (up, down, left, right) {
        (true, true, true, true) => if phase % 2 == 0 { '┼' } else { '╋' },
        (true, true, true, false) => if phase % 3 == 0 { '┤' } else { '┫' },
        (true, true, false, true) => if phase % 3 == 0 { '├' } else { '┣' },
        (true, false, true, true) => if phase % 2 == 0 { '┴' } else { '┻' },
        (false, true, true, true) => if phase % 2 == 0 { '┬' } else { '┳' },
        (true, true, false, false) => match phase {
            0 | 3 => '│',
            1 | 4 => '╽',
            _ => '╿',
        },
        (false, false, true, true) => match phase {
            0 | 3 => '─',
            1 | 4 => '╼',
            _ => '╾',
        },
        (false, true, false, true) => if phase % 2 == 0 { '┌' } else { '╭' },
        (false, true, true, false) => if phase % 2 == 0 { '┐' } else { '╮' },
        (true, false, false, true) => if phase % 2 == 0 { '└' } else { '╰' },
        (true, false, true, false) => if phase % 2 == 0 { '┘' } else { '╯' },
        (true, false, false, false) => '╵',
        (false, true, false, false) => '╷',
        (false, false, true, false) => if phase % 2 == 0 { '╴' } else { '╌' },
        (false, false, false, true) => if phase % 2 == 0 { '╶' } else { '╍' },
        _ => if upper {
            '╵'
        } else if phase % 2 == 0 {
            '│'
        } else {
            '╎'
        },
    }
}



/// A terminal colour the renderer paints with.
#[derive(Clone, Copy, Debug, PartialEq, Eq, Structural)]
pub enum Hue {
    DarkGray,
    Cyan,
    Blue,
    LightBlue,
    Magenta,
    White,
    Green,
    Yellow,
    LightYellow,
    Red,
    LightMagenta,
    Gray,
    LightGreen,
}

/// The slow shimmer phase (0..8) of a lattice cell seen through the world.
pub open spec fn axiom_slow_phase(generation: u64, x: usize, y: usize, state: AxiomPatternState) -> usize {
    mix_hash((generation / 8 + state_offset(state)) as u64, x, y) % 8
}

/// How a lattice cell in a pattern state looks for a slow phase: blank
/// when dormant, static or collapsing; oscillating lattices shimmer cyan and
/// blue, translating ones magenta, cyan and blue, expanding ones sparkle
/// white then cyan, and chaotic ones scatter grey dust.
pub open spec fn axiom_look(state: AxiomPatternState, slow_phase: usize) -> (char, Hue) {
    match state {
        AxiomPatternState::Oscillating => if slow_phase < 4 { ('◦', Hue::Cyan) } else { ('∘', Hue::Blue) },
        AxiomPatternState::Translating => if slow_phase <= 2 {
            ('⊚', Hue::Magenta)
        } else if slow_phase <= 5 {
            ('◌', Hue::Cyan)
        } else {
            ('°', Hue::Blue)
        },
        AxiomPatternState::Expanding => if slow_phase < 3 { ('✦', Hue::White) } else { ('°', Hue::Cyan) },
        AxiomPatternState::Chaotic => if slow_phase == 0 { ('░', Hue::DarkGray) } else { ('·', Hue::DarkGray) },
        _ => (' ', Hue::DarkGray),
    }
}

/// How the lattice cell at screen `(x, y)` looks (see `axiom_look`).
pub fn axiom_visual(generation: u64, x: usize, y: usize, state: AxiomPatternState) -> (r: (char, Hue))
    ensures
        r == axiom_look(state, axiom_slow_phase(generation, x, y, state)),
{
    let slow_phase = visual_hash(generation / 8 + axiom_state_offset(state), x, y) % 8;
    match state {
        AxiomPatternState::Dormant => (' ', Hue::DarkGray),
        AxiomPatternState::Static => (' ', Hue::DarkGray),
        AxiomPatternState::Oscillating => if slow_phase < 4 { ('◦', Hue::Cyan) } else { ('∘', Hue::Blue) },
        AxiomPatternState::Translating => match slow_phase {
            0 | 1 | 2 => ('⊚', Hue::Magenta),
            3 | 4 | 5 => ('◌', Hue::Cyan),
            _ => ('°', Hue::Blue),
        },
        AxiomPatternState::Expanding => if slow_phase < 3 { ('✦', Hue::White) } else { ('°', Hue::Cyan) },
        AxiomPatternState::Collapsing => (' ', Hue::DarkGray),
        AxiomPatternState::Chaotic => if slow_phase == 0 { ('░', Hue::DarkGray) } else { ('·', Hue::DarkGray) },
    }
}

/// The colour of a root in a tree layer: blue roots, a yellow trunk,
/// light-yellow branches and a green canopy.
pub open spec fn stage_hue(stage: TreeStage) -> Hue {
    match stage {
        TreeStage::Root => Hue::Blue,
        TreeStage::Trunk => Hue::Yellow,
        TreeStage::Branch => Hue::LightYellow,
        TreeStage::Canopy => Hue::Green,
    }
}

/// The glyph and colour of the root at screen `(x, y)`: the glyph of
/// `root_glyph` and the colour of its row's tree layer.
pub fn root_visual(up: bool, down: bool, left: bool, right: bool, age: u64, x: usize, y: usize, height: usize) -> (r: (char, Hue))
    requires
        (age / 5) as usize + mix_hash(age / 3, x, y) <= usize::MAX,
    ensures
        r.0 == root_glyph_of(
            up,
            down,
            left,
            right,
            root_phase(age, x, y),
            y * 50 < 19 * (if height > 1 { height as int } else { 1 }),
        ),
        r.1 == stage_hue(stage_for(y as int, height as int)),
{
    let glyph = root_glyph(up, down, left, right, age, x, y, height);
    let hue = match tree_stage_for_height(y, height) {
        TreeStage::Root => Hue::Blue,
        TreeStage::Trunk => Hue::Yellow,
        TreeStage::Branch => Hue::LightYellow,
        TreeStage::Canopy => Hue::Green,
    };
    (glyph, hue)
}

/// Dormant, static and collapsing lattice cells are drawn blank.
pub proof fn law_quiet_states_blank(generation: u64, x: usize, y: usize, state: AxiomPatternState)
    requires
        state == AxiomPatternState::Dormant || state == AxiomPatternState::Static || state
            == AxiomPatternState::Collapsing,
    ensures
        axiom_look(state, axiom_slow_phase(generation, x, y, state)).0 == ' ',
{
}


/// The tribe with the most particles in a screen cell, ties going to the
/// earlier tribe.
pub open spec fn dominant_tribe_of(counts: Seq<usize>) -> Tribe {
    tribe_at(first_best(count_at(counts), 5) as nat)
}

/// The counts of a screen cell as a function of the tribe position.
pub open spec fn count_at(counts: Seq<usize>) -> spec_fn(int) -> int {
    |t: int| counts[t] as int
}

/// The tribe with the most particles in a screen cell (see `dominant_tribe_of`).
pub fn dominant_tribe(counts: &[usize; 6]) -> (r: Tribe)
    ensures
        r == dominant_tribe_of(counts@),
{
    let ghost f = count_at(counts@);
    let mut best: usize = 0;
    let mut i: usize = 1;
    while i < 6
        invariant
            1 <= i <= 6,
            counts@.len() == 6,
            f == count_at(counts@),
            best as int == first_best(f, (i - 1) as nat),
            best < i,
        decreases 6 - i,
    {
        if counts[i] > counts[best] {
            best = i;
        }
        i = i + 1;
    }
    Tribe::from_index(best)
}

/// The organic shimmer phase of a screen cell: the age mixed with the
/// cell's particle count, clustered count and dominant tribe.
pub open spec fn organic_phase_of(age: u64, count: usize, clustered: usize, tribe: Tribe) -> usize {
    let v0 = age as usize;
    let v1 = v0 ^ count.wrapping_mul(97usize);
    let v2 = v1 ^ clustered.wrapping_mul(131usize);
    let v3 = v2 ^ (tribe_index(tribe) as usize).wrapping_mul(389usize);
    let v4 = (v3 ^ (v3 >> 11usize)).wrapping_mul(1_103_515_245usize);
    v4 ^ (v4 >> 15usize)
}

/// The organic shimmer phase of a screen cell (see `organic_phase_of`).
pub fn organic_phase(age: u64, count: usize, clustered: usize, tribe: Tribe) -> (r: usize)
    ensures
        r == organic_phase_of(age, count, clustered, tribe),
{
    let mut value = age as usize;
    value = value ^ count.wrapping_mul(97usize);
    value = value ^ clustered.wrapping_mul(131usize);
    value = value ^ tribe.index().wrapping_mul(389usize);
    value = (value ^ (value >> 11usize)).wrapping_mul(1_103_515_245usize);
    value ^ (value >> 15usize)
}

/// The morphology role of an occupied screen cell: reapers form predator
/// fronts; drifting cells migrate; harvesters seed; clustered cells form
/// membranes when heavy, oscillators when five or more share the cell, and
/// anchors otherwise; lone rare cells migrate; anything else is dormant.
pub open spec fn morphology_role_of(reaper: bool, drifting: bool, harvester: bool, clustered: usize, heavy: bool, count: usize, rare: bool) -> MorphologyRole {
    if reaper {
        MorphologyRole::PredatorFront
    } else if drifting {
        MorphologyRole::Migrator
    } else if harvester {
        MorphologyRole::Seeder
    } else if clustered > 0 && heavy {
        MorphologyRole::Membrane
    } else if clustered > 0 && count >= 5 {
        MorphologyRole::Oscillator
    } else if clustered > 0 {
        MorphologyRole::Anchor
    } else if rare {
        MorphologyRole::Migrator
    } else {
        MorphologyRole::Dormant
    }
}

/// The morphology role of a screen cell (see `morphology_role_of`);
/// `heavy` is whether its particles' mean mass exceeds 3.8.
pub fn morphology_role(reaper: bool, drifting: bool, harvester: bool, clustered: usize, heavy: bool, count: usize, rare: bool) -> (r: MorphologyRole)
    ensures
        r == morphology_role_of(reaper, drifting, harvester, clustered, heavy, count, rare),
{
    if reaper {
        MorphologyRole::PredatorFront
    } else if drifting {
        MorphologyRole::Migrator
    } else if harvester {
        MorphologyRole::Seeder
    } else if clustered > 0 && heavy {
        MorphologyRole::Membrane
    } else if clustered > 0 && count >= 5 {
        MorphologyRole::Oscillator
    } else if clustered > 0 {
        MorphologyRole::Anchor
    } else if rare {
        MorphologyRole::Migrator
    } else {
        MorphologyRole::Dormant
    }
}

/// The colour of a census column (dark grey past the last archetype).
pub fn archetype_color_from_index(index: usize) -> (r: Hue)
    ensures
        index == 0 ==> r == Hue::Cyan,
        index == 1 ==> r == Hue::Red,
        index == 2 ==> r == Hue::Green,
        index == 3 ==> r == Hue::Blue,
        index == 4 ==> r == Hue::Magenta,
        index == 5 ==> r == Hue::Yellow,
        index == 6 ==> r == Hue::LightYellow,
        index == 7 ==> r == Hue::LightMagenta,
        index == 8 ==> r == Hue::DarkGray,
        index == 9 ==> r == Hue::Green,
        index == 10 ==> r == Hue::Red,
        index > 10 ==> r == Hue::DarkGray,
{
    match index {
        0 => Hue::Cyan,
        1 => Hue::Red,
        2 => Hue::Green,
        3 => Hue::Blue,
        4 => Hue::Magenta,
        5 => Hue::Yellow,
        6 => Hue::LightYellow,
        7 => Hue::LightMagenta,
        8 => Hue::DarkGray,
        9 => Hue::Green,
        10 => Hue::Red,
        _ => Hue::DarkGray,
    }
}

/// The mark a particle of a settled archetype wears in the world view:
/// its glyph and colour, or nothing past the last archetype.
pub fn archetype_visual(index: usize) -> (r: Option<(char, Hue)>)
    ensures
        index == 0 ==> r == Some(('≋', Hue::Cyan)),
        index == 1 ==> r == Some(('⌁', Hue::Red)),
        index == 2 ==> r == Some(('˖', Hue::Green)),
        index == 3 ==> r == Some(('⊙', Hue::Blue)),
        index == 4 ==> r == Some(('⁘', Hue::Magenta)),
        index == 5 ==> r == Some(('▣', Hue::Yellow)),
        index == 6 ==> r == Some(('◈', Hue::White)),
        index == 7 ==> r == Some(('§', Hue::LightMagenta)),
        index == 8 ==> r == Some(('⟡', Hue::Gray)),
        index == 9 ==> r == Some(('♻', Hue::LightGreen)),
        index == 10 ==> r == Some(('Ω', Hue::Red)),
        index > 10 ==> r.is_none(),
{
    match index {
        0 => Some(('≋', Hue::Cyan)),
        1 => Some(('⌁', Hue::Red)),
        2 => Some(('˖', Hue::Green)),
        3 => Some(('⊙', Hue::Blue)),
        4 => Some(('⁘', Hue::Magenta)),
        5 => Some(('▣', Hue::Yellow)),
        6 => Some(('◈', Hue::White)),
        7 => Some(('§', Hue::LightMagenta)),
        8 => Some(('⟡', Hue::Gray)),
        9 => Some(('♻', Hue::LightGreen)),
        10 => Some(('Ω', Hue::Red)),
        _ => None,
    }
}

/// The colour of the environment name in the header.
pub fn env_color(env: Environment) -> (r: Hue)
    ensures
        r == (match env {
            Environment::Calm => Hue::Green,
            Environment::Bloom => Hue::Magenta,
            Environment::Hunger => Hue::Red,
            Environment::Storm => Hue::Yellow,
            Environment::Drift => Hue::Cyan,
        }),
{
    match env {
        Environment::Calm => Hue::Green,
        Environment::Bloom => Hue::Magenta,
        Environment::Hunger => Hue::Red,
        Environment::Storm => Hue::Yellow,
        Environment::Drift => Hue::Cyan,
    }
}

/// The colour of the density band in the memory panel: red at both
/// extremes, yellow when sparse, green when balanced, magenta when crowded.
pub fn density_color(band: DensityBand) -> (r: Hue)
    ensures
        r == (match band {
            DensityBand::Starved => Hue::Red,
            DensityBand::Sparse => Hue::Yellow,
            DensityBand::Balanced => Hue::Green,
            DensityBand::Crowded => Hue::Magenta,
            DensityBand::Saturated => Hue::Red,
        }),
{
    match band {
        DensityBand::Starved => Hue::Red,
        DensityBand::Sparse => Hue::Yellow,
        DensityBand::Balanced => Hue::Green,
        DensityBand::Crowded => Hue::Magenta,
        DensityBand::Saturated => Hue::Red,
    }
}

/// The colour of a substrate root by its depth on a screen `height` rows
/// tall: blue in the lowest 22%, cyan down to the middle, light blue above
/// (blue on an empty screen).
pub fn root_color(y: usize, height: usize) -> (r: Hue)
    ensures
        height == 0 ==> r == Hue::Blue,
        height > 0 && 50 * y > 39 * height ==> r == Hue::Blue,
        height > 0 && 50 * y <= 39 * height && 2 * y > height ==> r == Hue::Cyan,
        height > 0 && 2 * y <= height ==> r == Hue::LightBlue,
{
    if height == 0 {
        return Hue::Blue;
    }
    let y_wide = y as u128;
    let h_wide = height as u128;
    if y_wide * 50 > h_wide * 39 {
        Hue::Blue
    } else if y_wide * 2 > h_wide {
        Hue::Cyan
    } else {
        Hue::LightBlue
    }
}

} // verus!
