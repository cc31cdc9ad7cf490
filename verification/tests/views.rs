use symbiote::field::neighbors4;
use symbiote::density::DensityBand;
use symbiote::environment::Environment;
use symbiote::glyphs::{
    archetype_color_from_index, archetype_visual, density_color, env_color, root_color,
    axiom_visual, dominant_tribe, morphology_role, organic_phase, root_glyph, root_visual, visual_hash, Hue,
};
use symbiote::particle::Tribe;
use symbiote::life::AxiomPatternState;
use symbiote::pattern::{
    bootstrap_probe, MorphologyRole, pattern_glyph, sample_neighborhood, NeighbourCounts, PatternKind, PatternTraits, RuleFlags,
};
use symbiote::sim::{plan_step, StepPlan};

fn glyph_table(up: bool, down: bool, left: bool, right: bool, age: u64, x: usize, y: usize, height: usize) -> char {
    let height_ratio = y as f32 / height.max(1) as f32;
    let phase = ((age / 5) as usize + visual_hash(age / 3, x, y)) % 6;
    match (up, down, left, right) {
        (true, true, true, true) => if phase % 2 == 0 { '┼' } else { '╋' },
        (true, true, true, false) => if phase % 3 == 0 { '┤' } else { '┫' },
        (true, true, false, true) => if phase % 3 == 0 { '├' } else { '┣' },
        (true, false, true, true) => if phase % 2 == 0 { '┴' } else { '┻' },
        (false, true, true, true) => if phase % 2 == 0 { '┬' } else { '┳' },
        (true, true, false, false) => match phase {
            0 | 3 => '│',
            1 | 4 => '╽',
            _ => '╿',
        },
        (false, false, true, true) => match phase {
            0 | 3 => '─',
            1 | 4 => '╼',
            _ => '╾',
        },
        (false, true, false, true) => if phase % 2 == 0 { '┌' } else { '╭' },
        (false, true, true, false) => if phase % 2 == 0 { '┐' } else { '╮' },
        (true, false, false, true) => if phase % 2 == 0 { '└' } else { '╰' },
        (true, false, true, false) => if phase % 2 == 0 { '┘' } else { '╯' },
        (true, false, false, false) => '╵',
        (false, true, false, false) => '╷',
        (false, false, true, false) => if phase % 2 == 0 { '╴' } else { '╌' },
        (false, false, false, true) => if phase % 2 == 0 { '╶' } else { '╍' },
        _ => {
            if height_ratio < 0.38 {
                '╵'
            } else if phase % 2 == 0 {
                '│'
            } else {
                '╎'
            }
        }
    }
}

#[test]
fn root_glyphs() {
    for mask in 0..16u8 {
        let (u, d, l, r) = (mask & 1 != 0, mask & 2 != 0, mask & 4 != 0, mask & 8 != 0);
        for age in [0u64, 7, 15, 1_000, 77_777] {
            for (x, y, h) in [(3usize, 2usize, 48usize), (10, 40, 48), (0, 18, 48), (5, 19, 48), (1, 0, 0)] {
                assert_eq!(root_glyph(u, d, l, r, age, x, y, h), glyph_table(u, d, l, r, age, x, y, h));
            }
        }
    }
    assert_eq!(root_visual(false, false, false, false, 0, 1, 47, 48).1, Hue::Blue);
    assert_eq!(root_visual(false, false, false, false, 0, 1, 30, 48).1, Hue::Yellow);
    assert_eq!(root_visual(false, false, false, false, 0, 1, 10, 48).1, Hue::LightYellow);
    assert_eq!(root_visual(false, false, false, false, 0, 1, 2, 48).1, Hue::Green);
    assert_eq!(root_visual(true, false, false, false, 9, 1, 2, 48).0, '╵');
}

#[test]
fn lattice_visuals() {
    for generation in [0u64, 8, 100, 4_321] {
        for (x, y) in [(0usize, 0usize), (5, 9), (40, 12)] {
            for state in [AxiomPatternState::Dormant, AxiomPatternState::Static, AxiomPatternState::Collapsing] {
                assert_eq!(axiom_visual(generation, x, y, state), (' ', Hue::DarkGray));
            }
            let offset = |s: AxiomPatternState| match s {
                AxiomPatternState::Oscillating => 3,
                AxiomPatternState::Translating => 4,
                AxiomPatternState::Expanding => 5,
                _ => 7,
            };
            let phase = |s| visual_hash(generation / 8 + offset(s), x, y) % 8;
            let p = phase(AxiomPatternState::Oscillating);
            let want = if p < 4 { ('◦', Hue::Cyan) } else { ('∘', Hue::Blue) };
            assert_eq!(axiom_visual(generation, x, y, AxiomPatternState::Oscillating), want);
            let p = phase(AxiomPatternState::Translating);
            let want = if p <= 2 { ('⊚', Hue::Magenta) } else if p <= 5 { ('◌', Hue::Cyan) } else { ('°', Hue::Blue) };
            assert_eq!(axiom_visual(generation, x, y, AxiomPatternState::Translating), want);
            let p = phase(AxiomPatternState::Expanding);
            let want = if p < 3 { ('✦', Hue::White) } else { ('°', Hue::Cyan) };
            assert_eq!(axiom_visual(generation, x, y, AxiomPatternState::Expanding), want);
            let p = phase(AxiomPatternState::Chaotic);
            let want = if p == 0 { ('░', Hue::DarkGray) } else { ('·', Hue::DarkGray) };
            assert_eq!(axiom_visual(generation, x, y, AxiomPatternState::Chaotic), want);
        }
    }
}

#[test]
fn pattern_glyphs() {
    assert_eq!(pattern_glyph(PatternKind::Dormant, 3), '.');
    assert_eq!(pattern_glyph(PatternKind::Oscillator, 4), '◆');
    assert_eq!(pattern_glyph(PatternKind::Oscillator, 5), '◇');
    assert_eq!(pattern_glyph(PatternKind::Halo, 9), '◉');
    assert_eq!(pattern_glyph(PatternKind::Halo, 10), '○');
    assert_eq!(pattern_glyph(PatternKind::Chain, 10), '⛓');
    assert_eq!(pattern_glyph(PatternKind::Nest, 1), '◎');
}

#[test]
fn pattern_neighbourhood_counts() {
    let occupied = PatternTraits::occupied();
    let root = PatternTraits::blocked_root();
    let empty = PatternTraits::empty();
    assert!(occupied.effective_alive() && !root.effective_alive() && !empty.effective_alive());
    let live_root = PatternTraits { alive: true, ..root };
    assert!(!live_root.effective_alive());
    // the 3x3 probe: roots on one diagonal, clustered harvesters on a cross, a rare predator below
    let mut cells = vec![empty; 9];
    cells[0] = root;
    cells[8] = root;
    for (x, y) in [(0usize, 1usize), (1, 0), (2, 1)] {
        cells[y * 3 + x] = PatternTraits { clustered: true, harvester: true, ..occupied };
    }
    cells[2 * 3 + 1] = PatternTraits { rare: true, predator: true, ..occupied };
    let n = sample_neighborhood(1, 1, 3, 3, &cells);
    assert_eq!(n, NeighbourCounts { live: 4, clustered: 3, rare: 1, predator: 1, harvester: 3, root: 2 });
    // corners see only what lies inside the grid
    let n = sample_neighborhood(0, 0, 3, 3, &cells);
    assert_eq!(n, NeighbourCounts { live: 2, clustered: 2, rare: 0, predator: 0, harvester: 2, root: 0 });
    let n = sample_neighborhood(-5, 7, 3, 3, &cells);
    assert_eq!(n, NeighbourCounts { live: 0, clustered: 0, rare: 0, predator: 0, harvester: 0, root: 0 });
    let n = sample_neighborhood(0, 0, 0, 0, &Vec::new());
    assert_eq!(n.live, 0);
}

#[test]
fn field_neighbours() {
    assert_eq!(neighbors4(0, 0, 4, 3), vec![(1, 0), (0, 1)]);
    assert_eq!(neighbors4(2, 1, 4, 3), vec![(1, 1), (3, 1), (2, 0), (2, 2)]);
    assert_eq!(neighbors4(3, 2, 4, 3), vec![(2, 2), (3, 1)]);
    assert_eq!(neighbors4(0, 0, 1, 1), Vec::<(usize, usize)>::new());
}

#[test]
fn step_schedule() {
    assert_eq!(
        plan_step(600),
        StepPlan {
            deposit: true,
            substrate: true,
            reproduce: false,
            clusters: true,
            shift_environment: false,
            mutate_rules: false,
            save: true,
        }
    );
    let p = plan_step(1_120);
    assert!(p.deposit && !p.substrate && p.reproduce && !p.clusters && !p.shift_environment && p.mutate_rules && !p.save);
    let p = plan_step(1);
    assert!(!p.deposit && !p.substrate && !p.reproduce && !p.clusters && !p.save);
    let p = plan_step(0);
    assert!(p.deposit && p.substrate && p.reproduce && p.clusters && p.shift_environment && p.mutate_rules && p.save);
    for age in 0..5_000u64 {
        let p = plan_step(age);
        assert_eq!(p.deposit, age % 2 == 0);
        assert_eq!(p.substrate, age % 3 == 0);
        assert_eq!(p.reproduce, age % 32 == 0);
        assert_eq!(p.clusters, age % 24 == 0);
        assert_eq!(p.shift_environment, age % 360 == 0);
        assert_eq!(p.mutate_rules, age % 280 == 0);
        assert_eq!(p.save, age % 600 == 0);
        if p.save {
            assert!(p.deposit && p.substrate && p.clusters);
        }
        if p.shift_environment {
            assert!(p.clusters);
        }
    }
}

#[test]
fn pattern_probe() {
    for tick in [0u64, 1, 7, 11, 17, 22, 77] {
        let (counts, flags) = bootstrap_probe(tick);
        let predator = if tick % 2 == 0 { 1 } else { 0 };
        assert_eq!(counts, NeighbourCounts { live: 4, clustered: 3, rare: 1, predator, harvester: 3, root: 2 });
        assert_eq!(flags, RuleFlags { survives: true, birth: false, starves: false, overcrowded: false });
    }
}

#[test]
fn screen_cell_choices() {
    assert_eq!(dominant_tribe(&[0, 0, 0, 0, 0, 0]), Tribe::Blood);
    assert_eq!(dominant_tribe(&[1, 3, 3, 0, 2, 0]), Tribe::Moss);
    assert_eq!(dominant_tribe(&[0, 0, 0, 0, 0, 9]), Tribe::Static);
    for (age, count, clustered, tribe) in [(0u64, 0usize, 0usize, Tribe::Blood), (77, 5, 2, Tribe::Dream), (u64::MAX, usize::MAX, 3, Tribe::Static)] {
        let mut v = age as usize;
        v ^= count.wrapping_mul(97);
        v ^= clustered.wrapping_mul(131);
        v ^= tribe.index().wrapping_mul(389);
        v = (v ^ (v >> 11)).wrapping_mul(1_103_515_245);
        assert_eq!(organic_phase(age, count, clustered, tribe), v ^ (v >> 15));
    }
    assert_eq!(morphology_role(true, true, true, 3, true, 9, true), MorphologyRole::PredatorFront);
    assert_eq!(morphology_role(false, true, true, 3, true, 9, true), MorphologyRole::Migrator);
    assert_eq!(morphology_role(false, false, true, 3, true, 9, true), MorphologyRole::Seeder);
    assert_eq!(morphology_role(false, false, false, 3, true, 9, true), MorphologyRole::Membrane);
    assert_eq!(morphology_role(false, false, false, 3, false, 5, true), MorphologyRole::Oscillator);
    assert_eq!(morphology_role(false, false, false, 3, false, 4, true), MorphologyRole::Anchor);
    assert_eq!(morphology_role(false, false, false, 0, true, 4, true), MorphologyRole::Migrator);
    assert_eq!(morphology_role(false, false, false, 0, true, 4, false), MorphologyRole::Dormant);
}

#[test]
fn palette_tables() {
    let census = [
        Hue::Cyan, Hue::Red, Hue::Green, Hue::Blue, Hue::Magenta, Hue::Yellow,
        Hue::LightYellow, Hue::LightMagenta, Hue::DarkGray, Hue::Green, Hue::Red,
    ];
    for (i, h) in census.iter().enumerate() {
        assert_eq!(archetype_color_from_index(i), *h);
    }
    assert_eq!(archetype_color_from_index(11), Hue::DarkGray);
    assert_eq!(archetype_visual(0), Some(('≋', Hue::Cyan)));
    assert_eq!(archetype_visual(6), Some(('◈', Hue::White)));
    assert_eq!(archetype_visual(8), Some(('⟡', Hue::Gray)));
    assert_eq!(archetype_visual(9), Some(('♻', Hue::LightGreen)));
    assert_eq!(archetype_visual(10), Some(('Ω', Hue::Red)));
    assert_eq!(archetype_visual(11), None);
    assert_eq!(env_color(Environment::Calm), Hue::Green);
    assert_eq!(env_color(Environment::Hunger), Hue::Red);
    assert_eq!(env_color(Environment::Drift), Hue::Cyan);
    assert_eq!(density_color(DensityBand::Starved), Hue::Red);
    assert_eq!(density_color(DensityBand::Balanced), Hue::Green);
    assert_eq!(density_color(DensityBand::Crowded), Hue::Magenta);
    assert_eq!(density_color(DensityBand::Saturated), Hue::Red);
    assert_eq!(Tribe::Blood.color(), Hue::Red);
    assert_eq!(Tribe::Static.color(), Hue::Cyan);
}

#[test]
fn root_colour_by_depth() {
    assert_eq!(root_color(3, 0), Hue::Blue);
    // 100 rows: above the middle light blue, to row 78 cyan, below blue.
    assert_eq!(root_color(0, 100), Hue::LightBlue);
    assert_eq!(root_color(50, 100), Hue::LightBlue);
    assert_eq!(root_color(51, 100), Hue::Cyan);
    assert_eq!(root_color(78, 100), Hue::Cyan);
    assert_eq!(root_color(79, 100), Hue::Blue);
    for h in 1..60usize {
        for y in 0..h {
            let ratio = y as f32 / h as f32;
            let expected = if ratio > 0.78 { Hue::Blue } else if ratio > 0.50 { Hue::Cyan } else { Hue::LightBlue };
            assert_eq!(root_color(y, h), expected, "row {} of {}", y, h);
        }
    }
}
