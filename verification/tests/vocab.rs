use symbiote::text::{contains_str, find_first, replace_once};
use symbiote::automata::{CellKind, SignalKind};
use symbiote::cluster::{is_corridor_archetype, is_root_adaptive_archetype, rare_from_index, rare_index, ClusterEvents};
use symbiote::ecology::{should_spawn_zone, spawn_zone_kind, zone_survives, ZoneKind};
use symbiote::environment::{faster_tick, shifted_environment, slower_tick, Environment};
use symbiote::glyphs::{archetype_glyph_from_index, archetype_short_from_index, axiom_state_offset, should_render_axiom_cell, visual_hash};
use symbiote::hashing::hash;
use symbiote::life::AxiomPatternState;
use symbiote::log::{push_back_bounded, push_bounded};
use symbiote::particle::{RareTrait, Tribe};
use symbiote::pattern::{conway_rule_flags, morphology_render_glyph, MorphologyRole, PatternKind, PatternMotion, PatternThresholds};
use symbiote::sim::StepReport;
use symbiote::smarticles::SmarticleRole;
use symbiote::species::Archetype;

fn mixing_formula(seed: u64, x: usize, y: usize) -> usize {
    let mut value = seed as usize;
    value ^= x.wrapping_mul(374_761_393);
    value ^= y.wrapping_mul(668_265_263);
    value = (value ^ (value >> 13)).wrapping_mul(1_274_126_177);
    value ^ (value >> 16)
}

#[test]
fn hash_matches_mixing_formula() {
    for (s, x, y) in [(0u64, 0usize, 0usize), (1, 2, 3), (u64::MAX, 17, 99), (0xA111_0C1C, 5, 1)] {
        assert_eq!(hash(s, x, y), mixing_formula(s, x, y));
    }
    assert_eq!(hash(0, 0, 0), 0);
    assert_eq!(visual_hash(7, 3, 4), hash(7, 3, 4));
}

#[test]
fn environment_names() {
    assert_eq!(Environment::Calm.name(), "calm");
    assert_eq!(Environment::Bloom.name(), "bloom");
    assert_eq!(Environment::Hunger.name(), "hunger");
    assert_eq!(Environment::Storm.name(), "storm");
    assert_eq!(Environment::Drift.name(), "drift");
}

#[test]
fn environment_shift_follows_roll() {
    for age in [360u64, 720, 1080, 5000] {
        let roll = hash(99, age as usize, 3) % 100;
        let expected = match roll {
            0..=32 => Environment::Calm,
            33..=55 => Environment::Bloom,
            56..=70 => Environment::Hunger,
            71..=86 => Environment::Drift,
            _ => Environment::Storm,
        };
        assert_eq!(shifted_environment(99, age, 3), expected);
    }
}

#[test]
fn tick_speed_limits() {
    assert_eq!(faster_tick(90), 86);
    assert_eq!(faster_tick(6), 4);
    assert_eq!(faster_tick(0), 4);
    assert_eq!(slower_tick(90), 94);
    assert_eq!(slower_tick(218), 220);
    assert_eq!(slower_tick(400), 220);
}

#[test]
fn tribes_round_trip() {
    for i in 0..20 {
        assert_eq!(Tribe::from_index(i).index(), i % 6);
    }
    assert_eq!(Tribe::from_index(3), Tribe::Solar);
    assert_eq!(Tribe::Blood.name(), "BLD");
    assert_eq!(Tribe::Static.name(), "STC");
    assert_eq!(Tribe::Dream.name(), "DRM");
}

#[test]
fn rare_traits_round_trip() {
    for i in 0..8 {
        assert_eq!(rare_index(rare_from_index(i)), i);
    }
    assert_eq!(rare_from_index(99), RareTrait::Common);
    assert_eq!(rare_index(RareTrait::Devourer), 7);
}

#[test]
fn archetype_vocabulary() {
    assert_eq!(Archetype::Swarmer.name(), "Swarmer");
    assert_eq!(Archetype::Reaper.name(), "Reaper");
    assert_eq!(Archetype::Grazer.short(), "GRZ");
    assert_eq!(Archetype::Harvester.index(), 9);
    for a in [Archetype::Hunter, Archetype::Phantom, Archetype::Architect] {
        assert_eq!(archetype_short_from_index(a.index()), a.short());
    }
    assert_eq!(archetype_short_from_index(11), "UNK");
    assert_eq!(archetype_glyph_from_index(10), "Ω");
    assert_eq!(archetype_glyph_from_index(42), "?");
    assert!(is_root_adaptive_archetype(Archetype::Leviathan));
    assert!(!is_root_adaptive_archetype(Archetype::Hunter));
    assert!(is_corridor_archetype(Archetype::Hunter));
    assert!(!is_corridor_archetype(Archetype::Leviathan));
}

#[test]
fn cell_kind_predicates() {
    assert!(CellKind::Root.is_alive() && CellKind::Root.is_protected() && CellKind::Root.is_regenerative());
    assert!(CellKind::Life.is_alive() && !CellKind::Life.is_regenerative());
    assert!(!CellKind::Empty.is_alive() && !CellKind::Empty.is_protected());
    assert!(CellKind::Dead.is_regenerative() && !CellKind::Dead.is_alive());
    assert_eq!(SignalKind::Fear.glyph(), '!');
    assert_eq!(SignalKind::Hunger.glyph(), '∿');
}

#[test]
fn zone_vocabulary_and_spawning() {
    assert_eq!(ZoneKind::Nest.glyph(), '◎');
    assert_eq!(ZoneKind::Turbulent.name(), "turbulent");
    for salt in 0..30usize {
        let roll = hash(1234, salt, 99) % 100;
        let expected = match roll {
            0..=32 => ZoneKind::Nutrient,
            33..=47 => ZoneKind::Turbulent,
            48..=61 => ZoneKind::Mutagen,
            62..=78 => ZoneKind::Nest,
            _ => ZoneKind::Dead,
        };
        assert_eq!(spawn_zone_kind(1234, salt), expected);
    }
    assert!(should_spawn_zone(5200, Environment::Calm, 3));
    assert!(!should_spawn_zone(5200, Environment::Calm, 16));
    assert!(!should_spawn_zone(2600, Environment::Calm, 3));
    assert!(should_spawn_zone(2600, Environment::Bloom, 15));
    assert!(zone_survives(23_999));
    assert!(!zone_survives(24_000));
}

#[test]
fn pattern_vocabulary() {
    assert_eq!(PatternKind::StillLife.name(), "StillLife");
    assert_eq!(PatternKind::Swarmfront.short(), "SWF");
    assert_eq!(PatternMotion::Contract.name(), "contract");
    assert_eq!(PatternKind::default(), PatternKind::Dormant);
    assert_eq!(PatternMotion::default(), PatternMotion::Static);
    assert_eq!(SmarticleRole::Root.index(), 6);
    assert_eq!(SmarticleRole::Life.index(), 0);
}

#[test]
fn morphology_glyph_cycles() {
    assert_eq!(morphology_render_glyph(MorphologyRole::Dormant, 5, 5), None);
    assert_eq!(morphology_render_glyph(MorphologyRole::Anchor, 0, 4), Some('•'));
    assert_eq!(morphology_render_glyph(MorphologyRole::Anchor, 0, 3), Some('●'));
    assert_eq!(morphology_render_glyph(MorphologyRole::Oscillator, 8, 0), Some('◐'));
    assert_eq!(morphology_render_glyph(MorphologyRole::Oscillator, 4, 0), Some('◑'));
    assert_eq!(morphology_render_glyph(MorphologyRole::Migrator, 0, 7), None);
    assert_eq!(morphology_render_glyph(MorphologyRole::Membrane, 0, 7), Some('○'));
    assert_eq!(morphology_render_glyph(MorphologyRole::PredatorFront, 0, 6), Some('Ω'));
}

#[test]
fn conway_flags() {
    let t = PatternThresholds::default();
    let root = conway_rule_flags(true, true, 3, 0, t);
    assert!(!root.survives && !root.birth && !root.starves && !root.overcrowded);
    let lonely = conway_rule_flags(false, true, 1, 0, t);
    assert!(!lonely.survives && lonely.starves);
    let crowded = conway_rule_flags(false, true, 6, 0, t);
    assert!(!crowded.survives && crowded.overcrowded);
    assert!(conway_rule_flags(false, true, 5, 0, t).survives);
    assert!(conway_rule_flags(false, false, 4, 4, t).birth);
    assert!(!conway_rule_flags(false, false, 4, 5, t).birth);
    assert!(!conway_rule_flags(false, false, 2, 0, t).birth);
}

#[test]
fn axiom_shimmer() {
    assert_eq!(axiom_state_offset(AxiomPatternState::Dormant), 1);
    assert_eq!(axiom_state_offset(AxiomPatternState::Chaotic), 7);
    for x in 0..40 {
        for y in 0..20 {
            assert!(!should_render_axiom_cell(100, x, y, AxiomPatternState::Static));
            let epoch = 100 / 18 + 3;
            assert_eq!(
                should_render_axiom_cell(100, x, y, AxiomPatternState::Oscillating),
                hash(epoch, x, y) % 31 == 0
            );
            let e = 100 / 18 + 5;
            assert_eq!(
                should_render_axiom_cell(100, x, y, AxiomPatternState::Expanding),
                hash(e, x, y) % 43 == 0 && hash(e + 17, x / 2, y / 2) % 11 == 0
            );
        }
    }
}

#[test]
fn defaults_are_zero() {
    let e = ClusterEvents::default();
    assert_eq!((e.births, e.merges, e.splits, e.extinctions), (0, 0, 0, 0));
    let r = StepReport::default();
    assert_eq!(r.cells_consumed + r.total_substrate + r.living_substrate, 0);
}

#[test]
fn bounded_log_keeps_newest() {
    let mut log: Vec<u32> = Vec::new();
    for i in 0..40 {
        push_bounded(&mut log, i, 32);
    }
    assert_eq!(log.len(), 32);
    assert_eq!(log[0], 8);
    assert_eq!(*log.last().unwrap(), 39);
    let mut small = vec![1, 2];
    push_bounded(&mut small, 3, 9);
    assert_eq!(small, vec![1, 2, 3]);
}

#[test]
fn bounded_event_queue_keeps_newest() {
    let mut events: std::collections::VecDeque<String> = std::collections::VecDeque::new();
    for i in 0..12 {
        push_back_bounded(&mut events, format!("[{}] tick", i), 9);
    }
    assert_eq!(events.len(), 9);
    assert_eq!(events.front().unwrap(), "[3] tick");
    assert_eq!(events.back().unwrap(), "[11] tick");
}

#[test]
fn replace_once_patches_first_anchor() {
    let mut s = String::from("mod memory;\nmod particle;\nmod memory;\n");
    replace_once(&mut s, "mod memory;", "mod memory; mod life;");
    assert_eq!(s, "mod memory; mod life;\nmod particle;\nmod memory;\n");
    replace_once(&mut s, "mod memory;", "mod memory; mod life;");
    assert_eq!(s, "mod memory; mod life;\nmod particle;\nmod memory;\n");
    let mut t = String::from("αβγαβ");
    replace_once(&mut t, "βγ", "δ");
    assert_eq!(t, "αδαβ");
    let mut e = String::from("abc");
    replace_once(&mut e, "", "x");
    assert_eq!(e, "xabc");
    assert_eq!(find_first("abcabc", "ca"), Some(2));
    assert_eq!(find_first("abc", "abcd"), None);
    assert_eq!(find_first("abc", ""), Some(0));
    assert!(contains_str("symbiote", "bio"));
    assert!(!contains_str("symbiote", "bios"));
}

