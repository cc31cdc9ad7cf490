use symbiote::automata::{initial_cell_kind, CellKind, SignalKind, SubstrateGrid};
use symbiote::hashing::hash;
use symbiote::species::Archetype;
use symbiote::substrate::{
    consume_outcome, deposit_kind, deposit_signal, settle_dry, CellStep, SubstrateRule,
};
use symbiote::tree::{root_cap, TreePolicy};

fn random_grid(seed: u64, w: usize, h: usize, living_per_mille: usize) -> SubstrateGrid {
    let n = w * h;
    let mut kinds = Vec::with_capacity(n);
    let mut ages = Vec::with_capacity(n);
    let mut hints = Vec::with_capacity(n);
    for i in 0..n {
        let r = hash(seed, i, 1) % 1000;
        let kind = if r < living_per_mille {
            match hash(seed, i, 2) % 10 {
                0 | 1 | 2 | 3 => CellKind::Life,
                4 | 5 => CellKind::Root,
                6 => CellKind::Spore,
                _ => CellKind::Nest,
            }
        } else {
            match hash(seed, i, 3) % 8 {
                0 | 1 | 2 => CellKind::Empty,
                3 | 4 => CellKind::Nutrient,
                5 | 6 => CellKind::Dead,
                _ => CellKind::Mutagen,
            }
        };
        kinds.push(kind);
        ages.push((hash(seed, i, 4) % 1200) as u16);
        hints.push(hash(seed, i, 5) % 9);
    }
    SubstrateGrid { width: w, height: h, kinds, ages, tribe_hints: hints }
}

/// The kind, age and tribe hint each cell has after a tick, as the tick
/// decides them when no cell runs dry.
fn naive_tick(g: &SubstrateGrid, cycle: u64, seed: u64, rich: &[bool]) -> Vec<(CellKind, u16, usize)> {
    let (w, h) = (g.width, g.height);
    let living = g.kinds.iter().filter(|k| k.is_alive()).count();
    let total = g.kinds.len().max(1);
    let density = living as f32 / total as f32;
    let recovery = living < 1_400;
    let bloom = living < 800;
    let root_count = g.kinds.iter().filter(|k| **k == CellKind::Root).count();
    let cap = root_cap(total, w, TreePolicy::default());
    let mut out = Vec::new();
    for y in 0..h {
        for x in 0..w {
            let idx = y * w + x;
            let kind = g.kinds[idx];
            let n = g.alive_neighbors(x, y);
            let c = g.life_neighbors(x, y);
            let nut = g.kind_neighbors(x, y, CellKind::Nutrient);
            let dead = g.kind_neighbors(x, y, CellKind::Dead);
            let spore = g.kind_neighbors(x, y, CellKind::Spore);
            let rootn = g.kind_neighbors(x, y, CellKind::Root);
            let lean = g.local_tribe_hint(x, y);
            let root_seed_roll = hash(seed ^ cycle ^ 0xA17E_5EED, x, y) % 10_000;
            // A live cell with two or three live neighbours survives: no root claims it.
            let soft = matches!(kind, CellKind::Empty | CellKind::Nutrient | CellKind::Dead | CellKind::Spore)
                || (kind == CellKind::Life && !(2..=3).contains(&c));
            if soft && g.should_grow_trunk_root(x, y, cycle, seed, root_count, cap, rootn, n, root_seed_roll) {
                out.push((CellKind::Root, 0, lean));
                continue;
            }
            let (mut k, mut age, mut hint) = (kind, g.ages[idx], g.tribe_hints[idx]);
            match kind {
                CellKind::Empty => {
                    let seed_roll = hash(seed ^ cycle, x, y) % 10_000;
                    if g.should_grow_trunk_root(x, y, cycle, seed, root_count, cap, rootn, n, seed_roll) {
                        (k, age, hint) = (CellKind::Root, 0, lean);
                    } else if c == 3 || (n == 3 && nut >= 1) {
                        (k, age, hint) = (CellKind::Life, 0, lean);
                    } else if recovery && rootn > 0 && nut > 0 {
                        (k, age, hint) = (CellKind::Life, 0, lean);
                    } else if recovery && nut >= 1 && spore >= 1 {
                        (k, age, hint) = (CellKind::Life, 0, lean);
                    } else if bloom && seed_roll < 160 {
                        (k, age, hint) = (CellKind::Nutrient, 0, seed_roll % 6);
                    } else if recovery && seed_roll < 70 {
                        (k, age, hint) = (CellKind::Spore, 0, seed_roll % 6);
                    }
                }
                CellKind::Life => {
                    if c < 2 || c > 3 {
                        k = CellKind::Dead;
                    }
                }
                CellKind::Spore => {
                    if c == 3 && rootn == 0 {
                        (k, age) = (CellKind::Life, 0);
                    } else if rootn > 1 {
                        k = CellKind::Nutrient;
                    } else if rootn > 0 && recovery && nut > 0 {
                        k = CellKind::Life;
                    } else if n < 2 || n > 4 {
                        k = CellKind::Dead;
                    }
                }
                CellKind::Nutrient => {
                    if c == 3 && rootn == 0 {
                        (k, age) = (CellKind::Life, 0);
                    } else if rootn > 1 && density > 0.14 {
                        (k, age) = (CellKind::Empty, 0);
                    } else if rootn > 0 && recovery && n >= 1 {
                        k = CellKind::Spore;
                    } else if ((n == 3 || c == 3) || (dead >= 2 && nut >= 2)) && rich[idx] {
                        (k, age) = (CellKind::Life, 0);
                    } else if recovery && n >= 2 {
                        k = CellKind::Spore;
                    }
                }
                CellKind::Dead => {
                    if c == 3 || (dead >= 2 && nut >= 2) {
                        (k, age, hint) = (CellKind::Life, 0, lean);
                    } else if rootn > 0 && recovery {
                        k = CellKind::Nutrient;
                    } else if nut >= 2 && n >= 2 {
                        k = CellKind::Nutrient;
                    } else if recovery && dead >= 2 && density < 0.06 {
                        k = CellKind::Nutrient;
                    } else if dead > 5 {
                        (k, age) = (CellKind::Empty, 0);
                    }
                }
                CellKind::Mutagen => {
                    if (rootn > 0 && recovery) || n == 3 {
                        k = CellKind::Spore;
                    }
                }
                CellKind::Nest => {
                    if rootn > 1 || n > 4 {
                        k = CellKind::Dead;
                    }
                }
                CellKind::Root => {}
            }
            if k != CellKind::Empty {
                age = age.saturating_add(1);
            }
            if kind == CellKind::Root {
                k = CellKind::Root;
            }
            out.push((k, age, hint));
        }
    }
    out
}

fn rich_flags(seed: u64, n: usize) -> Vec<bool> {
    (0..n).map(|i| hash(seed, i, 7) % 2 == 0).collect()
}

fn check_against_naive_tick(g: &SubstrateGrid, cycle: u64, seed: u64) {
    let rich = rich_flags(seed ^ cycle, g.kinds.len());
    assert!(g.phases_fit(cycle, seed));
    let plan = g.plan_tick(cycle, seed, &rich);
    let expected = naive_tick(g, cycle, seed, &rich);
    assert_eq!(plan.len(), expected.len());
    let mood = g.mood();
    for (i, (step, want)) in plan.iter().zip(expected.iter()).enumerate() {
        assert_eq!((step.kind, step.age, step.tribe_hint), *want, "cell {} rule {:?}", i, step.rule);
        assert_eq!(step.rule.kind(), step.kind);
        let (x, y) = (i % g.width, i / g.width);
        assert_eq!(step.nutrients, g.kind_neighbors(x, y, CellKind::Nutrient));
        assert_eq!(*step, g.cell_step(x, y, cycle, seed, rich[i], mood));
    }
}

#[test]
fn sparse_world_tick_matches_rules() {
    for s in 0..6u64 {
        let g = random_grid(0x5EED + s, 36, 18, 330);
        for cycle in [1u64, 2, 3, 40, 1_499, 1_500, 7_777] {
            check_against_naive_tick(&g, cycle, 0xC011 ^ s);
        }
    }
}

#[test]
fn dense_world_tick_matches_rules() {
    for s in 0..3u64 {
        let g = random_grid(0xD15E + s, 64, 40, 700);
        let mood = g.mood();
        assert!(!mood.recovery && !mood.bloom);
        for cycle in [3u64, 90, 2_000] {
            check_against_naive_tick(&g, cycle, 0xBEEF ^ s);
        }
        let rich = rich_flags(s, g.kinds.len());
        assert!(mood.root_count >= mood.root_cap);
        for (i, step) in g.plan_tick(33, 1, &rich).iter().enumerate() {
            if g.kinds[i] != CellKind::Root {
                assert_ne!(step.kind, CellKind::Root);
            }
        }
        let crowded = random_grid(0xC20 + s, 64, 40, 930);
        assert!(crowded.mood().crowded);
        check_against_naive_tick(&crowded, 12, 5);
    }
}

#[test]
fn mood_counts_the_snapshot() {
    let g = random_grid(7, 30, 20, 500);
    let m = g.mood();
    assert_eq!(m.total, 600);
    assert_eq!(m.living, g.living_cells());
    assert_eq!(m.root_count, g.count_kind(CellKind::Root));
    assert_eq!(m.root_cap, root_cap(600, 30, TreePolicy::default()));
    assert_eq!(m.recovery, m.living < 1_400);
    assert_eq!(m.bloom, m.living < 800);
    let ratio = m.living as f32 / 600.0;
    assert_eq!(m.populated, ratio > 0.14);
    assert_eq!(m.crowded, ratio > 0.82);
    assert_eq!(m.sparse, ratio < 0.06);
}

fn blank(w: usize, h: usize) -> SubstrateGrid {
    SubstrateGrid {
        width: w,
        height: h,
        kinds: vec![CellKind::Empty; w * h],
        ages: vec![5; w * h],
        tribe_hints: vec![2; w * h],
    }
}

#[test]
fn life_rules_on_small_patterns() {
    let mut g = blank(10, 10);
    // a live cell with a single live neighbour dies of underpopulation
    g.kinds[5 * 10 + 5] = CellKind::Life;
    g.kinds[5 * 10 + 6] = CellKind::Life;
    let m = g.mood();
    let s = g.cell_step(5, 5, 1, 9, false, m);
    assert_eq!(s.rule, SubstrateRule::LifeLonely);
    assert_eq!((s.kind, s.age), (CellKind::Dead, 6));
    // a live cell with four live neighbours dies of overpopulation
    for (x, y) in [(4, 4), (6, 4), (4, 6)] {
        g.kinds[y * 10 + x] = CellKind::Life;
    }
    let m = g.mood();
    let s = g.cell_step(5, 5, 1, 9, false, m);
    assert_eq!(s.rule, SubstrateRule::LifeCrowded);
    assert_eq!(s.kind, CellKind::Dead);
    // empty ground with exactly three live neighbours comes alive with the local tribe
    let mut g = blank(10, 10);
    for (x, y) in [(1, 1), (2, 1), (3, 1)] {
        g.kinds[y * 10 + x] = CellKind::Life;
    }
    let m = g.mood();
    let s = g.cell_step(2, 2, 1, 9, false, m);
    assert_eq!(s.rule, SubstrateRule::EmptyBirth);
    assert_eq!((s.kind, s.age, s.tribe_hint), (CellKind::Life, 1, 2));
    // a dead cell with three live neighbours wakes
    g.kinds[2 * 10 + 2] = CellKind::Dead;
    let s = g.cell_step(2, 2, 1, 9, false, g.mood());
    assert_eq!(s.rule, SubstrateRule::DeadWakes);
    assert_eq!((s.kind, s.age), (CellKind::Life, 1));
    // a live cell with two live neighbours metabolizes
    let s = g.cell_step(2, 1, 1, 9, false, g.mood());
    assert_eq!(s.rule, SubstrateRule::LifeMetabolizes);
    assert_eq!((s.kind, s.age), (CellKind::Life, 6));
}

#[test]
fn roots_stay_roots() {
    let mut g = blank(12, 12);
    for x in 0..12 {
        g.kinds[11 * 12 + x] = CellKind::Root;
        g.kinds[10 * 12 + x] = CellKind::Root;
    }
    let m = g.mood();
    for x in 0..12 {
        let s = g.cell_step(x, 11, 3, 1, false, m);
        assert_eq!(s.kind, CellKind::Root);
        assert_eq!(s.rule, SubstrateRule::RootOvercrowded);
        assert_eq!(s.age, 6);
        assert_eq!(settle_dry(s), s);
    }
}

#[test]
fn ages_saturate() {
    let mut g = blank(6, 6);
    g.kinds[0] = CellKind::Mutagen;
    g.ages[0] = u16::MAX;
    let s = g.cell_step(0, 0, 1, 1, false, g.mood());
    assert_eq!(s.rule, SubstrateRule::MutagenDecays);
    assert_eq!(s.age, u16::MAX);
}

#[test]
fn running_dry() {
    let step = |rule, kind| CellStep { rule, kind, age: 7, tribe_hint: 3, nutrients: 1 };
    // Surviving life does not die of running dry.
    let s = settle_dry(step(SubstrateRule::LifeMetabolizes, CellKind::Life));
    assert_eq!((s.kind, s.age), (CellKind::Life, 7));
    assert_eq!(SubstrateRule::LifeMetabolizes.dry_kind(), None);
    let s = settle_dry(step(SubstrateRule::SporeMetabolizes, CellKind::Spore));
    assert_eq!((s.kind, s.age), (CellKind::Dead, 7));
    let s = settle_dry(step(SubstrateRule::NutrientDecays, CellKind::Nutrient));
    assert_eq!((s.kind, s.age), (CellKind::Empty, 0));
    let s = settle_dry(step(SubstrateRule::DeadDecays, CellKind::Dead));
    assert_eq!((s.kind, s.age), (CellKind::Empty, 0));
    let s = settle_dry(step(SubstrateRule::MutagenDecays, CellKind::Mutagen));
    assert_eq!((s.kind, s.age), (CellKind::Nutrient, 7));
    let s = settle_dry(step(SubstrateRule::NestDecays, CellKind::Nest));
    assert_eq!((s.kind, s.age), (CellKind::Nutrient, 7));
    let kept = step(SubstrateRule::LifeNursed, CellKind::Life);
    assert_eq!(settle_dry(kept), kept);
    assert_eq!(SubstrateRule::LifeNursed.dry_kind(), None);
}

#[test]
fn seeded_substrate() {
    let g = SubstrateGrid::seeded(0xC011, 10, 5);
    assert_eq!((g.width, g.height), (24, 12));
    let g = SubstrateGrid::seeded(0xC011, 96, 48);
    assert_eq!((g.width, g.height), (96, 48));
    assert_eq!(g.kinds.len(), 96 * 48);
    for y in 0..48 {
        for x in 0..96 {
            let i = y * 96 + x;
            assert_eq!((g.kinds[i], g.tribe_hints[i]), initial_cell_kind(0xC011, x, y, 48));
            assert_eq!(g.ages[i], 0);
        }
    }
    assert!(g.count_kind(CellKind::Root) > 0);
}

#[test]
fn deposits() {
    assert_eq!(deposit_kind(CellKind::Root, Some(Archetype::Grazer), true, 500), None);
    assert_eq!(deposit_kind(CellKind::Empty, None, false, 0), Some(CellKind::Life));
    assert_eq!(deposit_kind(CellKind::Empty, Some(Archetype::Grazer), false, 10), Some(CellKind::Nutrient));
    assert_eq!(deposit_kind(CellKind::Empty, Some(Archetype::Hunter), false, 10), Some(CellKind::Dead));
    assert_eq!(deposit_kind(CellKind::Empty, Some(Archetype::Leviathan), false, 10), Some(CellKind::Nest));
    assert_eq!(deposit_kind(CellKind::Empty, Some(Archetype::Mycelial), false, 10), Some(CellKind::Spore));
    assert_eq!(deposit_kind(CellKind::Empty, Some(Archetype::Phantom), false, 10), Some(CellKind::Mutagen));
    assert_eq!(deposit_kind(CellKind::Empty, Some(Archetype::Orbiter), false, 10), Some(CellKind::Life));
    assert_eq!(deposit_kind(CellKind::Dead, None, false, 80), None);
    assert_eq!(deposit_kind(CellKind::Dead, None, false, 81), Some(CellKind::Life));
    assert_eq!(deposit_kind(CellKind::Nutrient, Some(Archetype::Hunter), false, 500), None);
    assert_eq!(deposit_kind(CellKind::Nutrient, Some(Archetype::Mycelial), false, 1), Some(CellKind::Spore));
    assert_eq!(deposit_kind(CellKind::Mutagen, None, false, 500), None);
    assert_eq!(deposit_kind(CellKind::Mutagen, None, true, 100), Some(CellKind::Life));
    assert_eq!(deposit_kind(CellKind::Mutagen, None, true, 111), Some(CellKind::Mutagen));
    assert_eq!(deposit_kind(CellKind::Nest, None, false, 125), None);
    assert_eq!(deposit_kind(CellKind::Spore, Some(Archetype::Reaper), false, 126), Some(CellKind::Dead));
    assert_eq!(deposit_signal(Some(Archetype::Harvester)), Some(SignalKind::Hunger));
    assert_eq!(deposit_signal(Some(Archetype::Reaper)), Some(SignalKind::Fear));
    assert_eq!(deposit_signal(Some(Archetype::Architect)), Some(SignalKind::Growth));
    assert_eq!(deposit_signal(Some(Archetype::Parasite)), Some(SignalKind::Danger));
    assert_eq!(deposit_signal(Some(Archetype::Swarmer)), None);
    assert_eq!(deposit_signal(None), None);
}

#[test]
fn eating() {
    for k in [CellKind::Empty, CellKind::Root, CellKind::Dead, CellKind::Nutrient, CellKind::Spore] {
        assert_eq!(consume_outcome(k, true), None);
        assert_eq!(consume_outcome(k, false), None);
    }
    assert_eq!(consume_outcome(CellKind::Life, true), Some((CellKind::Life, CellKind::Dead)));
    assert_eq!(consume_outcome(CellKind::Nest, true), Some((CellKind::Nest, CellKind::Dead)));
    assert_eq!(consume_outcome(CellKind::Mutagen, true), Some((CellKind::Mutagen, CellKind::Nutrient)));
    assert_eq!(consume_outcome(CellKind::Life, false), Some((CellKind::Life, CellKind::Empty)));
    assert_eq!(consume_outcome(CellKind::Mutagen, false), Some((CellKind::Mutagen, CellKind::Empty)));
}

#[test]
fn roots_grow_from_old_parents() {
    let mut g = SubstrateGrid::seeded(0xC011, 96, 48);
    for i in 0..g.kinds.len() {
        if g.kinds[i] == CellKind::Root {
            g.ages[i] = 300;
        }
    }
    let m = g.mood();
    assert!(m.root_count < m.root_cap);
    let mut grown = 0;
    for cycle in 1..40u64 {
        let rich = rich_flags(cycle, g.kinds.len());
        assert!(g.phases_fit(cycle, 0xC011));
        let plan = g.plan_tick(cycle, 0xC011, &rich);
        let expected = naive_tick(&g, cycle, 0xC011, &rich);
        for (i, step) in plan.iter().enumerate() {
            assert_eq!((step.kind, step.age, step.tribe_hint), expected[i]);
            if matches!(step.rule, SubstrateRule::RootInvasion | SubstrateRule::RootSprout) {
                assert_ne!(g.kinds[i], CellKind::Root);
                assert_eq!(step.age, if step.rule == SubstrateRule::RootInvasion { 0 } else { 1 });
                grown += 1;
            }
        }
    }
    assert!(grown > 0);
}

#[test]
fn survival_with_two_or_three_live_neighbours() {
    // A live cell between two live cells and two roots survives.
    let mut g = blank(10, 10);
    for (x, y) in [(5, 5), (4, 5), (6, 5)] {
        g.kinds[y * 10 + x] = CellKind::Life;
    }
    g.kinds[4 * 10 + 5] = CellKind::Root;
    g.kinds[6 * 10 + 5] = CellKind::Root;
    // Three nutrients beside it do not turn it to a spore either.
    for (x, y) in [(4, 4), (6, 6), (4, 6)] {
        g.kinds[y * 10 + x] = CellKind::Nutrient;
    }
    for cycle in 1..40u64 {
        let s = g.cell_step(5, 5, cycle, 9, false, g.mood());
        assert_eq!(s.kind, CellKind::Life, "cycle {}", cycle);
        assert_eq!(settle_dry(s).kind, CellKind::Life);
    }
    // Crowded by five living neighbours of other kinds, three live ones still keep it.
    let mut g = blank(10, 10);
    g.kinds[5 * 10 + 5] = CellKind::Life;
    for (x, y) in [(4, 4), (5, 4), (6, 4)] {
        g.kinds[y * 10 + x] = CellKind::Life;
    }
    for (x, y) in [(4, 6), (6, 6)] {
        g.kinds[y * 10 + x] = CellKind::Spore;
    }
    assert_eq!(g.cell_step(5, 5, 3, 3, true, g.mood()).kind, CellKind::Life);
}

#[test]
fn whole_tick_writes_back() {
    let g = random_grid(0xAB, 30, 16, 400);
    let cycle = g.begin_tick(41, 7).expect("fits");
    assert_eq!(cycle, 42);
    assert_eq!(g.begin_tick(u64::MAX, 7), None);
    let rich = rich_flags(3, g.kinds.len());
    let plan = g.plan_tick(cycle, 7, &rich);
    let dry: Vec<bool> = (0..plan.len()).map(|i| i % 3 == 0).collect();
    let mut next = SubstrateGrid {
        width: g.width,
        height: g.height,
        kinds: g.kinds.clone(),
        ages: g.ages.clone(),
        tribe_hints: g.tribe_hints.clone(),
    };
    next.apply_tick(&plan, &dry);
    assert_eq!((next.width, next.height), (g.width, g.height));
    for i in 0..plan.len() {
        let landed = if dry[i] { settle_dry(plan[i]) } else { plan[i] };
        assert_eq!((next.kinds[i], next.ages[i], next.tribe_hints[i]), (landed.kind, landed.age, landed.tribe_hint));
        let (x, y) = (i % g.width, i / g.width);
        if g.kinds[i] == CellKind::Life && (2..=3).contains(&g.life_neighbors(x, y)) {
            assert_eq!(next.kinds[i], CellKind::Life);
        }
        if g.kinds[i] == CellKind::Root {
            assert_eq!(next.kinds[i], CellKind::Root);
        }
    }
}
