use symbiote::automata::{initial_cell_kind, CellKind, SubstrateGrid};
use symbiote::density::{refill_pressure, spawn_pressure, DensityBand, DensityPressure, DensitySnapshot, DensityTargets};
use symbiote::hashing::hash;
use symbiote::memory::{apex_count, herbivore_count, prey_count, trophic_balance_label, ArchetypeCensus};
use symbiote::tree::{accept_wiggle, allow_root_direction, growth_pressure, is_soft_root_target_name, root_cap, tree_stage_for_height, TreePolicy, TreeStage};

fn float_stage(y: usize, height: usize) -> TreeStage {
    let ratio = y as f32 / height.max(1) as f32;
    if ratio > 0.72 {
        TreeStage::Root
    } else if ratio > 0.38 {
        TreeStage::Trunk
    } else if ratio > 0.18 {
        TreeStage::Branch
    } else {
        TreeStage::Canopy
    }
}

#[allow(clippy::too_many_arguments)]
fn float_growth_pressure(cycle: u64, height_ratio: f32, v: bool, d: bool, l: bool, age: u32, count: usize, cap: usize) -> usize {
    let early: usize = if cycle < 4_200 && height_ratio > 0.42 { 34 } else if cycle < 6_800 && height_ratio > 0.28 { 16 } else { 0 };
    let bias: usize = if v { 62 } else if d { 38 } else if l { 9 } else { 0 };
    let maturity: usize = if age > 260 { 18 } else if age > 120 { 13 } else if age > 40 { 8 } else { 4 };
    let taper: usize = if height_ratio < 0.22 { 28 } else if height_ratio < 0.36 { 14 } else if height_ratio < 0.48 { 6 } else { 0 };
    let pop: usize = if count > cap.saturating_mul(3) / 4 { 18 } else if count > cap / 2 { 8 } else { 0 };
    bias.saturating_add(maturity).saturating_add(early).saturating_sub(taper + pop)
}

#[test]
fn tree_stage_matches_depth_ratio() {
    for height in 1..400usize {
        for y in 0..height + 2 {
            assert_eq!(tree_stage_for_height(y, height), float_stage(y, height), "y={} h={}", y, height);
        }
    }
    assert_eq!(tree_stage_for_height(47, 48), TreeStage::Root);
    assert_eq!(tree_stage_for_height(0, 48), TreeStage::Canopy);
    assert_eq!(tree_stage_for_height(5, 0), TreeStage::Root);
}

#[test]
fn growth_pressure_examples() {
    assert_eq!(growth_pressure(0, 47, 48, true, false, false, 300, 0, 100), 62 + 18 + 34);
    assert_eq!(growth_pressure(10_000, 0, 48, false, false, false, 0, 100, 100), 0);
    assert_eq!(growth_pressure(5_000, 20, 48, false, true, false, 50, 60, 100), 38 + 8 + 16 - 6 - 8);
    for height in [12usize, 48, 96, 200] {
        for y in 0..height {
            for cycle in [0u64, 5_000, 9_000] {
                let ratio = y as f32 / height.max(1) as f32;
                assert_eq!(
                    growth_pressure(cycle, y, height, y % 2 == 0, y % 3 == 0, true, (y * 7) as u32, y, 40),
                    float_growth_pressure(cycle, ratio, y % 2 == 0, y % 3 == 0, true, (y * 7) as u32, y, 40)
                );
            }
        }
    }
}

#[test]
fn root_policy() {
    let p = TreePolicy::default();
    assert_eq!(p.root_cap_divisor, 26);
    assert_eq!(root_cap(96 * 48, 96, p), 177);
    assert_eq!(root_cap(100, 10, p), 12);
    assert_eq!(root_cap(100, 60, p), 30);
    assert!(is_soft_root_target_name("Empty"));
    assert!(is_soft_root_target_name("Spore"));
    assert!(!is_soft_root_target_name("Root"));
    assert!(!is_soft_root_target_name("Emptyish"));
    assert!(allow_root_direction(false, true, false, false));
    assert!(allow_root_direction(true, false, false, true));
    assert!(!allow_root_direction(false, false, false, true));
    assert!(!accept_wiggle(true, false, 5_201));
    assert!(accept_wiggle(true, false, 5_200));
    assert!(!accept_wiggle(false, true, 2_201));
    assert!(accept_wiggle(false, false, 9_999));
}

#[test]
fn density_snapshot_counts() {
    let s = DensitySnapshot::new(10, 10, 20, 30, 10);
    assert_eq!(s.area(), 100);
    assert_eq!(s.occupied(), 60);
    assert_eq!(s.empty(), 40);
    let full = DensitySnapshot::new(4, 4, 10, 10, 10);
    assert_eq!(full.occupied(), 16);
    assert_eq!(full.empty(), 0);
    let huge = DensitySnapshot::new(usize::MAX, 2, usize::MAX, 1, 0);
    assert_eq!(huge.area(), usize::MAX);
    assert_eq!(huge.occupied(), usize::MAX);
    assert_eq!(huge.empty(), 0);
}

#[test]
fn spawn_pressure_values() {
    assert_eq!(spawn_pressure(50, 10, 30, 50), 0);
    assert_eq!(spawn_pressure(60, 10, 30, 50), 0);
    assert_eq!(spawn_pressure(10, 10, 30, 50), 1000);
    assert_eq!(spawn_pressure(30, 10, 30, 50), 520);
    assert_eq!(spawn_pressure(20, 10, 30, 50), 520 + 10 * 480 / 20);
    assert_eq!(spawn_pressure(40, 10, 30, 50), (10 * 520 / 20) as u16);
    let mut last = u16::MAX;
    for c in 0..80 {
        let p = spawn_pressure(c, 10, 30, 50);
        assert!(p <= last && p <= 1000);
        last = p;
    }
}

#[test]
fn refill_and_bands() {
    let targets = DensityTargets {
        min_cells: 5,
        target_cells: 40,
        max_cells: 80,
        min_particles: 5,
        target_particles: 50,
        max_particles: 90,
        target_roots: 10,
        reserved_empty: 20,
    };
    assert_eq!(refill_pressure(DensitySnapshot::new(10, 10, 10, 20, 0), targets), 60);
    assert_eq!(refill_pressure(DensitySnapshot::new(10, 10, 50, 60, 0), targets), 0);
    let big = DensityTargets { target_cells: 5000, ..targets };
    assert_eq!(refill_pressure(DensitySnapshot::new(10, 10, 0, 0, 0), big), 1000);
    let p = |band| DensityPressure {
        band,
        cell_spawn_pressure: 0,
        particle_spawn_pressure: 0,
        root_growth_pressure: 0,
        refill_pressure: 0,
        crowding_pressure: 0,
    };
    assert!(p(DensityBand::Saturated).is_crowded() && !p(DensityBand::Saturated).wants_refill());
    assert!(p(DensityBand::Sparse).wants_refill() && !p(DensityBand::Sparse).is_crowded());
    assert!(!p(DensityBand::Balanced).wants_refill() && !p(DensityBand::Balanced).is_crowded());
}

fn small_grid(kinds: Vec<CellKind>, w: usize, h: usize) -> SubstrateGrid {
    let n = w * h;
    SubstrateGrid { width: w, height: h, kinds, ages: vec![0; n], tribe_hints: vec![0; n] }
}

#[test]
fn substrate_neighbour_counts() {
    let (e, l) = (CellKind::Empty, CellKind::Life);
    let kinds = vec![
        l, e, CellKind::Root, e, //
        e, l, e, CellKind::Spore, //
        CellKind::Dead, e, l, e, //
        CellKind::Nest, e, e, l,
    ];
    let g = small_grid(kinds, 4, 4);
    assert_eq!(g.life_neighbors(1, 1), 2);
    assert_eq!(g.kind_neighbors(1, 1, CellKind::Root), 1);
    assert_eq!(g.kind_neighbors(0, 0, CellKind::Life), 2);
    assert_eq!(g.alive_neighbors(0, 0), 4);
    assert_eq!(g.count_kind(CellKind::Life), 4);
    assert_eq!(g.living_cells(), 7);
    assert_eq!(g.protected_cells(), 1);
    assert_eq!(g.total_cells(), 16);
}

#[test]
fn substrate_radius_and_ages() {
    let w = 7;
    let h = 7;
    let mut kinds = vec![CellKind::Empty; w * h];
    let mut ages = vec![0u16; w * h];
    for (x, y, age) in [(2usize, 4usize, 30u16), (4, 4, 50), (3, 5, 10), (0, 0, 99)] {
        kinds[y * w + x] = CellKind::Root;
        ages[y * w + x] = age;
    }
    let g = SubstrateGrid { width: w, height: h, kinds, ages, tribe_hints: vec![0; w * h] };
    assert_eq!(g.kind_radius_neighbors(3, 3, CellKind::Root, 1), 2);
    assert_eq!(g.kind_radius_neighbors(3, 3, CellKind::Root, 2), 3);
    assert_eq!(g.kind_radius_neighbors(3, 3, CellKind::Root, 3), 4);
    assert_eq!(g.oldest_neighbor_age(3, 4, CellKind::Root), 50);
    assert_eq!(g.oldest_neighbor_age(6, 6, CellKind::Root), 99);
    assert_eq!(g.oldest_neighbor_age(3, 1, CellKind::Root), 0);
}

#[test]
fn substrate_tribe_hint() {
    let w = 5;
    let h = 5;
    let mut hints = vec![0usize; w * h];
    for (x, y, t) in [(1usize, 1usize, 3usize), (2, 1, 9), (3, 1, 4), (1, 2, 4), (2, 2, 2)] {
        hints[y * w + x] = t;
    }
    let g = SubstrateGrid { width: w, height: h, kinds: vec![CellKind::Empty; w * h], ages: vec![0; w * h], tribe_hints: hints };
    // around (2, 2): hints 3, 9%6=3, 4, 4, 2, 0, 0, 0, 0 -> tribe 0 wins with four.
    assert_eq!(g.local_tribe_hint(2, 2), 0);
    // around (4, 4): all zero except none -> 0.
    assert_eq!(g.local_tribe_hint(4, 4), 0);
    let mut hints = vec![5usize; w * h];
    hints[0] = 1;
    let g = SubstrateGrid { width: w, height: h, kinds: vec![CellKind::Empty; w * h], ages: vec![0; w * h], tribe_hints: hints };
    assert_eq!(g.local_tribe_hint(2, 2), 5);
}

#[test]
fn trunk_root_growth_requires_a_parent() {
    let w = 8;
    let h = 8;
    let kinds = vec![CellKind::Empty; w * h];
    let g = SubstrateGrid { width: w, height: h, kinds, ages: vec![0; w * h], tribe_hints: vec![0; w * h] };
    assert!(!g.should_grow_trunk_root(3, 3, 10, 1, 0, 100, 0, 0, 0));
    assert!(!g.should_grow_trunk_root(3, 3, 10, 1, 100, 100, 1, 0, 0));
}

#[test]
fn trunk_root_growth_decision() {
    let w = 10;
    let h = 10;
    let mut kinds = vec![CellKind::Empty; w * h];
    let mut ages = vec![0u16; w * h];
    kinds[6 * w + 4] = CellKind::Root;
    ages[6 * w + 4] = 300;
    let g = SubstrateGrid { width: w, height: h, kinds, ages, tribe_hints: vec![0; w * h] };
    let mut grew = 0;
    for cycle in 0..200u64 {
        let phase = hash(7 ^ 0x51A7_EEAF ^ cycle, 4, 5) as u64;
        let wiggle = hash(7 ^ 0xC0FF_EE11 ^ cycle, 4, 5) % 10_000;
        let cadence = if cycle < 1_500 && 5 * 25 > 10 * 12 { 4 } else { 6 };
        let pressure = growth_pressure(cycle, 5, 10, true, false, false, 300, 1, 100);
        let expected = cycle.checked_add(phase).map(|s| s % cadence == 0).unwrap_or(false) && wiggle <= 10_000 && 0 < pressure;
        if cycle.checked_add(phase).is_some() {
            assert_eq!(g.should_grow_trunk_root(4, 5, cycle, 7, 1, 100, 1, 1, 0), expected);
            if expected {
                grew += 1;
            }
        }
    }
    assert!(grew > 0);
}

#[test]
fn initial_substrate_kinds() {
    for y in 0..48usize {
        for x in 0..96usize {
            let n = hash(0xC011, x, y) % 10_000;
            let expected = if y >= 44 && n < 210 {
                CellKind::Root
            } else if n < 48 {
                CellKind::Life
            } else if n < 88 {
                CellKind::Nutrient
            } else if n < 108 {
                CellKind::Spore
            } else if n < 114 {
                CellKind::Mutagen
            } else {
                CellKind::Empty
            };
            let hint = if expected == CellKind::Empty { 0 } else { n % 6 };
            assert_eq!(initial_cell_kind(0xC011, x, y, 48), (expected, hint));
        }
    }
}

#[test]
fn trophic_census() {
    let mut counts = [0usize; 11];
    assert_eq!(trophic_balance_label(&counts), "basal");
    counts[9] = 1;
    counts[10] = 1;
    assert_eq!(trophic_balance_label(&counts), "cycling");
    counts = [0; 11];
    counts[9] = 8;
    assert_eq!(trophic_balance_label(&counts), "grazing");
    counts = [0; 11];
    counts[10] = 2;
    counts[1] = 9;
    assert_eq!(trophic_balance_label(&counts), "predatory");
    counts = [0; 11];
    counts[0] = 30;
    counts[2] = 2;
    assert_eq!(trophic_balance_label(&counts), "prey bloom");
    counts = [0; 11];
    counts[2] = 5;
    counts[0] = 3;
    assert_eq!(trophic_balance_label(&counts), "balanced");
    let c = [1, 2, 3, 4, 5, 6, 7, 8, 9, 10, 11];
    assert_eq!(prey_count(&c), 1 + 3 + 4 + 6 + 7 + 8 + 9);
    assert_eq!(herbivore_count(&c), 3 + 8 + 10);
    assert_eq!(apex_count(&c), 2 + 5 + 11);
}

#[test]
fn census_observation() {
    let mut census = ArchetypeCensus {
        live_counts: [0; 11],
        peak_counts: [0; 11],
        seen_counts: [0; 11],
        population_samples: 0,
        trophic_balance_label: String::from("unknown"),
    };
    let mut live = [0usize; 11];
    live[9] = 3;
    live[10] = 2;
    live[0] = 5;
    census.observe_archetypes(live);
    live[9] = 1;
    census.observe_archetypes(live);
    assert_eq!(census.population_samples, 2);
    assert_eq!(census.peak_counts[9], 3);
    assert_eq!(census.seen_counts[9], 4);
    assert_eq!(census.seen_counts[1], 0);
    assert_eq!(census.trophic_balance_label, "cycling");
    assert_eq!(census.trophic_status_line(), "cycling prey:5 herb:1 apex:2 peak_hrv:3 peak_rpr:2");
}
