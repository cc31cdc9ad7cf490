use symbiote::cluster::{
    cluster_events, detect_groups, effective_archetype, group_majorities, label_members, min_group_size, ClusterBook,
    ClusterEvents,
};
use symbiote::hashing::hash;
use symbiote::memory::SubstrateLedger;
use symbiote::particle::{RareTrait, Tribe};
use symbiote::species::{Archetype, SpeciesBank};

/// The link search as a stack-driven flood from each unvisited particle.
fn flood_groups(links: &[Vec<bool>]) -> Vec<Vec<usize>> {
    let n = links.len();
    let mut visited = vec![false; n];
    let mut groups = Vec::new();
    for i in 0..n {
        if visited[i] {
            continue;
        }
        let mut stack = vec![i];
        let mut group = Vec::new();
        visited[i] = true;
        while let Some(idx) = stack.pop() {
            group.push(idx);
            for j in 0..n {
                if visited[j] {
                    continue;
                }
                if links[idx][j] {
                    visited[j] = true;
                    stack.push(j);
                }
            }
        }
        groups.push(group);
    }
    groups
}

fn random_links(seed: u64, n: usize, density: usize) -> Vec<Vec<bool>> {
    (0..n).map(|i| (0..n).map(|j| hash(seed, i, j) % 1000 < density).collect()).collect()
}

#[test]
fn groups_follow_link_chains() {
    let links = vec![
        vec![false, false, true, false, false],
        vec![false, false, false, false, false],
        vec![false, false, false, false, true],
        vec![false, true, false, false, false],
        vec![false, false, false, false, false],
    ];
    assert_eq!(detect_groups(&links), vec![vec![0, 2, 4], vec![1], vec![3]]);
    assert_eq!(detect_groups(&Vec::new()), Vec::<Vec<usize>>::new());
    for seed in 0..20u64 {
        for (n, density) in [(12usize, 80usize), (40, 30), (60, 12), (25, 300)] {
            let links = random_links(seed, n, density);
            let groups = detect_groups(&links);
            assert_eq!(groups, flood_groups(&links));
            let mut seen = vec![0; n];
            for g in &groups {
                for &k in g {
                    seen[k] += 1;
                }
            }
            assert!(seen.iter().all(|&c| c == 1));
        }
    }
}

#[test]
fn group_majority() {
    let tribes = vec![Tribe::Deep, Tribe::Moss, Tribe::Deep, Tribe::Moss, Tribe::Solar];
    let rares = vec![RareTrait::Common, RareTrait::Radiant, RareTrait::Radiant, RareTrait::Common, RareTrait::Devourer];
    assert_eq!(group_majorities(&tribes, &rares), (Tribe::Moss, RareTrait::Common));
    let tribes = vec![Tribe::Static, Tribe::Static, Tribe::Blood];
    let rares = vec![RareTrait::SporeKing, RareTrait::SporeKing, RareTrait::Common];
    assert_eq!(group_majorities(&tribes, &rares), (Tribe::Static, RareTrait::SporeKing));
    assert_eq!(group_majorities(&Vec::new(), &Vec::new()), (Tribe::Blood, RareTrait::Common));
}

#[test]
fn cluster_bookkeeping() {
    assert_eq!(min_group_size(0), 9);
    assert_eq!(min_group_size(179), 9);
    assert_eq!(min_group_size(180), 6);
    assert_eq!(min_group_size(539), 6);
    assert_eq!(min_group_size(540), 4);
    let e = cluster_events(100, 10, 4, 1, 2);
    assert_eq!(e, ClusterEvents { births: 1, merges: 0, splits: 0, extinctions: 2 });
    let e = cluster_events(200, 10, 4, 1, 0);
    assert_eq!(e, ClusterEvents { births: 1, merges: 6, splits: 0, extinctions: 0 });
    let e = cluster_events(200, 4, 10, 2, 3);
    assert_eq!(e, ClusterEvents { births: 2, merges: 0, splits: 6, extinctions: 3 });
    let e = cluster_events(200, 4, 6, 2, 0);
    assert_eq!(e, ClusterEvents { births: 2, merges: 0, splits: 0, extinctions: 0 });
    assert_eq!(effective_archetype(Some(Archetype::Reaper), Some(Archetype::Grazer)), Some(Archetype::Reaper));
    assert_eq!(effective_archetype(None, Some(Archetype::Grazer)), Some(Archetype::Grazer));
    assert_eq!(effective_archetype(None, None), None);
}

#[test]
fn species_registry() {
    let mut bank: SpeciesBank<u32> = SpeciesBank::new();
    assert_eq!(bank.next_id, 1);
    let a = bank.create(Tribe::Deep, 7, Archetype::Grazer, 12, 100, None);
    let b = bank.create(Tribe::Moss, 8, Archetype::Hunter, 30, 120, Some(a));
    let c = bank.create(Tribe::Moss, 9, Archetype::Hunter, 5, 130, Some(a));
    let d = bank.create(Tribe::Solar, 10, Archetype::Orbiter, 5, 130, Some(99));
    assert_eq!((a, b, c, d), (1, 2, 3, 4));
    assert_eq!(bank.species[0].name, "GRZ-1");
    assert_eq!(bank.species[1].name, "HNT-2");
    assert_eq!(bank.species[0].descendants, 2);
    assert_eq!(bank.species[1].parent_id, Some(1));
    assert_eq!(bank.species[3].parent_id, Some(99));
    assert_eq!(bank.species[1].sightings, 1);
    assert_eq!(bank.active_count(), 4);
    let id = bank.sight(1, 500, 20, 11, Archetype::Swarmer);
    assert_eq!(id, 2);
    assert_eq!(bank.species[1].last_seen_age, 500);
    assert_eq!(bank.species[1].peak_size, 30);
    assert_eq!(bank.species[1].sightings, 2);
    assert_eq!(bank.species[1].genome, 11);
    assert_eq!(bank.species[1].archetype, Archetype::Swarmer);
    assert_eq!(bank.mark_extinctions(2_300), 0);
    assert_eq!(bank.mark_extinctions(2_301), 1);
    assert!(bank.species[0].extinct && !bank.species[2].extinct);
    assert_eq!(bank.mark_extinctions(2_331), 2);
    assert_eq!(bank.active_count(), 1);
    assert_eq!(bank.extinct_count(), 3);
    assert!(!bank.species[1].extinct);
    assert_eq!(bank.mark_extinctions(9_000), 1);
    assert_eq!(bank.extinct_count(), 4);
    assert_eq!(bank.mark_extinctions(9_000), 0);
}

#[test]
fn species_lookup_and_dominance() {
    let mut bank: SpeciesBank<()> = SpeciesBank::new();
    bank.create(Tribe::Deep, (), Archetype::Grazer, 1, 0, None);
    bank.create(Tribe::Deep, (), Archetype::Hunter, 1, 0, None);
    bank.create(Tribe::Deep, (), Archetype::Hunter, 1, 0, None);
    bank.create(Tribe::Deep, (), Archetype::Grazer, 1, 5_000, None);
    assert_eq!(bank.dominant_archetype(), Archetype::Hunter);
    let census = bank.archetype_census();
    assert_eq!((census[1], census[2], census.iter().sum::<usize>()), (2, 2, 4));
    bank.mark_extinctions(3_000);
    assert_eq!(bank.archetype_census()[2], 1);
    assert_eq!(bank.archetype_census()[1], 0);
    assert_eq!(bank.dominant_archetype(), Archetype::Grazer);
    let lookup = bank.archetype_lookup();
    assert_eq!(lookup.len(), 6);
    assert_eq!(lookup[0], None);
    assert_eq!(lookup[1], Some(Archetype::Grazer));
    assert_eq!(lookup[2], Some(Archetype::Hunter));
    assert_eq!(lookup[4], Some(Archetype::Grazer));
    assert_eq!(lookup[5], None);
    let empty: SpeciesBank<()> = SpeciesBank::new();
    assert_eq!(empty.dominant_archetype(), Archetype::Swarmer);
}

#[test]
fn substrate_ledger() {
    let mut l = SubstrateLedger::new();
    l.observe_tree(3, 0, 0, 0);
    l.observe_tree(1, 4, 0, 2);
    l.observe_tree(0, 0, 0, 0);
    assert_eq!((l.peak_root_cells, l.peak_tree_trunk_cells, l.peak_tree_canopy_cells), (3, 4, 2));
    assert_eq!(l.tree_growth_events, 2);
    l.observe_tree_wall_event();
    l.observe_tree_surface_flow_event();
    l.observe_tree_surface_flow_event();
    assert_eq!((l.tree_wall_events, l.root_collision_events), (1, 1));
    assert_eq!((l.tree_surface_flow_events, l.root_corridor_events), (2, 2));
    l.observe_substrate(3, 100, 0, 5);
    assert_eq!((l.substrate_starved_ticks, l.substrate_overgrown_ticks, l.root_choked_ticks), (1, 0, 0));
    l.observe_substrate(19, 100, 2, 5);
    assert_eq!((l.substrate_starved_ticks, l.substrate_overgrown_ticks, l.root_choked_ticks), (1, 1, 0));
    l.observe_substrate(6, 100, 8, 0);
    assert_eq!((l.substrate_starved_ticks, l.substrate_overgrown_ticks, l.root_choked_ticks), (1, 1, 1));
    l.observe_substrate(0, 0, 0, 0);
    assert_eq!(l.substrate_starved_ticks, 2);
    assert_eq!(l.total_cells_consumed, 10);
    assert_eq!((l.root_pressure_samples, l.substrate_balance_samples), (4, 4));
    assert_eq!((l.peak_living_cells, l.peak_root_cells), (19, 8));
    l.tree_wall_events = u64::MAX;
    l.observe_tree_wall_event();
    assert_eq!(l.tree_wall_events, u64::MAX);
}

#[test]
fn cluster_book_hands_out_fresh_ids() {
    let mut book = ClusterBook::start(7);
    assert_eq!(book, ClusterBook { next_id: 7, births: 0 });
    assert_eq!(book.register(Some(3)), 3);
    assert_eq!(book, ClusterBook { next_id: 7, births: 0 });
    assert_eq!(book.register(None), 7);
    assert_eq!(book.register(None), 8);
    assert_eq!(book.register(Some(7)), 7);
    assert_eq!(book, ClusterBook { next_id: 9, births: 2 });
}

#[test]
fn labels_go_to_group_members_only() {
    let mut labels = vec![None, Some(4), None, Some(4), None];
    label_members(&mut labels, &vec![3, 0, 2], 11);
    assert_eq!(labels, vec![Some(11), Some(4), Some(11), Some(11), None]);
    label_members(&mut labels, &vec![], 12);
    assert_eq!(labels, vec![Some(11), Some(4), Some(11), Some(11), None]);
}
