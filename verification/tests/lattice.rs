use symbiote::life::{AxiomLattice, AxiomPatternState, AxiomSeed, AxiomStats, LifeCell};

fn grid(l: &AxiomLattice) -> Vec<bool> {
    let (w, h) = (l.width(), l.height());
    let mut out = Vec::with_capacity(w * h);
    for y in 0..h {
        for x in 0..w {
            out.push(l.sample_screen(x, y, w, h).is_alive());
        }
    }
    out
}

fn conway_step(cells: &[bool], w: usize, h: usize) -> Vec<bool> {
    let mut next = vec![false; w * h];
    for y in 0..h {
        for x in 0..w {
            let mut n = 0;
            for dy in [h - 1, 0, 1] {
                for dx in [w - 1, 0, 1] {
                    if dx == 0 && dy == 0 {
                        continue;
                    }
                    if cells[((y + dy) % h) * w + (x + dx) % w] {
                        n += 1;
                    }
                }
            }
            let alive = cells[y * w + x];
            next[y * w + x] = if alive { n == 2 || n == 3 } else { n == 3 };
        }
    }
    next
}

#[test]
fn new_lattice_has_minimum_size() {
    let l = AxiomLattice::new(1, 3, 2);
    assert_eq!(l.width(), 24);
    assert_eq!(l.height(), 12);
    let l = AxiomLattice::new(1, 96, 48);
    assert_eq!(l.width(), 96);
    assert_eq!(l.height(), 48);
}

#[test]
fn new_lattice_statistics() {
    let l = AxiomLattice::new(0xA011_0C1C, 96, 48);
    let s = l.stats();
    assert_eq!(s.generation, 0);
    assert_eq!(s.births, 0);
    assert_eq!(s.deaths, 0);
    assert_eq!(s.alive, l.alive_cells());
    assert_eq!(s.peak_alive, s.alive);
    assert_eq!(s.state, AxiomPatternState::Dormant);
    assert!(s.alive > 0);
}

#[test]
fn tick_follows_b3s23_on_the_torus() {
    let mut l = AxiomLattice::new(42, 40, 20);
    for _ in 0..6 {
        let before = grid(&l);
        let expected = conway_step(&before, l.width(), l.height());
        l.tick_b3s23();
        assert_eq!(grid(&l), expected);
    }
}

#[test]
fn tick_counts_births_and_deaths() {
    let mut l = AxiomLattice::new(9, 32, 16);
    for _ in 0..5 {
        let before = grid(&l);
        let before_alive = l.alive_cells();
        let generation = l.stats().generation;
        l.tick_b3s23();
        let after = grid(&l);
        let births = before.iter().zip(&after).filter(|(a, b)| !**a && **b).count();
        let deaths = before.iter().zip(&after).filter(|(a, b)| **a && !**b).count();
        let s = l.stats();
        assert_eq!(s.births, births);
        assert_eq!(s.deaths, deaths);
        assert_eq!(s.alive, l.alive_cells());
        assert_eq!(s.alive + s.deaths, before_alive + s.births);
        assert_eq!(s.generation, generation + 1);
        assert!(s.peak_alive >= s.alive);
    }
}

#[test]
fn reset_matches_a_new_lattice() {
    let mut a = AxiomLattice::new(5, 30, 20);
    for _ in 0..7 {
        a.tick_b3s23();
    }
    a.reset(77);
    let b = AxiomLattice::new(77, 30, 20);
    assert_eq!(grid(&a), grid(&b));
    let (sa, sb): (AxiomStats, AxiomStats) = (a.stats(), b.stats());
    assert_eq!(sa.generation, sb.generation);
    assert_eq!(sa.alive, sb.alive);
    assert_eq!(sa.peak_alive, sb.peak_alive);
    assert_eq!(sa.state, sb.state);
    assert_eq!(a.axiom_status_line(), b.axiom_status_line());
}

#[test]
fn same_seed_same_world() {
    let a = AxiomLattice::new(123, 50, 30);
    let b = AxiomLattice::new(123, 50, 30);
    assert_eq!(grid(&a), grid(&b));
}

#[test]
fn status_line_format() {
    let l = AxiomLattice::new(3, 24, 12);
    let alive = l.stats().alive;
    assert_eq!(
        l.axiom_status_line(),
        format!("AXIOM Dormant gen:0 live:{} birth:0 death:0 osc:0 drift:0", alive)
    );
}

#[test]
fn status_line_after_ticks() {
    let mut l = AxiomLattice::new(11, 30, 18);
    for _ in 0..3 {
        l.tick_b3s23();
    }
    let s = l.stats();
    assert_eq!(
        l.axiom_status_line(),
        format!(
            "AXIOM {:?} gen:{} live:{} birth:{} death:{} osc:{} drift:{}",
            s.state, s.generation, s.alive, s.births, s.deaths, s.oscillator_hits, s.translation_hits
        )
    );
}

#[test]
fn known_pattern_wraps_around_the_torus() {
    let mut l = AxiomLattice::new(8, 24, 12);
    let (w, h) = (l.width(), l.height());
    l.seed_known_pattern(AxiomSeed::Blinker, w - 1, h - 1);
    // Blinker cells (0,0), (1,0), (2,0) from origin (23, 11) wrap to columns 23, 0, 1.
    assert_eq!(l.sample_screen(w - 1, h - 1, w, h), LifeCell::Alive);
    assert_eq!(l.sample_screen(0, h - 1, w, h), LifeCell::Alive);
    assert_eq!(l.sample_screen(1, h - 1, w, h), LifeCell::Alive);
}

#[test]
fn pattern_points() {
    assert_eq!(AxiomSeed::Glider.points(), vec![(1, 0), (2, 1), (0, 2), (1, 2), (2, 2)]);
    assert_eq!(AxiomSeed::Diehard.points().len(), 7);
    assert_eq!(AxiomSeed::Blinker.points(), vec![(0, 0), (1, 0), (2, 0)]);
}

#[test]
fn zero_screen_samples_dead() {
    let l = AxiomLattice::new(1, 24, 12);
    assert_eq!(l.sample_screen(3, 3, 0, 10), LifeCell::Dead);
    assert_eq!(l.sample_screen(3, 3, 10, 0), LifeCell::Dead);
}

#[test]
fn screen_mapping_scales_and_clamps() {
    let l = AxiomLattice::new(1, 96, 48);
    assert_eq!(l.screen_to_grid(10, 10, 192, 96), (5, 5));
    assert_eq!(l.screen_to_grid(500, 500, 192, 96), (95, 47));
    assert_eq!(l.screen_to_grid(0, 0, 1, 1), (0, 0));
}

#[test]
fn neighbors_match_samples() {
    let l = AxiomLattice::new(31, 24, 12);
    let (w, h) = (l.width(), l.height());
    let g = grid(&l);
    for y in 0..h {
        for x in 0..w {
            let mut n = 0;
            for dy in [h - 1, 0, 1] {
                for dx in [w - 1, 0, 1] {
                    if (dx, dy) != (0, 0) && g[((y + dy) % h) * w + (x + dx) % w] {
                        n += 1;
                    }
                }
            }
            assert_eq!(l.alive_neighbors(x, y), n);
        }
    }
}

#[test]
fn classification_reports_a_known_state() {
    let mut l = AxiomLattice::new(0xA011_0C1C, 96, 48);
    for _ in 0..40 {
        l.tick_b3s23();
        let s = l.stats();
        if s.alive == 0 {
            assert_eq!(s.state, AxiomPatternState::Dormant);
        } else {
            assert_ne!(s.state, AxiomPatternState::Dormant);
        }
        if s.stable_ticks >= 3 && s.alive > 0 {
            assert_eq!(s.state, AxiomPatternState::Static);
        }
    }
    assert_eq!(l.stats().generation, 40);
}

#[test]
fn seed_prime_soup_resets_population() {
    let mut l = AxiomLattice::new(2, 24, 12);
    for _ in 0..4 {
        l.tick_b3s23();
    }
    l.seed_prime_soup();
    let fresh = AxiomLattice::new(2, 24, 12);
    assert_eq!(grid(&l), grid(&fresh));
    assert_eq!(l.stats().alive, fresh.stats().alive);
    assert_eq!(l.stats().peak_alive, l.stats().alive);
    assert_eq!(l.stats().generation, 4);
}
