use symbiote::particle::{tribe_lane, RareTrait, Tribe, TribeLane};
use symbiote::sim::{opening_report, trophic_pressure, StepReport, TrophicPressure};
use symbiote::species::Archetype;

fn world(harvesters: usize, devourers: usize, reapers: usize, others: usize) -> (Vec<Option<Archetype>>, Vec<RareTrait>) {
    let mut a = Vec::new();
    let mut r = Vec::new();
    for _ in 0..harvesters {
        a.push(Some(Archetype::Harvester));
        r.push(RareTrait::Common);
    }
    for _ in 0..devourers {
        a.push(None);
        r.push(RareTrait::Devourer);
    }
    for _ in 0..reapers {
        a.push(Some(Archetype::Reaper));
        r.push(RareTrait::Common);
    }
    for i in 0..others {
        a.push(if i % 2 == 0 { Some(Archetype::Grazer) } else { None });
        r.push(RareTrait::Radiant);
    }
    (a, r)
}

#[test]
fn quiet_world_needs_no_reapers() {
    let (a, r) = world(0, 0, 2, 50);
    let p = trophic_pressure(&a, &r, 500, 1000);
    assert_eq!(
        p,
        TrophicPressure {
            harvester_particles: 0,
            reaper_particles: 2,
            low_substrate: false,
            harvester_overgrowth: false,
            reaper_pressure_needed: false,
        }
    );
}

#[test]
fn devourers_count_as_harvesters() {
    let (a, r) = world(3, 2, 1, 95);
    let p = trophic_pressure(&a, &r, 500, 1000);
    assert_eq!(p.harvester_particles, 5);
    assert_eq!(p.reaper_particles, 1);
    // 5 of 101 is under 9.5%: no pressure yet.
    assert!(!p.reaper_pressure_needed);
    assert!(!p.harvester_overgrowth);
}

#[test]
fn ten_harvesters_call_reapers() {
    let (a, r) = world(10, 0, 0, 200);
    let p = trophic_pressure(&a, &r, 500, 1000);
    assert!(p.reaper_pressure_needed);
    assert!(!p.harvester_overgrowth);
}

#[test]
fn overgrowth_and_starvation_thresholds() {
    // 16 of 100 is over 15.5%.
    let (a, r) = world(16, 0, 0, 84);
    let p = trophic_pressure(&a, &r, 34, 1000);
    assert!(p.harvester_overgrowth);
    assert!(p.reaper_pressure_needed);
    assert!(p.low_substrate);
    // 15 of 100 is not; 35 of 1000 living is not low.
    let (a, r) = world(15, 0, 0, 85);
    let p = trophic_pressure(&a, &r, 35, 1000);
    assert!(!p.harvester_overgrowth);
    assert!(!p.low_substrate);
    // Six harvesters on a thin substrate call the reapers.
    let (a, r) = world(6, 0, 0, 194);
    assert!(trophic_pressure(&a, &r, 74, 1000).reaper_pressure_needed);
    assert!(!trophic_pressure(&a, &r, 75, 1000).reaper_pressure_needed);
}

#[test]
fn empty_world_and_substrate() {
    let p = trophic_pressure(&Vec::new(), &Vec::new(), 0, 0);
    assert_eq!(p.harvester_particles, 0);
    assert!(p.low_substrate);
    assert!(!p.reaper_pressure_needed);
    let report = opening_report(p, 0, 0);
    assert_eq!(report, StepReport::default());
    let (a, r) = world(4, 0, 3, 0);
    let report = opening_report(trophic_pressure(&a, &r, 9, 40), 9, 40);
    assert_eq!(report.harvester_particles, 4);
    assert_eq!(report.reaper_particles, 3);
    assert_eq!(report.living_substrate, 9);
    assert_eq!(report.total_substrate, 40);
    assert_eq!(report.cells_consumed + report.harvesters_consumed, 0);
}

#[test]
fn tribe_lanes() {
    assert_eq!(tribe_lane(Tribe::Blood, Tribe::Moss), TribeLane::Ahead);
    assert_eq!(tribe_lane(Tribe::Moss, Tribe::Blood), TribeLane::Behind);
    assert_eq!(tribe_lane(Tribe::Static, Tribe::Blood), TribeLane::Ahead);
    assert_eq!(tribe_lane(Tribe::Blood, Tribe::Static), TribeLane::Behind);
    assert_eq!(tribe_lane(Tribe::Blood, Tribe::Deep), TribeLane::Apart);
    for i in 0..6 {
        let t = Tribe::from_index(i);
        assert_eq!(tribe_lane(t, t), TribeLane::Apart);
        for j in 0..6 {
            let u = Tribe::from_index(j);
            assert_eq!(tribe_lane(t, u) == TribeLane::Ahead, tribe_lane(u, t) == TribeLane::Behind);
        }
    }
}
