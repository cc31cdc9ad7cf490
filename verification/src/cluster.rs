//! Colony bookkeeping shared by the cluster tracker: the events a tracker
//! update reports, rare-trait indices, and which archetypes adapt to roots
//! or follow corridors.

use vstd::prelude::*;
use crate::automata::first_best;
use crate::particle::{tribe_at, tribe_index, RareTrait, Tribe};
use crate::species::Archetype;

verus! {

/// What one cluster update observed.
#[derive(Clone, Copy, Debug, PartialEq, Eq, Structural)]
pub struct ClusterEvents {
    pub births: usize,
    pub merges: usize,
    pub splits: usize,
    pub extinctions: usize,
}

impl Default for ClusterEvents {
    fn default() -> (r: Self)
        ensures
            r == (ClusterEvents { births: 0, merges: 0, splits: 0, extinctions: 0 }),
    {
        ClusterEvents { births: 0, merges: 0, splits: 0, extinctions: 0 }
    }
}

/// The position of a rare trait in the fixed order, `Common` first.
pub open spec fn rare_position(t: RareTrait) -> nat {
    match t {
        RareTrait::Common => 0,
        RareTrait::ElderCore => 1,
        RareTrait::Radiant => 2,
        RareTrait::Voracious => 3,
        RareTrait::Voidborne => 4,
        RareTrait::SymbioticCore => 5,
        RareTrait::SporeKing => 6,
        RareTrait::Devourer => 7,
    }
}

/// The position of a rare trait, used to tally traits in a cluster.
pub fn rare_index(rare_trait: RareTrait) -> (r: usize)
    ensures
        r == rare_position(rare_trait),
        r < 8,
{
    match rare_trait {
        RareTrait::Common => 0,
        RareTrait::ElderCore => 1,
        RareTrait::Radiant => 2,
        RareTrait::Voracious => 3,
        RareTrait::Voidborne => 4,
        RareTrait::SymbioticCore => 5,
        RareTrait::SporeKing => 6,
        RareTrait::Devourer => 7,
    }
}

/// The rare trait at a position; positions past 7 (and 0) give `Common`.
pub open spec fn rare_at(i: nat) -> RareTrait {
    if i == 1 {
        RareTrait::ElderCore
    } else if i == 2 {
        RareTrait::Radiant
    } else if i == 3 {
        RareTrait::Voracious
    } else if i == 4 {
        RareTrait::Voidborne
    } else if i == 5 {
        RareTrait::SymbioticCore
    } else if i == 6 {
        RareTrait::SporeKing
    } else if i == 7 {
        RareTrait::Devourer
    } else {
        RareTrait::Common
    }
}

/// The rare trait at a position; positions past 7 (and 0) give `Common`.
pub fn rare_from_index(index: usize) -> (r: RareTrait)
    ensures
        r == rare_at(index as nat),
{
    match index {
        1 => RareTrait::ElderCore,
        2 => RareTrait::Radiant,
        3 => RareTrait::Voracious,
        4 => RareTrait::Voidborne,
        5 => RareTrait::SymbioticCore,
        6 => RareTrait::SporeKing,
        7 => RareTrait::Devourer,
        _ => RareTrait::Common,
    }
}

/// Rare-trait positions round-trip: reading back the position of a trait
/// gives the same trait.
pub proof fn law_rare_round_trip(t: RareTrait)
    ensures
        rare_at(rare_position(t)) == t,
{
}

/// Whether an archetype adapts its movement to root terrain.
pub fn is_root_adaptive_archetype(archetype: Archetype) -> (r: bool)
    ensures
        r == (archetype == Archetype::Swarmer || archetype == Archetype::Orbiter || archetype
            == Archetype::Architect || archetype == Archetype::Leviathan || archetype
            == Archetype::Phantom),
{
    match archetype {
        Archetype::Swarmer | Archetype::Orbiter | Archetype::Architect | Archetype::Leviathan
        | Archetype::Phantom => true,
        _ => false,
    }
}

/// Whether an archetype follows migration corridors.
pub fn is_corridor_archetype(archetype: Archetype) -> (r: bool)
    ensures
        r == (archetype == Archetype::Swarmer || archetype == Archetype::Orbiter || archetype
            == Archetype::Architect || archetype == Archetype::Hunter || archetype
            == Archetype::Phantom),
{
    match archetype {
        Archetype::Swarmer | Archetype::Orbiter | Archetype::Architect | Archetype::Hunter
        | Archetype::Phantom => true,
        _ => false,
    }
}


/// World age below which clusters are still warming up.
pub const CLUSTER_WARMUP_AGE: u64 = 180;

/// World age from which clusters build lasting structure.
pub const STRUCTURE_MATURITY_AGE: u64 = 540;

/// The smallest group that counts as a cluster once the world is mature.
pub const MIN_CLUSTER_SIZE: usize = 4;

/// The smallest group that counts as a cluster at world age `age`: five
/// more than the mature minimum while warming up, two more until maturity.
pub fn min_group_size(age: u64) -> (r: usize)
    ensures
        r == (if age < CLUSTER_WARMUP_AGE { MIN_CLUSTER_SIZE + 5 } else if age < STRUCTURE_MATURITY_AGE {
            MIN_CLUSTER_SIZE + 2
        } else {
            MIN_CLUSTER_SIZE as int
        }),
{
    if age < CLUSTER_WARMUP_AGE {
        MIN_CLUSTER_SIZE + 5
    } else if age < STRUCTURE_MATURITY_AGE {
        MIN_CLUSTER_SIZE + 2
    } else {
        MIN_CLUSTER_SIZE
    }
}

/// The events of a cluster update that went from `old_count` to
/// `new_count` clusters, `births` of them new, and marked `extinctions`
/// species extinct. After warm-up, a shrinking count is read as merges
/// (one per lost cluster) and a count that grew by more than the births as
/// splits (one per cluster gained).
pub open spec fn cluster_events_of(age: u64, old_count: usize, new_count: usize, births: usize, extinctions: usize) -> ClusterEvents {
    ClusterEvents {
        births,
        merges: if age >= CLUSTER_WARMUP_AGE && new_count < old_count { (old_count - new_count) as usize } else { 0 },
        splits: if age >= CLUSTER_WARMUP_AGE && new_count > old_count + births {
            (new_count - old_count) as usize
        } else {
            0
        },
        extinctions,
    }
}

/// The events of a cluster update (see `cluster_events_of`).
pub fn cluster_events(age: u64, old_count: usize, new_count: usize, births: usize, extinctions: usize) -> (r: ClusterEvents)
    requires
        age >= CLUSTER_WARMUP_AGE ==> old_count + births <= usize::MAX,
    ensures
        r == cluster_events_of(age, old_count, new_count, births, extinctions),
{
    let mut events = ClusterEvents { births, merges: 0, splits: 0, extinctions: 0 };
    if age >= CLUSTER_WARMUP_AGE && new_count < old_count {
        events.merges = old_count - new_count;
    }
    if age >= CLUSTER_WARMUP_AGE && new_count > old_count + events.births {
        events.splits = new_count.saturating_sub(old_count);
    }
    events.extinctions = extinctions;
    events
}

/// A cluster's effective archetype: its drift override if it has one,
/// else the archetype of its species.
pub fn effective_archetype(archetype_override: Option<Archetype>, archetype: Option<Archetype>) -> (r: Option<Archetype>)
    ensures
        r == (if archetype_override is Some { archetype_override } else { archetype }),
{
    match archetype_override {
        Some(a) => Some(a),
        None => archetype,
    }
}

/// What a cluster update reports, over all inputs: births and extinctions
/// as counted; during warm-up (the first 180 ticks) no merges or splits;
/// afterwards, when the number of clusters fell, one merge per cluster
/// lost, and when it rose by more than the births, one split per cluster
/// gained; otherwise neither.
pub proof fn law_cluster_event_tally(age: u64, old_count: usize, new_count: usize, births: usize, extinctions: usize)
    ensures
        CLUSTER_WARMUP_AGE == 180,
        cluster_events_of(age, old_count, new_count, births, extinctions).births == births,
        cluster_events_of(age, old_count, new_count, births, extinctions).extinctions == extinctions,
        age < 180 ==> cluster_events_of(age, old_count, new_count, births, extinctions).merges == 0
            && cluster_events_of(age, old_count, new_count, births, extinctions).splits == 0,
        age >= 180 && new_count < old_count ==> cluster_events_of(age, old_count, new_count, births, extinctions).merges
            == old_count - new_count,
        new_count >= old_count ==> cluster_events_of(age, old_count, new_count, births, extinctions).merges == 0,
        age >= 180 && new_count > old_count + births ==> cluster_events_of(
            age,
            old_count,
            new_count,
            births,
            extinctions,
        ).splits == new_count - old_count,
        new_count <= old_count + births ==> cluster_events_of(age, old_count, new_count, births, extinctions).splits == 0,
{
}

/// A cluster update never reports merges and splits together.
pub proof fn law_merges_exclude_splits(age: u64, old_count: usize, new_count: usize, births: usize, extinctions: usize)
    ensures
        cluster_events_of(age, old_count, new_count, births, extinctions).merges == 0
            || cluster_events_of(age, old_count, new_count, births, extinctions).splits == 0,
{
}


/// Every row of a link matrix is as long as the matrix.
pub open spec fn square_links(links: Seq<Vec<bool>>) -> bool {
    forall|i: int| 0 <= i < links.len() ==> (#[trigger] links[i])@.len() == links.len()
}

/// Particle `i` reaches particle `j`.
pub open spec fn linked(links: Seq<Vec<bool>>, i: int, j: int) -> bool {
    links[i]@[j]
}

/// Particle `k` sits at position `p` of group `g`.
pub open spec fn located(groups: Seq<Vec<usize>>, k: int, g: int, p: int) -> bool {
    0 <= g < groups.len() && 0 <= p < groups[g]@.len() && groups[g]@[p] == k
}

/// The member at position `p` of a group is reached by a member listed before it.
pub open spec fn has_parent(links: Seq<Vec<bool>>, group: Seq<usize>, p: int) -> bool {
    exists|q: int| 0 <= q < p && #[trigger] linked(links, group[q] as int, group[p] as int)
}

/// Particle `k` is reached by some member of a group.
pub open spec fn reached_from(links: Seq<Vec<bool>>, group: Seq<usize>, k: int) -> bool {
    exists|q: int| 0 <= q < group.len() && #[trigger] linked(links, group[q] as int, k)
}

/// Particle `k` sits in one of the groups before group `bound`.
pub open spec fn held_before(groups: Seq<Vec<usize>>, k: int, bound: int) -> bool {
    exists|g: int, p: int| g < bound && #[trigger] located(groups, k, g, p)
}

/// The groups a link search finds among `n` particles: every particle sits
/// in exactly one group and every group is non-empty; a group holds all
/// that its members reach, except what earlier groups already hold; every
/// member but the first is reached by a member listed before it; and each
/// group starts at the lowest particle that no earlier group holds.
pub open spec fn groups_of_links(links: Seq<Vec<bool>>, groups: Seq<Vec<usize>>) -> bool {
    let n = links.len();
    &&& forall|g: int| 0 <= g < groups.len() ==> (#[trigger] groups[g])@.len() > 0
    &&& forall|g: int, p: int| 0 <= g < groups.len() && 0 <= p < groups[g]@.len() ==> #[trigger] groups[g]@[p] < n
    &&& forall|k: int| 0 <= k < n ==> #[trigger] held_before(groups, k, groups.len() as int)
    &&& forall|g1: int, p1: int, g2: int, p2: int|
        #![trigger groups[g1]@[p1], groups[g2]@[p2]]
        0 <= g1 < groups.len() && 0 <= p1 < groups[g1]@.len() && 0 <= g2 < groups.len() && 0 <= p2
            < groups[g2]@.len() && groups[g1]@[p1] == groups[g2]@[p2] ==> g1 == g2 && p1 == p2
    &&& forall|g: int, p: int, k: int|
        0 <= g < groups.len() && 0 <= p < groups[g]@.len() && 0 <= k < n && #[trigger] linked(links, groups[g]@[p] as int, k)
            ==> held_before(groups, k, g + 1)
    &&& forall|g: int, p: int| 0 <= g < groups.len() && 0 < p < groups[g]@.len() ==> #[trigger] has_parent(links, groups[g]@, p)
    &&& forall|g: int, k: int| 0 <= g < groups.len() && 0 <= k < groups[g]@[0] ==> #[trigger] held_before(groups, k, g)
}

/// The number of particles not yet marked.
pub open spec fn open_count(v: Seq<bool>) -> nat
    decreases v.len(),
{
    if v.len() == 0 {
        0
    } else {
        open_count(v.drop_last()) + if !v.last() { 1nat } else { 0nat }
    }
}

proof fn lemma_open_count_mark(v: Seq<bool>, j: int)
    requires
        0 <= j < v.len(),
        !v[j],
    ensures
        open_count(v.update(j, true)) + 1 == open_count(v),
    decreases v.len(),
{
    if j == v.len() - 1 {
        assert(v.update(j, true).drop_last() =~= v.drop_last());
    } else {
        lemma_open_count_mark(v.drop_last(), j);
        assert(v.update(j, true).drop_last() =~= v.drop_last().update(j, true));
    }
}

proof fn lemma_open_count_bound(v: Seq<bool>)
    ensures
        open_count(v) <= v.len(),
    decreases v.len(),
{
    if v.len() > 0 {
        lemma_open_count_bound(v.drop_last());
    }
}

/// One scan of the search: from position `j` on, every particle that `idx`
/// reaches and that is not yet marked is marked and pushed, in index order.
pub open spec fn scan_links(links: Seq<Vec<bool>>, idx: int, j: int, marked: Seq<bool>, stack: Seq<usize>) -> (Seq<bool>, Seq<usize>)
    decreases links.len() - j,
{
    if j < 0 || j >= links.len() {
        (marked, stack)
    } else if !marked[j] && linked(links, idx, j) {
        scan_links(links, idx, j + 1, marked.update(j, true), stack.push(j as usize))
    } else {
        scan_links(links, idx, j + 1, marked, stack)
    }
}

/// The search of one group from a stack: the most recently pushed entry
/// joins the group and its links are scanned, until the stack is empty (or,
/// past any real search, `fuel` steps ran out). The marks and the group.
pub open spec fn drain_stack(links: Seq<Vec<bool>>, marked: Seq<bool>, stack: Seq<usize>, group: Seq<usize>, fuel: nat) -> (Seq<bool>, Seq<usize>)
    decreases fuel,
{
    if fuel == 0 || stack.len() == 0 {
        (marked, group)
    } else {
        let idx = stack.last();
        let next = scan_links(links, idx as int, 0, marked, stack.drop_last());
        drain_stack(links, next.0, next.1, group.push(idx), (fuel - 1) as nat)
    }
}

/// The groups the search finds from particle `i` on, after `groups`: each
/// particle not yet marked starts a new group, searched from a stack that
/// holds only it.
pub open spec fn sweep_groups(links: Seq<Vec<bool>>, i: int, marked: Seq<bool>, groups: Seq<Seq<usize>>) -> Seq<Seq<usize>>
    decreases links.len() - i,
{
    if i < 0 || i >= links.len() {
        groups
    } else if marked[i] {
        sweep_groups(links, i + 1, marked, groups)
    } else {
        let found = drain_stack(links, marked.update(i, true), seq![i as usize], seq![], (links.len() + 1) as nat);
        sweep_groups(links, i + 1, found.0, groups.push(found.1))
    }
}

/// The groups, members in order, that the link search finds starting with
/// no particle marked.
pub open spec fn search_groups(links: Seq<Vec<bool>>) -> Seq<Seq<usize>> {
    sweep_groups(links, 0, Seq::new(links.len(), |k: int| false), seq![])
}

/// Groups particles by chains of links (see `groups_of_links`), searching
/// from each particle not yet grouped, in order, and taking the most
/// recently reached member next.
pub fn detect_groups(links: &Vec<Vec<bool>>) -> (groups: Vec<Vec<usize>>)
    requires
        square_links(links@),
    ensures
        groups_of_links(links@, groups@),
        groups@.len() == search_groups(links@).len(),
        forall|g: int| 0 <= g < groups@.len() ==> (#[trigger] groups@[g])@ == search_groups(links@)[g],
{
    let n = links.len();
    let mut visited: Vec<bool> = Vec::new();
    let mut z: usize = 0;
    while z < n
        invariant
            0 <= z <= n,
            visited@.len() == z,
            forall|k: int| 0 <= k < z ==> !visited@[k],
        decreases n - z,
    {
        visited.push(false);
        z = z + 1;
    }
    assert(visited@ =~= Seq::new(links@.len(), |k: int| false));
    let ghost mut gs: Seq<Seq<usize>> = seq![];
    let ghost mut owner: Seq<int> = Seq::new(n as nat, |k: int| -1int);
    let ghost mut pos: Seq<int> = Seq::new(n as nat, |k: int| 0int);
    let mut groups: Vec<Vec<usize>> = Vec::new();
    let mut i: usize = 0;
    while i < n
        invariant
            n == links@.len(),
            square_links(links@),
            0 <= i <= n,
            visited@.len() == n,
            owner.len() == n,
            pos.len() == n,
            forall|k: int| 0 <= k < n ==> (visited@[k] <==> 0 <= #[trigger] owner[k] < groups@.len()),
            forall|k: int| 0 <= k < n && !visited@[k] ==> #[trigger] owner[k] == -1,
            forall|k: int| 0 <= k < n && visited@[k] ==> located(groups@, k, #[trigger] owner[k], pos[k]),
            forall|g: int, p: int|
                0 <= g < groups@.len() && 0 <= p < groups@[g]@.len() ==> #[trigger] groups@[g]@[p] < n && owner[groups@[g]@[p] as int] == g
                    && pos[groups@[g]@[p] as int] == p,
            forall|g: int| 0 <= g < groups@.len() ==> (#[trigger] groups@[g])@.len() > 0,
            forall|g: int, p: int, k: int|
                0 <= g < groups@.len() && 0 <= p < groups@[g]@.len() && 0 <= k < n && #[trigger] linked(links@, groups@[g]@[p] as int, k)
                    ==> visited@[k] && owner[k] <= g,
            forall|g: int, p: int|
                0 <= g < groups@.len() && 0 < p < groups@[g]@.len() ==> #[trigger] has_parent(links@, groups@[g]@, p),
            forall|g: int, k: int|
                #![trigger groups@[g], owner[k]] 0 <= g < groups@.len() && 0 <= k < groups@[g]@[0] ==> visited@[k] && owner[k] < g,
            forall|k: int| 0 <= k < i ==> #[trigger] visited@[k],
            forall|g: int| 0 <= g < groups@.len() ==> (#[trigger] groups@[g])@[0] < i,
            gs.len() == groups@.len(),
            forall|g: int| 0 <= g < groups@.len() ==> (#[trigger] groups@[g])@ == gs[g],
            sweep_groups(links@, i as int, visited@, gs) == search_groups(links@),
        decreases n - i,
    {
        if visited[i] {
            i = i + 1;
            continue;
        }
        let ghost big = groups@.len() as int;
        let ghost v0 = visited@;
        let mut stack: Vec<usize> = Vec::new();
        let mut group: Vec<usize> = Vec::new();
        stack.push(i);
        visited[i] = true;
        let ghost mut fuel: nat = (n + 1) as nat;
        proof {
            owner = owner.update(i as int, big);
            pos = pos.update(i as int, -1int);
            assert(stack@ =~= seq![i as usize]);
            assert(group@ =~= Seq::<usize>::empty());
            lemma_open_count_bound(visited@);
        }
        let ghost found = drain_stack(links@, visited@, stack@, group@, fuel);
        while stack.len() > 0
            invariant
                n == links@.len(),
                square_links(links@),
                0 <= i < n,
                big == groups@.len(),
                visited@.len() == n,
                owner.len() == n,
                pos.len() == n,
                forall|k: int| 0 <= k < n ==> (visited@[k] <==> 0 <= #[trigger] owner[k] <= big),
                forall|k: int| 0 <= k < n && !visited@[k] ==> #[trigger] owner[k] == -1,
                forall|k: int| 0 <= k < n && visited@[k] && owner[k] < big ==> located(groups@, k, #[trigger] owner[k], pos[k]),
                forall|g: int, p: int|
                    0 <= g < groups@.len() && 0 <= p < groups@[g]@.len() ==> #[trigger] groups@[g]@[p] < n && owner[groups@[g]@[p] as int] == g
                        && pos[groups@[g]@[p] as int] == p,
                forall|g: int| 0 <= g < groups@.len() ==> (#[trigger] groups@[g])@.len() > 0,
                forall|g: int, p: int, k: int|
                    0 <= g < groups@.len() && 0 <= p < groups@[g]@.len() && 0 <= k < n && #[trigger] linked(links@, groups@[g]@[p] as int, k)
                        ==> visited@[k] && owner[k] <= g,
                forall|g: int, p: int|
                    0 <= g < groups@.len() && 0 < p < groups@[g]@.len() ==> #[trigger] has_parent(links@, groups@[g]@, p),
                forall|g: int, k: int|
                    #![trigger groups@[g], owner[k]] 0 <= g < groups@.len() && 0 <= k < groups@[g]@[0] ==> visited@[k] && owner[k] < g,
                forall|k: int| 0 <= k < i ==> #[trigger] visited@[k] && owner[k] < big,
                forall|g: int| 0 <= g < groups@.len() ==> (#[trigger] groups@[g])@[0] < i,
                // the group under construction and its stack
                forall|p: int| 0 <= p < group@.len() ==> #[trigger] group@[p] < n && owner[group@[p] as int] == big
                    && pos[group@[p] as int] == p,
                forall|s: int| 0 <= s < stack@.len() ==> #[trigger] stack@[s] < n && owner[stack@[s] as int] == big
                    && pos[stack@[s] as int] == -(s + 1),
                forall|k: int| 0 <= k < n && owner[k] == big && pos[k] >= 0 ==> #[trigger] pos[k] < group@.len()
                    && group@[pos[k]] == k,
                forall|k: int| 0 <= k < n && owner[k] == big && pos[k] < 0 ==> -(#[trigger] pos[k]) - 1 < stack@.len()
                    && stack@[-pos[k] - 1] == k,
                forall|p: int, k: int|
                    0 <= p < group@.len() && 0 <= k < n && #[trigger] linked(links@, group@[p] as int, k) ==> visited@[k],
                forall|p: int| 0 < p < group@.len() ==> #[trigger] has_parent(links@, group@, p),
                group@.len() == 0 ==> stack@ == seq![i],
                group@.len() > 0 ==> group@[0] == i,
                group@.len() > 0 ==> forall|s: int| 0 <= s < stack@.len() ==> #[trigger] reached_from(links@, group@, stack@[s] as int),
                gs.len() == groups@.len(),
                forall|g: int| 0 <= g < groups@.len() ==> (#[trigger] groups@[g])@ == gs[g],
                sweep_groups(links@, i as int, v0, gs) == search_groups(links@),
                !v0[i as int],
                v0.len() == n,
                found == drain_stack(links@, v0.update(i as int, true), seq![i as usize], seq![], (n + 1) as nat),
                drain_stack(links@, visited@, stack@, group@, fuel) == found,
                fuel >= stack@.len() + open_count(visited@),
            decreases 2 * open_count(visited@) + stack@.len(),
        {
            let ghost measure = 2 * open_count(visited@) + stack@.len();
            let ghost old_group = group@;
            let ghost old_stack = stack@;
            proof {
                if old_group.len() > 0 {
                    assert(reached_from(links@, old_group, old_stack[old_stack.len() - 1] as int));
                }
            }
            let idx = stack.pop().unwrap();
            proof {
                assert(stack@ =~= old_stack.drop_last());
            }
            let ghost scanned = scan_links(links@, idx as int, 0, visited@, stack@);
            let ghost base = stack@.len() + open_count(visited@);
            let ghost p = group@.len() as int;
            proof {
                pos = pos.update(idx as int, p);
            }
            group.push(idx);
            proof {
                assert forall|q: int| 0 < q < group@.len() implies #[trigger] has_parent(links@, group@, q) by {
                    if q < p {
                        assert(has_parent(links@, old_group, q));
                        let r = choose|r: int| 0 <= r < q && #[trigger] linked(links@, old_group[r] as int, old_group[q] as int);
                        assert(linked(links@, group@[r] as int, group@[q] as int));
                    } else {
                        assert(reached_from(links@, old_group, idx as int));
                        let r = choose|r: int| 0 <= r < old_group.len() && #[trigger] linked(links@, old_group[r] as int, idx as int);
                        assert(linked(links@, group@[r] as int, group@[q] as int));
                    }
                }
                assert forall|t: int| 0 <= t < stack@.len() implies #[trigger] reached_from(links@, group@, stack@[t] as int) by {
                    if old_group.len() > 0 {
                        assert(reached_from(links@, old_group, old_stack[t] as int));
                        let r = choose|r: int| 0 <= r < old_group.len() && #[trigger] linked(links@, old_group[r] as int, old_stack[t] as int);
                        assert(linked(links@, group@[r] as int, stack@[t] as int));
                    }
                }
            }
            let mut j: usize = 0;
            while j < n
                invariant
                    n == links@.len(),
                    square_links(links@),
                    0 <= i < n,
                    idx < n,
                    big == groups@.len(),
                    visited@.len() == n,
                    owner.len() == n,
                    pos.len() == n,
                    0 <= j <= n,
                    0 <= p,
                    group@.len() == p + 1,
                    group@[p] == idx,
                    forall|k: int| 0 <= k < n ==> (visited@[k] <==> 0 <= #[trigger] owner[k] <= big),
                    forall|k: int| 0 <= k < n && !visited@[k] ==> #[trigger] owner[k] == -1,
                    forall|k: int| 0 <= k < n && visited@[k] && owner[k] < big ==> located(groups@, k, #[trigger] owner[k], pos[k]),
                    forall|g: int, q: int|
                        0 <= g < groups@.len() && 0 <= q < groups@[g]@.len() ==> #[trigger] groups@[g]@[q] < n && owner[groups@[g]@[q] as int] == g
                            && pos[groups@[g]@[q] as int] == q,
                    forall|g: int, q: int, k: int|
                        0 <= g < groups@.len() && 0 <= q < groups@[g]@.len() && 0 <= k < n && #[trigger] linked(links@, groups@[g]@[q] as int, k)
                            ==> visited@[k] && owner[k] <= g,
                    forall|g: int, k: int|
                        #![trigger groups@[g], owner[k]] 0 <= g < groups@.len() && 0 <= k < groups@[g]@[0] ==> visited@[k] && owner[k] < g,
                    forall|k: int| 0 <= k < i ==> #[trigger] visited@[k] && owner[k] < big,
                    forall|g: int| 0 <= g < groups@.len() ==> (#[trigger] groups@[g])@[0] < i,
                    forall|q: int| 0 <= q < group@.len() ==> #[trigger] group@[q] < n && owner[group@[q] as int] == big
                        && pos[group@[q] as int] == q,
                    forall|s: int| 0 <= s < stack@.len() ==> #[trigger] stack@[s] < n && owner[stack@[s] as int] == big
                        && pos[stack@[s] as int] == -(s + 1),
                    forall|k: int| 0 <= k < n && owner[k] == big && pos[k] >= 0 ==> #[trigger] pos[k] < group@.len()
                        && group@[pos[k]] == k,
                    forall|k: int| 0 <= k < n && owner[k] == big && pos[k] < 0 ==> -(#[trigger] pos[k]) - 1 < stack@.len()
                        && stack@[-pos[k] - 1] == k,
                    forall|q: int, k: int|
                        0 <= q < p && 0 <= k < n && #[trigger] linked(links@, group@[q] as int, k) ==> visited@[k],
                    forall|k: int| 0 <= k < j && #[trigger] linked(links@, idx as int, k) ==> visited@[k],
                    forall|q: int| 0 < q < group@.len() ==> #[trigger] has_parent(links@, group@, q),
                    group@[0] == i,
                    forall|s: int| 0 <= s < stack@.len() ==> #[trigger] reached_from(links@, group@, stack@[s] as int),
                    2 * open_count(visited@) + stack@.len() + 1 <= measure,
                    scan_links(links@, idx as int, j as int, visited@, stack@) == scanned,
                    stack@.len() + open_count(visited@) == base,
                decreases n - j,
            {
                if !visited[j] && links[idx][j] {
                    proof {
                        assert forall|g: int| 0 <= g < groups@.len() implies (#[trigger] groups@[g])@[0] <= j by {
                            if j < groups@[g]@[0] {
                                assert(visited@[j as int] && owner[j as int] < g);
                            }
                        }
                    }
                    let ghost before_stack = stack@;
                    proof {
                        lemma_open_count_mark(visited@, j as int);
                    }
                    visited[j] = true;
                    proof {
                        owner = owner.update(j as int, big);
                        pos = pos.update(j as int, -(stack@.len() + 1));
                        assert(linked(links@, group@[p] as int, j as int));
                    }
                    stack.push(j);
                    proof {
                        assert forall|t: int| 0 <= t < stack@.len() implies #[trigger] reached_from(links@, group@, stack@[t] as int) by {
                            if t < before_stack.len() {
                                assert(reached_from(links@, group@, before_stack[t] as int));
                                let r = choose|r: int| 0 <= r < group@.len() && #[trigger] linked(links@, group@[r] as int, before_stack[t] as int);
                                assert(stack@[t] == before_stack[t]);
                                assert(linked(links@, group@[r] as int, stack@[t] as int));
                            } else {
                                assert(stack@[t] == j);
                                assert(linked(links@, group@[p] as int, stack@[t] as int));
                            }
                        }
                    }
                }
                j = j + 1;
            }
            proof {
                assert(drain_stack(links@, visited@, stack@, group@, (fuel - 1) as nat) == found);
                fuel = (fuel - 1) as nat;
            }
        }
        proof {
            assert(found == (visited@, group@));
            assert forall|k: int| 0 <= k < n && owner[k] == big implies #[trigger] pos[k] >= 0 by {
                if pos[k] < 0 {
                    assert(-pos[k] - 1 < stack@.len());
                }
            }
        }
        let ghost last = group@;
        groups.push(group);
        proof {
            gs = gs.push(last);
        }
        i = i + 1;
    }
    proof {
        assert forall|k: int| 0 <= k < n implies #[trigger] held_before(groups@, k, groups@.len() as int) by {
            assert(visited@[k]);
            assert(located(groups@, k, owner[k], pos[k]));
        }
        assert forall|g: int, p: int, k: int|
            0 <= g < groups@.len() && 0 <= p < groups@[g]@.len() && 0 <= k < n && #[trigger] linked(links@, groups@[g]@[p] as int, k)
                implies held_before(groups@, k, g + 1) by {
            assert(located(groups@, k, owner[k], pos[k]));
        }
        assert forall|g: int, k: int| 0 <= g < groups@.len() && 0 <= k < groups@[g]@[0] implies #[trigger] held_before(groups@, k, g) by {
            assert(owner[k] < g);
            assert(located(groups@, k, owner[k], pos[k]));
        }
    }
    groups
}


/// How many of the first `k` members belong to the tribe at position `t`.
pub open spec fn tribe_tally(s: Seq<Tribe>, t: int, k: nat) -> int
    decreases k,
{
    if k == 0 {
        0
    } else {
        tribe_tally(s, t, (k - 1) as nat) + if tribe_index(s[k - 1]) == t { 1int } else { 0int }
    }
}

/// How many of the first `k` members carry the rare trait at position `r`.
pub open spec fn rare_tally(s: Seq<RareTrait>, r: int, k: nat) -> int
    decreases k,
{
    if k == 0 {
        0
    } else {
        rare_tally(s, r, (k - 1) as nat) + if rare_position(s[k - 1]) == r { 1int } else { 0int }
    }
}

/// The tribe tallies of a group, by tribe position.
pub open spec fn tribe_tallies(s: Seq<Tribe>) -> spec_fn(int) -> int {
    |t: int| tribe_tally(s, t, s.len())
}

/// The rare-trait tallies of a group, by trait position.
pub open spec fn rare_tallies(s: Seq<RareTrait>) -> spec_fn(int) -> int {
    |r: int| rare_tally(s, r, s.len())
}

/// A group's dominant tribe and rare trait: the most common of each,
/// ties going to the earlier one in the fixed order.
pub open spec fn majorities(tribes: Seq<Tribe>, rares: Seq<RareTrait>) -> (Tribe, RareTrait) {
    (tribe_at(first_best(tribe_tallies(tribes), 5) as nat), rare_at(first_best(rare_tallies(rares), 7) as nat))
}

proof fn lemma_tally_bounds(s: Seq<Tribe>, q: Seq<RareTrait>, t: int, k: nat)
    ensures
        k <= s.len() ==> 0 <= tribe_tally(s, t, k) <= k,
        k <= q.len() ==> 0 <= rare_tally(q, t, k) <= k,
    decreases k,
{
    if k > 0 {
        lemma_tally_bounds(s, q, t, (k - 1) as nat);
    }
}

/// A group's dominant tribe and rare trait (see `majorities`).
pub fn group_majorities(tribes: &Vec<Tribe>, rares: &Vec<RareTrait>) -> (r: (Tribe, RareTrait))
    ensures
        r == majorities(tribes@, rares@),
{
    let mut tc: Vec<usize> = vec![0, 0, 0, 0, 0, 0];
    let mut i: usize = 0;
    while i < tribes.len()
        invariant
            0 <= i <= tribes@.len(),
            tc@.len() == 6,
            forall|t: int| 0 <= t < 6 ==> #[trigger] tc@[t] == tribe_tally(tribes@, t, i as nat),
        decreases tribes@.len() - i,
    {
        proof {
            lemma_tally_bounds(tribes@, rares@, tribe_index(tribes@[i as int]) as int, i as nat);
        }
        let t = tribes[i].index();
        tc[t] = tc[t] + 1;
        i = i + 1;
    }
    let mut rc: Vec<usize> = vec![0, 0, 0, 0, 0, 0, 0, 0];
    let mut i: usize = 0;
    while i < rares.len()
        invariant
            0 <= i <= rares@.len(),
            rc@.len() == 8,
            forall|t: int| 0 <= t < 8 ==> #[trigger] rc@[t] == rare_tally(rares@, t, i as nat),
        decreases rares@.len() - i,
    {
        proof {
            lemma_tally_bounds(tribes@, rares@, rare_position(rares@[i as int]) as int, i as nat);
        }
        let t = rare_index(rares[i]);
        rc[t] = rc[t] + 1;
        i = i + 1;
    }
    let ghost tf = tribe_tallies(tribes@);
    let ghost rf = rare_tallies(rares@);
    let mut best_tribe: usize = 0;
    let mut k: usize = 1;
    while k < 6
        invariant
            1 <= k <= 6,
            tc@.len() == 6,
            forall|t: int| 0 <= t < 6 ==> #[trigger] tc@[t] == tf(t),
            best_tribe as int == first_best(tf, (k - 1) as nat),
            best_tribe < k,
        decreases 6 - k,
    {
        if tc[k] > tc[best_tribe] {
            best_tribe = k;
        }
        k = k + 1;
    }
    let mut best_rare: usize = 0;
    let mut k: usize = 1;
    while k < 8
        invariant
            1 <= k <= 8,
            rc@.len() == 8,
            forall|t: int| 0 <= t < 8 ==> #[trigger] rc@[t] == rf(t),
            best_rare as int == first_best(rf, (k - 1) as nat),
            best_rare < k,
        decreases 8 - k,
    {
        if rc[k] > rc[best_rare] {
            best_rare = k;
        }
        k = k + 1;
    }
    (Tribe::from_index(best_tribe), rare_from_index(best_rare))
}

/// The identity bookkeeping of one cluster update: the id the next new
/// cluster receives, and how many clusters were born so far.
#[derive(Clone, Copy, Debug, PartialEq, Eq, Structural)]
pub struct ClusterBook {
    pub next_id: u64,
    pub births: usize,
}

/// A group matched to the earlier cluster `matched` keeps that cluster's id
/// and leaves the book as it was; an unmatched group is born: it takes the
/// next id, which then advances, and the births grow by one.
pub open spec fn registered(book: ClusterBook, matched: Option<u64>) -> (u64, ClusterBook) {
    match matched {
        Some(id) => (id, book),
        None => (book.next_id, ClusterBook { next_id: (book.next_id + 1) as u64, births: (book.births + 1) as usize }),
    }
}

impl ClusterBook {
    /// A book for an update that starts handing out ids at `next_id`.
    pub fn start(next_id: u64) -> (r: Self)
        ensures
            r == (ClusterBook { next_id, births: 0 }),
    {
        ClusterBook { next_id, births: 0 }
    }

    /// The id of a measured group: that of the earlier cluster it matched,
    /// or a fresh one (see `registered`).
    pub fn register(&mut self, matched: Option<u64>) -> (id: u64)
        requires
            matched is None ==> old(self).next_id < u64::MAX && old(self).births < usize::MAX,
        ensures
            (id, *final(self)) == registered(*old(self), matched),
    {
        match matched {
            Some(id) => id,
            None => {
                let id = self.next_id;
                self.next_id = self.next_id + 1;
                self.births = self.births + 1;
                id
            },
        }
    }
}

/// Fresh ids never repeat: two groups born one after the other receive
/// different ids, both below the id the book hands out next.
pub proof fn law_fresh_ids_differ(book: ClusterBook)
    requires
        book.next_id < u64::MAX - 1,
        book.births < usize::MAX - 1,
    ensures
        registered(registered(book, None).1, None).0 != registered(book, None).0,
        registered(book, None).0 < registered(registered(book, None).1, None).1.next_id,
        registered(registered(book, None).1, None).0 < registered(registered(book, None).1, None).1.next_id,
{
}

/// Whether one of the first `j` positions of `group` is `i`.
pub open spec fn listed_before(group: Seq<usize>, j: int, i: int) -> bool {
    exists|k: int| 0 <= k < j && group[k] == i
}

/// Labels the members of a group: every position listed in `group` takes
/// `Some(id)`, every other position keeps its label.
pub fn label_members(labels: &mut Vec<Option<u64>>, group: &Vec<usize>, id: u64)
    requires
        forall|j: int| 0 <= j < group@.len() ==> #[trigger] group@[j] < old(labels)@.len(),
    ensures
        final(labels)@.len() == old(labels)@.len(),
        forall|i: int|
            0 <= i < old(labels)@.len() ==> #[trigger] final(labels)@[i] == (if listed_before(
                group@,
                group@.len() as int,
                i,
            ) {
                Some(id)
            } else {
                old(labels)@[i]
            }),
{
    let ghost before = labels@;
    let mut j: usize = 0;
    while j < group.len()
        invariant
            0 <= j <= group@.len(),
            labels@.len() == before.len(),
            forall|k: int| 0 <= k < group@.len() ==> #[trigger] group@[k] < before.len(),
            forall|i: int|
                0 <= i < before.len() ==> #[trigger] labels@[i] == (if listed_before(group@, j as int, i) {
                    Some(id)
                } else {
                    before[i]
                }),
        decreases group@.len() - j,
    {
        let p = group[j];
        let ghost prev = labels@;
        labels.set(p, Some(id));
        proof {
            assert forall|i: int| 0 <= i < before.len() implies #[trigger] labels@[i] == (if listed_before(
                group@,
                j + 1,
                i,
            ) {
                Some(id)
            } else {
                before[i]
            }) by {
                assert(prev[i] == (if listed_before(group@, j as int, i) { Some(id) } else { before[i] }));
                if i == p as int {
                    assert(group@[j as int] == i);
                } else {
                    if listed_before(group@, j + 1, i) {
                        let k = choose|k: int| 0 <= k < j + 1 && group@[k] == i;
                        assert(k < j);
                        assert(listed_before(group@, j as int, i));
                    }
                    if listed_before(group@, j as int, i) {
                        let k = choose|k: int| 0 <= k < j && group@[k] == i;
                        assert(listed_before(group@, j + 1, i));
                    }
                }
            }
        }
        j = j + 1;
    }
}

} // verus!
