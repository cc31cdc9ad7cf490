//! The behavioural archetypes that species and clusters settle into.

use vstd::prelude::*;
use crate::particle::Tribe;
use crate::text::{decimal, push_decimal};

verus! {

/// The number of archetypes.
pub const ARCHETYPE_COUNT: usize = 11;

/// A behavioural archetype.
#[derive(Clone, Copy, Debug, PartialEq, Eq, Structural)]
pub enum Archetype {
    Swarmer,
    Hunter,
    Grazer,
    Orbiter,
    Parasite,
    Architect,
    Leviathan,
    Mycelial,
    Phantom,
    Harvester,
    Reaper,
}

/// The position of an archetype in census arrays.
pub open spec fn archetype_index(a: Archetype) -> nat {
    match a {
        Archetype::Swarmer => 0,
        Archetype::Hunter => 1,
        Archetype::Grazer => 2,
        Archetype::Orbiter => 3,
        Archetype::Parasite => 4,
        Archetype::Architect => 5,
        Archetype::Leviathan => 6,
        Archetype::Mycelial => 7,
        Archetype::Phantom => 8,
        Archetype::Harvester => 9,
        Archetype::Reaper => 10,
    }
}

/// The three-letter tag of the archetype at a census position ("UNK" past the end).
pub open spec fn archetype_tag(i: nat) -> &'static str {
    if i == 0 { "SWR" } else if i == 1 { "HNT" } else if i == 2 { "GRZ" } else if i == 3 { "ORB" }
    else if i == 4 { "PAR" } else if i == 5 { "ARC" } else if i == 6 { "LEV" } else if i == 7 { "MYC" }
    else if i == 8 { "PHM" } else if i == 9 { "HRV" } else if i == 10 { "RPR" } else { "UNK" }
}

impl Archetype {
    /// The full archetype name.
    pub fn name(self) -> (r: &'static str)
        ensures
            self == Archetype::Swarmer ==> r@ == "Swarmer"@,
            self == Archetype::Hunter ==> r@ == "Hunter"@,
            self == Archetype::Grazer ==> r@ == "Grazer"@,
            self == Archetype::Orbiter ==> r@ == "Orbiter"@,
            self == Archetype::Parasite ==> r@ == "Parasite"@,
            self == Archetype::Architect ==> r@ == "Architect"@,
            self == Archetype::Leviathan ==> r@ == "Leviathan"@,
            self == Archetype::Mycelial ==> r@ == "Mycelial"@,
            self == Archetype::Phantom ==> r@ == "Phantom"@,
            self == Archetype::Harvester ==> r@ == "Harvester"@,
            self == Archetype::Reaper ==> r@ == "Reaper"@,
    {
        match self {
            Archetype::Swarmer => "Swarmer",
            Archetype::Hunter => "Hunter",
            Archetype::Grazer => "Grazer",
            Archetype::Orbiter => "Orbiter",
            Archetype::Parasite => "Parasite",
            Archetype::Architect => "Architect",
            Archetype::Leviathan => "Leviathan",
            Archetype::Mycelial => "Mycelial",
            Archetype::Phantom => "Phantom",
            Archetype::Harvester => "Harvester",
            Archetype::Reaper => "Reaper",
        }
    }

    /// The three-letter archetype tag, the same one the census shows at its index.
    pub fn short(self) -> (r: &'static str)
        ensures
            r == archetype_tag(archetype_index(self)),
    {
        match self {
            Archetype::Swarmer => "SWR",
            Archetype::Hunter => "HNT",
            Archetype::Grazer => "GRZ",
            Archetype::Orbiter => "ORB",
            Archetype::Parasite => "PAR",
            Archetype::Architect => "ARC",
            Archetype::Leviathan => "LEV",
            Archetype::Mycelial => "MYC",
            Archetype::Phantom => "PHM",
            Archetype::Harvester => "HRV",
            Archetype::Reaper => "RPR",
        }
    }

    /// The position of the archetype in census arrays.
    pub fn index(self) -> (r: usize)
        ensures
            r == archetype_index(self),
            r < ARCHETYPE_COUNT,
    {
        match self {
            Archetype::Swarmer => 0,
            Archetype::Hunter => 1,
            Archetype::Grazer => 2,
            Archetype::Orbiter => 3,
            Archetype::Parasite => 4,
            Archetype::Architect => 5,
            Archetype::Leviathan => 6,
            Archetype::Mycelial => 7,
            Archetype::Phantom => 8,
            Archetype::Harvester => 9,
            Archetype::Reaper => 10,
        }
    }
}

/// Distinct archetypes occupy distinct census positions.
pub proof fn law_archetype_index_injective(a: Archetype, b: Archetype)
    ensures
        archetype_index(a) == archetype_index(b) ==> a == b,
        archetype_index(a) < ARCHETYPE_COUNT,
{
}


/// A species remembered by the bank; `G` is the genome the caller keeps
/// for it (the bank only stores it).
#[verifier::reject_recursive_types(G)]
pub struct Species<G> {
    pub id: u64,
    pub parent_id: Option<u64>,
    pub name: String,
    pub dominant_tribe: Tribe,
    pub archetype: Archetype,
    pub genome: G,
    pub created_at_age: u64,
    pub last_seen_age: u64,
    pub peak_size: usize,
    pub sightings: u64,
    pub descendants: u64,
    pub extinct: bool,
}

/// The registry of species: every species ever created, in order of creation.
#[verifier::reject_recursive_types(G)]
pub struct SpeciesBank<G> {
    pub species: Vec<Species<G>>,
    pub next_id: u64,
}

/// The name of a new species: its archetype tag, a hyphen and its id.
pub open spec fn species_name(archetype: Archetype, id: u64) -> Seq<char> {
    archetype_tag(archetype_index(archetype))@ + "-"@ + decimal(id as nat)
}

/// The number of species among the first `k` that are still alive.
pub open spec fn active_total<G>(s: Seq<Species<G>>, k: nat) -> nat
    decreases k,
{
    if k == 0 {
        0
    } else {
        active_total(s, (k - 1) as nat) + if !s[k - 1].extinct { 1nat } else { 0nat }
    }
}

/// The number of species among the first `k` that are extinct.
pub open spec fn extinct_total<G>(s: Seq<Species<G>>, k: nat) -> nat
    decreases k,
{
    if k == 0 {
        0
    } else {
        extinct_total(s, (k - 1) as nat) + if s[k - 1].extinct { 1nat } else { 0nat }
    }
}

/// A living species unseen for more than 2 200 ticks at `age` fades.
pub open spec fn fades<G>(s: Species<G>, age: u64) -> bool {
    !s.extinct && age > s.last_seen_age && age - s.last_seen_age > 2_200
}

/// The number of species among the first `k` that fade at `age`.
pub open spec fn fading_total<G>(s: Seq<Species<G>>, age: u64, k: nat) -> nat
    decreases k,
{
    if k == 0 {
        0
    } else {
        fading_total(s, age, (k - 1) as nat) + if fades(s[k - 1], age) { 1nat } else { 0nat }
    }
}

/// A species after a sighting: seen at `age`, its peak raised to `size`, one
/// more sighting, and the caller's blended genome and re-derived archetype.
pub open spec fn sighted<G>(s: Species<G>, age: u64, size: usize, genome: G, archetype: Archetype) -> Species<G> {
    Species {
        id: s.id,
        parent_id: s.parent_id,
        name: s.name,
        dominant_tribe: s.dominant_tribe,
        archetype,
        genome,
        created_at_age: s.created_at_age,
        last_seen_age: age,
        peak_size: if s.peak_size > size { s.peak_size } else { size },
        sightings: (s.sightings + 1) as u64,
        descendants: s.descendants,
        extinct: s.extinct,
    }
}

/// A species with one more descendant.
pub open spec fn with_descendant<G>(s: Species<G>) -> Species<G> {
    Species {
        id: s.id,
        parent_id: s.parent_id,
        name: s.name,
        dominant_tribe: s.dominant_tribe,
        archetype: s.archetype,
        genome: s.genome,
        created_at_age: s.created_at_age,
        last_seen_age: s.last_seen_age,
        peak_size: s.peak_size,
        sightings: s.sightings,
        descendants: (s.descendants + 1) as u64,
        extinct: s.extinct,
    }
}

/// A species marked extinct at `age` if it fades then.
pub open spec fn aged_out<G>(s: Species<G>, age: u64) -> Species<G> {
    Species {
        id: s.id,
        parent_id: s.parent_id,
        name: s.name,
        dominant_tribe: s.dominant_tribe,
        archetype: s.archetype,
        genome: s.genome,
        created_at_age: s.created_at_age,
        last_seen_age: s.last_seen_age,
        peak_size: s.peak_size,
        sightings: s.sightings,
        descendants: s.descendants,
        extinct: s.extinct || fades(s, age),
    }
}

proof fn lemma_totals<G>(s: Seq<Species<G>>, age: u64, k: nat)
    requires
        k <= s.len(),
    ensures
        active_total(s, k) + extinct_total(s, k) == k,
        fading_total(s, age, k) <= active_total(s, k),
    decreases k,
{
    if k > 0 {
        lemma_totals(s, age, (k - 1) as nat);
    }
}

impl<G> SpeciesBank<G> {
    /// Ids rise strictly in order of creation and stay below the next id.
    pub open spec fn wf(&self) -> bool {
        &&& forall|i: int, j: int| 0 <= i < j < self.species@.len() ==> self.species@[i].id < self.species@[j].id
        &&& forall|i: int| 0 <= i < self.species@.len() ==> self.species@[i].id < self.next_id
    }

    /// An empty bank whose first species will get id 1.
    pub fn new() -> (r: Self)
        ensures
            r.wf(),
            r.species@.len() == 0,
            r.next_id == 1,
    {
        SpeciesBank { species: Vec::new(), next_id: 1 }
    }

    /// The number of species still alive.
    pub fn active_count(&self) -> (r: usize)
        ensures
            r == active_total(self.species@, self.species@.len()),
    {
        let mut count: usize = 0;
        let mut i: usize = 0;
        while i < self.species.len()
            invariant
                0 <= i <= self.species@.len(),
                count == active_total(self.species@, i as nat),
            decreases self.species@.len() - i,
        {
            proof {
                lemma_totals(self.species@, 0, i as nat);
            }
            if !self.species[i].extinct {
                count = count + 1;
            }
            i = i + 1;
        }
        count
    }

    /// The number of extinct species.
    pub fn extinct_count(&self) -> (r: usize)
        ensures
            r == extinct_total(self.species@, self.species@.len()),
    {
        let mut count: usize = 0;
        let mut i: usize = 0;
        while i < self.species.len()
            invariant
                0 <= i <= self.species@.len(),
                count == extinct_total(self.species@, i as nat),
            decreases self.species@.len() - i,
        {
            proof {
                lemma_totals(self.species@, 0, i as nat);
            }
            if self.species[i].extinct {
                count = count + 1;
            }
            i = i + 1;
        }
        count
    }

    /// Marks extinct every living species unseen for more than 2 200 ticks
    /// at `age`, and returns how many it marked.
    pub fn mark_extinctions(&mut self, age: u64) -> (r: usize)
        ensures
            final(self).species@.len() == old(self).species@.len(),
            forall|i: int|
                0 <= i < old(self).species@.len() ==> #[trigger] final(self).species@[i] == aged_out(
                    old(self).species@[i],
                    age,
                ),
            final(self).next_id == old(self).next_id,
            r == fading_total(old(self).species@, age, old(self).species@.len()),
    {
        let ghost before = self.species@;
        let mut count: usize = 0;
        let mut i: usize = 0;
        while i < self.species.len()
            invariant
                self.species@.len() == before.len(),
                self.next_id == old(self).next_id,
                before == old(self).species@,
                0 <= i <= before.len(),
                count == fading_total(before, age, i as nat),
                forall|j: int| 0 <= j < i ==> #[trigger] self.species@[j] == aged_out(before[j], age),
                forall|j: int| i <= j < before.len() ==> #[trigger] self.species@[j] == before[j],
            decreases before.len() - i,
        {
            proof {
                lemma_totals(before, age, i as nat);
            }
            let last = self.species[i].last_seen_age;
            if !self.species[i].extinct && age > last && age - last > 2_200 {
                self.species[i].extinct = true;
                count = count + 1;
            }
            assert(self.species@[i as int] == aged_out(before[i as int], age));
            i = i + 1;
        }
        count
    }

    /// Records a sighting of the species at `index` (see `sighted`) and
    /// returns its id.
    pub fn sight(&mut self, index: usize, age: u64, size: usize, genome: G, archetype: Archetype) -> (id: u64)
        requires
            old(self).wf(),
            index < old(self).species@.len(),
            old(self).species@[index as int].sightings < u64::MAX,
        ensures
            final(self).wf(),
            final(self).species@ == old(self).species@.update(
                index as int,
                sighted(old(self).species@[index as int], age, size, genome, archetype),
            ),
            final(self).next_id == old(self).next_id,
            id == old(self).species@[index as int].id,
    {
        let peak = self.species[index].peak_size;
        self.species[index].last_seen_age = age;
        self.species[index].peak_size = if peak > size { peak } else { size };
        self.species[index].sightings = self.species[index].sightings + 1;
        self.species[index].genome = genome;
        self.species[index].archetype = archetype;
        assert(self.species@ =~= old(self).species@.update(
            index as int,
            sighted(old(self).species@[index as int], age, size, genome, archetype),
        ));
        self.species[index].id
    }

    /// Creates a species with the next id (see `species_name` for its name),
    /// credits the parent (if one with that id exists) with a descendant,
    /// and returns the new id.
    pub fn create(&mut self, dominant: Tribe, genome: G, archetype: Archetype, size: usize, age: u64, parent_hint: Option<u64>) -> (id: u64)
        requires
            old(self).wf(),
            old(self).next_id < u64::MAX,
            forall|i: int|
                0 <= i < old(self).species@.len() && parent_hint == Some(#[trigger] old(self).species@[i].id)
                    ==> old(self).species@[i].descendants < u64::MAX,
        ensures
            final(self).wf(),
            id == old(self).next_id,
            final(self).next_id == old(self).next_id + 1,
            final(self).species@.len() == old(self).species@.len() + 1,
            forall|i: int|
                0 <= i < old(self).species@.len() ==> #[trigger] final(self).species@[i] == (if parent_hint == Some(
                    old(self).species@[i].id,
                ) {
                    with_descendant(old(self).species@[i])
                } else {
                    old(self).species@[i]
                }),
            ({
                let s = final(self).species@[old(self).species@.len() as int];
                &&& s.id == id
                &&& s.parent_id == parent_hint
                &&& s.name@ == species_name(archetype, id)
                &&& s.dominant_tribe == dominant
                &&& s.archetype == archetype
                &&& s.genome == genome
                &&& s.created_at_age == age
                &&& s.last_seen_age == age
                &&& s.peak_size == size
                &&& s.sightings == 1
                &&& s.descendants == 0
                &&& !s.extinct
            }),
    {
        let id = self.next_id;
        self.next_id = self.next_id + 1;
        let mut name = String::new();
        name.append(archetype.short());
        name.append("-");
        push_decimal(&mut name, id);
        proof {
            reveal_strlit("-");
        }
        let ghost before = self.species@;
        if let Some(parent_id) = parent_hint {
            let mut found: Option<usize> = None;
            let mut i: usize = 0;
            while i < self.species.len()
                invariant
                    self.species@ == before,
                    0 <= i <= before.len(),
                    found is None ==> forall|j: int| 0 <= j < i ==> before[j].id != parent_id,
                    found matches Some(k) ==> k < before.len() && before[k as int].id == parent_id,
                decreases before.len() - i,
            {
                if found.is_none() && self.species[i].id == parent_id {
                    found = Some(i);
                }
                i = i + 1;
            }
            if let Some(k) = found {
                self.species[k].descendants = self.species[k].descendants + 1;
                assert(forall|j: int| 0 <= j < before.len() && j != k ==> before[j].id != parent_id) by {
                    assert(forall|j: int, l: int| 0 <= j < l < before.len() ==> before[j].id < before[l].id);
                }
                assert(self.species@ =~= before.update(k as int, with_descendant(before[k as int])));
            }
        }
        assert(forall|i: int|
            0 <= i < before.len() ==> #[trigger] self.species@[i] == (if parent_hint == Some(before[i].id) {
                with_descendant(before[i])
            } else {
                before[i]
            }));
        self.species.push(
            Species {
                id,
                parent_id: parent_hint,
                name,
                dominant_tribe: dominant,
                archetype,
                genome,
                created_at_age: age,
                last_seen_age: age,
                peak_size: size,
                sightings: 1,
                descendants: 0,
                extinct: false,
            },
        );
        id
    }
}

/// Every species is either alive or extinct.
pub proof fn law_species_partition<G>(s: Seq<Species<G>>)
    ensures
        active_total(s, s.len()) + extinct_total(s, s.len()) == s.len(),
{
    lemma_totals(s, 0, s.len());
}

/// Extinction is permanent, and only living species fade.
pub proof fn law_extinction_permanent<G>(s: Species<G>, age: u64)
    ensures
        s.extinct ==> aged_out(s, age).extinct,
        fades(s, age) ==> !s.extinct,
{
}


/// How many of the first `k` species are alive with the archetype at position `a`.
pub open spec fn living_archetype_tally<G>(s: Seq<Species<G>>, a: int, k: nat) -> int
    decreases k,
{
    if k == 0 {
        0
    } else {
        living_archetype_tally(s, a, (k - 1) as nat) + if !s[k - 1].extinct && archetype_index(s[k - 1].archetype)
            == a {
            1int
        } else {
            0int
        }
    }
}

/// The living-species tallies of the archetypes, by archetype position.
pub open spec fn living_archetype_tallies<G>(s: Seq<Species<G>>) -> spec_fn(int) -> int {
    |a: int| living_archetype_tally(s, a, s.len())
}

/// The archetype at a census position (Swarmer past the end).
pub open spec fn archetype_at(i: nat) -> Archetype {
    if i == 1 { Archetype::Hunter } else if i == 2 { Archetype::Grazer } else if i == 3 { Archetype::Orbiter }
    else if i == 4 { Archetype::Parasite } else if i == 5 { Archetype::Architect } else if i == 6 { Archetype::Leviathan }
    else if i == 7 { Archetype::Mycelial } else if i == 8 { Archetype::Phantom } else if i == 9 { Archetype::Harvester }
    else if i == 10 { Archetype::Reaper } else { Archetype::Swarmer }
}

proof fn lemma_living_tally_bound<G>(s: Seq<Species<G>>, a: int, k: nat)
    requires
        k <= s.len(),
    ensures
        0 <= living_archetype_tally(s, a, k) <= k,
    decreases k,
{
    if k > 0 {
        lemma_living_tally_bound(s, a, (k - 1) as nat);
    }
}

/// Census positions and archetypes correspond one to one: the archetype at
/// an archetype's position is that archetype, and each of the eleven
/// positions holds the archetype whose position it is.
pub proof fn law_archetype_positions(a: Archetype, i: nat)
    ensures
        archetype_at(archetype_index(a)) == a,
        i < 11 ==> archetype_index(archetype_at(i)) == i,
{
}

/// The dominant archetype is one of the first nine, no archetype among
/// them has more living species, and every one listed before it has fewer.
pub proof fn law_dominant_is_most_common<G>(s: Seq<Species<G>>)
    ensures
        archetype_index(archetype_at(crate::automata::first_best(living_archetype_tallies(s), 8) as nat)) < 9,
        forall|a: Archetype|
            archetype_index(a) < 9 ==> #[trigger] living_archetype_tally(s, archetype_index(a) as int, s.len())
                <= living_archetype_tally(
                s,
                archetype_index(archetype_at(crate::automata::first_best(living_archetype_tallies(s), 8) as nat)) as int,
                s.len(),
            ),
        forall|a: Archetype|
            archetype_index(a) < archetype_index(
                archetype_at(crate::automata::first_best(living_archetype_tallies(s), 8) as nat),
            ) ==> #[trigger] living_archetype_tally(s, archetype_index(a) as int, s.len()) < living_archetype_tally(
                s,
                archetype_index(archetype_at(crate::automata::first_best(living_archetype_tallies(s), 8) as nat)) as int,
                s.len(),
            ),
{
    let t = living_archetype_tallies(s);
    crate::automata::lemma_first_best(t, 8);
    let b = crate::automata::first_best(t, 8);
    law_archetype_positions(Archetype::Swarmer, b as nat);
    assert forall|a: Archetype| archetype_index(a) < 9 implies #[trigger] living_archetype_tally(
        s,
        archetype_index(a) as int,
        s.len(),
    ) <= living_archetype_tally(s, archetype_index(archetype_at(b as nat)) as int, s.len()) by {
        assert(t(archetype_index(a) as int) <= t(b));
    }
    assert forall|a: Archetype| archetype_index(a) < archetype_index(archetype_at(b as nat)) implies #[trigger] living_archetype_tally(
        s,
        archetype_index(a) as int,
        s.len(),
    ) < living_archetype_tally(s, archetype_index(archetype_at(b as nat)) as int, s.len()) by {
        assert(t(archetype_index(a) as int) < t(b));
    }
}

impl<G> SpeciesBank<G> {
    /// The archetype most common among living species, ties going to the
    /// earlier of the first nine archetypes (the ones species derive).
    pub fn dominant_archetype(&self) -> (r: Archetype)
        requires
            forall|i: int|
                0 <= i < self.species@.len() && !self.species@[i].extinct ==> archetype_index(
                    #[trigger] self.species@[i].archetype,
                ) < 9,
        ensures
            r == archetype_at(crate::automata::first_best(living_archetype_tallies(self.species@), 8) as nat),
            archetype_index(r) < 9,
            forall|a: Archetype|
                archetype_index(a) < 9 ==> #[trigger] living_archetype_tally(self.species@, archetype_index(a) as int, self.species@.len())
                    <= living_archetype_tally(self.species@, archetype_index(r) as int, self.species@.len()),
    {
        let mut counts: Vec<usize> = vec![0, 0, 0, 0, 0, 0, 0, 0, 0];
        let mut i: usize = 0;
        while i < self.species.len()
            invariant
                0 <= i <= self.species@.len(),
                counts@.len() == 9,
                forall|j: int|
                    0 <= j < self.species@.len() && !self.species@[j].extinct ==> archetype_index(
                        #[trigger] self.species@[j].archetype,
                    ) < 9,
                forall|a: int| 0 <= a < 9 ==> #[trigger] counts@[a] == living_archetype_tally(self.species@, a, i as nat),
            decreases self.species@.len() - i,
        {
            proof {
                lemma_living_tally_bound(self.species@, archetype_index(self.species@[i as int].archetype) as int, i as nat);
            }
            if !self.species[i].extinct {
                let a = self.species[i].archetype.index();
                counts[a] = counts[a] + 1;
            }
            i = i + 1;
        }
        let ghost f = living_archetype_tallies(self.species@);
        let mut best: usize = 0;
        let mut k: usize = 1;
        while k < 9
            invariant
                1 <= k <= 9,
                counts@.len() == 9,
                forall|a: int| 0 <= a < 9 ==> #[trigger] counts@[a] == f(a),
                best as int == crate::automata::first_best(f, (k - 1) as nat),
                best < k,
            decreases 9 - k,
        {
            if counts[k] > counts[best] {
                best = k;
            }
            k = k + 1;
        }
        let r = match best {
            1 => Archetype::Hunter,
            2 => Archetype::Grazer,
            3 => Archetype::Orbiter,
            4 => Archetype::Parasite,
            5 => Archetype::Architect,
            6 => Archetype::Leviathan,
            7 => Archetype::Mycelial,
            8 => Archetype::Phantom,
            _ => Archetype::Swarmer,
        };
        proof {
            law_dominant_is_most_common(self.species@);
        }
        r
    }

    /// The archetype of every species by id: one slot per id up to the next
    /// id, holding the archetype of the species with that id, or nothing.
    pub fn archetype_lookup(&self) -> (r: Vec<Option<Archetype>>)
        requires
            self.wf(),
            self.next_id < usize::MAX,
        ensures
            r@.len() == self.next_id + 1,
            forall|i: int| 0 <= i < self.species@.len() ==> r@[#[trigger] self.species@[i].id as int] == Some(self.species@[i].archetype),
            forall|k: int|
                0 <= k < r@.len() && (forall|i: int| 0 <= i < self.species@.len() ==> #[trigger] self.species@[i].id != k)
                    ==> r@[k] is None,
    {
        let size = self.next_id as usize + 1;
        let mut lookup: Vec<Option<Archetype>> = Vec::new();
        let mut z: usize = 0;
        while z < size
            invariant
                0 <= z <= size,
                lookup@.len() == z,
                forall|k: int| 0 <= k < z ==> lookup@[k] is None,
            decreases size - z,
        {
            lookup.push(None);
            z = z + 1;
        }
        let mut i: usize = 0;
        while i < self.species.len()
            invariant
                self.wf(),
                size == self.next_id + 1,
                lookup@.len() == size,
                0 <= i <= self.species@.len(),
                forall|j: int| 0 <= j < i ==> lookup@[#[trigger] self.species@[j].id as int] == Some(self.species@[j].archetype),
                forall|k: int|
                    0 <= k < size && (forall|j: int| 0 <= j < i ==> #[trigger] self.species@[j].id != k) ==> lookup@[k] is None,
            decreases self.species@.len() - i,
        {
            let id = self.species[i].id as usize;
            lookup[id] = Some(self.species[i].archetype);
            proof {
                assert forall|j: int| 0 <= j < i implies self.species@[j].id != self.species@[i as int].id by {
                }
            }
            i = i + 1;
        }
        lookup
    }
}


impl<G> SpeciesBank<G> {
    /// How many living species each archetype has, by census position.
    pub fn archetype_census(&self) -> (r: [usize; 11])
        ensures
            forall|a: int| 0 <= a < 11 ==> #[trigger] r@[a] == living_archetype_tally(self.species@, a, self.species@.len()),
    {
        let mut counts: [usize; 11] = [0; 11];
        let mut i: usize = 0;
        while i < self.species.len()
            invariant
                0 <= i <= self.species@.len(),
                forall|a: int| 0 <= a < 11 ==> #[trigger] counts@[a] == living_archetype_tally(self.species@, a, i as nat),
            decreases self.species@.len() - i,
        {
            proof {
                lemma_living_tally_bound(self.species@, archetype_index(self.species@[i as int].archetype) as int, i as nat);
            }
            if !self.species[i].extinct {
                let a = self.species[i].archetype.index();
                counts[a] = counts[a] + 1;
            }
            i = i + 1;
        }
        counts
    }
}

} // verus!
