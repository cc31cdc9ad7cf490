//! The cellular substrate: cell kinds, signal kinds, and the read-only
//! neighbourhood queries the substrate tick, the root-growth policy and the
//! renderer make of a snapshot of its kinds, ages and tribe hints.

use vstd::prelude::*;
use crate::hashing::{hash, mix_hash};
use crate::life::torus;
use crate::tree::{accept_wiggle, allow_root_direction, growth_pressure, growth_pressure_of, wiggle_ok};

verus! {

/// The kind of a substrate cell.
#[derive(Clone, Copy, Debug, PartialEq, Eq, Structural)]
pub enum CellKind {
    Empty,
    Life,
    Nutrient,
    Dead,
    Mutagen,
    Nest,
    Spore,
    Root,
}

/// Life, spores, nests and roots count as living substrate.
pub open spec fn living_kind(k: CellKind) -> bool {
    k == CellKind::Life || k == CellKind::Spore || k == CellKind::Nest || k == CellKind::Root
}

impl CellKind {
    /// Whether the kind counts as living substrate.
    pub fn is_alive(self) -> (r: bool)
        ensures
            r == living_kind(self),
    {
        match self {
            CellKind::Life | CellKind::Spore | CellKind::Nest | CellKind::Root => true,
            _ => false,
        }
    }

    /// Whether the kind is permanent terrain that nothing may consume.
    pub fn is_protected(self) -> (r: bool)
        ensures
            r == (self == CellKind::Root),
    {
        match self {
            CellKind::Root => true,
            _ => false,
        }
    }

    /// Whether the kind regenerates the substrate and may not be eaten.
    pub fn is_regenerative(self) -> (r: bool)
        ensures
            r == (self == CellKind::Dead || self == CellKind::Nutrient || self == CellKind::Spore
                || self == CellKind::Root),
    {
        match self {
            CellKind::Dead | CellKind::Nutrient | CellKind::Spore | CellKind::Root => true,
            _ => false,
        }
    }
}

/// Protected terrain is living and regenerative.
pub proof fn law_protected_kinds(k: CellKind)
    ensures
        k == CellKind::Root ==> living_kind(k),
        k == CellKind::Root ==> (k == CellKind::Dead || k == CellKind::Nutrient || k
            == CellKind::Spore || k == CellKind::Root),
{
}

/// The kind of a behavioural signal left in the substrate.
#[derive(Clone, Copy, Debug, PartialEq, Eq, Structural)]
pub enum SignalKind {
    Hunger,
    Fear,
    Growth,
    Danger,
}

impl SignalKind {
    /// The glyph drawn for a strong signal.
    pub fn glyph(self) -> (r: char)
        ensures
            self == SignalKind::Hunger ==> r == '∿',
            self == SignalKind::Fear ==> r == '!',
            self == SignalKind::Growth ==> r == '∙',
            self == SignalKind::Danger ==> r == '∷',
    {
        match self {
            SignalKind::Hunger => '∿',
            SignalKind::Fear => '!',
            SignalKind::Growth => '∙',
            SignalKind::Danger => '∷',
        }
    }
}

/// The sum of a term over the eight offsets around a cell.
pub open spec fn ring_sum(f: spec_fn(int, int) -> int) -> int {
    f(-1, -1) + f(0, -1) + f(1, -1) + f(-1, 0) + f(1, 0) + f(-1, 1) + f(0, 1) + f(1, 1)
}

/// The sum of a term over the nine offsets of a cell and its neighbours.
pub open spec fn block_sum(f: spec_fn(int, int) -> int) -> int {
    ring_sum(f) + f(0, 0)
}

/// The larger of two integers.
pub open spec fn max_int(a: int, b: int) -> int {
    if a > b { a } else { b }
}

/// The largest of a term over the eight offsets, and 0.
pub open spec fn ring_max(f: spec_fn(int, int) -> int) -> int {
    max_int(
        max_int(max_int(max_int(0, f(-1, -1)), max_int(f(0, -1), f(1, -1))), max_int(f(-1, 0), f(1, 0))),
        max_int(max_int(f(-1, 1), f(0, 1)), f(1, 1)),
    )
}

/// A snapshot of the substrate: row-major kinds, ages and tribe hints.
pub struct SubstrateGrid {
    pub width: usize,
    pub height: usize,
    pub kinds: Vec<CellKind>,
    pub ages: Vec<u16>,
    pub tribe_hints: Vec<usize>,
}

impl SubstrateGrid {
    /// The grid is non-empty, has one kind, age and hint per cell, and is no
    /// larger than a vector of two-byte ages can be (`isize::MAX` bytes).
    pub open spec fn wf(&self) -> bool {
        &&& self.width > 0
        &&& self.height > 0
        &&& self.width * self.height * 2 <= isize::MAX
        &&& self.kinds@.len() == self.width * self.height
        &&& self.ages@.len() == self.width * self.height
        &&& self.tribe_hints@.len() == self.width * self.height
    }

    /// The kind at column `x`, row `y`.
    pub open spec fn kind_at(&self, x: int, y: int) -> CellKind {
        self.kinds@[y * self.width + x]
    }

    /// The kind of the toroidal neighbour of `(x, y)` at offset `(dx, dy)`.
    pub open spec fn near_kind(&self, x: int, y: int, dx: int, dy: int) -> CellKind {
        self.kind_at(torus(x, dx, self.width as int), torus(y, dy, self.height as int))
    }

    /// The age of the toroidal neighbour of `(x, y)` at offset `(dx, dy)`.
    pub open spec fn near_age(&self, x: int, y: int, dx: int, dy: int) -> u16 {
        self.ages@[torus(y, dy, self.height as int) * self.width + torus(x, dx, self.width as int)]
    }

    /// The tribe hint of the toroidal neighbour of `(x, y)` at offset `(dx, dy)`.
    pub open spec fn near_hint(&self, x: int, y: int, dx: int, dy: int) -> usize {
        self.tribe_hints@[torus(y, dy, self.height as int) * self.width + torus(x, dx, self.width as int)]
    }

    /// The number of the eight neighbours of `(x, y)` of kind `k`.
    pub open spec fn kind_count(&self, x: int, y: int, k: CellKind) -> int {
        ring_sum(|dx: int, dy: int| if self.near_kind(x, y, dx, dy) == k { 1int } else { 0int })
    }

    /// The number of the eight neighbours of `(x, y)` that are living substrate.
    pub open spec fn living_count(&self, x: int, y: int) -> int {
        ring_sum(|dx: int, dy: int| if living_kind(self.near_kind(x, y, dx, dy)) { 1int } else { 0int })
    }

    /// The age of the oldest neighbour of kind `k`, or 0 when there is none.
    pub open spec fn oldest_age(&self, x: int, y: int, k: CellKind) -> int {
        ring_max(
            |dx: int, dy: int|
                if self.near_kind(x, y, dx, dy) == k { self.near_age(x, y, dx, dy) as int } else { 0int },
        )
    }

    /// How many of the nine cells around and including `(x, y)` carry a
    /// tribe hint equal to `t` modulo 6.
    pub open spec fn hint_tally(&self, x: int, y: int, t: int) -> int {
        block_sum(|dx: int, dy: int| if self.near_hint(x, y, dx, dy) % 6 == t { 1int } else { 0int })
    }
}

pub(crate) proof fn lemma_grid_size(w: int, h: int)
    requires
        w > 0,
        h > 0,
        w * h * 2 <= isize::MAX,
    ensures
        w * h <= usize::MAX,
        w * 2 <= isize::MAX,
        h * 2 <= isize::MAX,
{
    assert(w * 2 <= w * h * 2 && h * 2 <= w * h * 2) by (nonlinear_arith)
        requires
            w > 0,
            h > 0,
    {
    }
}

pub(crate) proof fn lemma_grid_index(x: int, y: int, w: int, h: int)
    requires
        0 <= x < w,
        0 <= y < h,
    ensures
        0 <= y * w + x < w * h,
{
    assert(0 <= y * w + x < w * h) by (nonlinear_arith)
        requires
            0 <= x < w,
            0 <= y < h,
    {
    }
}

fn step(c: usize, d: isize, m: usize) -> (r: usize)
    requires
        c < m,
        -1 <= d <= 1,
    ensures
        r == torus(c as int, d as int, m as int),
        r < m,
{
    if d < 0 {
        if c == 0 { m - 1 } else { c - 1 }
    } else if d > 0 {
        if c + 1 == m { 0 } else { c + 1 }
    } else {
        c
    }
}

impl SubstrateGrid {
    fn near_index(&self, x: usize, y: usize, dx: isize, dy: isize) -> (r: usize)
        requires
            self.wf(),
            x < self.width,
            y < self.height,
            -1 <= dx <= 1,
            -1 <= dy <= 1,
        ensures
            r == torus(y as int, dy as int, self.height as int) * self.width + torus(
                x as int,
                dx as int,
                self.width as int,
            ),
            r < self.width * self.height,
    {
        let nx = step(x, dx, self.width);
        let ny = step(y, dy, self.height);
        proof {
            lemma_grid_size(self.width as int, self.height as int);
            lemma_grid_index(nx as int, ny as int, self.width as int, self.height as int);
        }
        ny * self.width + nx
    }

    fn kind_hit(&self, x: usize, y: usize, dx: isize, dy: isize, kind: CellKind) -> (r: usize)
        requires
            self.wf(),
            x < self.width,
            y < self.height,
            -1 <= dx <= 1,
            -1 <= dy <= 1,
        ensures
            r == (if self.near_kind(x as int, y as int, dx as int, dy as int) == kind { 1int } else { 0int }),
    {
        let i = self.near_index(x, y, dx, dy);
        if self.kinds[i] == kind { 1 } else { 0 }
    }

    fn living_hit(&self, x: usize, y: usize, dx: isize, dy: isize) -> (r: usize)
        requires
            self.wf(),
            x < self.width,
            y < self.height,
            -1 <= dx <= 1,
            -1 <= dy <= 1,
        ensures
            r == (if living_kind(self.near_kind(x as int, y as int, dx as int, dy as int)) { 1int } else { 0int }),
    {
        let i = self.near_index(x, y, dx, dy);
        if self.kinds[i].is_alive() { 1 } else { 0 }
    }

    /// The number of living neighbours of `(x, y)` on the torus.
    pub fn alive_neighbors(&self, x: usize, y: usize) -> (r: usize)
        requires
            self.wf(),
            x < self.width,
            y < self.height,
        ensures
            r == self.living_count(x as int, y as int),
            r <= 8,
    {
        let mut c: usize = 0;
        c = c + self.living_hit(x, y, -1, -1);
        c = c + self.living_hit(x, y, 0, -1);
        c = c + self.living_hit(x, y, 1, -1);
        c = c + self.living_hit(x, y, -1, 0);
        c = c + self.living_hit(x, y, 1, 0);
        c = c + self.living_hit(x, y, -1, 1);
        c = c + self.living_hit(x, y, 0, 1);
        c = c + self.living_hit(x, y, 1, 1);
        c
    }

    /// The number of neighbours of `(x, y)` of kind `kind` on the torus.
    pub fn kind_neighbors(&self, x: usize, y: usize, kind: CellKind) -> (r: usize)
        requires
            self.wf(),
            x < self.width,
            y < self.height,
        ensures
            r == self.kind_count(x as int, y as int, kind),
            r <= 8,
    {
        let mut c: usize = 0;
        c = c + self.kind_hit(x, y, -1, -1, kind);
        c = c + self.kind_hit(x, y, 0, -1, kind);
        c = c + self.kind_hit(x, y, 1, -1, kind);
        c = c + self.kind_hit(x, y, -1, 0, kind);
        c = c + self.kind_hit(x, y, 1, 0, kind);
        c = c + self.kind_hit(x, y, -1, 1, kind);
        c = c + self.kind_hit(x, y, 0, 1, kind);
        c = c + self.kind_hit(x, y, 1, 1, kind);
        c
    }

    /// The number of `Life` neighbours of `(x, y)`: the Conway count of the substrate.
    pub fn life_neighbors(&self, x: usize, y: usize) -> (r: usize)
        requires
            self.wf(),
            x < self.width,
            y < self.height,
        ensures
            r == self.kind_count(x as int, y as int, CellKind::Life),
            r <= 8,
    {
        self.kind_neighbors(x, y, CellKind::Life)
    }

    fn age_hit(&self, x: usize, y: usize, dx: isize, dy: isize, kind: CellKind) -> (r: u16)
        requires
            self.wf(),
            x < self.width,
            y < self.height,
            -1 <= dx <= 1,
            -1 <= dy <= 1,
        ensures
            r as int == (if self.near_kind(x as int, y as int, dx as int, dy as int) == kind {
                self.near_age(x as int, y as int, dx as int, dy as int) as int
            } else {
                0int
            }),
    {
        let i = self.near_index(x, y, dx, dy);
        if self.kinds[i] == kind { self.ages[i] } else { 0 }
    }

    /// The age of the oldest neighbour of `(x, y)` of kind `kind`, or 0.
    pub fn oldest_neighbor_age(&self, x: usize, y: usize, kind: CellKind) -> (r: u16)
        requires
            self.wf(),
            x < self.width,
            y < self.height,
        ensures
            r as int == self.oldest_age(x as int, y as int, kind),
    {
        let a1 = self.age_hit(x, y, -1, -1, kind);
        let a2 = self.age_hit(x, y, 0, -1, kind);
        let a3 = self.age_hit(x, y, 1, -1, kind);
        let a4 = self.age_hit(x, y, -1, 0, kind);
        let a5 = self.age_hit(x, y, 1, 0, kind);
        let a6 = self.age_hit(x, y, -1, 1, kind);
        let a7 = self.age_hit(x, y, 0, 1, kind);
        let a8 = self.age_hit(x, y, 1, 1, kind);
        let m1 = if a1 > 0 { a1 } else { 0 };
        let m23 = if a2 > a3 { a2 } else { a3 };
        let m45 = if a4 > a5 { a4 } else { a5 };
        let m67 = if a6 > a7 { a6 } else { a7 };
        let left1 = if m1 > m23 { m1 } else { m23 };
        let left = if left1 > m45 { left1 } else { m45 };
        let right = if m67 > a8 { m67 } else { a8 };
        if left > right { left } else { right }
    }
}

/// How many of nine values equal `t`.
pub open spec fn ind9(a: usize, b: usize, c: usize, d: usize, e: usize, f: usize, g: usize, h: usize, i: usize, t: int) -> int {
    (if a == t { 1int } else { 0int }) + (if b == t { 1int } else { 0int }) + (if c == t { 1int } else { 0int })
        + (if d == t { 1int } else { 0int }) + (if e == t { 1int } else { 0int }) + (if f == t { 1int } else { 0int })
        + (if g == t { 1int } else { 0int }) + (if h == t { 1int } else { 0int }) + (if i == t { 1int } else { 0int })
}

/// The first index in `0..=k` whose tally is largest (ties keep the lower index).
pub open spec fn first_best(t: spec_fn(int) -> int, k: nat) -> int
    decreases k,
{
    if k == 0 {
        0
    } else {
        let b = first_best(t, (k - 1) as nat);
        if t(k as int) > t(b) { k as int } else { b }
    }
}

/// `first_best` picks a largest tally among `0..=k`, and every index before
/// it has a strictly smaller tally.
pub proof fn lemma_first_best(t: spec_fn(int) -> int, k: nat)
    ensures
        0 <= first_best(t, k) <= k,
        forall|j: int| 0 <= j <= k ==> #[trigger] t(j) <= t(first_best(t, k)),
        forall|j: int| 0 <= j < first_best(t, k) ==> #[trigger] t(j) < t(first_best(t, k)),
    decreases k,
{
    if k > 0 {
        lemma_first_best(t, (k - 1) as nat);
    }
}

/// A root grows into a site only from an established parent: the oldest
/// root beside the site is at least 18 ticks old. Growth also needs the
/// substrate under its root cap, one to three roots beside the site, at
/// most five roots within two cells, and a root below, diagonally below,
/// or (near a wall) beside it.
pub proof fn law_roots_grow_from_old_parents(
    g: SubstrateGrid,
    x: usize,
    y: usize,
    cycle: u64,
    seed: u64,
    root_count: usize,
    root_cap: usize,
    root_neighbors: usize,
    alive_neighbors: usize,
    seed_roll: usize,
)
    requires
        g.grows_trunk_root(x, y, cycle, seed, root_count, root_cap, root_neighbors, alive_neighbors, seed_roll),
    ensures
        g.oldest_age(x as int, y as int, CellKind::Root) >= 18,
        root_count < root_cap,
        1 <= root_neighbors <= 3,
        g.radius_count(x as int, y as int, CellKind::Root, 2) <= 5,
        g.vertical_parent(x as int, y as int) || g.diagonal_parent(x as int, y as int) || (g.near_wall(x as int)
            && g.lateral_parent(x as int, y as int)),
        exists|dx: int, dy: int|
            -1 <= dx <= 1 && -1 <= dy <= 1 && !(dx == 0 && dy == 0) && #[trigger] g.near_kind(x as int, y as int, dx, dy)
                == CellKind::Root && g.near_age(x as int, y as int, dx, dy) >= 18,
{
    let f = |dx: int, dy: int|
        if g.near_kind(x as int, y as int, dx, dy) == CellKind::Root { g.near_age(x as int, y as int, dx, dy) as int } else { 0int };
    assert(g.oldest_age(x as int, y as int, CellKind::Root) == ring_max(f));
    if f(-1, -1) >= 18 {
        assert(g.near_kind(x as int, y as int, -1, -1) == CellKind::Root);
    } else if f(0, -1) >= 18 {
        assert(g.near_kind(x as int, y as int, 0, -1) == CellKind::Root);
    } else if f(1, -1) >= 18 {
        assert(g.near_kind(x as int, y as int, 1, -1) == CellKind::Root);
    } else if f(-1, 0) >= 18 {
        assert(g.near_kind(x as int, y as int, -1, 0) == CellKind::Root);
    } else if f(1, 0) >= 18 {
        assert(g.near_kind(x as int, y as int, 1, 0) == CellKind::Root);
    } else if f(-1, 1) >= 18 {
        assert(g.near_kind(x as int, y as int, -1, 1) == CellKind::Root);
    } else if f(0, 1) >= 18 {
        assert(g.near_kind(x as int, y as int, 0, 1) == CellKind::Root);
    } else {
        assert(f(1, 1) >= 18);
        assert(g.near_kind(x as int, y as int, 1, 1) == CellKind::Root);
    }
}

impl SubstrateGrid {
    /// The tribe the neighbourhood of `(x, y)` leans to: the tribe hint
    /// (modulo 6) most common among the cell and its eight neighbours,
    /// ties going to the lower tribe.
    pub open spec fn leaning_tribe(&self, x: int, y: int) -> int {
        first_best(|t: int| self.hint_tally(x, y, t), 5)
    }

    fn hint_mod(&self, x: usize, y: usize, dx: isize, dy: isize) -> (r: usize)
        requires
            self.wf(),
            x < self.width,
            y < self.height,
            -1 <= dx <= 1,
            -1 <= dy <= 1,
        ensures
            r == self.near_hint(x as int, y as int, dx as int, dy as int) % 6,
    {
        let i = self.near_index(x, y, dx, dy);
        self.tribe_hints[i] % 6
    }

    /// The tribe hint a new cell at `(x, y)` inherits (see `leaning_tribe`).
    pub fn local_tribe_hint(&self, x: usize, y: usize) -> (r: usize)
        requires
            self.wf(),
            x < self.width,
            y < self.height,
        ensures
            r == self.leaning_tribe(x as int, y as int),
            r < 6,
    {
        let h1 = self.hint_mod(x, y, -1, -1);
        let h2 = self.hint_mod(x, y, 0, -1);
        let h3 = self.hint_mod(x, y, 1, -1);
        let h4 = self.hint_mod(x, y, -1, 0);
        let h5 = self.hint_mod(x, y, 1, 0);
        let h6 = self.hint_mod(x, y, -1, 1);
        let h7 = self.hint_mod(x, y, 0, 1);
        let h8 = self.hint_mod(x, y, 1, 1);
        let h0 = self.hint_mod(x, y, 0, 0);
        let ghost tally = |t: int| self.hint_tally(x as int, y as int, t);
        let ghost simple = |t: int| ind9(h1, h2, h3, h4, h5, h6, h7, h8, h0, t);
        assert(simple =~= tally);
        let mut counts: Vec<usize> = Vec::new();
        let mut t: usize = 0;
        while t < 6
            invariant
                0 <= t <= 6,
                counts@.len() == t,
                forall|j: int| 0 <= j < t ==> counts@[j] as int == ind9(h1, h2, h3, h4, h5, h6, h7, h8, h0, j),
            decreases 6 - t,
        {
            let c: usize = (if h1 == t { 1usize } else { 0 }) + (if h2 == t { 1usize } else { 0 })
                + (if h3 == t { 1usize } else { 0 }) + (if h4 == t { 1usize } else { 0 })
                + (if h5 == t { 1usize } else { 0 }) + (if h6 == t { 1usize } else { 0 })
                + (if h7 == t { 1usize } else { 0 }) + (if h8 == t { 1usize } else { 0 })
                + (if h0 == t { 1usize } else { 0 });
            counts.push(c);
            t = t + 1;
        }
        let mut best: usize = 0;
        let mut i: usize = 1;
        while i < 6
            invariant
                1 <= i <= 6,
                counts@.len() == 6,
                forall|j: int| 0 <= j < 6 ==> counts@[j] as int == simple(j),
                best as int == first_best(simple, (i - 1) as nat),
                best < i,
            decreases 6 - i,
        {
            if counts[i] > counts[best] {
                best = i;
            }
            i = i + 1;
        }
        best
    }

    /// The number of cells of kind `kind`.
    pub open spec fn kind_total(&self, kind: CellKind, k: nat) -> nat
        decreases k,
    {
        if k == 0 {
            0
        } else {
            self.kind_total(kind, (k - 1) as nat) + if self.kinds@[k - 1] == kind { 1nat } else { 0nat }
        }
    }

    /// The number of living cells among the first `k`.
    pub open spec fn living_total(&self, k: nat) -> nat
        decreases k,
    {
        if k == 0 {
            0
        } else {
            self.living_total((k - 1) as nat) + if living_kind(self.kinds@[k - 1]) { 1nat } else { 0nat }
        }
    }

    proof fn lemma_totals_bounded(&self, kind: CellKind, k: nat)
        ensures
            self.kind_total(kind, k) <= k,
            self.living_total(k) <= k,
        decreases k,
    {
        if k > 0 {
            self.lemma_totals_bounded(kind, (k - 1) as nat);
        }
    }

    /// The number of cells of kind `kind` in the whole grid.
    pub fn count_kind(&self, kind: CellKind) -> (r: usize)
        ensures
            r == self.kind_total(kind, self.kinds@.len()),
    {
        let mut count: usize = 0;
        let mut i: usize = 0;
        while i < self.kinds.len()
            invariant
                0 <= i <= self.kinds@.len(),
                count == self.kind_total(kind, i as nat),
            decreases self.kinds@.len() - i,
        {
            proof {
                self.lemma_totals_bounded(kind, i as nat);
            }
            if self.kinds[i] == kind {
                count = count + 1;
            }
            i = i + 1;
        }
        count
    }

    /// The number of living cells in the whole grid.
    pub fn living_cells(&self) -> (r: usize)
        ensures
            r == self.living_total(self.kinds@.len()),
    {
        let mut count: usize = 0;
        let mut i: usize = 0;
        while i < self.kinds.len()
            invariant
                0 <= i <= self.kinds@.len(),
                count == self.living_total(i as nat),
            decreases self.kinds@.len() - i,
        {
            proof {
                self.lemma_totals_bounded(CellKind::Empty, i as nat);
            }
            if self.kinds[i].is_alive() {
                count = count + 1;
            }
            i = i + 1;
        }
        count
    }

    /// The number of protected (root) cells in the whole grid.
    pub fn protected_cells(&self) -> (r: usize)
        ensures
            r == self.kind_total(CellKind::Root, self.kinds@.len()),
    {
        self.count_kind(CellKind::Root)
    }

    /// The number of cells in the grid.
    pub fn total_cells(&self) -> (r: usize)
        ensures
            r == self.kinds@.len(),
    {
        self.kinds.len()
    }
}

impl SubstrateGrid {
    /// 1 when the cell at offset `(dx, dy)` from `(x, y)`, wrapping around the
    /// torus, has kind `k` and is not the centre itself; otherwise 0.
    pub open spec fn square_hit(&self, x: int, y: int, k: CellKind, dx: int, dy: int) -> int {
        if (dx != 0 || dy != 0) && self.kind_at((x + dx) % (self.width as int), (y + dy) % (self.height as int)) == k {
            1
        } else {
            0
        }
    }

    /// The hits of row offset `dy` for column offsets `-r .. -r + n`.
    pub open spec fn square_row(&self, x: int, y: int, k: CellKind, r: int, dy: int, n: nat) -> int
        decreases n,
    {
        if n == 0 {
            0
        } else {
            self.square_row(x, y, k, r, dy, (n - 1) as nat) + self.square_hit(x, y, k, -r + n - 1, dy)
        }
    }

    /// The hits of row offsets `-r .. -r + m`, each over all column offsets `-r ..= r`.
    pub open spec fn square_count(&self, x: int, y: int, k: CellKind, r: int, m: nat) -> int
        decreases m,
    {
        if m == 0 {
            0
        } else {
            self.square_count(x, y, k, r, (m - 1) as nat) + self.square_row(x, y, k, r, -r + m - 1, (2 * r + 1) as nat)
        }
    }

    /// The number of cells of kind `k` in the square of radius `r` around
    /// `(x, y)` (wrapping around the torus, the centre excluded).
    pub open spec fn radius_count(&self, x: int, y: int, k: CellKind, r: int) -> int {
        self.square_count(x, y, k, r, (2 * r + 1) as nat)
    }

    proof fn lemma_row_bounds(&self, x: int, y: int, k: CellKind, r: int, dy: int, n: nat)
        ensures
            0 <= self.square_row(x, y, k, r, dy, n) <= n,
        decreases n,
    {
        if n > 0 {
            self.lemma_row_bounds(x, y, k, r, dy, (n - 1) as nat);
        }
    }

    proof fn lemma_count_bounds(&self, x: int, y: int, k: CellKind, r: int, m: nat)
        requires
            r >= 0,
        ensures
            0 <= self.square_count(x, y, k, r, m) <= m * (2 * r + 1),
        decreases m,
    {
        if m > 0 {
            self.lemma_count_bounds(x, y, k, r, (m - 1) as nat);
            self.lemma_row_bounds(x, y, k, r, -r + m - 1, (2 * r + 1) as nat);
            assert((m - 1) * (2 * r + 1) + (2 * r + 1) == m * (2 * r + 1)) by (nonlinear_arith);
        }
    }

    fn wrapped_kind(&self, x: usize, y: usize, dx: isize, dy: isize) -> (r: CellKind)
        requires
            self.wf(),
            x < self.width,
            y < self.height,
            x as int + dx <= isize::MAX,
            y as int + dy <= isize::MAX,
            x as int + dx >= isize::MIN,
            y as int + dy >= isize::MIN,
        ensures
            r == self.kind_at((x + dx) % (self.width as int), (y + dy) % (self.height as int)),
    {
        proof {
            lemma_grid_size(self.width as int, self.height as int);
        }
        let vx: isize = x as isize + dx;
        let vy: isize = y as isize + dy;
        let nx = vx.checked_rem_euclid(self.width as isize).unwrap() as usize;
        let ny = vy.checked_rem_euclid(self.height as isize).unwrap() as usize;
        proof {
            lemma_grid_index(nx as int, ny as int, self.width as int, self.height as int);
        }
        self.kinds[ny * self.width + nx]
    }

    /// The number of cells of kind `kind` within `radius` of `(x, y)` on the
    /// torus, the centre excluded (see `radius_count`).
    pub fn kind_radius_neighbors(&self, x: usize, y: usize, kind: CellKind, radius: isize) -> (r: usize)
        requires
            self.wf(),
            x < self.width,
            y < self.height,
            0 <= radius < isize::MAX,
            x + radius <= isize::MAX,
            y + radius <= isize::MAX,
            (2 * radius + 1) * (2 * radius + 1) <= usize::MAX,
        ensures
            r == self.radius_count(x as int, y as int, kind, radius as int),
    {
        let ghost rr = radius as int;
        let ghost side = 2 * rr + 1;
        let mut count: usize = 0;
        let mut dy: isize = -radius;
        while dy <= radius
            invariant
                self.wf(),
                x < self.width,
                y < self.height,
                0 <= radius < isize::MAX,
                x + radius <= isize::MAX,
                y + radius <= isize::MAX,
                rr == radius,
                side == 2 * rr + 1,
                side * side <= usize::MAX,
                -radius <= dy <= radius + 1,
                count == self.square_count(x as int, y as int, kind, rr, (dy + rr) as nat),
            decreases radius + 1 - dy,
        {
            proof {
                self.lemma_count_bounds(x as int, y as int, kind, rr, (dy + rr) as nat);
                assert((dy + rr) * side + side <= side * side) by (nonlinear_arith)
                    requires
                        dy + rr + 1 <= side,
                        side >= 1,
                {
                }
            }
            let mut dx: isize = -radius;
            while dx <= radius
                invariant
                    self.wf(),
                    x < self.width,
                    y < self.height,
                    0 <= radius < isize::MAX,
                    x + radius <= isize::MAX,
                    y + radius <= isize::MAX,
                    rr == radius,
                    side == 2 * rr + 1,
                    side * side <= usize::MAX,
                    -radius <= dy <= radius,
                    -radius <= dx <= radius + 1,
                    count == self.square_count(x as int, y as int, kind, rr, (dy + rr) as nat) + self.square_row(
                        x as int,
                        y as int,
                        kind,
                        rr,
                        dy as int,
                        (dx + rr) as nat,
                    ),
                    (dy + rr) * side + side <= side * side,
                decreases radius + 1 - dx,
            {
                proof {
                    self.lemma_count_bounds(x as int, y as int, kind, rr, (dy + rr) as nat);
                    self.lemma_row_bounds(x as int, y as int, kind, rr, dy as int, (dx + rr) as nat);
                }
                if !(dx == 0 && dy == 0) {
                    if self.wrapped_kind(x, y, dx, dy) == kind {
                        count = count + 1;
                    }
                }
                dx = dx + 1;
            }
            dy = dy + 1;
        }
        count
    }
}

/// The kind and tribe hint a fresh substrate gives the cell at `(x, y)`:
/// with `n` the hash of the seed and the cell modulo 10 000, roots where
/// `n < 210` in the bottom four rows, else life below 48, nutrient below 88,
/// spores below 108, mutagen below 114 and empty ground otherwise; the
/// hint is `n` modulo 6, and 0 on empty ground.
pub open spec fn initial_cell(seed: u64, x: usize, y: usize, height: usize) -> (CellKind, usize) {
    let n = mix_hash(seed, x, y) % 10_000;
    let ground_start = if height >= 4 { height - 4 } else { 0 };
    let kind = if y >= ground_start && n < 210 {
        CellKind::Root
    } else if n < 48 {
        CellKind::Life
    } else if n < 88 {
        CellKind::Nutrient
    } else if n < 108 {
        CellKind::Spore
    } else if n < 114 {
        CellKind::Mutagen
    } else {
        CellKind::Empty
    };
    (kind, if kind == CellKind::Empty { 0 } else { n % 6 })
}

/// The kind and tribe hint of a cell of a freshly seeded substrate (see `initial_cell`).
pub fn initial_cell_kind(seed: u64, x: usize, y: usize, height: usize) -> (r: (CellKind, usize))
    ensures
        r == initial_cell(seed, x, y, height),
{
    let n = hash(seed, x, y) % 10_000;
    let ground_start = height.saturating_sub(4);
    let kind = if y >= ground_start && n < 210 {
        CellKind::Root
    } else if n < 48 {
        CellKind::Life
    } else if n < 88 {
        CellKind::Nutrient
    } else if n < 108 {
        CellKind::Spore
    } else if n < 114 {
        CellKind::Mutagen
    } else {
        CellKind::Empty
    };
    (kind, if kind == CellKind::Empty { 0 } else { n % 6 })
}

impl SubstrateGrid {
    /// A freshly seeded substrate: at least 24 columns and 12 rows, every
    /// cell as `initial_cell` gives it, all of age 0.
    pub fn seeded(seed: u64, width: usize, height: usize) -> (g: SubstrateGrid)
        requires
            (if width > 24 { width as int } else { 24 }) * (if height > 12 { height as int } else { 12 }) * 2
                <= isize::MAX,
        ensures
            g.wf(),
            g.width == (if width > 24 { width } else { 24 }),
            g.height == (if height > 12 { height } else { 12 }),
            forall|i: int|
                0 <= i < g.kinds@.len() ==> (#[trigger] g.kinds@[i], g.tribe_hints@[i]) == initial_cell(
                    seed,
                    (i % (g.width as int)) as usize,
                    (i / (g.width as int)) as usize,
                    g.height,
                ) && g.ages@[i] == 0,
    {
        let w = if width > 24 { width } else { 24 };
        let h = if height > 12 { height } else { 12 };
        proof {
            lemma_grid_size(w as int, h as int);
        }
        let n = w * h;
        let mut kinds: Vec<CellKind> = Vec::new();
        let mut ages: Vec<u16> = Vec::new();
        let mut hints: Vec<usize> = Vec::new();
        let mut i: usize = 0;
        while i < n
            invariant
                n == w * h,
                w > 0,
                h > 0,
                0 <= i <= n,
                kinds@.len() == i,
                ages@.len() == i,
                hints@.len() == i,
                forall|j: int|
                    0 <= j < i ==> (#[trigger] kinds@[j], hints@[j]) == initial_cell(
                        seed,
                        (j % (w as int)) as usize,
                        (j / (w as int)) as usize,
                        h,
                    ) && ages@[j] == 0,
            decreases n - i,
        {
            let (kind, hint) = initial_cell_kind(seed, i % w, i / w, h);
            kinds.push(kind);
            ages.push(0);
            hints.push(hint);
            i = i + 1;
        }
        let g = SubstrateGrid { width: w, height: h, kinds, ages, tribe_hints: hints };
        assert(forall|j: int| 0 <= j < g.kinds@.len() ==> g.kinds@[j] == kinds@[j] && g.tribe_hints@[j] == hints@[j]
            && g.ages@[j] == ages@[j]);
        g
    }

    /// Whether the cell at `(x, y)` is a root (false off the grid).
    pub open spec fn root_at(&self, x: int, y: int) -> bool {
        0 <= x < self.width && 0 <= y < self.height && self.kind_at(x, y) == CellKind::Root
    }

    /// Within two columns of either wall.
    pub open spec fn near_wall(&self, x: int) -> bool {
        x <= 1 || x + 2 >= self.width
    }

    /// A root directly below.
    pub open spec fn vertical_parent(&self, x: int, y: int) -> bool {
        self.root_at(x, y + 1)
    }

    /// A root diagonally below.
    pub open spec fn diagonal_parent(&self, x: int, y: int) -> bool {
        self.root_at(x - 1, y + 1) || self.root_at(x + 1, y + 1)
    }

    /// A root to the left or right.
    pub open spec fn lateral_parent(&self, x: int, y: int) -> bool {
        self.root_at(x - 1, y) || self.root_at(x + 1, y)
    }

    /// The structural conditions for a root to grow into `(x, y)`: the cap
    /// is not reached, one to three neighbouring roots, at most 8 living
    /// neighbours, at most 5 roots within radius 2, a permitted growth
    /// direction and a neighbouring root at least 18 ticks old.
    pub open spec fn trunk_root_site(&self, x: int, y: int, root_count: usize, root_cap: usize, root_neighbors: usize, alive_neighbors: usize) -> bool {
        &&& root_count < root_cap
        &&& 1 <= root_neighbors <= 3
        &&& alive_neighbors <= 8
        &&& self.radius_count(x, y, CellKind::Root, 2) <= 5
        &&& (self.vertical_parent(x, y) || self.diagonal_parent(x, y) || (self.near_wall(x) && self.lateral_parent(x, y)))
        &&& self.oldest_age(x, y, CellKind::Root) >= 18
    }

    /// How many cycles separate growth attempts: 4 early on in the lower
    /// half (below 12/25 of the depth), else 6 under a vertical parent, else 11.
    pub open spec fn growth_cadence(&self, x: int, y: int, cycle: u64) -> int {
        if cycle < 1_500 && y * 25 > self.height * 12 {
            4
        } else if self.vertical_parent(x, y) {
            6
        } else {
            11
        }
    }
}

/// The phase of the growth cadence of a cell.
pub open spec fn trunk_phase(seed: u64, cycle: u64, x: usize, y: usize) -> int {
    mix_hash(seed ^ 0x51A7_EEAFu64 ^ cycle, x, y) as u64 as int
}

/// The wiggle roll of a cell.
pub open spec fn trunk_wiggle(seed: u64, cycle: u64, x: usize, y: usize) -> usize {
    mix_hash(seed ^ 0xC0FF_EE11u64 ^ cycle, x, y) % 10_000
}

impl SubstrateGrid {
    /// Whether a root grows into `(x, y)` this cycle: the site qualifies,
    /// the cell's phase falls on the cadence, the wiggle roll passes and the
    /// seed roll is below the growth pressure.
    pub open spec fn grows_trunk_root(&self, x: usize, y: usize, cycle: u64, seed: u64, root_count: usize, root_cap: usize, root_neighbors: usize, alive_neighbors: usize, seed_roll: usize) -> bool {
        &&& self.trunk_root_site(x as int, y as int, root_count, root_cap, root_neighbors, alive_neighbors)
        &&& (cycle + trunk_phase(seed, cycle, x, y)) % self.growth_cadence(x as int, y as int, cycle) == 0
        &&& wiggle_ok(
            self.diagonal_parent(x as int, y as int),
            self.near_wall(x as int) && self.lateral_parent(x as int, y as int),
            trunk_wiggle(seed, cycle, x, y),
        )
        &&& seed_roll < growth_pressure_of(
            cycle,
            y,
            self.height,
            self.vertical_parent(x as int, y as int),
            self.diagonal_parent(x as int, y as int),
            self.near_wall(x as int) && self.lateral_parent(x as int, y as int),
            self.oldest_age(x as int, y as int, CellKind::Root) as u32,
            root_count,
            root_cap,
        )
    }

    fn is_root(&self, x: usize, y: usize) -> (r: bool)
        requires
            self.wf(),
            x < self.width,
            y < self.height,
        ensures
            r == self.root_at(x as int, y as int),
    {
        proof {
            lemma_grid_size(self.width as int, self.height as int);
            lemma_grid_index(x as int, y as int, self.width as int, self.height as int);
        }
        self.kinds[y * self.width + x] == CellKind::Root
    }

    /// Whether `(x, y)` is a site a root may grow into (see `trunk_root_site`).
    pub(crate) fn trunk_site_ok(&self, x: usize, y: usize, root_count: usize, root_cap: usize, root_neighbors: usize, alive_neighbors: usize) -> (r: bool)
        requires
            self.wf(),
            x < self.width,
            y < self.height,
        ensures
            r == self.trunk_root_site(x as int, y as int, root_count, root_cap, root_neighbors, alive_neighbors),
    {
        proof {
            lemma_grid_size(self.width as int, self.height as int);
        }
        if root_count >= root_cap {
            return false;
        }
        if root_neighbors == 0 || root_neighbors > 3 {
            return false;
        }
        if alive_neighbors > 8 {
            return false;
        }
        assert((2 * 2isize + 1) * (2 * 2isize + 1) == 25) by (nonlinear_arith);
        let local_roots = self.kind_radius_neighbors(x, y, CellKind::Root, 2);
        if local_roots > 5 {
            return false;
        }
        let w = self.width;
        let h = self.height;
        let near_wall = x <= 1 || x + 2 >= w;
        let vertical_parent = y + 1 < h && self.is_root(x, y + 1);
        let diagonal_parent = (x > 0 && y + 1 < h && self.is_root(x - 1, y + 1)) || (x + 1 < w && y + 1 < h
            && self.is_root(x + 1, y + 1));
        let lateral_parent = (x > 0 && self.is_root(x - 1, y)) || (x + 1 < w && self.is_root(x + 1, y));
        if !allow_root_direction(near_wall, vertical_parent, diagonal_parent, lateral_parent) {
            return false;
        }
        let parent_age = self.oldest_neighbor_age(x, y, CellKind::Root);
        parent_age >= 18
    }

    /// Whether a root grows into `(x, y)` this cycle (see `grows_trunk_root`).
    pub fn should_grow_trunk_root(&self, x: usize, y: usize, cycle: u64, seed: u64, root_count: usize, root_cap: usize, root_neighbors: usize, alive_neighbors: usize, seed_roll: usize) -> (r: bool)
        requires
            self.wf(),
            x < self.width,
            y < self.height,
            self.trunk_root_site(x as int, y as int, root_count, root_cap, root_neighbors, alive_neighbors)
                ==> cycle + trunk_phase(seed, cycle, x, y) <= u64::MAX,
        ensures
            r == self.grows_trunk_root(x, y, cycle, seed, root_count, root_cap, root_neighbors, alive_neighbors, seed_roll),
    {
        proof {
            lemma_grid_size(self.width as int, self.height as int);
        }
        if !self.trunk_site_ok(x, y, root_count, root_cap, root_neighbors, alive_neighbors) {
            return false;
        }
        let w = self.width;
        let h = self.height;
        let near_wall = x <= 1 || x + 2 >= w;
        let vertical_parent = y + 1 < h && self.is_root(x, y + 1);
        let diagonal_parent = (x > 0 && y + 1 < h && self.is_root(x - 1, y + 1)) || (x + 1 < w && y + 1 < h
            && self.is_root(x + 1, y + 1));
        let lateral_parent = (x > 0 && self.is_root(x - 1, y)) || (x + 1 < w && self.is_root(x + 1, y));
        let parent_age = self.oldest_neighbor_age(x, y, CellKind::Root);
        let growth_cadence: u64 = if cycle < 1_500 && (y as u128) * 25 > (h as u128) * 12 {
            4
        } else if vertical_parent {
            6
        } else {
            11
        };
        let phase = hash(seed ^ 0x51A7_EEAFu64 ^ cycle, x, y) as u64;
        if (cycle + phase) % growth_cadence != 0 {
            return false;
        }
        let wiggle_roll = hash(seed ^ 0xC0FF_EE11u64 ^ cycle, x, y) % 10_000;
        if !accept_wiggle(diagonal_parent, near_wall && lateral_parent, wiggle_roll) {
            return false;
        }
        let pressure = growth_pressure(
            cycle,
            y,
            h,
            vertical_parent,
            diagonal_parent,
            near_wall && lateral_parent,
            parent_age as u32,
            root_count,
            root_cap,
        );
        seed_roll < pressure
    }
}

} // verus!
