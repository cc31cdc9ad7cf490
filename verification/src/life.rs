//! The axiom lattice: a toroidal Conway B3/S23 world that runs beside the
//! particle ecosystem, fingerprints every generation and classifies the
//! pattern it has settled into (dormant, static, oscillating, translating,
//! expanding, collapsing or chaotic).

use vstd::prelude::*;
use crate::hashing::{hash, mix_hash};
use crate::text::{push_decimal, decimal};

verus! {

/// How many past fingerprints the lattice remembers.
pub const HISTORY_LIMIT: usize = 32;

/// One cell of the lattice.
#[derive(Clone, Copy, Debug, PartialEq, Eq, Structural)]
pub enum LifeCell {
    Dead,
    Alive,
}

impl LifeCell {
    /// Whether the cell is alive.
    pub fn is_alive(self) -> (r: bool)
        ensures
            r == (self is Alive),
    {
        match self {
            LifeCell::Alive => true,
            LifeCell::Dead => false,
        }
    }
}

/// The coarse behaviour the lattice is showing.
#[derive(Clone, Copy, Debug, PartialEq, Eq, Structural)]
pub enum AxiomPatternState {
    Dormant,
    Static,
    Oscillating,
    Translating,
    Expanding,
    Collapsing,
    Chaotic,
}

/// Running statistics of the lattice.
#[derive(Clone, Copy, Debug)]
pub struct AxiomStats {
    pub generation: u64,
    pub alive: usize,
    pub births: usize,
    pub deaths: usize,
    pub stable_ticks: u16,
    pub oscillator_hits: u64,
    pub translation_hits: u64,
    pub peak_alive: usize,
    pub state: AxiomPatternState,
}

/// The statistics of a lattice that has not run yet.
pub open spec fn initial_stats() -> AxiomStats {
    AxiomStats {
        generation: 0,
        alive: 0,
        births: 0,
        deaths: 0,
        stable_ticks: 0,
        oscillator_hits: 0,
        translation_hits: 0,
        peak_alive: 0,
        state: AxiomPatternState::Dormant,
    }
}

impl Default for AxiomStats {
    fn default() -> (r: Self)
        ensures
            r == initial_stats(),
    {
        AxiomStats {
            generation: 0,
            alive: 0,
            births: 0,
            deaths: 0,
            stable_ticks: 0,
            oscillator_hits: 0,
            translation_hits: 0,
            peak_alive: 0,
            state: AxiomPatternState::Dormant,
        }
    }
}

/// A summary of one generation: an order-sensitive hash of the live cells,
/// their number and their (truncated) centroid.
#[derive(Clone, Copy, Debug, PartialEq, Eq, Structural)]
pub struct LifeFingerprint {
    pub hash: u64,
    pub alive: usize,
    pub centroid_x: i32,
    pub centroid_y: i32,
}

// ---------------------------------------------------------------------------
// The rule
// ---------------------------------------------------------------------------

/// The neighbour coordinate `c + d` on a ring of `m` positions, for a
/// coordinate `c` in `0..m` and a step `d` in `-1..=1`.
pub open spec fn torus(c: int, d: int, m: int) -> int {
    if c + d < 0 {
        c + d + m
    } else if c + d >= m {
        c + d - m
    } else {
        c + d
    }
}

/// Whether the cell at column `x`, row `y` of a row-major grid of width `w` lives.
pub open spec fn alive_at(cells: Seq<LifeCell>, w: int, x: int, y: int) -> bool {
    cells[y * w + x] is Alive
}

/// 1 when the neighbour at offset `(dx, dy)` (wrapping on the torus) lives, else 0.
pub open spec fn neighbor_bit(cells: Seq<LifeCell>, w: int, h: int, x: int, y: int, dx: int, dy: int) -> int {
    if alive_at(cells, w, torus(x, dx, w), torus(y, dy, h)) {
        1
    } else {
        0
    }
}

/// The number of live cells among the eight toroidal neighbours of `(x, y)`.
pub open spec fn neighbor_count(cells: Seq<LifeCell>, w: int, h: int, x: int, y: int) -> int {
    neighbor_bit(cells, w, h, x, y, -1, -1) + neighbor_bit(cells, w, h, x, y, 0, -1)
        + neighbor_bit(cells, w, h, x, y, 1, -1) + neighbor_bit(cells, w, h, x, y, -1, 0)
        + neighbor_bit(cells, w, h, x, y, 1, 0) + neighbor_bit(cells, w, h, x, y, -1, 1)
        + neighbor_bit(cells, w, h, x, y, 0, 1) + neighbor_bit(cells, w, h, x, y, 1, 1)
}

/// B3/S23: a live cell survives with two or three live neighbours, a dead
/// cell is born with exactly three.
pub open spec fn b3s23(cell: LifeCell, n: int) -> LifeCell {
    if (cell is Alive && (n == 2 || n == 3)) || (cell is Dead && n == 3) {
        LifeCell::Alive
    } else {
        LifeCell::Dead
    }
}

/// One synchronous B3/S23 generation of a `w` by `h` toroidal grid.
pub open spec fn life_step(cells: Seq<LifeCell>, w: nat, h: nat) -> Seq<LifeCell> {
    Seq::new(
        w * h,
        |i: int| b3s23(cells[i], neighbor_count(cells, w as int, h as int, i % (w as int), i / (w as int))),
    )
}

/// The number of live cells among the first `k` of `cells`.
pub open spec fn alive_prefix(cells: Seq<LifeCell>, k: nat) -> nat
    decreases k,
{
    if k == 0 {
        0
    } else {
        alive_prefix(cells, (k - 1) as nat) + if cells[k - 1] is Alive { 1nat } else { 0nat }
    }
}

/// The number of live cells.
pub open spec fn count_alive(cells: Seq<LifeCell>) -> nat {
    alive_prefix(cells, cells.len())
}

/// Among the first `k` positions, how many were dead in `prev` and live in `next`.
pub open spec fn birth_prefix(prev: Seq<LifeCell>, next: Seq<LifeCell>, k: nat) -> nat
    decreases k,
{
    if k == 0 {
        0
    } else {
        birth_prefix(prev, next, (k - 1) as nat) + if prev[k - 1] is Dead && next[k - 1] is Alive {
            1nat
        } else {
            0nat
        }
    }
}

/// Among the first `k` positions, how many were live in `prev` and dead in `next`.
pub open spec fn death_prefix(prev: Seq<LifeCell>, next: Seq<LifeCell>, k: nat) -> nat
    decreases k,
{
    if k == 0 {
        0
    } else {
        death_prefix(prev, next, (k - 1) as nat) + if prev[k - 1] is Alive && next[k - 1] is Dead {
            1nat
        } else {
            0nat
        }
    }
}

/// Births between two generations.
pub open spec fn birth_count(prev: Seq<LifeCell>, next: Seq<LifeCell>) -> nat {
    birth_prefix(prev, next, prev.len())
}

/// Deaths between two generations.
pub open spec fn death_count(prev: Seq<LifeCell>, next: Seq<LifeCell>) -> nat {
    death_prefix(prev, next, prev.len())
}

pub proof fn lemma_prefix_bounds(prev: Seq<LifeCell>, next: Seq<LifeCell>, k: nat)
    ensures
        alive_prefix(prev, k) <= k,
        birth_prefix(prev, next, k) <= k,
        death_prefix(prev, next, k) <= k,
    decreases k,
{
    if k > 0 {
        lemma_prefix_bounds(prev, next, (k - 1) as nat);
    }
}

/// Cells that were born or died account for the whole change in population:
/// among the first `k` positions, live(next) + deaths == live(prev) + births.
pub proof fn lemma_population_balance_prefix(prev: Seq<LifeCell>, next: Seq<LifeCell>, k: nat)
    ensures
        alive_prefix(next, k) + death_prefix(prev, next, k) == alive_prefix(prev, k)
            + birth_prefix(prev, next, k),
    decreases k,
{
    if k > 0 {
        lemma_population_balance_prefix(prev, next, (k - 1) as nat);
    }
}

// ---------------------------------------------------------------------------
// Executable grid helpers
// ---------------------------------------------------------------------------

pub(crate) proof fn lemma_row_major(i: int, w: int, h: int)
    requires
        0 <= i < w * h,
        w > 0,
        h > 0,
    ensures
        0 <= i % w < w,
        0 <= i / w < h,
        (i / w) * w + i % w == i,
{
    vstd::arithmetic::div_mod::lemma_fundamental_div_mod(i, w);
    assert((i / w) * w == w * (i / w)) by (nonlinear_arith);
    assert(0 <= i % w < w) by {
        vstd::arithmetic::div_mod::lemma_mod_bound(i, w);
    }
    assert(0 <= i / w) by {
        vstd::arithmetic::div_mod::lemma_div_pos_is_pos(i, w);
    }
    assert(i / w < h) by (nonlinear_arith)
        requires
            i == w * (i / w) + i % w,
            0 <= i % w,
            i < w * h,
            w > 0,
    {
    }
}

proof fn lemma_cell_index(x: int, y: int, w: int, h: int)
    requires
        0 <= x < w,
        0 <= y < h,
    ensures
        0 <= y * w + x < w * h,
{
    assert(0 <= y * w + x < w * h) by (nonlinear_arith)
        requires
            0 <= x < w,
            0 <= y < h,
    {
    }
}

/// The neighbour coordinate on the ring, for a step of -1, 0 or 1.
fn torus_step(c: usize, d: isize, m: usize) -> (r: usize)
    requires
        c < m,
        -1 <= d <= 1,
    ensures
        r == torus(c as int, d as int, m as int),
        r < m,
{
    if d < 0 {
        if c == 0 {
            m - 1
        } else {
            c - 1
        }
    } else if d > 0 {
        if c + 1 == m {
            0
        } else {
            c + 1
        }
    } else {
        c
    }
}

fn neighbor_alive(cells: &Vec<LifeCell>, w: usize, h: usize, x: usize, y: usize, dx: isize, dy: isize) -> (r: usize)
    requires
        cells@.len() == w * h,
        w * h <= usize::MAX,
        x < w,
        y < h,
        -1 <= dx <= 1,
        -1 <= dy <= 1,
    ensures
        r as int == neighbor_bit(cells@, w as int, h as int, x as int, y as int, dx as int, dy as int),
{
    let nx = torus_step(x, dx, w);
    let ny = torus_step(y, dy, h);
    proof {
        lemma_cell_index(nx as int, ny as int, w as int, h as int);
    }
    if cells[ny * w + nx].is_alive() {
        1
    } else {
        0
    }
}

/// The number of live toroidal neighbours of `(x, y)`.
fn neighbors_in(cells: &Vec<LifeCell>, w: usize, h: usize, x: usize, y: usize) -> (r: usize)
    requires
        cells@.len() == w * h,
        w * h <= usize::MAX,
        x < w,
        y < h,
    ensures
        r as int == neighbor_count(cells@, w as int, h as int, x as int, y as int),
        r <= 8,
{
    let mut count: usize = 0;
    count = count + neighbor_alive(cells, w, h, x, y, -1, -1);
    count = count + neighbor_alive(cells, w, h, x, y, 0, -1);
    count = count + neighbor_alive(cells, w, h, x, y, 1, -1);
    count = count + neighbor_alive(cells, w, h, x, y, -1, 0);
    count = count + neighbor_alive(cells, w, h, x, y, 1, 0);
    count = count + neighbor_alive(cells, w, h, x, y, -1, 1);
    count = count + neighbor_alive(cells, w, h, x, y, 0, 1);
    count = count + neighbor_alive(cells, w, h, x, y, 1, 1);
    count
}

/// Writes the next generation of `cells` into `next` and returns the
/// numbers of births and deaths.
fn compute_next(cells: &Vec<LifeCell>, w: usize, h: usize, next: &mut Vec<LifeCell>) -> (r: (usize, usize))
    requires
        w > 0,
        h > 0,
        cells@.len() == w * h,
        w * h <= usize::MAX,
        old(next)@.len() == w * h,
    ensures
        final(next)@ == life_step(cells@, w as nat, h as nat),
        r.0 == birth_count(cells@, life_step(cells@, w as nat, h as nat)),
        r.1 == death_count(cells@, life_step(cells@, w as nat, h as nat)),
{
    let n = w * h;
    let ghost step = life_step(cells@, w as nat, h as nat);
    let mut births: usize = 0;
    let mut deaths: usize = 0;
    let mut i: usize = 0;
    while i < n
        invariant
            n == w * h,
            w * h <= usize::MAX,
            w > 0,
            h > 0,
            cells@.len() == n,
            next@.len() == n,
            step == life_step(cells@, w as nat, h as nat),
            0 <= i <= n,
            forall|j: int| 0 <= j < i ==> next@[j] == step[j],
            births == birth_prefix(cells@, step, i as nat),
            deaths == death_prefix(cells@, step, i as nat),
        decreases n - i,
    {
        proof {
            lemma_row_major(i as int, w as int, h as int);
            lemma_prefix_bounds(cells@, step, i as nat);
        }
        let x = i % w;
        let y = i / w;
        let neighbors = neighbors_in(cells, w, h, x, y);
        let alive = cells[i].is_alive();
        let next_alive = if alive {
            neighbors == 2 || neighbors == 3
        } else {
            neighbors == 3
        };
        let state = if next_alive {
            LifeCell::Alive
        } else {
            LifeCell::Dead
        };
        next.set(i, state);
        if !alive && next_alive {
            births = births + 1;
        } else if alive && !next_alive {
            deaths = deaths + 1;
        }
        i = i + 1;
    }
    proof {
        assert(next@ =~= step);
    }
    (births, deaths)
}

/// The number of live cells of a grid.
fn count_in(cells: &Vec<LifeCell>) -> (r: usize)
    ensures
        r == count_alive(cells@),
{
    let mut count: usize = 0;
    let mut i: usize = 0;
    while i < cells.len()
        invariant
            0 <= i <= cells@.len(),
            count == alive_prefix(cells@, i as nat),
        decreases cells@.len() - i,
    {
        proof {
            lemma_prefix_bounds(cells@, cells@, i as nat);
        }
        if cells[i].is_alive() {
            count = count + 1;
        }
        i = i + 1;
    }
    count
}


// ---------------------------------------------------------------------------
// Fingerprints
// ---------------------------------------------------------------------------

/// Rotation of a 64-bit word left by `k` bits, for `k` in `1..64`.
pub open spec fn rotl(v: u64, k: u32) -> u64 {
    (v << k) | (v >> ((64 - k) as u32))
}

/// Rotates a 64-bit word left by `k` bits.
fn rotate_left(v: u64, k: u32) -> (r: u64)
    requires
        1 <= k <= 63,
    ensures
        r == rotl(v, k),
{
    (v << k) | (v >> (64 - k))
}

/// The multiplier of the fingerprint hash.
pub const FINGERPRINT_MIX: u64 = 0x9E37_79B9_7F4A_7C15;

/// The starting value of the fingerprint hash for a lattice seed.
pub open spec fn fingerprint_basis(seed: u64) -> u64 {
    seed ^ 0xA0C1_0F1F_EC07_0523u64
}

/// The fingerprint accumulator (hash, live count, sum of columns, sum of rows)
/// after scanning the first `k` cells in row-major order; counts saturate.
pub open spec fn fingerprint_fold(seed: u64, cells: Seq<LifeCell>, w: nat, k: nat) -> (u64, usize, usize, usize)
    decreases k,
{
    if k == 0 {
        (fingerprint_basis(seed), 0usize, 0usize, 0usize)
    } else {
        let prev = fingerprint_fold(seed, cells, w, (k - 1) as nat);
        let i = k - 1;
        let x = (i % (w as int)) as usize;
        let y = (i / (w as int)) as usize;
        if cells[i] is Alive {
            let local = mix_hash(prev.0, x, y) as u64;
            let h = (prev.0 ^ rotl(local, ((x + y) % 63 + 1) as u32)).wrapping_mul(FINGERPRINT_MIX);
            (h, prev.1.saturating_add(1), prev.2.saturating_add(x), prev.3.saturating_add(y))
        } else {
            prev
        }
    }
}

/// The fingerprint of a grid of width `w`.
pub open spec fn fingerprint_of(seed: u64, cells: Seq<LifeCell>, w: nat) -> LifeFingerprint {
    let acc = fingerprint_fold(seed, cells, w, cells.len());
    LifeFingerprint {
        hash: acc.0,
        alive: acc.1,
        centroid_x: if acc.1 == 0 { 0i32 } else { (acc.2 / acc.1) as i32 },
        centroid_y: if acc.1 == 0 { 0i32 } else { (acc.3 / acc.1) as i32 },
    }
}

/// The saturating live count of the fingerprint is the exact live count.
pub proof fn lemma_fingerprint_alive(seed: u64, cells: Seq<LifeCell>, w: nat, k: nat)
    requires
        k <= cells.len(),
        cells.len() <= usize::MAX,
    ensures
        fingerprint_fold(seed, cells, w, k).1 == alive_prefix(cells, k),
    decreases k,
{
    if k > 0 {
        lemma_fingerprint_alive(seed, cells, w, (k - 1) as nat);
        lemma_prefix_bounds(cells, cells, (k - 1) as nat);
    }
}

proof fn lemma_sum_fits(w: int, h: int)
    requires
        w >= 1,
        h >= 1,
        w * h <= usize::MAX,
    ensures
        w + h <= usize::MAX + 1,
{
    assert(w + h <= w * h + 1) by (nonlinear_arith)
        requires
            w >= 1,
            h >= 1,
    {
    }
}

fn fingerprint_in(seed: u64, cells: &Vec<LifeCell>, w: usize, h: usize) -> (r: LifeFingerprint)
    requires
        w > 0,
        h > 0,
        cells@.len() == w * h,
        w * h <= usize::MAX,
    ensures
        r == fingerprint_of(seed, cells@, w as nat),
        r.alive == count_alive(cells@),
{
    let n = w * h;
    let mut hv: u64 = seed ^ 0xA0C1_0F1F_EC07_0523u64;
    let mut alive: usize = 0;
    let mut sum_x: usize = 0;
    let mut sum_y: usize = 0;
    let mut i: usize = 0;
    while i < n
        invariant
            n == w * h,
            w * h <= usize::MAX,
            w > 0,
            h > 0,
            cells@.len() == n,
            0 <= i <= n,
            (hv, alive, sum_x, sum_y) == fingerprint_fold(seed, cells@, w as nat, i as nat),
        decreases n - i,
    {
        proof {
            lemma_row_major(i as int, w as int, h as int);
            lemma_sum_fits(w as int, h as int);
        }
        let x = i % w;
        let y = i / w;
        if cells[i].is_alive() {
            alive = alive.saturating_add(1);
            sum_x = sum_x.saturating_add(x);
            sum_y = sum_y.saturating_add(y);
            let local = hash(hv, x, y) as u64;
            let k = ((x + y) % 63) as u32 + 1;
            hv = hv ^ rotate_left(local, k);
            hv = hv.wrapping_mul(FINGERPRINT_MIX);
        }
        i = i + 1;
    }
    proof {
        lemma_fingerprint_alive(seed, cells@, w as nat, n as nat);
    }
    LifeFingerprint {
        hash: hv,
        alive,
        centroid_x: if alive == 0 { 0 } else { (sum_x / alive) as i32 },
        centroid_y: if alive == 0 { 0 } else { (sum_y / alive) as i32 },
    }
}


// ---------------------------------------------------------------------------
// Known patterns and the primordial soup
// ---------------------------------------------------------------------------

/// Classic patterns that can be stamped onto the lattice.
#[derive(Clone, Copy, Debug, PartialEq, Eq, Structural)]
pub enum AxiomSeed {
    Glider,
    Blinker,
    Toad,
    Beacon,
    RPentomino,
    Acorn,
    Diehard,
}

/// The live cells of each pattern, as offsets from its origin.
pub open spec fn seed_points(seed: AxiomSeed) -> Seq<(isize, isize)> {
    match seed {
        AxiomSeed::Glider => seq![(1isize, 0isize), (2, 1), (0, 2), (1, 2), (2, 2)],
        AxiomSeed::Blinker => seq![(0isize, 0isize), (1, 0), (2, 0)],
        AxiomSeed::Toad => seq![(1isize, 0isize), (2, 0), (3, 0), (0, 1), (1, 1), (2, 1)],
        AxiomSeed::Beacon => seq![(0isize, 0isize), (1, 0), (0, 1), (3, 2), (2, 3), (3, 3)],
        AxiomSeed::RPentomino => seq![(1isize, 0isize), (2, 0), (0, 1), (1, 1), (1, 2)],
        AxiomSeed::Acorn => seq![(1isize, 0isize), (3, 1), (0, 2), (1, 2), (4, 2), (5, 2), (6, 2)],
        AxiomSeed::Diehard => seq![(6isize, 0isize), (0, 1), (1, 1), (1, 2), (5, 2), (6, 2), (7, 2)],
    }
}

impl AxiomSeed {
    /// The live cells of the pattern, as offsets from its origin.
    pub fn points(self) -> (r: Vec<(isize, isize)>)
        ensures
            r@ == seed_points(self),
    {
        let r = match self {
            AxiomSeed::Glider => vec![(1isize, 0isize), (2, 1), (0, 2), (1, 2), (2, 2)],
            AxiomSeed::Blinker => vec![(0isize, 0isize), (1, 0), (2, 0)],
            AxiomSeed::Toad => vec![(1isize, 0isize), (2, 0), (3, 0), (0, 1), (1, 1), (2, 1)],
            AxiomSeed::Beacon => vec![(0isize, 0isize), (1, 0), (0, 1), (3, 2), (2, 3), (3, 3)],
            AxiomSeed::RPentomino => vec![(1isize, 0isize), (2, 0), (0, 1), (1, 1), (1, 2)],
            AxiomSeed::Acorn => vec![(1isize, 0isize), (3, 1), (0, 2), (1, 2), (4, 2), (5, 2), (6, 2)],
            AxiomSeed::Diehard => vec![(6isize, 0isize), (0, 1), (1, 1), (1, 2), (5, 2), (6, 2), (7, 2)],
        };
        assert(r@ =~= seed_points(self));
        r
    }
}

/// Every offset of a pattern is non-negative and at most 7.
pub proof fn lemma_seed_points_small(seed: AxiomSeed)
    ensures
        forall|i: int|
            0 <= i < seed_points(seed).len() ==> 0 <= #[trigger] seed_points(seed)[i].0 <= 7
                && 0 <= seed_points(seed)[i].1 <= 7,
{
}

/// `origin + offset` (the origin read as a signed index) wrapped into `0..m`.
pub open spec fn wrap_offset_spec(origin: usize, offset: isize, m: usize) -> int {
    ((origin as isize) as int + offset as int) % (m as int)
}

/// Whether every offset of the pattern can be added to the origin without
/// leaving the signed index range.
pub open spec fn fits_origin(seed: AxiomSeed, ox: usize, oy: usize) -> bool {
    forall|i: int|
        0 <= i < seed_points(seed).len() ==> (ox as isize) as int + (#[trigger] seed_points(seed)[i]).0
            <= isize::MAX && (oy as isize) as int + seed_points(seed)[i].1 <= isize::MAX
}

/// The grid after making each of the first `k` cells of a pattern live.
pub open spec fn stamp_prefix(cells: Seq<LifeCell>, w: usize, h: usize, seed: AxiomSeed, ox: usize, oy: usize, k: nat) -> Seq<LifeCell>
    decreases k,
{
    if k == 0 {
        cells
    } else {
        let prev = stamp_prefix(cells, w, h, seed, ox, oy, (k - 1) as nat);
        let p = seed_points(seed)[k - 1];
        let x = wrap_offset_spec(ox, p.0, w);
        let y = wrap_offset_spec(oy, p.1, h);
        prev.update(y * w + x, LifeCell::Alive)
    }
}

/// The grid after stamping a whole pattern at `(ox, oy)`.
pub open spec fn stamped(cells: Seq<LifeCell>, w: usize, h: usize, seed: AxiomSeed, ox: usize, oy: usize) -> Seq<LifeCell> {
    stamp_prefix(cells, w, h, seed, ox, oy, seed_points(seed).len())
}

proof fn lemma_stamp_len(cells: Seq<LifeCell>, w: usize, h: usize, seed: AxiomSeed, ox: usize, oy: usize, k: nat)
    requires
        w > 0,
        h > 0,
        cells.len() == w * h,
        k <= seed_points(seed).len(),
    ensures
        stamp_prefix(cells, w, h, seed, ox, oy, k).len() == cells.len(),
    decreases k,
{
    if k > 0 {
        lemma_stamp_len(cells, w, h, seed, ox, oy, (k - 1) as nat);
        let p = seed_points(seed)[k - 1];
        let x = wrap_offset_spec(ox, p.0, w);
        let y = wrap_offset_spec(oy, p.1, h);
        lemma_cell_index(x, y, w as int, h as int);
    }
}

fn wrap_offset(origin: usize, offset: isize, m: usize) -> (r: usize)
    requires
        0 < m <= isize::MAX,
        0 <= offset,
        (origin as isize) as int + offset <= isize::MAX,
    ensures
        r as int == wrap_offset_spec(origin, offset, m),
        r < m,
{
    let v: isize = (origin as isize) + offset;
    let r = v.checked_rem_euclid(m as isize);
    let q = r.unwrap();
    q as usize
}

fn stamp_in(cells: &mut Vec<LifeCell>, w: usize, h: usize, seed: AxiomSeed, ox: usize, oy: usize)
    requires
        w > 0,
        h > 0,
        w <= isize::MAX,
        h <= isize::MAX,
        w * h <= usize::MAX,
        old(cells)@.len() == w * h,
        fits_origin(seed, ox, oy),
    ensures
        final(cells)@ == stamped(old(cells)@, w, h, seed, ox, oy),
        final(cells)@.len() == w * h,
{
    let pts = seed.points();
    proof {
        lemma_seed_points_small(seed);
    }
    let mut k: usize = 0;
    while k < pts.len()
        invariant
            w > 0,
            h > 0,
            w <= isize::MAX,
            h <= isize::MAX,
            w * h <= usize::MAX,
            pts@ == seed_points(seed),
            fits_origin(seed, ox, oy),
            forall|i: int|
                0 <= i < seed_points(seed).len() ==> 0 <= #[trigger] seed_points(seed)[i].0 <= 7
                    && 0 <= seed_points(seed)[i].1 <= 7,
            0 <= k <= pts@.len(),
            cells@ == stamp_prefix(old(cells)@, w, h, seed, ox, oy, k as nat),
            cells@.len() == w * h,
        decreases pts@.len() - k,
    {
        let (dx, dy) = pts[k];
        assert(seed_points(seed)[k as int] == (dx, dy));
        let x = wrap_offset(ox, dx, w);
        let y = wrap_offset(oy, dy, h);
        proof {
            lemma_cell_index(x as int, y as int, w as int, h as int);
        }
        cells.set(y * w + x, LifeCell::Alive);
        k = k + 1;
    }
}

/// How many soup draws a `w` by `h` lattice makes.
pub open spec fn soup_draws(w: usize, h: usize) -> nat {
    if (w * h) / 38 > 12 {
        ((w * h) / 38) as nat
    } else {
        12
    }
}

/// The grid after the first `k` soup draws on an all-dead lattice: draw `i`
/// picks a cell from two hashes of `i` and makes it live when a third hash
/// of the cell falls in the lowest 42 of 100 buckets.
pub open spec fn soup_prefix(seed: u64, w: usize, h: usize, k: nat) -> Seq<LifeCell>
    decreases k,
{
    if k == 0 {
        Seq::new((w * h) as nat, |i: int| LifeCell::Dead)
    } else {
        let prev = soup_prefix(seed, w, h, (k - 1) as nat);
        let i = (k - 1) as usize;
        let x = mix_hash(seed ^ 0xA111_0C1Cu64, i, w) % w;
        let y = mix_hash(seed ^ 0xB317_0523u64, i, h) % h;
        if mix_hash(seed ^ 0x5EED_1AFEu64, x, y) % 100 < 42 {
            prev.update(y * w + x, LifeCell::Alive)
        } else {
            prev
        }
    }
}

proof fn lemma_soup_len(seed: u64, w: usize, h: usize, k: nat)
    requires
        w > 0,
        h > 0,
    ensures
        soup_prefix(seed, w, h, k).len() == w * h,
    decreases k,
{
    if k > 0 {
        lemma_soup_len(seed, w, h, (k - 1) as nat);
        let i = (k - 1) as usize;
        let x = mix_hash(seed ^ 0xA111_0C1Cu64, i, w) % w;
        let y = mix_hash(seed ^ 0xB317_0523u64, i, h) % h;
        lemma_cell_index(x as int, y as int, w as int, h as int);
    }
}

/// The primordial soup of a lattice: the random draws, then an R-pentomino
/// at a third of the way across and down, an acorn at two thirds across and
/// half way down, and a glider at the middle column a quarter of the way down.
pub open spec fn seeded_cells(seed: u64, w: usize, h: usize) -> Seq<LifeCell> {
    let soup = soup_prefix(seed, w, h, soup_draws(w, h));
    let a = stamped(soup, w, h, AxiomSeed::RPentomino, w / 3, h / 3);
    let b = stamped(a, w, h, AxiomSeed::Acorn, (w * 2 / 3) as usize, h / 2);
    stamped(b, w, h, AxiomSeed::Glider, w / 2, h / 4)
}

// ---------------------------------------------------------------------------
// History and classification
// ---------------------------------------------------------------------------

/// The history after remembering `fp`, keeping at most the last 32 entries.
pub open spec fn pushed_history(history: Seq<LifeFingerprint>, fp: LifeFingerprint) -> Seq<LifeFingerprint> {
    let h2 = history.push(fp);
    if h2.len() > HISTORY_LIMIT {
        h2.subrange(1, h2.len() as int)
    } else {
        h2
    }
}

/// Whether one of the last 12 remembered fingerprints has hash `h`.
pub open spec fn recent_repeat(history: Seq<LifeFingerprint>, h: u64) -> bool {
    exists|i: int| 0 <= i < history.len() && history.len() - 12 <= i && (#[trigger] history[i]).hash == h
}

pub open spec fn abs_int(v: int) -> int {
    if v < 0 { -v } else { v }
}

/// Manhattan distance between two centroids.
pub open spec fn centroid_distance(a: LifeFingerprint, b: LifeFingerprint) -> int {
    abs_int(a.centroid_x - b.centroid_x) + abs_int(a.centroid_y - b.centroid_y)
}

/// A past generation of nearly the same size and a different hash whose
/// centroid lies between 2 and 9 cells away.
pub open spec fn drifted_from(past: LifeFingerprint, fp: LifeFingerprint) -> bool {
    &&& abs_int(past.alive - fp.alive) <= 3
    &&& past.hash != fp.hash
    &&& 2 <= centroid_distance(past, fp) <= 9
}

/// Whether some remembered generation is one that `fp` has drifted from.
pub open spec fn translation_seen(history: Seq<LifeFingerprint>, fp: LifeFingerprint) -> bool {
    exists|i: int| 0 <= i < history.len() && drifted_from(#[trigger] history[i], fp)
}

/// A population threshold: `n + n / 3` (saturating), and at least 4.
pub open spec fn growth_threshold(n: usize) -> usize {
    let t = n.saturating_add(n / 3);
    if t > 4 { t } else { 4 }
}

/// The statistics after classifying a new generation `fp` that followed a
/// generation of `before_alive` live cells.
pub open spec fn classified(stats: AxiomStats, history: Seq<LifeFingerprint>, before_alive: usize, fp: LifeFingerprint) -> AxiomStats {
    if fp.alive == 0 {
        AxiomStats { state: AxiomPatternState::Dormant, ..stats }
    } else if stats.stable_ticks >= 3 {
        AxiomStats { state: AxiomPatternState::Static, ..stats }
    } else if recent_repeat(history, fp.hash) {
        AxiomStats {
            oscillator_hits: stats.oscillator_hits.saturating_add(1),
            state: AxiomPatternState::Oscillating,
            ..stats
        }
    } else if translation_seen(history, fp) {
        AxiomStats {
            translation_hits: stats.translation_hits.saturating_add(1),
            state: AxiomPatternState::Translating,
            ..stats
        }
    } else if fp.alive > growth_threshold(before_alive) {
        AxiomStats { state: AxiomPatternState::Expanding, ..stats }
    } else if before_alive > growth_threshold(fp.alive) {
        AxiomStats { state: AxiomPatternState::Collapsing, ..stats }
    } else {
        AxiomStats { state: AxiomPatternState::Chaotic, ..stats }
    }
}

fn abs_diff(a: usize, b: usize) -> (r: usize)
    ensures
        r as int == abs_int(a - b),
{
    if a >= b { a - b } else { b - a }
}

fn centroid_gap(a: LifeFingerprint, b: LifeFingerprint) -> (r: i64)
    ensures
        r as int == centroid_distance(a, b),
{
    let dx = (a.centroid_x as i64) - (b.centroid_x as i64);
    let dy = (a.centroid_y as i64) - (b.centroid_y as i64);
    let ax = if dx < 0 { -dx } else { dx };
    let ay = if dy < 0 { -dy } else { dy };
    ax + ay
}

fn has_recent_repeat(history: &Vec<LifeFingerprint>, h: u64) -> (r: bool)
    ensures
        r == recent_repeat(history@, h),
{
    let len = history.len();
    let start = if len > 12 { len - 12 } else { 0 };
    let mut i = start;
    while i < len
        invariant
            len == history@.len(),
            start <= i <= len,
            start == (if len > 12 { len - 12 } else { 0 }),
            forall|j: int| start <= j < i ==> history@[j].hash != h,
        decreases len - i,
    {
        if history[i].hash == h {
            assert(0 <= i < history@.len() && history@.len() - 12 <= i && history@[i as int].hash == h);
            return true;
        }
        i = i + 1;
    }
    false
}

fn has_translation(history: &Vec<LifeFingerprint>, fp: LifeFingerprint) -> (r: bool)
    ensures
        r == translation_seen(history@, fp),
{
    let len = history.len();
    let mut i = len;
    while i > 0
        invariant
            len == history@.len(),
            0 <= i <= len,
            forall|j: int| i <= j < len ==> !drifted_from(history@[j], fp),
        decreases i,
    {
        i = i - 1;
        let past = history[i];
        let d = centroid_gap(past, fp);
        if abs_diff(past.alive, fp.alive) <= 3 && past.hash != fp.hash && d >= 2 && d <= 9 {
            assert(drifted_from(history@[i as int], fp));
            return true;
        }
    }
    false
}

fn growth_threshold_of(n: usize) -> (r: usize)
    ensures
        r == growth_threshold(n),
{
    let t = n.saturating_add(n / 3);
    if t > 4 { t } else { 4 }
}



/// `a` capped at `b`.
pub open spec fn at_most(a: usize, b: usize) -> usize {
    if a < b { a } else { b }
}

/// A screen coordinate `s` on a screen of `screen` positions mapped onto
/// `dim` lattice positions: `s * dim / screen`, capped at `dim - 1`.
pub open spec fn screen_coord(s: usize, dim: usize, screen: usize) -> usize {
    at_most(((s as int * dim as int) / (screen as int)) as usize, (dim - 1) as usize)
}

/// The name of a pattern state as it appears in status lines.
pub open spec fn state_label(state: AxiomPatternState) -> &'static str {
    match state {
        AxiomPatternState::Dormant => "Dormant",
        AxiomPatternState::Static => "Static",
        AxiomPatternState::Oscillating => "Oscillating",
        AxiomPatternState::Translating => "Translating",
        AxiomPatternState::Expanding => "Expanding",
        AxiomPatternState::Collapsing => "Collapsing",
        AxiomPatternState::Chaotic => "Chaotic",
    }
}

/// The name of a pattern state as it appears in status lines.
pub fn state_name(state: AxiomPatternState) -> (r: &'static str)
    ensures
        r == state_label(state),
{
    match state {
        AxiomPatternState::Dormant => "Dormant",
        AxiomPatternState::Static => "Static",
        AxiomPatternState::Oscillating => "Oscillating",
        AxiomPatternState::Translating => "Translating",
        AxiomPatternState::Expanding => "Expanding",
        AxiomPatternState::Collapsing => "Collapsing",
        AxiomPatternState::Chaotic => "Chaotic",
    }
}

// ---------------------------------------------------------------------------
// The lattice
// ---------------------------------------------------------------------------

/// The mathematical state of a lattice.
pub struct LatticeView {
    pub width: usize,
    pub height: usize,
    pub seed: u64,
    pub cells: Seq<LifeCell>,
    pub history: Seq<LifeFingerprint>,
    pub stats: AxiomStats,
}

/// The shape every lattice keeps: at least 24 by 12, addressable, one cell
/// per position, at most 32 remembered fingerprints and a peak population
/// no smaller than the current one.
pub open spec fn view_wf(v: LatticeView) -> bool {
    &&& v.width >= 24
    &&& v.height >= 12
    &&& v.width * v.height <= usize::MAX
    &&& v.cells.len() == v.width * v.height
    &&& v.history.len() <= HISTORY_LIMIT
    &&& v.stats.alive <= v.stats.peak_alive
}

/// The lattice after the primordial soup is laid down again from its seed:
/// the cells are replaced, the live count and peak are reset to the new
/// population and the new fingerprint is remembered.
pub open spec fn reseeded(v: LatticeView) -> LatticeView {
    let cells = seeded_cells(v.seed, v.width, v.height);
    let n = count_alive(cells) as usize;
    LatticeView {
        cells: cells,
        history: pushed_history(v.history, fingerprint_of(v.seed, cells, v.width as nat)),
        stats: AxiomStats { alive: n, peak_alive: n, ..v.stats },
        ..v
    }
}

/// A freshly seeded `w` by `h` lattice with no past.
pub open spec fn fresh_lattice(seed: u64, w: usize, h: usize) -> LatticeView {
    reseeded(
        LatticeView {
            width: w,
            height: h,
            seed: seed,
            cells: Seq::empty(),
            history: Seq::empty(),
            stats: initial_stats(),
        },
    )
}

/// `d` raised to the minimum `lo`.
pub open spec fn at_least(d: usize, lo: usize) -> usize {
    if d > lo { d } else { lo }
}

/// The lattice one generation later: every cell follows B3/S23, the
/// generation counter advances, births, deaths, population, peak and the
/// count of unchanged-hash generations are updated, the pattern is
/// classified against the remembered past and the new fingerprint is
/// remembered.
pub open spec fn ticked(v: LatticeView) -> LatticeView {
    let next = life_step(v.cells, v.width as nat, v.height as nat);
    let fp = fingerprint_of(v.seed, next, v.width as nat);
    let previous_hash = fingerprint_of(v.seed, v.cells, v.width as nat).hash;
    let s1 = AxiomStats {
        generation: v.stats.generation.saturating_add(1),
        alive: fp.alive,
        births: birth_count(v.cells, next) as usize,
        deaths: death_count(v.cells, next) as usize,
        peak_alive: at_least(v.stats.peak_alive, fp.alive),
        stable_ticks: if fp.hash == previous_hash { v.stats.stable_ticks.saturating_add(1) } else { 0 },
        ..v.stats
    };
    LatticeView {
        cells: next,
        history: pushed_history(v.history, fp),
        stats: classified(s1, v.history, count_alive(v.cells) as usize, fp),
        ..v
    }
}

/// The axiom lattice.
pub struct AxiomLattice {
    width: usize,
    height: usize,
    seed: u64,
    cells: Vec<LifeCell>,
    scratch: Vec<LifeCell>,
    history: Vec<LifeFingerprint>,
    stats: AxiomStats,
}

impl View for AxiomLattice {
    type V = LatticeView;

    closed spec fn view(&self) -> LatticeView {
        LatticeView {
            width: self.width,
            height: self.height,
            seed: self.seed,
            cells: self.cells@,
            history: self.history@,
            stats: self.stats,
        }
    }
}

proof fn lemma_dims(w: usize, h: usize)
    requires
        w >= 24,
        h >= 12,
        w * h <= usize::MAX,
    ensures
        w * 12 <= usize::MAX,
        h * 24 <= usize::MAX,
        w <= isize::MAX,
        h <= isize::MAX,
        w * 2 <= usize::MAX,
{
    assert(w * 12 <= w * h) by (nonlinear_arith)
        requires
            h >= 12,
            w >= 0,
    {
    }
    assert(h * 24 <= w * h) by (nonlinear_arith)
        requires
            w >= 24,
            h >= 0,
    {
    }
}

fn fill_dead(cells: &mut Vec<LifeCell>)
    ensures
        final(cells)@ == Seq::new(old(cells)@.len(), |i: int| LifeCell::Dead),
{
    let mut i: usize = 0;
    while i < cells.len()
        invariant
            0 <= i <= cells@.len(),
            cells@.len() == old(cells)@.len(),
            forall|j: int| 0 <= j < i ==> cells@[j] == LifeCell::Dead,
        decreases cells@.len() - i,
    {
        cells.set(i, LifeCell::Dead);
        i = i + 1;
    }
    assert(cells@ =~= Seq::new(old(cells)@.len(), |i: int| LifeCell::Dead));
}


fn soup_in(cells: &mut Vec<LifeCell>, seed: u64, w: usize, h: usize)
    requires
        w >= 24,
        h >= 12,
        w * h <= usize::MAX,
        old(cells)@.len() == w * h,
    ensures
        final(cells)@ == soup_prefix(seed, w, h, soup_draws(w, h)),
        final(cells)@.len() == w * h,
{
    let n = w * h;
    fill_dead(cells);
    let soup = if n / 38 > 12 { n / 38 } else { 12 };
    let mut i: usize = 0;
    while i < soup
        invariant
            w >= 24,
            h >= 12,
            n == w * h,
            w * h <= usize::MAX,
            soup as nat == soup_draws(w, h),
            0 <= i <= soup,
            cells@ == soup_prefix(seed, w, h, i as nat),
            cells@.len() == n,
        decreases soup - i,
    {
        let x = hash(seed ^ 0xA111_0C1Cu64, i, w) % w;
        let y = hash(seed ^ 0xB317_0523u64, i, h) % h;
        if hash(seed ^ 0x5EED_1AFEu64, x, y) % 100 < 42 {
            proof {
                lemma_cell_index(x as int, y as int, w as int, h as int);
            }
            cells.set(y * w + x, LifeCell::Alive);
        }
        i = i + 1;
    }
}

proof fn lemma_origin_fits(seed: AxiomSeed, ox: usize, oy: usize)
    requires
        ox + 8 <= isize::MAX,
        oy + 8 <= isize::MAX,
    ensures
        fits_origin(seed, ox, oy),
{
    lemma_seed_points_small(seed);
    assert((ox as isize) as int == ox);
    assert((oy as isize) as int == oy);
}

fn seed_cells_in(cells: &mut Vec<LifeCell>, seed: u64, w: usize, h: usize)
    requires
        w >= 24,
        h >= 12,
        w * h <= usize::MAX,
        old(cells)@.len() == w * h,
    ensures
        final(cells)@ == seeded_cells(seed, w, h),
        final(cells)@.len() == w * h,
{
    proof {
        lemma_dims(w, h);
        lemma_origin_fits(AxiomSeed::RPentomino, w / 3, h / 3);
        lemma_origin_fits(AxiomSeed::Acorn, (w * 2 / 3) as usize, h / 2);
        lemma_origin_fits(AxiomSeed::Glider, w / 2, h / 4);
    }
    soup_in(cells, seed, w, h);
    stamp_in(cells, w, h, AxiomSeed::RPentomino, w / 3, h / 3);
    stamp_in(cells, w, h, AxiomSeed::Acorn, w * 2 / 3, h / 2);
    stamp_in(cells, w, h, AxiomSeed::Glider, w / 2, h / 4);
}

impl AxiomLattice {
    /// The lattice keeps the shape of `view_wf` and a scratch buffer of the
    /// same size as its cells.
    pub closed spec fn wf(&self) -> bool {
        &&& view_wf(self@)
        &&& self.scratch@.len() == self.width * self.height
    }

    /// A well-formed lattice has a well-formed view, so the laws stated over
    /// views apply to every lattice the library hands out.
    pub proof fn lemma_view_wf(&self)
        requires
            self.wf(),
        ensures
            view_wf(self@),
    {
    }

    /// Creates a lattice of at least 24 by 12 cells, seeded with the
    /// primordial soup of `seed`.
    pub fn new(seed: u64, width: usize, height: usize) -> (r: Self)
        requires
            at_least(width, 24) * at_least(height, 12) <= usize::MAX,
        ensures
            r.wf(),
            r@ == fresh_lattice(seed, at_least(width, 24), at_least(height, 12)),
    {
        let width = if width > 24 { width } else { 24 };
        let height = if height > 12 { height } else { 12 };
        let cells = vec![LifeCell::Dead; width * height];
        let scratch = vec![LifeCell::Dead; width * height];
        let mut lattice = AxiomLattice {
            width,
            height,
            seed,
            scratch,
            cells,
            history: Vec::with_capacity(HISTORY_LIMIT),
            stats: AxiomStats::default(),
        };
        proof {
            assert(lattice.history@ =~= Seq::<LifeFingerprint>::empty());
        }
        lattice.seed_prime_soup();
        proof {
            assert(lattice@.history =~= fresh_lattice(seed, width, height).history);
        }
        lattice
    }

    /// Clears the lattice, forgets its past and reseeds it from `seed`.
    pub fn reset(&mut self, seed: u64)
        requires
            old(self).wf(),
        ensures
            final(self).wf(),
            final(self)@ == fresh_lattice(seed, old(self)@.width, old(self)@.height),
    {
        self.seed = seed;
        fill_dead(&mut self.cells);
        fill_dead(&mut self.scratch);
        self.history.clear();
        self.stats = AxiomStats::default();
        self.seed_prime_soup();
        proof {
            assert(self@.history =~= fresh_lattice(seed, self.width, self.height).history);
        }
    }

    fn push_history(&mut self, fp: LifeFingerprint)
        requires
            old(self).history@.len() <= HISTORY_LIMIT,
        ensures
            final(self).history@ == pushed_history(old(self).history@, fp),
            final(self).history@.len() <= HISTORY_LIMIT,
            final(self).width == old(self).width,
            final(self).height == old(self).height,
            final(self).seed == old(self).seed,
            final(self).cells == old(self).cells,
            final(self).scratch == old(self).scratch,
            final(self).stats == old(self).stats,
    {
        self.history.push(fp);
        if self.history.len() > HISTORY_LIMIT {
            self.history.remove(0);
            proof {
                assert(self.history@ =~= pushed_history(old(self).history@, fp));
            }
        }
    }

    /// Lays the primordial soup of the lattice's seed down again: every cell
    /// dies, then the soup draws and the three classic patterns are applied.
    pub fn seed_prime_soup(&mut self)
        requires
            old(self).wf(),
        ensures
            final(self).wf(),
            final(self)@ == reseeded(old(self)@),
    {
        let w = self.width;
        let h = self.height;
        seed_cells_in(&mut self.cells, self.seed, w, h);
        let alive = count_in(&self.cells);
        self.stats.alive = alive;
        self.stats.peak_alive = alive;
        let fp = fingerprint_in(self.seed, &self.cells, w, h);
        self.push_history(fp);
    }

    /// Advances the lattice one B3/S23 generation and updates its statistics
    /// and memory as `ticked` describes.
    pub fn tick_b3s23(&mut self)
        requires
            old(self).wf(),
        ensures
            final(self).wf(),
            final(self)@ == ticked(old(self)@),
    {
        let w = self.width;
        let h = self.height;
        let before_alive = count_in(&self.cells);
        let previous_hash = fingerprint_in(self.seed, &self.cells, w, h).hash;
        let (births, deaths) = compute_next(&self.cells, w, h, &mut self.scratch);
        std::mem::swap(&mut self.cells, &mut self.scratch);
        let fp = fingerprint_in(self.seed, &self.cells, w, h);
        self.stats.generation = self.stats.generation.saturating_add(1);
        self.stats.alive = fp.alive;
        self.stats.births = births;
        self.stats.deaths = deaths;
        self.stats.peak_alive = if self.stats.peak_alive > fp.alive {
            self.stats.peak_alive
        } else {
            fp.alive
        };
        if fp.hash == previous_hash {
            self.stats.stable_ticks = self.stats.stable_ticks.saturating_add(1);
        } else {
            self.stats.stable_ticks = 0;
        }
        self.classify_pattern(before_alive, fp);
        self.push_history(fp);
    }

    fn classify_pattern(&mut self, before_alive: usize, fp: LifeFingerprint)
        ensures
            final(self).stats == classified(old(self).stats, old(self).history@, before_alive, fp),
            final(self).width == old(self).width,
            final(self).height == old(self).height,
            final(self).seed == old(self).seed,
            final(self).cells == old(self).cells,
            final(self).scratch == old(self).scratch,
            final(self).history == old(self).history,
    {
        if fp.alive == 0 {
            self.stats.state = AxiomPatternState::Dormant;
            return;
        }
        if self.stats.stable_ticks >= 3 {
            self.stats.state = AxiomPatternState::Static;
            return;
        }
        if has_recent_repeat(&self.history, fp.hash) {
            self.stats.oscillator_hits = self.stats.oscillator_hits.saturating_add(1);
            self.stats.state = AxiomPatternState::Oscillating;
            return;
        }
        if has_translation(&self.history, fp) {
            self.stats.translation_hits = self.stats.translation_hits.saturating_add(1);
            self.stats.state = AxiomPatternState::Translating;
            return;
        }
        if fp.alive > growth_threshold_of(before_alive) {
            self.stats.state = AxiomPatternState::Expanding;
        } else if before_alive > growth_threshold_of(fp.alive) {
            self.stats.state = AxiomPatternState::Collapsing;
        } else {
            self.stats.state = AxiomPatternState::Chaotic;
        }
    }

    /// Makes the cells of a classic pattern live, with its origin at
    /// `(origin_x, origin_y)` and wrapping around the torus.
    pub fn seed_known_pattern(&mut self, seed: AxiomSeed, origin_x: usize, origin_y: usize)
        requires
            old(self).wf(),
            fits_origin(seed, origin_x, origin_y),
        ensures
            final(self).wf(),
            final(self)@ == (LatticeView {
                cells: stamped(old(self)@.cells, old(self)@.width, old(self)@.height, seed, origin_x, origin_y),
                ..old(self)@
            }),
    {
        proof {
            lemma_dims(self.width, self.height);
        }
        stamp_in(&mut self.cells, self.width, self.height, seed, origin_x, origin_y);
    }

    /// Maps a screen position onto the lattice: scales by the lattice size
    /// over the screen size and clamps to the last column and row.
    pub fn screen_to_grid(&self, sx: usize, sy: usize, screen_w: usize, screen_h: usize) -> (r: (usize, usize))
        requires
            self.wf(),
            screen_w > 0,
            screen_h > 0,
            sx * self@.width <= usize::MAX,
            sy * self@.height <= usize::MAX,
        ensures
            r.0 == screen_coord(sx, self@.width, screen_w),
            r.1 == screen_coord(sy, self@.height, screen_h),
            r.0 < self@.width,
            r.1 < self@.height,
    {
        let gx = sx * self.width / screen_w;
        let gy = sy * self.height / screen_h;
        let x = if gx < self.width - 1 { gx } else { self.width - 1 };
        let y = if gy < self.height - 1 { gy } else { self.height - 1 };
        (x, y)
    }

    /// The lattice cell under a screen position, or a dead cell when the
    /// screen has no area.
    pub fn sample_screen(&self, sx: usize, sy: usize, screen_w: usize, screen_h: usize) -> (r: LifeCell)
        requires
            self.wf(),
            screen_w == 0 || screen_h == 0 || (sx * self@.width <= usize::MAX && sy * self@.height
                <= usize::MAX),
        ensures
            screen_w == 0 || screen_h == 0 ==> r == LifeCell::Dead,
            screen_w > 0 && screen_h > 0 ==> r == self@.cells[screen_coord(sy, self@.height, screen_h)
                * self@.width + screen_coord(sx, self@.width, screen_w)],
    {
        if screen_w == 0 || screen_h == 0 {
            return LifeCell::Dead;
        }
        let (x, y) = self.screen_to_grid(sx, sy, screen_w, screen_h);
        proof {
            lemma_cell_index(x as int, y as int, self.width as int, self.height as int);
        }
        self.cells[y * self.width + x]
    }

    /// The number of live toroidal neighbours of the cell at `(x, y)`.
    pub fn alive_neighbors(&self, x: usize, y: usize) -> (r: usize)
        requires
            self.wf(),
            x < self@.width,
            y < self@.height,
        ensures
            r as int == neighbor_count(self@.cells, self@.width as int, self@.height as int, x as int, y as int),
            r <= 8,
    {
        neighbors_in(&self.cells, self.width, self.height, x, y)
    }

    /// The current statistics.
    pub fn stats(&self) -> (r: AxiomStats)
        ensures
            r == self@.stats,
    {
        self.stats
    }

    /// The number of columns.
    pub fn width(&self) -> (r: usize)
        ensures
            r == self@.width,
    {
        self.width
    }

    /// The number of rows.
    pub fn height(&self) -> (r: usize)
        ensures
            r == self@.height,
    {
        self.height
    }

    /// The number of live cells.
    pub fn alive_cells(&self) -> (r: usize)
        ensures
            r == count_alive(self@.cells),
    {
        count_in(&self.cells)
    }

    /// A one-line summary of the statistics:
    /// `AXIOM <state> gen:<g> live:<a> birth:<b> death:<d> osc:<o> drift:<t>`.
    pub fn axiom_status_line(&self) -> (r: String)
        ensures
            r@ == "AXIOM "@ + state_label(self@.stats.state)@ + " gen:"@ + decimal(
                self@.stats.generation as nat,
            ) + " live:"@ + decimal(self@.stats.alive as nat) + " birth:"@ + decimal(
                self@.stats.births as nat,
            ) + " death:"@ + decimal(self@.stats.deaths as nat) + " osc:"@ + decimal(
                self@.stats.oscillator_hits as nat,
            ) + " drift:"@ + decimal(self@.stats.translation_hits as nat),
    {
        let st = self.stats;
        let mut out = String::new();
        out.append("AXIOM ");
        out.append(state_name(st.state));
        out.append(" gen:");
        push_decimal(&mut out, st.generation);
        out.append(" live:");
        push_decimal(&mut out, st.alive as u64);
        out.append(" birth:");
        push_decimal(&mut out, st.births as u64);
        out.append(" death:");
        push_decimal(&mut out, st.deaths as u64);
        out.append(" osc:");
        push_decimal(&mut out, st.oscillator_hits);
        out.append(" drift:");
        push_decimal(&mut out, st.translation_hits);
        out
    }
}

} // verus!
