//! Properties of the axiom lattice that hold of every generation.

use vstd::prelude::*;
use crate::life::{
    alive_prefix, b3s23, birth_count, birth_prefix, count_alive, death_count, death_prefix,
    fingerprint_of, lemma_fingerprint_alive, lemma_population_balance_prefix, lemma_prefix_bounds,
    classified, life_step, neighbor_bit, neighbor_count, recent_repeat, screen_coord, ticked, torus, translation_seen,
    view_wf, AxiomPatternState, AxiomStats, LatticeView, LifeCell, LifeFingerprint,
};

verus! {

proof fn lemma_counts_fit(prev: Seq<LifeCell>, next: Seq<LifeCell>)
    requires
        prev.len() <= usize::MAX,
    ensures
        birth_count(prev, next) <= usize::MAX,
        death_count(prev, next) <= usize::MAX,
        count_alive(prev) <= usize::MAX,
{
    lemma_prefix_bounds(prev, next, prev.len());
}

proof fn lemma_step_len(v: LatticeView)
    requires
        view_wf(v),
    ensures
        life_step(v.cells, v.width as nat, v.height as nat).len() == v.cells.len(),
{
}

/// Every generation accounts for its population: the live cells after a
/// tick plus the deaths it reports equal the live cells before plus the
/// births it reports, and the reported population is the live count.
pub proof fn law_population_balance(v: LatticeView)
    requires
        view_wf(v),
    ensures
        ticked(v).stats.alive == count_alive(ticked(v).cells),
        count_alive(ticked(v).cells) + ticked(v).stats.deaths == count_alive(v.cells)
            + ticked(v).stats.births,
{
    let next = life_step(v.cells, v.width as nat, v.height as nat);
    lemma_step_len(v);
    lemma_counts_fit(v.cells, next);
    lemma_fingerprint_alive(v.seed, next, v.width as nat, next.len());
    lemma_population_balance_prefix(v.cells, next, v.cells.len());
}

/// Each cell of the next generation follows B3/S23 applied to its own state
/// and its eight neighbours on the torus.
pub proof fn law_b3s23_per_cell(v: LatticeView, x: int, y: int)
    requires
        view_wf(v),
        0 <= x < v.width,
        0 <= y < v.height,
    ensures
        ticked(v).cells[y * v.width + x] == b3s23(
            v.cells[y * v.width + x],
            neighbor_count(v.cells, v.width as int, v.height as int, x, y),
        ),
{
    let w = v.width as int;
    let i = y * w + x;
    assert(0 <= i < w * v.height) by (nonlinear_arith)
        requires
            0 <= x < w,
            0 <= y < v.height,
            i == y * w + x,
    {
    }
    vstd::arithmetic::div_mod::lemma_fundamental_div_mod_converse(i, w, y, x);
}

/// The lattice keeps its size and seed, the generation counter advances by
/// one (saturating), the peak never falls below the previous peak or the
/// new population, and the newest fingerprint is the last one remembered.
pub proof fn law_tick_bookkeeping(v: LatticeView)
    requires
        view_wf(v),
    ensures
        view_wf(ticked(v)),
        ticked(v).width == v.width,
        ticked(v).height == v.height,
        ticked(v).seed == v.seed,
        ticked(v).stats.generation == v.stats.generation.saturating_add(1),
        ticked(v).stats.peak_alive >= v.stats.peak_alive,
        ticked(v).stats.peak_alive >= ticked(v).stats.alive,
        ticked(v).history.last() == fingerprint_of(v.seed, ticked(v).cells, v.width as nat),
{
    lemma_step_len(v);
}

proof fn lemma_no_change(prev: Seq<LifeCell>, next: Seq<LifeCell>, k: nat)
    requires
        k <= prev.len(),
        k <= next.len(),
        birth_prefix(prev, next, k) == 0,
        death_prefix(prev, next, k) == 0,
    ensures
        forall|j: int| 0 <= j < k ==> next[j] == prev[j],
    decreases k,
{
    if k > 0 {
        lemma_no_change(prev, next, (k - 1) as nat);
    }
}

/// A generation without births or deaths is a still life: the grid is
/// unchanged and the count of unchanged generations advances (saturating).
pub proof fn law_still_life(v: LatticeView)
    requires
        view_wf(v),
        ticked(v).stats.births == 0,
        ticked(v).stats.deaths == 0,
    ensures
        ticked(v).cells == v.cells,
        ticked(v).stats.stable_ticks == v.stats.stable_ticks.saturating_add(1),
{
    let next = life_step(v.cells, v.width as nat, v.height as nat);
    lemma_step_len(v);
    lemma_counts_fit(v.cells, next);
    lemma_no_change(v.cells, next, v.cells.len());
    assert(next =~= v.cells);
}

proof fn lemma_all_dead(cells: Seq<LifeCell>, k: nat)
    requires
        k <= cells.len(),
        alive_prefix(cells, k) == 0,
    ensures
        forall|j: int| 0 <= j < k ==> cells[j] is Dead,
    decreases k,
{
    if k > 0 {
        lemma_all_dead(cells, (k - 1) as nat);
    }
}

proof fn lemma_dead_prefix(cells: Seq<LifeCell>, k: nat)
    requires
        k <= cells.len(),
        forall|j: int| 0 <= j < k ==> cells[j] is Dead,
    ensures
        alive_prefix(cells, k) == 0,
    decreases k,
{
    if k > 0 {
        lemma_dead_prefix(cells, (k - 1) as nat);
    }
}

/// An empty lattice stays empty and is reported dormant: no cell can be
/// born without three live neighbours.
pub proof fn law_empty_stays_dormant(v: LatticeView)
    requires
        view_wf(v),
        count_alive(v.cells) == 0,
    ensures
        count_alive(ticked(v).cells) == 0,
        ticked(v).stats.alive == 0,
        ticked(v).stats.state == AxiomPatternState::Dormant,
{
    let w = v.width as int;
    let h = v.height as int;
    let next = life_step(v.cells, v.width as nat, v.height as nat);
    lemma_step_len(v);
    lemma_all_dead(v.cells, v.cells.len());
    assert forall|i: int| 0 <= i < next.len() implies next[i] is Dead by {
        vstd::arithmetic::div_mod::lemma_fundamental_div_mod(i, w);
        let x = i % w;
        let y = i / w;
        assert(0 <= x < w) by {
            vstd::arithmetic::div_mod::lemma_mod_bound(i, w);
        }
        assert(0 <= y < h) by {
            vstd::arithmetic::div_mod::lemma_div_pos_is_pos(i, w);
            assert(y < h) by (nonlinear_arith)
                requires
                    i == w * y + x,
                    0 <= x,
                    i < w * h,
                    w > 0,
            {
            }
        }
        assert forall|dx: int, dy: int| -1 <= dx <= 1 && -1 <= dy <= 1 implies #[trigger] neighbor_bit(
            v.cells,
            w,
            h,
            x,
            y,
            dx,
            dy,
        ) == 0 by {
            let nx = torus(x, dx, w);
            let ny = torus(y, dy, h);
            assert(0 <= ny * w + nx < w * h) by (nonlinear_arith)
                requires
                    0 <= nx < w,
                    0 <= ny < h,
            {
            }
        }
        assert(neighbor_bit(v.cells, w, h, x, y, -1, -1) == 0);
        assert(neighbor_bit(v.cells, w, h, x, y, 0, -1) == 0);
        assert(neighbor_bit(v.cells, w, h, x, y, 1, -1) == 0);
        assert(neighbor_bit(v.cells, w, h, x, y, -1, 0) == 0);
        assert(neighbor_bit(v.cells, w, h, x, y, 1, 0) == 0);
        assert(neighbor_bit(v.cells, w, h, x, y, -1, 1) == 0);
        assert(neighbor_bit(v.cells, w, h, x, y, 0, 1) == 0);
        assert(neighbor_bit(v.cells, w, h, x, y, 1, 1) == 0);
    }
    lemma_dead_prefix(next, next.len());
    lemma_fingerprint_alive(v.seed, next, v.width as nat, next.len());
}

/// The reported pattern is dormant exactly when the new generation has no
/// live cell.
pub proof fn law_dormant_iff_extinct(v: LatticeView)
    requires
        view_wf(v),
    ensures
        (ticked(v).stats.state == AxiomPatternState::Dormant) <==> (count_alive(ticked(v).cells) == 0),
{
    law_population_balance(v);
}

/// A screen exactly as large as the lattice maps every position to itself.
pub proof fn law_identity_screen(s: usize, dim: usize)
    requires
        s < dim,
    ensures
        screen_coord(s, dim, dim) == s,
{
    vstd::arithmetic::div_mod::lemma_div_multiples_vanish(s as int, dim as int);
    assert(s as int * dim as int == dim as int * s as int) by (nonlinear_arith);
}

/// A living generation that is neither static, repeating nor drifting is
/// classified by how its population moved: it is expanding when it holds
/// more than a third more live cells than the generation before (and more
/// than four), collapsing when the generation before held more than a third
/// more than it (and more than four), and chaotic otherwise. So a growing
/// population is never reported collapsing, nor a shrinking one expanding.
pub proof fn law_growth_direction(stats: AxiomStats, history: Seq<LifeFingerprint>, before: usize, fp: LifeFingerprint)
    requires
        fp.alive > 0,
        stats.stable_ticks < 3,
        !recent_repeat(history, fp.hash),
        !translation_seen(history, fp),
    ensures
        fp.alive > before + before / 3 && fp.alive > 4
            ==> classified(stats, history, before, fp).state == AxiomPatternState::Expanding,
        before > fp.alive + fp.alive / 3 && before > 4
            ==> classified(stats, history, before, fp).state == AxiomPatternState::Collapsing,
        !(fp.alive > before + before / 3 && fp.alive > 4) && !(before > fp.alive + fp.alive / 3 && before > 4)
            ==> classified(stats, history, before, fp).state == AxiomPatternState::Chaotic,
        fp.alive >= before ==> classified(stats, history, before, fp).state != AxiomPatternState::Collapsing,
        fp.alive <= before ==> classified(stats, history, before, fp).state != AxiomPatternState::Expanding,
{
}

} // verus!
