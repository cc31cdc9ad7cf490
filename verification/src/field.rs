//! Grid helpers of the low-resolution pattern field.

use vstd::prelude::*;

verus! {

/// The in-grid von Neumann neighbours of `(x, y)` in a `width` by `height`
/// grid that does not wrap, in the order left, right, up, down.
pub open spec fn neighbours4_of(x: int, y: int, width: int, height: int) -> Seq<(usize, usize)> {
    let left: Seq<(usize, usize)> = if x > 0 { seq![((x - 1) as usize, y as usize)] } else { seq![] };
    let right: Seq<(usize, usize)> = if x + 1 < width { seq![((x + 1) as usize, y as usize)] } else { seq![] };
    let up: Seq<(usize, usize)> = if y > 0 { seq![(x as usize, (y - 1) as usize)] } else { seq![] };
    let down: Seq<(usize, usize)> = if y + 1 < height { seq![(x as usize, (y + 1) as usize)] } else { seq![] };
    left + right + up + down
}

/// The in-grid von Neumann neighbours of `(x, y)` (see `neighbours4_of`).
pub fn neighbors4(x: usize, y: usize, width: usize, height: usize) -> (r: Vec<(usize, usize)>)
    requires
        x < width,
        y < height,
    ensures
        r@ == neighbours4_of(x as int, y as int, width as int, height as int),
{
    let mut out: Vec<(usize, usize)> = Vec::new();
    if x > 0 {
        out.push((x - 1, y));
    }
    if x + 1 < width {
        out.push((x + 1, y));
    }
    if y > 0 {
        out.push((x, y - 1));
    }
    if y + 1 < height {
        out.push((x, y + 1));
    }
    assert(out@ =~= neighbours4_of(x as int, y as int, width as int, height as int));
    out
}

} // verus!
