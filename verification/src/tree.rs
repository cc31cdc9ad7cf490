//! Root and tree policy: which layer a row belongs to, how many roots the
//! substrate may hold, and which growth directions and wiggles are allowed.

use vstd::prelude::*;
use crate::text::str_equals;

verus! {

/// The layer of a tree a row of the world belongs to.
#[derive(Clone, Copy, Debug, PartialEq, Eq, Structural)]
pub enum TreeStage {
    Root,
    Trunk,
    Branch,
    Canopy,
}

/// Limits and switches for root growth.
#[derive(Clone, Copy, Debug, PartialEq, Eq, Structural)]
pub struct TreePolicy {
    pub root_cap_divisor: usize,
    pub min_parent_age: u32,
    pub max_neighbor_roots: usize,
    pub max_local_roots: usize,
    pub allow_soft_invasion: bool,
    pub allow_wall_collision: bool,
    pub allow_surface_flow: bool,
}

/// The standard root policy.
pub open spec fn standard_policy() -> TreePolicy {
    TreePolicy {
        root_cap_divisor: 26,
        min_parent_age: 3,
        max_neighbor_roots: 5,
        max_local_roots: 8,
        allow_soft_invasion: true,
        allow_wall_collision: true,
        allow_surface_flow: true,
    }
}

impl Default for TreePolicy {
    fn default() -> (r: Self)
        ensures
            r == standard_policy(),
    {
        TreePolicy {
            root_cap_divisor: 26,
            min_parent_age: 3,
            max_neighbor_roots: 5,
            max_local_roots: 8,
            allow_soft_invasion: true,
            allow_wall_collision: true,
            allow_surface_flow: true,
        }
    }
}

/// The layer of row `y` of a world `height` rows tall, by the depth ratio
/// `y / max(height, 1)`: above 18/25 (0.72) roots, above 19/50 (0.38) trunk,
/// above 9/50 (0.18) branches, otherwise canopy.
pub open spec fn stage_for(y: int, height: int) -> TreeStage {
    let h = if height > 1 { height } else { 1 };
    if y * 25 > h * 18 {
        TreeStage::Root
    } else if y * 50 > h * 19 {
        TreeStage::Trunk
    } else if y * 50 > h * 9 {
        TreeStage::Branch
    } else {
        TreeStage::Canopy
    }
}

/// The tree layer of row `y` (see `stage_for`).
pub fn tree_stage_for_height(y: usize, height: usize) -> (r: TreeStage)
    ensures
        r == stage_for(y as int, height as int),
{
    let h: u128 = if height > 1 { height as u128 } else { 1 };
    let yy: u128 = y as u128;
    if yy * 25 > h * 18 {
        TreeStage::Root
    } else if yy * 50 > h * 19 {
        TreeStage::Trunk
    } else if yy * 50 > h * 9 {
        TreeStage::Branch
    } else {
        TreeStage::Canopy
    }
}

/// Deeper rows never belong to a higher layer: the stages run canopy,
/// branch, trunk, root from the top of the world down.
pub proof fn law_stage_depth_order(y1: int, y2: int, height: int)
    requires
        0 <= y1 <= y2,
    ensures
        stage_for(y1, height) == TreeStage::Root ==> stage_for(y2, height) == TreeStage::Root,
        stage_for(y1, height) == TreeStage::Trunk ==> stage_for(y2, height) != TreeStage::Branch
            && stage_for(y2, height) != TreeStage::Canopy,
        stage_for(y1, height) == TreeStage::Branch ==> stage_for(y2, height) != TreeStage::Canopy,
{
}

/// The most roots the substrate may hold: the cells divided by the
/// policy's divisor, but at least half the width and at least 12.
pub open spec fn root_cap_of(total_cells: usize, width: usize, policy: TreePolicy) -> usize {
    let by_cells = total_cells / policy.root_cap_divisor;
    let floor = if width / 2 > 12 { width / 2 } else { 12 };
    if by_cells > floor { by_cells } else { floor }
}

/// The root cap (see `root_cap_of`).
pub fn root_cap(total_cells: usize, width: usize, policy: TreePolicy) -> (r: usize)
    requires
        policy.root_cap_divisor > 0,
    ensures
        r == root_cap_of(total_cells, width, policy),
        r >= 12,
{
    let by_cells = total_cells / policy.root_cap_divisor;
    let half = width / 2;
    let floor = if half > 12 { half } else { 12 };
    if by_cells > floor { by_cells } else { floor }
}

/// Whether a cell kind, by name, is soft ground that roots may invade.
pub fn is_soft_root_target_name(kind_name: &str) -> (r: bool)
    ensures
        r == (kind_name@ == "Empty"@ || kind_name@ == "Life"@ || kind_name@ == "Nutrient"@
            || kind_name@ == "Dead"@ || kind_name@ == "Spore"@),
{
    str_equals(kind_name, "Empty") || str_equals(kind_name, "Life") || str_equals(kind_name, "Nutrient")
        || str_equals(kind_name, "Dead") || str_equals(kind_name, "Spore")
}

/// Whether a root may grow in a direction: straight or diagonal descent
/// from a parent always, sideways only along a wall.
pub fn allow_root_direction(near_wall: bool, vertical_parent: bool, diagonal_parent: bool, lateral_parent: bool) -> (r: bool)
    ensures
        r == (vertical_parent || diagonal_parent || (near_wall && lateral_parent)),
{
    vertical_parent || diagonal_parent || (near_wall && lateral_parent)
}

/// Whether a growth roll (out of 10 000) passes the wiggle filter:
/// diagonal growth fails above 5 200, wall growth above 2 200.
pub open spec fn wiggle_ok(diagonal_parent: bool, wall_parent: bool, wiggle_roll: usize) -> bool {
    !((diagonal_parent && wiggle_roll > 5_200) || (wall_parent && wiggle_roll > 2_200))
}

/// Whether a growth roll (out of 10 000) passes the wiggle filter
/// (see `wiggle_ok`).
pub fn accept_wiggle(diagonal_parent: bool, wall_parent: bool, wiggle_roll: usize) -> (r: bool)
    ensures
        r == wiggle_ok(diagonal_parent, wall_parent, wiggle_roll),
{
    if diagonal_parent && wiggle_roll > 5_200 {
        return false;
    }
    if wall_parent && wiggle_roll > 2_200 {
        return false;
    }
    true
}

/// The early-world boost of root growth at row `y` (by depth ratio
/// `y / h` for `h = max(height, 1)`): 34 before cycle 4 200 below 21/50 of
/// the depth, else 16 before cycle 6 800 below 7/25, else 0.
pub open spec fn early_boost(cycle: u64, y: usize, height: usize) -> int {
    let h: int = if height > 1 { height as int } else { 1 };
    if cycle < 4_200 && y * 50 > h * 21 {
        34
    } else if cycle < 6_800 && y * 25 > h * 7 {
        16
    } else {
        0
    }
}

/// The bias of the parent's direction: 62 vertical, 38 diagonal, 9 along a wall, else 0.
pub open spec fn parent_bias_of(vertical_parent: bool, diagonal_parent: bool, lateral_wall_parent: bool) -> int {
    if vertical_parent { 62 } else if diagonal_parent { 38 } else if lateral_wall_parent { 9 } else { 0 }
}

/// The bias of the parent's age: 18 past 260, 13 past 120, 8 past 40, else 4.
pub open spec fn maturity_bias_of(parent_age: u32) -> int {
    if parent_age > 260 { 18 } else if parent_age > 120 { 13 } else if parent_age > 40 { 8 } else { 4 }
}

/// The taper near the top of the world: 28 above 11/50 of the depth, 14
/// above 9/25, 6 above 12/25, else 0.
pub open spec fn taper_of(y: usize, height: usize) -> int {
    let h: int = if height > 1 { height as int } else { 1 };
    if y * 50 < h * 11 { 28 } else if y * 25 < h * 9 { 14 } else if y * 25 < h * 12 { 6 } else { 0 }
}

/// The crowding penalty: 18 past three quarters of the cap (the tripled cap
/// saturating), 8 past half of it, else 0.
pub open spec fn crowding_of(root_count: usize, root_cap: usize) -> int {
    let tripled: int = if root_cap * 3 > usize::MAX { usize::MAX as int } else { root_cap * 3 };
    if root_count > tripled / 4 { 18 } else if root_count > root_cap / 2 { 8 } else { 0 }
}

/// The pressure (out of 10 000) for a root to grow: the parent and maturity
/// biases plus the early boost, less the taper and crowding penalties,
/// stopping at zero.
pub open spec fn growth_pressure_of(cycle: u64, y: usize, height: usize, vertical_parent: bool, diagonal_parent: bool, lateral_wall_parent: bool, parent_age: u32, root_count: usize, root_cap: usize) -> int {
    let gross = parent_bias_of(vertical_parent, diagonal_parent, lateral_wall_parent) + maturity_bias_of(parent_age)
        + early_boost(cycle, y, height);
    let loss = taper_of(y, height) + crowding_of(root_count, root_cap);
    if gross > loss { gross - loss } else { 0 }
}

fn early_boost_of(cycle: u64, y: usize, height: usize) -> (r: usize)
    ensures
        r == early_boost(cycle, y, height),
{
    let h: u128 = if height > 1 { height as u128 } else { 1 };
    let yy: u128 = y as u128;
    if cycle < 4_200 && yy * 50 > h * 21 {
        34
    } else if cycle < 6_800 && yy * 25 > h * 7 {
        16
    } else {
        0
    }
}

fn taper_at(y: usize, height: usize) -> (r: usize)
    ensures
        r == taper_of(y, height),
{
    let h: u128 = if height > 1 { height as u128 } else { 1 };
    let yy: u128 = y as u128;
    if yy * 50 < h * 11 {
        28
    } else if yy * 25 < h * 9 {
        14
    } else if yy * 25 < h * 12 {
        6
    } else {
        0
    }
}

fn crowding_at(root_count: usize, root_cap: usize) -> (r: usize)
    ensures
        r == crowding_of(root_count, root_cap),
{
    let tripled = match root_cap.checked_mul(3) {
        Some(v) => v,
        None => usize::MAX,
    };
    if root_count > tripled / 4 {
        18
    } else if root_count > root_cap / 2 {
        8
    } else {
        0
    }
}

/// The root growth pressure (see `growth_pressure_of`).
pub fn growth_pressure(cycle: u64, y: usize, height: usize, vertical_parent: bool, diagonal_parent: bool, lateral_wall_parent: bool, parent_age: u32, root_count: usize, root_cap: usize) -> (r: usize)
    ensures
        r == growth_pressure_of(cycle, y, height, vertical_parent, diagonal_parent, lateral_wall_parent, parent_age, root_count, root_cap),
        r <= 114,
{
    let early_pressure = early_boost_of(cycle, y, height);
    let parent_bias: usize = if vertical_parent {
        62
    } else if diagonal_parent {
        38
    } else if lateral_wall_parent {
        9
    } else {
        0
    };
    let maturity_bias: usize = if parent_age > 260 {
        18
    } else if parent_age > 120 {
        13
    } else if parent_age > 40 {
        8
    } else {
        4
    };
    let taper = taper_at(y, height);
    let population_pressure = crowding_at(root_count, root_cap);
    parent_bias.saturating_add(maturity_bias).saturating_add(early_pressure).saturating_sub(
        taper + population_pressure,
    )
}

} // verus!
