//! Rail connectivity resolution: a pure decision procedure that derives a
//! rail segment's shape from the presence and elevation of its four
//! horizontal neighbor rails, with the placing actor's facing as the
//! tie-break, and the validity rule that removes an unsupported rail.

use vstd::prelude::*;

use crate::geometry::{BlockPos, Direction, HorizontalFacing};
use crate::state::{
    encode_state, is_solid_state, spec_decode, spec_encode, spec_is_solid, BlockProps, RailShape,
    StraightRailShape,
};
use crate::world::{spec_state_at, WorldGrid};

verus! {

/// Where a neighbor rail sits relative to the queried position: level with
/// it, one block above, or one block below.
#[derive(Clone, Copy, PartialEq, Eq, Structural, Debug)]
pub enum RailElevation {
    Flat,
    Up,
    Down,
}

/// The four curve shapes; a rail in one of them is shape-locked and cannot
/// be bent further by a new neighbor.
pub open spec fn spec_is_curve(s: RailShape) -> bool {
    s == RailShape::SouthEast || s == RailShape::SouthWest || s == RailShape::NorthWest || s
        == RailShape::NorthEast
}

/// Whether a state id holds a rail that a new neighbor may still connect to:
/// any powered rail, or a plain rail not locked into a curve.
pub open spec fn spec_unlocked_rail(id: int) -> bool {
    match spec_decode(id) {
        Some(BlockProps::Rail { shape, .. }) => !spec_is_curve(shape),
        Some(BlockProps::PoweredRail { .. }) => true,
        _ => false,
    }
}

pub fn is_unlocked_rail(id: u32) -> (r: bool)
    ensures
        r == spec_unlocked_rail(id as int),
{
    match crate::state::decode_state(id) {
        Some(BlockProps::Rail { shape, .. }) => !(shape == RailShape::SouthEast || shape
            == RailShape::SouthWest || shape == RailShape::NorthWest || shape
            == RailShape::NorthEast),
        Some(BlockProps::PoweredRail { .. }) => true,
        _ => false,
    }
}

/// The connectable rail found one step toward `d`: level first, then one
/// block up, then one block down.
pub open spec fn spec_find_rail(
    cells: Seq<crate::world::WorldCell>,
    pos: BlockPos,
    d: Direction,
) -> Option<RailElevation> {
    let n = pos.spec_offset(d);
    if spec_unlocked_rail(spec_state_at(cells, n)) {
        Some(RailElevation::Flat)
    } else if spec_unlocked_rail(spec_state_at(cells, n.spec_offset(Direction::Up))) {
        Some(RailElevation::Up)
    } else if spec_unlocked_rail(spec_state_at(cells, n.spec_offset(Direction::Down))) {
        Some(RailElevation::Down)
    } else {
        None
    }
}

/// Looks for a connectable rail one step toward `d`, reporting its elevation.
pub fn find_rail_if_unlocked(grid: &WorldGrid, pos: BlockPos, d: Direction) -> (r: Option<
    RailElevation,
>)
    requires
        grid.wf(),
        pos.in_bounds(),
    ensures
        r == spec_find_rail(grid.cells@, pos, d),
{
    let n = pos.offset(d);
    if is_unlocked_rail(grid.get_state(n)) {
        Some(RailElevation::Flat)
    } else if is_unlocked_rail(grid.get_state(n.up())) {
        Some(RailElevation::Up)
    } else if is_unlocked_rail(grid.get_state(n.down())) {
        Some(RailElevation::Down)
    } else {
        None
    }
}

/// The placement decision table for a plain rail: a strict priority chain
/// over the four neighbor findings, first match wins, with the actor's
/// facing deciding only when no neighbor constrains the shape.
pub open spec fn spec_new_rail_shape(
    east: Option<RailElevation>,
    south: Option<RailElevation>,
    west: Option<RailElevation>,
    north: Option<RailElevation>,
    facing: HorizontalFacing,
) -> RailShape {
    if east is Some {
        if south is Some {
            RailShape::SouthEast
        } else if north is Some {
            RailShape::NorthEast
        } else if west == Some(RailElevation::Up) {
            RailShape::AscendingWest
        } else if east == Some(RailElevation::Up) {
            RailShape::AscendingEast
        } else {
            RailShape::EastWest
        }
    } else if south is Some {
        if west is Some {
            RailShape::SouthWest
        } else if south == Some(RailElevation::Up) {
            RailShape::AscendingSouth
        } else if north == Some(RailElevation::Up) {
            RailShape::AscendingNorth
        } else {
            RailShape::NorthSouth
        }
    } else if west is Some {
        if north is Some {
            RailShape::NorthWest
        } else if west == Some(RailElevation::Up) {
            RailShape::AscendingWest
        } else {
            RailShape::EastWest
        }
    } else if north is Some {
        if north == Some(RailElevation::Up) {
            RailShape::AscendingNorth
        } else {
            RailShape::NorthSouth
        }
    } else {
        spec_flat_shape_for_facing(facing)
    }
}

/// The flat straight shape along the axis of a facing.
pub open spec fn spec_flat_shape_for_facing(facing: HorizontalFacing) -> RailShape {
    match facing {
        HorizontalFacing::East | HorizontalFacing::West => RailShape::EastWest,
        HorizontalFacing::North | HorizontalFacing::South => RailShape::NorthSouth,
    }
}

/// Computes the shape a newly placed plain rail takes, from the four
/// neighbor findings and the actor's facing.
pub fn compute_rail_shape(
    east: Option<RailElevation>,
    south: Option<RailElevation>,
    west: Option<RailElevation>,
    north: Option<RailElevation>,
    facing: HorizontalFacing,
) -> (r: RailShape)
    ensures
        r == spec_new_rail_shape(east, south, west, north, facing),
{
    if east.is_some() {
        if south.is_some() {
            RailShape::SouthEast
        } else if north.is_some() {
            RailShape::NorthEast
        } else if west == Some(RailElevation::Up) {
            RailShape::AscendingWest
        } else if east == Some(RailElevation::Up) {
            RailShape::AscendingEast
        } else {
            RailShape::EastWest
        }
    } else if south.is_some() {
        if west.is_some() {
            RailShape::SouthWest
        } else if south == Some(RailElevation::Up) {
            RailShape::AscendingSouth
        } else if north == Some(RailElevation::Up) {
            RailShape::AscendingNorth
        } else {
            RailShape::NorthSouth
        }
    } else if west.is_some() {
        if north.is_some() {
            RailShape::NorthWest
        } else if west == Some(RailElevation::Up) {
            RailShape::AscendingWest
        } else {
            RailShape::EastWest
        }
    } else if north.is_some() {
        if north == Some(RailElevation::Up) {
            RailShape::AscendingNorth
        } else {
            RailShape::NorthSouth
        }
    } else {
        match facing {
            HorizontalFacing::East | HorizontalFacing::West => RailShape::EastWest,
            HorizontalFacing::North | HorizontalFacing::South => RailShape::NorthSouth,
        }
    }
}

/// The shape a plain rail placed at `pos` takes, reading the four neighbor
/// findings out of the grid.
pub open spec fn spec_rail_shape_at(
    cells: Seq<crate::world::WorldCell>,
    pos: BlockPos,
    facing: HorizontalFacing,
) -> RailShape {
    spec_new_rail_shape(
        spec_find_rail(cells, pos, Direction::East),
        spec_find_rail(cells, pos, Direction::South),
        spec_find_rail(cells, pos, Direction::West),
        spec_find_rail(cells, pos, Direction::North),
        facing,
    )
}

/// Computes the state a plain rail placed at `pos` is installed with:
/// the shape from the decision table, waterlogged when the placement
/// displaced a water source.
pub fn rail_on_place(grid: &WorldGrid, pos: BlockPos, facing: HorizontalFacing, replacing_water:
    bool) -> (r: u32)
    requires
        grid.wf(),
        pos.in_bounds(),
    ensures
        r as int == spec_encode(
            BlockProps::Rail {
                shape: spec_rail_shape_at(grid.cells@, pos, facing),
                waterlogged: replacing_water,
            },
        ),
{
    let east = find_rail_if_unlocked(grid, pos, Direction::East);
    let south = find_rail_if_unlocked(grid, pos, Direction::South);
    let west = find_rail_if_unlocked(grid, pos, Direction::West);
    let north = find_rail_if_unlocked(grid, pos, Direction::North);
    let shape = compute_rail_shape(east, south, west, north, facing);
    encode_state(BlockProps::Rail { shape, waterlogged: replacing_water })
}

/// The placement decision for a powered rail, which only takes straight
/// shapes: the axis comes from the actor's facing, and the segment ascends
/// toward an elevated neighbor rail on that axis (the forward end first).
pub open spec fn spec_new_straight_shape(
    east: Option<RailElevation>,
    south: Option<RailElevation>,
    west: Option<RailElevation>,
    north: Option<RailElevation>,
    facing: HorizontalFacing,
) -> StraightRailShape {
    match facing {
        HorizontalFacing::East | HorizontalFacing::West => {
            if east == Some(RailElevation::Up) {
                StraightRailShape::AscendingEast
            } else if west == Some(RailElevation::Up) {
                StraightRailShape::AscendingWest
            } else {
                StraightRailShape::EastWest
            }
        },
        HorizontalFacing::North | HorizontalFacing::South => {
            if north == Some(RailElevation::Up) {
                StraightRailShape::AscendingNorth
            } else if south == Some(RailElevation::Up) {
                StraightRailShape::AscendingSouth
            } else {
                StraightRailShape::NorthSouth
            }
        },
    }
}

/// The straight shape a powered rail placed at `pos` takes.
pub open spec fn spec_straight_shape_at(
    cells: Seq<crate::world::WorldCell>,
    pos: BlockPos,
    facing: HorizontalFacing,
) -> StraightRailShape {
    spec_new_straight_shape(
        spec_find_rail(cells, pos, Direction::East),
        spec_find_rail(cells, pos, Direction::South),
        spec_find_rail(cells, pos, Direction::West),
        spec_find_rail(cells, pos, Direction::North),
        facing,
    )
}

/// Computes the straight shape a newly placed powered rail takes.
pub fn compute_placed_rail_shape(grid: &WorldGrid, pos: BlockPos, facing: HorizontalFacing) -> (r:
    StraightRailShape)
    requires
        grid.wf(),
        pos.in_bounds(),
    ensures
        r == spec_straight_shape_at(grid.cells@, pos, facing),
{
    let east = find_rail_if_unlocked(grid, pos, Direction::East);
    let south = find_rail_if_unlocked(grid, pos, Direction::South);
    let west = find_rail_if_unlocked(grid, pos, Direction::West);
    let north = find_rail_if_unlocked(grid, pos, Direction::North);
    match facing {
        HorizontalFacing::East | HorizontalFacing::West => {
            if east == Some(RailElevation::Up) {
                StraightRailShape::AscendingEast
            } else if west == Some(RailElevation::Up) {
                StraightRailShape::AscendingWest
            } else {
                StraightRailShape::EastWest
            }
        },
        HorizontalFacing::North | HorizontalFacing::South => {
            if north == Some(RailElevation::Up) {
                StraightRailShape::AscendingNorth
            } else if south == Some(RailElevation::Up) {
                StraightRailShape::AscendingSouth
            } else {
                StraightRailShape::NorthSouth
            }
        },
    }
}

/// Computes the state a powered rail placed at `pos` is installed with.
pub fn powered_rail_on_place(
    grid: &WorldGrid,
    pos: BlockPos,
    facing: HorizontalFacing,
    replacing_water: bool,
) -> (r: u32)
    requires
        grid.wf(),
        pos.in_bounds(),
    ensures
        r as int == spec_encode(
            BlockProps::PoweredRail {
                shape: spec_straight_shape_at(grid.cells@, pos, facing),
                waterlogged: replacing_water,
            },
        ),
{
    let shape = compute_placed_rail_shape(grid, pos, facing);
    encode_state(BlockProps::PoweredRail { shape, waterlogged: replacing_water })
}

/// The direction an ascending plain rail shape rises toward, if any.
pub open spec fn spec_ascending_dir(s: RailShape) -> Option<Direction> {
    match s {
        RailShape::AscendingEast => Some(Direction::East),
        RailShape::AscendingWest => Some(Direction::West),
        RailShape::AscendingNorth => Some(Direction::North),
        RailShape::AscendingSouth => Some(Direction::South),
        _ => None,
    }
}

/// The direction an ascending straight rail shape rises toward, if any.
pub open spec fn spec_straight_ascending_dir(s: StraightRailShape) -> Option<Direction> {
    match s {
        StraightRailShape::AscendingEast => Some(Direction::East),
        StraightRailShape::AscendingWest => Some(Direction::West),
        StraightRailShape::AscendingNorth => Some(Direction::North),
        StraightRailShape::AscendingSouth => Some(Direction::South),
        _ => None,
    }
}

/// Whether the rail at `pos` still has the support it needs: solid ground
/// below it, and for an ascending segment solid ground on the raised side
/// too. A state that is not a rail is vacuously valid.
pub open spec fn spec_rail_placement_valid(
    cells: Seq<crate::world::WorldCell>,
    pos: BlockPos,
) -> bool {
    let below_solid = spec_is_solid(spec_state_at(cells, pos.spec_offset(Direction::Down)));
    match spec_decode(spec_state_at(cells, pos)) {
        Some(BlockProps::Rail { shape, .. }) => below_solid && (match spec_ascending_dir(shape) {
            Some(d) => spec_is_solid(spec_state_at(cells, pos.spec_offset(d))),
            None => true,
        }),
        Some(BlockProps::PoweredRail { shape, .. }) => below_solid && (match
            spec_straight_ascending_dir(shape) {
            Some(d) => spec_is_solid(spec_state_at(cells, pos.spec_offset(d))),
            None => true,
        }),
        _ => true,
    }
}

/// Checks whether the rail at `pos` keeps its required support.
pub fn rail_placement_is_valid(grid: &WorldGrid, pos: BlockPos) -> (r: bool)
    requires
        grid.wf(),
        pos.in_bounds(),
    ensures
        r == spec_rail_placement_valid(grid.cells@, pos),
{
    let here = grid.get_state(pos);
    let below_solid = is_solid_state(grid.get_state(pos.down()));
    match crate::state::decode_state(here) {
        Some(BlockProps::Rail { shape, .. }) => {
            let asc: Option<Direction> = match shape {
                RailShape::AscendingEast => Some(Direction::East),
                RailShape::AscendingWest => Some(Direction::West),
                RailShape::AscendingNorth => Some(Direction::North),
                RailShape::AscendingSouth => Some(Direction::South),
                _ => None,
            };
            below_solid && (match asc {
                Some(d) => is_solid_state(grid.get_state(pos.offset(d))),
                None => true,
            })
        },
        Some(BlockProps::PoweredRail { shape, .. }) => {
            let asc: Option<Direction> = match shape {
                StraightRailShape::AscendingEast => Some(Direction::East),
                StraightRailShape::AscendingWest => Some(Direction::West),
                StraightRailShape::AscendingNorth => Some(Direction::North),
                StraightRailShape::AscendingSouth => Some(Direction::South),
                _ => None,
            };
            below_solid && (match asc {
                Some(d) => is_solid_state(grid.get_state(pos.offset(d))),
                None => true,
            })
        },
        _ => true,
    }
}

/// Whether any rail may be placed at `pos`: it needs solid ground below.
pub open spec fn spec_can_place_rail_at(
    cells: Seq<crate::world::WorldCell>,
    pos: BlockPos,
) -> bool {
    spec_is_solid(spec_state_at(cells, pos.spec_offset(Direction::Down)))
}

/// The placement legality predicate shared by both rail blocks.
pub fn can_place_rail_at(grid: &WorldGrid, pos: BlockPos) -> (r: bool)
    requires
        grid.wf(),
        pos.in_bounds(),
    ensures
        r == spec_can_place_rail_at(grid.cells@, pos),
{
    is_solid_state(grid.get_state(pos.down()))
}

} // verus!
