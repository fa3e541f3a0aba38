//! The cactus placement rule: a cactus needs free horizontal neighbors, a
//! cactus or sand block below, and no liquid above. The same predicate
//! decides placement legality and whether a grown cactus may stay.

use vstd::prelude::*;

use crate::geometry::{BlockPos, Direction};
use crate::state::{
    is_liquid_state, is_solid_state, kind_of_state, spec_is_liquid, spec_is_solid,
    spec_kind_of_state, BlockKind,
};
use crate::world::{spec_state_at, WorldCell, WorldGrid};

verus! {

/// A horizontal neighbor crowds the cactus when it is solid or is lava.
pub open spec fn spec_cactus_crowded_by(cells: Seq<WorldCell>, p: BlockPos) -> bool {
    spec_is_solid(spec_state_at(cells, p)) || spec_kind_of_state(spec_state_at(cells, p))
        == BlockKind::Lava
}

/// Whether a cactus may stand at `pos`: no crowding horizontal neighbor,
/// cactus or sand below, no liquid above.
pub open spec fn spec_cactus_can_stay(cells: Seq<WorldCell>, pos: BlockPos) -> bool {
    let below = spec_kind_of_state(spec_state_at(cells, pos.spec_offset(Direction::Down)));
    !spec_cactus_crowded_by(cells, pos.spec_offset(Direction::North))
        && !spec_cactus_crowded_by(cells, pos.spec_offset(Direction::South))
        && !spec_cactus_crowded_by(cells, pos.spec_offset(Direction::West))
        && !spec_cactus_crowded_by(cells, pos.spec_offset(Direction::East)) && (below
        == BlockKind::Cactus || below == BlockKind::Sand) && !spec_is_liquid(
        spec_state_at(cells, pos.spec_offset(Direction::Up)),
    )
}

fn crowded_by(grid: &WorldGrid, p: BlockPos) -> (r: bool)
    requires
        grid.wf(),
    ensures
        r == spec_cactus_crowded_by(grid.cells@, p),
{
    let s = grid.get_state(p);
    is_solid_state(s) || kind_of_state(s) == BlockKind::Lava
}

/// The placement legality predicate of the cactus block; also decides
/// whether an existing cactus keeps standing.
pub fn cactus_can_place_at(grid: &WorldGrid, pos: BlockPos) -> (r: bool)
    requires
        grid.wf(),
        pos.in_bounds(),
    ensures
        r == spec_cactus_can_stay(grid.cells@, pos),
{
    if crowded_by(grid, pos.offset(Direction::North)) {
        return false;
    }
    if crowded_by(grid, pos.offset(Direction::South)) {
        return false;
    }
    if crowded_by(grid, pos.offset(Direction::West)) {
        return false;
    }
    if crowded_by(grid, pos.offset(Direction::East)) {
        return false;
    }
    let below = kind_of_state(grid.get_state(pos.down()));
    (below == BlockKind::Cactus || below == BlockKind::Sand) && !is_liquid_state(
        grid.get_state(pos.up()),
    )
}

} // verus!
