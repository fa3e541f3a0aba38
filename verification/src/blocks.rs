//! The per-type behavior implementations as the registry addresses them:
//! one unit struct per reactive block type, each carrying the capability
//! methods its block implements. Every method delegates to the decision
//! procedures of the engine and restates their contracts.

use vstd::prelude::*;

use crate::cactus::{cactus_can_place_at, spec_cactus_can_stay};
use crate::engine::{
    spec_break_chain, spec_chain_run, spec_fix_flanks, spec_flank_candidate, Engine, WorldEvent,
    FLAG_NONE, FLAG_NOTIFY_ALL,
};
use crate::geometry::{BlockPos, Direction, HorizontalFacing};
use crate::rail::{
    can_place_rail_at, powered_rail_on_place, rail_on_place, spec_can_place_rail_at,
    spec_rail_placement_valid, spec_rail_shape_at, spec_straight_shape_at,
};
use crate::scheduler::{ScheduledTick, TickPriority};
use crate::state::{
    spec_decode, spec_encode, spec_is_air, spec_kind_of_state, BlockKind, BlockProps, AIR_STATE,
    MAX_CACTUS_AGE,
};
use crate::world::{spec_state_at, WorldGrid};

verus! {

/// The cactus block's behavior.
pub struct CactusBlock;

/// The plain rail block's behavior.
pub struct RailBlock;

/// The powered rail block's behavior.
pub struct PoweredRailBlock;

impl CactusBlock {
    /// Placement legality: free horizontal neighbors, cactus or sand below,
    /// no liquid above.
    pub fn can_place_at(grid: &WorldGrid, pos: BlockPos) -> (r: bool)
        requires
            grid.wf(),
            pos.in_bounds(),
        ensures
            r == spec_cactus_can_stay(grid.cells@, pos),
    {
        cactus_can_place_at(grid, pos)
    }

    /// The pre-reaction state adjustment on a neighbor change: the state is
    /// kept, but a self-check tick is scheduled when the cactus may no
    /// longer stand here.
    pub fn get_state_for_neighbor_update(eng: &mut Engine, state: u32, pos: BlockPos) -> (r: u32)
        requires
            old(eng).wf(),
            pos.in_bounds(),
        ensures
            final(eng).wf(),
            final(eng).world == old(eng).world,
            r == state,
            spec_cactus_can_stay(old(eng).world.cells@, pos) ==> *final(eng) == *old(eng),
            !spec_cactus_can_stay(old(eng).world.cells@, pos) && old(eng).scheduler.next_seq
                < u64::MAX ==> final(eng).scheduler.pending@ == old(eng).scheduler.pending@.push(
                (ScheduledTick {
                    pos,
                    block: BlockKind::Cactus,
                    delay: 1,
                    priority: TickPriority::Normal,
                    seq: old(eng).scheduler.next_seq,
                }),
            ) && final(eng).events@ == old(eng).events@.push(
                (WorldEvent::TickScheduled {
                    pos,
                    block: BlockKind::Cactus,
                    delay: 1,
                    priority: TickPriority::Normal,
                }),
            ),
            !spec_cactus_can_stay(old(eng).world.cells@, pos) && old(eng).scheduler.next_seq
                == u64::MAX ==> *final(eng) == *old(eng),
    {
        if !cactus_can_place_at(&eng.world, pos) {
            eng.schedule_block_tick(pos, BlockKind::Cactus, 1, TickPriority::Normal);
        }
        state
    }

    /// The expired self-check tick: the cactus breaks, with minimal
    /// notification, exactly when its placement rule no longer holds; a
    /// still-valid cactus causes no mutation at all.
    pub fn on_scheduled_tick(eng: &mut Engine, pos: BlockPos)
        requires
            old(eng).wf(),
            pos.in_bounds(),
        ensures
            final(eng).wf(),
            old(eng).same_domain(*final(eng)),
            final(eng).scheduler == old(eng).scheduler,
            old(eng).events@.is_prefix_of(final(eng).events@),
            forall|q: BlockPos|
                q != pos ==> final(eng).world.spec_at(q) == old(eng).world.spec_at(q),
            !spec_cactus_can_stay(old(eng).world.cells@, pos) && old(eng).world.spec_loaded(pos)
                ==> final(eng).world.spec_at(pos) == AIR_STATE as int && final(eng).events@ == old(eng).events@.push((WorldEvent::BlockBreak { pos, cause: None, flags: FLAG_NONE })),
            !spec_cactus_can_stay(old(eng).world.cells@, pos) && !old(eng).world.spec_loaded(pos)
                ==> *final(eng) == *old(eng),
            spec_cactus_can_stay(old(eng).world.cells@, pos) ==> *final(eng) == *old(eng),
    {
        eng.on_scheduled_tick(pos, BlockKind::Cactus)
    }

    /// The growth reaction on a successful random-tick trial: with clear
    /// space above, age below the maximum advances by one; at the maximum
    /// age a fresh cactus of age zero appears above and this one resets to
    /// age zero; a blocked top, or anything but a cactus here, changes
    /// nothing.
    pub fn random_tick(eng: &mut Engine, pos: BlockPos)
        requires
            old(eng).wf(),
            pos.in_bounds(),
        ensures
            final(eng).wf(),
            old(eng).same_domain(*final(eng)),
            final(eng).scheduler == old(eng).scheduler,
            old(eng).events@.is_prefix_of(final(eng).events@),
            forall|q: BlockPos|
                q != pos && q != pos.spec_offset(Direction::Up) ==> final(eng).world.spec_at(q)
                    == old(eng).world.spec_at(q),
            ({
                let cells = old(eng).world.cells@;
                let evs = old(eng).events@;
                let above = pos.spec_offset(Direction::Up);
                let fresh = (spec_encode(BlockProps::Cactus { age: 0 })) as u32;
                match spec_decode(spec_state_at(cells, pos)) {
                    Some(BlockProps::Cactus { age }) => {
                        if spec_is_air(spec_state_at(cells, above)) {
                            if age == MAX_CACTUS_AGE {
                                final(eng).world.spec_at(pos) == spec_encode(
                                    BlockProps::Cactus { age: 0 },
                                ) && (old(eng).world.spec_loaded(above)
                                    ==> final(eng).world.spec_at(above) == spec_encode(
                                    BlockProps::Cactus { age: 0 },
                                ) && final(eng).events@ == evs.push(
                                    (WorldEvent::StateChange {
                                        pos: above,
                                        old_state: (spec_state_at(cells, above)) as u32,
                                        new_state: fresh,
                                        flags: FLAG_NONE,
                                    }),
                                ).push(
                                    (WorldEvent::StateChange {
                                        pos,
                                        old_state: (spec_state_at(cells, pos)) as u32,
                                        new_state: fresh,
                                        flags: FLAG_NONE,
                                    }),
                                )) && (!old(eng).world.spec_loaded(above)
                                    ==> final(eng).events@ == evs.push(
                                    (WorldEvent::StateChange {
                                        pos,
                                        old_state: (spec_state_at(cells, pos)) as u32,
                                        new_state: fresh,
                                        flags: FLAG_NONE,
                                    }),
                                ))
                            } else {
                                final(eng).world.spec_at(pos) == spec_encode(
                                    BlockProps::Cactus { age: (age + 1) as u8 },
                                ) && final(eng).world.spec_at(above) == spec_state_at(
                                    cells,
                                    above,
                                ) && final(eng).events@ == evs.push(
                                    (WorldEvent::StateChange {
                                        pos,
                                        old_state: (spec_state_at(cells, pos)) as u32,
                                        new_state: (spec_encode(
                                            BlockProps::Cactus { age: (age + 1) as u8 },
                                        )) as u32,
                                        flags: FLAG_NONE,
                                    }),
                                )
                            }
                        } else {
                            *final(eng) == *old(eng)
                        }
                    },
                    _ => *final(eng) == *old(eng),
                }
            }),
    {
        eng.random_tick(pos)
    }
}

impl RailBlock {
    /// The state a newly placed plain rail is installed with: the shape
    /// from the connectivity decision table, waterlogged when the placement
    /// displaced a water source.
    pub fn on_place(grid: &WorldGrid, pos: BlockPos, facing: HorizontalFacing, replacing_water:
        bool) -> (r: u32)
        requires
            grid.wf(),
            pos.in_bounds(),
        ensures
            r as int == spec_encode(
                BlockProps::Rail {
                    shape: spec_rail_shape_at(grid.cells@, pos, facing),
                    waterlogged: replacing_water,
                },
            ),
    {
        rail_on_place(grid, pos, facing, replacing_water)
    }

    /// The placed hook: one bounded, non-recursive pass that re-derives the
    /// shape of every flanking rail, exactly the flanking-fixup function.
    pub fn placed(eng: &mut Engine, pos: BlockPos)
        requires
            old(eng).wf(),
            pos.in_bounds(),
        ensures
            final(eng).wf(),
            old(eng).same_domain(*final(eng)),
            final(eng).scheduler == old(eng).scheduler,
            old(eng).events@.is_prefix_of(final(eng).events@),
            forall|q: BlockPos|
                !spec_flank_candidate(pos, q) ==> final(eng).world.spec_at(q) == old(eng).world.spec_at(q),
            forall|q: BlockPos|
                spec_kind_of_state(final(eng).world.spec_at(q)) == spec_kind_of_state(
                    old(eng).world.spec_at(q),
                ),
            ({
                let r = spec_fix_flanks(old(eng).world.cells@, old(eng).events@, pos);
                final(eng).world.cells@ == r.0 && final(eng).events@ == r.1
            }),
    {
        eng.update_flanking_rails(pos)
    }

    /// The neighbor-update reaction: a rail that lost its required support
    /// removes itself and the removal propagates as one bounded causal
    /// chain; a validly supported rail causes no mutation at all.
    pub fn on_neighbor_update(eng: &mut Engine, pos: BlockPos, source: BlockPos)
        requires
            old(eng).wf(),
            pos.in_bounds(),
        ensures
            final(eng).wf(),
            old(eng).same_domain(*final(eng)),
            old(eng).events@.is_prefix_of(final(eng).events@),
            spec_kind_of_state(spec_state_at(old(eng).world.cells@, pos)) == BlockKind::Rail
                && spec_rail_placement_valid(old(eng).world.cells@, pos) ==> *final(eng) == *old(eng),
            spec_kind_of_state(spec_state_at(old(eng).world.cells@, pos)) == BlockKind::Rail
                && !spec_rail_placement_valid(old(eng).world.cells@, pos) ==> final(eng).world.spec_at(pos) == AIR_STATE as int && final(eng).events@[old(eng).events@.len() as int] == (WorldEvent::BlockBreak {
                pos,
                cause: None,
                flags: FLAG_NOTIFY_ALL,
            }) && ({
                let fin = spec_chain_run(spec_break_chain(*old(eng), pos, FLAG_NOTIFY_ALL));
                final(eng).world.cells@ == fin.cells && final(eng).scheduler.pending@
                    == fin.pending && final(eng).scheduler.next_seq == fin.next_seq
                    && final(eng).events@ == fin.events
            }),
            forall|q: BlockPos|
                final(eng).world.spec_at(q) == old(eng).world.spec_at(q) || final(eng).world.spec_at(q) == AIR_STATE as int,
    {
        eng.on_neighbor_update(pos, source)
    }

    /// Placement legality: rails need solid ground below.
    pub fn can_place_at(grid: &WorldGrid, pos: BlockPos) -> (r: bool)
        requires
            grid.wf(),
            pos.in_bounds(),
        ensures
            r == spec_can_place_rail_at(grid.cells@, pos),
    {
        can_place_rail_at(grid, pos)
    }
}

impl PoweredRailBlock {
    /// The state a newly placed powered rail is installed with: a straight
    /// shape along the actor's facing axis, ascending toward an elevated
    /// neighbor rail.
    pub fn on_place(grid: &WorldGrid, pos: BlockPos, facing: HorizontalFacing, replacing_water:
        bool) -> (r: u32)
        requires
            grid.wf(),
            pos.in_bounds(),
        ensures
            r as int == spec_encode(
                BlockProps::PoweredRail {
                    shape: spec_straight_shape_at(grid.cells@, pos, facing),
                    waterlogged: replacing_water,
                },
            ),
    {
        powered_rail_on_place(grid, pos, facing, replacing_water)
    }

    /// The placed hook: one bounded, non-recursive pass that re-derives the
    /// shape of every flanking rail, exactly the flanking-fixup function.
    pub fn placed(eng: &mut Engine, pos: BlockPos)
        requires
            old(eng).wf(),
            pos.in_bounds(),
        ensures
            final(eng).wf(),
            old(eng).same_domain(*final(eng)),
            final(eng).scheduler == old(eng).scheduler,
            old(eng).events@.is_prefix_of(final(eng).events@),
            forall|q: BlockPos|
                !spec_flank_candidate(pos, q) ==> final(eng).world.spec_at(q) == old(eng).world.spec_at(q),
            forall|q: BlockPos|
                spec_kind_of_state(final(eng).world.spec_at(q)) == spec_kind_of_state(
                    old(eng).world.spec_at(q),
                ),
            ({
                let r = spec_fix_flanks(old(eng).world.cells@, old(eng).events@, pos);
                final(eng).world.cells@ == r.0 && final(eng).events@ == r.1
            }),
    {
        eng.update_flanking_rails(pos)
    }

    /// The neighbor-update reaction: a powered rail that lost its required
    /// support removes itself (the position then reads as air) and the
    /// removal propagates as one bounded causal chain; a validly supported
    /// rail causes no mutation at all.
    pub fn on_neighbor_update(eng: &mut Engine, pos: BlockPos, source: BlockPos)
        requires
            old(eng).wf(),
            pos.in_bounds(),
        ensures
            final(eng).wf(),
            old(eng).same_domain(*final(eng)),
            old(eng).events@.is_prefix_of(final(eng).events@),
            spec_kind_of_state(spec_state_at(old(eng).world.cells@, pos)) == BlockKind::PoweredRail
                && spec_rail_placement_valid(old(eng).world.cells@, pos) ==> *final(eng) == *old(eng),
            spec_kind_of_state(spec_state_at(old(eng).world.cells@, pos)) == BlockKind::PoweredRail
                && !spec_rail_placement_valid(old(eng).world.cells@, pos) ==> final(eng).world.spec_at(pos) == AIR_STATE as int && final(eng).events@[old(eng).events@.len() as int] == (WorldEvent::BlockBreak {
                pos,
                cause: None,
                flags: FLAG_NOTIFY_ALL,
            }) && ({
                let fin = spec_chain_run(spec_break_chain(*old(eng), pos, FLAG_NOTIFY_ALL));
                final(eng).world.cells@ == fin.cells && final(eng).scheduler.pending@
                    == fin.pending && final(eng).scheduler.next_seq == fin.next_seq
                    && final(eng).events@ == fin.events
            }),
            forall|q: BlockPos|
                final(eng).world.spec_at(q) == old(eng).world.spec_at(q) || final(eng).world.spec_at(q) == AIR_STATE as int,
    {
        eng.on_neighbor_update(pos, source)
    }

    /// Placement legality: rails need solid ground below.
    pub fn can_place_at(grid: &WorldGrid, pos: BlockPos) -> (r: bool)
        requires
            grid.wf(),
            pos.in_bounds(),
        ensures
            r == spec_can_place_rail_at(grid.cells@, pos),
    {
        can_place_rail_at(grid, pos)
    }
}

} // verus!
