//! The update engine: applies mutations to the world, records the produced
//! events, fans neighbor notifications out from every change in a fixed
//! order, and bounds each causal chain with a per-chain visited set so that
//! propagation always terminates.

use vstd::prelude::*;
use vstd::set_lib::lemma_int_range;
use vstd::set_lib::lemma_len_subset;
use vstd::set_lib::set_int_range;

use crate::cactus::{cactus_can_place_at, spec_cactus_can_stay};
use crate::geometry::{spec_dir_index, BlockPos, Direction, HorizontalFacing};
use crate::rail::{
    powered_rail_on_place, rail_on_place, rail_placement_is_valid, spec_can_place_rail_at,
    spec_rail_placement_valid, spec_rail_shape_at, spec_straight_shape_at,
};
use crate::registry::{Behavior, BehaviorRegistry};
use crate::scheduler::{spec_seqs_below, spec_seqs_increasing, ScheduledTick, TickPriority, TickScheduler};
use crate::state::{
    decode_state, default_state_id, encode_state, is_air_state, kind_of_state, spec_decode,
    spec_default_props, spec_encode, spec_is_air, spec_kind_of_state, BlockKind, BlockProps,
    AIR_STATE, MAX_CACTUS_AGE,
};
use crate::world::{spec_has_pos, spec_index_of, spec_state_at, WorldCell, WorldGrid};

verus! {

/// Minimal notification: the change is applied with no neighbor fan-out.
pub const FLAG_NONE: u8 = 0;

/// Propagate the change to all neighbors.
pub const FLAG_NOTIFY_ALL: u8 = 1;

/// Omit the item-drop side effect of a break.
pub const FLAG_SKIP_DROPS: u8 = 2;

/// The records the core produces for the host: one per committed mutation,
/// break request, or tick registration.
#[derive(Clone, Copy, PartialEq, Eq, Structural, Debug)]
pub enum WorldEvent {
    StateChange { pos: BlockPos, old_state: u32, new_state: u32, flags: u8 },
    BlockBreak { pos: BlockPos, cause: Option<u64>, flags: u8 },
    TickScheduled { pos: BlockPos, block: BlockKind, delay: u32, priority: TickPriority },
}

/// One pending neighbor notification: `target` is told that `source`, one
/// step away along the fan-out direction with index `from_dir`, changed.
#[derive(Clone, Copy, PartialEq, Eq, Structural, Debug)]
pub struct Notification {
    pub target: BlockPos,
    pub source: BlockPos,
    pub from_dir: usize,
}

/// The per-chain visited set, coded as cell-index * 6 + direction-index:
/// no pair is recorded twice, and every code lies below 6 * world-size.
pub open spec fn spec_visited_ok(v: Seq<usize>, n: nat) -> bool {
    v.no_duplicates() && forall|k: int| 0 <= k < v.len() ==> (#[trigger] v[k]) < 6 * n
}

/// A single causal chain in a world of `n` loaded positions performs at
/// most `6 * n` notifications: the visited set never holds more pairs than
/// there are (position, source-direction) combinations.
pub proof fn lemma_propagation_bounded(v: Seq<usize>, n: nat)
    requires
        spec_visited_ok(v, n),
    ensures
        v.len() <= 6 * n,
{
    let f = |x: usize| x as int;
    let vi = v.map_values(f);
    assert(vstd::relations::injective(f)) by {
        assert(forall|a: usize, b: usize| #[trigger] f(a) == #[trigger] f(b) ==> a == b);
    }
    v.lemma_no_duplicates_injective(f);
    vi.unique_seq_to_set();
    assert(vi.to_set().subset_of(set_int_range(0, 6 * n as int))) by {
        assert forall|e: int| vi.to_set().contains(e) implies 0 <= e < 6 * n by {
            let k = choose|k: int| 0 <= k < vi.len() && vi[k] == e;
            assert(v[k] < 6 * n);
        }
    }
    lemma_int_range(0, 6 * n as int);
    lemma_len_subset(vi.to_set(), set_int_range(0, 6 * n as int));
}

/// Upper bound on loaded positions, so visited-set codes fit in `usize`.
pub const WORLD_CAP: usize = 0x0fffffff;


/// The complete state a causal chain works on: the grid cells, the pending
/// ticks, the event log, the notification stack, and the visited set.
#[verifier::ext_equal]
pub struct ChainState {
    pub cells: Seq<WorldCell>,
    pub pending: Seq<ScheduledTick>,
    pub next_seq: u64,
    pub events: Seq<WorldEvent>,
    pub stack: Seq<Notification>,
    pub visited: Seq<usize>,
}

impl ChainState {
    /// Well-formed: grid, scheduler, visited set and stack invariants.
    pub open spec fn wf(self) -> bool {
        crate::world::spec_cells_unique(self.cells) && crate::world::spec_cells_in_bounds(
            self.cells,
        ) && self.cells.len() <= WORLD_CAP && spec_visited_ok(self.visited, self.cells.len())
            && (forall|k: int|
            0 <= k < self.stack.len() ==> (#[trigger] self.stack[k]).from_dir < 6)
            && spec_seqs_increasing(self.pending) && spec_seqs_below(self.pending, self.next_seq)
    }
}

/// One step of a causal chain: the topmost notification is taken; an
/// unloaded or already-notified target is skipped; otherwise the pair is
/// recorded and the target's behavior reacts. This is the single place
/// that defines what a notification does.
pub open spec fn spec_chain_step(s: ChainState) -> ChainState {
    let note = s.stack.last();
    let rest = s.stack.drop_last();
    if !spec_has_pos(s.cells, note.target) {
        ChainState { stack: rest, ..s }
    } else {
        let i = spec_index_of(s.cells, note.target);
        let code = (i * 6 + note.from_dir) as usize;
        if s.visited.contains(code) {
            ChainState { stack: rest, ..s }
        } else {
            let v2 = s.visited.push(code);
            let b = crate::registry::spec_behavior_of(
                spec_kind_of_state(s.cells[i].state as int),
            );
            if b == Behavior::Cactus && !spec_cactus_can_stay(s.cells, note.target) {
                if s.next_seq < u64::MAX {
                    ChainState {
                        pending: s.pending.push(
                            ScheduledTick {
                                pos: note.target,
                                block: BlockKind::Cactus,
                                delay: 1,
                                priority: TickPriority::Normal,
                                seq: s.next_seq,
                            },
                        ),
                        next_seq: (s.next_seq + 1) as u64,
                        events: s.events.push(
                            WorldEvent::TickScheduled {
                                pos: note.target,
                                block: BlockKind::Cactus,
                                delay: 1,
                                priority: TickPriority::Normal,
                            },
                        ),
                        stack: rest,
                        visited: v2,
                        ..s
                    }
                } else {
                    ChainState { stack: rest, visited: v2, ..s }
                }
            } else if (b == Behavior::Rail || b == Behavior::PoweredRail)
                && !spec_rail_placement_valid(s.cells, note.target) {
                ChainState {
                    cells: s.cells.update(i, WorldCell { pos: note.target, state: AIR_STATE }),
                    events: s.events.push(
                        WorldEvent::BlockBreak {
                            pos: note.target,
                            cause: None,
                            flags: FLAG_NOTIFY_ALL,
                        },
                    ),
                    stack: rest + spec_fanout(note.target),
                    visited: v2,
                    ..s
                }
            } else {
                ChainState { stack: rest, visited: v2, ..s }
            }
        }
    }
}

/// A chain step keeps the state well-formed, never unloads a position, and
/// shrinks the termination measure: either the visited set grows by one
/// pair (and stays within its bound), or only the stack shrinks.
pub proof fn lemma_chain_step_wf(s: ChainState)
    requires
        s.wf(),
        s.stack.len() > 0,
    ensures
        spec_chain_step(s).wf(),
        spec_chain_step(s).cells.len() == s.cells.len(),
        s.visited.len() <= 6 * s.cells.len(),
        spec_chain_step(s).visited.len() <= 6 * s.cells.len(),
        spec_chain_step(s).visited == s.visited ==> spec_chain_step(s).stack.len()
            < s.stack.len(),
        spec_chain_step(s).visited != s.visited ==> spec_chain_step(s).visited.len()
            == s.visited.len() + 1,
{
    lemma_propagation_bounded(s.visited, s.cells.len());
    let note = s.stack.last();
    let rest = s.stack.drop_last();
    let t = spec_chain_step(s);
    assert(forall|k: int| 0 <= k < rest.len() ==> rest[k] == s.stack[k]);
    if spec_has_pos(s.cells, note.target) {
        let i = spec_index_of(s.cells, note.target);
        assert(0 <= i < s.cells.len() && s.cells[i].pos == note.target);
        let code = (i * 6 + note.from_dir) as usize;
        assert(note.from_dir < 6);
        assert(code < 6 * s.cells.len());
        if !s.visited.contains(code) {
            let v2 = s.visited.push(code);
            assert(v2.no_duplicates()) by {
                assert(forall|k: int| 0 <= k < s.visited.len() ==> s.visited[k] != code);
            }
            assert(spec_visited_ok(v2, s.cells.len()));
            lemma_propagation_bounded(v2, s.cells.len());
            assert(t.visited == v2);
            let c2 = s.cells.update(i, WorldCell { pos: note.target, state: AIR_STATE });
            assert(forall|j: int| 0 <= j < s.cells.len() ==> c2[j].pos == s.cells[j].pos);
            assert(crate::world::spec_cells_unique(c2));
            assert(crate::world::spec_cells_in_bounds(c2));
            assert(forall|k: int|
                0 <= k < spec_fanout(note.target).len() ==> (#[trigger] spec_fanout(
                    note.target,
                )[k]).from_dir < 6);
            assert(forall|k: int|
                0 <= k < (rest + spec_fanout(note.target)).len() ==> (#[trigger] (rest
                    + spec_fanout(note.target))[k]).from_dir < 6);
        }
    }
}

/// Runs a causal chain to completion: steps fire until the notification
/// stack is drained. The measure that proves termination is the pair of
/// the unvisited (position, direction) budget and the stack height.
pub open spec fn spec_chain_run(s: ChainState) -> ChainState
    decreases 6 * s.cells.len() - s.visited.len(), s.stack.len(),
        when s.wf()
{
    if s.stack.len() == 0 {
        s
    } else {
        proof {
            lemma_chain_step_wf(s);
        }
        spec_chain_run(spec_chain_step(s))
    }
}

/// The chain state an engine and a pending notification stack describe.
pub open spec fn spec_chain_of(eng: Engine, stack: Seq<Notification>, visited: Seq<usize>) -> ChainState {
    ChainState {
        cells: eng.world.cells@,
        pending: eng.scheduler.pending@,
        next_seq: eng.scheduler.next_seq,
        events: eng.events@,
        stack,
        visited,
    }
}

/// The simulation core: the world grid, the tick scheduler, the behavior
/// registry, and the event log handed to the host.
pub struct Engine {
    pub registry: BehaviorRegistry,
    pub world: WorldGrid,
    pub scheduler: TickScheduler,
    pub events: Vec<WorldEvent>,
}

impl Engine {
    /// Well-formed: the grid and scheduler invariants hold and the grid is
    /// small enough for visited-set codes.
    pub open spec fn wf(self) -> bool {
        self.world.wf() && self.scheduler.wf() && self.world.cells@.len() <= WORLD_CAP
    }

    /// The loaded positions never change under the engine's reactions: a
    /// removed block leaves air behind, it does not unload the position.
    pub open spec fn same_domain(self, other: Engine) -> bool {
        other.world.cells@.len() == self.world.cells@.len() && forall|j: int|
            0 <= j < self.world.cells@.len() ==> (#[trigger] other.world.cells@[j]).pos
                == self.world.cells@[j].pos
    }

    /// An engine over an empty world.
    pub fn new() -> (r: Engine)
        ensures
            r.wf(),
            r.world.cells@.len() == 0,
            r.events@.len() == 0,
            r.scheduler.pending@.len() == 0,
    {
        Engine {
            registry: BehaviorRegistry::build(),
            world: WorldGrid::empty(),
            scheduler: TickScheduler::new(),
            events: Vec::new(),
        }
    }

    /// Loads one position of the starting snapshot.
    pub fn load_cell(&mut self, pos: BlockPos, state: u32)
        requires
            old(self).wf(),
            pos.in_bounds(),
            old(self).world.cells@.len() < WORLD_CAP,
        ensures
            final(self).wf(),
            final(self).world.spec_loaded(pos),
            final(self).world.spec_at(pos) == state as int,
            forall|q: BlockPos|
                q != pos ==> final(self).world.spec_at(q) == old(self).world.spec_at(q),
            final(self).events == old(self).events,
            final(self).scheduler == old(self).scheduler,
    {
        self.world.put(pos, state);
        proof {
            assert(self.world.cells@.len() <= old(self).world.cells@.len() + 1);
        }
    }

    /// Reads the state at a position; unloaded positions read as air.
    pub fn state_at(&self, pos: BlockPos) -> (r: u32)
        requires
            self.wf(),
        ensures
            r as int == self.world.spec_at(pos),
    {
        self.world.get_state(pos)
    }

    /// Reads the block type at a position; unloaded positions read as air.
    pub fn get_block(&self, pos: BlockPos) -> (r: BlockKind)
        requires
            self.wf(),
        ensures
            r == spec_kind_of_state(self.world.spec_at(pos)),
    {
        kind_of_state(self.world.get_state(pos))
    }

    /// Reads the block type and state at a position in one step.
    pub fn get_block_and_state(&self, pos: BlockPos) -> (r: (BlockKind, u32))
        requires
            self.wf(),
        ensures
            r.1 as int == self.world.spec_at(pos),
            r.0 == spec_kind_of_state(self.world.spec_at(pos)),
    {
        let state = self.world.get_state(pos);
        (kind_of_state(state), state)
    }

    /// Registers a delayed tick and records the event; the registration is
    /// dropped in the (practically unreachable) case that the sequence
    /// numbers are exhausted.
    fn try_schedule(&mut self, pos: BlockPos, block: BlockKind, delay: u32, priority: TickPriority)
        requires
            old(self).wf(),
        ensures
            final(self).wf(),
            final(self).world == old(self).world,
            old(self).scheduler.next_seq < u64::MAX ==> final(self).scheduler.pending@ == old(
                self,
            ).scheduler.pending@.push(
                ScheduledTick { pos, block, delay, priority, seq: old(self).scheduler.next_seq },
            ) && final(self).events@ == old(self).events@.push(
                WorldEvent::TickScheduled { pos, block, delay, priority },
            ) && final(self).scheduler.next_seq == old(self).scheduler.next_seq + 1,
            old(self).scheduler.next_seq == u64::MAX ==> *final(self) == *old(self),
            old(self).events@.is_prefix_of(final(self).events@),
    {
        if self.scheduler.next_seq < u64::MAX {
            self.scheduler.schedule(pos, block, delay, priority);
            self.events.push(WorldEvent::TickScheduled { pos, block, delay, priority });
        }
    }

    /// Registers a delayed tick for a behavior to fire later; part of the
    /// world-view capability handed to reactions.
    pub fn schedule_block_tick(
        &mut self,
        pos: BlockPos,
        block: BlockKind,
        delay: u32,
        priority: TickPriority,
    )
        requires
            old(self).wf(),
        ensures
            final(self).wf(),
            final(self).world == old(self).world,
            old(self).scheduler.next_seq < u64::MAX ==> final(self).scheduler.pending@ == old(
                self,
            ).scheduler.pending@.push(
                ScheduledTick { pos, block, delay, priority, seq: old(self).scheduler.next_seq },
            ) && final(self).events@ == old(self).events@.push(
                WorldEvent::TickScheduled { pos, block, delay, priority },
            ),
            old(self).scheduler.next_seq == u64::MAX ==> *final(self) == *old(self),
            old(self).events@.is_prefix_of(final(self).events@),
    {
        self.try_schedule(pos, block, delay, priority)
    }

    /// Commits one state write: when the position is loaded, the grid is
    /// updated and a state-change record is appended; a write to an
    /// unloaded position is dropped without a record.
    fn set_and_record(&mut self, pos: BlockPos, new_state: u32, flags: u8)
        requires
            old(self).wf(),
        ensures
            final(self).wf(),
            old(self).same_domain(*final(self)),
            final(self).scheduler == old(self).scheduler,
            forall|q: BlockPos| q != pos ==> final(self).world.spec_at(q) == old(self).world.spec_at(q),
            old(self).world.spec_loaded(pos) ==> final(self).world.spec_at(pos) == new_state as int
                && final(self).world.cells@ == old(self).world.cells@.update(
                crate::world::spec_index_of(old(self).world.cells@, pos),
                (crate::world::WorldCell { pos, state: new_state }),
            ) && final(self).events@ == old(self).events@.push(
                (WorldEvent::StateChange {
                    pos,
                    old_state: (spec_state_at(old(self).world.cells@, pos)) as u32,
                    new_state,
                    flags,
                }),
            ),
            !old(self).world.spec_loaded(pos) ==> *final(self) == *old(self),
    {
        if self.world.is_loaded(pos) {
            let old_state = self.world.get_state(pos);
            self.world.set_state(pos, new_state);
            self.events.push(
                WorldEvent::StateChange { pos, old_state, new_state, flags },
            );
        }
    }

    /// Commits one break request: the position is set to air and a
    /// block-break record is appended; breaking an unloaded position is
    /// dropped.
    fn break_and_record(&mut self, pos: BlockPos, flags: u8)
        requires
            old(self).wf(),
        ensures
            final(self).wf(),
            old(self).same_domain(*final(self)),
            final(self).scheduler == old(self).scheduler,
            forall|q: BlockPos| q != pos ==> final(self).world.spec_at(q) == old(self).world.spec_at(q),
            old(self).world.spec_loaded(pos) ==> final(self).world.spec_at(pos)
                == AIR_STATE as int && final(self).world.cells@ == old(self).world.cells@.update(
                crate::world::spec_index_of(old(self).world.cells@, pos),
                (crate::world::WorldCell { pos, state: AIR_STATE }),
            ) && final(self).events@ == old(self).events@.push(
                (WorldEvent::BlockBreak { pos, cause: None, flags }),
            ),
            !old(self).world.spec_loaded(pos) ==> *final(self) == *old(self),
    {
        if self.world.is_loaded(pos) {
            self.world.set_state(pos, AIR_STATE);
            self.events.push(WorldEvent::BlockBreak { pos, cause: None, flags });
        }
    }
}

/// The notification that `source` changed, sent one step along `d`.
pub open spec fn spec_note(source: BlockPos, d: Direction) -> Notification {
    Notification {
        target: source.spec_offset(d),
        source,
        from_dir: crate::geometry::spec_dir_index(d) as usize,
    }
}

/// The six notifications a change at `source` fans out, in reverse fan-out
/// order, so that popping them from the stack visits down, up, north,
/// south, west, east.
pub open spec fn spec_fanout(source: BlockPos) -> Seq<Notification> {
    seq![
        spec_note(source, Direction::East),
        spec_note(source, Direction::West),
        spec_note(source, Direction::South),
        spec_note(source, Direction::North),
        spec_note(source, Direction::Up),
        spec_note(source, Direction::Down),
    ]
}

/// Pushes the six neighbor notifications of `source`.
fn push_neighbor_notifications(stack: &mut Vec<Notification>, source: BlockPos)
    requires
        source.in_bounds(),
    ensures
        final(stack)@ == old(stack)@ + spec_fanout(source),
{
    push_one(stack, source, Direction::East);
    push_one(stack, source, Direction::West);
    push_one(stack, source, Direction::South);
    push_one(stack, source, Direction::North);
    push_one(stack, source, Direction::Up);
    push_one(stack, source, Direction::Down);
    proof {
        assert(stack@ =~= old(stack)@ + spec_fanout(source));
    }
}

/// Pushes one neighbor notification of `source` along `d`.
fn push_one(stack: &mut Vec<Notification>, source: BlockPos, d: Direction)
    requires
        source.in_bounds(),
    ensures
        final(stack)@ == old(stack)@.push(spec_note(source, d)),
{
    let target = source.offset(d);
    let from_dir = d.index();
    stack.push(Notification { target, source, from_dir });
}

/// Linear membership test on the visited-code list.
fn contains_code(v: &Vec<usize>, code: usize) -> (r: bool)
    ensures
        r == v@.contains(code),
{
    let n = v.len();
    let mut i: usize = 0;
    while i < n
        invariant
            n == v@.len(),
            i <= n,
            forall|k: int| 0 <= k < i ==> v@[k] != code,
        decreases n - i,
    {
        if v[i] == code {
            return true;
        }
        i += 1;
    }
    false
}

impl Engine {
    /// Drains the notification stack: each pending notification lets the
    /// target adjust its state, then react, possibly mutating the world and
    /// pushing further notifications. The visited set guarantees that no
    /// position is notified twice from the same source direction within
    /// this one chain, which bounds the chain by 6 notifications per loaded
    /// position.
    fn propagate(&mut self, stack: Vec<Notification>, visited: Vec<usize>)
        requires
            old(self).wf(),
            spec_visited_ok(visited@, old(self).world.cells@.len() as nat),
            forall|k: int| 0 <= k < stack@.len() ==> (#[trigger] stack@[k]).from_dir < 6,
        ensures
            final(self).wf(),
            old(self).same_domain(*final(self)),
            old(self).events@.is_prefix_of(final(self).events@),
            old(self).scheduler.pending@.is_prefix_of(final(self).scheduler.pending@),
            forall|q: BlockPos|
                final(self).world.spec_at(q) == old(self).world.spec_at(q)
                    || final(self).world.spec_at(q) == AIR_STATE as int,
            ({
                let fin = spec_chain_run(spec_chain_of(*old(self), stack@, visited@));
                final(self).world.cells@ == fin.cells && final(self).scheduler.pending@
                    == fin.pending && final(self).scheduler.next_seq == fin.next_seq
                    && final(self).events@ == fin.events
            }),
    {
        let ghost entry = spec_chain_of(*old(self), stack@, visited@);
        let mut stack = stack;
        let mut visited = visited;
        let ghost n = old(self).world.cells@.len() as nat;
        proof {
            assert(entry.wf());
        }
        while stack.len() > 0
            invariant
                self.wf(),
                self.world.cells@.len() == n,
                old(self).same_domain(*self),
                spec_visited_ok(visited@, n),
                forall|k: int| 0 <= k < stack@.len() ==> (#[trigger] stack@[k]).from_dir < 6,
                old(self).events@.is_prefix_of(self.events@),
                old(self).scheduler.pending@.is_prefix_of(self.scheduler.pending@),
                forall|q: BlockPos|
                    self.world.spec_at(q) == old(self).world.spec_at(q) || self.world.spec_at(q)
                        == AIR_STATE as int,
                spec_chain_of(*self, stack@, visited@).wf(),
                spec_chain_run(spec_chain_of(*self, stack@, visited@)) == spec_chain_run(entry),
            decreases 6 * n - visited@.len(), stack@.len(),
        {
            proof {
                lemma_propagation_bounded(visited@, n);
            }
            let ghost pre = spec_chain_of(*self, stack@, visited@);
            proof {
                lemma_chain_step_wf(pre);
            }
            let popped = stack.pop();
            assert(popped is Some);
            let note = popped.unwrap();
            proof {
                assert(note == pre.stack.last());
                assert(stack@ == pre.stack.drop_last());
            }
            let idx = match self.world.find_index(note.target) {
                Some(i) => i,
                None => {
                    // Unloaded targets are treated as air: nothing to notify.
                    proof {
                        assert(spec_chain_of(*self, stack@, visited@) == spec_chain_step(pre));
                    }
                    continue ;
                },
            };
            let code: usize = idx * 6 + note.from_dir;
            assert(code < 6 * n);
            assert(code as int == spec_index_of(pre.cells, note.target) * 6 + note.from_dir);
            if contains_code(&visited, code) {
                // Already notified from this direction within this chain.
                proof {
                    assert(spec_chain_of(*self, stack@, visited@) == spec_chain_step(pre));
                }
                continue ;
            }
            let ghost visited_before = visited@;
            visited.push(code);
            proof {
                assert(visited@ =~= visited_before.push(code));
                assert(visited@.drop_last() =~= visited_before);
                assert(spec_visited_ok(visited@, n));
                lemma_propagation_bounded(visited@, n);
            }
            let target = note.target;
            assert(target.in_bounds());
            let state = self.world.get_state(target);
            proof {
                assert(state as int == pre.cells[idx as int].state as int);
            }
            let behavior = self.registry.lookup(kind_of_state(state));
            match behavior {
                Behavior::Cactus => {
                    // The cactus adjusts nothing, but schedules a self-check
                    // tick when it can no longer stand here.
                    if !cactus_can_place_at(&self.world, target) {
                        self.try_schedule(target, BlockKind::Cactus, 1, TickPriority::Normal);
                    }
                },
                Behavior::Rail | Behavior::PoweredRail => {
                    // A rail that lost its required support removes itself;
                    // the removal re-enters propagation for its neighbors.
                    if !rail_placement_is_valid(&self.world, target) {
                        self.break_and_record(target, FLAG_NOTIFY_ALL);
                        push_neighbor_notifications(&mut stack, target);
                    }
                },
                Behavior::NoOp => {},
            }
            proof {
                assert(spec_chain_of(*self, stack@, visited@) == spec_chain_step(pre));
            }
        }
        proof {
            let cur = spec_chain_of(*self, stack@, visited@);
            assert(cur.stack.len() == 0);
            assert(cur.wf());
            reveal_with_fuel(spec_chain_run, 1);
            assert(spec_chain_run(cur) == cur);
        }
    }

    /// Starts a causal chain: notifies the six neighbors of `pos` in the
    /// fixed fan-out order with a fresh visited set, and runs the chain to
    /// completion.
    fn propagate_from(&mut self, pos: BlockPos)
        requires
            old(self).wf(),
            pos.in_bounds(),
        ensures
            final(self).wf(),
            old(self).same_domain(*final(self)),
            old(self).events@.is_prefix_of(final(self).events@),
            old(self).scheduler.pending@.is_prefix_of(final(self).scheduler.pending@),
            forall|q: BlockPos|
                final(self).world.spec_at(q) == old(self).world.spec_at(q)
                    || final(self).world.spec_at(q) == AIR_STATE as int,
            ({
                let fin = spec_chain_run(
                    spec_chain_of(*old(self), spec_fanout(pos), Seq::empty()),
                );
                final(self).world.cells@ == fin.cells && final(self).scheduler.pending@
                    == fin.pending && final(self).scheduler.next_seq == fin.next_seq
                    && final(self).events@ == fin.events
            }),
    {
        let mut stack: Vec<Notification> = Vec::new();
        push_neighbor_notifications(&mut stack, pos);
        let visited: Vec<usize> = Vec::new();
        proof {
            assert(stack@ =~= spec_fanout(pos));
            assert(visited@ =~= Seq::<usize>::empty());
            assert(spec_visited_ok(visited@, old(self).world.cells@.len() as nat));
        }
        self.propagate(stack, visited);
    }

    /// Writes a state and, under `FLAG_NOTIFY_ALL`, propagates the change
    /// to the neighbors.
    pub fn set_block_state(&mut self, pos: BlockPos, state: u32, flags: u8)
        requires
            old(self).wf(),
            pos.in_bounds(),
        ensures
            final(self).wf(),
            old(self).same_domain(*final(self)),
            old(self).events@.is_prefix_of(final(self).events@),
            old(self).scheduler.pending@.is_prefix_of(final(self).scheduler.pending@),
            old(self).world.spec_loaded(pos) ==> final(self).events@.len() > old(
                self,
            ).events@.len() && final(self).events@[old(self).events@.len() as int] == (
            WorldEvent::StateChange {
                pos,
                old_state: (spec_state_at(old(self).world.cells@, pos)) as u32,
                new_state: state,
                flags,
            }),
            flags & FLAG_NOTIFY_ALL == 0 ==> final(self).scheduler == old(self).scheduler && (
            forall|q: BlockPos|
                q != pos ==> final(self).world.spec_at(q) == old(self).world.spec_at(q)) && (old(
                self,
            ).world.spec_loaded(pos) ==> final(self).world.spec_at(pos) == state as int),
            flags & FLAG_NOTIFY_ALL != 0 ==> ({
                let fin = spec_chain_run(spec_set_block_chain(*old(self), pos, state, flags));
                final(self).world.cells@ == fin.cells && final(self).scheduler.pending@
                    == fin.pending && final(self).scheduler.next_seq == fin.next_seq
                    && final(self).events@ == fin.events
            }),
    {
        self.set_and_record(pos, state, flags);
        proof {
            assert(spec_chain_of(*self, spec_fanout(pos), Seq::empty())
                =~= spec_set_block_chain(*old(self), pos, state, flags));
        }
        let ghost mid = self.events@;
        if flags & FLAG_NOTIFY_ALL != 0 {
            self.propagate_from(pos);
        }
        proof {
            assert(mid.is_prefix_of(self.events@));
            assert(old(self).events@.is_prefix_of(self.events@));
            if old(self).world.spec_loaded(pos) {
                let n0 = old(self).events@.len() as int;
                assert(mid[n0] == self.events@.subrange(0, mid.len() as int)[n0]);
            }
        }
    }

    /// Breaks a block: the position becomes air, a break request is
    /// recorded, and under `FLAG_NOTIFY_ALL` the removal propagates.
    pub fn break_block(&mut self, pos: BlockPos, flags: u8)
        requires
            old(self).wf(),
            pos.in_bounds(),
        ensures
            final(self).wf(),
            old(self).same_domain(*final(self)),
            old(self).events@.is_prefix_of(final(self).events@),
            old(self).scheduler.pending@.is_prefix_of(final(self).scheduler.pending@),
            old(self).world.spec_loaded(pos) ==> final(self).events@.len() > old(
                self,
            ).events@.len() && final(self).events@[old(self).events@.len() as int] == (
            WorldEvent::BlockBreak { pos, cause: None, flags }),
            old(self).world.spec_loaded(pos) ==> final(self).world.spec_at(pos)
                == AIR_STATE as int,
            forall|q: BlockPos|
                final(self).world.spec_at(q) == old(self).world.spec_at(q)
                    || final(self).world.spec_at(q) == AIR_STATE as int,
            flags & FLAG_NOTIFY_ALL == 0 ==> final(self).scheduler == old(self).scheduler && (
            forall|q: BlockPos|
                q != pos ==> final(self).world.spec_at(q) == old(self).world.spec_at(q)) && (old(
                self,
            ).world.spec_loaded(pos) ==> final(self).world.spec_at(pos) == AIR_STATE as int),
            flags & FLAG_NOTIFY_ALL != 0 ==> ({
                let fin = spec_chain_run(spec_break_chain(*old(self), pos, flags));
                final(self).world.cells@ == fin.cells && final(self).scheduler.pending@
                    == fin.pending && final(self).scheduler.next_seq == fin.next_seq
                    && final(self).events@ == fin.events
            }),
    {
        self.break_and_record(pos, flags);
        proof {
            assert(spec_chain_of(*self, spec_fanout(pos), Seq::empty())
                =~= spec_break_chain(*old(self), pos, flags));
        }
        let ghost mid = self.events@;
        if flags & FLAG_NOTIFY_ALL != 0 {
            self.propagate_from(pos);
        }
        proof {
            assert(mid.is_prefix_of(self.events@));
            assert(old(self).events@.is_prefix_of(self.events@));
            if old(self).world.spec_loaded(pos) {
                let n0 = old(self).events@.len() as int;
                assert(mid[n0] == self.events@.subrange(0, mid.len() as int)[n0]);
            }
        }
    }
}


/// The chain state right after a state write at `pos` is committed
/// against the given grid, tick queue and log, with the six neighbor
/// notifications of `pos` still pending.
pub open spec fn spec_set_chain_parts(
    cells: Seq<WorldCell>,
    pending: Seq<ScheduledTick>,
    next_seq: u64,
    events: Seq<WorldEvent>,
    pos: BlockPos,
    state: u32,
    flags: u8,
) -> ChainState {
    ChainState {
        cells: if spec_has_pos(cells, pos) {
            cells.update(spec_index_of(cells, pos), WorldCell { pos, state })
        } else {
            cells
        },
        pending,
        next_seq,
        events: if spec_has_pos(cells, pos) {
            events.push(
                WorldEvent::StateChange {
                    pos,
                    old_state: spec_state_at(cells, pos) as u32,
                    new_state: state,
                    flags,
                },
            )
        } else {
            events
        },
        stack: spec_fanout(pos),
        visited: Seq::empty(),
    }
}

/// The chain state right after a state write at `pos` is committed, with
/// the six neighbor notifications of `pos` still pending.
pub open spec fn spec_set_block_chain(eng: Engine, pos: BlockPos, state: u32, flags: u8) -> ChainState {
    spec_set_chain_parts(
        eng.world.cells@,
        eng.scheduler.pending@,
        eng.scheduler.next_seq,
        eng.events@,
        pos,
        state,
        flags,
    )
}

/// The chain state right after a break at `pos` is committed, with the six
/// neighbor notifications of `pos` still pending.
pub open spec fn spec_break_chain(eng: Engine, pos: BlockPos, flags: u8) -> ChainState {
    ChainState {
        cells: if spec_has_pos(eng.world.cells@, pos) {
            eng.world.cells@.update(
                spec_index_of(eng.world.cells@, pos),
                WorldCell { pos, state: AIR_STATE },
            )
        } else {
            eng.world.cells@
        },
        pending: eng.scheduler.pending@,
        next_seq: eng.scheduler.next_seq,
        events: if spec_has_pos(eng.world.cells@, pos) {
            eng.events@.push(WorldEvent::BlockBreak { pos, cause: None, flags })
        } else {
            eng.events@
        },
        stack: spec_fanout(pos),
        visited: Seq::empty(),
    }
}


/// The chain state right after a placement at `pos` is committed and the
/// flanking rails are refitted, with the six neighbor notifications of
/// `pos` still pending.
#[verifier::opaque]
pub open spec fn spec_place_chain(
    eng: Engine,
    kind: BlockKind,
    pos: BlockPos,
    facing: HorizontalFacing,
    replacing_water: bool,
) -> ChainState {
    let st = (spec_place_state(eng.world.cells@, kind, pos, facing, replacing_water)) as u32;
    let c1 = if spec_has_pos(eng.world.cells@, pos) {
        eng.world.cells@.update(
            spec_index_of(eng.world.cells@, pos),
            WorldCell { pos, state: st },
        )
    } else {
        eng.world.cells@
    };
    let e1 = if spec_has_pos(eng.world.cells@, pos) {
        eng.events@.push(
            WorldEvent::StateChange {
                pos,
                old_state: (spec_state_at(eng.world.cells@, pos)) as u32,
                new_state: st,
                flags: FLAG_NOTIFY_ALL,
            },
        )
    } else {
        eng.events@
    };
    let fixed = if kind == BlockKind::Rail || kind == BlockKind::PoweredRail {
        spec_fix_flanks(c1, e1, pos)
    } else {
        (c1, e1)
    };
    ChainState {
        cells: fixed.0,
        pending: eng.scheduler.pending@,
        next_seq: eng.scheduler.next_seq,
        events: fixed.1,
        stack: spec_fanout(pos),
        visited: Seq::empty(),
    }
}

/// The placement legality predicate of the behavior for `kind`; the no-op
/// behavior allows every placement.
pub open spec fn spec_can_place(
    cells: Seq<crate::world::WorldCell>,
    kind: BlockKind,
    pos: BlockPos,
) -> bool {
    match crate::registry::spec_behavior_of(kind) {
        Behavior::Cactus => spec_cactus_can_stay(cells, pos),
        Behavior::Rail | Behavior::PoweredRail => spec_can_place_rail_at(cells, pos),
        Behavior::NoOp => true,
    }
}

/// The state the behavior for `kind` computes at placement; a behavior
/// without a placement rule installs the type's default state.
pub open spec fn spec_place_state(
    cells: Seq<crate::world::WorldCell>,
    kind: BlockKind,
    pos: BlockPos,
    facing: HorizontalFacing,
    replacing_water: bool,
) -> int {
    match kind {
        BlockKind::Rail => spec_encode(
            BlockProps::Rail {
                shape: spec_rail_shape_at(cells, pos, facing),
                waterlogged: replacing_water,
            },
        ),
        BlockKind::PoweredRail => spec_encode(
            BlockProps::PoweredRail {
                shape: spec_straight_shape_at(cells, pos, facing),
                waterlogged: replacing_water,
            },
        ),
        _ => spec_encode(spec_default_props(kind)),
    }
}

/// The representative facing of a plain rail shape's axis, used when its
/// shape is re-derived after a neighbor changed.
pub open spec fn spec_rail_axis_facing(s: crate::state::RailShape) -> HorizontalFacing {
    match s {
        crate::state::RailShape::EastWest
        | crate::state::RailShape::AscendingEast
        | crate::state::RailShape::AscendingWest => HorizontalFacing::East,
        _ => HorizontalFacing::North,
    }
}

/// The representative facing of a straight rail shape's axis.
pub open spec fn spec_straight_axis_facing(
    s: crate::state::StraightRailShape,
) -> HorizontalFacing {
    match s {
        crate::state::StraightRailShape::EastWest
        | crate::state::StraightRailShape::AscendingEast
        | crate::state::StraightRailShape::AscendingWest => HorizontalFacing::East,
        _ => HorizontalFacing::North,
    }
}

/// The positions the one-hop flanking fixup after a rail placement at `pos`
/// may rewrite: the four horizontal neighbors and their above/below cells.
pub open spec fn spec_flank_candidate(pos: BlockPos, q: BlockPos) -> bool {
    ||| q == pos.spec_offset(Direction::East)
    ||| q == pos.spec_offset(Direction::East).spec_offset(Direction::Up)
    ||| q == pos.spec_offset(Direction::East).spec_offset(Direction::Down)
    ||| q == pos.spec_offset(Direction::South)
    ||| q == pos.spec_offset(Direction::South).spec_offset(Direction::Up)
    ||| q == pos.spec_offset(Direction::South).spec_offset(Direction::Down)
    ||| q == pos.spec_offset(Direction::West)
    ||| q == pos.spec_offset(Direction::West).spec_offset(Direction::Up)
    ||| q == pos.spec_offset(Direction::West).spec_offset(Direction::Down)
    ||| q == pos.spec_offset(Direction::North)
    ||| q == pos.spec_offset(Direction::North).spec_offset(Direction::Up)
    ||| q == pos.spec_offset(Direction::North).spec_offset(Direction::Down)
}


/// The rail the flanking fixup toward `d` works on: the first connectable
/// rail at the neighbor, one above it, or one below it.
pub open spec fn spec_flank_candidate_at(
    cells: Seq<WorldCell>,
    pos: BlockPos,
    d: Direction,
) -> Option<BlockPos> {
    let n = pos.spec_offset(d);
    if crate::rail::spec_unlocked_rail(spec_state_at(cells, n)) {
        Some(n)
    } else if crate::rail::spec_unlocked_rail(
        spec_state_at(cells, n.spec_offset(Direction::Up)),
    ) {
        Some(n.spec_offset(Direction::Up))
    } else if crate::rail::spec_unlocked_rail(
        spec_state_at(cells, n.spec_offset(Direction::Down)),
    ) {
        Some(n.spec_offset(Direction::Down))
    } else {
        None
    }
}

/// The effect of re-deriving the shape of the rail flanking `pos` toward
/// `d`: its shape is recomputed from the decision table along its own
/// axis, and rewritten silently when it changed.
#[verifier::opaque]
pub open spec fn spec_fix_flank(
    cells: Seq<WorldCell>,
    events: Seq<WorldEvent>,
    pos: BlockPos,
    d: Direction,
) -> (Seq<WorldCell>, Seq<WorldEvent>) {
    match spec_flank_candidate_at(cells, pos, d) {
        None => (cells, events),
        Some(c) => spec_refit_rail(cells, events, c),
    }
}

/// The effect of re-deriving one rail's shape in place.
#[verifier::opaque]
pub open spec fn spec_refit_rail(
    cells: Seq<WorldCell>,
    events: Seq<WorldEvent>,
    c: BlockPos,
) -> (Seq<WorldCell>, Seq<WorldEvent>) {
    match spec_decode(spec_state_at(cells, c)) {
            Some(BlockProps::Rail { shape, waterlogged }) => {
                let ns = spec_rail_shape_at(cells, c, spec_rail_axis_facing(shape));
                if ns != shape {
                    let st = spec_encode(
                        BlockProps::Rail { shape: ns, waterlogged },
                    ) as u32;
                    (
                        cells.update(spec_index_of(cells, c), WorldCell { pos: c, state: st }),
                        events.push(
                            WorldEvent::StateChange {
                                pos: c,
                                old_state: spec_state_at(cells, c) as u32,
                                new_state: st,
                                flags: FLAG_NONE,
                            },
                        ),
                    )
                } else {
                    (cells, events)
                }
            },
            Some(BlockProps::PoweredRail { shape, waterlogged }) => {
                let ns = spec_straight_shape_at(cells, c, spec_straight_axis_facing(shape));
                if ns != shape {
                    let st = spec_encode(
                        BlockProps::PoweredRail { shape: ns, waterlogged },
                    ) as u32;
                    (
                        cells.update(spec_index_of(cells, c), WorldCell { pos: c, state: st }),
                        events.push(
                            WorldEvent::StateChange {
                                pos: c,
                                old_state: spec_state_at(cells, c) as u32,
                                new_state: st,
                                flags: FLAG_NONE,
                            },
                        ),
                    )
                } else {
                    (cells, events)
                }
            },
        _ => (cells, events),
    }
}

/// The effect of the whole flanking pass, over the four horizontal
/// directions in fan-out order.
#[verifier::opaque]
pub open spec fn spec_fix_flanks(
    cells: Seq<WorldCell>,
    events: Seq<WorldEvent>,
    pos: BlockPos,
) -> (Seq<WorldCell>, Seq<WorldEvent>) {
    let a = spec_fix_flank(cells, events, pos, Direction::North);
    let b = spec_fix_flank(a.0, a.1, pos, Direction::South);
    let c = spec_fix_flank(b.0, b.1, pos, Direction::West);
    spec_fix_flank(c.0, c.1, pos, Direction::East)
}

impl Engine {
    /// Placement legality for `kind` at `pos`, asked before any mutation;
    /// a refusal is the only user-visible placement failure.
    pub fn can_place_at(&self, kind: BlockKind, pos: BlockPos) -> (r: bool)
        requires
            self.wf(),
            pos.in_bounds(),
        ensures
            r == spec_can_place(self.world.cells@, kind, pos),
    {
        match self.registry.lookup(kind) {
            Behavior::Cactus => cactus_can_place_at(&self.world, pos),
            Behavior::Rail | Behavior::PoweredRail => {
                crate::rail::can_place_rail_at(&self.world, pos)
            },
            Behavior::NoOp => true,
        }
    }

    /// Re-derives the shape of the rail at `c` along its own axis and
    /// silently rewrites it when the decision table now yields a different
    /// shape.
    #[verifier::rlimit(100)]
    fn refit_rail_at(&mut self, c: BlockPos)
        requires
            old(self).wf(),
            c.in_bounds(),
        ensures
            final(self).wf(),
            old(self).same_domain(*final(self)),
            final(self).scheduler == old(self).scheduler,
            old(self).events@.is_prefix_of(final(self).events@),
            forall|q: BlockPos|
                q != c ==> final(self).world.spec_at(q) == old(self).world.spec_at(q),
            forall|q: BlockPos|
                spec_kind_of_state(final(self).world.spec_at(q)) == spec_kind_of_state(
                    old(self).world.spec_at(q),
                ),
            ({
                let r = spec_refit_rail(old(self).world.cells@, old(self).events@, c);
                final(self).world.cells@ == r.0 && final(self).events@ == r.1
            }),
    {
        proof {
            reveal(spec_refit_rail);
        }
        let stt = self.world.get_state(c);
        match decode_state(stt) {
            Some(BlockProps::Rail { shape, waterlogged }) => {
                let facing = match shape {
                    crate::state::RailShape::EastWest
                    | crate::state::RailShape::AscendingEast
                    | crate::state::RailShape::AscendingWest => HorizontalFacing::East,
                    _ => HorizontalFacing::North,
                };
                let east = crate::rail::find_rail_if_unlocked(&self.world, c, Direction::East);
                let south = crate::rail::find_rail_if_unlocked(&self.world, c, Direction::South);
                let west = crate::rail::find_rail_if_unlocked(&self.world, c, Direction::West);
                let north = crate::rail::find_rail_if_unlocked(&self.world, c, Direction::North);
                let ns = crate::rail::compute_rail_shape(east, south, west, north, facing);
                if ns != shape {
                    self.set_and_record(
                        c,
                        encode_state(BlockProps::Rail { shape: ns, waterlogged }),
                        FLAG_NONE,
                    );
                }
            },
            Some(BlockProps::PoweredRail { shape, waterlogged }) => {
                let facing = match shape {
                    crate::state::StraightRailShape::EastWest
                    | crate::state::StraightRailShape::AscendingEast
                    | crate::state::StraightRailShape::AscendingWest => HorizontalFacing::East,
                    _ => HorizontalFacing::North,
                };
                let ns = crate::rail::compute_placed_rail_shape(&self.world, c, facing);
                if ns != shape {
                    self.set_and_record(
                        c,
                        encode_state(BlockProps::PoweredRail { shape: ns, waterlogged }),
                        FLAG_NONE,
                    );
                }
            },
            _ => {},
        }
    }

    /// Re-derives the shape of the connectable rail flanking `pos` toward
    /// `d` (level first, then above, then below), and silently rewrites it
    /// when the decision table now yields a different shape.
    fn fix_one_flank(&mut self, pos: BlockPos, d: Direction)
        requires
            old(self).wf(),
            pos.in_bounds(),
        ensures
            final(self).wf(),
            old(self).same_domain(*final(self)),
            final(self).scheduler == old(self).scheduler,
            old(self).events@.is_prefix_of(final(self).events@),
            forall|q: BlockPos|
                q != pos.spec_offset(d) && q != pos.spec_offset(d).spec_offset(Direction::Up) && q
                    != pos.spec_offset(d).spec_offset(Direction::Down)
                    ==> final(self).world.spec_at(q) == old(self).world.spec_at(q),
            forall|q: BlockPos|
                spec_kind_of_state(final(self).world.spec_at(q)) == spec_kind_of_state(
                    old(self).world.spec_at(q),
                ),
            ({
                let r = spec_fix_flank(old(self).world.cells@, old(self).events@, pos, d);
                final(self).world.cells@ == r.0 && final(self).events@ == r.1
            }),
    {
        proof {
            reveal(spec_fix_flank);
        }
        let n = pos.offset(d);
        let cand: BlockPos = if crate::rail::is_unlocked_rail(self.world.get_state(n)) {
            n
        } else if crate::rail::is_unlocked_rail(self.world.get_state(n.up())) {
            n.up()
        } else if crate::rail::is_unlocked_rail(self.world.get_state(n.down())) {
            n.down()
        } else {
            return ;
        };
        proof {
            // A connectable rail reads non-air, so its position is loaded
            // and therefore within coordinate bounds.
            if !self.world.spec_loaded(cand) {
                assert(self.world.spec_at(cand) == AIR_STATE as int);
            }
            let i = crate::world::spec_index_of(self.world.cells@, cand);
            assert(self.world.cells@[i].pos.in_bounds());
        }
        self.refit_rail_at(cand);
    }


    /// The placed hook of both rail blocks: corrects the shape of every
    /// flanking rail neighbor in one bounded, non-recursive pass over the
    /// four horizontal directions in fan-out order.
    pub fn update_flanking_rails(&mut self, pos: BlockPos)
        requires
            old(self).wf(),
            pos.in_bounds(),
        ensures
            final(self).wf(),
            old(self).same_domain(*final(self)),
            final(self).scheduler == old(self).scheduler,
            old(self).events@.is_prefix_of(final(self).events@),
            forall|q: BlockPos|
                !spec_flank_candidate(pos, q) ==> final(self).world.spec_at(q) == old(
                    self,
                ).world.spec_at(q),
            forall|q: BlockPos|
                spec_kind_of_state(final(self).world.spec_at(q)) == spec_kind_of_state(
                    old(self).world.spec_at(q),
                ),
            ({
                let r = spec_fix_flanks(old(self).world.cells@, old(self).events@, pos);
                final(self).world.cells@ == r.0 && final(self).events@ == r.1
            }),
    {
        proof {
            reveal(spec_fix_flanks);
        }
        self.fix_one_flank(pos, Direction::North);
        self.fix_one_flank(pos, Direction::South);
        self.fix_one_flank(pos, Direction::West);
        self.fix_one_flank(pos, Direction::East);
    }

    /// Places a block: asks the placement predicate, computes the state the
    /// behavior installs, commits it, runs the placed hook, and propagates
    /// the change to the neighbors. Nothing changes when placement is
    /// refused.
    #[verifier::rlimit(100)]
    pub fn place_block(
        &mut self,
        kind: BlockKind,
        pos: BlockPos,
        facing: HorizontalFacing,
        replacing_water: bool,
    ) -> (placed: bool)
        requires
            old(self).wf(),
            pos.in_bounds(),
        ensures
            final(self).wf(),
            old(self).same_domain(*final(self)),
            old(self).events@.is_prefix_of(final(self).events@),
            placed == spec_can_place(old(self).world.cells@, kind, pos),
            !placed ==> *final(self) == *old(self),
            placed && old(self).world.spec_loaded(pos) ==> final(self).events@.len() > old(
                self,
            ).events@.len() && final(self).events@[old(self).events@.len() as int] == (
            WorldEvent::StateChange {
                pos,
                old_state: (spec_state_at(old(self).world.cells@, pos)) as u32,
                new_state: (spec_place_state(
                    old(self).world.cells@,
                    kind,
                    pos,
                    facing,
                    replacing_water,
                )) as u32,
                flags: FLAG_NOTIFY_ALL,
            }),
            placed ==> ({
                let fin = spec_chain_run(
                    spec_place_chain(*old(self), kind, pos, facing, replacing_water),
                );
                final(self).world.cells@ == fin.cells && final(self).scheduler.pending@
                    == fin.pending && final(self).scheduler.next_seq == fin.next_seq
                    && final(self).events@ == fin.events
            }),
    {
        if !self.can_place_at(kind, pos) {
            return false;
        }
        let state = match kind {
            BlockKind::Rail => rail_on_place(&self.world, pos, facing, replacing_water),
            BlockKind::PoweredRail => powered_rail_on_place(
                &self.world,
                pos,
                facing,
                replacing_water,
            ),
            _ => default_state_id(kind),
        };
        self.set_and_record(pos, state, FLAG_NOTIFY_ALL);
        let ghost mid = self.events@;
        match kind {
            BlockKind::Rail | BlockKind::PoweredRail => {
                self.update_flanking_rails(pos);
            },
            _ => {},
        }
        proof {
            assert(spec_chain_of(*self, spec_fanout(pos), Seq::empty()) =~= spec_place_chain(
                *old(self),
                kind,
                pos,
                facing,
                replacing_water,
            )) by {
                reveal(spec_place_chain);
            }
        }
        self.propagate_from(pos);
        proof {
            assert(mid.is_prefix_of(self.events@));
            assert(old(self).events@.is_prefix_of(self.events@));
            if old(self).world.spec_loaded(pos) {
                let n0 = old(self).events@.len() as int;
                assert(mid[n0] == self.events@.subrange(0, mid.len() as int)[n0]);
            }
        }
        true
    }

    /// Fires an expired scheduled tick for `pos`. The cactus behavior
    /// re-checks its placement rule and breaks the block (with minimal
    /// notification, as a delayed self-correction) when it may no longer
    /// stand; every other behavior ignores scheduled ticks.
    pub fn on_scheduled_tick(&mut self, pos: BlockPos, block: BlockKind)
        requires
            old(self).wf(),
            pos.in_bounds(),
        ensures
            final(self).wf(),
            old(self).same_domain(*final(self)),
            final(self).scheduler == old(self).scheduler,
            old(self).events@.is_prefix_of(final(self).events@),
            forall|q: BlockPos| q != pos ==> final(self).world.spec_at(q) == old(self).world.spec_at(q),
            (crate::registry::spec_behavior_of(block) == Behavior::Cactus
                && !spec_cactus_can_stay(old(self).world.cells@, pos) && old(
                self,
            ).world.spec_loaded(pos)) ==> final(self).world.spec_at(pos) == AIR_STATE as int
                && final(self).world.cells@ == old(self).world.cells@.update(
                spec_index_of(old(self).world.cells@, pos),
                (WorldCell { pos, state: AIR_STATE }),
            ) && final(self).events@ == old(self).events@.push(
                (WorldEvent::BlockBreak { pos, cause: None, flags: FLAG_NONE }),
            ),
            (crate::registry::spec_behavior_of(block) == Behavior::Cactus
                && !spec_cactus_can_stay(old(self).world.cells@, pos) && !old(
                self,
            ).world.spec_loaded(pos)) ==> *final(self) == *old(self),
            !(crate::registry::spec_behavior_of(block) == Behavior::Cactus
                && !spec_cactus_can_stay(old(self).world.cells@, pos)) ==> *final(self) == *old(
                self,
            ),
    {
        match self.registry.lookup(block) {
            Behavior::Cactus => {
                if !cactus_can_place_at(&self.world, pos) {
                    self.break_and_record(pos, FLAG_NONE);
                }
            },
            _ => {},
        }
    }

    /// Fires a successful random-tick trial at `pos`. The cactus behavior
    /// grows: with clear space above, age below the maximum advances by
    /// one; at the maximum age a fresh cactus of age zero appears above and
    /// this one resets to age zero. Other behaviors ignore random ticks.
    pub fn random_tick(&mut self, pos: BlockPos)
        requires
            old(self).wf(),
            pos.in_bounds(),
        ensures
            final(self).wf(),
            old(self).same_domain(*final(self)),
            final(self).scheduler == old(self).scheduler,
            old(self).events@.is_prefix_of(final(self).events@),
            forall|q: BlockPos|
                q != pos && q != pos.spec_offset(Direction::Up) ==> final(self).world.spec_at(q)
                    == old(self).world.spec_at(q),
            ({
                let cells = old(self).world.cells@;
                let evs = old(self).events@;
                let above = pos.spec_offset(Direction::Up);
                let fresh = (spec_encode(BlockProps::Cactus { age: 0 })) as u32;
                match spec_decode(spec_state_at(cells, pos)) {
                    Some(BlockProps::Cactus { age }) => {
                        if spec_is_air(spec_state_at(cells, above)) {
                            if age == MAX_CACTUS_AGE {
                                final(self).world.spec_at(pos) == spec_encode(
                                    BlockProps::Cactus { age: 0 },
                                ) && (old(self).world.spec_loaded(above)
                                    ==> final(self).world.spec_at(above) == spec_encode(
                                    BlockProps::Cactus { age: 0 },
                                ) && final(self).events@ == evs.push(
                                    (WorldEvent::StateChange {
                                        pos: above,
                                        old_state: (spec_state_at(cells, above)) as u32,
                                        new_state: fresh,
                                        flags: FLAG_NONE,
                                    }),
                                ).push(
                                    (WorldEvent::StateChange {
                                        pos,
                                        old_state: (spec_state_at(cells, pos)) as u32,
                                        new_state: fresh,
                                        flags: FLAG_NONE,
                                    }),
                                )) && (!old(self).world.spec_loaded(above)
                                    ==> final(self).events@ == evs.push(
                                    (WorldEvent::StateChange {
                                        pos,
                                        old_state: (spec_state_at(cells, pos)) as u32,
                                        new_state: fresh,
                                        flags: FLAG_NONE,
                                    }),
                                ))
                            } else {
                                final(self).world.spec_at(pos) == spec_encode(
                                    BlockProps::Cactus { age: (age + 1) as u8 },
                                ) && final(self).world.spec_at(above) == spec_state_at(
                                    cells,
                                    above,
                                ) && final(self).events@ == evs.push(
                                    (WorldEvent::StateChange {
                                        pos,
                                        old_state: (spec_state_at(cells, pos)) as u32,
                                        new_state: (spec_encode(
                                            BlockProps::Cactus { age: (age + 1) as u8 },
                                        )) as u32,
                                        flags: FLAG_NONE,
                                    }),
                                )
                            }
                        } else {
                            *final(self) == *old(self)
                        }
                    },
                    _ => *final(self) == *old(self),
                }
            }),
    {
        let state = self.world.get_state(pos);
        match decode_state(state) {
            Some(BlockProps::Cactus { age }) => {
                let above = pos.up();
                if is_air_state(self.world.get_state(above)) {
                    if age == MAX_CACTUS_AGE {
                        let fresh = encode_state(BlockProps::Cactus { age: 0 });
                        proof {
                            // The position above is a different cell, so the
                            // first write leaves the reading here untouched.
                            assert(above != pos);
                        }
                        self.set_and_record(above, fresh, FLAG_NONE);
                        self.set_and_record(pos, fresh, FLAG_NONE);
                    } else {
                        self.set_and_record(
                            pos,
                            encode_state(BlockProps::Cactus { age: age + 1 }),
                            FLAG_NONE,
                        );
                    }
                }
            },
            _ => {},
        }
    }

    /// The neighbor-update reaction of the block at `pos`, told that
    /// `source` changed. The block first gets to adjust its own state (every
    /// behavior here keeps it; the cactus instead schedules a delayed
    /// self-check when it may no longer stand), then reacts: a rail that
    /// lost its support removes itself, and the removal propagates.
    #[verifier::rlimit(100)]
    pub fn on_neighbor_update(&mut self, pos: BlockPos, source: BlockPos)
        requires
            old(self).wf(),
            pos.in_bounds(),
        ensures
            final(self).wf(),
            old(self).same_domain(*final(self)),
            old(self).events@.is_prefix_of(final(self).events@),
            ({
                let cells = old(self).world.cells@;
                let b = crate::registry::spec_behavior_of(
                    spec_kind_of_state(spec_state_at(cells, pos)),
                );
                &&& (b == Behavior::NoOp ==> *final(self) == *old(self))
                &&& (b == Behavior::Cactus ==> final(self).world == old(self).world && (
                spec_cactus_can_stay(cells, pos) ==> *final(self) == *old(self)) && (
                !spec_cactus_can_stay(cells, pos) && old(self).scheduler.next_seq < u64::MAX
                    ==> final(self).scheduler.pending@ == old(self).scheduler.pending@.push(
                    (ScheduledTick {
                        pos,
                        block: BlockKind::Cactus,
                        delay: 1,
                        priority: TickPriority::Normal,
                        seq: old(self).scheduler.next_seq,
                    }),
                )))
                &&& ((b == Behavior::Rail || b == Behavior::PoweredRail)
                    && spec_rail_placement_valid(cells, pos) ==> *final(self) == *old(self))
                &&& ((b == Behavior::Rail || b == Behavior::PoweredRail)
                    && !spec_rail_placement_valid(cells, pos) ==> final(self).world.spec_at(pos)
                    == AIR_STATE as int && final(self).events@[old(self).events@.len() as int] == (
                WorldEvent::BlockBreak { pos, cause: None, flags: FLAG_NOTIFY_ALL }) && ({
                    let fin = spec_chain_run(
                        spec_break_chain(*old(self), pos, FLAG_NOTIFY_ALL),
                    );
                    final(self).world.cells@ == fin.cells && final(self).scheduler.pending@
                        == fin.pending && final(self).scheduler.next_seq == fin.next_seq
                        && final(self).events@ == fin.events
                }))
            }),
            forall|q: BlockPos|
                final(self).world.spec_at(q) == old(self).world.spec_at(q)
                    || final(self).world.spec_at(q) == AIR_STATE as int,
    {
        let state = self.world.get_state(pos);
        match self.registry.lookup(kind_of_state(state)) {
            Behavior::Cactus => {
                if !cactus_can_place_at(&self.world, pos) {
                    self.try_schedule(pos, BlockKind::Cactus, 1, TickPriority::Normal);
                }
            },
            Behavior::Rail | Behavior::PoweredRail => {
                if !rail_placement_is_valid(&self.world, pos) {
                    proof {
                        // A rail state never reads as air, so `pos` is loaded.
                        if !self.world.spec_loaded(pos) {
                            assert(self.world.spec_at(pos) == AIR_STATE as int);
                        }
                    }
                    proof {
                        assert(1u8 & 1u8 == 1u8) by (bit_vector);
                    }
                    self.break_block(pos, FLAG_NOTIFY_ALL);
                }
            },
            Behavior::NoOp => {},
        }
    }

    /// One simulation step of the delayed-tick process: every pending delay
    /// counts down by one, the expired entries leave the queue, and their
    /// reactions fire in priority-then-insertion order. A tick for a
    /// position outside the coordinate band is dropped without firing.
    pub fn step(&mut self)
        requires
            old(self).wf(),
        ensures
            final(self).wf(),
            old(self).same_domain(*final(self)),
            old(self).events@.is_prefix_of(final(self).events@),
            final(self).scheduler.pending@ == crate::scheduler::spec_sel_remaining(
                crate::scheduler::spec_dec(old(self).scheduler.pending@),
            ),
            final(self).scheduler.next_seq == old(self).scheduler.next_seq,
            ({
                let due = crate::scheduler::spec_due(
                    crate::scheduler::spec_dec(old(self).scheduler.pending@),
                );
                let fin = spec_fire_all(old(self).world.cells@, old(self).events@, due);
                final(self).world.cells@ == fin.0 && final(self).events@ == fin.1
            }),
    {
        let due = self.scheduler.advance();
        let ghost sched_after = self.scheduler;
        let n = due.len();
        let mut i: usize = 0;
        proof {
            assert(due@.subrange(0, 0) =~= Seq::<ScheduledTick>::empty());
        }
        while i < n
            invariant
                self.wf(),
                n == due@.len(),
                i <= n,
                due@ == crate::scheduler::spec_due(
                    crate::scheduler::spec_dec(old(self).scheduler.pending@),
                ),
                old(self).same_domain(*self),
                self.scheduler == sched_after,
                old(self).events@.is_prefix_of(self.events@),
                (self.world.cells@, self.events@) == spec_fire_all(
                    old(self).world.cells@,
                    old(self).events@,
                    due@.subrange(0, i as int),
                ),
            decreases n - i,
        {
            let t = due[i];
            proof {
                assert(due@.subrange(0, i as int + 1).drop_last() =~= due@.subrange(0, i as int));
                assert(due@.subrange(0, i as int + 1).last() == due@[i as int]);
            }
            if t.pos.is_in_bounds() {
                self.on_scheduled_tick(t.pos, t.block);
            }
            i += 1;
        }
        proof {
            assert(due@.subrange(0, n as int) =~= due@);
        }
    }
}


/// The effect of firing one expired tick: a cactus that may no longer
/// stand breaks (with minimal notification); everything else leaves the
/// state untouched. A tick for an out-of-band or unloaded position is
/// dropped.
pub open spec fn spec_fire_one(
    cells: Seq<WorldCell>,
    events: Seq<WorldEvent>,
    t: ScheduledTick,
) -> (Seq<WorldCell>, Seq<WorldEvent>) {
    if t.pos.in_bounds() && crate::registry::spec_behavior_of(t.block) == Behavior::Cactus
        && !spec_cactus_can_stay(cells, t.pos) && spec_has_pos(cells, t.pos) {
        (
            cells.update(spec_index_of(cells, t.pos), WorldCell { pos: t.pos, state: AIR_STATE }),
            events.push(WorldEvent::BlockBreak { pos: t.pos, cause: None, flags: FLAG_NONE }),
        )
    } else {
        (cells, events)
    }
}

/// The effect of firing a whole due list, in firing order.
pub open spec fn spec_fire_all(
    cells: Seq<WorldCell>,
    events: Seq<WorldEvent>,
    due: Seq<ScheduledTick>,
) -> (Seq<WorldCell>, Seq<WorldEvent>)
    decreases due.len(),
{
    if due.len() == 0 {
        (cells, events)
    } else {
        let prev = spec_fire_all(cells, events, due.drop_last());
        spec_fire_one(prev.0, prev.1, due.last())
    }
}

/// Determinism of a causal chain: the grid, tick queue and event log a
/// chain ends with are a function of the starting state alone, so
/// re-running a mutation against an equal world snapshot yields an
/// identical final state and an identical event record.
pub proof fn lemma_chain_deterministic(s1: ChainState, s2: ChainState)
    requires
        s1 == s2,
    ensures
        spec_chain_run(s1) == spec_chain_run(s2),
{
}

/// Determinism of the reaction rules: every decision the engine takes is a
/// function of the world snapshot and the trigger alone, so re-running a
/// trigger against an equal snapshot decides placement legality, the
/// installed state, rail validity, the cactus rule, and one step's firing
/// list identically.
pub proof fn lemma_reactions_deterministic(
    c1: Seq<crate::world::WorldCell>,
    c2: Seq<crate::world::WorldCell>,
    kind: BlockKind,
    pos: BlockPos,
    facing: HorizontalFacing,
    replacing_water: bool,
    p1: Seq<ScheduledTick>,
    p2: Seq<ScheduledTick>,
)
    requires
        c1 == c2,
        p1 == p2,
    ensures
        spec_can_place(c1, kind, pos) == spec_can_place(c2, kind, pos),
        spec_place_state(c1, kind, pos, facing, replacing_water) == spec_place_state(
            c2,
            kind,
            pos,
            facing,
            replacing_water,
        ),
        spec_rail_placement_valid(c1, pos) == spec_rail_placement_valid(c2, pos),
        spec_cactus_can_stay(c1, pos) == spec_cactus_can_stay(c2, pos),
        crate::scheduler::spec_due(crate::scheduler::spec_dec(p1)) == crate::scheduler::spec_due(
            crate::scheduler::spec_dec(p2),
        ),
{
}

} // verus!
