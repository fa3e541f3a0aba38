//! The world grid: a finite set of loaded positions, each holding one block
//! state id. Positions outside the grid read as air and ignore writes, so
//! every reaction is total over partial world knowledge.

use vstd::prelude::*;

use crate::geometry::BlockPos;
use crate::state::AIR_STATE;

verus! {

/// One loaded position and the state id it holds.
#[derive(Clone, Copy, PartialEq, Eq, Structural, Debug)]
pub struct WorldCell {
    pub pos: BlockPos,
    pub state: u32,
}

/// The read/write view of nearby block state that reactions run against.
pub struct WorldGrid {
    pub cells: Vec<WorldCell>,
}

/// Each loaded position appears exactly once.
pub open spec fn spec_cells_unique(s: Seq<WorldCell>) -> bool {
    forall|i: int, j: int|
        0 <= i < s.len() && 0 <= j < s.len() && i != j ==> s[i].pos != s[j].pos
}

/// Every loaded position sits inside the safe coordinate band.
pub open spec fn spec_cells_in_bounds(s: Seq<WorldCell>) -> bool {
    forall|i: int| 0 <= i < s.len() ==> (#[trigger] s[i].pos).in_bounds()
}

/// Whether position `p` is loaded.
pub open spec fn spec_has_pos(s: Seq<WorldCell>, p: BlockPos) -> bool {
    exists|i: int| 0 <= i < s.len() && s[i].pos == p
}

/// The index of the cell holding `p`; meaningful only when `p` is loaded.
pub open spec fn spec_index_of(s: Seq<WorldCell>, p: BlockPos) -> int {
    choose|i: int| 0 <= i < s.len() && s[i].pos == p
}

/// The state id read at `p`: the stored id when loaded, air otherwise.
pub open spec fn spec_state_at(s: Seq<WorldCell>, p: BlockPos) -> int {
    if spec_has_pos(s, p) {
        s[spec_index_of(s, p)].state as int
    } else {
        AIR_STATE as int
    }
}

/// A cell index that holds `p` determines the state read at `p`.
pub proof fn lemma_state_at_witness(s: Seq<WorldCell>, p: BlockPos, i: int)
    requires
        spec_cells_unique(s),
        0 <= i < s.len(),
        s[i].pos == p,
    ensures
        spec_has_pos(s, p),
        spec_index_of(s, p) == i,
        spec_state_at(s, p) == s[i].state as int,
{
    assert(spec_has_pos(s, p));
    let j = spec_index_of(s, p);
    assert(0 <= j < s.len() && s[j].pos == p);
    assert(i == j);
}

/// Overwriting the state of one cell changes the reading at its position
/// alone, and keeps the domain and every other reading.
pub proof fn lemma_update_state(s: Seq<WorldCell>, i: int, v: u32)
    requires
        spec_cells_unique(s),
        0 <= i < s.len(),
    ensures
        spec_cells_unique(s.update(i, WorldCell { pos: s[i].pos, state: v })),
        spec_state_at(s.update(i, WorldCell { pos: s[i].pos, state: v }), s[i].pos) == v as int,
        forall|q: BlockPos|
            q != s[i].pos ==> spec_state_at(
                s.update(i, WorldCell { pos: s[i].pos, state: v }),
                q,
            ) == spec_state_at(s, q),
        forall|q: BlockPos|
            spec_has_pos(s.update(i, WorldCell { pos: s[i].pos, state: v }), q) == spec_has_pos(
                s,
                q,
            ),
        forall|j: int|
            0 <= j < s.len() ==> s.update(i, WorldCell { pos: s[i].pos, state: v })[j].pos
                == s[j].pos,
{
    let p = s[i].pos;
    let s2 = s.update(i, WorldCell { pos: p, state: v });
    assert(forall|j: int| 0 <= j < s.len() ==> s2[j].pos == s[j].pos);
    assert(spec_cells_unique(s2));
    lemma_state_at_witness(s2, p, i);
    assert forall|q: BlockPos| spec_has_pos(s2, q) == spec_has_pos(s, q) by {
        if spec_has_pos(s2, q) {
            let j = choose|j: int| 0 <= j < s2.len() && s2[j].pos == q;
            assert(s[j].pos == q);
        }
        if spec_has_pos(s, q) {
            let j = choose|j: int| 0 <= j < s.len() && s[j].pos == q;
            assert(s2[j].pos == q);
        }
    }
    assert forall|q: BlockPos| q != p implies spec_state_at(s2, q) == spec_state_at(s, q) by {
        if spec_has_pos(s, q) {
            let j = choose|j: int| 0 <= j < s.len() && s[j].pos == q;
            assert(j != i);
            lemma_state_at_witness(s, q, j);
            lemma_state_at_witness(s2, q, j);
        }
    }
}

impl WorldGrid {
    /// Well-formed: loaded positions are unique and within coordinate bounds.
    pub open spec fn wf(self) -> bool {
        spec_cells_unique(self.cells@) && spec_cells_in_bounds(self.cells@)
    }

    /// Whether `p` is loaded, as a spec-level reading.
    pub open spec fn spec_loaded(self, p: BlockPos) -> bool {
        spec_has_pos(self.cells@, p)
    }

    /// The state id read at `p`, as a spec-level reading.
    pub open spec fn spec_at(self, p: BlockPos) -> int {
        spec_state_at(self.cells@, p)
    }

    /// An empty world with nothing loaded.
    pub fn empty() -> (r: WorldGrid)
        ensures
            r.wf(),
            r.cells@.len() == 0,
            forall|q: BlockPos| !r.spec_loaded(q),
    {
        WorldGrid { cells: Vec::new() }
    }

    /// The index of the cell holding `p`, if `p` is loaded.
    pub fn find_index(&self, p: BlockPos) -> (r: Option<usize>)
        requires
            self.wf(),
        ensures
            match r {
                Some(i) => i < self.cells@.len() && self.cells@[i as int].pos == p
                    && self.spec_loaded(p) && spec_index_of(self.cells@, p) == i,
                None => !self.spec_loaded(p),
            },
    {
        let n = self.cells.len();
        let mut i: usize = 0;
        while i < n
            invariant
                n == self.cells@.len(),
                i <= n,
                self.wf(),
                forall|k: int| 0 <= k < i ==> self.cells@[k].pos != p,
            decreases n - i,
        {
            if self.cells[i].pos == p {
                proof {
                    lemma_state_at_witness(self.cells@, p, i as int);
                }
                return Some(i);
            }
            i += 1;
        }
        None
    }

    /// Reads the state at `p`; an unloaded position reads as air.
    pub fn get_state(&self, p: BlockPos) -> (r: u32)
        requires
            self.wf(),
        ensures
            r as int == self.spec_at(p),
    {
        match self.find_index(p) {
            Some(i) => {
                proof {
                    lemma_state_at_witness(self.cells@, p, i as int);
                }
                self.cells[i].state
            },
            None => AIR_STATE,
        }
    }

    /// Whether `p` is loaded.
    pub fn is_loaded(&self, p: BlockPos) -> (r: bool)
        requires
            self.wf(),
        ensures
            r == self.spec_loaded(p),
    {
        self.find_index(p).is_some()
    }

    /// Writes `state` at `p` when `p` is loaded; a write to an unloaded
    /// position is dropped. The set of loaded positions never changes.
    pub fn set_state(&mut self, p: BlockPos, state: u32)
        requires
            old(self).wf(),
        ensures
            final(self).wf(),
            final(self).cells@.len() == old(self).cells@.len(),
            forall|j: int|
                0 <= j < old(self).cells@.len() ==> final(self).cells@[j].pos == old(
                    self,
                ).cells@[j].pos,
            forall|q: BlockPos| final(self).spec_loaded(q) == old(self).spec_loaded(q),
            final(self).spec_at(p) == if old(self).spec_loaded(p) {
                state as int
            } else {
                old(self).spec_at(p)
            },
            forall|q: BlockPos| q != p ==> final(self).spec_at(q) == old(self).spec_at(q),
            old(self).spec_loaded(p) ==> final(self).cells@ == old(self).cells@.update(
                spec_index_of(old(self).cells@, p),
                (WorldCell { pos: p, state }),
            ),
            !old(self).spec_loaded(p) ==> final(self).cells@ == old(self).cells@,
    {
        match self.find_index(p) {
            Some(i) => {
                proof {
                    lemma_update_state(self.cells@, i as int, state);
                }
                self.cells[i] = WorldCell { pos: p, state };
            },
            None => {},
        }
    }

    /// Loads one more position holding `state`; overwrites the state when the
    /// position is already loaded. This is how a host hands the core its
    /// starting snapshot.
    pub fn put(&mut self, p: BlockPos, state: u32)
        requires
            old(self).wf(),
            p.in_bounds(),
        ensures
            final(self).wf(),
            final(self).cells@.len() <= old(self).cells@.len() + 1,
            final(self).spec_loaded(p),
            final(self).spec_at(p) == state as int,
            forall|q: BlockPos| q != p ==> final(self).spec_loaded(q) == old(self).spec_loaded(q),
            forall|q: BlockPos| q != p ==> final(self).spec_at(q) == old(self).spec_at(q),
    {
        match self.find_index(p) {
            Some(i) => {
                proof {
                    lemma_update_state(self.cells@, i as int, state);
                }
                self.cells[i] = WorldCell { pos: p, state };
            },
            None => {
                self.cells.push(WorldCell { pos: p, state });
                proof {
                    let s = self.cells@;
                    let n = s.len() - 1;
                    assert(forall|j: int| 0 <= j < n ==> s[j] == old(self).cells@[j]);
                    assert(spec_cells_unique(s));
                    lemma_state_at_witness(s, p, n);
                    assert forall|q: BlockPos| q != p implies final(self).spec_at(q) == old(
                        self,
                    ).spec_at(q) && final(self).spec_loaded(q) == old(self).spec_loaded(q) by {
                        if spec_has_pos(s, q) {
                            let j = choose|j: int| 0 <= j < s.len() && s[j].pos == q;
                            assert(j != n);
                            assert(old(self).cells@[j].pos == q);
                            lemma_state_at_witness(old(self).cells@, q, j);
                            lemma_state_at_witness(s, q, j);
                        } else {
                            if spec_has_pos(old(self).cells@, q) {
                                let j = choose|j: int|
                                    0 <= j < old(self).cells@.len() && old(self).cells@[j].pos
                                        == q;
                                assert(s[j].pos == q);
                            }
                        }
                    }
                }
            },
        }
    }
}

} // verus!
