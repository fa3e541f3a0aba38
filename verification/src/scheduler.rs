//! Delayed per-block ticks: registration, per-step delay countdown, and the
//! firing order (high priority before normal, insertion order within a
//! priority).

use vstd::prelude::*;

use crate::geometry::BlockPos;
use crate::state::BlockKind;

verus! {

/// Ordering hint for ticks due in the same step: high fires before normal.
#[derive(Clone, Copy, PartialEq, Eq, Structural, Debug)]
pub enum TickPriority {
    High,
    Normal,
}

/// Rank used to order priorities; smaller fires first.
pub open spec fn spec_priority_rank(p: TickPriority) -> int {
    match p {
        TickPriority::High => 0,
        TickPriority::Normal => 1,
    }
}

/// A pending delayed tick: consumed exactly once when its delay runs out.
#[derive(Clone, Copy, PartialEq, Eq, Structural, Debug)]
pub struct ScheduledTick {
    pub pos: BlockPos,
    pub block: BlockKind,
    pub delay: u32,
    pub priority: TickPriority,
    pub seq: u64,
}

/// Holds the pending delayed ticks and advances them once per simulation
/// step. Scheduling the same position twice creates two independent entries.
pub struct TickScheduler {
    pub pending: Vec<ScheduledTick>,
    pub next_seq: u64,
}

/// Sequence numbers strictly increase along the pending list, so list order
/// is insertion order.
pub open spec fn spec_seqs_increasing(s: Seq<ScheduledTick>) -> bool {
    forall|i: int, j: int| 0 <= i < j < s.len() ==> s[i].seq < s[j].seq
}

/// Every pending sequence number was handed out before `bound`.
pub open spec fn spec_seqs_below(s: Seq<ScheduledTick>, bound: u64) -> bool {
    forall|i: int| 0 <= i < s.len() ==> (#[trigger] s[i]).seq < bound
}

/// One step of delay countdown for a single entry.
pub open spec fn spec_dec_one(t: ScheduledTick) -> ScheduledTick {
    ScheduledTick {
        delay: if t.delay > 0 {
            (t.delay - 1) as u32
        } else {
            0
        },
        ..t
    }
}

/// One step of delay countdown for the whole pending list.
pub open spec fn spec_dec(s: Seq<ScheduledTick>) -> Seq<ScheduledTick> {
    s.map_values(|t: ScheduledTick| spec_dec_one(t))
}

/// The due entries of one priority rank, in list order.
pub open spec fn spec_sel_due(s: Seq<ScheduledTick>, rank: int) -> Seq<ScheduledTick>
    decreases s.len(),
{
    if s.len() == 0 {
        Seq::empty()
    } else {
        let init = spec_sel_due(s.drop_last(), rank);
        if s.last().delay == 0 && spec_priority_rank(s.last().priority) == rank {
            init.push(s.last())
        } else {
            init
        }
    }
}

/// The entries whose delay has not yet run out, in list order.
pub open spec fn spec_sel_remaining(s: Seq<ScheduledTick>) -> Seq<ScheduledTick>
    decreases s.len(),
{
    if s.len() == 0 {
        Seq::empty()
    } else {
        let init = spec_sel_remaining(s.drop_last());
        if s.last().delay > 0 {
            init.push(s.last())
        } else {
            init
        }
    }
}

/// The full firing list of one step: the due high-priority entries first,
/// then the due normal ones, each part in insertion order.
pub open spec fn spec_due(s: Seq<ScheduledTick>) -> Seq<ScheduledTick> {
    spec_sel_due(s, 0) + spec_sel_due(s, 1)
}

/// A firing list is ordered: by priority rank first, then by sequence
/// number (insertion order).
pub open spec fn spec_fire_ordered(s: Seq<ScheduledTick>) -> bool {
    forall|i: int, j: int|
        0 <= i < j < s.len() ==> spec_priority_rank(s[i].priority) < spec_priority_rank(s[j].priority)
            || (spec_priority_rank(s[i].priority) == spec_priority_rank(s[j].priority) && s[i].seq
            < s[j].seq)
}

proof fn lemma_sel_due_props(s: Seq<ScheduledTick>, rank: int)
    requires
        spec_seqs_increasing(s),
    ensures
        forall|k: int|
            0 <= k < spec_sel_due(s, rank).len() ==> spec_priority_rank(
                (#[trigger] spec_sel_due(s, rank)[k]).priority,
            ) == rank && spec_sel_due(s, rank)[k].delay == 0,
        spec_seqs_increasing(spec_sel_due(s, rank)),
        forall|k: int|
            0 <= k < spec_sel_due(s, rank).len() ==> exists|m: int|
                0 <= m < s.len() && #[trigger] s[m] == #[trigger] spec_sel_due(s, rank)[k],
    decreases s.len(),
{
    if s.len() > 0 {
        let head = s.drop_last();
        assert(spec_seqs_increasing(head));
        lemma_sel_due_props(head, rank);
        let init = spec_sel_due(head, rank);
        assert forall|k: int| 0 <= k < init.len() implies (#[trigger] init[k]).seq
            < s.last().seq by {
            let m = choose|m: int| 0 <= m < head.len() && head[m] == init[k];
            assert(head[m] == s[m]);
        }
        assert forall|k: int| 0 <= k < init.len() implies exists|m: int|
            0 <= m < s.len() && #[trigger] s[m] == #[trigger] init[k] by {
            let m = choose|m: int| 0 <= m < head.len() && head[m] == init[k];
            assert(s[m] == init[k]);
        }
        assert(s.last() == s[s.len() - 1]);
    }
}

proof fn lemma_sel_remaining_props(s: Seq<ScheduledTick>, bound: u64)
    requires
        spec_seqs_increasing(s),
        spec_seqs_below(s, bound),
    ensures
        spec_seqs_increasing(spec_sel_remaining(s)),
        spec_seqs_below(spec_sel_remaining(s), bound),
        forall|k: int|
            0 <= k < spec_sel_remaining(s).len() ==> exists|m: int|
                0 <= m < s.len() && #[trigger] s[m] == #[trigger] spec_sel_remaining(s)[k],
    decreases s.len(),
{
    if s.len() > 0 {
        let head = s.drop_last();
        assert(spec_seqs_increasing(head));
        assert(spec_seqs_below(head, bound));
        lemma_sel_remaining_props(head, bound);
        let init = spec_sel_remaining(head);
        assert forall|k: int| 0 <= k < init.len() implies (#[trigger] init[k]).seq
            < s.last().seq by {
            let m = choose|m: int| 0 <= m < head.len() && head[m] == init[k];
            assert(head[m] == s[m]);
        }
        assert forall|k: int| 0 <= k < init.len() implies exists|m: int|
            0 <= m < s.len() && #[trigger] s[m] == #[trigger] init[k] by {
            let m = choose|m: int| 0 <= m < head.len() && head[m] == init[k];
            assert(s[m] == init[k]);
        }
        assert(s.last() == s[s.len() - 1]);
    }
}

/// The firing list of any step is ordered: high priority first, insertion
/// order within a priority.
pub proof fn lemma_due_ordered(s: Seq<ScheduledTick>)
    requires
        spec_seqs_increasing(s),
    ensures
        spec_fire_ordered(spec_due(s)),
{
    lemma_sel_due_props(s, 0);
    lemma_sel_due_props(s, 1);
    let h = spec_sel_due(s, 0);
    let n = spec_sel_due(s, 1);
    assert forall|i: int, j: int| 0 <= i < j < (h + n).len() implies spec_priority_rank(
        (h + n)[i].priority,
    ) < spec_priority_rank((h + n)[j].priority) || (spec_priority_rank((h + n)[i].priority)
        == spec_priority_rank((h + n)[j].priority) && (h + n)[i].seq < (h + n)[j].seq) by {
        if j < h.len() {
            assert((h + n)[i] == h[i] && (h + n)[j] == h[j]);
        } else if i >= h.len() {
            assert((h + n)[i] == n[i - h.len()] && (h + n)[j] == n[j - h.len()]);
        } else {
            assert((h + n)[i] == h[i] && (h + n)[j] == n[j - h.len()]);
        }
    }
}

/// Two ticks of equal priority that are both due in one step fire in the
/// order they were scheduled: the earlier sequence number comes first in
/// the firing list.
pub proof fn lemma_tick_ordering(due: Seq<ScheduledTick>, i: int, j: int)
    requires
        spec_fire_ordered(due),
        0 <= i < due.len(),
        0 <= j < due.len(),
        i != j,
        due[i].priority == due[j].priority,
        due[i].seq < due[j].seq,
    ensures
        i < j,
{
    if j < i {
        assert(spec_priority_rank(due[j].priority) < spec_priority_rank(due[i].priority) || (
        spec_priority_rank(due[j].priority) == spec_priority_rank(due[i].priority) && due[j].seq
            < due[i].seq));
    }
}

impl TickScheduler {
    /// Well-formed: pending order is insertion order and every handed-out
    /// sequence number is below the next one.
    pub open spec fn wf(self) -> bool {
        spec_seqs_increasing(self.pending@) && spec_seqs_below(self.pending@, self.next_seq)
    }

    /// A scheduler with nothing pending.
    pub fn new() -> (r: TickScheduler)
        ensures
            r.wf(),
            r.pending@.len() == 0,
            r.next_seq == 0,
    {
        TickScheduler { pending: Vec::new(), next_seq: 0 }
    }

    /// Registers a pending tick. Each call creates an independent entry,
    /// even for a position already scheduled.
    pub fn schedule(&mut self, pos: BlockPos, block: BlockKind, delay: u32, priority: TickPriority)
        requires
            old(self).wf(),
            old(self).next_seq < u64::MAX,
        ensures
            final(self).wf(),
            final(self).pending@ == old(self).pending@.push(
                ScheduledTick { pos, block, delay, priority, seq: old(self).next_seq },
            ),
            final(self).next_seq == old(self).next_seq + 1,
    {
        let seq_no = self.next_seq;
        self.pending.push(ScheduledTick { pos, block, delay, priority, seq: seq_no });
        self.next_seq = seq_no + 1;
    }

    /// Advances one simulation step: decrements every pending delay, removes
    /// the entries that reach zero, and returns them in firing order (high
    /// priority first, insertion order within a priority).
    pub fn advance(&mut self) -> (due: Vec<ScheduledTick>)
        requires
            old(self).wf(),
        ensures
            final(self).wf(),
            final(self).next_seq == old(self).next_seq,
            final(self).pending@ == spec_sel_remaining(spec_dec(old(self).pending@)),
            due@ == spec_due(spec_dec(old(self).pending@)),
            spec_fire_ordered(due@),
    {
        let ghost orig = self.pending@;
        let n = self.pending.len();
        let mut dec: Vec<ScheduledTick> = Vec::new();
        let mut i: usize = 0;
        while i < n
            invariant
                n == orig.len(),
                self.pending@ == orig,
                self.wf(),
                i <= n,
                dec@.len() == i as int,
                forall|k: int| 0 <= k < i ==> dec@[k] == spec_dec_one(orig[k]),
            decreases n - i,
        {
            let t = self.pending[i];
            let nd: u32 = if t.delay > 0 {
                t.delay - 1
            } else {
                0
            };
            dec.push(
                ScheduledTick {
                    pos: t.pos,
                    block: t.block,
                    delay: nd,
                    priority: t.priority,
                    seq: t.seq,
                },
            );
            i += 1;
        }
        let ghost decs = spec_dec(orig);
        proof {
            assert(dec@ =~= decs);
            assert(spec_seqs_increasing(decs));
            assert(spec_seqs_below(decs, self.next_seq));
        }
        let mut due: Vec<ScheduledTick> = Vec::new();
        collect_rank(&dec, true, &mut due);
        proof {
            assert(due@ =~= spec_sel_due(decs, 0));
        }
        collect_rank(&dec, false, &mut due);
        proof {
            assert(due@ =~= spec_sel_due(decs, 0) + spec_sel_due(decs, 1));
        }
        let mut remaining: Vec<ScheduledTick> = Vec::new();
        let m = dec.len();
        let mut k: usize = 0;
        while k < m
            invariant
                m == decs.len(),
                dec@ == decs,
                k <= m,
                remaining@ == spec_sel_remaining(decs.subrange(0, k as int)),
            decreases m - k,
        {
            let t = dec[k];
            proof {
                assert(decs.subrange(0, k as int + 1).drop_last() =~= decs.subrange(0, k as int));
                assert(decs.subrange(0, k as int + 1).last() == decs[k as int]);
            }
            if t.delay > 0 {
                remaining.push(t);
            }
            k += 1;
        }
        proof {
            assert(decs.subrange(0, decs.len() as int) =~= decs);
            lemma_sel_remaining_props(decs, self.next_seq);
            lemma_due_ordered(decs);
        }
        self.pending = remaining;
        due
    }
}

/// Appends the due entries of one priority onto `out`, keeping list order.
fn collect_rank(dec: &Vec<ScheduledTick>, high: bool, out: &mut Vec<ScheduledTick>)
    ensures
        final(out)@ == old(out)@ + spec_sel_due(
            dec@,
            if high {
                0int
            } else {
                1int
            },
        ),
{
    let ghost rank: int = if high {
        0
    } else {
        1
    };
    let n = dec.len();
    let mut i: usize = 0;
    proof {
        assert(dec@.subrange(0, 0) =~= Seq::<ScheduledTick>::empty());
    }
    while i < n
        invariant
            n == dec@.len(),
            i <= n,
            out@ == old(out)@ + spec_sel_due(dec@.subrange(0, i as int), rank),
            rank == if high {
                0int
            } else {
                1int
            },
        decreases n - i,
    {
        let t = dec[i];
        proof {
            assert(dec@.subrange(0, i as int + 1).drop_last() =~= dec@.subrange(0, i as int));
            assert(dec@.subrange(0, i as int + 1).last() == dec@[i as int]);
        }
        let is_rank = match t.priority {
            TickPriority::High => high,
            TickPriority::Normal => !high,
        };
        if t.delay == 0 && is_rank {
            out.push(t);
        }
        i += 1;
    }
    proof {
        assert(dec@.subrange(0, dec@.len() as int) =~= dec@);
    }
}

} // verus!
