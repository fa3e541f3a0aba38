//! The operator-grant command: raises each target player's permission level
//! to the lesser of the configured cap and the sender's own level, updating
//! the operator list entry for the player or appending a new one.

use vstd::prelude::*;

use crate::commands::{ArgConsumer, CommandNode, CommandTree, ExecutorId};

verus! {

/// One entry of the operator configuration.
#[derive(Clone, Copy, PartialEq, Eq, Structural, Debug)]
pub struct OpEntry {
    pub uuid: u128,
    pub level: u8,
    pub bypasses_player_limit: bool,
}

/// What the executor needs to know of one target player.
#[derive(Clone, Copy, PartialEq, Eq, Structural, Debug)]
pub struct OpTarget {
    pub uuid: u128,
    pub current_level: u8,
}

/// The per-target outcome the host turns into a chat message.
#[derive(Clone, Copy, PartialEq, Eq, Structural, Debug)]
pub enum OpOutcome {
    Failed,
    Granted { new_level: u8 },
}

/// The level granted: the configured cap, or the sender's own level when
/// that is lower.
pub open spec fn spec_granted_level(cap_level: u8, sender_level: u8) -> u8 {
    if cap_level <= sender_level {
        cap_level
    } else {
        sender_level
    }
}

/// Updates the first entry with the given uuid to the new level, keeping
/// its other fields; appends a fresh entry when none exists.
pub open spec fn spec_upsert(ops: Seq<OpEntry>, uuid: u128, level: u8) -> Seq<OpEntry>
    decreases ops.len(),
{
    if ops.len() == 0 {
        seq![OpEntry { uuid, level, bypasses_player_limit: false }]
    } else if ops[0].uuid == uuid {
        ops.update(
            0,
            OpEntry { uuid, level, bypasses_player_limit: ops[0].bypasses_player_limit },
        )
    } else {
        seq![ops[0]] + spec_upsert(ops.drop_first(), uuid, level)
    }
}

/// One target's outcome: a player already at the granted level fails (no
/// change); otherwise the operator list is updated for them.
pub open spec fn spec_op_step(ops: Seq<OpEntry>, t: OpTarget, level: u8) -> (Seq<OpEntry>, OpOutcome) {
    if t.current_level == level {
        (ops, OpOutcome::Failed)
    } else {
        (spec_upsert(ops, t.uuid, level), OpOutcome::Granted { new_level: level })
    }
}

/// The whole run: targets are processed in order, each against the list as
/// the previous targets left it.
pub open spec fn spec_op_run(ops: Seq<OpEntry>, targets: Seq<OpTarget>, level: u8) -> (
    Seq<OpEntry>,
    Seq<OpOutcome>,
)
    decreases targets.len(),
{
    if targets.len() == 0 {
        (ops, Seq::empty())
    } else {
        let prev = spec_op_run(ops, targets.drop_last(), level);
        let st = spec_op_step(prev.0, targets.last(), level);
        (st.0, prev.1.push(st.1))
    }
}

proof fn lemma_upsert_found(ops: Seq<OpEntry>, uuid: u128, level: u8, i: int)
    requires
        0 <= i < ops.len(),
        ops[i].uuid == uuid,
        forall|k: int| 0 <= k < i ==> ops[k].uuid != uuid,
    ensures
        spec_upsert(ops, uuid, level) == ops.update(
            i,
            OpEntry { uuid, level, bypasses_player_limit: ops[i].bypasses_player_limit },
        ),
    decreases i,
{
    if i == 0 {
    } else {
        let rest = ops.drop_first();
        lemma_upsert_found(rest, uuid, level, i - 1);
        assert(seq![ops[0]] + rest.update(
            i - 1,
            OpEntry { uuid, level, bypasses_player_limit: ops[i].bypasses_player_limit },
        ) =~= ops.update(
            i,
            OpEntry { uuid, level, bypasses_player_limit: ops[i].bypasses_player_limit },
        ));
    }
}

proof fn lemma_upsert_absent(ops: Seq<OpEntry>, uuid: u128, level: u8)
    requires
        forall|k: int| 0 <= k < ops.len() ==> ops[k].uuid != uuid,
    ensures
        spec_upsert(ops, uuid, level) == ops.push(
            OpEntry { uuid, level, bypasses_player_limit: false },
        ),
    decreases ops.len(),
{
    if ops.len() == 0 {
        assert(spec_upsert(ops, uuid, level) =~= ops.push(
            OpEntry { uuid, level, bypasses_player_limit: false },
        ));
    } else {
        let rest = ops.drop_first();
        lemma_upsert_absent(rest, uuid, level);
        assert(seq![ops[0]] + rest.push(OpEntry { uuid, level, bypasses_player_limit: false })
            =~= ops.push(OpEntry { uuid, level, bypasses_player_limit: false }));
    }
}

/// Updates or appends the operator entry for one player.
fn upsert_entry(ops: &mut Vec<OpEntry>, uuid: u128, level: u8)
    ensures
        final(ops)@ == spec_upsert(old(ops)@, uuid, level),
{
    let n = ops.len();
    let mut i: usize = 0;
    while i < n
        invariant
            n == ops@.len(),
            i <= n,
            ops@ == old(ops)@,
            forall|k: int| 0 <= k < i ==> ops@[k].uuid != uuid,
        decreases n - i,
    {
        if ops[i].uuid == uuid {
            let bypass = ops[i].bypasses_player_limit;
            ops[i] = OpEntry { uuid, level, bypasses_player_limit: bypass };
            proof {
                lemma_upsert_found(old(ops)@, uuid, level, i as int);
            }
            return ;
        }
        i += 1;
    }
    ops.push(OpEntry { uuid, level, bypasses_player_limit: false });
    proof {
        lemma_upsert_absent(old(ops)@, uuid, level);
    }
}

/// Runs the operator grant over the targets in order. The host supplies the
/// current operator list, the sender's permission level and the configured
/// cap; it gets back the per-target outcomes to report, and persists the
/// updated list.
pub fn op_execute(
    ops: &mut Vec<OpEntry>,
    targets: &Vec<OpTarget>,
    sender_level: u8,
    cap_level: u8,
) -> (outcomes: Vec<OpOutcome>)
    ensures
        final(ops)@ == spec_op_run(
            old(ops)@,
            targets@,
            spec_granted_level(cap_level, sender_level),
        ).0,
        outcomes@ == spec_op_run(
            old(ops)@,
            targets@,
            spec_granted_level(cap_level, sender_level),
        ).1,
{
    let level: u8 = if cap_level <= sender_level {
        cap_level
    } else {
        sender_level
    };
    let mut outcomes: Vec<OpOutcome> = Vec::new();
    let n = targets.len();
    let mut i: usize = 0;
    proof {
        assert(targets@.subrange(0, 0) =~= Seq::<OpTarget>::empty());
    }
    while i < n
        invariant
            n == targets@.len(),
            i <= n,
            level == spec_granted_level(cap_level, sender_level),
            ops@ == spec_op_run(old(ops)@, targets@.subrange(0, i as int), level).0,
            outcomes@ == spec_op_run(old(ops)@, targets@.subrange(0, i as int), level).1,
        decreases n - i,
    {
        let t = targets[i];
        proof {
            assert(targets@.subrange(0, i as int + 1).drop_last() =~= targets@.subrange(
                0,
                i as int,
            ));
            assert(targets@.subrange(0, i as int + 1).last() == targets@[i as int]);
        }
        if t.current_level == level {
            outcomes.push(OpOutcome::Failed);
        } else {
            upsert_entry(ops, t.uuid, level);
            outcomes.push(OpOutcome::Granted { new_level: level });
        }
        i += 1;
    }
    proof {
        assert(targets@.subrange(0, n as int) =~= targets@);
    }
    outcomes
}

/// Builds the operator command's tree: one player-selector argument that
/// dispatches to the operator-grant executor.
pub fn init_command_tree() -> (t: CommandTree)
    ensures
        t.names@.len() == 1,
        t.names@[0]@ == "op"@,
        t.description@ == "Grants operator status to a player."@,
        t.children@.len() == 1,
        (t.children@[0] matches CommandNode::Argument { name, consumer, executes, children } && name@
            == "targets"@ && consumer == ArgConsumer::Players && executes == Some(ExecutorId::Op)
            && children@.len() == 0),
{
    let mut names: Vec<&'static str> = Vec::new();
    names.push("op");
    let mut children: Vec<CommandNode> = Vec::new();
    children.push(
        CommandNode::Argument {
            name: "targets",
            consumer: ArgConsumer::Players,
            executes: Some(ExecutorId::Op),
            children: Vec::new(),
        },
    );
    CommandTree { names, description: "Grants operator status to a player.", children }
}

} // verus!
