//! The setblock command: installs a block state at a position, with a mode
//! deciding whether the old block is destroyed first, replaced silently, or
//! kept when the position is not air.

use vstd::prelude::*;

use crate::commands::{ArgConsumer, CommandNode, CommandTree, ExecutorId};
use crate::engine::{
    spec_break_chain, spec_chain_run, spec_set_block_chain, spec_set_chain_parts, Engine,
    WorldEvent, FLAG_NOTIFY_ALL,
};
use crate::geometry::BlockPos;
use crate::state::{is_air_state, spec_is_air};
use crate::world::spec_state_at;

verus! {

/// How the command treats the block already at the position.
#[derive(Clone, Copy, PartialEq, Eq, Structural, Debug)]
pub enum SetblockMode {
    /// Breaks the old block first, with particles and item drops.
    Destroy,
    /// Only replaces air.
    Keep,
    /// The default: replaces without particles.
    Replace,
}

/// Runs the setblock command against the engine. In `Keep` mode the command
/// fails, changing nothing, when the position does not read as air; in the
/// other modes it succeeds, and in `Destroy` mode a break request precedes
/// the installation.
pub fn setblock_execute(eng: &mut Engine, pos: BlockPos, block_state: u32, mode: SetblockMode) -> (
    success: bool)
    requires
        old(eng).wf(),
        pos.in_bounds(),
    ensures
        final(eng).wf(),
        old(eng).same_domain(*final(eng)),
        old(eng).events@.is_prefix_of(final(eng).events@),
        success == !(mode == SetblockMode::Keep && !spec_is_air(
            spec_state_at(old(eng).world.cells@, pos),
        )),
        !success ==> *final(eng) == *old(eng),
        success && old(eng).world.spec_loaded(pos) && mode != SetblockMode::Destroy
            ==> final(eng).events@[old(eng).events@.len() as int] == (WorldEvent::StateChange {
            pos,
            old_state: (spec_state_at(old(eng).world.cells@, pos)) as u32,
            new_state: block_state,
            flags: FLAG_NOTIFY_ALL,
        }),
        success && old(eng).world.spec_loaded(pos) && mode == SetblockMode::Destroy
            ==> final(eng).events@[old(eng).events@.len() as int] == (WorldEvent::BlockBreak {
            pos,
            cause: None,
            flags: FLAG_NOTIFY_ALL,
        }),
        success && mode != SetblockMode::Destroy ==> ({
            let fin = spec_chain_run(
                spec_set_block_chain(*old(eng), pos, block_state, FLAG_NOTIFY_ALL),
            );
            final(eng).world.cells@ == fin.cells && final(eng).scheduler.pending@ == fin.pending
                && final(eng).scheduler.next_seq == fin.next_seq && final(eng).events@
                == fin.events
        }),
        mode == SetblockMode::Destroy ==> ({
            let broken = spec_chain_run(spec_break_chain(*old(eng), pos, FLAG_NOTIFY_ALL));
            let fin = spec_chain_run(
                spec_set_chain_parts(
                    broken.cells,
                    broken.pending,
                    broken.next_seq,
                    broken.events,
                    pos,
                    block_state,
                    FLAG_NOTIFY_ALL,
                ),
            );
            final(eng).world.cells@ == fin.cells && final(eng).scheduler.pending@ == fin.pending
                && final(eng).scheduler.next_seq == fin.next_seq && final(eng).events@
                == fin.events
        }),
    {
    proof {
        assert(1u8 & 1u8 == 1u8) by (bit_vector);
    }
    match mode {
        SetblockMode::Destroy => {
            eng.break_block(pos, FLAG_NOTIFY_ALL);
            proof {
                let broken = spec_chain_run(spec_break_chain(*old(eng), pos, FLAG_NOTIFY_ALL));
                assert(spec_set_block_chain(*eng, pos, block_state, FLAG_NOTIFY_ALL)
                    =~= spec_set_chain_parts(
                    broken.cells,
                    broken.pending,
                    broken.next_seq,
                    broken.events,
                    pos,
                    block_state,
                    FLAG_NOTIFY_ALL,
                ));
            }
            eng.set_block_state(pos, block_state, FLAG_NOTIFY_ALL);
            true
        },
        SetblockMode::Replace => {
            eng.set_block_state(pos, block_state, FLAG_NOTIFY_ALL);
            true
        },
        SetblockMode::Keep => {
            if is_air_state(eng.state_at(pos)) {
                eng.set_block_state(pos, block_state, FLAG_NOTIFY_ALL);
                true
            } else {
                false
            }
        },
    }
}

/// Builds the setblock command's tree: a position argument, then a block
/// argument executing the default replace mode, with one literal child per
/// explicit mode.
pub fn init_command_tree() -> (t: CommandTree)
    ensures
        t.names@.len() == 1,
        t.names@[0]@ == "setblock"@,
        t.description@ == "Place a block."@,
        t.children@.len() == 1,
        (t.children@[0] matches CommandNode::Argument { name, consumer, executes, children }
            && name@ == "pos"@ && consumer == ArgConsumer::BlockPosition && executes is None
            && children@.len() == 1 && (children@[0] matches CommandNode::Argument {
            name: n2,
            consumer: c2,
            executes: e2,
            children: kids,
        } && n2@ == "block"@ && c2 == ArgConsumer::BlockName && e2 == Some(
            ExecutorId::SetblockReplace,
        ) && kids@.len() == 3 && (kids@[0] matches CommandNode::Literal {
            word: w0,
            executes: x0,
            children: k0,
        } && w0@ == "replace"@ && x0 == Some(ExecutorId::SetblockReplace) && k0@.len() == 0) && (
        kids@[1] matches CommandNode::Literal { word: w1, executes: x1, children: k1 } && w1@
            == "destroy"@ && x1 == Some(ExecutorId::SetblockDestroy) && k1@.len() == 0) && (
        kids@[2] matches CommandNode::Literal { word: w2, executes: x2, children: k2 } && w2@
            == "keep"@ && x2 == Some(ExecutorId::SetblockKeep) && k2@.len() == 0))),
{
    let mut names: Vec<&'static str> = Vec::new();
    names.push("setblock");
    let mut mode_children: Vec<CommandNode> = Vec::new();
    mode_children.push(
        CommandNode::Literal {
            word: "replace",
            executes: Some(ExecutorId::SetblockReplace),
            children: Vec::new(),
        },
    );
    mode_children.push(
        CommandNode::Literal {
            word: "destroy",
            executes: Some(ExecutorId::SetblockDestroy),
            children: Vec::new(),
        },
    );
    mode_children.push(
        CommandNode::Literal {
            word: "keep",
            executes: Some(ExecutorId::SetblockKeep),
            children: Vec::new(),
        },
    );
    let block_node = CommandNode::Argument {
        name: "block",
        consumer: ArgConsumer::BlockName,
        executes: Some(ExecutorId::SetblockReplace),
        children: mode_children,
    };
    let mut pos_children: Vec<CommandNode> = Vec::new();
    pos_children.push(block_node);
    let mut children: Vec<CommandNode> = Vec::new();
    children.push(
        CommandNode::Argument {
            name: "pos",
            consumer: ArgConsumer::BlockPosition,
            executes: None,
            children: pos_children,
        },
    );
    CommandTree { names, description: "Place a block.", children }
}

} // verus!
