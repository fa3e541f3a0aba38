//! The command tree model: the declarative shape of a command's arguments
//! and the executor each path dispatches to. The host parses input against
//! this tree and hands the consumed arguments to the executors as plain
//! values.

use vstd::prelude::*;

pub mod op;
pub mod setblock;

verus! {

/// The argument consumers the commands here use.
#[derive(Clone, Copy, PartialEq, Eq, Structural, Debug)]
pub enum ArgConsumer {
    Players,
    BlockName,
    BlockPosition,
}

/// The executors a tree node can dispatch to.
#[derive(Clone, Copy, PartialEq, Eq, Structural, Debug)]
pub enum ExecutorId {
    Op,
    SetblockReplace,
    SetblockDestroy,
    SetblockKeep,
}

/// One node of a command tree: a fixed literal word or a consumed argument,
/// each optionally executable and with further nodes below it.
#[derive(Debug)]
pub enum CommandNode {
    Literal { word: &'static str, executes: Option<ExecutorId>, children: Vec<CommandNode> },
    Argument {
        name: &'static str,
        consumer: ArgConsumer,
        executes: Option<ExecutorId>,
        children: Vec<CommandNode>,
    },
}

/// A command: its names, its description, and the argument tree below it.
#[derive(Debug)]
pub struct CommandTree {
    pub names: Vec<&'static str>,
    pub description: &'static str,
    pub children: Vec<CommandNode>,
}

} // verus!
