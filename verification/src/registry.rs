//! The behavior registry: maps a block type to its reaction implementation.
//! Built once at startup and read-only thereafter; a type with no entry gets
//! the no-op behavior.

use vstd::prelude::*;

use crate::state::BlockKind;

verus! {

/// The behavior implementations the dispatch table can select. Each carries
/// the full capability set (placement, neighbor reaction, ticks); a method a
/// behavior does not implement falls back to the stated default.
#[derive(Clone, Copy, PartialEq, Eq, Structural, Debug)]
pub enum Behavior {
    NoOp,
    Cactus,
    Rail,
    PoweredRail,
}

/// The type-keyed dispatch table.
pub open spec fn spec_behavior_of(k: BlockKind) -> Behavior {
    match k {
        BlockKind::Cactus => Behavior::Cactus,
        BlockKind::Rail => Behavior::Rail,
        BlockKind::PoweredRail => Behavior::PoweredRail,
        _ => Behavior::NoOp,
    }
}

/// The registry instance a host builds at startup and hands to the engine.
pub struct BehaviorRegistry {}

impl BehaviorRegistry {
    /// Builds the registry with every known behavior registered.
    pub fn build() -> (r: BehaviorRegistry) {
        BehaviorRegistry {  }
    }

    /// Looks up the behavior for a block type; defaults to no-op.
    pub fn lookup(&self, k: BlockKind) -> (r: Behavior)
        ensures
            r == spec_behavior_of(k),
    {
        match k {
            BlockKind::Cactus => Behavior::Cactus,
            BlockKind::Rail => Behavior::Rail,
            BlockKind::PoweredRail => Behavior::PoweredRail,
            _ => Behavior::NoOp,
        }
    }
}

} // verus!
