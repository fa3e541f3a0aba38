use pumpkin_core::commands::op::{op_execute, OpEntry, OpOutcome, OpTarget};
use pumpkin_core::commands::setblock::{setblock_execute, SetblockMode};
use pumpkin_core::commands::{ArgConsumer, CommandNode, ExecutorId};
use pumpkin_core::engine::{Engine, WorldEvent, FLAG_NOTIFY_ALL};
use pumpkin_core::geometry::{BlockPos, HorizontalFacing};
use pumpkin_core::scheduler::{TickPriority, TickScheduler};
use pumpkin_core::state::{encode_state, BlockKind, BlockProps, AIR_STATE};

fn at(x: i32, y: i32, z: i32) -> BlockPos {
    BlockPos { x, y, z }
}

fn stone() -> u32 {
    encode_state(BlockProps::Stone)
}

#[test]
fn unsupported_powered_rail_is_removed_on_neighbor_update() {
    let mut eng = Engine::new();
    eng.load_cell(at(0, 0, 0), stone());
    eng.load_cell(at(0, 1, 0), AIR_STATE);
    assert!(eng.place_block(BlockKind::PoweredRail, at(0, 1, 0), HorizontalFacing::East, false));
    assert_ne!(eng.state_at(at(0, 1, 0)), AIR_STATE);
    // The support below is broken; the notification reaches the rail, whose
    // placement is now invalid, so it removes itself.
    eng.break_block(at(0, 0, 0), FLAG_NOTIFY_ALL);
    assert_eq!(eng.state_at(at(0, 1, 0)), AIR_STATE);
    let removed = eng.events.iter().any(|e| {
        matches!(e, WorldEvent::BlockBreak { pos, .. } if *pos == at(0, 1, 0))
    });
    assert!(removed);
}

#[test]
fn propagation_terminates_over_a_rail_row() {
    let mut eng = Engine::new();
    for x in 0..4 {
        eng.load_cell(at(x, 0, 0), stone());
        eng.load_cell(at(x, 1, 0), AIR_STATE);
    }
    for x in 0..4 {
        assert!(eng.place_block(BlockKind::Rail, at(x, 1, 0), HorizontalFacing::East, false));
    }
    eng.break_block(at(2, 0, 0), FLAG_NOTIFY_ALL);
    assert_eq!(eng.state_at(at(2, 1, 0)), AIR_STATE);
    // The supported rails survive the chain.
    assert_ne!(eng.state_at(at(0, 1, 0)), AIR_STATE);
    assert_ne!(eng.state_at(at(1, 1, 0)), AIR_STATE);
    assert_ne!(eng.state_at(at(3, 1, 0)), AIR_STATE);
}

fn run_scripted_session(eng: &mut Engine) {
    for x in 0..3 {
        eng.load_cell(at(x, 0, 0), stone());
        eng.load_cell(at(x, 1, 0), AIR_STATE);
    }
    eng.place_block(BlockKind::Rail, at(0, 1, 0), HorizontalFacing::East, false);
    eng.place_block(BlockKind::PoweredRail, at(1, 1, 0), HorizontalFacing::East, false);
    eng.break_block(at(0, 0, 0), FLAG_NOTIFY_ALL);
    eng.step();
}

#[test]
fn identical_trigger_sequences_give_identical_final_state() {
    let mut first = Engine::new();
    let mut second = Engine::new();
    run_scripted_session(&mut first);
    run_scripted_session(&mut second);
    assert_eq!(first.world.cells, second.world.cells);
    assert_eq!(first.events, second.events);
    assert_eq!(first.scheduler.pending, second.scheduler.pending);
}

#[test]
fn equal_ticks_fire_in_schedule_order() {
    let mut sched = TickScheduler::new();
    sched.schedule(at(5, 0, 0), BlockKind::Cactus, 1, TickPriority::Normal);
    sched.schedule(at(9, 0, 0), BlockKind::Cactus, 1, TickPriority::Normal);
    let due = sched.advance();
    assert_eq!(due.len(), 2);
    assert_eq!(due[0].pos, at(5, 0, 0));
    assert_eq!(due[1].pos, at(9, 0, 0));
}

#[test]
fn high_priority_fires_before_normal_at_equal_delay() {
    let mut sched = TickScheduler::new();
    sched.schedule(at(1, 0, 0), BlockKind::Cactus, 1, TickPriority::Normal);
    sched.schedule(at(2, 0, 0), BlockKind::Cactus, 1, TickPriority::High);
    let due = sched.advance();
    assert_eq!(due.len(), 2);
    assert_eq!(due[0].pos, at(2, 0, 0));
    assert_eq!(due[1].pos, at(1, 0, 0));
}

#[test]
fn delays_count_down_across_steps() {
    let mut sched = TickScheduler::new();
    sched.schedule(at(1, 0, 0), BlockKind::Cactus, 2, TickPriority::Normal);
    assert!(sched.advance().is_empty());
    let due = sched.advance();
    assert_eq!(due.len(), 1);
    assert!(sched.pending.is_empty());
}

#[test]
fn setblock_keep_only_replaces_air() {
    let mut eng = Engine::new();
    eng.load_cell(at(0, 0, 0), stone());
    let ok = setblock_execute(&mut eng, at(0, 0, 0), encode_state(BlockProps::Sand),
        SetblockMode::Keep);
    assert!(!ok);
    assert_eq!(eng.state_at(at(0, 0, 0)), stone());
    eng.load_cell(at(0, 1, 0), AIR_STATE);
    let ok = setblock_execute(&mut eng, at(0, 1, 0), encode_state(BlockProps::Sand),
        SetblockMode::Keep);
    assert!(ok);
    assert_eq!(eng.state_at(at(0, 1, 0)), encode_state(BlockProps::Sand));
}

#[test]
fn setblock_destroy_breaks_then_installs() {
    let mut eng = Engine::new();
    eng.load_cell(at(0, 0, 0), stone());
    let ok = setblock_execute(&mut eng, at(0, 0, 0), encode_state(BlockProps::Sand),
        SetblockMode::Destroy);
    assert!(ok);
    assert_eq!(eng.state_at(at(0, 0, 0)), encode_state(BlockProps::Sand));
    assert!(matches!(eng.events[0], WorldEvent::BlockBreak { .. }));
    let installed = eng.events.iter().any(|e| {
        matches!(e, WorldEvent::StateChange { new_state, .. }
            if *new_state == encode_state(BlockProps::Sand))
    });
    assert!(installed);
}

#[test]
fn setblock_replace_overwrites() {
    let mut eng = Engine::new();
    eng.load_cell(at(0, 0, 0), stone());
    let ok = setblock_execute(&mut eng, at(0, 0, 0), encode_state(BlockProps::Water),
        SetblockMode::Replace);
    assert!(ok);
    assert_eq!(eng.state_at(at(0, 0, 0)), encode_state(BlockProps::Water));
}

#[test]
fn op_grants_and_updates_entries() {
    let mut ops: Vec<OpEntry> = vec![OpEntry { uuid: 7, level: 1, bypasses_player_limit: true }];
    let targets = vec![
        OpTarget { uuid: 7, current_level: 1 },
        OpTarget { uuid: 42, current_level: 0 },
    ];
    let outcomes = op_execute(&mut ops, &targets, 4, 4);
    assert_eq!(outcomes.len(), 2);
    assert_eq!(outcomes[0], OpOutcome::Granted { new_level: 4 });
    assert_eq!(outcomes[1], OpOutcome::Granted { new_level: 4 });
    assert_eq!(ops.len(), 2);
    assert_eq!(ops[0], OpEntry { uuid: 7, level: 4, bypasses_player_limit: true });
    assert_eq!(ops[1], OpEntry { uuid: 42, level: 4, bypasses_player_limit: false });
}

#[test]
fn op_fails_for_player_already_at_level() {
    let mut ops: Vec<OpEntry> = Vec::new();
    let targets = vec![OpTarget { uuid: 3, current_level: 2 }];
    let outcomes = op_execute(&mut ops, &targets, 4, 2);
    assert_eq!(outcomes, vec![OpOutcome::Failed]);
    assert!(ops.is_empty());
}

#[test]
fn op_level_is_capped_by_sender() {
    let mut ops: Vec<OpEntry> = Vec::new();
    let targets = vec![OpTarget { uuid: 3, current_level: 0 }];
    let outcomes = op_execute(&mut ops, &targets, 3, 4);
    assert_eq!(outcomes, vec![OpOutcome::Granted { new_level: 3 }]);
    assert_eq!(ops[0].level, 3);
}

#[test]
fn op_command_tree_shape() {
    let t = pumpkin_core::commands::op::init_command_tree();
    assert_eq!(t.names, vec!["op"]);
    assert_eq!(t.description, "Grants operator status to a player.");
    assert_eq!(t.children.len(), 1);
    match &t.children[0] {
        CommandNode::Argument { name, consumer, executes, children } => {
            assert_eq!(*name, "targets");
            assert_eq!(*consumer, ArgConsumer::Players);
            assert_eq!(*executes, Some(ExecutorId::Op));
            assert!(children.is_empty());
        },
        _ => panic!("expected an argument node"),
    }
}

#[test]
fn setblock_command_tree_shape() {
    let t = pumpkin_core::commands::setblock::init_command_tree();
    assert_eq!(t.names, vec!["setblock"]);
    assert_eq!(t.description, "Place a block.");
    match &t.children[0] {
        CommandNode::Argument { name, consumer, executes, children } => {
            assert_eq!(*name, "pos");
            assert_eq!(*consumer, ArgConsumer::BlockPosition);
            assert_eq!(*executes, None);
            match &children[0] {
                CommandNode::Argument { name, executes, children, .. } => {
                    assert_eq!(*name, "block");
                    assert_eq!(*executes, Some(ExecutorId::SetblockReplace));
                    let words: Vec<&str> = children
                        .iter()
                        .map(|c| match c {
                            CommandNode::Literal { word, .. } => *word,
                            _ => panic!("expected literal modes"),
                        })
                        .collect();
                    assert_eq!(words, vec!["replace", "destroy", "keep"]);
                },
                _ => panic!("expected the block argument"),
            }
        },
        _ => panic!("expected the position argument"),
    }
}
