use pumpkin_core::engine::Engine;
use pumpkin_core::geometry::{BlockPos, HorizontalFacing};
use pumpkin_core::rail::{compute_rail_shape, RailElevation};
use pumpkin_core::state::{
    decode_state, encode_state, BlockKind, BlockProps, RailShape, AIR_STATE, MAX_CACTUS_AGE,
};

fn at(x: i32, y: i32, z: i32) -> BlockPos {
    BlockPos { x, y, z }
}

fn stone() -> u32 {
    encode_state(BlockProps::Stone)
}

fn sand() -> u32 {
    encode_state(BlockProps::Sand)
}

fn plain_rail(shape: RailShape) -> u32 {
    encode_state(BlockProps::Rail { shape, waterlogged: false })
}

#[test]
fn rail_with_east_and_south_neighbors_curves_south_east() {
    let mut eng = Engine::new();
    for (x, z) in [(0, 0), (1, 0), (0, 1)] {
        eng.load_cell(at(x, 0, z), stone());
    }
    eng.load_cell(at(1, 1, 0), plain_rail(RailShape::NorthSouth));
    eng.load_cell(at(0, 1, 1), plain_rail(RailShape::NorthSouth));
    eng.load_cell(at(0, 1, 0), AIR_STATE);
    let placed = eng.place_block(BlockKind::Rail, at(0, 1, 0), HorizontalFacing::North, false);
    assert!(placed);
    let got = decode_state(eng.state_at(at(0, 1, 0)));
    assert_eq!(got, Some(BlockProps::Rail { shape: RailShape::SouthEast, waterlogged: false }));
}

#[test]
fn rail_with_only_elevated_north_neighbor_ascends_north() {
    let mut eng = Engine::new();
    eng.load_cell(at(0, 0, 0), stone());
    eng.load_cell(at(0, 1, -1), stone());
    eng.load_cell(at(0, 0, -1), stone());
    eng.load_cell(at(0, 2, -1), plain_rail(RailShape::NorthSouth));
    eng.load_cell(at(0, 1, 0), AIR_STATE);
    let placed = eng.place_block(BlockKind::Rail, at(0, 1, 0), HorizontalFacing::East, false);
    assert!(placed);
    let got = decode_state(eng.state_at(at(0, 1, 0)));
    assert_eq!(
        got,
        Some(BlockProps::Rail { shape: RailShape::AscendingNorth, waterlogged: false })
    );
}

#[test]
fn rail_with_no_neighbors_follows_actor_facing() {
    let mut eng = Engine::new();
    eng.load_cell(at(0, 0, 0), stone());
    eng.load_cell(at(0, 1, 0), AIR_STATE);
    let placed = eng.place_block(BlockKind::Rail, at(0, 1, 0), HorizontalFacing::East, false);
    assert!(placed);
    let got = decode_state(eng.state_at(at(0, 1, 0)));
    assert_eq!(got, Some(BlockProps::Rail { shape: RailShape::EastWest, waterlogged: false }));
}

#[test]
fn rail_decision_table_concrete_rows() {
    let east = Some(RailElevation::Flat);
    let south = Some(RailElevation::Flat);
    let none: Option<RailElevation> = None;
    assert_eq!(
        compute_rail_shape(east, south, none, none, HorizontalFacing::North),
        RailShape::SouthEast
    );
    assert_eq!(
        compute_rail_shape(none, none, none, Some(RailElevation::Up), HorizontalFacing::East),
        RailShape::AscendingNorth
    );
    assert_eq!(
        compute_rail_shape(none, none, none, none, HorizontalFacing::East),
        RailShape::EastWest
    );
    assert_eq!(
        compute_rail_shape(east, none, Some(RailElevation::Up), none, HorizontalFacing::North),
        RailShape::AscendingWest
    );
    assert_eq!(
        compute_rail_shape(none, south, Some(RailElevation::Flat), none, HorizontalFacing::North),
        RailShape::SouthWest
    );
}

#[test]
fn rail_placement_refused_without_support() {
    let mut eng = Engine::new();
    eng.load_cell(at(0, 1, 0), AIR_STATE);
    let placed = eng.place_block(BlockKind::Rail, at(0, 1, 0), HorizontalFacing::East, false);
    assert!(!placed);
    assert_eq!(eng.state_at(at(0, 1, 0)), AIR_STATE);
    assert!(eng.events.is_empty());
}

#[test]
fn cactus_at_max_age_grows_one_above_and_resets() {
    let mut eng = Engine::new();
    eng.load_cell(at(0, 0, 0), sand());
    eng.load_cell(at(0, 1, 0), encode_state(BlockProps::Cactus { age: MAX_CACTUS_AGE }));
    eng.load_cell(at(0, 2, 0), AIR_STATE);
    eng.random_tick(at(0, 1, 0));
    assert_eq!(
        decode_state(eng.state_at(at(0, 2, 0))),
        Some(BlockProps::Cactus { age: 0 })
    );
    assert_eq!(
        decode_state(eng.state_at(at(0, 1, 0))),
        Some(BlockProps::Cactus { age: 0 })
    );
}

#[test]
fn cactus_below_max_age_just_ages() {
    let mut eng = Engine::new();
    eng.load_cell(at(0, 0, 0), sand());
    eng.load_cell(at(0, 1, 0), encode_state(BlockProps::Cactus { age: 7 }));
    eng.load_cell(at(0, 2, 0), AIR_STATE);
    eng.random_tick(at(0, 1, 0));
    assert_eq!(
        decode_state(eng.state_at(at(0, 1, 0))),
        Some(BlockProps::Cactus { age: 8 })
    );
    assert_eq!(eng.state_at(at(0, 2, 0)), AIR_STATE);
}

#[test]
fn cactus_with_blocked_top_does_not_grow() {
    let mut eng = Engine::new();
    eng.load_cell(at(0, 0, 0), sand());
    eng.load_cell(at(0, 1, 0), encode_state(BlockProps::Cactus { age: MAX_CACTUS_AGE }));
    eng.load_cell(at(0, 2, 0), stone());
    eng.random_tick(at(0, 1, 0));
    assert_eq!(
        decode_state(eng.state_at(at(0, 1, 0))),
        Some(BlockProps::Cactus { age: MAX_CACTUS_AGE })
    );
    assert_eq!(eng.state_at(at(0, 2, 0)), stone());
}

#[test]
fn crowded_cactus_breaks_on_its_scheduled_tick() {
    let mut eng = Engine::new();
    eng.load_cell(at(0, 0, 0), sand());
    eng.load_cell(at(0, 1, 0), encode_state(BlockProps::Cactus { age: 2 }));
    // A solid block appears right next to the cactus.
    eng.load_cell(at(1, 1, 0), stone());
    eng.on_neighbor_update(at(0, 1, 0), at(1, 1, 0));
    assert_eq!(eng.scheduler.pending.len(), 1);
    eng.step();
    assert_eq!(eng.state_at(at(0, 1, 0)), AIR_STATE);
    assert_eq!(eng.scheduler.pending.len(), 0);
}

#[test]
fn ages_never_exceed_the_maximum() {
    let mut eng = Engine::new();
    eng.load_cell(at(0, 0, 0), sand());
    eng.load_cell(at(0, 1, 0), encode_state(BlockProps::Cactus { age: 14 }));
    eng.load_cell(at(0, 2, 0), AIR_STATE);
    for _ in 0..5 {
        eng.random_tick(at(0, 1, 0));
        for y in [1, 2] {
            if let Some(BlockProps::Cactus { age }) = decode_state(eng.state_at(at(0, y, 0))) {
                assert!(age <= MAX_CACTUS_AGE);
            }
        }
    }
}
