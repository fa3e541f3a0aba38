use pumpkin_core::packets::{CKnownPacks, KnownPack};
use pumpkin_core::state::{
    decode_state, default_state_id, encode_state, is_air_state, is_liquid_state, is_rail_state,
    is_solid_state, kind_of_state, BlockKind, BlockProps, RailShape, StraightRailShape,
    AIR_STATE, MAX_CACTUS_AGE, STATE_COUNT,
};

#[test]
fn roundtrip_every_state_id() {
    for id in 0..STATE_COUNT {
        let props = decode_state(id).expect("every id below the count decodes");
        assert_eq!(encode_state(props), id);
    }
    assert!(decode_state(STATE_COUNT).is_none());
    assert!(decode_state(u32::MAX).is_none());
}

#[test]
fn roundtrip_specific_assignments() {
    let cases = [
        BlockProps::Air,
        BlockProps::Stone,
        BlockProps::Sand,
        BlockProps::Water,
        BlockProps::Lava,
        BlockProps::Cactus { age: 0 },
        BlockProps::Cactus { age: MAX_CACTUS_AGE },
        BlockProps::Rail { shape: RailShape::SouthEast, waterlogged: true },
        BlockProps::Rail { shape: RailShape::AscendingNorth, waterlogged: false },
        BlockProps::PoweredRail { shape: StraightRailShape::AscendingEast, waterlogged: true },
    ];
    for p in cases {
        assert_eq!(decode_state(encode_state(p)), Some(p));
    }
}

#[test]
fn state_classification() {
    assert!(is_air_state(AIR_STATE));
    assert!(is_solid_state(encode_state(BlockProps::Stone)));
    assert!(is_solid_state(encode_state(BlockProps::Sand)));
    assert!(!is_solid_state(encode_state(BlockProps::Water)));
    assert!(is_liquid_state(encode_state(BlockProps::Lava)));
    assert!(is_rail_state(encode_state(BlockProps::Rail {
        shape: RailShape::NorthSouth,
        waterlogged: false,
    })));
    assert!(!is_rail_state(encode_state(BlockProps::Cactus { age: 3 })));
    assert_eq!(kind_of_state(default_state_id(BlockKind::Cactus)), BlockKind::Cactus);
}

#[test]
fn block_names() {
    assert_eq!(BlockKind::Cactus.block_name(), "minecraft:cactus");
    assert_eq!(BlockKind::Rail.block_name(), "minecraft:rail");
    assert_eq!(BlockKind::PoweredRail.block_name(), "minecraft:powered_rail");
}

#[test]
fn empty_pack_list_is_one_zero_byte() {
    let packet = CKnownPacks::new(Vec::new());
    assert_eq!(packet.write(), vec![0u8]);
}

#[test]
fn single_pack_frame() {
    let pack = KnownPack {
        namespace: b"core".to_vec(),
        id: b"base".to_vec(),
        version: b"1.21".to_vec(),
    };
    let packet = CKnownPacks::new(vec![pack]);
    let mut expected: Vec<u8> = vec![1];
    expected.push(4);
    expected.extend_from_slice(b"core");
    expected.push(4);
    expected.extend_from_slice(b"base");
    expected.push(4);
    expected.extend_from_slice(b"1.21");
    assert_eq!(packet.write(), expected);
}

#[test]
fn long_string_gets_two_byte_varint() {
    let long_name = vec![b'x'; 130];
    let pack = KnownPack { namespace: long_name.clone(), id: Vec::new(), version: Vec::new() };
    let packet = CKnownPacks::new(vec![pack]);
    let out = packet.write();
    assert_eq!(out[0], 1);
    assert_eq!(out[1], 0x82);
    assert_eq!(out[2], 0x01);
    assert_eq!(&out[3..133], long_name.as_slice());
    assert_eq!(out[133], 0);
    assert_eq!(out[134], 0);
    assert_eq!(out.len(), 135);
}
