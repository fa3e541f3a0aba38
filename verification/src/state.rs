//! Block types, their discrete property schemas, and the reversible encoding
//! of a property assignment into an opaque block state id.

use vstd::prelude::*;

verus! {

/// The block types the registry knows. Each carries an immutable identity
/// and a property schema; many state ids reference one type.
#[derive(Clone, Copy, PartialEq, Eq, Structural, Hash, Debug)]
pub enum BlockKind {
    Air,
    Stone,
    Sand,
    Water,
    Lava,
    Cactus,
    Rail,
    PoweredRail,
}

/// Local connectivity of a plain rail segment: straight along an axis,
/// ascending toward one horizontal direction, or curved between two axes.
#[derive(Clone, Copy, PartialEq, Eq, Structural, Hash, Debug)]
pub enum RailShape {
    NorthSouth,
    EastWest,
    AscendingEast,
    AscendingWest,
    AscendingNorth,
    AscendingSouth,
    SouthEast,
    SouthWest,
    NorthWest,
    NorthEast,
}

/// Connectivity of a powered rail segment, which can never curve.
#[derive(Clone, Copy, PartialEq, Eq, Structural, Hash, Debug)]
pub enum StraightRailShape {
    NorthSouth,
    EastWest,
    AscendingEast,
    AscendingWest,
    AscendingNorth,
    AscendingSouth,
}

/// A property assignment: a block type together with concrete values for
/// every property of its schema.
#[derive(Clone, Copy, PartialEq, Eq, Structural, Hash, Debug)]
pub enum BlockProps {
    Air,
    Stone,
    Sand,
    Water,
    Lava,
    Cactus { age: u8 },
    Rail { shape: RailShape, waterlogged: bool },
    PoweredRail { shape: StraightRailShape, waterlogged: bool },
}

/// Largest cactus age; a random tick never increments past it.
pub const MAX_CACTUS_AGE: u8 = 15;

/// State id of air; unloaded positions also read as this.
pub const AIR_STATE: u32 = 0;

pub open spec fn spec_rail_shape_index(s: RailShape) -> int {
    match s {
        RailShape::NorthSouth => 0,
        RailShape::EastWest => 1,
        RailShape::AscendingEast => 2,
        RailShape::AscendingWest => 3,
        RailShape::AscendingNorth => 4,
        RailShape::AscendingSouth => 5,
        RailShape::SouthEast => 6,
        RailShape::SouthWest => 7,
        RailShape::NorthWest => 8,
        RailShape::NorthEast => 9,
    }
}

pub open spec fn spec_rail_shape_of_index(i: int) -> RailShape {
    if i == 0 {
        RailShape::NorthSouth
    } else if i == 1 {
        RailShape::EastWest
    } else if i == 2 {
        RailShape::AscendingEast
    } else if i == 3 {
        RailShape::AscendingWest
    } else if i == 4 {
        RailShape::AscendingNorth
    } else if i == 5 {
        RailShape::AscendingSouth
    } else if i == 6 {
        RailShape::SouthEast
    } else if i == 7 {
        RailShape::SouthWest
    } else if i == 8 {
        RailShape::NorthWest
    } else {
        RailShape::NorthEast
    }
}

pub open spec fn spec_straight_shape_index(s: StraightRailShape) -> int {
    match s {
        StraightRailShape::NorthSouth => 0,
        StraightRailShape::EastWest => 1,
        StraightRailShape::AscendingEast => 2,
        StraightRailShape::AscendingWest => 3,
        StraightRailShape::AscendingNorth => 4,
        StraightRailShape::AscendingSouth => 5,
    }
}

pub open spec fn spec_straight_shape_of_index(i: int) -> StraightRailShape {
    if i == 0 {
        StraightRailShape::NorthSouth
    } else if i == 1 {
        StraightRailShape::EastWest
    } else if i == 2 {
        StraightRailShape::AscendingEast
    } else if i == 3 {
        StraightRailShape::AscendingWest
    } else if i == 4 {
        StraightRailShape::AscendingNorth
    } else {
        StraightRailShape::AscendingSouth
    }
}

/// A property assignment is valid when each property value lies inside its
/// schema's range.
pub open spec fn spec_props_valid(p: BlockProps) -> bool {
    match p {
        BlockProps::Cactus { age } => age <= MAX_CACTUS_AGE,
        _ => true,
    }
}

/// The id layout: the five single-state blocks first, then one id per cactus
/// age, then one per (shape, waterlogged) pair of each rail block.
pub open spec fn spec_encode(p: BlockProps) -> int {
    match p {
        BlockProps::Air => 0,
        BlockProps::Stone => 1,
        BlockProps::Sand => 2,
        BlockProps::Water => 3,
        BlockProps::Lava => 4,
        BlockProps::Cactus { age } => 5 + age,
        BlockProps::Rail { shape, waterlogged } => 21 + 2 * spec_rail_shape_index(shape) + (
        if waterlogged {
            1int
        } else {
            0int
        }),
        BlockProps::PoweredRail { shape, waterlogged } => 41 + 2 * spec_straight_shape_index(shape)
            + (if waterlogged {
            1int
        } else {
            0int
        }),
    }
}

/// Ids beyond the registry decode to nothing.
pub const STATE_COUNT: u32 = 53;

pub open spec fn spec_decode(id: int) -> Option<BlockProps> {
    if id == 0 {
        Some(BlockProps::Air)
    } else if id == 1 {
        Some(BlockProps::Stone)
    } else if id == 2 {
        Some(BlockProps::Sand)
    } else if id == 3 {
        Some(BlockProps::Water)
    } else if id == 4 {
        Some(BlockProps::Lava)
    } else if 5 <= id < 21 {
        Some(BlockProps::Cactus { age: (id - 5) as u8 })
    } else if 21 <= id < 41 {
        Some(
            BlockProps::Rail {
                shape: spec_rail_shape_of_index((id - 21) / 2),
                waterlogged: (id - 21) % 2 == 1,
            },
        )
    } else if 41 <= id < 53 {
        Some(
            BlockProps::PoweredRail {
                shape: spec_straight_shape_of_index((id - 41) / 2),
                waterlogged: (id - 41) % 2 == 1,
            },
        )
    } else {
        None
    }
}

/// The block type that owns a property assignment.
pub open spec fn spec_kind_of_props(p: BlockProps) -> BlockKind {
    match p {
        BlockProps::Air => BlockKind::Air,
        BlockProps::Stone => BlockKind::Stone,
        BlockProps::Sand => BlockKind::Sand,
        BlockProps::Water => BlockKind::Water,
        BlockProps::Lava => BlockKind::Lava,
        BlockProps::Cactus { .. } => BlockKind::Cactus,
        BlockProps::Rail { .. } => BlockKind::Rail,
        BlockProps::PoweredRail { .. } => BlockKind::PoweredRail,
    }
}

/// The block type an id belongs to; out-of-registry ids read as air.
pub open spec fn spec_kind_of_state(id: int) -> BlockKind {
    match spec_decode(id) {
        Some(p) => spec_kind_of_props(p),
        None => BlockKind::Air,
    }
}

/// Encodes a valid property assignment into its state id.
pub fn encode_state(p: BlockProps) -> (r: u32)
    requires
        spec_props_valid(p),
    ensures
        r as int == spec_encode(p),
        r < STATE_COUNT,
{
    match p {
        BlockProps::Air => 0,
        BlockProps::Stone => 1,
        BlockProps::Sand => 2,
        BlockProps::Water => 3,
        BlockProps::Lava => 4,
        BlockProps::Cactus { age } => 5 + age as u32,
        BlockProps::Rail { shape, waterlogged } => {
            let base: u32 = 21 + 2 * rail_shape_index(shape);
            if waterlogged {
                base + 1
            } else {
                base
            }
        },
        BlockProps::PoweredRail { shape, waterlogged } => {
            let base: u32 = 41 + 2 * straight_shape_index(shape);
            if waterlogged {
                base + 1
            } else {
                base
            }
        },
    }
}

/// Decodes a state id back into the property assignment it encodes.
pub fn decode_state(id: u32) -> (r: Option<BlockProps>)
    ensures
        r == spec_decode(id as int),
        r is Some ==> spec_props_valid(r->0),
{
    if id == 0 {
        Some(BlockProps::Air)
    } else if id == 1 {
        Some(BlockProps::Stone)
    } else if id == 2 {
        Some(BlockProps::Sand)
    } else if id == 3 {
        Some(BlockProps::Water)
    } else if id == 4 {
        Some(BlockProps::Lava)
    } else if id < 21 {
        Some(BlockProps::Cactus { age: (id - 5) as u8 })
    } else if id < 41 {
        let off: u32 = id - 21;
        Some(BlockProps::Rail { shape: rail_shape_of_index(off / 2), waterlogged: off % 2 == 1 })
    } else if id < 53 {
        let off: u32 = id - 41;
        Some(
            BlockProps::PoweredRail {
                shape: straight_shape_of_index(off / 2),
                waterlogged: off % 2 == 1,
            },
        )
    } else {
        None
    }
}

pub fn rail_shape_index(s: RailShape) -> (r: u32)
    ensures
        r as int == spec_rail_shape_index(s),
        r < 10,
{
    match s {
        RailShape::NorthSouth => 0,
        RailShape::EastWest => 1,
        RailShape::AscendingEast => 2,
        RailShape::AscendingWest => 3,
        RailShape::AscendingNorth => 4,
        RailShape::AscendingSouth => 5,
        RailShape::SouthEast => 6,
        RailShape::SouthWest => 7,
        RailShape::NorthWest => 8,
        RailShape::NorthEast => 9,
    }
}

pub fn rail_shape_of_index(i: u32) -> (r: RailShape)
    ensures
        r == spec_rail_shape_of_index(i as int),
{
    if i == 0 {
        RailShape::NorthSouth
    } else if i == 1 {
        RailShape::EastWest
    } else if i == 2 {
        RailShape::AscendingEast
    } else if i == 3 {
        RailShape::AscendingWest
    } else if i == 4 {
        RailShape::AscendingNorth
    } else if i == 5 {
        RailShape::AscendingSouth
    } else if i == 6 {
        RailShape::SouthEast
    } else if i == 7 {
        RailShape::SouthWest
    } else if i == 8 {
        RailShape::NorthWest
    } else {
        RailShape::NorthEast
    }
}

pub fn straight_shape_index(s: StraightRailShape) -> (r: u32)
    ensures
        r as int == spec_straight_shape_index(s),
        r < 6,
{
    match s {
        StraightRailShape::NorthSouth => 0,
        StraightRailShape::EastWest => 1,
        StraightRailShape::AscendingEast => 2,
        StraightRailShape::AscendingWest => 3,
        StraightRailShape::AscendingNorth => 4,
        StraightRailShape::AscendingSouth => 5,
    }
}

pub fn straight_shape_of_index(i: u32) -> (r: StraightRailShape)
    ensures
        r == spec_straight_shape_of_index(i as int),
{
    if i == 0 {
        StraightRailShape::NorthSouth
    } else if i == 1 {
        StraightRailShape::EastWest
    } else if i == 2 {
        StraightRailShape::AscendingEast
    } else if i == 3 {
        StraightRailShape::AscendingWest
    } else if i == 4 {
        StraightRailShape::AscendingNorth
    } else {
        StraightRailShape::AscendingSouth
    }
}

/// Encoding and decoding round-trip exactly: every valid property assignment
/// is recovered unchanged from its state id.
pub proof fn lemma_state_roundtrip(p: BlockProps)
    requires
        spec_props_valid(p),
    ensures
        spec_decode(spec_encode(p)) == Some(p),
{
}

/// State ids are canonical: two valid assignments with the same id are the
/// same assignment.
pub proof fn lemma_state_id_injective(p1: BlockProps, p2: BlockProps)
    requires
        spec_props_valid(p1),
        spec_props_valid(p2),
        spec_encode(p1) == spec_encode(p2),
    ensures
        p1 == p2,
{
    lemma_state_roundtrip(p1);
    lemma_state_roundtrip(p2);
}

/// The default state installed when no behavior computes one.
pub open spec fn spec_default_props(k: BlockKind) -> BlockProps {
    match k {
        BlockKind::Air => BlockProps::Air,
        BlockKind::Stone => BlockProps::Stone,
        BlockKind::Sand => BlockProps::Sand,
        BlockKind::Water => BlockProps::Water,
        BlockKind::Lava => BlockProps::Lava,
        BlockKind::Cactus => BlockProps::Cactus { age: 0 },
        BlockKind::Rail => BlockProps::Rail { shape: RailShape::NorthSouth, waterlogged: false },
        BlockKind::PoweredRail => BlockProps::PoweredRail {
            shape: StraightRailShape::NorthSouth,
            waterlogged: false,
        },
    }
}

/// The state id of a type's default property assignment.
pub fn default_state_id(k: BlockKind) -> (r: u32)
    ensures
        r as int == spec_encode(spec_default_props(k)),
{
    match k {
        BlockKind::Air => 0,
        BlockKind::Stone => 1,
        BlockKind::Sand => 2,
        BlockKind::Water => 3,
        BlockKind::Lava => 4,
        BlockKind::Cactus => 5,
        BlockKind::Rail => 21,
        BlockKind::PoweredRail => 41,
    }
}

/// The block type an id belongs to.
pub fn kind_of_state(id: u32) -> (r: BlockKind)
    ensures
        r == spec_kind_of_state(id as int),
{
    match decode_state(id) {
        Some(BlockProps::Air) => BlockKind::Air,
        Some(BlockProps::Stone) => BlockKind::Stone,
        Some(BlockProps::Sand) => BlockKind::Sand,
        Some(BlockProps::Water) => BlockKind::Water,
        Some(BlockProps::Lava) => BlockKind::Lava,
        Some(BlockProps::Cactus { .. }) => BlockKind::Cactus,
        Some(BlockProps::Rail { .. }) => BlockKind::Rail,
        Some(BlockProps::PoweredRail { .. }) => BlockKind::PoweredRail,
        None => BlockKind::Air,
    }
}

/// Whether a state reads as air (including out-of-registry ids).
pub open spec fn spec_is_air(id: int) -> bool {
    spec_kind_of_state(id) == BlockKind::Air
}

/// Whether a state is a full solid block that can carry rails or crowd a
/// cactus.
pub open spec fn spec_is_solid(id: int) -> bool {
    spec_kind_of_state(id) == BlockKind::Stone || spec_kind_of_state(id) == BlockKind::Sand
}

/// Whether a state is a liquid.
pub open spec fn spec_is_liquid(id: int) -> bool {
    spec_kind_of_state(id) == BlockKind::Water || spec_kind_of_state(id) == BlockKind::Lava
}

/// Whether a state belongs to one of the rail blocks.
pub open spec fn spec_is_rail(id: int) -> bool {
    spec_kind_of_state(id) == BlockKind::Rail || spec_kind_of_state(id) == BlockKind::PoweredRail
}

pub fn is_air_state(id: u32) -> (r: bool)
    ensures
        r == spec_is_air(id as int),
{
    let k = kind_of_state(id);
    k == BlockKind::Air
}

pub fn is_solid_state(id: u32) -> (r: bool)
    ensures
        r == spec_is_solid(id as int),
{
    let k = kind_of_state(id);
    k == BlockKind::Stone || k == BlockKind::Sand
}

pub fn is_liquid_state(id: u32) -> (r: bool)
    ensures
        r == spec_is_liquid(id as int),
{
    let k = kind_of_state(id);
    k == BlockKind::Water || k == BlockKind::Lava
}

pub fn is_rail_state(id: u32) -> (r: bool)
    ensures
        r == spec_is_rail(id as int),
{
    let k = kind_of_state(id);
    k == BlockKind::Rail || k == BlockKind::PoweredRail
}

impl BlockKind {
    /// The namespaced identity of this block type.
    pub fn block_name(self) -> (r: &'static str)
        ensures
            self == BlockKind::Cactus ==> r@ == "minecraft:cactus"@,
            self == BlockKind::Rail ==> r@ == "minecraft:rail"@,
            self == BlockKind::PoweredRail ==> r@ == "minecraft:powered_rail"@,
    {
        match self {
            BlockKind::Air => "minecraft:air",
            BlockKind::Stone => "minecraft:stone",
            BlockKind::Sand => "minecraft:sand",
            BlockKind::Water => "minecraft:water",
            BlockKind::Lava => "minecraft:lava",
            BlockKind::Cactus => "minecraft:cactus",
            BlockKind::Rail => "minecraft:rail",
            BlockKind::PoweredRail => "minecraft:powered_rail",
        }
    }
}

} // verus!
