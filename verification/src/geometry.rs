//! Integer 3D coordinates and the fixed neighbor directions of the world.

use vstd::prelude::*;

verus! {

/// Coordinates are kept well inside `i32` so that stepping one block in any
/// direction can never overflow.
pub const COORD_LIMIT: i32 = 1000000000;

/// A block position: integer (x, y, z) coordinates, used as a key into the
/// world grid.
#[derive(Clone, Copy, PartialEq, Eq, Structural, Hash, Debug)]
pub struct BlockPos {
    pub x: i32,
    pub y: i32,
    pub z: i32,
}

/// The six neighbor directions, in the fixed deterministic order in which
/// neighbor notifications fan out.
#[derive(Clone, Copy, PartialEq, Eq, Structural, Hash, Debug)]
pub enum Direction {
    Down,
    Up,
    North,
    South,
    West,
    East,
}

/// The four horizontal facings an actor can have; used only as a placement
/// tie-break.
#[derive(Clone, Copy, PartialEq, Eq, Structural, Hash, Debug)]
pub enum HorizontalFacing {
    North,
    South,
    West,
    East,
}

/// Change of x when stepping one block in direction `d`.
pub open spec fn dir_dx(d: Direction) -> int {
    match d {
        Direction::West => -1,
        Direction::East => 1,
        _ => 0,
    }
}

/// Change of y when stepping one block in direction `d`.
pub open spec fn dir_dy(d: Direction) -> int {
    match d {
        Direction::Down => -1,
        Direction::Up => 1,
        _ => 0,
    }
}

/// Change of z when stepping one block in direction `d`.
pub open spec fn dir_dz(d: Direction) -> int {
    match d {
        Direction::North => -1,
        Direction::South => 1,
        _ => 0,
    }
}

/// Index of a direction inside the fixed fan-out order; used to key the
/// per-step visited set of the propagator.
pub open spec fn spec_dir_index(d: Direction) -> int {
    match d {
        Direction::Down => 0,
        Direction::Up => 1,
        Direction::North => 2,
        Direction::South => 3,
        Direction::West => 4,
        Direction::East => 5,
    }
}

impl BlockPos {
    /// True when every coordinate is within the safe band, so that any single
    /// step stays within `i32`.
    pub open spec fn in_bounds(self) -> bool {
        -COORD_LIMIT <= self.x <= COORD_LIMIT && -COORD_LIMIT <= self.y <= COORD_LIMIT
            && -COORD_LIMIT <= self.z <= COORD_LIMIT
    }

    /// A wider band with a few blocks of slack, so that a short chain of
    /// steps away from an in-bounds position can still be taken.
    pub open spec fn offset_safe(self) -> bool {
        -(COORD_LIMIT + 8) <= self.x <= COORD_LIMIT + 8 && -(COORD_LIMIT + 8) <= self.y
            <= COORD_LIMIT + 8 && -(COORD_LIMIT + 8) <= self.z <= COORD_LIMIT + 8
    }

    /// Checks that every coordinate lies within the safe band.
    pub fn is_in_bounds(self) -> (r: bool)
        ensures
            r == self.in_bounds(),
    {
        -COORD_LIMIT <= self.x && self.x <= COORD_LIMIT && -COORD_LIMIT <= self.y && self.y
            <= COORD_LIMIT && -COORD_LIMIT <= self.z && self.z <= COORD_LIMIT
    }

    /// The position one step away in direction `d`.
    pub open spec fn spec_offset(self, d: Direction) -> BlockPos {
        BlockPos {
            x: (self.x + dir_dx(d)) as i32,
            y: (self.y + dir_dy(d)) as i32,
            z: (self.z + dir_dz(d)) as i32,
        }
    }

    /// Steps one block in direction `d`.
    pub fn offset(self, d: Direction) -> (r: BlockPos)
        requires
            self.offset_safe(),
        ensures
            r == self.spec_offset(d),
            r.x as int == self.x + dir_dx(d),
            r.y as int == self.y + dir_dy(d),
            r.z as int == self.z + dir_dz(d),
    {
        match d {
            Direction::Down => BlockPos { x: self.x, y: self.y - 1, z: self.z },
            Direction::Up => BlockPos { x: self.x, y: self.y + 1, z: self.z },
            Direction::North => BlockPos { x: self.x, y: self.y, z: self.z - 1 },
            Direction::South => BlockPos { x: self.x, y: self.y, z: self.z + 1 },
            Direction::West => BlockPos { x: self.x - 1, y: self.y, z: self.z },
            Direction::East => BlockPos { x: self.x + 1, y: self.y, z: self.z },
        }
    }

    /// The position directly above.
    pub fn up(self) -> (r: BlockPos)
        requires
            self.offset_safe(),
        ensures
            r == self.spec_offset(Direction::Up),
    {
        self.offset(Direction::Up)
    }

    /// The position directly below.
    pub fn down(self) -> (r: BlockPos)
        requires
            self.offset_safe(),
        ensures
            r == self.spec_offset(Direction::Down),
    {
        self.offset(Direction::Down)
    }
}

impl Direction {
    /// The direction pointing the opposite way.
    pub open spec fn spec_opposite(self) -> Direction {
        match self {
            Direction::Down => Direction::Up,
            Direction::Up => Direction::Down,
            Direction::North => Direction::South,
            Direction::South => Direction::North,
            Direction::West => Direction::East,
            Direction::East => Direction::West,
        }
    }

    /// Returns the opposite direction.
    pub fn opposite(self) -> (r: Direction)
        ensures
            r == self.spec_opposite(),
    {
        match self {
            Direction::Down => Direction::Up,
            Direction::Up => Direction::Down,
            Direction::North => Direction::South,
            Direction::South => Direction::North,
            Direction::West => Direction::East,
            Direction::East => Direction::West,
        }
    }

    /// Index of this direction inside the fixed fan-out order.
    pub fn index(self) -> (r: usize)
        ensures
            r as int == spec_dir_index(self),
            r < 6,
    {
        match self {
            Direction::Down => 0,
            Direction::Up => 1,
            Direction::North => 2,
            Direction::South => 3,
            Direction::West => 4,
            Direction::East => 5,
        }
    }

    /// The direction matching a horizontal facing.
    pub fn from_facing(f: HorizontalFacing) -> (r: Direction)
        ensures
            r == facing_direction(f),
    {
        match f {
            HorizontalFacing::North => Direction::North,
            HorizontalFacing::South => Direction::South,
            HorizontalFacing::West => Direction::West,
            HorizontalFacing::East => Direction::East,
        }
    }
}

/// The direction matching a horizontal facing.
pub open spec fn facing_direction(f: HorizontalFacing) -> Direction {
    match f {
        HorizontalFacing::North => Direction::North,
        HorizontalFacing::South => Direction::South,
        HorizontalFacing::West => Direction::West,
        HorizontalFacing::East => Direction::East,
    }
}

} // verus!
