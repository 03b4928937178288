use vstd::prelude::*;

verus! {

/// Raw identity of a world object.
pub type ObjId = u128;

/// A room, by its coordinates on the world map.
#[derive(Clone, Copy, Debug, PartialEq, Eq, Structural, Hash)]
pub struct RoomName {
    pub x: i32,
    pub y: i32,
}

/// A tile inside a room.
#[derive(Clone, Copy, Debug, PartialEq, Eq, Structural, Hash)]
pub struct Position {
    pub room: RoomName,
    pub x: u32,
    pub y: u32,
}

pub open spec fn abs_diff(a: int, b: int) -> int {
    if a >= b {
        a - b
    } else {
        b - a
    }
}

/// Two tiles of the same room that lie at most `range` steps apart (diagonal steps count one).
pub open spec fn within_range(a: Position, b: Position, range: int) -> bool {
    &&& a.room == b.room
    &&& abs_diff(a.x as int, b.x as int) <= range
    &&& abs_diff(a.y as int, b.y as int) <= range
}

pub fn in_range_to(a: &Position, b: &Position, range: u32) -> (r: bool)
    ensures
        r == within_range(*a, *b, range as int),
{
    let dx: u32 = if a.x >= b.x { a.x - b.x } else { b.x - a.x };
    let dy: u32 = if a.y >= b.y { a.y - b.y } else { b.y - a.y };
    a.room == b.room && dx <= range && dy <= range
}

/// Squared straight-line distance between two rooms on the world map.
pub open spec fn room_distance_sq(a: RoomName, b: RoomName) -> int {
    (a.x - b.x) * (a.x - b.x) + (a.y - b.y) * (a.y - b.y)
}

pub fn room_distance_squared(a: RoomName, b: RoomName) -> (r: u128)
    ensures
        r == room_distance_sq(a, b),
{
    let dx: i128 = a.x as i128 - b.x as i128;
    let dy: i128 = a.y as i128 - b.y as i128;
    assert(dx * dx <= 0x1_0000_0000i128 * 0x1_0000_0000i128) by (nonlinear_arith)
        requires -0x1_0000_0000i128 <= dx <= 0x1_0000_0000i128;
    assert(dy * dy <= 0x1_0000_0000i128 * 0x1_0000_0000i128) by (nonlinear_arith)
        requires -0x1_0000_0000i128 <= dy <= 0x1_0000_0000i128;
    assert(dx * dx >= 0 && dy * dy >= 0) by (nonlinear_arith);
    (dx * dx + dy * dy) as u128
}

} // verus!
