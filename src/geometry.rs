use vstd::prelude::*;

verus! {

/// A point in the world, in thousandths of a world unit.
#[derive(Clone, Copy, Debug, PartialEq, Eq, Structural)]
pub struct Position {
    pub x: i64,
    pub y: i64,
}

/// A velocity, in thousandths of a world unit per second.
#[derive(Clone, Copy, Debug, PartialEq, Eq, Structural)]
pub struct Velocity {
    pub x: i64,
    pub y: i64,
}

impl Velocity {
    pub fn zero() -> (v: Velocity)
        ensures
            v.x == 0 && v.y == 0,
    {
        Velocity { x: 0, y: 0 }
    }
}

/// Which way the character looks; sprites facing left are mirrored.
#[derive(Clone, Copy, Debug, PartialEq, Eq, Structural)]
pub enum Facing {
    Left,
    Right,
}

/// Whether a sprite for this facing is drawn mirrored.
pub open spec fn flipped(facing: Facing) -> bool {
    facing == Facing::Left
}

pub fn flip_for(facing: Facing) -> (r: bool)
    ensures
        r == flipped(facing),
{
    match facing {
        Facing::Left => true,
        Facing::Right => false,
    }
}

/// What is drawn for an entity: a frame of the sprite sheet, maybe mirrored.
#[derive(Clone, Copy, Debug, PartialEq, Eq, Structural)]
pub struct Sprite {
    pub index: usize,
    pub flip_x: bool,
}

} // verus!
