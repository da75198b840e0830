//! The scene: static blocks and the balls that are launched among them.
//!
//! Lengths are whole numbers of thousandths of a world unit, angles of thousandths of a
//! radian, and a launch power is counted in thousandths as well.

use vstd::prelude::*;

verus! {

/// How many steps of the scene's whole-number scale make one world unit.
pub const SUBUNITS: i32 = 1000;

/// A scene: its blocks and its balls, each in the order in which they were given.
#[derive(Debug)]
pub struct LevelDescriptor {
    pub blocks: Vec<LocationScale>,
    pub users: Vec<UserMove>,
}

/// A block that never moves: an upright rectangle around `location`.
#[derive(Debug)]
pub struct LocationScale {
    /// What the block is called; empty where the scene gives no name.
    pub name: String,
    pub location: BLVec2,
    pub scale: BLVec2,
}

/// A point or an extent in the world.
#[derive(Clone, Copy, Debug, PartialEq, Eq, Structural)]
pub struct BLVec2 {
    pub x: i32,
    pub y: i32,
}

/// A ball as it is launched: where it starts, which way it heads and how hard it is hit.
#[derive(Clone, Copy, Debug, PartialEq, Eq, Structural)]
pub struct UserMove {
    pub location: UserLoc,
    pub rotation: i32,
    pub power: i32,
    pub color: UserColor,
}

/// Where a ball is.
#[derive(Clone, Copy, Debug, PartialEq, Eq, Structural)]
pub struct UserLoc {
    pub x: i32,
    pub y: i32,
}

/// The colour a ball is drawn in. It has no part in the simulation.
#[derive(Clone, Copy, Debug, PartialEq, Eq, Structural)]
pub struct UserColor {
    pub r: u8,
    pub g: u8,
    pub b: u8,
}

impl LevelDescriptor {
    /// A scene with nothing in it.
    pub fn empty() -> (level: LevelDescriptor)
        ensures
            level.blocks@.len() == 0,
            level.users@.len() == 0,
    {
        LevelDescriptor { blocks: Vec::new(), users: Vec::new() }
    }
}

} // verus!
