//! Handles and plain values shared by every part of the library.

use vstd::prelude::*;

verus! {

/// Opaque handle of an entity in the simulation's world registry.
#[derive(Clone, Copy, Debug, PartialEq, Eq, Structural)]
pub struct Entity(pub u64);

/// Identifier the server uses for an entity of the current zone.
#[derive(Clone, Copy, Debug, PartialEq, Eq, Structural)]
pub struct ClientEntityId(pub usize);

/// A point of the world in whole world units.
#[derive(Clone, Copy, Debug, PartialEq, Eq, Structural)]
pub struct Position {
    pub x: i32,
    pub y: i32,
    pub z: i32,
}

/// Identifier of an animation motion.
#[derive(Clone, Copy, Debug, PartialEq, Eq, Structural)]
pub struct MotionId(pub u16);

/// Movement speed a move command may ask for.
#[derive(Clone, Copy, Debug, PartialEq, Eq, Structural)]
pub enum MoveMode {
    Walk,
    Run,
    Drive,
}

} // verus!
