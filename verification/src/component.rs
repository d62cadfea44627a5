use vstd::prelude::*;
use crate::canvas::Modifier;
use crate::color::Color;

verus! {

/// An entity's absolute position on the world grid.
#[derive(Copy, Clone, PartialEq, Eq, Structural, Debug)]
pub struct Position {
    pub x: i32,
    pub y: i32,
}

/// How an entity appears in the character-based world. Fully opaque: drawing
/// it replaces whatever lies beneath.
#[derive(Clone, PartialEq, Debug)]
pub struct Appearance {
    pub icon: char,
    pub foreground: Color,
    pub background: Color,
    pub modifiers: Vec<Modifier>,
}

/// Follows the `target` entity with an offset. `target` is a non-owning
/// entity index; when it cannot be resolved the follower is left unchanged.
#[derive(Copy, Clone, PartialEq, Eq, Structural, Debug)]
pub struct Follow {
    pub target: usize,
    pub offset_x: i32,
    pub offset_y: i32,
}

/// Marker for the entity the renderer treats as the viewport center.
#[derive(Copy, Clone, PartialEq, Eq, Structural, Debug)]
pub struct Camera;

/// Marker for entities that respond to movement commands.
#[derive(Copy, Clone, PartialEq, Eq, Structural, Debug)]
pub struct CommandResponse;

/// Marker for entities that block movement onto their tile.
#[derive(Copy, Clone, PartialEq, Eq, Structural, Debug)]
pub struct Collision;

/// Progress of a running animation, in milliseconds.
#[derive(Copy, Clone, PartialEq, Eq, Structural, Debug)]
pub struct AnimationProgress {
    pub current_ms: u64,
    pub total_ms: u64,
}

} // verus!
