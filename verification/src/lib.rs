//! Verified layout and movement core for a small 2D arcade shooter.
//!
//! The library computes the geometry of a walled rectangular arena, the
//! placement of a centred grid of enemy sprites inside it, and the
//! keyboard-driven horizontal movement of the player, all over exact
//! integer coordinates.  A host program converts these integers to
//! whatever coordinate type its rendering engine uses.

pub mod arena;
pub mod grid;
pub mod motion;

use vstd::prelude::*;

verus! {

/// Largest magnitude accepted for a coordinate, gap or speed, so that all
/// intermediate arithmetic stays well inside `i64`.
pub const COORD_LIMIT: i64 = 0x4000_0000;

} // verus!
