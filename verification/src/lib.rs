//! Core logic of a small 2D side-scrolling platformer, verified with Verus.
//!
//! The library models the game's state and rules over plain integer values:
//! positions and speeds are measured in *milliunits* (one thousandth of a
//! world unit, so one tile is [`TILE_SIZE`] = 100 milliunits wide) and time in
//! whole milliseconds.  The surrounding engine — rendering, physics
//! simulation, input polling, asset loading — stays outside: each frame the
//! host reads input and physics state, hands plain values to the functions
//! here, and applies the returned positions, velocities and animation choices.

use vstd::prelude::*;

pub mod player;
pub mod spriteloader;
pub mod tilemap;
pub mod timer;

verus! {

/// Side length of one tile of the level grid, in milliunits.
pub const TILE_SIZE: i64 = 100;

/// Bound on the coordinates the library computes with; keeps every
/// position/offset sum far away from `i64` overflow.
pub const POS_LIMIT: i64 = 1_000_000_000_000;

/// Horizontal speed, in milliunits per second, of one background scroll step.
pub const PARALLAX_SPEED: i64 = 10;

/// Whether an entity is drawn.  Tiles are children of one map entity and
/// the player may have children of its own; both are shown and hidden in
/// bulk when play enters or leaves the overworld.
#[derive(Debug, Clone, Copy, PartialEq, Eq, Structural)]
pub struct Visibility {
    pub is_visible: bool,
}

/// The two top-level modes of the game.  Play happens in `Overworld`;
/// `Combat` is the target of the (stubbed) encounter transition.
#[derive(Debug, Clone, Copy, PartialEq, Eq, Hash)]
pub enum GameState {
    Overworld,
    Combat,
}

/// Background scroll decision for one frame: a held right key scrolls the
/// parallax layers at [`PARALLAX_SPEED`], a held left key at the opposite
/// speed, and with neither key no scroll event is emitted.  The right key
/// wins when both are held.  This is decoupled from actual player movement
/// on purpose: the layers scroll even when the player stands still.
pub fn move_parallax_system(right_pressed: bool, left_pressed: bool) -> (r: Option<i64>)
    ensures
        right_pressed ==> r == Some(PARALLAX_SPEED),
        !right_pressed && left_pressed ==> r == Some((-PARALLAX_SPEED) as i64),
        !right_pressed && !left_pressed ==> r is None,
{
    if right_pressed {
        Some(PARALLAX_SPEED)
    } else if left_pressed {
        Some(-PARALLAX_SPEED)
    } else {
        None
    }
}

} // verus!
