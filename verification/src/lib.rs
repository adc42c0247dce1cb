//! A verified player-motion controller for a small 2D game.
//!
//! The controller advances one player entity per simulation frame. It
//! supports two mutually exclusive input modes: direct-axis steering
//! (keyboard) and click-to-move (mouse), keeps a `Standing`/`Moving`
//! state flag consistent with actual movement, and detects arrival at a
//! clicked target. All geometry is carried in fixed-point world
//! coordinates with `SCALE` sub-units per world unit, so every frame
//! update is exact integer arithmetic with a proved contract.

pub mod player;
pub mod math;
pub mod model;
pub mod move_player;
pub mod laws;
