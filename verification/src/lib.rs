//! Core logic of a falling-block puzzle game: the catalog of tetromino
//! shapes, the rotation-index transform, the fit/collision test, the
//! playfield grid, and the per-tick game state machine.
//!
//! Terminal rendering, raw-mode input and logging are collaborators that
//! live outside this library; the game state machine only consumes decoded
//! input intents and exposes the playfield cells for drawing.

pub mod fits;
pub mod game;
pub mod playfield;
pub mod rotation;
pub mod shapes;
