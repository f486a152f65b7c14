//! Rendering and event-loop backend of a 2D tile-based platformer engine.
//!
//! Every decision the backend takes is a verified function on plain values:
//! key translation, the sprite-batch command buffer, blend-mode mapping,
//! pitch-aware pixel upload, window-event handling and the interpreter that
//! turns immediate-mode UI draw lists into textured quads and filled
//! triangles. The shell around the library owns the window, the canvas and
//! the native textures and carries out what the library plans.
//!
//! The engine's constants, from the player's physics to the size of every
//! texture sheet, are catalogued in `engine_constants`.

pub mod common;
pub mod engine_constants;
pub mod framework;
