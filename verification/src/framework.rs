//! The windowing and rendering backend and what it works on.

pub mod backend;
pub mod backend_sdl2;
pub mod context;
pub mod error;
pub mod graphics;
pub mod keyboard;
pub mod ui;
