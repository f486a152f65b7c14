//! What a game asks of a texture: the commands of a sprite batch.

use vstd::prelude::*;

use crate::common::{Color, Float32, Rect};

verus! {

/// One copy from a texture to the render target.
#[derive(Debug, Clone, Copy)]
pub enum SpriteBatchCommand {
    /// Copies the source rectangle of the texture to the destination
    /// rectangle, untinted.
    DrawRect(Rect<Float32>, Rect<Float32>),
    /// The same, with each pixel multiplied by the colour.
    DrawRectTinted(Rect<Float32>, Rect<Float32>, Color),
}

} // verus!
