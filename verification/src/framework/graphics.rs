//! How a draw combines with what is already on the target.

use vstd::prelude::*;

verus! {

/// The ways of blending that the engine draws with.
#[derive(Debug, Clone, Copy, PartialEq, Eq, Hash, Structural)]
pub enum BlendMode {
    /// The colours are added.
    Add,
    /// The source covers the target in proportion to its alpha.
    Alpha,
    /// The colours are multiplied.
    Multiply,
}

} // verus!
