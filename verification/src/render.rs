//! State shared with the render backend.

use vstd::prelude::*;

verus! {

/// The stencil-mask phase a render pass is in: outside any mask, drawing a
/// mask's stencil, drawing the content it clips, or clearing the stencil
/// again. The host's renderer steps through these phases for every masked
/// subtree it draws.
#[derive(Clone, Copy, PartialEq, Eq, Structural, Debug)]
pub enum MaskState {
    NoMask,
    DrawMaskStencil,
    DrawMaskedContent,
    ClearMaskStencil,
}

} // verus!
