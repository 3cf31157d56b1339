//! Handles to scene-graph nodes and their identity comparison.

use vstd::prelude::*;

verus! {

/// A stable handle to an interactive node in the scene arena.
///
/// Nodes are owned by the arena; the engine never creates or destroys them on
/// its own. Node identity is handle equality (the arena slot), never
/// structural equality of the node's state.
#[derive(Clone, Copy, PartialEq, Eq, Structural, Debug, Hash)]
pub struct InteractiveObject {
    pub idx: usize,
}

impl InteractiveObject {
    /// Identity comparison between two nodes: true exactly when both handles
    /// address the same arena slot.
    pub fn ptr_eq(a: InteractiveObject, b: InteractiveObject) -> (r: bool)
        ensures
            r <==> a == b,
    {
        a.idx == b.idx
    }

    /// Identity comparison lifted over optional handles: `None` equals only
    /// `None`, and two present handles are equal exactly when they address the
    /// same arena slot.
    pub fn option_ptr_eq(a: Option<InteractiveObject>, b: Option<InteractiveObject>) -> (r: bool)
        ensures
            r <==> a == b,
    {
        match (a, b) {
            (None, None) => true,
            (Some(x), Some(y)) => x.idx == y.idx,
            _ => false,
        }
    }
}

} // verus!
