//! Mouse-pick and cursor hooks: extension points the host queries to find the
//! topmost interactive node under a point and the cursor to display.

use vstd::prelude::*;

use crate::object::InteractiveObject;
use crate::scene::Scene;

verus! {

/// A length in twips, the scene's coordinate unit of one twentieth of a pixel.
#[derive(Clone, Copy, PartialEq, Eq, Structural, Debug)]
pub struct Twips {
    pub raw: i32,
}

/// The cursor shown while a node is the hovered element under the mouse.
#[derive(Clone, Copy, PartialEq, Eq, Structural, Debug)]
pub enum MouseCursor {
    Arrow,
    Hand,
    IBeam,
    Grab,
}

impl Scene {
    /// Determine the bottom-most interactive node under the given point. This
    /// is the default hook: it picks nothing, and node kinds that host
    /// children override it to test their subtree, honoring
    /// `require_button_mode` as a filter on which kinds qualify. Reads no
    /// state and mutates none.
    pub fn mouse_pick(
        &self,
        obj: InteractiveObject,
        pos: (Twips, Twips),
        require_button_mode: bool,
    ) -> (r: Option<InteractiveObject>)
        ensures
            r is None,
    {
        None
    }

    /// The cursor to use while the node is the hovered element: the hand,
    /// unless a node kind overrides it.
    pub fn mouse_cursor(&self, obj: InteractiveObject) -> (r: MouseCursor)
        ensures
            r == MouseCursor::Hand,
    {
        MouseCursor::Hand
    }
}

} // verus!
