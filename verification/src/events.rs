//! The event model: raw input events, their outcome, and the named high-level
//! events that local dispatch emits toward the scripting layer.

use vstd::prelude::*;

use crate::object::InteractiveObject;

verus! {

/// A raw input event delivered by the host to a node of the scene graph.
///
/// Each variant carries only the payload its semantics need. `RollOut` and
/// `DragOut` name the node the pointer moved to; `RollOver` and `DragOver`
/// name the node it came from; `MouseWheel` carries the scrolled line count.
/// `Other` stands for the non-mouse variants that this engine does not
/// interpret: they pass through local dispatch unhandled.
#[derive(Clone, Copy, PartialEq, Eq, Debug)]
pub enum ClipEvent {
    Press,
    MouseUpInside,
    Release,
    ReleaseOutside,
    RollOut { to: Option<InteractiveObject> },
    DragOut { to: Option<InteractiveObject> },
    RollOver { from: Option<InteractiveObject> },
    DragOver { from: Option<InteractiveObject> },
    MouseWheel { delta: i32 },
    MouseMoveInside,
    Other,
}

/// The class of an event: its variant tag, without payload. Node-kind filters
/// are configured per class.
#[derive(Clone, Copy, PartialEq, Eq, Structural, Debug)]
pub enum EventClass {
    Press,
    MouseUpInside,
    Release,
    ReleaseOutside,
    RollOut,
    DragOut,
    RollOver,
    DragOver,
    MouseWheel,
    MouseMoveInside,
    Other,
}

/// The outcome of handling an event. Carries no payload; it exists purely to
/// short-circuit propagation.
#[derive(Clone, Copy, PartialEq, Eq, Structural, Debug)]
pub enum ClipEventResult {
    NotHandled,
    Handled,
}

/// The name of a high-level scripted event emitted by local dispatch.
#[derive(Clone, Copy, PartialEq, Eq, Structural, Debug)]
pub enum EventName {
    MouseDown,
    MouseUp,
    Click,
    DoubleClick,
    ReleaseOutside,
    MouseOut,
    RollOut,
    MouseOver,
    MouseWheel,
    MouseMove,
}

/// One named event aimed at a scripted node, in the order dispatch emitted it.
/// `related` is the other node of a rollover/rollout pair; `extra` is the
/// integer payload (the wheel's line count; zero elsewhere).
#[derive(Clone, Copy, PartialEq, Eq, Debug)]
pub struct DispatchedEvent {
    pub target: InteractiveObject,
    pub name: EventName,
    pub related: Option<InteractiveObject>,
    pub extra: i32,
}

impl ClipEvent {
    /// The class (variant tag) of this event.
    pub open spec fn class_spec(self) -> EventClass {
        match self {
            ClipEvent::Press => EventClass::Press,
            ClipEvent::MouseUpInside => EventClass::MouseUpInside,
            ClipEvent::Release => EventClass::Release,
            ClipEvent::ReleaseOutside => EventClass::ReleaseOutside,
            ClipEvent::RollOut { .. } => EventClass::RollOut,
            ClipEvent::DragOut { .. } => EventClass::DragOut,
            ClipEvent::RollOver { .. } => EventClass::RollOver,
            ClipEvent::DragOver { .. } => EventClass::DragOver,
            ClipEvent::MouseWheel { .. } => EventClass::MouseWheel,
            ClipEvent::MouseMoveInside => EventClass::MouseMoveInside,
            ClipEvent::Other => EventClass::Other,
        }
    }

    /// The class (variant tag) of this event.
    pub fn class(self) -> (r: EventClass)
        ensures
            r == self.class_spec(),
    {
        match self {
            ClipEvent::Press => EventClass::Press,
            ClipEvent::MouseUpInside => EventClass::MouseUpInside,
            ClipEvent::Release => EventClass::Release,
            ClipEvent::ReleaseOutside => EventClass::ReleaseOutside,
            ClipEvent::RollOut { .. } => EventClass::RollOut,
            ClipEvent::DragOut { .. } => EventClass::DragOut,
            ClipEvent::RollOver { .. } => EventClass::RollOver,
            ClipEvent::DragOver { .. } => EventClass::DragOver,
            ClipEvent::MouseWheel { .. } => EventClass::MouseWheel,
            ClipEvent::MouseMoveInside => EventClass::MouseMoveInside,
            ClipEvent::Other => EventClass::Other,
        }
    }

    /// Whether this event class propagates into a node's children before local
    /// dispatch. Propagation is a fixed property of the variant: the
    /// structural mouse events (presses, releases, rollovers and their drag
    /// forms, and the wheel) propagate; the purely informational
    /// `MouseMoveInside` and the uninterpreted variants do not.
    pub open spec fn propagates_spec(self) -> bool {
        match self {
            ClipEvent::Press => true,
            ClipEvent::MouseUpInside => true,
            ClipEvent::Release => true,
            ClipEvent::ReleaseOutside => true,
            ClipEvent::RollOut { .. } => true,
            ClipEvent::DragOut { .. } => true,
            ClipEvent::RollOver { .. } => true,
            ClipEvent::DragOver { .. } => true,
            ClipEvent::MouseWheel { .. } => true,
            ClipEvent::MouseMoveInside => false,
            ClipEvent::Other => false,
        }
    }

    /// Whether this event class propagates into a node's children (see
    /// [`Self::propagates_spec`]).
    pub fn propagates(self) -> (r: bool)
        ensures
            r == self.propagates_spec(),
    {
        match self {
            ClipEvent::Press
            | ClipEvent::MouseUpInside
            | ClipEvent::Release
            | ClipEvent::ReleaseOutside
            | ClipEvent::RollOut { .. }
            | ClipEvent::DragOut { .. }
            | ClipEvent::RollOver { .. }
            | ClipEvent::DragOver { .. }
            | ClipEvent::MouseWheel { .. } => true,
            ClipEvent::MouseMoveInside | ClipEvent::Other => false,
        }
    }
}

impl EventName {
    /// The spelling of this event name in the scripting layer.
    pub open spec fn script_name_spec(self) -> Seq<char> {
        match self {
            EventName::MouseDown => "mouseDown"@,
            EventName::MouseUp => "mouseUp"@,
            EventName::Click => "click"@,
            EventName::DoubleClick => "doubleClick"@,
            EventName::ReleaseOutside => "releaseOutside"@,
            EventName::MouseOut => "mouseOut"@,
            EventName::RollOut => "rollOut"@,
            EventName::MouseOver => "mouseOver"@,
            EventName::MouseWheel => "mouseWheel"@,
            EventName::MouseMove => "mouseMove"@,
        }
    }

    /// The spelling of this event name in the scripting layer.
    pub fn script_name(self) -> (r: &'static str)
        ensures
            r@ == self.script_name_spec(),
    {
        match self {
            EventName::MouseDown => "mouseDown",
            EventName::MouseUp => "mouseUp",
            EventName::Click => "click",
            EventName::DoubleClick => "doubleClick",
            EventName::ReleaseOutside => "releaseOutside",
            EventName::MouseOut => "mouseOut",
            EventName::RollOut => "rollOut",
            EventName::MouseOver => "mouseOver",
            EventName::MouseWheel => "mouseWheel",
            EventName::MouseMove => "mouseMove",
        }
    }
}

} // verus!
