//! An interactive event dispatch engine for a scene graph of renderable,
//! scriptable nodes.
//!
//! Raw input events (mouse press/release/move/wheel, rollover/rollout) are
//! routed through an arbitrarily deep tree of interactive nodes: each event is
//! filtered, propagated depth-first into interactive descendants in render
//! order, and, if no descendant handled it, translated by local dispatch into
//! named high-level events aimed at the scripting layer. Rollover/rollout
//! variants additionally walk the ancestor chain up to (but excluding) the
//! lowest common ancestor of the two nodes involved.
//!
//! The scene graph is held as an arena of nodes addressed by stable handles;
//! the host reads the monotonic clock and forwards the emitted named events to
//! the scripting engine, so dispatch itself is pure tree logic over plain
//! values.

pub mod dispatch;
pub mod events;
pub mod laws;
pub mod lca;
pub mod object;
pub mod pick;
pub mod render;
pub mod scene;

pub use dispatch::DOUBLE_CLICK_WINDOW_MS;
pub use events::ClipEvent;
pub use events::ClipEventResult;
pub use events::DispatchedEvent;
pub use events::EventClass;
pub use events::EventName;
pub use lca::lowest_common_ancestor;
pub use object::InteractiveObject;
pub use pick::MouseCursor;
pub use pick::Twips;
pub use render::MaskState;
pub use scene::InteractiveObjectBase;
pub use scene::Scene;
pub use scene::ScriptValue;
