//! The arena, per-node state defaults, identity comparison, and the pick and
//! cursor hooks.

use interactive_dispatch::ClipEventResult;
use interactive_dispatch::EventClass;
use interactive_dispatch::ClipEvent;
use interactive_dispatch::EventName;
use interactive_dispatch::InteractiveObject;
use interactive_dispatch::MaskState;
use interactive_dispatch::MouseCursor;
use interactive_dispatch::Scene;
use interactive_dispatch::ScriptValue;
use interactive_dispatch::Twips;

#[test]
fn fresh_node_defaults() {
    let mut scene = Scene::new();
    let node = scene.add_node(Some(scene.stage()));
    assert!(scene.mouse_enabled(node));
    assert!(!scene.double_click_enabled(node));
    assert_eq!(scene.context_menu(node), ScriptValue::Null);
    assert_eq!(scene.last_click(node), None);
    assert_eq!(scene.script_object(node), None);
    assert_eq!(scene.parent(node), Some(scene.stage()));
    assert_eq!(scene.parent(scene.stage()), None);
    assert_eq!(scene.num_nodes(), 2);
}

#[test]
fn flags_and_context_menu_round_trip() {
    let mut scene = Scene::new();
    let node = scene.add_node(Some(scene.stage()));
    scene.set_mouse_enabled(node, false);
    assert!(!scene.mouse_enabled(node));
    scene.set_mouse_enabled(node, true);
    assert!(scene.mouse_enabled(node));
    scene.set_double_click_enabled(node, true);
    assert!(scene.double_click_enabled(node));
    scene.set_context_menu(node, ScriptValue::Object(42));
    assert_eq!(scene.context_menu(node), ScriptValue::Object(42));
}

#[test]
fn ptr_eq_is_handle_identity() {
    let mut scene = Scene::new();
    let a = scene.add_node(Some(scene.stage()));
    let b = scene.add_node(Some(scene.stage()));
    assert!(InteractiveObject::ptr_eq(a, a));
    assert!(!InteractiveObject::ptr_eq(a, b));
    assert_eq!(a, a);
    assert_ne!(a, b);
}

#[test]
fn option_ptr_eq_lifts_identity_over_options() {
    let mut scene = Scene::new();
    let a = scene.add_node(Some(scene.stage()));
    let b = scene.add_node(Some(scene.stage()));
    assert!(InteractiveObject::option_ptr_eq(None, None));
    assert!(InteractiveObject::option_ptr_eq(Some(a), Some(a)));
    assert!(!InteractiveObject::option_ptr_eq(Some(a), Some(b)));
    assert!(!InteractiveObject::option_ptr_eq(Some(a), None));
    assert!(!InteractiveObject::option_ptr_eq(None, Some(b)));
}

#[test]
fn filter_refusal_is_per_class() {
    let mut scene = Scene::new();
    let node = scene.add_node(Some(scene.stage()));
    scene.refuse_clip_event(node, EventClass::MouseWheel);
    let refused =
        scene.filter_clip_event(node, ClipEvent::MouseWheel { delta: 2 });
    assert_eq!(refused, ClipEventResult::NotHandled);
    let passed = scene.filter_clip_event(node, ClipEvent::Press);
    assert_eq!(passed, ClipEventResult::Handled);
}

#[test]
fn default_mouse_pick_picks_nothing() {
    let mut scene = Scene::new();
    let node = scene.add_node(Some(scene.stage()));
    let pos = (Twips { raw: 100 }, Twips { raw: -40 });
    assert_eq!(scene.mouse_pick(node, pos, false), None);
    assert_eq!(scene.mouse_pick(node, pos, true), None);
}

#[test]
fn default_mouse_cursor_is_the_hand() {
    let mut scene = Scene::new();
    let node = scene.add_node(Some(scene.stage()));
    assert_eq!(scene.mouse_cursor(node), MouseCursor::Hand);
    assert_eq!(scene.mouse_cursor(scene.stage()), MouseCursor::Hand);
}

#[test]
fn event_names_spell_their_script_names() {
    assert_eq!(EventName::MouseDown.script_name(), "mouseDown");
    assert_eq!(EventName::MouseUp.script_name(), "mouseUp");
    assert_eq!(EventName::Click.script_name(), "click");
    assert_eq!(EventName::DoubleClick.script_name(), "doubleClick");
    assert_eq!(EventName::ReleaseOutside.script_name(), "releaseOutside");
    assert_eq!(EventName::MouseOut.script_name(), "mouseOut");
    assert_eq!(EventName::RollOut.script_name(), "rollOut");
    assert_eq!(EventName::MouseOver.script_name(), "mouseOver");
    assert_eq!(EventName::MouseWheel.script_name(), "mouseWheel");
    assert_eq!(EventName::MouseMove.script_name(), "mouseMove");
}

#[test]
fn mask_states_are_distinct_phases() {
    let phases = [
        MaskState::NoMask,
        MaskState::DrawMaskStencil,
        MaskState::DrawMaskedContent,
        MaskState::ClearMaskStencil,
    ];
    for (i, a) in phases.iter().enumerate() {
        for (j, b) in phases.iter().enumerate() {
            assert_eq!(i == j, a == b);
        }
    }
}
