//! The dispatch pipeline on concrete scenes: gating, propagation order, local
//! dispatch, double-click arbitration, and rollover/rollout chains.

use interactive_dispatch::ClipEvent;
use interactive_dispatch::ClipEventResult;
use interactive_dispatch::DispatchedEvent;
use interactive_dispatch::EventClass;
use interactive_dispatch::EventName;
use interactive_dispatch::InteractiveObject;
use interactive_dispatch::Scene;

fn named(
    target: InteractiveObject,
    name: EventName,
    related: Option<InteractiveObject>,
    extra: i32,
) -> DispatchedEvent {
    DispatchedEvent { target, name, related, extra }
}

#[test]
fn press_then_release_is_mouse_down_then_click() {
    // A button without double-clicks: Press then Release give mouseDown and
    // click, both handled, and the release primes the double-click timer.
    let mut scene = Scene::new();
    let btn = scene.add_node(Some(scene.stage()));
    scene.set_script_object(btn, Some(7));
    assert!(!scene.double_click_enabled(btn));

    let mut out = Vec::new();
    let r = scene.handle_clip_event(btn, ClipEvent::Press, 100, &mut out);
    assert_eq!(r, ClipEventResult::Handled);
    assert_eq!(out, vec![named(btn, EventName::MouseDown, None, 0)]);

    let mut out = Vec::new();
    let r = scene.handle_clip_event(btn, ClipEvent::Release, 150, &mut out);
    assert_eq!(r, ClipEventResult::Handled);
    assert_eq!(out, vec![named(btn, EventName::Click, None, 0)]);
    assert_eq!(scene.last_click(btn), Some(150));
}

#[test]
fn double_click_inside_window_then_single_after_reset() {
    // click at t0, doubleClick at t0 + 0.5 s, and, the timer having been
    // reset, click again 1.5 s later.
    let mut scene = Scene::new();
    let node = scene.add_node(Some(scene.stage()));
    scene.set_script_object(node, Some(1));
    scene.set_double_click_enabled(node, true);

    let t0 = 1000;
    let mut out = Vec::new();
    scene.handle_clip_event(node, ClipEvent::Release, t0, &mut out);
    assert_eq!(out, vec![named(node, EventName::Click, None, 0)]);
    assert_eq!(scene.last_click(node), Some(t0));

    let mut out = Vec::new();
    scene.handle_clip_event(node, ClipEvent::Release, t0 + 500, &mut out);
    assert_eq!(out, vec![named(node, EventName::DoubleClick, None, 0)]);
    assert_eq!(scene.last_click(node), None);

    let mut out = Vec::new();
    scene.handle_clip_event(node, ClipEvent::Release, t0 + 500 + 1500, &mut out);
    assert_eq!(out, vec![named(node, EventName::Click, None, 0)]);
    assert_eq!(scene.last_click(node), Some(t0 + 500 + 1500));
}

#[test]
fn double_click_window_boundary() {
    // The window is strict: 999 ms later is a double-click, 1000 ms is not.
    let mut scene = Scene::new();
    let node = scene.add_node(Some(scene.stage()));
    scene.set_script_object(node, Some(1));
    scene.set_double_click_enabled(node, true);

    let mut out = Vec::new();
    scene.handle_clip_event(node, ClipEvent::Release, 1000, &mut out);
    let mut out = Vec::new();
    scene.handle_clip_event(node, ClipEvent::Release, 1999, &mut out);
    assert_eq!(out, vec![named(node, EventName::DoubleClick, None, 0)]);

    let mut out = Vec::new();
    scene.handle_clip_event(node, ClipEvent::Release, 3000, &mut out);
    assert_eq!(out, vec![named(node, EventName::Click, None, 0)]);
    let mut out = Vec::new();
    scene.handle_clip_event(node, ClipEvent::Release, 4000, &mut out);
    assert_eq!(out, vec![named(node, EventName::Click, None, 0)]);
}

#[test]
fn double_click_disabled_never_double_clicks() {
    let mut scene = Scene::new();
    let node = scene.add_node(Some(scene.stage()));
    scene.set_script_object(node, Some(1));

    let mut out = Vec::new();
    scene.handle_clip_event(node, ClipEvent::Release, 100, &mut out);
    let mut out = Vec::new();
    scene.handle_clip_event(node, ClipEvent::Release, 200, &mut out);
    assert_eq!(out, vec![named(node, EventName::Click, None, 0)]);
}

#[test]
fn release_outside_clears_double_click_timer() {
    // After a priming click, a ReleaseOutside resets the timer, so the next
    // Release is a plain click even inside the window.
    let mut scene = Scene::new();
    let node = scene.add_node(Some(scene.stage()));
    scene.set_script_object(node, Some(1));
    scene.set_double_click_enabled(node, true);

    let mut out = Vec::new();
    scene.handle_clip_event(node, ClipEvent::Release, 100, &mut out);
    assert_eq!(scene.last_click(node), Some(100));

    let mut out = Vec::new();
    let r = scene.handle_clip_event(node, ClipEvent::ReleaseOutside, 150, &mut out);
    assert_eq!(r, ClipEventResult::Handled);
    assert_eq!(out, vec![named(node, EventName::ReleaseOutside, None, 0)]);
    assert_eq!(scene.last_click(node), None);

    let mut out = Vec::new();
    scene.handle_clip_event(node, ClipEvent::Release, 200, &mut out);
    assert_eq!(out, vec![named(node, EventName::Click, None, 0)]);
}

#[test]
fn roll_out_clears_double_click_timer() {
    let mut scene = Scene::new();
    let node = scene.add_node(Some(scene.stage()));
    scene.set_script_object(node, Some(1));
    scene.set_double_click_enabled(node, true);

    let mut out = Vec::new();
    scene.handle_clip_event(node, ClipEvent::Release, 100, &mut out);
    assert_eq!(scene.last_click(node), Some(100));

    let mut out = Vec::new();
    scene.handle_clip_event(node, ClipEvent::RollOut { to: None }, 150, &mut out);
    assert_eq!(scene.last_click(node), None);

    let mut out = Vec::new();
    scene.handle_clip_event(node, ClipEvent::Release, 200, &mut out);
    assert_eq!(out, vec![named(node, EventName::Click, None, 0)]);
}

#[test]
fn drag_out_clears_double_click_timer() {
    let mut scene = Scene::new();
    let node = scene.add_node(Some(scene.stage()));
    scene.set_script_object(node, Some(1));
    scene.set_double_click_enabled(node, true);

    let mut out = Vec::new();
    scene.handle_clip_event(node, ClipEvent::Release, 100, &mut out);
    let mut out = Vec::new();
    scene.handle_clip_event(node, ClipEvent::DragOut { to: None }, 150, &mut out);
    assert_eq!(scene.last_click(node), None);
}

#[test]
fn roll_out_chain_stops_before_lowest_common_ancestor() {
    // root -> p -> q -> r and p -> d: a RollOut on r toward d emits mouseOut
    // to r, then rollOut to r and q; p, the common ancestor, never hears it.
    let mut scene = Scene::new();
    let root = scene.stage();
    let p = scene.add_node(Some(root));
    let q = scene.add_node(Some(p));
    let r = scene.add_node(Some(q));
    let d = scene.add_node(Some(p));
    for n in [p, q, r, d] {
        scene.set_script_object(n, Some(n.idx as u64));
    }

    let mut out = Vec::new();
    let res = scene.handle_clip_event(r, ClipEvent::RollOut { to: Some(d) }, 0, &mut out);
    assert_eq!(res, ClipEventResult::Handled);
    assert_eq!(
        out,
        vec![
            named(r, EventName::MouseOut, Some(d), 0),
            named(r, EventName::RollOut, Some(d), 0),
            named(q, EventName::RollOut, Some(d), 0),
        ]
    );
}

#[test]
fn roll_out_chain_skips_unscripted_nodes_but_keeps_walking() {
    let mut scene = Scene::new();
    let root = scene.stage();
    let p = scene.add_node(Some(root));
    let q = scene.add_node(Some(p));
    let r = scene.add_node(Some(q));
    let d = scene.add_node(Some(p));
    scene.set_script_object(r, Some(3));
    // q has no scripted identity; the walk passes through it silently.

    let mut out = Vec::new();
    scene.handle_clip_event(r, ClipEvent::RollOut { to: Some(d) }, 0, &mut out);
    assert_eq!(
        out,
        vec![
            named(r, EventName::MouseOut, Some(d), 0),
            named(r, EventName::RollOut, Some(d), 0),
        ]
    );
}

#[test]
fn roll_out_to_nothing_walks_up_to_the_stage() {
    let mut scene = Scene::new();
    let root = scene.stage();
    let p = scene.add_node(Some(root));
    let q = scene.add_node(Some(p));
    let r = scene.add_node(Some(q));
    for n in [p, q, r] {
        scene.set_script_object(n, Some(n.idx as u64));
    }

    let mut out = Vec::new();
    scene.handle_clip_event(r, ClipEvent::RollOut { to: None }, 0, &mut out);
    assert_eq!(
        out,
        vec![
            named(r, EventName::MouseOut, None, 0),
            named(r, EventName::RollOut, None, 0),
            named(q, EventName::RollOut, None, 0),
            named(p, EventName::RollOut, None, 0),
        ]
    );
}

#[test]
fn roll_out_in_detached_tree_walks_to_its_root() {
    // With no common ancestor at all, the walk degrades to the whole chain.
    let mut scene = Scene::new();
    let x = scene.add_node(None);
    let y = scene.add_node(Some(x));
    scene.set_script_object(x, Some(1));
    scene.set_script_object(y, Some(2));

    let mut out = Vec::new();
    scene.handle_clip_event(y, ClipEvent::RollOut { to: None }, 0, &mut out);
    assert_eq!(
        out,
        vec![
            named(y, EventName::MouseOut, None, 0),
            named(y, EventName::RollOut, None, 0),
            named(x, EventName::RollOut, None, 0),
        ]
    );
}

#[test]
fn roll_over_emits_mouse_out_chain_then_mouse_over() {
    // The rollover chain carries the mouseOut name toward the ancestors and
    // ends with mouseOver to the node itself.
    let mut scene = Scene::new();
    let root = scene.stage();
    let p = scene.add_node(Some(root));
    let q = scene.add_node(Some(p));
    let r = scene.add_node(Some(q));
    let d = scene.add_node(Some(p));
    for n in [p, q, r, d] {
        scene.set_script_object(n, Some(n.idx as u64));
    }

    let mut out = Vec::new();
    let res = scene.handle_clip_event(r, ClipEvent::RollOver { from: Some(d) }, 0, &mut out);
    assert_eq!(res, ClipEventResult::Handled);
    assert_eq!(
        out,
        vec![
            named(r, EventName::MouseOut, Some(d), 0),
            named(q, EventName::MouseOut, Some(d), 0),
            named(r, EventName::MouseOver, Some(d), 0),
        ]
    );
    // A rollover leaves the double-click timer alone.
    assert_eq!(scene.last_click(r), None);
}

#[test]
fn propagation_is_inside_out_and_stops_at_first_handler() {
    // Two children; only the second has a scripted identity. The first is
    // attempted, handles nothing, and does not short-circuit the second.
    let mut scene = Scene::new();
    let stage = scene.stage();
    let first = scene.add_node(Some(stage));
    let second = scene.add_node(Some(stage));
    scene.set_script_object(second, Some(2));

    let mut out = Vec::new();
    let r = scene.handle_clip_event(stage, ClipEvent::Press, 0, &mut out);
    assert_eq!(r, ClipEventResult::Handled);
    assert_eq!(out, vec![named(second, EventName::MouseDown, None, 0)]);
    assert_eq!(scene.script_object(first), None);
}

#[test]
fn deepest_scripted_descendant_resolves_first() {
    // stage -> a -> b, identities on both: b, the deeper one, wins.
    let mut scene = Scene::new();
    let stage = scene.stage();
    let a = scene.add_node(Some(stage));
    let b = scene.add_node(Some(a));
    scene.set_script_object(a, Some(1));
    scene.set_script_object(b, Some(2));

    let mut out = Vec::new();
    let r = scene.handle_clip_event(stage, ClipEvent::Press, 0, &mut out);
    assert_eq!(r, ClipEventResult::Handled);
    assert_eq!(out, vec![named(b, EventName::MouseDown, None, 0)]);
}

#[test]
fn first_handling_sibling_shadows_later_ones() {
    let mut scene = Scene::new();
    let stage = scene.stage();
    let first = scene.add_node(Some(stage));
    let second = scene.add_node(Some(stage));
    scene.set_script_object(first, Some(1));
    scene.set_script_object(second, Some(2));

    let mut out = Vec::new();
    scene.handle_clip_event(stage, ClipEvent::Press, 0, &mut out);
    assert_eq!(out, vec![named(first, EventName::MouseDown, None, 0)]);
}

#[test]
fn non_propagating_event_never_reaches_children() {
    // MouseMoveInside does not propagate: a scripted child stays silent, and
    // the unscripted stage handles nothing.
    let mut scene = Scene::new();
    let stage = scene.stage();
    let child = scene.add_node(Some(stage));
    scene.set_script_object(child, Some(1));

    let mut out = Vec::new();
    let r = scene.handle_clip_event(stage, ClipEvent::MouseMoveInside, 0, &mut out);
    assert_eq!(r, ClipEventResult::NotHandled);
    assert_eq!(out, Vec::new());

    // With an identity of its own, the stage dispatches locally and the child
    // still hears nothing.
    scene.set_script_object(stage, Some(9));
    let mut out = Vec::new();
    let r = scene.handle_clip_event(stage, ClipEvent::MouseMoveInside, 0, &mut out);
    assert_eq!(r, ClipEventResult::Handled);
    assert_eq!(out, vec![named(stage, EventName::MouseMove, None, 0)]);
}

#[test]
fn disabled_node_refuses_everything_and_hides_its_subtree() {
    let mut scene = Scene::new();
    let stage = scene.stage();
    let parent = scene.add_node(Some(stage));
    let child = scene.add_node(Some(parent));
    scene.set_script_object(parent, Some(1));
    scene.set_script_object(child, Some(2));
    scene.set_mouse_enabled(parent, false);

    let mut out = Vec::new();
    let r = scene.handle_clip_event(parent, ClipEvent::Press, 0, &mut out);
    assert_eq!(r, ClipEventResult::NotHandled);
    assert_eq!(out, Vec::new());
    assert_eq!(scene.last_click(parent), None);
}

#[test]
fn filtered_class_is_refused_and_suppresses_propagation() {
    let mut scene = Scene::new();
    let stage = scene.stage();
    let parent = scene.add_node(Some(stage));
    let child = scene.add_node(Some(parent));
    scene.set_script_object(parent, Some(1));
    scene.set_script_object(child, Some(2));
    scene.refuse_clip_event(parent, EventClass::Press);

    let mut out = Vec::new();
    let r = scene.handle_clip_event(parent, ClipEvent::Press, 0, &mut out);
    assert_eq!(r, ClipEventResult::NotHandled);
    assert_eq!(out, Vec::new());

    // Other classes still pass; the scripted child resolves first.
    let mut out = Vec::new();
    let r = scene.handle_clip_event(parent, ClipEvent::Release, 0, &mut out);
    assert_eq!(r, ClipEventResult::Handled);
    assert_eq!(out, vec![named(child, EventName::Click, None, 0)]);
}

#[test]
fn mouse_up_inside_dispatches_mouse_up() {
    let mut scene = Scene::new();
    let node = scene.add_node(Some(scene.stage()));
    scene.set_script_object(node, Some(1));

    let mut out = Vec::new();
    let r = scene.handle_clip_event(node, ClipEvent::MouseUpInside, 0, &mut out);
    assert_eq!(r, ClipEventResult::Handled);
    assert_eq!(out, vec![named(node, EventName::MouseUp, None, 0)]);
}

#[test]
fn mouse_wheel_carries_the_line_count() {
    let mut scene = Scene::new();
    let node = scene.add_node(Some(scene.stage()));
    scene.set_script_object(node, Some(1));

    let mut out = Vec::new();
    let r = scene.handle_clip_event(node, ClipEvent::MouseWheel { delta: -3 }, 0, &mut out);
    assert_eq!(r, ClipEventResult::Handled);
    assert_eq!(out, vec![named(node, EventName::MouseWheel, None, -3)]);
}

#[test]
fn uninterpreted_event_passes_through_unhandled() {
    let mut scene = Scene::new();
    let node = scene.add_node(Some(scene.stage()));
    scene.set_script_object(node, Some(1));

    let mut out = Vec::new();
    let r = scene.handle_clip_event(node, ClipEvent::Other, 0, &mut out);
    assert_eq!(r, ClipEventResult::NotHandled);
    assert_eq!(out, Vec::new());
}

#[test]
fn unscripted_node_degrades_to_not_handled() {
    let mut scene = Scene::new();
    let node = scene.add_node(Some(scene.stage()));

    let mut out = Vec::new();
    let r = scene.handle_clip_event(node, ClipEvent::Press, 0, &mut out);
    assert_eq!(r, ClipEventResult::NotHandled);
    assert_eq!(out, Vec::new());
}

#[test]
fn propagates_is_fixed_per_variant() {
    assert!(ClipEvent::Press.propagates());
    assert!(ClipEvent::MouseUpInside.propagates());
    assert!(ClipEvent::Release.propagates());
    assert!(ClipEvent::ReleaseOutside.propagates());
    assert!(ClipEvent::RollOut { to: None }.propagates());
    assert!(ClipEvent::DragOut { to: None }.propagates());
    assert!(ClipEvent::RollOver { from: None }.propagates());
    assert!(ClipEvent::DragOver { from: None }.propagates());
    assert!(ClipEvent::MouseWheel { delta: 1 }.propagates());
    assert!(!ClipEvent::MouseMoveInside.propagates());
    assert!(!ClipEvent::Other.propagates());
}
