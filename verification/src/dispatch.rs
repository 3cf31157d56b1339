//! The dispatch engine: the filter → propagate-to-children → local-dispatch
//! pipeline, double-click arbitration, and rollover/rollout chain walking.
//!
//! Local dispatch translates a raw event into named high-level events aimed at
//! scripted nodes. The engine appends them, in dispatch order, to an output
//! list the host forwards to the scripting layer once the call returns; the
//! tree the engine walks is therefore stable for the whole event, and any
//! mutation a script handler makes takes effect only for the next top-level
//! event.

use vstd::prelude::*;

use crate::events::ClipEvent;
use crate::events::ClipEventResult;
use crate::events::DispatchedEvent;
use crate::events::EventName;
use crate::lca::lca;
use crate::lca::lowest_common_ancestor;
use crate::object::InteractiveObject;
use crate::scene::InteractiveObjectBase;
use crate::scene::Scene;

verus! {

/// Two releases on the same node closer together than this many milliseconds
/// form a double-click, when the node has double-clicks enabled.
pub const DOUBLE_CLICK_WINDOW_MS: u64 = 1000;

/// The named event `target` receives, with the `related` node of a
/// rollover/rollout pair and the integer payload `extra`.
pub open spec fn named(
    target: InteractiveObject,
    name: EventName,
    related: Option<InteractiveObject>,
    extra: i32,
) -> DispatchedEvent {
    DispatchedEvent { target, name, related, extra }
}

/// Whether every node handle the event carries addresses a node of the scene.
pub open spec fn event_wf(s: Scene, event: ClipEvent) -> bool {
    match event {
        ClipEvent::RollOut { to: Some(t) } => t.idx < s.nodes@.len(),
        ClipEvent::DragOut { to: Some(t) } => t.idx < s.nodes@.len(),
        ClipEvent::RollOver { from: Some(t) } => t.idx < s.nodes@.len(),
        ClipEvent::DragOver { from: Some(t) } => t.idx < s.nodes@.len(),
        _ => true,
    }
}

/// The other end of a rollover/rollout pair: the node the event names, or the
/// stage when it names none.
pub open spec fn other_or_stage(o: Option<InteractiveObject>) -> InteractiveObject {
    match o {
        Some(t) => t,
        None => InteractiveObject { idx: 0 },
    }
}

/// Whether a release on node `i` at time `now` completes a double-click: the
/// node has double-clicks enabled, is primed by an earlier click, and less
/// than the double-click window has passed since.
pub open spec fn is_double_click(s: Scene, i: int, now: u64) -> bool {
    &&& s.nodes@[i].double_click_enabled
    &&& match s.nodes@[i].last_click {
        None => false,
        Some(lc) => lc <= now && now - lc < DOUBLE_CLICK_WINDOW_MS,
    }
}

/// A measure for parent-ward walks: parents sit at strictly lower slots, so
/// this shrinks at every step.
pub open spec fn chain_rank(cur: Option<InteractiveObject>) -> int {
    match cur {
        None => 0,
        Some(c) => c.idx as int + 1,
    }
}

/// The events a chain walk emits: starting at `cur` and moving parent-ward,
/// every node before `stop` that has a scripted identity receives `name`; the
/// stop node itself never does, and a walk with no stop runs to the root.
pub open spec fn chain_events(
    s: Scene,
    cur: Option<InteractiveObject>,
    stop: Option<InteractiveObject>,
    name: EventName,
    related: Option<InteractiveObject>,
) -> Seq<DispatchedEvent>
    decreases chain_rank(cur),
        when s.wf() && (cur matches Some(c) ==> c.idx < s.nodes@.len())
{
    match cur {
        None => Seq::empty(),
        Some(c) => {
            if stop == Some(c) {
                Seq::empty()
            } else {
                proof {
                    assert(s.parent_wf(c.idx as int));
                }
                let rest = chain_events(s, s.nodes@[c.idx as int].parent, stop, name, related);
                if s.nodes@[c.idx as int].script_object is Some {
                    seq![named(c, name, related, 0)] + rest
                } else {
                    rest
                }
            }
        },
    }
}

/// The outcome of local dispatch on node `i`: a node without a scripted
/// identity handles nothing, and a node with one handles every variant this
/// engine interprets.
pub open spec fn local_result(s: Scene, i: int, event: ClipEvent) -> ClipEventResult {
    if s.nodes@[i].script_object is None {
        ClipEventResult::NotHandled
    } else {
        match event {
            ClipEvent::Other => ClipEventResult::NotHandled,
            _ => ClipEventResult::Handled,
        }
    }
}

/// The named events local dispatch on node `i` emits for `event` at time
/// `now`, in order.
pub open spec fn local_events(s: Scene, i: int, event: ClipEvent, now: u64) -> Seq<
    DispatchedEvent,
> {
    let me = InteractiveObject { idx: i as usize };
    if s.nodes@[i].script_object is None {
        Seq::empty()
    } else {
        match event {
            ClipEvent::Press => seq![named(me, EventName::MouseDown, None, 0)],
            ClipEvent::MouseUpInside => seq![named(me, EventName::MouseUp, None, 0)],
            ClipEvent::Release => {
                if is_double_click(s, i, now) {
                    seq![named(me, EventName::DoubleClick, None, 0)]
                } else {
                    seq![named(me, EventName::Click, None, 0)]
                }
            },
            ClipEvent::ReleaseOutside => seq![named(me, EventName::ReleaseOutside, None, 0)],
            ClipEvent::RollOut { to } => seq![named(me, EventName::MouseOut, to, 0)]
                + chain_events(
                s,
                Some(me),
                lca(s, me, other_or_stage(to)),
                EventName::RollOut,
                to,
            ),
            ClipEvent::DragOut { to } => seq![named(me, EventName::MouseOut, to, 0)]
                + chain_events(
                s,
                Some(me),
                lca(s, me, other_or_stage(to)),
                EventName::RollOut,
                to,
            ),
            ClipEvent::RollOver { from } => chain_events(
                s,
                Some(me),
                lca(s, me, other_or_stage(from)),
                EventName::MouseOut,
                from,
            ) + seq![named(me, EventName::MouseOver, from, 0)],
            ClipEvent::DragOver { from } => chain_events(
                s,
                Some(me),
                lca(s, me, other_or_stage(from)),
                EventName::MouseOut,
                from,
            ) + seq![named(me, EventName::MouseOver, from, 0)],
            ClipEvent::MouseWheel { delta } => seq![named(me, EventName::MouseWheel, None, delta)],
            ClipEvent::MouseMoveInside => seq![named(me, EventName::MouseMove, None, 0)],
            ClipEvent::Other => Seq::empty(),
        }
    }
}

/// The node states after local dispatch on node `i`: a completed single click
/// primes the node's double-click timer with `now`; a double-click, a release
/// outside, or a rollout/dragout clears it; everything else leaves the arena
/// untouched.
pub open spec fn local_nodes_after(s: Scene, i: int, event: ClipEvent, now: u64) -> Seq<
    InteractiveObjectBase,
> {
    if s.nodes@[i].script_object is None {
        s.nodes@
    } else {
        match event {
            ClipEvent::Release => {
                if is_double_click(s, i, now) {
                    s.nodes@.update(i, InteractiveObjectBase { last_click: None, ..s.nodes@[i] })
                } else {
                    s.nodes@.update(
                        i,
                        InteractiveObjectBase { last_click: Some(now), ..s.nodes@[i] },
                    )
                }
            },
            ClipEvent::ReleaseOutside => s.nodes@.update(
                i,
                InteractiveObjectBase { last_click: None, ..s.nodes@[i] },
            ),
            ClipEvent::RollOut { .. } => s.nodes@.update(
                i,
                InteractiveObjectBase { last_click: None, ..s.nodes@[i] },
            ),
            ClipEvent::DragOut { .. } => s.nodes@.update(
                i,
                InteractiveObjectBase { last_click: None, ..s.nodes@[i] },
            ),
            _ => s.nodes@,
        }
    }
}

/// Which node resolves the event when it is delivered to node `i`: `i`'s
/// deepest descendant that handles it under depth-first, render-order
/// propagation, or `i` itself through local dispatch, or none. A disabled or
/// filtered node resolves nothing and hides its whole subtree.
pub open spec fn resolved_target(s: Scene, i: int, event: ClipEvent, now: u64) -> Option<int>
    decreases s.nodes@.len() - i, 1int, 0int,
        when s.wf() && 0 <= i < s.nodes@.len()
{
    if !s.nodes@[i].mouse_enabled {
        None
    } else if !s.filter_passes(i, event) {
        None
    } else {
        match child_resolution(s, i, event, now) {
            Some(t) => Some(t),
            None => {
                if local_result(s, i, event) is Handled {
                    Some(i)
                } else {
                    None
                }
            },
        }
    }
}

/// Which node resolves the event during propagation from node `i` into its
/// children: none when the event does not propagate, else the first resolution
/// found among the children in render order.
pub open spec fn child_resolution(s: Scene, i: int, event: ClipEvent, now: u64) -> Option<int>
    decreases s.nodes@.len() - i, 0int, s.children@[i]@.len() + 1,
        when s.wf() && 0 <= i < s.nodes@.len()
{
    if event.propagates_spec() {
        resolved_child_target(s, i, 0, event, now)
    } else {
        None
    }
}

/// The first resolution found among the children of node `i` from render slot
/// `k` on.
pub open spec fn resolved_child_target(s: Scene, i: int, k: int, event: ClipEvent, now: u64) -> Option<
    int,
>
    decreases s.nodes@.len() - i, 0int, s.children@[i]@.len() - k,
        when s.wf() && 0 <= i < s.nodes@.len() && 0 <= k
{
    if k >= s.num_children(i) {
        None
    } else {
        proof {
            assert(s.child_wf(i, k));
        }
        let c = s.child(i, k);
        match resolved_target(s, c.idx as int, event, now) {
            Some(t) => Some(t),
            None => resolved_child_target(s, i, k + 1, event, now),
        }
    }
}

impl Scene {
    /// Walk parent-ward from `start`, emitting `name` to every node with a
    /// scripted identity strictly before `stop`; a walk with no stop runs to
    /// the root of `start`'s tree.
    fn dispatch_chain(
        &self,
        start: InteractiveObject,
        stop: Option<InteractiveObject>,
        name: EventName,
        related: Option<InteractiveObject>,
        out: &mut Vec<DispatchedEvent>,
    )
        requires
            self.wf(),
            self.valid(start),
        ensures
            final(out)@ == old(out)@ + chain_events(*self, Some(start), stop, name, related),
    {
        let ghost total = chain_events(*self, Some(start), stop, name, related);
        let mut cur: Option<InteractiveObject> = Some(start);
        while chain_continue(cur, stop)
            invariant
                self.wf(),
                cur matches Some(c) ==> c.idx < self.nodes@.len(),
                total == chain_events(*self, Some(start), stop, name, related),
                out@ + chain_events(*self, cur, stop, name, related) == old(out)@ + total,
            decreases chain_rank(cur),
        {
            let c = cur.unwrap();
            proof {
                assert(self.parent_wf(c.idx as int));
            }
            let ghost rest = chain_events(
                *self,
                self.nodes@[c.idx as int].parent,
                stop,
                name,
                related,
            );
            if self.script_object(c).is_some() {
                let e = DispatchedEvent { target: c, name, related, extra: 0 };
                proof {
                    assert(out@.push(e) + rest =~= out@ + (seq![e] + rest));
                }
                out.push(e);
            }
            cur = self.parent(c);
        }
        proof {
            assert(chain_events(*self, cur, stop, name, related) =~= Seq::<DispatchedEvent>::empty());
            assert(out@ + Seq::<DispatchedEvent>::empty() =~= out@);
        }
    }

    /// Local dispatch: translate the event into the named high-level events
    /// the node's scripted identity receives, and reconcile the double-click
    /// timer. A node without a scripted identity handles nothing; an
    /// uninterpreted variant passes through unhandled. Runs only when the
    /// event was neither filtered nor handled by a descendant.
    pub fn event_dispatch(
        &mut self,
        obj: InteractiveObject,
        event: ClipEvent,
        now: u64,
        out: &mut Vec<DispatchedEvent>,
    ) -> (r: ClipEventResult)
        requires
            old(self).wf(),
            old(self).valid(obj),
            event_wf(*old(self), event),
        ensures
            final(self).wf(),
            final(self).children == old(self).children,
            final(self).refused == old(self).refused,
            r == local_result(*old(self), obj.idx as int, event),
            r is NotHandled ==> *final(self) == *old(self) && final(out)@ == old(out)@,
            r is Handled ==> final(self).nodes@ == local_nodes_after(
                *old(self),
                obj.idx as int,
                event,
                now,
            ) && final(out)@ == old(out)@ + local_events(*old(self), obj.idx as int, event, now),
    {
        if self.script_object(obj).is_none() {
            return ClipEventResult::NotHandled;
        }
        let ghost s0 = *old(self);
        let ghost i = obj.idx as int;
        match event {
            ClipEvent::Press => {
                let e = DispatchedEvent {
                    target: obj,
                    name: EventName::MouseDown,
                    related: None,
                    extra: 0,
                };
                proof {
                    assert(out@.push(e) =~= out@ + seq![e]);
                }
                out.push(e);
                ClipEventResult::Handled
            },
            ClipEvent::MouseUpInside => {
                let e = DispatchedEvent {
                    target: obj,
                    name: EventName::MouseUp,
                    related: None,
                    extra: 0,
                };
                proof {
                    assert(out@.push(e) =~= out@ + seq![e]);
                }
                out.push(e);
                ClipEventResult::Handled
            },
            ClipEvent::Release => {
                let dc_enabled = self.double_click_enabled(obj);
                let last = self.last_click(obj);
                let double = dc_enabled && match last {
                    Some(lc) => lc <= now && now - lc < DOUBLE_CLICK_WINDOW_MS,
                    None => false,
                };
                proof {
                    assert(double == is_double_click(s0, i, now));
                }
                if double {
                    let e = DispatchedEvent {
                        target: obj,
                        name: EventName::DoubleClick,
                        related: None,
                        extra: 0,
                    };
                    proof {
                        assert(out@.push(e) =~= out@ + seq![e]);
                    }
                    out.push(e);
                    self.set_last_click(obj, None);
                } else {
                    let e = DispatchedEvent {
                        target: obj,
                        name: EventName::Click,
                        related: None,
                        extra: 0,
                    };
                    proof {
                        assert(out@.push(e) =~= out@ + seq![e]);
                    }
                    out.push(e);
                    self.set_last_click(obj, Some(now));
                }
                ClipEventResult::Handled
            },
            ClipEvent::ReleaseOutside => {
                let e = DispatchedEvent {
                    target: obj,
                    name: EventName::ReleaseOutside,
                    related: None,
                    extra: 0,
                };
                proof {
                    assert(out@.push(e) =~= out@ + seq![e]);
                }
                out.push(e);
                self.set_last_click(obj, None);
                ClipEventResult::Handled
            },
            ClipEvent::RollOut { to } => {
                self.roll_out(obj, to, out);
                ClipEventResult::Handled
            },
            ClipEvent::DragOut { to } => {
                self.roll_out(obj, to, out);
                ClipEventResult::Handled
            },
            ClipEvent::RollOver { from } => {
                self.roll_over(obj, from, out);
                ClipEventResult::Handled
            },
            ClipEvent::DragOver { from } => {
                self.roll_over(obj, from, out);
                ClipEventResult::Handled
            },
            ClipEvent::MouseWheel { delta } => {
                let e = DispatchedEvent {
                    target: obj,
                    name: EventName::MouseWheel,
                    related: None,
                    extra: delta,
                };
                proof {
                    assert(out@.push(e) =~= out@ + seq![e]);
                }
                out.push(e);
                ClipEventResult::Handled
            },
            ClipEvent::MouseMoveInside => {
                let e = DispatchedEvent {
                    target: obj,
                    name: EventName::MouseMove,
                    related: None,
                    extra: 0,
                };
                proof {
                    assert(out@.push(e) =~= out@ + seq![e]);
                }
                out.push(e);
                ClipEventResult::Handled
            },
            ClipEvent::Other => ClipEventResult::NotHandled,
        }
    }

    /// Propagate the event to the node's children in render order: recursively
    /// deliver it to each child over a stable snapshot of the render list,
    /// stopping at the first child that handles it. An event that does not
    /// propagate skips the children entirely.
    pub fn propagate_to_children(
        &mut self,
        obj: InteractiveObject,
        event: ClipEvent,
        now: u64,
        out: &mut Vec<DispatchedEvent>,
    ) -> (r: ClipEventResult)
        requires
            old(self).wf(),
            old(self).valid(obj),
            event_wf(*old(self), event),
        ensures
            final(self).wf(),
            final(self).children == old(self).children,
            final(self).refused == old(self).refused,
            final(self).nodes@.len() == old(self).nodes@.len(),
            match child_resolution(*old(self), obj.idx as int, event, now) {
                None => r == ClipEventResult::NotHandled && *final(self) == *old(self)
                    && final(out)@ == old(out)@,
                Some(t) => r == ClipEventResult::Handled && final(self).nodes@
                    == local_nodes_after(*old(self), t, event, now) && final(out)@ == old(out)@
                    + local_events(*old(self), t, event, now),
            },
        decreases old(self).nodes@.len() - obj.idx, 0int,
    {
        let ghost s0 = *old(self);
        let ghost i = obj.idx as int;
        if !event.propagates() {
            return ClipEventResult::NotHandled;
        }
        let n = self.children[obj.idx].len();
        let mut k: usize = 0;
        while k < n
            invariant
                s0 == *old(self),
                *self == s0,
                s0.wf(),
                obj.idx < s0.nodes@.len(),
                event_wf(s0, event),
                event.propagates_spec(),
                i == obj.idx as int,
                n == s0.children@[i]@.len(),
                k <= n,
                out@ == old(out)@,
                resolved_child_target(s0, i, k as int, event, now) == resolved_child_target(
                    s0,
                    i,
                    0,
                    event,
                    now,
                ),
            decreases n - k,
        {
            let c = self.children[obj.idx][k];
            proof {
                assert(s0.child_wf(i, k as int));
            }
            let res = self.handle_clip_event(c, event, now, out);
            if res == ClipEventResult::Handled {
                return ClipEventResult::Handled;
            }
            k += 1;
        }
        ClipEventResult::NotHandled
    }

    /// Execute and propagate the given event. A disabled node refuses it
    /// outright, without filtering, propagation, or dispatch; the node's
    /// filter may refuse it, which also hides the node's subtree; otherwise
    /// the event propagates depth-first into the children in render order, and
    /// local dispatch on the node itself runs only when no descendant handled
    /// it. Events therefore resolve inside-out: the deepest handling
    /// descendant reacts first, and its answer short-circuits everyone above.
    pub fn handle_clip_event(
        &mut self,
        obj: InteractiveObject,
        event: ClipEvent,
        now: u64,
        out: &mut Vec<DispatchedEvent>,
    ) -> (r: ClipEventResult)
        requires
            old(self).wf(),
            old(self).valid(obj),
            event_wf(*old(self), event),
        ensures
            final(self).wf(),
            final(self).children == old(self).children,
            final(self).refused == old(self).refused,
            final(self).nodes@.len() == old(self).nodes@.len(),
            match resolved_target(*old(self), obj.idx as int, event, now) {
                None => r == ClipEventResult::NotHandled && *final(self) == *old(self)
                    && final(out)@ == old(out)@,
                Some(t) => r == ClipEventResult::Handled && final(self).nodes@
                    == local_nodes_after(*old(self), t, event, now) && final(out)@ == old(out)@
                    + local_events(*old(self), t, event, now),
            },
        decreases old(self).nodes@.len() - obj.idx, 1int,
    {
        if !self.mouse_enabled(obj) {
            return ClipEventResult::NotHandled;
        }
        let passed = self.filter_clip_event(obj, event);
        if passed == ClipEventResult::NotHandled {
            return ClipEventResult::NotHandled;
        }
        let prop = self.propagate_to_children(obj, event, now, out);
        if prop == ClipEventResult::Handled {
            return ClipEventResult::Handled;
        }
        self.event_dispatch(obj, event, now, out)
    }

    /// The rollout/dragout tail of local dispatch: `mouseOut` to the node
    /// itself, then `rollOut` along the open ancestor chain up to (excluding)
    /// the lowest common ancestor with the node the pointer moved to, then
    /// clear the double-click timer.
    fn roll_out(
        &mut self,
        obj: InteractiveObject,
        to: Option<InteractiveObject>,
        out: &mut Vec<DispatchedEvent>,
    )
        requires
            old(self).wf(),
            old(self).valid(obj),
            match to {
                Some(t) => t.idx < old(self).nodes@.len(),
                None => true,
            },
            old(self).nodes@[obj.idx as int].script_object is Some,
        ensures
            final(self).wf(),
            final(self).children == old(self).children,
            final(self).refused == old(self).refused,
            final(self).nodes@ == old(self).nodes@.update(
                obj.idx as int,
                InteractiveObjectBase {
                    last_click: None,
                    ..old(self).nodes@[obj.idx as int]
                },
            ),
            final(out)@ == old(out)@ + (seq![named(obj, EventName::MouseOut, to, 0)]
                + chain_events(
                *old(self),
                Some(obj),
                lca(*old(self), obj, other_or_stage(to)),
                EventName::RollOut,
                to,
            )),
    {
        let e = DispatchedEvent { target: obj, name: EventName::MouseOut, related: to, extra: 0 };
        out.push(e);
        let target = match to {
            Some(t) => t,
            None => self.stage(),
        };
        let stop = lowest_common_ancestor(self, obj, target);
        self.dispatch_chain(obj, stop, EventName::RollOut, to, out);
        proof {
            assert(out@ =~= old(out)@ + (seq![e] + chain_events(
                *self,
                Some(obj),
                stop,
                EventName::RollOut,
                to,
            )));
        }
        self.set_last_click(obj, None);
    }

    /// The rollover/dragover tail of local dispatch: `mouseOut` along the open
    /// ancestor chain up to (excluding) the lowest common ancestor with the
    /// node the pointer came from, then `mouseOver` to the node itself.
    ///
    /// The chain deliberately carries `mouseOut` where the rollout chain
    /// carries `rollOut`: the naming is asymmetric, and the asymmetry is
    /// long-standing observed behavior, kept exactly rather than repaired.
    fn roll_over(
        &mut self,
        obj: InteractiveObject,
        from: Option<InteractiveObject>,
        out: &mut Vec<DispatchedEvent>,
    )
        requires
            old(self).wf(),
            old(self).valid(obj),
            match from {
                Some(t) => t.idx < old(self).nodes@.len(),
                None => true,
            },
        ensures
            *final(self) == *old(self),
            final(out)@ == old(out)@ + (chain_events(
                *old(self),
                Some(obj),
                lca(*old(self), obj, other_or_stage(from)),
                EventName::MouseOut,
                from,
            ) + seq![named(obj, EventName::MouseOver, from, 0)]),
    {
        let source = match from {
            Some(t) => t,
            None => self.stage(),
        };
        let stop = lowest_common_ancestor(self, obj, source);
        self.dispatch_chain(obj, stop, EventName::MouseOut, from, out);
        let e = DispatchedEvent { target: obj, name: EventName::MouseOver, related: from, extra: 0 };
        out.push(e);
        proof {
            assert(out@ =~= old(out)@ + (chain_events(
                *self,
                Some(obj),
                stop,
                EventName::MouseOut,
                from,
            ) + seq![e]));
        }
    }
}

/// Whether a chain walk at `cur` still has a node to visit before `stop`.
fn chain_continue(cur: Option<InteractiveObject>, stop: Option<InteractiveObject>) -> (r: bool)
    ensures
        r == match cur {
            None => false,
            Some(c) => stop != Some(c),
        },
{
    match cur {
        None => false,
        Some(c) => !InteractiveObject::option_ptr_eq(stop, Some(c)),
    }
}

} // verus!
