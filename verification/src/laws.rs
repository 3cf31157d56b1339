//! Laws of the dispatch engine: properties that relate several of its
//! functions, proved once and for all inputs.

use vstd::prelude::*;

use crate::dispatch::chain_events;
use crate::dispatch::is_double_click;
use crate::dispatch::local_events;
use crate::dispatch::local_nodes_after;
use crate::dispatch::local_result;
use crate::dispatch::named;
use crate::dispatch::resolved_target;
use crate::events::ClipEvent;
use crate::events::EventName;
use crate::object::InteractiveObject;
use crate::scene::Scene;

verus! {

/// An event that does not propagate is resolved by the node it is delivered
/// to alone: whatever the node's children hold, the resolution is the node
/// itself when its gates pass and local dispatch handles the event, and
/// nothing otherwise. Together with the contract of
/// [`Scene::handle_clip_event`], delivering such an event never recurses into
/// the children.
pub proof fn lemma_non_propagating_stays_local(
    s: Scene,
    obj: InteractiveObject,
    event: ClipEvent,
    now: u64,
)
    requires
        s.wf(),
        obj.idx < s.nodes@.len(),
        !event.propagates_spec(),
    ensures
        resolved_target(s, obj.idx as int, event, now) == (if s.nodes@[obj.idx as int].mouse_enabled
            && s.filter_passes(obj.idx as int, event) && local_result(
            s,
            obj.idx as int,
            event,
        ) is Handled {
            Some(obj.idx as int)
        } else {
            None::<int>
        }),
{
}

/// A node with mouse input disabled resolves nothing: by the contract of
/// [`Scene::handle_clip_event`], delivering any event to it returns
/// `NotHandled`, emits no named event, and leaves every node untouched —
/// neither its filter, nor propagation, nor local dispatch runs.
pub proof fn lemma_mouse_disabled_resolves_nothing(
    s: Scene,
    obj: InteractiveObject,
    event: ClipEvent,
    now: u64,
)
    requires
        s.wf(),
        obj.idx < s.nodes@.len(),
        !s.nodes@[obj.idx as int].mouse_enabled,
    ensures
        resolved_target(s, obj.idx as int, event, now) is None,
{
}

/// A `ReleaseOutside`, `RollOut`, or `DragOut` dispatched on a scripted node
/// clears its double-click timer: in any scene holding the resulting node
/// states, a following `Release` on the node at any time is never a
/// double-click and dispatches a single `click`.
pub proof fn lemma_leaving_clears_last_click(
    s: Scene,
    after: Scene,
    obj: InteractiveObject,
    event: ClipEvent,
    now: u64,
    later: u64,
)
    requires
        s.wf(),
        obj.idx < s.nodes@.len(),
        obj.idx < after.nodes@.len(),
        s.nodes@[obj.idx as int].script_object is Some,
        event matches ClipEvent::ReleaseOutside || event matches ClipEvent::RollOut { .. }
            || event matches ClipEvent::DragOut { .. },
        after.nodes@ == local_nodes_after(s, obj.idx as int, event, now),
    ensures
        after.nodes@[obj.idx as int].last_click is None,
        !is_double_click(after, obj.idx as int, later),
        local_events(after, obj.idx as int, ClipEvent::Release, later) == seq![
            named(obj, EventName::Click, None, 0),
        ],
{
}

/// A chain walk never reaches its stop node: no event it emits targets the
/// computed lowest common ancestor, which scopes rollover/rollout chains to
/// the open chain strictly below it.
pub proof fn lemma_chain_excludes_stop(
    s: Scene,
    cur: Option<InteractiveObject>,
    stop: Option<InteractiveObject>,
    name: EventName,
    related: Option<InteractiveObject>,
)
    requires
        s.wf(),
        cur matches Some(c) ==> c.idx < s.nodes@.len(),
    ensures
        forall|j: int|
            0 <= j < chain_events(s, cur, stop, name, related).len() ==> Some(
                #[trigger] chain_events(s, cur, stop, name, related)[j].target,
            ) != stop,
    decreases crate::dispatch::chain_rank(cur),
{
    match cur {
        None => {},
        Some(c) => {
            if stop != Some(c) {
                assert(s.parent_wf(c.idx as int));
                lemma_chain_excludes_stop(s, s.nodes@[c.idx as int].parent, stop, name, related);
            }
        },
    }
}

} // verus!
