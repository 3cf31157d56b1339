//! The scene arena: per-node interactive state, parent/child relations in
//! render order, and the per-node event filter configuration.

use vstd::prelude::*;

use crate::events::ClipEvent;
use crate::events::ClipEventResult;
use crate::events::EventClass;
use crate::object::InteractiveObject;

verus! {

/// An opaque value owned by the scripting layer. The engine only stores and
/// returns it; `Null` is the default for a fresh node.
#[derive(Clone, Copy, PartialEq, Eq, Debug)]
pub enum ScriptValue {
    Null,
    Object(u64),
}

/// The interactive capability state attached to every node that participates
/// in input handling, together with the node's place in the tree.
#[derive(Clone, Copy, PartialEq, Eq, Debug)]
pub struct InteractiveObjectBase {
    /// The parent node; `None` for a root.
    pub parent: Option<InteractiveObject>,
    /// Whether this node accepts mouse and other user events. Defaults to
    /// true; a disabled node neither filters, propagates, nor dispatches.
    pub mouse_enabled: bool,
    /// Whether this node accepts double-clicks. Defaults to false.
    pub double_click_enabled: bool,
    /// The node's context menu, owned by the scripting layer.
    pub context_menu: ScriptValue,
    /// The time of the most recent unmatched click on this node, in
    /// milliseconds of the host's monotonic clock. `None` when the pointer is
    /// not currently primed for a double-click; cleared whenever the pointer
    /// logically leaves the node.
    pub last_click: Option<u64>,
    /// The node's externally visible scripted identity, if it has one. A node
    /// without one degrades to `NotHandled` in local dispatch.
    pub script_object: Option<u64>,
}

impl InteractiveObjectBase {
    /// The state of a freshly created node under the given parent.
    pub open spec fn fresh(parent: Option<InteractiveObject>) -> InteractiveObjectBase {
        InteractiveObjectBase {
            parent,
            mouse_enabled: true,
            double_click_enabled: false,
            context_menu: ScriptValue::Null,
            last_click: None,
            script_object: None,
        }
    }
}

impl Default for InteractiveObjectBase {
    /// A fresh detached node: mouse enabled, double-click disabled, null
    /// context menu, not primed for a double-click, no scripted identity.
    fn default() -> (d: Self)
        ensures
            d == InteractiveObjectBase::fresh(None),
    {
        InteractiveObjectBase {
            parent: None,
            mouse_enabled: true,
            double_click_enabled: false,
            context_menu: ScriptValue::Null,
            last_click: None,
            script_object: None,
        }
    }
}

/// The arena that owns every node of the scene graph.
///
/// Node zero is the stage, the root the host normally delivers events to.
/// Nodes are only ever appended, each under an already existing parent (or
/// detached), so every parent handle addresses an earlier slot than its
/// children: ancestor walks and depth-first propagation terminate.
pub struct Scene {
    /// The interactive state of each node, by handle index.
    pub nodes: Vec<InteractiveObjectBase>,
    /// The children of each node in render order.
    pub children: Vec<Vec<InteractiveObject>>,
    /// The event classes each node's filter refuses.
    pub refused: Vec<Vec<EventClass>>,
}

impl Scene {
    /// The interactive state of node `i`.
    pub open spec fn node(self, i: int) -> InteractiveObjectBase {
        self.nodes@[i]
    }

    /// Whether `o` addresses a node of this scene.
    pub open spec fn valid(self, o: InteractiveObject) -> bool {
        o.idx < self.nodes@.len()
    }

    /// The number of children of node `i`.
    pub open spec fn num_children(self, i: int) -> int {
        self.children@[i]@.len() as int
    }

    /// The `k`-th child of node `i` in render order.
    pub open spec fn child(self, i: int, k: int) -> InteractiveObject {
        self.children@[i]@[k]
    }

    /// The parent invariant of node `i`: a parent handle addresses an earlier
    /// slot, so parent chains walk strictly downward through the arena.
    pub open spec fn parent_wf(self, i: int) -> bool {
        match self.nodes@[i].parent {
            None => true,
            Some(p) => p.idx < i,
        }
    }

    /// The child-list invariant for slot `k` of node `i`: the child handle is
    /// in bounds, addresses a later slot, and its parent link points back to
    /// `i`.
    pub open spec fn child_wf(self, i: int, k: int) -> bool {
        let c = self.child(i, k);
        &&& c.idx < self.nodes@.len()
        &&& i < c.idx
        &&& self.nodes@[c.idx as int].parent == Some(InteractiveObject { idx: i as usize })
    }

    /// Well-formedness of the whole arena: the three per-node columns agree in
    /// length, the stage exists as node zero and is a root, and every parent
    /// and child link respects the slot order.
    pub open spec fn wf(self) -> bool {
        &&& self.children@.len() == self.nodes@.len()
        &&& self.refused@.len() == self.nodes@.len()
        &&& self.nodes@.len() >= 1
        &&& self.nodes@[0].parent is None
        &&& forall|i: int| 0 <= i < self.nodes@.len() ==> #[trigger] self.parent_wf(i)
        &&& forall|i: int, k: int|
            0 <= i < self.nodes@.len() && 0 <= k < self.num_children(i) ==> #[trigger] self.child_wf(
                i,
                k,
            )
    }

    /// Create a scene holding only the stage.
    pub fn new() -> (s: Scene)
        ensures
            s.wf(),
            s.nodes@ == seq![InteractiveObjectBase::fresh(None)],
            s.num_children(0) == 0,
            s.refused@[0]@ == Seq::<EventClass>::empty(),
    {
        let mut nodes: Vec<InteractiveObjectBase> = Vec::new();
        nodes.push(InteractiveObjectBase::default());
        let mut children: Vec<Vec<InteractiveObject>> = Vec::new();
        children.push(Vec::new());
        let mut refused: Vec<Vec<EventClass>> = Vec::new();
        refused.push(Vec::new());
        let s = Scene { nodes, children, refused };
        assert(s.nodes@ =~= seq![InteractiveObjectBase::fresh(None)]);
        s
    }

    /// The stage: the root node the host normally delivers events to.
    pub fn stage(&self) -> (r: InteractiveObject)
        ensures
            r.idx == 0,
    {
        InteractiveObject { idx: 0 }
    }

    /// How many nodes the scene holds.
    pub fn num_nodes(&self) -> (n: usize)
        ensures
            n == self.nodes@.len(),
    {
        self.nodes.len()
    }

    /// Append a fresh node, optionally at the end of `parent`'s render list.
    /// The new node starts with the default interactive state.
    pub fn add_node(&mut self, parent: Option<InteractiveObject>) -> (r: InteractiveObject)
        requires
            old(self).wf(),
            match parent {
                None => true,
                Some(p) => old(self).valid(p),
            },
        ensures
            final(self).wf(),
            r.idx == old(self).nodes@.len(),
            final(self).valid(r),
            final(self).nodes@ == old(self).nodes@.push(InteractiveObjectBase::fresh(parent)),
            final(self).refused@.len() == old(self).refused@.len() + 1,
            forall|i: int|
                0 <= i < old(self).refused@.len() ==> final(self).refused@[i] == #[trigger] old(
                    self,
                ).refused@[i],
            final(self).refused@[r.idx as int]@ == Seq::<EventClass>::empty(),
            final(self).children@.len() == old(self).children@.len() + 1,
            final(self).children@[r.idx as int]@ == Seq::<InteractiveObject>::empty(),
            forall|i: int|
                0 <= i < old(self).children@.len() && parent != Some(
                    InteractiveObject { idx: i as usize },
                ) ==> final(self).children@[i] == #[trigger] old(self).children@[i],
            match parent {
                None => forall|i: int|
                    0 <= i < old(self).children@.len() ==> final(self).children@[i] == #[trigger] old(
                        self,
                    ).children@[i],
                Some(p) => final(self).children@[p.idx as int]@ == old(self).children@[p.idx as int]@.push(
                    r,
                ),
            },
    {
        let idx = self.nodes.len();
        let r = InteractiveObject { idx };
        self.nodes.push(InteractiveObjectBase {
            parent,
            mouse_enabled: true,
            double_click_enabled: false,
            context_menu: ScriptValue::Null,
            last_click: None,
            script_object: None,
        });
        self.children.push(Vec::new());
        self.refused.push(Vec::new());
        if let Some(p) = parent {
            self.children[p.idx].push(r);
        }
        proof {
            assert forall|i: int| 0 <= i < self.nodes@.len() implies #[trigger] self.parent_wf(
                i,
            ) by {
                if i < old(self).nodes@.len() {
                    assert(old(self).parent_wf(i));
                }
            }
            assert forall|i: int, k: int|
                0 <= i < self.nodes@.len() && 0 <= k < self.num_children(i) implies #[trigger] self
                .child_wf(i, k) by {
                if i < old(self).nodes@.len() {
                    if k < old(self).num_children(i) {
                        assert(old(self).child_wf(i, k));
                    }
                }
            }
        }
        r
    }

    /// Whether the node accepts user input.
    pub fn mouse_enabled(&self, obj: InteractiveObject) -> (r: bool)
        requires
            self.valid(obj),
        ensures
            r == self.node(obj.idx as int).mouse_enabled,
    {
        self.nodes[obj.idx].mouse_enabled
    }

    /// Set whether the node accepts user input.
    pub fn set_mouse_enabled(&mut self, obj: InteractiveObject, value: bool)
        requires
            old(self).wf(),
            old(self).valid(obj),
        ensures
            final(self).wf(),
            final(self).nodes@ == old(self).nodes@.update(
                obj.idx as int,
                InteractiveObjectBase { mouse_enabled: value, ..old(self).node(obj.idx as int) },
            ),
            final(self).children == old(self).children,
            final(self).refused == old(self).refused,
    {
        let n = self.nodes[obj.idx];
        self.nodes[obj.idx] = InteractiveObjectBase { mouse_enabled: value, ..n };
        proof {
            self.lemma_same_links_wf(*old(self));
        }
    }

    /// Whether the node accepts double-click events.
    pub fn double_click_enabled(&self, obj: InteractiveObject) -> (r: bool)
        requires
            self.valid(obj),
        ensures
            r == self.node(obj.idx as int).double_click_enabled,
    {
        self.nodes[obj.idx].double_click_enabled
    }

    /// Set whether the node accepts double-click events.
    pub fn set_double_click_enabled(&mut self, obj: InteractiveObject, value: bool)
        requires
            old(self).wf(),
            old(self).valid(obj),
        ensures
            final(self).wf(),
            final(self).nodes@ == old(self).nodes@.update(
                obj.idx as int,
                InteractiveObjectBase {
                    double_click_enabled: value,
                    ..old(self).node(obj.idx as int)
                },
            ),
            final(self).children == old(self).children,
            final(self).refused == old(self).refused,
    {
        let n = self.nodes[obj.idx];
        self.nodes[obj.idx] = InteractiveObjectBase { double_click_enabled: value, ..n };
        proof {
            self.lemma_same_links_wf(*old(self));
        }
    }

    /// The node's context menu value.
    pub fn context_menu(&self, obj: InteractiveObject) -> (r: ScriptValue)
        requires
            self.valid(obj),
        ensures
            r == self.node(obj.idx as int).context_menu,
    {
        self.nodes[obj.idx].context_menu
    }

    /// Store a context menu value on the node.
    pub fn set_context_menu(&mut self, obj: InteractiveObject, value: ScriptValue)
        requires
            old(self).wf(),
            old(self).valid(obj),
        ensures
            final(self).wf(),
            final(self).nodes@ == old(self).nodes@.update(
                obj.idx as int,
                InteractiveObjectBase { context_menu: value, ..old(self).node(obj.idx as int) },
            ),
            final(self).children == old(self).children,
            final(self).refused == old(self).refused,
    {
        let n = self.nodes[obj.idx];
        self.nodes[obj.idx] = InteractiveObjectBase { context_menu: value, ..n };
        proof {
            self.lemma_same_links_wf(*old(self));
        }
    }

    /// The time of the most recent unmatched click on the node, if the node is
    /// primed for a double-click.
    pub fn last_click(&self, obj: InteractiveObject) -> (r: Option<u64>)
        requires
            self.valid(obj),
        ensures
            r == self.node(obj.idx as int).last_click,
    {
        self.nodes[obj.idx].last_click
    }

    /// The node's scripted identity, if it has one.
    pub fn script_object(&self, obj: InteractiveObject) -> (r: Option<u64>)
        requires
            self.valid(obj),
        ensures
            r == self.node(obj.idx as int).script_object,
    {
        self.nodes[obj.idx].script_object
    }

    /// Give the node a scripted identity, or take it away.
    pub fn set_script_object(&mut self, obj: InteractiveObject, value: Option<u64>)
        requires
            old(self).wf(),
            old(self).valid(obj),
        ensures
            final(self).wf(),
            final(self).nodes@ == old(self).nodes@.update(
                obj.idx as int,
                InteractiveObjectBase { script_object: value, ..old(self).node(obj.idx as int) },
            ),
            final(self).children == old(self).children,
            final(self).refused == old(self).refused,
    {
        let n = self.nodes[obj.idx];
        self.nodes[obj.idx] = InteractiveObjectBase { script_object: value, ..n };
        proof {
            self.lemma_same_links_wf(*old(self));
        }
    }

    /// Prime or clear the node's double-click timer.
    pub(crate) fn set_last_click(&mut self, obj: InteractiveObject, value: Option<u64>)
        requires
            old(self).wf(),
            old(self).valid(obj),
        ensures
            final(self).wf(),
            final(self).nodes@ == old(self).nodes@.update(
                obj.idx as int,
                InteractiveObjectBase { last_click: value, ..old(self).node(obj.idx as int) },
            ),
            final(self).children == old(self).children,
            final(self).refused == old(self).refused,
    {
        let n = self.nodes[obj.idx];
        self.nodes[obj.idx] = InteractiveObjectBase { last_click: value, ..n };
        proof {
            self.lemma_same_links_wf(*old(self));
        }
    }

    /// The node's parent, `None` for a root.
    pub fn parent(&self, obj: InteractiveObject) -> (r: Option<InteractiveObject>)
        requires
            self.valid(obj),
        ensures
            r == self.node(obj.idx as int).parent,
    {
        self.nodes[obj.idx].parent
    }

    /// Record that the node's filter refuses a class of events.
    pub fn refuse_clip_event(&mut self, obj: InteractiveObject, class: EventClass)
        requires
            old(self).wf(),
            old(self).valid(obj),
        ensures
            final(self).wf(),
            final(self).nodes == old(self).nodes,
            final(self).children == old(self).children,
            final(self).refused@.len() == old(self).refused@.len(),
            final(self).refused@[obj.idx as int]@ == old(self).refused@[obj.idx as int]@.push(class),
            forall|i: int|
                0 <= i < old(self).refused@.len() && i != obj.idx ==> final(self).refused@[i]
                    == #[trigger] old(self).refused@[i],
    {
        self.refused[obj.idx].push(class);
        proof {
            self.lemma_same_links_wf(*old(self));
        }
    }

    /// Whether the node's filter lets the event through.
    pub open spec fn filter_passes(self, i: int, event: ClipEvent) -> bool {
        !self.refused@[i]@.contains(event.class_spec())
    }

    /// Filter the incoming event against the node's refusal list. A refused
    /// event is not handled by this node, nor propagated to its children; it
    /// passes to the node's siblings instead.
    pub fn filter_clip_event(&self, obj: InteractiveObject, event: ClipEvent) -> (r:
        ClipEventResult)
        requires
            self.wf(),
            self.valid(obj),
        ensures
            r == (if self.filter_passes(obj.idx as int, event) {
                ClipEventResult::Handled
            } else {
                ClipEventResult::NotHandled
            }),
    {
        let class = event.class();
        let list = &self.refused[obj.idx];
        let ghost refused = self.refused@[obj.idx as int]@;
        assert(list@ == refused);
        let mut k: usize = 0;
        while k < list.len()
            invariant
                self.wf(),
                obj.idx < self.nodes@.len(),
                refused == self.refused@[obj.idx as int]@,
                k <= refused.len(),
                list@ == refused,
                class == event.class_spec(),
                forall|j: int| 0 <= j < k ==> refused[j] != event.class_spec(),
            decreases refused.len() - k,
        {
            if list[k] == class {
                assert(refused[k as int] == event.class_spec());
                assert(refused.contains(event.class_spec()));
                return ClipEventResult::NotHandled;
            }
            k += 1;
        }
        assert(!refused.contains(event.class_spec()));
        ClipEventResult::Handled
    }

    /// The parent and child links of two equally long arenas coincide, so
    /// well-formedness carries over from `other` to `self`.
    proof fn lemma_same_links_wf(&self, other: Scene)
        requires
            other.wf(),
            self.nodes@.len() == other.nodes@.len(),
            forall|i: int|
                0 <= i < self.nodes@.len() ==> self.nodes@[i].parent == #[trigger] other.nodes@[i].parent,
            self.children == other.children,
            self.refused@.len() == other.refused@.len(),
        ensures
            self.wf(),
    {
        assert forall|i: int| 0 <= i < self.nodes@.len() implies #[trigger] self.parent_wf(i) by {
            assert(other.parent_wf(i));
        }
        assert forall|i: int, k: int|
            0 <= i < self.nodes@.len() && 0 <= k < self.num_children(i) implies #[trigger] self
            .child_wf(i, k) by {
            assert(other.child_wf(i, k));
        }
    }
}

} // verus!
