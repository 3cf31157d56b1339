//! The ancestor-path resolver: lowest common ancestor between two nodes, used
//! to scope rollover/rollout chains.

use vstd::prelude::*;

use crate::object::InteractiveObject;
use crate::scene::Scene;

verus! {

/// The ancestor chain of a node: the node itself first, then its parent, and
/// so on up to the root of its tree.
pub open spec fn ancestors(s: Scene, o: InteractiveObject) -> Seq<InteractiveObject>
    decreases o.idx,
        when s.wf() && o.idx < s.nodes@.len()
{
    match s.nodes@[o.idx as int].parent {
        None => seq![o],
        Some(p) => {
            proof {
                assert(s.parent_wf(o.idx as int));
            }
            seq![o] + ancestors(s, p)
        },
    }
}

/// How many trailing entries two sequences share: the length of their longest
/// common suffix.
pub open spec fn common_suffix_len(a: Seq<InteractiveObject>, b: Seq<InteractiveObject>) -> nat
    decreases a.len(),
{
    if a.len() == 0 || b.len() == 0 || a.last() != b.last() {
        0
    } else {
        1 + common_suffix_len(a.drop_last(), b.drop_last())
    }
}

/// The lowest common ancestor of two nodes: walk both ancestor chains from the
/// root downward while they agree; the last agreeing node is the answer, and
/// there is none when the two nodes share no ancestor at all.
pub open spec fn lca(s: Scene, a: InteractiveObject, b: InteractiveObject) -> Option<
    InteractiveObject,
> {
    let ca = ancestors(s, a);
    let cb = ancestors(s, b);
    let n = common_suffix_len(ca, cb);
    if n == 0 {
        None
    } else {
        Some(ca[ca.len() - n])
    }
}

/// `common_suffix_len` is exactly the count `k` of trailing agreeing entries,
/// for any `k` whose next entry (if any) disagrees.
proof fn lemma_common_suffix_len_char(a: Seq<InteractiveObject>, b: Seq<InteractiveObject>, k: int)
    requires
        0 <= k <= a.len(),
        k <= b.len(),
        forall|j: int| 0 <= j < k ==> #[trigger] a[a.len() - 1 - j] == b[b.len() - 1 - j],
        k == a.len() || k == b.len() || a[a.len() - 1 - k] != b[b.len() - 1 - k],
    ensures
        common_suffix_len(a, b) == k,
    decreases k,
{
    if k == 0 {
        if a.len() != 0 && b.len() != 0 {
            assert(a.last() != b.last());
        }
    } else {
        assert(a[a.len() - 1 - 0] == b[b.len() - 1 - 0]);
        let a1 = a.drop_last();
        let b1 = b.drop_last();
        assert forall|j: int| 0 <= j < k - 1 implies #[trigger] a1[a1.len() - 1 - j] == b1[b1.len()
            - 1 - j] by {
            assert(a[a.len() - 1 - (j + 1)] == b[b.len() - 1 - (j + 1)]);
        }
        if !(k - 1 == a1.len() || k - 1 == b1.len()) {
            assert(a[a.len() - 1 - k] != b[b.len() - 1 - k]);
            assert(a1[a1.len() - 1 - (k - 1)] != b1[b1.len() - 1 - (k - 1)]);
        }
        lemma_common_suffix_len_char(a1, b1, k - 1);
    }
}

/// Find the lowest common ancestor between the nodes `from` and `to`.
///
/// Both ancestor chains are collected, then walked from the root downward
/// while corresponding entries are identity-equal; the last equal pair is the
/// answer. Returns `None` only when the two nodes share no ancestor at all,
/// which in the single-stage model means one side is not attached.
pub fn lowest_common_ancestor(scene: &Scene, from: InteractiveObject, to: InteractiveObject) -> (r:
    Option<InteractiveObject>)
    requires
        scene.wf(),
        scene.valid(from),
        scene.valid(to),
    ensures
        r == lca(*scene, from, to),
{
    let ghost ca = ancestors(*scene, from);
    let ghost cb = ancestors(*scene, to);

    let mut chain_a: Vec<InteractiveObject> = Vec::new();
    let mut cur: Option<InteractiveObject> = Some(from);
    while cur.is_some()
        invariant
            scene.wf(),
            from.idx < scene.nodes@.len(),
            ca == ancestors(*scene, from),
            match cur {
                Some(c) => c.idx < scene.nodes@.len() && chain_a@ + ancestors(*scene, c) == ca,
                None => chain_a@ == ca,
            },
        decreases ca.len() - chain_a@.len(),
    {
        let c = cur.unwrap();
        let p = scene.parent(c);
        proof {
            assert(scene.parent_wf(c.idx as int));
            match p {
                None => {
                    assert(chain_a@.push(c) =~= chain_a@ + seq![c]);
                },
                Some(q) => {
                    assert((chain_a@.push(c)) + ancestors(*scene, q) =~= chain_a@ + (seq![c]
                        + ancestors(*scene, q)));
                },
            }
        }
        chain_a.push(c);
        cur = p;
    }

    let mut chain_b: Vec<InteractiveObject> = Vec::new();
    let mut cur_b: Option<InteractiveObject> = Some(to);
    while cur_b.is_some()
        invariant
            scene.wf(),
            to.idx < scene.nodes@.len(),
            cb == ancestors(*scene, to),
            match cur_b {
                Some(c) => c.idx < scene.nodes@.len() && chain_b@ + ancestors(*scene, c) == cb,
                None => chain_b@ == cb,
            },
        decreases cb.len() - chain_b@.len(),
    {
        let c = cur_b.unwrap();
        let p = scene.parent(c);
        proof {
            assert(scene.parent_wf(c.idx as int));
            match p {
                None => {
                    assert(chain_b@.push(c) =~= chain_b@ + seq![c]);
                },
                Some(q) => {
                    assert((chain_b@.push(c)) + ancestors(*scene, q) =~= chain_b@ + (seq![c]
                        + ancestors(*scene, q)));
                },
            }
        }
        chain_b.push(c);
        cur_b = p;
    }

    let la = chain_a.len();
    let lb = chain_b.len();
    let shorter = if la < lb {
        la
    } else {
        lb
    };
    let mut k: usize = 0;
    let mut hca: Option<InteractiveObject> = None;
    while k < shorter && chain_a[la - 1 - k].idx == chain_b[lb - 1 - k].idx
        invariant
            chain_a@ == ca,
            chain_b@ == cb,
            la == ca.len(),
            lb == cb.len(),
            shorter == if la < lb {
                la as int
            } else {
                lb as int
            },
            k <= shorter,
            forall|j: int| 0 <= j < k ==> #[trigger] ca[ca.len() - 1 - j] == cb[cb.len() - 1 - j],
            hca == (if k == 0 {
                None::<InteractiveObject>
            } else {
                Some(ca[ca.len() - k])
            }),
        decreases shorter - k,
    {
        hca = Some(chain_a[la - 1 - k]);
        k += 1;
    }
    proof {
        if k < shorter {
            assert(ca[ca.len() - 1 - k as int] != cb[cb.len() - 1 - k as int]);
        }
        lemma_common_suffix_len_char(ca, cb, k as int);
    }
    hca
}

} // verus!
