//! Lowest-common-ancestor resolution over concrete trees.

use interactive_dispatch::lowest_common_ancestor;
use interactive_dispatch::Scene;

#[test]
fn lca_of_siblings_is_their_parent() {
    // A (stage) -> B -> C and A -> D.
    let mut scene = Scene::new();
    let a = scene.stage();
    let b = scene.add_node(Some(a));
    let c = scene.add_node(Some(b));
    let d = scene.add_node(Some(a));
    assert_eq!(lowest_common_ancestor(&scene, c, d), Some(a));
    assert_eq!(lowest_common_ancestor(&scene, d, c), Some(a));
}

#[test]
fn lca_of_node_and_ancestor_is_the_ancestor() {
    let mut scene = Scene::new();
    let a = scene.stage();
    let b = scene.add_node(Some(a));
    let c = scene.add_node(Some(b));
    assert_eq!(lowest_common_ancestor(&scene, c, b), Some(b));
    assert_eq!(lowest_common_ancestor(&scene, b, c), Some(b));
}

#[test]
fn lca_of_node_with_itself_is_itself() {
    let mut scene = Scene::new();
    let a = scene.stage();
    let b = scene.add_node(Some(a));
    let c = scene.add_node(Some(b));
    assert_eq!(lowest_common_ancestor(&scene, c, c), Some(c));
    assert_eq!(lowest_common_ancestor(&scene, a, a), Some(a));
}

#[test]
fn lca_of_disconnected_trees_is_none() {
    let mut scene = Scene::new();
    let a = scene.stage();
    let b = scene.add_node(Some(a));
    let x = scene.add_node(None);
    let y = scene.add_node(Some(x));
    assert_eq!(lowest_common_ancestor(&scene, b, y), None);
    assert_eq!(lowest_common_ancestor(&scene, y, a), None);
}

#[test]
fn lca_within_detached_tree() {
    let mut scene = Scene::new();
    let x = scene.add_node(None);
    let y = scene.add_node(Some(x));
    let z = scene.add_node(Some(x));
    assert_eq!(lowest_common_ancestor(&scene, y, z), Some(x));
}
