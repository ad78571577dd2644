use i3back::tree::{resolve_focused, WindowTreeNode};

fn node(id: i64, focused: bool, children: Vec<WindowTreeNode>) -> WindowTreeNode {
    WindowTreeNode { focused, id, children, floating_children: vec![], focus_order: vec![] }
}

fn leaf(id: i64, focused: bool) -> WindowTreeNode {
    node(id, focused, vec![])
}

#[test]
fn resolve_example_tree() {
    let root = node(1, false, vec![leaf(2, true)]);
    assert_eq!(resolve_focused(&root), Some(2));
}

#[test]
fn resolve_focused_root() {
    let root = node(7, true, vec![leaf(8, false)]);
    assert_eq!(resolve_focused(&root), Some(7));
}

#[test]
fn resolve_without_focused_node() {
    let root = node(1, false, vec![leaf(2, false), node(3, false, vec![leaf(4, false)])]);
    assert_eq!(resolve_focused(&root), None);
}

#[test]
fn resolve_empty_tree() {
    assert_eq!(resolve_focused(&leaf(1, false)), None);
}

#[test]
fn resolve_two_focused_nodes_is_none() {
    let root = node(1, false, vec![leaf(2, true), node(3, false, vec![leaf(4, true)])]);
    assert_eq!(resolve_focused(&root), None);
}

#[test]
fn resolve_deep_node() {
    let root = node(
        1,
        false,
        vec![leaf(2, false), node(3, false, vec![leaf(4, false), node(5, false, vec![leaf(6, true)])])],
    );
    assert_eq!(resolve_focused(&root), Some(6));
}

#[test]
fn resolve_floating_node() {
    let mut root = node(1, false, vec![leaf(2, false)]);
    root.floating_children = vec![leaf(9, true)];
    assert_eq!(resolve_focused(&root), Some(9));
}

#[test]
fn resolve_tiled_and_floating_focused_is_none() {
    let mut root = node(1, false, vec![leaf(2, true)]);
    root.floating_children = vec![leaf(9, true)];
    assert_eq!(resolve_focused(&root), None);
}

#[test]
fn resolve_with_focus_order_to_focused_node() {
    let mut mid = node(3, false, vec![leaf(4, false), leaf(5, true)]);
    mid.focus_order = vec![5, 4];
    let mut root = node(1, false, vec![leaf(2, false), mid]);
    root.focus_order = vec![3, 2];
    assert_eq!(resolve_focused(&root), Some(5));
}

#[test]
fn resolve_with_focus_order_into_floating_child() {
    let mut root = node(1, false, vec![leaf(2, false)]);
    root.floating_children = vec![leaf(9, true)];
    root.focus_order = vec![9, 2];
    assert_eq!(resolve_focused(&root), Some(9));
}

#[test]
fn resolve_with_duplicate_child_ids() {
    let mut root = node(1, false, vec![leaf(4, true)]);
    root.floating_children = vec![leaf(4, false)];
    root.focus_order = vec![4];
    assert_eq!(resolve_focused(&root), Some(4));
}

#[test]
fn resolve_ignores_empty_focus_order() {
    let root = node(1, false, vec![leaf(2, true)]);
    assert!(root.focus_order.is_empty());
    assert_eq!(resolve_focused(&root), Some(2));
}

#[test]
fn resolve_ignores_stale_focus_order() {
    let mut root = node(1, false, vec![leaf(2, true)]);
    root.focus_order = vec![3];
    assert_eq!(resolve_focused(&root), Some(2));
}

#[test]
fn resolve_focused_node_off_the_focus_order() {
    let mut root = node(1, false, vec![leaf(2, true), leaf(3, false)]);
    root.focus_order = vec![3, 2];
    assert_eq!(resolve_focused(&root), Some(2));
}

#[test]
fn resolve_focused_root_with_focused_child_is_none() {
    let mut root = node(1, true, vec![leaf(2, true)]);
    root.focus_order = vec![2];
    assert_eq!(resolve_focused(&root), None);
}

#[test]
fn resolve_same_window_in_different_trees() {
    let mut first = node(1, false, vec![leaf(2, false), leaf(7, true)]);
    first.focus_order = vec![7, 2];
    let second = node(1, false, vec![leaf(7, true), leaf(2, false)]);
    assert_eq!(resolve_focused(&first), Some(7));
    assert_eq!(resolve_focused(&second), Some(7));
}
