//! Window tree snapshots and the search for the focused window.

use vstd::prelude::*;

verus! {

/// One container of the window manager's tree, as the library reads it.
#[derive(Debug)]
pub struct WindowTreeNode {
    pub focused: bool,
    pub id: i64,
    pub children: Vec<WindowTreeNode>,
    pub floating_children: Vec<WindowTreeNode>,
    /// Ids of the children (tiled or floating) in focus order, most recent
    /// first. The search does not rely on it: a stale order cannot hide the
    /// focused window.
    pub focus_order: Vec<i64>,
}

/// Ids of the focused nodes of a tree, in depth-first order: the node itself,
/// then its children, then its floating children.
pub open spec fn focused_ids(node: WindowTreeNode) -> Seq<i64>
    decreases node,
{
    let own: Seq<i64> = if node.focused { seq![node.id] } else { Seq::empty() };
    own + focused_ids_in(node.children@) + focused_ids_in(node.floating_children@)
}

/// Ids of the focused nodes of a sequence of trees, tree by tree.
pub open spec fn focused_ids_in(nodes: Seq<WindowTreeNode>) -> Seq<i64>
    decreases nodes,
{
    if nodes.len() == 0 {
        Seq::empty()
    } else {
        focused_ids_in(nodes.subrange(0, nodes.len() - 1)) + focused_ids(nodes[nodes.len() - 1])
    }
}

/// The id a search should report for a sequence of focused ids: the one id
/// when there is exactly one, and none when there are none or several.
pub open spec fn single(ids: Seq<i64>) -> Option<i64> {
    if ids.len() == 1 {
        Some(ids[0])
    } else {
        None
    }
}

/// The focused window of a tree: its only focused node, if it has exactly one.
pub open spec fn resolved(root: WindowTreeNode) -> Option<i64> {
    single(focused_ids(root))
}

/// How many focused nodes a part of a tree holds, counted up to two.
enum Tally {
    Nothing,
    One(i64),
    Several,
}

spec fn tally_of(ids: Seq<i64>) -> Tally {
    if ids.len() == 0 {
        Tally::Nothing
    } else if ids.len() == 1 {
        Tally::One(ids[0])
    } else {
        Tally::Several
    }
}

spec fn combine(a: Tally, b: Tally) -> Tally {
    match (a, b) {
        (Tally::Nothing, _) => b,
        (_, Tally::Nothing) => a,
        _ => Tally::Several,
    }
}

proof fn lemma_tally_concat(xs: Seq<i64>, ys: Seq<i64>)
    ensures
        tally_of(xs + ys) == combine(tally_of(xs), tally_of(ys)),
{
    if xs.len() == 0 {
        assert(xs + ys =~= ys);
    } else if ys.len() == 0 {
        assert(xs + ys =~= xs);
    } else {
        assert((xs + ys)[0] == xs[0]);
    }
}

fn merge(a: Tally, b: Tally) -> (r: Tally)
    ensures
        r == combine(a, b),
{
    match (a, b) {
        (Tally::Nothing, b) => b,
        (a, Tally::Nothing) => a,
        _ => Tally::Several,
    }
}

fn scan_node(node: &WindowTreeNode) -> (r: Tally)
    ensures
        r == tally_of(focused_ids(*node)),
    decreases node,
{
    let own = if node.focused {
        Tally::One(node.id)
    } else {
        Tally::Nothing
    };
    let tiled = scan_nodes(&node.children);
    let floating = scan_nodes(&node.floating_children);
    proof {
        let own_ids: Seq<i64> = if node.focused { seq![node.id] } else { Seq::empty() };
        let tiled_ids = focused_ids_in(node.children@);
        let floating_ids = focused_ids_in(node.floating_children@);
        lemma_tally_concat(own_ids, tiled_ids);
        lemma_tally_concat(own_ids + tiled_ids, floating_ids);
    }
    merge(merge(own, tiled), floating)
}

fn scan_nodes(nodes: &Vec<WindowTreeNode>) -> (r: Tally)
    ensures
        r == tally_of(focused_ids_in(nodes@)),
    decreases nodes,
{
    let mut acc = Tally::Nothing;
    let mut i: usize = 0;
    while i < nodes.len()
        invariant
            0 <= i <= nodes.len(),
            acc == tally_of(focused_ids_in(nodes@.subrange(0, i as int))),
        decreases nodes.len() - i,
    {
        let t = scan_node(&nodes[i]);
        proof {
            let prefix = nodes@.subrange(0, i + 1);
            assert(prefix.subrange(0, i as int) =~= nodes@.subrange(0, i as int));
            lemma_tally_concat(focused_ids_in(nodes@.subrange(0, i as int)), focused_ids(nodes@[i as int]));
        }
        acc = merge(acc, t);
        i = i + 1;
    }
    assert(nodes@.subrange(0, nodes.len() as int) =~= nodes@);
    acc
}

/// Finds the focused window by searching the whole tree.
///
/// Returns the id of the one focused node; a tree with no focused node, or
/// with several, has no focused window.
pub fn resolve_focused(root: &WindowTreeNode) -> (r: Option<i64>)
    ensures
        r == resolved(*root),
{
    match scan_node(root) {
        Tally::One(id) => Some(id),
        _ => None,
    }
}

/// On a tree with exactly one focused node the search reports that node's id,
/// and on a tree with no focused node it reports none.
pub proof fn lemma_resolves_only_focused(root: WindowTreeNode)
    ensures
        focused_ids(root).len() == 1 ==> resolved(root) == Some(focused_ids(root)[0]),
        focused_ids(root).len() == 0 ==> resolved(root) == None::<i64>,
{
}

} // verus!
