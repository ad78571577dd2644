//! The focus tracker: the focused window now and the one focused before it.

use vstd::prelude::*;
use crate::tree::{resolve_focused, resolved, WindowTreeNode};

verus! {

/// The tracker's state within one session with the window manager.
#[derive(Clone, Copy, PartialEq, Eq, Structural, Debug)]
pub struct FocusState {
    pub current: Option<i64>,
    pub previous: Option<i64>,
}

impl FocusState {
    /// The state and the id to publish after the tracker learns that `seen` is
    /// focused (none: the tree did not resolve). A new window moves the current
    /// one, if any, into `previous`, and that id is published.
    pub open spec fn step(self, seen: Option<i64>) -> (Self, Option<i64>) {
        match seen {
            None => (self, None),
            Some(id) => if self.current == Some(id) {
                (self, None)
            } else {
                let previous = if self.current.is_some() { self.current } else { self.previous };
                (FocusState { current: Some(id), previous }, self.current)
            },
        }
    }

    /// A state with no focused window and no history.
    pub fn new() -> (r: Self)
        ensures
            r.current == None::<i64>,
            r.previous == None::<i64>,
    {
        FocusState { current: None, previous: None }
    }

    /// The state at the start of a session: the tree's focused window is
    /// current, and there is no history.
    pub fn start(tree: &WindowTreeNode) -> (r: Self)
        ensures
            r.current == resolved(*tree),
            r.previous == None::<i64>,
    {
        FocusState { current: resolve_focused(tree), previous: None }
    }

    /// Forgets the current window and the history.
    pub fn reset(&mut self)
        ensures
            final(self).current == None::<i64>,
            final(self).previous == None::<i64>,
    {
        self.current = None;
        self.previous = None;
    }

    /// Takes in that `seen` is now focused, and returns the id to publish as
    /// the previous window, if one is owed.
    pub fn on_resolved(&mut self, seen: Option<i64>) -> (published: Option<i64>)
        ensures
            (*final(self), published) == old(self).step(seen),
    {
        match seen {
            None => None,
            Some(id) => {
                if self.current == Some(id) {
                    None
                } else {
                    let published = self.current;
                    if published.is_some() {
                        self.previous = published;
                    }
                    self.current = Some(id);
                    published
                }
            },
        }
    }

    /// Takes in a new snapshot of the tree, and returns the id to publish as
    /// the previous window, if one is owed.
    pub fn on_focus_changed(&mut self, tree: &WindowTreeNode) -> (published: Option<i64>)
        ensures
            (*final(self), published) == old(self).step(resolved(*tree)),
    {
        let seen = resolve_focused(tree);
        self.on_resolved(seen)
    }
}

/// The same focused window seen twice in a row: the second time changes
/// nothing and publishes nothing.
pub proof fn lemma_repeat_is_silent(s: FocusState, seen: Option<i64>)
    ensures
        s.step(seen).0.step(seen) == (s.step(seen).0, None::<i64>),
{
}

/// After windows `a`, `b`, `c` are focused in turn, no two in a row the same,
/// `previous` is `a` once `b` is current and `b` once `c` is current.
pub proof fn lemma_history(s: FocusState, a: i64, b: i64, c: i64)
    requires
        a != b,
        b != c,
    ensures
        ({
            let after_b = s.step(Some(a)).0.step(Some(b)).0;
            let after_c = after_b.step(Some(c)).0;
            &&& after_b.current == Some(b)
            &&& after_b.previous == Some(a)
            &&& after_c.current == Some(c)
            &&& after_c.previous == Some(b)
        }),
{
}

} // verus!
