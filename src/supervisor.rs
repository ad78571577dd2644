//! The connection supervisor: what the daemon does next as events arrive from,
//! and connections to, the window manager come and go.

use vstd::prelude::*;
use crate::tracker::FocusState;
use crate::tree::{resolved, WindowTreeNode};

verus! {

/// Whether a session with the window manager is live.
#[derive(Clone, Copy, PartialEq, Eq, Structural, Debug)]
pub enum Link {
    Disconnected,
    Active,
}

/// What the daemon's loop reports to the supervisor.
#[derive(Debug)]
pub enum LinkEvent {
    /// Subscribing and fetching the first tree succeeded; the tree is given.
    Connected(WindowTreeNode),
    /// An event arrived and the tree fetched after it is given.
    TreeFetched(WindowTreeNode),
    /// Connecting, subscribing, receiving an event or fetching a tree failed.
    Failed,
}

/// What the daemon's loop does next.
#[derive(Clone, Copy, PartialEq, Eq, Structural, Debug)]
pub enum LinkAction {
    /// Clear the published previous window, which belongs to a session that
    /// has ended; wait this many milliseconds; then connect and subscribe.
    Connect(u64),
    /// Wait for the next event.
    Listen,
    /// Publish this id as the previous window, then wait for the next event.
    Publish(i64),
}

/// The supervisor's state: the link, the focus state of the live session, and
/// the delay before each new attempt to connect.
#[derive(Clone, Copy, PartialEq, Eq, Structural, Debug)]
pub struct Supervisor {
    pub link: Link,
    pub focus: FocusState,
    pub backoff_ms: u64,
}

impl Supervisor {
    /// The state and the action after `event`. A new session starts with the
    /// focused window of its first tree and no history; a failure ends the
    /// session, forgets its focus state, and asks for a new attempt after the
    /// backoff; a tree within a session goes to the focus tracker.
    pub open spec fn next(self, event: LinkEvent) -> (Self, LinkAction) {
        match event {
            LinkEvent::Connected(tree) => (
                Supervisor {
                    link: Link::Active,
                    focus: FocusState { current: resolved(tree), previous: None },
                    backoff_ms: self.backoff_ms,
                },
                LinkAction::Listen,
            ),
            LinkEvent::Failed => (
                Supervisor {
                    link: Link::Disconnected,
                    focus: FocusState { current: None, previous: None },
                    backoff_ms: self.backoff_ms,
                },
                LinkAction::Connect(self.backoff_ms),
            ),
            LinkEvent::TreeFetched(tree) => match self.link {
                Link::Disconnected => (self, LinkAction::Connect(self.backoff_ms)),
                Link::Active => {
                    let (focus, published) = self.focus.step(resolved(tree));
                    let action = match published {
                        Some(id) => LinkAction::Publish(id),
                        None => LinkAction::Listen,
                    };
                    (Supervisor { link: self.link, focus, backoff_ms: self.backoff_ms }, action)
                },
            },
        }
    }

    /// A supervisor with no session yet, which waits `backoff_ms` before each
    /// new attempt to connect.
    pub fn new(backoff_ms: u64) -> (r: Self)
        ensures
            r.link == Link::Disconnected,
            r.focus == (FocusState { current: None, previous: None }),
            r.backoff_ms == backoff_ms,
    {
        Supervisor { link: Link::Disconnected, focus: FocusState::new(), backoff_ms }
    }

    /// Takes in `event` and returns what the loop does next.
    pub fn handle(&mut self, event: LinkEvent) -> (action: LinkAction)
        ensures
            (*final(self), action) == old(self).next(event),
    {
        match event {
            LinkEvent::Connected(tree) => {
                self.link = Link::Active;
                self.focus = FocusState::start(&tree);
                LinkAction::Listen
            },
            LinkEvent::Failed => {
                self.link = Link::Disconnected;
                self.focus.reset();
                LinkAction::Connect(self.backoff_ms)
            },
            LinkEvent::TreeFetched(tree) => match self.link {
                Link::Disconnected => LinkAction::Connect(self.backoff_ms),
                Link::Active => match self.focus.on_focus_changed(&tree) {
                    Some(id) => LinkAction::Publish(id),
                    None => LinkAction::Listen,
                },
            },
        }
    }
}

/// A failure followed by a new session forgets the history, whatever it held:
/// the new session's only knowledge is the focused window of its first tree.
pub proof fn lemma_reconnect_forgets(s: Supervisor, tree: WindowTreeNode)
    ensures
        ({
            let (down, retry) = s.next(LinkEvent::Failed);
            let (up, action) = down.next(LinkEvent::Connected(tree));
            &&& retry == LinkAction::Connect(s.backoff_ms)
            &&& up.link == Link::Active
            &&& up.focus.previous == None::<i64>
            &&& up.focus.current == resolved(tree)
            &&& action == LinkAction::Listen
        }),
{
}

} // verus!
