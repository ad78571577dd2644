//! The history store: the last previous window that the event loop published,
//! which switch requests read.

use vstd::prelude::*;

verus! {

/// The last published previous window, if any.
#[derive(Clone, Copy, PartialEq, Eq, Structural, Debug)]
pub struct HistoryCell {
    last: Option<i64>,
}

impl HistoryCell {
    /// What the cell holds: the last id published since it was made or cleared.
    pub closed spec fn last_published(self) -> Option<i64> {
        self.last
    }

    /// A cell with nothing published yet.
    pub fn new() -> (r: Self)
        ensures
            r.last_published() == None::<i64>,
    {
        HistoryCell { last: None }
    }

    /// Stores `id` as the previous window, replacing what the cell held.
    pub fn publish(&mut self, id: i64)
        ensures
            final(self).last_published() == Some(id),
    {
        self.last = Some(id);
    }

    /// Forgets what was published, so that a switch finds no history.
    pub fn clear(&mut self)
        ensures
            final(self).last_published() == None::<i64>,
    {
        self.last = None;
    }

    /// The last published previous window, if any was published.
    pub fn read_last(&self) -> (r: Option<i64>)
        ensures
            r == self.last_published(),
    {
        self.last
    }
}

} // verus!
