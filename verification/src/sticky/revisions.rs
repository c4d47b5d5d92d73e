//! The revisions that bindings are told apart by.

use vstd::prelude::*;

verus! {

/// The revision that follows `revision`. The counter wraps around.
pub open spec fn revision_after(revision: u64) -> u64 {
    if revision == u64::MAX {
        0
    } else {
        (revision + 1) as u64
    }
}

/// Gives out the revisions of bindings.
///
/// One counter serves all the stores of a process, so that no two bindings share
/// a revision, whichever stores hold them, until the counter wraps around.
pub struct AffinityRevisions {
    next: u64,
}

impl AffinityRevisions {
    /// The revision that is given out next.
    pub closed spec fn next(&self) -> u64 {
        self.next
    }

    /// The revision that is given out next after one more was taken, or none.
    pub open spec fn after(&self, taken: bool) -> u64 {
        if taken {
            revision_after(self.next())
        } else {
            self.next()
        }
    }

    /// The counter of a process that has made no binding yet.
    pub fn new() -> (revisions: AffinityRevisions)
        ensures
            revisions.next() == 1,
    {
        AffinityRevisions { next: 1 }
    }

    /// Give out the next revision.
    pub fn take(&mut self) -> (revision: u64)
        ensures
            revision == old(self).next(),
            final(self).next() == revision_after(old(self).next()),
    {
        let revision = self.next;
        self.next = if revision == u64::MAX {
            0
        } else {
            revision + 1
        };
        revision
    }
}

} // verus!
