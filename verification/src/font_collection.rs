//! Walking the families of a font collection.

use vstd::prelude::*;

verus! {

/// The position of a walk through the families of a collection: the
/// families before `position` have been handed out, those from it on up
/// to `count` are still to come.
pub struct FontCollectionFamilyIterator {
    curr: u32,
    count: u32,
}

impl FontCollectionFamilyIterator {
    /// The index of the family that comes next.
    pub closed spec fn position(&self) -> u32 {
        self.curr
    }

    /// The number of families in the collection.
    pub closed spec fn family_count(&self) -> u32 {
        self.count
    }

    /// A walk never passes the end of the collection.
    pub open spec fn wf(&self) -> bool {
        self.position() <= self.family_count()
    }

    /// Starts a walk through a collection of `count` families.
    pub fn new(count: u32) -> (walk: Self)
        ensures
            walk.wf(),
            walk.position() == 0,
            walk.family_count() == count,
    {
        FontCollectionFamilyIterator { curr: 0, count }
    }

    /// The index of the family to fetch next; `None` at the end of the
    /// collection.
    pub fn next_index(&self) -> (index: Option<u32>)
        requires
            self.wf(),
        ensures
            index == (if self.position() == self.family_count() {
                None
            } else {
                Some(self.position())
            }),
    {
        if self.curr == self.count {
            None
        } else {
            Some(self.curr)
        }
    }

    /// Records how the fetch of the next family ended and tells whether
    /// the walk hands the family out. The walk moves on after a fetch
    /// that succeeded; after one that failed it hands out nothing and
    /// stays, so that the same family is tried again.
    pub fn family_fetched(&mut self, succeeded: bool) -> (handed_out: bool)
        requires
            old(self).wf(),
            old(self).position() < old(self).family_count(),
        ensures
            final(self).wf(),
            handed_out == succeeded,
            final(self).family_count() == old(self).family_count(),
            final(self).position() == (if succeeded {
                old(self).position() + 1
            } else {
                old(self).position() as int
            }),
    {
        if succeeded {
            self.curr += 1;
        }
        succeeded
    }

    /// The number of families that are still to come.
    pub fn remaining(&self) -> (left: u32)
        requires
            self.wf(),
        ensures
            left == self.family_count() - self.position(),
    {
        self.count - self.curr
    }
}

} // verus!
