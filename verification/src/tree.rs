//! The header tree: every header observed so far, keyed by hash, with the
//! height the reporting node assigned it and the parent hash the header names.
//!
//! Each hash appears at most once and insertion is monotonic: entries are
//! never removed. A caller that shares the tree between pollers wraps it in a
//! lock of its own and holds that lock only around the short lookups here,
//! never across a network call.

use vstd::prelude::*;

use crate::types::hash_eq;
use crate::types::BlockHash;

verus! {

/// One recorded header: its hash, its height, and its parent's hash.
#[derive(Clone, Copy, Debug, PartialEq, Eq)]
pub struct TreeEntry {
    pub hash: BlockHash,
    pub height: u64,
    pub prev: BlockHash,
}

/// The cumulative header store. The parent edge of an entry is the `prev`
/// hash it carries; an entry is a leaf when no entry names it as parent.
pub struct Tree {
    entries: Vec<TreeEntry>,
}

impl View for Tree {
    type V = Seq<TreeEntry>;

    closed spec fn view(&self) -> Seq<TreeEntry> {
        self.entries@
    }
}

impl Tree {
    /// A hash is recorded here.
    pub open spec fn spec_contains(self, h: Seq<u8>) -> bool {
        exists|i: int| 0 <= i < self@.len() && self@[i].hash@ == h
    }

    /// Each hash appears at most once.
    pub open spec fn wf(self) -> bool {
        forall|i: int, j: int|
            0 <= i < j < self@.len() ==> self@[i].hash@ != self@[j].hash@
    }

    /// The entry at `i` has no child: no entry names its hash as parent.
    pub open spec fn spec_is_leaf(self, i: int) -> bool {
        forall|j: int| 0 <= j < self@.len() ==> self@[j].prev@ != self@[i].hash@
    }

    /// Some entry is a leaf. This can only fail on an empty tree or on one
    /// whose parent edges close a cycle, which hashes of real headers never
    /// do.
    pub open spec fn spec_has_leaf(self) -> bool {
        exists|i: int| 0 <= i < self@.len() && self.spec_is_leaf(i)
    }

    /// `h` is the height of some leaf and no leaf stands higher.
    pub open spec fn is_max_leaf_height(self, h: u64) -> bool {
        &&& exists|i: int| 0 <= i < self@.len() && self.spec_is_leaf(i) && self@[i].height == h
        &&& forall|i: int|
            0 <= i < self@.len() && self.spec_is_leaf(i) ==> self@[i].height <= h
    }

    pub fn new() -> (t: Tree)
        ensures
            t@ == Seq::<TreeEntry>::empty(),
            t.wf(),
    {
        Tree { entries: Vec::new() }
    }

    pub fn len(&self) -> (n: usize)
        ensures
            n == self@.len(),
    {
        self.entries.len()
    }

    pub fn is_empty(&self) -> (r: bool)
        ensures
            r == (self@.len() == 0),
    {
        self.entries.len() == 0
    }

    /// Membership test for a hash: the check every fetch decision rests on.
    pub fn contains(&self, h: &BlockHash) -> (r: bool)
        ensures
            r == self.spec_contains(h@),
    {
        let mut i: usize = 0;
        while i < self.entries.len()
            invariant
                i <= self@.len(),
                forall|j: int| 0 <= j < i ==> self@[j].hash@ != h@,
            decreases self@.len() - i,
        {
            if hash_eq(&self.entries[i].hash, h) {
                return true;
            }
            i += 1;
        }
        false
    }

    /// Records a header. A hash already present is left as it stands, so the
    /// tree only ever grows and never holds a hash twice.
    pub fn insert(&mut self, hash: BlockHash, height: u64, prev: BlockHash) -> (added: bool)
        requires
            old(self).wf(),
        ensures
            final(self).wf(),
            added == !old(self).spec_contains(hash@),
            added ==> final(self)@ == old(self)@.push(TreeEntry { hash, height, prev }),
            !added ==> final(self)@ == old(self)@,
    {
        if self.contains(&hash) {
            return false;
        }
        self.entries.push(TreeEntry { hash, height, prev });
        proof {
            assert forall|i: int, j: int| 0 <= i < j < self@.len() implies self@[i].hash@
                != self@[j].hash@ by {
                if j == self@.len() - 1 {
                    assert(self@[i] == old(self)@[i]);
                }
            }
        }
        true
    }

    /// Whether the entry at `i` is a leaf.
    fn is_leaf_at(&self, i: usize) -> (r: bool)
        requires
            i < self@.len(),
        ensures
            r == self.spec_is_leaf(i as int),
    {
        let mut j: usize = 0;
        while j < self.entries.len()
            invariant
                i < self@.len(),
                j <= self@.len(),
                forall|k: int| 0 <= k < j ==> self@[k].prev@ != self@[i as int].hash@,
            decreases self@.len() - j,
        {
            if hash_eq(&self.entries[j].prev, &self.entries[i].hash) {
                return false;
            }
            j += 1;
        }
        true
    }

    /// Whether any entry is a leaf.
    pub fn has_leaf(&self) -> (r: bool)
        ensures
            r == self.spec_has_leaf(),
    {
        let mut i: usize = 0;
        while i < self.entries.len()
            invariant
                i <= self@.len(),
                forall|j: int| 0 <= j < i ==> !self.spec_is_leaf(j),
            decreases self@.len() - i,
        {
            if self.is_leaf_at(i) {
                return true;
            }
            i += 1;
        }
        false
    }

    /// The height of the highest leaf. Ties among leaves at equal maximum
    /// height are inconsequential: only the height is returned.
    pub fn max_leaf_height(&self) -> (h: u64)
        requires
            self.spec_has_leaf(),
        ensures
            self.is_max_leaf_height(h),
    {
        let mut best: u64 = 0;
        let mut found: bool = false;
        let mut i: usize = 0;
        while i < self.entries.len()
            invariant
                i <= self@.len(),
                !found ==> forall|j: int| 0 <= j < i ==> !self.spec_is_leaf(j),
                found ==> exists|j: int|
                    0 <= j < i && self.spec_is_leaf(j) && self@[j].height == best,
                found ==> forall|j: int|
                    0 <= j < i && self.spec_is_leaf(j) ==> self@[j].height <= best,
            decreases self@.len() - i,
        {
            if self.is_leaf_at(i) {
                let h = self.entries[i].height;
                if !found || h > best {
                    best = h;
                }
                found = true;
            }
            i += 1;
        }
        best
    }
}

} // verus!
