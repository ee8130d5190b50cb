//! Bookkeeping model of the GPU memory allocator.
//!
//! Every buffer or image owns exactly one allocation, named by an integer
//! handle.  The model records which handles are currently live, so that the
//! resource-lifetime contracts can state that an allocation is released
//! exactly once and that teardown leaves the books balanced.  The embedder
//! pairs each handle with the real allocation object it obtained from the
//! device-memory allocator.

use vstd::prelude::*;

verus! {

/// An operation that the ownership contract forbids, reported instead of
/// performed.
#[derive(Clone, Copy, PartialEq, Eq, Structural, Debug)]
pub enum UsageViolation {
    /// The allocation handle was not live: it was already freed, or never
    /// allocated at all.
    DoubleFree,
}

/// Bookkeeping for device-memory allocations: which handles are live, and a
/// counter from which fresh handles are drawn.
pub struct Allocator {
    pub next_id: u64,
    pub live: Vec<u64>,
}

impl Allocator {
    /// True if the allocation handle `id` is currently live.
    pub open spec fn is_live(&self, id: u64) -> bool {
        self.live@.contains(id)
    }

    /// The number of live allocations.
    pub open spec fn count(&self) -> nat {
        self.live@.len()
    }

    /// Handles that a later `allocate` may still return.
    pub open spec fn is_fresh(&self, id: u64) -> bool {
        id >= self.next_id
    }

    /// How much room is left before the handle counter is exhausted.
    pub open spec fn can_allocate(&self, n: nat) -> bool {
        self.next_id + n <= u64::MAX
    }

    /// Internal invariant: live handles are pairwise distinct and below the
    /// fresh-handle counter.
    pub open spec fn wf(&self) -> bool {
        &&& self.live@.no_duplicates()
        &&& forall|i: int| 0 <= i < self.live@.len() ==> (#[trigger] self.live@[i]) < self.next_id
    }

    /// An empty book: no allocation is live.
    pub fn new() -> (r: Allocator)
        ensures
            r.wf(),
            r.count() == 0,
            forall|id: u64| !r.is_live(id),
            r.can_allocate(u64::MAX as nat),
    {
        let r = Allocator { next_id: 0, live: Vec::new() };
        proof {
            assert(forall|id: u64| !r.live@.contains(id));
        }
        r
    }

    /// The number of live allocations, for balance checks.
    pub fn allocation_count(&self) -> (r: usize)
        ensures
            r == self.count(),
    {
        self.live.len()
    }

    /// True if the allocation handle `id` is currently live.
    pub fn contains(&self, id: u64) -> (r: bool)
        ensures
            r == self.is_live(id),
    {
        let mut i: usize = 0;
        while i < self.live.len()
            invariant
                i <= self.live@.len(),
                forall|j: int| 0 <= j < i ==> self.live@[j] != id,
            decreases self.live@.len() - i,
        {
            if self.live[i] == id {
                return true;
            }
            i += 1;
        }
        false
    }

    /// Draw a fresh handle and mark it live.
    pub fn allocate(&mut self) -> (id: u64)
        requires
            old(self).wf(),
            old(self).can_allocate(1),
        ensures
            final(self).wf(),
            !old(self).is_live(id),
            old(self).is_fresh(id),
            final(self).is_live(id),
            forall|x: u64| x != id ==> final(self).is_live(x) == old(self).is_live(x),
            final(self).count() == old(self).count() + 1,
            forall|n: nat| old(self).can_allocate(n + 1) ==> final(self).can_allocate(n),
            forall|x: u64| final(self).is_fresh(x) ==> x != id,
            forall|x: u64| final(self).is_fresh(x) ==> old(self).is_fresh(x),
    {
        let id = self.next_id;
        self.next_id = self.next_id + 1;
        self.live.push(id);
        proof {
            let pre = old(self).live@;
            let post = self.live@;
            assert(post == pre.push(id));
            assert(post[post.len() - 1] == id);
            assert(post.contains(id));
            assert forall|x: u64| x != id implies post.contains(x) == pre.contains(x) by {
                if pre.contains(x) {
                    let j = choose|j: int| 0 <= j < pre.len() && pre[j] == x;
                    assert(post[j] == x);
                }
                if post.contains(x) {
                    let j = choose|j: int| 0 <= j < post.len() && post[j] == x;
                    assert(j < pre.len() && pre[j] == x);
                }
            }
        }
        id
    }

    /// Release the allocation `id`.  Freeing a handle that is not live is a
    /// usage violation: it is reported and the books are left untouched.
    pub fn free(&mut self, id: u64) -> (r: Result<(), UsageViolation>)
        requires
            old(self).wf(),
        ensures
            final(self).wf(),
            old(self).is_live(id) ==> {
                &&& r is Ok
                &&& !final(self).is_live(id)
                &&& final(self).count() == old(self).count() - 1
            },
            !old(self).is_live(id) ==> r == Result::<(), UsageViolation>::Err(
                UsageViolation::DoubleFree,
            ) && *final(self) == *old(self),
            forall|x: u64| x != id ==> final(self).is_live(x) == old(self).is_live(x),
            forall|n: nat| old(self).can_allocate(n) ==> final(self).can_allocate(n),
            forall|x: u64| old(self).is_fresh(x) == final(self).is_fresh(x),
    {
        match self.index_of(id) {
            Some(i) => {
                let ghost pre = self.live@;
                self.live.remove(i);
                proof {
                    pre.remove_ensures(i as int);
                    assert(self.live@ == pre.remove(i as int));
                    Self::lemma_remove_distinct(pre, i as int);
                    assert(pre[i as int] == id);
                    assert(pre.contains(id));
                    assert(!self.live@.contains(id));
                }
                Ok(())
            },
            None => Err(UsageViolation::DoubleFree),
        }
    }

    /// Index of `id` among the live handles, if it is live.
    fn index_of(&self, id: u64) -> (r: Option<usize>)
        ensures
            match r {
                Some(i) => i < self.live@.len() && self.live@[i as int] == id,
                None => !self.is_live(id),
            },
    {
        let mut i: usize = 0;
        while i < self.live.len()
            invariant
                i <= self.live@.len(),
                forall|j: int| 0 <= j < i ==> self.live@[j] != id,
            decreases self.live@.len() - i,
        {
            if self.live[i] == id {
                return Some(i);
            }
            i += 1;
        }
        None
    }

    /// Removing index `i` from a duplicate-free sequence removes exactly the
    /// value that stood there.
    proof fn lemma_remove_distinct(s: Seq<u64>, i: int)
        requires
            s.no_duplicates(),
            0 <= i < s.len(),
        ensures
            s.remove(i).no_duplicates(),
            !s.remove(i).contains(s[i]),
            forall|x: u64| x != s[i] ==> s.remove(i).contains(x) == s.contains(x),
    {
        s.remove_ensures(i);
        let r = s.remove(i);
        assert forall|x: u64| x != s[i] && s.contains(x) implies r.contains(x) by {
            let j = choose|j: int| 0 <= j < s.len() && s[j] == x;
            if j < i {
                assert(r[j] == x);
            } else {
                assert(r[j - 1] == x);
            }
        }
        assert forall|x: u64| r.contains(x) implies s.contains(x) by {
            let j = choose|j: int| 0 <= j < r.len() && r[j] == x;
            if j < i {
                assert(s[j] == x);
            } else {
                assert(s[j + 1] == x);
            }
        }
        assert(!r.contains(s[i])) by {
            if r.contains(s[i]) {
                let j = choose|j: int| 0 <= j < r.len() && r[j] == s[i];
                if j < i {
                    assert(s[j] == s[i]);
                } else {
                    assert(s[j + 1] == s[i]);
                }
            }
        }
    }
}

} // verus!
