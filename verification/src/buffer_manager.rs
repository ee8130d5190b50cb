//! The resource registry: a name-keyed store of staged buffers.
//!
//! Uploads are deduplicated by name — the first writer wins, a later call
//! under the same name is silently ignored — and teardown is centralized
//! in `destroy`.

use vstd::prelude::*;

use crate::allocator::Allocator;
use crate::buffer::Buffer;
use crate::buffer::VulkanResource;
use crate::buffer::buffer_new_post;

verus! {

/// What `BufferManager::add_buffer` guarantees: the relation between the
/// registry and allocator before (`m0`, `a0`) and after (`m1`, `a1`) a
/// call registering `data` under `name`.
pub open spec fn add_buffer_post(
    m0: BufferManager,
    m1: BufferManager,
    a0: Allocator,
    a1: Allocator,
    name: Seq<char>,
    data: Seq<u8>,
) -> bool {
    &&& m1.wf()
    &&& m1.backed_by(a1)
    &&& a1.wf()
    &&& m0.has_buffer(name) ==> m1 == m0 && a1 == a0
    &&& !m0.has_buffer(name) ==> {
        &&& m1.buffers@.len() == m0.buffers@.len() + 1
        &&& m1.buffer_named(name).contents@ == data
        &&& m1.buffer_named(name).buffer_size == data.len()
        &&& buffer_new_post(a0, a1, m1.buffer_named(name), data)
    }
    &&& forall|n: Seq<char>| m1.has_buffer(n) == (m0.has_buffer(n) || n == name)
    &&& forall|n: Seq<char>|
        n != name && m0.has_buffer(n) ==> m1.buffer_named(n) == m0.buffer_named(n)
}

/// Registering the same name twice leaves the registry exactly as the
/// first registration left it: one buffer under the name, holding the
/// first call's data, whatever the second call carried.
pub proof fn lemma_registry_idempotent(
    m0: BufferManager,
    m1: BufferManager,
    m2: BufferManager,
    a0: Allocator,
    a1: Allocator,
    a2: Allocator,
    name: Seq<char>,
    data1: Seq<u8>,
    data2: Seq<u8>,
)
    requires
        add_buffer_post(m0, m1, a0, a1, name, data1),
        add_buffer_post(m1, m2, a1, a2, name, data2),
    ensures
        m2 == m1,
        a2 == a1,
        m2.has_buffer(name),
        !m0.has_buffer(name) ==> m2.buffer_named(name).contents@ == data1,
        forall|i: int, j: int|
            0 <= i < m2.buffers@.len() && 0 <= j < m2.buffers@.len() && (
            #[trigger] m2.buffers@[i]).0@ == name && (#[trigger] m2.buffers@[j]).0@ == name
                ==> i == j,
{
    assert(m1.has_buffer(name));
    assert forall|i: int, j: int|
        0 <= i < m2.buffers@.len() && 0 <= j < m2.buffers@.len() && (#[trigger] m2.buffers@[i]).0@
        == name && (#[trigger] m2.buffers@[j]).0@ == name implies i == j by {
        if i != j {
            m2.lemma_names_distinct(i, j);
        }
    }
}

/// Name-keyed store of device-local buffers.
pub struct BufferManager {
    pub buffers: Vec<(String, Buffer)>,
}

impl BufferManager {
    /// True if a buffer is registered under `name`.
    pub open spec fn has_buffer(&self, name: Seq<char>) -> bool {
        exists|i: int| 0 <= i < self.buffers@.len() && self.buffers@[i].0@ == name
    }

    /// The index at which `name` is registered.
    pub open spec fn buffer_index(&self, name: Seq<char>) -> int {
        choose|i: int| 0 <= i < self.buffers@.len() && self.buffers@[i].0@ == name
    }

    /// The buffer registered under `name`.
    pub open spec fn buffer_named(&self, name: Seq<char>) -> Buffer {
        self.buffers@[self.buffer_index(name)].1
    }

    /// True if some registered buffer owns the allocation `x`.
    pub open spec fn owns_alloc(&self, x: u64) -> bool {
        exists|i: int| 0 <= i < self.buffers@.len() && self.buffers@[i].1.alloc_id == x
    }

    /// Registry invariant: names are pairwise distinct, as are the backing
    /// allocations, and every registered buffer is still alive.
    pub open spec fn wf(&self) -> bool {
        &&& forall|i: int, j: int|
            0 <= i < self.buffers@.len() && 0 <= j < self.buffers@.len() && i != j
                ==> (#[trigger] self.buffers@[i]).0@ != (#[trigger] self.buffers@[j]).0@
        &&& forall|i: int, j: int|
            0 <= i < self.buffers@.len() && 0 <= j < self.buffers@.len() && i != j
                ==> (#[trigger] self.buffers@[i]).1.alloc_id != (#[trigger] self.buffers@[j]).1.alloc_id
        &&& forall|i: int|
            0 <= i < self.buffers@.len() ==> (#[trigger] self.buffers@[i]).1.alive
    }

    /// True if every registered buffer's allocation is live in `a`.
    pub open spec fn backed_by(&self, a: Allocator) -> bool {
        forall|i: int|
            0 <= i < self.buffers@.len() ==> a.is_live((#[trigger] self.buffers@[i]).1.alloc_id)
    }

    /// Distinct registry slots carry distinct names.
    proof fn lemma_names_distinct(&self, i: int, j: int)
        requires
            self.wf(),
            0 <= i < self.buffers@.len(),
            0 <= j < self.buffers@.len(),
            i != j,
        ensures
            self.buffers@[i].0@ != self.buffers@[j].0@,
    {
    }

    /// An empty registry.
    pub fn new() -> (r: BufferManager)
        ensures
            r.wf(),
            r.buffers@.len() == 0,
            forall|n: Seq<char>| !r.has_buffer(n),
    {
        BufferManager { buffers: Vec::new() }
    }

    /// How many buffers are registered.
    pub fn buffer_count(&self) -> (r: usize)
        ensures
            r == self.buffers@.len(),
    {
        self.buffers.len()
    }

    /// Index of `name` in the store, if present.
    fn index_of(&self, name: &str) -> (r: Option<usize>)
        requires
            self.wf(),
        ensures
            match r {
                Some(i) => {
                    &&& i < self.buffers@.len()
                    &&& self.buffers@[i as int].0@ == name@
                    &&& self.has_buffer(name@)
                    &&& self.buffer_index(name@) == i as int
                },
                None => !self.has_buffer(name@),
            },
    {
        let owned: String = name.to_owned();
        let mut i: usize = 0;
        while i < self.buffers.len()
            invariant
                self.wf(),
                owned@ == name@,
                i <= self.buffers@.len(),
                forall|j: int| 0 <= j < i ==> (#[trigger] self.buffers@[j]).0@ != name@,
            decreases self.buffers@.len() - i,
        {
            if self.buffers[i].0 == owned {
                proof {
                    assert(self.buffers@[i as int].0@ == name@);
                    assert(self.has_buffer(name@));
                    let k = self.buffer_index(name@);
                    assert(0 <= k < self.buffers@.len() && self.buffers@[k].0@ == name@);
                    if k != i as int {
                        self.lemma_names_distinct(k, i as int);
                        assert(false);
                    }
                }
                return Some(i);
            }
            i += 1;
        }
        None
    }

    /// True if a buffer is registered under `name`.
    pub fn contains_buffer(&self, name: &str) -> (r: bool)
        requires
            self.wf(),
        ensures
            r == self.has_buffer(name@),
    {
        match self.index_of(name) {
            Some(_) => true,
            None => false,
        }
    }

    /// Register a staged buffer under `name`.  If the name is already
    /// taken this is a no-op — the first writer wins, whatever the new
    /// data — otherwise `data` is staged into a fresh device-local buffer.
    pub fn add_buffer(&mut self, name: &str, a: &mut Allocator, data: &[u8], usage: u32)
        requires
            old(self).wf(),
            old(self).backed_by(*old(a)),
            old(a).wf(),
            old(a).can_allocate(2),
        ensures
            add_buffer_post(*old(self), *final(self), *old(a), *final(a), name@, data@),
            forall|n: nat| old(a).can_allocate(n + 2) ==> final(a).can_allocate(n),
    {
        match self.index_of(name) {
            Some(_) => {
            },
            None => {
                let buf = Buffer::new(a, data, usage);
                let owned: String = name.to_owned();
                let ghost pre = self.buffers@;
                self.buffers.push((owned, buf));
                proof {
                    let post = self.buffers@;
                    let n = pre.len() as int;
                    assert(post == pre.push((owned, buf)));
                    assert(post[n].0@ == name@);
                    assert(post[n].1 == buf);
                    // Every prior entry keeps its position.
                    assert(forall|j: int| 0 <= j < n ==> post[j] == pre[j]);
                    // The fresh allocation is distinct from every backing
                    // allocation already registered.
                    assert forall|j: int| 0 <= j < n implies post[j].1.alloc_id != buf.alloc_id by {
                        assert(old(a).is_live(pre[j].1.alloc_id));
                    }
                    // The new name is distinct from every registered name.
                    assert(forall|j: int| 0 <= j < n ==> post[j].0@ != name@);
                    assert(self.wf());
                    // `buffer_named(name@)` resolves to the new entry.
                    let k = self.buffer_index(name@);
                    assert(post[n].0@ == name@);
                    assert(self.has_buffer(name@));
                    assert(0 <= k < post.len() && post[k].0@ == name@);
                    assert(k == n);
                    // Other names resolve to their old entries.
                    assert forall|m: Seq<char>|
                        m != name@ && old(self).has_buffer(m) implies self.buffer_named(m) == old(
                        self,
                    ).buffer_named(m) by {
                        let k0 = old(self).buffer_index(m);
                        assert(0 <= k0 < n && pre[k0].0@ == m);
                        let k1 = self.buffer_index(m);
                        assert(post[k0].0@ == m);
                        assert(0 <= k1 < post.len() && post[k1].0@ == m);
                        assert(k1 != n);
                        if k1 != k0 {
                            assert(post[k1].0@ == post[k0].0@);
                        }
                    }
                    assert forall|m: Seq<char>|
                        final(self).has_buffer(m) implies (old(self).has_buffer(m) || m
                        == name@) by {
                        let k1 = choose|i: int|
                            0 <= i < post.len() && post[i].0@ == m;
                        if k1 < n {
                            assert(pre[k1].0@ == m);
                        }
                    }
                }
            },
        }
    }

    /// The buffer registered under `name`.  Callers register every buffer
    /// before the first frame; asking for an unregistered name is outside
    /// the contract.
    pub fn get_buffer(&self, name: &str) -> (r: &Buffer)
        requires
            self.wf(),
            self.has_buffer(name@),
        ensures
            *r == self.buffer_named(name@),
    {
        match self.index_of(name) {
            Some(i) => &self.buffers[i].1,
            None => {
                // Unreachable: the name is registered.
                proof {
                    assert(false);
                }
                &self.buffers[0].1
            },
        }
    }

    /// Release every registered buffer and empty the registry.  To be
    /// called only once the GPU has quiesced: every in-flight fence
    /// waited.
    pub fn destroy(&mut self, a: &mut Allocator)
        requires
            old(self).wf(),
            old(self).backed_by(*old(a)),
            old(a).wf(),
        ensures
            final(a).wf(),
            final(self).wf(),
            final(self).buffers@.len() == 0,
            final(a).count() + old(self).buffers@.len() == old(a).count(),
            forall|i: int|
                0 <= i < old(self).buffers@.len() ==> !final(a).is_live(
                    (#[trigger] old(self).buffers@[i]).1.alloc_id,
                ),
            forall|x: u64| !old(self).owns_alloc(x) ==> final(a).is_live(x) == old(a).is_live(x),
            forall|n: nat| old(a).can_allocate(n) ==> final(a).can_allocate(n),
    {
        let ghost self0 = *old(self);
        let ghost a0 = *old(a);
        while self.buffers.len() > 0
            invariant
                a.wf(),
                self.buffers@.len() <= self0.buffers@.len(),
                self.buffers@ == self0.buffers@.take(self.buffers@.len() as int),
                a.count() + (self0.buffers@.len() - self.buffers@.len()) == a0.count(),
                self0.wf(),
                self0.backed_by(a0),
                forall|i: int|
                    self.buffers@.len() <= i < self0.buffers@.len() ==> !a.is_live(
                        (#[trigger] self0.buffers@[i]).1.alloc_id,
                    ),
                forall|i: int|
                    0 <= i < self.buffers@.len() ==> a.is_live(
                        (#[trigger] self0.buffers@[i]).1.alloc_id,
                    ),
                forall|x: u64| !self0.owns_alloc(x) ==> a.is_live(x) == a0.is_live(x),
                forall|n: nat| a0.can_allocate(n) ==> a.can_allocate(n),
            decreases self.buffers@.len(),
        {
            let next = self.buffers.pop();
            match next {
                Some((_, mut buf)) => {
                    let ghost k = self.buffers@.len() as int;
                    proof {
                        assert(self0.buffers@.take(k + 1).last() == self0.buffers@[k]);
                        assert(buf == self0.buffers@[k].1);
                        assert(self0.buffers@.take(k + 1).drop_last() =~= self0.buffers@.take(k));
                        assert(buf.alive);
                        assert(a.is_live(buf.alloc_id));
                    }
                    let released = buf.release(a);
                    proof {
                        assert(released is Ok);
                        assert forall|i: int| 0 <= i < k implies a.is_live(
                            (#[trigger] self0.buffers@[i]).1.alloc_id,
                        ) by {
                            assert(self0.buffers@[i].1.alloc_id != buf.alloc_id);
                        }
                        assert forall|x: u64| !self0.owns_alloc(x) implies a.is_live(x)
                            == a0.is_live(x) by {
                            assert(self0.buffers@[k].1.alloc_id == buf.alloc_id);
                            assert(self0.owns_alloc(buf.alloc_id));
                            assert(x != buf.alloc_id);
                        }
                    }
                },
                None => {
                    proof {
                        assert(false);
                    }
                },
            }
        }
    }
}

} // verus!
