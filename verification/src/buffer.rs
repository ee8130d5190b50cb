//! A device-local buffer filled by a staged upload.
//!
//! `Buffer::new` models the full staging protocol: allocate a host-visible
//! staging allocation, copy the caller's bytes into it, allocate the
//! device-local buffer, copy staging to device, then free the staging
//! allocation.  Its contract pins the result: the device-local contents are
//! byte-identical to the input, and the books show exactly one extra live
//! allocation.

use vstd::prelude::*;

use crate::allocator::Allocator;
use crate::allocator::UsageViolation;

verus! {

/// A resource owning one or more device allocations, released exactly
/// once.  Releasing twice is a usage violation: reported, never performed.
pub trait VulkanResource: Sized {
    /// True if the resource owns the allocation `id`.
    spec fn owns(&self, id: u64) -> bool;

    /// How many allocations the resource owns.
    spec fn owned_count(&self) -> nat;

    /// True until the resource is released.
    spec fn is_alive(&self) -> bool;

    /// The allocator state in which a release can succeed: every owned
    /// allocation is live.
    spec fn release_ready(&self, a: Allocator) -> bool;

    /// Free every owned allocation, then drop the API objects.
    fn release(&mut self, a: &mut Allocator) -> (r: Result<(), UsageViolation>)
        requires
            old(a).wf(),
        ensures
            final(a).wf(),
            !final(self).is_alive(),
            old(self).is_alive() && old(self).release_ready(*old(a)) ==> {
                &&& r is Ok
                &&& final(a).count() + old(self).owned_count() == old(a).count()
                &&& forall|x: u64| old(self).owns(x) ==> !final(a).is_live(x)
            },
            !old(self).is_alive() ==> r == Result::<(), UsageViolation>::Err(
                UsageViolation::DoubleFree,
            ) && *final(a) == *old(a),
            forall|x: u64| !old(self).owns(x) ==> final(a).is_live(x) == old(a).is_live(x),
            forall|x: u64| old(self).owns(x) == final(self).owns(x),
            forall|n: nat| old(a).can_allocate(n) ==> final(a).can_allocate(n),
            forall|x: u64| old(a).is_fresh(x) == final(a).is_fresh(x),
    ;
}

/// One device-local buffer: its size, its handle identity, its backing
/// allocation, and — since the model carries data as plain values — the
/// bytes the staged upload left in device memory.
pub struct Buffer {
    pub buffer_size: u64,
    pub buffer: u64,
    pub contents: Vec<u8>,
    pub alloc_id: u64,
    pub alive: bool,
}

/// What `Buffer::new` guarantees: the relation between the allocator
/// before (`a0`) and after (`a1`), the buffer built, and the input bytes.
pub open spec fn buffer_new_post(a0: Allocator, a1: Allocator, b: Buffer, data: Seq<u8>) -> bool {
    &&& a1.wf()
    &&& b.alive
    &&& b.contents@ == data
    &&& b.buffer_size == data.len()
    &&& b.buffer == b.alloc_id
    &&& !a0.is_live(b.alloc_id)
    &&& a1.is_live(b.alloc_id)
    &&& forall|x: u64| x != b.alloc_id ==> a1.is_live(x) == a0.is_live(x)
    &&& a1.count() == a0.count() + 1
}

/// What `Buffer::release` guarantees, as a relation on the states around
/// the call.
pub open spec fn buffer_release_post(
    a0: Allocator,
    a1: Allocator,
    b0: Buffer,
    b1: Buffer,
    r: Result<(), UsageViolation>,
) -> bool {
    &&& a1.wf()
    &&& !b1.alive
    &&& b1.alloc_id == b0.alloc_id
    &&& b0.alive && a0.is_live(b0.alloc_id) ==> {
        &&& r is Ok
        &&& !a1.is_live(b0.alloc_id)
        &&& a1.count() + 1 == a0.count()
    }
    &&& !b0.alive ==> r == Result::<(), UsageViolation>::Err(UsageViolation::DoubleFree) && a1
        == a0
    &&& forall|x: u64| x != b0.alloc_id ==> a1.is_live(x) == a0.is_live(x)
}

impl Buffer {
    /// Stage `data` into a new device-local buffer.  On return the
    /// device-local contents equal `data` and the staging resources are
    /// gone: the books hold exactly one more live allocation than before.
    pub fn new(a: &mut Allocator, data: &[u8], usage: u32) -> (buf: Buffer)
        requires
            old(a).wf(),
            old(a).can_allocate(2),
        ensures
            buffer_new_post(*old(a), *final(a), buf, data@),
            old(a).is_fresh(buf.alloc_id),
            forall|n: nat| old(a).can_allocate(n + 2) ==> final(a).can_allocate(n),
            forall|x: u64| final(a).is_fresh(x) ==> x != buf.alloc_id,
    {
        let buffer_size = data.len();
        // Host-visible staging resource, filled through its mapped pointer.
        let staging_alloc_id = a.allocate();
        let staging: Vec<u8> = copy_bytes(data);
        // Device-local destination.
        let alloc_id = a.allocate();
        // One-shot command buffer copying staging to device, then a wait
        // until the transfer queue is idle.
        let contents: Vec<u8> = copy_bytes(staging.as_slice());
        // The staging resource and its allocation are gone once the copy
        // has completed.
        let staging_freed = a.free(staging_alloc_id);
        proof {
            assert(staging_freed is Ok);
        }
        Buffer {
            buffer_size: buffer_size as u64,
            buffer: alloc_id,
            contents,
            alloc_id,
            alive: true,
        }
    }
}

impl VulkanResource for Buffer {
    open spec fn owns(&self, id: u64) -> bool {
        id == self.alloc_id
    }

    open spec fn owned_count(&self) -> nat {
        1
    }

    open spec fn is_alive(&self) -> bool {
        self.alive
    }

    open spec fn release_ready(&self, a: Allocator) -> bool {
        a.is_live(self.alloc_id)
    }

    fn release(&mut self, a: &mut Allocator) -> (r: Result<(), UsageViolation>)
        ensures
            buffer_release_post(*old(a), *final(a), *old(self), *final(self), r),
    {
        if !self.alive {
            return Err(UsageViolation::DoubleFree);
        }
        self.alive = false;
        a.free(self.alloc_id)
    }
}

/// Copy bytes, as the mapped-pointer write and the device-side buffer copy
/// do.
fn copy_bytes(src: &[u8]) -> (r: Vec<u8>)
    ensures
        r@ == src@,
{
    let mut out: Vec<u8> = Vec::new();
    let mut i: usize = 0;
    while i < src.len()
        invariant
            i <= src@.len(),
            out@ == src@.take(i as int),
        decreases src@.len() - i,
    {
        let b = src[i];
        out.push(b);
        proof {
            assert(src@.take(i + 1) =~= src@.take(i as int).push(src@[i as int]));
        }
        i += 1;
    }
    proof {
        assert(src@.take(src@.len() as int) =~= src@);
    }
    out
}

/// Any input data array staged through `Buffer::new` reads back
/// byte-identical from the device-local buffer.
pub proof fn lemma_staged_upload_round_trip(
    a0: Allocator,
    a1: Allocator,
    b: Buffer,
    data: Seq<u8>,
)
    requires
        buffer_new_post(a0, a1, b, data),
    ensures
        b.contents@ == data,
{
}

/// Releasing a staged buffer exactly once returns the books to their
/// pre-creation state: the same live allocations, the same count.
pub proof fn lemma_release_balances_books(
    a0: Allocator,
    a1: Allocator,
    a2: Allocator,
    b0: Buffer,
    b1: Buffer,
    data: Seq<u8>,
    r: Result<(), UsageViolation>,
)
    requires
        buffer_new_post(a0, a1, b0, data),
        buffer_release_post(a1, a2, b0, b1, r),
    ensures
        r is Ok,
        a2.count() == a0.count(),
        forall|x: u64| a2.is_live(x) == a0.is_live(x),
{
    assert forall|x: u64| a2.is_live(x) == a0.is_live(x) by {
        if x == b0.alloc_id {
            assert(!a0.is_live(x));
            assert(!a2.is_live(x));
        }
    }
}

/// A second release of the same buffer is reported as a double free and
/// leaves the books untouched.
pub proof fn lemma_double_free_flagged(
    a0: Allocator,
    a1: Allocator,
    b0: Buffer,
    b1: Buffer,
    r: Result<(), UsageViolation>,
)
    requires
        !b0.alive,
        buffer_release_post(a0, a1, b0, b1, r),
    ensures
        r == Result::<(), UsageViolation>::Err(UsageViolation::DoubleFree),
        a1 == a0,
{
}

} // verus!
