//! The data-target object handed to the inspection engine.
//!
//! The engine receives an opaque pointer to this object and calls back into
//! it for everything it needs from the host: capability negotiation and
//! reference counting, the target's machine type and pointer width, image
//! base addresses, and raw memory transfer results.  This module holds the
//! object's state and the exact outcome of every such operation; the
//! embedding program performs the OS calls and the raw-pointer plumbing.
//!
//! Memory reads and writes follow the contract's partial-transfer rule:
//! success is decided solely by whether the OS call succeeded, and the
//! count of bytes actually moved is reported independently — a short
//! transfer is not by itself a failure.

use vstd::prelude::*;

use crate::guids::{IID_ICLRDataTarget, IID_IUnknown};
use crate::hresult::{E_FAIL, E_NOINTERFACE, E_NOTIMPL, S_OK};
use crate::module_cache::{spec_populate, spec_resolve, ModuleCache, ModuleEntry};

verus! {

/// An address in the target process's space, as the foreign contract
/// carries it: an unsigned 64-bit value whatever the target's pointer
/// width.
pub type CLRDATA_ADDRESS = u64;

/// Machine type reported for a 64-bit x86 target.
pub const IMAGE_FILE_MACHINE_AMD64: u32 = 0x8664;

/// Machine type reported for a 32-bit x86 target.
pub const IMAGE_FILE_MACHINE_I386: u32 = 0x014c;

/// One reference-count operation of the foreign object contract.
#[derive(Clone, Copy, PartialEq, Eq, Structural)]
pub enum RefOp {
    /// Atomically increment the count.
    AddRef,
    /// Atomically decrement the count (the count never goes below zero;
    /// reaching zero does not deallocate the object — its creator owns
    /// teardown).
    Release,
}

/// The count after applying one reference-count operation.
pub open spec fn spec_apply_ref_op(count: nat, op: RefOp) -> nat {
    match op {
        RefOp::AddRef => count + 1,
        RefOp::Release => if count > 0 {
            (count - 1) as nat
        } else {
            0
        },
    }
}

/// The count after applying a sequence of reference-count operations.
pub open spec fn spec_run_ref_ops(count: nat, ops: Seq<RefOp>) -> nat
    decreases ops.len(),
{
    if ops.len() == 0 {
        count
    } else {
        spec_run_ref_ops(spec_apply_ref_op(count, ops[0]), ops.drop_first())
    }
}

/// The data target for one inspection session of a live process.
///
/// The embedding program owns the OS process handle and the dispatch-table
/// plumbing; this object holds everything the operations' outcomes depend
/// on.  The count starts at one, held by the creator.
pub struct LiveProcessDataTarget {
    /// The object's reference count.
    pub ref_count: u32,
    /// Machine type reported to the engine; fixed per session.
    pub machine_type: u32,
    /// Pointer width in bytes reported to the engine; fixed per session.
    pub pointer_size: u32,
    /// The lazily-populated module-address cache.
    pub module_cache: ModuleCache,
}

impl LiveProcessDataTarget {
    /// The cache's stored names stay lower-cased.
    pub open spec fn wf(&self) -> bool {
        self.module_cache.wf()
    }

    /// A fresh data target for a 64-bit x86 target process, with one
    /// reference held by the creator and an unpopulated module cache.
    pub fn new() -> (t: Self)
        ensures
            t.ref_count == 1,
            t.machine_type == IMAGE_FILE_MACHINE_AMD64,
            t.pointer_size == 8,
            t.module_cache@.len() == 0,
            t.wf(),
    {
        LiveProcessDataTarget {
            ref_count: 1,
            machine_type: IMAGE_FILE_MACHINE_AMD64,
            pointer_size: 8,
            module_cache: ModuleCache::new(),
        }
    }

    /// Increment the reference count and return the new count.
    pub fn add_ref(&mut self) -> (n: u32)
        requires
            old(self).ref_count < u32::MAX,
        ensures
            n == old(self).ref_count + 1,
            final(self).ref_count as nat == spec_apply_ref_op(
                old(self).ref_count as nat,
                RefOp::AddRef,
            ),
            final(self).machine_type == old(self).machine_type,
            final(self).pointer_size == old(self).pointer_size,
            final(self).module_cache == old(self).module_cache,
    {
        self.ref_count = self.ref_count + 1;
        self.ref_count
    }

    /// Decrement the reference count and return the new count.  Reaching
    /// zero takes no further action: the creator owns teardown.
    pub fn release(&mut self) -> (n: u32)
        requires
            old(self).ref_count > 0,
        ensures
            n == old(self).ref_count - 1,
            final(self).ref_count as nat == spec_apply_ref_op(
                old(self).ref_count as nat,
                RefOp::Release,
            ),
            final(self).machine_type == old(self).machine_type,
            final(self).pointer_size == old(self).pointer_size,
            final(self).module_cache == old(self).module_cache,
    {
        self.ref_count = self.ref_count - 1;
        self.ref_count
    }

    /// Capability negotiation: the object grants the base object
    /// capability and the data-target capability, taking one reference for
    /// the caller; any other identifier is a no-interface failure with no
    /// side effect (the returned flag says whether the caller now holds
    /// the object).
    pub fn query_interface(&mut self, iid: u128) -> (r: (i32, bool))
        requires
            old(self).ref_count < u32::MAX,
        ensures
            iid == IID_IUnknown || iid == IID_ICLRDataTarget ==> r == (S_OK, true)
                && final(self).ref_count == old(self).ref_count + 1,
            !(iid == IID_IUnknown || iid == IID_ICLRDataTarget) ==> r == (E_NOINTERFACE, false)
                && *final(self) == *old(self),
            final(self).machine_type == old(self).machine_type,
            final(self).pointer_size == old(self).pointer_size,
            final(self).module_cache == old(self).module_cache,
    {
        if iid == IID_IUnknown || iid == IID_ICLRDataTarget {
            self.add_ref();
            (S_OK, true)
        } else {
            (E_NOINTERFACE, false)
        }
    }

    /// The machine type of the target process.
    pub fn get_machine_type(&self) -> (r: (i32, u32))
        ensures
            r == (S_OK, self.machine_type),
    {
        (S_OK, self.machine_type)
    }

    /// The pointer width of the target process, in bytes.
    pub fn get_pointer_size(&self) -> (r: (i32, u32))
        ensures
            r == (S_OK, self.pointer_size),
    {
        (S_OK, self.pointer_size)
    }

    /// Whether the module cache still needs its one-time population (the
    /// embedding program then enumerates the target's modules and calls
    /// [`Self::populate_module_cache`]).
    pub fn needs_module_population(&self) -> (r: bool)
        ensures
            r == (self.module_cache@.len() == 0),
    {
        self.module_cache.is_empty()
    }

    /// One-time population of the module cache from an OS module listing;
    /// a second population leaves the cache as it is.
    pub fn populate_module_cache(&mut self, modules: &Vec<ModuleEntry>)
        requires
            old(self).wf(),
        ensures
            final(self).module_cache@ == spec_populate(
                old(self).module_cache@,
                modules@.map_values(|e: ModuleEntry| e@),
            ),
            final(self).wf(),
            final(self).ref_count == old(self).ref_count,
            final(self).machine_type == old(self).machine_type,
            final(self).pointer_size == old(self).pointer_size,
    {
        self.module_cache.populate(modules);
    }

    /// Image-base resolution: populate the cache on first use from the
    /// given module listing, then resolve the image path's file name
    /// case-insensitively.  A miss is a failure status with address zero.
    pub fn get_image_base(&mut self, image_path: &[u8], modules: &Vec<ModuleEntry>) -> (r: (
        i32,
        u64,
    ))
        requires
            old(self).wf(),
        ensures
            final(self).module_cache@ == spec_populate(
                old(self).module_cache@,
                modules@.map_values(|e: ModuleEntry| e@),
            ),
            r == spec_resolve(final(self).module_cache@, image_path@),
            final(self).wf(),
            final(self).ref_count == old(self).ref_count,
            final(self).machine_type == old(self).machine_type,
            final(self).pointer_size == old(self).pointer_size,
    {
        self.module_cache.populate(modules);
        self.module_cache.resolve(image_path)
    }

    /// Outcome of a memory read: success is exactly the OS call's success,
    /// and the transferred byte count is reported as it is — a count short
    /// of the request is not a failure.
    pub fn read_virtual_result(&self, os_ok: bool, bytes_transferred: u32) -> (r: (i32, u32))
        ensures
            r.0 == if os_ok {
                S_OK
            } else {
                E_FAIL
            },
            r.1 == bytes_transferred,
    {
        if os_ok {
            (S_OK, bytes_transferred)
        } else {
            (E_FAIL, bytes_transferred)
        }
    }

    /// Outcome of a memory write, under the same partial-transfer rule as
    /// reads.
    pub fn write_virtual_result(&self, os_ok: bool, bytes_transferred: u32) -> (r: (i32, u32))
        ensures
            r.0 == if os_ok {
                S_OK
            } else {
                E_FAIL
            },
            r.1 == bytes_transferred,
    {
        if os_ok {
            (S_OK, bytes_transferred)
        } else {
            (E_FAIL, bytes_transferred)
        }
    }

    /// Thread-local-storage reads are out of scope for this bridge: always
    /// not-supported, with no value produced.
    pub fn get_tls_value(&self, _thread_id: u32, _index: u32) -> (r: (i32, u64))
        ensures
            r == (E_NOTIMPL, 0u64),
    {
        (E_NOTIMPL, 0)
    }

    /// Thread-local-storage writes are out of scope: always not-supported,
    /// never attempted.
    pub fn set_tls_value(&self, _thread_id: u32, _index: u32, _value: u64) -> (r: i32)
        ensures
            r == E_NOTIMPL,
    {
        E_NOTIMPL
    }

    /// The current-thread query is out of scope: always not-supported.
    pub fn get_current_thread_id(&self) -> (r: (i32, u32))
        ensures
            r == (E_NOTIMPL, 0u32),
    {
        (E_NOTIMPL, 0)
    }

    /// Thread-context reads are out of scope: always not-supported, the
    /// context buffer is never touched.
    pub fn get_thread_context(&self, _thread_id: u32, _context_flags: u32, _context_size: u32) -> (
        r: i32)
        ensures
            r == E_NOTIMPL,
    {
        E_NOTIMPL
    }

    /// Thread-context writes are out of scope: always not-supported.
    pub fn set_thread_context(&self, _thread_id: u32, _context_size: u32) -> (r: i32)
        ensures
            r == E_NOTIMPL,
    {
        E_NOTIMPL
    }

    /// The generic request escape hatch is out of scope: always
    /// not-supported.
    pub fn request(&self, _req_code: u32, _in_buffer_size: u32, _out_buffer_size: u32) -> (r: i32)
        ensures
            r == E_NOTIMPL,
    {
        E_NOTIMPL
    }
}

/// Applying `AddRef` `n` times raises the count by exactly `n`.
proof fn lemma_add_refs(count: nat, n: nat)
    ensures
        spec_run_ref_ops(count, Seq::new(n, |i: int| RefOp::AddRef)) == count + n,
    decreases n,
{
    let ops = Seq::new(n, |i: int| RefOp::AddRef);
    if n > 0 {
        lemma_add_refs(count + 1, (n - 1) as nat);
        assert(ops.drop_first() =~= Seq::new((n - 1) as nat, |i: int| RefOp::AddRef));
    }
}

/// Applying `Release` `n` times to a count of at least `n` lowers it by
/// exactly `n` (the zero clamp is never reached).
proof fn lemma_releases(count: nat, n: nat)
    requires
        n <= count,
    ensures
        spec_run_ref_ops(count, Seq::new(n, |i: int| RefOp::Release)) == count - n,
    decreases n,
{
    let ops = Seq::new(n, |i: int| RefOp::Release);
    if n > 0 {
        lemma_releases((count - 1) as nat, (n - 1) as nat);
        assert(ops.drop_first() =~= Seq::new((n - 1) as nat, |i: int| RefOp::Release));
    }
}

/// Running one operation sequence after another runs their concatenation.
proof fn lemma_run_ref_ops_concat(count: nat, a: Seq<RefOp>, b: Seq<RefOp>)
    ensures
        spec_run_ref_ops(count, a + b) == spec_run_ref_ops(spec_run_ref_ops(count, a), b),
    decreases a.len(),
{
    if a.len() == 0 {
        assert(a + b =~= b);
    } else {
        lemma_run_ref_ops_concat(spec_apply_ref_op(count, a[0]), a.drop_first(), b);
        assert((a + b).drop_first() =~= a.drop_first() + b);
    }
}

/// Reference-count round trip: any `n` `AddRef` calls followed by `n`
/// `Release` calls leave the count exactly where it began.
pub proof fn lemma_refcount_round_trip(count: nat, n: nat)
    ensures
        spec_run_ref_ops(
            count,
            Seq::new(n, |i: int| RefOp::AddRef) + Seq::new(n, |i: int| RefOp::Release),
        ) == count,
{
    let adds = Seq::new(n, |i: int| RefOp::AddRef);
    let releases = Seq::new(n, |i: int| RefOp::Release);
    lemma_run_ref_ops_concat(count, adds, releases);
    lemma_add_refs(count, n);
    lemma_releases(count + n, n);
}

} // verus!
