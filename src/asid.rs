//! Address-space ids: pools minted from the global control capability, and
//! ids assigned from a pool to page directories.
use vstd::prelude::*;

use crate::cnode::CNodeSlots;
use crate::error::{check_status, status_result, AllocError, ApiMethod, SeL4Error, STATUS_OK};
use crate::kernel::{KernelCall, ObjectType, ASID_POOL_BITS};
use crate::untyped::{Capability, MemoryKind, Untyped};
use crate::vspace::{AssignedPageDirectory, PageDirectoryView, TABLE_ENTRIES};

verus! {

/// Number of pools the control capability can mint over the system's life.
pub const ASID_POOL_COUNT: usize = 128;

/// Number of ids in one pool.
pub const ASID_POOL_SIZE: usize = 512;

/// The global capability that mints pools, with the number it can still mint.
#[derive(Debug)]
pub struct ASIDControl {
    cptr: usize,
    free_pools: usize,
}

/// A pool of ids, with the next id to assign and the number left.
#[derive(Debug)]
pub struct ASIDPool {
    cptr: usize,
    id: usize,
    next_free_slot: usize,
    free_slots: usize,
}

pub struct ASIDControlView {
    pub cptr: usize,
    pub free_pools: nat,
}

pub struct ASIDPoolView {
    pub cptr: usize,
    pub id: nat,
    pub next_free_slot: nat,
    pub free_slots: nat,
}

impl View for ASIDControl {
    type V = ASIDControlView;

    closed spec fn view(&self) -> ASIDControlView {
        ASIDControlView { cptr: self.cptr, free_pools: self.free_pools as nat }
    }
}

impl View for ASIDPool {
    type V = ASIDPoolView;

    closed spec fn view(&self) -> ASIDPoolView {
        ASIDPoolView {
            cptr: self.cptr,
            id: self.id as nat,
            next_free_slot: self.next_free_slot as nat,
            free_slots: self.free_slots as nat,
        }
    }
}

impl ASIDPoolView {
    /// Ids handed out and ids left add up to the pool's size.
    pub open spec fn valid(self) -> bool {
        self.next_free_slot + self.free_slots == ASID_POOL_SIZE
    }
}

impl ASIDControl {
    /// Wraps the control capability in slot `cptr`, of which `free_pools`
    /// pools are not minted yet.
    pub fn new(cptr: usize, free_pools: usize) -> (r: ASIDControl)
        requires
            free_pools <= ASID_POOL_COUNT,
        ensures
            r@ == (ASIDControlView { cptr, free_pools: free_pools as nat }),
    {
        ASIDControl { cptr, free_pools }
    }

    pub fn free_pools(&self) -> (r: usize)
        ensures
            r == self@.free_pools,
    {
        self.free_pools
    }

    /// The invocation that mints a pool out of `untyped` into the slot of `dest`.
    pub fn make_asid_pool_call(&self, untyped: &Untyped, dest: &CNodeSlots) -> (r: KernelCall)
        ensures
            r == (KernelCall::AsidControlMakePool {
                control: self@.cptr,
                untyped: untyped@.cptr,
                dest_root: dest@.cptr,
                dest_index: dest@.offset as usize,
            }),
    {
        KernelCall::AsidControlMakePool {
            control: self.cptr,
            untyped: untyped.cptr(),
            dest_root: dest.cptr(),
            dest_index: dest.offset(),
        }
    }

    /// Given the status of `make_asid_pool_call`: a pool whose id is the
    /// number of pools minted before it, with no id handed out, and one pool
    /// fewer left to mint. On failure the control capability is as it was.
    pub fn make_asid_pool(&mut self, untyped: Untyped, dest: CNodeSlots, status: usize) -> (r: Result<
        ASIDPool,
        SeL4Error,
    >)
        requires
            old(self)@.free_pools > 0,
            old(self)@.free_pools <= ASID_POOL_COUNT,
            untyped@.size_bits == ASID_POOL_BITS,
            untyped@.kind == MemoryKind::General,
            dest.wf(),
            dest@.size == 1,
        ensures
            r is Ok <==> status == STATUS_OK,
            r matches Err(e) ==> status_result(ApiMethod::AsidControlMakePool, status) == Err::<(), SeL4Error>(e)
                && final(self)@ == old(self)@,
            r matches Ok(p) ==> p@ == (ASIDPoolView {
                cptr: dest@.offset as usize,
                id: (ASID_POOL_COUNT - old(self)@.free_pools) as nat,
                next_free_slot: 0,
                free_slots: ASID_POOL_SIZE as nat,
            }) && final(self)@ == (ASIDControlView {
                free_pools: (old(self)@.free_pools - 1) as nat,
                ..old(self)@
            }),
    {
        match check_status(ApiMethod::AsidControlMakePool, status) {
            Err(e) => Err(e),
            Ok(()) => {
                let id = ASID_POOL_COUNT - self.free_pools;
                self.free_pools = self.free_pools - 1;
                Ok(ASIDPool { cptr: dest.offset(), id, next_free_slot: 0, free_slots: ASID_POOL_SIZE })
            },
        }
    }
}

impl ASIDPool {
    pub fn id(&self) -> (r: usize)
        ensures
            r == self@.id,
    {
        self.id
    }

    pub fn free_slots(&self) -> (r: usize)
        ensures
            r == self@.free_slots,
    {
        self.free_slots
    }

    /// The invocation that assigns the pool's next id to `page_dir`.
    pub fn assign_call(&self, page_dir: &Capability) -> (r: KernelCall)
        ensures
            r == (KernelCall::AsidPoolAssign { pool: self@.cptr, page_dir: page_dir@.cptr }),
    {
        KernelCall::AsidPoolAssign { pool: self.cptr, page_dir: page_dir.cptr() }
    }

    /// Makes `page_dir` schedulable by giving it an id: fails as exhausted,
    /// with no invocation owed, where the pool has none left; else, given
    /// the status of `assign_call`, hands out one id.
    pub fn assign(&mut self, page_dir: Capability, status: usize) -> (r: Result<
        AssignedPageDirectory,
        AllocError,
    >)
        requires
            old(self)@.valid(),
            page_dir@.object == ObjectType::PageDirectory,
        ensures
            final(self)@.valid(),
            old(self)@.free_slots == 0 ==> r == Err::<AssignedPageDirectory, AllocError>(AllocError::Exhausted),
            old(self)@.free_slots > 0 ==> (r is Ok <==> status == STATUS_OK),
            old(self)@.free_slots > 0 && status != STATUS_OK ==> r == Err::<AssignedPageDirectory, AllocError>(
                AllocError::Kernel(SeL4Error { method: ApiMethod::AsidPoolAssign, code: status }),
            ),
            r is Err ==> final(self)@ == old(self)@,
            r matches Ok(d) ==> d@ == (PageDirectoryView {
                cptr: page_dir@.cptr,
                next_free_slot: 0,
                free_slots: TABLE_ENTRIES as nat,
            }) && final(self)@ == (ASIDPoolView {
                next_free_slot: old(self)@.next_free_slot + 1,
                free_slots: (old(self)@.free_slots - 1) as nat,
                ..old(self)@
            }),
    {
        if self.free_slots == 0 {
            return Err(AllocError::Exhausted);
        }
        match check_status(ApiMethod::AsidPoolAssign, status) {
            Err(e) => Err(AllocError::Kernel(e)),
            Ok(()) => {
                self.next_free_slot = self.next_free_slot + 1;
                self.free_slots = self.free_slots - 1;
                Ok(AssignedPageDirectory::internal_new(page_dir.cptr()))
            },
        }
    }
}

} // verus!
