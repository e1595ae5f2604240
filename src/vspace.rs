//! Address-space construction: mapping pages into page tables, page tables
//! into page directories, and page directories into upper directories, on
//! the four-level 64-bit ARM (AArch64) layout.
use vstd::prelude::*;

use crate::error::{check_status, status_result, ApiMethod, MappingError, SeL4Error, STATUS_FAILED_LOOKUP, STATUS_OK};
use crate::kernel::{KernelCall, ObjectType};
use crate::untyped::{Capability, CapabilityView};

verus! {

/// Bits of an address below the index into a page table: the offset in a page.
pub const PAGE_INDEX_BITS: usize = 12;

/// Bits of the index into a page table.
pub const PAGE_TABLE_INDEX_BITS: usize = 9;

/// Bits of the index into a page directory.
pub const PAGE_DIR_INDEX_BITS: usize = 9;

/// Bits of the index into a page upper directory.
pub const PAGE_UPPER_DIR_INDEX_BITS: usize = 9;

/// Number of entries of a table at any level.
pub const TABLE_ENTRIES: usize = 512;

/// The bits of an address that index a page upper directory: nine bits
/// above the page offset and the page-table and page-directory indices.
pub const UPPER_DIR_MASK: u64 = 0x7f_c000_0000;

/// The three levels of translation structure that map the level below.
#[derive(Clone, Copy, Debug, PartialEq, Eq, Structural)]
pub enum PagingLevel {
    /// Maps pages.
    PageTable,
    /// Maps page tables.
    PageDirectory,
    /// Maps page directories.
    PageUpperDirectory,
}

/// The kind of object that a structure at `level` maps.
pub open spec fn granule_of(level: PagingLevel) -> ObjectType {
    match level {
        PagingLevel::PageTable => ObjectType::Page,
        PagingLevel::PageDirectory => ObjectType::PageTable,
        PagingLevel::PageUpperDirectory => ObjectType::PageDirectory,
    }
}

/// The kernel operation that maps a granule into a structure at `level`.
pub open spec fn map_method(level: PagingLevel) -> ApiMethod {
    match level {
        PagingLevel::PageTable => ApiMethod::PageMap,
        PagingLevel::PageDirectory => ApiMethod::PageTableMap,
        PagingLevel::PageUpperDirectory => ApiMethod::PageDirectoryMap,
    }
}

/// What a mapping at `level` comes to when the kernel answers `status`:
/// an address the level cannot represent is told apart from any other failure.
pub open spec fn map_outcome(level: PagingLevel, status: usize) -> Result<(), MappingError> {
    if status == STATUS_OK {
        Ok(())
    } else if status == STATUS_FAILED_LOOKUP {
        Err(MappingError::Overflow)
    } else {
        Err(MappingError::IntermediateLayerFailure(SeL4Error { method: map_method(level), code: status }))
    }
}

/// What an address-space builder does after a mapping attempt.
#[derive(Clone, Copy, Debug, PartialEq, Eq, Structural)]
pub enum MapStep {
    /// The granule is mapped.
    Mapped,
    /// A structure is missing one level up: allocate and map one there,
    /// then map the granule again.
    GrowLevelAbove,
    /// Give up with this failure.
    Fatal(SeL4Error),
}

/// Decides the next step of address-space construction from the outcome of
/// a mapping: only an address the level cannot represent grows the chain.
pub fn next_map_step(outcome: Result<(), MappingError>) -> (r: MapStep)
    ensures
        outcome is Ok ==> r == MapStep::Mapped,
        outcome == Err::<(), MappingError>(MappingError::Overflow) ==> r == MapStep::GrowLevelAbove,
        outcome matches Err(MappingError::IntermediateLayerFailure(e)) ==> r == MapStep::Fatal(e),
{
    match outcome {
        Ok(()) => MapStep::Mapped,
        Err(MappingError::Overflow) => MapStep::GrowLevelAbove,
        Err(MappingError::IntermediateLayerFailure(e)) => MapStep::Fatal(e),
    }
}

/// Decodes the status of a mapping at `level`.
pub fn mapping_result(level: PagingLevel, status: usize) -> (r: Result<(), MappingError>)
    ensures
        r == map_outcome(level, status),
{
    if status == STATUS_OK {
        Ok(())
    } else if status == STATUS_FAILED_LOOKUP {
        Err(MappingError::Overflow)
    } else {
        let method = match level {
            PagingLevel::PageTable => ApiMethod::PageMap,
            PagingLevel::PageDirectory => ApiMethod::PageTableMap,
            PagingLevel::PageUpperDirectory => ApiMethod::PageDirectoryMap,
        };
        Err(MappingError::IntermediateLayerFailure(SeL4Error { method, code: status }))
    }
}

/// The address handed to the kernel when a page directory is mapped into
/// an upper directory: the bits that index the upper directory.
pub fn upper_dir_address(addr: u64) -> (r: u64)
    ensures
        r == addr & UPPER_DIR_MASK,
{
    addr & UPPER_DIR_MASK
}

/// A translation structure that is already part of an address space, with
/// the number of entries it can still map.
#[derive(Debug)]
pub struct MappedDirectory {
    cptr: usize,
    level: PagingLevel,
    free_slots: usize,
}

/// The model of a mapped structure.
pub struct DirectoryView {
    pub cptr: usize,
    pub level: PagingLevel,
    pub free_slots: nat,
}

impl View for MappedDirectory {
    type V = DirectoryView;

    closed spec fn view(&self) -> DirectoryView {
        DirectoryView { cptr: self.cptr, level: self.level, free_slots: self.free_slots as nat }
    }
}

impl MappedDirectory {
    /// A structure at `level` with all of its entries free.
    pub fn new(cptr: usize, level: PagingLevel) -> (r: MappedDirectory)
        ensures
            r@ == (DirectoryView { cptr, level, free_slots: TABLE_ENTRIES as nat }),
    {
        MappedDirectory { cptr, level, free_slots: TABLE_ENTRIES }
    }

    pub fn free_slots(&self) -> (r: usize)
        ensures
            r == self@.free_slots,
    {
        self.free_slots
    }

    /// The invocation that maps `granule` at `addr` into this structure, in
    /// the address space whose top-level structure is `root`.
    pub fn map_granule_call(&self, granule: &Capability, addr: u64, root: usize) -> (r: KernelCall)
        ensures
            r == match self@.level {
                PagingLevel::PageTable => KernelCall::PageMap {
                    page: granule@.cptr,
                    page_dir: root,
                    vaddr: addr,
                    writable: true,
                },
                PagingLevel::PageDirectory => KernelCall::PageTableMap {
                    page_table: granule@.cptr,
                    page_dir: root,
                    vaddr: addr,
                },
                PagingLevel::PageUpperDirectory => KernelCall::PageDirectoryMap {
                    dir: granule@.cptr,
                    vaddr: addr & UPPER_DIR_MASK,
                    root,
                },
            },
    {
        match self.level {
            PagingLevel::PageTable => KernelCall::PageMap {
                page: granule.cptr(),
                page_dir: root,
                vaddr: addr,
                writable: true,
            },
            PagingLevel::PageDirectory => KernelCall::PageTableMap {
                page_table: granule.cptr(),
                page_dir: root,
                vaddr: addr,
            },
            PagingLevel::PageUpperDirectory => KernelCall::PageDirectoryMap {
                dir: granule.cptr(),
                vaddr: upper_dir_address(addr),
                root,
            },
        }
    }

    /// Given the status of `map_granule_call`: one entry fewer is free on
    /// success, and nothing changes on failure. A structure whose count is
    /// already down to zero stays there.
    pub fn map_granule(&mut self, granule: &Capability, status: usize) -> (r: Result<(), MappingError>)
        requires
            granule@.object == granule_of(old(self)@.level),
        ensures
            r == map_outcome(old(self)@.level, status),
            r is Ok ==> final(self)@ == (DirectoryView {
                free_slots: if old(self)@.free_slots > 0 {
                    (old(self)@.free_slots - 1) as nat
                } else {
                    0
                },
                ..old(self)@
            }),
            r is Err ==> final(self)@ == old(self)@,
    {
        let r = mapping_result(self.level, status);
        if r.is_ok() && self.free_slots > 0 {
            self.free_slots = self.free_slots - 1;
        }
        r
    }
}

/// A page directory that holds an address-space id, with the number of page
/// tables it can still take.
#[derive(Debug)]
pub struct AssignedPageDirectory {
    cptr: usize,
    next_free_slot: usize,
    free_slots: usize,
}

/// The model of a page directory with an id.
pub struct PageDirectoryView {
    pub cptr: usize,
    pub next_free_slot: nat,
    pub free_slots: nat,
}

impl PageDirectoryView {
    /// Entries taken and entries left add up to the directory's size.
    pub open spec fn valid(self) -> bool {
        self.next_free_slot + self.free_slots == TABLE_ENTRIES
    }
}

impl View for AssignedPageDirectory {
    type V = PageDirectoryView;

    closed spec fn view(&self) -> PageDirectoryView {
        PageDirectoryView {
            cptr: self.cptr,
            next_free_slot: self.next_free_slot as nat,
            free_slots: self.free_slots as nat,
        }
    }
}

/// A page table mapped at `vaddr`, with the number of pages it can still take.
#[derive(Debug)]
pub struct MappedPageTable {
    cptr: usize,
    paddr: u64,
    vaddr: u64,
    next_free_slot: usize,
    free_slots: usize,
}

/// The model of a mapped page table: its capability, its memory, where it
/// is mapped, and its entries taken and left.
pub struct MappedPageTableView {
    pub cptr: usize,
    pub paddr: int,
    pub vaddr: u64,
    pub next_free_slot: nat,
    pub free_slots: nat,
}

/// A page mapped at `vaddr`.
#[derive(Debug)]
pub struct MappedPage {
    cptr: usize,
    paddr: u64,
    vaddr: u64,
}

/// The model of a mapped page: its capability, its memory, and where it is
/// mapped.
pub struct MappedView {
    pub cptr: usize,
    pub paddr: int,
    pub vaddr: u64,
}

impl View for MappedPageTable {
    type V = MappedPageTableView;

    closed spec fn view(&self) -> MappedPageTableView {
        MappedPageTableView {
            cptr: self.cptr,
            paddr: self.paddr as int,
            vaddr: self.vaddr,
            next_free_slot: self.next_free_slot as nat,
            free_slots: self.free_slots as nat,
        }
    }
}

impl View for MappedPage {
    type V = MappedView;

    closed spec fn view(&self) -> MappedView {
        MappedView { cptr: self.cptr, paddr: self.paddr as int, vaddr: self.vaddr }
    }
}

impl AssignedPageDirectory {
    pub(crate) fn internal_new(cptr: usize) -> (r: AssignedPageDirectory)
        ensures
            r@ == (PageDirectoryView { cptr, next_free_slot: 0, free_slots: TABLE_ENTRIES as nat }),
    {
        AssignedPageDirectory { cptr, next_free_slot: 0, free_slots: TABLE_ENTRIES }
    }

    pub fn cptr(&self) -> (r: usize)
        ensures
            r == self@.cptr,
    {
        self.cptr
    }

    pub fn free_slots(&self) -> (r: usize)
        ensures
            r == self@.free_slots,
    {
        self.free_slots
    }

    /// The invocation that maps `page_table` at `vaddr`.
    pub fn map_page_table_call(&self, page_table: &Capability, vaddr: u64) -> (r: KernelCall)
        ensures
            r == (KernelCall::PageTableMap { page_table: page_table@.cptr, page_dir: self@.cptr, vaddr }),
    {
        KernelCall::PageTableMap { page_table: page_table.cptr(), page_dir: self.cptr, vaddr }
    }

    /// Given the status of `map_page_table_call`: the mapped page table,
    /// with all its entries free, and one page-table entry of the directory
    /// fewer free. An address the directory cannot represent is told apart
    /// from any other failure; on failure the directory is as it was.
    pub fn map_page_table(&mut self, page_table: Capability, vaddr: u64, status: usize) -> (r: Result<
        MappedPageTable,
        MappingError,
    >)
        requires
            old(self)@.valid(),
            old(self)@.free_slots > 0,
            page_table@.object == ObjectType::PageTable,
        ensures
            final(self)@.valid(),
            r is Ok <==> status == STATUS_OK,
            r matches Err(e) ==> map_outcome(PagingLevel::PageDirectory, status) == Err::<(), MappingError>(e)
                && final(self)@ == old(self)@,
            r matches Ok(t) ==> t@ == (MappedPageTableView {
                cptr: page_table@.cptr,
                paddr: page_table@.paddr,
                vaddr,
                next_free_slot: 0,
                free_slots: TABLE_ENTRIES as nat,
            }) && final(self)@ == (PageDirectoryView {
                next_free_slot: old(self)@.next_free_slot + 1,
                free_slots: (old(self)@.free_slots - 1) as nat,
                ..old(self)@
            }),
    {
        match mapping_result(PagingLevel::PageDirectory, status) {
            Err(e) => Err(e),
            Ok(()) => {
                self.next_free_slot = self.next_free_slot + 1;
                self.free_slots = self.free_slots - 1;
                Ok(
                    MappedPageTable {
                        cptr: page_table.cptr(),
                        paddr: page_table.paddr(),
                        vaddr,
                        next_free_slot: 0,
                        free_slots: TABLE_ENTRIES,
                    },
                )
            },
        }
    }

    /// The invocation that maps `page` at `vaddr`, writable or read-only.
    pub fn map_page_call(&self, page: &Capability, vaddr: u64, writable: bool) -> (r: KernelCall)
        ensures
            r == (KernelCall::PageMap { page: page@.cptr, page_dir: self@.cptr, vaddr, writable }),
    {
        KernelCall::PageMap { page: page.cptr(), page_dir: self.cptr, vaddr, writable }
    }

    /// Given the status of `map_page_call`: the mapped page. The page table
    /// that holds the entry is the kernel's to find, so no count changes. An
    /// address with no page table to hold it is told apart from any other
    /// failure.
    pub fn map_page(&mut self, page: Capability, vaddr: u64, status: usize) -> (r: Result<
        MappedPage,
        MappingError,
    >)
        requires
            page@.object == ObjectType::Page,
        ensures
            final(self)@ == old(self)@,
            r is Ok <==> status == STATUS_OK,
            r matches Err(e) ==> map_outcome(PagingLevel::PageTable, status) == Err::<(), MappingError>(e),
            r matches Ok(p) ==> p@ == (MappedView { cptr: page@.cptr, paddr: page@.paddr, vaddr }),
    {
        match mapping_result(PagingLevel::PageTable, status) {
            Err(e) => Err(e),
            Ok(()) => Ok(MappedPage { cptr: page.cptr(), paddr: page.paddr(), vaddr }),
        }
    }
}

/// The invocations, in order, that give an address space a private writable
/// copy of one page of a shared read-only image: map the fresh page `copy`
/// at `window` in the scratch address space `scratch` (the image page's
/// bytes are copied in through that window), take it out again, and map it
/// writable at `vaddr` in `target`. Each is owed only where the one before
/// it succeeded. The image's own frame is never mapped writable.
pub fn image_copy_calls(
    copy: &Capability,
    scratch: &AssignedPageDirectory,
    window: u64,
    target: &AssignedPageDirectory,
    vaddr: u64,
) -> (r: Vec<KernelCall>)
    ensures
        r@ == seq![
            KernelCall::PageMap { page: copy@.cptr, page_dir: scratch@.cptr, vaddr: window, writable: true },
            KernelCall::PageUnmap { page: copy@.cptr },
            KernelCall::PageMap { page: copy@.cptr, page_dir: target@.cptr, vaddr, writable: true },
        ],
{
    let mut out: Vec<KernelCall> = Vec::new();
    out.push(scratch.map_page_call(copy, window, true));
    out.push(KernelCall::PageUnmap { page: copy.cptr() });
    out.push(target.map_page_call(copy, vaddr, true));
    assert(out@ =~= seq![out@[0], out@[1], out@[2]]);
    out
}

impl MappedPageTable {
    pub fn vaddr(&self) -> (r: u64)
        ensures
            r == self@.vaddr,
    {
        self.vaddr
    }

    pub fn cptr(&self) -> (r: usize)
        ensures
            r == self@.cptr,
    {
        self.cptr
    }

    /// Number of pages the table can still take.
    pub fn free_slots(&self) -> (r: usize)
        ensures
            r == self@.free_slots,
    {
        self.free_slots
    }

    /// The invocation that takes the page table out of its address space.
    pub fn unmap_call(&self) -> (r: KernelCall)
        ensures
            r == (KernelCall::PageTableUnmap { page_table: self@.cptr }),
    {
        KernelCall::PageTableUnmap { page_table: self.cptr }
    }

    /// Given the status of `unmap_call`: the page table, free to be mapped again.
    pub fn unmap(self, status: usize) -> (r: Result<Capability, SeL4Error>)
        ensures
            r is Ok <==> status == STATUS_OK,
            r matches Err(e) ==> status_result(ApiMethod::PageTableUnmap, status) == Err::<(), SeL4Error>(e),
            r matches Ok(c) ==> c@ == (CapabilityView {
                cptr: self@.cptr,
                object: ObjectType::PageTable,
                paddr: self@.paddr,
            }),
    {
        match check_status(ApiMethod::PageTableUnmap, status) {
            Err(e) => Err(e),
            Ok(()) => Ok(Capability::internal_new(self.cptr, ObjectType::PageTable, self.paddr)),
        }
    }
}

impl MappedPage {
    pub fn vaddr(&self) -> (r: u64)
        ensures
            r == self@.vaddr,
    {
        self.vaddr
    }

    pub fn paddr(&self) -> (r: u64)
        ensures
            r == self@.paddr,
    {
        self.paddr
    }

    pub fn cptr(&self) -> (r: usize)
        ensures
            r == self@.cptr,
    {
        self.cptr
    }

    /// The invocation that takes the page out of its address space.
    pub fn unmap_call(&self) -> (r: KernelCall)
        ensures
            r == (KernelCall::PageUnmap { page: self@.cptr }),
    {
        KernelCall::PageUnmap { page: self.cptr }
    }

    /// Given the status of `unmap_call`: the page, free to be mapped again.
    pub fn unmap(self, status: usize) -> (r: Result<Capability, SeL4Error>)
        ensures
            r is Ok <==> status == STATUS_OK,
            r matches Err(e) ==> status_result(ApiMethod::PageUnmap, status) == Err::<(), SeL4Error>(e),
            r matches Ok(c) ==> c@ == (CapabilityView { cptr: self@.cptr, object: ObjectType::Page, paddr: self@.paddr }),
    {
        match check_status(ApiMethod::PageUnmap, status) {
            Err(e) => Err(e),
            Ok(()) => Ok(Capability::internal_new(self.cptr, ObjectType::Page, self.paddr)),
        }
    }
}

} // verus!
