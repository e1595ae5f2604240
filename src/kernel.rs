//! Kernel objects and kernel invocations as plain values.
//!
//! The size classes below are those of the kernel's 64-bit ARM (AArch64)
//! configuration: 4 KiB pages, tables of 512 entries at every level, 32-byte
//! capability slots and untyped blocks of up to 2^47 bytes.
use vstd::prelude::*;

verus! {

/// Size class of the smallest untyped block the kernel hands out.
pub const MIN_UNTYPED_BITS: usize = 4;

/// Size class above which no untyped block exists on this word size.
pub const MAX_UNTYPED_BITS: usize = 47;

/// Size class of a thread control block.
pub const TCB_BITS: usize = 11;

/// Size class of an endpoint.
pub const ENDPOINT_BITS: usize = 4;

/// Size class of a notification.
pub const NOTIFICATION_BITS: usize = 5;

/// Size class of one capability-table slot.
pub const SLOT_BITS: usize = 5;

/// Size class of a page.
pub const PAGE_BITS: usize = 12;

/// Size class of a page table.
pub const PAGE_TABLE_BITS: usize = 12;

/// Size class of a page directory.
pub const PAGE_DIRECTORY_BITS: usize = 12;

/// Size class of a page upper directory.
pub const PAGE_UPPER_DIRECTORY_BITS: usize = 12;

/// Size class of an address-space-id pool.
pub const ASID_POOL_BITS: usize = 12;

/// A kind of object that untyped memory can be retyped into.
#[derive(Clone, Copy, Debug, PartialEq, Eq, Structural)]
pub enum ObjectType {
    Untyped { size_bits: usize },
    Tcb,
    Endpoint,
    Notification,
    CNode { radix: usize },
    Page,
    PageTable,
    PageDirectory,
    PageUpperDirectory,
    AsidPool,
}

/// The size class that one object of kind `t` occupies.
pub open spec fn required_bits(t: ObjectType) -> int {
    match t {
        ObjectType::Untyped { size_bits } => size_bits as int,
        ObjectType::Tcb => TCB_BITS as int,
        ObjectType::Endpoint => ENDPOINT_BITS as int,
        ObjectType::Notification => NOTIFICATION_BITS as int,
        ObjectType::CNode { radix } => radix + SLOT_BITS,
        ObjectType::Page => PAGE_BITS as int,
        ObjectType::PageTable => PAGE_TABLE_BITS as int,
        ObjectType::PageDirectory => PAGE_DIRECTORY_BITS as int,
        ObjectType::PageUpperDirectory => PAGE_UPPER_DIRECTORY_BITS as int,
        ObjectType::AsidPool => ASID_POOL_BITS as int,
    }
}

/// The size class that one object of kind `t` occupies, where it fits in a word.
pub fn object_size_bits(t: ObjectType) -> (r: Option<usize>)
    ensures
        r matches Some(b) ==> b == required_bits(t),
        r is None <==> required_bits(t) > usize::MAX,
{
    match t {
        ObjectType::Untyped { size_bits } => Some(size_bits),
        ObjectType::Tcb => Some(TCB_BITS),
        ObjectType::Endpoint => Some(ENDPOINT_BITS),
        ObjectType::Notification => Some(NOTIFICATION_BITS),
        ObjectType::CNode { radix } => radix.checked_add(SLOT_BITS),
        ObjectType::Page => Some(PAGE_BITS),
        ObjectType::PageTable => Some(PAGE_TABLE_BITS),
        ObjectType::PageDirectory => Some(PAGE_DIRECTORY_BITS),
        ObjectType::PageUpperDirectory => Some(PAGE_UPPER_DIRECTORY_BITS),
        ObjectType::AsidPool => Some(ASID_POOL_BITS),
    }
}

/// One invocation of the kernel, with the capability addresses it names.
#[derive(Clone, Copy, Debug, PartialEq, Eq, Structural)]
pub enum KernelCall {
    /// Carve `count` objects of kind `object` out of `untyped` into the
    /// consecutive slots of table `dest_root` that start at `dest_offset`.
    UntypedRetype {
        untyped: usize,
        object: ObjectType,
        dest_root: usize,
        dest_offset: usize,
        count: usize,
    },
    /// Destroy every capability derived from the one in slot `index`.
    CNodeRevoke { root: usize, index: usize },
    /// Empty slot `index`.
    CNodeDelete { root: usize, index: usize },
    /// Copy the capability in `src_index` of `src_root` into `dest_index` of `dest_root`.
    CNodeCopy { dest_root: usize, dest_index: usize, src_root: usize, src_index: usize },
    PageTableMap { page_table: usize, page_dir: usize, vaddr: u64 },
    PageTableUnmap { page_table: usize },
    PageMap { page: usize, page_dir: usize, vaddr: u64, writable: bool },
    PageUnmap { page: usize },
    PageDirectoryMap { dir: usize, vaddr: u64, root: usize },
    AsidControlMakePool { control: usize, untyped: usize, dest_root: usize, dest_index: usize },
    AsidPoolAssign { pool: usize, page_dir: usize },
    TcbConfigure { tcb: usize, cspace_root: usize, fault_endpoint: Option<usize>, vspace_root: usize },
    /// Set the thread's entry point and stack pointer; where its parameters
    /// sit in a page, the first argument register holds that page's address.
    TcbWriteRegisters { tcb: usize, pc: u64, sp: u64, param_page: Option<u64> },
    TcbSetPriority { tcb: usize, authority: usize, priority: usize },
    TcbResume { tcb: usize },
}

} // verus!
