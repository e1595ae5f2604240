//! Typed failures of kernel invocations and of the library's own checks.
use vstd::prelude::*;

verus! {

/// The status a kernel invocation answers with when it succeeded.
pub const STATUS_OK: usize = 0;

/// The status of a lookup that found no translation structure at a level:
/// the address lies outside what the level can represent.
pub const STATUS_FAILED_LOOKUP: usize = 6;

/// The kernel operation that a failure came from.
#[derive(Clone, Copy, Debug, PartialEq, Eq, Structural)]
pub enum ApiMethod {
    UntypedRetype,
    CNodeCopy,
    CNodeRevoke,
    CNodeDelete,
    PageTableMap,
    PageTableUnmap,
    PageMap,
    PageUnmap,
    PageDirectoryMap,
    AsidControlMakePool,
    AsidPoolAssign,
    TcbConfigure,
    TcbWriteRegisters,
    TcbSetPriority,
    TcbResume,
    Call,
    ReplyRecv,
}

/// A kernel invocation answered with a non-zero status.
#[derive(Clone, Copy, Debug, PartialEq, Eq, Structural)]
pub struct SeL4Error {
    pub method: ApiMethod,
    pub code: usize,
}

/// What a status means for an invocation of `method`.
pub open spec fn status_result(method: ApiMethod, status: usize) -> Result<(), SeL4Error> {
    if status == STATUS_OK {
        Ok(())
    } else {
        Err(SeL4Error { method, code: status })
    }
}

/// Turns the raw status of an invocation of `method` into a result.
pub fn check_status(method: ApiMethod, status: usize) -> (r: Result<(), SeL4Error>)
    ensures
        r == status_result(method, status),
{
    if status == STATUS_OK {
        Ok(())
    } else {
        Err(SeL4Error { method, code: status })
    }
}

/// A slot range could not supply the requested number of slots.
#[derive(Clone, Copy, Debug, PartialEq, Eq, Structural)]
pub enum CNodeSlotsError {
    NotEnoughSlots,
}

/// Failure of a mapping at one level of an address space.
#[derive(Clone, Copy, Debug, PartialEq, Eq, Structural)]
pub enum MappingError {
    /// The address cannot be represented at this level: a structure one
    /// level up is missing.
    Overflow,
    /// Any other kernel failure.
    IntermediateLayerFailure(SeL4Error),
}

/// Failure of an operation that draws on a bounded supply.
#[derive(Clone, Copy, Debug, PartialEq, Eq, Structural)]
pub enum AllocError {
    /// No sufficient block, id or slot is left.
    Exhausted,
    /// The kernel refused the invocation.
    Kernel(SeL4Error),
}

} // verus!
