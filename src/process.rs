//! Child threads: a thread control block, a stack and the parameters,
//! prepared in an address space and started once.
use vstd::prelude::*;

use crate::cnode::CNodeSlots;
use crate::error::{check_status, AllocError, ApiMethod, SeL4Error, STATUS_OK};
use crate::kernel::{KernelCall, ObjectType};
use crate::untyped::{retype_outcome, Untyped};
use crate::vspace::{AssignedPageDirectory, MappedPage};

verus! {

/// Bytes in a machine word.
pub const WORD_BYTES: usize = 8;

/// Argument registers that carry parameters into a new thread.
pub const PARAM_REGISTERS: usize = 4;

/// Bytes in a page.
pub const PAGE_BYTES: usize = 4096;

/// How a thread's parameters reach it.
#[derive(Clone, Copy, Debug, PartialEq, Eq, Structural)]
pub enum ParamPlacement {
    /// Copied into the first `words` argument registers.
    Registers { words: usize },
    /// Copied into a page of their own, whose address goes in a register.
    Page,
}

/// Where parameters of `size` bytes go: the registers where they fit there,
/// a page where they fit there.
pub open spec fn placement_of(size: int) -> Option<ParamPlacement> {
    if size <= WORD_BYTES * PARAM_REGISTERS {
        Some(ParamPlacement::Registers { words: ((size + WORD_BYTES - 1) / WORD_BYTES as int) as usize })
    } else if size <= PAGE_BYTES {
        Some(ParamPlacement::Page)
    } else {
        None
    }
}

/// Where parameters of `size` bytes go; none where they exceed a page.
pub fn param_placement(size: usize) -> (r: Option<ParamPlacement>)
    ensures
        r == placement_of(size as int),
{
    if size <= WORD_BYTES * PARAM_REGISTERS {
        Some(ParamPlacement::Registers { words: (size + (WORD_BYTES - 1)) / WORD_BYTES })
    } else if size <= PAGE_BYTES {
        Some(ParamPlacement::Page)
    } else {
        None
    }
}

/// A thread that is prepared and not yet started. Starting it gives it up,
/// so a thread starts at most once.
#[derive(Debug)]
pub struct ReadyThread {
    tcb: usize,
    vspace_root: usize,
    entry: u64,
    stack_pointer: u64,
    params: ParamPlacement,
    param_page: Option<u64>,
}

pub struct ReadyThreadView {
    pub tcb: usize,
    pub vspace_root: usize,
    pub entry: u64,
    pub stack_pointer: u64,
    pub params: ParamPlacement,
    pub param_page: Option<u64>,
}

impl View for ReadyThread {
    type V = ReadyThreadView;

    closed spec fn view(&self) -> ReadyThreadView {
        ReadyThreadView {
            tcb: self.tcb,
            vspace_root: self.vspace_root,
            entry: self.entry,
            stack_pointer: self.stack_pointer,
            params: self.params,
            param_page: self.param_page,
        }
    }
}

/// Given the status of the retype of `thread_ut` into a thread control block
/// in `tcb_slot`: a thread of address space `vspace` that will run from
/// `entry` on the stack page `stack`, growing down from its top, with
/// parameters of `params_size` bytes, which go in `param_page` where they do
/// not fit the registers. Parameters larger than a page fail as exhausted.
pub fn prepare_thread(
    thread_ut: Untyped,
    tcb_slot: CNodeSlots,
    vspace: &AssignedPageDirectory,
    entry: u64,
    stack: &MappedPage,
    params_size: usize,
    param_page: Option<&MappedPage>,
    status: usize,
) -> (r: Result<ReadyThread, AllocError>)
    requires
        thread_ut@.valid(),
        tcb_slot.wf(),
        tcb_slot@.size == 1,
        stack@.vaddr + PAGE_BYTES <= u64::MAX,
        (placement_of(params_size as int) == Some(ParamPlacement::Page)) == param_page is Some,
    ensures
        placement_of(params_size as int) is None ==> r == Err::<ReadyThread, AllocError>(AllocError::Exhausted),
        placement_of(params_size as int) is Some ==> (r matches Err(e) ==> retype_outcome(
            thread_ut@,
            ObjectType::Tcb,
            tcb_slot@,
            status,
        ) == Err::<crate::untyped::CapabilityView, AllocError>(e)),
        r is Ok <==> placement_of(params_size as int) is Some && retype_outcome(
            thread_ut@,
            ObjectType::Tcb,
            tcb_slot@,
            status,
        ) is Ok,
        r matches Ok(t) ==> t@ == (ReadyThreadView {
            tcb: tcb_slot@.offset as usize,
            vspace_root: vspace@.cptr,
            entry,
            stack_pointer: (stack@.vaddr + PAGE_BYTES) as u64,
            params: placement_of(params_size as int)->Some_0,
            param_page: match param_page {
                Some(p) => Some(p@.vaddr),
                None => None,
            },
        }),
{
    let placement = match param_placement(params_size) {
        Some(p) => p,
        None => {
            return Err(AllocError::Exhausted);
        },
    };
    let tcb = thread_ut.retype(ObjectType::Tcb, tcb_slot, status)?;
    let page = match param_page {
        Some(p) => Some(p.vaddr()),
        None => None,
    };
    Ok(
        ReadyThread {
            tcb: tcb.cptr(),
            vspace_root: vspace.cptr(),
            entry,
            stack_pointer: stack.vaddr() + PAGE_BYTES as u64,
            params: placement,
            param_page: page,
        },
    )
}

impl ReadyThread {
    /// The invocations that start the thread, in order, each owed only where
    /// the one before it succeeded: install its table, address space and
    /// optional fault endpoint; set its registers; give it `priority` on the
    /// authority of thread `authority`; resume it.
    pub fn start_calls(&self, cspace_root: usize, fault_endpoint: Option<usize>, authority: usize, priority: usize) -> (r: Vec<KernelCall>)
        ensures
            r@ == seq![
                KernelCall::TcbConfigure {
                    tcb: self@.tcb,
                    cspace_root,
                    fault_endpoint,
                    vspace_root: self@.vspace_root,
                },
                KernelCall::TcbWriteRegisters {
                    tcb: self@.tcb,
                    pc: self@.entry,
                    sp: self@.stack_pointer,
                    param_page: self@.param_page,
                },
                KernelCall::TcbSetPriority { tcb: self@.tcb, authority, priority },
                KernelCall::TcbResume { tcb: self@.tcb },
            ],
    {
        let mut out: Vec<KernelCall> = Vec::new();
        out.push(KernelCall::TcbConfigure { tcb: self.tcb, cspace_root, fault_endpoint, vspace_root: self.vspace_root });
        out.push(KernelCall::TcbWriteRegisters { tcb: self.tcb, pc: self.entry, sp: self.stack_pointer, param_page: self.param_page });
        out.push(KernelCall::TcbSetPriority { tcb: self.tcb, authority, priority });
        out.push(KernelCall::TcbResume { tcb: self.tcb });
        assert(out@ =~= seq![out@[0], out@[1], out@[2], out@[3]]);
        out
    }

    /// Given the statuses of `start_calls`, in order (those after the first
    /// failure are not read): success, or the first failure. The thread is
    /// given up either way.
    pub fn start(self, statuses: &Vec<usize>) -> (r: Result<(), SeL4Error>)
        requires
            statuses@.len() == 4,
        ensures
            r == start_outcome(statuses@),
    {
        check_status(ApiMethod::TcbConfigure, statuses[0])?;
        check_status(ApiMethod::TcbWriteRegisters, statuses[1])?;
        check_status(ApiMethod::TcbSetPriority, statuses[2])?;
        check_status(ApiMethod::TcbResume, statuses[3])?;
        Ok(())
    }
}

/// What starting a thread comes to, given the statuses of `start_calls` in
/// order: the first failure, if any.
pub open spec fn start_outcome(s: Seq<usize>) -> Result<(), SeL4Error> {
    if s[0] != STATUS_OK {
        Err(SeL4Error { method: ApiMethod::TcbConfigure, code: s[0] })
    } else if s[1] != STATUS_OK {
        Err(SeL4Error { method: ApiMethod::TcbWriteRegisters, code: s[1] })
    } else if s[2] != STATUS_OK {
        Err(SeL4Error { method: ApiMethod::TcbSetPriority, code: s[2] })
    } else if s[3] != STATUS_OK {
        Err(SeL4Error { method: ApiMethod::TcbResume, code: s[3] })
    } else {
        Ok(())
    }
}

} // verus!
