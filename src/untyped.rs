//! Untyped memory: blocks of `2^size_bits` bytes that are split into
//! smaller blocks or retyped into kernel objects.
use vstd::prelude::*;

use vstd::arithmetic::power2::{lemma_pow2_adds, lemma_pow2_pos, lemma_pow2_unfold, pow2};
use vstd::bits::{lemma_u64_pow2_no_overflow, lemma_u64_shl_is_mul};

use crate::cnode::{CNode, CNodeSlots, Role, SlotRange};
use crate::error::{check_status, status_result, AllocError, ApiMethod, SeL4Error, STATUS_OK};
use crate::cnode::cleanup_calls;
use crate::kernel::{
    object_size_bits, required_bits, KernelCall, ObjectType, MAX_UNTYPED_BITS, MIN_UNTYPED_BITS,
};

verus! {

/// General-purpose memory, or memory pinned to a device's physical address.
#[derive(Clone, Copy, Debug, PartialEq, Eq, Structural)]
pub enum MemoryKind {
    General,
    Device,
}

/// A capability to one block of untyped memory.
#[derive(Debug)]
pub struct Untyped {
    cptr: usize,
    size_bits: usize,
    kind: MemoryKind,
    paddr: u64,
}

/// The model of an untyped block: where its capability sits, its size
/// class, its kind, and the physical range `[paddr, paddr + 2^size_bits)`.
pub struct UntypedView {
    pub cptr: usize,
    pub size_bits: nat,
    pub kind: MemoryKind,
    pub paddr: int,
}

impl UntypedView {
    /// One past the last byte of the block.
    pub open spec fn end(self) -> int {
        self.paddr + pow2(self.size_bits)
    }

    pub open spec fn valid(self) -> bool {
        &&& MIN_UNTYPED_BITS <= self.size_bits <= MAX_UNTYPED_BITS
        &&& 0 <= self.paddr
        &&& self.end() <= u64::MAX
    }
}

impl View for Untyped {
    type V = UntypedView;

    closed spec fn view(&self) -> UntypedView {
        UntypedView {
            cptr: self.cptr,
            size_bits: self.size_bits as nat,
            kind: self.kind,
            paddr: self.paddr as int,
        }
    }
}

/// A capability to an object that untyped memory was retyped into.
#[derive(Debug)]
pub struct Capability {
    cptr: usize,
    object: ObjectType,
    paddr: u64,
}

/// The model of an object capability: where it sits, what it is, and the
/// physical address of its memory.
pub struct CapabilityView {
    pub cptr: usize,
    pub object: ObjectType,
    pub paddr: int,
}

impl View for Capability {
    type V = CapabilityView;

    closed spec fn view(&self) -> CapabilityView {
        CapabilityView { cptr: self.cptr, object: self.object, paddr: self.paddr as int }
    }
}

impl Capability {
    pub(crate) fn internal_new(cptr: usize, object: ObjectType, paddr: u64) -> (r: Capability)
        ensures
            r@ == (CapabilityView { cptr, object, paddr: paddr as int }),
    {
        Capability { cptr, object, paddr }
    }

    pub fn cptr(&self) -> (r: usize)
        ensures
            r == self@.cptr,
    {
        self.cptr
    }

    pub fn object(&self) -> (r: ObjectType)
        ensures
            r == self@.object,
    {
        self.object
    }

    pub fn paddr(&self) -> (r: u64)
        ensures
            r == self@.paddr,
    {
        self.paddr
    }
}

/// The two halves of block `u` that a split into the slots of `dest` makes.
pub open spec fn halves(u: UntypedView, dest: SlotRange) -> (UntypedView, UntypedView) {
    let lo = UntypedView { cptr: dest.offset as usize, size_bits: (u.size_bits - 1) as nat, ..u };
    (lo, UntypedView { cptr: (dest.offset + 1) as usize, paddr: lo.end(), ..lo })
}

/// What retyping block `u` into one object of kind `object`, in the first
/// slot of `dest`, comes to when the kernel answers `status`. A block too
/// small for the object is refused before the kernel is asked.
pub open spec fn retype_outcome(u: UntypedView, object: ObjectType, dest: SlotRange, status: usize) -> Result<
    CapabilityView,
    AllocError,
> {
    if required_bits(object) > u.size_bits {
        Err(AllocError::Exhausted)
    } else if status != STATUS_OK {
        Err(AllocError::Kernel(SeL4Error { method: ApiMethod::UntypedRetype, code: status }))
    } else {
        Ok(CapabilityView { cptr: dest.offset as usize, object, paddr: u.paddr })
    }
}

/// Splitting a block of class N gives two blocks of class N-1 that cover its
/// physical range exactly, one after the other; and a retype of either half,
/// which the kernel accepts, succeeds exactly when the object needs a class
/// of at most N-1.
pub proof fn lemma_split_then_retype(
    u: UntypedView,
    dest: SlotRange,
    object: ObjectType,
    slot: SlotRange,
)
    requires
        u.valid(),
        u.size_bits > MIN_UNTYPED_BITS,
    ensures
        halves(u, dest).0.size_bits == u.size_bits - 1,
        halves(u, dest).1.size_bits == u.size_bits - 1,
        halves(u, dest).0.paddr == u.paddr,
        halves(u, dest).0.end() == halves(u, dest).1.paddr,
        halves(u, dest).1.end() == u.end(),
        retype_outcome(halves(u, dest).0, object, slot, 0) is Ok <==> required_bits(object) <= u.size_bits - 1,
        retype_outcome(halves(u, dest).1, object, slot, 0) is Ok <==> required_bits(object) <= u.size_bits - 1,
{
    lemma_pow2_unfold(u.size_bits);
}

/// The physical address of the `i`-th object of class `bits` that one
/// retype carves out of block `u`: the kernel lays the objects out one after
/// another from the block's start.
pub open spec fn object_addr(u: UntypedView, bits: nat, i: int) -> int {
    u.paddr + i * pow2(bits)
}

/// Whether `n` objects of class `bits` fit in block `u`.
pub open spec fn objects_fit(u: UntypedView, bits: nat, n: int) -> bool {
    n * pow2(bits) <= pow2(u.size_bits)
}

/// Objects carved out of two blocks whose physical ranges do not meet share
/// no byte, and each lies within its block: an address space that writes to
/// its copy of an image, made of pages of one block, cannot change a copy
/// made of pages of the other, nor the image.
pub proof fn lemma_copies_independent(
    a: UntypedView,
    b: UntypedView,
    bits: nat,
    n: int,
    m: int,
    i: int,
    j: int,
)
    requires
        a.valid(),
        b.valid(),
        a.end() <= b.paddr || b.end() <= a.paddr,
        objects_fit(a, bits, n),
        objects_fit(b, bits, m),
        0 <= i < n,
        0 <= j < m,
    ensures
        object_addr(a, bits, i) + pow2(bits) <= object_addr(b, bits, j) || object_addr(b, bits, j)
            + pow2(bits) <= object_addr(a, bits, i),
        a.paddr <= object_addr(a, bits, i) && object_addr(a, bits, i) + pow2(bits) <= a.end(),
        b.paddr <= object_addr(b, bits, j) && object_addr(b, bits, j) + pow2(bits) <= b.end(),
{
    let s = pow2(bits);
    assert(i * s + s <= n * s && 0 <= i * s) by (nonlinear_arith)
        requires
            0 <= i < n,
            s >= 0,
    ;
    assert(j * s + s <= m * s && 0 <= j * s) by (nonlinear_arith)
        requires
            0 <= j < m,
            s >= 0,
    ;
}

/// A page of a block lies apart from any frame that lies outside the block:
/// a copy of an image page made of a fresh page of a block that holds none
/// of the image's frames shares no byte with the frame it copies.
pub proof fn lemma_copy_apart_from_image(a: UntypedView, bits: nat, n: int, i: int, frame: int)
    requires
        a.valid(),
        objects_fit(a, bits, n),
        0 <= i < n,
        frame + pow2(bits) <= a.paddr || a.end() <= frame,
    ensures
        object_addr(a, bits, i) + pow2(bits) <= frame || frame + pow2(bits) <= object_addr(a, bits, i),
{
    let s = pow2(bits);
    assert(i * s + s <= n * s && 0 <= i * s) by (nonlinear_arith)
        requires
            0 <= i < n,
            s >= 0,
    ;
}

/// Consecutive capabilities to objects of one kind, made by one retype.
#[derive(Debug)]
pub struct CapRange {
    start_cptr: usize,
    object: ObjectType,
    bits: usize,
    count: usize,
    paddr: u64,
}

/// The model of a capability range: the first slot, the kind and class of
/// the objects, how many there are, and where the first one's memory starts.
pub struct CapRangeView {
    pub start_cptr: usize,
    pub object: ObjectType,
    pub bits: nat,
    pub count: nat,
    pub paddr: int,
}

impl View for CapRange {
    type V = CapRangeView;

    closed spec fn view(&self) -> CapRangeView {
        CapRangeView {
            start_cptr: self.start_cptr,
            object: self.object,
            bits: self.bits as nat,
            count: self.count as nat,
            paddr: self.paddr as int,
        }
    }
}

impl CapRange {
    /// What well-formedness says of the model: the slots of the range
    /// neither wrap nor run past the last index, nor its memory past the
    /// last address.
    pub proof fn lemma_view_bounds(&self)
        requires
            self.wf(),
        ensures
            self@.start_cptr + self@.count <= usize::MAX,
            self@.paddr + self@.count * pow2(self@.bits) <= u64::MAX,
            self@.bits <= MAX_UNTYPED_BITS,
    {
    }

    /// The slots and the memory of the range lie within a word.
    pub closed spec fn wf(&self) -> bool {
        &&& self.bits <= MAX_UNTYPED_BITS
        &&& self.start_cptr + self.count <= usize::MAX
        &&& self.paddr + self.count * pow2(self.bits as nat) <= u64::MAX
    }

    pub fn len(&self) -> (r: usize)
        ensures
            r == self@.count,
    {
        self.count
    }

    /// Hands out the capabilities one at a time, lowest slot first.
    pub fn iter(self) -> (r: Vec<Capability>)
        requires
            self.wf(),
        ensures
            r@.len() == self@.count,
            forall|i: int|
                0 <= i < r@.len() ==> (#[trigger] r@[i])@ == (CapabilityView {
                    cptr: (self@.start_cptr + i) as usize,
                    object: self@.object,
                    paddr: self@.paddr + i * pow2(self@.bits),
                }),
    {
        let step = pow2_u64(self.bits);
        let mut out: Vec<Capability> = Vec::new();
        let mut i: usize = 0;
        let mut p: u64 = self.paddr;
        while i < self.count
            invariant
                self.wf(),
                step == pow2(self.bits as nat),
                i <= self.count,
                p == self.paddr + i * step,
                out@.len() == i,
                forall|k: int|
                    0 <= k < i ==> (#[trigger] out@[k])@ == (CapabilityView {
                        cptr: (self@.start_cptr + k) as usize,
                        object: self@.object,
                        paddr: self@.paddr + k * pow2(self@.bits),
                    }),
            decreases self.count - i,
        {
            assert((i + 1) * step == i * step + step && (i + 1) * step <= self.count * step) by (
            nonlinear_arith)
                requires
                    i < self.count,
                    step >= 0,
            ;
            out.push(Capability { cptr: self.start_cptr + i, object: self.object, paddr: p });
            i = i + 1;
            p = p + step;
        }
        out
    }
}

/// Lends an alias of `slots` and of `untyped` to `body`, then hands back
/// what `body` returned together with the cleanup owed on every exit: the
/// cleanup of the whole range, then a revoke of everything carved out of
/// the block, whose status decides whether the memory was reclaimed.
pub fn with_temporary_resources<E, F>(slots: &CNodeSlots, untyped: &Untyped, body: F) -> (r: (
    Result<(), E>,
    Vec<KernelCall>,
))
    where
        F: FnOnce(CNodeSlots, Untyped) -> Result<(), E>,
    requires
        slots.wf(),
        slots@.role == Role::Local,
        forall|s: CNodeSlots, u: Untyped| s.wf() && s@ == slots@ && u@ == untyped@ ==> body.requires((s, u)),
    ensures
        exists|s: CNodeSlots, u: Untyped| s@ == slots@ && u@ == untyped@ && body.ensures((s, u), r.0),
        r.1@ == cleanup_calls(slots@).push(KernelCall::CNodeRevoke { root: slots@.cptr, index: untyped@.cptr }),
{
    let alias = Untyped { cptr: untyped.cptr, size_bits: untyped.size_bits, kind: untyped.kind, paddr: untyped.paddr };
    let lend = |s: CNodeSlots| -> (o: Result<(), E>)
        requires
            s.wf() && s@ == slots@,
        ensures
            body.ensures((s, alias), o),
        { body(s, alias) };
    let (outcome, mut calls) = slots.with_temporary(lend);
    calls.push(KernelCall::CNodeRevoke { root: slots.cptr(), index: untyped.cptr });
    let r = (outcome, calls);
    proof {
        let s = choose|s: CNodeSlots| s@ == slots@ && lend.ensures((s,), r.0);
        assert(body.ensures((s, alias), r.0) && alias@ == untyped@);
    }
    r
}

/// Given what the body of `with_temporary_resources` returned and the status
/// of the final revoke of the block: the body's result where the memory was
/// reclaimed; else the failure of the revoke, and the body's result is dropped.
pub fn finish_temporary_resources<E>(outcome: Result<(), E>, status: usize) -> (r: Result<
    Result<(), E>,
    SeL4Error,
>)
    ensures
        status == STATUS_OK ==> r == Ok::<Result<(), E>, SeL4Error>(outcome),
        status != STATUS_OK ==> r == Err::<Result<(), E>, SeL4Error>(
            SeL4Error { method: ApiMethod::CNodeRevoke, code: status },
        ),
{
    match check_status(ApiMethod::CNodeRevoke, status) {
        Ok(()) => Ok(outcome),
        Err(e) => Err(e),
    }
}

/// `2^n` as a 64-bit word.
pub(crate) fn pow2_u64(n: usize) -> (r: u64)
    requires
        n <= MAX_UNTYPED_BITS,
    ensures
        r == pow2(n as nat),
{
    proof {
        lemma_u64_pow2_no_overflow(n as nat);
        lemma_u64_shl_is_mul(1, n as u64);
    }
    1u64 << (n as u64)
}

impl Untyped {
    pub(crate) fn internal_new(cptr: usize, size_bits: usize, kind: MemoryKind, paddr: u64) -> (r:
        Untyped)
        ensures
            r@ == (UntypedView { cptr, size_bits: size_bits as nat, kind, paddr: paddr as int }),
    {
        Untyped { cptr, size_bits, kind, paddr }
    }

    pub fn cptr(&self) -> (r: usize)
        ensures
            r == self@.cptr,
    {
        self.cptr
    }

    pub fn size_bits(&self) -> (r: usize)
        ensures
            r == self@.size_bits,
    {
        self.size_bits
    }

    pub fn kind(&self) -> (r: MemoryKind)
        ensures
            r == self@.kind,
    {
        self.kind
    }

    pub fn paddr(&self) -> (r: u64)
        ensures
            r == self@.paddr,
    {
        self.paddr
    }

    /// Whether an object of kind `object` fits in this block.
    pub fn fits(&self, object: ObjectType) -> (r: bool)
        ensures
            r == (required_bits(object) <= self@.size_bits),
    {
        match object_size_bits(object) {
            Some(bits) => bits <= self.size_bits,
            None => false,
        }
    }

    /// Given the status of `retype_call` with a count of one: the new object's
    /// capability, in the slot of `dest`. The kernel is asked only where the
    /// object fits; `status` counts for nothing otherwise. The block is used up.
    pub fn retype(self, object: ObjectType, dest: CNodeSlots, status: usize) -> (r: Result<
        Capability,
        AllocError,
    >)
        requires
            self@.valid(),
            dest.wf(),
            dest@.size == 1,
        ensures
            r matches Ok(c) ==> retype_outcome(self@, object, dest@, status) == Ok::<CapabilityView, AllocError>(c@),
            r matches Err(e) ==> retype_outcome(self@, object, dest@, status) == Err::<CapabilityView, AllocError>(e),
    {
        if !self.fits(object) {
            return Err(AllocError::Exhausted);
        }
        match check_status(ApiMethod::UntypedRetype, status) {
            Err(e) => Err(AllocError::Kernel(e)),
            Ok(()) => Ok(Capability { cptr: dest.offset(), object, paddr: self.paddr }),
        }
    }

    /// The retype that carves `count` objects of kind `object` out of this
    /// block into the slots of `dest`.
    pub fn retype_call(&self, object: ObjectType, dest: &CNodeSlots, count: usize) -> (r: KernelCall)
        ensures
            r == (KernelCall::UntypedRetype {
                untyped: self@.cptr,
                object,
                dest_root: dest@.cptr,
                dest_offset: dest@.offset as usize,
                count,
            }),
    {
        KernelCall::UntypedRetype {
            untyped: self.cptr,
            object,
            dest_root: dest.cptr(),
            dest_offset: dest.offset(),
            count,
        }
    }

    /// Given the status of `retype_call` for a table of `2^radix` slots with
    /// a count of one: a capability, in the slot of `dest`, to a new table
    /// for a child, and the range of all the new table's slots. The kernel
    /// is asked only where the table fits; `status` counts for nothing otherwise.
    pub fn retype_cnode(self, radix: u8, dest: CNodeSlots, status: usize) -> (r: Result<
        (CNode, CNodeSlots),
        AllocError,
    >)
        requires
            self@.valid(),
            (radix as u32) < usize::BITS,
            dest.wf(),
            dest@.size == 1,
        ensures
            r is Ok <==> retype_outcome(self@, ObjectType::CNode { radix: radix as usize }, dest@, status) is Ok,
            r matches Err(e) ==> retype_outcome(self@, ObjectType::CNode { radix: radix as usize }, dest@, status)
                == Err::<CapabilityView, AllocError>(e),
            r matches Ok(p) ==> p.0.cptr_spec() == dest@.offset && p.0.radix_spec() == radix
                && p.0.role_spec() == Role::Child && p.1.wf() && p.1@ == (SlotRange {
                cptr: dest@.offset as usize,
                offset: 0,
                size: pow2(radix as nat) as int,
                role: Role::Child,
            }),
    {
        proof {
            dest.lemma_view_bounds();
        }
        let cap = match self.retype(ObjectType::CNode { radix: radix as usize }, dest, status) {
            Ok(c) => c,
            Err(e) => {
                return Err(e);
            },
        };
        proof {
            vstd::bits::lemma_usize_pow2_no_overflow(radix as nat);
            vstd::bits::lemma_usize_shl_is_mul(1, radix as usize);
        }
        let slots: usize = 1usize << (radix as usize);
        Ok(
            (
                CNode::internal_new(cap.cptr, radix, Role::Child),
                CNodeSlots::internal_new(cap.cptr, 0, slots, Role::Child),
            ),
        )
    }

    /// Given the status of `retype_call` with a count of `dest`'s length:
    /// that many objects of kind `object`, one per slot, laid out from the
    /// block's start. Fails as exhausted, with no invocation owed, where they
    /// do not fit. The block is used up.
    pub fn retype_multiple(self, object: ObjectType, dest: CNodeSlots, status: usize) -> (r: Result<
        CapRange,
        AllocError,
    >)
        requires
            self@.valid(),
            dest.wf(),
        ensures
            !(required_bits(object) <= self@.size_bits && objects_fit(self@, required_bits(object) as nat, dest@.size))
                ==> r == Err::<CapRange, AllocError>(AllocError::Exhausted),
            required_bits(object) <= self@.size_bits && objects_fit(self@, required_bits(object) as nat, dest@.size)
                ==> (r is Ok <==> status == STATUS_OK),
            required_bits(object) <= self@.size_bits && objects_fit(self@, required_bits(object) as nat, dest@.size)
                && status != STATUS_OK ==> r == Err::<CapRange, AllocError>(
                AllocError::Kernel(SeL4Error { method: ApiMethod::UntypedRetype, code: status }),
            ),
            r matches Ok(c) ==> required_bits(object) <= self@.size_bits && objects_fit(
                self@,
                required_bits(object) as nat,
                dest@.size,
            ) && status == STATUS_OK && c.wf() && c@ == (CapRangeView {
                start_cptr: dest@.offset as usize,
                object,
                bits: required_bits(object) as nat,
                count: dest@.size as nat,
                paddr: self@.paddr,
            }),
    {
        proof {
            dest.lemma_view_bounds();
        }
        let bits = match object_size_bits(object) {
            Some(b) => b,
            None => {
                return Err(AllocError::Exhausted);
            },
        };
        if bits > self.size_bits {
            return Err(AllocError::Exhausted);
        }
        let room = pow2_u64(self.size_bits - bits);
        let n = dest.size();
        proof {
            lemma_pow2_adds((self.size_bits - bits) as nat, bits as nat);
            lemma_pow2_pos(bits as nat);
        }
        let ghost obj = pow2(bits as nat);
        let ghost whole = pow2(self.size_bits as nat);
        assert(whole == room * obj);
        if n as u64 > room {
            assert(n * obj > whole) by (nonlinear_arith)
                requires
                    n > room,
                    obj > 0,
                    whole == room * obj,
            ;
            return Err(AllocError::Exhausted);
        }
        assert(n * obj <= whole) by (nonlinear_arith)
            requires
                n <= room,
                obj > 0,
                whole == room * obj,
        ;
        if let Err(e) = check_status(ApiMethod::UntypedRetype, status) {
            return Err(AllocError::Kernel(e));
        }
        Ok(CapRange { start_cptr: dest.offset(), object, bits, count: n, paddr: self.paddr })
    }

    /// The retype that `split` stands on: two blocks of the class below.
    pub fn split_call(&self, dest: &CNodeSlots) -> (r: KernelCall)
        requires
            self@.valid(),
            self@.size_bits > MIN_UNTYPED_BITS,
        ensures
            r == (KernelCall::UntypedRetype {
                untyped: self@.cptr,
                object: ObjectType::Untyped { size_bits: (self@.size_bits - 1) as usize },
                dest_root: dest@.cptr,
                dest_offset: dest@.offset as usize,
                count: 2,
            }),
    {
        self.retype_call(ObjectType::Untyped { size_bits: self.size_bits - 1 }, dest, 2)
    }

    /// Given the status of `split_call`: the two halves of the block, in the
    /// two slots of `dest`, lower half first. The block is used up either way.
    pub fn split(self, dest: CNodeSlots, status: usize) -> (r: Result<(Untyped, Untyped), SeL4Error>)
        requires
            self@.valid(),
            self@.size_bits > MIN_UNTYPED_BITS,
            dest.wf(),
            dest@.size == 2,
            dest@.role == Role::Local,
        ensures
            r is Err <==> status != STATUS_OK,
            r matches Err(e) ==> status_result(ApiMethod::UntypedRetype, status) == Err::<(), SeL4Error>(e),
            r matches Ok(p) ==> p.0@.valid() && p.1@.valid() && p.0@ == halves(self@, dest@).0
                && p.1@ == halves(self@, dest@).1,
    {
        match check_status(ApiMethod::UntypedRetype, status) {
            Err(e) => Err(e),
            Ok(()) => {
                proof {
                    lemma_pow2_unfold(self.size_bits as nat);
                    dest.lemma_view_bounds();
                }
                let bits = self.size_bits - 1;
                let half = pow2_u64(bits);
                let (_, offset, _) = dest.elim();
                Ok(
                    (
                        Untyped::internal_new(offset, bits, self.kind, self.paddr),
                        Untyped::internal_new(offset + 1, bits, self.kind, self.paddr + half),
                    ),
                )
            },
        }
    }

    /// The retype that `quarter` stands on: four blocks two classes below.
    pub fn quarter_call(&self, dest: &CNodeSlots) -> (r: KernelCall)
        requires
            self@.valid(),
            self@.size_bits >= MIN_UNTYPED_BITS + 2,
        ensures
            r == (KernelCall::UntypedRetype {
                untyped: self@.cptr,
                object: ObjectType::Untyped { size_bits: (self@.size_bits - 2) as usize },
                dest_root: dest@.cptr,
                dest_offset: dest@.offset as usize,
                count: 4,
            }),
    {
        self.retype_call(ObjectType::Untyped { size_bits: self.size_bits - 2 }, dest, 4)
    }

    /// Given the status of `quarter_call`: the four quarters of the block,
    /// in the four slots of `dest`, in address order.
    pub fn quarter(self, dest: CNodeSlots, status: usize) -> (r: Result<
        (Untyped, Untyped, Untyped, Untyped),
        SeL4Error,
    >)
        requires
            self@.valid(),
            self@.size_bits >= MIN_UNTYPED_BITS + 2,
            dest.wf(),
            dest@.size == 4,
            dest@.role == Role::Local,
        ensures
            r is Err <==> status != STATUS_OK,
            r matches Err(e) ==> status_result(ApiMethod::UntypedRetype, status) == Err::<(), SeL4Error>(e),
            r matches Ok(q) ==> {
                &&& q.0@.valid() && q.1@.valid() && q.2@.valid() && q.3@.valid()
                &&& q.0@ == (UntypedView {
                    cptr: dest@.offset as usize,
                    size_bits: (self@.size_bits - 2) as nat,
                    ..self@
                })
                &&& q.1@ == (UntypedView {
                    cptr: (dest@.offset + 1) as usize,
                    paddr: q.0@.end(),
                    ..q.0@
                })
                &&& q.2@ == (UntypedView {
                    cptr: (dest@.offset + 2) as usize,
                    paddr: q.1@.end(),
                    ..q.0@
                })
                &&& q.3@ == (UntypedView {
                    cptr: (dest@.offset + 3) as usize,
                    paddr: q.2@.end(),
                    ..q.0@
                })
                &&& q.3@.end() == self@.end()
            },
    {
        match check_status(ApiMethod::UntypedRetype, status) {
            Err(e) => Err(e),
            Ok(()) => {
                proof {
                    lemma_pow2_unfold(self.size_bits as nat);
                    lemma_pow2_unfold((self.size_bits - 1) as nat);
                    dest.lemma_view_bounds();
                }
                let bits = self.size_bits - 2;
                let step = pow2_u64(bits);
                let (_, offset, _) = dest.elim();
                let p = self.paddr;
                Ok(
                    (
                        Untyped::internal_new(offset, bits, self.kind, p),
                        Untyped::internal_new(offset + 1, bits, self.kind, p + step),
                        Untyped::internal_new(offset + 2, bits, self.kind, p + 2 * step),
                        Untyped::internal_new(offset + 3, bits, self.kind, p + 3 * step),
                    ),
                )
            },
        }
    }
}

} // verus!
