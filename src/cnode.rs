//! Capability tables and ranges of their empty slots.
use vstd::prelude::*;

use vstd::arithmetic::power2::pow2;
use vstd::bits::lemma_usize_shl_is_mul;
use vstd::bits::lemma_usize_pow2_no_overflow;

use crate::error::{check_status, status_result, ApiMethod, CNodeSlotsError, SeL4Error};
use crate::kernel::KernelCall;

verus! {

/// Whose capability table a handle refers to: this process's own, or a
/// child's that this process builds.
#[derive(Clone, Copy, Debug, PartialEq, Eq, Structural)]
pub enum Role {
    Local,
    Child,
}

/// A capability to a capability table of `2^radix` slots.
#[derive(Debug)]
pub struct CNode {
    cptr: usize,
    radix: u8,
    role: Role,
}

impl CNode {
    pub closed spec fn cptr_spec(&self) -> usize {
        self.cptr
    }

    pub closed spec fn radix_spec(&self) -> u8 {
        self.radix
    }

    pub closed spec fn role_spec(&self) -> Role {
        self.role
    }

    pub(crate) fn internal_new(cptr: usize, radix: u8, role: Role) -> (r: CNode)
        ensures
            r.cptr_spec() == cptr,
            r.radix_spec() == radix,
            r.role_spec() == role,
    {
        CNode { cptr, radix, role }
    }

    pub fn cptr(&self) -> (r: usize)
        ensures
            r == self.cptr_spec(),
    {
        self.cptr
    }

    pub fn radix(&self) -> (r: u8)
        ensures
            r == self.radix_spec(),
    {
        self.radix
    }

    pub fn role(&self) -> (r: Role)
        ensures
            r == self.role_spec(),
    {
        self.role
    }
}

/// Wraps the root task's own table, of `2^radix` slots, of which those below
/// `first_free` are held by the kernel's initial capabilities: the table, and
/// the range of all its free slots.
pub fn root_cnode(cptr: usize, radix: u8, first_free: usize) -> (r: (CNode, CNodeSlots))
    requires
        (radix as u32) < usize::BITS,
        first_free <= pow2(radix as nat),
    ensures
        r.0.cptr_spec() == cptr,
        r.0.radix_spec() == radix,
        r.0.role_spec() == Role::Local,
        r.1.wf(),
        r.1@ == (SlotRange {
            cptr,
            offset: first_free as int,
            size: pow2(radix as nat) - first_free,
            role: Role::Local,
        }),
{
    proof {
        lemma_usize_pow2_no_overflow(radix as nat);
        lemma_usize_shl_is_mul(1, radix as usize);
    }
    let slots: usize = 1usize << (radix as usize);
    (
        CNode::internal_new(cptr, radix, Role::Local),
        CNodeSlots::internal_new(cptr, first_free, slots - first_free, Role::Local),
    )
}

impl CNode {
    /// The copy that gives a child table a capability to itself, in the
    /// first slot of `dest`.
    pub fn self_reference_call(&self, parent: &CNode, dest: &CNodeSlots) -> (r: KernelCall)
        ensures
            r == (KernelCall::CNodeCopy {
                dest_root: dest@.cptr,
                dest_index: dest@.offset as usize,
                src_root: parent.cptr_spec(),
                src_index: self.cptr_spec(),
            }),
    {
        KernelCall::CNodeCopy {
            dest_root: dest.cptr,
            dest_index: dest.offset,
            src_root: parent.cptr,
            src_index: self.cptr,
        }
    }

    /// Given the status of `self_reference_call`: the child's capability to
    /// its own table, in the first slot of `dest`, and the rest of `dest`
    /// as seen from inside the child.
    pub fn generate_self_reference(&self, parent: &CNode, dest: CNodeSlots, status: usize) -> (r:
        Result<(CNode, CNodeSlots), SeL4Error>)
        requires
            dest.wf(),
            dest@.size >= 1,
            dest@.role == Role::Child,
        ensures
            r is Err <==> status_result(ApiMethod::CNodeCopy, status) is Err,
            r matches Err(e) ==> status_result(ApiMethod::CNodeCopy, status) == Err::<(), SeL4Error>(e),
            r matches Ok(p) ==> p.0.cptr_spec() == dest@.offset && p.0.radix_spec() == self.radix_spec()
                && p.0.role_spec() == Role::Child && p.1.wf() && p.1@ == (SlotRange {
                cptr: dest@.offset as usize,
                offset: dest@.offset + 1,
                size: dest@.size - 1,
                role: Role::Child,
            }),
    {
        match check_status(ApiMethod::CNodeCopy, status) {
            Err(e) => Err(e),
            Ok(()) => {
                let (_, offset, size) = dest.elim();
                Ok(
                    (
                        CNode::internal_new(offset, self.radix, Role::Child),
                        CNodeSlots::internal_new(offset, offset + 1, size - 1, Role::Child),
                    ),
                )
            },
        }
    }
}

/// A range of consecutive empty slots of one capability table, owned by
/// exactly one handle.
#[derive(Debug)]
pub struct CNodeSlots {
    cptr: usize,
    offset: usize,
    size: usize,
    role: Role,
}

/// The model of a slot range: table, first index and number of slots.
pub struct SlotRange {
    pub cptr: usize,
    pub offset: int,
    pub size: int,
    pub role: Role,
}

impl SlotRange {
    pub open spec fn contains(self, j: int) -> bool {
        self.offset <= j < self.offset + self.size
    }

    pub open spec fn disjoint(self, other: SlotRange) -> bool {
        self.cptr != other.cptr || self.offset + self.size <= other.offset || other.offset
            + other.size <= self.offset
    }
}

/// The first `k` slots of range `r`.
pub open spec fn prefix_of(r: SlotRange, k: int) -> SlotRange {
    SlotRange { size: k, ..r }
}

/// The slots of range `r` after its first `k`.
pub open spec fn remainder_of(r: SlotRange, k: int) -> SlotRange {
    SlotRange { offset: r.offset + k, size: r.size - k, ..r }
}

/// Allocating `k` slots of a range of length `L`, with `k <= L`, splits it
/// into a prefix of length `k` and a remainder of length `L - k` that share
/// no index and together hold every slot of the range. A range counted at
/// run time refuses `k > L` as not enough slots (`WCNodeSlots::allocate`);
/// a call with `k > L` on `CNodeSlots::allocate` does not verify.
pub proof fn lemma_allocate_partitions(r: SlotRange, k: int)
    requires
        0 <= k <= r.size,
    ensures
        prefix_of(r, k).size == k,
        remainder_of(r, k).size == r.size - k,
        prefix_of(r, k).disjoint(remainder_of(r, k)),
        forall|j: int|
            r.contains(j) <==> (#[trigger] prefix_of(r, k).contains(j) || #[trigger] remainder_of(
                r,
                k,
            ).contains(j)),
{
}

impl View for CNodeSlots {
    type V = SlotRange;

    closed spec fn view(&self) -> SlotRange {
        SlotRange {
            cptr: self.cptr,
            offset: self.offset as int,
            size: self.size as int,
            role: self.role,
        }
    }
}

impl CNodeSlots {
    /// The range lies within the indices of a word.
    pub closed spec fn wf(&self) -> bool {
        self.offset + self.size <= usize::MAX
    }

    pub proof fn lemma_view_bounds(&self)
        ensures
            self@.offset >= 0,
            self@.size >= 0,
            self.wf() <==> self@.offset + self@.size <= usize::MAX,
    {
    }

    pub(crate) fn internal_new(cptr: usize, offset: usize, size: usize, role: Role) -> (r:
        CNodeSlots)
        requires
            offset + size <= usize::MAX,
        ensures
            r.wf(),
            r@ == (SlotRange { cptr, offset: offset as int, size: size as int, role }),
    {
        CNodeSlots { cptr, offset, size, role }
    }

    /// Gives up the handle for its table, first index and length.
    pub fn elim(self) -> (r: (usize, usize, usize))
        ensures
            r.0 == self@.cptr,
            r.1 == self@.offset,
            r.2 == self@.size,
    {
        (self.cptr, self.offset, self.size)
    }

    /// Number of slots in the range.
    pub fn size(&self) -> (r: usize)
        ensures
            r == self@.size,
    {
        self.size
    }

    /// Index of the first slot.
    pub fn offset(&self) -> (r: usize)
        ensures
            r == self@.offset,
    {
        self.offset
    }

    /// The table the slots belong to.
    pub fn cptr(&self) -> (r: usize)
        ensures
            r == self@.cptr,
    {
        self.cptr
    }

    pub fn role(&self) -> (r: Role)
        ensures
            r == self@.role,
    {
        self.role
    }

    /// Splits off the first `count` slots: the prefix and the remainder
    /// partition the range, in that order.
    pub fn allocate(self, count: usize) -> (r: (CNodeSlots, CNodeSlots))
        requires
            self.wf(),
            count <= self@.size,
        ensures
            r.0.wf(),
            r.1.wf(),
            r.0@ == prefix_of(self@, count as int),
            r.1@ == remainder_of(self@, count as int),
            r.0@.disjoint(r.1@),
    {
        let (cptr, offset, size) = (self.cptr, self.offset, self.size);
        (
            CNodeSlots::internal_new(cptr, offset, count, self.role),
            CNodeSlots::internal_new(cptr, offset + count, size - count, self.role),
        )
    }

    /// Hands out the range one slot at a time, lowest index first.
    pub fn iter(self) -> (r: Vec<CNodeSlots>)
        requires
            self.wf(),
        ensures
            r@.len() == self@.size,
            forall|i: int|
                0 <= i < r@.len() ==> #[trigger] r@[i].wf() && r@[i]@ == (SlotRange {
                    offset: self@.offset + i,
                    size: 1,
                    ..self@
                }),
    {
        let mut out: Vec<CNodeSlots> = Vec::new();
        let mut n: usize = 0;
        while n < self.size
            invariant
                self.wf(),
                n <= self.size,
                out@.len() == n,
                forall|i: int|
                    0 <= i < out@.len() ==> #[trigger] out@[i].wf() && out@[i]@ == (SlotRange {
                        offset: self@.offset + i,
                        size: 1,
                        ..self@
                    }),
            decreases self.size - n,
        {
            out.push(CNodeSlots::internal_new(self.cptr, self.offset + n, 1, self.role));
            n = n + 1;
        }
        out
    }

    /// The invocations that revoke and then delete every slot of the range,
    /// highest index first. The kernel answers "already empty" for some of
    /// them; that is no failure here.
    pub fn revoke_in_reverse(&self) -> (r: Vec<KernelCall>)
        requires
            self.wf(),
        ensures
            r@ == cleanup_calls(self@),
    {
        let mut out: Vec<KernelCall> = Vec::new();
        let mut k: usize = 0;
        while k < self.size
            invariant
                self.wf(),
                k <= self.size,
                out@.len() == 2 * k,
                forall|i: int| 0 <= i < out@.len() ==> #[trigger] out@[i] == cleanup_calls(self@)[i],
            decreases self.size - k,
        {
            let index = self.offset + (self.size - 1 - k);
            out.push(KernelCall::CNodeRevoke { root: self.cptr, index });
            out.push(KernelCall::CNodeDelete { root: self.cptr, index });
            k = k + 1;
        }
        assert(out@ =~= cleanup_calls(self@));
        out
    }

    /// Lends an alias of the range to `body`, then hands back what `body`
    /// returned together with the cleanup of the whole range, which is owed
    /// whether `body` succeeded or failed. Once the cleanup has run, the
    /// range is empty and can be lent again.
    pub fn with_temporary<E, F>(&self, body: F) -> (r: (Result<(), E>, Vec<KernelCall>))
        where
            F: FnOnce(CNodeSlots) -> Result<(), E>,
        requires
            self.wf(),
            self@.role == Role::Local,
            forall|s: CNodeSlots| s.wf() && s@ == self@ ==> body.requires((s,)),
        ensures
            exists|s: CNodeSlots| s@ == self@ && body.ensures((s,), r.0),
            r.1@ == cleanup_calls(self@),
    {
        let alias = CNodeSlots::internal_new(self.cptr, self.offset, self.size, self.role);
        let outcome = body(alias);
        (outcome, self.revoke_in_reverse())
    }

    /// Trades the range for one whose capacity is counted at run time.
    pub fn weaken(self) -> (r: WCNodeSlots)
        requires
            self.wf(),
            self@.role == Role::Local,
        ensures
            r.wf(),
            r@ == self@,
    {
        WCNodeSlots { slots: self }
    }
}

/// A range of slots of this process's own table whose remaining capacity is
/// counted at run time, for counts that are known only then.
#[derive(Debug)]
pub struct WCNodeSlots {
    slots: CNodeSlots,
}

impl View for WCNodeSlots {
    type V = SlotRange;

    closed spec fn view(&self) -> SlotRange {
        self.slots@
    }
}

impl WCNodeSlots {
    pub closed spec fn wf(&self) -> bool {
        self.slots.wf() && self.slots.role == Role::Local
    }

    /// Number of slots left.
    pub fn size(&self) -> (r: usize)
        ensures
            r == self@.size,
    {
        self.slots.size
    }

    /// Index of the first slot left.
    pub fn offset(&self) -> (r: usize)
        ensures
            r == self@.offset,
    {
        self.slots.offset
    }

    /// Peels the first `count` slots off the range, which keeps the rest;
    /// fails, leaving the range as it was, where fewer than `count` are left.
    pub fn allocate(&mut self, count: usize) -> (r: Result<WCNodeSlots, CNodeSlotsError>)
        requires
            old(self).wf(),
        ensures
            final(self).wf(),
            count > old(self)@.size <==> r is Err,
            r is Err ==> r == Err::<WCNodeSlots, CNodeSlotsError>(CNodeSlotsError::NotEnoughSlots)
                && final(self)@ == old(self)@,
            r matches Ok(p) ==> p.wf() && p@ == prefix_of(old(self)@, count as int) && final(self)@
                == remainder_of(old(self)@, count as int),
    {
        if count > self.slots.size {
            return Err(CNodeSlotsError::NotEnoughSlots);
        }
        let offset = self.slots.offset;
        self.slots.offset = offset + count;
        self.slots.size = self.slots.size - count;
        Ok(WCNodeSlots { slots: CNodeSlots::internal_new(self.slots.cptr, offset, count, Role::Local) })
    }

    /// Hands out the range one slot at a time, lowest index first.
    pub fn into_strong_iter(self) -> (r: Vec<CNodeSlots>)
        requires
            self.wf(),
        ensures
            r@.len() == self@.size,
            forall|i: int|
                0 <= i < r@.len() ==> #[trigger] r@[i].wf() && r@[i]@ == (SlotRange {
                    offset: self@.offset + i,
                    size: 1,
                    ..self@
                }),
    {
        self.slots.iter()
    }
}


/// The slot that the `i`-th cleanup invocation of range `r` names: the walk
/// goes from the highest index down, two invocations per slot.
pub open spec fn cleanup_index(r: SlotRange, i: int) -> int {
    r.offset + r.size - 1 - i / 2
}

/// The invocations that empty range `r`: for each slot, highest index
/// first, a revoke of everything derived from it, then a delete of the slot.
pub open spec fn cleanup_calls(r: SlotRange) -> Seq<KernelCall> {
    Seq::new(
        (2 * r.size) as nat,
        |i: int|
            if i % 2 == 0 {
                KernelCall::CNodeRevoke { root: r.cptr, index: cleanup_index(r, i) as usize }
            } else {
                KernelCall::CNodeDelete { root: r.cptr, index: cleanup_index(r, i) as usize }
            },
    )
}

/// The kernel's record of one table: each occupied slot, with the slots of
/// the capabilities it was derived from. What a revoke or a delete of a slot
/// of table `root` does to it.
pub open spec fn after_call(s: Map<int, Set<int>>, root: usize, call: KernelCall) -> Map<
    int,
    Set<int>,
> {
    match call {
        KernelCall::CNodeRevoke { root: t, index } => if t == root {
            s.restrict(s.dom().filter(|k: int| !s[k].contains(index as int)))
        } else {
            s
        },
        KernelCall::CNodeDelete { root: t, index } => if t == root {
            s.remove(index as int)
        } else {
            s
        },
        _ => s,
    }
}

/// The record after a sequence of revokes and deletes, in order.
pub open spec fn after_calls(s: Map<int, Set<int>>, root: usize, calls: Seq<KernelCall>) -> Map<
    int,
    Set<int>,
>
    decreases calls.len(),
{
    if calls.len() == 0 {
        s
    } else {
        after_call(after_calls(s, root, calls.drop_last()), root, calls.last())
    }
}

/// A capability that neither stands in range `r` nor derives from a slot of it.
pub open spec fn unrelated(s: Map<int, Set<int>>, r: SlotRange, j: int) -> bool {
    &&& s.contains_key(j)
    &&& !r.contains(j)
    &&& forall|a: int| s[j].contains(a) ==> !r.contains(a)
}

proof fn lemma_cleanup_prefix(s: Map<int, Set<int>>, r: SlotRange, n: int)
    requires
        0 <= n <= 2 * r.size,
        r.offset >= 0,
        r.offset + r.size <= usize::MAX,
    ensures
        forall|j: int|
            r.offset + r.size - n / 2 <= j < r.offset + r.size ==> !(#[trigger] after_calls(
                s,
                r.cptr,
                cleanup_calls(r).take(n),
            ).contains_key(j)),
        forall|j: int|
            #[trigger] unrelated(s, r, j) ==> after_calls(s, r.cptr, cleanup_calls(r).take(n)).contains_key(j)
                && after_calls(s, r.cptr, cleanup_calls(r).take(n))[j] == s[j],
    decreases n,
{
    let c = cleanup_calls(r);
    if n == 0 {
        assert(c.take(0).len() == 0);
    } else {
        lemma_cleanup_prefix(s, r, n - 1);
        assert(c.take(n).drop_last() =~= c.take(n - 1));
        let prev = after_calls(s, r.cptr, c.take(n - 1));
        let idx = cleanup_index(r, n - 1);
        assert(r.offset <= idx < r.offset + r.size);
        assert(c.take(n).last() == c[n - 1]);
        let cur = after_calls(s, r.cptr, c.take(n));
        assert(cur == after_call(prev, r.cptr, c[n - 1]));
        assert forall|j: int| unrelated(s, r, j) implies cur.contains_key(j) && cur[j] == s[j] by {
            assert(prev.contains_key(j) && prev[j] == s[j]);
            assert(r.contains(idx));
            assert(!s[j].contains(idx));
        }
        assert forall|j: int| r.offset + r.size - n / 2 <= j < r.offset + r.size implies !cur.contains_key(j) by {
            if j >= r.offset + r.size - (n - 1) / 2 {
                assert(!prev.contains_key(j));
            } else {
                assert(n % 2 == 0);
                assert(j == idx);
            }
        }
    }
}

/// Two sibling ranges split from one range clean up independently: the
/// cleanup of one leaves each capability held in the other, and not derived
/// from the first, as it was.
pub proof fn lemma_sibling_scope_untouched(s: Map<int, Set<int>>, a: CNodeSlots, b: CNodeSlots)
    requires
        a.wf(),
        b.wf(),
        a@.cptr == b@.cptr,
        a@.disjoint(b@),
    ensures
        forall|j: int|
            #![trigger s.contains_key(j)]
            b@.contains(j) && s.contains_key(j) && (forall|x: int| s[j].contains(x) ==> !a@.contains(x))
                ==> after_calls(s, a@.cptr, cleanup_calls(a@)).contains_key(j)
                && after_calls(s, a@.cptr, cleanup_calls(a@))[j] == s[j],
{
    lemma_cleanup_empties_range(s, a);
    assert forall|j: int|
        #![trigger s.contains_key(j)]
        b@.contains(j) && s.contains_key(j) && (forall|x: int| s[j].contains(x) ==> !a@.contains(x))
            implies after_calls(s, a@.cptr, cleanup_calls(a@)).contains_key(j)
            && after_calls(s, a@.cptr, cleanup_calls(a@))[j] == s[j] by {
        assert(unrelated(s, a@, j));
    }
}

/// Running the cleanup of a range, whatever the table held before, leaves
/// every slot of the range empty, and leaves in place, as it was, each
/// capability that neither stands in the range nor derives from one that does.
pub proof fn lemma_cleanup_empties_range(s: Map<int, Set<int>>, slots: CNodeSlots)
    requires
        slots.wf(),
    ensures
        forall|j: int|
            slots@.contains(j) ==> !(#[trigger] after_calls(
                s,
                slots@.cptr,
                cleanup_calls(slots@),
            ).contains_key(j)),
        forall|j: int|
            #[trigger] unrelated(s, slots@, j) ==> after_calls(s, slots@.cptr, cleanup_calls(slots@)).contains_key(j)
                && after_calls(s, slots@.cptr, cleanup_calls(slots@))[j] == s[j],
{
    let r = slots@;
    lemma_cleanup_prefix(s, r, 2 * r.size);
    assert(cleanup_calls(r).take(2 * r.size) =~= cleanup_calls(r));
}

} // verus!
