//! The boot-time supply of untyped memory, searched by size and by
//! physical address.
use vstd::prelude::*;

use vstd::arithmetic::power2::pow2;

use crate::kernel::{MAX_UNTYPED_BITS, MIN_UNTYPED_BITS};
use crate::untyped::{MemoryKind, Untyped, UntypedView};

verus! {

/// One untyped region as the boot record describes it.
#[derive(Clone, Copy, Debug, PartialEq, Eq, Structural)]
pub struct UntypedDesc {
    pub paddr: u64,
    pub size_bits: u8,
    pub is_device: bool,
}

/// The block that descriptor `d` stands for, in slot `cptr`.
pub open spec fn desc_view(d: UntypedDesc, cptr: int) -> UntypedView {
    UntypedView {
        cptr: cptr as usize,
        size_bits: d.size_bits as nat,
        kind: if d.is_device {
            MemoryKind::Device
        } else {
            MemoryKind::General
        },
        paddr: d.paddr as int,
    }
}

/// A general block of class `bits` or more.
pub open spec fn suits(u: UntypedView, bits: int) -> bool {
    u.kind == MemoryKind::General && u.size_bits >= bits
}

/// A device block of class `bits` or more that starts at `paddr`.
pub open spec fn suits_device(u: UntypedView, bits: int, paddr: int) -> bool {
    u.kind == MemoryKind::Device && u.size_bits >= bits && u.paddr == paddr
}

/// The blocks not yet handed out, in the order of the boot record.
#[derive(Debug)]
pub struct Allocator {
    items: Vec<Untyped>,
}

impl View for Allocator {
    type V = Seq<UntypedView>;

    closed spec fn view(&self) -> Seq<UntypedView> {
        self.items@.map_values(|u: Untyped| u@)
    }
}

impl Allocator {
    pub open spec fn wf(&self) -> bool {
        forall|i: int| 0 <= i < self@.len() ==> (#[trigger] self@[i]).valid()
    }

    /// Number of blocks left.
    pub fn len(&self) -> (r: usize)
        ensures
            r == self@.len(),
    {
        self.items.len()
    }

    /// Wraps the untyped regions of the boot record, whose capabilities sit
    /// in consecutive slots from `first_cptr`. Fails where a region has a
    /// class that no block can have or ends past the last address, or where
    /// the slots run past the last index.
    pub fn bootstrap(first_cptr: usize, descs: &Vec<UntypedDesc>) -> (r: Option<Allocator>)
        ensures
            r is Some <==> first_cptr + descs@.len() <= usize::MAX && forall|i: int|
                0 <= i < descs@.len() ==> #[trigger] desc_view(descs@[i], first_cptr + i).valid(),
            r matches Some(a) ==> a.wf() && a@.len() == descs@.len() && forall|i: int|
                0 <= i < descs@.len() ==> #[trigger] a@[i] == desc_view(descs@[i], first_cptr + i),
    {
        if descs.len() > usize::MAX - first_cptr {
            return None;
        }
        let mut items: Vec<Untyped> = Vec::new();
        let mut i: usize = 0;
        while i < descs.len()
            invariant
                first_cptr + descs@.len() <= usize::MAX,
                i <= descs@.len(),
                items@.len() == i,
                forall|k: int| 0 <= k < i ==> #[trigger] items@[k]@ == desc_view(descs@[k], first_cptr + k),
                forall|k: int| 0 <= k < i ==> (#[trigger] desc_view(descs@[k], first_cptr + k)).valid(),
            decreases descs@.len() - i,
        {
            let d = descs[i];
            let bits = d.size_bits as usize;
            if bits < MIN_UNTYPED_BITS || bits > MAX_UNTYPED_BITS {
                assert(!desc_view(descs@[i as int], first_cptr + i).valid());
                return None;
            }
            let size = crate::untyped::pow2_u64(bits);
            if d.paddr > u64::MAX - size {
                assert(!desc_view(descs@[i as int], first_cptr + i).valid());
                return None;
            }
            let kind = if d.is_device {
                MemoryKind::Device
            } else {
                MemoryKind::General
            };
            items.push(Untyped::internal_new(first_cptr + i, bits, kind, d.paddr));
            i = i + 1;
        }
        let a = Allocator { items };
        assert forall|k: int| 0 <= k < descs@.len() implies #[trigger] a@[k] == desc_view(descs@[k], first_cptr + k) by {
            assert(a@[k] == items@[k]@);
        }
        Some(a)
    }

    /// Hands out the smallest general block of class `size_bits` or more,
    /// which leaves the supply; none where no general block is that large.
    pub fn get_untyped(&mut self, size_bits: usize) -> (r: Option<Untyped>)
        requires
            old(self).wf(),
        ensures
            final(self).wf(),
            r is None <==> !exists|i: int| 0 <= i < old(self)@.len() && #[trigger] suits(old(self)@[i], size_bits as int),
            r is None ==> final(self)@ == old(self)@,
            r matches Some(u) ==> u@.valid() && suits(u@, size_bits as int) && (exists|i: int|
                0 <= i < old(self)@.len() && old(self)@[i] == u@ && final(self)@ == old(self)@.remove(i))
                && forall|j: int| 0 <= j < old(self)@.len() && #[trigger] suits(old(self)@[j], size_bits as int)
                    ==> u@.size_bits <= old(self)@[j].size_bits,
    {
        let mut best: Option<usize> = None;
        let mut i: usize = 0;
        while i < self.items.len()
            invariant
                i <= self@.len(),
                self@.len() == self.items@.len(),
                forall|k: int| 0 <= k < self@.len() ==> #[trigger] self@[k] == self.items@[k]@,
                best is None ==> forall|k: int| 0 <= k < i ==> !(#[trigger] suits(self@[k], size_bits as int)),
                best matches Some(b) ==> b < i && suits(self@[b as int], size_bits as int) && forall|k: int|
                    0 <= k < i && #[trigger] suits(self@[k], size_bits as int) ==> self@[b as int].size_bits
                        <= self@[k].size_bits,
            decreases self@.len() - i,
        {
            let it = &self.items[i];
            if it.kind() == MemoryKind::General && it.size_bits() >= size_bits {
                match best {
                    None => {
                        best = Some(i);
                    },
                    Some(b) => {
                        if it.size_bits() < self.items[b].size_bits() {
                            best = Some(i);
                        }
                    },
                }
            }
            i = i + 1;
        }
        match best {
            None => None,
            Some(b) => {
                let ghost before = self@;
                let u = self.items.remove(b);
                assert(self@ =~= before.remove(b as int));
                Some(u)
            },
        }
    }

    /// Hands out a device block of class `size_bits` or more that starts at
    /// physical address `paddr`, which leaves the supply; none where there
    /// is no such block.
    pub fn get_device_untyped(&mut self, size_bits: usize, paddr: u64) -> (r: Option<Untyped>)
        requires
            old(self).wf(),
        ensures
            final(self).wf(),
            r is None <==> !exists|i: int|
                0 <= i < old(self)@.len() && #[trigger] suits_device(old(self)@[i], size_bits as int, paddr as int),
            r is None ==> final(self)@ == old(self)@,
            r matches Some(u) ==> u@.valid() && suits_device(u@, size_bits as int, paddr as int) && (exists|i: int|
                0 <= i < old(self)@.len() && old(self)@[i] == u@ && final(self)@ == old(self)@.remove(i)),
    {
        let mut i: usize = 0;
        while i < self.items.len()
            invariant
                self@ == old(self)@,
                self.wf(),
                i <= self@.len(),
                self@.len() == self.items@.len(),
                forall|k: int| 0 <= k < self@.len() ==> #[trigger] self@[k] == self.items@[k]@,
                forall|k: int| 0 <= k < i ==> !(#[trigger] suits_device(self@[k], size_bits as int, paddr as int)),
            decreases self@.len() - i,
        {
            let it = &self.items[i];
            if it.kind() == MemoryKind::Device && it.size_bits() >= size_bits && it.paddr() == paddr {
                let ghost before = self@;
                let u = self.items.remove(i);
                assert(self@ =~= before.remove(i as int));
                assert(u@ == before[i as int]);
                assert(suits_device(before[i as int], size_bits as int, paddr as int));
                assert(u@.valid());
                return Some(u);
            }
            i = i + 1;
        }
        None
    }
}

} // verus!
