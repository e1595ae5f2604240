use ferros::cnode::{root_cnode, CNodeSlots};
use ferros::error::{AllocError, ApiMethod, SeL4Error};
use ferros::kernel::{object_size_bits, KernelCall, ObjectType};
use ferros::micro_alloc::{Allocator, UntypedDesc};
use ferros::untyped::{finish_temporary_resources, with_temporary_resources, MemoryKind, Untyped};

fn slots(first_free: usize) -> CNodeSlots {
    root_cnode(2, 12, first_free).1
}

fn block(size_bits: u8, paddr: u64) -> Untyped {
    let descs = vec![UntypedDesc { paddr, size_bits, is_device: false }];
    let mut supply = Allocator::bootstrap(10, &descs).expect("boot record");
    supply.get_untyped(size_bits as usize).expect("the block")
}

#[test]
fn bootstrap_wraps_each_region() {
    let descs = vec![
        UntypedDesc { paddr: 0x1000_0000, size_bits: 20, is_device: false },
        UntypedDesc { paddr: 0x0202_0000, size_bits: 14, is_device: true },
        UntypedDesc { paddr: 0x2000_0000, size_bits: 18, is_device: false },
    ];
    let supply = Allocator::bootstrap(10, &descs).expect("boot record");
    assert_eq!(supply.len(), 3);
}

#[test]
fn bootstrap_refuses_bad_regions() {
    let too_small = vec![UntypedDesc { paddr: 0, size_bits: 3, is_device: false }];
    assert!(Allocator::bootstrap(10, &too_small).is_none());
    let too_large = vec![UntypedDesc { paddr: 0, size_bits: 48, is_device: false }];
    assert!(Allocator::bootstrap(10, &too_large).is_none());
    let past_end = vec![UntypedDesc { paddr: u64::MAX - 15, size_bits: 4, is_device: false }];
    assert!(Allocator::bootstrap(10, &past_end).is_none());
    let many = vec![UntypedDesc { paddr: 0, size_bits: 4, is_device: false }; 3];
    assert!(Allocator::bootstrap(usize::MAX - 1, &many).is_none());
    assert!(Allocator::bootstrap(10, &Vec::new()).is_some());
}

#[test]
fn get_untyped_takes_smallest_sufficient_general_block() {
    let descs = vec![
        UntypedDesc { paddr: 0x1000_0000, size_bits: 22, is_device: false },
        UntypedDesc { paddr: 0x0202_0000, size_bits: 20, is_device: true },
        UntypedDesc { paddr: 0x2000_0000, size_bits: 20, is_device: false },
        UntypedDesc { paddr: 0x3000_0000, size_bits: 12, is_device: false },
    ];
    let mut supply = Allocator::bootstrap(10, &descs).expect("boot record");
    let ut = supply.get_untyped(20).expect("a block of class 20");
    assert_eq!(ut.cptr(), 12);
    assert_eq!(ut.size_bits(), 20);
    assert_eq!(ut.paddr(), 0x2000_0000);
    assert_eq!(ut.kind(), MemoryKind::General);
    assert_eq!(supply.len(), 3);
    let next = supply.get_untyped(20).expect("the larger one");
    assert_eq!(next.cptr(), 10);
    assert_eq!(next.size_bits(), 22);
    assert!(supply.get_untyped(20).is_none());
    assert_eq!(supply.len(), 2);
}

#[test]
fn get_device_untyped_matches_physical_base() {
    let descs = vec![
        UntypedDesc { paddr: 0x0202_0000, size_bits: 14, is_device: true },
        UntypedDesc { paddr: 0x021E_8000, size_bits: 14, is_device: true },
        UntypedDesc { paddr: 0x021E_8000, size_bits: 14, is_device: false },
    ];
    let mut supply = Allocator::bootstrap(10, &descs).expect("boot record");
    let uart = supply.get_device_untyped(14, 0x021E_8000).expect("uart memory");
    assert_eq!(uart.cptr(), 11);
    assert_eq!(uart.kind(), MemoryKind::Device);
    assert!(supply.get_device_untyped(14, 0x021E_8000).is_none());
    assert!(supply.get_device_untyped(15, 0x0202_0000).is_none());
    assert!(supply.get_untyped(14).is_some());
    assert!(supply.get_untyped(4).is_none());
}

#[test]
fn split_halves_cover_block() {
    let ut = block(20, 0x1000_0000);
    let (dest, _) = slots(40).allocate(2);
    assert_eq!(
        ut.split_call(&dest),
        KernelCall::UntypedRetype {
            untyped: 10,
            object: ObjectType::Untyped { size_bits: 19 },
            dest_root: 2,
            dest_offset: 40,
            count: 2,
        }
    );
    let (a, b) = ut.split(dest, 0).expect("split");
    assert_eq!((a.cptr(), a.size_bits(), a.paddr()), (40, 19, 0x1000_0000));
    assert_eq!((b.cptr(), b.size_bits(), b.paddr()), (41, 19, 0x1008_0000));
    assert_eq!(b.paddr() + (1 << 19), 0x1000_0000 + (1 << 20));
}

#[test]
fn split_failure_carries_status() {
    let ut = block(20, 0x1000_0000);
    let (dest, _) = slots(40).allocate(2);
    let r = ut.split(dest, 10);
    assert_eq!(r.err(), Some(SeL4Error { method: ApiMethod::UntypedRetype, code: 10 }));
}

#[test]
fn quarter_gives_four_consecutive_blocks() {
    let ut = block(20, 0x1000_0000);
    let (dest, _) = slots(40).allocate(4);
    assert_eq!(
        ut.quarter_call(&dest),
        KernelCall::UntypedRetype {
            untyped: 10,
            object: ObjectType::Untyped { size_bits: 18 },
            dest_root: 2,
            dest_offset: 40,
            count: 4,
        }
    );
    let (a, b, c, d) = ut.quarter(dest, 0).expect("quarter");
    assert_eq!((a.cptr(), a.size_bits(), a.paddr()), (40, 18, 0x1000_0000));
    assert_eq!((b.cptr(), b.paddr()), (41, 0x1004_0000));
    assert_eq!((c.cptr(), c.paddr()), (42, 0x1008_0000));
    assert_eq!((d.cptr(), d.size_bits(), d.paddr()), (43, 18, 0x100C_0000));
}

#[test]
fn retype_needs_a_large_enough_block() {
    let ut = block(20, 0x1000_0000);
    let (dest, _) = slots(40).allocate(2);
    let (half, _) = ut.split(dest, 0).expect("split");
    let (slot, _) = slots(50).allocate(1);
    assert!(half.fits(ObjectType::Untyped { size_bits: 19 }));
    assert!(!half.fits(ObjectType::Untyped { size_bits: 20 }));
    let cap = half.retype(ObjectType::Tcb, slot, 0).expect("a thread control block");
    assert_eq!(cap.cptr(), 50);
    assert_eq!(cap.object(), ObjectType::Tcb);
    assert_eq!(cap.paddr(), 0x1000_0000);

    let small = block(4, 0x5000_0000);
    let (slot, _) = slots(60).allocate(1);
    assert!(matches!(small.retype(ObjectType::Tcb, slot, 0), Err(AllocError::Exhausted)));
    let small = block(4, 0x5000_0000);
    let (slot, _) = slots(60).allocate(1);
    let ep = small.retype(ObjectType::Endpoint, slot, 0).expect("an endpoint fits in 16 bytes");
    assert_eq!(ep.object(), ObjectType::Endpoint);
}

#[test]
fn retype_kernel_failure_is_reported() {
    let ut = block(12, 0x5000_0000);
    let (slot, _) = slots(60).allocate(1);
    let r = ut.retype(ObjectType::Page, slot, 5);
    assert!(matches!(
        r,
        Err(AllocError::Kernel(SeL4Error { method: ApiMethod::UntypedRetype, code: 5 }))
    ));
}

#[test]
fn object_sizes() {
    assert_eq!(object_size_bits(ObjectType::Tcb), Some(11));
    assert_eq!(object_size_bits(ObjectType::Endpoint), Some(4));
    assert_eq!(object_size_bits(ObjectType::Notification), Some(5));
    assert_eq!(object_size_bits(ObjectType::CNode { radix: 12 }), Some(17));
    assert_eq!(object_size_bits(ObjectType::CNode { radix: usize::MAX }), None);
    assert_eq!(object_size_bits(ObjectType::Page), Some(12));
    assert_eq!(object_size_bits(ObjectType::Untyped { size_bits: 30 }), Some(30));
}

#[test]
fn retype_multiple_lays_objects_out_in_order() {
    let ut = block(14, 0x6000_0000);
    let (dest, _) = slots(70).allocate(4);
    let range = ut.retype_multiple(ObjectType::Page, dest, 0).expect("four pages");
    assert_eq!(range.len(), 4);
    let pages = range.iter();
    assert_eq!(pages.len(), 4);
    for (i, p) in pages.iter().enumerate() {
        assert_eq!(p.cptr(), 70 + i);
        assert_eq!(p.object(), ObjectType::Page);
        assert_eq!(p.paddr(), 0x6000_0000 + 4096 * i as u64);
    }
    let ut = block(14, 0x6000_0000);
    let (dest, _) = slots(70).allocate(5);
    assert!(matches!(ut.retype_multiple(ObjectType::Page, dest, 0), Err(AllocError::Exhausted)));
    let ut = block(12, 0x6000_0000);
    let (dest, _) = slots(70).allocate(1);
    assert!(matches!(ut.retype_multiple(ObjectType::Tcb, dest, 0).map(|r| r.len()), Ok(1)));
    let ut = block(12, 0x6000_0000);
    let (dest, _) = slots(70).allocate(256);
    let eps = ut.retype_multiple(ObjectType::Endpoint, dest, 0).expect("endpoints").iter();
    assert_eq!(eps[255].paddr(), 0x6000_0000 + 255 * 16);
    let ut = block(12, 0x6000_0000);
    let (dest, _) = slots(70).allocate(2);
    assert!(matches!(
        ut.retype_multiple(ObjectType::Page, dest, 0),
        Err(AllocError::Exhausted)
    ));
    let ut = block(12, 0x6000_0000);
    let (dest, _) = slots(70).allocate(1);
    assert!(matches!(
        ut.retype_multiple(ObjectType::Page, dest, 3),
        Err(AllocError::Kernel(SeL4Error { method: ApiMethod::UntypedRetype, code: 3 }))
    ));
}

#[test]
fn temporary_resources_revoke_the_block_last() {
    let ut = block(16, 0x6000_0000);
    let (scratch, _) = slots(70).allocate(2);
    let used = std::cell::Cell::new(0);
    let (outcome, calls) = with_temporary_resources(&scratch, &ut, |s: CNodeSlots, u: Untyped| -> Result<(), SeL4Error> {
        let (a, b) = u.split(s, 0)?;
        used.set(a.size_bits() + b.size_bits());
        Ok(())
    });
    assert_eq!(outcome, Ok(()));
    assert_eq!(used.get(), 30);
    assert_eq!(
        calls,
        vec![
            KernelCall::CNodeRevoke { root: 2, index: 71 },
            KernelCall::CNodeDelete { root: 2, index: 71 },
            KernelCall::CNodeRevoke { root: 2, index: 70 },
            KernelCall::CNodeDelete { root: 2, index: 70 },
            KernelCall::CNodeRevoke { root: 2, index: 10 },
        ]
    );
    // the block is still ours after the scope
    assert_eq!(ut.size_bits(), 16);
}

#[test]
fn failed_reclaim_drops_the_body_result() {
    let ok: Result<(), u8> = Ok(());
    assert_eq!(finish_temporary_resources(ok, 0), Ok(Ok(())));
    let failed: Result<(), u8> = Err(4);
    assert_eq!(finish_temporary_resources(failed, 0), Ok(Err(4)));
    assert_eq!(
        finish_temporary_resources(ok, 9),
        Err(SeL4Error { method: ApiMethod::CNodeRevoke, code: 9 })
    );
}
