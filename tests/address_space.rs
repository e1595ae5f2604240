use ferros::asid::{ASIDControl, ASIDPool, ASID_POOL_COUNT, ASID_POOL_SIZE};
use ferros::cnode::{root_cnode, CNodeSlots};
use ferros::error::{AllocError, ApiMethod, MappingError, SeL4Error};
use ferros::kernel::{KernelCall, ObjectType};
use ferros::micro_alloc::{Allocator, UntypedDesc};
use ferros::untyped::{Capability, Untyped};
use ferros::vspace::{image_copy_calls, mapping_result, next_map_step, upper_dir_address, MapStep, AssignedPageDirectory, MappedDirectory, PagingLevel};

fn slots(first_free: usize, count: usize) -> CNodeSlots {
    root_cnode(2, 12, first_free).1.allocate(count).0
}

fn block(size_bits: u8, paddr: u64) -> Untyped {
    let descs = vec![UntypedDesc { paddr, size_bits, is_device: false }];
    let mut supply = Allocator::bootstrap(10, &descs).expect("boot record");
    supply.get_untyped(size_bits as usize).expect("the block")
}

fn object(object: ObjectType, bits: u8, paddr: u64, slot: usize) -> Capability {
    block(bits, paddr).retype(object, slots(slot, 1), 0).expect("retype")
}

fn pool() -> ASIDPool {
    let mut control = ASIDControl::new(3, ASID_POOL_COUNT);
    control.make_asid_pool(block(12, 0x7000_0000), slots(80, 1), 0).expect("pool")
}

fn assigned(slot: usize) -> AssignedPageDirectory {
    let pd = object(ObjectType::PageDirectory, 12, 0x7100_0000, slot);
    pool().assign(pd, 0).expect("an id")
}

#[test]
fn map_granule_reports_overflow_apart_from_other_failures() {
    let mut upper = MappedDirectory::new(20, PagingLevel::PageUpperDirectory);
    let dir = object(ObjectType::PageDirectory, 12, 0x7200_0000, 90);
    assert_eq!(upper.map_granule(&dir, 6), Err(MappingError::Overflow));
    assert_eq!(upper.free_slots(), 512);
    assert_eq!(
        upper.map_granule(&dir, 3),
        Err(MappingError::IntermediateLayerFailure(SeL4Error {
            method: ApiMethod::PageDirectoryMap,
            code: 3
        }))
    );
    assert_eq!(upper.free_slots(), 512);
    assert_eq!(upper.map_granule(&dir, 0), Ok(()));
    assert_eq!(upper.free_slots(), 511);
}

#[test]
fn map_granule_calls_by_level() {
    let upper = MappedDirectory::new(20, PagingLevel::PageUpperDirectory);
    let dir = object(ObjectType::PageDirectory, 12, 0x7200_0000, 90);
    assert_eq!(
        upper.map_granule_call(&dir, 0x12_3456_7000, 1),
        KernelCall::PageDirectoryMap { dir: 90, vaddr: 0x12_0000_0000, root: 1 }
    );
    assert_eq!(upper_dir_address(0xffff_ffff_ffff_ffff), 0x7f_c000_0000);
    assert_eq!(upper_dir_address(0x3fff_ffff), 0);
    let table = MappedDirectory::new(21, PagingLevel::PageTable);
    let page = object(ObjectType::Page, 12, 0x7300_0000, 91);
    assert_eq!(
        table.map_granule_call(&page, 0x1000, 1),
        KernelCall::PageMap { page: 91, page_dir: 1, vaddr: 0x1000, writable: true }
    );
    let mut dir_level = MappedDirectory::new(22, PagingLevel::PageDirectory);
    let pt = object(ObjectType::PageTable, 12, 0x7400_0000, 92);
    assert_eq!(
        dir_level.map_granule_call(&pt, 0x20_0000, 1),
        KernelCall::PageTableMap { page_table: 92, page_dir: 1, vaddr: 0x20_0000 }
    );
    assert_eq!(
        dir_level.map_granule(&pt, 1),
        Err(MappingError::IntermediateLayerFailure(SeL4Error { method: ApiMethod::PageTableMap, code: 1 }))
    );
}

#[test]
fn map_page_table_takes_one_entry() {
    let mut pd = assigned(81);
    assert_eq!(pd.cptr(), 81);
    assert_eq!(pd.free_slots(), 512);
    let pt = object(ObjectType::PageTable, 12, 0x7500_0000, 93);
    assert_eq!(
        pd.map_page_table_call(&pt, 0x4000_0000),
        KernelCall::PageTableMap { page_table: 93, page_dir: 81, vaddr: 0x4000_0000 }
    );
    let mapped = pd.map_page_table(pt, 0x4000_0000, 0).expect("mapped");
    assert_eq!(mapped.vaddr(), 0x4000_0000);
    assert_eq!(mapped.cptr(), 93);
    assert_eq!(pd.free_slots(), 511);

    let pt = object(ObjectType::PageTable, 12, 0x7500_0000, 94);
    assert_eq!(mapped.free_slots(), 512);
    let r = pd.map_page_table(pt, 0x4020_0000, 2);
    assert_eq!(
        r.err(),
        Some(MappingError::IntermediateLayerFailure(SeL4Error { method: ApiMethod::PageTableMap, code: 2 }))
    );
    assert_eq!(pd.free_slots(), 511);
    let pt = object(ObjectType::PageTable, 12, 0x7500_0000, 95);
    let r = pd.map_page_table(pt, 0xffff_ffff_ffff_f000, 6);
    assert_eq!(r.err(), Some(MappingError::Overflow));
    assert_eq!(pd.free_slots(), 511);

    assert_eq!(mapped.unmap_call(), KernelCall::PageTableUnmap { page_table: 93 });
    let back = mapped.unmap(0).expect("unmapped");
    assert_eq!(back.object(), ObjectType::PageTable);
    assert_eq!(back.cptr(), 93);
    assert_eq!(back.paddr(), 0x7500_0000);
}

#[test]
fn map_and_unmap_page() {
    let mut pd = assigned(81);
    let page = object(ObjectType::Page, 12, 0x7600_0000, 95);
    assert_eq!(
        pd.map_page_call(&page, 0x1_0000, false),
        KernelCall::PageMap { page: 95, page_dir: 81, vaddr: 0x1_0000, writable: false }
    );
    let mapped = pd.map_page(page, 0x1_0000, 0).expect("mapped");
    assert_eq!((mapped.cptr(), mapped.vaddr(), mapped.paddr()), (95, 0x1_0000, 0x7600_0000));
    assert_eq!(pd.free_slots(), 512);
    assert_eq!(mapped.unmap_call(), KernelCall::PageUnmap { page: 95 });
    let r = mapped.unmap(4);
    assert_eq!(r.err(), Some(SeL4Error { method: ApiMethod::PageUnmap, code: 4 }));
    let page = object(ObjectType::Page, 12, 0x7600_0000, 96);
    let r = pd.map_page(page, 0x1_0000, 5);
    assert_eq!(
        r.err(),
        Some(MappingError::IntermediateLayerFailure(SeL4Error { method: ApiMethod::PageMap, code: 5 }))
    );
    let page = object(ObjectType::Page, 12, 0x7600_0000, 97);
    let r = pd.map_page(page, 0x8000_0000, 6);
    assert_eq!(r.err(), Some(MappingError::Overflow));
}

#[test]
fn asid_pools_get_ids_in_mint_order() {
    let mut control = ASIDControl::new(3, ASID_POOL_COUNT);
    let ut = block(12, 0x7000_0000);
    let dest = slots(80, 1);
    assert_eq!(
        control.make_asid_pool_call(&ut, &dest),
        KernelCall::AsidControlMakePool { control: 3, untyped: 10, dest_root: 2, dest_index: 80 }
    );
    let first = control.make_asid_pool(ut, dest, 0).expect("pool");
    assert_eq!(first.id(), 0);
    assert_eq!(first.free_slots(), ASID_POOL_SIZE);
    assert_eq!(control.free_pools(), ASID_POOL_COUNT - 1);
    let r = control.make_asid_pool(block(12, 0x7000_0000), slots(81, 1), 9);
    assert_eq!(r.err(), Some(SeL4Error { method: ApiMethod::AsidControlMakePool, code: 9 }));
    assert_eq!(control.free_pools(), ASID_POOL_COUNT - 1);
    let second = control.make_asid_pool(block(12, 0x7000_0000), slots(81, 1), 0).expect("pool");
    assert_eq!(second.id(), 1);

    let mut late = ASIDControl::new(3, 2);
    let pool = late.make_asid_pool(block(12, 0x7000_0000), slots(82, 1), 0).expect("pool");
    assert_eq!(pool.id(), ASID_POOL_COUNT - 2);
}

#[test]
fn asid_pool_exhausts() {
    let mut pool = pool();
    let pd = object(ObjectType::PageDirectory, 12, 0x7100_0000, 83);
    assert_eq!(pool.assign_call(&pd), KernelCall::AsidPoolAssign { pool: 80, page_dir: 83 });
    let r = pool.assign(pd, 7);
    assert!(matches!(
        r,
        Err(AllocError::Kernel(SeL4Error { method: ApiMethod::AsidPoolAssign, code: 7 }))
    ));
    assert_eq!(pool.free_slots(), ASID_POOL_SIZE);
    for i in 0..ASID_POOL_SIZE {
        let pd = object(ObjectType::PageDirectory, 12, 0x7100_0000, 100 + i);
        pool.assign(pd, 0).expect("an id left");
    }
    assert_eq!(pool.free_slots(), 0);
    let pd = object(ObjectType::PageDirectory, 12, 0x7100_0000, 99);
    assert!(matches!(pool.assign(pd, 0), Err(AllocError::Exhausted)));
}

#[test]
fn writable_image_copies_are_independent() {
    // two address spaces each get a copy of the same image page, carved
    // out of blocks of their own
    let copy_a = block(14, 0x8000_0000).retype_multiple(ObjectType::Page, slots(200, 1), 0).expect("page").iter();
    let copy_b = block(14, 0x8000_4000).retype_multiple(ObjectType::Page, slots(201, 1), 0).expect("page").iter();
    let image_frame: u64 = 0x8002_0000;
    let base = 0x8000_0000u64;
    let mut memory = vec![0u8; 0x3_0000];
    let frame_of = |paddr: u64| (paddr - base) as usize;
    memory[frame_of(image_frame)..frame_of(image_frame) + 4096].fill(7);
    for copy in [&copy_a[0], &copy_b[0]] {
        let (src, dst) = (frame_of(image_frame), frame_of(copy.paddr()));
        let bytes: Vec<u8> = memory[src..src + 4096].to_vec();
        memory[dst..dst + 4096].copy_from_slice(&bytes);
    }
    // process A writes a sentinel into its copy
    memory[frame_of(copy_a[0].paddr()) + 16] = 42;
    assert_eq!(memory[frame_of(copy_b[0].paddr()) + 16], 7);
    assert_eq!(memory[frame_of(image_frame) + 16], 7);
    assert_ne!(copy_a[0].paddr(), copy_b[0].paddr());
}

#[test]
fn image_copy_goes_through_scratch_window() {
    let scratch = assigned(81);
    let target = assigned(82);
    let copy = block(12, 0x8000_0000).retype_multiple(ObjectType::Page, slots(200, 1), 0).expect("page").iter();
    let calls = image_copy_calls(&copy[0], &scratch, 0x7000_0000, &target, 0x1_0000);
    assert_eq!(
        calls,
        vec![
            KernelCall::PageMap { page: 200, page_dir: 81, vaddr: 0x7000_0000, writable: true },
            KernelCall::PageUnmap { page: 200 },
            KernelCall::PageMap { page: 200, page_dir: 82, vaddr: 0x1_0000, writable: true },
        ]
    );
}

#[test]
fn only_overflow_grows_the_chain() {
    let mut upper = MappedDirectory::new(20, PagingLevel::PageUpperDirectory);
    let dir = object(ObjectType::PageDirectory, 12, 0x7200_0000, 90);
    assert_eq!(next_map_step(upper.map_granule(&dir, 6)), MapStep::GrowLevelAbove);
    assert_eq!(
        next_map_step(upper.map_granule(&dir, 1)),
        MapStep::Fatal(SeL4Error { method: ApiMethod::PageDirectoryMap, code: 1 })
    );
    assert_eq!(next_map_step(upper.map_granule(&dir, 0)), MapStep::Mapped);
}

#[test]
fn full_structure_still_reports_overflow() {
    let mut table = MappedDirectory::new(21, PagingLevel::PageTable);
    for i in 0..512 {
        let page = object(ObjectType::Page, 12, 0x7300_0000, 100 + i);
        assert_eq!(table.map_granule(&page, 0), Ok(()));
    }
    assert_eq!(table.free_slots(), 0);
    let page = object(ObjectType::Page, 12, 0x7300_0000, 99);
    assert_eq!(table.map_granule(&page, 6), Err(MappingError::Overflow));
    assert_eq!(
        table.map_granule(&page, 8),
        Err(MappingError::IntermediateLayerFailure(SeL4Error { method: ApiMethod::PageMap, code: 8 }))
    );
    assert_eq!(table.free_slots(), 0);
}

#[test]
fn mapping_result_decodes_statuses() {
    assert_eq!(mapping_result(PagingLevel::PageDirectory, 0), Ok(()));
    assert_eq!(mapping_result(PagingLevel::PageDirectory, 6), Err(MappingError::Overflow));
    assert_eq!(
        mapping_result(PagingLevel::PageUpperDirectory, 2),
        Err(MappingError::IntermediateLayerFailure(SeL4Error { method: ApiMethod::PageDirectoryMap, code: 2 }))
    );
}
