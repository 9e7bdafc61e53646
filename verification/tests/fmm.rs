use hsakmt_rs::fmm::{
    aperture_allocate_area, aperture_allocate_area_aligned, aperture_allocate_object,
    aperture_area_request,
    aperture_is_valid, aperture_release_area, check_placement, find_gap, fmm_alloc_memory_args,
    fmm_allocate_device_finish, fmm_allocate_memory_object, fmm_release, fmm_release_request,
    fmm_set_memory_policy, fmm_translate_ioc_to_hsa_flags, grow_alignment,
    hsakmt_mmap_allocate_aligned, mmap_align_cap, mmap_aperture_allocate_aligned,
    mmap_aperture_release, mmap_aperture_request, place_area, reserved_aperture_allocate_aligned,
    reserved_aperture_release, vm_align_area_size, vm_create_and_init_object,
    vm_find_object_by_address, vm_find_object_by_address_range, vm_remove_object, AllocError,
    AreaGrant, DeviceAllocFailure, MapRequest, IS_CANONICAL_ADDR, VOID_PTRS_SUB, VOID_PTR_ADD,
    VOID_PTR_SUB,
};
use hsakmt_rs::fmm_globals::{manageable_aperture, manageable_aperture_ops_t, vm_area};
use hsakmt_rs::hsakmttypes::{
    HsaMemFlags, HSA_MEM_FLAG_COARSE_GRAIN, HSA_MEM_FLAG_EXTENDED_COHERENT,
    HSA_MEM_FLAG_HOST_ACCESS, HSA_MEM_FLAG_READ_ONLY,
};
use hsakmt_rs::kfd_ioctl::{
    kfd_ioctl_alloc_memory_of_gpu_args, KFD_IOC_ALLOC_MEM_FLAGS_COHERENT,
    KFD_IOC_ALLOC_MEM_FLAGS_EXT_COHERENT, KFD_IOC_ALLOC_MEM_FLAGS_NO_SUBSTITUTE,
    KFD_IOC_ALLOC_MEM_FLAGS_PUBLIC, KFD_IOC_ALLOC_MEM_FLAGS_USERPTR, KFD_IOC_ALLOC_MEM_FLAGS_VRAM,
    KFD_IOC_ALLOC_MEM_FLAGS_WRITABLE,
};
use hsakmt_rs::rbtree_amd::rbtree_key;

const PAGE: u64 = 0x1000;

fn reserved(base: u64, limit: u64, align: u64, guard_pages: u32) -> manageable_aperture {
    manageable_aperture::with_window(
        base,
        limit,
        align,
        guard_pages,
        true,
        manageable_aperture_ops_t::ReservedRange,
    )
}

fn mapped(base: u64, limit: u64, align: u64, guard_pages: u32) -> manageable_aperture {
    manageable_aperture::with_window(
        base,
        limit,
        align,
        guard_pages,
        true,
        manageable_aperture_ops_t::MmapBacked,
    )
}

fn kernel_answer(handle: u64, mmap_offset: u64) -> kfd_ioctl_alloc_memory_of_gpu_args {
    kfd_ioctl_alloc_memory_of_gpu_args {
        va_addr: 0,
        size: 0,
        handle,
        mmap_offset,
        gpu_id: 1,
        flags: 0,
    }
}

fn areas(app: &manageable_aperture) -> Vec<(u64, u64, u64)> {
    let mut out = Vec::new();
    let mut from = 0u64;
    while let Some(n) = app.vm_ranges.first_at_or_after(from) {
        out.push((n.key.addr, n.key.size, n.data));
        if n.key.addr == u64::MAX {
            break;
        }
        from = n.key.addr + 1;
    }
    out
}

fn assert_disjoint(app: &manageable_aperture) {
    let a = areas(app);
    for i in 1..a.len() {
        assert!(a[i - 1].0 + a[i - 1].1.max(1) <= a[i].0);
    }
    for (addr, size, _) in a {
        assert!(addr >= app.base);
        assert!(addr + size.max(1) - 1 <= app.limit);
    }
}

#[test]
fn two_allocations_are_aligned_and_apart() {
    let mut app = reserved(0x1000, 0xFFFF, 0x100, 1);
    let first = aperture_allocate_area(&mut app, None, 0x200, PAGE, 9, None).unwrap();
    assert_eq!(first.address, 0x1200);
    assert_eq!(first.address % 0x100, 0);
    assert_eq!(first.length, 0x1200);
    let second = aperture_allocate_area(&mut app, None, 0x200, PAGE, 9, None).unwrap();
    assert_eq!(second.address, 0x2600);
    assert!(second.address >= first.address + first.length);
    assert_eq!(areas(&app), vec![(0x1200, 0x1200, 0x200), (0x2600, 0x1200, 0x200)]);
}

#[test]
fn a_requested_address_in_use_is_an_overlap() {
    let mut app = reserved(0x1000, 0xFFFF, 0x100, 0);
    let first = reserved_aperture_allocate_aligned(&mut app, Some(0x2000), 0x1000, 0, PAGE);
    assert_eq!(first, Ok(0x2000));
    assert_eq!(areas(&app), vec![(0x2000, 0x1000, 0x1000)]);
    let again = reserved_aperture_allocate_aligned(&mut app, Some(0x2000), 0x1000, 0, PAGE);
    assert_eq!(again, Err(AllocError::Overlap));
    let through = aperture_allocate_area_aligned(&mut app, Some(0x2000), 0x1000, 0, PAGE, 9, None);
    assert_eq!(through, Err(AllocError::Overlap));
    assert_eq!(areas(&app), vec![(0x2000, 0x1000, 0x1000)]);
}

#[test]
fn free_of_an_unknown_address_is_not_found() {
    let mut app = reserved(0x1000, 0xFFFF, 0x100, 1);
    let grant = aperture_allocate_area(&mut app, None, 0x200, PAGE, 9, None).unwrap();
    let answer = kernel_answer(77, 0);
    assert_eq!(fmm_allocate_device_finish(&mut app, grant.address, 0x200, &answer, 0, 0, PAGE), Ok(0));
    assert_eq!(fmm_release_request(&app, 0x5000).map(|a| a.handle), Err(AllocError::NotFound));
    assert_eq!(fmm_release(&mut app, 0x5000, 0, PAGE), Err(AllocError::NotFound));
    assert_eq!(aperture_release_area(&mut app, 0x5000, 0x200, PAGE), Err(AllocError::NotFound));
    assert_eq!(app.tree.len(), 1);
    assert_eq!(areas(&app), vec![(0x1200, 0x1200, 0x200)]);
}

#[test]
fn an_address_that_was_released_is_used_again() {
    let mut app = reserved(0x1000, 0xFFFF, 0x100, 1);
    let keep = aperture_allocate_area(&mut app, None, 0x200, PAGE, 9, None).unwrap();
    let before = areas(&app);
    let first = aperture_allocate_area_aligned(&mut app, None, 0x300, 0x100, PAGE, 9, None).unwrap();
    assert_eq!(first.address, 0x2500);
    let released = aperture_release_area(&mut app, first.address, 0x300, PAGE).unwrap();
    assert_eq!(released, vm_area { start: 0x2500, size: 0x1300 });
    assert_eq!(areas(&app), before);
    let second = aperture_allocate_area_aligned(&mut app, None, 0x300, 0x100, PAGE, 9, None).unwrap();
    assert_eq!(second.address, first.address);
    assert!(second.address >= keep.address + keep.length);
}

#[test]
fn a_released_gap_between_areas_is_filled_again() {
    let mut app = reserved(0x10000, 0xFFFFF, PAGE, 0);
    let a = reserved_aperture_allocate_aligned(&mut app, None, PAGE, 0x2000, PAGE).unwrap();
    let b = reserved_aperture_allocate_aligned(&mut app, None, PAGE, 0x2000, PAGE).unwrap();
    let c = reserved_aperture_allocate_aligned(&mut app, None, PAGE, 0x2000, PAGE).unwrap();
    assert_eq!((a, b, c), (0x10000, 0x12000, 0x14000));
    assert_eq!(reserved_aperture_release(&mut app, b, PAGE, PAGE).map(|r| r.size), Ok(PAGE));
    let again = reserved_aperture_allocate_aligned(&mut app, None, PAGE, 0x2000, PAGE).unwrap();
    assert_eq!(again, b);
    assert_disjoint(&app);
}

#[test]
fn start_is_aligned_when_more_than_a_page_is_asked_for() {
    let mut app = reserved(0x10800, 0xFF_FFFF, 0x100, 1);
    for size in [1u64, 0x800, 0x1234, 0x4000, 0x9000] {
        let at = reserved_aperture_allocate_aligned(&mut app, None, size, 0x4000, PAGE).unwrap();
        assert_eq!(at % 0x4000, 0, "size {size:#x}");
    }
    assert_disjoint(&app);
}

#[test]
fn start_is_aligned_when_the_size_is_a_multiple_of_the_alignment() {
    let mut app = reserved(0x10800, 0xFF_FFFF, 0x400, 1);
    for size in [0x400u64, 0x800, 0xC00, 0x2000] {
        let at = reserved_aperture_allocate_aligned(&mut app, None, size, 0x200, PAGE).unwrap();
        assert_eq!(at % 0x400, 0, "size {size:#x}");
    }
}

#[test]
fn end_is_aligned_when_no_more_than_a_page_is_asked_for() {
    let mut app = reserved(0x10000, 0xFFFFF, PAGE, 1);
    let at = reserved_aperture_allocate_aligned(&mut app, None, 0x800, PAGE, PAGE).unwrap();
    assert_eq!(at, 0x10800);
    assert_eq!((at + 0x800) % PAGE, 0);
    assert_ne!(at % PAGE, 0);
}

#[test]
fn alignment_grows_with_the_size_up_to_a_huge_page() {
    assert_eq!(grow_alignment(0x1000, 0x800, 0x20_0000), 0x1000);
    assert_eq!(grow_alignment(0x1000, 0x2000, 0x20_0000), 0x2000);
    assert_eq!(grow_alignment(0x1000, 0x7FFF, 0x20_0000), 0x4000);
    assert_eq!(grow_alignment(0x1000, 0x4000_0000, 0x20_0000), 0x20_0000);
    assert_eq!(grow_alignment(0x40_0000, 0x4000_0000, 0x20_0000), 0x40_0000);
    assert_eq!(grow_alignment(3, 100, 16), 24);
    assert_eq!(mmap_align_cap(PAGE, 9), 0x20_0000);
    assert_eq!(mmap_align_cap(PAGE, 0), PAGE);
    assert_eq!(mmap_align_cap(PAGE, 18), 0x4000_0000);
    assert_eq!(mmap_align_cap(PAGE, 60), 0x4000_0000_0000_0000);
}

#[test]
fn guard_pages_follow_every_allocation() {
    let mut app = reserved(0x10000, 0xFFFFF, PAGE, 2);
    assert_eq!(vm_align_area_size(&app, 0x3000, PAGE), Some(0x5000));
    assert_eq!(vm_align_area_size(&app, u64::MAX - 0x1000, PAGE), None);
    let a = reserved_aperture_allocate_aligned(&mut app, None, 0x3000, 0x2000, PAGE).unwrap();
    let b = reserved_aperture_allocate_aligned(&mut app, None, 0x3000, 0x2000, PAGE).unwrap();
    assert_eq!(a, 0x10000);
    assert!(b >= a + 0x3000 + 2 * PAGE);
    for byte in [a + 0x3000, a + 0x3000 + 2 * PAGE - 1] {
        let holder = app.vm_ranges.find_containing(byte).map(|n| n.key.addr);
        assert_eq!(holder, Some(a));
    }
    assert_disjoint(&app);
}

#[test]
fn out_of_space_when_nothing_fits() {
    let mut app = reserved(0x1000, 0x3FFF, 0x1000, 0);
    assert_eq!(reserved_aperture_allocate_aligned(&mut app, None, 0x4000, 0x2000, PAGE), Err(AllocError::OutOfSpace));
    assert_eq!(reserved_aperture_allocate_aligned(&mut app, None, 0x2000, 0x2000, PAGE), Ok(0x2000));
    assert_eq!(reserved_aperture_allocate_aligned(&mut app, None, 0x1000, 0x2000, PAGE), Err(AllocError::OutOfSpace));
    assert_eq!(reserved_aperture_allocate_aligned(&mut app, None, u64::MAX, 0x2000, PAGE), Err(AllocError::OutOfSpace));
    assert_eq!(areas(&app), vec![(0x2000, 0x2000, 0x2000)]);
}

#[test]
fn an_aperture_without_a_window_has_no_space() {
    let mut app = manageable_aperture::new();
    assert!(!aperture_is_valid(app.base, app.limit));
    assert!(aperture_is_valid(0x1000, 0x2000));
    assert!(!aperture_is_valid(0x2000, 0x2000));
    assert!(!aperture_is_valid(0, 0x2000));
    assert_eq!(aperture_allocate_area(&mut app, None, 0x10, PAGE, 9, None).map(|g| g.address), Err(AllocError::OutOfSpace));
    assert_eq!(place_area(&mut app, 0, 0, PAGE), Err(AllocError::OutOfSpace));
}

#[test]
fn a_requested_address_outside_the_window_is_out_of_range() {
    let mut app = reserved(0x10000, 0x1FFFF, PAGE, 1);
    assert_eq!(check_placement(&app, 0xF000, PAGE, PAGE), Some(AllocError::ReservationOutOfRange));
    assert_eq!(check_placement(&app, 0x1F000, PAGE, PAGE), Some(AllocError::ReservationOutOfRange));
    assert_eq!(check_placement(&app, 0x1E000, PAGE, PAGE), None);
    assert_eq!(check_placement(&app, 0x10000, u64::MAX, PAGE), Some(AllocError::ReservationOutOfRange));
    assert_eq!(place_area(&mut app, 0x1E000, PAGE, PAGE), Ok(0x1E000));
    assert_eq!(check_placement(&app, 0x1D000, PAGE, PAGE), Some(AllocError::Overlap));
    assert_eq!(place_area(&mut app, 0x1D000, PAGE, PAGE), Err(AllocError::Overlap));
    assert_eq!(areas(&app), vec![(0x1E000, 0x2000, PAGE)]);
}

#[test]
fn find_gap_walks_past_what_is_in_use() {
    let mut app = reserved(0x1000, 0xFFFF, 1, 0);
    assert_eq!(place_area(&mut app, 0x1000, 0x100, PAGE), Ok(0x1000));
    assert_eq!(place_area(&mut app, 0x1200, 0x100, PAGE), Ok(0x1200));
    assert_eq!(find_gap(&app.vm_ranges, 0x1000, 0xFFFF, 0x100, 0, 0x100), Some(0x1100));
    assert_eq!(find_gap(&app.vm_ranges, 0x1000, 0xFFFF, 0x100, 0, 0x101), Some(0x1300));
    assert_eq!(find_gap(&app.vm_ranges, 0x1000, 0xFFFF, 0x100, 0x40, 0x80), Some(0x1140));
    assert_eq!(find_gap(&app.vm_ranges, 0x1000, 0x13FF, 0x100, 0, 0x101), None);
    assert_eq!(find_gap(&app.vm_ranges, 0x1000, 0xFFFF, 0x10000, 0, 1), None);
    assert_eq!(find_gap(&app.vm_ranges, 0x1000, 0xFFFF, 0x100, 0, 0), Some(0x1100));
}

#[test]
fn release_finds_the_area_by_start_and_size() {
    let mut app = reserved(0x10000, 0xFFFFF, PAGE, 1);
    let at = reserved_aperture_allocate_aligned(&mut app, None, 0x2000, 0x2000, PAGE).unwrap();
    assert_eq!(reserved_aperture_release(&mut app, at, 0x1000, PAGE), Err(AllocError::NotFound));
    assert_eq!(reserved_aperture_release(&mut app, at + 1, 0x2000, PAGE), Err(AllocError::NotFound));
    assert_eq!(app.vm_ranges.len(), 1);
    assert_eq!(reserved_aperture_release(&mut app, at, 0x2000, PAGE), Ok(vm_area { start: at, size: 0x3000 }));
    assert_eq!(app.vm_ranges.len(), 0);
    assert_eq!(reserved_aperture_release(&mut app, at, 0x2000, PAGE), Err(AllocError::NotFound));
}

#[test]
fn mapping_needs_an_aperture_that_the_cpu_can_map() {
    let mut app = manageable_aperture::with_window(
        0x10000,
        0xFFFFF,
        PAGE,
        1,
        false,
        manageable_aperture_ops_t::MmapBacked,
    );
    assert_eq!(mmap_aperture_request(&app, None, PAGE, PAGE, PAGE, 9), Err(AllocError::NotCpuAccessible));
    assert_eq!(
        mmap_aperture_allocate_aligned(&mut app, None, PAGE, PAGE, PAGE, 9, Some(0x20000)),
        Err(AllocError::NotCpuAccessible)
    );
    assert_eq!(mmap_aperture_release(&mut app, 0x20000, PAGE, PAGE), Err(AllocError::NotCpuAccessible));
    assert_eq!(aperture_release_area(&mut app, 0x20000, PAGE, PAGE), Err(AllocError::NotCpuAccessible));
}

#[test]
fn mapping_request_pads_for_alignment_and_guards() {
    let app = mapped(0x1000, 0x7FFF_FFFF_FFFF, PAGE, 1);
    assert_eq!(
        mmap_aperture_request(&app, None, 0x3000, 0x10000, PAGE, 9),
        Ok(MapRequest::Anywhere { length: 0x14000, align: 0x10000, guard_size: PAGE })
    );
    assert_eq!(
        mmap_aperture_request(&app, None, 0x40_0000, PAGE, PAGE, 9),
        Ok(MapRequest::Anywhere { length: 0x40_0000 + 0x2000 + 0x1F_F000, align: 0x20_0000, guard_size: PAGE })
    );
    assert_eq!(
        mmap_aperture_request(&app, Some(0x50000), 0x3000, 0, PAGE, 9),
        Ok(MapRequest::Fixed { address: 0x50000, length: 0x4000 })
    );
    assert_eq!(mmap_aperture_request(&app, Some(0x800), 0x3000, 0, PAGE, 9), Err(AllocError::ReservationOutOfRange));
    assert_eq!(mmap_aperture_request(&app, None, u64::MAX, 0, PAGE, 9), Err(AllocError::OutOfSpace));
}

#[test]
fn only_mapped_apertures_ask_the_system_for_anything() {
    let carved = reserved(0x1000, 0x7FFF_FFFF_FFFF, PAGE, 1);
    assert_eq!(aperture_area_request(&carved, None, 0x3000, 0x10000, PAGE, 9), Ok(None));
    assert_eq!(aperture_area_request(&carved, Some(0), u64::MAX, 0, PAGE, 9), Ok(None));
    let app = mapped(0x1000, 0x7FFF_FFFF_FFFF, 0x4000, 1);
    assert_eq!(
        aperture_area_request(&app, None, 0x3000, 0, PAGE, 9),
        Ok(Some(MapRequest::Anywhere { length: 0x3000 + 0x2000 + 0x3000, align: 0x4000, guard_size: PAGE }))
    );
    assert_eq!(
        aperture_area_request(&app, None, 0x3000, 0x10000, PAGE, 9),
        Ok(Some(MapRequest::Anywhere { length: 0x14000, align: 0x10000, guard_size: PAGE }))
    );
    assert_eq!(aperture_area_request(&app, Some(0x800), 0x3000, 0, PAGE, 9), Err(AllocError::ReservationOutOfRange));
}

#[test]
fn mapping_is_trimmed_to_the_aligned_window() {
    let limit = 0x7FFF_FFFF_FFFF;
    let exact = hsakmt_mmap_allocate_aligned(0x7000_0000_0000, 0x3000, 0x10000, PAGE, 0x1000, limit, PAGE);
    assert_eq!(
        exact,
        Ok(AreaGrant {
            address: 0x7000_0001_0000,
            length: 0x4000,
            head: vm_area { start: 0x7000_0000_0000, size: 0x10000 },
            tail: vm_area { start: 0x7000_0001_4000, size: 0 },
        })
    );
    let early = hsakmt_mmap_allocate_aligned(0x7000_0000_F000, 0x3000, 0x10000, PAGE, 0x1000, limit, PAGE);
    assert_eq!(
        early,
        Ok(AreaGrant {
            address: 0x7000_0001_0000,
            length: 0x4000,
            head: vm_area { start: 0x7000_0000_F000, size: 0x1000 },
            tail: vm_area { start: 0x7000_0001_4000, size: 0xF000 },
        })
    );
}

#[test]
fn mapping_outside_the_window_is_out_of_range() {
    let high = hsakmt_mmap_allocate_aligned(0x7000_0000_0000, 0x3000, 0x10000, PAGE, 0x1000, 0x6FFF_FFFF_FFFF, PAGE);
    assert_eq!(high, Err(AllocError::ReservationOutOfRange));
    let low = hsakmt_mmap_allocate_aligned(0x1000, 0x3000, 0x10000, PAGE, 0x20_0000, 0x7FFF_FFFF_FFFF, PAGE);
    assert_eq!(low, Err(AllocError::ReservationOutOfRange));
    let wraps = hsakmt_mmap_allocate_aligned(u64::MAX - 0x1000, 0x3000, 0x10000, PAGE, 0x1000, u64::MAX, PAGE);
    assert_eq!(wraps, Err(AllocError::ReservationOutOfRange));
}

#[test]
fn mapped_areas_are_recorded_and_released() {
    let mut app = mapped(0x1000, 0x7FFF_FFFF_FFFF, PAGE, 1);
    let grant = aperture_allocate_area_aligned(&mut app, None, 0x3000, 0x10000, PAGE, 9, Some(0x7000_0000_0000)).unwrap();
    assert_eq!(grant.address, 0x7000_0001_0000);
    assert_eq!(grant.address % 0x10000, 0);
    assert_eq!(areas(&app), vec![(0x7000_0001_0000, 0x4000, 0x3000)]);
    let same = aperture_allocate_area_aligned(&mut app, None, 0x3000, 0x10000, PAGE, 9, Some(0x7000_0000_0000));
    assert_eq!(same, Err(AllocError::Overlap));
    let none = aperture_allocate_area_aligned(&mut app, None, 0x3000, 0x10000, PAGE, 9, None);
    assert_eq!(none, Err(AllocError::OutOfSpace));
    let fixed = aperture_allocate_area_aligned(&mut app, Some(0x5000_0000), 0x3000, 0, PAGE, 9, Some(0x5000_0000)).unwrap();
    assert_eq!(fixed.address, 0x5000_0000);
    assert_eq!(fixed.length, 0x4000);
    let moved = aperture_allocate_area_aligned(&mut app, Some(0x6000_0000), 0x3000, 0, PAGE, 9, Some(0x6100_0000));
    assert_eq!(moved, Err(AllocError::ReservationOutOfRange));
    assert_eq!(
        mmap_aperture_release(&mut app, 0x7000_0001_0000, 0x3000, PAGE),
        Ok(vm_area { start: 0x7000_0001_0000, size: 0x4000 })
    );
    assert_eq!(areas(&app), vec![(0x5000_0000, 0x4000, 0x3000)]);
}

#[test]
fn kernel_flags_translate_to_object_flags() {
    let all = KFD_IOC_ALLOC_MEM_FLAGS_WRITABLE
        | KFD_IOC_ALLOC_MEM_FLAGS_COHERENT
        | KFD_IOC_ALLOC_MEM_FLAGS_EXT_COHERENT
        | KFD_IOC_ALLOC_MEM_FLAGS_PUBLIC;
    assert_eq!(fmm_translate_ioc_to_hsa_flags(0).Value, 0x2008);
    assert_eq!(fmm_translate_ioc_to_hsa_flags(KFD_IOC_ALLOC_MEM_FLAGS_WRITABLE | KFD_IOC_ALLOC_MEM_FLAGS_COHERENT).Value, 0);
    assert_eq!(fmm_translate_ioc_to_hsa_flags(all).Value, 0x10_0040);
    assert_eq!(fmm_translate_ioc_to_hsa_flags(KFD_IOC_ALLOC_MEM_FLAGS_PUBLIC).Value, 0x2048);
    let flags = fmm_translate_ioc_to_hsa_flags(KFD_IOC_ALLOC_MEM_FLAGS_VRAM);
    assert!(flags.is_set(HSA_MEM_FLAG_READ_ONLY));
    assert!(flags.is_set(HSA_MEM_FLAG_COARSE_GRAIN));
    assert!(!flags.is_set(HSA_MEM_FLAG_EXTENDED_COHERENT));
    assert!(!flags.is_set(HSA_MEM_FLAG_HOST_ACCESS));
}

#[test]
fn kernel_request_for_an_allocation() {
    let args = fmm_alloc_memory_args(7, 0x5000, 0x2000, 0x1000, 0xABCD, KFD_IOC_ALLOC_MEM_FLAGS_VRAM, true);
    assert_eq!(args.gpu_id, 7);
    assert_eq!(args.va_addr, 0x5000);
    assert_eq!(args.size, 0x2000);
    assert_eq!(args.handle, 0);
    assert_eq!(args.mmap_offset, 0);
    assert_eq!(args.flags, KFD_IOC_ALLOC_MEM_FLAGS_VRAM | KFD_IOC_ALLOC_MEM_FLAGS_NO_SUBSTITUTE);
    let apu = fmm_alloc_memory_args(7, 0x5000, 0x2000, 0x1000, 0xABCD, KFD_IOC_ALLOC_MEM_FLAGS_VRAM, false);
    assert_eq!(apu.va_addr, 0x4000);
    let userptr = fmm_alloc_memory_args(7, 0x5000, 0x2000, 0x1000, 0xABCD, KFD_IOC_ALLOC_MEM_FLAGS_USERPTR, false);
    assert_eq!(userptr.va_addr, 0x5000);
    assert_eq!(userptr.mmap_offset, 0xABCD);
    let policy = fmm_set_memory_policy(3, 1, 0, 0x20_0000, 0x1000_0000);
    assert_eq!(policy.gpu_id, 3);
    assert_eq!(policy.default_policy, 1);
    assert_eq!(policy.alternate_policy, 0);
    assert_eq!(policy.alternate_aperture_base, 0x20_0000);
    assert_eq!(policy.alternate_aperture_size, 0x1000_0000);
    assert_eq!(policy.pad, 0);
}

#[test]
fn a_new_object_is_blank_but_for_what_it_was_made_with() {
    let object = vm_create_and_init_object(0x4000, 0x2000, 99, HsaMemFlags { Value: 8 });
    assert_eq!(object.start, 0x4000);
    assert_eq!(object.size, 0x2000);
    assert_eq!(object.handle, 99);
    assert_eq!(object.mflags, HsaMemFlags { Value: 8 });
    assert_eq!(object.userptr, 0);
    assert_eq!(object.userptr_size, 0);
    assert_eq!(object.node_id, 0);
    assert_eq!(object.registration_count, 0);
    assert_eq!(object.mapping_count, 0);
    assert!(object.registered_device_id_array.is_empty());
    assert!(object.mapped_device_id_array.is_empty());
    assert!(object.registered_node_id_array.is_empty());
    assert!(object.mapped_node_id_array.is_empty());
    assert_eq!(object.metadata, 0);
    assert_eq!(object.user_data, 0);
    assert!(!object.is_imported_kfd_bo);
}

#[test]
fn objects_are_found_by_start_and_by_any_address() {
    let mut app = reserved(0x10000, 0xFFFFF, PAGE, 1);
    assert_eq!(aperture_allocate_object(&mut app, 0x20000, 5, 0x3000, HsaMemFlags::empty()), Ok(()));
    assert_eq!(aperture_allocate_object(&mut app, 0x21000, 6, 0x1000, HsaMemFlags::empty()), Err(AllocError::Overlap));
    assert_eq!(vm_find_object_by_address(&app, 0x20000).map(|o| o.handle), Some(5));
    assert!(vm_find_object_by_address(&app, 0x20001).is_none());
    assert_eq!(vm_find_object_by_address_range(&app, 0x22FFF).map(|o| o.handle), Some(5));
    assert!(vm_find_object_by_address_range(&app, 0x23000).is_none());
    assert_eq!(vm_remove_object(&mut app, 0x20001).map(|o| o.handle), Err(AllocError::NotFound));
    assert_eq!(vm_remove_object(&mut app, 0x20000).map(|o| o.handle), Ok(5));
    assert_eq!(app.tree.len(), 0);
}

#[test]
fn allocation_is_recorded_once_the_kernel_agrees() {
    let mut app = reserved(0x10000, 0xFFFFF, PAGE, 1);
    let grant = aperture_allocate_area_aligned(&mut app, None, 0x2000, 0x2000, PAGE, 9, None).unwrap();
    let answer = kernel_answer(0xBEEF, 0x1234);
    let flags = KFD_IOC_ALLOC_MEM_FLAGS_WRITABLE | KFD_IOC_ALLOC_MEM_FLAGS_PUBLIC;
    assert_eq!(fmm_allocate_device_finish(&mut app, grant.address, 0x2000, &answer, 0, flags, PAGE), Ok(0x1234));
    let object = vm_find_object_by_address(&app, grant.address).unwrap();
    assert_eq!(object.handle, 0xBEEF);
    assert_eq!(object.size, 0x2000);
    assert_eq!(object.start, grant.address);
    assert_eq!(object.mflags.Value, HSA_MEM_FLAG_COARSE_GRAIN | HSA_MEM_FLAG_HOST_ACCESS);
    assert_eq!(fmm_release_request(&app, grant.address).map(|a| a.handle), Ok(0xBEEF));
    assert_eq!(areas(&app), vec![(grant.address, 0x3000, 0x2000)]);
}

#[test]
fn kernel_failure_rolls_the_reservation_back() {
    let mut app = reserved(0x10000, 0xFFFFF, PAGE, 1);
    let grant = aperture_allocate_area_aligned(&mut app, None, 0x2000, 0x2000, PAGE, 9, None).unwrap();
    let answer = kernel_answer(0, 0);
    let failed = fmm_allocate_device_finish(&mut app, grant.address, 0x2000, &answer, -1, 0, PAGE);
    assert_eq!(
        failed,
        Err(DeviceAllocFailure {
            error: AllocError::KernelAllocFailed,
            unmap: vm_area { start: grant.address, size: 0x3000 },
            free_handle: None,
        })
    );
    assert_eq!(app.vm_ranges.len(), 0);
    assert_eq!(app.tree.len(), 0);
    assert_eq!(fmm_allocate_memory_object(&mut app, 0x20000, 0x1000, &answer, 5, 0), Err(AllocError::KernelAllocFailed));
    assert_eq!(app.tree.len(), 0);
}

#[test]
fn an_object_that_cannot_be_recorded_is_handed_back_to_the_kernel() {
    let mut app = reserved(0x10000, 0xFFFFF, PAGE, 0);
    assert_eq!(aperture_allocate_object(&mut app, 0x20000, 5, 0x3000, HsaMemFlags::empty()), Ok(()));
    let answer = kernel_answer(42, 0);
    let failed = fmm_allocate_device_finish(&mut app, 0x21000, 0x1000, &answer, 0, 0, PAGE);
    assert_eq!(
        failed,
        Err(DeviceAllocFailure {
            error: AllocError::Overlap,
            unmap: vm_area { start: 0x21000, size: 0 },
            free_handle: Some(42),
        })
    );
    assert_eq!(app.tree.len(), 1);
}

#[test]
fn free_waits_for_the_kernel() {
    let mut app = reserved(0x10000, 0xFFFFF, PAGE, 1);
    let grant = aperture_allocate_area_aligned(&mut app, None, 0x2000, 0x2000, PAGE, 9, None).unwrap();
    let answer = kernel_answer(9, 0);
    assert_eq!(fmm_allocate_device_finish(&mut app, grant.address, 0x2000, &answer, 0, 0, PAGE), Ok(0));
    assert_eq!(fmm_release(&mut app, grant.address, -1, PAGE), Err(AllocError::KernelFreeFailed));
    assert_eq!(app.tree.len(), 1);
    assert_eq!(app.vm_ranges.len(), 1);
    assert_eq!(fmm_release(&mut app, grant.address, 0, PAGE), Ok(vm_area { start: grant.address, size: 0x3000 }));
    assert_eq!(app.tree.len(), 0);
    assert_eq!(app.vm_ranges.len(), 0);
    assert_eq!(fmm_release(&mut app, grant.address, 0, PAGE), Err(AllocError::NotFound));
}

#[test]
fn no_sequence_of_operations_makes_areas_overlap() {
    let mut app = reserved(0x10_0000, 0xFFF_FFFF, PAGE, 1);
    let mut live: Vec<(u64, u64)> = Vec::new();
    let mut x: u64 = 99;
    for step in 0..600 {
        x = x.wrapping_mul(6364136223846793005).wrapping_add(1442695040888963407);
        let size = ((x >> 33) % 0x9000) + 1;
        let align = 1u64 << ((x >> 20) % 16);
        if step % 3 == 2 && !live.is_empty() {
            let (addr, size) = live.remove(((x >> 8) as usize) % live.len());
            let area = aperture_release_area(&mut app, addr, size, PAGE).unwrap();
            assert_eq!(area, vm_area { start: addr, size: size + PAGE });
        } else if step % 7 == 0 {
            let addr = 0x10_0000 + ((x >> 12) % 0xF00) * PAGE;
            if place_area(&mut app, addr, size, PAGE).is_ok() {
                live.push((addr, size));
            }
        } else if let Ok(grant) = aperture_allocate_area_aligned(&mut app, None, size, align, PAGE, 9, None) {
            assert_eq!(grant.length, size + PAGE);
            if align > PAGE {
                assert_eq!(grant.address % align, 0);
            }
            live.push((grant.address, size));
        }
        assert_disjoint(&app);
        assert_eq!(app.vm_ranges.len(), live.len());
    }
    assert!(live.len() > 50);
}

#[test]
fn address_arithmetic() {
    assert_eq!(VOID_PTR_ADD(0x1000, 0x20), 0x1020);
    assert_eq!(VOID_PTR_SUB(0x1000, 0x20), 0xFE0);
    assert_eq!(VOID_PTRS_SUB(0x1000, 0x20), 0xFE0);
    assert_eq!(VOID_PTR_ADD(u64::MAX - 1, 1), u64::MAX);
    assert!(IS_CANONICAL_ADDR(0x7FFF_FFFF_FFFF));
    assert!(!IS_CANONICAL_ADDR(0x8000_0000_0000));
    assert!(IS_CANONICAL_ADDR(0));
    assert_eq!(rbtree_key(1, 2).addr, 1);
}
