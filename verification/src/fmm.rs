//! The memory manager: reserving aligned, guarded areas in an aperture,
//! releasing them, and recording the objects allocated in them.

use vstd::prelude::*;
use crate::fmm_globals::{
    aperture_valid, manageable_aperture_ops_t, manageable_aperture_t, vm_area_t, vm_object_t,
};
use crate::hsakmttypes::{
    align_up_checked, align_up_spec, lemma_align_up, lemma_align_up_least, HsaMemFlags,
    GPU_HUGE_PAGE_SIZE, HSA_MEM_FLAG_COARSE_GRAIN, HSA_MEM_FLAG_EXTENDED_COHERENT,
    HSA_MEM_FLAG_HOST_ACCESS, HSA_MEM_FLAG_READ_ONLY,
};
use crate::kfd_ioctl::{
    kfd_ioctl_alloc_memory_of_gpu_args, kfd_ioctl_free_memory_of_gpu_args,
    kfd_ioctl_set_memory_policy_args, KFD_IOC_ALLOC_MEM_FLAGS_COHERENT,
    KFD_IOC_ALLOC_MEM_FLAGS_EXT_COHERENT, KFD_IOC_ALLOC_MEM_FLAGS_NO_SUBSTITUTE,
    KFD_IOC_ALLOC_MEM_FLAGS_PUBLIC, KFD_IOC_ALLOC_MEM_FLAGS_USERPTR, KFD_IOC_ALLOC_MEM_FLAGS_VRAM,
    KFD_IOC_ALLOC_MEM_FLAGS_WRITABLE,
};
use crate::rbtree::{
    has_containing, has_overlap, has_start, lemma_ordered_disjoint, lemma_rank_parts, rank,
    rbtree_node_s, rbtree_t, IndexError,
};
use crate::rbtree_amd::{rbtree_key, rbtree_key_s};

verus! {

/// Why an allocation or a release did not happen.
#[derive(Debug, Copy, Clone, PartialEq, Eq, Structural)]
pub enum AllocError {
    /// The aperture cannot be mapped by the CPU, and the operation needs that.
    NotCpuAccessible,
    /// The aperture has no gap wide enough.
    OutOfSpace,
    /// The range asked for shares an address with a live one.
    Overlap,
    /// The range does not lie in the aperture's window.
    ReservationOutOfRange,
    /// The kernel driver refused to allocate.
    KernelAllocFailed,
    /// The kernel driver refused to free.
    KernelFreeFailed,
    /// Nothing is recorded at the address.
    NotFound,
}

/// Whether an address lies below the top of the canonical address space,
/// which is 2^47.
#[allow(non_snake_case)]
pub fn IS_CANONICAL_ADDR(gpuvm_limit: u64) -> (r: bool)
    ensures
        r == (gpuvm_limit < 0x8000_0000_0000),
{
    gpuvm_limit < 0x8000_0000_0000
}

/// The address `n` bytes above `ptr`.
#[allow(non_snake_case)]
pub fn VOID_PTR_ADD(ptr: u64, n: u64) -> (r: u64)
    requires
        ptr + n <= u64::MAX,
    ensures
        r == ptr + n,
{
    ptr + n
}

/// The address `n` bytes below `ptr`.
#[allow(non_snake_case)]
pub fn VOID_PTR_SUB(ptr: u64, n: u64) -> (r: u64)
    requires
        n <= ptr,
    ensures
        r == ptr - n,
{
    ptr - n
}

/// The number of bytes from `ptr_2` up to `ptr_1`.
#[allow(non_snake_case)]
pub fn VOID_PTRS_SUB(ptr_1: u64, ptr_2: u64) -> (r: u64)
    requires
        ptr_2 <= ptr_1,
    ensures
        r == ptr_1 - ptr_2,
{
    ptr_1 - ptr_2
}

/// Whether `app_base` and `app_limit` bound a window.
pub fn aperture_is_valid(app_base: u64, app_limit: u64) -> (r: bool)
    ensures
        r == aperture_valid(app_base, app_limit),
{
    app_base != 0 && app_limit != 0 && app_base < app_limit
}

/// The length of an area for `size` bytes: the bytes and the guard pages
/// behind them.
pub open spec fn guarded_size(size: u64, guard_pages: u32, page_size: u64) -> int {
    size + guard_pages * page_size
}

/// The length of an area for `size` bytes in aperture `app`, where it is a
/// `u64`. At least `guard_pages` pages behind every object are left unused,
/// so that an access out of bounds faults.
pub fn vm_align_area_size(app: &manageable_aperture_t, size: u64, page_size: u64) -> (r: Option<u64>)
    ensures
        r is Some <==> guarded_size(size, app.guard_pages, page_size) <= u64::MAX,
        r is Some ==> r->Some_0 == guarded_size(size, app.guard_pages, page_size),
{
    let pages: u64 = app.guard_pages as u64;
    assert(pages * page_size >= 0) by (nonlinear_arith)
        requires
            pages >= 0,
            page_size >= 0,
    ;
    match pages.checked_mul(page_size) {
        Some(guard) => size.checked_add(guard),
        None => None,
    }
}

/// The alignment that an allocation starts from: the greater of the one
/// asked for and the aperture's own, and 1 where both are 0.
pub open spec fn effective_align(align: u64, app_align: u64) -> int {
    if align >= app_align && align >= 1 {
        align as int
    } else if app_align >= 1 {
        app_align as int
    } else {
        1
    }
}

/// The alignment after it has been doubled for as long as it is below `cap`
/// and `size` is at least twice as large.
pub open spec fn grown_align(align: int, size: int, cap: int) -> int
    decreases
        (if 0 < align < cap {
            cap - align
        } else {
            0
        }),
{
    if 0 < align < cap && size >= 2 * align {
        grown_align(2 * align, size, cap)
    } else {
        align
    }
}

/// A grown alignment is a multiple of the alignment it grew from, and not
/// below it.
pub proof fn lemma_grown_align_multiple(align: int, size: int, cap: int)
    requires
        align > 0,
    ensures
        grown_align(align, size, cap) % align == 0,
        grown_align(align, size, cap) >= align,
        grown_align(align, size, cap) < 2 * cap || grown_align(align, size, cap) == align,
    decreases
        (if 0 < align < cap {
            cap - align
        } else {
            0
        }),
{
    if 0 < align < cap && size >= 2 * align {
        lemma_grown_align_multiple(2 * align, size, cap);
        let g = grown_align(2 * align, size, cap);
        lemma_multiple_of_double(g, align);
    } else {
        assert(align % align == 0) by (nonlinear_arith)
            requires
                align > 0,
        ;
    }
}

/// A multiple of twice a number is a multiple of the number.
pub proof fn lemma_multiple_of_double(g: int, align: int)
    requires
        align > 0,
        g % (2 * align) == 0,
    ensures
        g % align == 0,
{
    vstd::arithmetic::div_mod::lemma_fundamental_div_mod(g, 2 * align);
    let k = g / (2 * align);
    assert(g == (2 * align) * k);
    assert((2 * align) * k == (2 * k) * align) by (nonlinear_arith);
    vstd::arithmetic::div_mod::lemma_mod_multiples_basic(2 * k, align);
}

/// Doubles `align` for as long as it is below `cap` and `size` is at least
/// twice as large.
pub fn grow_alignment(align: u64, size: u64, cap: u64) -> (r: u64)
    requires
        align > 0,
        cap <= 0x4000_0000_0000_0000,
    ensures
        r == grown_align(align as int, size as int, cap as int),
{
    let mut a: u64 = align;
    while a < cap && size / 2 >= a
        invariant
            a > 0,
            cap <= 0x4000_0000_0000_0000,
            grown_align(a as int, size as int, cap as int) == grown_align(
                align as int,
                size as int,
                cap as int,
            ),
        decreases
            (if a < cap {
                cap - a
            } else {
                0
            }),
    {
        a = a * 2;
    }
    a
}

/// The number of addresses that an area of `size` bytes occupies: an area
/// without bytes still occupies its start.
pub open spec fn span_of(size: int) -> int {
    if size == 0 {
        1
    } else {
        size
    }
}

/// Whether an area of `size` bytes can start at `a`: the block that starts
/// `offset` bytes below `a` starts at a multiple of `align`, at `base` or
/// above; the area ends at `limit` or below; and no address from the start of
/// the block to the end of the area is in use.
pub open spec fn gap_at(
    areas: Seq<rbtree_node_s<u64>>,
    base: int,
    limit: int,
    align: int,
    offset: int,
    size: int,
    a: int,
) -> bool {
    &&& base <= a - offset
    &&& (a - offset) % align == 0
    &&& a + span_of(size) - 1 <= limit
    &&& forall|i: int|
        0 <= i < areas.len() ==> ((#[trigger] areas[i]).key.end() <= a - offset || a + span_of(size)
            <= areas[i].key.start())
}

/// The lowest address at which an area of `size` bytes can start, if there is
/// one.
pub fn find_gap(
    tree: &rbtree_t<u64>,
    base: u64,
    limit: u64,
    align: u64,
    offset: u64,
    size: u64,
) -> (r: Option<u64>)
    requires
        tree.wf(),
        align >= 1,
    ensures
        r is Some ==> gap_at(
            tree@,
            base as int,
            limit as int,
            align as int,
            offset as int,
            size as int,
            r->Some_0 as int,
        ),
        r is Some ==> forall|b: int| #[trigger]
            gap_at(tree@, base as int, limit as int, align as int, offset as int, size as int, b)
                ==> r->Some_0 <= b,
        r is None ==> forall|b: int|
            !#[trigger] gap_at(
                tree@,
                base as int,
                limit as int,
                align as int,
                offset as int,
                size as int,
                b,
            ),
{
    let span: u64 = if size == 0 {
        1
    } else {
        size
    };
    let ghost areas = tree@;
    proof {
        lemma_align_up(base as int, align as int);
    }
    let mut block: u64 = match align_up_checked(base, align) {
        Some(b) => b,
        None => {
            assert forall|b: int| !#[trigger] gap_at(
                areas,
                base as int,
                limit as int,
                align as int,
                offset as int,
                size as int,
                b,
            ) by {
                if gap_at(areas, base as int, limit as int, align as int, offset as int, size as int, b) {
                    lemma_align_up_least(base as int, align as int, b - offset);
                }
            }
            return None;
        },
    };
    assert forall|b: int| #[trigger]
        gap_at(
            areas,
            base as int,
            limit as int,
            align as int,
            offset as int,
            size as int,
            b,
        ) implies b - offset >= block by {
        lemma_align_up_least(base as int, align as int, b - offset);
    }
    loop
        invariant_except_break
            tree.wf(),
            areas == tree@,
            align >= 1,
            span == span_of(size as int),
            block % align == 0,
            block >= base,
            forall|b: int| #[trigger]
                gap_at(areas, base as int, limit as int, align as int, offset as int, size as int, b)
                    ==> b - offset >= block,
        ensures
            areas == tree@,
            span == span_of(size as int),
            block % align == 0,
            block >= base,
            forall|b: int| #[trigger]
                gap_at(areas, base as int, limit as int, align as int, offset as int, size as int, b)
                    ==> b - offset >= block,
            forall|j: int|
                0 <= j < areas.len() ==> (#[trigger] areas[j]).key.end() <= block || block + offset
                    + span <= areas[j].key.start(),
        decreases u64::MAX - block,
    {
        let k: rbtree_key_s = match tree.first_ending_after(block) {
            Some(node) => node.key,
            None => {
                break ;
            },
        };
        let ghost p = choose|p: int|
            0 <= p < areas.len() && areas[p].key == k && forall|i: int|
                0 <= i < p ==> (#[trigger] areas[i]).key.end() <= block;
        let fits_before: bool = match block.checked_add(offset) {
            Some(s) => match s.checked_add(span) {
                Some(e) => e <= k.addr,
                None => false,
            },
            None => false,
        };
        if fits_before {
            proof {
                assert forall|j: int| 0 <= j < areas.len() implies (#[trigger] areas[j]).key.end()
                    <= block || block + offset + span <= areas[j].key.start() by {
                    if j > p {
                        assert(areas[p].key.end() <= areas[j].key.start());
                    }
                }
            }
            break ;
        }
        let next: Option<u64> = match k.addr.checked_add(k.span()) {
            Some(e) => align_up_checked(e, align),
            None => None,
        };
        proof {
            lemma_align_up(k.end(), align as int);
            assert forall|b: int| #[trigger]
                gap_at(
                    areas,
                    base as int,
                    limit as int,
                    align as int,
                    offset as int,
                    size as int,
                    b,
                ) implies b - offset >= align_up_spec(k.end(), align as int) by {
                assert(areas[p].key.end() <= b - offset || b + span_of(size as int)
                    <= areas[p].key.start());
                lemma_align_up_least(k.end(), align as int, b - offset);
            }
        }
        match next {
            Some(v) => {
                block = v;
            },
            None => {
                assert forall|b: int| !#[trigger] gap_at(
                    areas,
                    base as int,
                    limit as int,
                    align as int,
                    offset as int,
                    size as int,
                    b,
                ) by {
                    if gap_at(
                        areas,
                        base as int,
                        limit as int,
                        align as int,
                        offset as int,
                        size as int,
                        b,
                    ) {
                        assert(b - offset >= align_up_spec(k.end(), align as int));
                    }
                }
                return None;
            },
        }
    }
    let start: Option<u64> = block.checked_add(offset);
    let found: Option<u64> = match start {
        Some(s) => if s <= limit && limit - s >= span - 1 {
            Some(s)
        } else {
            None
        },
        None => None,
    };
    proof {
        if found is None {
            assert forall|b: int| !#[trigger] gap_at(
                areas,
                base as int,
                limit as int,
                align as int,
                offset as int,
                size as int,
                b,
            ) by {
                if gap_at(areas, base as int, limit as int, align as int, offset as int, size as int, b) {
                    assert(b - offset >= block);
                }
            }
        }
    }
    found
}

/// Whether the area of `length` bytes from `addr` lies in the window from
/// `base` to `limit`.
pub open spec fn window_within(base: u64, limit: u64, addr: u64, length: int) -> bool {
    base <= addr && addr + span_of(length) - 1 <= limit
}

/// Records the area of `length` bytes from `addr`, of which the first `size`
/// are for use, unless it shares an address with a recorded area.
pub fn record_area(app: &mut manageable_aperture_t, addr: u64, length: u64, size: u64) -> (r:
    Result<(), IndexError>)
    requires
        old(app).wf(),
        size <= length,
        window_within(old(app).base, old(app).limit, addr, length as int),
    ensures
        final(app).wf(),
        final(app).same_but_areas(old(app)),
        r is Ok <==> !has_overlap(old(app).vm_ranges@, rbtree_key_s { addr, size: length }),
        r is Ok ==> final(app).vm_ranges@ == old(app).vm_ranges@.insert(
            rank(old(app).vm_ranges@, addr as int),
            rbtree_node_s { key: rbtree_key_s { addr, size: length }, data: size },
        ),
        r is Err
            ==> r == Err::<(), IndexError>(IndexError::Overlap)
                && final(app).vm_ranges@ == old(app).vm_ranges@,
{
    let ghost before = app.vm_ranges@;
    let r = app.vm_ranges.insert(rbtree_key(addr, length), size);
    proof {
        if r is Ok {
            let p = rank(before, addr as int);
            lemma_rank_parts(before, addr as int);
            let after = app.vm_ranges@;
            assert forall|i: int| 0 <= i < after.len() implies app.base <= (#[trigger] after[i]).key.addr
                && after[i].key.end() - 1 <= app.limit && after[i].data <= after[i].key.size by {
                if i < p {
                    assert(after[i] == before[i]);
                } else if i > p {
                    assert(after[i] == before[i - 1]);
                }
            }
        }
    }
    r
}

/// The alignment that the reserved-range strategy gives an allocation: the
/// effective one, grown up to the size of a huge page.
pub open spec fn reserved_align(app_align: u64, align: u64, size: u64) -> int {
    grown_align(effective_align(align, app_align), size as int, GPU_HUGE_PAGE_SIZE as int)
}

/// How far above a multiple of the alignment an area starts. Where no more
/// than a page's alignment was asked for, the end of the bytes is aligned in
/// place of their start.
pub open spec fn end_offset(align: u64, page_size: u64, grown: int, size: u64) -> int {
    if align <= page_size {
        grown - (size as int) % grown
    } else {
        0
    }
}

/// Whether the reserved-range strategy can start an area for `size` bytes at
/// `a`, where no address was asked for.
pub open spec fn reserved_gap(
    app: &manageable_aperture_t,
    size: u64,
    align: u64,
    page_size: u64,
    a: int,
) -> bool {
    gap_at(
        app.vm_ranges@,
        app.base as int,
        app.limit as int,
        reserved_align(app.align, align, size),
        end_offset(align, page_size, reserved_align(app.align, align, size), size),
        guarded_size(size, app.guard_pages, page_size),
        a,
    )
}

/// The entry that stands for the area of `size` bytes and its guard pages
/// from `addr`.
pub open spec fn area_node(app: &manageable_aperture_t, addr: u64, size: u64, page_size: u64)
    -> rbtree_node_s<u64> {
    rbtree_node_s {
        key: rbtree_key_s { addr, size: guarded_size(size, app.guard_pages, page_size) as u64 },
        data: size,
    }
}

/// Why an area of `size` bytes cannot be placed at `addr`, if it cannot.
pub open spec fn placement_error(app: &manageable_aperture_t, addr: u64, size: u64, page_size: u64)
    -> Option<AllocError> {
    if !app.is_valid() {
        Some(AllocError::OutOfSpace)
    } else if !window_within(app.base, app.limit, addr, guarded_size(size, app.guard_pages, page_size)) {
        Some(AllocError::ReservationOutOfRange)
    } else if has_overlap(app.vm_ranges@, area_node(app, addr, size, page_size).key) {
        Some(AllocError::Overlap)
    } else {
        None
    }
}

/// The aperture's areas with the area for `size` bytes from `addr` among
/// them.
pub open spec fn with_area(app: &manageable_aperture_t, addr: u64, size: u64, page_size: u64) -> Seq<
    rbtree_node_s<u64>,
> {
    app.vm_ranges@.insert(rank(app.vm_ranges@, addr as int), area_node(app, addr, size, page_size))
}

/// Why an area of `size` bytes cannot be placed at `addr`, if it cannot.
pub fn check_placement(app: &manageable_aperture_t, addr: u64, size: u64, page_size: u64) -> (r:
    Option<AllocError>)
    requires
        app.wf(),
    ensures
        r == placement_error(app, addr, size, page_size),
{
    if !aperture_is_valid(app.base, app.limit) {
        return Some(AllocError::OutOfSpace);
    }
    let length: u64 = match vm_align_area_size(app, size, page_size) {
        Some(l) => l,
        None => {
            return Some(AllocError::ReservationOutOfRange);
        },
    };
    let span: u64 = if length == 0 {
        1
    } else {
        length
    };
    if addr < app.base || addr > app.limit || app.limit - addr < span - 1 {
        return Some(AllocError::ReservationOutOfRange);
    }
    if app.vm_ranges.overlaps_any(rbtree_key(addr, length)) {
        Some(AllocError::Overlap)
    } else {
        None
    }
}

/// Places an area for `size` bytes and the aperture's guard pages at `addr`.
pub fn place_area(app: &mut manageable_aperture_t, addr: u64, size: u64, page_size: u64) -> (r:
    Result<u64, AllocError>)
    requires
        old(app).wf(),
    ensures
        final(app).wf(),
        final(app).same_but_areas(old(app)),
        r is Ok <==> placement_error(old(app), addr, size, page_size) is None,
        r is Ok ==> r->Ok_0 == addr && final(app).vm_ranges@ == with_area(
            old(app),
            addr,
            size,
            page_size,
        ),
        r is Err
            ==> Some(r->Err_0) == placement_error(old(app), addr, size, page_size)
                && final(app).vm_ranges@ == old(app).vm_ranges@,
{
    match check_placement(app, addr, size, page_size) {
        Some(e) => Err(e),
        None => {
            let length: u64 = match vm_align_area_size(app, size, page_size) {
                Some(l) => l,
                None => 0,
            };
            let recorded = record_area(app, addr, length, size);
            Ok(addr)
        },
    }
}

/// What the reserved-range strategy answers a request with. With an address,
/// the area is placed there or not at all. Without one, it is placed at the
/// lowest address that the alignment admits and at which it fits.
pub open spec fn reserved_allocate_post(
    app: &manageable_aperture_t,
    address: Option<u64>,
    size: u64,
    align: u64,
    page_size: u64,
    r: Result<u64, AllocError>,
) -> bool {
    if address is Some {
        match placement_error(app, address->Some_0, size, page_size) {
            Some(e) => r == Err::<u64, AllocError>(e),
            None => r == Ok::<u64, AllocError>(address->Some_0),
        }
    } else {
        match r {
            Ok(a) => app.is_valid() && reserved_gap(app, size, align, page_size, a as int)
                && forall|b: int| #[trigger] reserved_gap(app, size, align, page_size, b)
                    ==> a <= b,
            Err(e) => e == AllocError::OutOfSpace && (!app.is_valid() || forall|b: int|
                !#[trigger] reserved_gap(app, size, align, page_size, b)),
        }
    }
}

/// Reserves an area for `size` bytes in an aperture that carves its areas out
/// of one reserved block.
pub fn reserved_aperture_allocate_aligned(
    app: &mut manageable_aperture_t,
    address: Option<u64>,
    size: u64,
    align: u64,
    page_size: u64,
) -> (r: Result<u64, AllocError>)
    requires
        old(app).wf(),
    ensures
        final(app).wf(),
        final(app).same_but_areas(old(app)),
        reserved_allocate_post(old(app), address, size, align, page_size, r),
        r is Err ==> final(app).vm_ranges@ == old(app).vm_ranges@,
        r is Ok ==> final(app).vm_ranges@ == with_area(old(app), r->Ok_0, size, page_size),
        r is Ok ==> guarded_size(size, old(app).guard_pages, page_size) <= u64::MAX,
        r is Ok ==> !has_overlap(
            old(app).vm_ranges@,
            area_node(old(app), r->Ok_0, size, page_size).key,
        ),
{
    match address {
        Some(addr) => place_area(app, addr, size, page_size),
        None => {
            if !aperture_is_valid(app.base, app.limit) {
                return Err(AllocError::OutOfSpace);
            }
            let eff: u64 = if align >= app.align && align >= 1 {
                align
            } else if app.align >= 1 {
                app.align
            } else {
                1
            };
            let grown: u64 = grow_alignment(eff, size, GPU_HUGE_PAGE_SIZE);
            proof {
                lemma_grown_align_multiple(eff as int, size as int, GPU_HUGE_PAGE_SIZE as int);
            }
            let offset: u64 = if align <= page_size {
                grown - size % grown
            } else {
                0
            };
            proof {
                vstd::arithmetic::div_mod::lemma_mod_pos_bound(size as int, grown as int);
            }
            let length: u64 = match vm_align_area_size(app, size, page_size) {
                Some(l) => l,
                None => {
                    assert forall|b: int| !#[trigger] reserved_gap(app, size, align, page_size, b) by {
                        if reserved_gap(app, size, align, page_size, b) {
                            assert(b - offset >= app.base);
                        }
                    }
                    return Err(AllocError::OutOfSpace);
                },
            };
            match find_gap(&app.vm_ranges, app.base, app.limit, grown, offset, length) {
                Some(a) => {
                    let ghost before = app.vm_ranges@;
                    assert(!has_overlap(before, rbtree_key_s { addr: a, size: length })) by {
                        assert forall|i: int| 0 <= i < before.len() implies !(#[trigger] before[i]).key.overlaps(
                            rbtree_key_s { addr: a, size: length },
                        ) by {
                            assert(before[i].key.end() <= a - offset || a + span_of(length as int)
                                <= before[i].key.start());
                        }
                    }
                    assert(reserved_gap(app, size, align, page_size, a as int));
                    let recorded = record_area(app, a, length, size);
                    Ok(a)
                },
                None => Err(AllocError::OutOfSpace),
            }
        },
    }
}

/// Whether the area for `size` bytes that starts at `address` is recorded.
pub open spec fn has_area(app: &manageable_aperture_t, address: u64, size: u64, page_size: u64)
    -> bool {
    exists|i: int|
        0 <= i < app.vm_ranges@.len() && (#[trigger] app.vm_ranges@[i]).key.addr == address
            && app.vm_ranges@[i].key.size == guarded_size(size, app.guard_pages, page_size)
}

/// Why the area for `size` bytes at `address` cannot be released, if it
/// cannot.
pub open spec fn release_error(app: &manageable_aperture_t, address: u64, size: u64, page_size: u64)
    -> Option<AllocError> {
    if app.ops == manageable_aperture_ops_t::MmapBacked && !app.is_cpu_accessible {
        Some(AllocError::NotCpuAccessible)
    } else if !has_area(app, address, size, page_size) {
        Some(AllocError::NotFound)
    } else {
        None
    }
}

/// The aperture's areas without the one that starts at `address`.
pub open spec fn without_area(app: &manageable_aperture_t, address: u64) -> Seq<rbtree_node_s<u64>> {
    app.vm_ranges@.remove(rank(app.vm_ranges@, address as int))
}

/// Takes the record of the area for `size` bytes at `address` away, and says
/// which addresses the area held, its guard pages included.
pub fn reserved_aperture_release(
    app: &mut manageable_aperture_t,
    address: u64,
    size: u64,
    page_size: u64,
) -> (r: Result<vm_area_t, AllocError>)
    requires
        old(app).wf(),
    ensures
        final(app).wf(),
        final(app).same_but_areas(old(app)),
        r is Ok <==> has_area(old(app), address, size, page_size),
        r is Ok ==> r->Ok_0.start == address && r->Ok_0.size == guarded_size(
            size,
            old(app).guard_pages,
            page_size,
        ) && final(app).vm_ranges@ == without_area(old(app), address),
        r is Err
            ==> r->Err_0 == AllocError::NotFound && final(app).vm_ranges@ == old(app).vm_ranges@,
{
    let ghost before = app.vm_ranges@;
    let ghost p = rank(before, address as int);
    proof {
        app.vm_ranges.lemma_start_only_at_rank(address);
        lemma_rank_parts(before, address as int);
        assert forall|i: int|
            0 <= i < before.len() && (#[trigger] before[i]).key.addr == address implies i == p by {
            assert(has_start(before, address));
            if i != p {
                lemma_ordered_disjoint(before, i, p);
            }
        }
    }
    let length: u64 = match vm_align_area_size(app, size, page_size) {
        Some(l) => l,
        None => {
            return Err(AllocError::NotFound);
        },
    };
    let recorded: bool = match app.vm_ranges.find_exact(address) {
        Some(node) => node.key.size == length,
        None => false,
    };
    if !recorded {
        return Err(AllocError::NotFound);
    }
    let removed = app.vm_ranges.remove(address);
    proof {
        let after = app.vm_ranges@;
        assert forall|i: int| 0 <= i < after.len() implies app.base <= (#[trigger] after[i]).key.addr
            && after[i].key.end() - 1 <= app.limit && after[i].data <= after[i].key.size by {
            if i < p {
                assert(after[i] == before[i]);
            } else {
                assert(after[i] == before[i + 1]);
            }
        }
    }
    Ok(vm_area_t { start: address, size: length })
}

/// Releases an area of an aperture whose areas are mappings of their own. The
/// addresses that it hands back are the caller's to unmap.
pub fn mmap_aperture_release(aper: &mut manageable_aperture_t, addr: u64, size: u64, page_size: u64)
    -> (r: Result<vm_area_t, AllocError>)
    requires
        old(aper).wf(),
    ensures
        final(aper).wf(),
        final(aper).same_but_areas(old(aper)),
        r is Ok <==> old(aper).is_cpu_accessible && has_area(old(aper), addr, size, page_size),
        r is Ok ==> r->Ok_0.start == addr && r->Ok_0.size == guarded_size(
            size,
            old(aper).guard_pages,
            page_size,
        ) && final(aper).vm_ranges@ == without_area(old(aper), addr),
        r is Err ==> final(aper).vm_ranges@ == old(aper).vm_ranges@,
        r is Err ==> r->Err_0 == (if !old(aper).is_cpu_accessible {
            AllocError::NotCpuAccessible
        } else {
            AllocError::NotFound
        }),
{
    if !aper.is_cpu_accessible {
        return Err(AllocError::NotCpuAccessible);
    }
    reserved_aperture_release(aper, addr, size, page_size)
}

/// Releases the area for `size` bytes at `address`, in the way of the
/// aperture's strategy.
pub fn aperture_release_area(
    app: &mut manageable_aperture_t,
    address: u64,
    size: u64,
    page_size: u64,
) -> (r: Result<vm_area_t, AllocError>)
    requires
        old(app).wf(),
    ensures
        final(app).wf(),
        final(app).same_but_areas(old(app)),
        r is Ok <==> release_error(old(app), address, size, page_size) is None,
        r is Ok ==> r->Ok_0.start == address && r->Ok_0.size == guarded_size(
            size,
            old(app).guard_pages,
            page_size,
        ) && final(app).vm_ranges@ == without_area(old(app), address),
        r is Err
            ==> Some(r->Err_0) == release_error(old(app), address, size, page_size)
                && final(app).vm_ranges@ == old(app).vm_ranges@,
{
    match app.ops {
        manageable_aperture_ops_t::ReservedRange => reserved_aperture_release(
            app,
            address,
            size,
            page_size,
        ),
        manageable_aperture_ops_t::MmapBacked => mmap_aperture_release(app, address, size, page_size),
    }
}

/// The greatest alignment that an allocation is ever grown to.
pub const MAX_ALIGN_CAP: u64 = 0x4000_0000_0000_0000;

/// The size of a page doubled `order` times, and no more than
/// `MAX_ALIGN_CAP`.
pub open spec fn align_cap(page_size: u64, order: nat) -> int
    decreases order,
{
    if order == 0 {
        if page_size <= MAX_ALIGN_CAP {
            page_size as int
        } else {
            MAX_ALIGN_CAP as int
        }
    } else if 2 * align_cap(page_size, (order - 1) as nat) <= MAX_ALIGN_CAP {
        2 * align_cap(page_size, (order - 1) as nat)
    } else {
        MAX_ALIGN_CAP as int
    }
}

/// The alignment up to which the mapping strategy grows the alignment of an
/// allocation.
pub fn mmap_align_cap(page_size: u64, alignment_order: u32) -> (cap: u64)
    ensures
        cap == align_cap(page_size, alignment_order as nat),
        cap <= MAX_ALIGN_CAP,
{
    let mut cap: u64 = if page_size <= MAX_ALIGN_CAP {
        page_size
    } else {
        MAX_ALIGN_CAP
    };
    let mut k: u32 = 0;
    while k < alignment_order
        invariant
            k <= alignment_order,
            cap == align_cap(page_size, k as nat),
            cap <= MAX_ALIGN_CAP,
        decreases alignment_order - k,
    {
        cap = if cap <= MAX_ALIGN_CAP / 2 {
            cap * 2
        } else {
            MAX_ALIGN_CAP
        };
        k = k + 1;
    }
    cap
}

/// The alignment that the mapping strategy gives an allocation.
pub open spec fn mmap_align(app_align: u64, align: u64, size: u64, page_size: u64, order: u32)
    -> int {
    grown_align(effective_align(align, app_align), size as int, align_cap(page_size, order as nat))
}

/// The number of bytes in the guard pages behind an area.
pub open spec fn guard_bytes(guard_pages: u32, page_size: u64) -> int {
    guard_pages * page_size
}

/// The length of the mapping from which an area is cut: the bytes, guard
/// space on both sides, and what the alignment may need beyond a page's.
pub open spec fn mmap_padded_size(size: u64, align: int, guard_size: int, page_size: u64) -> int {
    size + 2 * guard_size + (if align > page_size {
        align - page_size
    } else {
        0
    })
}

/// What the system is to map before an area can be recorded.
#[derive(Debug, Copy, Clone, PartialEq, Eq, Structural)]
pub enum MapRequest {
    /// `length` bytes at `address` and nowhere else, replacing nothing.
    Fixed { address: u64, length: u64 },
    /// `length` bytes wherever the system finds room, from which an area
    /// aligned to `align` with `guard_size` bytes of guard space is cut.
    Anywhere { length: u64, align: u64, guard_size: u64 },
}

/// An area that was reserved: it starts at `address` and is `length` bytes
/// long, guard space included. `head` and `tail` are what was mapped in front
/// of it and behind it, for the caller to unmap.
#[derive(Debug, Copy, Clone, PartialEq, Eq, Structural)]
pub struct AreaGrant {
    pub address: u64,
    pub length: u64,
    pub head: vm_area_t,
    pub tail: vm_area_t,
}

/// What the mapping strategy asks of the system for an allocation, or why the
/// allocation fails before that.
pub open spec fn mmap_request_spec(
    aper: &manageable_aperture_t,
    address: Option<u64>,
    size: u64,
    align: u64,
    page_size: u64,
    alignment_order: u32,
) -> Result<MapRequest, AllocError> {
    if !aper.is_cpu_accessible {
        Err(AllocError::NotCpuAccessible)
    } else if address is Some {
        match placement_error(aper, address->Some_0, size, page_size) {
            Some(e) => Err(e),
            None => Ok(
                MapRequest::Fixed {
                    address: address->Some_0,
                    length: guarded_size(size, aper.guard_pages, page_size) as u64,
                },
            ),
        }
    } else if !aper.is_valid() || mmap_padded_size(
        size,
        mmap_align(aper.align, align, size, page_size, alignment_order),
        guard_bytes(aper.guard_pages, page_size),
        page_size,
    ) > u64::MAX {
        Err(AllocError::OutOfSpace)
    } else {
        Ok(
            MapRequest::Anywhere {
                length: mmap_padded_size(
                    size,
                    mmap_align(aper.align, align, size, page_size, alignment_order),
                    guard_bytes(aper.guard_pages, page_size),
                    page_size,
                ) as u64,
                align: mmap_align(aper.align, align, size, page_size, alignment_order) as u64,
                guard_size: guard_bytes(aper.guard_pages, page_size) as u64,
            },
        )
    }
}

/// Says what the system is to map for an allocation in an aperture whose
/// areas are mappings of their own.
pub fn mmap_aperture_request(
    aper: &manageable_aperture_t,
    address: Option<u64>,
    size: u64,
    align: u64,
    page_size: u64,
    alignment_order: u32,
) -> (r: Result<MapRequest, AllocError>)
    requires
        aper.wf(),
    ensures
        r == mmap_request_spec(aper, address, size, align, page_size, alignment_order),
{
    if !aper.is_cpu_accessible {
        return Err(AllocError::NotCpuAccessible);
    }
    match address {
        Some(addr) => match check_placement(aper, addr, size, page_size) {
            Some(e) => Err(e),
            None => {
                let length: u64 = match vm_align_area_size(aper, size, page_size) {
                    Some(l) => l,
                    None => 0,
                };
                Ok(MapRequest::Fixed { address: addr, length })
            },
        },
        None => {
            if !aperture_is_valid(aper.base, aper.limit) {
                return Err(AllocError::OutOfSpace);
            }
            let eff: u64 = if align >= aper.align && align >= 1 {
                align
            } else if aper.align >= 1 {
                aper.align
            } else {
                1
            };
            let cap: u64 = mmap_align_cap(page_size, alignment_order);
            let grown: u64 = grow_alignment(eff, size, cap);
            let pages: u64 = aper.guard_pages as u64;
            assert(pages * page_size >= 0) by (nonlinear_arith)
                requires
                    pages >= 0,
                    page_size >= 0,
            ;
            let guard: u64 = match pages.checked_mul(page_size) {
                Some(g) => g,
                None => {
                    return Err(AllocError::OutOfSpace);
                },
            };
            let extra: u64 = if grown > page_size {
                grown - page_size
            } else {
                0
            };
            let padded: Option<u64> = match guard.checked_add(guard) {
                Some(g2) => match size.checked_add(g2) {
                    Some(sg) => sg.checked_add(extra),
                    None => None,
                },
                None => None,
            };
            match padded {
                Some(length) => Ok(MapRequest::Anywhere { length, align: grown, guard_size: guard }),
                None => Err(AllocError::OutOfSpace),
            }
        },
    }
}

/// The area that is cut from the mapping of `mmap_padded_size` bytes that the
/// system made at `addr`: it starts at the first multiple of `align` that
/// leaves `guard_size` bytes in front, and holds `size` bytes and
/// `guard_size` more. It has to lie in the mapping and in the window from
/// `aper_base` to `aper_limit`.
pub open spec fn mmap_trim_spec(
    addr: u64,
    size: u64,
    align: u64,
    guard_size: u64,
    aper_base: u64,
    aper_limit: u64,
    page_size: u64,
) -> Result<AreaGrant, AllocError> {
    let padded = mmap_padded_size(size, align as int, guard_size as int, page_size);
    let aligned = align_up_spec(addr + guard_size, align as int);
    let length = size + guard_size;
    if addr + padded <= u64::MAX
        && aligned + length <= addr + padded
        && aper_base <= aligned
        && aligned
        + span_of(length) - 1 <= aper_limit {
        Ok(
            AreaGrant {
                address: aligned as u64,
                length: length as u64,
                head: vm_area_t { start: addr, size: (aligned - addr) as u64 },
                tail: vm_area_t {
                    start: (aligned + length) as u64,
                    size: (addr + padded - aligned - length) as u64,
                },
            },
        )
    } else {
        Err(AllocError::ReservationOutOfRange)
    }
}

/// Cuts an aligned area with its guard space from the mapping that the system
/// made at `addr`, and says what is left over in front and behind.
///
/// Where it fails, the whole mapping is the caller's to unmap.
pub fn hsakmt_mmap_allocate_aligned(
    addr: u64,
    size: u64,
    align: u64,
    guard_size: u64,
    aper_base: u64,
    aper_limit: u64,
    page_size: u64,
) -> (r: Result<AreaGrant, AllocError>)
    requires
        align >= 1,
    ensures
        r == mmap_trim_spec(addr, size, align, guard_size, aper_base, aper_limit, page_size),
{
    proof {
        lemma_align_up(addr + guard_size, align as int);
    }
    let extra: u64 = if align > page_size {
        align - page_size
    } else {
        0
    };
    let padded: u64 = match guard_size.checked_add(guard_size) {
        Some(g2) => match size.checked_add(g2) {
            Some(sg) => match sg.checked_add(extra) {
                Some(p) => p,
                None => {
                    return Err(AllocError::ReservationOutOfRange);
                },
            },
            None => {
                return Err(AllocError::ReservationOutOfRange);
            },
        },
        None => {
            return Err(AllocError::ReservationOutOfRange);
        },
    };
    let mapping_end: u64 = match addr.checked_add(padded) {
        Some(e) => e,
        None => {
            return Err(AllocError::ReservationOutOfRange);
        },
    };
    let length: u64 = size + guard_size;
    let aligned: u64 = match align_up_checked(addr + guard_size, align) {
        Some(a) => a,
        None => {
            return Err(AllocError::ReservationOutOfRange);
        },
    };
    let span: u64 = if length == 0 {
        1
    } else {
        length
    };
    if aligned > mapping_end || mapping_end - aligned < length {
        return Err(AllocError::ReservationOutOfRange);
    }
    if aligned < aper_base || aligned > aper_limit || aper_limit - aligned < span - 1 {
        return Err(AllocError::ReservationOutOfRange);
    }
    Ok(
        AreaGrant {
            address: aligned,
            length,
            head: vm_area_t { start: addr, size: aligned - addr },
            tail: vm_area_t { start: aligned + length, size: mapping_end - aligned - length },
        },
    )
}

/// An area at `address` of `length` bytes with nothing mapped around it.
pub open spec fn bare_grant(address: u64, length: u64) -> AreaGrant {
    AreaGrant {
        address,
        length,
        head: vm_area_t { start: address, size: 0 },
        tail: vm_area_t { start: address, size: 0 },
    }
}

/// What an allocation by the mapping strategy comes to, once the system has
/// answered the request with `mapped`: the address of the mapping, or nothing
/// where it made none.
pub open spec fn mmap_allocate_spec(
    aper: &manageable_aperture_t,
    address: Option<u64>,
    size: u64,
    align: u64,
    page_size: u64,
    alignment_order: u32,
    mapped: Option<u64>,
) -> Result<AreaGrant, AllocError> {
    match mmap_request_spec(aper, address, size, align, page_size, alignment_order) {
        Err(e) => Err(e),
        Ok(request) => if mapped is None {
            Err(AllocError::OutOfSpace)
        } else {
            match request {
                MapRequest::Fixed { address, length } => if mapped->Some_0 == address {
                    Ok(bare_grant(address, length))
                } else {
                    Err(AllocError::ReservationOutOfRange)
                },
                MapRequest::Anywhere { length, align, guard_size } => match mmap_trim_spec(
                    mapped->Some_0,
                    size,
                    align,
                    guard_size,
                    aper.base,
                    aper.limit,
                    page_size,
                ) {
                    Err(e) => Err(e),
                    Ok(grant) => if has_overlap(
                        aper.vm_ranges@,
                        rbtree_key_s { addr: grant.address, size: grant.length },
                    ) {
                        Err(AllocError::Overlap)
                    } else {
                        Ok(grant)
                    },
                },
            }
        },
    }
}

/// Records the area of an allocation in an aperture whose areas are mappings
/// of their own, once the system has answered the request that
/// `mmap_aperture_request` made for it.
///
/// Where it fails, what the system mapped is the caller's to unmap.
pub fn mmap_aperture_allocate_aligned(
    aper: &mut manageable_aperture_t,
    address: Option<u64>,
    size: u64,
    align: u64,
    page_size: u64,
    alignment_order: u32,
    mapped: Option<u64>,
) -> (r: Result<AreaGrant, AllocError>)
    requires
        old(aper).wf(),
    ensures
        final(aper).wf(),
        final(aper).same_but_areas(old(aper)),
        r == mmap_allocate_spec(old(aper), address, size, align, page_size, alignment_order, mapped),
        r is Ok
            ==> final(aper).vm_ranges@ == with_area(old(aper), r->Ok_0.address, size, page_size),
        r is Ok ==> !has_overlap(
            old(aper).vm_ranges@,
            area_node(old(aper), r->Ok_0.address, size, page_size).key,
        ),
        r is Ok ==> r->Ok_0.length == guarded_size(size, old(aper).guard_pages, page_size),
        r is Err ==> final(aper).vm_ranges@ == old(aper).vm_ranges@,
{
    let request = match mmap_aperture_request(aper, address, size, align, page_size, alignment_order) {
        Ok(q) => q,
        Err(e) => {
            return Err(e);
        },
    };
    let at: u64 = match mapped {
        Some(m) => m,
        None => {
            return Err(AllocError::OutOfSpace);
        },
    };
    match request {
        MapRequest::Fixed { address, length } => {
            if at != address {
                return Err(AllocError::ReservationOutOfRange);
            }
            let placed = place_area(aper, address, size, page_size);
            Ok(
                AreaGrant {
                    address,
                    length,
                    head: vm_area_t { start: address, size: 0 },
                    tail: vm_area_t { start: address, size: 0 },
                },
            )
        },
        MapRequest::Anywhere { length, align: grown, guard_size } => {
            proof {
                lemma_grown_align_multiple(
                    effective_align(align, aper.align),
                    size as int,
                    align_cap(page_size, alignment_order as nat),
                );
            }
            let grant = match hsakmt_mmap_allocate_aligned(
                at,
                size,
                grown,
                guard_size,
                aper.base,
                aper.limit,
                page_size,
            ) {
                Ok(g) => g,
                Err(e) => {
                    return Err(e);
                },
            };
            match record_area(aper, grant.address, grant.length, size) {
                Ok(()) => Ok(grant),
                Err(_) => Err(AllocError::Overlap),
            }
        },
    }
}

/// The alignment that a request is made with: the one asked for, and the
/// aperture's own where none was.
pub open spec fn requested_align(app_align: u64, align: u64) -> u64 {
    if align > 0 {
        align
    } else {
        app_align
    }
}

/// The address in a grant, or the error.
pub open spec fn granted_address(r: Result<AreaGrant, AllocError>) -> Result<u64, AllocError> {
    match r {
        Ok(grant) => Ok(grant.address),
        Err(e) => Err(e),
    }
}

/// What the system is to map before `aperture_allocate_area_aligned` can
/// reserve an area for the same arguments: nothing for an aperture that
/// carves its areas out of a reserved block, and what `mmap_aperture_request`
/// says, for the alignment that the request is made with, for an aperture
/// whose areas are mappings of their own.
pub fn aperture_area_request(
    app: &manageable_aperture_t,
    address: Option<u64>,
    size: u64,
    align: u64,
    page_size: u64,
    alignment_order: u32,
) -> (r: Result<Option<MapRequest>, AllocError>)
    requires
        app.wf(),
    ensures
        app.ops == manageable_aperture_ops_t::ReservedRange ==> r == Ok::<
            Option<MapRequest>,
            AllocError,
        >(None),
        app.ops == manageable_aperture_ops_t::MmapBacked ==> r == (match mmap_request_spec(
            app,
            address,
            size,
            requested_align(app.align, align),
            page_size,
            alignment_order,
        ) {
            Ok(request) => Ok(Some(request)),
            Err(e) => Err(e),
        }),
{
    match app.ops {
        manageable_aperture_ops_t::ReservedRange => Ok(None),
        manageable_aperture_ops_t::MmapBacked => {
            let a: u64 = if align > 0 {
                align
            } else {
                app.align
            };
            match mmap_aperture_request(app, address, size, a, page_size, alignment_order) {
                Ok(request) => Ok(Some(request)),
                Err(e) => Err(e),
            }
        },
    }
}

/// Reserves an area for `size` bytes, aligned to `align` at least, in the way
/// of the aperture's strategy. The address in the grant is where the bytes
/// start; the guard pages lie behind them.
///
/// An aperture whose areas are mappings of their own needs the system's
/// answer to the request that `aperture_area_request` makes for the same
/// arguments: `mapped` is the address of the mapping, or nothing where the
/// system made none. The other strategy does not look at `mapped`.
pub fn aperture_allocate_area_aligned(
    app: &mut manageable_aperture_t,
    address: Option<u64>,
    size: u64,
    align: u64,
    page_size: u64,
    alignment_order: u32,
    mapped: Option<u64>,
) -> (r: Result<AreaGrant, AllocError>)
    requires
        old(app).wf(),
    ensures
        final(app).wf(),
        final(app).same_but_areas(old(app)),
        r is Err ==> final(app).vm_ranges@ == old(app).vm_ranges@,
        r is Ok ==> final(app).vm_ranges@ == with_area(old(app), r->Ok_0.address, size, page_size),
        r is Ok ==> r->Ok_0.length == guarded_size(size, old(app).guard_pages, page_size),
        r is Ok ==> !has_overlap(
            old(app).vm_ranges@,
            area_node(old(app), r->Ok_0.address, size, page_size).key,
        ),
        old(app).ops == manageable_aperture_ops_t::MmapBacked ==> r == mmap_allocate_spec(
            old(app),
            address,
            size,
            requested_align(old(app).align, align),
            page_size,
            alignment_order,
            mapped,
        ),
        old(app).ops == manageable_aperture_ops_t::ReservedRange ==> reserved_allocate_post(
            old(app),
            address,
            size,
            requested_align(old(app).align, align),
            page_size,
            granted_address(r),
        ),
        old(app).ops == manageable_aperture_ops_t::ReservedRange && r is Ok ==> r->Ok_0 == bare_grant(
            r->Ok_0.address,
            r->Ok_0.length,
        ),
{
    let a: u64 = if align > 0 {
        align
    } else {
        app.align
    };
    match app.ops {
        manageable_aperture_ops_t::MmapBacked => mmap_aperture_allocate_aligned(
            app,
            address,
            size,
            a,
            page_size,
            alignment_order,
            mapped,
        ),
        manageable_aperture_ops_t::ReservedRange => {
            let guard_pages: u32 = app.guard_pages;
            match reserved_aperture_allocate_aligned(app, address, size, a, page_size) {
                Ok(at) => {
                    let length: u64 = size + (guard_pages as u64) * page_size;
                    Ok(
                        AreaGrant {
                            address: at,
                            length,
                            head: vm_area_t { start: at, size: 0 },
                            tail: vm_area_t { start: at, size: 0 },
                        },
                    )
                },
                Err(e) => Err(e),
            }
        },
    }
}

/// Reserves an area for `size` bytes with the aperture's own alignment.
pub fn aperture_allocate_area(
    app: &mut manageable_aperture_t,
    address: Option<u64>,
    size: u64,
    page_size: u64,
    alignment_order: u32,
    mapped: Option<u64>,
) -> (r: Result<AreaGrant, AllocError>)
    requires
        old(app).wf(),
    ensures
        final(app).wf(),
        final(app).same_but_areas(old(app)),
        r is Err ==> final(app).vm_ranges@ == old(app).vm_ranges@,
        r is Ok ==> final(app).vm_ranges@ == with_area(old(app), r->Ok_0.address, size, page_size),
        r is Ok ==> r->Ok_0.length == guarded_size(size, old(app).guard_pages, page_size),
        r is Ok ==> !has_overlap(
            old(app).vm_ranges@,
            area_node(old(app), r->Ok_0.address, size, page_size).key,
        ),
        old(app).ops == manageable_aperture_ops_t::MmapBacked ==> r == mmap_allocate_spec(
            old(app),
            address,
            size,
            old(app).align,
            page_size,
            alignment_order,
            mapped,
        ),
        old(app).ops == manageable_aperture_ops_t::ReservedRange ==> reserved_allocate_post(
            old(app),
            address,
            size,
            old(app).align,
            page_size,
            granted_address(r),
        ),
        old(app).ops == manageable_aperture_ops_t::ReservedRange && r is Ok ==> r->Ok_0 == bare_grant(
            r->Ok_0.address,
            r->Ok_0.length,
        ),
{
    let align: u64 = app.align;
    aperture_allocate_area_aligned(app, address, size, align, page_size, alignment_order, mapped)
}

/// The flags of an object that was allocated with the kernel's flags
/// `ioc_flags`: read-only unless writable, coarse-grained unless coherent,
/// extended-coherent and host-accessible as the kernel's flags say, and
/// nothing else.
pub open spec fn translated_flags(ioc_flags: u32) -> u32 {
    (if ioc_flags & KFD_IOC_ALLOC_MEM_FLAGS_WRITABLE == 0 {
        HSA_MEM_FLAG_READ_ONLY
    } else {
        0u32
    }) | (if ioc_flags & KFD_IOC_ALLOC_MEM_FLAGS_COHERENT == 0 {
        HSA_MEM_FLAG_COARSE_GRAIN
    } else {
        0u32
    }) | (if ioc_flags & KFD_IOC_ALLOC_MEM_FLAGS_EXT_COHERENT != 0 {
        HSA_MEM_FLAG_EXTENDED_COHERENT
    } else {
        0u32
    }) | (if ioc_flags & KFD_IOC_ALLOC_MEM_FLAGS_PUBLIC != 0 {
        HSA_MEM_FLAG_HOST_ACCESS
    } else {
        0u32
    })
}

/// Translates the kernel's allocation flags into the flags of an object.
pub fn fmm_translate_ioc_to_hsa_flags(ioc_flags: u32) -> (mflags: HsaMemFlags)
    ensures
        mflags.Value == translated_flags(ioc_flags),
        mflags.has(HSA_MEM_FLAG_READ_ONLY) == (ioc_flags & KFD_IOC_ALLOC_MEM_FLAGS_WRITABLE == 0),
        mflags.has(HSA_MEM_FLAG_COARSE_GRAIN) == (ioc_flags & KFD_IOC_ALLOC_MEM_FLAGS_COHERENT == 0),
        mflags.has(HSA_MEM_FLAG_EXTENDED_COHERENT) == (ioc_flags
            & KFD_IOC_ALLOC_MEM_FLAGS_EXT_COHERENT != 0),
        mflags.has(HSA_MEM_FLAG_HOST_ACCESS) == (ioc_flags & KFD_IOC_ALLOC_MEM_FLAGS_PUBLIC != 0),
        mflags.Value & !(HSA_MEM_FLAG_READ_ONLY | HSA_MEM_FLAG_COARSE_GRAIN
            | HSA_MEM_FLAG_EXTENDED_COHERENT | HSA_MEM_FLAG_HOST_ACCESS) == 0,
{
    let read_only: u32 = if ioc_flags & KFD_IOC_ALLOC_MEM_FLAGS_WRITABLE == 0 {
        HSA_MEM_FLAG_READ_ONLY
    } else {
        0
    };
    let coarse: u32 = if ioc_flags & KFD_IOC_ALLOC_MEM_FLAGS_COHERENT == 0 {
        HSA_MEM_FLAG_COARSE_GRAIN
    } else {
        0
    };
    let extended: u32 = if ioc_flags & KFD_IOC_ALLOC_MEM_FLAGS_EXT_COHERENT != 0 {
        HSA_MEM_FLAG_EXTENDED_COHERENT
    } else {
        0
    };
    let host: u32 = if ioc_flags & KFD_IOC_ALLOC_MEM_FLAGS_PUBLIC != 0 {
        HSA_MEM_FLAG_HOST_ACCESS
    } else {
        0
    };
    let value: u32 = read_only | coarse | extended | host;
    assert(((value & 0x8u32 != 0) == (read_only == 0x8u32)) && ((value & 0x2000u32 != 0) == (coarse
        == 0x2000u32)) && ((value & 0x10_0000u32 != 0) == (extended == 0x10_0000u32)) && ((value
        & 0x40u32 != 0) == (host == 0x40u32)) && (value & !(0x8u32 | 0x2000u32 | 0x10_0000u32
        | 0x40u32) == 0)) by (bit_vector)
        requires
            value == read_only | coarse | extended | host,
            read_only == 0x8u32 || read_only == 0u32,
            coarse == 0x2000u32 || coarse == 0u32,
            extended == 0x10_0000u32 || extended == 0u32,
            host == 0x40u32 || host == 0u32,
    ;
    HsaMemFlags { Value: value }
}

/// Whether `object` is the record of an allocation that nothing has been
/// done with yet.
pub open spec fn fresh_object(
    object: vm_object_t,
    start: u64,
    size: u64,
    handle: u64,
    mflags: HsaMemFlags,
) -> bool {
    &&& object.start == start
    &&& object.userptr == 0
    &&& object.userptr_size == 0
    &&& object.size == size
    &&& object.handle == handle
    &&& object.node_id == 0
    &&& object.mflags == mflags
    &&& object.registered_device_id_array@ == Seq::<u32>::empty()
    &&& object.registered_node_id_array@ == Seq::<u32>::empty()
    &&& object.registration_count == 0
    &&& object.mapped_device_id_array@ == Seq::<u32>::empty()
    &&& object.mapped_node_id_array@ == Seq::<u32>::empty()
    &&& object.mapping_count == 0
    &&& object.metadata == 0
    &&& object.user_data == 0
    &&& !object.is_imported_kfd_bo
}

/// The record of a new allocation of `size` bytes at `start`, which the
/// kernel driver knows by `handle`.
pub fn vm_create_and_init_object(start: u64, size: u64, handle: u64, mflags: HsaMemFlags) -> (object:
    vm_object_t)
    ensures
        fresh_object(object, start, size, handle, mflags),
{
    vm_object_t {
        start,
        userptr: 0,
        userptr_size: 0,
        size,
        handle,
        node_id: 0,
        mflags,
        registered_device_id_array: Vec::new(),
        registered_node_id_array: Vec::new(),
        registration_count: 0,
        mapped_device_id_array: Vec::new(),
        mapped_node_id_array: Vec::new(),
        mapping_count: 0,
        metadata: 0,
        user_data: 0,
        is_imported_kfd_bo: false,
    }
}

/// Records a new object of `size` bytes at `new_address` among the objects of
/// the aperture, unless it shares an address with one of them.
pub fn aperture_allocate_object(
    app: &mut manageable_aperture_t,
    new_address: u64,
    handle: u64,
    size: u64,
    mflags: HsaMemFlags,
) -> (r: Result<(), AllocError>)
    requires
        old(app).wf(),
    ensures
        final(app).wf(),
        final(app).same_but_objects(old(app)),
        r is Ok <==> !has_overlap(old(app).tree@, rbtree_key_s { addr: new_address, size }),
        r is Ok ==> final(app).tree@.len() == old(app).tree@.len() + 1,
        r is Ok ==> final(app).tree@[rank(old(app).tree@, new_address as int)].key == (rbtree_key_s {
            addr: new_address,
            size,
        }),
        r is Ok ==> fresh_object(
            final(app).tree@[rank(old(app).tree@, new_address as int)].data,
            new_address,
            size,
            handle,
            mflags,
        ),
        r is Ok
            ==> final(app).tree@.remove(rank(old(app).tree@, new_address as int)) == old(app).tree@,
        r is Err ==> r->Err_0 == AllocError::Overlap && final(app).tree@ == old(app).tree@,
{
    let object = vm_create_and_init_object(new_address, size, handle, mflags);
    let ghost before = app.tree@;
    proof {
        lemma_rank_parts(before, new_address as int);
    }
    match app.tree.insert(rbtree_key(new_address, size), object) {
        Ok(()) => {
            assert(app.tree@.remove(rank(before, new_address as int)) =~= before);
            Ok(())
        },
        Err(_) => Err(AllocError::Overlap),
    }
}

/// The object that starts at `address`, if there is one.
pub fn vm_find_object_by_address(app: &manageable_aperture_t, address: u64) -> (r: Option<
    &vm_object_t,
>)
    requires
        app.wf(),
    ensures
        r is Some <==> has_start(app.tree@, address),
        r is Some ==> rank(app.tree@, address as int) < app.tree@.len() && *r->Some_0
            == app.tree@[rank(app.tree@, address as int)].data,
{
    match app.tree.find_exact(address) {
        Some(node) => Some(&node.data),
        None => None,
    }
}

/// The object whose range holds `address`, if there is one.
pub fn vm_find_object_by_address_range(app: &manageable_aperture_t, address: u64) -> (r: Option<
    &vm_object_t,
>)
    requires
        app.wf(),
    ensures
        r is Some <==> has_containing(app.tree@, address),
        r is Some ==> exists|i: int|
            0 <= i < app.tree@.len() && (#[trigger] app.tree@[i]).key.contains(address as int)
                && app.tree@[i].data == *r->Some_0,
{
    match app.tree.find_containing(address) {
        Some(node) => Some(&node.data),
        None => None,
    }
}

/// Takes the object that starts at `address` out of the aperture's objects.
pub fn vm_remove_object(app: &mut manageable_aperture_t, address: u64) -> (r: Result<
    vm_object_t,
    AllocError,
>)
    requires
        old(app).wf(),
    ensures
        final(app).wf(),
        final(app).same_but_objects(old(app)),
        r is Ok <==> has_start(old(app).tree@, address),
        r is Ok
            ==> rank(old(app).tree@, address as int) < old(app).tree@.len()
                && r->Ok_0 == old(app).tree@[rank(old(app).tree@, address as int)].data
                && final(app).tree@ == old(app).tree@.remove(rank(old(app).tree@, address as int)),
        r is Err ==> r->Err_0 == AllocError::NotFound && final(app).tree@ == old(app).tree@,
{
    match app.tree.remove(address) {
        Ok(node) => Ok(node.data),
        Err(_) => Err(AllocError::NotFound),
    }
}

/// What the kernel driver is asked for an allocation of `size` bytes at `mem`
/// on device `gpu_id`: never a substitute for the memory asked for, the
/// address counted from the aperture's base for video memory of an integrated
/// GPU, and the user's address only for a userptr.
pub fn fmm_alloc_memory_args(
    gpu_id: u32,
    mem: u64,
    size: u64,
    aperture_base: u64,
    mmap_offset: u64,
    ioc_flags: u32,
    is_dgpu: bool,
) -> (args: kfd_ioctl_alloc_memory_of_gpu_args)
    requires
        !is_dgpu && ioc_flags & KFD_IOC_ALLOC_MEM_FLAGS_VRAM != 0 ==> aperture_base <= mem,
    ensures
        args.gpu_id == gpu_id,
        args.size == size,
        args.handle == 0,
        args.flags == ioc_flags | KFD_IOC_ALLOC_MEM_FLAGS_NO_SUBSTITUTE,
        args.va_addr == (if !is_dgpu && ioc_flags & KFD_IOC_ALLOC_MEM_FLAGS_VRAM != 0 {
            (mem - aperture_base) as u64
        } else {
            mem
        }),
        args.mmap_offset == (if ioc_flags & KFD_IOC_ALLOC_MEM_FLAGS_USERPTR != 0 {
            mmap_offset
        } else {
            0
        }),
{
    let va_addr: u64 = if !is_dgpu && ioc_flags & KFD_IOC_ALLOC_MEM_FLAGS_VRAM != 0 {
        mem - aperture_base
    } else {
        mem
    };
    let offset: u64 = if ioc_flags & KFD_IOC_ALLOC_MEM_FLAGS_USERPTR != 0 {
        mmap_offset
    } else {
        0
    };
    kfd_ioctl_alloc_memory_of_gpu_args {
        va_addr,
        size,
        handle: 0,
        mmap_offset: offset,
        gpu_id,
        flags: ioc_flags | KFD_IOC_ALLOC_MEM_FLAGS_NO_SUBSTITUTE,
    }
}

/// Why an allocation on a device came to nothing, and what is left for the
/// caller to undo: `unmap` is the area that was released again (empty where
/// none was), `free_handle` the kernel's handle where the kernel had
/// allocated already.
#[derive(Debug, Copy, Clone, PartialEq, Eq, Structural)]
pub struct DeviceAllocFailure {
    pub error: AllocError,
    pub unmap: vm_area_t,
    pub free_handle: Option<u64>,
}

/// Records the object of an allocation once the kernel driver has answered:
/// `ret` is what the request returned, `args` the record as the driver left
/// it. Hands back the offset at which the memory can be mapped.
///
/// Nothing is recorded where the driver failed (`ret` is not 0), or where the
/// object would share an address with another one.
pub fn fmm_allocate_memory_object(
    aperture: &mut manageable_aperture_t,
    mem: u64,
    size: u64,
    args: &kfd_ioctl_alloc_memory_of_gpu_args,
    ret: i32,
    ioc_flags: u32,
) -> (r: Result<u64, AllocError>)
    requires
        old(aperture).wf(),
    ensures
        final(aperture).wf(),
        final(aperture).same_but_objects(old(aperture)),
        r is Ok <==> ret == 0
            && !has_overlap(old(aperture).tree@, rbtree_key_s { addr: mem, size }),
        r is Ok ==> r->Ok_0 == args.mmap_offset,
        r is Ok
            ==> final(aperture).tree@.len() == old(aperture).tree@.len() + 1
                && final(aperture).tree@[rank(old(aperture).tree@, mem as int)].key == (rbtree_key_s {
                addr: mem,
                size,
            })
            && fresh_object(
            final(aperture).tree@[rank(old(aperture).tree@, mem as int)].data,
            mem,
            size,
            args.handle,
            HsaMemFlags { Value: translated_flags(ioc_flags) },
        )
            && final(aperture).tree@.remove(rank(old(aperture).tree@, mem as int)) == old(aperture).tree@,
        r is Err ==> final(aperture).tree@ == old(aperture).tree@,
        r is Err ==> r->Err_0 == (if ret != 0 {
            AllocError::KernelAllocFailed
        } else {
            AllocError::Overlap
        }),
{
    if ret != 0 {
        return Err(AllocError::KernelAllocFailed);
    }
    let mflags = fmm_translate_ioc_to_hsa_flags(ioc_flags);
    match aperture_allocate_object(aperture, mem, args.handle, size, mflags) {
        Ok(()) => Ok(args.mmap_offset),
        Err(e) => Err(e),
    }
}

/// Finishes an allocation on a device after the area at `mem` was reserved
/// and the kernel driver was asked: records the object, or gives the area up
/// again where the driver failed or the object cannot be recorded.
pub fn fmm_allocate_device_finish(
    aperture: &mut manageable_aperture_t,
    mem: u64,
    size: u64,
    args: &kfd_ioctl_alloc_memory_of_gpu_args,
    ret: i32,
    ioc_flags: u32,
    page_size: u64,
) -> (r: Result<u64, DeviceAllocFailure>)
    requires
        old(aperture).wf(),
    ensures
        final(aperture).wf(),
        final(aperture).user_tree == old(aperture).user_tree,
        final(aperture).base == old(aperture).base,
        final(aperture).limit == old(aperture).limit,
        final(aperture).align == old(aperture).align,
        final(aperture).guard_pages == old(aperture).guard_pages,
        final(aperture).ops == old(aperture).ops,
        final(aperture).is_cpu_accessible == old(aperture).is_cpu_accessible,
        r is Ok <==> ret == 0
            && !has_overlap(old(aperture).tree@, rbtree_key_s { addr: mem, size }),
        r is Ok
            ==> r->Ok_0 == args.mmap_offset && final(aperture).vm_ranges == old(aperture).vm_ranges,
        r is Ok
            ==> final(aperture).tree@.len() == old(aperture).tree@.len() + 1
                && final(aperture).tree@[rank(old(aperture).tree@, mem as int)].key == (rbtree_key_s {
                addr: mem,
                size,
            })
            && fresh_object(
            final(aperture).tree@[rank(old(aperture).tree@, mem as int)].data,
            mem,
            size,
            args.handle,
            HsaMemFlags { Value: translated_flags(ioc_flags) },
        )
            && final(aperture).tree@.remove(rank(old(aperture).tree@, mem as int)) == old(aperture).tree@,
        r is Err ==> final(aperture).tree@ == old(aperture).tree@,
        r is Err ==> r->Err_0.error == (if ret != 0 {
            AllocError::KernelAllocFailed
        } else {
            AllocError::Overlap
        }),
        r is Err ==> r->Err_0.free_handle == (if ret != 0 {
            None::<u64>
        } else {
            Some(args.handle)
        }),
        r is Err && release_error(old(aperture), mem, size, page_size) is None
            ==> final(aperture).vm_ranges@ == without_area(old(aperture), mem),
        r is Err && release_error(old(aperture), mem, size, page_size) is None
            ==> r->Err_0.unmap == (vm_area_t {
            start: mem,
            size: guarded_size(size, old(aperture).guard_pages, page_size) as u64,
        }),
        r is Err && release_error(old(aperture), mem, size, page_size) is Some
            ==> final(aperture).vm_ranges@ == old(aperture).vm_ranges@,
        r is Err && release_error(old(aperture), mem, size, page_size) is Some
            ==> r->Err_0.unmap == (vm_area_t {
            start: mem,
            size: 0,
        }),
{
    match fmm_allocate_memory_object(aperture, mem, size, args, ret, ioc_flags) {
        Ok(offset) => Ok(offset),
        Err(error) => {
            let unmap = match aperture_release_area(aperture, mem, size, page_size) {
                Ok(area) => area,
                Err(_) => vm_area_t { start: mem, size: 0 },
            };
            let free_handle = if ret != 0 {
                None
            } else {
                Some(args.handle)
            };
            Err(DeviceAllocFailure { error, unmap, free_handle })
        },
    }
}

/// What the kernel driver is asked in order to free the object at `address`.
pub fn fmm_release_request(aperture: &manageable_aperture_t, address: u64) -> (r: Result<
    kfd_ioctl_free_memory_of_gpu_args,
    AllocError,
>)
    requires
        aperture.wf(),
    ensures
        r is Ok <==> has_start(aperture.tree@, address),
        r is Ok ==> rank(aperture.tree@, address as int) < aperture.tree@.len() && r->Ok_0.handle
            == aperture.tree@[rank(aperture.tree@, address as int)].data.handle,
        r is Err ==> r->Err_0 == AllocError::NotFound,
{
    match vm_find_object_by_address(aperture, address) {
        Some(object) => Ok(kfd_ioctl_free_memory_of_gpu_args { handle: object.handle }),
        None => Err(AllocError::NotFound),
    }
}

/// Frees the object at `address` once the kernel driver has answered the
/// request to free it with `ret`: takes the object out of the aperture and
/// releases its area, which it hands back for the caller to unmap.
///
/// Nothing changes where no object starts at `address`, or where the driver
/// failed.
pub fn fmm_release(aperture: &mut manageable_aperture_t, address: u64, ret: i32, page_size: u64) -> (r:
    Result<vm_area_t, AllocError>)
    requires
        old(aperture).wf(),
    ensures
        final(aperture).wf(),
        final(aperture).user_tree == old(aperture).user_tree,
        final(aperture).base == old(aperture).base,
        final(aperture).limit == old(aperture).limit,
        final(aperture).align == old(aperture).align,
        final(aperture).guard_pages == old(aperture).guard_pages,
        final(aperture).ops == old(aperture).ops,
        final(aperture).is_cpu_accessible == old(aperture).is_cpu_accessible,
        r is Ok <==> has_start(old(aperture).tree@, address) && ret == 0,
        r is Err ==> *final(aperture) == *old(aperture),
        r is Err ==> r->Err_0 == (if !has_start(old(aperture).tree@, address) {
            AllocError::NotFound
        } else {
            AllocError::KernelFreeFailed
        }),
        r is Ok ==> final(aperture).tree@ == old(aperture).tree@.remove(
            rank(old(aperture).tree@, address as int),
        ),
        r is Ok && release_error(
            old(aperture),
            address,
            old(aperture).tree@[rank(old(aperture).tree@, address as int)].data.size,
            page_size,
        ) is None ==> final(aperture).vm_ranges@ == without_area(old(aperture), address) && r->Ok_0
            == (vm_area_t {
            start: address,
            size: guarded_size(
                old(aperture).tree@[rank(old(aperture).tree@, address as int)].data.size,
                old(aperture).guard_pages,
                page_size,
            ) as u64,
        }),
        r is Ok && release_error(
            old(aperture),
            address,
            old(aperture).tree@[rank(old(aperture).tree@, address as int)].data.size,
            page_size,
        ) is Some ==> final(aperture).vm_ranges@ == old(aperture).vm_ranges@ && r->Ok_0 == (vm_area_t {
            start: address,
            size: 0,
        }),
{
    let known: bool = vm_find_object_by_address(aperture, address).is_some();
    if !known {
        return Err(AllocError::NotFound);
    }
    if ret != 0 {
        return Err(AllocError::KernelFreeFailed);
    }
    let size: u64 = match vm_remove_object(aperture, address) {
        Ok(object) => object.size,
        Err(_) => 0,
    };
    match aperture_release_area(aperture, address, size, page_size) {
        Ok(area) => Ok(area),
        Err(_) => Ok(vm_area_t { start: address, size: 0 }),
    }
}

/// What the kernel driver is asked in order to set the cache policy of
/// device `gpu_id`.
pub fn fmm_set_memory_policy(
    gpu_id: u32,
    default_policy: u32,
    alt_policy: u32,
    alt_base: u64,
    alt_size: u64,
) -> (args: kfd_ioctl_set_memory_policy_args)
    ensures
        args == (kfd_ioctl_set_memory_policy_args {
            alternate_aperture_base: alt_base,
            alternate_aperture_size: alt_size,
            gpu_id,
            default_policy,
            alternate_policy: alt_policy,
            pad: 0,
        }),
{
    kfd_ioctl_set_memory_policy_args {
        alternate_aperture_base: alt_base,
        alternate_aperture_size: alt_size,
        gpu_id,
        default_policy,
        alternate_policy: alt_policy,
        pad: 0,
    }
}

} // verus!
