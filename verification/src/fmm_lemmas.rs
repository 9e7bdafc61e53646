//! What holds of every aperture: its live areas never overlap, a release
//! undoes an allocation, allocations are aligned, and guard space stays
//! unused.

use vstd::prelude::*;
use vstd::arithmetic::div_mod::{lemma_fundamental_div_mod, lemma_mod_multiples_basic, lemma_mod_pos_bound};
use crate::fmm::{
    align_cap, area_node, effective_align, end_offset, guarded_size, has_area,
    lemma_grown_align_multiple, mmap_align, mmap_allocate_spec, mmap_request_spec,
    reserved_align, reserved_allocate_post, reserved_gap, with_area, without_area,
    AllocError, AreaGrant, MapRequest,
};
use crate::fmm_globals::manageable_aperture_t;
use crate::hsakmttypes::{lemma_align_up, GPU_HUGE_PAGE_SIZE};
use crate::rbtree::{
    has_overlap, has_start, lemma_insert_keeps_order, lemma_insert_remove, lemma_ordered_disjoint,
    lemma_rank_parts, lemma_remove_keeps_order, ordered, rank, rbtree_node_s,
};
use crate::rbtree_amd::rbtree_key_s;

verus! {

/// No two live areas of an aperture share an address, and neither do two of
/// its objects.
pub proof fn lemma_live_ranges_disjoint(app: &manageable_aperture_t, i: int, j: int)
    requires
        app.wf(),
        i != j,
    ensures
        0 <= i < app.vm_ranges@.len() && 0 <= j < app.vm_ranges@.len()
            ==> !app.vm_ranges@[i].key.overlaps(app.vm_ranges@[j].key),
        0 <= i < app.tree@.len() && 0 <= j < app.tree@.len() ==> !app.tree@[i].key.overlaps(
            app.tree@[j].key,
        ),
        0 <= i < app.user_tree@.len() && 0 <= j < app.user_tree@.len()
            ==> !app.user_tree@[i].key.overlaps(app.user_tree@[j].key),
{
    if 0 <= i < app.vm_ranges@.len() && 0 <= j < app.vm_ranges@.len() {
        lemma_ordered_disjoint(app.vm_ranges@, i, j);
    }
    if 0 <= i < app.tree@.len() && 0 <= j < app.tree@.len() {
        lemma_ordered_disjoint(app.tree@, i, j);
    }
    if 0 <= i < app.user_tree@.len() && 0 <= j < app.user_tree@.len() {
        lemma_ordered_disjoint(app.user_tree@, i, j);
    }
}

/// What is done to the areas of an aperture: an area of `length` bytes is
/// recorded at `addr`, of which `size` are for use, or the area that starts at
/// `addr` is taken away.
pub enum AreaOp {
    Allocate { addr: u64, length: u64, size: u64 },
    Free { addr: u64 },
}

/// The areas after `op`. An area that would share an address with a live one
/// is not recorded, and an area that is not there is not taken away: both
/// leave the areas as they are.
pub open spec fn after_op(areas: Seq<rbtree_node_s<u64>>, op: AreaOp) -> Seq<rbtree_node_s<u64>> {
    match op {
        AreaOp::Allocate { addr, length, size } => if has_overlap(
            areas,
            rbtree_key_s { addr, size: length },
        ) {
            areas
        } else {
            areas.insert(
                rank(areas, addr as int),
                rbtree_node_s { key: rbtree_key_s { addr, size: length }, data: size },
            )
        },
        AreaOp::Free { addr } => if has_start(areas, addr) {
            areas.remove(rank(areas, addr as int))
        } else {
            areas
        },
    }
}

/// The areas after each of `ops` in turn.
pub open spec fn after_ops(areas: Seq<rbtree_node_s<u64>>, ops: Seq<AreaOp>) -> Seq<
    rbtree_node_s<u64>,
>
    decreases ops.len(),
{
    if ops.len() == 0 {
        areas
    } else {
        after_op(after_ops(areas, ops.drop_last()), ops.last())
    }
}

/// Whatever is allocated and freed in an aperture, in whatever order, its
/// live areas never share an address.
pub proof fn lemma_no_overlap_ever(areas: Seq<rbtree_node_s<u64>>, ops: Seq<AreaOp>, i: int, j: int)
    requires
        ordered(areas),
        0 <= i < after_ops(areas, ops).len(),
        0 <= j < after_ops(areas, ops).len(),
        i != j,
    ensures
        ordered(after_ops(areas, ops)),
        !after_ops(areas, ops)[i].key.overlaps(after_ops(areas, ops)[j].key),
{
    lemma_ops_keep_order(areas, ops);
    lemma_ordered_disjoint(after_ops(areas, ops), i, j);
}

/// Allocating and freeing keep the areas in order.
pub proof fn lemma_ops_keep_order(areas: Seq<rbtree_node_s<u64>>, ops: Seq<AreaOp>)
    requires
        ordered(areas),
    ensures
        ordered(after_ops(areas, ops)),
    decreases ops.len(),
{
    if ops.len() > 0 {
        lemma_ops_keep_order(areas, ops.drop_last());
        let before = after_ops(areas, ops.drop_last());
        match ops.last() {
            AreaOp::Allocate { addr, length, size } => {
                if !has_overlap(before, rbtree_key_s { addr, size: length }) {
                    lemma_rank_parts(before, addr as int);
                    lemma_insert_keeps_order(
                        before,
                        rbtree_node_s { key: rbtree_key_s { addr, size: length }, data: size },
                        rank(before, addr as int),
                    );
                }
            },
            AreaOp::Free { addr } => {
                if has_start(before, addr) {
                    lemma_rank_parts(before, addr as int);
                    let k = choose|k: int| 0 <= k < before.len()
                        && (#[trigger] before[k]).key.addr == addr;
                    assert(rank(before, addr as int) <= k);
                    lemma_remove_keeps_order(before, rank(before, addr as int));
                }
            },
        }
    }
}

/// Releasing an area right after it was reserved gives back the areas that
/// were there before: `after` is the aperture as the allocation of `size`
/// bytes at `addr` left it.
pub proof fn lemma_release_undoes_allocation(
    before: &manageable_aperture_t,
    after: &manageable_aperture_t,
    addr: u64,
    size: u64,
    page_size: u64,
)
    requires
        before.wf(),
        after.same_but_areas(before),
        guarded_size(size, before.guard_pages, page_size) <= u64::MAX,
        !has_overlap(before.vm_ranges@, area_node(before, addr, size, page_size).key),
        after.vm_ranges@ == with_area(before, addr, size, page_size),
    ensures
        has_area(after, addr, size, page_size),
        without_area(after, addr) == before.vm_ranges@,
{
    let node = area_node(before, addr, size, page_size);
    lemma_insert_remove(before.vm_ranges@, node);
    lemma_rank_parts(before.vm_ranges@, addr as int);
    let p = rank(before.vm_ranges@, addr as int);
    assert(after.vm_ranges@[p] == node);
}

/// What an allocation without an address answers depends on nothing but the
/// aperture's window, policy and live areas: two apertures that agree in
/// those give the same answer. So the address of an area that was released
/// is used again by the next allocation of the same size.
pub proof fn lemma_allocation_is_repeatable(
    first: &manageable_aperture_t,
    second: &manageable_aperture_t,
    size: u64,
    align: u64,
    page_size: u64,
    r1: Result<u64, AllocError>,
    r2: Result<u64, AllocError>,
)
    requires
        second.same_but_areas(first),
        second.vm_ranges@ == first.vm_ranges@,
        reserved_allocate_post(first, None, size, align, page_size, r1),
        reserved_allocate_post(second, None, size, align, page_size, r2),
    ensures
        r1 == r2,
{
    assert forall|b: int|
        reserved_gap(first, size, align, page_size, b) == reserved_gap(
            second,
            size,
            align,
            page_size,
            b,
        ) by {}
    match (r1, r2) {
        (Ok(a1), Ok(a2)) => {
            assert(reserved_gap(second, size, align, page_size, a1 as int));
            assert(reserved_gap(first, size, align, page_size, a2 as int));
        },
        (Ok(a1), Err(_)) => {
            assert(reserved_gap(second, size, align, page_size, a1 as int));
        },
        (Err(_), Ok(a2)) => {
            assert(reserved_gap(first, size, align, page_size, a2 as int));
        },
        (Err(_), Err(_)) => {},
    }
}

/// The sum and the difference of two multiples of a number are multiples of
/// it.
pub proof fn lemma_multiples_add(m: int, x: int, y: int)
    requires
        m > 0,
        x % m == 0,
        y % m == 0,
    ensures
        (x + y) % m == 0,
        (x - y) % m == 0,
{
    lemma_fundamental_div_mod(x, m);
    lemma_fundamental_div_mod(y, m);
    let a = x / m;
    let b = y / m;
    assert(x + y == (a + b) * m) by (nonlinear_arith)
        requires
            x == m * a,
            y == m * b,
    ;
    assert(x - y == (a - b) * m) by (nonlinear_arith)
        requires
            x == m * a,
            y == m * b,
    ;
    lemma_mod_multiples_basic(a + b, m);
    lemma_mod_multiples_basic(a - b, m);
}

/// A multiple of a multiple of a number is a multiple of the number.
pub proof fn lemma_multiple_of_multiple(m: int, a: int, x: int)
    requires
        m > 0,
        a > 0,
        a % m == 0,
        x % a == 0,
    ensures
        x % m == 0,
{
    lemma_fundamental_div_mod(a, m);
    lemma_fundamental_div_mod(x, a);
    let k = a / m;
    let q = x / a;
    assert(x == (k * q) * m) by (nonlinear_arith)
        requires
            a == m * k,
            x == a * q,
    ;
    lemma_mod_multiples_basic(k * q, m);
}

/// Where the reserved-range strategy chose the address itself, the address is
/// a multiple of the effective alignment, provided that the start of the
/// bytes is what it aligns (more than a page's alignment was asked for) or
/// that the size is such a multiple too. Otherwise it is the end of the bytes
/// that is aligned.
pub proof fn lemma_reserved_allocation_aligned(
    app: &manageable_aperture_t,
    size: u64,
    align: u64,
    page_size: u64,
    a: u64,
)
    requires
        reserved_allocate_post(app, None, size, align, page_size, Ok(a)),
        align > page_size || size % (effective_align(align, app.align) as u64) == 0,
    ensures
        a % (effective_align(align, app.align) as u64) == 0,
        (a + end_of_bytes_shift(app, size, align, page_size)) % reserved_align(app.align, align, size)
            == 0,
{
    let m = effective_align(align, app.align);
    let grown = reserved_align(app.align, align, size);
    let offset = end_offset(align, page_size, grown, size);
    lemma_grown_align_multiple(m, size as int, GPU_HUGE_PAGE_SIZE as int);
    assert(reserved_gap(app, size, align, page_size, a as int));
    assert((a - offset) % grown == 0);
    lemma_multiple_of_multiple(m, grown, a - offset);
    if align > page_size {
    } else {
        lemma_fundamental_div_mod(size as int, grown);
        lemma_mod_pos_bound(size as int, grown);
        let q = (size as int) / grown;
        assert((grown * q) % grown == 0) by {
            lemma_mod_multiples_basic(q, grown);
            assert(grown * q == q * grown) by (nonlinear_arith);
        }
        lemma_multiple_of_multiple(m, grown, grown * q);
        assert(grown % grown == 0) by {
            lemma_mod_multiples_basic(1, grown);
        }
        lemma_multiple_of_multiple(m, grown, grown);
        // offset = grown - (size - grown * q)
        lemma_multiples_add(m, size as int, grown * q);
        lemma_multiples_add(m, grown, size - grown * q);
        assert(offset == grown - (size - grown * q));
        lemma_multiples_add(m, a - offset, offset);
        assert(a - offset + offset == a);
    }
}

/// How far behind the address the aligned point of an allocation lies: the
/// bytes themselves where their end is aligned, nothing where their start is.
pub open spec fn end_of_bytes_shift(
    app: &manageable_aperture_t,
    size: u64,
    align: u64,
    page_size: u64,
) -> int {
    if align <= page_size {
        (size as int) % reserved_align(app.align, align, size) - reserved_align(
            app.align,
            align,
            size,
        )
    } else {
        0
    }
}

/// Where the mapping strategy chose the address itself, the address is a
/// multiple of the effective alignment.
pub proof fn lemma_mmap_allocation_aligned(
    aper: &manageable_aperture_t,
    size: u64,
    align: u64,
    page_size: u64,
    alignment_order: u32,
    mapped: Option<u64>,
    grant: AreaGrant,
)
    requires
        mmap_allocate_spec(aper, None, size, align, page_size, alignment_order, mapped) == Ok::<
            AreaGrant,
            AllocError,
        >(grant),
    ensures
        grant.address % (effective_align(align, aper.align) as u64) == 0,
{
    let m = effective_align(align, aper.align);
    let grown = mmap_align(aper.align, align, size, page_size, alignment_order);
    lemma_grown_align_multiple(m, size as int, align_cap(page_size, alignment_order as nat));
    let request = mmap_request_spec(aper, None, size, align, page_size, alignment_order);
    assert(request is Ok);
    match request->Ok_0 {
        MapRequest::Fixed { address, length } => {},
        MapRequest::Anywhere { length, align: g, guard_size } => {
            assert(g == grown);
            lemma_align_up(mapped->Some_0 + guard_size, grown);
            lemma_multiple_of_multiple(m, grown, grant.address as int);
        },
    }
}

/// The guard space of a live area is in no other live area: no address from
/// the end of the area's bytes to the end of the area belongs to another one.
pub proof fn lemma_guard_isolated(app: &manageable_aperture_t, i: int, j: int, address: int)
    requires
        app.wf(),
        0 <= i < app.vm_ranges@.len(),
        0 <= j < app.vm_ranges@.len(),
        i != j,
        app.vm_ranges@[i].key.addr + app.vm_ranges@[i].data <= address < app.vm_ranges@[i].key.end(),
    ensures
        !app.vm_ranges@[j].key.contains(address),
{
    lemma_ordered_disjoint(app.vm_ranges@, i, j);
}

/// The area that an allocation of `size` bytes at `addr` records holds the
/// bytes and, right behind them, `guard_pages` pages that no other live area
/// reaches.
pub proof fn lemma_allocation_is_guarded(
    before: &manageable_aperture_t,
    after: &manageable_aperture_t,
    addr: u64,
    size: u64,
    page_size: u64,
    j: int,
    address: int,
)
    requires
        before.wf(),
        after.wf(),
        guarded_size(size, before.guard_pages, page_size) <= u64::MAX,
        after.vm_ranges@ == with_area(before, addr, size, page_size),
        0 <= j < after.vm_ranges@.len(),
        j != rank(before.vm_ranges@, addr as int),
        addr + size <= address < addr + size + before.guard_pages * page_size,
    ensures
        !after.vm_ranges@[j].key.contains(address),
{
    let p = rank(before.vm_ranges@, addr as int);
    lemma_rank_parts(before.vm_ranges@, addr as int);
    assert(after.vm_ranges@[p] == area_node(before, addr, size, page_size));
    lemma_guard_isolated(after, p, j, address);
}

} // verus!
