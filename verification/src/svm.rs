//! Setting up the apertures that the GPUs share: one aperture over the whole
//! range where the GPUs address all of the canonical address space, and two
//! apertures carved out of a reserved block otherwise.
//!
//! The system is asked for address space between the steps. Each function
//! here takes what the system answered and says what is to be done next.

use vstd::prelude::*;
use crate::fmm_globals::{
    manageable_aperture, manageable_aperture_ops_t, vm_area_t, HsaKmtFmmGlobal, SvmState,
};
use crate::hsakmttypes::{
    align_down, align_down_spec, align_up_checked, align_up_spec, lemma_align_down, lemma_align_up,
    HsakmtStatus, GPU_HUGE_PAGE_SIZE,
};

verus! {

/// The least address space that is worth reserving: four gibibytes.
pub const SVM_MIN_VM_SIZE: u64 = 0x1_0000_0000;

/// The last address of the canonical address space.
pub const SVM_CANONICAL_TOP: u64 = 0x7FFF_FFFF_FFFF;

/// What the base and the size of the alternate aperture are multiples of.
pub const SVM_ALT_ALIGN: u64 = 0x1_0000;

/// The first address at or above `base` that a huge page starts at.
pub open spec fn svm_aligned_base(base: u64) -> int {
    align_up_spec(base as int, GPU_HUGE_PAGE_SIZE as int)
}

/// The last address at or below `limit` that a huge page ends at, or -1 where
/// there is none.
pub open spec fn svm_aligned_limit(limit: u64) -> int {
    align_down_spec(limit + 1, GPU_HUGE_PAGE_SIZE as int) - 1
}

/// The range from `base` to `limit` cut down to whole huge pages, where
/// anything is left of it.
pub fn svm_align_range(base: u64, limit: u64) -> (r: Option<(u64, u64)>)
    ensures
        r is Some <==> svm_aligned_base(base) <= u64::MAX && svm_aligned_limit(limit) >= 0,
        r is Some ==> r->Some_0.0 == svm_aligned_base(base) && r->Some_0.1 == svm_aligned_limit(
            limit,
        ),
{
    proof {
        lemma_align_down(limit + 1, GPU_HUGE_PAGE_SIZE as int);
    }
    let b: u64 = match align_up_checked(base, GPU_HUGE_PAGE_SIZE) {
        Some(b) => b,
        None => {
            return None;
        },
    };
    if limit == u64::MAX {
        return Some((b, u64::MAX));
    }
    let down: u64 = align_down(limit + 1, GPU_HUGE_PAGE_SIZE);
    if down == 0 {
        None
    } else {
        Some((b, down - 1))
    }
}

/// Where the search for address space to reserve stands: it looks for `len`
/// bytes between `base` and `limit`, and tries address `addr` next.
#[derive(Debug, Copy, Clone, PartialEq, Eq, Structural)]
pub struct SvmReserveCursor {
    pub base: u64,
    pub limit: u64,
    pub len: u64,
    pub addr: u64,
}

/// What is to be done next to set the shared apertures up.
#[derive(Debug, Copy, Clone, PartialEq, Eq, Structural)]
pub enum SvmInitStep {
    /// Nothing: the apertures are set up, or cannot be.
    Done(HsakmtStatus),
    /// Allocate one page in the default aperture and release it again, and
    /// report to `init_mmap_apertures_probed` whether that worked.
    ProbeDirect,
    /// Reserve `map_size` bytes at `cursor.addr` or wherever the system puts
    /// them, and report to `init_svm_apertures_reserved` where they are.
    Reserve { cursor: SvmReserveCursor, map_size: u64 },
}

/// Half of `len`, rounded up.
pub open spec fn half_of(len: u64) -> int {
    (len + 1) / 2
}

/// The number of bytes that an attempt at `addr` asks for: `len` of them or
/// as many as there are up to `limit`, in whole pages.
pub open spec fn attempt_size(limit: u64, len: u64, addr: u64, page_size: u64) -> int {
    let raw = if len <= limit - addr + 1 {
        len as int
    } else {
        limit - addr + 1
    };
    if page_size == 0 {
        raw
    } else {
        align_down_spec(raw, page_size as int)
    }
}

/// Whether an attempt at `addr` is worth making: at least half of the `len`
/// bytes would lie at or below `limit`, and what is asked for is no less than
/// the least worth reserving.
pub open spec fn attempt_possible(limit: u64, len: u64, addr: u64, page_size: u64) -> bool {
    addr <= limit && half_of(len) - 1 <= limit - addr && attempt_size(limit, len, addr, page_size)
        >= SVM_MIN_VM_SIZE
}

/// The next attempt of the search that stands at `len` bytes and address
/// `addr`: the attempt there where it is worth making, else the first attempt
/// at half the length, and so on down to the least length worth reserving.
pub open spec fn svm_next_attempt(base: u64, limit: u64, len: u64, addr: u64, page_size: u64)
    -> SvmInitStep
    decreases len,
{
    if len < SVM_MIN_VM_SIZE {
        SvmInitStep::Done(HsakmtStatus::HSAKMT_STATUS_ERROR)
    } else if attempt_possible(limit, len, addr, page_size) {
        SvmInitStep::Reserve {
            cursor: SvmReserveCursor { base, limit, len, addr },
            map_size: attempt_size(limit, len, addr, page_size) as u64,
        }
    } else {
        svm_next_attempt(base, limit, half_of(len) as u64, base, page_size)
    }
}

/// The next attempt of the search that stands at `len` bytes and address
/// `addr`.
pub fn svm_reserve_next(base: u64, limit: u64, len: u64, addr: u64, page_size: u64) -> (step:
    SvmInitStep)
    ensures
        step == svm_next_attempt(base, limit, len, addr, page_size),
{
    let mut cur_len: u64 = len;
    let mut cur_addr: u64 = addr;
    while cur_len >= SVM_MIN_VM_SIZE
        invariant
            svm_next_attempt(base, limit, cur_len, cur_addr, page_size) == svm_next_attempt(
                base,
                limit,
                len,
                addr,
                page_size,
            ),
        decreases cur_len,
    {
        let half: u64 = cur_len / 2 + cur_len % 2;
        if cur_addr <= limit && half - 1 <= limit - cur_addr {
            let room: u64 = limit - cur_addr;
            let raw: u64 = if cur_len - 1 <= room {
                cur_len
            } else {
                room + 1
            };
            let map_size: u64 = if page_size == 0 {
                raw
            } else {
                align_down(raw, page_size)
            };
            if map_size >= SVM_MIN_VM_SIZE {
                return SvmInitStep::Reserve {
                    cursor: SvmReserveCursor { base, limit, len: cur_len, addr: cur_addr },
                    map_size,
                };
            }
        }
        cur_len = half;
        cur_addr = base;
    }
    SvmInitStep::Done(HsakmtStatus::HSAKMT_STATUS_ERROR)
}

/// The number of bytes from `base` to `limit`, as far as a `u64` holds it.
pub open spec fn range_len(base: u64, limit: u64) -> u64 {
    if limit - base + 1 <= u64::MAX {
        (limit - base + 1) as u64
    } else {
        u64::MAX
    }
}

/// The first attempt to reserve address space between `base` and `limit`, or
/// the end of it where `base` does not lie below `limit`.
pub open spec fn svm_reserve_start(base: u64, limit: u64, page_size: u64) -> SvmInitStep {
    if base >= limit {
        SvmInitStep::Done(HsakmtStatus::HSAKMT_STATUS_ERROR)
    } else {
        svm_next_attempt(base, limit, range_len(base, limit), base, page_size)
    }
}

/// What `init_svm_apertures` answers: nothing is left to do where the
/// apertures were set up before, or where they cannot be; the whole range is
/// probed where it reaches the top of the canonical address space, unless
/// address space is to be reserved in any case or the GPUs need more than a
/// page's alignment; and address space is reserved otherwise.
pub open spec fn svm_init_step(
    fmm: &HsaKmtFmmGlobal,
    base: u64,
    limit: u64,
    align: u32,
    page_size: u64,
) -> SvmInitStep {
    if fmm.dgpu_shared_aperture_limit != 0 {
        SvmInitStep::Done(HsakmtStatus::HSAKMT_STATUS_SUCCESS)
    } else if fmm.svm.state == SvmState::Error || svm_aligned_base(base) > u64::MAX
        || svm_aligned_limit(limit) < 0 {
        SvmInitStep::Done(HsakmtStatus::HSAKMT_STATUS_ERROR)
    } else if svm_aligned_limit(limit) >= SVM_CANONICAL_TOP && !fmm.svm.reserve_svm && align
        <= page_size {
        SvmInitStep::ProbeDirect
    } else {
        svm_reserve_start(
            svm_aligned_base(base) as u64,
            svm_aligned_limit(limit) as u64,
            page_size,
        )
    }
}

/// Whether the two states differ in nothing but the shared virtual memory's
/// apertures and state, and the range that is kept of them.
pub open spec fn same_but_svm(a: &HsaKmtFmmGlobal, b: &HsaKmtFmmGlobal) -> bool {
    &&& a.drm_render_fds == b.drm_render_fds
    &&& a.gpu_mem == b.gpu_mem
    &&& a.gpu_mem_count == b.gpu_mem_count
    &&& a.all_gpu_id_array == b.all_gpu_id_array
    &&& a.all_gpu_id_array_sizea == b.all_gpu_id_array_sizea
    &&& a.cpuvm_aperture == b.cpuvm_aperture
    &&& a.svm.userptr_for_paged_mem == b.svm.userptr_for_paged_mem
    &&& a.svm.check_userptr == b.svm.check_userptr
    &&& a.svm.reserve_svm == b.svm.reserve_svm
    &&& a.svm.disable_cache == b.svm.disable_cache
    &&& a.svm.alignment_order == b.svm.alignment_order
}

/// Sets the default aperture up over the whole range from `base` to `limit`,
/// with areas that the system places, and leaves the alternate aperture
/// without a window. It does so only where no more than a page's alignment is
/// asked for.
pub fn init_mmap_apertures(
    fmm: &mut HsaKmtFmmGlobal,
    base: u64,
    limit: u64,
    align: u32,
    guard_pages: u32,
    page_size: u64,
) -> (status: HsakmtStatus)
    requires
        old(fmm).wf(),
    ensures
        final(fmm).wf(),
        same_but_svm(final(fmm), old(fmm)),
        final(fmm).svm.state == old(fmm).svm.state,
        final(fmm).dgpu_shared_aperture_base == old(fmm).dgpu_shared_aperture_base,
        final(fmm).dgpu_shared_aperture_limit == old(fmm).dgpu_shared_aperture_limit,
        status == (if align <= page_size {
            HsakmtStatus::HSAKMT_STATUS_SUCCESS
        } else {
            HsakmtStatus::HSAKMT_STATUS_ERROR
        }),
        align > page_size ==> *final(fmm) == *old(fmm),
        align <= page_size ==> final(fmm).svm.default_aperture.is_fresh(
            base,
            limit,
            align as u64,
            guard_pages,
            true,
            manageable_aperture_ops_t::MmapBacked,
        ) && final(fmm).svm.coherent_aperture.is_fresh(
            0,
            0,
            0,
            0,
            false,
            manageable_aperture_ops_t::ReservedRange,
        ),
{
    if align as u64 > page_size {
        return HsakmtStatus::HSAKMT_STATUS_ERROR;
    }
    fmm.svm.default_aperture = manageable_aperture::with_window(
        base,
        limit,
        align as u64,
        guard_pages,
        true,
        manageable_aperture_ops_t::MmapBacked,
    );
    fmm.svm.coherent_aperture = manageable_aperture::new();
    HsakmtStatus::HSAKMT_STATUS_SUCCESS
}

/// Starts setting the shared apertures up for GPUs that address the range
/// from `base` to `limit`, and says what is to be done next.
///
/// Where the apertures were set up before, by this process or the one it
/// came from, nothing changes.
pub fn init_svm_apertures(
    fmm: &mut HsaKmtFmmGlobal,
    base: u64,
    limit: u64,
    align: u32,
    guard_pages: u32,
    page_size: u64,
) -> (step: SvmInitStep)
    requires
        old(fmm).wf(),
    ensures
        final(fmm).wf(),
        step == svm_init_step(old(fmm), base, limit, align, page_size),
        same_but_svm(final(fmm), old(fmm)),
        final(fmm).dgpu_shared_aperture_base == old(fmm).dgpu_shared_aperture_base,
        final(fmm).dgpu_shared_aperture_limit == old(fmm).dgpu_shared_aperture_limit,
        old(fmm).dgpu_shared_aperture_limit != 0 ==> *final(fmm) == *old(fmm),
        step == SvmInitStep::ProbeDirect ==> final(fmm).svm.state == old(fmm).svm.state,
        step == SvmInitStep::ProbeDirect ==> final(fmm).svm.default_aperture.is_fresh(
            svm_aligned_base(base) as u64,
            svm_aligned_limit(limit) as u64,
            align as u64,
            guard_pages,
            true,
            manageable_aperture_ops_t::MmapBacked,
        ) && final(fmm).svm.coherent_aperture.is_fresh(
            0,
            0,
            0,
            0,
            false,
            manageable_aperture_ops_t::ReservedRange,
        ),
        step != SvmInitStep::ProbeDirect
            ==> final(fmm).svm.default_aperture == old(fmm).svm.default_aperture
                && final(fmm).svm.coherent_aperture == old(fmm).svm.coherent_aperture,
        step is Reserve ==> final(fmm).svm.state == old(fmm).svm.state,
        step == SvmInitStep::Done(HsakmtStatus::HSAKMT_STATUS_ERROR) ==> final(fmm).svm.state
            == SvmState::Error,
        step == SvmInitStep::Done(HsakmtStatus::HSAKMT_STATUS_SUCCESS) ==> final(fmm).svm.state
            == old(fmm).svm.state,
{
    if fmm.dgpu_shared_aperture_limit != 0 {
        return SvmInitStep::Done(HsakmtStatus::HSAKMT_STATUS_SUCCESS);
    }
    if fmm.svm.state == SvmState::Error {
        return SvmInitStep::Done(HsakmtStatus::HSAKMT_STATUS_ERROR);
    }
    let (b, l) = match svm_align_range(base, limit) {
        Some(range) => range,
        None => {
            fmm.svm.state = SvmState::Error;
            return SvmInitStep::Done(HsakmtStatus::HSAKMT_STATUS_ERROR);
        },
    };
    if l >= SVM_CANONICAL_TOP && !fmm.svm.reserve_svm {
        let status = init_mmap_apertures(fmm, b, l, align, guard_pages, page_size);
        if status == HsakmtStatus::HSAKMT_STATUS_SUCCESS {
            return SvmInitStep::ProbeDirect;
        }
    }
    let step = svm_reserve_first(b, l, page_size);
    if step == SvmInitStep::Done(HsakmtStatus::HSAKMT_STATUS_ERROR) {
        fmm.svm.state = SvmState::Error;
    }
    step
}

/// The first attempt to reserve address space between `base` and `limit`.
pub fn svm_reserve_first(base: u64, limit: u64, page_size: u64) -> (step: SvmInitStep)
    ensures
        step == svm_reserve_start(base, limit, page_size),
        !(step is ProbeDirect),
        step is Done ==> step == SvmInitStep::Done(HsakmtStatus::HSAKMT_STATUS_ERROR),
{
    proof {
        lemma_next_attempt_shape(base, limit, range_len(base, limit), base, page_size);
    }
    if base >= limit {
        return SvmInitStep::Done(HsakmtStatus::HSAKMT_STATUS_ERROR);
    }
    let room: u64 = limit - base;
    let len: u64 = if room == u64::MAX {
        u64::MAX
    } else {
        room + 1
    };
    svm_reserve_next(base, limit, len, base, page_size)
}

/// The search either asks for another attempt or ends in an error; what it
/// asks for is no less than the least worth reserving, and lies at or below
/// `limit`.
pub proof fn lemma_next_attempt_shape(base: u64, limit: u64, len: u64, addr: u64, page_size: u64)
    ensures
        !(svm_next_attempt(base, limit, len, addr, page_size) is ProbeDirect),
        svm_next_attempt(base, limit, len, addr, page_size) is Done ==> svm_next_attempt(
            base,
            limit,
            len,
            addr,
            page_size,
        ) == SvmInitStep::Done(HsakmtStatus::HSAKMT_STATUS_ERROR),
        svm_next_attempt(base, limit, len, addr, page_size) is Reserve ==> {
            let step = svm_next_attempt(base, limit, len, addr, page_size);
            &&& step->cursor.base == base
            &&& step->cursor.limit == limit
            &&& step->cursor.len <= len
            &&& step->cursor.len >= SVM_MIN_VM_SIZE
            &&& step->cursor.addr <= limit
            &&& step->map_size >= SVM_MIN_VM_SIZE
            &&& step->map_size - 1 <= limit - step->cursor.addr
        },
    decreases len,
{
    if len < SVM_MIN_VM_SIZE {
    } else if attempt_possible(limit, len, addr, page_size) {
        if page_size != 0 {
            let raw = if len <= limit - addr + 1 {
                len as int
            } else {
                limit - addr + 1
            };
            lemma_align_down(raw, page_size as int);
        }
    } else {
        lemma_next_attempt_shape(base, limit, half_of(len) as u64, base, page_size);
    }
}

/// Takes the outcome of the probe that `SvmInitStep::ProbeDirect` asked for.
///
/// Where a page could be allocated in an aperture with a window, the default
/// aperture stays as it is and serves both kinds of memory. Otherwise the
/// aperture loses its window, and address space is reserved in the range that
/// it had.
pub fn init_mmap_apertures_probed(fmm: &mut HsaKmtFmmGlobal, probed: bool, page_size: u64) -> (step:
    SvmInitStep)
    requires
        old(fmm).wf(),
    ensures
        final(fmm).wf(),
        same_but_svm(final(fmm), old(fmm)),
        final(fmm).svm.coherent_aperture == old(fmm).svm.coherent_aperture,
        probed && old(fmm).svm.default_aperture.is_valid() ==> {
            &&& step == SvmInitStep::Done(HsakmtStatus::HSAKMT_STATUS_SUCCESS)
            &&& final(fmm).svm.state == SvmState::DirectMapped
            &&& final(fmm).svm.default_aperture == old(fmm).svm.default_aperture
            &&& final(fmm).dgpu_shared_aperture_base == old(fmm).svm.default_aperture.base
            &&& final(fmm).dgpu_shared_aperture_limit == old(fmm).svm.default_aperture.limit
            &&& final(fmm).dgpu_shared_aperture_limit != 0
        },
        !(probed && old(fmm).svm.default_aperture.is_valid()) ==> {
            &&& step == svm_reserve_start(
                old(fmm).svm.default_aperture.base,
                old(fmm).svm.default_aperture.limit,
                page_size,
            )
            &&& final(fmm).svm.default_aperture.is_fresh(
                0,
                0,
                0,
                0,
                false,
                manageable_aperture_ops_t::ReservedRange,
            )
            &&& final(fmm).svm.state == (if step is Done {
                SvmState::Error
            } else {
                old(fmm).svm.state
            })
            &&& final(fmm).dgpu_shared_aperture_base == old(fmm).dgpu_shared_aperture_base
            &&& final(fmm).dgpu_shared_aperture_limit == old(fmm).dgpu_shared_aperture_limit
        },
{
    let base: u64 = fmm.svm.default_aperture.base;
    let limit: u64 = fmm.svm.default_aperture.limit;
    if probed && base != 0 && limit != 0 && base < limit {
        fmm.svm.state = SvmState::DirectMapped;
        fmm.dgpu_shared_aperture_base = base;
        fmm.dgpu_shared_aperture_limit = limit;
        return SvmInitStep::Done(HsakmtStatus::HSAKMT_STATUS_SUCCESS);
    }
    fmm.svm.default_aperture = manageable_aperture::new();
    let step = svm_reserve_first(base, limit, page_size);
    if step == SvmInitStep::Done(HsakmtStatus::HSAKMT_STATUS_ERROR) {
        fmm.svm.state = SvmState::Error;
    }
    step
}

/// What an attempt to reserve address space came to.
#[derive(Debug, Copy, Clone, PartialEq, Eq, Structural)]
pub enum SvmVerdict {
    /// The block from `base` to `limit` is taken. `unmap` is the end of what
    /// was reserved that no GPU can address.
    Taken { base: u64, limit: u64, unmap: vm_area_t },
    /// The search goes on with `step`. `unmap` is what was reserved in vain.
    Next { step: SvmInitStep, unmap: vm_area_t },
}

/// The verdict on an attempt that asked for `map_size` bytes and got them at
/// `ret_addr`, or got nothing.
///
/// Where the system gave nothing, the search goes on at half the length.
/// Where at least half of the length lies at or below `limit`, the block is
/// taken if the least worth reserving does so too, and the search goes on at
/// half the length if not. Otherwise the search goes on with the same length
/// one huge page further up.
pub open spec fn svm_verdict(
    cursor: SvmReserveCursor,
    map_size: u64,
    ret_addr: Option<u64>,
    page_size: u64,
) -> SvmVerdict {
    let shorter = svm_next_attempt(
        cursor.base,
        cursor.limit,
        half_of(cursor.len) as u64,
        cursor.base,
        page_size,
    );
    if ret_addr is None || ret_addr->Some_0 == 0 || map_size == 0 {
        SvmVerdict::Next {
            step: shorter,
            unmap: vm_area_t {
                start: if ret_addr is Some {
                    ret_addr->Some_0
                } else {
                    0
                },
                size: if ret_addr is Some {
                    map_size
                } else {
                    0
                },
            },
        }
    } else if ret_addr->Some_0 <= cursor.limit && half_of(cursor.len) - 1 <= cursor.limit
        - ret_addr->Some_0 {
        if cursor.limit - ret_addr->Some_0 >= SVM_MIN_VM_SIZE - 1 && map_size >= SVM_MIN_VM_SIZE {
            if map_size - 1 > cursor.limit - ret_addr->Some_0 {
                SvmVerdict::Taken {
                    base: ret_addr->Some_0,
                    limit: cursor.limit,
                    unmap: if cursor.limit < u64::MAX {
                        vm_area_t {
                            start: (cursor.limit + 1) as u64,
                            size: (map_size - 1 - (cursor.limit - ret_addr->Some_0)) as u64,
                        }
                    } else {
                        vm_area_t { start: ret_addr->Some_0, size: 0 }
                    },
                }
            } else {
                SvmVerdict::Taken {
                    base: ret_addr->Some_0,
                    limit: (ret_addr->Some_0 + map_size - 1) as u64,
                    unmap: vm_area_t { start: ret_addr->Some_0, size: 0 },
                }
            }
        } else {
            SvmVerdict::Next {
                step: shorter,
                unmap: vm_area_t { start: ret_addr->Some_0, size: map_size },
            }
        }
    } else {
        SvmVerdict::Next {
            step: if cursor.addr + GPU_HUGE_PAGE_SIZE <= u64::MAX {
                svm_next_attempt(
                    cursor.base,
                    cursor.limit,
                    cursor.len,
                    (cursor.addr + GPU_HUGE_PAGE_SIZE) as u64,
                    page_size,
                )
            } else {
                shorter
            },
            unmap: vm_area_t { start: ret_addr->Some_0, size: map_size },
        }
    }
}

/// Judges an attempt to reserve address space.
pub fn svm_reserve_judge(
    cursor: SvmReserveCursor,
    map_size: u64,
    ret_addr: Option<u64>,
    page_size: u64,
) -> (verdict: SvmVerdict)
    ensures
        verdict == svm_verdict(cursor, map_size, ret_addr, page_size),
{
    let half: u64 = cursor.len / 2 + cursor.len % 2;
    let ret: u64 = match ret_addr {
        Some(a) => a,
        None => {
            return SvmVerdict::Next {
                step: svm_reserve_next(cursor.base, cursor.limit, half, cursor.base, page_size),
                unmap: vm_area_t { start: 0, size: 0 },
            };
        },
    };
    if ret == 0 || map_size == 0 {
        return SvmVerdict::Next {
            step: svm_reserve_next(cursor.base, cursor.limit, half, cursor.base, page_size),
            unmap: vm_area_t { start: ret, size: map_size },
        };
    }
    if ret <= cursor.limit && (half == 0 || half - 1 <= cursor.limit - ret) {
        let room: u64 = cursor.limit - ret;
        if room >= SVM_MIN_VM_SIZE - 1 && map_size >= SVM_MIN_VM_SIZE {
            if map_size - 1 > room {
                SvmVerdict::Taken {
                    base: ret,
                    limit: cursor.limit,
                    unmap: if cursor.limit < u64::MAX {
                        vm_area_t { start: cursor.limit + 1, size: map_size - 1 - room }
                    } else {
                        vm_area_t { start: ret, size: 0 }
                    },
                }
            } else {
                SvmVerdict::Taken {
                    base: ret,
                    limit: ret + (map_size - 1),
                    unmap: vm_area_t { start: ret, size: 0 },
                }
            }
        } else {
            SvmVerdict::Next {
                step: svm_reserve_next(cursor.base, cursor.limit, half, cursor.base, page_size),
                unmap: vm_area_t { start: ret, size: map_size },
            }
        }
    } else {
        let step = match cursor.addr.checked_add(GPU_HUGE_PAGE_SIZE) {
            Some(next) => svm_reserve_next(cursor.base, cursor.limit, cursor.len, next, page_size),
            None => svm_reserve_next(cursor.base, cursor.limit, half, cursor.base, page_size),
        };
        SvmVerdict::Next { step, unmap: vm_area_t { start: ret, size: map_size } }
    }
}

/// The first address of the alternate aperture in the block that starts at
/// `base`.
pub open spec fn svm_alt_base(base: u64) -> int {
    align_up_spec(base as int, SVM_ALT_ALIGN as int)
}

/// The size of the alternate aperture in the block from `base` to `limit`: a
/// quarter of the block.
pub open spec fn svm_alt_size(base: u64, limit: u64) -> int {
    align_up_spec((limit - base + 1) / 4, SVM_ALT_ALIGN as int)
}

/// Takes what an attempt to reserve address space came to, and says what is
/// to be done next and what is to be unmapped first.
///
/// Where the block is taken, the alternate aperture gets its first quarter
/// and the default aperture the rest; both carve their areas out of the
/// block.
pub fn init_svm_apertures_reserved(
    fmm: &mut HsaKmtFmmGlobal,
    cursor: SvmReserveCursor,
    map_size: u64,
    ret_addr: Option<u64>,
    align: u32,
    guard_pages: u32,
    page_size: u64,
) -> (r: (SvmInitStep, vm_area_t))
    requires
        old(fmm).wf(),
    ensures
        final(fmm).wf(),
        same_but_svm(final(fmm), old(fmm)),
        match svm_verdict(cursor, map_size, ret_addr, page_size) {
            SvmVerdict::Next { step, unmap } => {
                &&& r == (step, unmap)
                &&& final(fmm).svm.default_aperture == old(fmm).svm.default_aperture
                &&& final(fmm).svm.coherent_aperture == old(fmm).svm.coherent_aperture
                &&& final(fmm).dgpu_shared_aperture_base == old(fmm).dgpu_shared_aperture_base
                &&& final(fmm).dgpu_shared_aperture_limit == old(fmm).dgpu_shared_aperture_limit
                &&& final(fmm).svm.state == (if step is Done {
                    SvmState::Error
                } else {
                    old(fmm).svm.state
                })
            },
            SvmVerdict::Taken { base, limit, unmap } => {
                &&& r == (SvmInitStep::Done(HsakmtStatus::HSAKMT_STATUS_SUCCESS), unmap)
                &&& final(fmm).svm.state == SvmState::ReservedRange
                &&& final(fmm).dgpu_shared_aperture_base == base
                &&& final(fmm).dgpu_shared_aperture_limit == limit
                &&& final(fmm).dgpu_shared_aperture_limit != 0
                &&& final(fmm).svm.coherent_aperture.is_fresh(
                    svm_alt_base(base) as u64,
                    (svm_alt_base(base) + svm_alt_size(base, limit) - 1) as u64,
                    align as u64,
                    guard_pages,
                    true,
                    manageable_aperture_ops_t::ReservedRange,
                )
                &&& final(fmm).svm.default_aperture.is_fresh(
                    (svm_alt_base(base) + svm_alt_size(base, limit)) as u64,
                    limit,
                    align as u64,
                    guard_pages,
                    true,
                    manageable_aperture_ops_t::ReservedRange,
                )
                &&& base <= svm_alt_base(base)
                &&& svm_alt_base(base) + svm_alt_size(base, limit) < limit
            },
        },
{
    match svm_reserve_judge(cursor, map_size, ret_addr, page_size) {
        SvmVerdict::Next { step, unmap } => {
            proof {
                lemma_next_attempt_shape(
                    cursor.base,
                    cursor.limit,
                    half_of(cursor.len) as u64,
                    cursor.base,
                    page_size,
                );
                if cursor.addr + GPU_HUGE_PAGE_SIZE <= u64::MAX {
                    lemma_next_attempt_shape(
                        cursor.base,
                        cursor.limit,
                        cursor.len,
                        (cursor.addr + GPU_HUGE_PAGE_SIZE) as u64,
                        page_size,
                    );
                }
            }
            if step == SvmInitStep::Done(HsakmtStatus::HSAKMT_STATUS_ERROR) {
                fmm.svm.state = SvmState::Error;
            }
            (step, unmap)
        },
        SvmVerdict::Taken { base, limit, unmap } => {
            proof {
                lemma_align_up(base as int, SVM_ALT_ALIGN as int);
                lemma_align_up((limit - base + 1) / 4, SVM_ALT_ALIGN as int);
            }
            let room: u64 = limit - base;
            let quarter: u64 = if room == u64::MAX {
                0x4000_0000_0000_0000
            } else {
                (room + 1) / 4
            };
            let alt_base: u64 = match align_up_checked(base, SVM_ALT_ALIGN) {
                Some(a) => a,
                None => base,
            };
            let alt_size: u64 = match align_up_checked(quarter, SVM_ALT_ALIGN) {
                Some(a) => a,
                None => quarter,
            };
            fmm.svm.coherent_aperture = manageable_aperture::with_window(
                alt_base,
                alt_base + alt_size - 1,
                align as u64,
                guard_pages,
                true,
                manageable_aperture_ops_t::ReservedRange,
            );
            fmm.svm.default_aperture = manageable_aperture::with_window(
                alt_base + alt_size,
                limit,
                align as u64,
                guard_pages,
                true,
                manageable_aperture_ops_t::ReservedRange,
            );
            fmm.dgpu_shared_aperture_base = base;
            fmm.dgpu_shared_aperture_limit = limit;
            fmm.svm.state = SvmState::ReservedRange;
            (SvmInitStep::Done(HsakmtStatus::HSAKMT_STATUS_SUCCESS), unmap)
        },
    }
}

/// Setting the shared apertures up a second time changes nothing. Once they
/// are set up, the state holds the last address of their range, which is not
/// 0; `init_svm_apertures` then leaves the state as it finds it, whatever
/// range it is called with, and answers that nothing is left to do.
pub proof fn lemma_svm_init_idempotent(
    fmm: &HsaKmtFmmGlobal,
    base1: u64,
    limit1: u64,
    align1: u32,
    base2: u64,
    limit2: u64,
    align2: u32,
    page_size: u64,
)
    requires
        fmm.dgpu_shared_aperture_limit != 0,
    ensures
        svm_init_step(fmm, base1, limit1, align1, page_size) == SvmInitStep::Done(
            HsakmtStatus::HSAKMT_STATUS_SUCCESS,
        ),
        svm_init_step(fmm, base2, limit2, align2, page_size) == svm_init_step(
            fmm,
            base1,
            limit1,
            align1,
            page_size,
        ),
{
}

} // verus!
