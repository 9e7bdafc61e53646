//! Setting the apertures of a process up: the record of each GPU, the windows
//! that the kernel driver reports for it, the range that the GPUs share, and
//! who can map whose memory.

use vstd::prelude::*;
use vstd::string::StringSliceAdditionalSpecFns;
use crate::fmm::fmm_set_memory_policy;
use crate::fmm_globals::{
    all_gpu_mem_wf, aperture_t, first_index, gpu_ids, gpu_mem_find, gpu_mem_find_by_node_id,
    gpu_mem_t, gpu_node_ids, hsakmt_fmm_global_all_gpu_id_array_set,
    hsakmt_fmm_global_gpu_mem_set, lemma_first_index, manageable_aperture,
    manageable_aperture_ops_t,
    svm_t, vm_object, HsaKmtFmmGlobal, SvmState, DRM_FIRST_RENDER_NODE, DRM_LAST_RENDER_NODE,
};
use crate::globals::HsaKmtGlobal;
use crate::hsakmttypes::{
    bit_field_u32, gfx_version_full, node_props_t, HsaEngineId, HsaIoLinkProperties, HsaMemFlags,
    HsaNodeProperties, HsakmtStatus, GFX_VERSION_VEGA10, HSA_GET_GFX_VERSION_FULL,
    HSA_MEM_FLAG_HOST_ACCESS, HSA_MEM_FLAG_NON_PAGED,
};
use crate::topology::HsaKmtTopologyGlobal;
use crate::kfd_ioctl::{
    kfd_ioctl_acquire_vm_args, kfd_ioctl_get_process_apertures_new_args,
    kfd_ioctl_set_memory_policy_args, kfd_process_device_apertures,
    KFD_IOC_ALLOC_MEM_FLAGS_COHERENT, KFD_IOC_ALLOC_MEM_FLAGS_MMIO_REMAP,
    KFD_IOC_ALLOC_MEM_FLAGS_WRITABLE, KFD_IOC_CACHE_POLICY_COHERENT,
    KFD_IOC_CACHE_POLICY_NONCOHERENT,
};
use crate::libhsakmt::ErrnoCodes;
use crate::properties::{decimal, parse_decimal, trim_range, trimmed};
use crate::rbtree::{
    has_start, lemma_ordered_disjoint, lemma_rank_parts, lemma_rank_unique, parts_at, rank,
    rbtree_init,
};

verus! {

/// The alignment that the VM of device `device_id` needs: the size of a
/// page.
pub fn get_vm_alignment(global: &HsaKmtGlobal, device_id: u32) -> (align: u32)
    ensures
        align == global.hsakmt_page_size as u32,
{
    global.hsakmt_page_size as u32
}

/// Sets the aperture for memory handles up. There is none to set up, so it
/// always succeeds.
pub fn init_mem_handle_aperture(align: u32, guard_pages: u32) -> (found: bool)
    ensures
        found,
{
    true
}

/// Whether a GPU with engine `EngineId` needs shared virtual memory: every
/// discrete GPU does, and every GPU from the Vega10 generation on.
#[allow(non_snake_case)]
pub fn hsakmt_topology_is_svm_needed(EngineId: &HsaEngineId, is_dgpu: bool) -> (needed: bool)
    ensures
        needed == (is_dgpu || gfx_version_full(*EngineId) >= GFX_VERSION_VEGA10),
{
    is_dgpu || HSA_GET_GFX_VERSION_FULL(EngineId) >= GFX_VERSION_VEGA10
}

/// What is to be done to have the descriptor of a DRM render node.
#[derive(Debug, Copy, Clone, PartialEq, Eq, Structural)]
pub enum RenderDeviceStep {
    /// The minor number names no render node; the number is the error.
    OutOfRange(i32),
    /// The node was opened before, and this is its descriptor.
    Cached(i32),
    /// The node has to be opened; `index` is where its descriptor is kept.
    Open { index: usize },
}

/// What `hsakmt_open_drm_render_device` answers for minor number `minor`.
pub open spec fn render_device_step(fds: Seq<i32>, minor: i32, einval: i32) -> RenderDeviceStep {
    if minor < DRM_FIRST_RENDER_NODE || minor > DRM_LAST_RENDER_NODE {
        RenderDeviceStep::OutOfRange(
            if einval > i32::MIN {
                (-einval) as i32
            } else {
                einval
            },
        )
    } else if fds[minor - DRM_FIRST_RENDER_NODE] != 0 {
        RenderDeviceStep::Cached(fds[minor - DRM_FIRST_RENDER_NODE])
    } else {
        RenderDeviceStep::Open { index: (minor - DRM_FIRST_RENDER_NODE) as usize }
    }
}

/// Says how to come by the descriptor of the render node with minor number
/// `minor`. A node is opened once in the life of a process.
pub fn hsakmt_open_drm_render_device(fmm: &HsaKmtFmmGlobal, minor: i32, codes: &ErrnoCodes) -> (step:
    RenderDeviceStep)
    requires
        fmm.wf(),
    ensures
        step == render_device_step(fmm.drm_render_fds@, minor, codes.einval),
{
    if minor < 128 || minor > 255 {
        let error: i32 = if codes.einval > i32::MIN {
            -codes.einval
        } else {
            codes.einval
        };
        return RenderDeviceStep::OutOfRange(error);
    }
    let index: usize = (minor - 128) as usize;
    if fmm.drm_render_fds[index] != 0 {
        RenderDeviceStep::Cached(fmm.drm_render_fds[index])
    } else {
        RenderDeviceStep::Open { index }
    }
}

/// Why a render node could not be opened.
#[derive(Debug, Copy, Clone, PartialEq, Eq, Structural)]
pub enum RenderOpenFailure {
    /// The node does not exist or may not be used: the GPU is left out.
    Unsupported,
    /// The user may not open the node, as where they are not in the group
    /// that owns it.
    AccessDenied,
    /// Anything else.
    Other,
}

/// Tells the errors apart that opening a render node can end in.
pub fn render_open_failure(errno: i32, codes: &ErrnoCodes) -> (failure: RenderOpenFailure)
    ensures
        failure == (if errno == codes.enoent || errno == codes.eperm {
            RenderOpenFailure::Unsupported
        } else if errno == codes.eacces {
            RenderOpenFailure::AccessDenied
        } else {
            RenderOpenFailure::Other
        }),
{
    if errno == codes.enoent || errno == codes.eperm {
        RenderOpenFailure::Unsupported
    } else if errno == codes.eacces {
        RenderOpenFailure::AccessDenied
    } else {
        RenderOpenFailure::Other
    }
}

/// Takes what opening the render node at `index` gave: the descriptor `fd`,
/// or a negative number and the system's error `errno`. Hands back the
/// descriptor, which is kept from now on, or the error as a negative number.
pub fn hsakmt_open_drm_render_device_opened(
    fmm: &mut HsaKmtFmmGlobal,
    index: usize,
    fd: i32,
    errno: i32,
) -> (r: i32)
    requires
        old(fmm).wf(),
        index < 128,
    ensures
        final(fmm).wf(),
        fd < 0 ==> *final(fmm) == *old(fmm) && r == (if errno > 0 {
            (-errno) as i32
        } else {
            -1i32
        }),
        fd >= 0 ==> r == fd && final(fmm).drm_render_fds@ == old(fmm).drm_render_fds@.update(
            index as int,
            fd,
        )
            && final(fmm).svm == old(fmm).svm
            && final(fmm).gpu_mem == old(fmm).gpu_mem
            && final(fmm).cpuvm_aperture == old(fmm).cpuvm_aperture
            && final(fmm).gpu_mem_count == old(fmm).gpu_mem_count
            && final(fmm).all_gpu_id_array == old(fmm).all_gpu_id_array
            && final(fmm).all_gpu_id_array_sizea == old(fmm).all_gpu_id_array_sizea
            && final(fmm).dgpu_shared_aperture_base == old(fmm).dgpu_shared_aperture_base
            && final(fmm).dgpu_shared_aperture_limit == old(fmm).dgpu_shared_aperture_limit,
{
    if fd < 0 {
        return if errno > 0 {
            -errno
        } else {
            -1
        };
    }
    fmm.drm_render_fd_set(index, fd);
    fd
}

/// Whether the node with GPU `gpu_id` can be used, given what opening its
/// render node came to: a node without a GPU always can, one with a GPU
/// where the render node gave a descriptor.
pub fn topology_sysfs_check_node_supported(gpu_id: u32, render_fd: i32) -> (supported: bool)
    ensures
        supported == (gpu_id == 0 || render_fd > 0),
{
    gpu_id == 0 || render_fd > 0
}

/// Whether `gpu` is the record that the initializer makes for the GPU on node
/// `node_id`: what the node's properties say of it, itself as its only peer,
/// and apertures without windows that are aligned to a page.
pub open spec fn is_record_of_node(
    gpu: &gpu_mem_t,
    node_id: u32,
    props: &HsaNodeProperties,
    fd: i32,
    page_size: u64,
    vm_alignment: u32,
    guard_pages: u32,
) -> bool {
    &&& gpu.gpu_id == props.KFDGpuID
    &&& gpu.device_id == props.DeviceId
    &&& gpu.node_id == node_id
    &&& gpu.local_mem_size == props.LocalMemSize
    &&& gpu.EngineId == (HsaEngineId {
        uCode: 0,
        Major: props.EngineId.Major,
        Minor: props.EngineId.Minor,
        Stepping: props.EngineId.Stepping,
    })
    &&& gpu.lds_aperture == (aperture_t { base: 0, limit: 0 })
    &&& gpu.scratch_aperture == (aperture_t { base: 0, limit: 0 })
    &&& gpu.mmio_aperture == (aperture_t { base: 0, limit: 0 })
    &&& gpu.scratch_physical.is_fresh(
        0,
        0,
        page_size,
        0,
        false,
        manageable_aperture_ops_t::ReservedRange,
    )
    &&& gpu.gpuvm_aperture.is_fresh(
        0,
        0,
        vm_alignment as u64,
        guard_pages,
        false,
        manageable_aperture_ops_t::ReservedRange,
    )
    &&& gpu.drm_render_fd == fd
    &&& gpu.drm_render_minor == props.DrmRenderMinor as u32
    &&& gpu.usable_peer_id_array@ == seq![props.KFDGpuID]
    &&& gpu.usable_peer_id_num == 1
}

/// The record of the GPU on node `node_id`, whose render node has descriptor
/// `fd`.
pub fn gpu_mem_init_node(
    node_id: u32,
    props: &HsaNodeProperties,
    fd: i32,
    page_size: u64,
    vm_alignment: u32,
    guard_pages: u32,
) -> (gpu: gpu_mem_t)
    ensures
        gpu.wf(),
        is_record_of_node(&gpu, node_id, props, fd, page_size, vm_alignment, guard_pages),
{
    let mut peers: Vec<u32> = Vec::new();
    peers.push(props.KFDGpuID);
    gpu_mem_t {
        gpu_id: props.KFDGpuID,
        device_id: props.DeviceId as u32,
        node_id,
        local_mem_size: props.LocalMemSize,
        EngineId: HsaEngineId {
            uCode: 0,
            Major: props.EngineId.Major,
            Minor: props.EngineId.Minor,
            Stepping: props.EngineId.Stepping,
        },
        lds_aperture: aperture_t { base: 0, limit: 0 },
        scratch_aperture: aperture_t { base: 0, limit: 0 },
        mmio_aperture: aperture_t { base: 0, limit: 0 },
        scratch_physical: manageable_aperture::with_window(
            0,
            0,
            page_size,
            0,
            false,
            manageable_aperture_ops_t::ReservedRange,
        ),
        gpuvm_aperture: manageable_aperture::with_window(
            0,
            0,
            vm_alignment as u64,
            guard_pages,
            false,
            manageable_aperture_ops_t::ReservedRange,
        ),
        drm_render_fd: fd,
        usable_peer_id_num: 1,
        usable_peer_id_array: peers,
        drm_render_minor: props.DrmRenderMinor as u32,
    }
}

/// The range that the GPUs share, as far as it is known: the first and the
/// last address that every GPU seen so far can use, and the greatest
/// alignment that one of them needs. A `limit` of 0 says that no GPU was seen.
#[derive(Debug, Copy, Clone, PartialEq, Eq, Structural)]
pub struct SvmRange {
    pub base: u64,
    pub limit: u64,
    pub alignment: u32,
}

/// Whether an address lies in the canonical address space.
pub open spec fn is_canonical(address: u64) -> bool {
    address < 0x8000_0000_0000
}

/// The shared range once the GPU of `record` is taken in. A GPU whose address
/// space ends outside the canonical range takes no part. Of the others, the
/// range keeps the highest base, the lowest limit and the greatest alignment.
pub open spec fn svm_range_with(
    range: SvmRange,
    record: kfd_process_device_apertures,
    vm_alignment: u32,
) -> SvmRange {
    if is_canonical(record.gpuvm_limit) {
        SvmRange {
            base: if record.gpuvm_base > range.base {
                record.gpuvm_base
            } else {
                range.base
            },
            limit: if record.gpuvm_limit < range.limit || range.limit == 0 {
                record.gpuvm_limit
            } else {
                range.limit
            },
            alignment: if vm_alignment > range.alignment {
                vm_alignment
            } else {
                range.alignment
            },
        }
    } else {
        range
    }
}

/// Takes the GPU of `record` into the shared range.
pub fn svm_range_add(range: SvmRange, record: &kfd_process_device_apertures, vm_alignment: u32) -> (r:
    SvmRange)
    ensures
        r == svm_range_with(range, *record, vm_alignment),
{
    if record.gpuvm_limit < 0x8000_0000_0000 {
        SvmRange {
            base: if record.gpuvm_base > range.base {
                record.gpuvm_base
            } else {
                range.base
            },
            limit: if record.gpuvm_limit < range.limit || range.limit == 0 {
                record.gpuvm_limit
            } else {
                range.limit
            },
            alignment: if vm_alignment > range.alignment {
                vm_alignment
            } else {
                range.alignment
            },
        }
    } else {
        range
    }
}

/// The range that the GPUs with ids `ids` share, by the reports `records` of
/// the kernel driver. A report of a GPU that is not among `ids` counts for
/// nothing.
pub open spec fn svm_range_of(
    ids: Seq<u32>,
    records: Seq<kfd_process_device_apertures>,
    vm_alignment: u32,
) -> SvmRange
    decreases records.len(),
{
    if records.len() == 0 {
        SvmRange { base: 0, limit: 0, alignment: 0 }
    } else if first_index(ids, records.last().gpu_id) >= 0 {
        svm_range_with(svm_range_of(ids, records.drop_last(), vm_alignment), records.last(), vm_alignment)
    } else {
        svm_range_of(ids, records.drop_last(), vm_alignment)
    }
}

/// Whether report `k` takes part in the shared range: it is of a known GPU
/// whose address space ends in the canonical range.
pub open spec fn takes_part(ids: Seq<u32>, records: Seq<kfd_process_device_apertures>, k: int) -> bool {
    0 <= k < records.len() && first_index(ids, records[k].gpu_id) >= 0 && is_canonical(
        records[k].gpuvm_limit,
    )
}

/// The shared range takes the tightest constraint: its limit is the least of
/// the limits of the GPUs that take part, its base the greatest of their
/// bases and 0, and its alignment the greatest of their alignments. (A limit
/// of 0 would be taken for no limit at all, so no GPU may report one.)
pub proof fn lemma_svm_range_is_tightest(
    ids: Seq<u32>,
    records: Seq<kfd_process_device_apertures>,
    vm_alignment: u32,
)
    requires
        forall|k: int| #[trigger] takes_part(ids, records, k) ==> records[k].gpuvm_limit > 0,
    ensures
        forall|k: int| #[trigger]
            takes_part(ids, records, k) ==> svm_range_of(ids, records, vm_alignment).limit
                <= records[k].gpuvm_limit && svm_range_of(ids, records, vm_alignment).base
                >= records[k].gpuvm_base && svm_range_of(ids, records, vm_alignment).alignment
                == vm_alignment,
        (exists|k: int| takes_part(ids, records, k)) ==> exists|k: int| #[trigger]
            takes_part(ids, records, k) && svm_range_of(ids, records, vm_alignment).limit
                == records[k].gpuvm_limit,
        (exists|k: int| takes_part(ids, records, k)) ==> svm_range_of(
            ids,
            records,
            vm_alignment,
        ).base == 0 || exists|k: int| #[trigger]
            takes_part(ids, records, k) && svm_range_of(ids, records, vm_alignment).base
                == records[k].gpuvm_base,
        !(exists|k: int| takes_part(ids, records, k)) ==> svm_range_of(ids, records, vm_alignment)
            == (SvmRange { base: 0, limit: 0, alignment: 0 }),
    decreases records.len(),
{
    if records.len() > 0 {
        let t = records.drop_last();
        let n = t.len() as int;
        assert forall|k: int| #[trigger] takes_part(ids, t, k) implies t[k].gpuvm_limit > 0 by {
            assert(t[k] == records[k]);
            assert(takes_part(ids, records, k));
        }
        lemma_svm_range_is_tightest(ids, t, vm_alignment);
        let before = svm_range_of(ids, t, vm_alignment);
        let after = svm_range_of(ids, records, vm_alignment);
        assert forall|k: int| takes_part(ids, records, k) && k < n implies takes_part(ids, t, k) by {
            assert(t[k] == records[k]);
        }
        assert forall|k: int| takes_part(ids, t, k) implies takes_part(ids, records, k) by {
            assert(t[k] == records[k]);
        }
        assert forall|k: int| #[trigger] takes_part(ids, records, k) implies after.limit
            <= records[k].gpuvm_limit && after.base >= records[k].gpuvm_base && after.alignment
            == vm_alignment by {
            if k < n {
                assert(takes_part(ids, t, k));
                assert(t[k] == records[k]);
            }
        }
        if takes_part(ids, records, n) {
            if after.limit != records[n].gpuvm_limit {
                let k = choose|k: int| #[trigger]
                    takes_part(ids, t, k) && before.limit == t[k].gpuvm_limit;
                assert(t[k] == records[k]);
                assert(takes_part(ids, records, k) && after.limit == records[k].gpuvm_limit);
            }
            if after.base != 0 && after.base != records[n].gpuvm_base {
                let k = choose|k: int| #[trigger]
                    takes_part(ids, t, k) && before.base == t[k].gpuvm_base;
                assert(t[k] == records[k]);
                assert(takes_part(ids, records, k) && after.base == records[k].gpuvm_base);
            }
        } else {
            if exists|k: int| takes_part(ids, records, k) {
                let j = choose|k: int| takes_part(ids, records, k);
                assert(takes_part(ids, t, j));
                let k = choose|k: int| #[trigger]
                    takes_part(ids, t, k) && before.limit == t[k].gpuvm_limit;
                assert(t[k] == records[k]);
                assert(takes_part(ids, records, k) && after.limit == records[k].gpuvm_limit);
                if after.base != 0 {
                    let b = choose|k: int| #[trigger]
                        takes_part(ids, t, k) && before.base == t[k].gpuvm_base;
                    assert(t[b] == records[b]);
                    assert(takes_part(ids, records, b) && after.base == records[b].gpuvm_base);
                }
            }
        }
    }
}

/// The record of a GPU once the windows that the kernel driver reports for it
/// are taken in. A GPU whose address space ends in the canonical range shares
/// the apertures of the process and has none of its own; its physical scratch
/// memory is aligned as its VM needs. Any other GPU has its own aperture over
/// the address space that the driver reports.
pub open spec fn with_device_apertures(
    gpu: gpu_mem_t,
    record: kfd_process_device_apertures,
    vm_alignment: u32,
) -> gpu_mem_t {
    gpu_mem_t {
        lds_aperture: aperture_t { base: record.lds_base, limit: record.lds_limit },
        scratch_aperture: aperture_t { base: record.scratch_base, limit: record.scratch_limit },
        scratch_physical: if is_canonical(record.gpuvm_limit) {
            manageable_aperture { align: vm_alignment as u64, ..gpu.scratch_physical }
        } else {
            gpu.scratch_physical
        },
        gpuvm_aperture: if is_canonical(record.gpuvm_limit) {
            manageable_aperture { base: 0, limit: 0, ..gpu.gpuvm_aperture }
        } else {
            manageable_aperture {
                base: record.gpuvm_base,
                limit: record.gpuvm_limit,
                ..gpu.gpuvm_aperture
            }
        },
        ..gpu
    }
}

/// Whether nothing is reserved in the GPU's own apertures yet.
pub open spec fn has_no_areas(gpu: &gpu_mem_t) -> bool {
    gpu.gpuvm_aperture.vm_ranges@.len() == 0 && gpu.scratch_physical.vm_ranges@.len() == 0
}

/// Takes the windows that the kernel driver reports for a GPU into its
/// record.
pub fn gpu_mem_set_device_apertures(
    gpu: &mut gpu_mem_t,
    record: &kfd_process_device_apertures,
    vm_alignment: u32,
)
    requires
        old(gpu).wf(),
        has_no_areas(old(gpu)),
    ensures
        final(gpu).wf(),
        has_no_areas(final(gpu)),
        *final(gpu) == with_device_apertures(*old(gpu), *record, vm_alignment),
{
    gpu.lds_aperture = aperture_t { base: record.lds_base, limit: record.lds_limit };
    gpu.scratch_aperture = aperture_t { base: record.scratch_base, limit: record.scratch_limit };
    if record.gpuvm_limit < 0x8000_0000_0000 {
        gpu.scratch_physical.align = vm_alignment as u64;
        gpu.gpuvm_aperture.base = 0;
        gpu.gpuvm_aperture.limit = 0;
    } else {
        gpu.gpuvm_aperture.base = record.gpuvm_base;
        gpu.gpuvm_aperture.limit = record.gpuvm_limit;
    }
}

/// The record `gpu`, which stands at position `g`, once every report of
/// `records` that is of its GPU is taken in, in their order. A report is of
/// the first GPU that has its id.
pub open spec fn gpu_after_reports(
    gpu: gpu_mem_t,
    ids: Seq<u32>,
    g: int,
    records: Seq<kfd_process_device_apertures>,
    vm_alignment: u32,
) -> gpu_mem_t
    decreases records.len(),
{
    if records.len() == 0 {
        gpu
    } else if first_index(ids, records.last().gpu_id) == g {
        with_device_apertures(
            gpu_after_reports(gpu, ids, g, records.drop_last(), vm_alignment),
            records.last(),
            vm_alignment,
        )
    } else {
        gpu_after_reports(gpu, ids, g, records.drop_last(), vm_alignment)
    }
}

/// The positions of the GPUs that the reports are of, in the order of the
/// reports. A report of an unknown GPU adds nothing.
pub open spec fn reported_gpus(ids: Seq<u32>, records: Seq<kfd_process_device_apertures>) -> Seq<u32>
    decreases records.len(),
{
    if records.len() == 0 {
        Seq::<u32>::empty()
    } else if first_index(ids, records.last().gpu_id) >= 0 {
        reported_gpus(ids, records.drop_last()).push(first_index(ids, records.last().gpu_id) as u32)
    } else {
        reported_gpus(ids, records.drop_last())
    }
}

/// Takes the reports of the kernel driver into the records of the GPUs, and
/// hands back the range that the GPUs share and the positions of the GPUs
/// that were reported, for which the VM is to be acquired.
pub fn fmm_apply_process_apertures(
    gpu_mem: &mut Vec<gpu_mem_t>,
    process_apertures: &Vec<kfd_process_device_apertures>,
    vm_alignment: u32,
) -> (r: (SvmRange, Vec<u32>))
    requires
        all_gpu_mem_wf(old(gpu_mem)@),
        old(gpu_mem)@.len() <= i32::MAX,
        forall|g: int| 0 <= g < old(gpu_mem)@.len() ==> has_no_areas(&#[trigger] old(gpu_mem)@[g]),
    ensures
        all_gpu_mem_wf(final(gpu_mem)@),
        final(gpu_mem)@.len() == old(gpu_mem)@.len(),
        gpu_ids(final(gpu_mem)@) == gpu_ids(old(gpu_mem)@),
        forall|g: int|
            0 <= g < old(gpu_mem)@.len() ==> #[trigger] final(gpu_mem)@[g] == gpu_after_reports(
                old(gpu_mem)@[g],
                gpu_ids(old(gpu_mem)@),
                g,
                process_apertures@,
                vm_alignment,
            ),
        forall|g: int| 0 <= g < final(gpu_mem)@.len()
            ==> has_no_areas(&#[trigger] final(gpu_mem)@[g]),
        r.0 == svm_range_of(gpu_ids(old(gpu_mem)@), process_apertures@, vm_alignment),
        r.1@ == reported_gpus(gpu_ids(old(gpu_mem)@), process_apertures@),
{
    let ghost ids = gpu_ids(gpu_mem@);
    let ghost before = gpu_mem@;
    let mut range = SvmRange { base: 0, limit: 0, alignment: 0 };
    let mut reported: Vec<u32> = Vec::new();
    let n: usize = process_apertures.len();
    let mut i: usize = 0;
    assert(process_apertures@.take(0) =~= Seq::<kfd_process_device_apertures>::empty());
    while i < n
        invariant
            n == process_apertures@.len(),
            0 <= i <= n,
            before.len() <= i32::MAX,
            gpu_mem@.len() == before.len(),
            ids == gpu_ids(before),
            gpu_ids(gpu_mem@) == ids,
            all_gpu_mem_wf(gpu_mem@),
            forall|g: int| 0 <= g < gpu_mem@.len() ==> has_no_areas(&#[trigger] gpu_mem@[g]),
            forall|g: int|
                0 <= g < before.len() ==> #[trigger] gpu_mem@[g] == gpu_after_reports(
                    before[g],
                    ids,
                    g,
                    process_apertures@.take(i as int),
                    vm_alignment,
                ),
            range == svm_range_of(ids, process_apertures@.take(i as int), vm_alignment),
            reported@ == reported_gpus(ids, process_apertures@.take(i as int)),
        decreases n - i,
    {
        let record = &process_apertures[i];
        let ghost prefix = process_apertures@.take(i as int);
        let ghost next = process_apertures@.take(i + 1);
        assert(next.drop_last() =~= prefix);
        assert(next.last() == *record);
        let found: i32 = gpu_mem_find(gpu_mem, record.gpu_id);
        proof {
            lemma_first_index(ids, record.gpu_id);
        }
        if found >= 0 {
            let g: usize = found as usize;
            let ghost old_mem = gpu_mem@;
            reported.push(found as u32);
            gpu_mem_set_device_apertures(&mut gpu_mem[g], record, vm_alignment);
            range = svm_range_add(range, record, vm_alignment);
            proof {
                assert(gpu_ids(gpu_mem@) =~= ids) by {
                    assert forall|j: int| 0 <= j < ids.len() implies gpu_ids(gpu_mem@)[j]
                        == ids[j] by {
                        assert(gpu_ids(old_mem)[j] == ids[j]);
                    }
                }
            }
        }
        i = i + 1;
    }
    assert(process_apertures@.take(n as int) =~= process_apertures@);
    (range, reported)
}

/// How often `links` lead to node `node_id`.
pub open spec fn links_to(links: Seq<HsaIoLinkProperties>, node_id: u32) -> nat
    decreases links.len(),
{
    if links.len() == 0 {
        0
    } else {
        links_to(links.drop_last(), node_id) + if links.last().NodeTo == node_id {
            1nat
        } else {
            0nat
        }
    }
}

/// Adds GPU `peer_gpu_id` to the GPUs that can map memory of `gpu`.
pub fn gpu_mem_add_peer(gpu: &mut gpu_mem_t, peer_gpu_id: u32)
    requires
        old(gpu).wf(),
        old(gpu).usable_peer_id_num < u32::MAX,
    ensures
        final(gpu).wf(),
        final(gpu).usable_peer_id_array@ == old(gpu).usable_peer_id_array@.push(peer_gpu_id),
        final(gpu).usable_peer_id_num == old(gpu).usable_peer_id_num + 1,
        final(gpu).gpu_id == old(gpu).gpu_id,
        final(gpu).device_id == old(gpu).device_id,
        final(gpu).node_id == old(gpu).node_id,
        final(gpu).local_mem_size == old(gpu).local_mem_size,
        final(gpu).EngineId == old(gpu).EngineId,
        final(gpu).lds_aperture == old(gpu).lds_aperture,
        final(gpu).scratch_aperture == old(gpu).scratch_aperture,
        final(gpu).mmio_aperture == old(gpu).mmio_aperture,
        final(gpu).scratch_physical == old(gpu).scratch_physical,
        final(gpu).gpuvm_aperture == old(gpu).gpuvm_aperture,
        final(gpu).drm_render_fd == old(gpu).drm_render_fd,
        final(gpu).drm_render_minor == old(gpu).drm_render_minor,
{
    gpu.usable_peer_id_array.push(peer_gpu_id);
    gpu.usable_peer_id_num = gpu.usable_peer_id_num + 1;
}

/// Whether `after` is `before` with `count` more peers, each of them GPU
/// `peer_gpu_id`.
pub open spec fn has_more_peers(before: &gpu_mem_t, after: &gpu_mem_t, peer_gpu_id: u32, count: nat)
    -> bool {
    &&& after.usable_peer_id_array@ == before.usable_peer_id_array@ + Seq::new(
        count,
        |i: int| peer_gpu_id,
    )
    &&& after.usable_peer_id_num == before.usable_peer_id_num + count
    &&& after.gpu_id == before.gpu_id
    &&& after.device_id == before.device_id
    &&& after.node_id == before.node_id
    &&& after.local_mem_size == before.local_mem_size
    &&& after.EngineId == before.EngineId
    &&& after.lds_aperture == before.lds_aperture
    &&& after.scratch_aperture == before.scratch_aperture
    &&& after.mmio_aperture == before.mmio_aperture
    &&& after.scratch_physical == before.scratch_physical
    &&& after.gpuvm_aperture == before.gpuvm_aperture
    &&& after.drm_render_fd == before.drm_render_fd
    &&& after.drm_render_minor == before.drm_render_minor
}

/// Adds GPU `peer_gpu_id` to the peers of every GPU that one of its links
/// leads to: it can map memory that is allocated on those GPUs. A GPU is
/// added once for each link; a link to a node without a record adds nothing.
pub fn fmm_add_usable_peers(
    gpu_mem: &mut Vec<gpu_mem_t>,
    peer_gpu_id: u32,
    links: &Vec<HsaIoLinkProperties>,
)
    requires
        all_gpu_mem_wf(old(gpu_mem)@),
        old(gpu_mem)@.len() <= i32::MAX,
        forall|g: int|
            0 <= g < old(gpu_mem)@.len() ==> (#[trigger] old(gpu_mem)@[g]).usable_peer_id_num
                + links@.len() <= u32::MAX,
    ensures
        all_gpu_mem_wf(final(gpu_mem)@),
        final(gpu_mem)@.len() == old(gpu_mem)@.len(),
        forall|g: int|
            0 <= g < old(gpu_mem)@.len() ==> has_more_peers(
                &old(gpu_mem)@[g],
                &#[trigger] final(gpu_mem)@[g],
                peer_gpu_id,
                if first_index(gpu_node_ids(old(gpu_mem)@), old(gpu_mem)@[g].node_id) == g {
                    links_to(links@, old(gpu_mem)@[g].node_id)
                } else {
                    0
                },
            ),
{
    let ghost before = gpu_mem@;
    let ghost nodes = gpu_node_ids(before);
    let n: usize = links.len();
    let mut i: usize = 0;
    assert(links@.take(0) =~= Seq::<HsaIoLinkProperties>::empty());
    assert forall|g: int| 0 <= g < before.len() implies has_more_peers(
        &before[g],
        &#[trigger] gpu_mem@[g],
        peer_gpu_id,
        0,
    ) by {
        assert(before[g].usable_peer_id_array@ + Seq::new(0, |i: int| peer_gpu_id)
            =~= before[g].usable_peer_id_array@);
    }
    while i < n
        invariant
            n == links@.len(),
            0 <= i <= n,
            before.len() <= i32::MAX,
            gpu_mem@.len() == before.len(),
            nodes == gpu_node_ids(before),
            gpu_node_ids(gpu_mem@) == nodes,
            all_gpu_mem_wf(gpu_mem@),
            forall|g: int|
                0 <= g < before.len() ==> (#[trigger] before[g]).usable_peer_id_num + n <= u32::MAX,
            forall|g: int|
                0 <= g < before.len() ==> has_more_peers(
                    &before[g],
                    &#[trigger] gpu_mem@[g],
                    peer_gpu_id,
                    if first_index(nodes, before[g].node_id) == g {
                        links_to(links@.take(i as int), before[g].node_id)
                    } else {
                        0
                    },
                ),
            forall|g: int|
                0 <= g < before.len() ==> links_to(
                    links@.take(i as int),
                    (#[trigger] before[g]).node_id,
                ) <= i,
        decreases n - i,
    {
        let ghost prefix = links@.take(i as int);
        let ghost next = links@.take(i + 1);
        assert(next.drop_last() =~= prefix);
        assert(next.last() == links@[i as int]);
        let node_to: u32 = links[i].NodeTo;
        let found: i32 = gpu_mem_find_by_node_id(gpu_mem, node_to);
        proof {
            lemma_first_index(nodes, node_to);
        }
        let ghost old_mem = gpu_mem@;
        if found >= 0 {
            let t: usize = found as usize;
            assert(before[t as int].node_id == node_to) by {
                assert(nodes[t as int] == before[t as int].node_id);
            }
            gpu_mem_add_peer(&mut gpu_mem[t], peer_gpu_id);
            proof {
                assert(gpu_node_ids(gpu_mem@) =~= nodes) by {
                    assert forall|j: int| 0 <= j < nodes.len() implies gpu_node_ids(gpu_mem@)[j]
                        == nodes[j] by {
                        assert(gpu_node_ids(old_mem)[j] == nodes[j]);
                    }
                }
                let c = links_to(prefix, node_to);
                assert(Seq::new(c, |i: int| peer_gpu_id).push(peer_gpu_id) =~= Seq::new(
                    c + 1,
                    |i: int| peer_gpu_id,
                ));
                assert((before[t as int].usable_peer_id_array@ + Seq::new(
                    c,
                    |i: int| peer_gpu_id,
                )).push(peer_gpu_id) =~= before[t as int].usable_peer_id_array@ + Seq::new(
                    c + 1,
                    |i: int| peer_gpu_id,
                ));
            }
        }
        proof {
            assert forall|g: int| 0 <= g < before.len() implies has_more_peers(
                &before[g],
                &#[trigger] gpu_mem@[g],
                peer_gpu_id,
                if first_index(nodes, before[g].node_id) == g {
                    links_to(next, before[g].node_id)
                } else {
                    0
                },
            ) by {
                assert(nodes[g] == before[g].node_id);
                if found >= 0 && g == found {
                } else {
                    assert(gpu_mem@[g] == old_mem[g]);
                    if first_index(nodes, before[g].node_id) == g {
                        assert(before[g].node_id != node_to);
                    }
                }
            }
        }
        i = i + 1;
    }
    assert(links@.take(n as int) =~= links@);
}

/// What the kernel driver is asked in order to bind the VM of the render node
/// with descriptor `fd` to GPU `gpu_id`.
pub fn acquire_vm(gpu_id: u32, fd: i32) -> (args: kfd_ioctl_acquire_vm_args)
    ensures
        args.gpu_id == gpu_id,
        args.drm_fd == fd as u32,
{
    kfd_ioctl_acquire_vm_args { drm_fd: fd as u32, gpu_id }
}

/// What the kernel driver is asked in order to report the apertures of up to
/// `num_of_nodes` devices into the records at `address`.
pub fn get_process_apertures(address: u64, num_of_nodes: u32) -> (args:
    kfd_ioctl_get_process_apertures_new_args)
    ensures
        args.kfd_process_device_apertures_ptr == address,
        args.num_of_nodes == num_of_nodes,
        args.pad == 0,
{
    kfd_ioctl_get_process_apertures_new_args {
        kfd_process_device_apertures_ptr: address,
        num_of_nodes,
        pad: 0,
    }
}

/// The cache policy that GPU `gpu_id` is given once the shared apertures are
/// set up: coherent in the aperture for coherent memory, and coherent
/// elsewhere too where the GPU's cache is off.
pub open spec fn memory_policy_of(svm: &svm_t, gpu_id: u32) -> Option<
    kfd_ioctl_set_memory_policy_args,
> {
    if svm.is_initialized() {
        let alt = if svm.state == SvmState::ReservedRange {
            svm.coherent_aperture
        } else {
            svm.default_aperture
        };
        Some(
            kfd_ioctl_set_memory_policy_args {
                alternate_aperture_base: alt.base,
                alternate_aperture_size: if alt.limit >= alt.base && alt.limit - alt.base + 1
                    <= u64::MAX {
                    (alt.limit - alt.base + 1) as u64
                } else {
                    0
                },
                gpu_id,
                default_policy: if svm.disable_cache {
                    KFD_IOC_CACHE_POLICY_COHERENT
                } else {
                    KFD_IOC_CACHE_POLICY_NONCOHERENT
                },
                alternate_policy: KFD_IOC_CACHE_POLICY_COHERENT,
                pad: 0,
            },
        )
    } else {
        None
    }
}

/// What the kernel driver is asked in order to give GPU `gpu_id` the cache
/// policy that matches the shared apertures, once these are set up.
pub fn fmm_memory_policy_args(svm: &svm_t, gpu_id: u32) -> (r: Option<
    kfd_ioctl_set_memory_policy_args,
>)
    ensures
        r == memory_policy_of(svm, gpu_id),
{
    let alt = match svm.dgpu_alt_aperture() {
        Some(aperture) => aperture,
        None => {
            return None;
        },
    };
    let size: u64 = if alt.limit >= alt.base && alt.limit - alt.base < u64::MAX {
        alt.limit - alt.base + 1
    } else {
        0
    };
    let default_policy: u32 = if svm.disable_cache {
        KFD_IOC_CACHE_POLICY_COHERENT
    } else {
        KFD_IOC_CACHE_POLICY_NONCOHERENT
    };
    Some(
        fmm_set_memory_policy(
            gpu_id,
            default_policy,
            KFD_IOC_CACHE_POLICY_COHERENT,
            alt.base,
            size,
        ),
    )
}

/// Whether `after` is the aperture `before` with no objects.
pub open spec fn aperture_without_objects(before: &manageable_aperture, after: &manageable_aperture)
    -> bool {
    &&& after.tree@.len() == 0
    &&& after.user_tree@.len() == 0
    &&& after.vm_ranges == before.vm_ranges
    &&& after.base == before.base
    &&& after.limit == before.limit
    &&& after.align == before.align
    &&& after.guard_pages == before.guard_pages
    &&& after.is_cpu_accessible == before.is_cpu_accessible
    &&& after.ops == before.ops
}

/// Empties the indices of objects of an aperture.
pub fn aperture_init_rbtree(aperture: &mut manageable_aperture)
    requires
        old(aperture).wf(),
    ensures
        final(aperture).wf(),
        aperture_without_objects(old(aperture), final(aperture)),
{
    rbtree_init(&mut aperture.tree);
    rbtree_init(&mut aperture.user_tree);
}

/// Whether `after` is `before` with no objects in its apertures.
pub open spec fn gpu_without_objects(before: &gpu_mem_t, after: &gpu_mem_t) -> bool {
    &&& after.scratch_physical.tree@.len() == 0
    &&& after.scratch_physical.user_tree@.len() == 0
    &&& after.gpuvm_aperture.tree@.len() == 0
    &&& after.gpuvm_aperture.user_tree@.len() == 0
    &&& after.scratch_physical.vm_ranges == before.scratch_physical.vm_ranges
    &&& after.gpuvm_aperture.vm_ranges == before.gpuvm_aperture.vm_ranges
    &&& after.scratch_physical.base == before.scratch_physical.base
    &&& after.scratch_physical.limit == before.scratch_physical.limit
    &&& after.scratch_physical.align == before.scratch_physical.align
    &&& after.gpuvm_aperture.base == before.gpuvm_aperture.base
    &&& after.gpuvm_aperture.limit == before.gpuvm_aperture.limit
    &&& after.gpuvm_aperture.align == before.gpuvm_aperture.align
    &&& after.gpuvm_aperture.guard_pages == before.gpuvm_aperture.guard_pages
    &&& after.gpu_id == before.gpu_id
    &&& after.device_id == before.device_id
    &&& after.node_id == before.node_id
    &&& after.local_mem_size == before.local_mem_size
    &&& after.EngineId == before.EngineId
    &&& after.lds_aperture == before.lds_aperture
    &&& after.scratch_aperture == before.scratch_aperture
    &&& after.mmio_aperture == before.mmio_aperture
    &&& after.drm_render_fd == before.drm_render_fd
    &&& after.drm_render_minor == before.drm_render_minor
    &&& after.usable_peer_id_num == before.usable_peer_id_num
    &&& after.usable_peer_id_array == before.usable_peer_id_array
}

/// Empties the indices of objects of every aperture: those that the GPUs
/// share, the one of the CPU, and those of each GPU.
pub fn fmm_init_rbtree(
    svm: &mut svm_t,
    cpuvm_aperture: &mut manageable_aperture,
    gpu_mem: &mut Vec<gpu_mem_t>,
)
    requires
        old(svm).wf(),
        old(cpuvm_aperture).wf(),
        all_gpu_mem_wf(old(gpu_mem)@),
    ensures
        final(svm).wf(),
        final(cpuvm_aperture).wf(),
        all_gpu_mem_wf(final(gpu_mem)@),
        final(gpu_mem)@.len() == old(gpu_mem)@.len(),
        aperture_without_objects(&old(svm).default_aperture, &final(svm).default_aperture),
        aperture_without_objects(&old(svm).coherent_aperture, &final(svm).coherent_aperture),
        final(svm).state == old(svm).state,
        final(svm).userptr_for_paged_mem == old(svm).userptr_for_paged_mem,
        final(svm).check_userptr == old(svm).check_userptr,
        final(svm).reserve_svm == old(svm).reserve_svm,
        final(svm).disable_cache == old(svm).disable_cache,
        final(svm).alignment_order == old(svm).alignment_order,
        aperture_without_objects(old(cpuvm_aperture), final(cpuvm_aperture)),
        forall|g: int|
            0 <= g < old(gpu_mem)@.len() ==> gpu_without_objects(
                &old(gpu_mem)@[g],
                &#[trigger] final(gpu_mem)@[g],
            ),
{
    aperture_init_rbtree(&mut svm.default_aperture);
    aperture_init_rbtree(&mut svm.coherent_aperture);
    aperture_init_rbtree(cpuvm_aperture);
    let ghost before = gpu_mem@;
    let n: usize = gpu_mem.len();
    let mut i: usize = 0;
    while i < n
        invariant
            n == gpu_mem@.len(),
            n == before.len(),
            0 <= i <= n,
            all_gpu_mem_wf(before),
            all_gpu_mem_wf(gpu_mem@),
            forall|g: int| 0 <= g < i ==> gpu_without_objects(&before[g], &#[trigger] gpu_mem@[g]),
            forall|g: int| i <= g < n ==> #[trigger] gpu_mem@[g] == before[g],
        decreases n - i,
    {
        let ghost old_mem = gpu_mem@;
        assert(old_mem[i as int].wf());
        aperture_init_rbtree(&mut gpu_mem[i].scratch_physical);
        aperture_init_rbtree(&mut gpu_mem[i].gpuvm_aperture);
        i = i + 1;
    }
}

/// Sets the aperture of the CPU up: the canonical address space, aligned to
/// pages, with nothing in it.
pub fn fmm_init_cpuvm_aperture(fmm: &mut HsaKmtFmmGlobal, page_size: u64)
    requires
        old(fmm).wf(),
    ensures
        final(fmm).wf(),
        final(fmm).cpuvm_aperture.is_fresh(
            0,
            0x7FFF_FFFF_FFFF,
            page_size,
            0,
            false,
            manageable_aperture_ops_t::ReservedRange,
        ),
        final(fmm).drm_render_fds == old(fmm).drm_render_fds,
        final(fmm).svm == old(fmm).svm,
        final(fmm).gpu_mem == old(fmm).gpu_mem,
        final(fmm).gpu_mem_count == old(fmm).gpu_mem_count,
        final(fmm).all_gpu_id_array == old(fmm).all_gpu_id_array,
        final(fmm).dgpu_shared_aperture_base == old(fmm).dgpu_shared_aperture_base,
        final(fmm).dgpu_shared_aperture_limit == old(fmm).dgpu_shared_aperture_limit,
{
    fmm.cpuvm_aperture = manageable_aperture::with_window(
        0,
        0x7FFF_FFFF_FFFF,
        page_size,
        0,
        false,
        manageable_aperture_ops_t::ReservedRange,
    );
}

/// The window of the remapped registers of a GPU, which were mapped at
/// `mem`: one page.
pub fn mmio_aperture_at(mem: u64, page_size: u64) -> (r: Option<aperture_t>)
    ensures
        r is Some <==> mem != 0 && page_size >= 1 && mem + page_size - 1 <= u64::MAX,
        r is Some ==> r->Some_0.base == mem && r->Some_0.limit == mem + page_size - 1,
{
    if mem == 0 || page_size == 0 {
        return None;
    }
    match mem.checked_add(page_size - 1) {
        Some(limit) => Some(aperture_t { base: mem, limit }),
        None => None,
    }
}

/// Whether a switch of the environment is on: it is where the variable is
/// set to anything but `0`.
pub open spec fn env_enabled(value: Option<&str>) -> bool {
    value is Some && value->Some_0@ != seq!['0']
}

/// Whether a switch of the environment is on.
pub fn env_flag(value: Option<&str>) -> (on: bool)
    ensures
        on == env_enabled(value),
{
    match value {
        None => false,
        Some(text) => {
            if text.unicode_len() == 1 && text.get_char(0) == '0' {
                assert(text@ =~= seq!['0']);
                false
            } else {
                true
            }
        },
    }
}

/// The number that a variable of the environment gives: the number that its
/// value writes in decimal, white space around it left aside, where it writes
/// one that a `u32` holds, and `otherwise` where it does not or is not set.
pub open spec fn env_value(value: Option<&str>, otherwise: u32) -> u32 {
    if value is None {
        otherwise
    } else {
        let bytes = value->Some_0.spec_bytes();
        match decimal(trimmed(bytes, 0, bytes.len() as int)) {
            Some(v) => if v <= u32::MAX {
                v as u32
            } else {
                otherwise
            },
            None => otherwise,
        }
    }
}

/// The number that a variable of the environment gives.
pub fn env_number(value: Option<&str>, otherwise: u32) -> (number: u32)
    ensures
        number == env_value(value, otherwise),
{
    let text = match value {
        Some(t) => t,
        None => {
            return otherwise;
        },
    };
    let bytes = text.as_bytes_vec();
    let s = bytes.as_slice();
    let (a, b) = trim_range(s, 0, s.len());
    match parse_decimal(s, a, b) {
        Some(v) => if v <= 0xFFFF_FFFF {
            v as u32
        } else {
            otherwise
        },
        None => otherwise,
    }
}

/// The order of the greatest alignment where the environment names none: a
/// page doubled 9 times, which is 2 MiB with pages of 4 KiB.
pub const DEFAULT_ALIGNMENT_ORDER: u32 = 9;

/// The number of guard pages where the environment names none.
pub const DEFAULT_GUARD_PAGES: u32 = 1;

/// Starts setting the apertures of a process up: takes the settings of the
/// environment into the state of the shared virtual memory, and hands back
/// the number of guard pages behind each area.
///
/// The arguments are the values of the variables `HSA_DISABLE_CACHE`,
/// `HSA_CHECK_USERPTR`, `HSA_RESERVE_SVM`, `HSA_MAX_VA_ALIGN` and
/// `HSA_SVM_GUARD_PAGES`, each of them nothing where the variable is not set.
pub fn hsakmt_fmm_init_process_apertures(
    fmm: &mut HsaKmtFmmGlobal,
    disable_cache: Option<&str>,
    check_userptr: Option<&str>,
    reserve_svm: Option<&str>,
    max_va_align: Option<&str>,
    svm_guard_pages: Option<&str>,
) -> (guard_pages: u32)
    requires
        old(fmm).wf(),
    ensures
        final(fmm).wf(),
        guard_pages == env_value(svm_guard_pages, DEFAULT_GUARD_PAGES),
        final(fmm).svm.disable_cache == env_enabled(disable_cache),
        final(fmm).svm.check_userptr == env_enabled(check_userptr),
        final(fmm).svm.reserve_svm == env_enabled(reserve_svm),
        final(fmm).svm.alignment_order == env_value(max_va_align, DEFAULT_ALIGNMENT_ORDER),
        final(fmm).svm.userptr_for_paged_mem == old(fmm).svm.userptr_for_paged_mem,
        final(fmm).svm.state == old(fmm).svm.state,
        final(fmm).svm.default_aperture == old(fmm).svm.default_aperture,
        final(fmm).svm.coherent_aperture == old(fmm).svm.coherent_aperture,
        final(fmm).drm_render_fds == old(fmm).drm_render_fds,
        final(fmm).gpu_mem == old(fmm).gpu_mem,
        final(fmm).gpu_mem_count == old(fmm).gpu_mem_count,
        final(fmm).all_gpu_id_array == old(fmm).all_gpu_id_array,
        final(fmm).all_gpu_id_array_sizea == old(fmm).all_gpu_id_array_sizea,
        final(fmm).cpuvm_aperture == old(fmm).cpuvm_aperture,
        final(fmm).dgpu_shared_aperture_base == old(fmm).dgpu_shared_aperture_base,
        final(fmm).dgpu_shared_aperture_limit == old(fmm).dgpu_shared_aperture_limit,
{
    fmm.svm.disable_cache = env_flag(disable_cache);
    fmm.svm.check_userptr = env_flag(check_userptr);
    fmm.svm.reserve_svm = env_flag(reserve_svm);
    fmm.svm.alignment_order = env_number(max_va_align, DEFAULT_ALIGNMENT_ORDER);
    env_number(svm_guard_pages, DEFAULT_GUARD_PAGES)
}

/// The flags with which the kernel driver is asked for the remapped
/// registers of a GPU: registers, writable, coherent.
pub fn map_mmio_ioc_flags() -> (flags: u32)
    ensures
        flags == KFD_IOC_ALLOC_MEM_FLAGS_MMIO_REMAP
            | KFD_IOC_ALLOC_MEM_FLAGS_WRITABLE
            | KFD_IOC_ALLOC_MEM_FLAGS_COHERENT,
{
    KFD_IOC_ALLOC_MEM_FLAGS_MMIO_REMAP
        | KFD_IOC_ALLOC_MEM_FLAGS_WRITABLE
        | KFD_IOC_ALLOC_MEM_FLAGS_COHERENT
}

/// Marks the object at `mem`, which holds the remapped registers of the GPU
/// on node `node_id`, as what it is: memory that is never paged out and that
/// the host can read and write. Takes the page as the window of the GPU's
/// registers.
pub fn map_mmio(
    gpu: &mut gpu_mem_t,
    aperture: &mut manageable_aperture,
    mem: u64,
    node_id: u32,
    page_size: u64,
) -> (mapped: bool)
    requires
        old(gpu).wf(),
        old(aperture).wf(),
    ensures
        final(gpu).wf(),
        final(aperture).wf(),
        final(aperture).same_but_objects(old(aperture)),
        final(aperture).tree@.len() == old(aperture).tree@.len(),
        mapped == (has_start(old(aperture).tree@, mem) && mem != 0 && page_size >= 1
            && mem + page_size - 1 <= u64::MAX),
        !mapped ==> *final(gpu) == *old(gpu) && final(aperture).tree@ == old(aperture).tree@,
        mapped ==> *final(gpu) == (gpu_mem_t {
            mmio_aperture: aperture_t { base: mem, limit: (mem + page_size - 1) as u64 },
            ..*old(gpu)
        }),
        mapped ==> {
            let p = rank(old(aperture).tree@, mem as int);
            &&& p < old(aperture).tree@.len()
            &&& final(aperture).tree@[p].key == old(aperture).tree@[p].key
            &&& final(aperture).tree@[p].data == (vm_object {
                node_id,
                mflags: HsaMemFlags {
                    Value: HSA_MEM_FLAG_NON_PAGED
                        | HSA_MEM_FLAG_HOST_ACCESS,
                },
                ..old(aperture).tree@[p].data
            })
            &&& forall|i: int|
                0 <= i < old(aperture).tree@.len() && i != p ==> #[trigger] final(aperture).tree@[i]
                    == old(aperture).tree@[i]
        },
{
    let window = match mmio_aperture_at(mem, page_size) {
        Some(w) => w,
        None => {
            return false;
        },
    };
    let ghost before = aperture.tree@;
    proof {
        aperture.tree.lemma_start_only_at_rank(mem);
        lemma_rank_parts(before, mem as int);
    }
    let node = match aperture.tree.remove(mem) {
        Ok(n) => n,
        Err(_) => {
            return false;
        },
    };
    let key = node.key;
    let mut object = node.data;
    object.node_id = node_id;
    object.mflags = HsaMemFlags {
        Value: HSA_MEM_FLAG_NON_PAGED
            | HSA_MEM_FLAG_HOST_ACCESS,
    };
    let ghost p = rank(before, mem as int);
    let ghost removed = aperture.tree@;
    proof {
        assert forall|i: int| 0 <= i < removed.len() implies !(#[trigger] removed[i]).key.overlaps(
            key,
        ) by {
            let j = if i < p {
                i
            } else {
                i + 1
            };
            assert(removed[i] == before[j]);
            lemma_ordered_disjoint(before, j, p);
        }
        assert(parts_at(removed, mem as int, p)) by {
            assert forall|i: int| 0 <= i < p implies (#[trigger] removed[i]).key.addr < mem by {
                assert(removed[i] == before[i]);
            }
            assert forall|i: int| p <= i < removed.len() implies (#[trigger] removed[i]).key.addr
                >= mem by {
                assert(removed[i] == before[i + 1]);
            }
        }
        lemma_rank_unique(removed, mem as int, p);
    }
    let inserted = aperture.tree.insert(key, object);
    proof {
        let after = aperture.tree@;
        assert forall|i: int| 0 <= i < before.len() && i != p implies #[trigger] after[i]
            == before[i] by {
            if i < p {
                assert(after[i] == removed[i]);
            } else {
                assert(after[i] == removed[i - 1]);
            }
        }
    }
    gpu.mmio_aperture = window;
    true
}

/// A render node that is to be opened: the node of the topology whose GPU it
/// belongs to, and its minor number.
#[derive(Debug, Copy, Clone, PartialEq, Eq, Structural)]
pub struct RenderNode {
    pub node_id: u32,
    pub minor: i32,
}

/// The render nodes of the GPUs among the first `n` nodes of the topology, in
/// the order of the nodes. A node without a GPU has none.
pub open spec fn gpu_nodes_of(props: Seq<node_props_t>, n: nat) -> Seq<RenderNode>
    decreases n,
{
    if n == 0 {
        Seq::<RenderNode>::empty()
    } else if props[n - 1].node.KFDGpuID > 0 {
        gpu_nodes_of(props, (n - 1) as nat).push(
            RenderNode { node_id: (n - 1) as u32, minor: props[n - 1].node.DrmRenderMinor },
        )
    } else {
        gpu_nodes_of(props, (n - 1) as nat)
    }
}

/// The render nodes that are to be opened for the first `num_nodes` nodes of
/// the topology: one for each node with a GPU.
pub fn fmm_gpu_nodes(topology: &HsaKmtTopologyGlobal, num_nodes: u32) -> (nodes: Vec<RenderNode>)
    requires
        num_nodes <= topology.g_props@.len(),
    ensures
        nodes@ == gpu_nodes_of(topology.g_props@, num_nodes as nat),
        forall|i: int| 0 <= i < nodes@.len() ==> (#[trigger] nodes@[i]).node_id < num_nodes,
{
    let mut nodes: Vec<RenderNode> = Vec::new();
    let mut i: u32 = 0;
    while i < num_nodes
        invariant
            0 <= i <= num_nodes,
            num_nodes <= topology.g_props@.len(),
            nodes@ == gpu_nodes_of(topology.g_props@, i as nat),
            forall|j: int| 0 <= j < nodes@.len() ==> (#[trigger] nodes@[j]).node_id < i,
        decreases num_nodes - i,
    {
        let props = topology.hsakmt_topology_get_node_props(i);
        if props.KFDGpuID > 0 {
            nodes.push(RenderNode { node_id: i, minor: props.DrmRenderMinor });
        }
        i = i + 1;
    }
    nodes
}

/// Why the records of the GPUs cannot be made, if they cannot: a render node
/// gave no descriptor, or the kernel driver counts fewer nodes than there are
/// GPUs.
pub open spec fn gpu_mem_error(fds: Seq<i32>, num_sysfs_nodes: usize) -> bool {
    (exists|i: int| 0 <= i < fds.len() && #[trigger] fds[i] <= 0) || num_sysfs_nodes < fds.len()
        || fds.len() > i32::MAX
}

/// Makes the record of each GPU once its render node was opened: `fds` holds
/// the descriptor that opening each of `nodes` gave. Whether the SVM
/// interface is supported is taken from the last of the GPUs.
pub fn fmm_init_gpu_mem(
    global: &mut HsaKmtGlobal,
    topology: &HsaKmtTopologyGlobal,
    nodes: &Vec<RenderNode>,
    fds: &Vec<i32>,
    guard_pages: u32,
) -> (r: Result<Vec<gpu_mem_t>, HsakmtStatus>)
    requires
        nodes@.len() == fds@.len(),
        forall|i: int|
            0 <= i < nodes@.len() ==> (#[trigger] nodes@[i]).node_id < topology.g_props@.len(),
    ensures
        r is Err <==> gpu_mem_error(fds@, topology.num_sysfs_nodes),
        r is Err
            ==> r->Err_0 == HsakmtStatus::HSAKMT_STATUS_ERROR && *final(global) == *old(global),
        r is Ok ==> {
            &&& r->Ok_0@.len() == nodes@.len()
            &&& all_gpu_mem_wf(r->Ok_0@)
            &&& forall|i: int|
                0 <= i < nodes@.len() ==> has_no_areas(&#[trigger] r->Ok_0@[i]) && is_record_of_node(
                    &r->Ok_0@[i],
                    nodes@[i].node_id,
                    &topology.g_props@[nodes@[i].node_id as int].node,
                    fds@[i],
                    old(global).hsakmt_page_size as u64,
                    old(global).hsakmt_page_size as u32,
                    guard_pages,
                )
            &&& *final(global) == (HsaKmtGlobal {
                hsakmt_is_svm_api_supported: if nodes@.len() == 0 {
                    old(global).hsakmt_is_svm_api_supported
                } else {
                    bit_field_u32(
                        topology.g_props@[nodes@.last().node_id as int].node.Capability.Value,
                        27,
                        1,
                    ) > 0
                },
                ..*old(global)
            })
        },
{
    let n: usize = nodes.len();
    if topology.num_sysfs_nodes < n || n > 0x7FFF_FFFF {
        return Err(HsakmtStatus::HSAKMT_STATUS_ERROR);
    }
    let mut i: usize = 0;
    while i < n
        invariant
            n == fds@.len(),
            0 <= i <= n,
            forall|j: int| 0 <= j < i ==> #[trigger] fds@[j] > 0,
        decreases n - i,
    {
        if fds[i] <= 0 {
            return Err(HsakmtStatus::HSAKMT_STATUS_ERROR);
        }
        i = i + 1;
    }
    let page: u64 = global.hsakmt_page_size as u64;
    let vm_alignment: u32 = get_vm_alignment(global, 0);
    let mut supported: bool = global.hsakmt_is_svm_api_supported;
    let mut gpu_mem: Vec<gpu_mem_t> = Vec::new();
    let mut k: usize = 0;
    while k < n
        invariant
            n == nodes@.len(),
            n == fds@.len(),
            0 <= k <= n,
            gpu_mem@.len() == k,
            all_gpu_mem_wf(gpu_mem@),
            page == global.hsakmt_page_size as u64,
            vm_alignment == global.hsakmt_page_size as u32,
            *global == *old(global),
            forall|i: int|
                0 <= i < nodes@.len() ==> (#[trigger] nodes@[i]).node_id < topology.g_props@.len(),
            forall|i: int|
                0 <= i < k ==> has_no_areas(&#[trigger] gpu_mem@[i]) && is_record_of_node(
                    &gpu_mem@[i],
                    nodes@[i].node_id,
                    &topology.g_props@[nodes@[i].node_id as int].node,
                    fds@[i],
                    page,
                    vm_alignment,
                    guard_pages,
                ),
            supported == (if k == 0 {
                global.hsakmt_is_svm_api_supported
            } else {
                bit_field_u32(
                    topology.g_props@[nodes@[k - 1].node_id as int].node.Capability.Value,
                    27,
                    1,
                ) > 0
            }),
        decreases n - k,
    {
        let node_id: u32 = nodes[k].node_id;
        let props = topology.hsakmt_topology_get_node_props(node_id);
        supported = props.Capability.fields().SVMAPISupported > 0;
        let gpu = gpu_mem_init_node(node_id, props, fds[k], page, vm_alignment, guard_pages);
        let ghost before = gpu_mem@;
        gpu_mem.push(gpu);
        proof {
            assert forall|i: int| 0 <= i < k + 1 implies (#[trigger] gpu_mem@[i]).wf() by {
                if i < k {
                    assert(gpu_mem@[i] == before[i]);
                }
            }
            assert forall|i: int| 0 <= i < k + 1 implies has_no_areas(&#[trigger] gpu_mem@[i])
                && is_record_of_node(
                &gpu_mem@[i],
                nodes@[i].node_id,
                &topology.g_props@[nodes@[i].node_id as int].node,
                fds@[i],
                page,
                vm_alignment,
                guard_pages,
            ) by {
                if i < k {
                    assert(gpu_mem@[i] == before[i]);
                }
            }
        }
        k = k + 1;
    }
    global.hsakmt_is_svm_api_supported = supported;
    Ok(gpu_mem)
}

/// Whether the GPUs share a range at all: they do where one of them takes
/// part in it.
pub fn fmm_svm_is_needed(range: &SvmRange) -> (needed: bool)
    ensures
        needed == (range.limit > 0),
{
    range.limit > 0
}

/// The requests that give each GPU of the first `n` reports the cache policy
/// that matches the shared apertures, in the order of the reports. A GPU
/// whose address space ends outside the canonical range gets none, and there
/// are none before the shared apertures are set up.
pub open spec fn memory_policies_of(
    svm: &svm_t,
    reports: Seq<kfd_process_device_apertures>,
    n: nat,
) -> Seq<kfd_ioctl_set_memory_policy_args>
    decreases n,
{
    if n == 0 {
        Seq::<kfd_ioctl_set_memory_policy_args>::empty()
    } else if is_canonical(reports[n - 1].gpuvm_limit) && memory_policy_of(
        svm,
        reports[n - 1].gpu_id,
    ) is Some {
        memory_policies_of(svm, reports, (n - 1) as nat).push(
            memory_policy_of(svm, reports[n - 1].gpu_id)->Some_0,
        )
    } else {
        memory_policies_of(svm, reports, (n - 1) as nat)
    }
}

/// The requests that are to be sent to the kernel driver in order to give
/// each GPU that shares the apertures its cache policy.
pub fn fmm_memory_policy_requests(svm: &svm_t, reports: &Vec<kfd_process_device_apertures>) -> (r:
    Vec<kfd_ioctl_set_memory_policy_args>)
    ensures
        r@ == memory_policies_of(svm, reports@, reports@.len()),
{
    let mut requests: Vec<kfd_ioctl_set_memory_policy_args> = Vec::new();
    let n: usize = reports.len();
    let mut i: usize = 0;
    while i < n
        invariant
            n == reports@.len(),
            0 <= i <= n,
            requests@ == memory_policies_of(svm, reports@, i as nat),
        decreases n - i,
    {
        if reports[i].gpuvm_limit < 0x8000_0000_0000 {
            match fmm_memory_policy_args(svm, reports[i].gpu_id) {
                Some(args) => {
                    requests.push(args);
                },
                None => {},
            }
        }
        i = i + 1;
    }
    requests
}

/// The positions, among the first `n` GPUs, of those whose registers are to
/// be mapped: the GPUs that need shared virtual memory.
pub open spec fn mmio_positions(gpu_mem: Seq<gpu_mem_t>, is_dgpu: bool, n: nat) -> Seq<usize>
    decreases n,
{
    if n == 0 {
        Seq::<usize>::empty()
    } else if is_dgpu || gfx_version_full(gpu_mem[n - 1].EngineId) >= GFX_VERSION_VEGA10 {
        mmio_positions(gpu_mem, is_dgpu, (n - 1) as nat).push((n - 1) as usize)
    } else {
        mmio_positions(gpu_mem, is_dgpu, (n - 1) as nat)
    }
}

/// Finishes setting the apertures of the process up: sets the aperture of the
/// CPU up, empties the indices of objects of every aperture, and keeps the
/// records of the GPUs and the GPUs that were reported. Hands back the
/// positions of the GPUs whose registers are to be mapped.
pub fn fmm_finish_process_apertures(
    fmm: &mut HsaKmtFmmGlobal,
    gpu_mem: Vec<gpu_mem_t>,
    reported: Vec<u32>,
    page_size: u64,
    is_dgpu: bool,
) -> (positions: Vec<usize>)
    requires
        old(fmm).wf(),
        all_gpu_mem_wf(gpu_mem@),
        gpu_mem@.len() <= i32::MAX,
    ensures
        final(fmm).wf(),
        positions@ == mmio_positions(gpu_mem@, is_dgpu, gpu_mem@.len()),
        final(fmm).gpu_mem@.len() == gpu_mem@.len(),
        final(fmm).gpu_mem_count == gpu_mem@.len(),
        forall|g: int|
            0 <= g < gpu_mem@.len() ==> gpu_without_objects(
                &gpu_mem@[g],
                &#[trigger] final(fmm).gpu_mem@[g],
            ),
        final(fmm).all_gpu_id_array == reported,
        final(fmm).cpuvm_aperture.is_fresh(
            0,
            0x7FFF_FFFF_FFFF,
            page_size,
            0,
            false,
            manageable_aperture_ops_t::ReservedRange,
        ),
        aperture_without_objects(&old(fmm).svm.default_aperture, &final(fmm).svm.default_aperture),
        aperture_without_objects(
            &old(fmm).svm.coherent_aperture,
            &final(fmm).svm.coherent_aperture,
        ),
        final(fmm).svm.state == old(fmm).svm.state,
        final(fmm).svm.userptr_for_paged_mem == old(fmm).svm.userptr_for_paged_mem,
        final(fmm).svm.check_userptr == old(fmm).svm.check_userptr,
        final(fmm).svm.reserve_svm == old(fmm).svm.reserve_svm,
        final(fmm).svm.disable_cache == old(fmm).svm.disable_cache,
        final(fmm).svm.alignment_order == old(fmm).svm.alignment_order,
        final(fmm).drm_render_fds == old(fmm).drm_render_fds,
        final(fmm).dgpu_shared_aperture_base == old(fmm).dgpu_shared_aperture_base,
        final(fmm).dgpu_shared_aperture_limit == old(fmm).dgpu_shared_aperture_limit,
{
    let mut gpu_mem = gpu_mem;
    let ghost given = gpu_mem@;
    fmm_init_cpuvm_aperture(fmm, page_size);
    fmm_init_rbtree(&mut fmm.svm, &mut fmm.cpuvm_aperture, &mut gpu_mem);
    let mut positions: Vec<usize> = Vec::new();
    let n: usize = gpu_mem.len();
    let mut i: usize = 0;
    while i < n
        invariant
            n == gpu_mem@.len(),
            n == given.len(),
            0 <= i <= n,
            forall|g: int| 0 <= g < n ==> (#[trigger] gpu_mem@[g]).EngineId == given[g].EngineId,
            positions@ == mmio_positions(given, is_dgpu, i as nat),
        decreases n - i,
    {
        if hsakmt_topology_is_svm_needed(&gpu_mem[i].EngineId, is_dgpu) {
            positions.push(i);
        }
        i = i + 1;
    }
    hsakmt_fmm_global_all_gpu_id_array_set(fmm, reported);
    hsakmt_fmm_global_gpu_mem_set(fmm, gpu_mem);
    positions
}

} // verus!
