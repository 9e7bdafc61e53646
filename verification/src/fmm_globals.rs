//! The records that the memory manager keeps: apertures, the objects
//! allocated in them, the state of the shared apertures, and what is known of
//! each GPU.

use vstd::prelude::*;
use crate::hsakmttypes::{HsaEngineId, HsaMemFlags, HSA_ENGINE_ID};
use crate::rbtree::{ordered, rbtree_node_s, rbtree_t};

verus! {

/// First and last minor number of a DRM render node.
pub const DRM_FIRST_RENDER_NODE: usize = 128;

pub const DRM_LAST_RENDER_NODE: usize = 255;

/// How an aperture comes by its address space.
#[allow(non_camel_case_types)]
#[derive(Debug, Copy, Clone, PartialEq, Eq, Structural)]
pub enum manageable_aperture_ops_t {
    /// Areas are carved out of one block that was reserved for the aperture.
    ReservedRange,
    /// Each area is an anonymous mapping of its own, placed by the system.
    MmapBacked,
}

/// A run of addresses: `size` bytes from `start`. It is empty where `size` is
/// 0.
#[allow(non_camel_case_types)]
#[derive(Debug, Copy, Clone, PartialEq, Eq, Structural)]
pub struct vm_area {
    pub start: u64,
    pub size: u64,
}

#[allow(non_camel_case_types)]
pub type vm_area_t = vm_area;

/// The record of one allocation.
#[allow(non_camel_case_types)]
#[derive(Debug)]
pub struct vm_object {
    pub start: u64,
    pub userptr: u64,
    pub userptr_size: u64,
    /// Size allocated on the GPU.
    pub size: u64,
    /// Handle that the kernel driver issued.
    pub handle: u64,
    pub node_id: u32,
    pub mflags: HsaMemFlags,
    /// Devices registered to map the object.
    pub registered_device_id_array: Vec<u32>,
    pub registered_node_id_array: Vec<u32>,
    pub registration_count: u32,
    /// Devices that have mapped it already.
    pub mapped_device_id_array: Vec<u32>,
    pub mapped_node_id_array: Vec<u32>,
    pub mapping_count: u32,
    pub metadata: u64,
    pub user_data: u64,
    pub is_imported_kfd_bo: bool,
}

#[allow(non_camel_case_types)]
pub type vm_object_t = vm_object;

/// A window of virtual address space with its own allocation policy.
///
/// `vm_ranges` holds the areas reserved in the window: each entry's key is the
/// area with its guard space, its payload the number of bytes in front of the
/// guard space. `tree` holds the objects allocated in the window, `user_tree`
/// the ranges that a user registered.
#[allow(non_camel_case_types)]
#[derive(Debug)]
pub struct manageable_aperture {
    pub base: u64,
    pub limit: u64,
    pub align: u64,
    pub guard_pages: u32,
    pub vm_ranges: rbtree_t<u64>,
    pub tree: rbtree_t<vm_object_t>,
    pub user_tree: rbtree_t<vm_object_t>,
    pub is_cpu_accessible: bool,
    pub ops: manageable_aperture_ops_t,
}

#[allow(non_camel_case_types)]
pub type manageable_aperture_t = manageable_aperture;

/// Whether `base` and `limit` bound a window: neither is null, and `base` lies
/// below `limit`.
pub open spec fn aperture_valid(base: u64, limit: u64) -> bool {
    base != 0 && limit != 0 && base < limit
}

/// Every area lies in the window from `base` to `limit`, and its payload is
/// no more than its length.
pub open spec fn areas_within(s: Seq<rbtree_node_s<u64>>, base: u64, limit: u64) -> bool {
    forall|i: int|
        0 <= i < s.len() ==> base <= (#[trigger] s[i]).key.addr && s[i].key.end() - 1 <= limit
            && s[i].data <= s[i].key.size
}

impl manageable_aperture {
    /// The invariant of an aperture: its three indices are ordered, and its
    /// areas lie in its window.
    pub open spec fn wf(&self) -> bool {
        &&& self.vm_ranges.wf()
        &&& self.tree.wf()
        &&& self.user_tree.wf()
        &&& areas_within(self.vm_ranges@, self.base, self.limit)
    }

    /// Whether the aperture has a window at all.
    pub open spec fn is_valid(&self) -> bool {
        aperture_valid(self.base, self.limit)
    }

    /// Whether the two apertures differ in their areas at most.
    pub open spec fn same_but_areas(&self, other: &Self) -> bool {
        &&& self.base == other.base
        &&& self.limit == other.limit
        &&& self.align == other.align
        &&& self.guard_pages == other.guard_pages
        &&& self.tree == other.tree
        &&& self.user_tree == other.user_tree
        &&& self.is_cpu_accessible == other.is_cpu_accessible
        &&& self.ops == other.ops
    }

    /// Whether the two apertures differ in their objects at most.
    pub open spec fn same_but_objects(&self, other: &Self) -> bool {
        &&& self.base == other.base
        &&& self.limit == other.limit
        &&& self.align == other.align
        &&& self.guard_pages == other.guard_pages
        &&& self.vm_ranges == other.vm_ranges
        &&& self.user_tree == other.user_tree
        &&& self.is_cpu_accessible == other.is_cpu_accessible
        &&& self.ops == other.ops
    }

    /// An aperture without a window and without entries.
    pub fn new() -> (aperture: Self)
        ensures
            aperture.wf(),
            !aperture.is_valid(),
            aperture.base == 0,
            aperture.limit == 0,
            aperture.align == 0,
            aperture.guard_pages == 0,
            !aperture.is_cpu_accessible,
            aperture.ops == manageable_aperture_ops_t::ReservedRange,
            aperture.vm_ranges@.len() == 0,
            aperture.tree@.len() == 0,
            aperture.user_tree@.len() == 0,
    {
        manageable_aperture {
            base: 0,
            limit: 0,
            align: 0,
            guard_pages: 0,
            vm_ranges: rbtree_t::new(),
            tree: rbtree_t::new(),
            user_tree: rbtree_t::new(),
            is_cpu_accessible: false,
            ops: manageable_aperture_ops_t::ReservedRange,
        }
    }

    /// Whether the aperture has the given window and policy, and no entries.
    pub open spec fn is_fresh(
        &self,
        base: u64,
        limit: u64,
        align: u64,
        guard_pages: u32,
        is_cpu_accessible: bool,
        ops: manageable_aperture_ops_t,
    ) -> bool {
        &&& self.base == base
        &&& self.limit == limit
        &&& self.align == align
        &&& self.guard_pages == guard_pages
        &&& self.is_cpu_accessible == is_cpu_accessible
        &&& self.ops == ops
        &&& self.vm_ranges@.len() == 0
        &&& self.tree@.len() == 0
        &&& self.user_tree@.len() == 0
    }

    /// An aperture with the given window and policy, and no entries.
    pub fn with_window(
        base: u64,
        limit: u64,
        align: u64,
        guard_pages: u32,
        is_cpu_accessible: bool,
        ops: manageable_aperture_ops_t,
    ) -> (aperture: Self)
        ensures
            aperture.wf(),
            aperture.is_fresh(base, limit, align, guard_pages, is_cpu_accessible, ops),
    {
        manageable_aperture {
            base,
            limit,
            align,
            guard_pages,
            vm_ranges: rbtree_t::new(),
            tree: rbtree_t::new(),
            user_tree: rbtree_t::new(),
            is_cpu_accessible,
            ops,
        }
    }

    /// A copy of the aperture's window and policy, with no entries.
    pub fn create_partial_clone(&self) -> (aperture: Self)
        ensures
            aperture.wf(),
            aperture.base == self.base,
            aperture.limit == self.limit,
            aperture.align == self.align,
            aperture.guard_pages == self.guard_pages,
            aperture.is_cpu_accessible == self.is_cpu_accessible,
            aperture.ops == self.ops,
            aperture.vm_ranges@.len() == 0,
            aperture.tree@.len() == 0,
            aperture.user_tree@.len() == 0,
    {
        manageable_aperture {
            base: self.base,
            limit: self.limit,
            align: self.align,
            guard_pages: self.guard_pages,
            vm_ranges: rbtree_t::new(),
            tree: rbtree_t::new(),
            user_tree: rbtree_t::new(),
            is_cpu_accessible: self.is_cpu_accessible,
            ops: self.ops,
        }
    }
}

/// The two apertures of the shared virtual memory.
#[allow(non_camel_case_types)]
#[derive(Debug, Copy, Clone, PartialEq, Eq, Structural)]
pub enum svm_aperture_type {
    /// The aperture for memory whose coherence is not kept by the hardware.
    SVM_DEFAULT,
    /// The alternate aperture, for coherent memory.
    SVM_COHERENT,
    /// The number of apertures; it names none.
    SVM_APERTURE_NUM,
}

/// How far the shared virtual memory has been set up.
#[derive(Debug, Copy, Clone, PartialEq, Eq, Structural)]
pub enum SvmState {
    Uninitialized,
    /// One aperture over the whole range, whose areas the system places.
    DirectMapped,
    /// Two apertures carved out of one reserved block.
    ReservedRange,
    /// No range was found that every GPU can address; nothing more is tried.
    Error,
}

/// The shared virtual memory: address space that CPU and GPUs address alike.
#[allow(non_camel_case_types)]
#[derive(Debug)]
pub struct svm_t {
    /// The aperture that `SVM_DEFAULT` names.
    pub default_aperture: manageable_aperture_t,
    /// The aperture that `SVM_COHERENT` names.
    pub coherent_aperture: manageable_aperture_t,
    pub state: SvmState,
    /// Whether paged memory is allocated as userptr.
    pub userptr_for_paged_mem: bool,
    /// Whether userptrs are checked when they are registered.
    pub check_userptr: bool,
    /// Whether address space is reserved even where the whole range could be
    /// used directly.
    pub reserve_svm: bool,
    /// Whether all memory is coherent, the GPU's cache being off.
    pub disable_cache: bool,
    /// Alignments grow up to the size of a page doubled this many times.
    pub alignment_order: u32,
}

impl svm_t {
    /// The invariant of the shared virtual memory: that of its apertures.
    pub open spec fn wf(&self) -> bool {
        self.default_aperture.wf() && self.coherent_aperture.wf()
    }

    /// Whether the apertures have been set up.
    pub open spec fn is_initialized(&self) -> bool {
        self.state == SvmState::DirectMapped || self.state == SvmState::ReservedRange
    }

    /// Shared virtual memory that has not been set up.
    pub fn new() -> (svm: Self)
        ensures
            svm.wf(),
            svm.state == SvmState::Uninitialized,
            !svm.default_aperture.is_valid(),
            !svm.coherent_aperture.is_valid(),
            svm.default_aperture.vm_ranges@.len() == 0,
            svm.coherent_aperture.vm_ranges@.len() == 0,
            !svm.userptr_for_paged_mem && !svm.check_userptr && !svm.reserve_svm
                && !svm.disable_cache,
            svm.alignment_order == 0,
    {
        svm_t {
            default_aperture: manageable_aperture::new(),
            coherent_aperture: manageable_aperture::new(),
            state: SvmState::Uninitialized,
            userptr_for_paged_mem: false,
            check_userptr: false,
            reserve_svm: false,
            disable_cache: false,
            alignment_order: 0,
        }
    }

    /// The aperture that `which` names.
    pub fn aperture(&self, which: svm_aperture_type) -> (r: Option<&manageable_aperture_t>)
        ensures
            which == svm_aperture_type::SVM_DEFAULT ==> r == Some(&self.default_aperture),
            which == svm_aperture_type::SVM_COHERENT ==> r == Some(&self.coherent_aperture),
            which == svm_aperture_type::SVM_APERTURE_NUM ==> r is None,
    {
        match which {
            svm_aperture_type::SVM_DEFAULT => Some(&self.default_aperture),
            svm_aperture_type::SVM_COHERENT => Some(&self.coherent_aperture),
            svm_aperture_type::SVM_APERTURE_NUM => None,
        }
    }

    /// The aperture for memory of discrete GPUs, once the apertures are set
    /// up.
    pub fn dgpu_aperture(&self) -> (r: Option<&manageable_aperture_t>)
        ensures
            self.is_initialized() ==> r == Some(&self.default_aperture),
            !self.is_initialized() ==> r is None,
    {
        match self.state {
            SvmState::DirectMapped => Some(&self.default_aperture),
            SvmState::ReservedRange => Some(&self.default_aperture),
            _ => None,
        }
    }

    /// The aperture for coherent memory of discrete GPUs, once the apertures
    /// are set up: the alternate one where address space was reserved, the
    /// one there is otherwise.
    pub fn dgpu_alt_aperture(&self) -> (r: Option<&manageable_aperture_t>)
        ensures
            self.state == SvmState::DirectMapped ==> r == Some(&self.default_aperture),
            self.state == SvmState::ReservedRange ==> r == Some(&self.coherent_aperture),
            !self.is_initialized() ==> r is None,
    {
        match self.state {
            SvmState::DirectMapped => Some(&self.default_aperture),
            SvmState::ReservedRange => Some(&self.coherent_aperture),
            _ => None,
        }
    }
}

/// A window of address space that is not managed here: its first and its last
/// address.
#[allow(non_camel_case_types)]
#[derive(Debug, Copy, Clone, PartialEq, Eq, Structural)]
pub struct aperture_t {
    pub base: u64,
    pub limit: u64,
}

/// What is known of one GPU.
#[allow(non_camel_case_types)]
#[allow(non_snake_case)]
#[derive(Debug)]
pub struct gpu_mem_t {
    pub gpu_id: u32,
    pub device_id: u32,
    pub node_id: u32,
    pub local_mem_size: u64,
    pub EngineId: HSA_ENGINE_ID,
    pub lds_aperture: aperture_t,
    pub scratch_aperture: aperture_t,
    pub mmio_aperture: aperture_t,
    /// Physical scratch memory. On a discrete GPU it is allocated from the
    /// shared apertures.
    pub scratch_physical: manageable_aperture_t,
    /// Address space of the GPU outside the canonical range.
    pub gpuvm_aperture: manageable_aperture_t,
    pub drm_render_fd: i32,
    /// The number of entries of `usable_peer_id_array`.
    pub usable_peer_id_num: u32,
    /// The GPUs that can map memory of this one, itself first.
    pub usable_peer_id_array: Vec<u32>,
    pub drm_render_minor: u32,
}

impl gpu_mem_t {
    /// The invariant of the record: that of its apertures, and the count of
    /// its peers.
    pub open spec fn wf(&self) -> bool {
        &&& self.scratch_physical.wf()
        &&& self.gpuvm_aperture.wf()
        &&& self.usable_peer_id_num == self.usable_peer_id_array@.len()
    }

    /// The record of a GPU of which nothing is known.
    pub fn new() -> (gpu: Self)
        ensures
            gpu.wf(),
            gpu.gpu_id == 0 && gpu.device_id == 0 && gpu.node_id == 0 && gpu.local_mem_size == 0,
            gpu.EngineId == (HsaEngineId { uCode: 0, Major: 0, Minor: 0, Stepping: 0 }),
            gpu.lds_aperture == (aperture_t { base: 0, limit: 0 }),
            gpu.scratch_aperture == (aperture_t { base: 0, limit: 0 }),
            gpu.mmio_aperture == (aperture_t { base: 0, limit: 0 }),
            !gpu.scratch_physical.is_valid() && !gpu.gpuvm_aperture.is_valid(),
            gpu.scratch_physical.align == 0 && gpu.gpuvm_aperture.align == 0,
            gpu.scratch_physical.guard_pages == 0 && gpu.gpuvm_aperture.guard_pages == 0,
            gpu.drm_render_fd == 0 && gpu.drm_render_minor == 0,
            gpu.usable_peer_id_array@ == Seq::<u32>::empty(),
    {
        gpu_mem_t {
            gpu_id: 0,
            device_id: 0,
            node_id: 0,
            local_mem_size: 0,
            EngineId: HsaEngineId { uCode: 0, Major: 0, Minor: 0, Stepping: 0 },
            lds_aperture: aperture_t { base: 0, limit: 0 },
            scratch_aperture: aperture_t { base: 0, limit: 0 },
            mmio_aperture: aperture_t { base: 0, limit: 0 },
            scratch_physical: manageable_aperture::new(),
            gpuvm_aperture: manageable_aperture::new(),
            drm_render_fd: 0,
            usable_peer_id_num: 0,
            usable_peer_id_array: Vec::new(),
            drm_render_minor: 0,
        }
    }
}

/// Every record of the sequence meets its invariant.
pub open spec fn all_gpu_mem_wf(gpu_mem: Seq<gpu_mem_t>) -> bool {
    forall|i: int| 0 <= i < gpu_mem.len() ==> (#[trigger] gpu_mem[i]).wf()
}

/// The ids of the GPUs that the records are of, in the order of the records.
pub open spec fn gpu_ids(gpu_mem: Seq<gpu_mem_t>) -> Seq<u32> {
    Seq::new(gpu_mem.len(), |i: int| gpu_mem[i].gpu_id)
}

/// The node ids of the GPUs that the records are of, in the order of the
/// records.
pub open spec fn gpu_node_ids(gpu_mem: Seq<gpu_mem_t>) -> Seq<u32> {
    Seq::new(gpu_mem.len(), |i: int| gpu_mem[i].node_id)
}

/// The first position at which `id` stands in `ids`, or -1 where it stands
/// nowhere.
pub open spec fn first_index(ids: Seq<u32>, id: u32) -> int
    decreases ids.len(),
{
    if ids.len() == 0 {
        -1
    } else if first_index(ids.drop_last(), id) >= 0 {
        first_index(ids.drop_last(), id)
    } else if ids.last() == id {
        ids.len() - 1
    } else {
        -1
    }
}

/// The position of the first record of GPU `gpu_id`, or -1 where there is
/// none.
pub open spec fn gpu_mem_index_of(gpu_mem: Seq<gpu_mem_t>, gpu_id: u32) -> int {
    first_index(gpu_ids(gpu_mem), gpu_id)
}

/// `first_index` gives a position at which `id` stands and before which it
/// does not, and -1 only where it stands nowhere.
pub proof fn lemma_first_index(ids: Seq<u32>, id: u32)
    ensures
        -1 <= first_index(ids, id) < ids.len(),
        first_index(ids, id) >= 0 ==> ids[first_index(ids, id)] == id,
        forall|i: int|
            0 <= i < ids.len() && (first_index(ids, id) < 0 || i < first_index(ids, id))
                ==> #[trigger] ids[i] != id,
    decreases ids.len(),
{
    if ids.len() > 0 {
        let t = ids.drop_last();
        lemma_first_index(t, id);
        assert forall|i: int|
            0 <= i < ids.len()
                && (first_index(ids, id) < 0 || i < first_index(ids, id)) implies #[trigger] ids[i]
            != id by {
            if i < t.len() {
                assert(t[i] == ids[i]);
            }
        }
        if first_index(t, id) >= 0 {
            assert(t[first_index(t, id)] == ids[first_index(t, id)]);
        }
    }
}

/// The first position of `id` in a prefix of `ids` is its first position in
/// all of them.
pub proof fn lemma_first_index_prefix(ids: Seq<u32>, id: u32, n: int)
    requires
        0 <= n <= ids.len(),
        first_index(ids.take(n), id) >= 0,
    ensures
        first_index(ids, id) == first_index(ids.take(n), id),
    decreases ids.len() - n,
{
    if n < ids.len() {
        assert(ids.take(n + 1).drop_last() =~= ids.take(n));
        lemma_first_index_prefix(ids, id, n + 1);
    } else {
        assert(ids.take(n) =~= ids);
    }
}

/// The number of DRM render nodes whose descriptors are kept.
pub const DRM_RENDER_NODE_COUNT: usize = 128;

/// The state of the memory manager for one process. The descriptors of the
/// render nodes are kept for the life of the process, since the kernel driver
/// ties a GPU's VM to the descriptor that it was first acquired with.
#[derive(Debug)]
pub struct HsaKmtFmmGlobal {
    /// The descriptor of each render node that was opened, by its minor
    /// number less `DRM_FIRST_RENDER_NODE`; 0 where it was not.
    pub drm_render_fds: Vec<i32>,
    pub svm: svm_t,
    /// One record for each GPU.
    pub gpu_mem: Vec<gpu_mem_t>,
    pub gpu_mem_count: u32,
    /// The GPUs that memory is mapped to by default.
    pub all_gpu_id_array: Vec<u32>,
    /// The size of `all_gpu_id_array` in bytes.
    pub all_gpu_id_array_sizea: u32,
    /// The address space of the CPU.
    pub cpuvm_aperture: manageable_aperture_t,
    pub dgpu_shared_aperture_base: u64,
    pub dgpu_shared_aperture_limit: u64,
}

impl HsaKmtFmmGlobal {
    /// The invariant of the state: that of its parts, and the counts that it
    /// keeps.
    pub open spec fn wf(&self) -> bool {
        &&& self.drm_render_fds@.len() == DRM_RENDER_NODE_COUNT
        &&& self.svm.wf()
        &&& all_gpu_mem_wf(self.gpu_mem@)
        &&& self.gpu_mem_count == self.gpu_mem@.len()
        &&& self.gpu_mem@.len() <= i32::MAX
        &&& self.cpuvm_aperture.wf()
    }

    /// The state of a process that has set nothing up.
    pub fn new() -> (fmm: Self)
        ensures
            fmm.wf(),
            fmm.svm.state == SvmState::Uninitialized,
            !fmm.svm.default_aperture.is_valid() && !fmm.svm.coherent_aperture.is_valid(),
            !fmm.svm.userptr_for_paged_mem && !fmm.svm.check_userptr && !fmm.svm.reserve_svm
                && !fmm.svm.disable_cache,
            fmm.svm.alignment_order == 0,
            !fmm.cpuvm_aperture.is_valid(),
            fmm.cpuvm_aperture.vm_ranges@.len() == 0,
            fmm.gpu_mem@.len() == 0,
            fmm.gpu_mem_count == 0,
            fmm.all_gpu_id_array@.len() == 0,
            fmm.all_gpu_id_array_sizea == 0,
            fmm.dgpu_shared_aperture_base == 0,
            fmm.dgpu_shared_aperture_limit == 0,
            forall|i: int| 0 <= i < DRM_RENDER_NODE_COUNT ==> fmm.drm_render_fds@[i] == 0,
    {
        let mut fds: Vec<i32> = Vec::new();
        while fds.len() < DRM_RENDER_NODE_COUNT
            invariant
                fds@.len() <= DRM_RENDER_NODE_COUNT,
                forall|i: int| 0 <= i < fds@.len() ==> fds@[i] == 0,
            decreases DRM_RENDER_NODE_COUNT - fds@.len(),
        {
            fds.push(0);
        }
        HsaKmtFmmGlobal {
            drm_render_fds: fds,
            svm: svm_t::new(),
            gpu_mem: Vec::new(),
            gpu_mem_count: 0,
            all_gpu_id_array: Vec::new(),
            all_gpu_id_array_sizea: 0,
            cpuvm_aperture: manageable_aperture::new(),
            dgpu_shared_aperture_base: 0,
            dgpu_shared_aperture_limit: 0,
        }
    }

    /// Keeps `fd` as the descriptor of the render node at `index`.
    pub fn drm_render_fd_set(&mut self, index: usize, fd: i32)
        requires
            index < old(self).drm_render_fds@.len(),
        ensures
            final(self).drm_render_fds@ == old(self).drm_render_fds@.update(index as int, fd),
            final(self).svm == old(self).svm,
            final(self).gpu_mem == old(self).gpu_mem,
            final(self).gpu_mem_count == old(self).gpu_mem_count,
            final(self).all_gpu_id_array == old(self).all_gpu_id_array,
            final(self).all_gpu_id_array_sizea == old(self).all_gpu_id_array_sizea,
            final(self).cpuvm_aperture == old(self).cpuvm_aperture,
            final(self).dgpu_shared_aperture_base == old(self).dgpu_shared_aperture_base,
            final(self).dgpu_shared_aperture_limit == old(self).dgpu_shared_aperture_limit,
    {
        self.drm_render_fds[index] = fd;
    }

    /// The position of the first record of GPU `gpu_id`, or -1 where there is
    /// none.
    pub fn gpu_mem_find_by_gpu_id(&self, gpu_id: u32) -> (r: i32)
        requires
            self.gpu_mem@.len() <= i32::MAX,
        ensures
            r == gpu_mem_index_of(self.gpu_mem@, gpu_id),
    {
        gpu_mem_find(&self.gpu_mem, gpu_id)
    }
}

/// The position of the first record of GPU `gpu_id` among `gpu_mem`, or -1
/// where there is none.
pub fn gpu_mem_find(gpu_mem: &Vec<gpu_mem_t>, gpu_id: u32) -> (r: i32)
    requires
        gpu_mem@.len() <= i32::MAX,
    ensures
        r == gpu_mem_index_of(gpu_mem@, gpu_id),
{
    let ghost ids = gpu_ids(gpu_mem@);
    let n: usize = gpu_mem.len();
    let mut i: usize = 0;
    while i < n
        invariant
            n == gpu_mem@.len(),
            ids == gpu_ids(gpu_mem@),
            n <= i32::MAX,
            0 <= i <= n,
            first_index(ids.take(i as int), gpu_id) == -1,
        decreases n - i,
    {
        assert(ids.take(i + 1).drop_last() =~= ids.take(i as int));
        if gpu_mem[i].gpu_id == gpu_id {
            proof {
                lemma_first_index_prefix(ids, gpu_id, i + 1);
            }
            return i as i32;
        }
        i = i + 1;
    }
    assert(ids.take(n as int) =~= ids);
    -1
}

/// The position of the first record of the GPU on node `node_id` among
/// `gpu_mem`, or -1 where there is none.
pub fn gpu_mem_find_by_node_id(gpu_mem: &Vec<gpu_mem_t>, node_id: u32) -> (r: i32)
    requires
        gpu_mem@.len() <= i32::MAX,
    ensures
        r == first_index(gpu_node_ids(gpu_mem@), node_id),
{
    let ghost ids = gpu_node_ids(gpu_mem@);
    let n: usize = gpu_mem.len();
    let mut i: usize = 0;
    while i < n
        invariant
            n == gpu_mem@.len(),
            ids == gpu_node_ids(gpu_mem@),
            n <= i32::MAX,
            0 <= i <= n,
            first_index(ids.take(i as int), node_id) == -1,
        decreases n - i,
    {
        assert(ids.take(i + 1).drop_last() =~= ids.take(i as int));
        if gpu_mem[i].node_id == node_id {
            proof {
                lemma_first_index_prefix(ids, node_id, i + 1);
            }
            return i as i32;
        }
        i = i + 1;
    }
    assert(ids.take(n as int) =~= ids);
    -1
}

/// A copy of what the state says of the process as a whole: the descriptors
/// and counts, with nothing of the apertures and GPUs.
pub fn hsakmt_fmm_global_get(fmm: &HsaKmtFmmGlobal) -> (copy: HsaKmtFmmGlobal)
    requires
        fmm.wf(),
    ensures
        copy.drm_render_fds@ == fmm.drm_render_fds@,
        copy.gpu_mem_count == fmm.gpu_mem_count,
        copy.gpu_mem@.len() == 0,
        copy.all_gpu_id_array@.len() == 0,
        copy.all_gpu_id_array_sizea == 0,
        copy.svm.state == SvmState::Uninitialized,
        !copy.svm.default_aperture.is_valid() && !copy.svm.coherent_aperture.is_valid(),
        !copy.svm.userptr_for_paged_mem && !copy.svm.check_userptr && !copy.svm.reserve_svm
            && !copy.svm.disable_cache,
        copy.svm.alignment_order == 0,
        !copy.cpuvm_aperture.is_valid(),
        copy.cpuvm_aperture.vm_ranges@.len() == 0,
        copy.dgpu_shared_aperture_base == 0,
        copy.dgpu_shared_aperture_limit == 0,
{
    let mut fds: Vec<i32> = Vec::new();
    let mut i: usize = 0;
    while i < fmm.drm_render_fds.len()
        invariant
            0 <= i <= fmm.drm_render_fds@.len(),
            fds@ == fmm.drm_render_fds@.take(i as int),
        decreases fmm.drm_render_fds@.len() - i,
    {
        fds.push(fmm.drm_render_fds[i]);
        assert(fds@ =~= fmm.drm_render_fds@.take(i + 1));
        i = i + 1;
    }
    assert(fds@ =~= fmm.drm_render_fds@);
    HsaKmtFmmGlobal {
        drm_render_fds: fds,
        svm: svm_t::new(),
        gpu_mem: Vec::new(),
        gpu_mem_count: fmm.gpu_mem_count,
        all_gpu_id_array: Vec::new(),
        all_gpu_id_array_sizea: 0,
        cpuvm_aperture: manageable_aperture::new(),
        dgpu_shared_aperture_base: 0,
        dgpu_shared_aperture_limit: 0,
    }
}

/// Takes `vec` as the records of the GPUs.
pub fn hsakmt_fmm_global_gpu_mem_set(fmm: &mut HsaKmtFmmGlobal, vec: Vec<gpu_mem_t>)
    requires
        old(fmm).wf(),
        all_gpu_mem_wf(vec@),
        vec@.len() <= i32::MAX,
    ensures
        final(fmm).wf(),
        final(fmm).gpu_mem == vec,
        final(fmm).gpu_mem_count == vec@.len(),
        final(fmm).drm_render_fds == old(fmm).drm_render_fds,
        final(fmm).svm == old(fmm).svm,
        final(fmm).all_gpu_id_array == old(fmm).all_gpu_id_array,
        final(fmm).all_gpu_id_array_sizea == old(fmm).all_gpu_id_array_sizea,
        final(fmm).cpuvm_aperture == old(fmm).cpuvm_aperture,
        final(fmm).dgpu_shared_aperture_base == old(fmm).dgpu_shared_aperture_base,
        final(fmm).dgpu_shared_aperture_limit == old(fmm).dgpu_shared_aperture_limit,
{
    fmm.gpu_mem_count = vec.len() as u32;
    fmm.gpu_mem = vec;
}

/// The number of GPUs.
pub fn hsakmt_fmm_global_gpu_mem_count_get(fmm: &HsaKmtFmmGlobal) -> (count: u32)
    ensures
        count == fmm.gpu_mem_count,
{
    fmm.gpu_mem_count
}

/// The position of the first record of GPU `gpu_id`, or -1 where there is
/// none.
pub fn gpu_mem_find_by_gpu_id(fmm: &HsaKmtFmmGlobal, gpu_id: u32) -> (r: i32)
    requires
        fmm.gpu_mem@.len() <= i32::MAX,
    ensures
        r == gpu_mem_index_of(fmm.gpu_mem@, gpu_id),
{
    fmm.gpu_mem_find_by_gpu_id(gpu_id)
}

/// Takes `all_gpu_id_array` as the GPUs that memory is mapped to by default.
/// The size that is kept with them is their number times the four bytes of
/// each, as far as a `u32` holds it.
pub fn hsakmt_fmm_global_all_gpu_id_array_set(fmm: &mut HsaKmtFmmGlobal, all_gpu_id_array: Vec<u32>)
    ensures
        final(fmm).all_gpu_id_array == all_gpu_id_array,
        final(fmm).all_gpu_id_array_sizea == (if all_gpu_id_array@.len() * 4 <= u32::MAX {
            (all_gpu_id_array@.len() * 4) as u32
        } else {
            u32::MAX
        }),
        final(fmm).drm_render_fds == old(fmm).drm_render_fds,
        final(fmm).svm == old(fmm).svm,
        final(fmm).gpu_mem == old(fmm).gpu_mem,
        final(fmm).gpu_mem_count == old(fmm).gpu_mem_count,
        final(fmm).cpuvm_aperture == old(fmm).cpuvm_aperture,
        final(fmm).dgpu_shared_aperture_base == old(fmm).dgpu_shared_aperture_base,
        final(fmm).dgpu_shared_aperture_limit == old(fmm).dgpu_shared_aperture_limit,
{
    let n: usize = all_gpu_id_array.len();
    fmm.all_gpu_id_array_sizea = if n <= 0x3FFF_FFFF {
        (n * 4) as u32
    } else {
        u32::MAX
    };
    fmm.all_gpu_id_array = all_gpu_id_array;
}

/// The last address of the apertures that the GPUs share, or 0 where they
/// have not been set up.
pub fn hsakmt_fmm_global_dgpu_shared_aperture_limit_get(fmm: &HsaKmtFmmGlobal) -> (limit: u64)
    ensures
        limit == fmm.dgpu_shared_aperture_limit,
{
    fmm.dgpu_shared_aperture_limit
}

/// How many times the size of a page is doubled to give the greatest
/// alignment.
pub fn hsakmt_fmm_global_alignment_order_get(fmm: &HsaKmtFmmGlobal) -> (order: u32)
    ensures
        order == fmm.svm.alignment_order,
{
    fmm.svm.alignment_order
}

/// Whether address space is to be reserved in any case.
pub fn hsakmt_fmm_global_svm_reserve_svm_get(fmm: &HsaKmtFmmGlobal) -> (reserve: bool)
    ensures
        reserve == fmm.svm.reserve_svm,
{
    fmm.svm.reserve_svm
}

/// Takes `svm` as the shared virtual memory.
pub fn hsakmt_fmm_global_svm_set(fmm: &mut HsaKmtFmmGlobal, svm: svm_t)
    ensures
        final(fmm).svm == svm,
        final(fmm).drm_render_fds == old(fmm).drm_render_fds,
        final(fmm).gpu_mem == old(fmm).gpu_mem,
        final(fmm).gpu_mem_count == old(fmm).gpu_mem_count,
        final(fmm).all_gpu_id_array == old(fmm).all_gpu_id_array,
        final(fmm).all_gpu_id_array_sizea == old(fmm).all_gpu_id_array_sizea,
        final(fmm).cpuvm_aperture == old(fmm).cpuvm_aperture,
        final(fmm).dgpu_shared_aperture_base == old(fmm).dgpu_shared_aperture_base,
        final(fmm).dgpu_shared_aperture_limit == old(fmm).dgpu_shared_aperture_limit,
{
    fmm.svm = svm;
}

} // verus!
