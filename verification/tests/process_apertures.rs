use hsakmt_rs::fmm::{aperture_allocate_area, aperture_allocate_object, fmm_allocate_device_finish};
use hsakmt_rs::fmm_globals::{
    aperture_t, gpu_mem_find, gpu_mem_find_by_gpu_id, gpu_mem_find_by_node_id,
    gpu_mem_t, hsakmt_fmm_global_alignment_order_get, hsakmt_fmm_global_all_gpu_id_array_set,
    hsakmt_fmm_global_dgpu_shared_aperture_limit_get, hsakmt_fmm_global_get,
    hsakmt_fmm_global_gpu_mem_count_get, hsakmt_fmm_global_gpu_mem_set,
    hsakmt_fmm_global_svm_reserve_svm_get, hsakmt_fmm_global_svm_set, manageable_aperture,
    manageable_aperture_ops_t, svm_t, HsaKmtFmmGlobal, SvmState,
};
use hsakmt_rs::globals::HsaKmtGlobal;
use hsakmt_rs::hsakmttypes::{
    HsaEngineId, HsaIoLinkProperties, HsaMemFlags, HsaNodeProperties, HSA_MEM_FLAG_HOST_ACCESS,
    HSA_MEM_FLAG_NON_PAGED,
};
use hsakmt_rs::kfd_ioctl::{kfd_ioctl_alloc_memory_of_gpu_args, kfd_process_device_apertures};
use hsakmt_rs::libhsakmt::ErrnoCodes;
use hsakmt_rs::hsakmttypes::{node_props_t, HsakmtStatus};
use hsakmt_rs::topology::HsaKmtTopologyGlobal;
use hsakmt_rs::process_apertures::{
    acquire_vm, env_flag, env_number, fmm_add_usable_peers, fmm_apply_process_apertures,
    fmm_finish_process_apertures, fmm_gpu_nodes, fmm_init_gpu_mem, fmm_memory_policy_requests,
    fmm_svm_is_needed, RenderNode,
    fmm_init_cpuvm_aperture, fmm_init_rbtree, fmm_memory_policy_args, get_process_apertures,
    get_vm_alignment, gpu_mem_add_peer, gpu_mem_init_node, gpu_mem_set_device_apertures,
    hsakmt_fmm_init_process_apertures, hsakmt_open_drm_render_device,
    hsakmt_open_drm_render_device_opened, hsakmt_topology_is_svm_needed,
    init_mem_handle_aperture, map_mmio, map_mmio_ioc_flags, mmio_aperture_at,
    render_open_failure, svm_range_add, topology_sysfs_check_node_supported, RenderDeviceStep,
    RenderOpenFailure, SvmRange,
};

const PAGE: u64 = 0x1000;

const CODES: ErrnoCodes = ErrnoCodes {
    eintr: 4,
    eagain: 11,
    ebadf: 9,
    enoent: 2,
    eperm: 1,
    eacces: 13,
    einval: 22,
};

fn node(gpu_id: u32, device_id: u16, minor: i32) -> HsaNodeProperties {
    let mut props = HsaNodeProperties::new();
    props.KFDGpuID = gpu_id;
    props.DeviceId = device_id;
    props.DrmRenderMinor = minor;
    props.LocalMemSize = 0x4_0000_0000;
    props.EngineId = HsaEngineId { uCode: 17, Major: 9, Minor: 0, Stepping: 10 };
    props
}

fn report(gpu_id: u32, base: u64, limit: u64) -> kfd_process_device_apertures {
    kfd_process_device_apertures {
        lds_base: 0x1_0000_0000_0000 + gpu_id as u64,
        lds_limit: 0x1_0000_FFFF_FFFF,
        scratch_base: 0x2_0000_0000_0000,
        scratch_limit: 0x2_0000_FFFF_FFFF,
        gpuvm_base: base,
        gpuvm_limit: limit,
        gpu_id,
        pad: 0,
    }
}

fn two_gpus() -> Vec<gpu_mem_t> {
    vec![
        gpu_mem_init_node(1, &node(0xA1, 0x740F, 128), 10, PAGE, 0x1000, 1),
        gpu_mem_init_node(2, &node(0xB2, 0x7408, 129), 11, PAGE, 0x1000, 1),
    ]
}

#[test]
fn the_shared_limit_is_the_least_of_the_gpus() {
    let mut gpus = two_gpus();
    let reports = vec![
        report(0xA1, 0x1_0000, 0x7FFF_FFFF_FFFF),
        report(0xB2, 0x4000, 0x6FFF_FFFF_FFFF),
    ];
    let (range, reported) = fmm_apply_process_apertures(&mut gpus, &reports, 0x1000);
    assert_eq!(range.limit, 0x6FFF_FFFF_FFFF);
    assert_eq!(range.base, 0x1_0000);
    assert_eq!(range.alignment, 0x1000);
    assert_eq!(reported, vec![0, 1]);
    let other_order = vec![reports[1], reports[0]];
    let mut gpus = two_gpus();
    let (range, reported) = fmm_apply_process_apertures(&mut gpus, &other_order, 0x1000);
    assert_eq!(range, SvmRange { base: 0x1_0000, limit: 0x6FFF_FFFF_FFFF, alignment: 0x1000 });
    assert_eq!(reported, vec![1, 0]);
}

#[test]
fn gpus_outside_the_canonical_range_keep_their_own_aperture() {
    let mut gpus = two_gpus();
    let reports = vec![
        report(0xA1, 0x1_0000, 0x3FFF_FFFF_FFFF),
        report(0x77, 0x9000, 0x0FFF_FFFF),
        report(0xB2, 0x8000_0000_0000, 0xFFFF_FFFF_FFFF),
    ];
    let (range, reported) = fmm_apply_process_apertures(&mut gpus, &reports, 0x2000);
    assert_eq!(range, SvmRange { base: 0x1_0000, limit: 0x3FFF_FFFF_FFFF, alignment: 0x2000 });
    assert_eq!(reported, vec![0, 1]);
    assert_eq!(gpus[0].lds_aperture, aperture_t { base: 0x1_0000_0000_00A1, limit: 0x1_0000_FFFF_FFFF });
    assert_eq!(gpus[0].scratch_aperture, aperture_t { base: 0x2_0000_0000_0000, limit: 0x2_0000_FFFF_FFFF });
    assert_eq!((gpus[0].gpuvm_aperture.base, gpus[0].gpuvm_aperture.limit), (0, 0));
    assert_eq!(gpus[0].scratch_physical.align, 0x2000);
    assert_eq!((gpus[1].gpuvm_aperture.base, gpus[1].gpuvm_aperture.limit), (0x8000_0000_0000, 0xFFFF_FFFF_FFFF));
    assert_eq!(gpus[1].scratch_physical.align, PAGE);
    assert_eq!(gpus[1].gpu_id, 0xB2);
}

#[test]
fn no_report_no_shared_range() {
    let mut gpus = two_gpus();
    let (range, reported) = fmm_apply_process_apertures(&mut gpus, &Vec::new(), 0x1000);
    assert_eq!(range, SvmRange { base: 0, limit: 0, alignment: 0 });
    assert!(reported.is_empty());
    let start = SvmRange { base: 0x5000, limit: 0x9000_0000, alignment: 0x1000 };
    assert_eq!(svm_range_add(start, &report(1, 0x6000, 0x8000_0000), 0x800), SvmRange { base: 0x6000, limit: 0x8000_0000, alignment: 0x1000 });
    assert_eq!(svm_range_add(start, &report(1, 0x4000, 0xA000_0000), 0x4000), SvmRange { base: 0x5000, limit: 0x9000_0000, alignment: 0x4000 });
    assert_eq!(svm_range_add(start, &report(1, 0x6000, 0x8000_0000_0000), 0x4000), start);
}

#[test]
fn the_record_of_a_gpu_starts_from_its_node() {
    let gpu = gpu_mem_init_node(3, &node(0xC3, 0x73BF, 130), 12, PAGE, 0x2000, 4);
    assert_eq!(gpu.gpu_id, 0xC3);
    assert_eq!(gpu.device_id, 0x73BF);
    assert_eq!(gpu.node_id, 3);
    assert_eq!(gpu.local_mem_size, 0x4_0000_0000);
    assert_eq!(gpu.EngineId, HsaEngineId { uCode: 0, Major: 9, Minor: 0, Stepping: 10 });
    assert_eq!(gpu.drm_render_fd, 12);
    assert_eq!(gpu.drm_render_minor, 130);
    assert_eq!(gpu.usable_peer_id_array, vec![0xC3]);
    assert_eq!(gpu.usable_peer_id_num, 1);
    assert_eq!(gpu.scratch_physical.align, PAGE);
    assert_eq!(gpu.gpuvm_aperture.align, 0x2000);
    assert_eq!(gpu.gpuvm_aperture.guard_pages, 4);
    assert_eq!(gpu.mmio_aperture, aperture_t { base: 0, limit: 0 });
    let blank = gpu_mem_t::new();
    assert_eq!(blank.gpu_id, 0);
    assert!(blank.usable_peer_id_array.is_empty());
}

#[test]
fn single_reports_and_peers() {
    let mut gpu = gpu_mem_init_node(1, &node(0xA1, 0x740F, 128), 10, PAGE, 0x1000, 1);
    gpu_mem_set_device_apertures(&mut gpu, &report(0xA1, 0x8000_0000_0000, 0x8000_FFFF_FFFF), 0x4000);
    assert_eq!((gpu.gpuvm_aperture.base, gpu.gpuvm_aperture.limit), (0x8000_0000_0000, 0x8000_FFFF_FFFF));
    assert_eq!(gpu.scratch_physical.align, PAGE);
    gpu_mem_add_peer(&mut gpu, 0xB2);
    assert_eq!(gpu.usable_peer_id_array, vec![0xA1, 0xB2]);
    assert_eq!(gpu.usable_peer_id_num, 2);
}

#[test]
fn a_gpu_joins_the_peers_of_those_it_is_linked_to() {
    let mut gpus = two_gpus();
    gpus.push(gpu_mem_init_node(5, &node(0xD4, 0x7410, 131), 13, PAGE, 0x1000, 1));
    let mut links = Vec::new();
    for to in [0u32, 2, 7, 5, 2] {
        let mut link = HsaIoLinkProperties::new();
        link.NodeFrom = 1;
        link.NodeTo = to;
        links.push(link);
    }
    fmm_add_usable_peers(&mut gpus, 0xA1, &links);
    assert_eq!(gpus[0].usable_peer_id_array, vec![0xA1]);
    assert_eq!(gpus[1].usable_peer_id_array, vec![0xB2, 0xA1, 0xA1]);
    assert_eq!(gpus[1].usable_peer_id_num, 3);
    assert_eq!(gpus[2].usable_peer_id_array, vec![0xD4, 0xA1]);
    assert_eq!(gpus[2].usable_peer_id_num, 2);
}

#[test]
fn gpus_are_found_by_id_and_by_node() {
    let mut gpus = two_gpus();
    gpus.push(gpu_mem_init_node(9, &node(0xA1, 0x7410, 131), 13, PAGE, 0x1000, 1));
    assert_eq!(gpu_mem_find(&gpus, 0xA1), 0);
    assert_eq!(gpu_mem_find(&gpus, 0xB2), 1);
    assert_eq!(gpu_mem_find(&gpus, 0xC3), -1);
    assert_eq!(gpu_mem_find_by_node_id(&gpus, 9), 2);
    assert_eq!(gpu_mem_find_by_node_id(&gpus, 0), -1);
    let mut fmm = HsaKmtFmmGlobal::new();
    assert_eq!(gpu_mem_find_by_gpu_id(&fmm, 0xA1), -1);
    hsakmt_fmm_global_gpu_mem_set(&mut fmm, gpus);
    assert_eq!(hsakmt_fmm_global_gpu_mem_count_get(&fmm), 3);
    assert_eq!(gpu_mem_find_by_gpu_id(&fmm, 0xB2), 1);
    assert_eq!(fmm.gpu_mem_find_by_gpu_id(0xA1), 0);
}

#[test]
fn test_globals() {
    let mut fmm = HsaKmtFmmGlobal::new();
    println!("{:?}", fmm);
    fmm.drm_render_fd_set(0, 32);
    println!("{:?}", fmm);
    assert_eq!(fmm.drm_render_fds[0], 32);
    assert_eq!(fmm.drm_render_fds.len(), 128);
    assert!(fmm.drm_render_fds[1..].iter().all(|fd| *fd == 0));
}

#[test]
fn state_of_the_manager_is_kept_field_by_field() {
    let mut fmm = HsaKmtFmmGlobal::new();
    hsakmt_fmm_global_all_gpu_id_array_set(&mut fmm, vec![7, 8, 9]);
    assert_eq!(fmm.all_gpu_id_array, vec![7, 8, 9]);
    assert_eq!(fmm.all_gpu_id_array_sizea, 12);
    assert_eq!(hsakmt_fmm_global_dgpu_shared_aperture_limit_get(&fmm), 0);
    let mut svm = svm_t::new();
    svm.alignment_order = 12;
    svm.reserve_svm = true;
    hsakmt_fmm_global_svm_set(&mut fmm, svm);
    assert_eq!(hsakmt_fmm_global_alignment_order_get(&fmm), 12);
    assert!(hsakmt_fmm_global_svm_reserve_svm_get(&fmm));
    fmm.drm_render_fd_set(127, 44);
    hsakmt_fmm_global_gpu_mem_set(&mut fmm, two_gpus());
    let copy = hsakmt_fmm_global_get(&fmm);
    assert_eq!(copy.drm_render_fds, fmm.drm_render_fds);
    assert_eq!(copy.gpu_mem_count, 2);
    assert!(copy.gpu_mem.is_empty());
    assert!(copy.all_gpu_id_array.is_empty());
    assert_eq!(copy.svm.alignment_order, 0);
    assert_eq!(copy.svm.state, SvmState::Uninitialized);
}

#[test]
fn render_nodes_are_opened_once() {
    let mut fmm = HsaKmtFmmGlobal::new();
    assert_eq!(hsakmt_open_drm_render_device(&fmm, 127, &CODES), RenderDeviceStep::OutOfRange(-22));
    assert_eq!(hsakmt_open_drm_render_device(&fmm, 256, &CODES), RenderDeviceStep::OutOfRange(-22));
    assert_eq!(hsakmt_open_drm_render_device(&fmm, 128, &CODES), RenderDeviceStep::Open { index: 0 });
    assert_eq!(hsakmt_open_drm_render_device(&fmm, 255, &CODES), RenderDeviceStep::Open { index: 127 });
    assert_eq!(hsakmt_open_drm_render_device_opened(&mut fmm, 0, -1, 13), -13);
    assert_eq!(hsakmt_open_drm_render_device_opened(&mut fmm, 0, -1, 0), -1);
    assert_eq!(hsakmt_open_drm_render_device(&fmm, 128, &CODES), RenderDeviceStep::Open { index: 0 });
    assert_eq!(hsakmt_open_drm_render_device_opened(&mut fmm, 0, 9, 0), 9);
    assert_eq!(hsakmt_open_drm_render_device(&fmm, 128, &CODES), RenderDeviceStep::Cached(9));
    assert_eq!(hsakmt_open_drm_render_device(&fmm, 129, &CODES), RenderDeviceStep::Open { index: 1 });
}

#[test]
fn errors_of_opening_a_render_node() {
    assert_eq!(render_open_failure(2, &CODES), RenderOpenFailure::Unsupported);
    assert_eq!(render_open_failure(1, &CODES), RenderOpenFailure::Unsupported);
    assert_eq!(render_open_failure(13, &CODES), RenderOpenFailure::AccessDenied);
    assert_eq!(render_open_failure(5, &CODES), RenderOpenFailure::Other);
    assert!(topology_sysfs_check_node_supported(0, -2));
    assert!(topology_sysfs_check_node_supported(0xA1, 7));
    assert!(!topology_sysfs_check_node_supported(0xA1, 0));
    assert!(!topology_sysfs_check_node_supported(0xA1, -13));
}

#[test]
fn switches_and_numbers_of_the_environment() {
    assert!(!env_flag(None));
    assert!(!env_flag(Some("0")));
    assert!(env_flag(Some("1")));
    assert!(env_flag(Some("")));
    assert!(env_flag(Some("00")));
    assert!(env_flag(Some("no")));
    assert_eq!(env_number(None, 9), 9);
    assert_eq!(env_number(Some("18"), 9), 18);
    assert_eq!(env_number(Some(" 4\n"), 9), 4);
    assert_eq!(env_number(Some("+7"), 9), 7);
    assert_eq!(env_number(Some("0"), 9), 0);
    assert_eq!(env_number(Some("4294967295"), 9), u32::MAX);
    assert_eq!(env_number(Some("4294967296"), 9), 9);
    assert_eq!(env_number(Some("12x"), 9), 9);
    assert_eq!(env_number(Some("-1"), 9), 9);
    assert_eq!(env_number(Some(""), 9), 9);
}

#[test]
fn the_environment_sets_the_shared_memory_up() {
    let mut fmm = HsaKmtFmmGlobal::new();
    let guard = hsakmt_fmm_init_process_apertures(&mut fmm, None, None, None, None, None);
    assert_eq!(guard, 1);
    assert_eq!(fmm.svm.alignment_order, 9);
    assert!(!fmm.svm.disable_cache && !fmm.svm.check_userptr && !fmm.svm.reserve_svm);
    let guard = hsakmt_fmm_init_process_apertures(&mut fmm, Some("1"), Some("0"), Some("yes"), Some("18"), Some("3"));
    assert_eq!(guard, 3);
    assert_eq!(fmm.svm.alignment_order, 18);
    assert!(fmm.svm.disable_cache);
    assert!(!fmm.svm.check_userptr);
    assert!(fmm.svm.reserve_svm);
}

#[test]
fn small_answers() {
    let mut global = HsaKmtGlobal::new();
    global.hsakmt_page_size = 4096;
    assert_eq!(get_vm_alignment(&global, 0x6920), 4096);
    assert_eq!(get_vm_alignment(&global, 0x7408), 4096);
    assert!(init_mem_handle_aperture(0x1000, 1));
    let vega10 = HsaEngineId { uCode: 0, Major: 9, Minor: 0, Stepping: 0 };
    let fiji = HsaEngineId { uCode: 0, Major: 8, Minor: 0, Stepping: 3 };
    assert!(hsakmt_topology_is_svm_needed(&vega10, false));
    assert!(!hsakmt_topology_is_svm_needed(&fiji, false));
    assert!(hsakmt_topology_is_svm_needed(&fiji, true));
    let args = acquire_vm(0xA1, 12);
    assert_eq!((args.gpu_id, args.drm_fd), (0xA1, 12));
    let args = get_process_apertures(0x7000_1000, 4);
    assert_eq!((args.kfd_process_device_apertures_ptr, args.num_of_nodes, args.pad), (0x7000_1000, 4, 0));
    assert_eq!(map_mmio_ioc_flags(), 0x8400_0010);
    assert_eq!(mmio_aperture_at(0x5000, PAGE), Some(aperture_t { base: 0x5000, limit: 0x5FFF }));
    assert_eq!(mmio_aperture_at(0, PAGE), None);
    assert_eq!(mmio_aperture_at(u64::MAX, PAGE), None);
}

#[test]
fn memory_policy_points_at_the_coherent_aperture() {
    let mut svm = svm_t::new();
    assert_eq!(fmm_memory_policy_args(&svm, 5), None);
    svm.coherent_aperture = manageable_aperture::with_window(0x20_0000, 0x40_0017_FFFF, PAGE, 1, true, manageable_aperture_ops_t::ReservedRange);
    svm.default_aperture = manageable_aperture::with_window(0x40_0018_0000, 0xFF_FFFF_FFFF, PAGE, 1, true, manageable_aperture_ops_t::ReservedRange);
    svm.state = SvmState::ReservedRange;
    let args = fmm_memory_policy_args(&svm, 5).unwrap();
    assert_eq!(args.gpu_id, 5);
    assert_eq!(args.alternate_aperture_base, 0x20_0000);
    assert_eq!(args.alternate_aperture_size, 0x3F_FFF8_0000);
    assert_eq!(args.default_policy, 1);
    assert_eq!(args.alternate_policy, 0);
    svm.disable_cache = true;
    svm.state = SvmState::DirectMapped;
    let args = fmm_memory_policy_args(&svm, 6).unwrap();
    assert_eq!(args.alternate_aperture_base, 0x40_0018_0000);
    assert_eq!(args.default_policy, 0);
}

#[test]
fn objects_are_dropped_when_the_indices_are_set_up() {
    let mut svm = svm_t::new();
    svm.default_aperture = manageable_aperture::with_window(0x10000, 0xFFFFF, PAGE, 1, true, manageable_aperture_ops_t::ReservedRange);
    aperture_allocate_object(&mut svm.default_aperture, 0x20000, 1, PAGE, HsaMemFlags::empty()).unwrap();
    aperture_allocate_area(&mut svm.default_aperture, None, PAGE, PAGE, 9, None).unwrap();
    let mut cpu = manageable_aperture::with_window(0x10000, 0xFFFFF, PAGE, 0, true, manageable_aperture_ops_t::ReservedRange);
    aperture_allocate_object(&mut cpu, 0x30000, 2, PAGE, HsaMemFlags::empty()).unwrap();
    let mut gpus = two_gpus();
    gpus[1].gpuvm_aperture.base = 0x10000;
    gpus[1].gpuvm_aperture.limit = 0xFFFFF;
    aperture_allocate_object(&mut gpus[1].gpuvm_aperture, 0x40000, 3, PAGE, HsaMemFlags::empty()).unwrap();
    fmm_init_rbtree(&mut svm, &mut cpu, &mut gpus);
    assert_eq!(svm.default_aperture.tree.len(), 0);
    assert_eq!(svm.default_aperture.vm_ranges.len(), 1);
    assert_eq!(cpu.tree.len(), 0);
    assert_eq!(gpus[1].gpuvm_aperture.tree.len(), 0);
    assert_eq!(gpus[1].gpuvm_aperture.base, 0x10000);
    assert_eq!(gpus.len(), 2);
    let mut fmm = HsaKmtFmmGlobal::new();
    fmm_init_cpuvm_aperture(&mut fmm, PAGE);
    assert_eq!((fmm.cpuvm_aperture.base, fmm.cpuvm_aperture.limit, fmm.cpuvm_aperture.align), (0, 0x7FFF_FFFF_FFFF, PAGE));
}

#[test]
fn the_registers_of_a_gpu_are_one_marked_page() {
    let mut aperture = manageable_aperture::with_window(0x10000, 0xFFFFF, PAGE, 1, true, manageable_aperture_ops_t::ReservedRange);
    let mut gpu = gpu_mem_init_node(1, &node(0xA1, 0x740F, 128), 10, PAGE, 0x1000, 1);
    let grant = aperture_allocate_area(&mut aperture, None, PAGE, PAGE, 9, None).unwrap();
    assert!(!map_mmio(&mut gpu, &mut aperture, grant.address, 1, PAGE));
    assert_eq!(gpu.mmio_aperture, aperture_t { base: 0, limit: 0 });
    let answer = kfd_ioctl_alloc_memory_of_gpu_args { va_addr: 0, size: 0, handle: 0x51, mmap_offset: 0x9000, gpu_id: 0xA1, flags: 0 };
    assert_eq!(fmm_allocate_device_finish(&mut aperture, grant.address, PAGE, &answer, 0, map_mmio_ioc_flags(), PAGE), Ok(0x9000));
    assert!(map_mmio(&mut gpu, &mut aperture, grant.address, 1, PAGE));
    assert_eq!(gpu.mmio_aperture, aperture_t { base: grant.address, limit: grant.address + PAGE - 1 });
    let object = aperture.tree.find_exact(grant.address).unwrap();
    assert_eq!(object.data.node_id, 1);
    assert_eq!(object.data.handle, 0x51);
    assert_eq!(object.data.mflags.Value, HSA_MEM_FLAG_NON_PAGED | HSA_MEM_FLAG_HOST_ACCESS);
    assert_eq!(aperture.tree.len(), 1);
}

fn topology_of(nodes: Vec<HsaNodeProperties>) -> HsaKmtTopologyGlobal {
    let mut topology = HsaKmtTopologyGlobal::new();
    topology.num_sysfs_nodes = nodes.len();
    topology.g_props = nodes
        .into_iter()
        .map(|node| {
            let mut props = node_props_t::new();
            props.node = node;
            props
        })
        .collect();
    topology
}

#[test]
fn render_nodes_are_opened_for_the_gpus_only() {
    let mut with_svm = node(0xB2, 0x7408, 129);
    with_svm.Capability.Value = 1 << 27;
    let topology = topology_of(vec![HsaNodeProperties::new(), node(0xA1, 0x740F, 128), HsaNodeProperties::new(), with_svm]);
    let nodes = fmm_gpu_nodes(&topology, 4);
    assert_eq!(nodes, vec![RenderNode { node_id: 1, minor: 128 }, RenderNode { node_id: 3, minor: 129 }]);
    assert_eq!(fmm_gpu_nodes(&topology, 3), vec![RenderNode { node_id: 1, minor: 128 }]);
    assert!(fmm_gpu_nodes(&topology, 0).is_empty());

    let mut global = HsaKmtGlobal::new();
    global.hsakmt_page_size = 4096;
    let gpus = fmm_init_gpu_mem(&mut global, &topology, &nodes, &vec![10, 11], 2).unwrap();
    assert_eq!(gpus.len(), 2);
    assert_eq!((gpus[0].gpu_id, gpus[0].node_id, gpus[0].drm_render_fd), (0xA1, 1, 10));
    assert_eq!((gpus[1].gpu_id, gpus[1].node_id, gpus[1].drm_render_fd), (0xB2, 3, 11));
    assert_eq!(gpus[1].gpuvm_aperture.guard_pages, 2);
    assert_eq!(gpus[1].gpuvm_aperture.align, 4096);
    assert_eq!(gpus[1].usable_peer_id_array, vec![0xB2]);
    assert!(global.hsakmt_is_svm_api_supported);

    let mut other = HsaKmtGlobal::new();
    let failed = fmm_init_gpu_mem(&mut other, &topology, &nodes, &vec![10, 0], 2);
    assert_eq!(failed.err(), Some(HsakmtStatus::HSAKMT_STATUS_ERROR));
    let failed = fmm_init_gpu_mem(&mut other, &topology, &nodes, &vec![-13, 11], 2);
    assert_eq!(failed.err(), Some(HsakmtStatus::HSAKMT_STATUS_ERROR));
    let mut few = topology_of(vec![HsaNodeProperties::new(), node(0xA1, 0x740F, 128)]);
    few.num_sysfs_nodes = 0;
    let failed = fmm_init_gpu_mem(&mut other, &few, &vec![RenderNode { node_id: 1, minor: 128 }], &vec![10], 2);
    assert_eq!(failed.err(), Some(HsakmtStatus::HSAKMT_STATUS_ERROR));
    assert_eq!(other, HsaKmtGlobal::new());
}

#[test]
fn policies_go_to_the_gpus_that_share_the_apertures() {
    assert!(!fmm_svm_is_needed(&SvmRange { base: 5, limit: 0, alignment: 0 }));
    assert!(fmm_svm_is_needed(&SvmRange { base: 0, limit: 1, alignment: 0 }));
    let reports = vec![
        report(0xA1, 0x1_0000, 0x3FFF_FFFF_FFFF),
        report(0xB2, 0x8000_0000_0000, 0xFFFF_FFFF_FFFF),
        report(0xC3, 0x1_0000, 0x7FFF_FFFF_FFFF),
    ];
    let mut svm = svm_t::new();
    assert!(fmm_memory_policy_requests(&svm, &reports).is_empty());
    svm.default_aperture = manageable_aperture::with_window(0x20_0000, 0x7FFF_FFFF_FFFF, PAGE, 1, true, manageable_aperture_ops_t::MmapBacked);
    svm.state = SvmState::DirectMapped;
    let requests = fmm_memory_policy_requests(&svm, &reports);
    assert_eq!(requests.iter().map(|r| r.gpu_id).collect::<Vec<_>>(), vec![0xA1, 0xC3]);
    assert!(requests.iter().all(|r| r.alternate_aperture_base == 0x20_0000 && r.alternate_aperture_size == 0x7FFF_FFE0_0000));
    assert!(requests.iter().all(|r| r.default_policy == 1 && r.alternate_policy == 0));
}

#[test]
fn the_end_of_the_set_up() {
    let mut fmm = HsaKmtFmmGlobal::new();
    let mut gpus = two_gpus();
    gpus[0].EngineId = HsaEngineId { uCode: 0, Major: 8, Minor: 0, Stepping: 3 };
    gpus[1].gpuvm_aperture.base = 0x10000;
    gpus[1].gpuvm_aperture.limit = 0xFFFFF;
    aperture_allocate_object(&mut gpus[1].gpuvm_aperture, 0x40000, 3, PAGE, HsaMemFlags::empty()).unwrap();
    let positions = fmm_finish_process_apertures(&mut fmm, gpus, vec![1, 0], PAGE, false);
    assert_eq!(positions, vec![1]);
    assert_eq!(fmm.gpu_mem.len(), 2);
    assert_eq!(fmm.gpu_mem_count, 2);
    assert_eq!(fmm.all_gpu_id_array, vec![1, 0]);
    assert_eq!(fmm.all_gpu_id_array_sizea, 8);
    assert_eq!(fmm.gpu_mem[1].gpuvm_aperture.tree.len(), 0);
    assert_eq!(fmm.gpu_mem[1].gpuvm_aperture.base, 0x10000);
    assert_eq!((fmm.cpuvm_aperture.base, fmm.cpuvm_aperture.limit), (0, 0x7FFF_FFFF_FFFF));
    let mut all = HsaKmtFmmGlobal::new();
    assert_eq!(fmm_finish_process_apertures(&mut all, two_gpus(), vec![], PAGE, true), vec![0, 1]);
}
