use hsakmt_rs::globals::HsaKmtGlobal;
use hsakmt_rs::hsakmttypes::{
    hsa_gfxip_table, node_props_t, HsaCacheProperties, HsaEngineId, HsaIoLinkProperties, HsaMemoryProperties,
    HsaNodeProperties, HsaSystemProperties, HsakmtStatus, HSA_HEAPTYPE, HSA_IOLINKTYPE,
};
use hsakmt_rs::topology::{
    hsaKmtAcquireSystemProperties, name_contains, topology_cache_source,
    topology_needs_indirect_links, CacheSource, read_sibling_map, stands_at,
    topology_iolink_counts, topology_iolink_read, topology_iolink_wanted,
    topology_snapshot_is_stable, topology_sysfs_get_cache_props, AcquireStep, LinkRead,
    add_weights, direct_iolink_info, find_first_direct_pcie, find_first_link_to,
    find_first_public_bank, find_hsa_gfxip_device, get_direct_iolink_info,
    get_indirect_iolink_info, gpu_get_direct_link_cpu, hsakmt_topology_global_g_props_get_ref,
    hsakmt_topology_global_g_props_set, hsakmt_topology_global_g_system_set,
    hsakmt_topology_global_get, hsakmt_topology_global_map_user_to_sysfs_node_id_set,
    hsakmt_topology_global_num_sysfs_nodes_set, hsakmt_topology_sysfs_get_system_props,
    indirect_iolink_info, topology_add_io_link_for_node, topology_create_indirect_gpu_links,
    topology_drop_snapshot, topology_get_free_io_link_slot_for_node,
    topology_get_node_props_from_drm, topology_sysfs_get_iolink_props,
    topology_sysfs_get_mem_props, topology_sysfs_get_node_props, topology_sysfs_iolink_node_to,
    HsaKmtTopologyGlobal, KFDBaseComponentTest, KfdTopologyNode, KfdTopologyNodeProperties,
    LinkInfo, SysDevicesVirtualKfd, HSA_GET_GFX_VERSION_MAJOR, HSA_GET_GFX_VERSION_MINOR,
    HSA_GET_GFX_VERSION_STEP, SUPPORTED_PROCESSOR_VENDORS,
};

use HsakmtStatus::{
    HSAKMT_STATUS_ERROR, HSAKMT_STATUS_INVALID_NODE_UNIT, HSAKMT_STATUS_INVALID_PARAMETER,
    HSAKMT_STATUS_NOT_SUPPORTED, HSAKMT_STATUS_NO_MEMORY, HSAKMT_STATUS_SUCCESS,
};
use HSA_IOLINKTYPE::{
    HSA_IOLINKTYPE_PCIEXPRESS, HSA_IOLINKTYPE_UNDEFINED, HSA_IOLINK_TYPE_QPI_1_1,
    HSA_IOLINK_TYPE_XGMI,
};

fn link(kind: HSA_IOLINKTYPE, from: u32, to: u32, weight: u32) -> HsaIoLinkProperties {
    let mut l = HsaIoLinkProperties::new();
    l.IoLinkType = kind;
    l.NodeFrom = from;
    l.NodeTo = to;
    l.Weight = weight;
    l
}

fn bank(kind: HSA_HEAPTYPE) -> HsaMemoryProperties {
    let mut m = HsaMemoryProperties::new();
    m.HeapType = kind;
    m
}

fn cpu(links: Vec<HsaIoLinkProperties>) -> node_props_t {
    let mut n = node_props_t::new();
    n.node.NumCPUCores = 16;
    n.node.NumIOLinks = links.len() as u32;
    n.link = links;
    n
}

fn gpu(gpu_id: u32, hive: u64, links: Vec<HsaIoLinkProperties>) -> node_props_t {
    let mut n = node_props_t::new();
    n.node.KFDGpuID = gpu_id;
    n.node.HiveID = hive;
    n.node.NumIOLinks = links.len() as u32;
    n.node.NumMemoryBanks = 2;
    n.mem = vec![
        bank(HSA_HEAPTYPE::HSA_HEAPTYPE_FRAME_BUFFER_PRIVATE),
        bank(HSA_HEAPTYPE::HSA_HEAPTYPE_FRAME_BUFFER_PUBLIC),
    ];
    n.link = links;
    n
}

/// Two sockets with one GPU each: node 0 and 1 are the CPUs, node 2 hangs on
/// node 0 and node 3 on node 1.
fn two_sockets(between: HSA_IOLINKTYPE, weight: u32) -> Vec<node_props_t> {
    vec![
        cpu(vec![link(between, 0, 1, weight), link(HSA_IOLINKTYPE_PCIEXPRESS, 0, 2, 20)]),
        cpu(vec![link(between, 1, 0, weight), link(HSA_IOLINKTYPE_PCIEXPRESS, 1, 3, 20)]),
        gpu(0xA1, 0, vec![link(HSA_IOLINKTYPE_PCIEXPRESS, 2, 0, 20)]),
        gpu(0xB2, 0, vec![link(HSA_IOLINKTYPE_PCIEXPRESS, 3, 1, 20)]),
    ]
}

fn ok(weight: u32, hsa_type: HSA_IOLINKTYPE) -> LinkInfo {
    LinkInfo { status: HSAKMT_STATUS_SUCCESS, weight, hsa_type }
}

fn none(status: HsakmtStatus) -> LinkInfo {
    LinkInfo { status, weight: 0, hsa_type: HSA_IOLINKTYPE_UNDEFINED }
}

#[test]
fn versions_in_decimal_are_taken_apart() {
    assert_eq!(HSA_GET_GFX_VERSION_MAJOR(30201), 3);
    assert_eq!(HSA_GET_GFX_VERSION_MINOR(30201), 2);
    assert_eq!(HSA_GET_GFX_VERSION_STEP(30201), 2);
    assert_eq!(HSA_GET_GFX_VERSION_MAJOR(65535), 6);
    assert_eq!(HSA_GET_GFX_VERSION_MINOR(65535), 55);
    assert_eq!(HSA_GET_GFX_VERSION_MAJOR(0), 0);
}

#[test]
fn devices_are_looked_up_in_the_table() {
    assert_eq!(find_hsa_gfxip_device(0x740F, 9), Some(hsa_gfxip_table::new(0x740F, 9, 0, 10, "Aldebaran")));
    assert_eq!(find_hsa_gfxip_device(0x1304, 0), Some(hsa_gfxip_table::new(0x1304, 7, 0, 0, "Spectre")));
    assert_eq!(find_hsa_gfxip_device(0x1681, 10), Some(hsa_gfxip_table::new(0x1681, 10, 3, 5, "YELLOW_CARP")));
    assert_eq!(find_hsa_gfxip_device(0x740F, 11), None);
    assert_eq!(find_hsa_gfxip_device(0x1234, 9), None);
}

#[test]
fn the_cpu_of_a_gpu_is_at_the_end_of_its_direct_link() {
    let nodes = two_sockets(HSA_IOLINK_TYPE_QPI_1_1, 21);
    assert_eq!(gpu_get_direct_link_cpu(2, &nodes), 0);
    assert_eq!(gpu_get_direct_link_cpu(3, &nodes), 1);
    assert_eq!(gpu_get_direct_link_cpu(0, &nodes), -1);
    let far = vec![gpu(1, 0, vec![link(HSA_IOLINKTYPE_PCIEXPRESS, 0, 5, 21), link(HSA_IOLINK_TYPE_XGMI, 0, 6, 10), link(HSA_IOLINKTYPE_PCIEXPRESS, 0, 7, 20)])];
    assert_eq!(gpu_get_direct_link_cpu(0, &far), 7);
    assert_eq!(find_first_direct_pcie(&far[0].link), 2);
    let mut counted_out = gpu(1, 0, vec![link(HSA_IOLINKTYPE_PCIEXPRESS, 0, 5, 1)]);
    counted_out.node.NumIOLinks = 0;
    assert_eq!(gpu_get_direct_link_cpu(0, &vec![counted_out]), -1);
    assert_eq!(gpu_get_direct_link_cpu(0, &vec![gpu(1, 0, vec![])]), -1);
}

#[test]
fn direct_links_are_the_first_to_the_node() {
    let nodes = two_sockets(HSA_IOLINK_TYPE_QPI_1_1, 21);
    assert_eq!(direct_iolink_info(0, 2, &nodes), ok(20, HSA_IOLINKTYPE_PCIEXPRESS));
    assert_eq!(direct_iolink_info(0, 1, &nodes), ok(21, HSA_IOLINK_TYPE_QPI_1_1));
    assert_eq!(direct_iolink_info(0, 3, &nodes), none(HSAKMT_STATUS_INVALID_PARAMETER));
    assert_eq!(direct_iolink_info(0, 0, &vec![cpu(vec![])]), none(HSAKMT_STATUS_INVALID_NODE_UNIT));
    assert_eq!(find_first_link_to(&nodes[0].link, 2), 1);
    assert_eq!(find_first_link_to(&nodes[0].link, 9), 2);
    let mut weight = 5;
    let mut kind = HSA_IOLINK_TYPE_XGMI;
    assert_eq!(get_direct_iolink_info(0, 3, &nodes, &mut weight, &mut kind), HSAKMT_STATUS_INVALID_PARAMETER);
    assert_eq!((weight, kind), (5, HSA_IOLINK_TYPE_XGMI));
    assert_eq!(get_direct_iolink_info(1, 3, &nodes, &mut weight, &mut kind), HSAKMT_STATUS_SUCCESS);
    assert_eq!((weight, kind), (20, HSA_IOLINKTYPE_PCIEXPRESS));
}

#[test]
fn indirect_links_lead_through_the_cpus() {
    let nodes = two_sockets(HSA_IOLINKTYPE_PCIEXPRESS, 40);
    assert_eq!(indirect_iolink_info(2, 3, &nodes), ok(80, HSA_IOLINKTYPE_PCIEXPRESS));
    assert_eq!(indirect_iolink_info(3, 2, &nodes), ok(80, HSA_IOLINKTYPE_PCIEXPRESS));
    assert_eq!(indirect_iolink_info(2, 1, &nodes), ok(60, HSA_IOLINKTYPE_PCIEXPRESS));
    assert_eq!(indirect_iolink_info(0, 3, &nodes), ok(60, HSA_IOLINKTYPE_PCIEXPRESS));
    assert_eq!(indirect_iolink_info(2, 0, &nodes), none(HSAKMT_STATUS_INVALID_PARAMETER));
    assert_eq!(indirect_iolink_info(2, 2, &nodes), none(HSAKMT_STATUS_INVALID_PARAMETER));
    assert_eq!(indirect_iolink_info(0, 1, &nodes), none(HSAKMT_STATUS_INVALID_NODE_UNIT));
    let mut weight = 9;
    let mut kind = HSA_IOLINK_TYPE_XGMI;
    assert_eq!(get_indirect_iolink_info(2, 3, &nodes, &mut weight, &mut kind), HSAKMT_STATUS_SUCCESS);
    assert_eq!((weight, kind), (80, HSA_IOLINKTYPE_PCIEXPRESS));
    assert_eq!(get_indirect_iolink_info(0, 1, &nodes, &mut weight, &mut kind), HSAKMT_STATUS_INVALID_NODE_UNIT);
    assert_eq!((weight, kind), (0, HSA_IOLINKTYPE_UNDEFINED));
}

#[test]
fn some_pairs_have_no_indirect_link() {
    let qpi = two_sockets(HSA_IOLINK_TYPE_QPI_1_1, 21);
    assert_eq!(indirect_iolink_info(2, 3, &qpi), none(HSAKMT_STATUS_NOT_SUPPORTED));
    let near = two_sockets(HSA_IOLINK_TYPE_QPI_1_1, 20);
    assert_eq!(indirect_iolink_info(2, 3, &near), ok(60, HSA_IOLINK_TYPE_QPI_1_1));
    let mut hive = two_sockets(HSA_IOLINKTYPE_PCIEXPRESS, 40);
    hive[2].node.HiveID = 7;
    hive[3].node.HiveID = 7;
    assert_eq!(indirect_iolink_info(2, 3, &hive), none(HSAKMT_STATUS_INVALID_PARAMETER));
    let mut private = two_sockets(HSA_IOLINKTYPE_PCIEXPRESS, 40);
    private[3].mem = vec![bank(HSA_HEAPTYPE::HSA_HEAPTYPE_FRAME_BUFFER_PRIVATE)];
    private[3].node.NumMemoryBanks = 1;
    assert_eq!(indirect_iolink_info(2, 3, &private), none(HSAKMT_STATUS_ERROR));
    assert_eq!(indirect_iolink_info(3, 2, &private), ok(80, HSA_IOLINKTYPE_PCIEXPRESS));
    assert_eq!(find_first_public_bank(&private[3].mem), 1);
    assert_eq!(find_first_public_bank(&private[2].mem), 1);
    let mut lost = two_sockets(HSA_IOLINKTYPE_PCIEXPRESS, 40);
    lost[2].link[0].Weight = 21;
    lost[3].link[0].Weight = 21;
    assert_eq!(indirect_iolink_info(2, 3, &lost), none(HSAKMT_STATUS_ERROR));
    let mut astray = two_sockets(HSA_IOLINKTYPE_PCIEXPRESS, 40);
    astray[2].link[0].NodeTo = 9;
    assert_eq!(indirect_iolink_info(2, 3, &astray), none(HSAKMT_STATUS_INVALID_NODE_UNIT));
    assert_eq!(add_weights(u32::MAX, 1, 1), 1);
    assert_eq!(add_weights(1, 2, 3), 6);
}

#[test]
fn a_node_takes_links_while_it_has_room() {
    let sys = HsaSystemProperties { NumNodes: 4, PlatformOem: 0, PlatformId: 0, PlatformRev: 0 };
    let mut nodes = two_sockets(HSA_IOLINKTYPE_PCIEXPRESS, 40);
    assert_eq!(topology_get_free_io_link_slot_for_node(2, &sys, &nodes), Some(1));
    assert_eq!(topology_get_free_io_link_slot_for_node(4, &sys, &nodes), None);
    assert_eq!(topology_add_io_link_for_node(2, &sys, &mut nodes, HSA_IOLINK_TYPE_XGMI, 3, 15), HSAKMT_STATUS_SUCCESS);
    assert_eq!(nodes[2].node.NumIOLinks, 2);
    assert_eq!(nodes[2].link[1], link(HSA_IOLINK_TYPE_XGMI, 2, 3, 15));
    assert_eq!(topology_add_io_link_for_node(2, &sys, &mut nodes, HSA_IOLINK_TYPE_XGMI, 1, 16), HSAKMT_STATUS_SUCCESS);
    assert_eq!(topology_add_io_link_for_node(2, &sys, &mut nodes, HSA_IOLINK_TYPE_XGMI, 0, 17), HSAKMT_STATUS_NO_MEMORY);
    assert_eq!(nodes[2].link.len(), 3);
    assert_eq!(nodes[2].node.NumIOLinks, 3);
    let mut bare = vec![cpu(vec![]), cpu(vec![])];
    let two = HsaSystemProperties { NumNodes: 2, PlatformOem: 0, PlatformId: 0, PlatformRev: 0 };
    assert_eq!(topology_add_io_link_for_node(0, &two, &mut bare, HSA_IOLINK_TYPE_XGMI, 1, 1), HSAKMT_STATUS_NO_MEMORY);
    let mut spare = two_sockets(HSA_IOLINKTYPE_PCIEXPRESS, 40);
    spare[3].node.NumIOLinks = 0;
    spare[3].link[0].MinimumLatency = 5;
    assert_eq!(topology_add_io_link_for_node(3, &sys, &mut spare, HSA_IOLINK_TYPE_XGMI, 2, 9), HSAKMT_STATUS_SUCCESS);
    assert_eq!(spare[3].link.len(), 1);
    assert_eq!(spare[3].link[0].NodeTo, 2);
    assert_eq!(spare[3].link[0].MinimumLatency, 5);
}

#[test]
fn every_pair_gets_its_indirect_links() {
    let sys = HsaSystemProperties { NumNodes: 4, PlatformOem: 0, PlatformId: 0, PlatformRev: 0 };
    let mut nodes = two_sockets(HSA_IOLINKTYPE_PCIEXPRESS, 40);
    topology_create_indirect_gpu_links(&sys, &mut nodes);
    let to: Vec<Vec<(u32, u32)>> = nodes.iter().map(|n| n.link.iter().map(|l| (l.NodeTo, l.Weight)).collect()).collect();
    assert_eq!(to[0], vec![(1, 40), (2, 20), (3, 60)]);
    assert_eq!(to[1], vec![(0, 40), (3, 20), (2, 60)]);
    assert_eq!(to[2], vec![(0, 20), (1, 60), (1, 60)]);
    assert_eq!(to[3], vec![(1, 20), (0, 60), (2, 80)]);
    assert!(nodes.iter().all(|n| n.node.NumIOLinks == 3));
    topology_drop_snapshot();
}

#[test]
fn what_is_known_of_the_topology_is_kept() {
    let mut topology = HsaKmtTopologyGlobal::new();
    hsakmt_topology_global_map_user_to_sysfs_node_id_set(&mut topology, vec![0, 2, 3]);
    hsakmt_topology_global_num_sysfs_nodes_set(&mut topology, 4);
    let sys = HsaSystemProperties { NumNodes: 3, PlatformOem: 1, PlatformId: 2, PlatformRev: 3 };
    hsakmt_topology_global_g_system_set(&mut topology, sys);
    hsakmt_topology_global_g_props_set(&mut topology, two_sockets(HSA_IOLINKTYPE_PCIEXPRESS, 40));
    assert_eq!(hsakmt_topology_global_g_props_get_ref(&topology), 4);
    assert_eq!(topology.hsakmt_topology_get_node_props(2).KFDGpuID, 0xA1);
    assert_eq!(topology.hsakmt_topology_get_iolink_props(0).len(), 2);
    let copy = hsakmt_topology_global_get(&topology);
    assert_eq!(copy.g_system, sys);
    assert_eq!(copy.map_user_to_sysfs_node_id, vec![0, 2, 3]);
    assert_eq!(copy.map_user_to_sysfs_node_id_size, 3);
    assert_eq!(copy.num_sysfs_nodes, 4);
    assert!(copy.g_props.is_empty());
    assert_eq!(KFDBaseComponentTest::new().m_SystemProperties, HsaSystemProperties::default());
    assert_ne!(SUPPORTED_PROCESSOR_VENDORS::GENUINE_INTEL, SUPPORTED_PROCESSOR_VENDORS::AUTHENTIC_AMD);
}

const GPU_NODE: &[u8] = b"cpu_cores_count 0\nsimd_count 416\nmem_banks_count 1\ncaches_count 0\nio_links_count 1\np2p_links_count 2\ncpu_core_id_base 0\nsimd_id_base 2147487744\nmax_waves_per_simd 8\nlds_size_in_kb 64\ngds_size_in_kb 0\nnum_gws 64\nwave_front_size 64\narray_count 16\nsimd_arrays_per_engine 2\ncu_per_simd_array 7\nsimd_per_cu 4\nmax_slots_scratch_cu 32\ngfx_target_version 90010\nvendor_id 4098\ndevice_id 29711\nlocation_id 17664\ndomain 0\ndrm_render_minor 128\nhive_id 123456789012\nnum_sdma_engines 2\nnum_sdma_xgmi_engines 3\nnum_sdma_queues_per_engine 8\nnum_cp_queues 24\nmax_engine_clk_fcompute 1700\nlocal_mem_size 68702699520\nfw_version 78\ncapability 746620544\ndebug_prop 1511\nsdma_fw_version 8\nunique_id 7070226206798274690\nnum_xcc 0\nmax_engine_clk_ccompute 3400\n";

#[test]
fn test_sysfs_nodes() {
    let mut kfd = SysDevicesVirtualKfd::new(b"platform_oem 35498446626881\nplatform_id 35987400781384\nplatform_rev 2\n");
    kfd.load_node(0, 0, b"cpu_cores_count 32\nsimd_count 0\n");
    kfd.load_node(1, 0xA1B2, GPU_NODE);
    println!("{:#?}", kfd);
    assert_eq!(kfd.platform_oem, 35498446626881);
    assert_eq!(kfd.platform_id, 35987400781384);
    assert_eq!(kfd.platform_rev, 2);
    assert_eq!(kfd.get_nodes().len(), 2);
    assert_eq!(kfd.get_nodes()[0].properties.cpu_cores_count, Some(32));
    assert_eq!(kfd.get_nodes()[0].properties.simd_count, Some(0));
    assert_eq!(kfd.get_nodes()[0].properties.device_id, None);
    assert_eq!(kfd.get_nodes()[1].gpu_id, 0xA1B2);
    assert_eq!(kfd.get_nodes()[1].properties.simd_count, Some(416));
    assert_eq!(kfd.get_nodes()[1].properties.gfx_target_version, Some(90010));
    assert_eq!(kfd.get_nodes()[1].properties.unique_id, Some(7070226206798274690));
    assert_eq!(kfd.find_node(1), 1);
    assert_eq!(kfd.find_node(5), 2);
    let mut sys = HsaSystemProperties::default();
    hsakmt_topology_sysfs_get_system_props(&kfd, &vec![0, 1], &mut sys);
    assert_eq!(sys.NumNodes, 2);
    assert_eq!(sys.PlatformOem, 35498446626881u64 as u32);
    assert_eq!(sys.PlatformRev, 2);
    assert!(KfdTopologyNodeProperties::new().simd_count.is_none());
}

#[test]
fn the_properties_of_a_gpu_node() {
    let node = KfdTopologyNode { node_id: 1, gpu_id: 0xA1B2, properties: KfdTopologyNodeProperties::parse(GPU_NODE) };
    let mut props = HsaNodeProperties::new();
    let outcome = topology_sysfs_get_node_props(&node, &mut props, true);
    assert_eq!(outcome.status, HSAKMT_STATUS_SUCCESS);
    assert!(outcome.p2p_links);
    assert_eq!(outcome.num_p2p_links, 2);
    assert!(outcome.query_drm);
    assert_eq!(props.KFDGpuID, 0xA1B2);
    assert_eq!(props.NumFComputeCores, 416);
    assert_eq!(props.NumIOLinks, 3);
    assert_eq!(props.FComputeIdLo, 2147487744);
    assert_eq!(props.NumArrays, 2);
    assert_eq!(props.NumShaderBanks, 8);
    assert_eq!(props.VendorId, 4098);
    assert_eq!(props.DeviceId, 0x740F);
    assert_eq!(props.LocationId, 17664);
    assert_eq!(props.DrmRenderMinor, 128);
    assert_eq!(props.HiveID, 123456789012);
    assert_eq!(props.LocalMemSize, 68702699520);
    assert_eq!(props.NumGws, 64);
    assert_eq!(props.NumCpQueues, 24);
    assert_eq!(props.NumSdmaQueuesPerEngine, 8);
    assert_eq!(props.Capability.Value, 746620544);
    assert_eq!(props.DebugProperties.Value, 1511);
    assert_eq!(props.uCodeEngineVersions.Value, 8);
    assert_eq!(props.UniqueID, 7070226206798274690);
    assert_eq!(props.MaxEngineClockMhzCCompute, 3400);
    assert_eq!(props.EngineId, HsaEngineId { uCode: 78, Major: 9, Minor: 0, Stepping: 10 });
    assert_eq!(props.SGPRSizePerCU, 0x4000);
    assert_eq!(props.VGPRSizePerCU, 0x80000);
    assert_eq!(props.NumXcc, 1);
    topology_get_node_props_from_drm(&mut props, 141, 1);
    assert_eq!((props.FamilyID, props.Integrated), (141, 1));
    topology_get_node_props_from_drm(&mut props, 141, 2);
    assert_eq!(props.Integrated, 0);
}

#[test]
fn the_properties_of_other_nodes() {
    let cpu_node = KfdTopologyNode { node_id: 0, gpu_id: 0, properties: KfdTopologyNodeProperties::parse(b"cpu_cores_count 32\nsimd_count 0\ncapability 134217728\n") };
    let mut props = HsaNodeProperties::new();
    props.NumXcc = 0;
    let outcome = topology_sysfs_get_node_props(&cpu_node, &mut props, false);
    assert!(!outcome.p2p_links && !outcome.query_drm);
    assert_eq!(outcome.num_p2p_links, 0);
    assert_eq!(props.NumCPUCores, 32);
    assert_eq!(props.Capability.Value, 0);
    assert_eq!(props.NumXcc, 0);
    assert_eq!(props.SGPRSizePerCU, 0);
    let unknown = KfdTopologyNode { node_id: 2, gpu_id: 5, properties: KfdTopologyNodeProperties::parse(b"simd_count 4\ndevice_id 4660\ngfx_target_version 0\n") };
    let mut props = HsaNodeProperties::new();
    let outcome = topology_sysfs_get_node_props(&unknown, &mut props, true);
    assert!(!outcome.query_drm);
    assert_eq!(props.EngineId, HsaEngineId { uCode: 0, Major: 0, Minor: 0, Stepping: 0 });
    assert_eq!(props.VGPRSizePerCU, 0);
    assert_eq!(props.NumXcc, 1);
    let by_version = KfdTopologyNode { node_id: 2, gpu_id: 5, properties: KfdTopologyNodeProperties::parse(b"simd_count 4\ndevice_id 4660\ngfx_target_version 30201\nnum_xcc 8\n") };
    let mut props = HsaNodeProperties::new();
    let outcome = topology_sysfs_get_node_props(&by_version, &mut props, true);
    assert!(outcome.query_drm);
    assert_eq!(props.EngineId, HsaEngineId { uCode: 0, Major: 3, Minor: 2, Stepping: 2 });
    assert_eq!(props.VGPRSizePerCU, 0x40000);
    assert_eq!(props.NumXcc, 8);
}

#[test]
fn the_properties_of_memory_and_links() {
    let mut mem = HsaMemoryProperties::new();
    mem.VirtualBaseAddress = 0x77;
    let status = topology_sysfs_get_mem_props(b"heap_type 1\nsize_in_bytes 68702699520\nflags 0\nwidth 4096\nmem_clk_max 1600\n", &mut mem);
    assert_eq!(status, HSAKMT_STATUS_SUCCESS);
    assert_eq!(mem.HeapType, HSA_HEAPTYPE::HSA_HEAPTYPE_FRAME_BUFFER_PUBLIC);
    assert_eq!(mem.prop.SizeInBytes, 68702699520);
    assert_eq!((mem.Width, mem.MemoryClockMax, mem.Flags.MemoryProperty), (4096, 1600, 0));
    assert_eq!(mem.VirtualBaseAddress, 0x77);
    let before = mem;
    assert_eq!(topology_sysfs_get_mem_props(b"heap_type 99\nwidth 1\n", &mut mem), HSAKMT_STATUS_ERROR);
    assert_eq!(mem, before);

    let text = b"type 2\nversion_major 0\nversion_minor 0\nnode_from 3\nnode_to 0\nweight 20\nmin_latency 1\nmax_latency 2\nmin_bandwidth 312\nmax_bandwidth 4000\nrecommended_transfer_size 4096\nrecommended_sdma_engine_id_mask 3\nflags 1\n";
    assert_eq!(topology_sysfs_iolink_node_to(text), Some(0));
    let mut l = HsaIoLinkProperties::new();
    assert_eq!(topology_sysfs_get_iolink_props(text, 2, 3, Some(0), &mut l), HSAKMT_STATUS_SUCCESS);
    assert_eq!(l.IoLinkType, HSA_IOLINKTYPE_PCIEXPRESS);
    assert_eq!((l.NodeFrom, l.NodeTo, l.Weight), (2, 0, 20));
    assert_eq!((l.MinimumLatency, l.MaximumLatency, l.MinimumBandwidth, l.MaximumBandwidth), (1, 2, 312, 4000));
    assert_eq!((l.RecTransferSize, l.RecSdmaEngIdMask, l.Flags.LinkProperty), (4096, 3, 1));
    let mut l = HsaIoLinkProperties::new();
    assert_eq!(topology_sysfs_get_iolink_props(text, 2, 4, Some(0), &mut l), HSAKMT_STATUS_INVALID_NODE_UNIT);
    assert_eq!(topology_sysfs_get_iolink_props(text, 2, 3, None, &mut l), HSAKMT_STATUS_NOT_SUPPORTED);
    assert_eq!(topology_sysfs_get_iolink_props(b"type 77\n", 2, 3, None, &mut l), HSAKMT_STATUS_ERROR);
    assert_eq!(l, HsaIoLinkProperties::new());
}

#[test]
fn the_properties_of_a_cache() {
    let mut cache = HsaCacheProperties::new();
    cache.SiblingMap[5] = 9;
    let text = b"processor_id_low 2147487744\nlevel 2\nsize 8192\ncache_line_size 128\ncache_lines_per_tag 1\nassociation 16\nlatency 0\ntype 10\nsibling_map 1,1,0,x,1,,4294967296,7\n";
    assert_eq!(topology_sysfs_get_cache_props(text, &mut cache), HSAKMT_STATUS_SUCCESS);
    assert_eq!(cache.ProcessorIdLow, 2147487744);
    assert_eq!((cache.CacheLevel, cache.CacheSize, cache.CacheLineSize), (2, 8192, 128));
    assert_eq!((cache.CacheLinesPerTag, cache.CacheAssociativity, cache.CacheLatency), (1, 16, 0));
    assert_eq!(cache.CacheType.Value, 10);
    assert_eq!(cache.SiblingMap[..9], [1, 1, 0, 0, 1, 9, 0, 7, 0]);
    let mut untouched = HsaCacheProperties::new();
    untouched.CacheLevel = 3;
    assert_eq!(topology_sysfs_get_cache_props(b"unknown 5\n", &mut untouched), HSAKMT_STATUS_SUCCESS);
    assert_eq!(untouched.CacheLevel, 3);
    assert_eq!(untouched.SiblingMap, [0u32; 256]);
    let mut long = HsaCacheProperties::new();
    let list: Vec<u8> = (0..300).map(|i| if i % 2 == 0 { b'1' } else { b',' }).collect();
    read_sibling_map(&list, 0, 299, &mut long);
    assert_eq!(long.SiblingMap[..150], [1u32; 150]);
    assert_eq!(long.SiblingMap[150..], [0u32; 106]);
}

#[test]
fn rules_of_reading_the_topology() {
    assert_eq!(topology_iolink_counts(5, 2, 4), (3, 3));
    assert_eq!(topology_iolink_counts(1, 2, 0), (0, 0));
    assert!(topology_iolink_wanted(0, 1, 0, 1));
    assert!(!topology_iolink_wanted(1, 1, 0, 1));
    assert!(!topology_iolink_wanted(0, 1, 1, 1));
    assert_eq!(topology_iolink_read(HSAKMT_STATUS_SUCCESS), LinkRead::Take);
    assert_eq!(topology_iolink_read(HSAKMT_STATUS_NOT_SUPPORTED), LinkRead::Skip);
    assert_eq!(topology_iolink_read(HSAKMT_STATUS_INVALID_NODE_UNIT), LinkRead::Fail(HSAKMT_STATUS_INVALID_NODE_UNIT));
    assert!(topology_snapshot_is_stable(4, 4));
    assert!(!topology_snapshot_is_stable(4, 5));
    let mut props = HsaNodeProperties::new();
    assert_eq!(topology_cache_source(&props), CacheSource::System);
    props.KFDGpuID = 7;
    assert_eq!(topology_cache_source(&props), CacheSource::Nowhere);
    props.NumCaches = 3;
    assert_eq!(topology_cache_source(&props), CacheSource::Driver(3));
    assert!(topology_needs_indirect_links(false, 4, 4));
    assert!(!topology_needs_indirect_links(true, 4, 4));
    assert!(!topology_needs_indirect_links(false, 4, 3));
}

#[test]
fn test_num_subdirs() {
    let names = ["cpu0", "cpu1", "cpulist", "cpumap", "meminfo", "distance", "cpu12"];
    let count = names.iter().filter(|n| name_contains(n.as_bytes(), b"cpu")).count();
    println!("{:#?}", count);
    assert_eq!(count, 5);
    assert!(name_contains(b"index3", b"index"));
    assert!(name_contains(b"abc", b""));
    assert!(name_contains(b"", b""));
    assert!(!name_contains(b"ab", b"abc"));
    assert!(!name_contains(b"xxcpx", b"cpu"));
    assert!(name_contains(b"xxcpu", b"cpu"));
    assert!(stands_at(b"xxcpu", b"cpu", 2));
    assert!(!stands_at(b"xxcpu", b"cpu", 1));
}

#[test]
fn test_a() {
    let mut kfd_base = KFDBaseComponentTest::new();
    let mut global = HsaKmtGlobal::new();
    global.hsakmt_kfd_open_count = 1;
    let mut topology = HsaKmtTopologyGlobal::new();
    let step = hsaKmtAcquireSystemProperties(&global, &topology, &mut kfd_base.m_SystemProperties);
    assert_eq!(step, AcquireStep::TakeSnapshot);
    let sys = HsaSystemProperties { NumNodes: 4, PlatformOem: 1, PlatformId: 2, PlatformRev: 3 };
    hsakmt_topology_global_g_system_set(&mut topology, sys);
    hsakmt_topology_global_g_props_set(&mut topology, two_sockets(HSA_IOLINKTYPE_PCIEXPRESS, 40));
    let step = hsaKmtAcquireSystemProperties(&global, &topology, &mut kfd_base.m_SystemProperties);
    assert_eq!(step, AcquireStep::Known);

    println!("{:#?}", kfd_base);
    let topology_global = hsakmt_topology_global_get(&topology);
    println!("{:#?}", topology_global);
    assert_eq!(kfd_base.m_SystemProperties, sys);

    assert_eq!(hsakmt_topology_global_g_props_get_ref(&topology), 4);
}
