use hsakmt_rs::hsakmttypes::{
    align_down, align_up_checked, get_hsa_gfxip_table, hsa_gfxip_table, node_props_t,
    HsaCacheProperties, HsaEngineId, HsaIoLinkProperties, HsaMemFlags, HsaMemoryProperties,
    HsaNodeProperties, HsaSystemProperties, HsakmtStatus, HsaCacheType, ALIGN_UP,
    GPU_HUGE_PAGE_SIZE, HSA_CAPABILITY, HSA_DEBUG_PROPERTIES, HSA_ENGINE_VERSION,
    HSA_GET_GFX_VERSION_FULL, HSA_HEAPTYPE, HSA_IOLINKTYPE, HSA_LINKPROPERTY,
    HSA_MEMORYPROPERTY, HSA_MEMORY_PROP, HSA_MEM_FLAG_COARSE_GRAIN, HSA_MEM_FLAG_HOST_ACCESS,
    HSA_MEM_FLAG_NON_PAGED, HSA_MEM_FLAG_READ_ONLY,
};
use hsakmt_rs::queues::hsakmt_get_vgpr_size_per_cu;

#[test]
fn align_up_gives_the_next_multiple() {
    assert_eq!(ALIGN_UP(0x1001, 0x1000), 0x2000);
    assert_eq!(ALIGN_UP(0x1000, 0x1000), 0x1000);
    assert_eq!(ALIGN_UP(0, 0x1000), 0);
    assert_eq!(ALIGN_UP(1, 1), 1);
    assert_eq!(ALIGN_UP(10, 3), 12);
    assert_eq!(ALIGN_UP(0x1F_FFFF, GPU_HUGE_PAGE_SIZE), 0x20_0000);
    assert_eq!(ALIGN_UP(u64::MAX, 1), u64::MAX);
    assert_eq!(align_up_checked(u64::MAX, 2), None);
    assert_eq!(align_up_checked(u64::MAX - 1, 2), Some(u64::MAX - 1));
    assert_eq!(align_up_checked(7, 4), Some(8));
    assert_eq!(align_down(0x1FFF, 0x1000), 0x1000);
    assert_eq!(align_down(0x1000, 0x1000), 0x1000);
    assert_eq!(align_down(0xFFF, 0x1000), 0);
    assert_eq!(align_down(11, 3), 9);
}

#[test]
fn status_codes_keep_their_numbers() {
    assert_eq!(HsakmtStatus::HSAKMT_STATUS_SUCCESS.code(), 0);
    assert_eq!(HsakmtStatus::HSAKMT_STATUS_ERROR.code(), 1);
    assert_eq!(HsakmtStatus::HSAKMT_STATUS_DRIVER_MISMATCH.code(), 2);
    assert_eq!(HsakmtStatus::HSAKMT_STATUS_BUFFER_TOO_SMALL.code(), 7);
    assert_eq!(HsakmtStatus::HSAKMT_STATUS_NOT_IMPLEMENTED.code(), 10);
    assert_eq!(HsakmtStatus::HSAKMT_STATUS_OUT_OF_RESOURCES.code(), 13);
    assert_eq!(HsakmtStatus::HSAKMT_STATUS_KERNEL_IO_CHANNEL_NOT_OPENED.code(), 20);
    assert_eq!(HsakmtStatus::HSAKMT_STATUS_KERNEL_ALREADY_OPENED.code(), 22);
    assert_eq!(HsakmtStatus::HSAKMT_STATUS_WAIT_TIMEOUT.code(), 31);
    assert_eq!(HsakmtStatus::HSAKMT_STATUS_MEMORY_ALIGNMENT.code(), 37);
}

#[test]
fn engine_versions_pack_into_one_number() {
    let aldebaran = HsaEngineId { uCode: 0, Major: 9, Minor: 0, Stepping: 10 };
    assert_eq!(HSA_GET_GFX_VERSION_FULL(&aldebaran), 0x09000A);
    let navi = HsaEngineId { uCode: 55, Major: 10, Minor: 3, Stepping: 2 };
    assert_eq!(HSA_GET_GFX_VERSION_FULL(&navi), 0x0A0302);
    assert_eq!(hsakmt_get_vgpr_size_per_cu(0x09000A), 0x80000);
    assert_eq!(hsakmt_get_vgpr_size_per_cu(0x090008), 0x80000);
    assert_eq!(hsakmt_get_vgpr_size_per_cu(0x090400), 0x80000);
    assert_eq!(hsakmt_get_vgpr_size_per_cu(0x0904FF), 0x80000);
    assert_eq!(hsakmt_get_vgpr_size_per_cu(0x0B0000), 0x60000);
    assert_eq!(hsakmt_get_vgpr_size_per_cu(0x0B0001), 0x60000);
    assert_eq!(hsakmt_get_vgpr_size_per_cu(0x0C0000), 0x60000);
    assert_eq!(hsakmt_get_vgpr_size_per_cu(0x0C0001), 0x60000);
    assert_eq!(hsakmt_get_vgpr_size_per_cu(0x0A0302), 0x40000);
    assert_eq!(hsakmt_get_vgpr_size_per_cu(0x090000), 0x40000);
}

#[test]
fn memory_flags_have_their_bits() {
    let flags = HsaMemFlags::empty().with(HSA_MEM_FLAG_READ_ONLY, true).with(HSA_MEM_FLAG_COARSE_GRAIN, true);
    assert_eq!(flags.Value, 0x2008);
    assert!(flags.is_set(HSA_MEM_FLAG_READ_ONLY));
    assert!(!flags.is_set(HSA_MEM_FLAG_HOST_ACCESS));
    let cleared = flags.with(HSA_MEM_FLAG_READ_ONLY, false);
    assert_eq!(cleared.Value, 0x2000);
    let st = HsaMemFlags { Value: 0x0050_2075 }.fields();
    assert_eq!(st.NonPaged, 1);
    assert_eq!(st.CachePolicy, 2);
    assert_eq!(st.ReadOnly, 0);
    assert_eq!(st.PageSize, 3);
    assert_eq!(st.HostAccess, 1);
    assert_eq!(st.NoSubstitute, 0);
    assert_eq!(st.CoarseGrain, 1);
    assert_eq!(st.ExtendedCoherent, 1);
    assert_eq!(st.GTTAccess, 0);
    assert_eq!(st.Contiguous, 1);
    assert_eq!(st.Reserved, 0);
    assert_eq!(HsaMemFlags { Value: 0xFF80_0000 }.fields().Reserved, 0x1FF);
    assert_eq!(HsaMemFlags { Value: HSA_MEM_FLAG_NON_PAGED }.fields().NonPaged, 1);
}

#[test]
fn packed_words_unpack_field_by_field() {
    let cap = HSA_CAPABILITY { Value: 0x0A40_3F01 }.fields();
    assert_eq!(cap.HotPluggable, 1);
    assert_eq!(cap.HSAMMUPresent, 0);
    assert_eq!(cap.WatchPointsTotalBits, 0xF);
    assert_eq!(cap.DoorbellType, 3);
    assert_eq!(cap.AQLQueueDoubleMap, 0);
    assert_eq!(cap.ASICRevision, 9);
    assert_eq!(cap.SVMAPISupported, 1);
    assert_eq!(cap.PerQueueResetSupported, 0);
    let without = HSA_CAPABILITY { Value: 0x0A40_3F01 }.without_svm_api();
    assert_eq!(without.Value, 0x0240_3F01);
    assert_eq!(without.fields().SVMAPISupported, 0);
    let eng = HSA_ENGINE_VERSION { Value: (5 << 20) | (7 << 10) | 9 }.fields();
    assert_eq!((eng.uCodeSDMA, eng.uCodeRes, eng.Reserved), (9, 7, 5));
    let dbg = HSA_DEBUG_PROPERTIES { Value: (1 << 11) | (1 << 10) | (0x2A << 4) | 6 }.fields();
    assert_eq!(dbg.WatchAddrMaskLoBit, 6);
    assert_eq!(dbg.WatchAddrMaskHiBit, 0x2A);
    assert_eq!(dbg.DispatchInfoAlwaysValid, 1);
    assert_eq!(dbg.AddressWatchpointShareKind, 1);
    assert_eq!(dbg.Reserved, 0);
    let mem = HSA_MEMORYPROPERTY { MemoryProperty: 0b110 }.fields();
    assert_eq!((mem.HotPluggable, mem.NonVolatile, mem.Reserved), (0, 1, 1));
    let cache = HsaCacheType { Value: 0b0101 }.fields();
    assert_eq!((cache.Data, cache.Instruction, cache.CPU, cache.HSACU), (1, 0, 1, 0));
    let link = HSA_LINKPROPERTY { LinkProperty: 0b10011 }.fields();
    assert_eq!((link.Override, link.NonCoherent, link.NoAtomics32bit, link.NoAtomics64bit, link.NoPeerToPeerDMA), (1, 1, 0, 0, 1));
    let halves = HSA_MEMORY_PROP { SizeInBytes: 0x1234_5678_9ABC_DEF0 }.ui32();
    assert_eq!((halves.SizeInBytesHigh, halves.SizeInBytesLow), (0x1234_5678, 0x9ABC_DEF0));
}

#[test]
fn kinds_convert_from_their_numbers() {
    assert_eq!(HSA_HEAPTYPE::try_from(0), Ok(HSA_HEAPTYPE::HSA_HEAPTYPE_SYSTEM));
    assert_eq!(HSA_HEAPTYPE::try_from(1), Ok(HSA_HEAPTYPE::HSA_HEAPTYPE_FRAME_BUFFER_PUBLIC));
    assert_eq!(HSA_HEAPTYPE::try_from(7), Ok(HSA_HEAPTYPE::HSA_HEAPTYPE_MMIO_REMAP));
    assert_eq!(HSA_HEAPTYPE::try_from(8), Ok(HSA_HEAPTYPE::HSA_HEAPTYPE_NUMHEAPTYPES));
    assert_eq!(HSA_HEAPTYPE::try_from(0xFFFF_FFFF), Ok(HSA_HEAPTYPE::HSA_HEAPTYPE_SIZE));
    assert_eq!(HSA_HEAPTYPE::try_from(9), Err(()));
    assert_eq!(HSA_HEAPTYPE::HSA_HEAPTYPE_GPU_LDS.code(), 4);
    assert_eq!(HSA_IOLINKTYPE::try_from(2), Ok(HSA_IOLINKTYPE::HSA_IOLINKTYPE_PCIEXPRESS));
    assert_eq!(HSA_IOLINKTYPE::try_from(11), Ok(HSA_IOLINKTYPE::HSA_IOLINK_TYPE_XGMI));
    assert_eq!(HSA_IOLINKTYPE::try_from(17), Ok(HSA_IOLINKTYPE::HSA_IOLINKTYPE_NUMIOLINKTYPES));
    assert_eq!(HSA_IOLINKTYPE::try_from(18), Err(()));
    assert_eq!(HSA_IOLINKTYPE::HSA_IOLINK_TYPE_QPI_1_1.code(), 5);
}

#[test]
fn new_records_are_blank() {
    let node = HsaNodeProperties::new();
    assert_eq!(node.KFDGpuID, 0);
    assert_eq!(node.NumIOLinks, 0);
    assert_eq!(node.Capability.Value, 0);
    assert_eq!(node.MarketingName, [0u16; 64]);
    assert_eq!(node.AMDName, [0u8; 64]);
    let props = node_props_t::new();
    assert!(props.mem.is_empty() && props.cache.is_empty() && props.link.is_empty());
    assert_eq!(props.node, node);
    let mem = HsaMemoryProperties::new();
    assert_eq!(mem.HeapType, HSA_HEAPTYPE::HSA_HEAPTYPE_SYSTEM);
    assert_eq!(mem.prop.SizeInBytes, 0);
    let cache = HsaCacheProperties::new();
    assert_eq!(cache.SiblingMap, [0u32; 256]);
    assert_eq!(cache.CacheLevel, 0);
    let link = HsaIoLinkProperties::new();
    assert_eq!(link.IoLinkType, HSA_IOLINKTYPE::HSA_IOLINKTYPE_UNDEFINED);
    assert_eq!(link.Weight, 0);
    assert_eq!(HsaSystemProperties::default().NumNodes, 0);
}

#[test]
fn the_table_of_gpus_has_its_lines() {
    let table = get_hsa_gfxip_table();
    assert_eq!(table.len(), 180);
    assert_eq!(table[0], hsa_gfxip_table::new(0x1304, 7, 0, 0, "Spectre"));
    assert_eq!(table[13], hsa_gfxip_table::new(0x1312, 7, 0, 0, "Spooky"));
    assert_eq!(table[179], hsa_gfxip_table::new(0x1681, 10, 3, 5, "YELLOW_CARP"));
    let aldebaran: Vec<u16> = table.iter().filter(|l| l.amd_name == "Aldebaran").map(|l| l.device_id).collect();
    assert_eq!(aldebaran, vec![0x7408, 0x740C, 0x740F, 0x7410]);
    assert!(table.iter().all(|l| l.major >= 7 && l.major <= 10));
}
