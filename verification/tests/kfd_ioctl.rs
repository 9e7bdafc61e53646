use hsakmt_rs::kfd_ioctl::{
    amdkfd_ioc_acquire_vm, amdkfd_ioc_alloc_memory_of_gpu, amdkfd_ioc_free_memory_of_gpu,
    amdkfd_ioc_get_process_apertures_new, amdkfd_ioc_get_version, amdkfd_ioc_set_memory_policy,
    ioc, kfd_process_device_apertures, AMDKFD_IOCTL_BASE, IOC_READ, IOC_READ_WRITE, IOC_WRITE,
};

#[test]
fn request_codes_match_the_driver() {
    assert_eq!(AMDKFD_IOCTL_BASE, b'K');
    assert_eq!(amdkfd_ioc_get_version(), 0x8008_4B01);
    assert_eq!(amdkfd_ioc_set_memory_policy(), 0x4020_4B04);
    assert_eq!(amdkfd_ioc_get_process_apertures_new(), 0xC010_4B14);
    assert_eq!(amdkfd_ioc_acquire_vm(), 0x4008_4B15);
    assert_eq!(amdkfd_ioc_alloc_memory_of_gpu(), 0xC028_4B16);
    assert_eq!(amdkfd_ioc_free_memory_of_gpu(), 0x4008_4B17);
}

#[test]
fn request_codes_are_put_together_from_their_parts() {
    assert_eq!(ioc(IOC_READ, b'K', 1, 8), (2 << 30) | (8 << 16) | (0x4B << 8) | 1);
    assert_eq!(ioc(IOC_WRITE, 0, 0, 0), 1 << 30);
    assert_eq!(ioc(IOC_READ_WRITE, 0xFF, 0xFF, 0x3FFF), 0xFFFF_FFFF);
    assert_eq!(ioc(0, 0, 0, 0), 0);
}

#[test]
fn a_report_is_blank_by_default() {
    let report = kfd_process_device_apertures::default();
    assert_eq!(report.gpu_id, 0);
    assert_eq!(report.gpuvm_limit, 0);
    assert_eq!(report.lds_base, 0);
}
