use hsakmt_rs::globals::{
    check_kfd_open_and_panic, global_page_size, hsakmt_global_get,
    hsakmt_global_hsakmt_is_dgpu_get, hsakmt_global_is_svm_api_supported_set, hsakmt_kfd_fd_get,
    hsakmt_kfd_fd_set, hsakmt_kfd_open_count_increase, hsakmt_page_shift_set,
    hsakmt_page_size_set, is_kfd_open, HsaKmtGlobal,
};
use hsakmt_rs::hsakmttypes::HsakmtStatus::{
    HSAKMT_STATUS_KERNEL_ALREADY_OPENED, HSAKMT_STATUS_KERNEL_IO_CHANNEL_NOT_OPENED,
    HSAKMT_STATUS_SUCCESS,
};
use hsakmt_rs::hsakmttypes::HsakmtStatus;
use hsakmt_rs::libhsakmt::{hsakmt_ioctl, ErrnoCodes, IoctlVerdict};
use hsakmt_rs::open_close::{
    ffs, hsa_kmt_close_kfd, hsakmt_open_kfd, hsakmt_open_kfd_finish, hsakmt_open_kfd_opened,
    init_page_size, page_shift_of, OpenKfdStep,
};
use hsakmt_rs::version::{hsa_kmt_get_version, hsakmt_init_kfd_version, KfdIoctlGetVersionArgs};

const CODES: ErrnoCodes = ErrnoCodes {
    eintr: 4,
    eagain: 11,
    ebadf: 9,
    enoent: 2,
    eperm: 1,
    eacces: 13,
    einval: 22,
};

/// Opens the device as a process does, with a system that hands out
/// descriptor 3 and a driver of version 1.14.
fn open_kfd(global: &mut HsaKmtGlobal) -> HsakmtStatus {
    match hsakmt_open_kfd(global) {
        OpenKfdStep::AlreadyOpened => return HSAKMT_STATUS_KERNEL_ALREADY_OPENED,
        OpenKfdStep::OpenDevice => {
            let status = hsakmt_open_kfd_opened(global, 3);
            if status != HSAKMT_STATUS_SUCCESS {
                return status;
            }
        }
        OpenKfdStep::UseDescriptor(_) => {}
    }
    init_page_size(global, 4096);
    let answer = KfdIoctlGetVersionArgs { major_version: 1, minor_version: 14 };
    hsakmt_init_kfd_version(global, 0, &answer);
    hsakmt_open_kfd_finish(global)
}

#[test]
fn test_ffs() {
    let n = 18;
    let r_1 = ffs(n);

    let n = 19;
    let r_2 = ffs(n);

    assert_eq!(r_1, 2);
    assert_eq!(r_2, 1);
}

#[test]
fn ffs_finds_the_lowest_set_bit() {
    assert_eq!(ffs(1), 1);
    assert_eq!(ffs(4096), 13);
    assert_eq!(ffs(-8), 4);
    assert_eq!(ffs(-1), 1);
    assert_eq!(ffs(i32::MAX), 1);
    assert_eq!(ffs(0x4000_0000), 31);
    assert_eq!(ffs(i32::MIN + 1), 1);
    assert_eq!(ffs(-0x4000_0000), 31);
    assert_eq!(page_shift_of(4096), 12);
    assert_eq!(page_shift_of(65536), 16);
}

#[test]
fn globals_test_hsakmt_open_kfd() {
    let mut global = HsaKmtGlobal::new();
    hsakmt_kfd_open_count_increase(&mut global);
    println!("{:#?}", hsakmt_global_get(&global));
    assert_eq!(global.hsakmt_kfd_open_count, 1);
}

#[test]
fn open_close_test_hsakmt_open_kfd() {
    let mut global = HsaKmtGlobal::new();
    let ret = open_kfd(&mut global);
    assert_eq!(ret, HSAKMT_STATUS_SUCCESS);

    println!("{:#?}", hsa_kmt_get_version(&global));
    println!("{:#?}", hsakmt_global_get(&global));
}

#[test]
fn test_hsakmt_open_kfd_already_opened() {
    let mut global = HsaKmtGlobal::new();
    let ret = open_kfd(&mut global);
    assert_eq!(ret, HSAKMT_STATUS_SUCCESS);

    let ret = open_kfd(&mut global);
    assert_eq!(ret, HSAKMT_STATUS_KERNEL_ALREADY_OPENED);

    println!("{:#?}", hsakmt_global_get(&global));
    assert_eq!(global.hsakmt_kfd_open_count, 2);
}

#[test]
fn base_test_example() {
    let mut global = HsaKmtGlobal::new();
    let ret = open_kfd(&mut global);
    assert_eq!(ret, HSAKMT_STATUS_SUCCESS);

    let version_info = hsa_kmt_get_version(&global);
    println!("version_info: {:?}", version_info);

    let ret = hsa_kmt_close_kfd();
    assert_eq!(ret, HSAKMT_STATUS_SUCCESS);
}

#[test]
fn opening_goes_step_by_step() {
    let mut global = HsaKmtGlobal::new();
    assert_eq!(hsakmt_open_kfd(&mut global), OpenKfdStep::OpenDevice);
    assert_eq!(OpenKfdStep::OpenDevice.status(), None);
    assert_eq!(OpenKfdStep::AlreadyOpened.status(), Some(HSAKMT_STATUS_KERNEL_ALREADY_OPENED));
    assert_eq!(hsakmt_open_kfd_opened(&mut global, -1), HSAKMT_STATUS_KERNEL_IO_CHANNEL_NOT_OPENED);
    assert_eq!(hsakmt_kfd_fd_get(&global), -1);
    assert!(!is_kfd_open(&global));
    assert_eq!(hsakmt_open_kfd_opened(&mut global, 5), HSAKMT_STATUS_SUCCESS);
    assert_eq!(hsakmt_kfd_fd_get(&global), 5);
    assert_eq!(hsakmt_open_kfd(&mut global), OpenKfdStep::UseDescriptor(5));
    assert_eq!(hsakmt_open_kfd_finish(&mut global), HSAKMT_STATUS_SUCCESS);
    assert!(is_kfd_open(&global));
    check_kfd_open_and_panic(&global);
    assert_eq!(hsakmt_open_kfd(&mut global), OpenKfdStep::AlreadyOpened);
    assert_eq!(global.hsakmt_kfd_open_count, 2);
}

#[test]
fn state_of_a_process_is_kept_field_by_field() {
    let mut global = HsaKmtGlobal::new();
    assert_eq!(global.hsakmt_kfd_fd, -1);
    assert_eq!(global_page_size(&global), 0);
    init_page_size(&mut global, 4096);
    assert_eq!(global_page_size(&global), 4096);
    assert_eq!(global.hsakmt_page_shift, 12);
    hsakmt_page_size_set(&mut global, 16384);
    hsakmt_page_shift_set(&mut global, 14);
    hsakmt_kfd_fd_set(&mut global, 8);
    hsakmt_global_is_svm_api_supported_set(&mut global, true);
    let copy = hsakmt_global_get(&global);
    assert_eq!(copy.hsakmt_page_size, 16384);
    assert_eq!(copy.hsakmt_page_shift, 14);
    assert_eq!(copy.hsakmt_kfd_fd, 8);
    assert!(copy.hsakmt_is_svm_api_supported);
    assert!(!hsakmt_global_hsakmt_is_dgpu_get(&global));
    assert_eq!(copy, global);
}

#[test]
fn requests_are_made_again_when_interrupted() {
    assert_eq!(hsakmt_ioctl(-1, 4, &CODES), IoctlVerdict::Retry);
    assert_eq!(hsakmt_ioctl(-1, 11, &CODES), IoctlVerdict::Retry);
    assert_eq!(hsakmt_ioctl(-1, 9, &CODES), IoctlVerdict::Done { ret: -1, fd_invalid: true });
    assert_eq!(hsakmt_ioctl(-1, 22, &CODES), IoctlVerdict::Done { ret: -1, fd_invalid: false });
    assert_eq!(hsakmt_ioctl(0, 4, &CODES), IoctlVerdict::Done { ret: 0, fd_invalid: false });
    assert_eq!(hsakmt_ioctl(0, 9, &CODES), IoctlVerdict::Done { ret: 0, fd_invalid: false });
}
