//! What a process knows of the kernel driver's device: its descriptor, how
//! often it was opened, and the size of a page.

use vstd::prelude::*;
use crate::hsakmttypes::HsaVersionInfo;

verus! {

/// The state of the library for one process.
#[derive(Debug, Copy, Clone, PartialEq, Eq, Structural)]
pub struct HsaKmtGlobal {
    /// The descriptor of the kernel driver's device, or -1.
    pub hsakmt_kfd_fd: i32,
    pub hsakmt_kfd_open_count: u64,
    pub hsakmt_system_properties_count: u64,
    pub hsakmt_is_dgpu: bool,
    pub hsakmt_page_size: i32,
    pub hsakmt_page_shift: i32,
    /// Whether every discrete GPU of the system supports the SVM interface.
    pub hsakmt_is_svm_api_supported: bool,
    pub hsakmt_zfb_support: i32,
    /// The version of the kernel driver's interface, once it was read.
    pub hsakmt_kfd_version_info: HsaVersionInfo,
}

impl HsaKmtGlobal {
    /// The state of a process that has not opened the device.
    pub fn new() -> (global: Self)
        ensures
            global == (HsaKmtGlobal {
                hsakmt_kfd_fd: -1i32,
                hsakmt_kfd_open_count: 0,
                hsakmt_system_properties_count: 0,
                hsakmt_is_dgpu: false,
                hsakmt_page_size: 0,
                hsakmt_page_shift: 0,
                hsakmt_is_svm_api_supported: false,
                hsakmt_zfb_support: 0,
                hsakmt_kfd_version_info: HsaVersionInfo {
                    KernelInterfaceMajorVersion: 0,
                    KernelInterfaceMinorVersion: 0,
                },
            }),
    {
        HsaKmtGlobal {
            hsakmt_kfd_fd: -1,
            hsakmt_kfd_open_count: 0,
            hsakmt_system_properties_count: 0,
            hsakmt_is_dgpu: false,
            hsakmt_page_size: 0,
            hsakmt_page_shift: 0,
            hsakmt_is_svm_api_supported: false,
            hsakmt_zfb_support: 0,
            hsakmt_kfd_version_info: HsaVersionInfo {
                KernelInterfaceMajorVersion: 0,
                KernelInterfaceMinorVersion: 0,
            },
        }
    }
}

/// A copy of the state.
pub fn hsakmt_global_get(global: &HsaKmtGlobal) -> (copy: HsaKmtGlobal)
    ensures
        copy == *global,
{
    *global
}

/// Counts one more opening of the device.
pub fn hsakmt_kfd_open_count_increase(global: &mut HsaKmtGlobal)
    requires
        old(global).hsakmt_kfd_open_count < u64::MAX,
    ensures
        *final(global) == (HsaKmtGlobal {
            hsakmt_kfd_open_count: (old(global).hsakmt_kfd_open_count + 1) as u64,
            ..*old(global)
        }),
{
    global.hsakmt_kfd_open_count = global.hsakmt_kfd_open_count + 1;
}

/// Keeps `hsakmt_kfd_fd` as the descriptor of the device.
pub fn hsakmt_kfd_fd_set(global: &mut HsaKmtGlobal, hsakmt_kfd_fd: i32)
    ensures
        *final(global) == (HsaKmtGlobal { hsakmt_kfd_fd, ..*old(global) }),
{
    global.hsakmt_kfd_fd = hsakmt_kfd_fd;
}

/// The descriptor of the device.
pub fn hsakmt_kfd_fd_get(global: &HsaKmtGlobal) -> (fd: i32)
    ensures
        fd == global.hsakmt_kfd_fd,
{
    global.hsakmt_kfd_fd
}

/// Keeps `hsakmt_page_size` as the size of a page.
pub fn hsakmt_page_size_set(global: &mut HsaKmtGlobal, hsakmt_page_size: i32)
    ensures
        *final(global) == (HsaKmtGlobal { hsakmt_page_size, ..*old(global) }),
{
    global.hsakmt_page_size = hsakmt_page_size;
}

/// Keeps `hsakmt_page_shift` as the number of bits of an offset in a page.
pub fn hsakmt_page_shift_set(global: &mut HsaKmtGlobal, hsakmt_page_shift: i32)
    ensures
        *final(global) == (HsaKmtGlobal { hsakmt_page_shift, ..*old(global) }),
{
    global.hsakmt_page_shift = hsakmt_page_shift;
}

/// Keeps whether the SVM interface is supported.
pub fn hsakmt_global_is_svm_api_supported_set(global: &mut HsaKmtGlobal, is_svm_api_supported: bool)
    ensures
        *final(global) == (HsaKmtGlobal {
            hsakmt_is_svm_api_supported: is_svm_api_supported,
            ..*old(global)
        }),
{
    global.hsakmt_is_svm_api_supported = is_svm_api_supported;
}

/// Whether the system has a discrete GPU.
pub fn hsakmt_global_hsakmt_is_dgpu_get(global: &HsaKmtGlobal) -> (is_dgpu: bool)
    ensures
        is_dgpu == global.hsakmt_is_dgpu,
{
    global.hsakmt_is_dgpu
}

/// The size of a page in bytes.
pub fn global_page_size(global: &HsaKmtGlobal) -> (page_size: i32)
    ensures
        page_size == global.hsakmt_page_size,
{
    global.hsakmt_page_size
}

/// Whether the device was opened.
pub fn is_kfd_open(global: &HsaKmtGlobal) -> (open: bool)
    ensures
        open == (global.hsakmt_kfd_open_count > 0),
{
    global.hsakmt_kfd_open_count > 0
}

/// Marks a place that is reached only after the device was opened.
pub fn check_kfd_open_and_panic(global: &HsaKmtGlobal)
    requires
        global.hsakmt_kfd_open_count > 0,
{
}

} // verus!
