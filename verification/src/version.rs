//! The version of the kernel driver's interface.

use vstd::prelude::*;
use crate::globals::HsaKmtGlobal;
use crate::hsakmttypes::{HsaVersionInfo, HsakmtStatus};

verus! {

/// What the kernel driver answers when asked for its version.
#[derive(Debug, Copy, Clone, PartialEq, Eq, Structural)]
pub struct KfdIoctlGetVersionArgs {
    pub major_version: u32,
    pub minor_version: u32,
}

/// The major version of the interface that this library speaks.
pub const KFD_IOCTL_MAJOR_VERSION: u32 = 1;

/// The version of the kernel driver's interface, which is 0.0 until it was
/// read.
pub fn hsa_kmt_get_version(global: &HsaKmtGlobal) -> (version: HsaVersionInfo)
    ensures
        version == global.hsakmt_kfd_version_info,
{
    global.hsakmt_kfd_version_info
}

/// Takes the kernel driver's answer to the request for its version: `ret` is
/// what the request returned, `args` what the driver filled in.
///
/// Where the request failed, nothing is kept. Otherwise the version is kept,
/// and the driver fits only if its major version is the one that this library
/// speaks.
pub fn hsakmt_init_kfd_version(global: &mut HsaKmtGlobal, ret: i32, args: &KfdIoctlGetVersionArgs)
    -> (status: HsakmtStatus)
    ensures
        ret == -1 ==> status == HsakmtStatus::HSAKMT_STATUS_ERROR && *final(global) == *old(global),
        ret != -1 ==> *final(global) == (HsaKmtGlobal {
            hsakmt_kfd_version_info: HsaVersionInfo {
                KernelInterfaceMajorVersion: args.major_version,
                KernelInterfaceMinorVersion: args.minor_version,
            },
            ..*old(global)
        }),
        ret != -1 && args.major_version != KFD_IOCTL_MAJOR_VERSION ==> status
            == HsakmtStatus::HSAKMT_STATUS_DRIVER_MISMATCH,
        ret != -1 && args.major_version == KFD_IOCTL_MAJOR_VERSION ==> status
            == HsakmtStatus::HSAKMT_STATUS_SUCCESS,
{
    if ret == -1 {
        return HsakmtStatus::HSAKMT_STATUS_ERROR;
    }
    global.hsakmt_kfd_version_info = HsaVersionInfo {
        KernelInterfaceMajorVersion: args.major_version,
        KernelInterfaceMinorVersion: args.minor_version,
    };
    if args.major_version != KFD_IOCTL_MAJOR_VERSION {
        return HsakmtStatus::HSAKMT_STATUS_DRIVER_MISMATCH;
    }
    HsakmtStatus::HSAKMT_STATUS_SUCCESS
}

} // verus!
