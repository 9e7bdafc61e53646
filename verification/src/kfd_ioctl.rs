//! What is exchanged with the kernel driver: request codes, the records that
//! go with them, and the flags of an allocation.

use vstd::prelude::*;

verus! {

/// The apertures that the kernel driver reports for one device.
#[allow(non_camel_case_types)]
#[derive(Debug, Copy, Clone, PartialEq, Eq, Structural, Default)]
pub struct kfd_process_device_apertures {
    pub lds_base: u64,
    pub lds_limit: u64,
    pub scratch_base: u64,
    pub scratch_limit: u64,
    pub gpuvm_base: u64,
    pub gpuvm_limit: u64,
    pub gpu_id: u32,
    pub pad: u32,
}

/// Asks for the apertures of every device. `kfd_process_device_apertures_ptr`
/// is the address of the records to fill, `num_of_nodes` how many there is
/// room for and, afterwards, how many were filled.
#[allow(non_camel_case_types)]
#[derive(Debug, Copy, Clone, PartialEq, Eq, Structural)]
pub struct kfd_ioctl_get_process_apertures_new_args {
    pub kfd_process_device_apertures_ptr: u64,
    pub num_of_nodes: u32,
    pub pad: u32,
}

/// Binds the VM of a render node to a device.
#[allow(non_camel_case_types)]
#[derive(Debug, Copy, Clone, PartialEq, Eq, Structural)]
pub struct kfd_ioctl_acquire_vm_args {
    pub drm_fd: u32,
    pub gpu_id: u32,
}

/// Cache policies of a memory policy.
pub const KFD_IOC_CACHE_POLICY_COHERENT: u32 = 0;

pub const KFD_IOC_CACHE_POLICY_NONCOHERENT: u32 = 1;

/// Sets the cache policy of a device: one by default, and another inside the
/// alternate aperture.
#[allow(non_camel_case_types)]
#[derive(Debug, Copy, Clone, PartialEq, Eq, Structural)]
pub struct kfd_ioctl_set_memory_policy_args {
    pub alternate_aperture_base: u64,
    pub alternate_aperture_size: u64,
    pub gpu_id: u32,
    pub default_policy: u32,
    pub alternate_policy: u32,
    pub pad: u32,
}

/// Allocation flags: kinds of memory.
pub const KFD_IOC_ALLOC_MEM_FLAGS_VRAM: u32 = 0x1;

pub const KFD_IOC_ALLOC_MEM_FLAGS_GTT: u32 = 0x2;

pub const KFD_IOC_ALLOC_MEM_FLAGS_USERPTR: u32 = 0x4;

pub const KFD_IOC_ALLOC_MEM_FLAGS_DOORBELL: u32 = 0x8;

pub const KFD_IOC_ALLOC_MEM_FLAGS_MMIO_REMAP: u32 = 0x10;

/// Allocation flags: attributes and access.
pub const KFD_IOC_ALLOC_MEM_FLAGS_WRITABLE: u32 = 0x8000_0000;

pub const KFD_IOC_ALLOC_MEM_FLAGS_EXECUTABLE: u32 = 0x4000_0000;

pub const KFD_IOC_ALLOC_MEM_FLAGS_PUBLIC: u32 = 0x2000_0000;

pub const KFD_IOC_ALLOC_MEM_FLAGS_NO_SUBSTITUTE: u32 = 0x1000_0000;

pub const KFD_IOC_ALLOC_MEM_FLAGS_AQL_QUEUE_MEM: u32 = 0x0800_0000;

pub const KFD_IOC_ALLOC_MEM_FLAGS_COHERENT: u32 = 0x0400_0000;

pub const KFD_IOC_ALLOC_MEM_FLAGS_UNCACHED: u32 = 0x0200_0000;

pub const KFD_IOC_ALLOC_MEM_FLAGS_EXT_COHERENT: u32 = 0x0100_0000;

pub const KFD_IOC_ALLOC_MEM_FLAGS_CONTIGUOUS_BEST_EFFORT: u32 = 0x0080_0000;

/// Allocates memory on a device. `va_addr` is the virtual address that every
/// mapping of the memory will use, `handle` what the driver returns to name
/// the allocation, `mmap_offset` the user's address for a userptr on the way
/// in and the offset to map a render node at on the way out.
#[allow(non_camel_case_types)]
#[derive(Debug, Copy, Clone, PartialEq, Eq, Structural)]
pub struct kfd_ioctl_alloc_memory_of_gpu_args {
    pub va_addr: u64,
    pub size: u64,
    pub handle: u64,
    pub mmap_offset: u64,
    pub gpu_id: u32,
    pub flags: u32,
}

/// Frees the allocation that `handle` names.
#[allow(non_camel_case_types)]
#[derive(Debug, Copy, Clone, PartialEq, Eq, Structural)]
pub struct kfd_ioctl_free_memory_of_gpu_args {
    pub handle: u64,
}

/// Directions of a request: the argument is written to the driver, read from
/// it, or both.
pub const IOC_WRITE: u32 = 1;

pub const IOC_READ: u32 = 2;

pub const IOC_READ_WRITE: u32 = 3;

/// The letter `K`, which marks the requests of this driver.
pub const AMDKFD_IOCTL_BASE: u8 = 0x4B;

/// The code of a request: from the lowest bit up, 8 bits of number, 8 of type,
/// 14 of the argument's size in bytes, and 2 of direction.
pub open spec fn ioc_spec(dir: u32, ty: u8, nr: u8, size: u32) -> int {
    dir * 0x4000_0000 + size * 0x1_0000 + ty * 0x100 + nr
}

/// The number in a request code.
pub open spec fn ioc_nr(code: u64) -> u64 {
    code % 0x100
}

/// The type in a request code.
pub open spec fn ioc_type(code: u64) -> u64 {
    (code / 0x100) % 0x100
}

/// The size of the argument in a request code.
pub open spec fn ioc_size(code: u64) -> u64 {
    (code / 0x1_0000) % 0x4000
}

/// The direction in a request code.
pub open spec fn ioc_dir(code: u64) -> u64 {
    (code / 0x4000_0000) % 4
}

/// Puts a request code together.
pub fn ioc(dir: u32, ty: u8, nr: u8, size: u32) -> (code: u64)
    requires
        dir < 4,
        size < 0x4000,
    ensures
        code == ioc_spec(dir, ty, nr, size),
        ioc_dir(code) == dir,
        ioc_type(code) == ty,
        ioc_nr(code) == nr,
        ioc_size(code) == size,
        code < 0x1_0000_0000,
{
    (dir as u64) * 0x4000_0000 + (size as u64) * 0x1_0000 + (ty as u64) * 0x100 + (nr as u64)
}

/// The request that reads the version of the driver's interface.
pub fn amdkfd_ioc_get_version() -> (code: u64)
    ensures
        code == ioc_spec(IOC_READ, AMDKFD_IOCTL_BASE, 0x01, 8),
        code == 0x8008_4B01,
{
    ioc(IOC_READ, AMDKFD_IOCTL_BASE, 0x01, 8)
}

/// The request that sets a memory policy.
pub fn amdkfd_ioc_set_memory_policy() -> (code: u64)
    ensures
        code == ioc_spec(IOC_WRITE, AMDKFD_IOCTL_BASE, 0x04, 32),
        code == 0x4020_4B04,
{
    ioc(IOC_WRITE, AMDKFD_IOCTL_BASE, 0x04, 32)
}

/// The request that reports the apertures of every device.
pub fn amdkfd_ioc_get_process_apertures_new() -> (code: u64)
    ensures
        code == ioc_spec(IOC_READ_WRITE, AMDKFD_IOCTL_BASE, 0x14, 16),
        code == 0xC010_4B14,
{
    ioc(IOC_READ_WRITE, AMDKFD_IOCTL_BASE, 0x14, 16)
}

/// The request that binds a render node's VM to a device.
pub fn amdkfd_ioc_acquire_vm() -> (code: u64)
    ensures
        code == ioc_spec(IOC_WRITE, AMDKFD_IOCTL_BASE, 0x15, 8),
        code == 0x4008_4B15,
{
    ioc(IOC_WRITE, AMDKFD_IOCTL_BASE, 0x15, 8)
}

/// The request that allocates memory on a device.
pub fn amdkfd_ioc_alloc_memory_of_gpu() -> (code: u64)
    ensures
        code == ioc_spec(IOC_READ_WRITE, AMDKFD_IOCTL_BASE, 0x16, 40),
        code == 0xC028_4B16,
{
    ioc(IOC_READ_WRITE, AMDKFD_IOCTL_BASE, 0x16, 40)
}

/// The request that frees memory on a device.
pub fn amdkfd_ioc_free_memory_of_gpu() -> (code: u64)
    ensures
        code == ioc_spec(IOC_WRITE, AMDKFD_IOCTL_BASE, 0x17, 8),
        code == 0x4008_4B17,
{
    ioc(IOC_WRITE, AMDKFD_IOCTL_BASE, 0x17, 8)
}

} // verus!
