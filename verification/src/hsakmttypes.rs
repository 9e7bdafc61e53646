//! Plain values shared by every part of the library.

use vstd::prelude::*;
use vstd::arithmetic::div_mod::{lemma_fundamental_div_mod, lemma_mod_multiples_basic};
use vstd::arithmetic::mul::{
    lemma_mul_is_commutative, lemma_mul_is_distributive_add,
    lemma_mul_strict_inequality_converse,
};

verus! {

/// Status codes of the interfaces of this library.
#[allow(non_camel_case_types)]
#[derive(Debug, Copy, Clone, PartialEq, Eq, Structural)]
pub enum HsakmtStatus {
    /// Operation successful.
    HSAKMT_STATUS_SUCCESS,
    /// General error, where nothing more specific applies.
    HSAKMT_STATUS_ERROR,
    /// The user-mode component does not fit the kernel driver.
    HSAKMT_STATUS_DRIVER_MISMATCH,
    HSAKMT_STATUS_INVALID_PARAMETER,
    HSAKMT_STATUS_INVALID_HANDLE,
    HSAKMT_STATUS_INVALID_NODE_UNIT,
    /// No memory available.
    HSAKMT_STATUS_NO_MEMORY,
    /// A buffer needed to handle a request is too small.
    HSAKMT_STATUS_BUFFER_TOO_SMALL,
    HSAKMT_STATUS_NOT_IMPLEMENTED,
    HSAKMT_STATUS_NOT_SUPPORTED,
    HSAKMT_STATUS_UNAVAILABLE,
    HSAKMT_STATUS_OUT_OF_RESOURCES,
    /// The kernel driver's device was not opened.
    HSAKMT_STATUS_KERNEL_IO_CHANNEL_NOT_OPENED,
    HSAKMT_STATUS_KERNEL_COMMUNICATION_ERROR,
    HSAKMT_STATUS_KERNEL_ALREADY_OPENED,
    HSAKMT_STATUS_HSAMMU_UNAVAILABLE,
    HSAKMT_STATUS_WAIT_FAILURE,
    HSAKMT_STATUS_WAIT_TIMEOUT,
    HSAKMT_STATUS_MEMORY_ALREADY_REGISTERED,
    HSAKMT_STATUS_MEMORY_NOT_REGISTERED,
    HSAKMT_STATUS_MEMORY_ALIGNMENT,
}

impl HsakmtStatus {
    /// The number that stands for the status at the interface.
    pub open spec fn code_spec(self) -> u32 {
        match self {
            HsakmtStatus::HSAKMT_STATUS_SUCCESS => 0,
            HsakmtStatus::HSAKMT_STATUS_ERROR => 1,
            HsakmtStatus::HSAKMT_STATUS_DRIVER_MISMATCH => 2,
            HsakmtStatus::HSAKMT_STATUS_INVALID_PARAMETER => 3,
            HsakmtStatus::HSAKMT_STATUS_INVALID_HANDLE => 4,
            HsakmtStatus::HSAKMT_STATUS_INVALID_NODE_UNIT => 5,
            HsakmtStatus::HSAKMT_STATUS_NO_MEMORY => 6,
            HsakmtStatus::HSAKMT_STATUS_BUFFER_TOO_SMALL => 7,
            HsakmtStatus::HSAKMT_STATUS_NOT_IMPLEMENTED => 10,
            HsakmtStatus::HSAKMT_STATUS_NOT_SUPPORTED => 11,
            HsakmtStatus::HSAKMT_STATUS_UNAVAILABLE => 12,
            HsakmtStatus::HSAKMT_STATUS_OUT_OF_RESOURCES => 13,
            HsakmtStatus::HSAKMT_STATUS_KERNEL_IO_CHANNEL_NOT_OPENED => 20,
            HsakmtStatus::HSAKMT_STATUS_KERNEL_COMMUNICATION_ERROR => 21,
            HsakmtStatus::HSAKMT_STATUS_KERNEL_ALREADY_OPENED => 22,
            HsakmtStatus::HSAKMT_STATUS_HSAMMU_UNAVAILABLE => 23,
            HsakmtStatus::HSAKMT_STATUS_WAIT_FAILURE => 30,
            HsakmtStatus::HSAKMT_STATUS_WAIT_TIMEOUT => 31,
            HsakmtStatus::HSAKMT_STATUS_MEMORY_ALREADY_REGISTERED => 35,
            HsakmtStatus::HSAKMT_STATUS_MEMORY_NOT_REGISTERED => 36,
            HsakmtStatus::HSAKMT_STATUS_MEMORY_ALIGNMENT => 37,
        }
    }

    /// The number that stands for the status at the interface.
    pub fn code(&self) -> (c: u32)
        ensures
            c == self.code_spec(),
    {
        match self {
            HsakmtStatus::HSAKMT_STATUS_SUCCESS => 0,
            HsakmtStatus::HSAKMT_STATUS_ERROR => 1,
            HsakmtStatus::HSAKMT_STATUS_DRIVER_MISMATCH => 2,
            HsakmtStatus::HSAKMT_STATUS_INVALID_PARAMETER => 3,
            HsakmtStatus::HSAKMT_STATUS_INVALID_HANDLE => 4,
            HsakmtStatus::HSAKMT_STATUS_INVALID_NODE_UNIT => 5,
            HsakmtStatus::HSAKMT_STATUS_NO_MEMORY => 6,
            HsakmtStatus::HSAKMT_STATUS_BUFFER_TOO_SMALL => 7,
            HsakmtStatus::HSAKMT_STATUS_NOT_IMPLEMENTED => 10,
            HsakmtStatus::HSAKMT_STATUS_NOT_SUPPORTED => 11,
            HsakmtStatus::HSAKMT_STATUS_UNAVAILABLE => 12,
            HsakmtStatus::HSAKMT_STATUS_OUT_OF_RESOURCES => 13,
            HsakmtStatus::HSAKMT_STATUS_KERNEL_IO_CHANNEL_NOT_OPENED => 20,
            HsakmtStatus::HSAKMT_STATUS_KERNEL_COMMUNICATION_ERROR => 21,
            HsakmtStatus::HSAKMT_STATUS_KERNEL_ALREADY_OPENED => 22,
            HsakmtStatus::HSAKMT_STATUS_HSAMMU_UNAVAILABLE => 23,
            HsakmtStatus::HSAKMT_STATUS_WAIT_FAILURE => 30,
            HsakmtStatus::HSAKMT_STATUS_WAIT_TIMEOUT => 31,
            HsakmtStatus::HSAKMT_STATUS_MEMORY_ALREADY_REGISTERED => 35,
            HsakmtStatus::HSAKMT_STATUS_MEMORY_NOT_REGISTERED => 36,
            HsakmtStatus::HSAKMT_STATUS_MEMORY_ALIGNMENT => 37,
        }
    }
}

/// The version of the kernel driver's interface.
#[allow(non_snake_case)]
#[derive(Debug, Copy, Clone, PartialEq, Eq, Structural)]
pub struct HsaVersionInfo {
    pub KernelInterfaceMajorVersion: u32,
    pub KernelInterfaceMinorVersion: u32,
}

/// What is known of the system as a whole: the number of nodes, and what
/// names the platform.
#[allow(non_snake_case)]
#[derive(Debug, Copy, Clone, PartialEq, Eq, Structural, Default)]
pub struct HsaSystemProperties {
    pub NumNodes: u32,
    pub PlatformOem: u32,
    pub PlatformId: u32,
    pub PlatformRev: u32,
}

/// The version of a GPU's engine.
#[allow(non_snake_case)]
#[derive(Debug, Copy, Clone, PartialEq, Eq, Structural)]
pub struct HsaEngineId {
    /// Version of the packet processor's microcode.
    pub uCode: u32,
    pub Major: u32,
    pub Minor: u32,
    pub Stepping: u32,
}

#[allow(non_camel_case_types)]
pub type HSA_ENGINE_ID = HsaEngineId;

/// Engine versions of GPU generations, as `HSA_GET_GFX_VERSION_FULL` gives
/// them.
pub const GFX_VERSION_KAVERI: u32 = 0x070000;

pub const GFX_VERSION_HAWAII: u32 = 0x070001;

pub const GFX_VERSION_CARRIZO: u32 = 0x080001;

pub const GFX_VERSION_TONGA: u32 = 0x080002;

pub const GFX_VERSION_FIJI: u32 = 0x080003;

pub const GFX_VERSION_POLARIS10: u32 = 0x080003;

pub const GFX_VERSION_POLARIS11: u32 = 0x080003;

pub const GFX_VERSION_POLARIS12: u32 = 0x080003;

pub const GFX_VERSION_VEGAM: u32 = 0x080003;

pub const GFX_VERSION_VEGA10: u32 = 0x090000;

pub const GFX_VERSION_RAVEN: u32 = 0x090002;

pub const GFX_VERSION_VEGA12: u32 = 0x090004;

pub const GFX_VERSION_VEGA20: u32 = 0x090006;

pub const GFX_VERSION_ARCTURUS: u32 = 0x090008;

pub const GFX_VERSION_ALDEBARAN: u32 = 0x09000A;

pub const GFX_VERSION_AQUA_VANJARAM: u32 = 0x090400;

pub const GFX_VERSION_RENOIR: u32 = 0x09000C;

pub const GFX_VERSION_NAVI10: u32 = 0x0A0100;

pub const GFX_VERSION_NAVI12: u32 = 0x0A0101;

pub const GFX_VERSION_NAVI14: u32 = 0x0A0102;

pub const GFX_VERSION_CYAN_SKILLFISH: u32 = 0x0A0103;

pub const GFX_VERSION_SIENNA_CICHLID: u32 = 0x0A0300;

pub const GFX_VERSION_NAVY_FLOUNDER: u32 = 0x0A0301;

pub const GFX_VERSION_DIMGREY_CAVEFISH: u32 = 0x0A0302;

pub const GFX_VERSION_VANGOGH: u32 = 0x0A0303;

pub const GFX_VERSION_BEIGE_GOBY: u32 = 0x0A0304;

pub const GFX_VERSION_YELLOW_CARP: u32 = 0x0A0305;

pub const GFX_VERSION_PLUM_BONITO: u32 = 0x0B0000;

pub const GFX_VERSION_WHEAT_NAS: u32 = 0x0B0001;

pub const GFX_VERSION_GFX1200: u32 = 0x0C0000;

pub const GFX_VERSION_GFX1201: u32 = 0x0C0001;

/// Size of the scalar register file of a compute unit, in bytes.
pub const SGPR_SIZE_PER_CU: u32 = 0x4000;

/// The engine version in one number: the major version above the minor one
/// above the stepping, 8 bits for each of the lower two.
#[allow(non_snake_case)]
pub open spec fn gfx_version_full(ui32: HsaEngineId) -> u32 {
    (ui32.Major << 16) | (ui32.Minor << 8) | ui32.Stepping
}

/// The engine version in one number.
#[allow(non_snake_case)]
pub fn HSA_GET_GFX_VERSION_FULL(ui32: &HsaEngineId) -> (gfxv: u32)
    ensures
        gfxv == gfx_version_full(*ui32),
        ui32.Major < 0x10000 && ui32.Minor < 0x100 && ui32.Stepping < 0x100 ==> gfxv == ui32.Major
            * 0x10000 + ui32.Minor * 0x100 + ui32.Stepping,
{
    let major: u32 = ui32.Major;
    let minor: u32 = ui32.Minor;
    let stepping: u32 = ui32.Stepping;
    assert(major < 0x10000 && minor < 0x100 && stepping < 0x100 ==> ((major << 16) | (minor << 8)
        | stepping) == major * 0x10000 + minor * 0x100 + stepping) by (bit_vector);
    (major << 16) | (minor << 8) | stepping
}

/// Size of a GPU huge page: two mebibytes.
pub const GPU_HUGE_PAGE_SIZE: u64 = 0x20_0000;

/// The least multiple of `align` that is not below `x`.
pub open spec fn align_up_spec(x: int, align: int) -> int {
    if x % align == 0 {
        x
    } else {
        x - x % align + align
    }
}

/// The greatest multiple of `align` that is not above `x`.
pub open spec fn align_down_spec(x: int, align: int) -> int {
    x - x % align
}

/// What `align_up_spec` gives is a multiple of `align`, is not below `x`, and
/// is less than `align` above it.
pub proof fn lemma_align_up(x: int, align: int)
    requires
        x >= 0,
        align > 0,
    ensures
        align_up_spec(x, align) % align == 0,
        x <= align_up_spec(x, align) < x + align,
{
    let q = x / align;
    lemma_fundamental_div_mod(x, align);
    lemma_mod_multiples_basic(q, align);
    lemma_mod_multiples_basic(q + 1, align);
    lemma_mul_is_commutative(align, q);
    lemma_mul_is_commutative(align, q + 1);
    lemma_mul_is_distributive_add(align, q, 1);
    assert(align * (q + 1) == align * q + align);
}

/// No multiple of `align` lies between `x` and what `align_up_spec` gives.
pub proof fn lemma_align_up_least(x: int, align: int, m: int)
    requires
        x >= 0,
        align > 0,
        m % align == 0,
        m >= x,
    ensures
        m >= align_up_spec(x, align),
{
    let q = x / align;
    let rem = x % align;
    lemma_fundamental_div_mod(x, align);
    if rem != 0 {
        let k = m / align;
        lemma_fundamental_div_mod(m, align);
        assert(m == align * k);
        assert(align * k > align * q);
        lemma_mul_is_commutative(align, k);
        lemma_mul_is_commutative(align, q);
        lemma_mul_strict_inequality_converse(q, k, align);
        assert(k >= q + 1);
        lemma_multiple_step(align, q + 1, k);
        lemma_mul_is_distributive_add(align, q, 1);
        assert(align * (q + 1) == align * q + align);
    }
}

/// Multiples of a positive number grow with their factor.
pub proof fn lemma_multiple_step(align: int, a: int, b: int)
    requires
        align > 0,
        a <= b,
    ensures
        align * a <= align * b,
{
    assert(align * a <= align * b) by (nonlinear_arith)
        requires
            align > 0,
            a <= b,
    ;
}

/// What `align_down_spec` gives is a multiple of `align`, is not above `x`,
/// and is less than `align` below it.
pub proof fn lemma_align_down(x: int, align: int)
    requires
        x >= 0,
        align > 0,
    ensures
        align_down_spec(x, align) % align == 0,
        x - align < align_down_spec(x, align) <= x,
        align_down_spec(x, align) >= 0,
{
    let q = x / align;
    lemma_fundamental_div_mod(x, align);
    lemma_mod_multiples_basic(q, align);
    lemma_mul_is_commutative(align, q);
}

/// Rounds `x` up to the next multiple of `align`.
#[allow(non_snake_case)]
pub fn ALIGN_UP(x: u64, align: u64) -> (r: u64)
    requires
        align > 0,
        align_up_spec(x as int, align as int) <= u64::MAX,
    ensures
        r == align_up_spec(x as int, align as int),
{
    let rem: u64 = x % align;
    if rem == 0 {
        x
    } else {
        x + (align - rem)
    }
}

/// Rounds `x` up to the next multiple of `align`, where that is a `u64`.
pub fn align_up_checked(x: u64, align: u64) -> (r: Option<u64>)
    requires
        align > 0,
    ensures
        r is Some <==> align_up_spec(x as int, align as int) <= u64::MAX,
        r is Some ==> r->Some_0 == align_up_spec(x as int, align as int),
{
    let rem: u64 = x % align;
    if rem == 0 {
        Some(x)
    } else {
        x.checked_add(align - rem)
    }
}

/// Rounds `x` down to a multiple of `align`.
pub fn align_down(x: u64, align: u64) -> (r: u64)
    requires
        align > 0,
    ensures
        r == align_down_spec(x as int, align as int),
{
    proof {
        lemma_align_down(x as int, align as int);
    }
    x - x % align
}

/// Flags of a memory allocation, packed into one word.
///
/// From the lowest bit up: `NonPaged` (1 bit), `CachePolicy` (2), `ReadOnly`
/// (1), `PageSize` (2), `HostAccess`, `NoSubstitute`, `GDSMemory`, `Scratch`,
/// `AtomicAccessFull`, `AtomicAccessPartial`, `ExecuteAccess`, `CoarseGrain`,
/// `AQLQueueMemory`, `FixedAddress`, `NoNUMABind`, `Uncached`, `NoAddress`,
/// `OnlyAddress`, `ExtendedCoherent`, `GTTAccess`, `Contiguous` (1 bit each),
/// and 9 reserved bits.
#[allow(non_snake_case)]
#[derive(Debug, Copy, Clone, PartialEq, Eq, Structural)]
pub struct HsaMemFlags {
    pub Value: u32,
}

/// The bits of each flag in `HsaMemFlags`.
pub const HSA_MEM_FLAG_NON_PAGED: u32 = 0x1;

pub const HSA_MEM_FLAG_CACHE_POLICY: u32 = 0x6;

pub const HSA_MEM_FLAG_READ_ONLY: u32 = 0x8;

pub const HSA_MEM_FLAG_PAGE_SIZE: u32 = 0x30;

pub const HSA_MEM_FLAG_HOST_ACCESS: u32 = 0x40;

pub const HSA_MEM_FLAG_NO_SUBSTITUTE: u32 = 0x80;

pub const HSA_MEM_FLAG_GDS_MEMORY: u32 = 0x100;

pub const HSA_MEM_FLAG_SCRATCH: u32 = 0x200;

pub const HSA_MEM_FLAG_ATOMIC_ACCESS_FULL: u32 = 0x400;

pub const HSA_MEM_FLAG_ATOMIC_ACCESS_PARTIAL: u32 = 0x800;

pub const HSA_MEM_FLAG_EXECUTE_ACCESS: u32 = 0x1000;

pub const HSA_MEM_FLAG_COARSE_GRAIN: u32 = 0x2000;

pub const HSA_MEM_FLAG_AQL_QUEUE_MEMORY: u32 = 0x4000;

pub const HSA_MEM_FLAG_FIXED_ADDRESS: u32 = 0x8000;

pub const HSA_MEM_FLAG_NO_NUMA_BIND: u32 = 0x1_0000;

pub const HSA_MEM_FLAG_UNCACHED: u32 = 0x2_0000;

pub const HSA_MEM_FLAG_NO_ADDRESS: u32 = 0x4_0000;

pub const HSA_MEM_FLAG_ONLY_ADDRESS: u32 = 0x8_0000;

pub const HSA_MEM_FLAG_EXTENDED_COHERENT: u32 = 0x10_0000;

pub const HSA_MEM_FLAG_GTT_ACCESS: u32 = 0x20_0000;

pub const HSA_MEM_FLAG_CONTIGUOUS: u32 = 0x40_0000;

impl HsaMemFlags {
    /// Whether any bit of `mask` is set.
    pub open spec fn has(self, mask: u32) -> bool {
        self.Value & mask != 0
    }

    /// No flag set.
    pub fn empty() -> (flags: Self)
        ensures
            flags.Value == 0,
    {
        HsaMemFlags { Value: 0 }
    }

    /// Whether any bit of `mask` is set.
    pub fn is_set(&self, mask: u32) -> (r: bool)
        ensures
            r == self.has(mask),
    {
        self.Value & mask != 0
    }

    /// The flags with the bits of `mask` set, or cleared.
    pub fn with(&self, mask: u32, on: bool) -> (flags: Self)
        ensures
            on ==> flags.Value == self.Value | mask,
            !on ==> flags.Value == self.Value & !mask,
            forall|other: u32| other & mask == 0 ==> flags.has(other) == #[trigger] self.has(other),
            mask != 0 ==> flags.has(mask) == on,
    {
        let value: u32 = if on {
            self.Value | mask
        } else {
            self.Value & !mask
        };
        let v: u32 = self.Value;
        assert forall|other: u32| other & mask == 0 implies (value & other != 0) == (v & other
            != 0) by {
            assert(other & mask == 0 ==> ((v | mask) & other) == (v & other) && ((v & !mask) & other)
                == (v & other)) by (bit_vector);
        }
        assert(mask != 0 ==> (v | mask) & mask != 0) by (bit_vector);
        assert((v & !mask) & mask == 0) by (bit_vector);
        HsaMemFlags { Value: value }
    }
}

/// The `width` bits of `value` from bit `shift` up, as a number.
pub open spec fn bit_field_u32(value: u32, shift: u32, width: u32) -> u32 {
    (value >> shift) & (((1u32 << width) - 1) as u32)
}

/// The `width` bits of `value` from bit `shift` up, as a number.
pub open spec fn bit_field_u64(value: u64, shift: u64, width: u64) -> u64 {
    (value >> shift) & (((1u64 << width) - 1) as u64)
}

/// The `width` bits of `value` from bit `shift` up, as a number.
pub fn take_bits_u32(value: u32, shift: u32, width: u32) -> (r: u32)
    requires
        shift < 32,
        1 <= width < 32,
    ensures
        r == bit_field_u32(value, shift, width),
{
    assert((1u32 << width) >= 1) by (bit_vector)
        requires
            1 <= width < 32,
    ;
    (value >> shift) & ((1u32 << width) - 1)
}

/// The `width` bits of `value` from bit `shift` up, as a number.
pub fn take_bits_u64(value: u64, shift: u64, width: u64) -> (r: u64)
    requires
        shift < 64,
        1 <= width < 64,
    ensures
        r == bit_field_u64(value, shift, width),
{
    assert((1u64 << width) >= 1) by (bit_vector)
        requires
            1 <= width < 64,
    ;
    (value >> shift) & ((1u64 << width) - 1)
}

/// What a node is capable of, one number for each field of `HSA_CAPABILITY`.
#[allow(non_snake_case)]
#[allow(non_camel_case_types)]
#[derive(Debug, Copy, Clone, PartialEq, Eq, Structural)]
pub struct HsaCapabilityStruct {
    pub HotPluggable: u32,
    pub HSAMMUPresent: u32,
    pub SharedWithGraphics: u32,
    pub QueueSizePowerOfTwo: u32,
    pub QueueSize32bit: u32,
    pub QueueIdleEvent: u32,
    pub VALimit: u32,
    pub WatchPointsSupported: u32,
    pub WatchPointsTotalBits: u32,
    pub DoorbellType: u32,
    pub AQLQueueDoubleMap: u32,
    pub DebugTrapSupported: u32,
    pub WaveLaunchTrapOverrideSupported: u32,
    pub WaveLaunchModeSupported: u32,
    pub PreciseMemoryOperationsSupported: u32,
    pub DEPRECATED_SRAM_EDCSupport: u32,
    pub Mem_EDCSupport: u32,
    pub RASEventNotify: u32,
    pub ASICRevision: u32,
    pub SRAM_EDCSupport: u32,
    pub SVMAPISupported: u32,
    pub CoherentHostAccess: u32,
    pub DebugSupportedFirmware: u32,
    pub PreciseALUOperationsSupported: u32,
    pub PerQueueResetSupported: u32,
}

/// What a node is capable of, packed into one word. From the lowest bit up,
/// its fields are those of `HsaCapabilityStruct` in their order;
/// `WatchPointsTotalBits` and `ASICRevision` take 4 bits, `DoorbellType` takes
/// 2, every other one 1.
#[allow(non_snake_case)]
#[allow(non_camel_case_types)]
#[derive(Debug, Copy, Clone, PartialEq, Eq, Structural)]
pub struct HSA_CAPABILITY {
    pub Value: u32,
}

impl HSA_CAPABILITY {
    /// The fields of the word, each as a number of its own.
    pub fn fields(&self) -> (st: HsaCapabilityStruct)
        ensures
            st.HotPluggable == bit_field_u32(self.Value, 0, 1),
            st.HSAMMUPresent == bit_field_u32(self.Value, 1, 1),
            st.SharedWithGraphics == bit_field_u32(self.Value, 2, 1),
            st.QueueSizePowerOfTwo == bit_field_u32(self.Value, 3, 1),
            st.QueueSize32bit == bit_field_u32(self.Value, 4, 1),
            st.QueueIdleEvent == bit_field_u32(self.Value, 5, 1),
            st.VALimit == bit_field_u32(self.Value, 6, 1),
            st.WatchPointsSupported == bit_field_u32(self.Value, 7, 1),
            st.WatchPointsTotalBits == bit_field_u32(self.Value, 8, 4),
            st.DoorbellType == bit_field_u32(self.Value, 12, 2),
            st.AQLQueueDoubleMap == bit_field_u32(self.Value, 14, 1),
            st.DebugTrapSupported == bit_field_u32(self.Value, 15, 1),
            st.WaveLaunchTrapOverrideSupported == bit_field_u32(self.Value, 16, 1),
            st.WaveLaunchModeSupported == bit_field_u32(self.Value, 17, 1),
            st.PreciseMemoryOperationsSupported == bit_field_u32(self.Value, 18, 1),
            st.DEPRECATED_SRAM_EDCSupport == bit_field_u32(self.Value, 19, 1),
            st.Mem_EDCSupport == bit_field_u32(self.Value, 20, 1),
            st.RASEventNotify == bit_field_u32(self.Value, 21, 1),
            st.ASICRevision == bit_field_u32(self.Value, 22, 4),
            st.SRAM_EDCSupport == bit_field_u32(self.Value, 26, 1),
            st.SVMAPISupported == bit_field_u32(self.Value, 27, 1),
            st.CoherentHostAccess == bit_field_u32(self.Value, 28, 1),
            st.DebugSupportedFirmware == bit_field_u32(self.Value, 29, 1),
            st.PreciseALUOperationsSupported == bit_field_u32(self.Value, 30, 1),
            st.PerQueueResetSupported == bit_field_u32(self.Value, 31, 1),
    {
        HsaCapabilityStruct {
            HotPluggable: take_bits_u32(self.Value, 0, 1),
            HSAMMUPresent: take_bits_u32(self.Value, 1, 1),
            SharedWithGraphics: take_bits_u32(self.Value, 2, 1),
            QueueSizePowerOfTwo: take_bits_u32(self.Value, 3, 1),
            QueueSize32bit: take_bits_u32(self.Value, 4, 1),
            QueueIdleEvent: take_bits_u32(self.Value, 5, 1),
            VALimit: take_bits_u32(self.Value, 6, 1),
            WatchPointsSupported: take_bits_u32(self.Value, 7, 1),
            WatchPointsTotalBits: take_bits_u32(self.Value, 8, 4),
            DoorbellType: take_bits_u32(self.Value, 12, 2),
            AQLQueueDoubleMap: take_bits_u32(self.Value, 14, 1),
            DebugTrapSupported: take_bits_u32(self.Value, 15, 1),
            WaveLaunchTrapOverrideSupported: take_bits_u32(self.Value, 16, 1),
            WaveLaunchModeSupported: take_bits_u32(self.Value, 17, 1),
            PreciseMemoryOperationsSupported: take_bits_u32(self.Value, 18, 1),
            DEPRECATED_SRAM_EDCSupport: take_bits_u32(self.Value, 19, 1),
            Mem_EDCSupport: take_bits_u32(self.Value, 20, 1),
            RASEventNotify: take_bits_u32(self.Value, 21, 1),
            ASICRevision: take_bits_u32(self.Value, 22, 4),
            SRAM_EDCSupport: take_bits_u32(self.Value, 26, 1),
            SVMAPISupported: take_bits_u32(self.Value, 27, 1),
            CoherentHostAccess: take_bits_u32(self.Value, 28, 1),
            DebugSupportedFirmware: take_bits_u32(self.Value, 29, 1),
            PreciseALUOperationsSupported: take_bits_u32(self.Value, 30, 1),
            PerQueueResetSupported: take_bits_u32(self.Value, 31, 1),
        }
    }
}

/// The bit of `SVMAPISupported` in `HSA_CAPABILITY`.
pub const HSA_CAPABILITY_SVM_API_SUPPORTED: u32 = 0x0800_0000;

impl HSA_CAPABILITY {
    /// The word with `SVMAPISupported` cleared.
    pub fn without_svm_api(&self) -> (r: Self)
        ensures
            r.Value == self.Value & !HSA_CAPABILITY_SVM_API_SUPPORTED,
            bit_field_u32(r.Value, 27, 1) == 0,
    {
        let v: u32 = self.Value;
        assert(((v & !0x0800_0000u32) >> 27u32) & (((1u32 << 1u32) - 1) as u32) == 0)
            by (bit_vector);
        HSA_CAPABILITY { Value: self.Value & !HSA_CAPABILITY_SVM_API_SUPPORTED }
    }
}

/// Versions of an engine's microcode, one number for each field of `HSA_ENGINE_VERSION`.
#[allow(non_snake_case)]
#[allow(non_camel_case_types)]
#[derive(Debug, Copy, Clone, PartialEq, Eq, Structural)]
pub struct HsaEngineVersion {
    pub uCodeSDMA: u32,
    pub uCodeRes: u32,
    pub Reserved: u32,
}

/// Versions of an engine's microcode, packed into one word: 10 bits for the
/// SDMA engine, 10 reserved for another, and 12 that are 0.
#[allow(non_snake_case)]
#[allow(non_camel_case_types)]
#[derive(Debug, Copy, Clone, PartialEq, Eq, Structural)]
pub struct HSA_ENGINE_VERSION {
    pub Value: u32,
}

impl HSA_ENGINE_VERSION {
    /// The fields of the word, each as a number of its own.
    pub fn fields(&self) -> (st: HsaEngineVersion)
        ensures
            st.uCodeSDMA == bit_field_u32(self.Value, 0, 10),
            st.uCodeRes == bit_field_u32(self.Value, 10, 10),
            st.Reserved == bit_field_u32(self.Value, 20, 12),
    {
        HsaEngineVersion {
            uCodeSDMA: take_bits_u32(self.Value, 0, 10),
            uCodeRes: take_bits_u32(self.Value, 10, 10),
            Reserved: take_bits_u32(self.Value, 20, 12),
        }
    }
}

/// What a node offers a debugger, one number for each field of `HSA_DEBUG_PROPERTIES`.
#[allow(non_snake_case)]
#[allow(non_camel_case_types)]
#[derive(Debug, Copy, Clone, PartialEq, Eq, Structural)]
pub struct HsaDebugProperties {
    pub WatchAddrMaskLoBit: u64,
    pub WatchAddrMaskHiBit: u64,
    pub DispatchInfoAlwaysValid: u64,
    pub AddressWatchpointShareKind: u64,
    pub Reserved: u64,
}

/// What a node offers a debugger, packed into one word: the lowest and the
/// highest bit of the watch address mask that are used (4 and 6 bits), whether
/// the dispatch information is always valid, whether address watchpoints are
/// shared, and 52 reserved bits.
#[allow(non_snake_case)]
#[allow(non_camel_case_types)]
#[derive(Debug, Copy, Clone, PartialEq, Eq, Structural)]
pub struct HSA_DEBUG_PROPERTIES {
    pub Value: u64,
}

impl HSA_DEBUG_PROPERTIES {
    /// The fields of the word, each as a number of its own.
    pub fn fields(&self) -> (st: HsaDebugProperties)
        ensures
            st.WatchAddrMaskLoBit == bit_field_u64(self.Value, 0, 4),
            st.WatchAddrMaskHiBit == bit_field_u64(self.Value, 4, 6),
            st.DispatchInfoAlwaysValid == bit_field_u64(self.Value, 10, 1),
            st.AddressWatchpointShareKind == bit_field_u64(self.Value, 11, 1),
            st.Reserved == bit_field_u64(self.Value, 12, 52),
    {
        HsaDebugProperties {
            WatchAddrMaskLoBit: take_bits_u64(self.Value, 0, 4),
            WatchAddrMaskHiBit: take_bits_u64(self.Value, 4, 6),
            DispatchInfoAlwaysValid: take_bits_u64(self.Value, 10, 1),
            AddressWatchpointShareKind: take_bits_u64(self.Value, 11, 1),
            Reserved: take_bits_u64(self.Value, 12, 52),
        }
    }
}

/// Length of the public name of a device.
pub const HSA_PUBLIC_NAME_SIZE: usize = 64;

/// What is known of a node. A node holds CPU cores, a GPU, or both.
#[allow(non_snake_case)]
#[derive(Debug, Copy, Clone, PartialEq, Eq)]
pub struct HsaNodeProperties {
    /// Number of CPU cores; 0 on a node with a discrete GPU only.
    pub NumCPUCores: u32,
    /// Number of SIMD cores of the GPU; 0 on a node without one.
    pub NumFComputeCores: u32,
    pub NumNeuralCores: u32,
    pub NumMemoryBanks: u32,
    pub NumCaches: u32,
    /// Number of links from this node to others.
    pub NumIOLinks: u32,
    pub CComputeIdLo: u32,
    pub FComputeIdLo: u32,
    pub Capability: HSA_CAPABILITY,
    pub MaxWavesPerSIMD: u32,
    pub LDSSizeInKB: u32,
    pub GDSSizeInKB: u32,
    pub WaveFrontSize: u32,
    pub NumShaderBanks: u32,
    pub NumArrays: u32,
    pub NumCUPerArray: u32,
    pub NumSIMDPerCU: u32,
    pub MaxSlotsScratchCU: u32,
    pub EngineId: HSA_ENGINE_ID,
    pub OverrideEngineId: HSA_ENGINE_ID,
    pub VendorId: u16,
    pub DeviceId: u16,
    pub LocationId: u32,
    pub LocalMemSize: u64,
    pub MaxEngineClockMhzFCompute: u32,
    pub MaxEngineClockMhzCCompute: u32,
    /// Minor number of the GPU's DRM render node.
    pub DrmRenderMinor: i32,
    pub MarketingName: [u16; 64],
    pub AMDName: [u8; 64],
    pub uCodeEngineVersions: HSA_ENGINE_VERSION,
    pub DebugProperties: HSA_DEBUG_PROPERTIES,
    /// The hive of GPUs that the node belongs to, or 0.
    pub HiveID: u64,
    pub NumSdmaEngines: u32,
    pub NumSdmaXgmiEngines: u32,
    pub NumSdmaQueuesPerEngine: u8,
    pub NumCpQueues: u8,
    pub NumGws: u8,
    /// 0 for a discrete GPU, 1 for an integrated one.
    pub Integrated: u8,
    pub Domain: u32,
    pub UniqueID: u64,
    pub VGPRSizePerCU: u32,
    pub SGPRSizePerCU: u32,
    pub NumXcc: u32,
    /// The id that the kernel driver gave the GPU; 0 on a node without one.
    pub KFDGpuID: u32,
    pub FamilyID: u32,
}

impl HsaNodeProperties {
    /// Whether nothing is known of the node: every number is 0.
    pub open spec fn is_blank(&self) -> bool {
        &&& self.NumCPUCores == 0
        &&& self.NumFComputeCores == 0
        &&& self.NumNeuralCores == 0
        &&& self.NumMemoryBanks == 0
        &&& self.NumCaches == 0
        &&& self.NumIOLinks == 0
        &&& self.CComputeIdLo == 0
        &&& self.FComputeIdLo == 0
        &&& self.Capability.Value == 0
        &&& self.MaxWavesPerSIMD == 0
        &&& self.LDSSizeInKB == 0
        &&& self.GDSSizeInKB == 0
        &&& self.WaveFrontSize == 0
        &&& self.NumShaderBanks == 0
        &&& self.NumArrays == 0
        &&& self.NumCUPerArray == 0
        &&& self.NumSIMDPerCU == 0
        &&& self.MaxSlotsScratchCU == 0
        &&& self.EngineId == (HsaEngineId { uCode: 0, Major: 0, Minor: 0, Stepping: 0 })
        &&& self.OverrideEngineId == (HsaEngineId { uCode: 0, Major: 0, Minor: 0, Stepping: 0 })
        &&& self.VendorId == 0
        &&& self.DeviceId == 0
        &&& self.LocationId == 0
        &&& self.LocalMemSize == 0
        &&& self.MaxEngineClockMhzFCompute == 0
        &&& self.MaxEngineClockMhzCCompute == 0
        &&& self.DrmRenderMinor == 0
        &&& (forall|i: int| 0 <= i < 64 ==> self.MarketingName@[i] == 0)
        &&& (forall|i: int| 0 <= i < 64 ==> self.AMDName@[i] == 0)
        &&& self.uCodeEngineVersions.Value == 0
        &&& self.DebugProperties.Value == 0
        &&& self.HiveID == 0
        &&& self.NumSdmaEngines == 0
        &&& self.NumSdmaXgmiEngines == 0
        &&& self.NumSdmaQueuesPerEngine == 0
        &&& self.NumCpQueues == 0
        &&& self.NumGws == 0
        &&& self.Integrated == 0
        &&& self.Domain == 0
        &&& self.UniqueID == 0
        &&& self.VGPRSizePerCU == 0
        &&& self.SGPRSizePerCU == 0
        &&& self.NumXcc == 0
        &&& self.KFDGpuID == 0
        &&& self.FamilyID == 0
    }

    /// The properties of a node of which nothing is known.
    pub fn new() -> (node: Self)
        ensures
            node.is_blank(),
    {
        HsaNodeProperties {
            NumCPUCores: 0,
            NumFComputeCores: 0,
            NumNeuralCores: 0,
            NumMemoryBanks: 0,
            NumCaches: 0,
            NumIOLinks: 0,
            CComputeIdLo: 0,
            FComputeIdLo: 0,
            Capability: HSA_CAPABILITY { Value: 0 },
            MaxWavesPerSIMD: 0,
            LDSSizeInKB: 0,
            GDSSizeInKB: 0,
            WaveFrontSize: 0,
            NumShaderBanks: 0,
            NumArrays: 0,
            NumCUPerArray: 0,
            NumSIMDPerCU: 0,
            MaxSlotsScratchCU: 0,
            EngineId: HsaEngineId { uCode: 0, Major: 0, Minor: 0, Stepping: 0 },
            OverrideEngineId: HsaEngineId { uCode: 0, Major: 0, Minor: 0, Stepping: 0 },
            VendorId: 0,
            DeviceId: 0,
            LocationId: 0,
            LocalMemSize: 0,
            MaxEngineClockMhzFCompute: 0,
            MaxEngineClockMhzCCompute: 0,
            DrmRenderMinor: 0,
            MarketingName: [0;64],
            AMDName: [0;64],
            uCodeEngineVersions: HSA_ENGINE_VERSION { Value: 0 },
            DebugProperties: HSA_DEBUG_PROPERTIES { Value: 0 },
            HiveID: 0,
            NumSdmaEngines: 0,
            NumSdmaXgmiEngines: 0,
            NumSdmaQueuesPerEngine: 0,
            NumCpQueues: 0,
            NumGws: 0,
            Integrated: 0,
            Domain: 0,
            UniqueID: 0,
            VGPRSizePerCU: 0,
            SGPRSizePerCU: 0,
            NumXcc: 0,
            KFDGpuID: 0,
            FamilyID: 0,
        }
    }
}

/// The size of a memory bank in bytes, in two halves.
#[allow(non_snake_case)]
#[derive(Debug, Copy, Clone, PartialEq, Eq, Structural)]
pub struct HsaMemoryPropSt {
    pub SizeInBytesLow: u32,
    pub SizeInBytesHigh: u32,
}

/// The size of a memory bank in bytes.
#[allow(non_snake_case)]
#[allow(non_camel_case_types)]
#[derive(Debug, Copy, Clone, PartialEq, Eq, Structural)]
pub struct HSA_MEMORY_PROP {
    pub SizeInBytes: u64,
}

impl HSA_MEMORY_PROP {
    /// The size in two halves of 32 bits.
    pub fn ui32(&self) -> (st: HsaMemoryPropSt)
        ensures
            st.SizeInBytesLow == self.SizeInBytes % 0x1_0000_0000,
            st.SizeInBytesHigh == self.SizeInBytes / 0x1_0000_0000,
            self.SizeInBytes == st.SizeInBytesHigh * 0x1_0000_0000 + st.SizeInBytesLow,
    {
        HsaMemoryPropSt {
            SizeInBytesLow: (self.SizeInBytes % 0x1_0000_0000) as u32,
            SizeInBytesHigh: (self.SizeInBytes / 0x1_0000_0000) as u32,
        }
    }
}

/// How a memory bank behaves, one number for each field of `HSA_MEMORYPROPERTY`.
#[allow(non_snake_case)]
#[allow(non_camel_case_types)]
#[derive(Debug, Copy, Clone, PartialEq, Eq, Structural)]
pub struct HsaMemoryProperty {
    pub HotPluggable: u32,
    pub NonVolatile: u32,
    pub Reserved: u32,
}

/// How a memory bank behaves, packed into one word: whether it may be removed
/// while the system runs, whether it keeps its content without power, and 30
/// reserved bits.
#[allow(non_snake_case)]
#[allow(non_camel_case_types)]
#[derive(Debug, Copy, Clone, PartialEq, Eq, Structural)]
pub struct HSA_MEMORYPROPERTY {
    pub MemoryProperty: u32,
}

impl HSA_MEMORYPROPERTY {
    /// The fields of the word, each as a number of its own.
    pub fn fields(&self) -> (st: HsaMemoryProperty)
        ensures
            st.HotPluggable == bit_field_u32(self.MemoryProperty, 0, 1),
            st.NonVolatile == bit_field_u32(self.MemoryProperty, 1, 1),
            st.Reserved == bit_field_u32(self.MemoryProperty, 2, 30),
    {
        HsaMemoryProperty {
            HotPluggable: take_bits_u32(self.MemoryProperty, 0, 1),
            NonVolatile: take_bits_u32(self.MemoryProperty, 1, 1),
            Reserved: take_bits_u32(self.MemoryProperty, 2, 30),
        }
    }
}

/// The kinds of memory.
#[allow(non_camel_case_types)]
#[derive(Debug, Copy, Clone, PartialEq, Eq, Structural)]
pub enum HSA_HEAPTYPE {
    HSA_HEAPTYPE_SYSTEM,
    /// The part of a GPU's memory that the CPU can read and write.
    HSA_HEAPTYPE_FRAME_BUFFER_PUBLIC,
    /// The part of a GPU's memory that the CPU cannot.
    HSA_HEAPTYPE_FRAME_BUFFER_PRIVATE,
    HSA_HEAPTYPE_GPU_GDS,
    HSA_HEAPTYPE_GPU_LDS,
    HSA_HEAPTYPE_GPU_SCRATCH,
    /// System memory that the device's page tables map.
    HSA_HEAPTYPE_DEVICE_SVM,
    /// Registers of the device, mapped as memory.
    HSA_HEAPTYPE_MMIO_REMAP,
    HSA_HEAPTYPE_NUMHEAPTYPES,
    HSA_HEAPTYPE_SIZE,
}

impl HSA_HEAPTYPE {
    /// The number that stands for the variant.
    pub open spec fn code_spec(self) -> u64 {
        match self {
            HSA_HEAPTYPE::HSA_HEAPTYPE_SYSTEM => 0,
            HSA_HEAPTYPE::HSA_HEAPTYPE_FRAME_BUFFER_PUBLIC => 1,
            HSA_HEAPTYPE::HSA_HEAPTYPE_FRAME_BUFFER_PRIVATE => 2,
            HSA_HEAPTYPE::HSA_HEAPTYPE_GPU_GDS => 3,
            HSA_HEAPTYPE::HSA_HEAPTYPE_GPU_LDS => 4,
            HSA_HEAPTYPE::HSA_HEAPTYPE_GPU_SCRATCH => 5,
            HSA_HEAPTYPE::HSA_HEAPTYPE_DEVICE_SVM => 6,
            HSA_HEAPTYPE::HSA_HEAPTYPE_MMIO_REMAP => 7,
            HSA_HEAPTYPE::HSA_HEAPTYPE_NUMHEAPTYPES => 8,
            HSA_HEAPTYPE::HSA_HEAPTYPE_SIZE => 0xFFFF_FFFF,
        }
    }

    /// The number that stands for the variant.
    pub fn code(&self) -> (c: u64)
        ensures
            c == self.code_spec(),
    {
        match self {
            HSA_HEAPTYPE::HSA_HEAPTYPE_SYSTEM => 0,
            HSA_HEAPTYPE::HSA_HEAPTYPE_FRAME_BUFFER_PUBLIC => 1,
            HSA_HEAPTYPE::HSA_HEAPTYPE_FRAME_BUFFER_PRIVATE => 2,
            HSA_HEAPTYPE::HSA_HEAPTYPE_GPU_GDS => 3,
            HSA_HEAPTYPE::HSA_HEAPTYPE_GPU_LDS => 4,
            HSA_HEAPTYPE::HSA_HEAPTYPE_GPU_SCRATCH => 5,
            HSA_HEAPTYPE::HSA_HEAPTYPE_DEVICE_SVM => 6,
            HSA_HEAPTYPE::HSA_HEAPTYPE_MMIO_REMAP => 7,
            HSA_HEAPTYPE::HSA_HEAPTYPE_NUMHEAPTYPES => 8,
            HSA_HEAPTYPE::HSA_HEAPTYPE_SIZE => 0xFFFF_FFFF,
        }
    }

    /// The kind of memory that `v` stands for, if it stands for one.
    pub fn try_from(v: usize) -> (r: Result<HSA_HEAPTYPE, ()>)
        ensures
            r is Ok ==> r->Ok_0.code_spec() == v,
            r is Err ==> forall|t: HSA_HEAPTYPE| #[trigger] t.code_spec() != v,
    {
        if v == 0 {
            Ok(HSA_HEAPTYPE::HSA_HEAPTYPE_SYSTEM)
        } else if v == 1 {
            Ok(HSA_HEAPTYPE::HSA_HEAPTYPE_FRAME_BUFFER_PUBLIC)
        } else if v == 2 {
            Ok(HSA_HEAPTYPE::HSA_HEAPTYPE_FRAME_BUFFER_PRIVATE)
        } else if v == 3 {
            Ok(HSA_HEAPTYPE::HSA_HEAPTYPE_GPU_GDS)
        } else if v == 4 {
            Ok(HSA_HEAPTYPE::HSA_HEAPTYPE_GPU_LDS)
        } else if v == 5 {
            Ok(HSA_HEAPTYPE::HSA_HEAPTYPE_GPU_SCRATCH)
        } else if v == 6 {
            Ok(HSA_HEAPTYPE::HSA_HEAPTYPE_DEVICE_SVM)
        } else if v == 7 {
            Ok(HSA_HEAPTYPE::HSA_HEAPTYPE_MMIO_REMAP)
        } else if v == 8 {
            Ok(HSA_HEAPTYPE::HSA_HEAPTYPE_NUMHEAPTYPES)
        } else if v == 0xFFFF_FFFF {
            Ok(HSA_HEAPTYPE::HSA_HEAPTYPE_SIZE)
        } else {
            Err(())
        }
    }
}

/// What is known of a memory bank.
#[allow(non_snake_case)]
#[derive(Debug, Copy, Clone, PartialEq, Eq, Structural)]
pub struct HsaMemoryProperties {
    pub HeapType: HSA_HEAPTYPE,
    pub prop: HSA_MEMORY_PROP,
    pub Flags: HSA_MEMORYPROPERTY,
    /// The number of bits that the memory's interface moves at once.
    pub Width: u32,
    pub MemoryClockMax: u32,
    /// Where the memory starts in the process's address space, if not 0.
    pub VirtualBaseAddress: u64,
}

impl HsaMemoryProperties {
    /// A bank of system memory of which nothing else is known.
    pub fn new() -> (mem: Self)
        ensures
            mem == (HsaMemoryProperties {
                HeapType: HSA_HEAPTYPE::HSA_HEAPTYPE_SYSTEM,
                prop: HSA_MEMORY_PROP { SizeInBytes: 0 },
                Flags: HSA_MEMORYPROPERTY { MemoryProperty: 0 },
                Width: 0,
                MemoryClockMax: 0,
                VirtualBaseAddress: 0,
            }),
    {
        HsaMemoryProperties {
            HeapType: HSA_HEAPTYPE::HSA_HEAPTYPE_SYSTEM,
            prop: HSA_MEMORY_PROP { SizeInBytes: 0 },
            Flags: HSA_MEMORYPROPERTY { MemoryProperty: 0 },
            Width: 0,
            MemoryClockMax: 0,
            VirtualBaseAddress: 0,
        }
    }
}

/// The number of processors that a cache can be shared among.
pub const HSA_CPU_SIBLINGS: usize = 256;

pub const HSA_PROCESSORID_ALL: u32 = 0xFFFF_FFFF;

/// What a cache holds and whom it serves, one number for each field of `HsaCacheType`.
#[allow(non_snake_case)]
#[allow(non_camel_case_types)]
#[derive(Debug, Copy, Clone, PartialEq, Eq, Structural)]
pub struct HsaCacheTypeSt {
    pub Data: u32,
    pub Instruction: u32,
    pub CPU: u32,
    pub HSACU: u32,
    pub Reserved: u32,
}

/// What a cache holds and whom it serves, packed into one word: data,
/// instructions, for a CPU, for a compute unit of a GPU, and 28 reserved bits.
#[allow(non_snake_case)]
#[allow(non_camel_case_types)]
#[derive(Debug, Copy, Clone, PartialEq, Eq, Structural)]
pub struct HsaCacheType {
    pub Value: u32,
}

impl HsaCacheType {
    /// The fields of the word, each as a number of its own.
    pub fn fields(&self) -> (st: HsaCacheTypeSt)
        ensures
            st.Data == bit_field_u32(self.Value, 0, 1),
            st.Instruction == bit_field_u32(self.Value, 1, 1),
            st.CPU == bit_field_u32(self.Value, 2, 1),
            st.HSACU == bit_field_u32(self.Value, 3, 1),
            st.Reserved == bit_field_u32(self.Value, 4, 28),
    {
        HsaCacheTypeSt {
            Data: take_bits_u32(self.Value, 0, 1),
            Instruction: take_bits_u32(self.Value, 1, 1),
            CPU: take_bits_u32(self.Value, 2, 1),
            HSACU: take_bits_u32(self.Value, 3, 1),
            Reserved: take_bits_u32(self.Value, 4, 28),
        }
    }
}

/// What is known of a cache.
#[allow(non_snake_case)]
#[derive(Debug, Copy, Clone, PartialEq, Eq)]
pub struct HsaCacheProperties {
    pub ProcessorIdLow: u32,
    pub CacheLevel: u32,
    pub CacheSize: u32,
    pub CacheLineSize: u32,
    pub CacheLinesPerTag: u32,
    pub CacheAssociativity: u32,
    pub CacheLatency: u32,
    pub CacheType: HsaCacheType,
    /// For each processor, whether it shares the cache.
    pub SiblingMap: [u32; 256],
}

impl HsaCacheProperties {
    /// A cache of which nothing is known.
    pub fn new() -> (cache: Self)
        ensures
            cache.ProcessorIdLow == 0 && cache.CacheLevel == 0 && cache.CacheSize == 0,
            cache.CacheLineSize == 0 && cache.CacheLinesPerTag == 0,
            cache.CacheAssociativity == 0 && cache.CacheLatency == 0,
            cache.CacheType.Value == 0,
            forall|i: int| 0 <= i < 256 ==> cache.SiblingMap@[i] == 0,
    {
        HsaCacheProperties {
            ProcessorIdLow: 0,
            CacheLevel: 0,
            CacheSize: 0,
            CacheLineSize: 0,
            CacheLinesPerTag: 0,
            CacheAssociativity: 0,
            CacheLatency: 0,
            CacheType: HsaCacheType { Value: 0 },
            SiblingMap: [0;256],
        }
    }
}

/// The kinds of links between nodes.
#[allow(non_camel_case_types)]
#[derive(Debug, Copy, Clone, PartialEq, Eq, Structural)]
pub enum HSA_IOLINKTYPE {
    HSA_IOLINKTYPE_UNDEFINED,
    HSA_IOLINKTYPE_HYPERTRANSPORT,
    HSA_IOLINKTYPE_PCIEXPRESS,
    HSA_IOLINKTYPE_AMBA,
    HSA_IOLINKTYPE_MIPI,
    HSA_IOLINK_TYPE_QPI_1_1,
    HSA_IOLINK_TYPE_RESERVED1,
    HSA_IOLINK_TYPE_RESERVED2,
    HSA_IOLINK_TYPE_RAPID_IO,
    HSA_IOLINK_TYPE_INFINIBAND,
    HSA_IOLINK_TYPE_RESERVED3,
    HSA_IOLINK_TYPE_XGMI,
    HSA_IOLINK_TYPE_XGOP,
    HSA_IOLINK_TYPE_GZ,
    HSA_IOLINK_TYPE_ETHERNET_RDMA,
    HSA_IOLINK_TYPE_RDMA_OTHER,
    HSA_IOLINK_TYPE_OTHER,
    HSA_IOLINKTYPE_NUMIOLINKTYPES,
    HSA_IOLINKTYPE_SIZE,
}

impl HSA_IOLINKTYPE {
    /// The number that stands for the variant.
    pub open spec fn code_spec(self) -> u64 {
        match self {
            HSA_IOLINKTYPE::HSA_IOLINKTYPE_UNDEFINED => 0,
            HSA_IOLINKTYPE::HSA_IOLINKTYPE_HYPERTRANSPORT => 1,
            HSA_IOLINKTYPE::HSA_IOLINKTYPE_PCIEXPRESS => 2,
            HSA_IOLINKTYPE::HSA_IOLINKTYPE_AMBA => 3,
            HSA_IOLINKTYPE::HSA_IOLINKTYPE_MIPI => 4,
            HSA_IOLINKTYPE::HSA_IOLINK_TYPE_QPI_1_1 => 5,
            HSA_IOLINKTYPE::HSA_IOLINK_TYPE_RESERVED1 => 6,
            HSA_IOLINKTYPE::HSA_IOLINK_TYPE_RESERVED2 => 7,
            HSA_IOLINKTYPE::HSA_IOLINK_TYPE_RAPID_IO => 8,
            HSA_IOLINKTYPE::HSA_IOLINK_TYPE_INFINIBAND => 9,
            HSA_IOLINKTYPE::HSA_IOLINK_TYPE_RESERVED3 => 10,
            HSA_IOLINKTYPE::HSA_IOLINK_TYPE_XGMI => 11,
            HSA_IOLINKTYPE::HSA_IOLINK_TYPE_XGOP => 12,
            HSA_IOLINKTYPE::HSA_IOLINK_TYPE_GZ => 13,
            HSA_IOLINKTYPE::HSA_IOLINK_TYPE_ETHERNET_RDMA => 14,
            HSA_IOLINKTYPE::HSA_IOLINK_TYPE_RDMA_OTHER => 15,
            HSA_IOLINKTYPE::HSA_IOLINK_TYPE_OTHER => 16,
            HSA_IOLINKTYPE::HSA_IOLINKTYPE_NUMIOLINKTYPES => 17,
            HSA_IOLINKTYPE::HSA_IOLINKTYPE_SIZE => 0xFFFF_FFFF,
        }
    }

    /// The number that stands for the variant.
    pub fn code(&self) -> (c: u64)
        ensures
            c == self.code_spec(),
    {
        match self {
            HSA_IOLINKTYPE::HSA_IOLINKTYPE_UNDEFINED => 0,
            HSA_IOLINKTYPE::HSA_IOLINKTYPE_HYPERTRANSPORT => 1,
            HSA_IOLINKTYPE::HSA_IOLINKTYPE_PCIEXPRESS => 2,
            HSA_IOLINKTYPE::HSA_IOLINKTYPE_AMBA => 3,
            HSA_IOLINKTYPE::HSA_IOLINKTYPE_MIPI => 4,
            HSA_IOLINKTYPE::HSA_IOLINK_TYPE_QPI_1_1 => 5,
            HSA_IOLINKTYPE::HSA_IOLINK_TYPE_RESERVED1 => 6,
            HSA_IOLINKTYPE::HSA_IOLINK_TYPE_RESERVED2 => 7,
            HSA_IOLINKTYPE::HSA_IOLINK_TYPE_RAPID_IO => 8,
            HSA_IOLINKTYPE::HSA_IOLINK_TYPE_INFINIBAND => 9,
            HSA_IOLINKTYPE::HSA_IOLINK_TYPE_RESERVED3 => 10,
            HSA_IOLINKTYPE::HSA_IOLINK_TYPE_XGMI => 11,
            HSA_IOLINKTYPE::HSA_IOLINK_TYPE_XGOP => 12,
            HSA_IOLINKTYPE::HSA_IOLINK_TYPE_GZ => 13,
            HSA_IOLINKTYPE::HSA_IOLINK_TYPE_ETHERNET_RDMA => 14,
            HSA_IOLINKTYPE::HSA_IOLINK_TYPE_RDMA_OTHER => 15,
            HSA_IOLINKTYPE::HSA_IOLINK_TYPE_OTHER => 16,
            HSA_IOLINKTYPE::HSA_IOLINKTYPE_NUMIOLINKTYPES => 17,
            HSA_IOLINKTYPE::HSA_IOLINKTYPE_SIZE => 0xFFFF_FFFF,
        }
    }

    /// The kind of link that `v` stands for, if it stands for one.
    pub fn try_from(v: usize) -> (r: Result<HSA_IOLINKTYPE, ()>)
        ensures
            r is Ok ==> r->Ok_0.code_spec() == v,
            r is Err ==> forall|t: HSA_IOLINKTYPE| #[trigger] t.code_spec() != v,
    {
        if v == 0 {
            Ok(HSA_IOLINKTYPE::HSA_IOLINKTYPE_UNDEFINED)
        } else if v == 1 {
            Ok(HSA_IOLINKTYPE::HSA_IOLINKTYPE_HYPERTRANSPORT)
        } else if v == 2 {
            Ok(HSA_IOLINKTYPE::HSA_IOLINKTYPE_PCIEXPRESS)
        } else if v == 3 {
            Ok(HSA_IOLINKTYPE::HSA_IOLINKTYPE_AMBA)
        } else if v == 4 {
            Ok(HSA_IOLINKTYPE::HSA_IOLINKTYPE_MIPI)
        } else if v == 5 {
            Ok(HSA_IOLINKTYPE::HSA_IOLINK_TYPE_QPI_1_1)
        } else if v == 6 {
            Ok(HSA_IOLINKTYPE::HSA_IOLINK_TYPE_RESERVED1)
        } else if v == 7 {
            Ok(HSA_IOLINKTYPE::HSA_IOLINK_TYPE_RESERVED2)
        } else if v == 8 {
            Ok(HSA_IOLINKTYPE::HSA_IOLINK_TYPE_RAPID_IO)
        } else if v == 9 {
            Ok(HSA_IOLINKTYPE::HSA_IOLINK_TYPE_INFINIBAND)
        } else if v == 10 {
            Ok(HSA_IOLINKTYPE::HSA_IOLINK_TYPE_RESERVED3)
        } else if v == 11 {
            Ok(HSA_IOLINKTYPE::HSA_IOLINK_TYPE_XGMI)
        } else if v == 12 {
            Ok(HSA_IOLINKTYPE::HSA_IOLINK_TYPE_XGOP)
        } else if v == 13 {
            Ok(HSA_IOLINKTYPE::HSA_IOLINK_TYPE_GZ)
        } else if v == 14 {
            Ok(HSA_IOLINKTYPE::HSA_IOLINK_TYPE_ETHERNET_RDMA)
        } else if v == 15 {
            Ok(HSA_IOLINKTYPE::HSA_IOLINK_TYPE_RDMA_OTHER)
        } else if v == 16 {
            Ok(HSA_IOLINKTYPE::HSA_IOLINK_TYPE_OTHER)
        } else if v == 17 {
            Ok(HSA_IOLINKTYPE::HSA_IOLINKTYPE_NUMIOLINKTYPES)
        } else if v == 0xFFFF_FFFF {
            Ok(HSA_IOLINKTYPE::HSA_IOLINKTYPE_SIZE)
        } else {
            Err(())
        }
    }
}

/// What a link cannot do, one number for each field of `HSA_LINKPROPERTY`.
#[allow(non_snake_case)]
#[allow(non_camel_case_types)]
#[derive(Debug, Copy, Clone, PartialEq, Eq, Structural)]
pub struct HsaLinkPropertySt {
    pub Override: u32,
    pub NonCoherent: u32,
    pub NoAtomics32bit: u32,
    pub NoAtomics64bit: u32,
    pub NoPeerToPeerDMA: u32,
    pub Reserved: u32,
}

/// What a link cannot do, packed into one word: whether the word overrides
/// what the kind of link says, no coherent transactions, no atomic ones of 32
/// bits, none of 64, no access between devices, and 27 reserved bits.
#[allow(non_snake_case)]
#[allow(non_camel_case_types)]
#[derive(Debug, Copy, Clone, PartialEq, Eq, Structural)]
pub struct HSA_LINKPROPERTY {
    pub LinkProperty: u32,
}

impl HSA_LINKPROPERTY {
    /// The fields of the word, each as a number of its own.
    pub fn fields(&self) -> (st: HsaLinkPropertySt)
        ensures
            st.Override == bit_field_u32(self.LinkProperty, 0, 1),
            st.NonCoherent == bit_field_u32(self.LinkProperty, 1, 1),
            st.NoAtomics32bit == bit_field_u32(self.LinkProperty, 2, 1),
            st.NoAtomics64bit == bit_field_u32(self.LinkProperty, 3, 1),
            st.NoPeerToPeerDMA == bit_field_u32(self.LinkProperty, 4, 1),
            st.Reserved == bit_field_u32(self.LinkProperty, 5, 27),
    {
        HsaLinkPropertySt {
            Override: take_bits_u32(self.LinkProperty, 0, 1),
            NonCoherent: take_bits_u32(self.LinkProperty, 1, 1),
            NoAtomics32bit: take_bits_u32(self.LinkProperty, 2, 1),
            NoAtomics64bit: take_bits_u32(self.LinkProperty, 3, 1),
            NoPeerToPeerDMA: take_bits_u32(self.LinkProperty, 4, 1),
            Reserved: take_bits_u32(self.LinkProperty, 5, 27),
        }
    }
}

/// What is known of a link from one node to another.
#[allow(non_snake_case)]
#[derive(Debug, Copy, Clone, PartialEq, Eq, Structural)]
pub struct HsaIoLinkProperties {
    pub IoLinkType: HSA_IOLINKTYPE,
    pub VersionMajor: u32,
    pub VersionMinor: u32,
    pub NodeFrom: u32,
    pub NodeTo: u32,
    /// What it costs to use the link; more for a longer way.
    pub Weight: u32,
    pub MinimumLatency: u32,
    pub MaximumLatency: u32,
    pub MinimumBandwidth: u32,
    pub MaximumBandwidth: u32,
    pub RecTransferSize: u32,
    pub RecSdmaEngIdMask: u32,
    pub Flags: HSA_LINKPROPERTY,
}

impl HsaIoLinkProperties {
    /// A link of which nothing is known.
    pub open spec fn blank() -> Self {
        HsaIoLinkProperties {
            IoLinkType: HSA_IOLINKTYPE::HSA_IOLINKTYPE_UNDEFINED,
            VersionMajor: 0,
            VersionMinor: 0,
            NodeFrom: 0,
            NodeTo: 0,
            Weight: 0,
            MinimumLatency: 0,
            MaximumLatency: 0,
            MinimumBandwidth: 0,
            MaximumBandwidth: 0,
            RecTransferSize: 0,
            RecSdmaEngIdMask: 0,
            Flags: HSA_LINKPROPERTY { LinkProperty: 0 },
        }
    }

    /// A link of which nothing is known.
    pub fn new() -> (link: Self)
        ensures
            link == Self::blank(),
    {
        HsaIoLinkProperties {
            IoLinkType: HSA_IOLINKTYPE::HSA_IOLINKTYPE_UNDEFINED,
            VersionMajor: 0,
            VersionMinor: 0,
            NodeFrom: 0,
            NodeTo: 0,
            Weight: 0,
            MinimumLatency: 0,
            MaximumLatency: 0,
            MinimumBandwidth: 0,
            MaximumBandwidth: 0,
            RecTransferSize: 0,
            RecSdmaEngIdMask: 0,
            Flags: HSA_LINKPROPERTY { LinkProperty: 0 },
        }
    }
}

/// A node with its memory banks, caches and links.
#[allow(non_camel_case_types)]
#[derive(Debug)]
pub struct node_props_t {
    pub node: HsaNodeProperties,
    pub mem: Vec<HsaMemoryProperties>,
    pub cache: Vec<HsaCacheProperties>,
    pub link: Vec<HsaIoLinkProperties>,
}

impl node_props_t {
    /// A node of which nothing is known.
    pub fn new() -> (props: Self)
        ensures
            props.node.is_blank(),
            props.mem@ == Seq::<HsaMemoryProperties>::empty(),
            props.cache@ == Seq::<HsaCacheProperties>::empty(),
            props.link@ == Seq::<HsaIoLinkProperties>::empty(),
    {
        node_props_t {
            node: HsaNodeProperties::new(),
            mem: Vec::new(),
            cache: Vec::new(),
            link: Vec::new(),
        }
    }
}

/// The flags of a memory allocation, one number for each field of `HsaMemFlags`.
#[allow(non_snake_case)]
#[allow(non_camel_case_types)]
#[derive(Debug, Copy, Clone, PartialEq, Eq, Structural)]
pub struct HsaMemFlagSt {
    pub NonPaged: u32,
    pub CachePolicy: u32,
    pub ReadOnly: u32,
    pub PageSize: u32,
    pub HostAccess: u32,
    pub NoSubstitute: u32,
    pub GDSMemory: u32,
    pub Scratch: u32,
    pub AtomicAccessFull: u32,
    pub AtomicAccessPartial: u32,
    pub ExecuteAccess: u32,
    pub CoarseGrain: u32,
    pub AQLQueueMemory: u32,
    pub FixedAddress: u32,
    pub NoNUMABind: u32,
    pub Uncached: u32,
    pub NoAddress: u32,
    pub OnlyAddress: u32,
    pub ExtendedCoherent: u32,
    pub GTTAccess: u32,
    pub Contiguous: u32,
    pub Reserved: u32,
}

impl HsaMemFlags {
    /// The fields of the word, each as a number of its own.
    pub fn fields(&self) -> (st: HsaMemFlagSt)
        ensures
            st.NonPaged == bit_field_u32(self.Value, 0, 1),
            st.CachePolicy == bit_field_u32(self.Value, 1, 2),
            st.ReadOnly == bit_field_u32(self.Value, 3, 1),
            st.PageSize == bit_field_u32(self.Value, 4, 2),
            st.HostAccess == bit_field_u32(self.Value, 6, 1),
            st.NoSubstitute == bit_field_u32(self.Value, 7, 1),
            st.GDSMemory == bit_field_u32(self.Value, 8, 1),
            st.Scratch == bit_field_u32(self.Value, 9, 1),
            st.AtomicAccessFull == bit_field_u32(self.Value, 10, 1),
            st.AtomicAccessPartial == bit_field_u32(self.Value, 11, 1),
            st.ExecuteAccess == bit_field_u32(self.Value, 12, 1),
            st.CoarseGrain == bit_field_u32(self.Value, 13, 1),
            st.AQLQueueMemory == bit_field_u32(self.Value, 14, 1),
            st.FixedAddress == bit_field_u32(self.Value, 15, 1),
            st.NoNUMABind == bit_field_u32(self.Value, 16, 1),
            st.Uncached == bit_field_u32(self.Value, 17, 1),
            st.NoAddress == bit_field_u32(self.Value, 18, 1),
            st.OnlyAddress == bit_field_u32(self.Value, 19, 1),
            st.ExtendedCoherent == bit_field_u32(self.Value, 20, 1),
            st.GTTAccess == bit_field_u32(self.Value, 21, 1),
            st.Contiguous == bit_field_u32(self.Value, 22, 1),
            st.Reserved == bit_field_u32(self.Value, 23, 9),
    {
        HsaMemFlagSt {
            NonPaged: take_bits_u32(self.Value, 0, 1),
            CachePolicy: take_bits_u32(self.Value, 1, 2),
            ReadOnly: take_bits_u32(self.Value, 3, 1),
            PageSize: take_bits_u32(self.Value, 4, 2),
            HostAccess: take_bits_u32(self.Value, 6, 1),
            NoSubstitute: take_bits_u32(self.Value, 7, 1),
            GDSMemory: take_bits_u32(self.Value, 8, 1),
            Scratch: take_bits_u32(self.Value, 9, 1),
            AtomicAccessFull: take_bits_u32(self.Value, 10, 1),
            AtomicAccessPartial: take_bits_u32(self.Value, 11, 1),
            ExecuteAccess: take_bits_u32(self.Value, 12, 1),
            CoarseGrain: take_bits_u32(self.Value, 13, 1),
            AQLQueueMemory: take_bits_u32(self.Value, 14, 1),
            FixedAddress: take_bits_u32(self.Value, 15, 1),
            NoNUMABind: take_bits_u32(self.Value, 16, 1),
            Uncached: take_bits_u32(self.Value, 17, 1),
            NoAddress: take_bits_u32(self.Value, 18, 1),
            OnlyAddress: take_bits_u32(self.Value, 19, 1),
            ExtendedCoherent: take_bits_u32(self.Value, 20, 1),
            GTTAccess: take_bits_u32(self.Value, 21, 1),
            Contiguous: take_bits_u32(self.Value, 22, 1),
            Reserved: take_bits_u32(self.Value, 23, 9),
        }
    }
}

/// One line of the table of GPUs: the device id, the version of its engine,
/// and the name of the chip.
#[allow(non_camel_case_types)]
#[derive(Debug, Copy, Clone, PartialEq, Eq)]
pub struct hsa_gfxip_table {
    pub device_id: u16,
    /// Major engine version.
    pub major: u8,
    /// Minor engine version.
    pub minor: u8,
    pub stepping: u8,
    pub amd_name: &'static str,
}

impl hsa_gfxip_table {
    /// A line of the table.
    pub fn new(device_id: u16, major: u8, minor: u8, stepping: u8, amd_name: &'static str) -> (line:
        Self)
        ensures
            line.device_id == device_id,
            line.major == major,
            line.minor == minor,
            line.stepping == stepping,
            line.amd_name == amd_name,
    {
        hsa_gfxip_table { device_id, major, minor, stepping, amd_name }
    }
}

/// The number of lines of the table of GPUs.
pub const HSA_GFXIP_TABLE_SIZE: usize = 180;

/// The table of GPUs, family by family.
pub open spec fn gfxip_lookup_table() -> Seq<hsa_gfxip_table> {
    seq![
        // Kaveri Family
        hsa_gfxip_table { device_id: 0x1304, major: 7, minor: 0, stepping: 0, amd_name: "Spectre" },
        hsa_gfxip_table { device_id: 0x1305, major: 7, minor: 0, stepping: 0, amd_name: "Spectre" },
        hsa_gfxip_table { device_id: 0x1306, major: 7, minor: 0, stepping: 0, amd_name: "Spectre" },
        hsa_gfxip_table { device_id: 0x1307, major: 7, minor: 0, stepping: 0, amd_name: "Spectre" },
        hsa_gfxip_table { device_id: 0x1309, major: 7, minor: 0, stepping: 0, amd_name: "Spectre" },
        hsa_gfxip_table { device_id: 0x130A, major: 7, minor: 0, stepping: 0, amd_name: "Spectre" },
        hsa_gfxip_table { device_id: 0x130B, major: 7, minor: 0, stepping: 0, amd_name: "Spectre" },
        hsa_gfxip_table { device_id: 0x130C, major: 7, minor: 0, stepping: 0, amd_name: "Spectre" },
        hsa_gfxip_table { device_id: 0x130D, major: 7, minor: 0, stepping: 0, amd_name: "Spectre" },
        hsa_gfxip_table { device_id: 0x130E, major: 7, minor: 0, stepping: 0, amd_name: "Spectre" },
        hsa_gfxip_table { device_id: 0x130F, major: 7, minor: 0, stepping: 0, amd_name: "Spectre" },
        hsa_gfxip_table { device_id: 0x1310, major: 7, minor: 0, stepping: 0, amd_name: "Spectre" },
        hsa_gfxip_table { device_id: 0x1311, major: 7, minor: 0, stepping: 0, amd_name: "Spectre" },
        hsa_gfxip_table { device_id: 0x1312, major: 7, minor: 0, stepping: 0, amd_name: "Spooky" },
        hsa_gfxip_table { device_id: 0x1313, major: 7, minor: 0, stepping: 0, amd_name: "Spectre" },
        hsa_gfxip_table { device_id: 0x1315, major: 7, minor: 0, stepping: 0, amd_name: "Spectre" },
        hsa_gfxip_table { device_id: 0x1316, major: 7, minor: 0, stepping: 0, amd_name: "Spooky" },
        hsa_gfxip_table { device_id: 0x1317, major: 7, minor: 0, stepping: 0, amd_name: "Spooky" },
        hsa_gfxip_table { device_id: 0x1318, major: 7, minor: 0, stepping: 0, amd_name: "Spectre" },
        hsa_gfxip_table { device_id: 0x131B, major: 7, minor: 0, stepping: 0, amd_name: "Spectre" },
        hsa_gfxip_table { device_id: 0x131C, major: 7, minor: 0, stepping: 0, amd_name: "Spectre" },
        hsa_gfxip_table { device_id: 0x131D, major: 7, minor: 0, stepping: 0, amd_name: "Spectre" },
        // Hawaii Family
        hsa_gfxip_table { device_id: 0x67A0, major: 7, minor: 0, stepping: 1, amd_name: "Hawaii" },
        hsa_gfxip_table { device_id: 0x67A1, major: 7, minor: 0, stepping: 1, amd_name: "Hawaii" },
        hsa_gfxip_table { device_id: 0x67A2, major: 7, minor: 0, stepping: 1, amd_name: "Hawaii" },
        hsa_gfxip_table { device_id: 0x67A8, major: 7, minor: 0, stepping: 1, amd_name: "Hawaii" },
        hsa_gfxip_table { device_id: 0x67A9, major: 7, minor: 0, stepping: 1, amd_name: "Hawaii" },
        hsa_gfxip_table { device_id: 0x67AA, major: 7, minor: 0, stepping: 1, amd_name: "Hawaii" },
        hsa_gfxip_table { device_id: 0x67B0, major: 7, minor: 0, stepping: 1, amd_name: "Hawaii" },
        hsa_gfxip_table { device_id: 0x67B1, major: 7, minor: 0, stepping: 1, amd_name: "Hawaii" },
        hsa_gfxip_table { device_id: 0x67B8, major: 7, minor: 0, stepping: 1, amd_name: "Hawaii" },
        hsa_gfxip_table { device_id: 0x67B9, major: 7, minor: 0, stepping: 1, amd_name: "Hawaii" },
        hsa_gfxip_table { device_id: 0x67BA, major: 7, minor: 0, stepping: 1, amd_name: "Hawaii" },
        hsa_gfxip_table { device_id: 0x67BE, major: 7, minor: 0, stepping: 1, amd_name: "Hawaii" },
        // Carrizo Family
        hsa_gfxip_table { device_id: 0x9870, major: 8, minor: 0, stepping: 1, amd_name: "Carrizo" },
        hsa_gfxip_table { device_id: 0x9874, major: 8, minor: 0, stepping: 1, amd_name: "Carrizo" },
        hsa_gfxip_table { device_id: 0x9875, major: 8, minor: 0, stepping: 1, amd_name: "Carrizo" },
        hsa_gfxip_table { device_id: 0x9876, major: 8, minor: 0, stepping: 1, amd_name: "Carrizo" },
        hsa_gfxip_table { device_id: 0x9877, major: 8, minor: 0, stepping: 1, amd_name: "Carrizo" },
        // Tonga Family
        hsa_gfxip_table { device_id: 0x6920, major: 8, minor: 0, stepping: 2, amd_name: "Tonga" },
        hsa_gfxip_table { device_id: 0x6921, major: 8, minor: 0, stepping: 2, amd_name: "Tonga" },
        hsa_gfxip_table { device_id: 0x6928, major: 8, minor: 0, stepping: 2, amd_name: "Tonga" },
        hsa_gfxip_table { device_id: 0x6929, major: 8, minor: 0, stepping: 2, amd_name: "Tonga" },
        hsa_gfxip_table { device_id: 0x692B, major: 8, minor: 0, stepping: 2, amd_name: "Tonga" },
        hsa_gfxip_table { device_id: 0x692F, major: 8, minor: 0, stepping: 2, amd_name: "Tonga" },
        hsa_gfxip_table { device_id: 0x6930, major: 8, minor: 0, stepping: 2, amd_name: "Tonga" },
        hsa_gfxip_table { device_id: 0x6938, major: 8, minor: 0, stepping: 2, amd_name: "Tonga" },
        hsa_gfxip_table { device_id: 0x6939, major: 8, minor: 0, stepping: 2, amd_name: "Tonga" },
        // Fiji
        hsa_gfxip_table { device_id: 0x7300, major: 8, minor: 0, stepping: 3, amd_name: "Fiji" },
        hsa_gfxip_table { device_id: 0x730F, major: 8, minor: 0, stepping: 3, amd_name: "Fiji" },
        // Polaris10
        hsa_gfxip_table { device_id: 0x67C0, major: 8, minor: 0, stepping: 3, amd_name: "Polaris10" },
        hsa_gfxip_table { device_id: 0x67C1, major: 8, minor: 0, stepping: 3, amd_name: "Polaris10" },
        hsa_gfxip_table { device_id: 0x67C2, major: 8, minor: 0, stepping: 3, amd_name: "Polaris10" },
        hsa_gfxip_table { device_id: 0x67C4, major: 8, minor: 0, stepping: 3, amd_name: "Polaris10" },
        hsa_gfxip_table { device_id: 0x67C7, major: 8, minor: 0, stepping: 3, amd_name: "Polaris10" },
        hsa_gfxip_table { device_id: 0x67C8, major: 8, minor: 0, stepping: 3, amd_name: "Polaris10" },
        hsa_gfxip_table { device_id: 0x67C9, major: 8, minor: 0, stepping: 3, amd_name: "Polaris10" },
        hsa_gfxip_table { device_id: 0x67CA, major: 8, minor: 0, stepping: 3, amd_name: "Polaris10" },
        hsa_gfxip_table { device_id: 0x67CC, major: 8, minor: 0, stepping: 3, amd_name: "Polaris10" },
        hsa_gfxip_table { device_id: 0x67CF, major: 8, minor: 0, stepping: 3, amd_name: "Polaris10" },
        hsa_gfxip_table { device_id: 0x67D0, major: 8, minor: 0, stepping: 3, amd_name: "Polaris10" },
        hsa_gfxip_table { device_id: 0x67DF, major: 8, minor: 0, stepping: 3, amd_name: "Polaris10" },
        hsa_gfxip_table { device_id: 0x6FDF, major: 8, minor: 0, stepping: 3, amd_name: "Polaris10" },
        // Polaris11
        hsa_gfxip_table { device_id: 0x67E0, major: 8, minor: 0, stepping: 3, amd_name: "Polaris11" },
        hsa_gfxip_table { device_id: 0x67E1, major: 8, minor: 0, stepping: 3, amd_name: "Polaris11" },
        hsa_gfxip_table { device_id: 0x67E3, major: 8, minor: 0, stepping: 3, amd_name: "Polaris11" },
        hsa_gfxip_table { device_id: 0x67E7, major: 8, minor: 0, stepping: 3, amd_name: "Polaris11" },
        hsa_gfxip_table { device_id: 0x67E8, major: 8, minor: 0, stepping: 3, amd_name: "Polaris11" },
        hsa_gfxip_table { device_id: 0x67E9, major: 8, minor: 0, stepping: 3, amd_name: "Polaris11" },
        hsa_gfxip_table { device_id: 0x67EB, major: 8, minor: 0, stepping: 3, amd_name: "Polaris11" },
        hsa_gfxip_table { device_id: 0x67EF, major: 8, minor: 0, stepping: 3, amd_name: "Polaris11" },
        hsa_gfxip_table { device_id: 0x67FF, major: 8, minor: 0, stepping: 3, amd_name: "Polaris11" },
        // Polaris12
        hsa_gfxip_table { device_id: 0x6980, major: 8, minor: 0, stepping: 3, amd_name: "Polaris12" },
        hsa_gfxip_table { device_id: 0x6981, major: 8, minor: 0, stepping: 3, amd_name: "Polaris12" },
        hsa_gfxip_table { device_id: 0x6985, major: 8, minor: 0, stepping: 3, amd_name: "Polaris12" },
        hsa_gfxip_table { device_id: 0x6986, major: 8, minor: 0, stepping: 3, amd_name: "Polaris12" },
        hsa_gfxip_table { device_id: 0x6987, major: 8, minor: 0, stepping: 3, amd_name: "Polaris12" },
        hsa_gfxip_table { device_id: 0x6995, major: 8, minor: 0, stepping: 3, amd_name: "Polaris12" },
        hsa_gfxip_table { device_id: 0x6997, major: 8, minor: 0, stepping: 3, amd_name: "Polaris12" },
        hsa_gfxip_table { device_id: 0x699F, major: 8, minor: 0, stepping: 3, amd_name: "Polaris12" },
        // VegaM
        hsa_gfxip_table { device_id: 0x694C, major: 8, minor: 0, stepping: 3, amd_name: "VegaM" },
        hsa_gfxip_table { device_id: 0x694E, major: 8, minor: 0, stepping: 3, amd_name: "VegaM" },
        hsa_gfxip_table { device_id: 0x694F, major: 8, minor: 0, stepping: 3, amd_name: "VegaM" },
        // Vega10
        hsa_gfxip_table { device_id: 0x6860, major: 9, minor: 0, stepping: 0, amd_name: "Vega10" },
        hsa_gfxip_table { device_id: 0x6861, major: 9, minor: 0, stepping: 0, amd_name: "Vega10" },
        hsa_gfxip_table { device_id: 0x6862, major: 9, minor: 0, stepping: 0, amd_name: "Vega10" },
        hsa_gfxip_table { device_id: 0x6863, major: 9, minor: 0, stepping: 0, amd_name: "Vega10" },
        hsa_gfxip_table { device_id: 0x6864, major: 9, minor: 0, stepping: 0, amd_name: "Vega10" },
        hsa_gfxip_table { device_id: 0x6867, major: 9, minor: 0, stepping: 0, amd_name: "Vega10" },
        hsa_gfxip_table { device_id: 0x6868, major: 9, minor: 0, stepping: 0, amd_name: "Vega10" },
        hsa_gfxip_table { device_id: 0x6869, major: 9, minor: 0, stepping: 0, amd_name: "Vega10" },
        hsa_gfxip_table { device_id: 0x686A, major: 9, minor: 0, stepping: 0, amd_name: "Vega10" },
        hsa_gfxip_table { device_id: 0x686B, major: 9, minor: 0, stepping: 0, amd_name: "Vega10" },
        hsa_gfxip_table { device_id: 0x686C, major: 9, minor: 0, stepping: 0, amd_name: "Vega10" },
        hsa_gfxip_table { device_id: 0x686D, major: 9, minor: 0, stepping: 0, amd_name: "Vega10" },
        hsa_gfxip_table { device_id: 0x686E, major: 9, minor: 0, stepping: 0, amd_name: "Vega10" },
        hsa_gfxip_table { device_id: 0x687F, major: 9, minor: 0, stepping: 0, amd_name: "Vega10" },
        // Vega12
        hsa_gfxip_table { device_id: 0x69A0, major: 9, minor: 0, stepping: 4, amd_name: "Vega12" },
        hsa_gfxip_table { device_id: 0x69A1, major: 9, minor: 0, stepping: 4, amd_name: "Vega12" },
        hsa_gfxip_table { device_id: 0x69A2, major: 9, minor: 0, stepping: 4, amd_name: "Vega12" },
        hsa_gfxip_table { device_id: 0x69A3, major: 9, minor: 0, stepping: 4, amd_name: "Vega12" },
        hsa_gfxip_table { device_id: 0x69Af, major: 9, minor: 0, stepping: 4, amd_name: "Vega12" },
        // Raven
        hsa_gfxip_table { device_id: 0x15DD, major: 9, minor: 0, stepping: 2, amd_name: "Raven" },
        hsa_gfxip_table { device_id: 0x15D8, major: 9, minor: 0, stepping: 2, amd_name: "Raven" },
        // Vega20
        hsa_gfxip_table { device_id: 0x66A0, major: 9, minor: 0, stepping: 6, amd_name: "Vega20" },
        hsa_gfxip_table { device_id: 0x66A1, major: 9, minor: 0, stepping: 6, amd_name: "Vega20" },
        hsa_gfxip_table { device_id: 0x66A2, major: 9, minor: 0, stepping: 6, amd_name: "Vega20" },
        hsa_gfxip_table { device_id: 0x66A3, major: 9, minor: 0, stepping: 6, amd_name: "Vega20" },
        hsa_gfxip_table { device_id: 0x66A4, major: 9, minor: 0, stepping: 6, amd_name: "Vega20" },
        hsa_gfxip_table { device_id: 0x66A7, major: 9, minor: 0, stepping: 6, amd_name: "Vega20" },
        hsa_gfxip_table { device_id: 0x66AF, major: 9, minor: 0, stepping: 6, amd_name: "Vega20" },
        // Arcturus
        hsa_gfxip_table { device_id: 0x7388, major: 9, minor: 0, stepping: 8, amd_name: "Arcturus" },
        hsa_gfxip_table { device_id: 0x738C, major: 9, minor: 0, stepping: 8, amd_name: "Arcturus" },
        hsa_gfxip_table { device_id: 0x738E, major: 9, minor: 0, stepping: 8, amd_name: "Arcturus" },
        hsa_gfxip_table { device_id: 0x7390, major: 9, minor: 0, stepping: 8, amd_name: "Arcturus" },
        // Aldebaran
        hsa_gfxip_table { device_id: 0x7408, major: 9, minor: 0, stepping: 10, amd_name: "Aldebaran" },
        hsa_gfxip_table { device_id: 0x740C, major: 9, minor: 0, stepping: 10, amd_name: "Aldebaran" },
        hsa_gfxip_table { device_id: 0x740F, major: 9, minor: 0, stepping: 10, amd_name: "Aldebaran" },
        hsa_gfxip_table { device_id: 0x7410, major: 9, minor: 0, stepping: 10, amd_name: "Aldebaran" },
        // Renoir
        hsa_gfxip_table { device_id: 0x15E7, major: 9, minor: 0, stepping: 12, amd_name: "Renoir" },
        hsa_gfxip_table { device_id: 0x1636, major: 9, minor: 0, stepping: 12, amd_name: "Renoir" },
        hsa_gfxip_table { device_id: 0x1638, major: 9, minor: 0, stepping: 12, amd_name: "Renoir" },
        hsa_gfxip_table { device_id: 0x164C, major: 9, minor: 0, stepping: 12, amd_name: "Renoir" },
        // Navi10
        hsa_gfxip_table { device_id: 0x7310, major: 10, minor: 1, stepping: 0, amd_name: "Navi10" },
        hsa_gfxip_table { device_id: 0x7312, major: 10, minor: 1, stepping: 0, amd_name: "Navi10" },
        hsa_gfxip_table { device_id: 0x7318, major: 10, minor: 1, stepping: 0, amd_name: "Navi10" },
        hsa_gfxip_table { device_id: 0x731A, major: 10, minor: 1, stepping: 0, amd_name: "Navi10" },
        hsa_gfxip_table { device_id: 0x731E, major: 10, minor: 1, stepping: 0, amd_name: "Navi10" },
        hsa_gfxip_table { device_id: 0x731F, major: 10, minor: 1, stepping: 0, amd_name: "Navi10" },
        // cyan_skillfish
        hsa_gfxip_table { device_id: 0x13F9, major: 10, minor: 1, stepping: 3, amd_name: "cyan_skillfish" },
        hsa_gfxip_table { device_id: 0x13FA, major: 10, minor: 1, stepping: 3, amd_name: "cyan_skillfish" },
        hsa_gfxip_table { device_id: 0x13FB, major: 10, minor: 1, stepping: 3, amd_name: "cyan_skillfish" },
        hsa_gfxip_table { device_id: 0x13FC, major: 10, minor: 1, stepping: 3, amd_name: "cyan_skillfish" },
        hsa_gfxip_table { device_id: 0x13FE, major: 10, minor: 1, stepping: 3, amd_name: "cyan_skillfish" },
        hsa_gfxip_table { device_id: 0x143F, major: 10, minor: 1, stepping: 3, amd_name: "cyan_skillfish" },
        // Navi14
        hsa_gfxip_table { device_id: 0x7340, major: 10, minor: 1, stepping: 2, amd_name: "Navi14" },
        hsa_gfxip_table { device_id: 0x7341, major: 10, minor: 1, stepping: 2, amd_name: "Navi14" },
        hsa_gfxip_table { device_id: 0x7347, major: 10, minor: 1, stepping: 2, amd_name: "Navi14" },
        // Navi12
        hsa_gfxip_table { device_id: 0x7360, major: 10, minor: 1, stepping: 1, amd_name: "Navi12" },
        hsa_gfxip_table { device_id: 0x7362, major: 10, minor: 1, stepping: 1, amd_name: "Navi12" },
        // SIENNA_CICHLID
        hsa_gfxip_table { device_id: 0x73A0, major: 10, minor: 3, stepping: 0, amd_name: "SIENNA_CICHLID" },
        hsa_gfxip_table { device_id: 0x73A1, major: 10, minor: 3, stepping: 0, amd_name: "SIENNA_CICHLID" },
        hsa_gfxip_table { device_id: 0x73A2, major: 10, minor: 3, stepping: 0, amd_name: "SIENNA_CICHLID" },
        hsa_gfxip_table { device_id: 0x73A3, major: 10, minor: 3, stepping: 0, amd_name: "SIENNA_CICHLID" },
        hsa_gfxip_table { device_id: 0x73A5, major: 10, minor: 3, stepping: 0, amd_name: "SIENNA_CICHLID" },
        hsa_gfxip_table { device_id: 0x73A8, major: 10, minor: 3, stepping: 0, amd_name: "SIENNA_CICHLID" },
        hsa_gfxip_table { device_id: 0x73A9, major: 10, minor: 3, stepping: 0, amd_name: "SIENNA_CICHLID" },
        hsa_gfxip_table { device_id: 0x73AC, major: 10, minor: 3, stepping: 0, amd_name: "SIENNA_CICHLID" },
        hsa_gfxip_table { device_id: 0x73AD, major: 10, minor: 3, stepping: 0, amd_name: "SIENNA_CICHLID" },
        hsa_gfxip_table { device_id: 0x73AB, major: 10, minor: 3, stepping: 0, amd_name: "SIENNA_CICHLID" },
        hsa_gfxip_table { device_id: 0x73AE, major: 10, minor: 3, stepping: 0, amd_name: "SIENNA_CICHLID" },
        hsa_gfxip_table { device_id: 0x73BF, major: 10, minor: 3, stepping: 0, amd_name: "SIENNA_CICHLID" },
        // NAVY_FLOUNDER
        hsa_gfxip_table { device_id: 0x73C0, major: 10, minor: 3, stepping: 1, amd_name: "NAVY_FLOUNDER" },
        hsa_gfxip_table { device_id: 0x73C1, major: 10, minor: 3, stepping: 1, amd_name: "NAVY_FLOUNDER" },
        hsa_gfxip_table { device_id: 0x73C3, major: 10, minor: 3, stepping: 1, amd_name: "NAVY_FLOUNDER" },
        hsa_gfxip_table { device_id: 0x73DA, major: 10, minor: 3, stepping: 1, amd_name: "NAVY_FLOUNDER" },
        hsa_gfxip_table { device_id: 0x73DB, major: 10, minor: 3, stepping: 1, amd_name: "NAVY_FLOUNDER" },
        hsa_gfxip_table { device_id: 0x73DC, major: 10, minor: 3, stepping: 1, amd_name: "NAVY_FLOUNDER" },
        hsa_gfxip_table { device_id: 0x73DD, major: 10, minor: 3, stepping: 1, amd_name: "NAVY_FLOUNDER" },
        hsa_gfxip_table { device_id: 0x73DE, major: 10, minor: 3, stepping: 1, amd_name: "NAVY_FLOUNDER" },
        hsa_gfxip_table { device_id: 0x73DF, major: 10, minor: 3, stepping: 1, amd_name: "NAVY_FLOUNDER" },
        // DIMGREY_CAVEFISH
        hsa_gfxip_table { device_id: 0x73E0, major: 10, minor: 3, stepping: 2, amd_name: "DIMGREY_CAVEFISH" },
        hsa_gfxip_table { device_id: 0x73E1, major: 10, minor: 3, stepping: 2, amd_name: "DIMGREY_CAVEFISH" },
        hsa_gfxip_table { device_id: 0x73E2, major: 10, minor: 3, stepping: 2, amd_name: "DIMGREY_CAVEFISH" },
        hsa_gfxip_table { device_id: 0x73E8, major: 10, minor: 3, stepping: 2, amd_name: "DIMGREY_CAVEFISH" },
        hsa_gfxip_table { device_id: 0x73E9, major: 10, minor: 3, stepping: 2, amd_name: "DIMGREY_CAVEFISH" },
        hsa_gfxip_table { device_id: 0x73EA, major: 10, minor: 3, stepping: 2, amd_name: "DIMGREY_CAVEFISH" },
        hsa_gfxip_table { device_id: 0x73EB, major: 10, minor: 3, stepping: 2, amd_name: "DIMGREY_CAVEFISH" },
        hsa_gfxip_table { device_id: 0x73EC, major: 10, minor: 3, stepping: 2, amd_name: "DIMGREY_CAVEFISH" },
        hsa_gfxip_table { device_id: 0x73ED, major: 10, minor: 3, stepping: 2, amd_name: "DIMGREY_CAVEFISH" },
        hsa_gfxip_table { device_id: 0x73EF, major: 10, minor: 3, stepping: 2, amd_name: "DIMGREY_CAVEFISH" },
        hsa_gfxip_table { device_id: 0x73FF, major: 10, minor: 3, stepping: 2, amd_name: "DIMGREY_CAVEFISH" },
        // VanGogh
        hsa_gfxip_table { device_id: 0x163F, major: 10, minor: 3, stepping: 3, amd_name: "VanGogh" },
        // BEIGE_GOBY
        hsa_gfxip_table { device_id: 0x7420, major: 10, minor: 3, stepping: 4, amd_name: "BEIGE_GOBY" },
        hsa_gfxip_table { device_id: 0x7421, major: 10, minor: 3, stepping: 4, amd_name: "BEIGE_GOBY" },
        hsa_gfxip_table { device_id: 0x7422, major: 10, minor: 3, stepping: 4, amd_name: "BEIGE_GOBY" },
        hsa_gfxip_table { device_id: 0x7423, major: 10, minor: 3, stepping: 4, amd_name: "BEIGE_GOBY" },
        hsa_gfxip_table { device_id: 0x743F, major: 10, minor: 3, stepping: 4, amd_name: "BEIGE_GOBY" },
        // Yellow_Carp
        hsa_gfxip_table { device_id: 0x164D, major: 10, minor: 3, stepping: 5, amd_name: "YELLOW_CARP" },
        hsa_gfxip_table { device_id: 0x1681, major: 10, minor: 3, stepping: 5, amd_name: "YELLOW_CARP" },
    ]
}

/// The table of GPUs.
pub fn get_hsa_gfxip_table() -> (table: [hsa_gfxip_table; 180])
    ensures
        table@ == gfxip_lookup_table(),
{
    let table = [
        // Kaveri Family
        hsa_gfxip_table { device_id: 0x1304, major: 7, minor: 0, stepping: 0, amd_name: "Spectre" },
        hsa_gfxip_table { device_id: 0x1305, major: 7, minor: 0, stepping: 0, amd_name: "Spectre" },
        hsa_gfxip_table { device_id: 0x1306, major: 7, minor: 0, stepping: 0, amd_name: "Spectre" },
        hsa_gfxip_table { device_id: 0x1307, major: 7, minor: 0, stepping: 0, amd_name: "Spectre" },
        hsa_gfxip_table { device_id: 0x1309, major: 7, minor: 0, stepping: 0, amd_name: "Spectre" },
        hsa_gfxip_table { device_id: 0x130A, major: 7, minor: 0, stepping: 0, amd_name: "Spectre" },
        hsa_gfxip_table { device_id: 0x130B, major: 7, minor: 0, stepping: 0, amd_name: "Spectre" },
        hsa_gfxip_table { device_id: 0x130C, major: 7, minor: 0, stepping: 0, amd_name: "Spectre" },
        hsa_gfxip_table { device_id: 0x130D, major: 7, minor: 0, stepping: 0, amd_name: "Spectre" },
        hsa_gfxip_table { device_id: 0x130E, major: 7, minor: 0, stepping: 0, amd_name: "Spectre" },
        hsa_gfxip_table { device_id: 0x130F, major: 7, minor: 0, stepping: 0, amd_name: "Spectre" },
        hsa_gfxip_table { device_id: 0x1310, major: 7, minor: 0, stepping: 0, amd_name: "Spectre" },
        hsa_gfxip_table { device_id: 0x1311, major: 7, minor: 0, stepping: 0, amd_name: "Spectre" },
        hsa_gfxip_table { device_id: 0x1312, major: 7, minor: 0, stepping: 0, amd_name: "Spooky" },
        hsa_gfxip_table { device_id: 0x1313, major: 7, minor: 0, stepping: 0, amd_name: "Spectre" },
        hsa_gfxip_table { device_id: 0x1315, major: 7, minor: 0, stepping: 0, amd_name: "Spectre" },
        hsa_gfxip_table { device_id: 0x1316, major: 7, minor: 0, stepping: 0, amd_name: "Spooky" },
        hsa_gfxip_table { device_id: 0x1317, major: 7, minor: 0, stepping: 0, amd_name: "Spooky" },
        hsa_gfxip_table { device_id: 0x1318, major: 7, minor: 0, stepping: 0, amd_name: "Spectre" },
        hsa_gfxip_table { device_id: 0x131B, major: 7, minor: 0, stepping: 0, amd_name: "Spectre" },
        hsa_gfxip_table { device_id: 0x131C, major: 7, minor: 0, stepping: 0, amd_name: "Spectre" },
        hsa_gfxip_table { device_id: 0x131D, major: 7, minor: 0, stepping: 0, amd_name: "Spectre" },
        // Hawaii Family
        hsa_gfxip_table { device_id: 0x67A0, major: 7, minor: 0, stepping: 1, amd_name: "Hawaii" },
        hsa_gfxip_table { device_id: 0x67A1, major: 7, minor: 0, stepping: 1, amd_name: "Hawaii" },
        hsa_gfxip_table { device_id: 0x67A2, major: 7, minor: 0, stepping: 1, amd_name: "Hawaii" },
        hsa_gfxip_table { device_id: 0x67A8, major: 7, minor: 0, stepping: 1, amd_name: "Hawaii" },
        hsa_gfxip_table { device_id: 0x67A9, major: 7, minor: 0, stepping: 1, amd_name: "Hawaii" },
        hsa_gfxip_table { device_id: 0x67AA, major: 7, minor: 0, stepping: 1, amd_name: "Hawaii" },
        hsa_gfxip_table { device_id: 0x67B0, major: 7, minor: 0, stepping: 1, amd_name: "Hawaii" },
        hsa_gfxip_table { device_id: 0x67B1, major: 7, minor: 0, stepping: 1, amd_name: "Hawaii" },
        hsa_gfxip_table { device_id: 0x67B8, major: 7, minor: 0, stepping: 1, amd_name: "Hawaii" },
        hsa_gfxip_table { device_id: 0x67B9, major: 7, minor: 0, stepping: 1, amd_name: "Hawaii" },
        hsa_gfxip_table { device_id: 0x67BA, major: 7, minor: 0, stepping: 1, amd_name: "Hawaii" },
        hsa_gfxip_table { device_id: 0x67BE, major: 7, minor: 0, stepping: 1, amd_name: "Hawaii" },
        // Carrizo Family
        hsa_gfxip_table { device_id: 0x9870, major: 8, minor: 0, stepping: 1, amd_name: "Carrizo" },
        hsa_gfxip_table { device_id: 0x9874, major: 8, minor: 0, stepping: 1, amd_name: "Carrizo" },
        hsa_gfxip_table { device_id: 0x9875, major: 8, minor: 0, stepping: 1, amd_name: "Carrizo" },
        hsa_gfxip_table { device_id: 0x9876, major: 8, minor: 0, stepping: 1, amd_name: "Carrizo" },
        hsa_gfxip_table { device_id: 0x9877, major: 8, minor: 0, stepping: 1, amd_name: "Carrizo" },
        // Tonga Family
        hsa_gfxip_table { device_id: 0x6920, major: 8, minor: 0, stepping: 2, amd_name: "Tonga" },
        hsa_gfxip_table { device_id: 0x6921, major: 8, minor: 0, stepping: 2, amd_name: "Tonga" },
        hsa_gfxip_table { device_id: 0x6928, major: 8, minor: 0, stepping: 2, amd_name: "Tonga" },
        hsa_gfxip_table { device_id: 0x6929, major: 8, minor: 0, stepping: 2, amd_name: "Tonga" },
        hsa_gfxip_table { device_id: 0x692B, major: 8, minor: 0, stepping: 2, amd_name: "Tonga" },
        hsa_gfxip_table { device_id: 0x692F, major: 8, minor: 0, stepping: 2, amd_name: "Tonga" },
        hsa_gfxip_table { device_id: 0x6930, major: 8, minor: 0, stepping: 2, amd_name: "Tonga" },
        hsa_gfxip_table { device_id: 0x6938, major: 8, minor: 0, stepping: 2, amd_name: "Tonga" },
        hsa_gfxip_table { device_id: 0x6939, major: 8, minor: 0, stepping: 2, amd_name: "Tonga" },
        // Fiji
        hsa_gfxip_table { device_id: 0x7300, major: 8, minor: 0, stepping: 3, amd_name: "Fiji" },
        hsa_gfxip_table { device_id: 0x730F, major: 8, minor: 0, stepping: 3, amd_name: "Fiji" },
        // Polaris10
        hsa_gfxip_table { device_id: 0x67C0, major: 8, minor: 0, stepping: 3, amd_name: "Polaris10" },
        hsa_gfxip_table { device_id: 0x67C1, major: 8, minor: 0, stepping: 3, amd_name: "Polaris10" },
        hsa_gfxip_table { device_id: 0x67C2, major: 8, minor: 0, stepping: 3, amd_name: "Polaris10" },
        hsa_gfxip_table { device_id: 0x67C4, major: 8, minor: 0, stepping: 3, amd_name: "Polaris10" },
        hsa_gfxip_table { device_id: 0x67C7, major: 8, minor: 0, stepping: 3, amd_name: "Polaris10" },
        hsa_gfxip_table { device_id: 0x67C8, major: 8, minor: 0, stepping: 3, amd_name: "Polaris10" },
        hsa_gfxip_table { device_id: 0x67C9, major: 8, minor: 0, stepping: 3, amd_name: "Polaris10" },
        hsa_gfxip_table { device_id: 0x67CA, major: 8, minor: 0, stepping: 3, amd_name: "Polaris10" },
        hsa_gfxip_table { device_id: 0x67CC, major: 8, minor: 0, stepping: 3, amd_name: "Polaris10" },
        hsa_gfxip_table { device_id: 0x67CF, major: 8, minor: 0, stepping: 3, amd_name: "Polaris10" },
        hsa_gfxip_table { device_id: 0x67D0, major: 8, minor: 0, stepping: 3, amd_name: "Polaris10" },
        hsa_gfxip_table { device_id: 0x67DF, major: 8, minor: 0, stepping: 3, amd_name: "Polaris10" },
        hsa_gfxip_table { device_id: 0x6FDF, major: 8, minor: 0, stepping: 3, amd_name: "Polaris10" },
        // Polaris11
        hsa_gfxip_table { device_id: 0x67E0, major: 8, minor: 0, stepping: 3, amd_name: "Polaris11" },
        hsa_gfxip_table { device_id: 0x67E1, major: 8, minor: 0, stepping: 3, amd_name: "Polaris11" },
        hsa_gfxip_table { device_id: 0x67E3, major: 8, minor: 0, stepping: 3, amd_name: "Polaris11" },
        hsa_gfxip_table { device_id: 0x67E7, major: 8, minor: 0, stepping: 3, amd_name: "Polaris11" },
        hsa_gfxip_table { device_id: 0x67E8, major: 8, minor: 0, stepping: 3, amd_name: "Polaris11" },
        hsa_gfxip_table { device_id: 0x67E9, major: 8, minor: 0, stepping: 3, amd_name: "Polaris11" },
        hsa_gfxip_table { device_id: 0x67EB, major: 8, minor: 0, stepping: 3, amd_name: "Polaris11" },
        hsa_gfxip_table { device_id: 0x67EF, major: 8, minor: 0, stepping: 3, amd_name: "Polaris11" },
        hsa_gfxip_table { device_id: 0x67FF, major: 8, minor: 0, stepping: 3, amd_name: "Polaris11" },
        // Polaris12
        hsa_gfxip_table { device_id: 0x6980, major: 8, minor: 0, stepping: 3, amd_name: "Polaris12" },
        hsa_gfxip_table { device_id: 0x6981, major: 8, minor: 0, stepping: 3, amd_name: "Polaris12" },
        hsa_gfxip_table { device_id: 0x6985, major: 8, minor: 0, stepping: 3, amd_name: "Polaris12" },
        hsa_gfxip_table { device_id: 0x6986, major: 8, minor: 0, stepping: 3, amd_name: "Polaris12" },
        hsa_gfxip_table { device_id: 0x6987, major: 8, minor: 0, stepping: 3, amd_name: "Polaris12" },
        hsa_gfxip_table { device_id: 0x6995, major: 8, minor: 0, stepping: 3, amd_name: "Polaris12" },
        hsa_gfxip_table { device_id: 0x6997, major: 8, minor: 0, stepping: 3, amd_name: "Polaris12" },
        hsa_gfxip_table { device_id: 0x699F, major: 8, minor: 0, stepping: 3, amd_name: "Polaris12" },
        // VegaM
        hsa_gfxip_table { device_id: 0x694C, major: 8, minor: 0, stepping: 3, amd_name: "VegaM" },
        hsa_gfxip_table { device_id: 0x694E, major: 8, minor: 0, stepping: 3, amd_name: "VegaM" },
        hsa_gfxip_table { device_id: 0x694F, major: 8, minor: 0, stepping: 3, amd_name: "VegaM" },
        // Vega10
        hsa_gfxip_table { device_id: 0x6860, major: 9, minor: 0, stepping: 0, amd_name: "Vega10" },
        hsa_gfxip_table { device_id: 0x6861, major: 9, minor: 0, stepping: 0, amd_name: "Vega10" },
        hsa_gfxip_table { device_id: 0x6862, major: 9, minor: 0, stepping: 0, amd_name: "Vega10" },
        hsa_gfxip_table { device_id: 0x6863, major: 9, minor: 0, stepping: 0, amd_name: "Vega10" },
        hsa_gfxip_table { device_id: 0x6864, major: 9, minor: 0, stepping: 0, amd_name: "Vega10" },
        hsa_gfxip_table { device_id: 0x6867, major: 9, minor: 0, stepping: 0, amd_name: "Vega10" },
        hsa_gfxip_table { device_id: 0x6868, major: 9, minor: 0, stepping: 0, amd_name: "Vega10" },
        hsa_gfxip_table { device_id: 0x6869, major: 9, minor: 0, stepping: 0, amd_name: "Vega10" },
        hsa_gfxip_table { device_id: 0x686A, major: 9, minor: 0, stepping: 0, amd_name: "Vega10" },
        hsa_gfxip_table { device_id: 0x686B, major: 9, minor: 0, stepping: 0, amd_name: "Vega10" },
        hsa_gfxip_table { device_id: 0x686C, major: 9, minor: 0, stepping: 0, amd_name: "Vega10" },
        hsa_gfxip_table { device_id: 0x686D, major: 9, minor: 0, stepping: 0, amd_name: "Vega10" },
        hsa_gfxip_table { device_id: 0x686E, major: 9, minor: 0, stepping: 0, amd_name: "Vega10" },
        hsa_gfxip_table { device_id: 0x687F, major: 9, minor: 0, stepping: 0, amd_name: "Vega10" },
        // Vega12
        hsa_gfxip_table { device_id: 0x69A0, major: 9, minor: 0, stepping: 4, amd_name: "Vega12" },
        hsa_gfxip_table { device_id: 0x69A1, major: 9, minor: 0, stepping: 4, amd_name: "Vega12" },
        hsa_gfxip_table { device_id: 0x69A2, major: 9, minor: 0, stepping: 4, amd_name: "Vega12" },
        hsa_gfxip_table { device_id: 0x69A3, major: 9, minor: 0, stepping: 4, amd_name: "Vega12" },
        hsa_gfxip_table { device_id: 0x69Af, major: 9, minor: 0, stepping: 4, amd_name: "Vega12" },
        // Raven
        hsa_gfxip_table { device_id: 0x15DD, major: 9, minor: 0, stepping: 2, amd_name: "Raven" },
        hsa_gfxip_table { device_id: 0x15D8, major: 9, minor: 0, stepping: 2, amd_name: "Raven" },
        // Vega20
        hsa_gfxip_table { device_id: 0x66A0, major: 9, minor: 0, stepping: 6, amd_name: "Vega20" },
        hsa_gfxip_table { device_id: 0x66A1, major: 9, minor: 0, stepping: 6, amd_name: "Vega20" },
        hsa_gfxip_table { device_id: 0x66A2, major: 9, minor: 0, stepping: 6, amd_name: "Vega20" },
        hsa_gfxip_table { device_id: 0x66A3, major: 9, minor: 0, stepping: 6, amd_name: "Vega20" },
        hsa_gfxip_table { device_id: 0x66A4, major: 9, minor: 0, stepping: 6, amd_name: "Vega20" },
        hsa_gfxip_table { device_id: 0x66A7, major: 9, minor: 0, stepping: 6, amd_name: "Vega20" },
        hsa_gfxip_table { device_id: 0x66AF, major: 9, minor: 0, stepping: 6, amd_name: "Vega20" },
        // Arcturus
        hsa_gfxip_table { device_id: 0x7388, major: 9, minor: 0, stepping: 8, amd_name: "Arcturus" },
        hsa_gfxip_table { device_id: 0x738C, major: 9, minor: 0, stepping: 8, amd_name: "Arcturus" },
        hsa_gfxip_table { device_id: 0x738E, major: 9, minor: 0, stepping: 8, amd_name: "Arcturus" },
        hsa_gfxip_table { device_id: 0x7390, major: 9, minor: 0, stepping: 8, amd_name: "Arcturus" },
        // Aldebaran
        hsa_gfxip_table { device_id: 0x7408, major: 9, minor: 0, stepping: 10, amd_name: "Aldebaran" },
        hsa_gfxip_table { device_id: 0x740C, major: 9, minor: 0, stepping: 10, amd_name: "Aldebaran" },
        hsa_gfxip_table { device_id: 0x740F, major: 9, minor: 0, stepping: 10, amd_name: "Aldebaran" },
        hsa_gfxip_table { device_id: 0x7410, major: 9, minor: 0, stepping: 10, amd_name: "Aldebaran" },
        // Renoir
        hsa_gfxip_table { device_id: 0x15E7, major: 9, minor: 0, stepping: 12, amd_name: "Renoir" },
        hsa_gfxip_table { device_id: 0x1636, major: 9, minor: 0, stepping: 12, amd_name: "Renoir" },
        hsa_gfxip_table { device_id: 0x1638, major: 9, minor: 0, stepping: 12, amd_name: "Renoir" },
        hsa_gfxip_table { device_id: 0x164C, major: 9, minor: 0, stepping: 12, amd_name: "Renoir" },
        // Navi10
        hsa_gfxip_table { device_id: 0x7310, major: 10, minor: 1, stepping: 0, amd_name: "Navi10" },
        hsa_gfxip_table { device_id: 0x7312, major: 10, minor: 1, stepping: 0, amd_name: "Navi10" },
        hsa_gfxip_table { device_id: 0x7318, major: 10, minor: 1, stepping: 0, amd_name: "Navi10" },
        hsa_gfxip_table { device_id: 0x731A, major: 10, minor: 1, stepping: 0, amd_name: "Navi10" },
        hsa_gfxip_table { device_id: 0x731E, major: 10, minor: 1, stepping: 0, amd_name: "Navi10" },
        hsa_gfxip_table { device_id: 0x731F, major: 10, minor: 1, stepping: 0, amd_name: "Navi10" },
        // cyan_skillfish
        hsa_gfxip_table { device_id: 0x13F9, major: 10, minor: 1, stepping: 3, amd_name: "cyan_skillfish" },
        hsa_gfxip_table { device_id: 0x13FA, major: 10, minor: 1, stepping: 3, amd_name: "cyan_skillfish" },
        hsa_gfxip_table { device_id: 0x13FB, major: 10, minor: 1, stepping: 3, amd_name: "cyan_skillfish" },
        hsa_gfxip_table { device_id: 0x13FC, major: 10, minor: 1, stepping: 3, amd_name: "cyan_skillfish" },
        hsa_gfxip_table { device_id: 0x13FE, major: 10, minor: 1, stepping: 3, amd_name: "cyan_skillfish" },
        hsa_gfxip_table { device_id: 0x143F, major: 10, minor: 1, stepping: 3, amd_name: "cyan_skillfish" },
        // Navi14
        hsa_gfxip_table { device_id: 0x7340, major: 10, minor: 1, stepping: 2, amd_name: "Navi14" },
        hsa_gfxip_table { device_id: 0x7341, major: 10, minor: 1, stepping: 2, amd_name: "Navi14" },
        hsa_gfxip_table { device_id: 0x7347, major: 10, minor: 1, stepping: 2, amd_name: "Navi14" },
        // Navi12
        hsa_gfxip_table { device_id: 0x7360, major: 10, minor: 1, stepping: 1, amd_name: "Navi12" },
        hsa_gfxip_table { device_id: 0x7362, major: 10, minor: 1, stepping: 1, amd_name: "Navi12" },
        // SIENNA_CICHLID
        hsa_gfxip_table { device_id: 0x73A0, major: 10, minor: 3, stepping: 0, amd_name: "SIENNA_CICHLID" },
        hsa_gfxip_table { device_id: 0x73A1, major: 10, minor: 3, stepping: 0, amd_name: "SIENNA_CICHLID" },
        hsa_gfxip_table { device_id: 0x73A2, major: 10, minor: 3, stepping: 0, amd_name: "SIENNA_CICHLID" },
        hsa_gfxip_table { device_id: 0x73A3, major: 10, minor: 3, stepping: 0, amd_name: "SIENNA_CICHLID" },
        hsa_gfxip_table { device_id: 0x73A5, major: 10, minor: 3, stepping: 0, amd_name: "SIENNA_CICHLID" },
        hsa_gfxip_table { device_id: 0x73A8, major: 10, minor: 3, stepping: 0, amd_name: "SIENNA_CICHLID" },
        hsa_gfxip_table { device_id: 0x73A9, major: 10, minor: 3, stepping: 0, amd_name: "SIENNA_CICHLID" },
        hsa_gfxip_table { device_id: 0x73AC, major: 10, minor: 3, stepping: 0, amd_name: "SIENNA_CICHLID" },
        hsa_gfxip_table { device_id: 0x73AD, major: 10, minor: 3, stepping: 0, amd_name: "SIENNA_CICHLID" },
        hsa_gfxip_table { device_id: 0x73AB, major: 10, minor: 3, stepping: 0, amd_name: "SIENNA_CICHLID" },
        hsa_gfxip_table { device_id: 0x73AE, major: 10, minor: 3, stepping: 0, amd_name: "SIENNA_CICHLID" },
        hsa_gfxip_table { device_id: 0x73BF, major: 10, minor: 3, stepping: 0, amd_name: "SIENNA_CICHLID" },
        // NAVY_FLOUNDER
        hsa_gfxip_table { device_id: 0x73C0, major: 10, minor: 3, stepping: 1, amd_name: "NAVY_FLOUNDER" },
        hsa_gfxip_table { device_id: 0x73C1, major: 10, minor: 3, stepping: 1, amd_name: "NAVY_FLOUNDER" },
        hsa_gfxip_table { device_id: 0x73C3, major: 10, minor: 3, stepping: 1, amd_name: "NAVY_FLOUNDER" },
        hsa_gfxip_table { device_id: 0x73DA, major: 10, minor: 3, stepping: 1, amd_name: "NAVY_FLOUNDER" },
        hsa_gfxip_table { device_id: 0x73DB, major: 10, minor: 3, stepping: 1, amd_name: "NAVY_FLOUNDER" },
        hsa_gfxip_table { device_id: 0x73DC, major: 10, minor: 3, stepping: 1, amd_name: "NAVY_FLOUNDER" },
        hsa_gfxip_table { device_id: 0x73DD, major: 10, minor: 3, stepping: 1, amd_name: "NAVY_FLOUNDER" },
        hsa_gfxip_table { device_id: 0x73DE, major: 10, minor: 3, stepping: 1, amd_name: "NAVY_FLOUNDER" },
        hsa_gfxip_table { device_id: 0x73DF, major: 10, minor: 3, stepping: 1, amd_name: "NAVY_FLOUNDER" },
        // DIMGREY_CAVEFISH
        hsa_gfxip_table { device_id: 0x73E0, major: 10, minor: 3, stepping: 2, amd_name: "DIMGREY_CAVEFISH" },
        hsa_gfxip_table { device_id: 0x73E1, major: 10, minor: 3, stepping: 2, amd_name: "DIMGREY_CAVEFISH" },
        hsa_gfxip_table { device_id: 0x73E2, major: 10, minor: 3, stepping: 2, amd_name: "DIMGREY_CAVEFISH" },
        hsa_gfxip_table { device_id: 0x73E8, major: 10, minor: 3, stepping: 2, amd_name: "DIMGREY_CAVEFISH" },
        hsa_gfxip_table { device_id: 0x73E9, major: 10, minor: 3, stepping: 2, amd_name: "DIMGREY_CAVEFISH" },
        hsa_gfxip_table { device_id: 0x73EA, major: 10, minor: 3, stepping: 2, amd_name: "DIMGREY_CAVEFISH" },
        hsa_gfxip_table { device_id: 0x73EB, major: 10, minor: 3, stepping: 2, amd_name: "DIMGREY_CAVEFISH" },
        hsa_gfxip_table { device_id: 0x73EC, major: 10, minor: 3, stepping: 2, amd_name: "DIMGREY_CAVEFISH" },
        hsa_gfxip_table { device_id: 0x73ED, major: 10, minor: 3, stepping: 2, amd_name: "DIMGREY_CAVEFISH" },
        hsa_gfxip_table { device_id: 0x73EF, major: 10, minor: 3, stepping: 2, amd_name: "DIMGREY_CAVEFISH" },
        hsa_gfxip_table { device_id: 0x73FF, major: 10, minor: 3, stepping: 2, amd_name: "DIMGREY_CAVEFISH" },
        // VanGogh
        hsa_gfxip_table { device_id: 0x163F, major: 10, minor: 3, stepping: 3, amd_name: "VanGogh" },
        // BEIGE_GOBY
        hsa_gfxip_table { device_id: 0x7420, major: 10, minor: 3, stepping: 4, amd_name: "BEIGE_GOBY" },
        hsa_gfxip_table { device_id: 0x7421, major: 10, minor: 3, stepping: 4, amd_name: "BEIGE_GOBY" },
        hsa_gfxip_table { device_id: 0x7422, major: 10, minor: 3, stepping: 4, amd_name: "BEIGE_GOBY" },
        hsa_gfxip_table { device_id: 0x7423, major: 10, minor: 3, stepping: 4, amd_name: "BEIGE_GOBY" },
        hsa_gfxip_table { device_id: 0x743F, major: 10, minor: 3, stepping: 4, amd_name: "BEIGE_GOBY" },
        // Yellow_Carp
        hsa_gfxip_table { device_id: 0x164D, major: 10, minor: 3, stepping: 5, amd_name: "YELLOW_CARP" },
        hsa_gfxip_table { device_id: 0x1681, major: 10, minor: 3, stepping: 5, amd_name: "YELLOW_CARP" },
    ];
    assert(table@ =~= gfxip_lookup_table());
    table
}

} // verus!
