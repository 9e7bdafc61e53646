//! Opening the kernel driver's device.

use vstd::prelude::*;
use crate::globals::HsaKmtGlobal;
use crate::hsakmttypes::HsakmtStatus;

verus! {

/// The path of the kernel driver's device.
pub const KFD_DEVICE_NAME: &'static str = "/dev/kfd";

/// Two to the power of `k`.
pub open spec fn two_to(k: nat) -> int
    decreases k,
{
    if k == 0 {
        1
    } else {
        2 * two_to((k - 1) as nat)
    }
}

/// Whether bit `k` is the lowest bit that is set in `n`, counted from 0: `n`
/// is an odd multiple of two to the power of `k`.
pub open spec fn lowest_set_bit(n: int, k: nat) -> bool {
    exists|m: int| m % 2 != 0 && n == #[trigger] (m * two_to(k))
}

/// The position of the lowest bit that is set in `n`, counted from 1.
pub fn ffs(n: i32) -> (r: u32)
    requires
        n != 0,
        n != i32::MIN,
    ensures
        1 <= r <= 31,
        lowest_set_bit(n as int, (r - 1) as nat),
{
    let mut m: u32 = if n < 0 {
        (-n) as u32
    } else {
        n as u32
    };
    let ghost sign: int = if n < 0 {
        -1
    } else {
        1
    };
    let mut r: u32 = 1;
    let ghost mut p: int = 1;
    while m % 2 == 0
        invariant
            m != 0,
            1 <= r <= 31,
            p == two_to((r - 1) as nat),
            n == sign * m * p,
            sign == 1 || sign == -1,
            p >= 1,
            m * p < 0x8000_0000,
        decreases m,
    {
        let ghost m0 = m;
        m = m / 2;
        proof {
            assert(m0 * p == m * (2 * p)) by (nonlinear_arith)
                requires
                    m0 == 2 * m,
            ;
            assert(sign * m0 * p == sign * m * (2 * p)) by (nonlinear_arith)
                requires
                    m0 == 2 * m,
            ;
            assert(m * (2 * p) >= 2 * p) by (nonlinear_arith)
                requires
                    m >= 1,
                    p >= 1,
            ;
            p = 2 * p;
            if r == 31 {
                lemma_two_to_31();
            }
        }
        r = r + 1;
    }
    proof {
        let odd: int = sign * m;
        assert(odd % 2 != 0);
        assert(n == odd * two_to((r - 1) as nat));
    }
    r
}

/// Two to the power of 31.
pub proof fn lemma_two_to_31()
    ensures
        two_to(31) == 0x8000_0000,
{
    reveal_with_fuel(two_to, 32);
}

/// The number of bits of an offset in a page of `page_size` bytes.
pub fn page_shift_of(page_size: i32) -> (shift: i32)
    requires
        page_size != 0,
        page_size != i32::MIN,
    ensures
        0 <= shift <= 30,
        lowest_set_bit(page_size as int, shift as nat),
{
    (ffs(page_size) - 1) as i32
}

/// Keeps the size of a page, which the system reported as `page_size`, and
/// the number of bits of an offset in a page.
pub fn init_page_size(global: &mut HsaKmtGlobal, page_size: i32)
    requires
        page_size != 0,
        page_size != i32::MIN,
    ensures
        final(global).hsakmt_page_size == page_size,
        0 <= final(global).hsakmt_page_shift <= 30,
        lowest_set_bit(page_size as int, final(global).hsakmt_page_shift as nat),
        *final(global) == (HsaKmtGlobal {
            hsakmt_page_size: page_size,
            hsakmt_page_shift: final(global).hsakmt_page_shift,
            ..*old(global)
        }),
{
    global.hsakmt_page_size = page_size;
    global.hsakmt_page_shift = page_shift_of(page_size);
}

/// What is to be done to open the kernel driver's device.
#[derive(Debug, Copy, Clone, PartialEq, Eq, Structural)]
pub enum OpenKfdStep {
    /// The device was opened before. The opening was counted, and the status
    /// `HSAKMT_STATUS_KERNEL_ALREADY_OPENED` is the answer.
    AlreadyOpened,
    /// The device has no descriptor yet: open it, and hand the descriptor to
    /// `hsakmt_open_kfd_opened`.
    OpenDevice,
    /// The device has a descriptor from before: go on with it.
    UseDescriptor(i32),
}

impl OpenKfdStep {
    /// The status that the step answers the request to open with, where it
    /// answers it: the device was opened before.
    pub fn status(&self) -> (status: Option<HsakmtStatus>)
        ensures
            status == (if *self == OpenKfdStep::AlreadyOpened {
                Some(HsakmtStatus::HSAKMT_STATUS_KERNEL_ALREADY_OPENED)
            } else {
                None::<HsakmtStatus>
            }),
    {
        match self {
            OpenKfdStep::AlreadyOpened => Some(HsakmtStatus::HSAKMT_STATUS_KERNEL_ALREADY_OPENED),
            _ => None,
        }
    }
}

/// Starts opening the kernel driver's device, and says what is to be done.
pub fn hsakmt_open_kfd(global: &mut HsaKmtGlobal) -> (step: OpenKfdStep)
    requires
        old(global).hsakmt_kfd_open_count < u64::MAX,
    ensures
        step == (if old(global).hsakmt_kfd_open_count > 0 {
            OpenKfdStep::AlreadyOpened
        } else if old(global).hsakmt_kfd_fd < 0 {
            OpenKfdStep::OpenDevice
        } else {
            OpenKfdStep::UseDescriptor(old(global).hsakmt_kfd_fd)
        }),
        old(global).hsakmt_kfd_open_count == 0 ==> *final(global) == *old(global),
        old(global).hsakmt_kfd_open_count > 0 ==> *final(global) == (HsaKmtGlobal {
            hsakmt_kfd_open_count: (old(global).hsakmt_kfd_open_count + 1) as u64,
            ..*old(global)
        }),
{
    if global.hsakmt_kfd_open_count > 0 {
        global.hsakmt_kfd_open_count = global.hsakmt_kfd_open_count + 1;
        OpenKfdStep::AlreadyOpened
    } else if global.hsakmt_kfd_fd < 0 {
        OpenKfdStep::OpenDevice
    } else {
        OpenKfdStep::UseDescriptor(global.hsakmt_kfd_fd)
    }
}

/// Takes the descriptor that opening the device gave, which is -1 where the
/// device could not be opened.
pub fn hsakmt_open_kfd_opened(global: &mut HsaKmtGlobal, fd: i32) -> (status: HsakmtStatus)
    ensures
        fd == -1
            ==> status == HsakmtStatus::HSAKMT_STATUS_KERNEL_IO_CHANNEL_NOT_OPENED
                && *final(global) == *old(global),
        fd != -1 ==> status == HsakmtStatus::HSAKMT_STATUS_SUCCESS && *final(global) == (
        HsaKmtGlobal { hsakmt_kfd_fd: fd, ..*old(global) }),
{
    if fd == -1 {
        return HsakmtStatus::HSAKMT_STATUS_KERNEL_IO_CHANNEL_NOT_OPENED;
    }
    global.hsakmt_kfd_fd = fd;
    HsakmtStatus::HSAKMT_STATUS_SUCCESS
}

/// Counts the opening of the device once everything else is set up.
pub fn hsakmt_open_kfd_finish(global: &mut HsaKmtGlobal) -> (status: HsakmtStatus)
    requires
        old(global).hsakmt_kfd_open_count < u64::MAX,
    ensures
        status == HsakmtStatus::HSAKMT_STATUS_SUCCESS,
        *final(global) == (HsaKmtGlobal {
            hsakmt_kfd_open_count: (old(global).hsakmt_kfd_open_count + 1) as u64,
            ..*old(global)
        }),
{
    global.hsakmt_kfd_open_count = global.hsakmt_kfd_open_count + 1;
    HsakmtStatus::HSAKMT_STATUS_SUCCESS
}

/// Closes the device. The descriptor stays open for the life of the process.
pub fn hsa_kmt_close_kfd() -> (status: HsakmtStatus)
    ensures
        status == HsakmtStatus::HSAKMT_STATUS_SUCCESS,
{
    HsakmtStatus::HSAKMT_STATUS_SUCCESS
}

} // verus!
