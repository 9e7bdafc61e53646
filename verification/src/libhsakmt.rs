//! Requests to the kernel driver: when one is made again, and what its
//! failure means.

use vstd::prelude::*;

verus! {

/// The numbers of the errors that the system reports and that this library
/// tells apart. They are the system's own, and come from whoever talks to it.
#[derive(Debug, Copy, Clone, PartialEq, Eq, Structural)]
pub struct ErrnoCodes {
    pub eintr: i32,
    pub eagain: i32,
    pub ebadf: i32,
    pub enoent: i32,
    pub eperm: i32,
    pub eacces: i32,
    pub einval: i32,
}

/// What follows a request to the kernel driver.
#[derive(Debug, Copy, Clone, PartialEq, Eq, Structural)]
pub enum IoctlVerdict {
    /// The request was interrupted or would have blocked: it is made again.
    Retry,
    /// The request is over and returned `ret`. `fd_invalid` says that the
    /// descriptor is not valid in this process, as after a fork.
    Done { ret: i32, fd_invalid: bool },
}

/// What follows a request that returned `ret` and left `errno`.
pub fn hsakmt_ioctl(ret: i32, errno: i32, codes: &ErrnoCodes) -> (verdict: IoctlVerdict)
    ensures
        verdict == (if ret == -1 && (errno == codes.eintr || errno == codes.eagain) {
            IoctlVerdict::Retry
        } else {
            IoctlVerdict::Done { ret, fd_invalid: ret == -1 && errno == codes.ebadf }
        }),
{
    if ret == -1 && (errno == codes.eintr || errno == codes.eagain) {
        IoctlVerdict::Retry
    } else {
        IoctlVerdict::Done { ret, fd_invalid: ret == -1 && errno == codes.ebadf }
    }
}

} // verus!
