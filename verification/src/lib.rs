//! User-space bookkeeping for the memory of AMD GPUs: the virtual address
//! space that is set aside for them, and the objects that are allocated in it.
//!
//! The address space is divided into apertures. An aperture reserves aligned
//! areas with guard pages behind them, either in a block that was reserved
//! for it or as mappings that the system places, and keeps an index of the
//! areas and of the objects in them. The apertures that the GPUs share are
//! laid out from what the kernel driver reports of each GPU.
//!
//! Nothing here calls into the system. Where the system or the kernel driver
//! has to act, a function says what is to be done, and another one takes the
//! answer.
//!
//! - [`rbtree`], [`rbtree_amd`]: the index of address ranges.
//! - [`fmm`], [`fmm_globals`], [`fmm_lemmas`]: apertures, areas and objects,
//!   and what holds of them.
//! - [`svm`]: the apertures that the GPUs share.
//! - [`process_apertures`]: the apertures of a process and its GPUs.
//! - [`kfd_ioctl`], [`libhsakmt`], [`open_close`], [`version`], [`globals`]:
//!   the kernel driver's device and the requests to it.
//! - [`topology`], [`properties`], [`cpuinfo`], [`queues`], [`hsakmttypes`]:
//!   the nodes of the system and what describes them.

pub mod cpuinfo;
pub mod fmm;
pub mod fmm_globals;
pub mod fmm_lemmas;
pub mod globals;
pub mod hsakmttypes;
pub mod kfd_ioctl;
pub mod libhsakmt;
pub mod open_close;
pub mod process_apertures;
pub mod properties;
pub mod queues;
pub mod rbtree;
pub mod rbtree_amd;
pub mod svm;
pub mod topology;
pub mod version;
