//! Sizes of register files.

use vstd::prelude::*;
use crate::hsakmttypes::{
    GFX_VERSION_ALDEBARAN, GFX_VERSION_AQUA_VANJARAM, GFX_VERSION_ARCTURUS, GFX_VERSION_GFX1200,
    GFX_VERSION_GFX1201, GFX_VERSION_PLUM_BONITO, GFX_VERSION_WHEAT_NAS,
};

verus! {

/// The size in bytes of the vector register file of a compute unit of a GPU
/// with engine version `gfxv`.
pub open spec fn vgpr_size_per_cu(gfxv: u32) -> u32 {
    if (gfxv & !0xffu32) == GFX_VERSION_AQUA_VANJARAM || gfxv == GFX_VERSION_ALDEBARAN || gfxv
        == GFX_VERSION_ARCTURUS {
        0x80000
    } else if gfxv == GFX_VERSION_PLUM_BONITO || gfxv == GFX_VERSION_WHEAT_NAS || gfxv
        == GFX_VERSION_GFX1200 || gfxv == GFX_VERSION_GFX1201 {
        0x60000
    } else {
        0x40000
    }
}

/// The size in bytes of the vector register file of a compute unit: 512 KiB
/// on Arcturus, Aldebaran and every stepping of Aqua Vanjaram, 384 KiB on the
/// GFX11 and GFX12 parts named, and 256 KiB elsewhere.
pub fn hsakmt_get_vgpr_size_per_cu(gfxv: u32) -> (vgpr_size: u32)
    ensures
        vgpr_size == vgpr_size_per_cu(gfxv),
{
    if (gfxv & !0xffu32) == GFX_VERSION_AQUA_VANJARAM || gfxv == GFX_VERSION_ALDEBARAN || gfxv
        == GFX_VERSION_ARCTURUS {
        0x80000
    } else if gfxv == GFX_VERSION_PLUM_BONITO || gfxv == GFX_VERSION_WHEAT_NAS || gfxv
        == GFX_VERSION_GFX1200 || gfxv == GFX_VERSION_GFX1201 {
        0x60000
    } else {
        0x40000
    }
}

} // verus!
