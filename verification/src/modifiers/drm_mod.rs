//! Well-known DRM format modifier constants.
use vstd::prelude::*;

verus! {

/// Linear (non-tiled) memory layout.
pub const LINEAR: u64 = 0;

/// Invalid modifier: the modifier is implicit, or there is none.
pub const INVALID: u64 = 0x00ff_ffff_ffff_ffff;

/// Mask of the vendor prefix (upper 8 bits).
pub const VENDOR_MASK: u64 = 0xff00_0000_0000_0000;

/// No vendor (`LINEAR` and `INVALID`).
pub const VENDOR_NONE: u64 = 0;

/// Intel vendor prefix.
pub const VENDOR_INTEL: u64 = 0x0100_0000_0000_0000;

/// AMD vendor prefix.
pub const VENDOR_AMD: u64 = 0x0200_0000_0000_0000;

/// NVIDIA vendor prefix.
pub const VENDOR_NVIDIA: u64 = 0x0300_0000_0000_0000;

/// Samsung vendor prefix.
pub const VENDOR_SAMSUNG: u64 = 0x0400_0000_0000_0000;

/// Qualcomm vendor prefix.
pub const VENDOR_QCOM: u64 = 0x0500_0000_0000_0000;

/// ARM vendor prefix.
pub const VENDOR_ARM: u64 = 0x0800_0000_0000_0000;

/// Broadcom vendor prefix.
pub const VENDOR_BROADCOM: u64 = 0x0700_0000_0000_0000;

} // verus!
