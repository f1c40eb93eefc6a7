//! ROM-function resolution.
//!
//! The boot ROM maps 2-byte tags to function entry addresses through a lookup
//! routine; both the routine and the table are reached via 16-bit truncated
//! pointers at fixed flash offsets. The raw pointer reads and the indirect
//! call live in the unverified shell; this module fixes the offsets, widens a
//! tag to the code the lookup routine takes, and interprets its raw result.

use vstd::prelude::*;

verus! {

/// Flash offset of the 16-bit truncated pointer to the ROM table-lookup
/// routine.
pub const ROM_TABLE_LOOKUP_PTR: u32 = 0x0000_0018;

/// Flash offset of the 16-bit truncated pointer to the ROM function table.
pub const FUNC_TABLE: u32 = 0x0000_0014;

/// First byte of the tag of the ROM routine that resets into USB
/// firmware-update mode: ASCII 'U'.
pub const USB_BOOT_TAG_0: u8 = 0x55;

/// Second byte of the same tag: ASCII 'B'.
pub const USB_BOOT_TAG_1: u8 = 0x42;

/// The tag "UB" widened to the 32-bit code the lookup routine takes.
pub const USB_BOOT_TAG_CODE: u32 = 0x4255;

/// A 2-byte tag widened to the 32-bit code the ROM lookup routine takes: the
/// two bytes read as one little-endian 16-bit value.
pub fn rom_tag_code(tag0: u8, tag1: u8) -> (code: u32)
    ensures
        code == tag0 + 0x100 * (tag1 as u32),
{
    (tag0 as u32) + 0x100 * (tag1 as u32)
}

/// The ROM routines the recovery path calls, each resolved to its entry
/// address by the ROM's tag lookup.
#[derive(Clone, Copy, Debug, PartialEq, Eq)]
pub struct ROMFuncs {
    /// Entry address of the routine that reboots the device into USB
    /// firmware-update mode.
    pub reset_to_usb_boot: u32,
}

impl ROMFuncs {
    /// Interpret the raw value the ROM lookup routine returned for the
    /// USB-boot tag: zero means the routine is absent — fatal, since no
    /// fallback path exists — and anything else is the routine's entry
    /// address.
    pub fn load(raw: u32) -> (r: Option<ROMFuncs>)
        ensures
            r is Some <==> raw != 0,
            r matches Some(f) ==> f.reset_to_usb_boot == raw,
    {
        if raw == 0 {
            None
        } else {
            Some(ROMFuncs { reset_to_usb_boot: raw })
        }
    }
}

} // verus!
