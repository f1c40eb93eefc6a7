//! Hardware-register primitives.
//!
//! Every register is one fixed 32-bit address; an access is a single volatile
//! memory operation. The volatile reads and writes themselves live in the
//! unverified shell; the functions here compute, with full contracts, which
//! address is accessed and which value is stored.

use vstd::prelude::*;

verus! {

/// Address of the cache controller for the execute-in-place window. Clearing
/// every bit (power-down, error-on-alias-write, enable) disables the cache
/// and exposes the backing RAM.
pub const XIP_CTRL: u32 = 0x1400_0000;

/// Address of the oscillator control register: bits 23:12 take the enable
/// code, bits 11:0 the fixed frequency-range code.
pub const XOSC_CTRL: u32 = 0x4002_4000;

/// Address of the oscillator status register: bit 31 reports that the
/// oscillator is running and stable.
pub const XOSC_STATUS: u32 = 0x4002_4004;

/// Address of the oscillator startup-delay register: bits 13:0 hold the delay
/// count, in multiples of 256 crystal periods.
pub const XOSC_STARTUP: u32 = 0x4002_400c;

/// Enable code for bits 23:12 of the oscillator control register.
pub const XOSC_ENABLE_CODE: u32 = 0xfab;

/// Disable code for bits 23:12 of the oscillator control register.
pub const XOSC_DISABLE_CODE: u32 = 0xd1e;

/// The only valid frequency-range code, bits 11:0 of the control register.
pub const XOSC_FREQ_RANGE: u32 = 0xaa0;

/// One fixed 32-bit hardware register, identified by its address.
#[derive(Clone, Copy, Debug, PartialEq, Eq)]
pub struct Reg {
    pub address: u32,
}

impl Reg {
    pub fn new(address: u32) -> (r: Reg)
        ensures
            r == (Reg { address }),
    {
        Reg { address }
    }
}

/// A single volatile store: the register written and the value stored.
#[derive(Clone, Copy, Debug, PartialEq, Eq)]
pub struct RegWrite {
    pub reg: Reg,
    pub value: u32,
}

/// The store that clears every bit of the cache controller, disabling the
/// cache and exposing the backing RAM.
pub open spec fn xip_disable_write() -> RegWrite {
    RegWrite { reg: Reg { address: XIP_CTRL }, value: 0u32 }
}

/// The store that programs the oscillator startup delay: the count masked to
/// the register's 14 delay bits.
pub open spec fn xosc_delay_write(delay: u32) -> RegWrite {
    RegWrite { reg: Reg { address: XOSC_STARTUP }, value: delay & 0x3fff }
}

/// The store that enables the oscillator: the enable code in bits 23:12,
/// OR'd with the fixed frequency-range code.
pub open spec fn xosc_enable_write() -> RegWrite {
    RegWrite { reg: Reg { address: XOSC_CTRL }, value: XOSC_FREQ_RANGE | (XOSC_ENABLE_CODE << 12) }
}

/// The store that disables the oscillator: the disable code in bits 23:12,
/// OR'd with the fixed frequency-range code.
pub open spec fn xosc_disable_write() -> RegWrite {
    RegWrite { reg: Reg { address: XOSC_CTRL }, value: XOSC_FREQ_RANGE | (XOSC_DISABLE_CODE << 12) }
}

/// True when a value read from the oscillator status register has the stable
/// bit (bit 31) set.
pub open spec fn spec_xosc_stable(status: u32) -> bool {
    status & 0x8000_0000 == 0x8000_0000
}

/// Whether a value read from the oscillator status register reports the
/// oscillator as running and stable.
pub fn xosc_is_running(status: u32) -> (b: bool)
    ensures
        b == spec_xosc_stable(status),
{
    status & 0x8000_0000 == 0x8000_0000
}

/// The register write that disables the execute-in-place cache, making the
/// diagnostic region plain addressable RAM.
pub fn disable_xip_cache() -> (w: RegWrite)
    ensures
        w == xip_disable_write(),
{
    RegWrite { reg: Reg { address: XIP_CTRL }, value: 0 }
}

/// The register write that programs the oscillator startup delay; the count
/// is masked to the 14 delay bits before it is stored.
pub fn xosc_start_delay(delay: u32) -> (w: RegWrite)
    ensures
        w == xosc_delay_write(delay),
{
    RegWrite { reg: Reg { address: XOSC_STARTUP }, value: delay & 0x3fff }
}

/// Startup delay count for a crystal of the given frequency in kHz: one count
/// per 256 crystal periods, rounding down.
pub fn xosc_startup_delay_count(freq_khz: u32) -> (count: u32)
    requires
        freq_khz + 128 <= u32::MAX,
    ensures
        count == (freq_khz + 128) / 256,
{
    (freq_khz + 128) / 256
}

/// The register write that enables or disables the crystal oscillator.
pub fn xosc_enable(enable: bool) -> (w: RegWrite)
    ensures
        enable ==> w == xosc_enable_write(),
        !enable ==> w == xosc_disable_write(),
{
    let code: u32 = if enable {
        XOSC_ENABLE_CODE
    } else {
        XOSC_DISABLE_CODE
    };
    RegWrite { reg: Reg { address: XOSC_CTRL }, value: XOSC_FREQ_RANGE | (code << 12) }
}

} // verus!
