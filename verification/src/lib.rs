//! Crash-recovery handler for a microcontroller's unrecoverable-fault path.
//!
//! On a fault the handler repurposes a cache-backed memory window as plain
//! RAM, renders a bounded diagnostic message into it, brings up the external
//! crystal oscillator, and resolves and jumps to the ROM routine that reboots
//! the device into USB firmware-update mode.
//!
//! The library holds the verified core: the bounded text sink, the register
//! address/value computations, the ROM-lookup interpretation, and the ordered
//! recovery protocol as a step machine. An unverified shell owns the volatile
//! register accesses and the ROM call, carries out each [`handler::Action`]
//! the machine asks for, and feeds the resulting [`handler::Event`] back in.

pub mod handler;
pub mod regs;
pub mod rom;
pub mod sink;
