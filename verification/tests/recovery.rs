use usb_boot_recovery::handler::{Action, Event, PanicHandler, Phase, RomCall};
use usb_boot_recovery::regs::{
    disable_xip_cache, xosc_enable, xosc_is_running, xosc_start_delay, Reg, RegWrite, XIP_CTRL,
    XOSC_CTRL, XOSC_STARTUP,
};
use usb_boot_recovery::rom::{rom_tag_code, ROMFuncs, USB_BOOT_TAG_CODE};
use usb_boot_recovery::sink::Cursor;

fn new_handler(capacity: usize, message: &[u8]) -> PanicHandler {
    PanicHandler::new(vec![0xAAu8; capacity], message.to_vec())
}

/// Drive a fresh handler through the three opening steps and return their
/// actions: disable interrupts, disable the cache, read the oscillator status.
fn drive_to_message_written(h: &mut PanicHandler) -> Vec<Action> {
    let a1 = h.step(Event::Proceed);
    let a2 = h.step(Event::Proceed);
    let a3 = h.step(Event::Proceed);
    vec![a1, a2, a3]
}

const STABLE: u32 = 0x8000_0000;

#[test]
fn append_commits_short_fragment() {
    let mut sink = Cursor::new(vec![0xAAu8; 8]);
    let ok = sink.append(b"abc");
    assert!(ok);
    assert_eq!(sink.pos, 3);
    assert_eq!(&sink.buf[0..3], b"abc");
    assert_eq!(&sink.buf[3..], &[0xAA; 5]);
}

#[test]
fn append_advances_cursor_by_fragment_len() {
    let mut sink = Cursor::new(vec![0u8; 16]);
    assert!(sink.append(b"ab"));
    assert_eq!(sink.pos, 2);
    assert!(sink.append(b"cde"));
    assert_eq!(sink.pos, 5);
    assert_eq!(&sink.buf[0..5], b"abcde");
}

#[test]
fn append_rejects_exact_fit() {
    let mut sink = Cursor::new(vec![1u8, 2, 3]);
    let ok = sink.append(b"xyz");
    assert!(!ok);
    assert_eq!(sink.pos, 0);
    assert_eq!(sink.buf, vec![1u8, 2, 3]);
}

#[test]
fn append_one_below_capacity_commits() {
    let mut sink = Cursor::new(vec![0u8; 4]);
    assert!(sink.append(b"abc"));
    assert_eq!(sink.pos, 3);
}

#[test]
fn append_rejects_oversized_without_mutation() {
    let mut sink = Cursor::new(vec![7u8; 4]);
    assert!(!sink.append(b"abcdef"));
    assert_eq!(sink.pos, 0);
    assert_eq!(sink.buf, vec![7u8; 4]);
    assert!(sink.append(b"ab"));
    assert_eq!(sink.pos, 2);
}

#[test]
fn cursor_starts_at_zero() {
    let sink = Cursor::new(vec![9u8; 5]);
    assert_eq!(sink.pos, 0);
    assert_eq!(sink.buf, vec![9u8; 5]);
}

#[test]
fn zero_tail_clears_rest_and_keeps_text() {
    let mut sink = Cursor::new(vec![0x55u8; 8]);
    assert!(sink.append(b"hi"));
    sink.zero_tail();
    assert_eq!(sink.pos, 2);
    assert_eq!(&sink.buf[0..2], b"hi");
    assert_eq!(&sink.buf[2..], &[0u8; 6]);
}

#[test]
fn handler_renders_message_and_zeroes_tail() {
    let mut h = new_handler(16, b"boom");
    let opening = drive_to_message_written(&mut h);
    assert_eq!(opening[0], Action::DisableInterrupts);
    assert_eq!(
        opening[1],
        Action::WriteReg(RegWrite { reg: Reg { address: XIP_CTRL }, value: 0 })
    );
    assert_eq!(opening[2], Action::ReadOscStatus);
    assert_eq!(h.phase, Phase::MessageWritten);
    assert_eq!(h.sink.pos, 6);
    assert_eq!(&h.sink.buf[0..6], b"boom\n\x00");
    assert_eq!(&h.sink.buf[6..], &[0u8; 10]);
}

#[test]
fn message_fitting_without_tail_is_cut_before_tail() {
    // Four text bytes commit (4 < 6), the two tail bytes would be an exact
    // fit of the space left (2 is not < 2) and are rejected.
    let mut h = new_handler(6, b"boom");
    drive_to_message_written(&mut h);
    assert_eq!(h.sink.pos, 4);
    assert_eq!(&h.sink.buf[..], b"boom\x00\x00");
}

#[test]
fn oversized_message_truncates_but_run_completes() {
    let mut h = new_handler(8, &[b'x'; 32]);
    let opening = drive_to_message_written(&mut h);
    assert_eq!(opening[2], Action::ReadOscStatus);
    // The whole message was rejected: cursor at zero, buffer fully zeroed.
    assert_eq!(h.sink.pos, 0);
    assert_eq!(&h.sink.buf[..], &[0u8; 8]);
    // The sequence still runs to the ROM call.
    let lookup = h.step(Event::OscStatus(STABLE));
    assert_eq!(lookup, Action::LookupRom(USB_BOOT_TAG_CODE));
    let jump = h.step(Event::RomResult(0x1234_5678));
    assert_eq!(
        jump,
        Action::CallRom(RomCall {
            address: 0x1234_5678,
            gpio_activity_pin_mask: 0,
            disable_interface_mask: 0,
        })
    );
    assert_eq!(h.phase, Phase::Finished);
}

#[test]
fn startup_delay_is_47_for_12_mhz() {
    let mut h = new_handler(8, b"x");
    drive_to_message_written(&mut h);
    let programmed = h.step(Event::OscStatus(0));
    assert_eq!(
        programmed,
        Action::WriteReg(RegWrite { reg: Reg { address: XOSC_STARTUP }, value: 47 })
    );
    assert_eq!((12000 + 128) / 256, 47);
}

#[test]
fn startup_delay_masked_to_14_bits() {
    let w = xosc_start_delay(0xFFFF);
    assert_eq!(w.reg.address, XOSC_STARTUP);
    assert_eq!(w.value, 0x3FFF);
    assert_eq!(xosc_start_delay(47).value, 47);
}

#[test]
fn enable_and_disable_control_codes() {
    let on = xosc_enable(true);
    assert_eq!(on.reg.address, XOSC_CTRL);
    assert_eq!(on.value, 0xAA0 | (0xFAB << 12));
    let off = xosc_enable(false);
    assert_eq!(off.reg.address, XOSC_CTRL);
    assert_eq!(off.value, 0xAA0 | (0xD1E << 12));
}

#[test]
fn polling_issues_only_status_reads() {
    let mut h = new_handler(8, b"x");
    drive_to_message_written(&mut h);
    let delay = h.step(Event::OscStatus(0));
    assert!(matches!(delay, Action::WriteReg(_)));
    let enable = h.step(Event::Proceed);
    assert_eq!(
        enable,
        Action::WriteReg(RegWrite { reg: Reg { address: XOSC_CTRL }, value: 0xFABAA0 })
    );
    let first_read = h.step(Event::Proceed);
    assert_eq!(first_read, Action::ReadOscStatus);
    for unstable in [0u32, 1, 0x7FFF_FFFF, 0x4000_0000] {
        let a = h.step(Event::OscStatus(unstable));
        assert_eq!(a, Action::ReadOscStatus);
        assert_eq!(h.phase, Phase::Polling);
    }
    let resolved = h.step(Event::OscStatus(STABLE));
    assert_eq!(resolved, Action::LookupRom(USB_BOOT_TAG_CODE));
}

#[test]
fn stable_oscillator_skips_bringup() {
    let mut h = new_handler(8, b"x");
    drive_to_message_written(&mut h);
    let a = h.step(Event::OscStatus(0xFFFF_FFFF));
    assert_eq!(a, Action::LookupRom(USB_BOOT_TAG_CODE));
    assert_eq!(h.phase, Phase::Resolving);
}

#[test]
fn null_resolution_halts_with_no_further_writes() {
    let mut h = new_handler(8, b"x");
    drive_to_message_written(&mut h);
    h.step(Event::OscStatus(STABLE));
    let buffer_before = h.sink.buf.clone();
    let a = h.step(Event::RomResult(0));
    assert_eq!(a, Action::Halt);
    assert_eq!(h.phase, Phase::Failed);
    assert_eq!(h.sink.buf, buffer_before);
}

#[test]
fn status_stable_bit_is_bit_31() {
    assert!(xosc_is_running(0x8000_0000));
    assert!(xosc_is_running(0xFFFF_FFFF));
    assert!(!xosc_is_running(0x7FFF_FFFF));
    assert!(!xosc_is_running(0));
    assert!(!xosc_is_running(1 << 12));
}

#[test]
fn cache_disable_clears_all_bits() {
    let w = disable_xip_cache();
    assert_eq!(w.reg.address, XIP_CTRL);
    assert_eq!(w.value, 0);
    assert_eq!(Reg::new(0x1234).address, 0x1234);
}

#[test]
fn tag_code_widens_little_endian() {
    assert_eq!(rom_tag_code(0x55, 0x42), 0x4255);
    assert_eq!(rom_tag_code(0x55, 0x42), USB_BOOT_TAG_CODE);
    let bytes = *b"UB";
    assert_eq!(rom_tag_code(bytes[0], bytes[1]), u16::from_le_bytes(bytes) as u32);
}

#[test]
fn rom_funcs_load_null_means_absent() {
    assert!(ROMFuncs::load(0).is_none());
    let funcs = ROMFuncs::load(0xABCD).unwrap();
    assert_eq!(funcs.reset_to_usb_boot, 0xABCD);
}
