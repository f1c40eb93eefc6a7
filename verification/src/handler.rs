//! The fault handler's recovery protocol.
//!
//! The handler runs a fixed, ordered sequence: disable interrupts, disable
//! the execute-in-place cache, render the fault text into the diagnostic
//! sink and zero the rest of the buffer, bring the crystal oscillator up if
//! it is not already stable, resolve the USB-boot routine in ROM and jump to
//! it. The hardware effects themselves — volatile stores, status reads, the
//! ROM lookup and the final jump — are carried out by an unverified shell:
//! each call to [`PanicHandler::step`] returns the next [`Action`] to
//! perform, and the shell reports what happened back as an [`Event`].

use vstd::prelude::*;

use crate::regs::{
    spec_xosc_stable, xip_disable_write, xosc_delay_write, xosc_enable_write, RegWrite,
    disable_xip_cache, xosc_enable, xosc_is_running, xosc_start_delay, xosc_startup_delay_count,
};
use crate::rom::{rom_tag_code, ROMFuncs, USB_BOOT_TAG_0, USB_BOOT_TAG_1, USB_BOOT_TAG_CODE};
use crate::sink::{render_contents, render_pos, lemma_rendered_tail_is_zero, Cursor};

verus! {

/// Target crystal frequency in kHz; the startup delay is computed from it.
pub const XOSC_TARGET_FREQ_KHZ: u32 = 12_000;

/// What the shell reports back to the handler.
#[derive(Clone, Copy, Debug, PartialEq, Eq)]
pub enum Event {
    /// Begin the run, or: the previous action has been carried out.
    Proceed,
    /// The value read from the oscillator status register.
    OscStatus(u32),
    /// The raw value the ROM table-lookup routine returned.
    RomResult(u32),
}

/// The jump into a resolved ROM routine, with its two arguments. The routine
/// reboots the device and does not return.
#[derive(Clone, Copy, Debug, PartialEq, Eq)]
pub struct RomCall {
    pub address: u32,
    pub gpio_activity_pin_mask: u32,
    pub disable_interface_mask: u32,
}

/// What the handler asks the shell to do next.
#[derive(Clone, Copy, Debug, PartialEq, Eq)]
pub enum Action {
    /// Disable interrupts globally.
    DisableInterrupts,
    /// Store a value to a hardware register.
    WriteReg(RegWrite),
    /// Read the oscillator status register and report the value back.
    ReadOscStatus,
    /// Run the ROM table lookup with this tag code and report the raw result.
    LookupRom(u32),
    /// Jump to the resolved ROM routine: the last interaction on the success
    /// path.
    CallRom(RomCall),
    /// Idle forever; no further register or ROM activity.
    Halt,
}

/// How far the recovery sequence has come; each phase names what has already
/// been done.
#[derive(Clone, Copy, Debug, PartialEq, Eq)]
pub enum Phase {
    /// Nothing has happened yet.
    Init,
    /// Interrupts are off; the handler owns the processor.
    InterruptsOff,
    /// The cache-controller write has been issued: the diagnostic region is
    /// plain RAM.
    CacheDisabled,
    /// Fault text rendered and the buffer tail zeroed; awaiting the first
    /// oscillator status value.
    MessageWritten,
    /// The startup delay has been programmed.
    DelayProgrammed,
    /// The oscillator enable code has been written.
    EnableIssued,
    /// Spinning on the status register until the stable bit is set.
    Polling,
    /// Awaiting the raw result of the ROM table lookup.
    Resolving,
    /// The jump into ROM has been issued; nothing further happens here.
    Finished,
    /// The ROM routine was absent: terminal idle, no further writes.
    Failed,
}

/// The two phases from which no step is ever taken.
pub open spec fn is_terminal(p: Phase) -> bool {
    p is Finished || p is Failed
}

/// Which event a phase awaits.
pub open spec fn event_fits(p: Phase, ev: Event) -> bool {
    match p {
        Phase::Init
        | Phase::InterruptsOff
        | Phase::CacheDisabled
        | Phase::DelayProgrammed
        | Phase::EnableIssued => ev is Proceed,
        Phase::MessageWritten | Phase::Polling => ev is OscStatus,
        Phase::Resolving => ev is RomResult,
        Phase::Finished | Phase::Failed => false,
    }
}

/// The write that programs the startup delay for the target crystal: the
/// delay count is the frequency in kHz plus 128, divided by 256 (rounding
/// down), masked to the register's 14 delay bits.
pub open spec fn startup_delay_write() -> RegWrite {
    xosc_delay_write(((XOSC_TARGET_FREQ_KHZ + 128) / 256) as u32)
}

/// One step of the recovery protocol: from the current phase and the event
/// the shell reported, the phase the handler moves to and the action it asks
/// for next. The control path never depends on the fault text or the sink:
/// truncation cannot abort the sequence.
pub open spec fn protocol_step(p: Phase, ev: Event) -> (Phase, Action) {
    match (p, ev) {
        (Phase::Init, Event::Proceed) => (Phase::InterruptsOff, Action::DisableInterrupts),
        (Phase::InterruptsOff, Event::Proceed) => (
            Phase::CacheDisabled,
            Action::WriteReg(xip_disable_write()),
        ),
        (Phase::CacheDisabled, Event::Proceed) => (Phase::MessageWritten, Action::ReadOscStatus),
        (Phase::MessageWritten, Event::OscStatus(v)) => if spec_xosc_stable(v) {
            (Phase::Resolving, Action::LookupRom(USB_BOOT_TAG_CODE))
        } else {
            (Phase::DelayProgrammed, Action::WriteReg(startup_delay_write()))
        },
        (Phase::DelayProgrammed, Event::Proceed) => (
            Phase::EnableIssued,
            Action::WriteReg(xosc_enable_write()),
        ),
        (Phase::EnableIssued, Event::Proceed) => (Phase::Polling, Action::ReadOscStatus),
        (Phase::Polling, Event::OscStatus(v)) => if spec_xosc_stable(v) {
            (Phase::Resolving, Action::LookupRom(USB_BOOT_TAG_CODE))
        } else {
            (Phase::Polling, Action::ReadOscStatus)
        },
        (Phase::Resolving, Event::RomResult(raw)) => if raw != 0 {
            (
                Phase::Finished,
                Action::CallRom(
                    RomCall { address: raw, gpio_activity_pin_mask: 0, disable_interface_mask: 0 },
                ),
            )
        } else {
            (Phase::Failed, Action::Halt)
        },
        _ => (p, Action::Halt),
    }
}

/// The phase reached after feeding a sequence of events, one protocol step
/// each.
pub open spec fn run_phases(p: Phase, evs: Seq<Event>) -> Phase
    decreases evs.len(),
{
    if evs.len() == 0 {
        p
    } else {
        run_phases(protocol_step(p, evs[0]).0, evs.drop_first())
    }
}

/// The actions the handler asks for along a run, in order.
pub open spec fn run_actions(p: Phase, evs: Seq<Event>) -> Seq<Action>
    decreases evs.len(),
{
    if evs.len() == 0 {
        Seq::empty()
    } else {
        seq![protocol_step(p, evs[0]).1] + run_actions(protocol_step(p, evs[0]).0, evs.drop_first())
    }
}

/// An oscillator status report whose stable bit is clear.
pub open spec fn is_unstable_status(ev: Event) -> bool {
    ev matches Event::OscStatus(v) && !spec_xosc_stable(v)
}

/// While the status register keeps reading as not yet stable, the handler
/// stays in its polling phase and asks only for further status reads: no
/// other register access is interleaved with the polling.
pub proof fn lemma_polling_only_reads(evs: Seq<Event>)
    requires
        forall|i: int| 0 <= i < evs.len() ==> is_unstable_status(#[trigger] evs[i]),
    ensures
        run_phases(Phase::Polling, evs) is Polling,
        run_actions(Phase::Polling, evs).len() == evs.len(),
        forall|i: int|
            0 <= i < evs.len() ==> run_actions(Phase::Polling, evs)[i] == Action::ReadOscStatus,
    decreases evs.len(),
{
    if evs.len() > 0 {
        assert(is_unstable_status(evs[0]));
        assert(protocol_step(Phase::Polling, evs[0]) == (Phase::Polling, Action::ReadOscStatus));
        assert(forall|i: int|
            0 <= i < evs.drop_first().len() ==> is_unstable_status(
                #[trigger] evs.drop_first()[i],
            ));
        lemma_polling_only_reads(evs.drop_first());
        assert forall|i: int| 0 <= i < evs.len() implies run_actions(Phase::Polling, evs)[i]
            == Action::ReadOscStatus by {
            if i > 0 {
                assert(run_actions(Phase::Polling, evs)[i] == run_actions(
                    Phase::Polling,
                    evs.drop_first(),
                )[i - 1]);
            }
        }
    }
}

/// The events of a run in which the oscillator is already stable at the first
/// status read and the ROM lookup reports `raw`.
pub open spec fn short_run_events(status: u32, raw: u32) -> Seq<Event> {
    seq![
        Event::Proceed,
        Event::Proceed,
        Event::Proceed,
        Event::OscStatus(status),
        Event::RomResult(raw),
    ]
}

/// Truncation never aborts recovery. The protocol's control path never reads
/// the fault text or the sink — [`protocol_step`] does not take them — so for
/// every fault message, one longer than the buffer included, a run that sees
/// a stable oscillator and a non-null lookup result walks the whole sequence
/// and ends in the terminal Finished phase, with the jump into ROM as its
/// last action.
pub proof fn lemma_recovery_completes(status: u32, raw: u32)
    requires
        spec_xosc_stable(status),
        raw != 0,
    ensures
        run_phases(Phase::Init, short_run_events(status, raw)) is Finished,
        run_actions(Phase::Init, short_run_events(status, raw)) =~= seq![
            Action::DisableInterrupts,
            Action::WriteReg(xip_disable_write()),
            Action::ReadOscStatus,
            Action::LookupRom(USB_BOOT_TAG_CODE),
            Action::CallRom(
                RomCall { address: raw, gpio_activity_pin_mask: 0, disable_interface_mask: 0 },
            ),
        ],
{
    let evs = short_run_events(status, raw);
    let e1 = evs.drop_first();
    let e2 = e1.drop_first();
    let e3 = e2.drop_first();
    let e4 = e3.drop_first();
    let e5 = e4.drop_first();
    assert(e1[0] == Event::Proceed && e2[0] == Event::Proceed);
    assert(e3[0] == Event::OscStatus(status));
    assert(e4[0] == Event::RomResult(raw));
    assert(e5.len() == 0);
    assert(run_phases(Phase::Init, evs) == run_phases(Phase::InterruptsOff, e1));
    assert(run_phases(Phase::InterruptsOff, e1) == run_phases(Phase::CacheDisabled, e2));
    assert(run_phases(Phase::CacheDisabled, e2) == run_phases(Phase::MessageWritten, e3));
    assert(run_phases(Phase::MessageWritten, e3) == run_phases(Phase::Resolving, e4));
    assert(run_phases(Phase::Resolving, e4) == run_phases(Phase::Finished, e5));
    let last = Action::CallRom(
        RomCall { address: raw, gpio_activity_pin_mask: 0, disable_interface_mask: 0 },
    );
    assert(run_actions(Phase::Finished, e5) =~= Seq::<Action>::empty());
    assert(run_actions(Phase::Resolving, e4) =~= seq![last]);
    assert(run_actions(Phase::MessageWritten, e3) =~= seq![
        Action::LookupRom(USB_BOOT_TAG_CODE),
        last,
    ]);
    assert(run_actions(Phase::CacheDisabled, e2) =~= seq![
        Action::ReadOscStatus,
        Action::LookupRom(USB_BOOT_TAG_CODE),
        last,
    ]);
    assert(run_actions(Phase::InterruptsOff, e1) =~= seq![
        Action::WriteReg(xip_disable_write()),
        Action::ReadOscStatus,
        Action::LookupRom(USB_BOOT_TAG_CODE),
        last,
    ]);
}

/// The oscillator bring-up, when the first status read is not yet stable, is
/// exactly two register writes — the startup delay, then the enable code —
/// followed by a status read, and leaves the handler polling: no other
/// register write is issued around them.
pub proof fn lemma_bringup_sequence(status: u32)
    requires
        !spec_xosc_stable(status),
    ensures
        run_phases(
            Phase::MessageWritten,
            seq![Event::OscStatus(status), Event::Proceed, Event::Proceed],
        ) is Polling,
        run_actions(
            Phase::MessageWritten,
            seq![Event::OscStatus(status), Event::Proceed, Event::Proceed],
        ) =~= seq![
            Action::WriteReg(startup_delay_write()),
            Action::WriteReg(xosc_enable_write()),
            Action::ReadOscStatus,
        ],
{
    let evs = seq![Event::OscStatus(status), Event::Proceed, Event::Proceed];
    let e1 = evs.drop_first();
    let e2 = e1.drop_first();
    let e3 = e2.drop_first();
    assert(e1[0] == Event::Proceed && e2[0] == Event::Proceed);
    assert(e3.len() == 0);
    assert(run_phases(Phase::MessageWritten, evs) == run_phases(Phase::DelayProgrammed, e1));
    assert(run_phases(Phase::DelayProgrammed, e1) == run_phases(Phase::EnableIssued, e2));
    assert(run_phases(Phase::EnableIssued, e2) == run_phases(Phase::Polling, e3));
    assert(run_actions(Phase::Polling, e3) =~= Seq::<Action>::empty());
    assert(run_actions(Phase::EnableIssued, e2) =~= seq![Action::ReadOscStatus]);
    assert(run_actions(Phase::DelayProgrammed, e1) =~= seq![
        Action::WriteReg(xosc_enable_write()),
        Action::ReadOscStatus,
    ]);
}

/// Resolving the tag to a non-null address makes the jump with arguments
/// `(0, 0)` the final interaction: the handler lands in the terminal
/// Finished phase, from which no step is ever taken. A null result leads to
/// zero further writes: the one remaining action is the idle, and the
/// handler lands in the terminal Failed phase.
pub proof fn lemma_resolution_is_final(raw: u32)
    ensures
        raw != 0 ==> protocol_step(Phase::Resolving, Event::RomResult(raw)) == (
            Phase::Finished,
            Action::CallRom(
                RomCall { address: raw, gpio_activity_pin_mask: 0, disable_interface_mask: 0 },
            ),
        ),
        raw == 0 ==> protocol_step(Phase::Resolving, Event::RomResult(raw)) == (
            Phase::Failed,
            Action::Halt,
        ),
        is_terminal(Phase::Finished),
        is_terminal(Phase::Failed),
{
}

/// The fault handler: the fault text, the diagnostic sink, and how far the
/// protocol has come. Constructed once, on the fault, and driven by the
/// shell's action/event loop; it never hands control back.
pub struct PanicHandler {
    pub phase: Phase,
    pub sink: Cursor,
    pub message: Vec<u8>,
}

impl PanicHandler {
    /// Capacity of the diagnostic buffer.
    pub open spec fn capacity(self) -> int {
        self.buf_len() as int
    }

    pub open spec fn buf_len(self) -> nat {
        self.sink.buf.len() as nat
    }

    /// Phases in which the sink has not been written yet.
    pub open spec fn before_render(self) -> bool {
        self.phase is Init || self.phase is InterruptsOff || self.phase is CacheDisabled
    }

    /// The handler's invariant: the sink is well formed; before the render
    /// step the cursor still sits at the start, and from the render step on
    /// the buffer holds exactly the rendered fault text with a zeroed tail.
    pub open spec fn wf(self) -> bool {
        &&& self.sink.wf()
        &&& (self.before_render() ==> self.sink.pos == 0)
        &&& (!self.before_render() ==> {
            &&& self.sink.pos == render_pos(self.message@, self.capacity())
            &&& self.sink.buf@ == render_contents(self.message@, self.capacity())
        })
    }

    /// A fresh handler over the diagnostic buffer and the rendered fault
    /// description.
    pub fn new(buf: Vec<u8>, message: Vec<u8>) -> (h: PanicHandler)
        ensures
            h.phase is Init,
            h.sink.pos == 0,
            h.sink.buf == buf,
            h.message == message,
            h.wf(),
    {
        PanicHandler { phase: Phase::Init, sink: Cursor::new(buf), message }
    }

    /// One step of the recovery sequence. The phase and the returned action
    /// follow [`protocol_step`] exactly; the sink changes only in the render
    /// step, where the fault text lands in the buffer and everything from the
    /// final cursor to the end of the buffer is zeroed.
    pub fn step(&mut self, event: Event) -> (a: Action)
        requires
            old(self).wf(),
            !is_terminal(old(self).phase),
            event_fits(old(self).phase, event),
        ensures
            final(self).wf(),
            final(self).message == old(self).message,
            final(self).buf_len() == old(self).buf_len(),
            (final(self).phase, a) == protocol_step(old(self).phase, event),
            old(self).phase is CacheDisabled ==> {
                &&& final(self).sink.pos == render_pos(old(self).message@, old(self).capacity())
                &&& final(self).sink.buf@ == render_contents(
                    old(self).message@,
                    old(self).capacity(),
                )
                &&& forall|i: int|
                    final(self).sink.pos <= i < final(self).capacity()
                        ==> final(self).sink.buf@[i] == 0
            },
            !(old(self).phase is CacheDisabled) ==> final(self).sink == old(self).sink,
    {
        match (self.phase, event) {
            (Phase::Init, Event::Proceed) => {
                self.phase = Phase::InterruptsOff;
                Action::DisableInterrupts
            },
            (Phase::InterruptsOff, Event::Proceed) => {
                self.phase = Phase::CacheDisabled;
                Action::WriteReg(disable_xip_cache())
            },
            (Phase::CacheDisabled, Event::Proceed) => {
                self.sink.render(self.message.as_slice());
                self.phase = Phase::MessageWritten;
                proof {
                    lemma_rendered_tail_is_zero(self.message@, self.capacity());
                }
                Action::ReadOscStatus
            },
            (Phase::MessageWritten, Event::OscStatus(v)) => {
                if xosc_is_running(v) {
                    self.phase = Phase::Resolving;
                    Action::LookupRom(rom_tag_code(USB_BOOT_TAG_0, USB_BOOT_TAG_1))
                } else {
                    self.phase = Phase::DelayProgrammed;
                    let count: u32 = xosc_startup_delay_count(XOSC_TARGET_FREQ_KHZ);
                    Action::WriteReg(xosc_start_delay(count))
                }
            },
            (Phase::DelayProgrammed, Event::Proceed) => {
                self.phase = Phase::EnableIssued;
                Action::WriteReg(xosc_enable(true))
            },
            (Phase::EnableIssued, Event::Proceed) => {
                self.phase = Phase::Polling;
                Action::ReadOscStatus
            },
            (Phase::Polling, Event::OscStatus(v)) => {
                if xosc_is_running(v) {
                    self.phase = Phase::Resolving;
                    Action::LookupRom(rom_tag_code(USB_BOOT_TAG_0, USB_BOOT_TAG_1))
                } else {
                    Action::ReadOscStatus
                }
            },
            (Phase::Resolving, Event::RomResult(raw)) => {
                match ROMFuncs::load(raw) {
                    Some(funcs) => {
                        self.phase = Phase::Finished;
                        Action::CallRom(
                            RomCall {
                                address: funcs.reset_to_usb_boot,
                                gpio_activity_pin_mask: 0,
                                disable_interface_mask: 0,
                            },
                        )
                    },
                    None => {
                        self.phase = Phase::Failed;
                        Action::Halt
                    },
                }
            },
            _ => Action::Halt,
        }
    }
}

} // verus!

