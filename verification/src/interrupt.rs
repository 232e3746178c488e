//! The interrupt subsystem: the vector layout, the settings of the interrupt
//! controller and the timer, and what each first-level handler decides.
//!
//! Ports and descriptor tables are written by the caller; a handler here
//! takes what was read from the hardware and says what is logged, which line
//! is acknowledged and how the handler ends.

use vstd::prelude::*;
use crate::keyboard::{pushed, PushOutcome, ScancodeQueue};

verus! {

/// First vector of the remapped hardware interrupts.
pub const PIC_OFFSET: u8 = 32;

/// Value the timer counts down from between two interrupts, for a period of
/// roughly 5 ms.
pub const PIC_TERM_COUNT: u16 = 5966;

/// Number of timer interrupts in one second.
pub const TICKS_PER_SECOND: u64 = 200;

/// Command port of the timer.
pub const TIMER_COMMAND_PORT: u16 = 0x43;

/// Data port of channel 0 of the timer.
pub const TIMER_DATA_PORT: u16 = 0x40;

/// Command that selects channel 0, both bytes of the count, rate generator.
pub const TIMER_COMMAND: u8 = 0x34;

/// Data port of the keyboard controller.
pub const KEYBOARD_DATA_PORT: u16 = 0x60;

/// The hardware interrupts the kernel listens to.
#[derive(Debug, Copy, Clone, PartialEq, Eq, Structural)]
pub enum IntIdx {
    Timer,
    Keyboard,
}

impl IntIdx {
    /// The vector of the interrupt: the timer has the first vector of the
    /// remapped range, the keyboard the second.
    pub open spec fn vector(self) -> u8 {
        match self {
            IntIdx::Timer => PIC_OFFSET,
            IntIdx::Keyboard => (PIC_OFFSET + 1) as u8,
        }
    }

    /// The vector of the interrupt.
    pub fn as_u8(self) -> (vector: u8)
        ensures
            vector == self.vector(),
    {
        match self {
            IntIdx::Timer => PIC_OFFSET,
            IntIdx::Keyboard => PIC_OFFSET + 1,
        }
    }
}

/// One byte to write to an I/O port.
#[derive(Debug, Copy, Clone, PartialEq, Eq, Structural)]
pub struct PortWrite {
    pub port: u16,
    pub value: u8,
}

/// How the interrupt controller and the timer are set up.
pub struct InterruptSetup {
    /// First vector of the first and of the second controller.
    pub pic_offsets: (u8, u8),
    /// Interrupt masks of the first and of the second controller; a set bit
    /// masks a line.
    pub pic_masks: (u8, u8),
    /// The writes that program the timer, in order.
    pub timer: Vec<PortWrite>,
}

/// The low byte of the timer count.
pub open spec fn timer_count_low() -> u8 {
    (PIC_TERM_COUNT % 256) as u8
}

/// The high byte of the timer count.
pub open spec fn timer_count_high() -> u8 {
    (PIC_TERM_COUNT / 256) as u8
}

/// The setup of the interrupt hardware: the two controllers are remapped to
/// the vectors from `PIC_OFFSET` on, eight each; every line is masked but the
/// first two of the first controller, the timer and the keyboard; the timer
/// is given its command and then its count, low byte first.
pub fn init() -> (setup: InterruptSetup)
    ensures
        setup.pic_offsets == (PIC_OFFSET, (PIC_OFFSET + 8) as u8),
        setup.pic_masks == (0xfcu8, 0xffu8),
        unmasked_lines(setup.pic_masks) == set![IntIdx::Timer.vector(), IntIdx::Keyboard.vector()],
        setup.timer@ == seq![
            PortWrite { port: TIMER_COMMAND_PORT, value: TIMER_COMMAND },
            PortWrite { port: TIMER_DATA_PORT, value: timer_count_low() },
            PortWrite { port: TIMER_DATA_PORT, value: timer_count_high() },
        ],
{
    let low: u8 = (PIC_TERM_COUNT % 256) as u8;
    let high: u8 = (PIC_TERM_COUNT / 256) as u8;
    let mut timer: Vec<PortWrite> = Vec::new();
    timer.push(PortWrite { port: TIMER_COMMAND_PORT, value: TIMER_COMMAND });
    timer.push(PortWrite { port: TIMER_DATA_PORT, value: low });
    timer.push(PortWrite { port: TIMER_DATA_PORT, value: high });
    proof {
        lemma_only_timer_and_keyboard_are_unmasked();
    }
    InterruptSetup { pic_offsets: (PIC_OFFSET, PIC_OFFSET + 8), pic_masks: (0xfc, 0xff), timer }
}

/// Whether line `line` of a controller, from 0 to 7, is masked by `mask`.
pub open spec fn is_masked(mask: u8, line: u8) -> bool {
    mask & (1u8 << line) != 0
}

/// The vectors of the lines that a pair of masks leaves unmasked, the first
/// controller starting at `PIC_OFFSET` and the second eight vectors later.
pub open spec fn unmasked_lines(masks: (u8, u8)) -> Set<u8> {
    Set::new(
        |vector: u8|
            (PIC_OFFSET <= vector < PIC_OFFSET + 8 && !is_masked(
                masks.0,
                (vector - PIC_OFFSET) as u8,
            )) || (PIC_OFFSET + 8 <= vector < PIC_OFFSET + 16 && !is_masked(
                masks.1,
                (vector - PIC_OFFSET - 8) as u8,
            )),
    )
}

/// The masks that are written leave the timer and the keyboard unmasked, and
/// no other line.
pub proof fn lemma_only_timer_and_keyboard_are_unmasked()
    ensures
        unmasked_lines((0xfcu8, 0xffu8)) == set![IntIdx::Timer.vector(), IntIdx::Keyboard.vector()],
{
    assert forall|line: u8| line < 8 implies (is_masked(0xfc, line) <==> line >= 2) && is_masked(
        0xff,
        line,
    ) by {
        assert(line < 8 ==> ((0xfcu8 & (1u8 << line) != 0) <==> line >= 2) && (0xffu8 & (1u8
            << line) != 0)) by (bit_vector);
    }
    assert(unmasked_lines((0xfcu8, 0xffu8)) =~= set![
        IntIdx::Timer.vector(),
        IntIdx::Keyboard.vector(),
    ]);
}

/// What a handler has logged.
#[derive(Debug, Copy, Clone, PartialEq, Eq, Structural)]
pub enum Report {
    /// Nothing.
    Nothing,
    /// A page fault with this error code at this address.
    PageFault { code: u64, address: u64 },
    /// A double fault.
    DoubleFault,
    /// The kernel waits for a debugger.
    WaitingForDebugger,
    /// A general protection fault with this error code.
    GeneralProtectionFault { code: u64 },
    /// This many seconds have passed on the timer.
    TimerSecond(u64),
    /// An interrupt without a handler of its own.
    Irq { index: u8, error_code: Option<u64> },
    /// A scancode was dropped because the keyboard queue is full.
    ScancodeDropped,
}

/// How a handler ends.
#[derive(Debug, Copy, Clone, PartialEq, Eq, Structural)]
pub enum Ending {
    /// The interrupted code goes on.
    Resume,
    /// The system halts; there is no recovery.
    Halt,
    /// The handler parks in a tight loop, for a debugger to attach.
    Park,
}

/// What a first-level handler decided.
#[derive(Debug, Copy, Clone, PartialEq, Eq, Structural)]
pub struct Response {
    /// What is logged.
    pub report: Report,
    /// The vector whose end of interrupt is signalled to the interrupt
    /// controller, if the interrupt came from it.
    pub acknowledge: Option<u8>,
    /// How the handler ends.
    pub ending: Ending,
}

/// A page fault is always fatal: the fault is logged and the system halts.
pub fn page_fault(code: u64, address: u64) -> (response: Response)
    ensures
        response == (Response {
            report: Report::PageFault { code, address },
            acknowledge: None,
            ending: Ending::Halt,
        }),
        acknowledges_once(response),
{
    Response { report: Report::PageFault { code, address }, acknowledge: None, ending: Ending::Halt }
}

/// A double fault is always fatal: it is logged and the system halts.
pub fn double_fault() -> (response: Response)
    ensures
        response == (Response {
            report: Report::DoubleFault,
            acknowledge: None,
            ending: Ending::Halt,
        }),
        acknowledges_once(response),
{
    Response { report: Report::DoubleFault, acknowledge: None, ending: Ending::Halt }
}

/// A breakpoint parks the kernel until a debugger attaches.
pub fn breakpoint() -> (response: Response)
    ensures
        response == (Response {
            report: Report::WaitingForDebugger,
            acknowledge: None,
            ending: Ending::Park,
        }),
        acknowledges_once(response),
{
    Response { report: Report::WaitingForDebugger, acknowledge: None, ending: Ending::Park }
}

/// A general protection fault is logged and halts the system.
pub fn general_protection_fault(code: u64) -> (response: Response)
    ensures
        response == (Response {
            report: Report::GeneralProtectionFault { code },
            acknowledge: None,
            ending: Ending::Halt,
        }),
        acknowledges_once(response),
{
    Response {
        report: Report::GeneralProtectionFault { code },
        acknowledge: None,
        ending: Ending::Halt,
    }
}

/// The tick count after one more timer interrupt.
pub open spec fn ticked(ticks: u64) -> u64 {
    if ticks == u64::MAX {
        0
    } else {
        (ticks + 1) as u64
    }
}

/// The timer interrupt: the tick count goes up by one, every full second is
/// logged, and the timer line is acknowledged.
pub fn timer(ticks: &mut u64) -> (response: Response)
    ensures
        *final(ticks) == ticked(*old(ticks)),
        response == (Response {
            report: if ticked(*old(ticks)) % TICKS_PER_SECOND == 0 {
                Report::TimerSecond(ticked(*old(ticks)) / TICKS_PER_SECOND)
            } else {
                Report::Nothing
            },
            acknowledge: Some(IntIdx::Timer.vector()),
            ending: Ending::Resume,
        }),
        acknowledges_once(response),
{
    let now = if *ticks == u64::MAX {
        0
    } else {
        *ticks + 1
    };
    *ticks = now;
    let report = if now % TICKS_PER_SECOND == 0 {
        Report::TimerSecond(now / TICKS_PER_SECOND)
    } else {
        Report::Nothing
    };
    Response { report, acknowledge: Some(IntIdx::Timer.as_u8()), ending: Ending::Resume }
}

/// The keyboard interrupt: the byte that was read from the data port is
/// offered to the scancode queue, and the keyboard line is acknowledged. A
/// byte that finds the queue full is dropped, with a warning.
pub fn keyboard(queue: &mut ScancodeQueue, scancode: u8) -> (response: Response)
    ensures
        final(queue)@ == pushed(old(queue)@, scancode),
        response == (Response {
            report: if old(queue)@.pending.len() < old(queue)@.capacity {
                Report::Nothing
            } else {
                Report::ScancodeDropped
            },
            acknowledge: Some(IntIdx::Keyboard.vector()),
            ending: Ending::Resume,
        }),
        acknowledges_once(response),
{
    let report = match queue.add_scancode(scancode) {
        PushOutcome::Queued => Report::Nothing,
        PushOutcome::Dropped => Report::ScancodeDropped,
    };
    Response { report, acknowledge: Some(IntIdx::Keyboard.as_u8()), ending: Ending::Resume }
}

/// Any other interrupt is logged and acknowledged, and is not fatal.
pub fn general_handler(index: u8, error_code: Option<u64>) -> (response: Response)
    ensures
        response == (Response {
            report: Report::Irq { index, error_code },
            acknowledge: Some(index),
            ending: Ending::Resume,
        }),
        acknowledges_once(response),
{
    Response {
        report: Report::Irq { index, error_code },
        acknowledge: Some(index),
        ending: Ending::Resume,
    }
}

/// A handler acknowledges the interrupt controller exactly when the
/// interrupted code goes on: once for a hardware line, never for a fault.
pub open spec fn acknowledges_once(response: Response) -> bool {
    response.acknowledge is Some <==> response.ending == Ending::Resume
}

} // verus!
