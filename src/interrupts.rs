use vstd::prelude::*;
use crate::task::Stack;

verus! {

/// Base frequency of the interval timer, in Hz.
pub const FREQ: u32 = 1193180;

/// Timer interrupts per second.
pub const HZ: u32 = 100;

/// Data port of the interval timer.
pub const TIMER_DATA: u16 = 0x40;

/// Command port of the interval timer.
pub const TIMER_CMD: u16 = 0x43;

/// Command byte: channel 0, low then high byte, square-wave mode.
pub const TIMER_MODE: u8 = 0x36;

/// Vector of the timer interrupt (IRQ 0).
pub const TIMER_VECTOR: u8 = 32;

/// Vector of the keyboard interrupt (IRQ 1).
pub const KBD_VECTOR: u8 = 33;

/// Interrupt-stack-table slot of the double-fault handler.
pub const IST_INDEX_DBL_FAULT: u16 = 0;

/// An I/O port.
#[derive(Debug, Clone, Copy, PartialEq, Eq, Structural)]
pub struct Port {
    pub port: u16,
}

/// One byte written to an I/O port.
#[derive(Debug, Clone, Copy, PartialEq, Eq, Structural)]
pub struct PortWrite {
    pub port: u16,
    pub value: u8,
}

/// The programmable interval timer, reached through its data and command ports.
#[derive(Debug, Clone, Copy)]
pub struct Timer {
    pub ports: [Port; 2],
}

impl Timer {
    pub fn new() -> (r: Timer)
        ensures
            r.ports@ == seq![Port { port: TIMER_DATA }, Port { port: TIMER_CMD }],
    {
        let r = Timer { ports: [Port { port: TIMER_DATA }, Port { port: TIMER_CMD }] };
        assert(r.ports@ =~= seq![Port { port: TIMER_DATA }, Port { port: TIMER_CMD }]);
        r
    }

    /// The writes that program the timer to fire `HZ` times per second: the mode on the
    /// command port, then the divisor `FREQ / HZ` on the data port, low byte first.
    pub fn init(&self) -> (r: Vec<PortWrite>)
        requires
            self.ports@ == seq![Port { port: TIMER_DATA }, Port { port: TIMER_CMD }],
        ensures
            r@ == seq![
                PortWrite { port: TIMER_CMD, value: TIMER_MODE },
                PortWrite { port: TIMER_DATA, value: ((FREQ / HZ) % 256) as u8 },
                PortWrite { port: TIMER_DATA, value: ((FREQ / HZ) / 256 % 256) as u8 },
            ],
    {
        let div: u32 = FREQ / HZ;
        let l: u32 = div & 0xff;
        let h: u32 = (div >> 8) & 0xff;
        assert(div & 0xff == div % 256) by (bit_vector);
        assert((div >> 8) & 0xff == div / 256 % 256) by (bit_vector);
        let mut r: Vec<PortWrite> = Vec::new();
        r.push(PortWrite { port: self.ports[1].port, value: TIMER_MODE });
        r.push(PortWrite { port: self.ports[0].port, value: l as u8 });
        r.push(PortWrite { port: self.ports[0].port, value: h as u8 });
        r
    }
}

pub const PROTECTION_VIOLATION: u64 = 1;
pub const CAUSED_BY_WRITE: u64 = 2;
pub const USER_MODE: u64 = 4;
pub const MALFORMED_TABLE: u64 = 8;
pub const INSTRUCTION_FETCH: u64 = 16;

/// All bits that a page-fault error code can hold.
pub const PAGE_FAULT_BITS: u64 = 0x1f;

/// The error code of a page fault, as a set of five flags.
#[derive(Debug, Clone, Copy, PartialEq, Eq, Structural)]
pub struct PageFaultErrorCode {
    pub bits: u64,
}

impl PageFaultErrorCode {
    /// The flag set of `bits`, or `None` when it holds a bit outside the five flags.
    pub fn from_bits(bits: u64) -> (r: Option<PageFaultErrorCode>)
        ensures
            r == (if bits & !PAGE_FAULT_BITS == 0 { Some(PageFaultErrorCode { bits }) } else {
                None::<PageFaultErrorCode>
            }),
    {
        if bits & !PAGE_FAULT_BITS == 0 {
            Some(PageFaultErrorCode { bits })
        } else {
            None
        }
    }

    /// Whether every flag of `flags` is set.
    pub fn contains(&self, flags: u64) -> (r: bool)
        ensures
            r == (self.bits & flags == flags),
    {
        self.bits & flags == flags
    }
}

/// The handlers installed in the interrupt descriptor table.
#[derive(Debug, Clone, Copy, PartialEq, Eq, Structural)]
pub enum Handler {
    DivideByZero,
    Breakpoint,
    DoubleFault,
    PageFault,
    Timer,
    Keyboard,
}

/// An installed vector: its handler, whether the CPU pushes an error code for it, and
/// the interrupt-stack-table slot it runs on, if any.
#[derive(Debug, Clone, Copy, PartialEq, Eq, Structural)]
pub struct IdtEntry {
    pub handler: Handler,
    pub with_error_code: bool,
    pub ist: Option<u16>,
}

/// The entry of the descriptor table for `vector`; `None` for a vector left empty.
pub fn idt_entry(vector: u8) -> (r: Option<IdtEntry>)
    ensures
        r == (match vector {
            0 => Some(IdtEntry { handler: Handler::DivideByZero, with_error_code: false, ist: None }),
            3 => Some(IdtEntry { handler: Handler::Breakpoint, with_error_code: false, ist: None }),
            8 => Some(IdtEntry { handler: Handler::DoubleFault, with_error_code: true, ist: Some(IST_INDEX_DBL_FAULT) }),
            14 => Some(IdtEntry { handler: Handler::PageFault, with_error_code: true, ist: None }),
            32 => Some(IdtEntry { handler: Handler::Timer, with_error_code: false, ist: None }),
            33 => Some(IdtEntry { handler: Handler::Keyboard, with_error_code: false, ist: None }),
            _ => None::<IdtEntry>,
        }),
{
    match vector {
        0 => Some(IdtEntry { handler: Handler::DivideByZero, with_error_code: false, ist: None }),
        3 => Some(IdtEntry { handler: Handler::Breakpoint, with_error_code: false, ist: None }),
        8 => Some(IdtEntry { handler: Handler::DoubleFault, with_error_code: true, ist: Some(IST_INDEX_DBL_FAULT) }),
        14 => Some(IdtEntry { handler: Handler::PageFault, with_error_code: true, ist: None }),
        TIMER_VECTOR => Some(IdtEntry { handler: Handler::Timer, with_error_code: false, ist: None }),
        KBD_VECTOR => Some(IdtEntry { handler: Handler::Keyboard, with_error_code: false, ist: None }),
        _ => None,
    }
}

/// What a handler does once it has logged.
#[derive(Debug, Clone, Copy, PartialEq, Eq, Structural)]
pub enum AfterHandler {
    /// stop in a `hlt` loop: the fault is fatal
    Halt,
    /// return to the interrupted code
    Return,
}

/// Whether `handler` halts the CPU after logging or returns.
pub fn after_handler(handler: Handler) -> (r: AfterHandler)
    ensures
        r == (match handler {
            Handler::DivideByZero | Handler::DoubleFault | Handler::PageFault => AfterHandler::Halt,
            _ => AfterHandler::Return,
        }),
{
    match handler {
        Handler::DivideByZero | Handler::DoubleFault | Handler::PageFault => AfterHandler::Halt,
        _ => AfterHandler::Return,
    }
}

/// What the page-fault handler reports: the decoded error code and the faulting address.
#[derive(Debug, Clone, Copy, PartialEq, Eq, Structural)]
pub struct PageFaultReport {
    pub error: PageFaultErrorCode,
    pub cr2: usize,
}

/// The report of a page fault with error code `err_code` at address `cr2`; the error
/// code must hold only the five known flags.
pub fn page_fault_handler(err_code: u64, cr2: usize) -> (r: PageFaultReport)
    requires
        err_code & !PAGE_FAULT_BITS == 0,
    ensures
        r == (PageFaultReport { error: PageFaultErrorCode { bits: err_code }, cr2 }),
{
    let error = PageFaultErrorCode::from_bits(err_code).unwrap();
    PageFaultReport { error, cr2 }
}

/// The steps of interrupt bring-up on the boot CPU.
#[derive(Debug, Clone, Copy, PartialEq, Eq, Structural)]
pub enum InitStep {
    LoadGdt,
    SetCs,
    LoadTss,
    LoadIdt,
    InitPit,
    InitKeyboard,
    InitPic,
    /// unmask the interrupt line of this vector
    EnableIrq(u8),
    EnableInterrupts,
}

/// An entry of the global descriptor table. A TSS descriptor is sixteen bytes wide and
/// fills two slots, `Tss` and then `TssHigh`.
#[derive(Debug, Clone, Copy, PartialEq, Eq, Structural)]
pub enum Descriptor {
    Null,
    KernelCode,
    KernelData,
    UserData,
    UserCode,
    Tss,
    TssHigh,
}

/// The privilege level that a selector for `d` requests.
pub open spec fn privilege_of(d: Descriptor) -> u16 {
    match d {
        Descriptor::UserData | Descriptor::UserCode => 3,
        _ => 0,
    }
}

/// Appends `d` (both slots of a TSS descriptor) and returns its selector: the slot
/// index times eight plus the privilege level.
pub fn add_entry(gdt: &mut Vec<Descriptor>, d: Descriptor) -> (sel: u16)
    requires
        old(gdt).len() < 8000,
        d != Descriptor::TssHigh,
    ensures
        sel == old(gdt).len() * 8 + privilege_of(d),
        final(gdt)@ == (if d == Descriptor::Tss {
            old(gdt)@.push(d).push(Descriptor::TssHigh)
        } else {
            old(gdt)@.push(d)
        }),
{
    let index = gdt.len() as u16;
    let rpl: u16 = match d {
        Descriptor::UserData | Descriptor::UserCode => 3,
        _ => 0,
    };
    gdt.push(d);
    if d == Descriptor::Tss {
        gdt.push(Descriptor::TssHigh);
    }
    index * 8 + rpl
}

/// The selectors recorded when the descriptor table is built.
#[derive(Debug, Clone, Copy, PartialEq, Eq, Structural)]
pub struct Selectors {
    pub kern_cs: u16,
    pub kern_ds: u16,
    pub user_cs: u16,
    pub user_ds: u16,
    pub tss: u16,
}

/// Everything interrupt bring-up installs: the descriptor table and its selectors, the
/// stack that interrupt-stack-table slot `IST_INDEX_DBL_FAULT` of the TSS points at, and
/// the order of the steps.
#[derive(Debug)]
pub struct InterruptSetup {
    pub gdt: Vec<Descriptor>,
    pub selectors: Selectors,
    pub ist_dbl_fault: usize,
    pub steps: Vec<InitStep>,
}

/// Vector of IRQ 2, the cascade line from the slave controller.
pub const IRQ2_VECTOR: u8 = 34;

/// The interrupt bring-up with `dbl_fault_stack` as the double-fault stack. The table
/// holds kernel code and data, then user data right below user code (the order that
/// `sysretq` expects), then the TSS. The steps load the descriptor tables, then set up
/// the devices, then the interrupt controllers with the cascade, timer and keyboard
/// lines unmasked, and enable interrupts last.
pub fn init(dbl_fault_stack: Stack) -> (r: InterruptSetup)
    ensures
        r.gdt@ == seq![
            Descriptor::Null,
            Descriptor::KernelCode,
            Descriptor::KernelData,
            Descriptor::UserData,
            Descriptor::UserCode,
            Descriptor::Tss,
            Descriptor::TssHigh,
        ],
        r.selectors == (Selectors { kern_cs: 0x08, kern_ds: 0x10, user_ds: 0x1b, user_cs: 0x23, tss: 0x28 }),
        r.ist_dbl_fault == dbl_fault_stack.top,
        r.steps@ == seq![
            InitStep::LoadGdt,
            InitStep::SetCs,
            InitStep::LoadTss,
            InitStep::LoadIdt,
            InitStep::InitPit,
            InitStep::InitKeyboard,
            InitStep::InitPic,
            InitStep::EnableIrq(IRQ2_VECTOR),
            InitStep::EnableIrq(TIMER_VECTOR),
            InitStep::EnableIrq(KBD_VECTOR),
            InitStep::EnableInterrupts,
        ],
{
    let mut gdt: Vec<Descriptor> = Vec::new();
    gdt.push(Descriptor::Null);
    let kern_cs = add_entry(&mut gdt, Descriptor::KernelCode);
    let kern_ds = add_entry(&mut gdt, Descriptor::KernelData);
    let user_ds = add_entry(&mut gdt, Descriptor::UserData);
    let user_cs = add_entry(&mut gdt, Descriptor::UserCode);
    let tss = add_entry(&mut gdt, Descriptor::Tss);
    assert(gdt@ =~= seq![
        Descriptor::Null,
        Descriptor::KernelCode,
        Descriptor::KernelData,
        Descriptor::UserData,
        Descriptor::UserCode,
        Descriptor::Tss,
        Descriptor::TssHigh,
    ]);
    let selectors = Selectors { kern_cs, kern_ds, user_cs, user_ds, tss };

    let mut steps: Vec<InitStep> = Vec::new();
    steps.push(InitStep::LoadGdt);
    steps.push(InitStep::SetCs);
    steps.push(InitStep::LoadTss);
    steps.push(InitStep::LoadIdt);
    steps.push(InitStep::InitPit);
    steps.push(InitStep::InitKeyboard);
    steps.push(InitStep::InitPic);
    steps.push(InitStep::EnableIrq(IRQ2_VECTOR));
    steps.push(InitStep::EnableIrq(TIMER_VECTOR));
    steps.push(InitStep::EnableIrq(KBD_VECTOR));
    steps.push(InitStep::EnableInterrupts);
    assert(steps@ =~= seq![
        InitStep::LoadGdt,
        InitStep::SetCs,
        InitStep::LoadTss,
        InitStep::LoadIdt,
        InitStep::InitPit,
        InitStep::InitKeyboard,
        InitStep::InitPic,
        InitStep::EnableIrq(IRQ2_VECTOR),
        InitStep::EnableIrq(TIMER_VECTOR),
        InitStep::EnableIrq(KBD_VECTOR),
        InitStep::EnableInterrupts,
    ]);
    InterruptSetup { gdt, selectors, ist_dbl_fault: dbl_fault_stack.top(), steps }
}

} // verus!
