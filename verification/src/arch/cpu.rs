//! Interrupt numbers, I/O ports, the 8259 interrupt controllers and the
//! dispatch of interrupts to their handlers. Port I/O itself happens at
//! the caller: this module says which bytes go to which ports.
use vstd::prelude::*;

verus! {

/// Hardware interrupts after the controllers are remapped to start at
/// vector 0x20.
#[derive(PartialEq, Eq, PartialOrd, Ord, Clone, Copy, Debug, Structural)]
pub enum IRQ {
    Timer,
    PS2Keyboard,
    Cascade,
    COM2,
    COM1,
    LPT2,
    Floppy,
    LPT1,
    CmosClock,
    FreeOne,
    FreeTwo,
    FreeThree,
    PsMouse,
    FPU,
    PrimaryAta,
    SecondaryAta,
}

/// Position of an interrupt line on the two controllers: lines 0 to 7 on
/// the master, 8 to 15 on the slave.
pub open spec fn irq_line(irq: IRQ) -> nat {
    match irq {
        IRQ::Timer => 0,
        IRQ::PS2Keyboard => 1,
        IRQ::Cascade => 2,
        IRQ::COM2 => 3,
        IRQ::COM1 => 4,
        IRQ::LPT2 => 5,
        IRQ::Floppy => 6,
        IRQ::LPT1 => 7,
        IRQ::CmosClock => 8,
        IRQ::FreeOne => 9,
        IRQ::FreeTwo => 10,
        IRQ::FreeThree => 11,
        IRQ::PsMouse => 12,
        IRQ::FPU => 13,
        IRQ::PrimaryAta => 14,
        IRQ::SecondaryAta => 15,
    }
}

impl IRQ {
    /// The interrupt vector: 0x20 past the line number.
    pub fn number(self) -> (n: u8)
        ensures
            n == 0x20 + irq_line(self),
    {
        match self {
            IRQ::Timer => 0x20,
            IRQ::PS2Keyboard => 0x21,
            IRQ::Cascade => 0x22,
            IRQ::COM2 => 0x23,
            IRQ::COM1 => 0x24,
            IRQ::LPT2 => 0x25,
            IRQ::Floppy => 0x26,
            IRQ::LPT1 => 0x27,
            IRQ::CmosClock => 0x28,
            IRQ::FreeOne => 0x29,
            IRQ::FreeTwo => 0x2a,
            IRQ::FreeThree => 0x2b,
            IRQ::PsMouse => 0x2c,
            IRQ::FPU => 0x2d,
            IRQ::PrimaryAta => 0x2e,
            IRQ::SecondaryAta => 0x2f,
        }
    }
}

/// Each interrupt has its own vector, and the vectors fill 0x20 to 0x2f.
pub proof fn law_irq_numbers_distinct(a: IRQ, b: IRQ)
    ensures
        irq_line(a) < 16,
        irq_line(a) == irq_line(b) <==> a == b,
{
}

/// An x86 I/O port.
#[derive(PartialEq, Eq, PartialOrd, Ord, Clone, Copy, Debug, Structural)]
pub struct Port(u16);

impl View for Port {
    type V = u16;

    closed spec fn view(&self) -> u16 {
        self.0
    }
}

/// One byte to send to one port.
#[derive(PartialEq, Eq, Clone, Copy, Debug, Structural)]
pub struct PortWrite {
    pub port: Port,
    pub value: u8,
}

impl Port {
    pub fn new(number: u16) -> (port: Port)
        ensures
            port@ == number,
    {
        Port(number)
    }

    /// The port's number.
    pub fn number(self) -> (number: u16)
        ensures
            number == self@,
    {
        self.0
    }

    /// The write that makes the processor wait for a slow device: a zero
    /// to the unused port 0x80.
    pub fn io_wait() -> (write: PortWrite)
        ensures
            write.port@ == 0x80,
            write.value == 0,
    {
        PortWrite { port: Port::new(0x80), value: 0 }
    }
}

/// One of the two 8259 programmable interrupt controllers.
pub struct PIC {
    control_port: Port,
    mask_port: Port,
    is_master: bool,
}

/// The initialisation sequence of a controller: ICW1 (0x11) to the
/// control port, then the vector offset, the cascade word (2 on the
/// master, 4 on the slave), ICW4 (0x01) and a mask of 0, which enables
/// every line, to the mask port.
pub open spec fn remap_writes(control: Port, mask: Port, is_master: bool, start: u8) -> Seq<PortWrite> {
    seq![
        PortWrite { port: control, value: 0x11 },
        PortWrite { port: mask, value: start },
        PortWrite { port: mask, value: if is_master { 2u8 } else { 4u8 } },
        PortWrite { port: mask, value: 0x01 },
        PortWrite { port: mask, value: 0x00 },
    ]
}

impl PIC {
    pub closed spec fn control_port(&self) -> Port {
        self.control_port
    }

    pub closed spec fn mask_port(&self) -> Port {
        self.mask_port
    }

    pub closed spec fn is_master(&self) -> bool {
        self.is_master
    }

    /// The master controller, at ports 0x20 and 0x21.
    pub fn master() -> (pic: PIC)
        ensures
            pic.control_port()@ == 0x20,
            pic.mask_port()@ == 0x21,
            pic.is_master(),
    {
        PIC { control_port: Port::new(0x20), mask_port: Port::new(0x21), is_master: true }
    }

    /// The slave controller, at ports 0xA0 and 0xA1.
    pub fn slave() -> (pic: PIC)
        ensures
            pic.control_port()@ == 0xA0,
            pic.mask_port()@ == 0xA1,
            !pic.is_master(),
    {
        PIC { control_port: Port::new(0xA0), mask_port: Port::new(0xA1), is_master: false }
    }

    /// The writes, in order, that make the controller deliver its lines at
    /// vectors `start` to `start + 7` with every line enabled.
    pub fn remap_to(&mut self, start: u8) -> (writes: Vec<PortWrite>)
        ensures
            writes@ == remap_writes(old(self).control_port(), old(self).mask_port(), old(self).is_master(), start),
            writes@.len() == 5,
            writes@[0] == (PortWrite { port: old(self).control_port(), value: 0x11 }),
            forall|i: int| 1 <= i < 5 ==> (#[trigger] writes@[i]).port == old(self).mask_port(),
            writes@[1].value == start,
            writes@[2].value == (if old(self).is_master() { 2u8 } else { 4u8 }),
            writes@[3].value == 0x01,
            writes@[4].value == 0x00,
            *final(self) == *old(self),
    {
        let icw1: u8 = 0x11;
        let icw4: u8 = 0x1;
        let enable_all: u8 = 0x00;
        let typ: u8 = if self.is_master {
            0x2
        } else {
            0x4
        };
        let mut writes: Vec<PortWrite> = Vec::new();
        writes.push(PortWrite { port: self.control_port, value: icw1 });
        writes.push(PortWrite { port: self.mask_port, value: start });
        writes.push(PortWrite { port: self.mask_port, value: typ });
        writes.push(PortWrite { port: self.mask_port, value: icw4 });
        writes.push(PortWrite { port: self.mask_port, value: enable_all });
        proof {
            assert(writes@ =~= remap_writes(self.control_port, self.mask_port, self.is_master, start));
        }
        writes
    }
}

/// The controller is told to deliver its lines from vector `start`, for
/// every `start`: the second write sends `start` itself to the mask port,
/// and two remappings to different vectors differ in that write alone.
pub proof fn law_remap_offset_is_start(control: Port, mask: Port, is_master: bool, s1: u8, s2: u8)
    ensures
        remap_writes(control, mask, is_master, s1).len() == 5,
        remap_writes(control, mask, is_master, s1)[1] == (PortWrite { port: mask, value: s1 }),
        forall|i: int|
            0 <= i < 5 && i != 1 ==> #[trigger] remap_writes(control, mask, is_master, s1)[i]
                == remap_writes(control, mask, is_master, s2)[i],
        s1 != s2 ==> remap_writes(control, mask, is_master, s1) != remap_writes(control, mask, is_master, s2),
{
    assert(remap_writes(control, mask, is_master, s1)[1] != remap_writes(control, mask, is_master, s2)[1] ==> remap_writes(control, mask, is_master, s1) != remap_writes(control, mask, is_master, s2));
}

/// The end-of-interrupt write: command 0x20 to the master controller.
pub fn acknowledge_irq(_interrupt_number: u32) -> (write: PortWrite)
    ensures
        write.port@ == 0x20,
        write.value == 0x20,
{
    PortWrite { port: PIC::master().control_port, value: 0x20 }
}

/// The handlers an interrupt can be routed to.
#[derive(PartialEq, Eq, Clone, Copy, Debug, Structural)]
pub enum InterruptHandler {
    /// The software interrupt 0x15 that the kernel raises to test itself.
    TestInterrupt,
    /// The timer (vector 0x20); nothing to do.
    Timer,
    /// The keyboard (vector 0x21).
    Keyboard,
}

/// The handler for each vector; `None` for vectors without one.
pub open spec fn handler_for(interrupt_number: u32) -> Option<InterruptHandler> {
    if interrupt_number == 0x15 {
        Some(InterruptHandler::TestInterrupt)
    } else if interrupt_number == 0x20 {
        Some(InterruptHandler::Timer)
    } else if interrupt_number == 0x21 {
        Some(InterruptHandler::Keyboard)
    } else {
        None
    }
}

/// Only three vectors have a handler: the test interrupt 0x15 goes to the
/// test handler, 0x20 to the timer and 0x21 to the keyboard; every other
/// vector has none.
pub proof fn law_handled_vectors(interrupt_number: u32)
    ensures
        handler_for(interrupt_number) is Some <==> (interrupt_number == 0x15 || interrupt_number == 0x20
            || interrupt_number == 0x21),
        interrupt_number == 0x15 ==> handler_for(interrupt_number) == Some(InterruptHandler::TestInterrupt),
        interrupt_number == 0x20 ==> handler_for(interrupt_number) == Some(InterruptHandler::Timer),
        interrupt_number == 0x21 ==> handler_for(interrupt_number) == Some(InterruptHandler::Keyboard),
{
}

/// Of the hardware interrupt lines, only the timer and the keyboard have a
/// handler at their vector: the timer's handler and the keyboard's.
pub proof fn law_irq_handlers(irq: IRQ)
    ensures
        handler_for((0x20 + irq_line(irq)) as u32) is Some <==> (irq == IRQ::Timer || irq == IRQ::PS2Keyboard),
        irq == IRQ::Timer ==> handler_for((0x20 + irq_line(irq)) as u32) == Some(InterruptHandler::Timer),
        irq == IRQ::PS2Keyboard ==> handler_for((0x20 + irq_line(irq)) as u32) == Some(
            InterruptHandler::Keyboard,
        ),
{
}

/// Whether the vector has a handler; an interrupt without one is a fatal
/// error of the kernel.
pub fn has_handler(interrupt_number: u32) -> (handled: bool)
    ensures
        handled == handler_for(interrupt_number) is Some,
        handled == (interrupt_number == 0x15 || interrupt_number == 0x20 || interrupt_number == 0x21),
{
    interrupt_number == 0x15 || interrupt_number == 0x20 || interrupt_number == 0x21
}

/// Routes an interrupt to its handler. The caller runs the handler and
/// then sends `acknowledge_irq`.
pub fn unified_handler(interrupt_number: u32) -> (handler: InterruptHandler)
    requires
        handler_for(interrupt_number) is Some,
    ensures
        handler_for(interrupt_number) == Some(handler),
        interrupt_number == 0x15 ==> handler == InterruptHandler::TestInterrupt,
        interrupt_number == 0x20 ==> handler == InterruptHandler::Timer,
        interrupt_number == 0x21 ==> handler == InterruptHandler::Keyboard,
{
    match interrupt_number {
        0x15 => InterruptHandler::TestInterrupt,
        0x20 => InterruptHandler::Timer,
        _ => InterruptHandler::Keyboard,
    }
}

} // verus!
