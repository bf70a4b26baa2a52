use vstd::prelude::*;
use crate::hdw::bus::BUS;
use crate::hdw::cpu::{CPU, pending_limit};
use crate::hdw::bus::law_write_read_back;
use crate::hdw::registers::word;
use crate::hdw::stack::{law_push_then_pop, pushed, pushed16, stack_push16, stack_room};

verus! {

/// Interrupt sources of the machine. Their bit in IE/IF is given by `bit`.
#[derive(Copy, Clone, PartialEq, Eq, Structural, Debug)]
pub enum Interrupts {
    VBLANK,
    LCDSTART,
    TIMER,
    SERIAL,
    JOYPAD,
}

impl Interrupts {
    /// The bit mask of this source in the IE and IF registers.
    pub open spec fn mask(self) -> u8 {
        match self {
            Interrupts::VBLANK => 1,
            Interrupts::LCDSTART => 2,
            Interrupts::TIMER => 4,
            Interrupts::SERIAL => 8,
            Interrupts::JOYPAD => 16,
        }
    }

    /// Address of the handler that serves this source.
    pub open spec fn vector(self) -> u16 {
        match self {
            Interrupts::VBLANK => 0x40,
            Interrupts::LCDSTART => 0x48,
            Interrupts::TIMER => 0x50,
            Interrupts::SERIAL => 0x58,
            Interrupts::JOYPAD => 0x60,
        }
    }

    pub fn bit(self) -> (m: u8)
        ensures
            m == self.mask(),
    {
        match self {
            Interrupts::VBLANK => 1,
            Interrupts::LCDSTART => 2,
            Interrupts::TIMER => 4,
            Interrupts::SERIAL => 8,
            Interrupts::JOYPAD => 16,
        }
    }
}

/// Interrupt enable / flag registers and the master enable (IME).
#[derive(Copy, Clone, PartialEq, Eq, Structural, Debug)]
pub struct InterruptController {
    pub ie_register: u8,
    pub int_flags: u8,
    pub master_enabled: bool,
    pub enabling_ime: bool,
}

impl InterruptController {
    /// Whether `it` is requested in IF and enabled in IE.
    pub open spec fn pending(self, it: Interrupts) -> bool {
        &&& self.int_flags & it.mask() != 0
        &&& self.ie_register & it.mask() != 0
    }

    /// The requested and enabled interrupt of highest priority (VBLANK first, JOYPAD last).
    pub open spec fn first_pending(self) -> Option<Interrupts> {
        if self.pending(Interrupts::VBLANK) {
            Some(Interrupts::VBLANK)
        } else if self.pending(Interrupts::LCDSTART) {
            Some(Interrupts::LCDSTART)
        } else if self.pending(Interrupts::TIMER) {
            Some(Interrupts::TIMER)
        } else if self.pending(Interrupts::SERIAL) {
            Some(Interrupts::SERIAL)
        } else if self.pending(Interrupts::JOYPAD) {
            Some(Interrupts::JOYPAD)
        } else {
            None
        }
    }

    /// Whether some interrupt is requested and enabled.
    pub fn has_pending(&self) -> (r: bool)
        ensures
            r == self.first_pending().is_some(),
    {
        let f = self.int_flags;
        let e = self.ie_register;
        (f & 1 != 0 && e & 1 != 0) || (f & 2 != 0 && e & 2 != 0) || (f & 4 != 0 && e & 4 != 0)
            || (f & 8 != 0 && e & 8 != 0) || (f & 16 != 0 && e & 16 != 0)
    }

    pub fn new() -> (r: Self)
        ensures
            r == (InterruptController {
                ie_register: 0,
                int_flags: 0,
                master_enabled: false,
                enabling_ime: false,
            }),
    {
        InterruptController { ie_register: 0, int_flags: 0, master_enabled: false, enabling_ime: false }
    }

    pub fn get_ie_register(&self) -> (r: u8)
        ensures
            r == self.ie_register,
    {
        self.ie_register
    }

    pub fn set_ie_register(&mut self, value: u8)
        ensures
            *final(self) == (InterruptController { ie_register: value, ..*old(self) }),
    {
        self.ie_register = value;
    }

    pub fn get_int_flags(&self) -> (r: u8)
        ensures
            r == self.int_flags,
    {
        self.int_flags
    }

    pub fn set_int_flags(&mut self, value: u8)
        ensures
            *final(self) == (InterruptController { int_flags: value, ..*old(self) }),
    {
        self.int_flags = value;
    }

    /// Raises the flag bit of `interrupt` in IF; nothing else changes.
    pub fn request_interrupt(&mut self, interrupt: Interrupts)
        ensures
            *final(self) == (InterruptController {
                int_flags: old(self).int_flags | interrupt.mask(),
                ..*old(self)
            }),
    {
        self.int_flags = self.int_flags | interrupt.bit();
    }

    /// Completes a pending EI: IME becomes set and the pending flag clears.
    /// Returns whether an EI was pending.
    pub fn step_ime(&mut self) -> (r: bool)
        ensures
            r == old(self).enabling_ime,
            r ==> *final(self) == (InterruptController {
                master_enabled: true,
                enabling_ime: false,
                ..*old(self)
            }),
            !r ==> *final(self) == *old(self),
    {
        if self.enabling_ime {
            self.master_enabled = true;
            self.enabling_ime = false;
            true
        } else {
            false
        }
    }

    pub fn is_master_enabled(&self) -> (r: bool)
        ensures
            r == self.master_enabled,
    {
        self.master_enabled
    }

    pub fn set_master_enabled(&mut self, value: bool)
        ensures
            *final(self) == (InterruptController { master_enabled: value, ..*old(self) }),
    {
        self.master_enabled = value;
    }

    pub fn set_enabling_ime(&mut self, value: bool)
        ensures
            *final(self) == (InterruptController { enabling_ime: value, ..*old(self) }),
    {
        self.enabling_ime = value;
    }
}

/// The CPU after `int_handle`: PC pushed (no cycle charged) and PC at `address`.
pub open spec fn jumped_to_handler(cpu: CPU, address: u16) -> CPU {
    CPU { pc: address, ..pushed16(cpu, cpu.pc, false) }
}

/// The CPU after serving `it` through the handler at `address`: the jump to the handler,
/// then the request bit of `it` cleared in IF, IME cleared and HALT left.
pub open spec fn served(cpu: CPU, it: Interrupts, address: u16) -> CPU {
    let c = jumped_to_handler(cpu, address);
    let ic = c.bus.interrupt_controller;
    CPU {
        is_halted: false,
        bus: BUS {
            interrupt_controller: InterruptController {
                int_flags: ic.int_flags & !it.mask(),
                master_enabled: false,
                ..ic
            },
            ..c.bus
        },
        ..c
    }
}

/// The CPU after `cpu_handle_interrupts`: the pending interrupt of highest priority served
/// at its vector, or no change where none is pending.
pub open spec fn interrupts_handled(cpu: CPU) -> CPU {
    match cpu.bus.interrupt_controller.first_pending() {
        Some(it) => served(cpu, it, it.vector()),
        None => cpu,
    }
}

/// Whether the stack has room for the return address of an interrupt that may be served.
pub open spec fn can_serve(cpu: CPU) -> bool {
    &&& cpu.ready()
    &&& cpu.pending_cycles + 2 < pending_limit()
    &&& cpu.bus.interrupt_controller.first_pending().is_some() ==> cpu.sp > 1
}

/// Pushes PC and jumps to the interrupt handler at `address`.
pub fn int_handle(cpu: &mut CPU, address: u16)
    requires
        old(cpu).ready(),
        old(cpu).pending_cycles + 2 < pending_limit(),
        old(cpu).sp > 1,
    ensures
        *final(cpu) == jumped_to_handler(*old(cpu), address),
        final(cpu).bus.wf(),
{
    let pc = cpu.pc;
    stack_push16(cpu, pc, false);
    cpu.pc = address;
}

/// Serves `int_type` through the handler at `address` if it is requested and enabled;
/// returns whether it was.
pub fn int_check(cpu: &mut CPU, address: u16, int_type: Interrupts) -> (r: bool)
    requires
        old(cpu).ready(),
        old(cpu).pending_cycles + 2 < pending_limit(),
        old(cpu).bus.interrupt_controller.pending(int_type) ==> old(cpu).sp > 1,
    ensures
        r == old(cpu).bus.interrupt_controller.pending(int_type),
        r ==> *final(cpu) == served(*old(cpu), int_type, address),
        !r ==> *final(cpu) == *old(cpu),
        final(cpu).bus.wf(),
        final(cpu).pending_cycles == old(cpu).pending_cycles,
{
    let bit = int_type.bit();
    let flags = cpu.bus.interrupt_controller.get_int_flags();
    if (flags & bit) != 0 && (cpu.bus.interrupt_controller.ie_register & bit) != 0 {
        int_handle(cpu, address);
        let now = cpu.bus.interrupt_controller.get_int_flags();
        cpu.bus.interrupt_controller.set_int_flags(now & !bit);
        cpu.bus.interrupt_controller.master_enabled = false;
        cpu.is_halted = false;
        true
    } else {
        false
    }
}

/// Serves the requested and enabled interrupt of highest priority, if any.
pub fn cpu_handle_interrupts(cpu: &mut CPU)
    requires
        can_serve(*old(cpu)),
    ensures
        *final(cpu) == interrupts_handled(*old(cpu)),
        final(cpu).bus.wf(),
        final(cpu).pending_cycles == old(cpu).pending_cycles,
{
    if int_check(cpu, 0x40, Interrupts::VBLANK) {
    } else if int_check(cpu, 0x48, Interrupts::LCDSTART) {
    } else if int_check(cpu, 0x50, Interrupts::TIMER) {
    } else if int_check(cpu, 0x58, Interrupts::SERIAL) {
    } else if int_check(cpu, 0x60, Interrupts::JOYPAD) {
    }
}

/// Serving interrupts: where some interrupt is requested and enabled and the stack has
/// room, the one of highest priority is served: PC is at its vector, the interrupted PC is
/// the word on top of the stack, IME is cleared, the CPU is not halted, and its request
/// bit is cleared while the other request bits stay.
pub proof fn law_interrupt_dispatch(cpu: CPU)
    requires
        cpu.bus.interrupt_controller.first_pending().is_some(),
        stack_room(cpu),
    ensures
        ({
            let it = cpu.bus.interrupt_controller.first_pending().unwrap();
            let c = interrupts_handled(cpu);
            let ic = c.bus.interrupt_controller;
            &&& c.pc == it.vector()
            &&& word(c.read((c.sp + 1) as u16), c.read(c.sp)) == cpu.pc
            &&& c.sp == cpu.sp - 2
            &&& !ic.master_enabled
            &&& !c.is_halted
            &&& ic.int_flags & it.mask() == 0
            &&& forall|other: Interrupts| other != it ==> (ic.int_flags & other.mask())
                == (cpu.bus.interrupt_controller.int_flags & other.mask())
        }),
{
    let it = cpu.bus.interrupt_controller.first_pending().unwrap();
    law_push_then_pop(cpu, cpu.pc, false);
    let a = (cpu.sp - 1) as u16;
    let b = (cpu.sp - 2) as u16;
    let p1 = pushed(cpu, crate::hdw::registers::hi_byte(cpu.pc), false);
    lemma_ic_kept(cpu.bus, a, crate::hdw::registers::hi_byte(cpu.pc));
    law_write_read_back(cpu.bus, a, b, crate::hdw::registers::hi_byte(cpu.pc));
    lemma_ic_kept(p1.bus, b, crate::hdw::registers::lo_byte(cpu.pc));
    let p = pushed16(cpu, cpu.pc, false);
    assert(p.bus.interrupt_controller == cpu.bus.interrupt_controller);
    let c = interrupts_handled(cpu);
    assert(c == served(cpu, it, it.vector()));
    crate::hdw::bus::lemma_read_ignores_interrupts(p.bus, c.bus.interrupt_controller, a);
    crate::hdw::bus::lemma_read_ignores_interrupts(p.bus, c.bus.interrupt_controller, b);
    assert(c.bus == (crate::hdw::bus::BUS { interrupt_controller: c.bus.interrupt_controller, ..p.bus }));
    assert(c.read(c.sp) == p.read(p.sp));
    assert(c.read((c.sp + 1) as u16) == p.read((p.sp + 1) as u16));
    let f = cpu.bus.interrupt_controller.int_flags;
    let m = it.mask();
    assert(m == 1 || m == 2 || m == 4 || m == 8 || m == 16);
    assert forall|other: Interrupts| other != it implies (f & !m) & other.mask() == f & other.mask() by {
        let o = other.mask();
        assert(o != m);
        assert((m == 1 || m == 2 || m == 4 || m == 8 || m == 16) && (o == 1 || o == 2 || o == 4 || o == 8
            || o == 16) && o != m ==> (f & !m) & o == f & o) by (bit_vector);
    }
    assert((f & !m) & m == 0) by (bit_vector);
}

/// A write below 0xFF00 or to high RAM leaves the interrupt controller as it was.
proof fn lemma_ic_kept(bus: crate::hdw::bus::BUS, address: u16, value: u8)
    requires
        address < 0xFF00 || (0xFF80 <= address < 0xFFFF),
    ensures
        bus.written(address, value).interrupt_controller == bus.interrupt_controller,
{
    reveal(crate::hdw::bus::BUS::written);
}

} // verus!
