use vstd::prelude::*;
use crate::hdw::bus::BUS;
use crate::hdw::instructions::{HLTarget, Instruction, JumpTest, OPTarget};
use crate::hdw::interrupts::{InterruptController, Interrupts};
use crate::hdw::registers::{FlagsRegister, Registers, word};

verus! {

/// The CPU: registers, program counter, stack pointer and the bus it drives.
pub struct CPU {
    pub registers: Registers,
    pub pc: u16,
    pub sp: u16,
    pub bus: BUS,
    pub curr_opcode: u8,
    pub curr_instruction: Option<Instruction>,
    pub is_halted: bool,
    pub is_stepping: bool,
    /// Machine cycles spent by stack accesses of the current instruction, not yet
    /// applied to the timer and PPU.
    pub pending_cycles: u16,
}

/// Bound on `pending_cycles` below which an instruction may run.
pub open spec fn pending_limit() -> int {
    0x8000
}

impl CPU {
    /// A CPU whose bus can serve reads and that has room for the cycle count of one more
    /// instruction.
    pub open spec fn ready(self) -> bool {
        &&& self.bus.wf()
        &&& self.pending_cycles < pending_limit()
    }

    pub open spec fn hl(self) -> u16 {
        self.registers.hl()
    }

    pub open spec fn read(self, address: u16) -> u8 {
        self.bus.read_spec(address)
    }

    /// The byte after the opcode.
    pub open spec fn imm8(self) -> u8 {
        self.read((self.pc + 1) as u16)
    }

    /// The little-endian word after the opcode.
    pub open spec fn imm16(self) -> u16 {
        word(self.read((self.pc + 2) as u16), self.read((self.pc + 1) as u16))
    }

    pub open spec fn with_registers(self, r: Registers) -> CPU {
        CPU { registers: r, ..self }
    }

    pub open spec fn with_flags(self, f: FlagsRegister) -> CPU {
        CPU { registers: Registers { f, ..self.registers }, ..self }
    }

    pub open spec fn with_a(self, a: u8) -> CPU {
        CPU { registers: Registers { a, ..self.registers }, ..self }
    }

    pub open spec fn written(self, address: u16, value: u8) -> CPU {
        CPU { bus: self.bus.written(address, value), ..self }
    }

    /// Value of an 8-bit operand.
    pub open spec fn hl_target_value(self, t: HLTarget) -> u8 {
        match t {
            HLTarget::A => self.registers.a,
            HLTarget::B => self.registers.b,
            HLTarget::C => self.registers.c,
            HLTarget::D => self.registers.d,
            HLTarget::E => self.registers.e,
            HLTarget::H => self.registers.h,
            HLTarget::L => self.registers.l,
            HLTarget::HL => self.read(self.hl()),
        }
    }

    /// The CPU with an 8-bit operand replaced (for (HL), a bus write).
    pub open spec fn with_hl_target(self, t: HLTarget, v: u8) -> CPU {
        let r = self.registers;
        match t {
            HLTarget::A => self.with_registers(Registers { a: v, ..r }),
            HLTarget::B => self.with_registers(Registers { b: v, ..r }),
            HLTarget::C => self.with_registers(Registers { c: v, ..r }),
            HLTarget::D => self.with_registers(Registers { d: v, ..r }),
            HLTarget::E => self.with_registers(Registers { e: v, ..r }),
            HLTarget::H => self.with_registers(Registers { h: v, ..r }),
            HLTarget::L => self.with_registers(Registers { l: v, ..r }),
            HLTarget::HL => self.written(self.hl(), v),
        }
    }

    /// Value of an ALU operand.
    pub open spec fn op_operand(self, t: OPTarget) -> u8 {
        match t {
            OPTarget::A => self.registers.a,
            OPTarget::B => self.registers.b,
            OPTarget::C => self.registers.c,
            OPTarget::D => self.registers.d,
            OPTarget::E => self.registers.e,
            OPTarget::H => self.registers.h,
            OPTarget::L => self.registers.l,
            OPTarget::HL => self.read(self.hl()),
            OPTarget::D8 => self.imm8(),
        }
    }

    /// Length in bytes of an ALU instruction with this operand.
    pub open spec fn op_length(t: OPTarget) -> u16 {
        if t == OPTarget::D8 {
            2
        } else {
            1
        }
    }

    /// Whether the condition holds under the current flags (`HL` is not a condition).
    pub open spec fn condition(self, test: JumpTest) -> bool {
        let f = self.registers.f;
        match test {
            JumpTest::NotZero => !f.zero,
            JumpTest::Zero => f.zero,
            JumpTest::NotCarry => !f.carry,
            JumpTest::Carry => f.carry,
            JumpTest::Always => true,
            JumpTest::HL => false,
        }
    }

    /// Power-on state after the boot ROM: AF=0x01B0, BC=0x0013, DE=0x00D8, HL=0x014D,
    /// PC=0x0100, SP=0xFFFE; the timer's internal counter starts at 0xABCC.
    pub fn new(new_bus: BUS) -> (r: Self)
        ensures
            r.registers == (Registers {
                a: 0x01,
                b: 0x00,
                c: 0x13,
                d: 0x00,
                e: 0xD8,
                f: FlagsRegister { zero: true, subtract: false, half_carry: true, carry: true },
                h: 0x01,
                l: 0x4D,
            }),
            r.pc == 0x0100,
            r.sp == 0xFFFE,
            r.bus == (BUS { timer: crate::hdw::timer::Timer { div: 0xABCC, ..new_bus.timer }, ..new_bus }),
            r.curr_opcode == 0,
            r.curr_instruction.is_none(),
            !r.is_halted,
            r.is_stepping,
            r.pending_cycles == 0,
    {
        let mut bus = new_bus;
        bus.timer.div = 0xABCC;
        CPU {
            registers: Registers {
                a: 0x01,
                b: 0x00,
                c: 0x13,
                d: 0x00,
                e: 0xD8,
                f: FlagsRegister { zero: true, subtract: false, half_carry: true, carry: true },
                h: 0x01,
                l: 0x4D,
            },
            pc: 0x0100,
            sp: 0xFFFE,
            bus,
            curr_opcode: 0,
            curr_instruction: None,
            is_halted: false,
            is_stepping: true,
            pending_cycles: 0,
        }
    }

    pub fn get_ie_register(&self) -> (r: u8)
        ensures
            r == self.bus.interrupt_controller.ie_register,
    {
        self.bus.interrupt_controller.get_ie_register()
    }

    pub fn set_ie_register(&mut self, value: u8)
        ensures
            *final(self) == (CPU {
                bus: BUS {
                    interrupt_controller: InterruptController {
                        ie_register: value,
                        ..old(self).bus.interrupt_controller
                    },
                    ..old(self).bus
                },
                ..*old(self)
            }),
    {
        self.bus.interrupt_controller.set_ie_register(value);
    }

    /// Raises the flag of `interrupt` in IF.
    pub fn cpu_request_interrupt(&mut self, interrupt: Interrupts)
        ensures
            *final(self) == (CPU {
                bus: BUS {
                    interrupt_controller: InterruptController {
                        int_flags: old(self).bus.interrupt_controller.int_flags | interrupt.mask(),
                        ..old(self).bus.interrupt_controller
                    },
                    ..old(self).bus
                },
                ..*old(self)
            }),
    {
        self.bus.interrupt_controller.request_interrupt(interrupt);
    }
}

} // verus!
