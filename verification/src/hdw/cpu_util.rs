use vstd::prelude::*;
use crate::hdw::cpu::CPU;
use crate::hdw::instructions::{AddN16Target, HLTarget, JumpTest, OPTarget};
use crate::hdw::registers::{FlagsRegister, add_u16, wrap16};

verus! {

pub proof fn lemma_low_nibble(x: u8)
    ensures
        x & 0x0F == x % 16,
        x & 0xF == x % 16,
{
    assert(x & 0x0F == x % 16) by (bit_vector);
}

/// Value of a register pair, or of SP.
pub fn match_n16(cpu: &CPU, target: AddN16Target) -> (r: u16)
    ensures
        r == (match target {
            AddN16Target::BC => cpu.registers.bc(),
            AddN16Target::DE => cpu.registers.de(),
            AddN16Target::HL => cpu.registers.hl(),
            AddN16Target::SP => cpu.sp,
        }),
{
    match target {
        AddN16Target::BC => cpu.registers.get_bc(),
        AddN16Target::DE => cpu.registers.get_de(),
        AddN16Target::HL => cpu.registers.get_hl(),
        AddN16Target::SP => cpu.sp,
    }
}

/// Whether a jump condition holds.
pub fn match_jump(cpu: &CPU, test: JumpTest) -> (r: bool)
    requires
        test != JumpTest::HL,
    ensures
        r == cpu.condition(test),
{
    match test {
        JumpTest::NotZero => !cpu.registers.f.zero,
        JumpTest::NotCarry => !cpu.registers.f.carry,
        JumpTest::Zero => cpu.registers.f.zero,
        JumpTest::Carry => cpu.registers.f.carry,
        JumpTest::Always => true,
        JumpTest::HL => false,
    }
}

/// Value of an 8-bit operand (a register, or the byte at HL).
pub fn match_hl(cpu: &CPU, target: HLTarget) -> (r: u8)
    requires
        target == HLTarget::HL ==> cpu.bus.wf(),
    ensures
        r == cpu.hl_target_value(target),
{
    match target {
        HLTarget::A => cpu.registers.a,
        HLTarget::B => cpu.registers.b,
        HLTarget::C => cpu.registers.c,
        HLTarget::D => cpu.registers.d,
        HLTarget::E => cpu.registers.e,
        HLTarget::H => cpu.registers.h,
        HLTarget::L => cpu.registers.l,
        HLTarget::HL => cpu.bus.read_byte(cpu.registers.get_hl()),
    }
}

/// The address after a three-byte jump: the immediate word when `jump`, else PC + 3.
pub fn jump(cpu: &CPU, do_jump: bool) -> (r: u16)
    requires
        cpu.bus.wf(),
        cpu.pc < 0xFFFE,
    ensures
        r == (if do_jump { cpu.imm16() } else { wrap16(cpu.pc + 3) }),
{
    if do_jump {
        read_imm16(cpu)
    } else {
        add_u16(cpu.pc, 3)
    }
}

/// The byte after the opcode.
pub fn read_imm8(cpu: &CPU) -> (r: u8)
    requires
        cpu.bus.wf(),
        cpu.pc < 0xFFFF,
    ensures
        r == cpu.imm8(),
{
    cpu.bus.read_byte(cpu.pc + 1)
}

/// The little-endian word after the opcode.
pub fn read_imm16(cpu: &CPU) -> (r: u16)
    requires
        cpu.bus.wf(),
        cpu.pc < 0xFFFE,
    ensures
        r == cpu.imm16(),
{
    let least_significant = cpu.bus.read_byte(cpu.pc + 1);
    let most_significant = cpu.bus.read_byte(cpu.pc + 2);
    crate::hdw::registers::make_word(most_significant, least_significant)
}

/// Flags after INC: Z if the result is 0, N clear, H if the low nibble of the result is 0.
pub fn set_flags_after_inc(cpu: &mut CPU, result: u8)
    ensures
        *final(cpu) == old(cpu).with_flags(FlagsRegister {
            zero: result == 0,
            subtract: false,
            half_carry: result % 16 == 0,
            ..old(cpu).registers.f
        }),
{
    proof {
        lemma_low_nibble(result);
    }
    cpu.registers.f.zero = result == 0;
    cpu.registers.f.subtract = false;
    cpu.registers.f.half_carry = (result & 0x0F) == 0;
}

/// Flags after DEC: Z if the result is 0, N set, H if the low nibble of the operand was 0.
pub fn set_flags_after_dec(cpu: &mut CPU, result: u8, original_value: u8)
    ensures
        *final(cpu) == old(cpu).with_flags(FlagsRegister {
            zero: result == 0,
            subtract: true,
            half_carry: original_value % 16 == 0,
            ..old(cpu).registers.f
        }),
{
    proof {
        lemma_low_nibble(original_value);
    }
    cpu.registers.f.zero = result == 0;
    cpu.registers.f.subtract = true;
    cpu.registers.f.half_carry = (original_value & 0x0F) == 0x00;
}

/// Flags after ADC: Z if the result is 0, N clear, H if the low nibbles of the two
/// operands and the carry-in sum past 15, C if the full sum passes 255.
pub fn set_flags_after_adc(cpu: &mut CPU, result: u8, original_value: u8, immediate_operand: u8, carry_in: u8)
    requires
        carry_in <= 1,
    ensures
        *final(cpu) == old(cpu).with_flags(FlagsRegister {
            zero: result == 0,
            subtract: false,
            half_carry: original_value % 16 + immediate_operand % 16 + carry_in > 15,
            carry: original_value + immediate_operand + carry_in > 255,
        }),
{
    proof {
        lemma_low_nibble(original_value);
        lemma_low_nibble(immediate_operand);
    }
    cpu.registers.f.zero = result == 0;
    cpu.registers.f.subtract = false;
    cpu.registers.f.half_carry = ((original_value & 0x0F) + (immediate_operand & 0x0F) + carry_in) > 0x0F;
    cpu.registers.f.carry = (original_value as u16) + (immediate_operand as u16) + (carry_in as u16) > 0xFF;
}

/// Flags after SUB/SBC: Z if the result is 0, N set, H if the low nibble borrows
/// (operand nibble plus carry-in above that of A), C if the operand plus carry-in exceeds
/// the value of A.
pub fn set_flags_after_sub(cpu: &mut CPU, result: u8, original_value: u8, immediate_operand: u8, carry_in: u8)
    requires
        carry_in <= 1,
    ensures
        *final(cpu) == old(cpu).with_flags(FlagsRegister {
            zero: result == 0,
            subtract: true,
            half_carry: original_value % 16 < immediate_operand % 16 + carry_in,
            carry: original_value < immediate_operand + carry_in,
        }),
{
    proof {
        lemma_low_nibble(original_value);
        lemma_low_nibble(immediate_operand);
    }
    cpu.registers.f.zero = result == 0;
    cpu.registers.f.subtract = true;
    cpu.registers.f.half_carry = (original_value & 0xF) < (immediate_operand & 0xF) + carry_in;
    cpu.registers.f.carry = (original_value as u16) < (immediate_operand as u16) + (carry_in as u16);
}

/// Flags after AND: Z if the result is 0, N clear, H set, C clear.
pub fn set_flags_after_and(cpu: &mut CPU, result: u8)
    ensures
        *final(cpu) == old(cpu).with_flags(
            FlagsRegister { zero: result == 0, subtract: false, half_carry: true, carry: false },
        ),
{
    cpu.registers.f.zero = result == 0;
    cpu.registers.f.subtract = false;
    cpu.registers.f.half_carry = true;
    cpu.registers.f.carry = false;
}

/// Flags after XOR/OR: Z if the result is 0, the others clear.
pub fn set_flags_after_xor_or(cpu: &mut CPU, result: u8)
    ensures
        *final(cpu) == old(cpu).with_flags(
            FlagsRegister { zero: result == 0, subtract: false, half_carry: false, carry: false },
        ),
{
    cpu.registers.f.zero = result == 0;
    cpu.registers.f.subtract = false;
    cpu.registers.f.half_carry = false;
    cpu.registers.f.carry = false;
}

/// Flags after CP a,b: Z if a == b, N set, H if the low nibble borrows, C if a < b.
pub fn set_flags_after_cp(cpu: &mut CPU, a: u8, b: u8)
    ensures
        *final(cpu) == old(cpu).with_flags(
            FlagsRegister { zero: a == b, subtract: true, half_carry: a % 16 < b % 16, carry: a < b },
        ),
{
    proof {
        lemma_low_nibble(a);
        lemma_low_nibble(b);
    }
    let result = a.wrapping_sub(b);
    cpu.registers.f.zero = result == 0;
    cpu.registers.f.subtract = true;
    cpu.registers.f.half_carry = (a & 0xF) < (b & 0xF);
    cpu.registers.f.carry = a < b;
}

/// Flags after BIT: Z if the tested bits of the operand are clear, N clear, H set.
pub fn set_flags_after_bit(cpu: &mut CPU, bit: u8, target_register: u8)
    ensures
        *final(cpu) == old(cpu).with_flags(FlagsRegister {
            zero: target_register & bit == 0,
            subtract: false,
            half_carry: true,
            ..old(cpu).registers.f
        }),
{
    cpu.registers.f.zero = (target_register & bit) == 0;
    cpu.registers.f.subtract = false;
    cpu.registers.f.half_carry = true;
}

/// Flags after a CB-prefixed rotate or shift: Z if the result is 0, N and H clear,
/// C from the bit shifted out.
pub fn set_flags_after_pref_op(cpu: &mut CPU, carry_bit: u8, result: u8)
    ensures
        *final(cpu) == old(cpu).with_flags(FlagsRegister {
            zero: result == 0,
            subtract: false,
            half_carry: false,
            carry: carry_bit != 0,
        }),
{
    cpu.registers.f = FlagsRegister {
        zero: result == 0,
        subtract: false,
        half_carry: false,
        carry: carry_bit != 0,
    };
}

/// Flags after RLCA, RRCA, RLA, RRA: all clear but C, which takes the bit shifted out.
pub fn set_flags_after_no_pre_rl_rr(cpu: &mut CPU, carry_bit: u8)
    ensures
        *final(cpu) == old(cpu).with_flags(FlagsRegister {
            zero: false,
            subtract: false,
            half_carry: false,
            carry: carry_bit != 0,
        }),
{
    cpu.registers.f = FlagsRegister {
        zero: false,
        subtract: false,
        half_carry: false,
        carry: carry_bit != 0,
    };
}


/// Replaces an 8-bit operand: a register, or the byte at HL through the bus.
pub fn set_hl_target(cpu: &mut CPU, target: HLTarget, value: u8)
    requires
        target == HLTarget::HL ==> old(cpu).bus.wf(),
    ensures
        *final(cpu) == old(cpu).with_hl_target(target, value),
        old(cpu).bus.wf() ==> final(cpu).bus.wf(),
{
    match target {
        HLTarget::A => cpu.registers.a = value,
        HLTarget::B => cpu.registers.b = value,
        HLTarget::C => cpu.registers.c = value,
        HLTarget::D => cpu.registers.d = value,
        HLTarget::E => cpu.registers.e = value,
        HLTarget::H => cpu.registers.h = value,
        HLTarget::L => cpu.registers.l = value,
        HLTarget::HL => {
            let address = cpu.registers.get_hl();
            cpu.bus.write_byte(address, value);
        },
    }
}

/// Value of an ALU operand (a register, the byte at HL, or the immediate byte).
pub fn match_op(cpu: &CPU, target: OPTarget) -> (r: u8)
    requires
        (target == OPTarget::HL || target == OPTarget::D8) ==> cpu.bus.wf(),
        target == OPTarget::D8 ==> cpu.pc < 0xFFFF,
    ensures
        r == cpu.op_operand(target),
{
    match target {
        OPTarget::A => cpu.registers.a,
        OPTarget::B => cpu.registers.b,
        OPTarget::C => cpu.registers.c,
        OPTarget::D => cpu.registers.d,
        OPTarget::E => cpu.registers.e,
        OPTarget::H => cpu.registers.h,
        OPTarget::L => cpu.registers.l,
        OPTarget::HL => cpu.bus.read_byte(cpu.registers.get_hl()),
        OPTarget::D8 => read_imm8(cpu),
    }
}

/// The signed value of a byte taken as two's complement.
pub open spec fn sext(b: u8) -> int {
    if b < 128 {
        b as int
    } else {
        b - 256
    }
}

/// `base` plus the signed byte `b`, modulo 65536.
pub fn add_signed_byte(base: u16, b: u8) -> (r: u16)
    ensures
        r == wrap16(base + sext(b)),
{
    if b < 128 {
        base.wrapping_add(b as u16)
    } else {
        base.wrapping_sub(256 - b as u16)
    }
}

/// Flags after ADD SP,e and LD HL,SP+e: Z and N clear, H and C from the unsigned
/// addition of the low byte of SP and the operand byte.
pub open spec fn sp_add_flags(sp: u16, b: u8) -> FlagsRegister {
    FlagsRegister {
        zero: false,
        subtract: false,
        half_carry: sp % 16 + b % 16 > 15,
        carry: sp % 256 + b > 255,
    }
}

pub fn compute_sp_add_flags(sp: u16, b: u8) -> (r: FlagsRegister)
    ensures
        r == sp_add_flags(sp, b),
{
    assert((sp & 0x0F) == sp % 16) by (bit_vector);
    assert((sp & 0xFF) == sp % 256) by (bit_vector);
    proof {
        lemma_low_nibble(b);
    }
    FlagsRegister {
        zero: false,
        subtract: false,
        half_carry: (sp & 0x0F) + (b & 0x0F) as u16 > 0x0F,
        carry: (sp & 0xFF) + b as u16 > 0xFF,
    }
}

} // verus!
