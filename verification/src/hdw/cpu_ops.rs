use vstd::prelude::*;
use crate::hdw::cpu::CPU;
use crate::hdw::cpu_util::{
    add_signed_byte, compute_sp_add_flags, lemma_low_nibble, match_hl, match_n16, match_op,
    read_imm8, set_flags_after_adc, set_flags_after_and, set_flags_after_cp,
    set_flags_after_no_pre_rl_rr, set_flags_after_pref_op, set_flags_after_sub,
    set_flags_after_xor_or, set_hl_target, sext, sp_add_flags,
};
use crate::hdw::cpu::pending_limit;
use crate::hdw::cpu_util::{jump, match_jump, read_imm16, set_flags_after_bit, set_flags_after_dec, set_flags_after_inc};
use crate::hdw::instructions::{
    AddN16Target, AllRegisters, ByteTarget, HLTarget, JumpTest, LoadA16Target, LoadA8Target,
    LoadACTarget, LoadN16, LoadType, LoadWordSource, LoadWordTarget, OPTarget, OPType, RestTarget,
    StackTarget,
};
use crate::hdw::interrupts::InterruptController;
use crate::hdw::bus::BUS;
use crate::hdw::registers::{FlagsRegister, Registers, add3_u8, lemma_flags_byte_roundtrip, lemma_word_bytes, add_u16, hi_byte, lo_byte, sub3_u8, sub_u16, word, wrap16, wrap8};
use crate::hdw::stack::{law_push_then_pop, popped, pushed16, stack_pop, stack_push16, stack_room};

verus! {

pub open spec fn carry_in(f: FlagsRegister) -> u8 {
    if f.carry {
        1
    } else {
        0
    }
}

/// Flags of a CB-prefixed rotate or shift with `result` and the bit `out` shifted out.
pub open spec fn shift_flags(result: u8, out: u8) -> FlagsRegister {
    FlagsRegister { zero: result == 0, subtract: false, half_carry: false, carry: out != 0 }
}

/// The CPU after a CB-prefixed rotate/shift wrote `result` to `target`.
pub open spec fn after_shift(cpu: CPU, target: HLTarget, result: u8, out: u8) -> CPU {
    cpu.with_hl_target(target, result).with_flags(shift_flags(result, out))
}

/// SRL: shifts the operand right; bit 0 goes to C, bit 7 becomes 0.
pub fn op_srl(cpu: &mut CPU, target: HLTarget) -> (r: u16)
    requires
        target == HLTarget::HL ==> old(cpu).bus.wf(),
    ensures
        ({
            let v = old(cpu).hl_target_value(target);
            *final(cpu) == after_shift(*old(cpu), target, v >> 1, v & 1)
        }),
        old(cpu).bus.wf() ==> final(cpu).bus.wf(),
        r == wrap16(old(cpu).pc + 2),
{
    let reg_target = match_hl(cpu, target);
    let lsb = reg_target & 0x1;
    let result = reg_target >> 1;
    set_hl_target(cpu, target, result);
    set_flags_after_pref_op(cpu, lsb, result);
    add_u16(cpu.pc, 2)
}

/// SWAP: exchanges the nibbles of the operand; C is cleared.
pub fn op_swap(cpu: &mut CPU, target: HLTarget) -> (r: u16)
    requires
        target == HLTarget::HL ==> old(cpu).bus.wf(),
    ensures
        ({
            let v = old(cpu).hl_target_value(target);
            *final(cpu) == after_shift(*old(cpu), target, (v << 4) | (v >> 4), 0)
        }),
        old(cpu).bus.wf() ==> final(cpu).bus.wf(),
        r == wrap16(old(cpu).pc + 2),
{
    let reg_target = match_hl(cpu, target);
    let result = (reg_target << 4) | (reg_target >> 4);
    set_hl_target(cpu, target, result);
    set_flags_after_pref_op(cpu, 0, result);
    add_u16(cpu.pc, 2)
}

/// SRA: shifts the operand right keeping bit 7; bit 0 goes to C.
pub fn op_sra(cpu: &mut CPU, target: HLTarget) -> (r: u16)
    requires
        target == HLTarget::HL ==> old(cpu).bus.wf(),
    ensures
        ({
            let v = old(cpu).hl_target_value(target);
            *final(cpu) == after_shift(*old(cpu), target, (v >> 1) | (v & 0x80), v & 1)
        }),
        old(cpu).bus.wf() ==> final(cpu).bus.wf(),
        r == wrap16(old(cpu).pc + 2),
{
    let reg_target = match_hl(cpu, target);
    let lsb = reg_target & 0x1;
    let sign_bit = (reg_target & 0x80) != 0;
    let mut result = reg_target >> 1;
    if sign_bit {
        result = result | 0x80;
    }
    assert(((reg_target & 0x80) != 0 ==> (reg_target >> 1) | 0x80 == (reg_target >> 1) | (reg_target
        & 0x80)) && ((reg_target & 0x80) == 0 ==> (reg_target >> 1) == (reg_target >> 1) | (
    reg_target & 0x80))) by (bit_vector);
    set_hl_target(cpu, target, result);
    set_flags_after_pref_op(cpu, lsb, result);
    add_u16(cpu.pc, 2)
}

/// SLA: shifts the operand left; bit 7 goes to C, bit 0 becomes 0.
pub fn op_sla(cpu: &mut CPU, target: HLTarget) -> (r: u16)
    requires
        target == HLTarget::HL ==> old(cpu).bus.wf(),
    ensures
        ({
            let v = old(cpu).hl_target_value(target);
            *final(cpu) == after_shift(*old(cpu), target, v << 1, (v >> 7) & 1)
        }),
        old(cpu).bus.wf() ==> final(cpu).bus.wf(),
        r == wrap16(old(cpu).pc + 2),
{
    let reg_target = match_hl(cpu, target);
    let bit_7 = (reg_target >> 7) & 0x1;
    let result = reg_target << 1;
    set_hl_target(cpu, target, result);
    set_flags_after_pref_op(cpu, bit_7, result);
    add_u16(cpu.pc, 2)
}

/// RLC: rotates the operand left; bit 7 goes to bit 0 and to C.
pub fn op_rlc(cpu: &mut CPU, target: HLTarget) -> (r: u16)
    requires
        target == HLTarget::HL ==> old(cpu).bus.wf(),
    ensures
        ({
            let v = old(cpu).hl_target_value(target);
            *final(cpu) == after_shift(*old(cpu), target, (v << 1) | ((v >> 7) & 1), (v >> 7) & 1)
        }),
        old(cpu).bus.wf() ==> final(cpu).bus.wf(),
        r == wrap16(old(cpu).pc + 2),
{
    let reg_target = match_hl(cpu, target);
    let bit_7 = (reg_target >> 7) & 0x1;
    let result = (reg_target << 1) | bit_7;
    set_hl_target(cpu, target, result);
    set_flags_after_pref_op(cpu, bit_7, result);
    add_u16(cpu.pc, 2)
}

/// RRC: rotates the operand right; bit 0 goes to bit 7 and to C.
pub fn op_rrc(cpu: &mut CPU, target: HLTarget) -> (r: u16)
    requires
        target == HLTarget::HL ==> old(cpu).bus.wf(),
    ensures
        ({
            let v = old(cpu).hl_target_value(target);
            *final(cpu) == after_shift(*old(cpu), target, (v >> 1) | ((v & 1) << 7), v & 1)
        }),
        old(cpu).bus.wf() ==> final(cpu).bus.wf(),
        r == wrap16(old(cpu).pc + 2),
{
    let reg_target = match_hl(cpu, target);
    let bit_0 = reg_target & 0x1;
    let result = (reg_target >> 1) | (bit_0 << 7);
    set_hl_target(cpu, target, result);
    set_flags_after_pref_op(cpu, bit_0, result);
    add_u16(cpu.pc, 2)
}

/// RL: rotates the operand left through C.
pub fn op_rl(cpu: &mut CPU, target: HLTarget) -> (r: u16)
    requires
        target == HLTarget::HL ==> old(cpu).bus.wf(),
    ensures
        ({
            let v = old(cpu).hl_target_value(target);
            let c = carry_in(old(cpu).registers.f);
            *final(cpu) == after_shift(*old(cpu), target, (v << 1) | c, (v >> 7) & 1)
        }),
        old(cpu).bus.wf() ==> final(cpu).bus.wf(),
        r == wrap16(old(cpu).pc + 2),
{
    let reg_target = match_hl(cpu, target);
    let prev_carry: u8 = if cpu.registers.f.carry {
        1
    } else {
        0
    };
    let bit_7 = (reg_target >> 7) & 0x1;
    let result = (reg_target << 1) | prev_carry;
    set_hl_target(cpu, target, result);
    set_flags_after_pref_op(cpu, bit_7, result);
    add_u16(cpu.pc, 2)
}

/// RR: rotates the operand right through C.
pub fn op_rr(cpu: &mut CPU, target: HLTarget) -> (r: u16)
    requires
        target == HLTarget::HL ==> old(cpu).bus.wf(),
    ensures
        ({
            let v = old(cpu).hl_target_value(target);
            let c = carry_in(old(cpu).registers.f);
            *final(cpu) == after_shift(*old(cpu), target, (v >> 1) | (c << 7), v & 1)
        }),
        old(cpu).bus.wf() ==> final(cpu).bus.wf(),
        r == wrap16(old(cpu).pc + 2),
{
    let reg_target = match_hl(cpu, target);
    let prev_carry: u8 = if cpu.registers.f.carry {
        1
    } else {
        0
    };
    let bit_0 = reg_target & 0x1;
    let result = (reg_target >> 1) | (prev_carry << 7);
    set_hl_target(cpu, target, result);
    set_flags_after_pref_op(cpu, bit_0, result);
    add_u16(cpu.pc, 2)
}

/// CPL: complements A; N and H are set.
pub fn op_cpl(cpu: &mut CPU) -> (r: u16)
    ensures
        *final(cpu) == old(cpu).with_a(!old(cpu).registers.a).with_flags(FlagsRegister {
            subtract: true,
            half_carry: true,
            ..old(cpu).registers.f
        }),
        r == wrap16(old(cpu).pc + 1),
{
    cpu.registers.a = !cpu.registers.a;
    cpu.registers.f.subtract = true;
    cpu.registers.f.half_carry = true;
    add_u16(cpu.pc, 1)
}

/// The correction that DAA adds to (or, after a subtraction, subtracts from) A.
pub open spec fn daa_adjustment(a: u8, f: FlagsRegister) -> u8 {
    if !f.subtract {
        ((if f.half_carry || a % 16 > 9 { 0x06int } else { 0 }) + (if f.carry || a > 0x99 {
            0x60int
        } else {
            0
        })) as u8
    } else {
        ((if f.half_carry { 0x06int } else { 0 }) + (if f.carry { 0x60int } else { 0 })) as u8
    }
}

/// Whether DAA leaves C set.
pub open spec fn daa_carry(a: u8, f: FlagsRegister) -> bool {
    f.carry || (!f.subtract && a > 0x99)
}

/// The number that a packed-BCD byte holds.
pub open spec fn bcd_value(x: u8) -> int {
    (x / 16) * 10 + x % 16
}

/// Whether both digits of a byte are decimal.
pub open spec fn is_bcd(x: u8) -> bool {
    x / 16 <= 9 && x % 16 <= 9
}

/// DAA after ADD of two packed-BCD bytes gives their decimal sum: A holds the last two
/// digits in packed BCD, and C is set exactly when the sum reaches 100.
#[verifier::spinoff_prover]
#[verifier::rlimit(50)]
pub proof fn law_daa_after_add(a: u8, b: u8)
    requires
        is_bcd(a),
        is_bcd(b),
    ensures
        ({
            let s = wrap8(a + b);
            let f = add8_flags(a, b);
            let r = wrap8(s + daa_adjustment(s, f));
            let sum = bcd_value(a) + bcd_value(b);
            &&& is_bcd(r)
            &&& bcd_value(r) == sum % 100
            &&& daa_carry(s, f) == (sum >= 100)
        }),
{
    let al = a % 16;
    let ah = a / 16;
    let bl = b % 16;
    let bh = b / 16;
    let lo = al + bl;
    let hi = ah + bh;
    assert(a + b == 16 * hi + lo);
    assert(bcd_value(a) + bcd_value(b) == 10 * hi + lo);
    let case = if lo <= 9 { 0int } else if lo <= 15 { 1int } else { 2int };
    lemma_daa_digits(hi, lo, case);
    lemma_decimal_digits(hi, lo);
    let s = wrap8(a + b);
    assert(s == ((16 * hi + lo) % 256) as u8);
    assert(add8_flags(a, b) == FlagsRegister {
        zero: s == 0,
        subtract: false,
        half_carry: lo > 15,
        carry: 16 * hi + lo > 255,
    });
}

/// The last two decimal digits of `10 * hi + lo` and whether it reaches 100.
proof fn lemma_decimal_digits(hi: int, lo: int)
    requires
        0 <= hi <= 18,
        0 <= lo <= 18,
    ensures
        ({
            let t = hi + if lo >= 10 { 1int } else { 0 };
            let d0 = if lo >= 10 { lo - 10 } else { lo };
            &&& (10 * hi + lo) % 100 == 10 * (t % 10) + d0
            &&& (10 * hi + lo >= 100) == (t >= 10)
        }),
{
}

/// DAA after SUB of two packed-BCD bytes gives their decimal difference: A holds it modulo
/// 100 in packed BCD, and C is set exactly when the subtrahend is the larger.
#[verifier::spinoff_prover]
#[verifier::rlimit(50)]
pub proof fn law_daa_after_sub(a: u8, b: u8)
    requires
        is_bcd(a),
        is_bcd(b),
    ensures
        ({
            let s = wrap8(a - b);
            let f = sub_flags(s, a, b, 0);
            let r = wrap8(s - daa_adjustment(s, f));
            let diff = bcd_value(a) - bcd_value(b);
            &&& is_bcd(r)
            &&& bcd_value(r) == diff % 100
            &&& daa_carry(s, f) == (diff < 0)
        }),
{
    let al = a % 16;
    let ah = a / 16;
    let bl = b % 16;
    let bh = b / 16;
    assert(a - b == 16 * (ah - bh) + (al - bl));
    assert(bcd_value(a) - bcd_value(b) == 10 * (ah - bh) + (al - bl));
    lemma_daa_sub_digits(ah - bh, al - bl);
}

/// DAA on a raw binary difference `16 * hi + lo` of two BCD bytes.
#[verifier::spinoff_prover]
#[verifier::rlimit(50)]
proof fn lemma_daa_sub_digits(hi: int, lo: int)
    requires
        -9 <= hi <= 9,
        -9 <= lo <= 9,
    ensures
        ({
            let raw = 16 * hi + lo;
            let s = wrap8(raw);
            let f = FlagsRegister { zero: s == 0, subtract: true, half_carry: lo < 0, carry: raw < 0 };
            let r = wrap8(s - daa_adjustment(s, f));
            let diff = 10 * hi + lo;
            &&& r / 16 <= 9 && r % 16 <= 9
            &&& (r / 16) * 10 + r % 16 == diff % 100
            &&& daa_carry(s, f) == (diff < 0)
        }),
{
    let raw = 16 * hi + lo;
    let t = hi - if lo < 0 { 1int } else { 0 };
    let d0 = if lo < 0 { lo + 10 } else { lo };
    assert(10 * hi + lo == 10 * t + d0);
    if lo < 0 {
        if t < 0 {
            assert(wrap8(raw) == raw + 256);
        } else {
            assert(wrap8(raw) == raw);
        }
    } else {
        if t < 0 {
            assert(wrap8(raw) == raw + 256);
        } else {
            assert(wrap8(raw) == raw);
        }
    }
}

/// DAA on a raw binary sum `16 * hi + lo` of two BCD bytes, by the range of the low digit
/// sum (`case` 0: lo <= 9, 1: 10 <= lo <= 15, 2: lo >= 16).
#[verifier::spinoff_prover]
#[verifier::rlimit(50)]
proof fn lemma_daa_digits(hi: int, lo: int, case: int)
    requires
        0 <= hi <= 18,
        0 <= lo <= 18,
        case == 0 ==> lo <= 9,
        case == 1 ==> 10 <= lo <= 15,
        case == 2 ==> lo >= 16,
        0 <= case <= 2,
    ensures
        ({
            let raw = 16 * hi + lo;
            let s = (raw % 256) as u8;
            let f = FlagsRegister { zero: s == 0, subtract: false, half_carry: lo > 15, carry: raw > 255 };
            let r = wrap8(s + daa_adjustment(s, f));
            let t = hi + if lo >= 10 { 1int } else { 0 };
            let d0 = if lo >= 10 { lo - 10 } else { lo };
            &&& r / 16 == t % 10
            &&& r % 16 == d0
            &&& daa_carry(s, f) == (t >= 10)
        }),
{
    let raw = 16 * hi + lo;
    if case == 2 {
        assert(raw % 16 == lo - 16);
    } else {
        assert(raw % 16 == lo);
    }
}

/// DAA: turns A into packed BCD after an addition or subtraction of BCD values.
pub fn op_daa(cpu: &mut CPU) -> (r: u16)
    ensures
        ({
            let a = old(cpu).registers.a;
            let f = old(cpu).registers.f;
            let adj = daa_adjustment(a, f);
            let res = if !f.subtract { wrap8(a + adj) } else { wrap8(a - adj) };
            *final(cpu) == old(cpu).with_a(res).with_flags(FlagsRegister {
                zero: res == 0,
                subtract: f.subtract,
                half_carry: false,
                carry: daa_carry(a, f),
            })
        }),
        r == wrap16(old(cpu).pc + 1),
{
    let a = cpu.registers.a;
    proof {
        lemma_low_nibble(a);
    }
    let mut adjustment: u8 = 0;
    let mut carry = false;
    if !cpu.registers.f.subtract {
        if cpu.registers.f.half_carry || a & 0x0F > 9 {
            adjustment = adjustment + 0x06;
        }
        if cpu.registers.f.carry || a > 0x99 {
            adjustment = adjustment + 0x60;
            carry = true;
        }
        cpu.registers.a = a.wrapping_add(adjustment);
    } else {
        if cpu.registers.f.half_carry {
            adjustment = adjustment + 0x06;
        }
        if cpu.registers.f.carry {
            adjustment = adjustment + 0x60;
            carry = true;
        }
        cpu.registers.a = a.wrapping_sub(adjustment);
    }
    cpu.registers.f.zero = cpu.registers.a == 0;
    cpu.registers.f.half_carry = false;
    cpu.registers.f.carry = carry;
    add_u16(cpu.pc, 1)
}

/// RRA: rotates A right through C; Z, N, H cleared.
pub fn op_rra(cpu: &mut CPU) -> (r: u16)
    ensures
        ({
            let a = old(cpu).registers.a;
            *final(cpu) == old(cpu).with_a((a >> 1) | (carry_in(old(cpu).registers.f) << 7)).with_flags(
                shift_flags(1, a & 1).with_zero(false),
            )
        }),
        r == wrap16(old(cpu).pc + 1),
{
    let bit_0 = cpu.registers.a & 1;
    let c: u8 = if cpu.registers.f.carry {
        1
    } else {
        0
    };
    cpu.registers.a = (cpu.registers.a >> 1) | (c << 7);
    set_flags_after_no_pre_rl_rr(cpu, bit_0);
    add_u16(cpu.pc, 1)
}

/// RLA: rotates A left through C; Z, N, H cleared.
pub fn op_rla(cpu: &mut CPU) -> (r: u16)
    ensures
        ({
            let a = old(cpu).registers.a;
            *final(cpu) == old(cpu).with_a((a << 1) | carry_in(old(cpu).registers.f)).with_flags(
                shift_flags(1, (a & 0x80) >> 7).with_zero(false),
            )
        }),
        r == wrap16(old(cpu).pc + 1),
{
    let bit_7 = (cpu.registers.a & 0x80) >> 7;
    let c: u8 = if cpu.registers.f.carry {
        1
    } else {
        0
    };
    cpu.registers.a = (cpu.registers.a << 1) | c;
    set_flags_after_no_pre_rl_rr(cpu, bit_7);
    add_u16(cpu.pc, 1)
}

/// RRCA: rotates A right; bit 0 goes to bit 7 and to C; Z, N, H cleared.
pub fn op_rrca(cpu: &mut CPU) -> (r: u16)
    ensures
        ({
            let a = old(cpu).registers.a;
            *final(cpu) == old(cpu).with_a((a >> 1) | ((a & 1) << 7)).with_flags(
                shift_flags(1, a & 1).with_zero(false),
            )
        }),
        r == wrap16(old(cpu).pc + 1),
{
    let bit_0 = cpu.registers.a & 1;
    cpu.registers.a = (cpu.registers.a >> 1) | (bit_0 << 7);
    set_flags_after_no_pre_rl_rr(cpu, bit_0);
    add_u16(cpu.pc, 1)
}

/// RLCA: rotates A left; bit 7 goes to bit 0 and to C; Z, N, H cleared.
pub fn op_rlca(cpu: &mut CPU) -> (r: u16)
    ensures
        ({
            let a = old(cpu).registers.a;
            *final(cpu) == old(cpu).with_a((a << 1) | ((a >> 7) & 1)).with_flags(
                shift_flags(1, (a >> 7) & 1).with_zero(false),
            )
        }),
        r == wrap16(old(cpu).pc + 1),
{
    let bit_7 = (cpu.registers.a >> 7) & 1;
    cpu.registers.a = (cpu.registers.a << 1) | bit_7;
    set_flags_after_no_pre_rl_rr(cpu, bit_7);
    add_u16(cpu.pc, 1)
}


/// Address of the instruction after an ALU instruction with this operand.
pub open spec fn alu_next(cpu: CPU, target: OPTarget) -> u16 {
    wrap16(cpu.pc + CPU::op_length(target))
}

/// CP: compares A with the operand (A - operand), setting flags only.
pub fn op_cp(cpu: &mut CPU, target: OPTarget) -> (r: u16)
    requires
        op_target_uses_bus(target) ==> old(cpu).bus.wf(),
        target == OPTarget::D8 ==> old(cpu).pc < 0xFFFF,
    ensures
        ({
            let a = old(cpu).registers.a;
            let v = old(cpu).op_operand(target);
            *final(cpu) == old(cpu).with_flags(
                FlagsRegister { zero: a == v, subtract: true, half_carry: a % 16 < v % 16, carry: a < v },
            )
        }),
        r == alu_next(*old(cpu), target),
{
    let v = match_op(cpu, target);
    let a = cpu.registers.a;
    set_flags_after_cp(cpu, a, v);
    if target == OPTarget::D8 {
        add_u16(cpu.pc, 2)
    } else {
        add_u16(cpu.pc, 1)
    }
}

/// OR: A = A | operand; Z from the result, N, H, C cleared.
pub fn op_or(cpu: &mut CPU, target: OPTarget) -> (r: u16)
    requires
        op_target_uses_bus(target) ==> old(cpu).bus.wf(),
        target == OPTarget::D8 ==> old(cpu).pc < 0xFFFF,
    ensures
        ({
            let res = old(cpu).registers.a | old(cpu).op_operand(target);
            *final(cpu) == old(cpu).with_a(res).with_flags(
                FlagsRegister { zero: res == 0, subtract: false, half_carry: false, carry: false },
            )
        }),
        r == alu_next(*old(cpu), target),
{
    let v = match_op(cpu, target);
    cpu.registers.a = cpu.registers.a | v;
    let res = cpu.registers.a;
    set_flags_after_xor_or(cpu, res);
    if target == OPTarget::D8 {
        add_u16(cpu.pc, 2)
    } else {
        add_u16(cpu.pc, 1)
    }
}

/// XOR: A = A ^ operand; Z from the result, N, H, C cleared.
pub fn op_xor(cpu: &mut CPU, target: OPTarget) -> (r: u16)
    requires
        op_target_uses_bus(target) ==> old(cpu).bus.wf(),
        target == OPTarget::D8 ==> old(cpu).pc < 0xFFFF,
    ensures
        ({
            let res = old(cpu).registers.a ^ old(cpu).op_operand(target);
            *final(cpu) == old(cpu).with_a(res).with_flags(
                FlagsRegister { zero: res == 0, subtract: false, half_carry: false, carry: false },
            )
        }),
        r == alu_next(*old(cpu), target),
{
    let v = match_op(cpu, target);
    cpu.registers.a = cpu.registers.a ^ v;
    let res = cpu.registers.a;
    set_flags_after_xor_or(cpu, res);
    if target == OPTarget::D8 {
        add_u16(cpu.pc, 2)
    } else {
        add_u16(cpu.pc, 1)
    }
}

/// AND: A = A & operand; Z from the result, N cleared, H set, C cleared.
pub fn op_and(cpu: &mut CPU, target: OPTarget) -> (r: u16)
    requires
        op_target_uses_bus(target) ==> old(cpu).bus.wf(),
        target == OPTarget::D8 ==> old(cpu).pc < 0xFFFF,
    ensures
        ({
            let res = old(cpu).registers.a & old(cpu).op_operand(target);
            *final(cpu) == old(cpu).with_a(res).with_flags(
                FlagsRegister { zero: res == 0, subtract: false, half_carry: true, carry: false },
            )
        }),
        r == alu_next(*old(cpu), target),
{
    let v = match_op(cpu, target);
    cpu.registers.a = cpu.registers.a & v;
    let res = cpu.registers.a;
    set_flags_after_and(cpu, res);
    if target == OPTarget::D8 {
        add_u16(cpu.pc, 2)
    } else {
        add_u16(cpu.pc, 1)
    }
}

/// Flags that SUB and SBC set: Z from the result, N set, H when the low nibble of A is
/// below that of the operand plus the carry-in `c`, C when A is below the operand plus `c`.
pub open spec fn sub_flags(res: u8, a: u8, v: u8, c: u8) -> FlagsRegister {
    FlagsRegister { zero: res == 0, subtract: true, half_carry: a % 16 < v % 16 + c, carry: a < v + c }
}

/// Whether an ALU operand is read through the bus: (HL) or the immediate byte.
pub open spec fn op_target_uses_bus(t: OPTarget) -> bool {
    t == OPTarget::HL || t == OPTarget::D8
}

/// SBC: A = A - operand - C (modulo 256).
#[verifier::spinoff_prover]
#[verifier::rlimit(30)]
pub fn op_sbc(cpu: &mut CPU, target: OPTarget) -> (r: u16)
    requires
        op_target_uses_bus(target) ==> old(cpu).bus.wf(),
        target == OPTarget::D8 ==> old(cpu).pc < 0xFFFF,
    ensures
        ({
            let a = old(cpu).registers.a;
            let v = old(cpu).op_operand(target);
            let c = carry_in(old(cpu).registers.f);
            let res = wrap8(a - v - c);
            *final(cpu) == old(cpu).with_a(res).with_flags(sub_flags(res, a, v, c))
        }),
        r == alu_next(*old(cpu), target),
{
    let original_value = cpu.registers.a;
    let v = match_op(cpu, target);
    let c: u8 = if cpu.registers.f.carry {
        1
    } else {
        0
    };
    cpu.registers.a = sub3_u8(original_value, v, c);
    let res = cpu.registers.a;
    set_flags_after_sub(cpu, res, original_value, v, c);
    if target == OPTarget::D8 {
        add_u16(cpu.pc, 2)
    } else {
        add_u16(cpu.pc, 1)
    }
}

/// SUB: A = A - operand (modulo 256).
pub fn op_sub(cpu: &mut CPU, target: OPTarget) -> (r: u16)
    requires
        op_target_uses_bus(target) ==> old(cpu).bus.wf(),
        target == OPTarget::D8 ==> old(cpu).pc < 0xFFFF,
    ensures
        ({
            let a = old(cpu).registers.a;
            let v = old(cpu).op_operand(target);
            let res = wrap8(a - v);
            *final(cpu) == old(cpu).with_a(res).with_flags(sub_flags(res, a, v, 0))
        }),
        r == alu_next(*old(cpu), target),
{
    let original_value = cpu.registers.a;
    let v = match_op(cpu, target);
    cpu.registers.a = sub3_u8(original_value, v, 0);
    let res = cpu.registers.a;
    set_flags_after_sub(cpu, res, original_value, v, 0);
    if target == OPTarget::D8 {
        add_u16(cpu.pc, 2)
    } else {
        add_u16(cpu.pc, 1)
    }
}

/// Flags that ADC sets: Z from the result, N cleared, H when the low nibbles of A and the
/// operand and the carry-in `c` sum past 15, C when A, the operand and `c` sum past 255.
pub open spec fn adc_flags(res: u8, a: u8, v: u8, c: u8) -> FlagsRegister {
    FlagsRegister {
        zero: res == 0,
        subtract: false,
        half_carry: a % 16 + v % 16 + c > 15,
        carry: a + v + c > 255,
    }
}

/// ADC: A = A + operand + C (modulo 256).
#[verifier::spinoff_prover]
#[verifier::rlimit(30)]
pub fn op_adc(cpu: &mut CPU, target: OPTarget) -> (r: u16)
    requires
        op_target_uses_bus(target) ==> old(cpu).bus.wf(),
        target == OPTarget::D8 ==> old(cpu).pc < 0xFFFF,
    ensures
        ({
            let a = old(cpu).registers.a;
            let v = old(cpu).op_operand(target);
            let c = carry_in(old(cpu).registers.f);
            let res = wrap8(a + v + c);
            *final(cpu) == old(cpu).with_a(res).with_flags(adc_flags(res, a, v, c))
        }),
        r == alu_next(*old(cpu), target),
{
    let original_value = cpu.registers.a;
    let v = match_op(cpu, target);
    let c: u8 = if cpu.registers.f.carry {
        1
    } else {
        0
    };
    cpu.registers.a = add3_u8(original_value, v, c);
    let res = cpu.registers.a;
    set_flags_after_adc(cpu, res, original_value, v, c);
    if target == OPTarget::D8 {
        add_u16(cpu.pc, 2)
    } else {
        add_u16(cpu.pc, 1)
    }
}

/// Flags of an 8-bit ADD: Z from the result, N cleared, H and C from the carries out of
/// bit 3 and bit 7.
pub open spec fn add8_flags(a: u8, v: u8) -> FlagsRegister {
    FlagsRegister {
        zero: wrap8(a + v) == 0,
        subtract: false,
        half_carry: a % 16 + v % 16 > 15,
        carry: a + v > 255,
    }
}

/// The pair value that ADD HL,rr adds.
pub open spec fn n16_value(cpu: CPU, t: AddN16Target) -> u16 {
    match t {
        AddN16Target::BC => cpu.registers.bc(),
        AddN16Target::DE => cpu.registers.de(),
        AddN16Target::HL => cpu.registers.hl(),
        AddN16Target::SP => cpu.sp,
    }
}

/// The CPU after ADD HL,rr with `v` the value of rr.
pub open spec fn after_add_hl(cpu: CPU, v: u16) -> CPU {
    let hl = cpu.registers.hl();
    let res = wrap16(hl + v);
    CPU {
        registers: Registers {
            h: hi_byte(res),
            l: lo_byte(res),
            f: FlagsRegister {
                subtract: false,
                half_carry: hl % 4096 + v % 4096 > 4095,
                carry: hl + v > 0xFFFF,
                ..cpu.registers.f
            },
            ..cpu.registers
        },
        ..cpu
    }
}

/// The CPU after ADD SP,e with `b` the operand byte.
pub open spec fn after_add_sp(cpu: CPU, b: u8) -> CPU {
    CPU { sp: wrap16(cpu.sp + sext(b)), ..cpu.with_flags(sp_add_flags(cpu.sp, b)) }
}

/// The CPU after ADD A,v.
pub open spec fn after_add_a(cpu: CPU, v: u8) -> CPU {
    cpu.with_a(wrap8(cpu.registers.a + v)).with_flags(add8_flags(cpu.registers.a, v))
}

/// Whether an ADD form reads through the bus: A + (HL), A + immediate, SP + immediate.
pub open spec fn op_type_uses_bus(t: OPType) -> bool {
    match t {
        OPType::LoadA(s) => s == HLTarget::HL,
        OPType::LoadHL(_) => false,
        _ => true,
    }
}

/// ADD in its four forms: A + r/(HL), HL + rr, SP + signed byte, A + immediate byte.
#[verifier::spinoff_prover]
#[verifier::rlimit(30)]
pub fn op_add(cpu: &mut CPU, target: OPType) -> (r: u16)
    requires
        op_type_uses_bus(target) ==> old(cpu).bus.wf(),
        (target == OPType::LoadSP || target == OPType::LoadD8) ==> old(cpu).pc < 0xFFFF,
    ensures
        match target {
            OPType::LoadA(t) => *final(cpu) == after_add_a(*old(cpu), old(cpu).hl_target_value(t))
                && r == wrap16(old(cpu).pc + 1),
            OPType::LoadD8 => *final(cpu) == after_add_a(*old(cpu), old(cpu).imm8()) && r == wrap16(
                old(cpu).pc + 2,
            ),
            OPType::LoadHL(t) => *final(cpu) == after_add_hl(*old(cpu), n16_value(*old(cpu), t))
                && r == wrap16(old(cpu).pc + 1),
            OPType::LoadSP => *final(cpu) == after_add_sp(*old(cpu), old(cpu).imm8()) && r == wrap16(
                old(cpu).pc + 2,
            ),
        },
{
    match target {
        OPType::LoadA(t) => {
            let v = match_hl(cpu, t);
            add_to_a(cpu, v);
            add_u16(cpu.pc, 1)
        },
        OPType::LoadHL(t) => {
            let v = match_n16(cpu, t);
            add_to_hl(cpu, v);
            add_u16(cpu.pc, 1)
        },
        OPType::LoadSP => {
            let b = read_imm8(cpu);
            add_to_sp(cpu, b);
            add_u16(cpu.pc, 2)
        },
        OPType::LoadD8 => {
            let v = read_imm8(cpu);
            add_to_a(cpu, v);
            add_u16(cpu.pc, 2)
        },
    }
}

fn add_to_a(cpu: &mut CPU, v: u8)
    ensures
        *final(cpu) == after_add_a(*old(cpu), v),
{
    let original = cpu.registers.a;
    cpu.registers.a = add3_u8(original, v, 0);
    set_flags_after_add_a(cpu, v, original);
}

fn add_to_hl(cpu: &mut CPU, v: u16)
    ensures
        *final(cpu) == after_add_hl(*old(cpu), v),
{
    let hl = cpu.registers.get_hl();
    let res = add_u16(hl, v);
    let f = add16_flags(cpu.registers.f, hl, v);
    let (hi, lo) = crate::hdw::registers::split_word(res);
    cpu.registers.h = hi;
    cpu.registers.l = lo;
    cpu.registers.f = f;
}

/// Flags after ADD HL,rr: Z kept, N cleared, H and C from the carries out of bit 11 and 15.
fn add16_flags(f: FlagsRegister, original: u16, operand: u16) -> (r: FlagsRegister)
    ensures
        r == (FlagsRegister {
            subtract: false,
            half_carry: original % 4096 + operand % 4096 > 4095,
            carry: original + operand > 0xFFFF,
            ..f
        }),
{
    assert((original & 0x0FFF) == original % 4096) by (bit_vector);
    assert((operand & 0x0FFF) == operand % 4096) by (bit_vector);
    FlagsRegister {
        subtract: false,
        half_carry: (original & 0x0FFF) + (operand & 0x0FFF) > 0x0FFF,
        carry: (original as u32) + (operand as u32) > 0xFFFF,
        ..f
    }
}

fn add_to_sp(cpu: &mut CPU, b: u8)
    ensures
        *final(cpu) == after_add_sp(*old(cpu), b),
{
    let sp = cpu.sp;
    cpu.sp = add_signed_byte(sp, b);
    cpu.registers.f = compute_sp_add_flags(sp, b);
}

/// Flags after an 8-bit ADD of `operand` to `original`.
pub fn set_flags_after_add_a(cpu: &mut CPU, operand: u8, original: u8)
    ensures
        *final(cpu) == old(cpu).with_flags(add8_flags(original, operand)),
{
    proof {
        lemma_low_nibble(original);
        lemma_low_nibble(operand);
    }
    cpu.registers.f.zero = original.wrapping_add(operand) == 0;
    cpu.registers.f.subtract = false;
    cpu.registers.f.half_carry = (original & 0x0F) + (operand & 0x0F) > 0x0F;
    cpu.registers.f.carry = (original as u16) + (operand as u16) > 0xFF;
}


/// The 8-bit operand that INC/DEC name, for the 8-bit targets.
pub open spec fn eight_bit_target(t: AllRegisters) -> HLTarget {
    match t {
        AllRegisters::A => HLTarget::A,
        AllRegisters::B => HLTarget::B,
        AllRegisters::C => HLTarget::C,
        AllRegisters::D => HLTarget::D,
        AllRegisters::E => HLTarget::E,
        AllRegisters::H => HLTarget::H,
        AllRegisters::L => HLTarget::L,
        _ => HLTarget::HL,
    }
}

pub open spec fn is_16bit(t: AllRegisters) -> bool {
    t == AllRegisters::BC || t == AllRegisters::DE || t == AllRegisters::HL || t == AllRegisters::SP
}

/// The CPU with a 16-bit register (BC, DE, HL or SP) set to `v`.
pub open spec fn with_16bit(cpu: CPU, t: AllRegisters, v: u16) -> CPU {
    let r = cpu.registers;
    match t {
        AllRegisters::BC => cpu.with_registers(Registers { b: hi_byte(v), c: lo_byte(v), ..r }),
        AllRegisters::DE => cpu.with_registers(Registers { d: hi_byte(v), e: lo_byte(v), ..r }),
        AllRegisters::HL => cpu.with_registers(Registers { h: hi_byte(v), l: lo_byte(v), ..r }),
        _ => CPU { sp: v, ..cpu },
    }
}

pub open spec fn value_16bit(cpu: CPU, t: AllRegisters) -> u16 {
    match t {
        AllRegisters::BC => cpu.registers.bc(),
        AllRegisters::DE => cpu.registers.de(),
        AllRegisters::HL => cpu.registers.hl(),
        _ => cpu.sp,
    }
}

/// The CPU after INC of `t`: 16-bit targets wrap and keep the flags; 8-bit targets set
/// Z, clear N, set H when the low nibble of the result is 0, and keep C.
pub open spec fn after_inc(cpu: CPU, t: AllRegisters) -> CPU {
    if is_16bit(t) {
        with_16bit(cpu, t, wrap16(value_16bit(cpu, t) + 1))
    } else {
        let t8 = eight_bit_target(t);
        let res = wrap8(cpu.hl_target_value(t8) + 1);
        cpu.with_hl_target(t8, res).with_flags(
            FlagsRegister { zero: res == 0, subtract: false, half_carry: res % 16 == 0, ..cpu.registers.f },
        )
    }
}

/// The CPU after DEC of `t`: 16-bit targets wrap and keep the flags; 8-bit targets set
/// Z, set N, set H when the low nibble of the operand was 0, and keep C.
pub open spec fn after_dec(cpu: CPU, t: AllRegisters) -> CPU {
    if is_16bit(t) {
        with_16bit(cpu, t, wrap16(value_16bit(cpu, t) - 1))
    } else {
        let t8 = eight_bit_target(t);
        let v = cpu.hl_target_value(t8);
        let res = wrap8(v - 1);
        cpu.with_hl_target(t8, res).with_flags(
            FlagsRegister { zero: res == 0, subtract: true, half_carry: v % 16 == 0, ..cpu.registers.f },
        )
    }
}

fn set_16bit(cpu: &mut CPU, t: AllRegisters, v: u16)
    requires
        is_16bit(t),
    ensures
        *final(cpu) == with_16bit(*old(cpu), t, v),
{
    match t {
        AllRegisters::BC => cpu.registers.set_bc(v),
        AllRegisters::DE => cpu.registers.set_de(v),
        AllRegisters::HL => cpu.registers.set_hl(v),
        _ => cpu.sp = v,
    }
}

fn get_16bit(cpu: &CPU, t: AllRegisters) -> (r: u16)
    requires
        is_16bit(t),
    ensures
        r == value_16bit(*cpu, t),
{
    match t {
        AllRegisters::BC => cpu.registers.get_bc(),
        AllRegisters::DE => cpu.registers.get_de(),
        AllRegisters::HL => cpu.registers.get_hl(),
        _ => cpu.sp,
    }
}

fn to_eight_bit(t: AllRegisters) -> (r: HLTarget)
    ensures
        r == eight_bit_target(t),
{
    match t {
        AllRegisters::A => HLTarget::A,
        AllRegisters::B => HLTarget::B,
        AllRegisters::C => HLTarget::C,
        AllRegisters::D => HLTarget::D,
        AllRegisters::E => HLTarget::E,
        AllRegisters::H => HLTarget::H,
        AllRegisters::L => HLTarget::L,
        _ => HLTarget::HL,
    }
}

/// DEC of a register, of the byte at HL, or of a register pair.
#[verifier::spinoff_prover]
#[verifier::rlimit(30)]
pub fn op_dec(cpu: &mut CPU, target: AllRegisters) -> (r: u16)
    requires
        target == AllRegisters::HLMEM ==> old(cpu).bus.wf(),
    ensures
        *final(cpu) == after_dec(*old(cpu), target),
        old(cpu).bus.wf() ==> final(cpu).bus.wf(),
        r == wrap16(old(cpu).pc + 1),
{
    if target == AllRegisters::BC || target == AllRegisters::DE || target == AllRegisters::HL
        || target == AllRegisters::SP {
        let v = get_16bit(cpu, target);
        set_16bit(cpu, target, sub_u16(v, 1));
    } else {
        let t8 = to_eight_bit(target);
        let original_value = match_hl(cpu, t8);
        let value = sub3_u8(original_value, 1, 0);
        set_hl_target(cpu, t8, value);
        set_flags_after_dec(cpu, value, original_value);
    }
    add_u16(cpu.pc, 1)
}

/// INC of a register, of the byte at HL, or of a register pair.
#[verifier::spinoff_prover]
#[verifier::rlimit(30)]
pub fn op_inc(cpu: &mut CPU, target: AllRegisters) -> (r: u16)
    requires
        target == AllRegisters::HLMEM ==> old(cpu).bus.wf(),
    ensures
        *final(cpu) == after_inc(*old(cpu), target),
        old(cpu).bus.wf() ==> final(cpu).bus.wf(),
        r == wrap16(old(cpu).pc + 1),
{
    if target == AllRegisters::BC || target == AllRegisters::DE || target == AllRegisters::HL
        || target == AllRegisters::SP {
        let v = get_16bit(cpu, target);
        set_16bit(cpu, target, add_u16(v, 1));
    } else {
        let t8 = to_eight_bit(target);
        let original_value = match_hl(cpu, t8);
        let value = add3_u8(original_value, 1, 0);
        set_hl_target(cpu, t8, value);
        set_flags_after_inc(cpu, value);
    }
    add_u16(cpu.pc, 1)
}

/// Address register of LD (rr),A / LD A,(rr).
pub open spec fn n16_address(cpu: CPU, n: LoadN16) -> u16 {
    match n {
        LoadN16::BC => cpu.registers.bc(),
        LoadN16::DE => cpu.registers.de(),
        _ => cpu.registers.hl(),
    }
}

/// HL stepped after LD (HL-)/(HL+); other address registers are left alone.
pub open spec fn after_hl_step(cpu: CPU, n: LoadN16) -> CPU {
    let r = cpu.registers;
    match n {
        LoadN16::HLDEC => {
            let v = wrap16(r.hl() - 1);
            cpu.with_registers(Registers { h: hi_byte(v), l: lo_byte(v), ..r })
        },
        LoadN16::HLINC => {
            let v = wrap16(r.hl() + 1);
            cpu.with_registers(Registers { h: hi_byte(v), l: lo_byte(v), ..r })
        },
        _ => cpu,
    }
}

/// The CPU after a load.
pub open spec fn ld_effect(cpu: CPU, target: LoadType) -> CPU {
    let r = cpu.registers;
    match target {
        LoadType::RegInReg(d, s) => cpu.with_hl_target(d, cpu.hl_target_value(s)),
        LoadType::Word(t, s) => {
            let w = cpu.imm16();
            match t {
                LoadWordTarget::BC => cpu.with_registers(Registers { b: hi_byte(w), c: lo_byte(w), ..r }),
                LoadWordTarget::DE => cpu.with_registers(Registers { d: hi_byte(w), e: lo_byte(w), ..r }),
                LoadWordTarget::HL => if s == LoadWordSource::SPE8 {
                    let b = cpu.imm8();
                    let v = wrap16(cpu.sp + sext(b));
                    cpu.with_registers(Registers { h: hi_byte(v), l: lo_byte(v), f: sp_add_flags(cpu.sp, b), ..r })
                } else {
                    cpu.with_registers(Registers { h: hi_byte(w), l: lo_byte(w), ..r })
                },
                LoadWordTarget::N16 => cpu.written(w, lo_byte(cpu.sp)).written((w + 1) as u16, hi_byte(cpu.sp)),
                LoadWordTarget::SP => if s == LoadWordSource::HL {
                    CPU { sp: r.hl(), ..cpu }
                } else {
                    CPU { sp: w, ..cpu }
                },
            }
        },
        LoadType::AStoreInN16(n) => after_hl_step(cpu.written(n16_address(cpu, n), r.a), n),
        LoadType::N16StoreInA(n) => after_hl_step(cpu.with_a(cpu.read(n16_address(cpu, n))), n),
        LoadType::D8StoreInReg(t) => cpu.with_hl_target(t, cpu.imm8()),
        LoadType::AWithA8(t) => {
            let address = (0xFF00 + cpu.imm8()) as u16;
            if t == LoadA8Target::A {
                cpu.with_a(cpu.read(address))
            } else {
                cpu.written(address, r.a)
            }
        },
        LoadType::AWithA16(t) => if t == LoadA16Target::A {
            cpu.with_a(cpu.read(cpu.imm16()))
        } else {
            cpu.written(cpu.imm16(), r.a)
        },
        LoadType::AWithAC(t) => {
            let address = (0xFF00 + r.c) as u16;
            if t == LoadACTarget::A {
                cpu.with_a(cpu.read(address))
            } else {
                cpu.written(address, r.a)
            }
        },
    }
}

/// Length in bytes of a load instruction.
pub open spec fn ld_length(target: LoadType) -> u16 {
    match target {
        LoadType::RegInReg(_, _) => 1,
        LoadType::Word(t, s) => if s == LoadWordSource::SPE8 {
            2
        } else if s == LoadWordSource::HL {
            1
        } else {
            3
        },
        LoadType::AStoreInN16(_) => 1,
        LoadType::N16StoreInA(_) => 1,
        LoadType::D8StoreInReg(_) => 2,
        LoadType::AWithA8(_) => 2,
        LoadType::AWithA16(_) => 3,
        LoadType::AWithAC(_) => 1,
    }
}

/// What a load needs to run: a valid form, the operand bytes inside the address space,
/// and, for LD (nn),SP, room for the second byte.
pub open spec fn ld_ok(cpu: CPU, target: LoadType) -> bool {
    &&& target.is_valid()
    &&& match target {
        LoadType::Word(t, _) => cpu.pc < 0xFFFE && (t == LoadWordTarget::N16 ==> cpu.imm16() < 0xFFFF),
        LoadType::D8StoreInReg(_) => cpu.pc < 0xFFFF,
        LoadType::AWithA8(_) => cpu.pc < 0xFFFF,
        LoadType::AWithA16(_) => cpu.pc < 0xFFFE,
        _ => true,
    }
}

fn n16_addr(cpu: &CPU, n: LoadN16) -> (r: u16)
    ensures
        r == n16_address(*cpu, n),
{
    match n {
        LoadN16::BC => cpu.registers.get_bc(),
        LoadN16::DE => cpu.registers.get_de(),
        _ => cpu.registers.get_hl(),
    }
}

fn hl_step(cpu: &mut CPU, n: LoadN16)
    ensures
        *final(cpu) == after_hl_step(*old(cpu), n),
{
    match n {
        LoadN16::HLDEC => {
            let v = sub_u16(cpu.registers.get_hl(), 1);
            cpu.registers.set_hl(v);
        },
        LoadN16::HLINC => {
            let v = add_u16(cpu.registers.get_hl(), 1);
            cpu.registers.set_hl(v);
        },
        _ => {},
    }
}

#[verifier::spinoff_prover]
#[verifier::rlimit(30)]
fn ld_word(cpu: &mut CPU, t: LoadWordTarget, s: LoadWordSource) -> (r: u16)
    requires
        ld_uses_bus(LoadType::Word(t, s)) ==> old(cpu).bus.wf(),
        ld_ok(*old(cpu), LoadType::Word(t, s)),
    ensures
        *final(cpu) == ld_effect(*old(cpu), LoadType::Word(t, s)),
        old(cpu).bus.wf() ==> final(cpu).bus.wf(),
        r == wrap16(old(cpu).pc + ld_length(LoadType::Word(t, s))),
{
    if t == LoadWordTarget::SP && s == LoadWordSource::HL {
        cpu.sp = cpu.registers.get_hl();
        return add_u16(cpu.pc, 1);
    }
    let word_value = read_imm16(cpu);
    if t == LoadWordTarget::HL && s == LoadWordSource::SPE8 {
        ld_hl_sp_e8(cpu);
        add_u16(cpu.pc, 2)
    } else if t == LoadWordTarget::N16 {
        ld_a16_sp(cpu, word_value);
        add_u16(cpu.pc, 3)
    } else {
        match t {
            LoadWordTarget::BC => cpu.registers.set_bc(word_value),
            LoadWordTarget::DE => cpu.registers.set_de(word_value),
            LoadWordTarget::HL => cpu.registers.set_hl(word_value),
            _ => cpu.sp = word_value,
        }
        add_u16(cpu.pc, 3)
    }
}

fn ld_hl_sp_e8(cpu: &mut CPU)
    requires
        old(cpu).bus.wf(),
        old(cpu).pc < 0xFFFF,
    ensures
        *final(cpu) == ld_effect(*old(cpu), LoadType::Word(LoadWordTarget::HL, LoadWordSource::SPE8)),
{
    let b = read_imm8(cpu);
    let v = add_signed_byte(cpu.sp, b);
    let f = compute_sp_add_flags(cpu.sp, b);
    let (hi, lo) = crate::hdw::registers::split_word(v);
    cpu.registers.h = hi;
    cpu.registers.l = lo;
    cpu.registers.f = f;
}

fn ld_a16_sp(cpu: &mut CPU, word_value: u16)
    requires
        old(cpu).bus.wf(),
        word_value < 0xFFFF,
    ensures
        *final(cpu) == old(cpu).written(word_value, lo_byte(old(cpu).sp)).written(
            (word_value + 1) as u16,
            hi_byte(old(cpu).sp),
        ),
        final(cpu).bus.wf(),
{
    let (hi, lo) = crate::hdw::registers::split_word(cpu.sp);
    cpu.bus.write_byte(word_value, lo);
    cpu.bus.write_byte(word_value + 1, hi);
}

fn ld_a_with(cpu: &mut CPU, address: u16, load: bool)
    requires
        old(cpu).bus.wf(),
    ensures
        load ==> *final(cpu) == old(cpu).with_a(old(cpu).read(address)),
        !load ==> *final(cpu) == old(cpu).written(address, old(cpu).registers.a),
        final(cpu).bus.wf(),
{
    if load {
        cpu.registers.a = cpu.bus.read_byte(address);
    } else {
        let a = cpu.registers.a;
        cpu.bus.write_byte(address, a);
    }
}

/// Whether a load goes through the bus: every form but register-to-register copies and
/// LD SP,HL reads an operand byte or an address.
pub open spec fn ld_uses_bus(t: LoadType) -> bool {
    match t {
        LoadType::RegInReg(d, s) => d == HLTarget::HL || s == HLTarget::HL,
        LoadType::Word(w, s) => !(w == LoadWordTarget::SP && s == LoadWordSource::HL),
        _ => true,
    }
}

/// LD in all its forms; returns the address of the next instruction.
#[verifier::spinoff_prover]
#[verifier::rlimit(30)]
pub fn op_ld(cpu: &mut CPU, target: LoadType) -> (r: u16)
    requires
        ld_uses_bus(target) ==> old(cpu).bus.wf(),
        ld_ok(*old(cpu), target),
    ensures
        *final(cpu) == ld_effect(*old(cpu), target),
        old(cpu).bus.wf() ==> final(cpu).bus.wf(),
        r == wrap16(old(cpu).pc + ld_length(target)),
{
    match target {
        LoadType::RegInReg(d, s) => ld_simple(cpu, target),
        LoadType::Word(t, s) => ld_word(cpu, t, s),
        LoadType::AStoreInN16(n) => ld_indirect(cpu, target),
        LoadType::N16StoreInA(n) => ld_indirect(cpu, target),
        LoadType::D8StoreInReg(t) => ld_simple(cpu, target),
        LoadType::AWithA8(t) => ld_high(cpu, target),
        LoadType::AWithA16(t) => ld_high(cpu, target),
        LoadType::AWithAC(t) => ld_high(cpu, target),
    }
}

#[verifier::spinoff_prover]
#[verifier::rlimit(30)]
fn ld_simple(cpu: &mut CPU, target: LoadType) -> (r: u16)
    requires
        ld_uses_bus(target) ==> old(cpu).bus.wf(),
        ld_ok(*old(cpu), target),
        target matches LoadType::RegInReg(_, _) || target matches LoadType::D8StoreInReg(_),
    ensures
        *final(cpu) == ld_effect(*old(cpu), target),
        old(cpu).bus.wf() ==> final(cpu).bus.wf(),
        r == wrap16(old(cpu).pc + ld_length(target)),
{
    match target {
        LoadType::RegInReg(d, s) => {
            let v = match_hl(cpu, s);
            set_hl_target(cpu, d, v);
            add_u16(cpu.pc, 1)
        },
        LoadType::D8StoreInReg(t) => {
            let v = read_imm8(cpu);
            set_hl_target(cpu, t, v);
            add_u16(cpu.pc, 2)
        },
        _ => 0,
    }
}

#[verifier::spinoff_prover]
#[verifier::rlimit(30)]
fn ld_indirect(cpu: &mut CPU, target: LoadType) -> (r: u16)
    requires
        old(cpu).bus.wf(),
        target matches LoadType::AStoreInN16(_) || target matches LoadType::N16StoreInA(_),
    ensures
        *final(cpu) == ld_effect(*old(cpu), target),
        final(cpu).bus.wf(),
        r == wrap16(old(cpu).pc + ld_length(target)),
{
    match target {
        LoadType::AStoreInN16(n) => {
            let address = n16_addr(cpu, n);
            ld_a_with(cpu, address, false);
            hl_step(cpu, n);
        },
        LoadType::N16StoreInA(n) => {
            let address = n16_addr(cpu, n);
            ld_a_with(cpu, address, true);
            hl_step(cpu, n);
        },
        _ => {},
    }
    add_u16(cpu.pc, 1)
}

#[verifier::spinoff_prover]
#[verifier::rlimit(30)]
fn ld_high(cpu: &mut CPU, target: LoadType) -> (r: u16)
    requires
        old(cpu).bus.wf(),
        ld_ok(*old(cpu), target),
        target matches LoadType::AWithA8(_) || target matches LoadType::AWithA16(_)
            || target matches LoadType::AWithAC(_),
    ensures
        *final(cpu) == ld_effect(*old(cpu), target),
        final(cpu).bus.wf(),
        r == wrap16(old(cpu).pc + ld_length(target)),
{
    match target {
        LoadType::AWithA8(t) => {
            let address = 0xFF00 + read_imm8(cpu) as u16;
            ld_a_with(cpu, address, t == LoadA8Target::A);
            add_u16(cpu.pc, 2)
        },
        LoadType::AWithA16(t) => {
            let address = read_imm16(cpu);
            ld_a_with(cpu, address, t == LoadA16Target::A);
            add_u16(cpu.pc, 3)
        },
        LoadType::AWithAC(t) => {
            let address = 0xFF00 + cpu.registers.c as u16;
            ld_a_with(cpu, address, t == LoadACTarget::A);
            add_u16(cpu.pc, 1)
        },
        _ => 0,
    }
}


/// The CPU with its program counter at `pc`.
pub open spec fn with_pc(cpu: CPU, pc: u16) -> CPU {
    CPU { pc, ..cpu }
}

/// JP: to the immediate word when the condition holds (else past the instruction);
/// JP HL jumps to HL. A taken jump stores its target in PC; the next PC is returned.
pub fn op_jp(cpu: &mut CPU, target: JumpTest) -> (r: u16)
    requires
        target != JumpTest::HL ==> old(cpu).bus.wf(),
        target != JumpTest::HL ==> old(cpu).pc < 0xFFFE,
    ensures
        target == JumpTest::HL ==> r == old(cpu).hl(),
        target != JumpTest::HL ==> r == (if old(cpu).condition(target) {
            old(cpu).imm16()
        } else {
            wrap16(old(cpu).pc + 3)
        }),
        target == JumpTest::HL || old(cpu).condition(target) ==> *final(cpu) == with_pc(*old(cpu), r)
            && final(cpu).pc == r,
        target != JumpTest::HL && !old(cpu).condition(target) ==> *final(cpu) == *old(cpu),
{
    if target == JumpTest::HL {
        let a = cpu.registers.get_hl();
        cpu.pc = a;
        return a;
    }
    let do_jump = match_jump(cpu, target);
    let a = jump(cpu, do_jump);
    if do_jump {
        cpu.pc = a;
    }
    a
}

/// CALL: when the condition holds, pushes the address after the instruction and jumps
/// to the immediate word, storing it in PC; the next PC is returned.
pub fn op_call(cpu: &mut CPU, target: JumpTest) -> (r: u16)
    requires
        old(cpu).ready(),
        old(cpu).pending_cycles + 2 < pending_limit(),
        target != JumpTest::HL,
        old(cpu).pc < 0xFFFE,
        old(cpu).condition(target) ==> old(cpu).sp > 1,
    ensures
        old(cpu).condition(target) ==> *final(cpu) == with_pc(
            pushed16(*old(cpu), wrap16(old(cpu).pc + 3), true),
            old(cpu).imm16(),
        ) && r == old(cpu).imm16() && final(cpu).pc == r,
        !old(cpu).condition(target) ==> *final(cpu) == *old(cpu) && r == wrap16(old(cpu).pc + 3),
        final(cpu).bus.wf(),
{
    let do_jump = match_jump(cpu, target);
    let address = read_imm16(cpu);
    if do_jump {
        let ret = add_u16(cpu.pc, 3);
        stack_push16(cpu, ret, true);
        cpu.pc = address;
        address
    } else {
        add_u16(cpu.pc, 3)
    }
}

/// The mask 1 << n.
pub open spec fn bit_mask(n: u8) -> u8 {
    1u8 << n
}

/// BIT n: Z when bit n of the operand is clear; N cleared, H set, C kept.
pub fn op_bit(cpu: &mut CPU, target: ByteTarget) -> (r: u16)
    requires
        target.operand() == HLTarget::HL ==> old(cpu).bus.wf(),
    ensures
        *final(cpu) == old(cpu).with_flags(FlagsRegister {
            zero: old(cpu).hl_target_value(target.operand()) & bit_mask(target.index()) == 0,
            subtract: false,
            half_carry: true,
            ..old(cpu).registers.f
        }),
        r == wrap16(old(cpu).pc + 2),
{
    let (n, t) = target.parts();
    let v = match_hl(cpu, t);
    set_flags_after_bit(cpu, 1u8 << n, v);
    add_u16(cpu.pc, 2)
}

/// RES n: clears bit n of the operand.
pub fn op_res(cpu: &mut CPU, target: ByteTarget) -> (r: u16)
    requires
        target.operand() == HLTarget::HL ==> old(cpu).bus.wf(),
    ensures
        *final(cpu) == old(cpu).with_hl_target(
            target.operand(),
            old(cpu).hl_target_value(target.operand()) & !bit_mask(target.index()),
        ),
        old(cpu).bus.wf() ==> final(cpu).bus.wf(),
        r == wrap16(old(cpu).pc + 2),
{
    let (n, t) = target.parts();
    let v = match_hl(cpu, t);
    let mask: u8 = !(1u8 << n);
    set_hl_target(cpu, t, v & mask);
    add_u16(cpu.pc, 2)
}

/// SET n: sets bit n of the operand.
pub fn op_set(cpu: &mut CPU, target: ByteTarget) -> (r: u16)
    requires
        target.operand() == HLTarget::HL ==> old(cpu).bus.wf(),
    ensures
        *final(cpu) == old(cpu).with_hl_target(
            target.operand(),
            old(cpu).hl_target_value(target.operand()) | bit_mask(target.index()),
        ),
        old(cpu).bus.wf() ==> final(cpu).bus.wf(),
        r == wrap16(old(cpu).pc + 2),
{
    let (n, t) = target.parts();
    let v = match_hl(cpu, t);
    let mask: u8 = 1u8 << n;
    set_hl_target(cpu, t, v | mask);
    add_u16(cpu.pc, 2)
}

/// JR: when the condition holds, to PC + 2 plus the signed immediate byte;
/// otherwise past the instruction.
pub fn op_jr(cpu: &mut CPU, target: JumpTest) -> (r: u16)
    requires
        old(cpu).bus.wf(),
        old(cpu).pc < 0xFFFF,
        target != JumpTest::HL,
    ensures
        *final(cpu) == *old(cpu),
        r == (if old(cpu).condition(target) {
            wrap16(old(cpu).pc + 2 + sext(old(cpu).imm8()))
        } else {
            wrap16(old(cpu).pc + 2)
        }),
{
    let e = read_imm8(cpu);
    let do_jump = match_jump(cpu, target);
    let next = add_u16(cpu.pc, 2);
    if do_jump {
        add_signed_byte(next, e)
    } else {
        next
    }
}

/// The value of a PUSH/POP register pair.
pub open spec fn stack_pair(cpu: CPU, t: StackTarget) -> u16 {
    match t {
        StackTarget::AF => cpu.registers.af(),
        StackTarget::BC => cpu.registers.bc(),
        StackTarget::DE => cpu.registers.de(),
        StackTarget::HL => cpu.registers.hl(),
    }
}

/// Registers with a POP pair loaded from (hi, lo); for AF the low nibble of F stays 0.
pub open spec fn with_stack_pair(r: Registers, t: StackTarget, hi: u8, lo: u8) -> Registers {
    match t {
        StackTarget::AF => Registers { a: hi, f: FlagsRegister::of_byte(lo & 0xF0), ..r },
        StackTarget::BC => Registers { b: hi, c: lo, ..r },
        StackTarget::DE => Registers { d: hi, e: lo, ..r },
        StackTarget::HL => Registers { h: hi, l: lo, ..r },
    }
}

/// The CPU after POP of `target`.
pub open spec fn after_pop(cpu: CPU, target: StackTarget) -> CPU {
    let lo = cpu.read(cpu.sp);
    let hi = cpu.read((cpu.sp + 1) as u16);
    CPU { registers: with_stack_pair(cpu.registers, target, hi, lo), ..popped(popped(cpu)) }
}

/// POP of a register pair right after PUSH of the same pair restores every register and
/// SP; for AF the flags come back as they were, their byte having a zero low nibble.
pub proof fn law_pop_after_push(cpu: CPU, t: StackTarget, cycle: bool)
    requires
        stack_room(cpu),
    ensures
        after_pop(pushed16(cpu, stack_pair(cpu, t), cycle), t).registers == cpu.registers,
        after_pop(pushed16(cpu, stack_pair(cpu, t), cycle), t).sp == cpu.sp,
{
    let v = stack_pair(cpu, t);
    let p = pushed16(cpu, v, cycle);
    law_push_then_pop(cpu, v, cycle);
    let lo = p.read(p.sp);
    let hi = p.read((p.sp + 1) as u16);
    lemma_word_bytes(hi, lo);
    let r = cpu.registers;
    match t {
        StackTarget::AF => {
            lemma_word_bytes(r.a, r.f.byte());
            lemma_flags_byte_roundtrip(r.f);
            let fb = r.f.byte();
            assert(fb & 0x0F == 0 ==> fb & 0xF0 == fb) by (bit_vector);
        },
        StackTarget::BC => {
            lemma_word_bytes(r.b, r.c);
        },
        StackTarget::DE => {
            lemma_word_bytes(r.d, r.e);
        },
        StackTarget::HL => {
            lemma_word_bytes(r.h, r.l);
        },
    }
}

/// POP: loads a register pair from the stack (low byte first).
pub fn op_pop(cpu: &mut CPU, target: StackTarget) -> (r: u16)
    requires
        old(cpu).ready(),
        old(cpu).pending_cycles + 2 < pending_limit(),
        old(cpu).sp < 0xFFFE,
    ensures
        *final(cpu) == after_pop(*old(cpu), target),
        final(cpu).bus.wf(),
        r == wrap16(old(cpu).pc + 1),
{
    let low = stack_pop(cpu);
    let high = stack_pop(cpu);
    match target {
        StackTarget::AF => {
            let w = crate::hdw::registers::make_word(high, low & 0xF0);
            proof {
                crate::hdw::registers::lemma_word_bytes(high, low & 0xF0);
            }
            cpu.registers.set_af(w);
        },
        StackTarget::BC => {
            cpu.registers.b = high;
            cpu.registers.c = low;
        },
        StackTarget::DE => {
            cpu.registers.d = high;
            cpu.registers.e = low;
        },
        StackTarget::HL => {
            cpu.registers.h = high;
            cpu.registers.l = low;
        },
    }
    add_u16(cpu.pc, 1)
}

/// PUSH: stores a register pair on the stack (high byte first).
pub fn op_push(cpu: &mut CPU, target: StackTarget) -> (r: u16)
    requires
        old(cpu).ready(),
        old(cpu).pending_cycles + 2 < pending_limit(),
        old(cpu).sp > 1,
    ensures
        *final(cpu) == pushed16(*old(cpu), stack_pair(*old(cpu), target), true),
        final(cpu).bus.wf(),
        r == wrap16(old(cpu).pc + 1),
{
    let value = match target {
        StackTarget::AF => cpu.registers.get_af(),
        StackTarget::BC => cpu.registers.get_bc(),
        StackTarget::DE => cpu.registers.get_de(),
        StackTarget::HL => cpu.registers.get_hl(),
    };
    stack_push16(cpu, value, true);
    add_u16(cpu.pc, 1)
}

/// The return address that RET pops: the word at SP, low byte first.
pub open spec fn return_address(cpu: CPU) -> u16 {
    word(cpu.read((cpu.sp + 1) as u16), cpu.read(cpu.sp))
}

/// RET: when the condition holds, pops the return address (low byte first) and stores it
/// in PC; otherwise past the instruction. The next PC is returned.
pub fn op_ret(cpu: &mut CPU, target: JumpTest) -> (r: u16)
    requires
        old(cpu).ready(),
        old(cpu).pending_cycles + 2 < pending_limit(),
        target != JumpTest::HL,
        old(cpu).condition(target) ==> old(cpu).sp < 0xFFFE,
    ensures
        old(cpu).condition(target) ==> *final(cpu) == with_pc(
            popped(popped(*old(cpu))),
            return_address(*old(cpu)),
        ) && r == return_address(*old(cpu)) && final(cpu).pc == r,
        !old(cpu).condition(target) ==> *final(cpu) == *old(cpu) && r == wrap16(old(cpu).pc + 1),
        final(cpu).bus.wf(),
{
    let do_jump = match_jump(cpu, target);
    if do_jump {
        let low = stack_pop(cpu);
        let high = stack_pop(cpu);
        let address = crate::hdw::registers::make_word(high, low);
        cpu.pc = address;
        address
    } else {
        add_u16(cpu.pc, 1)
    }
}

/// The CPU with IME set.
pub open spec fn with_ime(cpu: CPU) -> CPU {
    CPU {
        bus: BUS {
            interrupt_controller: InterruptController { master_enabled: true, ..cpu.bus.interrupt_controller },
            ..cpu.bus
        },
        ..cpu
    }
}

/// RETI: sets IME and returns.
pub fn op_reti(cpu: &mut CPU) -> (r: u16)
    requires
        old(cpu).ready(),
        old(cpu).pending_cycles + 2 < pending_limit(),
        old(cpu).sp < 0xFFFE,
    ensures
        *final(cpu) == with_pc(popped(popped(with_ime(*old(cpu)))), return_address(*old(cpu))),
        r == return_address(*old(cpu)),
        final(cpu).pc == r,
        final(cpu).bus.wf(),
{
    let ghost before = *cpu;
    cpu.bus.interrupt_controller.set_master_enabled(true);
    proof {
        assert forall|a: u16| cpu.read(a) == before.read(a) by {
            crate::hdw::bus::lemma_read_ignores_ime(before.bus, true, a);
        }
    }
    op_ret(cpu, JumpTest::Always)
}

/// RST: pushes the address after the instruction and jumps to the restart vector, storing
/// it in PC.
pub fn op_rst(cpu: &mut CPU, target: RestTarget) -> (r: u16)
    requires
        old(cpu).ready(),
        old(cpu).pending_cycles + 2 < pending_limit(),
        old(cpu).sp > 1,
    ensures
        *final(cpu) == with_pc(pushed16(*old(cpu), wrap16(old(cpu).pc + 1), true), target.vector()),
        final(cpu).bus.wf(),
        r == target.vector(),
        final(cpu).pc == r,
{
    let low: u16 = match target {
        RestTarget::Zero => 0x00,
        RestTarget::One => 0x08,
        RestTarget::Two => 0x10,
        RestTarget::Three => 0x18,
        RestTarget::Four => 0x20,
        RestTarget::Five => 0x28,
        RestTarget::Six => 0x30,
        RestTarget::Seven => 0x38,
    };
    let ret = add_u16(cpu.pc, 1);
    stack_push16(cpu, ret, true);
    cpu.pc = low;
    low
}


/// Whether a load form names an instruction (see `LoadType::is_valid`).
pub fn load_type_valid(t: LoadType) -> (r: bool)
    ensures
        r == t.is_valid(),
{
    match t {
        LoadType::RegInReg(d, s) => !(d == HLTarget::HL && s == HLTarget::HL),
        LoadType::Word(w, s) => match w {
            LoadWordTarget::BC => s == LoadWordSource::N16,
            LoadWordTarget::DE => s == LoadWordSource::N16,
            LoadWordTarget::HL => s == LoadWordSource::N16 || s == LoadWordSource::SPE8,
            LoadWordTarget::N16 => s == LoadWordSource::SP,
            LoadWordTarget::SP => s == LoadWordSource::N16 || s == LoadWordSource::HL,
        },
        _ => true,
    }
}
} // verus!
