use vstd::prelude::*;
use crate::hdw::bus::BUS;
use crate::hdw::cpu::CPU;
use crate::hdw::cpu_ops::{
    adc_flags, after_add_a, after_add_hl, after_add_sp, after_dec, after_inc, after_pop, after_shift,
    alu_next, bit_mask, carry_in, daa_adjustment, daa_carry, ld_effect, ld_length, ld_ok, n16_value,
    op_adc, op_add, op_and, op_bit, op_call, op_cp, op_cpl, op_daa, op_dec, op_inc, op_jp, op_jr,
    op_ld, op_or, op_pop, op_push, op_res, op_ret, op_reti, op_rl, op_rla, op_rlc, op_rlca, op_rr,
    op_rra, op_rrc, op_rrca, op_rst, op_sbc, op_set, op_sla, op_sra, op_srl, op_sub, op_swap,
    op_xor, return_address, shift_flags, stack_pair, sub_flags, with_ime,
};
use crate::hdw::cpu_util::sext;
use crate::hdw::instructions::{
    cb_decode, illegal_opcode, np_decode,
    AddrMode, HLTarget, InType, Instruction, JumpTest, LoadType, LoadWordTarget, OPTarget, OPType, all_registers_of,
    byte_target_of, hl_target_of, jump_test_of, load_type_of, op_target_of, op_type_of,
    rest_target_of, stack_target_of, to_all_registers, to_byte_target, to_hl_target,
    to_jump_test, to_load_type, to_op_target, to_op_type, to_rest_target, to_stack_target,
};
use crate::hdw::interrupts::InterruptController;
use crate::hdw::registers::{FlagsRegister, add_u16, wrap16, wrap8};
use crate::hdw::stack::{popped, pushed16};

verus! {

/// Effect of a CB-prefixed rotate or shift of kind `k` on operand `t`.
pub open spec fn shift_spec(cpu: CPU, k: InType, t: HLTarget) -> CPU {
    let v = cpu.hl_target_value(t);
    let c = carry_in(cpu.registers.f);
    match k {
        InType::IN_RLC => after_shift(cpu, t, (v << 1) | ((v >> 7) & 1), (v >> 7) & 1),
        InType::IN_RRC => after_shift(cpu, t, (v >> 1) | ((v & 1) << 7), v & 1),
        InType::IN_RL => after_shift(cpu, t, (v << 1) | c, (v >> 7) & 1),
        InType::IN_RR => after_shift(cpu, t, (v >> 1) | (c << 7), v & 1),
        InType::IN_SLA => after_shift(cpu, t, v << 1, (v >> 7) & 1),
        InType::IN_SRA => after_shift(cpu, t, (v >> 1) | (v & 0x80), v & 1),
        InType::IN_SWAP => after_shift(cpu, t, (v << 4) | (v >> 4), 0),
        _ => after_shift(cpu, t, v >> 1, v & 1),
    }
}

pub open spec fn is_shift(k: InType) -> bool {
    k == InType::IN_RLC || k == InType::IN_RRC || k == InType::IN_RL || k == InType::IN_RR
        || k == InType::IN_SLA || k == InType::IN_SRA || k == InType::IN_SWAP || k == InType::IN_SRL
}

/// Effect of an 8-bit ALU instruction of kind `k` (other than ADD) with operand `t`.
pub open spec fn alu_spec(cpu: CPU, k: InType, t: OPTarget) -> CPU {
    let a = cpu.registers.a;
    let v = cpu.op_operand(t);
    let c = carry_in(cpu.registers.f);
    match k {
        InType::IN_ADC => cpu.with_a(wrap8(a + v + c)).with_flags(adc_flags(wrap8(a + v + c), a, v, c)),
        InType::IN_SUB => cpu.with_a(wrap8(a - v)).with_flags(sub_flags(wrap8(a - v), a, v, 0)),
        InType::IN_SBC => cpu.with_a(wrap8(a - v - c)).with_flags(sub_flags(wrap8(a - v - c), a, v, c)),
        InType::IN_AND => cpu.with_a(a & v).with_flags(
            FlagsRegister { zero: a & v == 0, subtract: false, half_carry: true, carry: false },
        ),
        InType::IN_XOR => cpu.with_a(a ^ v).with_flags(
            FlagsRegister { zero: a ^ v == 0, subtract: false, half_carry: false, carry: false },
        ),
        InType::IN_OR => cpu.with_a(a | v).with_flags(
            FlagsRegister { zero: a | v == 0, subtract: false, half_carry: false, carry: false },
        ),
        _ => cpu.with_flags(
            FlagsRegister { zero: a == v, subtract: true, half_carry: a % 16 < v % 16, carry: a < v },
        ),
    }
}

pub open spec fn is_alu(k: InType) -> bool {
    k == InType::IN_ADC || k == InType::IN_SUB || k == InType::IN_SBC || k == InType::IN_AND
        || k == InType::IN_XOR || k == InType::IN_OR || k == InType::IN_CP
}

/// Effect and next address of ADD in form `t`.
pub open spec fn add_spec(cpu: CPU, t: OPType) -> (CPU, u16) {
    match t {
        OPType::LoadA(s) => (after_add_a(cpu, cpu.hl_target_value(s)), wrap16(cpu.pc + 1)),
        OPType::LoadD8 => (after_add_a(cpu, cpu.imm8()), wrap16(cpu.pc + 2)),
        OPType::LoadHL(s) => (after_add_hl(cpu, n16_value(cpu, s)), wrap16(cpu.pc + 1)),
        OPType::LoadSP => (after_add_sp(cpu, cpu.imm8()), wrap16(cpu.pc + 2)),
    }
}

/// Effect of the one-byte instructions that work on A and the flags only.
pub open spec fn accumulator_spec(cpu: CPU, k: InType) -> CPU {
    let a = cpu.registers.a;
    let f = cpu.registers.f;
    match k {
        InType::IN_RLCA => cpu.with_a((a << 1) | ((a >> 7) & 1)).with_flags(
            shift_flags(1, (a >> 7) & 1).with_zero(false),
        ),
        InType::IN_RRCA => cpu.with_a((a >> 1) | ((a & 1) << 7)).with_flags(
            shift_flags(1, a & 1).with_zero(false),
        ),
        InType::IN_RLA => cpu.with_a((a << 1) | carry_in(f)).with_flags(
            shift_flags(1, (a & 0x80) >> 7).with_zero(false),
        ),
        InType::IN_RRA => cpu.with_a((a >> 1) | (carry_in(f) << 7)).with_flags(
            shift_flags(1, a & 1).with_zero(false),
        ),
        InType::IN_DAA => {
            let adj = daa_adjustment(a, f);
            let res = if !f.subtract { wrap8(a + adj) } else { wrap8(a - adj) };
            cpu.with_a(res).with_flags(
                FlagsRegister { zero: res == 0, subtract: f.subtract, half_carry: false, carry: daa_carry(a, f) },
            )
        },
        InType::IN_CPL => cpu.with_a(!a).with_flags(FlagsRegister { subtract: true, half_carry: true, ..f }),
        InType::IN_SCF => cpu.with_flags(FlagsRegister { subtract: false, half_carry: false, carry: true, ..f }),
        _ => cpu.with_flags(FlagsRegister { subtract: false, half_carry: false, carry: !f.carry, ..f }),
    }
}

pub open spec fn is_accumulator(k: InType) -> bool {
    k == InType::IN_RLCA || k == InType::IN_RRCA || k == InType::IN_RLA || k == InType::IN_RRA
        || k == InType::IN_DAA || k == InType::IN_CPL || k == InType::IN_SCF || k == InType::IN_CCF
}

pub open spec fn with_interrupt_controller(cpu: CPU, ic: InterruptController) -> CPU {
    CPU { bus: BUS { interrupt_controller: ic, ..cpu.bus }, ..cpu }
}

/// Effect and next address of a jump, call, return or restart; `None` where the
/// instruction cannot run (operand bytes past the address space, stack at its end).
#[verifier::opaque]
pub open spec fn flow_spec(cpu: CPU, inst: Instruction) -> Option<(CPU, u16)> {
    let pc = cpu.pc;
    let test = jump_test_of(inst.cond);
    let taken = cpu.condition(test);
    match inst.in_type {
        InType::IN_JR => if pc < 0xFFFF {
            Some((cpu, if taken { wrap16(pc + 2 + sext(cpu.imm8())) } else { wrap16(pc + 2) }))
        } else {
            None
        },
        InType::IN_JP => if inst.mode == AddrMode::AM_MR {
            Some((cpu, cpu.hl()))
        } else if pc < 0xFFFE {
            Some((cpu, if taken { cpu.imm16() } else { wrap16(pc + 3) }))
        } else {
            None
        },
        InType::IN_CALL => if pc < 0xFFFE && (taken ==> cpu.sp > 1) {
            if taken {
                Some((pushed16(cpu, wrap16(pc + 3), true), cpu.imm16()))
            } else {
                Some((cpu, wrap16(pc + 3)))
            }
        } else {
            None
        },
        InType::IN_RET => if taken ==> cpu.sp < 0xFFFE {
            if taken {
                Some((popped(popped(cpu)), return_address(cpu)))
            } else {
                Some((cpu, wrap16(pc + 1)))
            }
        } else {
            None
        },
        InType::IN_RETI => if cpu.sp < 0xFFFE {
            Some((popped(popped(with_ime(cpu))), return_address(cpu)))
        } else {
            None
        },
        InType::IN_RST => match rest_target_of(inst.param) {
            Some(t) => if cpu.sp > 1 {
                Some((pushed16(cpu, wrap16(pc + 1), true), t.vector()))
            } else {
                None
            },
            None => None,
        },
        InType::IN_PUSH => match stack_target_of(inst.reg_1) {
            Some(t) => if cpu.sp > 1 {
                Some((pushed16(cpu, stack_pair(cpu, t), true), wrap16(pc + 1)))
            } else {
                None
            },
            None => None,
        },
        _ => match stack_target_of(inst.reg_1) {
            Some(t) => if cpu.sp < 0xFFFE {
                Some((after_pop(cpu, t), wrap16(pc + 1)))
            } else {
                None
            },
            None => None,
        },
    }
}

pub open spec fn is_flow(k: InType) -> bool {
    k == InType::IN_JR || k == InType::IN_JP || k == InType::IN_CALL || k == InType::IN_RET
        || k == InType::IN_RETI || k == InType::IN_RST || k == InType::IN_PUSH || k == InType::IN_POP
}

/// Outcome of a load instruction: `None` where it names no load or an operand falls off
/// the address space.
#[verifier::opaque]
pub open spec fn load_step(cpu: CPU, inst: Instruction) -> Option<(CPU, u16)> {
    match load_type_of(inst) {
        Some(t) => if ld_ok(cpu, t) {
            Some((ld_effect(cpu, t), wrap16(cpu.pc + ld_length(t))))
        } else {
            None
        },
        None => None,
    }
}

/// Outcome of INC or DEC.
#[verifier::opaque]
pub open spec fn incdec_step(cpu: CPU, inst: Instruction) -> Option<(CPU, u16)> {
    match all_registers_of(inst) {
        Some(t) => Some((
            if inst.in_type == InType::IN_INC { after_inc(cpu, t) } else { after_dec(cpu, t) },
            wrap16(cpu.pc + 1),
        )),
        None => None,
    }
}

/// Outcome of the one-byte accumulator and flag instructions.
#[verifier::opaque]
pub open spec fn accumulator_step(cpu: CPU, inst: Instruction) -> Option<(CPU, u16)> {
    Some((accumulator_spec(cpu, inst.in_type), wrap16(cpu.pc + 1)))
}

/// Outcome of ADD.
#[verifier::opaque]
pub open spec fn add_step(cpu: CPU, inst: Instruction) -> Option<(CPU, u16)> {
    match op_type_of(inst) {
        Some(t) => if (t == OPType::LoadSP || t == OPType::LoadD8) && cpu.pc >= 0xFFFF {
            None
        } else {
            Some(add_spec(cpu, t))
        },
        None => None,
    }
}

/// Outcome of ADC, SUB, SBC, AND, XOR, OR and CP.
#[verifier::opaque]
pub open spec fn alu_step(cpu: CPU, inst: Instruction) -> Option<(CPU, u16)> {
    match op_target_of(inst) {
        Some(t) => if t == OPTarget::D8 && cpu.pc >= 0xFFFF {
            None
        } else {
            Some((alu_spec(cpu, inst.in_type, t), alu_next(cpu, t)))
        },
        None => None,
    }
}

/// Outcome of a CB-prefixed rotate or shift.
#[verifier::opaque]
pub open spec fn shift_step(cpu: CPU, inst: Instruction) -> Option<(CPU, u16)> {
    match hl_target_of(inst.reg_1) {
        Some(t) => Some((shift_spec(cpu, inst.in_type, t), wrap16(cpu.pc + 2))),
        None => None,
    }
}

/// Outcome of BIT, RES and SET.
#[verifier::opaque]
pub open spec fn bits_step(cpu: CPU, inst: Instruction) -> Option<(CPU, u16)> {
    match byte_target_of(inst) {
        Some(bt) => {
            let v = cpu.hl_target_value(bt.operand());
            let m = bit_mask(bt.index());
            Some((
                if inst.in_type == InType::IN_BIT {
                    cpu.with_flags(FlagsRegister { zero: v & m == 0, subtract: false, half_carry: true, ..cpu.registers.f })
                } else if inst.in_type == InType::IN_RES {
                    cpu.with_hl_target(bt.operand(), v & !m)
                } else {
                    cpu.with_hl_target(bt.operand(), v | m)
                },
                wrap16(cpu.pc + 2),
            ))
        },
        None => None,
    }
}

/// What executing `inst` does: the CPU after it (with PC not yet moved) and the address
/// of the next instruction; `None` where the instruction cannot run: STOP, codes that are
/// no instruction, forms that name no operation, and operands or stack accesses that
/// fall off the address space.
pub open spec fn execute_spec(cpu: CPU, inst: Instruction) -> Option<(CPU, u16)> {
    let next1 = wrap16(cpu.pc + 1);
    let k = inst.in_type;
    if k == InType::IN_NOP {
        Some((cpu, next1))
    } else if k == InType::IN_LD || k == InType::IN_LDH {
        load_step(cpu, inst)
    } else if k == InType::IN_INC || k == InType::IN_DEC {
        incdec_step(cpu, inst)
    } else if is_accumulator(k) {
        accumulator_step(cpu, inst)
    } else if k == InType::IN_HALT {
        Some((CPU { is_halted: true, ..cpu }, next1))
    } else if k == InType::IN_ADD {
        add_step(cpu, inst)
    } else if is_alu(k) {
        alu_step(cpu, inst)
    } else if is_flow(k) {
        flow_spec(cpu, inst)
    } else if k == InType::IN_DI {
        Some((
            with_interrupt_controller(
                cpu,
                InterruptController { master_enabled: false, enabling_ime: false, ..cpu.bus.interrupt_controller },
            ),
            next1,
        ))
    } else if k == InType::IN_EI {
        Some((
            with_interrupt_controller(
                cpu,
                InterruptController { enabling_ime: true, ..cpu.bus.interrupt_controller },
            ),
            next1,
        ))
    } else if is_shift(k) {
        shift_step(cpu, inst)
    } else if k == InType::IN_BIT || k == InType::IN_RES || k == InType::IN_SET {
        bits_step(cpu, inst)
    } else {
        None
    }
}

/// Whether `execute` may run: the bus serves reads and no stack cycles are pending.
pub open spec fn can_execute(cpu: CPU) -> bool {
    cpu.bus.wf() && cpu.pending_cycles == 0
}

/// `new` and `ok` are what a step with outcome `r` from `old` leaves: on `Some`, the CPU
/// of the outcome with PC at the next address; on `None`, failure and no change.
pub open spec fn outcome(old: CPU, new: CPU, r: Option<(CPU, u16)>, ok: bool) -> bool {
    match r {
        Some((c, next)) => ok && new == (CPU { pc: next, ..c }),
        None => !ok && new == old,
    }
}

/// The result of `execute` stated by `execute_spec`.
pub open spec fn executed(old: CPU, new: CPU, inst: Instruction, ok: bool) -> bool {
    outcome(old, new, execute_spec(old, inst), ok)
}

fn execute_shift(cpu: &mut CPU, inst: Instruction) -> (ok: bool)
    requires
        can_execute(*old(cpu)),
        is_shift(inst.in_type),
    ensures
        outcome(*old(cpu), *final(cpu), shift_step(*old(cpu), inst), ok),
        final(cpu).bus.wf(),
{
    proof {
        reveal(shift_step);
    }
    let t = match to_hl_target(inst.reg_1) {
        Some(t) => t,
        None => return false,
    };
    let next = match inst.in_type {
        InType::IN_RLC => op_rlc(cpu, t),
        InType::IN_RRC => op_rrc(cpu, t),
        InType::IN_RL => op_rl(cpu, t),
        InType::IN_RR => op_rr(cpu, t),
        InType::IN_SLA => op_sla(cpu, t),
        InType::IN_SRA => op_sra(cpu, t),
        InType::IN_SWAP => op_swap(cpu, t),
        _ => op_srl(cpu, t),
    };
    cpu.pc = next;
    true
}

fn execute_bits(cpu: &mut CPU, inst: Instruction) -> (ok: bool)
    requires
        can_execute(*old(cpu)),
        inst.in_type == InType::IN_BIT || inst.in_type == InType::IN_RES || inst.in_type == InType::IN_SET,
    ensures
        outcome(*old(cpu), *final(cpu), bits_step(*old(cpu), inst), ok),
        final(cpu).bus.wf(),
{
    proof {
        reveal(bits_step);
    }
    let bt = match to_byte_target(inst) {
        Some(bt) => bt,
        None => return false,
    };
    let next = if inst.in_type == InType::IN_BIT {
        op_bit(cpu, bt)
    } else if inst.in_type == InType::IN_RES {
        op_res(cpu, bt)
    } else {
        op_set(cpu, bt)
    };
    cpu.pc = next;
    true
}

fn execute_alu(cpu: &mut CPU, inst: Instruction) -> (ok: bool)
    requires
        can_execute(*old(cpu)),
        is_alu(inst.in_type),
    ensures
        outcome(*old(cpu), *final(cpu), alu_step(*old(cpu), inst), ok),
        final(cpu).bus.wf(),
{
    proof {
        reveal(alu_step);
    }
    let t = match to_op_target(inst) {
        Some(t) => t,
        None => return false,
    };
    if t == OPTarget::D8 && cpu.pc == 0xFFFF {
        return false;
    }
    let next = match inst.in_type {
        InType::IN_ADC => op_adc(cpu, t),
        InType::IN_SUB => op_sub(cpu, t),
        InType::IN_SBC => op_sbc(cpu, t),
        InType::IN_AND => op_and(cpu, t),
        InType::IN_XOR => op_xor(cpu, t),
        InType::IN_OR => op_or(cpu, t),
        _ => op_cp(cpu, t),
    };
    cpu.pc = next;
    true
}

fn execute_add(cpu: &mut CPU, inst: Instruction) -> (ok: bool)
    requires
        can_execute(*old(cpu)),
        inst.in_type == InType::IN_ADD,
    ensures
        outcome(*old(cpu), *final(cpu), add_step(*old(cpu), inst), ok),
        final(cpu).bus.wf(),
{
    proof {
        reveal(add_step);
    }
    let t = match to_op_type(inst) {
        Some(t) => t,
        None => return false,
    };
    if (t == OPType::LoadSP || t == OPType::LoadD8) && cpu.pc == 0xFFFF {
        return false;
    }
    let next = op_add(cpu, t);
    cpu.pc = next;
    true
}

fn execute_accumulator(cpu: &mut CPU, inst: Instruction) -> (ok: bool)
    requires
        can_execute(*old(cpu)),
        is_accumulator(inst.in_type),
    ensures
        outcome(*old(cpu), *final(cpu), accumulator_step(*old(cpu), inst), ok),
        final(cpu).bus.wf(),
{
    proof {
        reveal(accumulator_step);
    }
    let next = match inst.in_type {
        InType::IN_RLCA => op_rlca(cpu),
        InType::IN_RRCA => op_rrca(cpu),
        InType::IN_RLA => op_rla(cpu),
        InType::IN_RRA => op_rra(cpu),
        InType::IN_DAA => op_daa(cpu),
        InType::IN_CPL => op_cpl(cpu),
        InType::IN_SCF => {
            cpu.registers.f.carry = true;
            cpu.registers.f.subtract = false;
            cpu.registers.f.half_carry = false;
            add_u16(cpu.pc, 1)
        },
        _ => {
            cpu.registers.f.carry = !cpu.registers.f.carry;
            cpu.registers.f.subtract = false;
            cpu.registers.f.half_carry = false;
            add_u16(cpu.pc, 1)
        },
    };
    cpu.pc = next;
    true
}

fn execute_flow(cpu: &mut CPU, inst: Instruction) -> (ok: bool)
    requires
        can_execute(*old(cpu)),
        is_flow(inst.in_type),
    ensures
        outcome(*old(cpu), *final(cpu), flow_spec(*old(cpu), inst), ok),
        final(cpu).bus.wf(),
{
    proof {
        reveal(flow_spec);
    }
    let test = to_jump_test(inst.cond);
    let next = match inst.in_type {
        InType::IN_JR => {
            if cpu.pc == 0xFFFF {
                return false;
            }
            op_jr(cpu, test)
        },
        InType::IN_JP => {
            if inst.mode == AddrMode::AM_MR {
                op_jp(cpu, JumpTest::HL)
            } else {
                if cpu.pc >= 0xFFFE {
                    return false;
                }
                op_jp(cpu, test)
            }
        },
        InType::IN_CALL => {
            let taken = crate::hdw::cpu_util::match_jump(cpu, test);
            if cpu.pc >= 0xFFFE || (taken && cpu.sp <= 1) {
                return false;
            }
            op_call(cpu, test)
        },
        InType::IN_RET => {
            let taken = crate::hdw::cpu_util::match_jump(cpu, test);
            if taken && cpu.sp >= 0xFFFE {
                return false;
            }
            op_ret(cpu, test)
        },
        InType::IN_RETI => {
            if cpu.sp >= 0xFFFE {
                return false;
            }
            op_reti(cpu)
        },
        InType::IN_RST => {
            let t = match to_rest_target(inst.param) {
                Some(t) => t,
                None => return false,
            };
            if cpu.sp <= 1 {
                return false;
            }
            op_rst(cpu, t)
        },
        InType::IN_PUSH => {
            let t = match to_stack_target(inst.reg_1) {
                Some(t) => t,
                None => return false,
            };
            if cpu.sp <= 1 {
                return false;
            }
            op_push(cpu, t)
        },
        _ => {
            let t = match to_stack_target(inst.reg_1) {
                Some(t) => t,
                None => return false,
            };
            if cpu.sp >= 0xFFFE {
                return false;
            }
            op_pop(cpu, t)
        },
    };
    cpu.pc = next;
    true
}

fn execute_incdec(cpu: &mut CPU, inst: Instruction) -> (ok: bool)
    requires
        can_execute(*old(cpu)),
        inst.in_type == InType::IN_INC || inst.in_type == InType::IN_DEC,
    ensures
        outcome(*old(cpu), *final(cpu), incdec_step(*old(cpu), inst), ok),
        final(cpu).bus.wf(),
{
    proof {
        reveal(incdec_step);
    }
    let t = match to_all_registers(inst) {
        Some(t) => t,
        None => return false,
    };
    let next = if inst.in_type == InType::IN_INC {
        op_inc(cpu, t)
    } else {
        op_dec(cpu, t)
    };
    cpu.pc = next;
    true
}

fn execute_load(cpu: &mut CPU, inst: Instruction) -> (ok: bool)
    requires
        can_execute(*old(cpu)),
        inst.in_type == InType::IN_LD || inst.in_type == InType::IN_LDH,
    ensures
        outcome(*old(cpu), *final(cpu), load_step(*old(cpu), inst), ok),
        final(cpu).bus.wf(),
{
    proof {
        reveal(load_step);
    }
    let t = match to_load_type(inst) {
        Some(t) => t,
        None => return false,
    };
    if !load_ready(cpu, t) {
        return false;
    }
    let next = op_ld(cpu, t);
    cpu.pc = next;
    true
}

/// Whether a load of form `t` can run on `cpu`.
fn load_ready(cpu: &CPU, t: LoadType) -> (r: bool)
    requires
        cpu.bus.wf(),
    ensures
        r == ld_ok(*cpu, t),
{
    if !crate::hdw::cpu_ops::load_type_valid(t) {
        return false;
    }
    match t {
        LoadType::Word(w, _) => {
            if cpu.pc >= 0xFFFE {
                return false;
            }
            if w == LoadWordTarget::N16 {
                let word = crate::hdw::cpu_util::read_imm16(cpu);
                word < 0xFFFF
            } else {
                true
            }
        },
        LoadType::D8StoreInReg(_) => cpu.pc < 0xFFFF,
        LoadType::AWithA8(_) => cpu.pc < 0xFFFF,
        LoadType::AWithA16(_) => cpu.pc < 0xFFFE,
        _ => true,
    }
}

impl CPU {
    /// Executes a decoded instruction and moves PC to the next one. Returns false, leaving
    /// the CPU unchanged, where `execute_spec` gives no result.
    pub fn execute(&mut self, instruction: Instruction) -> (ok: bool)
        requires
            can_execute(*old(self)),
        ensures
            executed(*old(self), *final(self), instruction, ok),
            final(self).bus.wf(),
    {
        let k = instruction.in_type;
        if k == InType::IN_NOP {
            self.pc = add_u16(self.pc, 1);
            true
        } else if k == InType::IN_LD || k == InType::IN_LDH {
            execute_load(self, instruction)
        } else if k == InType::IN_INC || k == InType::IN_DEC {
            execute_incdec(self, instruction)
        } else if k == InType::IN_RLCA || k == InType::IN_RRCA || k == InType::IN_RLA || k == InType::IN_RRA
            || k == InType::IN_DAA || k == InType::IN_CPL || k == InType::IN_SCF || k == InType::IN_CCF {
            execute_accumulator(self, instruction)
        } else if k == InType::IN_HALT {
            self.is_halted = true;
            self.pc = add_u16(self.pc, 1);
            true
        } else if k == InType::IN_ADD {
            execute_add(self, instruction)
        } else if k == InType::IN_ADC || k == InType::IN_SUB || k == InType::IN_SBC || k == InType::IN_AND
            || k == InType::IN_XOR || k == InType::IN_OR || k == InType::IN_CP {
            execute_alu(self, instruction)
        } else if k == InType::IN_JR || k == InType::IN_JP || k == InType::IN_CALL || k == InType::IN_RET
            || k == InType::IN_RETI || k == InType::IN_RST || k == InType::IN_PUSH || k == InType::IN_POP {
            execute_flow(self, instruction)
        } else if k == InType::IN_DI {
            self.bus.interrupt_controller.master_enabled = false;
            self.bus.interrupt_controller.enabling_ime = false;
            self.pc = add_u16(self.pc, 1);
            true
        } else if k == InType::IN_EI {
            self.bus.interrupt_controller.enabling_ime = true;
            self.pc = add_u16(self.pc, 1);
            true
        } else if k == InType::IN_RLC || k == InType::IN_RRC || k == InType::IN_RL || k == InType::IN_RR
            || k == InType::IN_SLA || k == InType::IN_SRA || k == InType::IN_SWAP || k == InType::IN_SRL {
            execute_shift(self, instruction)
        } else if k == InType::IN_BIT || k == InType::IN_RES || k == InType::IN_SET {
            execute_bits(self, instruction)
        } else {
            false
        }
    }
}

/// Room for any instruction: its operand bytes lie below 0xFFFF and the stack can take
/// two pushes or two pops.
pub open spec fn room_to_run(cpu: CPU) -> bool {
    &&& cpu.pc <= 0xFFFC
    &&& 2 <= cpu.sp <= 0xFFFD
}

/// Every CB-prefixed instruction runs.
#[verifier::rlimit(50)]
pub proof fn law_prefixed_instructions_run(cpu: CPU, op: u8)
    requires
        room_to_run(cpu),
    ensures
        execute_spec(cpu, cb_decode(op)).is_some(),
{
    reveal(shift_step);
    reveal(bits_step);
}

/// What the unprefixed run law asks of the CPU and the opcode.
pub open spec fn decoded_runnable(cpu: CPU, op: u8) -> bool {
    &&& room_to_run(cpu)
    &&& !illegal_opcode(op)
    &&& op != 0x10
    &&& op != 0xCB
    &&& op == 0x08 ==> cpu.imm16() < 0xFFFF
}

#[verifier::spinoff_prover]
#[verifier::rlimit(100)]
proof fn lemma_block0_runs(cpu: CPU, op: u8)
    requires
        decoded_runnable(cpu, op),
        op < 0x40,
    ensures
        execute_spec(cpu, np_decode(op).unwrap()).is_some(),
{
    reveal(load_step);
    reveal(incdec_step);
    reveal(accumulator_step);
    reveal(add_step);
    reveal(flow_spec);
}

#[verifier::spinoff_prover]
#[verifier::rlimit(100)]
proof fn lemma_block1_runs(cpu: CPU, op: u8)
    requires
        decoded_runnable(cpu, op),
        0x40 <= op < 0x80,
    ensures
        execute_spec(cpu, np_decode(op).unwrap()).is_some(),
{
    reveal(load_step);
}

#[verifier::spinoff_prover]
#[verifier::rlimit(100)]
proof fn lemma_block2_runs(cpu: CPU, op: u8)
    requires
        decoded_runnable(cpu, op),
        0x80 <= op < 0xC0,
    ensures
        execute_spec(cpu, np_decode(op).unwrap()).is_some(),
{
    reveal(add_step);
    reveal(alu_step);
}

#[verifier::spinoff_prover]
#[verifier::rlimit(100)]
proof fn lemma_block3_runs(cpu: CPU, op: u8)
    requires
        decoded_runnable(cpu, op),
        0xC0 <= op,
    ensures
        execute_spec(cpu, np_decode(op).unwrap()).is_some(),
{
    reveal(load_step);
    reveal(add_step);
    reveal(alu_step);
    reveal(flow_spec);
}

/// Every unprefixed instruction that the decoder yields runs, but STOP; LD (a16),SP also
/// needs a16 below 0xFFFF.
pub proof fn law_decoded_instructions_run(cpu: CPU, op: u8)
    requires
        room_to_run(cpu),
        !illegal_opcode(op),
        op != 0x10,
        op != 0xCB,
        op == 0x08 ==> cpu.imm16() < 0xFFFF,
    ensures
        execute_spec(cpu, np_decode(op).unwrap()).is_some(),
{
    if op < 0x40 {
        lemma_block0_runs(cpu, op);
    } else if op < 0x80 {
        lemma_block1_runs(cpu, op);
    } else if op < 0xC0 {
        lemma_block2_runs(cpu, op);
    } else {
        lemma_block3_runs(cpu, op);
    }
}

/// The result of AND, XOR and OR (opcode `op`, decoded as `inst`) with register operand
/// field `op % 8`.
spec fn logic_result(cpu: CPU, op: u8) -> (CPU, u16) {
    let regs = cpu.registers;
    let v = seq![regs.b, regs.c, regs.d, regs.e, regs.h, regs.l, 0u8, regs.a][op as int % 8];
    let r: u8 = if op < 0xA8 {
        regs.a & v
    } else if op < 0xB0 {
        regs.a ^ v
    } else {
        regs.a | v
    };
    let f = FlagsRegister { zero: r == 0, subtract: false, half_carry: op < 0xA8, carry: false };
    (CPU { registers: crate::hdw::registers::Registers { a: r, f, ..regs }, ..cpu }, wrap16(cpu.pc + 1))
}

proof fn lemma_logic_op(cpu: CPU, op: u8, inst: Instruction)
    requires
        0xA0 <= op <= 0xB7,
        op % 8 != 6,
        inst.in_type == (if op < 0xA8 {
            InType::IN_AND
        } else if op < 0xB0 {
            InType::IN_XOR
        } else {
            InType::IN_OR
        }),
        inst.mode == AddrMode::AM_R_R,
        inst.reg_2 == seq![
            crate::hdw::instructions::RegType::RT_B,
            crate::hdw::instructions::RegType::RT_C,
            crate::hdw::instructions::RegType::RT_D,
            crate::hdw::instructions::RegType::RT_E,
            crate::hdw::instructions::RegType::RT_H,
            crate::hdw::instructions::RegType::RT_L,
            crate::hdw::instructions::RegType::RT_HL,
            crate::hdw::instructions::RegType::RT_A,
        ][op as int % 8],
    ensures
        execute_spec(cpu, inst) == Some(logic_result(cpu, op)),
{
    let z = op % 8;
    let t = if z == 0 {
        OPTarget::B
    } else if z == 1 {
        OPTarget::C
    } else if z == 2 {
        OPTarget::D
    } else if z == 3 {
        OPTarget::E
    } else if z == 4 {
        OPTarget::H
    } else if z == 5 {
        OPTarget::L
    } else {
        OPTarget::A
    };
    assert(op_target_of(inst) == Some(t));
    lemma_alu_register_step(cpu, inst, t);
}

/// AND, XOR and OR with a register (opcodes 0xA0-0xB7 but the (HL) forms): A becomes
/// A & r, A ^ r or A | r for the register r named by bits 2..0 (B, C, D, E, H, L, -, A);
/// Z is set when the result is 0, N and C cleared, H set for AND only; nothing else
/// changes and the next instruction follows this one-byte instruction.
pub proof fn law_logic_ops_run(cpu: CPU, op: u8)
    requires
        0xA0 <= op <= 0xB7,
        op % 8 != 6,
    ensures
        ({
            let regs = cpu.registers;
            let v = seq![regs.b, regs.c, regs.d, regs.e, regs.h, regs.l, 0u8, regs.a][op as int % 8];
            let r: u8 = if op < 0xA8 {
                regs.a & v
            } else if op < 0xB0 {
                regs.a ^ v
            } else {
                regs.a | v
            };
            let f = FlagsRegister { zero: r == 0, subtract: false, half_carry: op < 0xA8, carry: false };
            execute_spec(cpu, np_decode(op).unwrap()) == Some(
                (CPU { registers: crate::hdw::registers::Registers { a: r, f, ..regs }, ..cpu }, wrap16(cpu.pc + 1)),
            )
        }),
{
    crate::hdw::instructions::law_decode_alu_block(op);
    lemma_logic_op(cpu, op, np_decode(op).unwrap());
}

/// An ADC, SUB, SBC, AND, XOR, OR or CP with a register operand runs as `alu_spec` says
/// and is one byte long.
proof fn lemma_alu_register_step(cpu: CPU, inst: Instruction, t: OPTarget)
    requires
        is_alu(inst.in_type),
        op_target_of(inst) == Some(t),
        t != OPTarget::D8 && t != OPTarget::HL,
    ensures
        execute_spec(cpu, inst) == Some((alu_spec(cpu, inst.in_type, t), wrap16(cpu.pc + 1))),
{
    reveal(alu_step);
}

} // verus!
