use vstd::prelude::*;
use crate::hdw::cpu::{CPU, pending_limit};
use crate::hdw::bus::{keeps_writes, law_write_read_back};
use crate::hdw::registers::{hi_byte, lo_byte, lemma_bytes_word, word};

verus! {

/// The CPU after pushing `value`: SP decremented, the byte written at the new SP.
pub open spec fn pushed(cpu: CPU, value: u8, cycle: bool) -> CPU {
    let sp = (cpu.sp - 1) as u16;
    CPU {
        sp,
        bus: cpu.bus.written(sp, value),
        pending_cycles: (if cycle { cpu.pending_cycles + 1 } else { cpu.pending_cycles as int }) as u16,
        ..cpu
    }
}

/// The CPU after pushing a word: high byte first, then low byte.
pub open spec fn pushed16(cpu: CPU, value: u16, cycle: bool) -> CPU {
    pushed(pushed(cpu, hi_byte(value), cycle), lo_byte(value), cycle)
}

/// The CPU after popping a byte: SP incremented, one machine cycle spent.
pub open spec fn popped(cpu: CPU) -> CPU {
    CPU { sp: (cpu.sp + 1) as u16, pending_cycles: (cpu.pending_cycles + 1) as u16, ..cpu }
}

/// Decrements SP and stores `value` there; `cycle` charges one machine cycle.
pub fn stack_push(cpu: &mut CPU, value: u8, cycle: bool)
    requires
        old(cpu).ready(),
        old(cpu).sp > 0,
    ensures
        *final(cpu) == pushed(*old(cpu), value, cycle),
        final(cpu).bus.wf(),
{
    cpu.sp = cpu.sp - 1;
    if cycle {
        cpu.pending_cycles = cpu.pending_cycles + 1;
    }
    cpu.bus.write_byte(cpu.sp, value);
}

/// Pushes the high byte of `value`, then the low byte.
pub fn stack_push16(cpu: &mut CPU, value: u16, cycle: bool)
    requires
        old(cpu).ready(),
        old(cpu).pending_cycles + 2 < pending_limit(),
        old(cpu).sp > 1,
    ensures
        *final(cpu) == pushed16(*old(cpu), value, cycle),
        final(cpu).bus.wf(),
{
    let (hi, lo) = crate::hdw::registers::split_word(value);
    stack_push(cpu, hi, cycle);
    stack_push(cpu, lo, cycle);
}

/// Reads the byte at SP, then increments SP; one machine cycle is spent.
pub fn stack_pop(cpu: &mut CPU) -> (r: u8)
    requires
        old(cpu).ready(),
        old(cpu).sp < 0xFFFF,
    ensures
        r == old(cpu).read(old(cpu).sp),
        *final(cpu) == popped(*old(cpu)),
{
    let address = cpu.sp;
    cpu.sp = cpu.sp + 1;
    cpu.pending_cycles = cpu.pending_cycles + 1;
    cpu.bus.read_byte(address)
}

/// Whether the two bytes below SP keep what is written to them: plain memory, or enabled
/// external RAM of an MBC1 cartridge.
pub open spec fn stack_room(cpu: CPU) -> bool {
    &&& cpu.sp > 1
    &&& cpu.bus.cart.inv()
    &&& keeps_writes(cpu.bus, (cpu.sp - 1) as u16)
    &&& keeps_writes(cpu.bus, (cpu.sp - 2) as u16)
}

/// A pushed word is read back from the stack low byte first: the word at the new SP is
/// the value pushed, and popping both bytes restores SP.
pub proof fn law_push_then_pop(cpu: CPU, value: u16, cycle: bool)
    requires
        stack_room(cpu),
    ensures
        pushed16(cpu, value, cycle).sp == cpu.sp - 2,
        ({
            let p = pushed16(cpu, value, cycle);
            word(p.read((p.sp + 1) as u16), p.read(p.sp)) == value
        }),
        popped(popped(pushed16(cpu, value, cycle))).sp == cpu.sp,
{
    let a = (cpu.sp - 1) as u16;
    let b = (cpu.sp - 2) as u16;
    let p1 = pushed(cpu, hi_byte(value), cycle);
    law_write_read_back(cpu.bus, a, b, hi_byte(value));
    law_write_read_back(p1.bus, b, a, lo_byte(value));
    lemma_bytes_word(value);
}

} // verus!
