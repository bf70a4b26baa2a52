use vstd::prelude::*;
use crate::hdw::bus::BUS;
use crate::hdw::cpu::CPU;
use crate::hdw::debug::dbg_update;
use crate::hdw::execute::{can_execute, execute_spec};
use crate::hdw::instructions::{InType, Instruction, cb_decode, np_decode};
use crate::hdw::interrupts::{
    InterruptController, Interrupts, can_serve, cpu_handle_interrupts, interrupts_handled,
};
use crate::hdw::lcd::LCD;
use crate::hdw::ppu::PPU;

verus! {

/// State of a run of the emulator that lives outside the machine: whether it runs, the
/// clock count, the instruction budget of a debug run and the serial output collected
/// from test ROMs.
pub struct EmuContext {
    pub running: bool,
    pub paused: bool,
    pub die: bool,
    /// T-cycles run so far.
    pub ticks: u64,
    /// Number of instructions after which a debug run stops.
    pub debug_limit: Option<u32>,
    /// Instructions run so far (saturating).
    pub instruction_count: u32,
    pub debug: bool,
    /// Bytes sent over the serial port by test ROMs.
    pub dbg_msg: Vec<u8>,
}

/// The context as the specifications see it: the serial output as a sequence.
pub struct EmuView {
    pub running: bool,
    pub paused: bool,
    pub die: bool,
    pub ticks: u64,
    pub debug_limit: Option<u32>,
    pub instruction_count: u32,
    pub debug: bool,
    pub dbg_msg: Seq<u8>,
}

impl View for EmuContext {
    type V = EmuView;

    open spec fn view(&self) -> EmuView {
        EmuView {
            running: self.running,
            paused: self.paused,
            die: self.die,
            ticks: self.ticks,
            debug_limit: self.debug_limit,
            instruction_count: self.instruction_count,
            debug: self.debug,
            dbg_msg: self.dbg_msg@,
        }
    }
}

/// `flags` with the request bit of every interrupt in `ints` raised.
pub open spec fn requested_all(flags: u8, ints: Seq<Interrupts>) -> u8
    decreases ints.len(),
{
    if ints.len() == 0 {
        flags
    } else {
        requested_all(flags | ints[0].mask(), ints.drop_first())
    }
}

/// The bus after one T-cycle: the timer and the PPU advance one tick and the interrupts
/// they raise are requested.
pub open spec fn bus_ticked(bus: BUS) -> BUS {
    let (timer, timer_int) = bus.timer.ticked();
    let ic = bus.interrupt_controller;
    let flags = if timer_int { ic.int_flags | Interrupts::TIMER.mask() } else { ic.int_flags };
    let (ppu, ints) = bus.ppu.ticked();
    BUS {
        timer,
        ppu,
        interrupt_controller: InterruptController { int_flags: requested_all(flags, ints), ..ic },
        ..bus
    }
}

/// Runs up to `n` T-cycles, stopping before the first one the PPU cannot take; gives the
/// bus and the number of cycles run.
pub open spec fn ticks_run(bus: BUS, n: nat) -> (BUS, nat)
    decreases n,
{
    if n == 0 {
        (bus, 0)
    } else if !bus.ppu.can_tick() {
        (bus, 0)
    } else {
        let (b, done) = ticks_run(bus_ticked(bus), (n - 1) as nat);
        (b, done + 1)
    }
}

/// The bus with the LY register showing the PPU's scanline.
pub open spec fn ly_synced(bus: BUS) -> BUS {
    BUS { ppu: PPU { lcd: LCD { ly: bus.ppu.ly, ..bus.ppu.lcd }, ..bus.ppu }, ..bus }
}

/// What `emu_cycles` does for `m` machine cycles (4 T-cycles each): runs them, then syncs
/// LY and advances DMA one step. Fails without change where the tick counter would
/// overflow, and fails after the cycles run so far where the PPU cannot take another.
pub open spec fn cycles_spec(cpu: CPU, ctx: EmuView, m: u8) -> (CPU, EmuView, bool) {
    let n = 4 * m;
    if ctx.ticks + n > u64::MAX {
        (cpu, ctx, false)
    } else {
        let (b, done) = ticks_run(cpu.bus, n as nat);
        let x = EmuView { ticks: (ctx.ticks + done) as u64, ..ctx };
        if done == n {
            (CPU { bus: ly_synced(b).dma_ticked(), ..cpu }, x, true)
        } else {
            (CPU { bus: b, ..cpu }, x, false)
        }
    }
}

proof fn lemma_requested_step(flags: u8, ints: Seq<Interrupts>, i: int)
    requires
        0 <= i < ints.len(),
    ensures
        requested_all(flags | ints[i].mask(), ints.subrange(i + 1, ints.len() as int))
            == requested_all(flags, ints.subrange(i, ints.len() as int)),
{
    let s = ints.subrange(i, ints.len() as int);
    assert(s.drop_first() =~= ints.subrange(i + 1, ints.len() as int));
}

proof fn lemma_ticks_run_wf(bus: BUS, n: nat)
    requires
        bus.wf(),
    ensures
        ticks_run(bus, n).0.wf(),
        ticks_run(bus, n).1 <= n,
    decreases n,
{
    if n > 0 && bus.ppu.can_tick() {
        lemma_ticks_run_wf(bus_ticked(bus), (n - 1) as nat);
    }
}

impl EmuContext {
    /// A running, unpaused context with no ticks and no instructions counted.
    pub fn new(debug_limit: Option<u32>, debug: bool) -> (r: Self)
        ensures
            r.running && !r.paused && !r.die,
            r.ticks == 0,
            r.debug_limit == debug_limit,
            r.instruction_count == 0,
            r.debug == debug,
            r.dbg_msg@ == Seq::<u8>::empty(),
    {
        EmuContext {
            running: true,
            paused: false,
            die: false,
            ticks: 0,
            debug_limit,
            instruction_count: 0,
            debug,
            dbg_msg: Vec::new(),
        }
    }

    pub fn set_running(&mut self, running: bool)
        ensures
            *final(self) == (EmuContext { running, ..*old(self) }),
    {
        self.running = running;
    }

    /// Bookkeeping after a CPU step: a failed step stops the run; otherwise the
    /// instruction is counted and the run stops once the debug limit is reached.
    /// Returns whether the run goes on.
    pub fn count_instruction(&mut self, stepped: bool) -> (go_on: bool)
        ensures
            !stepped ==> !go_on && *final(self) == (EmuContext { running: false, ..*old(self) }),
            stepped ==> {
                let count = if old(self).instruction_count == u32::MAX {
                    u32::MAX
                } else {
                    (old(self).instruction_count + 1) as u32
                };
                let limit_hit = match old(self).debug_limit {
                    Some(l) => count >= l,
                    None => false,
                };
                &&& go_on == !limit_hit
                &&& *final(self) == (EmuContext {
                    instruction_count: count,
                    running: if limit_hit { false } else { old(self).running },
                    ..*old(self)
                })
            },
    {
        if !stepped {
            self.running = false;
            return false;
        }
        self.instruction_count = self.instruction_count.saturating_add(1);
        match self.debug_limit {
            Some(limit) => {
                if self.instruction_count >= limit {
                    self.running = false;
                    false
                } else {
                    true
                }
            },
            None => true,
        }
    }
}

/// Whether debug output was asked for.
pub fn is_debug_enabled(ctx: &EmuContext) -> (r: bool)
    ensures
        r == ctx.debug,
{
    ctx.debug
}

/// Requests each interrupt in `ints`.
fn request_all(ic: &mut InterruptController, ints: &Vec<Interrupts>)
    ensures
        *final(ic) == (InterruptController {
            int_flags: requested_all(old(ic).int_flags, ints@),
            ..*old(ic)
        }),
{
    let mut i: usize = 0;
    proof {
        assert(ints@.subrange(0, ints@.len() as int) =~= ints@);
    }
    while i < ints.len()
        invariant
            i <= ints.len(),
            *ic == (InterruptController { int_flags: ic.int_flags, ..*old(ic) }),
            requested_all(ic.int_flags, ints@.subrange(i as int, ints@.len() as int))
                == requested_all(old(ic).int_flags, ints@),
        decreases ints.len() - i,
    {
        proof {
            lemma_requested_step(ic.int_flags, ints@, i as int);
        }
        ic.request_interrupt(ints[i]);
        i = i + 1;
    }
    proof {
        assert(ints@.subrange(i as int, ints@.len() as int) =~= Seq::<Interrupts>::empty());
        assert(ints@.subrange(0, ints@.len() as int) =~= ints@);
    }
}

/// One T-cycle of the timer and the PPU with the interrupts they raise.
fn bus_tick(bus: &mut BUS)
    requires
        old(bus).ppu.can_tick(),
    ensures
        *final(bus) == bus_ticked(*old(bus)),
{
    let timer_int = bus.timer.timer_tick();
    if timer_int {
        bus.interrupt_controller.request_interrupt(Interrupts::TIMER);
    }
    let ints = bus.ppu.ppu_tick();
    request_all(&mut bus.interrupt_controller, &ints);
}

/// Advances the machine by `cpu_m_cycles` machine cycles: each of their T-cycles ticks
/// the timer and the PPU and requests the interrupts they raise; then LY is synced and
/// DMA takes one step. Returns false where the clock cannot go on (see `cycles_spec`).
pub fn emu_cycles(cpu: &mut CPU, ctx: &mut EmuContext, cpu_m_cycles: u8) -> (ok: bool)
    requires
        old(cpu).bus.wf(),
    ensures
        (*final(cpu), final(ctx)@, ok) == cycles_spec(*old(cpu), old(ctx)@, cpu_m_cycles),
        final(cpu).bus.wf(),
{
    let n: u64 = 4 * (cpu_m_cycles as u64);
    if ctx.ticks > u64::MAX - n {
        return false;
    }
    let ghost orig = cpu.bus;
    let ghost orig_ticks = ctx.ticks;
    proof {
        lemma_ticks_run_wf(orig, n as nat);
    }
    let mut i: u64 = 0;
    while i < n
        invariant
            i <= n,
            n == 4 * cpu_m_cycles,
            orig == old(cpu).bus,
            orig_ticks == old(ctx).ticks,
            orig_ticks + n <= u64::MAX,
            ctx.ticks == orig_ticks + i,
            *ctx == (EmuContext { ticks: ctx.ticks, ..*old(ctx) }),
            *cpu == (CPU { bus: cpu.bus, ..*old(cpu) }),
            cpu.bus.wf(),
            ticks_run(orig, n as nat) == ({
                let (b, d) = ticks_run(cpu.bus, (n - i) as nat);
                (b, (d + i) as nat)
            }),
        decreases n - i,
    {
        let p = &cpu.bus.ppu;
        if !(p.line_ticks < u32::MAX && p.ly < 255 && p.current_frame < u32::MAX) {
            proof {
                assert(ticks_run(cpu.bus, (n - i) as nat) == (cpu.bus, 0nat));
            }
            return false;
        }
        ctx.ticks = ctx.ticks + 1;
        bus_tick(&mut cpu.bus);
        i = i + 1;
    }
    cpu.bus.ppu.update_lcd_ly();
    cpu.bus.tick_dma();
    true
}

/// The CPU with a pending EI completed: IME set once the instruction after EI has run.
pub open spec fn ime_stepped(cpu: CPU) -> CPU {
    let ic = cpu.bus.interrupt_controller;
    if ic.enabling_ime {
        CPU {
            bus: BUS {
                interrupt_controller: InterruptController { master_enabled: true, enabling_ime: false, ..ic },
                ..cpu.bus
            },
            ..cpu
        }
    } else {
        cpu
    }
}

/// The instruction that the fetched opcode starts; for the 0xCB prefix the byte after it
/// selects the instruction.
pub open spec fn decoded(cpu: CPU) -> Option<Instruction> {
    if cpu.curr_opcode == 0xCB {
        if cpu.pc < 0xFFFF {
            Some(cb_decode(cpu.read((cpu.pc + 1) as u16)))
        } else {
            None
        }
    } else {
        np_decode(cpu.curr_opcode)
    }
}

/// The bus and serial output after `dbg_update`.
pub open spec fn serial_collected(bus: BUS, msg: Seq<u8>) -> (BUS, Seq<u8>) {
    if bus.read_spec(0xFF02) == 0x81 {
        (bus.written(0xFF02, 0), msg.push(bus.read_spec(0xFF01)))
    } else {
        (bus, msg)
    }
}

/// Reading the opcode at PC, which takes one machine cycle.
pub open spec fn fetch_spec(cpu: CPU, x: EmuView) -> (CPU, EmuView, bool) {
    cycles_spec(CPU { curr_opcode: cpu.read(cpu.pc), ..cpu }, x, 1)
}

/// Execution of a decoded instruction followed by the machine cycles that its stack
/// accesses took.
#[verifier::opaque]
pub open spec fn settle_spec(cpu: CPU, x: EmuView, inst: Instruction) -> (CPU, EmuView, bool) {
    match execute_spec(cpu, inst) {
        None => (cpu, x, false),
        Some((c, next)) => {
            let spent = c.pending_cycles;
            if spent > 255 {
                (CPU { pc: next, ..c }, x, false)
            } else {
                cycles_spec(CPU { pc: next, pending_cycles: 0, ..c }, x, spent as u8)
            }
        },
    }
}

/// A step of a running CPU: fetch, decode, serial collection, execution, then the machine
/// cycles that the instruction's stack accesses took.
pub open spec fn run_spec(cpu: CPU, x: EmuView) -> (CPU, EmuView, bool) {
    let (c1, x1, ok1) = fetch_spec(cpu, x);
    if !ok1 {
        (c1, x1, false)
    } else {
        match decoded(c1) {
            None => (CPU { curr_instruction: None, ..c1 }, x1, false),
            Some(inst) => {
                let (bus2, msg2) = serial_collected(c1.bus, x1.dbg_msg);
                settle_spec(
                    CPU { bus: bus2, curr_instruction: None, ..c1 },
                    EmuView { dbg_msg: msg2, ..x1 },
                    inst,
                )
            },
        }
    }
}

/// A step of a halted CPU: one machine cycle, after which a requested and enabled
/// interrupt ends the halt.
pub open spec fn halt_spec(cpu: CPU, x: EmuView) -> (CPU, EmuView, bool) {
    let (c1, x1, ok1) = cycles_spec(cpu, x, 1);
    let ic = c1.bus.interrupt_controller;
    if !ok1 {
        (c1, x1, false)
    } else if ic.int_flags & ic.ie_register != 0 {
        (CPU { is_halted: false, ..c1 }, x1, true)
    } else {
        (c1, x1, true)
    }
}

/// Interrupt dispatch at the end of a step, where IME is set.
pub open spec fn finish_spec(cpu: CPU, x: EmuView) -> (CPU, EmuView, bool) {
    if cpu.bus.interrupt_controller.master_enabled {
        if can_serve(cpu) {
            (interrupts_handled(cpu), x, true)
        } else {
            (cpu, x, false)
        }
    } else {
        (cpu, x, true)
    }
}

/// One step of the CPU: the state after it and whether the machine can go on.
pub open spec fn step_spec(cpu: CPU, x: EmuView) -> (CPU, EmuView, bool) {
    let c0 = ime_stepped(cpu);
    let (c1, x1, ok1) = if !c0.is_halted {
        run_spec(c0, x)
    } else {
        halt_spec(c0, x)
    };
    if !ok1 {
        (c1, x1, false)
    } else {
        finish_spec(c1, x1)
    }
}

/// EI takes effect one instruction late: EI leaves IME as it was and marks it pending, and
/// the next step sets IME before its instruction runs. DI clears IME and a pending EI.
pub proof fn law_ei_delay(cpu: CPU, inst: Instruction)
    requires
        inst.in_type == InType::IN_EI || inst.in_type == InType::IN_DI,
    ensures
        execute_spec(cpu, inst).is_some(),
        ({
            let ic = execute_spec(cpu, inst).unwrap().0.bus.interrupt_controller;
            &&& inst.in_type == InType::IN_EI ==> ic.master_enabled == cpu.bus.interrupt_controller.master_enabled
                && ic.enabling_ime
                && ime_stepped(execute_spec(cpu, inst).unwrap().0).bus.interrupt_controller.master_enabled
            &&& inst.in_type == InType::IN_DI ==> !ic.master_enabled && !ic.enabling_ime
        }),
{
}

/// A halted CPU runs no instruction: a step only advances the clock, and the CPU stays
/// halted until an interrupt is both requested and enabled (with IME clear, none is
/// served).
pub proof fn law_halted_cpu_waits(cpu: CPU, x: EmuView)
    requires
        cpu.is_halted,
        !cpu.bus.interrupt_controller.master_enabled,
        !cpu.bus.interrupt_controller.enabling_ime,
    ensures
        ({
            let (c, _, ok) = step_spec(cpu, x);
            let ic = c.bus.interrupt_controller;
            ok ==> {
                &&& c.pc == cpu.pc
                &&& c.sp == cpu.sp
                &&& c.registers == cpu.registers
                &&& c.is_halted == (ic.int_flags & ic.ie_register == 0)
            }
        }),
{
    lemma_ticks_run_keeps_ime(cpu.bus, 4);
    reveal(BUS::dma_ticked);
}

/// The clock never changes IME or a pending EI.
proof fn lemma_ticks_run_keeps_ime(bus: BUS, n: nat)
    ensures
        ticks_run(bus, n).0.interrupt_controller.master_enabled == bus.interrupt_controller.master_enabled,
        ticks_run(bus, n).0.interrupt_controller.enabling_ime == bus.interrupt_controller.enabling_ime,
    decreases n,
{
    if n > 0 && bus.ppu.can_tick() {
        lemma_ticks_run_keeps_ime(bus_ticked(bus), (n - 1) as nat);
    }
}

impl CPU {
    fn fetch(&mut self, ctx: &mut EmuContext) -> (ok: bool)
        requires
            old(self).bus.wf(),
        ensures
            (*final(self), final(ctx)@, ok) == fetch_spec(*old(self), old(ctx)@),
            final(self).bus.wf(),
    {
        self.curr_opcode = self.bus.read_byte(self.pc);
        emu_cycles(self, ctx, 1)
    }

    fn decode(&mut self)
        requires
            old(self).bus.wf(),
        ensures
            *final(self) == (CPU { curr_instruction: decoded(*old(self)), ..*old(self) }),
    {
        if self.curr_opcode == 0xCB && self.pc == 0xFFFF {
            self.curr_instruction = None;
        } else {
            self.curr_instruction = Instruction::decode_from_opcode(self.curr_opcode, &self.bus, self.pc);
        }
    }

    fn run_instruction(&mut self, ctx: &mut EmuContext) -> (ok: bool)
        requires
            can_execute(*old(self)),
        ensures
            (*final(self), final(ctx)@, ok) == run_spec(*old(self), old(ctx)@),
            final(self).bus.wf(),
            ok ==> final(self).pending_cycles == 0,
    {
        if !self.fetch(ctx) {
            return false;
        }
        self.decode();
        let instruction = match self.curr_instruction.take() {
            Some(i) => i,
            None => return false,
        };
        dbg_update(&mut self.bus, &mut ctx.dbg_msg);
        self.execute_and_settle(ctx, instruction)
    }

    fn execute_and_settle(&mut self, ctx: &mut EmuContext, instruction: Instruction) -> (ok: bool)
        requires
            can_execute(*old(self)),
        ensures
            (*final(self), final(ctx)@, ok) == settle_spec(*old(self), old(ctx)@, instruction),
            final(self).bus.wf(),
            ok ==> final(self).pending_cycles == 0,
    {
        proof {
            reveal(settle_spec);
        }
        if !self.execute(instruction) {
            return false;
        }
        let spent = self.pending_cycles;
        if spent > 255 {
            return false;
        }
        self.pending_cycles = 0;
        emu_cycles(self, ctx, spent as u8)
    }

    fn wait_halted(&mut self, ctx: &mut EmuContext) -> (ok: bool)
        requires
            old(self).bus.wf(),
        ensures
            (*final(self), final(ctx)@, ok) == halt_spec(*old(self), old(ctx)@),
            final(self).bus.wf(),
            final(self).pending_cycles == old(self).pending_cycles,
    {
        if !emu_cycles(self, ctx, 1) {
            return false;
        }
        let ic = &self.bus.interrupt_controller;
        if (ic.int_flags & ic.ie_register) != 0 {
            self.is_halted = false;
        }
        true
    }

    /// Runs one step: completes a pending EI, then executes the next instruction (or,
    /// halted, waits one machine cycle), then serves an interrupt if IME is set. Returns
    /// false where the machine cannot go on: STOP, a byte that is no instruction, an
    /// operand or stack access off the address space, or a clock that cannot advance.
    pub fn step(&mut self, ctx: &mut EmuContext) -> (ok: bool)
        requires
            can_execute(*old(self)),
        ensures
            (*final(self), final(ctx)@, ok) == step_spec(*old(self), old(ctx)@),
            final(self).bus.wf(),
            ok ==> can_execute(*final(self)),
    {
        self.bus.interrupt_controller.step_ime();
        let ok = if !self.is_halted {
            self.run_instruction(ctx)
        } else {
            self.wait_halted(ctx)
        };
        if !ok {
            return false;
        }
        if self.bus.interrupt_controller.master_enabled {
            if self.bus.interrupt_controller.has_pending() && self.sp <= 1 {
                return false;
            }
            cpu_handle_interrupts(self);
        }
        true
    }
}

/// What the command line asks for: the ROM to run, an instruction budget and debug output.
pub struct EmuArgs {
    pub rom_path: String,
    pub debug_limit: Option<u32>,
    pub debug: bool,
}

/// Why a command line was refused.
#[derive(Copy, Clone, PartialEq, Eq, Structural, Debug)]
pub enum ArgsError {
    /// No argument names a ROM file.
    MissingRom,
}

pub open spec fn is_digit(c: char) -> bool {
    '0' <= c <= '9'
}

/// The number written by the decimal digits `s`.
pub open spec fn digits_value(s: Seq<char>) -> int
    decreases s.len(),
{
    if s.len() == 0 {
        0
    } else {
        digits_value(s.drop_last()) * 10 + (s.last() as int - '0' as int)
    }
}

/// The number written by one or more decimal digits, where it fits a `u32`.
pub open spec fn parsed_digits(d: Seq<char>) -> Option<u32> {
    if d.len() > 0 && (forall|i: int| 0 <= i < d.len() ==> is_digit(d[i])) && digits_value(d) <= u32::MAX {
        Some(digits_value(d) as u32)
    } else {
        None
    }
}

/// A `u32` as std's `str::parse` reads it: an optional '+', then one or more decimal
/// digits, with a value that fits.
pub open spec fn parsed_u32(s: Seq<char>) -> Option<u32> {
    if s.len() > 0 && s[0] == '+' {
        parsed_digits(s.drop_first())
    } else {
        parsed_digits(s)
    }
}

/// The command line from argument `i` on, with what the arguments before it set:
/// "--debug-limit N" sets the budget, "--debug" the debug output, anything else the ROM.
/// A "--debug-limit" with nothing after it sets nothing.
pub open spec fn args_from(
    args: Seq<String>,
    i: int,
    rom: Option<String>,
    limit: Option<u32>,
    debug: bool,
) -> (Option<String>, Option<u32>, bool)
    decreases args.len() - i,
{
    if i < 1 || i >= args.len() {
        (rom, limit, debug)
    } else if args[i]@ == "--debug-limit"@ && i + 1 < args.len() {
        args_from(args, i + 2, rom, parsed_u32(args[i + 1]@), debug)
    } else if args[i]@ == "--debug-limit"@ {
        args_from(args, i + 1, rom, limit, debug)
    } else if args[i]@ == "--debug"@ {
        args_from(args, i + 1, rom, limit, true)
    } else {
        args_from(args, i + 1, Some(args[i]), limit, debug)
    }
}

/// Whether every "--debug-limit" that has an argument after it has a number there (else
/// the command line cannot be read).
pub open spec fn args_ok(args: Seq<String>) -> bool {
    forall|i: int|
        1 <= i < args.len() - 1 && #[trigger] args[i]@ == "--debug-limit"@ ==> parsed_u32(
            args[i + 1]@,
        ).is_some()
}

/// Whether two strings hold the same characters.
fn str_eq(a: &str, b: &str) -> (r: bool)
    ensures
        r == (a@ == b@),
{
    let n = a.unicode_len();
    if n != b.unicode_len() {
        return false;
    }
    let mut i: usize = 0;
    while i < n
        invariant
            i <= n,
            n == a@.len() && n == b@.len(),
            a@.subrange(0, i as int) == b@.subrange(0, i as int),
        decreases n - i,
    {
        if a.get_char(i) != b.get_char(i) {
            proof {
                assert(a@[i as int] != b@[i as int]);
            }
            return false;
        }
        proof {
            assert(a@.subrange(0, i + 1) =~= a@.subrange(0, i as int).push(a@[i as int]));
            assert(b@.subrange(0, i + 1) =~= b@.subrange(0, i as int).push(b@[i as int]));
        }
        i = i + 1;
    }
    proof {
        assert(a@ =~= a@.subrange(0, n as int));
        assert(b@ =~= b@.subrange(0, n as int));
    }
    true
}

/// Reads a `u32` as std's `str::parse` does; `None` where the text is no such number.
pub fn parse_u32(s: &str) -> (r: Option<u32>)
    ensures
        r == parsed_u32(s@),
{
    let n = s.unicode_len();
    let mut i: usize = 0;
    if n > 0 && s.get_char(0) == '+' {
        i = 1;
    }
    let ghost d = if s@.len() > 0 && s@[0] == '+' { s@.drop_first() } else { s@ };
    let start = i;
    if start == n {
        return None;
    }
    let mut value: u64 = 0;
    while i < n
        invariant
            start <= i <= n,
            n == s@.len(),
            start < n,
            d == s@.subrange(start as int, n as int),
            d == (if s@.len() > 0 && s@[0] == '+' { s@.drop_first() } else { s@ }),
            forall|j: int| 0 <= j < i - start ==> is_digit(d[j]),
            value == digits_value(d.subrange(0, i - start)),
            value <= u32::MAX,
        decreases n - i,
    {
        let c = s.get_char(i);
        if !('0' <= c && c <= '9') {
            proof {
                assert(d[i - start] == c);
                assert(!is_digit(d[i - start]));
                assert(!(forall|j: int| 0 <= j < d.len() ==> is_digit(d[j])));
                assert(parsed_u32(s@).is_none());
            }
            return None;
        }
        let digit = (c as u64) - ('0' as u64);
        proof {
            assert(d.subrange(0, i - start + 1).drop_last() =~= d.subrange(0, i - start));
        }
        if value > (0xFFFF_FFFFu64 - digit) / 10 {
            proof {
                assert(d[i - start] == c);
                assert(digits_value(d.subrange(0, i - start + 1)) > u32::MAX);
                if forall|j: int| 0 <= j < d.len() ==> is_digit(d[j]) {
                    lemma_digits_prefix_grows(d, i - start + 1);
                }
                assert(parsed_u32(s@).is_none());
            }
            return None;
        }
        value = value * 10 + digit;
        i = i + 1;
    }
    proof {
        assert(d.subrange(0, n - start) =~= d);
    }
    Some(value as u32)
}

/// Digit strings never get smaller by appending digits.
proof fn lemma_digits_prefix_grows(d: Seq<char>, k: int)
    requires
        0 <= k <= d.len(),
        forall|j: int| 0 <= j < d.len() ==> is_digit(d[j]),
    ensures
        digits_value(d.subrange(0, k)) <= digits_value(d),
    decreases d.len() - k,
{
    if k < d.len() {
        lemma_digits_prefix_grows(d, k + 1);
        assert(d.subrange(0, k + 1).drop_last() =~= d.subrange(0, k));
        lemma_digits_nonneg(d.subrange(0, k));
    } else {
        assert(d.subrange(0, k) =~= d);
    }
}

proof fn lemma_digits_nonneg(d: Seq<char>)
    requires
        forall|j: int| 0 <= j < d.len() ==> is_digit(d[j]),
    ensures
        digits_value(d) >= 0,
    decreases d.len(),
{
    if d.len() > 0 {
        lemma_digits_nonneg(d.drop_last());
    }
}

/// Whether the command line can be read: every "--debug-limit" that has an argument
/// after it has a number there.
pub fn args_valid(args: &Vec<String>) -> (r: bool)
    ensures
        r == args_ok(args@),
{
    let mut i: usize = 1;
    while i < args.len()
        invariant
            1 <= i,
            forall|j: int|
                1 <= j < i && j < args@.len() - 1 && #[trigger] args@[j]@ == "--debug-limit"@
                    ==> parsed_u32(args@[j + 1]@).is_some(),
        decreases args.len() - i,
    {
        if i + 1 < args.len() && str_eq(args[i].as_str(), "--debug-limit") {
            if parse_u32(args[i + 1].as_str()).is_none() {
                return false;
            }
        }
        i = i + 1;
    }
    true
}

/// Reads the command line (the program name first): "--debug-limit N" stops the run
/// after N instructions, "--debug" turns on debug output, and any other argument names
/// the ROM (the last one counts); a "--debug-limit" with nothing after it is passed over.
/// Fails when no ROM is named.
pub fn parse_args(args: &Vec<String>) -> (r: Result<EmuArgs, ArgsError>)
    requires
        args_ok(args@),
    ensures
        ({
            let (rom, limit, debug) = args_from(args@, 1, None, None, false);
            match rom {
                None => r == Err::<EmuArgs, ArgsError>(ArgsError::MissingRom),
                Some(p) => r matches Ok(a) && a.rom_path == p && a.debug_limit == limit && a.debug == debug,
            }
        }),
{
    let mut rom_path: Option<String> = None;
    let mut debug_limit: Option<u32> = None;
    let mut debug = false;
    let mut i: usize = 1;
    while i < args.len()
        invariant
            1 <= i,
            args_ok(args@),
            args_from(args@, i as int, rom_path, debug_limit, debug) == args_from(args@, 1, None, None, false),
        decreases args.len() - i,
    {
        if str_eq(args[i].as_str(), "--debug-limit") {
            if i + 1 < args.len() {
                debug_limit = parse_u32(args[i + 1].as_str());
                i = i + 2;
            } else {
                i = i + 1;
            }
        } else if str_eq(args[i].as_str(), "--debug") {
            debug = true;
            i = i + 1;
        } else {
            rom_path = Some(args[i].clone());
            i = i + 1;
        }
    }
    match rom_path {
        None => Err(ArgsError::MissingRom),
        Some(p) => Ok(EmuArgs { rom_path: p, debug_limit, debug }),
    }
}

} // verus!
