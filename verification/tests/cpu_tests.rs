use gameboy::hdw::bus::BUS;
use gameboy::hdw::cart::{CartError, Cartridge};
use gameboy::hdw::cpu::CPU;
use gameboy::hdw::dma::DMA;
use gameboy::hdw::emu::{emu_cycles, is_debug_enabled, EmuContext};
use gameboy::hdw::cpu_ops::{op_call, op_jp, op_ret, op_reti, op_rst};
use gameboy::hdw::instructions::{JumpTest, RestTarget};
use gameboy::hdw::interrupts::Interrupts;

/// A 32 KiB ROM image with `program` at 0x0100 and a valid header checksum.
fn rom_with(program: &[u8], cart_type: u8, ram_code: u8) -> Vec<u8> {
    let mut rom = vec![0u8; 0x8000];
    for (i, b) in program.iter().enumerate() {
        rom[0x100 + i] = *b;
    }
    rom[0x134] = b'T';
    rom[0x147] = cart_type;
    rom[0x148] = 0;
    rom[0x149] = ram_code;
    let mut x: u8 = 0;
    for a in 0x134..=0x14C {
        x = x.wrapping_sub(rom[a]).wrapping_sub(1);
    }
    rom[0x14D] = x;
    rom
}

fn machine(program: &[u8]) -> (CPU, EmuContext) {
    let mut cart = Cartridge::new();
    let r = cart.load_cart(String::from("test.gb"), rom_with(program, 0, 0));
    assert!(r.is_ok());
    let mut bus = BUS::new();
    bus.cart = cart;
    (CPU::new(bus), EmuContext::new(None, false))
}

fn run(cpu: &mut CPU, ctx: &mut EmuContext, steps: usize) {
    for _ in 0..steps {
        assert!(cpu.step(ctx));
    }
}

#[test]
fn power_on_state() {
    let (cpu, _) = machine(&[]);
    assert_eq!(cpu.pc, 0x0100);
    assert_eq!(cpu.sp, 0xFFFE);
    assert_eq!(cpu.registers.get_af(), 0x01B0);
    assert_eq!(cpu.registers.get_bc(), 0x0013);
    assert_eq!(cpu.registers.get_de(), 0x00D8);
    assert_eq!(cpu.registers.get_hl(), 0x014D);
    assert_eq!(cpu.bus.timer.div, 0xABCC);
}

#[test]
fn load_and_increment() {
    // LD A,0x42 ; INC A
    let (mut cpu, mut ctx) = machine(&[0x3E, 0x42, 0x3C]);
    run(&mut cpu, &mut ctx, 2);
    assert_eq!(cpu.registers.a, 0x43);
    assert_eq!(cpu.pc, 0x0103);
    assert!(!cpu.registers.f.zero);
    assert!(!cpu.registers.f.subtract);
    assert!(!cpu.registers.f.half_carry);
    // INC leaves C as it was (set at power-on)
    assert!(cpu.registers.f.carry);
}

#[test]
fn increment_half_carry_and_zero() {
    // LD A,0x0F ; INC A ; LD A,0xFF ; INC A
    let (mut cpu, mut ctx) = machine(&[0x3E, 0x0F, 0x3C, 0x3E, 0xFF, 0x3C]);
    run(&mut cpu, &mut ctx, 2);
    assert_eq!(cpu.registers.a, 0x10);
    assert!(cpu.registers.f.half_carry);
    run(&mut cpu, &mut ctx, 2);
    assert_eq!(cpu.registers.a, 0x00);
    assert!(cpu.registers.f.zero);
}

#[test]
fn xor_a_clears() {
    let (mut cpu, mut ctx) = machine(&[0xAF]);
    run(&mut cpu, &mut ctx, 1);
    assert_eq!(cpu.registers.a, 0);
    assert!(cpu.registers.f.zero);
    assert!(!cpu.registers.f.carry);
    assert_eq!(cpu.pc, 0x0101);
}

#[test]
fn push_then_pop_restores_pair() {
    // LD BC,0x1234 ; PUSH BC ; POP DE
    let (mut cpu, mut ctx) = machine(&[0x01, 0x34, 0x12, 0xC5, 0xD1]);
    run(&mut cpu, &mut ctx, 2);
    assert_eq!(cpu.sp, 0xFFFC);
    assert_eq!(cpu.bus.read_byte(0xFFFD), 0x12);
    assert_eq!(cpu.bus.read_byte(0xFFFC), 0x34);
    run(&mut cpu, &mut ctx, 1);
    assert_eq!(cpu.registers.get_de(), 0x1234);
    assert_eq!(cpu.sp, 0xFFFE);
    assert_eq!(cpu.pc, 0x0105);
}

#[test]
fn pop_af_masks_low_nibble() {
    // LD BC,0x12FF ; PUSH BC ; POP AF
    let (mut cpu, mut ctx) = machine(&[0x01, 0xFF, 0x12, 0xC5, 0xF1]);
    run(&mut cpu, &mut ctx, 3);
    assert_eq!(cpu.registers.a, 0x12);
    assert_eq!(cpu.registers.f.to_byte(), 0xF0);
    assert_eq!(cpu.registers.get_af(), 0x12F0);
}

#[test]
fn call_then_ret() {
    let mut program = vec![0u8; 0x110];
    // 0x0100: CALL 0x0200
    program[0] = 0xCD;
    program[1] = 0x00;
    program[2] = 0x02;
    // 0x0200: RET
    program[0x100] = 0xC9;
    let (mut cpu, mut ctx) = machine(&program);
    run(&mut cpu, &mut ctx, 1);
    assert_eq!(cpu.pc, 0x0200);
    assert_eq!(cpu.sp, 0xFFFC);
    assert_eq!(cpu.bus.read_byte(0xFFFC), 0x03);
    assert_eq!(cpu.bus.read_byte(0xFFFD), 0x01);
    run(&mut cpu, &mut ctx, 1);
    assert_eq!(cpu.pc, 0x0103);
    assert_eq!(cpu.sp, 0xFFFE);
}

#[test]
fn relative_jump_backwards() {
    // NOP ; JR -3 (back to 0x0100)
    let (mut cpu, mut ctx) = machine(&[0x00, 0x18, 0xFD]);
    run(&mut cpu, &mut ctx, 2);
    assert_eq!(cpu.pc, 0x0100);
}

#[test]
fn conditional_jump_not_taken() {
    // XOR A (Z set) ; JP NZ,0x0200 ; not taken, falls through to 0x0104
    let (mut cpu, mut ctx) = machine(&[0xAF, 0xC2, 0x00, 0x02]);
    run(&mut cpu, &mut ctx, 2);
    assert_eq!(cpu.pc, 0x0104);
}

#[test]
fn add_then_daa() {
    // LD A,0x15 ; ADD A,0x27 ; DAA
    let (mut cpu, mut ctx) = machine(&[0x3E, 0x15, 0xC6, 0x27, 0x27]);
    run(&mut cpu, &mut ctx, 2);
    assert_eq!(cpu.registers.a, 0x3C);
    run(&mut cpu, &mut ctx, 1);
    assert_eq!(cpu.registers.a, 0x42);
    assert!(!cpu.registers.f.carry);
    assert!(!cpu.registers.f.zero);
}

#[test]
fn sub_sets_carry_on_borrow() {
    // LD A,0x10 ; SUB A,0x20 (D6 20)
    let (mut cpu, mut ctx) = machine(&[0x3E, 0x10, 0xD6, 0x20]);
    run(&mut cpu, &mut ctx, 2);
    assert_eq!(cpu.registers.a, 0xF0);
    assert!(cpu.registers.f.subtract);
    assert!(cpu.registers.f.carry);
    assert!(!cpu.registers.f.zero);
}

#[test]
fn compare_equal_sets_zero() {
    // LD A,0x33 ; CP A,0x33 (FE 33)
    let (mut cpu, mut ctx) = machine(&[0x3E, 0x33, 0xFE, 0x33]);
    run(&mut cpu, &mut ctx, 2);
    assert_eq!(cpu.registers.a, 0x33);
    assert!(cpu.registers.f.zero);
    assert!(cpu.registers.f.subtract);
    assert_eq!(cpu.pc, 0x0104);
}

#[test]
fn cb_bit_res_set_swap() {
    // LD B,0x80 ; BIT 7,B ; RES 7,B ; SET 0,B ; LD A,0x12 ; SWAP A
    let (mut cpu, mut ctx) = machine(&[
        0x06, 0x80, 0xCB, 0x78, 0xCB, 0xB8, 0xCB, 0xC0, 0x3E, 0x12, 0xCB, 0x37,
    ]);
    run(&mut cpu, &mut ctx, 2);
    assert!(!cpu.registers.f.zero);
    assert!(cpu.registers.f.half_carry);
    run(&mut cpu, &mut ctx, 1);
    assert_eq!(cpu.registers.b, 0x00);
    run(&mut cpu, &mut ctx, 1);
    assert_eq!(cpu.registers.b, 0x01);
    run(&mut cpu, &mut ctx, 2);
    assert_eq!(cpu.registers.a, 0x21);
    assert_eq!(cpu.pc, 0x010C);
}

#[test]
fn rotate_through_carry() {
    // LD A,0x81 ; RLCA -> 0x03, C set ; RRA -> 0x81, C set
    let (mut cpu, mut ctx) = machine(&[0x3E, 0x81, 0x07, 0x1F]);
    run(&mut cpu, &mut ctx, 2);
    assert_eq!(cpu.registers.a, 0x03);
    assert!(cpu.registers.f.carry);
    assert!(!cpu.registers.f.zero);
    run(&mut cpu, &mut ctx, 1);
    assert_eq!(cpu.registers.a, 0x81);
    assert!(cpu.registers.f.carry);
}

#[test]
fn store_through_hl_and_load_back() {
    // LD HL,0xC000 ; LD A,0x5A ; LD (HL),A ; LD B,(HL)
    let (mut cpu, mut ctx) = machine(&[0x21, 0x00, 0xC0, 0x3E, 0x5A, 0x77, 0x46]);
    run(&mut cpu, &mut ctx, 4);
    assert_eq!(cpu.bus.read_byte(0xC000), 0x5A);
    assert_eq!(cpu.registers.b, 0x5A);
    // the echo area mirrors work RAM
    assert_eq!(cpu.bus.read_byte(0xE000), 0x5A);
}

#[test]
fn illegal_opcode_stops() {
    let (mut cpu, mut ctx) = machine(&[0xD3]);
    assert!(!cpu.step(&mut ctx));
}

#[test]
fn stop_instruction_stops() {
    let (mut cpu, mut ctx) = machine(&[0x10, 0x00]);
    assert!(!cpu.step(&mut ctx));
}

#[test]
fn ei_takes_effect_after_next_instruction() {
    // EI ; NOP
    let (mut cpu, mut ctx) = machine(&[0xFB, 0x00]);
    run(&mut cpu, &mut ctx, 1);
    assert!(!cpu.bus.interrupt_controller.master_enabled);
    assert!(cpu.bus.interrupt_controller.enabling_ime);
    run(&mut cpu, &mut ctx, 1);
    assert!(cpu.bus.interrupt_controller.master_enabled);
}

#[test]
fn halt_woken_by_timer_interrupt() {
    // EI ; HALT
    let (mut cpu, mut ctx) = machine(&[0xFB, 0x76]);
    cpu.set_ie_register(Interrupts::TIMER.bit());
    run(&mut cpu, &mut ctx, 2);
    assert!(cpu.is_halted);
    assert_eq!(cpu.pc, 0x0102);
    run(&mut cpu, &mut ctx, 1);
    assert!(cpu.is_halted);
    cpu.cpu_request_interrupt(Interrupts::TIMER);
    run(&mut cpu, &mut ctx, 1);
    assert!(!cpu.is_halted);
    assert_eq!(cpu.pc, 0x0050);
    assert!(!cpu.bus.interrupt_controller.master_enabled);
    assert_eq!(cpu.bus.interrupt_controller.int_flags & 0x04, 0);
    assert_eq!(cpu.sp, 0xFFFC);
    assert_eq!(cpu.bus.read_byte(0xFFFC), 0x02);
    assert_eq!(cpu.bus.read_byte(0xFFFD), 0x01);
}

#[test]
fn interrupt_priority_vblank_first() {
    // EI ; NOP ; NOP
    let (mut cpu, mut ctx) = machine(&[0xFB, 0x00, 0x00]);
    cpu.set_ie_register(0x1F);
    cpu.cpu_request_interrupt(Interrupts::JOYPAD);
    cpu.cpu_request_interrupt(Interrupts::VBLANK);
    run(&mut cpu, &mut ctx, 2);
    assert_eq!(cpu.pc, 0x0040);
    assert_eq!(cpu.bus.interrupt_controller.int_flags & 0x1F, 0x10);
}

#[test]
fn step_counts_four_ticks_per_machine_cycle() {
    // NOP takes one machine cycle; PUSH BC takes the fetch and two stack cycles
    let (mut cpu, mut ctx) = machine(&[0x00, 0xC5]);
    run(&mut cpu, &mut ctx, 1);
    assert_eq!(ctx.ticks, 4);
    run(&mut cpu, &mut ctx, 1);
    assert_eq!(ctx.ticks, 16);
    assert_eq!(cpu.pending_cycles, 0);
}

#[test]
fn emu_cycles_advances_timer_and_ppu() {
    let (mut cpu, mut ctx) = machine(&[]);
    let div = cpu.bus.timer.div;
    assert!(emu_cycles(&mut cpu, &mut ctx, 20));
    assert_eq!(ctx.ticks, 80);
    assert_eq!(cpu.bus.timer.div, div.wrapping_add(80));
    assert_eq!(cpu.bus.ppu.line_ticks, 80);
}

#[test]
fn serial_output_collected() {
    // LD A,'O' ; LDH (0x01),A ; LD A,0x81 ; LDH (0x02),A ; NOP
    let (mut cpu, mut ctx) = machine(&[0x3E, b'O', 0xE0, 0x01, 0x3E, 0x81, 0xE0, 0x02, 0x00]);
    run(&mut cpu, &mut ctx, 5);
    assert_eq!(ctx.dbg_msg, vec![b'O']);
    assert_eq!(cpu.bus.read_byte(0xFF02), 0);
}

#[test]
fn checksum_failure_reported() {
    let mut rom = rom_with(&[], 0, 0);
    let good = rom[0x14D];
    rom[0x14D] = good.wrapping_add(1);
    let mut cart = Cartridge::new();
    let r = cart.load_cart(String::from("bad.gb"), rom);
    assert_eq!(r, Err(CartError::ChecksumFailed { computed: good, expected: good.wrapping_add(1) }));
    // the image stays installed
    assert_eq!(cart.read_byte(0x0134), b'T');
}

#[test]
fn mbc1_rom_bank_switch() {
    let mut rom = vec![0u8; 0x10000];
    rom[0x147] = 1;
    rom[0x148] = 1;
    rom[0x8000] = 0xAB;
    rom[0x4000] = 0xCD;
    let mut x: u8 = 0;
    for a in 0x134..=0x14C {
        x = x.wrapping_sub(rom[a]).wrapping_sub(1);
    }
    rom[0x14D] = x;
    let mut cart = Cartridge::new();
    assert!(cart.load_cart(String::from("mbc1.gb"), rom).is_ok());
    assert_eq!(cart.read_byte(0x4000), 0xCD);
    cart.write_byte(0x2000, 2);
    assert_eq!(cart.read_byte(0x4000), 0xAB);
    // bank 0 selects bank 1
    cart.write_byte(0x2000, 0);
    assert_eq!(cart.read_byte(0x4000), 0xCD);
}

#[test]
fn battery_ram_round_trip() {
    let rom = rom_with(&[], 0x03, 0x02);
    let mut cart = Cartridge::new();
    assert!(cart.load_cart(String::from("save.gb"), rom).is_ok());
    assert!(cart.cart_battery());
    cart.write_byte(0x0000, 0x0A);
    cart.write_byte(0xA010, 0x77);
    assert_eq!(cart.read_byte(0xA010), 0x77);
    assert!(cart.cart_needs_save());
    let saved = cart.cart_save_battery(0).unwrap();
    assert_eq!(saved.len(), 0x2000);
    assert_eq!(saved[0x10], 0x77);
    let mut fresh = Cartridge::new();
    assert!(fresh.load_cart(String::from("save.gb"), rom_with(&[], 0x03, 0x02)).is_ok());
    fresh.cart_load_battery(&saved);
    fresh.write_byte(0x0000, 0x0A);
    assert_eq!(fresh.read_byte(0xA010), 0x77);
    assert!(cart.cart_save_battery(1).is_none());
}

#[test]
fn ram_disabled_reads_ff() {
    let rom = rom_with(&[], 0x03, 0x02);
    let mut cart = Cartridge::new();
    assert!(cart.load_cart(String::from("save.gb"), rom).is_ok());
    cart.write_byte(0xA000, 0x12);
    assert_eq!(cart.read_byte(0xA000), 0xFF);
}

#[test]
fn debug_limit_stops_run() {
    let mut ctx = EmuContext::new(Some(2), false);
    assert!(ctx.count_instruction(true));
    assert!(!ctx.count_instruction(true));
    assert!(!ctx.running);
    assert_eq!(ctx.instruction_count, 2);
    let mut other = EmuContext::new(None, true);
    assert!(is_debug_enabled(&other));
    assert!(!other.count_instruction(false));
    assert!(!other.running);
}

#[test]
fn every_decoded_instruction_runs() {
    let illegal = [0xD3u8, 0xDB, 0xDD, 0xE3, 0xE4, 0xEB, 0xEC, 0xED, 0xF4, 0xFC, 0xFD];
    for op in 0..=255u8 {
        let (mut cpu, mut ctx) = machine(&[op, 0x00, 0x00]);
        let decoded = gameboy::hdw::instructions::Instruction::decode_from_opcode(op, &cpu.bus, 0x100);
        assert_eq!(decoded.is_none(), illegal.contains(&op), "opcode {:02X}", op);
        if illegal.contains(&op) || op == 0x10 {
            continue;
        }
        cpu.sp = 0xFFF0;
        assert!(cpu.step(&mut ctx), "opcode {:02X}", op);
    }
}

#[test]
fn every_prefixed_instruction_runs() {
    for op in 0..=255u8 {
        let (mut cpu, mut ctx) = machine(&[0xCB, op]);
        assert!(cpu.step(&mut ctx), "CB {:02X}", op);
        assert_eq!(cpu.pc, 0x0102);
    }
}

#[test]
fn daa_decimal_carry() {
    // LD A,0x99 ; ADD A,0x01 ; DAA
    let (mut cpu, mut ctx) = machine(&[0x3E, 0x99, 0xC6, 0x01, 0x27]);
    run(&mut cpu, &mut ctx, 3);
    assert_eq!(cpu.registers.a, 0x00);
    assert!(cpu.registers.f.carry);
    assert!(cpu.registers.f.zero);
}

#[test]
fn daa_after_subtraction() {
    // LD A,0x10 ; SUB A,0x01 ; DAA -> 09 ; LD A,0x00 ; SUB A,0x01 ; DAA -> 99, C
    let (mut cpu, mut ctx) = machine(&[0x3E, 0x10, 0xD6, 0x01, 0x27, 0x3E, 0x00, 0xD6, 0x01, 0x27]);
    run(&mut cpu, &mut ctx, 3);
    assert_eq!(cpu.registers.a, 0x09);
    assert!(!cpu.registers.f.carry);
    run(&mut cpu, &mut ctx, 3);
    assert_eq!(cpu.registers.a, 0x99);
    assert!(cpu.registers.f.carry);
}

#[test]
fn bank_writes_leave_fixed_bank() {
    let mut rom = vec![0u8; 0x10000];
    rom[0x147] = 1;
    rom[0x148] = 1;
    rom[0x0100] = 0x5A;
    let mut x: u8 = 0;
    for a in 0x134..=0x14C {
        x = x.wrapping_sub(rom[a]).wrapping_sub(1);
    }
    rom[0x14D] = x;
    let mut cart = Cartridge::new();
    assert!(cart.load_cart(String::from("mbc1.gb"), rom).is_ok());
    for (addr, v) in [(0x2000u16, 3u8), (0x4000, 1), (0x6000, 1), (0x0000, 0x0A)] {
        cart.write_byte(addr, v);
        assert_eq!(cart.read_byte(0x0100), 0x5A);
    }
}

#[test]
fn oam_dma_copies_160_bytes() {
    let (mut cpu, mut ctx) = machine(&[]);
    for i in 0..0xA0u16 {
        cpu.bus.write_byte(0xC000 + i, (i as u8) ^ 0x5A);
    }
    cpu.bus.write_byte(0xFF46, 0xC0);
    assert!(cpu.bus.dma.active);
    // OAM reads 0xFF while the transfer runs
    assert_eq!(cpu.bus.read_byte(0xFE00), 0xFF);
    for _ in 0..(2 + 0xA0) {
        assert!(emu_cycles(&mut cpu, &mut ctx, 1));
    }
    assert!(!cpu.bus.dma.active);
    for i in 0..0xA0u16 {
        assert_eq!(cpu.bus.read_byte(0xFE00 + i), (i as u8) ^ 0x5A);
    }
}

#[test]
fn joypad_through_bus() {
    let (mut cpu, _) = machine(&[]);
    cpu.bus.gamepad.state.a = true;
    cpu.bus.write_byte(0xFF00, 0x10);
    assert_eq!(cpu.bus.read_byte(0xFF00), 0xCE);
    cpu.bus.write_byte(0xFF00, 0x20);
    cpu.bus.gamepad.state.left = true;
    assert_eq!(cpu.bus.read_byte(0xFF00), 0xCD);
}

#[test]
fn di_cancels_pending_ei() {
    // EI ; DI ; NOP
    let (mut cpu, mut ctx) = machine(&[0xFB, 0xF3, 0x00]);
    run(&mut cpu, &mut ctx, 2);
    assert!(!cpu.bus.interrupt_controller.enabling_ime);
    run(&mut cpu, &mut ctx, 1);
    assert!(!cpu.bus.interrupt_controller.master_enabled);
}

#[test]
fn halt_without_ime_wakes_without_dispatch() {
    // HALT ; INC A
    let (mut cpu, mut ctx) = machine(&[0x76, 0x3C]);
    cpu.set_ie_register(Interrupts::SERIAL.bit());
    run(&mut cpu, &mut ctx, 3);
    assert!(cpu.is_halted);
    assert_eq!(cpu.pc, 0x0101);
    assert_eq!(cpu.registers.a, 0x01);
    cpu.cpu_request_interrupt(Interrupts::SERIAL);
    run(&mut cpu, &mut ctx, 1);
    assert!(!cpu.is_halted);
    assert_eq!(cpu.pc, 0x0101);
    run(&mut cpu, &mut ctx, 1);
    assert_eq!(cpu.registers.a, 0x02);
    assert_eq!(cpu.pc, 0x0102);
}

#[test]
fn sbc_flags_count_the_carry() {
    // SCF ; LD A,0x10 ; LD B,0x00 ; SBC A,B  -> 0x0F, H set (borrow from the carry-in)
    let (mut cpu, mut ctx) = machine(&[0x37, 0x3E, 0x10, 0x06, 0x00, 0x98]);
    run(&mut cpu, &mut ctx, 4);
    assert_eq!(cpu.registers.a, 0x0F);
    assert!(cpu.registers.f.half_carry);
    assert!(!cpu.registers.f.carry);
    assert!(cpu.registers.f.subtract);
    // SCF ; LD A,0x00 ; SBC A,0x00 (DE 00) -> 0xFF, C and H set
    let (mut cpu, mut ctx) = machine(&[0x37, 0x3E, 0x00, 0xDE, 0x00]);
    run(&mut cpu, &mut ctx, 3);
    assert_eq!(cpu.registers.a, 0xFF);
    assert!(cpu.registers.f.carry);
    assert!(cpu.registers.f.half_carry);
}

#[test]
fn adc_flags_count_the_carry() {
    // SCF ; LD A,0x0F ; ADC A,0x00 (CE 00) -> 0x10, H set
    let (mut cpu, mut ctx) = machine(&[0x37, 0x3E, 0x0F, 0xCE, 0x00]);
    run(&mut cpu, &mut ctx, 3);
    assert_eq!(cpu.registers.a, 0x10);
    assert!(cpu.registers.f.half_carry);
    assert!(!cpu.registers.f.carry);
    // SCF ; LD A,0xFF ; ADC A,0xFF -> 0xFF, C and H set
    let (mut cpu, mut ctx) = machine(&[0x37, 0x3E, 0xFF, 0xCE, 0xFF]);
    run(&mut cpu, &mut ctx, 3);
    assert_eq!(cpu.registers.a, 0xFF);
    assert!(cpu.registers.f.carry);
    assert!(cpu.registers.f.half_carry);
    assert!(!cpu.registers.f.zero);
}

#[test]
fn mbc1_bank_number_masked_before_zero_check() {
    let mut rom = vec![0u8; 0x10000];
    rom[0x147] = 1;
    rom[0x148] = 1;
    rom[0x4000] = 0xCD;
    let mut x: u8 = 0;
    for a in 0x134..=0x14C {
        x = x.wrapping_sub(rom[a]).wrapping_sub(1);
    }
    rom[0x14D] = x;
    let mut cart = Cartridge::new();
    assert!(cart.load_cart(String::from("mbc1.gb"), rom).is_ok());
    for v in [0x20u8, 0x40, 0x60] {
        cart.write_byte(0x2000, v);
        assert_eq!(cart.rom_bank_value, 1);
        assert_eq!(cart.read_byte(0x4000), 0xCD);
    }
}

#[test]
fn stack_in_cartridge_ram() {
    // LD SP,0xA100 ; LD BC,0xBEEF ; PUSH BC ; POP DE
    let rom = rom_with(&[0x31, 0x00, 0xA1, 0x01, 0xEF, 0xBE, 0xC5, 0xD1], 0x03, 0x02);
    let mut cart = Cartridge::new();
    assert!(cart.load_cart(String::from("ram.gb"), rom).is_ok());
    cart.write_byte(0x0000, 0x0A);
    let mut bus = BUS::new();
    bus.cart = cart;
    let mut cpu = CPU::new(bus);
    let mut ctx = EmuContext::new(None, false);
    run(&mut cpu, &mut ctx, 4);
    assert_eq!(cpu.registers.get_de(), 0xBEEF);
    assert_eq!(cpu.sp, 0xA100);
    assert_eq!(cpu.bus.read_byte(0xA0FF), 0xBE);
}

#[test]
fn taken_return_sets_pc() {
    let (mut cpu, _) = machine(&[]);
    cpu.sp = 0xC000;
    cpu.bus.write_byte(0xC000, 0x34);
    cpu.bus.write_byte(0xC001, 0x12);
    cpu.registers.f.zero = true;
    // RET NZ is not taken: PC and SP stay, the next PC is past the instruction
    assert_eq!(op_ret(&mut cpu, JumpTest::NotZero), 0x0101);
    assert_eq!(cpu.pc, 0x0100);
    assert_eq!(cpu.sp, 0xC000);
    // RET Z is taken: the popped address is stored in PC and returned
    assert_eq!(op_ret(&mut cpu, JumpTest::Zero), 0x1234);
    assert_eq!(cpu.pc, 0x1234);
    assert_eq!(cpu.sp, 0xC002);
}

#[test]
fn reti_sets_pc_and_ime() {
    let (mut cpu, _) = machine(&[]);
    cpu.sp = 0xC000;
    cpu.bus.write_byte(0xC000, 0x50);
    cpu.bus.write_byte(0xC001, 0x02);
    assert_eq!(op_reti(&mut cpu), 0x0250);
    assert_eq!(cpu.pc, 0x0250);
    assert_eq!(cpu.sp, 0xC002);
    assert!(cpu.bus.interrupt_controller.master_enabled);
}

#[test]
fn call_jump_and_restart_set_pc() {
    // CALL 0x2345 at 0x0100
    let (mut cpu, _) = machine(&[0xCD, 0x45, 0x23]);
    cpu.sp = 0xC010;
    assert_eq!(op_call(&mut cpu, JumpTest::Always), 0x2345);
    assert_eq!(cpu.pc, 0x2345);
    assert_eq!(cpu.sp, 0xC00E);
    assert_eq!(cpu.bus.read_byte(0xC00E), 0x03);
    assert_eq!(cpu.bus.read_byte(0xC00F), 0x01);

    // JP 0x0456 at 0x0100, taken and not taken
    let (mut cpu, _) = machine(&[0xC3, 0x56, 0x04]);
    cpu.registers.f.carry = false;
    assert_eq!(op_jp(&mut cpu, JumpTest::Carry), 0x0103);
    assert_eq!(cpu.pc, 0x0100);
    assert_eq!(op_jp(&mut cpu, JumpTest::NotCarry), 0x0456);
    assert_eq!(cpu.pc, 0x0456);
    cpu.registers.set_hl(0x7777);
    assert_eq!(op_jp(&mut cpu, JumpTest::HL), 0x7777);
    assert_eq!(cpu.pc, 0x7777);

    // RST 0x28 at 0x0100
    let (mut cpu, _) = machine(&[]);
    cpu.sp = 0xC010;
    assert_eq!(op_rst(&mut cpu, RestTarget::Five), 0x0028);
    assert_eq!(cpu.pc, 0x0028);
    assert_eq!(cpu.bus.read_byte(0xC00E), 0x01);
    assert_eq!(cpu.bus.read_byte(0xC00F), 0x01);
}

#[test]
fn dma_tick_results_and_own_page() {
    let (cpu, _) = machine(&[]);
    let mut bus = cpu.bus;
    for i in 0..0xA0u16 {
        bus.write_byte(0xFE00 + i, (i as u8).wrapping_mul(3));
    }
    let mut d = DMA::new();
    d.dma_start(0xFE);
    let mut results = Vec::new();
    for _ in 0..165 {
        results.push(d.dma_tick(&mut bus));
    }
    // two ticks of delay, then 159 bytes with more to come, the last byte, and idle calls
    assert!(!results[0] && !results[1]);
    assert!(results[2..161].iter().all(|r| *r));
    assert!(results[161..].iter().all(|r| !*r));
    assert!(!d.dma_transferring());
    // copying OAM onto itself leaves it as it was
    for i in 0..0xA0u16 {
        assert_eq!(bus.read_byte(0xFE00 + i), (i as u8).wrapping_mul(3));
    }
}
