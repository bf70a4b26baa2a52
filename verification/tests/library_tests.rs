use gameboy::hdw::bus::BUS;
use gameboy::hdw::cart::CartridgeHeader;
use gameboy::hdw::emu::{args_valid, emu_cycles, parse_args, parse_u32, ArgsError, EmuContext};
use gameboy::hdw::gamepad::GamePad;
use gameboy::hdw::cpu::CPU;
use gameboy::hdw::cpu_ops::{op_ld, op_sub, op_xor};
use gameboy::hdw::instructions::{HLTarget, InType, Instruction, LoadType, OPTarget};
use gameboy::hdw::interrupts::{InterruptController, Interrupts};
use gameboy::hdw::lcd::{LcdMode, LCD};
use gameboy::hdw::ppu_pipeline::PixelFIFO;
use gameboy::hdw::registers::{make_word, split_word, FlagsRegister, Registers};
use gameboy::hdw::timer::Timer;
use gameboy::hdw::ui::{
    argb_components, frame_cell, frame_index, glyph_cells, header_glyph, tile_cell, tile_color, tile_origin,
    tile_pixel, tile_row_addresses, FpsCounter,
};
use gameboy::menu::game_scanner::GameScanner;
use gameboy::menu::menu_renderer::{Glyph, MenuRenderer};
use gameboy::menu::menu_state::{GameInfo, MenuContext, MenuState};

fn strings(v: &[&str]) -> Vec<String> {
    v.iter().map(|s| s.to_string()).collect()
}

#[test]
fn args_rom_only() {
    let a = parse_args(&strings(&["gameboy", "tetris.gb"])).ok().unwrap();
    assert_eq!(a.rom_path, "tetris.gb");
    assert_eq!(a.debug_limit, None);
    assert!(!a.debug);
}

#[test]
fn args_with_flags() {
    let args = strings(&["gameboy", "--debug-limit", "100", "--debug", "cpu_instrs.gb"]);
    assert!(args_valid(&args));
    let a = parse_args(&args).ok().unwrap();
    assert_eq!(a.rom_path, "cpu_instrs.gb");
    assert_eq!(a.debug_limit, Some(100));
    assert!(a.debug);
}

#[test]
fn args_missing_rom() {
    let r = parse_args(&strings(&["gameboy", "--debug"]));
    assert!(matches!(r, Err(ArgsError::MissingRom)));
}

#[test]
fn args_invalid_limit() {
    assert!(!args_valid(&strings(&["gameboy", "--debug-limit", "ten", "x.gb"])));
    assert!(!args_valid(&strings(&["gameboy", "x.gb", "--debug-limit", "ten"])));
    assert!(args_valid(&strings(&["gameboy", "x.gb"])));
}

#[test]
fn parse_u32_like_std() {
    for s in ["0", "42", "+42", "4294967295", "4294967296", "", "+", "12a", "-1", "007"] {
        assert_eq!(parse_u32(s), s.parse::<u32>().ok(), "{}", s);
    }
}

#[test]
fn image_name_cleaning() {
    assert_eq!(MenuRenderer::clean_name_for_image("Pokemon Red (USA).gb"), "pokemon_red__usa__gb");
    assert_eq!(MenuRenderer::clean_name_for_image("__Tetris__"), "tetris");
    assert_eq!(MenuRenderer::clean_name_for_image("!!!"), "");
    assert_eq!(MenuRenderer::clean_name_for_image("Zelda2"), "zelda2");
}

#[test]
fn menu_font() {
    assert_eq!(MenuRenderer::glyph('a'), MenuRenderer::glyph('A'));
    assert_eq!(MenuRenderer::glyph(' '), Glyph::Blank);
    assert_eq!(MenuRenderer::glyph('#'), Glyph::Block);
    assert_eq!(MenuRenderer::glyph('A'), Glyph::Rows([0x0E, 0x11, 0x11, 0x1F, 0x11, 0x11, 0x11]));
    assert_eq!(MenuRenderer::glyph('~'), Glyph::Rows([0x1F, 0x11, 0x11, 0x11, 0x11, 0x11, 0x1F]));
}

#[test]
fn header_font() {
    assert_eq!(header_glyph('e'), header_glyph('E'));
    assert_eq!(header_glyph(' '), [0; 7]);
    assert_eq!(header_glyph('1'), [0x04, 0x0C, 0x04, 0x04, 0x04, 0x04, 0x0E]);
    assert_eq!(header_glyph('Q'), [0x0E, 0x11, 0x11, 0x11, 0x11, 0x11, 0x0E]);
}

#[test]
fn tile_pixels_and_colors() {
    assert_eq!(tile_pixel(0x80, 0x00, 7), 2);
    assert_eq!(tile_pixel(0x80, 0x80, 7), 3);
    assert_eq!(tile_pixel(0x00, 0x01, 0), 1);
    assert_eq!(tile_pixel(0x7F, 0x7F, 7), 0);
    assert_eq!(tile_color(0), 0xFFFFFFFF);
    assert_eq!(tile_color(3), 0xFF000000);
    assert_eq!(argb_components(0xFF112233), (0x11, 0x22, 0x33, 0xFF));
}

#[test]
fn fps_counter() {
    let mut f = FpsCounter::new(1000);
    f.update_fps(1500);
    f.update_fps(1900);
    assert_eq!(f.fps_counter, 2);
    f.update_fps(2001);
    assert_eq!(f.fps_display, 2);
    assert_eq!(f.fps_counter, 0);
    assert_eq!(f.fps_timer, 2001);
}

#[test]
fn header_lookups() {
    let mut h = CartridgeHeader::new();
    h.cart_type = 0x01;
    h.old_lic_code = 0x01;
    assert_eq!(h.cart_type_lookup(), Some("MBC1"));
    assert_eq!(h.old_license_lookup(), Some("Nintendo"));
    assert_eq!(h.new_license_lookup(), Some("Nintendo Research & Development 1"));
    h.cart_type = 0x04;
    assert_eq!(h.cart_type_lookup(), None);
    h.cart_type = 0xFF;
    assert_eq!(h.cart_type_lookup(), Some("HuC1+RAM+BATTERY"));
}

fn game(i: usize) -> GameInfo {
    GameInfo {
        name: format!("game{}.gb", i),
        path: format!("roms/game{}.gb", i),
        file_size: 32768,
        is_battery_backed: false,
        is_test_rom: false,
    }
}

#[test]
fn main_menu_navigation() {
    let mut m = MenuContext::new_with_debug(false);
    assert_eq!(m.current_state, MenuState::MainMenu);
    m.navigate_up();
    assert_eq!(m.selected_main_option, 0);
    m.navigate_down();
    m.navigate_down();
    assert_eq!(m.selected_main_option, 1);
    assert_eq!(m.select(), None);
    assert_eq!(m.current_state, MenuState::Credits);
    m.back();
    assert_eq!(m.current_state, MenuState::MainMenu);
    m.navigate_up();
    assert_eq!(m.select(), None);
    assert_eq!(m.current_state, MenuState::GameSelection);
}

#[test]
fn game_list_scrolling_and_launch() {
    let mut m = MenuContext::new_with_debug(false);
    m.games = (0..15).map(game).collect();
    m.select();
    for _ in 0..20 {
        m.navigate_down();
    }
    assert_eq!(m.selected_game_index, 14);
    assert_eq!(m.scroll_offset, 3);
    let visible = m.get_visible_games();
    assert_eq!(visible.len(), 12);
    assert_eq!(visible[0].0, 3);
    assert_eq!(visible[11].1.name, "game14.gb");
    for _ in 0..12 {
        m.navigate_up();
    }
    assert_eq!(m.selected_game_index, 2);
    assert_eq!(m.scroll_offset, 2);
    assert_eq!(m.get_selected_game().unwrap().name, "game2.gb");
    assert_eq!(m.select(), Some(String::from("roms/game2.gb")));
    assert_eq!(m.current_state, MenuState::InGame(String::from("roms/game2.gb")));
    m.exit_game();
    assert_eq!(m.current_state, MenuState::GameSelection);
    m.back();
    assert_eq!(m.current_state, MenuState::MainMenu);
}

#[test]
fn empty_game_list() {
    let mut m = MenuContext::new_with_debug(true);
    m.select();
    m.navigate_down();
    assert_eq!(m.selected_game_index, 0);
    assert!(m.get_selected_game().is_none());
    assert!(m.get_visible_games().is_empty());
    assert_eq!(m.select(), None);
    assert_eq!(m.current_state, MenuState::GameSelection);
}

#[test]
fn scanner_checks() {
    assert!(GameScanner::is_rom_extension(b"gb"));
    assert!(GameScanner::is_rom_extension(b"gbc"));
    assert!(!GameScanner::is_rom_extension(b"gba"));
    assert!(!GameScanner::is_rom_extension(b"GB"));
    let mut rom = vec![0u8; 0x149];
    rom[0x147] = 0x03;
    assert!(GameScanner::is_battery_backed(&rom));
    rom[0x147] = 0x01;
    assert!(!GameScanner::is_battery_backed(&rom));
    let short = vec![0x03u8; 0x148];
    assert!(!GameScanner::is_battery_backed(&short));
    rom[0x147] = 0x10;
    let g = GameScanner::game_info(String::from("a.gb"), String::from("roms/a.gb"), 329, &rom, true);
    assert!(g.is_battery_backed);
    assert!(g.is_test_rom);
    assert_eq!(g.file_size, 329);
}

#[test]
fn registers_and_flags() {
    assert_eq!(make_word(0x12, 0x34), 0x1234);
    assert_eq!(split_word(0xBEEF), (0xBE, 0xEF));
    let f = FlagsRegister::from_byte(0xB5);
    assert!(f.zero && !f.subtract && f.half_carry && f.carry);
    assert_eq!(f.to_byte(), 0xB0);
    let mut r = Registers { a: 0, b: 0, c: 0, d: 0, e: 0, f: FlagsRegister::from_byte(0), h: 0, l: 0 };
    r.set_af(0x12FF);
    assert_eq!(r.get_af(), 0x12F0);
    r.set_hl(0xC000);
    assert_eq!(r.get_hl(), 0xC000);
    assert_eq!((r.h, r.l), (0xC0, 0x00));
}

#[test]
fn interrupt_controller_basics() {
    let mut ic = InterruptController::new();
    ic.request_interrupt(Interrupts::SERIAL);
    assert_eq!(ic.get_int_flags(), 0x08);
    assert!(!ic.has_pending());
    ic.set_ie_register(0x08);
    assert!(ic.has_pending());
    ic.set_enabling_ime(true);
    assert!(ic.step_ime());
    assert!(ic.is_master_enabled());
    assert!(!ic.step_ime());
}

#[test]
fn timer_ticks_and_overflow() {
    let mut t = Timer { div: 0x000F, tima: 0, tma: 0x42, tac: 0x05 };
    assert!(!t.timer_tick());
    assert_eq!(t.div, 0x0010);
    assert_eq!(t.tima, 1);
    t.div = 0x000F;
    t.tima = 0xFE;
    assert!(!t.timer_tick());
    assert_eq!(t.tima, 0xFF);
    // the overflow past 0xFF reloads TMA and requests the interrupt
    t.div = 0x000F;
    assert!(t.timer_tick());
    assert_eq!(t.tima, 0x42);
    // disabled timer: the counter moves, TIMA does not
    t.tac = 0x01;
    t.div = 0x000F;
    assert!(!t.timer_tick());
    assert_eq!(t.tima, 0x42);
    t.timer_write(0xFF04, 0x99);
    assert_eq!(t.timer_read(0xFF04), 0);
    t.timer_write(0xFF06, 0x77);
    assert_eq!(t.timer_read(0xFF06), 0x77);
}

#[test]
fn lcd_mode_and_registers() {
    let mut lcd = LCD::new();
    lcd.lcds_mode_set(LcdMode::VBlank);
    assert_eq!(lcd.lcds_mode(), LcdMode::VBlank);
    assert_eq!(lcd.lcd_read(0xFF41) & 0x03, 0x01);
    assert_eq!(lcd.lcd_write(0xFF46, 0xC1), Some(0xC1));
    assert_eq!(lcd.lcd_write(0xFF42, 0x10), None);
    assert_eq!(lcd.lcd_read(0xFF42), 0x10);
    lcd.lcds_lyc_set(true);
    assert!(lcd.lcds_lyc());
    assert_eq!(lcd.lcds_mode(), LcdMode::VBlank);
    lcd.lcds_lyc_set(false);
    assert!(!lcd.lcds_lyc());
}

#[test]
fn gamepad_output() {
    let mut pad = GamePad::new();
    assert_eq!(pad.get_gamepad_output(), 0xCF);
    pad.state.start = true;
    pad.gamepad_set_selection(0x10);
    assert_eq!(pad.get_gamepad_output(), 0xC7);
    pad.gamepad_set_selection(0x30);
    assert_eq!(pad.get_gamepad_output(), 0xCF);
    // every held key of a selected group clears its bit
    pad.state.a = true;
    pad.gamepad_set_selection(0x10);
    assert_eq!(pad.get_gamepad_output(), 0xC6);
    pad.state.up = true;
    pad.state.right = true;
    pad.gamepad_set_selection(0x00);
    assert_eq!(pad.get_gamepad_output(), 0xC2);
}

#[test]
fn bus_regions() {
    let mut bus = BUS::new();
    bus.write_byte(0xFFFF, 0x1F);
    assert_eq!(bus.read_byte(0xFFFF), 0x1F);
    bus.write_byte(0xFF85, 0x66);
    assert_eq!(bus.read_byte(0xFF85), 0x66);
    bus.write_byte(0x8010, 0x3C);
    assert_eq!(bus.read_byte(0x8010), 0x3C);
    bus.write_byte(0xFE03, 0x07);
    assert_eq!(bus.read_byte(0xFE03), 0x07);
    assert_eq!(bus.read_byte(0xFEA5), 0);
    for (addr, v) in [(0xFF0Fu16, 0x1Fu8), (0xFF06, 0x77), (0xFF01, 0x41), (0xFF47, 0xE4), (0xFF4A, 0x10)] {
        bus.write_byte(addr, v);
        assert_eq!(bus.read_byte(addr), v);
    }
    // writes to the echo area are ignored
    bus.write_byte(0xE010, 0x55);
    assert_eq!(bus.read_byte(0xC010), 0);
}

#[test]
fn decode_samples() {
    let bus = BUS::new();
    let nop = Instruction::decode_from_opcode(0x00, &bus, 0x100).unwrap();
    assert_eq!(nop.in_type, InType::IN_NOP);
    let halt = Instruction::decode_from_opcode(0x76, &bus, 0x100).unwrap();
    assert_eq!(halt.in_type, InType::IN_HALT);
    assert!(Instruction::decode_from_opcode(0xDD, &bus, 0x100).is_none());
    assert_eq!(Instruction::default().in_type, InType::IN_NONE);
}

#[test]
fn one_frame_is_70224_ticks() {
    let mut cpu = CPU::new(BUS::new());
    let rom = vec![0u8; 0x8000];
    let _ = cpu.bus.cart.load_cart(String::from("blank.gb"), rom);
    let mut ctx = EmuContext::new(None, false);
    // 70224 ticks = 17556 machine cycles
    let mut left: u32 = 17556;
    while left > 0 {
        let m = if left > 200 { 200 } else { left as u8 };
        assert!(emu_cycles(&mut cpu, &mut ctx, m));
        left -= m as u32;
        // the frame is counted when the PPU enters VBlank, after 144 lines of 456 dots
        let expected = if ctx.ticks < 144 * 456 { 0 } else { 1 };
        assert_eq!(cpu.bus.ppu.current_frame, expected);
    }
    assert_eq!(ctx.ticks, 70224);
    assert_eq!(cpu.bus.ppu.current_frame, 1);
    assert_eq!(cpu.bus.ppu.ly, 0);
    assert_eq!(cpu.bus.ppu.line_ticks, 0);
    assert_ne!(cpu.bus.interrupt_controller.int_flags & Interrupts::VBLANK.bit(), 0);
}

#[test]
fn register_operations_need_no_cartridge() {
    let mut cpu = CPU::new(BUS::new());
    cpu.registers.a = 0x10;
    cpu.registers.b = 0x01;
    assert_eq!(op_sub(&mut cpu, OPTarget::B), 0x0101);
    assert_eq!(cpu.registers.a, 0x0F);
    assert!(cpu.registers.f.half_carry && cpu.registers.f.subtract && !cpu.registers.f.carry);
    cpu.registers.c = 0x11;
    cpu.registers.b = 0x22;
    assert_eq!(op_ld(&mut cpu, LoadType::RegInReg(HLTarget::C, HLTarget::B)), 0x0101);
    assert_eq!(cpu.registers.c, 0x22);
    cpu.registers.a = 0x5A;
    cpu.registers.b = 0x3C;
    op_xor(&mut cpu, OPTarget::B);
    assert_eq!(cpu.registers.a, 0x66);
    assert!(!cpu.registers.f.zero);
}

#[test]
fn glyph_rectangles() {
    // '1' of the header font: 0x04, 0x0C, 0x04, 0x04, 0x04, 0x04, 0x0E -> 10 lit cells
    let cells = glyph_cells(header_glyph('1'), 100, 50, 1);
    assert_eq!(cells.len(), 10);
    assert_eq!(cells[0], (102, 50, 1, 1));
    assert_eq!(cells[1], (101, 51, 1, 1));
    assert_eq!(cells[9], (103, 56, 1, 1));
    let scaled = glyph_cells(header_glyph('1'), 0, 0, 3);
    assert_eq!(scaled[0], (6, 0, 3, 3));
    assert_eq!(MenuRenderer::glyph_rects(Glyph::Block, 10, 20, 2), vec![(10, 20, 12, 16)]);
    assert!(MenuRenderer::glyph_rects(Glyph::Blank, 10, 20, 2).is_empty());
    let dot = MenuRenderer::glyph_rects(MenuRenderer::glyph('.'), 0, 0, 1);
    assert!(!dot.is_empty());
}

#[test]
fn pixel_fifo_first_in_first_out() {
    let mut p = PixelFIFO::new();
    for i in 0..12u32 {
        p.pixel_fifo_push(100 + i);
    }
    // the queue holds ten pixels: the last two pushes were dropped
    assert_eq!(p.fifo_size(), 10);
    for i in 0..10u32 {
        assert_eq!(p.pixel_fifo_pop(), Some(100 + i));
        assert_eq!(p.fifo_size(), (9 - i) as usize);
    }
    assert_eq!(p.pixel_fifo_pop(), None);
}

fn named_game(name: &str) -> GameInfo {
    GameInfo {
        name: name.to_string(),
        path: format!("roms/game_roms/{}", name),
        file_size: 0x8000,
        is_battery_backed: false,
        is_test_rom: false,
    }
}

#[test]
fn games_sorted_by_name_ignoring_case() {
    let games = vec![named_game("zelda.gb"), named_game("Alpha.gb"), named_game("beta.gb"), named_game("alpha.gb"), named_game("Beta2.gb")];
    let sorted = GameScanner::sort_games(games);
    let names: Vec<&str> = sorted.iter().map(|g| g.name.as_str()).collect();
    // names equal in lower case keep their order
    assert_eq!(names, vec!["Alpha.gb", "alpha.gb", "beta.gb", "Beta2.gb", "zelda.gb"]);
    assert_eq!(sorted[0].path, "roms/game_roms/Alpha.gb");
}

#[test]
fn games_sorted_upper_case_not_first() {
    let sorted = GameScanner::sort_games(vec![named_game("ZOOP.gb"), named_game("asteroids.gb")]);
    assert_eq!(sorted[0].name, "asteroids.gb");
    assert_eq!(sorted[1].name, "ZOOP.gb");
    assert!(GameScanner::sort_games(Vec::new()).is_empty());
}

#[test]
fn image_candidates_in_order() {
    let c = MenuRenderer::image_candidates("Tetris (World).gb");
    assert_eq!(c.len(), 10);
    assert_eq!(c[0], "roms/imgs/Tetris (World).gb.png");
    assert_eq!(c[1], "roms/imgs/Tetris (World).gb.jpg");
    assert_eq!(c[2], "roms/imgs/Tetris (World).gb.jpeg");
    assert_eq!(c[3], "roms/imgs/Tetris (World).gb.bmp");
    assert_eq!(c[4], "roms/imgs/Tetris (World).gb.gif");
    assert_eq!(c[5], "roms/imgs/tetris__world__gb.png");
    assert_eq!(c[9], "roms/imgs/tetris__world__gb.gif");
}

#[test]
fn image_stem_matches_ignoring_case() {
    assert!(MenuRenderer::image_stem_matches("TETRIS__WORLD__GB", "Tetris (World).gb"));
    assert!(MenuRenderer::image_stem_matches("tetris (world).GB", "Tetris (World).gb"));
    assert!(MenuRenderer::image_stem_matches("Tetris (World).gb", "Tetris (World).gb"));
    assert!(!MenuRenderer::image_stem_matches("tetris", "Tetris (World).gb"));
    let a = String::from("x");
    let b = String::from("y");
    assert!(MenuRenderer::lowered_names_match(&a, &b, &a));
    assert!(!MenuRenderer::lowered_names_match(&a, &b, &b));
}

#[test]
fn args_trailing_debug_limit() {
    // a "--debug-limit" with nothing after it names no ROM and sets no budget
    let args = strings(&["gb", "--debug-limit"]);
    assert!(args_valid(&args));
    assert_eq!(parse_args(&args).err(), Some(ArgsError::MissingRom));
    let args = strings(&["gb", "x.gb", "--debug-limit"]);
    assert!(args_valid(&args));
    let a = parse_args(&args).ok().unwrap();
    assert_eq!(a.rom_path, "x.gb");
    assert_eq!(a.debug_limit, None);
}

#[test]
fn frame_layout_centred() {
    assert_eq!(frame_index(3, 2), 323);
    assert_eq!(frame_index(159, 143), 23039);
    assert_eq!(frame_cell(0, 0), (80, 12, 4, 4));
    assert_eq!(frame_cell(159, 143), (716, 584, 4, 4));
}

#[test]
fn tile_viewer_layout() {
    assert_eq!(tile_origin(0), (0, 0));
    assert_eq!(tile_origin(17), (32, 32));
    assert_eq!(tile_origin(383), (480, 736));
    assert_eq!(tile_row_addresses(0x8000, 1, 3), Some((0x8016, 0x8017)));
    assert_eq!(tile_row_addresses(0x9FF0, 0, 7), Some((0x9FFE, 0x9FFF)));
    assert_eq!(tile_row_addresses(0x9FF0, 1, 0), None);
    assert_eq!(tile_row_addresses(0x7FF0, 0, 0), None);
    assert_eq!(tile_cell(10, 20, 2, 7), (10, 28, 4, 4));
    assert_eq!(tile_cell(10, 20, 2, 0), (38, 28, 4, 4));
}

#[test]
fn letters_drawn_as_capitals() {
    for (lower, upper) in ('a'..='z').zip('A'..='Z') {
        assert_eq!(header_glyph(lower), header_glyph(upper));
        assert_eq!(MenuRenderer::glyph(lower), MenuRenderer::glyph(upper));
    }
    assert_eq!(glyph_cells(header_glyph(' '), 0, 0, 1).len(), 0);
}
