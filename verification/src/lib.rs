//! A Game Boy (DMG) emulator core: CPU, memory bus, cartridge banking, timer,
//! LCD/PPU timing, DMA, joypad and interrupt logic, with the menu state machine
//! of the front end.

pub mod hdw;
pub mod menu;
