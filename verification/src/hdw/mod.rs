pub mod interrupts;
pub mod registers;
pub mod ram;
pub mod lcd;
pub mod timer;
pub mod gamepad;
pub mod ppu;
pub mod ppu_pipeline;
pub mod memory;
pub mod cart;
pub mod dma;
pub mod io;
pub mod bus;
pub mod debug;
pub mod instructions;
pub mod cpu;
pub mod cpu_util;
pub mod stack;
pub mod cpu_ops;
pub mod execute;
pub mod emu;
pub mod ui;
