use vstd::prelude::*;
use crate::hdw::bus::BUS;
use crate::hdw::dma::DMA;
use crate::hdw::ppu::PPU;
use crate::hdw::interrupts::InterruptController;

verus! {

broadcast use vstd::array::group_array_axioms;

/// The value a read of I/O register `address` (0xFF00-0xFF7F) returns. Registers
/// without a device (sound among them) read as 0.
pub open spec fn io_read_spec(bus: BUS, address: u16) -> u8 {
    if address == 0xFF00 {
        bus.gamepad.output()
    } else if address == 0xFF01 {
        bus.serial_data@[0]
    } else if address == 0xFF02 {
        bus.serial_data@[1]
    } else if 0xFF04 <= address <= 0xFF07 {
        bus.timer.read_spec(address)
    } else if address == 0xFF0F {
        bus.interrupt_controller.int_flags
    } else if 0xFF40 <= address <= 0xFF4B {
        bus.ppu.lcd.read_spec(address)
    } else {
        0
    }
}

/// The bus after a write to I/O register `address`. A write to 0xFF46 also starts OAM DMA
/// from `value * 0x100`; writes to registers without a device are ignored.
pub open spec fn io_written(bus: BUS, address: u16, value: u8) -> BUS {
    if address == 0xFF00 {
        BUS { gamepad: bus.gamepad.with_selection(value), ..bus }
    } else if address == 0xFF01 {
        BUS { serial_data: vstd::array::spec_array_update(bus.serial_data, 0, value), ..bus }
    } else if address == 0xFF02 {
        BUS { serial_data: vstd::array::spec_array_update(bus.serial_data, 1, value), ..bus }
    } else if 0xFF04 <= address <= 0xFF07 {
        BUS { timer: bus.timer.written(address, value), ..bus }
    } else if address == 0xFF0F {
        BUS { interrupt_controller: InterruptController { int_flags: value, ..bus.interrupt_controller }, ..bus }
    } else if 0xFF40 <= address <= 0xFF4B {
        let ppu = PPU { lcd: bus.ppu.lcd.written(address, value), ..bus.ppu };
        if address == 0xFF46 {
            BUS { ppu, dma: DMA::started(value), ..bus }
        } else {
            BUS { ppu, ..bus }
        }
    } else {
        bus
    }
}

pub fn io_read(bus: &BUS, address: u16) -> (r: u8)
    requires
        0xFF00 <= address <= 0xFF7F,
    ensures
        r == io_read_spec(*bus, address),
{
    if address == 0xFF00 {
        bus.gamepad.get_gamepad_output()
    } else if address == 0xFF01 {
        bus.serial_data[0]
    } else if address == 0xFF02 {
        bus.serial_data[1]
    } else if 0xFF04 <= address && address <= 0xFF07 {
        bus.timer.timer_read(address)
    } else if address == 0xFF0F {
        bus.interrupt_controller.get_int_flags()
    } else if 0xFF40 <= address && address <= 0xFF4B {
        bus.ppu.lcd.lcd_read(address)
    } else {
        0
    }
}

pub fn io_write(bus: &mut BUS, address: u16, value: u8)
    requires
        0xFF00 <= address <= 0xFF7F,
    ensures
        *final(bus) == io_written(*old(bus), address, value),
{
    if address == 0xFF00 {
        bus.gamepad.gamepad_set_selection(value);
    } else if address == 0xFF01 {
        bus.serial_data[0] = value;
    } else if address == 0xFF02 {
        bus.serial_data[1] = value;
    } else if 0xFF04 <= address && address <= 0xFF07 {
        bus.timer.timer_write(address, value);
    } else if address == 0xFF0F {
        bus.interrupt_controller.set_int_flags(value);
    } else if 0xFF40 <= address && address <= 0xFF4B {
        let result = bus.ppu.lcd.lcd_write(address, value);
        if let Some(dma_value) = result {
            bus.dma.dma_start(dma_value);
        }
    }
}

} // verus!
