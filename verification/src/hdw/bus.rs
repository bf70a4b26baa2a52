use vstd::prelude::*;
use crate::hdw::cart::Cartridge;
use crate::hdw::dma::DMA;
use crate::hdw::gamepad::GamePad;
use crate::hdw::interrupts::InterruptController;
use crate::hdw::io::{io_read, io_read_spec, io_write, io_written};
use crate::hdw::ppu::PPU;
use crate::hdw::ram::RAM;
use crate::hdw::timer::Timer;

verus! {

/// The memory bus: routes each address of the 64 KiB space to the device behind it.
///
/// 0x0000-0x7FFF cartridge ROM, 0x8000-0x9FFF video RAM, 0xA000-0xBFFF cartridge RAM,
/// 0xC000-0xDFFF work RAM, 0xE000-0xFDFF echo of work RAM, 0xFE00-0xFE9F OAM,
/// 0xFEA0-0xFEFF unusable, 0xFF00-0xFF7F I/O registers, 0xFF80-0xFFFE high RAM,
/// 0xFFFF interrupt enable.
pub struct BUS {
    pub cart: Cartridge,
    pub ram: RAM,
    pub ppu: PPU,
    pub gamepad: GamePad,
    pub interrupt_controller: InterruptController,
    pub dma: DMA,
    pub timer: Timer,
    pub serial_data: [u8; 2],
}

impl BUS {
    pub open spec fn wf(self) -> bool {
        &&& self.cart.wf()
        &&& self.dma.wf()
    }

    /// The byte that a read of `address` returns.
    #[verifier::opaque]
    pub open spec fn read_spec(self, address: u16) -> u8 {
        if address <= 0x7FFF {
            self.cart.read_spec(address)
        } else if address <= 0x9FFF {
            self.ppu.vram_at(address)
        } else if address <= 0xBFFF {
            self.cart.read_spec(address)
        } else if address <= 0xDFFF {
            self.ram.wram_at(address)
        } else if address <= 0xFDFF {
            self.ram.wram_at((address - 0x2000) as u16)
        } else if address <= 0xFE9F {
            if self.dma.active {
                0xFF
            } else {
                self.ppu.oam_at(address)
            }
        } else if address <= 0xFEFF {
            0
        } else if address <= 0xFF7F {
            io_read_spec(self, address)
        } else if address <= 0xFFFE {
            self.ram.hram_at(address)
        } else {
            self.interrupt_controller.ie_register
        }
    }

    /// The bus after a write of `value` to `address`. Writes to the echo area and to the
    /// unusable area are ignored, and so are OAM writes while DMA runs.
    #[verifier::opaque]
    pub open spec fn written(self, address: u16, value: u8) -> BUS {
        if address <= 0x7FFF {
            BUS { cart: self.cart.written(address, value), ..self }
        } else if address <= 0x9FFF {
            BUS { ppu: self.ppu.vram_written(address, value), ..self }
        } else if address <= 0xBFFF {
            BUS { cart: self.cart.written(address, value), ..self }
        } else if address <= 0xDFFF {
            BUS { ram: self.ram.wram_written(address, value), ..self }
        } else if address <= 0xFDFF {
            self
        } else if address <= 0xFE9F {
            if self.dma.active {
                self
            } else {
                BUS { ppu: self.ppu.oam_written(address, value), ..self }
            }
        } else if address <= 0xFEFF {
            self
        } else if address <= 0xFF7F {
            io_written(self, address, value)
        } else if address == 0xFFFF {
            BUS { interrupt_controller: InterruptController { ie_register: value, ..self.interrupt_controller }, ..self }
        } else {
            BUS { ram: self.ram.hram_written(address, value), ..self }
        }
    }

    /// The bus after one DMA step, run with the DMA unit detached from the bus as the
    /// step copies (so its own reads of OAM are not blocked).
    #[verifier::opaque]
    pub open spec fn dma_ticked(self) -> BUS {
        let d = self.dma;
        if !d.active {
            self
        } else if d.start_delay > 0 {
            BUS { dma: DMA { start_delay: (d.start_delay - 1) as u8, ..d }, ..self }
        } else {
            let detached = BUS { dma: DMA::idle(), ..self };
            BUS {
                ppu: self.ppu.oam_written(d.current_byte as u16, detached.read_spec(d.source())),
                dma: DMA {
                    current_byte: (d.current_byte + 1) as u8,
                    active: d.current_byte + 1 < 0xA0,
                    ..d
                },
                ..self
            }
        }
    }

    /// A bus with an empty cartridge and all devices in their power-on state.
    pub fn new() -> (r: Self)
        ensures
            r.cart.inv(),
            r.cart.rom_data@.len() == 0,
            r.cart.file_name@.len() == 0,
            r.cart.rom_header.is_blank(),
            forall|i: int| 0 <= i < 0x20000 ==> r.cart.ram_banks@[i] == 0,
            r.cart.rom_size == 0,
            !r.cart.ram_enabled && !r.cart.ram_banking && !r.cart.battery && !r.cart.need_save,
            r.cart.rom_bank_x == 0 && r.cart.banking_mode == 0 && r.cart.rom_bank_value == 0,
            r.cart.ram_bank_value == 0 && r.cart.ram_bank == 0 && r.cart.ram_bank_count == 0,
            r.cart.save_request.is_none(),
            forall|i: int| 0 <= i < 0x2000 ==> r.ram.wram@[i] == 0,
            forall|i: int| 0 <= i < 0x80 ==> r.ram.hram@[i] == 0,
            r.ppu.is_power_on(),
            !r.gamepad.button_select && !r.gamepad.direction_select,
            !r.gamepad.state.start && !r.gamepad.state.select && !r.gamepad.state.a && !r.gamepad.state.b
                && !r.gamepad.state.up && !r.gamepad.state.down && !r.gamepad.state.right
                && !r.gamepad.state.left,
            r.dma == DMA::idle(),
            r.interrupt_controller == (InterruptController {
                ie_register: 0,
                int_flags: 0,
                master_enabled: false,
                enabling_ime: false,
            }),
            r.timer == (Timer { div: 0xAC00, tima: 0, tma: 0, tac: 0 }),
            r.serial_data@ == seq![0u8, 0u8],
    {
        let r = BUS {
            cart: Cartridge::new(),
            ram: RAM::new(),
            ppu: PPU::new(),
            gamepad: GamePad::new(),
            interrupt_controller: InterruptController::new(),
            dma: DMA::new(),
            timer: Timer::new(),
            serial_data: [0; 2],
        };
        assert(r.serial_data@ =~= seq![0u8, 0u8]);
        r
    }

    pub fn read_byte(&self, address: u16) -> (r: u8)
        requires
            self.wf(),
        ensures
            r == self.read_spec(address),
    {
        reveal(BUS::read_spec);
        if address <= 0x7FFF {
            self.cart.read_byte(address)
        } else if address <= 0x9FFF {
            self.ppu.ppu_vram_read(address)
        } else if address <= 0xBFFF {
            self.cart.read_byte(address)
        } else if address <= 0xDFFF {
            self.ram.wram_read(address)
        } else if address <= 0xFDFF {
            self.ram.wram_read(address - 0x2000)
        } else if address <= 0xFE9F {
            if self.dma.dma_transferring() {
                0xFF
            } else {
                self.ppu.ppu_oam_read(address)
            }
        } else if address <= 0xFEFF {
            0x00
        } else if address <= 0xFF7F {
            io_read(self, address)
        } else if address <= 0xFFFE {
            self.ram.hram_read(address)
        } else {
            self.interrupt_controller.get_ie_register()
        }
    }

    pub fn write_byte(&mut self, address: u16, value: u8)
        requires
            old(self).wf(),
        ensures
            *final(self) == old(self).written(address, value),
            final(self).wf(),
    {
        reveal(BUS::written);
        if address <= 0x7FFF {
            self.cart.write_byte(address, value);
        } else if address <= 0x9FFF {
            self.ppu.ppu_vram_write(address, value);
        } else if address <= 0xBFFF {
            self.cart.write_byte(address, value);
        } else if address <= 0xDFFF {
            self.ram.wram_write(address, value);
        } else if address <= 0xFDFF {
        } else if address <= 0xFE9F {
            if self.dma.dma_transferring() {
                return;
            } else {
                self.ppu.ppu_oam_write(address, value);
            }
        } else if address <= 0xFEFF {
        } else if address <= 0xFF7F {
            io_write(self, address, value);
        } else if address == 0xFFFF {
            self.interrupt_controller.set_ie_register(value);
        } else {
            self.ram.hram_write(address, value);
        }
    }

    /// Runs one step of a pending OAM DMA transfer.
    pub fn tick_dma(&mut self)
        requires
            old(self).wf(),
        ensures
            *final(self) == old(self).dma_ticked(),
            final(self).wf(),
    {
        reveal(BUS::dma_ticked);
        reveal(BUS::read_spec);
        let mut dma = self.dma;
        if dma.dma_transferring() {
            self.dma = DMA::new();
            dma.dma_tick(self);
        }
        self.dma = dma;
    }
}

/// Reads do not depend on the interrupt master enable.
pub proof fn lemma_read_ignores_ime(bus: BUS, m: bool, address: u16)
    ensures
        (BUS { interrupt_controller: InterruptController { master_enabled: m, ..bus.interrupt_controller }, ..bus }).read_spec(address)
            == bus.read_spec(address),
{
    reveal(BUS::read_spec);
}

/// Reads outside the I/O registers and IE do not depend on the interrupt controller.
pub proof fn lemma_read_ignores_interrupts(bus: BUS, ic: InterruptController, address: u16)
    requires
        !(0xFF00 <= address <= 0xFF7F),
        address != 0xFFFF,
    ensures
        (BUS { interrupt_controller: ic, ..bus }).read_spec(address) == bus.read_spec(address),
{
    reveal(BUS::read_spec);
}

/// Addresses backed by plain memory: video RAM, work RAM, OAM, high RAM and the IE
/// register.
pub open spec fn plain_memory(address: u16) -> bool {
    ||| 0x8000 <= address <= 0x9FFF
    ||| 0xC000 <= address <= 0xDFFF
    ||| 0xFE00 <= address <= 0xFE9F
    ||| 0xFF80 <= address
}

/// On plain memory a read returns what the last write stored there, and a write leaves
/// every other plain address as it was; OAM takes no writes while a DMA transfer runs.
pub proof fn law_read_after_write(bus: BUS, address: u16, other: u16, value: u8)
    requires
        plain_memory(address),
        plain_memory(other),
        !(0xFE00 <= address <= 0xFE9F && bus.dma.active),
    ensures
        bus.written(address, value).read_spec(address) == value,
        other != address ==> bus.written(address, value).read_spec(other) == bus.read_spec(other),
        bus.written(address, value).dma == bus.dma,
{
    reveal(BUS::written);
    reveal(BUS::read_spec);
}

/// Whether a write to `address` is read back: plain memory (not OAM while DMA runs), or
/// the external RAM of an MBC1 cartridge with RAM enabled and a present bank selected.
pub open spec fn keeps_writes(bus: BUS, address: u16) -> bool {
    ||| plain_memory(address) && !(0xFE00 <= address <= 0xFE9F && bus.dma.active)
    ||| 0xA000 <= address < 0xC000 && bus.cart.is_mbc1() && bus.cart.ram_enabled
        && bus.cart.ram_banking && bus.cart.ram_bank < bus.cart.ram_bank_count
}

/// Where writes are kept, a read returns what the last write stored, a write leaves the
/// other such addresses as they were, and they stay such addresses.
pub proof fn law_write_read_back(bus: BUS, address: u16, other: u16, value: u8)
    requires
        bus.cart.inv(),
        keeps_writes(bus, address),
        keeps_writes(bus, other),
    ensures
        bus.written(address, value).read_spec(address) == value,
        other != address ==> bus.written(address, value).read_spec(other) == bus.read_spec(other),
        keeps_writes(bus.written(address, value), other),
        keeps_writes(bus.written(address, value), address),
        bus.written(address, value).cart.inv(),
        bus.written(address, value).dma == bus.dma,
{
    reveal(BUS::written);
    reveal(BUS::read_spec);
}

/// The I/O registers that read back what was last written to them: serial data and
/// control, TIMA, TMA, TAC, IF and the LCD registers.
pub open spec fn plain_io_register(address: u16) -> bool {
    ||| address == 0xFF01 || address == 0xFF02
    ||| 0xFF05 <= address <= 0xFF07
    ||| address == 0xFF0F
    ||| 0xFF40 <= address <= 0xFF4B
}

/// Those registers read back what a write stored in them.
pub proof fn law_io_read_after_write(bus: BUS, address: u16, value: u8)
    requires
        plain_io_register(address),
    ensures
        bus.written(address, value).read_spec(address) == value,
{
    reveal(BUS::written);
    reveal(BUS::read_spec);
}

/// Addresses 0xE000-0xFDFF read as the work RAM 0x2000 below them.
pub proof fn law_echo_ram(bus: BUS, address: u16)
    requires
        0xE000 <= address <= 0xFDFF,
    ensures
        bus.read_spec(address) == bus.read_spec((address - 0x2000) as u16),
{
    reveal(BUS::read_spec);
}

} // verus!
