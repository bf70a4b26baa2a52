use vstd::prelude::*;
use vstd::array::spec_array_update;

verus! {

broadcast use vstd::array::group_array_axioms;

/// Bytes of one external RAM bank.
pub const RAM_BANK_SIZE: usize = 0x2000;

/// Bytes of external RAM for the largest configuration (16 banks).
pub const RAM_CAPACITY: usize = 0x20000;

/// Fields of the cartridge header at 0x0134-0x014F.
#[derive(Copy, Clone)]
pub struct CartridgeHeader {
    pub rom_title: [u8; 16],
    pub new_lic_code: u16,
    pub sgb_flag: u8,
    pub cart_type: u8,
    pub rom_size: u8,
    pub ram_size: u8,
    pub dest_code: u8,
    pub old_lic_code: u8,
    pub version: u8,
    pub checksum: u8,
    pub global_checksum: u16,
}

/// Publisher names of the new licensee list, by the two hex digits of a code.
pub open spec fn new_licensee_name(code: u8) -> Option<&'static str> {
    match code {
        0x00 => Some("None"),
        0x01 => Some("Nintendo Research & Development 1"),
        0x08 => Some("Capcom"),
        0x13 => Some("EA (Electronic Arts)"),
        0x18 => Some("Hudson Soft"),
        0x19 => Some("B-AI"),
        0x20 => Some("KSS"),
        0x22 => Some("Planning Office WADA"),
        0x24 => Some("PCM Complete"),
        0x25 => Some("San-X"),
        0x28 => Some("Kemco"),
        0x29 => Some("SETA Corporation"),
        0x30 => Some("Viacom"),
        0x31 => Some("Nintendo"),
        0x32 => Some("Bandai"),
        0x33 => Some("Ocean Software/Acclaim Entertainment"),
        0x34 => Some("Konami"),
        0x35 => Some("HectorSoft"),
        0x37 => Some("Taito"),
        0x38 => Some("Hudson Soft"),
        0x39 => Some("Banpresto"),
        0x41 => Some("Ubi Soft"),
        0x42 => Some("Atlus"),
        0x44 => Some("Malibu Interactive"),
        0x46 => Some("Angel"),
        0x47 => Some("Bullet-Proof Software"),
        0x49 => Some("Irem"),
        0x50 => Some("Absolute"),
        0x51 => Some("Acclaim Entertainment"),
        0x52 => Some("Activision"),
        0x53 => Some("Sammy USA Corporation"),
        0x54 => Some("Konami"),
        0x55 => Some("Hi Tech Expressions"),
        0x56 => Some("LJN"),
        0x57 => Some("Matchbox"),
        0x58 => Some("Mattel"),
        0x59 => Some("Milton Bradley Company"),
        0x60 => Some("Titus Interactive"),
        0x61 => Some("Virgin Games Ltd."),
        0x64 => Some("Lucasfilm Games"),
        0x67 => Some("Ocean Software"),
        0x69 => Some("EA (Electronic Arts)"),
        0x70 => Some("Infogrames"),
        0x71 => Some("Interplay Entertainment"),
        0x72 => Some("Broderbund"),
        0x73 => Some("Sculptured Software"),
        0x75 => Some("The Sales Curve Limited"),
        0x78 => Some("THQ"),
        0x79 => Some("Accolade"),
        0x80 => Some("Misawa Entertainment"),
        0x83 => Some("lozc"),
        0x86 => Some("Tokuma Shoten"),
        0x87 => Some("Tsukuda Original"),
        0x91 => Some("Chunsoft Co."),
        0x92 => Some("Video System"),
        0x93 => Some("Ocean Software/Acclaim Entertainment"),
        0x95 => Some("Varie"),
        0x96 => Some("Yonezawa/s'pal"),
        0x97 => Some("Kaneko"),
        0x99 => Some("Pack-In-Video"),
        0xA4 => Some("Konami (Yu-Gi-Oh!)"),
        _ => None,
    }
}

/// Names of the cartridge types (header byte 0x147).
pub open spec fn cart_type_name(code: u8) -> Option<&'static str> {
    match code {
        0x00 => Some("ROM ONLY"),
        0x01 => Some("MBC1"),
        0x02 => Some("MBC1+RAM"),
        0x03 => Some("MBC1+RAM+BATTERY"),
        0x05 => Some("MBC2"),
        0x06 => Some("MBC2+BATTERY"),
        0x08 => Some("ROM+RAM"),
        0x09 => Some("ROM+RAM+BATTERY"),
        0x0B => Some("MMM01"),
        0x0C => Some("MMM01+RAM"),
        0x0D => Some("MMM01+RAM+BATTERY"),
        0x0F => Some("MBC3+TIMER+BATTERY"),
        0x10 => Some("MBC3+TIMER+RAM+BATTERY"),
        0x11 => Some("MBC3"),
        0x12 => Some("MBC3+RAM"),
        0x13 => Some("MBC3+RAM+BATTERY"),
        0x19 => Some("MBC5"),
        0x1A => Some("MBC5+RAM"),
        0x1B => Some("MBC5+RAM+BATTERY"),
        0x1C => Some("MBC5+RUMBLE"),
        0x1D => Some("MBC5+RUMBLE+RAM"),
        0x1E => Some("MBC5+RUMBLE+RAM+BATTERY"),
        0x20 => Some("MBC6"),
        0x22 => Some("MBC7+SENSOR+RUMBLE+RAM+BATTERY"),
        0xFC => Some("POCKET CAMERA"),
        0xFD => Some("BANDAI TAMA5"),
        0xFE => Some("HuC3"),
        0xFF => Some("HuC1+RAM+BATTERY"),
        _ => None,
    }
}

/// Publisher names of the old licensee list (header byte 0x14B).
pub open spec fn old_licensee_name(code: u8) -> Option<&'static str> {
    match code {
        0x00 => Some("None"),
        0x01 => Some("Nintendo"),
        0x08 => Some("Capcom"),
        0x09 => Some("HOT-B"),
        0x0A => Some("Jaleco"),
        0x0B => Some("Coconuts Japan"),
        0x0C => Some("Elite Systems"),
        0x13 => Some("EA (Electronic Arts)"),
        0x18 => Some("Hudson Soft"),
        0x19 => Some("ITC Entertainment"),
        0x1A => Some("Yanoman"),
        0x1D => Some("Japan Clary"),
        0x1F => Some("Virgin Games Ltd."),
        0x24 => Some("PCM Complete"),
        0x25 => Some("San-X"),
        0x28 => Some("Kemco"),
        0x29 => Some("SETA Corporation"),
        0x30 => Some("Infogrames"),
        0x31 => Some("Nintendo"),
        0x32 => Some("Bandai"),
        0x33 => Some("Use New Code"),
        0x34 => Some("Konami"),
        0x35 => Some("HectorSoft"),
        0x38 => Some("Capcom"),
        0x39 => Some("Banpresto"),
        0x3C => Some("Entertainment Interactive (stub)"),
        0x3E => Some("Gremlin"),
        0x41 => Some("Ubi Soft"),
        0x42 => Some("Atlus"),
        0x44 => Some("Malibu Interactive"),
        0x46 => Some("Angel"),
        0x47 => Some("Spectrum HoloByte"),
        0x49 => Some("Irem"),
        0x4A => Some("Virgin Games Ltd."),
        0x4D => Some("Malibu Interactive"),
        0x4F => Some("U.S. Gold"),
        0x50 => Some("Absolute"),
        0x51 => Some("Acclaim Entertainment"),
        0x52 => Some("Activision"),
        0x53 => Some("Sammy USA Corporation"),
        0x54 => Some("GameTek"),
        0x55 => Some("Park Place"),
        0x56 => Some("LJN"),
        0x57 => Some("Matchbox"),
        0x59 => Some("Milton Bradley Company"),
        0x5A => Some("Mindscape"),
        0x5B => Some("Romstar"),
        0x5C => Some("Naxat Soft"),
        0x5D => Some("Tradewest"),
        0x60 => Some("Titus Interactive"),
        0x61 => Some("Virgin Games Ltd."),
        0x67 => Some("Ocean Software"),
        0x69 => Some("EA (Electronic Arts)"),
        0x6E => Some("Elite Systems"),
        0x6F => Some("Electro Brain"),
        0x70 => Some("Infogrames"),
        0x71 => Some("Interplay Entertainment"),
        0x72 => Some("Broderbund"),
        0x73 => Some("Sculptured Software"),
        0x75 => Some("The Sales Curve Limited"),
        0x78 => Some("THQ"),
        0x79 => Some("Accolade"),
        0x7A => Some("Triffix Entertainment"),
        0x7C => Some("MicroProse"),
        0x7F => Some("Kemco"),
        0x80 => Some("Misawa Entertainment"),
        0x83 => Some("LOZC G."),
        0x86 => Some("Tokuma Shoten"),
        0x8B => Some("Bullet-Proof Software"),
        0x8C => Some("Vic Tokai Corp."),
        0x8E => Some("Ape Inc."),
        0x8F => Some("I'Max"),
        0x91 => Some("Chunsoft Co."),
        0x92 => Some("Video System"),
        0x93 => Some("Tsubaraya Productions"),
        0x95 => Some("Varie"),
        0x96 => Some("Yonezawa/S'Pal"),
        0x97 => Some("Kemco"),
        0x99 => Some("Arc"),
        0x9A => Some("Nihon Bussan"),
        0x9B => Some("Tecmo"),
        0x9C => Some("Imagineer"),
        0x9D => Some("Banpresto"),
        0x9F => Some("Nova"),
        0xA1 => Some("Hori Electric"),
        0xA2 => Some("Bandai"),
        0xA4 => Some("Konami"),
        0xA6 => Some("Kawada"),
        0xA7 => Some("Takara"),
        0xA9 => Some("Technos Japan"),
        0xAA => Some("Broderbund"),
        0xAC => Some("Toei Animation"),
        0xAD => Some("Toho"),
        0xAF => Some("Namco"),
        0xB0 => Some("Acclaim Entertainment"),
        0xB1 => Some("ASCII Corporation or Nexsoft"),
        0xB2 => Some("Bandai"),
        0xB4 => Some("Square Enix"),
        0xB6 => Some("HAL Laboratory"),
        0xB7 => Some("SNK"),
        0xB9 => Some("Pony Canyon"),
        0xBA => Some("Culture Brain"),
        0xBB => Some("Sunsoft"),
        0xBD => Some("Sony Imagesoft"),
        0xBF => Some("Sammy Corporation"),
        0xC0 => Some("Taito"),
        0xC2 => Some("Kemco"),
        0xC3 => Some("Square"),
        0xC4 => Some("Tokuma Shoten"),
        0xC5 => Some("Data East"),
        0xC6 => Some("Tonkin House"),
        0xC8 => Some("Koei"),
        0xC9 => Some("UFL"),
        0xCA => Some("Ultra Games"),
        0xCB => Some("VAP, Inc."),
        0xCC => Some("Use Corporation"),
        0xCD => Some("Meldac"),
        0xCE => Some("Pony Canyon"),
        0xCF => Some("Angel"),
        0xD0 => Some("Taito"),
        0xD1 => Some("SOFEL (Software Engineering Lab)"),
        0xD2 => Some("Quest"),
        0xD3 => Some("Sigma Enterprises"),
        0xD4 => Some("ASK Kodansha Co."),
        0xD6 => Some("Naxat Soft"),
        0xD7 => Some("Copya System"),
        0xD9 => Some("Banpresto"),
        0xDA => Some("Tomy"),
        0xDB => Some("LJN"),
        0xDD => Some("Nippon Computer Systems"),
        0xDE => Some("Human Ent."),
        0xDF => Some("Altron"),
        0xE0 => Some("Jaleco"),
        0xE1 => Some("Towa Chiki"),
        0xE2 => Some("Yutaka"),
        0xE3 => Some("Varie"),
        0xE5 => Some("Epoch"),
        0xE7 => Some("Athena"),
        0xE8 => Some("Asmik Ace Entertainment"),
        0xE9 => Some("Natsume"),
        0xEA => Some("King Records"),
        0xEB => Some("Atlus"),
        0xEC => Some("Epic/Sony Records"),
        0xEE => Some("IGS"),
        0xF0 => Some("A Wave"),
        0xF3 => Some("Extreme Entertainment"),
        0xFF => Some("LJN"),
        _ => None,
    }
}

impl CartridgeHeader {
    /// Every field zero.
    pub open spec fn is_blank(self) -> bool {
        &&& forall|i: int| 0 <= i < 16 ==> self.rom_title@[i] == 0
        &&& self.new_lic_code == 0 && self.sgb_flag == 0 && self.cart_type == 0 && self.rom_size == 0
        &&& self.ram_size == 0 && self.dest_code == 0 && self.old_lic_code == 0 && self.version == 0
        &&& self.checksum == 0 && self.global_checksum == 0
    }

    pub fn new() -> (r: CartridgeHeader)
        ensures
            r.is_blank(),
    {
        CartridgeHeader {
            rom_title: [0; 16],
            new_lic_code: 0,
            sgb_flag: 0,
            cart_type: 0,
            rom_size: 0,
            ram_size: 0,
            dest_code: 0,
            old_lic_code: 0,
            version: 0,
            checksum: 0,
            global_checksum: 0,
        }
    }

    /// Publisher of the cartridge from the new licensee list, looked up by the two hex
    /// digits of the old licensee code byte.
    pub fn new_license_lookup(&self) -> (r: Option<&'static str>)
        ensures
            r == new_licensee_name(self.old_lic_code),
    {
        match self.old_lic_code {
            0x00 => Some("None"),
            0x01 => Some("Nintendo Research & Development 1"),
            0x08 => Some("Capcom"),
            0x13 => Some("EA (Electronic Arts)"),
            0x18 => Some("Hudson Soft"),
            0x19 => Some("B-AI"),
            0x20 => Some("KSS"),
            0x22 => Some("Planning Office WADA"),
            0x24 => Some("PCM Complete"),
            0x25 => Some("San-X"),
            0x28 => Some("Kemco"),
            0x29 => Some("SETA Corporation"),
            0x30 => Some("Viacom"),
            0x31 => Some("Nintendo"),
            0x32 => Some("Bandai"),
            0x33 => Some("Ocean Software/Acclaim Entertainment"),
            0x34 => Some("Konami"),
            0x35 => Some("HectorSoft"),
            0x37 => Some("Taito"),
            0x38 => Some("Hudson Soft"),
            0x39 => Some("Banpresto"),
            0x41 => Some("Ubi Soft"),
            0x42 => Some("Atlus"),
            0x44 => Some("Malibu Interactive"),
            0x46 => Some("Angel"),
            0x47 => Some("Bullet-Proof Software"),
            0x49 => Some("Irem"),
            0x50 => Some("Absolute"),
            0x51 => Some("Acclaim Entertainment"),
            0x52 => Some("Activision"),
            0x53 => Some("Sammy USA Corporation"),
            0x54 => Some("Konami"),
            0x55 => Some("Hi Tech Expressions"),
            0x56 => Some("LJN"),
            0x57 => Some("Matchbox"),
            0x58 => Some("Mattel"),
            0x59 => Some("Milton Bradley Company"),
            0x60 => Some("Titus Interactive"),
            0x61 => Some("Virgin Games Ltd."),
            0x64 => Some("Lucasfilm Games"),
            0x67 => Some("Ocean Software"),
            0x69 => Some("EA (Electronic Arts)"),
            0x70 => Some("Infogrames"),
            0x71 => Some("Interplay Entertainment"),
            0x72 => Some("Broderbund"),
            0x73 => Some("Sculptured Software"),
            0x75 => Some("The Sales Curve Limited"),
            0x78 => Some("THQ"),
            0x79 => Some("Accolade"),
            0x80 => Some("Misawa Entertainment"),
            0x83 => Some("lozc"),
            0x86 => Some("Tokuma Shoten"),
            0x87 => Some("Tsukuda Original"),
            0x91 => Some("Chunsoft Co."),
            0x92 => Some("Video System"),
            0x93 => Some("Ocean Software/Acclaim Entertainment"),
            0x95 => Some("Varie"),
            0x96 => Some("Yonezawa/s'pal"),
            0x97 => Some("Kaneko"),
            0x99 => Some("Pack-In-Video"),
            0xA4 => Some("Konami (Yu-Gi-Oh!)"),
            _ => None,
        }
    }

    /// Name of the cartridge type.
    pub fn cart_type_lookup(&self) -> (r: Option<&'static str>)
        ensures
            r == cart_type_name(self.cart_type),
    {
        match self.cart_type {
            0x00 => Some("ROM ONLY"),
            0x01 => Some("MBC1"),
            0x02 => Some("MBC1+RAM"),
            0x03 => Some("MBC1+RAM+BATTERY"),
            0x05 => Some("MBC2"),
            0x06 => Some("MBC2+BATTERY"),
            0x08 => Some("ROM+RAM"),
            0x09 => Some("ROM+RAM+BATTERY"),
            0x0B => Some("MMM01"),
            0x0C => Some("MMM01+RAM"),
            0x0D => Some("MMM01+RAM+BATTERY"),
            0x0F => Some("MBC3+TIMER+BATTERY"),
            0x10 => Some("MBC3+TIMER+RAM+BATTERY"),
            0x11 => Some("MBC3"),
            0x12 => Some("MBC3+RAM"),
            0x13 => Some("MBC3+RAM+BATTERY"),
            0x19 => Some("MBC5"),
            0x1A => Some("MBC5+RAM"),
            0x1B => Some("MBC5+RAM+BATTERY"),
            0x1C => Some("MBC5+RUMBLE"),
            0x1D => Some("MBC5+RUMBLE+RAM"),
            0x1E => Some("MBC5+RUMBLE+RAM+BATTERY"),
            0x20 => Some("MBC6"),
            0x22 => Some("MBC7+SENSOR+RUMBLE+RAM+BATTERY"),
            0xFC => Some("POCKET CAMERA"),
            0xFD => Some("BANDAI TAMA5"),
            0xFE => Some("HuC3"),
            0xFF => Some("HuC1+RAM+BATTERY"),
            _ => None,
        }
    }

    /// Publisher of the cartridge from the old licensee list.
    pub fn old_license_lookup(&self) -> (r: Option<&'static str>)
        ensures
            r == old_licensee_name(self.old_lic_code),
    {
        match self.old_lic_code {
            0x00 => Some("None"),
            0x01 => Some("Nintendo"),
            0x08 => Some("Capcom"),
            0x09 => Some("HOT-B"),
            0x0A => Some("Jaleco"),
            0x0B => Some("Coconuts Japan"),
            0x0C => Some("Elite Systems"),
            0x13 => Some("EA (Electronic Arts)"),
            0x18 => Some("Hudson Soft"),
            0x19 => Some("ITC Entertainment"),
            0x1A => Some("Yanoman"),
            0x1D => Some("Japan Clary"),
            0x1F => Some("Virgin Games Ltd."),
            0x24 => Some("PCM Complete"),
            0x25 => Some("San-X"),
            0x28 => Some("Kemco"),
            0x29 => Some("SETA Corporation"),
            0x30 => Some("Infogrames"),
            0x31 => Some("Nintendo"),
            0x32 => Some("Bandai"),
            0x33 => Some("Use New Code"),
            0x34 => Some("Konami"),
            0x35 => Some("HectorSoft"),
            0x38 => Some("Capcom"),
            0x39 => Some("Banpresto"),
            0x3C => Some("Entertainment Interactive (stub)"),
            0x3E => Some("Gremlin"),
            0x41 => Some("Ubi Soft"),
            0x42 => Some("Atlus"),
            0x44 => Some("Malibu Interactive"),
            0x46 => Some("Angel"),
            0x47 => Some("Spectrum HoloByte"),
            0x49 => Some("Irem"),
            0x4A => Some("Virgin Games Ltd."),
            0x4D => Some("Malibu Interactive"),
            0x4F => Some("U.S. Gold"),
            0x50 => Some("Absolute"),
            0x51 => Some("Acclaim Entertainment"),
            0x52 => Some("Activision"),
            0x53 => Some("Sammy USA Corporation"),
            0x54 => Some("GameTek"),
            0x55 => Some("Park Place"),
            0x56 => Some("LJN"),
            0x57 => Some("Matchbox"),
            0x59 => Some("Milton Bradley Company"),
            0x5A => Some("Mindscape"),
            0x5B => Some("Romstar"),
            0x5C => Some("Naxat Soft"),
            0x5D => Some("Tradewest"),
            0x60 => Some("Titus Interactive"),
            0x61 => Some("Virgin Games Ltd."),
            0x67 => Some("Ocean Software"),
            0x69 => Some("EA (Electronic Arts)"),
            0x6E => Some("Elite Systems"),
            0x6F => Some("Electro Brain"),
            0x70 => Some("Infogrames"),
            0x71 => Some("Interplay Entertainment"),
            0x72 => Some("Broderbund"),
            0x73 => Some("Sculptured Software"),
            0x75 => Some("The Sales Curve Limited"),
            0x78 => Some("THQ"),
            0x79 => Some("Accolade"),
            0x7A => Some("Triffix Entertainment"),
            0x7C => Some("MicroProse"),
            0x7F => Some("Kemco"),
            0x80 => Some("Misawa Entertainment"),
            0x83 => Some("LOZC G."),
            0x86 => Some("Tokuma Shoten"),
            0x8B => Some("Bullet-Proof Software"),
            0x8C => Some("Vic Tokai Corp."),
            0x8E => Some("Ape Inc."),
            0x8F => Some("I'Max"),
            0x91 => Some("Chunsoft Co."),
            0x92 => Some("Video System"),
            0x93 => Some("Tsubaraya Productions"),
            0x95 => Some("Varie"),
            0x96 => Some("Yonezawa/S'Pal"),
            0x97 => Some("Kemco"),
            0x99 => Some("Arc"),
            0x9A => Some("Nihon Bussan"),
            0x9B => Some("Tecmo"),
            0x9C => Some("Imagineer"),
            0x9D => Some("Banpresto"),
            0x9F => Some("Nova"),
            0xA1 => Some("Hori Electric"),
            0xA2 => Some("Bandai"),
            0xA4 => Some("Konami"),
            0xA6 => Some("Kawada"),
            0xA7 => Some("Takara"),
            0xA9 => Some("Technos Japan"),
            0xAA => Some("Broderbund"),
            0xAC => Some("Toei Animation"),
            0xAD => Some("Toho"),
            0xAF => Some("Namco"),
            0xB0 => Some("Acclaim Entertainment"),
            0xB1 => Some("ASCII Corporation or Nexsoft"),
            0xB2 => Some("Bandai"),
            0xB4 => Some("Square Enix"),
            0xB6 => Some("HAL Laboratory"),
            0xB7 => Some("SNK"),
            0xB9 => Some("Pony Canyon"),
            0xBA => Some("Culture Brain"),
            0xBB => Some("Sunsoft"),
            0xBD => Some("Sony Imagesoft"),
            0xBF => Some("Sammy Corporation"),
            0xC0 => Some("Taito"),
            0xC2 => Some("Kemco"),
            0xC3 => Some("Square"),
            0xC4 => Some("Tokuma Shoten"),
            0xC5 => Some("Data East"),
            0xC6 => Some("Tonkin House"),
            0xC8 => Some("Koei"),
            0xC9 => Some("UFL"),
            0xCA => Some("Ultra Games"),
            0xCB => Some("VAP, Inc."),
            0xCC => Some("Use Corporation"),
            0xCD => Some("Meldac"),
            0xCE => Some("Pony Canyon"),
            0xCF => Some("Angel"),
            0xD0 => Some("Taito"),
            0xD1 => Some("SOFEL (Software Engineering Lab)"),
            0xD2 => Some("Quest"),
            0xD3 => Some("Sigma Enterprises"),
            0xD4 => Some("ASK Kodansha Co."),
            0xD6 => Some("Naxat Soft"),
            0xD7 => Some("Copya System"),
            0xD9 => Some("Banpresto"),
            0xDA => Some("Tomy"),
            0xDB => Some("LJN"),
            0xDD => Some("Nippon Computer Systems"),
            0xDE => Some("Human Ent."),
            0xDF => Some("Altron"),
            0xE0 => Some("Jaleco"),
            0xE1 => Some("Towa Chiki"),
            0xE2 => Some("Yutaka"),
            0xE3 => Some("Varie"),
            0xE5 => Some("Epoch"),
            0xE7 => Some("Athena"),
            0xE8 => Some("Asmik Ace Entertainment"),
            0xE9 => Some("Natsume"),
            0xEA => Some("King Records"),
            0xEB => Some("Atlus"),
            0xEC => Some("Epic/Sony Records"),
            0xEE => Some("IGS"),
            0xF0 => Some("A Wave"),
            0xF3 => Some("Extreme Entertainment"),
            0xFF => Some("LJN"),
            _ => None,
        }
    }
}

/// Why a ROM image was refused.
#[derive(Copy, Clone, PartialEq, Eq, Structural, Debug)]
pub enum CartError {
    /// The header checksum over 0x0134-0x014C did not match the stored one.
    ChecksumFailed { computed: u8, expected: u8 },
}

/// Header checksum over the `n` bytes starting at 0x0134: x = x - byte - 1, modulo 256.
pub open spec fn header_checksum_upto(data: Seq<u8>, n: int) -> u8
    decreases n,
{
    if n <= 0 {
        0
    } else {
        ((header_checksum_upto(data, n - 1) - data[0x0134 + n - 1] - 1 + 512) % 256) as u8
    }
}

/// The header checksum of a ROM image.
pub open spec fn header_checksum(data: Seq<u8>) -> u8 {
    header_checksum_upto(data, 0x014D - 0x0134)
}

/// Number of 8 KiB RAM banks for a header RAM-size code.
pub open spec fn ram_banks_for(ram_size: u8) -> int {
    if ram_size == 2 {
        1
    } else if ram_size == 3 {
        4
    } else if ram_size == 4 {
        16
    } else if ram_size == 5 {
        8
    } else {
        0
    }
}

/// A cartridge: ROM image, header, MBC1 banking registers and external RAM.
pub struct Cartridge {
    pub file_name: String,
    pub rom_size: usize,
    pub rom_data: Vec<u8>,
    pub rom_header: CartridgeHeader,
    pub ram_enabled: bool,
    pub ram_banking: bool,
    pub rom_bank_x: usize,
    pub banking_mode: u8,
    pub rom_bank_value: u8,
    pub ram_bank_value: u8,
    pub ram_bank: usize,
    /// External RAM, bank i at offsets i * 0x2000 .. (i + 1) * 0x2000.
    pub ram_banks: Box<[u8; 0x20000]>,
    /// Banks 0 .. ram_bank_count are present; the others read as 0xFF and ignore writes.
    pub ram_bank_count: usize,
    pub battery: bool,
    pub need_save: bool,
    /// A RAM bank whose contents must be written to the battery save before going on.
    pub save_request: Option<usize>,
}

impl Cartridge {
    pub open spec fn is_mbc1(self) -> bool {
        self.rom_header.cart_type == 1 || self.rom_header.cart_type == 2 || self.rom_header.cart_type == 3
    }

    pub open spec fn has_battery(self) -> bool {
        self.rom_header.cart_type == 0x03 || self.rom_header.cart_type == 0x06
            || self.rom_header.cart_type == 0x09 || self.rom_header.cart_type == 0x0D
    }

    /// Bounds that every cartridge keeps.
    pub open spec fn inv(self) -> bool {
        &&& self.ram_bank < 16
        &&& self.ram_bank_value < 16
        &&& self.ram_bank_count <= 16
        &&& self.rom_bank_x <= 0x4000 * 0x1F
        &&& (self.save_request matches Some(b) ==> b < self.ram_bank_count)
    }

    /// A cartridge that holds at least the fixed ROM bank.
    pub open spec fn wf(self) -> bool {
        &&& self.inv()
        &&& self.rom_data@.len() >= 0x4000
    }

    pub open spec fn ram_index(self, address: u16) -> int {
        self.ram_bank * 0x2000 + (address - 0xA000)
    }

    /// The byte that a read of `address` returns.
    pub open spec fn read_spec(self, address: u16) -> u8 {
        let rom = self.rom_data@;
        if address < 0x4000 {
            rom[address as int]
        } else if !self.is_mbc1() {
            if address < rom.len() {
                rom[address as int]
            } else {
                0xFF
            }
        } else if 0xA000 <= address < 0xC000 {
            if !self.ram_enabled || !self.ram_banking {
                0xFF
            } else if self.ram_bank < self.ram_bank_count {
                self.ram_banks@[self.ram_index(address)]
            } else {
                0xFF
            }
        } else {
            let ra = self.rom_bank_x + (address - 0x4000);
            if ra < rom.len() {
                rom[ra]
            } else {
                0xFF
            }
        }
    }

    /// The save request after a RAM bank switch: the current bank is to be saved first
    /// when it holds unsaved data.
    pub open spec fn request_after_switch(self) -> Option<usize> {
        if self.need_save && self.ram_bank < self.ram_bank_count {
            Some(self.ram_bank)
        } else {
            self.save_request
        }
    }

    /// The 8 KiB of RAM bank `bank`, as a battery save holds them.
    pub open spec fn battery_data(self, bank: int) -> Seq<u8> {
        self.ram_banks@.subrange(bank * 0x2000, (bank + 1) * 0x2000)
    }

    /// External RAM with the current bank overwritten by the first min(len, 0x2000) bytes
    /// of a battery save.
    pub open spec fn with_battery_data(self, save: Seq<u8>) -> Seq<u8> {
        let base = self.ram_bank * 0x2000;
        Seq::new(
            0x20000,
            |i: int| if base <= i < base + save.len() && i < base + 0x2000 {
                save[i - base]
            } else {
                self.ram_banks@[i]
            },
        )
    }

    /// The cartridge after a write of `value` to `address`.
    pub open spec fn written(self, address: u16, value: u8) -> Cartridge {
        if !self.is_mbc1() {
            self
        } else if address < 0x2000 {
            Cartridge { ram_enabled: value & 0xF == 0xA, ..self }
        } else if address < 0x4000 {
            let n = value & 0x1F;
            let v: u8 = if n == 0 { 1 } else { n };
            Cartridge { rom_bank_value: v, rom_bank_x: (0x4000 * v) as usize, ..self }
        } else if address < 0x6000 {
            let rbv = value & 0xF;
            if self.ram_banking {
                Cartridge {
                    ram_bank_value: rbv,
                    ram_bank: rbv as usize,
                    save_request: self.request_after_switch(),
                    ..self
                }
            } else {
                Cartridge { ram_bank_value: rbv, ..self }
            }
        } else if address < 0x8000 {
            let bm = value & 1;
            if bm != 0 {
                Cartridge {
                    banking_mode: bm,
                    ram_banking: true,
                    ram_bank: self.ram_bank_value as usize,
                    save_request: self.request_after_switch(),
                    ..self
                }
            } else {
                Cartridge { banking_mode: bm, ram_banking: false, ..self }
            }
        } else if 0xA000 <= address < 0xC000 {
            if !self.ram_enabled || self.ram_bank >= self.ram_bank_count {
                self
            } else {
                Cartridge {
                    ram_banks: Box::new(spec_array_update(*self.ram_banks, self.ram_index(address), value)),
                    need_save: self.need_save || self.battery,
                    ..self
                }
            }
        } else {
            self
        }
    }

    /// An empty cartridge with no ROM loaded.
    pub fn new() -> (r: Cartridge)
        ensures
            r.inv(),
            r.rom_data@.len() == 0,
            r.file_name@.len() == 0,
            r.rom_size == 0,
            r.rom_header.is_blank(),
            forall|i: int| 0 <= i < 0x20000 ==> r.ram_banks@[i] == 0,
            !r.ram_enabled && !r.ram_banking && !r.battery && !r.need_save,
            r.rom_bank_x == 0 && r.banking_mode == 0 && r.rom_bank_value == 0 && r.ram_bank_value == 0,
            r.ram_bank == 0 && r.ram_bank_count == 0,
            r.save_request.is_none(),
    {
        Cartridge {
            file_name: String::new(),
            rom_size: 0,
            rom_data: Vec::new(),
            rom_header: CartridgeHeader::new(),
            ram_enabled: false,
            ram_banking: false,
            rom_bank_x: 0,
            banking_mode: 0,
            rom_bank_value: 0,
            ram_bank_value: 0,
            ram_bank: 0,
            ram_banks: Box::new([0u8; 0x20000]),
            ram_bank_count: 0,
            battery: false,
            need_save: false,
            save_request: None,
        }
    }

    /// Allocates the RAM banks that the header's RAM size asks for (zero-filled) and
    /// resets banking: RAM bank 0, ROM bank 1; an MBC1 starts with RAM disabled and
    /// RAM banking on.
    pub fn cart_setup_banking(&mut self)
        requires
            old(self).inv(),
        ensures
            final(self).inv(),
            final(self).ram_bank_count == ram_banks_for(old(self).rom_header.ram_size),
            forall|i: int| 0 <= i < final(self).ram_bank_count * 0x2000 ==> final(self).ram_banks@[i] == 0,
            forall|i: int| final(self).ram_bank_count * 0x2000 <= i < 0x20000 ==> final(self).ram_banks@[i]
                == old(self).ram_banks@[i],
            final(self).ram_bank == 0,
            final(self).rom_bank_x == 0x4000,
            old(self).is_mbc1() ==> !final(self).ram_enabled && final(self).ram_banking,
            !old(self).is_mbc1() ==> final(self).ram_enabled == old(self).ram_enabled
                && final(self).ram_banking == old(self).ram_banking,
            final(self).save_request.is_none(),
            final(self).rom_data == old(self).rom_data,
            final(self).rom_header == old(self).rom_header,
            final(self).file_name == old(self).file_name,
            final(self).rom_size == old(self).rom_size,
            final(self).battery == old(self).battery,
            final(self).need_save == old(self).need_save,
            final(self).banking_mode == old(self).banking_mode,
            final(self).rom_bank_value == old(self).rom_bank_value,
            final(self).ram_bank_value == old(self).ram_bank_value,
    {
        let rs = self.rom_header.ram_size;
        let count: usize = if rs == 2 {
            1
        } else if rs == 3 {
            4
        } else if rs == 4 {
            16
        } else if rs == 5 {
            8
        } else {
            0
        };
        let limit: usize = count * RAM_BANK_SIZE;
        let mut i: usize = 0;
        while i < limit
            invariant
                limit == count * 0x2000,
                count <= 16,
                i <= limit,
                forall|j: int| 0 <= j < i ==> self.ram_banks@[j] == 0,
                forall|j: int| i <= j < 0x20000 ==> self.ram_banks@[j] == old(self).ram_banks@[j],
                self.rom_data == old(self).rom_data,
                self.rom_header == old(self).rom_header,
                self.file_name == old(self).file_name,
                self.rom_size == old(self).rom_size,
                self.battery == old(self).battery,
                self.need_save == old(self).need_save,
                self.banking_mode == old(self).banking_mode,
                self.rom_bank_value == old(self).rom_bank_value,
                self.ram_bank_value == old(self).ram_bank_value,
                self.ram_enabled == old(self).ram_enabled,
                self.ram_banking == old(self).ram_banking,
                self.rom_bank_x == old(self).rom_bank_x,
            decreases limit - i,
        {
            self.ram_banks[i] = 0;
            i = i + 1;
        }
        self.ram_bank_count = count;
        self.save_request = None;
        self.ram_bank = 0;
        self.rom_bank_x = 0x4000;
        if self.cart_mbc1() {
            self.ram_enabled = false;
            self.ram_banking = true;
        }
    }

    pub fn read_byte(&self, address: u16) -> (r: u8)
        requires
            self.wf(),
        ensures
            r == self.read_spec(address),
    {
        if address < 0x4000 {
            return self.rom_data[address as usize];
        }
        if !self.cart_mbc1() {
            let index = address as usize;
            if index < self.rom_data.len() {
                return self.rom_data[index];
            } else {
                return 0xFF;
            }
        }
        assert(((address & 0xE000) == 0xA000) == (0xA000 <= address && address < 0xC000)) by (bit_vector);
        if (address & 0xE000) == 0xA000 {
            if !self.ram_enabled {
                return 0xFF;
            }
            if !self.ram_banking {
                return 0xFF;
            }
            if self.ram_bank < self.ram_bank_count {
                return self.ram_banks[self.ram_bank * RAM_BANK_SIZE + (address as usize - 0xA000)];
            }
            return 0xFF;
        }
        let rom_address = self.rom_bank_x + (address as usize - 0x4000);
        if rom_address < self.rom_data.len() {
            self.rom_data[rom_address]
        } else {
            0xFF
        }
    }

    /// MBC1 register writes and external RAM writes; other cartridges ignore writes.
    pub fn write_byte(&mut self, address: u16, value: u8)
        requires
            old(self).inv(),
        ensures
            *final(self) == old(self).written(address, value),
            final(self).inv(),
    {
        if !self.cart_mbc1() {
            return;
        }
        let ghost a = address;
        assert(((a & 0xE000) == 0x2000) == (0x2000 <= a && a < 0x4000)) by (bit_vector);
        assert(((a & 0xE000) == 0x4000) == (0x4000 <= a && a < 0x6000)) by (bit_vector);
        assert(((a & 0xE000) == 0x6000) == (0x6000 <= a && a < 0x8000)) by (bit_vector);
        assert(((a & 0xE000) == 0xA000) == (0xA000 <= a && a < 0xC000)) by (bit_vector);
        let mut value = value;
        if address < 0x2000 {
            self.ram_enabled = (value & 0xF) == 0xA;
        }
        if (address & 0xE000) == 0x2000 {
            let v0 = value;
            assert(v0 & 0x1F <= 0x1F) by (bit_vector);
            value = value & 0b11111;
            if value == 0 {
                value = 1;
            }
            self.rom_bank_value = value;
            self.rom_bank_x = 0x4000 * self.rom_bank_value as usize;
        }
        if (address & 0xE000) == 0x4000 {
            let rbv = value & 0b1111;
            assert(value & 0xF <= 0xF) by (bit_vector);
            self.ram_bank_value = rbv;
            if self.ram_banking {
                self.request_save_before_switch();
                self.ram_bank = self.ram_bank_value as usize;
            }
        }
        if (address & 0xE000) == 0x6000 {
            self.banking_mode = value & 1;
            self.ram_banking = self.banking_mode != 0;
            if self.ram_banking {
                self.request_save_before_switch();
                self.ram_bank = self.ram_bank_value as usize;
            }
        }
        if (address & 0xE000) == 0xA000 {
            if !self.ram_enabled {
                return;
            }
            if self.ram_bank < self.ram_bank_count {
                let ram_address = self.ram_bank * RAM_BANK_SIZE + (address as usize - 0xA000);
                self.ram_banks[ram_address] = value;
                if self.battery {
                    self.need_save = true;
                }
            }
        }
    }

    /// Before the RAM bank changes, asks for the current bank to be saved when it
    /// holds unsaved data.
    fn request_save_before_switch(&mut self)
        requires
            old(self).inv(),
        ensures
            *final(self) == (Cartridge { save_request: old(self).request_after_switch(), ..*old(self) }),
    {
        if self.cart_needs_save() && self.ram_bank < self.ram_bank_count {
            self.save_request = Some(self.ram_bank);
        }
    }

    pub fn cart_needs_save(&self) -> (r: bool)
        ensures
            r == self.need_save,
    {
        self.need_save
    }

    /// Whether the header's cartridge type has a battery (types 0x03, 0x06, 0x09, 0x0D).
    pub fn cart_battery(&self) -> (r: bool)
        ensures
            r == self.has_battery(),
    {
        self.rom_header.cart_type == 0x03 || self.rom_header.cart_type == 0x06
            || self.rom_header.cart_type == 0x09 || self.rom_header.cart_type == 0x0D
    }

    /// Whether the header's cartridge type is an MBC1 (types 0x01, 0x02, 0x03).
    pub fn cart_mbc1(&self) -> (r: bool)
        ensures
            r == self.is_mbc1(),
    {
        self.rom_header.cart_type == 0x01 || self.rom_header.cart_type == 0x02
            || self.rom_header.cart_type == 0x03
    }
}


/// 0x8000 * 2^k: the ROM size that header code k announces.
pub open spec fn rom_size_for(k: nat) -> nat
    decreases k,
{
    if k == 0 {
        0x8000
    } else {
        2 * rom_size_for((k - 1) as nat)
    }
}

impl Cartridge {
    /// The header as it is stored in a ROM image.
    pub open spec fn header_of(data: Seq<u8>) -> CartridgeHeader {
        CartridgeHeader {
            rom_title: arbitrary(),
            new_lic_code: (data[0x0144] * 256 + data[0x0143]) as u16,
            sgb_flag: data[0x0146],
            cart_type: data[0x0147],
            rom_size: data[0x0148],
            ram_size: data[0x0149],
            dest_code: data[0x014A],
            old_lic_code: data[0x014B],
            version: data[0x014C],
            checksum: data[0x014D],
            global_checksum: (data[0x014F] * 256 + data[0x014E]) as u16,
        }
    }

    /// Installs a ROM image read from `file_name`: keeps the bytes, decodes the header,
    /// sets the ROM size from the header, sets up banking and checks the header checksum.
    /// The image stays installed when the checksum fails.
    pub fn load_cart(&mut self, file_name: String, data: Vec<u8>) -> (r: Result<(), CartError>)
        requires
            old(self).inv(),
            data@.len() >= 0x150,
            data@[0x0148] < 17,
        ensures
            final(self).inv(),
            data@.len() >= 0x4000 ==> final(self).wf(),
            final(self).file_name == file_name,
            final(self).rom_data@ == data@,
            forall|i: int| 0 <= i < 16 ==> final(self).rom_header.rom_title@[i] == data@[0x0134 + i],
            final(self).rom_header == (CartridgeHeader {
                rom_title: final(self).rom_header.rom_title,
                ..Cartridge::header_of(data@)
            }),
            final(self).rom_size == rom_size_for(data@[0x0148] as nat),
            final(self).battery == final(self).has_battery(),
            !final(self).need_save,
            final(self).ram_bank_count == ram_banks_for(data@[0x0149]),
            forall|i: int| 0 <= i < final(self).ram_bank_count * 0x2000 ==> final(self).ram_banks@[i] == 0,
            final(self).ram_bank == 0,
            final(self).rom_bank_x == 0x4000,
            final(self).is_mbc1() ==> !final(self).ram_enabled && final(self).ram_banking,
            !final(self).is_mbc1() ==> final(self).ram_enabled == old(self).ram_enabled
                && final(self).ram_banking == old(self).ram_banking,
            forall|i: int| final(self).ram_bank_count * 0x2000 <= i < 0x20000 ==> final(self).ram_banks@[i]
                == old(self).ram_banks@[i],
            final(self).banking_mode == old(self).banking_mode,
            final(self).rom_bank_value == old(self).rom_bank_value,
            final(self).ram_bank_value == old(self).ram_bank_value,
            final(self).save_request.is_none(),
            r.is_ok() <==> header_checksum(data@) == data@[0x014D],
            r.is_err() ==> r == Err::<(), CartError>(
                CartError::ChecksumFailed { computed: header_checksum(data@), expected: data@[0x014D] },
            ),
    {
        self.file_name = file_name;
        self.rom_size = data.len();
        let mut title = [0u8; 16];
        let mut i: usize = 0;
        while i < 16
            invariant
                0 <= i <= 16,
                data@.len() >= 0x150,
                forall|j: int| 0 <= j < i ==> title@[j] == data@[0x0134 + j],
            decreases 16 - i,
        {
            title[i] = data[0x0134 + i];
            i = i + 1;
        }
        let header = CartridgeHeader {
            rom_title: title,
            new_lic_code: crate::hdw::registers::make_word(data[0x0144], data[0x0143]),
            sgb_flag: data[0x0146],
            cart_type: data[0x0147],
            rom_size: data[0x0148],
            ram_size: data[0x0149],
            dest_code: data[0x014A],
            old_lic_code: data[0x014B],
            version: data[0x014C],
            checksum: data[0x014D],
            global_checksum: crate::hdw::registers::make_word(data[0x014F], data[0x014E]),
        };
        self.rom_data = data;
        self.rom_header = header;
        let k = header.rom_size;
        let mut size: usize = 0x8000;
        let mut n: u8 = 0;
        while n < k
            invariant
                n <= k,
                k < 17,
                size == rom_size_for(n as nat),
                size <= 0x8000 * 0x10000,
            decreases k - n,
        {
            proof {
                lemma_rom_size_bound(n as nat);
            }
            size = size * 2;
            n = n + 1;
        }
        self.rom_size = size;
        self.battery = self.cart_battery();
        self.need_save = false;
        self.cart_setup_banking();
        self.checksum_test()
    }

    /// Checks the header checksum of the installed image against the stored one.
    pub fn checksum_test(&self) -> (r: Result<(), CartError>)
        requires
            self.rom_data@.len() >= 0x150,
        ensures
            r.is_ok() <==> header_checksum(self.rom_data@) == self.rom_header.checksum,
            r.is_err() ==> r == Err::<(), CartError>(
                CartError::ChecksumFailed {
                    computed: header_checksum(self.rom_data@),
                    expected: self.rom_header.checksum,
                },
            ),
    {
        let computed = header_checksum_of(&self.rom_data);
        if computed == self.rom_header.checksum {
            Ok(())
        } else {
            Err(CartError::ChecksumFailed { computed, expected: self.rom_header.checksum })
        }
    }

    /// Fills the current RAM bank from a battery save: its first min(len, 0x2000) bytes.
    /// Nothing happens when the current bank is absent.
    pub fn cart_load_battery(&mut self, save_data: &Vec<u8>)
        requires
            old(self).inv(),
        ensures
            final(self).inv(),
            old(self).ram_bank >= old(self).ram_bank_count ==> final(self).ram_banks == old(self).ram_banks,
            old(self).ram_bank < old(self).ram_bank_count ==> final(self).ram_banks@ == old(self).with_battery_data(
                save_data@,
            ),
            *final(self) == (Cartridge { ram_banks: final(self).ram_banks, ..*old(self) }),
    {
        if self.ram_bank >= self.ram_bank_count {
            return;
        }
        let base = self.ram_bank * RAM_BANK_SIZE;
        let copy_len = if save_data.len() < RAM_BANK_SIZE {
            save_data.len()
        } else {
            RAM_BANK_SIZE
        };
        let mut i: usize = 0;
        while i < copy_len
            invariant
                i <= copy_len <= 0x2000,
                copy_len <= save_data@.len(),
                copy_len == (if save_data@.len() < 0x2000 { save_data@.len() as int } else { 0x2000 }),
                base == old(self).ram_bank * 0x2000,
                old(self).ram_bank < 16,
                forall|j: int| 0 <= j < 0x20000 ==> self.ram_banks@[j] == (if base <= j < base + i {
                    save_data@[j - base]
                } else {
                    old(self).ram_banks@[j]
                }),
                *self == (Cartridge { ram_banks: self.ram_banks, ..*old(self) }),
            decreases copy_len - i,
        {
            self.ram_banks[base + i] = save_data[i];
            i = i + 1;
        }
        proof {
            assert(self.ram_banks@ =~= old(self).with_battery_data(save_data@));
        }
    }

    /// The 8 KiB of RAM bank `bank`, or `None` when that bank is absent.
    pub fn cart_save_battery(&self, bank: usize) -> (r: Option<Vec<u8>>)
        requires
            self.inv(),
        ensures
            bank >= self.ram_bank_count ==> r.is_none(),
            bank < self.ram_bank_count ==> (r matches Some(v) && v@ == self.battery_data(bank as int)),
    {
        if bank >= self.ram_bank_count {
            return None;
        }
        let base = bank * RAM_BANK_SIZE;
        let mut out: Vec<u8> = Vec::new();
        let mut i: usize = 0;
        while i < RAM_BANK_SIZE
            invariant
                i <= 0x2000,
                base == bank * 0x2000,
                bank < 16,
                out@ == self.ram_banks@.subrange(base as int, base + i),
            decreases 0x2000 - i,
        {
            out.push(self.ram_banks[base + i]);
            i = i + 1;
        }
        Some(out)
    }

    /// Records that the battery save was written: nothing is left to save.
    pub fn battery_saved(&mut self)
        ensures
            *final(self) == (Cartridge { need_save: false, save_request: None, ..*old(self) }),
    {
        self.need_save = false;
        self.save_request = None;
    }
}

/// With RAM enabled on an MBC1 cartridge and a present RAM bank selected, external RAM
/// reads back what was written to it.
pub proof fn law_ram_read_after_write(cart: Cartridge, address: u16, value: u8)
    requires
        cart.inv(),
        cart.is_mbc1(),
        cart.ram_enabled,
        cart.ram_banking,
        cart.ram_bank < cart.ram_bank_count,
        0xA000 <= address < 0xC000,
    ensures
        cart.written(address, value).read_spec(address) == value,
{
}

/// Writes to the cartridge never change what the fixed ROM bank (0x0000-0x3FFF) reads.
pub proof fn law_fixed_bank_unchanged(cart: Cartridge, address: u16, other: u16, value: u8)
    requires
        other < 0x4000,
    ensures
        cart.written(address, value).read_spec(other) == cart.read_spec(other),
{
}

/// On MBC1, a ROM bank number of 0 selects bank 1: the switchable area then reads the
/// second 16 KiB of the image.
pub proof fn law_bank_zero_selects_one(cart: Cartridge, address: u16, other: u16)
    requires
        cart.is_mbc1(),
        0x2000 <= address < 0x4000,
        0x4000 <= other < 0x8000,
    ensures
        cart.written(address, 0).read_spec(other) == cart.written(address, 1).read_spec(other),
        cart.written(address, 0).rom_bank_x == 0x4000,
{
    assert(0u8 & 0x1Fu8 == 0u8 && 1u8 & 0x1Fu8 == 1u8) by (bit_vector);
}

/// On MBC1, writing `value` to 0x2000-0x3FFF selects ROM bank `value % 32` (bank 0 read as
/// bank 1): afterwards the switchable area 0x4000-0x7FFF reads that 16 KiB bank of the
/// image (0xFF past its end), so every bank 1..=31 can be reached.
pub proof fn law_rom_bank_select(cart: Cartridge, address: u16, value: u8, other: u16)
    requires
        cart.is_mbc1(),
        0x2000 <= address < 0x4000,
        0x4000 <= other < 0x8000,
    ensures
        ({
            let bank: int = if value % 32 == 0 { 1int } else { (value % 32) as int };
            let at = 0x4000 * bank + (other - 0x4000);
            &&& cart.written(address, value).rom_bank_x == 0x4000 * bank
            &&& cart.written(address, value).read_spec(other) == (if at < cart.rom_data@.len() {
                cart.rom_data@[at]
            } else {
                0xFF
            })
        }),
{
    assert(value & 0x1F == value % 32) by (bit_vector);
}

/// On MBC1, a write below 0x2000 enables external RAM exactly when the low nibble of the
/// value is 0xA, and a write to 0x4000-0x5FFF selects RAM bank `value % 16` (switched in
/// at once in RAM banking mode); neither changes the selected ROM bank.
pub proof fn law_mbc1_ram_registers(cart: Cartridge, address: u16, value: u8)
    requires
        cart.is_mbc1(),
    ensures
        address < 0x2000 ==> cart.written(address, value).ram_enabled == (value % 16 == 10),
        0x4000 <= address < 0x6000 ==> cart.written(address, value).ram_bank_value == value % 16,
        0x4000 <= address < 0x6000 && cart.ram_banking ==> cart.written(address, value).ram_bank
            == value % 16,
        address < 0x2000 || 0x4000 <= address < 0x6000 ==> cart.written(address, value).rom_bank_x
            == cart.rom_bank_x,
{
    assert(value & 0xF == value % 16) by (bit_vector);
}

/// Loading the save of the current RAM bank back into the cartridge leaves its RAM as it
/// was: a battery save round-trips.
pub proof fn law_battery_roundtrip(cart: Cartridge)
    requires
        cart.inv(),
        cart.ram_bank < cart.ram_bank_count,
    ensures
        cart.with_battery_data(cart.battery_data(cart.ram_bank as int)) == cart.ram_banks@,
{
    assert(cart.with_battery_data(cart.battery_data(cart.ram_bank as int)) =~= cart.ram_banks@);
}

proof fn lemma_rom_size_monotone(m: nat, n: nat)
    requires
        m <= n,
    ensures
        rom_size_for(m) <= rom_size_for(n),
    decreases n,
{
    if m < n {
        lemma_rom_size_monotone(m, (n - 1) as nat);
    }
}

proof fn lemma_rom_size_bound(n: nat)
    requires
        n < 16,
    ensures
        2 * rom_size_for(n) <= 0x8000 * 0x10000,
{
    assert(rom_size_for(15) == 0x40000000) by {
        reveal_with_fuel(rom_size_for, 16);
    }
    lemma_rom_size_monotone(n, 15);
}

/// The header checksum of an image, computed over 0x0134-0x014C.
pub fn header_checksum_of(data: &Vec<u8>) -> (r: u8)
    requires
        data@.len() >= 0x150,
    ensures
        r == header_checksum(data@),
{
    let mut checksum: u8 = 0;
    let mut address: usize = 0x0134;
    while address <= 0x014C
        invariant
            0x0134 <= address <= 0x014D,
            data@.len() >= 0x150,
            checksum == header_checksum_upto(data@, address - 0x0134),
        decreases 0x014D - address,
    {
        let ghost prev = checksum;
        checksum = checksum.wrapping_sub(data[address]).wrapping_sub(1);
        proof {
            let n = address - 0x0134 + 1;
            assert(header_checksum_upto(data@, n) == ((prev - data@[address as int] - 1 + 512) % 256) as u8);
        }
        address = address + 1;
    }
    checksum
}

} // verus!
