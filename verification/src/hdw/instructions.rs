use vstd::prelude::*;
use crate::hdw::bus::BUS;

verus! {

/// An 8-bit operand: a register or the byte at (HL).
#[derive(Copy, Clone, PartialEq, Eq, Structural, Debug)]
pub enum HLTarget {
    A,
    B,
    C,
    D,
    E,
    H,
    L,
    HL,
}

/// Operand of the 8-bit ALU instructions: a register, (HL), or the immediate byte.
#[derive(Copy, Clone, PartialEq, Eq, Structural, Debug)]
pub enum OPTarget {
    A,
    B,
    C,
    D,
    E,
    H,
    L,
    HL,
    D8,
}

/// Condition of a jump, call or return. `HL` names the register jump JP HL.
#[derive(Copy, Clone, PartialEq, Eq, Structural, Debug)]
pub enum JumpTest {
    NotZero,
    Zero,
    NotCarry,
    Carry,
    Always,
    HL,
}

/// Bit number (0..7) and operand of BIT, RES and SET.
#[derive(Copy, Clone, PartialEq, Eq, Structural, Debug)]
pub enum ByteTarget {
    Zero(HLTarget),
    One(HLTarget),
    Two(HLTarget),
    Three(HLTarget),
    Four(HLTarget),
    Five(HLTarget),
    Six(HLTarget),
    Seven(HLTarget),
}

impl ByteTarget {
    pub open spec fn index(self) -> u8 {
        match self {
            ByteTarget::Zero(_) => 0,
            ByteTarget::One(_) => 1,
            ByteTarget::Two(_) => 2,
            ByteTarget::Three(_) => 3,
            ByteTarget::Four(_) => 4,
            ByteTarget::Five(_) => 5,
            ByteTarget::Six(_) => 6,
            ByteTarget::Seven(_) => 7,
        }
    }

    pub open spec fn operand(self) -> HLTarget {
        match self {
            ByteTarget::Zero(t) => t,
            ByteTarget::One(t) => t,
            ByteTarget::Two(t) => t,
            ByteTarget::Three(t) => t,
            ByteTarget::Four(t) => t,
            ByteTarget::Five(t) => t,
            ByteTarget::Six(t) => t,
            ByteTarget::Seven(t) => t,
        }
    }

    /// The bit number and the operand.
    pub fn parts(self) -> (r: (u8, HLTarget))
        ensures
            r.0 == self.index(),
            r.1 == self.operand(),
    {
        match self {
            ByteTarget::Zero(t) => (0, t),
            ByteTarget::One(t) => (1, t),
            ByteTarget::Two(t) => (2, t),
            ByteTarget::Three(t) => (3, t),
            ByteTarget::Four(t) => (4, t),
            ByteTarget::Five(t) => (5, t),
            ByteTarget::Six(t) => (6, t),
            ByteTarget::Seven(t) => (7, t),
        }
    }
}

/// Target of INC and DEC: an 8-bit register, the byte at (HL), or a 16-bit register.
#[derive(Copy, Clone, PartialEq, Eq, Structural, Debug)]
pub enum AllRegisters {
    A,
    B,
    C,
    D,
    E,
    H,
    L,
    HLMEM,
    BC,
    DE,
    HL,
    SP,
}

/// Register pair of PUSH and POP.
#[derive(Copy, Clone, PartialEq, Eq, Structural, Debug)]
pub enum StackTarget {
    AF,
    BC,
    DE,
    HL,
}

/// Restart vector of RST: 0x00, 0x08, ..., 0x38.
#[derive(Copy, Clone, PartialEq, Eq, Structural, Debug)]
pub enum RestTarget {
    Zero,
    One,
    Two,
    Three,
    Four,
    Five,
    Six,
    Seven,
}

impl RestTarget {
    pub open spec fn vector(self) -> u16 {
        match self {
            RestTarget::Zero => 0x00,
            RestTarget::One => 0x08,
            RestTarget::Two => 0x10,
            RestTarget::Three => 0x18,
            RestTarget::Four => 0x20,
            RestTarget::Five => 0x28,
            RestTarget::Six => 0x30,
            RestTarget::Seven => 0x38,
        }
    }
}

/// Register pair added to HL by ADD HL,rr.
#[derive(Copy, Clone, PartialEq, Eq, Structural, Debug)]
pub enum AddN16Target {
    BC,
    DE,
    HL,
    SP,
}

/// The forms of ADD: A plus an 8-bit operand, HL plus a pair, SP plus a signed byte,
/// A plus the immediate byte.
#[derive(Copy, Clone, PartialEq, Eq, Structural, Debug)]
pub enum OPType {
    LoadA(HLTarget),
    LoadHL(AddN16Target),
    LoadSP,
    LoadD8,
}

/// Destination of a 16-bit load.
#[derive(Copy, Clone, PartialEq, Eq, Structural, Debug)]
pub enum LoadWordTarget {
    BC,
    HL,
    DE,
    N16,
    SP,
}

/// Source of a 16-bit load: the immediate word, SP plus a signed byte, SP, or HL.
#[derive(Copy, Clone, PartialEq, Eq, Structural, Debug)]
pub enum LoadWordSource {
    N16,
    SPE8,
    SP,
    HL,
}

/// Address register of LD (rr),A and LD A,(rr); HLDEC/HLINC step HL afterwards.
#[derive(Copy, Clone, PartialEq, Eq, Structural, Debug)]
pub enum LoadN16 {
    BC,
    DE,
    HLDEC,
    HLINC,
}

/// LDH direction: `A` loads A from (0xFF00 + n), `A8` stores A there.
#[derive(Copy, Clone, PartialEq, Eq, Structural, Debug)]
pub enum LoadA8Target {
    A,
    A8,
}

/// `A` loads A from (nn), `A16` stores A there.
#[derive(Copy, Clone, PartialEq, Eq, Structural, Debug)]
pub enum LoadA16Target {
    A,
    A16,
}

/// `A` loads A from (0xFF00 + C), `C` stores A there.
#[derive(Copy, Clone, PartialEq, Eq, Structural, Debug)]
pub enum LoadACTarget {
    A,
    C,
}

/// The forms of LD.
#[derive(Copy, Clone, PartialEq, Eq, Structural, Debug)]
pub enum LoadType {
    RegInReg(HLTarget, HLTarget),
    Word(LoadWordTarget, LoadWordSource),
    AStoreInN16(LoadN16),
    N16StoreInA(LoadN16),
    D8StoreInReg(HLTarget),
    AWithA8(LoadA8Target),
    AWithA16(LoadA16Target),
    AWithAC(LoadACTarget),
}

impl LoadType {
    /// The combinations that name an instruction: LD (HL),(HL) does not, nor do
    /// 16-bit loads other than rr,nn / HL,SP+e / (nn),SP / SP,HL.
    pub open spec fn is_valid(self) -> bool {
        match self {
            LoadType::RegInReg(d, s) => !(d == HLTarget::HL && s == HLTarget::HL),
            LoadType::Word(t, s) => match t {
                LoadWordTarget::BC => s == LoadWordSource::N16,
                LoadWordTarget::DE => s == LoadWordSource::N16,
                LoadWordTarget::HL => s == LoadWordSource::N16 || s == LoadWordSource::SPE8,
                LoadWordTarget::N16 => s == LoadWordSource::SP,
                LoadWordTarget::SP => s == LoadWordSource::N16 || s == LoadWordSource::HL,
            },
            _ => true,
        }
    }
}


/// A decoded instruction: kind, addressing mode, registers, condition and parameter.
#[derive(Copy, Clone, PartialEq, Eq, Structural, Debug)]
pub struct Instruction {
    pub in_type: InType,
    pub mode: AddrMode,
    pub reg_1: RegType,
    pub reg_2: RegType,
    pub cond: CondType,
    pub param: u8,
}

#[allow(non_camel_case_types)]
#[derive(Copy, Clone, PartialEq, Eq, Structural, Debug)]
pub enum InType {
    IN_NONE,
    IN_NOP,
    IN_LD,
    IN_INC,
    IN_DEC,
    IN_RLCA,
    IN_ADD,
    IN_RRCA,
    IN_STOP,
    IN_RLA,
    IN_JR,
    IN_RRA,
    IN_DAA,
    IN_CPL,
    IN_SCF,
    IN_CCF,
    IN_HALT,
    IN_ADC,
    IN_SUB,
    IN_SBC,
    IN_AND,
    IN_XOR,
    IN_OR,
    IN_CP,
    IN_POP,
    IN_JP,
    IN_PUSH,
    IN_RET,
    IN_CB,
    IN_CALL,
    IN_RETI,
    IN_LDH,
    IN_JPHL,
    IN_DI,
    IN_EI,
    IN_RST,
    IN_ERR,
    IN_RLC,
    IN_RRC,
    IN_RL,
    IN_RR,
    IN_SLA,
    IN_SRA,
    IN_SWAP,
    IN_SRL,
    IN_BIT,
    IN_RES,
    IN_SET,
}

#[allow(non_camel_case_types)]
#[derive(Copy, Clone, PartialEq, Eq, Structural, Debug)]
pub enum AddrMode {
    AM_IMP,
    AM_R_D16,
    AM_R_R,
    AM_MR_R,
    AM_R,
    AM_R_D8,
    AM_R_MR,
    AM_R_HLI,
    AM_R_HLD,
    AM_HLI_R,
    AM_HLD_R,
    AM_R_A8,
    AM_A8_R,
    AM_HL_SPR,
    AM_D16,
    AM_D8,
    AM_D16_R,
    AM_MR_D8,
    AM_MR,
    AM_A16_R,
    AM_R_A16,
}

#[allow(non_camel_case_types)]
#[derive(Copy, Clone, PartialEq, Eq, Structural, Debug)]
pub enum RegType {
    RT_NONE,
    RT_A,
    RT_F,
    RT_B,
    RT_C,
    RT_D,
    RT_E,
    RT_H,
    RT_L,
    RT_AF,
    RT_BC,
    RT_DE,
    RT_HL,
    RT_SP,
    RT_PC,
}

#[allow(non_camel_case_types)]
#[derive(Copy, Clone, PartialEq, Eq, Structural, Debug)]
pub enum CondType {
    CT_NONE,
    CT_NZ,
    CT_Z,
    CT_NC,
    CT_C,
}


/// The 8-bit operand of register field i (0..7): B, C, D, E, H, L, (HL), A.
pub open spec fn r8(i: int) -> RegType {
    if i == 0 {
        RegType::RT_B
    } else if i == 1 {
        RegType::RT_C
    } else if i == 2 {
        RegType::RT_D
    } else if i == 3 {
        RegType::RT_E
    } else if i == 4 {
        RegType::RT_H
    } else if i == 5 {
        RegType::RT_L
    } else if i == 6 {
        RegType::RT_HL
    } else {
        RegType::RT_A
    }
}

/// Register pair of field p (0..3) in loads and 16-bit arithmetic: BC, DE, HL, SP.
pub open spec fn r16(p: int) -> RegType {
    if p == 0 {
        RegType::RT_BC
    } else if p == 1 {
        RegType::RT_DE
    } else if p == 2 {
        RegType::RT_HL
    } else {
        RegType::RT_SP
    }
}

/// Register pair of field p (0..3) in PUSH and POP: BC, DE, HL, AF.
pub open spec fn r16_stack(p: int) -> RegType {
    if p == 0 {
        RegType::RT_BC
    } else if p == 1 {
        RegType::RT_DE
    } else if p == 2 {
        RegType::RT_HL
    } else {
        RegType::RT_AF
    }
}

/// ALU operation of field y (0..7): ADD, ADC, SUB, SBC, AND, XOR, OR, CP.
pub open spec fn alu(y: int) -> InType {
    if y == 0 {
        InType::IN_ADD
    } else if y == 1 {
        InType::IN_ADC
    } else if y == 2 {
        InType::IN_SUB
    } else if y == 3 {
        InType::IN_SBC
    } else if y == 4 {
        InType::IN_AND
    } else if y == 5 {
        InType::IN_XOR
    } else if y == 6 {
        InType::IN_OR
    } else {
        InType::IN_CP
    }
}

/// Condition of field y (0..3): NZ, Z, NC, C.
pub open spec fn cc(y: int) -> CondType {
    if y == 0 {
        CondType::CT_NZ
    } else if y == 1 {
        CondType::CT_Z
    } else if y == 2 {
        CondType::CT_NC
    } else {
        CondType::CT_C
    }
}

pub open spec fn mk(t: InType, m: AddrMode, r1: RegType, r2: RegType, c: CondType, p: u8) -> Option<Instruction> {
    Some(Instruction { in_type: t, mode: m, reg_1: r1, reg_2: r2, cond: c, param: p })
}

pub open spec fn mk0(t: InType, m: AddrMode) -> Option<Instruction> {
    mk(t, m, RegType::RT_NONE, RegType::RT_NONE, CondType::CT_NONE, 0)
}

pub open spec fn mk2(t: InType, m: AddrMode, r1: RegType, r2: RegType) -> Option<Instruction> {
    mk(t, m, r1, r2, CondType::CT_NONE, 0)
}

/// Decoding of the unprefixed opcodes, stated by the fields of the opcode:
/// x = bits 7..6, y = bits 5..3, z = bits 2..0, p = y / 2, q = y % 2.
/// Opcodes 0xD3, 0xDB, 0xDD, 0xE3, 0xE4, 0xEB, 0xEC, 0xED, 0xF4, 0xFC and 0xFD
/// are not instructions.
pub open spec fn np_decode(op: u8) -> Option<Instruction> {
    let x = op as int / 64;
    let y = (op as int / 8) % 8;
    let z = op as int % 8;
    let p = y / 2;
    let q = y % 2;
    let none = RegType::RT_NONE;
    if x == 0 {
        if z == 0 {
            if y == 0 {
                mk0(InType::IN_NOP, AddrMode::AM_IMP)
            } else if y == 1 {
                mk2(InType::IN_LD, AddrMode::AM_A16_R, none, RegType::RT_SP)
            } else if y == 2 {
                mk0(InType::IN_STOP, AddrMode::AM_IMP)
            } else if y == 3 {
                mk0(InType::IN_JR, AddrMode::AM_D8)
            } else {
                mk(InType::IN_JR, AddrMode::AM_D8, none, none, cc(y - 4), 0)
            }
        } else if z == 1 {
            if q == 0 {
                mk2(InType::IN_LD, AddrMode::AM_R_D16, r16(p), none)
            } else {
                mk2(InType::IN_ADD, AddrMode::AM_R_R, RegType::RT_HL, r16(p))
            }
        } else if z == 2 {
            let m = if p < 2 {
                if q == 0 { AddrMode::AM_MR_R } else { AddrMode::AM_R_MR }
            } else if p == 2 {
                if q == 0 { AddrMode::AM_HLI_R } else { AddrMode::AM_R_HLI }
            } else {
                if q == 0 { AddrMode::AM_HLD_R } else { AddrMode::AM_R_HLD }
            };
            let pair = if p < 2 { r16(p) } else { RegType::RT_HL };
            if q == 0 {
                mk2(InType::IN_LD, m, pair, RegType::RT_A)
            } else {
                mk2(InType::IN_LD, m, RegType::RT_A, pair)
            }
        } else if z == 3 {
            mk2(if q == 0 { InType::IN_INC } else { InType::IN_DEC }, AddrMode::AM_R, r16(p), none)
        } else if z == 4 || z == 5 {
            let t = if z == 4 { InType::IN_INC } else { InType::IN_DEC };
            if y == 6 {
                mk2(t, AddrMode::AM_MR, RegType::RT_HL, none)
            } else {
                mk2(t, AddrMode::AM_R, r8(y), none)
            }
        } else if z == 6 {
            if y == 6 {
                mk2(InType::IN_LD, AddrMode::AM_MR_D8, RegType::RT_HL, none)
            } else {
                mk2(InType::IN_LD, AddrMode::AM_R_D8, r8(y), none)
            }
        } else {
            let t = if y == 0 {
                InType::IN_RLCA
            } else if y == 1 {
                InType::IN_RRCA
            } else if y == 2 {
                InType::IN_RLA
            } else if y == 3 {
                InType::IN_RRA
            } else if y == 4 {
                InType::IN_DAA
            } else if y == 5 {
                InType::IN_CPL
            } else if y == 6 {
                InType::IN_SCF
            } else {
                InType::IN_CCF
            };
            mk2(t, AddrMode::AM_IMP, if y == 4 { RegType::RT_A } else { none }, none)
        }
    } else if x == 1 {
        if op == 0x76 {
            mk0(InType::IN_HALT, AddrMode::AM_IMP)
        } else if y == 6 {
            mk2(InType::IN_LD, AddrMode::AM_MR_R, RegType::RT_HL, r8(z))
        } else if z == 6 {
            mk2(InType::IN_LD, AddrMode::AM_R_MR, r8(y), RegType::RT_HL)
        } else {
            mk2(InType::IN_LD, AddrMode::AM_R_R, r8(y), r8(z))
        }
    } else if x == 2 {
        if z == 6 {
            mk2(alu(y), AddrMode::AM_R_MR, RegType::RT_A, RegType::RT_HL)
        } else {
            mk2(alu(y), AddrMode::AM_R_R, RegType::RT_A, r8(z))
        }
    } else {
        if z == 0 {
            if y < 4 {
                mk(InType::IN_RET, AddrMode::AM_IMP, none, none, cc(y), 0)
            } else if y == 4 {
                mk2(InType::IN_LDH, AddrMode::AM_A8_R, none, RegType::RT_A)
            } else if y == 5 {
                mk2(InType::IN_ADD, AddrMode::AM_R_D8, RegType::RT_SP, none)
            } else if y == 6 {
                mk2(InType::IN_LDH, AddrMode::AM_R_A8, RegType::RT_A, none)
            } else {
                mk2(InType::IN_LD, AddrMode::AM_HL_SPR, RegType::RT_HL, RegType::RT_SP)
            }
        } else if z == 1 {
            if q == 0 {
                mk2(InType::IN_POP, AddrMode::AM_R, r16_stack(p), none)
            } else if p == 0 {
                mk0(InType::IN_RET, AddrMode::AM_IMP)
            } else if p == 1 {
                mk0(InType::IN_RETI, AddrMode::AM_IMP)
            } else if p == 2 {
                mk2(InType::IN_JP, AddrMode::AM_MR, RegType::RT_HL, none)
            } else {
                mk2(InType::IN_LD, AddrMode::AM_R_R, RegType::RT_SP, RegType::RT_HL)
            }
        } else if z == 2 {
            if y < 4 {
                mk(InType::IN_JP, AddrMode::AM_D16, none, none, cc(y), 0)
            } else if y == 4 {
                mk2(InType::IN_LD, AddrMode::AM_MR_R, RegType::RT_C, RegType::RT_A)
            } else if y == 5 {
                mk2(InType::IN_LD, AddrMode::AM_A16_R, none, RegType::RT_A)
            } else if y == 6 {
                mk2(InType::IN_LD, AddrMode::AM_R_MR, RegType::RT_A, RegType::RT_C)
            } else {
                mk2(InType::IN_LD, AddrMode::AM_R_A16, RegType::RT_A, none)
            }
        } else if z == 3 {
            if y == 0 {
                mk0(InType::IN_JP, AddrMode::AM_D16)
            } else if y == 1 {
                mk0(InType::IN_CB, AddrMode::AM_D8)
            } else if y == 6 {
                mk0(InType::IN_DI, AddrMode::AM_IMP)
            } else if y == 7 {
                mk0(InType::IN_EI, AddrMode::AM_IMP)
            } else {
                None
            }
        } else if z == 4 {
            if y < 4 {
                mk(InType::IN_CALL, AddrMode::AM_D16, none, none, cc(y), 0)
            } else {
                None
            }
        } else if z == 5 {
            if q == 0 {
                mk2(InType::IN_PUSH, AddrMode::AM_R, r16_stack(p), none)
            } else if p == 0 {
                mk0(InType::IN_CALL, AddrMode::AM_D16)
            } else {
                None
            }
        } else if z == 6 {
            mk2(alu(y), AddrMode::AM_R_D8, RegType::RT_A, none)
        } else {
            mk(InType::IN_RST, AddrMode::AM_IMP, none, none, CondType::CT_NONE, (y * 8) as u8)
        }
    }
}

/// Decoding of the CB-prefixed opcodes: bits 7..6 select rotate/shift (then bits 5..3
/// select RLC, RRC, RL, RR, SLA, SRA, SWAP, SRL), BIT, RES or SET (then bits 5..3 are the
/// bit number, kept in `param`); bits 2..0 select the operand.
pub open spec fn cb_decode(op: u8) -> Instruction {
    let x = op as int / 64;
    let y = (op as int / 8) % 8;
    let z = op as int % 8;
    let t = if x == 0 {
        if y == 0 {
            InType::IN_RLC
        } else if y == 1 {
            InType::IN_RRC
        } else if y == 2 {
            InType::IN_RL
        } else if y == 3 {
            InType::IN_RR
        } else if y == 4 {
            InType::IN_SLA
        } else if y == 5 {
            InType::IN_SRA
        } else if y == 6 {
            InType::IN_SWAP
        } else {
            InType::IN_SRL
        }
    } else if x == 1 {
        InType::IN_BIT
    } else if x == 2 {
        InType::IN_RES
    } else {
        InType::IN_SET
    };
    Instruction {
        in_type: t,
        mode: if z == 6 { AddrMode::AM_MR } else { AddrMode::AM_R },
        reg_1: r8(z),
        reg_2: RegType::RT_NONE,
        cond: CondType::CT_NONE,
        param: if x == 0 { 0 } else { y as u8 },
    }
}

impl Instruction {
    pub fn new(
        in_type: InType,
        mode: AddrMode,
        reg_1: RegType,
        reg_2: RegType,
        cond: CondType,
        param: u8,
    ) -> (r: Instruction)
        ensures
            r == (Instruction { in_type, mode, reg_1, reg_2, cond, param }),
    {
        Instruction { in_type, mode, reg_1, reg_2, cond, param }
    }

    /// The empty instruction: IN_NONE, implied mode, no registers, no condition.
    pub fn default() -> (r: Instruction)
        ensures
            r == (Instruction {
                in_type: InType::IN_NONE,
                mode: AddrMode::AM_IMP,
                reg_1: RegType::RT_NONE,
                reg_2: RegType::RT_NONE,
                cond: CondType::CT_NONE,
                param: 0,
            }),
    {
        Instruction {
            in_type: InType::IN_NONE,
            mode: AddrMode::AM_IMP,
            reg_1: RegType::RT_NONE,
            reg_2: RegType::RT_NONE,
            cond: CondType::CT_NONE,
            param: 0,
        }
    }

    /// Decodes the instruction at `pc` whose first byte is `opcode`; for the 0xCB prefix
    /// the byte after it selects the instruction. `None` for bytes that are no instruction.
    pub fn decode_from_opcode(opcode: u8, bus: &BUS, pc: u16) -> (r: Option<Instruction>)
        requires
            bus.wf(),
            opcode == 0xCB ==> pc < 0xFFFF,
        ensures
            opcode == 0xCB ==> r == Some(cb_decode(bus.read_spec((pc + 1) as u16))),
            opcode != 0xCB ==> r == np_decode(opcode),
    {
        if opcode == 0xCB {
            let op = bus.read_byte(pc + 1);
            Some(Self::decode_prefixed_opcode(op))
        } else {
            Self::decode_opcode(opcode)
        }
    }

    fn decode_opcode(opcode: u8) -> (r: Option<Instruction>)
        ensures
            r == np_decode(opcode),
    {
        if opcode < 0x40 {
            decode_block0(opcode)
        } else if opcode < 0x80 {
            decode_block1(opcode)
        } else if opcode < 0xC0 {
            decode_block2(opcode)
        } else {
            decode_block3(opcode)
        }
    }

    fn decode_prefixed_opcode(opcode: u8) -> (r: Instruction)
        ensures
            r == cb_decode(opcode),
    {
        let x = opcode / 64;
        let y = (opcode / 8) % 8;
        let z = opcode % 8;
        let in_type = if x == 0 {
            if y == 0 {
                InType::IN_RLC
            } else if y == 1 {
                InType::IN_RRC
            } else if y == 2 {
                InType::IN_RL
            } else if y == 3 {
                InType::IN_RR
            } else if y == 4 {
                InType::IN_SLA
            } else if y == 5 {
                InType::IN_SRA
            } else if y == 6 {
                InType::IN_SWAP
            } else {
                InType::IN_SRL
            }
        } else if x == 1 {
            InType::IN_BIT
        } else if x == 2 {
            InType::IN_RES
        } else {
            InType::IN_SET
        };
        let reg_1 = if z == 0 {
            RegType::RT_B
        } else if z == 1 {
            RegType::RT_C
        } else if z == 2 {
            RegType::RT_D
        } else if z == 3 {
            RegType::RT_E
        } else if z == 4 {
            RegType::RT_H
        } else if z == 5 {
            RegType::RT_L
        } else if z == 6 {
            RegType::RT_HL
        } else {
            RegType::RT_A
        };
        Instruction {
            in_type,
            mode: if z == 6 { AddrMode::AM_MR } else { AddrMode::AM_R },
            reg_1,
            reg_2: RegType::RT_NONE,
            cond: CondType::CT_NONE,
            param: if x == 0 { 0 } else { y },
        }
    }
}

/// The 8-bit operand that a register field names.
pub open spec fn hl_target_of(r: RegType) -> Option<HLTarget> {
    match r {
        RegType::RT_A => Some(HLTarget::A),
        RegType::RT_B => Some(HLTarget::B),
        RegType::RT_C => Some(HLTarget::C),
        RegType::RT_D => Some(HLTarget::D),
        RegType::RT_E => Some(HLTarget::E),
        RegType::RT_H => Some(HLTarget::H),
        RegType::RT_L => Some(HLTarget::L),
        RegType::RT_HL => Some(HLTarget::HL),
        _ => None,
    }
}

pub fn to_hl_target(r: RegType) -> (o: Option<HLTarget>)
    ensures
        o == hl_target_of(r),
{
    match r {
        RegType::RT_A => Some(HLTarget::A),
        RegType::RT_B => Some(HLTarget::B),
        RegType::RT_C => Some(HLTarget::C),
        RegType::RT_D => Some(HLTarget::D),
        RegType::RT_E => Some(HLTarget::E),
        RegType::RT_H => Some(HLTarget::H),
        RegType::RT_L => Some(HLTarget::L),
        RegType::RT_HL => Some(HLTarget::HL),
        _ => None,
    }
}

/// The jump condition of a condition field; no condition means always.
pub open spec fn jump_test_of(c: CondType) -> JumpTest {
    match c {
        CondType::CT_NONE => JumpTest::Always,
        CondType::CT_NZ => JumpTest::NotZero,
        CondType::CT_Z => JumpTest::Zero,
        CondType::CT_NC => JumpTest::NotCarry,
        CondType::CT_C => JumpTest::Carry,
    }
}

pub fn to_jump_test(c: CondType) -> (r: JumpTest)
    ensures
        r == jump_test_of(c),
{
    match c {
        CondType::CT_NONE => JumpTest::Always,
        CondType::CT_NZ => JumpTest::NotZero,
        CondType::CT_Z => JumpTest::Zero,
        CondType::CT_NC => JumpTest::NotCarry,
        CondType::CT_C => JumpTest::Carry,
    }
}

/// The target of an INC/DEC instruction: (HL) in memory mode, else the register.
pub open spec fn all_registers_of(i: Instruction) -> Option<AllRegisters> {
    if i.mode == AddrMode::AM_MR {
        Some(AllRegisters::HLMEM)
    } else {
        match i.reg_1 {
            RegType::RT_A => Some(AllRegisters::A),
            RegType::RT_B => Some(AllRegisters::B),
            RegType::RT_C => Some(AllRegisters::C),
            RegType::RT_D => Some(AllRegisters::D),
            RegType::RT_E => Some(AllRegisters::E),
            RegType::RT_H => Some(AllRegisters::H),
            RegType::RT_L => Some(AllRegisters::L),
            RegType::RT_BC => Some(AllRegisters::BC),
            RegType::RT_DE => Some(AllRegisters::DE),
            RegType::RT_HL => Some(AllRegisters::HL),
            RegType::RT_SP => Some(AllRegisters::SP),
            _ => None,
        }
    }
}

pub fn to_all_registers(i: Instruction) -> (r: Option<AllRegisters>)
    ensures
        r == all_registers_of(i),
{
    if i.mode == AddrMode::AM_MR {
        Some(AllRegisters::HLMEM)
    } else {
        match i.reg_1 {
            RegType::RT_A => Some(AllRegisters::A),
            RegType::RT_B => Some(AllRegisters::B),
            RegType::RT_C => Some(AllRegisters::C),
            RegType::RT_D => Some(AllRegisters::D),
            RegType::RT_E => Some(AllRegisters::E),
            RegType::RT_H => Some(AllRegisters::H),
            RegType::RT_L => Some(AllRegisters::L),
            RegType::RT_BC => Some(AllRegisters::BC),
            RegType::RT_DE => Some(AllRegisters::DE),
            RegType::RT_HL => Some(AllRegisters::HL),
            RegType::RT_SP => Some(AllRegisters::SP),
            _ => None,
        }
    }
}

pub open spec fn stack_target_of(r: RegType) -> Option<StackTarget> {
    match r {
        RegType::RT_AF => Some(StackTarget::AF),
        RegType::RT_BC => Some(StackTarget::BC),
        RegType::RT_DE => Some(StackTarget::DE),
        RegType::RT_HL => Some(StackTarget::HL),
        _ => None,
    }
}

pub fn to_stack_target(r: RegType) -> (o: Option<StackTarget>)
    ensures
        o == stack_target_of(r),
{
    match r {
        RegType::RT_AF => Some(StackTarget::AF),
        RegType::RT_BC => Some(StackTarget::BC),
        RegType::RT_DE => Some(StackTarget::DE),
        RegType::RT_HL => Some(StackTarget::HL),
        _ => None,
    }
}

pub open spec fn rest_target_of(p: u8) -> Option<RestTarget> {
    if p == 0x00 {
        Some(RestTarget::Zero)
    } else if p == 0x08 {
        Some(RestTarget::One)
    } else if p == 0x10 {
        Some(RestTarget::Two)
    } else if p == 0x18 {
        Some(RestTarget::Three)
    } else if p == 0x20 {
        Some(RestTarget::Four)
    } else if p == 0x28 {
        Some(RestTarget::Five)
    } else if p == 0x30 {
        Some(RestTarget::Six)
    } else if p == 0x38 {
        Some(RestTarget::Seven)
    } else {
        None
    }
}

pub fn to_rest_target(p: u8) -> (o: Option<RestTarget>)
    ensures
        o == rest_target_of(p),
{
    if p == 0x00 {
        Some(RestTarget::Zero)
    } else if p == 0x08 {
        Some(RestTarget::One)
    } else if p == 0x10 {
        Some(RestTarget::Two)
    } else if p == 0x18 {
        Some(RestTarget::Three)
    } else if p == 0x20 {
        Some(RestTarget::Four)
    } else if p == 0x28 {
        Some(RestTarget::Five)
    } else if p == 0x30 {
        Some(RestTarget::Six)
    } else if p == 0x38 {
        Some(RestTarget::Seven)
    } else {
        None
    }
}

/// Bit number (from `param`) and operand (from `reg_1`) of BIT/RES/SET.
pub open spec fn byte_target_of(i: Instruction) -> Option<ByteTarget> {
    match hl_target_of(i.reg_1) {
        Some(t) => if i.param == 0 {
            Some(ByteTarget::Zero(t))
        } else if i.param == 1 {
            Some(ByteTarget::One(t))
        } else if i.param == 2 {
            Some(ByteTarget::Two(t))
        } else if i.param == 3 {
            Some(ByteTarget::Three(t))
        } else if i.param == 4 {
            Some(ByteTarget::Four(t))
        } else if i.param == 5 {
            Some(ByteTarget::Five(t))
        } else if i.param == 6 {
            Some(ByteTarget::Six(t))
        } else if i.param == 7 {
            Some(ByteTarget::Seven(t))
        } else {
            None
        },
        None => None,
    }
}

pub fn to_byte_target(i: Instruction) -> (o: Option<ByteTarget>)
    ensures
        o == byte_target_of(i),
{
    match to_hl_target(i.reg_1) {
        Some(t) => if i.param == 0 {
            Some(ByteTarget::Zero(t))
        } else if i.param == 1 {
            Some(ByteTarget::One(t))
        } else if i.param == 2 {
            Some(ByteTarget::Two(t))
        } else if i.param == 3 {
            Some(ByteTarget::Three(t))
        } else if i.param == 4 {
            Some(ByteTarget::Four(t))
        } else if i.param == 5 {
            Some(ByteTarget::Five(t))
        } else if i.param == 6 {
            Some(ByteTarget::Six(t))
        } else if i.param == 7 {
            Some(ByteTarget::Seven(t))
        } else {
            None
        },
        None => None,
    }
}

/// Operand of an 8-bit ALU instruction: the immediate byte in R_D8 mode, else `reg_2`.
pub open spec fn op_target_of(i: Instruction) -> Option<OPTarget> {
    if i.mode == AddrMode::AM_R_D8 {
        Some(OPTarget::D8)
    } else {
        match i.reg_2 {
            RegType::RT_A => Some(OPTarget::A),
            RegType::RT_B => Some(OPTarget::B),
            RegType::RT_C => Some(OPTarget::C),
            RegType::RT_D => Some(OPTarget::D),
            RegType::RT_E => Some(OPTarget::E),
            RegType::RT_H => Some(OPTarget::H),
            RegType::RT_L => Some(OPTarget::L),
            RegType::RT_HL => Some(OPTarget::HL),
            _ => None,
        }
    }
}

pub fn to_op_target(i: Instruction) -> (o: Option<OPTarget>)
    ensures
        o == op_target_of(i),
{
    if i.mode == AddrMode::AM_R_D8 {
        Some(OPTarget::D8)
    } else {
        match i.reg_2 {
            RegType::RT_A => Some(OPTarget::A),
            RegType::RT_B => Some(OPTarget::B),
            RegType::RT_C => Some(OPTarget::C),
            RegType::RT_D => Some(OPTarget::D),
            RegType::RT_E => Some(OPTarget::E),
            RegType::RT_H => Some(OPTarget::H),
            RegType::RT_L => Some(OPTarget::L),
            RegType::RT_HL => Some(OPTarget::HL),
            _ => None,
        }
    }
}

/// The form of an ADD instruction.
pub open spec fn op_type_of(i: Instruction) -> Option<OPType> {
    if i.reg_1 == RegType::RT_HL {
        match i.reg_2 {
            RegType::RT_BC => Some(OPType::LoadHL(AddN16Target::BC)),
            RegType::RT_DE => Some(OPType::LoadHL(AddN16Target::DE)),
            RegType::RT_HL => Some(OPType::LoadHL(AddN16Target::HL)),
            RegType::RT_SP => Some(OPType::LoadHL(AddN16Target::SP)),
            _ => None,
        }
    } else if i.reg_1 == RegType::RT_SP {
        Some(OPType::LoadSP)
    } else if i.mode == AddrMode::AM_R_D8 {
        Some(OPType::LoadD8)
    } else {
        match hl_target_of(i.reg_2) {
            Some(t) => Some(OPType::LoadA(t)),
            None => None,
        }
    }
}

pub fn to_op_type(i: Instruction) -> (o: Option<OPType>)
    ensures
        o == op_type_of(i),
{
    if i.reg_1 == RegType::RT_HL {
        match i.reg_2 {
            RegType::RT_BC => Some(OPType::LoadHL(AddN16Target::BC)),
            RegType::RT_DE => Some(OPType::LoadHL(AddN16Target::DE)),
            RegType::RT_HL => Some(OPType::LoadHL(AddN16Target::HL)),
            RegType::RT_SP => Some(OPType::LoadHL(AddN16Target::SP)),
            _ => None,
        }
    } else if i.reg_1 == RegType::RT_SP {
        Some(OPType::LoadSP)
    } else if i.mode == AddrMode::AM_R_D8 {
        Some(OPType::LoadD8)
    } else {
        match to_hl_target(i.reg_2) {
            Some(t) => Some(OPType::LoadA(t)),
            None => None,
        }
    }
}

pub open spec fn word_target_of(r: RegType) -> Option<LoadWordTarget> {
    match r {
        RegType::RT_BC => Some(LoadWordTarget::BC),
        RegType::RT_DE => Some(LoadWordTarget::DE),
        RegType::RT_HL => Some(LoadWordTarget::HL),
        RegType::RT_SP => Some(LoadWordTarget::SP),
        _ => None,
    }
}

/// The form of an LD/LDH instruction.
pub open spec fn load_type_of(i: Instruction) -> Option<LoadType> {
    match i.mode {
        AddrMode::AM_R_D16 => match word_target_of(i.reg_1) {
            Some(t) => Some(LoadType::Word(t, LoadWordSource::N16)),
            None => None,
        },
        AddrMode::AM_MR_R => if i.reg_1 == RegType::RT_BC {
            Some(LoadType::AStoreInN16(LoadN16::BC))
        } else if i.reg_1 == RegType::RT_DE {
            Some(LoadType::AStoreInN16(LoadN16::DE))
        } else if i.reg_1 == RegType::RT_C {
            Some(LoadType::AWithAC(LoadACTarget::C))
        } else if i.reg_1 == RegType::RT_HL {
            match hl_target_of(i.reg_2) {
                Some(s) => Some(LoadType::RegInReg(HLTarget::HL, s)),
                None => None,
            }
        } else {
            None
        },
        AddrMode::AM_R_MR => if i.reg_2 == RegType::RT_BC {
            Some(LoadType::N16StoreInA(LoadN16::BC))
        } else if i.reg_2 == RegType::RT_DE {
            Some(LoadType::N16StoreInA(LoadN16::DE))
        } else if i.reg_2 == RegType::RT_C {
            Some(LoadType::AWithAC(LoadACTarget::A))
        } else if i.reg_2 == RegType::RT_HL {
            match hl_target_of(i.reg_1) {
                Some(d) => Some(LoadType::RegInReg(d, HLTarget::HL)),
                None => None,
            }
        } else {
            None
        },
        AddrMode::AM_HLI_R => Some(LoadType::AStoreInN16(LoadN16::HLINC)),
        AddrMode::AM_HLD_R => Some(LoadType::AStoreInN16(LoadN16::HLDEC)),
        AddrMode::AM_R_HLI => Some(LoadType::N16StoreInA(LoadN16::HLINC)),
        AddrMode::AM_R_HLD => Some(LoadType::N16StoreInA(LoadN16::HLDEC)),
        AddrMode::AM_R_D8 => match hl_target_of(i.reg_1) {
            Some(t) => Some(LoadType::D8StoreInReg(t)),
            None => None,
        },
        AddrMode::AM_MR_D8 => Some(LoadType::D8StoreInReg(HLTarget::HL)),
        AddrMode::AM_R_R => if i.reg_1 == RegType::RT_SP {
            Some(LoadType::Word(LoadWordTarget::SP, LoadWordSource::HL))
        } else {
            match (hl_target_of(i.reg_1), hl_target_of(i.reg_2)) {
                (Some(d), Some(s)) => Some(LoadType::RegInReg(d, s)),
                _ => None,
            }
        },
        AddrMode::AM_A16_R => if i.reg_2 == RegType::RT_SP {
            Some(LoadType::Word(LoadWordTarget::N16, LoadWordSource::SP))
        } else {
            Some(LoadType::AWithA16(LoadA16Target::A16))
        },
        AddrMode::AM_R_A16 => Some(LoadType::AWithA16(LoadA16Target::A)),
        AddrMode::AM_HL_SPR => Some(LoadType::Word(LoadWordTarget::HL, LoadWordSource::SPE8)),
        AddrMode::AM_A8_R => Some(LoadType::AWithA8(LoadA8Target::A8)),
        AddrMode::AM_R_A8 => Some(LoadType::AWithA8(LoadA8Target::A)),
        _ => None,
    }
}

pub fn to_load_type(i: Instruction) -> (o: Option<LoadType>)
    ensures
        o == load_type_of(i),
{
    match i.mode {
        AddrMode::AM_R_D16 => match i.reg_1 {
            RegType::RT_BC => Some(LoadType::Word(LoadWordTarget::BC, LoadWordSource::N16)),
            RegType::RT_DE => Some(LoadType::Word(LoadWordTarget::DE, LoadWordSource::N16)),
            RegType::RT_HL => Some(LoadType::Word(LoadWordTarget::HL, LoadWordSource::N16)),
            RegType::RT_SP => Some(LoadType::Word(LoadWordTarget::SP, LoadWordSource::N16)),
            _ => None,
        },
        AddrMode::AM_MR_R => if i.reg_1 == RegType::RT_BC {
            Some(LoadType::AStoreInN16(LoadN16::BC))
        } else if i.reg_1 == RegType::RT_DE {
            Some(LoadType::AStoreInN16(LoadN16::DE))
        } else if i.reg_1 == RegType::RT_C {
            Some(LoadType::AWithAC(LoadACTarget::C))
        } else if i.reg_1 == RegType::RT_HL {
            match to_hl_target(i.reg_2) {
                Some(s) => Some(LoadType::RegInReg(HLTarget::HL, s)),
                None => None,
            }
        } else {
            None
        },
        AddrMode::AM_R_MR => if i.reg_2 == RegType::RT_BC {
            Some(LoadType::N16StoreInA(LoadN16::BC))
        } else if i.reg_2 == RegType::RT_DE {
            Some(LoadType::N16StoreInA(LoadN16::DE))
        } else if i.reg_2 == RegType::RT_C {
            Some(LoadType::AWithAC(LoadACTarget::A))
        } else if i.reg_2 == RegType::RT_HL {
            match to_hl_target(i.reg_1) {
                Some(d) => Some(LoadType::RegInReg(d, HLTarget::HL)),
                None => None,
            }
        } else {
            None
        },
        AddrMode::AM_HLI_R => Some(LoadType::AStoreInN16(LoadN16::HLINC)),
        AddrMode::AM_HLD_R => Some(LoadType::AStoreInN16(LoadN16::HLDEC)),
        AddrMode::AM_R_HLI => Some(LoadType::N16StoreInA(LoadN16::HLINC)),
        AddrMode::AM_R_HLD => Some(LoadType::N16StoreInA(LoadN16::HLDEC)),
        AddrMode::AM_R_D8 => match to_hl_target(i.reg_1) {
            Some(t) => Some(LoadType::D8StoreInReg(t)),
            None => None,
        },
        AddrMode::AM_MR_D8 => Some(LoadType::D8StoreInReg(HLTarget::HL)),
        AddrMode::AM_R_R => if i.reg_1 == RegType::RT_SP {
            Some(LoadType::Word(LoadWordTarget::SP, LoadWordSource::HL))
        } else {
            match (to_hl_target(i.reg_1), to_hl_target(i.reg_2)) {
                (Some(d), Some(s)) => Some(LoadType::RegInReg(d, s)),
                _ => None,
            }
        },
        AddrMode::AM_A16_R => if i.reg_2 == RegType::RT_SP {
            Some(LoadType::Word(LoadWordTarget::N16, LoadWordSource::SP))
        } else {
            Some(LoadType::AWithA16(LoadA16Target::A16))
        },
        AddrMode::AM_R_A16 => Some(LoadType::AWithA16(LoadA16Target::A)),
        AddrMode::AM_HL_SPR => Some(LoadType::Word(LoadWordTarget::HL, LoadWordSource::SPE8)),
        AddrMode::AM_A8_R => Some(LoadType::AWithA8(LoadA8Target::A8)),
        AddrMode::AM_R_A8 => Some(LoadType::AWithA8(LoadA8Target::A)),
        _ => None,
    }
}

/// Table entries for opcodes 0x00-0x3F.
fn decode_block0(opcode: u8) -> (r: Option<Instruction>)
    requires
        0x00 <= opcode <= 0x3F,
    ensures
        r == np_decode(opcode),
{
    match opcode {
        0x00 => Some(Instruction { in_type: InType::IN_NOP, mode: AddrMode::AM_IMP, reg_1: RegType::RT_NONE, reg_2: RegType::RT_NONE, cond: CondType::CT_NONE, param: 0 }),
        0x01 => Some(Instruction { in_type: InType::IN_LD, mode: AddrMode::AM_R_D16, reg_1: RegType::RT_BC, reg_2: RegType::RT_NONE, cond: CondType::CT_NONE, param: 0 }),
        0x02 => Some(Instruction { in_type: InType::IN_LD, mode: AddrMode::AM_MR_R, reg_1: RegType::RT_BC, reg_2: RegType::RT_A, cond: CondType::CT_NONE, param: 0 }),
        0x03 => Some(Instruction { in_type: InType::IN_INC, mode: AddrMode::AM_R, reg_1: RegType::RT_BC, reg_2: RegType::RT_NONE, cond: CondType::CT_NONE, param: 0 }),
        0x04 => Some(Instruction { in_type: InType::IN_INC, mode: AddrMode::AM_R, reg_1: RegType::RT_B, reg_2: RegType::RT_NONE, cond: CondType::CT_NONE, param: 0 }),
        0x05 => Some(Instruction { in_type: InType::IN_DEC, mode: AddrMode::AM_R, reg_1: RegType::RT_B, reg_2: RegType::RT_NONE, cond: CondType::CT_NONE, param: 0 }),
        0x06 => Some(Instruction { in_type: InType::IN_LD, mode: AddrMode::AM_R_D8, reg_1: RegType::RT_B, reg_2: RegType::RT_NONE, cond: CondType::CT_NONE, param: 0 }),
        0x07 => Some(Instruction { in_type: InType::IN_RLCA, mode: AddrMode::AM_IMP, reg_1: RegType::RT_NONE, reg_2: RegType::RT_NONE, cond: CondType::CT_NONE, param: 0 }),
        0x08 => Some(Instruction { in_type: InType::IN_LD, mode: AddrMode::AM_A16_R, reg_1: RegType::RT_NONE, reg_2: RegType::RT_SP, cond: CondType::CT_NONE, param: 0 }),
        0x09 => Some(Instruction { in_type: InType::IN_ADD, mode: AddrMode::AM_R_R, reg_1: RegType::RT_HL, reg_2: RegType::RT_BC, cond: CondType::CT_NONE, param: 0 }),
        0x0A => Some(Instruction { in_type: InType::IN_LD, mode: AddrMode::AM_R_MR, reg_1: RegType::RT_A, reg_2: RegType::RT_BC, cond: CondType::CT_NONE, param: 0 }),
        0x0B => Some(Instruction { in_type: InType::IN_DEC, mode: AddrMode::AM_R, reg_1: RegType::RT_BC, reg_2: RegType::RT_NONE, cond: CondType::CT_NONE, param: 0 }),
        0x0C => Some(Instruction { in_type: InType::IN_INC, mode: AddrMode::AM_R, reg_1: RegType::RT_C, reg_2: RegType::RT_NONE, cond: CondType::CT_NONE, param: 0 }),
        0x0D => Some(Instruction { in_type: InType::IN_DEC, mode: AddrMode::AM_R, reg_1: RegType::RT_C, reg_2: RegType::RT_NONE, cond: CondType::CT_NONE, param: 0 }),
        0x0E => Some(Instruction { in_type: InType::IN_LD, mode: AddrMode::AM_R_D8, reg_1: RegType::RT_C, reg_2: RegType::RT_NONE, cond: CondType::CT_NONE, param: 0 }),
        0x0F => Some(Instruction { in_type: InType::IN_RRCA, mode: AddrMode::AM_IMP, reg_1: RegType::RT_NONE, reg_2: RegType::RT_NONE, cond: CondType::CT_NONE, param: 0 }),
        0x10 => Some(Instruction { in_type: InType::IN_STOP, mode: AddrMode::AM_IMP, reg_1: RegType::RT_NONE, reg_2: RegType::RT_NONE, cond: CondType::CT_NONE, param: 0 }),
        0x11 => Some(Instruction { in_type: InType::IN_LD, mode: AddrMode::AM_R_D16, reg_1: RegType::RT_DE, reg_2: RegType::RT_NONE, cond: CondType::CT_NONE, param: 0 }),
        0x12 => Some(Instruction { in_type: InType::IN_LD, mode: AddrMode::AM_MR_R, reg_1: RegType::RT_DE, reg_2: RegType::RT_A, cond: CondType::CT_NONE, param: 0 }),
        0x13 => Some(Instruction { in_type: InType::IN_INC, mode: AddrMode::AM_R, reg_1: RegType::RT_DE, reg_2: RegType::RT_NONE, cond: CondType::CT_NONE, param: 0 }),
        0x14 => Some(Instruction { in_type: InType::IN_INC, mode: AddrMode::AM_R, reg_1: RegType::RT_D, reg_2: RegType::RT_NONE, cond: CondType::CT_NONE, param: 0 }),
        0x15 => Some(Instruction { in_type: InType::IN_DEC, mode: AddrMode::AM_R, reg_1: RegType::RT_D, reg_2: RegType::RT_NONE, cond: CondType::CT_NONE, param: 0 }),
        0x16 => Some(Instruction { in_type: InType::IN_LD, mode: AddrMode::AM_R_D8, reg_1: RegType::RT_D, reg_2: RegType::RT_NONE, cond: CondType::CT_NONE, param: 0 }),
        0x17 => Some(Instruction { in_type: InType::IN_RLA, mode: AddrMode::AM_IMP, reg_1: RegType::RT_NONE, reg_2: RegType::RT_NONE, cond: CondType::CT_NONE, param: 0 }),
        0x18 => Some(Instruction { in_type: InType::IN_JR, mode: AddrMode::AM_D8, reg_1: RegType::RT_NONE, reg_2: RegType::RT_NONE, cond: CondType::CT_NONE, param: 0 }),
        0x19 => Some(Instruction { in_type: InType::IN_ADD, mode: AddrMode::AM_R_R, reg_1: RegType::RT_HL, reg_2: RegType::RT_DE, cond: CondType::CT_NONE, param: 0 }),
        0x1A => Some(Instruction { in_type: InType::IN_LD, mode: AddrMode::AM_R_MR, reg_1: RegType::RT_A, reg_2: RegType::RT_DE, cond: CondType::CT_NONE, param: 0 }),
        0x1B => Some(Instruction { in_type: InType::IN_DEC, mode: AddrMode::AM_R, reg_1: RegType::RT_DE, reg_2: RegType::RT_NONE, cond: CondType::CT_NONE, param: 0 }),
        0x1C => Some(Instruction { in_type: InType::IN_INC, mode: AddrMode::AM_R, reg_1: RegType::RT_E, reg_2: RegType::RT_NONE, cond: CondType::CT_NONE, param: 0 }),
        0x1D => Some(Instruction { in_type: InType::IN_DEC, mode: AddrMode::AM_R, reg_1: RegType::RT_E, reg_2: RegType::RT_NONE, cond: CondType::CT_NONE, param: 0 }),
        0x1E => Some(Instruction { in_type: InType::IN_LD, mode: AddrMode::AM_R_D8, reg_1: RegType::RT_E, reg_2: RegType::RT_NONE, cond: CondType::CT_NONE, param: 0 }),
        0x1F => Some(Instruction { in_type: InType::IN_RRA, mode: AddrMode::AM_IMP, reg_1: RegType::RT_NONE, reg_2: RegType::RT_NONE, cond: CondType::CT_NONE, param: 0 }),
        0x20 => Some(Instruction { in_type: InType::IN_JR, mode: AddrMode::AM_D8, reg_1: RegType::RT_NONE, reg_2: RegType::RT_NONE, cond: CondType::CT_NZ, param: 0 }),
        0x21 => Some(Instruction { in_type: InType::IN_LD, mode: AddrMode::AM_R_D16, reg_1: RegType::RT_HL, reg_2: RegType::RT_NONE, cond: CondType::CT_NONE, param: 0 }),
        0x22 => Some(Instruction { in_type: InType::IN_LD, mode: AddrMode::AM_HLI_R, reg_1: RegType::RT_HL, reg_2: RegType::RT_A, cond: CondType::CT_NONE, param: 0 }),
        0x23 => Some(Instruction { in_type: InType::IN_INC, mode: AddrMode::AM_R, reg_1: RegType::RT_HL, reg_2: RegType::RT_NONE, cond: CondType::CT_NONE, param: 0 }),
        0x24 => Some(Instruction { in_type: InType::IN_INC, mode: AddrMode::AM_R, reg_1: RegType::RT_H, reg_2: RegType::RT_NONE, cond: CondType::CT_NONE, param: 0 }),
        0x25 => Some(Instruction { in_type: InType::IN_DEC, mode: AddrMode::AM_R, reg_1: RegType::RT_H, reg_2: RegType::RT_NONE, cond: CondType::CT_NONE, param: 0 }),
        0x26 => Some(Instruction { in_type: InType::IN_LD, mode: AddrMode::AM_R_D8, reg_1: RegType::RT_H, reg_2: RegType::RT_NONE, cond: CondType::CT_NONE, param: 0 }),
        0x27 => Some(Instruction { in_type: InType::IN_DAA, mode: AddrMode::AM_IMP, reg_1: RegType::RT_A, reg_2: RegType::RT_NONE, cond: CondType::CT_NONE, param: 0 }),
        0x28 => Some(Instruction { in_type: InType::IN_JR, mode: AddrMode::AM_D8, reg_1: RegType::RT_NONE, reg_2: RegType::RT_NONE, cond: CondType::CT_Z, param: 0 }),
        0x29 => Some(Instruction { in_type: InType::IN_ADD, mode: AddrMode::AM_R_R, reg_1: RegType::RT_HL, reg_2: RegType::RT_HL, cond: CondType::CT_NONE, param: 0 }),
        0x2A => Some(Instruction { in_type: InType::IN_LD, mode: AddrMode::AM_R_HLI, reg_1: RegType::RT_A, reg_2: RegType::RT_HL, cond: CondType::CT_NONE, param: 0 }),
        0x2B => Some(Instruction { in_type: InType::IN_DEC, mode: AddrMode::AM_R, reg_1: RegType::RT_HL, reg_2: RegType::RT_NONE, cond: CondType::CT_NONE, param: 0 }),
        0x2C => Some(Instruction { in_type: InType::IN_INC, mode: AddrMode::AM_R, reg_1: RegType::RT_L, reg_2: RegType::RT_NONE, cond: CondType::CT_NONE, param: 0 }),
        0x2D => Some(Instruction { in_type: InType::IN_DEC, mode: AddrMode::AM_R, reg_1: RegType::RT_L, reg_2: RegType::RT_NONE, cond: CondType::CT_NONE, param: 0 }),
        0x2E => Some(Instruction { in_type: InType::IN_LD, mode: AddrMode::AM_R_D8, reg_1: RegType::RT_L, reg_2: RegType::RT_NONE, cond: CondType::CT_NONE, param: 0 }),
        0x2F => Some(Instruction { in_type: InType::IN_CPL, mode: AddrMode::AM_IMP, reg_1: RegType::RT_NONE, reg_2: RegType::RT_NONE, cond: CondType::CT_NONE, param: 0 }),
        0x30 => Some(Instruction { in_type: InType::IN_JR, mode: AddrMode::AM_D8, reg_1: RegType::RT_NONE, reg_2: RegType::RT_NONE, cond: CondType::CT_NC, param: 0 }),
        0x31 => Some(Instruction { in_type: InType::IN_LD, mode: AddrMode::AM_R_D16, reg_1: RegType::RT_SP, reg_2: RegType::RT_NONE, cond: CondType::CT_NONE, param: 0 }),
        0x32 => Some(Instruction { in_type: InType::IN_LD, mode: AddrMode::AM_HLD_R, reg_1: RegType::RT_HL, reg_2: RegType::RT_A, cond: CondType::CT_NONE, param: 0 }),
        0x33 => Some(Instruction { in_type: InType::IN_INC, mode: AddrMode::AM_R, reg_1: RegType::RT_SP, reg_2: RegType::RT_NONE, cond: CondType::CT_NONE, param: 0 }),
        0x34 => Some(Instruction { in_type: InType::IN_INC, mode: AddrMode::AM_MR, reg_1: RegType::RT_HL, reg_2: RegType::RT_NONE, cond: CondType::CT_NONE, param: 0 }),
        0x35 => Some(Instruction { in_type: InType::IN_DEC, mode: AddrMode::AM_MR, reg_1: RegType::RT_HL, reg_2: RegType::RT_NONE, cond: CondType::CT_NONE, param: 0 }),
        0x36 => Some(Instruction { in_type: InType::IN_LD, mode: AddrMode::AM_MR_D8, reg_1: RegType::RT_HL, reg_2: RegType::RT_NONE, cond: CondType::CT_NONE, param: 0 }),
        0x37 => Some(Instruction { in_type: InType::IN_SCF, mode: AddrMode::AM_IMP, reg_1: RegType::RT_NONE, reg_2: RegType::RT_NONE, cond: CondType::CT_NONE, param: 0 }),
        0x38 => Some(Instruction { in_type: InType::IN_JR, mode: AddrMode::AM_D8, reg_1: RegType::RT_NONE, reg_2: RegType::RT_NONE, cond: CondType::CT_C, param: 0 }),
        0x39 => Some(Instruction { in_type: InType::IN_ADD, mode: AddrMode::AM_R_R, reg_1: RegType::RT_HL, reg_2: RegType::RT_SP, cond: CondType::CT_NONE, param: 0 }),
        0x3A => Some(Instruction { in_type: InType::IN_LD, mode: AddrMode::AM_R_HLD, reg_1: RegType::RT_A, reg_2: RegType::RT_HL, cond: CondType::CT_NONE, param: 0 }),
        0x3B => Some(Instruction { in_type: InType::IN_DEC, mode: AddrMode::AM_R, reg_1: RegType::RT_SP, reg_2: RegType::RT_NONE, cond: CondType::CT_NONE, param: 0 }),
        0x3C => Some(Instruction { in_type: InType::IN_INC, mode: AddrMode::AM_R, reg_1: RegType::RT_A, reg_2: RegType::RT_NONE, cond: CondType::CT_NONE, param: 0 }),
        0x3D => Some(Instruction { in_type: InType::IN_DEC, mode: AddrMode::AM_R, reg_1: RegType::RT_A, reg_2: RegType::RT_NONE, cond: CondType::CT_NONE, param: 0 }),
        0x3E => Some(Instruction { in_type: InType::IN_LD, mode: AddrMode::AM_R_D8, reg_1: RegType::RT_A, reg_2: RegType::RT_NONE, cond: CondType::CT_NONE, param: 0 }),
        0x3F => Some(Instruction { in_type: InType::IN_CCF, mode: AddrMode::AM_IMP, reg_1: RegType::RT_NONE, reg_2: RegType::RT_NONE, cond: CondType::CT_NONE, param: 0 }),
        _ => None,
    }
}

/// Table entries for opcodes 0x40-0x7F.
fn decode_block1(opcode: u8) -> (r: Option<Instruction>)
    requires
        0x40 <= opcode <= 0x7F,
    ensures
        r == np_decode(opcode),
{
    match opcode {
        0x40 => Some(Instruction { in_type: InType::IN_LD, mode: AddrMode::AM_R_R, reg_1: RegType::RT_B, reg_2: RegType::RT_B, cond: CondType::CT_NONE, param: 0 }),
        0x41 => Some(Instruction { in_type: InType::IN_LD, mode: AddrMode::AM_R_R, reg_1: RegType::RT_B, reg_2: RegType::RT_C, cond: CondType::CT_NONE, param: 0 }),
        0x42 => Some(Instruction { in_type: InType::IN_LD, mode: AddrMode::AM_R_R, reg_1: RegType::RT_B, reg_2: RegType::RT_D, cond: CondType::CT_NONE, param: 0 }),
        0x43 => Some(Instruction { in_type: InType::IN_LD, mode: AddrMode::AM_R_R, reg_1: RegType::RT_B, reg_2: RegType::RT_E, cond: CondType::CT_NONE, param: 0 }),
        0x44 => Some(Instruction { in_type: InType::IN_LD, mode: AddrMode::AM_R_R, reg_1: RegType::RT_B, reg_2: RegType::RT_H, cond: CondType::CT_NONE, param: 0 }),
        0x45 => Some(Instruction { in_type: InType::IN_LD, mode: AddrMode::AM_R_R, reg_1: RegType::RT_B, reg_2: RegType::RT_L, cond: CondType::CT_NONE, param: 0 }),
        0x46 => Some(Instruction { in_type: InType::IN_LD, mode: AddrMode::AM_R_MR, reg_1: RegType::RT_B, reg_2: RegType::RT_HL, cond: CondType::CT_NONE, param: 0 }),
        0x47 => Some(Instruction { in_type: InType::IN_LD, mode: AddrMode::AM_R_R, reg_1: RegType::RT_B, reg_2: RegType::RT_A, cond: CondType::CT_NONE, param: 0 }),
        0x48 => Some(Instruction { in_type: InType::IN_LD, mode: AddrMode::AM_R_R, reg_1: RegType::RT_C, reg_2: RegType::RT_B, cond: CondType::CT_NONE, param: 0 }),
        0x49 => Some(Instruction { in_type: InType::IN_LD, mode: AddrMode::AM_R_R, reg_1: RegType::RT_C, reg_2: RegType::RT_C, cond: CondType::CT_NONE, param: 0 }),
        0x4A => Some(Instruction { in_type: InType::IN_LD, mode: AddrMode::AM_R_R, reg_1: RegType::RT_C, reg_2: RegType::RT_D, cond: CondType::CT_NONE, param: 0 }),
        0x4B => Some(Instruction { in_type: InType::IN_LD, mode: AddrMode::AM_R_R, reg_1: RegType::RT_C, reg_2: RegType::RT_E, cond: CondType::CT_NONE, param: 0 }),
        0x4C => Some(Instruction { in_type: InType::IN_LD, mode: AddrMode::AM_R_R, reg_1: RegType::RT_C, reg_2: RegType::RT_H, cond: CondType::CT_NONE, param: 0 }),
        0x4D => Some(Instruction { in_type: InType::IN_LD, mode: AddrMode::AM_R_R, reg_1: RegType::RT_C, reg_2: RegType::RT_L, cond: CondType::CT_NONE, param: 0 }),
        0x4E => Some(Instruction { in_type: InType::IN_LD, mode: AddrMode::AM_R_MR, reg_1: RegType::RT_C, reg_2: RegType::RT_HL, cond: CondType::CT_NONE, param: 0 }),
        0x4F => Some(Instruction { in_type: InType::IN_LD, mode: AddrMode::AM_R_R, reg_1: RegType::RT_C, reg_2: RegType::RT_A, cond: CondType::CT_NONE, param: 0 }),
        0x50 => Some(Instruction { in_type: InType::IN_LD, mode: AddrMode::AM_R_R, reg_1: RegType::RT_D, reg_2: RegType::RT_B, cond: CondType::CT_NONE, param: 0 }),
        0x51 => Some(Instruction { in_type: InType::IN_LD, mode: AddrMode::AM_R_R, reg_1: RegType::RT_D, reg_2: RegType::RT_C, cond: CondType::CT_NONE, param: 0 }),
        0x52 => Some(Instruction { in_type: InType::IN_LD, mode: AddrMode::AM_R_R, reg_1: RegType::RT_D, reg_2: RegType::RT_D, cond: CondType::CT_NONE, param: 0 }),
        0x53 => Some(Instruction { in_type: InType::IN_LD, mode: AddrMode::AM_R_R, reg_1: RegType::RT_D, reg_2: RegType::RT_E, cond: CondType::CT_NONE, param: 0 }),
        0x54 => Some(Instruction { in_type: InType::IN_LD, mode: AddrMode::AM_R_R, reg_1: RegType::RT_D, reg_2: RegType::RT_H, cond: CondType::CT_NONE, param: 0 }),
        0x55 => Some(Instruction { in_type: InType::IN_LD, mode: AddrMode::AM_R_R, reg_1: RegType::RT_D, reg_2: RegType::RT_L, cond: CondType::CT_NONE, param: 0 }),
        0x56 => Some(Instruction { in_type: InType::IN_LD, mode: AddrMode::AM_R_MR, reg_1: RegType::RT_D, reg_2: RegType::RT_HL, cond: CondType::CT_NONE, param: 0 }),
        0x57 => Some(Instruction { in_type: InType::IN_LD, mode: AddrMode::AM_R_R, reg_1: RegType::RT_D, reg_2: RegType::RT_A, cond: CondType::CT_NONE, param: 0 }),
        0x58 => Some(Instruction { in_type: InType::IN_LD, mode: AddrMode::AM_R_R, reg_1: RegType::RT_E, reg_2: RegType::RT_B, cond: CondType::CT_NONE, param: 0 }),
        0x59 => Some(Instruction { in_type: InType::IN_LD, mode: AddrMode::AM_R_R, reg_1: RegType::RT_E, reg_2: RegType::RT_C, cond: CondType::CT_NONE, param: 0 }),
        0x5A => Some(Instruction { in_type: InType::IN_LD, mode: AddrMode::AM_R_R, reg_1: RegType::RT_E, reg_2: RegType::RT_D, cond: CondType::CT_NONE, param: 0 }),
        0x5B => Some(Instruction { in_type: InType::IN_LD, mode: AddrMode::AM_R_R, reg_1: RegType::RT_E, reg_2: RegType::RT_E, cond: CondType::CT_NONE, param: 0 }),
        0x5C => Some(Instruction { in_type: InType::IN_LD, mode: AddrMode::AM_R_R, reg_1: RegType::RT_E, reg_2: RegType::RT_H, cond: CondType::CT_NONE, param: 0 }),
        0x5D => Some(Instruction { in_type: InType::IN_LD, mode: AddrMode::AM_R_R, reg_1: RegType::RT_E, reg_2: RegType::RT_L, cond: CondType::CT_NONE, param: 0 }),
        0x5E => Some(Instruction { in_type: InType::IN_LD, mode: AddrMode::AM_R_MR, reg_1: RegType::RT_E, reg_2: RegType::RT_HL, cond: CondType::CT_NONE, param: 0 }),
        0x5F => Some(Instruction { in_type: InType::IN_LD, mode: AddrMode::AM_R_R, reg_1: RegType::RT_E, reg_2: RegType::RT_A, cond: CondType::CT_NONE, param: 0 }),
        0x60 => Some(Instruction { in_type: InType::IN_LD, mode: AddrMode::AM_R_R, reg_1: RegType::RT_H, reg_2: RegType::RT_B, cond: CondType::CT_NONE, param: 0 }),
        0x61 => Some(Instruction { in_type: InType::IN_LD, mode: AddrMode::AM_R_R, reg_1: RegType::RT_H, reg_2: RegType::RT_C, cond: CondType::CT_NONE, param: 0 }),
        0x62 => Some(Instruction { in_type: InType::IN_LD, mode: AddrMode::AM_R_R, reg_1: RegType::RT_H, reg_2: RegType::RT_D, cond: CondType::CT_NONE, param: 0 }),
        0x63 => Some(Instruction { in_type: InType::IN_LD, mode: AddrMode::AM_R_R, reg_1: RegType::RT_H, reg_2: RegType::RT_E, cond: CondType::CT_NONE, param: 0 }),
        0x64 => Some(Instruction { in_type: InType::IN_LD, mode: AddrMode::AM_R_R, reg_1: RegType::RT_H, reg_2: RegType::RT_H, cond: CondType::CT_NONE, param: 0 }),
        0x65 => Some(Instruction { in_type: InType::IN_LD, mode: AddrMode::AM_R_R, reg_1: RegType::RT_H, reg_2: RegType::RT_L, cond: CondType::CT_NONE, param: 0 }),
        0x66 => Some(Instruction { in_type: InType::IN_LD, mode: AddrMode::AM_R_MR, reg_1: RegType::RT_H, reg_2: RegType::RT_HL, cond: CondType::CT_NONE, param: 0 }),
        0x67 => Some(Instruction { in_type: InType::IN_LD, mode: AddrMode::AM_R_R, reg_1: RegType::RT_H, reg_2: RegType::RT_A, cond: CondType::CT_NONE, param: 0 }),
        0x68 => Some(Instruction { in_type: InType::IN_LD, mode: AddrMode::AM_R_R, reg_1: RegType::RT_L, reg_2: RegType::RT_B, cond: CondType::CT_NONE, param: 0 }),
        0x69 => Some(Instruction { in_type: InType::IN_LD, mode: AddrMode::AM_R_R, reg_1: RegType::RT_L, reg_2: RegType::RT_C, cond: CondType::CT_NONE, param: 0 }),
        0x6A => Some(Instruction { in_type: InType::IN_LD, mode: AddrMode::AM_R_R, reg_1: RegType::RT_L, reg_2: RegType::RT_D, cond: CondType::CT_NONE, param: 0 }),
        0x6B => Some(Instruction { in_type: InType::IN_LD, mode: AddrMode::AM_R_R, reg_1: RegType::RT_L, reg_2: RegType::RT_E, cond: CondType::CT_NONE, param: 0 }),
        0x6C => Some(Instruction { in_type: InType::IN_LD, mode: AddrMode::AM_R_R, reg_1: RegType::RT_L, reg_2: RegType::RT_H, cond: CondType::CT_NONE, param: 0 }),
        0x6D => Some(Instruction { in_type: InType::IN_LD, mode: AddrMode::AM_R_R, reg_1: RegType::RT_L, reg_2: RegType::RT_L, cond: CondType::CT_NONE, param: 0 }),
        0x6E => Some(Instruction { in_type: InType::IN_LD, mode: AddrMode::AM_R_MR, reg_1: RegType::RT_L, reg_2: RegType::RT_HL, cond: CondType::CT_NONE, param: 0 }),
        0x6F => Some(Instruction { in_type: InType::IN_LD, mode: AddrMode::AM_R_R, reg_1: RegType::RT_L, reg_2: RegType::RT_A, cond: CondType::CT_NONE, param: 0 }),
        0x70 => Some(Instruction { in_type: InType::IN_LD, mode: AddrMode::AM_MR_R, reg_1: RegType::RT_HL, reg_2: RegType::RT_B, cond: CondType::CT_NONE, param: 0 }),
        0x71 => Some(Instruction { in_type: InType::IN_LD, mode: AddrMode::AM_MR_R, reg_1: RegType::RT_HL, reg_2: RegType::RT_C, cond: CondType::CT_NONE, param: 0 }),
        0x72 => Some(Instruction { in_type: InType::IN_LD, mode: AddrMode::AM_MR_R, reg_1: RegType::RT_HL, reg_2: RegType::RT_D, cond: CondType::CT_NONE, param: 0 }),
        0x73 => Some(Instruction { in_type: InType::IN_LD, mode: AddrMode::AM_MR_R, reg_1: RegType::RT_HL, reg_2: RegType::RT_E, cond: CondType::CT_NONE, param: 0 }),
        0x74 => Some(Instruction { in_type: InType::IN_LD, mode: AddrMode::AM_MR_R, reg_1: RegType::RT_HL, reg_2: RegType::RT_H, cond: CondType::CT_NONE, param: 0 }),
        0x75 => Some(Instruction { in_type: InType::IN_LD, mode: AddrMode::AM_MR_R, reg_1: RegType::RT_HL, reg_2: RegType::RT_L, cond: CondType::CT_NONE, param: 0 }),
        0x76 => Some(Instruction { in_type: InType::IN_HALT, mode: AddrMode::AM_IMP, reg_1: RegType::RT_NONE, reg_2: RegType::RT_NONE, cond: CondType::CT_NONE, param: 0 }),
        0x77 => Some(Instruction { in_type: InType::IN_LD, mode: AddrMode::AM_MR_R, reg_1: RegType::RT_HL, reg_2: RegType::RT_A, cond: CondType::CT_NONE, param: 0 }),
        0x78 => Some(Instruction { in_type: InType::IN_LD, mode: AddrMode::AM_R_R, reg_1: RegType::RT_A, reg_2: RegType::RT_B, cond: CondType::CT_NONE, param: 0 }),
        0x79 => Some(Instruction { in_type: InType::IN_LD, mode: AddrMode::AM_R_R, reg_1: RegType::RT_A, reg_2: RegType::RT_C, cond: CondType::CT_NONE, param: 0 }),
        0x7A => Some(Instruction { in_type: InType::IN_LD, mode: AddrMode::AM_R_R, reg_1: RegType::RT_A, reg_2: RegType::RT_D, cond: CondType::CT_NONE, param: 0 }),
        0x7B => Some(Instruction { in_type: InType::IN_LD, mode: AddrMode::AM_R_R, reg_1: RegType::RT_A, reg_2: RegType::RT_E, cond: CondType::CT_NONE, param: 0 }),
        0x7C => Some(Instruction { in_type: InType::IN_LD, mode: AddrMode::AM_R_R, reg_1: RegType::RT_A, reg_2: RegType::RT_H, cond: CondType::CT_NONE, param: 0 }),
        0x7D => Some(Instruction { in_type: InType::IN_LD, mode: AddrMode::AM_R_R, reg_1: RegType::RT_A, reg_2: RegType::RT_L, cond: CondType::CT_NONE, param: 0 }),
        0x7E => Some(Instruction { in_type: InType::IN_LD, mode: AddrMode::AM_R_MR, reg_1: RegType::RT_A, reg_2: RegType::RT_HL, cond: CondType::CT_NONE, param: 0 }),
        0x7F => Some(Instruction { in_type: InType::IN_LD, mode: AddrMode::AM_R_R, reg_1: RegType::RT_A, reg_2: RegType::RT_A, cond: CondType::CT_NONE, param: 0 }),
        _ => None,
    }
}

/// Table entries for opcodes 0x80-0xBF.
fn decode_block2(opcode: u8) -> (r: Option<Instruction>)
    requires
        0x80 <= opcode <= 0xBF,
    ensures
        r == np_decode(opcode),
{
    match opcode {
        0x80 => Some(Instruction { in_type: InType::IN_ADD, mode: AddrMode::AM_R_R, reg_1: RegType::RT_A, reg_2: RegType::RT_B, cond: CondType::CT_NONE, param: 0 }),
        0x81 => Some(Instruction { in_type: InType::IN_ADD, mode: AddrMode::AM_R_R, reg_1: RegType::RT_A, reg_2: RegType::RT_C, cond: CondType::CT_NONE, param: 0 }),
        0x82 => Some(Instruction { in_type: InType::IN_ADD, mode: AddrMode::AM_R_R, reg_1: RegType::RT_A, reg_2: RegType::RT_D, cond: CondType::CT_NONE, param: 0 }),
        0x83 => Some(Instruction { in_type: InType::IN_ADD, mode: AddrMode::AM_R_R, reg_1: RegType::RT_A, reg_2: RegType::RT_E, cond: CondType::CT_NONE, param: 0 }),
        0x84 => Some(Instruction { in_type: InType::IN_ADD, mode: AddrMode::AM_R_R, reg_1: RegType::RT_A, reg_2: RegType::RT_H, cond: CondType::CT_NONE, param: 0 }),
        0x85 => Some(Instruction { in_type: InType::IN_ADD, mode: AddrMode::AM_R_R, reg_1: RegType::RT_A, reg_2: RegType::RT_L, cond: CondType::CT_NONE, param: 0 }),
        0x86 => Some(Instruction { in_type: InType::IN_ADD, mode: AddrMode::AM_R_MR, reg_1: RegType::RT_A, reg_2: RegType::RT_HL, cond: CondType::CT_NONE, param: 0 }),
        0x87 => Some(Instruction { in_type: InType::IN_ADD, mode: AddrMode::AM_R_R, reg_1: RegType::RT_A, reg_2: RegType::RT_A, cond: CondType::CT_NONE, param: 0 }),
        0x88 => Some(Instruction { in_type: InType::IN_ADC, mode: AddrMode::AM_R_R, reg_1: RegType::RT_A, reg_2: RegType::RT_B, cond: CondType::CT_NONE, param: 0 }),
        0x89 => Some(Instruction { in_type: InType::IN_ADC, mode: AddrMode::AM_R_R, reg_1: RegType::RT_A, reg_2: RegType::RT_C, cond: CondType::CT_NONE, param: 0 }),
        0x8A => Some(Instruction { in_type: InType::IN_ADC, mode: AddrMode::AM_R_R, reg_1: RegType::RT_A, reg_2: RegType::RT_D, cond: CondType::CT_NONE, param: 0 }),
        0x8B => Some(Instruction { in_type: InType::IN_ADC, mode: AddrMode::AM_R_R, reg_1: RegType::RT_A, reg_2: RegType::RT_E, cond: CondType::CT_NONE, param: 0 }),
        0x8C => Some(Instruction { in_type: InType::IN_ADC, mode: AddrMode::AM_R_R, reg_1: RegType::RT_A, reg_2: RegType::RT_H, cond: CondType::CT_NONE, param: 0 }),
        0x8D => Some(Instruction { in_type: InType::IN_ADC, mode: AddrMode::AM_R_R, reg_1: RegType::RT_A, reg_2: RegType::RT_L, cond: CondType::CT_NONE, param: 0 }),
        0x8E => Some(Instruction { in_type: InType::IN_ADC, mode: AddrMode::AM_R_MR, reg_1: RegType::RT_A, reg_2: RegType::RT_HL, cond: CondType::CT_NONE, param: 0 }),
        0x8F => Some(Instruction { in_type: InType::IN_ADC, mode: AddrMode::AM_R_R, reg_1: RegType::RT_A, reg_2: RegType::RT_A, cond: CondType::CT_NONE, param: 0 }),
        0x90 => Some(Instruction { in_type: InType::IN_SUB, mode: AddrMode::AM_R_R, reg_1: RegType::RT_A, reg_2: RegType::RT_B, cond: CondType::CT_NONE, param: 0 }),
        0x91 => Some(Instruction { in_type: InType::IN_SUB, mode: AddrMode::AM_R_R, reg_1: RegType::RT_A, reg_2: RegType::RT_C, cond: CondType::CT_NONE, param: 0 }),
        0x92 => Some(Instruction { in_type: InType::IN_SUB, mode: AddrMode::AM_R_R, reg_1: RegType::RT_A, reg_2: RegType::RT_D, cond: CondType::CT_NONE, param: 0 }),
        0x93 => Some(Instruction { in_type: InType::IN_SUB, mode: AddrMode::AM_R_R, reg_1: RegType::RT_A, reg_2: RegType::RT_E, cond: CondType::CT_NONE, param: 0 }),
        0x94 => Some(Instruction { in_type: InType::IN_SUB, mode: AddrMode::AM_R_R, reg_1: RegType::RT_A, reg_2: RegType::RT_H, cond: CondType::CT_NONE, param: 0 }),
        0x95 => Some(Instruction { in_type: InType::IN_SUB, mode: AddrMode::AM_R_R, reg_1: RegType::RT_A, reg_2: RegType::RT_L, cond: CondType::CT_NONE, param: 0 }),
        0x96 => Some(Instruction { in_type: InType::IN_SUB, mode: AddrMode::AM_R_MR, reg_1: RegType::RT_A, reg_2: RegType::RT_HL, cond: CondType::CT_NONE, param: 0 }),
        0x97 => Some(Instruction { in_type: InType::IN_SUB, mode: AddrMode::AM_R_R, reg_1: RegType::RT_A, reg_2: RegType::RT_A, cond: CondType::CT_NONE, param: 0 }),
        0x98 => Some(Instruction { in_type: InType::IN_SBC, mode: AddrMode::AM_R_R, reg_1: RegType::RT_A, reg_2: RegType::RT_B, cond: CondType::CT_NONE, param: 0 }),
        0x99 => Some(Instruction { in_type: InType::IN_SBC, mode: AddrMode::AM_R_R, reg_1: RegType::RT_A, reg_2: RegType::RT_C, cond: CondType::CT_NONE, param: 0 }),
        0x9A => Some(Instruction { in_type: InType::IN_SBC, mode: AddrMode::AM_R_R, reg_1: RegType::RT_A, reg_2: RegType::RT_D, cond: CondType::CT_NONE, param: 0 }),
        0x9B => Some(Instruction { in_type: InType::IN_SBC, mode: AddrMode::AM_R_R, reg_1: RegType::RT_A, reg_2: RegType::RT_E, cond: CondType::CT_NONE, param: 0 }),
        0x9C => Some(Instruction { in_type: InType::IN_SBC, mode: AddrMode::AM_R_R, reg_1: RegType::RT_A, reg_2: RegType::RT_H, cond: CondType::CT_NONE, param: 0 }),
        0x9D => Some(Instruction { in_type: InType::IN_SBC, mode: AddrMode::AM_R_R, reg_1: RegType::RT_A, reg_2: RegType::RT_L, cond: CondType::CT_NONE, param: 0 }),
        0x9E => Some(Instruction { in_type: InType::IN_SBC, mode: AddrMode::AM_R_MR, reg_1: RegType::RT_A, reg_2: RegType::RT_HL, cond: CondType::CT_NONE, param: 0 }),
        0x9F => Some(Instruction { in_type: InType::IN_SBC, mode: AddrMode::AM_R_R, reg_1: RegType::RT_A, reg_2: RegType::RT_A, cond: CondType::CT_NONE, param: 0 }),
        0xA0 => Some(Instruction { in_type: InType::IN_AND, mode: AddrMode::AM_R_R, reg_1: RegType::RT_A, reg_2: RegType::RT_B, cond: CondType::CT_NONE, param: 0 }),
        0xA1 => Some(Instruction { in_type: InType::IN_AND, mode: AddrMode::AM_R_R, reg_1: RegType::RT_A, reg_2: RegType::RT_C, cond: CondType::CT_NONE, param: 0 }),
        0xA2 => Some(Instruction { in_type: InType::IN_AND, mode: AddrMode::AM_R_R, reg_1: RegType::RT_A, reg_2: RegType::RT_D, cond: CondType::CT_NONE, param: 0 }),
        0xA3 => Some(Instruction { in_type: InType::IN_AND, mode: AddrMode::AM_R_R, reg_1: RegType::RT_A, reg_2: RegType::RT_E, cond: CondType::CT_NONE, param: 0 }),
        0xA4 => Some(Instruction { in_type: InType::IN_AND, mode: AddrMode::AM_R_R, reg_1: RegType::RT_A, reg_2: RegType::RT_H, cond: CondType::CT_NONE, param: 0 }),
        0xA5 => Some(Instruction { in_type: InType::IN_AND, mode: AddrMode::AM_R_R, reg_1: RegType::RT_A, reg_2: RegType::RT_L, cond: CondType::CT_NONE, param: 0 }),
        0xA6 => Some(Instruction { in_type: InType::IN_AND, mode: AddrMode::AM_R_MR, reg_1: RegType::RT_A, reg_2: RegType::RT_HL, cond: CondType::CT_NONE, param: 0 }),
        0xA7 => Some(Instruction { in_type: InType::IN_AND, mode: AddrMode::AM_R_R, reg_1: RegType::RT_A, reg_2: RegType::RT_A, cond: CondType::CT_NONE, param: 0 }),
        0xA8 => Some(Instruction { in_type: InType::IN_XOR, mode: AddrMode::AM_R_R, reg_1: RegType::RT_A, reg_2: RegType::RT_B, cond: CondType::CT_NONE, param: 0 }),
        0xA9 => Some(Instruction { in_type: InType::IN_XOR, mode: AddrMode::AM_R_R, reg_1: RegType::RT_A, reg_2: RegType::RT_C, cond: CondType::CT_NONE, param: 0 }),
        0xAA => Some(Instruction { in_type: InType::IN_XOR, mode: AddrMode::AM_R_R, reg_1: RegType::RT_A, reg_2: RegType::RT_D, cond: CondType::CT_NONE, param: 0 }),
        0xAB => Some(Instruction { in_type: InType::IN_XOR, mode: AddrMode::AM_R_R, reg_1: RegType::RT_A, reg_2: RegType::RT_E, cond: CondType::CT_NONE, param: 0 }),
        0xAC => Some(Instruction { in_type: InType::IN_XOR, mode: AddrMode::AM_R_R, reg_1: RegType::RT_A, reg_2: RegType::RT_H, cond: CondType::CT_NONE, param: 0 }),
        0xAD => Some(Instruction { in_type: InType::IN_XOR, mode: AddrMode::AM_R_R, reg_1: RegType::RT_A, reg_2: RegType::RT_L, cond: CondType::CT_NONE, param: 0 }),
        0xAE => Some(Instruction { in_type: InType::IN_XOR, mode: AddrMode::AM_R_MR, reg_1: RegType::RT_A, reg_2: RegType::RT_HL, cond: CondType::CT_NONE, param: 0 }),
        0xAF => Some(Instruction { in_type: InType::IN_XOR, mode: AddrMode::AM_R_R, reg_1: RegType::RT_A, reg_2: RegType::RT_A, cond: CondType::CT_NONE, param: 0 }),
        0xB0 => Some(Instruction { in_type: InType::IN_OR, mode: AddrMode::AM_R_R, reg_1: RegType::RT_A, reg_2: RegType::RT_B, cond: CondType::CT_NONE, param: 0 }),
        0xB1 => Some(Instruction { in_type: InType::IN_OR, mode: AddrMode::AM_R_R, reg_1: RegType::RT_A, reg_2: RegType::RT_C, cond: CondType::CT_NONE, param: 0 }),
        0xB2 => Some(Instruction { in_type: InType::IN_OR, mode: AddrMode::AM_R_R, reg_1: RegType::RT_A, reg_2: RegType::RT_D, cond: CondType::CT_NONE, param: 0 }),
        0xB3 => Some(Instruction { in_type: InType::IN_OR, mode: AddrMode::AM_R_R, reg_1: RegType::RT_A, reg_2: RegType::RT_E, cond: CondType::CT_NONE, param: 0 }),
        0xB4 => Some(Instruction { in_type: InType::IN_OR, mode: AddrMode::AM_R_R, reg_1: RegType::RT_A, reg_2: RegType::RT_H, cond: CondType::CT_NONE, param: 0 }),
        0xB5 => Some(Instruction { in_type: InType::IN_OR, mode: AddrMode::AM_R_R, reg_1: RegType::RT_A, reg_2: RegType::RT_L, cond: CondType::CT_NONE, param: 0 }),
        0xB6 => Some(Instruction { in_type: InType::IN_OR, mode: AddrMode::AM_R_MR, reg_1: RegType::RT_A, reg_2: RegType::RT_HL, cond: CondType::CT_NONE, param: 0 }),
        0xB7 => Some(Instruction { in_type: InType::IN_OR, mode: AddrMode::AM_R_R, reg_1: RegType::RT_A, reg_2: RegType::RT_A, cond: CondType::CT_NONE, param: 0 }),
        0xB8 => Some(Instruction { in_type: InType::IN_CP, mode: AddrMode::AM_R_R, reg_1: RegType::RT_A, reg_2: RegType::RT_B, cond: CondType::CT_NONE, param: 0 }),
        0xB9 => Some(Instruction { in_type: InType::IN_CP, mode: AddrMode::AM_R_R, reg_1: RegType::RT_A, reg_2: RegType::RT_C, cond: CondType::CT_NONE, param: 0 }),
        0xBA => Some(Instruction { in_type: InType::IN_CP, mode: AddrMode::AM_R_R, reg_1: RegType::RT_A, reg_2: RegType::RT_D, cond: CondType::CT_NONE, param: 0 }),
        0xBB => Some(Instruction { in_type: InType::IN_CP, mode: AddrMode::AM_R_R, reg_1: RegType::RT_A, reg_2: RegType::RT_E, cond: CondType::CT_NONE, param: 0 }),
        0xBC => Some(Instruction { in_type: InType::IN_CP, mode: AddrMode::AM_R_R, reg_1: RegType::RT_A, reg_2: RegType::RT_H, cond: CondType::CT_NONE, param: 0 }),
        0xBD => Some(Instruction { in_type: InType::IN_CP, mode: AddrMode::AM_R_R, reg_1: RegType::RT_A, reg_2: RegType::RT_L, cond: CondType::CT_NONE, param: 0 }),
        0xBE => Some(Instruction { in_type: InType::IN_CP, mode: AddrMode::AM_R_MR, reg_1: RegType::RT_A, reg_2: RegType::RT_HL, cond: CondType::CT_NONE, param: 0 }),
        0xBF => Some(Instruction { in_type: InType::IN_CP, mode: AddrMode::AM_R_R, reg_1: RegType::RT_A, reg_2: RegType::RT_A, cond: CondType::CT_NONE, param: 0 }),
        _ => None,
    }
}

/// Table entries for opcodes 0xC0-0xFF.
fn decode_block3(opcode: u8) -> (r: Option<Instruction>)
    requires
        0xC0 <= opcode <= 0xFF,
    ensures
        r == np_decode(opcode),
{
    match opcode {
        0xC0 => Some(Instruction { in_type: InType::IN_RET, mode: AddrMode::AM_IMP, reg_1: RegType::RT_NONE, reg_2: RegType::RT_NONE, cond: CondType::CT_NZ, param: 0 }),
        0xC1 => Some(Instruction { in_type: InType::IN_POP, mode: AddrMode::AM_R, reg_1: RegType::RT_BC, reg_2: RegType::RT_NONE, cond: CondType::CT_NONE, param: 0 }),
        0xC2 => Some(Instruction { in_type: InType::IN_JP, mode: AddrMode::AM_D16, reg_1: RegType::RT_NONE, reg_2: RegType::RT_NONE, cond: CondType::CT_NZ, param: 0 }),
        0xC3 => Some(Instruction { in_type: InType::IN_JP, mode: AddrMode::AM_D16, reg_1: RegType::RT_NONE, reg_2: RegType::RT_NONE, cond: CondType::CT_NONE, param: 0 }),
        0xC4 => Some(Instruction { in_type: InType::IN_CALL, mode: AddrMode::AM_D16, reg_1: RegType::RT_NONE, reg_2: RegType::RT_NONE, cond: CondType::CT_NZ, param: 0 }),
        0xC5 => Some(Instruction { in_type: InType::IN_PUSH, mode: AddrMode::AM_R, reg_1: RegType::RT_BC, reg_2: RegType::RT_NONE, cond: CondType::CT_NONE, param: 0 }),
        0xC6 => Some(Instruction { in_type: InType::IN_ADD, mode: AddrMode::AM_R_D8, reg_1: RegType::RT_A, reg_2: RegType::RT_NONE, cond: CondType::CT_NONE, param: 0 }),
        0xC7 => Some(Instruction { in_type: InType::IN_RST, mode: AddrMode::AM_IMP, reg_1: RegType::RT_NONE, reg_2: RegType::RT_NONE, cond: CondType::CT_NONE, param: 0 }),
        0xC8 => Some(Instruction { in_type: InType::IN_RET, mode: AddrMode::AM_IMP, reg_1: RegType::RT_NONE, reg_2: RegType::RT_NONE, cond: CondType::CT_Z, param: 0 }),
        0xC9 => Some(Instruction { in_type: InType::IN_RET, mode: AddrMode::AM_IMP, reg_1: RegType::RT_NONE, reg_2: RegType::RT_NONE, cond: CondType::CT_NONE, param: 0 }),
        0xCA => Some(Instruction { in_type: InType::IN_JP, mode: AddrMode::AM_D16, reg_1: RegType::RT_NONE, reg_2: RegType::RT_NONE, cond: CondType::CT_Z, param: 0 }),
        0xCB => Some(Instruction { in_type: InType::IN_CB, mode: AddrMode::AM_D8, reg_1: RegType::RT_NONE, reg_2: RegType::RT_NONE, cond: CondType::CT_NONE, param: 0 }),
        0xCC => Some(Instruction { in_type: InType::IN_CALL, mode: AddrMode::AM_D16, reg_1: RegType::RT_NONE, reg_2: RegType::RT_NONE, cond: CondType::CT_Z, param: 0 }),
        0xCD => Some(Instruction { in_type: InType::IN_CALL, mode: AddrMode::AM_D16, reg_1: RegType::RT_NONE, reg_2: RegType::RT_NONE, cond: CondType::CT_NONE, param: 0 }),
        0xCE => Some(Instruction { in_type: InType::IN_ADC, mode: AddrMode::AM_R_D8, reg_1: RegType::RT_A, reg_2: RegType::RT_NONE, cond: CondType::CT_NONE, param: 0 }),
        0xCF => Some(Instruction { in_type: InType::IN_RST, mode: AddrMode::AM_IMP, reg_1: RegType::RT_NONE, reg_2: RegType::RT_NONE, cond: CondType::CT_NONE, param: 8 }),
        0xD0 => Some(Instruction { in_type: InType::IN_RET, mode: AddrMode::AM_IMP, reg_1: RegType::RT_NONE, reg_2: RegType::RT_NONE, cond: CondType::CT_NC, param: 0 }),
        0xD1 => Some(Instruction { in_type: InType::IN_POP, mode: AddrMode::AM_R, reg_1: RegType::RT_DE, reg_2: RegType::RT_NONE, cond: CondType::CT_NONE, param: 0 }),
        0xD2 => Some(Instruction { in_type: InType::IN_JP, mode: AddrMode::AM_D16, reg_1: RegType::RT_NONE, reg_2: RegType::RT_NONE, cond: CondType::CT_NC, param: 0 }),
        0xD3 => None,
        0xD4 => Some(Instruction { in_type: InType::IN_CALL, mode: AddrMode::AM_D16, reg_1: RegType::RT_NONE, reg_2: RegType::RT_NONE, cond: CondType::CT_NC, param: 0 }),
        0xD5 => Some(Instruction { in_type: InType::IN_PUSH, mode: AddrMode::AM_R, reg_1: RegType::RT_DE, reg_2: RegType::RT_NONE, cond: CondType::CT_NONE, param: 0 }),
        0xD6 => Some(Instruction { in_type: InType::IN_SUB, mode: AddrMode::AM_R_D8, reg_1: RegType::RT_A, reg_2: RegType::RT_NONE, cond: CondType::CT_NONE, param: 0 }),
        0xD7 => Some(Instruction { in_type: InType::IN_RST, mode: AddrMode::AM_IMP, reg_1: RegType::RT_NONE, reg_2: RegType::RT_NONE, cond: CondType::CT_NONE, param: 16 }),
        0xD8 => Some(Instruction { in_type: InType::IN_RET, mode: AddrMode::AM_IMP, reg_1: RegType::RT_NONE, reg_2: RegType::RT_NONE, cond: CondType::CT_C, param: 0 }),
        0xD9 => Some(Instruction { in_type: InType::IN_RETI, mode: AddrMode::AM_IMP, reg_1: RegType::RT_NONE, reg_2: RegType::RT_NONE, cond: CondType::CT_NONE, param: 0 }),
        0xDA => Some(Instruction { in_type: InType::IN_JP, mode: AddrMode::AM_D16, reg_1: RegType::RT_NONE, reg_2: RegType::RT_NONE, cond: CondType::CT_C, param: 0 }),
        0xDB => None,
        0xDC => Some(Instruction { in_type: InType::IN_CALL, mode: AddrMode::AM_D16, reg_1: RegType::RT_NONE, reg_2: RegType::RT_NONE, cond: CondType::CT_C, param: 0 }),
        0xDD => None,
        0xDE => Some(Instruction { in_type: InType::IN_SBC, mode: AddrMode::AM_R_D8, reg_1: RegType::RT_A, reg_2: RegType::RT_NONE, cond: CondType::CT_NONE, param: 0 }),
        0xDF => Some(Instruction { in_type: InType::IN_RST, mode: AddrMode::AM_IMP, reg_1: RegType::RT_NONE, reg_2: RegType::RT_NONE, cond: CondType::CT_NONE, param: 24 }),
        0xE0 => Some(Instruction { in_type: InType::IN_LDH, mode: AddrMode::AM_A8_R, reg_1: RegType::RT_NONE, reg_2: RegType::RT_A, cond: CondType::CT_NONE, param: 0 }),
        0xE1 => Some(Instruction { in_type: InType::IN_POP, mode: AddrMode::AM_R, reg_1: RegType::RT_HL, reg_2: RegType::RT_NONE, cond: CondType::CT_NONE, param: 0 }),
        0xE2 => Some(Instruction { in_type: InType::IN_LD, mode: AddrMode::AM_MR_R, reg_1: RegType::RT_C, reg_2: RegType::RT_A, cond: CondType::CT_NONE, param: 0 }),
        0xE3 => None,
        0xE4 => None,
        0xE5 => Some(Instruction { in_type: InType::IN_PUSH, mode: AddrMode::AM_R, reg_1: RegType::RT_HL, reg_2: RegType::RT_NONE, cond: CondType::CT_NONE, param: 0 }),
        0xE6 => Some(Instruction { in_type: InType::IN_AND, mode: AddrMode::AM_R_D8, reg_1: RegType::RT_A, reg_2: RegType::RT_NONE, cond: CondType::CT_NONE, param: 0 }),
        0xE7 => Some(Instruction { in_type: InType::IN_RST, mode: AddrMode::AM_IMP, reg_1: RegType::RT_NONE, reg_2: RegType::RT_NONE, cond: CondType::CT_NONE, param: 32 }),
        0xE8 => Some(Instruction { in_type: InType::IN_ADD, mode: AddrMode::AM_R_D8, reg_1: RegType::RT_SP, reg_2: RegType::RT_NONE, cond: CondType::CT_NONE, param: 0 }),
        0xE9 => Some(Instruction { in_type: InType::IN_JP, mode: AddrMode::AM_MR, reg_1: RegType::RT_HL, reg_2: RegType::RT_NONE, cond: CondType::CT_NONE, param: 0 }),
        0xEA => Some(Instruction { in_type: InType::IN_LD, mode: AddrMode::AM_A16_R, reg_1: RegType::RT_NONE, reg_2: RegType::RT_A, cond: CondType::CT_NONE, param: 0 }),
        0xEB => None,
        0xEC => None,
        0xED => None,
        0xEE => Some(Instruction { in_type: InType::IN_XOR, mode: AddrMode::AM_R_D8, reg_1: RegType::RT_A, reg_2: RegType::RT_NONE, cond: CondType::CT_NONE, param: 0 }),
        0xEF => Some(Instruction { in_type: InType::IN_RST, mode: AddrMode::AM_IMP, reg_1: RegType::RT_NONE, reg_2: RegType::RT_NONE, cond: CondType::CT_NONE, param: 40 }),
        0xF0 => Some(Instruction { in_type: InType::IN_LDH, mode: AddrMode::AM_R_A8, reg_1: RegType::RT_A, reg_2: RegType::RT_NONE, cond: CondType::CT_NONE, param: 0 }),
        0xF1 => Some(Instruction { in_type: InType::IN_POP, mode: AddrMode::AM_R, reg_1: RegType::RT_AF, reg_2: RegType::RT_NONE, cond: CondType::CT_NONE, param: 0 }),
        0xF2 => Some(Instruction { in_type: InType::IN_LD, mode: AddrMode::AM_R_MR, reg_1: RegType::RT_A, reg_2: RegType::RT_C, cond: CondType::CT_NONE, param: 0 }),
        0xF3 => Some(Instruction { in_type: InType::IN_DI, mode: AddrMode::AM_IMP, reg_1: RegType::RT_NONE, reg_2: RegType::RT_NONE, cond: CondType::CT_NONE, param: 0 }),
        0xF4 => None,
        0xF5 => Some(Instruction { in_type: InType::IN_PUSH, mode: AddrMode::AM_R, reg_1: RegType::RT_AF, reg_2: RegType::RT_NONE, cond: CondType::CT_NONE, param: 0 }),
        0xF6 => Some(Instruction { in_type: InType::IN_OR, mode: AddrMode::AM_R_D8, reg_1: RegType::RT_A, reg_2: RegType::RT_NONE, cond: CondType::CT_NONE, param: 0 }),
        0xF7 => Some(Instruction { in_type: InType::IN_RST, mode: AddrMode::AM_IMP, reg_1: RegType::RT_NONE, reg_2: RegType::RT_NONE, cond: CondType::CT_NONE, param: 48 }),
        0xF8 => Some(Instruction { in_type: InType::IN_LD, mode: AddrMode::AM_HL_SPR, reg_1: RegType::RT_HL, reg_2: RegType::RT_SP, cond: CondType::CT_NONE, param: 0 }),
        0xF9 => Some(Instruction { in_type: InType::IN_LD, mode: AddrMode::AM_R_R, reg_1: RegType::RT_SP, reg_2: RegType::RT_HL, cond: CondType::CT_NONE, param: 0 }),
        0xFA => Some(Instruction { in_type: InType::IN_LD, mode: AddrMode::AM_R_A16, reg_1: RegType::RT_A, reg_2: RegType::RT_NONE, cond: CondType::CT_NONE, param: 0 }),
        0xFB => Some(Instruction { in_type: InType::IN_EI, mode: AddrMode::AM_IMP, reg_1: RegType::RT_NONE, reg_2: RegType::RT_NONE, cond: CondType::CT_NONE, param: 0 }),
        0xFC => None,
        0xFD => None,
        0xFE => Some(Instruction { in_type: InType::IN_CP, mode: AddrMode::AM_R_D8, reg_1: RegType::RT_A, reg_2: RegType::RT_NONE, cond: CondType::CT_NONE, param: 0 }),
        0xFF => Some(Instruction { in_type: InType::IN_RST, mode: AddrMode::AM_IMP, reg_1: RegType::RT_NONE, reg_2: RegType::RT_NONE, cond: CondType::CT_NONE, param: 56 }),
        _ => None,
    }
}

/// The opcodes that are no instruction.
pub open spec fn illegal_opcode(op: u8) -> bool {
    op == 0xD3 || op == 0xDB || op == 0xDD || op == 0xE3 || op == 0xE4 || op == 0xEB || op == 0xEC
        || op == 0xED || op == 0xF4 || op == 0xFC || op == 0xFD
}

/// The decoder knows every opcode but the eleven illegal ones.
pub proof fn law_decode_defined(op: u8)
    ensures
        np_decode(op).is_none() <==> illegal_opcode(op),
{
}

/// The ALU block 0x80..0xBF: bits 5..3 name the operation (ADD, ADC, SUB, SBC, AND, XOR,
/// OR, CP), bits 2..0 the operand (B, C, D, E, H, L, (HL), A), and A is the destination;
/// e.g. 0xA0..0xA7 are AND A,r.
pub proof fn law_decode_alu_block(op: u8)
    requires
        0x80 <= op <= 0xBF,
    ensures
        np_decode(op) is Some,
        np_decode(op).unwrap().in_type == seq![
            InType::IN_ADD,
            InType::IN_ADC,
            InType::IN_SUB,
            InType::IN_SBC,
            InType::IN_AND,
            InType::IN_XOR,
            InType::IN_OR,
            InType::IN_CP,
        ][(op as int - 0x80) / 8],
        np_decode(op).unwrap().reg_1 == RegType::RT_A,
        np_decode(op).unwrap().reg_2 == seq![
            RegType::RT_B,
            RegType::RT_C,
            RegType::RT_D,
            RegType::RT_E,
            RegType::RT_H,
            RegType::RT_L,
            RegType::RT_HL,
            RegType::RT_A,
        ][op as int % 8],
        np_decode(op).unwrap().mode == (if op % 8 == 6 { AddrMode::AM_R_MR } else { AddrMode::AM_R_R }),
        np_decode(op).unwrap().cond == CondType::CT_NONE,
{
}

/// The load block 0x40..0x7F: LD d,s with d named by bits 5..3 and s by bits 2..0 (B, C,
/// D, E, H, L, (HL), A), except 0x76, which is HALT.
pub proof fn law_decode_ld_block(op: u8)
    requires
        0x40 <= op <= 0x7F,
    ensures
        op == 0x76 ==> np_decode(op) == Some(
            Instruction {
                in_type: InType::IN_HALT,
                mode: AddrMode::AM_IMP,
                reg_1: RegType::RT_NONE,
                reg_2: RegType::RT_NONE,
                cond: CondType::CT_NONE,
                param: 0,
            },
        ),
        op != 0x76 ==> np_decode(op) is Some && np_decode(op).unwrap().in_type == InType::IN_LD
            && np_decode(op).unwrap().reg_1 == seq![
            RegType::RT_B,
            RegType::RT_C,
            RegType::RT_D,
            RegType::RT_E,
            RegType::RT_H,
            RegType::RT_L,
            RegType::RT_HL,
            RegType::RT_A,
        ][(op as int - 0x40) / 8]
            && np_decode(op).unwrap().reg_2 == seq![
            RegType::RT_B,
            RegType::RT_C,
            RegType::RT_D,
            RegType::RT_E,
            RegType::RT_H,
            RegType::RT_L,
            RegType::RT_HL,
            RegType::RT_A,
        ][op as int % 8]
            && np_decode(op).unwrap().mode == (if (op as int - 0x40) / 8 == 6 {
                AddrMode::AM_MR_R
            } else if op % 8 == 6 {
                AddrMode::AM_R_MR
            } else {
                AddrMode::AM_R_R
            }),
{
}

/// The CB-prefixed table: 0x00..0x3F are RLC, RRC, RL, RR, SLA, SRA, SWAP and SRL by bits
/// 5..3; 0x40.., 0x80.. and 0xC0.. are BIT, RES and SET of the bit numbered by bits 5..3;
/// bits 2..0 name the operand (B, C, D, E, H, L, (HL), A).
pub proof fn law_decode_cb(op: u8)
    ensures
        cb_decode(op).in_type == (if op < 0x40 {
            seq![
                InType::IN_RLC,
                InType::IN_RRC,
                InType::IN_RL,
                InType::IN_RR,
                InType::IN_SLA,
                InType::IN_SRA,
                InType::IN_SWAP,
                InType::IN_SRL,
            ][op as int / 8]
        } else if op < 0x80 {
            InType::IN_BIT
        } else if op < 0xC0 {
            InType::IN_RES
        } else {
            InType::IN_SET
        }),
        cb_decode(op).reg_1 == seq![
            RegType::RT_B,
            RegType::RT_C,
            RegType::RT_D,
            RegType::RT_E,
            RegType::RT_H,
            RegType::RT_L,
            RegType::RT_HL,
            RegType::RT_A,
        ][op as int % 8],
        cb_decode(op).param == (if op < 0x40 { 0 } else { (op / 8) % 8 }),
        cb_decode(op).mode == (if op % 8 == 6 { AddrMode::AM_MR } else { AddrMode::AM_R }),
{
}

} // verus!
