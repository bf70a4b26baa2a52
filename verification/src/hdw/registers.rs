use vstd::prelude::*;

verus! {

/// The 16-bit value whose high byte is `hi` and low byte is `lo`.
pub open spec fn word(hi: u8, lo: u8) -> u16 {
    (hi * 256 + lo) as u16
}

/// `x` reduced modulo 256.
pub open spec fn wrap8(x: int) -> u8 {
    (x % 256) as u8
}

/// `x` reduced modulo 65536.
pub open spec fn wrap16(x: int) -> u16 {
    (x % 0x10000) as u16
}

/// a + b + c modulo 256.
pub fn add3_u8(a: u8, b: u8, c: u8) -> (r: u8)
    ensures
        r == wrap8(a + b + c),
{
    a.wrapping_add(b).wrapping_add(c)
}

/// a - b - c modulo 256.
pub fn sub3_u8(a: u8, b: u8, c: u8) -> (r: u8)
    ensures
        r == wrap8(a - b - c),
{
    a.wrapping_sub(b).wrapping_sub(c)
}

/// a + b modulo 65536.
pub fn add_u16(a: u16, b: u16) -> (r: u16)
    ensures
        r == wrap16(a + b),
{
    a.wrapping_add(b)
}

/// a - b modulo 65536.
pub fn sub_u16(a: u16, b: u16) -> (r: u16)
    ensures
        r == wrap16(a - b),
{
    a.wrapping_sub(b)
}

/// High byte of a 16-bit value.
pub open spec fn hi_byte(v: u16) -> u8 {
    (v / 256) as u8
}

/// Low byte of a 16-bit value.
pub open spec fn lo_byte(v: u16) -> u8 {
    (v % 256) as u8
}

pub proof fn lemma_word_bytes(hi: u8, lo: u8)
    ensures
        hi_byte(word(hi, lo)) == hi,
        lo_byte(word(hi, lo)) == lo,
        hi * 256 + lo < 0x10000,
{
}

pub proof fn lemma_bytes_word(v: u16)
    ensures
        word(hi_byte(v), lo_byte(v)) == v,
{
}

/// Combines two bytes into a word, high byte first.
pub fn make_word(hi: u8, lo: u8) -> (r: u16)
    ensures
        r == word(hi, lo),
{
    let r: u16 = ((hi as u16) << 8) | (lo as u16);
    assert(((hi as u16) << 8) | (lo as u16) == hi * 256 + lo) by (bit_vector);
    r
}

/// Splits a word into its (high, low) bytes.
pub fn split_word(v: u16) -> (r: (u8, u8))
    ensures
        r.0 == hi_byte(v),
        r.1 == lo_byte(v),
{
    assert((v >> 8) == v / 256) by (bit_vector);
    assert((v & 0xFF) == v % 256) by (bit_vector);
    ((v >> 8) as u8, (v & 0xFF) as u8)
}

/// The four CPU flags: Z (bit 7), N (bit 6), H (bit 5) and C (bit 4) of F.
#[derive(Copy, Clone, PartialEq, Eq, Structural, Debug)]
pub struct FlagsRegister {
    pub zero: bool,
    pub subtract: bool,
    pub half_carry: bool,
    pub carry: bool,
}

impl FlagsRegister {
    pub open spec fn byte(self) -> u8 {
        ((if self.zero { 0x80int } else { 0 }) + (if self.subtract { 0x40int } else { 0 }) + (
        if self.half_carry { 0x20int } else { 0 }) + (if self.carry { 0x10int } else { 0 })) as u8
    }

    pub open spec fn with_zero(self, zero: bool) -> FlagsRegister {
        FlagsRegister { zero, ..self }
    }

    pub open spec fn of_byte(b: u8) -> FlagsRegister {
        FlagsRegister {
            zero: b & 0x80 != 0,
            subtract: b & 0x40 != 0,
            half_carry: b & 0x20 != 0,
            carry: b & 0x10 != 0,
        }
    }

    /// The F register value of these flags; its low nibble is zero.
    pub fn to_byte(&self) -> (r: u8)
        ensures
            r == self.byte(),
    {
        let mut r: u8 = 0;
        if self.zero {
            r = r + 0x80;
        }
        if self.subtract {
            r = r + 0x40;
        }
        if self.half_carry {
            r = r + 0x20;
        }
        if self.carry {
            r = r + 0x10;
        }
        r
    }

    pub fn from_byte(b: u8) -> (r: FlagsRegister)
        ensures
            r == FlagsRegister::of_byte(b),
    {
        FlagsRegister {
            zero: b & 0x80 != 0,
            subtract: b & 0x40 != 0,
            half_carry: b & 0x20 != 0,
            carry: b & 0x10 != 0,
        }
    }
}

/// Reading the flags back from the byte they encode gives the same flags.
pub proof fn lemma_flags_byte_roundtrip(f: FlagsRegister)
    ensures
        FlagsRegister::of_byte(f.byte()) == f,
        f.byte() & 0x0F == 0,
{
    let b = f.byte();
    let z = f.zero;
    let n = f.subtract;
    let h = f.half_carry;
    let c = f.carry;
    assert(forall|x: u8|
        (x == 0x00 || x == 0x10 || x == 0x20 || x == 0x30 || x == 0x40 || x == 0x50 || x == 0x60
            || x == 0x70 || x == 0x80 || x == 0x90 || x == 0xA0 || x == 0xB0 || x == 0xC0 || x
            == 0xD0 || x == 0xE0 || x == 0xF0) ==> (x & 0x0F == 0 && ((x & 0x80 != 0) == (x
            >= 0x80)) && ((x & 0x40 != 0) == (x % 0x80 >= 0x40)) && ((x & 0x20 != 0) == (x
            % 0x40 >= 0x20)) && ((x & 0x10 != 0) == (x % 0x20 >= 0x10)))) by (bit_vector);
}

/// The flags read from a byte encode back to that byte with its low nibble cleared.
pub proof fn lemma_of_byte_byte(b: u8)
    ensures
        FlagsRegister::of_byte(b).byte() == b & 0xF0,
{
    assert(((if b & 0x80 != 0 { 0x80u8 } else { 0u8 }) | (if b & 0x40 != 0 { 0x40u8 } else { 0u8 }) | (
    if b & 0x20 != 0 { 0x20u8 } else { 0u8 }) | (if b & 0x10 != 0 { 0x10u8 } else { 0u8 })) == b
        & 0xF0) by (bit_vector);
    assert((if b & 0x80 != 0 { 0x80int } else { 0 }) + (if b & 0x40 != 0 { 0x40int } else { 0 }) + (
    if b & 0x20 != 0 { 0x20int } else { 0 }) + (if b & 0x10 != 0 { 0x10int } else { 0 }) == ((
    if b & 0x80 != 0 { 0x80u8 } else { 0u8 }) | (if b & 0x40 != 0 { 0x40u8 } else { 0u8 }) | (
    if b & 0x20 != 0 { 0x20u8 } else { 0u8 }) | (if b & 0x10 != 0 { 0x10u8 } else { 0u8 }))) by (bit_vector);
}

/// The eight 8-bit registers of the CPU (F held as flags).
#[derive(Copy, Clone, PartialEq, Eq, Structural, Debug)]
pub struct Registers {
    pub a: u8,
    pub b: u8,
    pub c: u8,
    pub d: u8,
    pub e: u8,
    pub f: FlagsRegister,
    pub h: u8,
    pub l: u8,
}

impl Registers {
    pub open spec fn af(self) -> u16 {
        word(self.a, self.f.byte())
    }

    pub open spec fn bc(self) -> u16 {
        word(self.b, self.c)
    }

    pub open spec fn de(self) -> u16 {
        word(self.d, self.e)
    }

    pub open spec fn hl(self) -> u16 {
        word(self.h, self.l)
    }

    pub fn get_af(&self) -> (r: u16)
        ensures
            r == self.af(),
    {
        let f = self.f.to_byte();
        make_word(self.a, f)
    }

    pub fn get_bc(&self) -> (r: u16)
        ensures
            r == self.bc(),
    {
        make_word(self.b, self.c)
    }

    pub fn get_de(&self) -> (r: u16)
        ensures
            r == self.de(),
    {
        make_word(self.d, self.e)
    }

    pub fn get_hl(&self) -> (r: u16)
        ensures
            r == self.hl(),
    {
        make_word(self.h, self.l)
    }

    /// Sets A from the high byte and the flags from bits 7..4 of the low byte.
    pub fn set_af(&mut self, value: u16)
        ensures
            *final(self) == (Registers {
                a: hi_byte(value),
                f: FlagsRegister::of_byte(lo_byte(value)),
                ..*old(self)
            }),
            final(self).af() == word(hi_byte(value), lo_byte(value) & 0xF0),
    {
        proof {
            lemma_of_byte_byte(lo_byte(value));
        }
        let (hi, lo) = split_word(value);
        self.a = hi;
        self.f = FlagsRegister::from_byte(lo);
    }

    pub fn set_bc(&mut self, value: u16)
        ensures
            *final(self) == (Registers { b: hi_byte(value), c: lo_byte(value), ..*old(self) }),
            final(self).bc() == value,
    {
        let (hi, lo) = split_word(value);
        self.b = hi;
        self.c = lo;
    }

    pub fn set_de(&mut self, value: u16)
        ensures
            *final(self) == (Registers { d: hi_byte(value), e: lo_byte(value), ..*old(self) }),
            final(self).de() == value,
    {
        let (hi, lo) = split_word(value);
        self.d = hi;
        self.e = lo;
    }

    pub fn set_hl(&mut self, value: u16)
        ensures
            *final(self) == (Registers { h: hi_byte(value), l: lo_byte(value), ..*old(self) }),
            final(self).hl() == value,
    {
        let (hi, lo) = split_word(value);
        self.h = hi;
        self.l = lo;
    }
}

} // verus!
