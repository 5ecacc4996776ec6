//! The architectural registers, their 8-bit and 16-bit views, and the flags.

use vstd::prelude::*;

verus! {

pub open spec fn spec_high(value: u16) -> u8 {
    (value / 256) as u8
}

/// The high byte of a 16-bit value.
#[verifier::when_used_as_spec(spec_high)]
pub fn high(value: u16) -> (byte: u8)
    ensures
        byte == spec_high(value),
{
    (value / 256) as u8
}

pub open spec fn spec_low(value: u16) -> u8 {
    (value % 256) as u8
}

/// The low byte of a 16-bit value.
#[verifier::when_used_as_spec(spec_low)]
pub fn low(value: u16) -> (byte: u8)
    ensures
        byte == spec_low(value),
{
    (value % 256) as u8
}

pub open spec fn spec_word(high: u8, low: u8) -> u16 {
    (high * 256 + low) as u16
}

/// The 16-bit value with the given high and low byte.
#[verifier::when_used_as_spec(spec_word)]
pub fn word(high: u8, low: u8) -> (value: u16)
    ensures
        value == spec_word(high, low),
{
    (high as u16) * 256 + (low as u16)
}

pub open spec fn spec_offset(address: u16, delta: i32) -> u16 {
    ((address + delta) % 0x10000) as u16
}

/// `address` moved by `delta`, wrapping within the 16-bit address space.
#[verifier::when_used_as_spec(spec_offset)]
pub fn offset(address: u16, delta: i32) -> (moved: u16)
    requires
        -0x10000 <= delta <= 0x10000,
    ensures
        moved == spec_offset(address, delta),
{
    let sum: i32 = (address as i32) + delta;
    let wrapped: i32 = if sum < 0 {
        sum + 0x10000
    } else if sum >= 0x10000 {
        sum - 0x10000
    } else {
        sum
    };
    wrapped as u16
}

pub open spec fn spec_signed(byte: u8) -> i32 {
    if byte >= 128 { (byte - 256) as i32 } else { byte as i32 }
}

/// A byte read as a two's complement number.
#[verifier::when_used_as_spec(spec_signed)]
pub fn signed(byte: u8) -> (value: i32)
    ensures
        value == spec_signed(byte),
{
    if byte >= 128 { (byte as i32) - 256 } else { byte as i32 }
}

/// The register file. Each pair holds its first-named register in the high
/// byte; `af_alt` to `hl_alt` are the shadow set.
#[derive(Debug, Clone, Copy)]
pub struct Registers {
    pub af: u16,
    pub bc: u16,
    pub de: u16,
    pub hl: u16,
    pub af_alt: u16,
    pub bc_alt: u16,
    pub de_alt: u16,
    pub hl_alt: u16,
    pub pc: u16,
    pub sp: u16,
    pub ix: u16,
    pub iy: u16,
    pub i: u8,
    pub r: u8,
    pub wz: u16,
}

impl Registers {
    /// The register file at reset: every register zero.
    pub fn new() -> (registers: Registers)
        ensures
            registers == Registers::reset(),
    {
        Registers {
            af: 0, bc: 0, de: 0, hl: 0,
            af_alt: 0, bc_alt: 0, de_alt: 0, hl_alt: 0,
            pc: 0, sp: 0, ix: 0, iy: 0, i: 0, r: 0, wz: 0,
        }
    }

    pub open spec fn reset() -> Registers {
        Registers {
            af: 0, bc: 0, de: 0, hl: 0,
            af_alt: 0, bc_alt: 0, de_alt: 0, hl_alt: 0,
            pc: 0, sp: 0, ix: 0, iy: 0, i: 0, r: 0, wz: 0,
        }
    }

    pub open spec fn spec_a(self) -> u8 {
        high(self.af)
    }

    /// The accumulator.
    #[verifier::when_used_as_spec(spec_a)]
    pub fn a(self) -> (byte: u8)
        ensures
            byte == self.spec_a(),
    {
        high(self.af)
    }

    pub open spec fn spec_f(self) -> u8 {
        low(self.af)
    }

    /// The flag byte.
    #[verifier::when_used_as_spec(spec_f)]
    pub fn f(self) -> (byte: u8)
        ensures
            byte == self.spec_f(),
    {
        low(self.af)
    }

    pub open spec fn spec_with_af(self, a: u8, f: u8) -> Registers {
        Registers { af: word(a, f), ..self }
    }

    /// These registers with the accumulator and the flags replaced.
    #[verifier::when_used_as_spec(spec_with_af)]
    pub fn with_af(self, a: u8, f: u8) -> (registers: Registers)
        ensures
            registers == self.spec_with_af(a, f),
    {
        Registers { af: word(a, f), ..self }
    }

    pub open spec fn spec_reg8(self, code: u8) -> u8 {
        if code == 0 {
            high(self.bc)
        } else if code == 1 {
            low(self.bc)
        } else if code == 2 {
            high(self.de)
        } else if code == 3 {
            low(self.de)
        } else if code == 4 {
            high(self.hl)
        } else if code == 5 {
            low(self.hl)
        } else {
            high(self.af)
        }
    }

    /// The 8-bit register that an opcode's 3-bit field selects:
    /// 0 to 5 are B, C, D, E, H, L, and any other code is A.
    #[verifier::when_used_as_spec(spec_reg8)]
    pub fn reg8(self, code: u8) -> (byte: u8)
        ensures
            byte == self.spec_reg8(code),
    {
        if code == 0 {
            high(self.bc)
        } else if code == 1 {
            low(self.bc)
        } else if code == 2 {
            high(self.de)
        } else if code == 3 {
            low(self.de)
        } else if code == 4 {
            high(self.hl)
        } else if code == 5 {
            low(self.hl)
        } else {
            high(self.af)
        }
    }

    pub open spec fn spec_with_reg8(self, code: u8, value: u8) -> Registers {
        if code == 0 {
            Registers { bc: word(value, low(self.bc)), ..self }
        } else if code == 1 {
            Registers { bc: word(high(self.bc), value), ..self }
        } else if code == 2 {
            Registers { de: word(value, low(self.de)), ..self }
        } else if code == 3 {
            Registers { de: word(high(self.de), value), ..self }
        } else if code == 4 {
            Registers { hl: word(value, low(self.hl)), ..self }
        } else if code == 5 {
            Registers { hl: word(high(self.hl), value), ..self }
        } else {
            Registers { af: word(value, low(self.af)), ..self }
        }
    }

    /// These registers with the 8-bit register selected by `code` replaced.
    #[verifier::when_used_as_spec(spec_with_reg8)]
    pub fn with_reg8(self, code: u8, value: u8) -> (registers: Registers)
        ensures
            registers == self.spec_with_reg8(code, value),
    {
        if code == 0 {
            Registers { bc: word(value, low(self.bc)), ..self }
        } else if code == 1 {
            Registers { bc: word(high(self.bc), value), ..self }
        } else if code == 2 {
            Registers { de: word(value, low(self.de)), ..self }
        } else if code == 3 {
            Registers { de: word(high(self.de), value), ..self }
        } else if code == 4 {
            Registers { hl: word(value, low(self.hl)), ..self }
        } else if code == 5 {
            Registers { hl: word(high(self.hl), value), ..self }
        } else {
            Registers { af: word(value, low(self.af)), ..self }
        }
    }

    pub open spec fn spec_pair(self, code: u8) -> u16 {
        if code == 0 {
            self.bc
        } else if code == 1 {
            self.de
        } else if code == 2 {
            self.hl
        } else {
            self.sp
        }
    }

    /// The register pair that an opcode's 2-bit field selects:
    /// 0 to 2 are BC, DE, HL, and any other code is SP.
    #[verifier::when_used_as_spec(spec_pair)]
    pub fn pair(self, code: u8) -> (value: u16)
        ensures
            value == self.spec_pair(code),
    {
        if code == 0 {
            self.bc
        } else if code == 1 {
            self.de
        } else if code == 2 {
            self.hl
        } else {
            self.sp
        }
    }

    pub open spec fn spec_with_pair(self, code: u8, value: u16) -> Registers {
        if code == 0 {
            Registers { bc: value, ..self }
        } else if code == 1 {
            Registers { de: value, ..self }
        } else if code == 2 {
            Registers { hl: value, ..self }
        } else {
            Registers { sp: value, ..self }
        }
    }

    /// These registers with the pair selected by `code` replaced.
    #[verifier::when_used_as_spec(spec_with_pair)]
    pub fn with_pair(self, code: u8, value: u16) -> (registers: Registers)
        ensures
            registers == self.spec_with_pair(code, value),
    {
        if code == 0 {
            Registers { bc: value, ..self }
        } else if code == 1 {
            Registers { de: value, ..self }
        } else if code == 2 {
            Registers { hl: value, ..self }
        } else {
            Registers { sp: value, ..self }
        }
    }
}

/// The flag byte: sign, zero, half carry, parity or overflow, subtract and
/// carry stand at bits 7, 6, 4, 2, 1 and 0; bits 5 and 3 are kept clear.
pub open spec fn spec_flags(s: bool, z: bool, h: bool, pv: bool, n: bool, c: bool) -> u8 {
    ((if s { 128int } else { 0 }) + (if z { 64int } else { 0 }) + (if h { 16int } else { 0 }) + (if pv {
        4int
    } else {
        0
    }) + (if n { 2int } else { 0 }) + (if c { 1int } else { 0 })) as u8
}

#[verifier::when_used_as_spec(spec_flags)]
pub fn flags(s: bool, z: bool, h: bool, pv: bool, n: bool, c: bool) -> (f: u8)
    ensures
        f == spec_flags(s, z, h, pv, n, c),
{
    let mut f: u8 = 0;
    if s {
        f = f + 128;
    }
    if z {
        f = f + 64;
    }
    if h {
        f = f + 16;
    }
    if pv {
        f = f + 4;
    }
    if n {
        f = f + 2;
    }
    if c {
        f = f + 1;
    }
    f
}

pub open spec fn spec_carry(f: u8) -> bool {
    f % 2 == 1
}

/// Whether the carry flag is set in `f`.
#[verifier::when_used_as_spec(spec_carry)]
pub fn carry(f: u8) -> (set: bool)
    ensures
        set == spec_carry(f),
{
    f % 2 == 1
}

pub open spec fn spec_condition(f: u8, code: u8) -> bool {
    if code == 0 {
        (f / 64) % 2 == 0
    } else if code == 1 {
        (f / 64) % 2 == 1
    } else if code == 2 {
        f % 2 == 0
    } else if code == 3 {
        f % 2 == 1
    } else if code == 4 {
        (f / 4) % 2 == 0
    } else if code == 5 {
        (f / 4) % 2 == 1
    } else if code == 6 {
        f < 128
    } else {
        f >= 128
    }
}

/// Whether the branch condition selected by an opcode's 3-bit field holds
/// of the flags: NZ, Z, NC, C, PO, PE, P, M for the codes 0 to 7.
#[verifier::when_used_as_spec(spec_condition)]
pub fn condition(f: u8, code: u8) -> (holds: bool)
    ensures
        holds == spec_condition(f, code),
{
    if code == 0 {
        (f / 64) % 2 == 0
    } else if code == 1 {
        (f / 64) % 2 == 1
    } else if code == 2 {
        f % 2 == 0
    } else if code == 3 {
        f % 2 == 1
    } else if code == 4 {
        (f / 4) % 2 == 0
    } else if code == 5 {
        (f / 4) % 2 == 1
    } else if code == 6 {
        f < 128
    } else {
        f >= 128
    }
}

pub open spec fn spec_even_parity(byte: u8) -> bool {
    (byte % 2 + (byte / 2) % 2 + (byte / 4) % 2 + (byte / 8) % 2 + (byte / 16) % 2 + (byte / 32) % 2
        + (byte / 64) % 2 + (byte / 128) % 2) % 2 == 0
}

/// Whether an even number of bits is set in `byte`.
#[verifier::when_used_as_spec(spec_even_parity)]
pub fn even_parity(byte: u8) -> (even: bool)
    ensures
        even == spec_even_parity(byte),
{
    (byte % 2 + (byte / 2) % 2 + (byte / 4) % 2 + (byte / 8) % 2 + (byte / 16) % 2 + (byte / 32) % 2
        + (byte / 64) % 2 + (byte / 128) % 2) % 2 == 0
}

} // verus!
