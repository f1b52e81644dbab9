//! The register file: eight 8-bit registers A, F, B, C, D, E, H, L with
//! four paired 16-bit views AF, BC, DE, HL, and the four status flags
//! Z, N, H, CY packed into the upper nibble of F. The low nibble of F is
//! kept zero by masking on write.

use vstd::prelude::*;

verus! {

#[derive(Clone, Copy)]
pub enum Reg8 {
    A,
    F,
    B,
    C,
    D,
    E,
    H,
    L,
}

#[derive(Clone, Copy)]
pub enum Reg16 {
    AF,
    BC,
    DE,
    HL,
}

#[derive(Clone, Copy)]
pub enum Flag {
    Z,
    N,
    H,
    CY,
}

/// True when the Z flag bit (bit 7) of a flags byte is set.
pub open spec fn flag_z(f: u8) -> bool {
    f & 0x80 == 0x80
}

/// True when the N flag bit (bit 6) of a flags byte is set.
pub open spec fn flag_n(f: u8) -> bool {
    f & 0x40 == 0x40
}

/// True when the H flag bit (bit 5) of a flags byte is set.
pub open spec fn flag_h(f: u8) -> bool {
    f & 0x20 == 0x20
}

/// True when the CY flag bit (bit 4) of a flags byte is set.
pub open spec fn flag_cy(f: u8) -> bool {
    f & 0x10 == 0x10
}

/// The unique flags byte with the given Z, N, H, CY bits and a zero low nibble.
pub open spec fn flags_to_byte(z: bool, n: bool, h: bool, cy: bool) -> u8 {
    ((if z {
        0x80u8
    } else {
        0u8
    }) | (if n {
        0x40u8
    } else {
        0u8
    }) | (if h {
        0x20u8
    } else {
        0u8
    }) | (if cy {
        0x10u8
    } else {
        0u8
    }))
}

/// `flags_to_byte` packs exactly the four flag bits and leaves the
/// low nibble zero.
pub broadcast proof fn lemma_flags_to_byte(z: bool, n: bool, h: bool, cy: bool)
    ensures
        #![trigger flags_to_byte(z, n, h, cy)]
        flags_to_byte(z, n, h, cy) & 0x0F == 0,
        flag_z(flags_to_byte(z, n, h, cy)) == z,
        flag_n(flags_to_byte(z, n, h, cy)) == n,
        flag_h(flags_to_byte(z, n, h, cy)) == h,
        flag_cy(flags_to_byte(z, n, h, cy)) == cy,
{
    let zb: u8 = if z {
        0x80
    } else {
        0
    };
    let nb: u8 = if n {
        0x40
    } else {
        0
    };
    let hb: u8 = if h {
        0x20
    } else {
        0
    };
    let cb: u8 = if cy {
        0x10
    } else {
        0
    };
    assert((zb == 0x80 || zb == 0) && (nb == 0x40 || nb == 0) && (hb == 0x20 || hb == 0) && (cb
        == 0x10 || cb == 0) ==> ((zb | nb | hb | cb) & 0x0F == 0 && (((zb | nb | hb | cb) & 0x80
        == 0x80) <==> zb == 0x80) && (((zb | nb | hb | cb) & 0x40 == 0x40) <==> nb == 0x40) && (((zb
        | nb | hb | cb) & 0x20 == 0x20) <==> hb == 0x20) && (((zb | nb | hb | cb) & 0x10 == 0x10)
        <==> cb == 0x10))) by (bit_vector);
}

/// Masking a byte to its high nibble leaves the low nibble zero.
pub broadcast proof fn lemma_high_nibble(v: u8)
    ensures
        #![trigger v & 0xF0]
        (v & 0xF0) & 0x0F == 0,
        ((v & 0xF0) & 0x80 == 0x80) == (v & 0x80 == 0x80),
        ((v & 0xF0) & 0x40 == 0x40) == (v & 0x40 == 0x40),
        ((v & 0xF0) & 0x20 == 0x20) == (v & 0x20 == 0x20),
        ((v & 0xF0) & 0x10 == 0x10) == (v & 0x10 == 0x10),
{
    assert((v & 0xF0) & 0x0F == 0 && (((v & 0xF0) & 0x80 == 0x80) <==> (v & 0x80 == 0x80)) && (((v
        & 0xF0) & 0x40 == 0x40) <==> (v & 0x40 == 0x40)) && (((v & 0xF0) & 0x20 == 0x20) <==> (v
        & 0x20 == 0x20)) && (((v & 0xF0) & 0x10 == 0x10) <==> (v & 0x10 == 0x10))) by (bit_vector);
}

/// Masking a byte with any mask stays at or below the mask.
pub broadcast proof fn lemma_and_mask_le(x: u8, m: u8)
    ensures
        #[trigger] (x & m) <= m,
{
    assert(x & m <= m) by (bit_vector);
}

/// Masking a word with any mask stays at or below the mask.
pub broadcast proof fn lemma_and_mask_le16(x: u16, m: u16)
    ensures
        #[trigger] (x & m) <= m,
{
    assert(x & m <= m) by (bit_vector);
}

/// The big-endian packing of two bytes into a 16-bit word.
pub open spec fn pack16(hi: u8, lo: u8) -> u16 {
    (hi * 256 + lo) as u16
}

/// The high byte of a 16-bit word.
pub open spec fn hi8(v: u16) -> u8 {
    (v / 256) as u8
}

/// The low byte of a 16-bit word.
pub open spec fn lo8(v: u16) -> u8 {
    (v % 256) as u8
}

pub struct RegisterFile {
    pub a: u8,
    pub f: u8,
    pub b: u8,
    pub c: u8,
    pub d: u8,
    pub e: u8,
    pub h: u8,
    pub l: u8,
}

/// The value of an 8-bit register.
pub open spec fn r8(rf: RegisterFile, reg: Reg8) -> u8 {
    match reg {
        Reg8::A => rf.a,
        Reg8::F => rf.f,
        Reg8::B => rf.b,
        Reg8::C => rf.c,
        Reg8::D => rf.d,
        Reg8::E => rf.e,
        Reg8::H => rf.h,
        Reg8::L => rf.l,
    }
}

/// The register file after an 8-bit register write; a write to F keeps
/// the low nibble zero.
pub open spec fn w8(rf: RegisterFile, reg: Reg8, value: u8) -> RegisterFile {
    match reg {
        Reg8::A => RegisterFile { a: value, ..rf },
        Reg8::F => RegisterFile { f: value & 0xF0, ..rf },
        Reg8::B => RegisterFile { b: value, ..rf },
        Reg8::C => RegisterFile { c: value, ..rf },
        Reg8::D => RegisterFile { d: value, ..rf },
        Reg8::E => RegisterFile { e: value, ..rf },
        Reg8::H => RegisterFile { h: value, ..rf },
        Reg8::L => RegisterFile { l: value, ..rf },
    }
}

/// The value of a 16-bit register pair, high register in the high byte.
pub open spec fn r16(rf: RegisterFile, reg: Reg16) -> u16 {
    match reg {
        Reg16::AF => pack16(rf.a, rf.f),
        Reg16::BC => pack16(rf.b, rf.c),
        Reg16::DE => pack16(rf.d, rf.e),
        Reg16::HL => pack16(rf.h, rf.l),
    }
}

/// The register file after a 16-bit register pair write; a write through
/// AF keeps the low nibble of F zero.
pub open spec fn w16(rf: RegisterFile, reg: Reg16, value: u16) -> RegisterFile {
    match reg {
        Reg16::AF => RegisterFile { a: hi8(value), f: lo8(value) & 0xF0, ..rf },
        Reg16::BC => RegisterFile { b: hi8(value), c: lo8(value), ..rf },
        Reg16::DE => RegisterFile { d: hi8(value), e: lo8(value), ..rf },
        Reg16::HL => RegisterFile { h: hi8(value), l: lo8(value), ..rf },
    }
}

/// The value of a status flag of a flags byte.
pub open spec fn flag_of(f: u8, flag: Flag) -> bool {
    match flag {
        Flag::Z => flag_z(f),
        Flag::N => flag_n(f),
        Flag::H => flag_h(f),
        Flag::CY => flag_cy(f),
    }
}

impl RegisterFile {
    /// The low nibble of F holds no flag and is always zero.
    pub open spec fn wf(&self) -> bool {
        self.f & 0x0F == 0
    }

    pub fn new() -> (rf: RegisterFile)
        ensures
            rf == (RegisterFile { a: 0u8, f: 0u8, b: 0u8, c: 0u8, d: 0u8, e: 0u8, h: 0u8, l: 0u8 }),
            rf.wf(),
    {
        let rf = RegisterFile { a: 0, f: 0, b: 0, c: 0, d: 0, e: 0, h: 0, l: 0 };
        proof {
            assert(0u8 & 0x0F == 0) by (bit_vector);
        }
        rf
    }

    pub fn read(&self, reg: Reg8) -> (r: u8)
        ensures
            r == r8(*self, reg),
    {
        match reg {
            Reg8::A => self.a,
            Reg8::F => self.f,
            Reg8::B => self.b,
            Reg8::C => self.c,
            Reg8::D => self.d,
            Reg8::E => self.e,
            Reg8::H => self.h,
            Reg8::L => self.l,
        }
    }

    pub fn write(&mut self, reg: Reg8, value: u8)
        ensures
            *final(self) == w8(*old(self), reg, value),
            old(self).wf() ==> final(self).wf(),
    {
        proof {
            lemma_high_nibble(value);
        }
        match reg {
            Reg8::A => self.a = value,
            Reg8::F => self.f = value & 0xF0,
            Reg8::B => self.b = value,
            Reg8::C => self.c = value,
            Reg8::D => self.d = value,
            Reg8::E => self.e = value,
            Reg8::H => self.h = value,
            Reg8::L => self.l = value,
        }
    }

    pub fn dread(&self, reg: Reg16) -> (r: u16)
        ensures
            r == r16(*self, reg),
    {
        match reg {
            Reg16::AF => (self.a as u16) * 256 + (self.f as u16),
            Reg16::BC => (self.b as u16) * 256 + (self.c as u16),
            Reg16::DE => (self.d as u16) * 256 + (self.e as u16),
            Reg16::HL => (self.h as u16) * 256 + (self.l as u16),
        }
    }

    pub fn dwrite(&mut self, reg: Reg16, value: u16)
        ensures
            *final(self) == w16(*old(self), reg, value),
            old(self).wf() ==> final(self).wf(),
    {
        let msb: u8 = (value / 256) as u8;
        let lsb: u8 = (value % 256) as u8;
        proof {
            lemma_high_nibble(lsb);
        }
        match reg {
            Reg16::AF => {
                self.a = msb;
                self.f = lsb & 0xF0;
            },
            Reg16::BC => {
                self.b = msb;
                self.c = lsb;
            },
            Reg16::DE => {
                self.d = msb;
                self.e = lsb;
            },
            Reg16::HL => {
                self.h = msb;
                self.l = lsb;
            },
        }
    }

    pub fn read_flag(&self, flag: Flag) -> (r: bool)
        ensures
            r == flag_of(self.f, flag),
    {
        match flag {
            Flag::Z => self.f & 0x80 == 0x80,
            Flag::N => self.f & 0x40 == 0x40,
            Flag::H => self.f & 0x20 == 0x20,
            Flag::CY => self.f & 0x10 == 0x10,
        }
    }

    /// Rebuilds F from the four flags, so the low nibble stays zero.
    pub fn set_flags(&mut self, z: bool, n: bool, h: bool, cy: bool)
        ensures
            *final(self) == (RegisterFile { f: flags_to_byte(z, n, h, cy), ..*old(self) }),
            final(self).wf(),
    {
        proof {
            lemma_flags_to_byte(z, n, h, cy);
        }
        let f: u8 = (if z {
            0x80u8
        } else {
            0u8
        }) | (if n {
            0x40u8
        } else {
            0u8
        }) | (if h {
            0x20u8
        } else {
            0u8
        }) | (if cy {
            0x10u8
        } else {
            0u8
        });
        self.f = f;
    }

    /// Writes one flag, keeping the other three and the zero low nibble.
    pub fn write_flag(&mut self, flag: Flag, value: bool)
        ensures
            *final(self) == (RegisterFile {
                f: flags_to_byte(
                    if flag == Flag::Z {
                        value
                    } else {
                        flag_z(old(self).f)
                    },
                    if flag == Flag::N {
                        value
                    } else {
                        flag_n(old(self).f)
                    },
                    if flag == Flag::H {
                        value
                    } else {
                        flag_h(old(self).f)
                    },
                    if flag == Flag::CY {
                        value
                    } else {
                        flag_cy(old(self).f)
                    },
                ),
                ..*old(self)
            }),
            final(self).wf(),
    {
        let z = if matches!(flag, Flag::Z) {
            value
        } else {
            self.read_flag(Flag::Z)
        };
        let n = if matches!(flag, Flag::N) {
            value
        } else {
            self.read_flag(Flag::N)
        };
        let h = if matches!(flag, Flag::H) {
            value
        } else {
            self.read_flag(Flag::H)
        };
        let cy = if matches!(flag, Flag::CY) {
            value
        } else {
            self.read_flag(Flag::CY)
        };
        self.set_flags(z, n, h, cy);
    }
}

} // verus!
