//! The instruction engine. Each executed instruction yields an
//! `InstructionInfo(size, cycles)`: `size` is the PC increment in bytes
//! (0 for instructions that write PC directly) and `cycles` the
//! machine-cycle count. Every instruction's effect on the register file,
//! PC, SP, flags and memory is stated exactly in its contract.

use vstd::prelude::*;

use crate::cpu::Core;
use crate::memory::MemModel;
use crate::memory::Memory;
use crate::registers::Flag;
use crate::registers::Reg16;
use crate::registers::Reg8;
use crate::registers::RegisterFile;
use crate::registers::flag_cy;
use crate::registers::flag_h;
use crate::registers::flag_n;
use crate::registers::flag_z;
use crate::registers::flags_to_byte;
use crate::registers::hi8;
use crate::registers::lo8;
use crate::registers::pack16;
use crate::registers::r16;
use crate::registers::r8;
use crate::registers::w16;
use crate::registers::w8;

verus! {

broadcast use
    crate::registers::lemma_flags_to_byte,
    crate::registers::lemma_and_mask_le,
    crate::registers::lemma_and_mask_le16;

/// (size, cycles) of one executed instruction.
pub struct InstructionInfo(pub u8, pub u8);

/// 8-bit addition wrapping around at 256.
pub open spec fn wadd8(x: u8, y: u8) -> u8 {
    vstd::wrapping::u8_specs::wrapping_add(x, y)
}

/// 8-bit subtraction wrapping around at 256.
pub open spec fn wsub8(x: u8, y: u8) -> u8 {
    vstd::wrapping::u8_specs::wrapping_sub(x, y)
}

/// 16-bit addition wrapping around at 65536.
pub open spec fn wadd16(x: u16, y: u16) -> u16 {
    vstd::wrapping::u16_specs::wrapping_add(x, y)
}

/// 16-bit subtraction wrapping around at 65536.
pub open spec fn wsub16(x: u16, y: u16) -> u16 {
    vstd::wrapping::u16_specs::wrapping_sub(x, y)
}

/// The sign extension of a byte to 16 bits, as the unsigned word that is
/// congruent to its two's-complement value modulo 65536.
pub open spec fn sign_ext8(imm: u8) -> u16 {
    if imm < 0x80 {
        imm as u16
    } else {
        (imm + 0xFF00) as u16
    }
}

/// The 8-bit register selected by a 3-bit operand field other than 6;
/// field 6 selects the memory byte at HL instead.
pub open spec fn map_r8_spec(field: u8) -> Reg8 {
    if field == 0 {
        Reg8::B
    } else if field == 1 {
        Reg8::C
    } else if field == 2 {
        Reg8::D
    } else if field == 3 {
        Reg8::E
    } else if field == 4 {
        Reg8::H
    } else if field == 5 {
        Reg8::L
    } else {
        Reg8::A
    }
}

/// The value of the register picked by a 3-bit operand field other than 6.
pub open spec fn r8_field(rf: RegisterFile, field: u8) -> u8 {
    r8(rf, map_r8_spec(field))
}

/// The register file after writing the register picked by a 3-bit operand
/// field other than 6.
pub open spec fn w8_field(rf: RegisterFile, field: u8, value: u8) -> RegisterFile {
    w8(rf, map_r8_spec(field), value)
}

/// The 8-bit ALU operand of an opcode: the memory byte at HL when the
/// operand field is 6, a register otherwise.
pub open spec fn alu_src(c: Core, m: MemModel, opcode: u8) -> u8 {
    if opcode & 0x07 == 6 {
        m.read(r16(c.reg, Reg16::HL))
    } else {
        r8_field(c.reg, opcode & 0x07)
    }
}

/// Machine cycles of a register-operand ALU instruction: one more when the
/// operand is the memory byte at HL.
pub open spec fn alu_cycles(opcode: u8) -> u8 {
    if opcode & 0x07 == 6 {
        2u8
    } else {
        1u8
    }
}

/// The core after ADD A, v: N=0, H from the low nibbles crossing bit 4,
/// CY from byte overflow.
pub open spec fn add_core(c: Core, v: u8) -> Core {
    let a = c.reg.a;
    let r = wadd8(a, v);
    Core {
        reg: RegisterFile {
            a: r,
            f: flags_to_byte(r == 0, false, (a & 0x0F) + (v & 0x0F) > 0x0F, a + v > 0xFF),
            ..c.reg
        },
        ..c
    }
}

/// The core after ADC A, v: as ADD with the carry-in added to both the
/// result and the half-carry computation.
pub open spec fn adc_core(c: Core, v: u8) -> Core {
    let a = c.reg.a;
    let cin: u8 = if flag_cy(c.reg.f) {
        1u8
    } else {
        0u8
    };
    let r = wadd8(wadd8(a, v), cin);
    Core {
        reg: RegisterFile {
            a: r,
            f: flags_to_byte(
                r == 0,
                false,
                (a & 0x0F) + (v & 0x0F) + cin > 0x0F,
                a + v + cin > 0xFF,
            ),
            ..c.reg
        },
        ..c
    }
}

/// The core after SUB A, v: N=1, H from low-nibble borrow, CY from byte
/// underflow.
pub open spec fn sub_core(c: Core, v: u8) -> Core {
    let a = c.reg.a;
    let r = wsub8(a, v);
    Core {
        reg: RegisterFile {
            a: r,
            f: flags_to_byte(r == 0, true, (a & 0x0F) < (v & 0x0F), a < v),
            ..c.reg
        },
        ..c
    }
}

/// The core after SBC A, v: as SUB with the carry-in subtracted
/// additionally.
pub open spec fn sbc_core(c: Core, v: u8) -> Core {
    let a = c.reg.a;
    let cin: u8 = if flag_cy(c.reg.f) {
        1u8
    } else {
        0u8
    };
    let r = wsub8(wsub8(a, v), cin);
    Core {
        reg: RegisterFile {
            a: r,
            f: flags_to_byte(
                r == 0,
                true,
                (a & 0x0F) < (v & 0x0F) + cin,
                (a as int) < v + cin,
            ),
            ..c.reg
        },
        ..c
    }
}

/// The core after AND A, v: H=1, CY=0.
pub open spec fn and_core(c: Core, v: u8) -> Core {
    let r = (c.reg.a & v) as u8;
    Core {
        reg: RegisterFile { a: r, f: flags_to_byte(r == 0, false, true, false), ..c.reg },
        ..c
    }
}

/// The core after XOR A, v: H=0, CY=0.
pub open spec fn xor_core(c: Core, v: u8) -> Core {
    let r = (c.reg.a ^ v) as u8;
    Core {
        reg: RegisterFile { a: r, f: flags_to_byte(r == 0, false, false, false), ..c.reg },
        ..c
    }
}

/// The core after OR A, v: H=0, CY=0.
pub open spec fn or_core(c: Core, v: u8) -> Core {
    let r = (c.reg.a | v) as u8;
    Core {
        reg: RegisterFile { a: r, f: flags_to_byte(r == 0, false, false, false), ..c.reg },
        ..c
    }
}

/// The core after CP A, v: the flags of SUB A, v with A left unchanged.
pub open spec fn cp_core(c: Core, v: u8) -> Core {
    let a = c.reg.a;
    let r = wsub8(a, v);
    Core {
        reg: RegisterFile {
            f: flags_to_byte(r == 0, true, (a & 0x0F) < (v & 0x0F), a < v),
            ..c.reg
        },
        ..c
    }
}

/// The immediate byte of an instruction: the memory byte after the opcode.
pub open spec fn imm8_at(c: Core, m: MemModel) -> u8 {
    m.read(wadd16(c.pc, 1))
}

/// The immediate word of an instruction, low byte first.
pub open spec fn imm16_at(c: Core, m: MemModel) -> u16 {
    pack16(m.read(wadd16(c.pc, 2)), m.read(wadd16(c.pc, 1)))
}

/// Whether the condition field in bits 4..3 of a conditional opcode holds:
/// 00 = NZ, 01 = Z, 10 = NC, 11 = C.
pub open spec fn cond_holds(opcode: u8, f: u8) -> bool {
    if (opcode >> 3) & 0x03 == 0 {
        !flag_z(f)
    } else if (opcode >> 3) & 0x03 == 1 {
        flag_z(f)
    } else if (opcode >> 3) & 0x03 == 2 {
        !flag_cy(f)
    } else {
        flag_cy(f)
    }
}

/// The 16-bit register selected by the 2-bit field in opcode bits 5..4 of
/// the `r16` family: 00 = BC, 01 = DE, 10 = HL, 11 = SP.
pub open spec fn r16f(c: Core, field: u8) -> u16 {
    if field == 0 {
        r16(c.reg, Reg16::BC)
    } else if field == 1 {
        r16(c.reg, Reg16::DE)
    } else if field == 2 {
        r16(c.reg, Reg16::HL)
    } else {
        c.sp
    }
}

/// The core after writing the 16-bit register selected by the `r16` family.
pub open spec fn w16f(c: Core, field: u8, value: u16) -> Core {
    if field == 0 {
        Core { reg: w16(c.reg, Reg16::BC, value), ..c }
    } else if field == 1 {
        Core { reg: w16(c.reg, Reg16::DE, value), ..c }
    } else if field == 2 {
        Core { reg: w16(c.reg, Reg16::HL, value), ..c }
    } else {
        Core { sp: value, ..c }
    }
}

/// The byte after one left-rotate, bit 7 moving into bit 0.
pub open spec fn rlc_val(b: u8) -> u8 {
    ((b << 1u8) | (b >> 7u8)) as u8
}

/// The byte after one right-rotate, bit 0 moving into bit 7.
pub open spec fn rrc_val(b: u8) -> u8 {
    (((b & 0x01) << 7u8) | (b >> 1u8)) as u8
}

/// The byte after one left-rotate through the carry flag.
pub open spec fn rl_val(b: u8, cin: bool) -> u8 {
    ((b << 1u8) | (if cin {
        1u8
    } else {
        0u8
    })) as u8
}

/// The byte after one right-rotate through the carry flag.
pub open spec fn rr_val(b: u8, cin: bool) -> u8 {
    ((if cin {
        0x80u8
    } else {
        0u8
    }) | (b >> 1u8)) as u8
}

/// The 16-bit register selected by the 2-bit field in opcode bits 5..4 of
/// the `r16stk` family: 00 = BC, 01 = DE, 10 = HL, 11 = AF.
pub open spec fn r16stk(c: Core, field: u8) -> u16 {
    if field == 0 {
        r16(c.reg, Reg16::BC)
    } else if field == 1 {
        r16(c.reg, Reg16::DE)
    } else if field == 2 {
        r16(c.reg, Reg16::HL)
    } else {
        r16(c.reg, Reg16::AF)
    }
}

/// The core after writing the 16-bit register selected by the `r16stk`
/// family; a write through AF keeps the low nibble of F zero.
pub open spec fn w16stk(c: Core, field: u8, value: u16) -> Core {
    if field == 0 {
        Core { reg: w16(c.reg, Reg16::BC, value), ..c }
    } else if field == 1 {
        Core { reg: w16(c.reg, Reg16::DE, value), ..c }
    } else if field == 2 {
        Core { reg: w16(c.reg, Reg16::HL, value), ..c }
    } else {
        Core { reg: w16(c.reg, Reg16::AF, value), ..c }
    }
}

/// The fixed vector of an RST opcode: eight times its bits 5..3.
pub open spec fn rst_target(opcode: u8) -> u16 {
    (((opcode >> 3u8) & 0x07) * 8) as u16
}

/// The byte with its nibbles exchanged.
pub open spec fn swap_val(b: u8) -> u8 {
    (((b & 0x0F) << 4u8) | ((b & 0xF0) >> 4u8)) as u8
}

/// The byte after an arithmetic right shift, bit 7 kept in place.
pub open spec fn sra_val(b: u8) -> u8 {
    ((b & 0x80) | (b >> 1u8)) as u8
}

/// The core after DAA: the BCD correction of A folded in using the
/// current N, H and CY flags, Z from the result, H cleared, CY set when
/// a high correction was applied on the addition path.
pub open spec fn daa_core(c: Core) -> Core {
    let a = c.reg.a;
    let f = c.reg.f;
    if !flag_n(f) {
        let cy1 = flag_cy(f) || a > 0x99;
        let a1 = if cy1 {
            wadd8(a, 0x60)
        } else {
            a
        };
        let a2 = if flag_h(f) || (a1 & 0x0F) > 9 {
            wadd8(a1, 0x06)
        } else {
            a1
        };
        Core {
            reg: RegisterFile { a: a2, f: flags_to_byte(a2 == 0, false, false, cy1), ..c.reg },
            ..c
        }
    } else {
        let a1 = if flag_cy(f) {
            wsub8(a, 0x60)
        } else {
            a
        };
        let a2 = if flag_h(f) {
            wsub8(a1, 0x06)
        } else {
            a1
        };
        Core {
            reg: RegisterFile {
                a: a2,
                f: flags_to_byte(a2 == 0, true, false, flag_cy(f)),
                ..c.reg
            },
            ..c
        }
    }
}

/// Maps a 3-bit operand field other than 6 to its 8-bit register.
fn map_r8(field: u8) -> (reg: Reg8)
    requires
        field < 8,
        field != 6,
    ensures
        reg == map_r8_spec(field),
{
    if field == 0 {
        Reg8::B
    } else if field == 1 {
        Reg8::C
    } else if field == 2 {
        Reg8::D
    } else if field == 3 {
        Reg8::E
    } else if field == 4 {
        Reg8::H
    } else if field == 5 {
        Reg8::L
    } else {
        Reg8::A
    }
}

impl Core {
    /// Reads the 8-bit ALU operand of `opcode`: the byte at HL when the
    /// operand field is 6, a register otherwise.
    fn read_alu_src(&self, opcode: u8, mem: &Memory) -> (r: (u8, u8))
        requires
            mem.wf(),
        ensures
            r.0 == alu_src(*self, mem@, opcode),
            r.1 == alu_cycles(opcode),
    {
        let field: u8 = opcode & 0x07;
        if field == 6 {
            let addr: u16 = self.reg.dread(Reg16::HL);
            (mem.read(addr), 2)
        } else {
            (self.reg.read(map_r8(field)), 1)
        }
    }

    /// Reads the immediate byte after the opcode.
    fn read_imm8(&self, mem: &Memory) -> (r: u8)
        requires
            mem.wf(),
        ensures
            r == imm8_at(*self, mem@),
    {
        mem.read(self.pc.wrapping_add(1))
    }

    /// Reads the immediate word after the opcode, low byte first.
    fn read_imm16(&self, mem: &Memory) -> (r: u16)
        requires
            mem.wf(),
        ensures
            r == imm16_at(*self, mem@),
    {
        let lsb: u8 = mem.read(self.pc.wrapping_add(1));
        let msb: u8 = mem.read(self.pc.wrapping_add(2));
        (msb as u16) * 256 + (lsb as u16)
    }

    /// Evaluates the condition field in bits 4..3 of a conditional opcode.
    fn check_cond(&self, opcode: u8) -> (r: bool)
        ensures
            r == cond_holds(opcode, self.reg.f),
    {
        let field: u8 = (opcode >> 3u8) & 0x03;
        if field == 0 {
            !self.reg.read_flag(Flag::Z)
        } else if field == 1 {
            self.reg.read_flag(Flag::Z)
        } else if field == 2 {
            !self.reg.read_flag(Flag::CY)
        } else {
            self.reg.read_flag(Flag::CY)
        }
    }

    pub fn add_a_r8(&mut self, opcode: u8, mem: &Memory) -> (info: InstructionInfo)
        requires
            old(self).wf(),
            mem.wf(),
        ensures
            final(self).wf(),
            *final(self) == add_core(*old(self), alu_src(*old(self), mem@, opcode)),
            info == InstructionInfo(1, alu_cycles(opcode)),
    {
        let (value, cycles) = self.read_alu_src(opcode, mem);
        let a: u8 = self.reg.a;
        let result: u8 = a.wrapping_add(value);
        let z = result == 0;
        let h = (a & 0x0F) + (value & 0x0F) > 0x0F;
        let cy = (a as u16) + (value as u16) > 0xFF;
        self.reg.a = result;
        self.reg.set_flags(z, false, h, cy);
        InstructionInfo(1, cycles)
    }

    pub fn adc_a_r8(&mut self, opcode: u8, mem: &Memory) -> (info: InstructionInfo)
        requires
            old(self).wf(),
            mem.wf(),
        ensures
            final(self).wf(),
            *final(self) == adc_core(*old(self), alu_src(*old(self), mem@, opcode)),
            info == InstructionInfo(1, alu_cycles(opcode)),
    {
        let (value, cycles) = self.read_alu_src(opcode, mem);
        let a: u8 = self.reg.a;
        let carry: u8 = if self.reg.read_flag(Flag::CY) {
            1
        } else {
            0
        };
        let result: u8 = a.wrapping_add(value).wrapping_add(carry);
        let z = result == 0;
        let h = (a & 0x0F) + (value & 0x0F) + carry > 0x0F;
        let cy = (a as u16) + (value as u16) + (carry as u16) > 0xFF;
        self.reg.a = result;
        self.reg.set_flags(z, false, h, cy);
        InstructionInfo(1, cycles)
    }

    pub fn sub_a_r8(&mut self, opcode: u8, mem: &Memory) -> (info: InstructionInfo)
        requires
            old(self).wf(),
            mem.wf(),
        ensures
            final(self).wf(),
            *final(self) == sub_core(*old(self), alu_src(*old(self), mem@, opcode)),
            info == InstructionInfo(1, alu_cycles(opcode)),
    {
        let (value, cycles) = self.read_alu_src(opcode, mem);
        let a: u8 = self.reg.a;
        let result: u8 = a.wrapping_sub(value);
        let z = result == 0;
        let h = (a & 0x0F) < (value & 0x0F);
        let cy = a < value;
        self.reg.a = result;
        self.reg.set_flags(z, true, h, cy);
        InstructionInfo(1, cycles)
    }

    pub fn sbc_a_r8(&mut self, opcode: u8, mem: &Memory) -> (info: InstructionInfo)
        requires
            old(self).wf(),
            mem.wf(),
        ensures
            final(self).wf(),
            *final(self) == sbc_core(*old(self), alu_src(*old(self), mem@, opcode)),
            info == InstructionInfo(1, alu_cycles(opcode)),
    {
        let (value, cycles) = self.read_alu_src(opcode, mem);
        let a: u8 = self.reg.a;
        let carry: u8 = if self.reg.read_flag(Flag::CY) {
            1
        } else {
            0
        };
        let result: u8 = a.wrapping_sub(value).wrapping_sub(carry);
        let z = result == 0;
        let h = (a & 0x0F) < (value & 0x0F) + carry;
        let cy = (a as u16) < (value as u16) + (carry as u16);
        self.reg.a = result;
        self.reg.set_flags(z, true, h, cy);
        InstructionInfo(1, cycles)
    }

    pub fn and_a_r8(&mut self, opcode: u8, mem: &Memory) -> (info: InstructionInfo)
        requires
            old(self).wf(),
            mem.wf(),
        ensures
            final(self).wf(),
            *final(self) == and_core(*old(self), alu_src(*old(self), mem@, opcode)),
            info == InstructionInfo(1, alu_cycles(opcode)),
    {
        let (value, cycles) = self.read_alu_src(opcode, mem);
        let result: u8 = self.reg.a & value;
        self.reg.a = result;
        self.reg.set_flags(result == 0, false, true, false);
        InstructionInfo(1, cycles)
    }

    pub fn xor_a_r8(&mut self, opcode: u8, mem: &Memory) -> (info: InstructionInfo)
        requires
            old(self).wf(),
            mem.wf(),
        ensures
            final(self).wf(),
            *final(self) == xor_core(*old(self), alu_src(*old(self), mem@, opcode)),
            info == InstructionInfo(1, alu_cycles(opcode)),
    {
        let (value, cycles) = self.read_alu_src(opcode, mem);
        let result: u8 = self.reg.a ^ value;
        self.reg.a = result;
        self.reg.set_flags(result == 0, false, false, false);
        InstructionInfo(1, cycles)
    }

    pub fn or_a_r8(&mut self, opcode: u8, mem: &Memory) -> (info: InstructionInfo)
        requires
            old(self).wf(),
            mem.wf(),
        ensures
            final(self).wf(),
            *final(self) == or_core(*old(self), alu_src(*old(self), mem@, opcode)),
            info == InstructionInfo(1, alu_cycles(opcode)),
    {
        let (value, cycles) = self.read_alu_src(opcode, mem);
        let result: u8 = self.reg.a | value;
        self.reg.a = result;
        self.reg.set_flags(result == 0, false, false, false);
        InstructionInfo(1, cycles)
    }

    pub fn cp_a_r8(&mut self, opcode: u8, mem: &Memory) -> (info: InstructionInfo)
        requires
            old(self).wf(),
            mem.wf(),
        ensures
            final(self).wf(),
            *final(self) == cp_core(*old(self), alu_src(*old(self), mem@, opcode)),
            info == InstructionInfo(1, alu_cycles(opcode)),
    {
        let (value, cycles) = self.read_alu_src(opcode, mem);
        let a: u8 = self.reg.a;
        let result: u8 = a.wrapping_sub(value);
        let z = result == 0;
        let h = (a & 0x0F) < (value & 0x0F);
        let cy = a < value;
        self.reg.set_flags(z, true, h, cy);
        InstructionInfo(1, cycles)
    }

    pub fn add_a_imm8(&mut self, mem: &Memory) -> (info: InstructionInfo)
        requires
            old(self).wf(),
            mem.wf(),
        ensures
            final(self).wf(),
            *final(self) == add_core(*old(self), imm8_at(*old(self), mem@)),
            info == InstructionInfo(2, 2),
    {
        let value: u8 = self.read_imm8(mem);
        let a: u8 = self.reg.a;
        let result: u8 = a.wrapping_add(value);
        let z = result == 0;
        let h = (a & 0x0F) + (value & 0x0F) > 0x0F;
        let cy = (a as u16) + (value as u16) > 0xFF;
        self.reg.a = result;
        self.reg.set_flags(z, false, h, cy);
        InstructionInfo(2, 2)
    }

    pub fn adc_a_imm8(&mut self, mem: &Memory) -> (info: InstructionInfo)
        requires
            old(self).wf(),
            mem.wf(),
        ensures
            final(self).wf(),
            *final(self) == adc_core(*old(self), imm8_at(*old(self), mem@)),
            info == InstructionInfo(2, 2),
    {
        let value: u8 = self.read_imm8(mem);
        let a: u8 = self.reg.a;
        let carry: u8 = if self.reg.read_flag(Flag::CY) {
            1
        } else {
            0
        };
        let result: u8 = a.wrapping_add(value).wrapping_add(carry);
        let z = result == 0;
        let h = (a & 0x0F) + (value & 0x0F) + carry > 0x0F;
        let cy = (a as u16) + (value as u16) + (carry as u16) > 0xFF;
        self.reg.a = result;
        self.reg.set_flags(z, false, h, cy);
        InstructionInfo(2, 2)
    }

    pub fn sub_a_imm8(&mut self, mem: &Memory) -> (info: InstructionInfo)
        requires
            old(self).wf(),
            mem.wf(),
        ensures
            final(self).wf(),
            *final(self) == sub_core(*old(self), imm8_at(*old(self), mem@)),
            info == InstructionInfo(2, 2),
    {
        let value: u8 = self.read_imm8(mem);
        let a: u8 = self.reg.a;
        let result: u8 = a.wrapping_sub(value);
        let z = result == 0;
        let h = (a & 0x0F) < (value & 0x0F);
        let cy = a < value;
        self.reg.a = result;
        self.reg.set_flags(z, true, h, cy);
        InstructionInfo(2, 2)
    }

    pub fn sbc_a_imm8(&mut self, mem: &Memory) -> (info: InstructionInfo)
        requires
            old(self).wf(),
            mem.wf(),
        ensures
            final(self).wf(),
            *final(self) == sbc_core(*old(self), imm8_at(*old(self), mem@)),
            info == InstructionInfo(2, 2),
    {
        let value: u8 = self.read_imm8(mem);
        let a: u8 = self.reg.a;
        let carry: u8 = if self.reg.read_flag(Flag::CY) {
            1
        } else {
            0
        };
        let result: u8 = a.wrapping_sub(value).wrapping_sub(carry);
        let z = result == 0;
        let h = (a & 0x0F) < (value & 0x0F) + carry;
        let cy = (a as u16) < (value as u16) + (carry as u16);
        self.reg.a = result;
        self.reg.set_flags(z, true, h, cy);
        InstructionInfo(2, 2)
    }

    pub fn and_a_imm8(&mut self, mem: &Memory) -> (info: InstructionInfo)
        requires
            old(self).wf(),
            mem.wf(),
        ensures
            final(self).wf(),
            *final(self) == and_core(*old(self), imm8_at(*old(self), mem@)),
            info == InstructionInfo(2, 2),
    {
        let value: u8 = self.read_imm8(mem);
        let result: u8 = self.reg.a & value;
        self.reg.a = result;
        self.reg.set_flags(result == 0, false, true, false);
        InstructionInfo(2, 2)
    }

    pub fn xor_a_imm8(&mut self, mem: &Memory) -> (info: InstructionInfo)
        requires
            old(self).wf(),
            mem.wf(),
        ensures
            final(self).wf(),
            *final(self) == xor_core(*old(self), imm8_at(*old(self), mem@)),
            info == InstructionInfo(2, 2),
    {
        let value: u8 = self.read_imm8(mem);
        let result: u8 = self.reg.a ^ value;
        self.reg.a = result;
        self.reg.set_flags(result == 0, false, false, false);
        InstructionInfo(2, 2)
    }

    pub fn or_a_imm8(&mut self, mem: &Memory) -> (info: InstructionInfo)
        requires
            old(self).wf(),
            mem.wf(),
        ensures
            final(self).wf(),
            *final(self) == or_core(*old(self), imm8_at(*old(self), mem@)),
            info == InstructionInfo(2, 2),
    {
        let value: u8 = self.read_imm8(mem);
        let result: u8 = self.reg.a | value;
        self.reg.a = result;
        self.reg.set_flags(result == 0, false, false, false);
        InstructionInfo(2, 2)
    }

    pub fn cp_a_imm8(&mut self, mem: &Memory) -> (info: InstructionInfo)
        requires
            old(self).wf(),
            mem.wf(),
        ensures
            final(self).wf(),
            *final(self) == cp_core(*old(self), imm8_at(*old(self), mem@)),
            info == InstructionInfo(2, 2),
    {
        let value: u8 = self.read_imm8(mem);
        let a: u8 = self.reg.a;
        let result: u8 = a.wrapping_sub(value);
        let z = result == 0;
        let h = (a & 0x0F) < (value & 0x0F);
        let cy = a < value;
        self.reg.set_flags(z, true, h, cy);
        InstructionInfo(2, 2)
    }

    /// Reads the 16-bit register selected by the `r16` family field.
    fn read_r16f(&self, field: u8) -> (r: u16)
        requires
            field < 4,
        ensures
            r == r16f(*self, field),
    {
        if field == 0 {
            self.reg.dread(Reg16::BC)
        } else if field == 1 {
            self.reg.dread(Reg16::DE)
        } else if field == 2 {
            self.reg.dread(Reg16::HL)
        } else {
            self.sp
        }
    }

    /// Writes the 16-bit register selected by the `r16` family field.
    fn write_r16f(&mut self, field: u8, value: u16)
        requires
            field < 4,
        ensures
            *final(self) == w16f(*old(self), field, value),
            old(self).wf() ==> final(self).wf(),
    {
        if field == 0 {
            self.reg.dwrite(Reg16::BC, value);
        } else if field == 1 {
            self.reg.dwrite(Reg16::DE, value);
        } else if field == 2 {
            self.reg.dwrite(Reg16::HL, value);
        } else {
            self.sp = value;
        }
    }

    pub fn nop(&self) -> (info: InstructionInfo)
        ensures
            info == InstructionInfo(1, 1),
    {
        InstructionInfo(1, 1)
    }

    pub fn ld_r16_imm16(&mut self, opcode: u8, mem: &Memory) -> (info: InstructionInfo)
        requires
            old(self).wf(),
            mem.wf(),
        ensures
            final(self).wf(),
            *final(self) == w16f(*old(self), (opcode >> 4u8) & 0x03, imm16_at(*old(self), mem@)),
            info == InstructionInfo(3, 3),
    {
        let imm: u16 = self.read_imm16(mem);
        self.write_r16f((opcode >> 4u8) & 0x03, imm);
        InstructionInfo(3, 3)
    }

    pub fn ld_r16mem_a(&mut self, opcode: u8, mem: &mut Memory) -> (info: InstructionInfo)
        requires
            old(self).wf(),
            old(mem).wf(),
        ensures
            final(self).wf(),
            final(mem).wf(),
            info == InstructionInfo(1, 2),
            ({
                let field = (opcode >> 4u8) & 0x03;
                let hl = r16(old(self).reg, Reg16::HL);
                if field == 0 {
                    &&& final(mem)@ == old(mem)@.write(r16(old(self).reg, Reg16::BC), old(self).reg.a)
                    &&& *final(self) == *old(self)
                } else if field == 1 {
                    &&& final(mem)@ == old(mem)@.write(r16(old(self).reg, Reg16::DE), old(self).reg.a)
                    &&& *final(self) == *old(self)
                } else if field == 2 {
                    &&& final(mem)@ == old(mem)@.write(hl, old(self).reg.a)
                    &&& *final(self) == (Core { reg: w16(old(self).reg, Reg16::HL, wadd16(hl, 1)), ..*old(self) })
                } else {
                    &&& final(mem)@ == old(mem)@.write(hl, old(self).reg.a)
                    &&& *final(self) == (Core { reg: w16(old(self).reg, Reg16::HL, wsub16(hl, 1)), ..*old(self) })
                }
            }),
    {
        let a: u8 = self.reg.a;
        let field: u8 = (opcode >> 4u8) & 0x03;
        if field == 0 {
            let addr: u16 = self.reg.dread(Reg16::BC);
            mem.write(addr, a);
        } else if field == 1 {
            let addr: u16 = self.reg.dread(Reg16::DE);
            mem.write(addr, a);
        } else if field == 2 {
            let addr: u16 = self.reg.dread(Reg16::HL);
            mem.write(addr, a);
            self.reg.dwrite(Reg16::HL, addr.wrapping_add(1));
        } else {
            let addr: u16 = self.reg.dread(Reg16::HL);
            mem.write(addr, a);
            self.reg.dwrite(Reg16::HL, addr.wrapping_sub(1));
        }
        InstructionInfo(1, 2)
    }

    pub fn ld_a_r16mem(&mut self, opcode: u8, mem: &Memory) -> (info: InstructionInfo)
        requires
            old(self).wf(),
            mem.wf(),
        ensures
            final(self).wf(),
            info == InstructionInfo(1, 2),
            ({
                let field = (opcode >> 4u8) & 0x03;
                let hl = r16(old(self).reg, Reg16::HL);
                if field == 0 {
                    *final(self) == (Core {
                        reg: (RegisterFile {
                            a: mem@.read(r16(old(self).reg, Reg16::BC)),
                            ..old(self).reg
                        }),
                        ..*old(self)
                    })
                } else if field == 1 {
                    *final(self) == (Core {
                        reg: (RegisterFile {
                            a: mem@.read(r16(old(self).reg, Reg16::DE)),
                            ..old(self).reg
                        }),
                        ..*old(self)
                    })
                } else if field == 2 {
                    *final(self) == (Core {
                        reg: w16(
                            RegisterFile { a: mem@.read(hl), ..old(self).reg },
                            Reg16::HL,
                            wadd16(hl, 1),
                        ),
                        ..*old(self)
                    })
                } else {
                    *final(self) == (Core {
                        reg: w16(
                            RegisterFile { a: mem@.read(hl), ..old(self).reg },
                            Reg16::HL,
                            wsub16(hl, 1),
                        ),
                        ..*old(self)
                    })
                }
            }),
    {
        let field: u8 = (opcode >> 4u8) & 0x03;
        if field == 0 {
            let addr: u16 = self.reg.dread(Reg16::BC);
            self.reg.a = mem.read(addr);
        } else if field == 1 {
            let addr: u16 = self.reg.dread(Reg16::DE);
            self.reg.a = mem.read(addr);
        } else if field == 2 {
            let addr: u16 = self.reg.dread(Reg16::HL);
            self.reg.a = mem.read(addr);
            self.reg.dwrite(Reg16::HL, addr.wrapping_add(1));
        } else {
            let addr: u16 = self.reg.dread(Reg16::HL);
            self.reg.a = mem.read(addr);
            self.reg.dwrite(Reg16::HL, addr.wrapping_sub(1));
        }
        InstructionInfo(1, 2)
    }

    pub fn ld_imm16_sp(&mut self, mem: &mut Memory) -> (info: InstructionInfo)
        requires
            old(self).wf(),
            old(mem).wf(),
        ensures
            final(self).wf(),
            final(mem).wf(),
            *final(self) == *old(self),
            ({
                let addr = imm16_at(*old(self), old(mem)@);
                final(mem)@ == old(mem)@.write(addr, lo8(old(self).sp)).write(
                    wadd16(addr, 1),
                    hi8(old(self).sp),
                )
            }),
            info == InstructionInfo(3, 5),
    {
        let addr: u16 = self.read_imm16(mem);
        let sp_lsb: u8 = (self.sp % 256) as u8;
        let sp_msb: u8 = (self.sp / 256) as u8;
        mem.write(addr, sp_lsb);
        mem.write(addr.wrapping_add(1), sp_msb);
        InstructionInfo(3, 5)
    }

    pub fn inc_r16(&mut self, opcode: u8) -> (info: InstructionInfo)
        requires
            old(self).wf(),
        ensures
            final(self).wf(),
            *final(self) == ({
                let field = (opcode >> 4u8) & 0x03;
                w16f(*old(self), field, wadd16(r16f(*old(self), field), 1))
            }),
            info == InstructionInfo(1, 2),
    {
        let field: u8 = (opcode >> 4u8) & 0x03;
        let v: u16 = self.read_r16f(field);
        self.write_r16f(field, v.wrapping_add(1));
        InstructionInfo(1, 2)
    }

    pub fn dec_r16(&mut self, opcode: u8) -> (info: InstructionInfo)
        requires
            old(self).wf(),
        ensures
            final(self).wf(),
            *final(self) == ({
                let field = (opcode >> 4u8) & 0x03;
                w16f(*old(self), field, wsub16(r16f(*old(self), field), 1))
            }),
            info == InstructionInfo(1, 2),
    {
        let field: u8 = (opcode >> 4u8) & 0x03;
        let v: u16 = self.read_r16f(field);
        self.write_r16f(field, v.wrapping_sub(1));
        InstructionInfo(1, 2)
    }

    pub fn add_hl_r16(&mut self, opcode: u8) -> (info: InstructionInfo)
        requires
            old(self).wf(),
        ensures
            final(self).wf(),
            *final(self) == ({
                let hl = r16(old(self).reg, Reg16::HL);
                let v = r16f(*old(self), (opcode >> 4u8) & 0x03);
                let r = wadd16(hl, v);
                Core {
                    reg: (RegisterFile {
                        h: hi8(r),
                        l: lo8(r),
                        f: flags_to_byte(
                            flag_z(old(self).reg.f),
                            false,
                            (hl & 0x0FFF) + (v & 0x0FFF) > 0x0FFF,
                            hl + v > 0xFFFF,
                        ),
                        ..old(self).reg
                    }),
                    ..*old(self)
                }
            }),
            info == InstructionInfo(1, 2),
    {
        proof {
            crate::registers::lemma_and_mask_le16(r16(old(self).reg, Reg16::HL), 0x0FFF);
            crate::registers::lemma_and_mask_le16(r16f(*old(self), (opcode >> 4u8) & 0x03), 0x0FFF);
        }
        let hl: u16 = self.reg.dread(Reg16::HL);
        let v: u16 = self.read_r16f((opcode >> 4u8) & 0x03);
        let result: u16 = hl.wrapping_add(v);
        let h = (hl & 0x0FFF) + (v & 0x0FFF) > 0x0FFF;
        let cy = (hl as u32) + (v as u32) > 0xFFFF;
        self.reg.dwrite(Reg16::HL, result);
        let z = self.reg.read_flag(Flag::Z);
        self.reg.set_flags(z, false, h, cy);
        InstructionInfo(1, 2)
    }

    pub fn inc_r8(&mut self, opcode: u8, mem: &mut Memory) -> (info: InstructionInfo)
        requires
            old(self).wf(),
            old(mem).wf(),
        ensures
            final(self).wf(),
            final(mem).wf(),
            ({
                let field = (opcode >> 3u8) & 0x07;
                let hl = r16(old(self).reg, Reg16::HL);
                let v = if field == 6 {
                    old(mem)@.read(hl)
                } else {
                    r8_field(old(self).reg, field)
                };
                let r = wadd8(v, 1);
                let f2 = flags_to_byte(r == 0, false, (v & 0x0F) + 1 > 0x0F, flag_cy(old(self).reg.f));
                &&& info == InstructionInfo(1, if field == 6 { 3u8 } else { 1u8 })
                &&& if field == 6 {
                    &&& final(mem)@ == old(mem)@.write(hl, r)
                    &&& *final(self) == (Core { reg: (RegisterFile { f: f2, ..old(self).reg }), ..*old(self) })
                } else {
                    &&& final(mem)@ == old(mem)@
                    &&& *final(self) == (Core {
                        reg: (RegisterFile { f: f2, ..w8_field(old(self).reg, field, r) }),
                        ..*old(self)
                    })
                }
            }),
    {
        let field: u8 = (opcode >> 3u8) & 0x07;
        if field == 6 {
            let addr: u16 = self.reg.dread(Reg16::HL);
            let v: u8 = mem.read(addr);
            let result: u8 = v.wrapping_add(1);
            let z = result == 0;
            let h = (v & 0x0F) + 1 > 0x0F;
            mem.write(addr, result);
            let cyf = self.reg.read_flag(Flag::CY);
            self.reg.set_flags(z, false, h, cyf);
            InstructionInfo(1, 3)
        } else {
            let target = map_r8(field);
            let v: u8 = self.reg.read(target);
            let result: u8 = v.wrapping_add(1);
            let z = result == 0;
            let h = (v & 0x0F) + 1 > 0x0F;
            self.reg.write(target, result);
            let cyf = self.reg.read_flag(Flag::CY);
            self.reg.set_flags(z, false, h, cyf);
            InstructionInfo(1, 1)
        }
    }

    pub fn dec_r8(&mut self, opcode: u8, mem: &mut Memory) -> (info: InstructionInfo)
        requires
            old(self).wf(),
            old(mem).wf(),
        ensures
            final(self).wf(),
            final(mem).wf(),
            ({
                let field = (opcode >> 3u8) & 0x07;
                let hl = r16(old(self).reg, Reg16::HL);
                let v = if field == 6 {
                    old(mem)@.read(hl)
                } else {
                    r8_field(old(self).reg, field)
                };
                let r = wsub8(v, 1);
                let f2 = flags_to_byte(r == 0, true, (v & 0x0F) < 1, flag_cy(old(self).reg.f));
                &&& info == InstructionInfo(1, if field == 6 { 3u8 } else { 1u8 })
                &&& if field == 6 {
                    &&& final(mem)@ == old(mem)@.write(hl, r)
                    &&& *final(self) == (Core { reg: (RegisterFile { f: f2, ..old(self).reg }), ..*old(self) })
                } else {
                    &&& final(mem)@ == old(mem)@
                    &&& *final(self) == (Core {
                        reg: (RegisterFile { f: f2, ..w8_field(old(self).reg, field, r) }),
                        ..*old(self)
                    })
                }
            }),
    {
        let field: u8 = (opcode >> 3u8) & 0x07;
        if field == 6 {
            let addr: u16 = self.reg.dread(Reg16::HL);
            let v: u8 = mem.read(addr);
            let result: u8 = v.wrapping_sub(1);
            let z = result == 0;
            let h = (v & 0x0F) < 1;
            mem.write(addr, result);
            let cyf = self.reg.read_flag(Flag::CY);
            self.reg.set_flags(z, true, h, cyf);
            InstructionInfo(1, 3)
        } else {
            let target = map_r8(field);
            let v: u8 = self.reg.read(target);
            let result: u8 = v.wrapping_sub(1);
            let z = result == 0;
            let h = (v & 0x0F) < 1;
            self.reg.write(target, result);
            let cyf = self.reg.read_flag(Flag::CY);
            self.reg.set_flags(z, true, h, cyf);
            InstructionInfo(1, 1)
        }
    }

    pub fn ld_r8_imm8(&mut self, opcode: u8, mem: &mut Memory) -> (info: InstructionInfo)
        requires
            old(self).wf(),
            old(mem).wf(),
        ensures
            final(self).wf(),
            final(mem).wf(),
            ({
                let field = (opcode >> 3u8) & 0x07;
                let imm = imm8_at(*old(self), old(mem)@);
                &&& info == InstructionInfo(2, if field == 6 { 3u8 } else { 2u8 })
                &&& if field == 6 {
                    &&& final(mem)@ == old(mem)@.write(r16(old(self).reg, Reg16::HL), imm)
                    &&& *final(self) == *old(self)
                } else {
                    &&& final(mem)@ == old(mem)@
                    &&& *final(self) == (Core { reg: w8_field(old(self).reg, field, imm), ..*old(self) })
                }
            }),
    {
        let field: u8 = (opcode >> 3u8) & 0x07;
        let imm: u8 = self.read_imm8(mem);
        if field == 6 {
            let addr: u16 = self.reg.dread(Reg16::HL);
            mem.write(addr, imm);
            InstructionInfo(2, 3)
        } else {
            let target = map_r8(field);
            self.reg.write(target, imm);
            InstructionInfo(2, 2)
        }
    }

    pub fn rlca(&mut self) -> (info: InstructionInfo)
        requires
            old(self).wf(),
        ensures
            final(self).wf(),
            *final(self) == (Core {
                reg: (RegisterFile {
                    a: rlc_val(old(self).reg.a),
                    f: flags_to_byte(false, false, false, old(self).reg.a >> 7u8 == 1),
                    ..old(self).reg
                }),
                ..*old(self)
            }),
            info == InstructionInfo(1, 1),
    {
        let a: u8 = self.reg.a;
        let result: u8 = (a << 1u8) | (a >> 7u8);
        let cy = (a >> 7u8) == 1;
        self.reg.a = result;
        self.reg.set_flags(false, false, false, cy);
        InstructionInfo(1, 1)
    }

    pub fn rrca(&mut self) -> (info: InstructionInfo)
        requires
            old(self).wf(),
        ensures
            final(self).wf(),
            *final(self) == (Core {
                reg: (RegisterFile {
                    a: rrc_val(old(self).reg.a),
                    f: flags_to_byte(false, false, false, old(self).reg.a & 0x01 == 1),
                    ..old(self).reg
                }),
                ..*old(self)
            }),
            info == InstructionInfo(1, 1),
    {
        let a: u8 = self.reg.a;
        let result: u8 = ((a & 0x01) << 7u8) | (a >> 1u8);
        let cy = (a & 0x01) == 1;
        self.reg.a = result;
        self.reg.set_flags(false, false, false, cy);
        InstructionInfo(1, 1)
    }

    pub fn rla(&mut self) -> (info: InstructionInfo)
        requires
            old(self).wf(),
        ensures
            final(self).wf(),
            *final(self) == (Core {
                reg: (RegisterFile {
                    a: rl_val(old(self).reg.a, flag_cy(old(self).reg.f)),
                    f: flags_to_byte(false, false, false, old(self).reg.a >> 7u8 == 1),
                    ..old(self).reg
                }),
                ..*old(self)
            }),
            info == InstructionInfo(1, 1),
    {
        let a: u8 = self.reg.a;
        let cin: u8 = if self.reg.read_flag(Flag::CY) {
            1
        } else {
            0
        };
        let result: u8 = (a << 1u8) | cin;
        let cy = (a >> 7u8) == 1;
        self.reg.a = result;
        self.reg.set_flags(false, false, false, cy);
        InstructionInfo(1, 1)
    }

    pub fn rra(&mut self) -> (info: InstructionInfo)
        requires
            old(self).wf(),
        ensures
            final(self).wf(),
            *final(self) == (Core {
                reg: (RegisterFile {
                    a: rr_val(old(self).reg.a, flag_cy(old(self).reg.f)),
                    f: flags_to_byte(false, false, false, old(self).reg.a & 0x01 == 1),
                    ..old(self).reg
                }),
                ..*old(self)
            }),
            info == InstructionInfo(1, 1),
    {
        let a: u8 = self.reg.a;
        let cin: u8 = if self.reg.read_flag(Flag::CY) {
            0x80
        } else {
            0
        };
        let result: u8 = cin | (a >> 1u8);
        let cy = (a & 0x01) == 1;
        self.reg.a = result;
        self.reg.set_flags(false, false, false, cy);
        InstructionInfo(1, 1)
    }

    pub fn daa(&mut self) -> (info: InstructionInfo)
        requires
            old(self).wf(),
        ensures
            final(self).wf(),
            *final(self) == daa_core(*old(self)),
            info == InstructionInfo(1, 1),
    {
        let a: u8 = self.reg.a;
        let old_h = self.reg.read_flag(Flag::H);
        let old_cy = self.reg.read_flag(Flag::CY);
        if !self.reg.read_flag(Flag::N) {
            let cy1 = old_cy || a > 0x99;
            let a1: u8 = if cy1 {
                a.wrapping_add(0x60)
            } else {
                a
            };
            let a2: u8 = if old_h || (a1 & 0x0F) > 9 {
                a1.wrapping_add(0x06)
            } else {
                a1
            };
            self.reg.a = a2;
            self.reg.set_flags(a2 == 0, false, false, cy1);
        } else {
            let a1: u8 = if old_cy {
                a.wrapping_sub(0x60)
            } else {
                a
            };
            let a2: u8 = if old_h {
                a1.wrapping_sub(0x06)
            } else {
                a1
            };
            self.reg.a = a2;
            self.reg.set_flags(a2 == 0, true, false, old_cy);
        }
        InstructionInfo(1, 1)
    }

    pub fn cpl(&mut self) -> (info: InstructionInfo)
        requires
            old(self).wf(),
        ensures
            final(self).wf(),
            *final(self) == (Core {
                reg: (RegisterFile {
                    a: !old(self).reg.a,
                    f: flags_to_byte(flag_z(old(self).reg.f), false, false, flag_cy(old(self).reg.f)),
                    ..old(self).reg
                }),
                ..*old(self)
            }),
            info == InstructionInfo(1, 1),
    {
        let z = self.reg.read_flag(Flag::Z);
        let cy = self.reg.read_flag(Flag::CY);
        self.reg.a = !self.reg.a;
        self.reg.set_flags(z, false, false, cy);
        InstructionInfo(1, 1)
    }

    pub fn scf(&mut self) -> (info: InstructionInfo)
        requires
            old(self).wf(),
        ensures
            final(self).wf(),
            *final(self) == (Core {
                reg: (RegisterFile {
                    f: flags_to_byte(flag_z(old(self).reg.f), false, false, true),
                    ..old(self).reg
                }),
                ..*old(self)
            }),
            info == InstructionInfo(1, 1),
    {
        let z = self.reg.read_flag(Flag::Z);
        self.reg.set_flags(z, false, false, true);
        InstructionInfo(1, 1)
    }

    pub fn ccf(&mut self) -> (info: InstructionInfo)
        requires
            old(self).wf(),
        ensures
            final(self).wf(),
            *final(self) == (Core {
                reg: (RegisterFile {
                    f: flags_to_byte(flag_z(old(self).reg.f), false, false, !flag_cy(old(self).reg.f)),
                    ..old(self).reg
                }),
                ..*old(self)
            }),
            info == InstructionInfo(1, 1),
    {
        let z = self.reg.read_flag(Flag::Z);
        let cy = !self.reg.read_flag(Flag::CY);
        self.reg.set_flags(z, false, false, cy);
        InstructionInfo(1, 1)
    }

    pub fn jr_imm8(&mut self, mem: &Memory) -> (info: InstructionInfo)
        requires
            old(self).wf(),
            mem.wf(),
        ensures
            final(self).wf(),
            *final(self) == (Core {
                pc: wadd16(old(self).pc, sign_ext8(imm8_at(*old(self), mem@))),
                ..*old(self)
            }),
            info == InstructionInfo(2, 3),
    {
        let imm: u8 = self.read_imm8(mem);
        let offset: u16 = if imm < 0x80 {
            imm as u16
        } else {
            (imm as u16) + 0xFF00
        };
        self.pc = self.pc.wrapping_add(offset);
        InstructionInfo(2, 3)
    }

    pub fn jr_cond_imm8(&mut self, opcode: u8, mem: &Memory) -> (info: InstructionInfo)
        requires
            old(self).wf(),
            mem.wf(),
        ensures
            final(self).wf(),
            if cond_holds(opcode, old(self).reg.f) {
                &&& *final(self) == (Core {
                    pc: wadd16(old(self).pc, sign_ext8(imm8_at(*old(self), mem@))),
                    ..*old(self)
                })
                &&& info == InstructionInfo(2, 3)
            } else {
                &&& *final(self) == *old(self)
                &&& info == InstructionInfo(2, 2)
            },
    {
        if self.check_cond(opcode) {
            self.jr_imm8(mem)
        } else {
            InstructionInfo(2, 2)
        }
    }

    /// HALT: suspend instruction execution until an interrupt is both
    /// pending and enabled.
    pub fn halt(&mut self) -> (info: InstructionInfo)
        requires
            old(self).wf(),
        ensures
            final(self).wf(),
            *final(self) == (Core { halted: true, ..*old(self) }),
            info == InstructionInfo(1, 1),
    {
        self.halted = true;
        InstructionInfo(1, 1)
    }

    /// STOP: suspend the CPU until a joypad interrupt is raised; the byte
    /// after the opcode is consumed.
    pub fn stop(&mut self) -> (info: InstructionInfo)
        requires
            old(self).wf(),
        ensures
            final(self).wf(),
            *final(self) == (Core { stopped: true, ..*old(self) }),
            info == InstructionInfo(2, 1),
    {
        self.stopped = true;
        InstructionInfo(2, 1)
    }

    /// LD r8, r8 between two register operands, or between a register and
    /// the memory byte at HL when either 3-bit field is 6. Opcode 0x76,
    /// with both fields 6, is HALT and is decoded separately.
    pub fn ld_r8_r8(&mut self, opcode: u8, mem: &mut Memory) -> (info: InstructionInfo)
        requires
            old(self).wf(),
            old(mem).wf(),
            opcode >> 6u8 == 1,
            opcode != 0x76,
        ensures
            final(self).wf(),
            final(mem).wf(),
            ({
                let src = opcode & 0x07;
                let dst = (opcode >> 3u8) & 0x07;
                let hl = r16(old(self).reg, Reg16::HL);
                &&& if src == 6 {
                    &&& final(mem)@ == old(mem)@
                    &&& *final(self) == (Core {
                        reg: w8_field(old(self).reg, dst, old(mem)@.read(hl)),
                        ..*old(self)
                    })
                    &&& info == InstructionInfo(1, 2)
                } else if dst == 6 {
                    &&& final(mem)@ == old(mem)@.write(hl, r8_field(old(self).reg, src))
                    &&& *final(self) == *old(self)
                    &&& info == InstructionInfo(1, 2)
                } else {
                    &&& final(mem)@ == old(mem)@
                    &&& *final(self) == (Core {
                        reg: w8_field(old(self).reg, dst, r8_field(old(self).reg, src)),
                        ..*old(self)
                    })
                    &&& info == InstructionInfo(1, 1)
                }
            }),
    {
        proof {
            assert((opcode >> 6u8) == 1 && (opcode & 0x07) == 6 && ((opcode >> 3u8) & 0x07) == 6
                ==> opcode == 0x76) by (bit_vector);
        }
        let src: u8 = opcode & 0x07;
        let dst: u8 = (opcode >> 3u8) & 0x07;
        if src == 6 {
            let addr: u16 = self.reg.dread(Reg16::HL);
            let value: u8 = mem.read(addr);
            self.reg.write(map_r8(dst), value);
            InstructionInfo(1, 2)
        } else {
            let value: u8 = self.reg.read(map_r8(src));
            if dst == 6 {
                let addr: u16 = self.reg.dread(Reg16::HL);
                mem.write(addr, value);
                InstructionInfo(1, 2)
            } else {
                self.reg.write(map_r8(dst), value);
                InstructionInfo(1, 1)
            }
        }
    }

    /// RET: pop PC from the stack, low byte first.
    pub fn ret(&mut self, mem: &Memory) -> (info: InstructionInfo)
        requires
            old(self).wf(),
            mem.wf(),
        ensures
            final(self).wf(),
            *final(self) == (Core {
                pc: pack16(mem@.read(wadd16(old(self).sp, 1)), mem@.read(old(self).sp)),
                sp: wadd16(old(self).sp, 2),
                ..*old(self)
            }),
            info == InstructionInfo(0, 4),
    {
        let lsb: u8 = mem.read(self.sp);
        let msb: u8 = mem.read(self.sp.wrapping_add(1));
        self.pc = (msb as u16) * 256 + (lsb as u16);
        self.sp = self.sp.wrapping_add(2);
        InstructionInfo(0, 4)
    }

    /// RETI: RET, then request the IME enable that completes after this
    /// instruction.
    pub fn reti(&mut self, mem: &Memory) -> (info: InstructionInfo)
        requires
            old(self).wf(),
            mem.wf(),
        ensures
            final(self).wf(),
            *final(self) == (Core {
                pc: pack16(mem@.read(wadd16(old(self).sp, 1)), mem@.read(old(self).sp)),
                sp: wadd16(old(self).sp, 2),
                ime_enable_request: 1u8,
                ..*old(self)
            }),
            info == InstructionInfo(0, 4),
    {
        self.ime_enable_request = 1;
        self.ret(mem)
    }

    pub fn ret_cond(&mut self, opcode: u8, mem: &Memory) -> (info: InstructionInfo)
        requires
            old(self).wf(),
            mem.wf(),
        ensures
            final(self).wf(),
            if cond_holds(opcode, old(self).reg.f) {
                &&& *final(self) == (Core {
                    pc: pack16(mem@.read(wadd16(old(self).sp, 1)), mem@.read(old(self).sp)),
                    sp: wadd16(old(self).sp, 2),
                    ..*old(self)
                })
                &&& info == InstructionInfo(0, 5)
            } else {
                &&& *final(self) == *old(self)
                &&& info == InstructionInfo(1, 2)
            },
    {
        if self.check_cond(opcode) {
            self.ret(mem);
            InstructionInfo(0, 5)
        } else {
            InstructionInfo(1, 2)
        }
    }

    pub fn jp_imm16(&mut self, mem: &Memory) -> (info: InstructionInfo)
        requires
            old(self).wf(),
            mem.wf(),
        ensures
            final(self).wf(),
            *final(self) == (Core { pc: imm16_at(*old(self), mem@), ..*old(self) }),
            info == InstructionInfo(0, 4),
    {
        self.pc = self.read_imm16(mem);
        InstructionInfo(0, 4)
    }

    pub fn jp_cond_imm16(&mut self, opcode: u8, mem: &Memory) -> (info: InstructionInfo)
        requires
            old(self).wf(),
            mem.wf(),
        ensures
            final(self).wf(),
            if cond_holds(opcode, old(self).reg.f) {
                &&& *final(self) == (Core { pc: imm16_at(*old(self), mem@), ..*old(self) })
                &&& info == InstructionInfo(0, 4)
            } else {
                &&& *final(self) == *old(self)
                &&& info == InstructionInfo(3, 3)
            },
    {
        if self.check_cond(opcode) {
            self.jp_imm16(mem)
        } else {
            InstructionInfo(3, 3)
        }
    }

    pub fn jp_hl(&mut self) -> (info: InstructionInfo)
        requires
            old(self).wf(),
        ensures
            final(self).wf(),
            *final(self) == (Core { pc: r16(old(self).reg, Reg16::HL), ..*old(self) }),
            info == InstructionInfo(0, 1),
    {
        self.pc = self.reg.dread(Reg16::HL);
        InstructionInfo(0, 1)
    }

    /// CALL imm16: push the return address, high byte at SP-1 and low byte
    /// at SP-2, then jump to the immediate target.
    pub fn call_imm16(&mut self, mem: &mut Memory) -> (info: InstructionInfo)
        requires
            old(self).wf(),
            old(mem).wf(),
        ensures
            final(self).wf(),
            final(mem).wf(),
            ({
                let ra = wadd16(old(self).pc, 3);
                let m2 = old(mem)@.write(wsub16(old(self).sp, 1), hi8(ra)).write(
                    wsub16(old(self).sp, 2),
                    lo8(ra),
                );
                &&& final(mem)@ == m2
                &&& *final(self) == (Core {
                    pc: pack16(m2.read(wadd16(old(self).pc, 2)), m2.read(wadd16(old(self).pc, 1))),
                    sp: wsub16(old(self).sp, 2),
                    ..*old(self)
                })
            }),
            info == InstructionInfo(0, 6),
    {
        let return_addr: u16 = self.pc.wrapping_add(3);
        mem.write(self.sp.wrapping_sub(1), (return_addr / 256) as u8);
        mem.write(self.sp.wrapping_sub(2), (return_addr % 256) as u8);
        self.sp = self.sp.wrapping_sub(2);
        let lsb: u8 = mem.read(self.pc.wrapping_add(1));
        let msb: u8 = mem.read(self.pc.wrapping_add(2));
        self.pc = (msb as u16) * 256 + (lsb as u16);
        InstructionInfo(0, 6)
    }

    pub fn call_cond_imm16(&mut self, opcode: u8, mem: &mut Memory) -> (info: InstructionInfo)
        requires
            old(self).wf(),
            old(mem).wf(),
        ensures
            final(self).wf(),
            final(mem).wf(),
            if cond_holds(opcode, old(self).reg.f) {
                let ra = wadd16(old(self).pc, 3);
                let m2 = old(mem)@.write(wsub16(old(self).sp, 1), hi8(ra)).write(
                    wsub16(old(self).sp, 2),
                    lo8(ra),
                );
                &&& final(mem)@ == m2
                &&& *final(self) == (Core {
                    pc: pack16(m2.read(wadd16(old(self).pc, 2)), m2.read(wadd16(old(self).pc, 1))),
                    sp: wsub16(old(self).sp, 2),
                    ..*old(self)
                })
                &&& info == InstructionInfo(0, 6)
            } else {
                &&& final(mem)@ == old(mem)@
                &&& *final(self) == *old(self)
                &&& info == InstructionInfo(3, 3)
            },
    {
        if self.check_cond(opcode) {
            self.call_imm16(mem)
        } else {
            InstructionInfo(3, 3)
        }
    }

    /// RST: push the return address (the byte after the opcode), then jump
    /// to the fixed vector selected by opcode bits 5..3.
    pub fn rst_tgt3(&mut self, opcode: u8, mem: &mut Memory) -> (info: InstructionInfo)
        requires
            old(self).wf(),
            old(mem).wf(),
        ensures
            final(self).wf(),
            final(mem).wf(),
            ({
                let ra = wadd16(old(self).pc, 1);
                &&& final(mem)@ == old(mem)@.write(wsub16(old(self).sp, 1), hi8(ra)).write(
                    wsub16(old(self).sp, 2),
                    lo8(ra),
                )
                &&& *final(self) == (Core {
                    pc: rst_target(opcode),
                    sp: wsub16(old(self).sp, 2),
                    ..*old(self)
                })
            }),
            info == InstructionInfo(0, 4),
    {
        let jump_addr: u16 = (((opcode >> 3u8) & 0x07) as u16) * 8;
        let return_addr: u16 = self.pc.wrapping_add(1);
        mem.write(self.sp.wrapping_sub(1), (return_addr / 256) as u8);
        mem.write(self.sp.wrapping_sub(2), (return_addr % 256) as u8);
        self.sp = self.sp.wrapping_sub(2);
        self.pc = jump_addr;
        InstructionInfo(0, 4)
    }

    /// POP into BC, DE, HL or AF; a pop into AF keeps the low nibble of F
    /// zero.
    pub fn pop_r16stk(&mut self, opcode: u8, mem: &Memory) -> (info: InstructionInfo)
        requires
            old(self).wf(),
            mem.wf(),
        ensures
            final(self).wf(),
            ({
                let v = pack16(mem@.read(wadd16(old(self).sp, 1)), mem@.read(old(self).sp));
                *final(self) == (Core {
                    sp: wadd16(old(self).sp, 2),
                    ..w16stk(*old(self), (opcode >> 4u8) & 0x03, v)
                })
            }),
            info == InstructionInfo(1, 3),
    {
        let lsb: u8 = mem.read(self.sp);
        let msb: u8 = mem.read(self.sp.wrapping_add(1));
        let value: u16 = (msb as u16) * 256 + (lsb as u16);
        let field: u8 = (opcode >> 4u8) & 0x03;
        if field == 0 {
            self.reg.dwrite(Reg16::BC, value);
        } else if field == 1 {
            self.reg.dwrite(Reg16::DE, value);
        } else if field == 2 {
            self.reg.dwrite(Reg16::HL, value);
        } else {
            self.reg.dwrite(Reg16::AF, value);
        }
        self.sp = self.sp.wrapping_add(2);
        InstructionInfo(1, 3)
    }

    /// PUSH BC, DE, HL or AF: high byte at SP-1, low byte at SP-2.
    pub fn push_r16stk(&mut self, opcode: u8, mem: &mut Memory) -> (info: InstructionInfo)
        requires
            old(self).wf(),
            old(mem).wf(),
        ensures
            final(self).wf(),
            final(mem).wf(),
            ({
                let v = r16stk(*old(self), (opcode >> 4u8) & 0x03);
                &&& final(mem)@ == old(mem)@.write(wsub16(old(self).sp, 1), hi8(v)).write(
                    wsub16(old(self).sp, 2),
                    lo8(v),
                )
                &&& *final(self) == (Core { sp: wsub16(old(self).sp, 2), ..*old(self) })
            }),
            info == InstructionInfo(1, 4),
    {
        let field: u8 = (opcode >> 4u8) & 0x03;
        let value: u16 = if field == 0 {
            self.reg.dread(Reg16::BC)
        } else if field == 1 {
            self.reg.dread(Reg16::DE)
        } else if field == 2 {
            self.reg.dread(Reg16::HL)
        } else {
            self.reg.dread(Reg16::AF)
        };
        mem.write(self.sp.wrapping_sub(1), (value / 256) as u8);
        mem.write(self.sp.wrapping_sub(2), (value % 256) as u8);
        self.sp = self.sp.wrapping_sub(2);
        InstructionInfo(1, 4)
    }

    /// Opcode 0xCB: switch the next decode to the CB table.
    pub fn prefix(&mut self) -> (info: InstructionInfo)
        requires
            old(self).wf(),
        ensures
            final(self).wf(),
            *final(self) == (Core { prefix_enabled: true, ..*old(self) }),
            info == InstructionInfo(1, 1),
    {
        self.prefix_enabled = true;
        InstructionInfo(1, 1)
    }

    pub fn ldh_c_a(&mut self, mem: &mut Memory) -> (info: InstructionInfo)
        requires
            old(self).wf(),
            old(mem).wf(),
        ensures
            final(self).wf(),
            final(mem).wf(),
            final(mem)@ == old(mem)@.write((0xFF00 + old(self).reg.c) as u16, old(self).reg.a),
            *final(self) == *old(self),
            info == InstructionInfo(1, 2),
    {
        let addr: u16 = 0xFF00 + (self.reg.c as u16);
        mem.write(addr, self.reg.a);
        InstructionInfo(1, 2)
    }

    pub fn ldh_imm8_a(&mut self, mem: &mut Memory) -> (info: InstructionInfo)
        requires
            old(self).wf(),
            old(mem).wf(),
        ensures
            final(self).wf(),
            final(mem).wf(),
            final(mem)@ == old(mem)@.write(
                (0xFF00 + imm8_at(*old(self), old(mem)@)) as u16,
                old(self).reg.a,
            ),
            *final(self) == *old(self),
            info == InstructionInfo(2, 3),
    {
        let imm: u8 = self.read_imm8(mem);
        let addr: u16 = 0xFF00 + (imm as u16);
        mem.write(addr, self.reg.a);
        InstructionInfo(2, 3)
    }

    pub fn ld_imm16_a(&mut self, mem: &mut Memory) -> (info: InstructionInfo)
        requires
            old(self).wf(),
            old(mem).wf(),
        ensures
            final(self).wf(),
            final(mem).wf(),
            final(mem)@ == old(mem)@.write(imm16_at(*old(self), old(mem)@), old(self).reg.a),
            *final(self) == *old(self),
            info == InstructionInfo(3, 4),
    {
        let addr: u16 = self.read_imm16(mem);
        mem.write(addr, self.reg.a);
        InstructionInfo(3, 4)
    }

    pub fn ldh_a_c(&mut self, mem: &Memory) -> (info: InstructionInfo)
        requires
            old(self).wf(),
            mem.wf(),
        ensures
            final(self).wf(),
            *final(self) == (Core {
                reg: (RegisterFile {
                    a: mem@.read((0xFF00 + old(self).reg.c) as u16),
                    ..old(self).reg
                }),
                ..*old(self)
            }),
            info == InstructionInfo(1, 2),
    {
        let addr: u16 = 0xFF00 + (self.reg.c as u16);
        self.reg.a = mem.read(addr);
        InstructionInfo(1, 2)
    }

    pub fn ldh_a_imm8(&mut self, mem: &Memory) -> (info: InstructionInfo)
        requires
            old(self).wf(),
            mem.wf(),
        ensures
            final(self).wf(),
            *final(self) == (Core {
                reg: (RegisterFile {
                    a: mem@.read((0xFF00 + imm8_at(*old(self), mem@)) as u16),
                    ..old(self).reg
                }),
                ..*old(self)
            }),
            info == InstructionInfo(2, 3),
    {
        let imm: u8 = self.read_imm8(mem);
        let addr: u16 = 0xFF00 + (imm as u16);
        self.reg.a = mem.read(addr);
        InstructionInfo(2, 3)
    }

    pub fn ld_a_imm16(&mut self, mem: &Memory) -> (info: InstructionInfo)
        requires
            old(self).wf(),
            mem.wf(),
        ensures
            final(self).wf(),
            *final(self) == (Core {
                reg: (RegisterFile { a: mem@.read(imm16_at(*old(self), mem@)), ..old(self).reg }),
                ..*old(self)
            }),
            info == InstructionInfo(3, 4),
    {
        let addr: u16 = self.read_imm16(mem);
        self.reg.a = mem.read(addr);
        InstructionInfo(3, 4)
    }

    /// ADD SP, imm8: the immediate is signed for the result; H and CY come
    /// from the unsigned low-byte addition.
    pub fn add_sp_imm8(&mut self, mem: &Memory) -> (info: InstructionInfo)
        requires
            old(self).wf(),
            mem.wf(),
        ensures
            final(self).wf(),
            ({
                let imm = imm8_at(*old(self), mem@);
                *final(self) == (Core {
                    sp: wadd16(old(self).sp, sign_ext8(imm)),
                    reg: (RegisterFile {
                        f: flags_to_byte(
                            false,
                            false,
                            (old(self).sp & 0x000F) + (imm & 0x0F) > 0x0F,
                            (old(self).sp & 0x00FF) + imm > 0xFF,
                        ),
                        ..old(self).reg
                    }),
                    ..*old(self)
                })
            }),
            info == InstructionInfo(2, 4),
    {
        let imm: u8 = self.read_imm8(mem);
        let offset: u16 = if imm < 0x80 {
            imm as u16
        } else {
            (imm as u16) + 0xFF00
        };
        let h = (self.sp & 0x000F) + ((imm & 0x0F) as u16) > 0x0F;
        let cy = (self.sp & 0x00FF) + (imm as u16) > 0xFF;
        self.sp = self.sp.wrapping_add(offset);
        self.reg.set_flags(false, false, h, cy);
        InstructionInfo(2, 4)
    }

    /// LD HL, SP + imm8: as ADD SP, imm8 but the sum lands in HL and SP is
    /// unchanged.
    pub fn ld_hl_sp_imm8(&mut self, mem: &Memory) -> (info: InstructionInfo)
        requires
            old(self).wf(),
            mem.wf(),
        ensures
            final(self).wf(),
            ({
                let imm = imm8_at(*old(self), mem@);
                let r = wadd16(old(self).sp, sign_ext8(imm));
                *final(self) == (Core {
                    reg: (RegisterFile {
                        h: hi8(r),
                        l: lo8(r),
                        f: flags_to_byte(
                            false,
                            false,
                            (old(self).sp & 0x000F) + (imm & 0x0F) > 0x0F,
                            (old(self).sp & 0x00FF) + imm > 0xFF,
                        ),
                        ..old(self).reg
                    }),
                    ..*old(self)
                })
            }),
            info == InstructionInfo(2, 3),
    {
        let imm: u8 = self.read_imm8(mem);
        let offset: u16 = if imm < 0x80 {
            imm as u16
        } else {
            (imm as u16) + 0xFF00
        };
        let h = (self.sp & 0x000F) + ((imm & 0x0F) as u16) > 0x0F;
        let cy = (self.sp & 0x00FF) + (imm as u16) > 0xFF;
        let result: u16 = self.sp.wrapping_add(offset);
        self.reg.dwrite(Reg16::HL, result);
        self.reg.set_flags(false, false, h, cy);
        InstructionInfo(2, 3)
    }

    pub fn ld_sp_hl(&mut self) -> (info: InstructionInfo)
        requires
            old(self).wf(),
        ensures
            final(self).wf(),
            *final(self) == (Core { sp: r16(old(self).reg, Reg16::HL), ..*old(self) }),
            info == InstructionInfo(1, 2),
    {
        self.sp = self.reg.dread(Reg16::HL);
        InstructionInfo(1, 2)
    }

    /// DI: clear the master interrupt enable and any pending enable request
    /// at once.
    pub fn di(&mut self) -> (info: InstructionInfo)
        requires
            old(self).wf(),
        ensures
            final(self).wf(),
            *final(self) == (Core { ime_enabled: false, ime_enable_request: 0u8, ..*old(self) }),
            info == InstructionInfo(1, 1),
    {
        self.ime_enabled = false;
        self.ime_enable_request = 0;
        InstructionInfo(1, 1)
    }

    /// EI: request the master interrupt enable; it takes effect after the
    /// instruction that follows this one.
    pub fn ei(&mut self) -> (info: InstructionInfo)
        requires
            old(self).wf(),
        ensures
            final(self).wf(),
            *final(self) == (Core { ime_enable_request: 2u8, ..*old(self) }),
            info == InstructionInfo(1, 1),
    {
        self.ime_enable_request = 2;
        InstructionInfo(1, 1)
    }

    /// RLC r8 (CB table): left rotate; Z from the result, CY from the bit
    /// rotated out.
    pub fn rlc_r8(&mut self, opcode: u8, mem: &mut Memory) -> (info: InstructionInfo)
        requires
            old(self).wf(),
            old(mem).wf(),
        ensures
            final(self).wf(),
            final(mem).wf(),
            ({
                let field = opcode & 0x07;
                let hl = r16(old(self).reg, Reg16::HL);
                let b = if field == 6 {
                    old(mem)@.read(hl)
                } else {
                    r8_field(old(self).reg, field)
                };
                let r = rlc_val(b);
                let f2 = flags_to_byte(r == 0, false, false, b >> 7u8 == 1);
                &&& info == InstructionInfo(1, if field == 6 { 4u8 } else { 2u8 })
                &&& if field == 6 {
                    &&& final(mem)@ == old(mem)@.write(hl, r)
                    &&& *final(self) == (Core {
                        reg: (RegisterFile { f: f2, ..old(self).reg }),
                        prefix_enabled: false,
                        ..*old(self)
                    })
                } else {
                    &&& final(mem)@ == old(mem)@
                    &&& *final(self) == (Core {
                        reg: (RegisterFile { f: f2, ..w8_field(old(self).reg, field, r) }),
                        prefix_enabled: false,
                        ..*old(self)
                    })
                }
            }),
    {
        let field: u8 = opcode & 0x07;
        let cycles: u8 = if field == 6 {
            let addr: u16 = self.reg.dread(Reg16::HL);
            let b: u8 = mem.read(addr);
            let result: u8 = (b << 1u8) | (b >> 7u8);
            mem.write(addr, result);
            self.reg.set_flags(result == 0, false, false, (b >> 7u8) == 1);
            4
        } else {
            let target = map_r8(field);
            let b: u8 = self.reg.read(target);
            let result: u8 = (b << 1u8) | (b >> 7u8);
            self.reg.write(target, result);
            self.reg.set_flags(result == 0, false, false, (b >> 7u8) == 1);
            2
        };
        self.prefix_enabled = false;
        InstructionInfo(1, cycles)
    }

    /// RRC r8 (CB table): right rotate; Z from the result, CY from the bit
    /// rotated out.
    pub fn rrc_r8(&mut self, opcode: u8, mem: &mut Memory) -> (info: InstructionInfo)
        requires
            old(self).wf(),
            old(mem).wf(),
        ensures
            final(self).wf(),
            final(mem).wf(),
            ({
                let field = opcode & 0x07;
                let hl = r16(old(self).reg, Reg16::HL);
                let b = if field == 6 {
                    old(mem)@.read(hl)
                } else {
                    r8_field(old(self).reg, field)
                };
                let r = rrc_val(b);
                let f2 = flags_to_byte(r == 0, false, false, b & 0x01 == 1);
                &&& info == InstructionInfo(1, if field == 6 { 4u8 } else { 2u8 })
                &&& if field == 6 {
                    &&& final(mem)@ == old(mem)@.write(hl, r)
                    &&& *final(self) == (Core {
                        reg: (RegisterFile { f: f2, ..old(self).reg }),
                        prefix_enabled: false,
                        ..*old(self)
                    })
                } else {
                    &&& final(mem)@ == old(mem)@
                    &&& *final(self) == (Core {
                        reg: (RegisterFile { f: f2, ..w8_field(old(self).reg, field, r) }),
                        prefix_enabled: false,
                        ..*old(self)
                    })
                }
            }),
    {
        let field: u8 = opcode & 0x07;
        let cycles: u8 = if field == 6 {
            let addr: u16 = self.reg.dread(Reg16::HL);
            let b: u8 = mem.read(addr);
            let result: u8 = ((b & 0x01) << 7u8) | (b >> 1u8);
            mem.write(addr, result);
            self.reg.set_flags(result == 0, false, false, (b & 0x01) == 1);
            4
        } else {
            let target = map_r8(field);
            let b: u8 = self.reg.read(target);
            let result: u8 = ((b & 0x01) << 7u8) | (b >> 1u8);
            self.reg.write(target, result);
            self.reg.set_flags(result == 0, false, false, (b & 0x01) == 1);
            2
        };
        self.prefix_enabled = false;
        InstructionInfo(1, cycles)
    }

    /// RL r8 (CB table): left rotate through the carry flag.
    pub fn rl_r8(&mut self, opcode: u8, mem: &mut Memory) -> (info: InstructionInfo)
        requires
            old(self).wf(),
            old(mem).wf(),
        ensures
            final(self).wf(),
            final(mem).wf(),
            ({
                let field = opcode & 0x07;
                let hl = r16(old(self).reg, Reg16::HL);
                let b = if field == 6 {
                    old(mem)@.read(hl)
                } else {
                    r8_field(old(self).reg, field)
                };
                let r = rl_val(b, flag_cy(old(self).reg.f));
                let f2 = flags_to_byte(r == 0, false, false, b >> 7u8 == 1);
                &&& info == InstructionInfo(1, if field == 6 { 4u8 } else { 2u8 })
                &&& if field == 6 {
                    &&& final(mem)@ == old(mem)@.write(hl, r)
                    &&& *final(self) == (Core {
                        reg: (RegisterFile { f: f2, ..old(self).reg }),
                        prefix_enabled: false,
                        ..*old(self)
                    })
                } else {
                    &&& final(mem)@ == old(mem)@
                    &&& *final(self) == (Core {
                        reg: (RegisterFile { f: f2, ..w8_field(old(self).reg, field, r) }),
                        prefix_enabled: false,
                        ..*old(self)
                    })
                }
            }),
    {
        let field: u8 = opcode & 0x07;
        let cin: u8 = if self.reg.read_flag(Flag::CY) {
            1
        } else {
            0
        };
        let cycles: u8 = if field == 6 {
            let addr: u16 = self.reg.dread(Reg16::HL);
            let b: u8 = mem.read(addr);
            let result: u8 = (b << 1u8) | cin;
            mem.write(addr, result);
            self.reg.set_flags(result == 0, false, false, (b >> 7u8) == 1);
            4
        } else {
            let target = map_r8(field);
            let b: u8 = self.reg.read(target);
            let result: u8 = (b << 1u8) | cin;
            self.reg.write(target, result);
            self.reg.set_flags(result == 0, false, false, (b >> 7u8) == 1);
            2
        };
        self.prefix_enabled = false;
        InstructionInfo(1, cycles)
    }

    /// RR r8 (CB table): right rotate through the carry flag.
    pub fn rr_r8(&mut self, opcode: u8, mem: &mut Memory) -> (info: InstructionInfo)
        requires
            old(self).wf(),
            old(mem).wf(),
        ensures
            final(self).wf(),
            final(mem).wf(),
            ({
                let field = opcode & 0x07;
                let hl = r16(old(self).reg, Reg16::HL);
                let b = if field == 6 {
                    old(mem)@.read(hl)
                } else {
                    r8_field(old(self).reg, field)
                };
                let r = rr_val(b, flag_cy(old(self).reg.f));
                let f2 = flags_to_byte(r == 0, false, false, b & 0x01 == 1);
                &&& info == InstructionInfo(1, if field == 6 { 4u8 } else { 2u8 })
                &&& if field == 6 {
                    &&& final(mem)@ == old(mem)@.write(hl, r)
                    &&& *final(self) == (Core {
                        reg: (RegisterFile { f: f2, ..old(self).reg }),
                        prefix_enabled: false,
                        ..*old(self)
                    })
                } else {
                    &&& final(mem)@ == old(mem)@
                    &&& *final(self) == (Core {
                        reg: (RegisterFile { f: f2, ..w8_field(old(self).reg, field, r) }),
                        prefix_enabled: false,
                        ..*old(self)
                    })
                }
            }),
    {
        let field: u8 = opcode & 0x07;
        let cin: u8 = if self.reg.read_flag(Flag::CY) {
            0x80
        } else {
            0
        };
        let cycles: u8 = if field == 6 {
            let addr: u16 = self.reg.dread(Reg16::HL);
            let b: u8 = mem.read(addr);
            let result: u8 = cin | (b >> 1u8);
            mem.write(addr, result);
            self.reg.set_flags(result == 0, false, false, (b & 0x01) == 1);
            4
        } else {
            let target = map_r8(field);
            let b: u8 = self.reg.read(target);
            let result: u8 = cin | (b >> 1u8);
            self.reg.write(target, result);
            self.reg.set_flags(result == 0, false, false, (b & 0x01) == 1);
            2
        };
        self.prefix_enabled = false;
        InstructionInfo(1, cycles)
    }

    /// SLA r8 (CB table): arithmetic left shift; bit 0 becomes zero.
    pub fn sla_r8(&mut self, opcode: u8, mem: &mut Memory) -> (info: InstructionInfo)
        requires
            old(self).wf(),
            old(mem).wf(),
        ensures
            final(self).wf(),
            final(mem).wf(),
            ({
                let field = opcode & 0x07;
                let hl = r16(old(self).reg, Reg16::HL);
                let b = if field == 6 {
                    old(mem)@.read(hl)
                } else {
                    r8_field(old(self).reg, field)
                };
                let r = (b << 1u8) as u8;
                let f2 = flags_to_byte(r == 0, false, false, b >> 7u8 == 1);
                &&& info == InstructionInfo(1, if field == 6 { 4u8 } else { 2u8 })
                &&& if field == 6 {
                    &&& final(mem)@ == old(mem)@.write(hl, r)
                    &&& *final(self) == (Core {
                        reg: (RegisterFile { f: f2, ..old(self).reg }),
                        prefix_enabled: false,
                        ..*old(self)
                    })
                } else {
                    &&& final(mem)@ == old(mem)@
                    &&& *final(self) == (Core {
                        reg: (RegisterFile { f: f2, ..w8_field(old(self).reg, field, r) }),
                        prefix_enabled: false,
                        ..*old(self)
                    })
                }
            }),
    {
        let field: u8 = opcode & 0x07;
        let cycles: u8 = if field == 6 {
            let addr: u16 = self.reg.dread(Reg16::HL);
            let b: u8 = mem.read(addr);
            let result: u8 = b << 1u8;
            mem.write(addr, result);
            self.reg.set_flags(result == 0, false, false, (b >> 7u8) == 1);
            4
        } else {
            let target = map_r8(field);
            let b: u8 = self.reg.read(target);
            let result: u8 = b << 1u8;
            self.reg.write(target, result);
            self.reg.set_flags(result == 0, false, false, (b >> 7u8) == 1);
            2
        };
        self.prefix_enabled = false;
        InstructionInfo(1, cycles)
    }

    /// SRA r8 (CB table): arithmetic right shift; bit 7 keeps its value.
    pub fn sra_r8(&mut self, opcode: u8, mem: &mut Memory) -> (info: InstructionInfo)
        requires
            old(self).wf(),
            old(mem).wf(),
        ensures
            final(self).wf(),
            final(mem).wf(),
            ({
                let field = opcode & 0x07;
                let hl = r16(old(self).reg, Reg16::HL);
                let b = if field == 6 {
                    old(mem)@.read(hl)
                } else {
                    r8_field(old(self).reg, field)
                };
                let r = sra_val(b);
                let f2 = flags_to_byte(r == 0, false, false, b & 0x01 == 1);
                &&& info == InstructionInfo(1, if field == 6 { 4u8 } else { 2u8 })
                &&& if field == 6 {
                    &&& final(mem)@ == old(mem)@.write(hl, r)
                    &&& *final(self) == (Core {
                        reg: (RegisterFile { f: f2, ..old(self).reg }),
                        prefix_enabled: false,
                        ..*old(self)
                    })
                } else {
                    &&& final(mem)@ == old(mem)@
                    &&& *final(self) == (Core {
                        reg: (RegisterFile { f: f2, ..w8_field(old(self).reg, field, r) }),
                        prefix_enabled: false,
                        ..*old(self)
                    })
                }
            }),
    {
        let field: u8 = opcode & 0x07;
        let cycles: u8 = if field == 6 {
            let addr: u16 = self.reg.dread(Reg16::HL);
            let b: u8 = mem.read(addr);
            let result: u8 = (b & 0x80) | (b >> 1u8);
            mem.write(addr, result);
            self.reg.set_flags(result == 0, false, false, (b & 0x01) == 1);
            4
        } else {
            let target = map_r8(field);
            let b: u8 = self.reg.read(target);
            let result: u8 = (b & 0x80) | (b >> 1u8);
            self.reg.write(target, result);
            self.reg.set_flags(result == 0, false, false, (b & 0x01) == 1);
            2
        };
        self.prefix_enabled = false;
        InstructionInfo(1, cycles)
    }

    /// SWAP r8 (CB table): exchange the nibbles; CY is cleared.
    pub fn swap_r8(&mut self, opcode: u8, mem: &mut Memory) -> (info: InstructionInfo)
        requires
            old(self).wf(),
            old(mem).wf(),
        ensures
            final(self).wf(),
            final(mem).wf(),
            ({
                let field = opcode & 0x07;
                let hl = r16(old(self).reg, Reg16::HL);
                let b = if field == 6 {
                    old(mem)@.read(hl)
                } else {
                    r8_field(old(self).reg, field)
                };
                let r = swap_val(b);
                let f2 = flags_to_byte(r == 0, false, false, false);
                &&& info == InstructionInfo(1, if field == 6 { 4u8 } else { 2u8 })
                &&& if field == 6 {
                    &&& final(mem)@ == old(mem)@.write(hl, r)
                    &&& *final(self) == (Core {
                        reg: (RegisterFile { f: f2, ..old(self).reg }),
                        prefix_enabled: false,
                        ..*old(self)
                    })
                } else {
                    &&& final(mem)@ == old(mem)@
                    &&& *final(self) == (Core {
                        reg: (RegisterFile { f: f2, ..w8_field(old(self).reg, field, r) }),
                        prefix_enabled: false,
                        ..*old(self)
                    })
                }
            }),
    {
        let field: u8 = opcode & 0x07;
        let cycles: u8 = if field == 6 {
            let addr: u16 = self.reg.dread(Reg16::HL);
            let b: u8 = mem.read(addr);
            let result: u8 = ((b & 0x0F) << 4u8) | ((b & 0xF0) >> 4u8);
            mem.write(addr, result);
            self.reg.set_flags(result == 0, false, false, false);
            4
        } else {
            let target = map_r8(field);
            let b: u8 = self.reg.read(target);
            let result: u8 = ((b & 0x0F) << 4u8) | ((b & 0xF0) >> 4u8);
            self.reg.write(target, result);
            self.reg.set_flags(result == 0, false, false, false);
            2
        };
        self.prefix_enabled = false;
        InstructionInfo(1, cycles)
    }

    /// SRL r8 (CB table): logical right shift; bit 7 becomes zero.
    pub fn srl_r8(&mut self, opcode: u8, mem: &mut Memory) -> (info: InstructionInfo)
        requires
            old(self).wf(),
            old(mem).wf(),
        ensures
            final(self).wf(),
            final(mem).wf(),
            ({
                let field = opcode & 0x07;
                let hl = r16(old(self).reg, Reg16::HL);
                let b = if field == 6 {
                    old(mem)@.read(hl)
                } else {
                    r8_field(old(self).reg, field)
                };
                let r = (b >> 1u8) as u8;
                let f2 = flags_to_byte(r == 0, false, false, b & 0x01 == 1);
                &&& info == InstructionInfo(1, if field == 6 { 4u8 } else { 2u8 })
                &&& if field == 6 {
                    &&& final(mem)@ == old(mem)@.write(hl, r)
                    &&& *final(self) == (Core {
                        reg: (RegisterFile { f: f2, ..old(self).reg }),
                        prefix_enabled: false,
                        ..*old(self)
                    })
                } else {
                    &&& final(mem)@ == old(mem)@
                    &&& *final(self) == (Core {
                        reg: (RegisterFile { f: f2, ..w8_field(old(self).reg, field, r) }),
                        prefix_enabled: false,
                        ..*old(self)
                    })
                }
            }),
    {
        let field: u8 = opcode & 0x07;
        let cycles: u8 = if field == 6 {
            let addr: u16 = self.reg.dread(Reg16::HL);
            let b: u8 = mem.read(addr);
            let result: u8 = b >> 1u8;
            mem.write(addr, result);
            self.reg.set_flags(result == 0, false, false, (b & 0x01) == 1);
            4
        } else {
            let target = map_r8(field);
            let b: u8 = self.reg.read(target);
            let result: u8 = b >> 1u8;
            self.reg.write(target, result);
            self.reg.set_flags(result == 0, false, false, (b & 0x01) == 1);
            2
        };
        self.prefix_enabled = false;
        InstructionInfo(1, cycles)
    }

    /// BIT n, r8 (CB table): Z is the complement of the tested bit, N=0,
    /// H=1, CY preserved. The operand is not written.
    pub fn bit_b3_r8(&mut self, opcode: u8, mem: &Memory) -> (info: InstructionInfo)
        requires
            old(self).wf(),
            mem.wf(),
        ensures
            final(self).wf(),
            ({
                let field = opcode & 0x07;
                let n = (opcode >> 3u8) & 0x07;
                let b = if field == 6 {
                    mem@.read(r16(old(self).reg, Reg16::HL))
                } else {
                    r8_field(old(self).reg, field)
                };
                let f2 = flags_to_byte(
                    (b >> n) & 0x01 == 0,
                    false,
                    true,
                    flag_cy(old(self).reg.f),
                );
                &&& info == InstructionInfo(1, if field == 6 { 3u8 } else { 2u8 })
                &&& *final(self) == (Core {
                    reg: (RegisterFile { f: f2, ..old(self).reg }),
                    prefix_enabled: false,
                    ..*old(self)
                })
            }),
    {
        let field: u8 = opcode & 0x07;
        let n: u8 = (opcode >> 3u8) & 0x07;
        let (value, cycles): (u8, u8) = if field == 6 {
            let addr: u16 = self.reg.dread(Reg16::HL);
            (mem.read(addr), 3)
        } else {
            (self.reg.read(map_r8(field)), 2)
        };
        let z = (value >> n) & 0x01 == 0;
        let cy = self.reg.read_flag(Flag::CY);
        self.reg.set_flags(z, false, true, cy);
        self.prefix_enabled = false;
        InstructionInfo(1, cycles)
    }

    /// RES n, r8 (CB table): clear bit n of the operand; no flag changes.
    pub fn res_b3_r8(&mut self, opcode: u8, mem: &mut Memory) -> (info: InstructionInfo)
        requires
            old(self).wf(),
            old(mem).wf(),
        ensures
            final(self).wf(),
            final(mem).wf(),
            ({
                let field = opcode & 0x07;
                let n = (opcode >> 3u8) & 0x07;
                let hl = r16(old(self).reg, Reg16::HL);
                let b = if field == 6 {
                    old(mem)@.read(hl)
                } else {
                    r8_field(old(self).reg, field)
                };
                let r = (b & !(1u8 << n)) as u8;
                &&& info == InstructionInfo(1, if field == 6 { 4u8 } else { 2u8 })
                &&& if field == 6 {
                    &&& final(mem)@ == old(mem)@.write(hl, r)
                    &&& *final(self) == (Core { prefix_enabled: false, ..*old(self) })
                } else {
                    &&& final(mem)@ == old(mem)@
                    &&& *final(self) == (Core {
                        reg: w8_field(old(self).reg, field, r),
                        prefix_enabled: false,
                        ..*old(self)
                    })
                }
            }),
    {
        let field: u8 = opcode & 0x07;
        let n: u8 = (opcode >> 3u8) & 0x07;
        let cycles: u8 = if field == 6 {
            let addr: u16 = self.reg.dread(Reg16::HL);
            let value: u8 = mem.read(addr) & !(1u8 << n);
            mem.write(addr, value);
            4
        } else {
            let target = map_r8(field);
            let value: u8 = self.reg.read(target) & !(1u8 << n);
            self.reg.write(target, value);
            2
        };
        self.prefix_enabled = false;
        InstructionInfo(1, cycles)
    }

    /// SET n, r8 (CB table): set bit n of the operand; no flag changes.
    pub fn set_b3_r8(&mut self, opcode: u8, mem: &mut Memory) -> (info: InstructionInfo)
        requires
            old(self).wf(),
            old(mem).wf(),
        ensures
            final(self).wf(),
            final(mem).wf(),
            ({
                let field = opcode & 0x07;
                let n = (opcode >> 3u8) & 0x07;
                let hl = r16(old(self).reg, Reg16::HL);
                let b = if field == 6 {
                    old(mem)@.read(hl)
                } else {
                    r8_field(old(self).reg, field)
                };
                let r = (b | (1u8 << n)) as u8;
                &&& info == InstructionInfo(1, if field == 6 { 4u8 } else { 2u8 })
                &&& if field == 6 {
                    &&& final(mem)@ == old(mem)@.write(hl, r)
                    &&& *final(self) == (Core { prefix_enabled: false, ..*old(self) })
                } else {
                    &&& final(mem)@ == old(mem)@
                    &&& *final(self) == (Core {
                        reg: w8_field(old(self).reg, field, r),
                        prefix_enabled: false,
                        ..*old(self)
                    })
                }
            }),
    {
        let field: u8 = opcode & 0x07;
        let n: u8 = (opcode >> 3u8) & 0x07;
        let cycles: u8 = if field == 6 {
            let addr: u16 = self.reg.dread(Reg16::HL);
            let value: u8 = mem.read(addr) | (1u8 << n);
            mem.write(addr, value);
            4
        } else {
            let target = map_r8(field);
            let value: u8 = self.reg.read(target) | (1u8 << n);
            self.reg.write(target, value);
            2
        };
        self.prefix_enabled = false;
        InstructionInfo(1, cycles)
    }
}

} // verus!
