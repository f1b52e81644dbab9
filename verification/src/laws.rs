//! General laws of the library, proved over the same models that the
//! public contracts use.

use vstd::prelude::*;

use crate::interrupt::Interrupt;
use crate::interrupt::interrupt_mask;
use crate::memory::MemModel;
use crate::memory::VBK_ADDR;
use crate::registers::Reg16;
use crate::registers::Reg8;
use crate::registers::RegisterFile;
use crate::registers::flags_to_byte;
use crate::registers::hi8;
use crate::registers::lo8;
use crate::registers::pack16;
use crate::registers::r16;
use crate::registers::w16;
use crate::registers::w8;

verus! {

/// The low nibble of F stays zero across every way the register file is
/// written: an 8-bit write, a 16-bit pair write, and a flags rebuild all
/// preserve well-formedness, so it holds in every reachable register file.
pub proof fn lemma_f_low_nibble_zero(
    rf: RegisterFile,
    reg: Reg8,
    value: u8,
    pair: Reg16,
    value16: u16,
    z: bool,
    n: bool,
    h: bool,
    cy: bool,
)
    requires
        rf.wf(),
    ensures
        w8(rf, reg, value).wf(),
        w16(rf, pair, value16).wf(),
        (RegisterFile { f: flags_to_byte(z, n, h, cy), ..rf }).wf(),
{
    crate::registers::lemma_high_nibble(value);
    crate::registers::lemma_high_nibble(lo8(value16));
    crate::registers::lemma_flags_to_byte(z, n, h, cy);
}

/// Writing a 16-bit register pair and reading it back yields the written
/// word, except through AF, where the low nibble of F reads back as zero.
pub proof fn lemma_pair_round_trip(rf: RegisterFile, pair: Reg16, value: u16)
    ensures
        pair != Reg16::AF ==> r16(w16(rf, pair, value), pair) == value,
        pair == Reg16::AF ==> r16(w16(rf, pair, value), pair) == value & 0xFFF0,
{
    assert(pack16(hi8(value), lo8(value)) == value);
    let hi = hi8(value);
    let lo = (lo8(value) & 0xF0) as u8;
    assert(hi == value / 256 && lo == (value % 256) & 0xF0 ==> (hi * 256 + lo) as u16 == value
        & 0xFFF0) by (bit_vector);
}

/// The interrupt logic reads only bits 0..4 of IF and IE: which interrupt
/// is pending is unchanged by masking both registers to those bits, and
/// every bit the notification path sets lies in them.
pub proof fn lemma_interrupt_bits(flags: u8, enable: u8, interrupt: Interrupt)
    ensures
        MemModel::pending_of(flags & enable) == MemModel::pending_of(
            ((flags & 0x1F) & (enable & 0x1F)) as u8,
        ),
        interrupt_mask(interrupt) & 0x1F == interrupt_mask(interrupt),
{
    assert(((flags & 0x1F) & (enable & 0x1F)) & 0x01 == (flags & enable) & 0x01 && ((flags & 0x1F)
        & (enable & 0x1F)) & 0x02 == (flags & enable) & 0x02 && ((flags & 0x1F) & (enable & 0x1F))
        & 0x04 == (flags & enable) & 0x04 && ((flags & 0x1F) & (enable & 0x1F)) & 0x08 == (flags
        & enable) & 0x08 && ((flags & 0x1F) & (enable & 0x1F)) & 0x10 == (flags & enable) & 0x10)
        by (bit_vector);
    assert(0x01u8 & 0x1F == 0x01 && 0x02u8 & 0x1F == 0x02 && 0x04u8 & 0x1F == 0x04 && 0x08u8
        & 0x1F == 0x08 && 0x10u8 & 0x1F == 0x10) by (bit_vector);
}

/// Reading the VRAM bank selector at 0xFF4F always yields a byte whose
/// upper seven bits are all ones, whatever was stored there.
pub proof fn lemma_vbk_upper_bits(m: MemModel)
    requires
        m.wf(),
    ensures
        m.read(VBK_ADDR) & 0xFE == 0xFE,
{
    let stored = m.fixed[VBK_ADDR as int];
    assert((0xFEu8 | (stored & 0x01)) & 0xFE == 0xFE) by (bit_vector);
}

/// A read of echo RAM yields the byte 0x2000 below, and a write to echo
/// RAM lands on the byte 0x2000 below: the region 0xE000..=0xFDFF mirrors
/// work RAM exactly.
pub proof fn lemma_echo_ram(m: MemModel, addr: u16, value: u8)
    requires
        0xE000 <= addr <= 0xFDFF,
    ensures
        m.read(addr) == m.read((addr - 0x2000) as u16),
        m.write(addr, value) == m.write((addr - 0x2000) as u16, value),
{
}

/// Reading back a written address yields the written byte, except where
/// the map says otherwise: the unusable region keeps returning its
/// synthetic byte, and the VRAM bank selector reads back with its upper
/// seven bits set.
pub proof fn lemma_write_read_back(m: MemModel, addr: u16, value: u8)
    requires
        m.wf(),
    ensures
        ({
            let a = crate::memory::echo_fold(addr);
            if 0xFEA0 <= a && a <= 0xFEFF {
                m.write(addr, value).read(addr) == m.read(addr)
            } else if a == VBK_ADDR {
                m.write(addr, value).read(addr) == (0xFEu8 | (value & 0x01))
            } else {
                m.write(addr, value).read(addr) == value
            }
        }),
{
}

/// A write touches only its own (echo-folded) address: any other address
/// reads as before, as long as the write did not move a bank selector,
/// which changes what the banked ranges mean.
pub proof fn lemma_write_frame(m: MemModel, addr: u16, value: u8, other: u16)
    requires
        m.wf(),
        crate::memory::echo_fold(other) != crate::memory::echo_fold(addr),
        crate::memory::echo_fold(addr) != VBK_ADDR,
        crate::memory::echo_fold(addr) != crate::memory::SVBK_ADDR,
    ensures
        m.write(addr, value).read(other) == m.read(other),
{
}

/// A read of the unusable region 0xFEA0..=0xFEFF yields the synthetic
/// byte built from the address's high nibble: n | (n >> 4) where n is
/// addr & 0xF0.
pub proof fn lemma_unusable_read(m: MemModel, addr: u16)
    requires
        0xFEA0 <= addr <= 0xFEFF,
    ensures
        m.read(addr) == ((addr & 0x00F0) as u8 | ((addr & 0x00F0) as u8 >> 4u8)),
{
}

} // verus!
