//! The memory map: echo RAM, the unusable region, bank selectors and the
//! raw flat store.

use gbc_core::memory::Memory;
use gbc_core::registers::Reg16;
use gbc_core::registers::Reg8;
use gbc_core::registers::RegisterFile;

#[test]
fn echo_ram_read_mirrors_wram() {
    let mut mem = Memory::new();
    mem.write(0xC123, 0x42);
    assert_eq!(mem.read(0xE123), 0x42);
}

#[test]
fn echo_ram_write_mirrors_wram() {
    let mut mem = Memory::new();
    mem.write(0xE123, 0x99);
    assert_eq!(mem.read(0xC123), 0x99);
    mem.write(0xFDFF, 0x77);
    assert_eq!(mem.read(0xDDFF), 0x77);
}

#[test]
fn echo_ram_covers_switchable_wram() {
    let mut mem = Memory::new();
    mem.write(0xF000, 0x5A);
    assert_eq!(mem.read(0xD000), 0x5A);
}

#[test]
fn unusable_region_synthetic_bytes() {
    let mem = Memory::new();
    assert_eq!(mem.read(0xFEA0), 0xAA);
    assert_eq!(mem.read(0xFEA5), 0xAA);
    assert_eq!(mem.read(0xFEB3), 0xBB);
    assert_eq!(mem.read(0xFEC7), 0xCC);
    assert_eq!(mem.read(0xFEFF), 0xFF);
}

#[test]
fn vbk_reads_back_with_upper_bits_set() {
    let mut mem = Memory::new();
    assert_eq!(mem.read(0xFF4F), 0xFE);
    mem.write(0xFF4F, 0x01);
    assert_eq!(mem.read(0xFF4F), 0xFF);
    mem.write(0xFF4F, 0x7C);
    assert_eq!(mem.read(0xFF4F), 0xFE);
}

#[test]
fn vram_banks_hold_separate_bytes() {
    let mut mem = Memory::new();
    mem.write(0x8000, 0x11);
    mem.write(0xFF4F, 0x01);
    assert_eq!(mem.read(0x8000), 0x00);
    mem.write(0x8000, 0x22);
    mem.write(0xFF4F, 0x00);
    assert_eq!(mem.read(0x8000), 0x11);
    mem.write(0xFF4F, 0x01);
    assert_eq!(mem.read(0x8000), 0x22);
}

#[test]
fn wram_bank_zero_and_one_are_the_same() {
    let mut mem = Memory::new();
    mem.write(0xFF70, 0x00);
    mem.write(0xD000, 0x33);
    mem.write(0xFF70, 0x01);
    assert_eq!(mem.read(0xD000), 0x33);
}

#[test]
fn wram_banks_switch_by_selector() {
    let mut mem = Memory::new();
    mem.write(0xD000, 0x44);
    mem.write(0xFF70, 0x02);
    assert_eq!(mem.read(0xD000), 0x00);
    mem.write(0xD000, 0x55);
    mem.write(0xFF70, 0x07);
    mem.write(0xD000, 0x66);
    mem.write(0xFF70, 0x01);
    assert_eq!(mem.read(0xD000), 0x44);
    mem.write(0xFF70, 0x0A);
    assert_eq!(mem.read(0xD000), 0x55);
}

#[test]
fn fixed_wram_is_not_banked() {
    let mut mem = Memory::new();
    mem.write(0xC500, 0x12);
    mem.write(0xFF70, 0x05);
    assert_eq!(mem.read(0xC500), 0x12);
}

#[test]
fn flat_store_access_bypasses_overlays() {
    let mut mem = Memory::new();
    mem.set_at(0xFF4F, 0x01);
    assert_eq!(mem.get_at(0xFF4F), 0x01);
    assert_eq!(mem.read(0xFF4F), 0xFF);
    mem.write(0x9000, 0xAB);
    assert_eq!(mem.get_at(0x9000), 0xAB);
}

#[test]
fn pair_write_read_round_trip() {
    let mut rf = RegisterFile::new();
    rf.dwrite(Reg16::BC, 0xBEEF);
    assert_eq!(rf.dread(Reg16::BC), 0xBEEF);
    rf.dwrite(Reg16::DE, 0x1234);
    assert_eq!(rf.dread(Reg16::DE), 0x1234);
    rf.dwrite(Reg16::HL, 0xFFFF);
    assert_eq!(rf.dread(Reg16::HL), 0xFFFF);
}

#[test]
fn af_round_trip_masks_low_nibble() {
    let mut rf = RegisterFile::new();
    rf.dwrite(Reg16::AF, 0x12FF);
    assert_eq!(rf.dread(Reg16::AF), 0x12F0);
    assert_eq!(rf.read(Reg8::F), 0xF0);
}

#[test]
fn f_writes_keep_low_nibble_zero() {
    let mut rf = RegisterFile::new();
    rf.write(Reg8::F, 0xAB);
    assert_eq!(rf.read(Reg8::F), 0xA0);
}
