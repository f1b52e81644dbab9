//! Flag and arithmetic behavior of single instructions on concrete values.

use gbc_core::cpu::Core;
use gbc_core::memory::Memory;
use gbc_core::registers::Flag;
use gbc_core::registers::Reg16;
use gbc_core::registers::Reg8;

#[test]
fn adc_half_carry_only() {
    let mut core = Core::new();
    let mem = Memory::new();
    core.reg.write(Reg8::A, 0xE1);
    core.reg.write(Reg8::E, 0x0F);
    core.reg.write_flag(Flag::CY, true);
    core.adc_a_r8(0x8B, &mem);
    assert_eq!(core.reg.read(Reg8::A), 0xF1);
    assert!(!core.reg.read_flag(Flag::Z));
    assert!(core.reg.read_flag(Flag::H));
    assert!(!core.reg.read_flag(Flag::CY));
}

#[test]
fn adc_full_carry_only() {
    let mut core = Core::new();
    let mem = Memory::new();
    core.reg.write(Reg8::A, 0xE1);
    core.reg.write(Reg8::E, 0x3B);
    core.reg.write_flag(Flag::CY, true);
    core.adc_a_r8(0x8B, &mem);
    assert_eq!(core.reg.read(Reg8::A), 0x1D);
    assert!(!core.reg.read_flag(Flag::Z));
    assert!(!core.reg.read_flag(Flag::H));
    assert!(core.reg.read_flag(Flag::CY));
}

#[test]
fn adc_zero_result_both_carries() {
    let mut core = Core::new();
    let mem = Memory::new();
    core.reg.write(Reg8::A, 0xE1);
    core.reg.write(Reg8::E, 0x1E);
    core.reg.write_flag(Flag::CY, true);
    core.adc_a_r8(0x8B, &mem);
    assert_eq!(core.reg.read(Reg8::A), 0x00);
    assert!(core.reg.read_flag(Flag::Z));
    assert!(core.reg.read_flag(Flag::H));
    assert!(core.reg.read_flag(Flag::CY));
}

#[test]
fn sub_equal_operands() {
    let mut core = Core::new();
    let mem = Memory::new();
    core.reg.write(Reg8::A, 0x3E);
    core.reg.write(Reg8::E, 0x3E);
    core.sub_a_r8(0x93, &mem);
    assert_eq!(core.reg.read(Reg8::A), 0x00);
    assert!(core.reg.read_flag(Flag::Z));
    assert!(core.reg.read_flag(Flag::N));
    assert!(!core.reg.read_flag(Flag::H));
    assert!(!core.reg.read_flag(Flag::CY));
}

#[test]
fn sub_half_borrow() {
    let mut core = Core::new();
    let mem = Memory::new();
    core.reg.write(Reg8::A, 0x3E);
    core.reg.write(Reg8::E, 0x0F);
    core.sub_a_r8(0x93, &mem);
    assert_eq!(core.reg.read(Reg8::A), 0x2F);
    assert!(!core.reg.read_flag(Flag::Z));
    assert!(core.reg.read_flag(Flag::N));
    assert!(core.reg.read_flag(Flag::H));
    assert!(!core.reg.read_flag(Flag::CY));
}

#[test]
fn sub_full_borrow() {
    let mut core = Core::new();
    let mem = Memory::new();
    core.reg.write(Reg8::A, 0x3E);
    core.reg.write(Reg8::E, 0x40);
    core.sub_a_r8(0x93, &mem);
    assert_eq!(core.reg.read(Reg8::A), 0xFE);
    assert!(!core.reg.read_flag(Flag::Z));
    assert!(core.reg.read_flag(Flag::N));
    assert!(!core.reg.read_flag(Flag::H));
    assert!(core.reg.read_flag(Flag::CY));
}

#[test]
fn add_hl_bc_half_carry() {
    let mut core = Core::new();
    core.reg.dwrite(Reg16::HL, 0x8A23);
    core.reg.dwrite(Reg16::BC, 0x0605);
    core.add_hl_r16(0x09);
    assert_eq!(core.reg.dread(Reg16::HL), 0x9028);
    assert!(core.reg.read_flag(Flag::H));
    assert!(!core.reg.read_flag(Flag::CY));
}

#[test]
fn add_hl_hl_both_carries() {
    let mut core = Core::new();
    core.reg.dwrite(Reg16::HL, 0x8A23);
    core.add_hl_r16(0x29);
    assert_eq!(core.reg.dread(Reg16::HL), 0x1446);
    assert!(core.reg.read_flag(Flag::H));
    assert!(core.reg.read_flag(Flag::CY));
}

#[test]
fn rlca_rotates_bit7_into_carry() {
    let mut core = Core::new();
    core.reg.write(Reg8::A, 0x85);
    core.rlca();
    assert_eq!(core.reg.read(Reg8::A), 0x0B);
    assert!(core.reg.read_flag(Flag::CY));
    assert!(!core.reg.read_flag(Flag::Z));
    assert!(!core.reg.read_flag(Flag::N));
    assert!(!core.reg.read_flag(Flag::H));
}

#[test]
fn rrca_rotates_bit0_into_carry() {
    let mut core = Core::new();
    core.reg.write(Reg8::A, 0x01);
    core.rrca();
    assert_eq!(core.reg.read(Reg8::A), 0x80);
    assert!(core.reg.read_flag(Flag::CY));
}

#[test]
fn daa_after_addition() {
    let mut core = Core::new();
    let mem = Memory::new();
    core.reg.write(Reg8::A, 0x45);
    core.reg.write(Reg8::B, 0x38);
    core.add_a_r8(0x80, &mem);
    assert_eq!(core.reg.read(Reg8::A), 0x7D);
    core.daa();
    assert_eq!(core.reg.read(Reg8::A), 0x83);
    assert!(!core.reg.read_flag(Flag::CY));
}

#[test]
fn daa_after_subtraction() {
    let mut core = Core::new();
    let mem = Memory::new();
    core.reg.write(Reg8::A, 0x83);
    core.reg.write(Reg8::B, 0x38);
    core.sub_a_r8(0x90, &mem);
    assert_eq!(core.reg.read(Reg8::A), 0x4B);
    core.daa();
    assert_eq!(core.reg.read(Reg8::A), 0x45);
}

#[test]
fn and_sets_half_carry_flag() {
    let mut core = Core::new();
    let mem = Memory::new();
    core.reg.write(Reg8::A, 0x5A);
    core.reg.write(Reg8::L, 0x3F);
    core.and_a_r8(0xA5, &mem);
    assert_eq!(core.reg.read(Reg8::A), 0x1A);
    assert!(core.reg.read_flag(Flag::H));
    assert!(!core.reg.read_flag(Flag::CY));
}

#[test]
fn xor_self_clears_a() {
    let mut core = Core::new();
    let mem = Memory::new();
    core.reg.write(Reg8::A, 0xFF);
    core.xor_a_r8(0xAF, &mem);
    assert_eq!(core.reg.read(Reg8::A), 0x00);
    assert!(core.reg.read_flag(Flag::Z));
}

#[test]
fn cp_leaves_a_unchanged() {
    let mut core = Core::new();
    let mem = Memory::new();
    core.reg.write(Reg8::A, 0x3C);
    core.reg.write(Reg8::B, 0x2F);
    core.cp_a_r8(0xB8, &mem);
    assert_eq!(core.reg.read(Reg8::A), 0x3C);
    assert!(!core.reg.read_flag(Flag::Z));
    assert!(core.reg.read_flag(Flag::H));
    assert!(!core.reg.read_flag(Flag::CY));
}

#[test]
fn inc_preserves_carry() {
    let mut core = Core::new();
    let mut mem = Memory::new();
    core.reg.write_flag(Flag::CY, true);
    core.reg.write(Reg8::B, 0xFF);
    core.inc_r8(0x04, &mut mem);
    assert_eq!(core.reg.read(Reg8::B), 0x00);
    assert!(core.reg.read_flag(Flag::Z));
    assert!(core.reg.read_flag(Flag::H));
    assert!(core.reg.read_flag(Flag::CY));
}

#[test]
fn dec_sets_subtract_flag() {
    let mut core = Core::new();
    let mut mem = Memory::new();
    core.reg.write(Reg8::C, 0x10);
    core.dec_r8(0x0D, &mut mem);
    assert_eq!(core.reg.read(Reg8::C), 0x0F);
    assert!(core.reg.read_flag(Flag::N));
    assert!(core.reg.read_flag(Flag::H));
}

#[test]
fn add_sp_signed_negative_offset() {
    let mut core = Core::new();
    let mut mem = Memory::new();
    core.sp = 0x000A;
    core.pc = 0x0200;
    mem.write(0x0201, 0xFB);
    core.add_sp_imm8(&mem);
    assert_eq!(core.sp, 0x0005);
    assert!(core.reg.read_flag(Flag::H));
    assert!(core.reg.read_flag(Flag::CY));
    assert!(!core.reg.read_flag(Flag::Z));
    assert!(!core.reg.read_flag(Flag::N));
}

#[test]
fn swap_exchanges_nibbles() {
    let mut core = Core::new();
    let mut mem = Memory::new();
    core.reg.write(Reg8::A, 0xF1);
    core.swap_r8(0x37, &mut mem);
    assert_eq!(core.reg.read(Reg8::A), 0x1F);
    assert!(!core.reg.read_flag(Flag::CY));
}

#[test]
fn sra_preserves_sign_bit() {
    let mut core = Core::new();
    let mut mem = Memory::new();
    core.reg.write(Reg8::D, 0x8A);
    core.sra_r8(0x2A, &mut mem);
    assert_eq!(core.reg.read(Reg8::D), 0xC5);
    assert!(!core.reg.read_flag(Flag::CY));
}

#[test]
fn srl_clears_bit7() {
    let mut core = Core::new();
    let mut mem = Memory::new();
    core.reg.write(Reg8::A, 0x81);
    core.srl_r8(0x3F, &mut mem);
    assert_eq!(core.reg.read(Reg8::A), 0x40);
    assert!(core.reg.read_flag(Flag::CY));
}

#[test]
fn bit_test_zero_flag_is_complement() {
    let mut core = Core::new();
    let mut mem = Memory::new();
    core.reg.write(Reg8::A, 0x80);
    core.bit_b3_r8(0x7F, &mut mem);
    assert!(!core.reg.read_flag(Flag::Z));
    core.bit_b3_r8(0x77, &mut mem);
    assert!(core.reg.read_flag(Flag::Z));
    assert!(core.reg.read_flag(Flag::H));
    assert!(!core.reg.read_flag(Flag::N));
}

#[test]
fn res_and_set_on_memory_operand() {
    let mut core = Core::new();
    let mut mem = Memory::new();
    core.reg.dwrite(Reg16::HL, 0xC200);
    mem.write(0xC200, 0xFF);
    core.res_b3_r8(0x9E, &mut mem);
    assert_eq!(mem.read(0xC200), 0xF7);
    core.set_b3_r8(0xDE, &mut mem);
    assert_eq!(mem.read(0xC200), 0xFF);
}

#[test]
fn scf_and_ccf_manipulate_carry() {
    let mut core = Core::new();
    core.scf();
    assert!(core.reg.read_flag(Flag::CY));
    core.ccf();
    assert!(!core.reg.read_flag(Flag::CY));
    core.ccf();
    assert!(core.reg.read_flag(Flag::CY));
}

#[test]
fn cpl_complements_a() {
    let mut core = Core::new();
    core.reg.write(Reg8::A, 0x35);
    core.cpl();
    assert_eq!(core.reg.read(Reg8::A), 0xCA);
}
