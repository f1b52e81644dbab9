//! Instruction stepping: decode faults, sizes and cycles, the CB prefix
//! latch, control flow and the stack.

use gbc_core::cpu::Core;
use gbc_core::memory::Memory;
use gbc_core::registers::Flag;
use gbc_core::registers::Reg16;
use gbc_core::registers::Reg8;

#[test]
fn undefined_opcodes_fault_with_pc_and_opcode() {
    for opcode in [0xD3u8, 0xDB, 0xDD, 0xE3, 0xE4, 0xEB, 0xEC, 0xED, 0xF4, 0xFC, 0xFD] {
        let mut core = Core::new();
        let mut mem = Memory::new();
        core.pc = 0x0100;
        mem.write(0x0100, opcode);
        let fault = core.run_step(&mut mem).unwrap_err();
        assert_eq!(fault.pc, 0x0100);
        assert_eq!(fault.opcode, opcode);
        assert_eq!(core.pc, 0x0100);
    }
}

#[test]
fn nop_takes_one_cycle_and_one_byte() {
    let mut core = Core::new();
    let mut mem = Memory::new();
    let cycles = core.run_step(&mut mem).unwrap();
    assert_eq!(cycles, 1);
    assert_eq!(core.pc, 0x0001);
}

#[test]
fn ld_a_imm8_takes_two_cycles_and_two_bytes() {
    let mut core = Core::new();
    let mut mem = Memory::new();
    mem.write(0x0000, 0x3E);
    mem.write(0x0001, 0x5C);
    let cycles = core.run_step(&mut mem).unwrap();
    assert_eq!(cycles, 2);
    assert_eq!(core.pc, 0x0002);
    assert_eq!(core.reg.read(Reg8::A), 0x5C);
}

#[test]
fn prefix_latch_is_set_then_cleared() {
    let mut core = Core::new();
    let mut mem = Memory::new();
    core.reg.write(Reg8::A, 0xF1);
    mem.write(0x0000, 0xCB);
    mem.write(0x0001, 0x37);
    let cycles = core.run_step(&mut mem).unwrap();
    assert_eq!(cycles, 1);
    assert!(core.prefix_enabled);
    let cycles = core.run_step(&mut mem).unwrap();
    assert_eq!(cycles, 2);
    assert!(!core.prefix_enabled);
    assert_eq!(core.reg.read(Reg8::A), 0x1F);
    assert_eq!(core.pc, 0x0002);
}

#[test]
fn prefix_cleared_after_every_other_instruction() {
    for opcode in [0x00u8, 0x3C, 0x80, 0xC5] {
        let mut core = Core::new();
        let mut mem = Memory::new();
        core.sp = 0xFFFE;
        mem.write(0x0000, opcode);
        core.run_step(&mut mem).unwrap();
        assert!(!core.prefix_enabled);
    }
}

#[test]
fn jr_backwards_with_sign_extension() {
    let mut core = Core::new();
    let mut mem = Memory::new();
    core.pc = 0x0100;
    mem.write(0x0100, 0x18);
    mem.write(0x0101, 0xFE);
    let cycles = core.run_step(&mut mem).unwrap();
    assert_eq!(cycles, 3);
    assert_eq!(core.pc, 0x0100);
}

#[test]
fn jr_conditional_costs_differ() {
    let mut core = Core::new();
    let mut mem = Memory::new();
    core.pc = 0x0200;
    mem.write(0x0200, 0x20);
    mem.write(0x0201, 0x05);
    core.reg.write_flag(Flag::Z, true);
    let cycles = core.run_step(&mut mem).unwrap();
    assert_eq!(cycles, 2);
    assert_eq!(core.pc, 0x0202);
    core.pc = 0x0200;
    core.reg.write_flag(Flag::Z, false);
    let cycles = core.run_step(&mut mem).unwrap();
    assert_eq!(cycles, 3);
    assert_eq!(core.pc, 0x0207);
}

#[test]
fn jp_writes_pc_directly() {
    let mut core = Core::new();
    let mut mem = Memory::new();
    mem.write(0x0000, 0xC3);
    mem.write(0x0001, 0x34);
    mem.write(0x0002, 0x12);
    let cycles = core.run_step(&mut mem).unwrap();
    assert_eq!(cycles, 4);
    assert_eq!(core.pc, 0x1234);
}

#[test]
fn call_pushes_return_address_and_ret_pops_it() {
    let mut core = Core::new();
    let mut mem = Memory::new();
    core.pc = 0x0400;
    core.sp = 0xFFFE;
    mem.write(0x0400, 0xCD);
    mem.write(0x0401, 0x00);
    mem.write(0x0402, 0x20);
    let cycles = core.run_step(&mut mem).unwrap();
    assert_eq!(cycles, 6);
    assert_eq!(core.pc, 0x2000);
    assert_eq!(core.sp, 0xFFFC);
    assert_eq!(mem.read(0xFFFD), 0x04);
    assert_eq!(mem.read(0xFFFC), 0x03);
    mem.write(0x2000, 0xC9);
    let cycles = core.run_step(&mut mem).unwrap();
    assert_eq!(cycles, 4);
    assert_eq!(core.pc, 0x0403);
    assert_eq!(core.sp, 0xFFFE);
}

#[test]
fn rst_jumps_to_fixed_vector() {
    let mut core = Core::new();
    let mut mem = Memory::new();
    core.pc = 0x0300;
    core.sp = 0xFFFE;
    mem.write(0x0300, 0xEF);
    let cycles = core.run_step(&mut mem).unwrap();
    assert_eq!(cycles, 4);
    assert_eq!(core.pc, 0x0028);
    assert_eq!(mem.read(0xFFFD), 0x03);
    assert_eq!(mem.read(0xFFFC), 0x01);
}

#[test]
fn push_and_pop_round_trip_through_stack() {
    let mut core = Core::new();
    let mut mem = Memory::new();
    core.sp = 0xFFFE;
    core.reg.dwrite(Reg16::BC, 0xABCD);
    core.push_r16stk(0xC5, &mut mem);
    assert_eq!(core.sp, 0xFFFC);
    core.pop_r16stk(0xD1, &mem);
    assert_eq!(core.sp, 0xFFFE);
    assert_eq!(core.reg.dread(Reg16::DE), 0xABCD);
}

#[test]
fn pop_af_masks_flag_low_nibble() {
    let mut core = Core::new();
    let mut mem = Memory::new();
    core.sp = 0xFFFC;
    mem.write(0xFFFC, 0xFF);
    mem.write(0xFFFD, 0x12);
    core.pop_r16stk(0xF1, &mem);
    assert_eq!(core.reg.dread(Reg16::AF), 0x12F0);
}

#[test]
fn ret_cond_timing() {
    let mut core = Core::new();
    let mut mem = Memory::new();
    core.pc = 0x0100;
    core.sp = 0xFFFC;
    mem.write(0xFFFC, 0x00);
    mem.write(0xFFFD, 0x30);
    mem.write(0x0100, 0xC0);
    core.reg.write_flag(Flag::Z, true);
    let cycles = core.run_step(&mut mem).unwrap();
    assert_eq!(cycles, 2);
    assert_eq!(core.pc, 0x0101);
    mem.write(0x0101, 0xC0);
    core.reg.write_flag(Flag::Z, false);
    let cycles = core.run_step(&mut mem).unwrap();
    assert_eq!(cycles, 5);
    assert_eq!(core.pc, 0x3000);
}

#[test]
fn ld_hl_loads_through_memory() {
    let mut core = Core::new();
    let mut mem = Memory::new();
    core.reg.dwrite(Reg16::HL, 0xC800);
    mem.write(0xC800, 0x7E);
    mem.write(0x0000, 0x46);
    let cycles = core.run_step(&mut mem).unwrap();
    assert_eq!(cycles, 2);
    assert_eq!(core.reg.read(Reg8::B), 0x7E);
}

#[test]
fn ld_hl_post_increment_and_decrement() {
    let mut core = Core::new();
    let mut mem = Memory::new();
    core.reg.write(Reg8::A, 0x9C);
    core.reg.dwrite(Reg16::HL, 0xC000);
    core.ld_r16mem_a(0x22, &mut mem);
    assert_eq!(mem.read(0xC000), 0x9C);
    assert_eq!(core.reg.dread(Reg16::HL), 0xC001);
    core.ld_a_r16mem(0x3A, &mem);
    assert_eq!(core.reg.dread(Reg16::HL), 0xC000);
    assert_eq!(core.reg.read(Reg8::A), 0x00);
}

#[test]
fn ldh_addresses_high_page() {
    let mut core = Core::new();
    let mut mem = Memory::new();
    core.reg.write(Reg8::A, 0x42);
    core.reg.write(Reg8::C, 0x80);
    core.ldh_c_a(&mut mem);
    assert_eq!(mem.read(0xFF80), 0x42);
    core.reg.write(Reg8::A, 0x00);
    core.ldh_a_c(&mem);
    assert_eq!(core.reg.read(Reg8::A), 0x42);
}

#[test]
fn ld_imm16_sp_stores_both_bytes() {
    let mut core = Core::new();
    let mut mem = Memory::new();
    core.sp = 0xABCD;
    mem.write(0x0000, 0x08);
    mem.write(0x0001, 0x00);
    mem.write(0x0002, 0xC1);
    let cycles = core.run_step(&mut mem).unwrap();
    assert_eq!(cycles, 5);
    assert_eq!(mem.read(0xC100), 0xCD);
    assert_eq!(mem.read(0xC101), 0xAB);
    assert_eq!(core.pc, 0x0003);
}

#[test]
fn ld_hl_sp_offset_and_ld_sp_hl() {
    let mut core = Core::new();
    let mut mem = Memory::new();
    core.sp = 0xFFF8;
    mem.write(0x0000, 0xF8);
    mem.write(0x0001, 0x02);
    core.run_step(&mut mem).unwrap();
    assert_eq!(core.reg.dread(Reg16::HL), 0xFFFA);
    assert_eq!(core.sp, 0xFFF8);
    mem.write(0x0002, 0xF9);
    core.run_step(&mut mem).unwrap();
    assert_eq!(core.sp, 0xFFFA);
}

#[test]
fn sixteen_bit_inc_dec_wrap() {
    let mut core = Core::new();
    core.reg.dwrite(Reg16::BC, 0xFFFF);
    core.inc_r16(0x03);
    assert_eq!(core.reg.dread(Reg16::BC), 0x0000);
    core.dec_r16(0x0B);
    assert_eq!(core.reg.dread(Reg16::BC), 0xFFFF);
}

#[test]
fn alu_memory_operand_costs_extra_cycle() {
    let mut core = Core::new();
    let mut mem = Memory::new();
    core.reg.dwrite(Reg16::HL, 0xC123);
    mem.write(0xC123, 0x07);
    core.reg.write(Reg8::A, 0x01);
    mem.write(0x0000, 0x86);
    let cycles = core.run_step(&mut mem).unwrap();
    assert_eq!(cycles, 2);
    assert_eq!(core.reg.read(Reg8::A), 0x08);
}

#[test]
fn cb_memory_operand_read_modify_write() {
    let mut core = Core::new();
    let mut mem = Memory::new();
    core.reg.dwrite(Reg16::HL, 0xC040);
    mem.write(0xC040, 0x01);
    mem.write(0x0000, 0xCB);
    mem.write(0x0001, 0x06);
    core.run_step(&mut mem).unwrap();
    let cycles = core.run_step(&mut mem).unwrap();
    assert_eq!(cycles, 4);
    assert_eq!(mem.read(0xC040), 0x02);
    assert_eq!(core.pc, 0x0002);
}

#[test]
fn jp_hl_uses_register_value() {
    let mut core = Core::new();
    core.reg.dwrite(Reg16::HL, 0x4567);
    let info_pc_before = core.pc;
    core.jp_hl();
    assert_eq!(core.pc, 0x4567);
    assert_ne!(core.pc, info_pc_before);
}

#[test]
fn halt_opcode_is_not_an_ld() {
    let mut core = Core::new();
    let mut mem = Memory::new();
    mem.write(0x0000, 0x76);
    let cycles = core.run_step(&mut mem).unwrap();
    assert_eq!(cycles, 1);
    assert!(core.halted);
}
