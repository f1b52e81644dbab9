//! Interrupt flags, priority, dispatch, and the delayed IME enable.

use gbc_core::cpu::Core;
use gbc_core::interrupt::Interrupt;
use gbc_core::memory::Memory;

#[test]
fn notify_sets_flag_bits() {
    let mut mem = Memory::new();
    mem.notify_interrupt(Interrupt::Timer);
    assert_eq!(mem.get_at(0xFF0F), 0x04);
    mem.notify_interrupt(Interrupt::Joypad);
    assert_eq!(mem.get_at(0xFF0F), 0x14);
}

#[test]
fn pending_respects_enable_mask() {
    let mut mem = Memory::new();
    mem.notify_interrupt(Interrupt::Serial);
    assert!(mem.next_pending_interrupt().is_none());
    mem.write(0xFFFF, 0x08);
    assert!(matches!(mem.next_pending_interrupt(), Some(Interrupt::Serial)));
}

#[test]
fn pending_picks_lowest_bit_first() {
    let mut mem = Memory::new();
    mem.write(0xFFFF, 0x1F);
    mem.notify_interrupt(Interrupt::Joypad);
    mem.notify_interrupt(Interrupt::Lcd);
    assert!(matches!(mem.next_pending_interrupt(), Some(Interrupt::Lcd)));
    mem.notify_interrupt(Interrupt::VBlank);
    assert!(matches!(mem.next_pending_interrupt(), Some(Interrupt::VBlank)));
}

#[test]
fn pending_ignores_bits_above_four() {
    let mut mem = Memory::new();
    mem.write(0xFF0F, 0xE0);
    mem.write(0xFFFF, 0xFF);
    assert!(mem.next_pending_interrupt().is_none());
}

#[test]
fn dispatch_pushes_pc_and_jumps_to_vector() {
    let mut core = Core::new();
    let mut mem = Memory::new();
    mem.write(0xFF0F, 0x05);
    mem.write(0xFFFF, 0x05);
    core.sp = 0xFFFE;
    core.pc = 0x1234;
    let interrupt = mem.next_pending_interrupt().unwrap();
    assert!(matches!(interrupt, Interrupt::VBlank));
    let attended = core.attend_interrupt(interrupt, &mut mem);
    assert!(attended);
    assert_eq!(core.pc, 0x0040);
    assert_eq!(core.sp, 0xFFFC);
    assert_eq!(mem.read(0xFFFD), 0x12);
    assert_eq!(mem.read(0xFFFC), 0x34);
    assert!(!core.ime_enabled);
    assert_eq!(mem.get_at(0xFF0F), 0x04);
}

#[test]
fn dispatch_refused_when_ime_off() {
    let mut core = Core::new();
    let mut mem = Memory::new();
    core.ime_enabled = false;
    core.pc = 0x1234;
    core.sp = 0xFFFE;
    mem.notify_interrupt(Interrupt::Timer);
    mem.write(0xFFFF, 0x04);
    let attended = core.attend_interrupt(Interrupt::Timer, &mut mem);
    assert!(!attended);
    assert_eq!(core.pc, 0x1234);
    assert_eq!(core.sp, 0xFFFE);
    assert_eq!(mem.get_at(0xFF0F), 0x04);
}

#[test]
fn vectors_per_kind() {
    for (kind, vector) in [
        (Interrupt::VBlank, 0x0040u16),
        (Interrupt::Lcd, 0x0048),
        (Interrupt::Timer, 0x0050),
        (Interrupt::Serial, 0x0058),
        (Interrupt::Joypad, 0x0060),
    ] {
        let mut core = Core::new();
        let mut mem = Memory::new();
        core.sp = 0xFFFE;
        assert!(core.attend_interrupt(kind, &mut mem));
        assert_eq!(core.pc, vector);
    }
}

#[test]
fn ei_enables_after_the_following_instruction() {
    let mut core = Core::new();
    let mut mem = Memory::new();
    core.ime_enabled = false;
    mem.write(0x0000, 0xFB);
    mem.write(0x0001, 0x00);
    core.run_step(&mut mem).unwrap();
    assert!(!core.ime_enabled);
    core.run_step(&mut mem).unwrap();
    assert!(core.ime_enabled);
}

#[test]
fn di_disables_at_once() {
    let mut core = Core::new();
    let mut mem = Memory::new();
    mem.write(0x0000, 0xF3);
    core.run_step(&mut mem).unwrap();
    assert!(!core.ime_enabled);
    assert_eq!(core.ime_enable_request, 0);
}

#[test]
fn di_cancels_pending_enable() {
    let mut core = Core::new();
    let mut mem = Memory::new();
    core.ime_enabled = false;
    mem.write(0x0000, 0xFB);
    mem.write(0x0001, 0xF3);
    mem.write(0x0002, 0x00);
    core.run_step(&mut mem).unwrap();
    core.run_step(&mut mem).unwrap();
    core.run_step(&mut mem).unwrap();
    assert!(!core.ime_enabled);
}

#[test]
fn reti_returns_and_enables_ime() {
    let mut core = Core::new();
    let mut mem = Memory::new();
    core.ime_enabled = false;
    core.sp = 0xFFFC;
    mem.write(0xFFFC, 0x34);
    mem.write(0xFFFD, 0x12);
    mem.write(0x0000, 0xD9);
    let cycles = core.run_step(&mut mem).unwrap();
    assert_eq!(cycles, 4);
    assert_eq!(core.pc, 0x1234);
    assert_eq!(core.sp, 0xFFFE);
    assert!(core.ime_enabled);
}

#[test]
fn halt_waits_for_pending_enabled_interrupt() {
    let mut core = Core::new();
    let mut mem = Memory::new();
    core.ime_enabled = false;
    mem.write(0x0000, 0x76);
    core.run_step(&mut mem).unwrap();
    assert!(core.halted);
    assert_eq!(core.pc, 0x0001);
    core.run_step(&mut mem).unwrap();
    assert!(core.halted);
    assert_eq!(core.pc, 0x0001);
    mem.notify_interrupt(Interrupt::Timer);
    core.run_step(&mut mem).unwrap();
    assert!(core.halted);
    mem.write(0xFFFF, 0x04);
    core.run_step(&mut mem).unwrap();
    assert!(!core.halted);
    assert_eq!(core.pc, 0x0001);
}

#[test]
fn stop_waits_for_joypad_flag() {
    let mut core = Core::new();
    let mut mem = Memory::new();
    mem.write(0x0000, 0x10);
    core.run_step(&mut mem).unwrap();
    assert!(core.stopped);
    assert_eq!(core.pc, 0x0002);
    mem.notify_interrupt(Interrupt::Timer);
    core.run_step(&mut mem).unwrap();
    assert!(core.stopped);
    mem.notify_interrupt(Interrupt::Joypad);
    core.run_step(&mut mem).unwrap();
    assert!(!core.stopped);
}

#[test]
fn tick_dispatches_interrupt_before_stepping() {
    let mut core = Core::new();
    let mut mem = Memory::new();
    core.pc = 0x0150;
    core.sp = 0xFFFE;
    mem.notify_interrupt(Interrupt::VBlank);
    mem.write(0xFFFF, 0x01);
    let cycles = core.tick(&mut mem).unwrap();
    assert_eq!(cycles, 20);
    assert_eq!(core.pc, 0x0040);
    assert!(!core.ime_enabled);
}

#[test]
fn tick_surfaces_decode_faults() {
    let mut core = Core::new();
    let mut mem = Memory::new();
    core.pc = 0x0040;
    mem.write(0x0040, 0xED);
    let fault = core.tick(&mut mem).unwrap_err();
    assert_eq!(fault.pc, 0x0040);
    assert_eq!(fault.opcode, 0xED);
}

#[test]
fn tick_runs_a_step_when_nothing_pends() {
    let mut core = Core::new();
    let mut mem = Memory::new();
    mem.write(0x0000, 0x00);
    let cycles = core.tick(&mut mem).unwrap();
    assert_eq!(cycles, 4);
    assert_eq!(core.pc, 0x0001);
}
