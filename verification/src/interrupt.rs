//! The five interrupt kinds, their IF/IE bit masks and dispatch vectors,
//! in priority order: VBlank (bit 0, highest) down to Joypad (bit 4).

use vstd::prelude::*;

use crate::cpu::Core;
use crate::memory::IF_ADDR;
use crate::memory::Memory;
use crate::registers::hi8;
use crate::registers::lo8;

verus! {

/// Dispatch vector of the VBlank interrupt.
pub const INT_VBLANK_ADDR: u16 = 0x0040;

/// Dispatch vector of the LCD interrupt.
pub const INT_LCD_ADDR: u16 = 0x0048;

/// Dispatch vector of the Timer interrupt.
pub const INT_TIMER_ADDR: u16 = 0x0050;

/// Dispatch vector of the Serial interrupt.
pub const INT_SERIAL_ADDR: u16 = 0x0058;

/// Dispatch vector of the Joypad interrupt.
pub const INT_JOYPAD_ADDR: u16 = 0x0060;

#[derive(Clone, Copy)]
pub enum Interrupt {
    VBlank,
    Lcd,
    Timer,
    Serial,
    Joypad,
}

/// The IF/IE bit mask of an interrupt kind; all five masks lie in bits 0..4.
pub open spec fn interrupt_mask(interrupt: Interrupt) -> u8 {
    match interrupt {
        Interrupt::VBlank => 0x01,
        Interrupt::Lcd => 0x02,
        Interrupt::Timer => 0x04,
        Interrupt::Serial => 0x08,
        Interrupt::Joypad => 0x10,
    }
}

/// The dispatch vector an interrupt kind jumps to.
pub open spec fn interrupt_vector(interrupt: Interrupt) -> u16 {
    match interrupt {
        Interrupt::VBlank => INT_VBLANK_ADDR,
        Interrupt::Lcd => INT_LCD_ADDR,
        Interrupt::Timer => INT_TIMER_ADDR,
        Interrupt::Serial => INT_SERIAL_ADDR,
        Interrupt::Joypad => INT_JOYPAD_ADDR,
    }
}

/// The IF/IE bit mask of an interrupt kind.
pub fn mask_of(interrupt: Interrupt) -> (r: u8)
    ensures
        r == interrupt_mask(interrupt),
{
    match interrupt {
        Interrupt::VBlank => 0x01,
        Interrupt::Lcd => 0x02,
        Interrupt::Timer => 0x04,
        Interrupt::Serial => 0x08,
        Interrupt::Joypad => 0x10,
    }
}

/// The dispatch vector an interrupt kind jumps to.
pub fn vector_of(interrupt: Interrupt) -> (r: u16)
    ensures
        r == interrupt_vector(interrupt),
{
    match interrupt {
        Interrupt::VBlank => INT_VBLANK_ADDR,
        Interrupt::Lcd => INT_LCD_ADDR,
        Interrupt::Timer => INT_TIMER_ADDR,
        Interrupt::Serial => INT_SERIAL_ADDR,
        Interrupt::Joypad => INT_JOYPAD_ADDR,
    }
}

impl Core {
    /// Services an interrupt when the master enable is set: clears IME and
    /// any pending enable request, clears the interrupt's IF bit, pushes PC
    /// (high byte at SP-1, low byte at SP-2), and jumps to the interrupt's
    /// vector. Returns whether the interrupt was serviced.
    pub fn attend_interrupt(&mut self, interrupt: Interrupt, mem: &mut Memory) -> (r: bool)
        requires
            old(self).wf(),
            old(mem).wf(),
        ensures
            final(self).wf(),
            final(mem).wf(),
            r == old(self).ime_enabled,
            !old(self).ime_enabled ==> *final(self) == *old(self) && final(mem)@ == old(mem)@,
            old(self).ime_enabled ==> ({
                let cleared = (old(mem)@.read(IF_ADDR) & !interrupt_mask(interrupt)) as u8;
                let m3 = old(mem)@.write(IF_ADDR, cleared).write(
                    crate::instructions::wsub16(old(self).sp, 1),
                    hi8(old(self).pc),
                ).write(crate::instructions::wsub16(old(self).sp, 2), lo8(old(self).pc));
                &&& final(mem)@ == m3
                &&& *final(self) == (Core {
                    ime_enabled: false,
                    ime_enable_request: 0u8,
                    sp: crate::instructions::wsub16(old(self).sp, 2),
                    pc: interrupt_vector(interrupt),
                    halted: false,
                    stopped: false,
                    ..*old(self)
                })
            }),
    {
        if self.ime_enabled {
            self.ime_enabled = false;
            self.ime_enable_request = 0;
            let cleared: u8 = mem.read(IF_ADDR) & !mask_of(interrupt);
            mem.write(IF_ADDR, cleared);
            mem.write(self.sp.wrapping_sub(1), (self.pc / 256) as u8);
            mem.write(self.sp.wrapping_sub(2), (self.pc % 256) as u8);
            self.sp = self.sp.wrapping_sub(2);
            self.pc = vector_of(interrupt);
            self.halted = false;
            self.stopped = false;
            true
        } else {
            false
        }
    }
}

} // verus!
