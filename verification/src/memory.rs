//! The 64 KiB memory map. A flat store backs the whole address space;
//! two VRAM bank images overlay 0x8000-0x9FFF and seven switchable WRAM
//! bank images overlay 0xD000-0xDFFF. Reads and writes of 0xE000-0xFDFF
//! act on the byte 0x2000 below (echo RAM), reads of 0xFEA0-0xFEFF return
//! a synthetic byte, and the VRAM bank selector at 0xFF4F reads back with
//! its upper seven bits set.

use vstd::prelude::*;

use crate::interrupt::Interrupt;
use crate::interrupt::interrupt_mask;

verus! {

broadcast use crate::registers::lemma_and_mask_le;

/// Address of the interrupt flag register.
pub const IF_ADDR: u16 = 0xFF0F;

/// Address of the VRAM bank selector register.
pub const VBK_ADDR: u16 = 0xFF4F;

/// Address of the switchable WRAM bank selector register.
pub const SVBK_ADDR: u16 = 0xFF70;

/// Address of the interrupt enable register.
pub const IE_ADDR: u16 = 0xFFFF;

/// The mathematical model of the memory: the flat store, the two VRAM
/// bank images laid end to end, the seven switchable WRAM bank images
/// laid end to end, and the two active bank indices.
#[verifier::ext_equal]
pub struct MemModel {
    pub fixed: Seq<u8>,
    pub vram: Seq<u8>,
    pub wram_sw: Seq<u8>,
    pub active_vram_bank: int,
    pub active_wram_bank: int,
}

/// Folds an echo-RAM address down to the work-RAM byte it mirrors.
pub open spec fn echo_fold(addr: u16) -> u16 {
    if 0xE000 <= addr && addr <= 0xFDFF {
        (addr - 0x2000) as u16
    } else {
        addr
    }
}

/// The switchable WRAM bank index selected by a value written to 0xFF70:
/// 0 and 1 both select bank 0, larger values select bank value - 1.
pub open spec fn wram_bank_of(value: u8) -> int {
    if value & 0x07 == 0 {
        0int
    } else {
        (value & 0x07) - 1
    }
}

impl MemModel {
    pub open spec fn wf(&self) -> bool {
        &&& self.fixed.len() == 0x10000
        &&& self.vram.len() == 0x4000
        &&& self.wram_sw.len() == 0x7000
        &&& 0 <= self.active_vram_bank < 2
        &&& 0 <= self.active_wram_bank < 7
    }

    /// The byte a read of `addr` yields.
    pub open spec fn read(&self, addr: u16) -> u8 {
        let a = echo_fold(addr);
        if 0x8000 <= a && a <= 0x9FFF {
            self.vram[self.active_vram_bank * 0x2000 + (a - 0x8000)]
        } else if 0xD000 <= a && a <= 0xDFFF {
            self.wram_sw[self.active_wram_bank * 0x1000 + (a - 0xD000)]
        } else if 0xFEA0 <= a && a <= 0xFEFF {
            let n = (a & 0x00F0) as u8;
            n | (n >> 4u8)
        } else if a == VBK_ADDR {
            0xFEu8 | (self.fixed[VBK_ADDR as int] & 0x01)
        } else {
            self.fixed[a as int]
        }
    }

    /// The memory after a write of `value` to `addr`: the folded address
    /// is written through to the flat store, a banked address also updates
    /// the active bank image, and a bank selector switches the active bank.
    pub open spec fn write(&self, addr: u16, value: u8) -> MemModel {
        let a = echo_fold(addr);
        MemModel {
            fixed: self.fixed.update(a as int, value),
            vram: if 0x8000 <= a && a <= 0x9FFF {
                self.vram.update(self.active_vram_bank * 0x2000 + (a - 0x8000), value)
            } else {
                self.vram
            },
            wram_sw: if 0xD000 <= a && a <= 0xDFFF {
                self.wram_sw.update(self.active_wram_bank * 0x1000 + (a - 0xD000), value)
            } else {
                self.wram_sw
            },
            active_vram_bank: if a == VBK_ADDR {
                (value & 0x01) as int
            } else {
                self.active_vram_bank
            },
            active_wram_bank: if a == SVBK_ADDR {
                wram_bank_of(value)
            } else {
                self.active_wram_bank
            },
        }
    }

    /// The highest-priority interrupt kind whose bit is set in `masked`,
    /// bit 0 being the highest priority.
    pub open spec fn pending_of(masked: u8) -> Option<Interrupt> {
        if masked & 0x01 == 0x01 {
            Some(Interrupt::VBlank)
        } else if masked & 0x02 == 0x02 {
            Some(Interrupt::Lcd)
        } else if masked & 0x04 == 0x04 {
            Some(Interrupt::Timer)
        } else if masked & 0x08 == 0x08 {
            Some(Interrupt::Serial)
        } else if masked & 0x10 == 0x10 {
            Some(Interrupt::Joypad)
        } else {
            None
        }
    }

    /// The interrupt flag register as stored.
    pub open spec fn interrupt_flags(&self) -> u8 {
        self.fixed[IF_ADDR as int]
    }

    /// The interrupt enable register as stored.
    pub open spec fn interrupt_enable(&self) -> u8 {
        self.fixed[IE_ADDR as int]
    }
}

pub struct Memory {
    pub fixed: Vec<u8>,
    pub vram: Vec<u8>,
    pub wram_sw: Vec<u8>,
    pub active_vram_bank: usize,
    pub active_wram_bank: usize,
}

impl View for Memory {
    type V = MemModel;

    open spec fn view(&self) -> MemModel {
        MemModel {
            fixed: self.fixed@,
            vram: self.vram@,
            wram_sw: self.wram_sw@,
            active_vram_bank: self.active_vram_bank as int,
            active_wram_bank: self.active_wram_bank as int,
        }
    }
}

impl Memory {
    pub open spec fn wf(&self) -> bool {
        self@.wf()
    }

    pub fn new() -> (m: Memory)
        ensures
            m.wf(),
            m@.fixed == Seq::new(0x10000, |i: int| 0u8),
            m@.vram == Seq::new(0x4000, |i: int| 0u8),
            m@.wram_sw == Seq::new(0x7000, |i: int| 0u8),
            m@.active_vram_bank == 0,
            m@.active_wram_bank == 0,
    {
        let m = Memory {
            fixed: vec![0u8; 0x10000],
            vram: vec![0u8; 0x4000],
            wram_sw: vec![0u8; 0x7000],
            active_vram_bank: 0,
            active_wram_bank: 0,
        };
        proof {
            assert(m@.fixed =~= Seq::new(0x10000, |i: int| 0u8));
            assert(m@.vram =~= Seq::new(0x4000, |i: int| 0u8));
            assert(m@.wram_sw =~= Seq::new(0x7000, |i: int| 0u8));
        }
        m
    }

    pub fn read(&self, addr: u16) -> (r: u8)
        requires
            self.wf(),
        ensures
            r == self@.read(addr),
    {
        let a: u16 = if 0xE000 <= addr && addr <= 0xFDFF {
            addr - 0x2000
        } else {
            addr
        };
        if 0x8000 <= a && a <= 0x9FFF {
            let idx: usize = self.active_vram_bank * 0x2000 + (a as usize - 0x8000);
            self.vram[idx]
        } else if 0xD000 <= a && a <= 0xDFFF {
            let idx: usize = self.active_wram_bank * 0x1000 + (a as usize - 0xD000);
            self.wram_sw[idx]
        } else if 0xFEA0 <= a && a <= 0xFEFF {
            let n: u8 = (a & 0x00F0) as u8;
            n | (n >> 4u8)
        } else if a == VBK_ADDR {
            0xFE | (self.fixed[VBK_ADDR as usize] & 0x01)
        } else {
            self.fixed[a as usize]
        }
    }

    pub fn write(&mut self, addr: u16, value: u8)
        requires
            old(self).wf(),
        ensures
            final(self).wf(),
            final(self)@ == old(self)@.write(addr, value),
    {
        let a: u16 = if 0xE000 <= addr && addr <= 0xFDFF {
            addr - 0x2000
        } else {
            addr
        };
        if 0x8000 <= a && a <= 0x9FFF {
            let idx: usize = self.active_vram_bank * 0x2000 + (a as usize - 0x8000);
            self.vram.set(idx, value);
        }
        if 0xD000 <= a && a <= 0xDFFF {
            let idx: usize = self.active_wram_bank * 0x1000 + (a as usize - 0xD000);
            self.wram_sw.set(idx, value);
        }
        if a == VBK_ADDR {
            self.active_vram_bank = (value & 0x01) as usize;
        }
        if a == SVBK_ADDR {
            let sel: usize = (value & 0x07) as usize;
            self.active_wram_bank = if sel != 0 {
                sel - 1
            } else {
                0
            };
        }
        self.fixed.set(a as usize, value);
        proof {
            assert(self@ =~= old(self)@.write(addr, value));
        }
    }

    /// The byte of the flat store at `addr`, with no overlay applied.
    pub fn get_at(&self, addr: u16) -> (r: u8)
        requires
            self.wf(),
        ensures
            r == self@.fixed[addr as int],
    {
        self.fixed[addr as usize]
    }

    /// Stores a byte into the flat store at `addr`, with no overlay applied.
    pub fn set_at(&mut self, addr: u16, value: u8)
        requires
            old(self).wf(),
        ensures
            final(self).wf(),
            final(self)@ == (MemModel { fixed: old(self)@.fixed.update(addr as int, value), ..old(self)@ }),
    {
        self.fixed.set(addr as usize, value);
        proof {
            assert(self@ =~= (MemModel { fixed: old(self)@.fixed.update(addr as int, value), ..old(self)@ }));
        }
    }

    /// The highest-priority interrupt kind that is both pending in IF and
    /// enabled in IE, if any.
    pub fn next_pending_interrupt(&self) -> (r: Option<Interrupt>)
        requires
            self.wf(),
        ensures
            r == MemModel::pending_of(self@.interrupt_flags() & self@.interrupt_enable()),
    {
        let masked: u8 = self.fixed[IF_ADDR as usize] & self.fixed[IE_ADDR as usize];
        if masked & 0x01 == 0x01 {
            Some(Interrupt::VBlank)
        } else if masked & 0x02 == 0x02 {
            Some(Interrupt::Lcd)
        } else if masked & 0x04 == 0x04 {
            Some(Interrupt::Timer)
        } else if masked & 0x08 == 0x08 {
            Some(Interrupt::Serial)
        } else if masked & 0x10 == 0x10 {
            Some(Interrupt::Joypad)
        } else {
            None
        }
    }

    /// Sets the IF bit of the given interrupt kind.
    pub fn notify_interrupt(&mut self, interrupt: Interrupt)
        requires
            old(self).wf(),
        ensures
            final(self).wf(),
            final(self)@ == (MemModel {
                fixed: old(self)@.fixed.update(
                    IF_ADDR as int,
                    old(self)@.interrupt_flags() | interrupt_mask(interrupt),
                ),
                ..old(self)@
            }),
    {
        let mask: u8 = match interrupt {
            Interrupt::VBlank => 0x01,
            Interrupt::Lcd => 0x02,
            Interrupt::Timer => 0x04,
            Interrupt::Serial => 0x08,
            Interrupt::Joypad => 0x10,
        };
        let b: u8 = self.fixed[IF_ADDR as usize] | mask;
        self.fixed.set(IF_ADDR as usize, b);
        proof {
            assert(self@ =~= (MemModel {
                fixed: old(self)@.fixed.update(
                    IF_ADDR as int,
                    old(self)@.interrupt_flags() | interrupt_mask(interrupt),
                ),
                ..old(self)@
            }));
        }
    }
}

} // verus!
