//! The CPU state: the register file, PC and SP, the CB-prefix latch, the
//! master interrupt enable with its delayed-enable counter, and the HALT /
//! STOP suspension latches.

use vstd::prelude::*;

use crate::instructions::InstructionInfo;
use crate::instructions::cond_holds;
use crate::instructions::wadd16;
use crate::memory::IE_ADDR;
use crate::memory::IF_ADDR;
use crate::memory::MemModel;
use crate::memory::Memory;
use crate::registers::RegisterFile;

verus! {

/// The eleven opcodes of the primary table that are not instructions;
/// fetching one is fatal to the run.
pub open spec fn is_undefined_opcode(op: u8) -> bool {
    op == 0xD3 || op == 0xDB || op == 0xDD || op == 0xE3 || op == 0xE4 || op == 0xEB || op == 0xEC
        || op == 0xED || op == 0xF4 || op == 0xFC || op == 0xFD
}

/// The canonical length table of the primary opcodes: the PC increment in
/// bytes, which is 0 for a taken branch or another instruction that writes
/// PC directly. The flags byte decides taken conditions.
pub open spec fn primary_size(op: u8, f: u8) -> u8 {
    if op >> 6u8 == 0 {
        if op & 0x07 == 0 {
            if (op >> 5u8) & 0x01 == 0 {
                if (op >> 3u8) & 0x03 == 0 {
                    1u8  // NOP
                } else if (op >> 3u8) & 0x03 == 1 {
                    3u8  // LD (imm16), SP
                } else {
                    2u8  // STOP; JR imm8
                }
            } else {
                2u8  // JR cond, imm8
            }
        } else if op & 0x07 == 1 {
            if (op >> 3u8) & 0x01 == 0 {
                3u8  // LD r16, imm16
            } else {
                1u8  // ADD HL, r16
            }
        } else if op & 0x07 == 6 {
            2u8  // LD r8, imm8
        } else {
            1u8  // LD (r16mem); INC/DEC; rotates on A; DAA; CPL; SCF; CCF
        }
    } else if op >> 6u8 == 1 {
        1u8  // LD r8, r8; HALT
    } else if op >> 6u8 == 2 {
        1u8  // ALU A, r8
    } else {
        if op & 0x07 == 0 {
            if (op >> 5u8) & 0x01 == 0 {
                if cond_holds(op, f) {
                    0u8  // RET cond taken
                } else {
                    1u8
                }
            } else {
                2u8  // LDH; ADD SP; LD HL, SP+imm8
            }
        } else if op & 0x07 == 1 {
            if (op >> 3u8) & 0x01 == 0 {
                1u8  // POP
            } else if (op >> 4u8) & 0x03 == 3 {
                1u8  // LD SP, HL
            } else {
                0u8  // RET; RETI; JP HL
            }
        } else if op & 0x07 == 2 {
            if (op >> 5u8) & 0x01 == 0 {
                if cond_holds(op, f) {
                    0u8  // JP cond taken
                } else {
                    3u8
                }
            } else if (op >> 3u8) & 0x03 == 1 || (op >> 3u8) & 0x03 == 3 {
                3u8  // LD (imm16), A; LD A, (imm16)
            } else {
                1u8  // LDH (C), A; LDH A, (C)
            }
        } else if op & 0x07 == 3 {
            if op == 0xC3 {
                0u8  // JP imm16
            } else {
                1u8  // prefix; DI; EI
            }
        } else if op & 0x07 == 4 {
            if cond_holds(op, f) {
                0u8  // CALL cond taken
            } else {
                3u8
            }
        } else if op & 0x07 == 5 {
            if (op >> 3u8) & 0x01 == 0 {
                1u8  // PUSH
            } else {
                0u8  // CALL imm16
            }
        } else if op & 0x07 == 6 {
            2u8  // ALU A, imm8
        } else {
            0u8  // RST
        }
    }
}

/// The canonical machine-cycle table of the primary opcodes; the flags
/// byte decides taken conditions, which cost more than untaken ones.
pub open spec fn primary_cycles(op: u8, f: u8) -> u8 {
    if op >> 6u8 == 0 {
        if op & 0x07 == 0 {
            if (op >> 5u8) & 0x01 == 0 {
                if (op >> 3u8) & 0x03 == 0 {
                    1u8  // NOP
                } else if (op >> 3u8) & 0x03 == 1 {
                    5u8  // LD (imm16), SP
                } else if (op >> 3u8) & 0x03 == 2 {
                    1u8  // STOP
                } else {
                    3u8  // JR imm8
                }
            } else if cond_holds(op, f) {
                3u8  // JR cond taken
            } else {
                2u8
            }
        } else if op & 0x07 == 1 {
            if (op >> 3u8) & 0x01 == 0 {
                3u8  // LD r16, imm16
            } else {
                2u8  // ADD HL, r16
            }
        } else if op & 0x07 == 2 || op & 0x07 == 3 {
            2u8  // LD (r16mem); INC/DEC r16
        } else if op & 0x07 == 4 || op & 0x07 == 5 {
            if (op >> 3u8) & 0x07 == 6 {
                3u8  // INC/DEC (HL)
            } else {
                1u8
            }
        } else if op & 0x07 == 6 {
            if (op >> 3u8) & 0x07 == 6 {
                3u8  // LD (HL), imm8
            } else {
                2u8
            }
        } else {
            1u8  // rotates on A; DAA; CPL; SCF; CCF
        }
    } else if op >> 6u8 == 1 {
        if op == 0x76 {
            1u8  // HALT
        } else if op & 0x07 == 6 || (op >> 3u8) & 0x07 == 6 {
            2u8  // LD through (HL)
        } else {
            1u8
        }
    } else if op >> 6u8 == 2 {
        if op & 0x07 == 6 {
            2u8  // ALU A, (HL)
        } else {
            1u8
        }
    } else {
        if op & 0x07 == 0 {
            if (op >> 5u8) & 0x01 == 0 {
                if cond_holds(op, f) {
                    5u8  // RET cond taken
                } else {
                    2u8
                }
            } else if (op >> 3u8) & 0x03 == 1 {
                4u8  // ADD SP, imm8
            } else {
                3u8  // LDH; LD HL, SP+imm8
            }
        } else if op & 0x07 == 1 {
            if (op >> 3u8) & 0x01 == 0 {
                3u8  // POP
            } else if (op >> 4u8) & 0x03 == 2 {
                1u8  // JP HL
            } else if (op >> 4u8) & 0x03 == 3 {
                2u8  // LD SP, HL
            } else {
                4u8  // RET; RETI
            }
        } else if op & 0x07 == 2 {
            if (op >> 5u8) & 0x01 == 0 {
                if cond_holds(op, f) {
                    4u8  // JP cond taken
                } else {
                    3u8
                }
            } else if (op >> 3u8) & 0x03 == 1 || (op >> 3u8) & 0x03 == 3 {
                4u8  // LD (imm16), A; LD A, (imm16)
            } else {
                2u8  // LDH (C), A; LDH A, (C)
            }
        } else if op & 0x07 == 3 {
            if op == 0xC3 {
                4u8  // JP imm16
            } else {
                1u8  // prefix; DI; EI
            }
        } else if op & 0x07 == 4 {
            if cond_holds(op, f) {
                6u8  // CALL cond taken
            } else {
                3u8
            }
        } else if op & 0x07 == 5 {
            if (op >> 3u8) & 0x01 == 0 {
                4u8  // PUSH
            } else {
                6u8  // CALL imm16
            }
        } else if op & 0x07 == 6 {
            2u8  // ALU A, imm8
        } else {
            4u8  // RST
        }
    }
}

/// The canonical machine-cycle table of the CB-prefixed opcodes: 2 on a
/// register, 4 on the memory byte at HL, except BIT which reads only and
/// costs 3 there.
pub open spec fn cb_cycles(op: u8) -> u8 {
    if op >> 6u8 == 1 {
        if op & 0x07 == 6 {
            3u8  // BIT n, (HL)
        } else {
            2u8
        }
    } else {
        if op & 0x07 == 6 {
            4u8
        } else {
            2u8
        }
    }
}

/// The length of the instruction decoded for `op`: from the CB table when
/// the prefix latch is set (every CB instruction is one byte), from the
/// primary table otherwise.
pub open spec fn instr_size(prefix: bool, op: u8, f: u8) -> u8 {
    if prefix {
        1u8
    } else {
        primary_size(op, f)
    }
}

/// The machine cycles of the instruction decoded for `op`.
pub open spec fn instr_cycles(prefix: bool, op: u8, f: u8) -> u8 {
    if prefix {
        cb_cycles(op)
    } else {
        primary_cycles(op, f)
    }
}

/// Whether the instruction decoded for `op` writes PC directly (a jump,
/// call, return or restart, counting taken conditions only).
pub open spec fn writes_pc(prefix: bool, op: u8, f: u8) -> bool {
    !prefix && (op == 0x18 || (op >> 6u8 == 0 && op & 0x07 == 0 && (op >> 5u8) & 0x01 == 1
        && cond_holds(op, f)) || (op >> 6u8 == 3 && op & 0x07 == 0 && (op >> 5u8) & 0x01 == 0
        && cond_holds(op, f)) || op == 0xC9 || op == 0xD9 || op == 0xE9 || (op >> 6u8 == 3 && op
        & 0x07 == 2 && (op >> 5u8) & 0x01 == 0 && cond_holds(op, f)) || op == 0xC3 || (op >> 6u8
        == 3 && op & 0x07 == 4 && cond_holds(op, f)) || op == 0xCD || (op >> 6u8 == 3 && op & 0x07
        == 7))
}

/// One step of the delayed IME enable: a nonzero request counts down, and
/// IME turns on when it reaches zero.
pub open spec fn ime_tick(p: (bool, u8)) -> (bool, u8) {
    if p.1 == 0 {
        p
    } else if p.1 == 1 {
        (true, 0u8)
    } else {
        (p.0, (p.1 - 1) as u8)
    }
}

/// The IME state right after an instruction executes, before the delayed
/// enable counts down: DI clears both, EI requests 2, RETI requests 1.
pub open spec fn instr_ime(e: bool, r: u8, prefix: bool, op: u8) -> (bool, u8) {
    if prefix {
        (e, r)
    } else if op == 0xF3 {
        (false, 0u8)
    } else if op == 0xFB {
        (e, 2u8)
    } else if op == 0xD9 {
        (e, 1u8)
    } else {
        (e, r)
    }
}

/// The characterization of the undefined opcodes by the decode fields:
/// they are exactly the block-3 holes next to JP/prefix/DI/EI, the
/// would-be CALL cond opcodes with bit 5 set, and the would-be CALL
/// opcodes other than 0xCD.
proof fn lemma_undefined_decode(op: u8)
    ensures
        is_undefined_opcode(op) <==> (op >> 6u8 == 3 && ((op & 0x07 == 3 && !(op == 0xC3 || op
            == 0xCB || op == 0xF3 || op == 0xFB)) || (op & 0x07 == 4 && (op >> 5u8) & 0x01 == 1)
            || (op & 0x07 == 5 && (op >> 3u8) & 0x01 == 1 && op != 0xCD))),
{
    assert((op == 0xD3 || op == 0xDB || op == 0xDD || op == 0xE3 || op == 0xE4 || op == 0xEB || op
        == 0xEC || op == 0xED || op == 0xF4 || op == 0xFC || op == 0xFD) <==> (op >> 6u8 == 3 && ((
    op & 0x07 == 3 && !(op == 0xC3 || op == 0xCB || op == 0xF3 || op == 0xFB)) || (op & 0x07 == 4
        && (op >> 5u8) & 0x01 == 1) || (op & 0x07 == 5 && (op >> 3u8) & 0x01 == 1 && op != 0xCD))))
        by (bit_vector);
}

/// A fatal decode fault: the opcode at `pc` is not a defined instruction.
#[derive(Clone, Copy, Debug, PartialEq, Eq)]
pub struct Fault {
    pub pc: u16,
    pub opcode: u8,
}

pub struct Core {
    pub reg: RegisterFile,
    pub pc: u16,
    pub sp: u16,
    pub prefix_enabled: bool,
    pub ime_enabled: bool,
    pub ime_enable_request: u8,
    pub halted: bool,
    pub stopped: bool,
}

impl Core {
    pub open spec fn wf(&self) -> bool {
        &&& self.reg.wf()
        &&& self.ime_enable_request <= 2
    }

    pub fn new() -> (c: Core)
        ensures
            c == (Core {
                reg: RegisterFile { a: 0u8, f: 0u8, b: 0u8, c: 0u8, d: 0u8, e: 0u8, h: 0u8, l: 0u8 },
                pc: 0u16,
                sp: 0u16,
                prefix_enabled: false,
                ime_enabled: true,
                ime_enable_request: 0u8,
                halted: false,
                stopped: false,
            }),
            c.wf(),
    {
        let c = Core {
            reg: RegisterFile::new(),
            pc: 0,
            sp: 0,
            prefix_enabled: false,
            ime_enabled: true,
            ime_enable_request: 0,
            halted: false,
            stopped: false,
        };
        c
    }

    /// Decodes and executes one opcode of the CB table.
    #[verifier::rlimit(60)]
    fn decode_cb(&mut self, opcode: u8, mem: &mut Memory) -> (info: InstructionInfo)
        requires
            old(self).wf(),
            old(mem).wf(),
            old(self).prefix_enabled,
        ensures
            final(self).wf(),
            final(mem).wf(),
            info.0 == 1,
            info.1 == cb_cycles(opcode),
            info.1 <= 6,
            !final(self).prefix_enabled,
            final(self).ime_enabled == old(self).ime_enabled,
            final(self).ime_enable_request == old(self).ime_enable_request,
            final(self).halted == old(self).halted,
            final(self).stopped == old(self).stopped,
            final(self).pc == old(self).pc,
            ({
                let s = crate::semantics::step_cb(*old(self), old(mem)@, opcode);
                *final(self) == s.0 && final(mem)@ == s.1 && info == s.2
            }),
    {
        match opcode >> 6u8 {
            0 => {
                match (opcode >> 3u8) & 0x07 {
                    0 => self.rlc_r8(opcode, mem),
                    1 => self.rrc_r8(opcode, mem),
                    2 => self.rl_r8(opcode, mem),
                    3 => self.rr_r8(opcode, mem),
                    4 => self.sla_r8(opcode, mem),
                    5 => self.sra_r8(opcode, mem),
                    6 => self.swap_r8(opcode, mem),
                    _ => self.srl_r8(opcode, mem),
                }
            },
            1 => self.bit_b3_r8(opcode, mem),
            2 => self.res_b3_r8(opcode, mem),
            _ => self.set_b3_r8(opcode, mem),
        }
    }

    /// Decodes and executes a primary-table opcode of block 0 (opcode
    /// bits 7..6 equal to 0).
    #[verifier::rlimit(100)]
    fn decode_block0(&mut self, opcode: u8, mem: &mut Memory) -> (r: Result<
        InstructionInfo,
        Fault,
    >)
        requires
            old(self).wf(),
            old(mem).wf(),
            !old(self).prefix_enabled,
            opcode >> 6u8 == 0,
        ensures
            final(self).wf(),
            final(mem).wf(),
            r is Err <==> is_undefined_opcode(opcode),
            r matches Err(fault) ==> fault == (Fault { pc: old(self).pc, opcode }) && *final(self)
                == *old(self) && final(mem)@ == old(mem)@,
            r matches Ok(info) ==> ({
                &&& info.0 == primary_size(opcode, old(self).reg.f)
                &&& info.1 == primary_cycles(opcode, old(self).reg.f)
                &&& info.1 <= 6
                &&& final(self).prefix_enabled == (opcode == 0xCB)
                &&& (final(self).ime_enabled, final(self).ime_enable_request) == instr_ime(
                    old(self).ime_enabled,
                    old(self).ime_enable_request,
                    false,
                    opcode,
                )
                &&& final(self).halted == (old(self).halted || opcode == 0x76)
                &&& final(self).stopped == (old(self).stopped || opcode == 0x10)
                &&& !writes_pc(false, opcode, old(self).reg.f) ==> final(self).pc == old(self).pc
                &&& ({
                    let s = crate::semantics::step_instr(false, *old(self), old(mem)@, opcode);
                    *final(self) == s.0 && final(mem)@ == s.1 && info == s.2
                })
            }),
    {
        proof {
            lemma_undefined_decode(opcode);
            assert((opcode >> 5u8) & 0x01 <= 1 && (opcode >> 3u8) & 0x01 <= 1 && (opcode >> 4u8)
                & 0x03 <= 3 && (opcode >> 3u8) & 0x03 <= 3 && opcode & 0x07 <= 7 && (opcode
                >> 3u8) & 0x07 <= 7) by (bit_vector);
            assert(opcode >> 6u8 == 0 ==> !(opcode == 0x76 || opcode == 0xC3 || opcode == 0xC9
                || opcode == 0xCB || opcode == 0xCD || opcode == 0xD9 || opcode == 0xE9 || opcode
                == 0xF3 || opcode == 0xFB)) by (bit_vector);
            assert((opcode == 0x10 <==> (opcode >> 6u8 == 0 && opcode & 0x07 == 0 && (opcode
                >> 5u8) & 0x01 == 0 && (opcode >> 3u8) & 0x03 == 2)) && (opcode == 0x18 <==> (
            opcode >> 6u8 == 0 && opcode & 0x07 == 0 && (opcode >> 5u8) & 0x01 == 0 && (opcode
                >> 3u8) & 0x03 == 3)) && (opcode >> 3u8) & 0x03 <= 3) by (bit_vector);
        }
        match opcode & 0x07 {
            0 => {
                if (opcode >> 5u8) & 0x01 == 0 {
                    match (opcode >> 3u8) & 0x03 {
                        0 => Ok(self.nop()),
                        1 => Ok(self.ld_imm16_sp(mem)),
                        2 => Ok(self.stop()),
                        _ => Ok(self.jr_imm8(mem)),
                    }
                } else {
                    Ok(self.jr_cond_imm8(opcode, mem))
                }
            },
            1 => {
                if (opcode >> 3u8) & 0x01 == 0 {
                    Ok(self.ld_r16_imm16(opcode, mem))
                } else {
                    Ok(self.add_hl_r16(opcode))
                }
            },
            2 => {
                if (opcode >> 3u8) & 0x01 == 0 {
                    Ok(self.ld_r16mem_a(opcode, mem))
                } else {
                    Ok(self.ld_a_r16mem(opcode, mem))
                }
            },
            3 => {
                if (opcode >> 3u8) & 0x01 == 0 {
                    Ok(self.inc_r16(opcode))
                } else {
                    Ok(self.dec_r16(opcode))
                }
            },
            4 => Ok(self.inc_r8(opcode, mem)),
            5 => Ok(self.dec_r8(opcode, mem)),
            6 => Ok(self.ld_r8_imm8(opcode, mem)),
            _ => {
                match (opcode >> 3u8) & 0x07 {
                    0 => Ok(self.rlca()),
                    1 => Ok(self.rrca()),
                    2 => Ok(self.rla()),
                    3 => Ok(self.rra()),
                    4 => Ok(self.daa()),
                    5 => Ok(self.cpl()),
                    6 => Ok(self.scf()),
                    _ => Ok(self.ccf()),
                }
            },
        }
    }

    /// Decodes and executes a primary-table opcode of block 1 (opcode
    /// bits 7..6 equal to 1).
    #[verifier::rlimit(60)]
    fn decode_block1(&mut self, opcode: u8, mem: &mut Memory) -> (r: Result<
        InstructionInfo,
        Fault,
    >)
        requires
            old(self).wf(),
            old(mem).wf(),
            !old(self).prefix_enabled,
            opcode >> 6u8 == 1,
        ensures
            final(self).wf(),
            final(mem).wf(),
            r is Err <==> is_undefined_opcode(opcode),
            r matches Err(fault) ==> fault == (Fault { pc: old(self).pc, opcode }) && *final(self)
                == *old(self) && final(mem)@ == old(mem)@,
            r matches Ok(info) ==> ({
                &&& info.0 == primary_size(opcode, old(self).reg.f)
                &&& info.1 == primary_cycles(opcode, old(self).reg.f)
                &&& info.1 <= 6
                &&& final(self).prefix_enabled == (opcode == 0xCB)
                &&& (final(self).ime_enabled, final(self).ime_enable_request) == instr_ime(
                    old(self).ime_enabled,
                    old(self).ime_enable_request,
                    false,
                    opcode,
                )
                &&& final(self).halted == (old(self).halted || opcode == 0x76)
                &&& final(self).stopped == (old(self).stopped || opcode == 0x10)
                &&& !writes_pc(false, opcode, old(self).reg.f) ==> final(self).pc == old(self).pc
                &&& ({
                    let s = crate::semantics::step_instr(false, *old(self), old(mem)@, opcode);
                    *final(self) == s.0 && final(mem)@ == s.1 && info == s.2
                })
            }),
    {
        proof {
            lemma_undefined_decode(opcode);
            assert((opcode >> 5u8) & 0x01 <= 1 && (opcode >> 3u8) & 0x01 <= 1 && (opcode >> 4u8)
                & 0x03 <= 3 && (opcode >> 3u8) & 0x03 <= 3 && opcode & 0x07 <= 7 && (opcode
                >> 3u8) & 0x07 <= 7) by (bit_vector);
            assert(opcode >> 6u8 == 1 ==> !(opcode == 0x10 || opcode == 0x18 || opcode == 0xC3
                || opcode == 0xC9 || opcode == 0xCB || opcode == 0xCD || opcode == 0xD9 || opcode
                == 0xE9 || opcode == 0xF3 || opcode == 0xFB)) by (bit_vector);
        }
        if opcode == 0x76 {
            Ok(self.halt())
        } else {
            Ok(self.ld_r8_r8(opcode, mem))
        }
    }

    /// Decodes and executes a primary-table opcode of block 2 (opcode
    /// bits 7..6 equal to 2).
    #[verifier::rlimit(60)]
    fn decode_block2(&mut self, opcode: u8, mem: &mut Memory) -> (r: Result<
        InstructionInfo,
        Fault,
    >)
        requires
            old(self).wf(),
            old(mem).wf(),
            !old(self).prefix_enabled,
            opcode >> 6u8 == 2,
        ensures
            final(self).wf(),
            final(mem).wf(),
            r is Err <==> is_undefined_opcode(opcode),
            r matches Err(fault) ==> fault == (Fault { pc: old(self).pc, opcode }) && *final(self)
                == *old(self) && final(mem)@ == old(mem)@,
            r matches Ok(info) ==> ({
                &&& info.0 == primary_size(opcode, old(self).reg.f)
                &&& info.1 == primary_cycles(opcode, old(self).reg.f)
                &&& info.1 <= 6
                &&& final(self).prefix_enabled == (opcode == 0xCB)
                &&& (final(self).ime_enabled, final(self).ime_enable_request) == instr_ime(
                    old(self).ime_enabled,
                    old(self).ime_enable_request,
                    false,
                    opcode,
                )
                &&& final(self).halted == (old(self).halted || opcode == 0x76)
                &&& final(self).stopped == (old(self).stopped || opcode == 0x10)
                &&& !writes_pc(false, opcode, old(self).reg.f) ==> final(self).pc == old(self).pc
                &&& ({
                    let s = crate::semantics::step_instr(false, *old(self), old(mem)@, opcode);
                    *final(self) == s.0 && final(mem)@ == s.1 && info == s.2
                })
            }),
    {
        proof {
            lemma_undefined_decode(opcode);
            assert((opcode >> 5u8) & 0x01 <= 1 && (opcode >> 3u8) & 0x01 <= 1 && (opcode >> 4u8)
                & 0x03 <= 3 && (opcode >> 3u8) & 0x03 <= 3 && opcode & 0x07 <= 7 && (opcode
                >> 3u8) & 0x07 <= 7) by (bit_vector);
            assert(opcode >> 6u8 == 2 ==> !(opcode == 0x10 || opcode == 0x18 || opcode == 0x76
                || opcode == 0xC3 || opcode == 0xC9 || opcode == 0xCB || opcode == 0xCD || opcode
                == 0xD9 || opcode == 0xE9 || opcode == 0xF3 || opcode == 0xFB)) by (bit_vector);
        }
        match (opcode >> 3u8) & 0x07 {
            0 => Ok(self.add_a_r8(opcode, mem)),
            1 => Ok(self.adc_a_r8(opcode, mem)),
            2 => Ok(self.sub_a_r8(opcode, mem)),
            3 => Ok(self.sbc_a_r8(opcode, mem)),
            4 => Ok(self.and_a_r8(opcode, mem)),
            5 => Ok(self.xor_a_r8(opcode, mem)),
            6 => Ok(self.or_a_r8(opcode, mem)),
            _ => Ok(self.cp_a_r8(opcode, mem)),
        }
    }

    /// Decodes and executes a primary-table opcode of block 3 (opcode
    /// bits 7..6 equal to 3).
    #[verifier::rlimit(100)]
    fn decode_block3(&mut self, opcode: u8, mem: &mut Memory) -> (r: Result<
        InstructionInfo,
        Fault,
    >)
        requires
            old(self).wf(),
            old(mem).wf(),
            !old(self).prefix_enabled,
            opcode >> 6u8 == 3,
        ensures
            final(self).wf(),
            final(mem).wf(),
            r is Err <==> is_undefined_opcode(opcode),
            r matches Err(fault) ==> fault == (Fault { pc: old(self).pc, opcode }) && *final(self)
                == *old(self) && final(mem)@ == old(mem)@,
            r matches Ok(info) ==> ({
                &&& info.0 == primary_size(opcode, old(self).reg.f)
                &&& info.1 == primary_cycles(opcode, old(self).reg.f)
                &&& info.1 <= 6
                &&& final(self).prefix_enabled == (opcode == 0xCB)
                &&& (final(self).ime_enabled, final(self).ime_enable_request) == instr_ime(
                    old(self).ime_enabled,
                    old(self).ime_enable_request,
                    false,
                    opcode,
                )
                &&& final(self).halted == (old(self).halted || opcode == 0x76)
                &&& final(self).stopped == (old(self).stopped || opcode == 0x10)
                &&& !writes_pc(false, opcode, old(self).reg.f) ==> final(self).pc == old(self).pc
                &&& ({
                    let s = crate::semantics::step_instr(false, *old(self), old(mem)@, opcode);
                    *final(self) == s.0 && final(mem)@ == s.1 && info == s.2
                })
            }),
    {
        proof {
            lemma_undefined_decode(opcode);
            assert((opcode >> 5u8) & 0x01 <= 1 && (opcode >> 3u8) & 0x01 <= 1 && (opcode >> 4u8)
                & 0x03 <= 3 && (opcode >> 3u8) & 0x03 <= 3 && opcode & 0x07 <= 7 && (opcode
                >> 3u8) & 0x07 <= 7) by (bit_vector);
            assert(opcode >> 6u8 == 3 ==> !(opcode == 0x10 || opcode == 0x18 || opcode == 0x76))
                by (bit_vector);
            assert((opcode == 0xC3 ==> opcode & 0x07 == 3) && (opcode == 0xCB ==> opcode & 0x07
                == 3) && (opcode == 0xF3 ==> opcode & 0x07 == 3) && (opcode == 0xFB ==> opcode
                & 0x07 == 3) && (opcode == 0xC9 <==> (opcode >> 6u8 == 3 && opcode & 0x07 == 1 && (
            opcode >> 3u8) & 0x01 == 1 && (opcode >> 4u8) & 0x03 == 0)) && (opcode == 0xD9 <==> (
            opcode >> 6u8 == 3 && opcode & 0x07 == 1 && (opcode >> 3u8) & 0x01 == 1 && (opcode
                >> 4u8) & 0x03 == 1)) && (opcode == 0xE9 <==> (opcode >> 6u8 == 3 && opcode & 0x07
                == 1 && (opcode >> 3u8) & 0x01 == 1 && (opcode >> 4u8) & 0x03 == 2)) && (opcode
                == 0xCD ==> opcode & 0x07 == 5 && (opcode >> 3u8) & 0x01 == 1) && opcode & 0x07
                <= 7 && (opcode >> 4u8) & 0x03 <= 3 && (opcode >> 3u8) & 0x03 <= 3)
                by (bit_vector);
        }
        match opcode & 0x07 {
            0 => {
                if (opcode >> 5u8) & 0x01 == 0 {
                    Ok(self.ret_cond(opcode, mem))
                } else {
                    match (opcode >> 3u8) & 0x03 {
                        0 => Ok(self.ldh_imm8_a(mem)),
                        1 => Ok(self.add_sp_imm8(mem)),
                        2 => Ok(self.ldh_a_imm8(mem)),
                        _ => Ok(self.ld_hl_sp_imm8(mem)),
                    }
                }
            },
            1 => {
                if (opcode >> 3u8) & 0x01 == 0 {
                    Ok(self.pop_r16stk(opcode, mem))
                } else {
                    match (opcode >> 4u8) & 0x03 {
                        0 => Ok(self.ret(mem)),
                        1 => Ok(self.reti(mem)),
                        2 => Ok(self.jp_hl()),
                        _ => Ok(self.ld_sp_hl()),
                    }
                }
            },
            2 => {
                if (opcode >> 5u8) & 0x01 == 0 {
                    Ok(self.jp_cond_imm16(opcode, mem))
                } else {
                    match (opcode >> 3u8) & 0x03 {
                        0 => Ok(self.ldh_c_a(mem)),
                        1 => Ok(self.ld_imm16_a(mem)),
                        2 => Ok(self.ldh_a_c(mem)),
                        _ => Ok(self.ld_a_imm16(mem)),
                    }
                }
            },
            3 => {
                if opcode == 0xC3 {
                    Ok(self.jp_imm16(mem))
                } else if opcode == 0xCB {
                    Ok(self.prefix())
                } else if opcode == 0xF3 {
                    Ok(self.di())
                } else if opcode == 0xFB {
                    Ok(self.ei())
                } else {
                    Err(Fault { pc: self.pc, opcode })
                }
            },
            4 => {
                if (opcode >> 5u8) & 0x01 == 0 {
                    Ok(self.call_cond_imm16(opcode, mem))
                } else {
                    Err(Fault { pc: self.pc, opcode })
                }
            },
            5 => {
                if (opcode >> 3u8) & 0x01 == 0 {
                    Ok(self.push_r16stk(opcode, mem))
                } else if opcode == 0xCD {
                    Ok(self.call_imm16(mem))
                } else {
                    Err(Fault { pc: self.pc, opcode })
                }
            },
            6 => {
                match (opcode >> 3u8) & 0x07 {
                    0 => Ok(self.add_a_imm8(mem)),
                    1 => Ok(self.adc_a_imm8(mem)),
                    2 => Ok(self.sub_a_imm8(mem)),
                    3 => Ok(self.sbc_a_imm8(mem)),
                    4 => Ok(self.and_a_imm8(mem)),
                    5 => Ok(self.xor_a_imm8(mem)),
                    6 => Ok(self.or_a_imm8(mem)),
                    _ => Ok(self.cp_a_imm8(mem)),
                }
            },
            _ => Ok(self.rst_tgt3(opcode, mem)),
        }
    }

    /// Decodes and executes one opcode of the primary table, or returns
    /// the fault for an undefined opcode.
    fn decode_primary(&mut self, opcode: u8, mem: &mut Memory) -> (r: Result<
        InstructionInfo,
        Fault,
    >)
        requires
            old(self).wf(),
            old(mem).wf(),
            !old(self).prefix_enabled,
        ensures
            final(self).wf(),
            final(mem).wf(),
            r is Err <==> is_undefined_opcode(opcode),
            r matches Err(fault) ==> fault == (Fault { pc: old(self).pc, opcode }) && *final(self)
                == *old(self) && final(mem)@ == old(mem)@,
            r matches Ok(info) ==> ({
                &&& info.0 == primary_size(opcode, old(self).reg.f)
                &&& info.1 == primary_cycles(opcode, old(self).reg.f)
                &&& info.1 <= 6
                &&& final(self).prefix_enabled == (opcode == 0xCB)
                &&& (final(self).ime_enabled, final(self).ime_enable_request) == instr_ime(
                    old(self).ime_enabled,
                    old(self).ime_enable_request,
                    false,
                    opcode,
                )
                &&& final(self).halted == (old(self).halted || opcode == 0x76)
                &&& final(self).stopped == (old(self).stopped || opcode == 0x10)
                &&& !writes_pc(false, opcode, old(self).reg.f) ==> final(self).pc == old(self).pc
                &&& ({
                    let s = crate::semantics::step_instr(false, *old(self), old(mem)@, opcode);
                    *final(self) == s.0 && final(mem)@ == s.1 && info == s.2
                })
            }),
    {
        proof {
            assert(opcode >> 6u8 == 0 || opcode >> 6u8 == 1 || opcode >> 6u8 == 2 || opcode >> 6u8
                == 3) by (bit_vector);
        }
        match opcode >> 6u8 {
            0 => self.decode_block0(opcode, mem),
            1 => self.decode_block1(opcode, mem),
            2 => self.decode_block2(opcode, mem),
            _ => self.decode_block3(opcode, mem),
        }
    }

    /// Decodes and executes one opcode: in the CB table when the prefix
    /// latch is set, in the primary table otherwise. Returns the
    /// instruction's size and cycles, or the fault for an undefined opcode.
    fn decode_and_execute(&mut self, opcode: u8, mem: &mut Memory) -> (r: Result<
        InstructionInfo,
        Fault,
    >)
        requires
            old(self).wf(),
            old(mem).wf(),
        ensures
            final(self).wf(),
            final(mem).wf(),
            r is Err <==> (!old(self).prefix_enabled && is_undefined_opcode(opcode)),
            r matches Err(fault) ==> fault == (Fault { pc: old(self).pc, opcode }) && *final(self)
                == *old(self) && final(mem)@ == old(mem)@,
            r matches Ok(info) ==> ({
                &&& info.0 == instr_size(old(self).prefix_enabled, opcode, old(self).reg.f)
                &&& info.1 == instr_cycles(old(self).prefix_enabled, opcode, old(self).reg.f)
                &&& info.1 <= 6
                &&& final(self).prefix_enabled == (!old(self).prefix_enabled && opcode == 0xCB)
                &&& (final(self).ime_enabled, final(self).ime_enable_request) == instr_ime(
                    old(self).ime_enabled,
                    old(self).ime_enable_request,
                    old(self).prefix_enabled,
                    opcode,
                )
                &&& final(self).halted == (old(self).halted || (!old(self).prefix_enabled && opcode
                    == 0x76))
                &&& final(self).stopped == (old(self).stopped || (!old(self).prefix_enabled
                    && opcode == 0x10))
                &&& !writes_pc(old(self).prefix_enabled, opcode, old(self).reg.f) ==> final(self).pc
                    == old(self).pc
                &&& ({
                    let s = crate::semantics::step_instr(
                        old(self).prefix_enabled,
                        *old(self),
                        old(mem)@,
                        opcode,
                    );
                    *final(self) == s.0 && final(mem)@ == s.1 && info == s.2
                })
            }),
    {
        if self.prefix_enabled {
            Ok(self.decode_cb(opcode, mem))
        } else {
            self.decode_primary(opcode, mem)
        }
    }

    /// Counts the delayed IME enable down by one step.
    fn update_ime(&mut self)
        requires
            old(self).wf(),
        ensures
            final(self).wf(),
            *final(self) == (Core {
                ime_enabled: ime_tick((old(self).ime_enabled, old(self).ime_enable_request)).0,
                ime_enable_request: ime_tick(
                    (old(self).ime_enabled, old(self).ime_enable_request),
                ).1,
                ..*old(self)
            }),
    {
        if self.ime_enable_request != 0 {
            self.ime_enable_request = self.ime_enable_request - 1;
            if self.ime_enable_request == 0 {
                self.ime_enabled = true;
            }
        }
    }

    /// Runs one instruction step. A stopped CPU only watches for a joypad
    /// interrupt flag; a halted CPU only watches for an interrupt that is
    /// both pending and enabled; otherwise the opcode at PC is decoded and
    /// executed, PC advances by the instruction's size, and the delayed IME
    /// enable counts down. Returns the machine cycles spent, or the fault
    /// for an undefined opcode, on which nothing changes.
    pub fn run_step(&mut self, mem: &mut Memory) -> (r: Result<u8, Fault>)
        requires
            old(self).wf(),
            old(mem).wf(),
        ensures
            final(self).wf(),
            final(mem).wf(),
            r matches Ok(cycles) ==> 1 <= cycles <= 6,
            ({
                let joy = old(mem)@.interrupt_flags() & 0x10 != 0;
                let wake = old(mem)@.interrupt_flags() & old(mem)@.interrupt_enable() & 0x1F != 0;
                let op = old(mem)@.read(old(self).pc);
                let prefix = old(self).prefix_enabled;
                let f = old(self).reg.f;
                if old(self).stopped {
                    &&& r == Ok::<u8, Fault>(1u8)
                    &&& final(mem)@ == old(mem)@
                    &&& *final(self) == (Core { stopped: !joy, ..*old(self) })
                } else if old(self).halted {
                    &&& r == Ok::<u8, Fault>(1u8)
                    &&& final(mem)@ == old(mem)@
                    &&& *final(self) == (Core { halted: !wake, ..*old(self) })
                } else if !prefix && is_undefined_opcode(op) {
                    &&& r == Err::<u8, Fault>(Fault { pc: old(self).pc, opcode: op })
                    &&& final(mem)@ == old(mem)@
                    &&& *final(self) == *old(self)
                } else {
                    &&& r == Ok::<u8, Fault>(instr_cycles(prefix, op, f))
                    &&& final(self).prefix_enabled == (!prefix && op == 0xCB)
                    &&& (final(self).ime_enabled, final(self).ime_enable_request) == ime_tick(
                        instr_ime(old(self).ime_enabled, old(self).ime_enable_request, prefix, op),
                    )
                    &&& !writes_pc(prefix, op, f) ==> final(self).pc == wadd16(
                        old(self).pc,
                        instr_size(prefix, op, f) as u16,
                    )
                    &&& ({
                        let s = crate::semantics::step_instr(prefix, *old(self), old(mem)@, op);
                        final(mem)@ == s.1 && *final(self) == (Core {
                            pc: wadd16(s.0.pc, s.2.0 as u16),
                            ime_enabled: ime_tick((s.0.ime_enabled, s.0.ime_enable_request)).0,
                            ime_enable_request: ime_tick(
                                (s.0.ime_enabled, s.0.ime_enable_request),
                            ).1,
                            ..s.0
                        })
                    })
                }
            }),
    {
        if self.stopped {
            let joy = mem.get_at(IF_ADDR) & 0x10 != 0;
            if joy {
                self.stopped = false;
            }
            return Ok(1);
        }
        if self.halted {
            let wake = mem.get_at(IF_ADDR) & mem.get_at(IE_ADDR) & 0x1F != 0;
            if wake {
                self.halted = false;
            }
            return Ok(1);
        }
        let opcode: u8 = mem.read(self.pc);
        let info = match self.decode_and_execute(opcode, mem) {
            Ok(info) => info,
            Err(fault) => {
                return Err(fault);
            },
        };
        self.pc = self.pc.wrapping_add(info.0 as u16);
        self.update_ime();
        Ok(info.1)
    }

    /// One scheduler service: dispatch the highest-priority pending and
    /// enabled interrupt if the master enable allows it, else run one
    /// instruction step. Returns the master-clock cycles to wait (four per
    /// machine cycle, twenty for an interrupt dispatch), or the decode
    /// fault.
    pub fn tick(&mut self, mem: &mut Memory) -> (r: Result<u8, Fault>)
        requires
            old(self).wf(),
            old(mem).wf(),
        ensures
            final(self).wf(),
            final(mem).wf(),
            r matches Ok(cycles) ==> 4 <= cycles <= 24,
            ({
                let pending = MemModel::pending_of(
                    old(mem)@.interrupt_flags() & old(mem)@.interrupt_enable(),
                );
                let op = old(mem)@.read(old(self).pc);
                let prefix = old(self).prefix_enabled;
                let stepped = !old(self).stopped && !old(self).halted;
                &&& (old(self).ime_enabled ==> (pending matches Some(interrupt) ==> ({
                    let cleared = (old(mem)@.read(IF_ADDR) & !crate::interrupt::interrupt_mask(
                        interrupt,
                    )) as u8;
                    let m3 = old(mem)@.write(IF_ADDR, cleared).write(
                        crate::instructions::wsub16(old(self).sp, 1),
                        crate::registers::hi8(old(self).pc),
                    ).write(
                        crate::instructions::wsub16(old(self).sp, 2),
                        crate::registers::lo8(old(self).pc),
                    );
                    &&& r == Ok::<u8, Fault>(20u8)
                    &&& final(mem)@ == m3
                    &&& *final(self) == (Core {
                        ime_enabled: false,
                        ime_enable_request: 0u8,
                        sp: crate::instructions::wsub16(old(self).sp, 2),
                        pc: crate::interrupt::interrupt_vector(interrupt),
                        halted: false,
                        stopped: false,
                        ..*old(self)
                    })
                })))
                &&& ((pending is None || !old(self).ime_enabled) ==> (r is Err <==> (stepped
                    && !prefix && is_undefined_opcode(op))))
                &&& ((pending is None || !old(self).ime_enabled) && stepped && !(!prefix
                    && is_undefined_opcode(op)) ==> r == Ok::<u8, Fault>(
                    (4 * instr_cycles(prefix, op, old(self).reg.f)) as u8,
                ))
            }),
    {
        let attending = match mem.next_pending_interrupt() {
            Some(interrupt) => self.attend_interrupt(interrupt, mem),
            None => false,
        };
        if attending {
            Ok(20)
        } else {
            match self.run_step(mem) {
                Ok(cycles) => Ok(cycles * 4),
                Err(fault) => Err(fault),
            }
        }
    }
}

} // verus!
