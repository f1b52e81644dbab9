//! The instruction set's semantics in one place: for every opcode, the CPU
//! and memory after executing it, together with its size and cycle count.
//! The decoder is proved to realize exactly these transitions.

use vstd::prelude::*;

use crate::cpu::Core;
use crate::instructions::InstructionInfo;
use crate::instructions::add_core;
use crate::instructions::adc_core;
use crate::instructions::alu_cycles;
use crate::instructions::alu_src;
use crate::instructions::and_core;
use crate::instructions::cond_holds;
use crate::instructions::cp_core;
use crate::instructions::daa_core;
use crate::instructions::imm16_at;
use crate::instructions::imm8_at;
use crate::instructions::or_core;
use crate::instructions::r16f;
use crate::instructions::r16stk;
use crate::instructions::r8_field;
use crate::instructions::rl_val;
use crate::instructions::rlc_val;
use crate::instructions::rr_val;
use crate::instructions::rrc_val;
use crate::instructions::rst_target;
use crate::instructions::sbc_core;
use crate::instructions::sign_ext8;
use crate::instructions::sra_val;
use crate::instructions::sub_core;
use crate::instructions::swap_val;
use crate::instructions::w16f;
use crate::instructions::w16stk;
use crate::instructions::w8_field;
use crate::instructions::wadd16;
use crate::instructions::wadd8;
use crate::instructions::wsub16;
use crate::instructions::wsub8;
use crate::instructions::xor_core;
use crate::memory::MemModel;
use crate::registers::Reg16;
use crate::registers::RegisterFile;
use crate::registers::flag_cy;
use crate::registers::flag_z;
use crate::registers::flags_to_byte;
use crate::registers::hi8;
use crate::registers::lo8;
use crate::registers::pack16;
use crate::registers::r16;
use crate::registers::w16;

verus! {

/// The transition of a CALL to the immediate target: the return address is
/// pushed (high byte at SP-1, low at SP-2) before the target bytes are
/// fetched, so a call whose stack overlaps its own operand reads the
/// pushed bytes.
pub open spec fn call_step(c: Core, m: MemModel) -> (Core, MemModel, InstructionInfo) {
    let ra = wadd16(c.pc, 3);
    let m2 = m.write(wsub16(c.sp, 1), hi8(ra)).write(wsub16(c.sp, 2), lo8(ra));
    (
        Core {
            pc: pack16(m2.read(wadd16(c.pc, 2)), m2.read(wadd16(c.pc, 1))),
            sp: wsub16(c.sp, 2),
            ..c
        },
        m2,
        InstructionInfo(0, 6),
    )
}

/// The transition of a return: PC is popped low byte first and SP rises by
/// two; `cycles` distinguishes RET, RETI and a taken RET cond.
pub open spec fn ret_step(c: Core, m: MemModel, cycles: u8) -> (Core, MemModel, InstructionInfo) {
    (
        Core { pc: pack16(m.read(wadd16(c.sp, 1)), m.read(c.sp)), sp: wadd16(c.sp, 2), ..c },
        m,
        InstructionInfo(0, cycles),
    )
}

/// The transitions of block 0 of the primary table (opcode bits 7..6 zero).
pub open spec fn step_block0(c: Core, m: MemModel, op: u8) -> (Core, MemModel, InstructionInfo) {
    if op & 0x07 == 0 {
        if (op >> 5u8) & 0x01 == 0 {
            if (op >> 3u8) & 0x03 == 0 {
                (c, m, InstructionInfo(1, 1))  // NOP
            } else if (op >> 3u8) & 0x03 == 1 {
                let addr = imm16_at(c, m);  // LD (imm16), SP
                (
                    c,
                    m.write(addr, lo8(c.sp)).write(wadd16(addr, 1), hi8(c.sp)),
                    InstructionInfo(3, 5),
                )
            } else if (op >> 3u8) & 0x03 == 2 {
                (Core { stopped: true, ..c }, m, InstructionInfo(2, 1))  // STOP
            } else {
                (
                    Core { pc: wadd16(c.pc, sign_ext8(imm8_at(c, m))), ..c },
                    m,
                    InstructionInfo(2, 3),
                )  // JR imm8
            }
        } else if cond_holds(op, c.reg.f) {
            (Core { pc: wadd16(c.pc, sign_ext8(imm8_at(c, m))), ..c }, m, InstructionInfo(2, 3))
        } else {
            (c, m, InstructionInfo(2, 2))  // JR cond untaken
        }
    } else if op & 0x07 == 1 {
        if (op >> 3u8) & 0x01 == 0 {
            (w16f(c, (op >> 4u8) & 0x03, imm16_at(c, m)), m, InstructionInfo(3, 3))
        } else {
            let hl = r16(c.reg, Reg16::HL);  // ADD HL, r16
            let v = r16f(c, (op >> 4u8) & 0x03);
            let r = wadd16(hl, v);
            (
                Core {
                    reg: RegisterFile {
                        h: hi8(r),
                        l: lo8(r),
                        f: flags_to_byte(
                            flag_z(c.reg.f),
                            false,
                            (hl & 0x0FFF) + (v & 0x0FFF) > 0x0FFF,
                            hl + v > 0xFFFF,
                        ),
                        ..c.reg
                    },
                    ..c
                },
                m,
                InstructionInfo(1, 2),
            )
        }
    } else if op & 0x07 == 2 {
        let field = (op >> 4u8) & 0x03;
        let hl = r16(c.reg, Reg16::HL);
        if (op >> 3u8) & 0x01 == 0 {
            // LD (r16mem), A
            if field == 0 {
                (c, m.write(r16(c.reg, Reg16::BC), c.reg.a), InstructionInfo(1, 2))
            } else if field == 1 {
                (c, m.write(r16(c.reg, Reg16::DE), c.reg.a), InstructionInfo(1, 2))
            } else if field == 2 {
                (
                    Core { reg: w16(c.reg, Reg16::HL, wadd16(hl, 1)), ..c },
                    m.write(hl, c.reg.a),
                    InstructionInfo(1, 2),
                )
            } else {
                (
                    Core { reg: w16(c.reg, Reg16::HL, wsub16(hl, 1)), ..c },
                    m.write(hl, c.reg.a),
                    InstructionInfo(1, 2),
                )
            }
        } else {
            // LD A, (r16mem)
            if field == 0 {
                (
                    Core { reg: (RegisterFile { a: m.read(r16(c.reg, Reg16::BC)), ..c.reg }), ..c },
                    m,
                    InstructionInfo(1, 2),
                )
            } else if field == 1 {
                (
                    Core { reg: (RegisterFile { a: m.read(r16(c.reg, Reg16::DE)), ..c.reg }), ..c },
                    m,
                    InstructionInfo(1, 2),
                )
            } else if field == 2 {
                (
                    Core {
                        reg: w16(RegisterFile { a: m.read(hl), ..c.reg }, Reg16::HL, wadd16(hl, 1)),
                        ..c
                    },
                    m,
                    InstructionInfo(1, 2),
                )
            } else {
                (
                    Core {
                        reg: w16(RegisterFile { a: m.read(hl), ..c.reg }, Reg16::HL, wsub16(hl, 1)),
                        ..c
                    },
                    m,
                    InstructionInfo(1, 2),
                )
            }
        }
    } else if op & 0x07 == 3 {
        let field = (op >> 4u8) & 0x03;
        if (op >> 3u8) & 0x01 == 0 {
            (w16f(c, field, wadd16(r16f(c, field), 1)), m, InstructionInfo(1, 2))
        } else {
            (w16f(c, field, wsub16(r16f(c, field), 1)), m, InstructionInfo(1, 2))
        }
    } else if op & 0x07 == 4 {
        let field = (op >> 3u8) & 0x07;  // INC r8
        let hl = r16(c.reg, Reg16::HL);
        let v = if field == 6 {
            m.read(hl)
        } else {
            r8_field(c.reg, field)
        };
        let r = wadd8(v, 1);
        let f2 = flags_to_byte(r == 0, false, (v & 0x0F) + 1 > 0x0F, flag_cy(c.reg.f));
        if field == 6 {
            (
                Core { reg: (RegisterFile { f: f2, ..c.reg }), ..c },
                m.write(hl, r),
                InstructionInfo(1, 3),
            )
        } else {
            (
                Core { reg: (RegisterFile { f: f2, ..w8_field(c.reg, field, r) }), ..c },
                m,
                InstructionInfo(1, 1),
            )
        }
    } else if op & 0x07 == 5 {
        let field = (op >> 3u8) & 0x07;  // DEC r8
        let hl = r16(c.reg, Reg16::HL);
        let v = if field == 6 {
            m.read(hl)
        } else {
            r8_field(c.reg, field)
        };
        let r = wsub8(v, 1);
        let f2 = flags_to_byte(r == 0, true, (v & 0x0F) < 1, flag_cy(c.reg.f));
        if field == 6 {
            (
                Core { reg: (RegisterFile { f: f2, ..c.reg }), ..c },
                m.write(hl, r),
                InstructionInfo(1, 3),
            )
        } else {
            (
                Core { reg: (RegisterFile { f: f2, ..w8_field(c.reg, field, r) }), ..c },
                m,
                InstructionInfo(1, 1),
            )
        }
    } else if op & 0x07 == 6 {
        let field = (op >> 3u8) & 0x07;  // LD r8, imm8
        let imm = imm8_at(c, m);
        if field == 6 {
            (c, m.write(r16(c.reg, Reg16::HL), imm), InstructionInfo(2, 3))
        } else {
            (Core { reg: w8_field(c.reg, field, imm), ..c }, m, InstructionInfo(2, 2))
        }
    } else {
        let f3 = (op >> 3u8) & 0x07;
        if f3 == 0 {
            (
                Core {
                    reg: (RegisterFile {
                        a: rlc_val(c.reg.a),
                        f: flags_to_byte(false, false, false, c.reg.a >> 7u8 == 1),
                        ..c.reg
                    }),
                    ..c
                },
                m,
                InstructionInfo(1, 1),
            )
        } else if f3 == 1 {
            (
                Core {
                    reg: (RegisterFile {
                        a: rrc_val(c.reg.a),
                        f: flags_to_byte(false, false, false, c.reg.a & 0x01 == 1),
                        ..c.reg
                    }),
                    ..c
                },
                m,
                InstructionInfo(1, 1),
            )
        } else if f3 == 2 {
            (
                Core {
                    reg: (RegisterFile {
                        a: rl_val(c.reg.a, flag_cy(c.reg.f)),
                        f: flags_to_byte(false, false, false, c.reg.a >> 7u8 == 1),
                        ..c.reg
                    }),
                    ..c
                },
                m,
                InstructionInfo(1, 1),
            )
        } else if f3 == 3 {
            (
                Core {
                    reg: (RegisterFile {
                        a: rr_val(c.reg.a, flag_cy(c.reg.f)),
                        f: flags_to_byte(false, false, false, c.reg.a & 0x01 == 1),
                        ..c.reg
                    }),
                    ..c
                },
                m,
                InstructionInfo(1, 1),
            )
        } else if f3 == 4 {
            (daa_core(c), m, InstructionInfo(1, 1))
        } else if f3 == 5 {
            (
                Core {
                    reg: (RegisterFile {
                        a: !c.reg.a,
                        f: flags_to_byte(flag_z(c.reg.f), false, false, flag_cy(c.reg.f)),
                        ..c.reg
                    }),
                    ..c
                },
                m,
                InstructionInfo(1, 1),
            )
        } else if f3 == 6 {
            (
                Core {
                    reg: (RegisterFile {
                        f: flags_to_byte(flag_z(c.reg.f), false, false, true),
                        ..c.reg
                    }),
                    ..c
                },
                m,
                InstructionInfo(1, 1),
            )
        } else {
            (
                Core {
                    reg: (RegisterFile {
                        f: flags_to_byte(flag_z(c.reg.f), false, false, !flag_cy(c.reg.f)),
                        ..c.reg
                    }),
                    ..c
                },
                m,
                InstructionInfo(1, 1),
            )
        }
    }
}

/// The transitions of block 1 of the primary table: LD r8, r8 and HALT.
pub open spec fn step_block1(c: Core, m: MemModel, op: u8) -> (Core, MemModel, InstructionInfo) {
    if op == 0x76 {
        (Core { halted: true, ..c }, m, InstructionInfo(1, 1))
    } else {
        let src = op & 0x07;
        let dst = (op >> 3u8) & 0x07;
        let hl = r16(c.reg, Reg16::HL);
        if src == 6 {
            (Core { reg: w8_field(c.reg, dst, m.read(hl)), ..c }, m, InstructionInfo(1, 2))
        } else if dst == 6 {
            (c, m.write(hl, r8_field(c.reg, src)), InstructionInfo(1, 2))
        } else {
            (
                Core { reg: w8_field(c.reg, dst, r8_field(c.reg, src)), ..c },
                m,
                InstructionInfo(1, 1),
            )
        }
    }
}

/// The transitions of block 2 of the primary table: the eight ALU
/// operations on A against a register or the byte at HL.
pub open spec fn step_block2(c: Core, m: MemModel, op: u8) -> (Core, MemModel, InstructionInfo) {
    let v = alu_src(c, m, op);
    let info = InstructionInfo(1, alu_cycles(op));
    let f3 = (op >> 3u8) & 0x07;
    if f3 == 0 {
        (add_core(c, v), m, info)
    } else if f3 == 1 {
        (adc_core(c, v), m, info)
    } else if f3 == 2 {
        (sub_core(c, v), m, info)
    } else if f3 == 3 {
        (sbc_core(c, v), m, info)
    } else if f3 == 4 {
        (and_core(c, v), m, info)
    } else if f3 == 5 {
        (xor_core(c, v), m, info)
    } else if f3 == 6 {
        (or_core(c, v), m, info)
    } else {
        (cp_core(c, v), m, info)
    }
}

/// The transitions of block 3 of the primary table: control flow, the
/// stack, the high page, SP arithmetic, IME, and ALU against an immediate.
/// The undefined opcodes of this block fault instead; their case here is a
/// placeholder that the decoder never exposes.
pub open spec fn step_block3(c: Core, m: MemModel, op: u8) -> (Core, MemModel, InstructionInfo) {
    if op & 0x07 == 0 {
        if (op >> 5u8) & 0x01 == 0 {
            if cond_holds(op, c.reg.f) {
                ret_step(c, m, 5)
            } else {
                (c, m, InstructionInfo(1, 2))
            }
        } else {
            let f43 = (op >> 3u8) & 0x03;
            if f43 == 0 {
                (c, m.write((0xFF00 + imm8_at(c, m)) as u16, c.reg.a), InstructionInfo(2, 3))
            } else if f43 == 1 {
                let imm = imm8_at(c, m);  // ADD SP, imm8
                (
                    Core {
                        sp: wadd16(c.sp, sign_ext8(imm)),
                        reg: (RegisterFile {
                            f: flags_to_byte(
                                false,
                                false,
                                (c.sp & 0x000F) + (imm & 0x0F) > 0x0F,
                                (c.sp & 0x00FF) + imm > 0xFF,
                            ),
                            ..c.reg
                        }),
                        ..c
                    },
                    m,
                    InstructionInfo(2, 4),
                )
            } else if f43 == 2 {
                (
                    Core {
                        reg: (RegisterFile {
                            a: m.read((0xFF00 + imm8_at(c, m)) as u16),
                            ..c.reg
                        }),
                        ..c
                    },
                    m,
                    InstructionInfo(2, 3),
                )
            } else {
                let imm = imm8_at(c, m);  // LD HL, SP + imm8
                let r = wadd16(c.sp, sign_ext8(imm));
                (
                    Core {
                        reg: (RegisterFile {
                            h: hi8(r),
                            l: lo8(r),
                            f: flags_to_byte(
                                false,
                                false,
                                (c.sp & 0x000F) + (imm & 0x0F) > 0x0F,
                                (c.sp & 0x00FF) + imm > 0xFF,
                            ),
                            ..c.reg
                        }),
                        ..c
                    },
                    m,
                    InstructionInfo(2, 3),
                )
            }
        }
    } else if op & 0x07 == 1 {
        if (op >> 3u8) & 0x01 == 0 {
            let v = pack16(m.read(wadd16(c.sp, 1)), m.read(c.sp));  // POP
            (
                Core { sp: wadd16(c.sp, 2), ..w16stk(c, (op >> 4u8) & 0x03, v) },
                m,
                InstructionInfo(1, 3),
            )
        } else {
            let f54 = (op >> 4u8) & 0x03;
            if f54 == 0 {
                ret_step(c, m, 4)
            } else if f54 == 1 {
                ret_step(Core { ime_enable_request: 1u8, ..c }, m, 4)  // RETI
            } else if f54 == 2 {
                (Core { pc: r16(c.reg, Reg16::HL), ..c }, m, InstructionInfo(0, 1))
            } else {
                (Core { sp: r16(c.reg, Reg16::HL), ..c }, m, InstructionInfo(1, 2))
            }
        }
    } else if op & 0x07 == 2 {
        if (op >> 5u8) & 0x01 == 0 {
            if cond_holds(op, c.reg.f) {
                (Core { pc: imm16_at(c, m), ..c }, m, InstructionInfo(0, 4))
            } else {
                (c, m, InstructionInfo(3, 3))
            }
        } else {
            let f43 = (op >> 3u8) & 0x03;
            if f43 == 0 {
                (c, m.write((0xFF00 + c.reg.c) as u16, c.reg.a), InstructionInfo(1, 2))
            } else if f43 == 1 {
                (c, m.write(imm16_at(c, m), c.reg.a), InstructionInfo(3, 4))
            } else if f43 == 2 {
                (
                    Core {
                        reg: (RegisterFile { a: m.read((0xFF00 + c.reg.c) as u16), ..c.reg }),
                        ..c
                    },
                    m,
                    InstructionInfo(1, 2),
                )
            } else {
                (
                    Core { reg: (RegisterFile { a: m.read(imm16_at(c, m)), ..c.reg }), ..c },
                    m,
                    InstructionInfo(3, 4),
                )
            }
        }
    } else if op & 0x07 == 3 {
        if op == 0xC3 {
            (Core { pc: imm16_at(c, m), ..c }, m, InstructionInfo(0, 4))
        } else if op == 0xCB {
            (Core { prefix_enabled: true, ..c }, m, InstructionInfo(1, 1))
        } else if op == 0xF3 {
            (Core { ime_enabled: false, ime_enable_request: 0u8, ..c }, m, InstructionInfo(1, 1))
        } else if op == 0xFB {
            (Core { ime_enable_request: 2u8, ..c }, m, InstructionInfo(1, 1))
        } else {
            (c, m, InstructionInfo(0, 0))
        }
    } else if op & 0x07 == 4 {
        if cond_holds(op, c.reg.f) {
            call_step(c, m)
        } else {
            (c, m, InstructionInfo(3, 3))
        }
    } else if op & 0x07 == 5 {
        if (op >> 3u8) & 0x01 == 0 {
            let v = r16stk(c, (op >> 4u8) & 0x03);  // PUSH
            (
                Core { sp: wsub16(c.sp, 2), ..c },
                m.write(wsub16(c.sp, 1), hi8(v)).write(wsub16(c.sp, 2), lo8(v)),
                InstructionInfo(1, 4),
            )
        } else if op == 0xCD {
            call_step(c, m)
        } else {
            (c, m, InstructionInfo(0, 0))
        }
    } else if op & 0x07 == 6 {
        let v = imm8_at(c, m);
        let info = InstructionInfo(2, 2);
        let f3 = (op >> 3u8) & 0x07;
        if f3 == 0 {
            (add_core(c, v), m, info)
        } else if f3 == 1 {
            (adc_core(c, v), m, info)
        } else if f3 == 2 {
            (sub_core(c, v), m, info)
        } else if f3 == 3 {
            (sbc_core(c, v), m, info)
        } else if f3 == 4 {
            (and_core(c, v), m, info)
        } else if f3 == 5 {
            (xor_core(c, v), m, info)
        } else if f3 == 6 {
            (or_core(c, v), m, info)
        } else {
            (cp_core(c, v), m, info)
        }
    } else {
        let ra = wadd16(c.pc, 1);  // RST
        (
            Core { pc: rst_target(op), sp: wsub16(c.sp, 2), ..c },
            m.write(wsub16(c.sp, 1), hi8(ra)).write(wsub16(c.sp, 2), lo8(ra)),
            InstructionInfo(0, 4),
        )
    }
}

/// The transitions of the CB-prefixed table: rotates, shifts, SWAP, BIT,
/// RES and SET on a register or the byte at HL; every one clears the
/// prefix latch.
pub open spec fn step_cb(c: Core, m: MemModel, op: u8) -> (Core, MemModel, InstructionInfo) {
    let field = op & 0x07;
    let hl = r16(c.reg, Reg16::HL);
    let b = if field == 6 {
        m.read(hl)
    } else {
        r8_field(c.reg, field)
    };
    let n = (op >> 3u8) & 0x07;
    if op >> 6u8 == 0 {
        let r = if n == 0 {
            rlc_val(b)
        } else if n == 1 {
            rrc_val(b)
        } else if n == 2 {
            rl_val(b, flag_cy(c.reg.f))
        } else if n == 3 {
            rr_val(b, flag_cy(c.reg.f))
        } else if n == 4 {
            (b << 1u8) as u8
        } else if n == 5 {
            sra_val(b)
        } else if n == 6 {
            swap_val(b)
        } else {
            (b >> 1u8) as u8
        };
        let cy = if n == 0 || n == 2 || n == 4 {
            b >> 7u8 == 1
        } else if n == 6 {
            false
        } else {
            b & 0x01 == 1
        };
        let f2 = flags_to_byte(r == 0, false, false, cy);
        if field == 6 {
            (
                Core { reg: (RegisterFile { f: f2, ..c.reg }), prefix_enabled: false, ..c },
                m.write(hl, r),
                InstructionInfo(1, 4),
            )
        } else {
            (
                Core {
                    reg: (RegisterFile { f: f2, ..w8_field(c.reg, field, r) }),
                    prefix_enabled: false,
                    ..c
                },
                m,
                InstructionInfo(1, 2),
            )
        }
    } else if op >> 6u8 == 1 {
        let f2 = flags_to_byte((b >> n) & 0x01 == 0, false, true, flag_cy(c.reg.f));
        (
            Core { reg: (RegisterFile { f: f2, ..c.reg }), prefix_enabled: false, ..c },
            m,
            InstructionInfo(
                1,
                if field == 6 {
                    3u8
                } else {
                    2u8
                },
            ),
        )
    } else {
        let r = if op >> 6u8 == 2 {
            (b & !(1u8 << n)) as u8
        } else {
            (b | (1u8 << n)) as u8
        };
        if field == 6 {
            (
                Core { prefix_enabled: false, ..c },
                m.write(hl, r),
                InstructionInfo(1, 4),
            )
        } else {
            (
                Core { reg: w8_field(c.reg, field, r), prefix_enabled: false, ..c },
                m,
                InstructionInfo(1, 2),
            )
        }
    }
}

/// The transition of the instruction decoded for `op`: from the CB table
/// when the prefix latch is set, from the primary table otherwise.
pub open spec fn step_instr(prefix: bool, c: Core, m: MemModel, op: u8) -> (
    Core,
    MemModel,
    InstructionInfo,
) {
    if prefix {
        step_cb(c, m, op)
    } else if op >> 6u8 == 0 {
        step_block0(c, m, op)
    } else if op >> 6u8 == 1 {
        step_block1(c, m, op)
    } else if op >> 6u8 == 2 {
        step_block2(c, m, op)
    } else {
        step_block3(c, m, op)
    }
}

} // verus!
