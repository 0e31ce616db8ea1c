use vstd::prelude::*;

verus! {

/// A decoded 16-bit THUMB instruction.
#[derive(Debug, Clone, Copy, PartialEq, Eq, Structural)]
pub enum ThumbInstruction {
    /// Format 1: LSL/LSR/ASR Rd, Rs, #Offset5
    MoveShiftedRegister { op: u8, offset: u8, rs: u8, rd: u8 },
    /// Format 2: ADD/SUB Rd, Rs, Rn/#Offset3
    AddSubtract { sub: bool, immediate: bool, rn_offset: u8, rs: u8, rd: u8 },
    /// Format 3: MOV/CMP/ADD/SUB Rd, #Offset8
    AluImmediate { op: u8, rd: u8, offset: u8 },
    /// Format 4: ALU operations
    AluOperation { op: u8, rs: u8, rd: u8 },
    /// Format 5: hi register operations / branch exchange
    HiRegisterOps { op: u8, h1: bool, h2: bool, rs: u8, rd: u8 },
    /// Format 6: LDR Rd, [PC, #Imm8*4]
    LoadPcRelative { rd: u8, offset: u8 },
    /// Format 7: LDR/STR/LDRB/STRB Rd, [Rb, Ro]
    LoadStoreRegOffset { load: bool, byte: bool, ro: u8, rb: u8, rd: u8 },
    /// Format 8: LDRH/STRH/LDSB/LDSH Rd, [Rb, Ro]
    LoadStoreSignExtended { h: bool, sign: bool, ro: u8, rb: u8, rd: u8 },
    /// Format 9: LDR/STR/LDRB/STRB Rd, [Rb, #Imm5]
    LoadStoreImmOffset { load: bool, byte: bool, offset: u8, rb: u8, rd: u8 },
    /// Format 10: LDRH/STRH Rd, [Rb, #Imm5*2]
    LoadStoreHalfword { load: bool, offset: u8, rb: u8, rd: u8 },
    /// Format 11: LDR/STR Rd, [SP, #Imm8*4]
    LoadStoreSpRelative { load: bool, rd: u8, offset: u8 },
    /// Format 12: ADD Rd, PC/SP, #Imm8*4
    LoadAddress { sp: bool, rd: u8, offset: u8 },
    /// Format 13: ADD/SUB SP, #Imm7*4
    AddOffsetSp { sub: bool, offset: u8 },
    /// Format 14: PUSH/POP
    PushPop { load: bool, r: bool, rlist: u8 },
    /// Format 15: LDMIA/STMIA Rb!, {Rlist}
    LoadStoreMultiple { load: bool, rb: u8, rlist: u8 },
    /// Format 16: B<cond> label
    ConditionalBranch { cond: u8, offset: i8 },
    /// Format 17: SWI #Imm8
    SoftwareInterrupt { comment: u8 },
    /// Format 18: B label
    UnconditionalBranch { offset: i16 },
    /// Format 19: BL label (first or second half)
    LongBranchLink { first_instruction: bool, offset: u16 },
    Undefined,
}

/// Bit `n` of a halfword.
pub open spec fn hbit(i: u16, n: u16) -> bool {
    (i >> n) & 1u16 == 1u16
}

/// The field of `i` that starts at bit `lo`, under mask `mask`.
pub open spec fn hfield(i: u16, lo: u16, mask: u16) -> u8 {
    ((i >> lo) & mask) as u8
}

/// The low byte of `i` read as a signed number.
pub open spec fn signed8(i: u16) -> int {
    let b = i & 0xFF;
    if b >= 0x80 {
        b - 0x100
    } else {
        b as int
    }
}

/// The low eleven bits of `i` read as a signed number.
pub open spec fn signed11(i: u16) -> int {
    let b = i & 0x7FF;
    if b >= 0x400 {
        b - 0x800
    } else {
        b as int
    }
}

/// The instruction that the THUMB opcode `i` encodes.
pub open spec fn decode_thumb_spec(i: u16) -> ThumbInstruction {
    if i & 0xE000 == 0x0000 {
        let op = hfield(i, 11, 0x3);
        if op == 3 {
            ThumbInstruction::AddSubtract {
                sub: hbit(i, 9),
                immediate: hbit(i, 10),
                rn_offset: hfield(i, 6, 0x7),
                rs: hfield(i, 3, 0x7),
                rd: hfield(i, 0, 0x7),
            }
        } else {
            ThumbInstruction::MoveShiftedRegister {
                op,
                offset: hfield(i, 6, 0x1F),
                rs: hfield(i, 3, 0x7),
                rd: hfield(i, 0, 0x7),
            }
        }
    } else if i & 0xE000 == 0x2000 {
        ThumbInstruction::AluImmediate {
            op: hfield(i, 11, 0x3),
            rd: hfield(i, 8, 0x7),
            offset: hfield(i, 0, 0xFF),
        }
    } else if i & 0xFC00 == 0x4000 {
        ThumbInstruction::AluOperation {
            op: hfield(i, 6, 0xF),
            rs: hfield(i, 3, 0x7),
            rd: hfield(i, 0, 0x7),
        }
    } else if i & 0xFC00 == 0x4400 {
        ThumbInstruction::HiRegisterOps {
            op: hfield(i, 8, 0x3),
            h1: hbit(i, 7),
            h2: hbit(i, 6),
            rs: hfield(i, 3, 0x7),
            rd: hfield(i, 0, 0x7),
        }
    } else if i & 0xF800 == 0x4800 {
        ThumbInstruction::LoadPcRelative { rd: hfield(i, 8, 0x7), offset: hfield(i, 0, 0xFF) }
    } else if i & 0xF200 == 0x5000 {
        ThumbInstruction::LoadStoreRegOffset {
            load: hbit(i, 11),
            byte: hbit(i, 10),
            ro: hfield(i, 6, 0x7),
            rb: hfield(i, 3, 0x7),
            rd: hfield(i, 0, 0x7),
        }
    } else if i & 0xF200 == 0x5200 {
        ThumbInstruction::LoadStoreSignExtended {
            h: hbit(i, 11),
            sign: hbit(i, 10),
            ro: hfield(i, 6, 0x7),
            rb: hfield(i, 3, 0x7),
            rd: hfield(i, 0, 0x7),
        }
    } else if i & 0xE000 == 0x6000 {
        ThumbInstruction::LoadStoreImmOffset {
            load: hbit(i, 11),
            byte: hbit(i, 12),
            offset: hfield(i, 6, 0x1F),
            rb: hfield(i, 3, 0x7),
            rd: hfield(i, 0, 0x7),
        }
    } else if i & 0xF000 == 0x8000 {
        ThumbInstruction::LoadStoreHalfword {
            load: hbit(i, 11),
            offset: hfield(i, 6, 0x1F),
            rb: hfield(i, 3, 0x7),
            rd: hfield(i, 0, 0x7),
        }
    } else if i & 0xF000 == 0x9000 {
        ThumbInstruction::LoadStoreSpRelative {
            load: hbit(i, 11),
            rd: hfield(i, 8, 0x7),
            offset: hfield(i, 0, 0xFF),
        }
    } else if i & 0xF000 == 0xA000 {
        ThumbInstruction::LoadAddress {
            sp: hbit(i, 11),
            rd: hfield(i, 8, 0x7),
            offset: hfield(i, 0, 0xFF),
        }
    } else if i & 0xFF00 == 0xB000 {
        ThumbInstruction::AddOffsetSp { sub: hbit(i, 7), offset: hfield(i, 0, 0x7F) }
    } else if i & 0xF600 == 0xB400 {
        ThumbInstruction::PushPop { load: hbit(i, 11), r: hbit(i, 8), rlist: hfield(i, 0, 0xFF) }
    } else if i & 0xF000 == 0xC000 {
        ThumbInstruction::LoadStoreMultiple {
            load: hbit(i, 11),
            rb: hfield(i, 8, 0x7),
            rlist: hfield(i, 0, 0xFF),
        }
    } else if i & 0xFF00 == 0xDF00 {
        ThumbInstruction::SoftwareInterrupt { comment: hfield(i, 0, 0xFF) }
    } else if i & 0xF000 == 0xD000 && hfield(i, 8, 0xF) != 0xF {
        ThumbInstruction::ConditionalBranch { cond: hfield(i, 8, 0xF), offset: signed8(i) as i8 }
    } else if i & 0xF800 == 0xE000 {
        ThumbInstruction::UnconditionalBranch { offset: signed11(i) as i16 }
    } else if i & 0xF000 == 0xF000 {
        ThumbInstruction::LongBranchLink { first_instruction: hbit(i, 11), offset: i & 0x7FF }
    } else {
        ThumbInstruction::Undefined
    }
}

/// Register fields of a decoded instruction name one of R0..R7, and a
/// condition field fits in four bits.
pub open spec fn thumb_fields_valid(d: ThumbInstruction) -> bool {
    match d {
        ThumbInstruction::MoveShiftedRegister { op, offset, rs, rd } => op < 3 && offset < 32 && rs
            < 8 && rd < 8,
        ThumbInstruction::AddSubtract { rn_offset, rs, rd, .. } => rn_offset < 8 && rs < 8 && rd < 8,
        ThumbInstruction::AluImmediate { op, rd, .. } => op < 4 && rd < 8,
        ThumbInstruction::HiRegisterOps { op, rs, rd, .. } => op < 4 && rs < 8 && rd < 8,
        ThumbInstruction::LoadStoreImmOffset { offset, rb, rd, .. } => offset < 32 && rb < 8 && rd
            < 8,
        ThumbInstruction::ConditionalBranch { cond, .. } => cond < 15,
        _ => true,
    }
}

/// Bit `n` of a halfword.
fn b16(i: u16, n: u16) -> (r: bool)
    requires
        n < 16,
    ensures
        r == hbit(i, n),
{
    (i >> n) & 1 == 1
}

/// Field of `i` at bit `lo` under `mask` (at most eight bits wide).
fn hf(i: u16, lo: u16, mask: u16) -> (r: u8)
    requires
        lo < 16,
        mask <= 0xFF,
    ensures
        r == hfield(i, lo, mask),
        r <= mask,
{
    proof {
        crate::bits::lemma_u16_field(i, lo, mask);
    }
    ((i >> lo) & mask) as u8
}

/// Decodes a 16-bit THUMB opcode.
pub fn decode_thumb(instruction: u16) -> (r: ThumbInstruction)
    ensures
        r == decode_thumb_spec(instruction),
        thumb_fields_valid(r),
{
    let i = instruction;
    if (i & 0xE000) == 0x0000 {
        let op = hf(i, 11, 0x3);
        if op == 3 {
            return ThumbInstruction::AddSubtract {
                sub: b16(i, 9),
                immediate: b16(i, 10),
                rn_offset: hf(i, 6, 0x7),
                rs: hf(i, 3, 0x7),
                rd: hf(i, 0, 0x7),
            };
        }
        return ThumbInstruction::MoveShiftedRegister {
            op,
            offset: hf(i, 6, 0x1F),
            rs: hf(i, 3, 0x7),
            rd: hf(i, 0, 0x7),
        };
    }
    if (i & 0xE000) == 0x2000 {
        return ThumbInstruction::AluImmediate {
            op: hf(i, 11, 0x3),
            rd: hf(i, 8, 0x7),
            offset: hf(i, 0, 0xFF),
        };
    }
    if (i & 0xFC00) == 0x4000 {
        return ThumbInstruction::AluOperation {
            op: hf(i, 6, 0xF),
            rs: hf(i, 3, 0x7),
            rd: hf(i, 0, 0x7),
        };
    }
    if (i & 0xFC00) == 0x4400 {
        return ThumbInstruction::HiRegisterOps {
            op: hf(i, 8, 0x3),
            h1: b16(i, 7),
            h2: b16(i, 6),
            rs: hf(i, 3, 0x7),
            rd: hf(i, 0, 0x7),
        };
    }
    if (i & 0xF800) == 0x4800 {
        return ThumbInstruction::LoadPcRelative { rd: hf(i, 8, 0x7), offset: hf(i, 0, 0xFF) };
    }
    if (i & 0xF200) == 0x5000 {
        return ThumbInstruction::LoadStoreRegOffset {
            load: b16(i, 11),
            byte: b16(i, 10),
            ro: hf(i, 6, 0x7),
            rb: hf(i, 3, 0x7),
            rd: hf(i, 0, 0x7),
        };
    }
    if (i & 0xF200) == 0x5200 {
        return ThumbInstruction::LoadStoreSignExtended {
            h: b16(i, 11),
            sign: b16(i, 10),
            ro: hf(i, 6, 0x7),
            rb: hf(i, 3, 0x7),
            rd: hf(i, 0, 0x7),
        };
    }
    if (i & 0xE000) == 0x6000 {
        return ThumbInstruction::LoadStoreImmOffset {
            byte: b16(i, 12),
            load: b16(i, 11),
            offset: hf(i, 6, 0x1F),
            rb: hf(i, 3, 0x7),
            rd: hf(i, 0, 0x7),
        };
    }
    if (i & 0xF000) == 0x8000 {
        return ThumbInstruction::LoadStoreHalfword {
            load: b16(i, 11),
            offset: hf(i, 6, 0x1F),
            rb: hf(i, 3, 0x7),
            rd: hf(i, 0, 0x7),
        };
    }
    if (i & 0xF000) == 0x9000 {
        return ThumbInstruction::LoadStoreSpRelative {
            load: b16(i, 11),
            rd: hf(i, 8, 0x7),
            offset: hf(i, 0, 0xFF),
        };
    }
    if (i & 0xF000) == 0xA000 {
        return ThumbInstruction::LoadAddress {
            sp: b16(i, 11),
            rd: hf(i, 8, 0x7),
            offset: hf(i, 0, 0xFF),
        };
    }
    if (i & 0xFF00) == 0xB000 {
        return ThumbInstruction::AddOffsetSp { sub: b16(i, 7), offset: hf(i, 0, 0x7F) };
    }
    if (i & 0xF600) == 0xB400 {
        return ThumbInstruction::PushPop {
            load: b16(i, 11),
            r: b16(i, 8),
            rlist: hf(i, 0, 0xFF),
        };
    }
    if (i & 0xF000) == 0xC000 {
        return ThumbInstruction::LoadStoreMultiple {
            load: b16(i, 11),
            rb: hf(i, 8, 0x7),
            rlist: hf(i, 0, 0xFF),
        };
    }
    if (i & 0xFF00) == 0xDF00 {
        return ThumbInstruction::SoftwareInterrupt { comment: hf(i, 0, 0xFF) };
    }
    if (i & 0xF000) == 0xD000 {
        let cond = hf(i, 8, 0xF);
        if cond != 0xF {
            let b = i & 0xFF;
            proof {
                crate::bits::lemma_u16_field(i, 0, 0xFF);
            }
            let offset: i8 = if b >= 0x80 {
                ((b as i16) - 0x100) as i8
            } else {
                b as i8
            };
            return ThumbInstruction::ConditionalBranch { cond, offset };
        }
    }
    if (i & 0xF800) == 0xE000 {
        let b = i & 0x7FF;
        proof {
            crate::bits::lemma_u16_field(i, 0, 0x7FF);
        }
        let offset: i16 = if b >= 0x400 {
            (b as i16) - 0x800
        } else {
            b as i16
        };
        return ThumbInstruction::UnconditionalBranch { offset };
    }
    if (i & 0xF000) == 0xF000 {
        return ThumbInstruction::LongBranchLink { first_instruction: b16(i, 11), offset: i & 0x7FF };
    }
    ThumbInstruction::Undefined
}

} // verus!
