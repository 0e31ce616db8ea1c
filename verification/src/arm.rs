use vstd::prelude::*;
use crate::registers::bit_of;

verus! {

/// Data-processing opcodes (bits 24..21 of an ARM data-processing instruction).
pub const DP_AND: u8 = 0x0;
pub const DP_EOR: u8 = 0x1;
pub const DP_SUB: u8 = 0x2;
pub const DP_RSB: u8 = 0x3;
pub const DP_ADD: u8 = 0x4;
pub const DP_ADC: u8 = 0x5;
pub const DP_SBC: u8 = 0x6;
pub const DP_RSC: u8 = 0x7;
pub const DP_TST: u8 = 0x8;
pub const DP_TEQ: u8 = 0x9;
pub const DP_CMP: u8 = 0xA;
pub const DP_CMN: u8 = 0xB;
pub const DP_ORR: u8 = 0xC;
pub const DP_MOV: u8 = 0xD;
pub const DP_BIC: u8 = 0xE;
pub const DP_MVN: u8 = 0xF;

/// Condition codes of ARM instructions (bits 31..28 of an opcode).
#[derive(Debug, Clone, Copy, PartialEq, Eq, Structural)]
pub enum Condition {
    EQ,
    NE,
    CS,
    CC,
    MI,
    PL,
    VS,
    VC,
    HI,
    LS,
    GE,
    LT,
    GT,
    LE,
    AL,
}

/// The condition encoded by the four-bit field `c` (the reserved code 0xF
/// is taken as "always").
pub open spec fn condition_of_code(c: u32) -> Condition {
    if c == 0 {
        Condition::EQ
    } else if c == 1 {
        Condition::NE
    } else if c == 2 {
        Condition::CS
    } else if c == 3 {
        Condition::CC
    } else if c == 4 {
        Condition::MI
    } else if c == 5 {
        Condition::PL
    } else if c == 6 {
        Condition::VS
    } else if c == 7 {
        Condition::VC
    } else if c == 8 {
        Condition::HI
    } else if c == 9 {
        Condition::LS
    } else if c == 10 {
        Condition::GE
    } else if c == 11 {
        Condition::LT
    } else if c == 12 {
        Condition::GT
    } else if c == 13 {
        Condition::LE
    } else {
        Condition::AL
    }
}

/// Whether condition `c` holds under the flags of `cpsr`.
pub open spec fn condition_holds(c: Condition, cpsr: u32) -> bool {
    let n = bit_of(cpsr, 31);
    let z = bit_of(cpsr, 30);
    let cf = bit_of(cpsr, 29);
    let v = bit_of(cpsr, 28);
    match c {
        Condition::EQ => z,
        Condition::NE => !z,
        Condition::CS => cf,
        Condition::CC => !cf,
        Condition::MI => n,
        Condition::PL => !n,
        Condition::VS => v,
        Condition::VC => !v,
        Condition::HI => cf && !z,
        Condition::LS => !cf || z,
        Condition::GE => n == v,
        Condition::LT => n != v,
        Condition::GT => !z && n == v,
        Condition::LE => z || n != v,
        Condition::AL => true,
    }
}

/// The NZCV flags of a status word are its bits 31, 30, 29 and 28.
proof fn lemma_flag_bits(cpsr: u32)
    by (bit_vector)
    ensures
        bit_of(cpsr, 31) == (cpsr & 0x8000_0000 != 0),
        bit_of(cpsr, 30) == (cpsr & 0x4000_0000 != 0),
        bit_of(cpsr, 29) == (cpsr & 0x2000_0000 != 0),
        bit_of(cpsr, 28) == (cpsr & 0x1000_0000 != 0),
{
}

/// The ARM condition codes over the flags N (bit 31), Z (bit 30), C (bit
/// 29) and V (bit 28) of `cpsr`: EQ is Z, NE not Z, CS is C, CC not C, MI
/// is N, PL not N, VS is V, VC not V, HI is C and not Z, LS not C or Z, GE
/// is N = V, LT N != V, GT is not Z and N = V, LE is Z or N != V, and AL
/// always holds; and the four-bit condition field of an instruction names
/// them in that order, codes 0 (EQ) to 14 (AL).
pub proof fn lemma_condition_codes(cpsr: u32)
    ensures
        ({
            let n = cpsr & 0x8000_0000 != 0;
            let z = cpsr & 0x4000_0000 != 0;
            let c = cpsr & 0x2000_0000 != 0;
            let v = cpsr & 0x1000_0000 != 0;
            &&& condition_holds(Condition::EQ, cpsr) == z
            &&& condition_holds(Condition::NE, cpsr) == !z
            &&& condition_holds(Condition::CS, cpsr) == c
            &&& condition_holds(Condition::CC, cpsr) == !c
            &&& condition_holds(Condition::MI, cpsr) == n
            &&& condition_holds(Condition::PL, cpsr) == !n
            &&& condition_holds(Condition::VS, cpsr) == v
            &&& condition_holds(Condition::VC, cpsr) == !v
            &&& condition_holds(Condition::HI, cpsr) == (c && !z)
            &&& condition_holds(Condition::LS, cpsr) == (!c || z)
            &&& condition_holds(Condition::GE, cpsr) == (n == v)
            &&& condition_holds(Condition::LT, cpsr) == (n != v)
            &&& condition_holds(Condition::GT, cpsr) == (!z && n == v)
            &&& condition_holds(Condition::LE, cpsr) == (z || n != v)
            &&& condition_holds(Condition::AL, cpsr)
        }),
        ({
            let n = cpsr & 0x8000_0000 != 0;
            let z = cpsr & 0x4000_0000 != 0;
            let c = cpsr & 0x2000_0000 != 0;
            let v = cpsr & 0x1000_0000 != 0;
            &&& condition_holds(condition_of_code(0), cpsr) == z
            &&& condition_holds(condition_of_code(1), cpsr) == !z
            &&& condition_holds(condition_of_code(2), cpsr) == c
            &&& condition_holds(condition_of_code(3), cpsr) == !c
            &&& condition_holds(condition_of_code(4), cpsr) == n
            &&& condition_holds(condition_of_code(5), cpsr) == !n
            &&& condition_holds(condition_of_code(6), cpsr) == v
            &&& condition_holds(condition_of_code(7), cpsr) == !v
            &&& condition_holds(condition_of_code(8), cpsr) == (c && !z)
            &&& condition_holds(condition_of_code(9), cpsr) == (!c || z)
            &&& condition_holds(condition_of_code(10), cpsr) == (n == v)
            &&& condition_holds(condition_of_code(11), cpsr) == (n != v)
            &&& condition_holds(condition_of_code(12), cpsr) == (!z && n == v)
            &&& condition_holds(condition_of_code(13), cpsr) == (z || n != v)
            &&& condition_holds(condition_of_code(14), cpsr)
        }),
{
    lemma_flag_bits(cpsr);
}

/// The status word whose flags are N, Z, C and V, other bits clear.
pub open spec fn flags_word(n: bool, z: bool, c: bool, v: bool) -> u32 {
    (if n {
        0x8000_0000u32
    } else {
        0u32
    }) | (if z {
        0x4000_0000u32
    } else {
        0u32
    }) | (if c {
        0x2000_0000u32
    } else {
        0u32
    }) | (if v {
        0x1000_0000u32
    } else {
        0u32
    })
}

/// `x` read as a signed 32-bit number.
pub open spec fn signed32(x: u32) -> int {
    if x >= 0x8000_0000 {
        x - 0x1_0000_0000
    } else {
        x as int
    }
}

/// The flags that comparing `a` with `b` (CMP: `a - b`) leaves: N the sign
/// of the 32-bit difference, Z whether it is zero, C that no borrow
/// occurred (`a >= b` unsigned), V that the signed difference overflowed.
pub open spec fn compare_flags(a: u32, b: u32) -> u32 {
    let r = (a - b) % 0x1_0000_0000;
    let d = signed32(a) - signed32(b);
    flags_word(r >= 0x8000_0000, r == 0, a >= b, d < -0x8000_0000 || d > 0x7FFF_FFFF)
}

proof fn lemma_flags_word_bits(n: bool, z: bool, c: bool, v: bool)
    by (bit_vector)
    ensures
        flags_word(n, z, c, v) & 0x8000_0000 != 0 <==> n,
        flags_word(n, z, c, v) & 0x4000_0000 != 0 <==> z,
        flags_word(n, z, c, v) & 0x2000_0000 != 0 <==> c,
        flags_word(n, z, c, v) & 0x1000_0000 != 0 <==> v,
{
}

/// After comparing `a` with `b`, each condition says what its name says of
/// the two numbers: EQ a = b, NE a != b, CS/HS a >= b and CC/LO a < b
/// unsigned, HI a > b and LS a <= b unsigned, GE a >= b, LT a < b, GT a > b
/// and LE a <= b signed.
pub proof fn lemma_conditions_after_compare(a: u32, b: u32)
    ensures
        condition_holds(Condition::EQ, compare_flags(a, b)) == (a == b),
        condition_holds(Condition::NE, compare_flags(a, b)) == (a != b),
        condition_holds(Condition::CS, compare_flags(a, b)) == (a >= b),
        condition_holds(Condition::CC, compare_flags(a, b)) == (a < b),
        condition_holds(Condition::HI, compare_flags(a, b)) == (a > b),
        condition_holds(Condition::LS, compare_flags(a, b)) == (a <= b),
        condition_holds(Condition::GE, compare_flags(a, b)) == (signed32(a) >= signed32(b)),
        condition_holds(Condition::LT, compare_flags(a, b)) == (signed32(a) < signed32(b)),
        condition_holds(Condition::GT, compare_flags(a, b)) == (signed32(a) > signed32(b)),
        condition_holds(Condition::LE, compare_flags(a, b)) == (signed32(a) <= signed32(b)),
{
    let r = (a - b) % 0x1_0000_0000;
    let d = signed32(a) - signed32(b);
    let n = r >= 0x8000_0000;
    let z = r == 0;
    let v = d < -0x8000_0000 || d > 0x7FFF_FFFF;
    lemma_flags_word_bits(n, z, a >= b, v);
    lemma_condition_codes(compare_flags(a, b));
    if a >= b {
        assert(r == a - b);
    } else {
        assert(r == a - b + 0x1_0000_0000);
    }
    assert(d == a - b || d == a - b + 0x1_0000_0000 || d == a - b - 0x1_0000_0000);
    assert(z == (a == b));
    assert((n == v) == (d >= 0));
}

impl Condition {
    pub fn from_opcode(opcode: u32) -> (r: Condition)
        ensures
            r == condition_of_code((opcode >> 28) & 0xF),
    {
        let c = (opcode >> 28) & 0xF;
        if c == 0 {
            Condition::EQ
        } else if c == 1 {
            Condition::NE
        } else if c == 2 {
            Condition::CS
        } else if c == 3 {
            Condition::CC
        } else if c == 4 {
            Condition::MI
        } else if c == 5 {
            Condition::PL
        } else if c == 6 {
            Condition::VS
        } else if c == 7 {
            Condition::VC
        } else if c == 8 {
            Condition::HI
        } else if c == 9 {
            Condition::LS
        } else if c == 10 {
            Condition::GE
        } else if c == 11 {
            Condition::LT
        } else if c == 12 {
            Condition::GT
        } else if c == 13 {
            Condition::LE
        } else {
            Condition::AL
        }
    }

    /// Whether the instruction runs under the flags of `cpsr`.
    pub fn check(&self, cpsr: u32) -> (r: bool)
        ensures
            r == condition_holds(*self, cpsr),
    {
        let n = crate::registers::get_bit(cpsr, 31);
        let z = crate::registers::get_bit(cpsr, 30);
        let c = crate::registers::get_bit(cpsr, 29);
        let v = crate::registers::get_bit(cpsr, 28);
        match self {
            Condition::EQ => z,
            Condition::NE => !z,
            Condition::CS => c,
            Condition::CC => !c,
            Condition::MI => n,
            Condition::PL => !n,
            Condition::VS => v,
            Condition::VC => !v,
            Condition::HI => c && !z,
            Condition::LS => !c || z,
            Condition::GE => n == v,
            Condition::LT => n != v,
            Condition::GT => !z && n == v,
            Condition::LE => z || n != v,
            Condition::AL => true,
        }
    }
}

/// A decoded ARM instruction.
#[derive(Debug, Clone, Copy, PartialEq, Eq, Structural)]
pub enum ArmInstruction {
    DataProcessing { opcode: u8, set_flags: bool, rn: u8, rd: u8, operand2: u32, immediate: bool },
    Branch { link: bool, offset: i32 },
    BranchExchange { rn: u8 },
    SingleDataTransfer {
        load: bool,
        byte: bool,
        pre_index: bool,
        add: bool,
        writeback: bool,
        rn: u8,
        rd: u8,
        offset: u32,
        immediate: bool,
    },
    BlockDataTransfer {
        load: bool,
        pre_index: bool,
        add: bool,
        writeback: bool,
        psr: bool,
        rn: u8,
        register_list: u16,
    },
    Multiply { accumulate: bool, set_flags: bool, rd: u8, rn: u8, rs: u8, rm: u8 },
    SWI { comment: u32 },
    Undefined,
}

/// The four-bit register field of `i` that starts at bit `lo`.
pub open spec fn reg_field(i: u32, lo: u32) -> u8 {
    ((i >> lo) & 0xF) as u8
}

/// The branch displacement in bytes: the signed 24-bit field times four.
pub open spec fn branch_offset(i: u32) -> int {
    let imm = i & 0x00FF_FFFF;
    if imm >= 0x80_0000 {
        (imm - 0x100_0000) * 4
    } else {
        imm * 4
    }
}

/// The instruction that the ARM opcode `i` encodes.
pub open spec fn decode_arm_spec(i: u32) -> ArmInstruction {
    if i & 0x0FFF_FFF0 == 0x012F_FF10 {
        ArmInstruction::BranchExchange { rn: reg_field(i, 0) }
    } else if i & 0x0FC0_00F0 == 0x0000_0090 {
        ArmInstruction::Multiply {
            accumulate: bit_of(i, 21),
            set_flags: bit_of(i, 20),
            rd: reg_field(i, 16),
            rn: reg_field(i, 12),
            rs: reg_field(i, 8),
            rm: reg_field(i, 0),
        }
    } else if i & 0x0C00_0000 == 0 {
        ArmInstruction::DataProcessing {
            opcode: reg_field(i, 21),
            set_flags: bit_of(i, 20),
            rn: reg_field(i, 16),
            rd: reg_field(i, 12),
            operand2: i & 0xFFF,
            immediate: bit_of(i, 25),
        }
    } else if i & 0x0C00_0000 == 0x0400_0000 {
        ArmInstruction::SingleDataTransfer {
            load: bit_of(i, 20),
            byte: bit_of(i, 22),
            pre_index: bit_of(i, 24),
            add: bit_of(i, 23),
            writeback: bit_of(i, 21),
            rn: reg_field(i, 16),
            rd: reg_field(i, 12),
            offset: i & 0xFFF,
            immediate: !bit_of(i, 25),
        }
    } else if i & 0x0E00_0000 == 0x0800_0000 {
        ArmInstruction::BlockDataTransfer {
            load: bit_of(i, 20),
            pre_index: bit_of(i, 24),
            add: bit_of(i, 23),
            writeback: bit_of(i, 21),
            psr: bit_of(i, 22),
            rn: reg_field(i, 16),
            register_list: (i & 0xFFFF) as u16,
        }
    } else if i & 0x0E00_0000 == 0x0A00_0000 {
        ArmInstruction::Branch { link: bit_of(i, 24), offset: branch_offset(i) as i32 }
    } else if i & 0x0F00_0000 == 0x0F00_0000 {
        ArmInstruction::SWI { comment: i & 0x00FF_FFFF }
    } else {
        ArmInstruction::Undefined
    }
}

/// Every register field of a decoded instruction names one of R0..R15.
pub open spec fn arm_fields_valid(d: ArmInstruction) -> bool {
    match d {
        ArmInstruction::DataProcessing { rn, rd, opcode, .. } => rn < 16 && rd < 16 && opcode < 16,
        ArmInstruction::BranchExchange { rn } => rn < 16,
        ArmInstruction::SingleDataTransfer { rn, rd, .. } => rn < 16 && rd < 16,
        ArmInstruction::BlockDataTransfer { rn, .. } => rn < 16,
        ArmInstruction::Multiply { rd, rn, rs, rm, .. } => rd < 16 && rn < 16 && rs < 16 && rm < 16,
        _ => true,
    }
}

/// Bit `n` of `i`, with its meaning as a bit of the spec.
fn bit(i: u32, n: u32) -> (r: bool)
    requires
        n < 32,
    ensures
        r == bit_of(i, n),
{
    (i >> n) & 1 == 1
}

/// Register field of four bits at bit `lo`.
fn reg(i: u32, lo: u32) -> (r: u8)
    requires
        lo < 32,
    ensures
        r == reg_field(i, lo),
        r < 16,
{
    proof {
        crate::bits::lemma_u32_field(i, lo, 0xF);
    }
    ((i >> lo) & 0xF) as u8
}

/// Decodes a 32-bit ARM opcode.
pub fn decode_arm(i: u32) -> (r: ArmInstruction)
    ensures
        r == decode_arm_spec(i),
        arm_fields_valid(r),
{
    proof {
        crate::bits::lemma_u32_field(i, 0, 0x00FF_FFFF);
        crate::bits::lemma_u32_field(i, 0, 0xFFFF);
    }
    if i & 0x0FFF_FFF0 == 0x012F_FF10 {
        ArmInstruction::BranchExchange { rn: reg(i, 0) }
    } else if i & 0x0FC0_00F0 == 0x0000_0090 {
        ArmInstruction::Multiply {
            accumulate: bit(i, 21),
            set_flags: bit(i, 20),
            rd: reg(i, 16),
            rn: reg(i, 12),
            rs: reg(i, 8),
            rm: reg(i, 0),
        }
    } else if i & 0x0C00_0000 == 0 {
        ArmInstruction::DataProcessing {
            opcode: reg(i, 21),
            set_flags: bit(i, 20),
            rn: reg(i, 16),
            rd: reg(i, 12),
            operand2: i & 0xFFF,
            immediate: bit(i, 25),
        }
    } else if i & 0x0C00_0000 == 0x0400_0000 {
        ArmInstruction::SingleDataTransfer {
            load: bit(i, 20),
            byte: bit(i, 22),
            pre_index: bit(i, 24),
            add: bit(i, 23),
            writeback: bit(i, 21),
            rn: reg(i, 16),
            rd: reg(i, 12),
            offset: i & 0xFFF,
            immediate: !bit(i, 25),
        }
    } else if i & 0x0E00_0000 == 0x0800_0000 {
        ArmInstruction::BlockDataTransfer {
            load: bit(i, 20),
            pre_index: bit(i, 24),
            add: bit(i, 23),
            writeback: bit(i, 21),
            psr: bit(i, 22),
            rn: reg(i, 16),
            register_list: (i & 0xFFFF) as u16,
        }
    } else if i & 0x0E00_0000 == 0x0A00_0000 {
        let imm = i & 0x00FF_FFFF;
        let off: i32 = if imm >= 0x80_0000 {
            (imm as i32) - 0x100_0000
        } else {
            imm as i32
        };
        ArmInstruction::Branch { link: bit(i, 24), offset: off * 4 }
    } else if i & 0x0F00_0000 == 0x0F00_0000 {
        ArmInstruction::SWI { comment: i & 0x00FF_FFFF }
    } else {
        ArmInstruction::Undefined
    }
}

} // verus!
