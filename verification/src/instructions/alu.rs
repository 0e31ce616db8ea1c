use vstd::prelude::*;
use crate::arm::{
    DP_ADC, DP_ADD, DP_AND, DP_BIC, DP_CMN, DP_CMP, DP_EOR, DP_MOV, DP_MVN, DP_ORR, DP_RSB, DP_RSC,
    DP_SBC, DP_SUB, DP_TEQ, DP_TST,
};
use crate::registers::{Registers, bit_of, with_bit};

verus! {

/// `x` reduced modulo 2^32.
pub open spec fn wrap32(x: int) -> u32 {
    (x % 0x1_0000_0000) as u32
}

/// `wrap32` on the values that a sum or difference of two words can take.
pub proof fn lemma_wrap32(x: int)
    requires
        -0x1_0000_0000 <= x < 0x2_0000_0000,
    ensures
        wrap32(x) == (if x < 0 {
            x + 0x1_0000_0000
        } else if x >= 0x1_0000_0000 {
            x - 0x1_0000_0000
        } else {
            x
        }),
{
}

/// Sign bit of a 32-bit word.
pub open spec fn sign32(x: u32) -> bool {
    x >= 0x8000_0000
}

/// Signed overflow of `a + b (+ carry)` that gave `r`.
pub open spec fn add_overflows(a: u32, b: u32, r: u32) -> bool {
    sign32(a) == sign32(b) && sign32(r) != sign32(a)
}

/// Signed overflow of `a - b (- borrow)` that gave `r`.
pub open spec fn sub_overflows(a: u32, b: u32, r: u32) -> bool {
    sign32(a) != sign32(b) && sign32(r) != sign32(a)
}

/// Right rotation of a 32-bit word by `n` places (taken modulo 32).
pub open spec fn rotr32(v: u32, n: u32) -> u32 {
    let k = n % 32;
    if k == 0 {
        v
    } else {
        (v >> k) | (v << ((32 - k) as u32))
    }
}

/// Arithmetic (sign-filling) right shift of a 32-bit word, `n < 32`.
pub open spec fn asr32(v: u32, n: u32) -> u32 {
    if sign32(v) {
        !((!v) >> n)
    } else {
        v >> n
    }
}

/// Result and carry of the barrel shifter: shift kind `t` (LSL, LSR, ASR,
/// ROR), `amount` places, with carry in `c`.
pub open spec fn shift_spec(v: u32, t: u32, amount: u32, c: bool) -> (u32, bool) {
    if amount == 0 {
        (v, c)
    } else if t == 0 {
        if amount < 32 {
            (v << amount, bit_of(v, (32 - amount) as u32))
        } else if amount == 32 {
            (0, bit_of(v, 0))
        } else {
            (0, false)
        }
    } else if t == 1 {
        if amount < 32 {
            (v >> amount, bit_of(v, (amount - 1) as u32))
        } else if amount == 32 {
            (0, bit_of(v, 31))
        } else {
            (0, false)
        }
    } else if t == 2 {
        if amount < 32 {
            (asr32(v, amount), bit_of(v, (amount - 1) as u32))
        } else {
            (if sign32(v) {
                0xFFFF_FFFFu32
            } else {
                0u32
            }, sign32(v))
        }
    } else if t == 3 {
        let k = amount % 32;
        (rotr32(v, amount), if k == 0 {
            bit_of(v, 31)
        } else {
            bit_of(v, (k - 1) as u32)
        })
    } else {
        (v, c)
    }
}

/// Value and carry of the second operand of a data-processing instruction.
pub open spec fn operand2_spec(op2: u32, immediate: bool, regs: Registers) -> (u32, bool) {
    if immediate {
        let rot = ((op2 >> 8) & 0xF) * 2;
        let v = rotr32(op2 & 0xFF, rot as u32);
        (v, if rot == 0 {
            bit_of(regs.cpsr, 29)
        } else {
            sign32(v)
        })
    } else {
        let rm = op2 & 0xF;
        let t = (op2 >> 5) & 0x3;
        let amount = if bit_of(op2, 4) {
            regs.r@[((op2 >> 8) & 0xF) as int] & 0xFF
        } else {
            (op2 >> 7) & 0x1F
        };
        shift_spec(regs.r@[rm as int], t, amount, bit_of(regs.cpsr, 29))
    }
}

/// Value computed by data-processing opcode `op` on `a` (Rn) and `b`
/// (Operand2), with carry flag `c`.
pub open spec fn alu_value(op: u8, a: u32, b: u32, c: bool) -> u32 {
    let ci: int = if c {
        1
    } else {
        0
    };
    if op == DP_AND || op == DP_TST {
        a & b
    } else if op == DP_EOR || op == DP_TEQ {
        a ^ b
    } else if op == DP_SUB || op == DP_CMP {
        wrap32(a - b)
    } else if op == DP_RSB {
        wrap32(b - a)
    } else if op == DP_ADD || op == DP_CMN {
        wrap32(a + b)
    } else if op == DP_ADC {
        wrap32(a + b + ci)
    } else if op == DP_SBC {
        wrap32(a - b - (1 - ci))
    } else if op == DP_RSC {
        wrap32(b - a - (1 - ci))
    } else if op == DP_ORR {
        a | b
    } else if op == DP_MOV {
        b
    } else if op == DP_BIC {
        a & !b
    } else {
        !b
    }
}

/// Carry out of an arithmetic opcode.
pub open spec fn alu_carry(op: u8, a: u32, b: u32, c: bool) -> bool {
    let ci: int = if c {
        1
    } else {
        0
    };
    if op == DP_SUB || op == DP_CMP {
        a >= b
    } else if op == DP_RSB {
        b >= a
    } else if op == DP_ADD || op == DP_CMN {
        a + b > 0xFFFF_FFFF
    } else if op == DP_ADC {
        a + b + ci > 0xFFFF_FFFF
    } else if op == DP_SBC {
        a >= b + (1 - ci)
    } else {
        b >= a + (1 - ci)
    }
}

/// Signed overflow of an arithmetic opcode that gave `r`.
pub open spec fn alu_overflow(op: u8, a: u32, b: u32, r: u32) -> bool {
    if op == DP_ADD || op == DP_ADC || op == DP_CMN {
        add_overflows(a, b, r)
    } else if op == DP_SUB || op == DP_SBC || op == DP_CMP {
        sub_overflows(a, b, r)
    } else {
        sub_overflows(b, a, r)
    }
}

/// Opcodes whose flags come from the shifter (N, Z and C; V is kept).
pub open spec fn is_logic_op(op: u8) -> bool {
    op == DP_AND || op == DP_EOR || op == DP_ORR || op == DP_MOV || op == DP_BIC || op == DP_MVN
        || op == DP_TST || op == DP_TEQ
}

/// Opcodes that only set flags (TST, TEQ, CMP, CMN).
pub open spec fn is_test_op(op: u8) -> bool {
    op == DP_TST || op == DP_TEQ || op == DP_CMP || op == DP_CMN
}

/// CPSR with N and Z from `res` and C from `c`.
pub open spec fn nzc(cpsr: u32, res: u32, c: bool) -> u32 {
    with_bit(with_bit(with_bit(cpsr, 31, sign32(res)), 30, res == 0), 29, c)
}

/// CPSR with N and Z from `res`, C from `c` and V from `v`.
pub open spec fn nzcv(cpsr: u32, res: u32, c: bool, v: bool) -> u32 {
    with_bit(nzc(cpsr, res, c), 28, v)
}

/// CPSR after a flag-setting data-processing instruction.
pub open spec fn dp_flags(op: u8, cpsr: u32, a: u32, b: u32, shifter_carry: bool) -> u32 {
    let c = bit_of(cpsr, 29);
    let r = alu_value(op, a, b, c);
    if is_logic_op(op) {
        nzc(cpsr, r, shifter_carry)
    } else {
        nzcv(cpsr, r, alu_carry(op, a, b, c), alu_overflow(op, a, b, r))
    }
}

/// Register file after a data-processing instruction with opcode `opcode`,
/// destination `rd`, first operand register `rn`, second operand `op2` and
/// shifter carry `carry`.
pub open spec fn dp_post(
    old: Registers,
    opcode: u8,
    rd: u8,
    rn: u8,
    op2: u32,
    set_flags: bool,
    carry: bool,
    new: Registers,
) -> bool {
    let a = rn_operand(old, rn);
    let v = alu_value(opcode, a, op2, bit_of(old.cpsr, 29));
    let flags = if set_flags {
        dp_flags(opcode, old.cpsr, a, op2, carry)
    } else {
        old.cpsr
    };
    if opcode > 15 {
        new == old
    } else if is_test_op(opcode) {
        new == (Registers { cpsr: flags, ..old })
    } else {
        &&& new == (Registers { r: new.r, cpsr: flags, ..old })
        &&& new.r@ == old.r@.update(
            rd as int,
            if rd == 15 {
                v & !3u32
            } else {
                v
            },
        )
    }
}

/// Value of Rn as an operand: R15 reads as PC + 8.
pub open spec fn rn_operand(regs: Registers, rn: u8) -> u32 {
    if rn == 15 {
        wrap32(regs.r@[15] + 8)
    } else {
        regs.r@[rn as int]
    }
}

/// The sign bit of a word is set exactly when the word is at least 2^31.
pub proof fn lemma_sign_bit_raw(x: u32)
    by (bit_vector)
    ensures
        ((x & 0x8000_0000) != 0) == (x >= 0x8000_0000),
        (((x >> 31u32) & 1u32) == 1u32) == (x >= 0x8000_0000),
{
}

/// Both ways of reading bit 31 agree with `sign32`.
pub proof fn lemma_sign_bit(x: u32)
    ensures
        ((x & 0x8000_0000) != 0) == sign32(x),
        bit_of(x, 31) == sign32(x),
{
    lemma_sign_bit_raw(x);
}

/// Adds `a`, `b` and the carry; returns the sum and the signed overflow.
fn add_with_flags(a: u32, b: u32, carry: bool) -> (res: (u32, bool))
    ensures
        res.0 == wrap32(a + b + (if carry {
            1int
        } else {
            0int
        })),
        res.1 == add_overflows(a, b, res.0),
{
    let c: u32 = if carry {
        1
    } else {
        0
    };
    let result = a.wrapping_add(b).wrapping_add(c);
    assert((((a ^ result) & (b ^ result) & 0x8000_0000) != 0) == (((a >= 0x8000_0000) == (b
        >= 0x8000_0000)) && ((result >= 0x8000_0000) != (a >= 0x8000_0000)))) by (bit_vector);
    let overflow = ((a ^ result) & (b ^ result) & 0x8000_0000) != 0;
    (result, overflow)
}

/// Subtracts `b` and the borrow (the inverted carry) from `a`; returns the
/// difference and the signed overflow.
fn sub_with_flags(a: u32, b: u32, carry: bool) -> (res: (u32, bool))
    ensures
        res.0 == wrap32(a - b - (if carry {
            0int
        } else {
            1int
        })),
        res.1 == sub_overflows(a, b, res.0),
{
    let c: u32 = if carry {
        0
    } else {
        1
    };
    let result = a.wrapping_sub(b).wrapping_sub(c);
    assert((((a ^ b) & (a ^ result) & 0x8000_0000) != 0) == (((a >= 0x8000_0000) != (b
        >= 0x8000_0000)) && ((result >= 0x8000_0000) != (a >= 0x8000_0000)))) by (bit_vector);
    let overflow = ((a ^ b) & (a ^ result) & 0x8000_0000) != 0;
    (result, overflow)
}

/// Whether the opcode is a logical one with a result (its C flag comes from
/// the shifter).
fn is_logic_operation(opcode: u8) -> (r: bool)
    ensures
        r == (is_logic_op(opcode) && !is_test_op(opcode)),
{
    opcode == DP_AND || opcode == DP_EOR || opcode == DP_ORR || opcode == DP_MOV || opcode == DP_BIC
        || opcode == DP_MVN
}

/// Sets N and Z from `result` and C from `carry`; V is kept.
pub(crate) fn update_logic_flags(regs: &mut Registers, result: u32, carry: bool)
    ensures
        *final(regs) == (Registers { cpsr: nzc(old(regs).cpsr, result, carry), ..*old(regs) }),
{
    proof {
        lemma_sign_bit(result);
    }
    regs.set_flag_n((result & 0x8000_0000) != 0);
    regs.set_flag_z(result == 0);
    regs.set_flag_c(carry);
}

/// Sets N and Z from `result`, C from `carry` and V from `overflow`.
fn update_arithmetic_flags(regs: &mut Registers, result: u32, carry: bool, overflow: bool)
    ensures
        *final(regs) == (Registers {
            cpsr: nzcv(old(regs).cpsr, result, carry, overflow),
            ..*old(regs)
        }),
{
    proof {
        lemma_sign_bit(result);
    }
    regs.set_flag_n((result & 0x8000_0000) != 0);
    regs.set_flag_z(result == 0);
    regs.set_flag_c(carry);
    regs.set_flag_v(overflow);
}

/// Executes a data-processing (ALU) instruction with an already computed
/// second operand and shifter carry; returns the cycles used (always 1).
pub fn execute_data_processing(
    regs: &mut Registers,
    opcode: u8,
    rd: u8,
    rn: u8,
    operand2: u32,
    set_flags: bool,
    carry: bool,
) -> (cycles: u32)
    requires
        rd < 16 || opcode > 15 || is_test_op(opcode),
        rn < 16,
    ensures
        cycles == 1,
        dp_post(*old(regs), opcode, rd, rn, operand2, set_flags, carry, *final(regs)),
{
    let ghost old_regs = *regs;
    let rn_value = if rn == 15 {
        regs.pc().wrapping_add(8)
    } else {
        regs.r[rn as usize]
    };
    let c_flag = regs.flag_c();
    let a = rn_value;
    let b = operand2;
    if opcode > 15 {
        return 1;
    }
    if opcode == DP_TST {
        if set_flags {
            update_logic_flags(regs, a & b, carry);
        }
        return 1;
    } else if opcode == DP_TEQ {
        if set_flags {
            update_logic_flags(regs, a ^ b, carry);
        }
        return 1;
    } else if opcode == DP_CMP {
        let (res, overflow) = sub_with_flags(a, b, true);
        if set_flags {
            update_arithmetic_flags(regs, res, a >= b, overflow);
        }
        return 1;
    } else if opcode == DP_CMN {
        let (res, overflow) = add_with_flags(a, b, false);
        if set_flags {
            let carry_out = (a as u64) + (b as u64) > 0xFFFF_FFFF;
            update_arithmetic_flags(regs, res, carry_out, overflow);
        }
        return 1;
    }
    let (value, new_carry, new_overflow) = alu_compute(opcode, a, b, c_flag, carry);
    if rd == 15 {
        regs.set_pc(value & !3);
    } else {
        regs.r[rd as usize] = value;
    }
    if set_flags {
        if is_logic_operation(opcode) {
            update_logic_flags(regs, value, new_carry);
        } else {
            update_arithmetic_flags(regs, value, new_carry, new_overflow);
        }
    }
    assert(regs.r@ =~= old_regs.r@.update(
        rd as int,
        if rd == 15 {
            value & !3u32
        } else {
            value
        },
    ));
    1
}

/// Value, carry and overflow of a data-processing opcode with a result.
fn alu_compute(opcode: u8, a: u32, b: u32, c_flag: bool, carry: bool) -> (r: (u32, bool, bool))
    requires
        opcode <= 15,
        !is_test_op(opcode),
    ensures
        r.0 == alu_value(opcode, a, b, c_flag),
        is_logic_op(opcode) ==> r.1 == carry,
        !is_logic_op(opcode) ==> r.1 == alu_carry(opcode, a, b, c_flag) && r.2 == alu_overflow(
            opcode,
            a,
            b,
            r.0,
        ),
{
    if opcode == DP_AND {
        (a & b, carry, false)
    } else if opcode == DP_EOR {
        (a ^ b, carry, false)
    } else if opcode == DP_SUB {
        let (res, overflow) = sub_with_flags(a, b, true);
        (res, a >= b, overflow)
    } else if opcode == DP_RSB {
        let (res, overflow) = sub_with_flags(b, a, true);
        (res, b >= a, overflow)
    } else if opcode == DP_ADD {
        let (res, overflow) = add_with_flags(a, b, false);
        (res, (res as u64) != (a as u64) + (b as u64), overflow)
    } else if opcode == DP_ADC {
        let c: u64 = if c_flag {
            1
        } else {
            0
        };
        let (res, overflow) = add_with_flags(a, b, c_flag);
        (res, (a as u64) + (b as u64) + c > 0xFFFF_FFFF, overflow)
    } else if opcode == DP_SBC {
        let c: u64 = if c_flag {
            0
        } else {
            1
        };
        let (res, overflow) = sub_with_flags(a, b, c_flag);
        (res, (a as u64) >= (b as u64) + c, overflow)
    } else if opcode == DP_RSC {
        let c: u64 = if c_flag {
            0
        } else {
            1
        };
        let (res, overflow) = sub_with_flags(b, a, c_flag);
        (res, (b as u64) >= (a as u64) + c, overflow)
    } else if opcode == DP_ORR {
        (a | b, carry, false)
    } else if opcode == DP_MOV {
        (b, carry, false)
    } else if opcode == DP_BIC {
        (a & !b, carry, false)
    } else {
        (!b, carry, false)
    }
}

/// Right rotation of `value` by `amount` places (modulo 32).
pub fn rotate_right32(value: u32, amount: u32) -> (r: u32)
    ensures
        r == rotr32(value, amount),
{
    let k = amount % 32;
    if k == 0 {
        value
    } else {
        (value >> k) | (value << (32 - k))
    }
}

/// Decodes Operand2 of a data-processing instruction through the barrel
/// shifter; returns the value and the shifter carry out.
pub fn decode_operand2(operand2: u32, immediate: bool, regs: &Registers) -> (r: (u32, bool))
    ensures
        r == operand2_spec(operand2, immediate, *regs),
{
    if immediate {
        let imm = operand2 & 0xFF;
        proof {
            crate::bits::lemma_u32_field(operand2, 8, 0xF);
        }
        let rotate = ((operand2 >> 8) & 0xF) * 2;
        let value = rotate_right32(imm, rotate);
        proof {
            lemma_sign_bit(value);
        }
        let carry = if rotate == 0 {
            regs.flag_c()
        } else {
            (value & 0x8000_0000) != 0
        };
        (value, carry)
    } else {
        proof {
            crate::bits::lemma_u32_field(operand2, 8, 0xF);
            crate::bits::lemma_u32_field(operand2, 0, 0xF);
        }
        let rm = (operand2 & 0xF) as usize;
        let shift_type = (operand2 >> 5) & 0x3;
        let shift_amount = if crate::registers::get_bit(operand2, 4) {
            let rs = ((operand2 >> 8) & 0xF) as usize;
            regs.r[rs] & 0xFF
        } else {
            (operand2 >> 7) & 0x1F
        };
        let rm_value = regs.r[rm];
        barrel_shift(rm_value, shift_type, shift_amount, regs.flag_c())
    }
}

/// Barrel shifter: shifts or rotates `value` and gives the carry out.
pub(crate) fn barrel_shift(value: u32, shift_type: u32, amount: u32, carry_in: bool) -> (r: (u32, bool))
    ensures
        r == shift_spec(value, shift_type, amount, carry_in),
{
    if amount == 0 {
        return (value, carry_in);
    }
    if shift_type == 0 {
        if amount < 32 {
            let result = value << amount;
            let carry = (value >> (32 - amount)) & 1 == 1;
            (result, carry)
        } else if amount == 32 {
            (0, crate::registers::get_bit(value, 0))
        } else {
            (0, false)
        }
    } else if shift_type == 1 {
        if amount < 32 {
            (value >> amount, (value >> (amount - 1)) & 1 == 1)
        } else if amount == 32 {
            (0, (value >> 31) & 1 == 1)
        } else {
            (0, false)
        }
    } else if shift_type == 2 {
        let negative = value >= 0x8000_0000;
        if amount < 32 {
            let result = if negative {
                !((!value) >> amount)
            } else {
                value >> amount
            };
            (result, (value >> (amount - 1)) & 1 == 1)
        } else {
            (if negative {
                0xFFFF_FFFF
            } else {
                0
            }, negative)
        }
    } else if shift_type == 3 {
        let k = amount % 32;
        let result = rotate_right32(value, amount);
        let carry = if k == 0 {
            (value >> 31) & 1 == 1
        } else {
            (value >> (k - 1)) & 1 == 1
        };
        (result, carry)
    } else {
        (value, carry_in)
    }
}

} // verus!
