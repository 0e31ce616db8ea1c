use vstd::prelude::*;
use crate::arm::{
    ArmInstruction, Condition, DP_ADD, DP_CMP, DP_MOV, DP_SUB, condition_holds, condition_of_code,
    decode_arm, decode_arm_spec,
};
use crate::instructions::alu::{
    decode_operand2, dp_post, execute_data_processing, lemma_wrap32, nzc, operand2_spec, shift_spec,
    wrap32,
};
use crate::instructions::branch::{
    branch_exchange_post, branch_post, execute_branch, execute_branch_exchange,
};
use crate::instructions::load_store::{
    block_transfer_post, execute_block_data_transfer, execute_single_data_transfer, popcount16,
    single_transfer_post,
};
use crate::registers::{Mode, Registers, bit_of, with_bit};
use crate::thumb::{ThumbInstruction, decode_thumb, decode_thumb_spec};

verus! {

/// One access of the processor to the bus: its kind, address and the value
/// read or written.
#[derive(Debug, Clone, Copy, PartialEq, Eq, Structural)]
pub enum BusAccess {
    ReadByte(u32, u8),
    ReadHalfword(u32, u16),
    ReadWord(u32, u32),
    WriteByte(u32, u8),
    WriteHalfword(u32, u16),
    WriteWord(u32, u32),
}

/// Access to memory from the processor. Implement it to run the processor
/// on a bus of your own; `inv` is the bus's own consistency condition, which
/// every access keeps, `accesses` the accesses made so far, oldest first
/// (each method appends the one it makes), and `display_position` a clock
/// of the bus and `interrupt_state` the interrupt controller's registers,
/// both of which accesses leave alone. The spec functions have bodies only
/// so that an implementation written in plain Rust, which cannot define
/// them, still compiles; nothing checks such an implementation against the
/// contracts below (with the empty default record no access could meet
/// them), and an implementation in verified code overrides them all, as
/// `Bus` does.
pub trait MemoryBus: Sized {
    open spec fn inv(&self) -> bool {
        true
    }

    open spec fn accesses(&self) -> Seq<BusAccess> {
        Seq::empty()
    }

    /// Where the display is in its frame, a clock that only the display's
    /// own stepping moves: no access changes it.
    open spec fn display_position(&self) -> int {
        0
    }

    /// The interrupt controller's enable mask, requests and master enable,
    /// which accesses leave alone.
    open spec fn interrupt_state(&self) -> (u16, u16, bool) {
        (0, 0, false)
    }

    /// The byte that a read at `addr` gives now.
    open spec fn peek(&self, addr: u32) -> u8 {
        0
    }

    /// The bus apart from its record of accesses; a read leaves it as it
    /// was.
    open spec fn contents(&self) -> Self {
        *self
    }

    fn read_byte(&mut self, addr: u32) -> (r: u8)
        requires
            old(self).inv(),
        ensures
            final(self).inv(),
            r == old(self).peek(addr),
            final(self).accesses() == old(self).accesses().push(BusAccess::ReadByte(addr, r)),
            final(self).display_position() == old(self).display_position(),
            final(self).interrupt_state() == old(self).interrupt_state(),
            final(self).contents() == old(self).contents(),
    ;

    fn read_halfword(&mut self, addr: u32) -> (r: u16)
        requires
            old(self).inv(),
        ensures
            final(self).inv(),
            r == old(self).peek(addr) + 256 * old(self).peek(wrap32(addr + 1)),
            final(self).accesses() == old(self).accesses().push(BusAccess::ReadHalfword(addr, r)),
            final(self).display_position() == old(self).display_position(),
            final(self).interrupt_state() == old(self).interrupt_state(),
            final(self).contents() == old(self).contents(),
    ;

    fn read_word(&mut self, addr: u32) -> (r: u32)
        requires
            old(self).inv(),
        ensures
            final(self).inv(),
            r == old(self).peek(addr) + 0x100 * old(self).peek(wrap32(addr + 1)) + 0x1_0000 * old(
                self,
            ).peek(wrap32(addr + 2)) + 0x100_0000 * old(self).peek(wrap32(addr + 3)),
            final(self).accesses() == old(self).accesses().push(BusAccess::ReadWord(addr, r)),
            final(self).display_position() == old(self).display_position(),
            final(self).interrupt_state() == old(self).interrupt_state(),
            final(self).contents() == old(self).contents(),
    ;

    fn write_byte(&mut self, addr: u32, value: u8)
        requires
            old(self).inv(),
        ensures
            final(self).inv(),
            final(self).accesses() == old(self).accesses().push(BusAccess::WriteByte(addr, value)),
            final(self).display_position() == old(self).display_position(),
            final(self).interrupt_state() == old(self).interrupt_state(),
    ;

    fn write_halfword(&mut self, addr: u32, value: u16)
        requires
            old(self).inv(),
        ensures
            final(self).inv(),
            final(self).accesses() == old(self).accesses().push(BusAccess::WriteHalfword(addr, value)),
            final(self).display_position() == old(self).display_position(),
            final(self).interrupt_state() == old(self).interrupt_state(),
    ;

    fn write_word(&mut self, addr: u32, value: u32)
        requires
            old(self).inv(),
        ensures
            final(self).inv(),
            final(self).accesses() == old(self).accesses().push(BusAccess::WriteWord(addr, value)),
            final(self).display_position() == old(self).display_position(),
            final(self).interrupt_state() == old(self).interrupt_state(),
    ;
}

/// The little-endian halfword that reads at `a` and `a + 1` give.
pub open spec fn halfword_of<M: MemoryBus>(m: &M, a: u32) -> int {
    m.peek(a) + 256 * m.peek(wrap32(a + 1))
}

/// The little-endian word that reads at `a` to `a + 3` give.
pub open spec fn word_of<M: MemoryBus>(m: &M, a: u32) -> int {
    m.peek(a) + 0x100 * m.peek(wrap32(a + 1)) + 0x1_0000 * m.peek(wrap32(a + 2)) + 0x100_0000 * m.peek(
        wrap32(a + 3),
    )
}

/// Whether `a` reads the bus.
pub open spec fn is_read(a: BusAccess) -> bool {
    a is ReadByte || a is ReadHalfword || a is ReadWord
}

/// `l1` is `l0` with more accesses after it.
pub open spec fn extends(l0: Seq<BusAccess>, l1: Seq<BusAccess>) -> bool {
    l0.len() <= l1.len() && l1.subrange(0, l0.len() as int) == l0
}

/// Every access of `l1` after the first `l0.len()` is a read.
pub open spec fn only_reads(l0: Seq<BusAccess>, l1: Seq<BusAccess>) -> bool {
    forall|i: int| l0.len() <= i < l1.len() ==> is_read(#[trigger] l1[i])
}

/// Records that go on from one another go on from the first, and reads
/// only since the first means reads only over each stretch.
pub proof fn lemma_extends_trans(l0: Seq<BusAccess>, l1: Seq<BusAccess>, l2: Seq<BusAccess>)
    requires
        extends(l0, l1),
        extends(l1, l2),
    ensures
        extends(l0, l2),
        only_reads(l0, l2) ==> only_reads(l0, l1) && only_reads(l1, l2),
{
    assert(l2.subrange(0, l0.len() as int) =~= l2.subrange(0, l1.len() as int).subrange(0, l0.len() as int));
    if only_reads(l0, l2) {
        assert forall|i: int| l0.len() <= i < l1.len() implies is_read(#[trigger] l1[i]) by {
            assert(l1[i] == l2.subrange(0, l1.len() as int)[i]);
            assert(is_read(l2[i]));
        }
    }
}

/// A record goes on from itself, with no access after it.
pub proof fn lemma_extends_refl(l: Seq<BusAccess>)
    ensures
        extends(l, l),
        only_reads(l, l),
{
    assert(l.subrange(0, l.len() as int) =~= l);
}

/// A record goes on from itself with one access appended.
pub proof fn lemma_extends_push(l: Seq<BusAccess>, a: BusAccess)
    ensures
        extends(l, l.push(a)),
        only_reads(l, l.push(a)) <==> is_read(a),
{
    assert(l.push(a).subrange(0, l.len() as int) =~= l);
    if is_read(a) {
        assert forall|i: int| l.len() <= i < l.push(a).len() implies is_read(#[trigger] l.push(a)[i]) by {
            assert(i == l.len());
        }
    } else {
        assert(!is_read(l.push(a)[l.len() as int]));
    }
}

/// `new` is `old` with the PC moved on by `n` bytes.
pub open spec fn advanced_pc(old: Registers, n: int, new: Registers) -> bool {
    &&& new == (Registers { r: new.r, ..old })
    &&& new.r@ == old.r@.update(15, wrap32(old.r@[15] + n))
}

/// Register file after MUL/MLA: Rd receives Rm * Rs (+ Rn), modulo 2^32;
/// with S, N and Z follow the result.
pub open spec fn multiply_post(
    old: Registers,
    accumulate: bool,
    set_flags: bool,
    rd: int,
    rn: int,
    rs: int,
    rm: int,
    new: Registers,
) -> bool {
    let res = wrap32(old.r@[rm] * old.r@[rs] + (if accumulate {
        old.r@[rn] as int
    } else {
        0int
    }));
    &&& new == (Registers {
        r: new.r,
        cpsr: if set_flags {
            with_bit(with_bit(old.cpsr, 31, res >= 0x8000_0000), 30, res == 0)
        } else {
            old.cpsr
        },
        ..old
    })
    &&& new.r@ == old.r@.update(rd, res)
}

/// Register file after an exception entry: the switch into `mode`, the
/// SPSR of that mode set to `spsr`, the CPSR of the new mode turned into
/// `cpsr_of(mid.cpsr)`, LR set to `lr` and the PC to `vector`.
pub open spec fn exception_entry(
    old: Registers,
    mode: Mode,
    mid: Registers,
    spsr: u32,
    cpsr: u32,
    lr: u32,
    vector: u32,
    new: Registers,
) -> bool {
    &&& old.changed_mode(mode, mid)
    &&& new == (Registers { r: new.r, cpsr: cpsr, ..mid.with_spsr(spsr) })
    &&& new.r@ == mid.r@.update(14, lr).update(15, vector)
}

/// Register file after SWI (PC already past it): Supervisor mode, with its
/// SPSR holding the CPSR from before the call, LR the return address and PC
/// the SWI vector.
pub open spec fn swi_post(old: Registers, new: Registers) -> bool {
    exists|mid: Registers|
        exception_entry(old, Mode::Supervisor, mid, old.cpsr, mid.cpsr, old.r@[15], 8, new)
}

/// Whether the ARM instruction `w` runs and is a load or a store.
pub open spec fn arm_uses_bus(old: Registers, w: u32) -> bool {
    &&& condition_holds(condition_of_code((w >> 28) & 0xF), old.cpsr)
    &&& (decode_arm_spec(w) is SingleDataTransfer || decode_arm_spec(w) is BlockDataTransfer)
}

/// Register file and bus accesses after the ARM instruction `w` runs (PC
/// already past it), with `cycles` cycles used: the bus accesses go from
/// `log0` to `log1`, and only loads and stores make any.
pub open spec fn arm_post(
    old: Registers,
    w: u32,
    new: Registers,
    cycles: u32,
    log0: Seq<BusAccess>,
    log1: Seq<BusAccess>,
) -> bool {
    &&& !arm_uses_bus(old, w) ==> log1 == log0
    &&& if !condition_holds(condition_of_code((w >> 28) & 0xF), old.cpsr) {
        new == old && cycles == 1
    } else {
        match decode_arm_spec(w) {
            ArmInstruction::DataProcessing { opcode, set_flags, rn, rd, operand2, immediate } => {
                let (v, c) = operand2_spec(operand2, immediate, old);
                cycles == 1 && dp_post(old, opcode, rd, rn, v, set_flags, c, new)
            },
            ArmInstruction::Branch { link, offset } => cycles == 3 && branch_post(
                old,
                offset as int,
                link,
                new,
            ),
            ArmInstruction::BranchExchange { rn } => cycles == 3 && branch_exchange_post(
                old,
                rn as int,
                new,
            ),
            ArmInstruction::SingleDataTransfer {
                load,
                byte,
                pre_index,
                add,
                writeback,
                rn,
                rd,
                offset,
                immediate,
            } => {
                let off = if immediate {
                    offset
                } else {
                    operand2_spec(offset, false, old).0
                };
                &&& cycles == (if load {
                    3u32
                } else {
                    2u32
                })
                &&& single_transfer_post(
                    old,
                    load,
                    byte,
                    pre_index,
                    add,
                    writeback,
                    rn as int,
                    rd as int,
                    off,
                    new,
                    log0,
                    log1,
                )
            },
            ArmInstruction::BlockDataTransfer {
                load,
                pre_index,
                add,
                writeback,
                psr,
                rn,
                register_list,
            } => {
                &&& cycles == popcount16(register_list, 16) + (if load {
                    2int
                } else {
                    1int
                })
                &&& block_transfer_post(
                    old,
                    load,
                    pre_index,
                    add,
                    writeback,
                    rn as int,
                    register_list,
                    new,
                    log0,
                    log1,
                )
            },
            ArmInstruction::Multiply { accumulate, set_flags, rd, rn, rs, rm } => cycles == 2
                && multiply_post(
                old,
                accumulate,
                set_flags,
                rd as int,
                rn as int,
                rs as int,
                rm as int,
                new,
            ),
            ArmInstruction::SWI { comment } => cycles == 3 && swi_post(old, new),
            ArmInstruction::Undefined => cycles == 1 && new == old,
        }
    }
}

/// Data-processing opcode of THUMB format 3 (MOV, CMP, ADD, SUB).
pub open spec fn thumb_imm_opcode(op: u8) -> u8 {
    if op == 0 {
        DP_MOV
    } else if op == 1 {
        DP_CMP
    } else if op == 2 {
        DP_ADD
    } else {
        DP_SUB
    }
}

/// Register file after the THUMB instruction `w` runs (PC already past it).
/// Formats 1, 2, 3, 9, 16, 18 and BX of format 5 are executed; the others
/// change nothing and use one cycle.
pub open spec fn thumb_post(
    old: Registers,
    w: u16,
    new: Registers,
    cycles: u32,
    log0: Seq<BusAccess>,
    log1: Seq<BusAccess>,
) -> bool {
    let c = bit_of(old.cpsr, 29);
    &&& !(decode_thumb_spec(w) is LoadStoreImmOffset) ==> log1 == log0
    &&& match decode_thumb_spec(w) {
        ThumbInstruction::MoveShiftedRegister { op, offset, rs, rd } => {
            let amount: u32 = if (op == 1 || op == 2) && offset == 0 {
                32
            } else {
                offset as u32
            };
            let (v, sc) = shift_spec(old.r@[rs as int], op as u32, amount, c);
            &&& cycles == 1
            &&& new == (Registers { r: new.r, cpsr: nzc(old.cpsr, v, sc), ..old })
            &&& new.r@ == old.r@.update(rd as int, v)
        },
        ThumbInstruction::AddSubtract { sub, immediate, rn_offset, rs, rd } => {
            let operand: u32 = if immediate {
                rn_offset as u32
            } else {
                old.r@[rn_offset as int]
            };
            cycles == 1 && dp_post(
                old,
                if sub {
                    DP_SUB
                } else {
                    DP_ADD
                },
                rd,
                rs,
                operand,
                true,
                c,
                new,
            )
        },
        ThumbInstruction::AluImmediate { op, rd, offset } => cycles == 1 && dp_post(
            old,
            thumb_imm_opcode(op),
            rd,
            rd,
            offset as u32,
            true,
            c,
            new,
        ),
        ThumbInstruction::HiRegisterOps { op, h1, h2, rs, rd } => {
            if op == 3 {
                cycles == 3 && branch_exchange_post(old, rs + (if h2 {
                    8int
                } else {
                    0int
                }), new)
            } else {
                cycles == 1 && new == old
            }
        },
        ThumbInstruction::LoadStoreImmOffset { load, byte, offset, rb, rd } => {
            &&& cycles == (if load {
                3u32
            } else {
                2u32
            })
            &&& single_transfer_post(
                old,
                load,
                byte,
                true,
                true,
                false,
                rb as int,
                rd as int,
                if byte {
                    offset as u32
                } else {
                    (offset * 4) as u32
                },
                new,
                log0,
                log1,
            )
        },
        ThumbInstruction::ConditionalBranch { cond, offset } => {
            if condition_holds(condition_of_code(cond as u32), old.cpsr) {
                &&& cycles == 3
                &&& new == (Registers { r: new.r, ..old })
                &&& new.r@ == old.r@.update(15, wrap32(old.r@[15] + offset * 2))
            } else {
                cycles == 1 && new == old
            }
        },
        ThumbInstruction::UnconditionalBranch { offset } => {
            &&& cycles == 3
            &&& new == (Registers { r: new.r, ..old })
            &&& new.r@ == old.r@.update(15, wrap32(old.r@[15] + offset * 2))
        },
        _ => cycles == 1 && new == old,
    }
}

/// Register file after an IRQ is taken: IRQ mode with its SPSR holding the
/// CPSR from before, IRQs masked, ARM state, LR the PC plus 4 and PC the
/// IRQ vector.
pub open spec fn irq_entry_post(old: Registers, new: Registers) -> bool {
    exists|mid: Registers|
        exception_entry(
            old,
            Mode::IRQ,
            mid,
            old.cpsr,
            with_bit(with_bit(mid.cpsr, 7, true), 5, false),
            wrap32(old.r@[15] + 4),
            0x18,
            new,
        )
}

/// The ARM7TDMI processor.
pub struct ARM7TDMI {
    pub regs: Registers,
    pub cycles: u64,
    pub halted: bool,
}

/// Most cycles one instruction takes.
pub const MAX_INSTRUCTION_CYCLES: u32 = 18;

proof fn lemma_popcount_bound(x: u16, n: nat)
    ensures
        popcount16(x, n) <= n,
    decreases n,
{
    if n > 0 {
        lemma_popcount_bound(x, (n - 1) as nat);
    }
}

/// Multiply result modulo 2^32, whichever way the product is wrapped.
proof fn lemma_mul_wrap(p: u32, q: u32, acc: u32)
    ensures
        wrap32(wrap32(p * q) + acc) == wrap32(p * q + acc),
        p.wrapping_mul(q) == wrap32(p * q),
{
    let m: int = 0x1_0000_0000;
    vstd::arithmetic::div_mod::lemma_add_mod_noop(p * q, acc as int, m);
    vstd::arithmetic::div_mod::lemma_small_mod(acc as nat, m as nat);
    assert(p * q >= 0) by (nonlinear_arith);
}

/// One call of `step` taking the processor from `c0` to `c1` and the bus
/// from `b0` to `b1` in `cycles` cycles, as `step`'s contract states it: a
/// halted processor stays as it was; a running one fetches at its PC and
/// executes the instruction fetched (ARM or THUMB by the T bit). Opaque: a
/// proof that needs its parts reveals it.
#[verifier::opaque]
pub open spec fn stepped<M: MemoryBus>(c0: ARM7TDMI, b0: M, c1: ARM7TDMI, b1: M, cycles: u32) -> bool {
    &&& b1.inv()
    &&& b1.display_position() == b0.display_position()
    &&& b1.interrupt_state() == b0.interrupt_state()
    &&& extends(b0.accesses(), b1.accesses())
    &&& only_reads(b0.accesses(), b1.accesses()) ==> b1.contents() == b0.contents()
    &&& 1 <= cycles <= MAX_INSTRUCTION_CYCLES
    &&& c0.halted ==> cycles == 1 && c1.regs == c0.regs && c1.cycles == c0.cycles && c1.halted
        && b1.accesses() == b0.accesses()
    &&& !c0.halted ==> {
        &&& c1.cycles == c0.cycles + cycles
        &&& !c1.halted
        &&& if bit_of(c0.regs.cpsr, 5) {
            exists|w: u16, mid: Registers|
                w == halfword_of(&b0, c0.regs.r@[15]) && advanced_pc(c0.regs, 2, mid) && thumb_post(
                    mid,
                    w,
                    c1.regs,
                    cycles,
                    b0.accesses().push(BusAccess::ReadHalfword(c0.regs.r@[15], w)),
                    b1.accesses(),
                )
        } else {
            exists|w: u32, mid: Registers|
                w == word_of(&b0, c0.regs.r@[15]) && advanced_pc(c0.regs, 4, mid) && arm_post(
                    mid,
                    w,
                    c1.regs,
                    cycles,
                    b0.accesses().push(BusAccess::ReadWord(c0.regs.r@[15], w)),
                    b1.accesses(),
                )
        }
    }
}

impl ARM7TDMI {
    pub fn new() -> (cpu: Self)
        ensures
            cpu.cycles == 0,
            !cpu.halted,
            cpu.regs.cpsr == 0x1F,
            cpu.regs.mode == Mode::System,
            forall|i: int| 0 <= i < 16 ==> cpu.regs.r@[i] == 0,
    {
        ARM7TDMI { regs: Registers::new(), cycles: 0, halted: false }
    }

    /// Resets the processor: fresh registers with PC 0, no cycles, running.
    pub fn reset(&mut self)
        ensures
            final(self).cycles == 0,
            !final(self).halted,
            final(self).regs.cpsr == 0x1F,
            final(self).regs.mode == Mode::System,
            forall|i: int| 0 <= i < 16 ==> final(self).regs.r@[i] == 0,
    {
        self.regs = Registers::new();
        self.regs.set_pc(0);
        self.cycles = 0;
        self.halted = false;
    }

    /// Runs one instruction and returns the cycles it used; a halted
    /// processor does nothing and reports one cycle.
    pub fn step<M: MemoryBus>(&mut self, bus: &mut M) -> (cycles: u32)
        requires
            old(self).cycles + MAX_INSTRUCTION_CYCLES <= u64::MAX,
            old(bus).inv(),
        ensures
            final(bus).inv(),
            final(bus).display_position() == old(bus).display_position(),
            final(bus).interrupt_state() == old(bus).interrupt_state(),
            extends(old(bus).accesses(), final(bus).accesses()),
            only_reads(old(bus).accesses(), final(bus).accesses()) ==> final(bus).contents() == old(
                bus,
            ).contents(),
            1 <= cycles <= MAX_INSTRUCTION_CYCLES,
            old(self).halted ==> cycles == 1 && final(self).regs == old(self).regs
                && final(self).cycles == old(self).cycles && final(self).halted && final(bus).accesses()
                == old(bus).accesses(),
            !old(self).halted ==> {
                &&& final(self).cycles == old(self).cycles + cycles
                &&& !final(self).halted
                &&& if bit_of(old(self).regs.cpsr, 5) {
                    exists|w: u16, mid: Registers|
                        w == halfword_of(&*old(bus), old(self).regs.r@[15]) && advanced_pc(old(self).regs, 2, mid) && thumb_post(
                            mid,
                            w,
                            final(self).regs,
                            cycles,
                            old(bus).accesses().push(BusAccess::ReadHalfword(old(self).regs.r@[15], w)),
                            final(bus).accesses(),
                        )
                } else {
                    exists|w: u32, mid: Registers|
                        w == word_of(&*old(bus), old(self).regs.r@[15]) && advanced_pc(old(self).regs, 4, mid) && arm_post(
                            mid,
                            w,
                            final(self).regs,
                            cycles,
                            old(bus).accesses().push(BusAccess::ReadWord(old(self).regs.r@[15], w)),
                            final(bus).accesses(),
                        )
                }
            },
    {
        proof {
            lemma_extends_refl(bus.accesses());
        }
        if self.halted {
            return 1;
        }
        let cycles = if self.regs.is_thumb() {
            self.execute_thumb(bus)
        } else {
            self.execute_arm(bus)
        };
        self.cycles = self.cycles + cycles as u64;
        cycles
    }

    /// Fetches and runs one ARM instruction.
    fn execute_arm<M: MemoryBus>(&mut self, bus: &mut M) -> (cycles: u32)
        requires
            old(bus).inv(),
        ensures
            final(bus).inv(),
            final(bus).display_position() == old(bus).display_position(),
            final(bus).interrupt_state() == old(bus).interrupt_state(),
            extends(old(bus).accesses(), final(bus).accesses()),
            only_reads(old(bus).accesses(), final(bus).accesses()) ==> final(bus).contents() == old(
                bus,
            ).contents(),
            1 <= cycles <= MAX_INSTRUCTION_CYCLES,
            final(self).cycles == old(self).cycles,
            final(self).halted == old(self).halted,
            exists|w: u32, mid: Registers|
                w == word_of(&*old(bus), old(self).regs.r@[15]) && advanced_pc(old(self).regs, 4, mid) && arm_post(
                    mid,
                    w,
                    final(self).regs,
                    cycles,
                    old(bus).accesses().push(BusAccess::ReadWord(old(self).regs.r@[15], w)),
                    final(bus).accesses(),
                ),
    {
        let pc = self.regs.pc();
        let instruction = bus.read_word(pc);
        self.regs.set_pc(pc.wrapping_add(4));
        proof {
            lemma_wrap32(pc + 4);
        }
        let ghost mid = self.regs;
        let ghost log0 = bus.accesses();
        proof {
            lemma_extends_push(old(bus).accesses(), BusAccess::ReadWord(pc, instruction));
        }
        let cycles = self.execute_arm_instruction(instruction, bus);
        proof {
            lemma_extends_trans(old(bus).accesses(), log0, bus.accesses());
        }
        assert(advanced_pc(old(self).regs, 4, mid) && arm_post(
            mid,
            instruction,
            self.regs,
            cycles,
            log0,
            bus.accesses(),
        ));
        cycles
    }

    /// Runs an ARM instruction that was already fetched (the PC points past
    /// it) and returns the cycles it used.
    pub fn execute_arm_instruction<M: MemoryBus>(&mut self, instruction: u32, bus: &mut M) -> (cycles:
        u32)
        requires
            old(bus).inv(),
        ensures
            final(bus).inv(),
            final(bus).display_position() == old(bus).display_position(),
            final(bus).interrupt_state() == old(bus).interrupt_state(),
            extends(old(bus).accesses(), final(bus).accesses()),
            only_reads(old(bus).accesses(), final(bus).accesses()) ==> final(bus).contents() == old(
                bus,
            ).contents(),
            1 <= cycles <= MAX_INSTRUCTION_CYCLES,
            final(self).cycles == old(self).cycles,
            final(self).halted == old(self).halted,
            arm_post(
                old(self).regs,
                instruction,
                final(self).regs,
                cycles,
                old(bus).accesses(),
                final(bus).accesses(),
            ),
    {
        proof {
            lemma_extends_refl(bus.accesses());
        }
        let condition = Condition::from_opcode(instruction);
        if !condition.check(self.regs.cpsr) {
            return 1;
        }
        let decoded = decode_arm(instruction);
        match decoded {
            ArmInstruction::DataProcessing { opcode, set_flags, rn, rd, operand2, immediate } => {
                let (op2_value, carry) = decode_operand2(operand2, immediate, &self.regs);
                execute_data_processing(
                    &mut self.regs,
                    opcode,
                    rd,
                    rn,
                    op2_value,
                    set_flags,
                    carry,
                )
            },
            ArmInstruction::Branch { link, offset } => execute_branch(&mut self.regs, offset, link),
            ArmInstruction::BranchExchange { rn } => execute_branch_exchange(&mut self.regs, rn),
            ArmInstruction::SingleDataTransfer {
                load,
                byte,
                pre_index,
                add,
                writeback,
                rn,
                rd,
                offset,
                immediate,
            } => {
                let offset_val = if immediate {
                    offset
                } else {
                    let (val, _) = decode_operand2(offset, false, &self.regs);
                    val
                };
                execute_single_data_transfer(
                    &mut self.regs,
                    bus,
                    load,
                    byte,
                    pre_index,
                    add,
                    writeback,
                    rn,
                    rd,
                    offset_val,
                )
            },
            ArmInstruction::BlockDataTransfer {
                load,
                pre_index,
                add,
                writeback,
                rn,
                register_list,
                ..
            } => {
                proof {
                    lemma_popcount_bound(register_list, 16);
                }
                execute_block_data_transfer(
                    &mut self.regs,
                    bus,
                    load,
                    pre_index,
                    add,
                    writeback,
                    rn,
                    register_list,
                )
            },
            ArmInstruction::Multiply { accumulate, set_flags, rd, rn, rs, rm } => {
                let ghost old_regs = self.regs;
                let rm_val = self.regs.r[rm as usize];
                let rs_val = self.regs.r[rs as usize];
                let mut result = rm_val.wrapping_mul(rs_val);
                let acc: u32 = if accumulate {
                    self.regs.r[rn as usize]
                } else {
                    0
                };
                proof {
                    lemma_mul_wrap(rm_val, rs_val, acc);
                    lemma_wrap32(result + acc);
                }
                result = result.wrapping_add(acc);
                self.regs.r[rd as usize] = result;
                if set_flags {
                    proof {
                        crate::instructions::alu::lemma_sign_bit_raw(result);
                    }
                    self.regs.set_flag_n((result & 0x8000_0000) != 0);
                    self.regs.set_flag_z(result == 0);
                }
                assert(self.regs.r@ =~= old_regs.r@.update(rd as int, result));
                2
            },
            ArmInstruction::SWI { .. } => {
                let pc = self.regs.pc();
                let saved_cpsr = self.regs.cpsr;
                self.regs.change_mode(Mode::Supervisor);
                let ghost mid = self.regs;
                self.regs.set_spsr(saved_cpsr);
                self.regs.r[14] = pc;
                self.regs.set_pc(0x08);
                assert(self.regs.r@ =~= mid.r@.update(14, pc).update(15, 8));
                assert(exception_entry(
                    old(self).regs,
                    Mode::Supervisor,
                    mid,
                    old(self).regs.cpsr,
                    mid.cpsr,
                    pc,
                    8,
                    self.regs,
                ));
                3
            },
            ArmInstruction::Undefined => 1,
        }
    }

    /// Fetches and runs one THUMB instruction.
    fn execute_thumb<M: MemoryBus>(&mut self, bus: &mut M) -> (cycles: u32)
        requires
            old(bus).inv(),
        ensures
            final(bus).inv(),
            final(bus).display_position() == old(bus).display_position(),
            final(bus).interrupt_state() == old(bus).interrupt_state(),
            extends(old(bus).accesses(), final(bus).accesses()),
            only_reads(old(bus).accesses(), final(bus).accesses()) ==> final(bus).contents() == old(
                bus,
            ).contents(),
            1 <= cycles <= MAX_INSTRUCTION_CYCLES,
            final(self).cycles == old(self).cycles,
            final(self).halted == old(self).halted,
            exists|w: u16, mid: Registers|
                w == halfword_of(&*old(bus), old(self).regs.r@[15]) && advanced_pc(old(self).regs, 2, mid) && thumb_post(
                    mid,
                    w,
                    final(self).regs,
                    cycles,
                    old(bus).accesses().push(BusAccess::ReadHalfword(old(self).regs.r@[15], w)),
                    final(bus).accesses(),
                ),
    {
        let pc = self.regs.pc();
        let instruction = bus.read_halfword(pc);
        self.regs.set_pc(pc.wrapping_add(2));
        proof {
            lemma_wrap32(pc + 2);
        }
        let ghost mid = self.regs;
        let ghost log0 = bus.accesses();
        proof {
            lemma_extends_push(old(bus).accesses(), BusAccess::ReadHalfword(pc, instruction));
        }
        let cycles = self.execute_thumb_instruction(instruction, bus);
        proof {
            lemma_extends_trans(old(bus).accesses(), log0, bus.accesses());
        }
        assert(advanced_pc(old(self).regs, 2, mid) && thumb_post(
            mid,
            instruction,
            self.regs,
            cycles,
            log0,
            bus.accesses(),
        ));
        cycles
    }

    /// Runs a THUMB instruction that was already fetched (the PC points past
    /// it) and returns the cycles it used.
    pub fn execute_thumb_instruction<M: MemoryBus>(&mut self, instruction: u16, bus: &mut M) -> (cycles:
        u32)
        requires
            old(bus).inv(),
        ensures
            final(bus).inv(),
            final(bus).display_position() == old(bus).display_position(),
            final(bus).interrupt_state() == old(bus).interrupt_state(),
            extends(old(bus).accesses(), final(bus).accesses()),
            only_reads(old(bus).accesses(), final(bus).accesses()) ==> final(bus).contents() == old(
                bus,
            ).contents(),
            1 <= cycles <= MAX_INSTRUCTION_CYCLES,
            final(self).cycles == old(self).cycles,
            final(self).halted == old(self).halted,
            thumb_post(
                old(self).regs,
                instruction,
                final(self).regs,
                cycles,
                old(bus).accesses(),
                final(bus).accesses(),
            ),
    {
        proof {
            lemma_extends_refl(bus.accesses());
        }
        let c = self.regs.flag_c();
        match decode_thumb(instruction) {
            ThumbInstruction::MoveShiftedRegister { op, offset, rs, rd } => {
                let ghost old_regs = self.regs;
                let amount: u32 = if (op == 1 || op == 2) && offset == 0 {
                    32
                } else {
                    offset as u32
                };
                let (v, sc) = crate::instructions::alu::barrel_shift(
                    self.regs.r[rs as usize],
                    op as u32,
                    amount,
                    c,
                );
                self.regs.r[rd as usize] = v;
                let ghost with_r = self.regs;
                crate::instructions::alu::update_logic_flags(&mut self.regs, v, sc);
                assert(self.regs.r@ =~= old_regs.r@.update(rd as int, v));
                1
            },
            ThumbInstruction::AddSubtract { sub, immediate, rn_offset, rs, rd } => {
                let operand = if immediate {
                    rn_offset as u32
                } else {
                    self.regs.r[rn_offset as usize]
                };
                let opcode = if sub {
                    DP_SUB
                } else {
                    DP_ADD
                };
                execute_data_processing(&mut self.regs, opcode, rd, rs, operand, true, c)
            },
            ThumbInstruction::AluImmediate { op, rd, offset } => {
                let opcode = if op == 0 {
                    DP_MOV
                } else if op == 1 {
                    DP_CMP
                } else if op == 2 {
                    DP_ADD
                } else {
                    DP_SUB
                };
                execute_data_processing(&mut self.regs, opcode, rd, rd, offset as u32, true, c)
            },
            ThumbInstruction::HiRegisterOps { op, h2, rs, .. } => {
                if op == 3 {
                    let rsf = if h2 {
                        rs + 8
                    } else {
                        rs
                    };
                    execute_branch_exchange(&mut self.regs, rsf)
                } else {
                    1
                }
            },
            ThumbInstruction::LoadStoreImmOffset { load, byte, offset, rb, rd } => {
                let off: u32 = if byte {
                    offset as u32
                } else {
                    (offset as u32) * 4
                };
                execute_single_data_transfer(
                    &mut self.regs,
                    bus,
                    load,
                    byte,
                    true,
                    true,
                    false,
                    rb,
                    rd,
                    off,
                )
            },
            ThumbInstruction::ConditionalBranch { cond, offset } => {
                let condition = Condition::from_opcode((cond as u32) << 28);
                assert(((((cond as u32) << 28u32) >> 28u32) & 0xF) == cond as u32) by (bit_vector)
                    requires
                        cond <= 0xF,
                ;
                if condition.check(self.regs.cpsr) {
                    let ghost old_regs = self.regs;
                    let pc = self.regs.pc();
                    let target = pc.wrapping_add_signed((offset as i32) * 2);
                    self.regs.set_pc(target);
                    assert(self.regs.r@ =~= old_regs.r@.update(15, wrap32(pc + offset * 2)));
                    3
                } else {
                    1
                }
            },
            ThumbInstruction::UnconditionalBranch { offset } => {
                let ghost old_regs = self.regs;
                let pc = self.regs.pc();
                let target = pc.wrapping_add_signed((offset as i32) * 2);
                self.regs.set_pc(target);
                assert(self.regs.r@ =~= old_regs.r@.update(15, wrap32(pc + offset * 2)));
                3
            },
            _ => 1,
        }
    }

    /// Raises an IRQ: taken unless the I bit of the CPSR masks it.
    pub fn request_interrupt(&mut self)
        ensures
            final(self).cycles == old(self).cycles,
            final(self).halted == old(self).halted,
            bit_of(old(self).regs.cpsr, 7) ==> final(self).regs == old(self).regs,
            !bit_of(old(self).regs.cpsr, 7) ==> irq_entry_post(old(self).regs, final(self).regs),
    {
        let c = self.regs.cpsr;
        if !crate::registers::get_bit(c, 7) {
            self.handle_irq();
        }
    }

    /// Enters IRQ mode and jumps to the IRQ vector.
    fn handle_irq(&mut self)
        ensures
            final(self).cycles == old(self).cycles,
            final(self).halted == old(self).halted,
            irq_entry_post(old(self).regs, final(self).regs),
    {
        let old_cpsr = self.regs.cpsr;
        let pc = self.regs.pc();
        self.regs.change_mode(Mode::IRQ);
        let ghost mid = self.regs;
        self.regs.set_spsr(old_cpsr);
        let lr = pc.wrapping_add(4);
        proof {
            lemma_wrap32(pc + 4);
        }
        self.regs.set_lr(lr);
        self.regs.cpsr = crate::registers::set_bit(self.regs.cpsr, 7, true);
        self.regs.cpsr = crate::registers::set_bit(self.regs.cpsr, 5, false);
        self.regs.set_pc(0x18);
        assert(self.regs.r@ =~= mid.r@.update(14, lr).update(15, 0x18));
        assert(exception_entry(
            old(self).regs,
            Mode::IRQ,
            mid,
            old_cpsr,
            with_bit(with_bit(mid.cpsr, 7, true), 5, false),
            lr,
            0x18,
            self.regs,
        ));
    }
}

/// A taken IRQ leaves IRQs masked, so a second request right after it does
/// nothing: the processor is in IRQ mode, with the CPSR from before saved in
/// the IRQ SPSR.
pub proof fn lemma_irq_masks_further_irqs(old: Registers, new: Registers)
    requires
        irq_entry_post(old, new),
    ensures
        bit_of(new.cpsr, 7),
        !bit_of(new.cpsr, 5),
        new.mode == Mode::IRQ,
        new.spsr_irq == old.cpsr,
        new.r@[15] == 0x18,
{
    let mid = choose|mid: Registers|
        exception_entry(
            old,
            Mode::IRQ,
            mid,
            old.cpsr,
            with_bit(with_bit(mid.cpsr, 7, true), 5, false),
            wrap32(old.r@[15] + 4),
            0x18,
            new,
        );
    crate::registers::lemma_with_bit(with_bit(mid.cpsr, 7, true), 5, false);
    crate::registers::lemma_with_bit(mid.cpsr, 7, true);
}

impl Default for ARM7TDMI {
    fn default() -> (cpu: Self)
        ensures
            cpu.cycles == 0,
            !cpu.halted,
    {
        Self::new()
    }
}

} // verus!
