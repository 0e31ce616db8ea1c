use vstd::prelude::*;
use crate::cpu::{BusAccess, MemoryBus, extends, only_reads};
use crate::instructions::alu::wrap32;
use crate::registers::Registers;

verus! {

/// Address `base` moved by `offset` up (`add`) or down.
pub open spec fn offset_address(base: u32, add: bool, offset: u32) -> u32 {
    if add {
        wrap32(base + offset)
    } else {
        wrap32(base - offset)
    }
}

/// The value a store of register `rd` writes: R15 reads as PC + 12.
pub open spec fn store_value(regs: Registers, rd: int) -> u32 {
    if rd == 15 {
        wrap32(regs.r@[15] + 12)
    } else {
        regs.r@[rd]
    }
}

/// A loaded word as it lands in register `rd` (word-aligned for R15).
pub open spec fn loaded_value(rd: int, v: u32) -> u32 {
    if rd == 15 {
        v & !3u32
    } else {
        v
    }
}

/// Register file and bus accesses after LDR/STR. The transfer address is
/// the base moved by the offset when pre-indexed, the base itself
/// otherwise; one access is appended: a byte read or write at the address,
/// or a word read or write at the address rounded down to a word. A load
/// puts the value read (zero-extended for a byte, word-aligned for R15)
/// into Rd; a store writes Rd (its low byte for a byte store). Only Rd and,
/// with write-back (or post-indexing) to a base other than R15, the base
/// register change; the write-back comes last.
pub open spec fn single_transfer_post(
    old: Registers,
    load: bool,
    byte: bool,
    pre_index: bool,
    add: bool,
    writeback: bool,
    rn: int,
    rd: int,
    offset: u32,
    new: Registers,
    log0: Seq<BusAccess>,
    log1: Seq<BusAccess>,
) -> bool {
    let do_wb = (writeback || !pre_index) && rn != 15;
    let address = if pre_index {
        offset_address(old.r@[rn], add, offset)
    } else {
        old.r@[rn]
    };
    let rd_set = load && !(do_wb && rd == rn);
    &&& log1.len() == log0.len() + 1
    &&& log1 == log0.push(log1.last())
    &&& new == (Registers { r: new.r, ..old })
    &&& forall|j: int|
        0 <= j < 16 && (j != rd || !load) && (j != rn || !do_wb) ==> #[trigger] new.r@[j]
            == old.r@[j]
    &&& do_wb ==> new.r@[rn] == offset_address(old.r@[rn], add, offset)
    &&& if load {
        if byte {
            log1.last() matches BusAccess::ReadByte(a, v) && a == address && (rd_set ==> new.r@[rd]
                == loaded_value(rd, v as u32))
        } else {
            log1.last() matches BusAccess::ReadWord(a, v) && a == address & !3u32 && (rd_set
                ==> new.r@[rd] == loaded_value(rd, v))
        }
    } else {
        log1.last() == if byte {
            BusAccess::WriteByte(address, (store_value(old, rd) & 0xFF) as u8)
        } else {
            BusAccess::WriteWord(address & !3u32, store_value(old, rd))
        }
    }
}

/// Executes LDR/STR (word or byte) with an already computed offset; returns
/// the cycles used (3 for a load, 2 for a store).
pub fn execute_single_data_transfer<M: MemoryBus>(
    regs: &mut Registers,
    bus: &mut M,
    load: bool,
    byte: bool,
    pre_index: bool,
    add: bool,
    writeback: bool,
    rn: u8,
    rd: u8,
    offset: u32,
) -> (cycles: u32)
    requires
        rn < 16,
        rd < 16,
        old(bus).inv(),
    ensures
        final(bus).inv(),
        final(bus).display_position() == old(bus).display_position(),
        final(bus).interrupt_state() == old(bus).interrupt_state(),
        extends(old(bus).accesses(), final(bus).accesses()),
        only_reads(old(bus).accesses(), final(bus).accesses()) ==> final(bus).contents() == old(
            bus,
        ).contents(),
        cycles == (if load {
            3u32
        } else {
            2u32
        }),
        single_transfer_post(
            *old(regs),
            load,
            byte,
            pre_index,
            add,
            writeback,
            rn as int,
            rd as int,
            offset,
            *final(regs),
            old(bus).accesses(),
            final(bus).accesses(),
        ),
{
    let ghost old_regs = *regs;
    let base = regs.r[rn as usize];
    let moved = if add {
        base.wrapping_add(offset)
    } else {
        base.wrapping_sub(offset)
    };
    proof {
        crate::instructions::alu::lemma_wrap32(base + offset);
        crate::instructions::alu::lemma_wrap32(base - offset);
    }
    assert(moved == offset_address(base, add, offset));
    let address = if pre_index {
        moved
    } else {
        base
    };
    if load {
        let value = if byte {
            bus.read_byte(address) as u32
        } else {
            bus.read_word(address & !3)
        };
        if rd == 15 {
            regs.set_pc(value & !3);
            proof {
                crate::bits::lemma_u32_field(value, 0, 0);
            }
        } else {
            regs.r[rd as usize] = value;
        }
    } else {
        let value = if rd == 15 {
            regs.pc().wrapping_add(12)
        } else {
            regs.r[rd as usize]
        };
        if byte {
            proof {
                crate::bits::lemma_u32_field(value, 0, 0xFF);
            }
            bus.write_byte(address, (value & 0xFF) as u8);
        } else {
            bus.write_word(address & !3, value);
        }
    }
    assert(bus.accesses().subrange(0, old(bus).accesses().len() as int) =~= old(bus).accesses());
    if writeback || !pre_index {
        if rn != 15 {
            regs.r[rn as usize] = moved;
        }
    }
    if load {
        3
    } else {
        2
    }
}

/// Number of set bits among the lowest `n` bits of `x`.
pub open spec fn popcount16(x: u16, n: nat) -> nat
    decreases n,
{
    if n == 0 {
        0
    } else {
        popcount16(x, (n - 1) as nat) + (if (x >> ((n - 1) as u16)) & 1u16 == 1u16 {
            1nat
        } else {
            0nat
        })
    }
}

/// Number of set bits of a 16-bit register list.
pub fn count_ones16(x: u16) -> (r: u32)
    ensures
        r == popcount16(x, 16),
        r <= 16,
{
    let mut count: u32 = 0;
    let mut i: u16 = 0;
    while i < 16
        invariant
            i <= 16,
            count == popcount16(x, i as nat),
            count <= i,
        decreases 16 - i,
    {
        if (x >> i) & 1 == 1 {
            count = count + 1;
        }
        i = i + 1;
    }
    count
}

/// Whether register `j` is in the list.
pub open spec fn in_list(list: u16, j: int) -> bool {
    (list >> (j as u16)) & 1u16 == 1u16
}

/// Address of the `k`-th of `n` words of LDM/STM from base `base`: the
/// words are consecutive and ascending, the lowest register at the lowest
/// address; they start at the base going up (one word above it when
/// pre-indexed) and end at the base going down (one word below it when
/// pre-indexed).
pub open spec fn block_address(base: u32, add: bool, pre_index: bool, n: nat, k: int) -> u32 {
    let start = if add {
        base as int
    } else {
        base - 4 * n
    };
    wrap32(start + 4 * k + (if pre_index == add {
        4int
    } else {
        0int
    }))
}

/// Register file and bus accesses after LDM/STM: one word access per listed
/// register, in ascending register order at `block_address`; a load puts
/// each word read into its register (word-aligned for R15), a store writes
/// each register (R15 as PC + 12). Registers outside the list keep their
/// values, a store changes no register, and write-back, which comes last,
/// moves the base by four bytes per listed register.
pub open spec fn block_transfer_post(
    old: Registers,
    load: bool,
    pre_index: bool,
    add: bool,
    writeback: bool,
    rn: int,
    list: u16,
    new: Registers,
    log0: Seq<BusAccess>,
    log1: Seq<BusAccess>,
) -> bool {
    let n = popcount16(list, 16);
    &&& log1.len() == log0.len() + n
    &&& log1.subrange(0, log0.len() as int) == log0
    &&& new == (Registers { r: new.r, ..old })
    &&& forall|j: int|
        0 <= j < 16 && (!load || !in_list(list, j)) && (j != rn || !writeback) ==> #[trigger] new.r@[j]
            == old.r@[j]
    &&& (writeback && (!load || !in_list(list, rn))) ==> new.r@[rn] == offset_address(
        old.r@[rn],
        add,
        (4 * n) as u32,
    )
    &&& forall|j: int|
        0 <= j < 16 && #[trigger] in_list(list, j) ==> block_access(
            old,
            load,
            pre_index,
            add,
            writeback,
            rn,
            list,
            new,
            log1[(log0.len() + popcount16(list, j as nat)) as int],
            j,
        )
}

/// The access LDM/STM makes for listed register `j`, and what lands in
/// `j` on a load (unless write-back overwrites the base).
pub open spec fn block_access(
    old: Registers,
    load: bool,
    pre_index: bool,
    add: bool,
    writeback: bool,
    rn: int,
    list: u16,
    new: Registers,
    a: BusAccess,
    j: int,
) -> bool {
    let addr = block_address(old.r@[rn], add, pre_index, popcount16(list, 16), popcount16(list, j as nat) as int);
    if load {
        a matches BusAccess::ReadWord(x, v) && x == addr && (!(writeback && j == rn) ==> new.r@[j]
            == loaded_value(j, v))
    } else {
        a == BusAccess::WriteWord(addr, store_value(old, j))
    }
}

/// A listed register below `i` counts among the first `i` bits, and the
/// count never goes down.
proof fn lemma_popcount_mono(x: u16, a: nat, b: nat)
    requires
        a <= b <= 16,
    ensures
        popcount16(x, a) <= popcount16(x, b),
        a < b && in_list(x, a as int) ==> popcount16(x, a) < popcount16(x, b),
    decreases b - a,
{
    if a < b {
        lemma_popcount_mono(x, a, (b - 1) as nat);
        if a == b - 1 {
            assert(((b - 1) as nat) as u16 == a as u16);
        }
    }
}

/// `wrap32` forgets whole turns of the argument it is added to.
proof fn lemma_wrap32_add(x: int, d: int)
    ensures
        wrap32(wrap32(x) + d) == wrap32(x + d),
{
    let m = 0x1_0000_0000int;
    vstd::arithmetic::div_mod::lemma_add_mod_noop(x, d, m);
    vstd::arithmetic::div_mod::lemma_add_mod_noop(x % m, d, m);
    vstd::arithmetic::div_mod::lemma_mod_twice(x, m);
    vstd::arithmetic::div_mod::lemma_small_mod((x % m) as nat, m as nat);
}

/// Executes LDM/STM over the registers in `register_list`; returns the
/// cycles used (one per register, plus 2 for a load or 1 for a store).
pub fn execute_block_data_transfer<M: MemoryBus>(
    regs: &mut Registers,
    bus: &mut M,
    load: bool,
    pre_index: bool,
    add: bool,
    writeback: bool,
    rn: u8,
    register_list: u16,
) -> (cycles: u32)
    requires
        rn < 16,
        old(bus).inv(),
    ensures
        final(bus).inv(),
        final(bus).display_position() == old(bus).display_position(),
        final(bus).interrupt_state() == old(bus).interrupt_state(),
        extends(old(bus).accesses(), final(bus).accesses()),
        only_reads(old(bus).accesses(), final(bus).accesses()) ==> final(bus).contents() == old(
            bus,
        ).contents(),
        cycles == popcount16(register_list, 16) + (if load {
            2u32
        } else {
            1u32
        }),
        block_transfer_post(
            *old(regs),
            load,
            pre_index,
            add,
            writeback,
            rn as int,
            register_list,
            *final(regs),
            old(bus).accesses(),
            final(bus).accesses(),
        ),
{
    let ghost old_regs = *regs;
    let ghost log0 = bus.accesses();
    let base = regs.r[rn as usize];
    let count = count_ones16(register_list);
    let ghost start: int = if add {
        base as int
    } else {
        base - 4 * count
    };
    let mut address = if add {
        base
    } else {
        base.wrapping_sub(count * 4)
    };
    proof {
        crate::instructions::alu::lemma_wrap32(base - 4 * count);
        vstd::arithmetic::div_mod::lemma_small_mod(base as nat, 0x1_0000_0000nat);
    }
    let before_access = pre_index == add;
    let mut cycles: u32 = 0;
    let mut i: usize = 0;
    while i < 16
        invariant
            i <= 16,
            rn < 16,
            old_regs.r@[rn as int] == base,
            count == popcount16(register_list, 16),
            cycles == popcount16(register_list, i as nat),
            cycles <= i,
            before_access == (pre_index == add),
            start == (if add {
                base as int
            } else {
                base - 4 * count
            }),
            address == wrap32(start + 4 * cycles),
            bus.inv(),
            bus.display_position() == old(bus).display_position(),
            bus.interrupt_state() == old(bus).interrupt_state(),
            bus.accesses().len() == log0.len() + cycles,
            bus.accesses().subrange(0, log0.len() as int) == log0,
            log0 == old(bus).accesses(),
            only_reads(log0, bus.accesses()) ==> bus.contents() == old(bus).contents(),
            *regs == (Registers { r: regs.r, ..old_regs }),
            forall|j: int|
                0 <= j < 16 && (!load || !in_list(register_list, j) || j >= i) ==> #[trigger] regs.r@[j]
                    == old_regs.r@[j],
            forall|j: int|
                0 <= j < i && #[trigger] in_list(register_list, j) ==> {
                    let a = bus.accesses()[(log0.len() + popcount16(register_list, j as nat)) as int];
                    let addr = block_address(base, add, pre_index, count as nat, popcount16(register_list, j as nat) as int);
                    if load {
                        a matches BusAccess::ReadWord(x, v) && x == addr && regs.r@[j] == loaded_value(j, v)
                    } else {
                        a == BusAccess::WriteWord(addr, store_value(old_regs, j))
                    }
                },
        decreases 16 - i,
    {
        proof {
            lemma_popcount_bound(register_list, i as nat);
        }
        if (register_list >> (i as u16)) & 1 == 1 {
            let ghost log_before = bus.accesses();
            let ghost regs_before = *regs;
            let access_address = if before_access {
                address.wrapping_add(4)
            } else {
                address
            };
            proof {
                lemma_wrap32_add(start + 4 * cycles, 4);
                crate::instructions::alu::lemma_wrap32(address + 4);
                assert(access_address == block_address(base, add, pre_index, count as nat, cycles as int));
            }
            let ghost contents_before = bus.contents();
            if load {
                let value = bus.read_word(access_address);
                if i == 15 {
                    regs.set_pc(value & !3);
                } else {
                    regs.r[i] = value;
                }
            } else {
                let value = if i == 15 {
                    proof {
                        crate::instructions::alu::lemma_wrap32(regs.r@[15] + 12);
                    }
                    regs.pc().wrapping_add(12)
                } else {
                    regs.r[i]
                };
                bus.write_word(access_address, value);
            }
            proof {
                lemma_wrap32_add(start + 4 * cycles, 4);
                crate::instructions::alu::lemma_wrap32(address + 4);
                assert forall|j: int|
                    0 <= j < i && #[trigger] in_list(register_list, j) implies popcount16(register_list, j as nat) < cycles by {
                    lemma_popcount_mono(register_list, j as nat, i as nat);
                }
                assert(bus.accesses()[(log0.len() + cycles) as int] == bus.accesses().last());
                if only_reads(log0, bus.accesses()) {
                    assert forall|k: int| log0.len() <= k < log_before.len() implies crate::cpu::is_read(
                        #[trigger] log_before[k],
                    ) by {
                        assert(log_before[k] == bus.accesses()[k]);
                    }
                    assert(crate::cpu::is_read(bus.accesses()[bus.accesses().len() - 1]));
                }
            }
            address = address.wrapping_add(4);
            cycles = cycles + 1;
        }
        proof {
            assert(popcount16(register_list, (i + 1) as nat) == popcount16(register_list, i as nat) + (if in_list(register_list, i as int) { 1nat } else { 0nat }));
        }
        i = i + 1;
    }
    if writeback {
        let wb = regs.r[rn as usize];
        let final_address = if add {
            wb.wrapping_add(count * 4)
        } else {
            wb.wrapping_sub(count * 4)
        };
        proof {
            crate::instructions::alu::lemma_wrap32(wb + count * 4);
            crate::instructions::alu::lemma_wrap32(wb - count * 4);
        }
        regs.r[rn as usize] = final_address;
    }
    if load {
        cycles + 2
    } else {
        cycles + 1
    }
}

/// The count of the lowest `n` bits is at most `n`.
proof fn lemma_popcount_bound(x: u16, n: nat)
    ensures
        popcount16(x, n) <= n,
    decreases n,
{
    if n > 0 {
        lemma_popcount_bound(x, (n - 1) as nat);
    }
}

} // verus!
