use vstd::prelude::*;
use crate::instructions::alu::wrap32;
use crate::registers::{Registers, bit_of, with_bit};

verus! {

/// Register file after a branch by `offset` bytes from the current PC; with
/// `link`, R14 receives PC - 4 first.
pub open spec fn branch_post(old: Registers, offset: int, link: bool, new: Registers) -> bool {
    let pc = old.r@[15];
    let lr = if link {
        wrap32(pc - 4)
    } else {
        old.r@[14]
    };
    &&& new == (Registers { r: new.r, ..old })
    &&& new.r@ == old.r@.update(14, lr).update(15, wrap32(pc + offset) & !3u32)
}

/// Register file after a branch-and-exchange through register `rn`: bit 0 of
/// the target selects THUMB state and the PC is aligned for the new state.
pub open spec fn branch_exchange_post(old: Registers, rn: int, new: Registers) -> bool {
    let target = old.r@[rn];
    let thumb = bit_of(target, 0);
    &&& new == (Registers { r: new.r, cpsr: with_bit(old.cpsr, 5, thumb), ..old })
    &&& new.r@ == old.r@.update(
        15,
        if thumb {
            target & !1u32
        } else {
            target & !3u32
        },
    )
}

/// Executes B or BL; the PC already points past the instruction. Returns the
/// cycles used (3).
pub fn execute_branch(regs: &mut Registers, offset: i32, link: bool) -> (cycles: u32)
    ensures
        cycles == 3,
        branch_post(*old(regs), offset as int, link, *final(regs)),
{
    let ghost old_regs = *regs;
    let pc = regs.pc();
    if link {
        regs.r[14] = pc.wrapping_sub(4);
    }
    let new_pc = pc.wrapping_add_signed(offset);
    regs.set_pc(new_pc & !3);
    assert(regs.r@ =~= old_regs.r@.update(
        14,
        if link {
            wrap32(pc - 4)
        } else {
            old_regs.r@[14]
        },
    ).update(15, wrap32(pc + offset) & !3u32));
    3
}

/// Executes BX: jumps to the address in `rn` and selects ARM or THUMB state
/// from its bit 0. Returns the cycles used (3).
pub fn execute_branch_exchange(regs: &mut Registers, rn: u8) -> (cycles: u32)
    requires
        rn < 16,
    ensures
        cycles == 3,
        branch_exchange_post(*old(regs), rn as int, *final(regs)),
{
    let target = regs.r[rn as usize];
    let thumb_mode = crate::registers::get_bit(target, 0);
    if thumb_mode {
        regs.set_pc(target & !1);
        regs.set_thumb(true);
    } else {
        regs.set_pc(target & !3);
        regs.set_thumb(false);
    }
    3
}

} // verus!
