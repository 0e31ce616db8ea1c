pub mod calls;
pub mod constants;

pub use crate::bios::calls::{
    DivResult, SqrtResult, bit_unpack, cpu_fast_set, cpu_set, div, lz77_uncomp, rl_uncomp, soft_reset,
    sqrt,
};
pub use crate::bios::constants::{
    CPUSET_32BIT, CPUSET_FILL, SWI_ARCTAN, SWI_ARCTAN2, SWI_BG_AFFINE_SET, SWI_BIT_UNPACK,
    SWI_CPU_FAST_SET, SWI_CPU_SET, SWI_DIFF_16BIT_UNCOMP, SWI_DIFF_8BIT_UNCOMP_VRAM,
    SWI_DIFF_8BIT_UNCOMP_WRAM, SWI_DIV, SWI_DIV_ARM, SWI_HALT, SWI_HUFF_UNCOMP, SWI_INTR_WAIT,
    SWI_LZ77_UNCOMP_VRAM, SWI_LZ77_UNCOMP_WRAM, SWI_MIDI_KEY2FREQ, SWI_OBJ_AFFINE_SET,
    SWI_REGISTER_RAM_RESET, SWI_RL_UNCOMP_VRAM, SWI_RL_UNCOMP_WRAM, SWI_SOFT_RESET,
    SWI_SOUND_BIAS, SWI_SOUND_CHANNEL_CLEAR, SWI_SOUND_DRIVER_INIT, SWI_SOUND_DRIVER_MAIN,
    SWI_SOUND_DRIVER_MODE, SWI_SOUND_DRIVER_VSYNC, SWI_SOUND_DRIVER_VSYNC_OFF,
    SWI_SOUND_DRIVER_VSYNC_ON, SWI_SQRT, SWI_STOP, SWI_VBLANK_INTR_WAIT,
};

use vstd::prelude::*;

verus! {

/// BIOS state: halted by Halt/Stop, or waiting for an interrupt.
pub struct Bios {
    pub halted: bool,
    pub waiting_for_interrupt: bool,
}

impl Bios {
    pub fn new() -> (r: Self)
        ensures
            !r.halted && !r.waiting_for_interrupt,
    {
        Bios { halted: false, waiting_for_interrupt: false }
    }

    /// Neither halted nor waiting.
    pub fn reset(&mut self)
        ensures
            !final(self).halted && !final(self).waiting_for_interrupt,
    {
        self.halted = false;
        self.waiting_for_interrupt = false;
    }

    /// Takes a software interrupt and returns (halt, wait for interrupt):
    /// Halt and Stop halt, IntrWait and VBlankIntrWait wait; every other
    /// call leaves the state as it is and asks for neither.
    pub fn handle_swi(&mut self, swi_number: u8) -> (r: (bool, bool))
        ensures
            (swi_number == SWI_HALT || swi_number == SWI_STOP) ==> r == (true, false) && final(self).halted
                && final(self).waiting_for_interrupt == old(self).waiting_for_interrupt,
            (swi_number == SWI_INTR_WAIT || swi_number == SWI_VBLANK_INTR_WAIT) ==> r == (false, true)
                && final(self).waiting_for_interrupt && final(self).halted == old(self).halted,
            !(swi_number == SWI_HALT || swi_number == SWI_STOP || swi_number == SWI_INTR_WAIT || swi_number
                == SWI_VBLANK_INTR_WAIT) ==> r == (false, false) && final(self).halted == old(self).halted
                && final(self).waiting_for_interrupt == old(self).waiting_for_interrupt,
    {
        if swi_number == SWI_SOFT_RESET {
            soft_reset();
            (false, false)
        } else if swi_number == SWI_HALT || swi_number == SWI_STOP {
            self.halted = true;
            (true, false)
        } else if swi_number == SWI_INTR_WAIT || swi_number == SWI_VBLANK_INTR_WAIT {
            self.waiting_for_interrupt = true;
            (false, true)
        } else {
            (false, false)
        }
    }

    /// Leaves the halted state.
    pub fn clear_halt(&mut self)
        ensures
            !final(self).halted,
            final(self).waiting_for_interrupt == old(self).waiting_for_interrupt,
    {
        self.halted = false;
    }

    /// Stops waiting for an interrupt.
    pub fn clear_wait(&mut self)
        ensures
            !final(self).waiting_for_interrupt,
            final(self).halted == old(self).halted,
    {
        self.waiting_for_interrupt = false;
    }

    pub fn is_halted(&self) -> (r: bool)
        ensures
            r == self.halted,
    {
        self.halted
    }

    pub fn is_waiting(&self) -> (r: bool)
        ensures
            r == self.waiting_for_interrupt,
    {
        self.waiting_for_interrupt
    }
}

impl Default for Bios {
    fn default() -> (r: Self)
        ensures
            !r.halted && !r.waiting_for_interrupt,
    {
        Self::new()
    }
}

} // verus!
