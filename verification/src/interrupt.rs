use vstd::prelude::*;

verus! {

/// V-blank interrupt (bit 0 of IE/IF).
pub const VBLANK: u16 = 0x0001;

/// H-blank interrupt.
pub const HBLANK: u16 = 0x0002;

/// V-counter match interrupt.
pub const VCOUNT: u16 = 0x0004;

/// Timer 0 overflow interrupt.
pub const TIMER0: u16 = 0x0008;

/// Timer 1 overflow interrupt.
pub const TIMER1: u16 = 0x0010;

/// Timer 2 overflow interrupt.
pub const TIMER2: u16 = 0x0020;

/// Timer 3 overflow interrupt.
pub const TIMER3: u16 = 0x0040;

/// Serial communication interrupt.
pub const SERIAL: u16 = 0x0080;

/// DMA 0 end interrupt.
pub const DMA0: u16 = 0x0100;

/// DMA 1 end interrupt.
pub const DMA1: u16 = 0x0200;

/// DMA 2 end interrupt.
pub const DMA2: u16 = 0x0400;

/// DMA 3 end interrupt.
pub const DMA3: u16 = 0x0800;

/// Keypad interrupt.
pub const KEYPAD: u16 = 0x1000;

/// Game Pak interrupt.
pub const GAMEPAK: u16 = 0x2000;

/// Every defined interrupt bit.
pub const ALL_INTERRUPTS: u16 = 0x3FFF;

/// A set of interrupt sources, one bit each (bits 0 to 13).
#[derive(Debug, Clone, Copy)]
pub struct InterruptFlags {
    bits: u16,
}

impl InterruptFlags {
    /// Only the defined bits are ever set.
    #[verifier::type_invariant]
    spec fn only_defined_bits(self) -> bool {
        self.bits & ALL_INTERRUPTS == self.bits
    }

    /// The bits of the set.
    pub closed spec fn spec_bits(self) -> u16 {
        self.bits
    }

    /// The set named by `bits`, without the undefined bits 14 and 15.
    pub fn from_bits_truncate(bits: u16) -> (r: Self)
        ensures
            r.spec_bits() == bits & ALL_INTERRUPTS,
    {
        proof {
            crate::bits::lemma_u16_field(bits, 0, 0x3FFF);
        }
        InterruptFlags { bits: bits & ALL_INTERRUPTS }
    }

    /// The empty set.
    pub fn empty() -> (r: Self)
        ensures
            r.spec_bits() == 0,
    {
        proof {
            crate::bits::lemma_u16_field(0, 0, 0x3FFF);
        }
        InterruptFlags { bits: 0 }
    }

    /// The bits of the set; bits 14 and 15 are always clear.
    pub fn bits(&self) -> (r: u16)
        ensures
            r == self.spec_bits(),
            r & ALL_INTERRUPTS == r,
    {
        proof {
            use_type_invariant(self);
        }
        self.bits
    }
}

/// Interrupt state: enable mask (IE), request flags (IF) and the master
/// enable (IME).
pub struct InterruptController {
    pub ie: u16,
    pub if_: u16,
    pub ime: bool,
}

impl InterruptController {
    /// Whether an interrupt would be taken: the master enable is set and a
    /// requested interrupt is enabled.
    pub open spec fn pending_spec(self) -> bool {
        self.ime && (self.ie & self.if_) != 0
    }

    pub fn new() -> (r: Self)
        ensures
            r.ie == 0 && r.if_ == 0 && !r.ime,
    {
        InterruptController { ie: 0, if_: 0, ime: false }
    }

    /// Raises the requests in `flag`.
    pub fn request(&mut self, flag: InterruptFlags)
        ensures
            final(self).if_ == old(self).if_ | flag.spec_bits(),
            final(self).ie == old(self).ie,
            final(self).ime == old(self).ime,
    {
        self.if_ = self.if_ | flag.bits();
    }

    /// Whether an interrupt is pending.
    pub fn pending(&self) -> (r: bool)
        ensures
            r == self.pending_spec(),
    {
        self.ime && (self.ie & self.if_) != 0
    }

    /// Clears the requests in `flag`.
    pub fn acknowledge(&mut self, flag: InterruptFlags)
        ensures
            final(self).if_ == old(self).if_ & !flag.spec_bits(),
            final(self).ie == old(self).ie,
            final(self).ime == old(self).ime,
    {
        self.if_ = self.if_ & !flag.bits();
    }
}

/// Acknowledging what was just requested leaves exactly the requests that
/// were there before and are outside `flag`; the enable state is untouched.
pub proof fn lemma_request_then_acknowledge(before: InterruptController, mid: InterruptController, after: InterruptController, flag: InterruptFlags)
    requires
        mid.if_ == before.if_ | flag.spec_bits(),
        mid.ie == before.ie,
        mid.ime == before.ime,
        after.if_ == mid.if_ & !flag.spec_bits(),
        after.ie == mid.ie,
        after.ime == mid.ime,
    ensures
        after.if_ == before.if_ & !flag.spec_bits(),
        after.ie == before.ie,
        after.ime == before.ime,
{
    let a = before.if_;
    let f = flag.spec_bits();
    assert((a | f) & !f == a & !f) by (bit_vector);
}

/// A request that is enabled while the master enable is set is pending.
pub proof fn lemma_enabled_request_pending(before: InterruptController, after: InterruptController, flag: InterruptFlags)
    requires
        after.if_ == before.if_ | flag.spec_bits(),
        after.ie == before.ie,
        after.ime == before.ime,
        before.ime,
        before.ie & flag.spec_bits() != 0,
    ensures
        after.pending_spec(),
{
    let a = before.if_;
    let e = before.ie;
    let f = flag.spec_bits();
    assert(e & f != 0 ==> e & (a | f) != 0) by (bit_vector);
}

impl Default for InterruptController {
    fn default() -> (r: Self)
        ensures
            r.ie == 0 && r.if_ == 0 && !r.ime,
    {
        Self::new()
    }
}

} // verus!
