use vstd::prelude::*;

verus! {

/// Bit positions of the status flags in a program status register.
pub const FLAG_N: u32 = 0x8000_0000;
pub const FLAG_Z: u32 = 0x4000_0000;
pub const FLAG_C: u32 = 0x2000_0000;
pub const FLAG_V: u32 = 0x1000_0000;
pub const FLAG_IRQ_DISABLE: u32 = 0x80;
pub const FLAG_FIQ_DISABLE: u32 = 0x40;
pub const FLAG_THUMB: u32 = 0x20;

/// Whether bit `n` of `x` is set.
pub open spec fn bit_of(x: u32, n: u32) -> bool {
    (x >> n) & 1u32 == 1u32
}

/// `x` with bit `n` forced to `b`.
pub open spec fn with_bit(x: u32, n: u32, b: bool) -> u32 {
    if b {
        x | (1u32 << n)
    } else {
        x & !(1u32 << n)
    }
}

/// The bit-level facts behind `lemma_with_bit`, for one other position `i`.
proof fn lemma_with_bit_positions(x: u32, n: u32, i: u32)
    by (bit_vector)
    requires
        n < 32,
        i < 32,
    ensures
        ((x | (1u32 << n)) >> n) & 1u32 == 1u32,
        ((x & !(1u32 << n)) >> n) & 1u32 != 1u32,
        i != n ==> ((((x | (1u32 << n)) >> i) & 1u32 == 1u32) == (((x >> i) & 1u32) == 1u32)),
        i != n ==> ((((x & !(1u32 << n)) >> i) & 1u32 == 1u32) == (((x >> i) & 1u32) == 1u32)),
{
}

/// Setting a bit makes it read back as the given value and keeps every other bit.
pub proof fn lemma_with_bit(x: u32, n: u32, b: bool)
    requires
        n < 32,
    ensures
        bit_of(with_bit(x, n, b), n) == b,
        forall|i: u32| i < 32 && i != n ==> #[trigger] bit_of(with_bit(x, n, b), i) == bit_of(x, i),
{
    lemma_with_bit_positions(x, n, 0);
    assert forall|i: u32| i < 32 && i != n implies #[trigger] bit_of(with_bit(x, n, b), i) == bit_of(x, i) by {
        lemma_with_bit_positions(x, n, i);
    }
}

/// `x` with bit `n` set to `b`.
pub fn set_bit(x: u32, n: u32, b: bool) -> (r: u32)
    requires
        n < 32,
    ensures
        r == with_bit(x, n, b),
{
    if b {
        x | (1u32 << n)
    } else {
        x & !(1u32 << n)
    }
}

/// Whether bit `n` of `x` is set.
pub fn get_bit(x: u32, n: u32) -> (r: bool)
    requires
        n < 32,
    ensures
        r == bit_of(x, n),
{
    (x >> n) & 1 == 1
}

/// Operating modes of the processor.
#[derive(Debug, Clone, Copy, PartialEq, Eq, Structural)]
pub enum Mode {
    User,
    FIQ,
    IRQ,
    Supervisor,
    Abort,
    Undefined,
    System,
}

/// The five-bit encoding of a mode in the CPSR.
pub open spec fn mode_bits(m: Mode) -> u32 {
    match m {
        Mode::User => 0x10,
        Mode::FIQ => 0x11,
        Mode::IRQ => 0x12,
        Mode::Supervisor => 0x13,
        Mode::Abort => 0x17,
        Mode::Undefined => 0x1B,
        Mode::System => 0x1F,
    }
}

/// Exception modes: each has an SPSR and an R13/R14 of its own (User and
/// System share one bank and have no SPSR).
pub open spec fn is_banked_mode(m: Mode) -> bool {
    !(m is User) && !(m is System)
}

impl Mode {
    /// The mode whose encoding is in the low five bits of `bits`, if any.
    pub fn from_bits(bits: u32) -> (r: Option<Mode>)
        ensures
            match r {
                Some(m) => mode_bits(m) == bits & 0x1F,
                None => forall|m: Mode| mode_bits(m) != bits & 0x1F,
            },
    {
        let b = bits & 0x1F;
        if b == 0x10 {
            Some(Mode::User)
        } else if b == 0x11 {
            Some(Mode::FIQ)
        } else if b == 0x12 {
            Some(Mode::IRQ)
        } else if b == 0x13 {
            Some(Mode::Supervisor)
        } else if b == 0x17 {
            Some(Mode::Abort)
        } else if b == 0x1B {
            Some(Mode::Undefined)
        } else if b == 0x1F {
            Some(Mode::System)
        } else {
            None
        }
    }

    /// The CPSR encoding of this mode.
    pub fn bits(&self) -> (r: u32)
        ensures
            r == mode_bits(*self),
    {
        match self {
            Mode::User => 0x10,
            Mode::FIQ => 0x11,
            Mode::IRQ => 0x12,
            Mode::Supervisor => 0x13,
            Mode::Abort => 0x17,
            Mode::Undefined => 0x1B,
            Mode::System => 0x1F,
        }
    }
}

/// Instruction set the processor is executing.
#[derive(Debug, Clone, Copy, PartialEq, Eq, Structural)]
pub enum CpuState {
    ARM,
    THUMB,
}

/// Register file of the ARM7TDMI, with the banked copies of each mode.
#[derive(Debug, Clone, Copy)]
pub struct Registers {
    pub r: [u32; 16],
    pub r8_usr: u32,
    pub r9_usr: u32,
    pub r10_usr: u32,
    pub r11_usr: u32,
    pub r12_usr: u32,
    pub r13_usr: u32,
    pub r14_usr: u32,
    pub r8_fiq: u32,
    pub r9_fiq: u32,
    pub r10_fiq: u32,
    pub r11_fiq: u32,
    pub r12_fiq: u32,
    pub r13_fiq: u32,
    pub r14_fiq: u32,
    pub r13_svc: u32,
    pub r14_svc: u32,
    pub r13_abt: u32,
    pub r14_abt: u32,
    pub r13_irq: u32,
    pub r14_irq: u32,
    pub r13_und: u32,
    pub r14_und: u32,
    pub cpsr: u32,
    pub spsr_fiq: u32,
    pub spsr_svc: u32,
    pub spsr_abt: u32,
    pub spsr_irq: u32,
    pub spsr_und: u32,
    pub mode: Mode,
}

impl Registers {
    /// Register file after a stash of the visible banked registers into the
    /// storage of the current mode: FIQ mode keeps R8..R14 in its own bank;
    /// every other mode keeps R8..R12 in the shared bank, and R13/R14 in its
    /// own bank (User and System share theirs).
    pub open spec fn stash_banked(self) -> Registers {
        match self.mode {
            Mode::FIQ => Registers {
                r8_fiq: self.r[8],
                r9_fiq: self.r[9],
                r10_fiq: self.r[10],
                r11_fiq: self.r[11],
                r12_fiq: self.r[12],
                r13_fiq: self.r[13],
                r14_fiq: self.r[14],
                ..self
            },
            _ => {
                let s = Registers {
                    r8_usr: self.r[8],
                    r9_usr: self.r[9],
                    r10_usr: self.r[10],
                    r11_usr: self.r[11],
                    r12_usr: self.r[12],
                    ..self
                };
                match self.mode {
                    Mode::Supervisor => Registers { r13_svc: self.r[13], r14_svc: self.r[14], ..s },
                    Mode::Abort => Registers { r13_abt: self.r[13], r14_abt: self.r[14], ..s },
                    Mode::IRQ => Registers { r13_irq: self.r[13], r14_irq: self.r[14], ..s },
                    Mode::Undefined => Registers { r13_und: self.r[13], r14_und: self.r[14], ..s },
                    _ => Registers { r13_usr: self.r[13], r14_usr: self.r[14], ..s },
                }
            },
        }
    }

    /// The visible registers once the banked copies of mode `m` are loaded.
    pub open spec fn loaded_r(self, m: Mode) -> Seq<u32> {
        let r = self.r@;
        match m {
            Mode::FIQ => r.update(8, self.r8_fiq).update(9, self.r9_fiq).update(10, self.r10_fiq).update(
                11,
                self.r11_fiq,
            ).update(12, self.r12_fiq).update(13, self.r13_fiq).update(14, self.r14_fiq),
            _ => {
                let u = r.update(8, self.r8_usr).update(9, self.r9_usr).update(10, self.r10_usr).update(
                    11,
                    self.r11_usr,
                ).update(12, self.r12_usr);
                match m {
                    Mode::Supervisor => u.update(13, self.r13_svc).update(14, self.r14_svc),
                    Mode::Abort => u.update(13, self.r13_abt).update(14, self.r14_abt),
                    Mode::IRQ => u.update(13, self.r13_irq).update(14, self.r14_irq),
                    Mode::Undefined => u.update(13, self.r13_und).update(14, self.r14_und),
                    _ => u.update(13, self.r13_usr).update(14, self.r14_usr),
                }
            },
        }
    }

    /// Every field but the visible registers, the CPSR and the mode is the same.
    pub open spec fn same_banks(self, other: Registers) -> bool {
        &&& self.r8_usr == other.r8_usr
        &&& self.r9_usr == other.r9_usr
        &&& self.r10_usr == other.r10_usr
        &&& self.r11_usr == other.r11_usr
        &&& self.r12_usr == other.r12_usr
        &&& self.r13_usr == other.r13_usr
        &&& self.r14_usr == other.r14_usr
        &&& self.r8_fiq == other.r8_fiq
        &&& self.r9_fiq == other.r9_fiq
        &&& self.r10_fiq == other.r10_fiq
        &&& self.r11_fiq == other.r11_fiq
        &&& self.r12_fiq == other.r12_fiq
        &&& self.r13_fiq == other.r13_fiq
        &&& self.r14_fiq == other.r14_fiq
        &&& self.r13_svc == other.r13_svc
        &&& self.r14_svc == other.r14_svc
        &&& self.r13_abt == other.r13_abt
        &&& self.r14_abt == other.r14_abt
        &&& self.r13_irq == other.r13_irq
        &&& self.r14_irq == other.r14_irq
        &&& self.r13_und == other.r13_und
        &&& self.r14_und == other.r14_und
        &&& self.spsr_fiq == other.spsr_fiq
        &&& self.spsr_svc == other.spsr_svc
        &&& self.spsr_abt == other.spsr_abt
        &&& self.spsr_irq == other.spsr_irq
        &&& self.spsr_und == other.spsr_und
    }

    /// Whether `next` is this register file after a switch to mode `m`.
    pub open spec fn changed_mode(self, m: Mode, next: Registers) -> bool {
        if self.mode == m {
            next == self
        } else {
            let s = self.stash_banked();
            &&& next.r@ == s.loaded_r(m)
            &&& next.same_banks(s)
            &&& next.mode == m
            &&& next.cpsr == (self.cpsr & 0xFFFF_FFE0) | mode_bits(m)
        }
    }

    /// Saved program status register of the current mode (the CPSR in User
    /// and System mode, which have none).
    pub open spec fn spsr_of(self) -> u32 {
        match self.mode {
            Mode::FIQ => self.spsr_fiq,
            Mode::Supervisor => self.spsr_svc,
            Mode::Abort => self.spsr_abt,
            Mode::IRQ => self.spsr_irq,
            Mode::Undefined => self.spsr_und,
            _ => self.cpsr,
        }
    }

    /// The register file after writing `v` into the SPSR of the current mode.
    pub open spec fn with_spsr(self, v: u32) -> Registers {
        match self.mode {
            Mode::FIQ => Registers { spsr_fiq: v, ..self },
            Mode::Supervisor => Registers { spsr_svc: v, ..self },
            Mode::Abort => Registers { spsr_abt: v, ..self },
            Mode::IRQ => Registers { spsr_irq: v, ..self },
            Mode::Undefined => Registers { spsr_und: v, ..self },
            _ => self,
        }
    }

    /// Whether the CPSR's low five bits encode the current mode.
    pub open spec fn mode_consistent(self) -> bool {
        self.cpsr & 0x1F == mode_bits(self.mode)
    }

    pub fn new() -> (res: Self)
        ensures
            forall|i: int| 0 <= i < 16 ==> res.r@[i] == 0,
            res.cpsr == 0x1F,
            res.mode == Mode::System,
            res.r8_usr == 0 && res.r9_usr == 0 && res.r10_usr == 0 && res.r11_usr == 0,
            res.r12_usr == 0 && res.r13_usr == 0 && res.r14_usr == 0,
            res.r8_fiq == 0 && res.r9_fiq == 0 && res.r10_fiq == 0 && res.r11_fiq == 0,
            res.r12_fiq == 0 && res.r13_fiq == 0 && res.r14_fiq == 0,
            res.r13_svc == 0 && res.r14_svc == 0 && res.r13_abt == 0 && res.r14_abt == 0,
            res.r13_irq == 0 && res.r14_irq == 0 && res.r13_und == 0 && res.r14_und == 0,
            res.spsr_fiq == 0 && res.spsr_svc == 0 && res.spsr_abt == 0,
            res.spsr_irq == 0 && res.spsr_und == 0,
            res.mode_consistent(),
    {
        let res = Registers {
            r: [0u32; 16],
            r8_usr: 0,
            r9_usr: 0,
            r10_usr: 0,
            r11_usr: 0,
            r12_usr: 0,
            r13_usr: 0,
            r14_usr: 0,
            r8_fiq: 0,
            r9_fiq: 0,
            r10_fiq: 0,
            r11_fiq: 0,
            r12_fiq: 0,
            r13_fiq: 0,
            r14_fiq: 0,
            r13_svc: 0,
            r14_svc: 0,
            r13_abt: 0,
            r14_abt: 0,
            r13_irq: 0,
            r14_irq: 0,
            r13_und: 0,
            r14_und: 0,
            cpsr: 0x1F,
            spsr_fiq: 0,
            spsr_svc: 0,
            spsr_abt: 0,
            spsr_irq: 0,
            spsr_und: 0,
            mode: Mode::System,
        };
        proof {
            crate::bits::lemma_u32_field(0, 0, 0x1F);
        }
        res
    }

    /// Program counter (R15).
    pub fn pc(&self) -> (r: u32)
        ensures
            r == self.r@[15],
    {
        self.r[15]
    }

    pub fn set_pc(&mut self, value: u32)
        ensures
            *final(self) == (Registers { r: final(self).r, ..*old(self) }),
            final(self).r@ == old(self).r@.update(15, value),
    {
        self.r[15] = value;
    }

    /// Stack pointer (R13).
    pub fn sp(&self) -> (r: u32)
        ensures
            r == self.r@[13],
    {
        self.r[13]
    }

    /// Link register (R14).
    pub fn lr(&self) -> (r: u32)
        ensures
            r == self.r@[14],
    {
        self.r[14]
    }

    pub fn set_lr(&mut self, value: u32)
        ensures
            *final(self) == (Registers { r: final(self).r, ..*old(self) }),
            final(self).r@ == old(self).r@.update(14, value),
    {
        self.r[14] = value;
    }

    pub fn is_thumb(&self) -> (r: bool)
        ensures
            r == bit_of(self.cpsr, 5),
    {
        get_bit(self.cpsr, 5)
    }

    pub fn set_thumb(&mut self, thumb: bool)
        ensures
            *final(self) == (Registers { cpsr: with_bit(old(self).cpsr, 5, thumb), ..*old(self) }),
    {
        self.cpsr = set_bit(self.cpsr, 5, thumb);
    }

    pub fn cpu_state(&self) -> (r: CpuState)
        ensures
            r == (if bit_of(self.cpsr, 5) {
                CpuState::THUMB
            } else {
                CpuState::ARM
            }),
    {
        if self.is_thumb() {
            CpuState::THUMB
        } else {
            CpuState::ARM
        }
    }

    pub fn flag_n(&self) -> (r: bool)
        ensures
            r == bit_of(self.cpsr, 31),
    {
        get_bit(self.cpsr, 31)
    }

    pub fn set_flag_n(&mut self, value: bool)
        ensures
            *final(self) == (Registers { cpsr: with_bit(old(self).cpsr, 31, value), ..*old(self) }),
    {
        self.cpsr = set_bit(self.cpsr, 31, value);
    }

    pub fn flag_z(&self) -> (r: bool)
        ensures
            r == bit_of(self.cpsr, 30),
    {
        get_bit(self.cpsr, 30)
    }

    pub fn set_flag_z(&mut self, value: bool)
        ensures
            *final(self) == (Registers { cpsr: with_bit(old(self).cpsr, 30, value), ..*old(self) }),
    {
        self.cpsr = set_bit(self.cpsr, 30, value);
    }

    pub fn flag_c(&self) -> (r: bool)
        ensures
            r == bit_of(self.cpsr, 29),
    {
        get_bit(self.cpsr, 29)
    }

    pub fn set_flag_c(&mut self, value: bool)
        ensures
            *final(self) == (Registers { cpsr: with_bit(old(self).cpsr, 29, value), ..*old(self) }),
    {
        self.cpsr = set_bit(self.cpsr, 29, value);
    }

    pub fn flag_v(&self) -> (r: bool)
        ensures
            r == bit_of(self.cpsr, 28),
    {
        get_bit(self.cpsr, 28)
    }

    pub fn set_flag_v(&mut self, value: bool)
        ensures
            *final(self) == (Registers { cpsr: with_bit(old(self).cpsr, 28, value), ..*old(self) }),
    {
        self.cpsr = set_bit(self.cpsr, 28, value);
    }

    /// Sets all four condition flags at once; the other CPSR bits are kept.
    pub fn set_flags(&mut self, n: bool, z: bool, c: bool, v: bool)
        ensures
            *final(self) == (Registers {
                cpsr: with_bit(
                    with_bit(with_bit(with_bit(old(self).cpsr, 31, n), 30, z), 29, c),
                    28,
                    v,
                ),
                ..*old(self)
            }),
    {
        let c1 = set_bit(self.cpsr, 31, n);
        let c2 = set_bit(c1, 30, z);
        let c3 = set_bit(c2, 29, c);
        let flags = set_bit(c3, 28, v);
        self.cpsr = flags;
    }

    /// Switches the operating mode, saving the banked registers of the old
    /// mode and loading those of the new one.
    pub fn change_mode(&mut self, new_mode: Mode)
        ensures
            old(self).changed_mode(new_mode, *final(self)),
    {
        if self.mode == new_mode {
            return ;
        }
        match self.mode {
            Mode::FIQ => {
                self.r8_fiq = self.r[8];
                self.r9_fiq = self.r[9];
                self.r10_fiq = self.r[10];
                self.r11_fiq = self.r[11];
                self.r12_fiq = self.r[12];
                self.r13_fiq = self.r[13];
                self.r14_fiq = self.r[14];
            },
            _ => {
                self.r8_usr = self.r[8];
                self.r9_usr = self.r[9];
                self.r10_usr = self.r[10];
                self.r11_usr = self.r[11];
                self.r12_usr = self.r[12];
                match self.mode {
                    Mode::Supervisor => {
                        self.r13_svc = self.r[13];
                        self.r14_svc = self.r[14];
                    },
                    Mode::Abort => {
                        self.r13_abt = self.r[13];
                        self.r14_abt = self.r[14];
                    },
                    Mode::IRQ => {
                        self.r13_irq = self.r[13];
                        self.r14_irq = self.r[14];
                    },
                    Mode::Undefined => {
                        self.r13_und = self.r[13];
                        self.r14_und = self.r[14];
                    },
                    _ => {
                        self.r13_usr = self.r[13];
                        self.r14_usr = self.r[14];
                    },
                }
            },
        }
        match new_mode {
            Mode::FIQ => {
                self.r[8] = self.r8_fiq;
                self.r[9] = self.r9_fiq;
                self.r[10] = self.r10_fiq;
                self.r[11] = self.r11_fiq;
                self.r[12] = self.r12_fiq;
                self.r[13] = self.r13_fiq;
                self.r[14] = self.r14_fiq;
            },
            _ => {
                self.r[8] = self.r8_usr;
                self.r[9] = self.r9_usr;
                self.r[10] = self.r10_usr;
                self.r[11] = self.r11_usr;
                self.r[12] = self.r12_usr;
                match new_mode {
                    Mode::Supervisor => {
                        self.r[13] = self.r13_svc;
                        self.r[14] = self.r14_svc;
                    },
                    Mode::Abort => {
                        self.r[13] = self.r13_abt;
                        self.r[14] = self.r14_abt;
                    },
                    Mode::IRQ => {
                        self.r[13] = self.r13_irq;
                        self.r[14] = self.r14_irq;
                    },
                    Mode::Undefined => {
                        self.r[13] = self.r13_und;
                        self.r[14] = self.r14_und;
                    },
                    _ => {
                        self.r[13] = self.r13_usr;
                        self.r[14] = self.r14_usr;
                    },
                }
            },
        }
        self.mode = new_mode;
        self.cpsr = (self.cpsr & 0xFFFF_FFE0) | new_mode.bits();
        assert(self.r@ =~= old(self).stash_banked().loaded_r(new_mode));
    }

    /// SPSR of the current mode.
    pub fn spsr(&self) -> (r: u32)
        ensures
            r == self.spsr_of(),
    {
        match self.mode {
            Mode::FIQ => self.spsr_fiq,
            Mode::Supervisor => self.spsr_svc,
            Mode::Abort => self.spsr_abt,
            Mode::IRQ => self.spsr_irq,
            Mode::Undefined => self.spsr_und,
            _ => self.cpsr,
        }
    }

    /// Writes the SPSR of the current mode; User and System mode have none,
    /// and the write is dropped.
    pub fn set_spsr(&mut self, value: u32)
        ensures
            *final(self) == old(self).with_spsr(value),
    {
        match self.mode {
            Mode::FIQ => self.spsr_fiq = value,
            Mode::Supervisor => self.spsr_svc = value,
            Mode::Abort => self.spsr_abt = value,
            Mode::IRQ => self.spsr_irq = value,
            Mode::Undefined => self.spsr_und = value,
            _ => {},
        }
    }
}

/// A switch into mode `m` and back gives back the visible registers, the
/// mode and the CPSR that were there before, whatever the two modes: each
/// mode's registers wait in its bank while another mode runs.
pub proof fn lemma_mode_round_trip(a: Registers, m: Mode, b: Registers, c: Registers)
    requires
        a.mode_consistent(),
        a.changed_mode(m, b),
        b.changed_mode(a.mode, c),
    ensures
        c.r@ == a.r@,
        c.mode == a.mode,
        c.cpsr == a.cpsr,
{
    if a.mode != m {
        let x = a.cpsr;
        let mb = mode_bits(a.mode);
        let nb = mode_bits(m);
        assert((((x & 0xFFFF_FFE0) | nb) & 0xFFFF_FFE0) | mb == x) by (bit_vector)
            requires
                x & 0x1F == mb,
                nb < 32,
                mb < 32,
        ;
        assert(c.r@ =~= a.r@);
    }
}

/// A write of the SPSR reads back in every mode that has one.
pub proof fn lemma_spsr_read_back(regs: Registers, v: u32)
    requires
        is_banked_mode(regs.mode),
    ensures
        regs.with_spsr(v).spsr_of() == v,
{
}

impl Default for Registers {
    fn default() -> (r: Self)
        ensures
            forall|i: int| 0 <= i < 16 ==> r.r@[i] == 0,
            r.cpsr == 0x1F,
            r.mode == Mode::System,
    {
        Self::new()
    }
}

} // verus!
