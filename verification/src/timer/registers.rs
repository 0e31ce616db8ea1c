use vstd::prelude::*;

verus! {

/// Timer control register (TMxCNT_H): prescaler (bits 0-1), count-up
/// (bit 2), IRQ enable (bit 6), enable (bit 7).
#[derive(Debug, Clone, Copy, PartialEq, Eq, Structural)]
pub struct TimerControl {
    pub prescaler: u8,
    pub count_up: bool,
    pub irq_enable: bool,
    pub enabled: bool,
}

/// CPU cycles per tick for a prescaler setting (1, 64, 256, 1024; 1 for
/// values above 3).
pub open spec fn prescaler_cycles(p: u8) -> u32 {
    if p == 1 {
        64
    } else if p == 2 {
        256
    } else if p == 3 {
        1024
    } else {
        1
    }
}

impl TimerControl {
    /// The control that `value` encodes.
    pub open spec fn from_spec(value: u16) -> TimerControl {
        TimerControl {
            prescaler: (value & 3) as u8,
            count_up: value & 4 != 0,
            irq_enable: value & 0x40 != 0,
            enabled: value & 0x80 != 0,
        }
    }

    /// The register value of this control.
    pub open spec fn to_spec(self) -> u16 {
        (self.prescaler as u16) | (if self.count_up {
            4u16
        } else {
            0u16
        }) | (if self.irq_enable {
            0x40u16
        } else {
            0u16
        }) | (if self.enabled {
            0x80u16
        } else {
            0u16
        })
    }

    pub fn from_u16(value: u16) -> (r: Self)
        ensures
            r == TimerControl::from_spec(value),
    {
        TimerControl {
            prescaler: (value & 3) as u8,
            count_up: value & 4 != 0,
            irq_enable: value & 0x40 != 0,
            enabled: value & 0x80 != 0,
        }
    }

    pub fn to_u16(&self) -> (r: u16)
        ensures
            r == self.to_spec(),
    {
        let c: u16 = if self.count_up {
            4
        } else {
            0
        };
        let i: u16 = if self.irq_enable {
            0x40
        } else {
            0
        };
        let e: u16 = if self.enabled {
            0x80
        } else {
            0
        };
        (self.prescaler as u16) | c | i | e
    }

    /// CPU cycles per timer tick.
    pub fn get_prescaler_cycles(&self) -> (r: u32)
        ensures
            r == prescaler_cycles(self.prescaler),
    {
        match self.prescaler {
            1 => 64,
            2 => 256,
            3 => 1024,
            _ => 1,
        }
    }
}

impl Default for TimerControl {
    fn default() -> (r: Self)
        ensures
            r == TimerControl::from_spec(0),
    {
        proof {
            crate::bits::lemma_u16_field(0, 0, 3);
            crate::bits::lemma_u16_field(0, 0, 4);
            crate::bits::lemma_u16_field(0, 0, 0x40);
            crate::bits::lemma_u16_field(0, 0, 0x80);
        }
        TimerControl { prescaler: 0, count_up: false, irq_enable: false, enabled: false }
    }
}

/// Encoding a control (prescaler 0 to 3) and decoding it gives it back;
/// decoding a register value and encoding it keeps bits 0-2, 6 and 7.
pub proof fn lemma_timer_control_round_trip(c: TimerControl, v: u16)
    ensures
        c.prescaler < 4 ==> TimerControl::from_spec(c.to_spec()) == c,
        TimerControl::from_spec(v).to_spec() == v & 0xC7,
{
    let p = c.prescaler as u16;
    let b: u16 = if c.count_up {
        4
    } else {
        0
    };
    let d: u16 = if c.irq_enable {
        0x40
    } else {
        0
    };
    let f: u16 = if c.enabled {
        0x80
    } else {
        0
    };
    let e = c.to_spec();
    assert(e == p | b | d | f);
    if c.prescaler < 4 {
        assert(e & 3 == p && (e & 4 != 0) == (b == 4) && (e & 0x40 != 0) == (d == 0x40) && (e & 0x80 != 0)
            == (f == 0x80)) by (bit_vector)
            requires
                e == p | b | d | f,
                p < 4,
                b == 0 || b == 4,
                d == 0 || d == 0x40,
                f == 0 || f == 0x80,
        ;
    }
    assert(((v & 3) as u8) as u16 == v & 3) by (bit_vector);
    assert((v & 3) | (if v & 4 != 0 {
        4u16
    } else {
        0u16
    }) | (if v & 0x40 != 0 {
        0x40u16
    } else {
        0u16
    }) | (if v & 0x80 != 0 {
        0x80u16
    } else {
        0u16
    }) == v & 0xC7) by (bit_vector);
}

} // verus!
