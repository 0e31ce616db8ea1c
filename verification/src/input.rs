use vstd::prelude::*;

verus! {

/// KEYINPUT after button `bit` was pressed (bit cleared) or released (bit
/// set); the other bits keep their value.
pub open spec fn key_set(keys: u16, bit: u16, pressed: bool) -> u16 {
    if pressed {
        keys & !(1u16 << bit)
    } else {
        keys | (1u16 << bit)
    }
}

/// Whether bit `bit` of `v` is set.
pub open spec fn key_bit(v: u16, bit: u16) -> bool {
    (v >> bit) & 1 == 1
}

/// Pad state as the KEYINPUT register shows it (0x04000130): one bit per
/// button (A, B, Select, Start, right, left, up, down, R, L from bit 0 up),
/// 0 while the button is held, 1 while it is released.
pub struct InputController {
    keyinput: u16,
}

impl InputController {
    /// The KEYINPUT value.
    pub closed spec fn keys(self) -> u16 {
        self.keyinput
    }

    /// All buttons released.
    pub fn new() -> (r: Self)
        ensures
            r.keys() == 0x03FF,
    {
        InputController { keyinput: 0x03FF }
    }

    /// Reads KEYINPUT.
    pub fn read_keyinput(&self) -> (r: u16)
        ensures
            r == self.keys(),
    {
        self.keyinput
    }

    fn set_key(&mut self, bit: u16, pressed: bool)
        requires
            bit < 16,
        ensures
            final(self).keys() == key_set(old(self).keys(), bit, pressed),
    {
        if pressed {
            self.keyinput = self.keyinput & !(1u16 << bit);
        } else {
            self.keyinput = self.keyinput | (1u16 << bit);
        }
    }

    /// Presses (`true`) or releases the A button (bit 0).
    pub fn set_button_a(&mut self, pressed: bool)
        ensures
            final(self).keys() == key_set(old(self).keys(), 0, pressed),
    {
        self.set_key(0, pressed);
    }

    /// Presses (`true`) or releases the B button (bit 1).
    pub fn set_button_b(&mut self, pressed: bool)
        ensures
            final(self).keys() == key_set(old(self).keys(), 1, pressed),
    {
        self.set_key(1, pressed);
    }

    /// Presses (`true`) or releases the Select (bit 2).
    pub fn set_button_select(&mut self, pressed: bool)
        ensures
            final(self).keys() == key_set(old(self).keys(), 2, pressed),
    {
        self.set_key(2, pressed);
    }

    /// Presses (`true`) or releases the Start (bit 3).
    pub fn set_button_start(&mut self, pressed: bool)
        ensures
            final(self).keys() == key_set(old(self).keys(), 3, pressed),
    {
        self.set_key(3, pressed);
    }

    /// Presses (`true`) or releases the right on the D-pad (bit 4).
    pub fn set_dpad_right(&mut self, pressed: bool)
        ensures
            final(self).keys() == key_set(old(self).keys(), 4, pressed),
    {
        self.set_key(4, pressed);
    }

    /// Presses (`true`) or releases the left on the D-pad (bit 5).
    pub fn set_dpad_left(&mut self, pressed: bool)
        ensures
            final(self).keys() == key_set(old(self).keys(), 5, pressed),
    {
        self.set_key(5, pressed);
    }

    /// Presses (`true`) or releases the up on the D-pad (bit 6).
    pub fn set_dpad_up(&mut self, pressed: bool)
        ensures
            final(self).keys() == key_set(old(self).keys(), 6, pressed),
    {
        self.set_key(6, pressed);
    }

    /// Presses (`true`) or releases the down on the D-pad (bit 7).
    pub fn set_dpad_down(&mut self, pressed: bool)
        ensures
            final(self).keys() == key_set(old(self).keys(), 7, pressed),
    {
        self.set_key(7, pressed);
    }

    /// Presses (`true`) or releases the R button (bit 8).
    pub fn set_button_r(&mut self, pressed: bool)
        ensures
            final(self).keys() == key_set(old(self).keys(), 8, pressed),
    {
        self.set_key(8, pressed);
    }

    /// Presses (`true`) or releases the L button (bit 9).
    pub fn set_button_l(&mut self, pressed: bool)
        ensures
            final(self).keys() == key_set(old(self).keys(), 9, pressed),
    {
        self.set_key(9, pressed);
    }
}

impl Default for InputController {
    fn default() -> (r: Self)
        ensures
            r.keys() == 0x03FF,
    {
        Self::new()
    }
}

/// After a button is set, its bit reads 0 exactly when it is pressed, and
/// every other bit reads as before: the buttons are independent.
pub proof fn lemma_key_set_read(keys: u16, bit: u16, pressed: bool, other: u16)
    requires
        bit < 16,
        other < 16,
    ensures
        key_bit(key_set(keys, bit, pressed), bit) == !pressed,
        other != bit ==> key_bit(key_set(keys, bit, pressed), other) == key_bit(keys, other),
{
    let k = keys;
    let b = bit;
    let o = other;
    assert(((k & !(1u16 << b)) >> b) & 1 != 1 && ((k | (1u16 << b)) >> b) & 1 == 1) by (bit_vector)
        requires
            b < 16,
    ;
    assert(o != b ==> (((k & !(1u16 << b)) >> o) & 1 == (k >> o) & 1 && ((k | (1u16 << b)) >> o) & 1 == (k
        >> o) & 1)) by (bit_vector)
        requires
            b < 16,
            o < 16,
    ;
}

} // verus!
