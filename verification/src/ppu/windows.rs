use vstd::prelude::*;

verus! {

/// Layers enabled inside a window (WININ / WINOUT byte).
#[derive(Debug, Clone, Copy, PartialEq, Eq, Structural)]
pub struct WindowControl {
    pub bg0_enable: bool,
    pub bg1_enable: bool,
    pub bg2_enable: bool,
    pub bg3_enable: bool,
    pub obj_enable: bool,
    pub blend_enable: bool,
}

/// Bit `n` of a byte.
pub open spec fn bit8(v: u8, n: u8) -> bool {
    (v >> n) & 1u8 == 1u8
}

pub open spec fn flag8(b: bool) -> u8 {
    if b {
        1
    } else {
        0
    }
}

fn flag_u8(b: bool) -> (r: u8)
    ensures
        r == flag8(b),
{
    if b {
        1
    } else {
        0
    }
}

impl WindowControl {
    pub open spec fn from_spec(v: u8) -> WindowControl {
        WindowControl {
            bg0_enable: bit8(v, 0),
            bg1_enable: bit8(v, 1),
            bg2_enable: bit8(v, 2),
            bg3_enable: bit8(v, 3),
            obj_enable: bit8(v, 4),
            blend_enable: bit8(v, 5),
        }
    }

    pub open spec fn to_spec(self) -> u8 {
        flag8(self.bg0_enable) | (flag8(self.bg1_enable) << 1) | (flag8(self.bg2_enable) << 2) | (
        flag8(self.bg3_enable) << 3) | (flag8(self.obj_enable) << 4) | (flag8(self.blend_enable)
            << 5)
    }

    pub fn from_u8(value: u8) -> (r: Self)
        ensures
            r == Self::from_spec(value),
    {
        WindowControl {
            bg0_enable: (value >> 0) & 1 == 1,
            bg1_enable: (value >> 1) & 1 == 1,
            bg2_enable: (value >> 2) & 1 == 1,
            bg3_enable: (value >> 3) & 1 == 1,
            obj_enable: (value >> 4) & 1 == 1,
            blend_enable: (value >> 5) & 1 == 1,
        }
    }

    pub fn to_u8(&self) -> (r: u8)
        ensures
            r == self.to_spec(),
    {
        flag_u8(self.bg0_enable) | (flag_u8(self.bg1_enable) << 1) | (flag_u8(self.bg2_enable) << 2)
            | (flag_u8(self.bg3_enable) << 3) | (flag_u8(self.obj_enable) << 4) | (flag_u8(
            self.blend_enable,
        ) << 5)
    }
}

impl Default for WindowControl {
    fn default() -> (r: Self)
        ensures
            !r.bg0_enable && !r.bg1_enable && !r.bg2_enable && !r.bg3_enable && !r.obj_enable
                && !r.blend_enable,
    {
        WindowControl {
            bg0_enable: false,
            bg1_enable: false,
            bg2_enable: false,
            bg3_enable: false,
            obj_enable: false,
            blend_enable: false,
        }
    }
}

/// Encoding a decoded WININ/WINOUT byte keeps its six used bits; decoding an
/// encoded control gives it back.
pub proof fn lemma_window_control_round_trip(v: u8, c: WindowControl)
    ensures
        WindowControl::from_spec(v).to_spec() == v & 0x3F,
        WindowControl::from_spec(c.to_spec()) == c,
{
    assert(((if (v >> 0u8) & 1u8 == 1u8 { 1u8 } else { 0u8 }) | ((if (v >> 1u8) & 1u8 == 1u8 { 1u8 }
    else { 0u8 }) << 1u8) | ((if (v >> 2u8) & 1u8 == 1u8 { 1u8 } else { 0u8 }) << 2u8) | ((if (v
        >> 3u8) & 1u8 == 1u8 { 1u8 } else { 0u8 }) << 3u8) | ((if (v >> 4u8) & 1u8 == 1u8 { 1u8 }
    else { 0u8 }) << 4u8) | ((if (v >> 5u8) & 1u8 == 1u8 { 1u8 } else { 0u8 }) << 5u8)) == v & 0x3F)
        by (bit_vector);
    let a = flag8(c.bg0_enable);
    let b = flag8(c.bg1_enable);
    let d = flag8(c.bg2_enable);
    let e = flag8(c.bg3_enable);
    let f = flag8(c.obj_enable);
    let g = flag8(c.blend_enable);
    let x = c.to_spec();
    assert(((x >> 0u8) & 1u8 == 1u8) == (a == 1) && ((x >> 1u8) & 1u8 == 1u8) == (b == 1) && ((x
        >> 2u8) & 1u8 == 1u8) == (d == 1) && ((x >> 3u8) & 1u8 == 1u8) == (e == 1) && ((x >> 4u8) & 1u8
        == 1u8) == (f == 1) && ((x >> 5u8) & 1u8 == 1u8) == (g == 1)) by (bit_vector)
        requires
            x == a | (b << 1u8) | (d << 2u8) | (e << 3u8) | (f << 4u8) | (g << 5u8),
            a < 2,
            b < 2,
            d < 2,
            e < 2,
            f < 2,
            g < 2,
    ;
}

/// Rectangle of a window: [left, right) x [top, bottom), each side wrapping
/// around when its end is before its start.
#[derive(Debug, Clone, Copy, PartialEq, Eq, Structural)]
pub struct WindowBounds {
    pub left: u8,
    pub right: u8,
    pub top: u8,
    pub bottom: u8,
}

/// Whether `p` lies in the span from `lo` to `hi` (wrapping when `hi < lo`).
pub open spec fn in_span(p: u8, lo: u8, hi: u8) -> bool {
    if hi < lo {
        p >= lo || p < hi
    } else {
        lo <= p < hi
    }
}

impl WindowBounds {
    pub open spec fn contains_spec(self, x: u8, y: u8) -> bool {
        in_span(x, self.left, self.right) && in_span(y, self.top, self.bottom)
    }

    pub fn new() -> (r: Self)
        ensures
            r.left == 0 && r.right == 0 && r.top == 0 && r.bottom == 0,
    {
        WindowBounds { left: 0, right: 0, top: 0, bottom: 0 }
    }

    /// Whether the pixel (x, y) is inside the window.
    pub fn contains(&self, x: u8, y: u8) -> (r: bool)
        ensures
            r == self.contains_spec(x, y),
    {
        let x_in = if self.right < self.left {
            x >= self.left || x < self.right
        } else {
            x >= self.left && x < self.right
        };
        let y_in = if self.bottom < self.top {
            y >= self.top || y < self.bottom
        } else {
            y >= self.top && y < self.bottom
        };
        x_in && y_in
    }

    /// (left, right) from a WINxH value: right in the low byte, left in the
    /// high byte.
    pub fn from_horizontal(value: u16) -> (r: (u8, u8))
        ensures
            r.0 as int == value / 256,
            r.1 as int == value % 256,
    {
        proof {
            crate::bits::lemma_u16_bytes(value);
        }
        let right = (value & 0xFF) as u8;
        let left = ((value >> 8) & 0xFF) as u8;
        (left, right)
    }

    /// (top, bottom) from a WINxV value: bottom in the low byte, top in the
    /// high byte.
    pub fn from_vertical(value: u16) -> (r: (u8, u8))
        ensures
            r.0 as int == value / 256,
            r.1 as int == value % 256,
    {
        proof {
            crate::bits::lemma_u16_bytes(value);
        }
        let bottom = (value & 0xFF) as u8;
        let top = ((value >> 8) & 0xFF) as u8;
        (top, bottom)
    }
}

/// State of the window system.
pub struct Windows {
    pub win0: WindowBounds,
    pub win1: WindowBounds,
    pub win0_control: WindowControl,
    pub win1_control: WindowControl,
    pub winout_control: WindowControl,
    pub winobj_control: WindowControl,
    pub win0_enabled: bool,
    pub win1_enabled: bool,
    pub winobj_enabled: bool,
}

impl Windows {
    /// The control in force at (x, y): WIN0 first, then WIN1, else WINOUT.
    pub open spec fn control_at(self, x: u8, y: u8) -> WindowControl {
        if self.win0_enabled && self.win0.contains_spec(x, y) {
            self.win0_control
        } else if self.win1_enabled && self.win1.contains_spec(x, y) {
            self.win1_control
        } else {
            self.winout_control
        }
    }

    pub fn new() -> (r: Self)
        ensures
            !r.win0_enabled && !r.win1_enabled && !r.winobj_enabled,
            r.win0 == (WindowBounds { left: 0, right: 0, top: 0, bottom: 0 }),
            r.win1 == (WindowBounds { left: 0, right: 0, top: 0, bottom: 0 }),
            r.winout_control == WindowControl::from_spec(0),
            r.win0_control == WindowControl::from_spec(0),
            r.win1_control == WindowControl::from_spec(0),
            r.winobj_control == WindowControl::from_spec(0),
    {
        assert forall|n: u8| n < 8 implies #[trigger] ((0u8 >> n) & 1u8) != 1u8 by {
            crate::bits::lemma_u8_field(0, n, 1);
        }
        Windows {
            win0: WindowBounds::new(),
            win1: WindowBounds::new(),
            win0_control: WindowControl::default(),
            win1_control: WindowControl::default(),
            winout_control: WindowControl::default(),
            winobj_control: WindowControl::default(),
            win0_enabled: false,
            win1_enabled: false,
            winobj_enabled: false,
        }
    }

    /// The window control for the pixel at (x, y); the object window is not
    /// taken into account.
    pub fn get_control(&self, x: u8, y: u8, _in_obj_window: bool) -> (r: WindowControl)
        ensures
            r == self.control_at(x, y),
    {
        if self.win0_enabled && self.win0.contains(x, y) {
            return self.win0_control;
        }
        if self.win1_enabled && self.win1.contains(x, y) {
            return self.win1_control;
        }
        self.winout_control
    }
}

} // verus!
