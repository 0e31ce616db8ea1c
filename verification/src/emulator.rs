use vstd::prelude::*;
use crate::bus::Bus;
use crate::cartridge::Cartridge;
use crate::cpu::{
    ARM7TDMI, MAX_INSTRUCTION_CYCLES, MemoryBus, extends, irq_entry_post, lemma_extends_refl,
    lemma_extends_trans, only_reads, stepped,
};
use crate::registers::bit_of;
use crate::interrupt::{InterruptFlags, VBLANK};
use crate::ppu::{PPU, lemma_line_pixel_same_inputs, lemma_visited_step, visited};

verus! {

/// Processor cycles in one frame (228 lines of 1232 cycles).
pub const CYCLES_PER_FRAME: u32 = 280896;

/// Cycles of `p`'s frame gone by: whole lines of 1232 cycles plus the
/// cycles into the current line.
pub open spec fn frame_position(p: PPU) -> int {
    p.scanline * 1232 + p.cycles
}

/// Stepping the PPU by `c` cycles moves its frame position on by `c`,
/// modulo the 280896 cycles of a frame.
proof fn lemma_frame_step(s: int, cy: int, c: int, s2: int, cy2: int)
    requires
        0 <= s < 228,
        0 <= cy < 1232,
        0 <= c,
        cy2 == (cy + c) % 1232,
        s2 == (s + (cy + c) / 1232) % 228,
    ensures
        s2 * 1232 + cy2 == (s * 1232 + cy + c) % 280896,
{
    let t = cy + c;
    let q = t / 1232;
    let r = t % 1232;
    let x = s * 1232 + t;
    vstd::arithmetic::div_mod::lemma_fundamental_div_mod(t, 1232);
    assert(x == 1232 * (s + q) + r);
    assert(0 <= r < 1232);
    assert(s + q >= 0) by {
        vstd::arithmetic::div_mod::lemma_div_pos_is_pos(t, 1232);
    }
    vstd::arithmetic::div_mod::lemma_div_multiples_vanish_fancy(s + q, r, 1232);
    vstd::arithmetic::div_mod::lemma_mod_multiples_vanish(s + q, r, 1232);
    vstd::arithmetic::div_mod::lemma_small_mod(r as nat, 1232);
    vstd::arithmetic::div_mod::lemma_breakdown(x, 1232, 228);
}

/// Cycles from frame position `p` forward to the start of line 160.
pub open spec fn gap_to_vblank(p: int) -> int {
    if p <= 197120 {
        197120 - p
    } else {
        197120 - p + 280896
    }
}

/// A step of `c` (1 to 18) cycles from position `q` either lands inside
/// line 160 or brings line 160 closer by `c` cycles.
proof fn lemma_gap_step(q: int, c: int, q2: int)
    requires
        0 <= q < 280896,
        1 <= c <= 18,
        q2 == (q + c) % 280896,
    ensures
        gap_to_vblank(q) < c ==> 197120 <= q2 < 198352,
        gap_to_vblank(q) >= c ==> gap_to_vblank(q2) == gap_to_vblank(q) - c,
        0 <= q2 < 280896,
{
    let x = q + c;
    if x < 280896 {
        vstd::arithmetic::div_mod::lemma_small_mod(x as nat, 280896);
    } else {
        vstd::arithmetic::div_mod::lemma_div_multiples_vanish_fancy(1, x - 280896, 280896);
        vstd::arithmetic::div_mod::lemma_fundamental_div_mod(x, 280896);
    }
}

/// `a` and `b` draw alike: the same display control, background registers,
/// palette and OAM.
pub open spec fn same_display(a: PPU, b: PPU) -> bool {
    &&& a.dispcnt == b.dispcnt
    &&& a.bg_control == b.bg_control
    &&& a.bg_hofs == b.bg_hofs
    &&& a.bg_vofs == b.bg_vofs
    &&& a.palette_ram@ == b.palette_ram@
    &&& a.oam@ == b.oam@
}

/// `fb` is the frame buffer `fb0` with the lines that the first `n` lines
/// from line `s0` pass drawn by `p` from `vram`.
pub open spec fn lines_drawn(p: PPU, vram: Seq<u8>, fb0: Seq<u16>, s0: int, n: int, fb: Seq<u16>) -> bool {
    forall|y: int, x: int|
        0 <= y < 160 && 0 <= x < 240 ==> #[trigger] fb[y * 240 + x] == if visited(s0, n, y) {
            p.line_pixel(vram, y, x, fb0[y * 240 + x])
        } else {
            fb0[y * 240 + x]
        }
}

/// A PPU step of at most one line, from line `(s0 + n) % 228`, by a PPU
/// that draws like `p`, keeps the frame buffer drawn by `p` over the lines
/// passed.
proof fn lemma_render_step(
    p: PPU,
    vram: Seq<u8>,
    fb0: Seq<u16>,
    s0: int,
    n: int,
    pp: PPU,
    fb: Seq<u16>,
    k: int,
)
    requires
        0 <= n,
        0 <= k <= 1,
        same_display(pp, p),
        pp.scanline < 228,
        pp.scanline == (s0 + n) % 228,
        lines_drawn(p, vram, fb0, s0, n, pp.framebuffer@),
        forall|y: int, x: int|
            0 <= y < 160 && 0 <= x < 240 ==> #[trigger] fb[y * 240 + x] == if visited(
                pp.scanline as int,
                k,
                y,
            ) {
                pp.line_pixel(vram, y, x, pp.framebuffer@[y * 240 + x])
            } else {
                pp.framebuffer@[y * 240 + x]
            },
    ensures
        lines_drawn(p, vram, fb0, s0, n + k, fb),
{
    assert forall|y: int, x: int| 0 <= y < 160 && 0 <= x < 240 implies #[trigger] fb[y * 240 + x] == if visited(
        s0,
        n + k,
        y,
    ) {
        p.line_pixel(vram, y, x, fb0[y * 240 + x])
    } else {
        fb0[y * 240 + x]
    } by {
        let old_px = pp.framebuffer@[y * 240 + x];
        lemma_line_pixel_same_inputs(pp, p, vram, y, x, old_px);
        p.lemma_line_pixel_idempotent(vram, y, x, fb0[y * 240 + x]);
        lemma_visited_step(s0, n, y);
        lemma_visited_step(pp.scanline as int, 0, y);
        assert(!visited(pp.scanline as int, 0, y));
        assert(!visited(s0, n, y) ==> (visited(s0, n + 0, y) == visited(s0, n, y)));
        vstd::arithmetic::div_mod::lemma_small_mod(pp.scanline as nat, 228);
    }
}

/// After 228 lines or more from `s0`, every line was passed.
proof fn lemma_all_lines_visited(s0: int, n: int, y: int)
    requires
        0 <= s0 < 228,
        228 <= n,
        0 <= y < 228,
    ensures
        visited(s0, n, y),
{
    let j = if y >= s0 {
        y - s0
    } else {
        y - s0 + 228
    };
    if y >= s0 {
        vstd::arithmetic::div_mod::lemma_small_mod(y as nat, 228);
    } else {
        vstd::arithmetic::div_mod::lemma_mod_multiples_vanish(1, y, 228);
        vstd::arithmetic::div_mod::lemma_small_mod(y as nat, 228);
    }
    assert(0 <= j < n && (s0 + j) % 228 == y);
}

/// One processor step within a frame: the processor and bus before it,
/// after it, and the cycles it took.
pub struct FrameStep {
    pub cpu_before: ARM7TDMI,
    pub bus_before: Bus,
    pub cpu_after: ARM7TDMI,
    pub bus_after: Bus,
    pub cycles: u32,
}

/// From the end of one step to the start of the next (or to the end of the
/// frame): the display and the interrupt controller move on; the processor
/// enters its IRQ handler if an interrupt is then pending and its I bit is
/// clear, and its registers stay as they were otherwise; its cycle count,
/// halted state, the memory and the record of bus accesses stay as they
/// were.
pub open spec fn carried(c0: ARM7TDMI, b0: Bus, c1: ARM7TDMI, b1: Bus) -> bool {
    &&& c1.cycles == c0.cycles
    &&& c1.halted == c0.halted
    &&& if b1.interrupt.pending_spec() && !bit_of(c0.regs.cpsr, 7) {
        irq_entry_post(c0.regs, c1.regs)
    } else {
        c1.regs == c0.regs
    }
    &&& b1.accesses() == b0.accesses()
    &&& b1.memory == b0.memory
}

/// `steps` takes the machine from (`c0`, `b0`) to (`c1`, `b1`): it starts
/// there, each of its steps is one `step` of the processor, and between two
/// steps and after the last only `carried` holds. Opaque: a proof that
/// needs its parts reveals it.
#[verifier::opaque]
pub open spec fn frame_trace(c0: ARM7TDMI, b0: Bus, steps: Seq<FrameStep>, c1: ARM7TDMI, b1: Bus) -> bool {
    &&& steps.len() > 0
    &&& steps[0].cpu_before == c0
    &&& steps[0].bus_before == b0
    &&& forall|i: int|
        0 <= i < steps.len() ==> #[trigger] stepped(
            steps[i].cpu_before,
            steps[i].bus_before,
            steps[i].cpu_after,
            steps[i].bus_after,
            steps[i].cycles,
        )
    &&& forall|i: int|
        0 < i < steps.len() ==> carried(
            steps[i - 1].cpu_after,
            steps[i - 1].bus_after,
            #[trigger] steps[i].cpu_before,
            steps[i].bus_before,
        )
    &&& carried(steps.last().cpu_after, steps.last().bus_after, c1, b1)
}

/// A trace that reaches the start of one more step, followed by that step
/// and what is carried after it, reaches the new state.
proof fn lemma_trace_extend(
    c0: ARM7TDMI,
    b0: Bus,
    steps: Seq<FrameStep>,
    next: FrameStep,
    c1: ARM7TDMI,
    b1: Bus,
)
    requires
        steps.len() == 0 ==> next.cpu_before == c0 && next.bus_before == b0,
        steps.len() > 0 ==> frame_trace(c0, b0, steps, next.cpu_before, next.bus_before),
        stepped(next.cpu_before, next.bus_before, next.cpu_after, next.bus_after, next.cycles),
        carried(next.cpu_after, next.bus_after, c1, b1),
    ensures
        frame_trace(c0, b0, steps.push(next), c1, b1),
{
    reveal(frame_trace);
    let longer = steps.push(next);
    assert forall|i: int| 0 <= i < longer.len() implies #[trigger] stepped(
        longer[i].cpu_before,
        longer[i].bus_before,
        longer[i].cpu_after,
        longer[i].bus_after,
        longer[i].cycles,
    ) by {
        if i < steps.len() {
            assert(longer[i] == steps[i]);
        }
    }
    assert forall|i: int| 0 < i < longer.len() implies carried(
        longer[i - 1].cpu_after,
        longer[i - 1].bus_after,
        #[trigger] longer[i].cpu_before,
        longer[i].bus_before,
    ) by {
        if i < steps.len() {
            assert(longer[i] == steps[i]);
            assert(longer[i - 1] == steps[i - 1]);
        } else {
            assert(longer[i - 1] == steps.last());
        }
    }
}

/// The whole machine: processor and system bus.
pub struct GbaEmulator {
    pub cpu: ARM7TDMI,
    pub bus: Bus,
}

impl GbaEmulator {
    pub fn new() -> (e: Self)
        ensures
            e.bus.inv(),
            e.cpu.cycles == 0,
            !e.cpu.halted,
            e.bus.ppu.dispcnt == 0 && e.bus.ppu.scanline == 0,
    {
        GbaEmulator { cpu: ARM7TDMI::new(), bus: Bus::new() }
    }

    /// Installs a BIOS image.
    pub fn load_bios(&mut self, bios: Vec<u8>)
        ensures
            final(self).bus.memory.bios@ == bios@,
            final(self).bus.memory == (crate::memory::Memory {
                bios: final(self).bus.memory.bios,
                ..old(self).bus.memory
            }),
            final(self).bus.ppu == old(self).bus.ppu,
            final(self).cpu == old(self).cpu,
    {
        self.bus.load_bios(bios);
    }

    /// Inserts a cartridge: its ROM image becomes the bus's ROM.
    pub fn load_cartridge(&mut self, cartridge: Cartridge)
        ensures
            final(self).bus.memory.rom@ == cartridge.rom@,
            final(self).bus.memory == (crate::memory::Memory {
                rom: final(self).bus.memory.rom,
                ..old(self).bus.memory
            }),
            final(self).bus.ppu == old(self).bus.ppu,
            final(self).cpu == old(self).cpu,
    {
        self.bus.load_rom(cartridge.rom);
    }

    /// Resets the processor and points it at the start of the ROM.
    pub fn reset(&mut self)
        ensures
            final(self).cpu.regs.r@[15] == 0x0800_0000,
            forall|i: int| 0 <= i < 15 ==> final(self).cpu.regs.r@[i] == 0,
            final(self).cpu.regs.cpsr == 0x1F,
            final(self).cpu.cycles == 0,
            !final(self).cpu.halted,
            final(self).bus == old(self).bus,
    {
        self.cpu.reset();
        self.cpu.regs.set_pc(0x0800_0000);
    }

    /// Runs one frame: instructions until at least 280896 cycles have gone
    /// by, the PPU following each one; entering line 160 raises the V-blank
    /// request, and a pending interrupt is signalled to the processor. A
    /// running processor counts a whole frame of cycles and at most one
    /// instruction more; a halted one counts none. The PPU moves on through
    /// its frame by the cycles run (exactly one frame while halted), and
    /// since a frame passes line 160, the V-blank request is raised; the
    /// interrupt enable mask and master enable stay as they were. The frame
    /// is a run of processor steps (`frame_trace`): each one `step` of the
    /// processor on the bus, with between two of them only the display's
    /// and interrupt controller's progress and the processor's IRQ entry.
    pub fn run_frame(&mut self)
        requires
            old(self).bus.inv(),
            old(self).cpu.cycles + CYCLES_PER_FRAME + MAX_INSTRUCTION_CYCLES <= u64::MAX,
        ensures
            final(self).bus.inv(),
            final(self).cpu.halted == old(self).cpu.halted,
            old(self).cpu.halted ==> final(self).cpu.cycles == old(self).cpu.cycles,
            !old(self).cpu.halted ==> old(self).cpu.cycles + CYCLES_PER_FRAME <= final(self).cpu.cycles
                < old(self).cpu.cycles + CYCLES_PER_FRAME + MAX_INSTRUCTION_CYCLES,
            frame_position(final(self).bus.ppu) == (frame_position(old(self).bus.ppu) + (if old(
                self,
            ).cpu.halted {
                CYCLES_PER_FRAME as int
            } else {
                final(self).cpu.cycles - old(self).cpu.cycles
            })) % 280896,
            final(self).bus.interrupt.if_ & VBLANK != 0,
            final(self).bus.interrupt.ie == old(self).bus.interrupt.ie,
            final(self).bus.interrupt.ime == old(self).bus.interrupt.ime,
            only_reads(old(self).bus.accesses(), final(self).bus.accesses()) ==> {
                &&& final(self).bus.memory == old(self).bus.memory
                &&& forall|y: int, x: int|
                    0 <= y < 160 && 0 <= x < 240 ==> #[trigger] final(self).bus.ppu.framebuffer@[y * 240
                        + x] == old(self).bus.ppu.line_pixel(
                        old(self).bus.memory.vram@,
                        y,
                        x,
                        old(self).bus.ppu.framebuffer@[y * 240 + x],
                    )
            },
            exists|steps: Seq<FrameStep>| frame_trace(old(self).cpu, old(self).bus, steps, final(self).cpu, final(self).bus),
    {
        let ghost mut requested = false;
        let ghost mut trace: Seq<FrameStep> = Seq::empty();
        let ghost log_start = self.bus.accesses();
        let ghost p_start = self.bus.ppu;
        let ghost vram_start = self.bus.memory.vram@;
        let ghost fb_start = self.bus.ppu.framebuffer@;
        let ghost s_start = self.bus.ppu.scanline as int;
        let ghost mut lines: int = 0;
        proof {
            lemma_extends_refl(log_start);
            assert forall|y: int, x: int| 0 <= y < 160 && 0 <= x < 240 implies #[trigger] fb_start[y * 240 + x]
                == if visited(s_start, 0, y) {
                p_start.line_pixel(vram_start, y, x, fb_start[y * 240 + x])
            } else {
                fb_start[y * 240 + x]
            } by {
                assert(!visited(s_start, 0, y));
            }
            vstd::arithmetic::div_mod::lemma_small_mod(s_start as nat, 228);
        }
        let mut frame_cycles: u32 = 0;
        proof {
            vstd::arithmetic::div_mod::lemma_small_mod(frame_position(self.bus.ppu) as nat, 280896);
        }
        while frame_cycles < CYCLES_PER_FRAME
            invariant
                self.bus.inv(),
                frame_cycles < CYCLES_PER_FRAME + MAX_INSTRUCTION_CYCLES,
                self.cpu.halted == old(self).cpu.halted,
                old(self).cpu.halted ==> self.cpu.cycles == old(self).cpu.cycles,
                !old(self).cpu.halted ==> self.cpu.cycles == old(self).cpu.cycles + frame_cycles,
                old(self).cpu.halted ==> frame_cycles <= CYCLES_PER_FRAME,
                old(self).cpu.cycles + CYCLES_PER_FRAME + MAX_INSTRUCTION_CYCLES <= u64::MAX,
                frame_position(self.bus.ppu) == (frame_position(old(self).bus.ppu) + frame_cycles) % 280896,
                0 <= frame_position(self.bus.ppu) < 280896,
                requested ==> self.bus.interrupt.if_ & VBLANK != 0,
                !requested ==> frame_cycles + gap_to_vblank(frame_position(self.bus.ppu)) < 280896,
                self.bus.interrupt.ie == old(self).bus.interrupt.ie,
                self.bus.interrupt.ime == old(self).bus.interrupt.ime,
                log_start == old(self).bus.accesses(),
                p_start == old(self).bus.ppu,
                vram_start == old(self).bus.memory.vram@,
                fb_start == old(self).bus.ppu.framebuffer@,
                s_start == old(self).bus.ppu.scanline,
                0 <= lines,
                self.bus.ppu.scanline == (s_start + lines) % 228,
                old(self).bus.ppu.cycles + frame_cycles == 1232 * lines + self.bus.ppu.cycles,
                extends(log_start, self.bus.accesses()),
                trace.len() == 0 ==> self.cpu == old(self).cpu && self.bus == old(self).bus,
                trace.len() > 0 ==> frame_trace(old(self).cpu, old(self).bus, trace, self.cpu, self.bus),
                frame_cycles > 0 ==> trace.len() > 0,
                only_reads(log_start, self.bus.accesses()) ==> {
                    &&& self.bus.memory == old(self).bus.memory
                    &&& same_display(self.bus.ppu, p_start)
                    &&& lines_drawn(p_start, vram_start, fb_start, s_start, lines, self.bus.ppu.framebuffer@)
                },
            decreases CYCLES_PER_FRAME + MAX_INSTRUCTION_CYCLES - frame_cycles,
        {
            let ghost before = frame_position(self.bus.ppu);
            let ghost acc_prev = self.bus.accesses();
            let ghost bus_prev = self.bus;
            let ghost cpu_prev = self.cpu;
            let cycles = self.cpu.step(&mut self.bus);
            let ghost record = FrameStep {
                cpu_before: cpu_prev,
                bus_before: bus_prev,
                cpu_after: self.cpu,
                bus_after: self.bus,
                cycles,
            };
            assert(stepped(cpu_prev, bus_prev, self.cpu, self.bus, cycles)) by {
                reveal(stepped);
            }
            assert(frame_position(self.bus.ppu) == before);
            proof {
                lemma_extends_trans(log_start, acc_prev, self.bus.accesses());
                if only_reads(log_start, self.bus.accesses()) {
                    assert(self.bus.contents() == bus_prev.contents());
                    assert(self.bus.memory == bus_prev.memory);
                    assert(self.bus.ppu == bus_prev.ppu);
                }
            }
            frame_cycles = frame_cycles + cycles;
            let ghost p0 = self.bus.ppu;
            self.bus.ppu.step(cycles, self.bus.memory.vram.as_slice());
            proof {
                let k = (p0.cycles + cycles) / 1232;
                vstd::arithmetic::div_mod::lemma_fundamental_div_mod(p0.cycles + cycles, 1232);
                assert(0 <= k <= 1);
                if only_reads(log_start, self.bus.accesses()) {
                    lemma_render_step(
                        p_start,
                        vram_start,
                        fb_start,
                        s_start,
                        lines,
                        p0,
                        self.bus.ppu.framebuffer@,
                        k,
                    );
                }
                vstd::arithmetic::div_mod::lemma_add_mod_noop(s_start + lines, k, 228);
                vstd::arithmetic::div_mod::lemma_mod_twice(s_start + lines, 228);
                vstd::arithmetic::div_mod::lemma_small_mod(k as nat, 228);
                lines = lines + k;
                lemma_frame_step(
                    p0.scanline as int,
                    p0.cycles as int,
                    cycles as int,
                    self.bus.ppu.scanline as int,
                    self.bus.ppu.cycles as int,
                );
                vstd::arithmetic::div_mod::lemma_add_mod_noop(
                    frame_position(old(self).bus.ppu) + frame_cycles - cycles,
                    cycles as int,
                    280896,
                );
                vstd::arithmetic::div_mod::lemma_mod_twice(frame_position(old(self).bus.ppu) + frame_cycles - cycles, 280896);
                vstd::arithmetic::div_mod::lemma_small_mod(cycles as nat, 280896);
                lemma_gap_step(before, cycles as int, frame_position(self.bus.ppu));
            }
            let ghost if_before = self.bus.interrupt.if_;
            if self.bus.ppu.in_vblank() && self.bus.ppu.scanline == 160 {
                self.bus.interrupt.request(InterruptFlags::from_bits_truncate(VBLANK));
                proof {
                    let x = if_before;
                    assert((x | (VBLANK & 0x3FFF)) & VBLANK != 0) by (bit_vector);
                    requested = true;
                }
            }
            if self.bus.interrupt.pending() {
                self.cpu.request_interrupt();
            }
            proof {
                assert(carried(record.cpu_after, record.bus_after, self.cpu, self.bus));
                lemma_trace_extend(old(self).cpu, old(self).bus, trace, record, self.cpu, self.bus);
                trace = trace.push(record);
            }
        }
        proof {
            if only_reads(log_start, self.bus.accesses()) {
                assert(lines >= 228);
                assert forall|y: int, x: int| 0 <= y < 160 && 0 <= x < 240 implies #[trigger] self.bus.ppu.framebuffer@[y
                    * 240 + x] == p_start.line_pixel(vram_start, y, x, fb_start[y * 240 + x]) by {
                    lemma_all_lines_visited(s_start, lines, y);
                }
            }
            assert(frame_trace(old(self).cpu, old(self).bus, trace, self.cpu, self.bus));
        }
    }

    /// The frame buffer, 240 x 160 pixels row by row.
    pub fn framebuffer(&self) -> (r: &[u16])
        ensures
            r@ == self.bus.ppu.framebuffer@,
    {
        self.bus.ppu.framebuffer()
    }
}

impl Default for GbaEmulator {
    fn default() -> (e: Self)
        ensures
            e.bus.inv(),
            e.cpu.cycles == 0,
    {
        Self::new()
    }
}

} // verus!
