//! The pixel buffer the core draws into, and the XOR sprite blit: for each
//! sprite row, eight horizontally wrapped bits are XORed into the buffer
//! (coordinates modulo 64 by 32), and `VF` reports whether any pixel was
//! cleared by the blit.

use vstd::prelude::*;

use crate::cpu::CPU;
use crate::keyboard::Keyboard;
use crate::model::{CpuV, Pixel, ScreenV};

verus! {

/// Color of a cleared pixel.
pub const BLACK: u8 = 0;

/// Color of a set pixel.
pub const WHITE: u8 = 1;

/// Screen width in pixels.
pub const W: usize = 64;

/// Screen height in pixels.
pub const H: usize = 32;

impl Pixel {
    /// A cleared pixel, not yet in need of presentation.
    pub fn new() -> (p: Pixel)
        ensures
            p.color == BLACK,
            !p.dirty,
    {
        Pixel { color: BLACK, dirty: false }
    }

    /// Sets the color, marking the pixel dirty only when it changed.
    pub fn set_color(&mut self, color: u8)
        ensures
            final(self).color == color,
            final(self).dirty == (if color != old(self).color {
                true
            } else {
                old(self).dirty
            }),
    {
        if color != self.color {
            self.color = color;
            self.dirty = true;
        }
    }

    /// Flips the color between set and cleared and marks the pixel dirty.
    pub fn toggle_color(&mut self)
        ensures
            final(self).color == old(self).color ^ 1,
            final(self).dirty,
    {
        self.color ^= 1;
        self.dirty = true;
    }
}

/// Index of the pixel at `(x, y)` in the flat buffer, which is stored
/// column-major: all 32 pixels of column 0 first.
pub open spec fn pix_idx(x: int, y: int) -> int {
    x * 32 + y
}

/// The buffer with every pixel cleared; dirtiness is untouched.
pub open spec fn spec_cleared(px: Seq<Pixel>) -> Seq<Pixel> {
    Seq::new(px.len(), |i: int| Pixel { color: BLACK, dirty: px[i].dirty })
}

/// Blits bit `k` (counted from the sprite byte's high bit) of one sprite
/// row into the buffer: a set bit toggles the pixel at the wrapped column
/// and marks it dirty; `vf` becomes 1 if the pixel was set before.
pub open spec fn draw_bit(
    px: Seq<Pixel>,
    vf: u8,
    byte: u8,
    vx: int,
    ypos: int,
    k: int,
) -> (Seq<Pixel>, u8) {
    let xpos = (vx + k) % 64;
    let bit = (byte >> ((7 - k) as u8)) & 1;
    if bit == 1 {
        let idx = pix_idx(xpos, ypos);
        let p = px[idx];
        let vf2 = if p.color == 1 {
            1u8
        } else {
            vf
        };
        (px.update(idx, Pixel { color: p.color ^ 1, dirty: true }), vf2)
    } else {
        (px, vf)
    }
}

/// Blits the first `k` bits of one sprite row.
pub open spec fn draw_row_upto(
    px: Seq<Pixel>,
    vf: u8,
    byte: u8,
    vx: int,
    ypos: int,
    k: int,
) -> (Seq<Pixel>, u8)
    decreases k,
{
    if k <= 0 {
        (px, vf)
    } else {
        let prev = draw_row_upto(px, vf, byte, vx, ypos, k - 1);
        draw_bit(prev.0, prev.1, byte, vx, ypos, k - 1)
    }
}

/// Blits the first `r` sprite rows read from memory at `i`, skipping any
/// row whose address falls outside memory. Row `j` lands on the wrapped
/// screen row `(vy + j) % 32`.
pub open spec fn draw_rows_upto(
    px: Seq<Pixel>,
    vf: u8,
    mem: Seq<u8>,
    i: int,
    vx: int,
    vy: int,
    r: int,
) -> (Seq<Pixel>, u8)
    decreases r,
{
    if r <= 0 {
        (px, vf)
    } else {
        let prev = draw_rows_upto(px, vf, mem, i, vx, vy, r - 1);
        if i + (r - 1) >= 4096 {
            prev
        } else {
            let byte = mem[i + (r - 1)];
            let ypos = (vy + (r - 1)) % 32;
            draw_row_upto(prev.0, prev.1, byte, vx, ypos, 8)
        }
    }
}

/// The pixel buffer together with the keypad, as the execution core
/// consumes them. Pixels are stored column-major: the pixel at `(x, y)`
/// sits at index `x * 32 + y`.
pub struct ContextPixels {
    pub pixel: Vec<Pixel>,
    pub keyboard: Keyboard,
}

impl View for ContextPixels {
    type V = ScreenV;

    open spec fn view(&self) -> ScreenV {
        ScreenV { pixels: self.pixel@, keyboard: self.keyboard@ }
    }
}

impl ContextPixels {
    /// The buffer holds exactly 64 by 32 pixels and the keypad is
    /// well formed.
    pub open spec fn wf(self) -> bool {
        &&& self.pixel@.len() == 64 * 32
        &&& self.keyboard.wf()
    }

    /// A blank screen and a fresh keypad.
    pub fn init() -> (s: ContextPixels)
        ensures
            s.wf(),
            s@.pixels == Seq::new(64 * 32, |i: int| Pixel { color: BLACK, dirty: false }),
            s@.keyboard.keys == Seq::new(16, |i: int| false),
            s@.keyboard.awaiting_key is None,
    {
        let mut pixel: Vec<Pixel> = Vec::new();
        let mut i: usize = 0;
        while i < W * H
            invariant
                i <= 64 * 32,
                pixel@ =~= Seq::new(i as nat, |j: int| Pixel { color: BLACK, dirty: false }),
            decreases 64 * 32 - i,
        {
            pixel.push(Pixel::new());
            i += 1;
            proof {
                assert(pixel@ =~= Seq::new(i as nat, |j: int| Pixel { color: BLACK, dirty: false }));
            }
        }
        ContextPixels { pixel, keyboard: Keyboard::new() }
    }

    /// Clears every pixel to black. Which pixels are in need of
    /// presentation is untouched, and so is the keypad.
    pub fn clear_screen(&mut self)
        requires
            old(self).wf(),
        ensures
            final(self).wf(),
            final(self)@.pixels == spec_cleared(old(self)@.pixels),
            final(self)@.keyboard == old(self)@.keyboard,
    {
        let mut i: usize = 0;
        while i < W * H
            invariant
                i <= 64 * 32,
                self.pixel@.len() == 64 * 32,
                old(self).wf(),
                self.keyboard == old(self).keyboard,
                forall|j: int|
                    0 <= j < i ==> self.pixel@[j] == (Pixel {
                        color: BLACK,
                        dirty: old(self).pixel@[j].dirty,
                    }),
                forall|j: int| i <= j < 64 * 32 ==> self.pixel@[j] == old(self).pixel@[j],
            decreases 64 * 32 - i,
        {
            let d = self.pixel[i].dirty;
            self.pixel[i] = Pixel { color: BLACK, dirty: d };
            i += 1;
        }
        proof {
            assert(self.pixel@ =~= spec_cleared(old(self).pixel@));
        }
    }

    /// Draws an `n`-row sprite fetched from memory at the index register,
    /// at the screen position held in registers `x` and `y`, by XOR blit
    /// with wrap-around; sets `VF` to 1 exactly when some set pixel was
    /// cleared, and to 0 otherwise. Sprite rows whose address falls outside
    /// memory are skipped. Nothing else of the processor or the keypad
    /// changes.
    pub fn draw_screen(&mut self, n: u8, x: u8, y: u8, cpu: &mut CPU)
        requires
            old(self).wf(),
            old(cpu).wf(),
            x < 16,
            y < 16,
        ensures
            final(self).wf(),
            final(cpu).wf(),
            final(self)@.keyboard == old(self)@.keyboard,
            ({
                let v0 = old(cpu)@.v.update(15, 0u8);
                let dr = draw_rows_upto(
                    old(self)@.pixels,
                    0u8,
                    old(cpu)@.mem,
                    old(cpu)@.i as int,
                    v0[x as int] as int,
                    v0[y as int] as int,
                    n as int,
                );
                final(self)@.pixels == dr.0 && final(cpu)@.v == old(cpu)@.v.update(15, dr.1)
            }),
            final(cpu)@ == (CpuV { v: final(cpu)@.v, ..old(cpu)@ }),
            final(cpu).debug == old(cpu).debug,
            final(cpu).jit_cache@ == old(cpu).jit_cache@,
    {
        cpu.V[15] = 0;
        let vx = cpu.V[x as usize];
        let vy = cpu.V[y as usize];
        let ghost px0 = self.pixel@;
        let ghost mem0 = cpu.mem@;
        let ghost i0 = cpu.I as int;
        let mut r: u8 = 0;
        while r < n
            invariant
                r <= n,
                x < 16,
                y < 16,
                old(self).wf(),
                old(cpu).wf(),
                px0 == old(self).pixel@,
                mem0 == cpu.mem@,
                i0 == cpu.I as int,
                vx == old(cpu).V@.update(15, 0u8)[x as int],
                vy == old(cpu).V@.update(15, 0u8)[y as int],
                self.pixel@.len() == 64 * 32,
                self.keyboard == old(self).keyboard,
                cpu.V@.len() == 16,
                cpu.mem == old(cpu).mem,
                cpu.I == old(cpu).I,
                cpu.stack == old(cpu).stack,
                cpu.sp == old(cpu).sp,
                cpu.game_count == old(cpu).game_count,
                cpu.sound_count == old(cpu).sound_count,
                cpu.pc == old(cpu).pc,
                cpu.debug == old(cpu).debug,
                cpu.jit_cache == old(cpu).jit_cache,
                ({
                    let dr = draw_rows_upto(px0, 0u8, mem0, i0, vx as int, vy as int, r as int);
                    self.pixel@ == dr.0 && cpu.V@ == old(cpu).V@.update(15, dr.1)
                }),
            decreases n - r,
        {
            let ghost row_in = draw_rows_upto(px0, 0u8, mem0, i0, vx as int, vy as int, r as int);
            let addr = cpu.I as usize + r as usize;
            if addr < 4096 {
                let byte = cpu.mem[addr];
                let ypos = (vy as usize + r as usize) % 32;
                let mut k: u8 = 0;
                while k < 8
                    invariant
                        k <= 8,
                        x < 16,
                        y < 16,
                        old(self).wf(),
                        old(cpu).wf(),
                        self.pixel@.len() == 64 * 32,
                        self.keyboard == old(self).keyboard,
                        cpu.V@.len() == 16,
                        cpu.mem == old(cpu).mem,
                        cpu.I == old(cpu).I,
                        cpu.stack == old(cpu).stack,
                        cpu.sp == old(cpu).sp,
                        cpu.game_count == old(cpu).game_count,
                        cpu.sound_count == old(cpu).sound_count,
                        cpu.pc == old(cpu).pc,
                        cpu.debug == old(cpu).debug,
                        cpu.jit_cache == old(cpu).jit_cache,
                        mem0 == cpu.mem@,
                        i0 == cpu.I as int,
                        i0 + r < 4096,
                        byte == mem0[i0 + r],
                        ypos == (vy as int + r as int) % 32,
                        ({
                            let br = draw_row_upto(
                                row_in.0,
                                row_in.1,
                                byte,
                                vx as int,
                                ypos as int,
                                k as int,
                            );
                            self.pixel@ == br.0 && cpu.V@ == old(cpu).V@.update(15, br.1)
                        }),
                    decreases 8 - k,
                {
                    let xpos = (vx as usize + k as usize) % 64;
                    let bit = (byte >> (7 - k)) & 1;
                    if bit == 1 {
                        let idx = xpos * 32 + ypos;
                        if self.pixel[idx].color == WHITE {
                            cpu.V[15] = 1;
                        }
                        let mut p = self.pixel[idx];
                        p.toggle_color();
                        self.pixel[idx] = p;
                    }
                    k += 1;
                    proof {
                        let br2 = draw_row_upto(
                            row_in.0,
                            row_in.1,
                            byte,
                            vx as int,
                            ypos as int,
                            k as int,
                        );
                        assert(self.pixel@ =~= br2.0);
                    }
                }
            }
            r += 1;
            proof {
                let dr2 = draw_rows_upto(px0, 0u8, mem0, i0, vx as int, vy as int, r as int);
                assert(self.pixel@ =~= dr2.0);
            }
        }
    }
}

} // verus!
