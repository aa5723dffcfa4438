//! The meaning of each of the 35 actions, as a mathematical transition
//! function on the machine model. Executable code — interpreted or running
//! through the code cache — is verified against this single definition.

use vstd::prelude::*;

use crate::keyboard::spec_pressed;
use crate::model::{op_kk, op_n, op_nnn, op_x, op_y, spec_action, ActRes, CpuV, Fault, KeyboardV,
    MachineV, ScreenV, StepRes};
use crate::screen::{draw_rows_upto, spec_cleared};

verus! {

/// The program counter advanced by `d`, wrapping at 16 bits.
pub open spec fn pc_plus(pc: u16, d: u16) -> u16 {
    ((pc + d) % 0x10000) as u16
}

/// The processor with register `i` set to `val`.
pub open spec fn upd_v(c: CpuV, i: int, val: u8) -> CpuV {
    CpuV { v: c.v.update(i, val), ..c }
}

/// The processor with the next instruction skipped when `cond` holds.
pub open spec fn skip_if(c: CpuV, cond: bool) -> CpuV {
    if cond {
        CpuV { pc: pc_plus(c.pc, 2), ..c }
    } else {
        c
    }
}

/// Memory after storing registers `v[0] ..= v[k-1]` at addresses
/// `i ..= i + k - 1`.
pub open spec fn store_regs_upto(mem: Seq<u8>, v: Seq<u8>, i: int, k: int) -> Seq<u8>
    decreases k,
{
    if k <= 0 {
        mem
    } else {
        store_regs_upto(mem, v, i, k - 1).update(i + (k - 1), v[k - 1])
    }
}

/// Registers after loading `v[0] ..= v[k-1]` from addresses
/// `i ..= i + k - 1`.
pub open spec fn load_regs_upto(v: Seq<u8>, mem: Seq<u8>, i: int, k: int) -> Seq<u8>
    decreases k,
{
    if k <= 0 {
        v
    } else {
        load_regs_upto(v, mem, i, k - 1).update(k - 1, mem[i + (k - 1)])
    }
}

/// The lowest key index at or after `i` that is pressed, or 16 if none is.
pub open spec fn first_pressed_from(keys: Seq<bool>, i: int) -> int
    decreases 16 - i,
{
    if i < 0 || i >= 16 {
        16
    } else if keys[i] {
        i
    } else {
        first_pressed_from(keys, i + 1)
    }
}

/// A scan result characterized as a first pressed key is the value of
/// `first_pressed_from`.
pub proof fn lemma_first_pressed_char(keys: Seq<bool>, i: int, r: int)
    requires
        0 <= i <= r <= 16,
        forall|j: int| i <= j < r ==> !keys[j],
        r < 16 ==> keys[r],
    ensures
        first_pressed_from(keys, i) == r,
    decreases 16 - i,
{
    if i < 16 && i < r {
        lemma_first_pressed_char(keys, i + 1, r);
    }
}

/// An action result that raises no fault.
pub open spec fn act_ok(cpu: CpuV, scr: ScreenV, advance: bool) -> ActRes {
    ActRes { m: MachineV { cpu, scr }, advance, fault: None }
}

/// An action result that raises a fault: the machine is unchanged and the
/// cycle is abandoned.
pub open spec fn act_fault(m: MachineV, f: Fault) -> ActRes {
    ActRes { m, advance: false, fault: Some(f) }
}

/// What executing one decoded action does to the machine, before the
/// trailing program-counter advance. `rnd` is the byte an outside source
/// of randomness supplied for this cycle; only the random action reads it.
pub open spec fn spec_exec_action(m: MachineV, op: u16, rnd: u8) -> ActRes {
    let a = spec_action(op);
    let x = op_x(op) as int;
    let y = op_y(op) as int;
    let n = op_n(op);
    let nnn = op_nnn(op);
    let kk = op_kk(op);
    let c = m.cpu;
    let s = m.scr;
    if a == 0 {
        // legacy machine-code call: not implemented, a plain no-op
        act_ok(c, s, true)
    } else if a == 1 {
        // 00E0: clear the screen
        act_ok(c, ScreenV { pixels: spec_cleared(s.pixels), ..s }, true)
    } else if a == 2 {
        // 00EE: return from a subroutine
        if c.sp == 0 {
            act_fault(m, Fault::StackUnderflow)
        } else {
            let sp2 = (c.sp - 1) as u8;
            act_ok(CpuV { sp: sp2, pc: c.stack[sp2 as int], ..c }, s, true)
        }
    } else if a == 3 {
        // 1NNN: jump
        act_ok(CpuV { pc: nnn, ..c }, s, false)
    } else if a == 4 {
        // 2NNN: call a subroutine
        if c.sp >= 16 {
            act_fault(m, Fault::StackOverflow)
        } else {
            act_ok(
                CpuV { stack: c.stack.update(c.sp as int, c.pc), sp: (c.sp + 1) as u8, pc: nnn, ..c },
                s,
                false,
            )
        }
    } else if a == 5 {
        // 3XKK: skip when VX equals KK
        act_ok(skip_if(c, c.v[x] == kk), s, true)
    } else if a == 6 {
        // 4XKK: skip when VX differs from KK
        act_ok(skip_if(c, c.v[x] != kk), s, true)
    } else if a == 7 {
        // 5XY0: skip when VX equals VY
        act_ok(skip_if(c, c.v[x] == c.v[y]), s, true)
    } else if a == 8 {
        // 6XNN: load the immediate
        act_ok(upd_v(c, x, kk), s, true)
    } else if a == 9 {
        // 7XNN: add the immediate, wrapping, with no flag
        act_ok(upd_v(c, x, ((c.v[x] + kk) % 256) as u8), s, true)
    } else if a == 10 {
        // 8XY0: copy VY into VX
        act_ok(upd_v(c, x, c.v[y]), s, true)
    } else if a == 11 {
        // 8XY1: bitwise or
        act_ok(upd_v(c, x, c.v[x] | c.v[y]), s, true)
    } else if a == 12 {
        // 8XY2: bitwise and
        act_ok(upd_v(c, x, c.v[x] & c.v[y]), s, true)
    } else if a == 13 {
        // 8XY3: bitwise xor
        act_ok(upd_v(c, x, c.v[x] ^ c.v[y]), s, true)
    } else if a == 14 {
        // 8XY4: add VY to VX; VF is 1 exactly on unsigned overflow
        let sum = c.v[x] + c.v[y];
        let flag: u8 = if sum > 255 {
            1
        } else {
            0
        };
        act_ok(CpuV { v: c.v.update(x, (sum % 256) as u8).update(15, flag), ..c }, s, true)
    } else if a == 15 {
        // 8XY5: subtract VY from VX; VF is 1 exactly when no borrow occurred
        let flag: u8 = if c.v[x] >= c.v[y] {
            1
        } else {
            0
        };
        act_ok(
            CpuV { v: c.v.update(x, ((c.v[x] - c.v[y]) % 256) as u8).update(15, flag), ..c },
            s,
            true,
        )
    } else if a == 16 {
        // 8XY6: shift VX right; VF takes the pre-shift low bit first
        let v1 = c.v.update(15, c.v[x] & 1);
        act_ok(CpuV { v: v1.update(x, v1[x] >> 1), ..c }, s, true)
    } else if a == 17 {
        // 8XY7: VX becomes VY minus VX; VF is 1 exactly when no borrow
        let flag: u8 = if c.v[y] >= c.v[x] {
            1
        } else {
            0
        };
        act_ok(
            CpuV { v: c.v.update(x, ((c.v[y] - c.v[x]) % 256) as u8).update(15, flag), ..c },
            s,
            true,
        )
    } else if a == 18 {
        // 8XYE: shift VX left; VF takes the pre-shift high bit first
        let v1 = c.v.update(15, (c.v[x] >> 7) & 1);
        act_ok(CpuV { v: v1.update(x, ((v1[x] * 2) % 256) as u8), ..c }, s, true)
    } else if a == 19 {
        // 9XY0: skip when VX differs from VY
        act_ok(skip_if(c, c.v[x] != c.v[y]), s, true)
    } else if a == 20 {
        // ANNN: load the index register
        act_ok(CpuV { i: nnn, ..c }, s, true)
    } else if a == 21 {
        // BNNN: jump to NNN plus V0
        act_ok(CpuV { pc: (c.v[0] + nnn) as u16, ..c }, s, false)
    } else if a == 22 {
        // CXNN: a masked random byte
        act_ok(upd_v(c, x, rnd & kk), s, true)
    } else if a == 23 {
        // DXYN: draw a sprite; VF is zeroed, then set to 1 on collision
        let v0 = c.v.update(15, 0u8);
        let dr = draw_rows_upto(
            s.pixels,
            0u8,
            c.mem,
            c.i as int,
            v0[x] as int,
            v0[y] as int,
            n as int,
        );
        act_ok(CpuV { v: c.v.update(15, dr.1), ..c }, ScreenV { pixels: dr.0, ..s }, true)
    } else if a == 24 {
        // EX9E: skip when the key held in VX is pressed
        act_ok(skip_if(c, spec_pressed(s.keyboard, c.v[x])), s, true)
    } else if a == 25 {
        // EXA1: skip when the key held in VX is not pressed
        act_ok(skip_if(c, !spec_pressed(s.keyboard, c.v[x])), s, true)
    } else if a == 26 {
        // FX07: read the delay timer
        act_ok(upd_v(c, x, c.game_count), s, true)
    } else if a == 27 {
        // FX0A: wait for a key press, then capture its code
        match s.keyboard.awaiting_key {
            Some(idx) => {
                let f = first_pressed_from(s.keyboard.keys, 0);
                if f < 16 {
                    act_ok(
                        upd_v(c, idx as int, f as u8),
                        ScreenV {
                            keyboard: KeyboardV { awaiting_key: None, ..s.keyboard },
                            ..s
                        },
                        true,
                    )
                } else {
                    act_ok(c, s, false)
                }
            },
            None => act_ok(
                c,
                ScreenV {
                    keyboard: KeyboardV { awaiting_key: Some(op_x(op)), ..s.keyboard },
                    ..s
                },
                false,
            ),
        }
    } else if a == 28 {
        // FX15: set the delay timer
        act_ok(CpuV { game_count: c.v[x], ..c }, s, true)
    } else if a == 29 {
        // FX18: set the sound timer
        act_ok(CpuV { sound_count: c.v[x], ..c }, s, true)
    } else if a == 30 {
        // FX1E: add VX to I; VF is 1 exactly when the sum exceeds 0xFFF
        let sum = c.i + c.v[x];
        let flag: u8 = if sum > 0xFFF {
            1
        } else {
            0
        };
        act_ok(CpuV { i: (sum % 0x10000) as u16, v: c.v.update(15, flag), ..c }, s, true)
    } else if a == 31 {
        // FX29: point I at the font glyph of the low nibble of VX
        act_ok(CpuV { i: ((c.v[x] & 0xF) * 5) as u16, ..c }, s, true)
    } else if a == 32 {
        // FX33: decimal digits of VX at I, I+1, I+2
        if c.i + 2 >= 4096 {
            act_fault(m, Fault::MemoryOutOfBounds)
        } else {
            let mem2 = c.mem.update(c.i as int, (c.v[x] / 100) as u8).update(
                c.i as int + 1,
                ((c.v[x] / 10) % 10) as u8,
            ).update(c.i as int + 2, (c.v[x] % 10) as u8);
            act_ok(CpuV { mem: mem2, ..c }, s, true)
        }
    } else if a == 33 {
        // FX55: store V0..VX at I onward
        if c.i + x >= 4096 {
            act_fault(m, Fault::MemoryOutOfBounds)
        } else {
            act_ok(CpuV { mem: store_regs_upto(c.mem, c.v, c.i as int, x + 1), ..c }, s, true)
        }
    } else if a == 34 {
        // FX65: load V0..VX from I onward
        if c.i + x >= 4096 {
            act_fault(m, Fault::MemoryOutOfBounds)
        } else {
            act_ok(CpuV { v: load_regs_upto(c.v, c.mem, c.i as int, x + 1), ..c }, s, true)
        }
    } else {
        // no decode entry matched: tolerated as a no-op that still advances
        act_ok(c, s, true)
    }
}

/// What one whole cycle does to the machine: the action's effect, then the
/// program counter advanced by 2 unless the action suppressed the advance
/// or raised a fault.
pub open spec fn spec_step(m: MachineV, op: u16, rnd: u8) -> StepRes {
    let ar = spec_exec_action(m, op, rnd);
    if ar.fault is Some {
        StepRes { m, fault: ar.fault }
    } else if ar.advance {
        StepRes {
            m: MachineV { cpu: CpuV { pc: pc_plus(ar.m.cpu.pc, 2), ..ar.m.cpu }, scr: ar.m.scr },
            fault: None,
        }
    } else {
        StepRes { m: ar.m, fault: None }
    }
}

/// Only the random action reads the random byte: for every other opcode a
/// cycle's outcome does not depend on it.
pub proof fn lemma_step_rnd_irrelevant(m: MachineV, op: u16, rnd1: u8, rnd2: u8)
    requires
        spec_action(op) != 22,
    ensures
        spec_step(m, op, rnd1) == spec_step(m, op, rnd2),
{
}

/// The call-stack discipline, on the call side: with all sixteen return
/// slots in use a further call is fatal and changes nothing; with a free
/// slot the call records the program counter, raises the pointer by one
/// and jumps, with no advance on top.
pub proof fn lemma_call_stack_discipline(m: MachineV, op: u16, rnd: u8)
    requires
        spec_action(op) == 4,
    ensures
        m.cpu.sp >= 16 ==> spec_step(m, op, rnd) == (StepRes {
            m,
            fault: Some(Fault::StackOverflow),
        }),
        m.cpu.sp < 16 ==> ({
            let sr = spec_step(m, op, rnd);
            &&& sr.fault is None
            &&& sr.m.cpu.sp == m.cpu.sp + 1
            &&& sr.m.cpu.stack == m.cpu.stack.update(m.cpu.sp as int, m.cpu.pc)
            &&& sr.m.cpu.pc == op_nnn(op)
            &&& sr.m.scr == m.scr
        }),
{
}

/// The call-stack discipline, on the return side: with no pending call a
/// return is fatal and changes nothing; otherwise it pops the recorded
/// address and lands one instruction after it.
pub proof fn lemma_return_stack_discipline(m: MachineV, op: u16, rnd: u8)
    requires
        spec_action(op) == 2,
    ensures
        m.cpu.sp == 0 ==> spec_step(m, op, rnd) == (StepRes {
            m,
            fault: Some(Fault::StackUnderflow),
        }),
        m.cpu.sp > 0 ==> ({
            let sr = spec_step(m, op, rnd);
            &&& sr.fault is None
            &&& sr.m.cpu.sp == m.cpu.sp - 1
            &&& sr.m.cpu.pc == pc_plus(m.cpu.stack[m.cpu.sp - 1], 2)
            &&& sr.m.cpu.stack == m.cpu.stack
            &&& sr.m.scr == m.scr
        }),
{
}

/// Arming the key wait: a cycle of the key-wait action with no wait
/// pending records the target register and suppresses the program-counter
/// advance; the processor, the pixels and the keys are untouched.
pub proof fn lemma_key_wait_arms(m: MachineV, op: u16, rnd: u8)
    requires
        spec_action(op) == 27,
        m.scr.keyboard.awaiting_key is None,
    ensures
        ({
            let sr = spec_step(m, op, rnd);
            &&& sr.fault is None
            &&& sr.m.cpu == m.cpu
            &&& sr.m.scr.pixels == m.scr.pixels
            &&& sr.m.scr.keyboard.keys == m.scr.keyboard.keys
            &&& sr.m.scr.keyboard.awaiting_key == Some(op_x(op))
        }),
{
}

/// Key-wait blocking: while a key wait is pending and no key is pressed,
/// a cycle of the key-wait action changes nothing at all — in particular
/// the target register is unchanged and the program counter does not
/// advance, however many ticks go by.
pub proof fn lemma_key_wait_blocks(m: MachineV, op: u16, rnd: u8)
    requires
        spec_action(op) == 27,
        m.scr.keyboard.awaiting_key is Some,
        forall|j: int| 0 <= j < 16 ==> !m.scr.keyboard.keys[j],
    ensures
        spec_step(m, op, rnd).m == m,
        spec_step(m, op, rnd).fault is None,
{
    lemma_first_pressed_char(m.scr.keyboard.keys, 0, 16);
}

/// Key-wait capture: once a key is pressed while a wait is pending for
/// register `idx`, the next cycle of the key-wait action stores the lowest
/// pressed key code in that register, clears the wait, and the program
/// counter resumes advancing.
pub proof fn lemma_key_wait_captures(m: MachineV, op: u16, rnd: u8, idx: u8, k: int)
    requires
        spec_action(op) == 27,
        m.scr.keyboard.awaiting_key == Some(idx),
        0 <= k < 16,
        m.scr.keyboard.keys[k],
        forall|j: int| 0 <= j < k ==> !m.scr.keyboard.keys[j],
    ensures
        ({
            let sr = spec_step(m, op, rnd);
            &&& sr.fault is None
            &&& sr.m.cpu.v == m.cpu.v.update(idx as int, k as u8)
            &&& sr.m.cpu.pc == pc_plus(m.cpu.pc, 2)
            &&& sr.m.cpu == (CpuV { v: sr.m.cpu.v, pc: sr.m.cpu.pc, ..m.cpu })
            &&& sr.m.scr.pixels == m.scr.pixels
            &&& sr.m.scr.keyboard.keys == m.scr.keyboard.keys
            &&& sr.m.scr.keyboard.awaiting_key is None
        }),
{
    lemma_first_pressed_char(m.scr.keyboard.keys, 0, k);
}

} // verus!
