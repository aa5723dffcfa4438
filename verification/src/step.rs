//! The interpreter: a pure-software implementation of every action,
//! verified against the transition function in `semantics`. It is the
//! complete fallback the dispatcher uses for opcodes the compiler does not
//! support.

use vstd::prelude::*;

use crate::cache::{compile, jit_supported, lemma_block_matches_interpreter, spec_block_of,
    spec_jit_supported, CompiledBlock};
use crate::cpu::CPU;
use crate::decode::Jump;
use crate::model::{lemma_op_fields, spec_action, Fault, MachineV, MEM_SIZE};
use crate::rng::random_byte;
use crate::screen::ContextPixels;
use crate::semantics::{lemma_first_pressed_char, load_regs_upto, pc_plus, spec_exec_action,
    spec_step, store_regs_upto};

verus! {

broadcast use vstd::std_specs::hash::group_hash_axioms;


#[allow(non_snake_case)]
impl CPU {
    /// Advances the program counter by one instruction, wrapping at 16
    /// bits; nothing else changes.
    fn bump_pc(&mut self)
        ensures
            final(self)@.pc == pc_plus(old(self)@.pc, 2),
            final(self).mem == old(self).mem,
            final(self).V == old(self).V,
            final(self).I == old(self).I,
            final(self).stack == old(self).stack,
            final(self).sp == old(self).sp,
            final(self).game_count == old(self).game_count,
            final(self).sound_count == old(self).sound_count,
            final(self).debug == old(self).debug,
            final(self).jit_cache == old(self).jit_cache,
    {
        self.pc = ((self.pc as u32 + 2) % 0x10000) as u16;
    }

    /// Actions 0 through 9: the legacy no-op, screen clear, return, jump,
    /// call, the immediate compare skips, and the immediate loads.
    #[verifier::rlimit(100)]
    fn exec_control(
        &mut self,
        opcode: u16,
        action: u8,
        rnd: u8,
        display: &mut ContextPixels,
    ) -> (r: Result<bool, Fault>)
        requires
            old(self).wf(),
            old(display).wf(),
            action == spec_action(opcode),
            0 <= action <= 9,
        ensures
            final(self).wf(),
            final(display).wf(),
            final(self).debug == old(self).debug,
            final(self).jit_cache@ == old(self).jit_cache@,
            ({
                let ar = spec_exec_action(
                    MachineV { cpu: old(self)@, scr: old(display)@ },
                    opcode,
                    rnd,
                );
                &&& final(self)@ == ar.m.cpu
                &&& final(display)@ == ar.m.scr
                &&& (match r {
                    Ok(adv) => ar.fault is None && adv == ar.advance,
                    Err(f) => ar.fault == Some(f),
                })
            }),
    {
        proof {
            lemma_op_fields(opcode);
        }
        let x = ((opcode >> 8) & 0xF) as u8;
        let y = ((opcode >> 4) & 0xF) as u8;
        let n = (opcode & 0xF) as u8;
        let nnn = opcode & 0xFFF;
        let kk = (opcode & 0xFF) as u8;

        match action {
            0 => {
                // legacy machine-code call: not implemented
                Ok(true)
            },
            1 => {
                // 00E0
                display.clear_screen();
                Ok(true)
            },
            2 => {
                // 00EE
                if self.sp == 0 {
                    return Err(Fault::StackUnderflow);
                }
                self.sp -= 1;
                self.pc = self.stack[self.sp as usize];
                Ok(true)
            },
            3 => {
                // 1NNN
                self.pc = nnn;
                Ok(false)
            },
            4 => {
                // 2NNN
                if self.sp >= 16 {
                    return Err(Fault::StackOverflow);
                }
                self.stack[self.sp as usize] = self.pc;
                self.sp += 1;
                self.pc = nnn;
                Ok(false)
            },
            5 => {
                // 3XKK
                if self.V[x as usize] == kk {
                    self.bump_pc();
                }
                Ok(true)
            },
            6 => {
                // 4XKK
                if self.V[x as usize] != kk {
                    self.bump_pc();
                }
                Ok(true)
            },
            7 => {
                // 5XY0
                if self.V[x as usize] == self.V[y as usize] {
                    self.bump_pc();
                }
                Ok(true)
            },
            8 => {
                // 6XNN
                self.V[x as usize] = kk;
                Ok(true)
            },
            9 => {
                // 7XNN
                let sum = self.V[x as usize] as u16 + kk as u16;
                self.V[x as usize] = (sum % 256) as u8;
                Ok(true)
            },
            _ => {
                proof {
                    assert(false);
                }
                Ok(true)
            },
        }
    }

    /// Actions 10 through 19: the register copy, bitwise and arithmetic
    /// operations, the shifts, and the register compare skip.
    #[verifier::rlimit(100)]
    fn exec_alu(
        &mut self,
        opcode: u16,
        action: u8,
        rnd: u8,
        display: &mut ContextPixels,
    ) -> (r: Result<bool, Fault>)
        requires
            old(self).wf(),
            old(display).wf(),
            action == spec_action(opcode),
            10 <= action <= 19,
        ensures
            final(self).wf(),
            final(display).wf(),
            final(self).debug == old(self).debug,
            final(self).jit_cache@ == old(self).jit_cache@,
            ({
                let ar = spec_exec_action(
                    MachineV { cpu: old(self)@, scr: old(display)@ },
                    opcode,
                    rnd,
                );
                &&& final(self)@ == ar.m.cpu
                &&& final(display)@ == ar.m.scr
                &&& (match r {
                    Ok(adv) => ar.fault is None && adv == ar.advance,
                    Err(f) => ar.fault == Some(f),
                })
            }),
    {
        proof {
            lemma_op_fields(opcode);
        }
        let x = ((opcode >> 8) & 0xF) as u8;
        let y = ((opcode >> 4) & 0xF) as u8;
        let n = (opcode & 0xF) as u8;
        let nnn = opcode & 0xFFF;
        let kk = (opcode & 0xFF) as u8;

        match action {
            10 => {
                // 8XY0
                self.V[x as usize] = self.V[y as usize];
                Ok(true)
            },
            11 => {
                // 8XY1
                self.V[x as usize] = self.V[x as usize] | self.V[y as usize];
                Ok(true)
            },
            12 => {
                // 8XY2
                self.V[x as usize] = self.V[x as usize] & self.V[y as usize];
                Ok(true)
            },
            13 => {
                // 8XY3
                self.V[x as usize] = self.V[x as usize] ^ self.V[y as usize];
                Ok(true)
            },
            14 => {
                // 8XY4
                let sum = self.V[x as usize] as u16 + self.V[y as usize] as u16;
                let flag: u8 = if sum > 255 {
                    1
                } else {
                    0
                };
                self.V[x as usize] = (sum % 256) as u8;
                self.V[15] = flag;
                Ok(true)
            },
            15 => {
                // 8XY5
                let vx = self.V[x as usize];
                let vy = self.V[y as usize];
                let flag: u8 = if vx >= vy {
                    1
                } else {
                    0
                };
                let diff: u8 = if vx >= vy {
                    vx - vy
                } else {
                    (256 + vx as u16 - vy as u16) as u8
                };
                self.V[x as usize] = diff;
                self.V[15] = flag;
                Ok(true)
            },
            16 => {
                // 8XY6
                self.V[15] = self.V[x as usize] & 1;
                self.V[x as usize] = self.V[x as usize] >> 1;
                Ok(true)
            },
            17 => {
                // 8XY7
                let vx = self.V[x as usize];
                let vy = self.V[y as usize];
                let flag: u8 = if vy >= vx {
                    1
                } else {
                    0
                };
                let diff: u8 = if vy >= vx {
                    vy - vx
                } else {
                    (256 + vy as u16 - vx as u16) as u8
                };
                self.V[x as usize] = diff;
                self.V[15] = flag;
                Ok(true)
            },
            18 => {
                // 8XYE
                self.V[15] = (self.V[x as usize] >> 7) & 1;
                let dbl = (self.V[x as usize] as u16 * 2) % 256;
                self.V[x as usize] = dbl as u8;
                Ok(true)
            },
            19 => {
                // 9XY0
                if self.V[x as usize] != self.V[y as usize] {
                    self.bump_pc();
                }
                Ok(true)
            },
            _ => {
                proof {
                    assert(false);
                }
                Ok(true)
            },
        }
    }

    /// Actions 20 through 27: the index load, the offset jump, the random
    /// byte, the sprite draw, the keypad skips, the timer read, and the
    /// key wait.
    #[verifier::rlimit(100)]
    fn exec_io(
        &mut self,
        opcode: u16,
        action: u8,
        rnd: u8,
        display: &mut ContextPixels,
    ) -> (r: Result<bool, Fault>)
        requires
            old(self).wf(),
            old(display).wf(),
            action == spec_action(opcode),
            20 <= action <= 27,
        ensures
            final(self).wf(),
            final(display).wf(),
            final(self).debug == old(self).debug,
            final(self).jit_cache@ == old(self).jit_cache@,
            ({
                let ar = spec_exec_action(
                    MachineV { cpu: old(self)@, scr: old(display)@ },
                    opcode,
                    rnd,
                );
                &&& final(self)@ == ar.m.cpu
                &&& final(display)@ == ar.m.scr
                &&& (match r {
                    Ok(adv) => ar.fault is None && adv == ar.advance,
                    Err(f) => ar.fault == Some(f),
                })
            }),
    {
        proof {
            lemma_op_fields(opcode);
        }
        let x = ((opcode >> 8) & 0xF) as u8;
        let y = ((opcode >> 4) & 0xF) as u8;
        let n = (opcode & 0xF) as u8;
        let nnn = opcode & 0xFFF;
        let kk = (opcode & 0xFF) as u8;

        match action {
            20 => {
                // ANNN
                self.I = nnn;
                Ok(true)
            },
            21 => {
                // BNNN
                self.pc = self.V[0] as u16 + nnn;
                Ok(false)
            },
            22 => {
                // CXNN
                self.V[x as usize] = rnd & kk;
                Ok(true)
            },
            23 => {
                // DXYN
                display.draw_screen(n, x, y, self);
                Ok(true)
            },
            24 => {
                // EX9E
                let key = self.V[x as usize];
                if display.keyboard.ispressed(key) {
                    self.bump_pc();
                }
                Ok(true)
            },
            25 => {
                // EXA1
                let key = self.V[x as usize];
                if !display.keyboard.ispressed(key) {
                    self.bump_pc();
                }
                Ok(true)
            },
            26 => {
                // FX07
                self.V[x as usize] = self.game_count;
                Ok(true)
            },
            27 => {
                // FX0A
                match display.keyboard.awaiting_key {
                    Some(idx) => {
                        let mut i: u8 = 0;
                        while i < 16
                            invariant
                                i <= 16,
                                old(self).wf(),
                                old(display).wf(),
                                display == old(display),
                                self == old(self),
                                idx < 16,
                                spec_action(opcode) == 27,
                                display.keyboard.awaiting_key == Some(idx),
                                forall|j: int| 0 <= j < i ==> !display.keyboard@.keys[j],
                            decreases 16 - i,
                        {
                            if display.keyboard.keys[i as usize] {
                                proof {
                                    lemma_first_pressed_char(
                                        display.keyboard@.keys,
                                        0,
                                        i as int,
                                    );
                                }
                                self.V[idx as usize] = i;
                                display.keyboard.awaiting_key = None;
                                return Ok(true);
                            }
                            i += 1;
                        }
                        proof {
                            lemma_first_pressed_char(display.keyboard@.keys, 0, 16);
                        }
                        Ok(false)
                    },
                    None => {
                        display.keyboard.awaiting_key = Some(x);
                        Ok(false)
                    },
                }
            },
            _ => {
                proof {
                    assert(false);
                }
                Ok(true)
            },
        }
    }

    /// Actions 28 and up: the timer writes, the index arithmetic, the font
    /// lookup, the decimal decomposition, the register block store and
    /// load, and the tolerated no-op for unmatched opcodes.
    #[verifier::rlimit(100)]
    fn exec_mem(
        &mut self,
        opcode: u16,
        action: u8,
        rnd: u8,
        display: &mut ContextPixels,
    ) -> (r: Result<bool, Fault>)
        requires
            old(self).wf(),
            old(display).wf(),
            action == spec_action(opcode),
            action >= 28,
        ensures
            final(self).wf(),
            final(display).wf(),
            final(self).debug == old(self).debug,
            final(self).jit_cache@ == old(self).jit_cache@,
            ({
                let ar = spec_exec_action(
                    MachineV { cpu: old(self)@, scr: old(display)@ },
                    opcode,
                    rnd,
                );
                &&& final(self)@ == ar.m.cpu
                &&& final(display)@ == ar.m.scr
                &&& (match r {
                    Ok(adv) => ar.fault is None && adv == ar.advance,
                    Err(f) => ar.fault == Some(f),
                })
            }),
    {
        proof {
            lemma_op_fields(opcode);
        }
        let x = ((opcode >> 8) & 0xF) as u8;
        let y = ((opcode >> 4) & 0xF) as u8;
        let n = (opcode & 0xF) as u8;
        let nnn = opcode & 0xFFF;
        let kk = (opcode & 0xFF) as u8;

        match action {
            28 => {
                // FX15
                self.game_count = self.V[x as usize];
                Ok(true)
            },
            29 => {
                // FX18
                self.sound_count = self.V[x as usize];
                Ok(true)
            },
            30 => {
                // FX1E
                let sum = self.I as u32 + self.V[x as usize] as u32;
                self.V[15] = if sum > 0xFFF {
                    1
                } else {
                    0
                };
                self.I = (sum % 0x10000) as u16;
                Ok(true)
            },
            31 => {
                // FX29
                self.I = ((self.V[x as usize] & 0xF) as u16) * 5;
                Ok(true)
            },
            32 => {
                // FX33
                if self.I > 4093 {
                    return Err(Fault::MemoryOutOfBounds);
                }
                let value = self.V[x as usize];
                self.mem[self.I as usize] = value / 100;
                self.mem[self.I as usize + 1] = (value / 10) % 10;
                self.mem[self.I as usize + 2] = value % 10;
                Ok(true)
            },
            33 => {
                // FX55
                if self.I as usize + x as usize >= 4096 {
                    return Err(Fault::MemoryOutOfBounds);
                }
                let ghost mem0 = self.mem@;
                let mut k: usize = 0;
                while k <= x as usize
                    invariant
                        k <= x as usize + 1,
                        x < 16,
                        old(self).wf(),
                        self.I as int + x < 4096,
                        self.mem@.len() == 4096,
                        self.mem@ == store_regs_upto(mem0, self.V@, self.I as int, k as int),
                        self.V == old(self).V,
                        self.I == old(self).I,
                        self.stack == old(self).stack,
                        self.sp == old(self).sp,
                        self.game_count == old(self).game_count,
                        self.sound_count == old(self).sound_count,
                        self.pc == old(self).pc,
                        self.debug == old(self).debug,
                        self.jit_cache == old(self).jit_cache,
                    decreases x as usize - k + 1,
                {
                    self.mem[self.I as usize + k] = self.V[k];
                    k += 1;
                }
                Ok(true)
            },
            34 => {
                // FX65
                if self.I as usize + x as usize >= 4096 {
                    return Err(Fault::MemoryOutOfBounds);
                }
                let ghost v0 = self.V@;
                let mut k: usize = 0;
                while k <= x as usize
                    invariant
                        k <= x as usize + 1,
                        x < 16,
                        old(self).wf(),
                        self.I as int + x < 4096,
                        self.V@.len() == 16,
                        self.V@ == load_regs_upto(v0, self.mem@, self.I as int, k as int),
                        self.mem == old(self).mem,
                        self.I == old(self).I,
                        self.stack == old(self).stack,
                        self.sp == old(self).sp,
                        self.game_count == old(self).game_count,
                        self.sound_count == old(self).sound_count,
                        self.pc == old(self).pc,
                        self.debug == old(self).debug,
                        self.jit_cache == old(self).jit_cache,
                    decreases x as usize - k + 1,
                {
                    self.V[k] = self.mem[self.I as usize + k];
                    k += 1;
                }
                Ok(true)
            },
            _ => {
                // no decode entry matched: tolerated as a no-op
                Ok(true)
            },
        }
    }

    /// Interprets one decoded action against the processor and the display
    /// collaborator: exactly the transition `spec_exec_action` describes.
    /// The returned boolean says whether the program counter still has to
    /// advance by 2; a fault leaves the whole machine unchanged.
    pub fn execute_action(
        &mut self,
        opcode: u16,
        action: u8,
        rnd: u8,
        display: &mut ContextPixels,
    ) -> (r: Result<bool, Fault>)
        requires
            old(self).wf(),
            old(display).wf(),
            action == spec_action(opcode),
        ensures
            final(self).wf(),
            final(display).wf(),
            final(self).debug == old(self).debug,
            final(self).jit_cache@ == old(self).jit_cache@,
            ({
                let ar = spec_exec_action(
                    MachineV { cpu: old(self)@, scr: old(display)@ },
                    opcode,
                    rnd,
                );
                &&& final(self)@ == ar.m.cpu
                &&& final(display)@ == ar.m.scr
                &&& (match r {
                    Ok(adv) => ar.fault is None && adv == ar.advance,
                    Err(f) => ar.fault == Some(f),
                })
            }),
    {
        if action <= 9 {
            self.exec_control(opcode, action, rnd, display)
        } else if action <= 19 {
            self.exec_alu(opcode, action, rnd, display)
        } else if action <= 27 {
            self.exec_io(opcode, action, rnd, display)
        } else {
            self.exec_mem(opcode, action, rnd, display)
        }
    }


    /// One whole cycle on an already fetched opcode, with the random byte
    /// supplied by the caller: decode, run through the code cache — a hit
    /// executes the stored block, a miss on a supported action compiles and
    /// stores one first — or fall back to the interpreter, then advance the
    /// program counter unless the action suppressed it. The machine ends in
    /// exactly the state `spec_step` describes; the cache grows by at most
    /// the entry for this opcode and loses nothing.
    pub fn step_with(
        &mut self,
        opcode: u16,
        j: &Jump,
        rnd: u8,
        display: &mut ContextPixels,
    ) -> (r: Result<(), Fault>)
        requires
            old(self).wf(),
            old(display).wf(),
            j.wf(),
        ensures
            final(self).wf(),
            final(display).wf(),
            final(self).debug == old(self).debug,
            ({
                let sr = spec_step(MachineV { cpu: old(self)@, scr: old(display)@ }, opcode, rnd);
                &&& final(self)@ == sr.m.cpu
                &&& final(display)@ == sr.m.scr
                &&& (match r {
                    Ok(u) => sr.fault is None,
                    Err(f) => sr.fault == Some(f),
                })
            }),
            final(self).jit_cache@ == old(self).jit_cache@ || final(self).jit_cache@ == old(
                self,
            ).jit_cache@.insert(opcode, spec_block_of(opcode)),
    {
        let action = j.get_action(opcode);
        let cached: Option<CompiledBlock> = match self.jit_cache.get(&opcode) {
            Some(b) => Some(*b),
            None => None,
        };
        let outcome: Result<bool, Fault>;
        if let Some(b) = cached {
            proof {
                lemma_op_fields(opcode);
                lemma_block_matches_interpreter(
                    MachineV { cpu: self@, scr: display@ },
                    opcode,
                    rnd,
                );
            }
            outcome = b.execute(self);
        } else if jit_supported(action) {
            let b = compile(opcode, action);
            self.jit_cache.insert(opcode, b);
            proof {
                assert forall|k: u16| #[trigger] self.jit_cache@.contains_key(k)
                    implies self.jit_cache@[k] == spec_block_of(k) && spec_jit_supported(
                    spec_action(k),
                ) by {
                    if k != opcode {
                        assert(old(self).jit_cache@.contains_key(k));
                    }
                }
                lemma_op_fields(opcode);
                lemma_block_matches_interpreter(
                    MachineV { cpu: self@, scr: display@ },
                    opcode,
                    rnd,
                );
            }
            outcome = b.execute(self);
        } else {
            outcome = self.execute_action(opcode, action, rnd, display);
        }
        match outcome {
            Ok(true) => {
                self.bump_pc();
                Ok(())
            },
            Ok(false) => Ok(()),
            Err(f) => Err(f),
        }
    }

    /// One whole cycle on an already fetched opcode: as `step_with`, with
    /// the random byte drawn from the outside source of randomness. The
    /// machine ends in the state `spec_step` gives for some byte; for every
    /// opcode but the random action, `spec_step` does not read the byte at
    /// all.
    pub fn interpret(
        &mut self,
        opcode: u16,
        j: &Jump,
        display: &mut ContextPixels,
    ) -> (r: Result<(), Fault>)
        requires
            old(self).wf(),
            old(display).wf(),
            j.wf(),
        ensures
            final(self).wf(),
            final(display).wf(),
            final(self).debug == old(self).debug,
            exists|rnd: u8|
                {
                    let sr = #[trigger] spec_step(
                        MachineV { cpu: old(self)@, scr: old(display)@ },
                        opcode,
                        rnd,
                    );
                    &&& final(self)@ == sr.m.cpu
                    &&& final(display)@ == sr.m.scr
                    &&& (match r {
                        Ok(u) => sr.fault is None,
                        Err(f) => sr.fault == Some(f),
                    })
                },
            final(self).jit_cache@ == old(self).jit_cache@ || final(self).jit_cache@ == old(
                self,
            ).jit_cache@.insert(opcode, spec_block_of(opcode)),
    {
        let rnd = random_byte();
        let r = self.step_with(opcode, j, rnd, display);
        r
    }

    /// One cycle of the dispatcher: fetch the opcode at the program
    /// counter, then run it as `interpret` does. A program counter too
    /// close to the end of memory to hold an opcode is a fault that leaves
    /// the machine unchanged.
    pub fn run_cycle(&mut self, j: &Jump, display: &mut ContextPixels) -> (r: Result<(), Fault>)
        requires
            old(self).wf(),
            old(display).wf(),
            j.wf(),
        ensures
            final(self).wf(),
            final(display).wf(),
            final(self).debug == old(self).debug,
            old(self)@.pc + 1 >= MEM_SIZE ==> r == Result::<(), Fault>::Err(
                Fault::MemoryOutOfBounds,
            ) && *final(self) == *old(self) && *final(display) == *old(display),
            old(self)@.pc + 1 < MEM_SIZE ==> exists|rnd: u8|
                {
                    let sr = #[trigger] spec_step(
                        MachineV { cpu: old(self)@, scr: old(display)@ },
                        Self::spec_fetched(old(self)@),
                        rnd,
                    );
                    &&& final(self)@ == sr.m.cpu
                    &&& final(display)@ == sr.m.scr
                    &&& (match r {
                        Ok(u) => sr.fault is None,
                        Err(f) => sr.fault == Some(f),
                    })
                },
    {
        if self.pc as usize + 1 >= MEM_SIZE {
            return Err(Fault::MemoryOutOfBounds);
        }
        let opcode = self.get_opcode();
        self.interpret(opcode, j, display)
    }
}

} // verus!
