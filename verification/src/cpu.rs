//! The processor state and its lifecycle: creation, font setup, program
//! loading, opcode fetch, and the timer countdown.

use vstd::prelude::*;

use std::collections::HashMap;

use crate::cache::{cache_wf, CompiledBlock};
use crate::model::{CpuV, Fault, MEM_SIZE, START_ADRR};

verus! {

/// The built-in font sprites: sixteen glyphs of five bytes each, copied
/// into low memory before a program runs.
pub open spec fn spec_fontset() -> Seq<u8> {
    seq![
        0xF0u8, 0x90u8, 0x90u8, 0x90u8, 0xF0u8, // 0
        0x20u8, 0x60u8, 0x20u8, 0x20u8, 0x70u8, // 1
        0xF0u8, 0x10u8, 0xF0u8, 0x80u8, 0xF0u8, // 2
        0xF0u8, 0x10u8, 0xF0u8, 0x10u8, 0xF0u8, // 3
        0x90u8, 0x90u8, 0xF0u8, 0x10u8, 0x10u8, // 4
        0xF0u8, 0x80u8, 0xF0u8, 0x10u8, 0xF0u8, // 5
        0xF0u8, 0x80u8, 0xF0u8, 0x90u8, 0xF0u8, // 6
        0xF0u8, 0x10u8, 0x20u8, 0x40u8, 0x40u8, // 7
        0xF0u8, 0x90u8, 0xF0u8, 0x90u8, 0xF0u8, // 8
        0xF0u8, 0x90u8, 0xF0u8, 0x10u8, 0xF0u8, // 9
        0xF0u8, 0x90u8, 0xF0u8, 0x90u8, 0x90u8, // A
        0xE0u8, 0x90u8, 0xE0u8, 0x90u8, 0xE0u8, // B
        0xF0u8, 0x80u8, 0x80u8, 0x80u8, 0xF0u8, // C
        0xE0u8, 0x90u8, 0x90u8, 0x90u8, 0xE0u8, // D
        0xF0u8, 0x80u8, 0xF0u8, 0x80u8, 0xF0u8, // E
        0xF0u8, 0x80u8, 0xF0u8, 0x80u8, 0x80u8, // F
    ]
}

/// The font sprites as bytes.
pub fn fontset() -> (f: Vec<u8>)
    ensures
        f@ == spec_fontset(),
{
    let f: Vec<u8> = vec![
        0xF0, 0x90, 0x90, 0x90, 0xF0,
        0x20, 0x60, 0x20, 0x20, 0x70,
        0xF0, 0x10, 0xF0, 0x80, 0xF0,
        0xF0, 0x10, 0xF0, 0x10, 0xF0,
        0x90, 0x90, 0xF0, 0x10, 0x10,
        0xF0, 0x80, 0xF0, 0x10, 0xF0,
        0xF0, 0x80, 0xF0, 0x90, 0xF0,
        0xF0, 0x10, 0x20, 0x40, 0x40,
        0xF0, 0x90, 0xF0, 0x90, 0xF0,
        0xF0, 0x90, 0xF0, 0x10, 0xF0,
        0xF0, 0x90, 0xF0, 0x90, 0x90,
        0xE0, 0x90, 0xE0, 0x90, 0xE0,
        0xF0, 0x80, 0x80, 0x80, 0xF0,
        0xE0, 0x90, 0x90, 0x90, 0xE0,
        0xF0, 0x80, 0xF0, 0x80, 0xF0,
        0xF0, 0x80, 0xF0, 0x80, 0x80,
    ];
    proof {
        assert(f@ =~= spec_fontset());
    }
    f
}

/// A vector of `n` zero bytes.
fn zero_bytes(n: usize) -> (v: Vec<u8>)
    ensures
        v@ == Seq::new(n as nat, |i: int| 0u8),
{
    let mut v: Vec<u8> = Vec::new();
    let mut k: usize = 0;
    while k < n
        invariant
            k <= n,
            v@ =~= Seq::new(k as nat, |i: int| 0u8),
        decreases n - k,
    {
        v.push(0);
        k += 1;
        proof {
            assert(v@ =~= Seq::new(k as nat, |i: int| 0u8));
        }
    }
    v
}

/// The processor: memory, the sixteen general registers, the index
/// register, the call stack, the two timers, the program counter, and the
/// cache of compiled blocks keyed by literal opcode.
#[allow(non_snake_case)]
pub struct CPU {
    /// The 4096 bytes of memory.
    pub mem: Vec<u8>,
    /// The sixteen general registers `V0..VF`; `VF` doubles as the flag
    /// output of arithmetic, shift and draw instructions.
    pub V: Vec<u8>,
    /// The index register, addressing memory for sprite, decimal and block
    /// instructions.
    pub I: u16,
    /// The sixteen return-address slots.
    pub stack: Vec<u16>,
    /// The stack pointer, in `[0, 16]`.
    pub sp: u8,
    /// The delay timer.
    pub game_count: u8,
    /// The sound timer.
    pub sound_count: u8,
    /// The program counter.
    pub pc: u16,
    /// Whether a caller asked for a cycle-by-cycle trace.
    pub debug: bool,
    /// Blocks compiled so far, keyed by the literal opcode value they were
    /// compiled from. The cache only grows and never evicts.
    pub jit_cache: HashMap<u16, CompiledBlock>,
}

#[allow(non_snake_case)]
impl View for CPU {
    type V = CpuV;

    open spec fn view(&self) -> CpuV {
        CpuV {
            mem: self.mem@,
            v: self.V@,
            i: self.I,
            stack: self.stack@,
            sp: self.sp,
            pc: self.pc,
            game_count: self.game_count,
            sound_count: self.sound_count,
        }
    }
}

#[allow(non_snake_case)]
impl CPU {
    /// The fixed sizes hold, the stack pointer is in range, and every
    /// cached block is the block of its own opcode.
    pub open spec fn wf(self) -> bool {
        &&& self.mem@.len() == MEM_SIZE
        &&& self.V@.len() == 16
        &&& self.stack@.len() == 16
        &&& self.sp <= 16
        &&& cache_wf(self.jit_cache@)
    }

    /// A freshly created processor: everything zeroed, the program counter
    /// at the program start, the cache empty.
    pub fn new(debug: bool) -> (cpu: CPU)
        ensures
            cpu.wf(),
            cpu@.mem == Seq::new(4096, |i: int| 0u8),
            cpu@.v == Seq::new(16, |i: int| 0u8),
            cpu@.stack == Seq::new(16, |i: int| 0u16),
            cpu@.i == 0,
            cpu@.sp == 0,
            cpu@.pc == START_ADRR,
            cpu@.game_count == 0,
            cpu@.sound_count == 0,
            cpu.debug == debug,
            cpu.jit_cache@ == Map::<u16, CompiledBlock>::empty(),
    {
        let mem = zero_bytes(MEM_SIZE);
        let mut v: Vec<u8> = Vec::new();
        let mut stack: Vec<u16> = Vec::new();
        let mut k: usize = 0;
        while k < 16
            invariant
                k <= 16,
                v@ =~= Seq::new(k as nat, |i: int| 0u8),
                stack@ =~= Seq::new(k as nat, |i: int| 0u16),
            decreases 16 - k,
        {
            v.push(0);
            stack.push(0);
            k += 1;
            proof {
                assert(v@ =~= Seq::new(k as nat, |i: int| 0u8));
                assert(stack@ =~= Seq::new(k as nat, |i: int| 0u16));
            }
        }
        CPU {
            mem,
            V: v,
            I: 0,
            stack,
            sp: 0,
            game_count: 0,
            sound_count: 0,
            pc: START_ADRR,
            debug,
            jit_cache: HashMap::new(),
        }
    }

    /// Copies the built-in font sprites into low memory; the rest of the
    /// state is untouched.
    pub fn init_memory(&mut self)
        requires
            old(self).wf(),
        ensures
            final(self).wf(),
            final(self)@.mem.len() == old(self)@.mem.len(),
            forall|i: int| 0 <= i < 80 ==> final(self)@.mem[i] == spec_fontset()[i],
            forall|i: int| 80 <= i < 4096 ==> final(self)@.mem[i] == old(self)@.mem[i],
            final(self)@ == (CpuV { mem: final(self)@.mem, ..old(self)@ }),
            final(self).debug == old(self).debug,
            final(self).jit_cache@ == old(self).jit_cache@,
    {
        let font = fontset();
        let mut i: usize = 0;
        while i < 80
            invariant
                i <= 80,
                old(self).wf(),
                self.mem@.len() == 4096,
                font@ == spec_fontset(),
                forall|j: int| 0 <= j < i ==> self.mem@[j] == spec_fontset()[j],
                forall|j: int| i <= j < 4096 ==> self.mem@[j] == old(self).mem@[j],
                self.V == old(self).V,
                self.I == old(self).I,
                self.stack == old(self).stack,
                self.sp == old(self).sp,
                self.game_count == old(self).game_count,
                self.sound_count == old(self).sound_count,
                self.pc == old(self).pc,
                self.debug == old(self).debug,
                self.jit_cache == old(self).jit_cache,
            decreases 80 - i,
        {
            self.mem[i] = font[i];
            i += 1;
        }
    }

    /// Decrements each timer by one, floored at zero: a timer at zero
    /// stays at zero and never wraps.
    pub fn countdown(&mut self)
        ensures
            final(self)@.game_count == (if old(self)@.game_count > 0 {
                (old(self)@.game_count - 1) as u8
            } else {
                0u8
            }),
            final(self)@.sound_count == (if old(self)@.sound_count > 0 {
                (old(self)@.sound_count - 1) as u8
            } else {
                0u8
            }),
            final(self)@ == (CpuV {
                game_count: final(self)@.game_count,
                sound_count: final(self)@.sound_count,
                ..old(self)@
            }),
            final(self).debug == old(self).debug,
            final(self).jit_cache@ == old(self).jit_cache@,
            old(self).wf() ==> final(self).wf(),
    {
        if self.game_count > 0 {
            self.game_count -= 1;
        }
        if self.sound_count > 0 {
            self.sound_count -= 1;
        }
    }

    /// The big-endian 16-bit opcode at the program counter.
    pub open spec fn spec_fetched(c: CpuV) -> u16 {
        (c.mem[c.pc as int] * 256 + c.mem[c.pc as int + 1]) as u16
    }

    /// Fetches the opcode at the program counter: the byte there is the
    /// high half, the byte after it the low half.
    pub fn get_opcode(&mut self) -> (opcode: u16)
        requires
            old(self).wf(),
            old(self)@.pc + 1 < MEM_SIZE,
        ensures
            *final(self) == *old(self),
            opcode == Self::spec_fetched(old(self)@),
    {
        return ((self.mem[self.pc as usize] as u16) * 256) + self.mem[self.pc as usize + 1] as u16;
    }

    /// Copies a program image into memory at the program start. An image
    /// that would overrun memory is refused whole, leaving the state
    /// unchanged, so the caller can decline to start.
    pub fn load_game(&mut self, game: &Vec<u8>) -> (r: Result<(), Fault>)
        requires
            old(self).wf(),
        ensures
            final(self).wf(),
            r is Ok <==> game@.len() <= MEM_SIZE - START_ADRR,
            r is Err ==> r == Result::<(), Fault>::Err(Fault::RomTooBig) && *final(self) == *old(
                self,
            ),
            r is Ok ==> {
                &&& forall|i: int|
                    0 <= i < game@.len() ==> final(self)@.mem[START_ADRR + i] == game@[i]
                &&& forall|i: int|
                    0 <= i < 4096 && !(START_ADRR <= i < START_ADRR + game@.len())
                        ==> final(self)@.mem[i] == old(self)@.mem[i]
                &&& final(self)@ == (CpuV { mem: final(self)@.mem, ..old(self)@ })
                &&& final(self).debug == old(self).debug
                &&& final(self).jit_cache@ == old(self).jit_cache@
            },
    {
        if game.len() > MEM_SIZE - (START_ADRR as usize) {
            return Err(Fault::RomTooBig);
        }
        let mut i: usize = 0;
        while i < game.len()
            invariant
                i <= game@.len(),
                game@.len() <= 4096 - 512,
                self.mem@.len() == 4096,
                old(self).wf(),
                forall|j: int| 0 <= j < i ==> self.mem@[512 + j] == game@[j],
                forall|j: int|
                    0 <= j < 4096 && !(512 <= j < 512 + i) ==> self.mem@[j] == old(self).mem@[j],
                self.V == old(self).V,
                self.I == old(self).I,
                self.stack == old(self).stack,
                self.sp == old(self).sp,
                self.game_count == old(self).game_count,
                self.sound_count == old(self).sound_count,
                self.pc == old(self).pc,
                self.debug == old(self).debug,
                self.jit_cache == old(self).jit_cache,
            decreases game@.len() - i,
        {
            self.mem[512 + i] = game[i];
            i += 1;
        }
        Ok(())
    }
}

} // verus!
