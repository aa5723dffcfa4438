//! The code cache model. A compiled block freezes one opcode's operands as
//! immediates; the cache maps each literal opcode value to its block, is
//! only ever grown, and never evicts: operands are baked into the opcode
//! key, so distinct operand combinations never collide.

use vstd::prelude::*;

use crate::cpu::CPU;
use crate::model::{lemma_op_fields, op_kk, op_nnn, op_x, op_y, spec_action, CpuV, Fault,
    MachineV};
use crate::semantics::spec_exec_action;

verus! {

/// A unit of code generated for one literal opcode: the action index and
/// the operand fields frozen as immediates.
#[derive(Clone, Copy, Debug)]
pub struct CompiledBlock {
    pub action: u8,
    pub x: u8,
    pub y: u8,
    pub nnn: u16,
    pub kk: u8,
}

/// The block that compiling `op` produces.
pub open spec fn spec_block_of(op: u16) -> CompiledBlock {
    CompiledBlock {
        action: spec_action(op),
        x: op_x(op),
        y: op_y(op),
        nnn: op_nnn(op),
        kk: op_kk(op),
    }
}

/// The subset of actions the compiler supports: return, jump, call, the
/// compare skips, the register loads, bitwise and arithmetic operations,
/// the shifts, set-I, and the timer read. Actions that touch the display,
/// the keypad, randomness or bulk memory are interpreted only.
pub open spec fn spec_jit_supported(action: u8) -> bool {
    2 <= action <= 20 || action == 26
}

/// Executable mirror of `spec_jit_supported`.
pub fn jit_supported(action: u8) -> (r: bool)
    ensures
        r == spec_jit_supported(action),
{
    (2 <= action && action <= 20) || action == 26
}

/// Every entry of a well-formed cache is the block of its own key, and only
/// supported actions are ever compiled.
pub open spec fn cache_wf(m: Map<u16, CompiledBlock>) -> bool {
    forall|k: u16|
        #[trigger] m.contains_key(k) ==> m[k] == spec_block_of(k) && spec_jit_supported(
            spec_action(k),
        )
}

/// Effect of running one compiled block on the processor: the new state,
/// whether the program counter still has to advance, and the fault raised,
/// if any. On a fault the state is the starting state, unchanged.
pub ghost struct BlockRes {
    pub cpu: CpuV,
    pub advance: bool,
    pub fault: Option<Fault>,
}

/// The operand fields of a block are in range: register indices are
/// nibbles and the address is twelve bits.
impl CompiledBlock {
    pub open spec fn wf(self) -> bool {
        &&& self.x < 16
        &&& self.y < 16
        &&& self.nnn <= 0xFFF
    }
}

/// What running a compiled block does to the processor, written out from
/// the block's frozen immediates alone. No supported block touches the
/// display, the keypad or bulk memory.
pub open spec fn block_effect(b: CompiledBlock, c: CpuV) -> BlockRes {
    let x = b.x as int;
    let y = b.y as int;
    if b.action == 2 {
        // return: pop the stack into the program counter
        if c.sp == 0 {
            BlockRes { cpu: c, advance: false, fault: Some(Fault::StackUnderflow) }
        } else {
            BlockRes {
                cpu: CpuV { sp: (c.sp - 1) as u8, pc: c.stack[c.sp - 1], ..c },
                advance: true,
                fault: None,
            }
        }
    } else if b.action == 3 {
        // jump to the frozen address
        BlockRes { cpu: CpuV { pc: b.nnn, ..c }, advance: false, fault: None }
    } else if b.action == 4 {
        // call: push the program counter, then jump
        if c.sp >= 16 {
            BlockRes { cpu: c, advance: false, fault: Some(Fault::StackOverflow) }
        } else {
            BlockRes {
                cpu: CpuV {
                    stack: c.stack.update(c.sp as int, c.pc),
                    sp: (c.sp + 1) as u8,
                    pc: b.nnn,
                    ..c
                },
                advance: false,
                fault: None,
            }
        }
    } else if b.action == 5 {
        // skip when VX equals the frozen immediate
        let c2 = if c.v[x] == b.kk {
            CpuV { pc: ((c.pc + 2) % 0x10000) as u16, ..c }
        } else {
            c
        };
        BlockRes { cpu: c2, advance: true, fault: None }
    } else if b.action == 6 {
        // skip when VX differs from the frozen immediate
        let c2 = if c.v[x] != b.kk {
            CpuV { pc: ((c.pc + 2) % 0x10000) as u16, ..c }
        } else {
            c
        };
        BlockRes { cpu: c2, advance: true, fault: None }
    } else if b.action == 7 {
        // skip when VX equals VY
        let c2 = if c.v[x] == c.v[y] {
            CpuV { pc: ((c.pc + 2) % 0x10000) as u16, ..c }
        } else {
            c
        };
        BlockRes { cpu: c2, advance: true, fault: None }
    } else if b.action == 8 {
        // load the frozen immediate
        BlockRes { cpu: CpuV { v: c.v.update(x, b.kk), ..c }, advance: true, fault: None }
    } else if b.action == 9 {
        // add the frozen immediate, wrapping
        BlockRes {
            cpu: CpuV { v: c.v.update(x, ((c.v[x] + b.kk) % 256) as u8), ..c },
            advance: true,
            fault: None,
        }
    } else if b.action == 10 {
        BlockRes { cpu: CpuV { v: c.v.update(x, c.v[y]), ..c }, advance: true, fault: None }
    } else if b.action == 11 {
        BlockRes {
            cpu: CpuV { v: c.v.update(x, c.v[x] | c.v[y]), ..c },
            advance: true,
            fault: None,
        }
    } else if b.action == 12 {
        BlockRes {
            cpu: CpuV { v: c.v.update(x, c.v[x] & c.v[y]), ..c },
            advance: true,
            fault: None,
        }
    } else if b.action == 13 {
        BlockRes {
            cpu: CpuV { v: c.v.update(x, c.v[x] ^ c.v[y]), ..c },
            advance: true,
            fault: None,
        }
    } else if b.action == 14 {
        // add with carry flag
        let flag: u8 = if c.v[x] + c.v[y] > 255 {
            1
        } else {
            0
        };
        BlockRes {
            cpu: CpuV { v: c.v.update(x, ((c.v[x] + c.v[y]) % 256) as u8).update(15, flag), ..c },
            advance: true,
            fault: None,
        }
    } else if b.action == 15 {
        // subtract with no-borrow flag
        let flag: u8 = if c.v[x] >= c.v[y] {
            1
        } else {
            0
        };
        BlockRes {
            cpu: CpuV { v: c.v.update(x, ((c.v[x] - c.v[y]) % 256) as u8).update(15, flag), ..c },
            advance: true,
            fault: None,
        }
    } else if b.action == 16 {
        // shift right; the flag write lands first
        let v1 = c.v.update(15, c.v[x] & 1);
        BlockRes { cpu: CpuV { v: v1.update(x, v1[x] >> 1), ..c }, advance: true, fault: None }
    } else if b.action == 17 {
        // reversed subtract with no-borrow flag
        let flag: u8 = if c.v[y] >= c.v[x] {
            1
        } else {
            0
        };
        BlockRes {
            cpu: CpuV { v: c.v.update(x, ((c.v[y] - c.v[x]) % 256) as u8).update(15, flag), ..c },
            advance: true,
            fault: None,
        }
    } else if b.action == 18 {
        // shift left; the flag write lands first
        let v1 = c.v.update(15, (c.v[x] >> 7) & 1);
        BlockRes {
            cpu: CpuV { v: v1.update(x, ((v1[x] * 2) % 256) as u8), ..c },
            advance: true,
            fault: None,
        }
    } else if b.action == 19 {
        // skip when VX differs from VY
        let c2 = if c.v[x] != c.v[y] {
            CpuV { pc: ((c.pc + 2) % 0x10000) as u16, ..c }
        } else {
            c
        };
        BlockRes { cpu: c2, advance: true, fault: None }
    } else if b.action == 20 {
        // load the index register with the frozen address
        BlockRes { cpu: CpuV { i: b.nnn, ..c }, advance: true, fault: None }
    } else if b.action == 26 {
        // read the delay timer
        BlockRes { cpu: CpuV { v: c.v.update(x, c.game_count), ..c }, advance: true, fault: None }
    } else {
        // the compiler never produces blocks for other actions
        BlockRes { cpu: c, advance: true, fault: None }
    }
}

/// Freezes an opcode's operands into a block. The action index must be
/// what the canonical table decodes the opcode to.
pub fn compile(opcode: u16, action: u8) -> (b: CompiledBlock)
    requires
        action == spec_action(opcode),
    ensures
        b == spec_block_of(opcode),
        b.wf(),
{
    proof {
        lemma_op_fields(opcode);
    }
    CompiledBlock {
        action,
        x: ((opcode >> 8) & 0xF) as u8,
        y: ((opcode >> 4) & 0xF) as u8,
        nnn: opcode & 0xFFF,
        kk: (opcode & 0xFF) as u8,
    }
}

#[allow(non_snake_case)]
impl CompiledBlock {
    /// Runs the block against the processor, reproducing byte for byte the
    /// state change `block_effect` describes. The returned boolean says
    /// whether the program counter still has to advance by 2; a stack
    /// violation surfaces as the same fault the interpreter raises, with
    /// the state unchanged.
    #[verifier::rlimit(100)]
    pub fn execute(&self, cpu: &mut CPU) -> (r: Result<bool, Fault>)
        requires
            old(cpu).wf(),
            self.wf(),
        ensures
            final(cpu).wf(),
            final(cpu).debug == old(cpu).debug,
            final(cpu).jit_cache@ == old(cpu).jit_cache@,
            ({
                let br = block_effect(*self, old(cpu)@);
                &&& final(cpu)@ == br.cpu
                &&& (match r {
                    Ok(adv) => br.fault is None && adv == br.advance,
                    Err(f) => br.fault == Some(f),
                })
            }),
    {
        let x = self.x as usize;
        let y = self.y as usize;
        match self.action {
            2 => {
                if cpu.sp == 0 {
                    return Err(Fault::StackUnderflow);
                }
                cpu.sp -= 1;
                cpu.pc = cpu.stack[cpu.sp as usize];
                Ok(true)
            },
            3 => {
                cpu.pc = self.nnn;
                Ok(false)
            },
            4 => {
                if cpu.sp >= 16 {
                    return Err(Fault::StackOverflow);
                }
                cpu.stack[cpu.sp as usize] = cpu.pc;
                cpu.sp += 1;
                cpu.pc = self.nnn;
                Ok(false)
            },
            5 => {
                if cpu.V[x] == self.kk {
                    cpu.pc = ((cpu.pc as u32 + 2) % 0x10000) as u16;
                }
                Ok(true)
            },
            6 => {
                if cpu.V[x] != self.kk {
                    cpu.pc = ((cpu.pc as u32 + 2) % 0x10000) as u16;
                }
                Ok(true)
            },
            7 => {
                if cpu.V[x] == cpu.V[y] {
                    cpu.pc = ((cpu.pc as u32 + 2) % 0x10000) as u16;
                }
                Ok(true)
            },
            8 => {
                cpu.V[x] = self.kk;
                Ok(true)
            },
            9 => {
                let sum = cpu.V[x] as u16 + self.kk as u16;
                cpu.V[x] = (sum % 256) as u8;
                Ok(true)
            },
            10 => {
                cpu.V[x] = cpu.V[y];
                Ok(true)
            },
            11 => {
                cpu.V[x] = cpu.V[x] | cpu.V[y];
                Ok(true)
            },
            12 => {
                cpu.V[x] = cpu.V[x] & cpu.V[y];
                Ok(true)
            },
            13 => {
                cpu.V[x] = cpu.V[x] ^ cpu.V[y];
                Ok(true)
            },
            14 => {
                let sum = cpu.V[x] as u16 + cpu.V[y] as u16;
                let flag: u8 = if sum > 255 {
                    1
                } else {
                    0
                };
                cpu.V[x] = (sum % 256) as u8;
                cpu.V[15] = flag;
                Ok(true)
            },
            15 => {
                let vx = cpu.V[x];
                let vy = cpu.V[y];
                let flag: u8 = if vx >= vy {
                    1
                } else {
                    0
                };
                let diff: u8 = if vx >= vy {
                    vx - vy
                } else {
                    (256 + vx as u16 - vy as u16) as u8
                };
                cpu.V[x] = diff;
                cpu.V[15] = flag;
                Ok(true)
            },
            16 => {
                cpu.V[15] = cpu.V[x] & 1;
                cpu.V[x] = cpu.V[x] >> 1;
                Ok(true)
            },
            17 => {
                let vx = cpu.V[x];
                let vy = cpu.V[y];
                let flag: u8 = if vy >= vx {
                    1
                } else {
                    0
                };
                let diff: u8 = if vy >= vx {
                    vy - vx
                } else {
                    (256 + vy as u16 - vx as u16) as u8
                };
                cpu.V[x] = diff;
                cpu.V[15] = flag;
                Ok(true)
            },
            18 => {
                cpu.V[15] = (cpu.V[x] >> 7) & 1;
                let dbl = (cpu.V[x] as u16 * 2) % 256;
                cpu.V[x] = dbl as u8;
                Ok(true)
            },
            19 => {
                if cpu.V[x] != cpu.V[y] {
                    cpu.pc = ((cpu.pc as u32 + 2) % 0x10000) as u16;
                }
                Ok(true)
            },
            20 => {
                cpu.I = self.nnn;
                Ok(true)
            },
            26 => {
                cpu.V[x] = cpu.game_count;
                Ok(true)
            },
            _ => {
                Ok(true)
            },
        }
    }
}

/// Determinism of the compiled path against the interpreter: for every
/// supported action and frozen operands, running the block of an opcode
/// and interpreting that opcode from the same starting state produce the
/// same processor state, the same advance decision and the same fault, and
/// the block leaves the display untouched. The random action is not
/// compiled, so the random byte plays no part.
pub proof fn lemma_block_matches_interpreter(m: MachineV, op: u16, rnd: u8)
    requires
        spec_jit_supported(spec_action(op)),
    ensures
        ({
            let ar = spec_exec_action(m, op, rnd);
            let br = block_effect(spec_block_of(op), m.cpu);
            &&& br.cpu == ar.m.cpu
            &&& ar.m.scr == m.scr
            &&& br.advance == ar.advance
            &&& br.fault == ar.fault
        }),
{
    lemma_op_fields(op);
}

} // verus!
