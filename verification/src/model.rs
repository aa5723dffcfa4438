//! Mathematical model of the virtual machine: the state as sequences and
//! plain integers, the opcode field extractors, and the canonical decode
//! table that maps a 16-bit opcode to an action index by first match.

use vstd::prelude::*;

verus! {

/// Size of the address space in bytes.
pub const MEM_SIZE: usize = 4096;

/// Address at which program bytes are loaded and where execution starts.
pub const START_ADRR: u16 = 512;

/// Number of entries in the decode table (one per action).
pub const NBR_OPCODE: usize = 35;

/// Default number of instruction cycles per external tick.
pub const CPU_SPEED: usize = 10;

/// A fatal condition raised by the execution engine. It is surfaced to the
/// caller, which decides whether to terminate; the engine itself never
/// panics.
#[derive(Clone, Copy, Debug, PartialEq, Eq, Structural)]
pub enum Fault {
    /// A subroutine call was made with sixteen return addresses already
    /// pending.
    StackOverflow,
    /// A return was executed with no pending call.
    StackUnderflow,
    /// A memory-indexed operation would touch an address outside the
    /// 4096-byte address space.
    MemoryOutOfBounds,
    /// A program image does not fit between the load address and the end of
    /// memory.
    RomTooBig,
}

/// The processor state, as mathematical values.
pub ghost struct CpuV {
    /// The 4096 bytes of memory.
    pub mem: Seq<u8>,
    /// The sixteen general registers `V0..VF`.
    pub v: Seq<u8>,
    /// The index register.
    pub i: u16,
    /// The sixteen return-address slots.
    pub stack: Seq<u16>,
    /// The stack pointer, in `[0, 16]`.
    pub sp: u8,
    /// The program counter.
    pub pc: u16,
    /// The delay timer.
    pub game_count: u8,
    /// The sound timer.
    pub sound_count: u8,
}

/// The keypad state, as mathematical values.
pub ghost struct KeyboardV {
    /// Pressed/released state of the sixteen keys.
    pub keys: Seq<bool>,
    /// When `Some(r)`, execution is blocked until a key press is observed,
    /// whose code is then stored in register `r`.
    pub awaiting_key: Option<u8>,
}

/// One screen pixel: its color (0 or 1) and whether it changed since it was
/// last presented.
#[derive(Clone, Copy, Debug, PartialEq, Eq, Structural)]
pub struct Pixel {
    pub color: u8,
    pub dirty: bool,
}

/// The display and keypad state, as mathematical values. Pixels are stored
/// column by column: the pixel at `(x, y)` is at index `x * 32 + y`.
pub ghost struct ScreenV {
    pub pixels: Seq<Pixel>,
    pub keyboard: KeyboardV,
}

/// The whole machine: processor plus display collaborator.
pub ghost struct MachineV {
    pub cpu: CpuV,
    pub scr: ScreenV,
}

/// Effect of executing one action, before the trailing program-counter
/// advance: the new machine state, whether the program counter still has to
/// advance by 2, and the fault raised, if any. On a fault the state is the
/// starting state, unchanged.
pub ghost struct ActRes {
    pub m: MachineV,
    pub advance: bool,
    pub fault: Option<Fault>,
}

/// Effect of one whole cycle on a machine: the new state (with the
/// program-counter advance applied) and the fault raised, if any.
pub ghost struct StepRes {
    pub m: MachineV,
    pub fault: Option<Fault>,
}

/// The `X` field of an opcode: bits 8..12, a register index.
pub open spec fn op_x(op: u16) -> u8 {
    ((op >> 8) & 0xF) as u8
}

/// The `Y` field of an opcode: bits 4..8, a register index.
pub open spec fn op_y(op: u16) -> u8 {
    ((op >> 4) & 0xF) as u8
}

/// The low nibble of an opcode.
pub open spec fn op_n(op: u16) -> u8 {
    (op & 0xF) as u8
}

/// The low twelve bits of an opcode, an address.
pub open spec fn op_nnn(op: u16) -> u16 {
    op & 0xFFF
}

/// The low byte of an opcode, an immediate.
pub open spec fn op_kk(op: u16) -> u8 {
    (op & 0xFF) as u8
}

/// The opcode fields are nibbles and twelve-bit values: each register
/// index names a real register, and `nnn` is a twelve-bit address.
pub proof fn lemma_op_fields(op: u16)
    ensures
        op_x(op) < 16,
        op_y(op) < 16,
        op_n(op) < 16,
        op_nnn(op) <= 0xFFF,
        op_kk(op) <= 0xFF,
{
    assert(((op >> 8) & 0xF) < 16) by (bit_vector);
    assert(((op >> 4) & 0xF) < 16) by (bit_vector);
    assert((op & 0xF) < 16) by (bit_vector);
    assert((op & 0xFFF) <= 0xFFF) by (bit_vector);
    assert((op & 0xFF) <= 0xFF) by (bit_vector);
}

/// The masks of the canonical decode table, in precedence order. The two
/// 16-bit exact matches (screen clear, subroutine return) come ahead of the
/// broad legacy-call entry's overlap range, and every catch-all mask stands
/// after the specific forms it overlaps.
pub open spec fn canonical_masks() -> Seq<u16> {
    seq![
        0x0000u16, 0xFFFFu16, 0xFFFFu16, 0xF000u16, 0xF000u16, 0xF000u16, 0xF000u16, 0xF00Fu16,
        0xF000u16, 0xF000u16, 0xF00Fu16, 0xF00Fu16, 0xF00Fu16, 0xF00Fu16, 0xF00Fu16, 0xF00Fu16,
        0xF00Fu16, 0xF00Fu16, 0xF00Fu16, 0xF00Fu16, 0xF000u16, 0xF000u16, 0xF000u16, 0xF000u16,
        0xF0FFu16, 0xF0FFu16, 0xF0FFu16, 0xF0FFu16, 0xF0FFu16, 0xF0FFu16, 0xF0FFu16, 0xF0FFu16,
        0xF0FFu16, 0xF0FFu16, 0xF0FFu16,
    ]
}

/// The patterns of the canonical decode table, in the same order as
/// `canonical_masks`.
pub open spec fn canonical_ids() -> Seq<u16> {
    seq![
        0x0FFFu16, 0x00E0u16, 0x00EEu16, 0x1000u16, 0x2000u16, 0x3000u16, 0x4000u16, 0x5000u16,
        0x6000u16, 0x7000u16, 0x8000u16, 0x8001u16, 0x8002u16, 0x8003u16, 0x8004u16, 0x8005u16,
        0x8006u16, 0x8007u16, 0x800Eu16, 0x9000u16, 0xA000u16, 0xB000u16, 0xC000u16, 0xD000u16,
        0xE09Eu16, 0xE0A1u16, 0xF007u16, 0xF00Au16, 0xF015u16, 0xF018u16, 0xF01Eu16, 0xF029u16,
        0xF033u16, 0xF055u16, 0xF065u16,
    ]
}

/// Whether table entry `i` matches opcode `op` under masks `ms` and
/// patterns `ids`.
pub open spec fn entry_matches(ms: Seq<u16>, ids: Seq<u16>, op: u16, i: int) -> bool {
    (ms[i] & op) == ids[i]
}

/// The lowest index at or after `i` whose canonical table entry matches
/// `op`, or 35 if none does.
pub open spec fn action_from(op: u16, i: int) -> u8
    decreases 35 - i,
{
    if i < 0 || i >= 35 {
        35u8
    } else if entry_matches(canonical_masks(), canonical_ids(), op, i) {
        i as u8
    } else {
        action_from(op, i + 1)
    }
}

/// The action index an opcode decodes to under the canonical table: the
/// lowest-indexed matching entry, or the no-op sentinel 35.
pub open spec fn spec_action(op: u16) -> u8 {
    action_from(op, 0)
}

/// A result characterized as a first match is the value of `action_from`:
/// if nothing matches in `[i, r)` and either `r` is 35 or entry `r`
/// matches, then scanning from `i` yields `r`.
pub proof fn lemma_action_from_char(op: u16, i: int, r: u8)
    requires
        0 <= i <= r <= 35,
        forall|j: int| i <= j < r ==> !entry_matches(canonical_masks(), canonical_ids(), op, j),
        r < 35 ==> entry_matches(canonical_masks(), canonical_ids(), op, r as int),
    ensures
        action_from(op, i) == r,
    decreases 35 - i,
{
    if i < 35 {
        if i == r {
        } else {
            assert(!entry_matches(canonical_masks(), canonical_ids(), op, i));
            lemma_action_from_char(op, i + 1, r);
        }
    }
}

} // verus!

