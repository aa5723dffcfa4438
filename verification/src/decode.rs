//! The decode table: 35 fixed `(mask, pattern)` pairs, scanned in order.
//! An opcode's action index is the lowest index whose entry matches; table
//! order makes specific forms win over catch-alls.

use vstd::prelude::*;

use crate::model::{canonical_ids, canonical_masks, entry_matches, lemma_action_from_char,
    spec_action, NBR_OPCODE};

verus! {

/// The decode table. `mask[i] & opcode == id[i]` means entry `i` matches.
pub struct Jump {
    pub mask: Vec<u16>,
    pub id: Vec<u16>,
}

impl Jump {
    /// The table holds exactly the canonical 35 entries, in precedence
    /// order.
    pub open spec fn wf(self) -> bool {
        self.mask@ == canonical_masks() && self.id@ == canonical_ids()
    }

    /// Builds the canonical decode table.
    pub fn new() -> (j: Jump)
        ensures
            j.wf(),
    {
        let mask: Vec<u16> = vec![
            0x0000, 0xFFFF, 0xFFFF, 0xF000, 0xF000, 0xF000, 0xF000, 0xF00F,
            0xF000, 0xF000, 0xF00F, 0xF00F, 0xF00F, 0xF00F, 0xF00F, 0xF00F,
            0xF00F, 0xF00F, 0xF00F, 0xF00F, 0xF000, 0xF000, 0xF000, 0xF000,
            0xF0FF, 0xF0FF, 0xF0FF, 0xF0FF, 0xF0FF, 0xF0FF, 0xF0FF, 0xF0FF,
            0xF0FF, 0xF0FF, 0xF0FF,
        ];
        let id: Vec<u16> = vec![
            0x0FFF, 0x00E0, 0x00EE, 0x1000, 0x2000, 0x3000, 0x4000, 0x5000,
            0x6000, 0x7000, 0x8000, 0x8001, 0x8002, 0x8003, 0x8004, 0x8005,
            0x8006, 0x8007, 0x800E, 0x9000, 0xA000, 0xB000, 0xC000, 0xD000,
            0xE09E, 0xE0A1, 0xF007, 0xF00A, 0xF015, 0xF018, 0xF01E, 0xF029,
            0xF033, 0xF055, 0xF065,
        ];
        proof {
            assert(mask@ =~= canonical_masks());
            assert(id@ =~= canonical_ids());
        }
        Jump { mask, id }
    }

    /// Decodes an opcode by first-match linear scan: the result is the
    /// lowest index whose entry matches, or 35 if no entry does. On the
    /// canonical table this is exactly `spec_action`.
    pub fn get_action(&self, opcode: u16) -> (action: u8)
        requires
            self.mask@.len() == NBR_OPCODE,
            self.id@.len() == NBR_OPCODE,
        ensures
            action <= 35,
            action < 35 ==> (self.mask@[action as int] & opcode) == self.id@[action as int],
            forall|j: int|
                0 <= j < action ==> (self.mask@[j] & opcode) != self.id@[j],
            self.wf() ==> action == spec_action(opcode),
    {
        let mut action: u8 = 0;
        while action < 35
            invariant
                action <= 35,
                self.mask@.len() == NBR_OPCODE,
                self.id@.len() == NBR_OPCODE,
                forall|j: int| 0 <= j < action ==> (self.mask@[j] & opcode) != self.id@[j],
            decreases 35 - action,
        {
            let result = self.mask[action as usize] & opcode;
            if result == self.id[action as usize] {
                proof {
                    if self.wf() {
                        lemma_action_from_char(opcode, 0, action);
                    }
                }
                return action;
            }
            action += 1;
        }
        proof {
            if self.wf() {
                assert(forall|j: int| 0 <= j < 35 ==>
                    !entry_matches(canonical_masks(), canonical_ids(), opcode, j));
                lemma_action_from_char(opcode, 0, 35);
            }
        }
        action
    }
}

} // verus!
