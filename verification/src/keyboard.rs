//! The hexadecimal keypad: sixteen pressed/released flags and the
//! key-wait slot that blocks execution until a press is observed.

use vstd::prelude::*;

use crate::model::KeyboardV;

verus! {

/// The keypad state the core consumes. `awaiting_key` is the explicit
/// key-wait state: `Some(r)` means execution is suspended until a key press
/// is observed, whose code is then stored in register `r`.
pub struct Keyboard {
    pub keys: Vec<bool>,
    pub awaiting_key: Option<u8>,
}

impl View for Keyboard {
    type V = KeyboardV;

    open spec fn view(&self) -> KeyboardV {
        KeyboardV { keys: self.keys@, awaiting_key: self.awaiting_key }
    }
}

/// Whether key `key` is currently pressed; a code outside the keypad is
/// never pressed.
pub open spec fn spec_pressed(k: KeyboardV, key: u8) -> bool {
    key < 16 && k.keys[key as int]
}

impl Keyboard {
    /// There are exactly sixteen keys, and a pending key-wait names a real
    /// register.
    pub open spec fn wf(self) -> bool {
        &&& self.keys@.len() == 16
        &&& (self.awaiting_key matches Some(r) ==> r < 16)
    }

    /// A keypad with every key released and no key-wait pending.
    pub fn new() -> (k: Keyboard)
        ensures
            k.wf(),
            k@.keys == Seq::new(16, |i: int| false),
            k@.awaiting_key is None,
    {
        let mut keys: Vec<bool> = Vec::new();
        let mut i: usize = 0;
        while i < 16
            invariant
                i <= 16,
                keys@ =~= Seq::new(i as nat, |j: int| false),
            decreases 16 - i,
        {
            keys.push(false);
            i += 1;
            proof {
                assert(keys@ =~= Seq::new(i as nat, |j: int| false));
            }
        }
        Keyboard { keys, awaiting_key: None }
    }

    /// Records a key going down or up. A code outside the keypad is
    /// ignored.
    pub fn set_key(&mut self, key: u8, pressed: bool)
        requires
            old(self).wf(),
        ensures
            final(self).wf(),
            key < 16 ==> final(self)@.keys == old(self)@.keys.update(key as int, pressed),
            key >= 16 ==> final(self)@.keys == old(self)@.keys,
            final(self)@.awaiting_key == old(self)@.awaiting_key,
    {
        if key < 16 {
            self.keys[key as usize] = pressed;
        }
    }

    /// Whether the key with the given code is currently pressed.
    pub fn ispressed(&self, key: u8) -> (r: bool)
        requires
            self.wf(),
        ensures
            r == spec_pressed(self@, key),
    {
        if key < 16 {
            self.keys[key as usize]
        } else {
            false
        }
    }
}

} // verus!
