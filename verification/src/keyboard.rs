use vstd::prelude::*;

use crate::fill::filled;

verus! {

/// How many logical keys the machine has.
pub const KEY_COUNT: usize = 16;

/// The lowest-indexed pressed key at or above index `i`, if any.
pub open spec fn lowest_pressed_from(keys: Seq<bool>, i: int) -> Option<u8>
    decreases 16 - i,
{
    if i < 0 || i >= 16 {
        None
    } else if keys[i] {
        Some(i as u8)
    } else {
        lowest_pressed_from(keys, i + 1)
    }
}

/// The lowest-indexed pressed key, if any: what the key-wait instruction
/// observes.
pub open spec fn lowest_pressed(keys: Seq<bool>) -> Option<u8> {
    lowest_pressed_from(keys, 0)
}

/// The 16-key latch. The host input layer writes key states into it;
/// the execution engine only reads them. Codes outside 0x0..=0xF are
/// ignored on write and read as released.
pub struct Keyboard(Vec<bool>);

impl View for Keyboard {
    type V = Seq<bool>;

    closed spec fn view(&self) -> Seq<bool> {
        self.0@
    }
}

impl Keyboard {
    pub open spec fn wf(&self) -> bool {
        self@.len() == 16
    }

    pub fn new() -> (r: Self)
        ensures
            r.wf(),
            r@ == Seq::new(16, |i: int| false),
    {
        Keyboard(filled(false, KEY_COUNT))
    }

    pub fn is_pressed(&mut self, key: u8) -> (r: bool)
        requires
            old(self).wf(),
        ensures
            final(self)@ == old(self)@,
            r == if key < 16 {
                old(self)@[key as int]
            } else {
                false
            },
    {
        if key as usize >= KEY_COUNT {
            return false;
        }
        self.0[key as usize]
    }

    /// The lowest-indexed currently pressed key, or `None` when no key
    /// is held.
    pub fn get_pressed_key(&mut self) -> (r: Option<u8>)
        requires
            old(self).wf(),
        ensures
            final(self)@ == old(self)@,
            r == lowest_pressed(old(self)@),
    {
        let mut idx: usize = 0;
        while idx < KEY_COUNT
            invariant
                self.wf(),
                self@ == old(self)@,
                0 <= idx <= 16,
                lowest_pressed(self@) == lowest_pressed_from(self@, idx as int),
            decreases KEY_COUNT - idx,
        {
            if self.0[idx] {
                return Some(idx as u8);
            }
            idx = idx + 1;
        }
        None
    }

    /// Record a key state change from the host; codes outside the key
    /// range are silently ignored.
    pub fn set_key(&mut self, key: u8, is_pressed: bool)
        requires
            old(self).wf(),
        ensures
            final(self).wf(),
            final(self)@ == if key < 16 {
                old(self)@.update(key as int, is_pressed)
            } else {
                old(self)@
            },
    {
        if (key as usize) < KEY_COUNT {
            self.0.set(key as usize, is_pressed);
        }
    }
}

} // verus!
