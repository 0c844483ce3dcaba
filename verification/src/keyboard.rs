//! The 16-key input pad. The host writes pressed/released states per key
//! index between execution steps; the execution engine only ever reads them.

use vstd::prelude::*;

verus! {

/// Whether `key` counts as pressed on a pad whose flags are `keys`.
/// Key values outside the pad (16 or more) are never pressed.
pub open spec fn key_pressed(keys: Seq<bool>, key: u8) -> bool {
    key < 16 && keys[key as int]
}

/// The lowest pressed key at or above index `k`, if any key at all is
/// pressed there.
pub open spec fn first_pressed_from(keys: Seq<bool>, k: int) -> Option<u8>
    decreases 16 - k,
{
    if k < 0 || k >= 16 {
        None
    } else if keys[k] {
        Some(k as u8)
    } else {
        first_pressed_from(keys, k + 1)
    }
}

/// What the lowest-pressed-key search means: it comes back empty exactly
/// when no key from `k` up is pressed, and otherwise names a pressed key
/// below which every key from `k` up is released.
pub proof fn lemma_first_pressed_from(keys: Seq<bool>, k: int)
    requires
        0 <= k <= 16,
    ensures
        first_pressed_from(keys, k) is None <==> (forall|j: int| k <= j < 16 ==> !keys[j]),
        first_pressed_from(keys, k) matches Some(f) ==> k <= f < 16 && keys[f as int] && (forall|
            j: int,
        |
            k <= j < f ==> !keys[j]),
    decreases 16 - k,
{
    if k < 16 {
        lemma_first_pressed_from(keys, k + 1);
    }
}

/// Structure to abstract away the keyboard
pub struct Keyboard {
    /// says whether or not the given key is pressed
    pub keys: Vec<bool>,
}

impl Keyboard {
    /// A keyboard is well formed when it holds one flag per pad key.
    pub open spec fn wf(self) -> bool {
        self.keys@.len() == 16
    }

    /// Construct a new keyboard with every key released.
    pub fn new() -> (kb: Keyboard)
        ensures
            kb.wf(),
            kb.keys@ == Seq::new(16, |i: int| false),
    {
        Keyboard { keys: crate::filled_vec(16, false) }
    }

    /// Says whether or not the given key is pressed.
    pub fn is_pressed(&self, key: u8) -> (r: bool)
        requires
            self.wf(),
        ensures
            r == key_pressed(self.keys@, key),
    {
        key < 16 && self.keys[key as usize]
    }

    /// Finds the lowest pressed key, if any key is pressed at all.
    pub fn first_pressed(&self) -> (r: Option<u8>)
        requires
            self.wf(),
        ensures
            r == first_pressed_from(self.keys@, 0),
            r matches Some(k) ==> k < 16,
    {
        let mut k: u8 = 0;
        let mut found: Option<u8> = None;
        while k < 16
            invariant_except_break
                self.wf(),
                k <= 16,
                found is None,
                first_pressed_from(self.keys@, 0) == first_pressed_from(self.keys@, k as int),
            ensures
                found == first_pressed_from(self.keys@, 0),
                found matches Some(f) ==> f < 16,
            decreases 16 - k,
        {
            if self.keys[k as usize] {
                found = Some(k);
                break ;
            }
            k = k + 1;
        }
        found
    }

    /// Presses or releases the given key. Key values outside the pad are
    /// ignored.
    pub fn update_key(&mut self, key: u8, state: bool)
        requires
            old(self).wf(),
        ensures
            final(self).wf(),
            key < 16 ==> final(self).keys@ == old(self).keys@.update(key as int, state),
            key >= 16 ==> final(self).keys@ == old(self).keys@,
    {
        if key < 16 {
            self.keys[key as usize] = state;
        }
    }
}

} // verus!
