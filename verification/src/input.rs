//! The record of what the user is doing: which keys are held down and how
//! far the pointer last moved.
//!
//! The pointer's motion is a pair of IEEE-754 single-precision numbers, held
//! here as their 32-bit patterns: the record stores and hands them on, and
//! never computes with them.

use std::collections::HashMap;
use vstd::prelude::*;

verus! {

broadcast use vstd::std_specs::hash::group_hash_axioms;

/// A physical key. The six keys that move the camera have names; every other
/// key is told apart by the code its source gives it.
#[derive(Clone, Copy, Debug, PartialEq, Eq, Structural)]
pub enum Key {
    W,
    A,
    S,
    D,
    Space,
    ShiftLeft,
    Other(u32),
}

/// What the window should do with the pointer after it has moved.
#[derive(Clone, Copy, Debug, PartialEq, Eq, Structural)]
pub enum CursorAction {
    /// The window has no focus: show the pointer and leave it alone.
    Show,
    /// The window has focus: hide the pointer and put it back at the centre.
    HideAndRecentre,
}

/// Bit pattern of a motion of zero.
pub const NO_MOTION: u32 = 0;

/// Number of named keys; the codes of the others start here.
pub const NAMED_KEYS: u64 = 6;

impl Key {
    /// The number under which the key is stored. No two keys share one.
    pub open spec fn spec_code(self) -> u64 {
        match self {
            Key::W => 0,
            Key::A => 1,
            Key::S => 2,
            Key::D => 3,
            Key::Space => 4,
            Key::ShiftLeft => 5,
            Key::Other(n) => (NAMED_KEYS + n) as u64,
        }
    }

    /// The number under which the key is stored.
    pub fn code(self) -> (code: u64)
        ensures
            code == self.spec_code(),
    {
        match self {
            Key::W => 0,
            Key::A => 1,
            Key::S => 2,
            Key::D => 3,
            Key::Space => 4,
            Key::ShiftLeft => 5,
            Key::Other(n) => NAMED_KEYS + n as u64,
        }
    }
}

/// Whether `key` counts as held in `keys`: a key never heard of is not held.
pub open spec fn spec_held(keys: Map<Key, bool>, key: Key) -> bool {
    keys.contains_key(key) && keys[key]
}

/// What an `InputState` stands for: the last state heard of each key, and
/// the pointer's motion that has not been consumed yet.
pub ghost struct InputModel {
    pub keys: Map<Key, bool>,
    pub mouse_delta: (u32, u32),
}

/// The keys that are held and the pointer's last motion.
pub struct InputState {
    keys: HashMap<u64, bool>,
    mouse_delta: (u32, u32),
}

impl View for InputState {
    type V = InputModel;

    closed spec fn view(&self) -> InputModel {
        InputModel {
            keys: Map::new(
                |key: Key| self.keys@.contains_key(key.spec_code()),
                |key: Key| self.keys@[key.spec_code()],
            ),
            mouse_delta: self.mouse_delta,
        }
    }
}

impl InputState {
    /// A record in which no key has been heard of and the pointer has not
    /// moved.
    pub fn new() -> (input: InputState)
        ensures
            input@.keys == Map::<Key, bool>::empty(),
            input@.mouse_delta == (NO_MOTION, NO_MOTION),
    {
        let input = InputState { keys: HashMap::new(), mouse_delta: (NO_MOTION, NO_MOTION) };
        assert(input@.keys =~= Map::<Key, bool>::empty());
        input
    }

    /// Records that `key` went down (`pressed`) or came up. Any key may be
    /// recorded, also one that moves nothing.
    pub fn set_pressed(&mut self, key: Key, pressed: bool)
        ensures
            final(self)@.keys == old(self)@.keys.insert(key, pressed),
            final(self)@.mouse_delta == old(self)@.mouse_delta,
    {
        self.keys.insert(key.code(), pressed);
        proof {
            lemma_code_injective();
            assert(final(self)@.keys =~= old(self)@.keys.insert(key, pressed));
        }
    }

    /// Whether `key` is held. A key that was never recorded is not.
    pub fn is_pressed(&self, key: Key) -> (pressed: bool)
        ensures
            pressed == spec_held(self@.keys, key),
    {
        let code: u64 = key.code();
        match self.keys.get(&code) {
            Some(pressed) => *pressed,
            None => false,
        }
    }

    /// Replaces the pointer's motion by the newest one.
    pub fn set_mouse_delta(&mut self, dx: u32, dy: u32)
        ensures
            final(self)@.mouse_delta == (dx, dy),
            final(self)@.keys == old(self)@.keys,
    {
        self.mouse_delta = (dx, dy);
    }

    /// Hands out the pointer's motion and resets it to zero, so that no
    /// motion is applied twice.
    pub fn take_mouse_delta(&mut self) -> (delta: (u32, u32))
        ensures
            delta == old(self)@.mouse_delta,
            final(self)@.mouse_delta == (NO_MOTION, NO_MOTION),
            final(self)@.keys == old(self)@.keys,
    {
        let delta = self.mouse_delta;
        self.mouse_delta = (NO_MOTION, NO_MOTION);
        delta
    }

    /// Takes note of a pointer motion `(dx, dy)` away from the window's
    /// centre. The motion counts only while the window has focus: then it
    /// replaces the stored one and the pointer is to be hidden and
    /// recentred. Without focus nothing is stored and the pointer is shown.
    pub fn cursor_moved(&mut self, focused: bool, dx: u32, dy: u32) -> (action: CursorAction)
        ensures
            final(self)@.keys == old(self)@.keys,
            focused ==> action == CursorAction::HideAndRecentre && final(self)@.mouse_delta == (
                dx,
                dy,
            ),
            !focused ==> action == CursorAction::Show && final(self)@.mouse_delta == old(
                self,
            )@.mouse_delta,
    {
        if focused {
            self.set_mouse_delta(dx, dy);
            CursorAction::HideAndRecentre
        } else {
            CursorAction::Show
        }
    }
}

/// Different keys are stored under different numbers.
pub proof fn lemma_code_injective()
    ensures
        forall|a: Key, b: Key| #[trigger] a.spec_code() == #[trigger] b.spec_code() ==> a == b,
{
}

/// A key that was never recorded is not held, and a key that was pressed and
/// then released is not held either, whatever else was recorded before.
pub proof fn lemma_released_key_is_not_held(keys: Map<Key, bool>, key: Key)
    ensures
        !spec_held(Map::<Key, bool>::empty(), key),
        !spec_held(keys.insert(key, true).insert(key, false), key),
        spec_held(keys.insert(key, true), key),
{
}

/// Recording one key leaves every other key as it was.
pub proof fn lemma_other_keys_untouched(keys: Map<Key, bool>, key: Key, pressed: bool, other: Key)
    requires
        other != key,
    ensures
        spec_held(keys.insert(key, pressed), other) == spec_held(keys, other),
{
}

} // verus!
