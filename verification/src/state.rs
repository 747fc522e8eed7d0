//! The live keyboard snapshot a host supplies once per input tick.

use crate::key::Key;
use vstd::prelude::*;

verus! {

broadcast use vstd::seq_lib::lemma_seq_contains_after_push;

/// Which keys are currently down and which transitioned down on this tick.
///
/// The shortcut engine only reads a snapshot; the host records presses and
/// releases as its input events arrive and calls [`KeyboardState::clear`]
/// once per tick so that "just pressed" marks last a single tick.
#[derive(Debug)]
pub struct KeyboardState {
    pressed: Vec<Key>,
    just_pressed: Vec<Key>,
}

/// Whether the vector has an occurrence of `key`.
fn vec_contains(v: &Vec<Key>, key: Key) -> (r: bool)
    ensures
        r == v@.contains(key),
{
    let mut i: usize = 0;
    while i < v.len()
        invariant
            i <= v@.len(),
            forall|j: int| 0 <= j < i ==> v@[j] != key,
        decreases v@.len() - i,
    {
        if v[i] == key {
            return true;
        }
        i += 1;
    }
    false
}

/// The vector with every occurrence of `key` removed.
fn vec_without(v: &Vec<Key>, key: Key) -> (r: Vec<Key>)
    ensures
        forall|k: Key| r@.contains(k) == (v@.contains(k) && k != key),
{
    let mut kept: Vec<Key> = Vec::new();
    let mut i: usize = 0;
    while i < v.len()
        invariant
            i <= v@.len(),
            forall|k: Key| kept@.contains(k) == (v@.take(i as int).contains(k) && k != key),
        decreases v@.len() - i,
    {
        proof {
            assert(v@.take(i + 1 as int) =~= v@.take(i as int).push(v@[i as int]));
        }
        if v[i] != key {
            kept.push(v[i]);
        }
        i += 1;
    }
    proof {
        assert(v@.take(v@.len() as int) =~= v@);
    }
    kept
}

impl KeyboardState {
    /// Whether `key` is currently down.
    pub closed spec fn is_down(self, key: Key) -> bool {
        self.pressed@.contains(key)
    }

    /// Whether `key` transitioned from up to down on this tick.
    pub closed spec fn is_just_down(self, key: Key) -> bool {
        self.just_pressed@.contains(key)
    }

    /// A snapshot with no key down.
    pub fn new() -> (s: Self)
        ensures
            forall|k: Key| !s.is_down(k),
            forall|k: Key| !s.is_just_down(k),
    {
        KeyboardState { pressed: Vec::new(), just_pressed: Vec::new() }
    }

    /// Returns whether `key` is currently down.
    pub fn pressed(&self, key: Key) -> (r: bool)
        ensures
            r == self.is_down(key),
    {
        vec_contains(&self.pressed, key)
    }

    /// Returns whether `key` transitioned down on this tick.
    pub fn just_pressed(&self, key: Key) -> (r: bool)
        ensures
            r == self.is_just_down(key),
    {
        vec_contains(&self.just_pressed, key)
    }

    /// Records a press of `key`. A key that was already down is left as it
    /// is, so holding a key does not mark it "just pressed" again.
    pub fn press(&mut self, key: Key)
        ensures
            forall|k: Key| final(self).is_down(k) == (old(self).is_down(k) || k == key),
            forall|k: Key|
                final(self).is_just_down(k) == (old(self).is_just_down(k) || (k == key && !old(
                    self,
                ).is_down(key))),
    {
        if !vec_contains(&self.pressed, key) {
            self.pressed.push(key);
            self.just_pressed.push(key);
        }
    }

    /// Records a release of `key`: it is no longer down. Any "just pressed"
    /// mark survives until [`KeyboardState::clear`], as the transition did
    /// happen on this tick.
    pub fn release(&mut self, key: Key)
        ensures
            forall|k: Key| final(self).is_down(k) == (old(self).is_down(k) && k != key),
            forall|k: Key| final(self).is_just_down(k) == old(self).is_just_down(k),
    {
        self.pressed = vec_without(&self.pressed, key);
    }

    /// Drops the "just pressed" mark of `key` alone.
    pub fn clear_just_pressed(&mut self, key: Key)
        ensures
            forall|k: Key| final(self).is_down(k) == old(self).is_down(k),
            forall|k: Key| final(self).is_just_down(k) == (old(self).is_just_down(k) && k != key),
    {
        self.just_pressed = vec_without(&self.just_pressed, key);
    }

    /// Ends the tick: every "just pressed" mark is dropped, keys stay down.
    pub fn clear(&mut self)
        ensures
            forall|k: Key| final(self).is_down(k) == old(self).is_down(k),
            forall|k: Key| !final(self).is_just_down(k),
    {
        self.just_pressed = Vec::new();
    }
}

} // verus!
