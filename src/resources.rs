//! World-wide data shared by the systems.

use vstd::prelude::*;
use crate::components::Direction;

verus! {

/// A directional button of the keyboard or the gamepad.
#[derive(Debug, Clone, Copy, PartialEq, Eq, Structural, Hash)]
pub enum Button {
    Up,
    Down,
    Left,
    Right,
}

/// The button that steers in a direction.
pub open spec fn button_for(d: Direction) -> Button {
    match d {
        Direction::Up => Button::Up,
        Direction::Down => Button::Down,
        Direction::Left => Button::Left,
        Direction::Right => Button::Right,
    }
}

/// The buttons held down during the current frame.
#[derive(Debug, Clone)]
pub struct Inputs {
    keys_pressed: Vec<Button>,
}

impl View for Inputs {
    type V = Set<Button>;

    closed spec fn view(&self) -> Set<Button> {
        Set::new(|b: Button| self.keys_pressed@.contains(b))
    }
}

impl Inputs {
    /// No button held.
    pub fn new() -> (r: Inputs)
        ensures
            r@ == Set::<Button>::empty(),
    {
        let r = Inputs { keys_pressed: Vec::new() };
        assert(r@ =~= Set::<Button>::empty());
        r
    }

    /// Whether `button` is held.
    pub fn is_pressed(&self, button: Button) -> (r: bool)
        ensures
            r == self@.contains(button),
    {
        let mut i: usize = 0;
        while i < self.keys_pressed.len()
            invariant
                i <= self.keys_pressed.len(),
                forall|k: int| 0 <= k < i ==> self.keys_pressed@[k] != button,
            decreases self.keys_pressed.len() - i,
        {
            if self.keys_pressed[i] == button {
                return true;
            }
            i = i + 1;
        }
        false
    }

    /// Records that `button` is held.
    pub fn press(&mut self, button: Button)
        ensures
            final(self)@ == old(self)@.insert(button),
    {
        if !self.is_pressed(button) {
            self.keys_pressed.push(button);
        }
        proof {
            broadcast use vstd::seq_lib::lemma_seq_contains_after_push;

            assert(self@ =~= old(self)@.insert(button));
        }
    }

    /// Records that `button` is no longer held.
    pub fn release(&mut self, button: Button)
        ensures
            final(self)@ == old(self)@.remove(button),
    {
        let mut kept: Vec<Button> = Vec::new();
        let mut i: usize = 0;
        while i < self.keys_pressed.len()
            invariant
                i <= self.keys_pressed.len(),
                forall|b: Button| kept@.contains(b) <==> (b != button
                    && self.keys_pressed@.subrange(0, i as int).contains(b)),
            decreases self.keys_pressed.len() - i,
        {
            let b = self.keys_pressed[i];
            proof {
                broadcast use vstd::seq_lib::lemma_seq_contains_after_push;

                assert(self.keys_pressed@.subrange(0, i + 1) =~= self.keys_pressed@.subrange(
                    0,
                    i as int,
                ).push(b));
            }
            if b != button {
                kept.push(b);
            }
            proof {
                broadcast use vstd::seq_lib::lemma_seq_contains_after_push;

            }
            i = i + 1;
        }
        proof {
            assert(self.keys_pressed@.subrange(0, i as int) =~= self.keys_pressed@);
        }
        self.keys_pressed = kept;
        assert(self@ =~= old(self)@.remove(button));
    }
}

impl Default for Inputs {
    fn default() -> (r: Inputs)
        ensures
            r@ == Set::<Button>::empty(),
    {
        Inputs::new()
    }
}

} // verus!
