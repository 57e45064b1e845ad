//! Turns what the keyboard and the gamepad report into the held buttons.

use vstd::prelude::*;
use crate::resources::Button;
use crate::world::World;

verus! {

/// Which directional buttons are held this frame, on the keyboard (W, S, A,
/// D) or on the gamepad's directional pad.
pub struct InputSystem {
    pub up: bool,
    pub down: bool,
    pub left: bool,
    pub right: bool,
}

impl InputSystem {
    /// The buttons this frame holds.
    pub open spec fn held(&self) -> Set<Button> {
        Set::new(
            |b: Button|
                match b {
                    Button::Up => self.up,
                    Button::Down => self.down,
                    Button::Left => self.left,
                    Button::Right => self.right,
                },
        )
    }

    /// Records in the world exactly the buttons held this frame.
    pub fn run(&mut self, world: &mut World)
        ensures
            final(world).inputs@ == old(self).held(),
            final(world).entities == old(world).entities,
            final(world).sprites == old(world).sprites,
    {
        if self.up {
            world.inputs.press(Button::Up);
        } else {
            world.inputs.release(Button::Up);
        }
        if self.down {
            world.inputs.press(Button::Down);
        } else {
            world.inputs.release(Button::Down);
        }
        if self.left {
            world.inputs.press(Button::Left);
        } else {
            world.inputs.release(Button::Left);
        }
        if self.right {
            world.inputs.press(Button::Right);
        } else {
            world.inputs.release(Button::Right);
        }
        assert(world.inputs@ =~= self.held());
    }
}

} // verus!
