//! Component data attached to the entities of a level.

use vstd::prelude::*;

verus! {

/// Number of offset steps that make up one tile; a freshly moved entity is
/// drawn one whole tile (this many steps) behind its grid cell.
pub const STEPS_PER_TILE: i32 = 10;

/// The four grid directions. `Up` increases `y`, `Right` increases `x`.
#[derive(Debug, Clone, Copy, PartialEq, Eq, Structural)]
pub enum Direction {
    Up,
    Down,
    Left,
    Right,
}

impl Direction {
    /// Horizontal component of one step in this direction.
    pub open spec fn dx(self) -> int {
        match self {
            Direction::Left => -1,
            Direction::Right => 1,
            _ => 0,
        }
    }

    /// Vertical component of one step in this direction.
    pub open spec fn dy(self) -> int {
        match self {
            Direction::Up => 1,
            Direction::Down => -1,
            _ => 0,
        }
    }

    /// Horizontal component of one step, as an executable value.
    pub fn x_step(self) -> (r: i64)
        ensures
            r == self.dx(),
    {
        match self {
            Direction::Left => -1,
            Direction::Right => 1,
            _ => 0,
        }
    }

    /// Vertical component of one step, as an executable value.
    pub fn y_step(self) -> (r: i64)
        ensures
            r == self.dy(),
    {
        match self {
            Direction::Up => 1,
            Direction::Down => -1,
            _ => 0,
        }
    }
}

/// Where an entity stands: its grid cell, its drawing layer, the sub-tile
/// offset at which it is currently drawn, and the way it faces.
#[derive(Debug, Clone, Copy, PartialEq, Eq, Structural)]
pub struct Position {
    pub x: i32,
    pub y: i32,
    /// Drawing layer; a larger value lies further back.
    pub z: u32,
    /// Horizontal drawing offset from the grid cell, in steps of
    /// `1 / STEPS_PER_TILE` of a tile.
    pub offset_x: i32,
    /// Vertical drawing offset from the grid cell, in the same steps.
    pub offset_y: i32,
    pub direction: Direction,
}

impl Position {
    /// A position at a grid cell, drawn exactly on it.
    pub fn at(x: i32, y: i32, z: u32, direction: Direction) -> (r: Position)
        ensures
            r == Position::at_spec(x, y, z, direction),
    {
        Position { x, y, z, offset_x: 0, offset_y: 0, direction }
    }

    /// A position at a grid cell, drawn exactly on it.
    pub open spec fn at_spec(x: i32, y: i32, z: u32, direction: Direction) -> Position {
        Position { x, y, z, offset_x: 0, offset_y: 0, direction }
    }

    /// The entity is drawn on its grid cell and may take a new step.
    pub open spec fn at_rest(self) -> bool {
        self.offset_x == 0 && self.offset_y == 0
    }
}

/// The part of a sprite sheet that an entity is drawn with.
#[derive(Debug, Clone, Copy, PartialEq, Eq, Structural)]
pub struct Sprite {
    /// Index of the sheet in the world's sprite registry.
    pub texture: usize,
    pub part_x: u32,
    pub part_y: u32,
    pub part_w: u32,
    pub part_h: u32,
}

/// A looping animation: the frames of a sprite sheet shown in turn, each for
/// `duration` milliseconds.
#[derive(Debug, Clone)]
pub struct Animation {
    pub duration: u32,
    pub frames: Vec<usize>,
}

/// The named animations of an entity and the one being played.
#[derive(Debug, Clone)]
pub struct Animations {
    /// Frames per row of the sprite sheet.
    pub columns: u32,
    /// Rows of frames in the sprite sheet.
    pub rows: u32,
    /// Milliseconds the current animation has been playing.
    pub time: u64,
    pub animations: Vec<(String, Animation)>,
    pub current_animation: String,
}

/// The first index of the table whose animation is called `name`, if any.
pub open spec fn first_animation(t: Seq<(Seq<char>, u32, Seq<usize>)>, name: Seq<char>) -> Option<int> {
    if exists|i: int| 0 <= i < t.len() && t[i].0 == name {
        let i = choose|i: int|
            0 <= i < t.len() && t[i].0 == name && forall|j: int| 0 <= j < i ==> t[j].0 != name;
        Some(i)
    } else {
        None
    }
}

impl Animations {
    /// Name, frame duration and frames of each animation, in order.
    pub open spec fn table(&self) -> Seq<(Seq<char>, u32, Seq<usize>)> {
        self.animations@.map_values(|a: (String, Animation)| (a.0@, a.1.duration, a.1.frames@))
    }

    /// The index of the first animation called `name`.
    pub fn find(&self, name: &String) -> (r: Option<usize>)
        ensures
            r matches Some(i) ==> i < self.table().len() && first_animation(self.table(), name@)
                == Some(i as int),
            r is None ==> first_animation(self.table(), name@) is None,
    {
        let mut i: usize = 0;
        while i < self.animations.len()
            invariant
                i <= self.animations.len(),
                self.table().len() == self.animations@.len(),
                forall|j: int| 0 <= j < i ==> self.table()[j].0 != name@,
            decreases self.animations.len() - i,
        {
            if self.animations[i].0 == *name {
                let ghost t = self.table();
                assert(0 <= i < t.len() && t[i as int].0 == name@ && forall|j: int|
                    0 <= j < i ==> t[j].0 != name@);
                return Some(i);
            }
            i = i + 1;
        }
        None
    }
}

/// Marks the entity steered by the directional input.
#[derive(Debug, Clone, Copy, PartialEq, Eq, Structural)]
pub struct Player;

/// Marks an entity that can be pushed.
#[derive(Debug, Clone, Copy, PartialEq, Eq, Structural)]
pub struct Movable;

/// Marks an entity that permanently blocks its tile.
#[derive(Debug, Clone, Copy, PartialEq, Eq, Structural)]
pub struct Immovable;

/// One entity of the world and the components attached to it.
#[derive(Debug, Clone)]
pub struct Entity {
    pub position: Position,
    pub sprite: Option<Sprite>,
    pub animations: Option<Animations>,
    pub player: Option<Player>,
    pub movable: Option<Movable>,
    pub immovable: Option<Immovable>,
}

} // verus!
