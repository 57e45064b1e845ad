//! The world: every entity of the level, the sprite registry and the inputs.

use vstd::prelude::*;
use crate::components::Animation;
use crate::components::Animations;
use crate::components::Direction;
use crate::components::Entity;
use crate::components::Immovable;
use crate::components::Movable;
use crate::components::Player;
use crate::components::Position;
use crate::components::Sprite;
use crate::error::Error;
use crate::resources::Button;
use crate::resources::Inputs;
use crate::sprites::first_named;
use crate::sprites::Sprites;

verus! {

/// Drawing layer of boxes and players.
pub const ENTITY_LAYER: u32 = 1;

/// Drawing layer of walls.
pub const WALL_LAYER: u32 = 2;

/// Drawing layer of floor tiles.
pub const FLOOR_LAYER: u32 = 3;

/// Side of a box's sprite, in pixels.
pub const BOX_SPRITE_SIZE: u32 = 16;

/// Frames per row, and rows, of the player's sprite sheet.
pub const PLAYER_SHEET_GRID: u32 = 6;

/// The animations of a player: name, milliseconds per frame, frames.
pub open spec fn player_animation_table() -> Seq<(Seq<char>, u32, Seq<usize>)> {
    seq![
        ("idle-down"@, 500u32, seq![0usize, 1]),
        ("idle-up"@, 500u32, seq![2usize, 3]),
        ("idle-right"@, 500u32, seq![4usize, 5]),
        ("idle-left"@, 500u32, seq![6usize, 7]),
        ("walk-down"@, 150u32, seq![8usize, 9, 10, 11]),
        ("walk-up"@, 150u32, seq![12usize, 13, 14, 15]),
        ("walk-right"@, 150u32, seq![16usize, 17, 18, 19]),
        ("walk-left"@, 150u32, seq![20usize, 21, 22, 23]),
        ("special"@, 500u32, seq![24usize, 25, 26, 27, 28, 29]),
    ]
}

/// The entities of a level with their components, the sprite sheets they are
/// drawn with, and the buttons held in the current frame.
#[derive(Debug, Clone)]
pub struct World {
    pub entities: Vec<Entity>,
    pub sprites: Sprites,
    pub inputs: Inputs,
}

/// A plain, non-animated entity standing on a grid cell.
pub open spec fn still_entity(
    x: i32,
    y: i32,
    z: u32,
    sprite: Sprite,
    movable: bool,
    immovable: bool,
) -> Entity {
    Entity {
        position: Position {
            x,
            y,
            z,
            offset_x: 0,
            offset_y: 0,
            direction: Direction::Right,
        },
        sprite: Some(sprite),
        animations: None,
        player: None,
        movable: if movable {
            Some(Movable)
        } else {
            None
        },
        immovable: if immovable {
            Some(Immovable)
        } else {
            None
        },
    }
}

/// `e` is a freshly spawned player on `(x, y)`, drawn with the sheet
/// `player.png` of `sheets`, facing down and playing its idle animation.
pub open spec fn is_new_player(e: Entity, x: i32, y: i32, sheets: Seq<(Seq<char>, u32, u32)>) -> bool {
    &&& e.position == Position::at_spec(x, y, ENTITY_LAYER, Direction::Down)
    &&& e.sprite == Some(
        Sprite {
            texture: first_named(sheets, "player.png"@)->Some_0 as usize,
            part_x: 0,
            part_y: 0,
            part_w: 0,
            part_h: 0,
        },
    )
    &&& e.player == Some(Player)
    &&& e.movable is None
    &&& e.immovable is None
    &&& e.animations matches Some(a) && a.columns == PLAYER_SHEET_GRID && a.rows
        == PLAYER_SHEET_GRID && a.time == 0 && a.current_animation@ == "idle-down"@ && a.table()
        == player_animation_table()
}

impl World {
    /// An empty world: no entity, no sprite sheet, no button held.
    pub fn new() -> (r: Result<World, Error>)
        ensures
            r matches Ok(w) && w.entities@.len() == 0 && w.sprites@.len() == 0 && w.inputs@
                == Set::<Button>::empty(),
    {
        Ok(World { entities: Vec::new(), sprites: Sprites::new(), inputs: Inputs::new() })
    }

    /// Registers a sprite sheet under its file name; returns its index.
    pub fn add_sprite(&mut self, name: String, width: u32, height: u32) -> (r: usize)
        requires
            old(self).sprites@.len() < usize::MAX,
        ensures
            first_named(old(self).sprites@, name@) matches Some(i) ==> r == i
                && final(self).sprites@ == old(self).sprites@.update(i, (name@, width, height)),
            first_named(old(self).sprites@, name@) is None ==> r == old(self).sprites@.len()
                && final(self).sprites@ == old(self).sprites@.push((name@, width, height)),
            final(self).entities == old(self).entities,
            final(self).inputs == old(self).inputs,
    {
        self.sprites.add(name, width, height)
    }

    /// The index of the registered sheet called `name`.
    pub fn get_sprite(&self, name: &str) -> (r: usize)
        requires
            self.sprites.has(name@),
        ensures
            first_named(self.sprites@, name@) == Some(r as int),
            r < self.sprites@.len(),
    {
        match self.sprites.get(name) {
            Some(i) => i,
            None => 0,
        }
    }

    /// Adds a wall: a tile that nothing can enter.
    pub fn spawn_wall(
        &mut self,
        sprite: &str,
        x: i32,
        y: i32,
        part_pos: (u32, u32),
        part_size: (u32, u32),
    )
        requires
            old(self).sprites.has(sprite@),
        ensures
            final(self).entities@ == old(self).entities@.push(
                still_entity(
                    x,
                    y,
                    WALL_LAYER,
                    Sprite {
                        texture: first_named(old(self).sprites@, sprite@)->Some_0 as usize,
                        part_x: part_pos.0,
                        part_y: part_pos.1,
                        part_w: part_size.0,
                        part_h: part_size.1,
                    },
                    false,
                    true,
                ),
            ),
            final(self).sprites == old(self).sprites,
            final(self).inputs == old(self).inputs,
    {
        let texture = self.get_sprite(sprite);
        let spr = Sprite {
            texture,
            part_x: part_pos.0,
            part_y: part_pos.1,
            part_w: part_size.0,
            part_h: part_size.1,
        };
        self.entities.push(
            Entity {
                position: Position::at(x, y, WALL_LAYER, Direction::Right),
                sprite: Some(spr),
                animations: None,
                player: None,
                movable: None,
                immovable: Some(Immovable),
            },
        );
    }

    /// Adds a floor tile, which blocks nothing.
    pub fn spawn_floor(
        &mut self,
        sprite: &str,
        x: i32,
        y: i32,
        part_pos: (u32, u32),
        part_size: (u32, u32),
    )
        requires
            old(self).sprites.has(sprite@),
        ensures
            final(self).entities@ == old(self).entities@.push(
                still_entity(
                    x,
                    y,
                    FLOOR_LAYER,
                    Sprite {
                        texture: first_named(old(self).sprites@, sprite@)->Some_0 as usize,
                        part_x: part_pos.0,
                        part_y: part_pos.1,
                        part_w: part_size.0,
                        part_h: part_size.1,
                    },
                    false,
                    false,
                ),
            ),
            final(self).sprites == old(self).sprites,
            final(self).inputs == old(self).inputs,
    {
        let texture = self.get_sprite(sprite);
        let spr = Sprite {
            texture,
            part_x: part_pos.0,
            part_y: part_pos.1,
            part_w: part_size.0,
            part_h: part_size.1,
        };
        self.entities.push(
            Entity {
                position: Position::at(x, y, FLOOR_LAYER, Direction::Right),
                sprite: Some(spr),
                animations: None,
                player: None,
                movable: None,
                immovable: None,
            },
        );
    }

    /// Adds a box, drawn with the sheet `box.png`, which the player can push.
    pub fn spawn_box(&mut self, x: i32, y: i32)
        requires
            old(self).sprites.has("box.png"@),
        ensures
            final(self).entities@ == old(self).entities@.push(
                still_entity(
                    x,
                    y,
                    ENTITY_LAYER,
                    Sprite {
                        texture: first_named(old(self).sprites@, "box.png"@)->Some_0 as usize,
                        part_x: 0,
                        part_y: 0,
                        part_w: BOX_SPRITE_SIZE,
                        part_h: BOX_SPRITE_SIZE,
                    },
                    true,
                    false,
                ),
            ),
            final(self).sprites == old(self).sprites,
            final(self).inputs == old(self).inputs,
    {
        let texture = self.get_sprite("box.png");
        let spr = Sprite {
            texture,
            part_x: 0,
            part_y: 0,
            part_w: BOX_SPRITE_SIZE,
            part_h: BOX_SPRITE_SIZE,
        };
        self.entities.push(
            Entity {
                position: Position::at(x, y, ENTITY_LAYER, Direction::Right),
                sprite: Some(spr),
                animations: None,
                player: None,
                movable: Some(Movable),
                immovable: None,
            },
        );
    }

    /// Adds the player, drawn with the sheet `player.png`, facing down and
    /// playing its idle animation.
    pub fn spawn_player(&mut self, x: i32, y: i32)
        requires
            old(self).sprites.has("player.png"@),
        ensures
            final(self).entities@.len() == old(self).entities@.len() + 1,
            final(self).entities@.drop_last() == old(self).entities@,
            is_new_player(final(self).entities@.last(), x, y, old(self).sprites@),
            final(self).sprites == old(self).sprites,
            final(self).inputs == old(self).inputs,
    {
        let texture = self.get_sprite("player.png");
        let spr = Sprite { texture, part_x: 0, part_y: 0, part_w: 0, part_h: 0 };
        let animations = vec![
            ("idle-down".to_owned(), Animation { duration: 500, frames: vec![0, 1] }),
            ("idle-up".to_owned(), Animation { duration: 500, frames: vec![2, 3] }),
            ("idle-right".to_owned(), Animation { duration: 500, frames: vec![4, 5] }),
            ("idle-left".to_owned(), Animation { duration: 500, frames: vec![6, 7] }),
            ("walk-down".to_owned(), Animation { duration: 150, frames: vec![8, 9, 10, 11] }),
            ("walk-up".to_owned(), Animation { duration: 150, frames: vec![12, 13, 14, 15] }),
            ("walk-right".to_owned(), Animation { duration: 150, frames: vec![16, 17, 18, 19] }),
            ("walk-left".to_owned(), Animation { duration: 150, frames: vec![20, 21, 22, 23] }),
            ("special".to_owned(), Animation { duration: 500, frames: vec![24, 25, 26, 27, 28, 29] }),
        ];
        let anis = Animations {
            columns: PLAYER_SHEET_GRID,
            rows: PLAYER_SHEET_GRID,
            time: 0,
            animations,
            current_animation: "idle-down".to_owned(),
        };
        assert(anis.table() =~= player_animation_table());
        self.entities.push(
            Entity {
                position: Position::at(x, y, ENTITY_LAYER, Direction::Down),
                sprite: Some(spr),
                animations: Some(anis),
                player: Some(Player),
                movable: None,
                immovable: None,
            },
        );
        assert(self.entities@.drop_last() =~= old(self).entities@);
    }
}

} // verus!
