//! Sprite animation: the player's choice of animation and the frame that
//! every animated entity shows.

use vstd::prelude::*;
use crate::components::first_animation;
use crate::components::Animations;
use crate::components::Direction;
use crate::components::Entity;
use crate::components::Position;
use crate::components::Sprite;
use crate::sprites::Sprites;
use crate::world::World;

verus! {

/// The animation a player plays: walking while it is drawn off its cell,
/// idle otherwise, toward the way it faces.
pub open spec fn player_animation(p: Position) -> Seq<char> {
    if p.at_rest() {
        match p.direction {
            Direction::Right => "idle-right"@,
            Direction::Left => "idle-left"@,
            Direction::Up => "idle-up"@,
            Direction::Down => "idle-down"@,
        }
    } else {
        match p.direction {
            Direction::Right => "walk-right"@,
            Direction::Left => "walk-left"@,
            Direction::Up => "walk-up"@,
            Direction::Down => "walk-down"@,
        }
    }
}

/// The part of a sheet of `tex_w` by `tex_h` pixels, cut in `columns` by
/// `rows` cells, that shows `frame`; frames count along the rows.
pub open spec fn frame_part(
    s: Sprite,
    frame: int,
    columns: int,
    rows: int,
    tex_w: int,
    tex_h: int,
) -> Sprite {
    let w = tex_w / columns;
    let h = tex_h / rows;
    Sprite {
        texture: s.texture,
        part_x: ((frame % columns) * w) as u32,
        part_y: ((frame / columns) * h) as u32,
        part_w: w as u32,
        part_h: h as u32,
    }
}

/// The frame shown after `time` milliseconds of an animation whose frames
/// last `duration` milliseconds each, looping.
pub open spec fn frame_at(frames: Seq<usize>, duration: int, time: int) -> int {
    frames[(time / duration) % (frames.len() as int)] as int
}

/// How an animation whose current name is `name` and whose clock reads
/// `time0` moves on, from state `a` (of which only the grid and the table
/// count) to state `b`, and what its sprite shows afterwards.
///
/// If the entity has a sprite and the animation `name` exists with a
/// non-zero duration and at least one frame, the clock advances by `delta`
/// (saturating), and the sprite shows the frame due at the new time, provided
/// the sheet is registered, has a non-zero grid, and holds that frame.
/// Otherwise nothing changes.
pub open spec fn advanced(
    name: Seq<char>,
    time0: int,
    a: Animations,
    b: Animations,
    sprite_before: Option<Sprite>,
    sprite_after: Option<Sprite>,
    sheets: Seq<(Seq<char>, u32, u32)>,
    delta: u32,
) -> bool {
    let t = a.table();
    let found = first_animation(t, name);
    &&& b.columns == a.columns
    &&& b.rows == a.rows
    &&& b.table() == t
    &&& b.current_animation@ == name
    &&& if sprite_before is Some && found is Some && t[found->Some_0].1 != 0
        && t[found->Some_0].2.len() > 0 {
        let (_, duration, frames) = t[found->Some_0];
        let time1: int = if time0 + delta > u64::MAX {
            u64::MAX as int
        } else {
            time0 + delta
        };
        let frame = frame_at(frames, duration as int, time1);
        let s = sprite_before->Some_0;
        &&& b.time == time1
        &&& if s.texture < sheets.len() && a.columns > 0 && a.rows > 0 && frame < a.columns
            * a.rows {
            sprite_after == Some(
                frame_part(
                    s,
                    frame,
                    a.columns as int,
                    a.rows as int,
                    sheets[s.texture as int].1 as int,
                    sheets[s.texture as int].2 as int,
                ),
            )
        } else {
            sprite_after == sprite_before
        }
    } else {
        b.time == time0 && sprite_after == sprite_before
    }
}

/// The animation an entity plays this frame: a player's is chosen by its
/// position, any other keeps its current one.
pub open spec fn picked_name(e: Entity, a: Animations) -> Seq<char> {
    if e.player is Some {
        player_animation(e.position)
    } else {
        a.current_animation@
    }
}

/// The clock of the animation an entity plays, before it advances: a new
/// animation starts from zero.
pub open spec fn picked_time(e: Entity, a: Animations) -> int {
    if a.current_animation@ != picked_name(e, a) {
        0
    } else {
        a.time as int
    }
}

/// How one entity's animation state and sprite change in a frame of
/// `delta` milliseconds, with `sheets` the registered sprite sheets: a
/// player first switches to `player_animation` of its position, restarting
/// it unless it was already playing; then the animation advances.
pub open spec fn animated(
    before: Entity,
    after: Entity,
    sheets: Seq<(Seq<char>, u32, u32)>,
    delta: u32,
) -> bool {
    &&& after.position == before.position
    &&& after.player == before.player
    &&& after.movable == before.movable
    &&& after.immovable == before.immovable
    &&& match before.animations {
        None => after.animations is None && after.sprite == before.sprite,
        Some(a) => after.animations matches Some(b) && advanced(
            picked_name(before, a),
            picked_time(before, a),
            a,
            b,
            before.sprite,
            after.sprite,
            sheets,
            delta,
        ),
    }
}

/// The name of the animation a player at `p` plays.
fn player_animation_name(p: &Position) -> (r: String)
    ensures
        r@ == player_animation(*p),
{
    if p.offset_x == 0 && p.offset_y == 0 {
        match p.direction {
            Direction::Right => "idle-right".to_owned(),
            Direction::Left => "idle-left".to_owned(),
            Direction::Up => "idle-up".to_owned(),
            Direction::Down => "idle-down".to_owned(),
        }
    } else {
        match p.direction {
            Direction::Right => "walk-right".to_owned(),
            Direction::Left => "walk-left".to_owned(),
            Direction::Up => "walk-up".to_owned(),
            Direction::Down => "walk-down".to_owned(),
        }
    }
}

/// The sprite cut to show `frame` of a sheet of `tex_w` by `tex_h` pixels.
fn frame_sprite(s: Sprite, frame: u64, columns: u32, rows: u32, tex_w: u32, tex_h: u32) -> (r:
    Sprite)
    requires
        columns > 0,
        rows > 0,
        frame < columns * rows,
    ensures
        r == frame_part(s, frame as int, columns as int, rows as int, tex_w as int, tex_h as int),
{
    let c = columns as u64;
    let w = tex_w as u64 / c;
    let h = tex_h as u64 / rows as u64;
    let col = frame % c;
    let row = frame / c;
    assert(col * w <= tex_w) by (nonlinear_arith)
        requires
            col < c,
            w == tex_w as int / c as int,
            c > 0,
    ;
    assert(row < rows) by (nonlinear_arith)
        requires
            row == frame as int / c as int,
            frame < c * rows,
            c > 0,
    ;
    assert(row * h <= tex_h) by (nonlinear_arith)
        requires
            row < rows,
            h == tex_h as int / rows as int,
            rows > 0,
    ;
    Sprite {
        texture: s.texture,
        part_x: (col * w) as u32,
        part_y: (row * h) as u32,
        part_w: w as u32,
        part_h: h as u32,
    }
}

/// Advances animation `a`, whose current name and clock are already
/// chosen, and returns what the sprite shows afterwards.
fn advance(a: &mut Animations, sprite: Option<Sprite>, sprites: &Sprites, delta: u32) -> (r:
    Option<Sprite>)
    ensures
        advanced(
            old(a).current_animation@,
            old(a).time as int,
            *old(a),
            *final(a),
            sprite,
            r,
            sprites@,
            delta,
        ),
{
    match a.find(&a.current_animation) {
        None => sprite,
        Some(k) => {
            let duration = a.animations[k].1.duration;
            let count = a.animations[k].1.frames.len();
            if sprite.is_some() && duration != 0 && count > 0 {
                a.time = a.time.saturating_add(delta as u64);
                let at = (a.time / duration as u64) % (count as u64);
                let frame = a.animations[k].1.frames[at as usize];
                let s = sprite.unwrap();
                let columns = a.columns as u64;
                let rows = a.rows as u64;
                assert(columns * rows <= u64::MAX) by (nonlinear_arith)
                    requires
                        columns <= u32::MAX,
                        rows <= u32::MAX,
                ;
                if s.texture < sprites.len() && columns > 0 && rows > 0 && (frame as u64) < columns
                    * rows {
                    let (tex_w, tex_h) = sprites.size(s.texture);
                    Some(frame_sprite(s, frame as u64, a.columns, a.rows, tex_w, tex_h))
                } else {
                    sprite
                }
            } else {
                sprite
            }
        },
    }
}

/// Advances the animation of one entity by `delta` milliseconds.
fn animate_entity(e: &mut Entity, sprites: &Sprites, delta: u32)
    ensures
        animated(*old(e), *final(e), sprites@, delta),
{
    let is_player = e.player.is_some();
    let pos = e.position;
    match e.animations.take() {
        None => {},
        Some(mut a) => {
            if is_player {
                let name = player_animation_name(&pos);
                if a.current_animation != name {
                    a.current_animation = name;
                    a.time = 0;
                }
            }
            let shown = advance(&mut a, e.sprite, sprites, delta);
            e.sprite = shown;
            e.animations = Some(a);
        },
    }
}

/// Plays the animations of a world for one frame.
pub struct AnimateSystem {
    /// Length of the frame, in milliseconds.
    pub delta_time: u32,
}

impl AnimateSystem {
    /// Lets every player pick its animation, then advances every animated
    /// entity by `delta_time` and shows the frame now due.
    pub fn run(&mut self, world: &mut World)
        ensures
            final(world).entities@.len() == old(world).entities@.len(),
            forall|i: int|
                0 <= i < old(world).entities@.len() ==> animated(
                    #[trigger] old(world).entities@[i],
                    final(world).entities@[i],
                    old(world).sprites@,
                    old(self).delta_time,
                ),
            final(world).sprites == old(world).sprites,
            final(world).inputs == old(world).inputs,
    {
        let n = world.entities.len();
        let mut i: usize = 0;
        while i < n
            invariant
                n == world.entities@.len(),
                n == old(world).entities@.len(),
                i <= n,
                forall|j: int|
                    0 <= j < i ==> animated(
                        #[trigger] old(world).entities@[j],
                        world.entities@[j],
                        old(world).sprites@,
                        self.delta_time,
                    ),
                forall|j: int| i <= j < n ==> #[trigger] world.entities@[j] == old(world).entities@[j],
                world.sprites == old(world).sprites,
                world.inputs == old(world).inputs,
            decreases n - i,
        {
            animate_entity(&mut world.entities[i], &world.sprites, self.delta_time);
            i = i + 1;
        }
    }
}

} // verus!
