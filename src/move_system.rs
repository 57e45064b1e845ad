//! Grid movement and push resolution.
//!
//! Each frame, every player standing still on its cell takes one step for
//! each held direction that is free, pushing the box in front of it along.
//! All decisions of a frame are taken against the positions at the start of
//! the frame and then applied in order. Afterwards the drawing offset of
//! every entity slides one step back toward its cell.

use vstd::prelude::*;
use crate::components::Direction;
use crate::components::Entity;
use crate::components::Position;
use crate::components::STEPS_PER_TILE;
use crate::resources::button_for;
use crate::resources::Button;
use crate::resources::Inputs;
use crate::world::World;

verus! {

/// A cell whose coordinates fit the grid's integer type. Cells beyond the
/// edge of that range count as blocked.
pub open spec fn on_grid(x: int, y: int) -> bool {
    i32::MIN <= x <= i32::MAX && i32::MIN <= y <= i32::MAX
}

/// The entity's grid cell is `(x, y)`.
pub open spec fn stands_at(e: Entity, x: int, y: int) -> bool {
    e.position.x == x && e.position.y == y
}

/// Some immovable entity stands on `(x, y)`.
pub open spec fn immovable_at(ents: Seq<Entity>, x: int, y: int) -> bool {
    exists|i: int| 0 <= i < ents.len() && ents[i].immovable is Some && stands_at(#[trigger] ents[i], x, y)
}

/// The last of the first `n` entities that is movable and stands on `(x, y)`.
pub open spec fn movable_among(ents: Seq<Entity>, n: int, x: int, y: int) -> Option<int>
    decreases n,
{
    if n <= 0 {
        None
    } else if ents[n - 1].movable is Some && stands_at(ents[n - 1], x, y) {
        Some(n - 1)
    } else {
        movable_among(ents, n - 1, x, y)
    }
}

/// The movable entity on `(x, y)`, the last one in entity order if several.
pub open spec fn movable_at(ents: Seq<Entity>, x: int, y: int) -> Option<int> {
    movable_among(ents, ents.len() as int, x, y)
}

/// Nothing can be pushed onto `(x, y)`.
pub open spec fn occupied(ents: Seq<Entity>, x: int, y: int) -> bool {
    !on_grid(x, y) || immovable_at(ents, x, y) || movable_at(ents, x, y) is Some
}

/// An entity on `(x, y)` may step toward `d`: the next cell is on the grid
/// and holds nothing immovable, and a movable entity there has a free cell
/// behind it.
pub open spec fn may_move(ents: Seq<Entity>, d: Direction, x: int, y: int) -> bool {
    let tx = x + d.dx();
    let ty = y + d.dy();
    &&& on_grid(tx, ty)
    &&& !immovable_at(ents, tx, ty)
    &&& !(movable_at(ents, tx, ty) is Some && occupied(ents, tx + d.dx(), ty + d.dy()))
}

/// The steps that entity `i` takes toward `d`: none, its own, or its own
/// followed by that of the box it pushes.
pub open spec fn steps_toward(
    ents: Seq<Entity>,
    pressed: Set<Button>,
    i: int,
    d: Direction,
) -> Seq<(usize, Direction)> {
    let x = ents[i].position.x as int;
    let y = ents[i].position.y as int;
    if pressed.contains(button_for(d)) && may_move(ents, d, x, y) {
        match movable_at(ents, x + d.dx(), y + d.dy()) {
            Some(j) => seq![(i as usize, d), (j as usize, d)],
            None => seq![(i as usize, d)],
        }
    } else {
        seq![]
    }
}

/// The steps that entity `i` takes this frame: a player at rest tries up,
/// down, left and right, in that order.
pub open spec fn entity_steps(ents: Seq<Entity>, pressed: Set<Button>, i: int) -> Seq<
    (usize, Direction),
> {
    if ents[i].player is Some && ents[i].position.at_rest() {
        steps_toward(ents, pressed, i, Direction::Up) + steps_toward(
            ents,
            pressed,
            i,
            Direction::Down,
        ) + steps_toward(ents, pressed, i, Direction::Left) + steps_toward(
            ents,
            pressed,
            i,
            Direction::Right,
        )
    } else {
        seq![]
    }
}

/// The steps decided for the first `n` entities, in entity order.
pub open spec fn planned_steps(ents: Seq<Entity>, pressed: Set<Button>, n: int) -> Seq<
    (usize, Direction),
>
    decreases n,
{
    if n <= 0 {
        seq![]
    } else {
        planned_steps(ents, pressed, n - 1) + entity_steps(ents, pressed, n - 1)
    }
}

/// `v` limited to the range of `i32`.
pub open spec fn clamp_i32(v: int) -> int {
    if v < i32::MIN {
        i32::MIN as int
    } else if v > i32::MAX {
        i32::MAX as int
    } else {
        v
    }
}

/// A position after one step toward `d`: it faces `d`, enters the next cell
/// (unless that lies beyond the grid) and is drawn one tile behind it.
pub open spec fn stepped(p: Position, d: Direction) -> Position {
    let nx = p.x + d.dx();
    let ny = p.y + d.dy();
    if on_grid(nx, ny) {
        Position {
            x: nx as i32,
            y: ny as i32,
            z: p.z,
            offset_x: clamp_i32(p.offset_x - STEPS_PER_TILE * d.dx()) as i32,
            offset_y: clamp_i32(p.offset_y - STEPS_PER_TILE * d.dy()) as i32,
            direction: d,
        }
    } else {
        Position { direction: d, ..p }
    }
}

/// The entities after the given steps were taken one after the other.
pub open spec fn apply_steps(ents: Seq<Entity>, steps: Seq<(usize, Direction)>) -> Seq<Entity>
    decreases steps.len(),
{
    if steps.len() == 0 {
        ents
    } else {
        let prev = apply_steps(ents, steps.drop_last());
        let (i, d) = steps.last();
        prev.update(i as int, Entity { position: stepped(prev[i as int].position, d), ..prev[i as int] })
    }
}

/// One step of `v` toward zero.
pub open spec fn toward_zero(v: int) -> int {
    if v > 0 {
        v - 1
    } else if v < 0 {
        v + 1
    } else {
        0
    }
}

/// A position whose drawing offset slid one step back toward its cell.
pub open spec fn settled(p: Position) -> Position {
    Position { offset_x: toward_zero(p.offset_x as int) as i32, offset_y: toward_zero(p.offset_y as int) as i32, ..p }
}

/// Every entity's offset slid one step toward its cell.
pub open spec fn settle_all(ents: Seq<Entity>) -> Seq<Entity> {
    Seq::new(ents.len(), |i: int| Entity { position: settled(ents[i].position), ..ents[i] })
}

/// The entities after one frame of movement with the buttons `pressed`.
pub open spec fn frame(ents: Seq<Entity>, pressed: Set<Button>) -> Seq<Entity> {
    settle_all(apply_steps(ents, planned_steps(ents, pressed, ents.len() as int)))
}

/// The movable entity found among the first `n` is one of them, movable,
/// and on `(x, y)`.
proof fn lemma_movable_among(ents: Seq<Entity>, n: int, x: int, y: int)
    requires
        n <= ents.len(),
    ensures
        movable_among(ents, n, x, y) matches Some(j) ==> 0 <= j < n && ents[j].movable is Some
            && stands_at(ents[j], x, y),
    decreases n,
{
    if n > 0 {
        lemma_movable_among(ents, n - 1, x, y);
    }
}

/// The steps a player takes toward `d` move it or a movable entity.
proof fn lemma_steps_toward(ents: Seq<Entity>, pressed: Set<Button>, i: int, d: Direction)
    requires
        0 <= i < ents.len() <= usize::MAX,
        ents[i].player is Some,
    ensures
        forall|k: int|
            0 <= k < steps_toward(ents, pressed, i, d).len() ==> {
                let j = (#[trigger] steps_toward(ents, pressed, i, d)[k]).0 as int;
                0 <= j < ents.len() && (ents[j].player is Some || ents[j].movable is Some)
            },
{
    let x = ents[i].position.x as int;
    let y = ents[i].position.y as int;
    lemma_movable_among(ents, ents.len() as int, x + d.dx(), y + d.dy());
}

/// Every step planned for the first `n` entities moves a player or a
/// movable entity.
proof fn lemma_steps_move_players_or_movables(ents: Seq<Entity>, pressed: Set<Button>, n: int)
    requires
        n <= ents.len() <= usize::MAX,
    ensures
        forall|k: int|
            0 <= k < planned_steps(ents, pressed, n).len() ==> {
                let i = (#[trigger] planned_steps(ents, pressed, n)[k]).0 as int;
                0 <= i < ents.len() && (ents[i].player is Some || ents[i].movable is Some)
            },
    decreases n,
{
    if n > 0 {
        lemma_steps_move_players_or_movables(ents, pressed, n - 1);
        let prev = planned_steps(ents, pressed, n - 1);
        let own = entity_steps(ents, pressed, n - 1);
        let i = n - 1;
        let x = ents[i].position.x as int;
        let y = ents[i].position.y as int;
        let up = steps_toward(ents, pressed, i, Direction::Up);
        let down = steps_toward(ents, pressed, i, Direction::Down);
        let left = steps_toward(ents, pressed, i, Direction::Left);
        let right = steps_toward(ents, pressed, i, Direction::Right);
        if ents[i].player is Some {
            lemma_steps_toward(ents, pressed, i, Direction::Up);
            lemma_steps_toward(ents, pressed, i, Direction::Down);
            lemma_steps_toward(ents, pressed, i, Direction::Left);
            lemma_steps_toward(ents, pressed, i, Direction::Right);
        }
        assert forall|k: int| 0 <= k < own.len() implies {
            let j = (#[trigger] own[k]).0 as int;
            0 <= j < ents.len() && (ents[j].player is Some || ents[j].movable is Some)
        } by {
            assert(own == up + down + left + right);
            if k < up.len() {
                assert(own[k] == up[k]);
            } else if k < up.len() + down.len() {
                assert(own[k] == down[k - up.len()]);
            } else if k < up.len() + down.len() + left.len() {
                assert(own[k] == left[k - up.len() - down.len()]);
            } else {
                assert(own[k] == right[k - up.len() - down.len() - left.len()]);
            }
        }
        assert forall|k: int| 0 <= k < prev.len() + own.len() implies {
            let j = (#[trigger] (prev + own)[k]).0 as int;
            0 <= j < ents.len() && (ents[j].player is Some || ents[j].movable is Some)
        } by {
            if k < prev.len() {
                assert((prev + own)[k] == prev[k]);
            } else {
                assert((prev + own)[k] == own[k - prev.len()]);
            }
        }
    }
}

/// Steps that never name entity `i` leave it as it was.
proof fn lemma_untouched(ents: Seq<Entity>, steps: Seq<(usize, Direction)>, i: int)
    requires
        0 <= i < ents.len(),
        forall|k: int| 0 <= k < steps.len() ==> (#[trigger] steps[k]).0 != i,
        forall|k: int| 0 <= k < steps.len() ==> (#[trigger] steps[k]).0 < ents.len(),
    ensures
        apply_steps(ents, steps).len() == ents.len(),
        apply_steps(ents, steps)[i] == ents[i],
    decreases steps.len(),
{
    if steps.len() > 0 {
        let rest = steps.drop_last();
        assert forall|k: int| 0 <= k < rest.len() implies (#[trigger] rest[k]).0 != i && rest[k].0 < ents.len() by {
            assert(rest[k] == steps[k]);
        }
        lemma_untouched(ents, rest, i);
    }
}

/// A frame never moves an entity that is neither a player nor movable, a
/// wall for instance: it keeps its cell and the way it faces.
pub proof fn lemma_fixed_entities_stay(ents: Seq<Entity>, pressed: Set<Button>, i: int)
    requires
        0 <= i < ents.len() <= usize::MAX,
        ents[i].player is None,
        ents[i].movable is None,
    ensures
        frame(ents, pressed).len() == ents.len(),
        frame(ents, pressed)[i].position.x == ents[i].position.x,
        frame(ents, pressed)[i].position.y == ents[i].position.y,
        frame(ents, pressed)[i].position.direction == ents[i].position.direction,
{
    let steps = planned_steps(ents, pressed, ents.len() as int);
    lemma_steps_move_players_or_movables(ents, pressed, ents.len() as int);
    assert forall|k: int| 0 <= k < steps.len() implies (#[trigger] steps[k]).0 != i && steps[k].0 < ents.len() by {
        let j = steps[k].0 as int;
        assert(0 <= j < ents.len() && (ents[j].player is Some || ents[j].movable is Some));
    }
    lemma_untouched(ents, steps, i);
}

/// Whether some immovable entity stands on `(x, y)`.
fn has_immovable(ents: &Vec<Entity>, x: i64, y: i64) -> (r: bool)
    ensures
        r == immovable_at(ents@, x as int, y as int),
{
    let mut i: usize = 0;
    while i < ents.len()
        invariant
            i <= ents.len(),
            forall|k: int|
                0 <= k < i ==> !(ents@[k].immovable is Some && stands_at(#[trigger] ents@[k], x as int, y as int)),
        decreases ents.len() - i,
    {
        let e = &ents[i];
        if e.immovable.is_some() && e.position.x as i64 == x && e.position.y as i64 == y {
            return true;
        }
        i = i + 1;
    }
    false
}

/// The movable entity on `(x, y)`, the last one if several.
fn find_movable(ents: &Vec<Entity>, x: i64, y: i64) -> (r: Option<usize>)
    ensures
        r matches Some(j) ==> movable_at(ents@, x as int, y as int) == Some(j as int) && j < ents@.len(),
        r is None ==> movable_at(ents@, x as int, y as int) is None,
{
    let mut i: usize = ents.len();
    while i > 0
        invariant
            i <= ents.len(),
            movable_at(ents@, x as int, y as int) == movable_among(ents@, i as int, x as int, y as int),
        decreases i,
    {
        i = i - 1;
        let e = &ents[i];
        if e.movable.is_some() && e.position.x as i64 == x && e.position.y as i64 == y {
            return Some(i);
        }
    }
    None
}

/// Whether `(x, y)` fits the grid.
fn fits_grid(x: i64, y: i64) -> (r: bool)
    ensures
        r == on_grid(x as int, y as int),
{
    i32::MIN as i64 <= x && x <= i32::MAX as i64 && i32::MIN as i64 <= y && y <= i32::MAX as i64
}

/// Whether an entity on `(x, y)` may step toward `direction`.
pub fn can_move(ents: &Vec<Entity>, direction: Direction, x: i32, y: i32) -> (r: bool)
    ensures
        r == may_move(ents@, direction, x as int, y as int),
{
    let xo = direction.x_step();
    let yo = direction.y_step();
    let tx = x as i64 + xo;
    let ty = y as i64 + yo;
    if !fits_grid(tx, ty) || has_immovable(ents, tx, ty) {
        return false;
    }
    match find_movable(ents, tx, ty) {
        None => true,
        Some(_) => {
            let bx = tx + xo;
            let by = ty + yo;
            !(!fits_grid(bx, by) || has_immovable(ents, bx, by) || find_movable(ents, bx, by).is_some())
        },
    }
}

/// Appends the steps that entity `i` takes toward `d`.
fn plan_toward(
    ents: &Vec<Entity>,
    inputs: &Inputs,
    i: usize,
    d: Direction,
    steps: &mut Vec<(usize, Direction)>,
)
    requires
        i < ents@.len(),
        forall|k: int| 0 <= k < old(steps)@.len() ==> (#[trigger] old(steps)@[k]).0 < ents@.len(),
    ensures
        final(steps)@ == old(steps)@ + steps_toward(ents@, inputs@, i as int, d),
        forall|k: int| 0 <= k < final(steps)@.len() ==> (#[trigger] final(steps)@[k]).0 < ents@.len(),
{
    let x = ents[i].position.x;
    let y = ents[i].position.y;
    let button = match d {
        Direction::Up => Button::Up,
        Direction::Down => Button::Down,
        Direction::Left => Button::Left,
        Direction::Right => Button::Right,
    };
    if inputs.is_pressed(button) && can_move(ents, d, x, y) {
        steps.push((i, d));
        match find_movable(ents, x as i64 + d.x_step(), y as i64 + d.y_step()) {
            Some(j) => {
                steps.push((j, d));
                assert(steps@ =~= old(steps)@ + seq![(i, d), (j, d)]);
            },
            None => {
                assert(steps@ =~= old(steps)@ + seq![(i, d)]);
            },
        }
    } else {
        assert(steps@ =~= old(steps)@ + Seq::<(usize, Direction)>::empty());
    }
}

/// The position after one step toward `d`.
fn step_position(p: Position, d: Direction) -> (r: Position)
    ensures
        r == stepped(p, d),
{
    let nx = p.x as i64 + d.x_step();
    let ny = p.y as i64 + d.y_step();
    if fits_grid(nx, ny) {
        Position {
            x: nx as i32,
            y: ny as i32,
            z: p.z,
            offset_x: clamp(p.offset_x as i64 - STEPS_PER_TILE as i64 * d.x_step()),
            offset_y: clamp(p.offset_y as i64 - STEPS_PER_TILE as i64 * d.y_step()),
            direction: d,
        }
    } else {
        Position { direction: d, ..p }
    }
}

/// `v` limited to the range of `i32`.
fn clamp(v: i64) -> (r: i32)
    ensures
        r == clamp_i32(v as int),
{
    if v < i32::MIN as i64 {
        i32::MIN
    } else if v > i32::MAX as i64 {
        i32::MAX
    } else {
        v as i32
    }
}

/// One step of `v` toward zero.
fn step_toward_zero(v: i32) -> (r: i32)
    ensures
        r == toward_zero(v as int),
{
    if v > 0 {
        v - 1
    } else if v < 0 {
        v + 1
    } else {
        0
    }
}

/// Moves the players of a world one frame according to the held buttons.
pub struct MoveSystem {}

impl MoveSystem {
    /// Runs one frame: decides every step against the positions at the start
    /// of the frame, takes the steps in order, then slides every drawing
    /// offset one step toward its cell.
    pub fn run(&mut self, world: &mut World)
        ensures
            final(world).entities@ == frame(old(world).entities@, old(world).inputs@),
            final(world).sprites == old(world).sprites,
            final(world).inputs == old(world).inputs,
    {
        let ghost start = world.entities@;
        let n = world.entities.len();

        // decide the steps of every player
        let mut steps: Vec<(usize, Direction)> = Vec::new();
        let mut i: usize = 0;
        while i < n
            invariant
                n == world.entities@.len(),
                world.entities@ == start,
                i <= n,
                steps@ == planned_steps(start, world.inputs@, i as int),
                forall|k: int| 0 <= k < steps@.len() ==> (#[trigger] steps@[k]).0 < n,
            decreases n - i,
        {
            let e = &world.entities[i];
            if e.player.is_some() && e.position.offset_x == 0 && e.position.offset_y == 0 {
                plan_toward(&world.entities, &world.inputs, i, Direction::Up, &mut steps);
                plan_toward(&world.entities, &world.inputs, i, Direction::Down, &mut steps);
                plan_toward(&world.entities, &world.inputs, i, Direction::Left, &mut steps);
                plan_toward(&world.entities, &world.inputs, i, Direction::Right, &mut steps);
                assert(steps@ =~= planned_steps(start, world.inputs@, i as int) + entity_steps(
                    start,
                    world.inputs@,
                    i as int,
                ));
            } else {
                assert(steps@ =~= planned_steps(start, world.inputs@, i as int) + entity_steps(
                    start,
                    world.inputs@,
                    i as int,
                ));
            }
            i = i + 1;
        }

        // take the steps
        let mut k: usize = 0;
        while k < steps.len()
            invariant
                n == world.entities@.len(),
                k <= steps@.len(),
                steps@ == planned_steps(start, old(world).inputs@, n as int),
                forall|j: int| 0 <= j < steps@.len() ==> (#[trigger] steps@[j]).0 < n,
                world.entities@ == apply_steps(start, steps@.take(k as int)),
                world.sprites == old(world).sprites,
                world.inputs == old(world).inputs,
            decreases steps@.len() - k,
        {
            let (idx, d) = steps[k];
            let p = step_position(world.entities[idx].position, d);
            world.entities[idx].position = p;
            proof {
                assert(steps@.take(k + 1).drop_last() =~= steps@.take(k as int));
            }
            k = k + 1;
        }
        assert(steps@.take(k as int) =~= steps@);

        // slide every offset toward its cell
        let ghost moved = world.entities@;
        let mut m: usize = 0;
        while m < n
            invariant
                n == world.entities@.len(),
                n == moved.len(),
                m <= n,
                forall|j: int| 0 <= j < m ==> #[trigger] world.entities@[j] == (Entity { position: settled(moved[j].position), ..moved[j] }),
                forall|j: int| m <= j < n ==> #[trigger] world.entities@[j] == moved[j],
                world.sprites == old(world).sprites,
                world.inputs == old(world).inputs,
            decreases n - m,
        {
            let ox = step_toward_zero(world.entities[m].position.offset_x);
            let oy = step_toward_zero(world.entities[m].position.offset_y);
            world.entities[m].position.offset_x = ox;
            world.entities[m].position.offset_y = oy;
            m = m + 1;
        }
        assert(world.entities@ =~= settle_all(moved));
    }
}

} // verus!
