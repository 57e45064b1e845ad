//! What to draw, where, and in which order.

use vstd::prelude::*;
use crate::components::Entity;
use crate::components::Sprite;
use crate::components::STEPS_PER_TILE;
use crate::world::World;

verus! {

/// One sprite to draw. Coordinates are in steps of `1 / STEPS_PER_TILE` of a
/// pixel, so that the sub-tile offset needs no rounding.
#[derive(Debug, Clone, Copy, PartialEq, Eq, Structural)]
pub struct DrawCall {
    /// The entity drawn.
    pub entity: usize,
    /// Index of the sheet in the world's sprite registry.
    pub texture: usize,
    pub x: i128,
    pub y: i128,
    /// Drawing layer; a larger value lies further back.
    pub z: u32,
    pub part_x: u32,
    pub part_y: u32,
    pub part_w: u32,
    pub part_h: u32,
}

/// Entity `a` is drawn before entity `b`: it lies further back, or on the
/// same layer and comes first.
pub open spec fn drawn_before(ents: Seq<Entity>, a: int, b: int) -> bool {
    ents[a].position.z > ents[b].position.z || (ents[a].position.z == ents[b].position.z && a < b)
}

/// `order` lists every entity that has a sprite exactly once, from the back
/// to the front, entities of one layer in entity order.
pub open spec fn draw_order(ents: Seq<Entity>, order: Seq<usize>) -> bool {
    &&& forall|k: int| 0 <= k < order.len() ==> (#[trigger] order[k]) < ents.len() && ents[order[k] as int].sprite is Some
    &&& forall|i: int| 0 <= i < ents.len() && (#[trigger] ents[i]).sprite is Some ==> order.contains(i as usize)
    &&& forall|a: int, b: int| 0 <= a < b < order.len() ==> drawn_before(ents, #[trigger] order[a] as int, #[trigger] order[b] as int)
}

/// How entity `i` is drawn with tiles of `tile` pixels.
pub open spec fn call_for(ents: Seq<Entity>, i: int, tile: int) -> DrawCall {
    let e = ents[i];
    let s = e.sprite->Some_0;
    DrawCall {
        entity: i as usize,
        texture: s.texture,
        x: ((e.position.x * STEPS_PER_TILE + e.position.offset_x) * tile) as i128,
        y: ((e.position.y * STEPS_PER_TILE + e.position.offset_y) * tile) as i128,
        z: e.position.z,
        part_x: s.part_x,
        part_y: s.part_y,
        part_w: s.part_w,
        part_h: s.part_h,
    }
}

/// Draws the world's sprites onto a view of tiles `tile_size` pixels wide.
pub struct DrawSystem {
    pub view_width: u32,
    pub view_height: u32,
    pub tile_size: u32,
}

/// Where along one axis a cell plus an offset lies, in steps of a pixel.
fn screen(cell: i32, offset: i32, tile: u32) -> (r: i128)
    ensures
        r == (cell * STEPS_PER_TILE + offset) * tile,
{
    let c = cell as i128;
    let per = STEPS_PER_TILE as i128;
    assert(per == 10);
    let steps = c * per + offset as i128;
    assert(-0x10_0000_0000 <= steps <= 0x10_0000_0000);
    assert(-0x10_0000_0000 * 0x1_0000_0000 <= steps * tile <= 0x10_0000_0000 * 0x1_0000_0000) by (nonlinear_arith)
        requires
            -0x10_0000_0000 <= steps <= 0x10_0000_0000,
            0 <= tile <= 0x1_0000_0000,
    ;
    steps * tile as i128
}

impl DrawSystem {
    /// The sprites to draw, from the back to the front.
    pub fn run(&mut self, world: &World) -> (r: Vec<DrawCall>)
        ensures
            draw_order(world.entities@, r@.map_values(|c: DrawCall| c.entity)),
            forall|k: int|
                0 <= k < r@.len() ==> #[trigger] r@[k] == call_for(
                    world.entities@,
                    r@[k].entity as int,
                    old(self).tile_size as int,
                ),
    {
        let ents = &world.entities;
        let ghost es = ents@;
        let mut order: Vec<usize> = Vec::new();
        let mut i: usize = 0;
        while i < ents.len()
            invariant
                es == ents@,
                i <= ents@.len(),
                forall|k: int| 0 <= k < order@.len() ==> (#[trigger] order@[k]) < i && es[order@[k] as int].sprite is Some,
                forall|j: int| 0 <= j < i && (#[trigger] es[j]).sprite is Some ==> order@.contains(j as usize),
                forall|a: int, b: int| 0 <= a < b < order@.len() ==> drawn_before(es, #[trigger] order@[a] as int, #[trigger] order@[b] as int),
            decreases ents@.len() - i,
        {
            if ents[i].sprite.is_some() {
                let z = ents[i].position.z;
                let mut p: usize = 0;
                while p < order.len() && ents[order[p]].position.z >= z
                    invariant
                        es == ents@,
                        i < ents@.len(),
                        z == es[i as int].position.z,
                        p <= order@.len(),
                        forall|k: int| 0 <= k < order@.len() ==> (#[trigger] order@[k]) < i,
                        forall|k: int| 0 <= k < p ==> es[(#[trigger] order@[k]) as int].position.z >= z,
                    decreases order@.len() - p,
                {
                    p = p + 1;
                }
                let ghost old_order = order@;
                order.insert(p, i);
                proof {
                    old_order.insert_ensures(p as int, i);
                    assert forall|a: int, b: int| 0 <= a < b < order@.len() implies drawn_before(es, #[trigger] order@[a] as int, #[trigger] order@[b] as int) by {
                        if b < p {
                        } else if b == p {
                        } else if a < p {
                        } else if a == p {
                            assert(order@[b] == old_order[b - 1]);
                            if p < old_order.len() {
                                assert(es[old_order[p as int] as int].position.z < z);
                                if b - 1 > p {
                                    assert(drawn_before(es, old_order[p as int] as int, old_order[b - 1] as int));
                                }
                            }
                        } else {
                            assert(order@[a] == old_order[a - 1]);
                            assert(order@[b] == old_order[b - 1]);
                        }
                    }
                    assert forall|j: int| 0 <= j <= i && (#[trigger] es[j]).sprite is Some implies order@.contains(j as usize) by {
                        if j < i {
                            let k = choose|k: int| 0 <= k < old_order.len() && old_order[k] == j as usize;
                            if k < p {
                                assert(order@[k] == j as usize);
                            } else {
                                assert(order@[k + 1] == j as usize);
                            }
                        } else {
                            assert(order@[p as int] == i);
                        }
                    }
                }
            }
            i = i + 1;
        }
        let mut calls: Vec<DrawCall> = Vec::new();
        let mut k: usize = 0;
        while k < order.len()
            invariant
                es == ents@,
                k <= order@.len(),
                forall|m: int| 0 <= m < order@.len() ==> (#[trigger] order@[m]) < es.len() && es[order@[m] as int].sprite is Some,
                calls@.len() == k,
                forall|m: int| 0 <= m < k ==> (#[trigger] calls@[m]).entity == order@[m],
                forall|m: int| 0 <= m < k ==> #[trigger] calls@[m] == call_for(es, calls@[m].entity as int, self.tile_size as int),
            decreases order@.len() - k,
        {
            let idx = order[k];
            let e = &ents[idx];
            let s = match e.sprite {
                Some(s) => s,
                None => Sprite { texture: 0, part_x: 0, part_y: 0, part_w: 0, part_h: 0 },
            };
            calls.push(
                DrawCall {
                    entity: idx,
                    texture: s.texture,
                    x: screen(e.position.x, e.position.offset_x, self.tile_size),
                    y: screen(e.position.y, e.position.offset_y, self.tile_size),
                    z: e.position.z,
                    part_x: s.part_x,
                    part_y: s.part_y,
                    part_w: s.part_w,
                    part_h: s.part_h,
                },
            );
            k = k + 1;
        }
        assert(calls@.map_values(|c: DrawCall| c.entity) =~= order@);
        calls
    }
}

} // verus!
