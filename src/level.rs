//! Building a level from its JSON description: the level editor's export
//! lists levels, each with layers of entity instances and of tiles.

use vstd::prelude::*;
use crate::error::Error;
use crate::json::as_i32;
use crate::json::as_map;
use crate::json::as_str;
use crate::json::as_vec;
use crate::json::get;
use crate::json::member_of;
use crate::json::member;
use crate::json::spec_as_i32;
use crate::json::spec_as_map;
use crate::json::spec_as_str;
use crate::json::spec_as_vec;
use crate::json::parsed_json;
use crate::json::read_json;
use crate::json::Json;
use crate::components::Entity;
use crate::components::Sprite;
use crate::sprites::first_named;
use crate::world::is_new_player;
use crate::world::still_entity;
use crate::world::World;
use crate::world::BOX_SPRITE_SIZE;
use crate::world::ENTITY_LAYER;
use crate::world::FLOOR_LAYER;
use crate::world::WALL_LAYER;

verus! {

/// What a spawn puts into the world.
#[derive(Debug, Clone, Copy, PartialEq, Eq, Structural)]
pub enum SpawnKind {
    Wall,
    Floor,
    Crate,
    Player,
}

/// One entity that a level asks for: its kind, the sheet it is drawn with,
/// its grid cell and, for tiles, the square part of the sheet it shows.
#[derive(Debug, Clone)]
pub struct Spawn {
    pub kind: SpawnKind,
    pub sheet: String,
    pub x: i32,
    pub y: i32,
    pub part_x: u32,
    pub part_y: u32,
    pub part_size: u32,
}

/// A spawn as plain values.
pub struct SpawnView {
    pub kind: SpawnKind,
    pub sheet: Seq<char>,
    pub x: i32,
    pub y: i32,
    pub part_x: u32,
    pub part_y: u32,
    pub part_size: u32,
}

impl View for Spawn {
    type V = SpawnView;

    open spec fn view(&self) -> SpawnView {
        SpawnView {
            kind: self.kind,
            sheet: self.sheet@,
            x: self.x,
            y: self.y,
            part_x: self.part_x,
            part_y: self.part_y,
            part_size: self.part_size,
        }
    }
}

/// The sheet boxes are drawn with.
pub open spec fn box_sheet() -> Seq<char> {
    "box.png"@
}

/// The sheet players are drawn with.
pub open spec fn player_sheet() -> Seq<char> {
    "player.png"@
}

/// The grid cell holding pixel coordinate `p` on a grid of `grid` pixels.
pub open spec fn cell_of(p: int, grid: int) -> int {
    p / grid
}

/// The grid cell of pixel coordinates `xy`, counted from the top of a level
/// `height` pixels high; the grid's `y` grows upward.
pub open spec fn cell_at(xy: Seq<Json>, height: int, grid: int) -> Result<(i32, i32), Seq<char>> {
    if xy.len() < 1 {
        Err("no x"@)
    } else {
        match spec_as_i32(xy[0]) {
            Err(e) => Err(e),
            Ok(px) => if xy.len() < 2 {
                Err("no y"@)
            } else {
                match spec_as_i32(xy[1]) {
                    Err(e) => Err(e),
                    Ok(py) => {
                        let cx = cell_of(px as int, grid);
                        let cy = cell_of(height - py, grid);
                        if i32::MIN <= cx <= i32::MAX && i32::MIN <= cy <= i32::MAX {
                            Ok((cx as i32, cy as i32))
                        } else {
                            Err("position out of range"@)
                        }
                    },
                }
            },
        }
    }
}

/// The grid size of a layer: positive, in pixels.
pub open spec fn grid_of(layer: Seq<(String, Json)>) -> Result<i32, Seq<char>> {
    match spec_as_i32(member(layer, "__gridSize"@)) {
        Err(e) => Err(e),
        Ok(g) => if g <= 0 {
            Err("invalid grid size"@)
        } else {
            Ok(g)
        },
    }
}

/// What an entity instance asks for: a player, a box, or nothing.
pub open spec fn instance_plan(inst: Json, height: int, grid: int) -> Result<
    Option<SpawnView>,
    Seq<char>,
> {
    match spec_as_map(inst) {
        Err(e) => Err(e),
        Ok(m) => match spec_as_str(member(m, "__identifier"@)) {
            Err(e) => Err(e),
            Ok(id) => match spec_as_vec(member(m, "px"@)) {
                Err(e) => Err(e),
                Ok(xy) => match cell_at(xy, height, grid) {
                    Err(e) => Err(e),
                    Ok((x, y)) => if id == "Player"@ {
                        Ok(
                            Some(
                                SpawnView {
                                    kind: SpawnKind::Player,
                                    sheet: player_sheet(),
                                    x,
                                    y,
                                    part_x: 0,
                                    part_y: 0,
                                    part_size: 0,
                                },
                            ),
                        )
                    } else if id == "Box"@ {
                        Ok(
                            Some(
                                SpawnView {
                                    kind: SpawnKind::Crate,
                                    sheet: box_sheet(),
                                    x,
                                    y,
                                    part_x: 0,
                                    part_y: 0,
                                    part_size: 0,
                                },
                            ),
                        )
                    } else {
                        Ok(None)
                    },
                },
            },
        },
    }
}

/// What a tile asks for: a tile of `kind` drawn from `sheet`, or nothing
/// when the layer's tiles are of no kind this game knows.
pub open spec fn tile_plan(
    tile: Json,
    kind: Option<SpawnKind>,
    sheet: Seq<char>,
    height: int,
    grid: int,
) -> Result<Option<SpawnView>, Seq<char>> {
    match spec_as_map(tile) {
        Err(e) => Err(e),
        Ok(m) => match spec_as_vec(member(m, "px"@)) {
            Err(e) => Err(e),
            Ok(xy) => match spec_as_vec(member(m, "src"@)) {
                Err(e) => Err(e),
                Ok(uv) => match cell_at(xy, height, grid) {
                    Err(e) => Err(e),
                    Ok((x, y)) => if uv.len() < 1 {
                        Err("no u"@)
                    } else {
                        match spec_as_i32(uv[0]) {
                            Err(e) => Err(e),
                            Ok(u) => if uv.len() < 2 {
                                Err("no v"@)
                            } else {
                                match spec_as_i32(uv[1]) {
                                    Err(e) => Err(e),
                                    Ok(v) => if u < 0 || v < 0 {
                                        Err("invalid tile source"@)
                                    } else {
                                        match kind {
                                            None => Ok(None),
                                            Some(k) => Ok(
                                                Some(
                                                    SpawnView {
                                                        kind: k,
                                                        sheet,
                                                        x,
                                                        y,
                                                        part_x: u as u32,
                                                        part_y: v as u32,
                                                        part_size: grid as u32,
                                                    },
                                                ),
                                            ),
                                        }
                                    },
                                }
                            },
                        }
                    },
                },
            },
        },
    }
}

/// The spawns that the first `n` items ask for, in order; the first error
/// met, if any.
pub open spec fn collect_plans(
    items: Seq<Json>,
    n: int,
    plan: spec_fn(Json) -> Result<Option<SpawnView>, Seq<char>>,
) -> Result<Seq<SpawnView>, Seq<char>>
    decreases n,
{
    if n <= 0 {
        Ok(Seq::empty())
    } else {
        match collect_plans(items, n - 1, plan) {
            Err(e) => Err(e),
            Ok(s) => match plan(items[n - 1]) {
                Err(e) => Err(e),
                Ok(None) => Ok(s),
                Ok(Some(v)) => Ok(s.push(v)),
            },
        }
    }
}

/// `instance_plan` for a layer of the given height and grid.
pub open spec fn instance_planner(height: int, grid: int) -> spec_fn(Json) -> Result<
    Option<SpawnView>,
    Seq<char>,
> {
    |j: Json| instance_plan(j, height, grid)
}

/// `tile_plan` for a layer of the given tile kind, sheet, height and grid.
pub open spec fn tile_planner(
    kind: Option<SpawnKind>,
    sheet: Seq<char>,
    height: int,
    grid: int,
) -> spec_fn(Json) -> Result<Option<SpawnView>, Seq<char>> {
    |j: Json| tile_plan(j, kind, sheet, height, grid)
}

/// Once an error is met, later items change nothing.
pub proof fn lemma_collect_err(
    items: Seq<Json>,
    k: int,
    n: int,
    plan: spec_fn(Json) -> Result<Option<SpawnView>, Seq<char>>,
)
    requires
        0 <= k <= n,
        collect_plans(items, k, plan) is Err,
    ensures
        collect_plans(items, n, plan) == collect_plans(items, k, plan),
    decreases n - k,
{
    if n > k {
        lemma_collect_err(items, k, n - 1, plan);
    }
}

/// Once an error is met, later layers change nothing.
pub proof fn lemma_layers_err(layers: Seq<Json>, k: int, n: int, height: int)
    requires
        0 <= k <= n,
        layers_plan(layers, k, height) is Err,
    ensures
        layers_plan(layers, n, height) == layers_plan(layers, k, height),
    decreases n - k,
{
    if n > k {
        lemma_layers_err(layers, k, n - 1, height);
    }
}

/// The kind of tile a tile layer of that identifier holds.
pub open spec fn tile_kind(identifier: Seq<char>) -> Option<SpawnKind> {
    if identifier == "Collisions"@ {
        Some(SpawnKind::Wall)
    } else if identifier == "Background"@ {
        Some(SpawnKind::Floor)
    } else {
        None
    }
}

/// The spawns a layer asks for.
pub open spec fn layer_plan(layer: Json, height: int) -> Result<Seq<SpawnView>, Seq<char>> {
    match spec_as_map(layer) {
        Err(e) => Err(e),
        Ok(m) => match spec_as_str(member(m, "__type"@)) {
            Err(e) => Err(e),
            Ok(t) => if t == "Entities"@ {
                match spec_as_vec(member(m, "entityInstances"@)) {
                    Err(e) => Err(e),
                    Ok(insts) => match grid_of(m) {
                        Err(e) => Err(e),
                        Ok(g) => collect_plans(insts, insts.len() as int, instance_planner(height, g as int)),
                    },
                }
            } else if t == "Tiles"@ {
                match spec_as_str(member(m, "__identifier"@)) {
                    Err(e) => Err(e),
                    Ok(id) => match spec_as_str(member(m, "__tilesetRelPath"@)) {
                        Err(e) => Err(e),
                        Ok(sheet) => match spec_as_vec(member(m, "gridTiles"@)) {
                            Err(e) => Err(e),
                            Ok(tiles) => match grid_of(m) {
                                Err(e) => Err(e),
                                Ok(g) => collect_plans(
                                    tiles,
                                    tiles.len() as int,
                                    tile_planner(tile_kind(id), sheet, height, g as int),
                                ),
                            },
                        },
                    },
                }
            } else {
                Err("invalid layer type"@)
            },
        },
    }
}

/// The spawns the first `n` layers ask for, in order; the first error met.
pub open spec fn layers_plan(layers: Seq<Json>, n: int, height: int) -> Result<
    Seq<SpawnView>,
    Seq<char>,
>
    decreases n,
{
    if n <= 0 {
        Ok(Seq::empty())
    } else {
        match layers_plan(layers, n - 1, height) {
            Err(e) => Err(e),
            Ok(s) => match layer_plan(layers[n - 1], height) {
                Err(e) => Err(e),
                Ok(t) => Ok(s + t),
            },
        }
    }
}

/// The level is an object whose `identifier` is the string `name`.
pub open spec fn is_level_named(level: Json, name: Seq<char>) -> bool {
    match level {
        Json::Object(m) => member(m@, "identifier"@) matches Json::Str(s) && s@ == name,
        _ => false,
    }
}

/// The first level called `name`.
pub open spec fn find_level(levels: Seq<Json>, name: Seq<char>) -> Option<int> {
    if exists|i: int| 0 <= i < levels.len() && is_level_named(levels[i], name) {
        let i = choose|i: int|
            0 <= i < levels.len() && is_level_named(levels[i], name) && forall|j: int|
                0 <= j < i ==> !is_level_named(levels[j], name);
        Some(i)
    } else {
        None
    }
}

/// Everything that the level `name` of document `doc` asks to spawn, or
/// why it cannot be built.
pub open spec fn level_plan(doc: Json, name: Seq<char>) -> Result<Seq<SpawnView>, Seq<char>> {
    match get(doc, "levels"@) {
        Json::Array(levels) => match find_level(levels@, name) {
            None => Err("level not found"@),
            Some(k) => match spec_as_map(levels@[k]) {
                Err(e) => Err(e),
                Ok(m) => match spec_as_vec(member(m, "layerInstances"@)) {
                    Err(e) => Err(e),
                    Ok(layers) => match spec_as_i32(member(m, "pxHei"@)) {
                        Err(e) => Err(e),
                        Ok(h) => layers_plan(layers, layers.len() as int, h as int),
                    },
                },
            },
        },
        _ => Err("levels are not present"@),
    }
}

/// The planned spawns as plain values.
pub open spec fn views(v: Seq<Spawn>) -> Seq<SpawnView> {
    v.map_values(|s: Spawn| s@)
}

/// `r` is what the planned outcome `p` says, as executable values.
pub open spec fn follows_plan(
    r: Result<Option<Spawn>, Error>,
    p: Result<Option<SpawnView>, Seq<char>>,
) -> bool {
    match p {
        Ok(Some(v)) => r matches Ok(Some(s)) && s@ == v,
        Ok(None) => r matches Ok(None),
        Err(m) => r matches Err(Error::InvalidLevel(t)) && t@ == m,
    }
}

/// `r` is what the planned outcome `p` says, as executable values.
pub open spec fn follows_plans(r: Result<Vec<Spawn>, Error>, p: Result<Seq<SpawnView>, Seq<char>>) -> bool {
    match p {
        Ok(s) => r matches Ok(v) && views(v@) == s,
        Err(m) => r matches Err(Error::InvalidLevel(t)) && t@ == m,
    }
}

/// `p / grid`, rounded down.
fn floor_div(p: i64, grid: i64) -> (r: i64)
    requires
        grid > 0,
        -0x1_0000_0000 <= p <= 0x1_0000_0000,
    ensures
        r == cell_of(p as int, grid as int),
{
    if p >= 0 {
        let q = p as u64 / grid as u64;
        assert(q as int == (p as int) / (grid as int));
        q as i64
    } else {
        let a = (-p) as u64;
        let g = grid as u64;
        let q = (a + g - 1) / g;
        let ghost qi: int = q as int;
        let ghost ai: int = a as int;
        let ghost gi: int = g as int;
        assert(qi == (ai + gi - 1) / gi);
        assert((p as int) / (grid as int) == -qi) by (nonlinear_arith)
            requires
                qi == (ai + gi - 1) / gi,
                ai == -(p as int),
                gi == grid as int,
                gi > 0,
                ai > 0,
        ;
        assert(qi <= ai) by (nonlinear_arith)
            requires
                qi == (ai + gi - 1) / gi,
                gi > 0,
                ai > 0,
        ;
        -(q as i64)
    }
}

/// The grid cell of pixel coordinates `xy`.
fn cell(xy: &Vec<Json>, height: i32, grid: i32) -> (r: Result<(i32, i32), Error>)
    requires
        grid > 0,
    ensures
        match cell_at(xy@, height as int, grid as int) {
            Ok(c) => r matches Ok(d) && d == c,
            Err(m) => r matches Err(Error::InvalidLevel(t)) && t@ == m,
        },
{
    if xy.len() < 1 {
        return Err(Error::invalid_level("no x"));
    }
    let px = match as_i32(Some(&xy[0])) {
        Ok(n) => n,
        Err(e) => return Err(e),
    };
    if xy.len() < 2 {
        return Err(Error::invalid_level("no y"));
    }
    let py = match as_i32(Some(&xy[1])) {
        Ok(n) => n,
        Err(e) => return Err(e),
    };
    let cx = floor_div(px as i64, grid as i64);
    let cy = floor_div(height as i64 - py as i64, grid as i64);
    if i32::MIN as i64 <= cx && cx <= i32::MAX as i64 && i32::MIN as i64 <= cy && cy
        <= i32::MAX as i64 {
        Ok((cx as i32, cy as i32))
    } else {
        Err(Error::invalid_level("position out of range"))
    }
}

/// The grid size of a layer.
fn grid_size(layer: &Vec<(String, Json)>) -> (r: Result<i32, Error>)
    ensures
        match grid_of(layer@) {
            Ok(g) => r matches Ok(h) && h == g,
            Err(m) => r matches Err(Error::InvalidLevel(t)) && t@ == m,
        },
{
    match as_i32(member_of(layer, "__gridSize")) {
        Err(e) => Err(e),
        Ok(g) => if g <= 0 {
            Err(Error::invalid_level("invalid grid size"))
        } else {
            Ok(g)
        },
    }
}

/// What an entity instance asks for.
fn plan_instance(inst: &Json, height: i32, grid: i32) -> (r: Result<Option<Spawn>, Error>)
    requires
        grid > 0,
    ensures
        follows_plan(r, instance_plan(*inst, height as int, grid as int)),
{
    let m = match as_map(Some(inst)) {
        Ok(m) => m,
        Err(e) => return Err(e),
    };
    let id = match as_str(member_of(m, "__identifier")) {
        Ok(s) => s,
        Err(e) => return Err(e),
    };
    let xy = match as_vec(member_of(m, "px")) {
        Ok(v) => v,
        Err(e) => return Err(e),
    };
    let (x, y) = match cell(xy, height, grid) {
        Ok(c) => c,
        Err(e) => return Err(e),
    };
    if *id == "Player".to_owned() {
        Ok(
            Some(
                Spawn {
                    kind: SpawnKind::Player,
                    sheet: "player.png".to_owned(),
                    x,
                    y,
                    part_x: 0,
                    part_y: 0,
                    part_size: 0,
                },
            ),
        )
    } else if *id == "Box".to_owned() {
        Ok(
            Some(
                Spawn {
                    kind: SpawnKind::Crate,
                    sheet: "box.png".to_owned(),
                    x,
                    y,
                    part_x: 0,
                    part_y: 0,
                    part_size: 0,
                },
            ),
        )
    } else {
        Ok(None)
    }
}

/// What a tile asks for.
fn plan_tile(
    tile: &Json,
    kind: Option<SpawnKind>,
    sheet: &String,
    height: i32,
    grid: i32,
) -> (r: Result<Option<Spawn>, Error>)
    requires
        grid > 0,
    ensures
        follows_plan(r, tile_plan(*tile, kind, sheet@, height as int, grid as int)),
{
    let m = match as_map(Some(tile)) {
        Ok(m) => m,
        Err(e) => return Err(e),
    };
    let xy = match as_vec(member_of(m, "px")) {
        Ok(v) => v,
        Err(e) => return Err(e),
    };
    let uv = match as_vec(member_of(m, "src")) {
        Ok(v) => v,
        Err(e) => return Err(e),
    };
    let (x, y) = match cell(xy, height, grid) {
        Ok(c) => c,
        Err(e) => return Err(e),
    };
    if uv.len() < 1 {
        return Err(Error::invalid_level("no u"));
    }
    let u = match as_i32(Some(&uv[0])) {
        Ok(n) => n,
        Err(e) => return Err(e),
    };
    if uv.len() < 2 {
        return Err(Error::invalid_level("no v"));
    }
    let v = match as_i32(Some(&uv[1])) {
        Ok(n) => n,
        Err(e) => return Err(e),
    };
    if u < 0 || v < 0 {
        return Err(Error::invalid_level("invalid tile source"));
    }
    match kind {
        None => Ok(None),
        Some(k) => Ok(
            Some(
                Spawn {
                    kind: k,
                    sheet: sheet.clone(),
                    x,
                    y,
                    part_x: u as u32,
                    part_y: v as u32,
                    part_size: grid as u32,
                },
            ),
        ),
    }
}

/// What the entity instances of a layer ask for.
fn plan_instances(insts: &Vec<Json>, height: i32, grid: i32) -> (r: Result<Vec<Spawn>, Error>)
    requires
        grid > 0,
    ensures
        follows_plans(
            r,
            collect_plans(insts@, insts@.len() as int, instance_planner(height as int, grid as int)),
        ),
{
    let ghost f = instance_planner(height as int, grid as int);
    let mut out: Vec<Spawn> = Vec::new();
    let mut i: usize = 0;
    assert(views(out@) =~= Seq::<SpawnView>::empty());
    while i < insts.len()
        invariant
            i <= insts@.len(),
            grid > 0,
            f == instance_planner(height as int, grid as int),
            collect_plans(insts@, i as int, f) == Ok::<Seq<SpawnView>, Seq<char>>(views(out@)),
        decreases insts@.len() - i,
    {
        let planned = plan_instance(&insts[i], height, grid);
        assert(f(insts@[i as int]) == instance_plan(insts@[i as int], height as int, grid as int));
        match planned {
            Err(e) => {
                proof {
                    lemma_collect_err(insts@, i + 1, insts@.len() as int, f);
                }
                return Err(e);
            },
            Ok(None) => {},
            Ok(Some(s)) => {
                let ghost before = out@;
                out.push(s);
                assert(views(out@) =~= views(before).push(s@));
            },
        }
        i = i + 1;
    }
    Ok(out)
}

/// What the tiles of a layer ask for.
fn plan_tiles(
    tiles: &Vec<Json>,
    kind: Option<SpawnKind>,
    sheet: &String,
    height: i32,
    grid: i32,
) -> (r: Result<Vec<Spawn>, Error>)
    requires
        grid > 0,
    ensures
        follows_plans(
            r,
            collect_plans(
                tiles@,
                tiles@.len() as int,
                tile_planner(kind, sheet@, height as int, grid as int),
            ),
        ),
{
    let ghost f = tile_planner(kind, sheet@, height as int, grid as int);
    let mut out: Vec<Spawn> = Vec::new();
    let mut i: usize = 0;
    assert(views(out@) =~= Seq::<SpawnView>::empty());
    while i < tiles.len()
        invariant
            i <= tiles@.len(),
            grid > 0,
            f == tile_planner(kind, sheet@, height as int, grid as int),
            collect_plans(tiles@, i as int, f) == Ok::<Seq<SpawnView>, Seq<char>>(views(out@)),
        decreases tiles@.len() - i,
    {
        let planned = plan_tile(&tiles[i], kind, sheet, height, grid);
        assert(f(tiles@[i as int]) == tile_plan(
            tiles@[i as int],
            kind,
            sheet@,
            height as int,
            grid as int,
        ));
        match planned {
            Err(e) => {
                proof {
                    lemma_collect_err(tiles@, i + 1, tiles@.len() as int, f);
                }
                return Err(e);
            },
            Ok(None) => {},
            Ok(Some(s)) => {
                let ghost before = out@;
                out.push(s);
                assert(views(out@) =~= views(before).push(s@));
            },
        }
        i = i + 1;
    }
    Ok(out)
}

/// What a layer asks for.
fn plan_layer(layer: &Json, height: i32) -> (r: Result<Vec<Spawn>, Error>)
    ensures
        follows_plans(r, layer_plan(*layer, height as int)),
{
    let m = match as_map(Some(layer)) {
        Ok(m) => m,
        Err(e) => return Err(e),
    };
    let layer_type = match as_str(member_of(m, "__type")) {
        Ok(s) => s,
        Err(e) => return Err(e),
    };
    if *layer_type == "Entities".to_owned() {
        let insts = match as_vec(member_of(m, "entityInstances")) {
            Ok(v) => v,
            Err(e) => return Err(e),
        };
        let grid = match grid_size(m) {
            Ok(g) => g,
            Err(e) => return Err(e),
        };
        plan_instances(insts, height, grid)
    } else if *layer_type == "Tiles".to_owned() {
        let identifier = match as_str(member_of(m, "__identifier")) {
            Ok(s) => s,
            Err(e) => return Err(e),
        };
        let sheet = match as_str(member_of(m, "__tilesetRelPath")) {
            Ok(s) => s,
            Err(e) => return Err(e),
        };
        let tiles = match as_vec(member_of(m, "gridTiles")) {
            Ok(v) => v,
            Err(e) => return Err(e),
        };
        let grid = match grid_size(m) {
            Ok(g) => g,
            Err(e) => return Err(e),
        };
        let kind = if *identifier == "Collisions".to_owned() {
            Some(SpawnKind::Wall)
        } else if *identifier == "Background".to_owned() {
            Some(SpawnKind::Floor)
        } else {
            None
        };
        plan_tiles(tiles, kind, sheet, height, grid)
    } else {
        Err(Error::invalid_level("invalid layer type"))
    }
}

/// Whether `level` is an object whose `identifier` is the string `name`.
fn level_named(level: &Json, name: &String) -> (r: bool)
    ensures
        r == is_level_named(*level, name@),
{
    match level {
        Json::Object(m) => match member_of(m, "identifier") {
            Some(Json::Str(s)) => *s == *name,
            _ => false,
        },
        _ => false,
    }
}

/// Everything that the level called `level_name` of document `doc` asks to
/// spawn, in the order of its layers and of their items; or the first
/// reason it cannot be built.
pub fn plan_level(doc: &Json, level_name: &str) -> (r: Result<Vec<Spawn>, Error>)
    ensures
        follows_plans(r, level_plan(*doc, level_name@)),
{
    let levels = match doc {
        Json::Object(fields) => match member_of(fields, "levels") {
            Some(Json::Array(levels)) => levels,
            _ => return Err(Error::invalid_level("levels are not present")),
        },
        _ => return Err(Error::invalid_level("levels are not present")),
    };
    let name = level_name.to_owned();
    let mut k: usize = 0;
    while k < levels.len() && !level_named(&levels[k], &name)
        invariant
            k <= levels@.len(),
            name@ == level_name@,
            forall|j: int| 0 <= j < k ==> !is_level_named(levels@[j], level_name@),
        decreases levels@.len() - k,
    {
        k = k + 1;
    }
    if k == levels.len() {
        return Err(Error::invalid_level("level not found"));
    }
    assert(find_level(levels@, level_name@) == Some(k as int)) by {
        let ls = levels@;
        assert(0 <= k < ls.len() && is_level_named(ls[k as int], level_name@) && forall|j: int|
            0 <= j < k ==> !is_level_named(ls[j], level_name@));
    }
    let level = match as_map(Some(&levels[k])) {
        Ok(m) => m,
        Err(e) => return Err(e),
    };
    let layers = match as_vec(member_of(level, "layerInstances")) {
        Ok(v) => v,
        Err(e) => return Err(e),
    };
    let height = match as_i32(member_of(level, "pxHei")) {
        Ok(n) => n,
        Err(e) => return Err(e),
    };
    let mut out: Vec<Spawn> = Vec::new();
    let mut i: usize = 0;
    assert(views(out@) =~= Seq::<SpawnView>::empty());
    assert(level_plan(*doc, level_name@) == layers_plan(layers@, layers@.len() as int, height as int));
    while i < layers.len()
        invariant
            i <= layers@.len(),
            level_plan(*doc, level_name@) == layers_plan(layers@, layers@.len() as int, height as int),
            layers_plan(layers@, i as int, height as int) == Ok::<Seq<SpawnView>, Seq<char>>(
                views(out@),
            ),
        decreases layers@.len() - i,
    {
        match plan_layer(&layers[i], height) {
            Err(e) => {
                proof {
                    lemma_layers_err(layers@, i + 1, layers@.len() as int, height as int);
                }
                return Err(e);
            },
            Ok(mut more) => {
                let ghost before = out@;
                let ghost added = more@;
                out.append(&mut more);
                assert(views(out@) =~= views(before) + views(added));
            },
        }
        i = i + 1;
    }
    Ok(out)
}

/// A box or a player is drawn with its own sheet.
pub open spec fn sheet_fits(v: SpawnView) -> bool {
    &&& v.kind == SpawnKind::Crate ==> v.sheet == box_sheet()
    &&& v.kind == SpawnKind::Player ==> v.sheet == player_sheet()
}

/// Every spawn collected from items fits its sheet when each item's does.
pub proof fn lemma_collect_fits(
    items: Seq<Json>,
    n: int,
    plan: spec_fn(Json) -> Result<Option<SpawnView>, Seq<char>>,
)
    requires
        forall|j: Json| (#[trigger] plan(j)) is Ok && plan(j)->Ok_0 is Some ==> sheet_fits(plan(j)->Ok_0->Some_0),
    ensures
        collect_plans(items, n, plan) matches Ok(s) ==> forall|k: int|
            0 <= k < s.len() ==> sheet_fits(#[trigger] s[k]),
    decreases n,
{
    if n > 0 {
        lemma_collect_fits(items, n - 1, plan);
        let r = plan(items[n - 1]);
        if let Ok(s) = collect_plans(items, n - 1, plan) {
            if let Ok(Some(v)) = r {
                assert(sheet_fits(v));
                assert forall|k: int| 0 <= k < s.len() + 1 implies sheet_fits(#[trigger] s.push(v)[k]) by {
                    if k < s.len() {
                        assert(s.push(v)[k] == s[k]);
                    }
                }
            }
        }
    }
}

/// Every spawn the first `n` layers ask for fits its sheet.
pub proof fn lemma_layers_fit(layers: Seq<Json>, n: int, height: int)
    ensures
        layers_plan(layers, n, height) matches Ok(s) ==> forall|k: int|
            0 <= k < s.len() ==> sheet_fits(#[trigger] s[k]),
    decreases n,
{
    if n > 0 {
        lemma_layers_fit(layers, n - 1, height);
        let layer = layers[n - 1];
        if let Ok(m) = spec_as_map(layer) {
            if let Ok(g) = grid_of(m) {
                if let Ok(insts) = spec_as_vec(member(m, "entityInstances"@)) {
                    let f = instance_planner(height, g as int);
                    assert forall|j: Json| (#[trigger] f(j)) is Ok && f(j)->Ok_0 is Some implies sheet_fits(f(j)->Ok_0->Some_0) by {}
                    lemma_collect_fits(insts, insts.len() as int, f);
                }
                if let Ok(id) = spec_as_str(member(m, "__identifier"@)) {
                    if let Ok(sheet) = spec_as_str(member(m, "__tilesetRelPath"@)) {
                        if let Ok(tiles) = spec_as_vec(member(m, "gridTiles"@)) {
                            let f = tile_planner(tile_kind(id), sheet, height, g as int);
                            assert forall|j: Json| (#[trigger] f(j)) is Ok && f(j)->Ok_0 is Some implies sheet_fits(f(j)->Ok_0->Some_0) by {}
                            lemma_collect_fits(tiles, tiles.len() as int, f);
                        }
                    }
                }
            }
        }
        if let Ok(s) = layers_plan(layers, n - 1, height) {
            if let Ok(t) = layer_plan(layer, height) {
                assert forall|k: int| 0 <= k < s.len() + t.len() implies sheet_fits(#[trigger] (s + t)[k]) by {
                    if k < s.len() {
                        assert((s + t)[k] == s[k]);
                    } else {
                        assert((s + t)[k] == t[k - s.len()]);
                    }
                }
            }
        }
    }
}

/// Every spawn a level asks for fits its sheet.
pub proof fn lemma_level_fits(doc: Json, name: Seq<char>)
    ensures
        level_plan(doc, name) matches Ok(s) ==> forall|k: int|
            0 <= k < s.len() ==> sheet_fits(#[trigger] s[k]),
{
    if let Json::Array(levels) = get(doc, "levels"@) {
        if let Some(k) = find_level(levels@, name) {
            if let Ok(m) = spec_as_map(levels@[k]) {
                if let Ok(layers) = spec_as_vec(member(m, "layerInstances"@)) {
                    if let Ok(h) = spec_as_i32(member(m, "pxHei"@)) {
                        lemma_layers_fit(layers, layers.len() as int, h as int);
                    }
                }
            }
        }
    }
}

/// Every planned spawn names a registered sheet.
pub open spec fn all_loaded(plan: Seq<SpawnView>, sheets: Seq<(Seq<char>, u32, u32)>) -> bool {
    forall|k: int| 0 <= k < plan.len() ==> first_named(sheets, (#[trigger] plan[k]).sheet) is Some
}

/// `e` is the entity that spawn `v` adds to a world with sheets `sheets`.
pub open spec fn spawned(e: Entity, v: SpawnView, sheets: Seq<(Seq<char>, u32, u32)>) -> bool {
    let tile = Sprite {
        texture: first_named(sheets, v.sheet)->Some_0 as usize,
        part_x: v.part_x,
        part_y: v.part_y,
        part_w: v.part_size,
        part_h: v.part_size,
    };
    match v.kind {
        SpawnKind::Wall => e == still_entity(v.x, v.y, WALL_LAYER, tile, false, true),
        SpawnKind::Floor => e == still_entity(v.x, v.y, FLOOR_LAYER, tile, false, false),
        SpawnKind::Crate => e == still_entity(
            v.x,
            v.y,
            ENTITY_LAYER,
            Sprite {
                texture: first_named(sheets, box_sheet())->Some_0 as usize,
                part_x: 0,
                part_y: 0,
                part_w: BOX_SPRITE_SIZE,
                part_h: BOX_SPRITE_SIZE,
            },
            true,
            false,
        ),
        SpawnKind::Player => is_new_player(e, v.x, v.y, sheets),
    }
}

/// `after` is `before` followed by the entities that `plan` spawns.
pub open spec fn built(
    before: Seq<Entity>,
    after: Seq<Entity>,
    plan: Seq<SpawnView>,
    sheets: Seq<(Seq<char>, u32, u32)>,
) -> bool {
    &&& after.len() == before.len() + plan.len()
    &&& after.take(before.len() as int) == before
    &&& forall|k: int|
        0 <= k < plan.len() ==> spawned(#[trigger] after[before.len() + k], plan[k], sheets)
}

/// Adds the entity that spawn `s` asks for.
fn apply_spawn(world: &mut World, s: &Spawn)
    requires
        sheet_fits(s@),
        first_named(old(world).sprites@, s@.sheet) is Some,
    ensures
        final(world).entities@.len() == old(world).entities@.len() + 1,
        final(world).entities@.drop_last() == old(world).entities@,
        spawned(final(world).entities@.last(), s@, old(world).sprites@),
        final(world).sprites == old(world).sprites,
        final(world).inputs == old(world).inputs,
{
    match s.kind {
        SpawnKind::Wall => world.spawn_wall(
            s.sheet.as_str(),
            s.x,
            s.y,
            (s.part_x, s.part_y),
            (s.part_size, s.part_size),
        ),
        SpawnKind::Floor => world.spawn_floor(
            s.sheet.as_str(),
            s.x,
            s.y,
            (s.part_x, s.part_y),
            (s.part_size, s.part_size),
        ),
        SpawnKind::Crate => world.spawn_box(s.x, s.y),
        SpawnKind::Player => world.spawn_player(s.x, s.y),
    }
    assert(world.entities@.drop_last() =~= old(world).entities@);
}

/// Builds the level called `level_name` of the level file `bytes` into
/// `world`. The world changes only when the whole level can be built: the
/// file is JSON, the level is found and well-formed, and every sheet it
/// draws with is registered.
pub fn load(world: &mut World, bytes: &[u8], level_name: &str) -> (r: Result<(), Error>)
    ensures
        final(world).sprites == old(world).sprites,
        final(world).inputs == old(world).inputs,
        r is Err ==> final(world).entities == old(world).entities,
        parsed_json(bytes@) is None ==> r matches Err(Error::InvalidJson(_)),
        parsed_json(bytes@) matches Some(doc) ==> match level_plan(doc, level_name@) {
            Err(m) => r matches Err(Error::InvalidLevel(t)) && t@ == m,
            Ok(plan) => if all_loaded(plan, old(world).sprites@) {
                r is Ok && built(
                    old(world).entities@,
                    final(world).entities@,
                    plan,
                    old(world).sprites@,
                )
            } else {
                r matches Err(Error::InvalidLevel(t)) && t@ == "sprite not loaded"@
            },
        },
{
    let doc = match read_json(bytes) {
        Ok(d) => d,
        Err(e) => return Err(e),
    };
    let plan = match plan_level(&doc, level_name) {
        Ok(p) => p,
        Err(e) => return Err(e),
    };
    let ghost pv = views(plan@);
    proof {
        lemma_level_fits(doc, level_name@);
    }
    let mut k: usize = 0;
    while k < plan.len()
        invariant
            k <= plan@.len(),
            pv == views(plan@),
            parsed_json(bytes@) == Some(doc),
            level_plan(doc, level_name@) == Ok::<Seq<SpawnView>, Seq<char>>(pv),
            world.entities == old(world).entities,
            world.sprites == old(world).sprites,
            world.inputs == old(world).inputs,
            forall|j: int| 0 <= j < k ==> first_named(world.sprites@, (#[trigger] pv[j]).sheet) is Some,
        decreases plan@.len() - k,
    {
        if world.sprites.get(plan[k].sheet.as_str()).is_none() {
            assert(pv[k as int].sheet == plan@[k as int].sheet@);
            assert(!all_loaded(pv, world.sprites@));
            return Err(Error::invalid_level("sprite not loaded"));
        }
        k = k + 1;
    }
    let ghost start = world.entities@;
    let n0 = world.entities.len();
    let mut i: usize = 0;
    assert(world.entities@.take(n0 as int) =~= start);
    while i < plan.len()
        invariant
            i <= plan@.len(),
            pv == views(plan@),
            forall|j: int| 0 <= j < pv.len() ==> sheet_fits(#[trigger] pv[j]),
            all_loaded(pv, world.sprites@),
            world.sprites == old(world).sprites,
            world.inputs == old(world).inputs,
            n0 == start.len(),
            world.entities@.len() == n0 + i,
            world.entities@.take(n0 as int) == start,
            forall|j: int| 0 <= j < i ==> spawned(#[trigger] world.entities@[n0 + j], pv[j], world.sprites@),
        decreases plan@.len() - i,
    {
        let ghost before = world.entities@;
        assert(pv[i as int] == plan@[i as int]@);
        apply_spawn(world, &plan[i]);
        assert(world.entities@.drop_last() == before);
        assert(world.entities@.take(n0 as int) =~= start) by {
            assert(world.entities@.take(n0 as int) =~= before.take(n0 as int));
        }
        assert forall|j: int| 0 <= j < i + 1 implies spawned(
            #[trigger] world.entities@[n0 + j],
            pv[j],
            world.sprites@,
        ) by {
            if j < i {
                assert(world.entities@[n0 + j] == before[n0 + j]);
            }
        }
        i = i + 1;
    }
    Ok(())
}

} // verus!
