use box_pusher::components::Direction;
use box_pusher::error::Error;
use box_pusher::json::read_json;
use box_pusher::json::Json;
use box_pusher::level::load;
use box_pusher::level::plan_level;
use box_pusher::level::SpawnKind;
use box_pusher::world::World;

const LEVELS: &str = r#"{
  "levels": [
    { "identifier": "Other", "pxHei": 32, "layerInstances": [] },
    { "identifier": "Test", "pxHei": 48, "layerInstances": [
      { "__type": "Entities", "__gridSize": 16, "entityInstances": [
        { "__identifier": "Player", "px": [16, 32] },
        { "__identifier": "Box", "px": [32, 32] },
        { "__identifier": "Sign", "px": [0, 0] }
      ] },
      { "__type": "Tiles", "__identifier": "Collisions", "__tilesetRelPath": "tiles.png",
        "__gridSize": 16, "gridTiles": [ { "px": [0, 16], "src": [16, 0] } ] },
      { "__type": "Tiles", "__identifier": "Background", "__tilesetRelPath": "tiles.png",
        "__gridSize": 16, "gridTiles": [ { "px": [16, 64], "src": [0, 16] } ] },
      { "__type": "Tiles", "__identifier": "Decor", "__tilesetRelPath": "tiles.png",
        "__gridSize": 16, "gridTiles": [ { "px": [0, 0], "src": [0, 0] } ] }
    ] }
  ]
}"#;

fn loaded_world() -> World {
    let mut world = World::new().unwrap();
    world.add_sprite("player.png".to_string(), 96, 96);
    world.add_sprite("box.png".to_string(), 16, 16);
    world.add_sprite("tiles.png".to_string(), 64, 64);
    world
}

fn level_error(text: &str, name: &str) -> Error {
    let doc = read_json(text.as_bytes()).unwrap();
    plan_level(&doc, name).unwrap_err()
}

fn invalid(message: &str) -> Error {
    Error::InvalidLevel(message.to_string())
}

#[test]
fn reads_json_nodes() {
    let doc = read_json(br#"{"a": [1, -2, 2.5, 99999999999999999999], "b": "x", "c": null, "d": true}"#)
        .unwrap();
    match doc {
        Json::Object(fields) => {
            assert_eq!(fields.len(), 4);
            match &fields[0].1 {
                Json::Array(items) => {
                    assert!(matches!(items[0], Json::Number(Some(1))));
                    assert!(matches!(items[1], Json::Number(Some(-2))));
                    assert!(matches!(items[2], Json::Number(None)));
                    assert!(matches!(items[3], Json::Number(None)));
                },
                _ => panic!("not an array"),
            }
            assert!(matches!(&fields[1].1, Json::Str(s) if s == "x"));
            assert!(matches!(fields[2].1, Json::Null));
            assert!(matches!(fields[3].1, Json::Bool(true)));
        },
        _ => panic!("not an object"),
    }
}

#[test]
fn malformed_json_is_rejected() {
    assert!(matches!(read_json(b"{\"levels\": ["), Err(Error::InvalidJson(_))));
    let mut world = loaded_world();
    assert!(matches!(load(&mut world, b"not json", "Test"), Err(Error::InvalidJson(_))));
    assert!(world.entities.is_empty());
}

#[test]
fn plans_the_named_level() {
    let doc = read_json(LEVELS.as_bytes()).unwrap();
    let plan = plan_level(&doc, "Test").unwrap();
    let got: Vec<(SpawnKind, String, i32, i32, u32, u32, u32)> = plan
        .iter()
        .map(|s| (s.kind, s.sheet.clone(), s.x, s.y, s.part_x, s.part_y, s.part_size))
        .collect();
    assert_eq!(
        got,
        vec![
            (SpawnKind::Player, "player.png".to_string(), 1, 1, 0, 0, 0),
            (SpawnKind::Crate, "box.png".to_string(), 2, 1, 0, 0, 0),
            (SpawnKind::Wall, "tiles.png".to_string(), 0, 2, 16, 0, 16),
            (SpawnKind::Floor, "tiles.png".to_string(), 1, -1, 0, 16, 16),
        ]
    );
    assert!(plan_level(&doc, "Other").unwrap().is_empty());
}

#[test]
fn loads_the_level_into_the_world() {
    let mut world = loaded_world();
    load(&mut world, LEVELS.as_bytes(), "Test").unwrap();
    assert_eq!(world.entities.len(), 4);
    let player = &world.entities[0];
    assert!(player.player.is_some());
    assert_eq!((player.position.x, player.position.y), (1, 1));
    assert_eq!(player.position.direction, Direction::Down);
    let crate_ = &world.entities[1];
    assert!(crate_.movable.is_some());
    assert_eq!(crate_.sprite.unwrap().texture, 1);
    assert_eq!((crate_.sprite.unwrap().part_w, crate_.sprite.unwrap().part_h), (16, 16));
    let wall = &world.entities[2];
    assert!(wall.immovable.is_some());
    assert_eq!((wall.position.x, wall.position.y, wall.position.z), (0, 2, 2));
    let s = wall.sprite.unwrap();
    assert_eq!((s.texture, s.part_x, s.part_y, s.part_w, s.part_h), (2, 16, 0, 16, 16));
    let floor = &world.entities[3];
    assert!(floor.immovable.is_none() && floor.movable.is_none());
    assert_eq!((floor.position.x, floor.position.y, floor.position.z), (1, -1, 3));
}

#[test]
fn missing_sheet_leaves_world_unchanged() {
    let mut world = World::new().unwrap();
    world.add_sprite("player.png".to_string(), 96, 96);
    world.add_sprite("box.png".to_string(), 16, 16);
    world.spawn_player(5, 5);
    let r = load(&mut world, LEVELS.as_bytes(), "Test");
    assert_eq!(r, Err(invalid("sprite not loaded")));
    assert_eq!(world.entities.len(), 1);
}

#[test]
fn level_errors() {
    assert_eq!(level_error(r#"{"other": []}"#, "Test"), invalid("levels are not present"));
    assert_eq!(level_error(r#"[1, 2]"#, "Test"), invalid("levels are not present"));
    assert_eq!(level_error(LEVELS, "Nope"), invalid("level not found"));
    assert_eq!(
        level_error(r#"{"levels": [{"identifier": "T", "pxHei": 16}]}"#, "T"),
        invalid("invalid vec")
    );
    assert_eq!(
        level_error(r#"{"levels": [{"identifier": "T", "pxHei": 1.5, "layerInstances": []}]}"#, "T"),
        invalid("invalid i32")
    );
    assert_eq!(
        level_error(
            r#"{"levels": [{"identifier": "T", "pxHei": 16, "layerInstances": [{"__type": "IntGrid"}]}]}"#,
            "T"
        ),
        invalid("invalid layer type")
    );
    assert_eq!(
        level_error(
            r#"{"levels": [{"identifier": "T", "pxHei": 16, "layerInstances": [7]}]}"#,
            "T"
        ),
        invalid("invalid map")
    );
    assert_eq!(
        level_error(
            r#"{"levels": [{"identifier": "T", "pxHei": 16, "layerInstances": [{"__type": 3}]}]}"#,
            "T"
        ),
        invalid("invalid str")
    );
}

fn entity_layer(instances: &str, grid: &str) -> String {
    format!(
        r#"{{"levels": [{{"identifier": "T", "pxHei": 32, "layerInstances": [
            {{"__type": "Entities", "__gridSize": {}, "entityInstances": [{}]}}]}}]}}"#,
        grid, instances
    )
}

fn tile_layer(tiles: &str) -> String {
    format!(
        r#"{{"levels": [{{"identifier": "T", "pxHei": 32, "layerInstances": [
            {{"__type": "Tiles", "__identifier": "Collisions", "__tilesetRelPath": "t.png",
              "__gridSize": 16, "gridTiles": [{}]}}]}}]}}"#,
        tiles
    )
}

#[test]
fn position_errors() {
    let no_y = entity_layer(r#"{"__identifier": "Box", "px": [16]}"#, "16");
    assert_eq!(level_error(&no_y, "T"), invalid("no y"));
    let no_x = entity_layer(r#"{"__identifier": "Box", "px": []}"#, "16");
    assert_eq!(level_error(&no_x, "T"), invalid("no x"));
    let bad_x = entity_layer(r#"{"__identifier": "Box", "px": ["a", 1]}"#, "16");
    assert_eq!(level_error(&bad_x, "T"), invalid("invalid i32"));
    let big = entity_layer(r#"{"__identifier": "Box", "px": [4294967296, 1]}"#, "16");
    assert_eq!(level_error(&big, "T"), invalid("invalid i32"));
    let no_grid = entity_layer(r#"{"__identifier": "Box", "px": [0, 0]}"#, "0");
    assert_eq!(level_error(&no_grid, "T"), invalid("invalid grid size"));
    let far = entity_layer(r#"{"__identifier": "Box", "px": [-2147483648, 0]}"#, "1");
    let doc = read_json(far.as_bytes()).unwrap();
    assert_eq!(plan_level(&doc, "T").unwrap()[0].x, i32::MIN);
    let too_far = entity_layer(r#"{"__identifier": "Box", "px": [0, -2147483648]}"#, "1");
    assert_eq!(level_error(&too_far, "T"), invalid("position out of range"));
}

#[test]
fn tile_errors() {
    assert_eq!(level_error(&tile_layer(r#"{"px": [0, 0], "src": [16]}"#), "T"), invalid("no v"));
    assert_eq!(level_error(&tile_layer(r#"{"px": [0, 0], "src": []}"#), "T"), invalid("no u"));
    assert_eq!(
        level_error(&tile_layer(r#"{"px": [0, 0], "src": [-16, 0]}"#), "T"),
        invalid("invalid tile source")
    );
    assert_eq!(level_error(&tile_layer(r#"{"px": [0, 0]}"#), "T"), invalid("invalid vec"));
}

#[test]
fn cells_round_down() {
    let text = entity_layer(
        r#"{"__identifier": "Box", "px": [-1, 33]}, {"__identifier": "Player", "px": [31, 0]}"#,
        "16",
    );
    let doc = read_json(text.as_bytes()).unwrap();
    let plan = plan_level(&doc, "T").unwrap();
    // x -1 lies in cell -1; y counts up from the bottom: 32 - 33 = -1, cell -1
    assert_eq!((plan[0].x, plan[0].y), (-1, -1));
    assert_eq!((plan[1].x, plan[1].y), (1, 2));
}
