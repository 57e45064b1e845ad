use box_pusher::draw_system::DrawSystem;
use box_pusher::move_system::MoveSystem;
use box_pusher::input_system::InputSystem;
use box_pusher::world::World;

#[test]
fn draws_back_to_front_in_entity_order() {
    let mut world = World::new().unwrap();
    world.add_sprite("player.png".to_string(), 96, 96);
    world.add_sprite("box.png".to_string(), 16, 16);
    world.add_sprite("tiles.png".to_string(), 64, 64);
    world.spawn_player(0, 0);
    world.spawn_floor("tiles.png", 0, 0, (0, 0), (16, 16));
    world.spawn_wall("tiles.png", 1, 0, (16, 0), (16, 16));
    world.spawn_floor("tiles.png", 0, 1, (0, 16), (16, 16));
    world.spawn_box(0, 1);
    let calls = DrawSystem { view_width: 160, view_height: 144, tile_size: 16 }.run(&world);
    let order: Vec<usize> = calls.iter().map(|c| c.entity).collect();
    assert_eq!(order, vec![1, 3, 2, 0, 4]);
    let wall = calls[2];
    assert_eq!((wall.x, wall.y, wall.z), (160, 0, 2));
    assert_eq!((wall.texture, wall.part_x, wall.part_y, wall.part_w, wall.part_h), (2, 16, 0, 16, 16));
    let floor = calls[1];
    assert_eq!((floor.x, floor.y), (0, 160));
}

#[test]
fn drawing_follows_the_sliding_offset() {
    let mut world = World::new().unwrap();
    world.add_sprite("player.png".to_string(), 96, 96);
    world.spawn_player(2, 3);
    InputSystem { up: false, down: false, left: true, right: false }.run(&mut world);
    MoveSystem {}.run(&mut world);
    let calls = DrawSystem { view_width: 160, view_height: 144, tile_size: 16 }.run(&world);
    assert_eq!(calls.len(), 1);
    // cell 1 plus 9 tenths of a tile, in tenths of a pixel
    assert_eq!((calls[0].x, calls[0].y), ((10 + 9) * 16, 30 * 16));
}

#[test]
fn empty_world_draws_nothing() {
    let world = World::new().unwrap();
    let calls = DrawSystem { view_width: 160, view_height: 144, tile_size: 16 }.run(&world);
    assert!(calls.is_empty());
}
