use box_pusher::components::Direction;
use box_pusher::components::Entity;
use box_pusher::components::Position;
use box_pusher::input_system::InputSystem;
use box_pusher::move_system::can_move;
use box_pusher::move_system::MoveSystem;
use box_pusher::resources::Button;
use box_pusher::world::World;

fn world_with_sheets() -> World {
    let mut world = World::new().unwrap();
    world.add_sprite("player.png".to_string(), 96, 96);
    world.add_sprite("box.png".to_string(), 16, 16);
    world.add_sprite("tiles.png".to_string(), 64, 64);
    world
}

fn hold(world: &mut World, up: bool, down: bool, left: bool, right: bool) {
    let mut input = InputSystem { up, down, left, right };
    input.run(world);
}

fn pos(world: &World, i: usize) -> Position {
    world.entities[i].position
}

#[test]
fn player_steps_up_into_free_cell() {
    let mut world = world_with_sheets();
    world.spawn_player(0, 0);
    hold(&mut world, true, false, false, false);
    MoveSystem {}.run(&mut world);
    let p = pos(&world, 0);
    assert_eq!((p.x, p.y), (0, 1));
    assert_eq!(p.direction, Direction::Up);
    // moved one tile, then slid one step back toward the cell
    assert_eq!((p.offset_x, p.offset_y), (0, -9));
}

#[test]
fn player_steps_in_each_direction() {
    let cases = [
        ((false, true, false, false), (0, -1), (0, 9), Direction::Down),
        ((false, false, true, false), (-1, 0), (9, 0), Direction::Left),
        ((false, false, false, true), (1, 0), (-9, 0), Direction::Right),
    ];
    for ((u, d, l, r), cell, offset, dir) in cases {
        let mut world = world_with_sheets();
        world.spawn_player(0, 0);
        hold(&mut world, u, d, l, r);
        MoveSystem {}.run(&mut world);
        let p = pos(&world, 0);
        assert_eq!((p.x, p.y), cell);
        assert_eq!((p.offset_x, p.offset_y), offset);
        assert_eq!(p.direction, dir);
    }
}

#[test]
fn wall_blocks_the_player() {
    let mut world = world_with_sheets();
    world.spawn_player(0, 0);
    world.spawn_wall("tiles.png", 0, 1, (0, 0), (16, 16));
    hold(&mut world, true, false, false, false);
    MoveSystem {}.run(&mut world);
    let p = pos(&world, 0);
    assert_eq!((p.x, p.y, p.offset_x, p.offset_y), (0, 0, 0, 0));
    assert_eq!(p.direction, Direction::Down);
}

#[test]
fn floor_does_not_block() {
    let mut world = world_with_sheets();
    world.spawn_player(0, 0);
    world.spawn_floor("tiles.png", 0, 1, (0, 0), (16, 16));
    hold(&mut world, true, false, false, false);
    MoveSystem {}.run(&mut world);
    assert_eq!((pos(&world, 0).x, pos(&world, 0).y), (0, 1));
}

#[test]
fn player_pushes_box() {
    let mut world = world_with_sheets();
    world.spawn_player(0, 0);
    world.spawn_box(1, 0);
    hold(&mut world, false, false, false, true);
    MoveSystem {}.run(&mut world);
    let p = pos(&world, 0);
    let b = pos(&world, 1);
    assert_eq!((p.x, p.y), (1, 0));
    assert_eq!((b.x, b.y), (2, 0));
    assert_eq!((b.offset_x, b.offset_y), (-9, 0));
    assert_eq!(b.direction, Direction::Right);
}

#[test]
fn box_against_wall_does_not_move() {
    let mut world = world_with_sheets();
    world.spawn_player(0, 0);
    world.spawn_box(1, 0);
    world.spawn_wall("tiles.png", 2, 0, (0, 0), (16, 16));
    hold(&mut world, false, false, false, true);
    MoveSystem {}.run(&mut world);
    assert_eq!((pos(&world, 0).x, pos(&world, 1).x), (0, 1));
}

#[test]
fn box_against_box_does_not_move() {
    let mut world = world_with_sheets();
    world.spawn_player(0, 0);
    world.spawn_box(0, -1);
    world.spawn_box(0, -2);
    hold(&mut world, false, true, false, false);
    MoveSystem {}.run(&mut world);
    assert_eq!(pos(&world, 0).y, 0);
    assert_eq!(pos(&world, 1).y, -1);
    assert_eq!(pos(&world, 2).y, -2);
}

#[test]
fn moving_player_waits_until_at_rest() {
    let mut world = world_with_sheets();
    world.spawn_player(0, 0);
    hold(&mut world, true, false, false, false);
    MoveSystem {}.run(&mut world);
    for _ in 0..8 {
        MoveSystem {}.run(&mut world);
        assert_eq!(pos(&world, 0).y, 1);
    }
    assert_eq!(pos(&world, 0).offset_y, -1);
    // last step of the slide: the player is still off its cell this frame
    MoveSystem {}.run(&mut world);
    assert_eq!((pos(&world, 0).y, pos(&world, 0).offset_y), (1, 0));
    // at rest again: the held button takes the next step
    MoveSystem {}.run(&mut world);
    assert_eq!((pos(&world, 0).y, pos(&world, 0).offset_y), (2, -9));
}

#[test]
fn nothing_held_nothing_moves() {
    let mut world = world_with_sheets();
    world.spawn_player(3, 4);
    world.spawn_box(3, 5);
    hold(&mut world, false, false, false, false);
    MoveSystem {}.run(&mut world);
    assert_eq!((pos(&world, 0).x, pos(&world, 0).y), (3, 4));
    assert_eq!((pos(&world, 1).x, pos(&world, 1).y), (3, 5));
}

#[test]
fn two_held_buttons_take_two_steps() {
    let mut world = world_with_sheets();
    world.spawn_player(0, 0);
    hold(&mut world, true, false, false, true);
    MoveSystem {}.run(&mut world);
    let p = pos(&world, 0);
    assert_eq!((p.x, p.y), (1, 1));
    assert_eq!((p.offset_x, p.offset_y), (-9, -9));
    assert_eq!(p.direction, Direction::Right);
}

#[test]
fn edge_of_the_grid_blocks() {
    let mut world = world_with_sheets();
    world.spawn_player(i32::MAX, 0);
    world.spawn_player(0, i32::MAX - 1);
    world.spawn_box(0, i32::MAX);
    hold(&mut world, true, false, false, true);
    MoveSystem {}.run(&mut world);
    // the first player steps up only; the second can push nowhere upward
    assert_eq!((pos(&world, 0).x, pos(&world, 0).y), (i32::MAX, 1));
    assert_eq!((pos(&world, 1).x, pos(&world, 1).y), (1, i32::MAX - 1));
    assert_eq!((pos(&world, 2).x, pos(&world, 2).y), (0, i32::MAX));
}

#[test]
fn can_move_reports_blocking() {
    let mut world = world_with_sheets();
    world.spawn_box(1, 0);
    world.spawn_wall("tiles.png", 0, 1, (0, 0), (16, 16));
    world.spawn_box(-1, 0);
    world.spawn_box(-2, 0);
    let ents: &Vec<Entity> = &world.entities;
    assert!(can_move(ents, Direction::Right, 0, 0));
    assert!(!can_move(ents, Direction::Up, 0, 0));
    assert!(!can_move(ents, Direction::Left, 0, 0));
    assert!(can_move(ents, Direction::Down, 0, 0));
}

#[test]
fn inputs_follow_held_buttons() {
    let mut world = world_with_sheets();
    hold(&mut world, true, false, true, false);
    assert!(world.inputs.is_pressed(Button::Up));
    assert!(world.inputs.is_pressed(Button::Left));
    assert!(!world.inputs.is_pressed(Button::Down));
    hold(&mut world, false, true, false, false);
    assert!(!world.inputs.is_pressed(Button::Up));
    assert!(!world.inputs.is_pressed(Button::Left));
    assert!(world.inputs.is_pressed(Button::Down));
    assert!(!world.inputs.is_pressed(Button::Right));
}

#[test]
fn walls_and_floors_never_move() {
    let mut world = world_with_sheets();
    world.spawn_wall("tiles.png", 1, 0, (0, 0), (16, 16));
    world.spawn_floor("tiles.png", 0, 0, (0, 0), (16, 16));
    world.spawn_player(0, 0);
    world.spawn_box(0, 1);
    for (up, down, left, right) in [(false, false, false, true), (true, false, false, false), (false, true, true, false)] {
        hold(&mut world, up, down, left, right);
        for _ in 0..12 {
            MoveSystem {}.run(&mut world);
        }
    }
    assert_eq!((pos(&world, 0).x, pos(&world, 0).y, pos(&world, 0).direction), (1, 0, Direction::Right));
    assert_eq!((pos(&world, 1).x, pos(&world, 1).y, pos(&world, 1).direction), (0, 0, Direction::Right));
    // the player pushed the box up twice, then stepped down and left at once
    assert_eq!((pos(&world, 3).x, pos(&world, 3).y), (0, 3));
    assert_eq!((pos(&world, 2).x, pos(&world, 2).y), (-1, 1));
}
