use box_pusher::animate_system::AnimateSystem;
use box_pusher::components::Animation;
use box_pusher::components::Animations;
use box_pusher::components::Entity;
use box_pusher::components::Position;
use box_pusher::components::Direction;
use box_pusher::components::Sprite;
use box_pusher::input_system::InputSystem;
use box_pusher::move_system::MoveSystem;
use box_pusher::world::World;

fn player_world() -> World {
    let mut world = World::new().unwrap();
    world.add_sprite("player.png".to_string(), 96, 96);
    world.spawn_player(0, 0);
    world
}

fn current(world: &World, i: usize) -> (String, u64) {
    let a = world.entities[i].animations.as_ref().unwrap();
    (a.current_animation.clone(), a.time)
}

fn part(world: &World, i: usize) -> (u32, u32, u32, u32) {
    let s = world.entities[i].sprite.unwrap();
    (s.part_x, s.part_y, s.part_w, s.part_h)
}

#[test]
fn spawned_player_has_its_animations() {
    let world = player_world();
    let a = world.entities[0].animations.as_ref().unwrap();
    assert_eq!(a.columns, 6);
    assert_eq!(a.rows, 6);
    assert_eq!(a.current_animation, "idle-down");
    assert_eq!(a.animations.len(), 9);
    assert_eq!(a.animations[4].0, "walk-down");
    assert_eq!(a.animations[4].1.duration, 150);
    assert_eq!(a.animations[4].1.frames, vec![8, 9, 10, 11]);
    assert_eq!(a.animations[8].1.frames, vec![24, 25, 26, 27, 28, 29]);
}

#[test]
fn idle_player_shows_idle_frames() {
    let mut world = player_world();
    AnimateSystem { delta_time: 100 }.run(&mut world);
    assert_eq!(current(&world, 0), ("idle-down".to_string(), 100));
    // a 96 pixel sheet cut in 6 by 6 cells of 16 pixels; frame 0
    assert_eq!(part(&world, 0), (0, 0, 16, 16));
    AnimateSystem { delta_time: 500 }.run(&mut world);
    // 600 ms into 500 ms frames: the second frame, frame 1
    assert_eq!(current(&world, 0), ("idle-down".to_string(), 600));
    assert_eq!(part(&world, 0), (16, 0, 16, 16));
    AnimateSystem { delta_time: 400 }.run(&mut world);
    // 1000 ms: the loop starts over
    assert_eq!(part(&world, 0), (0, 0, 16, 16));
}

#[test]
fn moving_player_walks_and_restarts_its_clock() {
    let mut world = player_world();
    AnimateSystem { delta_time: 300 }.run(&mut world);
    InputSystem { up: false, down: false, left: false, right: true }.run(&mut world);
    MoveSystem {}.run(&mut world);
    AnimateSystem { delta_time: 160 }.run(&mut world);
    assert_eq!(current(&world, 0), ("walk-right".to_string(), 160));
    // walk-right frames 16..19 at 150 ms: frame 17, column 5, row 2
    assert_eq!(part(&world, 0), (80, 32, 16, 16));
}

#[test]
fn resting_player_faces_its_last_direction() {
    let mut world = player_world();
    world.entities[0].position.direction = Direction::Left;
    AnimateSystem { delta_time: 10 }.run(&mut world);
    assert_eq!(current(&world, 0), ("idle-left".to_string(), 10));
    // idle-left frames 6 and 7: frame 6, column 0, row 1
    assert_eq!(part(&world, 0), (0, 16, 16, 16));
}

fn animated_entity(name: &str, duration: u32, frames: Vec<usize>) -> Entity {
    Entity {
        position: Position::at(0, 0, 1, Direction::Right),
        sprite: Some(Sprite { texture: 0, part_x: 0, part_y: 0, part_w: 0, part_h: 0 }),
        animations: Some(Animations {
            columns: 2,
            rows: 2,
            time: 0,
            animations: vec![(name.to_string(), Animation { duration, frames })],
            current_animation: "spin".to_string(),
        }),
        player: None,
        movable: None,
        immovable: None,
    }
}

#[test]
fn other_entities_keep_their_animation() {
    let mut world = World::new().unwrap();
    world.add_sprite("spin.png".to_string(), 40, 20);
    world.entities.push(animated_entity("spin", 100, vec![0, 3]));
    AnimateSystem { delta_time: 150 }.run(&mut world);
    assert_eq!(current(&world, 0), ("spin".to_string(), 150));
    // frame 3 of a 2 by 2 grid over 40 by 20 pixels
    assert_eq!(part(&world, 0), (20, 10, 20, 10));
}

#[test]
fn still_or_unknown_animations_change_nothing() {
    let mut world = World::new().unwrap();
    world.add_sprite("spin.png".to_string(), 40, 20);
    world.entities.push(animated_entity("spin", 0, vec![0, 3]));
    world.entities.push(animated_entity("other", 100, vec![1]));
    world.entities.push(animated_entity("spin", 100, vec![]));
    AnimateSystem { delta_time: 150 }.run(&mut world);
    for i in 0..3 {
        assert_eq!(current(&world, i), ("spin".to_string(), 0));
        assert_eq!(part(&world, i), (0, 0, 0, 0));
    }
}

#[test]
fn frame_off_the_sheet_keeps_the_sprite() {
    let mut world = World::new().unwrap();
    world.add_sprite("spin.png".to_string(), 40, 20);
    world.entities.push(animated_entity("spin", 100, vec![4]));
    AnimateSystem { delta_time: 50 }.run(&mut world);
    assert_eq!(current(&world, 0), ("spin".to_string(), 50));
    assert_eq!(part(&world, 0), (0, 0, 0, 0));
}

#[test]
fn clock_saturates() {
    let mut world = World::new().unwrap();
    world.add_sprite("spin.png".to_string(), 40, 20);
    let mut e = animated_entity("spin", 100, vec![0, 1]);
    e.animations.as_mut().unwrap().time = u64::MAX - 5;
    world.entities.push(e);
    AnimateSystem { delta_time: 50 }.run(&mut world);
    assert_eq!(current(&world, 0).1, u64::MAX);
}
