use poopy_snake::{Direction, GameStatus, SnakeCell, World, WorldError};

fn started(width: usize, spawn_index: usize) -> World {
    let mut world = World::new(width, spawn_index).expect("valid configuration");
    world.start_game();
    world
}

fn go(world: &mut World, direction: Direction) {
    world.set_snake_direction(direction);
    world.step();
}

#[test]
fn new_world_has_initial_state() {
    let world = World::new(5, 7).expect("valid configuration");
    assert_eq!(world.get_width(), 5);
    assert_eq!(world.get_snake_length(), 3);
    assert_eq!(world.get_snake_cells(), vec![7, 6, 5]);
    assert_eq!(world.get_snake_head_index(), Some(7));
    assert_eq!(world.get_reward_cell(), None);
    assert_eq!(world.get_poop_cell(), None);
    assert_eq!(world.get_points(), 0);
    assert_eq!(world.get_game_status(), None);
    assert!(world.needs_reward());
}

#[test]
fn new_rejects_spawn_below_initial_body() {
    assert!(matches!(World::new(5, 0), Err(WorldError::InvalidConfiguration)));
    assert!(matches!(World::new(5, 1), Err(WorldError::InvalidConfiguration)));
    assert!(World::new(5, 2).is_ok());
}

#[test]
fn new_rejects_spawn_outside_grid() {
    assert!(matches!(World::new(3, 9), Err(WorldError::InvalidConfiguration)));
    assert!(World::new(3, 8).is_ok());
    assert!(matches!(World::new(0, 0), Err(WorldError::InvalidConfiguration)));
    assert!(matches!(World::new(1, 2), Err(WorldError::InvalidConfiguration)));
}

#[test]
fn new_rejects_grid_too_large_to_address() {
    assert!(matches!(World::new(usize::MAX, 2), Err(WorldError::InvalidConfiguration)));
}

#[test]
fn right_wraps_within_the_row() {
    let mut world = started(5, 4);
    world.step();
    assert_eq!(world.get_snake_head_index(), Some(0));
    let mut lower = started(5, 9);
    lower.step();
    assert_eq!(lower.get_snake_head_index(), Some(5));
}

#[test]
fn right_moves_one_cell_inside_the_row() {
    let mut world = started(5, 2);
    world.step();
    assert_eq!(world.get_snake_head_index(), Some(3));
    assert_eq!(world.get_snake_cells(), vec![3, 2, 1]);
}

#[test]
fn left_wraps_within_the_row() {
    // Reach cell 0 heading down, then turn left.
    let mut world = started(5, 2);
    go(&mut world, Direction::Up);
    assert_eq!(world.get_snake_head_index(), Some(22));
    go(&mut world, Direction::Left);
    assert_eq!(world.get_snake_head_index(), Some(21));
    go(&mut world, Direction::Left);
    assert_eq!(world.get_snake_head_index(), Some(20));
    go(&mut world, Direction::Down);
    assert_eq!(world.get_snake_head_index(), Some(0));
    go(&mut world, Direction::Left);
    assert_eq!(world.get_snake_head_index(), Some(4));
    assert_eq!(world.get_game_status(), Some(GameStatus::Played));
}

#[test]
fn down_wraps_from_the_last_row() {
    let mut world = started(5, 24);
    go(&mut world, Direction::Down);
    assert_eq!(world.get_snake_head_index(), Some(4));
}

#[test]
fn up_wraps_from_the_first_row() {
    // Reach cell 0 with the body trailing to the right of it, then go up.
    let mut world = started(5, 4);
    world.step();
    assert_eq!(world.get_snake_head_index(), Some(0));
    go(&mut world, Direction::Up);
    assert_eq!(world.get_snake_head_index(), Some(20));
}

#[test]
fn up_and_down_move_one_row_inside_the_grid() {
    let mut world = started(5, 12);
    go(&mut world, Direction::Up);
    assert_eq!(world.get_snake_head_index(), Some(7));
    go(&mut world, Direction::Right);
    assert_eq!(world.get_snake_head_index(), Some(8));
    go(&mut world, Direction::Down);
    assert_eq!(world.get_snake_head_index(), Some(13));
    go(&mut world, Direction::Left);
    assert_eq!(world.get_snake_head_index(), Some(12));
}

#[test]
fn next_cell_follows_the_torus() {
    let world = World::new(5, 4).expect("valid configuration");
    assert_eq!(world.generate_next_snake_cell(&Direction::Right), Some(SnakeCell(0)));
    assert_eq!(world.generate_next_snake_cell(&Direction::Left), Some(SnakeCell(3)));
    assert_eq!(world.generate_next_snake_cell(&Direction::Up), Some(SnakeCell(24)));
    assert_eq!(world.generate_next_snake_cell(&Direction::Down), Some(SnakeCell(9)));
    let last = World::new(5, 24).expect("valid configuration");
    assert_eq!(last.generate_next_snake_cell(&Direction::Right), Some(SnakeCell(20)));
    assert_eq!(last.generate_next_snake_cell(&Direction::Down), Some(SnakeCell(4)));
    assert_eq!(last.generate_next_snake_cell(&Direction::Up), Some(SnakeCell(19)));
    let first_column = World::new(5, 20).expect("valid configuration");
    assert_eq!(first_column.generate_next_snake_cell(&Direction::Left), Some(SnakeCell(24)));
    assert_eq!(first_column.generate_next_snake_cell(&Direction::Down), Some(SnakeCell(0)));
}

#[test]
fn reversal_is_ignored() {
    let mut world = started(5, 7);
    world.set_snake_direction(Direction::Left);
    world.step();
    assert_eq!(world.get_snake_head_index(), Some(8));
    assert_eq!(world.get_snake_cells(), vec![8, 7, 6]);
    // After turning up, down is the reversal.
    go(&mut world, Direction::Up);
    assert_eq!(world.get_snake_head_index(), Some(3));
    go(&mut world, Direction::Down);
    assert_eq!(world.get_snake_head_index(), Some(23));
}

#[test]
fn last_turn_before_a_step_wins() {
    let mut world = started(5, 12);
    world.set_snake_direction(Direction::Up);
    world.set_snake_direction(Direction::Down);
    world.step();
    assert_eq!(world.get_snake_head_index(), Some(17));
}

#[test]
fn turn_takes_effect_on_the_next_step_only() {
    let mut world = started(5, 12);
    world.set_snake_direction(Direction::Up);
    assert_eq!(world.get_snake_head_index(), Some(12));
    world.step();
    assert_eq!(world.get_snake_head_index(), Some(7));
    world.step();
    assert_eq!(world.get_snake_head_index(), Some(2));
}

#[test]
fn step_before_start_does_nothing() {
    let mut world = World::new(5, 7).expect("valid configuration");
    world.step();
    assert_eq!(world.get_snake_cells(), vec![7, 6, 5]);
    assert_eq!(world.get_game_status(), None);
}

#[test]
fn turn_before_start_is_ignored() {
    let mut world = World::new(5, 7).expect("valid configuration");
    world.set_snake_direction(Direction::Up);
    world.start_game();
    world.step();
    assert_eq!(world.get_snake_head_index(), Some(8));
}

#[test]
fn quiet_steps_keep_length_and_head_on_grid() {
    let mut world = started(4, 5);
    let turns = [
        Direction::Right,
        Direction::Up,
        Direction::Up,
        Direction::Left,
        Direction::Left,
        Direction::Down,
        Direction::Down,
        Direction::Down,
        Direction::Right,
        Direction::Right,
        Direction::Right,
        Direction::Up,
    ];
    for round in 0..3 {
        for turn in turns.iter() {
            world.set_snake_direction(*turn);
            world.step();
            assert_eq!(world.get_snake_length(), 3, "round {}", round);
            assert!(world.get_snake_head_index().expect("head") < 16);
            assert_eq!(world.get_game_status(), Some(GameStatus::Played));
        }
    }
    assert_eq!(world.get_points(), 0);
}

#[test]
fn end_to_end_on_width_three() {
    let mut world = World::new(3, 2).expect("valid configuration");
    assert_eq!(world.get_snake_cells(), vec![2, 1, 0]);
    world.start_game();
    world.step();
    assert_eq!(world.get_snake_head_index(), Some(0));
    assert_eq!(world.get_snake_cells(), vec![0, 2, 1]);
    assert_eq!(world.get_game_status(), Some(GameStatus::Played));
}

#[test]
fn self_collision_loses_once_and_for_all() {
    let mut world = World::new(5, 2).expect("valid configuration");
    assert!(world.offer_reward_cell(3));
    world.start_game();
    world.step();
    assert_eq!(world.get_snake_length(), 4);
    assert!(world.offer_reward_cell(4));
    world.step();
    assert_eq!(world.get_snake_length(), 5);
    assert_eq!(world.get_points(), 2);
    world.step();
    assert_eq!(world.get_snake_cells(), vec![0, 4, 3, 2, 1]);
    assert_eq!(world.get_game_status(), Some(GameStatus::Played));
    go(&mut world, Direction::Up);
    assert_eq!(world.get_snake_cells(), vec![20, 0, 4, 3, 2]);
    assert_eq!(world.get_game_status(), Some(GameStatus::Played));
    go(&mut world, Direction::Left);
    assert_eq!(world.get_snake_cells(), vec![24, 20, 0, 4, 3]);
    assert_eq!(world.get_game_status(), Some(GameStatus::Played));
    go(&mut world, Direction::Down);
    assert_eq!(world.get_snake_cells(), vec![4, 24, 20, 0, 4]);
    assert_eq!(world.get_game_status(), Some(GameStatus::Lost));
    // A lost game stays lost and takes no further ticks, turns or starts.
    world.set_snake_direction(Direction::Left);
    world.step();
    world.start_game();
    world.step();
    assert_eq!(world.get_snake_cells(), vec![4, 24, 20, 0, 4]);
    assert_eq!(world.get_game_status(), Some(GameStatus::Lost));
    assert_eq!(world.get_game_status_text(), "You have lost!");
}
