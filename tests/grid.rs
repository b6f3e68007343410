use snake_client::types::{Direction, GameMap, SnakeInfo};
use snake_client::utils::{Coordinate, Tile};

const MAP_WIDTH: i32 = 3;

fn get_snake_one() -> SnakeInfo {
    SnakeInfo {
        name: "1".to_string(),
        points: 0,
        tail_protected_for_game_ticks: 0,
        positions: vec![
            Coordinate(1, 1).to_position(MAP_WIDTH),
            Coordinate(0, 1).to_position(MAP_WIDTH),
        ],
        id: "1".to_string(),
    }
}

fn get_snake_two() -> SnakeInfo {
    SnakeInfo {
        name: "2".to_string(),
        points: 0,
        tail_protected_for_game_ticks: 0,
        positions: vec![Coordinate(1, 2).to_position(MAP_WIDTH)],
        id: "2".to_string(),
    }
}

// The map used for testing, 1 and 2 represents the snakes
//yx012
//0  F
//1 11#
//2  2
fn get_test_map() -> GameMap {
    GameMap {
        width: MAP_WIDTH,
        height: MAP_WIDTH,
        world_tick: 0,
        snake_infos: vec![get_snake_one(), get_snake_two()],
        food_positions: vec![Coordinate(1, 0).to_position(MAP_WIDTH)],
        obstacle_positions: vec![Coordinate(2, 1).to_position(MAP_WIDTH)],
    }
}

#[test]
fn snake_can_be_found_by_id() {
    let map = get_test_map();
    let id = &get_snake_one().id;
    let s = map.get_snake_by_id(id);
    let found_id = &s.unwrap().id;
    assert_eq!(id, found_id);
}

#[test]
fn tile_is_correctly_found() {
    let map = get_test_map();
    let snake_one = get_snake_one();
    let snake_two = get_snake_two();
    let tiles = vec![
        vec![
            Tile::Empty { coordinate: Coordinate(0, 0) },
            Tile::Food { coordinate: Coordinate(1, 0) },
            Tile::Empty { coordinate: Coordinate(2, 0) },
        ],
        vec![
            Tile::SnakeBody { coordinate: Coordinate(0, 1), snake: &snake_one },
            Tile::SnakeHead { coordinate: Coordinate(1, 1), snake: &snake_one },
            Tile::Obstacle { coordinate: Coordinate(2, 1) },
        ],
        vec![
            Tile::Empty { coordinate: Coordinate(0, 2) },
            Tile::SnakeHead { coordinate: Coordinate(1, 2), snake: &snake_two },
            Tile::Empty { coordinate: Coordinate(2, 2) },
        ],
    ];
    for y in 0..map.width {
        for x in 0..map.height {
            assert_eq!(tiles[y as usize][x as usize], map.get_tile_at(Coordinate(x, y)));
        }
    }
}

#[test]
fn tile_is_correctly_marked_as_movable() {
    let map = get_test_map();
    let tiles = vec![
        vec![true, true, true],
        vec![false, false, false],
        vec![true, false, true],
    ];

    for y in 0..map.height {
        for x in 0..map.width {
            assert_eq!(
                tiles[y as usize][x as usize],
                map.is_tile_available_for_movement(Coordinate(x, y))
            );
        }
    }
}

#[test]
fn can_snake_move_identifies_correctly() {
    let map = get_test_map();
    let id = &get_snake_one().id;
    let snake = map.get_snake_by_id(id).unwrap();

    assert_eq!(true, map.can_snake_move_in_direction(&snake, Direction::Up));
    assert_eq!(false, map.can_snake_move_in_direction(&snake, Direction::Down));
    assert_eq!(false, map.can_snake_move_in_direction(&snake, Direction::Left));
    assert_eq!(false, map.can_snake_move_in_direction(&snake, Direction::Right));
}

#[test]
fn can_not_move_to_walls() {
    let map = get_test_map();
    let id = &get_snake_two().id;
    let snake = map.get_snake_by_id(id).unwrap();

    assert_eq!(false, map.can_snake_move_in_direction(&snake, Direction::Down));
}

fn snake(id: &str, positions: Vec<i32>) -> SnakeInfo {
    SnakeInfo {
        id: id.to_string(),
        name: format!("snake {}", id),
        points: 0,
        positions,
        tail_protected_for_game_ticks: 0,
    }
}

fn empty_map(width: i32, height: i32) -> GameMap {
    GameMap {
        width,
        height,
        world_tick: 0,
        snake_infos: vec![],
        food_positions: vec![],
        obstacle_positions: vec![],
    }
}

#[test]
fn position_round_trip_covers_every_cell() {
    let (width, height) = (4, 3);
    for p in 0..width * height {
        let c = Coordinate::from_position(p, width);
        assert!(c.0 >= 0 && c.0 < width && c.1 >= 0 && c.1 < height);
        assert_eq!(p, c.to_position(width));
    }
}

#[test]
fn from_position_gives_column_and_row() {
    assert_eq!(Coordinate(2, 1), Coordinate::from_position(7, 5));
    assert_eq!(Coordinate(0, 0), Coordinate::from_position(0, 5));
    assert_eq!(Coordinate(4, 3), Coordinate::from_position(19, 5));
    assert_eq!(19, Coordinate(4, 3).to_position(5));
}

#[test]
fn from_position_of_negative_position_truncates() {
    assert_eq!(Coordinate(-1, 0), Coordinate::from_position(-1, 3));
    assert_eq!(Coordinate(-1, -1), Coordinate::from_position(-4, 3));
    assert_eq!(-4, Coordinate(-1, -1).to_position(3));
}

#[test]
fn movement_deltas_grow_y_downward() {
    assert_eq!(Coordinate(0, -1), Direction::Up.to_movement_delta());
    assert_eq!(Coordinate(0, 1), Direction::Down.to_movement_delta());
    assert_eq!(Coordinate(-1, 0), Direction::Left.to_movement_delta());
    assert_eq!(Coordinate(1, 0), Direction::Right.to_movement_delta());
}

#[test]
fn manhattan_distance_sums_both_axes() {
    assert_eq!(7, Coordinate(1, 5).manhattan_distance_to(Coordinate(4, 1)));
    assert_eq!(7, Coordinate(4, 1).manhattan_distance_to(Coordinate(1, 5)));
    assert_eq!(0, Coordinate(2, 2).manhattan_distance_to(Coordinate(2, 2)));
}

#[test]
fn within_square_includes_borders() {
    let nw = Coordinate(1, 1);
    let se = Coordinate(3, 4);
    assert!(Coordinate(1, 1).is_within_square(nw, se));
    assert!(Coordinate(3, 4).is_within_square(nw, se));
    assert!(Coordinate(2, 3).is_within_square(nw, se));
    assert!(!Coordinate(0, 2).is_within_square(nw, se));
    assert!(!Coordinate(2, 5).is_within_square(nw, se));
}

#[test]
fn bounds_checks_agree() {
    let map = empty_map(3, 2);
    for &(x, y, inside) in &[(0, 0, true), (2, 1, true), (3, 0, false), (0, 2, false), (-1, 0, false), (0, -1, false)] {
        assert_eq!(inside, map.inside_map(Coordinate(x, y)));
        assert_eq!(!inside, map.is_coordinate_out_of_bounds(Coordinate(x, y)));
    }
}

#[test]
fn obstacle_outranks_food_and_snake() {
    let mut map = empty_map(3, 3);
    map.obstacle_positions = vec![4];
    map.food_positions = vec![4];
    map.snake_infos = vec![snake("a", vec![4])];
    assert_eq!(Tile::Obstacle { coordinate: Coordinate(1, 1) }, map.get_tile_at(Coordinate(1, 1)));
    assert!(!map.is_tile_available_for_movement(Coordinate(1, 1)));
}

#[test]
fn food_outranks_snake() {
    let mut map = empty_map(3, 3);
    map.food_positions = vec![4];
    map.snake_infos = vec![snake("a", vec![4])];
    assert_eq!(Tile::Food { coordinate: Coordinate(1, 1) }, map.get_tile_at(Coordinate(1, 1)));
}

#[test]
fn listed_cell_outside_grid_outranks_wall() {
    let mut map = empty_map(3, 3);
    map.obstacle_positions = vec![-1];
    assert_eq!(Tile::Obstacle { coordinate: Coordinate(-1, 0) }, map.get_tile_at(Coordinate(-1, 0)));
}

#[test]
fn coordinate_left_of_grid_is_a_wall_not_the_previous_row() {
    // (-1, 1) and (2, 0) share the linear index 2; only the latter holds food.
    let mut map = empty_map(3, 3);
    map.food_positions = vec![2];
    assert_eq!(Tile::Food { coordinate: Coordinate(2, 0) }, map.get_tile_at(Coordinate(2, 0)));
    assert_eq!(Tile::Wall, map.get_tile_at(Coordinate(-1, 1)));
}

#[test]
fn first_snake_in_map_order_owns_a_shared_cell() {
    let mut map = empty_map(3, 3);
    let a = snake("a", vec![3, 4]);
    let b = snake("b", vec![4]);
    map.snake_infos = vec![a.clone(), b];
    assert_eq!(Tile::SnakeBody { coordinate: Coordinate(1, 1), snake: &a }, map.get_tile_at(Coordinate(1, 1)));
}

#[test]
fn traversable_exactly_for_empty_and_food() {
    let mut map = empty_map(3, 3);
    map.food_positions = vec![1];
    map.obstacle_positions = vec![2];
    map.snake_infos = vec![snake("a", vec![4, 5])];
    let cases = [
        (Coordinate(0, 0), true),   // empty
        (Coordinate(1, 0), true),   // food
        (Coordinate(2, 0), false),  // obstacle
        (Coordinate(1, 1), false),  // head
        (Coordinate(2, 1), false),  // body
        (Coordinate(3, 0), false),  // wall
    ];
    for &(c, expected) in &cases {
        let tile = map.get_tile_at(c);
        let by_kind = matches!(tile, Tile::Empty { .. } | Tile::Food { .. });
        assert_eq!(expected, by_kind);
        assert_eq!(expected, map.is_tile_available_for_movement(c));
    }
}

#[test]
fn head_in_top_left_corner_cannot_leave_the_grid() {
    let mut map = empty_map(3, 3);
    map.obstacle_positions = vec![8];
    map.snake_infos = vec![snake("a", vec![0])];
    let s = map.get_snake_by_id("a").unwrap();
    assert!(!map.can_snake_move_in_direction(s, Direction::Up));
    assert!(!map.can_snake_move_in_direction(s, Direction::Left));
    assert!(map.can_snake_move_in_direction(s, Direction::Down));
    assert!(map.can_snake_move_in_direction(s, Direction::Right));

    map.obstacle_positions = vec![1, 3];
    let s = map.get_snake_by_id("a").unwrap();
    assert!(!map.can_snake_move_in_direction(s, Direction::Down));
    assert!(!map.can_snake_move_in_direction(s, Direction::Right));
}

#[test]
fn unknown_snake_id_is_not_found() {
    let mut map = empty_map(3, 3);
    map.snake_infos = vec![snake("a", vec![0]), snake("ab", vec![1])];
    assert!(map.get_snake_by_id("b").is_none());
    assert_eq!("ab", map.get_snake_by_id("ab").unwrap().id);
    assert!(empty_map(3, 3).get_snake_by_id("").is_none());
}

#[test]
fn head_on_grid_needs_a_cell_of_the_grid() {
    let map = empty_map(3, 2);
    assert!(map.has_head_on_grid(&snake("a", vec![0])));
    assert!(map.has_head_on_grid(&snake("a", vec![5, 4])));
    assert!(!map.has_head_on_grid(&snake("a", vec![6])));
    assert!(!map.has_head_on_grid(&snake("a", vec![-1])));
    assert!(!map.has_head_on_grid(&snake("a", vec![])));
    assert!(!empty_map(0, 2).has_head_on_grid(&snake("a", vec![0])));
}
