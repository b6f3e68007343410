use crate::types::{Direction, GameMap, Position, SnakeInfo};
use vstd::prelude::*;

verus! {

/// A grid coordinate `(x, y)`; `y` grows downward.
#[derive(Debug, Clone, Copy, PartialEq, Eq, Structural)]
pub struct Coordinate(pub i32, pub i32);

/// The remainder of `p / w` as Rust's `%` computes it: truncating toward zero,
/// so it takes the sign of `p`.
pub open spec fn trunc_rem(p: int, w: int) -> int {
    if p >= 0 {
        p % w
    } else {
        -((-p) % w)
    }
}

/// `p - trunc_rem(p, w)` is a multiple of `w`, so dividing it by `w` gives the
/// same result whether the division truncates or rounds down.
proof fn lemma_exact_quotient(p: int, w: int)
    requires
        w > 0,
    ensures
        (p - trunc_rem(p, w)) % w == 0,
        p >= 0 ==> 0 <= trunc_rem(p, w) < w && trunc_rem(p, w) <= p
            && (p - trunc_rem(p, w)) / w == p / w,
        p < 0 ==> -w < trunc_rem(p, w) <= 0 && (p - trunc_rem(p, w)) / w == -((-p) / w)
            && (-(p - trunc_rem(p, w))) / w == (-p) / w,
{
    let q = (-p) / w;
    if p < 0 {
        assert(-p == w * q + (-p) % w) by (nonlinear_arith)
            requires w > 0, q == (-p) / w;
        assert(p - trunc_rem(p, w) == w * (-q)) by (nonlinear_arith)
            requires -p == w * q + (-p) % w, trunc_rem(p, w) == -((-p) % w);
        assert(-(p - trunc_rem(p, w)) == w * q) by (nonlinear_arith)
            requires -p == w * q + (-p) % w, trunc_rem(p, w) == -((-p) % w);
        vstd::arithmetic::div_mod::lemma_div_multiples_vanish(-q, w);
        vstd::arithmetic::div_mod::lemma_div_multiples_vanish(q, w);
        vstd::arithmetic::div_mod::lemma_mod_multiples_basic(-q, w);
    } else {
        assert(p == w * (p / w) + p % w) by (nonlinear_arith)
            requires w > 0;
        assert(w * (p / w) >= 0) by (nonlinear_arith)
            requires w > 0, p >= 0;
        vstd::arithmetic::div_mod::lemma_div_multiples_vanish(p / w, w);
        vstd::arithmetic::div_mod::lemma_mod_multiples_basic(p / w, w);
    }
}

impl Coordinate {
    /// The coordinate that linear position `p` denotes on a grid of width `w`:
    /// `x = p mod w` and `y = (p - x) / w`.
    pub open spec fn of_position(p: int, w: int) -> Coordinate {
        let x = trunc_rem(p, w);
        Coordinate(x as i32, ((p - x) / w) as i32)
    }

    /// The linear position of this coordinate on a grid of width `w`.
    pub open spec fn position_spec(self, w: int) -> int {
        self.0 + self.1 * w
    }

    pub fn from_position(position: i32, map_width: i32) -> (r: Coordinate)
        requires
            map_width > 0,
        ensures
            r == Coordinate::of_position(position as int, map_width as int),
    {
        let x = position % map_width;
        let y = (position - x) / map_width;
        proof {
            lemma_exact_quotient(position as int, map_width as int);
        }
        Coordinate(x, y)
    }

    /// The position of this coordinate on a grid `map_width` cells wide.
    pub fn to_position(self, map_width: i32) -> (r: Position)
        requires
            i32::MIN <= self.1 * map_width <= i32::MAX,
            i32::MIN <= self.position_spec(map_width as int) <= i32::MAX,
        ensures
            r == self.position_spec(map_width as int),
    {
        let Coordinate(x, y) = self;
        x + y * map_width
    }

    /// The number of unit steps between two coordinates, moving along the axes.
    pub open spec fn manhattan_spec(self, goal: Coordinate) -> int {
        abs_int(self.0 - goal.0) + abs_int(self.1 - goal.1)
    }

    pub fn manhattan_distance_to(self, goal: Coordinate) -> (r: i32)
        requires
            self.manhattan_spec(goal) <= i32::MAX,
        ensures
            r == self.manhattan_spec(goal),
    {
        let Coordinate(x0, y0) = self;
        let Coordinate(x1, y1) = goal;
        let dx: i64 = x0 as i64 - x1 as i64;
        let dy: i64 = y0 as i64 - y1 as i64;
        let ax: i64 = if dx < 0 { -dx } else { dx };
        let ay: i64 = if dy < 0 { -dy } else { dy };
        (ax + ay) as i32
    }

    /// Whether this coordinate lies in the rectangle whose corners are `nw_coord`
    /// (top left) and `se_coord` (bottom right), borders included.
    pub fn is_within_square(self, nw_coord: Coordinate, se_coord: Coordinate) -> (r: bool)
        ensures
            r == (nw_coord.0 <= self.0 <= se_coord.0 && nw_coord.1 <= self.1 <= se_coord.1),
    {
        let Coordinate(x, y) = self;
        let Coordinate(nw_x, nw_y) = nw_coord;
        let Coordinate(se_x, se_y) = se_coord;
        x >= nw_x && x <= se_x && y >= nw_y && y <= se_y
    }
}

pub open spec fn abs_int(v: int) -> int {
    if v < 0 {
        -v
    } else {
        v
    }
}

/// Converting a position to a coordinate and back gives the position again.
pub proof fn lemma_position_round_trip(p: int, width: int)
    requires
        0 < width <= i32::MAX,
        i32::MIN <= p <= i32::MAX,
    ensures
        Coordinate::of_position(p, width).position_spec(width) == p,
{
    lemma_exact_quotient(p, width);
    lemma_of_position_bounds(p, width);
    let x = trunc_rem(p, width);
    let q = (p - x) / width;
    assert(p - x == q * width) by (nonlinear_arith)
        requires
            width > 0,
            (p - x) % width == 0,
            q == (p - x) / width,
    {
        vstd::arithmetic::div_mod::lemma_fundamental_div_mod(p - x, width);
    }
}

/// Bounds on the coordinate that a position denotes: `x` lies strictly
/// between `-width` and `width`, and neither part leaves the range of `i32`
/// where the position lies in it.
proof fn lemma_of_position_bounds(p: int, width: int)
    requires
        0 < width <= i32::MAX,
        i32::MIN <= p <= i32::MAX,
    ensures
        -width < trunc_rem(p, width) < width,
        p >= 0 ==> 0 <= trunc_rem(p, width) && 0 <= (p - trunc_rem(p, width)) / width <= p,
        p < 0 ==> p <= (p - trunc_rem(p, width)) / width <= 0,
        Coordinate::of_position(p, width).0 == trunc_rem(p, width),
        Coordinate::of_position(p, width).1 == (p - trunc_rem(p, width)) / width,
{
    lemma_exact_quotient(p, width);
    if p >= 0 {
        vstd::arithmetic::div_mod::lemma_div_is_ordered_by_denominator(p, 1, width);
        vstd::arithmetic::div_mod::lemma_div_pos_is_pos(p, width);
    } else {
        vstd::arithmetic::div_mod::lemma_div_is_ordered_by_denominator(-p, 1, width);
        vstd::arithmetic::div_mod::lemma_div_pos_is_pos(-p, width);
    }
}

/// What a coordinate of a map holds.
#[derive(Debug, PartialEq)]
pub enum Tile<'a> {
    Wall,
    Food { coordinate: Coordinate },
    Obstacle { coordinate: Coordinate },
    Empty { coordinate: Coordinate },
    SnakeHead { coordinate: Coordinate, snake: &'a SnakeInfo },
    SnakeBody { coordinate: Coordinate, snake: &'a SnakeInfo },
}

impl Direction {
    /// The step that moving in this direction takes; `y` grows downward.
    pub open spec fn delta(self) -> Coordinate {
        match self {
            Direction::Down => Coordinate(0, 1),
            Direction::Up => Coordinate(0, -1i32),
            Direction::Left => Coordinate(-1i32, 0),
            Direction::Right => Coordinate(1, 0),
        }
    }

    pub fn to_movement_delta(&self) -> (r: Coordinate)
        ensures
            r == self.delta(),
    {
        match *self {
            Direction::Down => Coordinate(0, 1),
            Direction::Up => Coordinate(0, -1),
            Direction::Left => Coordinate(-1, 0),
            Direction::Right => Coordinate(1, 0),
        }
    }
}

/// Some entry of `positions` denotes `c` on a grid `width` cells wide.
pub open spec fn lists_coordinate(positions: Seq<Position>, width: int, c: Coordinate) -> bool {
    exists|i: int|
        0 <= i < positions.len() && #[trigger] Coordinate::of_position(positions[i] as int, width)
            == c
}

/// The index of the first snake, from index `i` on, that `pred` holds of.
pub open spec fn first_snake_from(
    snakes: Seq<SnakeInfo>,
    pred: spec_fn(SnakeInfo) -> bool,
    i: int,
) -> Option<int>
    decreases snakes.len() - i,
{
    if i < 0 || i >= snakes.len() {
        None
    } else if pred(snakes[i]) {
        Some(i)
    } else {
        first_snake_from(snakes, pred, i + 1)
    }
}

/// The coordinate one step from `c` in direction `d`.
pub open spec fn step(c: Coordinate, d: Direction) -> Coordinate {
    Coordinate((c.0 + d.delta().0) as i32, (c.1 + d.delta().1) as i32)
}

impl GameMap {
    /// The map as the protocol describes it: a non-empty grid whose cell count
    /// fits in a position, and every listed position one of its cells.
    pub open spec fn well_formed(&self) -> bool {
        &&& self.width > 0
        &&& self.height > 0
        &&& self.width * self.height <= i32::MAX
        &&& forall|i: int|
            0 <= i < self.food_positions@.len() ==> self.holds_cell(
                #[trigger] self.food_positions@[i] as int,
            )
        &&& forall|i: int|
            0 <= i < self.obstacle_positions@.len() ==> self.holds_cell(
                #[trigger] self.obstacle_positions@[i] as int,
            )
        &&& forall|i: int, k: int|
            0 <= i < self.snake_infos@.len() && 0 <= k < self.snake_infos@[i].positions@.len()
                ==> self.holds_cell(#[trigger] self.snake_infos@[i].positions@[k] as int)
    }

    /// Whether `p` is the index of a cell of the grid.
    pub open spec fn holds_cell(&self, p: int) -> bool {
        0 <= p < self.width * self.height
    }

    pub open spec fn inside_spec(&self, c: Coordinate) -> bool {
        0 <= c.0 < self.width && 0 <= c.1 < self.height
    }

    pub open spec fn has_obstacle_at(&self, c: Coordinate) -> bool {
        lists_coordinate(self.obstacle_positions@, self.width as int, c)
    }

    pub open spec fn has_food_at(&self, c: Coordinate) -> bool {
        lists_coordinate(self.food_positions@, self.width as int, c)
    }

    /// The first snake, in the map's order, that occupies `c`.
    pub open spec fn occupant_index(&self, c: Coordinate) -> Option<int> {
        first_snake_from(
            self.snake_infos@,
            |s: SnakeInfo| lists_coordinate(s.positions@, self.width as int, c),
            0,
        )
    }

    /// The first snake, in the map's order, whose id is `id`.
    pub open spec fn snake_index_with_id(&self, id: Seq<char>) -> Option<int> {
        first_snake_from(self.snake_infos@, |s: SnakeInfo| s.id@ == id, 0)
    }

    /// The coordinate of a snake's head.
    pub open spec fn head_of(&self, snake: SnakeInfo) -> Coordinate {
        Coordinate::of_position(snake.positions@[0] as int, self.width as int)
    }

    /// The tile at `c`. Where several could apply, an obstacle comes first,
    /// then food, then a snake, then the wall outside the grid.
    pub open spec fn tile_spec<'a>(&'a self, c: Coordinate) -> Tile<'a> {
        if self.has_obstacle_at(c) {
            Tile::Obstacle { coordinate: c }
        } else if self.has_food_at(c) {
            Tile::Food { coordinate: c }
        } else {
            match self.occupant_index(c) {
                Some(i) => {
                    let snake = &self.snake_infos@[i];
                    if self.head_of(*snake) == c {
                        Tile::SnakeHead { coordinate: c, snake }
                    } else {
                        Tile::SnakeBody { coordinate: c, snake }
                    }
                },
                None => {
                    if !self.inside_spec(c) {
                        Tile::Wall
                    } else {
                        Tile::Empty { coordinate: c }
                    }
                },
            }
        }
    }

    /// A snake may move onto `c`: it holds nothing but possibly food.
    pub open spec fn traversable_spec(&self, c: Coordinate) -> bool {
        self.tile_spec(c) is Empty || self.tile_spec(c) is Food
    }

    /// What `can_snake_move_in_direction` needs to compute the step: a grid
    /// width, and a head on one of the grid's cells.
    pub open spec fn can_step_from(&self, snake: SnakeInfo) -> bool {
        &&& self.width > 0
        &&& snake.positions@.len() > 0
        &&& self.holds_cell(snake.positions@[0] as int)
    }

    /// The cell one step from the snake's head in direction `d` is free to enter.
    pub open spec fn can_move_spec(&self, snake: SnakeInfo, d: Direction) -> bool {
        self.traversable_spec(step(self.head_of(snake), d))
    }

    /// Whether the snake has a head on one of the grid's cells, so that its
    /// moves can be judged.
    pub fn has_head_on_grid(&self, snake: &SnakeInfo) -> (r: bool)
        ensures
            r == self.can_step_from(*snake),
    {
        if self.width <= 0 || snake.positions.len() == 0 {
            return false;
        }
        let head = snake.positions[0];
        let w: i64 = self.width as i64;
        let h: i64 = self.height as i64;
        assert(i32::MIN * i32::MAX <= w * h <= i32::MAX * i32::MAX) by (nonlinear_arith)
            requires
                0 < w <= i32::MAX,
                i32::MIN <= h <= i32::MAX,
        ;
        let cells: i64 = w * h;
        0 <= head && (head as i64) < cells
    }

    pub fn inside_map(&self, coordinate: Coordinate) -> (r: bool)
        ensures
            r == self.inside_spec(coordinate),
    {
        let Coordinate(x, y) = coordinate;
        x >= 0 && x < self.width && y >= 0 && y < self.height
    }

    pub fn is_coordinate_out_of_bounds(&self, coordinate: Coordinate) -> (r: bool)
        ensures
            r == !self.inside_spec(coordinate),
    {
        let Coordinate(x, y) = coordinate;
        x < 0 || x >= self.width || y < 0 || y >= self.height
    }
    /// The index of the first snake that occupies `c`.
    fn snake_index_at(&self, c: Coordinate) -> (r: Option<usize>)
        requires
            self.width > 0,
        ensures
            r matches Some(i) ==> self.occupant_index(c) == Some(i as int) && i
                < self.snake_infos@.len() && lists_coordinate(
                self.snake_infos@[i as int].positions@,
                self.width as int,
                c,
            ),
            r is None ==> self.occupant_index(c) is None,
    {
        let ghost pred = |s: SnakeInfo| lists_coordinate(s.positions@, self.width as int, c);
        let mut i: usize = 0;
        while i < self.snake_infos.len()
            invariant
                self.width > 0,
                i <= self.snake_infos@.len(),
                pred == (|s: SnakeInfo| lists_coordinate(s.positions@, self.width as int, c)),
                first_snake_from(self.snake_infos@, pred, 0) == first_snake_from(
                    self.snake_infos@,
                    pred,
                    i as int,
                ),
            decreases self.snake_infos@.len() - i,
        {
            if lists(&self.snake_infos[i].positions, self.width, c) {
                proof {
                    lemma_first_snake_from(self.snake_infos@, pred, i as int);
                }
                return Some(i);
            }
            i = i + 1;
        }
        None
    }

    pub fn get_snake_by_id<'a>(&'a self, id: &str) -> (r: Option<&'a SnakeInfo>)
        ensures
            r matches Some(s) ==> self.snake_index_with_id(id@) matches Some(i) && *s
                == self.snake_infos@[i],
            r is None ==> self.snake_index_with_id(id@) is None,
    {
        let wanted = id.to_owned();
        let ghost pred = |s: SnakeInfo| s.id@ == id@;
        let mut i: usize = 0;
        while i < self.snake_infos.len()
            invariant
                i <= self.snake_infos@.len(),
                wanted@ == id@,
                pred == (|s: SnakeInfo| s.id@ == id@),
                first_snake_from(self.snake_infos@, pred, 0) == first_snake_from(
                    self.snake_infos@,
                    pred,
                    i as int,
                ),
            decreases self.snake_infos@.len() - i,
        {
            if self.snake_infos[i].id == wanted {
                return Some(&self.snake_infos[i]);
            }
            i = i + 1;
        }
        None
    }

    pub fn get_tile_at(&self, coordinate: Coordinate) -> (t: Tile)
        requires
            self.width > 0,
        ensures
            t == self.tile_spec(coordinate),
    {
        if lists(&self.obstacle_positions, self.width, coordinate) {
            Tile::Obstacle { coordinate }
        } else if lists(&self.food_positions, self.width, coordinate) {
            Tile::Food { coordinate }
        } else {
            match self.snake_index_at(coordinate) {
                Some(i) => {
                    let snake = &self.snake_infos[i];
                    if Coordinate::from_position(snake.positions[0], self.width) == coordinate {
                        Tile::SnakeHead { coordinate, snake }
                    } else {
                        Tile::SnakeBody { coordinate, snake }
                    }
                },
                None => {
                    if !self.inside_map(coordinate) {
                        Tile::Wall
                    } else {
                        Tile::Empty { coordinate }
                    }
                },
            }
        }
    }

    pub fn is_tile_available_for_movement(&self, coordinate: Coordinate) -> (r: bool)
        requires
            self.width > 0,
        ensures
            r == (self.tile_spec(coordinate) is Empty || self.tile_spec(coordinate) is Food),
    {
        match self.get_tile_at(coordinate) {
            Tile::Empty { .. } => true,
            Tile::Food { .. } => true,
            _ => false,
        }
    }

    pub fn can_snake_move_in_direction(&self, snake: &SnakeInfo, direction: Direction) -> (r:
        bool)
        requires
            self.can_step_from(*snake),
        ensures
            r == self.can_move_spec(*snake, direction),
    {
        let Coordinate(dx, dy) = direction.to_movement_delta();
        let Coordinate(x, y) = Coordinate::from_position(snake.positions[0], self.width);
        proof {
            lemma_head_step_fits(self.width as int, self.height as int, snake.positions@[0] as int);
        }
        self.is_tile_available_for_movement(Coordinate(x + dx, y + dy))
    }
}

/// Whether some entry of `positions` denotes `c` on a grid `width` cells wide.
fn lists(positions: &Vec<Position>, width: i32, c: Coordinate) -> (r: bool)
    requires
        width > 0,
    ensures
        r == lists_coordinate(positions@, width as int, c),
{
    let mut i: usize = 0;
    while i < positions.len()
        invariant
            width > 0,
            i <= positions@.len(),
            forall|k: int|
                0 <= k < i ==> #[trigger] Coordinate::of_position(positions@[k] as int, width as int)
                    != c,
        decreases positions@.len() - i,
    {
        if Coordinate::from_position(positions[i], width) == c {
            return true;
        }
        i = i + 1;
    }
    false
}

/// A head on a cell of a grid `width` by `height` is at most one step from
/// the grid, so each step from it stays within the range of `i32`.
proof fn lemma_head_step_fits(width: int, height: int, p: int)
    requires
        0 < width <= i32::MAX,
        0 <= p < width * height,
        p <= i32::MAX,
        height <= i32::MAX,
    ensures
        0 <= Coordinate::of_position(p, width).0 < width,
        0 <= Coordinate::of_position(p, width).1 < height,
{
    lemma_of_position_bounds(p, width);
    lemma_exact_quotient(p, width);
    let y = p / width;
    vstd::arithmetic::div_mod::lemma_fundamental_div_mod(p, width);
    vstd::arithmetic::div_mod::lemma_mod_pos_bound(p, width);
    assert(y < height) by (nonlinear_arith)
        requires
            width > 0,
            p < width * height,
            p == width * y + p % width,
            p % width >= 0,
    ;
}

/// The first index from `i` on that `pred` holds of, if any, is in range, and
/// `pred` holds of no index before it.
pub proof fn lemma_first_snake_from(snakes: Seq<SnakeInfo>, pred: spec_fn(SnakeInfo) -> bool, i: int)
    requires
        0 <= i,
    ensures
        first_snake_from(snakes, pred, i) matches Some(j) ==> i <= j < snakes.len() && pred(
            snakes[j],
        ) && forall|k: int| i <= k < j ==> !pred(#[trigger] snakes[k]),
        first_snake_from(snakes, pred, i) is None ==> forall|k: int|
            i <= k < snakes.len() ==> !pred(#[trigger] snakes[k]),
    decreases snakes.len() - i,
{
    if i < snakes.len() && !pred(snakes[i]) {
        lemma_first_snake_from(snakes, pred, i + 1);
    }
}

/// An obstacle outranks everything else: a coordinate that the obstacle list
/// names is an obstacle, whether food or a snake is listed there too.
pub proof fn lemma_obstacle_outranks_food(map: GameMap, c: Coordinate)
    requires
        map.has_obstacle_at(c),
    ensures
        map.tile_spec(c) == (Tile::Obstacle { coordinate: c }),
        map.has_food_at(c) ==> map.tile_spec(c) !is Food,
{
}

/// No position of a grid denotes a coordinate left of or above the grid.
proof fn lemma_cells_not_before_grid(positions: Seq<Position>, width: int, c: Coordinate)
    requires
        0 < width <= i32::MAX,
        forall|i: int| 0 <= i < positions.len() ==> 0 <= #[trigger] positions[i],
        c.0 < 0 || c.1 < 0,
    ensures
        !lists_coordinate(positions, width, c),
{
    assert forall|i: int| 0 <= i < positions.len() implies #[trigger] Coordinate::of_position(
        positions[i] as int,
        width,
    ) != c by {
        lemma_of_position_bounds(positions[i] as int, width);
        lemma_exact_quotient(positions[i] as int, width);
    }
}

/// On a well-formed map, a coordinate left of or above the grid is a wall.
pub proof fn lemma_before_grid_is_wall(map: GameMap, c: Coordinate)
    requires
        map.well_formed(),
        c.0 < 0 || c.1 < 0,
    ensures
        map.tile_spec(c) == Tile::Wall,
{
    let w = map.width as int;
    lemma_cells_not_before_grid(map.obstacle_positions@, w, c);
    lemma_cells_not_before_grid(map.food_positions@, w, c);
    let pred = |s: SnakeInfo| lists_coordinate(s.positions@, w, c);
    assert forall|i: int| 0 <= i < map.snake_infos@.len() implies !pred(
        #[trigger] map.snake_infos@[i],
    ) by {
        let ps = map.snake_infos@[i].positions@;
        assert forall|k: int| 0 <= k < ps.len() implies 0 <= #[trigger] ps[k] by {
            assert(map.holds_cell(map.snake_infos@[i].positions@[k] as int));
        }
        lemma_cells_not_before_grid(ps, w, c);
    }
    lemma_first_snake_from(map.snake_infos@, pred, 0);
    assert(map.occupant_index(c) is None);
}

/// A snake whose head is the top left cell of a well-formed map cannot move up
/// or left, as both lead off the grid; whether it can move down or right is
/// whether the cell there is free.
pub proof fn lemma_corner_moves(map: GameMap, snake: SnakeInfo)
    requires
        map.well_formed(),
        snake.positions@.len() > 0,
        snake.positions@[0] == 0,
    ensures
        !map.can_move_spec(snake, Direction::Up),
        !map.can_move_spec(snake, Direction::Left),
        map.can_move_spec(snake, Direction::Down) == map.traversable_spec(Coordinate(0, 1)),
        map.can_move_spec(snake, Direction::Right) == map.traversable_spec(Coordinate(1, 0)),
{
    lemma_of_position_bounds(0, map.width as int);
    lemma_exact_quotient(0, map.width as int);
    assert(map.head_of(snake) == Coordinate(0, 0));
    lemma_before_grid_is_wall(map, Coordinate(0, -1i32));
    lemma_before_grid_is_wall(map, Coordinate(-1i32, 0));
}

} // verus!
