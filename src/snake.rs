use crate::client::Player;
use crate::types::{Direction, GameMap, InboundMessage, SnakeInfo};
use vstd::prelude::*;

verus! {

/// The reference player: it takes the first legal direction in a fixed order.
#[derive(Debug, Clone, Copy)]
pub struct Snake;

/// The order in which the reference player tries directions.
pub const DIRECTIONS: [Direction; 4] = [
    Direction::Up,
    Direction::Down,
    Direction::Left,
    Direction::Right,
];

/// The order in which the reference player tries directions, as a sequence.
pub open spec fn trial_order() -> Seq<Direction> {
    seq![Direction::Up, Direction::Down, Direction::Left, Direction::Right]
}

/// The first direction of `order`, from index `i` on, that the snake can move
/// in; `Down` when there is none.
pub open spec fn first_legal_from(map: GameMap, snake: SnakeInfo, order: Seq<Direction>, i: int) -> Direction
    decreases order.len() - i,
{
    if i < 0 || i >= order.len() {
        Direction::Down
    } else if map.can_move_spec(snake, order[i]) {
        order[i]
    } else {
        first_legal_from(map, snake, order, i + 1)
    }
}

/// The move of the reference player: the first legal direction in the trial
/// order for the snake whose id is `player_id`, and `Down` when there is none,
/// or when that snake is not on the map or has no head on the grid.
pub open spec fn greedy_move(map: GameMap, player_id: Seq<char>) -> Direction {
    match map.snake_index_with_id(player_id) {
        Some(i) => if map.can_step_from(map.snake_infos@[i]) {
            first_legal_from(map, map.snake_infos@[i], trial_order(), 0)
        } else {
            Direction::Down
        },
        None => Direction::Down,
    }
}

impl Snake {
    pub fn new() -> (r: Snake)
        ensures
            r == Snake,
    {
        Snake
    }
}

impl Player for Snake {
    fn get_next_move(&mut self, map: &GameMap, player_id: &str) -> (r: Direction)
        ensures
            r == greedy_move(*map, player_id@),
    {
        let snake_info = match map.get_snake_by_id(player_id) {
            Some(s) => s,
            None => {
                return Direction::Down;
            },
        };
        proof {
            crate::utils::lemma_first_snake_from(
                map.snake_infos@,
                |s: SnakeInfo| s.id@ == player_id@,
                0,
            );
        }
        if !map.has_head_on_grid(snake_info) {
            return Direction::Down;
        }
        let order = DIRECTIONS;
        assert(order@ == trial_order());
        assert(greedy_move(*map, player_id@) == first_legal_from(*map, *snake_info, trial_order(), 0));
        let mut i: usize = 0;
        while i < 4
            invariant
                i <= 4,
                order@ == trial_order(),
                map.can_step_from(*snake_info),
                greedy_move(*map, player_id@) == first_legal_from(*map, *snake_info, trial_order(), 0),
                first_legal_from(*map, *snake_info, trial_order(), 0) == first_legal_from(
                    *map,
                    *snake_info,
                    trial_order(),
                    i as int,
                ),
            decreases 4 - i,
        {
            if map.can_snake_move_in_direction(snake_info, order[i]) {
                assert(first_legal_from(*map, *snake_info, trial_order(), i as int) == order[i as int]);
                return order[i];
            }
            i = i + 1;
        }
        Direction::Down
    }

    fn on_message(&mut self, message: &InboundMessage)
        ensures
            *final(self) == *old(self),
    {
    }
}

/// The reference player never gives up a legal move: it returns the first
/// direction of the trial order that the snake can move in, and `Down` only
/// when no direction is legal.
pub proof fn lemma_greedy_choice(map: GameMap, snake: SnakeInfo)
    ensures
        ({
            let d = first_legal_from(map, snake, trial_order(), 0);
            &&& map.can_move_spec(snake, Direction::Up) ==> d == Direction::Up
            &&& !map.can_move_spec(snake, Direction::Up) && map.can_move_spec(
                snake,
                Direction::Down,
            ) ==> d == Direction::Down
            &&& !map.can_move_spec(snake, Direction::Up) && !map.can_move_spec(
                snake,
                Direction::Down,
            ) && map.can_move_spec(snake, Direction::Left) ==> d == Direction::Left
            &&& !map.can_move_spec(snake, Direction::Up) && !map.can_move_spec(
                snake,
                Direction::Down,
            ) && !map.can_move_spec(snake, Direction::Left) && map.can_move_spec(
                snake,
                Direction::Right,
            ) ==> d == Direction::Right
            &&& (forall|dir: Direction| !map.can_move_spec(snake, dir)) ==> d == Direction::Down
            &&& (exists|dir: Direction| map.can_move_spec(snake, dir)) ==> map.can_move_spec(
                snake,
                d,
            )
        }),
{
    let order = trial_order();
    reveal_with_fuel(first_legal_from, 5);
    assert(order[0] == Direction::Up);
    assert(order[1] == Direction::Down);
    assert(order[2] == Direction::Left);
    assert(order[3] == Direction::Right);
}

} // verus!
