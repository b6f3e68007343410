use vstd::prelude::*;

verus! {

/// A linear cell index: `x + y * width`.
pub type Position = i32;

/// A direction of movement on the grid.
#[derive(Debug, Clone, Copy, PartialEq, Eq, Structural)]
pub enum Direction {
    Up,
    Down,
    Left,
    Right,
}

/// Why the server reports a snake as dead.
#[derive(Debug, Clone, Copy, PartialEq, Eq, Structural)]
pub enum DeathReason {
    CollisionWithWall,
    CollisionWithObstacle,
    CollisionWithSnake,
    CollisionWithSelf,
}

/// The kind of game a registration was made for.
#[derive(Debug, Clone, Copy, PartialEq, Eq, Structural)]
pub enum GameMode {
    Training,
    Tournament,
    Highscore,
    Arena,
}

/// Why the server refused a player name.
#[derive(Debug, Clone, Copy, PartialEq, Eq, Structural)]
pub enum PlayerNameInvalidReason {
    Taken,
    Empty,
    InvalidCharacter,
}

/// One snake of a map: its cells run from the head (first) to the tail (last).
#[derive(Debug, Clone, PartialEq)]
pub struct SnakeInfo {
    pub id: String,
    pub name: String,
    pub points: i32,
    pub positions: Vec<Position>,
    pub tail_protected_for_game_ticks: u32,
}

/// The points one player scored in a tournament.
#[derive(Debug, Clone, PartialEq)]
pub struct GameResult {
    pub name: String,
    pub player_id: String,
    pub points: i32,
}

/// The standing of one player at the end of a game.
#[derive(Debug, Clone, PartialEq)]
pub struct PlayerRank {
    pub player_name: String,
    pub player_id: String,
    pub rank: i32,
    pub points: i32,
    pub alive: bool,
}

/// One snapshot of the world, as the server sends it for one tick.
#[derive(Debug, Clone, PartialEq)]
pub struct GameMap {
    pub width: i32,
    pub height: i32,
    pub world_tick: u32,
    pub snake_infos: Vec<SnakeInfo>,
    pub food_positions: Vec<Position>,
    pub obstacle_positions: Vec<Position>,
}

/// The rules of a game, sent along with a registration request.
#[derive(Debug, Clone, Copy, PartialEq, Eq, Structural)]
pub struct GameSettings {
    pub max_noof_players: u32,
    pub start_snake_length: u32,
    pub time_in_ms_per_tick: u32,
    pub obstacles_enabled: bool,
    pub food_enabled: bool,
    pub head_to_tail_consumes: bool,
    pub tail_consume_grows: bool,
    pub add_food_likelihood: u32,
    pub remove_food_likelihood: u32,
    pub spontaneous_growth_every_n_world_tick: u32,
    pub training_game: bool,
    pub points_per_length: u32,
    pub points_per_food: u32,
    pub points_per_caused_death: u32,
    pub points_per_nibble: u32,
    pub noof_rounds_tail_protected_after_nibble: u32,
}

impl GameSettings {
    /// The settings that a registration asks for unless told otherwise.
    pub open spec fn default_spec() -> GameSettings {
        GameSettings {
            max_noof_players: 5,
            start_snake_length: 1,
            time_in_ms_per_tick: 250,
            obstacles_enabled: true,
            food_enabled: true,
            head_to_tail_consumes: true,
            tail_consume_grows: false,
            add_food_likelihood: 15,
            remove_food_likelihood: 5,
            spontaneous_growth_every_n_world_tick: 3,
            training_game: false,
            points_per_length: 1,
            points_per_food: 2,
            points_per_caused_death: 5,
            points_per_nibble: 10,
            noof_rounds_tail_protected_after_nibble: 3,
        }
    }
}

impl Default for GameSettings {
    fn default() -> (r: GameSettings)
        ensures
            r == GameSettings::default_spec(),
    {
        GameSettings {
            max_noof_players: 5,
            start_snake_length: 1,
            time_in_ms_per_tick: 250,
            obstacles_enabled: true,
            food_enabled: true,
            head_to_tail_consumes: true,
            tail_consume_grows: false,
            add_food_likelihood: 15,
            remove_food_likelihood: 5,
            spontaneous_growth_every_n_world_tick: 3,
            training_game: false,
            points_per_length: 1,
            points_per_food: 2,
            points_per_caused_death: 5,
            points_per_nibble: 10,
            noof_rounds_tail_protected_after_nibble: 3,
        }
    }
}

/// A message from the server. Each kind carries its own fields only; a message
/// of a kind this client does not know is `UnrecognizedMessage`.
#[derive(Debug, Clone, PartialEq)]
pub enum InboundMessage {
    GameEnded {
        receiving_player_id: String,
        player_winner_id: String,
        player_winner_name: String,
        game_id: String,
        game_tick: u32,
        map: GameMap,
    },
    GameLink { receiving_player_id: String, game_id: String, url: String },
    GameResult { receiving_player_id: String, game_id: String, player_ranks: Vec<PlayerRank> },
    GameStarting {
        receiving_player_id: String,
        game_id: String,
        noof_players: u32,
        width: u32,
        height: u32,
        game_settings: GameSettings,
    },
    HeartBeatResponse { receiving_player_id: String },
    InvalidPlayerName { receiving_player_id: String, reason: PlayerNameInvalidReason },
    MapUpdate { receiving_player_id: String, game_id: String, game_tick: u32, map: GameMap },
    PlayerRegistered {
        receiving_player_id: String,
        name: String,
        game_id: String,
        game_mode: GameMode,
        game_settings: GameSettings,
    },
    SnakeDead {
        receiving_player_id: String,
        game_id: String,
        game_tick: u32,
        player_id: String,
        x: u32,
        y: u32,
        death_reason: DeathReason,
    },
    TournamentEnded {
        receiving_player_id: String,
        player_winner_id: String,
        game_id: String,
        game_result: Vec<GameResult>,
        tournament_id: String,
        tournament_name: String,
    },
    UnrecognizedMessage,
}

/// A message to the server.
#[derive(Debug, Clone, PartialEq)]
pub enum OutboundMessage {
    ClientInfo {
        language: String,
        language_version: String,
        operating_system: String,
        operating_system_version: String,
        client_version: String,
    },
    HeartBeatRequest { receiving_player_id: String },
    RegisterMove {
        direction: Direction,
        game_tick: u32,
        game_id: String,
        receiving_player_id: String,
    },
    RegisterPlayer { player_name: String, game_settings: GameSettings },
    StartGame,
}

} // verus!
