pub mod client;
pub mod protocol;
pub mod snake;
pub mod types;
pub mod utils;

pub use client::{Action, Client, ClientIdentity, Config, ConnectionState, Player, Venue};
pub use protocol::{inbound_kind, logical_name, InboundKind};
pub use snake::Snake;
pub use types::{Direction, GameMap, InboundMessage, OutboundMessage, SnakeInfo};
pub use utils::{Coordinate, Tile};
