use snake_client::protocol::{inbound_kind, logical_name, InboundKind};
use snake_client::types::{Direction, GameSettings, OutboundMessage};

#[test]
fn logical_name_drops_package_and_event_suffix() {
    assert_eq!("MapUpdate", logical_name("se.cygni.snake.api.event.MapUpdateEvent"));
    assert_eq!("PlayerRegistered", logical_name("se.cygni.snake.api.response.PlayerRegistered"));
    assert_eq!("GameResult", logical_name("foo.bar.baz.GameResult"));
    assert_eq!("GameLink", logical_name("GameLinkEvent"));
    assert_eq!("", logical_name("a.b."));
    assert_eq!("", logical_name(""));
    assert_eq!("", logical_name("x.Event"));
    assert_eq!("EventLog", logical_name("x.EventLog"));
}

#[test]
fn every_inbound_label_has_its_kind() {
    let cases = [
        ("se.cygni.snake.api.event.GameEndedEvent", InboundKind::GameEnded),
        ("se.cygni.snake.api.event.GameLinkEvent", InboundKind::GameLink),
        ("se.cygni.snake.api.event.GameResultEvent", InboundKind::GameResult),
        ("se.cygni.snake.api.event.GameStartingEvent", InboundKind::GameStarting),
        ("se.cygni.snake.api.response.HeartBeatResponse", InboundKind::HeartBeatResponse),
        ("se.cygni.snake.api.exception.InvalidPlayerName", InboundKind::InvalidPlayerName),
        ("se.cygni.snake.api.event.MapUpdateEvent", InboundKind::MapUpdate),
        ("se.cygni.snake.api.response.PlayerRegistered", InboundKind::PlayerRegistered),
        ("se.cygni.snake.api.event.SnakeDeadEvent", InboundKind::SnakeDead),
        ("se.cygni.snake.api.event.TournamentEndedEvent", InboundKind::TournamentEnded),
    ];
    for (label, kind) in cases.iter() {
        assert_eq!(*kind, inbound_kind(label));
    }
}

#[test]
fn unknown_label_is_unrecognized() {
    assert_eq!(InboundKind::Unrecognized, inbound_kind("se.cygni.snake.api.event.ArenaUpdateEvent"));
    assert_eq!(InboundKind::Unrecognized, inbound_kind(""));
    assert_eq!(InboundKind::Unrecognized, inbound_kind("se.cygni.snake.api.event.mapupdate"));
}

#[test]
fn outbound_labels_are_fully_qualified() {
    let start = OutboundMessage::StartGame;
    assert_eq!("se.cygni.snake.api.request.StartGame", start.type_label());
    let mv = OutboundMessage::RegisterMove {
        direction: Direction::Up,
        game_tick: 1,
        game_id: "g".to_string(),
        receiving_player_id: "p".to_string(),
    };
    assert_eq!("se.cygni.snake.api.request.RegisterMove", mv.type_label());
    let hb = OutboundMessage::HeartBeatRequest { receiving_player_id: "p".to_string() };
    assert_eq!("se.cygni.snake.api.request.HeartBeatRequest", hb.type_label());
    let reg = OutboundMessage::RegisterPlayer { player_name: "n".to_string(), game_settings: GameSettings::default() };
    assert_eq!("se.cygni.snake.api.request.RegisterPlayer", reg.type_label());
    let info = OutboundMessage::ClientInfo {
        language: "Rust".to_string(),
        language_version: "1".to_string(),
        operating_system: "linux".to_string(),
        operating_system_version: "???".to_string(),
        client_version: "0".to_string(),
    };
    assert_eq!("se.cygni.snake.api.request.ClientInfo", info.type_label());
}
