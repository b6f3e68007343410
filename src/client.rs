use crate::types::{Direction, GameMap, GameMode, GameSettings, InboundMessage, OutboundMessage};
use vstd::prelude::*;

verus! {

/// The token under which the heartbeat timer is scheduled.
pub const HEARTBEAT_TOKEN: usize = 1337;

/// Milliseconds between two heartbeats.
pub const HEARTBEAT_INTERVAL: u64 = 10_000;

/// A policy that picks a move for each map update. The connection engine calls
/// `on_message` for every message it receives, before handling it, and
/// `get_next_move` once for each map update.
pub trait Player {
    fn get_next_move(&mut self, map: &GameMap, player_id: &str) -> Direction;

    fn on_message(&mut self, message: &InboundMessage) {
    }
}

/// The kind of game a session joins.
#[derive(Debug, Clone, Copy, PartialEq, Eq, Structural)]
pub enum Venue {
    Training,
    Tournament,
}

impl Venue {
    /// The venue that a name stands for.
    pub open spec fn named(name: Seq<char>) -> Option<Venue> {
        if name == "training"@ {
            Some(Venue::Training)
        } else if name == "tournament"@ {
            Some(Venue::Tournament)
        } else {
            None
        }
    }

    /// The name of the venue, which is also the path the server serves it under.
    pub open spec fn name_spec(self) -> Seq<char> {
        match self {
            Venue::Training => "training"@,
            Venue::Tournament => "tournament"@,
        }
    }

    pub fn from_name(name: &str) -> (r: Option<Venue>)
        ensures
            r == Venue::named(name@),
    {
        let name = name.to_owned();
        if name == "training".to_owned() {
            Some(Venue::Training)
        } else if name == "tournament".to_owned() {
            Some(Venue::Tournament)
        } else {
            None
        }
    }

    pub fn name(&self) -> (r: &'static str)
        ensures
            r@ == self.name_spec(),
    {
        match self {
            Venue::Training => "training",
            Venue::Tournament => "tournament",
        }
    }
}

/// Where to connect and under which name to play.
#[derive(Debug, Clone)]
pub struct Config {
    pub host: String,
    pub port: i32,
    pub venue: Venue,
    pub snake_name: String,
}

/// What the client reports of itself when the connection opens.
#[derive(Debug, Clone)]
pub struct ClientIdentity {
    pub language_version: String,
    pub client_version: String,
}

/// The names that `target_info` gives to operating systems.
pub open spec fn known_os_name(s: Seq<char>) -> bool {
    ||| s == "windows"@
    ||| s == "macos"@
    ||| s == "ios"@
    ||| s == "linux"@
    ||| s == "android"@
    ||| s == "freebsd"@
    ||| s == "dragonfly"@
    ||| s == "bitrig"@
    ||| s == "openbsd"@
    ||| s == "netbsd"@
    ||| s == "unknown"@
}

/// Relies on `target_info::Target::os`: the operating system the crate was
/// built for, one of a fixed list of names, or "unknown".
#[verifier::external_body]
fn target_os() -> (r: String)
    ensures
        known_os_name(r@),
{
    target_info::Target::os().to_owned()
}

/// The stages of a connection.
#[derive(Debug, Clone, Copy, PartialEq, Eq, Structural)]
pub enum ConnectionState {
    Connecting,
    Registering,
    Active,
    Closing,
    Closed,
}

/// What the engine asks of the transport, in the order given.
#[derive(Debug)]
pub enum Action<T> {
    /// Send one message.
    Send(OutboundMessage),
    /// Schedule a timer that fires `token` after `delay_ms` milliseconds; the
    /// transport reports the timer's handle through `on_new_timeout`.
    ScheduleTimeout { delay_ms: u64, token: usize },
    /// Cancel the timer with this handle.
    CancelTimeout(T),
    /// Close the connection.
    Close,
}

/// The request that keeps the heartbeat going.
pub open spec fn heartbeat_schedule<T>() -> Action<T> {
    Action::ScheduleTimeout { delay_ms: HEARTBEAT_INTERVAL, token: HEARTBEAT_TOKEN }
}

/// The timer the session holds after the transport reports a new timer.
pub open spec fn arm_timer<T>(timer: Option<T>, token: usize, handle: T) -> Option<T> {
    if token == HEARTBEAT_TOKEN {
        Some(handle)
    } else {
        timer
    }
}

/// What the engine asks for when the transport reports a new timer: a new
/// heartbeat timer replaces the one held, which is cancelled.
pub open spec fn arm_actions<T>(timer: Option<T>, token: usize, handle: T) -> Seq<Action<T>> {
    if token == HEARTBEAT_TOKEN {
        match timer {
            Some(prev) => seq![Action::CancelTimeout(prev)],
            None => Seq::empty(),
        }
    } else {
        Seq::empty()
    }
}

/// The stage a session reaches on a registration.
pub open spec fn registered_state(state: ConnectionState) -> ConnectionState {
    match state {
        ConnectionState::Closing => ConnectionState::Closing,
        _ => ConnectionState::Active,
    }
}

/// The connection engine: it turns the transport's events into actions, and
/// asks the player for a move on each map update. `T` is the transport's
/// timer handle.
pub struct Client<P: Player, T> {
    player: P,
    config: Config,
    identity: ClientIdentity,
    state: ConnectionState,
    player_id: Option<String>,
    timeout: Option<T>,
}

impl<P: Player, T> Client<P, T> {
    pub closed spec fn state_spec(&self) -> ConnectionState {
        self.state
    }

    /// The id that the server gave this player, once registered.
    pub closed spec fn player_id_spec(&self) -> Option<Seq<char>> {
        match self.player_id {
            Some(id) => Some(id@),
            None => None,
        }
    }

    /// The handle of the heartbeat timer the session holds.
    pub closed spec fn timer_spec(&self) -> Option<T> {
        self.timeout
    }

    pub closed spec fn config_spec(&self) -> Config {
        self.config
    }

    pub closed spec fn identity_spec(&self) -> ClientIdentity {
        self.identity
    }

    /// What no event changes.
    pub open spec fn same_setup(&self, other: &Self) -> bool {
        self.config_spec() == other.config_spec() && self.identity_spec() == other.identity_spec()
    }

    pub fn new(config: Config, player: P, identity: ClientIdentity) -> (r: Self)
        ensures
            r.state_spec() == ConnectionState::Connecting,
            r.player_id_spec() is None,
            r.timer_spec() is None,
            r.config_spec() == config,
            r.identity_spec() == identity,
    {
        Client { player, config, identity, state: ConnectionState::Connecting, player_id: None, timeout: None }
    }
    pub fn state(&self) -> (r: ConnectionState)
        ensures
            r == self.state_spec(),
    {
        self.state
    }

    pub fn player_id(&self) -> (r: Option<&str>)
        ensures
            r matches Some(id) ==> self.player_id_spec() == Some(id@),
            r is None ==> self.player_id_spec() is None,
    {
        match &self.player_id {
            Some(id) => Some(id.as_str()),
            None => None,
        }
    }

    pub fn timer(&self) -> (r: Option<&T>)
        ensures
            r matches Some(t) ==> self.timer_spec() == Some(*t),
            r is None ==> self.timer_spec() is None,
    {
        match &self.timeout {
            Some(t) => Some(t),
            None => None,
        }
    }

    pub fn player(&self) -> &P {
        &self.player
    }

    pub fn config(&self) -> (r: &Config)
        ensures
            *r == self.config_spec(),
    {
        &self.config
    }

    /// The transport opened: introduce the client, then register the player.
    pub fn on_open(&mut self) -> (r: Vec<Action<T>>)
        ensures
            final(self).same_setup(old(self)),
            final(self).player_id_spec() == old(self).player_id_spec(),
            final(self).timer_spec() == old(self).timer_spec(),
            old(self).state_spec() == ConnectionState::Connecting ==> {
                &&& final(self).state_spec() == ConnectionState::Registering
                &&& r@.len() == 2
                &&& r@[0] matches Action::Send(
                    OutboundMessage::ClientInfo {
                        language,
                        language_version,
                        operating_system,
                        operating_system_version,
                        client_version,
                    },
                ) && language@ == "Rust"@ && language_version@
                    == old(self).identity_spec().language_version@ && known_os_name(
                    operating_system@,
                ) && operating_system_version@ == "???"@ && client_version@
                    == old(self).identity_spec().client_version@
                &&& r@[1] matches Action::Send(
                    OutboundMessage::RegisterPlayer { player_name, game_settings },
                ) && player_name@ == old(self).config_spec().snake_name@ && game_settings
                    == GameSettings::default_spec()
            },
            old(self).state_spec() != ConnectionState::Connecting ==> {
                &&& final(self).state_spec() == old(self).state_spec()
                &&& r@.len() == 0
            },
    {
        let mut actions: Vec<Action<T>> = Vec::new();
        if self.state != ConnectionState::Connecting {
            return actions;
        }
        actions.push(
            Action::Send(
                OutboundMessage::ClientInfo {
                    language: "Rust".to_owned(),
                    language_version: self.identity.language_version.clone(),
                    operating_system: target_os(),
                    operating_system_version: "???".to_owned(),
                    client_version: self.identity.client_version.clone(),
                },
            ),
        );
        actions.push(
            Action::Send(
                OutboundMessage::RegisterPlayer {
                    player_name: self.config.snake_name.clone(),
                    game_settings: GameSettings::default(),
                },
            ),
        );
        self.state = ConnectionState::Registering;
        actions
    }

    /// A timer fired. The heartbeat timer is armed again at once, and a
    /// heartbeat goes out if the player is registered.
    pub fn on_timeout(&mut self, token: usize) -> (r: Vec<Action<T>>)
        ensures
            final(self).same_setup(old(self)),
            final(self).state_spec() == old(self).state_spec(),
            final(self).player_id_spec() == old(self).player_id_spec(),
            final(self).timer_spec() == old(self).timer_spec(),
            token == HEARTBEAT_TOKEN && old(self).state_spec() != ConnectionState::Closed ==> {
                &&& r@.len() >= 1
                &&& r@[0] == heartbeat_schedule::<T>()
                &&& match old(self).player_id_spec() {
                    Some(id) => {
                        &&& r@.len() == 2
                        &&& r@[1] matches Action::Send(
                            OutboundMessage::HeartBeatRequest { receiving_player_id },
                        ) && receiving_player_id@ == id
                    },
                    None => r@.len() == 1,
                }
            },
            token != HEARTBEAT_TOKEN || old(self).state_spec() == ConnectionState::Closed ==> r@.len()
                == 0,
    {
        let mut actions: Vec<Action<T>> = Vec::new();
        if token != HEARTBEAT_TOKEN || self.state == ConnectionState::Closed {
            return actions;
        }
        actions.push(Action::ScheduleTimeout { delay_ms: HEARTBEAT_INTERVAL, token: HEARTBEAT_TOKEN });
        if let Some(player_id) = &self.player_id {
            actions.push(
                Action::Send(
                    OutboundMessage::HeartBeatRequest { receiving_player_id: player_id.clone() },
                ),
            );
        }
        actions
    }

    /// The transport scheduled a timer. A new heartbeat timer replaces the
    /// one held, which is cancelled, so that at most one is outstanding.
    pub fn on_new_timeout(&mut self, token: usize, timeout: T) -> (r: Vec<Action<T>>)
        ensures
            final(self).same_setup(old(self)),
            final(self).state_spec() == old(self).state_spec(),
            final(self).player_id_spec() == old(self).player_id_spec(),
            final(self).timer_spec() == arm_timer(old(self).timer_spec(), token, timeout),
            r@ == arm_actions(old(self).timer_spec(), token, timeout),
    {
        let mut actions: Vec<Action<T>> = Vec::new();
        if token == HEARTBEAT_TOKEN {
            let previous = self.timeout.take();
            self.timeout = Some(timeout);
            if let Some(prev) = previous {
                actions.push(Action::CancelTimeout(prev));
            }
        }
        actions
    }

    /// The transport closed: the session ends, and its timer is cancelled.
    pub fn on_close(&mut self) -> (r: Vec<Action<T>>)
        ensures
            final(self).same_setup(old(self)),
            final(self).state_spec() == ConnectionState::Closed,
            final(self).player_id_spec() == old(self).player_id_spec(),
            final(self).timer_spec() is None,
            r@ == match old(self).timer_spec() {
                Some(t) => seq![Action::CancelTimeout(t)],
                None => Seq::<Action<T>>::empty(),
            },
    {
        let mut actions: Vec<Action<T>> = Vec::new();
        if let Some(timeout) = self.timeout.take() {
            actions.push(Action::CancelTimeout(timeout));
        }
        self.state = ConnectionState::Closed;
        actions
    }
    /// How a received message moves the session on, and what is sent in reply.
    /// Once closed, the session takes no more messages.
    pub open spec fn dispatch_spec(
        before: &Self,
        after: &Self,
        message: InboundMessage,
        actions: Seq<Action<T>>,
    ) -> bool {
        let unchanged = after.state_spec() == before.state_spec() && after.player_id_spec()
            == before.player_id_spec();
        &&& after.same_setup(before)
        &&& after.timer_spec() == before.timer_spec()
        &&& if before.state_spec() == ConnectionState::Closed {
            unchanged && actions.len() == 0
        } else {
            match message {
                InboundMessage::PlayerRegistered { receiving_player_id, game_mode, .. } => {
                    &&& after.player_id_spec() == Some(receiving_player_id@)
                    &&& after.state_spec() == registered_state(before.state_spec())
                    &&& actions == if game_mode == GameMode::Training {
                        seq![Action::Send(OutboundMessage::StartGame), heartbeat_schedule::<T>()]
                    } else {
                        seq![heartbeat_schedule::<T>()]
                    }
                },
                InboundMessage::MapUpdate { receiving_player_id, game_id, game_tick, .. } => {
                    &&& unchanged
                    &&& actions.len() == 1
                    &&& actions[0] matches Action::Send(
                        OutboundMessage::RegisterMove {
                            direction,
                            game_tick: tick,
                            game_id: game,
                            receiving_player_id: player,
                        },
                    ) && tick == game_tick && game@ == game_id@ && player@
                        == receiving_player_id@
                },
                InboundMessage::GameEnded { .. } => {
                    if before.config_spec().venue == Venue::Training {
                        &&& after.state_spec() == ConnectionState::Closing
                        &&& after.player_id_spec() == before.player_id_spec()
                        &&& actions == seq![Action::<T>::Close]
                    } else {
                        unchanged && actions.len() == 0
                    }
                },
                InboundMessage::TournamentEnded { .. } => {
                    &&& after.state_spec() == ConnectionState::Closing
                    &&& after.player_id_spec() == before.player_id_spec()
                    &&& actions == seq![Action::<T>::Close]
                },
                _ => unchanged && actions.len() == 0,
            }
        }
    }

    /// A message arrived. The player hears of it first; then a registration
    /// is recorded and arms the heartbeat, a map update is answered with the
    /// player's move, and the end of a training game or of a tournament
    /// closes the connection.
    pub fn on_message(&mut self, message: InboundMessage) -> (r: Vec<Action<T>>)
        ensures
            Self::dispatch_spec(old(self), final(self), message, r@),
    {
        let mut actions: Vec<Action<T>> = Vec::new();
        if self.state == ConnectionState::Closed {
            return actions;
        }
        self.player.on_message(&message);
        match message {
            InboundMessage::PlayerRegistered { receiving_player_id, game_mode, .. } => {
                if game_mode == GameMode::Training {
                    actions.push(Action::Send(OutboundMessage::StartGame));
                }
                self.player_id = Some(receiving_player_id);
                if self.state != ConnectionState::Closing {
                    self.state = ConnectionState::Active;
                }
                actions.push(
                    Action::ScheduleTimeout { delay_ms: HEARTBEAT_INTERVAL, token: HEARTBEAT_TOKEN },
                );
                assert(actions@ =~= if game_mode == GameMode::Training {
                    seq![Action::Send(OutboundMessage::StartGame), heartbeat_schedule::<T>()]
                } else {
                    seq![heartbeat_schedule::<T>()]
                });
            },
            InboundMessage::MapUpdate { receiving_player_id, game_id, game_tick, map } => {
                let direction = self.player.get_next_move(&map, receiving_player_id.as_str());
                actions.push(
                    Action::Send(
                        OutboundMessage::RegisterMove {
                            direction,
                            game_tick,
                            game_id,
                            receiving_player_id,
                        },
                    ),
                );
            },
            InboundMessage::GameEnded { .. } => {
                if self.config.venue == Venue::Training {
                    self.state = ConnectionState::Closing;
                    actions.push(Action::Close);
                    assert(actions@ =~= seq![Action::<T>::Close]);
                }
            },
            InboundMessage::TournamentEnded { .. } => {
                self.state = ConnectionState::Closing;
                actions.push(Action::Close);
                assert(actions@ =~= seq![Action::<T>::Close]);
            },
            _ => {},
        }
        actions
    }
}

/// Arming a second heartbeat timer before the first fires cancels the first:
/// afterwards the session holds the second timer alone, and the first call
/// cancelled whatever timer was held before it.
pub proof fn lemma_heartbeat_timer_replaced<T>(before: Option<T>, first: T, second: T)
    ensures
        ({
            let held = arm_timer(before, HEARTBEAT_TOKEN, first);
            &&& held == Some(first)
            &&& arm_timer(held, HEARTBEAT_TOKEN, second) == Some(second)
            &&& arm_actions(held, HEARTBEAT_TOKEN, second) == seq![Action::CancelTimeout(first)]
            &&& arm_actions(before, HEARTBEAT_TOKEN, first) == match before {
                Some(prev) => seq![Action::CancelTimeout(prev)],
                None => Seq::<Action<T>>::empty(),
            }
        }),
{
}

/// The end of a tournament always asks to close the connection; the end of a
/// game does so exactly when the venue is training. This holds while the
/// connection is open; once closed, no message is handled.
pub proof fn lemma_close_requests<P: Player, T>(
    before: &Client<P, T>,
    after: &Client<P, T>,
    message: InboundMessage,
    actions: Seq<Action<T>>,
)
    requires
        Client::dispatch_spec(before, after, message, actions),
        before.state_spec() != ConnectionState::Closed,
    ensures
        message is TournamentEnded ==> actions.contains(Action::Close),
        message is GameEnded ==> (actions.contains(Action::Close) <==> before.config_spec().venue
            == Venue::Training),
{
    if message is TournamentEnded || (message is GameEnded && before.config_spec().venue
        == Venue::Training) {
        assert(actions[0] == Action::<T>::Close);
    }
}

/// A registration for a training game sends exactly one request to start the
/// game, and sends it before the heartbeat timer is even scheduled. A map
/// update is answered with exactly one move, which echoes the update's tick,
/// game id and player id.
pub proof fn lemma_registration_and_move_replies<P: Player, T>(
    before: &Client<P, T>,
    after: &Client<P, T>,
    message: InboundMessage,
    actions: Seq<Action<T>>,
)
    requires
        Client::dispatch_spec(before, after, message, actions),
        before.state_spec() != ConnectionState::Closed,
    ensures
        message matches InboundMessage::PlayerRegistered { game_mode, .. } && game_mode
            == GameMode::Training ==> {
            &&& actions.len() == 2
            &&& actions[0] == Action::<T>::Send(OutboundMessage::StartGame)
            &&& actions[1] == heartbeat_schedule::<T>()
        },
        message matches InboundMessage::MapUpdate { receiving_player_id, game_id, game_tick, .. }
            ==> {
            &&& actions.len() == 1
            &&& actions[0] matches Action::Send(
                OutboundMessage::RegisterMove {
                    game_tick: tick,
                    game_id: game,
                    receiving_player_id: player,
                    ..
                },
            ) && tick == game_tick && game@ == game_id@ && player@ == receiving_player_id@
        },
{
}

} // verus!
