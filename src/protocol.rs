use crate::types::OutboundMessage;
use vstd::prelude::*;
use vstd::string::StrSliceExecFns;

verus! {

/// The kinds of message the server sends, as named by the last part of a
/// message's type label.
#[derive(Debug, Clone, Copy, PartialEq, Eq, Structural)]
pub enum InboundKind {
    GameEnded,
    GameLink,
    GameResult,
    GameStarting,
    HeartBeatResponse,
    InvalidPlayerName,
    MapUpdate,
    PlayerRegistered,
    SnakeDead,
    TournamentEnded,
    Unrecognized,
}

/// The part of `s` after its last dot; all of `s` when it has none.
pub open spec fn last_segment(s: Seq<char>) -> Seq<char>
    decreases s.len(),
{
    if s.len() == 0 {
        s
    } else if s.last() == '.' {
        Seq::empty()
    } else {
        last_segment(s.drop_last()).push(s.last())
    }
}

/// The suffix that the server puts on the names of its events.
pub open spec fn event_suffix() -> Seq<char> {
    seq!['E', 'v', 'e', 'n', 't']
}

/// `s` without a trailing `Event`.
pub open spec fn strip_event(s: Seq<char>) -> Seq<char> {
    if s.len() >= 5 && s.subrange(s.len() - 5, s.len() as int) == event_suffix() {
        s.subrange(0, s.len() - 5)
    } else {
        s
    }
}

/// The logical name of a message, given its dotted type label.
pub open spec fn logical_name_spec(label: Seq<char>) -> Seq<char> {
    strip_event(last_segment(label))
}

/// The kind that a logical name stands for.
pub open spec fn kind_named(name: Seq<char>) -> InboundKind {
    if name == "GameEnded"@ {
        InboundKind::GameEnded
    } else if name == "GameLink"@ {
        InboundKind::GameLink
    } else if name == "GameResult"@ {
        InboundKind::GameResult
    } else if name == "GameStarting"@ {
        InboundKind::GameStarting
    } else if name == "HeartBeatResponse"@ {
        InboundKind::HeartBeatResponse
    } else if name == "InvalidPlayerName"@ {
        InboundKind::InvalidPlayerName
    } else if name == "MapUpdate"@ {
        InboundKind::MapUpdate
    } else if name == "PlayerRegistered"@ {
        InboundKind::PlayerRegistered
    } else if name == "SnakeDead"@ {
        InboundKind::SnakeDead
    } else if name == "TournamentEnded"@ {
        InboundKind::TournamentEnded
    } else {
        InboundKind::Unrecognized
    }
}

/// The logical name of a message: the last part of its dotted type label,
/// without the `Event` that ends the names of events.
pub fn logical_name(label: &str) -> (r: String)
    ensures
        r@ == logical_name_spec(label@),
{
    let n = label.unicode_len();
    let mut start: usize = n;
    assert(label@.subrange(0, n as int) =~= label@);
    assert(last_segment(label@) + label@.subrange(n as int, n as int) =~= last_segment(label@));
    while start > 0 && label.get_char(start - 1) != '.'
        invariant
            start <= n,
            n == label@.len(),
            last_segment(label@) == last_segment(label@.subrange(0, start as int))
                + label@.subrange(start as int, n as int),
        decreases start,
    {
        let ghost head = label@.subrange(0, start - 1);
        let ghost c = label@[start - 1];
        assert(label@.subrange(0, start as int).drop_last() =~= head);
        assert(label@.subrange(start - 1, n as int) =~= seq![c] + label@.subrange(
            start as int,
            n as int,
        ));
        assert(last_segment(head).push(c) + label@.subrange(start as int, n as int)
            =~= last_segment(head) + label@.subrange(start - 1, n as int));
        start = start - 1;
    }
    assert(last_segment(label@.subrange(0, start as int)) =~= Seq::<char>::empty());
    assert(last_segment(label@) =~= label@.subrange(start as int, n as int));
    let segment = label.substring_char(start, n);
    let m = segment.unicode_len();
    if m >= 5 && segment.get_char(m - 5) == 'E' && segment.get_char(m - 4) == 'v'
        && segment.get_char(m - 3) == 'e' && segment.get_char(m - 2) == 'n' && segment.get_char(
        m - 1,
    ) == 't' {
        assert(segment@.subrange(m - 5, m as int) =~= event_suffix());
        segment.substring_char(0, m - 5).to_owned()
    } else {
        assert(m >= 5 ==> segment@.subrange(m - 5, m as int) != event_suffix()) by {
            if m >= 5 && segment@.subrange(m - 5, m as int) == event_suffix() {
                assert(segment@.subrange(m - 5, m as int)[0] == 'E');
                assert(segment@.subrange(m - 5, m as int)[1] == 'v');
                assert(segment@.subrange(m - 5, m as int)[2] == 'e');
                assert(segment@.subrange(m - 5, m as int)[3] == 'n');
                assert(segment@.subrange(m - 5, m as int)[4] == 't');
            }
        }
        segment.to_owned()
    }
}

/// The kind of a message, given its type label. A label that names no known
/// kind gives `Unrecognized`, which is no error.
pub fn inbound_kind(label: &str) -> (r: InboundKind)
    ensures
        r == kind_named(logical_name_spec(label@)),
{
    let name = logical_name(label);
    if name == "GameEnded".to_owned() {
        InboundKind::GameEnded
    } else if name == "GameLink".to_owned() {
        InboundKind::GameLink
    } else if name == "GameResult".to_owned() {
        InboundKind::GameResult
    } else if name == "GameStarting".to_owned() {
        InboundKind::GameStarting
    } else if name == "HeartBeatResponse".to_owned() {
        InboundKind::HeartBeatResponse
    } else if name == "InvalidPlayerName".to_owned() {
        InboundKind::InvalidPlayerName
    } else if name == "MapUpdate".to_owned() {
        InboundKind::MapUpdate
    } else if name == "PlayerRegistered".to_owned() {
        InboundKind::PlayerRegistered
    } else if name == "SnakeDead".to_owned() {
        InboundKind::SnakeDead
    } else if name == "TournamentEnded".to_owned() {
        InboundKind::TournamentEnded
    } else {
        InboundKind::Unrecognized
    }
}

impl OutboundMessage {
    /// The type label that a message carries on the wire.
    pub open spec fn type_label_spec(&self) -> Seq<char> {
        match self {
            OutboundMessage::ClientInfo { .. } => "se.cygni.snake.api.request.ClientInfo"@,
            OutboundMessage::HeartBeatRequest { .. } => "se.cygni.snake.api.request.HeartBeatRequest"@,
            OutboundMessage::RegisterMove { .. } => "se.cygni.snake.api.request.RegisterMove"@,
            OutboundMessage::RegisterPlayer { .. } => "se.cygni.snake.api.request.RegisterPlayer"@,
            OutboundMessage::StartGame => "se.cygni.snake.api.request.StartGame"@,
        }
    }

    pub fn type_label(&self) -> (r: &'static str)
        ensures
            r@ == self.type_label_spec(),
    {
        match self {
            OutboundMessage::ClientInfo { .. } => "se.cygni.snake.api.request.ClientInfo",
            OutboundMessage::HeartBeatRequest { .. } => "se.cygni.snake.api.request.HeartBeatRequest",
            OutboundMessage::RegisterMove { .. } => "se.cygni.snake.api.request.RegisterMove",
            OutboundMessage::RegisterPlayer { .. } => "se.cygni.snake.api.request.RegisterPlayer",
            OutboundMessage::StartGame => "se.cygni.snake.api.request.StartGame",
        }
    }
}

} // verus!
