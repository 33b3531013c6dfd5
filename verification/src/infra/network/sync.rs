//! Listening-party protocol: the messages exchanged with the relay, the
//! party session state, the relay connection URL, and what the connection
//! reader does with each frame it receives.

use vstd::prelude::*;

use crate::text::owned;

verus! {

/// Who may control playback in a party.
#[derive(Clone, Copy, Debug, PartialEq, Eq, Structural)]
pub enum ControlMode {
    HostOnly,
    SharedControl,
}

impl ControlMode {
    /// The name shown for the mode.
    pub fn label(&self) -> (s: String)
        ensures
            s@ == match *self {
                ControlMode::HostOnly => "Host Only"@,
                ControlMode::SharedControl => "Shared Control"@,
            },
    {
        match self {
            ControlMode::HostOnly => owned("Host Only"),
            ControlMode::SharedControl => owned("Shared Control"),
        }
    }
}

impl Default for ControlMode {
    fn default() -> (m: ControlMode)
        ensures
            m == ControlMode::HostOnly,
    {
        ControlMode::HostOnly
    }
}

/// A playback command sent through the relay.
#[derive(Clone, Debug, PartialEq, Eq)]
pub enum PlaybackAction {
    Play,
    Pause,
    NextTrack,
    PrevTrack,
    Seek { position_ms: u64 },
    PlayTrack { uri: String },
}

/// A message of the relay protocol.
#[derive(Clone, Debug, PartialEq, Eq)]
pub enum SyncMessage {
    RoomCreated { code: String, control_mode: String },
    JoinedRoom { host_name: String },
    GuestJoined { name: String },
    GuestLeft { name: String },
    SyncState { track_uri: String, position_ms: u64, is_playing: bool, timestamp: u64 },
    PlaybackCommand { action: PlaybackAction, from: Option<String> },
    SetControlMode { control_mode: String },
    SetName { name: String },
    Heartbeat,
    Error { message: String },
    RoomClosed,
}

/// This client's part in a party.
#[derive(Clone, Copy, Debug, PartialEq, Eq, Structural)]
pub enum PartyRole {
    Host,
    Guest,
}

/// The state of the party connection.
#[derive(Clone, Copy, Debug, PartialEq, Eq, Structural)]
pub enum PartyStatus {
    Disconnected,
    Connecting,
    Hosting,
    Joined,
}

impl PartyStatus {
    /// The text shown for the status.
    pub fn label(&self) -> (s: String)
        ensures
            s@ == match *self {
                PartyStatus::Disconnected => "Disconnected"@,
                PartyStatus::Connecting => "Connecting..."@,
                PartyStatus::Hosting => "Hosting"@,
                PartyStatus::Joined => "Joined"@,
            },
    {
        match self {
            PartyStatus::Disconnected => owned("Disconnected"),
            PartyStatus::Connecting => owned("Connecting..."),
            PartyStatus::Hosting => owned("Hosting"),
            PartyStatus::Joined => owned("Joined"),
        }
    }
}

impl Default for PartyStatus {
    fn default() -> (s: PartyStatus)
        ensures
            s == PartyStatus::Disconnected,
    {
        PartyStatus::Disconnected
    }
}

/// An open party.
#[derive(Clone, Debug, PartialEq, Eq)]
pub struct PartySession {
    pub role: PartyRole,
    pub code: String,
    pub guests: Vec<String>,
    pub control_mode: ControlMode,
    pub host_name: String,
}

/// A frame read from the relay connection, as the reader sees it.
#[derive(Clone, Debug, PartialEq, Eq)]
pub enum RelayFrame {
    /// A text frame, with the message it parses to (none when it does not
    /// parse as a protocol message).
    Text(Option<SyncMessage>),
    /// The relay closed the connection.
    Close,
    /// A binary, ping or pong frame.
    Other,
    /// Reading failed, with the error's text.
    Failed(String),
}

/// What the reader does with a frame: the message to hand on, if any, and
/// whether to stop reading.
#[derive(Clone, Debug, PartialEq, Eq)]
pub struct ReaderStep {
    pub forward: Option<SyncMessage>,
    pub stop: bool,
}

/// The reader's reaction to each kind of frame.
pub open spec fn reader_reaction(frame: RelayFrame) -> (Option<SyncMessage>, bool) {
    match frame {
        RelayFrame::Text(m) => (m, false),
        RelayFrame::Close => (Some(SyncMessage::RoomClosed), true),
        RelayFrame::Other => (None, false),
        RelayFrame::Failed(e) => (None, true),
    }
}

/// Decide what to do with a frame read from the relay: parsed messages are
/// handed on, a close becomes `RoomClosed` and ends the reader, a read error
/// becomes an `Error` message ("Connection lost: ...") and ends it, and
/// anything else is skipped. The reader also ends when a message can no
/// longer be handed on.
pub fn party_reader_step(frame: RelayFrame) -> (s: ReaderStep)
    ensures
        frame matches RelayFrame::Failed(e) ==> (s.forward matches Some(
            SyncMessage::Error { message },
        ) && message@ == "Connection lost: "@ + e@ && s.stop),
        !(frame is Failed) ==> s.forward == reader_reaction(frame).0 && s.stop == reader_reaction(
            frame,
        ).1,
{
    match frame {
        RelayFrame::Text(m) => ReaderStep { forward: m, stop: false },
        RelayFrame::Close => ReaderStep { forward: Some(SyncMessage::RoomClosed), stop: true },
        RelayFrame::Other => ReaderStep { forward: None, stop: false },
        RelayFrame::Failed(e) => {
            let mut message: String = owned("Connection lost: ");
            message.append(e.as_str());
            ReaderStep { forward: Some(SyncMessage::Error { message }), stop: true }
        },
    }
}

/// The longest relay URL plus query text accepted: the URL parser stores
/// offsets as `u32`, and percent-encoding can grow text twelvefold.
pub const MAX_RELAY_TEXT: usize = 100_000_000;

/// Total length of the names and values of a list of pairs.
pub open spec fn pairs_text_len(pairs: Seq<(Seq<char>, Seq<char>)>) -> int
    decreases pairs.len(),
{
    if pairs.len() == 0 {
        0
    } else {
        pairs_text_len(pairs.drop_last()) + pairs.last().0.len() + pairs.last().1.len()
    }
}

/// Total length of the texts that go into a relay URL: the relay URL, the
/// `action` pair and the parameters.
pub open spec fn relay_text_len(relay_url: Seq<char>, action: Seq<char>, params: Seq<(String, String)>) -> int {
    relay_url.len() + "action"@.len() + action.len() + pairs_text_len(pair_views(params))
}

/// What `url::Url::parse_with_params` makes of `base` and `pairs` (the URL
/// parsed, then each pair appended to its query, form-urlencoded), as its
/// serialization, or the parse error's message.
pub uninterp spec fn url_with_query(base: Seq<char>, pairs: Seq<(Seq<char>, Seq<char>)>) -> Result<
    Seq<char>,
    Seq<char>,
>;

/// The views of a list of string pairs.
pub open spec fn pair_views(pairs: Seq<(String, String)>) -> Seq<(Seq<char>, Seq<char>)> {
    pairs.map_values(|p: (String, String)| (p.0@, p.1@))
}

/// Calls `url::Url::parse_with_params(base, pairs)` and serializes the URL
/// with `as_str`. Claimed: the result is the named outcome for these
/// arguments, the error side carrying the `ParseError`'s display text. The
/// length bound keeps the parser's `u32` offsets, which it unwraps, in range.
#[verifier::external_body]
fn url_with_query_pairs(base: &str, pairs: &Vec<(String, String)>) -> (r: Result<String, String>)
    requires
        base@.len() + pairs_text_len(pair_views(pairs@)) <= MAX_RELAY_TEXT,
    ensures
        match url_with_query(base@, pair_views(pairs@)) {
            Ok(u) => r matches Ok(x) && x@ == u,
            Err(e) => r matches Err(x) && x@ == e,
        },
{
    match url::Url::parse_with_params(base, pairs.iter()) {
        Ok(u) => Ok(u.as_str().to_string()),
        Err(e) => Err(e.to_string()),
    }
}

/// The URL to open a relay connection for `action` with `params`: the relay
/// URL with `action=<action>` and then each parameter appended to its query.
/// A relay URL that does not parse is reported as "Invalid relay URL: ...".
pub fn relay_connect_url(relay_url: &str, action: &str, params: &Vec<(String, String)>) -> (r: Result<
    String,
    String,
>)
    requires
        relay_text_len(relay_url@, action@, params@) <= MAX_RELAY_TEXT,
    ensures
        match url_with_query(
            relay_url@,
            seq![("action"@, action@)] + pair_views(params@),
        ) {
            Ok(u) => r matches Ok(x) && x@ == u,
            Err(e) => r matches Err(x) && x@ == "Invalid relay URL: "@ + e,
        },
{
    let mut pairs: Vec<(String, String)> = Vec::new();
    pairs.push((owned("action"), owned(action)));
    let mut i: usize = 0;
    proof {
        reveal_strlit("action");
    }
    while i < params.len()
        invariant
            i <= params@.len(),
            pair_views(pairs@) == seq![("action"@, action@)] + pair_views(params@.subrange(0, i as int)),
            pairs@.len() == i + 1,
        decreases params@.len() - i,
    {
        let k: String = params[i].0.clone();
        let v: String = params[i].1.clone();
        let ghost before = pairs@;
        pairs.push((k, v));
        proof {
            assert(pair_views(pairs@) =~= pair_views(before).push((k@, v@)));
            assert(pair_views(params@.subrange(0, i + 1)) =~= pair_views(
                params@.subrange(0, i as int),
            ).push((k@, v@)));
            assert(pair_views(pairs@) =~= seq![("action"@, action@)] + pair_views(
                params@.subrange(0, i + 1),
            ));
        }
        i = i + 1;
    }
    proof {
        assert(params@.subrange(0, params@.len() as int) =~= params@);
        let head = seq![("action"@, action@)];
        lemma_pairs_text_len_append(head, pair_views(params@));
        assert(head.drop_last() =~= Seq::<(Seq<char>, Seq<char>)>::empty());
        assert(pairs_text_len(head.drop_last()) == 0);
        assert(pairs_text_len(head) == "action"@.len() + action@.len());
    }
    match url_with_query_pairs(relay_url, &pairs) {
        Ok(u) => Ok(u),
        Err(e) => {
            let mut m: String = owned("Invalid relay URL: ");
            m.append(e.as_str());
            Err(m)
        },
    }
}

proof fn lemma_pairs_text_len_append(a: Seq<(Seq<char>, Seq<char>)>, b: Seq<(Seq<char>, Seq<char>)>)
    ensures
        pairs_text_len(a + b) == pairs_text_len(a) + pairs_text_len(b),
    decreases b.len(),
{
    if b.len() > 0 {
        lemma_pairs_text_len_append(a, b.drop_last());
        assert((a + b).drop_last() =~= a + b.drop_last());
    } else {
        assert(a + b =~= a);
    }
}

} // verus!
