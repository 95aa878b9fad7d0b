//! Periodic external-registration ("heartbeat") logic.
//!
//! A registrar validates a registration key once. On a bad key it is
//! disabled for good and never produces an outbound request. On a good key
//! it builds a [`HeartbeatInfo`] snapshot of this server's public identity
//! and, from then on, reacts to events: a timer tick asks for one outbound
//! send of the form-encoded snapshot; an inbound status message merges the
//! live occupancy fields into the snapshot; everything else — a send that
//! failed, a send that succeeded, a closed status channel — leaves the
//! registrar exactly as it was, so the cadence of sends is never broken.
//!
//! The event loop itself (timer, channel, HTTP) lives with the caller; the
//! state, the decisions and the payload bytes are all here.

use vstd::prelude::*;
use vstd::string::StringSliceAdditionalSpecFns;
use vstd::string::StringExecFns;
use vstd::utf8::encode_utf8;
use crate::encoding::append_decimal;
use crate::encoding::append_form_encoded;
use crate::encoding::append_str_bytes;
use crate::encoding::decimal;
use crate::encoding::form_encoded;

verus! {

/// The byte offsets at which a well-formed registration key carries its
/// hyphens.
pub open spec fn key_dash_position(i: int) -> bool {
    i == 8 || i == 13 || i == 18 || i == 23
}

/// A well-formed registration key: 36 bytes split by hyphens into five
/// segments of lengths 8, 4, 4, 4 and 12 — that is, hyphens exactly at
/// offsets 8, 13, 18 and 23 and nowhere else.
pub open spec fn valid_key(s: Seq<u8>) -> bool {
    s.len() == 36 && (forall|i: int| 0 <= i < 36 ==> ((s[i] == 45) <==> key_dash_position(i)))
}

/// Checks a registration key against the canonical hyphenated shape.
pub fn validate_key(key: &str) -> (r: bool)
    ensures
        r == valid_key(key.spec_bytes()),
{
    let b = key.as_bytes();
    if b.len() != 36 {
        return false;
    }
    let mut i: usize = 0;
    while i < 36
        invariant
            b@ == key.spec_bytes(),
            b@.len() == 36,
            i <= 36,
            forall|j: int| 0 <= j < i ==> ((b@[j] == 45) <==> key_dash_position(j)),
        decreases 36 - i,
    {
        let is_dash = b[i] == 45;
        let expect_dash = i == 8 || i == 13 || i == 18 || i == 23;
        if is_dash != expect_dash {
            assert(!((b@[i as int] == 45) <==> key_dash_position(i as int)));
            return false;
        }
        i = i + 1;
    }
    true
}

/// Whether an optional registration key is present and well-formed.
pub open spec fn key_accepted(auth_key: Option<String>) -> bool {
    match auth_key {
        Some(k) => valid_key(encode_utf8(k@)),
        None => false,
    }
}

/// A live occupancy update from the roster subsystem.
#[derive(Debug)]
pub struct StatusMessage {
    /// Current number of connected players.
    pub player_count: usize,
    /// Pre-formatted list of connected players.
    pub player_list: String,
}

/// The registration snapshot sent on every heartbeat: the server's public
/// identity, set once, plus the two live occupancy fields that status
/// messages keep current.
#[derive(Debug)]
pub struct HeartbeatInfo {
    /// The validated registration key, doubling as the server's identity.
    pub uuid: String,
    /// Current number of connected players; live.
    pub players: usize,
    /// Declared player capacity.
    pub maxplayers: usize,
    /// Declared port.
    pub port: u16,
    /// Declared map name.
    pub map: String,
    /// Privacy flag on the wire: exactly `"true"` or `"false"`.
    pub private: String,
    /// Protocol version.
    pub version: String,
    /// Client version.
    pub clientversion: String,
    /// Display name.
    pub name: String,
    /// Mod-list placeholder.
    pub modlist: String,
    /// Total size of mods; unused, always zero.
    pub modstotalsize: usize,
    /// Number of mods; unused, always zero.
    pub modstotal: usize,
    /// Pre-formatted list of connected players; live.
    pub playerslist: String,
    /// Free-form description.
    pub desc: String,
}

/// The form-encoded body of one heartbeat request: every snapshot field in
/// wire order, each value form-urlencoded, numbers in decimal.
pub open spec fn payload_bytes(info: HeartbeatInfo) -> Seq<u8> {
    ("uuid=").spec_bytes() + form_encoded(encode_utf8(info.uuid@)) + ("&players=").spec_bytes()
        + decimal(info.players as nat) + ("&maxplayers=").spec_bytes() + decimal(
        info.maxplayers as nat,
    ) + ("&port=").spec_bytes() + decimal(info.port as nat) + ("&map=").spec_bytes()
        + form_encoded(encode_utf8(info.map@)) + ("&private=").spec_bytes() + form_encoded(
        encode_utf8(info.private@),
    ) + ("&version=").spec_bytes() + form_encoded(encode_utf8(info.version@)) + (
    "&clientversion=").spec_bytes() + form_encoded(encode_utf8(info.clientversion@)) + (
    "&name=").spec_bytes() + form_encoded(encode_utf8(info.name@)) + ("&modlist=").spec_bytes()
        + form_encoded(encode_utf8(info.modlist@)) + ("&modstotalsize=").spec_bytes() + decimal(
        info.modstotalsize as nat,
    ) + ("&modstotal=").spec_bytes() + decimal(info.modstotal as nat) + (
    "&playerslist=").spec_bytes() + form_encoded(encode_utf8(info.playerslist@)) + (
    "&desc=").spec_bytes() + form_encoded(encode_utf8(info.desc@))
}

impl HeartbeatInfo {
    /// Builds the snapshot for a freshly validated registration: identity
    /// fields from configuration, the port defaulted to 30814 when unset,
    /// the privacy flag rendered as `"true"` or `"false"`, and the live
    /// occupancy fields zeroed.
    pub fn new(
        uuid: String,
        max_players: usize,
        port: Option<u16>,
        map: String,
        private: bool,
        name: String,
        desc: String,
    ) -> (info: HeartbeatInfo)
        ensures
            info.uuid == uuid,
            info.players == 0,
            info.maxplayers == max_players,
            (port matches Some(p) ==> info.port == p),
            (port is None ==> info.port == 30814),
            info.map == map,
            (private ==> info.private@ == "true"@),
            (!private ==> info.private@ == "false"@),
            info.version@ == "3.3.0"@,
            info.clientversion@ == "2.0"@,
            info.name == name,
            info.modlist@ == "-"@,
            info.modstotalsize == 0,
            info.modstotal == 0,
            info.playerslist@ == Seq::<char>::empty(),
            info.desc == desc,
    {
        HeartbeatInfo {
            uuid,
            players: 0,
            maxplayers: max_players,
            port: match port {
                Some(p) => p,
                None => 30814,
            },
            map,
            private: if private {
                String::from_str("true")
            } else {
                String::from_str("false")
            },
            version: String::from_str("3.3.0"),
            clientversion: String::from_str("2.0"),
            name,
            modlist: String::from_str("-"),
            modstotalsize: 0,
            modstotal: 0,
            playerslist: String::new(),
            desc,
        }
    }

    /// Merges one status message: the player count and player list are
    /// replaced, every other field is left untouched.
    pub fn apply_status(&mut self, status: StatusMessage)
        ensures
            final(self).players == status.player_count,
            final(self).playerslist == status.player_list,
            final(self).uuid == old(self).uuid,
            final(self).maxplayers == old(self).maxplayers,
            final(self).port == old(self).port,
            final(self).map == old(self).map,
            final(self).private == old(self).private,
            final(self).version == old(self).version,
            final(self).clientversion == old(self).clientversion,
            final(self).name == old(self).name,
            final(self).modlist == old(self).modlist,
            final(self).modstotalsize == old(self).modstotalsize,
            final(self).modstotal == old(self).modstotal,
            final(self).desc == old(self).desc,
    {
        self.players = status.player_count;
        self.playerslist = status.player_list;
    }

    /// Renders the snapshot as the form-encoded heartbeat body.
    pub fn payload(&self) -> (out: Vec<u8>)
        ensures
            out@ == payload_bytes(*self),
    {
        let mut out: Vec<u8> = Vec::new();
        append_str_bytes(&mut out, "uuid=");
        assert(out@ =~= ("uuid=").spec_bytes());
        append_form_encoded(&mut out, self.uuid.as_str().as_bytes());
        append_str_bytes(&mut out, "&players=");
        append_decimal(&mut out, self.players as u64);
        append_str_bytes(&mut out, "&maxplayers=");
        append_decimal(&mut out, self.maxplayers as u64);
        append_str_bytes(&mut out, "&port=");
        append_decimal(&mut out, self.port as u64);
        append_str_bytes(&mut out, "&map=");
        append_form_encoded(&mut out, self.map.as_str().as_bytes());
        append_str_bytes(&mut out, "&private=");
        append_form_encoded(&mut out, self.private.as_str().as_bytes());
        append_str_bytes(&mut out, "&version=");
        append_form_encoded(&mut out, self.version.as_str().as_bytes());
        append_str_bytes(&mut out, "&clientversion=");
        append_form_encoded(&mut out, self.clientversion.as_str().as_bytes());
        append_str_bytes(&mut out, "&name=");
        append_form_encoded(&mut out, self.name.as_str().as_bytes());
        append_str_bytes(&mut out, "&modlist=");
        append_form_encoded(&mut out, self.modlist.as_str().as_bytes());
        append_str_bytes(&mut out, "&modstotalsize=");
        append_decimal(&mut out, self.modstotalsize as u64);
        append_str_bytes(&mut out, "&modstotal=");
        append_decimal(&mut out, self.modstotal as u64);
        append_str_bytes(&mut out, "&playerslist=");
        append_form_encoded(&mut out, self.playerslist.as_str().as_bytes());
        append_str_bytes(&mut out, "&desc=");
        append_form_encoded(&mut out, self.desc.as_str().as_bytes());
        assert(out@ =~= payload_bytes(*self));
        out
    }
}

/// The registrar: disabled for good by a bad key, or actively heartbeating
/// with a snapshot.
#[derive(Debug)]
pub enum RegistrarState {
    /// The registration key was absent or malformed; nothing is ever sent.
    KeyRejected,
    /// The key was accepted; the snapshot is kept current and sent on every
    /// tick.
    Active(HeartbeatInfo),
}

/// One thing the registrar can react to.
#[derive(Debug)]
pub enum RegistrarEvent {
    /// The fixed-cadence timer fired.
    Tick,
    /// A live occupancy update arrived.
    Status(StatusMessage),
    /// The occupancy channel's producer went away.
    ChannelClosed,
    /// The previous outbound send completed.
    SendSucceeded,
    /// The previous outbound send failed.
    SendFailed,
}

/// What the caller must do after a step.
#[derive(Debug)]
pub enum RegistrarAction {
    /// Nothing to perform.
    DoNothing,
    /// Issue one outbound heartbeat request with this form-encoded body.
    Send(Vec<u8>),
}

/// The registrar's next state: a rejected key stays rejected whatever
/// happens; an active registrar merges status messages into its snapshot
/// and is unmoved by anything else — ticks, send outcomes, a closed
/// channel.
pub open spec fn step_state(s: RegistrarState, e: RegistrarEvent) -> RegistrarState {
    match s {
        RegistrarState::KeyRejected => RegistrarState::KeyRejected,
        RegistrarState::Active(info) => match e {
            RegistrarEvent::Status(m) => RegistrarState::Active(
                HeartbeatInfo { players: m.player_count, playerslist: m.player_list, ..info },
            ),
            _ => RegistrarState::Active(info),
        },
    }
}

/// Whether a step fires an outbound heartbeat: exactly on a timer tick of
/// an active registrar.
pub open spec fn step_sends(s: RegistrarState, e: RegistrarEvent) -> bool {
    s is Active && e is Tick
}

impl RegistrarState {
    /// Builds the registrar from configuration: the key is validated once;
    /// on failure the registrar is disabled for the process lifetime, on
    /// success it starts with a fresh snapshot.
    pub fn init(
        auth_key: Option<String>,
        max_players: usize,
        port: Option<u16>,
        map: String,
        private: bool,
        name: String,
        desc: String,
    ) -> (s: RegistrarState)
        ensures
            s is KeyRejected <==> !key_accepted(auth_key),
            key_accepted(auth_key) ==> (s matches RegistrarState::Active(info) && (init_snapshot_ok(
                info,
                auth_key->0,
                max_players,
                port,
                private,
            ) && info.map == map && info.name == name && info.desc == desc)),
    {
        match auth_key {
            Some(k) => {
                if validate_key(k.as_str()) {
                    RegistrarState::Active(
                        HeartbeatInfo::new(k, max_players, port, map, private, name, desc),
                    )
                } else {
                    RegistrarState::KeyRejected
                }
            },
            None => RegistrarState::KeyRejected,
        }
    }

    /// Reacts to one event, returning the action the caller must perform.
    /// The returned action is `Send` exactly when the event is a timer tick
    /// of an active registrar, and the body it carries is the snapshot's
    /// form-encoded payload.
    pub fn step(self, event: RegistrarEvent) -> (r: (RegistrarState, RegistrarAction))
        ensures
            r.0 == step_state(self, event),
            (r.1 is Send <==> step_sends(self, event)),
            (r.1 matches RegistrarAction::Send(body) ==> (self matches RegistrarState::Active(
                info,
            ) && body@ == payload_bytes(info))),
    {
        match self {
            RegistrarState::KeyRejected => (RegistrarState::KeyRejected, RegistrarAction::DoNothing),
            RegistrarState::Active(mut info) => match event {
                RegistrarEvent::Tick => {
                    let body = info.payload();
                    (RegistrarState::Active(info), RegistrarAction::Send(body))
                },
                RegistrarEvent::Status(m) => {
                    info.apply_status(m);
                    (RegistrarState::Active(info), RegistrarAction::DoNothing)
                },
                _ => (RegistrarState::Active(info), RegistrarAction::DoNothing),
            },
        }
    }
}

/// The identity fields a fresh snapshot owes to the configuration it was
/// built from, and the zeroed live fields.
pub open spec fn init_snapshot_ok(
    info: HeartbeatInfo,
    key: String,
    max_players: usize,
    port: Option<u16>,
    private: bool,
) -> bool {
    &&& info.uuid == key
    &&& info.players == 0
    &&& info.maxplayers == max_players
    &&& (port matches Some(p) ==> info.port == p)
    &&& (port is None ==> info.port == 30814)
    &&& (private ==> info.private@ == "true"@)
    &&& (!private ==> info.private@ == "false"@)
    &&& info.version@ == "3.3.0"@
    &&& info.clientversion@ == "2.0"@
    &&& info.modlist@ == "-"@
    &&& info.modstotalsize == 0
    &&& info.modstotal == 0
    &&& info.playerslist@ == Seq::<char>::empty()
}

/// The state after a whole run: `events` applied in order from `s`.
pub open spec fn run_state(s: RegistrarState, events: Seq<RegistrarEvent>) -> RegistrarState
    decreases events.len(),
{
    if events.len() == 0 {
        s
    } else {
        run_state(step_state(s, events[0]), events.drop_first())
    }
}

/// Two snapshots agree on every identity field — everything but the two
/// live occupancy fields.
pub open spec fn same_identity(a: HeartbeatInfo, b: HeartbeatInfo) -> bool {
    &&& a.uuid == b.uuid
    &&& a.maxplayers == b.maxplayers
    &&& a.port == b.port
    &&& a.map == b.map
    &&& a.private == b.private
    &&& a.version == b.version
    &&& a.clientversion == b.clientversion
    &&& a.name == b.name
    &&& a.modlist == b.modlist
    &&& a.modstotalsize == b.modstotalsize
    &&& a.modstotal == b.modstotal
    &&& a.desc == b.desc
}

/// Once active, the registrar stays active and its identity fields never
/// move, whatever arrives: only the two occupancy fields ever change. In
/// particular the privacy flag keeps the one rendering it was built with.
pub proof fn lemma_identity_fields_stable(info: HeartbeatInfo, events: Seq<RegistrarEvent>)
    ensures
        run_state(RegistrarState::Active(info), events) matches RegistrarState::Active(info2)
            && same_identity(info, info2),
    decreases events.len(),
{
    if events.len() > 0 {
        let next = step_state(RegistrarState::Active(info), events[0]);
        assert(next matches RegistrarState::Active(n) && same_identity(info, n));
        lemma_identity_fields_stable(next->0, events.drop_first());
    }
}

/// Whether some step of a run fires a send: `events` applied in order from
/// `s`.
pub open spec fn run_sends(s: RegistrarState, events: Seq<RegistrarEvent>) -> bool
    decreases events.len(),
{
    if events.len() == 0 {
        false
    } else {
        step_sends(s, events[0]) || run_sends(step_state(s, events[0]), events.drop_first())
    }
}

/// With a rejected key, no sequence of events — ticks included — ever
/// produces an outbound send.
pub proof fn lemma_rejected_key_never_sends(events: Seq<RegistrarEvent>)
    ensures
        !run_sends(RegistrarState::KeyRejected, events),
    decreases events.len(),
{
    if events.len() > 0 {
        lemma_rejected_key_never_sends(events.drop_first());
    }
}

/// A failed send leaves an active registrar exactly as it was, and the
/// next timer tick still fires a send: one failure never breaks the
/// cadence.
pub proof fn lemma_send_failure_keeps_cadence(s: RegistrarState)
    requires
        s is Active,
    ensures
        step_state(s, RegistrarEvent::SendFailed) == s,
        step_sends(step_state(s, RegistrarEvent::SendFailed), RegistrarEvent::Tick),
{
}

} // verus!
