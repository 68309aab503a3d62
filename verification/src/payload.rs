use vstd::prelude::*;
use vstd::utf8::encode_utf8;
use crate::json::{lit_bytes, quoted, dec_bytes, push_lit, push_quoted, push_u32_dec};
use crate::names::{ActivityCmd, ActivityEvent, cmd_name, cmd_name_str, evt_name, evt_name_str};

verus! {

/// The handshake data sent to the companion application on connection.
#[derive(Debug, Clone, PartialEq, Eq)]
pub struct HandshakeData {
    /// The protocol version; always 1 for this client.
    pub v: u32,
    /// The client identifier the connection is made for.
    pub client_id: String,
}

impl HandshakeData {
    /// Builds the handshake payload for a client identifier, at protocol
    /// version 1.
    pub fn new(client_id: &str) -> (r: Self)
        ensures
            r.v == 1,
            r.client_id@ == client_id@,
    {
        Self { v: 1, client_id: client_id.to_owned() }
    }
}

/// An opaque, already-serialized activity payload.
///
/// The engine embeds this JSON text in the command body without
/// interpreting it; whoever builds it answers for it being one valid
/// JSON value.
#[derive(Debug, Clone, PartialEq, Eq)]
pub struct Activity {
    /// The JSON text of the activity, as UTF-8 bytes.
    pub json: Vec<u8>,
}

impl Activity {
    /// Wraps the JSON text of an activity value.
    pub fn new(json: Vec<u8>) -> (r: Self)
        ensures
            r.json@ == json@,
    {
        Self { json }
    }
}

/// The `args` member of an outgoing command: the sender's process id and
/// the activity to set, or `None` to clear it.
#[derive(Debug, Clone, PartialEq, Eq)]
pub struct ActivityArgs {
    /// The process id the presence is attributed to.
    pub pid: u32,
    /// The activity to set; `None` clears it.
    pub activity: Option<Activity>,
}

/// A command message sent from this client to the companion application.
#[derive(Debug, Clone, PartialEq, Eq)]
pub struct DiscordIPCCommandOutgoing {
    /// The command identifier of this request.
    pub cmd: ActivityCmd,
    /// The arguments of this request.
    pub args: ActivityArgs,
    /// The unique identifier of this request; a response carries the
    /// matching one.
    pub nonce: String,
    /// The event name, for subscription commands; `None` otherwise.
    pub evt: Option<ActivityEvent>,
}

/// The shape of a freshly generated nonce: the 36-character hyphenated
/// form, lower-case hex digits and hyphens only, so it never needs
/// escaping inside a JSON string.
pub open spec fn nonce_chars_ok(s: Seq<char>) -> bool {
    &&& s.len() == 36
    &&& forall|i: int|
        0 <= i < s.len() ==> (('0' <= #[trigger] s[i] && s[i] <= '9') || ('a' <= s[i] && s[i]
            <= 'f') || s[i] == '-')
}

/// Relies on `uuid::Uuid::new_v4` and its `Display` form: a fresh
/// version-4 UUID printed hyphenated, 36 characters of lower-case hex
/// digits and hyphens.  The value is random; nothing else is promised of
/// it.  Like an allocation failure, an unusable operating-system
/// randomness source aborts the process inside the outside crate.
#[verifier::external_body]
fn fresh_nonce() -> (r: String)
    ensures
        nonce_chars_ok(r@),
{
    uuid::Uuid::new_v4().to_string()
}

impl DiscordIPCCommandOutgoing {
    /// Builds the envelope that sets an activity: `cmd` is
    /// `SetActivity`, `args` carries the process id and the payload, the
    /// nonce is freshly generated, and no event is named.
    pub fn set_activity(activity: Activity, pid: u32) -> (r: Self)
        ensures
            r.cmd == ActivityCmd::SetActivity,
            r.args.pid == pid,
            r.args.activity == Some(activity),
            r.evt is None,
            nonce_chars_ok(r.nonce@),
    {
        Self {
            cmd: ActivityCmd::SetActivity,
            args: ActivityArgs { pid, activity: Some(activity) },
            nonce: fresh_nonce(),
            evt: None,
        }
    }

    /// Builds the envelope that clears the activity: as `set_activity`,
    /// with `args.activity` empty.
    pub fn clear_activity(pid: u32) -> (r: Self)
        ensures
            r.cmd == ActivityCmd::SetActivity,
            r.args.pid == pid,
            r.args.activity is None,
            r.evt is None,
            nonce_chars_ok(r.nonce@),
    {
        Self {
            cmd: ActivityCmd::SetActivity,
            args: ActivityArgs { pid, activity: None },
            nonce: fresh_nonce(),
            evt: None,
        }
    }
}

/// Everything this client sends: the connection handshake, or a command.
#[derive(Debug, Clone, PartialEq, Eq)]
pub enum DiscordIPCPayload {
    /// The connection handshake.
    Handshake(HandshakeData),
    /// A command.
    Command(DiscordIPCCommandOutgoing),
}

/// The JSON body of the handshake, over plain values:
/// `{"v":<v>,"client_id":"<id>"}`.
pub open spec fn handshake_body_for(v: u32, client_id: Seq<char>) -> Seq<u8> {
    lit_bytes("{\"v\":") + dec_bytes(v as nat) + lit_bytes(",\"client_id\":") + quoted(
        encode_utf8(client_id),
    ) + lit_bytes("}")
}

/// The JSON body of the handshake value.
pub open spec fn handshake_body(h: HandshakeData) -> Seq<u8> {
    handshake_body_for(h.v, h.client_id@)
}

/// How the optional activity stands in the body: its own JSON text, or
/// `null`.
pub open spec fn activity_field(a: Option<Seq<u8>>) -> Seq<u8> {
    match a {
        Some(json) => json,
        None => lit_bytes("null"),
    }
}

/// How the optional event stands in the body: its quoted wire name, or
/// `null`.
pub open spec fn evt_field(e: Option<ActivityEvent>) -> Seq<u8> {
    match e {
        Some(evt) => quoted(encode_utf8(evt_name(evt))),
        None => lit_bytes("null"),
    }
}

/// The JSON body of an outgoing command, over plain values:
/// `{"cmd":"<name>","args":{"pid":<pid>,"activity":<json-or-null>},"nonce":"<nonce>","evt":<name-or-null>}`.
pub open spec fn command_body_for(
    cmd: ActivityCmd,
    pid: u32,
    activity: Option<Seq<u8>>,
    nonce: Seq<char>,
    evt: Option<ActivityEvent>,
) -> Seq<u8> {
    lit_bytes("{\"cmd\":") + quoted(encode_utf8(cmd_name(cmd))) + lit_bytes(
        ",\"args\":{\"pid\":",
    ) + dec_bytes(pid as nat) + lit_bytes(",\"activity\":") + activity_field(activity) + lit_bytes(
        "},\"nonce\":",
    ) + quoted(encode_utf8(nonce)) + lit_bytes(",\"evt\":") + evt_field(evt) + lit_bytes("}")
}

/// The JSON body of an outgoing command value.
pub open spec fn command_body(c: DiscordIPCCommandOutgoing) -> Seq<u8> {
    command_body_for(
        c.cmd,
        c.args.pid,
        match c.args.activity {
            Some(act) => Some(act.json@),
            None => None,
        },
        c.nonce@,
        c.evt,
    )
}

/// The JSON body of any outgoing payload.
pub open spec fn payload_body(p: DiscordIPCPayload) -> Seq<u8> {
    match p {
        DiscordIPCPayload::Handshake(h) => handshake_body(h),
        DiscordIPCPayload::Command(c) => command_body(c),
    }
}

fn push_bytes(out: &mut Vec<u8>, s: &Vec<u8>)
    ensures
        final(out)@ == old(out)@ + s@,
{
    let mut i: usize = 0;
    while i < s.len()
        invariant
            i <= s@.len(),
            out@ == old(out)@ + s@.take(i as int),
        decreases s@.len() - i,
    {
        out.push(s[i]);
        proof {
            assert(s@.take(i + 1) =~= s@.take(i as int).push(s@[i as int]));
            assert(out@ =~= old(out)@ + s@.take(i + 1));
        }
        i = i + 1;
    }
    proof {
        assert(s@.take(s@.len() as int) =~= s@);
    }
}

impl DiscordIPCPayload {
    /// Serializes this payload to the exact JSON body bytes that go on
    /// the wire after the frame header.
    pub fn serialize(&self) -> (r: Vec<u8>)
        ensures
            r@ == payload_body(*self),
    {
        let mut out: Vec<u8> = Vec::new();
        match self {
            DiscordIPCPayload::Handshake(h) => {
                push_lit(&mut out, "{\"v\":");
                push_u32_dec(&mut out, h.v);
                push_lit(&mut out, ",\"client_id\":");
                push_quoted(&mut out, h.client_id.as_str());
                push_lit(&mut out, "}");
                proof {
                    assert(out@ =~= payload_body(*self));
                }
            },
            DiscordIPCPayload::Command(c) => {
                push_lit(&mut out, "{\"cmd\":");
                push_quoted(&mut out, cmd_name_str(&c.cmd));
                push_lit(&mut out, ",\"args\":{\"pid\":");
                push_u32_dec(&mut out, c.args.pid);
                push_lit(&mut out, ",\"activity\":");
                match &c.args.activity {
                    Some(act) => push_bytes(&mut out, &act.json),
                    None => push_lit(&mut out, "null"),
                }
                push_lit(&mut out, "},\"nonce\":");
                push_quoted(&mut out, c.nonce.as_str());
                push_lit(&mut out, ",\"evt\":");
                match &c.evt {
                    Some(evt) => push_quoted(&mut out, evt_name_str(evt)),
                    None => push_lit(&mut out, "null"),
                }
                push_lit(&mut out, "}");
                proof {
                    assert(out@ =~= payload_body(*self));
                }
            },
        }
        out
    }
}

} // verus!
