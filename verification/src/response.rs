use vstd::prelude::*;
use vstd::string::StringExecFns;
use crate::errors::Error;
use crate::json::{JsonValue, JsonV, obj_view, json_object_of, parse_object, str_eq};
use crate::names::{ActivityCmd, ActivityEvent, cmd_of_name, cmd_from_name, evt_of_name,
    evt_from_name};
use crate::errcode::{DiscordIPCErrorCode, error_code_of};

verus! {

/// The error response from the companion application.
#[derive(Debug, Clone, PartialEq, Eq)]
pub struct DiscordIPCError {
    /// The classified error code.
    pub code: DiscordIPCErrorCode,
    /// A human readable message.
    pub message: String,
}

/// Which side of the taxonomy an error code fell on, as display text.
pub open spec fn error_kind_name(c: DiscordIPCErrorCode) -> Seq<char> {
    match c {
        DiscordIPCErrorCode::Critical(_) => "Critical"@,
        DiscordIPCErrorCode::NonCritical(_) => "NonCritical"@,
    }
}

impl DiscordIPCError {
    /// The display text of this error:
    /// `Discord IPC error [<kind>]: <message>`.
    pub fn describe(&self) -> (r: String)
        ensures
            r@ == "Discord IPC error ["@ + error_kind_name(self.code) + "]: "@ + self.message@,
    {
        let mut out: String = "Discord IPC error [".to_owned();
        match &self.code {
            DiscordIPCErrorCode::Critical(_) => out.append("Critical"),
            DiscordIPCErrorCode::NonCritical(_) => out.append("NonCritical"),
        }
        out.append("]: ");
        out.append(self.message.as_str());
        out
    }
}

/// The shape of a [`DiscordIPCError`]: the message as characters.
pub struct ErrorV {
    pub code: DiscordIPCErrorCode,
    pub message: Seq<char>,
}

impl View for DiscordIPCError {
    type V = ErrorV;

    open spec fn view(&self) -> ErrorV {
        ErrorV { code: self.code, message: self.message@ }
    }
}

/// A command echo coming from the companion application into this
/// client.
#[derive(Debug, Clone, PartialEq, Eq)]
pub struct DiscordIPCCommandIncoming {
    /// The command identifier of this response.
    pub cmd: ActivityCmd,
    /// The unique identifier of the request that triggered this
    /// response.
    pub nonce: Option<String>,
    /// The arguments of the request that triggered this response.
    pub args: Option<JsonValue>,
    /// The payload of this response.
    pub data: JsonValue,
    /// The type of event this is.
    pub evt: Option<ActivityEvent>,
}

/// The shape of a [`DiscordIPCCommandIncoming`].
pub struct CommandIncomingV {
    pub cmd: ActivityCmd,
    pub nonce: Option<Seq<char>>,
    pub args: Option<JsonV>,
    pub data: JsonV,
    pub evt: Option<ActivityEvent>,
}

impl View for DiscordIPCCommandIncoming {
    type V = CommandIncomingV;

    open spec fn view(&self) -> CommandIncomingV {
        CommandIncomingV {
            cmd: self.cmd,
            nonce: match self.nonce {
                Some(s) => Some(s@),
                None => None,
            },
            args: match self.args {
                Some(v) => Some(v@),
                None => None,
            },
            data: self.data@,
            evt: self.evt,
        }
    }
}

/// The response from the companion application: a command echo, or an
/// error notification.  Exactly one shape is produced per decode, never
/// both.
#[derive(Debug, Clone, PartialEq, Eq)]
pub enum DiscordIPCResponse {
    /// A response to a command.
    Command(DiscordIPCCommandIncoming),
    /// An error response.
    Error(DiscordIPCError),
}

/// The shape of a [`DiscordIPCResponse`].
pub enum ResponseV {
    Command(CommandIncomingV),
    Error(ErrorV),
}

impl View for DiscordIPCResponse {
    type V = ResponseV;

    open spec fn view(&self) -> ResponseV {
        match self {
            DiscordIPCResponse::Command(c) => ResponseV::Command(c@),
            DiscordIPCResponse::Error(e) => ResponseV::Error(e@),
        }
    }
}

/// Why a decode failed: a numeric error code in neither table, or a
/// body whose shape does not fit either response variant.
pub enum DecodeFault {
    /// The `error` value is a number that neither table lists.
    BadCode,
    /// Malformed structure: a field of the wrong type, an unknown enum
    /// name, or a missing required field.
    BadShape,
}

/// Which [`Error`] a decode fault surfaces as: an unknown code becomes
/// `InvalidErrorCode`, a shape fault becomes `Json` with some message.
pub open spec fn fault_matches(f: DecodeFault, e: Error) -> bool {
    match f {
        DecodeFault::BadCode => e == Error::InvalidErrorCode,
        DecodeFault::BadShape => e is Json,
    }
}

/// Reading an error code from the `error` value: it must be a number
/// that fits 16 bits, and one of the two tables must list it — the
/// critical one is tried first.
pub open spec fn json_code_of(v: JsonV) -> Result<DiscordIPCErrorCode, DecodeFault> {
    match v {
        JsonV::UInt(u) => if u <= 65535 {
            match error_code_of(u as u16) {
                Some(c) => Ok(c),
                None => Err(DecodeFault::BadCode),
            }
        } else {
            Err(DecodeFault::BadShape)
        },
        _ => Err(DecodeFault::BadShape),
    }
}

/// The value of the last entry with the given key, if any; later
/// entries win, as the parser's map has it.
pub open spec fn lookup(fields: Seq<(Seq<char>, JsonV)>, key: Seq<char>) -> Option<JsonV>
    decreases fields.len(),
{
    if fields.len() == 0 {
        None
    } else if fields.last().0 == key {
        Some(fields.last().1)
    } else {
        lookup(fields.drop_last(), key)
    }
}

/// An optional string field: absent or `null` is `None`, a string is
/// itself, anything else is a shape fault.
pub open spec fn opt_string_field(v: Option<JsonV>) -> Result<Option<Seq<char>>, DecodeFault> {
    match v {
        None => Ok(None),
        Some(JsonV::Null) => Ok(None),
        Some(JsonV::Text(s)) => Ok(Some(s)),
        Some(_) => Err(DecodeFault::BadShape),
    }
}

/// An optional value field: absent or `null` is `None`, anything else
/// is itself.
pub open spec fn opt_value_field(v: Option<JsonV>) -> Option<JsonV> {
    match v {
        None => None,
        Some(JsonV::Null) => None,
        Some(x) => Some(x),
    }
}

/// An optional event field: absent or `null` is `None`, a known event
/// name is its variant, anything else is a shape fault.
pub open spec fn opt_evt_field(v: Option<JsonV>) -> Result<Option<ActivityEvent>, DecodeFault> {
    match v {
        None => Ok(None),
        Some(JsonV::Null) => Ok(None),
        Some(JsonV::Text(s)) => match evt_of_name(s) {
            Some(e) => Ok(Some(e)),
            None => Err(DecodeFault::BadShape),
        },
        Some(_) => Err(DecodeFault::BadShape),
    }
}

/// Decoding the command shape from the fields left over by the key
/// scan: `cmd` must name a known command, `data` must be present;
/// `nonce`, `args` and `evt` are optional.
pub open spec fn command_of(fields: Seq<(Seq<char>, JsonV)>) -> Result<
    CommandIncomingV,
    DecodeFault,
> {
    match lookup(fields, "cmd"@) {
        Some(JsonV::Text(s)) => match cmd_of_name(s) {
            Some(cmd) => match (opt_string_field(lookup(fields, "nonce"@)), opt_evt_field(
                lookup(fields, "evt"@),
            )) {
                (Ok(nonce), Ok(evt)) => match lookup(fields, "data"@) {
                    Some(data) => Ok(
                        CommandIncomingV {
                            cmd,
                            nonce,
                            args: opt_value_field(lookup(fields, "args"@)),
                            data,
                            evt,
                        },
                    ),
                    None => Err(DecodeFault::BadShape),
                },
                (Err(f), _) => Err(f),
                (_, Err(f)) => Err(f),
            },
            None => Err(DecodeFault::BadShape),
        },
        _ => Err(DecodeFault::BadShape),
    }
}

/// The single ordered pass over the object's entries: `error` and
/// `message` values are read where they stand, every other entry is
/// buffered, and the pass stops as soon as both branch-defining keys
/// have been seen.  What it returns once the entries are exhausted — an
/// error notification, or the command shape decoded from the buffered
/// fields — mirrors the pass state.
pub open spec fn scan(
    entries: Seq<(Seq<char>, JsonV)>,
    err: Option<DiscordIPCErrorCode>,
    msg: Option<Seq<char>>,
    rest: Seq<(Seq<char>, JsonV)>,
) -> Result<ResponseV, DecodeFault>
    decreases entries.len(),
{
    if err is Some && msg is Some {
        Ok(ResponseV::Error(ErrorV { code: err->0, message: msg->0 }))
    } else if entries.len() == 0 {
        match command_of(rest) {
            Ok(c) => Ok(ResponseV::Command(c)),
            Err(f) => Err(f),
        }
    } else if entries[0].0 == "error"@ {
        match json_code_of(entries[0].1) {
            Ok(c) => scan(entries.drop_first(), Some(c), msg, rest),
            Err(f) => Err(f),
        }
    } else if entries[0].0 == "message"@ {
        match entries[0].1 {
            JsonV::Text(s) => scan(entries.drop_first(), err, Some(s), rest),
            _ => Err(DecodeFault::BadShape),
        }
    } else {
        scan(entries.drop_first(), err, msg, rest.push(entries[0]))
    }
}

/// How a parsed top-level object is classified: the ordered pass of
/// [`scan`], started with nothing seen.
pub open spec fn classify(entries: Seq<(Seq<char>, JsonV)>) -> Result<ResponseV, DecodeFault> {
    scan(entries, None, None, Seq::empty())
}

/// Whether some entry of the object has the given key.
pub open spec fn has_key(entries: Seq<(Seq<char>, JsonV)>, key: Seq<char>) -> bool {
    exists|i: int| 0 <= i < entries.len() && (#[trigger] entries[i]).0 == key
}

proof fn lemma_has_key_drop_first(entries: Seq<(Seq<char>, JsonV)>, key: Seq<char>)
    requires
        entries.len() > 0,
    ensures
        has_key(entries, key) <==> (entries[0].0 == key || has_key(entries.drop_first(), key)),
{
    if entries[0].0 == key {
        assert(has_key(entries, key));
    }
    if has_key(entries.drop_first(), key) {
        let i = choose|i: int|
            0 <= i < entries.drop_first().len() && (#[trigger] entries.drop_first()[i]).0 == key;
        assert(entries[i + 1].0 == key);
        assert(has_key(entries, key));
    }
    if has_key(entries, key) && entries[0].0 != key {
        let i = choose|i: int| 0 <= i < entries.len() && (#[trigger] entries[i]).0 == key;
        assert(entries.drop_first()[i - 1].0 == key);
        assert(has_key(entries.drop_first(), key));
    }
}

proof fn lemma_scan_shape(
    entries: Seq<(Seq<char>, JsonV)>,
    err: Option<DiscordIPCErrorCode>,
    msg: Option<Seq<char>>,
    rest: Seq<(Seq<char>, JsonV)>,
)
    ensures
        scan(entries, err, msg, rest) matches Ok(v) ==> (v is Error <==> ((err is Some || has_key(
            entries,
            "error"@,
        )) && (msg is Some || has_key(entries, "message"@)))),
    decreases entries.len(),
{
    reveal_strlit("error");
    reveal_strlit("message");
    assert("error"@.len() != "message"@.len());
    if err is Some && msg is Some {
    } else if entries.len() == 0 {
        assert(!has_key(entries, "error"@));
        assert(!has_key(entries, "message"@));
    } else {
        lemma_has_key_drop_first(entries, "error"@);
        lemma_has_key_drop_first(entries, "message"@);
        if entries[0].0 == "error"@ {
            match json_code_of(entries[0].1) {
                Ok(c) => lemma_scan_shape(entries.drop_first(), Some(c), msg, rest),
                Err(_) => {},
            }
        } else if entries[0].0 == "message"@ {
            match entries[0].1 {
                JsonV::Text(s) => lemma_scan_shape(entries.drop_first(), err, Some(s), rest),
                _ => {},
            }
        } else {
            lemma_scan_shape(entries.drop_first(), err, msg, rest.push(entries[0]));
        }
    }
}

fn clone_json(v: &JsonValue) -> (r: JsonValue)
    ensures
        r@ == v@,
{
    match v {
        JsonValue::Null => JsonValue::Null,
        JsonValue::Bool(b) => JsonValue::Bool(*b),
        JsonValue::UInt(u) => JsonValue::UInt(*u),
        JsonValue::Int(i) => JsonValue::Int(*i),
        JsonValue::Text(s) => JsonValue::Text(s.clone()),
        JsonValue::Raw(s) => JsonValue::Raw(s.clone()),
    }
}

fn json_error(what: &str) -> (r: Error)
    ensures
        r is Json,
{
    Error::Json(what.to_owned())
}

fn lookup_field<'a>(fields: &'a Vec<(String, JsonValue)>, key: &str) -> (r: Option<&'a JsonValue>)
    ensures
        r is Some <==> lookup(obj_view(fields@), key@) is Some,
        r matches Some(v) ==> lookup(obj_view(fields@), key@) == Some(v@),
{
    let ghost all = obj_view(fields@);
    let mut i: usize = fields.len();
    proof {
        assert(all.take(i as int) =~= all);
    }
    while i > 0
        invariant
            i <= fields@.len(),
            all == obj_view(fields@),
            lookup(all, key@) == lookup(all.take(i as int), key@),
        decreases i,
    {
        i = i - 1;
        proof {
            assert(all.take(i + 1).drop_last() =~= all.take(i as int));
            assert(all.take(i + 1).last() == all[i as int]);
            assert(all[i as int] == (fields@[i as int].0@, fields@[i as int].1@));
        }
        if str_eq(fields[i].0.as_str(), key) {
            return Some(&fields[i].1);
        }
    }
    proof {
        assert(all.take(0) =~= Seq::<(Seq<char>, JsonV)>::empty());
    }
    None
}

/// Decodes the command shape from the fields left over by the key
/// scan, as [`command_of`] states it.
fn command_from_fields(fields: &Vec<(String, JsonValue)>) -> (r: Result<
    DiscordIPCCommandIncoming,
    Error,
>)
    ensures
        match command_of(obj_view(fields@)) {
            Ok(cv) => r matches Ok(c) && c@ == cv,
            Err(f) => r matches Err(e) && fault_matches(f, e),
        },
{
    let cmd: ActivityCmd = match lookup_field(fields, "cmd") {
        Some(JsonValue::Text(s)) => match cmd_from_name(s.as_str()) {
            Some(c) => c,
            None => {
                return Err(json_error("unknown cmd value"));
            },
        },
        _ => {
            return Err(json_error("missing or malformed cmd field"));
        },
    };
    let nonce: Option<String> = match lookup_field(fields, "nonce") {
        None => None,
        Some(JsonValue::Null) => None,
        Some(JsonValue::Text(s)) => Some(s.clone()),
        Some(_) => {
            return Err(json_error("malformed nonce field"));
        },
    };
    let evt: Option<ActivityEvent> = match lookup_field(fields, "evt") {
        None => None,
        Some(JsonValue::Null) => None,
        Some(JsonValue::Text(s)) => match evt_from_name(s.as_str()) {
            Some(e) => Some(e),
            None => {
                return Err(json_error("unknown evt value"));
            },
        },
        Some(_) => {
            return Err(json_error("malformed evt field"));
        },
    };
    let args: Option<JsonValue> = match lookup_field(fields, "args") {
        None => None,
        Some(JsonValue::Null) => None,
        Some(v) => Some(clone_json(v)),
    };
    let data: JsonValue = match lookup_field(fields, "data") {
        Some(v) => clone_json(v),
        None => {
            return Err(json_error("missing data field"));
        },
    };
    Ok(DiscordIPCCommandIncoming { cmd, nonce, args, data, evt })
}

impl DiscordIPCResponse {
    /// Classifies a parsed top-level object, by the single ordered pass
    /// that [`classify`] states: an error notification when both
    /// `error` and `message` are seen, the command shape decoded from
    /// the other fields when one of them is missing.
    pub fn from_object(obj: Vec<(String, JsonValue)>) -> (r: Result<DiscordIPCResponse, Error>)
        ensures
            match classify(obj_view(obj@)) {
                Ok(v) => r matches Ok(resp) && resp@ == v,
                Err(f) => r matches Err(e) && fault_matches(f, e),
            },
    {
        let ghost orig = obj_view(obj@);
        let mut items = obj;
        let mut err: Option<DiscordIPCErrorCode> = None;
        let mut msg: Option<String> = None;
        let mut rest: Vec<(String, JsonValue)> = Vec::new();
        proof {
            assert(obj_view(rest@) =~= Seq::<(Seq<char>, JsonV)>::empty());
        }
        while items.len() > 0 && !(err.is_some() && msg.is_some())
            invariant
                orig == obj_view(obj@),
                classify(orig) == scan(
                    obj_view(items@),
                    err,
                    match msg {
                        Some(m) => Some(m@),
                        None => None,
                    },
                    obj_view(rest@),
                ),
            decreases items@.len(),
        {
            let ghost olditems = items@;
            let ghost entries = obj_view(items@);
            let (k, v) = items.remove(0);
            proof {
                assert(k == olditems[0].0 && v == olditems[0].1);
                assert(entries[0] == (k@, v@));
                assert(olditems.remove(0) =~= olditems.drop_first());
                assert(obj_view(items@) =~= entries.drop_first());
            }
            if str_eq(k.as_str(), "error") {
                match v {
                    JsonValue::UInt(u) => {
                        if u <= 65535 {
                            match DiscordIPCErrorCode::from_code(u as u16) {
                                Some(c) => {
                                    err = Some(c);
                                },
                                None => {
                                    return Err(Error::InvalidErrorCode);
                                },
                            }
                        } else {
                            return Err(json_error("error code out of range"));
                        }
                    },
                    _ => {
                        return Err(json_error("malformed error field"));
                    },
                }
            } else if str_eq(k.as_str(), "message") {
                match v {
                    JsonValue::Text(s) => {
                        msg = Some(s);
                    },
                    _ => {
                        return Err(json_error("malformed message field"));
                    },
                }
            } else {
                let ghost oldrest = rest@;
                rest.push((k, v));
                proof {
                    assert(rest@ == oldrest.push((k, v)));
                    assert(obj_view(rest@) =~= obj_view(oldrest).push(entries[0]));
                }
            }
        }
        match (err, msg) {
            (Some(code), Some(message)) => Ok(
                DiscordIPCResponse::Error(DiscordIPCError { code, message }),
            ),
            _ => match command_from_fields(&rest) {
                Ok(c) => Ok(DiscordIPCResponse::Command(c)),
                Err(e) => Err(e),
            },
        }
    }

    /// Decodes an inbound frame body: parses the bytes as a JSON
    /// object, then classifies it.  Malformed JSON, a shape fault and
    /// an unknown numeric error code each surface as their own error.
    pub fn deserialize(bytes: &Vec<u8>) -> (r: Result<DiscordIPCResponse, Error>)
        ensures
            json_object_of(bytes@) is None ==> (r matches Err(e) && e is Json),
            json_object_of(bytes@) matches Some(entries) ==> match classify(entries) {
                Ok(v) => r matches Ok(resp) && resp@ == v,
                Err(f) => r matches Err(e) && fault_matches(f, e),
            },
    {
        match parse_object(bytes) {
            Ok(obj) => DiscordIPCResponse::from_object(obj),
            Err(e) => Err(Error::Json(e)),
        }
    }
}

/// Decoder shape exclusivity: when an object decodes at all, it decodes
/// to the error variant exactly when both an `error` and a `message`
/// key are present, and to the command variant exactly when one of them
/// is missing — never to both, never to neither.
pub proof fn lemma_decoder_shape_exclusivity(entries: Seq<(Seq<char>, JsonV)>)
    ensures
        classify(entries) matches Ok(v) ==> (v is Error <==> (has_key(entries, "error"@) && has_key(
            entries,
            "message"@,
        ))),
        classify(entries) matches Ok(v) ==> (v is Command <==> !(has_key(entries, "error"@)
            && has_key(entries, "message"@))),
{
    lemma_scan_shape(entries, None, None, Seq::empty());
}

} // verus!
