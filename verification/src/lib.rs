//! Client-side engine for a local inter-process "rich presence" protocol.
//!
//! The crate covers the protocol core: the 8-byte little-endian frame
//! header ([`pack`] / [`unpack`]), the JSON bodies of outgoing handshake
//! and command frames, the classification of inbound bodies as command
//! echoes or error notifications with two overlapping numeric error-code
//! tables, and the engine that drives handshake, send and receive over an
//! abstract duplex byte channel.  Platform channels (Unix domain sockets,
//! named pipes) implement the [`Transport`] trait outside this crate.

mod codec;
mod errors;
mod json;
mod names;
mod errcode;
mod payload;
mod response;
mod client;

pub use codec::{pack, unpack, le_bytes, u32_from_le, header_bytes, lemma_header_round_trip};
pub use errors::Error;
pub use json::{JsonValue, JsonV, obj_view, json_object_of, str_eq, lit_bytes,
    hex_digit, escape_byte, escape_bytes, quoted, dec_bytes};
pub use names::{ActivityCmd, ActivityEvent, cmd_name, cmd_name_str, cmd_of_name, cmd_from_name,
    evt_name, evt_name_str, evt_of_name, evt_from_name};
pub use errcode::{DiscordIPCErrorCodeCritical, DiscordIPCErrorCodeNonCritical, DiscordIPCErrorCode,
    critical_from_repr, non_critical_from_repr, critical_code, non_critical_code, critical_name,
    non_critical_name, error_code_of, error_code_value, error_code_name,
    lemma_error_code_priority, lemma_unknown_code_rejected};
pub use payload::{HandshakeData, Activity, ActivityArgs, DiscordIPCCommandOutgoing,
    DiscordIPCPayload, handshake_body, handshake_body_for, command_body, command_body_for,
    payload_body, nonce_chars_ok, activity_field, evt_field};
pub use response::{DiscordIPCError, DiscordIPCCommandIncoming, DiscordIPCResponse, ErrorV,
    CommandIncomingV, ResponseV, DecodeFault, fault_matches, json_code_of, lookup, command_of,
    scan, classify, has_key, error_kind_name, opt_string_field, opt_value_field, opt_evt_field,
    lemma_decoder_shape_exclusivity};
pub use client::{Transport, DiscordIpcClient, ENDPOINT_CANDIDATES, endpoint_name,
    endpoint_name_spec, candidate_names, first_hint, resolve_pipe_dir, sent_frame,
    frame_op_at, frame_len_at, frame_body_at, read_one_frame, lemma_frame_round_trip};
