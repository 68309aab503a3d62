use vstd::prelude::*;
use crate::codec::{pack, unpack, u32_from_le, header_bytes};
use crate::errors::Error;
use crate::json::{lit_bytes, dec_bytes, push_lit, push_u32_dec, json_object_of};
use crate::payload::{HandshakeData, Activity, DiscordIPCCommandOutgoing, DiscordIPCPayload,
    payload_body, handshake_body_for, command_body_for, nonce_chars_ok};
use crate::names::ActivityCmd;
use crate::response::{DiscordIPCResponse, classify};

verus! {

/// A platform duplex byte channel, as the engine sees it: open one of
/// the named endpoints, write a whole buffer, read an exact number of
/// bytes, close.
///
/// The ghost state says what the engine's contracts rest on: whether
/// the channel is open, the endpoint names that opens were attempted
/// on, and the buffers written and the bytes delivered since the
/// channel was last opened.  An implementation outside this crate (a
/// Unix socket, a named pipe, a test stub) is trusted to behave as
/// these contracts say.  The ghost functions carry default bodies of
/// unconstrained values so that an unverified implementation does not
/// have to spell them out; the engine's proofs never look through them
/// and rest on the method contracts alone.
pub trait Transport {
    /// Whether the channel is open.
    open spec fn is_open(&self) -> bool {
        arbitrary()
    }

    /// The endpoint names that opens were attempted on, in order.
    open spec fn opens(&self) -> Seq<Seq<u8>> {
        arbitrary()
    }

    /// The buffers written since the channel was last opened, in order.
    open spec fn sent(&self) -> Seq<Seq<u8>> {
        arbitrary()
    }

    /// The bytes the channel has delivered to reads since it was last
    /// opened.
    open spec fn received(&self) -> Seq<u8> {
        arbitrary()
    }

    /// Tries to open the channel at the endpoint with the given name,
    /// blocking.  A fresh connection has nothing written on it yet and
    /// nothing read from it yet.
    fn try_open(&mut self, endpoint: &Vec<u8>) -> (r: Result<(), Error>)
        requires
            !old(self).is_open(),
        ensures
            final(self).opens() == old(self).opens().push(endpoint@),
            r is Ok ==> final(self).is_open() && final(self).sent() =~= Seq::<Seq<u8>>::empty()
                && final(self).received() =~= Seq::<u8>::empty(),
            r is Err ==> !final(self).is_open(),
            r matches Err(e) ==> e is Io,
    ;

    /// Writes the whole buffer, blocking; a partial write is not
    /// observable — on an error nothing counts as written.
    fn write_all(&mut self, data: &Vec<u8>) -> (r: Result<(), Error>)
        requires
            old(self).is_open(),
        ensures
            final(self).is_open() == old(self).is_open(),
            final(self).opens() == old(self).opens(),
            final(self).received() == old(self).received(),
            r is Ok ==> final(self).sent() == old(self).sent().push(data@),
            r is Err ==> final(self).sent() == old(self).sent(),
            r matches Err(e) ==> e is Io,
    ;

    /// Reads exactly `n` bytes, blocking; a short read is an error, not
    /// a partial result.  On an error the channel may have consumed an
    /// unspecified prefix, so nothing is said of the read log then.
    fn read_exact(&mut self, n: usize) -> (r: Result<Vec<u8>, Error>)
        requires
            old(self).is_open(),
        ensures
            final(self).is_open() == old(self).is_open(),
            final(self).opens() == old(self).opens(),
            final(self).sent() == old(self).sent(),
            r matches Ok(buf) ==> buf@.len() == n && final(self).received() == old(self).received() + buf@,
            r matches Err(e) ==> e is Io,
    ;

    /// Shuts the channel down, both directions, flushing first; the
    /// channel is closed afterwards even when an error is reported.
    /// Closing writes and consumes nothing.
    fn close_channel(&mut self) -> (r: Result<(), Error>)
        requires
            old(self).is_open(),
        ensures
            !final(self).is_open(),
            final(self).opens() == old(self).opens(),
            final(self).sent() == old(self).sent(),
            final(self).received() == old(self).received(),
            r matches Err(e) ==> e is Io,
    ;
}

/// How many numbered endpoints a connect pass tries.
pub const ENDPOINT_CANDIDATES: u32 = 10;

/// The name of the numbered endpoint: `discord-ipc-` and the decimal
/// index.
pub open spec fn endpoint_name_spec(i: u32) -> Seq<u8> {
    lit_bytes("discord-ipc-") + dec_bytes(i as nat)
}

/// The names of the first `n` candidate endpoints, in the order a
/// connect pass tries them: `discord-ipc-0` up to `discord-ipc-(n-1)`.
pub open spec fn candidate_names(n: int) -> Seq<Seq<u8>> {
    Seq::new(n as nat, |i: int| endpoint_name_spec(i as u32))
}

/// Builds the name of the numbered endpoint, as UTF-8 bytes; the
/// platform side joins it onto its base directory or pipe namespace.
pub fn endpoint_name(i: u32) -> (r: Vec<u8>)
    ensures
        r@ == endpoint_name_spec(i),
{
    let mut out: Vec<u8> = Vec::new();
    push_lit(&mut out, "discord-ipc-");
    push_u32_dec(&mut out, i);
    out
}

/// The first location hint that is set, in priority order.
pub open spec fn first_hint(hints: Seq<Option<String>>) -> Option<String>
    decreases hints.len(),
{
    if hints.len() == 0 {
        None
    } else {
        match hints[0] {
            Some(s) => Some(s),
            None => first_hint(hints.drop_first()),
        }
    }
}

/// Resolves the endpoints' base directory from a prioritized list of
/// location hints: the first hint that is set wins, and with none set
/// the resolution fails.  The platform side reads the hints (its
/// environment) and hands them over in priority order.
pub fn resolve_pipe_dir(hints: Vec<Option<String>>) -> (r: Result<String, Error>)
    ensures
        first_hint(hints@) matches Some(s) ==> r == Ok::<String, Error>(s),
        first_hint(hints@) is None ==> r == Err::<String, Error>(
            Error::CouldNotResolvePipePattern,
        ),
{
    let mut items = hints;
    while items.len() > 0
        invariant
            first_hint(hints@) == first_hint(items@),
        decreases items@.len(),
    {
        let ghost olditems = items@;
        let hint = items.remove(0);
        proof {
            assert(olditems.remove(0) =~= olditems.drop_first());
        }
        match hint {
            Some(s) => {
                return Ok(s);
            },
            None => {},
        }
    }
    Err(Error::CouldNotResolvePipePattern)
}

/// One frame on the wire: the new write history is the old one with the
/// 8-byte header and then the body appended, and the header's length
/// field states the body's exact byte length.
pub open spec fn sent_frame(
    old_sent: Seq<Seq<u8>>,
    new_sent: Seq<Seq<u8>>,
    opcode: u32,
    body: Seq<u8>,
) -> bool {
    &&& body.len() <= 0xFFFF_FFFF
    &&& new_sent == old_sent.push(header_bytes(opcode, body.len() as u32)).push(body)
}

/// The opcode field of the frame header that begins at position `at` of
/// a read log.
pub open spec fn frame_op_at(r: Seq<u8>, at: int) -> u32 {
    u32_from_le(r[at], r[at + 1], r[at + 2], r[at + 3])
}

/// The length field of the frame header that begins at position `at` of
/// a read log.
pub open spec fn frame_len_at(r: Seq<u8>, at: int) -> u32 {
    u32_from_le(r[at + 4], r[at + 5], r[at + 6], r[at + 7])
}

/// The body of the frame whose header begins at position `at` of a read
/// log: the bytes after the header, as many as its length field states.
pub open spec fn frame_body_at(r: Seq<u8>, at: int) -> Seq<u8> {
    r.subrange(at + 8, at + 8 + frame_len_at(r, at) as int)
}

/// Exactly one frame was consumed between the two read logs: the old
/// log stands unchanged as a prefix, and what follows it is one 8-byte
/// header plus exactly the number of body bytes the header states —
/// 8 + n bytes in all, no more, no fewer.
pub open spec fn read_one_frame(old_recv: Seq<u8>, new_recv: Seq<u8>) -> bool {
    &&& new_recv.len() >= old_recv.len() + 8
    &&& new_recv.subrange(0, old_recv.len() as int) == old_recv
    &&& new_recv.len() == old_recv.len() + 8 + frame_len_at(new_recv, old_recv.len() as int)
}

/// A frame round-trips through the wire model: when the channel
/// delivers back exactly the header and body that a send wrote —
/// `header_bytes(opcode, body.len())` then `body` — the values read
/// off the log are that opcode and that body, and exactly that one
/// frame is consumed.  Together with `send`'s and `recv`'s contracts
/// this composes a sent frame with its echo.
pub proof fn lemma_frame_round_trip(old_recv: Seq<u8>, opcode: u32, body: Seq<u8>)
    requires
        body.len() <= 0xFFFF_FFFF,
    ensures
        ({
            let log = old_recv + header_bytes(opcode, body.len() as u32) + body;
            &&& read_one_frame(old_recv, log)
            &&& frame_op_at(log, old_recv.len() as int) == opcode
            &&& frame_len_at(log, old_recv.len() as int) == body.len() as u32
            &&& frame_body_at(log, old_recv.len() as int) == body
        }),
{
    let header = header_bytes(opcode, body.len() as u32);
    let log = old_recv + header + body;
    let at = old_recv.len() as int;
    crate::codec::lemma_header_round_trip(opcode, body.len() as u32);
    assert(header.len() == 8);
    assert forall|k: int| 0 <= k < 8 implies log[at + k] == header[k] by {
        assert((old_recv + header)[at + k] == header[k]);
    }
    assert(frame_op_at(log, at) == opcode);
    assert(frame_len_at(log, at) == body.len() as u32);
    assert(log.subrange(0, at) =~= old_recv);
    assert(log.len() == old_recv.len() + 8 + body.len());
    assert(frame_body_at(log, at) =~= body);
}

/// A client that connects to and communicates with the companion
/// application over a [`Transport`].
///
/// The connection state machine is `connected == false` (unconnected or
/// closed) and `connected == true`; transitions happen only through
/// `connect`, `reconnect` and `close`, and every other operation from
/// the unconnected state fails with [`Error::NotConnected`].
pub struct DiscordIpcClient<T: Transport> {
    /// Client ID of the IPC client.
    pub client_id: String,
    /// The process id put into outgoing command envelopes.
    pub pid: u32,
    /// The platform channel.
    pub transport: T,
    /// Whether the handle is in the connected state.
    pub connected: bool,
}

impl<T: Transport> DiscordIpcClient<T> {
    /// The handle's invariant: it counts as connected exactly while the
    /// channel is open.
    pub open spec fn wf(&self) -> bool {
        self.connected <==> self.transport.is_open()
    }

    /// Creates a new client around a platform channel that is not yet
    /// open.  The process id goes into every command envelope.
    pub fn new(client_id: &str, pid: u32, transport: T) -> (r: Self)
        requires
            !transport.is_open(),
        ensures
            r.wf(),
            !r.connected,
            r.client_id@ == client_id@,
            r.pid == pid,
            r.transport == transport,
    {
        Self { client_id: client_id.to_owned(), pid, transport, connected: false }
    }

    /// The client identifier this client connects for.
    pub fn get_client_id(&self) -> (r: &String)
        ensures
            r@ == self.client_id@,
    {
        &self.client_id
    }

    /// The platform channel, for inspection.
    pub fn transport_ref(&self) -> (r: &T)
        ensures
            *r == self.transport,
    {
        &self.transport
    }

    /// Whether the handle is in the connected state.
    pub fn is_connected(&self) -> (r: bool)
        ensures
            r == self.connected,
    {
        self.connected
    }

    /// Tries the candidate endpoints `discord-ipc-0` through
    /// `discord-ipc-9` in increasing order, stopping at the first
    /// success; when all of them refuse, the last underlying error is
    /// surfaced as `CouldNotConnect` after exactly ten attempts.
    pub fn connect_ipc(&mut self) -> (r: Result<(), Error>)
        requires
            old(self).wf(),
            !old(self).connected,
        ensures
            final(self).wf(),
            final(self).client_id == old(self).client_id,
            final(self).pid == old(self).pid,
            r is Ok ==> final(self).connected && final(self).transport.sent() =~= Seq::<
                Seq<u8>,
            >::empty() && final(self).transport.received() =~= Seq::<u8>::empty(),
            r is Ok ==> exists|k: int|
                1 <= k <= ENDPOINT_CANDIDATES && final(self).transport.opens() == old(self).transport.opens() + #[trigger] candidate_names(k),
            r is Err ==> !final(self).connected && final(self).transport.opens() == old(self).transport.opens() + candidate_names(ENDPOINT_CANDIDATES as int) && (r matches Err(e)
                && e is CouldNotConnect),
    {
        let mut i: u32 = 0;
        proof {
            assert(candidate_names(0) =~= Seq::<Seq<u8>>::empty());
            assert(self.transport.opens() =~= old(self).transport.opens() + candidate_names(0));
        }
        while i < ENDPOINT_CANDIDATES
            invariant
                0 <= i <= ENDPOINT_CANDIDATES,
                self.wf(),
                !self.connected,
                self.client_id == old(self).client_id,
                self.pid == old(self).pid,
                self.transport.opens() == old(self).transport.opens() + candidate_names(i as int),
            decreases ENDPOINT_CANDIDATES - i,
        {
            let name = endpoint_name(i);
            let ghost tried = self.transport.opens();
            let attempt = self.transport.try_open(&name);
            proof {
                assert(tried.push(name@) =~= old(self).transport.opens() + candidate_names(
                    i + 1,
                ));
            }
            match attempt {
                Ok(()) => {
                    self.connected = true;
                    return Ok(());
                },
                Err(e) => {
                    if i == ENDPOINT_CANDIDATES - 1 {
                        return Err(Error::CouldNotConnect(describe_io_error(e)));
                    }
                },
            }
            i = i + 1;
        }
        // Never reached: the last failing attempt returns inside the loop.
        Err(Error::CouldNotConnect(String::new()))
    }

    /// Sends one frame: the 8-byte header, then the payload's JSON
    /// body.  From the unconnected state nothing is written and
    /// `NotConnected` comes back; a body too long for the header's
    /// 32-bit length field is refused as `PayloadTooLarge`; any other
    /// failure is the channel's own, reported as `Io`.
    pub fn send(&mut self, payload: &DiscordIPCPayload, opcode: u8) -> (r: Result<(), Error>)
        requires
            old(self).wf(),
        ensures
            final(self).wf(),
            final(self).client_id == old(self).client_id,
            final(self).pid == old(self).pid,
            final(self).connected == old(self).connected,
            final(self).transport.received() == old(self).transport.received(),
            !old(self).connected ==> r == Err::<(), Error>(Error::NotConnected) && final(self).transport == old(self).transport,
            old(self).connected && payload_body(*payload).len() > 0xFFFF_FFFF ==> r == Err::<
                (),
                Error,
            >(Error::PayloadTooLarge) && final(self).transport == old(self).transport,
            old(self).connected && payload_body(*payload).len() <= 0xFFFF_FFFF ==> (r is Ok || (
            r matches Err(e) && e is Io)),
            r is Ok ==> old(self).connected && sent_frame(
                old(self).transport.sent(),
                final(self).transport.sent(),
                opcode as u32,
                payload_body(*payload),
            ),
    {
        if !self.connected {
            return Err(Error::NotConnected);
        }
        let body = payload.serialize();
        if body.len() as u64 > 0xFFFF_FFFFu64 {
            return Err(Error::PayloadTooLarge);
        }
        let header = pack(opcode as u32, body.len() as u32);
        match self.transport.write_all(&header) {
            Ok(()) => {},
            Err(e) => {
                return Err(e);
            },
        }
        match self.transport.write_all(&body) {
            Ok(()) => {},
            Err(e) => {
                return Err(e);
            },
        }
        Ok(())
    }

    /// Receives one frame: reads exactly 8 header bytes, unpacks them,
    /// reads exactly the stated number of body bytes, and decodes the
    /// body as a command echo or an error notification.  On success,
    /// exactly one frame — 8 + n bytes — was consumed from the
    /// channel, the returned opcode is the header's, and the response
    /// is the decode of exactly the delivered body bytes.  Receiving
    /// writes nothing; a failed read surfaces as `Io`, a body that
    /// does not decode as `Json` or `InvalidErrorCode`.
    pub fn recv(&mut self) -> (r: Result<(u32, DiscordIPCResponse), Error>)
        requires
            old(self).wf(),
        ensures
            final(self).wf(),
            final(self).client_id == old(self).client_id,
            final(self).pid == old(self).pid,
            final(self).connected == old(self).connected,
            final(self).transport.sent() == old(self).transport.sent(),
            final(self).transport.opens() == old(self).transport.opens(),
            !old(self).connected ==> r == Err::<(u32, DiscordIPCResponse), Error>(
                Error::NotConnected,
            ),
            old(self).connected ==> (r is Ok || (r matches Err(e) && (e is Io || e is Json || e
                is InvalidErrorCode))),
            r matches Ok((op, resp)) ==> ({
                let at = old(self).transport.received().len() as int;
                let log = final(self).transport.received();
                &&& read_one_frame(old(self).transport.received(), log)
                &&& op == frame_op_at(log, at)
                &&& json_object_of(frame_body_at(log, at)) is Some
                &&& classify(json_object_of(frame_body_at(log, at))->0) matches Ok(v) && resp@
                    == v
            }),
    {
        if !self.connected {
            return Err(Error::NotConnected);
        }
        let ghost oldr = self.transport.received();
        let header = match self.transport.read_exact(8) {
            Ok(buf) => buf,
            Err(e) => {
                return Err(e);
            },
        };
        // The buffer holds exactly 8 bytes, so unpacking cannot fail.
        let (op, length) = unpack(&header).unwrap();
        let body = match self.transport.read_exact(length as usize) {
            Ok(buf) => buf,
            Err(e) => {
                return Err(e);
            },
        };
        proof {
            let log = self.transport.received();
            assert(log =~= oldr + header@ + body@);
            assert(log.subrange(0, oldr.len() as int) =~= oldr);
            assert(frame_op_at(log, oldr.len() as int) == op);
            assert(frame_len_at(log, oldr.len() as int) == length);
            assert(frame_body_at(log, oldr.len() as int) =~= body@);
            assert(read_one_frame(oldr, log));
        }
        match DiscordIPCResponse::deserialize(&body) {
            Ok(resp) => Ok((op, resp)),
            Err(e) => Err(e),
        }
    }

    /// Serializes the handshake payload, writes it as one frame on
    /// opcode 0, then performs exactly one `recv` to consume the
    /// companion's acknowledgment: on success exactly one inbound frame
    /// was consumed.  The acknowledgment's content is not validated
    /// against an expected shape beyond decoding as a response; a
    /// rejected handshake is not distinguished from acceptance here.
    pub fn send_handshake(&mut self) -> (r: Result<(), Error>)
        requires
            old(self).wf(),
        ensures
            final(self).wf(),
            final(self).client_id == old(self).client_id,
            final(self).pid == old(self).pid,
            final(self).connected == old(self).connected,
            !old(self).connected ==> r == Err::<(), Error>(Error::NotConnected),
            old(self).connected ==> (r is Ok || (r matches Err(e) && (e is Io || e is Json || e
                is InvalidErrorCode || e is PayloadTooLarge))),
            r is Ok ==> final(self).connected && sent_frame(
                old(self).transport.sent(),
                final(self).transport.sent(),
                0,
                handshake_body_for(1, old(self).client_id@),
            ) && read_one_frame(
                old(self).transport.received(),
                final(self).transport.received(),
            ),
    {
        let data = HandshakeData::new(self.client_id.as_str());
        let payload = DiscordIPCPayload::Handshake(data);
        match self.send(&payload, 0) {
            Ok(()) => {},
            Err(e) => {
                return Err(e);
            },
        }
        match self.recv() {
            Ok(_) => Ok(()),
            Err(e) => Err(e),
        }
    }

    /// Connects the client: opens the channel over the candidate
    /// endpoints, then sends the handshake.  On success the channel
    /// carries exactly the one handshake frame and exactly one
    /// acknowledgment frame was consumed; when either step fails the
    /// connection is left unusable — unconnected, with the channel
    /// closed.  From the connected state nothing is attempted and
    /// `NotConnected` (the connection-state error) comes back.
    pub fn connect(&mut self) -> (r: Result<(), Error>)
        requires
            old(self).wf(),
        ensures
            final(self).wf(),
            final(self).client_id == old(self).client_id,
            final(self).pid == old(self).pid,
            old(self).connected ==> r == Err::<(), Error>(Error::NotConnected) && final(self).connected,
            !old(self).connected && r is Err ==> !final(self).connected && !final(self).transport.is_open(),
            !old(self).connected ==> (r is Ok || (r matches Err(e) && (e is CouldNotConnect || e
                is Io || e is Json || e is InvalidErrorCode || e is PayloadTooLarge))),
            r is Ok ==> final(self).connected && sent_frame(
                Seq::empty(),
                final(self).transport.sent(),
                0,
                handshake_body_for(1, old(self).client_id@),
            ) && read_one_frame(Seq::empty(), final(self).transport.received()),
    {
        if self.connected {
            return Err(Error::NotConnected);
        }
        match self.connect_ipc() {
            Ok(()) => {},
            Err(e) => {
                return Err(e);
            },
        }
        match self.send_handshake() {
            Ok(()) => Ok(()),
            Err(e) => {
                // A failed handshake leaves the connection unusable:
                // close the freshly opened channel, best-effort, and
                // mark the handle unconnected.
                let _ = self.transport.close_channel();
                self.connected = false;
                Err(e)
            },
        }
    }

    /// Closes the connection: a close notice (an empty JSON body on
    /// opcode 2) is sent best-effort and its failure swallowed, then
    /// the channel is flushed and shut down; only a shutdown failure
    /// is surfaced, as `Io`, and the handle counts as unconnected
    /// either way.  The write history afterwards holds the notice
    /// frame, its header alone, or nothing, depending on how far the
    /// best-effort send came.
    pub fn close(&mut self) -> (r: Result<(), Error>)
        requires
            old(self).wf(),
        ensures
            final(self).wf(),
            final(self).client_id == old(self).client_id,
            final(self).pid == old(self).pid,
            !final(self).connected,
            !old(self).connected ==> r == Err::<(), Error>(Error::NotConnected),
            old(self).connected ==> (r is Ok || (r matches Err(e) && e is Io)),
            old(self).connected ==> (final(self).transport.sent() == old(self).transport.sent()
                || final(self).transport.sent() == old(self).transport.sent().push(
                header_bytes(2, lit_bytes("null").len() as u32),
            ) || final(self).transport.sent() == old(self).transport.sent().push(
                header_bytes(2, lit_bytes("null").len() as u32),
            ).push(lit_bytes("null"))),
    {
        if !self.connected {
            return Err(Error::NotConnected);
        }
        let mut notice: Vec<u8> = Vec::new();
        push_lit(&mut notice, "null");
        let header = pack(2, notice.len() as u32);
        match self.transport.write_all(&header) {
            Ok(()) => {
                let _ = self.transport.write_all(&notice);
            },
            Err(_) => {},
        }
        let r = self.transport.close_channel();
        self.connected = false;
        r
    }

    /// Reconnects: closes the active connection, opens the channel
    /// anew and re-sends the handshake.  The close step is best-effort
    /// — its failure is swallowed and reconnection proceeds, since the
    /// handle is unconnected and the channel closed either way.  No
    /// retry happens beyond the one candidate pass that `connect_ipc`
    /// makes; a failed reconnect leaves the connection unusable.
    pub fn reconnect(&mut self) -> (r: Result<(), Error>)
        requires
            old(self).wf(),
        ensures
            final(self).wf(),
            final(self).client_id == old(self).client_id,
            final(self).pid == old(self).pid,
            !old(self).connected ==> r == Err::<(), Error>(Error::NotConnected),
            old(self).connected && r is Err ==> !final(self).connected && !final(self).transport.is_open(),
            old(self).connected ==> (r is Ok || (r matches Err(e) && (e is CouldNotConnect || e
                is Io || e is Json || e is InvalidErrorCode || e is PayloadTooLarge))),
            r is Ok ==> final(self).connected && sent_frame(
                Seq::empty(),
                final(self).transport.sent(),
                0,
                handshake_body_for(1, old(self).client_id@),
            ) && read_one_frame(Seq::empty(), final(self).transport.received()),
    {
        if !self.connected {
            return Err(Error::NotConnected);
        }
        let _ = self.close();
        self.connect()
    }

    /// Sets the activity: builds a `SET_ACTIVITY` envelope carrying the
    /// payload and a fresh nonce, and sends it as one frame on opcode
    /// 1, whose body embeds the activity's JSON text as it was given.
    pub fn set_activity(&mut self, activity_payload: Activity) -> (r: Result<(), Error>)
        requires
            old(self).wf(),
        ensures
            final(self).wf(),
            final(self).client_id == old(self).client_id,
            final(self).pid == old(self).pid,
            final(self).connected == old(self).connected,
            !old(self).connected ==> r == Err::<(), Error>(Error::NotConnected),
            old(self).connected ==> (r is Ok || (r matches Err(e) && (e is Io || e
                is PayloadTooLarge))),
            r is Ok ==> exists|nonce: Seq<char>|
                nonce_chars_ok(nonce) && sent_frame(
                    old(self).transport.sent(),
                    final(self).transport.sent(),
                    1,
                    command_body_for(
                        ActivityCmd::SetActivity,
                        old(self).pid,
                        Some(activity_payload.json@),
                        nonce,
                        None,
                    ),
                ),
    {
        let cmd = DiscordIPCCommandOutgoing::set_activity(activity_payload, self.pid);
        let ghost nonce = cmd.nonce@;
        let payload = DiscordIPCPayload::Command(cmd);
        let r = self.send(&payload, 1);
        proof {
            if r is Ok {
                assert(nonce_chars_ok(nonce));
            }
        }
        r
    }

    /// Clears the activity: as `set_activity`, with a `null` activity
    /// in the envelope's arguments.
    pub fn clear_activity(&mut self) -> (r: Result<(), Error>)
        requires
            old(self).wf(),
        ensures
            final(self).wf(),
            final(self).client_id == old(self).client_id,
            final(self).pid == old(self).pid,
            final(self).connected == old(self).connected,
            !old(self).connected ==> r == Err::<(), Error>(Error::NotConnected),
            old(self).connected ==> (r is Ok || (r matches Err(e) && (e is Io || e
                is PayloadTooLarge))),
            r is Ok ==> exists|nonce: Seq<char>|
                nonce_chars_ok(nonce) && sent_frame(
                    old(self).transport.sent(),
                    final(self).transport.sent(),
                    1,
                    command_body_for(ActivityCmd::SetActivity, old(self).pid, None, nonce, None),
                ),
    {
        let cmd = DiscordIPCCommandOutgoing::clear_activity(self.pid);
        let ghost nonce = cmd.nonce@;
        let payload = DiscordIPCPayload::Command(cmd);
        let r = self.send(&payload, 1);
        proof {
            if r is Ok {
                assert(nonce_chars_ok(nonce));
            }
        }
        r
    }
}

fn describe_io_error(e: Error) -> (r: String)
    ensures
        e matches Error::Io(s) ==> r@ == s@,
{
    match e {
        Error::Io(s) => s,
        _ => String::new(),
    }
}

} // verus!
