//! The client's connection handling: the messages exchanged with the user
//! interface, and the session that binds, connects, opens a stream, relays
//! messages and reconnects after a failure.
//!
//! The session decides; the caller performs each action it asks for (a bind,
//! a connect, a write, a sleep) and hands back what happened as an event.

use vstd::prelude::*;
use vstd::utf8::{decode_utf8, encode_utf8};
use crate::text::{decode_lossy, joined, lossy_text};
#[allow(unused_imports)]
use vstd::string::StrSliceExecFns;

verus! {

/// What the user interface asks of the network side.
#[derive(Debug)]
pub enum UiCommand {
    SendMessage(String),
    Quit,
}

/// What the network side reports to the user interface.
#[derive(Debug)]
pub enum NetEvent {
    StatusChanged(String),
    MessageReceived(String),
    Error(String),
}

/// The mathematical value of a [`UiCommand`].
pub enum UiCommandView {
    SendMessage(Seq<char>),
    Quit,
}

/// The mathematical value of a [`NetEvent`].
pub enum NetEventView {
    StatusChanged(Seq<char>),
    MessageReceived(Seq<char>),
    Error(Seq<char>),
}

impl View for UiCommand {
    type V = UiCommandView;

    open spec fn view(&self) -> UiCommandView {
        match self {
            UiCommand::SendMessage(m) => UiCommandView::SendMessage(m@),
            UiCommand::Quit => UiCommandView::Quit,
        }
    }
}

impl View for NetEvent {
    type V = NetEventView;

    open spec fn view(&self) -> NetEventView {
        match self {
            NetEvent::StatusChanged(s) => NetEventView::StatusChanged(s@),
            NetEvent::MessageReceived(m) => NetEventView::MessageReceived(m@),
            NetEvent::Error(e) => NetEventView::Error(e@),
        }
    }
}

/// Where a client session stands.
#[derive(Clone, Copy, PartialEq, Eq, Structural, Debug)]
pub enum SessionPhase {
    /// No attempt is under way: before the first one, or while backing off after a failure.
    Waiting,
    /// A local endpoint is being bound.
    Binding,
    /// A connection to the server is being made.
    Connecting,
    /// A stream is being opened on the connection.
    OpeningStream,
    /// Messages flow over the open stream.
    Streaming,
    /// The user quit; nothing more happens.
    Finished,
}

/// What happened, as the caller reports it to the session.
#[derive(Debug)]
pub enum SessionEvent {
    /// Start an attempt: at the beginning, and when a back-off has elapsed.
    Resume,
    Bound,
    /// Binding failed; the error as text.
    BindFailed(String),
    Connected,
    /// Connecting failed; the error as text.
    ConnectFailed(String),
    StreamOpened,
    /// Opening the stream failed; the error as text.
    StreamFailed(String),
    /// A read returned these bytes (at least one).
    Received(Vec<u8>),
    /// A read returned no bytes: the server closed the stream.
    ReadEnded,
    /// A read failed.
    ReadFailed,
    /// The user interface sent a command.
    Command(UiCommand),
    /// The user interface has gone away.
    CommandsClosed,
    /// Writing a message failed; the error as text.
    SendFailed(String),
    /// The keep-alive timer fired.
    KeepaliveDue,
    /// Writing a keep-alive failed.
    KeepaliveFailed,
}

/// What the session asks the caller to do, in order.
#[derive(Debug)]
pub enum SessionAction {
    /// Report to the user interface.
    Notify(NetEvent),
    /// Bind a local endpoint, then report `Bound` or `BindFailed`.
    Bind,
    /// Connect to the server, then report `Connected` or `ConnectFailed`.
    Connect,
    /// Open a stream, then report `StreamOpened` or `StreamFailed`.
    OpenStream,
    /// Write these bytes (a message) to the stream and flush it; on failure,
    /// report `SendFailed`.
    Write(Vec<u8>),
    /// Write this keep-alive frame to the stream and flush it; on failure,
    /// report `KeepaliveFailed`.
    WriteKeepalive(Vec<u8>),
    /// Shut the stream down and close the connection.
    Shutdown,
    /// Sleep this many seconds, then report `Resume`.
    Sleep(u64),
}

/// The mathematical value of a [`SessionEvent`].
pub enum SessionEventView {
    Resume,
    Bound,
    BindFailed(Seq<char>),
    Connected,
    ConnectFailed(Seq<char>),
    StreamOpened,
    StreamFailed(Seq<char>),
    Received(Seq<u8>),
    ReadEnded,
    ReadFailed,
    Command(UiCommandView),
    CommandsClosed,
    SendFailed(Seq<char>),
    KeepaliveDue,
    KeepaliveFailed,
}

/// The mathematical value of a [`SessionAction`].
pub enum SessionActionView {
    Notify(NetEventView),
    Bind,
    Connect,
    OpenStream,
    Write(Seq<u8>),
    WriteKeepalive(Seq<u8>),
    Shutdown,
    Sleep(u64),
}

impl View for SessionEvent {
    type V = SessionEventView;

    open spec fn view(&self) -> SessionEventView {
        match self {
            SessionEvent::Resume => SessionEventView::Resume,
            SessionEvent::Bound => SessionEventView::Bound,
            SessionEvent::BindFailed(e) => SessionEventView::BindFailed(e@),
            SessionEvent::Connected => SessionEventView::Connected,
            SessionEvent::ConnectFailed(e) => SessionEventView::ConnectFailed(e@),
            SessionEvent::StreamOpened => SessionEventView::StreamOpened,
            SessionEvent::StreamFailed(e) => SessionEventView::StreamFailed(e@),
            SessionEvent::Received(b) => SessionEventView::Received(b@),
            SessionEvent::ReadEnded => SessionEventView::ReadEnded,
            SessionEvent::ReadFailed => SessionEventView::ReadFailed,
            SessionEvent::Command(c) => SessionEventView::Command(c@),
            SessionEvent::CommandsClosed => SessionEventView::CommandsClosed,
            SessionEvent::SendFailed(e) => SessionEventView::SendFailed(e@),
            SessionEvent::KeepaliveDue => SessionEventView::KeepaliveDue,
            SessionEvent::KeepaliveFailed => SessionEventView::KeepaliveFailed,
        }
    }
}

impl View for SessionAction {
    type V = SessionActionView;

    open spec fn view(&self) -> SessionActionView {
        match self {
            SessionAction::Notify(e) => SessionActionView::Notify(e@),
            SessionAction::Bind => SessionActionView::Bind,
            SessionAction::Connect => SessionActionView::Connect,
            SessionAction::OpenStream => SessionActionView::OpenStream,
            SessionAction::Write(b) => SessionActionView::Write(b@),
            SessionAction::WriteKeepalive(b) => SessionActionView::WriteKeepalive(b@),
            SessionAction::Shutdown => SessionActionView::Shutdown,
            SessionAction::Sleep(s) => SessionActionView::Sleep(*s),
        }
    }
}

/// The values of a sequence of actions.
pub open spec fn actions_view(actions: Seq<SessionAction>) -> Seq<SessionActionView> {
    actions.map_values(|a: SessionAction| a@)
}

/// The one-byte frame that keeps a connection alive and carries no message.
pub open spec fn keepalive_bytes() -> Seq<u8> {
    seq![0u8]
}

/// Seconds to wait after a failed bind, connect or stream opening.
pub open spec fn setup_backoff() -> u64 {
    3
}

/// Seconds to wait after an open stream was lost.
pub open spec fn stream_backoff() -> u64 {
    2
}

/// The status shown while a local endpoint is bound.
pub open spec fn binding_status() -> Seq<char> {
    "Binding local endpoint..."@
}

/// The status shown while connecting to `target`.
pub open spec fn connecting_status(target: Seq<char>) -> Seq<char> {
    "Connecting to "@ + target + "..."@
}

/// The status shown once connected to `target`.
pub open spec fn connected_status(target: Seq<char>) -> Seq<char> {
    "Connected to "@ + target
}

/// The status shown when the server closed the stream.
pub open spec fn closed_status() -> Seq<char> {
    "Disconnected (Stream closed). Reconnecting..."@
}

/// The status shown when reading from the stream failed.
pub open spec fn read_error_status() -> Seq<char> {
    "Disconnected (Read error). Reconnecting..."@
}

/// The phase a session moves to on `event`.
pub open spec fn next_phase(phase: SessionPhase, event: SessionEventView) -> SessionPhase {
    match (phase, event) {
        (SessionPhase::Waiting, SessionEventView::Resume) => SessionPhase::Binding,
        (SessionPhase::Binding, SessionEventView::Bound) => SessionPhase::Connecting,
        (SessionPhase::Binding, SessionEventView::BindFailed(_)) => SessionPhase::Waiting,
        (SessionPhase::Connecting, SessionEventView::Connected) => SessionPhase::OpeningStream,
        (SessionPhase::Connecting, SessionEventView::ConnectFailed(_)) => SessionPhase::Waiting,
        (SessionPhase::OpeningStream, SessionEventView::StreamOpened) => SessionPhase::Streaming,
        (SessionPhase::OpeningStream, SessionEventView::StreamFailed(_)) => SessionPhase::Waiting,
        (SessionPhase::Streaming, SessionEventView::ReadEnded) => SessionPhase::Waiting,
        (SessionPhase::Streaming, SessionEventView::ReadFailed) => SessionPhase::Waiting,
        (SessionPhase::Streaming, SessionEventView::KeepaliveFailed) => SessionPhase::Waiting,
        (SessionPhase::Streaming, SessionEventView::Command(UiCommandView::Quit)) => SessionPhase::Finished,
        (SessionPhase::Streaming, SessionEventView::CommandsClosed) => SessionPhase::Finished,
        _ => phase,
    }
}

/// A report of an error, followed by the set-up back-off.
pub open spec fn failure_reaction(prefix: Seq<char>, error: Seq<char>) -> Seq<SessionActionView> {
    seq![
        SessionActionView::Notify(NetEventView::Error(prefix + error)),
        SessionActionView::Sleep(setup_backoff()),
    ]
}

/// A status report, followed by the stream back-off.
pub open spec fn lost_reaction(status: Seq<char>) -> Seq<SessionActionView> {
    seq![
        SessionActionView::Notify(NetEventView::StatusChanged(status)),
        SessionActionView::Sleep(stream_backoff()),
    ]
}

/// The actions a session in `phase`, aimed at `target`, asks for on `event`.
/// An event that does not belong to the phase asks for nothing.
pub open spec fn reaction(
    phase: SessionPhase,
    target: Seq<char>,
    event: SessionEventView,
) -> Seq<SessionActionView> {
    match (phase, event) {
        (SessionPhase::Waiting, SessionEventView::Resume) => seq![
            SessionActionView::Notify(NetEventView::StatusChanged(binding_status())),
            SessionActionView::Bind,
        ],
        (SessionPhase::Binding, SessionEventView::Bound) => seq![
            SessionActionView::Notify(NetEventView::StatusChanged(connecting_status(target))),
            SessionActionView::Connect,
        ],
        (SessionPhase::Binding, SessionEventView::BindFailed(e)) => failure_reaction(
            "Bind failed: "@,
            e,
        ),
        (SessionPhase::Connecting, SessionEventView::Connected) => seq![
            SessionActionView::Notify(NetEventView::StatusChanged(connected_status(target))),
            SessionActionView::OpenStream,
        ],
        (SessionPhase::Connecting, SessionEventView::ConnectFailed(e)) => failure_reaction(
            "Connection failed: "@,
            e,
        ),
        (SessionPhase::OpeningStream, SessionEventView::StreamFailed(e)) => failure_reaction(
            "Failed to open stream: "@,
            e,
        ),
        (SessionPhase::Streaming, SessionEventView::Received(bytes)) => if bytes
            == keepalive_bytes() {
            seq![]
        } else {
            seq![SessionActionView::Notify(NetEventView::MessageReceived(lossy_text(bytes)))]
        },
        (SessionPhase::Streaming, SessionEventView::ReadEnded) => lost_reaction(closed_status()),
        (SessionPhase::Streaming, SessionEventView::ReadFailed) => lost_reaction(
            read_error_status(),
        ),
        (SessionPhase::Streaming, SessionEventView::Command(UiCommandView::SendMessage(m))) => seq![
            SessionActionView::Write(encode_utf8(m)),
        ],
        (SessionPhase::Streaming, SessionEventView::Command(UiCommandView::Quit)) => seq![
            SessionActionView::Shutdown,
        ],
        (SessionPhase::Streaming, SessionEventView::SendFailed(e)) => seq![
            SessionActionView::Notify(NetEventView::Error("Send failed: "@ + e)),
        ],
        (SessionPhase::Streaming, SessionEventView::KeepaliveDue) => seq![
            SessionActionView::WriteKeepalive(keepalive_bytes()),
        ],
        (SessionPhase::Streaming, SessionEventView::KeepaliveFailed) => seq![
            SessionActionView::Sleep(stream_backoff()),
        ],
        _ => seq![],
    }
}

/// Seconds between two keep-alive frames on an open stream.
pub open spec fn keepalive_period() -> u64 {
    15
}

/// The server the client connects to when its command line names none.
pub open spec fn default_server() -> Seq<char> {
    "127.0.0.1:8080"@
}

/// The address the client binds its own endpoint to: any interface, any port.
pub open spec fn local_bind() -> Seq<char> {
    "0.0.0.0:0"@
}

/// Seconds between two keep-alive frames on an open stream.
pub fn keepalive_period_secs() -> (secs: u64)
    ensures
        secs == keepalive_period(),
{
    15
}

/// The address the client binds its own endpoint to.
pub fn local_bind_addr() -> (addr: String)
    ensures
        addr@ == local_bind(),
{
    String::from_str("0.0.0.0:0")
}

/// The server the client connects to: its command line's first argument after
/// the program's name, or the local default.
pub fn server_addr_from_args(args: &Vec<String>) -> (addr: String)
    ensures
        addr@ == (if args@.len() > 1 {
            args@[1]@
        } else {
            default_server()
        }),
{
    if args.len() > 1 {
        args[1].clone()
    } else {
        String::from_str("127.0.0.1:8080")
    }
}

/// The keep-alive frame.
pub fn keepalive_frame() -> (frame: Vec<u8>)
    ensures
        frame@ == keepalive_bytes(),
{
    let mut frame: Vec<u8> = Vec::new();
    frame.push(0u8);
    assert(frame@ =~= keepalive_bytes());
    frame
}

/// The bytes are exactly the keep-alive frame.
pub fn is_keepalive(bytes: &[u8]) -> (yes: bool)
    ensures
        yes == (bytes@ == keepalive_bytes()),
{
    if bytes.len() == 1 && bytes[0] == 0u8 {
        assert(bytes@ =~= keepalive_bytes());
        true
    } else {
        false
    }
}

/// The text of a received payload.
pub fn payload_text(bytes: &[u8]) -> (text: String)
    ensures
        text@ == lossy_text(bytes@),
{
    decode_lossy(bytes)
}

/// One connection session of the chat client, aimed at one server.
pub struct ClientSession {
    phase: SessionPhase,
    target: String,
}

impl ClientSession {
    /// The phase the session is in.
    pub closed spec fn spec_phase(&self) -> SessionPhase {
        self.phase
    }

    /// The server address the session connects to, as shown to the user.
    pub closed spec fn spec_target(&self) -> Seq<char> {
        self.target@
    }

    /// A session aimed at `target` that waits for its first `Resume`.
    pub fn new(target: String) -> (s: ClientSession)
        ensures
            s.spec_phase() == SessionPhase::Waiting,
            s.spec_target() == target@,
    {
        ClientSession { phase: SessionPhase::Waiting, target }
    }

    /// The phase the session is in.
    pub fn phase(&self) -> (p: SessionPhase)
        ensures
            p == self.spec_phase(),
    {
        self.phase
    }

    /// The user quit, or the user interface went away: the session is over.
    pub fn is_finished(&self) -> (done: bool)
        ensures
            done == (self.spec_phase() == SessionPhase::Finished),
    {
        self.phase == SessionPhase::Finished
    }

    /// Moves the session on by one event and returns the actions to perform, in order.
    pub fn step(&mut self, event: SessionEvent) -> (actions: Vec<SessionAction>)
        ensures
            final(self).spec_phase() == next_phase(old(self).spec_phase(), event@),
            final(self).spec_target() == old(self).spec_target(),
            actions_view(actions@) == reaction(old(self).spec_phase(), old(self).spec_target(), event@),
    {
        let ghost ev = event@;
        let mut actions: Vec<SessionAction> = Vec::new();
        let phase = self.phase;
        match phase {
            SessionPhase::Waiting => {
                if let SessionEvent::Resume = event {
                    actions.push(
                        SessionAction::Notify(
                            NetEvent::StatusChanged(String::from_str("Binding local endpoint...")),
                        ),
                    );
                    actions.push(SessionAction::Bind);
                    self.phase = SessionPhase::Binding;
                }
            },
            SessionPhase::Binding => {
                match event {
                    SessionEvent::Bound => {
                        let mut status = joined("Connecting to ", self.target.as_str());
                        status.append("...");
                        actions.push(SessionAction::Notify(NetEvent::StatusChanged(status)));
                        actions.push(SessionAction::Connect);
                        self.phase = SessionPhase::Connecting;
                    },
                    SessionEvent::BindFailed(e) => {
                        let msg = joined("Bind failed: ", e.as_str());
                        actions.push(SessionAction::Notify(NetEvent::Error(msg)));
                        actions.push(SessionAction::Sleep(3));
                        self.phase = SessionPhase::Waiting;
                    },
                    _ => {},
                }
            },
            SessionPhase::Connecting => {
                match event {
                    SessionEvent::Connected => {
                        let status = joined("Connected to ", self.target.as_str());
                        actions.push(SessionAction::Notify(NetEvent::StatusChanged(status)));
                        actions.push(SessionAction::OpenStream);
                        self.phase = SessionPhase::OpeningStream;
                    },
                    SessionEvent::ConnectFailed(e) => {
                        let msg = joined("Connection failed: ", e.as_str());
                        actions.push(SessionAction::Notify(NetEvent::Error(msg)));
                        actions.push(SessionAction::Sleep(3));
                        self.phase = SessionPhase::Waiting;
                    },
                    _ => {},
                }
            },
            SessionPhase::OpeningStream => {
                match event {
                    SessionEvent::StreamOpened => {
                        self.phase = SessionPhase::Streaming;
                    },
                    SessionEvent::StreamFailed(e) => {
                        let msg = joined("Failed to open stream: ", e.as_str());
                        actions.push(SessionAction::Notify(NetEvent::Error(msg)));
                        actions.push(SessionAction::Sleep(3));
                        self.phase = SessionPhase::Waiting;
                    },
                    _ => {},
                }
            },
            SessionPhase::Streaming => {
                match event {
                    SessionEvent::Received(bytes) => {
                        if !is_keepalive(bytes.as_slice()) {
                            let text = payload_text(bytes.as_slice());
                            actions.push(SessionAction::Notify(NetEvent::MessageReceived(text)));
                        }
                    },
                    SessionEvent::ReadEnded => {
                        let status = String::from_str(
                            "Disconnected (Stream closed). Reconnecting...",
                        );
                        actions.push(SessionAction::Notify(NetEvent::StatusChanged(status)));
                        actions.push(SessionAction::Sleep(2));
                        self.phase = SessionPhase::Waiting;
                    },
                    SessionEvent::ReadFailed => {
                        let status = String::from_str(
                            "Disconnected (Read error). Reconnecting...",
                        );
                        actions.push(SessionAction::Notify(NetEvent::StatusChanged(status)));
                        actions.push(SessionAction::Sleep(2));
                        self.phase = SessionPhase::Waiting;
                    },
                    SessionEvent::Command(UiCommand::SendMessage(m)) => {
                        let bytes = m.as_str().as_bytes_vec();
                        actions.push(SessionAction::Write(bytes));
                    },
                    SessionEvent::Command(UiCommand::Quit) => {
                        actions.push(SessionAction::Shutdown);
                        self.phase = SessionPhase::Finished;
                    },
                    SessionEvent::CommandsClosed => {
                        self.phase = SessionPhase::Finished;
                    },
                    SessionEvent::SendFailed(e) => {
                        let msg = joined("Send failed: ", e.as_str());
                        actions.push(SessionAction::Notify(NetEvent::Error(msg)));
                    },
                    SessionEvent::KeepaliveDue => {
                        actions.push(SessionAction::WriteKeepalive(keepalive_frame()));
                    },
                    SessionEvent::KeepaliveFailed => {
                        actions.push(SessionAction::Sleep(2));
                        self.phase = SessionPhase::Waiting;
                    },
                    _ => {},
                }
            },
            SessionPhase::Finished => {},
        }
        assert(actions_view(actions@) =~= reaction(phase, self.target@, ev));
        actions
    }
}

/// The events that end an attempt or a connection in a given phase: a failed
/// bind, connect or stream opening, or a lost stream.
pub open spec fn is_failure(phase: SessionPhase, event: SessionEventView) -> bool {
    match (phase, event) {
        (SessionPhase::Binding, SessionEventView::BindFailed(_)) => true,
        (SessionPhase::Connecting, SessionEventView::ConnectFailed(_)) => true,
        (SessionPhase::OpeningStream, SessionEventView::StreamFailed(_)) => true,
        (SessionPhase::Streaming, SessionEventView::ReadEnded) => true,
        (SessionPhase::Streaming, SessionEventView::ReadFailed) => true,
        (SessionPhase::Streaming, SessionEventView::KeepaliveFailed) => true,
        _ => false,
    }
}

/// Once a session is finished, no event moves it or asks for anything.
pub proof fn lemma_finished_is_final(target: Seq<char>, event: SessionEventView)
    ensures
        next_phase(SessionPhase::Finished, event) == SessionPhase::Finished,
        reaction(SessionPhase::Finished, target, event) == Seq::<SessionActionView>::empty(),
{
}

/// A session finishes only on the user's quit, or when the user interface goes
/// away, while streaming; network failures never end it.
pub proof fn lemma_only_the_user_ends_a_session(phase: SessionPhase, event: SessionEventView)
    requires
        phase != SessionPhase::Finished,
        next_phase(phase, event) == SessionPhase::Finished,
    ensures
        phase == SessionPhase::Streaming,
        event == SessionEventView::Command(UiCommandView::Quit) || event
            == SessionEventView::CommandsClosed,
        !is_failure(phase, event),
{
}

/// A session recovers from every failure: it waits (three seconds after a failed
/// set-up, two after a lost stream), and the next `Resume` starts a new attempt
/// by binding again.
pub proof fn lemma_failure_leads_to_retry(
    phase: SessionPhase,
    target: Seq<char>,
    event: SessionEventView,
)
    requires
        is_failure(phase, event),
    ensures
        next_phase(phase, event) == SessionPhase::Waiting,
        reaction(phase, target, event).len() > 0,
        reaction(phase, target, event).last() == SessionActionView::Sleep(setup_backoff())
            || reaction(phase, target, event).last() == SessionActionView::Sleep(
            stream_backoff(),
        ),
        next_phase(SessionPhase::Waiting, SessionEventView::Resume) == SessionPhase::Binding,
        reaction(SessionPhase::Waiting, target, SessionEventView::Resume) == seq![
            SessionActionView::Notify(NetEventView::StatusChanged(binding_status())),
            SessionActionView::Bind,
        ],
{
}

/// A keep-alive frame read from the stream reaches nobody, and what the session
/// writes on its keep-alive timer is exactly that frame.
pub proof fn lemma_keepalive_is_silent(target: Seq<char>)
    ensures
        next_phase(SessionPhase::Streaming, SessionEventView::Received(keepalive_bytes()))
            == SessionPhase::Streaming,
        reaction(SessionPhase::Streaming, target, SessionEventView::Received(keepalive_bytes()))
            == Seq::<SessionActionView>::empty(),
        reaction(SessionPhase::Streaming, target, SessionEventView::KeepaliveDue) == seq![
            SessionActionView::WriteKeepalive(keepalive_bytes()),
        ],
{
}

/// The only text whose UTF-8 encoding is the keep-alive frame is a lone NUL.
pub proof fn lemma_only_nul_encodes_to_keepalive(m: Seq<char>)
    ensures
        encode_utf8(m) == keepalive_bytes() ==> m == seq!['\0'],
{
    broadcast use vstd::utf8::group_utf8_lib;

    let nul: Seq<char> = seq!['\0'];
    assert(('\0' as u32) == 0u32);
    assert(0u32 & 0x7F == 0) by (bit_vector);
    assert(vstd::utf8::encode_scalar(0u32) =~= keepalive_bytes());
    assert(nul.drop_first() =~= Seq::<char>::empty());
    assert(encode_utf8(nul) == vstd::utf8::encode_scalar(nul[0] as u32) + encode_utf8(
        nul.drop_first(),
    ));
    assert(encode_utf8(nul) =~= keepalive_bytes());
    if encode_utf8(m) == keepalive_bytes() {
        assert(decode_utf8(encode_utf8(m)) == m);
        assert(decode_utf8(encode_utf8(nul)) == nul);
    }
}

/// A message the user sends goes out as its UTF-8 bytes, and those bytes, read
/// back by a session, are reported as the same text; the one text for which
/// this fails is a lone NUL, which is the keep-alive frame.
pub proof fn lemma_message_round_trip(target: Seq<char>, m: Seq<char>)
    requires
        m != seq!['\0'],
    ensures
        reaction(
            SessionPhase::Streaming,
            target,
            SessionEventView::Command(UiCommandView::SendMessage(m)),
        ) == seq![SessionActionView::Write(encode_utf8(m))],
        reaction(SessionPhase::Streaming, target, SessionEventView::Received(encode_utf8(m)))
            == seq![SessionActionView::Notify(NetEventView::MessageReceived(m))],
        encode_utf8(m) != keepalive_bytes(),
        lossy_text(encode_utf8(m)) == m,
{
    broadcast use vstd::utf8::group_utf8_lib;

    lemma_only_nul_encodes_to_keepalive(m);
    assert(lossy_text(encode_utf8(m)) == m);
}

/// An open stream stays open while data flows: whatever bytes are read, the
/// session keeps streaming, and it reports at most one message, the decoded
/// bytes, unless they are the keep-alive frame. Sending, failed sends and the
/// keep-alive timer keep it streaming too, and a quit still ends it.
pub proof fn lemma_streaming_survives_traffic(
    target: Seq<char>,
    bytes: Seq<u8>,
    m: Seq<char>,
    e: Seq<char>,
)
    ensures
        next_phase(SessionPhase::Streaming, SessionEventView::Received(bytes))
            == SessionPhase::Streaming,
        bytes != keepalive_bytes() ==> reaction(
            SessionPhase::Streaming,
            target,
            SessionEventView::Received(bytes),
        ) == seq![SessionActionView::Notify(NetEventView::MessageReceived(lossy_text(bytes)))],
        next_phase(
            SessionPhase::Streaming,
            SessionEventView::Command(UiCommandView::SendMessage(m)),
        ) == SessionPhase::Streaming,
        next_phase(SessionPhase::Streaming, SessionEventView::SendFailed(e))
            == SessionPhase::Streaming,
        next_phase(SessionPhase::Streaming, SessionEventView::KeepaliveDue)
            == SessionPhase::Streaming,
        next_phase(SessionPhase::Streaming, SessionEventView::Command(UiCommandView::Quit))
            == SessionPhase::Finished,
        reaction(
            SessionPhase::Streaming,
            target,
            SessionEventView::Command(UiCommandView::Quit),
        ) == seq![SessionActionView::Shutdown],
{
}

/// The set-up goes through in order: a resumed session binds, a bound one
/// connects to its target, a connected one opens a stream, and an opened
/// stream starts streaming, each step reporting its status first.
pub proof fn lemma_setup_in_order(target: Seq<char>)
    ensures
        next_phase(SessionPhase::Waiting, SessionEventView::Resume) == SessionPhase::Binding,
        next_phase(SessionPhase::Binding, SessionEventView::Bound) == SessionPhase::Connecting,
        next_phase(SessionPhase::Connecting, SessionEventView::Connected)
            == SessionPhase::OpeningStream,
        next_phase(SessionPhase::OpeningStream, SessionEventView::StreamOpened)
            == SessionPhase::Streaming,
        reaction(SessionPhase::Binding, target, SessionEventView::Bound) == seq![
            SessionActionView::Notify(
                NetEventView::StatusChanged("Connecting to "@ + target + "..."@),
            ),
            SessionActionView::Connect,
        ],
        reaction(SessionPhase::Connecting, target, SessionEventView::Connected) == seq![
            SessionActionView::Notify(NetEventView::StatusChanged("Connected to "@ + target)),
            SessionActionView::OpenStream,
        ],
        reaction(SessionPhase::OpeningStream, target, SessionEventView::StreamOpened)
            == Seq::<SessionActionView>::empty(),
{
}

/// A failed set-up step reports its error text after the step's prefix, then
/// backs off for three seconds.
pub proof fn lemma_setup_failures_report(target: Seq<char>, e: Seq<char>)
    ensures
        reaction(SessionPhase::Binding, target, SessionEventView::BindFailed(e)) == seq![
            SessionActionView::Notify(NetEventView::Error("Bind failed: "@ + e)),
            SessionActionView::Sleep(3),
        ],
        reaction(SessionPhase::Connecting, target, SessionEventView::ConnectFailed(e)) == seq![
            SessionActionView::Notify(NetEventView::Error("Connection failed: "@ + e)),
            SessionActionView::Sleep(3),
        ],
        reaction(SessionPhase::OpeningStream, target, SessionEventView::StreamFailed(e))
            == seq![
            SessionActionView::Notify(NetEventView::Error("Failed to open stream: "@ + e)),
            SessionActionView::Sleep(3),
        ],
        reaction(SessionPhase::Streaming, target, SessionEventView::SendFailed(e)) == seq![
            SessionActionView::Notify(NetEventView::Error("Send failed: "@ + e)),
        ],
{
}

} // verus!
