//! The relay server: its command line, the chat messages it passes between
//! users, and what one user's stream does with what it reads and with what the
//! other users publish.

use vstd::prelude::*;
use vstd::utf8::encode_utf8;
use crate::network::{
    NetEventView, SessionActionView, SessionEventView, SessionPhase, UiCommandView,
    is_keepalive, keepalive_bytes, lemma_message_round_trip, payload_text, reaction,
};
use crate::app::report_line;
use crate::text::{decimal, joined, lossy_text, lowercase, push_decimal, same_text, to_lowercase};
#[allow(unused_imports)]
use vstd::string::StrSliceExecFns;

verus! {

/// The sender id of messages the server itself announces.
pub open spec fn system_sender() -> usize {
    0
}

/// A message published to every connected user.
#[derive(Clone, Debug)]
pub struct ChatMessage {
    /// The id of the user who wrote it; 0 for the server's own announcements.
    pub sender_id: usize,
    pub content: String,
}

/// The congestion control the server's transport runs.
#[derive(Clone, Copy, Debug, PartialEq, Eq, Structural)]
pub enum CcAlgorithm {
    Cubic,
    Reno,
}

/// What the server was told to do on its command line.
#[derive(Debug)]
pub struct ServerConfig {
    pub addr: String,
    pub cc_algo: CcAlgorithm,
}

/// A command line the server refuses.
#[derive(Debug)]
pub enum ArgError {
    /// `--cc` named an algorithm the server does not know; the name, in lower case.
    UnknownAlgorithm(String),
    /// An argument that starts with `-` and is no option the server knows.
    UnknownOption(String),
}

/// The mathematical value of an [`ArgError`].
pub enum ArgErrorView {
    UnknownAlgorithm(Seq<char>),
    UnknownOption(Seq<char>),
}

impl View for ArgError {
    type V = ArgErrorView;

    open spec fn view(&self) -> ArgErrorView {
        match self {
            ArgError::UnknownAlgorithm(s) => ArgErrorView::UnknownAlgorithm(s@),
            ArgError::UnknownOption(s) => ArgErrorView::UnknownOption(s@),
        }
    }
}

/// The address the server binds when its command line names none.
pub open spec fn default_addr() -> Seq<char> {
    "0.0.0.0:8080"@
}

/// The algorithm a (lower-case) name stands for.
pub open spec fn algorithm_named(name: Seq<char>) -> Option<CcAlgorithm> {
    if name == "reno"@ {
        Some(CcAlgorithm::Reno)
    } else if name == "cubic"@ {
        Some(CcAlgorithm::Cubic)
    } else {
        None
    }
}

/// The text is an option, not a value: it starts with `-`.
pub open spec fn is_option(arg: Seq<char>) -> bool {
    arg.len() > 0 && arg[0] == '-'
}

/// The outcome of reading the arguments from position `i` on, with `addr` and
/// `cc` set so far: `--cc NAME` sets the algorithm, any other argument that
/// starts with `-` is refused, and any other argument sets the address (the
/// last one wins).
pub open spec fn parse_args_from(
    args: Seq<Seq<char>>,
    i: nat,
    addr: Seq<char>,
    cc: CcAlgorithm,
) -> Result<(Seq<char>, CcAlgorithm), ArgErrorView>
    decreases args.len() - i,
{
    if i >= args.len() {
        Ok((addr, cc))
    } else if args[i as int] == "--cc"@ && i + 1 < args.len() {
        let name = lowercase(args[i + 1 as int]);
        match algorithm_named(name) {
            Some(a) => parse_args_from(args, i + 2, addr, a),
            None => Err(ArgErrorView::UnknownAlgorithm(name)),
        }
    } else if is_option(args[i as int]) {
        Err(ArgErrorView::UnknownOption(args[i as int]))
    } else {
        parse_args_from(args, i + 1, args[i as int], cc)
    }
}

/// The outcome of a whole command line; its first argument is the program's name.
pub open spec fn parse_args(args: Seq<Seq<char>>) -> Result<(Seq<char>, CcAlgorithm), ArgErrorView> {
    parse_args_from(args, 1, default_addr(), CcAlgorithm::Cubic)
}

/// The text of each argument.
pub open spec fn texts(args: Seq<String>) -> Seq<Seq<char>> {
    args.map_values(|s: String| s@)
}

/// The announcement that user `id` joined.
pub open spec fn join_text(id: usize) -> Seq<char> {
    "User "@ + decimal(id as nat) + " joined the chat!"@
}

/// The announcement that user `id` left.
pub open spec fn leave_text(id: usize) -> Seq<char> {
    "User "@ + decimal(id as nat) + " left the chat."@
}

/// What user `my_id` is shown of a message from `sender` with `content`:
/// nothing of its own messages, announcements marked as the system's, and
/// other users' messages under their id.
pub open spec fn delivered_text(my_id: usize, sender: usize, content: Seq<char>) -> Option<
    Seq<char>,
> {
    if sender == my_id {
        None
    } else if sender == system_sender() {
        Some("[System]: "@ + content)
    } else {
        Some("User "@ + decimal(sender as nat) + ": "@ + content)
    }
}

/// What a read of `bytes` from user `id` publishes: nothing for a keep-alive,
/// else the decoded text as that user's message.
pub open spec fn published_text(bytes: Seq<u8>) -> Option<Seq<char>> {
    if bytes == keepalive_bytes() {
        None
    } else {
        Some(lossy_text(bytes))
    }
}

/// The algorithm a lower-case name stands for.
pub fn algorithm_from_name(name: &str) -> (a: Option<CcAlgorithm>)
    ensures
        a == algorithm_named(name@),
{
    if same_text(name, "reno") {
        Some(CcAlgorithm::Reno)
    } else if same_text(name, "cubic") {
        Some(CcAlgorithm::Cubic)
    } else {
        None
    }
}

/// The text starts with `-`.
pub fn looks_like_option(arg: &str) -> (yes: bool)
    ensures
        yes == is_option(arg@),
{
    arg.unicode_len() > 0 && arg.get_char(0) == '-'
}

/// Reads the server's command line (the program's name first): the address to
/// bind and the congestion control to run, or the argument it refuses.
pub fn parse_server_args(args: &Vec<String>) -> (r: Result<ServerConfig, ArgError>)
    ensures
        match (r, parse_args(texts(args@))) {
            (Ok(c), Ok((addr, cc))) => c.addr@ == addr && c.cc_algo == cc,
            (Err(e), Err(ev)) => e@ == ev,
            _ => false,
        },
{
    let ghost all = texts(args@);
    let mut addr = String::from_str("0.0.0.0:8080");
    let mut cc = CcAlgorithm::Cubic;
    let mut i: usize = 1;
    while i < args.len()
        invariant
            all == texts(args@),
            1 <= i,
            parse_args_from(all, i as nat, addr@, cc) == parse_args(all),
        decreases args.len() - i,
    {
        let arg = args[i].as_str();
        if same_text(arg, "--cc") && i + 1 < args.len() {
            let name = to_lowercase(args[i + 1].as_str());
            match algorithm_from_name(name.as_str()) {
                Some(a) => {
                    cc = a;
                },
                None => {
                    return Err(ArgError::UnknownAlgorithm(name));
                },
            }
            i = i + 2;
        } else if looks_like_option(arg) {
            return Err(ArgError::UnknownOption(args[i].clone()));
        } else {
            addr = args[i].clone();
            i = i + 1;
        }
    }
    Ok(ServerConfig { addr, cc_algo: cc })
}

impl ArgError {
    /// The line the server prints before it exits on this error.
    pub fn message(&self) -> (m: String)
        ensures
            m@ == (match self@ {
                ArgErrorView::UnknownAlgorithm(name) => "Unknown congestion control algorithm: "@
                    + name,
                ArgErrorView::UnknownOption(arg) => "Unknown option: "@ + arg,
            }),
    {
        match self {
            ArgError::UnknownAlgorithm(name) => joined(
                "Unknown congestion control algorithm: ",
                name.as_str(),
            ),
            ArgError::UnknownOption(arg) => joined("Unknown option: ", arg.as_str()),
        }
    }
}

/// The announcement that user `id` joined the chat.
pub fn join_notice(id: usize) -> (m: ChatMessage)
    ensures
        m.sender_id == system_sender(),
        m.content@ == join_text(id),
{
    let mut content = String::from_str("User ");
    push_decimal(&mut content, id);
    content.append(" joined the chat!");
    ChatMessage { sender_id: 0, content }
}

/// The announcement that user `id` left the chat.
pub fn leave_notice(id: usize) -> (m: ChatMessage)
    ensures
        m.sender_id == system_sender(),
        m.content@ == leave_text(id),
{
    let mut content = String::from_str("User ");
    push_decimal(&mut content, id);
    content.append(" left the chat.");
    ChatMessage { sender_id: 0, content }
}

/// The message user `id` publishes by sending `bytes`; a keep-alive publishes nothing.
pub fn message_from(id: usize, bytes: &[u8]) -> (m: Option<ChatMessage>)
    ensures
        match (m, published_text(bytes@)) {
            (Some(msg), Some(text)) => msg.sender_id == id && msg.content@ == text,
            (None, None) => true,
            _ => false,
        },
{
    if is_keepalive(bytes) {
        None
    } else {
        Some(ChatMessage { sender_id: id, content: payload_text(bytes) })
    }
}

/// What user `my_id` is shown of `msg`, if anything.
pub fn delivery_for(my_id: usize, msg: &ChatMessage) -> (shown: Option<String>)
    ensures
        match (shown, delivered_text(my_id, msg.sender_id, msg.content@)) {
            (Some(s), Some(t)) => s@ == t,
            (None, None) => true,
            _ => false,
        },
{
    if msg.sender_id == my_id {
        None
    } else if msg.sender_id == 0 {
        Some(joined("[System]: ", msg.content.as_str()))
    } else {
        let mut s = String::from_str("User ");
        push_decimal(&mut s, msg.sender_id);
        s.append(": ");
        s.append(msg.content.as_str());
        Some(s)
    }
}

/// What happened on one user's stream, or on the channel that carries what
/// every user publishes.
#[derive(Debug)]
pub enum PeerEvent {
    /// A read from the user returned these bytes (at least one).
    Read(Vec<u8>),
    /// A read returned no bytes: the user disconnected.
    ReadEnded,
    /// A read from the user failed.
    ReadFailed,
    /// A message was published.
    Published(ChatMessage),
    /// Some published messages were missed because this stream fell behind.
    Lagged,
    /// The channel of published messages is gone.
    PublishingClosed,
    /// Writing to the user failed.
    WriteFailed,
}

/// What one user's stream does on an event: publish a message, write bytes to
/// the user, and whether it stops.
#[derive(Debug)]
pub struct PeerReaction {
    pub publish: Option<ChatMessage>,
    pub deliver: Option<Vec<u8>>,
    pub stop: bool,
}

/// The reaction of user `my_id`'s stream to `event`.
pub fn peer_reaction(my_id: usize, event: PeerEvent) -> (r: PeerReaction)
    ensures
        match event {
            PeerEvent::Read(bytes) => {
                &&& !r.stop
                &&& r.deliver is None
                &&& match (r.publish, published_text(bytes@)) {
                    (Some(m), Some(t)) => m.sender_id == my_id && m.content@ == t,
                    (None, None) => true,
                    _ => false,
                }
            },
            PeerEvent::ReadEnded | PeerEvent::ReadFailed => {
                &&& r.stop
                &&& r.deliver is None
                &&& r.publish matches Some(m) && m.sender_id == system_sender() && m.content@
                    == leave_text(my_id)
            },
            PeerEvent::Published(msg) => {
                &&& !r.stop
                &&& r.publish is None
                &&& match (r.deliver, delivered_text(my_id, msg.sender_id, msg.content@)) {
                    (Some(b), Some(t)) => b@ == encode_utf8(t),
                    (None, None) => true,
                    _ => false,
                }
            },
            PeerEvent::Lagged => !r.stop && r.publish is None && r.deliver is None,
            PeerEvent::PublishingClosed | PeerEvent::WriteFailed => r.stop && r.publish is None
                && r.deliver is None,
        },
{
    match event {
        PeerEvent::Read(bytes) => PeerReaction {
            publish: message_from(my_id, bytes.as_slice()),
            deliver: None,
            stop: false,
        },
        PeerEvent::ReadEnded | PeerEvent::ReadFailed => PeerReaction {
            publish: Some(leave_notice(my_id)),
            deliver: None,
            stop: true,
        },
        PeerEvent::Published(msg) => {
            let deliver = match delivery_for(my_id, &msg) {
                Some(text) => Some(text.as_str().as_bytes_vec()),
                None => None,
            };
            PeerReaction { publish: None, deliver, stop: false }
        },
        PeerEvent::Lagged => PeerReaction { publish: None, deliver: None, stop: false },
        PeerEvent::PublishingClosed | PeerEvent::WriteFailed => PeerReaction {
            publish: None,
            deliver: None,
            stop: true,
        },
    }
}

/// No user is shown their own messages.
pub proof fn lemma_no_echo(my_id: usize, content: Seq<char>)
    ensures
        delivered_text(my_id, my_id, content) is None,
{
}

/// Every user is shown the server's announcements, marked as the system's.
pub proof fn lemma_announcements_reach_every_user(my_id: usize, content: Seq<char>)
    requires
        my_id != system_sender(),
    ensures
        delivered_text(my_id, system_sender(), content) == Some("[System]: "@ + content),
{
}

/// What one user types reaches every other user: the client writes the text's
/// UTF-8 bytes, the server publishes it unchanged under the writer's id, every
/// other user's stream is handed it as "User <id>: <text>", and that user's
/// client reports and records exactly that line. A lone NUL is the one text this
/// fails for: it is the keep-alive frame, and nobody is shown it.
pub proof fn lemma_message_reaches_other_users(
    m: Seq<char>,
    writer: usize,
    reader: usize,
    target: Seq<char>,
)
    requires
        m != seq!['\0'],
        writer != system_sender(),
        reader != writer,
    ensures
        reaction(
            SessionPhase::Streaming,
            target,
            SessionEventView::Command(UiCommandView::SendMessage(m)),
        ) == seq![SessionActionView::Write(encode_utf8(m))],
        published_text(encode_utf8(m)) == Some(m),
        delivered_text(reader, writer, m) == Some("User "@ + decimal(writer as nat) + ": "@ + m),
        reaction(
            SessionPhase::Streaming,
            target,
            SessionEventView::Received(encode_utf8("User "@ + decimal(writer as nat) + ": "@ + m)),
        ) == seq![
            SessionActionView::Notify(
                NetEventView::MessageReceived("User "@ + decimal(writer as nat) + ": "@ + m),
            ),
        ],
        report_line(NetEventView::MessageReceived("User "@ + decimal(writer as nat) + ": "@ + m))
            == Some("User "@ + decimal(writer as nat) + ": "@ + m),
{
    broadcast use vstd::utf8::group_utf8_lib;

    let line = "User "@ + decimal(writer as nat) + ": "@ + m;
    lemma_message_round_trip(target, m);
    reveal_strlit("User ");
    assert(line[0] == 'U');
    assert(line != seq!['\0']);
    lemma_message_round_trip(target, line);
}

/// Addresses are taken as given: with no option on the command line, the
/// server binds the last argument after the program's name (or the default
/// address when there is none) and runs CUBIC.
pub proof fn lemma_last_address_wins(args: Seq<Seq<char>>)
    requires
        args.len() >= 1,
        forall|j: int| 1 <= j < args.len() ==> !is_option(#[trigger] args[j]),
    ensures
        parse_args(args) == Ok::<(Seq<char>, CcAlgorithm), ArgErrorView>(
            (if args.len() > 1 {
                args.last()
            } else {
                default_addr()
            }, CcAlgorithm::Cubic),
        ),
{
    reveal_strlit("--cc");
    lemma_addresses_from(args, 1, default_addr(), CcAlgorithm::Cubic);
}

/// From position `i` on, a command line without options sets the address to
/// its last argument and leaves the algorithm alone.
proof fn lemma_addresses_from(args: Seq<Seq<char>>, i: nat, addr: Seq<char>, cc: CcAlgorithm)
    requires
        1 <= i,
        forall|j: int| 1 <= j < args.len() ==> !is_option(#[trigger] args[j]),
        "--cc"@.len() > 0 && "--cc"@[0] == '-',
    ensures
        parse_args_from(args, i, addr, cc) == Ok::<(Seq<char>, CcAlgorithm), ArgErrorView>(
            (if i < args.len() {
                args.last()
            } else {
                addr
            }, cc),
        ),
    decreases args.len() - i,
{
    if i < args.len() {
        assert(!is_option(args[i as int]));
        assert(args[i as int] != "--cc"@);
        lemma_addresses_from(args, i + 1, args[i as int], cc);
    }
}

/// An option the server does not know is refused, and `--cc` names the
/// algorithm: "reno" or "cubic" in any case, anything else refused.
pub proof fn lemma_options(p: Seq<char>, opt: Seq<char>, name: Seq<char>)
    ensures
        is_option(opt) ==> parse_args(seq![p, opt]) == Err::<
            (Seq<char>, CcAlgorithm),
            ArgErrorView,
        >(ArgErrorView::UnknownOption(opt)),
        lowercase(name) == "reno"@ ==> parse_args(seq![p, "--cc"@, name]) == Ok::<
            (Seq<char>, CcAlgorithm),
            ArgErrorView,
        >((default_addr(), CcAlgorithm::Reno)),
        lowercase(name) == "cubic"@ ==> parse_args(seq![p, "--cc"@, name]) == Ok::<
            (Seq<char>, CcAlgorithm),
            ArgErrorView,
        >((default_addr(), CcAlgorithm::Cubic)),
        lowercase(name) != "reno"@ && lowercase(name) != "cubic"@ ==> parse_args(
            seq![p, "--cc"@, name],
        ) == Err::<(Seq<char>, CcAlgorithm), ArgErrorView>(
            ArgErrorView::UnknownAlgorithm(lowercase(name)),
        ),
{
    let a2 = seq![p, opt];
    assert(a2[1] == opt);
    reveal_strlit("reno");
    reveal_strlit("cubic");
    assert("cubic"@.len() != "reno"@.len());
    assert(algorithm_named("cubic"@) == Some(CcAlgorithm::Cubic));
    let a3 = seq![p, "--cc"@, name];
    assert(a3[1] == "--cc"@ && a3[2] == name);
    if let Some(alg) = algorithm_named(lowercase(name)) {
        assert(parse_args_from(a3, 3, default_addr(), alg) == Ok::<
            (Seq<char>, CcAlgorithm),
            ArgErrorView,
        >((default_addr(), alg)));
    }
    if is_option(opt) {
        if opt == "--cc"@ {
            assert(parse_args_from(a2, 1, default_addr(), CcAlgorithm::Cubic) == Err::<
                (Seq<char>, CcAlgorithm),
                ArgErrorView,
            >(ArgErrorView::UnknownOption(opt)));
        }
    }
}

/// Other users' messages are shown under their id, with their text unchanged.
pub proof fn lemma_others_are_named(my_id: usize, sender: usize, content: Seq<char>)
    requires
        sender != my_id,
        sender != system_sender(),
    ensures
        delivered_text(my_id, sender, content) == Some(
            "User "@ + decimal(sender as nat) + ": "@ + content,
        ),
{
}

/// A read publishes nothing exactly when it is the keep-alive frame; any other
/// read publishes its decoded text.
pub proof fn lemma_reads_publish_their_text(bytes: Seq<u8>)
    ensures
        published_text(keepalive_bytes()) is None,
        bytes != keepalive_bytes() ==> published_text(bytes) == Some(lossy_text(bytes)),
{
}

} // verus!
