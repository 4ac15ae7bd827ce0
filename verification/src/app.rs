//! The chat client's screen state: the line being typed, the message history
//! and the connection status, with what each key and each network report does
//! to them, and where the input line scrolls and the cursor stands.

use vstd::prelude::*;
use tokio::sync::mpsc::Sender;
use crate::network::{NetEvent, NetEventView, UiCommand, UiCommandView};
use crate::text::{
    contains_text, display_width, has_infix, joined, pop_char, push_char, text_width,
};

verus! {

#[verifier::external_type_specification]
#[verifier::external_body]
#[verifier::reject_recursive_types(T)]
pub struct ExSender<T>(tokio::sync::mpsc::Sender<T>);

/// The sending end of the channel to the network side, with the record of
/// every command offered on it, oldest first.
pub(crate) struct CommandSink {
    tx: Sender<UiCommand>,
    offered: Ghost<Seq<UiCommandView>>,
}

impl CommandSink {
    /// The commands offered so far, oldest first.
    pub(crate) closed spec fn offered(&self) -> Seq<UiCommandView> {
        self.offered@
    }

    /// The channel the commands are offered on.
    pub(crate) closed spec fn sender(&self) -> Sender<UiCommand> {
        self.tx
    }

    /// A sink on `tx` that has offered nothing yet.
    pub(crate) fn new(tx: Sender<UiCommand>) -> (sink: CommandSink)
        ensures
            sink.offered() == Seq::<UiCommandView>::empty(),
            sink.sender() == tx,
    {
        CommandSink { tx, offered: Ghost(Seq::empty()) }
    }

    /// Offers a command to the network side without waiting, once.
    ///
    /// Trusted: calls tokio's `mpsc::Sender::try_send` once with `cmd`; the record of
    /// offered commands grows by `cmd`. `try_send` queues the command when the channel
    /// has room and its receiver is alive, and otherwise drops it; which of the two
    /// happened depends on the channel's state at the time and is not stated.
    #[verifier::external_body]
    pub(crate) fn offer(&mut self, cmd: UiCommand)
        ensures
            final(self).offered() == old(self).offered().push(cmd@),
            final(self).sender() == old(self).sender(),
    {
        let _ = self.tx.try_send(cmd);
    }
}

/// A key the user pressed, as far as the client tells keys apart.
#[derive(Clone, Copy, Debug, PartialEq, Eq, Structural)]
pub enum KeyInput {
    Esc,
    Enter,
    Char(char),
    Backspace,
    Other,
}

/// The place of the input box on the screen.
#[derive(Clone, Copy, Debug, PartialEq, Eq, Structural)]
pub struct InputArea {
    pub x: u16,
    pub y: u16,
    pub width: u16,
}

/// How the input line is shown: how many columns it is scrolled by, and where
/// the cursor stands.
#[derive(Clone, Copy, Debug, PartialEq, Eq, Structural)]
pub struct InputViewport {
    pub scroll: usize,
    pub cursor_x: u16,
    pub cursor_y: u16,
}

/// The columns of the input box that show text: its width less the two borders
/// and the cursor cell.
pub open spec fn visible_columns(width: u16) -> nat {
    if width < 3 {
        0
    } else {
        (width - 3) as nat
    }
}

/// How far a line of `text_w` columns is scrolled in a box of `width` columns,
/// so that its end stays in view.
pub open spec fn scroll_for(text_w: nat, width: u16) -> nat {
    if text_w > visible_columns(width) {
        (text_w - visible_columns(width)) as nat
    } else {
        0
    }
}

/// The screen column of the cursor: just after the last shown character.
pub open spec fn cursor_column(text_w: nat, area: InputArea) -> int {
    area.x + (text_w - scroll_for(text_w, area.width)) + 1
}

/// The cursor's place fits the screen's coordinates.
pub open spec fn viewport_fits(text_w: nat, area: InputArea) -> bool {
    &&& cursor_column(text_w, area) <= u16::MAX
    &&& area.y + 1 <= u16::MAX
}

/// The viewport of a line of `text_w` columns in `area`.
pub open spec fn viewport_of(text_w: nat, area: InputArea) -> InputViewport {
    InputViewport {
        scroll: scroll_for(text_w, area.width) as usize,
        cursor_x: cursor_column(text_w, area) as u16,
        cursor_y: (area.y + 1) as u16,
    }
}

/// The input line after `key`.
pub open spec fn edited_input(input: Seq<char>, key: KeyInput) -> Seq<char> {
    match key {
        KeyInput::Char(c) => input.push(c),
        KeyInput::Backspace => if input.len() == 0 {
            input
        } else {
            input.drop_last()
        },
        _ => input,
    }
}

/// How a network report appears in the history, if it does.
pub open spec fn report_line(event: NetEventView) -> Option<Seq<char>> {
    match event {
        NetEventView::StatusChanged(_) => None,
        NetEventView::MessageReceived(m) => Some(m),
        NetEventView::Error(e) => Some("ERROR: "@ + e),
    }
}

/// The history line of a message the user sent.
pub open spec fn own_line(message: Seq<char>) -> Seq<char> {
    "You: "@ + message
}

/// The commands sending the line `input` offers: the line itself, unless it is empty.
pub open spec fn submitted(input: Seq<char>) -> Seq<UiCommandView> {
    if input.len() == 0 {
        seq![]
    } else {
        seq![UiCommandView::SendMessage(input)]
    }
}

/// The commands `key` offers, with `input` typed: Esc offers Quit, Enter sends the
/// line, any other key offers nothing.
pub open spec fn key_commands(input: Seq<char>, key: KeyInput) -> Seq<UiCommandView> {
    match key {
        KeyInput::Esc => seq![UiCommandView::Quit],
        KeyInput::Enter => submitted(input),
        _ => seq![],
    }
}

/// `h` extends itself.
proof fn lemma_extends_itself(h: Seq<Seq<char>>)
    ensures
        extends(h, h),
{
    assert(h.subrange(0, h.len() as int) =~= h);
}

/// `old` is where `new` starts: nothing in a history is lost or rewritten.
pub open spec fn extends(old: Seq<Seq<char>>, new: Seq<Seq<char>>) -> bool {
    old.len() <= new.len() && new.subrange(0, old.len() as int) == old
}

/// The viewport of the input line in `area`, for a line of `text_width` columns.
pub fn viewport(text_width: usize, area: InputArea) -> (v: InputViewport)
    requires
        viewport_fits(text_width as nat, area),
    ensures
        v == viewport_of(text_width as nat, area),
{
    let visible: usize = if area.width < 3 {
        0
    } else {
        (area.width - 3) as usize
    };
    let scroll: usize = if text_width > visible {
        text_width - visible
    } else {
        0
    };
    let shown = (text_width - scroll) as u16;
    InputViewport { scroll, cursor_x: area.x + shown + 1, cursor_y: area.y + 1 }
}

/// The state of the chat client's screen.
pub struct App {
    pub input: String,
    pub messages: Vec<String>,
    pub status: String,
    ui_tx: CommandSink,
}

impl App {
    /// The message history, line by line.
    pub closed spec fn history(&self) -> Seq<Seq<char>> {
        self.messages@.map_values(|m: String| m@)
    }

    /// The line being typed.
    pub closed spec fn input_text(&self) -> Seq<char> {
        self.input@
    }

    /// The connection status shown.
    pub closed spec fn status_text(&self) -> Seq<char> {
        self.status@
    }

    /// The channel to the network side.
    pub closed spec fn sender(&self) -> Sender<UiCommand> {
        self.ui_tx.sender()
    }

    /// The commands offered to the network side so far, oldest first.
    pub closed spec fn offered(&self) -> Seq<UiCommandView> {
        self.ui_tx.offered()
    }

    /// A client with an empty input line and history, that has not connected yet.
    pub fn new(ui_tx: Sender<UiCommand>) -> (app: App)
        ensures
            app.input_text() == Seq::<char>::empty(),
            app.history() == Seq::<Seq<char>>::empty(),
            app.status_text() == "Initializing..."@,
            app.sender() == ui_tx,
            app.offered() == Seq::<UiCommandView>::empty(),
    {
        let app = App {
            input: String::new(),
            messages: Vec::new(),
            status: String::from_str("Initializing..."),
            ui_tx: CommandSink::new(ui_tx),
        };
        assert(app.history() =~= Seq::<Seq<char>>::empty());
        app
    }

    /// Takes in a report of the network side: a status replaces the shown status;
    /// a message, or an error marked as such, is added to the history.
    pub fn handle_net_event(&mut self, event: NetEvent)
        ensures
            final(self).input_text() == old(self).input_text(),
            final(self).sender() == old(self).sender(),
            final(self).offered() == old(self).offered(),
            final(self).status_text() == (match event@ {
                NetEventView::StatusChanged(s) => s,
                _ => old(self).status_text(),
            }),
            final(self).history() == (match report_line(event@) {
                Some(line) => old(self).history().push(line),
                None => old(self).history(),
            }),
            extends(old(self).history(), final(self).history()),
    {
        let ghost old_history = self.history();
        match event {
            NetEvent::StatusChanged(new_status) => {
                self.status = new_status;
            },
            NetEvent::MessageReceived(msg) => {
                self.messages.push(msg);
            },
            NetEvent::Error(err) => {
                let line = joined("ERROR: ", err.as_str());
                self.messages.push(line);
            },
        }
        assert(self.history().subrange(0, old_history.len() as int) =~= old_history);
        assert(self.history() =~= match report_line(event@) {
            Some(line) => old_history.push(line),
            None => old_history,
        });
    }

    /// Takes the typed line for sending: when it is not empty, it is added to the
    /// history as the user's own, the line is cleared, and the command that sends it
    /// is returned; an empty line changes nothing.
    pub fn take_submission(&mut self) -> (cmd: Option<UiCommand>)
        ensures
            final(self).status_text() == old(self).status_text(),
            final(self).sender() == old(self).sender(),
            final(self).offered() == old(self).offered(),
            extends(old(self).history(), final(self).history()),
            old(self).input_text().len() == 0 ==> {
                &&& cmd is None
                &&& final(self).input_text() == old(self).input_text()
                &&& final(self).history() == old(self).history()
            },
            old(self).input_text().len() > 0 ==> {
                &&& cmd matches Some(c) && c@ == UiCommandView::SendMessage(old(self).input_text())
                &&& final(self).input_text() == Seq::<char>::empty()
                &&& final(self).history() == old(self).history().push(own_line(old(self).input_text()))
            },
    {
        let ghost old_history = self.history();
        if !self.input.as_str().is_empty() {
            let msg = self.input.clone();
            self.messages.push(joined("You: ", msg.as_str()));
            self.input = String::new();
            assert(self.history() =~= old_history.push(own_line(msg@)));
            assert(self.history().subrange(0, old_history.len() as int) =~= old_history);
            Some(UiCommand::SendMessage(msg))
        } else {
            assert(self.history().subrange(0, old_history.len() as int) =~= old_history);
            None
        }
    }

    /// Sends the typed line: as [`App::take_submission`] describes, and the command
    /// that sends it is offered to the network side, once; an empty line offers nothing.
    pub fn submit_message(&mut self)
        ensures
            final(self).status_text() == old(self).status_text(),
            final(self).sender() == old(self).sender(),
            final(self).offered() == old(self).offered() + submitted(old(self).input_text()),
            extends(old(self).history(), final(self).history()),
            old(self).input_text().len() == 0 ==> {
                &&& final(self).input_text() == old(self).input_text()
                &&& final(self).history() == old(self).history()
            },
            old(self).input_text().len() > 0 ==> {
                &&& final(self).input_text() == Seq::<char>::empty()
                &&& final(self).history() == old(self).history().push(own_line(old(self).input_text()))
            },
    {
        let ghost before = self.offered();
        let ghost line = self.input_text();
        if let Some(cmd) = self.take_submission() {
            self.ui_tx.offer(cmd);
        }
        assert(self.offered() =~= before + submitted(line));
    }

    /// Offers the quit command to the network side, once.
    pub fn send_quit(&mut self)
        ensures
            final(self).offered() == old(self).offered().push(UiCommandView::Quit),
            final(self).sender() == old(self).sender(),
            final(self).input_text() == old(self).input_text(),
            final(self).status_text() == old(self).status_text(),
            final(self).history() == old(self).history(),
    {
        self.ui_tx.offer(UiCommand::Quit);
    }

    /// Takes in one key: Esc quits (and returns `true`), Enter sends the line, a
    /// character is appended to the line, Backspace removes its last character.
    pub fn handle_key(&mut self, key: KeyInput) -> (quit: bool)
        ensures
            quit == (key == KeyInput::Esc),
            final(self).status_text() == old(self).status_text(),
            final(self).sender() == old(self).sender(),
            final(self).offered() == old(self).offered() + key_commands(old(self).input_text(), key),
            extends(old(self).history(), final(self).history()),
            key == KeyInput::Enter ==> {
                &&& old(self).input_text().len() == 0 ==> final(self).input_text() == old(self).input_text()
                    && final(self).history() == old(self).history()
                &&& old(self).input_text().len() > 0 ==> final(self).input_text() == Seq::<char>::empty()
                    && final(self).history() == old(self).history().push(
                    own_line(old(self).input_text()),
                )
            },
            key != KeyInput::Enter ==> {
                &&& final(self).input_text() == edited_input(old(self).input_text(), key)
                &&& final(self).history() == old(self).history()
            },
    {
        let ghost before = self.offered();
        let quit = match key {
            KeyInput::Esc => {
                self.send_quit();
                true
            },
            KeyInput::Enter => {
                self.submit_message();
                false
            },
            KeyInput::Char(c) => {
                push_char(&mut self.input, c);
                false
            },
            KeyInput::Backspace => {
                let _ = pop_char(&mut self.input);
                false
            },
            KeyInput::Other => false,
        };
        proof {
            if key != KeyInput::Enter {
                lemma_extends_itself(self.history());
            }
            if key != KeyInput::Esc && key != KeyInput::Enter {
                assert(self.offered() =~= before + key_commands(old(self).input_text(), key));
            }
        }
        quit
    }

    /// The status reads as connected.
    pub fn status_is_connected(&self) -> (yes: bool)
        ensures
            yes == has_infix(self.status_text(), "Connected"@),
    {
        contains_text(self.status.as_str(), "Connected")
    }

    /// The text of the status bar.
    pub fn status_line(&self) -> (line: String)
        ensures
            line@ == " Status: "@ + self.status_text() + " "@,
    {
        let mut line = joined(" Status: ", self.status.as_str());
        line.append(" ");
        line
    }

    /// How the input line is shown in `area`; `None` where the cursor's place
    /// would not fit the screen's coordinates.
    pub fn input_viewport(&self, area: InputArea) -> (v: Option<InputViewport>)
        ensures
            v == (if viewport_fits(text_width(self.input_text()) as nat, area) {
                Some(viewport_of(text_width(self.input_text()) as nat, area))
            } else {
                None
            }),
    {
        let w = display_width(self.input.as_str());
        let visible: usize = if area.width < 3 {
            0
        } else {
            (area.width - 3) as usize
        };
        let shown: usize = if w > visible {
            visible
        } else {
            w
        };
        if (area.x as usize) + shown < 65535 && area.y < 65535 {
            Some(viewport(w, area))
        } else {
            None
        }
    }
}

/// Backspace takes back the character just typed, and neither key offers
/// anything to the network side.
pub proof fn lemma_backspace_undoes_typing(input: Seq<char>, c: char)
    ensures
        edited_input(edited_input(input, KeyInput::Char(c)), KeyInput::Backspace) == input,
        key_commands(input, KeyInput::Char(c)) == Seq::<UiCommandView>::empty(),
        key_commands(input.push(c), KeyInput::Backspace) == Seq::<UiCommandView>::empty(),
{
    assert(input.push(c).drop_last() =~= input);
}

/// However long the typed line, its shown part fits the input box and the cursor
/// stays inside the box, right after the line's end; the line scrolls only when
/// it is wider than the box.
pub proof fn lemma_cursor_stays_in_box(text_w: nat, area: InputArea)
    ensures
        text_w - scroll_for(text_w, area.width) <= visible_columns(area.width),
        text_w - scroll_for(text_w, area.width) == (if text_w <= visible_columns(area.width) {
            text_w
        } else {
            visible_columns(area.width)
        }),
        area.x + 1 <= cursor_column(text_w, area) <= area.x + 1 + visible_columns(area.width),
        (scroll_for(text_w, area.width) == 0) == (text_w <= visible_columns(area.width)),
{
}

/// Only characters and Backspace edit the line: a character is appended at its
/// end, Backspace removes its last character (an empty line stays empty), and
/// every other key leaves it as it is.
pub proof fn lemma_keys_edit_the_line(input: Seq<char>, c: char)
    ensures
        edited_input(input, KeyInput::Char(c)).len() == input.len() + 1,
        edited_input(input, KeyInput::Char(c)).last() == c,
        edited_input(input, KeyInput::Char(c)).drop_last() == input,
        input.len() > 0 ==> edited_input(input, KeyInput::Backspace).len() == input.len() - 1
            && edited_input(input, KeyInput::Backspace) == input.subrange(
            0,
            input.len() - 1,
        ),
        input.len() == 0 ==> edited_input(input, KeyInput::Backspace) == input,
        edited_input(input, KeyInput::Other) == input,
        edited_input(input, KeyInput::Esc) == input,
        edited_input(input, KeyInput::Enter) == input,
{
    assert(input.push(c).drop_last() =~= input);
}

/// Esc offers exactly one Quit; Enter offers the line, once, when it is not
/// empty; no other key offers anything.
pub proof fn lemma_keys_offer(input: Seq<char>, c: char)
    ensures
        key_commands(input, KeyInput::Esc) == seq![UiCommandView::Quit],
        input.len() > 0 ==> key_commands(input, KeyInput::Enter) == seq![
            UiCommandView::SendMessage(input),
        ],
        input.len() == 0 ==> key_commands(input, KeyInput::Enter)
            == Seq::<UiCommandView>::empty(),
        key_commands(input, KeyInput::Char(c)) == Seq::<UiCommandView>::empty(),
        key_commands(input, KeyInput::Backspace) == Seq::<UiCommandView>::empty(),
        key_commands(input, KeyInput::Other) == Seq::<UiCommandView>::empty(),
{
}

/// Every non-empty line is offered exactly once, unchanged, whatever characters
/// it holds; an empty line is never offered. Its history line is "You: "
/// followed by the line, unchanged.
pub proof fn lemma_lines_are_sent_unchanged(input: Seq<char>)
    ensures
        input.len() > 0 ==> submitted(input) == seq![UiCommandView::SendMessage(input)],
        input.len() == 0 ==> submitted(input) == Seq::<UiCommandView>::empty(),
        own_line(input).len() == input.len() + 5,
        own_line(input).subrange(5, own_line(input).len() as int) == input,
        own_line(input).subrange(0, 5) == "You: "@,
{
    reveal_strlit("You: ");
    assert(own_line(input).subrange(5, own_line(input).len() as int) =~= input);
    assert(own_line(input).subrange(0, 5) =~= "You: "@);
}

/// Every received message goes into the history unchanged, whatever it holds;
/// every error goes in after "ERROR: "; a status change adds nothing.
pub proof fn lemma_reports_reach_the_history(m: Seq<char>)
    ensures
        report_line(NetEventView::MessageReceived(m)) == Some(m),
        report_line(NetEventView::Error(m)) == Some("ERROR: "@ + m),
        report_line(NetEventView::StatusChanged(m)) is None,
{
}

/// Where it fits the screen, the viewport shows as much of the line's end as
/// the box holds: it scrolls past exactly the columns that do not fit, puts the
/// cursor one column right of the box's edge plus the shown columns, and on the
/// row below the box's top.
pub proof fn lemma_viewport_shows_the_end(text_w: nat, area: InputArea)
    requires
        text_w <= usize::MAX,
        viewport_fits(text_w, area),
    ensures
        ({
            let shown = if text_w <= visible_columns(area.width) {
                text_w
            } else {
                visible_columns(area.width)
            };
            &&& viewport_of(text_w, area).scroll as int == text_w - shown
            &&& viewport_of(text_w, area).cursor_x as int == area.x + 1 + shown
            &&& viewport_of(text_w, area).cursor_y as int == area.y + 1
        }),
{
    let scroll = scroll_for(text_w, area.width);
    assert(0 <= scroll <= text_w);
    assert(scroll as usize as int == scroll);
    assert(cursor_column(text_w, area) as u16 as int == cursor_column(text_w, area));
    assert((area.y + 1) as u16 as int == area.y + 1);
}

} // verus!
