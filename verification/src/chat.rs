//! What the chat screen shows, and how it takes in the events of the stream:
//! the messages, the roster, the focused field, and each input line with the
//! window through which it is seen.

use crate::application::{ActiveEventLoop, GeneralEvent, LoopState};
use crate::input_window::InputWindow;
use crate::networking::{Event, EventView};
use crate::text_input::{input_cursor, input_text, line_cursor, line_from, line_handle};
use crate::wire::texts;
use vstd::prelude::*;
use vstd::string::*;

verus! {

/// The focus while the connection is being set up.
#[derive(Debug, PartialEq, Eq, Clone, Copy, Structural)]
pub enum ConnectingSelected {
    Name,
    Ip,
    Port,
    Connect,
}

/// The focus while a session is active.
#[derive(Debug, PartialEq, Eq, Clone, Copy, Structural)]
pub enum ConnectedSelected {
    Messages,
    Users,
    Recipient,
    Send,
}

/// Which screen is up, and what is focused on it.
#[derive(Debug, PartialEq, Eq, Clone, Copy, Structural)]
pub enum AppState {
    ConnectingToNetwork(ConnectingSelected),
    Connected(ConnectedSelected),
}

/// The input lines of the two screens.
#[derive(Debug, PartialEq, Eq, Clone, Copy, Structural)]
pub enum InputField {
    Username,
    Ip,
    Port,
    Message,
    Recipient,
}

/// A terminal event, decoded as far as the chat needs it.
#[derive(Debug, PartialEq, Eq, Clone)]
pub struct TerminalInput {
    /// Whether the event is the escape key.
    pub escape: bool,
    /// The edit that the event asks of an input line, if it asks one.
    pub request: Option<tui_input::InputRequest>,
}

/// The input line that has the focus, if the focus is on one.
pub open spec fn focused_field(state: AppState) -> Option<InputField> {
    match state {
        AppState::Connected(ConnectedSelected::Send) => Some(InputField::Message),
        AppState::Connected(ConnectedSelected::Recipient) => Some(InputField::Recipient),
        AppState::Connected(_) => None,
        AppState::ConnectingToNetwork(ConnectingSelected::Name) => Some(InputField::Username),
        AppState::ConnectingToNetwork(ConnectingSelected::Ip) => Some(InputField::Ip),
        AppState::ConnectingToNetwork(ConnectingSelected::Port) => Some(InputField::Port),
        AppState::ConnectingToNetwork(_) => None,
    }
}

/// The line under which a received message is listed.
pub open spec fn message_line(sender: Seq<char>, message: Seq<char>) -> Seq<char> {
    sender + ": "@ + message
}

/// One input line: its text, its cursor, and the window through which it
/// is seen.
pub ghost struct LineView {
    pub text: Seq<char>,
    pub cursor: nat,
    pub window: InputWindow,
}

/// The five input lines.
pub ghost struct Lines {
    pub username: LineView,
    pub ip: LineView,
    pub port: LineView,
    pub message: LineView,
    pub recipient: LineView,
}

impl Lines {
    /// One of the lines.
    pub open spec fn of(self, field: InputField) -> LineView {
        match field {
            InputField::Username => self.username,
            InputField::Ip => self.ip,
            InputField::Port => self.port,
            InputField::Message => self.message,
            InputField::Recipient => self.recipient,
        }
    }

    /// The same lines with that of `field` replaced.
    pub open spec fn with(self, field: InputField, line: LineView) -> Lines {
        match field {
            InputField::Username => Lines { username: line, ..self },
            InputField::Ip => Lines { ip: line, ..self },
            InputField::Port => Lines { port: line, ..self },
            InputField::Message => Lines { message: line, ..self },
            InputField::Recipient => Lines { recipient: line, ..self },
        }
    }
}

/// A `ChatState` with its strings as text.
pub ghost struct ChatView {
    pub messages: Seq<Seq<char>>,
    pub users: Seq<Seq<char>>,
    pub state: AppState,
    pub lines: Lines,
}

impl ChatView {
    /// The screen after a session reported `event`: a roster replaces the one
    /// that was known, whole; a received message is listed after the others;
    /// nothing else changes what is shown.
    pub open spec fn after_network(self, event: EventView) -> ChatView {
        match event {
            EventView::UsersList(users) => ChatView { users, ..self },
            EventView::MessageReceived(info) => ChatView {
                messages: self.messages.push(message_line(info.sender, info.message)),
                ..self
            },
            _ => self,
        }
    }

    /// Whether `after` is this screen once the focused input line took a
    /// terminal event. Only that line may differ; its window has followed
    /// its cursor; and an event that asks no edit leaves text and cursor as
    /// they were. Without a focused line nothing changes. What an edit does
    /// to text and cursor is the toolkit's business and is left open.
    pub open spec fn input_taken(self, after: ChatView, input: TerminalInput) -> bool {
        match focused_field(self.state) {
            Some(field) => {
                let was = self.lines.of(field);
                let is = after.lines.of(field);
                &&& after == ChatView { lines: self.lines.with(field, is), ..self }
                &&& is.cursor <= usize::MAX
                &&& is.window == was.window.followed(is.cursor as int)
                &&& input.request is None ==> is.text == was.text && is.cursor == was.cursor
            },
            None => after == self,
        }
    }

    /// The same screen with the width of one window replaced.
    pub open spec fn with_window_length(self, field: InputField, length: usize) -> ChatView {
        let line = self.lines.of(field);
        ChatView {
            lines: self.lines.with(
                field,
                LineView { window: InputWindow { start: line.window.start, length }, ..line },
            ),
            ..self
        }
    }
}

/// Whether a report from the session ends the chat: everything but a roster
/// and a received message does.
pub open spec fn ends_chat(event: EventView) -> bool {
    !(event is UsersList) && !(event is MessageReceived)
}

/// Whether the chat asks the loop to exit on `event`: on the escape key, on
/// a report that ends the chat, and on a sentinel that strayed to it.
pub open spec fn wants_exit(event: GeneralEvent<TerminalInput>) -> bool {
    match event {
        GeneralEvent::Input(input) => input.escape,
        GeneralEvent::Networking(report) => ends_chat(report@),
        _ => true,
    }
}

/// Whether `after` is the screen `before` once the chat took `event` in: a
/// terminal event goes to the focused input line, a report from the session
/// to the roster or the messages, and a sentinel changes nothing.
pub open spec fn taken_in(before: ChatView, after: ChatView, event: GeneralEvent<TerminalInput>)
    -> bool {
    match event {
        GeneralEvent::Input(input) => before.input_taken(after, input),
        GeneralEvent::Networking(report) => after == before.after_network(report@),
        _ => after == before,
    }
}

/// What the chat has put into the stream on one event: a redraw request
/// always, and `Exit` behind it where it asked the loop to exit and the loop
/// had not announced its end before.
pub open spec fn emitted_on(before: LoopState, exit: bool) -> Seq<GeneralEvent<TerminalInput>> {
    if exit && before.exit_announced() {
        seq![GeneralEvent::RedrawRequested, GeneralEvent::Exit]
    } else {
        seq![GeneralEvent::RedrawRequested]
    }
}

/// What the chat screen shows.
pub struct ChatState {
    messages: Vec<String>,
    users: Vec<String>,
    state: AppState,
    username_input: tui_input::Input,
    username_window: InputWindow,
    ip_input: tui_input::Input,
    ip_window: InputWindow,
    port_input: tui_input::Input,
    port_window: InputWindow,
    message_input: tui_input::Input,
    message_window: InputWindow,
    recipient_input: tui_input::Input,
    recipient_window: InputWindow,
}

/// An input line with its window, as the screen sees them.
pub open spec fn line_view(input: tui_input::Input, window: InputWindow) -> LineView {
    LineView { text: input_text(input), cursor: input_cursor(input), window }
}

impl View for ChatState {
    type V = ChatView;

    closed spec fn view(&self) -> ChatView {
        ChatView {
            messages: texts(self.messages@),
            users: texts(self.users@),
            state: self.state,
            lines: Lines {
                username: line_view(self.username_input, self.username_window),
                ip: line_view(self.ip_input, self.ip_window),
                port: line_view(self.port_input, self.port_window),
                message: line_view(self.message_input, self.message_window),
                recipient: line_view(self.recipient_input, self.recipient_window),
            },
        }
    }
}

impl ChatState {
    /// The screen at the start: nothing received, nobody known, the focus
    /// on the message line, every line empty behind an empty window.
    pub open spec fn initial() -> ChatView {
        let blank = LineView {
            text: Seq::empty(),
            cursor: 0,
            window: InputWindow { start: 0, length: 0 },
        };
        ChatView {
            messages: Seq::empty(),
            users: Seq::empty(),
            state: AppState::Connected(ConnectedSelected::Send),
            lines: Lines {
                username: blank,
                ip: blank,
                port: blank,
                message: blank,
                recipient: blank,
            },
        }
    }

    #[inline]
    pub fn new() -> (chat: Self)
        ensures
            chat@ == Self::initial(),
    {
        proof {
            reveal_strlit("");
        }
        let chat = ChatState {
            messages: Vec::new(),
            users: Vec::new(),
            state: AppState::Connected(ConnectedSelected::Send),
            username_input: line_from(""),
            username_window: InputWindow::empty(),
            ip_input: line_from(""),
            ip_window: InputWindow::empty(),
            port_input: line_from(""),
            port_window: InputWindow::empty(),
            message_input: line_from(""),
            message_window: InputWindow::empty(),
            recipient_input: line_from(""),
            recipient_window: InputWindow::empty(),
        };
        assert(texts(chat.messages@) == Seq::<Seq<char>>::empty());
        assert(texts(chat.users@) == Seq::<Seq<char>>::empty());
        assert(""@ == Seq::<char>::empty());
        chat
    }

    /// The listed messages, oldest first.
    pub fn messages(&self) -> (messages: &Vec<String>)
        ensures
            texts(messages@) == self@.messages,
    {
        &self.messages
    }

    /// The roster as the peer last sent it.
    pub fn users(&self) -> (users: &Vec<String>)
        ensures
            texts(users@) == self@.users,
    {
        &self.users
    }

    /// Which screen is up, and what is focused on it.
    pub fn state(&self) -> (state: AppState)
        ensures
            state == self@.state,
    {
        self.state
    }

    /// Moves the focus.
    pub fn select(&mut self, state: AppState)
        ensures
            final(self)@ == (ChatView { state, ..old(self)@ }),
    {
        self.state = state;
    }

    /// Which input line has the focus, if the focus is on one.
    pub fn focused(&self) -> (field: Option<InputField>)
        ensures
            field == focused_field(self@.state),
    {
        match self.state {
            AppState::Connected(selected) => match selected {
                ConnectedSelected::Send => Some(InputField::Message),
                ConnectedSelected::Recipient => Some(InputField::Recipient),
                _ => None,
            },
            AppState::ConnectingToNetwork(selected) => match selected {
                ConnectingSelected::Name => Some(InputField::Username),
                ConnectingSelected::Ip => Some(InputField::Ip),
                ConnectingSelected::Port => Some(InputField::Port),
                _ => None,
            },
        }
    }

    /// One of the input lines.
    pub fn input(&self, field: InputField) -> (input: &tui_input::Input)
        ensures
            input_text(*input) == self@.lines.of(field).text,
            input_cursor(*input) == self@.lines.of(field).cursor,
    {
        match field {
            InputField::Username => &self.username_input,
            InputField::Ip => &self.ip_input,
            InputField::Port => &self.port_input,
            InputField::Message => &self.message_input,
            InputField::Recipient => &self.recipient_input,
        }
    }

    /// The window of one input line.
    pub fn window(&self, field: InputField) -> (window: &InputWindow)
        ensures
            *window == self@.lines.of(field).window,
    {
        match field {
            InputField::Username => &self.username_window,
            InputField::Ip => &self.ip_window,
            InputField::Port => &self.port_window,
            InputField::Message => &self.message_window,
            InputField::Recipient => &self.recipient_window,
        }
    }

    /// The focused input line, if the focus is on one.
    #[inline]
    pub fn get_current_input(&self) -> (input: Option<&tui_input::Input>)
        ensures
            input is Some <==> focused_field(self@.state) is Some,
            input is Some ==> input_text(*input.unwrap()) == self@.lines.of(
                focused_field(self@.state).unwrap(),
            ).text,
            input is Some ==> input_cursor(*input.unwrap()) == self@.lines.of(
                focused_field(self@.state).unwrap(),
            ).cursor,
    {
        match self.focused() {
            Some(field) => Some(self.input(field)),
            None => None,
        }
    }

    /// The window of the focused input line, if the focus is on one.
    #[inline]
    pub fn get_current_input_window(&self) -> (window: Option<&InputWindow>)
        ensures
            window is Some <==> focused_field(self@.state) is Some,
            window is Some ==> *window.unwrap() == self@.lines.of(
                focused_field(self@.state).unwrap(),
            ).window,
    {
        match self.focused() {
            Some(field) => Some(self.window(field)),
            None => None,
        }
    }

    /// The focused input line, to be edited in place, if the focus is on
    /// one. Whoever edits it has its window follow: see `handle_input`.
    #[inline]
    pub fn get_current_input_mut(&mut self) -> (input: Option<&mut tui_input::Input>)
        ensures
            input is Some <==> focused_field(old(self)@.state) is Some,
            (match input {
                Some(line) => {
                    let field = focused_field(old(self)@.state).unwrap();
                    let was = old(self)@.lines.of(field);
                    &&& line_view(*line, was.window) == was
                    &&& final(self)@ == ChatView {
                        lines: old(self)@.lines.with(field, line_view(*final(line), was.window)),
                        ..old(self)@
                    }
                },
                None => final(self)@ == old(self)@,
            }),
    {
        match self.focused() {
            Some(InputField::Username) => Some(&mut self.username_input),
            Some(InputField::Ip) => Some(&mut self.ip_input),
            Some(InputField::Port) => Some(&mut self.port_input),
            Some(InputField::Message) => Some(&mut self.message_input),
            Some(InputField::Recipient) => Some(&mut self.recipient_input),
            None => None,
        }
    }

    /// The window of the focused input line, to be changed in place, if the
    /// focus is on one.
    #[inline]
    pub fn get_current_input_window_mut(&mut self) -> (window: Option<&mut InputWindow>)
        ensures
            window is Some <==> focused_field(old(self)@.state) is Some,
            (match window {
                Some(pane) => {
                    let field = focused_field(old(self)@.state).unwrap();
                    let was = old(self)@.lines.of(field);
                    &&& *pane == was.window
                    &&& final(self)@ == ChatView {
                        lines: old(self)@.lines.with(
                            field,
                            LineView { window: *final(pane), ..was },
                        ),
                        ..old(self)@
                    }
                },
                None => final(self)@ == old(self)@,
            }),
    {
        match self.focused() {
            Some(InputField::Username) => Some(&mut self.username_window),
            Some(InputField::Ip) => Some(&mut self.ip_window),
            Some(InputField::Port) => Some(&mut self.port_window),
            Some(InputField::Message) => Some(&mut self.message_window),
            Some(InputField::Recipient) => Some(&mut self.recipient_window),
            None => None,
        }
    }

    /// What of one input line is to be drawn: the part of its text that
    /// lies in its window.
    pub fn shown_text(&self, field: InputField) -> (shown: &str)
        ensures
            shown@ == self@.lines.of(field).window.visible(self@.lines.of(field).text),
    {
        self.window(field).pruned_input(self.input(field))
    }

    /// Gives the window of one input line the width that the screen has for
    /// it.
    pub fn set_window_length(&mut self, field: InputField, length: usize)
        ensures
            final(self)@ == old(self)@.with_window_length(field, length),
    {
        match field {
            InputField::Username => {
                self.username_window.length = length;
            },
            InputField::Ip => {
                self.ip_window.length = length;
            },
            InputField::Port => {
                self.port_window.length = length;
            },
            InputField::Message => {
                self.message_window.length = length;
            },
            InputField::Recipient => {
                self.recipient_window.length = length;
            },
        }
    }

    /// The focused input line takes a terminal event: it applies the edit,
    /// if the event asks one, and its window follows its cursor.
    pub fn handle_input(&mut self, input: &TerminalInput)
        ensures
            old(self)@.input_taken(final(self)@, *input),
    {
        let moved = match self.get_current_input_mut() {
            Some(line) => {
                match input.request {
                    Some(edit) => {
                        line_handle(line, edit);
                    },
                    None => {},
                }
                Some(line_cursor(line))
            },
            None => None,
        };
        match moved {
            Some(cursor) => match self.get_current_input_window_mut() {
                Some(pane) => {
                    pane.cursor_changed(cursor);
                },
                None => {},
            },
            None => {},
        }
    }

    /// Takes in what a session reported. The result says whether the chat
    /// is over.
    pub fn handle_network_event(&mut self, event: Event) -> (over: bool)
        ensures
            final(self)@ == old(self)@.after_network(event@),
            over == ends_chat(event@),
    {
        match event {
            Event::UsersList(users) => {
                self.users = users;
                false
            },
            Event::MessageReceived(info) => {
                let mut line = info.sender;
                line.append(": ");
                line.append(info.message.as_str());
                proof {
                    assert(texts(self.messages@.push(line)) == texts(self.messages@).push(line@));
                }
                self.messages.push(line);
                false
            },
            _ => true,
        }
    }

    /// The chat's first word to the loop: a redraw request, for the caller
    /// to put into the stream.
    pub fn init(&mut self, event_loop: &mut ActiveEventLoop) -> (emitted: Vec<
        GeneralEvent<TerminalInput>,
    >)
        ensures
            final(self)@ == old(self)@,
            final(event_loop)@ == old(event_loop)@,
            emitted@ == seq![GeneralEvent::<TerminalInput>::RedrawRequested],
    {
        let mut emitted = Vec::new();
        emitted.push(event_loop.request_redraw());
        emitted
    }

    /// Takes one event off the consuming loop. The screen takes it in: a
    /// terminal event goes to the focused input line, a report from the
    /// session to the roster or the messages. The chat answers with a redraw
    /// request, and asks the loop to exit where `wants_exit` says so. What it
    /// returns is for the caller to put into the stream, in this order.
    pub fn handle_event(
        &mut self,
        event_loop: &mut ActiveEventLoop,
        event: GeneralEvent<TerminalInput>,
    ) -> (emitted: Vec<GeneralEvent<TerminalInput>>)
        ensures
            emitted@ == emitted_on(old(event_loop)@, wants_exit(event)),
            final(event_loop)@ == old(event_loop)@.asked(wants_exit(event)),
            taken_in(old(self)@, final(self)@, event),
    {
        let mut emitted = Vec::new();
        emitted.push(event_loop.request_redraw());
        let exit = match event {
            GeneralEvent::Input(input) => {
                self.handle_input(&input);
                input.escape
            },
            GeneralEvent::Networking(report) => self.handle_network_event(report),
            _ => true,
        };
        if exit {
            match event_loop.exit() {
                Some(announcement) => {
                    emitted.push(announcement);
                },
                None => {},
            }
        }
        emitted
    }
}

/// A roster replaces the one before it: after two rosters in a row the
/// second is what is shown, and nothing of the first is left.
pub proof fn law_roster_replaced(chat: ChatView, first: Seq<Seq<char>>, second: Seq<Seq<char>>)
    ensures
        chat.after_network(EventView::UsersList(first)).after_network(
            EventView::UsersList(second),
        ).users == second,
        chat.after_network(EventView::UsersList(first)).after_network(
            EventView::UsersList(second),
        ) == chat.after_network(EventView::UsersList(second)),
{
}

/// After the focused input line took a terminal event, its window shows its
/// cursor.
pub proof fn law_cursor_in_window(before: ChatView, after: ChatView, input: TerminalInput)
    requires
        before.input_taken(after, input),
        focused_field(before.state) is Some,
    ensures
        ({
            let line = after.lines.of(focused_field(before.state).unwrap());
            line.window.shows(line.cursor as int)
        }),
{
}

} // verus!
