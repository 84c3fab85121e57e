//! The chat protocol: its events, its line codec and the session that speaks it.
//!
//! Frames are lines of text. Fields are separated by `:`; every frame ends
//! with a line feed. Nothing here touches a socket: a session says what is to
//! be written, and the receiving side is a step function from one read to one
//! action.

use crate::cancel_token::CancelToken;
use crate::wire::{
    concat_texts, law_split_flattened_drops_delimiter, same_text, split, split_text, texts, without,
};
use vstd::prelude::*;
use vstd::string::*;

verus! {

/// To whom a message is addressed.
#[derive(PartialEq, Eq, Clone, Debug)]
pub enum Recipient {
    /// Everyone on the server.
    All,
    /// The user of that name.
    Id(String),
    /// The local user: only messages that came in carry it.
    This,
}

/// A `Recipient` with its name as text.
pub ghost enum RecipientView {
    All,
    Id(Seq<char>),
    This,
}

impl View for Recipient {
    type V = RecipientView;

    open spec fn view(&self) -> RecipientView {
        match *self {
            Recipient::All => RecipientView::All,
            Recipient::Id(id) => RecipientView::Id(id@),
            Recipient::This => RecipientView::This,
        }
    }
}

/// One chat message with its addressing.
#[derive(Debug, PartialEq, Eq, Clone)]
pub struct MessageInformation {
    pub sender: String,
    pub recipient: Recipient,
    pub message: String,
}

/// A `MessageInformation` with its strings as text.
pub ghost struct MessageView {
    pub sender: Seq<char>,
    pub recipient: RecipientView,
    pub message: Seq<char>,
}

impl View for MessageInformation {
    type V = MessageView;

    open spec fn view(&self) -> MessageView {
        MessageView { sender: self.sender@, recipient: self.recipient@, message: self.message@ }
    }
}

impl MessageInformation {
    /// Whether the message went to everyone.
    pub fn is_all(&self) -> (all: bool)
        ensures
            all == (self@.recipient is All),
    {
        match self.recipient {
            Recipient::All => true,
            _ => false,
        }
    }
}

/// What a session reports to the application.
#[derive(Debug, PartialEq, Eq, Clone)]
pub enum Event {
    /// The session is over.
    Quit,
    /// The roster, whole: it replaces whatever was known before.
    UsersList(Vec<String>),
    /// The local copy of a message that this side sent.
    MessageSent(MessageInformation),
    /// A message from the peer.
    MessageReceived(MessageInformation),
}

/// An `Event` with its strings as text.
pub ghost enum EventView {
    Quit,
    UsersList(Seq<Seq<char>>),
    MessageSent(MessageView),
    MessageReceived(MessageView),
}

impl View for Event {
    type V = EventView;

    open spec fn view(&self) -> EventView {
        match *self {
            Event::Quit => EventView::Quit,
            Event::UsersList(users) => EventView::UsersList(texts(users@)),
            Event::MessageSent(info) => EventView::MessageSent(info@),
            Event::MessageReceived(info) => EventView::MessageReceived(info@),
        }
    }
}

/// Whether the sender field of an incoming message ends in the broadcast
/// marker: its last space-separated token is `(ALL)`.
pub open spec fn is_broadcast(sender_field: Seq<char>) -> bool {
    split(sender_field, ' ').last() == "(ALL)"@
}

/// The sender's name as rebuilt from the sender field: its space-separated
/// tokens, without the broadcast marker where it ends in one, written one
/// after another with nothing between them.
pub open spec fn sender_name(sender_field: Seq<char>) -> Seq<char> {
    let tokens = split(sender_field, ' ');
    if is_broadcast(sender_field) {
        tokens.drop_last().flatten()
    } else {
        tokens.flatten()
    }
}

/// What an incoming line means, or `None` for a line that is dropped.
///
/// `MSG:<sender>:<text>` is a message; `USERS:<name>,<name>,...` is the
/// roster. A line with any other tag, or with too few fields for its tag, is
/// dropped. The text of a message is its third field and ends at the next `:`.
pub open spec fn decode(line: Seq<char>) -> Option<EventView> {
    let fields = split(line, ':');
    if fields[0] == "MSG"@ {
        if fields.len() >= 3 {
            Some(
                EventView::MessageReceived(
                    MessageView {
                        sender: sender_name(fields[1]),
                        recipient: if is_broadcast(fields[1]) {
                            RecipientView::All
                        } else {
                            RecipientView::This
                        },
                        message: fields[2],
                    },
                ),
            )
        } else {
            None
        }
    } else if fields[0] == "USERS"@ {
        if fields.len() >= 2 {
            Some(EventView::UsersList(split(fields[1], ',')))
        } else {
            None
        }
    } else {
        None
    }
}

/// Reads the sender field of an incoming message.
fn decode_sender(sender_field: &str) -> (parsed: (String, bool))
    ensures
        parsed.0@ == sender_name(sender_field@),
        parsed.1 == is_broadcast(sender_field@),
{
    let tokens = split_text(sender_field, ' ');
    let last: usize = tokens.len() - 1;
    let broadcast = same_text(tokens[last].as_str(), "(ALL)");
    proof {
        let all = texts(tokens@);
        assert(all.last() == tokens@[last as int]@);
        assert(all.take(last as int) == all.drop_last());
        assert(all.take(all.len() as int) == all);
    }
    let sender = if broadcast {
        concat_texts(&tokens, last)
    } else {
        concat_texts(&tokens, tokens.len())
    };
    (sender, broadcast)
}

/// Decodes one incoming line, without its line feed.
pub fn decode_line(line: &str) -> (event: Option<Event>)
    ensures
        event is Some <==> decode(line@) is Some,
        event is Some ==> event.unwrap()@ == decode(line@).unwrap(),
{
    let fields = split_text(line, ':');
    proof {
        let all = texts(fields@);
        assert(all[0] == fields@[0]@);
        if fields@.len() >= 2 {
            assert(all[1] == fields@[1]@);
        }
        if fields@.len() >= 3 {
            assert(all[2] == fields@[2]@);
        }
    }
    if same_text(fields[0].as_str(), "MSG") {
        if fields.len() < 3 {
            return None;
        }
        let (sender, broadcast) = decode_sender(fields[1].as_str());
        let recipient = if broadcast {
            Recipient::All
        } else {
            Recipient::This
        };
        let message = String::from_str(fields[2].as_str());
        Some(Event::MessageReceived(MessageInformation { sender, recipient, message }))
    } else if same_text(fields[0].as_str(), "USERS") {
        if fields.len() < 2 {
            return None;
        }
        Some(Event::UsersList(split_text(fields[1].as_str(), ',')))
    } else {
        None
    }
}

/// Whether `name` can be announced to the peer: it is not empty and holds no
/// field delimiter.
pub open spec fn valid_display_name(name: Seq<char>) -> bool {
    name.len() > 0 && forall|i: int| 0 <= i < name.len() ==> name[i] != ':'
}

/// The frame that announces a display name to the peer.
pub open spec fn handshake_frame(name: Seq<char>) -> Seq<char> {
    "ID:"@ + name + "\n"@
}

/// The frame that carries `text` to `recipient`. Nothing is ever sent to
/// `This`; the empty text stands for it here.
pub open spec fn message_frame(recipient: RecipientView, text: Seq<char>) -> Seq<char> {
    match recipient {
        RecipientView::All => "ALL:"@ + text + "\n"@,
        RecipientView::Id(id) => "SEND:"@ + id + ":"@ + text + "\n"@,
        RecipientView::This => Seq::empty(),
    }
}

/// Tests a display name before a session is made with it.
pub fn is_valid_display_name(name: &str) -> (valid: bool)
    ensures
        valid == valid_display_name(name@),
{
    let n = name.unicode_len();
    if n == 0 {
        return false;
    }
    let mut i: usize = 0;
    while i < n
        invariant
            i <= n,
            n == name@.len(),
            forall|j: int| 0 <= j < i ==> name@[j] != ':',
        decreases n - i,
    {
        if name.get_char(i) == ':' {
            return false;
        }
        i += 1;
    }
    true
}

/// Why a session could not be started.
#[derive(Debug, PartialEq, Eq, Clone, Copy, Structural)]
pub enum ConnectError {
    /// The address did not resolve, or nothing accepted the connection.
    Unreachable,
    /// The connection stood, and the handshake could not be written.
    IoFailure,
    /// A session is active already; it has to be stopped first.
    AlreadyConnected,
}

/// Why a message was not sent.
#[derive(Debug, PartialEq, Eq, Clone, Copy, Structural)]
pub enum SendError {
    /// The message was addressed to `Recipient::This`.
    InvalidRecipient,
}

/// What `Session::send` asks of its caller.
#[derive(Debug, PartialEq, Eq, Clone)]
pub struct Outgoing {
    /// The frame to write to the peer, line feed included.
    pub frame: String,
    /// The local copy of the message, for the caller to put into its own
    /// event stream.
    pub echo: Event,
}

/// One conversation with a peer: who the local user is, where the peer is,
/// and the flag that ends the receiving side.
pub struct Session {
    name: String,
    address: String,
    cancel_token: CancelToken,
}

/// What a session knows.
pub ghost struct SessionView {
    pub name: Seq<char>,
    pub address: Seq<char>,
    /// Whether the session was stopped through this handle.
    pub stopped: bool,
}

impl SessionView {
    /// The session after `stop`.
    pub open spec fn after_stop(self) -> SessionView {
        SessionView { stopped: true, ..self }
    }
}

impl View for Session {
    type V = SessionView;

    closed spec fn view(&self) -> SessionView {
        SessionView {
            name: self.name@,
            address: self.address@,
            stopped: self.cancel_token.raised_here(),
        }
    }
}

impl Session {
    /// A session of `name` with the peer at `socket`. `cancel_token` becomes
    /// the session's stop flag: whoever holds a clone of it sees `stop`.
    pub fn new(name: &str, socket: &str, cancel_token: CancelToken) -> (session: Session)
        requires
            valid_display_name(name@),
        ensures
            session@ == (SessionView {
                name: name@,
                address: socket@,
                stopped: cancel_token.raised_here(),
            }),
            session.flag() == cancel_token,
    {
        Session { name: String::from_str(name), address: String::from_str(socket), cancel_token }
    }

    /// The local user's display name.
    pub fn name(&self) -> (name: &str)
        ensures
            name@ == self@.name,
    {
        self.name.as_str()
    }

    /// The peer's address, as it was given.
    pub fn address(&self) -> (address: &str)
        ensures
            address@ == self@.address,
    {
        self.address.as_str()
    }

    /// The frame that opens the conversation. It is written once, right after
    /// the connection stands.
    pub fn handshake(&self) -> (frame: String)
        ensures
            frame@ == handshake_frame(self@.name),
    {
        let mut frame = String::from_str("ID:");
        frame.append(self.name.as_str());
        frame.append("\n");
        frame
    }

    /// Prepares `message` for `recipient`: the frame to write and the local
    /// copy of the message. A message to `Recipient::This` is refused, and
    /// then there is nothing to write.
    pub fn send(&self, recipient: Recipient, message: &str) -> (result: Result<Outgoing, SendError>)
        ensures
            result is Err <==> recipient@ is This,
            result is Err ==> result == Err::<Outgoing, SendError>(SendError::InvalidRecipient),
            result is Ok ==> result.unwrap().frame@ == message_frame(recipient@, message@),
            result is Ok ==> result.unwrap().echo@ == EventView::MessageSent(
                MessageView { sender: self@.name, recipient: recipient@, message: message@ },
            ),
    {
        let mut frame = match &recipient {
            Recipient::All => String::from_str("ALL:"),
            Recipient::Id(id) => {
                let mut head = String::from_str("SEND:");
                head.append(id.as_str());
                head.append(":");
                head
            },
            Recipient::This => {
                return Err(SendError::InvalidRecipient);
            },
        };
        frame.append(message);
        frame.append("\n");
        let echo = Event::MessageSent(
            MessageInformation {
                sender: self.name.clone(),
                recipient,
                message: String::from_str(message),
            },
        );
        Ok(Outgoing { frame, echo })
    }

    /// Raises the session's stop flag. Never blocks; the receiving side ends
    /// at its next step. Stopping a stopped session changes nothing.
    pub fn stop(&mut self)
        ensures
            final(self)@ == old(self)@.after_stop(),
    {
        self.cancel_token.set();
    }

    /// Whether the session was stopped through this handle: by `stop`, or
    /// through the handle on the flag that it was made with, before it was
    /// made.
    pub fn is_stopped(&self) -> (stopped: bool)
        ensures
            stopped == self@.stopped,
    {
        self.cancel_token.is_set_here()
    }

    /// The session's own handle on its stop flag.
    pub closed spec fn flag(&self) -> CancelToken {
        self.cancel_token
    }

    /// A handle on the session's stop flag for the receiving side: a copy of
    /// the session's own handle, which knows what the session has done so
    /// far.
    pub fn stop_flag(&self) -> (flag: CancelToken)
        ensures
            flag == self.flag(),
            flag.raised_here() == self@.stopped,
    {
        self.cancel_token.clone()
    }
}

/// What one attempt to read a line from the peer gave.
#[derive(Debug, PartialEq, Eq, Clone)]
pub enum LineRead {
    /// A whole line, without its line feed.
    Line(String),
    /// The peer closed the connection.
    Closed,
    /// The read failed.
    Failed,
}

/// A `LineRead` with its line as text.
pub ghost enum LineReadView {
    Line(Seq<char>),
    Closed,
    Failed,
}

impl View for LineRead {
    type V = LineReadView;

    open spec fn view(&self) -> LineReadView {
        match *self {
            LineRead::Line(line) => LineReadView::Line(line@),
            LineRead::Closed => LineReadView::Closed,
            LineRead::Failed => LineReadView::Failed,
        }
    }
}

/// Why the receiving side ended.
#[derive(Debug, PartialEq, Eq, Clone, Copy, Structural)]
pub enum QuitReason {
    /// The session's stop flag was raised.
    Cancelled,
    /// The peer closed the connection.
    PeerClosed,
    /// A read failed.
    ReadFailed,
}

/// What the receiving side does next.
#[derive(Debug, PartialEq, Eq, Clone)]
pub enum ReceiverAction {
    /// The line meant nothing: read on.
    Skip,
    /// Hand the event to the application, then read on.
    Deliver(Event),
    /// Hand `Event::Quit` to the application and end.
    Finish(QuitReason),
}

/// A `ReceiverAction` with its event as text.
pub ghost enum ReceiverActionView {
    Skip,
    Deliver(EventView),
    Finish(QuitReason),
}

impl View for ReceiverAction {
    type V = ReceiverActionView;

    open spec fn view(&self) -> ReceiverActionView {
        match *self {
            ReceiverAction::Skip => ReceiverActionView::Skip,
            ReceiverAction::Deliver(event) => ReceiverActionView::Deliver(event@),
            ReceiverAction::Finish(reason) => ReceiverActionView::Finish(reason),
        }
    }
}

/// The receiving side's rule. A raised stop flag ends it whatever was read;
/// so do a closed connection and a failed read. A line is decoded and
/// delivered, or skipped where it decodes to nothing.
pub open spec fn receiver_rule(cancelled: bool, read: LineReadView) -> ReceiverActionView {
    if cancelled {
        ReceiverActionView::Finish(QuitReason::Cancelled)
    } else {
        match read {
            LineReadView::Closed => ReceiverActionView::Finish(QuitReason::PeerClosed),
            LineReadView::Failed => ReceiverActionView::Finish(QuitReason::ReadFailed),
            LineReadView::Line(line) => match decode(line) {
                Some(event) => ReceiverActionView::Deliver(event),
                None => ReceiverActionView::Skip,
            },
        }
    }
}

/// One step of the receiving side: `cancelled` is what the session's stop
/// flag showed after the read came back, `read` is what the read gave.
pub fn receiver_step(cancelled: bool, read: LineRead) -> (action: ReceiverAction)
    ensures
        action@ == receiver_rule(cancelled, read@),
{
    if cancelled {
        return ReceiverAction::Finish(QuitReason::Cancelled);
    }
    match read {
        LineRead::Closed => ReceiverAction::Finish(QuitReason::PeerClosed),
        LineRead::Failed => ReceiverAction::Finish(QuitReason::ReadFailed),
        LineRead::Line(line) => match decode_line(line.as_str()) {
            Some(event) => ReceiverAction::Deliver(event),
            None => ReceiverAction::Skip,
        },
    }
}

/// `stop` twice is `stop` once.
pub proof fn law_session_stop_idempotent(session: SessionView)
    ensures
        session.after_stop().after_stop() == session.after_stop(),
        session.after_stop().stopped,
{
}

/// Once the session's stop flag is seen raised, the receiving side ends at
/// that very step, whatever was read.
pub proof fn law_raised_flag_ends_receiver(read: LineReadView)
    ensures
        receiver_rule(true, read) == ReceiverActionView::Finish(QuitReason::Cancelled),
{
}

/// A line that is delivered is a message or a roster, never the end of the
/// session: only the receiving side itself says `Quit`.
pub proof fn law_decoded_lines_never_quit(line: Seq<char>)
    ensures
        decode(line) is Some ==> decode(line).unwrap() is MessageReceived || decode(
            line,
        ).unwrap() is UsersList,
{
}

/// The sender's name is the sender field with its spaces taken out and,
/// for a broadcast, without the marker at its end.
pub proof fn law_sender_name_drops_spaces(sender_field: Seq<char>)
    ensures
        !is_broadcast(sender_field) ==> sender_name(sender_field) == without(sender_field, ' '),
        is_broadcast(sender_field) ==> sender_name(sender_field) + "(ALL)"@ == without(
            sender_field,
            ' ',
        ),
{
    law_split_flattened_drops_delimiter(sender_field, ' ');
    let tokens = split(sender_field, ' ');
    if is_broadcast(sender_field) {
        assert(tokens == tokens.drop_last().push(tokens.last()));
        tokens.drop_last().lemma_flatten_push(tokens.last());
    }
}

} // verus!
