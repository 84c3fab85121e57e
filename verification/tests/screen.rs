use term_chat::application::{ActiveEventLoop, GeneralEvent};
use term_chat::chat::{
    AppState, ChatState, ConnectedSelected, ConnectingSelected, InputField, TerminalInput,
};
use term_chat::input_window::InputWindow;
use term_chat::networking::{decode_line, Event, MessageInformation, Recipient};
use tui_input::{Input, InputRequest};

fn typed(c: char) -> TerminalInput {
    TerminalInput { escape: false, request: Some(InputRequest::InsertChar(c)) }
}

fn idle_key() -> TerminalInput {
    TerminalInput { escape: false, request: None }
}

fn escape_key() -> TerminalInput {
    TerminalInput { escape: true, request: None }
}

#[test]
fn empty_window_is_at_the_start() {
    assert_eq!(InputWindow::empty(), InputWindow { start: 0, length: 0 });
}

#[test]
fn pruned_input_is_the_window() {
    let window = InputWindow { start: 2, length: 3 };
    assert_eq!(window.pruned_input(&Input::from("abcdefgh")), "cde");
}

#[test]
fn pruned_input_ends_with_the_text() {
    let window = InputWindow { start: 2, length: 30 };
    assert_eq!(window.pruned_input(&Input::from("abcdef")), "cdef");
    let exact = InputWindow { start: 2, length: 4 };
    assert_eq!(exact.pruned_text("abcdef"), "cdef");
}

#[test]
fn pruned_input_beyond_the_text_is_empty() {
    let window = InputWindow { start: 9, length: 3 };
    assert_eq!(window.pruned_input(&Input::from("abc")), "");
    assert_eq!(InputWindow::empty().pruned_text("abc"), "");
    let huge = InputWindow { start: usize::MAX, length: usize::MAX };
    assert_eq!(huge.pruned_text("abc"), "");
}

#[test]
fn pruned_input_counts_characters() {
    let window = InputWindow { start: 1, length: 2 };
    assert_eq!(window.pruned_input(&Input::from("héllo")), "él");
}

#[test]
fn window_follows_the_cursor_to_the_left() {
    let mut window = InputWindow { start: 5, length: 3 };
    window.cursor_changed(2);
    assert_eq!(window, InputWindow { start: 2, length: 3 });
}

#[test]
fn window_follows_the_cursor_to_the_right() {
    let mut window = InputWindow { start: 5, length: 3 };
    window.cursor_changed(12);
    assert_eq!(window, InputWindow { start: 9, length: 3 });
}

#[test]
fn window_stays_around_the_cursor() {
    let mut window = InputWindow { start: 5, length: 3 };
    window.cursor_changed(5);
    assert_eq!(window, InputWindow { start: 5, length: 3 });
    window.cursor_changed(8);
    assert_eq!(window, InputWindow { start: 5, length: 3 });
    window.cursor_changed(7);
    assert_eq!(window, InputWindow { start: 5, length: 3 });
}

#[test]
fn pruned_input_reads_the_line_as_it_is_now() {
    let window = InputWindow { start: 1, length: 2 };
    let mut line = Input::from("abc");
    assert_eq!(window.pruned_input(&line), "bc");
    line.handle(InputRequest::GoToStart);
    line.handle(InputRequest::InsertChar('x'));
    assert_eq!(window.pruned_input(&line), "ab");
}

#[test]
fn new_chat_is_empty_and_focused_on_the_message() {
    let chat = ChatState::new();
    assert!(chat.messages().is_empty());
    assert!(chat.users().is_empty());
    assert_eq!(chat.state(), AppState::Connected(ConnectedSelected::Send));
    assert_eq!(chat.focused(), Some(InputField::Message));
    assert_eq!(chat.get_current_input_window(), Some(&InputWindow::empty()));
    for field in [
        InputField::Username,
        InputField::Ip,
        InputField::Port,
        InputField::Message,
        InputField::Recipient,
    ] {
        assert_eq!(chat.input(field).value(), "");
        assert_eq!(chat.input(field).cursor(), 0);
        assert_eq!(chat.window(field), &InputWindow::empty());
        assert_eq!(chat.shown_text(field), "");
    }
}

#[test]
fn second_roster_replaces_the_first() {
    let mut chat = ChatState::new();
    let first = decode_line("USERS:a,b,c").unwrap();
    let second = decode_line("USERS:x,y").unwrap();
    assert!(!chat.handle_network_event(first));
    assert_eq!(chat.users(), &vec!["a".to_string(), "b".to_string(), "c".to_string()]);
    assert!(!chat.handle_network_event(second));
    assert_eq!(chat.users(), &vec!["x".to_string(), "y".to_string()]);
    assert!(chat.messages().is_empty());
}

#[test]
fn received_message_is_listed() {
    let mut chat = ChatState::new();
    assert!(!chat.handle_network_event(decode_line("MSG:Jane Doe (ALL):hello").unwrap()));
    assert!(!chat.handle_network_event(decode_line("MSG:amy:hi").unwrap()));
    assert_eq!(chat.messages(), &vec!["JaneDoe: hello".to_string(), "amy: hi".to_string()]);
    assert!(chat.users().is_empty());
}

#[test]
fn other_reports_end_the_chat() {
    let mut chat = ChatState::new();
    assert!(chat.handle_network_event(Event::Quit));
    let echo = Event::MessageSent(MessageInformation {
        sender: "bob".to_string(),
        recipient: Recipient::All,
        message: "hi".to_string(),
    });
    assert!(chat.handle_network_event(echo));
    assert!(chat.messages().is_empty());
    assert!(chat.users().is_empty());
}

#[test]
fn focus_picks_the_input_line() {
    let mut chat = ChatState::new();
    let cases = [
        (AppState::Connected(ConnectedSelected::Send), Some(InputField::Message)),
        (AppState::Connected(ConnectedSelected::Recipient), Some(InputField::Recipient)),
        (AppState::Connected(ConnectedSelected::Messages), None),
        (AppState::Connected(ConnectedSelected::Users), None),
        (AppState::ConnectingToNetwork(ConnectingSelected::Name), Some(InputField::Username)),
        (AppState::ConnectingToNetwork(ConnectingSelected::Ip), Some(InputField::Ip)),
        (AppState::ConnectingToNetwork(ConnectingSelected::Port), Some(InputField::Port)),
        (AppState::ConnectingToNetwork(ConnectingSelected::Connect), None),
    ];
    for (state, field) in cases {
        chat.select(state);
        assert_eq!(chat.state(), state);
        assert_eq!(chat.focused(), field);
        assert_eq!(chat.get_current_input().is_some(), field.is_some());
        assert_eq!(chat.get_current_input_window().is_some(), field.is_some());
    }
}

#[test]
fn typing_edits_the_focused_line_only() {
    let mut chat = ChatState::new();
    chat.set_window_length(InputField::Message, 10);
    chat.handle_input(&typed('h'));
    chat.handle_input(&typed('i'));
    assert_eq!(chat.input(InputField::Message).value(), "hi");
    assert_eq!(chat.input(InputField::Message).cursor(), 2);
    assert_eq!(chat.get_current_input().unwrap().value(), "hi");
    assert_eq!(chat.shown_text(InputField::Message), "hi");
    assert_eq!(chat.input(InputField::Recipient).value(), "");
    assert_eq!(chat.input(InputField::Username).value(), "");
    chat.select(AppState::Connected(ConnectedSelected::Recipient));
    chat.handle_input(&typed('a'));
    assert_eq!(chat.input(InputField::Recipient).value(), "a");
    assert_eq!(chat.input(InputField::Message).value(), "hi");
}

#[test]
fn window_follows_the_cursor_of_the_line() {
    let mut chat = ChatState::new();
    chat.set_window_length(InputField::Message, 3);
    for c in ['a', 'b', 'c'] {
        chat.handle_input(&typed(c));
    }
    assert_eq!(chat.window(InputField::Message), &InputWindow { start: 0, length: 3 });
    assert_eq!(chat.shown_text(InputField::Message), "abc");
    for c in ['d', 'e'] {
        chat.handle_input(&typed(c));
    }
    assert_eq!(chat.input(InputField::Message).cursor(), 5);
    assert_eq!(chat.window(InputField::Message), &InputWindow { start: 2, length: 3 });
    assert_eq!(chat.shown_text(InputField::Message), "cde");
    assert_eq!(chat.window(InputField::Recipient), &InputWindow::empty());
    let home = TerminalInput { escape: false, request: Some(InputRequest::GoToStart) };
    chat.handle_input(&home);
    assert_eq!(chat.input(InputField::Message).cursor(), 0);
    assert_eq!(chat.window(InputField::Message), &InputWindow { start: 0, length: 3 });
    assert_eq!(chat.shown_text(InputField::Message), "abc");
}

#[test]
fn event_without_edit_leaves_the_line() {
    let mut chat = ChatState::new();
    chat.set_window_length(InputField::Message, 3);
    chat.handle_input(&typed('a'));
    chat.handle_input(&idle_key());
    assert_eq!(chat.input(InputField::Message).value(), "a");
    assert_eq!(chat.input(InputField::Message).cursor(), 1);
    assert_eq!(chat.window(InputField::Message), &InputWindow { start: 0, length: 3 });
}

#[test]
fn input_without_focused_line_changes_nothing() {
    let mut chat = ChatState::new();
    chat.select(AppState::Connected(ConnectedSelected::Users));
    chat.handle_input(&typed('a'));
    for field in [InputField::Message, InputField::Recipient, InputField::Username] {
        assert_eq!(chat.input(field).value(), "");
        assert_eq!(chat.window(field), &InputWindow::empty());
    }
}

#[test]
fn window_length_is_set_for_one_line() {
    let mut chat = ChatState::new();
    chat.set_window_length(InputField::Ip, 7);
    assert_eq!(chat.window(InputField::Ip), &InputWindow { start: 0, length: 7 });
    assert_eq!(chat.window(InputField::Port), &InputWindow::empty());
}

#[test]
fn init_asks_for_a_redraw() {
    let mut chat = ChatState::new();
    let mut active = ActiveEventLoop::new();
    assert_eq!(chat.init(&mut active), vec![GeneralEvent::RedrawRequested]);
    assert!(!active.is_exiting());
}

#[test]
fn typing_asks_for_a_redraw_only() {
    let mut chat = ChatState::new();
    let mut active = ActiveEventLoop::new();
    let emitted = chat.handle_event(&mut active, GeneralEvent::Input(typed('a')));
    assert_eq!(emitted, vec![GeneralEvent::RedrawRequested]);
    assert!(!active.is_exiting());
    assert_eq!(chat.input(InputField::Message).value(), "a");
}

#[test]
fn escape_asks_for_the_exit() {
    let mut chat = ChatState::new();
    let mut active = ActiveEventLoop::new();
    let flag = active.stop_flag();
    let emitted = chat.handle_event(&mut active, GeneralEvent::Input(escape_key()));
    assert_eq!(emitted, vec![GeneralEvent::RedrawRequested, GeneralEvent::Exit]);
    assert!(active.is_exiting());
    assert!(flag.is_set());
    let again = chat.handle_event(&mut active, GeneralEvent::Input(escape_key()));
    assert_eq!(again, vec![GeneralEvent::RedrawRequested]);
    assert!(active.is_exiting());
}

#[test]
fn roster_and_messages_keep_the_chat_going() {
    let mut chat = ChatState::new();
    let mut active = ActiveEventLoop::new();
    let roster = GeneralEvent::Networking(decode_line("USERS:a,b").unwrap());
    assert_eq!(chat.handle_event(&mut active, roster), vec![GeneralEvent::RedrawRequested]);
    let message = GeneralEvent::Networking(decode_line("MSG:amy:hi").unwrap());
    assert_eq!(chat.handle_event(&mut active, message), vec![GeneralEvent::RedrawRequested]);
    assert!(!active.is_exiting());
    assert_eq!(chat.users(), &vec!["a".to_string(), "b".to_string()]);
    assert_eq!(chat.messages(), &vec!["amy: hi".to_string()]);
}

#[test]
fn quit_report_asks_for_the_exit() {
    let mut chat = ChatState::new();
    let mut active = ActiveEventLoop::new();
    let emitted = chat.handle_event(&mut active, GeneralEvent::Networking(Event::Quit));
    assert_eq!(emitted, vec![GeneralEvent::RedrawRequested, GeneralEvent::Exit]);
    assert!(active.is_exiting());
}

#[test]
fn stray_sentinel_asks_for_the_exit() {
    let mut chat = ChatState::new();
    let mut active = ActiveEventLoop::new();
    let emitted = chat.handle_event(&mut active, GeneralEvent::RedrawRequested);
    assert_eq!(emitted, vec![GeneralEvent::RedrawRequested, GeneralEvent::Exit]);
    assert!(active.is_exiting());
    assert!(chat.messages().is_empty());
}

#[test]
fn cursor_cell_wraps_at_the_row_end() {
    let window = InputWindow { start: 2, length: 20 };
    assert_eq!(window.cursor_cell(2, 10, 5, 4), Some((10, 5)));
    assert_eq!(window.cursor_cell(5, 10, 5, 4), Some((13, 5)));
    assert_eq!(window.cursor_cell(6, 10, 5, 4), Some((10, 6)));
    assert_eq!(window.cursor_cell(13, 10, 5, 4), Some((13, 7)));
}

#[test]
fn cursor_cell_needs_a_cursor_in_reach() {
    let window = InputWindow { start: 2, length: 20 };
    assert_eq!(window.cursor_cell(1, 10, 5, 4), None);
    assert_eq!(window.cursor_cell(3, 10, 5, 0), None);
}

#[test]
fn cursor_cell_stays_on_the_screen() {
    let window = InputWindow::empty();
    assert_eq!(window.cursor_cell(3, u16::MAX - 3, 0, 10), Some((u16::MAX, 0)));
    assert_eq!(window.cursor_cell(4, u16::MAX - 3, 0, 10), None);
    assert_eq!(window.cursor_cell(20, 0, u16::MAX - 1, 10), None);
    assert_eq!(window.cursor_cell(10, 0, u16::MAX - 1, 10), Some((0, u16::MAX)));
    assert_eq!(window.cursor_cell(usize::MAX, 0, 0, 1), None);
}

#[test]
fn focused_line_and_window_can_be_changed_in_place() {
    let mut chat = ChatState::new();
    chat.get_current_input_mut().unwrap().handle(InputRequest::InsertChar('z'));
    assert_eq!(chat.input(InputField::Message).value(), "z");
    assert_eq!(chat.input(InputField::Recipient).value(), "");
    chat.get_current_input_window_mut().unwrap().length = 9;
    assert_eq!(chat.window(InputField::Message), &InputWindow { start: 0, length: 9 });
    assert_eq!(chat.window(InputField::Recipient), &InputWindow::empty());
    chat.select(AppState::Connected(ConnectedSelected::Messages));
    assert!(chat.get_current_input_mut().is_none());
    assert!(chat.get_current_input_window_mut().is_none());
}
