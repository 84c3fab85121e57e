use term_chat::cancel_token::CancelToken;
use term_chat::networking::{
    decode_line, is_valid_display_name, receiver_step, Event, LineRead, MessageInformation,
    QuitReason, ReceiverAction, Recipient, SendError, Session,
};
use term_chat::wire::{concat_texts, same_text, split_text};

fn strings(items: &[&str]) -> Vec<String> {
    items.iter().map(|item| item.to_string()).collect()
}

fn session(name: &str) -> Session {
    Session::new(name, "127.0.0.1:4000", CancelToken::new())
}

#[test]
fn split_cuts_at_every_delimiter() {
    assert_eq!(split_text("a,b,c", ','), strings(&["a", "b", "c"]));
    assert_eq!(split_text("MSG:Jane Doe (ALL):hello", ':'), strings(&["MSG", "Jane Doe (ALL)", "hello"]));
}

#[test]
fn split_of_text_without_delimiter_is_the_text() {
    assert_eq!(split_text("abc", ','), strings(&["abc"]));
    assert_eq!(split_text("", ','), strings(&[""]));
}

#[test]
fn split_keeps_empty_pieces() {
    assert_eq!(split_text("a,", ','), strings(&["a", ""]));
    assert_eq!(split_text(",a", ','), strings(&["", "a"]));
    assert_eq!(split_text(",", ','), strings(&["", ""]));
    assert_eq!(split_text("a,,b", ','), strings(&["a", "", "b"]));
}

#[test]
fn split_agrees_with_the_standard_library() {
    for text in ["", ":", "a:b", "::", "héllo:wörld:", "USERS:a,b", ":x:"] {
        let expected: Vec<String> = text.split(':').map(|piece| piece.to_string()).collect();
        assert_eq!(split_text(text, ':'), expected);
    }
}

#[test]
fn split_counts_characters_not_bytes() {
    assert_eq!(split_text("é,ü,日本", ','), strings(&["é", "ü", "日本"]));
}

#[test]
fn concat_joins_the_first_pieces() {
    let pieces = strings(&["Jane", "Doe", "(ALL)"]);
    assert_eq!(concat_texts(&pieces, 0), "");
    assert_eq!(concat_texts(&pieces, 2), "JaneDoe");
    assert_eq!(concat_texts(&pieces, 3), "JaneDoe(ALL)");
}

#[test]
fn same_text_compares_contents() {
    assert!(same_text("MSG", "MSG"));
    assert!(!same_text("MSG", "MSGS"));
    assert!(!same_text("MSG", "MSH"));
    assert!(same_text("", ""));
}

#[test]
fn broadcast_message_is_decoded() {
    let event = decode_line("MSG:Jane Doe (ALL):hello");
    let expected = MessageInformation {
        sender: "JaneDoe".to_string(),
        recipient: Recipient::All,
        message: "hello".to_string(),
    };
    assert!(expected.is_all());
    assert_eq!(event, Some(Event::MessageReceived(expected)));
}

#[test]
fn direct_message_is_decoded() {
    let event = decode_line("MSG:Jane Doe:hi");
    let expected = MessageInformation {
        sender: "JaneDoe".to_string(),
        recipient: Recipient::This,
        message: "hi".to_string(),
    };
    assert!(!expected.is_all());
    assert_eq!(event, Some(Event::MessageReceived(expected)));
}

#[test]
fn marker_counts_only_as_the_last_token() {
    let event = decode_line("MSG:(ALL) Jane:hi");
    assert_eq!(
        event,
        Some(Event::MessageReceived(MessageInformation {
            sender: "(ALL)Jane".to_string(),
            recipient: Recipient::This,
            message: "hi".to_string(),
        }))
    );
}

#[test]
fn marker_alone_is_a_broadcast_from_nobody() {
    let event = decode_line("MSG:(ALL):hi");
    assert_eq!(
        event,
        Some(Event::MessageReceived(MessageInformation {
            sender: String::new(),
            recipient: Recipient::All,
            message: "hi".to_string(),
        }))
    );
}

#[test]
fn message_text_ends_at_the_next_delimiter() {
    let event = decode_line("MSG:amy:one:two");
    assert_eq!(
        event,
        Some(Event::MessageReceived(MessageInformation {
            sender: "amy".to_string(),
            recipient: Recipient::This,
            message: "one".to_string(),
        }))
    );
}

#[test]
fn roster_is_decoded() {
    assert_eq!(decode_line("USERS:a,b,c"), Some(Event::UsersList(strings(&["a", "b", "c"]))));
    assert_eq!(decode_line("USERS:x,y"), Some(Event::UsersList(strings(&["x", "y"]))));
    assert_eq!(decode_line("USERS:"), Some(Event::UsersList(strings(&[""]))));
}

#[test]
fn unknown_tag_is_dropped() {
    assert_eq!(decode_line("PING:1"), None);
    assert_eq!(decode_line(""), None);
    assert_eq!(decode_line("msg:a:b"), None);
}

#[test]
fn short_frames_are_dropped() {
    assert_eq!(decode_line("MSG"), None);
    assert_eq!(decode_line("MSG:amy"), None);
    assert_eq!(decode_line("USERS"), None);
}

#[test]
fn display_names_are_checked() {
    assert!(is_valid_display_name("bob"));
    assert!(is_valid_display_name("Jane Doe"));
    assert!(!is_valid_display_name(""));
    assert!(!is_valid_display_name("a:b"));
    assert!(!is_valid_display_name(":"));
}

#[test]
fn session_keeps_name_and_address() {
    let s = session("bob");
    assert_eq!(s.name(), "bob");
    assert_eq!(s.address(), "127.0.0.1:4000");
}

#[test]
fn handshake_announces_the_name() {
    assert_eq!(session("bob").handshake(), "ID:bob\n");
}

#[test]
fn send_to_all_is_framed() {
    let out = session("bob").send(Recipient::All, "hello").unwrap();
    assert_eq!(out.frame, "ALL:hello\n");
    assert_eq!(
        out.echo,
        Event::MessageSent(MessageInformation {
            sender: "bob".to_string(),
            recipient: Recipient::All,
            message: "hello".to_string(),
        })
    );
}

#[test]
fn send_to_one_user_is_framed() {
    let out = session("bob").send(Recipient::Id("amy".to_string()), "hi").unwrap();
    assert_eq!(out.frame, "SEND:amy:hi\n");
    assert_eq!(
        out.echo,
        Event::MessageSent(MessageInformation {
            sender: "bob".to_string(),
            recipient: Recipient::Id("amy".to_string()),
            message: "hi".to_string(),
        })
    );
}

#[test]
fn send_to_self_is_refused() {
    assert_eq!(session("bob").send(Recipient::This, "x"), Err(SendError::InvalidRecipient));
}

#[test]
fn stop_raises_the_flag_of_the_session() {
    let flag = CancelToken::new();
    let mut s = Session::new("bob", "127.0.0.1:4000", flag.clone());
    assert!(!s.is_stopped());
    assert!(!flag.is_set());
    s.stop();
    assert!(s.is_stopped());
    assert!(flag.is_set());
    assert!(!flag.is_set_here());
    assert!(s.stop_flag().is_set());
}

#[test]
fn stop_twice_is_stop_once() {
    let mut s = session("bob");
    s.stop();
    let name_once = s.name().to_string();
    let stopped_once = s.is_stopped();
    s.stop();
    assert_eq!(s.name(), name_once);
    assert_eq!(s.is_stopped(), stopped_once);
    assert!(s.is_stopped());
}

#[test]
fn cancel_token_starts_down_and_stays_up() {
    let mut token = CancelToken::new();
    assert!(!token.is_set());
    assert!(!token.is_set_here());
    token.set();
    assert!(token.is_set());
    assert!(token.is_set_here());
    token.set();
    assert!(token.is_set());
    assert!(token.is_set_here());
}

#[test]
fn cancel_token_is_shared_by_its_clones() {
    let token = CancelToken::new();
    let mut other = token.clone();
    let stranger = CancelToken::new();
    other.set();
    assert!(token.is_set());
    assert!(!token.is_set_here());
    assert!(token.clone().is_set());
    assert!(!stranger.is_set());
}

#[test]
fn receiver_ends_on_a_raised_flag() {
    let read = LineRead::Line("USERS:a".to_string());
    assert_eq!(receiver_step(true, read), ReceiverAction::Finish(QuitReason::Cancelled));
    assert_eq!(receiver_step(true, LineRead::Closed), ReceiverAction::Finish(QuitReason::Cancelled));
}

#[test]
fn receiver_ends_when_the_peer_closes() {
    assert_eq!(receiver_step(false, LineRead::Closed), ReceiverAction::Finish(QuitReason::PeerClosed));
}

#[test]
fn receiver_ends_on_a_failed_read() {
    assert_eq!(receiver_step(false, LineRead::Failed), ReceiverAction::Finish(QuitReason::ReadFailed));
}

#[test]
fn receiver_delivers_what_a_line_means() {
    let read = LineRead::Line("USERS:a,b".to_string());
    assert_eq!(
        receiver_step(false, read),
        ReceiverAction::Deliver(Event::UsersList(strings(&["a", "b"])))
    );
}

#[test]
fn receiver_skips_what_means_nothing() {
    assert_eq!(receiver_step(false, LineRead::Line("NOPE:1".to_string())), ReceiverAction::Skip);
    assert_eq!(receiver_step(false, LineRead::Line("MSG:amy".to_string())), ReceiverAction::Skip);
}

#[test]
fn reading_joins_the_cell_and_the_handle() {
    let mut token = CancelToken::new();
    assert!(!token.reading(false));
    assert!(token.reading(true));
    token.set();
    assert!(token.reading(false));
    assert!(token.reading(true));
}

#[test]
fn clone_knows_what_the_handle_knows() {
    let mut token = CancelToken::new();
    assert!(!token.clone().is_set_here());
    token.set();
    let copy = token.clone();
    assert!(copy.is_set_here());
    assert!(copy.is_set());
}

#[test]
fn session_flag_copy_knows_of_the_stop() {
    let mut s = session("bob");
    assert!(!s.stop_flag().is_set_here());
    s.stop();
    assert!(s.stop_flag().is_set_here());
}

#[test]
fn session_is_stopped_by_its_own_handle_only() {
    let flag = CancelToken::new();
    let s = Session::new("bob", "127.0.0.1:4000", flag.clone());
    let mut other = flag.clone();
    other.set();
    assert!(!s.is_stopped());
    assert!(s.stop_flag().is_set());
    let mut raised = CancelToken::new();
    raised.set();
    let late = Session::new("amy", "127.0.0.1:4000", raised);
    assert!(late.is_stopped());
}
