use chatger::network::client::{decode_frame, ConnectionType, InteractedTimeStamp, ServerConnectionStatus};
use chatger::network::handle_message;
use chatger::network::protocol::client::ClientPayload;
use chatger::network::protocol::server::{Channel, HistoryMessage, UserData};
use chatger::network::protocol::UserStatus;
use chatger::tui::chat::ChatMessageStatus;
use chatger::tui::events::{
    ConnectFailure, KeyCode, KeyPress, ServerAddrInfo, TerminalEvent, TuiEvent,
};
use chatger::tui::screens::chat::keys::handle_chat_key_event;
use chatger::tui::screens::chat::{ChatFocus, ChatState};
use chatger::tui::screens::login::keys::handle_login_key_event;
use chatger::tui::screens::login::{classify_login_failure, InputStatus, LoginFocus, LoginState};
use chatger::tui::screens::{AppState, Command, State};

fn login_state(username: &str, password: &str) -> LoginState {
    LoginState {
        username_input: username.chars().collect(),
        password_input: password.chars().collect(),
        server_address_input: "127.0.0.1:4348".chars().collect(),
        server_address: None,
        focus: LoginFocus::Nothing,
        input_status: InputStatus::AllFine,
        enable_tls: false,
    }
}

fn address() -> ServerAddrInfo {
    ServerAddrInfo { ip: "127.0.0.1".to_string(), port: 4348, domain: None, connection_type: ConnectionType::Raw }
}

fn chat(state: &State) -> &ChatState {
    match &state.current_state {
        AppState::Chat(c) => c,
        AppState::Login(_) => panic!("not in chat"),
    }
}

fn frames(commands: &[Command]) -> Vec<Vec<u8>> {
    commands
        .iter()
        .filter_map(|c| match c {
            Command::Send(p) => Some(p.clone().encode_frame()),
            _ => None,
        })
        .collect()
}

/// Logs in as `alice` and returns the state in the chat screen.
fn logged_in() -> State {
    let mut state = State::new(AppState::Login(login_state("alice", "pw")));
    let connect = state.handle_event(TuiEvent::Login, 0);
    assert!(matches!(&connect[..], [Command::Connect { address, enable_tls: false }] if address == "127.0.0.1:4348"));
    let sent = state.handle_event(TuiEvent::Connected(address()), 0);
    let sent = frames(&sent);
    let mut login = vec![0x43, 0x48, 0x54, 0x47, 0x01, 0x81, 0, 0, 0, 8];
    login.extend_from_slice(b"alice\0pw");
    assert_eq!(sent[0], login);
    assert_eq!(sent[1], vec![0x43, 0x48, 0x54, 0x47, 0x01, 0x8B, 0, 0, 0, 1, 0x01]);
    let ack = [0x43, 0x48, 0x54, 0x47, 0x01, 0x01, 0x00, 0x00, 0x00, 0x01, 0x00];
    let event = handle_message(decode_frame(&ack).unwrap().0).unwrap();
    let requests = frames(&state.handle_event(event, 0));
    assert_eq!(requests[0], vec![0x43, 0x48, 0x54, 0x47, 0x01, 0x84, 0, 0, 0, 0]);
    assert_eq!(requests[1], vec![0x43, 0x48, 0x54, 0x47, 0x01, 0x87, 0, 0, 0, 0]);
    state
}

fn add_channel(state: &mut State, id: u64) {
    let channels = vec![Channel { channel_id: id, name: "general".to_string(), icon_id: 0 }];
    let requests = state.handle_event(TuiEvent::Channels(channels), 5000);
    match &requests[..] {
        [Command::Send(ClientPayload::History(h))] => {
            assert_eq!(h.channel_id, id);
            assert_eq!(h.num_messages_back, 50);
        },
        other => panic!("unexpected {other:?}"),
    }
}

#[test]
fn login_handshake() {
    let state = logged_in();
    let c = chat(&state);
    assert_eq!(c.focus, ChatFocus::Channels);
    assert_eq!(c.incrementing_ack_id, 100000);
    assert_eq!(c.server_connection_status, ServerConnectionStatus::Connected);
}

#[test]
fn send_then_ack() {
    let mut state = logged_in();
    add_channel(&mut state, 7);
    state.handle_event(TuiEvent::ChatFocusChange(ChatFocus::ChatInput(0)), 0);
    state.handle_event(TuiEvent::InputChar('h'), 100);
    state.handle_event(TuiEvent::InputChar('i'), 200);
    let sent = frames(&state.handle_event(TuiEvent::MessageSend, 300));
    let mut expected = vec![0x43, 0x48, 0x54, 0x47, 0x01, 0x82, 0, 0, 0, 19];
    expected.extend_from_slice(&7u64.to_be_bytes());
    expected.extend_from_slice(&0u64.to_be_bytes());
    expected.push(0);
    expected.extend_from_slice(b"hi");
    assert_eq!(sent, vec![expected]);
    let local = {
        let c = chat(&state);
        assert_eq!(c.chat_history.len(), 1);
        assert_eq!(c.chat_history[0].status, ChatMessageStatus::Sending);
        assert_eq!(c.waiting_message_acks_id.len(), 1);
        assert!(c.chat_inputs[0].text.is_empty());
        assert_eq!(c.focus, ChatFocus::ChatInput(0));
        c.chat_history[0].message_id
    };
    assert_eq!(local, 100000);
    let mut ack = vec![0x43, 0x48, 0x54, 0x47, 0x01, 0x02, 0, 0, 0, 9, 0x00];
    ack.extend_from_slice(&42u64.to_be_bytes());
    let event = handle_message(decode_frame(&ack).unwrap().0).unwrap();
    state.handle_event(event, 400);
    let c = chat(&state);
    assert_eq!(c.chat_history[0].message_id, 42);
    assert_eq!(c.chat_history[0].status, ChatMessageStatus::Send);
    assert!(c.waiting_message_acks_id.is_empty());
}

#[test]
fn blank_line_is_not_sent() {
    let mut state = logged_in();
    add_channel(&mut state, 7);
    state.handle_event(TuiEvent::ChatFocusChange(ChatFocus::ChatInput(0)), 0);
    state.handle_event(TuiEvent::InputChar(' '), 100);
    assert!(state.handle_event(TuiEvent::MessageSend, 300).is_empty());
    assert!(chat(&state).chat_history.is_empty());
}

#[test]
fn liveness_then_reconnect() {
    let mut state = logged_in();
    let transmit = InteractedTimeStamp { millis: 0 };
    let mut reconnect = InteractedTimeStamp { millis: 0 };
    let events = state.on_tick(10_001, &transmit, &mut reconnect, ServerConnectionStatus::Connected);
    assert!(matches!(&events[..], [TuiEvent::PossiblyUnhealthyConnection]));
    let commands = state.handle_event(TuiEvent::PossiblyUnhealthyConnection, 10_001);
    assert!(matches!(&commands[..], [Command::MarkUnhealthy]));
    assert_eq!(chat(&state).server_connection_status, ServerConnectionStatus::Unhealthy);
    let events = state.on_tick(15_001, &transmit, &mut reconnect, ServerConnectionStatus::Unhealthy);
    assert!(matches!(&events[..], [TuiEvent::Reconnect]));
    assert_eq!(reconnect.millis, 15_001);
    let events = state.on_tick(16_000, &transmit, &mut reconnect, ServerConnectionStatus::Unhealthy);
    assert!(events.is_empty());
    let commands = state.handle_event(TuiEvent::Reconnect, 15_001);
    assert!(matches!(&commands[..], [Command::Reconnect { username, password, .. }] if username == "alice" && password == "pw"));
    state.handle_event(TuiEvent::Reconnected(ServerConnectionStatus::Connected), 15_100);
    assert_eq!(chat(&state).server_connection_status, ServerConnectionStatus::Connected);
}

fn history_message(id: u64, channel: u64) -> HistoryMessage {
    HistoryMessage {
        message_id: id,
        sent_timestamp: 1_700_000_000,
        user_id: 5,
        channel_id: channel,
        reply_id: 0,
        message_text: "hello".to_string(),
        media_ids: vec![],
    }
}

#[test]
fn duplicate_history_is_appended_once() {
    let mut state = logged_in();
    add_channel(&mut state, 7);
    state.handle_event(TuiEvent::HistoryUpdate(vec![history_message(1, 7), history_message(1, 7)]), 0);
    let c = chat(&state);
    assert_eq!(c.chat_history.len(), 1);
    assert_eq!(c.chat_history[0].author_name, "Unknown");
    state.handle_event(TuiEvent::HistoryUpdate(vec![history_message(1, 7), history_message(1, 8)]), 0);
    assert_eq!(chat(&state).chat_history.len(), 2);
}

#[test]
fn history_names_known_authors() {
    let mut state = logged_in();
    let users = vec![UserData {
        user_id: 5,
        status: UserStatus::Online,
        username: "bob".to_string(),
        pfp_id: 0,
        bio: String::new(),
    }];
    state.handle_event(TuiEvent::Users(users), 0);
    state.handle_event(TuiEvent::HistoryUpdate(vec![history_message(3, 7)]), 0);
    assert_eq!(chat(&state).chat_history[0].author_name, "bob");
}

#[test]
fn typing_expires_once() {
    let mut state = logged_in();
    add_channel(&mut state, 7);
    state.handle_event(TuiEvent::ChatFocusChange(ChatFocus::ChatInput(0)), 0);
    let sent = frames(&state.handle_event(TuiEvent::InputChar('a'), 1_000));
    assert_eq!(sent, vec![vec![0x43, 0x48, 0x54, 0x47, 0x01, 0x8A, 0, 0, 0, 9, 1, 0, 0, 0, 0, 0, 0, 0, 7]]);
    let transmit = InteractedTimeStamp { millis: 2_500 };
    let mut reconnect = InteractedTimeStamp { millis: 2_500 };
    let events = state.on_tick(2_900, &transmit, &mut reconnect, ServerConnectionStatus::Connected);
    assert!(events.is_empty());
    let events = state.on_tick(3_001, &transmit, &mut reconnect, ServerConnectionStatus::Connected);
    assert!(matches!(&events[..], [TuiEvent::TypingExpired]));
    let sent = frames(&state.handle_event(TuiEvent::TypingExpired, 3_001));
    assert_eq!(sent, vec![vec![0x43, 0x48, 0x54, 0x47, 0x01, 0x8A, 0, 0, 0, 9, 0, 0, 0, 0, 0, 0, 0, 0, 7]]);
    assert!(!chat(&state).is_typing);
    let events = state.on_tick(9_000, &transmit, &mut reconnect, ServerConnectionStatus::Connected);
    assert!(events.is_empty());
    assert!(state.handle_event(TuiEvent::TypingExpired, 9_000).is_empty());
}

#[test]
fn logout_and_restore() {
    let mut state = logged_in();
    add_channel(&mut state, 7);
    state.handle_event(TuiEvent::ChatFocusChange(ChatFocus::ChatInput(0)), 0);
    state.handle_event(TuiEvent::InputChar('x'), 0);
    state.handle_event(TuiEvent::MessageSend, 0);
    let commands = state.handle_event(TuiEvent::Logout, 0);
    assert!(commands.iter().any(|c| matches!(c, Command::Disconnect)));
    assert!(matches!(state.current_state, AppState::Login(_)));
    state.handle_event(TuiEvent::Connected(address()), 0);
    let ack = [0x43, 0x48, 0x54, 0x47, 0x01, 0x01, 0x00, 0x00, 0x00, 0x01, 0x00];
    let event = handle_message(decode_frame(&ack).unwrap().0).unwrap();
    let requests = state.handle_event(event, 0);
    assert!(requests.is_empty());
    let c = chat(&state);
    assert_eq!(c.channels.len(), 1);
    assert_eq!(c.chat_history.len(), 1);
    assert_eq!(c.chat_history[0].status, ChatMessageStatus::FailedToSend);
    assert!(c.waiting_message_acks_id.is_empty());
}

#[test]
fn logout_without_login_screen_quits() {
    let mut state = State::new(AppState::Login(login_state("a", "b")));
    let mut fresh = logged_in();
    fresh.state_map.clear();
    fresh.handle_event(TuiEvent::Logout, 0);
    assert!(fresh.should_quit());
    state.handle_event(TuiEvent::Exit, 0);
    assert!(state.should_quit());
}

#[test]
fn disconnect_fails_pending_messages() {
    let mut state = logged_in();
    add_channel(&mut state, 7);
    state.handle_event(TuiEvent::ChatFocusChange(ChatFocus::ChatInput(0)), 0);
    state.handle_event(TuiEvent::InputChar('x'), 0);
    state.handle_event(TuiEvent::MessageSend, 0);
    let commands = state.handle_event(TuiEvent::Disconnected, 0);
    assert!(matches!(&commands[..], [Command::Disconnect]));
    let c = chat(&state);
    assert_eq!(c.chat_history[0].status, ChatMessageStatus::FailedToSend);
    assert_eq!(c.server_connection_status, ServerConnectionStatus::Reconnecting);
    assert!(state.handle_event(TuiEvent::Disconnected, 0).is_empty());
}

#[test]
fn login_failure_messages() {
    assert_eq!(classify_login_failure(&"Incorrect username or password.".to_string()), InputStatus::IncorrectUsernameOrPassword);
    assert_eq!(classify_login_failure(&"nope".to_string()), InputStatus::FailedToLogin);
    let mut state = State::new(AppState::Login(login_state("a", "b")));
    let commands = state.handle_event(TuiEvent::LoginFail("Incorrect username or password.".to_string()), 0);
    assert!(matches!(&commands[..], [Command::Disconnect]));
    match &state.current_state {
        AppState::Login(l) => assert_eq!(l.input_status, InputStatus::IncorrectUsernameOrPassword),
        _ => panic!(),
    }
    state.handle_event(TuiEvent::ConnectFailed(ConnectFailure::Refused), 0);
    match &state.current_state {
        AppState::Login(l) => assert_eq!(l.input_status, InputStatus::ServerNotFound),
        _ => panic!(),
    }
}

#[test]
fn login_fields_are_clamped() {
    let mut state = State::new(AppState::Login(login_state("", "")));
    state.handle_event(TuiEvent::LoginFocusChange(LoginFocus::ServerAddressInput(0)), 0);
    for _ in 0..100 {
        state.handle_event(TuiEvent::InputChar('9'), 0);
    }
    match &state.current_state {
        AppState::Login(l) => {
            assert_eq!(l.server_address_input.len(), 63);
            assert_eq!(l.focus, LoginFocus::ServerAddressInput(63 - 14));
        },
        _ => panic!(),
    }
    state.handle_event(TuiEvent::InputDelete, 0);
    match &state.current_state {
        AppState::Login(l) => assert_eq!(l.server_address_input.len(), 62),
        _ => panic!(),
    }
}

#[test]
fn unknown_users_are_requested() {
    let mut state = logged_in();
    let commands = state.handle_event(TuiEvent::UserStatusesUpdate(vec![(9, UserStatus::Online)]), 0);
    match &commands[..] {
        [Command::Send(ClientPayload::Users(g))] => assert_eq!(g.user_ids, vec![9]),
        other => panic!("unexpected {other:?}"),
    }
}

#[test]
fn word_jumps_in_input() {
    let mut state = logged_in();
    add_channel(&mut state, 7);
    state.handle_event(TuiEvent::ChatFocusChange(ChatFocus::ChatInput(0)), 0);
    for c in "ab cd ef".chars() {
        state.handle_event(TuiEvent::InputChar(c), 0);
    }
    state.handle_event(TuiEvent::InputLeftTab, 0);
    assert_eq!(chat(&state).focus, ChatFocus::ChatInput(5));
    state.handle_event(TuiEvent::InputLeftTab, 0);
    assert_eq!(chat(&state).focus, ChatFocus::ChatInput(2));
    state.handle_event(TuiEvent::InputRightTab, 0);
    assert_eq!(chat(&state).focus, ChatFocus::ChatInput(5));
    state.handle_event(TuiEvent::InputRightTab, 0);
    assert_eq!(chat(&state).focus, ChatFocus::ChatInput(8));
}

#[test]
fn channel_cycling() {
    let mut state = logged_in();
    add_channel(&mut state, 7);
    add_channel(&mut state, 8);
    state.handle_event(TuiEvent::ChannelUp, 0);
    assert_eq!(chat(&state).active_channel_idx, 1);
    state.handle_event(TuiEvent::ChannelDown, 0);
    assert_eq!(chat(&state).active_channel_idx, 0);
}

#[test]
fn keys_map_to_events() {
    let key = |code| TerminalEvent::Key(KeyPress { code, ctrl: false });
    assert!(matches!(handle_login_key_event(key(KeyCode::Tab), LoginFocus::UsernameInput(2)), Some(TuiEvent::LoginFocusChange(LoginFocus::PasswordInput(2)))));
    assert!(matches!(handle_login_key_event(key(KeyCode::Enter), LoginFocus::LoginButton), Some(TuiEvent::Login)));
    assert!(matches!(handle_login_key_event(key(KeyCode::Char('q')), LoginFocus::Nothing), Some(TuiEvent::Exit)));
    assert!(matches!(handle_chat_key_event(key(KeyCode::Enter), ChatFocus::ChatInput(0), false), Some(TuiEvent::MessageSend)));
    assert!(matches!(handle_chat_key_event(key(KeyCode::Char('x')), ChatFocus::Channels, false), Some(TuiEvent::Logout)));
    assert!(matches!(handle_chat_key_event(key(KeyCode::Right), ChatFocus::ChatHistory, true), Some(TuiEvent::ChatFocusChange(ChatFocus::Logs))));
    assert!(matches!(handle_chat_key_event(TerminalEvent::FocusLost, ChatFocus::Channels, false), Some(TuiEvent::FocusLost)));
}

#[test]
fn idle_after_focus_lost() {
    let mut state = logged_in();
    state.handle_event(TuiEvent::FocusLost, 1_000);
    let transmit = InteractedTimeStamp { millis: 60_000 };
    let mut reconnect = InteractedTimeStamp { millis: 60_000 };
    let events = state.on_tick(61_001, &transmit, &mut reconnect, ServerConnectionStatus::Connected);
    assert!(matches!(&events[..], [TuiEvent::IdleUser]));
    let sent = frames(&state.handle_event(TuiEvent::IdleUser, 61_001));
    assert_eq!(sent, vec![vec![0x43, 0x48, 0x54, 0x47, 0x01, 0x8B, 0, 0, 0, 1, 0x02]]);
    assert!(state.on_tick(70_000, &transmit, &mut reconnect, ServerConnectionStatus::Connected).is_empty());
}

#[test]
fn reply_toggles_on_selected_message() {
    let mut state = logged_in();
    add_channel(&mut state, 7);
    state.handle_event(TuiEvent::HistoryUpdate(vec![history_message(1, 7), history_message(2, 7)]), 0);
    state.handle_event(TuiEvent::ChatFocusChange(ChatFocus::ChatHistorySelection), 0);
    state.handle_event(TuiEvent::ScrollDown, 0);
    state.handle_event(TuiEvent::Reply, 0);
    assert_eq!(chat(&state).replying_to.as_ref().map(|m| m.message_id), Some(2));
    state.handle_event(TuiEvent::Reply, 0);
    assert!(chat(&state).replying_to.is_none());
    state.handle_event(TuiEvent::ScrollUp, 0);
    state.handle_event(TuiEvent::Reply, 0);
    assert_eq!(chat(&state).replying_to.as_ref().map(|m| m.message_id), Some(1));
    state.handle_event(TuiEvent::ChatFocusChange(ChatFocus::ChatInput(0)), 0);
    state.handle_event(TuiEvent::InputChar('k'), 0);
    let sent = state.handle_event(TuiEvent::MessageSend, 0);
    match &sent[..] {
        [Command::Send(ClientPayload::SendMessage(m))] => assert_eq!(m.reply_id, 1),
        other => panic!("unexpected {other:?}"),
    }
    assert!(chat(&state).replying_to.is_none());
}

#[test]
fn history_stops_at_unrepresentable_time() {
    let mut state = logged_in();
    let mut late = history_message(2, 7);
    late.sent_timestamp = 8_210_266_876_800;
    let mut last = history_message(3, 7);
    last.sent_timestamp = 8_210_266_876_799;
    state.handle_event(TuiEvent::HistoryUpdate(vec![history_message(1, 7), late, last]), 0);
    let c = chat(&state);
    assert_eq!(c.chat_history.len(), 1);
    assert_eq!(c.chat_history[0].message_id, 1);
}
