//! The whole client state: the current screen, the cached screens, and what is global.
use vstd::prelude::*;

use crate::network::client::{InteractedTimeStamp, ServerConnectionStatus};
use crate::network::protocol::client::{ClientPayload, GetChannelsPacket, StatusPacket};
use crate::network::protocol::server::{HealthCheckPacket, HealthKind};
use crate::network::protocol::UserStatus;
use crate::text::string_from_chars;
use crate::tui::chat::ChatMessage;
use crate::tui::events::{ServerAddrInfo, TuiEvent, UserId};
use crate::tui::logs::LogEntry;
use crate::tui::screens::chat::{
    channel_down_post, channel_up_post, channels_update_post, fail_pending_post, history_update_post, input_char_post,
    input_delete_post, input_left_post, input_left_tab_post, input_right_post, input_right_tab_post,
    is_typing_request, message_ack_post, message_send_post, reply_post, scroll_down_post, scroll_up_post,
    typing_expired_post, typing_post, user_status_update_post, user_statuses_update_post, users_update_post,
    sending_ids, ChatFocus, ChatState, UserProfile, FIRST_LOCAL_MESSAGE_ID, TYPING_EXPIRY_MILLIS,
};
use crate::network::protocol::client::TypingPacket;
use crate::tui::screens::login::{
    classify_login_failure, connect_failed_post, connected_post, input_char_post as login_input_char_post,
    input_delete_post as login_input_delete_post, login_failure_status, move_cursor_post,
};
use crate::tui::screens::login::{InputStatus, LoginState};
use std::collections::VecDeque;

pub mod chat;
pub mod login;

verus! {

/// How long the terminal may stay unfocused before the user counts as idle, in milliseconds.
pub const USER_TIME_UNTIL_IDLE_MILLIS: u64 = 60000;

/// Quiet time after which the connection counts as unhealthy, in milliseconds.
pub const UNHEALTHY_AFTER_MILLIS: u64 = 10000;

/// Quiet time after which the client reconnects, in milliseconds.
pub const RECONNECT_AFTER_MILLIS: u64 = 15000;

/// The least time between two reconnect attempts, in milliseconds.
pub const RECONNECT_BACKOFF_MILLIS: u64 = 5000;

/// Which screen a cached state belongs to: the login screen, or the chat of one user on one
/// server (username, password, server ip, server port).
#[derive(Debug, Clone)]
pub enum Screen {
    Chat(String, String, String, u16),
    Login,
}

#[derive(Clone, Debug)]
pub enum AppState {
    Chat(ChatState),
    Login(LoginState),
}

#[derive(Clone, Debug)]
pub struct GlobalState {
    pub logs: Vec<LogEntry>,
    pub log_scroll_offset: usize,
    pub show_logs: bool,
    pub should_quit: bool,
}

/// What the caller has to do for the state: the outside work that an event asks for.
#[derive(Debug)]
pub enum Command {
    /// Send a packet to the server.
    Send(ClientPayload),
    /// Resolve the address text and connect, over TLS where asked; report back with
    /// `Connected` or `ConnectFailed`.
    Connect { address: String, enable_tls: bool },
    /// Drop the connection.
    Disconnect,
    /// Disconnect, connect again and log in; report back with `Reconnected`.
    Reconnect { address: ServerAddrInfo, username: String, password: String },
    /// Record that the connection looks unhealthy.
    MarkUnhealthy,
}

#[derive(Clone, Debug)]
pub struct State {
    pub global_state: GlobalState,
    pub current_state: AppState,
    pub state_map: Vec<(Screen, AppState)>,
}

/// A state whose chat, if it is one, keeps its acknowledgements consistent.
pub open spec fn app_state_wf(s: AppState) -> bool {
    match s {
        AppState::Chat(c) => c.acks_consistent(),
        AppState::Login(_) => true,
    }
}

/// The chat state that `s` shows; only meaningful when `s` is a chat.
pub open spec fn chat_of(s: AppState) -> ChatState {
    match s {
        AppState::Chat(c) => c,
        AppState::Login(_) => arbitrary(),
    }
}

/// The login state that `s` shows; only meaningful when `s` is the login screen.
pub open spec fn login_of(s: AppState) -> LoginState {
    match s {
        AppState::Login(l) => l,
        AppState::Chat(_) => arbitrary(),
    }
}

/// A cached login screen.
pub open spec fn is_login_entry(e: (Screen, AppState)) -> bool {
    e.0 is Login && e.1 is Login
}

/// Entry `i` is the first cached login screen.
pub open spec fn is_first_login(m: Seq<(Screen, AppState)>, i: int) -> bool {
    &&& 0 <= i < m.len()
    &&& is_login_entry(m[i])
    &&& forall|j: int| 0 <= j < i ==> !is_login_entry(#[trigger] m[j])
}

/// Whether a cache key names the chat of this user on this server.
pub open spec fn chat_key_matches(k: Screen, username: Seq<char>, password: Seq<char>, address: ServerAddrInfo) -> bool {
    k matches Screen::Chat(u, p, ip, port) && u@ == username && p@ == password && ip@ == address.ip@ && port
        == address.port
}

/// A cached chat of this user on this server.
pub open spec fn is_chat_entry(e: (Screen, AppState), username: Seq<char>, password: Seq<char>, address: ServerAddrInfo) -> bool {
    chat_key_matches(e.0, username, password, address) && e.1 is Chat
}

/// Entry `i` is the first cached chat of this user on this server.
pub open spec fn is_first_chat(
    m: Seq<(Screen, AppState)>,
    i: int,
    username: Seq<char>,
    password: Seq<char>,
    address: ServerAddrInfo,
) -> bool {
    &&& 0 <= i < m.len()
    &&& is_chat_entry(m[i], username, password, address)
    &&& forall|j: int| 0 <= j < i ==> !is_chat_entry(#[trigger] m[j], username, password, address)
}

/// The key under which a chat is cached: its user and its server.
pub open spec fn chat_key(c: ChatState) -> Screen {
    Screen::Chat(c.current_user.username, c.current_user.password, c.server_address.ip, c.server_address.port)
}

/// The commands that send the packet, if there is one.
pub open spec fn sends_opt(r: Seq<Command>, p: Option<ClientPayload>) -> bool {
    match p {
        Some(q) => r.len() == 1 && is_send(r[0], q),
        None => r.len() == 0,
    }
}

/// The commands that send the packets in order.
pub open spec fn sends_all(r: Seq<Command>, ps: Seq<ClientPayload>) -> bool {
    r.len() == ps.len() && forall|i: int| 0 <= i < r.len() ==> is_send(#[trigger] r[i], ps[i])
}

impl State {
    /// Every chat state, shown or cached, keeps its acknowledgements consistent.
    pub open spec fn wf(&self) -> bool {
        &&& app_state_wf(self.current_state)
        &&& forall|i: int| 0 <= i < self.state_map@.len() ==> app_state_wf(#[trigger] self.state_map@[i].1)
    }

    pub fn new(initial_state: AppState) -> (r: State)
        requires
            app_state_wf(initial_state),
        ensures
            r.wf(),
            r.current_state == initial_state,
            !r.global_state.should_quit,
            !r.global_state.show_logs,
            r.global_state.logs@.len() == 0,
            r.state_map@.len() == 0,
    {
        State {
            global_state: GlobalState { logs: Vec::new(), log_scroll_offset: 0, show_logs: false, should_quit: false },
            current_state: initial_state,
            state_map: Vec::new(),
        }
    }

    pub fn should_quit(&self) -> (r: bool)
        ensures
            r == self.global_state.should_quit,
    {
        self.global_state.should_quit
    }

    /// Takes the cached login state out of the cache, where there is one.
    fn take_login(&mut self) -> (r: Option<AppState>)
        requires
            old(self).wf(),
        ensures
            final(self).wf(),
            final(self).current_state == old(self).current_state,
            final(self).global_state == old(self).global_state,
            match r {
                Some(s) => exists|i: int|
                    is_first_login(old(self).state_map@, i) && s == old(self).state_map@[i].1
                        && final(self).state_map@ == old(self).state_map@.remove(i),
                None => final(self).state_map@ == old(self).state_map@ && forall|i: int|
                    0 <= i < old(self).state_map@.len() ==> !is_login_entry(#[trigger] old(self).state_map@[i]),
            },
    {
        let mut i: usize = 0;
        while i < self.state_map.len()
            invariant
                self.wf(),
                self.current_state == old(self).current_state,
                self.global_state == old(self).global_state,
                self.state_map@ == old(self).state_map@,
                i <= self.state_map@.len(),
                forall|j: int| 0 <= j < i ==> !is_login_entry(#[trigger] self.state_map@[j]),
            decreases self.state_map@.len() - i,
        {
            if matches!(self.state_map[i].0, Screen::Login) {
                if matches!(self.state_map[i].1, AppState::Login(_)) {
                    let ghost before = self.state_map@;
                    let (_, s) = self.state_map.remove(i);
                    assert forall|j: int| 0 <= j < self.state_map@.len() implies app_state_wf(
                        #[trigger] self.state_map@[j].1,
                    ) by {
                        if j < i {
                            assert(self.state_map@[j] == before[j]);
                        } else {
                            assert(self.state_map@[j] == before[j + 1]);
                        }
                    }
                    assert(is_first_login(before, i as int));
                    return Some(s);
                }
            }
            i = i + 1;
        }
        None
    }

    /// Takes the cached chat state of a user on a server out of the cache, where there is one.
    fn take_chat(&mut self, username: &String, password: &String, address: &ServerAddrInfo) -> (r: Option<ChatState>)
        requires
            old(self).wf(),
        ensures
            final(self).wf(),
            final(self).current_state == old(self).current_state,
            final(self).global_state == old(self).global_state,
            r matches Some(c) ==> c.acks_consistent(),
            match r {
                Some(c) => exists|i: int|
                    is_first_chat(old(self).state_map@, i, username@, password@, *address) && old(self).state_map@[i].1
                        == AppState::Chat(c) && final(self).state_map@ == old(self).state_map@.remove(i),
                None => final(self).state_map@ == old(self).state_map@ && forall|i: int|
                    0 <= i < old(self).state_map@.len() ==> !is_chat_entry(
                        #[trigger] old(self).state_map@[i],
                        username@,
                        password@,
                        *address,
                    ),
            },
    {
        let mut i: usize = 0;
        while i < self.state_map.len()
            invariant
                self.wf(),
                self.current_state == old(self).current_state,
                self.global_state == old(self).global_state,
                self.state_map@ == old(self).state_map@,
                i <= self.state_map@.len(),
                forall|j: int| 0 <= j < i ==> !is_chat_entry(#[trigger] self.state_map@[j], username@, password@, *address),
            decreases self.state_map@.len() - i,
        {
            let hit = match &self.state_map[i].0 {
                Screen::Chat(u, p, ip, port) => *u == *username && *p == *password && *ip == address.ip && *port
                    == address.port,
                Screen::Login => false,
            };
            if hit && matches!(self.state_map[i].1, AppState::Chat(_)) {
                let ghost before = self.state_map@;
                assert(app_state_wf(before[i as int].1));
                let (_, s) = self.state_map.remove(i);
                assert forall|j: int| 0 <= j < self.state_map@.len() implies app_state_wf(
                    #[trigger] self.state_map@[j].1,
                ) by {
                    if j < i {
                        assert(self.state_map@[j] == before[j]);
                    } else {
                        assert(self.state_map@[j] == before[j + 1]);
                    }
                }
                assert(is_first_chat(before, i as int, username@, password@, *address));
                return match s {
                    AppState::Chat(c) => Some(c),
                    AppState::Login(_) => None,
                };
            }
            i = i + 1;
        }
        None
    }

    /// Caches a state under a key; an older entry under the same key stays behind it.
    fn cache(&mut self, key: Screen, s: AppState)
        requires
            old(self).wf(),
            app_state_wf(s),
        ensures
            final(self).wf(),
            final(self).current_state == old(self).current_state,
            final(self).global_state == old(self).global_state,
            final(self).state_map@ == old(self).state_map@.insert(0, (key, s)),
    {
        let ghost before = self.state_map@;
        self.state_map.insert(0, (key, s));
        assert forall|j: int| 0 <= j < self.state_map@.len() implies app_state_wf(#[trigger] self.state_map@[j].1) by {
            if j > 0 {
                assert(self.state_map@[j] == before[j - 1]);
            }
        }
    }
}

/// Wraps each packet in a send command.
fn sends(payloads: Vec<ClientPayload>) -> (r: Vec<Command>)
    ensures
        sends_all(r@, payloads@),
{
    let mut r: Vec<Command> = Vec::new();
    let mut rest = payloads;
    let ghost all = rest@;
    while rest.len() > 0
        invariant
            r@.len() + rest@.len() == all.len(),
            rest@ == all.skip(r@.len() as int),
            forall|i: int| 0 <= i < r@.len() ==> is_send(#[trigger] r@[i], all[i]),
        decreases rest@.len(),
    {
        let ghost k = r@.len();
        let p = rest.remove(0);
        assert(p == all[k as int]);
        r.push(Command::Send(p));
        assert(rest@ =~= all.skip(r@.len() as int));
    }
    r
}

/// The command that sends exactly this packet.
pub open spec fn is_send(c: Command, p: ClientPayload) -> bool {
    c matches Command::Send(q) && q == p
}

fn send_one(p: Option<ClientPayload>) -> (r: Vec<Command>)
    ensures
        sends_opt(r@, p),
{
    let mut r: Vec<Command> = Vec::new();
    if let Some(q) = p {
        r.push(Command::Send(q));
    }
    r
}

/// A fresh chat for a user who just logged in.
pub open spec fn fresh_chat(c: ChatState, user_id: UserId, username: Seq<char>, password: Seq<char>, address: ServerAddrInfo) -> bool {
    &&& c.focus == ChatFocus::Channels
    &&& c.channels@.len() == 0
    &&& c.users@.len() == 0
    &&& c.chat_history@.len() == 0
    &&& c.chat_inputs@.len() == 0
    &&& c.active_channel_idx == 0
    &&& c.current_user.user_id == user_id
    &&& c.current_user.username@ == username
    &&& c.current_user.password@ == password
    &&& c.current_user.status == UserStatus::Online
    &&& c.server_address == address
    &&& c.server_connection_status == ServerConnectionStatus::Connected
    &&& c.waiting_message_acks_id@.len() == 0
    &&& c.incrementing_ack_id == FIRST_LOCAL_MESSAGE_ID
    &&& c.users_typing@.len() == 0
    &&& !c.is_typing
    &&& c.time_since_last_focused is None
    &&& c.replying_to is None
}

/// What a successful login does: with the address of the connection known, the login screen
/// goes to the front of the cache, and the cached chat of this user on this server comes back,
/// or a fresh chat starts that asks for the channel list and the user statuses.
pub open spec fn login_success_post(pre: State, post: State, user_id: UserId, r: Seq<Command>) -> bool {
    let l = login_of(pre.current_state);
    let m = pre.state_map@;
    match l.server_address {
        None => post == pre && r.len() == 0,
        Some(a) => {
            let un = l.username_input@;
            let pw = l.password_input@;
            &&& post.global_state == pre.global_state
            &&& post.state_map@.len() > 0 && is_login_entry(post.state_map@[0])
            &&& if exists|i: int| is_first_chat(m, i, un, pw, a) {
                &&& r.len() == 0
                &&& exists|i: int|
                    is_first_chat(m, i, un, pw, a) && post.current_state == m[i].1 && post.state_map@.skip(1)
                        == m.remove(i)
            } else {
                &&& r == seq![Command::Send(ClientPayload::ChannelsList), Command::Send(ClientPayload::UserStatuses)]
                &&& post.current_state is Chat
                &&& fresh_chat(chat_of(post.current_state), user_id, un, pw, a)
                &&& post.state_map@.skip(1) == m
            }
        },
    }
}

/// What leaving the chat does: with a cached login screen, that screen comes back, and the chat,
/// its waiting messages marked as failed, is cached under its user and server; the connection is
/// dropped last. Without one, the client quits.
pub open spec fn logout_post(pre: State, post: State, r: Seq<Command>) -> bool {
    let c = chat_of(pre.current_state);
    if exists|i: int| is_first_login(pre.state_map@, i) {
        &&& exists|i: int, f: ChatState|
            is_first_login(pre.state_map@, i) && post.current_state == pre.state_map@[i].1 && fail_pending_post(c, f)
                && post.state_map@ == pre.state_map@.remove(i).insert(0, (chat_key(c), AppState::Chat(f)))
        &&& r.len() >= 1 && r.last() == Command::Disconnect
        &&& (c.is_typing && c.active_channel_id() is Some) ==> (r.len() == 2 && (r[0] matches Command::Send(p)
            && is_typing_request(p, c.active_channel_id()->Some_0, false)))
        &&& post.global_state == pre.global_state
    } else {
        &&& post.global_state.should_quit
        &&& post.current_state == pre.current_state
        &&& post.state_map@ == pre.state_map@
        &&& r.len() == 0
    }
}

/// Events that come from the user or the terminal rather than from the server.
pub open spec fn is_local_event(e: TuiEvent) -> bool {
    e is ChannelDown || e is ChannelUp || e is ChatFocusChange || e is Exit || e is FocusGained || e is FocusLost || e is IdleUser || e is InputChar || e is InputDelete || e is InputLeft || e is InputLeftTab || e is InputRight || e is InputRightTab || e is Log || e is MessageSend || e is Reply || e is ScrollDown || e is ScrollUp || e is ToggleLogs || e is TypingExpired
}

fn event_is_local(e: &TuiEvent) -> (r: bool)
    ensures
        r == is_local_event(*e),
{
    matches!(e, TuiEvent::ChannelDown | TuiEvent::ChannelUp | TuiEvent::ChatFocusChange(_) | TuiEvent::Exit | TuiEvent::FocusGained | TuiEvent::FocusLost | TuiEvent::IdleUser | TuiEvent::InputChar(_) | TuiEvent::InputDelete | TuiEvent::InputLeft | TuiEvent::InputLeftTab | TuiEvent::InputRight | TuiEvent::InputRightTab | TuiEvent::Log(_) | TuiEvent::MessageSend | TuiEvent::Reply | TuiEvent::ScrollDown | TuiEvent::ScrollUp | TuiEvent::ToggleLogs | TuiEvent::TypingExpired)
}

/// Events that edit or send a message, or change the channel; all come from the user.
pub open spec fn is_input_event(e: TuiEvent) -> bool {
    e is ChannelDown || e is ChannelUp || e is ChatFocusChange || e is InputChar || e is InputDelete || e is InputLeft || e is InputLeftTab || e is InputRight || e is InputRightTab || e is MessageSend || e is TypingExpired
}

fn event_is_input(e: &TuiEvent) -> (r: bool)
    ensures
        r == is_input_event(*e),
{
    matches!(e, TuiEvent::ChannelDown | TuiEvent::ChannelUp | TuiEvent::ChatFocusChange(_) | TuiEvent::InputChar(_) | TuiEvent::InputDelete | TuiEvent::InputLeft | TuiEvent::InputLeftTab | TuiEvent::InputRight | TuiEvent::InputRightTab | TuiEvent::MessageSend | TuiEvent::TypingExpired)
}

/// Events about the connection itself.
pub open spec fn is_connection_event(e: TuiEvent) -> bool {
    e is ChannelIDs || e is Disconnected || e is HealthCheckRecv || e is Logout || e is PossiblyUnhealthyConnection || e is Reconnect || e is Reconnected
}

fn event_is_connection(e: &TuiEvent) -> (r: bool)
    ensures
        r == is_connection_event(*e),
{
    matches!(e, TuiEvent::ChannelIDs(_) | TuiEvent::Disconnected | TuiEvent::HealthCheckRecv | TuiEvent::Logout | TuiEvent::PossiblyUnhealthyConnection | TuiEvent::Reconnect | TuiEvent::Reconnected(_))
}

/// What an event does while the chat is shown, by event: the chat afterwards and the commands,
/// as the chat's own handlers state them.
pub open spec fn chat_event_post(pre: State, post: State, event: TuiEvent, now_millis: u64, r: Seq<Command>) -> bool {
    let c = chat_of(pre.current_state);
    let d = chat_of(post.current_state);
    let g = pre.global_state;
    let h = post.global_state;
    &&& (!(event is Logout) ==> post.current_state is Chat && post.state_map@ == pre.state_map@)
    &&& (!(event is Exit || event is ToggleLogs || event is Log || event is ScrollUp || event is ScrollDown
        || event is Logout) ==> h == g)
    &&& match event {
        TuiEvent::Exit => h == (GlobalState { should_quit: true, ..g }) && d == c && r == seq![
            Command::Send(ClientPayload::Status(StatusPacket { status: UserStatus::Offline })),
        ],
        TuiEvent::ToggleLogs => h == (GlobalState { show_logs: !g.show_logs, ..g }) && d == (ChatState {
            focus: ChatFocus::ChatHistory,
            ..c
        }) && r.len() == 0,
        TuiEvent::Log(e) => h.logs@ == g.logs@.push(e) && h.log_scroll_offset == g.log_scroll_offset
            && h.show_logs == g.show_logs && h.should_quit == g.should_quit && d == c && r.len() == 0,
        TuiEvent::ChannelUp => exists|p: Option<ClientPayload>| channel_up_post(c, d, p) && sends_opt(r, p),
        TuiEvent::ChannelDown => exists|p: Option<ClientPayload>| channel_down_post(c, d, p) && sends_opt(r, p),
        TuiEvent::ChatFocusChange(f) => d == (ChatState { focus: f, ..c }) && r.len() == 0,
        TuiEvent::InputLeft => input_left_post(c, d) && r.len() == 0,
        TuiEvent::InputRight => input_right_post(c, d) && r.len() == 0,
        TuiEvent::InputLeftTab => input_left_tab_post(c, d) && r.len() == 0,
        TuiEvent::InputRightTab => input_right_tab_post(c, d) && r.len() == 0,
        TuiEvent::InputDelete => input_delete_post(c, d) && r.len() == 0,
        TuiEvent::InputChar(ch) => exists|p: Option<ClientPayload>|
            input_char_post(c, d, ch, now_millis, p) && sends_opt(r, p),
        TuiEvent::MessageSend => exists|p: Option<ClientPayload>|
            message_send_post(c, d, (now_millis / 1000) as i64, p) && sends_opt(r, p),
        TuiEvent::MessageSendAck(id) => message_ack_post(c, d, id) && r.len() == 0,
        TuiEvent::ScrollDown => r.len() == 0 && if c.focus == ChatFocus::Logs {
            d == c && h == (GlobalState {
                log_scroll_offset: if g.log_scroll_offset > 0 { (g.log_scroll_offset - 1) as usize } else { 0 },
                ..g
            })
        } else {
            scroll_down_post(c, d) && h == g
        },
        TuiEvent::ScrollUp => r.len() == 0 && if c.focus == ChatFocus::Logs {
            d == c && h == (GlobalState {
                log_scroll_offset: if g.log_scroll_offset < usize::MAX {
                    (g.log_scroll_offset + 1) as usize
                } else {
                    g.log_scroll_offset
                },
                ..g
            })
        } else {
            scroll_up_post(c, d) && h == g
        },
        TuiEvent::ChannelIDs(ids) => d == c && if ids@.len() > 0 {
            r == seq![Command::Send(ClientPayload::Channels(GetChannelsPacket { channel_ids: ids }))]
        } else {
            r.len() == 0
        },
        TuiEvent::HealthCheckRecv => d == c && r == seq![
            Command::Send(ClientPayload::Health(HealthCheckPacket { kind: HealthKind::Pong })),
            Command::Send(ClientPayload::UserStatuses),
        ],
        TuiEvent::Channels(cs) => exists|ps: Vec<ClientPayload>|
            channels_update_post(c, d, cs, now_millis / 1000, ps) && sends_all(r, ps@),
        TuiEvent::UserStatusesUpdate(us) => exists|p: Option<ClientPayload>|
            user_statuses_update_post(c, d, us, p) && sends_opt(r, p),
        TuiEvent::UserStatusUpdate(u, st) => user_status_update_post(c, d, u, st) && r.len() == 0,
        TuiEvent::Users(us) => users_update_post(c, d, us) && r.len() == 0,
        TuiEvent::HistoryUpdate(ms) => exists|b: bool| history_update_post(c, d, ms, b) && r.len() == 0,
        TuiEvent::Typing(ch, u, t) => typing_post(c, d, ch, u, t) && r.len() == 0,
        TuiEvent::TypingExpired => exists|p: Option<ClientPayload>|
            typing_expired_post(c, d, now_millis, p) && sends_opt(r, p),
        TuiEvent::PossiblyUnhealthyConnection => d == (ChatState {
            server_connection_status: ServerConnectionStatus::Unhealthy,
            ..c
        }) && r == seq![Command::MarkUnhealthy],
        TuiEvent::Reconnect => d == c && r.len() == 1 && (r[0] matches Command::Reconnect { address, username, password }
            && address == c.server_address && username == c.current_user.username && password
            == c.current_user.password),
        TuiEvent::Reconnected(st) => d == (ChatState { server_connection_status: st, ..c }) && r.len() == 0,
        TuiEvent::Disconnected => if c.server_connection_status != ServerConnectionStatus::Reconnecting {
            exists|f: ChatState|
                fail_pending_post(c, f) && d == (ChatState {
                    server_connection_status: ServerConnectionStatus::Reconnecting,
                    ..f
                }) && r == seq![Command::Disconnect]
        } else {
            d == c && r.len() == 0
        },
        TuiEvent::FocusGained => d == (ChatState {
            time_since_last_focused: None,
            current_user: UserProfile { status: UserStatus::Online, ..c.current_user },
            ..c
        }) && r == seq![Command::Send(ClientPayload::Status(StatusPacket { status: UserStatus::Online }))],
        TuiEvent::FocusLost => d == (ChatState { time_since_last_focused: Some(now_millis), ..c }) && r.len() == 0,
        TuiEvent::IdleUser => d == (ChatState {
            current_user: UserProfile { status: UserStatus::Idle, ..c.current_user },
            ..c
        }) && r == seq![Command::Send(ClientPayload::Status(StatusPacket { status: UserStatus::Idle }))],
        TuiEvent::Reply => reply_post(c, d) && r.len() == 0,
        TuiEvent::Logout => logout_post(pre, post, r),
        _ => d == c && r.len() == 0,
    }
}

/// What an event does while the login screen is shown.
pub open spec fn login_event_post(pre: State, post: State, event: TuiEvent, r: Seq<Command>) -> bool {
    let l = login_of(pre.current_state);
    let m = login_of(post.current_state);
    let g = pre.global_state;
    let h = post.global_state;
    &&& (!(event is LoginSuccess) ==> post.state_map@ == pre.state_map@ && post.current_state is Login)
    &&& (!(event is Exit || event is ToggleLogs || event is Log || event is LoginSuccess) ==> h == g)
    &&& match event {
        TuiEvent::LoginSuccess(id) => login_success_post(pre, post, id, r),
        TuiEvent::LoginFocusChange(f) => m == (LoginState { focus: f, ..l }) && r.len() == 0,
        TuiEvent::InputChar(ch) => login_input_char_post(l, m, ch) && r.len() == 0,
        TuiEvent::InputDelete => login_input_delete_post(l, m) && r.len() == 0,
        TuiEvent::InputLeft => move_cursor_post(l, m, true, false) && r.len() == 0,
        TuiEvent::InputRight => move_cursor_post(l, m, false, false) && r.len() == 0,
        TuiEvent::InputLeftTab => move_cursor_post(l, m, true, true) && r.len() == 0,
        TuiEvent::InputRightTab => move_cursor_post(l, m, false, true) && r.len() == 0,
        TuiEvent::Login => m == l && r.len() == 1 && (r[0] matches Command::Connect { address, enable_tls }
            && address@ == l.server_address_input@ && enable_tls == l.enable_tls),
        TuiEvent::Connected(a) => exists|ps: Vec<ClientPayload>| connected_post(l, m, a, ps) && sends_all(r, ps@),
        TuiEvent::ConnectFailed(f) => connect_failed_post(l, m, f) && r.len() == 0,
        TuiEvent::LoginFail(msg) => m == (LoginState { input_status: login_failure_status(msg@), ..l }) && r == seq![
            Command::Disconnect,
        ],
        TuiEvent::ToggleLogs => h == (GlobalState { show_logs: !g.show_logs, ..g }) && m == l && r.len() == 0,
        TuiEvent::Log(e) => h.logs@ == g.logs@.push(e) && h.log_scroll_offset == g.log_scroll_offset
            && h.show_logs == g.show_logs && h.should_quit == g.should_quit && m == l && r.len() == 0,
        TuiEvent::Exit => h == (GlobalState { should_quit: true, ..g }) && m == l && r.len() == 0,
        _ => m == l && r.len() == 0,
    }
}

impl State {
    /// Handles the editing and sending of messages and the choice of channel.
    #[verifier::spinoff_prover]
    #[verifier::rlimit(100)]
    fn chat_input_event(&mut self, event: TuiEvent, now_millis: u64) -> (r: Vec<Command>)
        requires
            old(self).wf(),
            old(self).current_state is Chat,
            is_input_event(event),
        ensures
            final(self).wf(),
            chat_event_post(*old(self), *final(self), event, now_millis, r@),
    {
        let now_secs = now_millis / 1000;
        let mut chat = match &mut self.current_state {
            AppState::Chat(c) => c,
            AppState::Login(_) => return Vec::new(),
        };
        match event {
            TuiEvent::ChannelUp => send_one(chat.channel_up()),
            TuiEvent::ChannelDown => send_one(chat.channel_down()),
            TuiEvent::ChatFocusChange(focus) => {
                chat.focus = focus;
                Vec::new()
            },
            TuiEvent::InputLeft => {
                chat.input_left();
                Vec::new()
            },
            TuiEvent::InputRight => {
                chat.input_right();
                Vec::new()
            },
            TuiEvent::InputLeftTab => {
                chat.input_left_tab();
                Vec::new()
            },
            TuiEvent::InputRightTab => {
                chat.input_right_tab();
                Vec::new()
            },
            TuiEvent::InputDelete => {
                chat.input_delete();
                Vec::new()
            },
            TuiEvent::InputChar(c) => send_one(chat.input_char(c, now_millis)),
            TuiEvent::MessageSend => send_one(chat.message_send(now_secs as i64)),
            TuiEvent::TypingExpired => send_one(chat.typing_expired(now_millis)),
            _ => Vec::new(),
        }
    }

    /// Handles the other events that come from the user or the terminal.
    #[verifier::spinoff_prover]
    #[verifier::rlimit(100)]
    fn chat_local_event(&mut self, event: TuiEvent, now_millis: u64) -> (r: Vec<Command>)
        requires
            old(self).wf(),
            old(self).current_state is Chat,
            is_local_event(event) && !is_input_event(event),
        ensures
            final(self).wf(),
            chat_event_post(*old(self), *final(self), event, now_millis, r@),
    {
        let mut chat = match &mut self.current_state {
            AppState::Chat(c) => c,
            AppState::Login(_) => return Vec::new(),
        };
        match event {
            TuiEvent::Exit => {
                self.global_state.should_quit = true;
                let r = send_one(Some(ClientPayload::Status(StatusPacket { status: UserStatus::Offline })));
                assert(r@ =~= seq![Command::Send(ClientPayload::Status(StatusPacket { status: UserStatus::Offline }))]);
                r
            },
            TuiEvent::ToggleLogs => {
                self.global_state.show_logs = !self.global_state.show_logs;
                chat.focus = ChatFocus::ChatHistory;
                Vec::new()
            },
            TuiEvent::Log(entry) => {
                self.global_state.logs.push(entry);
                Vec::new()
            },
            TuiEvent::ScrollDown => {
                if chat.focus == ChatFocus::Logs {
                    if self.global_state.log_scroll_offset > 0 {
                        self.global_state.log_scroll_offset = self.global_state.log_scroll_offset - 1;
                    }
                } else {
                    chat.scroll_down();
                }
                Vec::new()
            },
            TuiEvent::ScrollUp => {
                if chat.focus == ChatFocus::Logs {
                    if self.global_state.log_scroll_offset < usize::MAX {
                        self.global_state.log_scroll_offset = self.global_state.log_scroll_offset + 1;
                    }
                } else {
                    chat.scroll_up();
                }
                Vec::new()
            },
            TuiEvent::FocusGained => {
                chat.time_since_last_focused = None;
                chat.current_user.status = UserStatus::Online;
                let r = send_one(Some(ClientPayload::Status(StatusPacket { status: UserStatus::Online })));
                assert(r@ =~= seq![Command::Send(ClientPayload::Status(StatusPacket { status: UserStatus::Online }))]);
                r
            },
            TuiEvent::FocusLost => {
                chat.time_since_last_focused = Some(now_millis);
                Vec::new()
            },
            TuiEvent::IdleUser => {
                chat.current_user.status = UserStatus::Idle;
                let r = send_one(Some(ClientPayload::Status(StatusPacket { status: UserStatus::Idle })));
                assert(r@ =~= seq![Command::Send(ClientPayload::Status(StatusPacket { status: UserStatus::Idle }))]);
                r
            },
            TuiEvent::Reply => {
                chat.reply();
                Vec::new()
            },

            _ => Vec::new(),
        }
    }

    /// Handles an event about the connection itself.
    #[verifier::spinoff_prover]
    #[verifier::rlimit(100)]
    fn chat_connection_event(&mut self, event: TuiEvent, now_millis: u64) -> (r: Vec<Command>)
        requires
            old(self).wf(),
            old(self).current_state is Chat,
            is_connection_event(event),
        ensures
            final(self).wf(),
            chat_event_post(*old(self), *final(self), event, now_millis, r@),
    {
        if let TuiEvent::Logout = event {
            return self.logout();
        }
        let mut chat = match &mut self.current_state {
            AppState::Chat(c) => c,
            AppState::Login(_) => return Vec::new(),
        };
        match event {
            TuiEvent::ChannelIDs(channel_ids) => {
                if channel_ids.len() > 0 {
                    let ghost ids = channel_ids;
                    let r = send_one(Some(ClientPayload::Channels(GetChannelsPacket { channel_ids })));
                    assert(r@ =~= seq![Command::Send(ClientPayload::Channels(GetChannelsPacket { channel_ids: ids }))]);
                    r
                } else {
                    Vec::new()
                }
            },
            TuiEvent::HealthCheckRecv => {
                let mut r: Vec<Command> = Vec::new();
                r.push(Command::Send(ClientPayload::Health(HealthCheckPacket { kind: HealthKind::Pong })));
                r.push(Command::Send(ClientPayload::UserStatuses));
                assert(r@ =~= seq![
                    Command::Send(ClientPayload::Health(HealthCheckPacket { kind: HealthKind::Pong })),
                    Command::Send(ClientPayload::UserStatuses),
                ]);
                r
            },
            TuiEvent::PossiblyUnhealthyConnection => {
                chat.server_connection_status = ServerConnectionStatus::Unhealthy;
                let mut r: Vec<Command> = Vec::new();
                r.push(Command::MarkUnhealthy);
                assert(r@ =~= seq![Command::MarkUnhealthy]);
                r
            },
            TuiEvent::Reconnect => {
                let mut r: Vec<Command> = Vec::new();
                r.push(
                    Command::Reconnect {
                        address: chat.server_address.copied(),
                        username: chat.current_user.username.clone(),
                        password: chat.current_user.password.clone(),
                    },
                );
                r
            },
            TuiEvent::Reconnected(status) => {
                chat.server_connection_status = status;
                Vec::new()
            },
            TuiEvent::Disconnected => {
                let mut r: Vec<Command> = Vec::new();
                if chat.server_connection_status != ServerConnectionStatus::Reconnecting {
                    chat.fail_pending();
                    r.push(Command::Disconnect);
                    chat.server_connection_status = ServerConnectionStatus::Reconnecting;
                    assert(r@ =~= seq![Command::Disconnect]);
                }
                r
            },
            _ => Vec::new(),
        }
    }

    /// Handles data that the server sent.
    #[verifier::spinoff_prover]
    #[verifier::rlimit(100)]
    fn chat_remote_event(&mut self, event: TuiEvent, now_millis: u64) -> (r: Vec<Command>)
        requires
            old(self).wf(),
            old(self).current_state is Chat,
            !is_local_event(event) && !is_connection_event(event),
        ensures
            final(self).wf(),
            chat_event_post(*old(self), *final(self), event, now_millis, r@),
    {
        let now_secs = now_millis / 1000;
        let mut chat = match &mut self.current_state {
            AppState::Chat(c) => c,
            AppState::Login(_) => return Vec::new(),
        };
        match event {
            TuiEvent::MessageSendAck(id) => {
                chat.message_ack(id);
                Vec::new()
            },
            TuiEvent::Channels(channels) => sends(chat.channels_update(channels, now_secs)),
            TuiEvent::UserStatusesUpdate(updates) => send_one(chat.user_statuses_update(&updates)),
            TuiEvent::UserStatusUpdate(user_id, status) => {
                chat.user_status_update(user_id, status);
                Vec::new()
            },
            TuiEvent::Users(users) => {
                chat.users_update(&users);
                Vec::new()
            },
            TuiEvent::HistoryUpdate(messages) => {
                chat.history_update(&messages);
                Vec::new()
            },
            TuiEvent::Typing(channel_id, user_id, is_typing) => {
                chat.typing(channel_id, user_id, is_typing);
                Vec::new()
            },
            _ => Vec::new(),
        }
    }

    /// Handles one event while the chat screen is shown. `now_millis` is the wall-clock time.
    pub fn handle_chat_event(&mut self, event: TuiEvent, now_millis: u64) -> (r: Vec<Command>)
        requires
            old(self).wf(),
            old(self).current_state is Chat,
        ensures
            final(self).wf(),
            chat_event_post(*old(self), *final(self), event, now_millis, r@),
    {
        if event_is_input(&event) {
            self.chat_input_event(event, now_millis)
        } else if event_is_local(&event) {
            self.chat_local_event(event, now_millis)
        } else if event_is_connection(&event) {
            self.chat_connection_event(event, now_millis)
        } else {
            self.chat_remote_event(event, now_millis)
        }
    }
}

impl State {
    /// Leaves the chat for the cached login screen, caching the chat under the user and the
    /// server; messages still waiting for an acknowledgement are marked as failed. Without a
    /// cached login screen the client quits.
    pub fn logout(&mut self) -> (r: Vec<Command>)
        requires
            old(self).wf(),
            old(self).current_state is Chat,
        ensures
            final(self).wf(),
            logout_post(*old(self), *final(self), r@),
    {
        let login = self.take_login();
        match login {
            None => {
                self.global_state.should_quit = true;
                Vec::new()
            },
            Some(login_state) => {
                let mut r: Vec<Command> = Vec::new();
                let mut previous = login_state;
                std::mem::swap(&mut self.current_state, &mut previous);
                match previous {
                    AppState::Chat(mut chat) => {
                        if chat.is_typing && chat.active_channel_idx < chat.channels.len() {
                            r.push(
                                Command::Send(
                                    ClientPayload::Typing(
                                        TypingPacket {
                                            is_typing: false,
                                            channel_id: chat.channels[chat.active_channel_idx].id,
                                        },
                                    ),
                                ),
                            );
                        }
                        let ghost before = chat;
                        chat.fail_pending();
                        r.push(Command::Disconnect);
                        let key = Screen::Chat(
                            chat.current_user.username.clone(),
                            chat.current_user.password.clone(),
                            chat.server_address.ip.clone(),
                            chat.server_address.port,
                        );
                        self.cache(key, AppState::Chat(chat));
                    },
                    AppState::Login(_) => {},
                }
                r
            },
        }
    }

    /// The server accepted the login: the login screen is cached, and the chat of this user on
    /// this server comes back from the cache, or starts empty and asks for channels and statuses.
    pub fn login_success(&mut self, user_id: UserId) -> (r: Vec<Command>)
        requires
            old(self).wf(),
            old(self).current_state is Login,
        ensures
            final(self).wf(),
            login_success_post(*old(self), *final(self), user_id, r@),
    {
        let (username, password, address, snapshot) = match &mut self.current_state {
            AppState::Login(login) => {
                let address = match &login.server_address {
                    Some(a) => a.copied(),
                    None => return Vec::new(),
                };
                login.input_status = InputStatus::AllFine;
                (
                    string_from_chars(&login.username_input),
                    string_from_chars(&login.password_input),
                    address,
                    login.clone(),
                )
            },
            AppState::Chat(_) => return Vec::new(),
        };
        let restored = self.take_chat(&username, &password, &address);
        let ghost rest = self.state_map@;
        self.cache(Screen::Login, AppState::Login(snapshot));
        assert(self.state_map@.skip(1) =~= rest);
        match restored {
            Some(chat) => {
                self.current_state = AppState::Chat(chat);
                Vec::new()
            },
            None => {
                let chat = ChatState {
                    focus: ChatFocus::Channels,
                    channels: Vec::new(),
                    users: Vec::new(),
                    chat_history: Vec::new(),
                    chat_inputs: Vec::new(),
                    active_channel_idx: 0,
                    current_user: UserProfile { user_id, username, password, status: UserStatus::Online },
                    chat_scroll_offset: 0,
                    server_address: address,
                    server_connection_status: ServerConnectionStatus::Connected,
                    waiting_message_acks_id: VecDeque::new(),
                    incrementing_ack_id: FIRST_LOCAL_MESSAGE_ID,
                    users_typing: Vec::new(),
                    is_typing: false,
                    time_since_last_typing: 0,
                    time_since_last_focused: None,
                    replying_to: None,
                };
                proof {
                    assert(sending_ids(chat.chat_history@) =~= Set::<u64>::empty());
                    assert(chat.waiting_message_acks_id@.to_set() =~= Set::<u64>::empty());
                }
                self.current_state = AppState::Chat(chat);
                let mut r: Vec<Command> = Vec::new();
                r.push(Command::Send(ClientPayload::ChannelsList));
                r.push(Command::Send(ClientPayload::UserStatuses));
                assert(r@ =~= seq![Command::Send(ClientPayload::ChannelsList), Command::Send(ClientPayload::UserStatuses)]);
                r
            },
        }
    }

    /// Handles one event while the login screen is shown.
    pub fn handle_login_event(&mut self, event: TuiEvent) -> (r: Vec<Command>)
        requires
            old(self).wf(),
            old(self).current_state is Login,
        ensures
            final(self).wf(),
            login_event_post(*old(self), *final(self), event, r@),
    {
        if let TuiEvent::LoginSuccess(user_id) = event {
            return self.login_success(user_id);
        }
        let login = match &mut self.current_state {
            AppState::Login(l) => l,
            AppState::Chat(_) => return Vec::new(),
        };
        match event {
            TuiEvent::LoginFocusChange(focus) => {
                login.focus = focus;
                Vec::new()
            },
            TuiEvent::InputChar(c) => {
                login.input_char(c);
                Vec::new()
            },
            TuiEvent::InputDelete => {
                login.input_delete();
                Vec::new()
            },
            TuiEvent::InputLeft => {
                login.move_cursor(true, false);
                Vec::new()
            },
            TuiEvent::InputRight => {
                login.move_cursor(false, false);
                Vec::new()
            },
            TuiEvent::InputLeftTab => {
                login.move_cursor(true, true);
                Vec::new()
            },
            TuiEvent::InputRightTab => {
                login.move_cursor(false, true);
                Vec::new()
            },
            TuiEvent::Login => {
                let mut r: Vec<Command> = Vec::new();
                r.push(
                    Command::Connect {
                        address: string_from_chars(&login.server_address_input),
                        enable_tls: login.enable_tls,
                    },
                );
                r
            },
            TuiEvent::Connected(address) => sends(login.connected(address)),
            TuiEvent::ConnectFailed(failure) => {
                login.connect_failed(failure);
                Vec::new()
            },
            TuiEvent::LoginFail(message) => {
                login.input_status = classify_login_failure(&message);
                let mut r: Vec<Command> = Vec::new();
                r.push(Command::Disconnect);
                r
            },
            TuiEvent::ToggleLogs => {
                self.global_state.show_logs = !self.global_state.show_logs;
                Vec::new()
            },
            TuiEvent::Log(entry) => {
                self.global_state.logs.push(entry);
                Vec::new()
            },
            TuiEvent::Exit => {
                self.global_state.should_quit = true;
                Vec::new()
            },
            _ => Vec::new(),
        }
    }

    /// Handles one event on whichever screen is shown, and says what outside work it needs.
    pub fn handle_event(&mut self, event: TuiEvent, now_millis: u64) -> (r: Vec<Command>)
        requires
            old(self).wf(),
        ensures
            final(self).wf(),
            old(self).current_state is Chat ==> chat_event_post(*old(self), *final(self), event, now_millis, r@),
            old(self).current_state is Login ==> login_event_post(*old(self), *final(self), event, r@),
    {
        if matches!(self.current_state, AppState::Chat(_)) {
            self.handle_chat_event(event, now_millis)
        } else {
            self.handle_login_event(event)
        }
    }
}

/// The events of one tick, in the order in which they are raised.
pub open spec fn tick_events(typing_expired: bool, unhealthy: bool, reconnect: bool, idle: bool) -> Seq<TuiEvent> {
    (if typing_expired { seq![TuiEvent::TypingExpired] } else { seq![] }) + (if unhealthy {
        seq![TuiEvent::PossiblyUnhealthyConnection]
    } else {
        seq![]
    }) + (if reconnect { seq![TuiEvent::Reconnect] } else { seq![] }) + (if idle {
        seq![TuiEvent::IdleUser]
    } else {
        seq![]
    })
}

impl State {
    /// The periodic check, every few milliseconds while the chat is shown: the events that time
    /// alone brings about. `last_transmit` is when a frame last went either way;
    /// `last_reconnect` is when a reconnect was last attempted, and is moved to now when this
    /// asks for another one.
    pub fn on_tick(
        &mut self,
        now_millis: u64,
        last_transmit: &InteractedTimeStamp,
        last_reconnect: &mut InteractedTimeStamp,
        client_status: ServerConnectionStatus,
    ) -> (r: Vec<TuiEvent>)
        requires
            old(self).wf(),
        ensures
            final(self).wf(),
            old(self).current_state is Login ==> r@.len() == 0 && *final(last_reconnect) == *old(last_reconnect),
            old(self).current_state matches AppState::Chat(c) ==> {
                let quiet = last_transmit.elapsed_spec(now_millis);
                let typing_expired = c.is_typing && now_millis >= c.time_since_last_typing && now_millis
                    - c.time_since_last_typing > TYPING_EXPIRY_MILLIS;
                let unhealthy = quiet > UNHEALTHY_AFTER_MILLIS && client_status == ServerConnectionStatus::Connected;
                let reconnect = (quiet > RECONNECT_AFTER_MILLIS || client_status
                    == ServerConnectionStatus::Disconnected || client_status == ServerConnectionStatus::Reconnecting)
                    && old(last_reconnect).elapsed_spec(now_millis) > RECONNECT_BACKOFF_MILLIS;
                let idle = c.time_since_last_focused matches Some(t) && now_millis >= t && now_millis - t
                    > USER_TIME_UNTIL_IDLE_MILLIS;
                &&& r@ == tick_events(typing_expired, unhealthy, reconnect, idle)
                &&& (reconnect ==> final(last_reconnect).millis == now_millis)
                &&& (!reconnect ==> *final(last_reconnect) == *old(last_reconnect))
                &&& final(self).current_state == AppState::Chat(
                    ChatState { time_since_last_focused: if idle { None } else { c.time_since_last_focused }, ..c },
                )
            },
            old(self).current_state is Login ==> final(self).current_state == old(self).current_state,
            final(self).state_map@ == old(self).state_map@,
            final(self).global_state == old(self).global_state,
    {
        let mut r: Vec<TuiEvent> = Vec::new();
        let chat = match &mut self.current_state {
            AppState::Chat(c) => c,
            AppState::Login(_) => return r,
        };
        let typing_expired = chat.is_typing && now_millis >= chat.time_since_last_typing && now_millis
            - chat.time_since_last_typing > TYPING_EXPIRY_MILLIS;
        if typing_expired {
            r.push(TuiEvent::TypingExpired);
        }
        let quiet = last_transmit.elapsed(now_millis);
        let unhealthy = quiet > UNHEALTHY_AFTER_MILLIS && client_status == ServerConnectionStatus::Connected;
        if unhealthy {
            r.push(TuiEvent::PossiblyUnhealthyConnection);
        }
        let reconnect = (quiet > RECONNECT_AFTER_MILLIS || client_status == ServerConnectionStatus::Disconnected
            || client_status == ServerConnectionStatus::Reconnecting) && last_reconnect.elapsed(now_millis)
            > RECONNECT_BACKOFF_MILLIS;
        if reconnect {
            last_reconnect.update(now_millis);
            r.push(TuiEvent::Reconnect);
        }
        let idle = match chat.time_since_last_focused {
            Some(t) => now_millis >= t && now_millis - t > USER_TIME_UNTIL_IDLE_MILLIS,
            None => false,
        };
        if idle {
            r.push(TuiEvent::IdleUser);
            chat.time_since_last_focused = None;
        }
        assert(r@ =~= tick_events(typing_expired, unhealthy, reconnect, idle));
        r
    }
}

} // verus!
