//! Everything that can happen to the client, as one event type.
use vstd::prelude::*;

use crate::network::client::{ConnectionType, ServerConnectionStatus};
use crate::network::protocol::server::{Channel, HistoryMessage, UserData};
use crate::network::protocol::UserStatus;
use crate::tui::chat::MediaMessage;
use crate::tui::logs::LogEntry;
use crate::tui::screens::chat::ChatFocus;
use crate::tui::screens::login::LoginFocus;

verus! {

pub type UserId = u64;

pub type ChannelId = u64;

pub type MessageId = u64;

pub type MediaId = u64;

pub type ProfilePicId = u64;

pub type IconId = u64;

/// A server that an address resolved to. `ip` is its textual form; `domain` is the name that
/// was resolved, where one was.
#[derive(Debug, Clone)]
pub struct ServerAddrInfo {
    pub ip: String,
    pub port: u16,
    pub domain: Option<String>,
    pub connection_type: ConnectionType,
}

impl ServerAddrInfo {
    /// A copy of the address.
    pub fn copied(&self) -> (r: ServerAddrInfo)
        ensures
            r == *self,
    {
        let domain = match &self.domain {
            Some(d) => Some(d.clone()),
            None => None,
        };
        ServerAddrInfo { ip: self.ip.clone(), port: self.port, domain, connection_type: self.connection_type }
    }
}

/// Why a connection attempt failed.
#[derive(Debug, Clone, Copy, PartialEq, Eq, Structural)]
pub enum ConnectFailure {
    /// The address text is neither a socket address nor a name that resolves.
    AddressNotParsable,
    /// The name resolved to no address.
    NoAddress,
    /// TLS was asked for with a bare IP address.
    TlsRequiresDomain,
    /// The server refused, or the address was invalid.
    Refused,
    /// Anything else.
    Other,
}

/// A key as the terminal reports it.
#[derive(Debug, Clone, Copy, PartialEq, Eq, Structural)]
pub enum KeyCode {
    Char(char),
    Up,
    Down,
    Left,
    Right,
    Enter,
    Tab,
    BackTab,
    Backspace,
    Esc,
    Other,
}

/// A key press, with whether Control was held.
#[derive(Debug, Clone, Copy, PartialEq, Eq, Structural)]
pub struct KeyPress {
    pub code: KeyCode,
    pub ctrl: bool,
}

/// What the terminal reports.
#[derive(Debug, Clone, Copy, PartialEq, Eq, Structural)]
pub enum TerminalEvent {
    Key(KeyPress),
    FocusGained,
    FocusLost,
    Other,
}

#[derive(Debug)]
pub enum TuiEvent {
    Log(LogEntry),
    Exit,
    ChannelUp,
    ChannelDown,
    ChatFocusChange(ChatFocus),
    LoginFocusChange(LoginFocus),
    InputRight,
    InputRightTab,
    InputLeft,
    InputLeftTab,
    InputChar(char),
    InputDelete,
    MessageSend,
    ToggleLogs,
    LoginSuccess(UserId),
    Login,
    Logout,
    LoginFail(String),
    HealthCheckRecv,
    Disconnected,
    Channels(Vec<Channel>),
    ChannelIDs(Vec<ChannelId>),
    ScrollUp,
    ScrollDown,
    UserStatusesUpdate(Vec<(UserId, UserStatus)>),
    UserStatusUpdate(UserId, UserStatus),
    Users(Vec<UserData>),
    HistoryUpdate(Vec<HistoryMessage>),
    MessageSendAck(MessageId),
    MessageMediaAck(MediaId),
    Media(MediaMessage),
    Typing(ChannelId, UserId, bool),
    TypingExpired,
    PossiblyUnhealthyConnection,
    Reconnect,
    FocusGained,
    FocusLost,
    IdleUser,
    Reply,
    ViewUsers,
    /// The connection that a `Login` asked for is up.
    Connected(ServerAddrInfo),
    /// The connection that a `Login` asked for could not be made.
    ConnectFailed(ConnectFailure),
    /// A reconnect finished with the connection in this state.
    Reconnected(ServerConnectionStatus),
}

impl TuiEvent {
    pub fn from_log(log: LogEntry) -> (r: TuiEvent)
        ensures
            r matches TuiEvent::Log(l) && l == log,
    {
        TuiEvent::Log(log)
    }
}

} // verus!
