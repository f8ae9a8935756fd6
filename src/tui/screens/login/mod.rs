//! The login screen's state and how each event changes it.
use vstd::prelude::*;

use crate::network::protocol::client::{ClientPayload, LoginPacket, StatusPacket};
use crate::network::protocol::UserStatus;
use crate::text::string_from_chars;
use crate::tui::events::{ConnectFailure, ServerAddrInfo};

pub mod keys;

verus! {

/// The longest username, in characters.
pub const MAX_USERNAME_LENGTH: usize = 128;

/// The longest password, in characters.
pub const MAX_PASSWORD_LENGTH: usize = 1024;

/// The longest server address, in characters.
pub const MAX_SERVER_ADDRESS_LENGTH: usize = 63;

#[derive(Debug, PartialEq, Eq, Clone, Copy, Structural)]
pub enum LoginFocus {
    UsernameInput(usize),
    PasswordInput(usize),
    ServerAddressInput(usize),
    LoginButton,
    Nothing,
}

#[derive(Clone, Copy, PartialEq, Eq, Debug, Structural)]
pub enum InputStatus {
    AllFine,
    FailedToLogin,
    UserNotFound,
    IncorrectPassword,
    IncorrectUsernameOrPassword,
    ServerNotFound,
    AddressNotParsable,
    UnknownError,
}

#[derive(Clone, Debug)]
pub struct LoginState {
    pub username_input: Vec<char>,
    pub password_input: Vec<char>,
    pub server_address_input: Vec<char>,
    pub server_address: Option<ServerAddrInfo>,
    pub focus: LoginFocus,
    pub input_status: InputStatus,
    pub enable_tls: bool,
}

/// The text that the server sends when the credentials do not match.
pub open spec fn wrong_credentials_text() -> Seq<char> {
    seq!['I', 'n', 'c', 'o', 'r', 'r', 'e', 'c', 't', ' ', 'u', 's', 'e', 'r', 'n', 'a', 'm', 'e', ' ', 'o', 'r', ' ', 'p', 'a', 's', 's', 'w', 'o', 'r', 'd', '.']
}

/// The status that the reason of a failed login gives.
pub open spec fn login_failure_status(message: Seq<char>) -> InputStatus {
    if message == wrong_credentials_text() {
        InputStatus::IncorrectUsernameOrPassword
    } else {
        InputStatus::FailedToLogin
    }
}

/// Reads the reason of a failed login: the server's text for wrong credentials, or anything else.
pub fn classify_login_failure(message: &String) -> (r: InputStatus)
    ensures
        r == login_failure_status(message@),
{
    let expected = "Incorrect username or password.";
    proof {
        reveal_strlit("Incorrect username or password.");
    }
    let known = message.as_str();
    if known.unicode_len() != expected.unicode_len() {
        assert(message@.len() != wrong_credentials_text().len());
        return InputStatus::FailedToLogin;
    }
    let mut i: usize = 0;
    while i < expected.unicode_len()
        invariant
            known@ == message@,
            expected@ == wrong_credentials_text(),
            known@.len() == expected@.len(),
            i <= expected@.len(),
            forall|j: int| 0 <= j < i ==> known@[j] == expected@[j],
        decreases expected@.len() - i,
    {
        if known.get_char(i) != expected.get_char(i) {
            return InputStatus::FailedToLogin;
        }
        i = i + 1;
    }
    assert(message@ =~= wrong_credentials_text());
    InputStatus::IncorrectUsernameOrPassword
}

/// What an input field holds under the cursor focus: the field's text, its cursor, its limit.
pub open spec fn focused_field(s: LoginState) -> Option<(Seq<char>, usize, usize)> {
    match s.focus {
        LoginFocus::UsernameInput(i) => Some((s.username_input@, i, MAX_USERNAME_LENGTH)),
        LoginFocus::PasswordInput(i) => Some((s.password_input@, i, MAX_PASSWORD_LENGTH)),
        LoginFocus::ServerAddressInput(i) => Some((s.server_address_input@, i, MAX_SERVER_ADDRESS_LENGTH)),
        _ => None,
    }
}

/// The focus with its cursor moved to `i`.
pub open spec fn with_cursor(f: LoginFocus, i: usize) -> LoginFocus {
    match f {
        LoginFocus::UsernameInput(_) => LoginFocus::UsernameInput(i),
        LoginFocus::PasswordInput(_) => LoginFocus::PasswordInput(i),
        LoginFocus::ServerAddressInput(_) => LoginFocus::ServerAddressInput(i),
        other => other,
    }
}

fn cursor_to(f: LoginFocus, i: usize) -> (r: LoginFocus)
    ensures
        r == with_cursor(f, i),
{
    match f {
        LoginFocus::UsernameInput(_) => LoginFocus::UsernameInput(i),
        LoginFocus::PasswordInput(_) => LoginFocus::PasswordInput(i),
        LoginFocus::ServerAddressInput(_) => LoginFocus::ServerAddressInput(i),
        other => other,
    }
}

/// What `input_char` does to the state.
pub open spec fn input_char_post(pre: LoginState, post: LoginState, chr: char) -> bool {
    &&& match focused_field(pre) {
            Some((t, i, max)) => if t.len() < max && i <= t.len() {
                &&& post.field_after(pre) == Some(t.insert(i as int, chr))
                &&& post.focus == with_cursor(pre.focus, (i + 1) as usize)
                &&& post.input_status == InputStatus::AllFine
            } else {
                post.focus == pre.focus && post.field_after(pre)
                    == Some(t) && post.input_status == pre.input_status
            },
            None => post.focus == pre.focus && post.input_status
                == pre.input_status,
        }
}

/// What `input_delete` does to the state.
pub open spec fn input_delete_post(pre: LoginState, post: LoginState) -> bool {
    &&& match focused_field(pre) {
            Some((t, i, max)) => if 0 < i <= t.len() {
                &&& post.field_after(pre) == Some(t.remove(i - 1))
                &&& post.focus == with_cursor(pre.focus, (i - 1) as usize)
                &&& post.input_status == InputStatus::AllFine
            } else {
                post.focus == pre.focus && post.field_after(pre) == Some(t)
            },
            None => post.focus == pre.focus,
        }
}

/// What `move_cursor` does to the state.
pub open spec fn move_cursor_post(pre: LoginState, post: LoginState, left: bool, whole: bool) -> bool {
    &&& match focused_field(pre) {
            Some((t, i, _)) => post.focus == with_cursor(
                pre.focus,
                if whole {
                    if left { 0 } else { t.len() as usize }
                } else if left {
                    if i > 0 { (i - 1) as usize } else { i }
                } else {
                    if i < t.len() { (i + 1) as usize } else { i }
                },
            ),
            None => post.focus == pre.focus,
        }
    &&& post.username_input == pre.username_input
    &&& post.password_input == pre.password_input
    &&& post.server_address_input == pre.server_address_input
    &&& post.input_status == pre.input_status
}

/// What `connected` does to the state, and what it returns.
pub open spec fn connected_post(pre: LoginState, post: LoginState, address: ServerAddrInfo, r: Vec<ClientPayload>) -> bool {
    &&& r@.len() == 2
    &&& r@[0] matches ClientPayload::Login(l) && l.username@ == pre.username_input@ && l.password@
        == pre.password_input@
    &&& r@[1] matches ClientPayload::Status(s) && s.status == UserStatus::Online
    &&& post.server_address == Some(address)
    &&& post.username_input == pre.username_input
    &&& post.password_input == pre.password_input
    &&& post.focus == pre.focus
    &&& post.input_status == pre.input_status
}

/// What `connect_failed` does to the state.
pub open spec fn connect_failed_post(pre: LoginState, post: LoginState, failure: ConnectFailure) -> bool {
    &&& post.input_status == (match failure {
            ConnectFailure::AddressNotParsable => InputStatus::AddressNotParsable,
            ConnectFailure::NoAddress => InputStatus::ServerNotFound,
            ConnectFailure::Refused => InputStatus::ServerNotFound,
            ConnectFailure::TlsRequiresDomain => InputStatus::AddressNotParsable,
            ConnectFailure::Other => InputStatus::UnknownError,
        })
}

impl LoginState {
    /// The text of the focused field after an edit.
    pub open spec fn field_after(self, old: LoginState) -> Option<Seq<char>> {
        match self.focus {
            LoginFocus::UsernameInput(_) => Some(self.username_input@),
            LoginFocus::PasswordInput(_) => Some(self.password_input@),
            LoginFocus::ServerAddressInput(_) => Some(self.server_address_input@),
            _ => None,
        }
    }

    fn field_mut_len(&self) -> (r: Option<(usize, usize, usize)>)
        ensures
            match (r, focused_field(*self)) {
                (Some((len, i, max)), Some((t, j, m))) => len == t.len() && i == j && max == m,
                (None, None) => true,
                _ => false,
            },
    {
        match self.focus {
            LoginFocus::UsernameInput(i) => Some((self.username_input.len(), i, MAX_USERNAME_LENGTH)),
            LoginFocus::PasswordInput(i) => Some((self.password_input.len(), i, MAX_PASSWORD_LENGTH)),
            LoginFocus::ServerAddressInput(i) => Some(
                (self.server_address_input.len(), i, MAX_SERVER_ADDRESS_LENGTH),
            ),
            _ => None,
        }
    }

    /// Types a character into the focused field, where it has room; any edit clears the status.
    pub fn input_char(&mut self, chr: char)
        ensures
            input_char_post(*old(self), *final(self), chr),
    {
        let (len, i, max) = match self.field_mut_len() {
            Some(x) => x,
            None => return,
        };
        if len >= max || i > len {
            return;
        }
        match self.focus {
            LoginFocus::UsernameInput(_) => self.username_input.insert(i, chr),
            LoginFocus::PasswordInput(_) => self.password_input.insert(i, chr),
            _ => self.server_address_input.insert(i, chr),
        }
        self.focus = cursor_to(self.focus, i + 1);
        self.input_status = InputStatus::AllFine;
    }

    /// Deletes the character before the cursor in the focused field; any edit clears the status.
    pub fn input_delete(&mut self)
        ensures
            input_delete_post(*old(self), *final(self)),
    {
        let (len, i, _) = match self.field_mut_len() {
            Some(x) => x,
            None => return,
        };
        if i == 0 || i > len {
            return;
        }
        match self.focus {
            LoginFocus::UsernameInput(_) => {
                self.username_input.remove(i - 1);
            },
            LoginFocus::PasswordInput(_) => {
                self.password_input.remove(i - 1);
            },
            _ => {
                self.server_address_input.remove(i - 1);
            },
        }
        self.focus = cursor_to(self.focus, i - 1);
        self.input_status = InputStatus::AllFine;
    }

    /// Moves the cursor: one step left or right, or to the start or the end of the field.
    pub fn move_cursor(&mut self, left: bool, whole: bool)
        ensures
            move_cursor_post(*old(self), *final(self), left, whole),
    {
        let (len, i, _) = match self.field_mut_len() {
            Some(x) => x,
            None => return,
        };
        let target = if whole {
            if left { 0 } else { len }
        } else if left {
            if i > 0 { i - 1 } else { i }
        } else {
            if i < len { i + 1 } else { i }
        };
        self.focus = cursor_to(self.focus, target);
    }

    /// The connection is up: send the credentials, then announce the user as online.
    pub fn connected(&mut self, address: ServerAddrInfo) -> (r: Vec<ClientPayload>)
        ensures
            connected_post(*old(self), *final(self), address, r),
    {
        let username = string_from_chars(&self.username_input);
        let password = string_from_chars(&self.password_input);
        self.server_address = Some(address);
        let mut r: Vec<ClientPayload> = Vec::new();
        r.push(ClientPayload::Login(LoginPacket { username, password }));
        r.push(ClientPayload::Status(StatusPacket { status: UserStatus::Online }));
        r
    }

    /// The connection could not be made; the reason becomes the status shown under the fields.
    pub fn connect_failed(&mut self, failure: ConnectFailure)
        ensures
            connect_failed_post(*old(self), *final(self), failure),
    {
        self.input_status = match failure {
            ConnectFailure::AddressNotParsable => InputStatus::AddressNotParsable,
            ConnectFailure::NoAddress => InputStatus::ServerNotFound,
            ConnectFailure::Refused => InputStatus::ServerNotFound,
            ConnectFailure::TlsRequiresDomain => InputStatus::AddressNotParsable,
            ConnectFailure::Other => InputStatus::UnknownError,
        };
    }
}

} // verus!
