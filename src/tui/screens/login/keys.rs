//! Keys on the login screen.
use vstd::prelude::*;

use crate::tui::events::{KeyCode, KeyPress, TerminalEvent, TuiEvent};
use crate::tui::screens::login::LoginFocus;

verus! {

/// Whether the key is `c` in either case.
pub open spec fn is_letter_key(code: KeyCode, lower: char, upper: char) -> bool {
    code == KeyCode::Char(lower) || code == KeyCode::Char(upper)
}

/// Tab, Enter and Down.
pub open spec fn forward_key(code: KeyCode) -> bool {
    code == KeyCode::Tab || code == KeyCode::Enter || code == KeyCode::Down
}

/// BackTab and Up.
pub open spec fn backward_key(code: KeyCode) -> bool {
    code == KeyCode::BackTab || code == KeyCode::Up
}

/// The editing keys of an input line: Left and Right move by a character, or to the word
/// boundary with Control held; Backspace deletes.
pub open spec fn edits(k: KeyPress, r: Option<TuiEvent>) -> bool {
    &&& (k.code == KeyCode::Left && k.ctrl ==> r matches Some(TuiEvent::InputLeftTab))
    &&& (k.code == KeyCode::Left && !k.ctrl ==> r matches Some(TuiEvent::InputLeft))
    &&& (k.code == KeyCode::Right && k.ctrl ==> r matches Some(TuiEvent::InputRightTab))
    &&& (k.code == KeyCode::Right && !k.ctrl ==> r matches Some(TuiEvent::InputRight))
    &&& (k.code == KeyCode::Backspace ==> r matches Some(TuiEvent::InputDelete))
}

/// The event moves the login focus to `f`.
pub open spec fn moves_to(r: Option<TuiEvent>, f: LoginFocus) -> bool {
    r matches Some(TuiEvent::LoginFocusChange(g)) && g == f
}

/// The event types the character `c`.
pub open spec fn types(r: Option<TuiEvent>, c: char) -> bool {
    r matches Some(TuiEvent::InputChar(d)) && d == c
}

/// The event that a key press stands for on the login screen. The fields are visited in the
/// order username, password, server address, login button: Tab, Enter and Down go forward,
/// BackTab and Up go back.
pub fn handle_login_key_event(event: TerminalEvent, focus: LoginFocus) -> (r: Option<TuiEvent>)
    ensures
        !(event is Key) ==> r is None,
        event matches TerminalEvent::Key(k) ==> match focus {
            LoginFocus::UsernameInput(i) => {
                &&& edits(k, r)
                &&& (k.code == KeyCode::Esc ==> moves_to(r, LoginFocus::Nothing))
                &&& (forward_key(k.code) ==> moves_to(r, LoginFocus::PasswordInput(i)))
                &&& (k.code matches KeyCode::Char(c) ==> types(r, c))
            },
            LoginFocus::PasswordInput(i) => {
                &&& edits(k, r)
                &&& (k.code == KeyCode::Esc ==> moves_to(r, LoginFocus::Nothing))
                &&& (forward_key(k.code) ==> moves_to(r, LoginFocus::ServerAddressInput(i)))
                &&& (backward_key(k.code) ==> moves_to(r, LoginFocus::UsernameInput(i)))
                &&& (k.code matches KeyCode::Char(c) ==> types(r, c))
            },
            LoginFocus::ServerAddressInput(i) => {
                &&& edits(k, r)
                &&& (k.code == KeyCode::Esc ==> moves_to(r, LoginFocus::Nothing))
                &&& (forward_key(k.code) ==> moves_to(r, LoginFocus::LoginButton))
                &&& (backward_key(k.code) ==> moves_to(r, LoginFocus::PasswordInput(i)))
                &&& (k.code matches KeyCode::Char(c) ==> types(r, c))
            },
            LoginFocus::LoginButton => {
                &&& (k.code == KeyCode::Enter ==> r matches Some(TuiEvent::Login))
                &&& (is_letter_key(k.code, 'q', 'Q') ==> r matches Some(TuiEvent::Exit))
                &&& (is_letter_key(k.code, 'l', 'L') ==> r matches Some(TuiEvent::ToggleLogs))
            },
            LoginFocus::Nothing => {
                &&& (is_letter_key(k.code, 'q', 'Q') ==> r matches Some(TuiEvent::Exit))
                &&& (is_letter_key(k.code, 'l', 'L') ==> r matches Some(TuiEvent::ToggleLogs))
            },
        },
{
    let key = match event {
        TerminalEvent::Key(k) => k,
        _ => return None,
    };
    match focus {
        LoginFocus::UsernameInput(idx) => match key.code {
            KeyCode::Left => if key.ctrl {
                Some(TuiEvent::InputLeftTab)
            } else {
                Some(TuiEvent::InputLeft)
            },
            KeyCode::Right => if key.ctrl {
                Some(TuiEvent::InputRightTab)
            } else {
                Some(TuiEvent::InputRight)
            },
            KeyCode::Down | KeyCode::Tab | KeyCode::Enter => Some(
                TuiEvent::LoginFocusChange(LoginFocus::PasswordInput(idx)),
            ),
            KeyCode::Backspace => Some(TuiEvent::InputDelete),
            KeyCode::Esc => Some(TuiEvent::LoginFocusChange(LoginFocus::Nothing)),
            KeyCode::Char(c) => Some(TuiEvent::InputChar(c)),
            _ => None,
        },
        LoginFocus::PasswordInput(idx) => match key.code {
            KeyCode::Up | KeyCode::BackTab => Some(TuiEvent::LoginFocusChange(LoginFocus::UsernameInput(idx))),
            KeyCode::Down | KeyCode::Tab | KeyCode::Enter => Some(
                TuiEvent::LoginFocusChange(LoginFocus::ServerAddressInput(idx)),
            ),
            KeyCode::Left => if key.ctrl {
                Some(TuiEvent::InputLeftTab)
            } else {
                Some(TuiEvent::InputLeft)
            },
            KeyCode::Right => if key.ctrl {
                Some(TuiEvent::InputRightTab)
            } else {
                Some(TuiEvent::InputRight)
            },
            KeyCode::Backspace => Some(TuiEvent::InputDelete),
            KeyCode::Esc => Some(TuiEvent::LoginFocusChange(LoginFocus::Nothing)),
            KeyCode::Char(c) => Some(TuiEvent::InputChar(c)),
            _ => None,
        },
        LoginFocus::ServerAddressInput(idx) => match key.code {
            KeyCode::Up | KeyCode::BackTab => Some(TuiEvent::LoginFocusChange(LoginFocus::PasswordInput(idx))),
            KeyCode::Down | KeyCode::Tab | KeyCode::Enter => Some(TuiEvent::LoginFocusChange(LoginFocus::LoginButton)),
            KeyCode::Left => if key.ctrl {
                Some(TuiEvent::InputLeftTab)
            } else {
                Some(TuiEvent::InputLeft)
            },
            KeyCode::Right => if key.ctrl {
                Some(TuiEvent::InputRightTab)
            } else {
                Some(TuiEvent::InputRight)
            },
            KeyCode::Backspace => Some(TuiEvent::InputDelete),
            KeyCode::Esc => Some(TuiEvent::LoginFocusChange(LoginFocus::Nothing)),
            KeyCode::Char(c) => Some(TuiEvent::InputChar(c)),
            _ => None,
        },
        LoginFocus::LoginButton => match key.code {
            KeyCode::Char('q') | KeyCode::Char('Q') => Some(TuiEvent::Exit),
            KeyCode::Char('l') | KeyCode::Char('L') => Some(TuiEvent::ToggleLogs),
            KeyCode::Up | KeyCode::BackTab => Some(TuiEvent::LoginFocusChange(LoginFocus::ServerAddressInput(0))),
            KeyCode::Esc => Some(TuiEvent::LoginFocusChange(LoginFocus::Nothing)),
            KeyCode::Enter => Some(TuiEvent::Login),
            _ => None,
        },
        LoginFocus::Nothing => match key.code {
            KeyCode::Char('q') | KeyCode::Char('Q') => Some(TuiEvent::Exit),
            KeyCode::Char('l') | KeyCode::Char('L') => Some(TuiEvent::ToggleLogs),
            KeyCode::Char(_) | KeyCode::Tab | KeyCode::Up | KeyCode::Down | KeyCode::Left | KeyCode::Right
            | KeyCode::Enter => Some(TuiEvent::LoginFocusChange(LoginFocus::UsernameInput(0))),
            _ => None,
        },
    }
}

} // verus!
