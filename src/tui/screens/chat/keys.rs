//! Keys on the chat screen.
use vstd::prelude::*;

use crate::tui::events::{KeyCode, TerminalEvent, TuiEvent};
use crate::tui::screens::chat::ChatFocus;
use crate::tui::screens::login::keys::{edits, is_letter_key, types};

verus! {

/// The letters that have a command of their own in the history.
pub open spec fn opens_other(c: char) -> bool {
    c == 'q' || c == 'Q' || c == 'l' || c == 'L' || c == 'x' || c == 'X' || c == 's' || c == 'S'
}

/// The event moves the chat focus to `f`.
pub open spec fn focuses(r: Option<TuiEvent>, f: ChatFocus) -> bool {
    r matches Some(TuiEvent::ChatFocusChange(g)) && g == f
}

/// The event that a key press, or a change of terminal focus, stands for on the chat screen.
/// `show_logs` says whether the log pane is open.
pub fn handle_chat_key_event(event: TerminalEvent, focus: ChatFocus, show_logs: bool) -> (r: Option<TuiEvent>)
    ensures
        event == TerminalEvent::FocusLost ==> r matches Some(TuiEvent::FocusLost),
        event == TerminalEvent::FocusGained ==> r matches Some(TuiEvent::FocusGained),
        event == TerminalEvent::Other ==> r is None,
        event matches TerminalEvent::Key(k) ==> {
            &&& (!(focus is ChatInput) && is_letter_key(k.code, 'q', 'Q') ==> r matches Some(TuiEvent::Exit))
            &&& (!(focus is ChatInput) && is_letter_key(k.code, 'l', 'L') ==> r matches Some(TuiEvent::ToggleLogs))
            &&& (!(focus is ChatInput) && !(focus is Users) && is_letter_key(k.code, 'x', 'X') ==> r matches Some(
                TuiEvent::Logout,
            ))
            &&& match focus {
                ChatFocus::Channels => {
                    &&& (k.code == KeyCode::Up ==> r matches Some(TuiEvent::ChannelUp))
                    &&& (k.code == KeyCode::Down ==> r matches Some(TuiEvent::ChannelDown))
                    &&& (k.code == KeyCode::Right || k.code == KeyCode::Enter ==> focuses(r, ChatFocus::ChatHistory))
                },
                ChatFocus::ChatHistory => {
                    &&& (k.code == KeyCode::Up ==> r matches Some(TuiEvent::ScrollUp))
                    &&& (k.code == KeyCode::Down ==> r matches Some(TuiEvent::ScrollDown))
                    &&& (k.code == KeyCode::Left ==> focuses(r, ChatFocus::Channels))
                    &&& (is_letter_key(k.code, 's', 'S') ==> focuses(r, ChatFocus::ChatHistorySelection))
                    &&& (k.code == KeyCode::Enter ==> focuses(r, ChatFocus::ChatInput(0)))
                    &&& (k.code matches KeyCode::Char(c) && !opens_other(c) ==> focuses(r, ChatFocus::ChatInput(0)))
                },
                ChatFocus::ChatHistorySelection => {
                    &&& (k.code == KeyCode::Up ==> r matches Some(TuiEvent::ScrollUp))
                    &&& (k.code == KeyCode::Down ==> r matches Some(TuiEvent::ScrollDown))
                    &&& (is_letter_key(k.code, 'r', 'R') ==> r matches Some(TuiEvent::Reply))
                    &&& (k.code == KeyCode::Esc ==> focuses(r, ChatFocus::ChatHistory))
                },
                ChatFocus::ChatInput(_) => {
                    &&& edits(k, r)
                    &&& (k.code == KeyCode::Enter ==> r matches Some(TuiEvent::MessageSend))
                    &&& (k.code == KeyCode::Esc || k.code == KeyCode::Up ==> focuses(r, ChatFocus::ChatHistory))
                    &&& (k.code == KeyCode::Backspace ==> r matches Some(TuiEvent::InputDelete))
                    &&& (k.code matches KeyCode::Char(c) ==> types(r, c))
                },
                ChatFocus::Users(_) => {
                    &&& (k.code == KeyCode::Up ==> r matches Some(TuiEvent::ScrollUp))
                    &&& (k.code == KeyCode::Down ==> r matches Some(TuiEvent::ScrollDown))
                },
                ChatFocus::Logs => {
                    &&& (k.code == KeyCode::Up ==> r matches Some(TuiEvent::ScrollUp))
                    &&& (k.code == KeyCode::Down ==> r matches Some(TuiEvent::ScrollDown))
                },
            }
        },
{
    let key = match event {
        TerminalEvent::Key(k) => k,
        TerminalEvent::FocusLost => return Some(TuiEvent::FocusLost),
        TerminalEvent::FocusGained => return Some(TuiEvent::FocusGained),
        TerminalEvent::Other => return None,
    };
    match focus {
        ChatFocus::Channels => match key.code {
            KeyCode::Up => Some(TuiEvent::ChannelUp),
            KeyCode::Down => Some(TuiEvent::ChannelDown),
            KeyCode::Right | KeyCode::Enter => Some(TuiEvent::ChatFocusChange(ChatFocus::ChatHistory)),
            KeyCode::Char('q') | KeyCode::Char('Q') => Some(TuiEvent::Exit),
            KeyCode::Char('l') | KeyCode::Char('L') => Some(TuiEvent::ToggleLogs),
            KeyCode::Char('x') | KeyCode::Char('X') => Some(TuiEvent::Logout),
            _ => None,
        },
        ChatFocus::ChatHistory => match key.code {
            KeyCode::Left => Some(TuiEvent::ChatFocusChange(ChatFocus::Channels)),
            KeyCode::Right => if show_logs {
                Some(TuiEvent::ChatFocusChange(ChatFocus::Logs))
            } else {
                Some(TuiEvent::ChatFocusChange(ChatFocus::Users(0)))
            },
            KeyCode::Up => Some(TuiEvent::ScrollUp),
            KeyCode::Down => Some(TuiEvent::ScrollDown),
            KeyCode::Char('s') | KeyCode::Char('S') => Some(TuiEvent::ChatFocusChange(ChatFocus::ChatHistorySelection)),
            KeyCode::Char('q') | KeyCode::Char('Q') => Some(TuiEvent::Exit),
            KeyCode::Char('l') | KeyCode::Char('L') => Some(TuiEvent::ToggleLogs),
            KeyCode::Char('x') | KeyCode::Char('X') => Some(TuiEvent::Logout),
            KeyCode::Char(_) | KeyCode::Enter => Some(TuiEvent::ChatFocusChange(ChatFocus::ChatInput(0))),
            _ => None,
        },
        ChatFocus::ChatHistorySelection => match key.code {
            KeyCode::Left => Some(TuiEvent::ChatFocusChange(ChatFocus::Channels)),
            KeyCode::Right => if show_logs {
                Some(TuiEvent::ChatFocusChange(ChatFocus::Logs))
            } else {
                Some(TuiEvent::ChatFocusChange(ChatFocus::Users(0)))
            },
            KeyCode::Up => Some(TuiEvent::ScrollUp),
            KeyCode::Down => Some(TuiEvent::ScrollDown),
            KeyCode::Char('s') | KeyCode::Char('S') | KeyCode::Esc => Some(
                TuiEvent::ChatFocusChange(ChatFocus::ChatHistory),
            ),
            KeyCode::Char('r') | KeyCode::Char('R') => Some(TuiEvent::Reply),
            KeyCode::Char('q') | KeyCode::Char('Q') => Some(TuiEvent::Exit),
            KeyCode::Char('l') | KeyCode::Char('L') => Some(TuiEvent::ToggleLogs),
            KeyCode::Char('x') | KeyCode::Char('X') => Some(TuiEvent::Logout),
            KeyCode::Char(_) | KeyCode::Enter => Some(TuiEvent::ChatFocusChange(ChatFocus::ChatInput(0))),
            _ => None,
        },
        ChatFocus::ChatInput(_) => match key.code {
            KeyCode::Up | KeyCode::Esc => Some(TuiEvent::ChatFocusChange(ChatFocus::ChatHistory)),
            KeyCode::Left => if key.ctrl {
                Some(TuiEvent::InputLeftTab)
            } else {
                Some(TuiEvent::InputLeft)
            },
            KeyCode::Right => if key.ctrl {
                Some(TuiEvent::InputRightTab)
            } else {
                Some(TuiEvent::InputRight)
            },
            KeyCode::Enter => Some(TuiEvent::MessageSend),
            KeyCode::Char(c) => Some(TuiEvent::InputChar(c)),
            KeyCode::Backspace => Some(TuiEvent::InputDelete),
            _ => None,
        },
        ChatFocus::Users(_) => match key.code {
            KeyCode::Left => if show_logs {
                Some(TuiEvent::ChatFocusChange(ChatFocus::Logs))
            } else {
                Some(TuiEvent::ChatFocusChange(ChatFocus::ChatHistory))
            },
            KeyCode::Up => Some(TuiEvent::ScrollUp),
            KeyCode::Down => Some(TuiEvent::ScrollDown),
            KeyCode::Char('v') | KeyCode::Char('V') => Some(TuiEvent::ViewUsers),
            KeyCode::Char('q') | KeyCode::Char('Q') => Some(TuiEvent::Exit),
            KeyCode::Char('l') | KeyCode::Char('L') => Some(TuiEvent::ToggleLogs),
            KeyCode::Char(_) => Some(TuiEvent::ChatFocusChange(ChatFocus::ChatInput(0))),
            _ => None,
        },
        ChatFocus::Logs => match key.code {
            KeyCode::Left => Some(TuiEvent::ChatFocusChange(ChatFocus::ChatHistory)),
            KeyCode::Right => Some(TuiEvent::ChatFocusChange(ChatFocus::Users(0))),
            KeyCode::Up => Some(TuiEvent::ScrollUp),
            KeyCode::Down => Some(TuiEvent::ScrollDown),
            KeyCode::Char('q') | KeyCode::Char('Q') => Some(TuiEvent::Exit),
            KeyCode::Char('l') | KeyCode::Char('L') => Some(TuiEvent::ToggleLogs),
            KeyCode::Char('x') | KeyCode::Char('X') => Some(TuiEvent::Logout),
            KeyCode::Char(_) => Some(TuiEvent::ChatFocusChange(ChatFocus::ChatInput(0))),
            _ => None,
        },
    }
}

} // verus!
