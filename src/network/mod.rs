//! What the client makes of each server payload.
use vstd::prelude::*;

use crate::network::protocol::server::{HealthKind, ReturnStatus, ServerPayload};
use crate::tui::chat::MediaMessage;
use crate::tui::events::TuiEvent;

pub mod client;
pub mod protocol;

verus! {

/// Why a payload gives no event.
#[derive(Debug, Clone)]
pub enum PayloadError {
    /// A pong, which only servers receive.
    UnexpectedPong,
    /// The notification status on a reply other than history.
    UnexpectedNotification,
    /// The server reports that a request failed, with its message where it sent one.
    RequestFailed(Option<String>),
}

impl PayloadError {
    /// Whether the payload breaks the protocol, so that the connection cannot be trusted.
    pub fn is_protocol_error(&self) -> (r: bool)
        ensures
            r == !(self is RequestFailed),
    {
        !matches!(self, PayloadError::RequestFailed(_))
    }
}

/// The outcome of a status for a reply: success gives the event, failure the server's
/// message, and a notification is legal on history replies only.
pub open spec fn status_outcome(status: ReturnStatus, notification_ok: bool) -> int {
    match status {
        ReturnStatus::Success => 0,
        ReturnStatus::Failed => 1,
        ReturnStatus::Notification => if notification_ok { 0 } else { 2 },
    }
}

/// The kind of result that a payload gives: 0 an event, 1 a failed request, 2 a protocol error.
pub open spec fn result_kind(r: Result<TuiEvent, PayloadError>) -> int {
    match r {
        Ok(_) => 0,
        Err(PayloadError::RequestFailed(_)) => 1,
        Err(_) => 2,
    }
}

/// Turns a payload that the server sent into the event that it stands for.
pub fn handle_message(payload: ServerPayload) -> (r: Result<TuiEvent, PayloadError>)
    ensures
        match payload {
            ServerPayload::Health(p) => if p.kind == HealthKind::Ping {
                r matches Ok(TuiEvent::HealthCheckRecv)
            } else {
                r matches Err(PayloadError::UnexpectedPong)
            },
            ServerPayload::Login(p) => match p.status {
                ReturnStatus::Success => r matches Ok(TuiEvent::LoginSuccess(id)) && id == 0,
                ReturnStatus::Failed => match p.error_message {
                    Some(m) => r matches Ok(TuiEvent::LoginFail(n)) && n@ == m@,
                    None => result_kind(r) == 1,
                },
                ReturnStatus::Notification => r matches Err(PayloadError::UnexpectedNotification),
            },
            ServerPayload::SendMessageAck(p) => result_kind(r) == status_outcome(p.status, false) && (
            p.status == ReturnStatus::Success ==> (r matches Ok(TuiEvent::MessageSendAck(id)) && id
                == p.message_id)),
            ServerPayload::SendMediaAck(p) => result_kind(r) == status_outcome(p.status, false) && (p.status
                == ReturnStatus::Success ==> (r matches Ok(TuiEvent::MessageMediaAck(id)) && id == p.media_id)),
            ServerPayload::Channels(p) => result_kind(r) == status_outcome(p.status, false) && (p.status
                == ReturnStatus::Success ==> (r matches Ok(TuiEvent::Channels(cs)) && cs == p.channels)),
            ServerPayload::ChannelsList(p) => result_kind(r) == status_outcome(p.status, false) && (p.status
                == ReturnStatus::Success ==> (r matches Ok(TuiEvent::ChannelIDs(ids)) && ids@ == p.channel_ids@)),
            ServerPayload::UserStatuses(p) => result_kind(r) == status_outcome(p.status, false) && (p.status
                == ReturnStatus::Success ==> (r matches Ok(TuiEvent::UserStatusesUpdate(u)) && u@ == p.users@)),
            ServerPayload::Users(p) => result_kind(r) == status_outcome(p.status, false) && (p.status
                == ReturnStatus::Success ==> (r matches Ok(TuiEvent::Users(us)) && us == p.users)),
            ServerPayload::History(p) => result_kind(r) == status_outcome(p.status, true) && (p.status
                != ReturnStatus::Failed ==> (r matches Ok(TuiEvent::HistoryUpdate(ms)) && ms == p.messages)),
            ServerPayload::Media(p) => result_kind(r) == status_outcome(p.status, false) && (p.status
                == ReturnStatus::Success ==> (r matches Ok(TuiEvent::Media(m)) && m.filename == p.filename
                && m.media_type == p.media_type && m.media_data == p.media_data)),
            ServerPayload::Typing(p) => r matches Ok(TuiEvent::Typing(c, u, t)) && c == p.channel_id && u
                == p.user_id && t == p.is_typing,
            ServerPayload::Status(p) => r matches Ok(TuiEvent::UserStatusUpdate(u, s)) && u == p.user_id && s
                == p.status,
        },
{
    match payload {
        ServerPayload::Health(p) => match p.kind {
            HealthKind::Ping => Ok(TuiEvent::HealthCheckRecv),
            HealthKind::Pong => Err(PayloadError::UnexpectedPong),
        },
        ServerPayload::Login(p) => match p.status {
            ReturnStatus::Success => Ok(TuiEvent::LoginSuccess(0)),
            ReturnStatus::Failed => match p.error_message {
                Some(m) => Ok(TuiEvent::LoginFail(m)),
                None => Err(PayloadError::RequestFailed(None)),
            },
            ReturnStatus::Notification => Err(PayloadError::UnexpectedNotification),
        },
        ServerPayload::SendMessageAck(p) => match p.status {
            ReturnStatus::Success => Ok(TuiEvent::MessageSendAck(p.message_id)),
            ReturnStatus::Failed => Err(PayloadError::RequestFailed(p.error_message)),
            ReturnStatus::Notification => Err(PayloadError::UnexpectedNotification),
        },
        ServerPayload::SendMediaAck(p) => match p.status {
            ReturnStatus::Success => Ok(TuiEvent::MessageMediaAck(p.media_id)),
            ReturnStatus::Failed => Err(PayloadError::RequestFailed(p.error_message)),
            ReturnStatus::Notification => Err(PayloadError::UnexpectedNotification),
        },
        ServerPayload::Channels(p) => match p.status {
            ReturnStatus::Success => Ok(TuiEvent::Channels(p.channels)),
            ReturnStatus::Failed => Err(PayloadError::RequestFailed(p.error_message)),
            ReturnStatus::Notification => Err(PayloadError::UnexpectedNotification),
        },
        ServerPayload::ChannelsList(p) => match p.status {
            ReturnStatus::Success => Ok(TuiEvent::ChannelIDs(p.channel_ids)),
            ReturnStatus::Failed => Err(PayloadError::RequestFailed(p.error_message)),
            ReturnStatus::Notification => Err(PayloadError::UnexpectedNotification),
        },
        ServerPayload::UserStatuses(p) => match p.status {
            ReturnStatus::Success => Ok(TuiEvent::UserStatusesUpdate(p.users)),
            ReturnStatus::Failed => Err(PayloadError::RequestFailed(p.error_message)),
            ReturnStatus::Notification => Err(PayloadError::UnexpectedNotification),
        },
        ServerPayload::Users(p) => match p.status {
            ReturnStatus::Success => Ok(TuiEvent::Users(p.users)),
            ReturnStatus::Failed => Err(PayloadError::RequestFailed(p.error_message)),
            ReturnStatus::Notification => Err(PayloadError::UnexpectedNotification),
        },
        ServerPayload::History(p) => match p.status {
            ReturnStatus::Success | ReturnStatus::Notification => Ok(TuiEvent::HistoryUpdate(p.messages)),
            ReturnStatus::Failed => Err(PayloadError::RequestFailed(p.error_message)),
        },
        ServerPayload::Media(p) => match p.status {
            ReturnStatus::Success => Ok(
                TuiEvent::Media(
                    MediaMessage { filename: p.filename, media_type: p.media_type, media_data: p.media_data },
                ),
            ),
            ReturnStatus::Failed => Err(PayloadError::RequestFailed(p.error_message)),
            ReturnStatus::Notification => Err(PayloadError::UnexpectedNotification),
        },
        ServerPayload::Typing(p) => Ok(TuiEvent::Typing(p.channel_id, p.user_id, p.is_typing)),
        ServerPayload::Status(p) => Ok(TuiEvent::UserStatusUpdate(p.user_id, p.status)),
    }
}

} // verus!
