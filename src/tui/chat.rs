//! What the chat screen shows: channels, messages and users.
use vstd::prelude::*;

use crate::network::protocol::server::Channel;
use crate::network::protocol::{MediaType, UserStatus};
use crate::tui::events::{ChannelId, MessageId, UserId};

verus! {

#[derive(Clone, Debug)]
pub struct DisplayChannel {
    pub id: ChannelId,
    pub name: String,
    pub status: ChannelStatus,
    pub selection_offset: usize,
}

impl DisplayChannel {
    /// A channel as the server described it, read and with nothing selected.
    pub fn from(channel: Channel) -> (r: DisplayChannel)
        ensures
            r.id == channel.channel_id,
            r.name@ == channel.name@,
            r.status == ChannelStatus::Read,
            r.selection_offset == 0,
    {
        DisplayChannel { id: channel.channel_id, name: channel.name, status: ChannelStatus::Read, selection_offset: 0 }
    }
}

/// A message as the history shows it; `timestamp` is in seconds since the Unix epoch.
#[derive(Debug, Clone)]
pub struct ChatMessage {
    pub message_id: MessageId,
    pub channel_id: ChannelId,
    pub reply_id: MessageId,
    pub author_name: String,
    pub author_id: UserId,
    pub timestamp: i64,
    pub message: String,
    pub status: ChatMessageStatus,
}

#[derive(Debug, Clone)]
pub struct User {
    pub id: UserId,
    pub name: String,
    pub status: UserStatus,
}

#[derive(Debug, Clone, Copy, PartialEq, Eq, Structural)]
pub enum ChatMessageStatus {
    Sending,
    Send,
    FailedToSend,
}

#[derive(Clone, Copy, Debug, PartialEq, Eq, Structural)]
pub enum ChannelStatus {
    Read,
    Unread,
    Muted,
}

#[derive(Debug, Clone)]
pub struct MediaMessage {
    pub filename: String,
    pub media_type: MediaType,
    pub media_data: Vec<u8>,
}

} // verus!
