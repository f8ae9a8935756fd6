//! The chat screen's state and how each event changes it.
use vstd::prelude::*;
use std::collections::VecDeque;

use crate::network::client::ServerConnectionStatus;
use crate::network::protocol::client::{
    Anchor, ClientPayload, GetChannelsPacket, GetHistoryPacket, GetUsersPacket, SendMessagePacket, StatusPacket,
    TypingPacket,
};
use crate::network::protocol::server::{Channel, HealthCheckPacket, HealthKind, UserData};
use crate::network::protocol::UserStatus;
use crate::tui::chat::{ChatMessage, ChatMessageStatus, DisplayChannel, User};
use crate::network::protocol::server::HistoryMessage;
use crate::text::{blank, is_blank, server_timestamp_valid, string_from_chars, timestamp_ok};
use crate::tui::events::{ChannelId, MessageId, ServerAddrInfo, UserId};

pub mod keys;

verus! {

/// The first id that locally sent messages are numbered from, until the server acknowledges them.
pub const FIRST_LOCAL_MESSAGE_ID: u64 = 100000;

/// How long after the last keystroke the user still counts as typing, in milliseconds.
pub const TYPING_EXPIRY_MILLIS: u64 = 2000;

#[derive(Clone, Debug)]
pub struct UserProfile {
    pub user_id: UserId,
    pub username: String,
    pub password: String,
    pub status: UserStatus,
}

#[derive(Debug, PartialEq, Eq, Clone, Copy, Structural)]
pub enum ChatFocus {
    Channels,
    ChatHistory,
    ChatHistorySelection,
    ChatInput(usize),
    Users(usize),
    Logs,
}

/// The line being written in one channel.
#[derive(Clone, Debug)]
pub struct ChatInput {
    pub channel_id: ChannelId,
    pub text: Vec<char>,
}

/// A user who is typing in a channel.
#[derive(Clone, Debug)]
pub struct TypingUser {
    pub channel_id: ChannelId,
    pub user_id: UserId,
    pub name: String,
}

/// The chat screen. The history of every channel is kept in `chat_history`, in order of arrival;
/// the history of one channel is the messages with its `channel_id`. Times are milliseconds of
/// wall-clock time, as the caller of each event handler gives them.
#[derive(Clone, Debug)]
pub struct ChatState {
    pub focus: ChatFocus,
    pub channels: Vec<DisplayChannel>,
    pub users: Vec<User>,
    pub chat_history: Vec<ChatMessage>,
    pub chat_inputs: Vec<ChatInput>,
    pub active_channel_idx: usize,
    pub current_user: UserProfile,
    pub chat_scroll_offset: usize,
    pub server_address: ServerAddrInfo,
    pub server_connection_status: ServerConnectionStatus,
    pub waiting_message_acks_id: VecDeque<MessageId>,
    pub incrementing_ack_id: MessageId,
    pub users_typing: Vec<TypingUser>,
    pub is_typing: bool,
    pub time_since_last_typing: u64,
    pub time_since_last_focused: Option<u64>,
    pub replying_to: Option<ChatMessage>,
}

/// The ids of the messages that wait for the server's acknowledgement.
pub open spec fn sending_ids(h: Seq<ChatMessage>) -> Set<MessageId> {
    Set::new(
        |id: MessageId|
            exists|i: int| 0 <= i < h.len() && h[i].status == ChatMessageStatus::Sending && h[i].message_id == id,
    )
}

/// No two messages of one channel share an id.
pub open spec fn history_unique(h: Seq<ChatMessage>) -> bool {
    forall|i: int, j: int|
        0 <= i < h.len() && 0 <= j < h.len() && i != j && h[i].channel_id == h[j].channel_id ==> h[i].message_id
            != h[j].message_id
}

/// Whether a channel's history holds a message with this id.
pub open spec fn has_message(h: Seq<ChatMessage>, channel_id: ChannelId, id: MessageId) -> bool {
    exists|i: int| 0 <= i < h.len() && h[i].channel_id == channel_id && h[i].message_id == id
}

/// The message with another id and status, all else kept.
pub open spec fn restamped(m: ChatMessage, id: MessageId, status: ChatMessageStatus) -> ChatMessage {
    ChatMessage { message_id: id, status, ..m }
}

/// A message that waited for its acknowledgement, now marked as failed; any other unchanged.
pub open spec fn failed_if_sending(m: ChatMessage) -> ChatMessage {
    if m.status == ChatMessageStatus::Sending {
        restamped(m, m.message_id, ChatMessageStatus::FailedToSend)
    } else {
        m
    }
}

/// Copies a message under another id and status.
pub fn restamp(m: &ChatMessage, id: MessageId, status: ChatMessageStatus) -> (r: ChatMessage)
    ensures
        r == restamped(*m, id, status),
{
    ChatMessage {
        message_id: id,
        channel_id: m.channel_id,
        reply_id: m.reply_id,
        author_name: m.author_name.clone(),
        author_id: m.author_id,
        timestamp: m.timestamp,
        message: m.message.clone(),
        status,
    }
}

/// What `fail_pending` does to the chat state.
pub open spec fn fail_pending_post(pre: ChatState, post: ChatState) -> bool {
    &&& post == (ChatState {
        chat_history: post.chat_history,
        waiting_message_acks_id: post.waiting_message_acks_id,
        ..pre
    })
    &&& post.chat_history@.len() == pre.chat_history@.len()
    &&& forall|i: int|
            0 <= i < post.chat_history@.len() ==> #[trigger] post.chat_history@[i] == failed_if_sending(
                pre.chat_history@[i],
            )
    &&& post.waiting_message_acks_id@ == Seq::<MessageId>::empty()
    &&& sending_ids(post.chat_history@) == Set::<MessageId>::empty()
    &&& post.incrementing_ack_id == pre.incrementing_ack_id
    &&& history_unique(pre.chat_history@) ==> history_unique(post.chat_history@)
    &&& post.acks_consistent()
}

impl ChatState {
    /// The pending acknowledgements match the messages shown as sending: the same ids,
    /// each once, all below the next local id.
    pub open spec fn acks_consistent(&self) -> bool {
        let h = self.chat_history@;
        let q = self.waiting_message_acks_id@;
        &&& sending_ids(h) == q.to_set()
        &&& q.no_duplicates()
        &&& forall|i: int| 0 <= i < q.len() ==> q[i] < self.incrementing_ack_id
        &&& forall|i: int, j: int|
            0 <= i < h.len() && 0 <= j < h.len() && h[i].status == ChatMessageStatus::Sending && h[j].status
                == ChatMessageStatus::Sending && h[i].message_id == h[j].message_id ==> i == j
    }

    /// Marks every message that waits for an acknowledgement as failed, and forgets the waiting ids.
    pub fn fail_pending(&mut self)
        ensures
            fail_pending_post(*old(self), *final(self)),
    {
        let n = self.chat_history.len();
        let mut i: usize = 0;
        while i < n
            invariant
                n == self.chat_history@.len(),
                n == old(self).chat_history@.len(),
                i <= n,
                *self == (ChatState { chat_history: self.chat_history, ..*old(self) }),
                self.waiting_message_acks_id == old(self).waiting_message_acks_id,
                self.incrementing_ack_id == old(self).incrementing_ack_id,
                forall|k: int|
                    0 <= k < n ==> #[trigger] self.chat_history@[k] == (if k < i {
                        failed_if_sending(old(self).chat_history@[k])
                    } else {
                        old(self).chat_history@[k]
                    }),
            decreases n - i,
        {
            if self.chat_history[i].status == ChatMessageStatus::Sending {
                let m = restamp(&self.chat_history[i], self.chat_history[i].message_id, ChatMessageStatus::FailedToSend);
                self.chat_history.set(i, m);
            }
            i = i + 1;
        }
        self.waiting_message_acks_id.clear();
        proof {
            let h = self.chat_history@;
            assert(sending_ids(h) =~= Set::<MessageId>::empty()) by {
                assert forall|id: MessageId| !sending_ids(h).contains(id) by {
                    if sending_ids(h).contains(id) {
                        let k = choose|k: int|
                            0 <= k < h.len() && h[k].status == ChatMessageStatus::Sending && h[k].message_id == id;
                        assert(h[k].status != ChatMessageStatus::Sending);
                    }
                }
            }
            assert(self.waiting_message_acks_id@.to_set() =~= Set::<MessageId>::empty());
        }
    }
}

/// What `message_send` does to the chat state, and what it returns.
pub open spec fn message_send_post(pre: ChatState, post: ChatState, now_secs: i64, r: Option<ClientPayload>) -> bool {
    &&& pre.acks_consistent() ==> post.acks_consistent()
    &&& r is Some <==> pre.can_send()
    &&& r is Some ==> r->Some_0 is SendMessage
    &&& r matches Some(ClientPayload::SendMessage(m)) ==> {
            let c = pre.active_channel_id()->Some_0;
            &&& m.channel_id == c
            &&& m.reply_id == pre.reply_id()
            &&& m.media_ids@.len() == 0
            &&& exists|k: int|
                pre.is_input_of(k, c) && m.message_text@ == pre.chat_inputs@[k].text@
                    && post.chat_inputs@[k].text@.len() == 0
            &&& post.chat_history@.last().message@ == m.message_text@
        }
    &&& r is Some ==> {
            let c = pre.active_channel_id()->Some_0;
            let L = pre.incrementing_ack_id;
            &&& post.chat_history@.len() == pre.chat_history@.len() + 1
            &&& post.chat_history@.drop_last() == pre.chat_history@
            &&& post.chat_history@.last().message_id == L
            &&& post.chat_history@.last().channel_id == c
            &&& post.chat_history@.last().status == ChatMessageStatus::Sending
            &&& post.waiting_message_acks_id@ == pre.waiting_message_acks_id@.push(L)
            &&& post.incrementing_ack_id == L + 1
            &&& post.focus == ChatFocus::ChatInput(0)
            &&& post.replying_to is None
        }
    &&& r is Some ==> (history_unique(pre.chat_history@) && !has_message(
            pre.chat_history@,
            pre.active_channel_id()->Some_0,
            pre.incrementing_ack_id,
        ) ==> history_unique(post.chat_history@))
    &&& r is None ==> {
            &&& post.chat_history@ == pre.chat_history@
            &&& post.waiting_message_acks_id@ == pre.waiting_message_acks_id@
            &&& post.incrementing_ack_id == pre.incrementing_ack_id
        }
}

impl ChatState {
    /// The channel that the user looks at, where there is one.
    pub open spec fn active_channel_id(&self) -> Option<ChannelId> {
        if self.active_channel_idx < self.channels@.len() {
            Some(self.channels@[self.active_channel_idx as int].id)
        } else {
            None
        }
    }

    /// Where the input line of a channel is kept, where it has one.
    pub open spec fn input_index(&self, channel_id: ChannelId) -> Option<int> {
        if exists|k: int| 0 <= k < self.chat_inputs@.len() && self.chat_inputs@[k].channel_id == channel_id {
            Some(choose|k: int| 0 <= k < self.chat_inputs@.len() && self.chat_inputs@[k].channel_id == channel_id)
        } else {
            None
        }
    }

    /// The first input line that belongs to `channel_id`.
    pub fn find_input(&self, channel_id: ChannelId) -> (r: Option<usize>)
        ensures
            match r {
                Some(k) => k < self.chat_inputs@.len() && self.chat_inputs@[k as int].channel_id == channel_id
                    && forall|j: int| 0 <= j < k ==> self.chat_inputs@[j].channel_id != channel_id,
                None => forall|k: int|
                    0 <= k < self.chat_inputs@.len() ==> self.chat_inputs@[k].channel_id != channel_id,
            },
    {
        let mut k: usize = 0;
        while k < self.chat_inputs.len()
            invariant
                k <= self.chat_inputs@.len(),
                forall|j: int| 0 <= j < k ==> self.chat_inputs@[j].channel_id != channel_id,
            decreases self.chat_inputs@.len() - k,
        {
            if self.chat_inputs[k].channel_id == channel_id {
                return Some(k);
            }
            k = k + 1;
        }
        None
    }

    /// The input line of `channel_id` is the first one kept for it, at `k`.
    pub open spec fn is_input_of(&self, k: int, channel_id: ChannelId) -> bool {
        &&& 0 <= k < self.chat_inputs@.len()
        &&& self.chat_inputs@[k].channel_id == channel_id
        &&& forall|j: int| 0 <= j < k ==> self.chat_inputs@[j].channel_id != channel_id
    }

    /// Whether `MessageSend` sends: there is an active channel, its input line is not blank,
    /// and a local id is left.
    pub open spec fn can_send(&self) -> bool {
        &&& self.active_channel_id() is Some
        &&& self.incrementing_ack_id < u64::MAX
        &&& exists|k: int|
            self.is_input_of(k, self.active_channel_id()->Some_0) && !is_blank(#[trigger] self.chat_inputs@[k].text@)
    }

    /// The id of the message that a new message answers, 0 for none.
    pub open spec fn reply_id(&self) -> MessageId {
        match self.replying_to {
            Some(m) => m.message_id,
            None => 0,
        }
    }

    /// Sends the active channel's input line, unless it is blank. The message is shown at once
    /// as sending, under the next local id, which then waits for the server's acknowledgement.
    #[verifier::spinoff_prover]
    #[verifier::rlimit(100)]
    pub fn message_send(&mut self, now_secs: i64) -> (r: Option<ClientPayload>)
        ensures
            message_send_post(*old(self), *final(self), now_secs, r),
    {
        if self.active_channel_idx >= self.channels.len() || self.incrementing_ack_id == u64::MAX {
            return None;
        }
        let channel_id = self.channels[self.active_channel_idx].id;
        let k = match self.find_input(channel_id) {
            Some(k) => k,
            None => return None,
        };
        if blank(&self.chat_inputs[k].text) {
            proof {
                assert forall|j: int| self.is_input_of(j, channel_id) implies j == k by {
                    if j < k {
                    } else if j > k {
                        assert(self.chat_inputs@[k as int].channel_id == channel_id);
                    }
                }
            }
            return None;
        }
        let reply_id: u64 = match &self.replying_to {
            Some(m) => m.message_id,
            None => 0,
        };
        let temp_message_id = self.incrementing_ack_id;
        let text = string_from_chars(&self.chat_inputs[k].text);
        let shown = string_from_chars(&self.chat_inputs[k].text);
        let message = ChatMessage {
            message_id: temp_message_id,
            channel_id,
            reply_id,
            author_name: self.current_user.username.clone(),
            author_id: self.current_user.user_id,
            timestamp: now_secs,
            message: shown,
            status: ChatMessageStatus::Sending,
        };
        let ghost h0 = self.chat_history@;
        let ghost q0 = self.waiting_message_acks_id@;
        self.waiting_message_acks_id.push_back(temp_message_id);
        self.incrementing_ack_id = temp_message_id + 1;
        self.chat_history.push(message);
        let mut cleared = self.chat_inputs[k].clone();
        cleared.channel_id = channel_id;
        cleared.text = Vec::new();
        self.chat_inputs.set(k, cleared);
        self.replying_to = None;
        self.focus = ChatFocus::ChatInput(0);
        proof {
            let h = self.chat_history@;
            let q = self.waiting_message_acks_id@;
            if old(self).acks_consistent() {
                assert(!q0.contains(temp_message_id)) by {
                    if q0.contains(temp_message_id) {
                        let j = choose|j: int| 0 <= j < q0.len() && q0[j] == temp_message_id;
                    }
                }
                assert(!sending_ids(h0).contains(temp_message_id)) by {
                    assert(q0.to_set().contains(temp_message_id) == q0.contains(temp_message_id));
                }
                assert(sending_ids(h) =~= sending_ids(h0).insert(temp_message_id)) by {
                    assert forall|id: MessageId| sending_ids(h).contains(id) implies sending_ids(h0).insert(
                        temp_message_id,
                    ).contains(id) by {
                        let i = choose|i: int|
                            0 <= i < h.len() && h[i].status == ChatMessageStatus::Sending && h[i].message_id == id;
                        if i < h0.len() {
                            assert(h0[i] == h[i]);
                        }
                    }
                    assert forall|id: MessageId| sending_ids(h0).insert(temp_message_id).contains(id) implies sending_ids(
                        h,
                    ).contains(id) by {
                        if id == temp_message_id {
                            assert(h[h0.len() as int].message_id == id);
                        } else {
                            let i = choose|i: int|
                                0 <= i < h0.len() && h0[i].status == ChatMessageStatus::Sending && h0[i].message_id
                                    == id;
                            assert(h[i] == h0[i]);
                        }
                    }
                }
                assert(q.to_set() =~= q0.to_set().insert(temp_message_id)) by {
                    assert(q =~= q0.push(temp_message_id));
                    q0.lemma_push_to_set_commute(temp_message_id);
                }
                assert(q.no_duplicates()) by {
                    assert(q =~= q0.push(temp_message_id));
                    assert forall|a: int, b: int| 0 <= a < q.len() && 0 <= b < q.len() && a != b implies q[a] != q[b] by {
                        if a < q0.len() && b < q0.len() {
                        } else if a < q0.len() {
                            assert(q0[a] < temp_message_id);
                        } else if b < q0.len() {
                            assert(q0[b] < temp_message_id);
                        }
                    }
                }
                assert forall|a: int, b: int|
                    0 <= a < h.len() && 0 <= b < h.len() && h[a].status == ChatMessageStatus::Sending && h[b].status
                        == ChatMessageStatus::Sending && h[a].message_id == h[b].message_id implies a == b by {
                    if a < h0.len() && b < h0.len() {
                        assert(h[a] == h0[a] && h[b] == h0[b]);
                    } else if a < h0.len() {
                        assert(h[a] == h0[a]);
                        assert(sending_ids(h0).contains(h0[a].message_id));
                    } else if b < h0.len() {
                        assert(h[b] == h0[b]);
                        assert(sending_ids(h0).contains(h0[b].message_id));
                    }
                }
            }
            assert(h.drop_last() =~= h0);
            if history_unique(h0) && !has_message(h0, channel_id, temp_message_id) {
                assert forall|a: int, b: int|
                    0 <= a < h.len() && 0 <= b < h.len() && a != b && h[a].channel_id
                        == h[b].channel_id implies h[a].message_id != h[b].message_id by {
                    if a < h0.len() && b < h0.len() {
                        assert(h[a] == h0[a] && h[b] == h0[b]);
                    } else if a < h0.len() {
                        assert(h[a] == h0[a]);
                    } else {
                        assert(h[b] == h0[b]);
                    }
                }
            }
            assert(old(self).is_input_of(k as int, channel_id));
            assert(!is_blank(old(self).chat_inputs@[k as int].text@));
            assert(self.chat_inputs@[k as int].text@.len() == 0);
            assert(exists|j: int|
                old(self).is_input_of(j, channel_id) && text@ == old(self).chat_inputs@[j].text@
                    && self.chat_inputs@[j].text@.len() == 0);
        }
        Some(
            ClientPayload::SendMessage(
                SendMessagePacket { channel_id, reply_id, media_ids: Vec::new(), message_text: text },
            ),
        )
    }
}

/// What `message_ack` does to the chat state.
pub open spec fn message_ack_post(pre: ChatState, post: ChatState, server_id: MessageId) -> bool {
    &&& pre.acks_consistent() ==> post.acks_consistent()
    &&& post.incrementing_ack_id == pre.incrementing_ack_id
    &&& post.chat_history@.len() == pre.chat_history@.len()
    &&& ({
            let q = pre.waiting_message_acks_id@;
            let h = pre.chat_history@;
            if q.len() > 0 && exists|i: int|
                0 <= i < h.len() && h[i].message_id == q[0] && h[i].status == ChatMessageStatus::Sending {
                &&& post.waiting_message_acks_id@ == q.drop_first()
                &&& exists|i: int|
                    0 <= i < h.len() && h[i].message_id == q[0] && h[i].status == ChatMessageStatus::Sending
                        && post.chat_history@[i] == restamped(h[i], server_id, ChatMessageStatus::Send)
                        && forall|j: int|
                        0 <= j < h.len() && j != i ==> post.chat_history@[j] == h[j]
            } else {
                &&& post.waiting_message_acks_id@ == q
                &&& post.chat_history@ == h
            }
        })
}

impl ChatState {
    /// The server acknowledged the oldest message that waits: it now carries the server's id
    /// and counts as sent. Where no waiting message matches, nothing changes.
    #[verifier::spinoff_prover]
    pub fn message_ack(&mut self, server_id: MessageId)
        ensures
            message_ack_post(*old(self), *final(self), server_id),
    {
        let ghost q0 = self.waiting_message_acks_id@;
        let ghost h0 = self.chat_history@;
        let temp_message_id = match self.waiting_message_acks_id.pop_front() {
            Some(id) => id,
            None => return,
        };
        let n = self.chat_history.len();
        let mut i: usize = 0;
        while i < n
            invariant
                n == self.chat_history@.len(),
                self.chat_history@ == h0,
                h0 == old(self).chat_history@,
                q0 == old(self).waiting_message_acks_id@,
                q0.len() > 0 && q0[0] == temp_message_id,
                self.waiting_message_acks_id@ == q0.drop_first(),
                self.incrementing_ack_id == old(self).incrementing_ack_id,
                i <= n,
                forall|j: int|
                    0 <= j < i ==> !(h0[j].message_id == temp_message_id && h0[j].status
                        == ChatMessageStatus::Sending),
            decreases n - i,
        {
            if self.chat_history[i].message_id == temp_message_id && self.chat_history[i].status
                == ChatMessageStatus::Sending {
                let m = restamp(&self.chat_history[i], server_id, ChatMessageStatus::Send);
                self.chat_history.set(i, m);
                proof {
                    assert(self.chat_history@[i as int] == restamped(h0[i as int], server_id, ChatMessageStatus::Send));
                    assert(forall|j: int| 0 <= j < h0.len() && j != i ==> self.chat_history@[j] == h0[j]);
                    assert(h0[i as int].message_id == q0[0] && h0[i as int].status == ChatMessageStatus::Sending);
                    let h = self.chat_history@;
                    let q = self.waiting_message_acks_id@;
                    assert(q0.len() > 0 && q0[0] == temp_message_id && q =~= q0.drop_first());
                    if old(self).acks_consistent() {
                        assert(sending_ids(h) =~= sending_ids(h0).remove(temp_message_id)) by {
                            assert forall|id: MessageId| #[trigger] sending_ids(h).contains(id) implies sending_ids(
                                h0,
                            ).remove(temp_message_id).contains(id) by {
                                let k = choose|k: int|
                                    0 <= k < h.len() && h[k].status == ChatMessageStatus::Sending && h[k].message_id
                                        == id;
                                assert(k != i);
                                assert(h[k] == h0[k]);
                                if id == temp_message_id {
                                    assert(h0[i as int].status == ChatMessageStatus::Sending);
                                }
                            }
                            assert forall|id: MessageId| #[trigger] sending_ids(h0).remove(
                                temp_message_id,
                            ).contains(id) implies sending_ids(h).contains(id) by {
                                let k = choose|k: int|
                                    0 <= k < h0.len() && h0[k].status == ChatMessageStatus::Sending
                                        && h0[k].message_id == id;
                                assert(k != i);
                                assert(h[k] == h0[k]);
                            }
                        }
                        assert(q.to_set() =~= q0.to_set().remove(temp_message_id)) by {
                            assert forall|id: MessageId| #[trigger] q.to_set().contains(id) implies q0.to_set().remove(
                                temp_message_id,
                            ).contains(id) by {
                                let k = choose|k: int| 0 <= k < q.len() && q[k] == id;
                                assert(q0[k + 1] == id);
                                assert(k + 1 != 0);
                            }
                            assert forall|id: MessageId| #[trigger] q0.to_set().remove(temp_message_id).contains(
                                id,
                            ) implies q.to_set().contains(id) by {
                                let k = choose|k: int| 0 <= k < q0.len() && q0[k] == id;
                                assert(k != 0);
                                assert(q[k - 1] == id);
                            }
                        }
                        assert forall|a: int, b: int|
                            0 <= a < h.len() && 0 <= b < h.len() && h[a].status == ChatMessageStatus::Sending
                                && h[b].status == ChatMessageStatus::Sending && h[a].message_id
                                == h[b].message_id implies a == b by {
                            assert(a != i && b != i);
                            assert(h[a] == h0[a] && h[b] == h0[b]);
                        }
                        assert forall|a: int| 0 <= a < q.len() implies q[a] < self.incrementing_ack_id by {
                            assert(q[a] == q0[a + 1]);
                        }
                    }
                }
                return;
            }
            i = i + 1;
        }
        self.waiting_message_acks_id.push_front(temp_message_id);
        proof {
            assert(self.waiting_message_acks_id@ =~= q0);
        }
    }
}

/// What `history_update` does to the chat state, and what it returns.
pub open spec fn history_update_post(pre: ChatState, post: ChatState, messages: Vec<HistoryMessage>, r: bool) -> bool {
    &&& pre.acks_consistent() ==> post.acks_consistent()
    &&& history_unique(pre.chat_history@) ==> history_unique(post.chat_history@)
    &&& post.chat_history@.len() >= pre.chat_history@.len()
    &&& post.chat_history@.take(pre.chat_history@.len() as int) == pre.chat_history@
    &&& forall|i: int|
            pre.chat_history@.len() <= i < post.chat_history@.len() ==> (
            #[trigger] post.chat_history@[i]).status == ChatMessageStatus::Send && exists|k: int|
                0 <= k < messages@.len() && shown_as(post.chat_history@[i], messages@[k], pre.users@)
    &&& r == forall|k: int| 0 <= k < messages@.len() ==> timestamp_ok(#[trigger] messages@[k].sent_timestamp)
    &&& r ==> forall|k: int|
            0 <= k < messages@.len() ==> has_message(
                post.chat_history@,
                #[trigger] messages@[k].channel_id,
                messages@[k].message_id,
            )
    &&& post.waiting_message_acks_id@ == pre.waiting_message_acks_id@
    &&& post.incrementing_ack_id == pre.incrementing_ack_id
    &&& post.users == pre.users
}

/// The author name that the directory gives a user, or `Unknown` where it does not know them.
pub open spec fn author_of(users: Seq<User>, user_id: UserId, name: Seq<char>) -> bool {
    (exists|k: int| 0 <= k < users.len() && users[k].id == user_id && name == users[k].name@) || (!known_user(
        users,
        user_id,
    ) && name == unknown_author())
}

/// A history message as the chat shows it: sent, with its author's name from the directory.
pub open spec fn shown_as(m: ChatMessage, h: HistoryMessage, users: Seq<User>) -> bool {
    &&& m.message_id == h.message_id
    &&& m.channel_id == h.channel_id
    &&& m.reply_id == h.reply_id
    &&& m.author_id == h.user_id
    &&& m.timestamp == h.sent_timestamp as i64
    &&& m.message@ == h.message_text@
    &&& m.status == ChatMessageStatus::Send
    &&& author_of(users, h.user_id, m.author_name@)
}

impl ChatState {
    /// Whether a channel's history already holds a message with this id.
    pub fn contains_message(&self, channel_id: ChannelId, id: MessageId) -> (r: bool)
        ensures
            r == has_message(self.chat_history@, channel_id, id),
    {
        let mut i: usize = 0;
        while i < self.chat_history.len()
            invariant
                i <= self.chat_history@.len(),
                forall|j: int|
                    0 <= j < i ==> !(self.chat_history@[j].channel_id == channel_id
                        && self.chat_history@[j].message_id == id),
            decreases self.chat_history@.len() - i,
        {
            if self.chat_history[i].channel_id == channel_id && self.chat_history[i].message_id == id {
                return true;
            }
            i = i + 1;
        }
        false
    }

    /// The name of a user in the directory, or `Unknown`.
    pub fn author_name(&self, user_id: UserId) -> (r: String)
        ensures
            (exists|k: int| 0 <= k < self.users@.len() && self.users@[k].id == user_id && r@ == self.users@[k].name@)
                || ((forall|k: int| 0 <= k < self.users@.len() ==> self.users@[k].id != user_id) && r@ == unknown_author()),
    {
        let mut k: usize = 0;
        while k < self.users.len()
            invariant
                k <= self.users@.len(),
                forall|j: int| 0 <= j < k ==> self.users@[j].id != user_id,
            decreases self.users@.len() - k,
        {
            if self.users[k].id == user_id {
                return self.users[k].name.clone();
            }
            k = k + 1;
        }
        proof {
            reveal_strlit("Unknown");
        }
        "Unknown".to_owned()
    }

    /// Appends the messages of a history reply to their channels, each only where its channel
    /// does not hold its id yet. A message whose time chrono cannot represent stops the update
    /// there, and the result is `false`.
    pub fn history_update(&mut self, messages: &Vec<HistoryMessage>) -> (r: bool)
        ensures
            history_update_post(*old(self), *final(self), *messages, r),
    {
        let ghost h0 = self.chat_history@;
        let mut k: usize = 0;
        while k < messages.len()
            invariant
                k <= messages@.len(),
                h0 == old(self).chat_history@,
                self.waiting_message_acks_id == old(self).waiting_message_acks_id,
                self.incrementing_ack_id == old(self).incrementing_ack_id,
                self.chat_history@.len() >= h0.len(),
                self.chat_history@.take(h0.len() as int) == h0,
                sending_ids(self.chat_history@) == sending_ids(h0),
                forall|a: int, b: int|
                    0 <= a < self.chat_history@.len() && 0 <= b < self.chat_history@.len()
                        && self.chat_history@[a].status == ChatMessageStatus::Sending
                        && self.chat_history@[b].status == ChatMessageStatus::Sending
                        && self.chat_history@[a].message_id == self.chat_history@[b].message_id ==> a < h0.len()
                        && b < h0.len(),
                history_unique(h0) ==> history_unique(self.chat_history@),
                self.users == old(self).users,
                forall|i: int|
                    h0.len() <= i < self.chat_history@.len() ==> (#[trigger] self.chat_history@[i]).status
                        == ChatMessageStatus::Send && exists|j: int|
                        0 <= j < messages@.len() && shown_as(self.chat_history@[i], messages@[j], old(self).users@),
                forall|j: int| 0 <= j < k ==> timestamp_ok(#[trigger] messages@[j].sent_timestamp),
                forall|j: int|
                    0 <= j < k ==> has_message(
                        self.chat_history@,
                        #[trigger] messages@[j].channel_id,
                        messages@[j].message_id,
                    ),
            decreases messages@.len() - k,
        {
            let message = &messages[k];
            if !server_timestamp_valid(message.sent_timestamp) {
                proof {
                    self.lemma_acks_kept(old(self));
                }
                return false;
            }
            let channel_id = message.channel_id;
            if !self.contains_message(channel_id, message.message_id) {
                let author_name = self.author_name(message.user_id);
                let display_message = ChatMessage {
                    message_id: message.message_id,
                    channel_id,
                    reply_id: message.reply_id,
                    author_name,
                    author_id: message.user_id,
                    timestamp: message.sent_timestamp as i64,
                    message: message.message_text.clone(),
                    status: ChatMessageStatus::Send,
                };
                let ghost before = self.chat_history@;
                self.chat_history.push(display_message);
                proof {
                    let h = self.chat_history@;
                    assert(h.take(h0.len() as int) =~= h0) by {
                        assert(before.take(h0.len() as int) =~= h0);
                    }
                    assert(sending_ids(h) =~= sending_ids(before)) by {
                        assert forall|id: MessageId| sending_ids(h).contains(id) implies sending_ids(before).contains(
                            id,
                        ) by {
                            let i = choose|i: int|
                                0 <= i < h.len() && h[i].status == ChatMessageStatus::Sending && h[i].message_id
                                    == id;
                            assert(i < before.len());
                            assert(h[i] == before[i]);
                        }
                        assert forall|id: MessageId| sending_ids(before).contains(id) implies sending_ids(h).contains(
                            id,
                        ) by {
                            let i = choose|i: int|
                                0 <= i < before.len() && before[i].status == ChatMessageStatus::Sending
                                    && before[i].message_id == id;
                            assert(h[i] == before[i]);
                        }
                    }
                    assert forall|a: int, b: int|
                        0 <= a < h.len() && 0 <= b < h.len() && h[a].status == ChatMessageStatus::Sending
                            && h[b].status == ChatMessageStatus::Sending && h[a].message_id
                            == h[b].message_id implies a < h0.len() && b < h0.len() by {
                        assert(a < before.len() && b < before.len());
                        assert(h[a] == before[a] && h[b] == before[b]);
                    }
                    if history_unique(h0) {
                        assert forall|a: int, b: int|
                            0 <= a < h.len() && 0 <= b < h.len() && a != b && h[a].channel_id
                                == h[b].channel_id implies h[a].message_id != h[b].message_id by {
                            if a < before.len() && b < before.len() {
                                assert(h[a] == before[a] && h[b] == before[b]);
                            } else if a < before.len() {
                                assert(h[a] == before[a]);
                            } else {
                                assert(h[b] == before[b]);
                            }
                        }
                    }
                    assert forall|i: int| h0.len() <= i < h.len() implies (#[trigger] h[i]).status
                        == ChatMessageStatus::Send && exists|j: int|
                        0 <= j < messages@.len() && shown_as(h[i], messages@[j], old(self).users@) by {
                        if i < before.len() {
                            assert(h[i] == before[i]);
                        } else {
                            assert(shown_as(h[i], messages@[k as int], old(self).users@));
                        }
                    }
                    assert forall|j: int| 0 <= j <= k implies has_message(
                        h,
                        #[trigger] messages@[j].channel_id,
                        messages@[j].message_id,
                    ) by {
                        if j < k {
                            let i = choose|i: int|
                                0 <= i < before.len() && before[i].channel_id == messages@[j].channel_id
                                    && before[i].message_id == messages@[j].message_id;
                            assert(h[i] == before[i]);
                        } else {
                            assert(h[before.len() as int].channel_id == messages@[j].channel_id);
                        }
                    }
                }
            }
            k = k + 1;
        }
        proof {
            self.lemma_acks_kept(old(self));
        }
        true
    }

    /// Appending messages that are not sending keeps the acknowledgements consistent.
    proof fn lemma_acks_kept(&self, before: &ChatState)
        requires
            self.chat_history@.len() >= before.chat_history@.len(),
            self.chat_history@.take(before.chat_history@.len() as int) == before.chat_history@,
            sending_ids(self.chat_history@) == sending_ids(before.chat_history@),
            self.waiting_message_acks_id@ == before.waiting_message_acks_id@,
            self.incrementing_ack_id == before.incrementing_ack_id,
            forall|a: int, b: int|
                0 <= a < self.chat_history@.len() && 0 <= b < self.chat_history@.len()
                    && self.chat_history@[a].status == ChatMessageStatus::Sending
                    && self.chat_history@[b].status == ChatMessageStatus::Sending
                    && self.chat_history@[a].message_id == self.chat_history@[b].message_id ==> a
                    < before.chat_history@.len() && b < before.chat_history@.len(),
        ensures
            before.acks_consistent() ==> self.acks_consistent(),
    {
        let h = self.chat_history@;
        let h0 = before.chat_history@;
        if before.acks_consistent() {
            assert forall|a: int, b: int|
                0 <= a < h.len() && 0 <= b < h.len() && h[a].status == ChatMessageStatus::Sending && h[b].status
                    == ChatMessageStatus::Sending && h[a].message_id == h[b].message_id implies a == b by {
                assert(h[a] == h.take(h0.len() as int)[a]);
                assert(h[b] == h.take(h0.len() as int)[b]);
            }
        }
    }
}

/// A message of a channel has fewer messages of that channel before it than the channel has.
pub proof fn lemma_rank_below(h: Seq<ChatMessage>, c: ChannelId, i: int)
    requires
        0 <= i < h.len(),
        h[i].channel_id == c,
    ensures
        h.take(i).filter(in_channel(c)).len() < h.filter(in_channel(c)).len(),
{
    let f = in_channel(c);
    lemma_filter_rank_grows(h, f, i, h.len() as int);
    assert(h.take(h.len() as int) =~= h);
}

proof fn lemma_filter_rank_grows(h: Seq<ChatMessage>, f: spec_fn(ChatMessage) -> bool, i: int, j: int)
    requires
        0 <= i < j <= h.len(),
        f(h[i]),
    ensures
        h.take(i).filter(f).len() < h.take(j).filter(f).len(),
    decreases j - i,
{
    let t = h.take(j - 1);
    assert(h.take(j) =~= t.push(h[j - 1]));
    t.lemma_filter_push(h[j - 1], f);
    if j - 1 > i {
        lemma_filter_rank_grows(h, f, i, j - 1);
    } else {
        assert(t =~= h.take(i));
    }
}

/// Two messages of a channel with the same number of channel messages before them are one.
pub proof fn lemma_rank_unique(h: Seq<ChatMessage>, c: ChannelId, i: int, j: int)
    requires
        0 <= i < h.len(),
        0 <= j < h.len(),
        h[i].channel_id == c,
        h[j].channel_id == c,
        h.take(i).filter(in_channel(c)).len() == h.take(j).filter(in_channel(c)).len(),
    ensures
        i == j,
{
    if i < j {
        lemma_filter_rank_grows(h, in_channel(c), i, j);
    } else if j < i {
        lemma_filter_rank_grows(h, in_channel(c), j, i);
    }
}

/// The author name of a message whose author the directory does not know.
pub open spec fn unknown_author() -> Seq<char> {
    seq!['U', 'n', 'k', 'n', 'o', 'w', 'n']
}

/// Whether a message belongs to a channel.
pub open spec fn in_channel(channel_id: ChannelId) -> spec_fn(ChatMessage) -> bool {
    |m: ChatMessage| m.channel_id == channel_id
}

/// How many messages back a fresh channel's history request asks for.
pub const HISTORY_REQUEST_DEPTH: i8 = 50;

/// The request that tells the server whether the user types in a channel.
pub open spec fn is_typing_request(p: ClientPayload, channel_id: ChannelId, is_typing: bool) -> bool {
    p matches ClientPayload::Typing(t) && t.channel_id == channel_id && t.is_typing == is_typing
}

/// Whether a channel has an input line.
pub open spec fn has_input(inputs: Seq<ChatInput>, channel_id: ChannelId) -> bool {
    exists|k: int| 0 <= k < inputs.len() && inputs[k].channel_id == channel_id
}

/// Whether a user is shown as typing in a channel.
pub open spec fn has_typing(typing: Seq<TypingUser>, channel_id: ChannelId, user_id: UserId) -> bool {
    exists|k: int| 0 <= k < typing.len() && typing[k].channel_id == channel_id && typing[k].user_id == user_id
}

/// The request for a channel's latest messages, back from `now_secs`.
pub open spec fn is_history_request(p: ClientPayload, channel_id: ChannelId, now_secs: u64) -> bool {
    p matches ClientPayload::History(h) && h.channel_id == channel_id && h.anchor == Anchor::Timestamp(now_secs)
        && h.num_messages_back == HISTORY_REQUEST_DEPTH
}

/// The index of the last space before `i` in `s`, or 0 where there is none.
pub open spec fn word_start(s: Seq<char>, i: int) -> int
    decreases i,
{
    if i <= 0 {
        0
    } else if s[i - 1] == ' ' {
        i - 1
    } else {
        word_start(s, i - 1)
    }
}

/// The index of the first space at or after `i` in `s`, or the length of `s` where there is none.
pub open spec fn word_end(s: Seq<char>, i: int) -> int
    decreases s.len() - i,
{
    if i >= s.len() {
        s.len() as int
    } else if s[i] == ' ' {
        i
    } else {
        word_end(s, i + 1)
    }
}

/// What `channel_up` does to the chat state, and what it returns.
pub open spec fn channel_up_post(pre: ChatState, post: ChatState, r: Option<ClientPayload>) -> bool {
    &&& post.active_channel_idx == (if pre.active_channel_idx == 0 {
            if pre.channels@.len() == 0 { 0 } else { pre.channels@.len() - 1 }
        } else {
            pre.active_channel_idx - 1
        })
    &&& r is Some <==> pre.is_typing && pre.active_channel_id() is Some
    &&& r matches Some(p) ==> is_typing_request(p, pre.active_channel_id()->Some_0, false)
    &&& post.chat_history == pre.chat_history
    &&& post.waiting_message_acks_id == pre.waiting_message_acks_id
    &&& post.incrementing_ack_id == pre.incrementing_ack_id
}

/// What `channel_down` does to the chat state, and what it returns.
pub open spec fn channel_down_post(pre: ChatState, post: ChatState, r: Option<ClientPayload>) -> bool {
    &&& post.active_channel_idx == (if pre.channels@.len() == 0 {
            pre.active_channel_idx as int
        } else if pre.active_channel_idx + 1 < pre.channels@.len() {
            pre.active_channel_idx + 1
        } else {
            0
        })
    &&& r is Some <==> pre.is_typing && pre.active_channel_id() is Some
    &&& r matches Some(p) ==> is_typing_request(p, pre.active_channel_id()->Some_0, false)
    &&& post.chat_history == pre.chat_history
    &&& post.waiting_message_acks_id == pre.waiting_message_acks_id
    &&& post.incrementing_ack_id == pre.incrementing_ack_id
}

/// What `input_char` does to the chat state, and what it returns.
pub open spec fn input_char_post(pre: ChatState, post: ChatState, chr: char, now_millis: u64, r: Option<ClientPayload>) -> bool {
    &&& match pre.spec_active_input() {
            Some((k, i)) => if i <= pre.chat_inputs@[k].text@.len() && i < usize::MAX {
                &&& post.chat_inputs@ == pre.chat_inputs@.update(
                    k,
                    post.chat_inputs@[k],
                )
                &&& post.chat_inputs@[k].channel_id == pre.chat_inputs@[k].channel_id
                &&& post.chat_inputs@[k].text@ == pre.chat_inputs@[k].text@.insert(i as int, chr)
                &&& post.focus == ChatFocus::ChatInput((i + 1) as usize)
                &&& post.time_since_last_typing == now_millis
                &&& post.is_typing
                &&& (r is Some <==> !pre.is_typing)
                &&& r matches Some(p) ==> is_typing_request(p, pre.active_channel_id()->Some_0, true)
            } else {
                r is None && post.chat_inputs == pre.chat_inputs
            },
            None => r is None && post.chat_inputs == pre.chat_inputs,
        }
    &&& post.chat_history == pre.chat_history
    &&& post.waiting_message_acks_id == pre.waiting_message_acks_id
    &&& post.incrementing_ack_id == pre.incrementing_ack_id
}

impl ChatState {
    /// Moves to the previous channel, or from the first to the last. Where the user was typing,
    /// the channel left behind is told that they stopped.
    pub fn channel_up(&mut self) -> (r: Option<ClientPayload>)
        ensures
            channel_up_post(*old(self), *final(self), r),
    {
        let previous = self.active_channel_idx;
        if self.active_channel_idx == 0 {
            self.active_channel_idx = if self.channels.len() == 0 { 0 } else { self.channels.len() - 1 };
        } else {
            self.active_channel_idx = self.active_channel_idx - 1;
        }
        if self.is_typing && previous < self.channels.len() {
            Some(ClientPayload::Typing(TypingPacket { is_typing: false, channel_id: self.channels[previous].id }))
        } else {
            None
        }
    }

    /// Moves to the next channel, or from the last to the first.
    pub fn channel_down(&mut self) -> (r: Option<ClientPayload>)
        ensures
            channel_down_post(*old(self), *final(self), r),
    {
        let previous = self.active_channel_idx;
        if self.channels.len() > 0 {
            self.active_channel_idx = if self.active_channel_idx < self.channels.len() - 1 {
                self.active_channel_idx + 1
            } else {
                0
            };
        }
        if self.is_typing && previous < self.channels.len() {
            Some(ClientPayload::Typing(TypingPacket { is_typing: false, channel_id: self.channels[previous].id }))
        } else {
            None
        }
    }

    /// The active channel's input line and the cursor in it, while the input has the focus.
    pub open spec fn spec_active_input(&self) -> Option<(int, usize)> {
        match self.focus {
            ChatFocus::ChatInput(i) => match self.active_channel_id() {
                Some(c) => if exists|k: int| self.is_input_of(k, c) {
                    Some((choose|k: int| self.is_input_of(k, c), i))
                } else {
                    None
                },
                None => None,
            },
            _ => None,
        }
    }

    pub fn active_input(&self) -> (r: Option<(usize, usize)>)
        ensures
            match r {
                Some((k, i)) => self.spec_active_input() == Some((k as int, i)) && k < self.chat_inputs@.len(),
                None => self.spec_active_input() is None,
            },
    {
        let i = match self.focus {
            ChatFocus::ChatInput(i) => i,
            _ => return None,
        };
        if self.active_channel_idx >= self.channels.len() {
            return None;
        }
        let c = self.channels[self.active_channel_idx].id;
        match self.find_input(c) {
            Some(k) => {
                proof {
                    assert forall|j: int| self.is_input_of(j, c) implies j == k by {
                        if j > k {
                            assert(self.chat_inputs@[k as int].channel_id == c);
                        }
                    }
                    assert(self.is_input_of(k as int, c));
                    assert(self.active_channel_id() == Some(c));
                }
                Some((k, i))
            },
            None => None,
        }
    }

    /// Inserts a character at the cursor and moves past it. The first keystroke after a pause
    /// tells the server that the user types.
    pub fn input_char(&mut self, chr: char, now_millis: u64) -> (r: Option<ClientPayload>)
        ensures
            input_char_post(*old(self), *final(self), chr, now_millis, r),
    {
        let (k, i) = match self.active_input() {
            Some(x) => x,
            None => return None,
        };
        if i > self.chat_inputs[k].text.len() || i == usize::MAX {
            return None;
        }
        let ghost inputs0 = self.chat_inputs@;
        let mut input = self.chat_inputs.remove(k);
        input.text.insert(i, chr);
        self.chat_inputs.insert(k, input);
        assert(self.chat_inputs@ =~= inputs0.update(k as int, self.chat_inputs@[k as int]));
        self.focus = ChatFocus::ChatInput(i + 1);
        self.time_since_last_typing = now_millis;
        if !self.is_typing {
            self.is_typing = true;
            Some(
                ClientPayload::Typing(
                    TypingPacket { is_typing: true, channel_id: self.channels[self.active_channel_idx].id },
                ),
            )
        } else {
            None
        }
    }
}

/// What `input_left` does to the chat state.
pub open spec fn input_left_post(pre: ChatState, post: ChatState) -> bool {
    &&& post.focus == (match pre.focus {
            ChatFocus::ChatInput(i) => if i > 0 { ChatFocus::ChatInput((i - 1) as usize) } else { pre.focus },
            _ => pre.focus,
        })
    &&& post.chat_inputs == pre.chat_inputs
    &&& post.chat_history == pre.chat_history
    &&& post.waiting_message_acks_id == pre.waiting_message_acks_id
    &&& post.incrementing_ack_id == pre.incrementing_ack_id
}

/// What `input_right` does to the chat state.
pub open spec fn input_right_post(pre: ChatState, post: ChatState) -> bool {
    &&& post.focus == (match pre.spec_active_input() {
            Some((k, i)) => if i < pre.chat_inputs@[k].text@.len() {
                ChatFocus::ChatInput((i + 1) as usize)
            } else {
                pre.focus
            },
            None => pre.focus,
        })
    &&& post.chat_inputs == pre.chat_inputs
    &&& post.chat_history == pre.chat_history
    &&& post.waiting_message_acks_id == pre.waiting_message_acks_id
    &&& post.incrementing_ack_id == pre.incrementing_ack_id
}

/// What `input_left_tab` does to the chat state.
pub open spec fn input_left_tab_post(pre: ChatState, post: ChatState) -> bool {
    &&& post.focus == (match pre.spec_active_input() {
            Some((k, i)) => if 0 < i <= pre.chat_inputs@[k].text@.len() {
                ChatFocus::ChatInput(word_start(pre.chat_inputs@[k].text@, i as int) as usize)
            } else {
                pre.focus
            },
            None => pre.focus,
        })
    &&& post.chat_inputs == pre.chat_inputs
    &&& post.chat_history == pre.chat_history
    &&& post.waiting_message_acks_id == pre.waiting_message_acks_id
    &&& post.incrementing_ack_id == pre.incrementing_ack_id
}

/// What `input_right_tab` does to the chat state.
pub open spec fn input_right_tab_post(pre: ChatState, post: ChatState) -> bool {
    &&& post.focus == (match pre.spec_active_input() {
            Some((k, i)) => if i < pre.chat_inputs@[k].text@.len() {
                ChatFocus::ChatInput(word_end(pre.chat_inputs@[k].text@, i + 1) as usize)
            } else {
                pre.focus
            },
            None => pre.focus,
        })
    &&& post.chat_inputs == pre.chat_inputs
    &&& post.chat_history == pre.chat_history
    &&& post.waiting_message_acks_id == pre.waiting_message_acks_id
    &&& post.incrementing_ack_id == pre.incrementing_ack_id
}

/// What `input_delete` does to the chat state.
pub open spec fn input_delete_post(pre: ChatState, post: ChatState) -> bool {
    &&& match pre.spec_active_input() {
            Some((k, i)) => if 0 < i <= pre.chat_inputs@[k].text@.len() {
                &&& post.chat_inputs@ == pre.chat_inputs@.update(k, post.chat_inputs@[k])
                &&& post.chat_inputs@[k].channel_id == pre.chat_inputs@[k].channel_id
                &&& post.chat_inputs@[k].text@ == pre.chat_inputs@[k].text@.remove(i - 1)
                &&& post.focus == ChatFocus::ChatInput((i - 1) as usize)
            } else {
                post.chat_inputs == pre.chat_inputs && post.focus == pre.focus
            },
            None => post.chat_inputs == pre.chat_inputs && post.focus == pre.focus,
        }
    &&& post.chat_history == pre.chat_history
    &&& post.waiting_message_acks_id == pre.waiting_message_acks_id
    &&& post.incrementing_ack_id == pre.incrementing_ack_id
}

impl ChatState {
    /// Moves the cursor one character left.
    pub fn input_left(&mut self)
        ensures
            input_left_post(*old(self), *final(self)),
    {
        if let ChatFocus::ChatInput(i) = self.focus {
            if i > 0 {
                self.focus = ChatFocus::ChatInput(i - 1);
            }
        }
    }

    /// Moves the cursor one character right, up to the end of the line.
    pub fn input_right(&mut self)
        ensures
            input_right_post(*old(self), *final(self)),
    {
        if let Some((k, i)) = self.active_input() {
            if i < self.chat_inputs[k].text.len() {
                self.focus = ChatFocus::ChatInput(i + 1);
            }
        }
    }

    /// Moves the cursor back to the last space before it, or to the start.
    pub fn input_left_tab(&mut self)
        ensures
            input_left_tab_post(*old(self), *final(self)),
    {
        if let Some((k, i)) = self.active_input() {
            if i > 0 && i <= self.chat_inputs[k].text.len() {
                let ghost s = self.chat_inputs@[k as int].text@;
                let mut j: usize = i;
                while j > 0 && self.chat_inputs[k].text[j - 1] != ' '
                    invariant
                        k < self.chat_inputs@.len(),
                        s == self.chat_inputs@[k as int].text@,
                        0 <= j <= i <= s.len(),
                        word_start(s, i as int) == word_start(s, j as int),
                    decreases j,
                {
                    j = j - 1;
                }
                self.focus = ChatFocus::ChatInput(if j == 0 { 0 } else { j - 1 });
            }
        }
    }

    /// Moves the cursor forward to the next space after it, or to the end of the line.
    pub fn input_right_tab(&mut self)
        ensures
            input_right_tab_post(*old(self), *final(self)),
    {
        if let Some((k, i)) = self.active_input() {
            let n = self.chat_inputs[k].text.len();
            if i < n {
                let ghost s = self.chat_inputs@[k as int].text@;
                let mut j: usize = i + 1;
                while j < n && self.chat_inputs[k].text[j] != ' '
                    invariant
                        k < self.chat_inputs@.len(),
                        s == self.chat_inputs@[k as int].text@,
                        n == s.len(),
                        i < j <= n,
                        word_end(s, i + 1) == word_end(s, j as int),
                    decreases n - j,
                {
                    j = j + 1;
                }
                self.focus = ChatFocus::ChatInput(j);
            }
        }
    }

    /// Deletes the character before the cursor.
    pub fn input_delete(&mut self)
        ensures
            input_delete_post(*old(self), *final(self)),
    {
        if let Some((k, i)) = self.active_input() {
            if i > 0 && i <= self.chat_inputs[k].text.len() {
                let ghost inputs0 = self.chat_inputs@;
                let mut input = self.chat_inputs.remove(k);
                input.text.remove(i - 1);
                self.chat_inputs.insert(k, input);
                assert(self.chat_inputs@ =~= inputs0.update(k as int, self.chat_inputs@[k as int]));
                self.focus = ChatFocus::ChatInput(i - 1);
            }
        }
    }

    /// The number of messages in a channel's history.
    pub fn channel_message_count(&self, channel_id: ChannelId) -> (r: usize)
        ensures
            r == self.chat_history@.filter(in_channel(channel_id)).len(),
    {
        let ghost f = in_channel(channel_id);
        let mut count: usize = 0;
        let mut i: usize = 0;
        while i < self.chat_history.len()
            invariant
                i <= self.chat_history@.len(),
                f == in_channel(channel_id),
                count == self.chat_history@.take(i as int).filter(f).len(),
                count <= i,
            decreases self.chat_history@.len() - i,
        {
            proof {
                let t = self.chat_history@.take(i as int);
                assert(self.chat_history@.take(i + 1) =~= t.push(self.chat_history@[i as int]));
                t.lemma_filter_push(self.chat_history@[i as int], f);
            }
            assert(f(self.chat_history@[i as int]) == (self.chat_history@[i as int].channel_id == channel_id));
            if self.chat_history[i].channel_id == channel_id {
                count = count + 1;
            }
            i = i + 1;
        }
        assert(self.chat_history@.take(i as int) =~= self.chat_history@);
        count
    }
}

/// Whether the directory knows a user.
pub open spec fn known_user(users: Seq<User>, id: UserId) -> bool {
    exists|j: int| 0 <= j < users.len() && users[j].id == id
}

/// An id that a status update names and the directory does not know.
pub open spec fn unknown_update(users: Seq<User>, updates: Seq<(UserId, UserStatus)>, id: UserId) -> bool {
    &&& exists|m: int| 0 <= m < updates.len() && updates[m].0 == id
    &&& forall|u: int| 0 <= u < users.len() ==> users[u].id != id
}

/// What `scroll_down` does to the chat state.
pub open spec fn scroll_down_post(pre: ChatState, post: ChatState) -> bool {
    &&& match pre.focus {
            ChatFocus::ChatHistory => post.chat_scroll_offset == (if pre.chat_scroll_offset > 0 {
                pre.chat_scroll_offset - 1
            } else {
                0
            }),
            ChatFocus::Users(i) => post.focus == (if i + 1 < pre.users@.len() {
                ChatFocus::Users((i + 1) as usize)
            } else {
                pre.focus
            }),
            _ => post.chat_scroll_offset == pre.chat_scroll_offset,
        }
    &&& post.channels@.len() == pre.channels@.len()
    &&& post.chat_history == pre.chat_history
    &&& post.waiting_message_acks_id == pre.waiting_message_acks_id
    &&& post.incrementing_ack_id == pre.incrementing_ack_id
}

/// What `scroll_up` does to the chat state.
pub open spec fn scroll_up_post(pre: ChatState, post: ChatState) -> bool {
    &&& match pre.focus {
            ChatFocus::ChatHistory => post.chat_scroll_offset == (if pre.chat_scroll_offset
                < usize::MAX {
                pre.chat_scroll_offset + 1
            } else {
                usize::MAX as int
            }),
            ChatFocus::Users(i) => post.focus == (if i > 0 {
                ChatFocus::Users((i - 1) as usize)
            } else {
                pre.focus
            }),
            _ => post.chat_scroll_offset == pre.chat_scroll_offset,
        }
    &&& post.channels@.len() == pre.channels@.len()
    &&& post.chat_history == pre.chat_history
    &&& post.waiting_message_acks_id == pre.waiting_message_acks_id
    &&& post.incrementing_ack_id == pre.incrementing_ack_id
}

/// What `reply` does to the chat state.
pub open spec fn reply_post(pre: ChatState, post: ChatState) -> bool {
    &&& post.chat_history == pre.chat_history
    &&& post.waiting_message_acks_id == pre.waiting_message_acks_id
    &&& post.incrementing_ack_id == pre.incrementing_ack_id
    &&& post.replying_to matches Some(m) ==> exists|i: int|
            pre.is_selected(i) && m.message_id == pre.chat_history@[i].message_id && m.channel_id
                == pre.chat_history@[i].channel_id && !pre.is_reply_target(i)
    &&& post.replying_to is None ==> forall|i: int|
            pre.is_selected(i) ==> pre.is_reply_target(i)
}

/// What `user_status_update` does to the chat state.
pub open spec fn user_status_update_post(pre: ChatState, post: ChatState, user_id: UserId, status: UserStatus) -> bool {
    &&& post.users@.len() == pre.users@.len()
    &&& forall|k: int|
            0 <= k < post.users@.len() ==> (#[trigger] post.users@[k]).id == pre.users@[k].id
                && post.users@[k].name@ == pre.users@[k].name@
    &&& (exists|k: int| 0 <= k < pre.users@.len() && pre.users@[k].id == user_id) ==> exists|k: int|
            0 <= k < post.users@.len() && post.users@[k].id == user_id
                && post.users@[k].status == status
    &&& post.chat_history == pre.chat_history
    &&& post.waiting_message_acks_id == pre.waiting_message_acks_id
    &&& post.incrementing_ack_id == pre.incrementing_ack_id
}

/// The status that a run of updates leaves a user with, starting from `s`: the last update
/// for the user wins.
pub open spec fn status_after(updates: Seq<(UserId, UserStatus)>, id: UserId, s: UserStatus) -> UserStatus
    decreases updates.len(),
{
    if updates.len() == 0 {
        s
    } else if updates.last().0 == id {
        updates.last().1
    } else {
        status_after(updates.drop_last(), id, s)
    }
}

/// User `k` is the first in the directory with its id; updates go to that entry.
pub open spec fn is_first_user(users: Seq<User>, k: int) -> bool {
    &&& 0 <= k < users.len()
    &&& forall|j: int| 0 <= j < k ==> users[j].id != users[k].id
}

/// What `user_statuses_update` does to the chat state, and what it returns.
pub open spec fn user_statuses_update_post(pre: ChatState, post: ChatState, updates: Vec<(UserId, UserStatus)>, r: Option<ClientPayload>) -> bool {
    &&& post.users@.len() == pre.users@.len()
    &&& forall|k: int|
            0 <= k < post.users@.len() ==> (#[trigger] post.users@[k]).id == pre.users@[k].id
                && post.users@[k].name@ == pre.users@[k].name@
    &&& r matches Some(p) ==> p matches ClientPayload::Users(g) && g.user_ids@.len() > 0 && forall|j: int|
            0 <= j < g.user_ids@.len() ==> unknown_update(pre.users@, updates@, #[trigger] g.user_ids@[j])
    &&& r is None ==> forall|k: int| 0 <= k < updates@.len() ==> known_user(pre.users@, #[trigger] updates@[k].0)
    &&& r matches Some(p) ==> p matches ClientPayload::Users(g) && forall|m: int|
            0 <= m < updates@.len() && !known_user(pre.users@, #[trigger] updates@[m].0) ==> g.user_ids@.contains(
                updates@[m].0,
            )
    &&& forall|k: int|
            is_first_user(pre.users@, k) ==> (#[trigger] post.users@[k]).status == status_after(
                updates@,
                pre.users@[k].id,
                pre.users@[k].status,
            )
    &&& post.chat_history == pre.chat_history
    &&& post.waiting_message_acks_id == pre.waiting_message_acks_id
    &&& post.incrementing_ack_id == pre.incrementing_ack_id
}

/// The id and status of each user record.
pub open spec fn user_statuses(users: Seq<UserData>) -> Seq<(UserId, UserStatus)> {
    users.map_values(|u: UserData| (u.user_id, u.status))
}

/// What `users_update` does to the chat state.
pub open spec fn users_update_post(pre: ChatState, post: ChatState, users: Vec<UserData>) -> bool {
    &&& post.users@.len() >= pre.users@.len()
    &&& forall|k: int|
            0 <= k < pre.users@.len() ==> (#[trigger] post.users@[k]).id == pre.users@[k].id
                && post.users@[k].name@ == pre.users@[k].name@
    &&& forall|j: int| 0 <= j < users@.len() ==> known_user(post.users@, #[trigger] users@[j].user_id)
    &&& forall|k: int|
            is_first_user(pre.users@, k) ==> (#[trigger] post.users@[k]).status == status_after(
                user_statuses(users@),
                pre.users@[k].id,
                pre.users@[k].status,
            )
    &&& post.chat_history == pre.chat_history
    &&& post.waiting_message_acks_id == pre.waiting_message_acks_id
    &&& post.incrementing_ack_id == pre.incrementing_ack_id
}

impl ChatState {
    /// Scrolls the history towards newer messages, moves the selection down, or moves down the user list.
    pub fn scroll_down(&mut self)
        ensures
            scroll_down_post(*old(self), *final(self)),
    {
        match self.focus {
            ChatFocus::ChatHistory => {
                if self.chat_scroll_offset > 0 {
                    self.chat_scroll_offset = self.chat_scroll_offset - 1;
                }
            },
            ChatFocus::ChatHistorySelection => {
                if self.active_channel_idx < self.channels.len() {
                    let idx = self.active_channel_idx;
                    let count = self.channel_message_count(self.channels[idx].id);
                    let max_selection: usize = if count > self.chat_scroll_offset {
                        count - self.chat_scroll_offset - 1
                    } else {
                        0
                    };
                    if self.channels[idx].selection_offset < max_selection {
                        let c = &self.channels[idx];
                        let moved = DisplayChannel {
                            id: c.id,
                            name: c.name.clone(),
                            status: c.status,
                            selection_offset: c.selection_offset + 1,
                        };
                        self.channels.set(idx, moved);
                    }
                }
            },
            ChatFocus::Users(i) => {
                let n = self.users.len();
                if n > 0 && i < n - 1 {
                    self.focus = ChatFocus::Users(i + 1);
                }
            },
            _ => {},
        }
    }

    /// Scrolls the history towards older messages, moves the selection up, or moves up the user list.
    pub fn scroll_up(&mut self)
        ensures
            scroll_up_post(*old(self), *final(self)),
    {
        match self.focus {
            ChatFocus::ChatHistory => {
                if self.chat_scroll_offset < usize::MAX {
                    self.chat_scroll_offset = self.chat_scroll_offset + 1;
                }
            },
            ChatFocus::ChatHistorySelection => {
                if self.active_channel_idx < self.channels.len() {
                    let idx = self.active_channel_idx;
                    if self.channels[idx].selection_offset > 0 {
                        let c = &self.channels[idx];
                        let moved = DisplayChannel {
                            id: c.id,
                            name: c.name.clone(),
                            status: c.status,
                            selection_offset: c.selection_offset - 1,
                        };
                        self.channels.set(idx, moved);
                    }
                }
            },
            ChatFocus::Users(i) => {
                if i > 0 {
                    self.focus = ChatFocus::Users(i - 1);
                }
            },
            _ => {},
        }
    }

    /// The `n`-th message of a channel's history, counting from 0.
    pub fn nth_channel_message(&self, channel_id: ChannelId, n: usize) -> (r: Option<usize>)
        ensures
            match r {
                Some(i) => i < self.chat_history@.len() && self.chat_history@[i as int].channel_id == channel_id
                    && self.chat_history@.take(i as int).filter(in_channel(channel_id)).len() == n,
                None => self.chat_history@.filter(in_channel(channel_id)).len() <= n,
            },
    {
        let ghost f = in_channel(channel_id);
        let mut seen: usize = 0;
        let mut i: usize = 0;
        while i < self.chat_history.len()
            invariant
                i <= self.chat_history@.len(),
                f == in_channel(channel_id),
                seen == self.chat_history@.take(i as int).filter(f).len(),
                seen <= n,
                seen <= i,
            decreases self.chat_history@.len() - i,
        {
            proof {
                let t = self.chat_history@.take(i as int);
                assert(self.chat_history@.take(i + 1) =~= t.push(self.chat_history@[i as int]));
                t.lemma_filter_push(self.chat_history@[i as int], f);
            }
            assert(f(self.chat_history@[i as int]) == (self.chat_history@[i as int].channel_id == channel_id));
            if self.chat_history[i].channel_id == channel_id {
                if seen == n {
                    return Some(i);
                }
                seen = seen + 1;
            }
            i = i + 1;
        }
        assert(self.chat_history@.take(i as int) =~= self.chat_history@);
        None
    }

    /// Whether message `i` of the history is the one under the selection cursor: the active
    /// channel's message at the scroll offset plus the channel's selection offset.
    pub open spec fn is_selected(&self, i: int) -> bool {
        &&& self.active_channel_idx < self.channels@.len()
        &&& 0 <= i < self.chat_history@.len()
        &&& self.chat_history@[i].channel_id == self.channels@[self.active_channel_idx as int].id
        &&& self.chat_history@.take(i).filter(in_channel(self.channels@[self.active_channel_idx as int].id)).len()
            == self.chat_scroll_offset + self.channels@[self.active_channel_idx as int].selection_offset
    }

    /// Whether message `i` is the current reply target.
    pub open spec fn is_reply_target(&self, i: int) -> bool {
        self.replying_to matches Some(r) && r.message_id == self.chat_history@[i].message_id && r.channel_id
            == self.chat_history@[i].channel_id
    }

    /// Toggles the reply target to the selected message: selecting the target again clears it,
    /// and so does a selection that points at no message.
    pub fn reply(&mut self)
        ensures
            reply_post(*old(self), *final(self)),
    {
        if self.active_channel_idx < self.channels.len() {
            let channel = &self.channels[self.active_channel_idx];
            let count = self.chat_history.len();
            if self.chat_scroll_offset <= count && channel.selection_offset <= count - self.chat_scroll_offset {
                let n = self.chat_scroll_offset + channel.selection_offset;
                let found = self.nth_channel_message(channel.id, n);
                if found.is_none() {
                    proof {
                        assert forall|i: int| old(self).is_selected(i) implies old(self).is_reply_target(i) by {
                            let c = self.channels@[self.active_channel_idx as int].id;
                            let h = self.chat_history@;
                            assert(h.take(i).filter(in_channel(c)).len() < h.filter(in_channel(c)).len()) by {
                                lemma_rank_below(h, c, i);
                            }
                        }
                    }
                }
                if let Some(i) = found {
                    let selected = &self.chat_history[i];
                    let same = match &self.replying_to {
                        Some(r) => r.message_id == selected.message_id && r.channel_id == selected.channel_id,
                        None => false,
                    };
                    proof {
                        assert(old(self).is_selected(i as int));
                    }
                    if same {
                        self.replying_to = None;
                        proof {
                            assert forall|j: int| old(self).is_selected(j) implies old(self).is_reply_target(j) by {
                                let c = self.channels@[self.active_channel_idx as int].id;
                                lemma_rank_unique(self.chat_history@, c, i as int, j);
                            }
                        }
                    } else {
                        let mut target = selected.clone();
                        target.message_id = selected.message_id;
                        target.channel_id = selected.channel_id;
                        self.replying_to = Some(target);
                    }
                    return;
                }
            }
        }
        self.replying_to = None;
        proof {
            assert forall|i: int| old(self).is_selected(i) implies old(self).is_reply_target(i) by {
                if self.active_channel_idx < self.channels@.len() {
                    let ch = self.channels@[self.active_channel_idx as int];
                    let c = ch.id;
                    let h = self.chat_history@;
                    lemma_rank_below(h, c, i);
                    assert(h.take(i).filter(in_channel(c)).len() <= h.len()) by {
                        h.take(i).filter_lemma(in_channel(c));
                    }
                }
            }
        }
    }

    /// Finds a user in the directory.
    pub fn find_user(&self, user_id: UserId) -> (r: Option<usize>)
        ensures
            match r {
                Some(k) => k < self.users@.len() && self.users@[k as int].id == user_id && forall|j: int|
                    0 <= j < k ==> self.users@[j].id != user_id,
                None => forall|k: int| 0 <= k < self.users@.len() ==> self.users@[k].id != user_id,
            },
    {
        let mut k: usize = 0;
        while k < self.users.len()
            invariant
                k <= self.users@.len(),
                forall|j: int| 0 <= j < k ==> self.users@[j].id != user_id,
            decreases self.users@.len() - k,
        {
            if self.users[k].id == user_id {
                return Some(k);
            }
            k = k + 1;
        }
        None
    }

    /// Sets the status of user `k`, keeping the name.
    fn set_user_status(&mut self, k: usize, status: UserStatus)
        requires
            k < old(self).users@.len(),
        ensures
            final(self).users@.len() == old(self).users@.len(),
            final(self).users@[k as int].status == status,
            final(self).users@[k as int].id == old(self).users@[k as int].id,
            final(self).users@[k as int].name@ == old(self).users@[k as int].name@,
            forall|j: int| 0 <= j < old(self).users@.len() && j != k ==> final(self).users@[j] == old(self).users@[j],
            final(self).chat_history == old(self).chat_history,
            final(self).waiting_message_acks_id == old(self).waiting_message_acks_id,
            final(self).incrementing_ack_id == old(self).incrementing_ack_id,
    {
        let u = User { id: self.users[k].id, name: self.users[k].name.clone(), status };
        self.users.set(k, u);
    }

    /// A new status for one user in the directory; an unknown user is ignored.
    pub fn user_status_update(&mut self, user_id: UserId, status: UserStatus)
        ensures
            user_status_update_post(*old(self), *final(self), user_id, status),
    {
        if let Some(k) = self.find_user(user_id) {
            self.set_user_status(k, status);
        }
    }

    /// New statuses for users: known users take them, and the ids of unknown users come back in a
    /// request for their records, where there are any.
    pub fn user_statuses_update(&mut self, updates: &Vec<(UserId, UserStatus)>) -> (r: Option<ClientPayload>)
        ensures
            user_statuses_update_post(*old(self), *final(self), *updates, r),
    {
        let mut missing: Vec<UserId> = Vec::new();
        let mut k: usize = 0;
        while k < updates.len()
            invariant
                k <= updates@.len(),
                self.users@.len() == old(self).users@.len(),
                forall|j: int|
                    0 <= j < self.users@.len() ==> (#[trigger] self.users@[j]).id == old(self).users@[j].id
                        && self.users@[j].name@ == old(self).users@[j].name@,
                forall|j: int|
                    0 <= j < missing@.len() ==> unknown_update(old(self).users@, updates@, #[trigger] missing@[j]),
                missing@.len() == 0 ==> forall|m: int| 0 <= m < k ==> known_user(old(self).users@, #[trigger] updates@[m].0),
                forall|m: int|
                    0 <= m < k && !known_user(old(self).users@, #[trigger] updates@[m].0) ==> missing@.contains(
                        updates@[m].0,
                    ),
                forall|q: int|
                    is_first_user(old(self).users@, q) ==> (#[trigger] self.users@[q]).status == status_after(
                        updates@.take(k as int),
                        old(self).users@[q].id,
                        old(self).users@[q].status,
                    ),
                self.chat_history == old(self).chat_history,
                self.waiting_message_acks_id == old(self).waiting_message_acks_id,
                self.incrementing_ack_id == old(self).incrementing_ack_id,
            decreases updates@.len() - k,
        {
            let (user_id, status) = updates[k];
            assert(updates@[k as int] == (user_id, status));
            let ghost users0 = self.users@;
            proof {
                assert(updates@.take(k + 1).drop_last() =~= updates@.take(k as int));
                assert(updates@.take(k + 1).last() == updates@[k as int]);
            }
            match self.find_user(user_id) {
                Some(u) => {
                    assert(forall|j: int| 0 <= j < u ==> users0[j].id != user_id);
                    assert(forall|j: int| 0 <= j < users0.len() ==> users0[j].id == old(self).users@[j].id);
                    self.set_user_status(u, status);
                    assert(old(self).users@[u as int].id == user_id);
                    assert forall|q: int| is_first_user(old(self).users@, q) implies (#[trigger] self.users@[q]).status
                        == status_after(updates@.take(k + 1), old(self).users@[q].id, old(self).users@[q].status) by {
                        let t = updates@.take(k + 1);
                        assert(t.last().0 == user_id && t.last().1 == status);
                        if old(self).users@[q].id == user_id {
                            if q < u {
                                assert(users0[q].id == old(self).users@[q].id);
                                assert(users0[q].id != user_id);
                            } else if q > u {
                                assert(old(self).users@[u as int].id == old(self).users@[q].id);
                            }
                            assert(q == u);
                            assert(status_after(t, user_id, old(self).users@[q].status) == status);
                        } else {
                            assert(q != u);
                            assert(self.users@[q] == users0[q]);
                            assert(users0[q].status == status_after(
                                updates@.take(k as int),
                                old(self).users@[q].id,
                                old(self).users@[q].status,
                            ));
                            assert(status_after(t, old(self).users@[q].id, old(self).users@[q].status) == status_after(
                                t.drop_last(),
                                old(self).users@[q].id,
                                old(self).users@[q].status,
                            ));
                        }
                    }
                    assert forall|m: int|
                        0 <= m < k + 1 && !known_user(old(self).users@, #[trigger] updates@[m].0) implies missing@.contains(
                        updates@[m].0,
                    ) by {
                        if m == k {
                            assert(known_user(old(self).users@, updates@[m].0));
                        }
                    }
                },
                None => {
                    let ghost before = missing@;
                    missing.push(user_id);
                    assert(updates@[k as int].0 == user_id);
                    assert forall|u: int| 0 <= u < old(self).users@.len() implies old(self).users@[u].id != user_id by {
                        assert(self.users@[u].id == old(self).users@[u].id);
                    }
                    assert(unknown_update(old(self).users@, updates@, user_id));
                    assert forall|q: int| 0 <= q < missing@.len() implies unknown_update(
                        old(self).users@,
                        updates@,
                        #[trigger] missing@[q],
                    ) by {
                        if q < before.len() {
                            assert(missing@[q] == before[q]);
                        }
                    }
                    assert forall|m: int|
                        0 <= m < k + 1 && !known_user(old(self).users@, #[trigger] updates@[m].0) implies missing@.contains(
                        updates@[m].0,
                    ) by {
                        if m < k {
                            let w = choose|w: int| 0 <= w < before.len() && before[w] == updates@[m].0;
                            assert(missing@[w] == before[w]);
                        } else {
                            assert(missing@[before.len() as int] == user_id);
                        }
                    }
                    assert forall|q: int| is_first_user(old(self).users@, q) implies (#[trigger] self.users@[q]).status
                        == status_after(updates@.take(k + 1), old(self).users@[q].id, old(self).users@[q].status) by {
                        assert(old(self).users@[q].id != user_id);
                    }
                },
            }
            k = k + 1;
        }
        assert(updates@.take(updates@.len() as int) =~= updates@);
        if missing.len() == 0 {
            None
        } else {
            Some(ClientPayload::Users(GetUsersPacket { user_ids: missing }))
        }
    }

    /// Merges user records into the directory: a known user takes the new status and keeps
    /// their name; an unknown one is added.
    #[verifier::spinoff_prover]
    #[verifier::rlimit(100)]
    pub fn users_update(&mut self, users: &Vec<UserData>)
        ensures
            users_update_post(*old(self), *final(self), *users),
    {
        let mut j: usize = 0;
        while j < users.len()
            invariant
                j <= users@.len(),
                self.users@.len() >= old(self).users@.len(),
                forall|k: int|
                    0 <= k < old(self).users@.len() ==> (#[trigger] self.users@[k]).id == old(self).users@[k].id
                        && self.users@[k].name@ == old(self).users@[k].name@,
                forall|m: int| 0 <= m < j ==> known_user(self.users@, #[trigger] users@[m].user_id),
                forall|q: int|
                    is_first_user(old(self).users@, q) ==> (#[trigger] self.users@[q]).status == status_after(
                        user_statuses(users@.take(j as int)),
                        old(self).users@[q].id,
                        old(self).users@[q].status,
                    ),
                self.chat_history == old(self).chat_history,
                self.waiting_message_acks_id == old(self).waiting_message_acks_id,
                self.incrementing_ack_id == old(self).incrementing_ack_id,
            decreases users@.len() - j,
        {
            let user = &users[j];
            let ghost t = user_statuses(users@.take(j + 1));
            proof {
                assert(t.drop_last() =~= user_statuses(users@.take(j as int)));
                assert(t.last() == (user.user_id, user.status));
            }
            match self.find_user(user.user_id) {
                Some(k) => {
                    let ghost before = self.users@;
                    assert(forall|i: int| 0 <= i < k ==> before[i].id != user.user_id);
                    assert(forall|i: int| 0 <= i < old(self).users@.len() ==> before[i].id == old(self).users@[i].id);
                    self.set_user_status(k, user.status);
                    assert forall|q: int| is_first_user(old(self).users@, q) implies (#[trigger] self.users@[q]).status
                        == status_after(t, old(self).users@[q].id, old(self).users@[q].status) by {
                        if old(self).users@[q].id == user.user_id {
                            if q < k {
                                assert(before[q].id != user.user_id);
                            } else if q > k {
                                assert(old(self).users@[k as int].id == before[k as int].id);
                            }
                            assert(q == k);
                        } else {
                            assert(q != k);
                            assert(self.users@[q] == before[q]);
                            assert(status_after(t, old(self).users@[q].id, old(self).users@[q].status) == status_after(
                                t.drop_last(),
                                old(self).users@[q].id,
                                old(self).users@[q].status,
                            ));
                        }
                    }
                    assert forall|m: int| 0 <= m <= j implies known_user(self.users@, #[trigger] users@[m].user_id) by {
                        if m < j {
                            let q2 = choose|q2: int| 0 <= q2 < before.len() && before[q2].id == users@[m].user_id;
                            if q2 != k {
                                assert(self.users@[q2] == before[q2]);
                            } else {
                                assert(self.users@[q2].id == before[q2].id);
                            }
                        } else {
                            assert(self.users@[k as int].id == users@[m].user_id);
                        }
                    }
                },
                None => {
                    let ghost before = self.users@;
                    self.users.push(User { id: user.user_id, name: user.username.clone(), status: user.status });
                    assert forall|q: int| is_first_user(old(self).users@, q) implies (#[trigger] self.users@[q]).status
                        == status_after(t, old(self).users@[q].id, old(self).users@[q].status) by {
                        assert(before[q].id == old(self).users@[q].id);
                        assert(self.users@[q] == before[q]);
                        assert(status_after(t, old(self).users@[q].id, old(self).users@[q].status) == status_after(
                            t.drop_last(),
                            old(self).users@[q].id,
                            old(self).users@[q].status,
                        ));
                    }
                    assert forall|m: int| 0 <= m <= j implies known_user(self.users@, #[trigger] users@[m].user_id) by {
                        if m < j {
                            let q2 = choose|q2: int| 0 <= q2 < before.len() && before[q2].id == users@[m].user_id;
                            assert(self.users@[q2] == before[q2]);
                        } else {
                            assert(self.users@[before.len() as int].id == users@[m].user_id);
                        }
                    }
                },
            }
            j = j + 1;
        }
        assert(users@.take(users@.len() as int) =~= users@);
    }
}

/// What `typing` does to the chat state.
pub open spec fn typing_post(pre: ChatState, post: ChatState, channel_id: ChannelId, user_id: UserId, is_typing: bool) -> bool {
    &&& known_user(pre.users@, user_id) ==> has_typing(post.users_typing@, channel_id, user_id)
            == is_typing
    &&& !known_user(pre.users@, user_id) ==> post.users_typing@ == pre.users_typing@
    &&& post.chat_history == pre.chat_history
    &&& post.waiting_message_acks_id == pre.waiting_message_acks_id
    &&& post.incrementing_ack_id == pre.incrementing_ack_id
}

/// What `typing_expired` does to the chat state, and what it returns.
pub open spec fn typing_expired_post(pre: ChatState, post: ChatState, now_millis: u64, r: Option<ClientPayload>) -> bool {
    &&& ({
            let expired = pre.is_typing && now_millis >= pre.time_since_last_typing
                && now_millis - pre.time_since_last_typing >= TYPING_EXPIRY_MILLIS;
            &&& post.is_typing == (pre.is_typing && !expired)
            &&& (post.is_typing && now_millis >= post.time_since_last_typing ==> now_millis
                - post.time_since_last_typing < TYPING_EXPIRY_MILLIS)
            &&& (r is Some <==> expired && pre.active_channel_id() is Some)
            &&& r matches Some(p) ==> is_typing_request(p, pre.active_channel_id()->Some_0, false)
        })
    &&& post.chat_history == pre.chat_history
    &&& post.waiting_message_acks_id == pre.waiting_message_acks_id
    &&& post.incrementing_ack_id == pre.incrementing_ack_id
}

/// What `channels_update` does to the chat state, and what it returns.
pub open spec fn channels_update_post(pre: ChatState, post: ChatState, channels: Vec<Channel>, now_secs: u64, r: Vec<ClientPayload>) -> bool {
    &&& post.channels@.len() == pre.channels@.len() + channels@.len()
    &&& post.channels@.take(pre.channels@.len() as int) == pre.channels@
    &&& forall|j: int|
            0 <= j < channels@.len() ==> (#[trigger] post.channels@[pre.channels@.len() + j]).id
                == channels@[j].channel_id
    &&& r@.len() == channels@.len()
    &&& forall|j: int|
            0 <= j < channels@.len() ==> is_history_request(#[trigger] r@[j], channels@[j].channel_id, now_secs)
    &&& forall|j: int| 0 <= j < channels@.len() ==> has_input(post.chat_inputs@, #[trigger] channels@[j].channel_id)
    &&& post.chat_history == pre.chat_history
    &&& post.waiting_message_acks_id == pre.waiting_message_acks_id
    &&& post.incrementing_ack_id == pre.incrementing_ack_id
}

impl ChatState {
    /// Another user started or stopped typing in a channel; users the directory does not know are ignored.
    pub fn typing(&mut self, channel_id: ChannelId, user_id: UserId, is_typing: bool)
        ensures
            typing_post(*old(self), *final(self), channel_id, user_id, is_typing),
    {
        let u = match self.find_user(user_id) {
            Some(u) => u,
            None => return,
        };
        let name = self.users[u].name.clone();
        let mut kept: Vec<TypingUser> = Vec::new();
        let mut k: usize = 0;
        while k < self.users_typing.len()
            invariant
                k <= self.users_typing@.len(),
                forall|j: int|
                    0 <= j < kept@.len() ==> !(kept@[j].channel_id == channel_id && kept@[j].user_id == user_id),
            decreases self.users_typing@.len() - k,
        {
            let t = &self.users_typing[k];
            if !(t.channel_id == channel_id && t.user_id == user_id) {
                kept.push(TypingUser { channel_id: t.channel_id, user_id: t.user_id, name: t.name.clone() });
            }
            k = k + 1;
        }
        if is_typing {
            kept.push(TypingUser { channel_id, user_id, name });
            assert(kept@[kept@.len() - 1].channel_id == channel_id);
            assert(has_typing(kept@, channel_id, user_id));
        } else {
            assert(!has_typing(kept@, channel_id, user_id));
        }
        self.users_typing = kept;
        assert(known_user(old(self).users@, user_id));
    }

    /// The typing notice runs out: once the last keystroke lies the expiry window back, the
    /// server is told that the user stopped typing in the active channel.
    pub fn typing_expired(&mut self, now_millis: u64) -> (r: Option<ClientPayload>)
        ensures
            typing_expired_post(*old(self), *final(self), now_millis, r),
    {
        if !self.is_typing || now_millis < self.time_since_last_typing || now_millis - self.time_since_last_typing
            < TYPING_EXPIRY_MILLIS {
            return None;
        }
        self.is_typing = false;
        if self.active_channel_idx < self.channels.len() {
            Some(
                ClientPayload::Typing(
                    TypingPacket { is_typing: false, channel_id: self.channels[self.active_channel_idx].id },
                ),
            )
        } else {
            None
        }
    }

    /// Adds channels that the server described: each gets an empty input line, and for each the
    /// history back from `now_secs` is requested.
    pub fn channels_update(&mut self, channels: Vec<Channel>, now_secs: u64) -> (r: Vec<ClientPayload>)
        ensures
            channels_update_post(*old(self), *final(self), channels, now_secs, r),
    {
        let mut requests: Vec<ClientPayload> = Vec::new();
        let ghost given = channels@;
        let ghost n0 = self.channels@.len();
        let count = channels.len();
        let mut j: usize = 0;
        while j < count
            invariant
                count == given.len(),
                given == channels@,
                j <= given.len(),
                self.channels@.len() == n0 + j,
                n0 == old(self).channels@.len(),
                self.channels@.take(n0 as int) == old(self).channels@,
                forall|q: int| 0 <= q < j ==> (#[trigger] self.channels@[n0 + q]).id == given[q].channel_id,
                requests@.len() == j,
                forall|q: int|
                    0 <= q < j ==> is_history_request(#[trigger] requests@[q], given[q].channel_id, now_secs),
                forall|q: int| 0 <= q < j ==> has_input(self.chat_inputs@, #[trigger] given[q].channel_id),
                self.chat_history == old(self).chat_history,
                self.waiting_message_acks_id == old(self).waiting_message_acks_id,
                self.incrementing_ack_id == old(self).incrementing_ack_id,
            decreases given.len() - j,
        {
            let channel = &channels[j];
            let channel_id = channel.channel_id;
            let ghost inputs0 = self.chat_inputs@;
            match self.find_input(channel_id) {
                Some(k) => {
                    self.chat_inputs.set(k, ChatInput { channel_id, text: Vec::new() });
                    assert forall|q: int| 0 <= q <= j implies has_input(self.chat_inputs@, #[trigger] given[q].channel_id) by {
                        if q < j {
                            let m = choose|m: int|
                                0 <= m < inputs0.len() && inputs0[m].channel_id == given[q].channel_id;
                            if m != k {
                                assert(self.chat_inputs@[m] == inputs0[m]);
                            } else {
                                assert(self.chat_inputs@[m].channel_id == channel_id);
                            }
                        } else {
                            assert(self.chat_inputs@[k as int].channel_id == given[q].channel_id);
                        }
                    }
                },
                None => {
                    self.chat_inputs.push(ChatInput { channel_id, text: Vec::new() });
                    assert forall|q: int| 0 <= q <= j implies has_input(self.chat_inputs@, #[trigger] given[q].channel_id) by {
                        if q < j {
                            let m = choose|m: int|
                                0 <= m < inputs0.len() && inputs0[m].channel_id == given[q].channel_id;
                            assert(self.chat_inputs@[m] == inputs0[m]);
                        } else {
                            assert(self.chat_inputs@[inputs0.len() as int].channel_id == given[q].channel_id);
                        }
                    }
                },
            }
            let ghost channels0 = self.channels@;
            self.channels.push(
                DisplayChannel {
                    id: channel_id,
                    name: channel.name.clone(),
                    status: crate::tui::chat::ChannelStatus::Read,
                    selection_offset: 0,
                },
            );
            assert(self.channels@.take(n0 as int) =~= channels0.take(n0 as int));
            requests.push(
                ClientPayload::History(
                    GetHistoryPacket {
                        channel_id,
                        anchor: Anchor::Timestamp(now_secs),
                        num_messages_back: HISTORY_REQUEST_DEPTH,
                    },
                ),
            );
            j = j + 1;
        }
        requests
    }
}

} // verus!
