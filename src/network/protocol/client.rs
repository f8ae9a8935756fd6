//! Requests that the client sends, and their exact bytes.
use vstd::prelude::*;
use vstd::utf8::*;

use crate::network::protocol::header::{Header, PacketType, HEADER_LENGTH};
use crate::network::protocol::server::{HealthCheckPacket, HealthKind};
use crate::network::protocol::wire::{be_bytes, push_all, push_be};
use crate::network::protocol::{encode_list, MediaType, UserStatus};
use crate::tui::events::{ChannelId, MediaId, MessageId, UserId};

verus! {

/// A value with an exact byte form on the wire.
pub trait Serialize: Sized {
    spec fn spec_serialize(&self) -> Seq<u8>;

    fn serialize(self) -> (r: Vec<u8>)
        ensures
            r@ == self.spec_serialize(),
    ;
}

#[derive(Debug, Clone, Copy, PartialEq, Eq, Structural)]
pub enum ClientPacketType {
    Healthcheck,
    Login,
    SendMessage,
    SendMedia,
    ChannelsList,
    Channels,
    History,
    UserStatuses,
    Users,
    Media,
    Typing,
    Status,
}

impl ClientPacketType {
    pub open spec fn spec_byte(self) -> u8 {
        match self {
            ClientPacketType::Healthcheck => 0x80,
            ClientPacketType::Login => 0x81,
            ClientPacketType::SendMessage => 0x82,
            ClientPacketType::SendMedia => 0x83,
            ClientPacketType::ChannelsList => 0x84,
            ClientPacketType::Channels => 0x85,
            ClientPacketType::History => 0x86,
            ClientPacketType::UserStatuses => 0x87,
            ClientPacketType::Users => 0x88,
            ClientPacketType::Media => 0x89,
            ClientPacketType::Typing => 0x8A,
            ClientPacketType::Status => 0x8B,
        }
    }

    pub fn to_byte(&self) -> (r: u8)
        ensures
            r == self.spec_byte(),
    {
        match self {
            ClientPacketType::Healthcheck => 0x80,
            ClientPacketType::Login => 0x81,
            ClientPacketType::SendMessage => 0x82,
            ClientPacketType::SendMedia => 0x83,
            ClientPacketType::ChannelsList => 0x84,
            ClientPacketType::Channels => 0x85,
            ClientPacketType::History => 0x86,
            ClientPacketType::UserStatuses => 0x87,
            ClientPacketType::Users => 0x88,
            ClientPacketType::Media => 0x89,
            ClientPacketType::Typing => 0x8A,
            ClientPacketType::Status => 0x8B,
        }
    }
}

impl Serialize for ClientPacketType {
    open spec fn spec_serialize(&self) -> Seq<u8> {
        seq![self.spec_byte()]
    }

    fn serialize(self) -> (r: Vec<u8>) {
        let b = self.to_byte();
        let mut r: Vec<u8> = Vec::new();
        r.push(b);
        assert(r@ =~= seq![b]);
        assert(r@ == self.spec_serialize());
        r
    }
}

/// Text as the bytes of its UTF-8 form.
fn push_text(out: &mut Vec<u8>, s: &String)
    ensures
        final(out)@ == old(out)@ + encode_utf8(s@),
{
    push_all(out, s.as_str().as_bytes());
}

/// A big-endian 64-bit number.
pub open spec fn u64_bytes(x: u64) -> Seq<u8> {
    be_bytes(x as nat, 8)
}

/// Writes one 64-bit id.
pub open spec fn u64_enc() -> spec_fn(u64) -> Seq<u8> {
    |x: u64| u64_bytes(x)
}

fn push_u64_list(out: &mut Vec<u8>, xs: &Vec<u64>)
    ensures
        final(out)@ == old(out)@ + encode_list(xs@, u64_enc()),
{
    let mut i: usize = 0;
    while i < xs.len()
        invariant
            i <= xs@.len(),
            out@ == old(out)@ + encode_list(xs@.take(i as int), u64_enc()),
        decreases xs@.len() - i,
    {
        proof {
            assert(xs@.take(i + 1).drop_last() =~= xs@.take(i as int));
        }
        push_be(out, xs[i], 8);
        i = i + 1;
        assert(out@ =~= old(out)@ + encode_list(xs@.take(i as int), u64_enc()));
    }
    assert(xs@.take(xs@.len() as int) =~= xs@);
}

#[derive(Debug, Clone)]
pub enum ClientPayload {
    Login(LoginPacket),
    Health(HealthCheckPacket),
    Channels(GetChannelsPacket),
    SendMessage(SendMessagePacket),
    SendMedia(SendMediaPacket),
    ChannelsList,
    UserStatuses,
    Users(GetUsersPacket),
    History(GetHistoryPacket),
    Media(GetMediaPacket),
    Typing(TypingPacket),
    Status(StatusPacket),
}

impl ClientPayload {
    /// The packet type that carries this payload.
    pub open spec fn spec_packet_type(&self) -> ClientPacketType {
        match self {
            ClientPayload::Login(_) => ClientPacketType::Login,
            ClientPayload::Health(_) => ClientPacketType::Healthcheck,
            ClientPayload::Channels(_) => ClientPacketType::Channels,
            ClientPayload::SendMessage(_) => ClientPacketType::SendMessage,
            ClientPayload::SendMedia(_) => ClientPacketType::SendMedia,
            ClientPayload::ChannelsList => ClientPacketType::ChannelsList,
            ClientPayload::UserStatuses => ClientPacketType::UserStatuses,
            ClientPayload::Users(_) => ClientPacketType::Users,
            ClientPayload::History(_) => ClientPacketType::History,
            ClientPayload::Media(_) => ClientPacketType::Media,
            ClientPayload::Typing(_) => ClientPacketType::Typing,
            ClientPayload::Status(_) => ClientPacketType::Status,
        }
    }

    pub fn packet_type(&self) -> (r: ClientPacketType)
        ensures
            r == self.spec_packet_type(),
    {
        match self {
            ClientPayload::Login(_) => ClientPacketType::Login,
            ClientPayload::Health(_) => ClientPacketType::Healthcheck,
            ClientPayload::Channels(_) => ClientPacketType::Channels,
            ClientPayload::SendMessage(_) => ClientPacketType::SendMessage,
            ClientPayload::SendMedia(_) => ClientPacketType::SendMedia,
            ClientPayload::ChannelsList => ClientPacketType::ChannelsList,
            ClientPayload::UserStatuses => ClientPacketType::UserStatuses,
            ClientPayload::Users(_) => ClientPacketType::Users,
            ClientPayload::History(_) => ClientPacketType::History,
            ClientPayload::Media(_) => ClientPacketType::Media,
            ClientPayload::Typing(_) => ClientPacketType::Typing,
            ClientPayload::Status(_) => ClientPacketType::Status,
        }
    }

    /// The whole frame: header, then payload.
    pub open spec fn spec_frame(&self) -> Seq<u8> {
        let p = self.spec_serialize();
        seq![0x43u8, 0x48u8, 0x54u8, 0x47u8, 0x01u8, self.spec_packet_type().spec_byte()] + be_bytes(
            (p.len() as u32) as nat,
            4,
        ) + p
    }

    /// Builds the frame that carries this payload; its header gives the payload's length.
    pub fn encode_frame(self) -> (r: Vec<u8>)
        ensures
            r@ == self.spec_frame(),
    {
        let ghost this = self;
        let packet_type = self.packet_type();
        let payload = self.serialize();
        let header = Header::new(PacketType::Client(packet_type), payload.len() as u32);
        let mut frame = header.serialize();
        push_all(&mut frame, payload.as_slice());
        assert(header.magic_number@ =~= seq![0x43u8, 0x48u8, 0x54u8, 0x47u8]);
        assert(frame@ =~= this.spec_frame());
        frame
    }
}

impl Serialize for ClientPayload {
    open spec fn spec_serialize(&self) -> Seq<u8> {
        match self {
            ClientPayload::Login(p) => p.spec_serialize(),
            ClientPayload::Health(p) => p.spec_serialize(),
            ClientPayload::Channels(p) => p.spec_serialize(),
            ClientPayload::SendMessage(p) => p.spec_serialize(),
            ClientPayload::SendMedia(p) => p.spec_serialize(),
            ClientPayload::ChannelsList => seq![],
            ClientPayload::UserStatuses => seq![],
            ClientPayload::Users(p) => p.spec_serialize(),
            ClientPayload::History(p) => p.spec_serialize(),
            ClientPayload::Media(p) => p.spec_serialize(),
            ClientPayload::Typing(p) => p.spec_serialize(),
            ClientPayload::Status(p) => p.spec_serialize(),
        }
    }

    fn serialize(self) -> (r: Vec<u8>) {
        match self {
            ClientPayload::Login(p) => p.serialize(),
            ClientPayload::Health(p) => p.serialize(),
            ClientPayload::Channels(p) => p.serialize(),
            ClientPayload::SendMessage(p) => p.serialize(),
            ClientPayload::SendMedia(p) => p.serialize(),
            ClientPayload::ChannelsList => {
                let r: Vec<u8> = Vec::new();
                assert(r@ =~= seq![]);
                r
            },
            ClientPayload::UserStatuses => {
                let r: Vec<u8> = Vec::new();
                assert(r@ =~= seq![]);
                r
            },
            ClientPayload::Users(p) => p.serialize(),
            ClientPayload::History(p) => p.serialize(),
            ClientPayload::Media(p) => p.serialize(),
            ClientPayload::Typing(p) => p.serialize(),
            ClientPayload::Status(p) => p.serialize(),
        }
    }
}

impl Serialize for HealthKind {
    open spec fn spec_serialize(&self) -> Seq<u8> {
        seq![self.spec_byte()]
    }

    fn serialize(self) -> (r: Vec<u8>) {
        let b = self.to_byte();
        assert(b == self.spec_byte());
        let mut r: Vec<u8> = Vec::new();
        r.push(b);
        assert(r@ =~= seq![b]);
        assert(r@ == self.spec_serialize());
        r
    }
}

impl Serialize for HealthCheckPacket {
    open spec fn spec_serialize(&self) -> Seq<u8> {
        seq![self.kind.spec_byte()]
    }

    fn serialize(self) -> (r: Vec<u8>) {
        self.kind.serialize()
    }
}

impl Serialize for MediaType {
    open spec fn spec_serialize(&self) -> Seq<u8> {
        seq![self.spec_byte()]
    }

    fn serialize(self) -> (r: Vec<u8>) {
        let b = self.to_byte();
        let mut r: Vec<u8> = Vec::new();
        r.push(b);
        assert(r@ =~= seq![b]);
        assert(r@ == self.spec_serialize());
        r
    }
}

impl Serialize for UserStatus {
    open spec fn spec_serialize(&self) -> Seq<u8> {
        seq![self.spec_byte()]
    }

    fn serialize(self) -> (r: Vec<u8>) {
        let b = self.to_byte();
        let mut r: Vec<u8> = Vec::new();
        r.push(b);
        assert(r@ =~= seq![b]);
        assert(r@ == self.spec_serialize());
        r
    }
}

/// Credentials: the username, one NUL byte, the password.
#[derive(Debug, Clone)]
pub struct LoginPacket {
    pub username: String,
    pub password: String,
}

impl Serialize for LoginPacket {
    open spec fn spec_serialize(&self) -> Seq<u8> {
        encode_utf8(self.username@) + seq![0u8] + encode_utf8(self.password@)
    }

    fn serialize(self) -> (r: Vec<u8>) {
        let mut bytes: Vec<u8> = Vec::new();
        push_text(&mut bytes, &self.username);
        bytes.push(0u8);
        push_text(&mut bytes, &self.password);
        assert(bytes@ =~= self.spec_serialize());
        bytes
    }
}

/// A request for the full records of some channels.
#[derive(Debug, Clone)]
pub struct GetChannelsPacket {
    pub channel_ids: Vec<ChannelId>,
}

impl Serialize for GetChannelsPacket {
    /// A two-byte count, then each id.
    open spec fn spec_serialize(&self) -> Seq<u8> {
        be_bytes(self.channel_ids@.len(), 2) + encode_list(self.channel_ids@, u64_enc())
    }

    fn serialize(self) -> (r: Vec<u8>) {
        let mut bytes: Vec<u8> = Vec::new();
        push_be(&mut bytes, self.channel_ids.len() as u64, 2);
        push_u64_list(&mut bytes, &self.channel_ids);
        assert(bytes@ =~= self.spec_serialize());
        bytes
    }
}

/// A request for the records of some users.
#[derive(Debug, Clone)]
pub struct GetUsersPacket {
    pub user_ids: Vec<UserId>,
}

impl Serialize for GetUsersPacket {
    /// A one-byte count, then each id.
    open spec fn spec_serialize(&self) -> Seq<u8> {
        be_bytes(self.user_ids@.len(), 1) + encode_list(self.user_ids@, u64_enc())
    }

    fn serialize(self) -> (r: Vec<u8>) {
        let mut bytes: Vec<u8> = Vec::new();
        push_be(&mut bytes, self.user_ids.len() as u64, 1);
        push_u64_list(&mut bytes, &self.user_ids);
        assert(bytes@ =~= self.spec_serialize());
        bytes
    }
}

/// Where a history request starts: a Unix time, or a message.
#[derive(Debug, Clone, Copy, PartialEq, Eq, Structural)]
pub enum Anchor {
    Timestamp(u64),
    MessageId(u64),
}

/// The flag bit that marks a message id anchor.
pub const ANCHOR_MESSAGE_FLAG: u64 = 0x8000_0000_0000_0000;

impl Anchor {
    /// The low 63 bits of the value, with the top bit set for a message id.
    pub open spec fn spec_value(self) -> nat {
        match self {
            Anchor::Timestamp(x) => (x % 0x8000_0000_0000_0000) as nat,
            Anchor::MessageId(x) => (x % 0x8000_0000_0000_0000 + 0x8000_0000_0000_0000) as nat,
        }
    }
}

impl Serialize for Anchor {
    open spec fn spec_serialize(&self) -> Seq<u8> {
        be_bytes(self.spec_value(), 8)
    }

    fn serialize(self) -> (r: Vec<u8>) {
        let v: u64 = match self {
            Anchor::Timestamp(x) => x % ANCHOR_MESSAGE_FLAG,
            Anchor::MessageId(x) => x % ANCHOR_MESSAGE_FLAG + ANCHOR_MESSAGE_FLAG,
        };
        let mut bytes: Vec<u8> = Vec::new();
        push_be(&mut bytes, v, 8);
        assert(bytes@ =~= self.spec_serialize());
        bytes
    }
}

/// A request for up to `num_messages_back` messages of a channel around an anchor;
/// a negative count reaches forward in time.
#[derive(Debug, Clone)]
pub struct GetHistoryPacket {
    pub channel_id: ChannelId,
    pub anchor: Anchor,
    pub num_messages_back: i8,
}

/// The two's complement byte of a signed byte.
pub open spec fn i8_byte(n: i8) -> u8 {
    if n >= 0 {
        n as u8
    } else {
        (n + 256) as u8
    }
}

impl Serialize for GetHistoryPacket {
    open spec fn spec_serialize(&self) -> Seq<u8> {
        u64_bytes(self.channel_id) + self.anchor.spec_serialize() + seq![i8_byte(self.num_messages_back)]
    }

    fn serialize(self) -> (r: Vec<u8>) {
        let mut bytes: Vec<u8> = Vec::with_capacity(17);
        push_be(&mut bytes, self.channel_id, 8);
        let anchor = self.anchor.serialize();
        push_all(&mut bytes, anchor.as_slice());
        let n = self.num_messages_back;
        let b: u8 = if n >= 0 {
            n as u8
        } else {
            (n as i16 + 256) as u8
        };
        bytes.push(b);
        assert(bytes@ =~= self.spec_serialize());
        bytes
    }
}

/// A chat message: channel, the message it answers (0 for none), media ids, then the text.
#[derive(Debug, Clone)]
pub struct SendMessagePacket {
    pub channel_id: ChannelId,
    pub reply_id: MessageId,
    pub media_ids: Vec<MediaId>,
    pub message_text: String,
}

impl Serialize for SendMessagePacket {
    open spec fn spec_serialize(&self) -> Seq<u8> {
        u64_bytes(self.channel_id) + u64_bytes(self.reply_id) + be_bytes(self.media_ids@.len(), 1)
            + encode_list(self.media_ids@, u64_enc()) + encode_utf8(self.message_text@)
    }

    fn serialize(self) -> (r: Vec<u8>) {
        let mut bytes: Vec<u8> = Vec::new();
        push_be(&mut bytes, self.channel_id, 8);
        push_be(&mut bytes, self.reply_id, 8);
        push_be(&mut bytes, self.media_ids.len() as u64, 1);
        push_u64_list(&mut bytes, &self.media_ids);
        push_text(&mut bytes, &self.message_text);
        assert(bytes@ =~= self.spec_serialize());
        bytes
    }
}

#[derive(Debug, Clone)]
pub struct GetMediaPacket {
    pub media_id: MediaId,
}

impl Serialize for GetMediaPacket {
    open spec fn spec_serialize(&self) -> Seq<u8> {
        u64_bytes(self.media_id)
    }

    fn serialize(self) -> (r: Vec<u8>) {
        let mut bytes: Vec<u8> = Vec::new();
        push_be(&mut bytes, self.media_id, 8);
        bytes
    }
}

/// An upload: the file name and the data, each behind a four-byte length.
#[derive(Debug, Clone)]
pub struct SendMediaPacket {
    pub filename: String,
    pub media_type: MediaType,
    pub media_data: Vec<u8>,
}

impl Serialize for SendMediaPacket {
    open spec fn spec_serialize(&self) -> Seq<u8> {
        be_bytes((encode_utf8(self.filename@).len() as u32) as nat, 4) + encode_utf8(self.filename@) + seq![
            self.media_type.spec_byte(),
        ] + be_bytes((self.media_data@.len() as u32) as nat, 4) + self.media_data@
    }

    fn serialize(self) -> (r: Vec<u8>) {
        let name = self.filename.as_str().as_bytes();
        let mut bytes: Vec<u8> = Vec::new();
        push_be(&mut bytes, name.len() as u32 as u64, 4);
        push_all(&mut bytes, name);
        bytes.push(self.media_type.to_byte());
        push_be(&mut bytes, self.media_data.len() as u32 as u64, 4);
        push_all(&mut bytes, self.media_data.as_slice());
        assert(bytes@ =~= self.spec_serialize());
        bytes
    }
}

/// Whether the user is typing in a channel.
#[derive(Debug, Clone)]
pub struct TypingPacket {
    pub is_typing: bool,
    pub channel_id: ChannelId,
}

impl Serialize for TypingPacket {
    open spec fn spec_serialize(&self) -> Seq<u8> {
        seq![if self.is_typing { 1u8 } else { 0u8 }] + u64_bytes(self.channel_id)
    }

    fn serialize(self) -> (r: Vec<u8>) {
        let mut bytes: Vec<u8> = Vec::with_capacity(9);
        bytes.push(if self.is_typing { 1u8 } else { 0u8 });
        push_be(&mut bytes, self.channel_id, 8);
        assert(bytes@ =~= self.spec_serialize());
        bytes
    }
}

/// The user's own presence.
#[derive(Debug, Clone)]
pub struct StatusPacket {
    pub status: UserStatus,
}

impl Serialize for StatusPacket {
    open spec fn spec_serialize(&self) -> Seq<u8> {
        seq![self.status.spec_byte()]
    }

    fn serialize(self) -> (r: Vec<u8>) {
        self.status.serialize()
    }
}

} // verus!
