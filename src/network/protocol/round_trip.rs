//! How a server writes each reply, and the proof that the client reads back exactly that.
use vstd::prelude::*;
use vstd::utf8::*;

use crate::network::client::{parse_frame, parse_frame_header, MAX_MESSAGE_LENGTH};
use crate::network::protocol::client::{u64_bytes, u64_enc};
use crate::network::protocol::header::{magic, parse_header, PacketType, HEADER_LENGTH};
use crate::network::protocol::server::{
    lemma_server_type_round_trip, HealthKind, parse_payload, parse_status_id_error, ChannelsListPacket, ChannelsListView, Deserialize, GetChannelsResponsePacket,
    GetChannelsResponseView, HealthCheckPacket, HistoryPacket, HistoryView, LoginAckPacket, LoginAckView, MediaPacket,
    MediaView, SendMediaAckPacket, SendMediaAckView, SendMessageAckPacket, SendMessageAckView, ServerPacketType,
    ServerPayloadView, UserStatusPacket, UserStatusesPacket, UserStatusesView, UserTypingPacket, UsersPacket,
    UsersView,
    item_of, parse_error, parse_status_list_error, status_pair_item, u64_item, Channel, ChannelView, DeserializeByte,
    HistoryMessage, HistoryMessageView, ReturnStatus, UserData, UserDataView,
};
use crate::tui::events::UserId;
use crate::network::protocol::wire::{be_bytes, lemma_be_bytes_len, lemma_pow256_facts, pow256};
use crate::network::protocol::{
    encode_list, encode_prefixed_text, lemma_be_prefix, lemma_list_round_trip, lemma_nul_text_round_trip,
    lemma_prefixed_text_round_trip, no_nul, parse_be, parse_list, CodecError, MediaType, UserStatus,
};

verus! {

/// The error message at the end of a reply.
pub open spec fn encode_error(e: Option<Seq<char>>) -> Seq<u8> {
    match e {
        Some(t) => encode_utf8(t),
        None => seq![],
    }
}

/// A reply carries an error message exactly when it failed, and the message holds no NUL.
pub open spec fn error_wf(status: ReturnStatus, e: Option<Seq<char>>) -> bool {
    &&& (status == ReturnStatus::Failed) == (e is Some)
    &&& (e matches Some(t) ==> no_nul(t))
}

/// Text whose UTF-8 form fits a `w`-byte length.
pub open spec fn text_fits(t: Seq<char>, w: nat) -> bool {
    encode_utf8(t).len() < pow256(w)
}

/// A status byte, a `w`-byte count, the items, then the error message.
pub open spec fn encode_status_list<T>(
    status: ReturnStatus,
    xs: Seq<T>,
    e: Option<Seq<char>>,
    w: nat,
    enc: spec_fn(T) -> Seq<u8>,
) -> Seq<u8> {
    seq![status.spec_byte()] + be_bytes(xs.len(), w) + encode_list(xs, enc) + encode_error(e)
}

pub proof fn lemma_status_byte(s: ReturnStatus)
    ensures
        ReturnStatus::spec_from_byte(s.spec_byte()) == Ok::<ReturnStatus, CodecError>(s),
{
}

pub proof fn lemma_error_round_trip(status: ReturnStatus, e: Option<Seq<char>>)
    requires
        error_wf(status, e),
    ensures
        parse_error(encode_error(e), status) == Ok::<(Option<Seq<char>>, nat), CodecError>(
            (e, encode_error(e).len()),
        ),
{
    if let Some(t) = e {
        lemma_nul_text_round_trip(t);
    }
}

pub proof fn lemma_status_list_round_trip<T>(
    status: ReturnStatus,
    xs: Seq<T>,
    e: Option<Seq<char>>,
    w: nat,
    item: spec_fn(Seq<u8>) -> Result<(T, nat), CodecError>,
    enc: spec_fn(T) -> Seq<u8>,
)
    requires
        w <= 2,
        xs.len() < pow256(w),
        error_wf(status, e),
        forall|x: T, r: Seq<u8>|
            xs.contains(x) ==> #[trigger] item(enc(x) + r) == Ok::<(T, nat), CodecError>((x, enc(x).len())),
    ensures
        parse_status_list_error(encode_status_list(status, xs, e, w, enc), w, item) == Ok::<
            (ReturnStatus, Seq<T>, Option<Seq<char>>, nat),
            CodecError,
        >((status, xs, e, encode_status_list(status, xs, e, w, enc).len())),
{
    let list = encode_list(xs, enc);
    let err = encode_error(e);
    let b = encode_status_list(status, xs, e, w, enc);
    lemma_be_bytes_len(xs.len(), w);
    assert(b.skip(1) =~= be_bytes(xs.len(), w) + (list + err));
    lemma_be_prefix(xs.len(), w, list + err);
    assert(b.skip(1 + w as int) =~= list + err);
    lemma_list_round_trip(xs, err, item, enc);
    assert(b.skip(1 + w + list.len() as int) =~= err);
    lemma_error_round_trip(status, e);
    lemma_status_byte(status);
    assert(b[0] == status.spec_byte());
}

// ---------------------------------------------------------------- items

pub proof fn lemma_u64_round_trip(x: u64, rest: Seq<u8>)
    ensures
        u64_item()(u64_bytes(x) + rest) == Ok::<(u64, nat), CodecError>((x, u64_bytes(x).len())),
        u64_bytes(x).len() == 8,
        (u64_bytes(x) + rest).skip(8) == rest,
{
    lemma_pow256_facts(8);
    lemma_be_prefix(x as nat, 8, rest);
    lemma_be_bytes_len(x as nat, 8);
}

/// A channel record.
pub open spec fn encode_channel(c: ChannelView) -> Seq<u8> {
    u64_bytes(c.channel_id) + encode_prefixed_text(c.name, 1) + u64_bytes(c.icon_id)
}

pub open spec fn channel_enc() -> spec_fn(ChannelView) -> Seq<u8> {
    |c: ChannelView| encode_channel(c)
}

#[verifier::spinoff_prover]
#[verifier::rlimit(100)]
pub proof fn lemma_channel_round_trip(c: ChannelView, rest: Seq<u8>)
    requires
        text_fits(c.name, 1),
    ensures
        item_of::<Channel>()(encode_channel(c) + rest) == Ok::<(ChannelView, nat), CodecError>(
            (c, encode_channel(c).len()),
        ),
{
    let name = encode_prefixed_text(c.name, 1);
    let b = encode_channel(c) + rest;
    lemma_pow256_facts(8);
    lemma_be_bytes_len(c.channel_id as nat, 8);
    lemma_be_prefix(c.channel_id as nat, 8, name + (u64_bytes(c.icon_id) + rest));
    assert(b =~= u64_bytes(c.channel_id) + (name + (u64_bytes(c.icon_id) + rest)));
    lemma_prefixed_text_round_trip(c.name, 1, u64_bytes(c.icon_id) + rest);
    assert(b.skip(8) =~= name + (u64_bytes(c.icon_id) + rest));
    assert(b.skip(8 + name.len() as int) =~= u64_bytes(c.icon_id) + rest);
    lemma_be_prefix(c.icon_id as nat, 8, rest);
    lemma_be_bytes_len(c.icon_id as nat, 8);
    assert(b.len() >= encode_channel(c).len());
}

/// A user record.
pub open spec fn encode_user(u: UserDataView) -> Seq<u8> {
    u64_bytes(u.user_id) + seq![u.status.spec_byte()] + encode_prefixed_text(u.username, 1) + u64_bytes(u.pfp_id)
        + encode_prefixed_text(u.bio, 2)
}

pub open spec fn user_enc() -> spec_fn(UserDataView) -> Seq<u8> {
    |u: UserDataView| encode_user(u)
}

#[verifier::spinoff_prover]
#[verifier::rlimit(100)]
pub proof fn lemma_user_round_trip(u: UserDataView, rest: Seq<u8>)
    requires
        text_fits(u.username, 1),
        text_fits(u.bio, 2),
    ensures
        item_of::<UserData>()(encode_user(u) + rest) == Ok::<(UserDataView, nat), CodecError>(
            (u, encode_user(u).len()),
        ),
{
    let name = encode_prefixed_text(u.username, 1);
    let bio = encode_prefixed_text(u.bio, 2);
    let b = encode_user(u) + rest;
    let t1 = name + (u64_bytes(u.pfp_id) + (bio + rest));
    assert(b =~= u64_bytes(u.user_id) + (seq![u.status.spec_byte()] + t1));
    assert(parse_be(b, 8) == Ok::<(nat, nat), CodecError>((u.user_id as nat, 8)) && b.len() >= 9 && b[8]
        == u.status.spec_byte() && b.skip(9) == t1) by {
        lemma_pow256_facts(8);
        lemma_be_bytes_len(u.user_id as nat, 8);
        lemma_be_prefix(u.user_id as nat, 8, seq![u.status.spec_byte()] + t1);
        assert(b.skip(9) =~= t1);
    }
    assert(UserStatus::spec_from_byte(u.status.spec_byte()) == Ok::<UserStatus, CodecError>(u.status));
    assert(crate::network::protocol::parse_prefixed_text(t1, 1) == Ok::<(Seq<char>, nat), CodecError>(
        (u.username, name.len()),
    )) by {
        lemma_prefixed_text_round_trip(u.username, 1, u64_bytes(u.pfp_id) + (bio + rest));
    }
    let t2 = u64_bytes(u.pfp_id) + (bio + rest);
    assert(b.skip(9 + name.len() as int) == t2 && parse_be(t2, 8) == Ok::<(nat, nat), CodecError>(
        (u.pfp_id as nat, 8),
    ) && b.skip(17 + name.len() as int) == bio + rest) by {
        assert(b.skip(9 + name.len() as int) =~= t2);
        lemma_pow256_facts(8);
        lemma_be_bytes_len(u.pfp_id as nat, 8);
        lemma_be_prefix(u.pfp_id as nat, 8, bio + rest);
        assert(b.skip(17 + name.len() as int) =~= bio + rest);
    }
    assert(crate::network::protocol::parse_prefixed_text(bio + rest, 2) == Ok::<(Seq<char>, nat), CodecError>(
        (u.bio, bio.len()),
    )) by {
        lemma_prefixed_text_round_trip(u.bio, 2, rest);
    }
    assert(encode_user(u).len() == 17 + name.len() + bio.len()) by {
        lemma_be_bytes_len(u.user_id as nat, 8);
        lemma_be_bytes_len(u.pfp_id as nat, 8);
    }
    assert(UserData::spec_deserialize(b) == Ok::<(UserDataView, nat), CodecError>((u, encode_user(u).len())));
}

/// A history message.
pub open spec fn encode_history_message(m: HistoryMessageView) -> Seq<u8> {
    u64_bytes(m.message_id) + u64_bytes(m.sent_timestamp) + u64_bytes(m.user_id) + u64_bytes(m.channel_id)
        + u64_bytes(m.reply_id) + encode_prefixed_text(m.message_text, 2) + be_bytes(m.media_ids.len(), 1)
        + encode_list(m.media_ids, u64_enc())
}

pub open spec fn history_enc() -> spec_fn(HistoryMessageView) -> Seq<u8> {
    |m: HistoryMessageView| encode_history_message(m)
}

pub proof fn lemma_u64_list_items(xs: Seq<u64>)
    ensures
        forall|x: u64, r: Seq<u8>|
            xs.contains(x) ==> #[trigger] u64_item()(u64_enc()(x) + r) == Ok::<(u64, nat), CodecError>(
                (x, u64_enc()(x).len()),
            ),
{
    assert forall|x: u64, r: Seq<u8>| xs.contains(x) implies #[trigger] u64_item()(u64_enc()(x) + r) == Ok::<
        (u64, nat),
        CodecError,
    >((x, u64_enc()(x).len())) by {
        lemma_u64_round_trip(x, r);
    }
}

#[verifier::spinoff_prover]
#[verifier::rlimit(100)]
pub proof fn lemma_history_message_round_trip(m: HistoryMessageView, rest: Seq<u8>)
    requires
        text_fits(m.message_text, 2),
        m.media_ids.len() < 256,
    ensures
        item_of::<HistoryMessage>()(encode_history_message(m) + rest) == Ok::<(HistoryMessageView, nat), CodecError>(
            (m, encode_history_message(m).len()),
        ),
{
    let ids = seq![m.message_id, m.sent_timestamp, m.user_id, m.channel_id, m.reply_id];
    let text = encode_prefixed_text(m.message_text, 2);
    let count = be_bytes(m.media_ids.len(), 1);
    let media = encode_list(m.media_ids, u64_enc());
    let head = u64_bytes(m.message_id) + u64_bytes(m.sent_timestamp) + u64_bytes(m.user_id) + u64_bytes(
        m.channel_id,
    ) + u64_bytes(m.reply_id);
    let b = encode_history_message(m) + rest;
    lemma_pow256_facts(8);
    lemma_pow256_facts(1);
    lemma_be_bytes_len(m.message_id as nat, 8);
    lemma_be_bytes_len(m.sent_timestamp as nat, 8);
    lemma_be_bytes_len(m.user_id as nat, 8);
    lemma_be_bytes_len(m.channel_id as nat, 8);
    lemma_be_bytes_len(m.reply_id as nat, 8);
    lemma_be_bytes_len(m.media_ids.len(), 1);
    assert(head.len() == 40);
    assert(b =~= head + (text + (count + (media + rest))));
    assert(b.subrange(0, 8) =~= u64_bytes(m.message_id));
    assert(b.subrange(8, 16) =~= u64_bytes(m.sent_timestamp));
    assert(b.subrange(16, 24) =~= u64_bytes(m.user_id));
    assert(b.subrange(24, 32) =~= u64_bytes(m.channel_id));
    assert(b.subrange(32, 40) =~= u64_bytes(m.reply_id));
    crate::network::protocol::wire::lemma_be_round_trip(m.message_id as nat, 8);
    crate::network::protocol::wire::lemma_be_round_trip(m.sent_timestamp as nat, 8);
    crate::network::protocol::wire::lemma_be_round_trip(m.user_id as nat, 8);
    crate::network::protocol::wire::lemma_be_round_trip(m.channel_id as nat, 8);
    crate::network::protocol::wire::lemma_be_round_trip(m.reply_id as nat, 8);
    assert(b.skip(40) =~= text + (count + (media + rest)));
    lemma_prefixed_text_round_trip(m.message_text, 2, count + (media + rest));
    assert(b.skip(40 + text.len() as int) =~= count + (media + rest));
    lemma_be_prefix(m.media_ids.len(), 1, media + rest);
    assert(b.skip(41 + text.len() as int) =~= media + rest);
    lemma_u64_list_items(m.media_ids);
    lemma_list_round_trip(m.media_ids, rest, u64_item(), u64_enc());
}

/// A `[user_id|8][status|1]` pair.
pub open spec fn encode_status_pair(p: (UserId, UserStatus)) -> Seq<u8> {
    u64_bytes(p.0) + seq![p.1.spec_byte()]
}

pub open spec fn status_pair_enc() -> spec_fn((UserId, UserStatus)) -> Seq<u8> {
    |p: (UserId, UserStatus)| encode_status_pair(p)
}

pub proof fn lemma_status_pair_round_trip(p: (UserId, UserStatus), rest: Seq<u8>)
    ensures
        status_pair_item()(encode_status_pair(p) + rest) == Ok::<((UserId, UserStatus), nat), CodecError>(
            (p, encode_status_pair(p).len()),
        ),
{
    let b = encode_status_pair(p) + rest;
    lemma_pow256_facts(8);
    lemma_be_bytes_len(p.0 as nat, 8);
    assert(b.subrange(0, 8) =~= u64_bytes(p.0));
    crate::network::protocol::wire::lemma_be_round_trip(p.0 as nat, 8);
    assert(b[8] == p.1.spec_byte());
    assert(UserStatus::spec_from_byte(p.1.spec_byte()) == Ok::<UserStatus, CodecError>(p.1));
}

// ---------------------------------------------------------------- payloads

/// The packet type that carries a payload.
pub open spec fn payload_type(v: ServerPayloadView) -> ServerPacketType {
    match v {
        ServerPayloadView::Health(_) => ServerPacketType::Healthcheck,
        ServerPayloadView::Login(_) => ServerPacketType::LoginAck,
        ServerPayloadView::SendMessageAck(_) => ServerPacketType::SendMessageAck,
        ServerPayloadView::SendMediaAck(_) => ServerPacketType::SendMediaAck,
        ServerPayloadView::Channels(_) => ServerPacketType::Channels,
        ServerPayloadView::ChannelsList(_) => ServerPacketType::ChannelList,
        ServerPayloadView::UserStatuses(_) => ServerPacketType::UserStatuses,
        ServerPayloadView::Users(_) => ServerPacketType::Users,
        ServerPayloadView::History(_) => ServerPacketType::History,
        ServerPayloadView::Media(_) => ServerPacketType::Media,
        ServerPayloadView::Typing(_) => ServerPacketType::Typing,
        ServerPayloadView::Status(_) => ServerPacketType::UserStatus,
    }
}

/// A status byte, a 64-bit id, then the error message.
pub open spec fn encode_status_id(status: ReturnStatus, id: u64, e: Option<Seq<char>>) -> Seq<u8> {
    seq![status.spec_byte()] + u64_bytes(id) + encode_error(e)
}

/// The bytes of a media reply.
pub open spec fn encode_media(m: MediaView) -> Seq<u8> {
    seq![m.status.spec_byte()] + encode_prefixed_text(m.filename, 1) + seq![m.media_type.spec_byte()] + be_bytes(
        m.media_data.len(),
        4,
    ) + m.media_data + encode_error(m.error_message)
}

/// The payload bytes with which a server sends `v`.
pub open spec fn encode_payload(v: ServerPayloadView) -> Seq<u8> {
    match v {
        ServerPayloadView::Health(p) => seq![p.kind.spec_byte()],
        ServerPayloadView::Login(p) => seq![p.status.spec_byte()] + encode_error(p.error_message),
        ServerPayloadView::SendMessageAck(p) => encode_status_id(p.status, p.message_id, p.error_message),
        ServerPayloadView::SendMediaAck(p) => encode_status_id(p.status, p.media_id, p.error_message),
        ServerPayloadView::Channels(p) => encode_status_list(p.status, p.channels, p.error_message, 2, channel_enc()),
        ServerPayloadView::ChannelsList(p) => encode_status_list(p.status, p.channel_ids, p.error_message, 2, u64_enc()),
        ServerPayloadView::UserStatuses(p) => encode_status_list(
            p.status,
            p.users,
            p.error_message,
            2,
            status_pair_enc(),
        ),
        ServerPayloadView::Users(p) => encode_status_list(p.status, p.users, p.error_message, 1, user_enc()),
        ServerPayloadView::History(p) => encode_status_list(p.status, p.messages, p.error_message, 1, history_enc()),
        ServerPayloadView::Media(p) => encode_media(p),
        ServerPayloadView::Typing(p) => seq![if p.is_typing { 1u8 } else { 0u8 }] + u64_bytes(p.user_id) + u64_bytes(
            p.channel_id,
        ),
        ServerPayloadView::Status(p) => seq![p.status.spec_byte()] + u64_bytes(p.user_id),
    }
}

/// A payload that its wire form can carry: every count and length fits its field, and error
/// messages come exactly with failures and hold no NUL.
pub open spec fn payload_wf(v: ServerPayloadView) -> bool {
    match v {
        ServerPayloadView::Health(_) => true,
        ServerPayloadView::Login(p) => error_wf(p.status, p.error_message),
        ServerPayloadView::SendMessageAck(p) => error_wf(p.status, p.error_message),
        ServerPayloadView::SendMediaAck(p) => error_wf(p.status, p.error_message),
        ServerPayloadView::Channels(p) => error_wf(p.status, p.error_message) && p.channels.len() < 0x1_0000
            && forall|i: int| 0 <= i < p.channels.len() ==> text_fits(#[trigger] p.channels[i].name, 1),
        ServerPayloadView::ChannelsList(p) => error_wf(p.status, p.error_message) && p.channel_ids.len() < 0x1_0000,
        ServerPayloadView::UserStatuses(p) => error_wf(p.status, p.error_message) && p.users.len() < 0x1_0000,
        ServerPayloadView::Users(p) => error_wf(p.status, p.error_message) && p.users.len() < 256 && forall|i: int|
            0 <= i < p.users.len() ==> text_fits(#[trigger] p.users[i].username, 1) && text_fits(p.users[i].bio, 2),
        ServerPayloadView::History(p) => error_wf(p.status, p.error_message) && p.messages.len() < 256 && forall|
            i: int,
        |
            0 <= i < p.messages.len() ==> text_fits(#[trigger] p.messages[i].message_text, 2)
                && p.messages[i].media_ids.len() < 256,
        ServerPayloadView::Media(p) => error_wf(p.status, p.error_message) && text_fits(p.filename, 1)
            && p.media_data.len() < 0x1_0000_0000,
        ServerPayloadView::Typing(_) => true,
        ServerPayloadView::Status(_) => true,
    }
}

proof fn lemma_status_id_round_trip(status: ReturnStatus, id: u64, e: Option<Seq<char>>)
    requires
        error_wf(status, e),
    ensures
        parse_status_id_error(encode_status_id(status, id, e)) == Ok::<
            (ReturnStatus, u64, Option<Seq<char>>, nat),
            CodecError,
        >((status, id, e, encode_status_id(status, id, e).len())),
{
    let b = encode_status_id(status, id, e);
    let err = encode_error(e);
    lemma_status_byte(status);
    assert(b.skip(1) =~= u64_bytes(id) + err);
    lemma_u64_round_trip(id, err);
    lemma_pow256_facts(8);
    lemma_be_prefix(id as nat, 8, err);
    assert(b.skip(9) =~= err);
    lemma_error_round_trip(status, e);
    assert(b[0] == status.spec_byte());
}

#[verifier::spinoff_prover]
#[verifier::rlimit(100)]
proof fn lemma_media_round_trip(m: MediaView)
    requires
        error_wf(m.status, m.error_message),
        text_fits(m.filename, 1),
        m.media_data.len() < 0x1_0000_0000,
    ensures
        MediaPacket::spec_deserialize(encode_media(m)) == Ok::<(MediaView, nat), CodecError>(
            (m, encode_media(m).len()),
        ),
{
    let name = encode_prefixed_text(m.filename, 1);
    let len = be_bytes(m.media_data.len(), 4);
    let err = encode_error(m.error_message);
    let b = encode_media(m);
    lemma_pow256_facts(4);
    lemma_be_bytes_len(m.media_data.len(), 4);
    lemma_status_byte(m.status);
    assert(b[0] == m.status.spec_byte());
    let t1 = seq![m.media_type.spec_byte()] + (len + (m.media_data + err));
    assert(b.skip(1) =~= name + t1);
    lemma_prefixed_text_round_trip(m.filename, 1, t1);
    assert(b[1 + name.len() as int] == m.media_type.spec_byte());
    assert(MediaType::spec_from_byte(m.media_type.spec_byte()) == Ok::<MediaType, CodecError>(m.media_type));
    assert(b.skip(2 + name.len() as int) =~= len + (m.media_data + err));
    lemma_be_prefix(m.media_data.len(), 4, m.media_data + err);
    assert(b.subrange(6 + name.len() as int, 6 + name.len() + m.media_data.len() as int) =~= m.media_data);
    assert(b.skip(6 + name.len() + m.media_data.len() as int) =~= err);
    lemma_error_round_trip(m.status, m.error_message);
}

proof fn lemma_channels_payload_round_trip(p: GetChannelsResponseView)
    requires
        payload_wf(ServerPayloadView::Channels(p)),
    ensures
        parse_payload(encode_payload(ServerPayloadView::Channels(p)), ServerPacketType::Channels) == Ok::<
            (ServerPayloadView, nat),
            CodecError,
        >((ServerPayloadView::Channels(p), encode_payload(ServerPayloadView::Channels(p)).len())),
{
    reveal(parse_payload);
    lemma_pow256_facts(2);
    lemma_pow256_facts(1);
    assert forall|x: ChannelView, r: Seq<u8>| p.channels.contains(x) implies #[trigger] item_of::<Channel>()(
        channel_enc()(x) + r,
    ) == Ok::<(ChannelView, nat), CodecError>((x, channel_enc()(x).len())) by {
        let i = choose|i: int| 0 <= i < p.channels.len() && p.channels[i] == x;
        assert(text_fits(p.channels[i].name, 1));
        lemma_channel_round_trip(x, r);
    }
    lemma_status_list_round_trip(p.status, p.channels, p.error_message, 2, item_of::<Channel>(), channel_enc());
}

proof fn lemma_users_payload_round_trip(p: UsersView)
    requires
        payload_wf(ServerPayloadView::Users(p)),
    ensures
        parse_payload(encode_payload(ServerPayloadView::Users(p)), ServerPacketType::Users) == Ok::<
            (ServerPayloadView, nat),
            CodecError,
        >((ServerPayloadView::Users(p), encode_payload(ServerPayloadView::Users(p)).len())),
{
    reveal(parse_payload);
    lemma_pow256_facts(2);
    lemma_pow256_facts(1);
    assert forall|x: UserDataView, r: Seq<u8>| p.users.contains(x) implies #[trigger] item_of::<UserData>()(
        user_enc()(x) + r,
    ) == Ok::<(UserDataView, nat), CodecError>((x, user_enc()(x).len())) by {
        let i = choose|i: int| 0 <= i < p.users.len() && p.users[i] == x;
        assert(text_fits(p.users[i].username, 1));
        lemma_user_round_trip(x, r);
    }
    lemma_status_list_round_trip(p.status, p.users, p.error_message, 1, item_of::<UserData>(), user_enc());
}

proof fn lemma_history_payload_round_trip(p: HistoryView)
    requires
        payload_wf(ServerPayloadView::History(p)),
    ensures
        parse_payload(encode_payload(ServerPayloadView::History(p)), ServerPacketType::History) == Ok::<
            (ServerPayloadView, nat),
            CodecError,
        >((ServerPayloadView::History(p), encode_payload(ServerPayloadView::History(p)).len())),
{
    reveal(parse_payload);
    lemma_pow256_facts(2);
    lemma_pow256_facts(1);
    assert forall|x: HistoryMessageView, r: Seq<u8>| p.messages.contains(x) implies #[trigger] item_of::<
        HistoryMessage,
    >()(history_enc()(x) + r) == Ok::<(HistoryMessageView, nat), CodecError>(
        (x, history_enc()(x).len()),
    ) by {
        let i = choose|i: int| 0 <= i < p.messages.len() && p.messages[i] == x;
        assert(text_fits(p.messages[i].message_text, 2));
        lemma_history_message_round_trip(x, r);
    }
    lemma_status_list_round_trip(
        p.status,
        p.messages,
        p.error_message,
        1,
        item_of::<HistoryMessage>(),
        history_enc(),
    );
}

/// A payload that a server writes reads back as itself, using all of its bytes.
#[verifier::spinoff_prover]
#[verifier::rlimit(100)]
pub proof fn lemma_payload_round_trip(v: ServerPayloadView)
    requires
        payload_wf(v),
    ensures
        parse_payload(encode_payload(v), payload_type(v)) == Ok::<(ServerPayloadView, nat), CodecError>(
            (v, encode_payload(v).len()),
        ),
{
    reveal(parse_payload);
    lemma_pow256_facts(2);
    lemma_pow256_facts(1);
    match v {
        ServerPayloadView::Health(p) => {
            assert(HealthKind::spec_from_byte(p.kind.spec_byte()) == Ok::<HealthKind, CodecError>(p.kind));
        },
        ServerPayloadView::Login(p) => {
            let b = encode_payload(v);
            lemma_status_byte(p.status);
            assert(b.skip(1) =~= encode_error(p.error_message));
            lemma_error_round_trip(p.status, p.error_message);
            assert(b[0] == p.status.spec_byte());
        },
        ServerPayloadView::SendMessageAck(p) => {
            lemma_status_id_round_trip(p.status, p.message_id, p.error_message);
        },
        ServerPayloadView::SendMediaAck(p) => {
            lemma_status_id_round_trip(p.status, p.media_id, p.error_message);
        },
        ServerPayloadView::Channels(p) => {
            lemma_channels_payload_round_trip(p);
        },
        ServerPayloadView::ChannelsList(p) => {
            lemma_u64_list_items(p.channel_ids);
            lemma_status_list_round_trip(p.status, p.channel_ids, p.error_message, 2, u64_item(), u64_enc());
        },
        ServerPayloadView::UserStatuses(p) => {
            assert forall|x: (UserId, UserStatus), r: Seq<u8>| p.users.contains(x) implies #[trigger] status_pair_item()(
                status_pair_enc()(x) + r,
            ) == Ok::<((UserId, UserStatus), nat), CodecError>((x, status_pair_enc()(x).len())) by {
                lemma_status_pair_round_trip(x, r);
            }
            lemma_status_list_round_trip(
                p.status,
                p.users,
                p.error_message,
                2,
                status_pair_item(),
                status_pair_enc(),
            );
        },
        ServerPayloadView::Users(p) => {
            lemma_users_payload_round_trip(p);
        },
        ServerPayloadView::History(p) => {
            lemma_history_payload_round_trip(p);
        },
        ServerPayloadView::Media(p) => {
            lemma_media_round_trip(p);
        },
        ServerPayloadView::Typing(p) => {
            let b = encode_payload(v);
            lemma_pow256_facts(8);
            lemma_be_bytes_len(p.user_id as nat, 8);
            lemma_be_bytes_len(p.channel_id as nat, 8);
            assert(b.subrange(1, 9) =~= u64_bytes(p.user_id));
            assert(b.subrange(9, 17) =~= u64_bytes(p.channel_id));
            crate::network::protocol::wire::lemma_be_round_trip(p.user_id as nat, 8);
            crate::network::protocol::wire::lemma_be_round_trip(p.channel_id as nat, 8);
        },
        ServerPayloadView::Status(p) => {
            let b = encode_payload(v);
            lemma_pow256_facts(8);
            lemma_be_bytes_len(p.user_id as nat, 8);
            assert(b.subrange(1, 9) =~= u64_bytes(p.user_id));
            crate::network::protocol::wire::lemma_be_round_trip(p.user_id as nat, 8);
            assert(UserStatus::spec_from_byte(p.status.spec_byte()) == Ok::<UserStatus, CodecError>(p.status));
        },
    }
}

/// The frame with which a server sends `v`: the header, then the payload.
pub open spec fn encode_server_frame(v: ServerPayloadView) -> Seq<u8> {
    let p = encode_payload(v);
    magic() + seq![0x01u8, payload_type(v).spec_byte()] + be_bytes(p.len(), 4) + p
}

/// Every reply that a server can send within the frame limit is decoded as exactly that reply,
/// using the header's ten bytes and all of the payload, whatever bytes follow the frame.
pub proof fn lemma_frame_round_trip(v: ServerPayloadView, rest: Seq<u8>)
    requires
        payload_wf(v),
        encode_payload(v).len() + HEADER_LENGTH <= MAX_MESSAGE_LENGTH,
    ensures
        parse_frame(encode_server_frame(v) + rest) == Ok::<(ServerPayloadView, nat), CodecError>(
            (v, (HEADER_LENGTH + encode_payload(v).len()) as nat),
        ),
{
    let p = encode_payload(v);
    let b = encode_server_frame(v) + rest;
    let t = payload_type(v);
    lemma_pow256_facts(4);
    crate::network::protocol::wire::lemma_be_round_trip(p.len(), 4);
    assert(b.take(4) =~= magic());
    assert(b.subrange(6, 10) =~= be_bytes(p.len(), 4));
    assert(b[4] == 0x01u8);
    assert(b[5] == t.spec_byte());
    lemma_server_type_round_trip(t);
    assert(parse_header(b) == Ok::<(PacketType, u32), CodecError>((PacketType::Server(t), p.len() as u32)));
    assert(parse_frame_header(b) == Ok::<(ServerPacketType, nat), CodecError>((t, p.len())));
    assert(b.subrange(10, 10 + p.len() as int) =~= p);
    assert(parse_payload(b.subrange(10, 10 + p.len() as int), t) == Ok::<(ServerPayloadView, nat), CodecError>(
        (v, p.len()),
    )) by {
        lemma_payload_round_trip(v);
    }
}

} // verus!
