//! Replies and notices that the server sends, and how the client reads them.
use vstd::prelude::*;
use vstd::utf8::*;

use crate::network::protocol::wire::{be_bytes, be_value, read_be, tail};
use crate::network::protocol::{
    find_nul, parse_be, parse_list, parse_nul_text, parse_prefixed_text, read_text, CodecError, MediaType,
    UserStatus,
};
use crate::tui::events::{ChannelId, IconId, MediaId, MessageId, ProfilePicId, UserId};

verus! {

/// A value that can be read from the front of a run of bytes; it reports how many it used.
pub trait Deserialize: Sized + View {
    spec fn spec_deserialize(bytes: Seq<u8>) -> Result<(Self::V, nat), CodecError>;

    fn deserialize(bytes: &[u8]) -> (r: Result<(Self, usize), CodecError>)
        ensures
            match (r, Self::spec_deserialize(bytes@)) {
                (Ok((v, n)), Ok((m, k))) => v@ == m && n as nat == k && n <= bytes@.len(),
                (Err(e), Err(f)) => e == f,
                _ => false,
            },
    ;
}

/// A value held in a single byte.
pub trait DeserializeByte: Sized {
    spec fn spec_from_byte(b: u8) -> Result<Self, CodecError>;

    fn deserialize_byte(byte: u8) -> (r: Result<Self, CodecError>)
        ensures
            r == Self::spec_from_byte(byte),
    ;
}

#[derive(Debug, Clone, Copy, PartialEq, Eq, Structural)]
pub enum ServerPacketType {
    Healthcheck,
    LoginAck,
    SendMessageAck,
    SendMediaAck,
    ChannelList,
    Channels,
    History,
    UserStatuses,
    Users,
    Media,
    Typing,
    UserStatus,
}

impl ServerPacketType {
    pub open spec fn spec_byte(self) -> u8 {
        match self {
            ServerPacketType::Healthcheck => 0x00,
            ServerPacketType::LoginAck => 0x01,
            ServerPacketType::SendMessageAck => 0x02,
            ServerPacketType::SendMediaAck => 0x03,
            ServerPacketType::ChannelList => 0x04,
            ServerPacketType::Channels => 0x05,
            ServerPacketType::History => 0x06,
            ServerPacketType::UserStatuses => 0x07,
            ServerPacketType::Users => 0x08,
            ServerPacketType::Media => 0x09,
            ServerPacketType::Typing => 0x0A,
            ServerPacketType::UserStatus => 0x0B,
        }
    }

    pub fn to_byte(&self) -> (r: u8)
        ensures
            r == self.spec_byte(),
    {
        match self {
            ServerPacketType::Healthcheck => 0x00,
            ServerPacketType::LoginAck => 0x01,
            ServerPacketType::SendMessageAck => 0x02,
            ServerPacketType::SendMediaAck => 0x03,
            ServerPacketType::ChannelList => 0x04,
            ServerPacketType::Channels => 0x05,
            ServerPacketType::History => 0x06,
            ServerPacketType::UserStatuses => 0x07,
            ServerPacketType::Users => 0x08,
            ServerPacketType::Media => 0x09,
            ServerPacketType::Typing => 0x0A,
            ServerPacketType::UserStatus => 0x0B,
        }
    }
}

impl DeserializeByte for ServerPacketType {
    open spec fn spec_from_byte(b: u8) -> Result<ServerPacketType, CodecError> {
        if b == 0x00 {
            Ok(ServerPacketType::Healthcheck)
        } else if b == 0x01 {
            Ok(ServerPacketType::LoginAck)
        } else if b == 0x02 {
            Ok(ServerPacketType::SendMessageAck)
        } else if b == 0x03 {
            Ok(ServerPacketType::SendMediaAck)
        } else if b == 0x04 {
            Ok(ServerPacketType::ChannelList)
        } else if b == 0x05 {
            Ok(ServerPacketType::Channels)
        } else if b == 0x06 {
            Ok(ServerPacketType::History)
        } else if b == 0x07 {
            Ok(ServerPacketType::UserStatuses)
        } else if b == 0x08 {
            Ok(ServerPacketType::Users)
        } else if b == 0x09 {
            Ok(ServerPacketType::Media)
        } else if b == 0x0A {
            Ok(ServerPacketType::Typing)
        } else if b == 0x0B {
            Ok(ServerPacketType::UserStatus)
        } else {
            Err(CodecError::UnknownType)
        }
    }

    fn deserialize_byte(byte: u8) -> (r: Result<ServerPacketType, CodecError>) {
        match byte {
            0x00 => Ok(ServerPacketType::Healthcheck),
            0x01 => Ok(ServerPacketType::LoginAck),
            0x02 => Ok(ServerPacketType::SendMessageAck),
            0x03 => Ok(ServerPacketType::SendMediaAck),
            0x04 => Ok(ServerPacketType::ChannelList),
            0x05 => Ok(ServerPacketType::Channels),
            0x06 => Ok(ServerPacketType::History),
            0x07 => Ok(ServerPacketType::UserStatuses),
            0x08 => Ok(ServerPacketType::Users),
            0x09 => Ok(ServerPacketType::Media),
            0x0A => Ok(ServerPacketType::Typing),
            0x0B => Ok(ServerPacketType::UserStatus),
            _ => Err(CodecError::UnknownType),
        }
    }
}

pub proof fn lemma_server_type_round_trip(t: ServerPacketType)
    ensures
        ServerPacketType::spec_from_byte(t.spec_byte()) == Ok::<ServerPacketType, CodecError>(t),
        t.spec_byte() < 0x80,
{
}

/// The outcome that a reply reports.
#[derive(Debug, Clone, Copy, PartialEq, Eq, Structural)]
pub enum ReturnStatus {
    Success,
    Failed,
    /// Legal on history replies only.
    Notification,
}

impl ReturnStatus {
    pub open spec fn spec_byte(self) -> u8 {
        match self {
            ReturnStatus::Success => 0x00,
            ReturnStatus::Failed => 0x01,
            ReturnStatus::Notification => 0x02,
        }
    }
}

impl DeserializeByte for ReturnStatus {
    open spec fn spec_from_byte(b: u8) -> Result<ReturnStatus, CodecError> {
        if b == 0x00 {
            Ok(ReturnStatus::Success)
        } else if b == 0x01 {
            Ok(ReturnStatus::Failed)
        } else if b == 0x02 {
            Ok(ReturnStatus::Notification)
        } else {
            Err(CodecError::BadStatus)
        }
    }

    fn deserialize_byte(byte: u8) -> (r: Result<ReturnStatus, CodecError>) {
        match byte {
            0x00 => Ok(ReturnStatus::Success),
            0x01 => Ok(ReturnStatus::Failed),
            0x02 => Ok(ReturnStatus::Notification),
            _ => Err(CodecError::BadStatus),
        }
    }
}

#[derive(Debug, Clone, Copy, PartialEq, Eq, Structural)]
pub enum HealthKind {
    Ping,
    Pong,
}

impl HealthKind {
    pub open spec fn spec_byte(self) -> u8 {
        match self {
            HealthKind::Ping => 0x00,
            HealthKind::Pong => 0x01,
        }
    }

    pub fn to_byte(&self) -> (r: u8)
        ensures
            r == self.spec_byte(),
    {
        match self {
            HealthKind::Ping => 0x00,
            HealthKind::Pong => 0x01,
        }
    }
}

impl DeserializeByte for HealthKind {
    open spec fn spec_from_byte(b: u8) -> Result<HealthKind, CodecError> {
        if b == 0x00 {
            Ok(HealthKind::Ping)
        } else if b == 0x01 {
            Ok(HealthKind::Pong)
        } else {
            Err(CodecError::BadHealthKind)
        }
    }

    fn deserialize_byte(byte: u8) -> (r: Result<HealthKind, CodecError>) {
        match byte {
            0x00 => Ok(HealthKind::Ping),
            0x01 => Ok(HealthKind::Pong),
            _ => Err(CodecError::BadHealthKind),
        }
    }
}

/// The text of an optional error message.
pub open spec fn opt_text(o: Option<String>) -> Option<Seq<char>> {
    match o {
        Some(s) => Some(s@),
        None => None,
    }
}

/// The error message at the end of a reply: present only when the status is `Failed`,
/// and then running to the first NUL byte or to the end.
pub open spec fn parse_error(b: Seq<u8>, status: ReturnStatus) -> Result<(Option<Seq<char>>, nat), CodecError> {
    if status == ReturnStatus::Failed {
        match parse_nul_text(b) {
            Ok((t, n)) => Ok((Some(t), n)),
            Err(e) => Err(e),
        }
    } else {
        Ok((None, 0))
    }
}

fn deserialize_error(bytes: &[u8], status: &ReturnStatus) -> (r: Result<(Option<String>, usize), CodecError>)
    ensures
        match (r, parse_error(bytes@, *status)) {
            (Ok((o, n)), Ok((p, k))) => opt_text(o) == p && n as nat == k && n <= bytes@.len(),
            (Err(e), Err(f)) => e == f,
            _ => false,
        },
{
    if *status == ReturnStatus::Failed {
        let len = find_nul(bytes);
        proof {
            crate::network::protocol::lemma_nul_index_bound(bytes@);
        }
        match read_text(bytes, len) {
            Ok((s, n)) => Ok((Some(s), n)),
            Err(e) => Err(e),
        }
    } else {
        Ok((None, 0))
    }
}

/// Reads a status byte at the front of `bytes`.
fn read_status(bytes: &[u8]) -> (r: Result<ReturnStatus, CodecError>)
    ensures
        r == (if bytes@.len() < 1 {
            Err(CodecError::ShortFrame)
        } else {
            ReturnStatus::spec_from_byte(bytes@[0])
        }),
{
    if bytes.len() < 1 {
        Err(CodecError::ShortFrame)
    } else {
        ReturnStatus::deserialize_byte(bytes[0])
    }
}

/// Reads an `n`-byte number at `pos`, or fails where the bytes end first.
fn read_field(bytes: &[u8], pos: usize, n: usize) -> (r: Result<u64, CodecError>)
    requires
        n <= 8,
        pos <= bytes@.len(),
    ensures
        match (r, parse_be(bytes@.skip(pos as int), n as nat)) {
            (Ok(v), Ok((w, k))) => v as nat == w && k == n,
            (Err(e), Err(f)) => e == f,
            _ => false,
        },
{
    if n > bytes.len() - pos {
        Err(CodecError::ShortFrame)
    } else {
        let v = read_be(bytes, pos, n);
        assert(bytes@.skip(pos as int).take(n as int) =~= bytes@.subrange(pos as int, pos + n));
        Ok(v)
    }
}

/// Reads text behind a `w`-byte length at `pos`.
fn read_prefixed_text(bytes: &[u8], pos: usize, w: usize) -> (r: Result<(String, usize), CodecError>)
    requires
        w <= 2,
        pos <= bytes@.len(),
    ensures
        match (r, parse_prefixed_text(bytes@.skip(pos as int), w as nat)) {
            (Ok((s, n)), Ok((t, k))) => s@ == t && n as nat == k && pos + n <= bytes@.len(),
            (Err(e), Err(f)) => e == f,
            _ => false,
        },
{
    let len = match read_field(bytes, pos, w) {
        Ok(v) => v,
        Err(e) => return Err(e),
    };
    proof {
        crate::network::protocol::wire::lemma_be_value_bound(bytes@.skip(pos as int).take(w as int));
        crate::network::protocol::wire::lemma_pow256_facts(w as nat);
        crate::network::protocol::wire::lemma_pow256_mono(w as nat, 2);
    }
    let total = bytes.len();
    let rest = tail(bytes, pos + w);
    assert(rest@ =~= bytes@.skip(pos as int).skip(w as int));
    match read_text(rest, len as usize) {
        Ok((s, n)) => Ok((s, w + n)),
        Err(e) => Err(e),
    }
}

/// A list parser that has failed stays failed, however many more items it is asked for.
pub proof fn lemma_list_err<T>(
    b: Seq<u8>,
    i: nat,
    j: nat,
    item: spec_fn(Seq<u8>) -> Result<(T, nat), CodecError>,
)
    requires
        i <= j,
        parse_list(b, i, item) is Err,
    ensures
        parse_list(b, j, item) == parse_list(b, i, item),
    decreases j,
{
    if i < j {
        lemma_list_err(b, i, (j - 1) as nat, item);
    }
}

// ---------------------------------------------------------------- health check

#[derive(Debug, Clone, Copy, PartialEq, Eq, Structural)]
pub struct HealthCheckPacket {
    pub kind: HealthKind,
}

impl View for HealthCheckPacket {
    type V = HealthCheckPacket;

    open spec fn view(&self) -> HealthCheckPacket {
        *self
    }
}

impl Deserialize for HealthCheckPacket {
    open spec fn spec_deserialize(b: Seq<u8>) -> Result<(HealthCheckPacket, nat), CodecError> {
        if b.len() < 1 {
            Err(CodecError::ShortFrame)
        } else {
            match HealthKind::spec_from_byte(b[0]) {
                Ok(kind) => Ok((HealthCheckPacket { kind }, 1)),
                Err(e) => Err(e),
            }
        }
    }

    fn deserialize(bytes: &[u8]) -> (r: Result<(HealthCheckPacket, usize), CodecError>) {
        if bytes.len() < 1 {
            return Err(CodecError::ShortFrame);
        }
        match HealthKind::deserialize_byte(bytes[0]) {
            Ok(kind) => Ok((HealthCheckPacket { kind }, 1)),
            Err(e) => Err(e),
        }
    }
}

// ---------------------------------------------------------------- login ack

#[derive(Debug, Clone)]
pub struct LoginAckPacket {
    pub status: ReturnStatus,
    pub error_message: Option<String>,
}

pub struct LoginAckView {
    pub status: ReturnStatus,
    pub error_message: Option<Seq<char>>,
}

impl View for LoginAckPacket {
    type V = LoginAckView;

    open spec fn view(&self) -> LoginAckView {
        LoginAckView { status: self.status, error_message: opt_text(self.error_message) }
    }
}

impl Deserialize for LoginAckPacket {
    open spec fn spec_deserialize(b: Seq<u8>) -> Result<(LoginAckView, nat), CodecError> {
        if b.len() < 1 {
            Err(CodecError::ShortFrame)
        } else {
            match ReturnStatus::spec_from_byte(b[0]) {
                Err(e) => Err(e),
                Ok(status) => match parse_error(b.skip(1), status) {
                    Err(e) => Err(e),
                    Ok((error_message, k)) => Ok((LoginAckView { status, error_message }, 1 + k)),
                },
            }
        }
    }

    fn deserialize(bytes: &[u8]) -> (r: Result<(LoginAckPacket, usize), CodecError>) {
        let total = bytes.len();
        let status = match read_status(bytes) {
            Ok(s) => s,
            Err(e) => return Err(e),
        };
        let (error_message, k) = match deserialize_error(tail(bytes, 1), &status) {
            Ok(x) => x,
            Err(e) => return Err(e),
        };
        Ok((LoginAckPacket { status, error_message }, 1 + k))
    }
}

// ---------------------------------------------------------------- send acks

#[derive(Debug, Clone)]
pub struct SendMessageAckPacket {
    pub status: ReturnStatus,
    pub message_id: MessageId,
    pub error_message: Option<String>,
}

pub struct SendMessageAckView {
    pub status: ReturnStatus,
    pub message_id: MessageId,
    pub error_message: Option<Seq<char>>,
}

impl View for SendMessageAckPacket {
    type V = SendMessageAckView;

    open spec fn view(&self) -> SendMessageAckView {
        SendMessageAckView {
            status: self.status,
            message_id: self.message_id,
            error_message: opt_text(self.error_message),
        }
    }
}

/// A status byte, a 64-bit id, then the error message: the shape of both send acks.
pub open spec fn parse_status_id_error(b: Seq<u8>) -> Result<(ReturnStatus, u64, Option<Seq<char>>, nat), CodecError> {
    if b.len() < 1 {
        Err(CodecError::ShortFrame)
    } else {
        match ReturnStatus::spec_from_byte(b[0]) {
            Err(e) => Err(e),
            Ok(status) => match parse_be(b.skip(1), 8) {
                Err(e) => Err(e),
                Ok((id, _)) => match parse_error(b.skip(9), status) {
                    Err(e) => Err(e),
                    Ok((error_message, k)) => Ok((status, id as u64, error_message, 9 + k)),
                },
            },
        }
    }
}

fn read_status_id_error(bytes: &[u8]) -> (r: Result<(ReturnStatus, u64, Option<String>, usize), CodecError>)
    ensures
        match (r, parse_status_id_error(bytes@)) {
            (Ok((s, id, o, n)), Ok((t, jd, p, k))) => s == t && id == jd && opt_text(o) == p && n as nat == k
                && n <= bytes@.len(),
            (Err(e), Err(f)) => e == f,
            _ => false,
        },
{
    let total = bytes.len();
    let status = match read_status(bytes) {
        Ok(s) => s,
        Err(e) => return Err(e),
    };
    let id = match read_field(bytes, 1, 8) {
        Ok(v) => v,
        Err(e) => return Err(e),
    };
    let (error_message, k) = match deserialize_error(tail(bytes, 9), &status) {
        Ok(x) => x,
        Err(e) => return Err(e),
    };
    Ok((status, id, error_message, 9 + k))
}

impl Deserialize for SendMessageAckPacket {
    open spec fn spec_deserialize(b: Seq<u8>) -> Result<(SendMessageAckView, nat), CodecError> {
        match parse_status_id_error(b) {
            Err(e) => Err(e),
            Ok((status, message_id, error_message, n)) => Ok(
                (SendMessageAckView { status, message_id, error_message }, n),
            ),
        }
    }

    fn deserialize(bytes: &[u8]) -> (r: Result<(SendMessageAckPacket, usize), CodecError>) {
        match read_status_id_error(bytes) {
            Ok((status, message_id, error_message, n)) => Ok(
                (SendMessageAckPacket { status, message_id, error_message }, n),
            ),
            Err(e) => Err(e),
        }
    }
}

#[derive(Debug, Clone)]
pub struct SendMediaAckPacket {
    pub status: ReturnStatus,
    pub media_id: MediaId,
    pub error_message: Option<String>,
}

pub struct SendMediaAckView {
    pub status: ReturnStatus,
    pub media_id: MediaId,
    pub error_message: Option<Seq<char>>,
}

impl View for SendMediaAckPacket {
    type V = SendMediaAckView;

    open spec fn view(&self) -> SendMediaAckView {
        SendMediaAckView { status: self.status, media_id: self.media_id, error_message: opt_text(self.error_message) }
    }
}

impl Deserialize for SendMediaAckPacket {
    open spec fn spec_deserialize(b: Seq<u8>) -> Result<(SendMediaAckView, nat), CodecError> {
        match parse_status_id_error(b) {
            Err(e) => Err(e),
            Ok((status, media_id, error_message, n)) => Ok((SendMediaAckView { status, media_id, error_message }, n)),
        }
    }

    fn deserialize(bytes: &[u8]) -> (r: Result<(SendMediaAckPacket, usize), CodecError>) {
        match read_status_id_error(bytes) {
            Ok((status, media_id, error_message, n)) => Ok((SendMediaAckPacket { status, media_id, error_message }, n)),
            Err(e) => Err(e),
        }
    }
}

// ---------------------------------------------------------------- channel list

/// One 64-bit id.
pub open spec fn parse_u64(b: Seq<u8>) -> Result<(u64, nat), CodecError> {
    match parse_be(b, 8) {
        Ok((v, n)) => Ok((v as u64, n)),
        Err(e) => Err(e),
    }
}

pub open spec fn u64_item() -> spec_fn(Seq<u8>) -> Result<(u64, nat), CodecError> {
    |b: Seq<u8>| parse_u64(b)
}

/// Reads `count` ids starting at `pos`.
fn read_u64_list(bytes: &[u8], pos: usize, count: usize) -> (r: Result<(Vec<u64>, usize), CodecError>)
    requires
        pos <= bytes@.len(),
    ensures
        match (r, parse_list(bytes@.skip(pos as int), count as nat, u64_item())) {
            (Ok((v, n)), Ok((w, k))) => v@ == w && n as nat == k && pos + n <= bytes@.len(),
            (Err(e), Err(f)) => e == f,
            _ => false,
        },
{
    let ghost b = bytes@.skip(pos as int);
    let total = bytes.len();
    let mut ids: Vec<u64> = Vec::new();
    let mut idx: usize = pos;
    let mut i: usize = 0;
    while i < count
        invariant
            total == bytes@.len(),
            b == bytes@.skip(pos as int),
            pos <= idx <= total,
            i <= count,
            parse_list(b, i as nat, u64_item()) == Ok::<(Seq<u64>, nat), CodecError>((ids@, (idx - pos) as nat)),
        decreases count - i,
    {
        assert(b.skip(idx - pos) =~= bytes@.skip(idx as int));
        match read_field(bytes, idx, 8) {
            Ok(v) => {
                proof {
                    crate::network::protocol::wire::lemma_be_value_bound(bytes@.skip(idx as int).take(8));
                    crate::network::protocol::wire::lemma_pow256_facts(8);
                }
                ids.push(v);
                idx = idx + 8;
            },
            Err(e) => {
                proof {
                    lemma_list_err(b, (i + 1) as nat, count as nat, u64_item());
                }
                return Err(e);
            },
        }
        i = i + 1;
    }
    Ok((ids, idx - pos))
}

#[derive(Debug, Clone)]
pub struct ChannelsListPacket {
    pub status: ReturnStatus,
    pub channel_ids: Vec<ChannelId>,
    pub error_message: Option<String>,
}

pub struct ChannelsListView {
    pub status: ReturnStatus,
    pub channel_ids: Seq<ChannelId>,
    pub error_message: Option<Seq<char>>,
}

impl View for ChannelsListPacket {
    type V = ChannelsListView;

    open spec fn view(&self) -> ChannelsListView {
        ChannelsListView {
            status: self.status,
            channel_ids: self.channel_ids@,
            error_message: opt_text(self.error_message),
        }
    }
}

/// A status byte, a `w`-byte count, the items, then the error message: the shape of the list replies.
pub open spec fn parse_status_list_error<T>(
    b: Seq<u8>,
    w: nat,
    item: spec_fn(Seq<u8>) -> Result<(T, nat), CodecError>,
) -> Result<(ReturnStatus, Seq<T>, Option<Seq<char>>, nat), CodecError> {
    if b.len() < 1 {
        Err(CodecError::ShortFrame)
    } else {
        match ReturnStatus::spec_from_byte(b[0]) {
            Err(e) => Err(e),
            Ok(status) => match parse_be(b.skip(1), w) {
                Err(e) => Err(e),
                Ok((count, _)) => match parse_list(b.skip(1 + w as int), count, item) {
                    Err(e) => Err(e),
                    Ok((xs, n)) => match parse_error(b.skip(1 + w + n as int), status) {
                        Err(e) => Err(e),
                        Ok((error_message, k)) => Ok((status, xs, error_message, 1 + w + n + k)),
                    },
                },
            },
        }
    }
}

impl Deserialize for ChannelsListPacket {
    open spec fn spec_deserialize(b: Seq<u8>) -> Result<(ChannelsListView, nat), CodecError> {
        match parse_status_list_error(b, 2, u64_item()) {
            Err(e) => Err(e),
            Ok((status, channel_ids, error_message, n)) => Ok(
                (ChannelsListView { status, channel_ids, error_message }, n),
            ),
        }
    }

    fn deserialize(bytes: &[u8]) -> (r: Result<(ChannelsListPacket, usize), CodecError>) {
        let total = bytes.len();
        let status = match read_status(bytes) {
            Ok(s) => s,
            Err(e) => return Err(e),
        };
        let count = match read_field(bytes, 1, 2) {
            Ok(v) => v,
            Err(e) => return Err(e),
        };
        proof {
            crate::network::protocol::wire::lemma_be_value_bound(bytes@.skip(1).take(2));
            crate::network::protocol::wire::lemma_pow256_facts(2);
            assert(bytes@.skip(3) =~= bytes@.skip(1 + 2 as int));
        }
        let (channel_ids, n) = match read_u64_list(bytes, 3, count as usize) {
            Ok(x) => x,
            Err(e) => return Err(e),
        };
        let (error_message, k) = match deserialize_error(tail(bytes, 3 + n), &status) {
            Ok(x) => x,
            Err(e) => return Err(e),
        };
        assert(bytes@.skip(3 + n) =~= bytes@.skip(1 + 2 + n));
        Ok((ChannelsListPacket { status, channel_ids, error_message }, 3 + n + k))
    }
}

// ---------------------------------------------------------------- channels

#[derive(Debug, Clone)]
pub struct Channel {
    pub channel_id: ChannelId,
    pub name: String,
    pub icon_id: IconId,
}

pub struct ChannelView {
    pub channel_id: ChannelId,
    pub name: Seq<char>,
    pub icon_id: IconId,
}

impl View for Channel {
    type V = ChannelView;

    open spec fn view(&self) -> ChannelView {
        ChannelView { channel_id: self.channel_id, name: self.name@, icon_id: self.icon_id }
    }
}

impl Deserialize for Channel {
    /// `[channel_id|8][name_len|1][name][icon_id|8]`
    open spec fn spec_deserialize(b: Seq<u8>) -> Result<(ChannelView, nat), CodecError> {
        match parse_be(b, 8) {
            Err(e) => Err(e),
            Ok((channel_id, _)) => match parse_prefixed_text(b.skip(8), 1) {
                Err(e) => Err(e),
                Ok((name, n)) => match parse_be(b.skip(8 + n as int), 8) {
                    Err(e) => Err(e),
                    Ok((icon_id, _)) => Ok(
                        (ChannelView { channel_id: channel_id as u64, name, icon_id: icon_id as u64 }, 16 + n),
                    ),
                },
            },
        }
    }

    fn deserialize(bytes: &[u8]) -> (r: Result<(Channel, usize), CodecError>) {
        let total = bytes.len();
        assert(bytes@.skip(0) =~= bytes@);
        let channel_id = match read_field(bytes, 0, 8) {
            Ok(v) => v,
            Err(e) => return Err(e),
        };
        let (name, n) = match read_prefixed_text(bytes, 8, 1) {
            Ok(x) => x,
            Err(e) => return Err(e),
        };
        let icon_id = match read_field(bytes, 8 + n, 8) {
            Ok(v) => v,
            Err(e) => return Err(e),
        };
        proof {
            crate::network::protocol::wire::lemma_be_value_bound(bytes@.take(8));
            crate::network::protocol::wire::lemma_be_value_bound(bytes@.skip(8 + n).take(8));
            crate::network::protocol::wire::lemma_pow256_facts(8);
        }
        Ok((Channel { channel_id, name, icon_id }, 16 + n))
    }
}

pub open spec fn channel_item() -> spec_fn(Seq<u8>) -> Result<(ChannelView, nat), CodecError> {
    |b: Seq<u8>| Channel::spec_deserialize(b)
}

#[derive(Debug, Clone)]
pub struct GetChannelsResponsePacket {
    pub status: ReturnStatus,
    pub channels: Vec<Channel>,
    pub error_message: Option<String>,
}

pub struct GetChannelsResponseView {
    pub status: ReturnStatus,
    pub channels: Seq<ChannelView>,
    pub error_message: Option<Seq<char>>,
}

impl View for GetChannelsResponsePacket {
    type V = GetChannelsResponseView;

    open spec fn view(&self) -> GetChannelsResponseView {
        GetChannelsResponseView {
            status: self.status,
            channels: self.channels@.map_values(|c: Channel| c@),
            error_message: opt_text(self.error_message),
        }
    }
}

impl Deserialize for GetChannelsResponsePacket {
    open spec fn spec_deserialize(b: Seq<u8>) -> Result<(GetChannelsResponseView, nat), CodecError> {
        match parse_status_list_error(b, 2, channel_item()) {
            Err(e) => Err(e),
            Ok((status, channels, error_message, n)) => Ok(
                (GetChannelsResponseView { status, channels, error_message }, n),
            ),
        }
    }

    fn deserialize(bytes: &[u8]) -> (r: Result<(GetChannelsResponsePacket, usize), CodecError>) {
        let total = bytes.len();
        let status = match read_status(bytes) {
            Ok(s) => s,
            Err(e) => return Err(e),
        };
        let count = match read_field(bytes, 1, 2) {
            Ok(v) => v,
            Err(e) => return Err(e),
        };
        proof {
            crate::network::protocol::wire::lemma_be_value_bound(bytes@.skip(1).take(2));
            crate::network::protocol::wire::lemma_pow256_facts(2);
            assert(bytes@.skip(3) =~= bytes@.skip(1 + 2 as int));
        }
        let ghost b = bytes@.skip(3);
        let mut channels: Vec<Channel> = Vec::new();
        assert(channels@.map_values(|c: Channel| c@) =~= seq![]);
        let mut idx: usize = 3;
        let mut i: usize = 0;
        while i < count as usize
            invariant
                total == bytes@.len(),
                b == bytes@.skip(3),
                b == bytes@.skip(1 + 2 as int),
                bytes@.len() >= 1,
                ReturnStatus::spec_from_byte(bytes@[0]) == Ok::<ReturnStatus, CodecError>(status),
                parse_be(bytes@.skip(1), 2) == Ok::<(nat, nat), CodecError>((count as nat, 2)),
                3 <= idx <= total,
                i <= count,
                parse_list(b, i as nat, channel_item()) == Ok::<(Seq<ChannelView>, nat), CodecError>(
                    (channels@.map_values(|c: Channel| c@), (idx - 3) as nat),
                ),
            decreases count - i,
        {
            assert(b.skip(idx - 3) =~= bytes@.skip(idx as int));
            match Channel::deserialize(tail(bytes, idx)) {
                Ok((c, n)) => {
                    let ghost before = channels@;
                    channels.push(c);
                    assert(channels@.map_values(|c: Channel| c@) =~= before.map_values(|c: Channel| c@).push(c@));
                    idx = idx + n;
                },
                Err(e) => {
                    proof {
                        assert(channel_item()(b.skip(idx - 3)) == Channel::spec_deserialize(bytes@.skip(idx as int)));
                        assert(parse_list(b, (i + 1) as nat, channel_item()) is Err);
                        lemma_list_err(b, (i + 1) as nat, count as nat, channel_item());
                        assert(parse_status_list_error(bytes@, 2, channel_item()) == Err::<
                            (ReturnStatus, Seq<ChannelView>, Option<Seq<char>>, nat),
                            CodecError,
                        >(e));
                    }
                    return Err(e);
                },
            }
            i = i + 1;
        }
        let (error_message, k) = match deserialize_error(tail(bytes, idx), &status) {
            Ok(x) => x,
            Err(e) => return Err(e),
        };
        Ok((GetChannelsResponsePacket { status, channels, error_message }, idx + k))
    }
}

/// Reads one item of type `T`.
pub open spec fn item_of<T: Deserialize>() -> spec_fn(Seq<u8>) -> Result<(T::V, nat), CodecError> {
    |b: Seq<u8>| T::spec_deserialize(b)
}

/// Reads `count` items of type `T` one after another, starting at `pos`.
fn read_list<T: Deserialize>(bytes: &[u8], pos: usize, count: usize) -> (r: Result<(Vec<T>, usize), CodecError>)
    requires
        pos <= bytes@.len(),
    ensures
        match (r, parse_list(bytes@.skip(pos as int), count as nat, item_of::<T>())) {
            (Ok((v, n)), Ok((w, k))) => v@.map_values(|x: T| x@) == w && n as nat == k && pos + n <= bytes@.len(),
            (Err(e), Err(f)) => e == f,
            _ => false,
        },
{
    let ghost b = bytes@.skip(pos as int);
    let total = bytes.len();
    let mut items: Vec<T> = Vec::new();
    assert(items@.map_values(|x: T| x@) =~= seq![]);
    let mut idx: usize = pos;
    let mut i: usize = 0;
    while i < count
        invariant
            total == bytes@.len(),
            b == bytes@.skip(pos as int),
            pos <= idx <= total,
            i <= count,
            parse_list(b, i as nat, item_of::<T>()) == Ok::<(Seq<T::V>, nat), CodecError>(
                (items@.map_values(|x: T| x@), (idx - pos) as nat),
            ),
        decreases count - i,
    {
        assert(b.skip(idx - pos) =~= bytes@.skip(idx as int));
        match T::deserialize(tail(bytes, idx)) {
            Ok((x, n)) => {
                let ghost before = items@;
                items.push(x);
                assert(items@.map_values(|x: T| x@) =~= before.map_values(|x: T| x@).push(x@));
                idx = idx + n;
            },
            Err(e) => {
                proof {
                    assert(item_of::<T>()(b.skip(idx - pos)) == T::spec_deserialize(bytes@.skip(idx as int)));
                    assert(parse_list(b, (i + 1) as nat, item_of::<T>()) is Err);
                    lemma_list_err(b, (i + 1) as nat, count as nat, item_of::<T>());
                }
                return Err(e);
            },
        }
        i = i + 1;
    }
    Ok((items, idx - pos))
}

// ---------------------------------------------------------------- users

#[derive(Debug, Clone)]
pub struct UserData {
    pub user_id: UserId,
    pub status: UserStatus,
    pub username: String,
    pub pfp_id: ProfilePicId,
    pub bio: String,
}

pub struct UserDataView {
    pub user_id: UserId,
    pub status: UserStatus,
    pub username: Seq<char>,
    pub pfp_id: ProfilePicId,
    pub bio: Seq<char>,
}

impl View for UserData {
    type V = UserDataView;

    open spec fn view(&self) -> UserDataView {
        UserDataView {
            user_id: self.user_id,
            status: self.status,
            username: self.username@,
            pfp_id: self.pfp_id,
            bio: self.bio@,
        }
    }
}

impl Deserialize for UserData {
    /// `[user_id|8][status|1][username_len|1][username][pfp_id|8][bio_len|2][bio]`
    open spec fn spec_deserialize(b: Seq<u8>) -> Result<(UserDataView, nat), CodecError> {
        match parse_be(b, 8) {
            Err(e) => Err(e),
            Ok((user_id, _)) => if b.len() < 9 {
                Err(CodecError::ShortFrame)
            } else {
                match UserStatus::spec_from_byte(b[8]) {
                    Err(e) => Err(e),
                    Ok(status) => match parse_prefixed_text(b.skip(9), 1) {
                        Err(e) => Err(e),
                        Ok((username, n)) => match parse_be(b.skip(9 + n as int), 8) {
                            Err(e) => Err(e),
                            Ok((pfp_id, _)) => match parse_prefixed_text(b.skip(17 + n as int), 2) {
                                Err(e) => Err(e),
                                Ok((bio, m)) => Ok(
                                    (
                                        UserDataView {
                                            user_id: user_id as u64,
                                            status,
                                            username,
                                            pfp_id: pfp_id as u64,
                                            bio,
                                        },
                                        17 + n + m,
                                    ),
                                ),
                            },
                        },
                    },
                }
            },
        }
    }

    fn deserialize(bytes: &[u8]) -> (r: Result<(UserData, usize), CodecError>) {
        let total = bytes.len();
        assert(bytes@.skip(0) =~= bytes@);
        let user_id = match read_field(bytes, 0, 8) {
            Ok(v) => v,
            Err(e) => return Err(e),
        };
        if bytes.len() < 9 {
            return Err(CodecError::ShortFrame);
        }
        let status = match UserStatus::deserialize_byte(bytes[8]) {
            Ok(s) => s,
            Err(e) => return Err(e),
        };
        let (username, n) = match read_prefixed_text(bytes, 9, 1) {
            Ok(x) => x,
            Err(e) => return Err(e),
        };
        let pfp_id = match read_field(bytes, 9 + n, 8) {
            Ok(v) => v,
            Err(e) => return Err(e),
        };
        let (bio, m) = match read_prefixed_text(bytes, 17 + n, 2) {
            Ok(x) => x,
            Err(e) => return Err(e),
        };
        proof {
            crate::network::protocol::wire::lemma_be_value_bound(bytes@.take(8));
            crate::network::protocol::wire::lemma_be_value_bound(bytes@.skip(9 + n).take(8));
            crate::network::protocol::wire::lemma_pow256_facts(8);
        }
        Ok((UserData { user_id, status, username, pfp_id, bio }, 17 + n + m))
    }
}

#[derive(Debug, Clone)]
pub struct UsersPacket {
    pub status: ReturnStatus,
    pub users: Vec<UserData>,
    pub error_message: Option<String>,
}

pub struct UsersView {
    pub status: ReturnStatus,
    pub users: Seq<UserDataView>,
    pub error_message: Option<Seq<char>>,
}

impl View for UsersPacket {
    type V = UsersView;

    open spec fn view(&self) -> UsersView {
        UsersView {
            status: self.status,
            users: self.users@.map_values(|x: UserData| x@),
            error_message: opt_text(self.error_message),
        }
    }
}

impl Deserialize for UsersPacket {
    open spec fn spec_deserialize(b: Seq<u8>) -> Result<(UsersView, nat), CodecError> {
        match parse_status_list_error(b, 1, item_of::<UserData>()) {
            Err(e) => Err(e),
            Ok((status, users, error_message, n)) => Ok((UsersView { status, users, error_message }, n)),
        }
    }

    fn deserialize(bytes: &[u8]) -> (r: Result<(UsersPacket, usize), CodecError>) {
        let total = bytes.len();
        let status = match read_status(bytes) {
            Ok(s) => s,
            Err(e) => return Err(e),
        };
        let count = match read_field(bytes, 1, 1) {
            Ok(v) => v,
            Err(e) => return Err(e),
        };
        proof {
            crate::network::protocol::wire::lemma_be_value_bound(bytes@.skip(1).take(1));
            crate::network::protocol::wire::lemma_pow256_facts(1);
            assert(bytes@.skip(2) =~= bytes@.skip(1 + 1 as int));
        }
        let (users, n) = match read_list::<UserData>(bytes, 2, count as usize) {
            Ok(x) => x,
            Err(e) => return Err(e),
        };
        let (error_message, k) = match deserialize_error(tail(bytes, 2 + n), &status) {
            Ok(x) => x,
            Err(e) => return Err(e),
        };
        Ok((UsersPacket { status, users, error_message }, 2 + n + k))
    }
}

// ---------------------------------------------------------------- history

#[derive(Debug, Clone)]
pub struct HistoryMessage {
    pub message_id: MessageId,
    pub sent_timestamp: u64,
    pub user_id: UserId,
    pub channel_id: ChannelId,
    pub reply_id: MessageId,
    pub message_text: String,
    pub media_ids: Vec<MediaId>,
}

pub struct HistoryMessageView {
    pub message_id: MessageId,
    pub sent_timestamp: u64,
    pub user_id: UserId,
    pub channel_id: ChannelId,
    pub reply_id: MessageId,
    pub message_text: Seq<char>,
    pub media_ids: Seq<MediaId>,
}

impl View for HistoryMessage {
    type V = HistoryMessageView;

    open spec fn view(&self) -> HistoryMessageView {
        HistoryMessageView {
            message_id: self.message_id,
            sent_timestamp: self.sent_timestamp,
            user_id: self.user_id,
            channel_id: self.channel_id,
            reply_id: self.reply_id,
            message_text: self.message_text@,
            media_ids: self.media_ids@,
        }
    }
}

/// The 64-bit number at byte `i` of `b`, which holds at least `i + 8` bytes.
pub open spec fn u64_at(b: Seq<u8>, i: int) -> u64 {
    be_value(b.subrange(i, i + 8)) as u64
}

impl Deserialize for HistoryMessage {
    /// `[message_id|8][sent_timestamp|8][user_id|8][channel_id|8][reply_id|8][text_len|2][text][num_media|1][media_id|8]...`
    open spec fn spec_deserialize(b: Seq<u8>) -> Result<(HistoryMessageView, nat), CodecError> {
        if b.len() < 40 {
            Err(CodecError::ShortFrame)
        } else {
            match parse_prefixed_text(b.skip(40), 2) {
                Err(e) => Err(e),
                Ok((message_text, n)) => match parse_be(b.skip(40 + n as int), 1) {
                    Err(e) => Err(e),
                    Ok((num_media, _)) => match parse_list(b.skip(41 + n as int), num_media, u64_item()) {
                        Err(e) => Err(e),
                        Ok((media_ids, m)) => Ok(
                            (
                                HistoryMessageView {
                                    message_id: u64_at(b, 0),
                                    sent_timestamp: u64_at(b, 8),
                                    user_id: u64_at(b, 16),
                                    channel_id: u64_at(b, 24),
                                    reply_id: u64_at(b, 32),
                                    message_text,
                                    media_ids,
                                },
                                41 + n + m,
                            ),
                        ),
                    },
                },
            }
        }
    }

    fn deserialize(bytes: &[u8]) -> (r: Result<(HistoryMessage, usize), CodecError>) {
        let total = bytes.len();
        if bytes.len() < 40 {
            return Err(CodecError::ShortFrame);
        }
        let message_id = read_be(bytes, 0, 8);
        let sent_timestamp = read_be(bytes, 8, 8);
        let user_id = read_be(bytes, 16, 8);
        let channel_id = read_be(bytes, 24, 8);
        let reply_id = read_be(bytes, 32, 8);
        let (message_text, n) = match read_prefixed_text(bytes, 40, 2) {
            Ok(x) => x,
            Err(e) => return Err(e),
        };
        let num_media = match read_field(bytes, 40 + n, 1) {
            Ok(v) => v,
            Err(e) => return Err(e),
        };
        proof {
            crate::network::protocol::wire::lemma_be_value_bound(bytes@.skip(40 + n).take(1));
            crate::network::protocol::wire::lemma_pow256_facts(1);
        }
        let (media_ids, m) = match read_u64_list(bytes, 41 + n, num_media as usize) {
            Ok(x) => x,
            Err(e) => return Err(e),
        };
        Ok(
            (
                HistoryMessage { message_id, sent_timestamp, user_id, channel_id, reply_id, message_text, media_ids },
                41 + n + m,
            ),
        )
    }
}

#[derive(Debug, Clone)]
pub struct HistoryPacket {
    pub status: ReturnStatus,
    pub messages: Vec<HistoryMessage>,
    pub error_message: Option<String>,
}

pub struct HistoryView {
    pub status: ReturnStatus,
    pub messages: Seq<HistoryMessageView>,
    pub error_message: Option<Seq<char>>,
}

impl View for HistoryPacket {
    type V = HistoryView;

    open spec fn view(&self) -> HistoryView {
        HistoryView {
            status: self.status,
            messages: self.messages@.map_values(|x: HistoryMessage| x@),
            error_message: opt_text(self.error_message),
        }
    }
}

impl Deserialize for HistoryPacket {
    open spec fn spec_deserialize(b: Seq<u8>) -> Result<(HistoryView, nat), CodecError> {
        match parse_status_list_error(b, 1, item_of::<HistoryMessage>()) {
            Err(e) => Err(e),
            Ok((status, messages, error_message, n)) => Ok((HistoryView { status, messages, error_message }, n)),
        }
    }

    fn deserialize(bytes: &[u8]) -> (r: Result<(HistoryPacket, usize), CodecError>) {
        let total = bytes.len();
        let status = match read_status(bytes) {
            Ok(s) => s,
            Err(e) => return Err(e),
        };
        let count = match read_field(bytes, 1, 1) {
            Ok(v) => v,
            Err(e) => return Err(e),
        };
        proof {
            crate::network::protocol::wire::lemma_be_value_bound(bytes@.skip(1).take(1));
            crate::network::protocol::wire::lemma_pow256_facts(1);
            assert(bytes@.skip(2) =~= bytes@.skip(1 + 1 as int));
        }
        let (messages, n) = match read_list::<HistoryMessage>(bytes, 2, count as usize) {
            Ok(x) => x,
            Err(e) => return Err(e),
        };
        let (error_message, k) = match deserialize_error(tail(bytes, 2 + n), &status) {
            Ok(x) => x,
            Err(e) => return Err(e),
        };
        Ok((HistoryPacket { status, messages, error_message }, 2 + n + k))
    }
}

// ---------------------------------------------------------------- user statuses

/// One `[user_id|8][status|1]` pair.
pub open spec fn parse_status_pair(b: Seq<u8>) -> Result<((UserId, UserStatus), nat), CodecError> {
    if b.len() < 9 {
        Err(CodecError::ShortFrame)
    } else {
        match UserStatus::spec_from_byte(b[8]) {
            Err(e) => Err(e),
            Ok(status) => Ok(((u64_at(b, 0), status), 9)),
        }
    }
}

pub open spec fn status_pair_item() -> spec_fn(Seq<u8>) -> Result<((UserId, UserStatus), nat), CodecError> {
    |b: Seq<u8>| parse_status_pair(b)
}

fn read_status_pairs(bytes: &[u8], pos: usize, count: usize) -> (r: Result<
    (Vec<(UserId, UserStatus)>, usize),
    CodecError,
>)
    requires
        pos <= bytes@.len(),
    ensures
        match (r, parse_list(bytes@.skip(pos as int), count as nat, status_pair_item())) {
            (Ok((v, n)), Ok((w, k))) => v@ == w && n as nat == k && pos + n <= bytes@.len(),
            (Err(e), Err(f)) => e == f,
            _ => false,
        },
{
    let ghost b = bytes@.skip(pos as int);
    let total = bytes.len();
    let mut pairs: Vec<(UserId, UserStatus)> = Vec::new();
    let mut idx: usize = pos;
    let mut i: usize = 0;
    while i < count
        invariant
            total == bytes@.len(),
            b == bytes@.skip(pos as int),
            pos <= idx <= total,
            i <= count,
            parse_list(b, i as nat, status_pair_item()) == Ok::<(Seq<(UserId, UserStatus)>, nat), CodecError>(
                (pairs@, (idx - pos) as nat),
            ),
        decreases count - i,
    {
        assert(b.skip(idx - pos) =~= bytes@.skip(idx as int));
        if total - idx < 9 {
            proof {
                lemma_list_err(b, (i + 1) as nat, count as nat, status_pair_item());
            }
            return Err(CodecError::ShortFrame);
        }
        let user_id = read_be(bytes, idx, 8);
        match UserStatus::deserialize_byte(bytes[idx + 8]) {
            Ok(status) => {
                proof {
                    assert(bytes@.skip(idx as int).subrange(0, 8) =~= bytes@.subrange(idx as int, idx + 8));
                    crate::network::protocol::wire::lemma_be_value_bound(bytes@.subrange(idx as int, idx + 8));
                    crate::network::protocol::wire::lemma_pow256_facts(8);
                }
                pairs.push((user_id, status));
                idx = idx + 9;
            },
            Err(e) => {
                proof {
                    lemma_list_err(b, (i + 1) as nat, count as nat, status_pair_item());
                }
                return Err(e);
            },
        }
        i = i + 1;
    }
    Ok((pairs, idx - pos))
}

#[derive(Debug, Clone)]
pub struct UserStatusesPacket {
    pub status: ReturnStatus,
    pub users: Vec<(UserId, UserStatus)>,
    pub error_message: Option<String>,
}

pub struct UserStatusesView {
    pub status: ReturnStatus,
    pub users: Seq<(UserId, UserStatus)>,
    pub error_message: Option<Seq<char>>,
}

impl View for UserStatusesPacket {
    type V = UserStatusesView;

    open spec fn view(&self) -> UserStatusesView {
        UserStatusesView { status: self.status, users: self.users@, error_message: opt_text(self.error_message) }
    }
}

impl Deserialize for UserStatusesPacket {
    open spec fn spec_deserialize(b: Seq<u8>) -> Result<(UserStatusesView, nat), CodecError> {
        match parse_status_list_error(b, 2, status_pair_item()) {
            Err(e) => Err(e),
            Ok((status, users, error_message, n)) => Ok((UserStatusesView { status, users, error_message }, n)),
        }
    }

    fn deserialize(bytes: &[u8]) -> (r: Result<(UserStatusesPacket, usize), CodecError>) {
        let total = bytes.len();
        let status = match read_status(bytes) {
            Ok(s) => s,
            Err(e) => return Err(e),
        };
        let count = match read_field(bytes, 1, 2) {
            Ok(v) => v,
            Err(e) => return Err(e),
        };
        proof {
            crate::network::protocol::wire::lemma_be_value_bound(bytes@.skip(1).take(2));
            crate::network::protocol::wire::lemma_pow256_facts(2);
            assert(bytes@.skip(3) =~= bytes@.skip(1 + 2 as int));
        }
        let (users, n) = match read_status_pairs(bytes, 3, count as usize) {
            Ok(x) => x,
            Err(e) => return Err(e),
        };
        let (error_message, k) = match deserialize_error(tail(bytes, 3 + n), &status) {
            Ok(x) => x,
            Err(e) => return Err(e),
        };
        Ok((UserStatusesPacket { status, users, error_message }, 3 + n + k))
    }
}

// ---------------------------------------------------------------- media

#[derive(Debug, Clone)]
pub struct MediaPacket {
    pub status: ReturnStatus,
    pub filename: String,
    pub media_type: MediaType,
    pub media_data: Vec<u8>,
    pub error_message: Option<String>,
}

pub struct MediaView {
    pub status: ReturnStatus,
    pub filename: Seq<char>,
    pub media_type: MediaType,
    pub media_data: Seq<u8>,
    pub error_message: Option<Seq<char>>,
}

impl View for MediaPacket {
    type V = MediaView;

    open spec fn view(&self) -> MediaView {
        MediaView {
            status: self.status,
            filename: self.filename@,
            media_type: self.media_type,
            media_data: self.media_data@,
            error_message: opt_text(self.error_message),
        }
    }
}

impl Deserialize for MediaPacket {
    /// `[status|1][filename_len|1][filename][media_type|1][data_len|4][data][error]`
    open spec fn spec_deserialize(b: Seq<u8>) -> Result<(MediaView, nat), CodecError> {
        if b.len() < 1 {
            Err(CodecError::ShortFrame)
        } else {
            match ReturnStatus::spec_from_byte(b[0]) {
                Err(e) => Err(e),
                Ok(status) => match parse_prefixed_text(b.skip(1), 1) {
                    Err(e) => Err(e),
                    Ok((filename, n)) => if b.len() < 2 + n {
                        Err(CodecError::ShortFrame)
                    } else {
                        match MediaType::spec_from_byte(b[1 + n as int]) {
                            Err(e) => Err(e),
                            Ok(media_type) => match parse_be(b.skip(2 + n as int), 4) {
                                Err(e) => Err(e),
                                Ok((len, _)) => if b.len() < 6 + n + len {
                                    Err(CodecError::ShortFrame)
                                } else {
                                    match parse_error(b.skip(6 + n + len as int), status) {
                                        Err(e) => Err(e),
                                        Ok((error_message, k)) => Ok(
                                            (
                                                MediaView {
                                                    status,
                                                    filename,
                                                    media_type,
                                                    media_data: b.subrange(6 + n as int, 6 + n + len as int),
                                                    error_message,
                                                },
                                                6 + n + len + k,
                                            ),
                                        ),
                                    }
                                },
                            },
                        }
                    },
                },
            }
        }
    }

    fn deserialize(bytes: &[u8]) -> (r: Result<(MediaPacket, usize), CodecError>) {
        let total = bytes.len();
        let status = match read_status(bytes) {
            Ok(s) => s,
            Err(e) => return Err(e),
        };
        let (filename, n) = match read_prefixed_text(bytes, 1, 1) {
            Ok(x) => x,
            Err(e) => return Err(e),
        };
        if total - 1 - n < 1 {
            return Err(CodecError::ShortFrame);
        }
        let media_type = match MediaType::deserialize_byte(bytes[1 + n]) {
            Ok(t) => t,
            Err(e) => return Err(e),
        };
        let len = match read_field(bytes, 2 + n, 4) {
            Ok(v) => v,
            Err(e) => return Err(e),
        };
        proof {
            crate::network::protocol::wire::lemma_be_value_bound(bytes@.skip(2 + n).take(4));
            crate::network::protocol::wire::lemma_pow256_facts(4);
        }
        if (total - (6 + n)) < len as usize {
            return Err(CodecError::ShortFrame);
        }
        let start = 6 + n;
        let end = start + len as usize;
        let mut media_data: Vec<u8> = Vec::new();
        let mut i: usize = start;
        while i < end
            invariant
                total == bytes@.len(),
                start <= i <= end <= total,
                media_data@ == bytes@.subrange(start as int, i as int),
            decreases end - i,
        {
            media_data.push(bytes[i]);
            i = i + 1;
            assert(media_data@ =~= bytes@.subrange(start as int, i as int));
        }
        let (error_message, k) = match deserialize_error(tail(bytes, end), &status) {
            Ok(x) => x,
            Err(e) => return Err(e),
        };
        Ok((MediaPacket { status, filename, media_type, media_data, error_message }, end + k))
    }
}

// ---------------------------------------------------------------- typing and presence

#[derive(Debug, Clone, Copy, PartialEq, Eq, Structural)]
pub struct UserTypingPacket {
    pub is_typing: bool,
    pub user_id: UserId,
    pub channel_id: ChannelId,
}

impl View for UserTypingPacket {
    type V = UserTypingPacket;

    open spec fn view(&self) -> UserTypingPacket {
        *self
    }
}

impl Deserialize for UserTypingPacket {
    /// `[is_typing|1][user_id|8][channel_id|8]`
    open spec fn spec_deserialize(b: Seq<u8>) -> Result<(UserTypingPacket, nat), CodecError> {
        if b.len() < 1 {
            Err(CodecError::ShortFrame)
        } else if b[0] > 1 {
            Err(CodecError::BadFlag)
        } else if b.len() < 17 {
            Err(CodecError::ShortFrame)
        } else {
            Ok((UserTypingPacket { is_typing: b[0] == 1, user_id: u64_at(b, 1), channel_id: u64_at(b, 9) }, 17))
        }
    }

    fn deserialize(bytes: &[u8]) -> (r: Result<(UserTypingPacket, usize), CodecError>) {
        if bytes.len() < 1 {
            return Err(CodecError::ShortFrame);
        }
        let is_typing = match bytes[0] {
            0 => false,
            1 => true,
            _ => return Err(CodecError::BadFlag),
        };
        if bytes.len() < 17 {
            return Err(CodecError::ShortFrame);
        }
        let user_id = read_be(bytes, 1, 8);
        let channel_id = read_be(bytes, 9, 8);
        Ok((UserTypingPacket { is_typing, user_id, channel_id }, 17))
    }
}

#[derive(Debug, Clone, Copy, PartialEq, Eq, Structural)]
pub struct UserStatusPacket {
    pub status: UserStatus,
    pub user_id: UserId,
}

impl View for UserStatusPacket {
    type V = UserStatusPacket;

    open spec fn view(&self) -> UserStatusPacket {
        *self
    }
}

impl Deserialize for UserStatusPacket {
    /// `[status|1][user_id|8]`
    open spec fn spec_deserialize(b: Seq<u8>) -> Result<(UserStatusPacket, nat), CodecError> {
        if b.len() < 1 {
            Err(CodecError::ShortFrame)
        } else {
            match UserStatus::spec_from_byte(b[0]) {
                Err(e) => Err(e),
                Ok(status) => if b.len() < 9 {
                    Err(CodecError::ShortFrame)
                } else {
                    Ok((UserStatusPacket { status, user_id: u64_at(b, 1) }, 9))
                },
            }
        }
    }

    fn deserialize(bytes: &[u8]) -> (r: Result<(UserStatusPacket, usize), CodecError>) {
        if bytes.len() < 1 {
            return Err(CodecError::ShortFrame);
        }
        let status = match UserStatus::deserialize_byte(bytes[0]) {
            Ok(s) => s,
            Err(e) => return Err(e),
        };
        if bytes.len() < 9 {
            return Err(CodecError::ShortFrame);
        }
        let user_id = read_be(bytes, 1, 8);
        Ok((UserStatusPacket { status, user_id }, 9))
    }
}

// ---------------------------------------------------------------- payloads

#[derive(Debug, Clone)]
pub enum ServerPayload {
    Health(HealthCheckPacket),
    Login(LoginAckPacket),
    SendMessageAck(SendMessageAckPacket),
    SendMediaAck(SendMediaAckPacket),
    Channels(GetChannelsResponsePacket),
    ChannelsList(ChannelsListPacket),
    UserStatuses(UserStatusesPacket),
    Users(UsersPacket),
    History(HistoryPacket),
    Media(MediaPacket),
    Typing(UserTypingPacket),
    Status(UserStatusPacket),
}

pub enum ServerPayloadView {
    Health(HealthCheckPacket),
    Login(LoginAckView),
    SendMessageAck(SendMessageAckView),
    SendMediaAck(SendMediaAckView),
    Channels(GetChannelsResponseView),
    ChannelsList(ChannelsListView),
    UserStatuses(UserStatusesView),
    Users(UsersView),
    History(HistoryView),
    Media(MediaView),
    Typing(UserTypingPacket),
    Status(UserStatusPacket),
}

impl View for ServerPayload {
    type V = ServerPayloadView;

    open spec fn view(&self) -> ServerPayloadView {
        match self {
            ServerPayload::Health(p) => ServerPayloadView::Health(p@),
            ServerPayload::Login(p) => ServerPayloadView::Login(p@),
            ServerPayload::SendMessageAck(p) => ServerPayloadView::SendMessageAck(p@),
            ServerPayload::SendMediaAck(p) => ServerPayloadView::SendMediaAck(p@),
            ServerPayload::Channels(p) => ServerPayloadView::Channels(p@),
            ServerPayload::ChannelsList(p) => ServerPayloadView::ChannelsList(p@),
            ServerPayload::UserStatuses(p) => ServerPayloadView::UserStatuses(p@),
            ServerPayload::Users(p) => ServerPayloadView::Users(p@),
            ServerPayload::History(p) => ServerPayloadView::History(p@),
            ServerPayload::Media(p) => ServerPayloadView::Media(p@),
            ServerPayload::Typing(p) => ServerPayloadView::Typing(p@),
            ServerPayload::Status(p) => ServerPayloadView::Status(p@),
        }
    }
}

/// Wraps a parsed packet in its payload variant.
pub open spec fn wrap<T>(r: Result<(T, nat), CodecError>, f: spec_fn(T) -> ServerPayloadView) -> Result<
    (ServerPayloadView, nat),
    CodecError,
> {
    match r {
        Ok((v, n)) => Ok((f(v), n)),
        Err(e) => Err(e),
    }
}

/// Reads the payload of a packet of type `t` from the front of `b`.
#[verifier::opaque]
pub open spec fn parse_payload(b: Seq<u8>, t: ServerPacketType) -> Result<(ServerPayloadView, nat), CodecError> {
    match t {
        ServerPacketType::Healthcheck => wrap(
            HealthCheckPacket::spec_deserialize(b),
            |v: HealthCheckPacket| ServerPayloadView::Health(v),
        ),
        ServerPacketType::LoginAck => wrap(
            LoginAckPacket::spec_deserialize(b),
            |v: LoginAckView| ServerPayloadView::Login(v),
        ),
        ServerPacketType::SendMessageAck => wrap(
            SendMessageAckPacket::spec_deserialize(b),
            |v: SendMessageAckView| ServerPayloadView::SendMessageAck(v),
        ),
        ServerPacketType::SendMediaAck => wrap(
            SendMediaAckPacket::spec_deserialize(b),
            |v: SendMediaAckView| ServerPayloadView::SendMediaAck(v),
        ),
        ServerPacketType::ChannelList => wrap(
            ChannelsListPacket::spec_deserialize(b),
            |v: ChannelsListView| ServerPayloadView::ChannelsList(v),
        ),
        ServerPacketType::Channels => wrap(
            GetChannelsResponsePacket::spec_deserialize(b),
            |v: GetChannelsResponseView| ServerPayloadView::Channels(v),
        ),
        ServerPacketType::History => wrap(
            HistoryPacket::spec_deserialize(b),
            |v: HistoryView| ServerPayloadView::History(v),
        ),
        ServerPacketType::UserStatuses => wrap(
            UserStatusesPacket::spec_deserialize(b),
            |v: UserStatusesView| ServerPayloadView::UserStatuses(v),
        ),
        ServerPacketType::Users => wrap(UsersPacket::spec_deserialize(b), |v: UsersView| ServerPayloadView::Users(v)),
        ServerPacketType::Media => wrap(MediaPacket::spec_deserialize(b), |v: MediaView| ServerPayloadView::Media(v)),
        ServerPacketType::Typing => wrap(
            UserTypingPacket::spec_deserialize(b),
            |v: UserTypingPacket| ServerPayloadView::Typing(v),
        ),
        ServerPacketType::UserStatus => wrap(
            UserStatusPacket::spec_deserialize(b),
            |v: UserStatusPacket| ServerPayloadView::Status(v),
        ),
    }
}

impl ServerPayload {
    /// Reads the payload of a packet of type `packet_type`; it reports how many bytes it used.
    #[verifier::rlimit(100)]
    #[verifier::spinoff_prover]
    pub fn deserialize_packet(bytes: &[u8], packet_type: ServerPacketType) -> (r: Result<(Self, usize), CodecError>)
        ensures
            match (r, parse_payload(bytes@, packet_type)) {
                (Ok((v, n)), Ok((m, k))) => v@ == m && n as nat == k && n <= bytes@.len(),
                (Err(e), Err(f)) => e == f,
                _ => false,
            },
    {
        reveal(parse_payload);
        match packet_type {
            ServerPacketType::Healthcheck => match HealthCheckPacket::deserialize(bytes) {
                Ok((p, n)) => Ok((ServerPayload::Health(p), n)),
                Err(e) => Err(e),
            },
            ServerPacketType::LoginAck => match LoginAckPacket::deserialize(bytes) {
                Ok((p, n)) => Ok((ServerPayload::Login(p), n)),
                Err(e) => Err(e),
            },
            ServerPacketType::SendMessageAck => match SendMessageAckPacket::deserialize(bytes) {
                Ok((p, n)) => Ok((ServerPayload::SendMessageAck(p), n)),
                Err(e) => Err(e),
            },
            ServerPacketType::SendMediaAck => match SendMediaAckPacket::deserialize(bytes) {
                Ok((p, n)) => Ok((ServerPayload::SendMediaAck(p), n)),
                Err(e) => Err(e),
            },
            ServerPacketType::ChannelList => match ChannelsListPacket::deserialize(bytes) {
                Ok((p, n)) => Ok((ServerPayload::ChannelsList(p), n)),
                Err(e) => Err(e),
            },
            ServerPacketType::Channels => match GetChannelsResponsePacket::deserialize(bytes) {
                Ok((p, n)) => Ok((ServerPayload::Channels(p), n)),
                Err(e) => Err(e),
            },
            ServerPacketType::History => match HistoryPacket::deserialize(bytes) {
                Ok((p, n)) => Ok((ServerPayload::History(p), n)),
                Err(e) => Err(e),
            },
            ServerPacketType::UserStatuses => match UserStatusesPacket::deserialize(bytes) {
                Ok((p, n)) => Ok((ServerPayload::UserStatuses(p), n)),
                Err(e) => Err(e),
            },
            ServerPacketType::Users => match UsersPacket::deserialize(bytes) {
                Ok((p, n)) => Ok((ServerPayload::Users(p), n)),
                Err(e) => Err(e),
            },
            ServerPacketType::Media => match MediaPacket::deserialize(bytes) {
                Ok((p, n)) => Ok((ServerPayload::Media(p), n)),
                Err(e) => Err(e),
            },
            ServerPacketType::Typing => match UserTypingPacket::deserialize(bytes) {
                Ok((p, n)) => Ok((ServerPayload::Typing(p), n)),
                Err(e) => Err(e),
            },
            ServerPacketType::UserStatus => match UserStatusPacket::deserialize(bytes) {
                Ok((p, n)) => Ok((ServerPayload::Status(p), n)),
                Err(e) => Err(e),
            },
        }
    }
}

} // verus!
