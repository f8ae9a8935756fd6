//! Connection bookkeeping and the receive path's framing rules.
use vstd::prelude::*;

use crate::network::protocol::header::{parse_header, Header, PacketType, HEADER_LENGTH};
use crate::network::protocol::server::{parse_payload, ServerPacketType, ServerPayload, ServerPayloadView};
use crate::network::protocol::wire::tail;
use crate::network::protocol::CodecError;
use crate::tui::events::ServerAddrInfo;

verus! {

/// The longest frame, header included, that the client accepts.
pub const MAX_MESSAGE_LENGTH: usize = 16384;

#[derive(Debug, Clone, Copy, PartialEq, Eq, Structural)]
pub enum ServerConnectionStatus {
    Connected,
    Unhealthy,
    Disconnected,
    Reconnecting,
}

#[derive(Debug, Clone, Copy, PartialEq, Eq, Structural)]
pub enum ConnectionType {
    Raw,
    TLS,
}

/// The moment, in milliseconds of wall-clock time, at which something last happened.
#[derive(Debug, Clone, Copy, PartialEq, Eq, Structural)]
pub struct InteractedTimeStamp {
    pub millis: u64,
}

impl InteractedTimeStamp {
    /// A stamp that has never been updated: it reads as the Unix epoch.
    pub fn new() -> (r: InteractedTimeStamp)
        ensures
            r.millis == 0,
    {
        InteractedTimeStamp { millis: 0 }
    }

    /// Records `now_millis` as the latest moment.
    pub fn update(&mut self, now_millis: u64)
        ensures
            final(self).millis == now_millis,
    {
        self.millis = now_millis;
    }

    /// Milliseconds since the stamp, or 0 where the clock reads earlier than it.
    pub open spec fn elapsed_spec(&self, now_millis: u64) -> u64 {
        if now_millis >= self.millis {
            (now_millis - self.millis) as u64
        } else {
            0
        }
    }

    pub fn elapsed(&self, now_millis: u64) -> (r: u64)
        ensures
            r == self.elapsed_spec(now_millis),
    {
        if now_millis >= self.millis {
            now_millis - self.millis
        } else {
            0
        }
    }
}

/// What a header read off the socket announces: a server packet type and a payload length
/// that keeps the frame within the limit.
pub open spec fn parse_frame_header(b: Seq<u8>) -> Result<(ServerPacketType, nat), CodecError> {
    match parse_header(b) {
        Err(e) => Err(e),
        Ok((PacketType::Client(_), _)) => Err(CodecError::WrongDirection),
        Ok((PacketType::Server(t), len)) => Ok((t, len as nat)),
    }
}

/// Reads a header and says how many payload bytes follow it.
pub fn read_frame_header(bytes: &[u8]) -> (r: Result<(ServerPacketType, usize), CodecError>)
    ensures
        match (r, parse_frame_header(bytes@)) {
            (Ok((t, n)), Ok((u, m))) => t == u && n as nat == m,
            (Err(e), Err(f)) => e == f,
            _ => false,
        },
{
    let header = match Header::deserialize(bytes) {
        Ok((h, _)) => h,
        Err(e) => return Err(e),
    };
    let t = match header.packet_type {
        PacketType::Server(t) => t,
        PacketType::Client(_) => return Err(CodecError::WrongDirection),
    };
    Ok((t, header.length as usize))
}

/// A whole frame: header, then a payload of the announced length.
pub open spec fn parse_frame(b: Seq<u8>) -> Result<(ServerPayloadView, nat), CodecError> {
    match parse_frame_header(b) {
        Err(e) => Err(e),
        Ok((t, len)) => if b.len() < HEADER_LENGTH + len {
            Err(CodecError::ShortFrame)
        } else {
            match parse_payload(b.subrange(HEADER_LENGTH as int, HEADER_LENGTH + len), t) {
                Err(e) => Err(e),
                Ok((p, n)) => Ok((p, (HEADER_LENGTH + n) as nat)),
            }
        },
    }
}

/// Reads one frame from the front of `bytes`; it reports how many bytes it used.
pub fn decode_frame(bytes: &[u8]) -> (r: Result<(ServerPayload, usize), CodecError>)
    ensures
        match (r, parse_frame(bytes@)) {
            (Ok((p, n)), Ok((q, k))) => p@ == q && n as nat == k,
            (Err(e), Err(f)) => e == f,
            _ => false,
        },
{
    let (t, len) = match read_frame_header(bytes) {
        Ok(x) => x,
        Err(e) => return Err(e),
    };
    if bytes.len() - 10 < len || bytes.len() < 10 {
        return Err(CodecError::ShortFrame);
    }
    let rest = tail(bytes, 10);
    let (payload, _) = rest.split_at(len);
    assert(payload@ =~= bytes@.subrange(10, 10 + len));
    match ServerPayload::deserialize_packet(payload, t) {
        Ok((p, n)) => Ok((p, 10 + n)),
        Err(e) => Err(e),
    }
}

/// Why a connection is not even attempted.
#[derive(Debug, Clone, Copy, PartialEq, Eq, Structural)]
pub enum ConnectError {
    /// The client already holds a connection; it holds at most one.
    AlreadyConnected,
    /// TLS needs the name of the server, and there is only an address.
    TlsRequiresDomain,
}

/// Decides whether a connection to `server` may be opened while `writer_held` says whether
/// one is held already.
pub fn check_connect(writer_held: bool, server: &ServerAddrInfo) -> (r: Result<(), ConnectError>)
    ensures
        writer_held ==> r == Err::<(), ConnectError>(ConnectError::AlreadyConnected),
        !writer_held ==> (r == if server.connection_type == ConnectionType::TLS && server.domain is None {
            Err::<(), ConnectError>(ConnectError::TlsRequiresDomain)
        } else {
            Ok::<(), ConnectError>(())
        }),
{
    if writer_held {
        return Err(ConnectError::AlreadyConnected);
    }
    if server.connection_type == ConnectionType::TLS && server.domain.is_none() {
        return Err(ConnectError::TlsRequiresDomain);
    }
    Ok(())
}

} // verus!
