//! The fixed ten-byte header in front of every frame.
use vstd::prelude::*;

use crate::network::protocol::client::ClientPacketType;
use crate::network::protocol::server::{DeserializeByte, ServerPacketType};
use crate::network::protocol::wire::{be_bytes, be_value, push_all, push_be, read_be};
use crate::network::client::MAX_MESSAGE_LENGTH;
use crate::network::protocol::CodecError;

verus! {

/// The four bytes `C H T G` that open every frame.
pub open spec fn magic() -> Seq<u8> {
    seq![0x43u8, 0x48u8, 0x54u8, 0x47u8]
}

/// Length of a header in bytes.
pub const HEADER_LENGTH: usize = 10;

#[derive(Debug, Clone, Copy)]
pub struct Header {
    pub magic_number: [u8; 4],
    pub version: PacketVersion,
    pub packet_type: PacketType,
    pub length: u32,
}

/// A packet type, by the direction that it travels in.
#[derive(Debug, Clone, Copy, PartialEq, Eq, Structural)]
pub enum PacketType {
    Server(ServerPacketType),
    Client(ClientPacketType),
}

#[derive(Debug, Clone, Copy, PartialEq, Eq, Structural)]
pub enum PacketVersion {
    V1,
}

impl PacketType {
    /// The packet type byte: the high bit is set for client packets.
    pub open spec fn spec_byte(self) -> u8 {
        match self {
            PacketType::Server(t) => t.spec_byte(),
            PacketType::Client(t) => t.spec_byte(),
        }
    }

    /// Reads a packet type that a server sent; a client packet type is refused.
    pub open spec fn spec_from_byte(b: u8) -> Result<PacketType, CodecError> {
        if b >= 0x80 {
            Err(CodecError::WrongDirection)
        } else {
            match ServerPacketType::spec_from_byte(b) {
                Ok(t) => Ok(PacketType::Server(t)),
                Err(e) => Err(e),
            }
        }
    }

    pub fn deserialize_byte(byte: u8) -> (r: Result<PacketType, CodecError>)
        ensures
            r == PacketType::spec_from_byte(byte),
    {
        if byte >= 0x80 {
            Err(CodecError::WrongDirection)
        } else {
            match ServerPacketType::deserialize_byte(byte) {
                Ok(t) => Ok(PacketType::Server(t)),
                Err(e) => Err(e),
            }
        }
    }

    pub fn to_byte(&self) -> (r: u8)
        ensures
            r == self.spec_byte(),
    {
        match self {
            PacketType::Server(t) => t.to_byte(),
            PacketType::Client(t) => t.to_byte(),
        }
    }
}

impl PacketVersion {
    pub open spec fn spec_from_byte(b: u8) -> Result<PacketVersion, CodecError> {
        if b == 0x01 {
            Ok(PacketVersion::V1)
        } else {
            Err(CodecError::UnknownVersion)
        }
    }

    pub fn deserialize_byte(byte: u8) -> (r: Result<PacketVersion, CodecError>)
        ensures
            r == PacketVersion::spec_from_byte(byte),
    {
        if byte == 0x01 {
            Ok(PacketVersion::V1)
        } else {
            Err(CodecError::UnknownVersion)
        }
    }
}

impl Header {
    /// A version 1 header for a payload of `length` bytes.
    pub fn new(packet_type: PacketType, length: u32) -> (r: Header)
        ensures
            r.magic_number@ == magic(),
            r.version == PacketVersion::V1,
            r.packet_type == packet_type,
            r.length == length,
    {
        let r = Header { magic_number: [0x43u8, 0x48u8, 0x54u8, 0x47u8], version: PacketVersion::V1, packet_type, length };
        assert(r.magic_number@ =~= magic());
        r
    }

    /// The ten bytes of this header.
    pub open spec fn spec_bytes(self) -> Seq<u8> {
        self.magic_number@ + seq![0x01u8, self.packet_type.spec_byte()] + be_bytes(self.length as nat, 4)
    }

    /// The client sends only headers of its own packet types.
    pub open spec fn serializable(self) -> bool {
        self.packet_type is Client
    }

    pub fn serialize(self) -> (r: Vec<u8>)
        requires
            self.serializable(),
        ensures
            r@ == self.spec_bytes(),
    {
        let mut bytes: Vec<u8> = Vec::with_capacity(10);
        push_all(&mut bytes, &self.magic_number);
        bytes.push(0x01u8);
        bytes.push(self.packet_type.to_byte());
        push_be(&mut bytes, self.length as u64, 4);
        assert(bytes@ =~= self.spec_bytes());
        bytes
    }
}

/// Reads a header from the front of `b`: the magic first, then the version, then the
/// type, then a payload length that keeps the frame within the limit; on success the packet
/// type and the payload length.
pub open spec fn parse_header(b: Seq<u8>) -> Result<(PacketType, u32), CodecError> {
    if b.len() < 10 {
        Err(CodecError::ShortFrame)
    } else if b.take(4) != magic() {
        Err(CodecError::BadMagic)
    } else {
        match PacketVersion::spec_from_byte(b[4]) {
            Err(e) => Err(e),
            Ok(_) => match PacketType::spec_from_byte(b[5]) {
                Err(e) => Err(e),
                Ok(packet_type) => if be_value(b.subrange(6, 10)) + HEADER_LENGTH > MAX_MESSAGE_LENGTH {
                    Err(CodecError::OversizeFrame)
                } else {
                    Ok((packet_type, be_value(b.subrange(6, 10)) as u32))
                },
            },
        }
    }
}

impl Header {
    pub fn deserialize(bytes: &[u8]) -> (r: Result<(Header, usize), CodecError>)
        ensures
            match (r, parse_header(bytes@)) {
                (Ok((h, n)), Ok((t, len))) => h.magic_number@ == magic() && h.version == PacketVersion::V1
                    && h.packet_type == t && h.length == len && n == HEADER_LENGTH,
                (Err(e), Err(f)) => e == f,
                _ => false,
            },
    {
        if bytes.len() < 10 {
            return Err(CodecError::ShortFrame);
        }
        if !(bytes[0] == 0x43u8 && bytes[1] == 0x48u8 && bytes[2] == 0x54u8 && bytes[3] == 0x47u8) {
            proof {
                if bytes@.take(4) == magic() {
                    assert(bytes@.take(4)[0] == bytes@[0]);
                    assert(bytes@.take(4)[1] == bytes@[1]);
                    assert(bytes@.take(4)[2] == bytes@[2]);
                    assert(bytes@.take(4)[3] == bytes@[3]);
                }
            }
            return Err(CodecError::BadMagic);
        }
        assert(bytes@.take(4) =~= magic());
        let version = match PacketVersion::deserialize_byte(bytes[4]) {
            Ok(v) => v,
            Err(e) => return Err(e),
        };
        let packet_type = match PacketType::deserialize_byte(bytes[5]) {
            Ok(t) => t,
            Err(e) => return Err(e),
        };
        let length = read_be(bytes, 6, 4);
        proof {
            crate::network::protocol::wire::lemma_be_value_bound(bytes@.subrange(6, 10));
            crate::network::protocol::wire::lemma_pow256_facts(4);
        }
        if length > (MAX_MESSAGE_LENGTH - HEADER_LENGTH) as u64 {
            return Err(CodecError::OversizeFrame);
        }
        let h = Header { magic_number: [0x43u8, 0x48u8, 0x54u8, 0x47u8], version, packet_type, length: length as u32 };
        assert(h.magic_number@ =~= magic());
        Ok((h, 10))
    }
}

/// A header is accepted only with the magic `CHTG` and version `0x01`; a wrong magic is
/// reported as such, and a wrong version after a right magic as an unknown version; an
/// accepted header announces a frame within the size limit.
pub proof fn lemma_header_rejects(b: Seq<u8>)
    requires
        b.len() >= 10,
    ensures
        parse_header(b) is Ok ==> b.take(4) == magic() && b[4] == 0x01u8,
        b.take(4) != magic() ==> parse_header(b) == Err::<(PacketType, u32), CodecError>(CodecError::BadMagic),
        b.take(4) == magic() && b[4] != 0x01u8 ==> parse_header(b) == Err::<(PacketType, u32), CodecError>(
            CodecError::UnknownVersion,
        ),
        parse_header(b) matches Ok((_, len)) ==> len + HEADER_LENGTH <= MAX_MESSAGE_LENGTH,
{
}

} // verus!
