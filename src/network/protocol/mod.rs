//! The chatger wire protocol: frame header, client requests and server replies.
use vstd::prelude::*;
use vstd::utf8::*;

use crate::network::protocol::server::DeserializeByte;
use crate::network::protocol::wire::{be_bytes, be_value, pow256};

pub mod client;
pub mod header;
pub mod round_trip;
pub mod server;
pub mod wire;

verus! {

/// Why a run of bytes is not a frame that the client accepts.
#[derive(Debug, Clone, Copy, PartialEq, Eq, Structural)]
pub enum CodecError {
    /// The bytes end before the value does.
    ShortFrame,
    /// The first four bytes are not `CHTG`.
    BadMagic,
    /// The version byte is not `0x01`.
    UnknownVersion,
    /// The packet type byte names no server packet.
    UnknownType,
    /// A return status byte other than `0x00`, `0x01` or `0x02`.
    BadStatus,
    /// A user status byte other than `0x00` to `0x03`.
    BadUserStatus,
    /// A media type byte other than `0x00` to `0x04`.
    BadMediaType,
    /// A health check kind other than ping (`0x00`) or pong (`0x01`).
    BadHealthKind,
    /// A typing flag other than `0x00` or `0x01`.
    BadFlag,
    /// Text that is not valid UTF-8.
    Utf8Error,
    /// A frame longer than the client accepts.
    OversizeFrame,
    /// A packet type that travels from client to server.
    WrongDirection,
}

/// What a media payload holds.
#[derive(Debug, Clone, Copy, PartialEq, Eq, Structural)]
pub enum MediaType {
    Raw,
    Text,
    Audio,
    Image,
    Video,
}

/// A user's presence.
#[derive(Debug, Clone, Copy, PartialEq, Eq, Structural)]
pub enum UserStatus {
    Offline,
    Online,
    Idle,
    DoNotDisturb,
}

impl MediaType {
    pub open spec fn spec_byte(self) -> u8 {
        match self {
            MediaType::Raw => 0x00,
            MediaType::Text => 0x01,
            MediaType::Audio => 0x02,
            MediaType::Image => 0x03,
            MediaType::Video => 0x04,
        }
    }

    pub fn to_byte(&self) -> (r: u8)
        ensures
            r == self.spec_byte(),
    {
        match self {
            MediaType::Raw => 0x00,
            MediaType::Text => 0x01,
            MediaType::Audio => 0x02,
            MediaType::Image => 0x03,
            MediaType::Video => 0x04,
        }
    }
}

impl DeserializeByte for MediaType {
    open spec fn spec_from_byte(b: u8) -> Result<MediaType, CodecError> {
        if b == 0x00 {
            Ok(MediaType::Raw)
        } else if b == 0x01 {
            Ok(MediaType::Text)
        } else if b == 0x02 {
            Ok(MediaType::Audio)
        } else if b == 0x03 {
            Ok(MediaType::Image)
        } else if b == 0x04 {
            Ok(MediaType::Video)
        } else {
            Err(CodecError::BadMediaType)
        }
    }

    fn deserialize_byte(byte: u8) -> (r: Result<MediaType, CodecError>) {
        match byte {
            0x00 => Ok(MediaType::Raw),
            0x01 => Ok(MediaType::Text),
            0x02 => Ok(MediaType::Audio),
            0x03 => Ok(MediaType::Image),
            0x04 => Ok(MediaType::Video),
            _ => Err(CodecError::BadMediaType),
        }
    }
}

impl UserStatus {
    pub open spec fn spec_byte(self) -> u8 {
        match self {
            UserStatus::Offline => 0x00,
            UserStatus::Online => 0x01,
            UserStatus::Idle => 0x02,
            UserStatus::DoNotDisturb => 0x03,
        }
    }

    pub fn to_byte(&self) -> (r: u8)
        ensures
            r == self.spec_byte(),
    {
        match self {
            UserStatus::Offline => 0x00,
            UserStatus::Online => 0x01,
            UserStatus::Idle => 0x02,
            UserStatus::DoNotDisturb => 0x03,
        }
    }
}

impl DeserializeByte for UserStatus {
    open spec fn spec_from_byte(b: u8) -> Result<UserStatus, CodecError> {
        if b == 0x00 {
            Ok(UserStatus::Offline)
        } else if b == 0x01 {
            Ok(UserStatus::Online)
        } else if b == 0x02 {
            Ok(UserStatus::Idle)
        } else if b == 0x03 {
            Ok(UserStatus::DoNotDisturb)
        } else {
            Err(CodecError::BadUserStatus)
        }
    }

    fn deserialize_byte(byte: u8) -> (r: Result<UserStatus, CodecError>) {
        match byte {
            0x00 => Ok(UserStatus::Offline),
            0x01 => Ok(UserStatus::Online),
            0x02 => Ok(UserStatus::Idle),
            0x03 => Ok(UserStatus::DoNotDisturb),
            _ => Err(CodecError::BadUserStatus),
        }
    }
}

/// Reads `n` big-endian bytes from the front of `b`.
pub open spec fn parse_be(b: Seq<u8>, n: nat) -> Result<(nat, nat), CodecError> {
    if n <= b.len() {
        Ok((be_value(b.take(n as int)), n))
    } else {
        Err(CodecError::ShortFrame)
    }
}

/// Reads `len` bytes of UTF-8 text from the front of `b`.
pub open spec fn parse_text(b: Seq<u8>, len: nat) -> Result<(Seq<char>, nat), CodecError> {
    if len > b.len() {
        Err(CodecError::ShortFrame)
    } else if !valid_utf8(b.take(len as int)) {
        Err(CodecError::Utf8Error)
    } else {
        Ok((decode_utf8(b.take(len as int)), len))
    }
}

/// Reads text with a `w`-byte big-endian length in front of it.
pub open spec fn parse_prefixed_text(b: Seq<u8>, w: nat) -> Result<(Seq<char>, nat), CodecError> {
    match parse_be(b, w) {
        Err(e) => Err(e),
        Ok((len, k)) => match parse_text(b.skip(k as int), len) {
            Err(e) => Err(e),
            Ok((t, m)) => Ok((t, k + m)),
        },
    }
}

/// Text with a `w`-byte big-endian length in front of it.
pub open spec fn encode_prefixed_text(t: Seq<char>, w: nat) -> Seq<u8> {
    be_bytes(encode_utf8(t).len(), w) + encode_utf8(t)
}

/// The index of the first NUL byte of `b`, or its length where it has none.
pub open spec fn nul_index(b: Seq<u8>) -> nat
    decreases b.len(),
{
    if b.len() == 0 {
        0
    } else if b[0] == 0 {
        0
    } else {
        1 + nul_index(b.drop_first())
    }
}

/// Text that runs to the first NUL byte or to the end of `b`; the NUL is not consumed.
pub open spec fn parse_nul_text(b: Seq<u8>) -> Result<(Seq<char>, nat), CodecError> {
    parse_text(b, nul_index(b))
}

/// Text that holds no NUL character.
pub open spec fn no_nul(t: Seq<char>) -> bool {
    forall|i: int| 0 <= i < t.len() ==> t[i] != '\0'
}

/// Reads `count` items one after another with `item`.
pub open spec fn parse_list<T>(
    b: Seq<u8>,
    count: nat,
    item: spec_fn(Seq<u8>) -> Result<(T, nat), CodecError>,
) -> Result<(Seq<T>, nat), CodecError>
    decreases count,
{
    if count == 0 {
        Ok((seq![], 0))
    } else {
        match parse_list(b, (count - 1) as nat, item) {
            Err(e) => Err(e),
            Ok((xs, n)) => if n <= b.len() {
                match item(b.skip(n as int)) {
                    Err(e) => Err(e),
                    Ok((x, k)) => Ok((xs.push(x), n + k)),
                }
            } else {
                Err(CodecError::ShortFrame)
            },
        }
    }
}

/// The items of `xs` written one after another with `enc`.
pub open spec fn encode_list<T>(xs: Seq<T>, enc: spec_fn(T) -> Seq<u8>) -> Seq<u8>
    decreases xs.len(),
{
    if xs.len() == 0 {
        seq![]
    } else {
        encode_list(xs.drop_last(), enc) + enc(xs.last())
    }
}

/// A list parser reads back what the list encoder wrote, whatever follows it.
pub proof fn lemma_list_round_trip<T>(
    xs: Seq<T>,
    rest: Seq<u8>,
    item: spec_fn(Seq<u8>) -> Result<(T, nat), CodecError>,
    enc: spec_fn(T) -> Seq<u8>,
)
    requires
        forall|x: T, r: Seq<u8>|
            xs.contains(x) ==> #[trigger] item(enc(x) + r) == Ok::<(T, nat), CodecError>((x, enc(x).len())),
    ensures
        parse_list(encode_list(xs, enc) + rest, xs.len(), item) == Ok::<(Seq<T>, nat), CodecError>(
            (xs, encode_list(xs, enc).len()),
        ),
    decreases xs.len(),
{
    if xs.len() > 0 {
        let init = xs.drop_last();
        let x = xs.last();
        assert forall|y: T, r: Seq<u8>| init.contains(y) implies #[trigger] item(enc(y) + r) == Ok::<
            (T, nat),
            CodecError,
        >((y, enc(y).len())) by {
            let j = choose|j: int| 0 <= j < init.len() && init[j] == y;
            assert(xs[j] == y);
            assert(xs.contains(y));
        }
        assert(xs.contains(x)) by {
            assert(xs[xs.len() - 1] == x);
        }
        let tail = enc(x) + rest;
        assert(encode_list(xs, enc) + rest =~= encode_list(init, enc) + tail);
        lemma_list_round_trip(init, tail, item, enc);
        let b = encode_list(xs, enc) + rest;
        let n = encode_list(init, enc).len();
        assert(b.skip(n as int) =~= tail);
        assert(item(tail) == Ok::<(T, nat), CodecError>((x, enc(x).len())));
        assert(init.push(x) =~= xs);
        assert(parse_list(b, init.len(), item) == Ok::<(Seq<T>, nat), CodecError>((init, n)));
        assert(n <= b.len());
    } else {
        assert(xs =~= seq![]);
    }
}

/// Reading fixed-width numbers and prefixed text back from what was written.
pub proof fn lemma_be_prefix(x: nat, n: nat, rest: Seq<u8>)
    requires
        x < pow256(n),
    ensures
        parse_be(be_bytes(x, n) + rest, n) == Ok::<(nat, nat), CodecError>((x, n)),
        (be_bytes(x, n) + rest).skip(n as int) == rest,
{
    crate::network::protocol::wire::lemma_be_round_trip(x, n);
    assert((be_bytes(x, n) + rest).take(n as int) =~= be_bytes(x, n));
    assert((be_bytes(x, n) + rest).skip(n as int) =~= rest);
}

pub proof fn lemma_prefixed_text_round_trip(t: Seq<char>, w: nat, rest: Seq<u8>)
    requires
        encode_utf8(t).len() < pow256(w),
    ensures
        parse_prefixed_text(encode_prefixed_text(t, w) + rest, w) == Ok::<(Seq<char>, nat), CodecError>(
            (t, encode_prefixed_text(t, w).len()),
        ),
{
    let e = encode_utf8(t);
    let b = encode_prefixed_text(t, w) + rest;
    assert(b =~= be_bytes(e.len(), w) + (e + rest));
    lemma_be_prefix(e.len(), w, e + rest);
    crate::network::protocol::wire::lemma_be_bytes_len(e.len(), w);
    assert((e + rest).take(e.len() as int) =~= e);
    encode_utf8_valid_utf8(t);
    encode_utf8_decode_utf8(t);
}

pub proof fn lemma_nul_index_bound(b: Seq<u8>)
    ensures
        nul_index(b) <= b.len(),
        nul_index(b) < b.len() ==> b[nul_index(b) as int] == 0,
        forall|i: int| 0 <= i < nul_index(b) ==> b[i] != 0,
    decreases b.len(),
{
    if b.len() > 0 && b[0] != 0 {
        lemma_nul_index_bound(b.drop_first());
        assert forall|i: int| 0 <= i < nul_index(b) implies b[i] != 0 by {
            if i > 0 {
                assert(b[i] == b.drop_first()[i - 1]);
            }
        }
    }
}

pub proof fn lemma_nul_index_of(b: Seq<u8>, k: nat)
    requires
        k <= b.len(),
        k < b.len() ==> b[k as int] == 0,
        forall|i: int| 0 <= i < k ==> b[i] != 0,
    ensures
        nul_index(b) == k,
    decreases k,
{
    if k > 0 {
        assert(b[0] != 0);
        let t = b.drop_first();
        assert forall|i: int| 0 <= i < k - 1 implies t[i] != 0 by {
            assert(t[i] == b[i + 1]);
        }
        if (k - 1) < t.len() {
            assert(t[k - 1] == b[k as int]);
        }
        lemma_nul_index_of(t, (k - 1) as nat);
    }
}

/// UTF-8 text without a NUL character holds no zero byte, so a NUL-terminated read takes all of it.
pub proof fn lemma_nul_text_round_trip(t: Seq<char>)
    requires
        no_nul(t),
    ensures
        parse_nul_text(encode_utf8(t)) == Ok::<(Seq<char>, nat), CodecError>((t, encode_utf8(t).len())),
{
    let e = encode_utf8(t);
    lemma_utf8_no_zero(t);
    lemma_nul_index_of(e, e.len());
    assert(e.take(e.len() as int) =~= e);
    encode_utf8_valid_utf8(t);
    encode_utf8_decode_utf8(t);
}

pub proof fn lemma_utf8_no_zero(t: Seq<char>)
    requires
        no_nul(t),
    ensures
        forall|i: int| 0 <= i < encode_utf8(t).len() ==> encode_utf8(t)[i] != 0,
    decreases t.len(),
{
    if t.len() > 0 {
        let first = encode_scalar(t[0] as u32);
        let tail = t.drop_first();
        assert(no_nul(tail)) by {
            assert forall|i: int| 0 <= i < tail.len() implies tail[i] != '\0' by {
                assert(tail[i] == t[i + 1]);
            }
        }
        lemma_utf8_no_zero(tail);
        assert(t[0] != '\0');
        lemma_scalar_no_zero(t[0]);
        assert(encode_utf8(t) == first + encode_utf8(tail));
        assert forall|i: int| 0 <= i < encode_utf8(t).len() implies encode_utf8(t)[i] != 0 by {
            if i < first.len() {
                assert(encode_utf8(t)[i] == first[i]);
            } else {
                assert(encode_utf8(t)[i] == encode_utf8(tail)[i - first.len()]);
            }
        }
    }
}

pub proof fn lemma_scalar_no_zero(c: char)
    requires
        c != '\0',
    ensures
        forall|i: int| 0 <= i < encode_scalar(c as u32).len() ==> #[trigger] encode_scalar(c as u32)[i] != 0,
{
    let v = c as u32;
    assert(v != 0);
    char_is_scalar(c);
    reveal(encode_scalar);
    if has_width_1_encoding(v) {
        assert(leading_byte_width_1(v) != 0) by (bit_vector)
            requires
                v != 0,
                v <= 0x7f,
        ;
    } else if has_width_2_encoding(v) {
        assert(leading_byte_width_2(v) != 0) by (bit_vector);
        assert(last_continuation_byte(v) != 0) by (bit_vector);
    } else if has_width_3_encoding(v) {
        assert(leading_byte_width_3(v) != 0) by (bit_vector);
        assert(second_last_continuation_byte(v) != 0) by (bit_vector);
        assert(last_continuation_byte(v) != 0) by (bit_vector);
    } else {
        assert(leading_byte_width_4(v) != 0) by (bit_vector);
        assert(third_last_continuation_byte(v) != 0) by (bit_vector);
        assert(second_last_continuation_byte(v) != 0) by (bit_vector);
        assert(last_continuation_byte(v) != 0) by (bit_vector);
    }
}

/// Relies on `String::from_utf8`: it succeeds exactly on valid UTF-8, and the text
/// it returns consists of the characters that those bytes encode.
#[verifier::external_body]
fn string_from_utf8(v: Vec<u8>) -> (r: Option<String>)
    ensures
        r is Some <==> valid_utf8(v@),
        r matches Some(s) ==> s@ == decode_utf8(v@),
{
    String::from_utf8(v).ok()
}

/// Reads `len` bytes of UTF-8 text at the front of `bytes`.
pub fn read_text(bytes: &[u8], len: usize) -> (r: Result<(String, usize), CodecError>)
    ensures
        match (r, parse_text(bytes@, len as nat)) {
            (Ok((s, n)), Ok((t, m))) => s@ == t && n as nat == m,
            (Err(e), Err(f)) => e == f,
            _ => false,
        },
{
    if len > bytes.len() {
        return Err(CodecError::ShortFrame);
    }
    let mut v: Vec<u8> = Vec::with_capacity(len);
    let mut i: usize = 0;
    while i < len
        invariant
            len <= bytes@.len(),
            i <= len,
            v@ == bytes@.take(i as int),
        decreases len - i,
    {
        v.push(bytes[i]);
        i = i + 1;
        assert(v@ =~= bytes@.take(i as int));
    }
    match string_from_utf8(v) {
        Some(s) => Ok((s, len)),
        None => Err(CodecError::Utf8Error),
    }
}

/// Finds the first NUL byte of `bytes`, or its length where it has none.
pub fn find_nul(bytes: &[u8]) -> (r: usize)
    ensures
        r as nat == nul_index(bytes@),
{
    let mut i: usize = 0;
    while i < bytes.len() && bytes[i] != 0
        invariant
            i <= bytes@.len(),
            forall|j: int| 0 <= j < i ==> bytes@[j] != 0,
        decreases bytes@.len() - i,
    {
        i = i + 1;
    }
    proof {
        lemma_nul_index_of(bytes@, i as nat);
    }
    i
}

} // verus!
