//! The two message families and their binary encoding.
//!
//! A message is a little-endian `u32` variant index followed by its string
//! fields, each written as a little-endian `u64` byte count and the UTF-8
//! bytes of the text, as bincode lays them out; bincode writes and reads the
//! pieces. Bytes after a complete message are ignored.

use vstd::bytes::*;
use vstd::prelude::*;
use vstd::slice::*;
use vstd::utf8::*;

verus! {

broadcast use group_utf8_lib;

/// What the relay sends to every client.
pub enum ServerMessage {
    Message { nick: String, content: String },
}

/// What a client sends to the relay.
pub enum ClientMessage {
    Message { content: String },
    Nick { nick: String },
}

/// Abstract value of a `ServerMessage`.
pub ghost enum ServerMessageView {
    Message { nick: Seq<char>, content: Seq<char> },
}

/// Abstract value of a `ClientMessage`.
pub ghost enum ClientMessageView {
    Message { content: Seq<char> },
    Nick { nick: Seq<char> },
}

impl View for ServerMessage {
    type V = ServerMessageView;

    open spec fn view(&self) -> ServerMessageView {
        match self {
            ServerMessage::Message { nick, content } => ServerMessageView::Message {
                nick: nick@,
                content: content@,
            },
        }
    }
}

impl View for ClientMessage {
    type V = ClientMessageView;

    open spec fn view(&self) -> ClientMessageView {
        match self {
            ClientMessage::Message { content } => ClientMessageView::Message { content: content@ },
            ClientMessage::Nick { nick } => ClientMessageView::Nick { nick: nick@ },
        }
    }
}

/// Why a byte sequence is not a message.
#[derive(Debug, PartialEq, Eq, Structural)]
pub enum DecodeError {
    /// The bytes end before the message does.
    Truncated,
    /// The variant index names no variant of the family.
    UnknownVariant,
    /// A text field is not well-formed UTF-8.
    InvalidText,
}

pub open spec fn variant_tag(tag: u32) -> Seq<u8> {
    spec_u32_to_le_bytes(tag)
}

/// A text field: its UTF-8 byte count, then those bytes.
pub open spec fn text_field(s: Seq<char>) -> Seq<u8> {
    spec_u64_to_le_bytes(encode_utf8(s).len() as u64) + encode_utf8(s)
}

/// A text field fits the format when its byte count fits a `u64`.
pub open spec fn text_fits(s: Seq<char>) -> bool {
    encode_utf8(s).len() <= u64::MAX
}

pub open spec fn server_fits(m: ServerMessageView) -> bool {
    match m {
        ServerMessageView::Message { nick, content } => text_fits(nick) && text_fits(content),
    }
}

pub open spec fn client_fits(m: ClientMessageView) -> bool {
    match m {
        ClientMessageView::Message { content } => text_fits(content),
        ClientMessageView::Nick { nick } => text_fits(nick),
    }
}

pub open spec fn encode_server(m: ServerMessageView) -> Seq<u8> {
    match m {
        ServerMessageView::Message { nick, content } => variant_tag(0) + text_field(nick)
            + text_field(content),
    }
}

pub open spec fn encode_client(m: ClientMessageView) -> Seq<u8> {
    match m {
        ClientMessageView::Message { content } => variant_tag(0) + text_field(content),
        ClientMessageView::Nick { nick } => variant_tag(1) + text_field(nick),
    }
}

/// Reads the text field that starts at `at`: its text and the position after it.
pub open spec fn read_text(b: Seq<u8>, at: int) -> Result<(Seq<char>, int), DecodeError> {
    if at + 8 > b.len() {
        Err(DecodeError::Truncated)
    } else {
        let n = spec_u64_from_le_bytes(b.subrange(at, at + 8)) as int;
        if at + 8 + n > b.len() {
            Err(DecodeError::Truncated)
        } else if !valid_utf8(b.subrange(at + 8, at + 8 + n)) {
            Err(DecodeError::InvalidText)
        } else {
            Ok((decode_utf8(b.subrange(at + 8, at + 8 + n)), at + 8 + n))
        }
    }
}

pub open spec fn read_tag(b: Seq<u8>) -> u32 {
    spec_u32_from_le_bytes(b.subrange(0, 4))
}

pub open spec fn decode_server(b: Seq<u8>) -> Result<ServerMessageView, DecodeError> {
    if b.len() < 4 {
        Err(DecodeError::Truncated)
    } else if read_tag(b) != 0 {
        Err(DecodeError::UnknownVariant)
    } else {
        match read_text(b, 4) {
            Err(e) => Err(e),
            Ok((nick, next)) => match read_text(b, next) {
                Err(e) => Err(e),
                Ok((content, _)) => Ok(ServerMessageView::Message { nick, content }),
            },
        }
    }
}

pub open spec fn decode_client(b: Seq<u8>) -> Result<ClientMessageView, DecodeError> {
    if b.len() < 4 {
        Err(DecodeError::Truncated)
    } else if read_tag(b) == 0 {
        match read_text(b, 4) {
            Err(e) => Err(e),
            Ok((content, _)) => Ok(ClientMessageView::Message { content }),
        }
    } else if read_tag(b) == 1 {
        match read_text(b, 4) {
            Err(e) => Err(e),
            Ok((nick, _)) => Ok(ClientMessageView::Nick { nick }),
        }
    } else {
        Err(DecodeError::UnknownVariant)
    }
}


proof fn lemma_read_text_of_field(b: Seq<u8>, at: int, s: Seq<char>)
    requires
        0 <= at,
        text_fits(s),
        at + text_field(s).len() <= b.len(),
        b.subrange(at, at + text_field(s).len()) == text_field(s),
    ensures
        read_text(b, at) == Ok::<(Seq<char>, int), DecodeError>((s, at + text_field(s).len())),
{
    lemma_auto_spec_u64_to_from_le_bytes();
    let bytes = encode_utf8(s);
    let len = spec_u64_to_le_bytes(bytes.len() as u64);
    let f = text_field(s);
    assert(f == len + bytes);
    assert(b.subrange(at, at + 8) == f.subrange(0, 8));
    assert(f.subrange(0, 8) == len);
    assert(b.subrange(at + 8, at + 8 + bytes.len()) == f.subrange(8, f.len() as int));
    assert(f.subrange(8, f.len() as int) == bytes);
}

proof fn lemma_read_text_of_prefix(full: Seq<u8>, at: int, k: int)
    requires
        0 <= at,
        0 <= k <= full.len(),
        read_text(full, at) is Ok,
    ensures
        k < read_text(full, at)->Ok_0.1 ==> read_text(full.take(k), at) == Err::<
            (Seq<char>, int),
            DecodeError,
        >(DecodeError::Truncated),
        k >= read_text(full, at)->Ok_0.1 ==> read_text(full.take(k), at) == read_text(full, at),
{
    let b = full.take(k);
    if at + 8 <= k {
        assert(b.subrange(at, at + 8) == full.subrange(at, at + 8));
        let n = spec_u64_from_le_bytes(full.subrange(at, at + 8)) as int;
        if at + 8 + n <= k {
            assert(b.subrange(at + 8, at + 8 + n) == full.subrange(at + 8, at + 8 + n));
        }
    }
}

proof fn lemma_tag_of_prefix(full: Seq<u8>, k: int)
    requires
        4 <= k <= full.len(),
    ensures
        read_tag(full.take(k)) == read_tag(full),
{
    assert(full.take(k).subrange(0, 4) == full.subrange(0, 4));
}

proof fn lemma_tag_of(tag: u32, rest: Seq<u8>)
    ensures
        read_tag(variant_tag(tag) + rest) == tag,
        (variant_tag(tag) + rest).len() == 4 + rest.len(),
{
    lemma_auto_spec_u32_to_from_le_bytes();
    assert((variant_tag(tag) + rest).subrange(0, 4) == variant_tag(tag));
}

/// Decoding the encoding of a server message gives the message back.
pub proof fn lemma_server_round_trip(m: ServerMessageView)
    requires
        server_fits(m),
    ensures
        decode_server(encode_server(m)) == Ok::<ServerMessageView, DecodeError>(m),
{
    let ServerMessageView::Message { nick, content } = m;
    let b = encode_server(m);
    let t = variant_tag(0);
    let f1 = text_field(nick);
    let f2 = text_field(content);
    lemma_tag_of(0, f1 + f2);
    assert(b == t + (f1 + f2));
    assert(b.subrange(4, 4 + f1.len() as int) == f1);
    lemma_read_text_of_field(b, 4, nick);
    assert(b.subrange(4 + f1.len() as int, 4 + f1.len() as int + f2.len() as int) == f2);
    lemma_read_text_of_field(b, 4 + f1.len() as int, content);
}

/// Decoding the encoding of a client message gives the message back.
pub proof fn lemma_client_round_trip(m: ClientMessageView)
    requires
        client_fits(m),
    ensures
        decode_client(encode_client(m)) == Ok::<ClientMessageView, DecodeError>(m),
{
    let b = encode_client(m);
    match m {
        ClientMessageView::Message { content } => {
            lemma_tag_of(0, text_field(content));
            assert(b.subrange(4, 4 + text_field(content).len() as int) == text_field(content));
            lemma_read_text_of_field(b, 4, content);
        },
        ClientMessageView::Nick { nick } => {
            lemma_tag_of(1, text_field(nick));
            assert(b.subrange(4, 4 + text_field(nick).len() as int) == text_field(nick));
            lemma_read_text_of_field(b, 4, nick);
        },
    }
}

/// Every strict prefix of a server message's encoding fails to decode as truncated.
pub proof fn lemma_server_truncated(m: ServerMessageView, k: int)
    requires
        server_fits(m),
        0 <= k < encode_server(m).len(),
    ensures
        decode_server(encode_server(m).take(k)) == Err::<ServerMessageView, DecodeError>(
            DecodeError::Truncated,
        ),
{
    let full = encode_server(m);
    let ServerMessageView::Message { nick, content } = m;
    let f1 = text_field(nick);
    let f2 = text_field(content);
    lemma_tag_of(0, f1 + f2);
    assert(full == variant_tag(0) + (f1 + f2));
    assert(full.subrange(4, 4 + f1.len() as int) == f1);
    lemma_read_text_of_field(full, 4, nick);
    assert(full.subrange(4 + f1.len() as int, 4 + f1.len() as int + f2.len() as int) == f2);
    lemma_read_text_of_field(full, 4 + f1.len() as int, content);
    if k >= 4 {
        lemma_tag_of_prefix(full, k);
        lemma_read_text_of_prefix(full, 4, k);
        if k >= 4 + f1.len() {
            lemma_read_text_of_prefix(full, 4 + f1.len() as int, k);
        }
    }
}

/// Every strict prefix of a client message's encoding fails to decode as truncated.
pub proof fn lemma_client_truncated(m: ClientMessageView, k: int)
    requires
        client_fits(m),
        0 <= k < encode_client(m).len(),
    ensures
        decode_client(encode_client(m).take(k)) == Err::<ClientMessageView, DecodeError>(
            DecodeError::Truncated,
        ),
{
    let full = encode_client(m);
    match m {
        ClientMessageView::Message { content } => {
            lemma_tag_of(0, text_field(content));
            assert(full.subrange(4, 4 + text_field(content).len() as int) == text_field(content));
            lemma_read_text_of_field(full, 4, content);
        },
        ClientMessageView::Nick { nick } => {
            lemma_tag_of(1, text_field(nick));
            assert(full.subrange(4, 4 + text_field(nick).len() as int) == text_field(nick));
            lemma_read_text_of_field(full, 4, nick);
        },
    }
    if k >= 4 {
        lemma_tag_of_prefix(full, k);
        lemma_read_text_of_prefix(full, 4, k);
    }
}

/// Bytes whose variant index names no server message fail as an unknown variant.
pub proof fn lemma_server_unknown_variant(b: Seq<u8>)
    requires
        b.len() >= 4,
        read_tag(b) != 0,
    ensures
        decode_server(b) == Err::<ServerMessageView, DecodeError>(DecodeError::UnknownVariant),
{
}

/// Bytes whose variant index names no client message fail as an unknown variant.
pub proof fn lemma_client_unknown_variant(b: Seq<u8>)
    requires
        b.len() >= 4,
        read_tag(b) > 1,
    ensures
        decode_client(b) == Err::<ClientMessageView, DecodeError>(DecodeError::UnknownVariant),
{
}

/// Relies on `bincode::serialize` for a `u32`: its four little-endian
/// bytes. Writing into a `Vec` cannot fail.
#[verifier::external_body]
fn bincode_tag(tag: u32) -> (r: Vec<u8>)
    ensures
        r@ == variant_tag(tag),
{
    match bincode::serialize(&tag) {
        Ok(bytes) => bytes,
        Err(_) => Vec::new(),
    }
}

/// Relies on `bincode::serialize` for a `str`: its UTF-8 byte count as a
/// little-endian `u64`, then those bytes. Writing into a `Vec` cannot fail.
#[verifier::external_body]
fn bincode_text(s: &str) -> (r: Vec<u8>)
    ensures
        r@ == text_field(s@),
{
    match bincode::serialize(s) {
        Ok(bytes) => bytes,
        Err(_) => Vec::new(),
    }
}

/// Relies on `bincode::deserialize` for a `u32`: read little-endian from
/// the first four bytes; fewer bytes are an unexpected end of input.
#[verifier::external_body]
fn bincode_read_tag(b: &[u8]) -> (r: Option<u32>)
    ensures
        b@.len() >= 4 ==> r == Some(read_tag(b@)),
        b@.len() < 4 ==> r is None,
{
    bincode::deserialize::<u32>(b).ok()
}

/// Relies on `bincode::deserialize` for a `String` at the start of `b`: a
/// little-endian `u64` byte count, then that many bytes of UTF-8. Too few
/// bytes are an unexpected end of input (or, where the count exceeds
/// `usize`, a size error); bytes that are no UTF-8 are an encoding error.
#[verifier::external_body]
fn bincode_read_text(b: &[u8]) -> (r: Result<String, DecodeError>)
    ensures
        match read_text(b@, 0) {
            Ok((s, _)) => r matches Ok(t) && t@ == s,
            Err(e) => r == Err::<String, DecodeError>(e),
        },
{
    match bincode::deserialize::<String>(b) {
        Ok(s) => Ok(s),
        Err(e) => match *e {
            bincode::ErrorKind::InvalidUtf8Encoding(_) => Err(DecodeError::InvalidText),
            _ => Err(DecodeError::Truncated),
        },
    }
}

proof fn lemma_read_text_shift(b: Seq<u8>, at: int)
    requires
        0 <= at <= b.len(),
    ensures
        match read_text(b, at) {
            Ok((s, next)) => read_text(b.subrange(at, b.len() as int), 0) == Ok::<
                (Seq<char>, int),
                DecodeError,
            >((s, next - at)),
            Err(e) => read_text(b.subrange(at, b.len() as int), 0) == Err::<
                (Seq<char>, int),
                DecodeError,
            >(e),
        },
{
    let rest = b.subrange(at, b.len() as int);
    if at + 8 <= b.len() {
        assert(rest.subrange(0, 8) == b.subrange(at, at + 8));
        let n = spec_u64_from_le_bytes(b.subrange(at, at + 8)) as int;
        if at + 8 + n <= b.len() {
            assert(rest.subrange(8, 8 + n) == b.subrange(at + 8, at + 8 + n));
        }
    }
}

fn write_tag(out: &mut Vec<u8>, tag: u32)
    ensures
        final(out)@ == old(out)@ + variant_tag(tag),
{
    let mut b = bincode_tag(tag);
    out.append(&mut b);
}

fn write_text(out: &mut Vec<u8>, s: &String)
    ensures
        final(out)@ == old(out)@ + text_field(s@),
{
    let mut b = bincode_text(s.as_str());
    out.append(&mut b);
}

fn read_text_at(b: &[u8], at: usize) -> (r: Result<(String, usize), DecodeError>)
    requires
        at <= b@.len(),
    ensures
        match read_text(b@, at as int) {
            Ok((s, next)) => r matches Ok((t, k)) && t@ == s && k == next,
            Err(e) => r == Err::<(String, usize), DecodeError>(e),
        },
{
    proof {
        lemma_read_text_shift(b@, at as int);
    }
    let rest = slice_subrange(b, at, b.len());
    match bincode_read_text(rest) {
        Ok(s) => {
            let n = s.as_str().as_bytes().len();
            proof {
                let m = spec_u64_from_le_bytes(b@.subrange(at as int, at + 8)) as int;
                let raw = b@.subrange(at + 8, at + 8 + m);
                assert(encode_utf8(decode_utf8(raw)) == raw);
            }
            Ok((s, at + 8 + n))
        },
        Err(e) => Err(e),
    }
}

impl ServerMessage {
    /// The wire form of this message.
    pub fn serialize(&self) -> (r: Vec<u8>)
        ensures
            r@ == encode_server(self@),
    {
        let mut out: Vec<u8> = Vec::new();
        match self {
            ServerMessage::Message { nick, content } => {
                write_tag(&mut out, 0);
                write_text(&mut out, nick);
                write_text(&mut out, content);
            },
        }
        out
    }

    /// Reads a message from its wire form.
    pub fn deserialize(bytes: &[u8]) -> (r: Result<ServerMessage, DecodeError>)
        ensures
            match decode_server(bytes@) {
                Ok(m) => r matches Ok(v) && v@ == m,
                Err(e) => r == Err::<ServerMessage, DecodeError>(e),
            },
    {
        let tag = match bincode_read_tag(bytes) {
            Some(tag) => tag,
            None => return Err(DecodeError::Truncated),
        };
        if tag != 0 {
            return Err(DecodeError::UnknownVariant);
        }
        let (nick, next) = match read_text_at(bytes, 4) {
            Ok(p) => p,
            Err(e) => return Err(e),
        };
        let (content, _) = match read_text_at(bytes, next) {
            Ok(p) => p,
            Err(e) => return Err(e),
        };
        Ok(ServerMessage::Message { nick, content })
    }
}

impl ClientMessage {
    /// The wire form of this message.
    pub fn serialize(&self) -> (r: Vec<u8>)
        ensures
            r@ == encode_client(self@),
    {
        let mut out: Vec<u8> = Vec::new();
        match self {
            ClientMessage::Message { content } => {
                write_tag(&mut out, 0);
                write_text(&mut out, content);
            },
            ClientMessage::Nick { nick } => {
                write_tag(&mut out, 1);
                write_text(&mut out, nick);
            },
        }
        out
    }

    /// Reads a message from its wire form.
    pub fn deserialize(bytes: &[u8]) -> (r: Result<ClientMessage, DecodeError>)
        ensures
            match decode_client(bytes@) {
                Ok(m) => r matches Ok(v) && v@ == m,
                Err(e) => r == Err::<ClientMessage, DecodeError>(e),
            },
    {
        let tag = match bincode_read_tag(bytes) {
            Some(tag) => tag,
            None => return Err(DecodeError::Truncated),
        };
        if tag == 0 {
            match read_text_at(bytes, 4) {
                Ok((content, _)) => Ok(ClientMessage::Message { content }),
                Err(e) => Err(e),
            }
        } else if tag == 1 {
            match read_text_at(bytes, 4) {
                Ok((nick, _)) => Ok(ClientMessage::Nick { nick }),
                Err(e) => Err(e),
            }
        } else {
            Err(DecodeError::UnknownVariant)
        }
    }
}

} // verus!
