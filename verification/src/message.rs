//! The three messages of the tunnel and their binary form.
//!
//! A message is written as a 32-bit tag followed by the fields of its variant
//! in order. Integers are little-endian and of fixed width; a string or a run
//! of bytes is preceded by its length in bytes as a 64-bit integer. Bytes that
//! follow a complete message are ignored by the reader.

use crate::bytes::{
    bytes32, bytes64, lemma_value32_of_bytes32, lemma_value64_of_bytes64, push32, push64, read32,
    read64, value32, value64,
};
use vstd::prelude::*;
use vstd::slice::{slice_subrange, slice_to_vec};
use vstd::string::StringSliceAdditionalSpecFns;
use vstd::utf8::{decode_utf8, encode_utf8, encode_utf8_decode_utf8, encode_utf8_valid_utf8, valid_utf8};

verus! {

/// Identity of a client within a server's runtime; also the last octet of
/// its address in the virtual network.
pub type Id = u8;

/// Random value that binds a client's datagrams to its current session.
pub type Token = u64;

/// Tag of `Message::Request`.
pub const TAG_REQUEST: u32 = 0;

/// Tag of `Message::Response`.
pub const TAG_RESPONSE: u32 = 1;

/// Tag of `Message::Data`.
pub const TAG_DATA: u32 = 2;

/// Bytes in front of the variable part of a `Response` or `Data` message:
/// tag, identity, token and length.
pub const FIXED_LEN: usize = 21;

/// A message of the tunnel.
#[derive(Debug, Clone, PartialEq, Eq)]
pub enum Message {
    /// A client asks for a session.
    Request,
    /// The server grants a session and names the resolver to use.
    Response { id: Id, token: Token, dns: String },
    /// One compressed IP packet, in either direction.
    Data { id: Id, token: Token, data: Vec<u8> },
}

/// Mathematical value of a `Message`.
pub enum MessageView {
    Request,
    Response { id: Id, token: Token, dns: Seq<char> },
    Data { id: Id, token: Token, data: Seq<u8> },
}

impl View for Message {
    type V = MessageView;

    open spec fn view(&self) -> MessageView {
        match self {
            Message::Request => MessageView::Request,
            Message::Response { id, token, dns } => MessageView::Response {
                id: *id,
                token: *token,
                dns: dns@,
            },
            Message::Data { id, token, data } => MessageView::Data {
                id: *id,
                token: *token,
                data: data@,
            },
        }
    }
}

impl MessageView {
    /// The variable part of the message as the bytes that are written.
    pub open spec fn payload(self) -> Seq<u8> {
        match self {
            MessageView::Request => Seq::empty(),
            MessageView::Response { dns, .. } => encode_utf8(dns),
            MessageView::Data { data, .. } => data,
        }
    }

    /// Whether the length of the variable part fits its 64-bit prefix. Every
    /// message that exists in memory does.
    pub open spec fn fits(self) -> bool {
        self.payload().len() <= u64::MAX
    }
}

/// Why a run of bytes is not a message.
#[derive(Debug, Clone, Copy, PartialEq, Eq)]
pub enum DecodeError {
    /// The bytes end before the message does.
    UnexpectedEnd,
    /// The tag names no variant.
    UnknownTag,
    /// The resolver's name is not UTF-8.
    InvalidUtf8,
}

/// The binary form of a message.
pub open spec fn spec_encode(m: MessageView) -> Seq<u8> {
    match m {
        MessageView::Request => bytes32(TAG_REQUEST),
        MessageView::Response { id, token, dns } => bytes32(TAG_RESPONSE) + seq![id] + bytes64(
            token,
        ) + bytes64(encode_utf8(dns).len() as u64) + encode_utf8(dns),
        MessageView::Data { id, token, data } => bytes32(TAG_DATA) + seq![id] + bytes64(token)
            + bytes64(data.len() as u64) + data,
    }
}

/// The message that a run of bytes starts with, or the reason there is none.
pub open spec fn spec_decode(bytes: Seq<u8>) -> Result<MessageView, DecodeError> {
    if bytes.len() < 4 {
        Err(DecodeError::UnexpectedEnd)
    } else if value32(bytes) == TAG_REQUEST {
        Ok(MessageView::Request)
    } else if value32(bytes) > TAG_DATA {
        Err(DecodeError::UnknownTag)
    } else if bytes.len() < FIXED_LEN {
        Err(DecodeError::UnexpectedEnd)
    } else {
        let id = bytes[4];
        let token = value64(bytes.skip(5));
        let len = value64(bytes.skip(13));
        if len > bytes.len() - FIXED_LEN {
            Err(DecodeError::UnexpectedEnd)
        } else {
            let body = bytes.subrange(FIXED_LEN as int, FIXED_LEN + len);
            if value32(bytes) == TAG_DATA {
                Ok(MessageView::Data { id, token, data: body })
            } else if valid_utf8(body) {
                Ok(MessageView::Response { id, token, dns: decode_utf8(body) })
            } else {
                Err(DecodeError::InvalidUtf8)
            }
        }
    }
}

/// `String::from_utf8` of the standard library: the string that the bytes
/// encode in UTF-8, and none exactly when they are not valid UTF-8.
#[verifier::external_body]
pub(crate) fn string_from_utf8(bytes: Vec<u8>) -> (r: Option<String>)
    ensures
        r is Some <==> valid_utf8(bytes@),
        r matches Some(s) ==> s@ == decode_utf8(bytes@),
{
    String::from_utf8(bytes).ok()
}

/// Writes a message in its binary form.
pub fn encode(msg: &Message) -> (out: Vec<u8>)
    ensures
        out@ == spec_encode(msg@),
        msg@.fits(),
{
    let mut out: Vec<u8> = Vec::new();
    match msg {
        Message::Request => {
            push32(&mut out, TAG_REQUEST);
            assert(out@ =~= spec_encode(msg@));
        },
        Message::Response { id, token, dns } => {
            let text = dns.as_str().as_bytes();
            push32(&mut out, TAG_RESPONSE);
            out.push(*id);
            push64(&mut out, *token);
            push64(&mut out, text.len() as u64);
            out.extend_from_slice(text);
            assert(out@ =~= spec_encode(msg@));
        },
        Message::Data { id, token, data } => {
            push32(&mut out, TAG_DATA);
            out.push(*id);
            push64(&mut out, *token);
            push64(&mut out, data.len() as u64);
            out.extend_from_slice(data.as_slice());
            assert(out@ =~= spec_encode(msg@));
        },
    }
    out
}

/// Reads the message that `bytes` starts with.
pub fn decode(bytes: &[u8]) -> (r: Result<Message, DecodeError>)
    ensures
        match r {
            Ok(m) => spec_decode(bytes@) == Ok::<MessageView, DecodeError>(m@),
            Err(e) => spec_decode(bytes@) == Err::<MessageView, DecodeError>(e),
        },
{
    if bytes.len() < 4 {
        return Err(DecodeError::UnexpectedEnd);
    }
    assert(bytes@.skip(0) =~= bytes@);
    let tag = read32(bytes, 0);
    if tag == TAG_REQUEST {
        return Ok(Message::Request);
    }
    if tag > TAG_DATA {
        return Err(DecodeError::UnknownTag);
    }
    if bytes.len() < FIXED_LEN {
        return Err(DecodeError::UnexpectedEnd);
    }
    let id = bytes[4];
    let token = read64(bytes, 5);
    let len = read64(bytes, 13);
    if len > (bytes.len() - FIXED_LEN) as u64 {
        return Err(DecodeError::UnexpectedEnd);
    }
    let body = slice_to_vec(slice_subrange(bytes, FIXED_LEN, FIXED_LEN + len as usize));
    if tag == TAG_DATA {
        Ok(Message::Data { id, token, data: body })
    } else {
        match string_from_utf8(body) {
            Some(dns) => Ok(Message::Response { id, token, dns }),
            None => Err(DecodeError::InvalidUtf8),
        }
    }
}

/// Reading what was written gives the message back, whatever bytes follow it.
pub proof fn lemma_decode_encode(m: MessageView, rest: Seq<u8>)
    requires
        m.fits(),
    ensures
        spec_decode(spec_encode(m) + rest) == Ok::<MessageView, DecodeError>(m),
{
    let bytes = spec_encode(m) + rest;
    match m {
        MessageView::Request => {
            assert(bytes =~= bytes32(TAG_REQUEST) + rest);
            lemma_value32_of_bytes32(TAG_REQUEST, rest);
        },
        MessageView::Response { id, token, dns } => {
            let body = encode_utf8(dns);
            lemma_fixed_part(TAG_RESPONSE, id, token, body, rest);
            encode_utf8_valid_utf8(dns);
            encode_utf8_decode_utf8(dns);
        },
        MessageView::Data { id, token, data } => {
            lemma_fixed_part(TAG_DATA, id, token, data, rest);
        },
    }
}

/// What the reader finds in a message with a variable part.
proof fn lemma_fixed_part(tag: u32, id: Id, token: Token, body: Seq<u8>, rest: Seq<u8>)
    requires
        body.len() <= u64::MAX,
    ensures
        ({
            let bytes = bytes32(tag) + seq![id] + bytes64(token) + bytes64(body.len() as u64)
                + body + rest;
            &&& bytes.len() == FIXED_LEN + body.len() + rest.len()
            &&& value32(bytes) == tag
            &&& bytes[4] == id
            &&& value64(bytes.skip(5)) == token
            &&& value64(bytes.skip(13)) == body.len()
            &&& bytes.subrange(FIXED_LEN as int, FIXED_LEN + body.len()) == body
        }),
{
    let len = body.len() as u64;
    let bytes = bytes32(tag) + seq![id] + bytes64(token) + bytes64(len) + body + rest;
    let after_tag = seq![id] + bytes64(token) + bytes64(len) + body + rest;
    let after_token = bytes64(len) + body + rest;
    let after_len = body + rest;
    assert(bytes =~= bytes32(tag) + after_tag);
    lemma_value32_of_bytes32(tag, after_tag);
    assert(bytes.skip(5) =~= bytes64(token) + after_token);
    lemma_value64_of_bytes64(token, after_token);
    assert(bytes.skip(13) =~= bytes64(len) + after_len);
    lemma_value64_of_bytes64(len, after_len);
    assert(bytes.subrange(FIXED_LEN as int, FIXED_LEN + body.len()) =~= body);
}

} // verus!
