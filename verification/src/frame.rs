//! Datagrams of the tunnel: a message in its binary form, sealed.
//!
//! Nothing else frames a datagram: no length, no sequence number. A packet
//! travels compressed inside a `Data` message.

use crate::compress::{compressible, snappy_block, snappy_unblock, Compressor};
use crate::crypto::{open, seal, spec_open, spec_seal, Key, MAX_PLAINTEXT_LEN};
use crate::message::{
    decode, encode, lemma_decode_encode, spec_decode, spec_encode, DecodeError, Id, Message,
    MessageView, Token,
};
use crate::registry::Peer;
use vstd::prelude::*;

verus! {

/// Why an engine lets a datagram or a packet go without acting on it.
#[derive(Debug, Clone, Copy, PartialEq, Eq)]
pub enum Rejection {
    /// The datagram came from another address than the server's.
    WrongSender,
    /// The datagram does not authenticate under the key.
    Forged,
    /// The plaintext is not a message.
    Malformed(DecodeError),
    /// The message is one that does not travel in this direction.
    Misdirected,
    /// No client has the identity that the message or the packet names.
    UnknownClient,
    /// The token is not the one of the session.
    TokenMismatch,
    /// The payload is not a compressed block.
    BadPayload,
    /// No identity is left to give out.
    Exhausted,
    /// The packet is too short to name its destination.
    ShortPacket,
    /// The packet or the message is too long to be compressed or sealed.
    Oversized,
}

/// What the program around an engine has to do after an event.
#[derive(Debug, Clone, PartialEq, Eq)]
pub enum Action {
    /// Send the datagram to the peer, all of it.
    Send { datagram: Vec<u8>, peer: Peer },
    /// Write the packet to the virtual interface, all of it.
    Deliver { packet: Vec<u8> },
    /// Do nothing but warn.
    Discard(Rejection),
}

/// Mathematical value of an `Action`.
pub enum ActionView {
    Send { datagram: Seq<u8>, peer: Peer },
    Deliver { packet: Seq<u8> },
    Discard(Rejection),
}

impl View for Action {
    type V = ActionView;

    open spec fn view(&self) -> ActionView {
        match self {
            Action::Send { datagram, peer } => ActionView::Send { datagram: datagram@, peer: *peer },
            Action::Deliver { packet } => ActionView::Deliver { packet: packet@ },
            Action::Discard(why) => ActionView::Discard(*why),
        }
    }
}

/// The datagram that carries a message, where the message is short enough to
/// be sealed.
pub open spec fn spec_pack(key: Seq<u8>, m: MessageView) -> Option<Seq<u8>> {
    if spec_encode(m).len() <= MAX_PLAINTEXT_LEN {
        Some(spec_seal(key, spec_encode(m)))
    } else {
        None
    }
}

/// The message that a datagram carries, or the reason it carries none.
pub open spec fn spec_unpack(key: Seq<u8>, datagram: Seq<u8>) -> Result<MessageView, Rejection> {
    match spec_open(key, datagram) {
        None => Err(Rejection::Forged),
        Some(plaintext) => match spec_decode(plaintext) {
            Ok(m) => Ok(m),
            Err(e) => Err(Rejection::Malformed(e)),
        },
    }
}

/// The value of what `unpack` returns.
pub open spec fn received_view(received: Result<Message, Rejection>) -> Result<
    MessageView,
    Rejection,
> {
    match received {
        Ok(m) => Ok(m@),
        Err(why) => Err(why),
    }
}

/// The `Data` message that carries a packet.
pub open spec fn spec_data(id: Id, token: Token, packet: Seq<u8>) -> MessageView {
    MessageView::Data { id, token, data: snappy_block(packet) }
}

/// The datagram that carries a packet, where the packet can be compressed
/// and its message sealed.
pub open spec fn spec_wrap(key: Seq<u8>, id: Id, token: Token, packet: Seq<u8>) -> Option<
    Seq<u8>,
> {
    if compressible(packet.len()) {
        spec_pack(key, spec_data(id, token, packet))
    } else {
        None
    }
}

/// The packet that the payload of a `Data` message stands for, or the reason
/// it stands for none.
pub open spec fn spec_unwrap(payload: Seq<u8>) -> Result<Seq<u8>, Rejection> {
    match snappy_unblock(payload) {
        Some(packet) => Ok(packet),
        None => Err(Rejection::BadPayload),
    }
}

/// Writes a message and seals it. There is a datagram exactly where the
/// message is short enough to be sealed, and unpacking it under the same key
/// gives the message back.
pub fn pack(key: &Key, msg: &Message) -> (r: Option<Vec<u8>>)
    ensures
        match r {
            Some(datagram) => spec_pack(key@, msg@) == Some(datagram@) && spec_unpack(
                key@,
                datagram@,
            ) == Ok::<MessageView, Rejection>(msg@),
            None => spec_pack(key@, msg@) is None,
        },
{
    let plaintext = encode(msg);
    proof {
        lemma_decode_encode(msg@, Seq::empty());
        assert(spec_encode(msg@) + Seq::<u8>::empty() =~= spec_encode(msg@));
    }
    seal(key, plaintext.as_slice())
}

/// Opens a datagram and reads the message in it.
pub fn unpack(key: &Key, datagram: &[u8]) -> (r: Result<Message, Rejection>)
    ensures
        received_view(r) == spec_unpack(key@, datagram@),
{
    match open(key, datagram) {
        None => Err(Rejection::Forged),
        Some(plaintext) => match decode(plaintext.as_slice()) {
            Ok(m) => Ok(m),
            Err(e) => Err(Rejection::Malformed(e)),
        },
    }
}

/// Compresses a packet, puts it into a `Data` message and packs that. The
/// datagram unpacks to that message, and the payload of the message unwraps
/// to the packet.
pub fn wrap(key: &Key, compressor: &mut Compressor, id: Id, token: Token, packet: &[u8]) -> (r:
    Option<Vec<u8>>)
    ensures
        match r {
            Some(datagram) => {
                &&& spec_wrap(key@, id, token, packet@) == Some(datagram@)
                &&& spec_unpack(key@, datagram@) == Ok::<MessageView, Rejection>(
                    spec_data(id, token, packet@),
                )
                &&& spec_unwrap(snappy_block(packet@)) == Ok::<Seq<u8>, Rejection>(packet@)
            },
            None => spec_wrap(key@, id, token, packet@) is None,
        },
{
    match compressor.compress(packet) {
        None => None,
        Some(data) => pack(key, &Message::Data { id, token, data }),
    }
}

/// Decompresses the payload of a `Data` message into the packet it carries.
pub fn unwrap(compressor: &mut Compressor, payload: &[u8]) -> (r: Result<Vec<u8>, Rejection>)
    ensures
        match r {
            Ok(packet) => spec_unwrap(payload@) == Ok::<Seq<u8>, Rejection>(packet@),
            Err(why) => spec_unwrap(payload@) == Err::<Seq<u8>, Rejection>(why),
        },
{
    match compressor.decompress(payload) {
        Some(packet) => Ok(packet),
        None => Err(Rejection::BadPayload),
    }
}

} // verus!
