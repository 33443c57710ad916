//! The client's side of the tunnel: it asks the server for a session and
//! then relays packets between the virtual interface and the server.
//!
//! The engine decides; the program around it reads and writes.

use crate::compress::{snappy_block, Compressor};
use crate::crypto::{spec_seal, Key};
use crate::frame::{
    pack, received_view, spec_data, spec_unpack, spec_unwrap, spec_wrap, unpack, unwrap, wrap,
    Action, ActionView, Rejection,
};
use crate::message::{spec_encode, Id, Message, MessageView, Token};
use crate::registry::Peer;
use vstd::prelude::*;

verus! {

/// What a client learns from the answer to its request.
pub struct Grant {
    pub id: Id,
    pub token: Token,
    pub dns: Seq<char>,
}

/// What a client makes of the datagram that answers its request: the session
/// in it, where it comes from the server, authenticates and is a response.
pub open spec fn spec_establish(
    key: Seq<u8>,
    server: Peer,
    datagram: Seq<u8>,
    sender: Peer,
) -> Result<Grant, Rejection> {
    if sender != server {
        Err(Rejection::WrongSender)
    } else {
        match spec_unpack(key, datagram) {
            Err(why) => Err(why),
            Ok(MessageView::Response { id, token, dns }) => Ok(Grant { id, token, dns }),
            Ok(_) => Err(Rejection::Misdirected),
        }
    }
}

/// What a client with a session bound to `token` does with what it
/// received: it delivers the packet in it where it is data of this session.
pub open spec fn spec_on_message(token: Token, received: Result<MessageView, Rejection>) -> ActionView {
    match received {
        Err(why) => ActionView::Discard(why),
        Ok(MessageView::Data { token: sent, data, .. }) => if sent != token {
            ActionView::Discard(Rejection::TokenMismatch)
        } else {
            match spec_unwrap(data) {
                Ok(packet) => ActionView::Deliver { packet },
                Err(why) => ActionView::Discard(why),
            }
        },
        Ok(_) => ActionView::Discard(Rejection::Misdirected),
    }
}

/// What a client with a session bound to `token` does with a datagram.
pub open spec fn spec_on_datagram(key: Seq<u8>, token: Token, datagram: Seq<u8>) -> ActionView {
    spec_on_message(token, spec_unpack(key, datagram))
}

/// What a client does with a packet from the virtual interface: it sends the
/// packet to the server.
pub open spec fn spec_on_packet(
    key: Seq<u8>,
    server: Peer,
    id: Id,
    token: Token,
    packet: Seq<u8>,
) -> ActionView {
    match spec_wrap(key, id, token, packet) {
        Some(datagram) => ActionView::Send { datagram, peer: server },
        None => ActionView::Discard(Rejection::Oversized),
    }
}

/// The datagram that asks a server for a session.
pub fn request(key: &Key) -> (datagram: Vec<u8>)
    ensures
        datagram@ == spec_seal(key@, spec_encode(MessageView::Request)),
        spec_unpack(key@, datagram@) == Ok::<MessageView, Rejection>(MessageView::Request),
{
    match pack(key, &Message::Request) {
        Some(datagram) => datagram,
        None => unreached(),
    }
}

/// The engine of a client that has a session.
pub struct ClientSession {
    key: Key,
    server: Peer,
    id: Id,
    token: Token,
    dns: String,
    compressor: Compressor,
}

impl ClientSession {
    /// The key that seals the datagrams.
    pub closed spec fn key(&self) -> Seq<u8> {
        self.key@
    }

    /// The address of the server.
    pub closed spec fn spec_server(&self) -> Peer {
        self.server
    }

    /// The identity of the client.
    pub closed spec fn spec_id(&self) -> Id {
        self.id
    }

    /// The token of the session.
    pub closed spec fn spec_token(&self) -> Token {
        self.token
    }

    /// The resolver that the server named.
    pub closed spec fn spec_dns(&self) -> Seq<char> {
        self.dns@
    }

    /// Whether two engines are in the same session with the same server.
    pub open spec fn same_session(&self, other: &ClientSession) -> bool {
        &&& self.key() == other.key()
        &&& self.spec_server() == other.spec_server()
        &&& self.spec_id() == other.spec_id()
        &&& self.spec_token() == other.spec_token()
        &&& self.spec_dns() == other.spec_dns()
    }

    /// Reads the answer to a request, which came from `sender`, and enters
    /// the session it grants.
    pub fn establish(key: Key, server: Peer, datagram: &[u8], sender: Peer) -> (r: Result<
        ClientSession,
        Rejection,
    >)
        ensures
            match r {
                Ok(client) => {
                    &&& spec_establish(key@, server, datagram@, sender) == Ok::<Grant, Rejection>(
                        Grant {
                            id: client.spec_id(),
                            token: client.spec_token(),
                            dns: client.spec_dns(),
                        },
                    )
                    &&& client.key() == key@
                    &&& client.spec_server() == server
                },
                Err(why) => spec_establish(key@, server, datagram@, sender) == Err::<
                    Grant,
                    Rejection,
                >(why),
            },
    {
        if sender != server {
            return Err(Rejection::WrongSender);
        }
        match unpack(&key, datagram) {
            Err(why) => Err(why),
            Ok(Message::Response { id, token, dns }) => Ok(
                ClientSession { key, server, id, token, dns, compressor: Compressor::new() },
            ),
            Ok(_) => Err(Rejection::Misdirected),
        }
    }

    /// The address of the server.
    pub fn server(&self) -> (peer: Peer)
        ensures
            peer == self.spec_server(),
    {
        self.server
    }

    /// The identity of the client: the last octet of its address in the
    /// virtual network.
    pub fn id(&self) -> (id: Id)
        ensures
            id == self.spec_id(),
    {
        self.id
    }

    /// The token of the session.
    pub fn token(&self) -> (token: Token)
        ensures
            token == self.spec_token(),
    {
        self.token
    }

    /// The resolver that the server named.
    pub fn dns(&self) -> (dns: &str)
        ensures
            dns@ == self.spec_dns(),
    {
        self.dns.as_str()
    }

    /// Decides what to do with what was received: a message, or the reason
    /// there is none.
    pub fn on_message(&mut self, received: Result<Message, Rejection>) -> (action: Action)
        ensures
            action@ == spec_on_message(old(self).spec_token(), received_view(received)),
            !(action@ is Send),
            final(self).same_session(old(self)),
    {
        match received {
            Err(why) => Action::Discard(why),
            Ok(Message::Data { id: _, token: sent, data }) => {
                if sent != self.token {
                    Action::Discard(Rejection::TokenMismatch)
                } else {
                    match unwrap(&mut self.compressor, data.as_slice()) {
                        Ok(packet) => Action::Deliver { packet },
                        Err(why) => Action::Discard(why),
                    }
                }
            },
            Ok(_) => Action::Discard(Rejection::Misdirected),
        }
    }

    /// Decides what to do with a datagram from the socket.
    pub fn on_datagram(&mut self, datagram: &[u8]) -> (action: Action)
        ensures
            action@ == spec_on_datagram(old(self).key(), old(self).spec_token(), datagram@),
            !(action@ is Send),
            final(self).same_session(old(self)),
    {
        let received = unpack(&self.key, datagram);
        self.on_message(received)
    }

    /// Decides what to do with a packet that the virtual interface handed
    /// over. The datagram that is sent unpacks, under the key of the
    /// session, to the data of this session, and its payload unwraps to the
    /// packet.
    pub fn on_packet(&mut self, packet: &[u8]) -> (action: Action)
        ensures
            action@ == spec_on_packet(
                old(self).key(),
                old(self).spec_server(),
                old(self).spec_id(),
                old(self).spec_token(),
                packet@,
            ),
            action@ matches ActionView::Send { datagram, .. } ==> {
                &&& spec_unpack(old(self).key(), datagram) == Ok::<MessageView, Rejection>(
                    spec_data(old(self).spec_id(), old(self).spec_token(), packet@),
                )
                &&& spec_unwrap(snappy_block(packet@)) == Ok::<Seq<u8>, Rejection>(packet@)
            },
            final(self).same_session(old(self)),
    {
        match wrap(&self.key, &mut self.compressor, self.id, self.token, packet) {
            Some(datagram) => Action::Send { datagram, peer: self.server },
            None => Action::Discard(Rejection::Oversized),
        }
    }
}

} // verus!
