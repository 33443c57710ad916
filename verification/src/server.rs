//! The server's side of the tunnel: it gives identities to the clients that
//! ask, remembers token and peer of each for a fixed time, and relays packets
//! between the virtual interface and the peers.
//!
//! The engine decides; the program around it reads and writes. It hands every
//! datagram and every packet to the engine and carries out the action that
//! comes back.

use crate::compress::{snappy_block, Compressor};
use crate::crypto::{spec_seal, Key, MAX_PLAINTEXT_LEN};
use crate::frame::{
    pack, received_view, spec_data, spec_unpack, spec_unwrap, spec_wrap, unpack, unwrap, wrap,
    Action, ActionView, Rejection,
};
use crate::message::{spec_encode, Id, Message, MessageView, Token, FIXED_LEN};
use crate::registry::{
    entries, entry_of, lifetime, timed, ClientTable, Entry, Peer, CLIENT_LIFETIME,
};
use rand::Rng;
use vstd::prelude::*;
use vstd::utf8::encode_utf8;

verus! {

/// The identity of the server itself.
pub const SERVER_ID: Id = 1;

/// The lowest identity a client can have.
pub const FIRST_ID: Id = 2;

/// The first identity above those a client can have.
pub const ID_LIMIT: Id = 254;

/// Number of identities a server has to give out.
pub const POOL_SIZE: usize = 252;

/// Offset of the last octet of the destination address in an IPv4 packet.
pub const DESTINATION_OCTET: usize = 19;

/// Whether a client can have the identity.
pub open spec fn valid_id(id: Id) -> bool {
    FIRST_ID <= id < ID_LIMIT
}

/// What a server knows: the identities it can still give out, the next one
/// last, and token and peer of every client.
pub struct ServerView {
    pub free: Seq<Id>,
    pub clients: Map<Id, Entry>,
}

impl ServerView {
    /// A server that has given out nothing: all identities are free, in
    /// ascending order.
    pub open spec fn fresh() -> ServerView {
        ServerView { free: Seq::new(POOL_SIZE as nat, |i: int| (i + FIRST_ID) as Id), clients: Map::empty() }
    }

    /// Every valid identity is either free or a client's, never both, and
    /// nothing else is.
    pub open spec fn wf(self) -> bool {
        &&& self.free.no_duplicates()
        &&& forall|id: Id| #[trigger]
            self.free.contains(id) ==> valid_id(id) && !self.clients.contains_key(id)
        &&& forall|id: Id| #[trigger] self.clients.contains_key(id) ==> valid_id(id)
        &&& forall|id: Id|
            valid_id(id) ==> #[trigger] self.free.contains(id) || self.clients.contains_key(id)
    }

    /// The identity that the next client gets, if one is left.
    pub open spec fn next_id(self) -> Option<Id> {
        if self.free.len() == 0 {
            None
        } else {
            Some(self.free.last())
        }
    }

    /// The server after it has given the next identity to a client; the
    /// server as it is where none is left.
    pub open spec fn grant(self, token: Token, peer: Peer) -> ServerView {
        if self.free.len() == 0 {
            self
        } else {
            ServerView {
                free: self.free.drop_last(),
                clients: self.clients.insert(self.free.last(), entry_of(token, peer)),
            }
        }
    }

    /// The server after it has forgotten the clients `dropped`: their
    /// identities are free again, behind those that were.
    pub open spec fn reclaim(self, dropped: Seq<Id>) -> ServerView {
        ServerView {
            free: self.free + dropped,
            clients: self.clients.remove_keys(dropped.to_set()),
        }
    }
}

/// Whether a `Response` that names the resolver `dns` is short enough to be
/// sealed.
pub open spec fn dns_fits(dns: Seq<char>) -> bool {
    FIXED_LEN + encode_utf8(dns).len() <= MAX_PLAINTEXT_LEN
}

/// The answer to a request: the session and the resolver to use.
pub open spec fn spec_response(id: Id, token: Token, dns: Seq<char>) -> MessageView {
    MessageView::Response { id, token, dns }
}

/// What a server does with a request: it gives out the next identity and
/// answers with it, or lets the request go where none is left.
pub open spec fn spec_accept(
    s: ServerView,
    key: Seq<u8>,
    dns: Seq<char>,
    peer: Peer,
    token: Token,
) -> (ServerView, ActionView) {
    match s.next_id() {
        None => (s, ActionView::Discard(Rejection::Exhausted)),
        Some(id) => (
            s.grant(token, peer),
            ActionView::Send {
                datagram: spec_seal(key, spec_encode(spec_response(id, token, dns))),
                peer,
            },
        ),
    }
}

/// Whether what a server sends is the answer to a request: a datagram that
/// unpacks, under the key of the server, to the response with the identity
/// that was next and the token of the new session.
pub open spec fn answers(
    s: ServerView,
    key: Seq<u8>,
    dns: Seq<char>,
    token: Token,
    action: ActionView,
) -> bool {
    action matches ActionView::Send { datagram, .. } ==> spec_unpack(key, datagram) == Ok::<
        MessageView,
        Rejection,
    >(spec_response(s.free.last(), token, dns))
}

/// What a server does with the payload of a client: it delivers the packet
/// in it where identity and token are those of a session.
pub open spec fn spec_relay(s: ServerView, id: Id, token: Token, payload: Seq<u8>) -> ActionView {
    if !s.clients.contains_key(id) {
        ActionView::Discard(Rejection::UnknownClient)
    } else if s.clients[id].0 != token {
        ActionView::Discard(Rejection::TokenMismatch)
    } else {
        match spec_unwrap(payload) {
            Ok(packet) => ActionView::Deliver { packet },
            Err(why) => ActionView::Discard(why),
        }
    }
}

/// What a server does with what it received from `peer`, and what it knows
/// afterwards; `token` is the one a new session would get.
pub open spec fn spec_on_message(
    s: ServerView,
    key: Seq<u8>,
    dns: Seq<char>,
    received: Result<MessageView, Rejection>,
    peer: Peer,
    token: Token,
) -> (ServerView, ActionView) {
    match received {
        Err(why) => (s, ActionView::Discard(why)),
        Ok(MessageView::Request) => spec_accept(s, key, dns, peer, token),
        Ok(MessageView::Response { .. }) => (s, ActionView::Discard(Rejection::Misdirected)),
        Ok(MessageView::Data { id, token: sent, data }) => (s, spec_relay(s, id, sent, data)),
    }
}

/// What a server does with a datagram from `peer`, and what it knows
/// afterwards; `token` is the one a new session would get.
pub open spec fn spec_on_datagram(
    s: ServerView,
    key: Seq<u8>,
    dns: Seq<char>,
    datagram: Seq<u8>,
    peer: Peer,
    token: Token,
) -> (ServerView, ActionView) {
    spec_on_message(s, key, dns, spec_unpack(key, datagram), peer, token)
}

/// What a server does with a packet from the virtual interface: it sends the
/// packet to the client that the last octet of the destination names.
pub open spec fn spec_on_packet(s: ServerView, key: Seq<u8>, packet: Seq<u8>) -> ActionView {
    if packet.len() <= DESTINATION_OCTET {
        ActionView::Discard(Rejection::ShortPacket)
    } else {
        let id = packet[DESTINATION_OCTET as int];
        if !s.clients.contains_key(id) {
            ActionView::Discard(Rejection::UnknownClient)
        } else {
            let entry = s.clients[id];
            match spec_wrap(key, id, entry.0, packet) {
                Some(datagram) => ActionView::Send {
                    datagram,
                    peer: Peer { ip: entry.1, port: entry.2 },
                },
                None => ActionView::Discard(Rejection::Oversized),
            }
        }
    }
}

/// `rand::Rng::gen` on `rand::thread_rng()`: a 64-bit number drawn at
/// random, of which nothing is known beforehand.
#[verifier::external_body]
fn random_token() -> (token: Token) {
    rand::thread_rng().gen::<u64>()
}

/// The engine of a server.
pub struct ServerSession {
    key: Key,
    dns: String,
    available_ids: Vec<Id>,
    client_info: ClientTable,
    compressor: Compressor,
}

impl View for ServerSession {
    type V = ServerView;

    closed spec fn view(&self) -> ServerView {
        ServerView { free: self.available_ids@, clients: entries(self.client_info) }
    }
}

impl ServerSession {
    /// The key that seals the datagrams.
    pub closed spec fn key(&self) -> Seq<u8> {
        self.key@
    }

    /// The resolver that the server names to its clients.
    pub closed spec fn dns(&self) -> Seq<char> {
        self.dns@
    }

    /// Seconds after which the server forgets a client.
    pub closed spec fn lifetime(&self) -> u32 {
        lifetime(self.client_info)
    }

    /// Whether two servers have the same key, resolver and lifetime.
    pub open spec fn same_settings(&self, other: &ServerSession) -> bool {
        &&& self.key() == other.key()
        &&& self.dns() == other.dns()
        &&& self.lifetime() == other.lifetime()
    }

    /// What holds of a server between any two calls.
    pub closed spec fn wf(&self) -> bool {
        &&& self@.wf()
        &&& timed(self.client_info) == entries(self.client_info).dom()
        &&& dns_fits(self.dns@)
    }

    /// A server that has given out nothing and forgets a client
    /// `CLIENT_LIFETIME` seconds after its handshake. There is none where
    /// the name of the resolver is too long to be sent.
    pub fn new(key: Key, dns: &str) -> (r: Option<ServerSession>)
        ensures
            r is Some <==> dns_fits(dns@),
            r matches Some(server) ==> {
                &&& server.wf()
                &&& server@ == ServerView::fresh()
                &&& server.key() == key@
                &&& server.dns() == dns@
                &&& server.lifetime() == CLIENT_LIFETIME
            },
    {
        ServerSession::with_lifetime(key, dns, CLIENT_LIFETIME)
    }

    /// A server that has given out nothing and forgets a client `seconds`
    /// seconds after its handshake. There is none where the name of the
    /// resolver is too long to be sent.
    pub fn with_lifetime(key: Key, dns: &str, seconds: u32) -> (r: Option<ServerSession>)
        ensures
            r is Some <==> dns_fits(dns@),
            r matches Some(server) ==> {
                &&& server.wf()
                &&& server@ == ServerView::fresh()
                &&& server.key() == key@
                &&& server.dns() == dns@
                &&& server.lifetime() == seconds
            },
    {
        if dns.as_bytes().len() as u64 > MAX_PLAINTEXT_LEN - FIXED_LEN as u64 {
            return None;
        }
        let mut available_ids: Vec<Id> = Vec::new();
        let mut id: Id = FIRST_ID;
        while id < ID_LIMIT
            invariant
                FIRST_ID <= id <= ID_LIMIT,
                available_ids@ == Seq::new((id - FIRST_ID) as nat, |i: int| (i + FIRST_ID) as Id),
            decreases ID_LIMIT - id,
        {
            available_ids.push(id);
            id = id + 1;
            assert(available_ids@ =~= Seq::new(
                (id - FIRST_ID) as nat,
                |i: int| (i + FIRST_ID) as Id,
            ));
        }
        proof {
            lemma_fresh_wf();
        }
        Some(
            ServerSession {
                key,
                dns: dns.to_owned(),
                available_ids,
                client_info: ClientTable::new(seconds),
                compressor: Compressor::new(),
            },
        )
    }

    /// The identities that are free, the next one to go out last.
    pub fn available_ids(&self) -> (free: &[Id])
        ensures
            free@ == self@.free,
    {
        self.available_ids.as_slice()
    }

    /// Token and peer of the client with the given identity, if there is
    /// one.
    pub fn client(&self, id: Id) -> (found: Option<(Token, Peer)>)
        ensures
            match found {
                Some((token, peer)) => self@.clients.contains_key(id) && self@.clients[id]
                    == entry_of(token, peer),
                None => !self@.clients.contains_key(id),
            },
    {
        match self.client_info.get(id) {
            Some(entry) => Some((entry.0, Peer { ip: entry.1, port: entry.2 })),
            None => None,
        }
    }

    /// A well-formed server knows a well-formed state: every valid identity
    /// is either free or a client's.
    pub proof fn lemma_view_wf(&self)
        requires
            self.wf(),
        ensures
            self@.wf(),
            dns_fits(self.dns()),
    {
    }

    /// Forgets the clients whose time is over and makes their identities
    /// free again. Which clients those are depends on the clock; they are
    /// returned.
    pub fn prune(&mut self) -> (dropped: Vec<Id>)
        requires
            old(self).wf(),
        ensures
            final(self).wf(),
            final(self)@ == old(self)@.reclaim(dropped@),
            dropped@.no_duplicates(),
            forall|id: Id| dropped@.contains(id) ==> #[trigger] old(self)@.clients.contains_key(id),
            final(self).same_settings(old(self)),
    {
        let mut dropped = self.client_info.prune();
        let report = dropped.clone();
        assert(report@ == dropped@);
        proof {
            assert forall|id: Id| report@.contains(id) implies #[trigger] old(
                self,
            )@.clients.contains_key(id) by {
                assert(report@.to_set().contains(id));
            }
            lemma_reclaim_wf(old(self)@, report@);
        }
        self.available_ids.append(&mut dropped);
        assert(timed(self.client_info) =~= entries(self.client_info).dom());
        report
    }

    /// Gives the next identity to a client at `peer` and answers with it,
    /// the session bound to `token`. The answer unpacks, under the key of
    /// the server, to the response it was made from.
    pub fn accept(&mut self, peer: Peer, token: Token) -> (action: Action)
        requires
            old(self).wf(),
        ensures
            final(self).wf(),
            (final(self)@, action@) == spec_accept(
                old(self)@,
                old(self).key(),
                old(self).dns(),
                peer,
                token,
            ),
            answers(old(self)@, old(self).key(), old(self).dns(), token, action@),
            final(self).same_settings(old(self)),
    {
        let n = self.available_ids.len();
        if n == 0 {
            return Action::Discard(Rejection::Exhausted);
        }
        let id = self.available_ids[n - 1];
        let reply = Message::Response { id, token, dns: self.dns.clone() };
        assert(spec_encode(reply@).len() == FIXED_LEN + encode_utf8(self.dns@).len());
        match pack(&self.key, &reply) {
            None => unreached(),
            Some(datagram) => {
                self.available_ids.pop();
                self.client_info.insert(id, (token, peer.ip, peer.port));
                proof {
                    lemma_grant_wf(old(self)@, token, peer);
                }
                Action::Send { datagram, peer }
            },
        }
    }

    /// Delivers the packet in the payload of a client, where identity and
    /// token are those of a session.
    pub fn relay(&mut self, id: Id, token: Token, payload: &[u8]) -> (action: Action)
        requires
            old(self).wf(),
        ensures
            final(self).wf(),
            final(self)@ == old(self)@,
            action@ == spec_relay(old(self)@, id, token, payload@),
            final(self).same_settings(old(self)),
    {
        match self.client_info.get(id) {
            None => Action::Discard(Rejection::UnknownClient),
            Some(entry) => {
                if entry.0 != token {
                    Action::Discard(Rejection::TokenMismatch)
                } else {
                    match unwrap(&mut self.compressor, payload) {
                        Ok(packet) => Action::Deliver { packet },
                        Err(why) => Action::Discard(why),
                    }
                }
            },
        }
    }

    /// Decides what to do with what was received from `peer`: a message, or
    /// the reason there is none. A new session is bound to `token`.
    pub fn on_message(&mut self, received: Result<Message, Rejection>, peer: Peer, token: Token) -> (action:
        Action)
        requires
            old(self).wf(),
        ensures
            final(self).wf(),
            (final(self)@, action@) == spec_on_message(
                old(self)@,
                old(self).key(),
                old(self).dns(),
                received_view(received),
                peer,
                token,
            ),
            received_view(received) == Ok::<MessageView, Rejection>(MessageView::Request)
                ==> answers(old(self)@, old(self).key(), old(self).dns(), token, action@),
            !(received_view(received) == Ok::<MessageView, Rejection>(MessageView::Request))
                ==> !(action@ is Send),
            final(self).same_settings(old(self)),
    {
        match received {
            Err(why) => Action::Discard(why),
            Ok(Message::Request) => self.accept(peer, token),
            Ok(Message::Response { .. }) => Action::Discard(Rejection::Misdirected),
            Ok(Message::Data { id, token: sent, data }) => self.relay(id, sent, data.as_slice()),
        }
    }

    /// Decides what to do with a datagram that came from `peer`, a new
    /// session being bound to `token`.
    pub fn on_datagram_with(&mut self, datagram: &[u8], peer: Peer, token: Token) -> (action:
        Action)
        requires
            old(self).wf(),
        ensures
            final(self).wf(),
            (final(self)@, action@) == spec_on_datagram(
                old(self)@,
                old(self).key(),
                old(self).dns(),
                datagram@,
                peer,
                token,
            ),
            answers(old(self)@, old(self).key(), old(self).dns(), token, action@),
            final(self).same_settings(old(self)),
    {
        let received = unpack(&self.key, datagram);
        self.on_message(received, peer, token)
    }

    /// Decides what to do with a datagram that came from `peer`. A new
    /// session is bound to a token drawn at random.
    pub fn on_datagram(&mut self, datagram: &[u8], peer: Peer) -> (action: Action)
        requires
            old(self).wf(),
        ensures
            final(self).wf(),
            exists|token: Token|
                {
                    &&& (final(self)@, action@) == #[trigger] spec_on_datagram(
                        old(self)@,
                        old(self).key(),
                        old(self).dns(),
                        datagram@,
                        peer,
                        token,
                    )
                    &&& answers(old(self)@, old(self).key(), old(self).dns(), token, action@)
                },
            final(self).same_settings(old(self)),
    {
        let received = unpack(&self.key, datagram);
        let token = match &received {
            Ok(Message::Request) => random_token(),
            _ => 0,
        };
        let action = self.on_message(received, peer, token);
        assert((self@, action@) == spec_on_datagram(
            old(self)@,
            old(self).key(),
            old(self).dns(),
            datagram@,
            peer,
            token,
        ));
        action
    }

    /// Decides what to do with a packet that the virtual interface handed
    /// over.
    pub fn on_packet(&mut self, packet: &[u8]) -> (action: Action)
        requires
            old(self).wf(),
        ensures
            final(self).wf(),
            final(self)@ == old(self)@,
            action@ == spec_on_packet(old(self)@, old(self).key(), packet@),
            action@ matches ActionView::Send { datagram, .. } ==> {
                let id = packet@[DESTINATION_OCTET as int];
                &&& spec_unpack(old(self).key(), datagram) == Ok::<MessageView, Rejection>(
                    spec_data(id, old(self)@.clients[id].0, packet@),
                )
                &&& spec_unwrap(snappy_block(packet@)) == Ok::<Seq<u8>, Rejection>(packet@)
            },
            final(self).same_settings(old(self)),
    {
        if packet.len() <= DESTINATION_OCTET {
            return Action::Discard(Rejection::ShortPacket);
        }
        let id = packet[DESTINATION_OCTET];
        match self.client_info.get(id) {
            None => Action::Discard(Rejection::UnknownClient),
            Some(entry) => {
                match wrap(&self.key, &mut self.compressor, id, entry.0, packet) {
                    Some(datagram) => Action::Send {
                        datagram,
                        peer: Peer { ip: entry.1, port: entry.2 },
                    },
                    None => Action::Discard(Rejection::Oversized),
                }
            },
        }
    }
}

/// A fresh server is well formed.
pub proof fn lemma_fresh_wf()
    ensures
        ServerView::fresh().wf(),
{
    let s = ServerView::fresh();
    assert forall|id: Id| valid_id(id) implies #[trigger] s.free.contains(id) by {
        assert(s.free[id - FIRST_ID] == id);
    }
}

/// Giving out an identity keeps a server well formed; the identity is valid
/// and was no client's before.
pub proof fn lemma_grant_wf(s: ServerView, token: Token, peer: Peer)
    requires
        s.wf(),
    ensures
        s.grant(token, peer).wf(),
        s.next_id() matches Some(id) ==> valid_id(id) && !s.clients.contains_key(id)
            && s.grant(token, peer).clients.contains_key(id),
{
    if s.free.len() > 0 {
        let id = s.free.last();
        let after = s.grant(token, peer);
        assert(s.free.contains(id));
        assert forall|other: Id| #[trigger] after.free.contains(other) implies valid_id(other)
            && !after.clients.contains_key(other) by {
            let i = choose|i: int| 0 <= i < after.free.len() && after.free[i] == other;
            assert(s.free[i] == other);
            assert(s.free.contains(other));
        }
        assert forall|other: Id| valid_id(other) implies #[trigger] after.free.contains(other)
            || after.clients.contains_key(other) by {
            if other != id && s.free.contains(other) {
                let i = choose|i: int| 0 <= i < s.free.len() && s.free[i] == other;
                assert(after.free[i] == other);
            }
        }
    }
}

/// Forgetting clients keeps a server well formed.
pub proof fn lemma_reclaim_wf(s: ServerView, dropped: Seq<Id>)
    requires
        s.wf(),
        dropped.no_duplicates(),
        forall|id: Id| dropped.contains(id) ==> #[trigger] s.clients.contains_key(id),
    ensures
        s.reclaim(dropped).wf(),
{
    let after = s.reclaim(dropped);
    assert forall|i: int, j: int| 0 <= i < j < after.free.len() implies after.free[i]
        != after.free[j] by {
        if j >= s.free.len() {
            assert(dropped.contains(after.free[j]));
            if i < s.free.len() {
                assert(s.free.contains(after.free[i]));
            }
        }
    }
    assert forall|id: Id| #[trigger] after.free.contains(id) implies valid_id(id)
        && !after.clients.contains_key(id) by {
        let i = choose|i: int| 0 <= i < after.free.len() && after.free[i] == id;
        if i < s.free.len() {
            assert(s.free[i] == id);
            assert(s.free.contains(id));
            assert(!s.clients.contains_key(id));
        } else {
            assert(dropped[i - s.free.len()] == id);
            assert(dropped.contains(id));
            assert(s.clients.contains_key(id));
            assert(dropped.to_set().contains(id));
        }
    }
    assert forall|id: Id| valid_id(id) implies #[trigger] after.free.contains(id)
        || after.clients.contains_key(id) by {
        if s.free.contains(id) {
            let i = choose|i: int| 0 <= i < s.free.len() && s.free[i] == id;
            assert(after.free[i] == id);
        } else if dropped.contains(id) {
            let i = choose|i: int| 0 <= i < dropped.len() && dropped[i] == id;
            assert(after.free[s.free.len() + i] == id);
        }
    }
}

/// A client that the server has forgotten is no client any more, and its
/// identity is free again; where it is the only one forgotten, the next
/// request gets its identity.
pub proof fn lemma_reclaim_frees(s: ServerView, dropped: Seq<Id>, id: Id)
    requires
        dropped.contains(id),
    ensures
        !s.reclaim(dropped).clients.contains_key(id),
        s.reclaim(dropped).free.contains(id),
        dropped == seq![id] ==> s.reclaim(dropped).next_id() == Some(id),
{
    let after = s.reclaim(dropped);
    assert(dropped.to_set().contains(id));
    let i = choose|i: int| 0 <= i < dropped.len() && dropped[i] == id;
    assert(after.free[s.free.len() + i] == id);
}

/// What a server knows after the first `n` of a run of requests on a fresh
/// server, the request `i` coming from `peers[i]` and its session being bound
/// to `tokens[i]`, with no client forgotten in between.
pub open spec fn after_requests(
    key: Seq<u8>,
    dns: Seq<char>,
    peers: Seq<Peer>,
    tokens: Seq<Token>,
    n: nat,
) -> ServerView
    decreases n,
{
    if n == 0 {
        ServerView::fresh()
    } else {
        spec_accept(
            after_requests(key, dns, peers, tokens, (n - 1) as nat),
            key,
            dns,
            peers[n - 1],
            tokens[n - 1],
        ).0
    }
}

/// The identity that request `n` of such a run is answered with, counting
/// from zero; none where the request is let go.
pub open spec fn granted_id(
    key: Seq<u8>,
    dns: Seq<char>,
    peers: Seq<Peer>,
    tokens: Seq<Token>,
    n: nat,
) -> Option<Id> {
    after_requests(key, dns, peers, tokens, n).next_id()
}

/// On a fresh server the identities go out from the highest down: request
/// `n` gets `253 - n`, and once all 252 are out a request gets none.
pub proof fn lemma_granted_id(
    key: Seq<u8>,
    dns: Seq<char>,
    peers: Seq<Peer>,
    tokens: Seq<Token>,
    n: nat,
)
    ensures
        after_requests(key, dns, peers, tokens, n).wf(),
        after_requests(key, dns, peers, tokens, n).free == ServerView::fresh().free.take(
            if n < POOL_SIZE {
                POOL_SIZE - n
            } else {
                0
            },
        ),
        n < POOL_SIZE ==> granted_id(key, dns, peers, tokens, n) == Some((ID_LIMIT - 1 - n) as Id),
        n >= POOL_SIZE ==> granted_id(key, dns, peers, tokens, n) is None,
    decreases n,
{
    if n == 0 {
        lemma_fresh_wf();
        assert(ServerView::fresh().free.take(POOL_SIZE as int) =~= ServerView::fresh().free);
    } else {
        let before = after_requests(key, dns, peers, tokens, (n - 1) as nat);
        lemma_granted_id(key, dns, peers, tokens, (n - 1) as nat);
        lemma_grant_wf(before, tokens[n - 1], peers[n - 1]);
        let after = after_requests(key, dns, peers, tokens, n);
        if n <= POOL_SIZE {
            assert(after.free =~= ServerView::fresh().free.take(POOL_SIZE - n));
        }
    }
}

/// No two requests of a run on a fresh server are answered with the same
/// identity, and every identity that goes out is valid.
pub proof fn lemma_granted_ids_distinct(
    key: Seq<u8>,
    dns: Seq<char>,
    peers: Seq<Peer>,
    tokens: Seq<Token>,
    i: nat,
    j: nat,
)
    requires
        i != j,
    ensures
        granted_id(key, dns, peers, tokens, i) matches Some(a) ==> valid_id(a) && granted_id(
            key,
            dns,
            peers,
            tokens,
            j,
        ) != Some(a),
{
    lemma_granted_id(key, dns, peers, tokens, i);
    lemma_granted_id(key, dns, peers, tokens, j);
}

} // verus!
