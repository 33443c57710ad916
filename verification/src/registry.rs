//! The table of clients that a server keeps: for every identity in use the
//! token of its session and the address of its peer, forgotten after a fixed
//! time.

use crate::message::{Id, Token};
use transient_hashmap::TransientHashMap;
use vstd::prelude::*;

verus! {

/// Seconds after which a client that was granted a session is forgotten.
pub const CLIENT_LIFETIME: u32 = 60;

/// Address of a peer on the UDP socket: an IPv4 address, as the 32-bit number
/// whose highest byte is the first octet, and a port.
#[derive(Debug, Clone, Copy, PartialEq, Eq, Structural)]
pub struct Peer {
    pub ip: u32,
    pub port: u16,
}

/// What the table keeps of a client: its token, and the address and port of
/// its peer.
pub type Entry = (u64, u32, u16);

/// The entry of a client with the given token and peer.
pub open spec fn entry_of(token: Token, peer: Peer) -> Entry {
    (token, peer.ip, peer.port)
}

/// A `transient_hashmap::TransientHashMap` from identities to entries: a hash
/// map that notes when a key was inserted and drops, when it is pruned, the
/// keys that were noted at least its lifetime ago.
#[verifier::external_body]
pub struct ClientTable {
    inner: TransientHashMap<u8, Entry>,
}

/// The entries that the table holds.
pub uninterp spec fn entries(table: ClientTable) -> Map<u8, Entry>;

/// The keys whose age the table knows: those that pruning may drop.
pub uninterp spec fn timed(table: ClientTable) -> Set<u8>;

/// The lifetime in seconds that the table was made with.
pub uninterp spec fn lifetime(table: ClientTable) -> u32;

impl ClientTable {
    /// `TransientHashMap::new` makes an empty map with the given lifetime in
    /// seconds.
    #[verifier::external_body]
    pub(crate) fn new(seconds: u32) -> (table: ClientTable)
        ensures
            (entries(table) == Map::<u8, Entry>::empty()),
            timed(table) == Set::<u8>::empty(),
            lifetime(table) == seconds,
    {
        ClientTable { inner: TransientHashMap::new(seconds) }
    }

    /// `TransientHashMap::insert` notes the key as used now, stores the entry
    /// under it and returns the entry that was there before; the lifetime
    /// stays as it is.
    #[verifier::external_body]
    pub(crate) fn insert(&mut self, id: Id, entry: Entry) -> (previous: Option<Entry>)
        ensures
            entries(*final(self)) == entries(*old(self)).insert(id, entry),
            timed(*final(self)) == timed(*old(self)).insert(id),
            lifetime(*final(self)) == lifetime(*old(self)),
            previous == if entries(*old(self)).contains_key(id) {
                Some(entries(*old(self))[id])
            } else {
                None
            },
    {
        self.inner.insert(id, entry)
    }

    /// `TransientHashMap::direct` gives the map of the entries, in which the
    /// key is looked up; the age of the key stays as it is.
    #[verifier::external_body]
    pub(crate) fn get(&self, id: Id) -> (found: Option<Entry>)
        ensures
            found == if entries(*self).contains_key(id) {
                Some(entries(*self)[id])
            } else {
                None
            },
    {
        self.inner.direct().get(&id).copied()
    }

    /// `TransientHashMap::prune` reads the clock, drops the keys that were
    /// noted at least a lifetime ago together with their entries, and returns
    /// them, each once and in no particular order. Which keys those are
    /// depends on the clock. The lifetime stays as it is.
    #[verifier::external_body]
    pub(crate) fn prune(&mut self) -> (dropped: Vec<Id>)
        ensures
            dropped@.no_duplicates(),
            dropped@.to_set().subset_of(timed(*old(self))),
            timed(*final(self)) == timed(*old(self)).difference(dropped@.to_set()),
            entries(*final(self)) == entries(*old(self)).remove_keys(dropped@.to_set()),
            lifetime(*final(self)) == lifetime(*old(self)),
    {
        self.inner.prune()
    }
}

} // verus!
