use vstd::prelude::*;
use crate::udp::PeerAddr;
use dashmap::DashMap;

verus! {

/// A peer address as a tuple of integers: family, address bits, port.
pub type PeerKey = (u8, u128, u16);

/// The concurrent map that holds the sessions.
pub type Streams = DashMap<PeerKey, u64>;

#[verifier::external_type_specification]
#[verifier::external_body]
#[verifier::reject_recursive_types(K)]
#[verifier::reject_recursive_types(V)]
#[verifier::reject_recursive_types(S)]
pub struct ExDashMap<K, V, S>(DashMap<K, V, S>);

/// What a map from peer keys to stream indices holds.
pub uninterp spec fn sessions_of(m: Streams) -> Map<PeerKey, u64>;

/// The map with no entry.
pub open spec fn no_sessions() -> Map<PeerKey, u64> {
    Map::empty()
}

/// Relies on `DashMap::new`: a new map holds no entry.
#[verifier::external_body]
fn map_new() -> (r: Streams)
    ensures
        sessions_of(r) == no_sessions(),
{
    DashMap::new()
}

/// Relies on `DashMap::get`: the value filed under the key, if any.
#[verifier::external_body]
fn map_get(m: &Streams, k: PeerKey) -> (r: Option<u64>)
    ensures
        r == (if sessions_of(*m).contains_key(k) { Some(sessions_of(*m)[k]) } else { None::<u64> }),
{
    m.get(&k).map(|e| *e)
}

/// Relies on `DashMap::insert`: the key is filed with the value, replacing
/// any earlier one; other entries stay.
#[verifier::external_body]
fn map_insert(m: &mut Streams, k: PeerKey, v: u64)
    ensures
        sessions_of(*final(m)) == sessions_of(*old(m)).insert(k, v),
{
    m.insert(k, v);
}

/// Relies on `DashMap::remove`: the key's entry goes; other entries stay.
#[verifier::external_body]
fn map_remove(m: &mut Streams, k: PeerKey)
    ensures
        sessions_of(*final(m)) == sessions_of(*old(m)).remove(k),
{
    m.remove(&k);
}

/// Relies on `DashMap::len`: the number of entries.
#[verifier::external_body]
fn map_len(m: &Streams) -> (r: usize)
    ensures
        r == sessions_of(*m).dom().len(),
{
    m.len()
}

/// The UDP sessions of the ingress side: for each peer with a live stream,
/// the index of that stream. A peer has at most one entry; an entry goes only
/// when the receive task of its own stream has exited.
pub struct SessionMap {
    streams: Streams,
}

/// Where a datagram from a peer goes.
#[derive(Debug, Clone, Copy, PartialEq, Eq, Structural)]
pub enum Route {
    /// On the peer's live stream, with this index.
    Existing(u64),
    /// A stream is to be opened for the peer first.
    OpenNew,
}

impl SessionMap {
    pub closed spec fn view(&self) -> Map<PeerKey, u64> {
        sessions_of(self.streams)
    }

    pub closed spec fn wf(&self) -> bool {
        self@.dom().finite()
    }

    pub fn new() -> (m: SessionMap)
        ensures
            m.wf(),
            m@ == no_sessions(),
    {
        SessionMap { streams: map_new() }
    }

    /// The peer's live stream, or the need to open one.
    pub fn route(&self, peer: PeerAddr) -> (r: Route)
        ensures
            self@.contains_key(peer.key_spec()) ==> r == Route::Existing(self@[peer.key_spec()]),
            !self@.contains_key(peer.key_spec()) ==> r == Route::OpenNew,
    {
        match map_get(&self.streams, peer.key()) {
            Some(i) => Route::Existing(i),
            None => Route::OpenNew,
        }
    }

    /// Files a newly opened stream for the peer, unless the peer already has
    /// one: then the map is left as it is and the result is false.
    pub fn register(&mut self, peer: PeerAddr, stream: u64) -> (r: bool)
        requires
            old(self).wf(),
        ensures
            final(self).wf(),
            r == !old(self)@.contains_key(peer.key_spec()),
            r ==> final(self)@ == old(self)@.insert(peer.key_spec(), stream),
            !r ==> final(self)@ == old(self)@,
    {
        let k = peer.key();
        match map_get(&self.streams, k) {
            Some(_) => false,
            None => {
                map_insert(&mut self.streams, k, stream);
                true
            },
        }
    }

    /// Called when the receive task of the peer's stream `stream` exits: the
    /// entry goes if it is that stream's; an entry of another stream stays.
    pub fn on_recv_exit(&mut self, peer: PeerAddr, stream: u64) -> (r: bool)
        requires
            old(self).wf(),
        ensures
            final(self).wf(),
            r == (old(self)@.contains_key(peer.key_spec()) && old(self)@[peer.key_spec()] == stream),
            r ==> final(self)@ == old(self)@.remove(peer.key_spec()),
            !r ==> final(self)@ == old(self)@,
    {
        let k = peer.key();
        match map_get(&self.streams, k) {
            Some(s) => if s == stream {
                map_remove(&mut self.streams, k);
                true
            } else {
                false
            },
            None => false,
        }
    }

    /// The number of peers with a live stream.
    pub fn len(&self) -> (r: usize)
        ensures
            r == self@.dom().len(),
    {
        map_len(&self.streams)
    }
}

} // verus!
