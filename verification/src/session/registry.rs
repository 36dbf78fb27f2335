//! The table of connected peers and the decisions taken over it.

use std::sync::Arc;

use dashmap::DashMap;
use tokio::sync::mpsc::UnboundedSender;
use tokio::sync::oneshot;
use vstd::prelude::*;
use webrtc::data_channel::RTCDataChannel;
use webrtc::peer_connection::sdp::session_description::RTCSessionDescription;
use webrtc::peer_connection::RTCPeerConnection;
use webrtc::rtp_transceiver::rtp_sender::RTCRtpSender;

use crate::error::AppError;
use crate::handles::{another_sender, share};
use crate::peer::description_or_parse_error;
use crate::types::{IceWsMessage, PeerId, SdpAnswer};

verus! {

/// Everything the server holds for one connected peer.
pub struct PeerHandle {
    pub data_channel: Option<Arc<RTCDataChannel>>,
    pub peer_connection: Option<Arc<RTCPeerConnection>>,
    pub ws_tx: Option<UnboundedSender<IceWsMessage>>,
    pub disconnect_tx: oneshot::Sender<()>,
}

/// What can be read of a peer's handle without taking it out of the table:
/// its data channel and connection, and a sender on its WebSocket writer.
pub struct PeerSnapshot {
    pub data_channel: Option<Arc<RTCDataChannel>>,
    pub peer_connection: Option<Arc<RTCPeerConnection>>,
    pub ws_tx: Option<UnboundedSender<IceWsMessage>>,
}

impl PeerSnapshot {
    /// The snapshot shows the handle's data channel, connection and
    /// WebSocket sender.
    pub open spec fn mirrors(self, h: PeerHandle) -> bool {
        &&& self.data_channel == h.data_channel
        &&& self.peer_connection == h.peer_connection
        &&& self.ws_tx == h.ws_tx
    }
}

impl PeerHandle {
    /// A handle with nothing attached yet but the disconnect signal.
    pub fn new(disconnect_tx: oneshot::Sender<()>) -> (h: PeerHandle)
        ensures
            h.data_channel is None,
            h.peer_connection is None,
            h.ws_tx is None,
            h.disconnect_tx == disconnect_tx,
    {
        PeerHandle { data_channel: None, peer_connection: None, ws_tx: None, disconnect_tx }
    }

    /// Reads the handle's attachments, sharing them.
    pub fn snapshot(&self) -> (s: PeerSnapshot)
        ensures
            s.mirrors(*self),
    {
        let data_channel = match &self.data_channel {
            Some(dc) => Some(share(dc)),
            None => None,
        };
        let peer_connection = match &self.peer_connection {
            Some(pc) => Some(share(pc)),
            None => None,
        };
        let ws_tx = match &self.ws_tx {
            Some(tx) => Some(another_sender(tx)),
            None => None,
        };
        PeerSnapshot { data_channel, peer_connection, ws_tx }
    }
}

/// The peer table (`dashmap::DashMap`).
#[verifier::external_type_specification]
#[verifier::external_body]
#[verifier::reject_recursive_types(K)]
#[verifier::reject_recursive_types(V)]
#[verifier::reject_recursive_types(S)]
pub struct ExDashMap<K, V, S>(DashMap<K, V, S>);

/// The entries of the peer table, by the bits of each peer's identifier.
pub uninterp spec fn peer_table(m: DashMap<u128, PeerHandle>) -> Map<u128, PeerHandle>;

/// An empty table (`DashMap::new`).
#[verifier::external_body]
fn peer_table_new() -> (table: DashMap<u128, PeerHandle>)
    ensures
        peer_table(table) =~= Map::empty(),
{
    DashMap::new()
}

/// Stores `h` under `k`, replacing and returning what was there
/// (`DashMap::insert`).
#[verifier::external_body]
fn peer_table_insert(m: &mut DashMap<u128, PeerHandle>, k: u128, h: PeerHandle) -> (previous:
    Option<PeerHandle>)
    ensures
        peer_table(*final(m)) == peer_table(*old(m)).insert(k, h),
        previous == (if peer_table(*old(m)).contains_key(k) {
            Some(peer_table(*old(m))[k])
        } else {
            None
        }),
{
    m.insert(k, h)
}

/// Takes the entry under `k` out of the table, if there is one
/// (`DashMap::remove`).
#[verifier::external_body]
fn peer_table_remove(m: &mut DashMap<u128, PeerHandle>, k: u128) -> (removed: Option<
    (u128, PeerHandle),
>)
    ensures
        peer_table(*final(m)) == peer_table(*old(m)).remove(k),
        removed == (if peer_table(*old(m)).contains_key(k) {
            Some((k, peer_table(*old(m))[k]))
        } else {
            None
        }),
{
    m.remove(&k)
}

/// Whether there is an entry under `k` (`DashMap::contains_key`).
#[verifier::external_body]
fn peer_table_contains(m: &DashMap<u128, PeerHandle>, k: u128) -> (present: bool)
    ensures
        present == peer_table(*m).contains_key(k),
{
    m.contains_key(&k)
}

/// Reads the entry under `k`, if any (`DashMap::get`).
#[verifier::external_body]
fn peer_table_read(m: &DashMap<u128, PeerHandle>, k: u128) -> (s: Option<PeerSnapshot>)
    ensures
        s is Some == peer_table(*m).contains_key(k),
        s matches Some(s) ==> s.mirrors(peer_table(*m)[k]),
{
    m.get(&k).map(|e| e.value().snapshot())
}

/// Reads every entry of the table once, in the table's own order
/// (`DashMap::iter`).
///
/// That order follows the hashes of a hasher seeded afresh in each process,
/// so it is left open: only which entries come out is stated.
#[verifier::external_body]
fn peer_table_entries(m: &DashMap<u128, PeerHandle>) -> (entries: Vec<(u128, PeerSnapshot)>)
    ensures
        lists_table(entries@, peer_table(*m)),
{
    m.iter().map(|e| (*e.key(), e.value().snapshot())).collect()
}

/// `entries` lists each entry of `t` exactly once, as a snapshot of it.
pub open spec fn lists_table(entries: Seq<(u128, PeerSnapshot)>, t: Map<u128, PeerHandle>) -> bool {
    &&& forall|i: int|
        #![trigger entries[i]]
        0 <= i < entries.len() ==> t.contains_key(entries[i].0) && entries[i].1.mirrors(
            t[entries[i].0],
        )
    &&& forall|i: int, j: int|
        #![trigger entries[i], entries[j]]
        0 <= i < j < entries.len() ==> entries[i].0 != entries[j].0
    &&& forall|k: u128|
        #![trigger t.contains_key(k)]
        t.contains_key(k) ==> exists|i: int| #![trigger entries[i]] 0 <= i < entries.len() && entries[i].0 == k
}

} // verus!

verus! {

/// A text to deliver on a peer's data channel.
pub struct TextDelivery {
    pub to: PeerId,
    pub channel: Arc<RTCDataChannel>,
    pub text: String,
}

/// A message to queue on a peer's WebSocket writer.
pub struct WsDelivery {
    pub to: PeerId,
    pub tx: UnboundedSender<IceWsMessage>,
    pub message: IceWsMessage,
}

/// A peer that a newly published track is to be added to: its connection,
/// and a sender on its WebSocket writer when it has one.
pub struct TrackTarget {
    pub peer: PeerId,
    pub connection: Arc<RTCPeerConnection>,
    pub ws_tx: Option<UnboundedSender<IceWsMessage>>,
}

/// The handle `h` with the data channel `dc` attached.
pub open spec fn with_data_channel(h: PeerHandle, dc: Arc<RTCDataChannel>) -> PeerHandle {
    PeerHandle {
        data_channel: Some(dc),
        peer_connection: h.peer_connection,
        ws_tx: h.ws_tx,
        disconnect_tx: h.disconnect_tx,
    }
}

/// The handle `h` with the WebSocket sender `tx` attached.
pub open spec fn with_ws_sender(h: PeerHandle, tx: UnboundedSender<IceWsMessage>) -> PeerHandle {
    PeerHandle {
        data_channel: h.data_channel,
        peer_connection: h.peer_connection,
        ws_tx: Some(tx),
        disconnect_tx: h.disconnect_tx,
    }
}

/// The registry `m` once the data channel `dc` is attached to the peer `k`:
/// only a registered peer changes.
pub open spec fn after_set_data_channel(
    m: Map<u128, PeerHandle>,
    k: u128,
    dc: Arc<RTCDataChannel>,
) -> Map<u128, PeerHandle> {
    if m.contains_key(k) {
        m.insert(k, with_data_channel(m[k], dc))
    } else {
        m
    }
}

/// The registry `m` once the WebSocket sender `tx` is attached to the peer
/// `k`: only a registered peer changes.
pub open spec fn after_set_ws_sender(
    m: Map<u128, PeerHandle>,
    k: u128,
    tx: UnboundedSender<IceWsMessage>,
) -> Map<u128, PeerHandle> {
    if m.contains_key(k) {
        m.insert(k, with_ws_sender(m[k], tx))
    } else {
        m
    }
}

/// The data channel of the peer `k` in `m`, if it is registered and has one.
pub open spec fn data_channel_of(m: Map<u128, PeerHandle>, k: u128) -> Option<Arc<RTCDataChannel>> {
    if m.contains_key(k) {
        m[k].data_channel
    } else {
        None
    }
}

/// Whether the peer `k` is registered in `m` with a WebSocket sender.
pub open spec fn has_ws_sender_in(m: Map<u128, PeerHandle>, k: u128) -> bool {
    m.contains_key(k) && m[k].ws_tx is Some
}

/// The peer registered under `k` in `m` has a data channel and is not `from`:
/// it is to receive what `from` says in the chat.
pub open spec fn hears_chat(m: Map<u128, PeerHandle>, from: u128, k: u128) -> bool {
    &&& m.contains_key(k)
    &&& k != from
    &&& m[k].data_channel is Some
}

/// The peer registered under `k` in `m` has a peer connection and is not the
/// publisher `except`: it is to receive the publisher's track.
pub open spec fn receives_track(m: Map<u128, PeerHandle>, except: u128, k: u128) -> bool {
    &&& m.contains_key(k)
    &&& k != except
    &&& m[k].peer_connection is Some
}

/// The peer registered under `k` in `m` has a peer connection.
pub open spec fn has_connection(m: Map<u128, PeerHandle>, k: u128) -> bool {
    m.contains_key(k) && m[k].peer_connection is Some
}

/// The connection and sender pairs on which the listed tracks are to be
/// removed: one for each listed sender whose peer is still registered with a
/// connection, in the order of the list.
pub open spec fn removal_plan(
    m: Map<u128, PeerHandle>,
    senders: Seq<(PeerId, Arc<RTCRtpSender>)>,
) -> Seq<(Arc<RTCPeerConnection>, Arc<RTCRtpSender>)>
    decreases senders.len(),
{
    if senders.len() == 0 {
        Seq::empty()
    } else {
        let before = removal_plan(m, senders.drop_last());
        let (peer, sender) = senders.last();
        if has_connection(m, peer.0) {
            before.push((m[peer.0].peer_connection.unwrap(), sender))
        } else {
            before
        }
    }
}

/// What `webrtc::peer_connection::sdp::session_description::RTCSessionDescription::answer`
/// makes of the given SDP text: the answer description built from it, or the
/// text of the error when it does not parse.
pub uninterp spec fn answer_description_outcome(sdp: Seq<char>) -> Result<RTCSessionDescription, Seq<char>>;

/// Wraps an SDP answer for a peer connection
/// (`RTCSessionDescription::answer`), keeping the error's text on failure.
#[verifier::external_body]
fn answer_description(sdp: String) -> (desc: Result<RTCSessionDescription, String>)
    ensures
        match desc {
            Ok(d) => answer_description_outcome(sdp@) matches Ok(x) && x == d,
            Err(e) => answer_description_outcome(sdp@) matches Err(t) && t == e@,
        },
{
    match RTCSessionDescription::answer(sdp) {
        Ok(d) => Ok(d),
        Err(e) => Err(e.to_string()),
    }
}

/// The description given when an answer names a peer that is not registered
/// or has no connection.
pub open spec fn unknown_peer_text() -> Seq<char> {
    "peer not found or missing connection"@
}

/// The table entry `e` is one a selection skipping `skip` wants: another
/// peer's, with a connection when `by_connection` holds, with a data channel
/// otherwise.
pub open spec fn wanted(e: (u128, PeerSnapshot), skip: u128, by_connection: bool) -> bool {
    &&& e.0 != skip
    &&& if by_connection {
        e.1.peer_connection is Some
    } else {
        e.1.data_channel is Some
    }
}

/// `picked` lists, in increasing order, exactly the positions of the wanted
/// entries.
pub open spec fn selects(
    entries: Seq<(u128, PeerSnapshot)>,
    picked: Seq<usize>,
    skip: u128,
    by_connection: bool,
) -> bool {
    &&& forall|a: int|
        #![trigger picked[a]]
        0 <= a < picked.len() ==> picked[a] < entries.len() && wanted(
            entries[picked[a] as int],
            skip,
            by_connection,
        )
    &&& forall|a: int, b: int|
        #![trigger picked[a], picked[b]]
        0 <= a < b < picked.len() ==> picked[a] < picked[b]
    &&& forall|j: int|
        #![trigger entries[j]]
        0 <= j < entries.len() && wanted(entries[j], skip, by_connection) ==> exists|a: int|
            #![trigger picked[a]]
            0 <= a < picked.len() && picked[a] == j
}

/// The positions of the wanted entries of `entries`, in order.
fn select_entries(entries: &Vec<(u128, PeerSnapshot)>, skip: u128, by_connection: bool) -> (picked:
    Vec<usize>)
    ensures
        selects(entries@, picked@, skip, by_connection),
{
    let mut picked: Vec<usize> = Vec::new();
    let n = entries.len();
    for i in 0..n
        invariant
            n == entries@.len(),
            forall|a: int|
                #![trigger picked@[a]]
                0 <= a < picked@.len() ==> picked@[a] < i && wanted(
                    entries@[picked@[a] as int],
                    skip,
                    by_connection,
                ),
            forall|a: int, b: int|
                #![trigger picked@[a], picked@[b]]
                0 <= a < b < picked@.len() ==> picked@[a] < picked@[b],
            forall|j: int|
                #![trigger entries@[j]]
                0 <= j < i && wanted(entries@[j], skip, by_connection) ==> exists|a: int|
                    #![trigger picked@[a]]
                    0 <= a < picked@.len() && picked@[a] == j,
    {
        let key = entries[i].0;
        let has = if by_connection {
            entries[i].1.peer_connection.is_some()
        } else {
            entries[i].1.data_channel.is_some()
        };
        let ghost before = picked@;
        if key != skip && has {
            picked.push(i);
            proof {
                assert(picked@[before.len() as int] == i);
                assert forall|a: int| 0 <= a < before.len() implies #[trigger] picked@[a] == before[a] by {}
            }
        }
        proof {
            assert forall|j: int|
                #![trigger entries@[j]]
                0 <= j < i + 1 && wanted(entries@[j], skip, by_connection) implies exists|a: int|
                    #![trigger picked@[a]]
                    0 <= a < picked@.len() && picked@[a] == j by {
                if j < i {
                    let a = choose|a: int| #![trigger before[a]] 0 <= a < before.len() && before[a] == j;
                    assert(picked@[a] == before[a]);
                } else {
                    assert(picked@[before.len() as int] == i);
                }
            }
        }
    }
    picked
}

/// The registry of connected peers, keyed by their identifiers.
pub struct SessionRegistry {
    peers: DashMap<u128, PeerHandle>,
}

impl View for SessionRegistry {
    type V = Map<u128, PeerHandle>;

    /// The registered peers, by the bits of their identifiers.
    closed spec fn view(&self) -> Map<u128, PeerHandle> {
        peer_table(self.peers)
    }
}

impl SessionRegistry {
    /// An empty registry.
    pub fn new() -> (r: SessionRegistry)
        ensures
            r@ == Map::<u128, PeerHandle>::empty(),
    {
        SessionRegistry { peers: peer_table_new() }
    }

    /// Registers `handle` under `id`. A handle already registered under `id`
    /// is replaced and handed back as it was, its disconnect signal unsent.
    pub fn register(&mut self, id: PeerId, handle: PeerHandle) -> (replaced: Option<PeerHandle>)
        ensures
            final(self)@ == old(self)@.insert(id.0, handle),
            replaced == (if old(self)@.contains_key(id.0) {
                Some(old(self)@[id.0])
            } else {
                None
            }),
    {
        peer_table_insert(&mut self.peers, id.0, handle)
    }

    /// Removes the peer `id` and hands back the sender of its disconnect
    /// signal, for the caller to send on as the peer's departure; an unknown
    /// peer leaves the registry as it was and has no signal to send.
    pub fn deregister(&mut self, id: PeerId) -> (signal: Option<oneshot::Sender<()>>)
        ensures
            final(self)@ == old(self)@.remove(id.0),
            signal == (if old(self)@.contains_key(id.0) {
                Some(old(self)@[id.0].disconnect_tx)
            } else {
                None
            }),
    {
        match peer_table_remove(&mut self.peers, id.0) {
            Some((_, handle)) => Some(handle.disconnect_tx),
            None => None,
        }
    }

    /// Whether the peer `id` is registered.
    pub fn contains(&self, id: PeerId) -> (present: bool)
        ensures
            present == self@.contains_key(id.0),
    {
        peer_table_contains(&self.peers, id.0)
    }

    /// Attaches the data channel `dc` to the peer `id`; an unknown peer leaves
    /// the registry as it was.
    pub fn set_data_channel(&mut self, id: PeerId, dc: Arc<RTCDataChannel>)
        ensures
            final(self)@ == after_set_data_channel(old(self)@, id.0, dc),
    {
        let ghost before = self@;
        if let Some((_, h)) = peer_table_remove(&mut self.peers, id.0) {
            let updated = PeerHandle {
                data_channel: Some(dc),
                peer_connection: h.peer_connection,
                ws_tx: h.ws_tx,
                disconnect_tx: h.disconnect_tx,
            };
            let _ = peer_table_insert(&mut self.peers, id.0, updated);
            assert(self@ =~= before.insert(id.0, with_data_channel(before[id.0], dc)));
        }
    }

    /// The data channel of the peer `id`, if it is registered and has one.
    pub fn get_data_channel(&self, id: PeerId) -> (dc: Option<Arc<RTCDataChannel>>)
        ensures
            dc == data_channel_of(self@, id.0),
    {
        match peer_table_read(&self.peers, id.0) {
            Some(s) => s.data_channel,
            None => None,
        }
    }

    /// Attaches the WebSocket sender `tx` to the peer `id`; an unknown peer
    /// leaves the registry as it was.
    pub fn set_ws_sender(&mut self, id: PeerId, tx: UnboundedSender<IceWsMessage>)
        ensures
            final(self)@ == after_set_ws_sender(old(self)@, id.0, tx),
    {
        let ghost before = self@;
        if let Some((_, h)) = peer_table_remove(&mut self.peers, id.0) {
            let updated = PeerHandle {
                data_channel: h.data_channel,
                peer_connection: h.peer_connection,
                ws_tx: Some(tx),
                disconnect_tx: h.disconnect_tx,
            };
            let _ = peer_table_insert(&mut self.peers, id.0, updated);
            assert(self@ =~= before.insert(id.0, with_ws_sender(before[id.0], tx)));
        }
    }

    /// Whether the peer `id` is registered with a WebSocket sender.
    pub fn has_ws_sender(&self, id: PeerId) -> (present: bool)
        ensures
            present == has_ws_sender_in(self@, id.0),
    {
        match peer_table_read(&self.peers, id.0) {
            Some(s) => s.ws_tx.is_some(),
            None => false,
        }
    }

    /// The chat deliveries for a text said by `from`: one for each other
    /// registered peer that has a data channel, on that channel, carrying
    /// `text`. The sender never hears its own text, and a peer without a data
    /// channel is passed over.
    pub fn broadcast_text(&self, from: PeerId, text: &str) -> (deliveries: Vec<TextDelivery>)
        ensures
            forall|i: int|
                #![trigger deliveries@[i]]
                0 <= i < deliveries@.len() ==> {
                    let d = deliveries@[i];
                    &&& hears_chat(self@, from.0, d.to.0)
                    &&& self@[d.to.0].data_channel == Some(d.channel)
                    &&& d.text@ == text@
                },
            forall|i: int, j: int|
                #![trigger deliveries@[i], deliveries@[j]]
                0 <= i < j < deliveries@.len() ==> deliveries@[i].to != deliveries@[j].to,
            forall|k: u128|
                #[trigger] hears_chat(self@, from.0, k) ==> exists|i: int|
                    #![trigger deliveries@[i]]
                    0 <= i < deliveries@.len() && deliveries@[i].to.0 == k,
    {
        let entries = peer_table_entries(&self.peers);
        let picked = select_entries(&entries, from.0, false);
        let mut deliveries: Vec<TextDelivery> = Vec::new();
        let n = picked.len();
        for i in 0..n
            invariant
                n == picked@.len(),
                selects(entries@, picked@, from.0, false),
                deliveries@.len() == i,
                forall|a: int|
                    #![trigger deliveries@[a]]
                    0 <= a < i ==> {
                        let e = entries@[picked@[a] as int];
                        &&& deliveries@[a].to.0 == e.0
                        &&& e.1.data_channel == Some(deliveries@[a].channel)
                        &&& deliveries@[a].text@ == text@
                    },
        {
            let p = picked[i];
            assert(wanted(entries@[p as int], from.0, false));
            let key = entries[p].0;
            match &entries[p].1.data_channel {
                Some(dc) => {
                    deliveries.push(
                        TextDelivery { to: PeerId(key), channel: share(dc), text: String::from_str(text) },
                    );
                },
                None => {
                    proof {
                        assert(false);
                    }
                },
            }
        }
        proof {
            assert forall|a: int|
                #![trigger deliveries@[a]]
                0 <= a < deliveries@.len() implies {
                    let d = deliveries@[a];
                    &&& hears_chat(self@, from.0, d.to.0)
                    &&& self@[d.to.0].data_channel == Some(d.channel)
                    &&& d.text@ == text@
                } by {
                let j = picked@[a] as int;
                assert(wanted(entries@[j], from.0, false));
                assert(entries@[j].1.mirrors(self@[entries@[j].0]));
            }
            assert forall|a: int, b: int|
                #![trigger deliveries@[a], deliveries@[b]]
                0 <= a < b < deliveries@.len() implies deliveries@[a].to != deliveries@[b].to by {
                let ja = picked@[a] as int;
                let jb = picked@[b] as int;
                assert(ja < jb);
                let ea = entries@[ja];
                let eb = entries@[jb];
                assert(ea.0 != eb.0);
            }
            assert forall|k: u128| #[trigger] hears_chat(self@, from.0, k) implies exists|a: int|
                #![trigger deliveries@[a]]
                0 <= a < deliveries@.len() && deliveries@[a].to.0 == k by {
                assert(self@.contains_key(k));
                let j = choose|j: int| #![trigger entries@[j]] 0 <= j < entries@.len() && entries@[j].0 == k;
                assert(entries@[j].1.mirrors(self@[k]));
                assert(wanted(entries@[j], from.0, false));
                let a = choose|a: int| #![trigger picked@[a]] 0 <= a < picked@.len() && picked@[a] == j;
                let d = deliveries@[a];
            }
        }
        deliveries
    }

    /// The peers a track published by `except` is to be added to: every other
    /// registered peer that has a peer connection, each once, with its
    /// connection and, when it has one, a sender on its WebSocket writer.
    pub fn track_targets(&self, except: PeerId) -> (targets: Vec<TrackTarget>)
        ensures
            forall|i: int|
                #![trigger targets@[i]]
                0 <= i < targets@.len() ==> {
                    let t = targets@[i];
                    &&& receives_track(self@, except.0, t.peer.0)
                    &&& self@[t.peer.0].peer_connection == Some(t.connection)
                    &&& t.ws_tx == self@[t.peer.0].ws_tx
                },
            forall|i: int, j: int|
                #![trigger targets@[i], targets@[j]]
                0 <= i < j < targets@.len() ==> targets@[i].peer != targets@[j].peer,
            forall|k: u128|
                #[trigger] receives_track(self@, except.0, k) ==> exists|i: int|
                    #![trigger targets@[i]]
                    0 <= i < targets@.len() && targets@[i].peer.0 == k,
    {
        let entries = peer_table_entries(&self.peers);
        let picked = select_entries(&entries, except.0, true);
        let mut targets: Vec<TrackTarget> = Vec::new();
        let n = picked.len();
        for i in 0..n
            invariant
                n == picked@.len(),
                selects(entries@, picked@, except.0, true),
                targets@.len() == i,
                forall|a: int|
                    #![trigger targets@[a]]
                    0 <= a < i ==> {
                        let e = entries@[picked@[a] as int];
                        &&& targets@[a].peer.0 == e.0
                        &&& e.1.peer_connection == Some(targets@[a].connection)
                        &&& targets@[a].ws_tx == e.1.ws_tx
                    },
        {
            let p = picked[i];
            assert(wanted(entries@[p as int], except.0, true));
            let key = entries[p].0;
            let ws_tx = match &entries[p].1.ws_tx {
                Some(tx) => Some(another_sender(tx)),
                None => None,
            };
            match &entries[p].1.peer_connection {
                Some(pc) => {
                    targets.push(TrackTarget { peer: PeerId(key), connection: share(pc), ws_tx });
                },
                None => {
                    proof {
                        assert(false);
                    }
                },
            }
        }
        proof {
            assert forall|a: int|
                #![trigger targets@[a]]
                0 <= a < targets@.len() implies {
                    let t = targets@[a];
                    &&& receives_track(self@, except.0, t.peer.0)
                    &&& self@[t.peer.0].peer_connection == Some(t.connection)
                    &&& t.ws_tx == self@[t.peer.0].ws_tx
                } by {
                let j = picked@[a] as int;
                assert(wanted(entries@[j], except.0, true));
                assert(entries@[j].1.mirrors(self@[entries@[j].0]));
            }
            assert forall|a: int, b: int|
                #![trigger targets@[a], targets@[b]]
                0 <= a < b < targets@.len() implies targets@[a].peer != targets@[b].peer by {
                let ja = picked@[a] as int;
                let jb = picked@[b] as int;
                assert(ja < jb);
                let ea = entries@[ja];
                let eb = entries@[jb];
                assert(ea.0 != eb.0);
            }
            assert forall|k: u128| #[trigger] receives_track(self@, except.0, k) implies exists|a: int|
                #![trigger targets@[a]]
                0 <= a < targets@.len() && targets@[a].peer.0 == k by {
                assert(self@.contains_key(k));
                let j = choose|j: int| #![trigger entries@[j]] 0 <= j < entries@.len() && entries@[j].0 == k;
                assert(entries@[j].1.mirrors(self@[k]));
                assert(wanted(entries@[j], except.0, true));
                let a = choose|a: int| #![trigger picked@[a]] 0 <= a < picked@.len() && picked@[a] == j;
                let t = targets@[a];
            }
        }
        targets
    }

    /// The connection and sender pairs on which the tracks of `senders` are
    /// to be removed: a sender whose peer has left, or has no connection, is
    /// passed over; the others keep their order.
    pub fn remove_track_targets(&self, senders: &Vec<(PeerId, Arc<RTCRtpSender>)>) -> (plan: Vec<
        (Arc<RTCPeerConnection>, Arc<RTCRtpSender>),
    >)
        ensures
            plan@ == removal_plan(self@, senders@),
    {
        let mut plan: Vec<(Arc<RTCPeerConnection>, Arc<RTCRtpSender>)> = Vec::new();
        let n = senders.len();
        for i in 0..n
            invariant
                n == senders@.len(),
                plan@ == removal_plan(self@, senders@.take(i as int)),
        {
            let (peer, sender) = &senders[i];
            proof {
                assert(senders@.take(i + 1).drop_last() =~= senders@.take(i as int));
            }
            match peer_table_read(&self.peers, peer.0) {
                Some(s) => {
                    match &s.peer_connection {
                        Some(pc) => {
                            plan.push((share(pc), share(sender)));
                        },
                        None => {},
                    }
                },
                None => {},
            }
        }
        proof {
            assert(senders@.take(n as int) =~= senders@);
        }
        plan
    }

    /// Looks up the connection of the peer `id` and wraps `sdp` as an answer
    /// for it, ready to be applied: the answer description webrtc builds from
    /// that very text.
    ///
    /// A peer that is not registered, or has no connection, is refused with a
    /// `SignalingError`; an answer that does not parse is refused with an
    /// `SdpParseFailed` error carrying the parser's description.
    pub fn prepare_remote_answer(&self, id: PeerId, sdp: SdpAnswer) -> (r: Result<
        (Arc<RTCPeerConnection>, RTCSessionDescription),
        AppError,
    >)
        ensures
            !has_connection(self@, id.0) ==> (r matches Err(AppError::SignalingError(m))
                && m@ == unknown_peer_text()),
            has_connection(self@, id.0) ==> match answer_description_outcome(sdp.sdp@) {
                Ok(d) => r matches Ok((pc, x)) && x == d && self@[id.0].peer_connection == Some(pc),
                Err(text) => r matches Err(AppError::SdpParseFailed(m)) && m@ == text,
            },
    {
        let pc = match peer_table_read(&self.peers, id.0) {
            Some(s) => s.peer_connection,
            None => None,
        };
        let pc = match pc {
            Some(pc) => pc,
            None => {
                return Err(
                    AppError::SignalingError(String::from_str("peer not found or missing connection")),
                );
            },
        };
        match description_or_parse_error(answer_description(sdp.sdp)) {
            Ok(desc) => Ok((pc, desc)),
            Err(e) => Err(e),
        }
    }

    /// The delivery of `message` to the WebSocket of the peer `id`: there is
    /// one exactly when the peer is registered with a WebSocket sender, on
    /// that peer's own sender.
    pub fn socket_delivery(&self, id: PeerId, message: IceWsMessage) -> (d: Option<WsDelivery>)
        ensures
            d is Some <==> has_ws_sender_in(self@, id.0),
            d matches Some(d) ==> d.to == id && d.message == message && self@[id.0].ws_tx == Some(
                d.tx,
            ),
    {
        match peer_table_read(&self.peers, id.0) {
            Some(s) => match s.ws_tx {
                Some(tx) => Some(WsDelivery { to: id, tx, message }),
                None => None,
            },
            None => None,
        }
    }
}

} // verus!
