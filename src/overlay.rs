//! The outside types the node works with (peer identities, the flood
//! propagation engine, the discovery service) and the calls made into them.
//!
//! The flood engine is seen through names for the parts of its state that
//! the node's logic reads or changes: the peers it propagates to (its partial
//! view), its subscriptions, the connected peers with their topics, and what
//! waits in its queues.

use vstd::prelude::*;
use vstd::multiset::Multiset;
use libp2p::floodsub::{Floodsub, Topic};
use libp2p::mdns::Mdns;
use libp2p::multiaddr::Error as MultiaddrError;
use libp2p::{Multiaddr, PeerId};

verus! {

#[verifier::external_type_specification]
#[verifier::external_body]
pub struct ExPeerId(PeerId);

#[verifier::external_type_specification]
#[verifier::external_body]
pub struct ExFloodsub(Floodsub);

#[verifier::external_type_specification]
#[verifier::external_body]
pub struct ExMdns(Mdns);

#[verifier::external_type_specification]
#[verifier::external_body]
pub struct ExMultiaddr(Multiaddr);

#[verifier::external_type_specification]
#[verifier::external_body]
pub struct ExMultiaddrError(MultiaddrError);

/// Whether the multiaddress parser accepts a text.
pub uninterp spec fn multiaddr_accepts(s: Seq<char>) -> bool;

/// A message waiting to be sent: (recipient, source, topic name, payload).
pub type QueuedMessage = (PeerId, PeerId, Seq<char>, Seq<u8>);

/// A message waiting to be handed to the local application: (source, payload).
pub type Delivery = (PeerId, Seq<u8>);

/// Connected peers, each with the names of the topics it is subscribed to.
pub type PeerTopics = Map<PeerId, Set<Seq<char>>>;

/// The peers of which discovery holds an unexpired record.
pub uninterp spec fn discovered_peers(m: Mdns) -> Set<PeerId>;

/// The peers that a flood engine propagates messages to: its partial view.
pub uninterp spec fn partial_view(f: Floodsub) -> Set<PeerId>;

/// The names of the topics a flood engine is subscribed to.
pub uninterp spec fn subscribed_topics(f: Floodsub) -> Set<Seq<char>>;

/// The identity a flood engine puts as the source of what it publishes.
pub uninterp spec fn local_id(f: Floodsub) -> PeerId;

/// Whether a flood engine hands its own publications to the local
/// application as if they had come from the network.
pub uninterp spec fn echoes_own(f: Floodsub) -> bool;

/// The peers a flood engine is connected to, each with the names of the
/// topics that peer told it it is subscribed to.
pub uninterp spec fn peer_topics(f: Floodsub) -> PeerTopics;

/// The messages waiting in a flood engine's outgoing queue, one entry
/// (recipient, source, topic name, payload) per topic of each message sent to
/// a peer.
pub uninterp spec fn queued_messages(f: Floodsub) -> Multiset<QueuedMessage>;

/// The messages waiting to be handed to the local application, as (source,
/// payload).
pub uninterp spec fn local_deliveries(f: Floodsub) -> Multiset<Delivery>;

/// The contents of a flood engine's filter of messages already seen.
pub uninterp spec fn seen_filter(f: Floodsub) -> Seq<u8>;

/// One copy of a message from `source` on `topic`, for each connected peer
/// subscribed to `topic`.
pub open spec fn copies_for(
    peers: PeerTopics,
    source: PeerId,
    topic: Seq<char>,
    payload: Seq<u8>,
) -> Multiset<QueuedMessage> {
    Multiset::from_set(
        peers.dom().filter(|p: PeerId| peers[p].contains(topic)).map(
            |p: PeerId| (p, source, topic, payload),
        ),
    )
}

/// Everything of a flood engine but its partial view, subscriptions and
/// filter of seen messages is the same in `a` and `b`.
pub open spec fn same_traffic(a: Floodsub, b: Floodsub) -> bool {
    &&& local_id(a) == local_id(b)
    &&& echoes_own(a) == echoes_own(b)
    &&& peer_topics(a) == peer_topics(b)
    &&& queued_messages(a) == queued_messages(b)
    &&& local_deliveries(a) == local_deliveries(b)
}

/// Only the partial view of the flood engine differs between `a` and `b`.
pub open spec fn only_view_differs(a: Floodsub, b: Floodsub) -> bool {
    &&& same_traffic(a, b)
    &&& subscribed_topics(a) == subscribed_topics(b)
    &&& seen_filter(a) == seen_filter(b)
}

/// Relies on `Floodsub::new` and `FloodsubConfig::new`: a fresh engine has
/// no target peers, subscriptions, connected peers or queued events, its
/// source identity is `local`, and it does not echo its own publications.
#[verifier::external_body]
pub(crate) fn new_engine(local: PeerId) -> (r: Floodsub)
    ensures
        partial_view(r) == Set::<PeerId>::empty(),
        subscribed_topics(r) == Set::<Seq<char>>::empty(),
        local_id(r) == local,
        echoes_own(r) == false,
        peer_topics(r) == PeerTopics::empty(),
        queued_messages(r) == Multiset::<QueuedMessage>::empty(),
        local_deliveries(r) == Multiset::<Delivery>::empty(),
{
    Floodsub::new(local)
}

/// Relies on `Floodsub::add_node_to_partial_view`: the peer is inserted into
/// the engine's set of target peers. What it may queue besides is a dial or a
/// notice of subscriptions, which carries no message.
#[verifier::external_body]
pub(crate) fn add_to_view(f: &mut Floodsub, peer: PeerId)
    ensures
        partial_view(*final(f)) == partial_view(*old(f)).insert(peer),
        only_view_differs(*old(f), *final(f)),
{
    f.add_node_to_partial_view(peer)
}

/// Relies on `Floodsub::remove_node_from_partial_view`: the peer is removed
/// from the engine's set of target peers and nothing else changes.
#[verifier::external_body]
pub(crate) fn remove_from_view(f: &mut Floodsub, peer: &PeerId)
    ensures
        partial_view(*final(f)) == partial_view(*old(f)).remove(*peer),
        only_view_differs(*old(f), *final(f)),
{
    f.remove_node_from_partial_view(peer)
}

/// Relies on `Floodsub::subscribe`: the topic's name joins the subscriptions,
/// and the call returns false exactly when a topic of that name was already
/// there. It may queue notices of the subscription, which carry no message.
#[verifier::external_body]
pub(crate) fn subscribe_topic(f: &mut Floodsub, name: &str) -> (r: bool)
    ensures
        r == !subscribed_topics(*old(f)).contains(name@),
        subscribed_topics(*final(f)) == subscribed_topics(*old(f)).insert(name@),
        partial_view(*final(f)) == partial_view(*old(f)),
        seen_filter(*final(f)) == seen_filter(*old(f)),
        same_traffic(*old(f), *final(f)),
{
    f.subscribe(Topic::new(name))
}

/// Relies on `Floodsub::publish`: when the engine is subscribed to the topic,
/// it queues one copy of the message, with the engine's own identity as
/// source, for each connected peer subscribed to the topic, and hands it to
/// the local application only if the engine echoes its own publications;
/// when it is not subscribed, it queues nothing and leaves its filter of seen
/// messages as it was. The sequence number it draws at random is not stated.
#[verifier::external_body]
pub(crate) fn publish_message(f: &mut Floodsub, topic: &str, payload: &[u8])
    ensures
        partial_view(*final(f)) == partial_view(*old(f)),
        subscribed_topics(*final(f)) == subscribed_topics(*old(f)),
        local_id(*final(f)) == local_id(*old(f)),
        echoes_own(*final(f)) == echoes_own(*old(f)),
        peer_topics(*final(f)) == peer_topics(*old(f)),
        subscribed_topics(*old(f)).contains(topic@) ==> queued_messages(*final(f))
            == queued_messages(*old(f)).add(
            copies_for(peer_topics(*old(f)), local_id(*old(f)), topic@, payload@),
        ),
        !subscribed_topics(*old(f)).contains(topic@) ==> queued_messages(*final(f))
            == queued_messages(*old(f)),
        !subscribed_topics(*old(f)).contains(topic@) ==> seen_filter(*final(f)) == seen_filter(
            *old(f),
        ),
        !echoes_own(*old(f)) ==> local_deliveries(*final(f)) == local_deliveries(*old(f)),
{
    f.publish(Topic::new(topic), payload)
}

/// Relies on `Mdns::has_node`: whether the peer is among the unexpired
/// records that discovery holds.
#[verifier::external_body]
pub(crate) fn discovery_has(mdns: &Mdns, peer: &PeerId) -> (r: bool)
    ensures
        r == discovered_peers(*mdns).contains(*peer),
{
    mdns.has_node(peer)
}

/// Relies on the `PartialEq` that `PeerId` derives: two identities compare
/// equal exactly when their multihashes are the same value.
#[verifier::external_body]
pub(crate) fn same_peer(a: &PeerId, b: &PeerId) -> (r: bool)
    ensures
        r == (*a == *b),
{
    a == b
}

/// Relies on `Multiaddr`'s `FromStr`: parsing reads the text alone, so it
/// succeeds or fails on the same text alike.
#[verifier::external_body]
pub(crate) fn parse_multiaddr(text: &str) -> (r: Result<Multiaddr, MultiaddrError>)
    ensures
        r.is_ok() == multiaddr_accepts(text@),
{
    text.parse::<Multiaddr>()
}

} // verus!
