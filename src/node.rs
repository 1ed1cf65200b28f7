//! The node's own flood engine and the decisions of its event loop.
//!
//! The loop waits for the next of two things: the publish timer firing, or an
//! event of the network. A timer tick publishes the chat payload on the chat
//! topic; a new listening address is announced; connections opening and
//! closing keep the set of connected peers; anything else is left to the
//! engine and discovery, which handle it themselves.

use vstd::prelude::*;
use libp2p::floodsub::Floodsub;
use libp2p::PeerId;
use vstd::multiset::Multiset;
use vstd::string::StringSliceAdditionalSpecFns;
use crate::links::Connections;
use crate::overlay::{
    copies_for, echoes_own, local_deliveries, local_id, new_engine, partial_view, peer_topics,
    publish_message, queued_messages, seen_filter, subscribe_topic, subscribed_topics, Delivery,
    PeerTopics, QueuedMessage,
};

verus! {

/// The one topic the node takes part in.
pub const CHAT_TOPIC: &'static str = "chat";

/// What the node publishes at each tick of its timer.
pub const CHAT_PAYLOAD: &'static str = "MikuMikuDance";

/// What the event loop hands over once it wakes up.
#[derive(Debug, Clone, Copy)]
pub enum LoopEvent {
    /// The publish timer fired.
    Tick,
    /// The transport started listening on a new address.
    ListeningOn,
    /// A connection to the peer was established.
    Connected(PeerId),
    /// A connection to the peer was closed; the number of connections to it
    /// that remain open.
    Closed(PeerId, u32),
    /// Any other network event; the engine and discovery have seen it already.
    Other,
}

/// What the loop does about an event.
#[derive(Debug, Clone, Copy, PartialEq, Eq)]
pub enum Action {
    /// Publish the chat payload on the chat topic.
    Publish,
    /// Show the address the node now listens on.
    Announce,
    /// Count the peer as connected.
    Track(PeerId),
    /// Count the peer as no longer connected.
    Forget(PeerId),
    /// Nothing more.
    Idle,
}

/// The action an event calls for.
pub open spec fn action_for(event: LoopEvent) -> Action {
    match event {
        LoopEvent::Tick => Action::Publish,
        LoopEvent::ListeningOn => Action::Announce,
        LoopEvent::Connected(p) => Action::Track(p),
        LoopEvent::Closed(p, remaining) => if remaining == 0 {
            Action::Forget(p)
        } else {
            Action::Idle
        },
        LoopEvent::Other => Action::Idle,
    }
}

/// The engine went from `a` to `b` by publishing the chat payload on the chat
/// topic: if it is subscribed to the topic, one copy from the local node is
/// queued for each connected peer subscribed to it, else nothing is queued
/// and nothing else changes; no copy reaches the local application unless
/// the engine echoes its own publications.
pub open spec fn publishes_chat(a: Floodsub, b: Floodsub) -> bool {
    &&& partial_view(b) == partial_view(a)
    &&& subscribed_topics(b) == subscribed_topics(a)
    &&& local_id(b) == local_id(a)
    &&& echoes_own(b) == echoes_own(a)
    &&& peer_topics(b) == peer_topics(a)
    &&& if subscribed_topics(a).contains(CHAT_TOPIC@) {
        queued_messages(b) == queued_messages(a).add(
            copies_for(peer_topics(a), local_id(a), CHAT_TOPIC@, CHAT_PAYLOAD.spec_bytes()),
        )
    } else {
        queued_messages(b) == queued_messages(a) && seen_filter(b) == seen_filter(a)
    }
    &&& !echoes_own(a) ==> local_deliveries(b) == local_deliveries(a)
}

/// Carrying out `action` took the engine from `f0` to `f1` and the set of
/// connected peers from `l0` to `l1`.
pub open spec fn performed(
    action: Action,
    f0: Floodsub,
    f1: Floodsub,
    l0: Set<PeerId>,
    l1: Set<PeerId>,
) -> bool {
    match action {
        Action::Publish => publishes_chat(f0, f1) && l1 == l0,
        Action::Track(p) => f1 == f0 && l1 == l0.insert(p),
        Action::Forget(p) => f1 == f0 && l1 == l0.remove(p),
        _ => f1 == f0 && l1 == l0,
    }
}

/// A flood engine for the node `local`, subscribed to the chat topic, with
/// an empty partial view and nothing queued; it publishes under `local` and
/// does not echo its own publications.
pub fn new_chat_engine(local: PeerId) -> (r: Floodsub)
    ensures
        partial_view(r) == Set::<PeerId>::empty(),
        subscribed_topics(r) == Set::<Seq<char>>::empty().insert(CHAT_TOPIC@),
        local_id(r) == local,
        !echoes_own(r),
        peer_topics(r) == PeerTopics::empty(),
        queued_messages(r) == Multiset::<QueuedMessage>::empty(),
        local_deliveries(r) == Multiset::<Delivery>::empty(),
{
    let mut f = new_engine(local);
    subscribe_topic(&mut f, CHAT_TOPIC);
    f
}

/// Decides what the loop does about `event`.
pub fn next_action(event: LoopEvent) -> (r: Action)
    ensures
        r == action_for(event),
{
    match event {
        LoopEvent::Tick => Action::Publish,
        LoopEvent::ListeningOn => Action::Announce,
        LoopEvent::Connected(p) => Action::Track(p),
        LoopEvent::Closed(p, remaining) => if remaining == 0 {
            Action::Forget(p)
        } else {
            Action::Idle
        },
        LoopEvent::Other => Action::Idle,
    }
}

/// Carries out `action` on the engine and the set of connected peers.
/// Returns whether the loop has an address to announce.
pub fn perform(f: &mut Floodsub, links: &mut Connections, action: Action) -> (announce: bool)
    ensures
        announce == (action == Action::Announce),
        performed(action, *old(f), *final(f), old(links)@, final(links)@),
{
    match action {
        Action::Publish => {
            publish_message(f, CHAT_TOPIC, CHAT_PAYLOAD.as_bytes());
            false
        },
        Action::Announce => true,
        Action::Track(p) => {
            links.insert(p);
            false
        },
        Action::Forget(p) => {
            links.remove(&p);
            false
        },
        Action::Idle => false,
    }
}

/// Handles one wake-up of the event loop: decides, then acts. Returns whether
/// the loop has an address to announce.
pub fn on_loop_event(f: &mut Floodsub, links: &mut Connections, event: LoopEvent) -> (announce: bool)
    ensures
        announce == (event == LoopEvent::ListeningOn),
        performed(action_for(event), *old(f), *final(f), old(links)@, final(links)@),
{
    let action = next_action(event);
    perform(f, links, action)
}

/// Publishing never hands the node's own message to its own application: on
/// an engine that does not echo its own publications, a tick leaves what
/// waits for the local application as it was.
pub proof fn lemma_no_self_delivery(a: Floodsub, b: Floodsub)
    requires
        publishes_chat(a, b),
        !echoes_own(a),
    ensures
        local_deliveries(b) == local_deliveries(a),
        !echoes_own(b),
{
}

} // verus!
