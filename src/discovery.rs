//! Keeping the flood engine's partial view in step with discovery events.
//!
//! A discovered peer joins the view unless it is the local node itself. An
//! expiry removes a peer only when it shows no sign of life: discovery holds
//! no unexpired record of it and the node holds no connection to it. A stale
//! expiry that races a fresh advertisement, or that names a peer still
//! connected, is ignored. Nothing of the engine but its view changes.

use vstd::prelude::*;
use libp2p::floodsub::Floodsub;
use libp2p::mdns::Mdns;
use libp2p::PeerId;
use crate::links::Connections;
use crate::overlay::{
    add_to_view, discovered_peers, discovery_has, only_view_differs, partial_view,
    remove_from_view, same_peer,
};

verus! {

/// The peers of `peers` that an expiry removes: those whose liveness flag at
/// the same position is false.
pub open spec fn expired_set(peers: Seq<PeerId>, live: Seq<bool>) -> Set<PeerId> {
    Set::new(|p: PeerId| exists|i: int| 0 <= i < peers.len() && #[trigger] peers[i] == p && !live[i])
}

/// Adds every discovered peer but the local node to the partial view.
pub fn on_discovered(f: &mut Floodsub, local: &PeerId, peers: &Vec<PeerId>)
    ensures
        partial_view(*final(f)) == partial_view(*old(f)).union(peers@.to_set().remove(*local)),
        only_view_differs(*old(f), *final(f)),
{
    let mut i: usize = 0;
    while i < peers.len()
        invariant
            0 <= i <= peers.len(),
            partial_view(*f) == partial_view(*old(f)).union(
                peers@.subrange(0, i as int).to_set().remove(*local),
            ),
            only_view_differs(*old(f), *f),
        decreases peers.len() - i,
    {
        let p = peers[i];
        if !same_peer(&p, local) {
            add_to_view(f, p);
        }
        proof {
            assert(peers@.subrange(0, i + 1) == peers@.subrange(0, i as int).push(p));
            peers@.subrange(0, i as int).lemma_push_to_set_commute(p);
        }
        i = i + 1;
    }
    proof {
        assert(peers@.subrange(0, peers@.len() as int) == peers@);
    }
}

/// Removes from the partial view each peer of `peers` whose liveness flag at
/// the same position is false; a peer that discovery still holds as live is
/// kept.
pub fn apply_expiry(f: &mut Floodsub, peers: &Vec<PeerId>, live: &Vec<bool>)
    requires
        peers.len() == live.len(),
    ensures
        partial_view(*final(f)) == partial_view(*old(f)).difference(expired_set(peers@, live@)),
        only_view_differs(*old(f), *final(f)),
{
    let mut i: usize = 0;
    while i < peers.len()
        invariant
            0 <= i <= peers.len(),
            peers.len() == live.len(),
            partial_view(*f) == partial_view(*old(f)).difference(
                expired_set(peers@.subrange(0, i as int), live@.subrange(0, i as int)),
            ),
            only_view_differs(*old(f), *f),
        decreases peers.len() - i,
    {
        let p = peers[i];
        if !live[i] {
            remove_from_view(f, &p);
        }
        proof {
            let pa = peers@.subrange(0, i as int);
            let la = live@.subrange(0, i as int);
            let pb = peers@.subrange(0, i + 1);
            let lb = live@.subrange(0, i + 1);
            let before = expired_set(pa, la);
            let after = expired_set(pb, lb);
            let step = if !live[i as int] { before.insert(p) } else { before };
            assert forall|q: PeerId| after.contains(q) <==> step.contains(q) by {
                if after.contains(q) {
                    let j = choose|j: int| 0 <= j < pb.len() && #[trigger] pb[j] == q && !lb[j];
                    if j < i {
                        assert(pa[j] == q);
                        assert(!la[j]);
                    }
                }
                if before.contains(q) {
                    let j = choose|j: int| 0 <= j < pa.len() && #[trigger] pa[j] == q && !la[j];
                    assert(pb[j] == q);
                    assert(!lb[j]);
                }
                if !live[i as int] && q == p {
                    assert(pb[i as int] == q);
                    assert(!lb[i as int]);
                }
            }
            assert(after == step);
            assert(partial_view(*f) == partial_view(*old(f)).difference(after));
        }
        i = i + 1;
    }
    proof {
        assert(peers@.subrange(0, peers@.len() as int) == peers@);
        assert(live@.subrange(0, live@.len() as int) == live@);
    }
}

/// The peers of `peers` that show no sign of life: neither among
/// `discovered` nor among `connected`.
pub open spec fn stale_peers(
    peers: Seq<PeerId>,
    discovered: Set<PeerId>,
    connected: Set<PeerId>,
) -> Set<PeerId> {
    peers.to_set().filter(|p: PeerId| !discovered.contains(p) && !connected.contains(p))
}

/// Handles an expiry of `peers` reported by discovery: each peer is removed
/// from the partial view unless discovery still holds a live record of it or
/// the node is still connected to it.
pub fn on_expired(f: &mut Floodsub, mdns: &Mdns, links: &Connections, peers: &Vec<PeerId>)
    ensures
        partial_view(*final(f)) == partial_view(*old(f)).difference(
            stale_peers(peers@, discovered_peers(*mdns), links@),
        ),
        only_view_differs(*old(f), *final(f)),
{
    let mut live: Vec<bool> = Vec::new();
    let mut i: usize = 0;
    while i < peers.len()
        invariant
            0 <= i <= peers.len(),
            live.len() == i,
            forall|j: int|
                0 <= j < i ==> #[trigger] live@[j] == (discovered_peers(*mdns).contains(peers@[j])
                    || links@.contains(peers@[j])),
        decreases peers.len() - i,
    {
        let seen = discovery_has(mdns, &peers[i]);
        let alive = if seen {
            true
        } else {
            links.contains(&peers[i])
        };
        live.push(alive);
        i = i + 1;
    }
    apply_expiry(f, peers, &live);
    proof {
        let ps = peers@;
        let gone = expired_set(ps, live@);
        let stale = stale_peers(ps, discovered_peers(*mdns), links@);
        assert forall|q: PeerId| gone.contains(q) <==> stale.contains(q) by {
            if gone.contains(q) {
                let j = choose|j: int| 0 <= j < ps.len() && #[trigger] ps[j] == q && !live@[j];
                assert(ps.contains(q));
            }
            if stale.contains(q) {
                let j = ps.index_of(q);
                assert(ps[j] == q);
                assert(!live@[j]);
            }
        }
        assert(gone == stale);
    }
}

/// A peer still connected, or still recorded by discovery, stays in the
/// partial view exactly as it was across an expiry: a stale expiry changes
/// nothing for it.
pub proof fn lemma_live_peer_survives_expiry(
    view: Set<PeerId>,
    peers: Seq<PeerId>,
    discovered: Set<PeerId>,
    connected: Set<PeerId>,
    p: PeerId,
)
    requires
        discovered.contains(p) || connected.contains(p),
    ensures
        view.difference(stale_peers(peers, discovered, connected)).contains(p) == view.contains(p),
{
}

/// A peer that discovery reports, other than the local node, is in the
/// partial view once the report has been handled.
pub proof fn lemma_discovered_peer_joins(
    view: Set<PeerId>,
    peers: Seq<PeerId>,
    local: PeerId,
    p: PeerId,
)
    requires
        peers.contains(p),
        p != local,
    ensures
        view.union(peers.to_set().remove(local)).contains(p),
{
}

/// The local node never enters its own partial view: neither a discovery nor
/// an expiry can put it there when it was not there before.
pub proof fn lemma_local_stays_out(
    view: Set<PeerId>,
    discovered: Seq<PeerId>,
    peers: Seq<PeerId>,
    live: Seq<bool>,
    found: Set<PeerId>,
    connected: Set<PeerId>,
    local: PeerId,
)
    requires
        !view.contains(local),
    ensures
        !view.union(discovered.to_set().remove(local)).contains(local),
        !view.difference(expired_set(peers, live)).contains(local),
        !view.difference(stale_peers(peers, found, connected)).contains(local),
{
}

} // verus!
