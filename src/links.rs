//! The peers the transport currently holds a connection to.
//!
//! Discovery records expire on their own timer, while a connection is a
//! fresher sign that a peer is alive: the node keeps this set so that an
//! expiry never drops a peer it is still connected to.

use vstd::prelude::*;
use libp2p::PeerId;
use crate::overlay::same_peer;

verus! {

/// A set of connected peers, kept without repeats.
pub struct Connections {
    peers: Vec<PeerId>,
}

impl View for Connections {
    type V = Set<PeerId>;

    closed spec fn view(&self) -> Set<PeerId> {
        self.peers@.to_set()
    }
}

impl Connections {
    /// No peer is connected.
    pub fn new() -> (r: Connections)
        ensures
            r@ == Set::<PeerId>::empty(),
    {
        let r = Connections { peers: Vec::new() };
        proof {
            assert(r.peers@.to_set() =~= Set::<PeerId>::empty());
        }
        r
    }

    /// Whether `peer` is connected.
    pub fn contains(&self, peer: &PeerId) -> (r: bool)
        ensures
            r == self@.contains(*peer),
    {
        let mut i: usize = 0;
        while i < self.peers.len()
            invariant
                0 <= i <= self.peers.len(),
                forall|j: int| 0 <= j < i ==> self.peers@[j] != *peer,
            decreases self.peers.len() - i,
        {
            if same_peer(&self.peers[i], peer) {
                proof {
                    assert(self.peers@.contains(*peer));
                }
                return true;
            }
            i = i + 1;
        }
        proof {
            if self.peers@.contains(*peer) {
                let j = self.peers@.index_of(*peer);
                assert(self.peers@[j] == *peer);
            }
        }
        false
    }

    /// Records a connection to `peer`.
    pub fn insert(&mut self, peer: PeerId)
        ensures
            final(self)@ == old(self)@.insert(peer),
    {
        if !self.contains(&peer) {
            self.peers.push(peer);
            proof {
                old(self).peers@.lemma_push_to_set_commute(peer);
            }
        } else {
            proof {
                assert(old(self)@.insert(peer) =~= old(self)@);
            }
        }
    }

    /// Forgets every connection to `peer`.
    pub fn remove(&mut self, peer: &PeerId)
        ensures
            final(self)@ == old(self)@.remove(*peer),
    {
        let mut kept: Vec<PeerId> = Vec::new();
        let mut i: usize = 0;
        while i < self.peers.len()
            invariant
                0 <= i <= self.peers.len(),
                self.peers == old(self).peers,
                kept@.to_set() == self.peers@.subrange(0, i as int).to_set().remove(*peer),
            decreases self.peers.len() - i,
        {
            let p = self.peers[i];
            proof {
                assert(self.peers@.subrange(0, i + 1) == self.peers@.subrange(0, i as int).push(p));
                self.peers@.subrange(0, i as int).lemma_push_to_set_commute(p);
            }
            if !same_peer(&p, peer) {
                proof {
                    kept@.lemma_push_to_set_commute(p);
                    assert(kept@.push(p).to_set() =~= self.peers@.subrange(0, i + 1).to_set().remove(*peer));
                }
                kept.push(p);
            } else {
                proof {
                    assert(kept@.to_set() =~= self.peers@.subrange(0, i + 1).to_set().remove(*peer));
                }
            }
            i = i + 1;
        }
        proof {
            assert(self.peers@.subrange(0, self.peers@.len() as int) == self.peers@);
        }
        self.peers = kept;
    }
}

} // verus!
