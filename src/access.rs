//! The set of peers allowed to use the egress side.
use vstd::prelude::*;

use crate::identity::PeerIdentity;

verus! {

/// A set of authorized peer identities.
#[derive(Debug)]
pub struct AccessList {
    peers: Vec<PeerIdentity>,
}

impl View for AccessList {
    type V = Set<Seq<u8>>;

    closed spec fn view(&self) -> Set<Seq<u8>> {
        Set::new(|k: Seq<u8>| exists|i: int| 0 <= i < self.peers@.len() && (#[trigger] self.peers@[i])@ == k)
    }
}

impl AccessList {
    /// The list that authorizes nobody.
    pub fn new() -> (r: AccessList)
        ensures
            r@ == Set::<Seq<u8>>::empty(),
    {
        let r = AccessList { peers: Vec::new() };
        proof {
            assert(r@ =~= Set::<Seq<u8>>::empty());
        }
        r
    }

    /// Authorizes `peer` as well.
    pub fn add(&mut self, peer: PeerIdentity)
        ensures
            final(self)@ == old(self)@.insert(peer@),
    {
        let ghost before = self.peers@;
        self.peers.push(peer);
        proof {
            assert forall|k: Seq<u8>| #[trigger] self@.contains(k) == old(self)@.insert(peer@).contains(k) by {
                if old(self)@.contains(k) {
                    let i = choose|i: int| 0 <= i < before.len() && (#[trigger] before[i])@ == k;
                    assert(self.peers@[i] == before[i]);
                }
                if k == peer@ {
                    assert(self.peers@[before.len() as int]@ == k);
                }
                if self@.contains(k) {
                    let i = choose|i: int| 0 <= i < self.peers@.len() && (#[trigger] self.peers@[i])@ == k;
                    if i < before.len() {
                        assert(self.peers@[i] == before[i]);
                    }
                }
            }
            assert(self@ =~= old(self)@.insert(peer@));
        }
    }

    /// Whether `peer` is authorized.
    pub fn is_authorized(&self, peer: &PeerIdentity) -> (r: bool)
        ensures
            r == self@.contains(peer@),
    {
        let mut i: usize = 0;
        while i < self.peers.len()
            invariant
                i <= self.peers@.len(),
                forall|j: int| 0 <= j < i ==> (#[trigger] self.peers@[j])@ != peer@,
            decreases self.peers@.len() - i,
        {
            if self.peers[i].same(peer) {
                return true;
            }
            i = i + 1;
        }
        false
    }
}

} // verus!
