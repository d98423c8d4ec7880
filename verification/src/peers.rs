//! The peers of a backend: what discovery reports, the set that is built from
//! it, and the slot through which the current set is published.

use crate::shared::share;
use std::sync::Arc;
use vstd::prelude::*;

verus! {

/// A peer as discovery reports it: an address of whatever kind, and the weight
/// with which it is to be chosen.
#[derive(Clone, Copy, Debug, PartialEq, Eq)]
pub struct WeightedPeer<A> {
    pub addr: A,
    pub weight: u32,
}

impl<A> WeightedPeer<A> {
    /// A peer can be chosen only with a weight above zero.
    pub open spec fn is_valid(self) -> bool {
        self.weight > 0
    }
}

/// The test that a peer can be chosen.
pub open spec fn can_be_chosen<A>() -> spec_fn(WeightedPeer<A>) -> bool {
    |peer: WeightedPeer<A>| peer.is_valid()
}

/// The peers of `raw` that can be chosen, in their order.
pub open spec fn valid_peers<A>(raw: Seq<WeightedPeer<A>>) -> Seq<WeightedPeer<A>> {
    raw.filter(can_be_chosen())
}

/// A set of peers to choose from: never empty, every peer with a weight above
/// zero. Once built it does not change.
#[derive(Debug)]
pub struct PeerSet<A> {
    peers: Vec<WeightedPeer<A>>,
}

impl<A> View for PeerSet<A> {
    type V = Seq<WeightedPeer<A>>;

    closed spec fn view(&self) -> Seq<WeightedPeer<A>> {
        self.peers@
    }
}

/// What holds of the peers of every set: there is one at least, and each of
/// them can be chosen.
pub open spec fn can_choose_from<A>(peers: Seq<WeightedPeer<A>>) -> bool {
    &&& peers.len() > 0
    &&& forall|i: int| 0 <= i < peers.len() ==> (#[trigger] peers[i]).is_valid()
}

impl<A> PeerSet<A> {
    #[verifier::type_invariant]
    spec fn well_formed(self) -> bool {
        can_choose_from(self.peers@)
    }
}

impl<A: Copy> PeerSet<A> {

    /// Builds the set of the peers of `raw` that can be chosen, in the order of
    /// `raw`. There is no set where none of them can.
    pub fn build(raw: &Vec<WeightedPeer<A>>) -> (built: Option<PeerSet<A>>)
        ensures
            valid_peers(raw@).len() == 0 <==> built is None,
            built matches Some(set) ==> set@ == valid_peers(raw@),
    {
        let mut peers: Vec<WeightedPeer<A>> = Vec::new();
        let mut i: usize = 0;
        while i < raw.len()
            invariant
                i <= raw.len(),
                peers@ == valid_peers(raw@.take(i as int)),
            decreases raw.len() - i,
        {
            let peer = raw[i];
            proof {
                reveal(Seq::filter);
                let longer = raw@.take(i + 1);
                assert(longer.drop_last() =~= raw@.take(i as int));
                assert(longer.last() == peer);
                assert(valid_peers(longer) == if peer.is_valid() {
                    valid_peers(raw@.take(i as int)).push(peer)
                } else {
                    valid_peers(raw@.take(i as int))
                });
            }
            if peer.weight > 0 {
                peers.push(peer);
            }
            i = i + 1;
        }
        proof {
            reveal(Seq::filter);
            assert(raw@.take(raw.len() as int) =~= raw@);
            lemma_valid_peers(raw@);
        }
        if peers.len() == 0 {
            None
        } else {
            Some(PeerSet { peers })
        }
    }

    /// The peers of the set, in their order: one at least, and each of them
    /// can be chosen.
    pub fn peers(&self) -> (peers: &Vec<WeightedPeer<A>>)
        ensures
            peers@ == self@,
            can_choose_from(peers@),
    {
        proof {
            use_type_invariant(self);
        }
        &self.peers
    }

    /// The number of peers, which is never zero.
    pub fn len(&self) -> (n: usize)
        ensures
            n == self@.len(),
            n > 0,
    {
        proof {
            use_type_invariant(self);
        }
        self.peers.len()
    }

    /// The peer at place `i`, which can be chosen.
    pub fn get(&self, i: usize) -> (peer: Option<WeightedPeer<A>>)
        ensures
            peer == if i < self@.len() { Some(self@[i as int]) } else { None },
            peer matches Some(p) ==> p.is_valid(),
    {
        proof {
            use_type_invariant(self);
        }
        if i < self.peers.len() {
            Some(self.peers[i])
        } else {
            None
        }
    }
}

/// Every peer that is kept can be chosen, every peer that can be chosen is
/// kept, and no more peers are kept than there were.
pub proof fn lemma_valid_peers<A>(raw: Seq<WeightedPeer<A>>)
    ensures
        valid_peers(raw).len() <= raw.len(),
        forall|i: int|
            0 <= i < valid_peers(raw).len() ==> (#[trigger] valid_peers(raw)[i]).is_valid(),
        forall|i: int|
            0 <= i < raw.len() && (#[trigger] raw[i]).is_valid() ==> valid_peers(raw).contains(
                raw[i],
            ),
        forall|i: int|
            0 <= i < valid_peers(raw).len() ==> raw.contains(#[trigger] valid_peers(raw)[i]),
{
    let kept = valid_peers(raw);
    raw.lemma_filter_len(can_be_chosen());
    assert forall|i: int| 0 <= i < kept.len() implies (#[trigger] kept[i]).is_valid() by {
        raw.lemma_filter_pred(can_be_chosen(), i);
    }
    assert forall|i: int|
        0 <= i < raw.len() && (#[trigger] raw[i]).is_valid() implies kept.contains(raw[i]) by {
        raw.lemma_filter_contains(can_be_chosen(), i);
    }
    assert forall|i: int| 0 <= i < kept.len() implies raw.contains(#[trigger] kept[i]) by {
        assert(kept.contains(kept[i]));
        raw.lemma_filter_contains_rev(can_be_chosen(), kept[i]);
    }
}

/// The slot through which the current set of peers is published. A new set
/// takes the place of the old one as a whole: whoever reads finds one set that
/// was published, entire, or none.
#[derive(Debug)]
pub struct PeerSlot<A> {
    current: Option<Arc<PeerSet<A>>>,
}

/// What a reader finds in a slot: the peers of the current set, if there is one.
pub open spec fn snapshot<A>(set: Option<Arc<PeerSet<A>>>) -> Option<Seq<WeightedPeer<A>>> {
    match set {
        Some(s) => Some(s@),
        None => None,
    }
}

impl<A> View for PeerSlot<A> {
    type V = Option<Seq<WeightedPeer<A>>>;

    closed spec fn view(&self) -> Option<Seq<WeightedPeer<A>>> {
        snapshot(self.current)
    }
}

impl<A: Copy> PeerSlot<A> {
    /// A slot in which nothing was published yet.
    pub fn new() -> (slot: PeerSlot<A>)
        ensures
            slot@ is None,
    {
        PeerSlot { current: None }
    }

    /// Publishes `next` in place of what the slot held. Whoever holds the
    /// set that was there keeps it as it is.
    pub fn store(&mut self, next: Option<Arc<PeerSet<A>>>)
        ensures
            final(self)@ == stored(old(self)@, snapshot(next)),
    {
        self.current = next;
    }

    /// The set that was published last, if there is one: the whole of it,
    /// shared with the slot and with every other reader.
    pub fn load(&self) -> (current: Option<Arc<PeerSet<A>>>)
        ensures
            snapshot(current) == self@,
    {
        match &self.current {
            Some(set) => Some(share(set)),
            None => None,
        }
    }
}

/// What a slot holds after `next` was stored in it: `next` as a whole, and
/// nothing of what it held.
pub open spec fn stored<A>(
    held: Option<Seq<WeightedPeer<A>>>,
    next: Option<Seq<WeightedPeer<A>>>,
) -> Option<Seq<WeightedPeer<A>>> {
    next
}

/// What a slot that held `first` holds after the snapshots of `published` were
/// stored in it one after the other.
pub open spec fn after_stores<A>(
    first: Option<Seq<WeightedPeer<A>>>,
    published: Seq<Option<Seq<WeightedPeer<A>>>>,
) -> Option<Seq<WeightedPeer<A>>>
    decreases published.len(),
{
    if published.len() == 0 {
        first
    } else {
        stored(after_stores(first, published.drop_last()), published.last())
    }
}

/// Whatever was published and in whatever number, a reader finds one of the
/// published snapshots, the last one, and finds it whole: so what holds of
/// every snapshot that went in holds of what comes out.
pub proof fn lemma_reader_sees_one_snapshot<A>(
    first: Option<Seq<WeightedPeer<A>>>,
    published: Seq<Option<Seq<WeightedPeer<A>>>>,
    property: spec_fn(Option<Seq<WeightedPeer<A>>>) -> bool,
)
    requires
        property(first),
        forall|i: int| 0 <= i < published.len() ==> property(#[trigger] published[i]),
    ensures
        published.len() == 0 ==> after_stores(first, published) == first,
        published.len() > 0 ==> after_stores(first, published) == published.last(),
        property(after_stores(first, published)),
{
}

} // verus!
