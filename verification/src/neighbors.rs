//! The neighbor table: which nodes a drone has a link to.

use vstd::prelude::*;
use std::collections::HashMap;
use crate::network::NodeId;

verus! {

broadcast use vstd::std_specs::hash::group_hash_axioms;

/// The members of `ids` that are below `bound`, in ascending order.
pub open spec fn ids_below(ids: Set<NodeId>, bound: nat) -> Seq<NodeId>
    decreases bound,
{
    if bound == 0 {
        Seq::empty()
    } else {
        let rest = ids_below(ids, (bound - 1) as nat);
        if ids.contains((bound - 1) as NodeId) {
            rest.push((bound - 1) as NodeId)
        } else {
            rest
        }
    }
}

/// The members of `ids` in ascending order.
pub open spec fn ascending(ids: Set<NodeId>) -> Seq<NodeId> {
    ids_below(ids, 256)
}

/// `ids_below(ids, bound)` lists the members of `ids` below `bound`, each
/// once and smaller ones first.
pub proof fn lemma_ids_below(ids: Set<NodeId>, bound: nat)
    requires
        bound <= 256,
    ensures
        forall|id: NodeId|
            #![trigger ids_below(ids, bound).contains(id)]
            #![trigger ids.contains(id)]
            ids_below(ids, bound).contains(id) <==> ids.contains(id) && id < bound,
        forall|i: int, j: int|
            0 <= i < j < ids_below(ids, bound).len() ==> ids_below(ids, bound)[i] < ids_below(
                ids,
                bound,
            )[j],
    decreases bound,
{
    if bound > 0 {
        let rest = ids_below(ids, (bound - 1) as nat);
        let top = (bound - 1) as NodeId;
        lemma_ids_below(ids, (bound - 1) as nat);
        if ids.contains(top) {
            let all = rest.push(top);
            assert(all[rest.len() as int] == top);
            assert forall|id: NodeId| all.contains(id) <==> ids.contains(id) && id < bound by {
                if all.contains(id) {
                    let at = choose|at: int| 0 <= at < all.len() && all[at] == id;
                    if at < rest.len() {
                        assert(rest[at] == id);
                        assert(rest.contains(id));
                    }
                }
                if ids.contains(id) && id < bound {
                    if id == top {
                        assert(all[rest.len() as int] == id);
                    } else {
                        assert(rest.contains(id));
                        let at = choose|at: int| 0 <= at < rest.len() && rest[at] == id;
                        assert(all[at] == id);
                    }
                }
            }
            assert forall|i: int, j: int| 0 <= i < j < all.len() implies all[i] < all[j] by {
                assert(all[i] == rest[i]);
                if j == rest.len() {
                    assert(rest.contains(rest[i]));
                    assert(rest[i] < bound - 1);
                } else {
                    assert(all[j] == rest[j]);
                }
            }
        }
    }
}

/// The sorted list of a set of nodes holds exactly the nodes of the set,
/// each once and smaller ones first.
pub proof fn lemma_ascending(ids: Set<NodeId>)
    ensures
        forall|id: NodeId|
            #![trigger ascending(ids).contains(id)]
            #![trigger ids.contains(id)]
            ascending(ids).contains(id) <==> ids.contains(id),
        forall|i: int, j: int|
            0 <= i < j < ascending(ids).len() ==> ascending(ids)[i] < ascending(ids)[j],
{
    lemma_ids_below(ids, 256);
}

/// The links of a drone: for each neighbor the means to send to it.
///
/// The table keeps a channel of any type `C` for each neighbor and never
/// looks into it.
pub struct NeighborTable<C> {
    links: HashMap<NodeId, C>,
}

impl<C> View for NeighborTable<C> {
    type V = Map<NodeId, C>;

    closed spec fn view(&self) -> Map<NodeId, C> {
        self.links@
    }
}

impl<C> NeighborTable<C> {
    /// The table of a drone without neighbors.
    pub fn new() -> (table: Self)
        ensures
            table@ == Map::<NodeId, C>::empty(),
    {
        NeighborTable { links: HashMap::new() }
    }

    /// Every table has finitely many neighbors.
    pub proof fn lemma_finite(&self)
        ensures
            self@.dom().finite(),
    {
    }

    /// Links `id` through `channel`, in place of any earlier link to `id`.
    pub fn add(&mut self, id: NodeId, channel: C)
        ensures
            final(self)@ == old(self)@.insert(id, channel),
    {
        self.links.insert(id, channel);
    }

    /// Unlinks `id`. Nothing changes when `id` is no neighbor.
    pub fn remove(&mut self, id: NodeId)
        ensures
            final(self)@ == old(self)@.remove(id),
    {
        self.links.remove(&id);
    }

    /// The channel to `id`, or `None` when `id` is no neighbor.
    pub fn get(&self, id: NodeId) -> (channel: Option<&C>)
        ensures
            match channel {
                Some(channel) => self@.contains_key(id) && *channel == self@[id],
                None => !self@.contains_key(id),
            },
    {
        self.links.get(&id)
    }

    /// Whether `id` is a neighbor.
    pub fn contains(&self, id: NodeId) -> (linked: bool)
        ensures
            linked == self@.contains_key(id),
    {
        self.links.contains_key(&id)
    }

    /// Whether the drone has no neighbor.
    pub fn is_empty(&self) -> (empty: bool)
        ensures
            empty == self@.dom().is_empty(),
    {
        self.links.is_empty()
    }

    /// The number of neighbors.
    pub fn len(&self) -> (count: usize)
        ensures
            count == self@.dom().len(),
    {
        self.links.len()
    }

    /// The neighbors other than `except`, in ascending order.
    pub fn others(&self, except: NodeId) -> (ids: Vec<NodeId>)
        ensures
            ids@ == ascending(self@.dom().remove(except)),
    {
        let mut ids: Vec<NodeId> = Vec::new();
        let mut next: usize = 0;
        while next < 256
            invariant
                next <= 256,
                ids@ == ids_below(self@.dom().remove(except), next as nat),
            decreases 256 - next,
        {
            let id: NodeId = next as NodeId;
            if id != except && self.links.contains_key(&id) {
                ids.push(id);
            }
            next = next + 1;
        }
        ids
    }
}

} // verus!
