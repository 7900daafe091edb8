//! The memory of the flood coordinator: which floods a drone has seen.
//!
//! A flood is known by its identifier together with its initiator, so two
//! initiators may use the same identifier.

use vstd::prelude::*;
use std::collections::HashSet;
use crate::network::NodeId;

verus! {

broadcast use vstd::std_specs::hash::group_hash_axioms;

/// What tells one flood from another: its identifier and its initiator.
pub type FloodKey = (u64, NodeId);

/// The number under which the log keeps a flood.
spec fn packed(key: FloodKey) -> u128 {
    (key.0 * 256 + key.1) as u128
}

fn pack(flood_id: u64, initiator_id: NodeId) -> (number: u128)
    ensures
        number == packed((flood_id, initiator_id)),
{
    (flood_id as u128) * 256 + (initiator_id as u128)
}

/// The floods that a drone has seen: those that it answered or passed on.
pub struct FloodLog {
    seen: HashSet<u128>,
}

impl View for FloodLog {
    type V = Set<FloodKey>;

    closed spec fn view(&self) -> Set<FloodKey> {
        Set::new(|key: FloodKey| self.seen@.contains(packed(key)))
    }
}

impl FloodLog {
    /// The log of a drone that has seen no flood.
    pub fn new() -> (log: Self)
        ensures
            log@ == Set::<FloodKey>::empty(),
    {
        FloodLog { seen: HashSet::new() }
    }

    /// Whether the flood `flood_id` of `initiator_id` is in the log.
    pub fn contains(&self, flood_id: u64, initiator_id: NodeId) -> (seen: bool)
        ensures
            seen == self@.contains((flood_id, initiator_id)),
    {
        let number: u128 = pack(flood_id, initiator_id);
        self.seen.contains(&number)
    }

    /// Enters the flood `flood_id` of `initiator_id` into the log.
    pub fn record(&mut self, flood_id: u64, initiator_id: NodeId)
        ensures
            final(self)@ == old(self)@.insert((flood_id, initiator_id)),
    {
        let number: u128 = pack(flood_id, initiator_id);
        self.seen.insert(number);
        assert forall|key: FloodKey|
            self@.contains(key) <==> old(self)@.insert((flood_id, initiator_id)).contains(
                key,
            ) by {
            assert(packed(key) == number <==> key == (flood_id, initiator_id));
        }
    }
}

} // verus!
