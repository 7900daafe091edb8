//! Source routing headers: the hops of a pre-computed path and a cursor on it.

use vstd::prelude::*;

verus! {

/// Identity of a node of the network.
pub type NodeId = u8;

/// Mathematical model of a source routing header.
pub struct Route {
    /// The nodes of the path, sender first.
    pub hops: Seq<NodeId>,
    /// Position in `hops` of the node that holds the packet.
    pub hop_index: nat,
}

impl Route {
    /// The hop under the cursor, if the cursor is on the path.
    pub open spec fn current_hop(self) -> Option<NodeId> {
        if self.hop_index < self.hops.len() {
            Some(self.hops[self.hop_index as int])
        } else {
            None
        }
    }

    /// The hop after the cursor, if there is one.
    pub open spec fn next_hop(self) -> Option<NodeId> {
        if self.hop_index + 1 < self.hops.len() {
            Some(self.hops[self.hop_index as int + 1])
        } else {
            None
        }
    }

    /// The hop before the cursor, if there is one.
    pub open spec fn previous_hop(self) -> Option<NodeId> {
        if 0 < self.hop_index <= self.hops.len() {
            Some(self.hops[self.hop_index - 1])
        } else {
            None
        }
    }

    /// The cursor is on the last hop of the path.
    pub open spec fn is_last_hop(self) -> bool {
        self.hop_index + 1 == self.hops.len()
    }

    /// The same path with the cursor moved one hop forward.
    pub open spec fn advanced(self) -> Route {
        Route { hops: self.hops, hop_index: self.hop_index + 1 }
    }

    /// The path extended by `hop`, the cursor unchanged.
    pub open spec fn appended(self, hop: NodeId) -> Route {
        Route { hops: self.hops.push(hop), hop_index: self.hop_index }
    }

    /// The hops from the sender up to and including the cursor.
    pub open spec fn traversed(self) -> Seq<NodeId>
        recommends
            self.hop_index < self.hops.len(),
    {
        self.hops.subrange(0, self.hop_index as int + 1)
    }

    /// The return path: the traversed hops in reverse order, with the cursor
    /// on the hop that follows the node at which the packet turned back.
    pub open spec fn reversed(self) -> Route
        recommends
            self.hop_index < self.hops.len(),
    {
        Route { hops: self.traversed().reverse(), hop_index: 1 }
    }
}

/// The hops of a path and the position of the packet on it.
#[derive(Debug, PartialEq, Eq)]
pub struct SourceRoutingHeader {
    /// Position in `hops` of the node that holds the packet.
    pub hop_index: usize,
    /// The nodes of the path, sender first.
    pub hops: Vec<NodeId>,
}

impl View for SourceRoutingHeader {
    type V = Route;

    open spec fn view(&self) -> Route {
        Route { hops: self.hops@, hop_index: self.hop_index as nat }
    }
}

impl Clone for SourceRoutingHeader {
    fn clone(&self) -> (copy: Self)
        ensures
            copy@ == self@,
    {
        SourceRoutingHeader { hop_index: self.hop_index, hops: self.hops.clone() }
    }
}

impl SourceRoutingHeader {
    /// A header over `hops` with the cursor at `hop_index`.
    pub fn new(hops: Vec<NodeId>, hop_index: usize) -> (header: Self)
        ensures
            header@ == (Route { hops: hops@, hop_index: hop_index as nat }),
    {
        SourceRoutingHeader { hop_index, hops }
    }

    /// The hop under the cursor, or `None` when the cursor is off the path.
    pub fn current_hop(&self) -> (hop: Option<NodeId>)
        ensures
            hop == self@.current_hop(),
    {
        if self.hop_index < self.hops.len() {
            Some(self.hops[self.hop_index])
        } else {
            None
        }
    }

    /// The hop after the cursor, or `None` when the path ends before it.
    pub fn next_hop(&self) -> (hop: Option<NodeId>)
        ensures
            hop == self@.next_hop(),
    {
        if self.hop_index < self.hops.len() && self.hop_index + 1 < self.hops.len() {
            Some(self.hops[self.hop_index + 1])
        } else {
            None
        }
    }

    /// The hop before the cursor, or `None` when there is none.
    pub fn previous_hop(&self) -> (hop: Option<NodeId>)
        ensures
            hop == self@.previous_hop(),
    {
        if 0 < self.hop_index && self.hop_index <= self.hops.len() {
            Some(self.hops[self.hop_index - 1])
        } else {
            None
        }
    }

    /// Whether the cursor is on the last hop of the path.
    pub fn is_last_hop(&self) -> (last: bool)
        ensures
            last == self@.is_last_hop(),
    {
        self.hop_index < self.hops.len() && self.hop_index + 1 == self.hops.len()
    }

    /// Moves the cursor one hop forward.
    pub fn increase_hop_index(&mut self)
        requires
            old(self).hop_index < usize::MAX,
        ensures
            final(self)@ == old(self)@.advanced(),
    {
        self.hop_index = self.hop_index + 1;
    }

    /// Extends the path by `hop`.
    pub fn append_hop(&mut self, hop: NodeId)
        ensures
            final(self)@ == old(self)@.appended(hop),
    {
        self.hops.push(hop);
    }

    /// The return path of a packet that turns back at the cursor: the hops
    /// from the sender up to the cursor in reverse order, with the cursor at
    /// index 1. The header itself is left as it is. `None` when the cursor is
    /// off the path.
    pub fn reversed(&self) -> (back: Option<Self>)
        ensures
            match back {
                Some(header) => self@.current_hop().is_some() && header@ == self@.reversed(),
                None => self@.current_hop().is_none(),
            },
    {
        if self.hop_index >= self.hops.len() {
            return None;
        }
        let count: usize = self.hop_index + 1;
        let mut hops: Vec<NodeId> = Vec::new();
        let mut done: usize = 0;
        while done < count
            invariant
                count == self.hop_index + 1,
                self.hop_index < self.hops.len(),
                done <= count,
                hops@.len() == done,
                forall|k: int| 0 <= k < done ==> hops@[k] == self.hops@[self.hop_index - k],
            decreases count - done,
        {
            hops.push(self.hops[self.hop_index - done]);
            done = done + 1;
        }
        assert(hops@ =~= self@.traversed().reverse());
        Some(SourceRoutingHeader { hop_index: 1, hops })
    }
}

} // verus!
