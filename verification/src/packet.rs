//! The packets that travel between nodes, and their mathematical models.

use vstd::prelude::*;
use crate::network::NodeId;
use crate::network::Route;
use crate::network::SourceRoutingHeader;

verus! {

/// Number of payload bytes that a fragment carries.
pub const FRAGMENT_DSIZE: usize = 128;

/// What a node of the network is.
#[derive(Clone, Copy, Debug, PartialEq, Eq)]
pub enum NodeType {
    Client,
    Drone,
    Server,
}

/// One step of a flood: a node and what it is.
pub type PathEntry = (NodeId, NodeType);

/// Why a fragment did not get through.
#[derive(Clone, Copy, Debug, PartialEq, Eq)]
pub enum NackType {
    /// The node named here has no link to the next hop.
    ErrorInRouting(NodeId),
    /// The path ends at a drone.
    DestinationIsDrone,
    /// The fragment was lost on a link.
    Dropped,
    /// The node named here received a packet meant for another node.
    UnexpectedRecipient(NodeId),
}

/// Negative acknowledgement of a fragment.
#[derive(Clone, Copy, Debug, PartialEq, Eq)]
pub struct Nack {
    pub fragment_index: u64,
    pub nack_type: NackType,
}

/// Acknowledgement of a fragment.
#[derive(Clone, Copy, Debug, PartialEq, Eq)]
pub struct Ack {
    pub fragment_index: u64,
}

/// One chunk of a message. The payload means nothing to a drone.
#[derive(Clone, Copy, Debug, PartialEq, Eq)]
pub struct Fragment {
    pub fragment_index: u64,
    pub total_n_fragments: u64,
    pub length: u8,
    pub data: [u8; FRAGMENT_DSIZE],
}

/// A discovery request that spreads through the network.
#[derive(Debug, PartialEq, Eq)]
pub struct FloodRequest {
    pub flood_id: u64,
    pub initiator_id: NodeId,
    /// The nodes that the request went through, initiator first.
    pub path_trace: Vec<PathEntry>,
}

/// The answer to a discovery request.
#[derive(Debug, PartialEq, Eq)]
pub struct FloodResponse {
    pub flood_id: u64,
    /// The nodes that the request went through, initiator first.
    pub path_trace: Vec<PathEntry>,
}

/// The five kinds of packet.
#[derive(Debug, PartialEq, Eq)]
pub enum PacketType {
    MsgFragment(Fragment),
    Ack(Ack),
    Nack(Nack),
    FloodRequest(FloodRequest),
    FloodResponse(FloodResponse),
}

/// A packet: its content, its route and the session it belongs to.
#[derive(Debug, PartialEq, Eq)]
pub struct Packet {
    pub pack_type: PacketType,
    pub routing_header: SourceRoutingHeader,
    pub session_id: u64,
}

/// Model of a [`FloodRequest`].
pub struct FloodRequestView {
    pub flood_id: u64,
    pub initiator_id: NodeId,
    pub path_trace: Seq<PathEntry>,
}

/// Model of a [`FloodResponse`].
pub struct FloodResponseView {
    pub flood_id: u64,
    pub path_trace: Seq<PathEntry>,
}

/// Model of a [`PacketType`].
pub enum PacketTypeView {
    MsgFragment(Fragment),
    Ack(Ack),
    Nack(Nack),
    FloodRequest(FloodRequestView),
    FloodResponse(FloodResponseView),
}

/// Model of a [`Packet`].
pub struct PacketView {
    pub pack_type: PacketTypeView,
    pub routing_header: Route,
    pub session_id: u64,
}

/// The nodes of a path trace, in order.
pub open spec fn path_nodes(trace: Seq<PathEntry>) -> Seq<NodeId> {
    Seq::new(trace.len(), |i: int| trace[i].0)
}

impl FloodRequestView {
    /// The request after it went through `node_id`.
    pub open spec fn incremented(self, node_id: NodeId, node_type: NodeType) -> FloodRequestView {
        FloodRequestView { path_trace: self.path_trace.push((node_id, node_type)), ..self }
    }

    /// The answer to this request: it carries the path trace and travels
    /// along the traced nodes in reverse order, the cursor on the second of
    /// them.
    pub open spec fn response(self, session_id: u64) -> PacketView {
        PacketView {
            pack_type: PacketTypeView::FloodResponse(
                FloodResponseView { flood_id: self.flood_id, path_trace: self.path_trace },
            ),
            routing_header: Route { hops: path_nodes(self.path_trace).reverse(), hop_index: 1 },
            session_id,
        }
    }
}

impl PacketView {
    /// The fragment that a negative acknowledgement of this packet names:
    /// the index of a fragment or of a negative acknowledgement, else 0.
    pub open spec fn fragment_index(self) -> u64 {
        match self.pack_type {
            PacketTypeView::MsgFragment(fragment) => fragment.fragment_index,
            PacketTypeView::Nack(nack) => nack.fragment_index,
            _ => 0,
        }
    }

    /// The packet carries a negative acknowledgement on `routing_header`.
    pub open spec fn nack(routing_header: Route, session_id: u64, nack: Nack) -> PacketView {
        PacketView { pack_type: PacketTypeView::Nack(nack), routing_header, session_id }
    }

    /// Acknowledgements, negative acknowledgements and flood responses can
    /// reach their destination through the controller.
    pub open spec fn can_shortcut(self) -> bool {
        self.pack_type is Ack || self.pack_type is Nack || self.pack_type is FloodResponse
    }
}

impl View for FloodRequest {
    type V = FloodRequestView;

    open spec fn view(&self) -> FloodRequestView {
        FloodRequestView {
            flood_id: self.flood_id,
            initiator_id: self.initiator_id,
            path_trace: self.path_trace@,
        }
    }
}

impl View for FloodResponse {
    type V = FloodResponseView;

    open spec fn view(&self) -> FloodResponseView {
        FloodResponseView { flood_id: self.flood_id, path_trace: self.path_trace@ }
    }
}

impl View for PacketType {
    type V = PacketTypeView;

    open spec fn view(&self) -> PacketTypeView {
        match *self {
            PacketType::MsgFragment(fragment) => PacketTypeView::MsgFragment(fragment),
            PacketType::Ack(ack) => PacketTypeView::Ack(ack),
            PacketType::Nack(nack) => PacketTypeView::Nack(nack),
            PacketType::FloodRequest(request) => PacketTypeView::FloodRequest(request@),
            PacketType::FloodResponse(response) => PacketTypeView::FloodResponse(response@),
        }
    }
}

impl View for Packet {
    type V = PacketView;

    open spec fn view(&self) -> PacketView {
        PacketView {
            pack_type: self.pack_type@,
            routing_header: self.routing_header@,
            session_id: self.session_id,
        }
    }
}

/// A copy of a path trace.
fn copy_trace(trace: &Vec<PathEntry>) -> (copy: Vec<PathEntry>)
    ensures
        copy@ == trace@,
{
    let mut copy: Vec<PathEntry> = Vec::new();
    let mut done: usize = 0;
    while done < trace.len()
        invariant
            done <= trace.len(),
            copy@ == trace@.subrange(0, done as int),
        decreases trace.len() - done,
    {
        copy.push(trace[done]);
        done = done + 1;
    }
    copy
}

impl Clone for FloodRequest {
    fn clone(&self) -> (copy: Self)
        ensures
            copy@ == self@,
    {
        FloodRequest {
            flood_id: self.flood_id,
            initiator_id: self.initiator_id,
            path_trace: copy_trace(&self.path_trace),
        }
    }
}

impl Clone for FloodResponse {
    fn clone(&self) -> (copy: Self)
        ensures
            copy@ == self@,
    {
        FloodResponse { flood_id: self.flood_id, path_trace: copy_trace(&self.path_trace) }
    }
}

impl Clone for PacketType {
    fn clone(&self) -> (copy: Self)
        ensures
            copy@ == self@,
    {
        match self {
            PacketType::MsgFragment(fragment) => PacketType::MsgFragment(*fragment),
            PacketType::Ack(ack) => PacketType::Ack(*ack),
            PacketType::Nack(nack) => PacketType::Nack(*nack),
            PacketType::FloodRequest(request) => PacketType::FloodRequest(request.clone()),
            PacketType::FloodResponse(response) => PacketType::FloodResponse(response.clone()),
        }
    }
}

impl Clone for Packet {
    fn clone(&self) -> (copy: Self)
        ensures
            copy@ == self@,
    {
        Packet {
            pack_type: self.pack_type.clone(),
            routing_header: self.routing_header.clone(),
            session_id: self.session_id,
        }
    }
}

impl FloodRequest {
    /// Records in the path trace that the request went through `node_id`.
    pub fn increment(&mut self, node_id: NodeId, node_type: NodeType)
        ensures
            final(self)@ == old(self)@.incremented(node_id, node_type),
    {
        self.path_trace.push((node_id, node_type));
    }

    /// The answer to this request, for the session `session_id`.
    pub fn generate_response(&self, session_id: u64) -> (packet: Packet)
        ensures
            packet@ == self@.response(session_id),
    {
        let count: usize = self.path_trace.len();
        let mut hops: Vec<NodeId> = Vec::new();
        let mut done: usize = 0;
        while done < count
            invariant
                count == self.path_trace.len(),
                done <= count,
                hops@.len() == done,
                forall|k: int| 0 <= k < done ==> hops@[k] == self.path_trace@[count - 1 - k].0,
            decreases count - done,
        {
            hops.push(self.path_trace[count - 1 - done].0);
            done = done + 1;
        }
        assert(hops@ =~= path_nodes(self.path_trace@).reverse());
        Packet {
            pack_type: PacketType::FloodResponse(
                FloodResponse { flood_id: self.flood_id, path_trace: copy_trace(&self.path_trace) },
            ),
            routing_header: SourceRoutingHeader { hop_index: 1, hops },
            session_id,
        }
    }
}

impl Packet {
    /// A fragment on `routing_header`.
    pub fn new_fragment(
        routing_header: SourceRoutingHeader,
        session_id: u64,
        fragment: Fragment,
    ) -> (packet: Self)
        ensures
            packet@ == (PacketView {
                pack_type: PacketTypeView::MsgFragment(fragment),
                routing_header: routing_header@,
                session_id,
            }),
    {
        Packet { pack_type: PacketType::MsgFragment(fragment), routing_header, session_id }
    }

    /// An acknowledgement of fragment `fragment_index` on `routing_header`.
    pub fn new_ack(
        routing_header: SourceRoutingHeader,
        session_id: u64,
        fragment_index: u64,
    ) -> (packet: Self)
        ensures
            packet@ == (PacketView {
                pack_type: PacketTypeView::Ack(Ack { fragment_index }),
                routing_header: routing_header@,
                session_id,
            }),
    {
        Packet { pack_type: PacketType::Ack(Ack { fragment_index }), routing_header, session_id }
    }

    /// A negative acknowledgement on `routing_header`.
    pub fn new_nack(
        routing_header: SourceRoutingHeader,
        session_id: u64,
        nack: Nack,
    ) -> (packet: Self)
        ensures
            packet@ == PacketView::nack(routing_header@, session_id, nack),
    {
        Packet { pack_type: PacketType::Nack(nack), routing_header, session_id }
    }

    /// A flood request on `routing_header`.
    pub fn new_flood_request(
        routing_header: SourceRoutingHeader,
        session_id: u64,
        flood_request: FloodRequest,
    ) -> (packet: Self)
        ensures
            packet@ == (PacketView {
                pack_type: PacketTypeView::FloodRequest(flood_request@),
                routing_header: routing_header@,
                session_id,
            }),
    {
        Packet { pack_type: PacketType::FloodRequest(flood_request), routing_header, session_id }
    }

    /// A flood response on `routing_header`.
    pub fn new_flood_response(
        routing_header: SourceRoutingHeader,
        session_id: u64,
        flood_response: FloodResponse,
    ) -> (packet: Self)
        ensures
            packet@ == (PacketView {
                pack_type: PacketTypeView::FloodResponse(flood_response@),
                routing_header: routing_header@,
                session_id,
            }),
    {
        Packet { pack_type: PacketType::FloodResponse(flood_response), routing_header, session_id }
    }

    /// The fragment that a negative acknowledgement of this packet names:
    /// the index of a fragment or of a negative acknowledgement, else 0.
    pub fn get_fragment_index(&self) -> (index: u64)
        ensures
            index == self@.fragment_index(),
    {
        match &self.pack_type {
            PacketType::MsgFragment(fragment) => fragment.fragment_index,
            PacketType::Nack(nack) => nack.fragment_index,
            _ => 0,
        }
    }

    /// Whether the controller can deliver this packet when no link can.
    pub fn can_shortcut(&self) -> (yes: bool)
        ensures
            yes == self@.can_shortcut(),
    {
        match &self.pack_type {
            PacketType::Ack(_) => true,
            PacketType::Nack(_) => true,
            PacketType::FloodResponse(_) => true,
            _ => false,
        }
    }
}

} // verus!
