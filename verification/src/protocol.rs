//! The protocol of a drone as a mathematical state machine.
//!
//! [`DroneView`] is the state. [`DroneView::after_command`] says what a
//! command does to it, [`DroneView::react`] what a packet is answered with
//! and [`DroneView::after_packet`] what the packet does to the state.
//!
//! Two rules are choices of this library. A flood is known by its identifier
//! together with its initiator. A drone remembers every flood that it has
//! answered or passed on, and passes a flood on only when it sees it for the
//! first time and has more than one neighbor. A packet that finds no
//! open link goes through the controller if it is an acknowledgement, a
//! negative acknowledgement or a flood response; for a fragment and for a
//! flood request, which the controller cannot deliver, that is a fault.

use vstd::prelude::*;
use crate::controller::DroneCommand;
use crate::controller::DroneEvent;
use crate::controller::DroneEventView;
use crate::flood::FloodKey;
use crate::neighbors::ascending;
use crate::network::NodeId;
use crate::network::Route;
use crate::packet::Nack;
use crate::packet::NackType;
use crate::packet::NodeType;
use crate::packet::Packet;
use crate::packet::PacketTypeView;
use crate::packet::PacketView;
use crate::packet::FloodRequestView;

verus! {

/// Where a drone stands between start and stop.
#[derive(Clone, Copy, Debug, PartialEq, Eq)]
pub enum NodeState {
    /// The drone takes part in the network.
    Running,
    /// The drone was told to leave and drains what is in flight.
    Crashing,
    /// The drone has stopped for good.
    Terminated,
}

/// A fault that no packet can report: the drone cannot go on.
#[derive(Clone, Copy, Debug, PartialEq, Eq)]
pub enum FatalError {
    /// The cursor of a header is off the path where a hop has to be.
    CursorOutOfRange,
    /// An answer made by the drone has no hop to go to.
    NoReturnPath,
    /// A fragment or a flood request could not be handed to its neighbor.
    Undeliverable,
}

/// One thing that the runtime has to do for the drone.
#[derive(Debug, PartialEq, Eq)]
pub enum Action {
    /// Hand the packet to the neighbor `to`.
    Deliver { to: NodeId, packet: Packet },
    /// Report the event to the controller.
    Report(DroneEvent),
}

/// Model of an [`Action`].
pub enum ActionView {
    Deliver { to: NodeId, packet: PacketView },
    Report(DroneEventView),
}

impl View for Action {
    type V = ActionView;

    open spec fn view(&self) -> ActionView {
        match *self {
            Action::Deliver { to, packet } => ActionView::Deliver { to, packet: packet@ },
            Action::Report(event) => ActionView::Report(event@),
        }
    }
}

impl Clone for Action {
    fn clone(&self) -> (copy: Self)
        ensures
            copy@ == self@,
    {
        match self {
            Action::Deliver { to, packet } => Action::Deliver { to: *to, packet: packet.clone() },
            Action::Report(event) => Action::Report(event.clone()),
        }
    }
}

/// The models of a list of actions.
pub open spec fn actions_view(actions: Seq<Action>) -> Seq<ActionView> {
    Seq::new(actions.len(), |i: int| actions[i]@)
}

/// The model of one action or the fault in its place.
pub open spec fn outcome_view(outcome: Result<Action, FatalError>) -> Result<
    ActionView,
    FatalError,
> {
    match outcome {
        Ok(action) => Ok(action@),
        Err(fault) => Err(fault),
    }
}

/// The model of a report or the fault in its place.
pub open spec fn report_view(report: Result<DroneEvent, FatalError>) -> Result<
    DroneEventView,
    FatalError,
> {
    match report {
        Ok(event) => Ok(event@),
        Err(fault) => Err(fault),
    }
}

/// The model of a list of actions or the fault in its place.
pub open spec fn reaction_view(reaction: Result<Vec<Action>, FatalError>) -> Result<
    Seq<ActionView>,
    FatalError,
> {
    match reaction {
        Ok(actions) => Ok(actions_view(actions@)),
        Err(fault) => Err(fault),
    }
}

/// The one action as a list, or the fault.
pub open spec fn single(outcome: Result<ActionView, FatalError>) -> Result<
    Seq<ActionView>,
    FatalError,
> {
    match outcome {
        Ok(action) => Ok(seq![action]),
        Err(fault) => Err(fault),
    }
}

/// One copy of `packet` for each of `targets`, in their order.
pub open spec fn fan_out(targets: Seq<NodeId>, packet: PacketView) -> Seq<ActionView> {
    Seq::new(targets.len(), |i: int| ActionView::Deliver { to: targets[i], packet })
}

/// What is reported once the runtime has tried to hand `packet` to its
/// neighbor: that it was sent; or, when the link is closed, that the
/// controller has to deliver it; or a fault, when the controller cannot.
pub open spec fn delivery_report(packet: PacketView, delivered: bool) -> Result<
    DroneEventView,
    FatalError,
> {
    if delivered {
        Ok(DroneEventView::PacketSent(packet))
    } else if packet.can_shortcut() {
        Ok(DroneEventView::ControllerShortcut(packet))
    } else {
        Err(FatalError::Undeliverable)
    }
}

/// The key under which the flood of `request` is remembered.
pub open spec fn flood_key(request: FloodRequestView) -> FloodKey {
    (request.flood_id, request.initiator_id)
}

/// The request with `id` at the end of its path trace: added as a drone
/// unless the trace ends with `id` already.
pub open spec fn visited(request: FloodRequestView, id: NodeId) -> FloodRequestView {
    if request.path_trace.len() > 0 && request.path_trace.last().0 == id {
        request
    } else {
        request.incremented(id, NodeType::Drone)
    }
}

/// One thing that a drone takes: a command or a packet.
pub enum Input<C> {
    Command(DroneCommand<C>),
    Packet(PacketView),
}

/// Model of a drone. `C` is the channel to a neighbor.
pub struct DroneView<C> {
    /// The identity of the drone.
    pub id: NodeId,
    /// Where the drone stands between start and stop.
    pub state: NodeState,
    /// The drop rate in parts of the scale.
    pub drop_rate: nat,
    /// The channel to each neighbor.
    pub neighbors: Map<NodeId, C>,
    /// The floods that the drone has seen: those that it answered or passed
    /// on.
    pub floods: Set<FloodKey>,
}

impl<C> DroneView<C> {
    /// What every drone fulfils: it has finitely many neighbors, and none
    /// once it has stopped.
    pub open spec fn wf(self) -> bool {
        &&& self.neighbors.dom().finite()
        &&& self.state is Terminated ==> self.neighbors.dom().is_empty()
    }

    /// The drone as it starts.
    pub open spec fn init(id: NodeId, neighbors: Map<NodeId, C>, drop_rate: nat) -> DroneView<C> {
        DroneView { id, state: NodeState::Running, drop_rate, neighbors, floods: Set::empty() }
    }

    /// Whether `id` is a neighbor.
    pub open spec fn has_link(self, id: NodeId) -> bool {
        self.neighbors.contains_key(id)
    }

    /// Whether a fragment is dropped when the draw is `draw`.
    pub open spec fn drops(self, draw: u32) -> bool {
        draw < self.drop_rate
    }

    /// The drone after `command`.
    ///
    /// A running drone obeys. A crashing drone only unlinks neighbors, and
    /// stops when the last one is gone. A stopped drone does nothing.
    pub open spec fn after_command(self, command: DroneCommand<C>) -> DroneView<C> {
        match self.state {
            NodeState::Running => match command {
                DroneCommand::AddSender(id, channel) => DroneView {
                    neighbors: self.neighbors.insert(id, channel),
                    ..self
                },
                DroneCommand::RemoveSender(id) => DroneView {
                    neighbors: self.neighbors.remove(id),
                    ..self
                },
                DroneCommand::SetPacketDropRate(rate) => DroneView { drop_rate: rate@, ..self },
                DroneCommand::Crash => DroneView { state: NodeState::Crashing, ..self },
            },
            NodeState::Crashing => match command {
                DroneCommand::RemoveSender(id) => {
                    let neighbors = self.neighbors.remove(id);
                    DroneView {
                        neighbors,
                        state: if neighbors.dom().is_empty() {
                            NodeState::Terminated
                        } else {
                            NodeState::Crashing
                        },
                        ..self
                    }
                },
                _ => self,
            },
            NodeState::Terminated => self,
        }
    }

    /// How `packet` leaves for the node `to`: over the link to `to`; without
    /// a link, through the controller; and where the controller cannot
    /// deliver it either, not at all.
    pub open spec fn dispatch(self, packet: PacketView, to: NodeId) -> Result<
        ActionView,
        FatalError,
    > {
        if self.has_link(to) {
            Ok(ActionView::Deliver { to, packet })
        } else if packet.can_shortcut() {
            Ok(ActionView::Report(DroneEventView::ControllerShortcut(packet)))
        } else {
            Err(FatalError::Undeliverable)
        }
    }

    /// How `packet` goes one hop on along its route.
    pub open spec fn forward(self, packet: PacketView) -> Result<ActionView, FatalError> {
        match packet.routing_header.next_hop() {
            Some(next) => self.dispatch(
                PacketView { routing_header: packet.routing_header.advanced(), ..packet },
                next,
            ),
            None => Err(FatalError::CursorOutOfRange),
        }
    }

    /// The negative acknowledgement that `packet` is answered with.
    pub open spec fn nack_for(self, packet: PacketView, nack_type: NackType) -> PacketView {
        PacketView::nack(
            packet.routing_header.reversed(),
            packet.session_id,
            Nack { fragment_index: packet.fragment_index(), nack_type },
        )
    }

    /// How `packet` is answered with a negative acknowledgement, which goes
    /// back along the hops that the packet came by.
    pub open spec fn refuse(self, packet: PacketView, nack_type: NackType) -> Result<
        ActionView,
        FatalError,
    > {
        if packet.routing_header.current_hop() is None {
            Err(FatalError::CursorOutOfRange)
        } else {
            match packet.routing_header.reversed().current_hop() {
                Some(to) => self.dispatch(self.nack_for(packet, nack_type), to),
                None => Err(FatalError::NoReturnPath),
            }
        }
    }

    /// What a running drone does with a packet that follows a route.
    ///
    /// A packet for another node, a packet that ends here and a packet whose
    /// next hop is no neighbor are refused, in this order. A fragment is then
    /// dropped or forwarded as `draw` decides; any other packet is forwarded.
    pub open spec fn route(self, packet: PacketView, draw: u32) -> Result<
        Seq<ActionView>,
        FatalError,
    > {
        let header = packet.routing_header;
        match header.current_hop() {
            None => Err(FatalError::CursorOutOfRange),
            Some(current) => if current != self.id {
                single(self.refuse(packet, NackType::UnexpectedRecipient(self.id)))
            } else if header.is_last_hop() {
                single(self.refuse(packet, NackType::DestinationIsDrone))
            } else if !self.has_link(header.next_hop().unwrap()) {
                single(self.refuse(packet, NackType::ErrorInRouting(self.id)))
            } else if packet.pack_type is MsgFragment && self.drops(draw) {
                match self.refuse(packet, NackType::Dropped) {
                    Ok(answer) => Ok(
                        seq![ActionView::Report(DroneEventView::PacketDropped(packet)), answer],
                    ),
                    Err(fault) => Err(fault),
                }
            } else {
                single(self.forward(packet))
            },
        }
    }

    /// Whether the drone passes the flood of `request` on: it has not seen
    /// the flood before, and it has more than one neighbor.
    pub open spec fn rebroadcasts(self, request: FloodRequestView) -> bool {
        !self.floods.contains(flood_key(request)) && self.neighbors.dom().len() > 1
    }

    /// The route of the copies of a flood request that came on `header`: the
    /// cursor moves on, and the drone joins the path.
    pub open spec fn flood_route(self, header: Route) -> Route {
        header.advanced().appended(self.id)
    }

    /// The copy of a flood request that the drone passes on.
    pub open spec fn flood_copy(
        self,
        header: Route,
        session_id: u64,
        request: FloodRequestView,
    ) -> PacketView {
        PacketView {
            pack_type: PacketTypeView::FloodRequest(request.incremented(self.id, NodeType::Drone)),
            routing_header: self.flood_route(header),
            session_id,
        }
    }

    /// How a running drone passes the flood of `request` on: one copy to each
    /// neighbor but the one that the request came from, in ascending order.
    pub open spec fn rebroadcast(
        self,
        header: Route,
        session_id: u64,
        request: FloodRequestView,
    ) -> Result<Seq<ActionView>, FatalError> {
        match self.flood_route(header).previous_hop() {
            Some(from) => Ok(
                fan_out(
                    ascending(self.neighbors.dom().remove(from)),
                    self.flood_copy(header, session_id, request),
                ),
            ),
            None => Err(FatalError::CursorOutOfRange),
        }
    }

    /// How a running drone answers the flood of `request` itself.
    pub open spec fn respond(self, session_id: u64, request: FloodRequestView) -> Result<
        ActionView,
        FatalError,
    > {
        let response = visited(request, self.id).response(session_id);
        match response.routing_header.current_hop() {
            Some(to) => self.dispatch(response, to),
            None => Err(FatalError::NoReturnPath),
        }
    }

    /// What a running drone does with a flood request that came on `header`.
    pub open spec fn flood(
        self,
        header: Route,
        session_id: u64,
        request: FloodRequestView,
    ) -> Result<Seq<ActionView>, FatalError> {
        if self.rebroadcasts(request) {
            self.rebroadcast(header, session_id, request)
        } else {
            single(self.respond(session_id, request))
        }
    }

    /// The drone after a flood request that came on `header`: it remembers
    /// the flood, whether it answered the request or passed it on. A request
    /// that ends in a fault leaves no trace.
    pub open spec fn after_flood(
        self,
        header: Route,
        session_id: u64,
        request: FloodRequestView,
    ) -> DroneView<C> {
        if self.flood(header, session_id, request) is Ok {
            DroneView { floods: self.floods.insert(flood_key(request)), ..self }
        } else {
            self
        }
    }

    /// What a crashing drone does with a packet: it loses flood requests,
    /// refuses fragments and forwards the rest.
    pub open spec fn drain(self, packet: PacketView) -> Result<Seq<ActionView>, FatalError> {
        match packet.pack_type {
            PacketTypeView::FloodRequest(_) => Ok(Seq::empty()),
            PacketTypeView::MsgFragment(_) => single(
                self.refuse(packet, NackType::ErrorInRouting(self.id)),
            ),
            _ => single(self.forward(packet)),
        }
    }

    /// What the drone does with `packet` when the draw is `draw`.
    pub open spec fn react(self, packet: PacketView, draw: u32) -> Result<
        Seq<ActionView>,
        FatalError,
    > {
        match self.state {
            NodeState::Running => match packet.pack_type {
                PacketTypeView::FloodRequest(request) => self.flood(
                    packet.routing_header,
                    packet.session_id,
                    request,
                ),
                _ => self.route(packet, draw),
            },
            NodeState::Crashing => self.drain(packet),
            NodeState::Terminated => Ok(Seq::empty()),
        }
    }

    /// The drone after `packet`: a running drone remembers the flood of a
    /// request that it answered or passed on, and nothing else changes.
    pub open spec fn after_packet(self, packet: PacketView) -> DroneView<C> {
        match packet.pack_type {
            PacketTypeView::FloodRequest(request) if self.state is Running => self.after_flood(
                packet.routing_header,
                packet.session_id,
                request,
            ),
            _ => self,
        }
    }

    /// The drone after `input`.
    pub open spec fn after_input(self, input: Input<C>) -> DroneView<C> {
        match input {
            Input::Command(command) => self.after_command(command),
            Input::Packet(packet) => self.after_packet(packet),
        }
    }

    /// The drone after all of `inputs`, taken in order.
    pub open spec fn after_inputs(self, inputs: Seq<Input<C>>) -> DroneView<C>
        decreases inputs.len(),
    {
        if inputs.len() == 0 {
            self
        } else {
            self.after_inputs(inputs.drop_last()).after_input(inputs.last())
        }
    }
}

} // verus!
