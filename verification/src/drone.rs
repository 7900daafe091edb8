//! The drone: the state machine of [`crate::protocol`] in executable form.

use vstd::prelude::*;
use crate::controller::DroneCommand;
use crate::controller::DroneEvent;
use crate::controller::DroneEventView;
use crate::drop_rate::draw;
use crate::drop_rate::DropRate;
use crate::drop_rate::DROP_RATE_SCALE;
use crate::flood::FloodLog;
use crate::neighbors::NeighborTable;
use crate::network::NodeId;
use crate::network::SourceRoutingHeader;
use crate::packet::FloodRequest;
use crate::packet::Nack;
use crate::packet::NackType;
use crate::packet::NodeType;
use crate::packet::Packet;
use crate::packet::PacketType;
use crate::protocol::actions_view;
use crate::protocol::delivery_report;
use crate::protocol::fan_out;
use crate::protocol::outcome_view;
use crate::protocol::reaction_view;
use crate::protocol::report_view;
use crate::protocol::single;
use crate::protocol::Action;
use crate::protocol::ActionView;
use crate::protocol::DroneView;
use crate::protocol::FatalError;
use crate::protocol::NodeState;

verus! {

/// One drone of the network. `C` is the channel to a neighbor: the drone
/// keeps the channels for the runtime and never sends on them itself.
pub struct RustaceansWitAttitudesDrone<C> {
    id: NodeId,
    pdr: DropRate,
    packet_send: NeighborTable<C>,
    flood_initiators: FloodLog,
    state: NodeState,
}

impl<C> View for RustaceansWitAttitudesDrone<C> {
    type V = DroneView<C>;

    closed spec fn view(&self) -> DroneView<C> {
        DroneView {
            id: self.id,
            state: self.state,
            drop_rate: self.pdr@,
            neighbors: self.packet_send@,
            floods: self.flood_initiators@,
        }
    }
}

/// The one action as a list, or the fault.
fn one(outcome: Result<Action, FatalError>) -> (reaction: Result<Vec<Action>, FatalError>)
    ensures
        reaction_view(reaction) == single(outcome_view(outcome)),
{
    match outcome {
        Ok(action) => {
            let mut actions: Vec<Action> = Vec::new();
            actions.push(action);
            assert(actions_view(actions@) =~= seq![action@]);
            Ok(actions)
        },
        Err(fault) => Err(fault),
    }
}

/// What to report once the runtime has tried to hand `packet` to its
/// neighbor, `delivered` telling whether the neighbor took it.
pub fn report_delivery(packet: Packet, delivered: bool) -> (report: Result<DroneEvent, FatalError>)
    ensures
        report_view(report) == delivery_report(packet@, delivered),
{
    if delivered {
        Ok(DroneEvent::PacketSent(packet))
    } else if packet.can_shortcut() {
        Ok(DroneEvent::ControllerShortcut(packet))
    } else {
        Err(FatalError::Undeliverable)
    }
}

impl<C> RustaceansWitAttitudesDrone<C> {
    /// A running drone `id` with the neighbors `packet_send` and the drop
    /// rate `pdr`, which has seen no flood.
    pub fn new(id: NodeId, packet_send: NeighborTable<C>, pdr: DropRate) -> (drone: Self)
        ensures
            drone@ == DroneView::init(id, packet_send@, pdr@),
            drone@.wf(),
    {
        proof {
            packet_send.lemma_finite();
        }
        RustaceansWitAttitudesDrone {
            id,
            pdr,
            packet_send,
            flood_initiators: FloodLog::new(),
            state: NodeState::Running,
        }
    }

    /// The identity of the drone.
    pub fn id(&self) -> (id: NodeId)
        ensures
            id == self@.id,
    {
        self.id
    }

    /// Where the drone stands between start and stop.
    pub fn state(&self) -> (state: NodeState)
        ensures
            state == self@.state,
    {
        self.state
    }

    /// Whether the drone has stopped for good.
    pub fn is_terminated(&self) -> (stopped: bool)
        ensures
            stopped == (self@.state is Terminated),
    {
        match self.state {
            NodeState::Terminated => true,
            _ => false,
        }
    }

    /// The drop rate of the drone.
    pub fn drop_rate(&self) -> (rate: DropRate)
        ensures
            rate@ == self@.drop_rate,
    {
        self.pdr
    }

    /// The neighbors of the drone and the channels to them.
    pub fn neighbors(&self) -> (table: &NeighborTable<C>)
        ensures
            table@ == self@.neighbors,
    {
        &self.packet_send
    }

    /// Whether the drone has seen the flood `flood_id` of `initiator_id`:
    /// whether it has answered it or passed it on.
    pub fn has_seen_flood(&self, flood_id: u64, initiator_id: NodeId) -> (seen: bool)
        ensures
            seen == self@.floods.contains((flood_id, initiator_id)),
    {
        self.flood_initiators.contains(flood_id, initiator_id)
    }

    /// Takes one command of the controller.
    pub fn handle_command(&mut self, command: DroneCommand<C>)
        ensures
            final(self)@ == old(self)@.after_command(command),
            old(self)@.wf() ==> final(self)@.wf(),
    {
        match self.state {
            NodeState::Running => match command {
                DroneCommand::SetPacketDropRate(pdr) => {
                    self.pdr = pdr;
                },
                DroneCommand::Crash => {
                    self.crash();
                },
                DroneCommand::AddSender(id, sender) => {
                    self.add_sender(id, sender);
                },
                DroneCommand::RemoveSender(id) => {
                    self.remove_sender(id);
                },
            },
            NodeState::Crashing => {
                self.drain_command(command);
            },
            NodeState::Terminated => {},
        }
    }

    /// Takes a command as a crashing drone: only unlinks a neighbor, and
    /// stops when the last one is gone.
    fn drain_command(&mut self, command: DroneCommand<C>)
        requires
            old(self)@.state is Crashing,
        ensures
            final(self)@ == old(self)@.after_command(command),
    {
        match command {
            DroneCommand::RemoveSender(id) => {
                self.remove_sender(id);
                if self.packet_send.is_empty() {
                    self.state = NodeState::Terminated;
                }
            },
            _ => {},
        }
    }

    /// Starts to leave the network.
    fn crash(&mut self)
        ensures
            final(self)@ == (DroneView { state: NodeState::Crashing, ..old(self)@ }),
    {
        self.state = NodeState::Crashing;
    }

    /// Links the neighbor `id` through `sender`.
    fn add_sender(&mut self, id: NodeId, sender: C)
        ensures
            final(self)@ == (DroneView {
                neighbors: old(self)@.neighbors.insert(id, sender),
                ..old(self)@
            }),
    {
        self.packet_send.add(id, sender);
    }

    /// Unlinks the neighbor `id`.
    fn remove_sender(&mut self, id: NodeId)
        ensures
            final(self)@ == (DroneView {
                neighbors: old(self)@.neighbors.remove(id),
                ..old(self)@
            }),
    {
        self.packet_send.remove(id);
    }

    /// Decides how `p` leaves for `next_node_id`: over the link, or without
    /// one through the controller, or not at all.
    pub fn try_send_packet(&self, p: Packet, next_node_id: NodeId) -> (outcome: Result<
        Action,
        FatalError,
    >)
        ensures
            outcome_view(outcome) == self@.dispatch(p@, next_node_id),
    {
        if self.packet_send.contains(next_node_id) {
            Ok(Action::Deliver { to: next_node_id, packet: p })
        } else if p.can_shortcut() {
            Ok(Action::Report(DroneEvent::ControllerShortcut(p)))
        } else {
            Err(FatalError::Undeliverable)
        }
    }

    /// Moves `packet` one hop on along its route.
    pub fn forward_packet(&self, packet: Packet) -> (outcome: Result<Action, FatalError>)
        ensures
            outcome_view(outcome) == self@.forward(packet@),
    {
        let mut packet = packet;
        match packet.routing_header.next_hop() {
            Some(next) => {
                assert(packet.routing_header.hops.len() <= usize::MAX);
                packet.routing_header.increase_hop_index();
                self.try_send_packet(packet, next)
            },
            None => Err(FatalError::CursorOutOfRange),
        }
    }

    /// Answers `packet` with a negative acknowledgement of type `nack_type`.
    pub fn send_nack(&self, packet: &Packet, nack_type: NackType) -> (outcome: Result<
        Action,
        FatalError,
    >)
        ensures
            outcome_view(outcome) == self@.refuse(packet@, nack_type),
    {
        match packet.routing_header.reversed() {
            Some(back) => match back.current_hop() {
                Some(to) => {
                    let nack = Nack { fragment_index: packet.get_fragment_index(), nack_type };
                    self.try_send_packet(Packet::new_nack(back, packet.session_id, nack), to)
                },
                None => Err(FatalError::NoReturnPath),
            },
            None => Err(FatalError::CursorOutOfRange),
        }
    }

    /// Passes a flood request on to every neighbor but the one it came from.
    pub fn forward_flood_request(
        &self,
        routing_header: SourceRoutingHeader,
        session_id: u64,
        flood_request: FloodRequest,
    ) -> (reaction: Result<Vec<Action>, FatalError>)
        ensures
            reaction_view(reaction) == self@.rebroadcast(
                routing_header@,
                session_id,
                flood_request@,
            ),
    {
        let mut route = routing_header;
        let mut request = flood_request;
        if route.hop_index > route.hops.len() {
            return Err(FatalError::CursorOutOfRange);
        }
        route.append_hop(self.id);
        assert(route.hops.len() <= usize::MAX);
        route.increase_hop_index();
        let from: NodeId = route.hops[route.hop_index - 1];
        request.increment(self.id, NodeType::Drone);
        let copy = Packet::new_flood_request(route, session_id, request);
        let targets = self.packet_send.others(from);
        let mut actions: Vec<Action> = Vec::new();
        let mut done: usize = 0;
        while done < targets.len()
            invariant
                done <= targets.len(),
                actions@.len() == done,
                forall|k: int|
                    0 <= k < done ==> actions@[k]@ == (ActionView::Deliver {
                        to: targets@[k],
                        packet: copy@,
                    }),
            decreases targets.len() - done,
        {
            actions.push(Action::Deliver { to: targets[done], packet: copy.clone() });
            done = done + 1;
        }
        assert(actions_view(actions@) =~= fan_out(targets@, copy@));
        Ok(actions)
    }

    /// Answers a flood request with the path that it came by.
    pub fn answer_flood_request(&self, session_id: u64, flood_request: FloodRequest) -> (outcome:
        Result<Action, FatalError>)
        ensures
            outcome_view(outcome) == self@.respond(session_id, flood_request@),
    {
        let mut request = flood_request;
        let count: usize = request.path_trace.len();
        if count == 0 || request.path_trace[count - 1].0 != self.id {
            request.increment(self.id, NodeType::Drone);
        }
        let response = request.generate_response(session_id);
        match response.routing_header.current_hop() {
            Some(to) => self.try_send_packet(response, to),
            None => Err(FatalError::NoReturnPath),
        }
    }

    /// Takes a flood request as a running drone: passes it on the first
    /// time, if there is more than one neighbor, and answers it otherwise.
    /// Either way the drone remembers the flood, unless the request ends in
    /// a fault.
    pub fn handle_flood_request(
        &mut self,
        routing_header: SourceRoutingHeader,
        session_id: u64,
        flood_request: FloodRequest,
    ) -> (reaction: Result<Vec<Action>, FatalError>)
        ensures
            reaction_view(reaction) == old(self)@.flood(
                routing_header@,
                session_id,
                flood_request@,
            ),
            final(self)@ == old(self)@.after_flood(routing_header@, session_id, flood_request@),
            old(self)@.wf() ==> final(self)@.wf(),
    {
        let flood_id: u64 = flood_request.flood_id;
        let initiator_id: NodeId = flood_request.initiator_id;
        let reaction = if !self.flood_initiators.contains(flood_id, initiator_id)
            && self.packet_send.len() > 1 {
            self.forward_flood_request(routing_header, session_id, flood_request)
        } else {
            one(self.answer_flood_request(session_id, flood_request))
        };
        if reaction.is_ok() {
            self.flood_initiators.record(flood_id, initiator_id);
        }
        reaction
    }

    /// Takes a packet that follows a route, as a running drone.
    pub fn route_packet(&self, packet: Packet, draw: u32) -> (reaction: Result<
        Vec<Action>,
        FatalError,
    >)
        ensures
            reaction_view(reaction) == self@.route(packet@, draw),
    {
        match packet.routing_header.current_hop() {
            None => Err(FatalError::CursorOutOfRange),
            Some(current) => {
                if current != self.id {
                    return one(self.send_nack(&packet, NackType::UnexpectedRecipient(self.id)));
                }
                match packet.routing_header.next_hop() {
                    None => one(self.send_nack(&packet, NackType::DestinationIsDrone)),
                    Some(next) => {
                        if !self.packet_send.contains(next) {
                            return one(
                                self.send_nack(&packet, NackType::ErrorInRouting(self.id)),
                            );
                        }
                        let fragment = match &packet.pack_type {
                            PacketType::MsgFragment(_) => true,
                            _ => false,
                        };
                        if fragment && self.pdr.is_dropped(draw) {
                            match self.send_nack(&packet, NackType::Dropped) {
                                Ok(answer) => {
                                    let mut actions: Vec<Action> = Vec::new();
                                    let ghost lost = packet@;
                                    actions.push(Action::Report(DroneEvent::PacketDropped(packet)));
                                    actions.push(answer);
                                    assert(actions_view(actions@) =~= seq![
                                        ActionView::Report(
                                            DroneEventView::PacketDropped(lost),
                                        ),
                                        answer@,
                                    ]);
                                    Ok(actions)
                                },
                                Err(fault) => Err(fault),
                            }
                        } else {
                            one(self.forward_packet(packet))
                        }
                    },
                }
            },
        }
    }

    /// Takes a packet as a crashing drone.
    pub fn drain_packet(&self, packet: Packet) -> (reaction: Result<Vec<Action>, FatalError>)
        ensures
            reaction_view(reaction) == self@.drain(packet@),
    {
        match &packet.pack_type {
            PacketType::FloodRequest(_) => {
                let actions: Vec<Action> = Vec::new();
                assert(actions_view(actions@) =~= Seq::empty());
                Ok(actions)
            },
            PacketType::MsgFragment(_) => one(
                self.send_nack(&packet, NackType::ErrorInRouting(self.id)),
            ),
            _ => one(self.forward_packet(packet)),
        }
    }

    /// Takes one packet, `draw` deciding whether a fragment is dropped.
    ///
    /// The answer lists what the runtime has to do, in order. After each
    /// delivery that it tries, [`report_delivery`] says what to report.
    pub fn handle_packet_with_draw(&mut self, packet: Packet, draw: u32) -> (reaction: Result<
        Vec<Action>,
        FatalError,
    >)
        ensures
            reaction_view(reaction) == old(self)@.react(packet@, draw),
            final(self)@ == old(self)@.after_packet(packet@),
            old(self)@.wf() ==> final(self)@.wf(),
    {
        match self.state {
            NodeState::Running => {
                let Packet { pack_type, routing_header, session_id } = packet;
                match pack_type {
                    PacketType::FloodRequest(request) => self.handle_flood_request(
                        routing_header,
                        session_id,
                        request,
                    ),
                    other => self.route_packet(
                        Packet { pack_type: other, routing_header, session_id },
                        draw,
                    ),
                }
            },
            NodeState::Crashing => self.drain_packet(packet),
            NodeState::Terminated => {
                let actions: Vec<Action> = Vec::new();
                assert(actions_view(actions@) =~= Seq::empty());
                Ok(actions)
            },
        }
    }

    /// Takes one packet. Where a running drone may drop a fragment, a number
    /// drawn at random decides; at the drop rates 0 and 1, and for any other
    /// packet, the answer does not depend on the number.
    pub fn handle_packet(&mut self, packet: Packet) -> (reaction: Result<Vec<Action>, FatalError>)
        ensures
            exists|draw: u32|
                draw < DROP_RATE_SCALE && reaction_view(reaction) == #[trigger] old(self)@.react(
                    packet@,
                    draw,
                ),
            !(old(self)@.state is Running) || !(packet@.pack_type is MsgFragment) || old(
                self,
            )@.drop_rate == 0 || old(self)@.drop_rate >= DROP_RATE_SCALE ==> reaction_view(
                reaction,
            ) == old(self)@.react(packet@, 0),
            final(self)@ == old(self)@.after_packet(packet@),
            old(self)@.wf() ==> final(self)@.wf(),
    {
        let at_stake = match (self.state, &packet.pack_type) {
            (NodeState::Running, PacketType::MsgFragment(_)) => true,
            _ => false,
        };
        let draw: u32 = if at_stake {
            draw()
        } else {
            0
        };
        self.handle_packet_with_draw(packet, draw)
    }
}

} // verus!
