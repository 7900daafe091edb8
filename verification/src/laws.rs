//! What holds of the protocol, whatever the packets and the commands are.

use vstd::prelude::*;
use crate::controller::DroneCommand;
use crate::controller::DroneEventView;
use crate::drop_rate::DROP_RATE_SCALE;
use crate::network::NodeId;
use crate::network::Route;
use crate::packet::FloodRequestView;
use crate::packet::FloodResponseView;
use crate::packet::NackType;
use crate::packet::PacketTypeView;
use crate::packet::PacketView;
use crate::protocol::flood_key;
use crate::protocol::single;
use crate::protocol::visited;
use crate::protocol::ActionView;
use crate::protocol::DroneView;
use crate::protocol::FatalError;
use crate::protocol::Input;
use crate::protocol::NodeState;

verus! {

/// Reversing a header whose cursor `c` is on the path gives the hops from
/// the sender up to `c` in reverse order and the cursor 1. The return path
/// starts at the node where the packet turned back, and its current hop
/// is the hop before `c`: the node that the answer goes to finds its own
/// identity under the cursor.
pub proof fn lemma_reversal(route: Route)
    requires
        route.hop_index < route.hops.len(),
    ensures
        route.reversed().hops == route.hops.subrange(0, route.hop_index as int + 1).reverse(),
        route.reversed().hop_index == 1,
        route.reversed().hops.len() == route.hop_index + 1,
        forall|k: int|
            0 <= k <= route.hop_index ==> #[trigger] route.reversed().hops[k]
                == route.hops[route.hop_index - k],
        Some(route.reversed().hops[0]) == route.current_hop(),
        route.reversed().current_hop() == route.previous_hop(),
{
}

/// A running drone that holds a fragment on its route, with a link to the
/// next hop, forwards it whatever is drawn when the drop rate is 0: the
/// fragment goes to the next hop with the cursor moved on, and nothing else
/// happens.
pub proof fn lemma_no_loss_forwards<C>(drone: DroneView<C>, packet: PacketView, draw: u32)
    requires
        drone.state is Running,
        packet.pack_type is MsgFragment,
        packet.routing_header.current_hop() == Some(drone.id),
        packet.routing_header.next_hop() is Some,
        drone.has_link(packet.routing_header.next_hop().unwrap()),
        drone.drop_rate == 0,
    ensures
        drone.react(packet, draw) == Ok::<Seq<ActionView>, FatalError>(
            seq![
                ActionView::Deliver {
                    to: packet.routing_header.next_hop().unwrap(),
                    packet: PacketView {
                        routing_header: packet.routing_header.advanced(),
                        ..packet
                    },
                },
            ],
        ),
{
}

/// A running drone that holds a fragment on its route, with a link to the
/// next hop and a hop behind it, never forwards the fragment when the drop
/// rate is 1: it reports the loss, and a negative acknowledgement of type
/// `Dropped` goes back to the previous hop, over the link to it or else
/// through the controller.
pub proof fn lemma_full_loss_drops<C>(drone: DroneView<C>, packet: PacketView, draw: u32)
    requires
        drone.state is Running,
        packet.pack_type is MsgFragment,
        packet.routing_header.current_hop() == Some(drone.id),
        packet.routing_header.next_hop() is Some,
        drone.has_link(packet.routing_header.next_hop().unwrap()),
        packet.routing_header.previous_hop() is Some,
        drone.drop_rate >= DROP_RATE_SCALE,
        draw < DROP_RATE_SCALE,
    ensures
        ({
            let back = packet.routing_header.previous_hop().unwrap();
            let nack = drone.nack_for(packet, NackType::Dropped);
            drone.react(packet, draw) == Ok::<Seq<ActionView>, FatalError>(
                seq![
                    ActionView::Report(DroneEventView::PacketDropped(packet)),
                    if drone.has_link(back) {
                        ActionView::Deliver { to: back, packet: nack }
                    } else {
                        ActionView::Report(DroneEventView::ControllerShortcut(nack))
                    },
                ],
            )
        }),
{
    lemma_reversal(packet.routing_header);
}

/// What is drawn matters only to a fragment that a running drone holds, and
/// only when the drop rate is neither 0 nor 1.
pub proof fn lemma_draw_matters_little<C>(
    drone: DroneView<C>,
    packet: PacketView,
    draw: u32,
    other: u32,
)
    requires
        draw < DROP_RATE_SCALE,
        other < DROP_RATE_SCALE,
        !(drone.state is Running) || !(packet.pack_type is MsgFragment) || drone.drop_rate == 0
            || drone.drop_rate >= DROP_RATE_SCALE,
    ensures
        drone.react(packet, draw) == drone.react(packet, other),
{
}

/// Whether `action` sends a packet on its way: over a link, or through the
/// controller.
pub open spec fn is_outgoing(action: ActionView) -> bool {
    match action {
        ActionView::Deliver { .. } => true,
        ActionView::Report(event) => event is ControllerShortcut,
    }
}

/// A drone that has not stopped answers a packet that follows a route with
/// exactly one outgoing packet. Only the report of a dropped fragment can
/// come before it.
pub proof fn lemma_one_packet_out<C>(drone: DroneView<C>, packet: PacketView, draw: u32)
    requires
        !(drone.state is Terminated),
        !(packet.pack_type is FloodRequest),
        drone.react(packet, draw) is Ok,
    ensures
        ({
            let actions = drone.react(packet, draw).unwrap();
            &&& 1 <= actions.len() <= 2
            &&& is_outgoing(actions.last())
            &&& actions.len() == 2 ==> {
                &&& actions[0] == ActionView::Report(DroneEventView::PacketDropped(packet))
                &&& drone.state is Running
                &&& packet.pack_type is MsgFragment
                &&& drone.drops(draw)
            }
        }),
{
}

/// The answer to a flood request starts at the drone that gives it, holds
/// the whole path trace, and goes to the node that the trace names before
/// the drone.
pub proof fn lemma_response_goes_back(request: FloodRequestView, id: NodeId, session_id: u64)
    ensures
        ({
            let trace = visited(request, id).path_trace;
            let response = visited(request, id).response(session_id);
            &&& trace.len() >= 1
            &&& trace.last().0 == id
            &&& response.pack_type == PacketTypeView::FloodResponse(
                FloodResponseView { flood_id: request.flood_id, path_trace: trace },
            )
            &&& response.session_id == session_id
            &&& response.routing_header.hop_index == 1
            &&& response.routing_header.hops.len() == trace.len()
            &&& response.routing_header.hops[0] == id
            &&& trace.len() >= 2 ==> response.routing_header.current_hop() == Some(
                trace[trace.len() - 2].0,
            )
            &&& trace.len() == 1 ==> response.routing_header.current_hop() is None
        }),
{
}

/// A running drone that has the flood of a request in its memory answers the
/// request itself.
pub proof fn lemma_known_flood_is_answered<C>(drone: DroneView<C>, packet: PacketView, draw: u32)
    requires
        drone.state is Running,
        packet.pack_type matches PacketTypeView::FloodRequest(request) && drone.floods.contains(
            flood_key(request),
        ),
    ensures
        drone.after_packet(packet) == drone,
        packet.pack_type matches PacketTypeView::FloodRequest(request) && drone.react(packet, draw)
            == single(drone.respond(packet.session_id, request)),
{
    let key = flood_key(packet.pack_type->FloodRequest_0);
    assert(drone.floods.insert(key) =~= drone.floods);
}

/// The answer of a drone to a flood request is one flood response, handed to
/// a neighbor or to the controller: no request goes out.
pub proof fn lemma_answer_is_a_response<C>(
    drone: DroneView<C>,
    session_id: u64,
    request: FloodRequestView,
)
    ensures
        match drone.respond(session_id, request) {
            Ok(ActionView::Deliver { to, packet }) => packet.pack_type is FloodResponse
                && drone.has_link(to),
            Ok(ActionView::Report(event)) => event matches DroneEventView::ControllerShortcut(
                packet,
            ) && packet.pack_type is FloodResponse,
            Err(_) => true,
        },
{
}

/// Whether one of `actions` hands a flood request to a neighbor.
pub open spec fn passes_a_flood_on(actions: Seq<ActionView>) -> bool {
    exists|i: int|
        0 <= i < actions.len() && (#[trigger] actions[i] matches ActionView::Deliver { packet, .. }
            && packet.pack_type is FloodRequest)
}

/// A drone that receives the same flood twice in a row does not pass it on
/// the second time, whatever it did with the first request; and if it is
/// running, it answers the second request itself. The second request leaves
/// the drone as it is.
pub proof fn lemma_flood_idempotence<C>(
    drone: DroneView<C>,
    first: PacketView,
    second: PacketView,
    draw: u32,
    other: u32,
)
    requires
        first.pack_type is FloodRequest,
        second.pack_type is FloodRequest,
        flood_key(first.pack_type->FloodRequest_0) == flood_key(second.pack_type->FloodRequest_0),
        drone.react(first, draw) is Ok,
    ensures
        ({
            let later = drone.after_packet(first);
            let request = second.pack_type->FloodRequest_0;
            &&& later.react(second, other) matches Ok(actions) ==> !passes_a_flood_on(actions)
            &&& later.state is Running ==> later.react(second, other) == single(
                later.respond(second.session_id, request),
            )
            &&& later.after_packet(second) == later
        }),
{
    lemma_flood_is_passed_on_once(drone, first, Seq::empty(), second, draw, other);
}

/// A drone that has taken a flood request never passes that flood on
/// afterwards, whatever commands and packets it takes in between, also when
/// it gains neighbors: a running drone answers every later request of the
/// flood itself, and the request leaves the drone as it is.
pub proof fn lemma_flood_is_passed_on_once<C>(
    drone: DroneView<C>,
    first: PacketView,
    inputs: Seq<Input<C>>,
    second: PacketView,
    draw: u32,
    other: u32,
)
    requires
        first.pack_type is FloodRequest,
        second.pack_type is FloodRequest,
        flood_key(first.pack_type->FloodRequest_0) == flood_key(second.pack_type->FloodRequest_0),
        drone.react(first, draw) is Ok,
    ensures
        ({
            let later = drone.after_packet(first).after_inputs(inputs);
            let request = second.pack_type->FloodRequest_0;
            &&& later.react(second, other) matches Ok(actions) ==> !passes_a_flood_on(actions)
            &&& later.state is Running ==> later.floods.contains(flood_key(request))
            &&& later.state is Running ==> later.react(second, other) == single(
                later.respond(second.session_id, request),
            )
            &&& later.after_packet(second) == later
        }),
{
    let taken = drone.after_packet(first);
    let later = taken.after_inputs(inputs);
    let request = second.pack_type->FloodRequest_0;
    if drone.state is Running {
        assert(taken.floods.contains(flood_key(request)));
        lemma_flood_stays_known(taken, inputs, request);
        assert(later.floods.insert(flood_key(request)) =~= later.floods);
    } else {
        lemma_no_way_back(taken, inputs);
    }
    lemma_answer_is_a_response(later, second.session_id, request);
}

/// A drone that is not running never runs again.
pub proof fn lemma_no_way_back<C>(drone: DroneView<C>, inputs: Seq<Input<C>>)
    requires
        !(drone.state is Running),
    ensures
        !(drone.after_inputs(inputs).state is Running),
    decreases inputs.len(),
{
    if inputs.len() > 0 {
        lemma_no_way_back(drone, inputs.drop_last());
    }
}

/// Packets change nothing of a drone but its memory of floods: neighbors
/// come and go, the drop rate changes and the drone crashes by commands
/// only.
pub proof fn lemma_packets_change_only_the_memory<C>(drone: DroneView<C>, packet: PacketView)
    ensures
        drone.after_packet(packet) == (DroneView {
            floods: drone.after_packet(packet).floods,
            ..drone
        }),
{
}

/// No command changes the identity of a drone.
pub proof fn lemma_commands_keep_identity<C>(drone: DroneView<C>, command: DroneCommand<C>)
    ensures
        drone.after_command(command).id == drone.id,
{
}

/// No command and no packet makes a drone forget a flood.
pub proof fn lemma_floods_are_remembered<C>(
    drone: DroneView<C>,
    command: DroneCommand<C>,
    packet: PacketView,
)
    ensures
        drone.floods == drone.after_command(command).floods,
        drone.floods.subset_of(drone.after_packet(packet).floods),
{
}

/// A running drone with at most one neighbor answers a flood request
/// itself, also the first time, and remembers the flood that it answered.
pub proof fn lemma_leaf_answers<C>(drone: DroneView<C>, packet: PacketView, draw: u32)
    requires
        drone.state is Running,
        drone.neighbors.dom().len() <= 1,
        packet.pack_type is FloodRequest,
    ensures
        drone.react(packet, draw) == single(
            drone.respond(packet.session_id, packet.pack_type->FloodRequest_0),
        ),
        drone.react(packet, draw) is Ok ==> drone.after_packet(packet).floods
            == drone.floods.insert(flood_key(packet.pack_type->FloodRequest_0)),
        drone.react(packet, draw) is Err ==> drone.after_packet(packet) == drone,
{
}

/// A running drone that passes a flood request on sends no copy to the node
/// that the request came from, and one copy to each other neighbor.
pub proof fn lemma_flood_spares_the_sender<C>(
    drone: DroneView<C>,
    header: Route,
    session_id: u64,
    request: FloodRequestView,
)
    requires
        drone.rebroadcast(header, session_id, request) is Ok,
    ensures
        ({
            let copies = drone.rebroadcast(header, session_id, request).unwrap();
            let from = drone.flood_route(header).previous_hop().unwrap();
            &&& forall|i: int|
                0 <= i < copies.len() ==> (#[trigger] copies[i] matches ActionView::Deliver {
                    to,
                    packet,
                } && to != from && drone.has_link(to) && packet == drone.flood_copy(
                    header,
                    session_id,
                    request,
                ))
            &&& forall|id: NodeId|
                drone.has_link(id) && id != from ==> exists|i: int|
                    0 <= i < copies.len() && #[trigger] copies[i] == (ActionView::Deliver {
                        to: id,
                        packet: drone.flood_copy(header, session_id, request),
                    })
            &&& forall|i: int, j: int|
                0 <= i < j < copies.len() ==> (#[trigger] copies[i])->to < (
                #[trigger] copies[j])->to
        }),
{
    let from = drone.flood_route(header).previous_hop().unwrap();
    let targets = crate::neighbors::ascending(drone.neighbors.dom().remove(from));
    let copies = drone.rebroadcast(header, session_id, request).unwrap();
    crate::neighbors::lemma_ascending(drone.neighbors.dom().remove(from));
    assert forall|i: int| 0 <= i < copies.len() implies (
    #[trigger] copies[i] matches ActionView::Deliver { to, packet } && to != from
        && drone.has_link(to) && packet == drone.flood_copy(header, session_id, request)) by {
        assert(targets.contains(targets[i]));
    }
    assert forall|id: NodeId| drone.has_link(id) && id != from implies exists|i: int|
        0 <= i < copies.len() && #[trigger] copies[i] == (ActionView::Deliver {
            to: id,
            packet: drone.flood_copy(header, session_id, request),
        }) by {
        assert(targets.contains(id));
        let at = choose|at: int| 0 <= at < targets.len() && targets[at] == id;
        assert(copies[at] == (ActionView::Deliver {
            to: id,
            packet: drone.flood_copy(header, session_id, request),
        }));
    }
}

/// A running drone with more than one neighbor passes a flood on when it
/// sees it for the first time: at least one copy goes out, and the drone
/// remembers the flood.
pub proof fn lemma_first_flood_is_passed_on<C>(drone: DroneView<C>, packet: PacketView, draw: u32)
    requires
        drone.wf(),
        drone.state is Running,
        packet.pack_type is FloodRequest,
        !drone.floods.contains(flood_key(packet.pack_type->FloodRequest_0)),
        drone.neighbors.dom().len() > 1,
        drone.react(packet, draw) is Ok,
    ensures
        drone.react(packet, draw) == drone.rebroadcast(
            packet.routing_header,
            packet.session_id,
            packet.pack_type->FloodRequest_0,
        ),
        passes_a_flood_on(drone.react(packet, draw).unwrap()),
        drone.after_packet(packet).floods.contains(flood_key(packet.pack_type->FloodRequest_0)),
{
    let request = packet.pack_type->FloodRequest_0;
    let copies = drone.react(packet, draw).unwrap();
    let from = drone.flood_route(packet.routing_header).previous_hop().unwrap();
    let others = drone.neighbors.dom().remove(from);
    assert(others.finite() && others.len() >= 1);
    let id = others.choose();
    assert(others.contains(id));
    assert(drone.has_link(id) && id != from);
    lemma_flood_spares_the_sender(drone, packet.routing_header, packet.session_id, request);
    let at = choose|at: int|
        0 <= at < copies.len() && #[trigger] copies[at] == (ActionView::Deliver {
            to: id,
            packet: drone.flood_copy(packet.routing_header, packet.session_id, request),
        });
    assert(copies[at] matches ActionView::Deliver { packet, .. }
        && packet.pack_type is FloodRequest);
}

/// A crashing drone loses every flood request without a word, forwards
/// every acknowledgement, negative acknowledgement and flood response along
/// its route, and refuses every fragment whatever the drop rate is. No
/// packet changes the drone: it stays crashing, with the same neighbors.
pub proof fn lemma_crashing_drains<C>(drone: DroneView<C>, packet: PacketView, draw: u32)
    requires
        drone.state is Crashing,
    ensures
        drone.after_packet(packet) == drone,
        packet.pack_type is FloodRequest ==> drone.react(packet, draw) == Ok::<
            Seq<ActionView>,
            FatalError,
        >(Seq::empty()),
        packet.can_shortcut() ==> drone.react(packet, draw) == single(drone.forward(packet)),
        packet.pack_type is MsgFragment ==> drone.react(packet, draw) == single(
            drone.refuse(packet, NackType::ErrorInRouting(drone.id)),
        ),
{
}

/// A crashing drone stops exactly when a command takes its last neighbor
/// away; before that it stays crashing.
pub proof fn lemma_crashing_stops_when_alone<C>(drone: DroneView<C>, command: DroneCommand<C>)
    requires
        drone.state is Crashing,
    ensures
        drone.after_command(command).state is Terminated <==> (
        command matches DroneCommand::RemoveSender(id) && drone.neighbors.remove(
            id,
        ).dom().is_empty()),
        !(drone.after_command(command).state is Terminated) ==> drone.after_command(
            command,
        ).state is Crashing,
        drone.after_command(command).state is Terminated ==> drone.after_command(
            command,
        ).neighbors.dom().is_empty(),
{
}

/// A running drone stops on no command and on no packet: the only way to
/// the end leads through crashing.
pub proof fn lemma_running_does_not_stop<C>(
    drone: DroneView<C>,
    command: DroneCommand<C>,
    packet: PacketView,
)
    requires
        drone.state is Running,
    ensures
        !(drone.after_command(command).state is Terminated),
        drone.after_command(command).state is Crashing <==> command is Crash,
        drone.after_packet(packet).state is Running,
{
}

/// A stopped drone stays as it is and answers nothing.
pub proof fn lemma_terminated_is_final<C>(
    drone: DroneView<C>,
    command: DroneCommand<C>,
    packet: PacketView,
    draw: u32,
)
    requires
        drone.state is Terminated,
    ensures
        drone.after_command(command) == drone,
        drone.after_packet(packet) == drone,
        drone.react(packet, draw) == Ok::<Seq<ActionView>, FatalError>(Seq::empty()),
{
}

/// Commands and packets keep a drone well formed: it has finitely many
/// neighbors, and none once it has stopped.
pub proof fn lemma_steps_keep_wf<C>(
    drone: DroneView<C>,
    command: DroneCommand<C>,
    packet: PacketView,
)
    requires
        drone.wf(),
    ensures
        drone.after_command(command).wf(),
        drone.after_packet(packet).wf(),
{
}

/// Whatever goes out over a link goes to a neighbor.
pub proof fn lemma_deliveries_go_to_neighbors<C>(
    drone: DroneView<C>,
    packet: PacketView,
    draw: u32,
)
    requires
        drone.react(packet, draw) is Ok,
    ensures
        forall|i: int|
            0 <= i < drone.react(packet, draw).unwrap().len() ==> (
            #[trigger] drone.react(packet, draw).unwrap()[i] matches ActionView::Deliver { to, .. }
                ==> drone.has_link(to)),
{
    if drone.state is Running && packet.pack_type is FloodRequest {
        let request = packet.pack_type->FloodRequest_0;
        if drone.rebroadcasts(request) {
            lemma_flood_spares_the_sender(
                drone,
                packet.routing_header,
                packet.session_id,
                request,
            );
        }
    }
}

/// However many commands and packets a well-formed drone takes, it stays
/// well formed.
pub proof fn lemma_inputs_keep_wf<C>(drone: DroneView<C>, inputs: Seq<Input<C>>)
    requires
        drone.wf(),
    ensures
        drone.after_inputs(inputs).wf(),
    decreases inputs.len(),
{
    if inputs.len() > 0 {
        lemma_inputs_keep_wf(drone, inputs.drop_last());
    }
}

/// Once a drone has a flood in its memory, it keeps it, whatever it takes
/// afterwards: it will not pass that flood on again.
pub proof fn lemma_flood_stays_known<C>(
    drone: DroneView<C>,
    inputs: Seq<Input<C>>,
    request: FloodRequestView,
)
    requires
        drone.floods.contains(flood_key(request)),
    ensures
        drone.after_inputs(inputs).floods.contains(flood_key(request)),
        !drone.after_inputs(inputs).rebroadcasts(request),
    decreases inputs.len(),
{
    if inputs.len() > 0 {
        lemma_flood_stays_known(drone, inputs.drop_last(), request);
    }
}

/// A crashing drone never runs again: whatever it takes, it is crashing or
/// has stopped, and it gains no neighbor.
pub proof fn lemma_crashing_winds_down<C>(drone: DroneView<C>, inputs: Seq<Input<C>>)
    requires
        drone.state is Crashing,
    ensures
        !(drone.after_inputs(inputs).state is Running),
        drone.after_inputs(inputs).neighbors.dom().subset_of(drone.neighbors.dom()),
    decreases inputs.len(),
{
    if inputs.len() > 0 {
        lemma_crashing_winds_down(drone, inputs.drop_last());
    }
}

/// Packets alone leave a crashing drone as it is, however many they are.
pub proof fn lemma_packets_leave_crashing_drone<C>(drone: DroneView<C>, inputs: Seq<Input<C>>)
    requires
        drone.state is Crashing,
        forall|k: int| 0 <= k < inputs.len() ==> inputs[k] is Packet,
    ensures
        drone.after_inputs(inputs) == drone,
    decreases inputs.len(),
{
    if inputs.len() > 0 {
        lemma_packets_leave_crashing_drone(drone, inputs.drop_last());
    }
}

/// Whether input `k` of `inputs` is the command to unlink a neighbor and
/// leaves the drone, which took the inputs up to it, without any neighbor.
pub open spec fn left_alone_at<C>(drone: DroneView<C>, inputs: Seq<Input<C>>, k: int) -> bool {
    &&& 0 <= k < inputs.len()
    &&& inputs[k] is Command
    &&& inputs[k]->Command_0 is RemoveSender
    &&& drone.after_inputs(inputs.take(k + 1)).neighbors.dom().is_empty()
}

/// A crashing drone has stopped after `inputs` if and only if one of them
/// was the command to unlink a neighbor that left the drone without any.
pub proof fn lemma_crash_ends_when_alone<C>(drone: DroneView<C>, inputs: Seq<Input<C>>)
    requires
        drone.state is Crashing,
    ensures
        drone.after_inputs(inputs).state is Terminated <==> exists|k: int|
            left_alone_at(drone, inputs, k),
    decreases inputs.len(),
{
    if inputs.len() > 0 {
        let before = inputs.drop_last();
        let count = before.len() as int;
        lemma_crash_ends_when_alone(drone, before);
        lemma_crashing_winds_down(drone, before);
        assert(inputs.take(count + 1) =~= inputs);
        let middle = drone.after_inputs(before);
        if middle.state is Terminated {
            let k = choose|k: int| left_alone_at(drone, before, k);
            assert(before.take(k + 1) =~= inputs.take(k + 1));
            assert(left_alone_at(drone, inputs, k));
            lemma_terminated_stays(middle, inputs.last());
        } else {
            if drone.after_inputs(inputs).state is Terminated {
                assert(left_alone_at(drone, inputs, count));
            }
            if exists|k: int| left_alone_at(drone, inputs, k) {
                let k = choose|k: int| left_alone_at(drone, inputs, k);
                if k < count {
                    assert(before.take(k + 1) =~= inputs.take(k + 1));
                    assert(left_alone_at(drone, before, k));
                }
            }
        }
    }
}

/// A stopped drone is not moved by any input.
proof fn lemma_terminated_stays<C>(drone: DroneView<C>, input: Input<C>)
    requires
        drone.state is Terminated,
    ensures
        drone.after_input(input) == drone,
{
}

} // verus!
