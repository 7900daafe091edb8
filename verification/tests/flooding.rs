use ap_project_rustaceans_wit_attitudes::controller::DroneCommand;
use ap_project_rustaceans_wit_attitudes::controller::DroneEvent;
use ap_project_rustaceans_wit_attitudes::drone::RustaceansWitAttitudesDrone;
use ap_project_rustaceans_wit_attitudes::drop_rate::DropRate;
use ap_project_rustaceans_wit_attitudes::flood::FloodLog;
use ap_project_rustaceans_wit_attitudes::neighbors::NeighborTable;
use ap_project_rustaceans_wit_attitudes::network::NodeId;
use ap_project_rustaceans_wit_attitudes::network::SourceRoutingHeader;
use ap_project_rustaceans_wit_attitudes::packet::FloodRequest;
use ap_project_rustaceans_wit_attitudes::packet::FloodResponse;
use ap_project_rustaceans_wit_attitudes::packet::NodeType;
use ap_project_rustaceans_wit_attitudes::packet::Packet;
use ap_project_rustaceans_wit_attitudes::protocol::Action;
use ap_project_rustaceans_wit_attitudes::protocol::FatalError;

const SESSION: u64 = 90;

fn drone(id: NodeId, ids: &[NodeId]) -> RustaceansWitAttitudesDrone<()> {
    let mut table = NeighborTable::new();
    for id in ids {
        table.add(*id, ());
    }
    RustaceansWitAttitudesDrone::new(id, table, DropRate::always())
}

fn header(hops: &[NodeId], hop_index: usize) -> SourceRoutingHeader {
    SourceRoutingHeader::new(hops.to_vec(), hop_index)
}

fn request(
    flood_id: u64,
    initiator_id: NodeId,
    trace: &[(NodeId, NodeType)],
    hops: &[NodeId],
    hop_index: usize,
) -> Packet {
    Packet::new_flood_request(
        header(hops, hop_index),
        SESSION,
        FloodRequest { flood_id, initiator_id, path_trace: trace.to_vec() },
    )
}

fn response(flood_id: u64, trace: &[(NodeId, NodeType)], hops: &[NodeId]) -> Packet {
    Packet::new_flood_response(
        header(hops, 1),
        SESSION,
        FloodResponse { flood_id, path_trace: trace.to_vec() },
    )
}

const CLIENT_1: (NodeId, NodeType) = (1, NodeType::Client);
const DRONE_2: (NodeId, NodeType) = (2, NodeType::Drone);
const DRONE_3: (NodeId, NodeType) = (3, NodeType::Drone);
const DRONE_4: (NodeId, NodeType) = (4, NodeType::Drone);

#[test]
fn first_flood_request_goes_on_to_the_other_neighbor() {
    let mut b = drone(2, &[1, 3]);
    let reaction = b.handle_packet(request(7, 1, &[CLIENT_1], &[1], 0));
    let copy = request(7, 1, &[CLIENT_1, DRONE_2], &[1, 2], 1);
    assert_eq!(reaction, Ok(vec![Action::Deliver { to: 3, packet: copy }]));
    assert!(b.has_seen_flood(7, 1));
}

#[test]
fn flood_request_fans_out_in_ascending_order() {
    let mut d = drone(2, &[40, 1, 9, 3, 200]);
    let reaction = d.handle_packet(request(7, 1, &[CLIENT_1], &[1], 0));
    let copy = request(7, 1, &[CLIENT_1, DRONE_2], &[1, 2], 1);
    assert_eq!(
        reaction,
        Ok(vec![
            Action::Deliver { to: 3, packet: copy.clone() },
            Action::Deliver { to: 9, packet: copy.clone() },
            Action::Deliver { to: 40, packet: copy.clone() },
            Action::Deliver { to: 200, packet: copy },
        ])
    );
}

#[test]
fn flood_request_from_deeper_in_the_network() {
    let mut d = drone(2, &[4, 5, 6]);
    let reaction = d.handle_packet(request(8, 1, &[CLIENT_1, DRONE_4], &[1, 4], 1));
    let copy = request(8, 1, &[CLIENT_1, DRONE_4, DRONE_2], &[1, 4, 2], 2);
    assert_eq!(
        reaction,
        Ok(vec![
            Action::Deliver { to: 5, packet: copy.clone() },
            Action::Deliver { to: 6, packet: copy },
        ])
    );
}

#[test]
fn second_flood_request_is_answered() {
    let mut b = drone(2, &[1, 3]);
    let first = b.handle_packet(request(7, 1, &[CLIENT_1], &[1], 0));
    assert_eq!(first.map(|actions| actions.len()), Ok(1));
    let second = b.handle_packet(request(7, 1, &[CLIENT_1], &[1], 0));
    assert_eq!(
        second,
        Ok(vec![Action::Deliver { to: 1, packet: response(7, &[CLIENT_1, DRONE_2], &[2, 1]) }])
    );
    let third = b.handle_packet(request(7, 1, &[CLIENT_1, DRONE_3], &[1, 3], 1));
    assert_eq!(
        third,
        Ok(vec![Action::Deliver {
            to: 3,
            packet: response(7, &[CLIENT_1, DRONE_3, DRONE_2], &[2, 3, 1]),
        }])
    );
}

#[test]
fn floods_differ_by_identifier_and_by_initiator() {
    let mut b = drone(2, &[1, 3]);
    assert_eq!(b.handle_packet(request(7, 1, &[CLIENT_1], &[1], 0)).map(|a| a.len()), Ok(1));
    assert!(b.has_seen_flood(7, 1));
    assert!(!b.has_seen_flood(8, 1));
    assert!(!b.has_seen_flood(7, 3));
    let other_id = b.handle_packet(request(8, 1, &[CLIENT_1], &[1], 0));
    assert_eq!(
        other_id,
        Ok(vec![Action::Deliver {
            to: 3,
            packet: request(8, 1, &[CLIENT_1, DRONE_2], &[1, 2], 1),
        }])
    );
    let other_initiator = b.handle_packet(request(7, 3, &[(3, NodeType::Server)], &[3], 0));
    assert_eq!(
        other_initiator,
        Ok(vec![Action::Deliver {
            to: 1,
            packet: request(7, 3, &[(3, NodeType::Server), DRONE_2], &[3, 2], 1),
        }])
    );
    assert!(b.has_seen_flood(8, 1));
    assert!(b.has_seen_flood(7, 3));
}

#[test]
fn largest_flood_key_is_told_from_its_neighbors() {
    let mut b = drone(2, &[1, 3]);
    let top = request(u64::MAX, 255, &[(255, NodeType::Client)], &[255], 0);
    assert_eq!(b.handle_packet(top).map(|a| a.len()), Ok(2));
    assert!(b.has_seen_flood(u64::MAX, 255));
    assert!(!b.has_seen_flood(u64::MAX, 254));
    assert!(!b.has_seen_flood(u64::MAX - 1, 255));
    assert!(!b.has_seen_flood(0, 255));
}

#[test]
fn leaf_answers_at_first_sight() {
    let mut d = drone(2, &[1]);
    let reaction = d.handle_packet(request(7, 1, &[CLIENT_1], &[1], 0));
    assert_eq!(
        reaction,
        Ok(vec![Action::Deliver { to: 1, packet: response(7, &[CLIENT_1, DRONE_2], &[2, 1]) }])
    );
    assert!(d.has_seen_flood(7, 1));
}

#[test]
fn leaf_that_gains_a_neighbor_does_not_pass_an_answered_flood_on() {
    let mut d = drone(2, &[1]);
    let answer =
        Ok(vec![Action::Deliver { to: 1, packet: response(7, &[CLIENT_1, DRONE_2], &[2, 1]) }]);
    assert_eq!(d.handle_packet(request(7, 1, &[CLIENT_1], &[1], 0)), answer);
    assert!(d.has_seen_flood(7, 1));
    d.handle_command(DroneCommand::AddSender(3, ()));
    assert_eq!(d.neighbors().len(), 2);
    assert_eq!(d.handle_packet(request(7, 1, &[CLIENT_1], &[1], 0)), answer);
    assert!(d.has_seen_flood(7, 1));
    let fresh = d.handle_packet(request(8, 1, &[CLIENT_1], &[1], 0));
    assert_eq!(
        fresh,
        Ok(vec![Action::Deliver {
            to: 3,
            packet: request(8, 1, &[CLIENT_1, DRONE_2], &[1, 2], 1),
        }])
    );
}

#[test]
fn known_flood_is_answered_after_other_floods_and_commands() {
    let mut d = drone(2, &[1, 3]);
    assert_eq!(d.handle_packet(request(7, 1, &[CLIENT_1], &[1], 0)).map(|a| a.len()), Ok(1));
    assert_eq!(d.handle_packet(request(8, 1, &[CLIENT_1], &[1], 0)).map(|a| a.len()), Ok(1));
    assert_eq!(
        d.handle_packet(request(7, 3, &[(3, NodeType::Server)], &[3], 0)).map(|a| a.len()),
        Ok(1)
    );
    d.handle_command(DroneCommand::AddSender(4, ()));
    d.handle_command(DroneCommand::AddSender(5, ()));
    d.handle_command(DroneCommand::RemoveSender(3));
    let again = d.handle_packet(request(7, 1, &[CLIENT_1], &[1], 0));
    assert_eq!(
        again,
        Ok(vec![Action::Deliver { to: 1, packet: response(7, &[CLIENT_1, DRONE_2], &[2, 1]) }])
    );
    assert!(d.has_seen_flood(7, 1));
    assert!(d.has_seen_flood(8, 1));
    assert!(d.has_seen_flood(7, 3));
    assert!(!d.has_seen_flood(8, 3));
}

#[test]
fn flood_request_that_ends_in_a_fault_is_not_remembered() {
    let mut d = drone(2, &[1]);
    assert_eq!(d.handle_packet(request(7, 1, &[], &[1], 0)), Err(FatalError::NoReturnPath));
    assert!(!d.has_seen_flood(7, 1));
    d.handle_command(DroneCommand::AddSender(3, ()));
    let reaction = d.handle_packet(request(7, 1, &[CLIENT_1], &[1], 0));
    assert_eq!(
        reaction,
        Ok(vec![Action::Deliver {
            to: 3,
            packet: request(7, 1, &[CLIENT_1, DRONE_2], &[1, 2], 1),
        }])
    );
}

#[test]
fn leaf_answers_each_time() {
    let mut d = drone(2, &[1]);
    for _ in 0..3 {
        let reaction = d.handle_packet(request(7, 1, &[CLIENT_1], &[1], 0));
        assert_eq!(
            reaction,
            Ok(vec![Action::Deliver { to: 1, packet: response(7, &[CLIENT_1, DRONE_2], &[2, 1]) }])
        );
    }
}

#[test]
fn drone_without_neighbors_answers_through_the_controller() {
    let mut d = drone(2, &[]);
    let reaction = d.handle_packet(request(7, 1, &[CLIENT_1], &[1], 0));
    assert_eq!(
        reaction,
        Ok(vec![Action::Report(DroneEvent::ControllerShortcut(response(
            7,
            &[CLIENT_1, DRONE_2],
            &[2, 1]
        )))])
    );
}

#[test]
fn answer_does_not_repeat_the_drone_at_the_end_of_the_trace() {
    let mut d = drone(2, &[1]);
    let reaction = d.handle_packet(request(7, 1, &[CLIENT_1, DRONE_2], &[1, 2], 1));
    assert_eq!(
        reaction,
        Ok(vec![Action::Deliver { to: 1, packet: response(7, &[CLIENT_1, DRONE_2], &[2, 1]) }])
    );
}

#[test]
fn answer_to_an_empty_trace_has_nowhere_to_go() {
    let mut d = drone(2, &[1]);
    assert_eq!(d.handle_packet(request(7, 1, &[], &[1], 0)), Err(FatalError::NoReturnPath));
    assert_eq!(d.handle_packet(request(7, 1, &[DRONE_2], &[1], 0)), Err(FatalError::NoReturnPath));
}

#[test]
fn flood_request_with_cursor_off_the_path_is_fatal_and_forgotten() {
    let mut d = drone(2, &[1, 3]);
    assert_eq!(
        d.handle_packet(request(7, 1, &[CLIENT_1], &[1], 2)),
        Err(FatalError::CursorOutOfRange)
    );
    assert!(!d.has_seen_flood(7, 1));
    assert_eq!(d.handle_packet(request(7, 1, &[CLIENT_1], &[1], 0)).map(|a| a.len()), Ok(1));
}

#[test]
fn flood_request_with_cursor_behind_the_path_reaches_every_neighbor() {
    let mut d = drone(2, &[1, 3]);
    let reaction = d.handle_packet(request(7, 1, &[CLIENT_1], &[1], 1));
    let copy = request(7, 1, &[CLIENT_1, DRONE_2], &[1, 2], 2);
    assert_eq!(
        reaction,
        Ok(vec![
            Action::Deliver { to: 1, packet: copy.clone() },
            Action::Deliver { to: 3, packet: copy },
        ])
    );
}

#[test]
fn flooding_ignores_the_route_checks_and_the_loss() {
    let mut d = drone(2, &[1, 3]);
    let reaction = d.handle_packet(request(7, 9, &[(9, NodeType::Client)], &[9], 0));
    assert_eq!(reaction.map(|a| a.len()), Ok(2));
}

#[test]
fn new_neighbor_takes_part_in_the_next_flood() {
    let mut d = drone(2, &[1]);
    d.handle_command(DroneCommand::AddSender(3, ()));
    let reaction = d.handle_packet(request(7, 1, &[CLIENT_1], &[1], 0));
    assert_eq!(
        reaction,
        Ok(vec![Action::Deliver {
            to: 3,
            packet: request(7, 1, &[CLIENT_1, DRONE_2], &[1, 2], 1),
        }])
    );
}

#[test]
fn forward_flood_request_alone_remembers_nothing() {
    let d = drone(2, &[1, 3]);
    let r = FloodRequest { flood_id: 5, initiator_id: 1, path_trace: vec![CLIENT_1] };
    let reaction = d.forward_flood_request(header(&[1], 0), SESSION, r);
    assert_eq!(
        reaction,
        Ok(vec![Action::Deliver {
            to: 3,
            packet: request(5, 1, &[CLIENT_1, DRONE_2], &[1, 2], 1),
        }])
    );
    assert!(!d.has_seen_flood(5, 1));
}

#[test]
fn answer_flood_request_builds_the_response() {
    let d = drone(2, &[1, 3]);
    let r = FloodRequest { flood_id: 5, initiator_id: 1, path_trace: vec![CLIENT_1, DRONE_4] };
    assert_eq!(
        d.answer_flood_request(SESSION, r),
        Ok(Action::Report(DroneEvent::ControllerShortcut(response(
            5,
            &[CLIENT_1, DRONE_4, DRONE_2],
            &[2, 4, 1]
        ))))
    );
}

#[test]
fn flood_log_keeps_what_it_is_given() {
    let mut log = FloodLog::new();
    assert!(!log.contains(0, 0));
    log.record(0, 0);
    assert!(log.contains(0, 0));
    assert!(!log.contains(0, 1));
    assert!(!log.contains(1, 0));
    log.record(1, 0);
    log.record(1, 0);
    log.record(256, 3);
    assert!(log.contains(1, 0));
    assert!(log.contains(256, 3));
    assert!(!log.contains(3, 0));
    assert!(!log.contains(257, 3));
    assert!(log.contains(0, 0));
}
