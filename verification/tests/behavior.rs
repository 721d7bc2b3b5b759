use rust_roveri::action::{Action, Outbox};
use rust_roveri::controller::{CommandOutcome, DroneCommand, DroneEvent};
use rust_roveri::fault::{prefix_text, Fault};
use rust_roveri::network::{NodeId, SourceRoutingHeader};
use rust_roveri::packet::{
    Ack, FloodRequest, FloodResponse, Fragment, Nack, NackType, NodeType, Packet, PacketType,
    FRAGMENT_DSIZE,
};
use rust_roveri::rate::Rate;
use rust_roveri::run::{Incoming, Step};
use rust_roveri::RustRoveri;
use std::collections::HashMap;

fn rate(number: f32) -> Rate {
    Rate::from_bits(number.to_bits())
}

/// A drone whose senders are numbers.
fn drone(id: NodeId, neighbors: &[NodeId], pdr: f32) -> RustRoveri<u32> {
    let packet_send = neighbors.iter().map(|n| (*n, 1000 + u32::from(*n))).collect();
    RustRoveri::new(id, packet_send, rate(pdr))
}

fn header(hops: &[NodeId], hop_index: usize) -> SourceRoutingHeader {
    SourceRoutingHeader { hop_index, hops: hops.to_vec() }
}

fn fragment() -> Fragment {
    Fragment { fragment_index: 7, total_n_fragments: 9, length: 3, data: [5; FRAGMENT_DSIZE] }
}

fn packet(hops: &[NodeId], hop_index: usize, pack_type: PacketType) -> Packet {
    Packet { routing_header: header(hops, hop_index), session_id: 42, pack_type }
}

fn fragment_packet(hops: &[NodeId], hop_index: usize) -> Packet {
    packet(hops, hop_index, PacketType::MsgFragment(fragment()))
}

fn ack_packet(hops: &[NodeId], hop_index: usize) -> Packet {
    packet(hops, hop_index, PacketType::Ack(Ack { fragment_index: 7 }))
}

fn nack_packet(hops: &[NodeId], hop_index: usize, index: u64, nack_type: NackType) -> Packet {
    packet(hops, hop_index, PacketType::Nack(Nack { fragment_index: index, nack_type }))
}

fn response_packet(hops: &[NodeId], hop_index: usize) -> Packet {
    let path_trace = vec![(4, NodeType::Client), (5, NodeType::Server)];
    packet(hops, hop_index, PacketType::FloodResponse(FloodResponse { flood_id: 6, path_trace }))
}

fn request_packet(flood_id: u64, trace: &[NodeId]) -> Packet {
    let path_trace = trace.iter().map(|n| (*n, NodeType::Client)).collect();
    packet(
        &[],
        0,
        PacketType::FloodRequest(FloodRequest { flood_id, initiator_id: 4, path_trace }),
    )
}

fn act(drone: &mut RustRoveri<u32>, packet: Packet, draw: f32) -> Vec<Action> {
    match drone.step(Incoming::Packet(packet, rate(draw))) {
        Step::Act(actions) => actions,
        step => panic!("{:?}", step),
    }
}

fn sent(to: NodeId, packet: Packet) -> Vec<Action> {
    vec![
        Action::Deliver(to, packet.clone()),
        Action::Report(DroneEvent::PacketSent(packet)),
    ]
}

fn shortcut(packet: Packet) -> Action {
    Action::Report(DroneEvent::ControllerShortcut(packet))
}

fn lost(packet: Packet) -> Action {
    Action::Report(DroneEvent::PacketDropped(packet))
}

#[test]
fn every_kind_of_packet_is_passed_on_unchanged() {
    let mut d = drone(2, &[1, 3], 0.5);
    for p in [
        fragment_packet(&[1, 2, 3], 1),
        ack_packet(&[1, 2, 3], 1),
        nack_packet(&[1, 2, 3], 1, 8, NackType::Dropped),
        response_packet(&[1, 2, 3], 1),
    ] {
        let mut advanced = p.clone();
        advanced.routing_header.hop_index = 2;
        assert_eq!(act(&mut d, p, 0.75), sent(3, advanced));
    }
    assert!(d.has_seen_no_flood());
}

#[test]
fn lost_fragment_is_answered_and_reported() {
    let mut d = drone(2, &[1, 3], 0.5);
    let p = fragment_packet(&[9, 1, 2, 3], 2);
    let mut expected = sent(1, nack_packet(&[2, 1, 9], 1, 7, NackType::Dropped));
    expected.push(lost(p.clone()));
    assert_eq!(act(&mut d, p.clone(), 0.5), expected);
    assert_eq!(act(&mut d, p, 0.500_001).len(), 2);
}

#[test]
fn refused_response_is_answered_and_reported() {
    let mut d = drone(2, &[1], 0.0);
    let p = response_packet(&[1, 2, 3], 1);
    let mut expected = sent(1, nack_packet(&[2, 1], 1, 0, NackType::ErrorInRouting(3)));
    expected.push(lost(p.clone()));
    assert_eq!(act(&mut d, p, 0.9), expected);
}

#[test]
fn nack_to_a_stranger_goes_through_the_controller() {
    let mut d = drone(2, &[3], 0.0);
    let p = fragment_packet(&[1, 2], 1);
    assert_eq!(
        act(&mut d, p.clone(), 0.9),
        vec![shortcut(nack_packet(&[2, 1], 1, 7, NackType::DestinationIsDrone)), lost(p)]
    );
}

#[test]
fn index_beyond_the_route_names_the_source_alone() {
    let mut d = drone(2, &[1], 0.0);
    let p = fragment_packet(&[1, 2], 2);
    assert_eq!(
        act(&mut d, p.clone(), 0.9),
        vec![shortcut(nack_packet(&[1], 1, 7, NackType::ErrorInRouting(2))), lost(p)]
    );
}

#[test]
fn acks_and_nacks_are_never_lost() {
    let mut d = drone(2, &[1], 1.0);
    for p in [
        ack_packet(&[1, 2, 3], 1),
        ack_packet(&[1, 2], 9),
        nack_packet(&[1, 8], 1, 3, NackType::DestinationIsDrone),
    ] {
        assert_eq!(act(&mut d, p.clone(), 0.0), vec![shortcut(p)]);
    }
}

#[test]
fn full_rate_loses_all_and_zero_rate_none() {
    for draw in [0.0, 0.000_1, 0.5, 0.999_999_94] {
        let p = fragment_packet(&[1, 2, 3], 1);
        let mut d = drone(2, &[1, 3], 1.0);
        assert_eq!(act(&mut d, p.clone(), draw).last(), Some(&lost(p.clone())));
        let mut d = drone(2, &[1, 3], 0.0);
        assert_eq!(act(&mut d, p.clone(), draw).len(), 2);
        let mut d = drone(2, &[1, 3], -0.0);
        assert_eq!(act(&mut d, p.clone(), draw).len(), 2);
        let mut d = drone(2, &[1, 3], f32::NAN);
        assert_eq!(act(&mut d, p, draw).len(), 2);
    }
}

#[test]
fn loss_grows_with_the_rate() {
    let p = fragment_packet(&[1, 2, 3], 1);
    let mut before = 2;
    for pdr in [0.0, 0.2, 0.4, 0.6, 0.8, 1.0] {
        let after = act(&mut drone(2, &[1, 3], pdr), p.clone(), 0.5).len();
        assert!(before <= after);
        before = after;
    }
    assert_eq!(before, 3);
}

#[test]
fn new_flood_goes_to_all_others_once() {
    let mut d = drone(2, &[1, 3, 4], 0.0);
    let actions = act(&mut d, request_packet(11, &[4, 1]), 0.9);
    let expected = packet(
        &[],
        0,
        PacketType::FloodRequest(FloodRequest {
            flood_id: 11,
            initiator_id: 4,
            path_trace: vec![
                (4, NodeType::Client),
                (1, NodeType::Client),
                (2, NodeType::Drone),
            ],
        }),
    );
    let mut receivers = Vec::new();
    for pair in actions.chunks(2) {
        match &pair[0] {
            Action::Deliver(to, packet) => {
                assert_eq!(packet, &expected);
                receivers.push(*to);
            }
            _ => panic!("{:?}", pair),
        }
        assert_eq!(pair[1], Action::Report(DroneEvent::PacketSent(expected.clone())));
    }
    receivers.sort();
    assert_eq!(receivers, vec![3, 4]);
    assert!(!d.has_seen_no_flood());
}

#[test]
fn seen_flood_is_answered() {
    let mut d = drone(2, &[1, 3], 0.0);
    assert_eq!(act(&mut d, request_packet(11, &[4, 1]), 0.9).len(), 2);
    let response = packet(
        &[2, 1, 4],
        1,
        PacketType::FloodResponse(FloodResponse {
            flood_id: 11,
            path_trace: vec![
                (4, NodeType::Client),
                (1, NodeType::Client),
                (2, NodeType::Drone),
            ],
        }),
    );
    d.handle_command(DroneCommand::AddSender(5, 0));
    assert_eq!(act(&mut d, request_packet(11, &[4, 1]), 0.9), sent(1, response.clone()));
    d.handle_command(DroneCommand::RemoveSender(1));
    assert_eq!(act(&mut d, request_packet(11, &[4, 1]), 0.9), vec![shortcut(response)]);
    // Another flood is new.
    assert_eq!(act(&mut d, request_packet(12, &[4, 1]), 0.9).len(), 4);
}

#[test]
fn seen_flood_is_answered_whichever_node_it_comes_from() {
    let mut d = drone(71, &[70, 72, 73], 0.0);
    let request = |path_trace: Vec<(NodeId, NodeType)>| Packet {
        routing_header: header(&[], 0),
        session_id: 0,
        pack_type: PacketType::FloodRequest(FloodRequest {
            flood_id: 0,
            initiator_id: 70,
            path_trace,
        }),
    };
    assert_eq!(act(&mut d, request(vec![(70, NodeType::Client)]), 0.9).len(), 4);
    let response = Packet {
        routing_header: header(&[71, 72, 70], 1),
        session_id: 0,
        pack_type: PacketType::FloodResponse(FloodResponse {
            flood_id: 0,
            path_trace: vec![
                (70, NodeType::Client),
                (72, NodeType::Drone),
                (71, NodeType::Drone),
            ],
        }),
    };
    assert_eq!(
        act(&mut d, request(vec![(70, NodeType::Client), (72, NodeType::Drone)]), 0.9),
        sent(72, response)
    );
}

#[test]
fn zero_draw_at_zero_rate_passes() {
    let d = drone(68, &[67, 69], 0.0);
    let route = header(&[67, 68, 69, 70, 71], 1);
    assert_eq!(d.check_fragment(&route, &fragment(), rate(0.0)), Ok(()));
    let d = drone(68, &[67, 69], 1.0e-45);
    assert_eq!(
        d.check_fragment(&route, &fragment(), rate(0.0)),
        Err(Nack { fragment_index: 7, nack_type: NackType::Dropped })
    );
}

#[test]
fn flood_at_the_edge_is_answered() {
    let mut d = drone(2, &[1], 0.0);
    match &act(&mut d, request_packet(11, &[1]), 0.9)[..] {
        [Action::Deliver(1, answer), Action::Report(DroneEvent::PacketSent(_))] => {
            assert_eq!(answer.routing_header, header(&[2, 1], 1));
        }
        actions => panic!("{:?}", actions),
    }
}

#[test]
fn faults_are_told_apart() {
    let d = drone(2, &[1, 3], 0.5);
    let fault = |p: Packet, draw: f32| d.diagnose(&p, rate(draw));
    assert_eq!(fault(request_packet(1, &[]), 0.9), Some(Fault::EmptyPathTrace));
    assert_eq!(fault(fragment_packet(&[], 0), 0.9), Some(Fault::NoPacketSender));
    assert_eq!(fault(fragment_packet(&[], usize::MAX), 0.9), Some(Fault::NoPreviousHop));
    assert_eq!(fault(fragment_packet(&[1, 2], usize::MAX), 0.9), Some(Fault::NoPreviousHop));
    assert_eq!(fault(fragment_packet(&[9, 3], 0), 0.9), Some(Fault::NoPreviousHop));
    assert_eq!(fault(fragment_packet(&[2, 3], 0), 0.1), Some(Fault::NoPreviousHop));
    assert_eq!(fault(fragment_packet(&[2, 3], 0), 0.9), None);
    assert_eq!(fault(response_packet(&[], 3), 0.9), Some(Fault::NoPacketSender));
    assert_eq!(fault(response_packet(&[2], 0), 0.9), Some(Fault::NoPreviousHop));
    assert_eq!(fault(ack_packet(&[], 0), 0.9), Some(Fault::AckWithoutRoute));
    assert_eq!(
        fault(nack_packet(&[], 0, 0, NackType::Dropped), 0.9),
        Some(Fault::NackWithoutRoute)
    );
    assert_eq!(fault(ack_packet(&[9], usize::MAX), 0.9), None);
}

#[test]
fn proper_packets_cause_no_fault() {
    let d = drone(2, &[1], 1.0);
    for i in 1..5 {
        for p in [
            fragment_packet(&[1, 2, 3], i),
            ack_packet(&[1, 2, 3], i),
            nack_packet(&[1, 2, 3], i, 0, NackType::Dropped),
            response_packet(&[1, 2, 3], i),
        ] {
            assert_eq!(d.diagnose(&p, rate(0.5)), None);
        }
    }
}

#[test]
fn giving_up_changes_nothing() {
    let mut d = drone(2, &[1, 3], 0.5);
    assert_eq!(
        d.step(Incoming::Packet(request_packet(1, &[]), rate(0.9))),
        Step::GiveUp(Fault::EmptyPathTrace)
    );
    assert!(d.has_seen_no_flood());
    assert_eq!(d.step(Incoming::Closed), Step::Idle);
    assert_eq!(d.pdr(), rate(0.5));
}

#[test]
fn faults_are_put_in_words() {
    let told = [
        (Fault::EmptyPathTrace, "[DRONE 7] The flood request path trace is empty"),
        (Fault::NoPreviousHop, "[DRONE 7] Could not build Nack (could not get previous hop)"),
        (Fault::NoPacketSender, "[DRONE 7] Could not build Nack (could not get packet sender)"),
        (Fault::AckWithoutRoute, "[DRONE 7] Could not build Ack"),
        (Fault::NackWithoutRoute, "[DRONE 7] Could not build Nack (Nack header is empty)"),
        (Fault::NeighborDisconnected, "[DRONE 7] The drone is disconnected"),
        (Fault::ControllerDisconnected, "[DRONE 7] The controller is disconnected"),
    ];
    for (fault, message) in told {
        assert_eq!(fault.message(7), message);
    }
    for id in [0u8, 9, 10, 99, 100, 205, 255] {
        assert_eq!(prefix_text(id), format!("[DRONE {}]", id));
    }
    assert_eq!(drone(69, &[], 0.0).get_prefix(), "[DRONE 69]");
}

#[test]
fn failed_actions_are_told_apart() {
    let p = ack_packet(&[1, 2], 1);
    assert_eq!(Action::Deliver(1, p.clone()).failure(), Fault::NeighborDisconnected);
    assert_eq!(shortcut(p).failure(), Fault::ControllerDisconnected);
}

#[test]
fn commands_have_their_outcomes() {
    let mut d = drone(2, &[1], 0.3);
    assert_eq!(d.handle_command(DroneCommand::AddSender(3, 5)), CommandOutcome::NeighborAdded(3));
    assert_eq!(
        d.handle_command(DroneCommand::AddSender(3, 6)),
        CommandOutcome::NeighborUpdated(3)
    );
    assert_eq!(d.sender(3), Some(&6));
    assert_eq!(
        d.handle_command(DroneCommand::RemoveSender(3)),
        CommandOutcome::NeighborRemoved(3)
    );
    assert_eq!(
        d.handle_command(DroneCommand::RemoveSender(3)),
        CommandOutcome::NoSuchNeighbor(3)
    );
    assert_eq!(d.sender(3), None);
    assert_eq!(d.sender(1), Some(&1001));
    let nan = rate(f32::NAN);
    assert_eq!(
        d.handle_command(DroneCommand::SetPacketDropRate(nan)),
        CommandOutcome::RateRefused(nan)
    );
    assert_eq!(d.pdr(), rate(0.3));
    assert_eq!(d.handle_command(DroneCommand::Crash), CommandOutcome::Crashing(2));
    assert!(d.should_terminate());
    assert_eq!(
        d.handle_command(DroneCommand::SetPacketDropRate(rate(1.0))),
        CommandOutcome::RateSet(rate(1.0))
    );
    assert!(d.should_terminate());
}

#[test]
fn senders_are_found_by_route() {
    let d = drone(2, &[1, 3], 0.0);
    assert_eq!(d.get_sender(&ack_packet(&[2, 3], 1)), Some(&1003));
    assert_eq!(d.get_sender(&ack_packet(&[2, 9], 1)), None);
    assert_eq!(d.get_sender(&ack_packet(&[2, 3], 2)), None);
}

#[test]
fn hops_are_reversed_up_to_the_index() {
    type D = RustRoveri<u32>;
    assert_eq!(D::reverse_hops(&header(&[1, 2, 3, 4], 2)), Some(vec![3, 2, 1]));
    assert_eq!(D::reverse_hops(&header(&[1, 2], 1)), Some(vec![2, 1]));
    assert_eq!(D::reverse_hops(&header(&[1, 2], 2)), None);
    assert_eq!(D::reverse_hops(&header(&[], 0)), None);
}

#[test]
fn neighbors_but_one() {
    let mut others = drone(2, &[1, 3, 5], 0.0).get_adjacents_but(3);
    others.sort();
    assert_eq!(others, vec![1, 5]);
    assert!(drone(2, &[1], 0.0).get_adjacents_but(1).is_empty());
    let nobody: HashMap<NodeId, u32> = HashMap::new();
    assert!(RustRoveri::new(2, nobody, rate(0.0)).get_adjacents_but(1).is_empty());
}

#[test]
fn actions_are_tried_up_to_the_first_failure() {
    let actions = sent(1, ack_packet(&[1, 2], 1));
    let mut outbox = Outbox::of(actions.clone());
    assert_eq!(outbox.next(), Some(&actions[0]));
    assert_eq!(outbox.settle(true), None);
    assert_eq!(outbox.next(), Some(&actions[1]));
    assert_eq!(outbox.settle(true), None);
    assert_eq!(outbox.next(), None);

    let mut outbox = Outbox::of(actions);
    assert_eq!(outbox.settle(false), Some(Fault::NeighborDisconnected));
    assert_eq!(outbox.next(), None);
}
