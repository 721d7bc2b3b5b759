use crossbeam_channel::{unbounded, Receiver, Sender};
use rust_roveri::action::{Action, Outbox};
use rust_roveri::controller::{CommandOutcome, DroneCommand, DroneEvent};
use rust_roveri::fault::Fault;
use rust_roveri::network::{NodeId, SourceRoutingHeader};
use rust_roveri::packet::{
    Ack, FloodRequest, Fragment, Nack, NackType, NodeType, Packet, PacketType, FRAGMENT_DSIZE,
};
use rust_roveri::rate::Rate;
use rust_roveri::run::{Incoming, Step};
use rust_roveri::RustRoveri;
use std::collections::HashMap;

const DRAW: f32 = 0.5;

fn rate(number: f32) -> Rate {
    Rate::from_bits(number.to_bits())
}

fn number(rate: Rate) -> f32 {
    f32::from_bits(rate.to_bits())
}

/// A drone with its channels.
struct Station {
    drone: RustRoveri<Sender<Packet>>,
    event_send: Sender<DroneEvent>,
    events: Receiver<DroneEvent>,
    packet_send: Sender<Packet>,
    packets: Receiver<Packet>,
}

impl Station {
    fn new(id: NodeId, packet_send: HashMap<NodeId, Sender<Packet>>, pdr: f32) -> Station {
        let (event_send, events) = unbounded();
        let (to_drone, packets) = unbounded();
        Station {
            drone: RustRoveri::new(id, packet_send, rate(pdr)),
            event_send,
            events,
            packet_send: to_drone,
            packets,
        }
    }

    fn command(&mut self, command: DroneCommand<Sender<Packet>>) -> CommandOutcome {
        match self.drone.step(Incoming::Command(command)) {
            Step::Obeyed(outcome) => outcome,
            _ => panic!("A command was not obeyed"),
        }
    }

    /// Handles the packets that have come in, up to the first on which the drone gives up.
    fn work(&mut self) -> Result<(), Fault> {
        while let Ok(packet) = self.packets.try_recv() {
            match self.drone.step(Incoming::Packet(packet, rate(DRAW))) {
                Step::Act(actions) => {
                    let mut outbox = Outbox::of(actions);
                    while let Some(action) = outbox.next() {
                        let done = match action.clone() {
                            Action::Deliver(to, packet) => {
                                self.drone.sender(to).unwrap().send(packet).is_ok()
                            }
                            Action::Report(event) => self.event_send.send(event).is_ok(),
                        };
                        if let Some(fault) = outbox.settle(done) {
                            return Err(fault);
                        }
                    }
                }
                Step::GiveUp(fault) => return Err(fault),
                _ => panic!("A packet was not acted on"),
            }
        }
        Ok(())
    }
}

fn fragment_of(byte: u8) -> Fragment {
    Fragment {
        data: [byte; FRAGMENT_DSIZE],
        fragment_index: 0,
        length: 10,
        total_n_fragments: 1,
    }
}

fn fragment_packet(hops: Vec<NodeId>, hop_index: usize) -> Packet {
    Packet {
        pack_type: PacketType::MsgFragment(fragment_of(0)),
        routing_header: SourceRoutingHeader { hops, hop_index },
        session_id: 0,
    }
}

#[test]
fn test_initialization_1() {
    const DRONE_ID: NodeId = 0;
    const PDR: f32 = 0.07;

    let drone: RustRoveri<Sender<Packet>> = RustRoveri::new(DRONE_ID, HashMap::new(), rate(PDR));

    assert_eq!(drone.id(), DRONE_ID, "Drone id is not set");
    assert_eq!(number(drone.pdr()), 0.07, "Drone pdr is not set");
    assert!(drone.is_isolated(), "packet_set is not empty");
    assert!(!drone.should_terminate(), "should_terminate is already true");
    assert!(drone.has_seen_no_flood(), "flood_ids is not empty");
}

#[test]
fn test_initialization_2() {
    const DRONE_ID: NodeId = 0;
    const PDR_1: f32 = 1.1;
    const PDR_2: f32 = -0.1;

    let drone_1: RustRoveri<Sender<Packet>> =
        RustRoveri::new(DRONE_ID, HashMap::new(), rate(PDR_1));
    let drone_2: RustRoveri<Sender<Packet>> =
        RustRoveri::new(DRONE_ID, HashMap::new(), rate(PDR_2));

    assert_eq!(number(drone_1.pdr()), 1.0, "Drone pdr is not 1.0");
    assert_eq!(number(drone_2.pdr()), 0.0, "Drone pdr is not 0.0");
}

#[test]
fn test_set_packet_drop_rate_1() {
    const DRONE_ID: NodeId = 69;
    const INITIAL_PDR: f32 = 0.3;
    const INVALID_PDR: f32 = -0.1;

    let mut station = Station::new(DRONE_ID, HashMap::new(), INITIAL_PDR);
    let outcome = station.command(DroneCommand::SetPacketDropRate(rate(INVALID_PDR)));
    station.command(DroneCommand::Crash);

    let pdr = number(station.drone.pdr());
    assert_eq!(pdr, INITIAL_PDR, "Pdr changed");
    assert_ne!(pdr, INVALID_PDR, "Pdr changed");
    assert_eq!(outcome, CommandOutcome::RateRefused(rate(INVALID_PDR)));
}

#[test]
fn test_set_packet_drop_rate_2() {
    const DRONE_ID: NodeId = 69;
    const INITIAL_PDR: f32 = 0.3;
    const INVALID_PDR: f32 = 1.1;

    let mut station = Station::new(DRONE_ID, HashMap::new(), INITIAL_PDR);
    let outcome = station.command(DroneCommand::SetPacketDropRate(rate(INVALID_PDR)));
    station.command(DroneCommand::Crash);

    let pdr = number(station.drone.pdr());
    assert_eq!(pdr, INITIAL_PDR, "Pdr changed");
    assert_ne!(pdr, INVALID_PDR, "Pdr changed");
    assert_eq!(outcome, CommandOutcome::RateRefused(rate(INVALID_PDR)));
}

#[test]
fn test_set_packet_drop_rate_3() {
    const DRONE_ID: NodeId = 69;
    const INITIAL_PDR: f32 = 0.3;
    const VALID_PDR: f32 = 0.5;

    let mut station = Station::new(DRONE_ID, HashMap::new(), INITIAL_PDR);
    let outcome = station.command(DroneCommand::SetPacketDropRate(rate(VALID_PDR)));
    station.command(DroneCommand::Crash);

    let pdr = number(station.drone.pdr());
    assert_eq!(pdr, VALID_PDR, "Pdr is unchanged");
    assert_ne!(pdr, INITIAL_PDR, "Pdr is unchanged");
    assert_eq!(outcome, CommandOutcome::RateSet(rate(VALID_PDR)));
}

#[test]
fn test_crash() {
    const DRONE_ID: NodeId = 69;

    let mut station = Station::new(DRONE_ID, HashMap::new(), 0.3);
    let outcome = station.command(DroneCommand::Crash);

    assert!(station.drone.should_terminate(), "Drone did not set should_terminate");
    assert_eq!(outcome, CommandOutcome::Crashing(DRONE_ID));
}

#[test]
fn test_flood_request_empty() {
    const DRONE_ID: NodeId = 69;
    const INITIATOR_ID: NodeId = 0;

    let mut station = Station::new(DRONE_ID, HashMap::new(), 0.3);
    for i in (0..200).rev() {
        let packet = Packet {
            pack_type: PacketType::FloodRequest(FloodRequest {
                flood_id: i,
                initiator_id: INITIATOR_ID,
                path_trace: Vec::new(),
            }),
            routing_header: SourceRoutingHeader { hops: Vec::new(), hop_index: 0 },
            session_id: 0,
        };
        let _ = station.packet_send.send(packet);
    }

    let fault = station.work().expect_err("Drone didn't panic");
    assert_eq!(fault, Fault::EmptyPathTrace);
    assert_eq!(fault.message(DRONE_ID), "[DRONE 69] The flood request path trace is empty");
}

#[test]
fn test_add_sender() {
    const DRONE_ID: NodeId = 69;

    let mut station = Station::new(DRONE_ID, HashMap::new(), 0.3);
    let (tx, _rx) = unbounded::<Packet>();
    let outcome = station.command(DroneCommand::AddSender(DRONE_ID, tx));
    station.command(DroneCommand::Crash);

    assert!(station.drone.sender(DRONE_ID).is_some(), "Sender wasn't added");
    assert_eq!(outcome, CommandOutcome::NeighborAdded(DRONE_ID));
}

#[test]
fn test_remove_sender() {
    const DRONE_ID: NodeId = 0;
    const SENDER_ID: NodeId = 20;

    let mut station = Station::new(DRONE_ID, HashMap::new(), 0.3);
    let (tx, _rx) = unbounded::<Packet>();
    station.command(DroneCommand::AddSender(SENDER_ID, tx));
    let outcome = station.command(DroneCommand::RemoveSender(SENDER_ID));
    station.command(DroneCommand::Crash);

    assert!(station.drone.sender(SENDER_ID).is_none(), "Sender doesn't exist");
    assert_eq!(outcome, CommandOutcome::NeighborRemoved(SENDER_ID));
}

#[test]
fn test_check_header_unexpected_recipient() {
    const DRONE_ID: NodeId = 0;
    const SENDER_ID: NodeId = 69;
    const WRONG_DRONE_ID: NodeId = 70;

    let mut station = Station::new(DRONE_ID, HashMap::new(), 0.0);
    let (tx, rx) = unbounded::<Packet>();
    station.command(DroneCommand::AddSender(SENDER_ID, tx));
    let _ = station.packet_send.send(fragment_packet(vec![SENDER_ID, WRONG_DRONE_ID], 1));
    assert!(station.work().is_ok(), "Drone panicked");

    let nack_packet = rx.try_recv().expect("Sender did not receive Nack");
    assert_eq!(
        nack_packet.routing_header.hops,
        vec![WRONG_DRONE_ID, SENDER_ID],
        "Nack routing header is not as expected",
    );
    match nack_packet.pack_type {
        PacketType::Nack(nack) => match nack.nack_type {
            NackType::UnexpectedRecipient(WRONG_DRONE_ID) => {}
            _ => panic!("Received Nack is not UnexpectedReceipient({})", WRONG_DRONE_ID),
        },
        _ => panic!("Received Packet is not a Nack"),
    }
}

#[test]
fn test_check_header_error_in_routing_1() {
    const SENDER_ID: NodeId = 1;
    const DRONE_ID: NodeId = 2;
    const INVALID_HOP_INDEX: usize = 69420;

    let mut station = Station::new(DRONE_ID, HashMap::new(), 0.0);
    let (tx, _rx) = unbounded::<Packet>();
    station.command(DroneCommand::AddSender(SENDER_ID, tx));
    let packet = fragment_packet(vec![SENDER_ID, DRONE_ID], INVALID_HOP_INDEX);
    let _ = station.packet_send.send(packet.clone());
    assert!(station.work().is_ok(), "Drone panicked");

    let drone_event = station.events.try_recv().expect("Controller did not receive DroneEvent");
    match drone_event {
        DroneEvent::ControllerShortcut(packet) => {
            assert_eq!(packet.routing_header.hops, vec![SENDER_ID]);
            assert_eq!(packet.routing_header.hop_index, 1);
            match packet.pack_type {
                PacketType::Nack(nack) => match nack.nack_type {
                    NackType::ErrorInRouting(DRONE_ID) => {}
                    _ => panic!("Received Nack is not ErrorInRouting({})", DRONE_ID),
                },
                _ => panic!("Received Packet is not a Nack"),
            }
        }
        _ => panic!("Received DroneEvent is not ControllerShortcut"),
    }
    assert_eq!(station.events.try_recv(), Ok(DroneEvent::PacketDropped(packet)));
}

#[test]
fn test_check_header_error_in_routing_2() {
    const DRONE_ID: NodeId = 0;
    const SENDER_ID: NodeId = 69;
    const UNEXISTENT_ID: NodeId = 70;

    let mut station = Station::new(DRONE_ID, HashMap::new(), 0.0);
    let (tx, rx) = unbounded::<Packet>();
    station.command(DroneCommand::AddSender(SENDER_ID, tx));
    station
        .packet_send
        .send(fragment_packet(vec![SENDER_ID, DRONE_ID, UNEXISTENT_ID], 1))
        .expect("Cant send packet to drone 1");
    assert!(station.work().is_ok(), "Drone panicked");

    let nack_packet = rx.try_recv().expect("Sender did not receive Nack");
    assert_eq!(
        nack_packet.routing_header.hops,
        vec![DRONE_ID, SENDER_ID],
        "Nack routing header is not as expected",
    );
    match nack_packet.pack_type {
        PacketType::Nack(nack) => match nack.nack_type {
            NackType::ErrorInRouting(UNEXISTENT_ID) => {}
            _ => panic!("Received Nack is not ErrorInRouting({})", UNEXISTENT_ID),
        },
        _ => panic!("Received Packet is not a Nack"),
    }
}

#[test]
fn test_check_header_destination_is_drone() {
    const DRONE_ID: NodeId = 34;
    const SENDER_ID: NodeId = 35;

    let mut station = Station::new(DRONE_ID, HashMap::new(), 0.0);
    let (tx, rx) = unbounded::<Packet>();
    station.command(DroneCommand::AddSender(SENDER_ID, tx));
    station
        .packet_send
        .send(fragment_packet(vec![SENDER_ID, DRONE_ID], 1))
        .expect("Cant send packet to drone 1");
    assert!(station.work().is_ok(), "Drone panicked");

    let nack_packet = rx.try_recv().expect("Dummy node did not received a packet");
    assert_eq!(
        nack_packet.routing_header.hops,
        vec![DRONE_ID, SENDER_ID],
        "Nack routing header is not as expected",
    );
    match nack_packet.pack_type {
        PacketType::Nack(nack) => match nack.nack_type {
            NackType::DestinationIsDrone => {}
            _ => panic!("Received Nack is not DestinationIsDrone"),
        },
        _ => panic!("Received Packet is not a Nack"),
    }
}

#[test]
fn test_check_fragment_dropped() {
    const DRONE_ID: NodeId = 34;
    const SENDER_ID: NodeId = 35;

    let mut station = Station::new(DRONE_ID, HashMap::new(), 1.0);
    let (tx, rx) = unbounded::<Packet>();
    station.command(DroneCommand::AddSender(SENDER_ID, tx));
    station
        .packet_send
        .send(fragment_packet(vec![SENDER_ID, DRONE_ID, SENDER_ID], 1))
        .expect("Cant send packet to drone 1");
    assert!(station.work().is_ok(), "Drone panicked");

    match station.events.try_recv().expect("Controller did not receive PacketDropped") {
        DroneEvent::PacketSent(_) => {}
        _ => panic!("Received DroneEvent is not PacketSent"),
    }
    match station.events.try_recv().expect("Controller did not receive Dropped") {
        DroneEvent::PacketDropped(_) => {}
        _ => panic!("Received DroneEvent is not Dropped"),
    }

    let nack_packet = rx.try_recv().expect("Sender did not receive Nack");
    match nack_packet.pack_type {
        PacketType::Nack(nack) => match nack.nack_type {
            NackType::Dropped => {}
            _ => panic!("Received Nack is not Dropped"),
        },
        _ => panic!("Received Packet is not Nack"),
    }
    assert!(rx.try_recv().is_err(), "Receiver received dropped packet");
}

#[test]
fn test_communication_integrity() {
    const SENDER_ID: NodeId = 67;
    const DRONE_1_ID: NodeId = 68;
    const DRONE_2_ID: NodeId = 69;
    const DRONE_3_ID: NodeId = 70;
    const RECEIVER_ID: NodeId = 71;

    let (sender_tx, _sender_rx) = unbounded::<Packet>();
    let (receiver_tx, receiver_rx) = unbounded::<Packet>();
    let mut drone_1 = Station::new(DRONE_1_ID, HashMap::new(), 0.0);
    let mut drone_2 = Station::new(DRONE_2_ID, HashMap::new(), 0.0);
    let mut drone_3 = Station::new(DRONE_3_ID, HashMap::new(), 0.0);
    drone_1.command(DroneCommand::AddSender(SENDER_ID, sender_tx));
    drone_1.command(DroneCommand::AddSender(DRONE_2_ID, drone_2.packet_send.clone()));
    drone_2.command(DroneCommand::AddSender(DRONE_1_ID, drone_1.packet_send.clone()));
    drone_2.command(DroneCommand::AddSender(DRONE_3_ID, drone_3.packet_send.clone()));
    drone_3.command(DroneCommand::AddSender(DRONE_2_ID, drone_2.packet_send.clone()));
    drone_3.command(DroneCommand::AddSender(RECEIVER_ID, receiver_tx));

    let fragment = fragment_of(69);
    let packet = Packet {
        pack_type: PacketType::MsgFragment(fragment.clone()),
        routing_header: SourceRoutingHeader {
            hops: vec![SENDER_ID, DRONE_1_ID, DRONE_2_ID, DRONE_3_ID, RECEIVER_ID],
            hop_index: 1,
        },
        session_id: 0,
    };
    drone_1.packet_send.send(packet.clone()).expect("Cant send packet to drone 1");
    assert!(drone_1.work().is_ok(), "Drone 1 panicked");
    assert!(drone_2.work().is_ok(), "Drone 2 panicked");
    assert!(drone_3.work().is_ok(), "Drone 3 panicked");

    let assert_fragment = |packet: Packet| match packet.pack_type {
        PacketType::MsgFragment(received_fragment) => {
            assert_eq!(
                received_fragment.fragment_index, fragment.fragment_index,
                "Received fragment (fragment_index) is changed after forwarding"
            );
            assert_eq!(
                received_fragment.total_n_fragments, fragment.total_n_fragments,
                "Received fragment (total_n_fragments) is changed after forwarding"
            );
            assert_eq!(
                received_fragment.length, fragment.length,
                "Received fragment (length) is changed after forwarding"
            );
            assert_eq!(
                received_fragment.data, fragment.data,
                "Received fragment (data) is changed after forwarding"
            );
        }
        _ => panic!("Received Packet is not a Fragment"),
    };
    let assert_packet_sent = |drone_event: DroneEvent| match drone_event {
        DroneEvent::PacketSent(packet) => assert_fragment(packet),
        _ => panic!("Received DroneEvent is not a PacketSent"),
    };

    assert_packet_sent(
        drone_1
            .events
            .try_recv()
            .expect("Controller did not receive PacketSent event from drone 1"),
    );
    assert_packet_sent(
        drone_2
            .events
            .try_recv()
            .expect("Controller did not receive PacketSent event from drone 2"),
    );
    assert_packet_sent(
        drone_3
            .events
            .try_recv()
            .expect("Controller did not receive PacketSent event from drone 3"),
    );

    let arrived = receiver_rx.try_recv().expect("Receiver did not receive a packet");
    let mut expected = packet;
    expected.routing_header.hop_index = 4;
    assert_eq!(arrived, expected);
    assert_fragment(arrived);
}

fn flood_request() -> FloodRequest {
    FloodRequest {
        flood_id: 0,
        initiator_id: 70,
        path_trace: vec![(70, NodeType::Client)],
    }
}

fn flood_packet() -> Packet {
    Packet {
        pack_type: PacketType::FloodRequest(flood_request()),
        routing_header: SourceRoutingHeader { hops: vec![], hop_index: 0 },
        session_id: 0,
    }
}

fn assert_flood_request(event: DroneEvent) {
    match event {
        DroneEvent::PacketSent(packet) => match packet.pack_type {
            PacketType::FloodRequest(request) => assert_eq!(
                request.flood_id,
                flood_request().flood_id,
                "Received flood request (flood_id) is changed after forwarding"
            ),
            _ => panic!("Received Packet is not a FloodRequest"),
        },
        _ => panic!("Received DroneEvent is not a PacketSent"),
    }
}

fn assert_flood_response(packet: Packet) {
    match packet.pack_type {
        PacketType::FloodResponse(response) => assert_eq!(
            flood_request().flood_id,
            response.flood_id,
            "Received flood response (flood_id) is changed after forwarding"
        ),
        _ => panic!("Received Packet is not a FloodResponse"),
    }
}

fn assert_flood_response_sent(event: DroneEvent) {
    match event {
        DroneEvent::PacketSent(packet) => assert_flood_response(packet),
        _ => panic!("Received DroneEvent is not a PacketSent"),
    }
}

#[test]
fn test_handle_flood_request_1() {
    const SENDER_ID: NodeId = 70;
    const DRONE_1_ID: NodeId = 71;
    const DRONE_2_ID: NodeId = 72;

    let (sender_recv_tx, sender_recv_rx) = unbounded::<Packet>();
    let mut drone_1 = Station::new(DRONE_1_ID, HashMap::new(), 0.0);
    let mut drone_2 = Station::new(DRONE_2_ID, HashMap::new(), 0.0);
    drone_1.command(DroneCommand::AddSender(SENDER_ID, sender_recv_tx));
    drone_1.command(DroneCommand::AddSender(DRONE_2_ID, drone_2.packet_send.clone()));
    drone_2.command(DroneCommand::AddSender(DRONE_1_ID, drone_1.packet_send.clone()));

    drone_1.packet_send.send(flood_packet()).expect("Cant send packet to drone 1");
    assert!(drone_1.work().is_ok(), "Drone 1 panicked");
    assert!(drone_2.work().is_ok(), "Drone 2 panicked");
    assert!(drone_1.work().is_ok(), "Drone 1 panicked");

    assert_flood_request(
        drone_1
            .events
            .try_recv()
            .expect("Controller did not receive PacketSent event from drone 1"),
    );
    assert_flood_response_sent(
        drone_2
            .events
            .try_recv()
            .expect("Controller did not receive PacketSent event from drone 2"),
    );
    let packet = sender_recv_rx.try_recv().expect("Sender did not receive a packet");
    assert_eq!(packet.routing_header.hops, vec![DRONE_2_ID, DRONE_1_ID, SENDER_ID]);
    assert_eq!(packet.routing_header.hop_index, 2);
    assert_flood_response(packet);
}

#[test]
fn test_handle_flood_request_2() {
    const SENDER_ID: NodeId = 70;
    const DRONE_1_ID: NodeId = 71;
    const DRONE_2_ID: NodeId = 72;
    const DRONE_3_ID: NodeId = 73;

    let (sender_recv_tx, sender_recv_rx) = unbounded::<Packet>();
    let mut drone_1 = Station::new(DRONE_1_ID, HashMap::new(), 0.0);
    let mut drone_2 = Station::new(DRONE_2_ID, HashMap::new(), 0.0);
    let mut drone_3 = Station::new(DRONE_3_ID, HashMap::new(), 0.0);
    drone_1.command(DroneCommand::AddSender(SENDER_ID, sender_recv_tx));
    drone_1.command(DroneCommand::AddSender(DRONE_2_ID, drone_2.packet_send.clone()));
    drone_2.command(DroneCommand::AddSender(DRONE_1_ID, drone_1.packet_send.clone()));
    drone_1.command(DroneCommand::AddSender(DRONE_3_ID, drone_3.packet_send.clone()));
    drone_3.command(DroneCommand::AddSender(DRONE_1_ID, drone_1.packet_send.clone()));

    drone_1.packet_send.send(flood_packet()).expect("Cant send packet to drone 1");
    assert!(drone_1.work().is_ok(), "Drone 1 panicked");
    assert!(drone_2.work().is_ok(), "Drone 2 panicked");
    assert!(drone_3.work().is_ok(), "Drone 3 panicked");
    assert!(drone_1.work().is_ok(), "Drone 1 panicked");

    assert_flood_request(
        drone_1
            .events
            .try_recv()
            .expect("Controller did not receive PacketSent event from drone 1"),
    );
    assert_flood_response_sent(
        drone_2
            .events
            .try_recv()
            .expect("Controller did not receive PacketSent event from drone 2"),
    );
    assert_flood_response_sent(
        drone_3
            .events
            .try_recv()
            .expect("Controller did not receive PacketSent event from drone 3"),
    );
    assert_flood_response(sender_recv_rx.try_recv().expect("Sender did not receive a packet"));
    assert_flood_response(sender_recv_rx.try_recv().expect("Sender did not receive a packet"));
    assert!(sender_recv_rx.try_recv().is_err());
}

fn sample_packet() -> Packet {
    Packet {
        routing_header: SourceRoutingHeader { hop_index: 1, hops: vec![1, 11, 12, 21] },
        session_id: 1,
        pack_type: PacketType::MsgFragment(Fragment {
            fragment_index: 1,
            total_n_fragments: 1,
            length: 128,
            data: [1; 128],
        }),
    }
}

#[test]
fn test_wg2024_generic_fragment_forward() {
    let (d2_send, d2_recv) = unbounded::<Packet>();
    let mut drone = Station::new(11, HashMap::from([(12, d2_send)]), 0.0);
    let mut msg = sample_packet();

    drone.packet_send.send(msg.clone()).unwrap();
    assert_eq!(drone.work(), Ok(()));

    msg.routing_header.hop_index = 2;
    assert_eq!(d2_recv.try_recv().unwrap(), msg);
}

#[test]
fn test_wg2024_generic_fragment_drop() {
    let (c_send, c_recv) = unbounded();
    let (d2_send, _d2_recv) = unbounded();
    let mut drone = Station::new(11, HashMap::from([(12, d2_send), (1, c_send)]), 1.0);
    let msg = sample_packet();

    drone.packet_send.send(msg.clone()).unwrap();
    assert_eq!(drone.work(), Ok(()));

    let nack_packet = Packet {
        routing_header: SourceRoutingHeader { hop_index: 1, hops: vec![11, 1] },
        session_id: 1,
        pack_type: PacketType::Nack(Nack { fragment_index: 1, nack_type: NackType::Dropped }),
    };
    assert_eq!(c_recv.try_recv().unwrap(), nack_packet);
    assert_eq!(drone.events.try_recv().unwrap(), DroneEvent::PacketSent(nack_packet));
    assert_eq!(drone.events.try_recv().unwrap(), DroneEvent::PacketDropped(msg));
}

/// Client 1, drones 11 and 12, server 21, in a row.
fn chain(pdr_12: f32) -> (Receiver<Packet>, Station, Station, Receiver<Packet>) {
    let (c_send, c_recv) = unbounded();
    let (s_send, s_recv) = unbounded();
    let mut drone_11 = Station::new(11, HashMap::from([(1, c_send)]), 0.0);
    let mut drone_12 = Station::new(12, HashMap::from([(21, s_send)]), pdr_12);
    drone_11.command(DroneCommand::AddSender(12, drone_12.packet_send.clone()));
    drone_12.command(DroneCommand::AddSender(11, drone_11.packet_send.clone()));
    (c_recv, drone_11, drone_12, s_recv)
}

#[test]
fn test_wg2024_generic_chain_fragment_drop() {
    let (c_recv, mut drone_11, mut drone_12, s_recv) = chain(1.0);

    drone_11.packet_send.send(sample_packet()).unwrap();
    assert_eq!(drone_11.work(), Ok(()));
    assert_eq!(drone_12.work(), Ok(()));
    assert_eq!(drone_11.work(), Ok(()));

    assert_eq!(
        c_recv.try_recv().unwrap(),
        Packet {
            routing_header: SourceRoutingHeader { hop_index: 2, hops: vec![12, 11, 1] },
            session_id: 1,
            pack_type: PacketType::Nack(Nack { fragment_index: 1, nack_type: NackType::Dropped }),
        }
    );
    assert!(s_recv.try_recv().is_err());
}

#[test]
fn test_wg2024_generic_chain_fragment_ack() {
    let (c_recv, mut drone_11, mut drone_12, s_recv) = chain(0.0);

    drone_11.packet_send.send(sample_packet()).unwrap();
    assert_eq!(drone_11.work(), Ok(()));
    assert_eq!(drone_12.work(), Ok(()));
    let mut arrived = sample_packet();
    arrived.routing_header.hop_index = 3;
    assert_eq!(s_recv.try_recv().unwrap(), arrived);

    let mut ack = Packet {
        routing_header: SourceRoutingHeader { hop_index: 1, hops: vec![21, 12, 11, 1] },
        session_id: 1,
        pack_type: PacketType::Ack(Ack { fragment_index: 1 }),
    };
    drone_12.packet_send.send(ack.clone()).unwrap();
    assert_eq!(drone_12.work(), Ok(()));
    assert_eq!(drone_11.work(), Ok(()));
    ack.routing_header.hop_index = 3;
    assert_eq!(c_recv.try_recv().unwrap(), ack);
}

#[test]
fn disconnected_neighbor_ends_the_drone() {
    let (tx, rx) = unbounded::<Packet>();
    let mut station = Station::new(11, HashMap::from([(12, tx)]), 0.0);
    station.packet_send.send(sample_packet()).unwrap();
    drop(rx);
    assert_eq!(station.work(), Err(Fault::NeighborDisconnected));
    assert!(station.events.try_recv().is_err());
}

#[test]
fn disconnected_controller_ends_the_drone() {
    let (tx, rx) = unbounded::<Packet>();
    let mut station = Station::new(11, HashMap::from([(12, tx)]), 0.0);
    let (_, nobody) = unbounded::<DroneEvent>();
    station.events = nobody;
    station.packet_send.send(sample_packet()).unwrap();
    assert_eq!(station.work(), Err(Fault::ControllerDisconnected));
    assert!(rx.try_recv().is_ok());
}
