//! The drone.

use crate::action::views;
use crate::action::Action;
use crate::action::ActionView;
use crate::controller::CommandOutcome;
use crate::controller::DroneCommand;
use crate::controller::DroneEvent;
use crate::controller::DroneEventView;
use crate::fault::prefix;
use crate::fault::prefix_text;
use crate::fault::Fault;
use crate::model::deliver;
use crate::model::deliver_all;
use crate::model::forward;
use crate::model::nack_fault;
use crate::model::reversed_nodes;
use crate::model::DroneView;
use crate::network::NodeId;
use crate::network::SourceRoutingHeader;
use crate::packet::Ack;
use crate::packet::FloodRequest;
use crate::packet::FloodResponse;
use crate::packet::Fragment;
use crate::packet::Nack;
use crate::packet::NackType;
use crate::packet::NodeType;
use crate::packet::Packet;
use crate::packet::PacketType;
use crate::packet::PacketTypeView;
use crate::packet::PacketView;
use crate::rate::lemma_bounds;
use crate::rate::Rate;
use std::collections::BTreeSet;
use std::collections::HashMap;
use vstd::prelude::*;

verus! {

/// A drone, whose neighbors are reached through senders of type `S`.
pub struct RustRoveri<S> {
    id: NodeId,
    packet_send: HashMap<NodeId, S>,
    pdr: Rate,
    should_terminate: bool,
    flood_ids: BTreeSet<u64>,
}

impl<S> View for RustRoveri<S> {
    type V = DroneView<S>;

    closed spec fn view(&self) -> DroneView<S> {
        DroneView {
            id: self.id,
            packet_send: self.packet_send@,
            pdr: self.pdr,
            should_terminate: self.should_terminate,
            flood_ids: self.flood_ids@,
        }
    }
}

impl<S> RustRoveri<S> {
    /// A drone with these neighbors. The drop rate is brought into the interval from zero to one.
    pub fn new(id: NodeId, packet_send: HashMap<NodeId, S>, pdr: Rate) -> (drone: Self)
        ensures
            drone@ == (DroneView {
                id,
                packet_send: packet_send@,
                pdr: pdr.spec_clamped(),
                should_terminate: false,
                flood_ids: Set::empty(),
            }),
            drone@.valid(),
    {
        proof {
            lemma_bounds();
        }
        RustRoveri {
            id,
            packet_send,
            pdr: pdr.clamped(),
            should_terminate: false,
            flood_ids: BTreeSet::new(),
        }
    }

    /// Whether a packet with this header can be passed on; if not, the Nack that says why.
    pub fn check_header(&self, header: &SourceRoutingHeader, fragment_index: u64) -> (r: Result<
        (),
        Nack,
    >)
        ensures
            r == (match self@.refusal(header@) {
                None => Ok::<(), Nack>(()),
                Some(nack_type) => Err::<(), Nack>(Nack { fragment_index, nack_type }),
            }),
    {
        broadcast use vstd::std_specs::hash::group_hash_axioms;

        // Is the packet meant for this drone?
        if header.hop_index >= header.hops.len() {
            return Err(Nack { fragment_index, nack_type: NackType::ErrorInRouting(self.id) });
        }
        let id = header.hops[header.hop_index];
        if id != self.id {
            return Err(Nack { fragment_index, nack_type: NackType::UnexpectedRecipient(id) });
        }
        // Is there a next hop, and is it a neighbor?
        let next_index = header.hop_index + 1;
        if next_index >= header.hops.len() {
            return Err(Nack { fragment_index, nack_type: NackType::DestinationIsDrone });
        }
        let next_id = header.hops[next_index];
        if !self.packet_send.contains_key(&next_id) {
            return Err(Nack { fragment_index, nack_type: NackType::ErrorInRouting(next_id) });
        }
        Ok(())
    }

    /// Whether a fragment with this header can be passed on, where `draw` is the number drawn for
    /// it; if not, the Nack that says why.
    pub fn check_fragment(
        &self,
        header: &SourceRoutingHeader,
        fragment: &Fragment,
        draw: Rate,
    ) -> (r: Result<(), Nack>)
        ensures
            r == (match self@.fragment_refusal(header@, draw) {
                None => Ok::<(), Nack>(()),
                Some(nack_type) => Err::<(), Nack>(
                    Nack { fragment_index: fragment.fragment_index, nack_type },
                ),
            }),
    {
        let fragment_index = fragment.fragment_index;
        self.check_header(header, fragment_index)?;
        proof {
            lemma_bounds();
        }
        if draw.at_most(&self.pdr) && !self.pdr.at_most(&Rate { bits: 0 }) {
            Err(Nack { fragment_index, nack_type: NackType::Dropped })
        } else {
            Ok(())
        }
    }

    /// The hops that the packet has come along, last to first; none where the route does not
    /// reach as far as its index.
    pub fn reverse_hops(header: &SourceRoutingHeader) -> (r: Option<Vec<NodeId>>)
        requires
            header.hop_index < usize::MAX,
        ensures
            match r {
                Some(hops) => {
                    &&& header@.hop_index < header@.hops.len()
                    &&& hops@ == header@.hops.take(header@.hop_index + 1).reverse()
                },
                None => header@.hop_index >= header@.hops.len(),
            },
    {
        if header.hop_index >= header.hops.len() {
            return None;
        }
        let n: usize = header.hop_index + 1;
        let mut reversed: Vec<NodeId> = Vec::new();
        for i in 0..n
            invariant
                n == header.hop_index + 1,
                n <= header.hops@.len(),
                reversed@.len() == i,
                forall|j: int| 0 <= j < i ==> reversed@[j] == header.hops@[n - 1 - j],
        {
            reversed.push(header.hops[n - 1 - i]);
        }
        assert(reversed@ =~= header@.hops.take(header@.hop_index + 1).reverse());
        Some(reversed)
    }

    /// The sender of the hop that the packet's header points at.
    pub fn get_sender(&self, packet: &Packet) -> (r: Option<&S>)
        ensures
            ({
                let header = packet@.routing_header;
                let to = header.hops[header.hop_index];
                r == (if header.hop_index < header.hops.len() && self@.is_neighbor(to) {
                    Some(&self@.packet_send[to])
                } else {
                    None
                })
            }),
    {
        broadcast use vstd::std_specs::hash::group_hash_axioms;

        let next_index = packet.routing_header.hop_index;
        if next_index >= packet.routing_header.hops.len() {
            return None;
        }
        self.packet_send.get(&packet.routing_header.hops[next_index])
    }

    /// Sending a packet to a neighbor.
    pub fn send_packet_to_sender(packet: Packet, to: NodeId) -> (actions: Vec<Action>)
        ensures
            views(actions@) == deliver(to, packet@),
    {
        let copy = packet.clone();
        let mut actions: Vec<Action> = Vec::new();
        actions.push(Action::Deliver(to, copy));
        actions.push(Action::Report(DroneEvent::PacketSent(packet)));
        assert(views(actions@) =~= deliver(to, packet@));
        actions
    }

    /// Sending a packet to the hop that its header points at.
    pub fn send_packet(&self, packet: Packet) -> (actions: Vec<Action>)
        requires
            packet@.routing_header.hop_index < packet@.routing_header.hops.len(),
            self@.is_neighbor(
                packet@.routing_header.hops[packet@.routing_header.hop_index],
            ),
        ensures
            views(actions@) == deliver(
                packet@.routing_header.hops[packet@.routing_header.hop_index],
                packet@,
            ),
    {
        let to = packet.routing_header.hops[packet.routing_header.hop_index];
        Self::send_packet_to_sender(packet, to)
    }

    /// Reporting an event.
    pub fn send_drone_event(event: DroneEvent) -> (actions: Vec<Action>)
        ensures
            views(actions@) == seq![ActionView::Report(event@)],
    {
        let mut actions: Vec<Action> = Vec::new();
        actions.push(Action::Report(event));
        assert(views(actions@) =~= seq![ActionView::Report(event@)]);
        actions
    }

    /// Reporting that a packet was not passed on.
    pub fn send_drop_event(
        pack_type: PacketType,
        routing_header: SourceRoutingHeader,
        session_id: u64,
    ) -> (action: Action)
        ensures
            action@ == ActionView::Report(
                DroneEventView::PacketDropped(
                    PacketView {
                        routing_header: routing_header@,
                        session_id,
                        pack_type: pack_type@,
                    },
                ),
            ),
    {
        Action::Report(
            DroneEvent::PacketDropped(Packet { routing_header, session_id, pack_type }),
        )
    }

    /// Passing a packet on to the hop that follows on its route.
    fn forward(
        &self,
        pack_type: PacketType,
        header: SourceRoutingHeader,
        session_id: u64,
    ) -> (actions: Vec<Action>)
        requires
            self@.refusal(header@) is None,
        ensures
            views(actions@) == forward(
                PacketView { routing_header: header@, session_id, pack_type: pack_type@ },
            ),
    {
        assert(header.hop_index < header.hops.len());
        self.send_packet(
            Packet {
                routing_header: SourceRoutingHeader {
                    hop_index: header.hop_index + 1,
                    hops: header.hops,
                },
                session_id,
                pack_type,
            },
        )
    }

    /// Sending a packet to the hop that its header points at: straight to it where it is a
    /// neighbor, else through the controller.
    fn hand_over(&self, packet: Packet) -> (actions: Vec<Action>)
        requires
            packet@.routing_header.hop_index < packet@.routing_header.hops.len(),
        ensures
            views(actions@) == self@.hand_over(packet@),
    {
        match self.get_sender(&packet) {
            Some(_) => self.send_packet(packet),
            None => Self::send_drone_event(DroneEvent::ControllerShortcut(packet)),
        }
    }

    /// Answering a packet with a Nack.
    pub fn send_nack(&self, nack: Nack, header: &SourceRoutingHeader, session_id: u64) -> (actions:
        Vec<Action>)
        requires
            nack_fault(header@) is None,
        ensures
            views(actions@) == self@.nack_actions(nack, header@, session_id),
    {
        match Self::reverse_hops(header) {
            Some(hops) => self.hand_over(
                Packet {
                    routing_header: SourceRoutingHeader { hop_index: 1, hops },
                    session_id,
                    pack_type: PacketType::Nack(nack),
                },
            ),
            None => {
                let mut hops: Vec<NodeId> = Vec::new();
                hops.push(header.hops[0]);
                assert(hops@ =~= seq![header@.hops[0]]);
                Self::send_drone_event(
                    DroneEvent::ControllerShortcut(
                        Packet {
                            routing_header: SourceRoutingHeader { hop_index: 1, hops },
                            session_id,
                            pack_type: PacketType::Nack(nack),
                        },
                    ),
                )
            },
        }
    }

    /// Handling a fragment, where `draw` is the number drawn for it.
    pub fn handle_fragment(
        &self,
        fragment: Fragment,
        header: SourceRoutingHeader,
        session_id: u64,
        draw: Rate,
    ) -> (actions: Vec<Action>)
        requires
            self@.fault(
                PacketView {
                    routing_header: header@,
                    session_id,
                    pack_type: PacketTypeView::MsgFragment(fragment),
                },
                draw,
            ) is None,
        ensures
            self@.answers(
                PacketView {
                    routing_header: header@,
                    session_id,
                    pack_type: PacketTypeView::MsgFragment(fragment),
                },
                draw,
                views(actions@),
            ),
    {
        match self.check_fragment(&header, &fragment, draw) {
            Err(nack) => {
                let mut actions = self.send_nack(nack, &header, session_id);
                let ghost before = actions@;
                let dropped = Self::send_drop_event(
                    PacketType::MsgFragment(fragment),
                    header,
                    session_id,
                );
                actions.push(dropped);
                assert(views(actions@) =~= views(before).push(dropped@));
                actions
            },
            Ok(()) => self.forward(PacketType::MsgFragment(fragment), header, session_id),
        }
    }

    /// Handling a flood response.
    pub fn handle_flood_response(
        &self,
        res: FloodResponse,
        header: SourceRoutingHeader,
        session_id: u64,
    ) -> (actions: Vec<Action>)
        requires
            self@.refusal(header@) is Some ==> nack_fault(header@) is None,
        ensures
            views(actions@) == self@.pass_or_nack(
                PacketView {
                    routing_header: header@,
                    session_id,
                    pack_type: PacketTypeView::FloodResponse(res@),
                },
                0,
                self@.refusal(header@),
            ),
    {
        match self.check_header(&header, 0) {
            Err(nack) => {
                let mut actions = self.send_nack(nack, &header, session_id);
                let ghost before = actions@;
                let dropped = Self::send_drop_event(
                    PacketType::FloodResponse(res),
                    header,
                    session_id,
                );
                actions.push(dropped);
                assert(views(actions@) =~= views(before).push(dropped@));
                actions
            },
            Ok(()) => self.forward(PacketType::FloodResponse(res), header, session_id),
        }
    }

    /// Handling an Ack.
    pub fn handle_ack(&self, ack: Ack, header: SourceRoutingHeader, session_id: u64) -> (actions:
        Vec<Action>)
        requires
            header@.hops.len() > 0,
        ensures
            views(actions@) == self@.pass_or_shortcut(
                PacketView {
                    routing_header: header@,
                    session_id,
                    pack_type: PacketTypeView::Ack(ack),
                },
            ),
    {
        if self.check_header(&header, 0).is_err() {
            Self::send_drone_event(
                DroneEvent::ControllerShortcut(
                    Packet {
                        routing_header: header,
                        session_id,
                        pack_type: PacketType::Ack(ack),
                    },
                ),
            )
        } else {
            self.forward(PacketType::Ack(ack), header, session_id)
        }
    }

    /// Handling a Nack.
    pub fn handle_nack(&self, nack: Nack, header: SourceRoutingHeader, session_id: u64) -> (actions:
        Vec<Action>)
        requires
            header@.hops.len() > 0,
        ensures
            views(actions@) == self@.pass_or_shortcut(
                PacketView {
                    routing_header: header@,
                    session_id,
                    pack_type: PacketTypeView::Nack(nack),
                },
            ),
    {
        if self.check_header(&header, 0).is_err() {
            Self::send_drone_event(
                DroneEvent::ControllerShortcut(
                    Packet {
                        routing_header: header,
                        session_id,
                        pack_type: PacketType::Nack(nack),
                    },
                ),
            )
        } else {
            self.forward(PacketType::Nack(nack), header, session_id)
        }
    }

    /// The neighbors other than one node, in any order.
    pub fn get_adjacents_but(&self, node_id: NodeId) -> (adjacents: Vec<NodeId>)
        ensures
            adjacents@.no_duplicates(),
            adjacents@.to_set() == self@.adjacents_but(node_id),
    {
        broadcast use vstd::std_specs::hash::group_hash_axioms;

        let mut adjacents: Vec<NodeId> = Vec::new();
        for id in it: self.packet_send.keys()
            invariant
                adjacents@.no_duplicates(),
                it.seq().no_duplicates(),
                it.seq().unref().to_set() == self.packet_send@.dom(),
                forall|n: NodeId| #[trigger]
                    adjacents@.contains(n) <==> n != node_id && it.seq().unref().take(
                        it.index(),
                    ).contains(n),
                it.index() == it.seq().len() ==> it.seq().unref().take(it.index())
                    =~= it.seq().unref(),
        {
            let ghost before = adjacents@;
            if *id != node_id {
                adjacents.push(*id);
            }
            proof {
                let nodes = it.seq().unref();
                let i = it.index();
                assert(nodes.take(i + 1) =~= nodes.take(i).push(*id));
                if nodes.take(i).contains(*id) {
                    let j = choose|j: int| 0 <= j < i && nodes.take(i)[j] == *id;
                    assert(it.seq()[j] == it.seq()[i]);
                }
                assert(!before.contains(*id));
                assert forall|n: NodeId| #[trigger]
                    adjacents@.contains(n) <==> n != node_id && nodes.take(i + 1).contains(n) by {
                    lemma_contains_push(nodes.take(i), *id, n);
                    lemma_contains_push(before, *id, n);
                }
                assert forall|j: int, k: int|
                    0 <= j < adjacents@.len() && 0 <= k < adjacents@.len() && j
                        != k implies adjacents@[j] != adjacents@[k] by {
                    if j < before.len() {
                        assert(before.contains(before[j]));
                    }
                    if k < before.len() {
                        assert(before.contains(before[k]));
                    }
                }
            }
        }
        assert(adjacents@.to_set() =~= self@.adjacents_but(node_id));
        adjacents
    }

    /// Answering a flood request.
    pub fn begin_flood_response(&self, req: FloodRequest, session_id: u64) -> (actions: Vec<Action>)
        requires
            req@.path_trace.len() > 0,
        ensures
            views(actions@) == self@.hand_over(self@.flood_response_packet(req@, session_id)),
    {
        let mut path_trace = req.path_trace;
        path_trace.push((self.id, NodeType::Drone));
        let n: usize = path_trace.len();
        let mut hops: Vec<NodeId> = Vec::new();
        for i in 0..n
            invariant
                n == path_trace@.len(),
                hops@.len() == i,
                forall|j: int| 0 <= j < i ==> hops@[j] == path_trace@[n - 1 - j].0,
        {
            hops.push(path_trace[n - 1 - i].0);
        }
        assert(hops@ =~= reversed_nodes(path_trace@));
        self.hand_over(
            Packet {
                routing_header: SourceRoutingHeader { hop_index: 1, hops },
                session_id,
                pack_type: PacketType::FloodResponse(
                    FloodResponse { flood_id: req.flood_id, path_trace },
                ),
            },
        )
    }

    /// Remembers a flood; whether it is new.
    fn remember_flood(&mut self, flood_id: u64) -> (new: bool)
        ensures
            new == !old(self)@.flood_ids.contains(flood_id),
            final(self)@ == (DroneView {
                flood_ids: old(self)@.flood_ids.insert(flood_id),
                ..old(self)@
            }),
    {
        broadcast use vstd::laws_cmp::group_laws_cmp;

        self.flood_ids.insert(flood_id)
    }

    /// Handling a flood request: a new one goes to all neighbors but the one it came from; one
    /// whose flood id was received before, from whichever node, or that there is nobody to pass on
    /// to, is answered.
    pub fn handle_flood_request(
        &mut self,
        req: FloodRequest,
        header: SourceRoutingHeader,
        session_id: u64,
    ) -> (actions: Vec<Action>)
        requires
            req@.path_trace.len() > 0,
        ensures
            final(self)@ == old(self)@.after_flood_request(req@),
            old(self)@.answers_flood_request(req@, header@, session_id, views(actions@)),
    {
        let previous = req.path_trace[req.path_trace.len() - 1].0;
        if self.remember_flood(req.flood_id) {
            let adjacents = self.get_adjacents_but(previous);
            if adjacents.len() == 0 {
                assert(adjacents@.to_set() =~= Set::empty());
                self.begin_flood_response(req, session_id)
            } else {
                assert(adjacents@.to_set().contains(adjacents@[0]));
                let mut path_trace = req.path_trace;
                path_trace.push((self.id, NodeType::Drone));
                let packet = Packet {
                    routing_header: header,
                    session_id,
                    pack_type: PacketType::FloodRequest(
                        FloodRequest {
                            flood_id: req.flood_id,
                            initiator_id: req.initiator_id,
                            path_trace,
                        },
                    ),
                };
                Self::send_packet_to_all(&packet, &adjacents)
            }
        } else {
            self.begin_flood_response(req, session_id)
        }
    }

    /// Sending one packet to each of several neighbors in turn.
    fn send_packet_to_all(packet: &Packet, order: &Vec<NodeId>) -> (actions: Vec<Action>)
        ensures
            views(actions@) == deliver_all(order@, packet@),
    {
        let mut actions: Vec<Action> = Vec::new();
        for i in 0..order.len()
            invariant
                views(actions@) == deliver_all(order@.take(i as int), packet@),
        {
            let ghost before = actions@;
            let mut sent = Self::send_packet_to_sender(packet.clone(), order[i]);
            let ghost added = sent@;
            actions.append(&mut sent);
            assert(views(actions@) =~= views(before) + views(added));
            assert(order@.take(i + 1).drop_last() =~= order@.take(i as int));
        }
        assert(order@.take(order@.len() as int) =~= order@);
        actions
    }

    /// Whether, and why, the drone has to give up on a packet, where `draw` is the number drawn
    /// for it. To be asked before the packet is handled.
    pub fn diagnose(&self, packet: &Packet, draw: Rate) -> (r: Option<Fault>)
        ensures
            r == self@.fault(packet@, draw),
    {
        let header = &packet.routing_header;
        match &packet.pack_type {
            PacketType::MsgFragment(fragment) => {
                if self.check_fragment(header, fragment, draw).is_err() {
                    Self::diagnose_nack(header)
                } else {
                    None
                }
            },
            PacketType::FloodRequest(req) => {
                if req.path_trace.len() == 0 {
                    Some(Fault::EmptyPathTrace)
                } else {
                    None
                }
            },
            PacketType::FloodResponse(_) => {
                if self.check_header(header, 0).is_err() {
                    Self::diagnose_nack(header)
                } else {
                    None
                }
            },
            PacketType::Ack(_) => {
                if header.hops.len() == 0 {
                    Some(Fault::AckWithoutRoute)
                } else {
                    None
                }
            },
            PacketType::Nack(_) => {
                if header.hops.len() == 0 {
                    Some(Fault::NackWithoutRoute)
                } else {
                    None
                }
            },
        }
    }

    /// Whether, and why, a packet with this header cannot be answered with a Nack.
    fn diagnose_nack(header: &SourceRoutingHeader) -> (r: Option<Fault>)
        ensures
            r == nack_fault(header@),
    {
        if header.hop_index == usize::MAX || (header.hop_index == 0 && header.hops.len() > 0) {
            Some(Fault::NoPreviousHop)
        } else if header.hops.len() == 0 {
            Some(Fault::NoPacketSender)
        } else {
            None
        }
    }

    /// Handling a packet, where `draw` is the number drawn for it.
    pub fn handle_packet(&mut self, packet: Packet, draw: Rate) -> (actions: Vec<Action>)
        requires
            old(self)@.fault(packet@, draw) is None,
        ensures
            final(self)@ == old(self)@.after_packet(packet@),
            old(self)@.answers(packet@, draw, views(actions@)),
            old(self)@.valid() ==> final(self)@.valid(),
    {
        let header = packet.routing_header;
        let session_id = packet.session_id;
        match packet.pack_type {
            PacketType::MsgFragment(fragment) => {
                self.handle_fragment(fragment, header, session_id, draw)
            },
            PacketType::FloodRequest(req) => self.handle_flood_request(req, header, session_id),
            PacketType::FloodResponse(res) => self.handle_flood_response(res, header, session_id),
            PacketType::Ack(ack) => self.handle_ack(ack, header, session_id),
            PacketType::Nack(nack) => self.handle_nack(nack, header, session_id),
        }
    }

    /// Handling a command.
    pub fn handle_command(&mut self, command: DroneCommand<S>) -> (outcome: CommandOutcome)
        ensures
            final(self)@ == old(self)@.after_command(command),
            outcome == old(self)@.outcome(command),
            old(self)@.valid() ==> final(self)@.valid(),
    {
        match command {
            DroneCommand::SetPacketDropRate(pdr) => {
                if self.set_packet_drop_rate(pdr) {
                    CommandOutcome::RateSet(pdr)
                } else {
                    CommandOutcome::RateRefused(pdr)
                }
            },
            DroneCommand::AddSender(node_id, sender) => {
                if self.add_sender(node_id, sender).is_some() {
                    CommandOutcome::NeighborUpdated(node_id)
                } else {
                    CommandOutcome::NeighborAdded(node_id)
                }
            },
            DroneCommand::Crash => {
                self.crash();
                CommandOutcome::Crashing(self.id)
            },
            DroneCommand::RemoveSender(node_id) => {
                if self.remove_sender(node_id).is_some() {
                    CommandOutcome::NeighborRemoved(node_id)
                } else {
                    CommandOutcome::NoSuchNeighbor(node_id)
                }
            },
        }
    }

    /// Takes a new drop rate, if it lies between zero and one; whether it does.
    pub fn set_packet_drop_rate(&mut self, pdr: Rate) -> (taken: bool)
        ensures
            taken == pdr.unit(),
            final(self)@ == old(self)@.after_command(DroneCommand::SetPacketDropRate(pdr)),
    {
        if pdr.is_unit() {
            self.pdr = pdr;
            true
        } else {
            false
        }
    }

    /// Makes a node a neighbor; its former sender, if it was one.
    pub fn add_sender(&mut self, node_id: NodeId, sender: S) -> (former: Option<S>)
        ensures
            former == (if old(self)@.is_neighbor(node_id) {
                Some(old(self)@.packet_send[node_id])
            } else {
                None
            }),
            final(self)@ == old(self)@.after_command(DroneCommand::AddSender(node_id, sender)),
    {
        broadcast use vstd::std_specs::hash::group_hash_axioms;

        self.packet_send.insert(node_id, sender)
    }

    /// Tells the drone to go down.
    pub fn crash(&mut self)
        ensures
            final(self)@ == old(self)@.after_command(DroneCommand::Crash),
    {
        self.should_terminate = true;
    }

    /// Makes a node no neighbor; its former sender, if it was one.
    pub fn remove_sender(&mut self, node_id: NodeId) -> (former: Option<S>)
        ensures
            former == (if old(self)@.is_neighbor(node_id) {
                Some(old(self)@.packet_send[node_id])
            } else {
                None
            }),
            final(self)@ == old(self)@.after_command(DroneCommand::RemoveSender(node_id)),
    {
        broadcast use vstd::std_specs::hash::group_hash_axioms;

        self.packet_send.remove(&node_id)
    }

    /// The drone's own name.
    pub fn id(&self) -> (r: NodeId)
        ensures
            r == self@.id,
    {
        self.id
    }

    /// The share of fragments to lose.
    pub fn pdr(&self) -> (r: Rate)
        ensures
            r == self@.pdr,
    {
        self.pdr
    }

    /// Whether the drone was told to go down.
    pub fn should_terminate(&self) -> (r: bool)
        ensures
            r == self@.should_terminate,
    {
        self.should_terminate
    }

    /// The sender of a neighbor.
    pub fn sender(&self, node_id: NodeId) -> (r: Option<&S>)
        ensures
            r == (if self@.is_neighbor(node_id) {
                Some(&self@.packet_send[node_id])
            } else {
                None
            }),
    {
        broadcast use vstd::std_specs::hash::group_hash_axioms;

        self.packet_send.get(&node_id)
    }

    /// Whether the drone has no neighbors.
    pub fn is_isolated(&self) -> (r: bool)
        ensures
            r == (self@.packet_send.dom() =~= Set::empty()),
    {
        broadcast use vstd::std_specs::hash::group_hash_axioms;

        self.packet_send.is_empty()
    }

    /// Whether the drone has seen no flood yet.
    pub fn has_seen_no_flood(&self) -> (r: bool)
        ensures
            r == (self@.flood_ids =~= Set::empty()),
    {
        self.flood_ids.is_empty()
    }

    /// How the drone starts what it says.
    pub fn get_prefix(&self) -> (r: String)
        ensures
            r@ == prefix(self@.id),
    {
        prefix_text(self.id)
    }

}

/// A pushed element is contained, and nothing else is that was not before.
proof fn lemma_contains_push<A>(s: Seq<A>, a: A, x: A)
    ensures
        s.push(a).contains(x) <==> s.contains(x) || x == a,
{
    if s.contains(x) {
        let i = choose|i: int| 0 <= i < s.len() && s[i] == x;
        assert(s.push(a)[i] == x);
    }
    assert(s.push(a)[s.len() as int] == a);
}

} // verus!
