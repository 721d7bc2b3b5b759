//! The mathematical model of a drone: what it holds, and what it owes for each packet and command.

use crate::action::ActionView;
use crate::controller::CommandOutcome;
use crate::controller::DroneCommand;
use crate::controller::DroneEventView;
use crate::fault::Fault;
use crate::network::HeaderView;
use crate::network::NodeId;
use crate::packet::FloodRequestView;
use crate::packet::FloodResponseView;
use crate::packet::Nack;
use crate::packet::NackType;
use crate::packet::NodeType;
use crate::packet::PacketTypeView;
use crate::packet::PacketView;
use crate::rate::Rate;
use vstd::prelude::*;

verus! {

/// What a drone holds.
#[verifier::ext_equal]
pub struct DroneView<S> {
    /// The drone's own name.
    pub id: NodeId,
    /// The neighbors, each with the sender through which it is reached.
    pub packet_send: Map<NodeId, S>,
    /// The share of fragments to lose.
    pub pdr: Rate,
    /// Whether the drone was told to go down.
    pub should_terminate: bool,
    /// The ids of the floods received.
    pub flood_ids: Set<u64>,
}

/// Handing a packet to a neighbor, and reporting so.
pub open spec fn deliver(to: NodeId, packet: PacketView) -> Seq<ActionView> {
    seq![
        ActionView::Deliver(to, packet),
        ActionView::Report(DroneEventView::PacketSent(packet)),
    ]
}

/// Handing one packet to each of several neighbors in turn.
pub open spec fn deliver_all(order: Seq<NodeId>, packet: PacketView) -> Seq<ActionView>
    decreases order.len(),
{
    if order.len() == 0 {
        seq![]
    } else {
        deliver_all(order.drop_last(), packet) + deliver(order.last(), packet)
    }
}

/// The packet, `steps` hops further along its route.
pub open spec fn advanced(packet: PacketView, steps: int) -> PacketView {
    PacketView {
        routing_header: HeaderView {
            hop_index: packet.routing_header.hop_index + steps,
            hops: packet.routing_header.hops,
        },
        ..packet
    }
}

/// Handing a packet to the hop that follows on its route.
pub open spec fn forward(packet: PacketView) -> Seq<ActionView> {
    let header = packet.routing_header;
    deliver(header.hops[header.hop_index + 1], advanced(packet, 1))
}

/// The nodes of a path trace, last to first.
pub open spec fn reversed_nodes(trace: Seq<(NodeId, NodeType)>) -> Seq<NodeId> {
    Seq::new(trace.len(), |i: int| trace[trace.len() - 1 - i].0)
}

/// The packet that takes a Nack back along the route of the packet that it answers. Where the
/// route does not reach as far as its index, the Nack names the source alone.
pub open spec fn nack_packet(nack: Nack, header: HeaderView, session_id: u64) -> PacketView {
    PacketView {
        routing_header: HeaderView {
            hop_index: 1,
            hops: if header.hop_index < header.hops.len() {
                header.hops.take(header.hop_index + 1).reverse()
            } else {
                seq![header.hops[0]]
            },
        },
        session_id,
        pack_type: PacketTypeView::Nack(nack),
    }
}

/// Why a packet with this header cannot be answered with a Nack, if it cannot. Without a hop
/// before the drone there is nobody to send it to; an index that cannot be advanced has none.
pub open spec fn nack_fault(header: HeaderView) -> Option<Fault> {
    if header.hop_index == usize::MAX || (header.hop_index == 0 && header.hops.len() > 0) {
        Some(Fault::NoPreviousHop)
    } else if header.hops.len() == 0 {
        Some(Fault::NoPacketSender)
    } else {
        None
    }
}

impl<S> DroneView<S> {
    /// Whether the drone can hand packets to the node.
    pub open spec fn is_neighbor(self, node_id: NodeId) -> bool {
        self.packet_send.contains_key(node_id)
    }

    /// The neighbors other than one node.
    pub open spec fn adjacents_but(self, node_id: NodeId) -> Set<NodeId> {
        self.packet_send.dom().remove(node_id)
    }

    /// What every drone keeps: its drop rate lies between zero and one, or is no number.
    pub open spec fn valid(self) -> bool {
        self.pdr.unit() || self.pdr.nan()
    }

    /// Why the drone does not pass a packet with this header on, if it does not.
    pub open spec fn refusal(self, header: HeaderView) -> Option<NackType> {
        let hops = header.hops;
        let i = header.hop_index;
        if i >= hops.len() {
            Some(NackType::ErrorInRouting(self.id))
        } else if hops[i] != self.id {
            Some(NackType::UnexpectedRecipient(hops[i]))
        } else if i + 1 == hops.len() {
            Some(NackType::DestinationIsDrone)
        } else if !self.is_neighbor(hops[i + 1]) {
            Some(NackType::ErrorInRouting(hops[i + 1]))
        } else {
            None
        }
    }

    /// Whether the drone loses a fragment for which `draw` was drawn: the number does not exceed the
    /// drop rate. A drop rate of zero loses nothing.
    pub open spec fn loses(self, draw: Rate) -> bool {
        draw.spec_at_most(self.pdr) && self.pdr.value() > 0
    }

    /// Why the drone does not pass a fragment with this header on, if it does not, where `draw` is
    /// the number drawn for it.
    pub open spec fn fragment_refusal(self, header: HeaderView, draw: Rate) -> Option<NackType> {
        match self.refusal(header) {
            Some(nack_type) => Some(nack_type),
            None => if self.loses(draw) {
                Some(NackType::Dropped)
            } else {
                None
            },
        }
    }

    /// Sending a packet to the hop that its header points at: straight to it where it is a
    /// neighbor, else through the controller.
    pub open spec fn hand_over(self, packet: PacketView) -> Seq<ActionView> {
        let header = packet.routing_header;
        let to = header.hops[header.hop_index];
        if self.is_neighbor(to) {
            deliver(to, packet)
        } else {
            seq![ActionView::Report(DroneEventView::ControllerShortcut(packet))]
        }
    }

    /// Answering a packet with a Nack.
    pub open spec fn nack_actions(self, nack: Nack, header: HeaderView, session_id: u64) -> Seq<
        ActionView,
    > {
        let packet = nack_packet(nack, header, session_id);
        if header.hop_index < header.hops.len() {
            self.hand_over(packet)
        } else {
            seq![ActionView::Report(DroneEventView::ControllerShortcut(packet))]
        }
    }

    /// Passing a packet on; or, where there is a reason not to, answering it with a Nack and
    /// reporting its loss.
    pub open spec fn pass_or_nack(
        self,
        packet: PacketView,
        fragment_index: u64,
        reason: Option<NackType>,
    ) -> Seq<ActionView> {
        match reason {
            None => forward(packet),
            Some(nack_type) => self.nack_actions(
                Nack { fragment_index, nack_type },
                packet.routing_header,
                packet.session_id,
            ).push(ActionView::Report(DroneEventView::PacketDropped(packet))),
        }
    }

    /// Passing a packet on; or, where that cannot be, leaving it to the controller as it is.
    pub open spec fn pass_or_shortcut(self, packet: PacketView) -> Seq<ActionView> {
        if self.refusal(packet.routing_header) is None {
            forward(packet)
        } else {
            seq![ActionView::Report(DroneEventView::ControllerShortcut(packet))]
        }
    }

    /// A path trace with the drone itself behind it.
    pub open spec fn traced(self, trace: Seq<(NodeId, NodeType)>) -> Seq<(NodeId, NodeType)> {
        trace.push((self.id, NodeType::Drone))
    }

    /// The flood request as the drone passes it on.
    pub open spec fn flood_request_packet(
        self,
        req: FloodRequestView,
        header: HeaderView,
        session_id: u64,
    ) -> PacketView {
        PacketView {
            routing_header: header,
            session_id,
            pack_type: PacketTypeView::FloodRequest(
                FloodRequestView { path_trace: self.traced(req.path_trace), ..req },
            ),
        }
    }

    /// The drone's answer to a flood request, on its way back along the path trace.
    pub open spec fn flood_response_packet(
        self,
        req: FloodRequestView,
        session_id: u64,
    ) -> PacketView {
        let trace = self.traced(req.path_trace);
        PacketView {
            routing_header: HeaderView { hop_index: 1, hops: reversed_nodes(trace) },
            session_id,
            pack_type: PacketTypeView::FloodResponse(
                FloodResponseView { flood_id: req.flood_id, path_trace: trace },
            ),
        }
    }

    /// Whether the drone answers the flood request itself: it has received the flood before,
    /// from whichever node, or has nobody to pass it on to.
    pub open spec fn ends_flood(self, req: FloodRequestView) -> bool {
        ||| self.flood_ids.contains(req.flood_id)
        ||| self.adjacents_but(req.path_trace.last().0) =~= Set::empty()
    }

    /// Whether `actions` is what the drone owes for a flood request: its answer; or the request
    /// to each neighbor but the one it came from, in any order.
    pub open spec fn answers_flood_request(
        self,
        req: FloodRequestView,
        header: HeaderView,
        session_id: u64,
        actions: Seq<ActionView>,
    ) -> bool {
        if self.ends_flood(req) {
            actions == self.hand_over(self.flood_response_packet(req, session_id))
        } else {
            exists|order: Seq<NodeId>|
                {
                    &&& order.no_duplicates()
                    &&& order.to_set() == self.adjacents_but(req.path_trace.last().0)
                    &&& actions == #[trigger] deliver_all(
                        order,
                        self.flood_request_packet(req, header, session_id),
                    )
                }
        }
    }

    /// Why the drone gives up on a packet, if it does, where `draw` is the number drawn for it.
    pub open spec fn fault(self, packet: PacketView, draw: Rate) -> Option<Fault> {
        let header = packet.routing_header;
        match packet.pack_type {
            PacketTypeView::MsgFragment(_) => if self.fragment_refusal(header, draw) is Some {
                nack_fault(header)
            } else {
                None
            },
            PacketTypeView::FloodRequest(req) => if req.path_trace.len() == 0 {
                Some(Fault::EmptyPathTrace)
            } else {
                None
            },
            PacketTypeView::FloodResponse(_) => if self.refusal(header) is Some {
                nack_fault(header)
            } else {
                None
            },
            PacketTypeView::Ack(_) => if header.hops.len() == 0 {
                Some(Fault::AckWithoutRoute)
            } else {
                None
            },
            PacketTypeView::Nack(_) => if header.hops.len() == 0 {
                Some(Fault::NackWithoutRoute)
            } else {
                None
            },
        }
    }

    /// Whether `actions` is what the drone owes for a packet on which it does not give up, where
    /// `draw` is the number drawn for it.
    pub open spec fn answers(
        self,
        packet: PacketView,
        draw: Rate,
        actions: Seq<ActionView>,
    ) -> bool {
        let header = packet.routing_header;
        match packet.pack_type {
            PacketTypeView::MsgFragment(fragment) => actions == self.pass_or_nack(
                packet,
                fragment.fragment_index,
                self.fragment_refusal(header, draw),
            ),
            PacketTypeView::FloodRequest(req) => self.answers_flood_request(
                req,
                header,
                packet.session_id,
                actions,
            ),
            PacketTypeView::FloodResponse(_) => actions == self.pass_or_nack(
                packet,
                0,
                self.refusal(header),
            ),
            PacketTypeView::Ack(_) => actions == self.pass_or_shortcut(packet),
            PacketTypeView::Nack(_) => actions == self.pass_or_shortcut(packet),
        }
    }

    /// The drone after a packet: it remembers the flood requests that it has received. A packet on
    /// which it gives up leaves it as it was.
    pub open spec fn after_packet(self, packet: PacketView) -> DroneView<S> {
        match packet.pack_type {
            PacketTypeView::FloodRequest(req) => if req.path_trace.len() == 0 {
                self
            } else {
                self.after_flood_request(req)
            },
            _ => self,
        }
    }

    /// The drone after a flood request.
    pub open spec fn after_flood_request(self, req: FloodRequestView) -> DroneView<S> {
        DroneView { flood_ids: self.flood_ids.insert(req.flood_id), ..self }
    }

    /// The drone after a command.
    pub open spec fn after_command(self, command: DroneCommand<S>) -> DroneView<S> {
        match command {
            DroneCommand::SetPacketDropRate(pdr) => if pdr.unit() {
                DroneView { pdr, ..self }
            } else {
                self
            },
            DroneCommand::AddSender(node_id, sender) => DroneView {
                packet_send: self.packet_send.insert(node_id, sender),
                ..self
            },
            DroneCommand::RemoveSender(node_id) => DroneView {
                packet_send: self.packet_send.remove(node_id),
                ..self
            },
            DroneCommand::Crash => DroneView { should_terminate: true, ..self },
        }
    }

    /// What becomes of a command.
    pub open spec fn outcome(self, command: DroneCommand<S>) -> CommandOutcome {
        match command {
            DroneCommand::SetPacketDropRate(pdr) => if pdr.unit() {
                CommandOutcome::RateSet(pdr)
            } else {
                CommandOutcome::RateRefused(pdr)
            },
            DroneCommand::AddSender(node_id, _) => if self.is_neighbor(node_id) {
                CommandOutcome::NeighborUpdated(node_id)
            } else {
                CommandOutcome::NeighborAdded(node_id)
            },
            DroneCommand::RemoveSender(node_id) => if self.is_neighbor(node_id) {
                CommandOutcome::NeighborRemoved(node_id)
            } else {
                CommandOutcome::NoSuchNeighbor(node_id)
            },
            DroneCommand::Crash => CommandOutcome::Crashing(self.id),
        }
    }
}

} // verus!
