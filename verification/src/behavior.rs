//! What a drone does with packets and commands, told by what comes in and what goes out alone.

use crate::action::ActionView;
use crate::controller::CommandOutcome;
use crate::controller::DroneCommand;
use crate::controller::DroneEventView;
use crate::fault::Fault;
use crate::laws::lemma_deliver_all;
use crate::model::deliver_all;
use crate::model::nack_fault;
use crate::model::DroneView;
use crate::network::HeaderView;
use crate::network::NodeId;
use crate::packet::FloodRequestView;
use crate::packet::Nack;
use crate::packet::NackType;
use crate::packet::NodeType;
use crate::packet::PacketTypeView;
use crate::packet::PacketView;
use crate::rate::Rate;
use vstd::prelude::*;

verus! {

/// What a refusal tells of the route, and when there is none. A packet is passed on exactly where
/// its header points at the drone and the hop after it is a neighbor. The drone is named as the
/// destination exactly where the route ends with it; another recipient exactly where the header
/// points at that node; and an error in the route either names the drone, and then the route
/// ends before the header's index, or names the very next hop, which is no neighbor.
pub proof fn law_refusal_tells_route<S>(drone: DroneView<S>, header: HeaderView, n: NodeId)
    requires
        header.hop_index >= 0,
    ensures
        ({
            let hops = header.hops;
            let i = header.hop_index;
            let why = drone.refusal(header);
            &&& why is None <==> {
                &&& i + 1 < hops.len()
                &&& hops[i] == drone.id
                &&& drone.packet_send.contains_key(hops[i + 1])
            }
            &&& why == Some(NackType::DestinationIsDrone) <==> {
                &&& i + 1 == hops.len()
                &&& hops[i] == drone.id
            }
            &&& why == Some(NackType::UnexpectedRecipient(n)) <==> {
                &&& i < hops.len()
                &&& hops[i] == n
                &&& n != drone.id
            }
            &&& why == Some(NackType::ErrorInRouting(n)) <==> {
                ||| i >= hops.len() && n == drone.id
                ||| {
                    &&& i + 1 < hops.len()
                    &&& hops[i] == drone.id
                    &&& hops[i + 1] == n
                    &&& !drone.packet_send.contains_key(n)
                }
            }
            &&& why != Some(NackType::Dropped)
        }),
{
}

/// A fragment is refused for its route as any packet is. Where its route is in order it is lost,
/// and that is all that can happen to it, exactly where the drop rate is above zero and the number
/// drawn is at most the drop rate.
pub proof fn law_fragment_loss<S>(drone: DroneView<S>, header: HeaderView, draw: Rate)
    ensures
        drone.refusal(header) is Some ==> drone.fragment_refusal(header, draw) == drone.refusal(
            header,
        ),
        drone.refusal(header) is None ==> {
            let why = drone.fragment_refusal(header, draw);
            if !draw.nan() && !drone.pdr.nan() && 0 < drone.pdr.value() && draw.value()
                <= drone.pdr.value() {
                why == Some(NackType::Dropped)
            } else {
                why is None
            }
        },
{
}

/// Who the neighbors are: those that the drone has a sender for; without one of them, all others.
pub proof fn law_neighbors<S>(drone: DroneView<S>, but: NodeId, n: NodeId)
    ensures
        drone.is_neighbor(n) <==> drone.packet_send.contains_key(n),
        drone.adjacents_but(but).contains(n) <==> drone.packet_send.contains_key(n) && n != but,
{
}

/// A fragment, an Ack, a Nack or a flood response whose header points at the drone and whose next
/// hop is a neighbor, and which is not lost, goes to that hop and to nobody else. It keeps its
/// session, its whole route and all that it carries; the index alone moves on, by one. What is
/// reported as sent is the packet that was handed over.
pub proof fn law_packet_goes_to_next_hop<S>(
    drone: DroneView<S>,
    packet: PacketView,
    draw: Rate,
    actions: Seq<ActionView>,
)
    requires
        !(packet.pack_type is FloodRequest),
        0 <= packet.routing_header.hop_index,
        packet.routing_header.hop_index + 1 < packet.routing_header.hops.len(),
        packet.routing_header.hops[packet.routing_header.hop_index] == drone.id,
        drone.packet_send.contains_key(
            packet.routing_header.hops[packet.routing_header.hop_index + 1],
        ),
        packet.pack_type is MsgFragment ==> !({
            &&& !draw.nan()
            &&& !drone.pdr.nan()
            &&& 0 < drone.pdr.value()
            &&& draw.value() <= drone.pdr.value()
        }),
        drone.answers(packet, draw, actions),
    ensures
        drone.fault(packet, draw) is None,
        actions.len() == 2,
        actions[0] is Deliver,
        actions[0]->Deliver_0 == packet.routing_header.hops[packet.routing_header.hop_index + 1],
        actions[0]->Deliver_1.session_id == packet.session_id,
        actions[0]->Deliver_1.pack_type == packet.pack_type,
        actions[0]->Deliver_1.routing_header.hops == packet.routing_header.hops,
        actions[0]->Deliver_1.routing_header.hop_index == packet.routing_header.hop_index + 1,
        actions[1] == ActionView::Report(DroneEventView::PacketSent(actions[0]->Deliver_1)),
{
}

/// A fragment that goes on arrives with the index, the total, the length and every data byte that
/// it came with.
pub proof fn law_fragment_arrives_whole<S>(
    drone: DroneView<S>,
    packet: PacketView,
    draw: Rate,
    actions: Seq<ActionView>,
    i: int,
)
    requires
        packet.pack_type is MsgFragment,
        drone.fault(packet, draw) is None,
        drone.answers(packet, draw, actions),
        packet.routing_header.hop_index >= 0,
        0 <= i < actions.len(),
        actions[i] is Deliver,
        actions[i]->Deliver_1.pack_type is MsgFragment,
    ensures
        ({
            let came = packet.pack_type->MsgFragment_0;
            let went = actions[i]->Deliver_1.pack_type->MsgFragment_0;
            &&& went.fragment_index == came.fragment_index
            &&& went.total_n_fragments == came.total_n_fragments
            &&& went.length == came.length
            &&& forall|j: int| 0 <= j < came.data@.len() ==> #[trigger] went.data@[j] == came.data@[j]
            &&& went.data@.len() == came.data@.len()
        }),
{
    if drone.fragment_refusal(packet.routing_header, draw) is Some {
        let nack = Nack {
            fragment_index: packet.pack_type->MsgFragment_0.fragment_index,
            nack_type: drone.fragment_refusal(packet.routing_header, draw)->0,
        };
        law_nack_goes_back(
            drone,
            nack,
            packet.routing_header,
            packet.session_id,
            drone.nack_actions(nack, packet.routing_header, packet.session_id),
        );
    }
}

/// A Nack says what it is to say, in the session of the packet that it answers. It visits the hops
/// from the drone back to the source, and its header points at the hop before the drone, to which
/// it goes where that is a neighbor; else it is left to the controller. Where the route ends
/// before the header's index, the Nack names the source alone and is left to the controller.
pub proof fn law_nack_goes_back<S>(
    drone: DroneView<S>,
    nack: Nack,
    header: HeaderView,
    session_id: u64,
    actions: Seq<ActionView>,
)
    requires
        header.hop_index > 0,
        header.hops.len() > 0,
        actions == drone.nack_actions(nack, header, session_id),
    ensures
        ({
            let i = header.hop_index;
            let straight = i < header.hops.len() && drone.packet_send.contains_key(
                header.hops[i - 1],
            );
            let sent = if straight {
                actions[0]->Deliver_1
            } else {
                actions[0]->Report_0->ControllerShortcut_0
            };
            let back = sent.routing_header.hops;
            &&& straight ==> {
                &&& actions.len() == 2
                &&& actions[0] == ActionView::Deliver(header.hops[i - 1], sent)
                &&& actions[1] == ActionView::Report(DroneEventView::PacketSent(sent))
            }
            &&& !straight ==> {
                &&& actions.len() == 1
                &&& actions[0] == ActionView::Report(DroneEventView::ControllerShortcut(sent))
            }
            &&& sent.session_id == session_id
            &&& sent.pack_type == PacketTypeView::Nack(nack)
            &&& sent.routing_header.hop_index == 1
            &&& i < header.hops.len() ==> back == Seq::new(
                (i + 1) as nat,
                |j: int| header.hops[i - j],
            )
            &&& i >= header.hops.len() ==> back == seq![header.hops[0]]
        }),
{
}

/// A packet can be answered with a Nack exactly where its route is not empty and its header points
/// behind the first hop, at an index that can still be counted up.
pub proof fn law_nack_is_possible(header: HeaderView)
    requires
        header.hop_index >= 0,
    ensures
        nack_fault(header) is None <==> {
            &&& header.hops.len() > 0
            &&& 0 < header.hop_index
            &&& header.hop_index != usize::MAX
        },
        nack_fault(header) is Some ==> (nack_fault(header) == Some(Fault::NoPacketSender) <==> {
            &&& header.hops.len() == 0
            &&& header.hop_index != usize::MAX
        }),
        nack_fault(header) is Some ==> {
            ||| nack_fault(header) == Some(Fault::NoPacketSender)
            ||| nack_fault(header) == Some(Fault::NoPreviousHop)
        },
{
}

/// A fragment or a flood response that cannot go on is answered with one Nack, which goes back as
/// Nacks do, and is then reported as dropped, as it came in. The Nack names the fragment, or zero
/// for a flood response, and the reason: the drone where the route ends before the header's
/// index; the node that the header points at where that is another; the drone as the destination
/// where the route ends with it; the next hop where that is no neighbor; else that it was lost.
pub proof fn law_packet_is_turned_back<S>(
    drone: DroneView<S>,
    packet: PacketView,
    draw: Rate,
    actions: Seq<ActionView>,
)
    requires
        packet.pack_type is MsgFragment || packet.pack_type is FloodResponse,
        0 < packet.routing_header.hop_index < usize::MAX,
        packet.routing_header.hops.len() > 0,
        !({
            &&& packet.routing_header.hop_index + 1 < packet.routing_header.hops.len()
            &&& packet.routing_header.hops[packet.routing_header.hop_index] == drone.id
            &&& drone.packet_send.contains_key(
                packet.routing_header.hops[packet.routing_header.hop_index + 1],
            )
            &&& packet.pack_type is MsgFragment ==> !({
                &&& !draw.nan()
                &&& !drone.pdr.nan()
                &&& 0 < drone.pdr.value()
                &&& draw.value() <= drone.pdr.value()
            })
        }),
        drone.answers(packet, draw, actions),
    ensures
        drone.fault(packet, draw) is None,
        ({
            let i = packet.routing_header.hop_index;
            let hops = packet.routing_header.hops;
            let straight = i < hops.len() && drone.packet_send.contains_key(hops[i - 1]);
            let sent = if straight {
                actions[0]->Deliver_1
            } else {
                actions[0]->Report_0->ControllerShortcut_0
            };
            let back = sent.routing_header.hops;
            let nack = sent.pack_type->Nack_0;
            &&& straight ==> {
                &&& actions.len() == 3
                &&& actions[0] == ActionView::Deliver(hops[i - 1], sent)
                &&& actions[1] == ActionView::Report(DroneEventView::PacketSent(sent))
            }
            &&& !straight ==> {
                &&& actions.len() == 2
                &&& actions[0] == ActionView::Report(DroneEventView::ControllerShortcut(sent))
            }
            &&& actions.last() is Report
            &&& actions.last()->Report_0 is PacketDropped
            &&& actions.last()->Report_0->PacketDropped_0 == packet
            &&& sent.session_id == packet.session_id
            &&& sent.routing_header.hop_index == 1
            &&& i < hops.len() ==> back == Seq::new((i + 1) as nat, |j: int| hops[i - j])
            &&& i >= hops.len() ==> back == seq![hops[0]]
            &&& sent.pack_type is Nack
            &&& packet.pack_type is MsgFragment ==> nack.fragment_index
                == packet.pack_type->MsgFragment_0.fragment_index
            &&& packet.pack_type is FloodResponse ==> nack.fragment_index == 0
            &&& i >= hops.len() ==> nack.nack_type == NackType::ErrorInRouting(drone.id)
            &&& i < hops.len() && hops[i] != drone.id ==> nack.nack_type
                == NackType::UnexpectedRecipient(hops[i])
            &&& i + 1 == hops.len() && hops[i] == drone.id ==> nack.nack_type
                == NackType::DestinationIsDrone
            &&& i + 1 < hops.len() && hops[i] == drone.id && !drone.packet_send.contains_key(
                hops[i + 1],
            ) ==> nack.nack_type == NackType::ErrorInRouting(hops[i + 1])
            &&& i + 1 < hops.len() && hops[i] == drone.id && drone.packet_send.contains_key(
                hops[i + 1],
            ) ==> nack.nack_type == NackType::Dropped
        }),
{
    let header = packet.routing_header;
    let (fragment_index, why) = match packet.pack_type {
        PacketTypeView::MsgFragment(fragment) => (
            fragment.fragment_index,
            drone.fragment_refusal(header, draw),
        ),
        _ => (0u64, drone.refusal(header)),
    };
    let nack = Nack { fragment_index, nack_type: why->0 };
    law_nack_goes_back(
        drone,
        nack,
        header,
        packet.session_id,
        drone.nack_actions(nack, header, packet.session_id),
    );
}

/// An Ack or a Nack that cannot go on is left to the controller, every part of it as it came in,
/// and nothing else is done; the number drawn does not matter.
pub proof fn law_ack_or_nack_is_left_to_controller<S>(
    drone: DroneView<S>,
    packet: PacketView,
    draw: Rate,
    actions: Seq<ActionView>,
)
    requires
        packet.pack_type is Ack || packet.pack_type is Nack,
        packet.routing_header.hop_index >= 0,
        packet.routing_header.hops.len() > 0,
        !({
            &&& packet.routing_header.hop_index + 1 < packet.routing_header.hops.len()
            &&& packet.routing_header.hops[packet.routing_header.hop_index] == drone.id
            &&& drone.packet_send.contains_key(
                packet.routing_header.hops[packet.routing_header.hop_index + 1],
            )
        }),
        drone.answers(packet, draw, actions),
    ensures
        drone.fault(packet, draw) is None,
        actions.len() == 1,
        actions[0] is Report,
        actions[0]->Report_0 is ControllerShortcut,
        actions[0]->Report_0->ControllerShortcut_0.routing_header.hop_index
            == packet.routing_header.hop_index,
        actions[0]->Report_0->ControllerShortcut_0.routing_header.hops
            == packet.routing_header.hops,
        actions[0]->Report_0->ControllerShortcut_0.session_id == packet.session_id,
        actions[0]->Report_0->ControllerShortcut_0.pack_type == packet.pack_type,
{
}

/// Every answer to a flood request carries its flood id and its session, and its path trace with
/// the drone at the end, however the drone came to answer. It visits the nodes of that trace last
/// to first, and its header points at the node that the request came from, to which it goes where
/// that is a neighbor; else it is left to the controller.
pub proof fn law_flood_answer_is_whole<S>(
    drone: DroneView<S>,
    req: FloodRequestView,
    session_id: u64,
    actions: Seq<ActionView>,
)
    requires
        req.path_trace.len() > 0,
        actions == drone.hand_over(drone.flood_response_packet(req, session_id)),
    ensures
        ({
            let n = req.path_trace.len();
            let previous = req.path_trace[n - 1].0;
            let straight = drone.packet_send.contains_key(previous);
            let sent = if straight {
                actions[0]->Deliver_1
            } else {
                actions[0]->Report_0->ControllerShortcut_0
            };
            let response = sent.pack_type->FloodResponse_0;
            let back = sent.routing_header;
            &&& straight ==> {
                &&& actions.len() == 2
                &&& actions[0] == ActionView::Deliver(previous, sent)
                &&& actions[1] == ActionView::Report(DroneEventView::PacketSent(sent))
            }
            &&& !straight ==> {
                &&& actions.len() == 1
                &&& actions[0] == ActionView::Report(DroneEventView::ControllerShortcut(sent))
            }
            &&& sent.session_id == session_id
            &&& sent.pack_type is FloodResponse
            &&& response.flood_id == req.flood_id
            &&& response.path_trace == req.path_trace + seq![(drone.id, NodeType::Drone)]
            &&& back.hop_index == 1
            &&& back.hops == seq![drone.id] + Seq::new(n, |j: int| req.path_trace[n - 1 - j].0)
        }),
{
    let back = drone.flood_response_packet(req, session_id).routing_header;
    assert(back.hops[1] == req.path_trace[req.path_trace.len() - 1].0);
}

/// A drone answers a flood request where it has received the flood before, or where every
/// neighbor that it has is the node that the request came from. The answer is all that it does.
pub proof fn law_flood_request_is_answered<S>(
    drone: DroneView<S>,
    packet: PacketView,
    draw: Rate,
    actions: Seq<ActionView>,
)
    requires
        packet.pack_type is FloodRequest,
        packet.pack_type->FloodRequest_0.path_trace.len() > 0,
        ({
            let req = packet.pack_type->FloodRequest_0;
            ||| drone.flood_ids.contains(req.flood_id)
            ||| forall|n: NodeId| #[trigger]
                drone.packet_send.contains_key(n) ==> n == req.path_trace[req.path_trace.len()
                    - 1].0
        }),
        drone.answers(packet, draw, actions),
    ensures
        drone.fault(packet, draw) is None,
        ({
            let req = packet.pack_type->FloodRequest_0;
            let n = req.path_trace.len();
            let previous = req.path_trace[n - 1].0;
            let straight = drone.packet_send.contains_key(previous);
            let sent = if straight {
                actions[0]->Deliver_1
            } else {
                actions[0]->Report_0->ControllerShortcut_0
            };
            let response = sent.pack_type->FloodResponse_0;
            let back = sent.routing_header;
            &&& straight ==> {
                &&& actions.len() == 2
                &&& actions[0] == ActionView::Deliver(previous, sent)
                &&& actions[1] == ActionView::Report(DroneEventView::PacketSent(sent))
            }
            &&& !straight ==> {
                &&& actions.len() == 1
                &&& actions[0] == ActionView::Report(DroneEventView::ControllerShortcut(sent))
            }
            &&& sent.session_id == packet.session_id
            &&& sent.pack_type is FloodResponse
            &&& response.flood_id == req.flood_id
            &&& response.path_trace == req.path_trace + seq![(drone.id, NodeType::Drone)]
            &&& back.hop_index == 1
            &&& back.hops == seq![drone.id] + Seq::new(n, |j: int| req.path_trace[n - 1 - j].0)
        }),
{
    let req = packet.pack_type->FloodRequest_0;
    let previous = req.path_trace[req.path_trace.len() - 1].0;
    if !drone.flood_ids.contains(req.flood_id) {
        assert(drone.packet_send.dom().remove(previous) =~= Set::empty());
    }
    law_flood_answer_is_whole(drone, req, packet.session_id, actions);
}

/// A drone passes a flood request on where the flood is new to it and some neighbor is not the node
/// that the request came from, however long its path trace. Each such neighbor gets it once, and
/// nobody else does; each time it is reported as sent directly after, and nothing else is done.
/// What goes out keeps the header, the session, the flood id and the initiator, and has the drone
/// behind its path trace.
pub proof fn law_flood_request_is_spread<S>(
    drone: DroneView<S>,
    packet: PacketView,
    draw: Rate,
    actions: Seq<ActionView>,
    other: NodeId,
)
    requires
        packet.pack_type is FloodRequest,
        packet.pack_type->FloodRequest_0.path_trace.len() > 0,
        !drone.flood_ids.contains(packet.pack_type->FloodRequest_0.flood_id),
        drone.packet_send.contains_key(other),
        ({
            let req = packet.pack_type->FloodRequest_0;
            other != req.path_trace[req.path_trace.len() - 1].0
        }),
        drone.answers(packet, draw, actions),
    ensures
        drone.fault(packet, draw) is None,
        ({
            let req = packet.pack_type->FloodRequest_0;
            let previous = req.path_trace[req.path_trace.len() - 1].0;
            &&& actions.len() % 2 == 0
            &&& forall|i: int|
                0 <= i < actions.len() ==> {
                    let sent = match #[trigger] actions[i] {
                        ActionView::Deliver(_, packet) => packet,
                        ActionView::Report(event) => event->PacketSent_0,
                    };
                    let went = sent.pack_type->FloodRequest_0;
                    &&& i % 2 == 0 ==> actions[i] is Deliver
                    &&& i % 2 == 1 ==> actions[i] is Report && actions[i]->Report_0 is PacketSent
                    &&& sent.routing_header.hop_index == packet.routing_header.hop_index
                    &&& sent.routing_header.hops == packet.routing_header.hops
                    &&& sent.session_id == packet.session_id
                    &&& sent.pack_type is FloodRequest
                    &&& went.flood_id == req.flood_id
                    &&& went.initiator_id == req.initiator_id
                    &&& went.path_trace == req.path_trace + seq![(drone.id, NodeType::Drone)]
                }
            &&& forall|to: NodeId|
                (exists|i: int|
                    0 <= i < actions.len() && #[trigger] actions[i] is Deliver
                        && actions[i]->Deliver_0 == to)
                    <==> #[trigger] drone.packet_send.contains_key(to) && to != previous
            &&& forall|i: int, j: int|
                0 <= i < j < actions.len() && #[trigger] actions[i] is Deliver
                    && #[trigger] actions[j] is Deliver ==> actions[i]->Deliver_0
                    != actions[j]->Deliver_0
        }),
{
    let req = packet.pack_type->FloodRequest_0;
    let previous = req.path_trace[req.path_trace.len() - 1].0;
    assert(drone.packet_send.dom().remove(previous).contains(other));
    let flood = drone.flood_request_packet(req, packet.routing_header, packet.session_id);
    let order = choose|order: Seq<NodeId>|
        {
            &&& order.no_duplicates()
            &&& order.to_set() == drone.adjacents_but(req.path_trace.last().0)
            &&& actions == #[trigger] deliver_all(order, flood)
        };
    lemma_deliver_all(order, flood);
    let went = flood.pack_type->FloodRequest_0;
    assert(went.path_trace =~= req.path_trace + seq![(drone.id, NodeType::Drone)]);
    assert forall|to: NodeId|
        (exists|i: int|
            0 <= i < actions.len() && #[trigger] actions[i] is Deliver && actions[i]->Deliver_0
                == to) <==> #[trigger] drone.packet_send.contains_key(to) && to != previous by {
        if drone.packet_send.contains_key(to) && to != previous {
            assert(order.to_set().contains(to));
            let k = choose|k: int| 0 <= k < order.len() && order[k] == to;
            assert(actions[2 * k] is Deliver && actions[2 * k]->Deliver_0 == to);
        }
        if exists|i: int|
            0 <= i < actions.len() && #[trigger] actions[i] is Deliver && actions[i]->Deliver_0
                == to {
            let i = choose|i: int|
                0 <= i < actions.len() && #[trigger] actions[i] is Deliver
                    && actions[i]->Deliver_0 == to;
            assert(order[i / 2] == to);
            assert(order.to_set().contains(to));
        }
    }
    assert forall|i: int, j: int|
        0 <= i < j < actions.len() && #[trigger] actions[i] is Deliver
            && #[trigger] actions[j] is Deliver implies actions[i]->Deliver_0
        != actions[j]->Deliver_0 by {
        assert(i / 2 != j / 2);
    }
}

/// A drone answers a flood request itself exactly where it has received the flood before or has no
/// neighbor other than the node that the request came from; else it does nothing but pass it on.
pub proof fn law_flood_request_is_answered_or_spread<S>(
    drone: DroneView<S>,
    packet: PacketView,
    draw: Rate,
    actions: Seq<ActionView>,
)
    requires
        packet.pack_type is FloodRequest,
        packet.pack_type->FloodRequest_0.path_trace.len() > 0,
        drone.answers(packet, draw, actions),
    ensures
        actions.len() > 0,
        ({
            let req = packet.pack_type->FloodRequest_0;
            let previous = req.path_trace[req.path_trace.len() - 1].0;
            let first = match actions[0] {
                ActionView::Deliver(_, sent) => sent,
                ActionView::Report(event) => event->ControllerShortcut_0,
            };
            let ends_here = {
                ||| drone.flood_ids.contains(req.flood_id)
                ||| !exists|n: NodeId| #[trigger]
                    drone.packet_send.contains_key(n) && n != previous
            };
            &&& ends_here <==> first.pack_type is FloodResponse
            &&& !ends_here <==> first.pack_type is FloodRequest
        }),
{
    let req = packet.pack_type->FloodRequest_0;
    let previous = req.path_trace[req.path_trace.len() - 1].0;
    if drone.flood_ids.contains(req.flood_id) || !exists|n: NodeId| #[trigger]
        drone.packet_send.contains_key(n) && n != previous {
        law_flood_request_is_answered(drone, packet, draw, actions);
    } else {
        let other = choose|n: NodeId| #[trigger]
            drone.packet_send.contains_key(n) && n != previous;
        law_flood_request_is_spread(drone, packet, draw, actions, other);
    }
}

/// When a drone gives up on a packet, and why: on a flood request, exactly where its path trace is
/// empty; on an Ack or a Nack, exactly where its route is; on a fragment or a flood response,
/// exactly where it cannot go on and no hop is before the drone to send a Nack to.
pub proof fn law_when_drone_gives_up<S>(drone: DroneView<S>, packet: PacketView, draw: Rate)
    requires
        packet.routing_header.hop_index >= 0,
    ensures
        ({
            let i = packet.routing_header.hop_index;
            let hops = packet.routing_header.hops;
            let lost = {
                &&& packet.pack_type is MsgFragment
                &&& !draw.nan()
                &&& !drone.pdr.nan()
                &&& 0 < drone.pdr.value()
                &&& draw.value() <= drone.pdr.value()
            };
            let stuck = {
                &&& packet.pack_type is MsgFragment || packet.pack_type is FloodResponse
                &&& !({
                    &&& i + 1 < hops.len()
                    &&& hops[i] == drone.id
                    &&& drone.packet_send.contains_key(hops[i + 1])
                    &&& !lost
                })
            };
            let why = drone.fault(packet, draw);
            &&& why == Some(Fault::EmptyPathTrace) <==> packet.pack_type is FloodRequest
                && packet.pack_type->FloodRequest_0.path_trace.len() == 0
            &&& why == Some(Fault::AckWithoutRoute) <==> packet.pack_type is Ack && hops.len() == 0
            &&& why == Some(Fault::NackWithoutRoute) <==> packet.pack_type is Nack && hops.len() == 0
            &&& why == Some(Fault::NoPreviousHop) <==> stuck && (i == usize::MAX || (i == 0
                && hops.len() > 0))
            &&& why == Some(Fault::NoPacketSender) <==> stuck && i != usize::MAX && hops.len() == 0
            &&& why != Some(Fault::NeighborDisconnected)
            &&& why != Some(Fault::ControllerDisconnected)
        }),
{
}

/// A packet adds at most one flood to those that the drone has received, and changes nothing else:
/// a flood request that names the node it came from adds its own flood id; no other packet adds
/// any.
pub proof fn law_what_a_packet_leaves<S>(drone: DroneView<S>, packet: PacketView)
    ensures
        ({
            let later = drone.after_packet(packet);
            &&& later.id == drone.id
            &&& later.packet_send == drone.packet_send
            &&& later.pdr == drone.pdr
            &&& later.should_terminate == drone.should_terminate
            &&& forall|f: u64| #[trigger]
                later.flood_ids.contains(f) <==> drone.flood_ids.contains(f) || {
                    &&& packet.pack_type is FloodRequest
                    &&& packet.pack_type->FloodRequest_0.path_trace.len() > 0
                    &&& packet.pack_type->FloodRequest_0.flood_id == f
                }
        }),
        forall|req: FloodRequestView, f: u64|
            #![trigger drone.after_flood_request(req).flood_ids.contains(f)]
            drone.after_flood_request(req).flood_ids.contains(f) <==> drone.flood_ids.contains(f)
                || f == req.flood_id,
        forall|req: FloodRequestView|
            ({
                let later = #[trigger] drone.after_flood_request(req);
                &&& later.id == drone.id
                &&& later.packet_send == drone.packet_send
                &&& later.pdr == drone.pdr
                &&& later.should_terminate == drone.should_terminate
            }),
{
}

/// A drop rate between zero and one is taken, whatever the drop rate was; any other, and what is
/// no number, leaves the drop rate as it was. Nothing else changes.
pub proof fn law_drop_rate_is_taken<S>(drone: DroneView<S>, pdr: Rate)
    ensures
        ({
            let command = DroneCommand::<S>::SetPacketDropRate(pdr);
            let later = drone.after_command(command);
            let fits = pdr.bits <= 0x3f80_0000 || pdr.bits == 0x8000_0000;
            &&& fits ==> later.pdr == pdr
            &&& !fits ==> later.pdr == drone.pdr
            &&& fits ==> drone.outcome(command) == CommandOutcome::RateSet(pdr)
            &&& !fits ==> drone.outcome(command) == CommandOutcome::RateRefused(pdr)
            &&& later.id == drone.id
            &&& later.packet_send == drone.packet_send
            &&& later.should_terminate == drone.should_terminate
            &&& later.flood_ids == drone.flood_ids
        }),
{
    crate::rate::law_unit_patterns(pdr);
}

/// Of two drop rates between zero and one that a drone is given in turn, the second counts, whether
/// it is the higher or the lower.
pub proof fn law_last_drop_rate_counts<S>(drone: DroneView<S>, first: Rate, second: Rate)
    requires
        !first.nan() && 0 <= first.value() <= (Rate { bits: 0x3f80_0000 }).value(),
        !second.nan() && 0 <= second.value() <= (Rate { bits: 0x3f80_0000 }).value(),
    ensures
        drone.after_command(DroneCommand::SetPacketDropRate(first)).after_command(
            DroneCommand::SetPacketDropRate(second),
        ).pdr == second,
        drone.after_command(DroneCommand::SetPacketDropRate(first)).pdr == first,
{
    crate::rate::lemma_bounds();
}

/// A node that is added is a neighbor from then on, with the sender that came with it, whether it
/// was one before or not. All other neighbors keep their senders, and nothing else changes.
pub proof fn law_sender_is_added<S>(drone: DroneView<S>, node_id: NodeId, sender: S)
    ensures
        ({
            let command = DroneCommand::AddSender(node_id, sender);
            let later = drone.after_command(command);
            &&& forall|n: NodeId| #[trigger]
                later.packet_send.contains_key(n) <==> drone.packet_send.contains_key(n) || n
                    == node_id
            &&& later.packet_send[node_id] == sender
            &&& forall|n: NodeId|
                drone.packet_send.contains_key(n) && n != node_id
                    ==> #[trigger] later.packet_send[n] == drone.packet_send[n]
            &&& drone.packet_send.contains_key(node_id) ==> drone.outcome(command)
                == CommandOutcome::NeighborUpdated(node_id)
            &&& !drone.packet_send.contains_key(node_id) ==> drone.outcome(command)
                == CommandOutcome::NeighborAdded(node_id)
            &&& later.id == drone.id
            &&& later.pdr == drone.pdr
            &&& later.should_terminate == drone.should_terminate
            &&& later.flood_ids == drone.flood_ids
        }),
{
}

/// A node that is removed is no neighbor from then on. All other neighbors keep their senders, and
/// nothing else changes.
pub proof fn law_sender_is_removed<S>(drone: DroneView<S>, node_id: NodeId)
    ensures
        ({
            let command = DroneCommand::<S>::RemoveSender(node_id);
            let later = drone.after_command(command);
            &&& forall|n: NodeId| #[trigger]
                later.packet_send.contains_key(n) <==> drone.packet_send.contains_key(n) && n
                    != node_id
            &&& forall|n: NodeId|
                drone.packet_send.contains_key(n) && n != node_id
                    ==> #[trigger] later.packet_send[n] == drone.packet_send[n]
            &&& drone.packet_send.contains_key(node_id) ==> drone.outcome(command)
                == CommandOutcome::NeighborRemoved(node_id)
            &&& !drone.packet_send.contains_key(node_id) ==> drone.outcome(command)
                == CommandOutcome::NoSuchNeighbor(node_id)
            &&& later.id == drone.id
            &&& later.pdr == drone.pdr
            &&& later.should_terminate == drone.should_terminate
            &&& later.flood_ids == drone.flood_ids
        }),
{
}

/// A drone that is told to crash is to go down, and says its own name; nothing else changes.
pub proof fn law_crash<S>(drone: DroneView<S>)
    ensures
        ({
            let later = drone.after_command(DroneCommand::Crash);
            &&& later.should_terminate
            &&& drone.outcome(DroneCommand::Crash) == CommandOutcome::Crashing(drone.id)
            &&& later.id == drone.id
            &&& later.packet_send == drone.packet_send
            &&& later.pdr == drone.pdr
            &&& later.flood_ids == drone.flood_ids
        }),
{
}

} // verus!
