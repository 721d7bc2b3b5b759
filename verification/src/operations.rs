//! What the operations of a drone return and leave behind, for all that they are given.

use crate::action::views;
use crate::action::Action;
use crate::action::ActionView;
use crate::action::Outbox;
use crate::behavior::law_ack_or_nack_is_left_to_controller;
use crate::behavior::law_flood_answer_is_whole;
use crate::behavior::law_flood_request_is_answered;
use crate::behavior::law_flood_request_is_spread;
use crate::behavior::law_nack_goes_back;
use crate::behavior::law_packet_goes_to_next_hop;
use crate::behavior::law_refusal_tells_route;
use crate::controller::CommandOutcome;
use crate::controller::DroneCommand;
use crate::controller::DroneEvent;
use crate::controller::DroneEventView;
use crate::drone::RustRoveri;
use crate::fault::decimal;
use crate::fault::law_decimal_reads_back;
use crate::fault::prefix_text;
use crate::fault::reading;
use crate::fault::Fault;
use crate::network::NodeId;
use crate::network::SourceRoutingHeader;
use crate::packet::Ack;
use crate::packet::FloodRequest;
use crate::packet::FloodResponse;
use crate::packet::Fragment;
use crate::packet::Nack;
use crate::packet::NackType;
use crate::packet::NodeType;
use crate::packet::Packet;
use crate::packet::PacketType;
use crate::packet::PacketTypeView;
use crate::packet::PacketView;
use crate::rate::law_clamping_is_nearest;
use crate::rate::law_order_of_numbers;
use crate::rate::law_unit_patterns;
use crate::rate::Rate;
use crate::run::Incoming;
use crate::run::Step;
use std::collections::HashMap;
use vstd::prelude::*;

verus! {

/// A new drone has the name and the neighbors that it was given, has received no flood and is not
/// to go down. Its drop rate is the one given, where that lies between zero and one; one where it
/// is higher, zero where it is lower.
pub proof fn law_new_drone<S>(
    id: NodeId,
    packet_send: HashMap<NodeId, S>,
    pdr: Rate,
    drone: RustRoveri<S>,
)
    requires
        call_ensures(RustRoveri::<S>::new, (id, packet_send, pdr), drone),
    ensures
        drone@.id == id,
        drone@.packet_send == packet_send@,
        forall|f: u64| !#[trigger] drone@.flood_ids.contains(f),
        !drone@.should_terminate,
        pdr.bits <= 0x3f80_0000 || pdr.bits == 0x8000_0000 ==> drone@.pdr == pdr,
        0x3f80_0000 < pdr.bits <= 0x7f80_0000 ==> drone@.pdr.bits == 0x3f80_0000,
        0x8000_0000 < pdr.bits <= 0xff80_0000 ==> drone@.pdr.bits == 0,
        0x7f80_0000 < pdr.bits < 0x8000_0000 || 0xff80_0000 < pdr.bits ==> drone@.pdr == pdr,
{
    law_unit_patterns(pdr);
    law_clamping_is_nearest(pdr, Rate { bits: 0 });
}

/// Checking a header finds nothing wrong exactly where it points at the drone and the next hop is a
/// neighbor. Else the Nack names the fragment given, and: the drone, where the route ends before
/// the header's index; the node that the header points at, where that is another; the drone as the
/// destination, where the route ends with it; and the next hop, where that is no neighbor.
pub proof fn law_check_header<S>(
    drone: &RustRoveri<S>,
    header: &SourceRoutingHeader,
    fragment_index: u64,
    r: Result<(), Nack>,
)
    requires
        call_ensures(RustRoveri::<S>::check_header, (drone, header, fragment_index), r),
    ensures
        ({
            let hops = header.hops@;
            let i = header.hop_index as int;
            let named = i < hops.len() && hops[i] == drone@.id;
            &&& r is Err ==> r->Err_0.fragment_index == fragment_index
            &&& i >= hops.len() ==> r is Err && r->Err_0.nack_type == NackType::ErrorInRouting(
                drone@.id,
            )
            &&& i < hops.len() && !named ==> r is Err && r->Err_0.nack_type
                == NackType::UnexpectedRecipient(hops[i])
            &&& named && i + 1 >= hops.len() ==> r is Err && r->Err_0.nack_type
                == NackType::DestinationIsDrone
            &&& named && i + 1 < hops.len() && !drone@.packet_send.contains_key(hops[i + 1])
                ==> r is Err && r->Err_0.nack_type == NackType::ErrorInRouting(hops[i + 1])
            &&& named && i + 1 < hops.len() && drone@.packet_send.contains_key(hops[i + 1])
                ==> r is Ok
        }),
{
    law_refusal_tells_route(drone@, header@, drone@.id);
}

/// Checking a fragment finds what checking its header finds. Where that is nothing, the fragment is
/// lost exactly where the drop rate is above zero and the number drawn is at most the drop rate.
pub proof fn law_check_fragment<S>(
    drone: &RustRoveri<S>,
    header: &SourceRoutingHeader,
    fragment: &Fragment,
    draw: Rate,
    of_header: Result<(), Nack>,
    r: Result<(), Nack>,
)
    requires
        call_ensures(
            RustRoveri::<S>::check_header,
            (drone, header, fragment.fragment_index),
            of_header,
        ),
        call_ensures(RustRoveri::<S>::check_fragment, (drone, header, fragment, draw), r),
    ensures
        of_header is Err ==> r == of_header,
        of_header is Ok ==> {
            if !draw.nan() && !drone@.pdr.nan() && 0 < drone@.pdr.value() && draw.value()
                <= drone@.pdr.value() {
                &&& r is Err
                &&& r->Err_0.fragment_index == fragment.fragment_index
                &&& r->Err_0.nack_type == NackType::Dropped
            } else {
                r is Ok
            }
        },
{
}

/// The hops back are there exactly where the route reaches as far as the header's index. They are
/// as many as lead up to and with the one that the header points at, which is the first of them,
/// and each is the one before its successor on the route.
pub proof fn law_reverse_hops<S>(header: &SourceRoutingHeader, r: Option<Vec<NodeId>>)
    requires
        call_ensures(RustRoveri::<S>::reverse_hops, (header,), r),
    ensures
        r is Some <==> header.hop_index < header.hops@.len(),
        r matches Some(back) ==> {
            &&& back@.len() == header.hop_index + 1
            &&& forall|j: int|
                0 <= j <= header.hop_index ==> #[trigger] back@[j] == header.hops@[header.hop_index
                    - j]
        },
{
}

/// The sender for a packet is the one of the hop that its header points at; there is none where
/// the route does not reach that far, or that hop is no neighbor.
pub proof fn law_get_sender<S>(drone: &RustRoveri<S>, packet: &Packet, r: Option<&S>)
    requires
        call_ensures(RustRoveri::<S>::get_sender, (drone, packet), r),
    ensures
        ({
            let i = packet.routing_header.hop_index as int;
            let hops = packet.routing_header.hops@;
            &&& r is Some <==> i < hops.len() && drone@.packet_send.contains_key(hops[i])
            &&& r is Some ==> *r->0 == drone@.packet_send[hops[i]]
        }),
{
}

/// A packet that is sent to a node is handed to that node, and then reported as sent; both times
/// it is the packet given.
pub proof fn law_send_packet_to_sender<S>(packet: Packet, to: NodeId, actions: Vec<Action>)
    requires
        call_ensures(RustRoveri::<S>::send_packet_to_sender, (packet, to), actions),
    ensures
        views(actions@) == seq![
            ActionView::Deliver(to, packet@),
            ActionView::Report(DroneEventView::PacketSent(packet@)),
        ],
{
}

/// A packet that is sent goes to the hop that its header points at, and is then reported as sent;
/// both times it is the packet given.
pub proof fn law_send_packet<S>(drone: &RustRoveri<S>, packet: Packet, actions: Vec<Action>)
    requires
        call_ensures(RustRoveri::<S>::send_packet, (drone, packet), actions),
    ensures
        views(actions@) == seq![
            ActionView::Deliver(
                packet.routing_header.hops@[packet.routing_header.hop_index as int],
                packet@,
            ),
            ActionView::Report(DroneEventView::PacketSent(packet@)),
        ],
{
}

/// An event that is sent is reported as it is, and nothing else is done.
pub proof fn law_send_drone_event<S>(event: DroneEvent, actions: Vec<Action>)
    requires
        call_ensures(RustRoveri::<S>::send_drone_event, (event,), actions),
    ensures
        actions@.len() == 1,
        actions@[0]@ == ActionView::Report(
            match event {
                DroneEvent::PacketSent(packet) => DroneEventView::PacketSent(packet@),
                DroneEvent::PacketDropped(packet) => DroneEventView::PacketDropped(packet@),
                DroneEvent::ControllerShortcut(packet) => DroneEventView::ControllerShortcut(
                    packet@,
                ),
            },
        ),
{
    assert(views(actions@).len() == 1);
    assert(views(actions@)[0] == actions@[0]@);
}

/// A dropped packet is reported as dropped, with the header, the session and the load given.
pub proof fn law_send_drop_event<S>(
    pack_type: PacketType,
    routing_header: SourceRoutingHeader,
    session_id: u64,
    action: Action,
)
    requires
        call_ensures(
            RustRoveri::<S>::send_drop_event,
            (pack_type, routing_header, session_id),
            action,
        ),
    ensures
        action is Report,
        action->Report_0 is PacketDropped,
        action->Report_0->PacketDropped_0.session_id == session_id,
        action->Report_0->PacketDropped_0.pack_type@ == pack_type@,
        action->Report_0->PacketDropped_0.routing_header.hop_index == routing_header.hop_index,
        action->Report_0->PacketDropped_0.routing_header.hops@ == routing_header.hops@,
{
}

/// A Nack that is sent says what it was given to say, in the session given, and goes back along
/// the route: from the drone to the source, by way of the hop before the drone, to which it is
/// handed where that is a neighbor; else it is left to the controller. Where the route ends before
/// the header's index, it names the source alone and is left to the controller.
pub proof fn law_send_nack<S>(
    drone: &RustRoveri<S>,
    nack: Nack,
    header: &SourceRoutingHeader,
    session_id: u64,
    actions: Vec<Action>,
)
    requires
        0 < header.hop_index < usize::MAX,
        header.hops@.len() > 0,
        call_ensures(RustRoveri::<S>::send_nack, (drone, nack, header, session_id), actions),
    ensures
        ({
            let i = header.hop_index as int;
            let hops = header.hops@;
            let done = views(actions@);
            let straight = i < hops.len() && drone@.packet_send.contains_key(hops[i - 1]);
            let sent = if straight {
                done[0]->Deliver_1
            } else {
                done[0]->Report_0->ControllerShortcut_0
            };
            &&& straight ==> done == seq![
                ActionView::Deliver(hops[i - 1], sent),
                ActionView::Report(DroneEventView::PacketSent(sent)),
            ]
            &&& !straight ==> done == seq![
                ActionView::Report(DroneEventView::ControllerShortcut(sent)),
            ]
            &&& sent.session_id == session_id
            &&& sent.pack_type == PacketTypeView::Nack(nack)
            &&& sent.routing_header.hop_index == 1
            &&& i < hops.len() ==> sent.routing_header.hops == Seq::new(
                (i + 1) as nat,
                |j: int| hops[i - j],
            )
            &&& i >= hops.len() ==> sent.routing_header.hops == seq![hops[0]]
        }),
{
    law_nack_goes_back(drone@, nack, header@, session_id, views(actions@));
}

/// A fragment whose header points at the drone and whose next hop is a neighbor, and which is not
/// lost, is handed to that hop with every field as it came, the header's index moved on by one.
pub proof fn law_handle_fragment<S>(
    drone: &RustRoveri<S>,
    fragment: Fragment,
    header: SourceRoutingHeader,
    session_id: u64,
    draw: Rate,
    actions: Vec<Action>,
)
    requires
        call_ensures(
            RustRoveri::<S>::handle_fragment,
            (drone, fragment, header, session_id, draw),
            actions,
        ),
        header.hop_index + 1 < header.hops@.len(),
        header.hops@[header.hop_index as int] == drone@.id,
        drone@.packet_send.contains_key(header.hops@[header.hop_index + 1]),
        !({
            &&& !draw.nan()
            &&& !drone@.pdr.nan()
            &&& 0 < drone@.pdr.value()
            &&& draw.value() <= drone@.pdr.value()
        }),
    ensures
        ({
            let sent = views(actions@)[0]->Deliver_1;
            &&& views(actions@) == seq![
                ActionView::Deliver(header.hops@[header.hop_index + 1], sent),
                ActionView::Report(DroneEventView::PacketSent(sent)),
            ]
            &&& sent.session_id == session_id
            &&& sent.routing_header.hops == header.hops@
            &&& sent.routing_header.hop_index == header.hop_index + 1
            &&& sent.pack_type is MsgFragment
            &&& sent.pack_type->MsgFragment_0.fragment_index == fragment.fragment_index
            &&& sent.pack_type->MsgFragment_0.total_n_fragments == fragment.total_n_fragments
            &&& sent.pack_type->MsgFragment_0.length == fragment.length
            &&& sent.pack_type->MsgFragment_0.data == fragment.data
        }),
{
    let packet = PacketView {
        routing_header: header@,
        session_id,
        pack_type: PacketTypeView::MsgFragment(fragment),
    };
    law_packet_goes_to_next_hop(drone@, packet, draw, views(actions@));
}

/// A fragment that cannot go on, or is lost, is not handed to the next hop: a Nack for it goes back
/// along its route, and it is reported as dropped, as it came in.
pub proof fn law_handle_refused_fragment<S>(
    drone: &RustRoveri<S>,
    fragment: Fragment,
    header: SourceRoutingHeader,
    session_id: u64,
    draw: Rate,
    checked: Result<(), Nack>,
    answered: Vec<Action>,
    dropped: Action,
    actions: Vec<Action>,
)
    requires
        call_ensures(RustRoveri::<S>::check_fragment, (drone, &header, &fragment, draw), checked),
        checked is Err,
        call_ensures(
            RustRoveri::<S>::send_nack,
            (drone, checked->Err_0, &header, session_id),
            answered,
        ),
        call_ensures(
            RustRoveri::<S>::send_drop_event,
            (PacketType::MsgFragment(fragment), header, session_id),
            dropped,
        ),
        call_ensures(
            RustRoveri::<S>::handle_fragment,
            (drone, fragment, header, session_id, draw),
            actions,
        ),
    ensures
        views(actions@) == views(answered@) + seq![dropped@],
{
}

/// A flood response whose header points at the drone and whose next hop is a neighbor is handed to
/// that hop with every field as it came, the header's index moved on by one.
pub proof fn law_handle_flood_response<S>(
    drone: &RustRoveri<S>,
    res: FloodResponse,
    header: SourceRoutingHeader,
    session_id: u64,
    actions: Vec<Action>,
)
    requires
        call_ensures(
            RustRoveri::<S>::handle_flood_response,
            (drone, res, header, session_id),
            actions,
        ),
        header.hop_index + 1 < header.hops@.len(),
        header.hops@[header.hop_index as int] == drone@.id,
        drone@.packet_send.contains_key(header.hops@[header.hop_index + 1]),
    ensures
        ({
            let sent = views(actions@)[0]->Deliver_1;
            &&& views(actions@) == seq![
                ActionView::Deliver(header.hops@[header.hop_index + 1], sent),
                ActionView::Report(DroneEventView::PacketSent(sent)),
            ]
            &&& sent.session_id == session_id
            &&& sent.routing_header.hops == header.hops@
            &&& sent.routing_header.hop_index == header.hop_index + 1
            &&& sent.pack_type is FloodResponse
            &&& sent.pack_type->FloodResponse_0.flood_id == res.flood_id
            &&& sent.pack_type->FloodResponse_0.path_trace == res.path_trace@
        }),
{
}

/// A flood response that cannot go on is answered with a Nack for fragment zero, which goes back
/// along its route, and is reported as dropped, as it came in.
pub proof fn law_handle_refused_flood_response<S>(
    drone: &RustRoveri<S>,
    res: FloodResponse,
    header: SourceRoutingHeader,
    session_id: u64,
    checked: Result<(), Nack>,
    answered: Vec<Action>,
    dropped: Action,
    actions: Vec<Action>,
)
    requires
        call_ensures(RustRoveri::<S>::check_header, (drone, &header, 0u64), checked),
        checked is Err,
        call_ensures(
            RustRoveri::<S>::send_nack,
            (drone, checked->Err_0, &header, session_id),
            answered,
        ),
        call_ensures(
            RustRoveri::<S>::send_drop_event,
            (PacketType::FloodResponse(res), header, session_id),
            dropped,
        ),
        call_ensures(
            RustRoveri::<S>::handle_flood_response,
            (drone, res, header, session_id),
            actions,
        ),
    ensures
        views(actions@) == views(answered@) + seq![dropped@],
{
}

/// An Ack goes to the next hop where the header points at the drone and that hop is a neighbor, its
/// index moved on by one; else it is left to the controller as it came in. It keeps its fragment
/// index, its session and its route either way.
pub proof fn law_handle_ack<S>(
    drone: &RustRoveri<S>,
    ack: Ack,
    header: SourceRoutingHeader,
    session_id: u64,
    actions: Vec<Action>,
)
    requires
        call_ensures(RustRoveri::<S>::handle_ack, (drone, ack, header, session_id), actions),
        header.hops@.len() > 0,
    ensures
        ({
            let i = header.hop_index as int;
            let hops = header.hops@;
            let goes_on = i + 1 < hops.len() && hops[i] == drone@.id
                && drone@.packet_send.contains_key(hops[i + 1]);
            let done = views(actions@);
            let sent = if goes_on {
                done[0]->Deliver_1
            } else {
                done[0]->Report_0->ControllerShortcut_0
            };
            &&& goes_on ==> done == seq![
                ActionView::Deliver(hops[i + 1], sent),
                ActionView::Report(DroneEventView::PacketSent(sent)),
            ]
            &&& !goes_on ==> done == seq![
                ActionView::Report(DroneEventView::ControllerShortcut(sent)),
            ]
            &&& sent.session_id == session_id
            &&& sent.pack_type is Ack
            &&& sent.pack_type->Ack_0.fragment_index == ack.fragment_index
            &&& sent.routing_header.hops == hops
            &&& goes_on ==> sent.routing_header.hop_index == i + 1
            &&& !goes_on ==> sent.routing_header.hop_index == i
        }),
{
    let packet = PacketView {
        routing_header: header@,
        session_id,
        pack_type: PacketTypeView::Ack(ack),
    };
    let draw = Rate { bits: 0 };
    if header.hop_index + 1 < header.hops@.len() && header.hops@[header.hop_index as int]
        == drone@.id && drone@.packet_send.contains_key(header.hops@[header.hop_index + 1]) {
        law_packet_goes_to_next_hop(drone@, packet, draw, views(actions@));
    } else {
        law_ack_or_nack_is_left_to_controller(drone@, packet, draw, views(actions@));
    }
}

/// A Nack goes to the next hop where the header points at the drone and that hop is a neighbor, its
/// index moved on by one; else it is left to the controller as it came in. It keeps its fragment
/// index, its reason, its session and its route either way.
pub proof fn law_handle_nack<S>(
    drone: &RustRoveri<S>,
    nack: Nack,
    header: SourceRoutingHeader,
    session_id: u64,
    actions: Vec<Action>,
)
    requires
        call_ensures(RustRoveri::<S>::handle_nack, (drone, nack, header, session_id), actions),
        header.hops@.len() > 0,
    ensures
        ({
            let i = header.hop_index as int;
            let hops = header.hops@;
            let goes_on = i + 1 < hops.len() && hops[i] == drone@.id
                && drone@.packet_send.contains_key(hops[i + 1]);
            let done = views(actions@);
            let sent = if goes_on {
                done[0]->Deliver_1
            } else {
                done[0]->Report_0->ControllerShortcut_0
            };
            &&& goes_on ==> done == seq![
                ActionView::Deliver(hops[i + 1], sent),
                ActionView::Report(DroneEventView::PacketSent(sent)),
            ]
            &&& !goes_on ==> done == seq![
                ActionView::Report(DroneEventView::ControllerShortcut(sent)),
            ]
            &&& sent.session_id == session_id
            &&& sent.pack_type is Nack
            &&& sent.pack_type->Nack_0.fragment_index == nack.fragment_index
            &&& sent.pack_type->Nack_0.nack_type == nack.nack_type
            &&& sent.routing_header.hops == hops
            &&& goes_on ==> sent.routing_header.hop_index == i + 1
            &&& !goes_on ==> sent.routing_header.hop_index == i
        }),
{
    let packet = PacketView {
        routing_header: header@,
        session_id,
        pack_type: PacketTypeView::Nack(nack),
    };
    let draw = Rate { bits: 0 };
    if header.hop_index + 1 < header.hops@.len() && header.hops@[header.hop_index as int]
        == drone@.id && drone@.packet_send.contains_key(header.hops@[header.hop_index + 1]) {
        law_packet_goes_to_next_hop(drone@, packet, draw, views(actions@));
    } else {
        law_ack_or_nack_is_left_to_controller(drone@, packet, draw, views(actions@));
    }
}

/// The neighbors but one node: every neighbor that is not that node is among them, once, and
/// nobody else.
pub proof fn law_get_adjacents_but<S>(
    drone: &RustRoveri<S>,
    node_id: NodeId,
    adjacents: Vec<NodeId>,
    n: NodeId,
)
    requires
        call_ensures(RustRoveri::<S>::get_adjacents_but, (drone, node_id), adjacents),
    ensures
        adjacents@.contains(n) <==> drone@.packet_send.contains_key(n) && n != node_id,
        forall|i: int, j: int|
            0 <= i < j < adjacents@.len() ==> #[trigger] adjacents@[i] != #[trigger] adjacents@[j],
{
    assert(adjacents@.to_set().contains(n) <==> adjacents@.contains(n));
}

/// Whenever a drone answers a flood request, whoever its neighbors are, the answer carries the
/// flood id and the session given and the path trace given with the drone at its end, and goes
/// back the way that the request came.
pub proof fn law_begin_flood_response<S>(
    drone: &RustRoveri<S>,
    req: FloodRequest,
    session_id: u64,
    actions: Vec<Action>,
)
    requires
        req.path_trace@.len() > 0,
        call_ensures(RustRoveri::<S>::begin_flood_response, (drone, req, session_id), actions),
    ensures
        ({
            let n = req.path_trace@.len();
            let previous = req.path_trace@[n - 1].0;
            let straight = drone@.packet_send.contains_key(previous);
            let done = views(actions@);
            let sent = if straight {
                done[0]->Deliver_1
            } else {
                done[0]->Report_0->ControllerShortcut_0
            };
            let response = sent.pack_type->FloodResponse_0;
            &&& straight ==> done == seq![
                ActionView::Deliver(previous, sent),
                ActionView::Report(DroneEventView::PacketSent(sent)),
            ]
            &&& !straight ==> done == seq![
                ActionView::Report(DroneEventView::ControllerShortcut(sent)),
            ]
            &&& sent.session_id == session_id
            &&& sent.pack_type is FloodResponse
            &&& response.flood_id == req.flood_id
            &&& response.path_trace == req.path_trace@ + seq![(drone@.id, NodeType::Drone)]
            &&& sent.routing_header.hop_index == 1
            &&& sent.routing_header.hops == seq![drone@.id] + Seq::new(
                n,
                |j: int| req.path_trace@[n - 1 - j].0,
            )
        }),
{
    law_flood_answer_is_whole(drone@, req@, session_id, views(actions@));
}

/// A flood request that the drone has received before, or that no neighbor but the node that it
/// came from could get, is answered; and the drone remembers the flood, and changes nothing else.
pub proof fn law_handle_flood_request_answered<S>(
    drone: &mut RustRoveri<S>,
    req: FloodRequest,
    header: SourceRoutingHeader,
    session_id: u64,
    actions: Vec<Action>,
)
    requires
        req.path_trace@.len() > 0,
        call_ensures(
            RustRoveri::<S>::handle_flood_request,
            (drone, req, header, session_id),
            actions,
        ),
        ({
            ||| old(drone)@.flood_ids.contains(req.flood_id)
            ||| forall|n: NodeId| #[trigger]
                old(drone)@.packet_send.contains_key(n) ==> n
                    == req.path_trace@[req.path_trace@.len() - 1].0
        }),
    ensures
        final(drone)@.id == old(drone)@.id,
        final(drone)@.packet_send == old(drone)@.packet_send,
        final(drone)@.pdr == old(drone)@.pdr,
        final(drone)@.should_terminate == old(drone)@.should_terminate,
        forall|f: u64| #[trigger]
            final(drone)@.flood_ids.contains(f) <==> old(drone)@.flood_ids.contains(f) || f
                == req.flood_id,
        ({
            let n = req.path_trace@.len();
            let previous = req.path_trace@[n - 1].0;
            let straight = old(drone)@.packet_send.contains_key(previous);
            let done = views(actions@);
            let sent = if straight {
                done[0]->Deliver_1
            } else {
                done[0]->Report_0->ControllerShortcut_0
            };
            let response = sent.pack_type->FloodResponse_0;
            &&& straight ==> done == seq![
                ActionView::Deliver(previous, sent),
                ActionView::Report(DroneEventView::PacketSent(sent)),
            ]
            &&& !straight ==> done == seq![
                ActionView::Report(DroneEventView::ControllerShortcut(sent)),
            ]
            &&& sent.session_id == session_id
            &&& sent.pack_type is FloodResponse
            &&& response.flood_id == req.flood_id
            &&& response.path_trace == req.path_trace@ + seq![(old(drone)@.id, NodeType::Drone)]
            &&& sent.routing_header.hop_index == 1
            &&& sent.routing_header.hops == seq![old(drone)@.id] + Seq::new(
                n,
                |j: int| req.path_trace@[n - 1 - j].0,
            )
        }),
{
    let packet = PacketView {
        routing_header: header@,
        session_id,
        pack_type: PacketTypeView::FloodRequest(req@),
    };
    law_flood_request_is_answered(drone@, packet, Rate { bits: 0 }, views(actions@));
}

/// A flood request that is new to the drone, where some neighbor is not the node that it came from,
/// is passed on, and never answered, however long its path trace: each such neighbor gets it, and
/// nobody else, with the drone behind its path trace and otherwise as it came. The drone remembers
/// the flood, and changes nothing else.
pub proof fn law_handle_flood_request_spread<S>(
    drone: &mut RustRoveri<S>,
    req: FloodRequest,
    header: SourceRoutingHeader,
    session_id: u64,
    actions: Vec<Action>,
    other: NodeId,
)
    requires
        req.path_trace@.len() > 0,
        call_ensures(
            RustRoveri::<S>::handle_flood_request,
            (drone, req, header, session_id),
            actions,
        ),
        !old(drone)@.flood_ids.contains(req.flood_id),
        old(drone)@.packet_send.contains_key(other),
        other != req.path_trace@[req.path_trace@.len() - 1].0,
    ensures
        final(drone)@.id == old(drone)@.id,
        final(drone)@.packet_send == old(drone)@.packet_send,
        final(drone)@.pdr == old(drone)@.pdr,
        final(drone)@.should_terminate == old(drone)@.should_terminate,
        forall|f: u64| #[trigger]
            final(drone)@.flood_ids.contains(f) <==> old(drone)@.flood_ids.contains(f) || f
                == req.flood_id,
        ({
            let done = views(actions@);
            let previous = req.path_trace@[req.path_trace@.len() - 1].0;
            &&& done.len() % 2 == 0
            &&& forall|i: int|
                0 <= i < done.len() ==> {
                    let sent = match #[trigger] done[i] {
                        ActionView::Deliver(_, packet) => packet,
                        ActionView::Report(event) => event->PacketSent_0,
                    };
                    let went = sent.pack_type->FloodRequest_0;
                    &&& i % 2 == 0 ==> done[i] is Deliver
                    &&& i % 2 == 1 ==> done[i] is Report && done[i]->Report_0 is PacketSent
                    &&& sent.routing_header.hop_index == header.hop_index
                    &&& sent.routing_header.hops == header.hops@
                    &&& sent.session_id == session_id
                    &&& sent.pack_type is FloodRequest
                    &&& went.flood_id == req.flood_id
                    &&& went.initiator_id == req.initiator_id
                    &&& went.path_trace == req.path_trace@ + seq![(old(drone)@.id, NodeType::Drone)]
                }
            &&& forall|to: NodeId|
                (exists|i: int|
                    0 <= i < done.len() && #[trigger] done[i] is Deliver && done[i]->Deliver_0
                        == to) <==> #[trigger] old(drone)@.packet_send.contains_key(to) && to
                    != previous
            &&& forall|i: int, j: int|
                0 <= i < j < done.len() && #[trigger] done[i] is Deliver
                    && #[trigger] done[j] is Deliver ==> done[i]->Deliver_0 != done[j]->Deliver_0
        }),
{
    let packet = PacketView {
        routing_header: header@,
        session_id,
        pack_type: PacketTypeView::FloodRequest(req@),
    };
    law_flood_request_is_spread(drone@, packet, Rate { bits: 0 }, views(actions@), other);
}

/// A drone gives up on a flood request exactly where its path trace is empty; on an Ack or a Nack,
/// exactly where its route is; on a fragment or a flood response, exactly where it cannot go on and
/// no hop is before the drone to send a Nack to.
pub proof fn law_diagnose<S>(
    drone: &RustRoveri<S>,
    packet: &Packet,
    draw: Rate,
    r: Option<Fault>,
)
    requires
        call_ensures(RustRoveri::<S>::diagnose, (drone, packet, draw), r),
    ensures
        ({
            let i = packet.routing_header.hop_index;
            let hops = packet.routing_header.hops@;
            let lost = {
                &&& packet.pack_type is MsgFragment
                &&& !draw.nan()
                &&& !drone@.pdr.nan()
                &&& 0 < drone@.pdr.value()
                &&& draw.value() <= drone@.pdr.value()
            };
            let stuck = {
                &&& packet.pack_type is MsgFragment || packet.pack_type is FloodResponse
                &&& !({
                    &&& i + 1 < hops.len()
                    &&& hops[i as int] == drone@.id
                    &&& drone@.packet_send.contains_key(hops[i + 1])
                    &&& !lost
                })
            };
            &&& r == Some(Fault::EmptyPathTrace) <==> packet.pack_type is FloodRequest
                && packet.pack_type->FloodRequest_0.path_trace@.len() == 0
            &&& r == Some(Fault::AckWithoutRoute) <==> packet.pack_type is Ack && hops.len() == 0
            &&& r == Some(Fault::NackWithoutRoute) <==> packet.pack_type is Nack && hops.len() == 0
            &&& r == Some(Fault::NoPreviousHop) <==> stuck && (i == usize::MAX || (i == 0
                && hops.len() > 0))
            &&& r == Some(Fault::NoPacketSender) <==> stuck && i != usize::MAX && hops.len() == 0
            &&& r != Some(Fault::NeighborDisconnected)
            &&& r != Some(Fault::ControllerDisconnected)
        }),
{
}

/// Handling a packet is what the handler for its load does with its parts, and is what the drone owes
/// for it; and it leaves the drone as it was, but for the flood that a flood request belongs to.
pub proof fn law_handle_packet<S>(
    drone: &mut RustRoveri<S>,
    packet: Packet,
    draw: Rate,
    handled: Vec<Action>,
    actions: Vec<Action>,
)
    requires
        call_ensures(RustRoveri::<S>::handle_packet, (drone, packet, draw), actions),
        packet.pack_type matches PacketType::FloodRequest(req) ==> req.path_trace@.len() > 0,
        match packet.pack_type {
            PacketType::MsgFragment(fragment) => call_ensures(
                RustRoveri::<S>::handle_fragment,
                (old(drone), fragment, packet.routing_header, packet.session_id, draw),
                handled,
            ),
            PacketType::FloodResponse(res) => call_ensures(
                RustRoveri::<S>::handle_flood_response,
                (old(drone), res, packet.routing_header, packet.session_id),
                handled,
            ),
            PacketType::Ack(ack) => call_ensures(
                RustRoveri::<S>::handle_ack,
                (old(drone), ack, packet.routing_header, packet.session_id),
                handled,
            ),
            PacketType::Nack(nack) => call_ensures(
                RustRoveri::<S>::handle_nack,
                (old(drone), nack, packet.routing_header, packet.session_id),
                handled,
            ),
            PacketType::FloodRequest(_) => true,
        },
    ensures
        !(packet.pack_type is FloodRequest) ==> views(actions@) == views(handled@),
        old(drone)@.answers(packet@, draw, views(actions@)),
        final(drone)@.id == old(drone)@.id,
        final(drone)@.packet_send == old(drone)@.packet_send,
        final(drone)@.pdr == old(drone)@.pdr,
        final(drone)@.should_terminate == old(drone)@.should_terminate,
        forall|f: u64| #[trigger]
            final(drone)@.flood_ids.contains(f) <==> old(drone)@.flood_ids.contains(f) || {
                &&& packet.pack_type is FloodRequest
                &&& packet.pack_type->FloodRequest_0.flood_id == f
            },
{
}

/// A drop rate between zero and one is taken, whatever the drop rate was before; any other is not,
/// and the drop rate stays. Nothing else changes.
pub proof fn law_set_packet_drop_rate<S>(drone: &mut RustRoveri<S>, pdr: Rate, taken: bool)
    requires
        call_ensures(RustRoveri::<S>::set_packet_drop_rate, (drone, pdr), taken),
    ensures
        taken <==> pdr.bits <= 0x3f80_0000 || pdr.bits == 0x8000_0000,
        taken ==> final(drone)@.pdr == pdr,
        !taken ==> final(drone)@.pdr == old(drone)@.pdr,
        final(drone)@.id == old(drone)@.id,
        final(drone)@.packet_send == old(drone)@.packet_send,
        final(drone)@.should_terminate == old(drone)@.should_terminate,
        final(drone)@.flood_ids == old(drone)@.flood_ids,
{
    law_unit_patterns(pdr);
}

/// A node that is added is a neighbor from then on, with the sender given. The sender that it had
/// before, if any, is handed back. All other neighbors keep theirs, and nothing else changes.
pub proof fn law_add_sender<S>(
    drone: &mut RustRoveri<S>,
    node_id: NodeId,
    sender: S,
    former: Option<S>,
)
    requires
        call_ensures(RustRoveri::<S>::add_sender, (drone, node_id, sender), former),
    ensures
        former is Some <==> old(drone)@.packet_send.contains_key(node_id),
        former is Some ==> former->0 == old(drone)@.packet_send[node_id],
        final(drone)@.packet_send[node_id] == sender,
        forall|n: NodeId| #[trigger]
            final(drone)@.packet_send.contains_key(n) <==> old(drone)@.packet_send.contains_key(n)
                || n == node_id,
        forall|n: NodeId|
            old(drone)@.packet_send.contains_key(n) && n != node_id
                ==> #[trigger] final(drone)@.packet_send[n] == old(drone)@.packet_send[n],
        final(drone)@.id == old(drone)@.id,
        final(drone)@.pdr == old(drone)@.pdr,
        final(drone)@.should_terminate == old(drone)@.should_terminate,
        final(drone)@.flood_ids == old(drone)@.flood_ids,
{
}

/// A node that is removed is no neighbor from then on. The sender that it had, if any, is handed
/// back. All other neighbors keep theirs, and nothing else changes.
pub proof fn law_remove_sender<S>(drone: &mut RustRoveri<S>, node_id: NodeId, former: Option<S>)
    requires
        call_ensures(RustRoveri::<S>::remove_sender, (drone, node_id), former),
    ensures
        former is Some <==> old(drone)@.packet_send.contains_key(node_id),
        former is Some ==> former->0 == old(drone)@.packet_send[node_id],
        forall|n: NodeId| #[trigger]
            final(drone)@.packet_send.contains_key(n) <==> old(drone)@.packet_send.contains_key(n)
                && n != node_id,
        forall|n: NodeId|
            old(drone)@.packet_send.contains_key(n) && n != node_id
                ==> #[trigger] final(drone)@.packet_send[n] == old(drone)@.packet_send[n],
        final(drone)@.id == old(drone)@.id,
        final(drone)@.pdr == old(drone)@.pdr,
        final(drone)@.should_terminate == old(drone)@.should_terminate,
        final(drone)@.flood_ids == old(drone)@.flood_ids,
{
}

/// A drone that is told to crash is to go down, and nothing else changes.
pub proof fn law_crash_operation<S>(drone: &mut RustRoveri<S>, r: ())
    requires
        call_ensures(RustRoveri::<S>::crash, (drone,), r),
    ensures
        final(drone)@.should_terminate,
        final(drone)@.id == old(drone)@.id,
        final(drone)@.packet_send == old(drone)@.packet_send,
        final(drone)@.pdr == old(drone)@.pdr,
        final(drone)@.flood_ids == old(drone)@.flood_ids,
{
}

/// What becomes of a command is told by it and the neighbors at the time: a drop rate is set or
/// refused, a node is added or updated, removed or unknown, and a drone that crashes says its own
/// name. A command changes what it is about and nothing else.
pub proof fn law_handle_command<S>(
    drone: &mut RustRoveri<S>,
    command: DroneCommand<S>,
    outcome: CommandOutcome,
)
    requires
        call_ensures(RustRoveri::<S>::handle_command, (drone, command), outcome),
    ensures
        final(drone)@.id == old(drone)@.id,
        final(drone)@.flood_ids == old(drone)@.flood_ids,
        !(command is SetPacketDropRate) ==> final(drone)@.pdr == old(drone)@.pdr,
        !(command is Crash) ==> final(drone)@.should_terminate == old(drone)@.should_terminate,
        command is SetPacketDropRate || command is Crash ==> final(drone)@.packet_send
            == old(drone)@.packet_send,
        match command {
            DroneCommand::SetPacketDropRate(pdr) => if pdr.bits <= 0x3f80_0000 || pdr.bits
                == 0x8000_0000 {
                outcome == CommandOutcome::RateSet(pdr) && final(drone)@.pdr == pdr
            } else {
                outcome == CommandOutcome::RateRefused(pdr) && final(drone)@.pdr == old(drone)@.pdr
            },
            DroneCommand::AddSender(node_id, sender) => {
                &&& outcome == if old(drone)@.packet_send.contains_key(node_id) {
                    CommandOutcome::NeighborUpdated(node_id)
                } else {
                    CommandOutcome::NeighborAdded(node_id)
                }
                &&& final(drone)@.packet_send == old(drone)@.packet_send.insert(node_id, sender)
            },
            DroneCommand::RemoveSender(node_id) => {
                &&& outcome == if old(drone)@.packet_send.contains_key(node_id) {
                    CommandOutcome::NeighborRemoved(node_id)
                } else {
                    CommandOutcome::NoSuchNeighbor(node_id)
                }
                &&& final(drone)@.packet_send == old(drone)@.packet_send.remove(node_id)
            },
            DroneCommand::Crash => {
                &&& outcome == CommandOutcome::Crashing(old(drone)@.id)
                &&& final(drone)@.should_terminate
            },
        },
{
    if let DroneCommand::SetPacketDropRate(pdr) = command {
        law_unit_patterns(pdr);
    }
}

/// What a drone tells of itself is what it is.
pub proof fn law_drone_tells_of_itself<S>(
    drone: &RustRoveri<S>,
    node_id: NodeId,
    id: NodeId,
    pdr: Rate,
    should_terminate: bool,
    sender: Option<&S>,
    isolated: bool,
    no_flood: bool,
)
    requires
        call_ensures(RustRoveri::<S>::id, (drone,), id),
        call_ensures(RustRoveri::<S>::pdr, (drone,), pdr),
        call_ensures(RustRoveri::<S>::should_terminate, (drone,), should_terminate),
        call_ensures(RustRoveri::<S>::sender, (drone, node_id), sender),
        call_ensures(RustRoveri::<S>::is_isolated, (drone,), isolated),
        call_ensures(RustRoveri::<S>::has_seen_no_flood, (drone,), no_flood),
    ensures
        id == drone@.id,
        pdr == drone@.pdr,
        should_terminate == drone@.should_terminate,
        sender is Some <==> drone@.packet_send.contains_key(node_id),
        sender is Some ==> *sender->0 == drone@.packet_send[node_id],
        isolated <==> forall|n: NodeId| !#[trigger] drone@.packet_send.contains_key(n),
        no_flood <==> forall|f: u64| !#[trigger] drone@.flood_ids.contains(f),
{
    if forall|n: NodeId| !#[trigger] drone@.packet_send.contains_key(n) {
        assert(drone@.packet_send.dom() =~= Set::empty());
    }
    if isolated {
        assert forall|n: NodeId| !#[trigger] drone@.packet_send.contains_key(n) by {
            assert(!Set::<NodeId>::empty().contains(n));
        }
    }
}

/// A drone starts what it says with `[DRONE `, the decimal digits of its name and `]`.
pub proof fn law_prefix_names_drone<S>(drone: &RustRoveri<S>, r: String)
    requires
        call_ensures(RustRoveri::<S>::get_prefix, (drone,), r),
    ensures
        r@ == "[DRONE "@ + decimal(drone@.id as nat) + "]"@,
        reading(decimal(drone@.id as nat)) == drone@.id,
{
    law_decimal_reads_back(drone@.id as nat);
}

/// A round does one thing: it carries a command out; or it gives up on a packet, and leaves the
/// drone as it was, exactly where diagnosing finds a fault; or it acts on it as handling it does;
/// or, where nothing was heard, it does nothing. A drone goes down only by a command to crash.
pub proof fn law_step<S>(
    drone: &mut RustRoveri<S>,
    incoming: Incoming<S>,
    found: Option<Fault>,
    step: Step,
)
    requires
        !old(drone)@.should_terminate,
        call_ensures(RustRoveri::<S>::step, (drone, incoming), step),
        incoming matches Incoming::Packet(packet, draw) ==> call_ensures(
            RustRoveri::<S>::diagnose,
            (old(drone), &packet, draw),
            found,
        ),
    ensures
        incoming is Command <==> step is Obeyed,
        incoming is Closed <==> step is Idle,
        incoming is Closed ==> final(drone)@ == old(drone)@,
        incoming is Packet && found is Some ==> {
            &&& step == Step::GiveUp(found->0)
            &&& final(drone)@ == old(drone)@
        },
        incoming is Packet && found is None ==> step is Act,
        incoming matches Incoming::Packet(packet, draw) ==> {
            &&& final(drone)@.id == old(drone)@.id
            &&& final(drone)@.packet_send == old(drone)@.packet_send
            &&& final(drone)@.pdr == old(drone)@.pdr
            &&& found is None ==> old(drone)@.answers(packet@, draw, views(step->Act_0@))
            &&& found is None ==> final(drone)@ == old(drone)@.after_packet(packet@)
        },
        incoming matches Incoming::Command(command) ==> {
            &&& step->Obeyed_0 == old(drone)@.outcome(command)
            &&& final(drone)@ == old(drone)@.after_command(command)
        },
        final(drone)@.should_terminate <==> incoming is Command && incoming->Command_0 is Crash,
{
}

/// Numbers are compared as numbers: among those without a sign a higher pattern is a higher number;
/// with a sign it is a lower one; a number with a sign is at most any without, and the other way
/// round only zero is. What is no number is not at most anything, nor anything at most it.
pub proof fn law_at_most(
    a: u32,
    b: u32,
    plain: bool,
    signed: bool,
    signed_first: bool,
    signed_second: bool,
)
    requires
        a < 0x8000_0000,
        b < 0x8000_0000,
        ({
            let plus_a = Rate { bits: a };
            let plus_b = Rate { bits: b };
            let minus_a = Rate { bits: (a + 0x8000_0000) as u32 };
            let minus_b = Rate { bits: (b + 0x8000_0000) as u32 };
            &&& call_ensures(Rate::at_most, (&plus_a, &plus_b), plain)
            &&& call_ensures(Rate::at_most, (&minus_a, &minus_b), signed)
            &&& call_ensures(Rate::at_most, (&minus_a, &plus_b), signed_first)
            &&& call_ensures(Rate::at_most, (&plus_a, &minus_b), signed_second)
        }),
    ensures
        plain <==> a <= b && b <= 0x7f80_0000,
        signed <==> b <= a && a <= 0x7f80_0000,
        signed_first <==> a <= 0x7f80_0000 && b <= 0x7f80_0000,
        signed_second <==> a == 0 && b == 0,
{
    law_order_of_numbers(a, b);
}

/// The pattern of a number is the one that it was made of; it tells what is no number, and what lies
/// between zero and one.
pub proof fn law_patterns(made_of: u32, rate: Rate, bits: u32, nan: bool, unit: bool)
    requires
        call_ensures(Rate::from_bits, (made_of,), rate),
        call_ensures(Rate::to_bits, (&rate,), bits),
        call_ensures(Rate::is_nan, (&rate,), nan),
        call_ensures(Rate::is_unit, (&rate,), unit),
    ensures
        bits == made_of,
        nan <==> 0x7f80_0000 < bits < 0x8000_0000 || 0xff80_0000 < bits,
        unit <==> bits <= 0x3f80_0000 || bits == 0x8000_0000,
{
    law_unit_patterns(rate);
}

/// Clamping leaves what lies between zero and one, and what is no number; makes one of what is
/// higher and zero of what is lower.
pub proof fn law_clamped(rate: Rate, r: Rate)
    requires
        call_ensures(Rate::clamped, (&rate,), r),
    ensures
        rate.bits <= 0x3f80_0000 || rate.bits == 0x8000_0000 ==> r == rate,
        0x3f80_0000 < rate.bits <= 0x7f80_0000 ==> r.bits == 0x3f80_0000,
        0x8000_0000 < rate.bits <= 0xff80_0000 ==> r.bits == 0,
        0x7f80_0000 < rate.bits < 0x8000_0000 || 0xff80_0000 < rate.bits ==> r == rate,
{
    law_unit_patterns(rate);
    law_clamping_is_nearest(rate, Rate { bits: 0 });
}

/// What a drone says as it gives up is how it starts what it says, a space, and what is wrong.
pub proof fn law_message(fault: &Fault, id: u8, prefix: String, text: &'static str, message: String)
    requires
        call_ensures(prefix_text, (id,), prefix),
        call_ensures(Fault::text, (fault,), text),
        call_ensures(Fault::message, (fault, id), message),
    ensures
        prefix@ == "[DRONE "@ + decimal(id as nat) + "]"@,
        message@ == prefix@ + " "@ + text@,
        text@ == match *fault {
            Fault::EmptyPathTrace => "The flood request path trace is empty"@,
            Fault::NoPreviousHop => "Could not build Nack (could not get previous hop)"@,
            Fault::NoPacketSender => "Could not build Nack (could not get packet sender)"@,
            Fault::AckWithoutRoute => "Could not build Ack"@,
            Fault::NackWithoutRoute => "Could not build Nack (Nack header is empty)"@,
            Fault::NeighborDisconnected => "The drone is disconnected"@,
            Fault::ControllerDisconnected => "The controller is disconnected"@,
        },
{
}

/// Where an action fails, the neighbor is gone if a packet was to be handed over, and the controller
/// if an event was to be reported.
pub proof fn law_failure(action: &Action, fault: Fault)
    requires
        call_ensures(Action::failure, (action,), fault),
    ensures
        action is Deliver ==> fault == Fault::NeighborDisconnected,
        action is Report ==> fault == Fault::ControllerDisconnected,
{
}

/// An outbox holds the actions that it was made of, all of them and in their order, and the first of
/// them is next.
pub proof fn law_outbox_holds_all(actions: Vec<Action>, outbox: Outbox, next: Option<&Action>)
    requires
        call_ensures(Outbox::of, (actions,), outbox),
        call_ensures(Outbox::next, (&outbox,), next),
    ensures
        outbox@.len() == actions@.len(),
        forall|i: int| 0 <= i < actions@.len() ==> #[trigger] outbox@[i] == actions@[i]@,
        next is Some <==> actions@.len() > 0,
        next is Some ==> next->0@ == actions@[0]@,
{
    assert forall|i: int| 0 <= i < actions@.len() implies #[trigger] outbox@[i] == actions@[i]@ by {
        assert(views(actions@)[i] == actions@[i]@);
    }
}

/// An action that is done leaves those after it, in their order, and no fault. One that fails leaves
/// none, and the fault says whether a neighbor or the controller is gone.
pub proof fn law_outbox_settles(outbox: &mut Outbox, done: bool, r: Option<Fault>)
    requires
        old(outbox)@.len() > 0,
        call_ensures(Outbox::settle, (outbox, done), r),
    ensures
        done ==> r is None,
        done ==> final(outbox)@.len() == old(outbox)@.len() - 1,
        done ==> forall|i: int|
            0 <= i < final(outbox)@.len() ==> #[trigger] final(outbox)@[i] == old(outbox)@[i + 1],
        !done ==> final(outbox)@.len() == 0,
        !done && old(outbox)@[0] is Deliver ==> r == Some(Fault::NeighborDisconnected),
        !done && old(outbox)@[0] is Report ==> r == Some(Fault::ControllerDisconnected),
{
}

/// A copy of a packet, or of an action, is like it in every part.
pub proof fn law_copies_are_alike(
    packet: Packet,
    packet_copy: Packet,
    action: Action,
    action_copy: Action,
)
    requires
        call_ensures(Packet::clone, (&packet,), packet_copy),
        call_ensures(Action::clone, (&action,), action_copy),
    ensures
        packet_copy.session_id == packet.session_id,
        packet_copy.routing_header.hop_index == packet.routing_header.hop_index,
        packet_copy.routing_header.hops@ == packet.routing_header.hops@,
        packet_copy.pack_type@ == packet.pack_type@,
        action_copy@ == action@,
{
}

} // verus!
