//! What holds of every drone, whatever packets and commands come in.

use crate::action::ActionView;
use crate::controller::DroneCommand;
use crate::controller::DroneEventView;
use crate::model::advanced;
use crate::model::deliver;
use crate::model::deliver_all;
use crate::model::forward;
use crate::model::nack_packet;
use crate::model::DroneView;
use crate::network::HeaderView;
use crate::network::NodeId;
use crate::packet::FloodRequestView;
use crate::packet::Nack;
use crate::packet::NackType;
use crate::packet::NodeType;
use crate::packet::PacketTypeView;
use crate::packet::PacketView;
use crate::rate::lemma_bounds;
use crate::rate::Rate;
use crate::rate::ONE;
use vstd::prelude::*;

verus! {

/// Whether the drone passes the packet on along its route.
pub open spec fn passes<S>(drone: DroneView<S>, packet: PacketView, draw: Rate) -> bool {
    match packet.pack_type {
        PacketTypeView::MsgFragment(_) => drone.fragment_refusal(
            packet.routing_header,
            draw,
        ) is None,
        PacketTypeView::FloodRequest(_) => false,
        _ => drone.refusal(packet.routing_header) is None,
    }
}

/// A packet that is passed on goes to the hop that follows on its route, which is a neighbor; it
/// is advanced by one hop and otherwise unchanged, nothing else is done, and the drone stays as it
/// was.
pub proof fn law_passed_on_unchanged<S>(drone: DroneView<S>, packet: PacketView, draw: Rate)
    requires
        packet.routing_header.hop_index >= 0,
        passes(drone, packet, draw),
    ensures
        drone.fault(packet, draw) is None,
        drone.is_neighbor(packet.routing_header.hops[packet.routing_header.hop_index + 1]),
        forall|actions: Seq<ActionView>| #[trigger]
            drone.answers(packet, draw, actions) <==> actions == deliver(
                packet.routing_header.hops[packet.routing_header.hop_index + 1],
                advanced(packet, 1),
            ),
        drone.after_packet(packet) == drone,
{
}

/// A packet that a chain of drones passes on arrives as it was sent: the drone at each place of
/// its route hands it to the next, one hop further and otherwise unchanged.
pub proof fn law_chain_preserves_packet<S>(
    drones: Seq<DroneView<S>>,
    draws: Seq<Rate>,
    packet: PacketView,
)
    requires
        packet.routing_header.hop_index >= 0,
        draws.len() == drones.len(),
        forall|j: int|
            0 <= j < drones.len() ==> passes(
                #[trigger] drones[j],
                advanced(packet, j),
                draws[j],
            ),
    ensures
        forall|j: int, actions: Seq<ActionView>|
            0 <= j < drones.len() ==> (#[trigger] drones[j].answers(
                advanced(packet, j),
                draws[j],
                actions,
            ) <==> actions == deliver(
                packet.routing_header.hops[packet.routing_header.hop_index + j + 1],
                advanced(packet, j + 1),
            )),
{
    assert forall|j: int, actions: Seq<ActionView>| 0 <= j < drones.len() implies (
    #[trigger] drones[j].answers(advanced(packet, j), draws[j], actions) <==> actions == deliver(
        packet.routing_header.hops[packet.routing_header.hop_index + j + 1],
        advanced(packet, j + 1),
    )) by {
        law_passed_on_unchanged(drones[j], advanced(packet, j), draws[j]);
    }
}

/// A drone passes a fragment on exactly where it is the hop that the header points at, the next
/// hop is a neighbor, and the drop rate is zero or the number drawn exceeds it.
pub proof fn law_fragment_passes<S>(drone: DroneView<S>, packet: PacketView, draw: Rate)
    requires
        packet.routing_header.hop_index >= 0,
        packet.pack_type is MsgFragment,
    ensures
        passes(drone, packet, draw) <==> {
            let header = packet.routing_header;
            &&& header.hop_index + 1 < header.hops.len()
            &&& header.hops[header.hop_index] == drone.id
            &&& drone.is_neighbor(header.hops[header.hop_index + 1])
            &&& !(draw.spec_at_most(drone.pdr) && drone.pdr.value() > 0)
        },
{
}

/// A Nack retraces the route of the packet that it answers: it visits the hops up to the drone in
/// reverse, so it ends at the source, and its header points at the hop before the drone.
pub proof fn law_nack_retraces_route(nack: Nack, header: HeaderView, session_id: u64)
    requires
        0 < header.hop_index < header.hops.len(),
    ensures
        ({
            let back = nack_packet(nack, header, session_id).routing_header;
            &&& back.hop_index == 1
            &&& back.hops.len() == header.hop_index + 1
            &&& forall|j: int|
                0 <= j <= header.hop_index ==> #[trigger] back.hops[j] == header.hops[header.hop_index
                    - j]
            &&& back.hops.last() == header.hops.first()
            &&& back.hops.reverse() == header.hops.take(header.hop_index + 1)
        }),
{
    let back = nack_packet(nack, header, session_id).routing_header;
    assert(back.hops.reverse() =~= header.hops.take(header.hop_index + 1));
}

/// A Nack reaches the source of the packet that it answers, where each drone on the way back is a
/// neighbor of the one before it: the drone at each earlier place of the route passes it on
/// unchanged to the place before, down to the source.
pub proof fn law_nack_reaches_source<S>(
    drones: Seq<DroneView<S>>,
    draws: Seq<Rate>,
    nack: Nack,
    header: HeaderView,
    session_id: u64,
)
    requires
        0 < header.hop_index < header.hops.len(),
        drones.len() == header.hop_index - 1,
        draws.len() == drones.len(),
        forall|j: int|
            0 <= j < drones.len() ==> {
                &&& (#[trigger] drones[j]).id == header.hops[header.hop_index - 1 - j]
                &&& drones[j].is_neighbor(header.hops[header.hop_index - 2 - j])
            },
    ensures
        ({
            let back = nack_packet(nack, header, session_id);
            forall|j: int, actions: Seq<ActionView>|
                0 <= j < drones.len() ==> (#[trigger] drones[j].answers(
                    advanced(back, j),
                    draws[j],
                    actions,
                ) <==> actions == deliver(
                    header.hops[header.hop_index - 2 - j],
                    advanced(back, j + 1),
                ))
        }),
{
    let back = nack_packet(nack, header, session_id);
    law_nack_retraces_route(nack, header, session_id);
    assert forall|j: int| 0 <= j < drones.len() implies passes(
        #[trigger] drones[j],
        advanced(back, j),
        draws[j],
    ) by {
        assert(back.routing_header.hops[1 + j] == header.hops[header.hop_index - 1 - j]);
        assert(back.routing_header.hops[2 + j] == header.hops[header.hop_index - 2 - j]);
    }
    law_chain_preserves_packet(drones, draws, back);
    assert forall|j: int, actions: Seq<ActionView>| 0 <= j < drones.len() implies (
    #[trigger] drones[j].answers(advanced(back, j), draws[j], actions) <==> actions == deliver(
        header.hops[header.hop_index - 2 - j],
        advanced(back, j + 1),
    )) by {
        assert(back.routing_header.hops[2 + j] == header.hops[header.hop_index - 2 - j]);
    }
}

/// The Nack that a refused fragment or flood response is answered with.
pub open spec fn nack_for<S>(drone: DroneView<S>, packet: PacketView, draw: Rate) -> Nack {
    match packet.pack_type {
        PacketTypeView::MsgFragment(fragment) => Nack {
            fragment_index: fragment.fragment_index,
            nack_type: drone.fragment_refusal(packet.routing_header, draw)->0,
        },
        _ => Nack { fragment_index: 0, nack_type: drone.refusal(packet.routing_header)->0 },
    }
}

/// A fragment or a flood response that is not passed on is answered with a Nack, and its loss is
/// reported after that. The Nack goes to the hop before the drone where that is a neighbor, and
/// its sending is reported; else the controller is to deliver it. The report names the packet as
/// it came in.
pub proof fn law_refused_packet_is_answered<S>(
    drone: DroneView<S>,
    packet: PacketView,
    draw: Rate,
)
    requires
        packet.pack_type is MsgFragment || packet.pack_type is FloodResponse,
        packet.routing_header.hop_index >= 0,
        !passes(drone, packet, draw),
        drone.fault(packet, draw) is None,
    ensures
        ({
            let header = packet.routing_header;
            let nack = nack_packet(nack_for(drone, packet, draw), header, packet.session_id);
            let lost = ActionView::Report(DroneEventView::PacketDropped(packet));
            let before = header.hops[header.hop_index - 1];
            forall|actions: Seq<ActionView>| #[trigger]
                drone.answers(packet, draw, actions) <==> actions == if header.hop_index
                    < header.hops.len() && drone.is_neighbor(before) {
                    seq![
                        ActionView::Deliver(before, nack),
                        ActionView::Report(DroneEventView::PacketSent(nack)),
                        lost,
                    ]
                } else {
                    seq![ActionView::Report(DroneEventView::ControllerShortcut(nack)), lost]
                }
        }),
{
    let header = packet.routing_header;
    let nack = nack_for(drone, packet, draw);
    let back = nack_packet(nack, header, packet.session_id);
    let lost = ActionView::Report(DroneEventView::PacketDropped(packet));
    let owed = drone.nack_actions(nack, header, packet.session_id).push(lost);
    if header.hop_index < header.hops.len() {
        law_nack_retraces_route(nack, header, packet.session_id);
        let before = header.hops[header.hop_index - 1];
        assert(back.routing_header.hops[1] == before);
        if drone.is_neighbor(before) {
            assert(owed =~= seq![
                ActionView::Deliver(before, back),
                ActionView::Report(DroneEventView::PacketSent(back)),
                lost,
            ]);
        } else {
            assert(owed =~= seq![
                ActionView::Report(DroneEventView::ControllerShortcut(back)),
                lost,
            ]);
        }
    } else {
        assert(owed =~= seq![ActionView::Report(DroneEventView::ControllerShortcut(back)), lost]);
    }
}

/// An Ack or a Nack with a route is never lost: it is passed on, or left to the controller as it
/// came in.
pub proof fn law_acks_and_nacks_survive<S>(drone: DroneView<S>, packet: PacketView, draw: Rate)
    requires
        packet.pack_type is Ack || packet.pack_type is Nack,
        packet.routing_header.hops.len() > 0,
    ensures
        drone.fault(packet, draw) is None,
        forall|actions: Seq<ActionView>| #[trigger]
            drone.answers(packet, draw, actions) ==> {
                ||| passes(drone, packet, draw) && actions == forward(packet)
                ||| !passes(drone, packet, draw) && actions == seq![
                    ActionView::Report(DroneEventView::ControllerShortcut(packet)),
                ]
            },
{
}

/// With a drop rate of one, every number below one that can be drawn loses the fragment.
pub proof fn law_full_rate_loses_all<S>(drone: DroneView<S>, header: HeaderView, draw: Rate)
    requires
        drone.pdr.bits == ONE,
        draw.unit(),
        drone.refusal(header) is None,
    ensures
        drone.fragment_refusal(header, draw) == Some(NackType::Dropped),
{
    lemma_bounds();
}

/// With a drop rate of zero no fragment is lost, whatever is drawn.
pub proof fn law_zero_rate_loses_none<S>(drone: DroneView<S>, header: HeaderView, draw: Rate)
    requires
        drone.pdr.value() == 0,
        drone.refusal(header) is None,
    ensures
        drone.fragment_refusal(header, draw) is None,
{
}

/// The higher the drop rate, the more is lost: a number that loses a fragment at one rate loses it
/// at every higher one.
pub proof fn law_loss_grows_with_rate<S>(
    low: DroneView<S>,
    high: DroneView<S>,
    header: HeaderView,
    draw: Rate,
)
    requires
        high == (DroneView { pdr: high.pdr, ..low }),
        low.pdr.spec_at_most(high.pdr),
        low.fragment_refusal(header, draw) is Some,
    ensures
        high.fragment_refusal(header, draw) == low.fragment_refusal(header, draw),
{
}

/// The entries of a packet handed to several neighbors in turn.
pub proof fn lemma_deliver_all(order: Seq<NodeId>, packet: PacketView)
    ensures
        deliver_all(order, packet).len() == 2 * order.len(),
        forall|i: int|
            0 <= i < 2 * order.len() ==> #[trigger] deliver_all(order, packet)[i] == if i % 2 == 0 {
                ActionView::Deliver(order[i / 2], packet)
            } else {
                ActionView::Report(DroneEventView::PacketSent(packet))
            },
    decreases order.len(),
{
    if order.len() > 0 {
        lemma_deliver_all(order.drop_last(), packet);
    }
}

/// Whether each packet that is handed to a neighbor goes to a neighbor indeed, and is reported as
/// sent directly after; and every packet reported as sent was handed over directly before.
pub open spec fn deliveries_in_order<S>(drone: DroneView<S>, actions: Seq<ActionView>) -> bool {
    &&& forall|i: int|
        0 <= i < actions.len() ==> (#[trigger] actions[i] matches ActionView::Deliver(to, packet)
            ==> {
            &&& drone.is_neighbor(to)
            &&& i + 1 < actions.len()
            &&& actions[i + 1] == ActionView::Report(DroneEventView::PacketSent(packet))
        })
    &&& forall|i: int|
        0 <= i < actions.len() ==> (#[trigger] actions[i] matches ActionView::Report(
            DroneEventView::PacketSent(packet),
        ) ==> {
            &&& 0 < i
            &&& actions[i - 1] is Deliver
            &&& actions[i - 1]->Deliver_1 == packet
        })
}

/// Whatever comes in: something is done about it; packets are handed to neighbors only, so there
/// is always a sender to hand them to; each is reported as sent directly after, and none is so
/// reported that was not.
pub proof fn law_deliveries_in_order<S>(
    drone: DroneView<S>,
    packet: PacketView,
    draw: Rate,
    actions: Seq<ActionView>,
)
    requires
        packet.routing_header.hop_index >= 0,
        drone.fault(packet, draw) is None,
        drone.answers(packet, draw, actions),
    ensures
        actions.len() > 0,
        deliveries_in_order(drone, actions),
{
    match packet.pack_type {
        PacketTypeView::FloodRequest(req) => {
            if !drone.ends_flood(req) {
                let flood = drone.flood_request_packet(
                    req,
                    packet.routing_header,
                    packet.session_id,
                );
                let order = choose|order: Seq<NodeId>|
                    {
                        &&& order.no_duplicates()
                        &&& order.to_set() == drone.adjacents_but(req.path_trace.last().0)
                        &&& actions == #[trigger] deliver_all(order, flood)
                    };
                lemma_deliver_all(order, flood);
                assert(order.len() > 0) by {
                    if order.len() == 0 {
                        assert(order.to_set() =~= Set::empty());
                    }
                }
                assert forall|k: int| 0 <= k < order.len() implies drone.is_neighbor(
                    #[trigger] order[k],
                ) by {
                    assert(order.to_set().contains(order[k]));
                }
            }
        },
        PacketTypeView::MsgFragment(_) => {
            if !passes(drone, packet, draw) {
                law_refused_packet_is_answered(drone, packet, draw);
            }
        },
        PacketTypeView::FloodResponse(_) => {
            if !passes(drone, packet, draw) {
                law_refused_packet_is_answered(drone, packet, draw);
            }
        },
        _ => {},
    }
}

/// A packet with a route that names a hop before the drone, or a flood request that names the
/// node it came from, never makes the drone give up.
pub proof fn law_proper_packets_cause_no_fault<S>(
    drone: DroneView<S>,
    packet: PacketView,
    draw: Rate,
)
    requires
        match packet.pack_type {
            PacketTypeView::FloodRequest(req) => req.path_trace.len() > 0,
            _ => {
                &&& packet.routing_header.hops.len() > 0
                &&& 0 < packet.routing_header.hop_index < usize::MAX
            },
        },
    ensures
        drone.fault(packet, draw) is None,
{
}

/// A flood request that is new, and that there is somebody to pass on to, goes to each neighbor
/// but the one it came from, once, and to nobody else; it carries the drone at the end of its
/// trace and is otherwise unchanged.
pub proof fn law_new_flood_goes_to_all_others<S>(
    drone: DroneView<S>,
    packet: PacketView,
    draw: Rate,
    actions: Seq<ActionView>,
)
    requires
        packet.pack_type is FloodRequest,
        packet.pack_type->FloodRequest_0.path_trace.len() > 0,
        !drone.ends_flood(packet.pack_type->FloodRequest_0),
        drone.answers(packet, draw, actions),
    ensures
        ({
            let req = packet.pack_type->FloodRequest_0;
            let previous = req.path_trace.last().0;
            let flood = PacketView {
                pack_type: PacketTypeView::FloodRequest(
                    FloodRequestView {
                        path_trace: req.path_trace.push(
                            (drone.id, NodeType::Drone),
                        ),
                        ..req
                    },
                ),
                ..packet
            };
            &&& forall|i: int|
                0 <= i < actions.len() && #[trigger] actions[i] is Deliver ==> actions[i]
                    == ActionView::Deliver(actions[i]->Deliver_0, flood)
            &&& forall|n: NodeId|
                (exists|i: int|
                    0 <= i < actions.len() && #[trigger] actions[i] is Deliver
                        && actions[i]->Deliver_0 == n) <==> #[trigger] drone.is_neighbor(n) && n
                    != previous
            &&& forall|i: int, j: int|
                0 <= i < j < actions.len() && #[trigger] actions[i] is Deliver
                    && #[trigger] actions[j] is Deliver ==> actions[i]->Deliver_0
                    != actions[j]->Deliver_0
        }),
{
    let req = packet.pack_type->FloodRequest_0;
    let previous = req.path_trace.last().0;
    let flood = drone.flood_request_packet(req, packet.routing_header, packet.session_id);
    let order = choose|order: Seq<NodeId>|
        {
            &&& order.no_duplicates()
            &&& order.to_set() == drone.adjacents_but(previous)
            &&& actions == #[trigger] deliver_all(order, flood)
        };
    lemma_deliver_all(order, flood);
    assert forall|n: NodeId|
        (exists|i: int|
            0 <= i < actions.len() && #[trigger] actions[i] is Deliver && actions[i]->Deliver_0
                == n) <==> #[trigger] drone.is_neighbor(n) && n != previous by {
        if drone.is_neighbor(n) && n != previous {
            assert(order.to_set().contains(n));
            let k = choose|k: int| 0 <= k < order.len() && order[k] == n;
            assert(actions[2 * k] is Deliver && actions[2 * k]->Deliver_0 == n);
        }
        if exists|i: int|
            0 <= i < actions.len() && #[trigger] actions[i] is Deliver && actions[i]->Deliver_0
                == n {
            let i = choose|i: int|
                0 <= i < actions.len() && #[trigger] actions[i] is Deliver
                    && actions[i]->Deliver_0 == n;
            assert(order[i / 2] == n);
            assert(order.to_set().contains(n));
        }
    }
    assert forall|i: int, j: int|
        0 <= i < j < actions.len() && #[trigger] actions[i] is Deliver
            && #[trigger] actions[j] is Deliver implies actions[i]->Deliver_0
        != actions[j]->Deliver_0 by {
        assert(i / 2 != j / 2);
    }
}

/// The answer to a flood request retraces its way: it starts at the drone, its header points at
/// the node that the request came from, and it ends where the request started.
pub proof fn law_flood_response_retraces_way<S>(
    drone: DroneView<S>,
    req: FloodRequestView,
    session_id: u64,
)
    requires
        req.path_trace.len() > 0,
    ensures
        ({
            let back = drone.flood_response_packet(req, session_id).routing_header;
            let n = req.path_trace.len();
            &&& back.hop_index == 1
            &&& back.hops.len() == n + 1
            &&& back.hops[0] == drone.id
            &&& back.hops[1] == req.path_trace.last().0
            &&& back.hops.last() == req.path_trace.first().0
            &&& forall|j: int| 0 <= j < n ==> #[trigger] back.hops[j + 1] == req.path_trace[n - 1 - j].0
        }),
{
}

/// The answer to a flood request reaches the node that started the flood, where each drone on the
/// way back is a neighbor of the one before it: the drone at each earlier place of the path trace
/// passes it on unchanged to the place before, down to the first.
pub proof fn law_flood_response_reaches_initiator<S>(
    drone: DroneView<S>,
    req: FloodRequestView,
    session_id: u64,
    drones: Seq<DroneView<S>>,
    draws: Seq<Rate>,
)
    requires
        req.path_trace.len() > 0,
        drones.len() == req.path_trace.len() - 1,
        draws.len() == drones.len(),
        forall|j: int|
            0 <= j < drones.len() ==> {
                &&& (#[trigger] drones[j]).id == req.path_trace[req.path_trace.len() - 1 - j].0
                &&& drones[j].is_neighbor(req.path_trace[req.path_trace.len() - 2 - j].0)
            },
    ensures
        ({
            let back = drone.flood_response_packet(req, session_id);
            forall|j: int, actions: Seq<ActionView>|
                0 <= j < drones.len() ==> (#[trigger] drones[j].answers(
                    advanced(back, j),
                    draws[j],
                    actions,
                ) <==> actions == deliver(
                    req.path_trace[req.path_trace.len() - 2 - j].0,
                    advanced(back, j + 1),
                ))
        }),
{
    let back = drone.flood_response_packet(req, session_id);
    let hops = back.routing_header.hops;
    let n = req.path_trace.len();
    law_flood_response_retraces_way(drone, req, session_id);
    assert forall|j: int| 0 <= j < drones.len() implies passes(
        #[trigger] drones[j],
        advanced(back, j),
        draws[j],
    ) by {
        assert(hops[j + 1] == req.path_trace[n - 1 - j].0);
        assert(hops[(j + 1) + 1] == req.path_trace[n - 1 - (j + 1)].0);
    }
    law_chain_preserves_packet(drones, draws, back);
    assert forall|j: int, actions: Seq<ActionView>| 0 <= j < drones.len() implies (
    #[trigger] drones[j].answers(advanced(back, j), draws[j], actions) <==> actions == deliver(
        req.path_trace[n - 2 - j].0,
        advanced(back, j + 1),
    )) by {
        assert(hops[(j + 1) + 1] == req.path_trace[n - 1 - (j + 1)].0);
    }
}

/// A flood request whose flood id was received before is not passed on again: the answer goes back to the node that it
/// came from, or to the controller where that is no neighbor any more, and nothing else is done.
pub proof fn law_seen_flood_is_answered<S>(
    drone: DroneView<S>,
    packet: PacketView,
    draw: Rate,
    actions: Seq<ActionView>,
)
    requires
        packet.pack_type is FloodRequest,
        packet.pack_type->FloodRequest_0.path_trace.len() > 0,
        drone.flood_ids.contains(packet.pack_type->FloodRequest_0.flood_id),
        drone.answers(packet, draw, actions),
    ensures
        drone.after_packet(packet) == drone,
        ({
            let req = packet.pack_type->FloodRequest_0;
            let response = drone.flood_response_packet(req, packet.session_id);
            let previous = req.path_trace.last().0;
            actions == if drone.is_neighbor(previous) {
                deliver(previous, response)
            } else {
                seq![ActionView::Report(DroneEventView::ControllerShortcut(response))]
            }
        }),
{
    let req = packet.pack_type->FloodRequest_0;
    law_flood_response_retraces_way(drone, req, packet.session_id);
    assert(drone.flood_ids.insert(req.flood_id) =~= drone.flood_ids);
}

/// Something that comes in.
pub enum Input<S> {
    Packet(PacketView),
    Command(DroneCommand<S>),
}

/// The drone after a sequence of inputs.
pub open spec fn after<S>(drone: DroneView<S>, inputs: Seq<Input<S>>) -> DroneView<S>
    decreases inputs.len(),
{
    if inputs.len() == 0 {
        drone
    } else {
        let before = after(drone, inputs.drop_last());
        match inputs.last() {
            Input::Packet(packet) => before.after_packet(packet),
            Input::Command(command) => before.after_command(command),
        }
    }
}

/// Whatever comes in, a drone keeps its name and the floods that it has seen, a drone that was
/// told to go down stays so, and a drop rate between zero and one stays between zero and one.
pub proof fn law_history<S>(drone: DroneView<S>, inputs: Seq<Input<S>>)
    ensures
        after(drone, inputs).id == drone.id,
        drone.flood_ids.subset_of(after(drone, inputs).flood_ids),
        drone.should_terminate ==> after(drone, inputs).should_terminate,
        drone.pdr.unit() ==> after(drone, inputs).pdr.unit(),
        drone.valid() ==> after(drone, inputs).valid(),
    decreases inputs.len(),
{
    if inputs.len() > 0 {
        law_history(drone, inputs.drop_last());
    }
}

/// A flood, once received, is never passed on again, whatever comes in between and whichever node
/// it comes from: a request with the same flood id is answered.
pub proof fn law_flood_is_passed_on_once<S>(
    drone: DroneView<S>,
    first: FloodRequestView,
    inputs: Seq<Input<S>>,
    again: FloodRequestView,
)
    requires
        again.flood_id == first.flood_id,
    ensures
        after(drone.after_flood_request(first), inputs).ends_flood(again),
{
    let seen = drone.after_flood_request(first);
    law_history(seen, inputs);
    assert(seen.flood_ids.contains(first.flood_id));
}

/// Packets change nothing but the floods seen, and none but a flood request changes those.
pub proof fn law_packets_change_floods_only<S>(drone: DroneView<S>, packet: PacketView)
    ensures
        drone.after_packet(packet) == (DroneView {
            flood_ids: drone.after_packet(packet).flood_ids,
            ..drone
        }),
        !(packet.pack_type is FloodRequest) ==> drone.after_packet(packet) == drone,
{
}

/// Removing a node that was just made a neighbor leaves the drone as it was, if the node was none
/// before.
pub proof fn law_add_then_remove<S>(drone: DroneView<S>, node_id: NodeId, sender: S)
    ensures
        !drone.is_neighbor(node_id) ==> drone.after_command(
            DroneCommand::AddSender(node_id, sender),
        ).after_command(DroneCommand::RemoveSender(node_id)) == drone,
        drone.after_command(DroneCommand::AddSender(node_id, sender)).is_neighbor(node_id),
        !drone.after_command(DroneCommand::RemoveSender(node_id)).is_neighbor(node_id),
{
    if !drone.is_neighbor(node_id) {
        assert(drone.packet_send.insert(node_id, sender).remove(node_id) =~= drone.packet_send);
    }
}

/// A drop rate outside the allowed bounds is ignored, and so is the removal of a node that is no
/// neighbor.
pub proof fn law_void_commands<S>(drone: DroneView<S>, pdr: Rate, node_id: NodeId)
    ensures
        !pdr.unit() ==> drone.after_command(DroneCommand::SetPacketDropRate(pdr)) == drone,
        !drone.is_neighbor(node_id) ==> drone.after_command(DroneCommand::RemoveSender(node_id))
            == drone,
{
    if !drone.is_neighbor(node_id) {
        assert(drone.packet_send.remove(node_id) =~= drone.packet_send);
    }
}

/// Clamping gives a number between zero and one for every number, and leaves those be.
pub proof fn law_clamping(rate: Rate)
    ensures
        !rate.nan() ==> rate.spec_clamped().unit(),
        rate.unit() ==> rate.spec_clamped() == rate,
        rate.spec_clamped().spec_clamped() == rate.spec_clamped(),
{
    lemma_bounds();
}

} // verus!
