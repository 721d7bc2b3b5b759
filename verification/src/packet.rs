//! Packets.

use crate::network::HeaderView;
use crate::network::NodeId;
use crate::network::SourceRoutingHeader;
use vstd::prelude::*;

verus! {

/// The number of data bytes in a fragment.
pub const FRAGMENT_DSIZE: usize = 128;

/// A part of a message.
#[derive(Clone, Copy, Debug, PartialEq, Eq)]
pub struct Fragment {
    pub fragment_index: u64,
    pub total_n_fragments: u64,
    /// How many bytes of `data` are meant.
    pub length: u8,
    pub data: [u8; FRAGMENT_DSIZE],
}

/// The receipt for a fragment.
#[derive(Clone, Copy, Debug, PartialEq, Eq)]
pub struct Ack {
    pub fragment_index: u64,
}

/// The notice that a packet was not passed on.
#[derive(Clone, Copy, Debug, PartialEq, Eq)]
pub struct Nack {
    pub fragment_index: u64,
    pub nack_type: NackType,
}

/// Why a packet was not passed on.
#[derive(Clone, Copy, Debug, PartialEq, Eq)]
pub enum NackType {
    /// The route breaks off at this node.
    ErrorInRouting(NodeId),
    /// The route ends at a drone.
    DestinationIsDrone,
    /// The drone lost the packet.
    Dropped,
    /// The packet was meant for this node.
    UnexpectedRecipient(NodeId),
}

/// What a node of the network is.
#[derive(Clone, Copy, Debug, PartialEq, Eq)]
pub enum NodeType {
    Client,
    Drone,
    Server,
}

/// The nodes that a flood request has passed, first to last.
pub type PathTrace = Vec<(NodeId, NodeType)>;

/// The search for the nodes of the network.
#[derive(Debug, PartialEq, Eq)]
pub struct FloodRequest {
    pub flood_id: u64,
    pub initiator_id: NodeId,
    pub path_trace: PathTrace,
}

/// What a [`FloodRequest`] says.
#[verifier::ext_equal]
pub struct FloodRequestView {
    pub flood_id: u64,
    pub initiator_id: NodeId,
    pub path_trace: Seq<(NodeId, NodeType)>,
}

/// The answer to a flood request.
#[derive(Debug, PartialEq, Eq)]
pub struct FloodResponse {
    pub flood_id: u64,
    pub path_trace: PathTrace,
}

/// What a [`FloodResponse`] says.
#[verifier::ext_equal]
pub struct FloodResponseView {
    pub flood_id: u64,
    pub path_trace: Seq<(NodeId, NodeType)>,
}

/// What a packet carries.
#[derive(Debug, PartialEq, Eq)]
pub enum PacketType {
    MsgFragment(Fragment),
    Ack(Ack),
    Nack(Nack),
    FloodRequest(FloodRequest),
    FloodResponse(FloodResponse),
}

/// What a [`PacketType`] says.
#[verifier::ext_equal]
pub enum PacketTypeView {
    MsgFragment(Fragment),
    Ack(Ack),
    Nack(Nack),
    FloodRequest(FloodRequestView),
    FloodResponse(FloodResponseView),
}

/// A packet.
#[derive(Debug, PartialEq, Eq)]
pub struct Packet {
    pub routing_header: SourceRoutingHeader,
    pub session_id: u64,
    pub pack_type: PacketType,
}

/// What a [`Packet`] says.
#[verifier::ext_equal]
pub struct PacketView {
    pub routing_header: HeaderView,
    pub session_id: u64,
    pub pack_type: PacketTypeView,
}

impl View for FloodRequest {
    type V = FloodRequestView;

    open spec fn view(&self) -> FloodRequestView {
        FloodRequestView {
            flood_id: self.flood_id,
            initiator_id: self.initiator_id,
            path_trace: self.path_trace@,
        }
    }
}

impl View for FloodResponse {
    type V = FloodResponseView;

    open spec fn view(&self) -> FloodResponseView {
        FloodResponseView { flood_id: self.flood_id, path_trace: self.path_trace@ }
    }
}

impl View for PacketType {
    type V = PacketTypeView;

    open spec fn view(&self) -> PacketTypeView {
        match self {
            PacketType::MsgFragment(fragment) => PacketTypeView::MsgFragment(*fragment),
            PacketType::Ack(ack) => PacketTypeView::Ack(*ack),
            PacketType::Nack(nack) => PacketTypeView::Nack(*nack),
            PacketType::FloodRequest(req) => PacketTypeView::FloodRequest(req@),
            PacketType::FloodResponse(res) => PacketTypeView::FloodResponse(res@),
        }
    }
}

impl View for Packet {
    type V = PacketView;

    open spec fn view(&self) -> PacketView {
        PacketView {
            routing_header: self.routing_header@,
            session_id: self.session_id,
            pack_type: self.pack_type@,
        }
    }
}

/// A copy of a path trace.
fn copy_trace(trace: &PathTrace) -> (copy: PathTrace)
    ensures
        copy@ == trace@,
{
    let mut copy: PathTrace = Vec::new();
    for i in 0..trace.len()
        invariant
            copy@ == trace@.take(i as int),
    {
        copy.push(trace[i]);
        assert(trace@.take(i as int).push(trace@[i as int]) =~= trace@.take(i + 1));
    }
    assert(trace@.take(trace@.len() as int) =~= trace@);
    copy
}

impl Clone for FloodRequest {
    fn clone(&self) -> (r: Self)
        ensures
            r@ == self@,
    {
        FloodRequest {
            flood_id: self.flood_id,
            initiator_id: self.initiator_id,
            path_trace: copy_trace(&self.path_trace),
        }
    }
}

impl Clone for FloodResponse {
    fn clone(&self) -> (r: Self)
        ensures
            r@ == self@,
    {
        FloodResponse { flood_id: self.flood_id, path_trace: copy_trace(&self.path_trace) }
    }
}

impl Clone for PacketType {
    fn clone(&self) -> (r: Self)
        ensures
            r@ == self@,
    {
        match self {
            PacketType::MsgFragment(fragment) => PacketType::MsgFragment(*fragment),
            PacketType::Ack(ack) => PacketType::Ack(*ack),
            PacketType::Nack(nack) => PacketType::Nack(*nack),
            PacketType::FloodRequest(req) => PacketType::FloodRequest(req.clone()),
            PacketType::FloodResponse(res) => PacketType::FloodResponse(res.clone()),
        }
    }
}

impl Clone for Packet {
    fn clone(&self) -> (r: Self)
        ensures
            r@ == self@,
    {
        Packet {
            routing_header: self.routing_header.clone(),
            session_id: self.session_id,
            pack_type: self.pack_type.clone(),
        }
    }
}

/// Everything that a packet holds can be seen: no part of it is left out or changed.
pub proof fn law_packet_is_seen_whole(packet: Packet)
    ensures
        packet@.session_id == packet.session_id,
        packet@.routing_header.hop_index == packet.routing_header.hop_index,
        packet@.routing_header.hops == packet.routing_header.hops@,
        packet.pack_type matches PacketType::MsgFragment(fragment) ==> packet@.pack_type
            == PacketTypeView::MsgFragment(fragment),
        packet.pack_type matches PacketType::Ack(ack) ==> packet@.pack_type == PacketTypeView::Ack(
            ack,
        ),
        packet.pack_type matches PacketType::Nack(nack) ==> packet@.pack_type
            == PacketTypeView::Nack(nack),
        packet.pack_type matches PacketType::FloodRequest(req) ==> {
            &&& packet@.pack_type is FloodRequest
            &&& packet@.pack_type->FloodRequest_0.flood_id == req.flood_id
            &&& packet@.pack_type->FloodRequest_0.initiator_id == req.initiator_id
            &&& packet@.pack_type->FloodRequest_0.path_trace == req.path_trace@
        },
        packet.pack_type matches PacketType::FloodResponse(res) ==> {
            &&& packet@.pack_type is FloodResponse
            &&& packet@.pack_type->FloodResponse_0.flood_id == res.flood_id
            &&& packet@.pack_type->FloodResponse_0.path_trace == res.path_trace@
        },
{
}

} // verus!
