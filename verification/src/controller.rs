//! What a drone is told by the simulation controller, and what it tells it.

use crate::network::NodeId;
use crate::packet::Packet;
use crate::packet::PacketView;
use crate::rate::Rate;
use vstd::prelude::*;

verus! {

/// A command to a drone, whose neighbors are reached through senders of type `S`.
#[derive(Debug)]
pub enum DroneCommand<S> {
    RemoveSender(NodeId),
    AddSender(NodeId, S),
    SetPacketDropRate(Rate),
    Crash,
}

/// What became of a command.
#[derive(Clone, Copy, Debug, PartialEq, Eq)]
pub enum CommandOutcome {
    /// The drop rate is now this.
    RateSet(Rate),
    /// This drop rate is outside the allowed bounds, and was not taken.
    RateRefused(Rate),
    /// The node is a new neighbor.
    NeighborAdded(NodeId),
    /// The node was a neighbor, and has a new sender.
    NeighborUpdated(NodeId),
    /// The node is no longer a neighbor.
    NeighborRemoved(NodeId),
    /// The node was no neighbor to begin with.
    NoSuchNeighbor(NodeId),
    /// The drone with this name is going down.
    Crashing(NodeId),
}

/// An event that a drone reports.
#[derive(Debug, PartialEq, Eq)]
pub enum DroneEvent {
    /// The packet was handed to a neighbor.
    PacketSent(Packet),
    /// The packet came in and was not passed on.
    PacketDropped(Packet),
    /// The packet cannot be handed to its next hop: the controller is to deliver it.
    ControllerShortcut(Packet),
}

/// What a [`DroneEvent`] says.
#[verifier::ext_equal]
pub enum DroneEventView {
    PacketSent(PacketView),
    PacketDropped(PacketView),
    ControllerShortcut(PacketView),
}

impl View for DroneEvent {
    type V = DroneEventView;

    open spec fn view(&self) -> DroneEventView {
        match self {
            DroneEvent::PacketSent(packet) => DroneEventView::PacketSent(packet@),
            DroneEvent::PacketDropped(packet) => DroneEventView::PacketDropped(packet@),
            DroneEvent::ControllerShortcut(packet) => DroneEventView::ControllerShortcut(packet@),
        }
    }
}

impl Clone for DroneEvent {
    fn clone(&self) -> (r: Self)
        ensures
            r@ == self@,
    {
        match self {
            DroneEvent::PacketSent(packet) => DroneEvent::PacketSent(packet.clone()),
            DroneEvent::PacketDropped(packet) => DroneEvent::PacketDropped(packet.clone()),
            DroneEvent::ControllerShortcut(packet) => DroneEvent::ControllerShortcut(
                packet.clone(),
            ),
        }
    }
}

} // verus!
