//! What the controller tells a drone, and what a drone tells the controller.

use vstd::prelude::*;
use crate::drop_rate::DropRate;
use crate::network::NodeId;
use crate::packet::Packet;
use crate::packet::PacketView;

verus! {

/// A command of the controller. `C` is the channel to a neighbor.
pub enum DroneCommand<C> {
    /// Link the node through the channel, in place of any earlier link.
    AddSender(NodeId, C),
    /// Unlink the node.
    RemoveSender(NodeId),
    /// Lose fragments at this rate from now on.
    SetPacketDropRate(DropRate),
    /// Leave the network: drain what is in flight, then stop.
    Crash,
}

/// A report of a drone to the controller.
#[derive(Debug, PartialEq, Eq)]
pub enum DroneEvent {
    /// The packet was handed to the next hop.
    PacketSent(Packet),
    /// The fragment was lost on the link.
    PacketDropped(Packet),
    /// No link leads to the next hop: the controller has to deliver the
    /// packet itself.
    ControllerShortcut(Packet),
}

/// Model of a [`DroneEvent`].
pub enum DroneEventView {
    PacketSent(PacketView),
    PacketDropped(PacketView),
    ControllerShortcut(PacketView),
}

impl View for DroneEvent {
    type V = DroneEventView;

    open spec fn view(&self) -> DroneEventView {
        match *self {
            DroneEvent::PacketSent(packet) => DroneEventView::PacketSent(packet@),
            DroneEvent::PacketDropped(packet) => DroneEventView::PacketDropped(packet@),
            DroneEvent::ControllerShortcut(packet) => DroneEventView::ControllerShortcut(packet@),
        }
    }
}

impl Clone for DroneEvent {
    fn clone(&self) -> (copy: Self)
        ensures
            copy@ == self@,
    {
        match self {
            DroneEvent::PacketSent(packet) => DroneEvent::PacketSent(packet.clone()),
            DroneEvent::PacketDropped(packet) => DroneEvent::PacketDropped(packet.clone()),
            DroneEvent::ControllerShortcut(packet) => DroneEvent::ControllerShortcut(
                packet.clone(),
            ),
        }
    }
}

} // verus!
