//! Protocol packets.

use vstd::prelude::*;

use crate::protocol::control::ControlBehavior;

verus! {

/// A unitary protocol packet: the top-level unit of information sent over a communication
/// channel.
///
/// Packets are receiver-agnostic: there is no client-only or server-only packet set.
#[derive(Debug, Clone, Copy, PartialEq, Eq)]
pub enum Packet<'a> {
    /// Set the aircraft's armed state. An unarmed aircraft does not respond to control inputs.
    Arm(PacketArm),
    /// A control packet of any kind.
    Control(PacketControl),
    /// Transfer a log buffer to the peer.
    Debug(&'a [u8]),
}

/// The packet that defines the armed state of the aircraft.
#[derive(Debug, Clone, Copy, PartialEq, Eq, Structural)]
pub enum PacketArm {
    /// Arm the drone.
    Arm,
    /// Disarm the drone.
    Disarm,
}

/// A single control packet.
#[derive(Debug, Clone, Copy, PartialEq, Eq, Structural)]
pub enum PacketControl {
    /// Define the control behavior of the aircraft.
    Behavior(ControlBehavior),
}

} // verus!
