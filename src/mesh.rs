//! The parts of Meshtastic frames that the bridge reads, as plain values.
use vstd::prelude::*;

verus! {

/// The mesh channel index whose text traffic is bridged to the Signal group.
pub const BRIDGED_CHANNEL: u32 = 1;

/// The mesh channel index used for direct messages to the gateway.
pub const DIRECT_CHANNEL: u32 = 0;

/// How many channel slots a radio has.
pub const MAX_CHANNELS: usize = 8;

/// A channel index on the mesh.
#[derive(Clone, Copy, Debug, PartialEq, Eq, Structural)]
pub struct MeshChannel(pub u32);

impl MeshChannel {
    pub fn new(index: u32) -> (r: MeshChannel)
        ensures
            r.0 == index,
    {
        MeshChannel(index)
    }
}

/// Where an outbound mesh packet goes.
#[derive(Clone, Copy, Debug, PartialEq, Eq, Structural)]
pub enum PacketDestination {
    Local,
    Broadcast,
    Node(u32),
}

/// The application port of a decoded mesh packet.
#[derive(Clone, Copy, Debug, PartialEq, Eq, Structural, Default)]
pub enum PortNum {
    #[default]
    UnknownApp,
    TextMessageApp,
    PositionApp,
    RoutingApp,
    WaypointApp,
    Other(i32),
}

/// The decoded payload of a mesh packet.
#[derive(Clone, Debug, Default)]
pub struct Data {
    pub portnum: PortNum,
    pub payload: Vec<u8>,
    /// For a routing frame: the id of the packet it answers.
    pub request_id: u32,
}

#[derive(Clone, Debug)]
pub enum MeshPayload {
    Decoded(Data),
    Encrypted(Vec<u8>),
}

#[derive(Clone, Debug, Default)]
pub struct MeshPacket {
    pub from: u32,
    pub to: u32,
    pub channel: u32,
    pub id: u32,
    pub want_ack: bool,
    pub payload_variant: Option<MeshPayload>,
}

#[derive(Clone, Debug, Default)]
pub struct User {
    pub id: String,
    pub long_name: String,
    pub short_name: String,
}

#[derive(Clone, Debug, Default)]
pub struct NodeInfo {
    pub num: u32,
    pub user: Option<User>,
}

#[derive(Clone, Debug, Default)]
pub struct ChannelSettings {
    pub name: String,
    pub psk: Vec<u8>,
}

#[derive(Clone, Debug, Default)]
pub struct Channel {
    pub index: i32,
    pub settings: Option<ChannelSettings>,
}

#[derive(Clone, Debug)]
pub enum FromRadioPayload {
    Packet(MeshPacket),
    /// The radio's report of its own node number.
    MyInfo(u32),
    NodeInfo(NodeInfo),
    Channel(Channel),
    Other,
}

/// One frame read from the radio.
#[derive(Clone, Debug, Default)]
pub struct FromRadio {
    pub payload_variant: Option<FromRadioPayload>,
}

/// The text payload bytes of a packet, when it is a decoded text message.
pub open spec fn text_bytes(p: MeshPacket) -> Option<Seq<u8>> {
    match p.payload_variant {
        Some(MeshPayload::Decoded(d)) => if d.portnum is TextMessageApp {
            Some(d.payload@)
        } else {
            None
        },
        _ => None,
    }
}

/// The packet id that a frame acknowledges, when it is a routing ack.
pub open spec fn acked_id(f: FromRadio) -> Option<u32> {
    match f.payload_variant {
        Some(FromRadioPayload::Packet(p)) => match p.payload_variant {
            Some(MeshPayload::Decoded(d)) => if d.portnum is RoutingApp && d.request_id != 0 {
                Some(d.request_id)
            } else {
                None
            },
            _ => None,
        },
        _ => None,
    }
}

/// The node number a frame reports as the radio's own, if it is one.
pub open spec fn reported_node(f: FromRadio) -> Option<u32> {
    match f.payload_variant {
        Some(FromRadioPayload::MyInfo(n)) => Some(n),
        _ => None,
    }
}

/// The id of the packet that a routing frame acknowledges, if it is one.
pub fn routing_ack_id(f: &FromRadio) -> (r: Option<u32>)
    ensures
        r == acked_id(*f),
{
    match &f.payload_variant {
        Some(FromRadioPayload::Packet(p)) => match &p.payload_variant {
            Some(MeshPayload::Decoded(d)) => {
                if matches!(d.portnum, PortNum::RoutingApp) && d.request_id != 0 {
                    Some(d.request_id)
                } else {
                    None
                }
            },
            _ => None,
        },
        _ => None,
    }
}

} // verus!
