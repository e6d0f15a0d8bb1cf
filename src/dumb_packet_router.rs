//! The packet router that the radio client calls on every frame it reads
//! and every packet it sends: it keeps the outbound packets that asked for
//! an ack until the mesh acknowledges them.
use std::collections::HashMap;
use vstd::prelude::*;

use crate::mesh::{acked_id, reported_node, routing_ack_id, FromRadio, FromRadioPayload, MeshPacket};
use crate::update::Action;

verus! {

broadcast use vstd::std_specs::hash::group_hash_axioms;

pub struct DumbPacketRouter {
    /// The gateway's own node number.
    pub node_id: u32,
    /// Outbound packets that asked for an ack, by packet id.
    pub outstanding: HashMap<u32, MeshPacket>,
}

/// The router's error type; none of its operations fails.
#[derive(Clone, Copy, Debug, PartialEq, Eq, Structural)]
pub enum MyError {
    Dumb,
}

/// The outstanding packets after a frame: an ack releases the packet of its id.
pub open spec fn outstanding_after(out: Map<u32, MeshPacket>, frame: FromRadio) -> Map<u32, MeshPacket> {
    match acked_id(frame) {
        Some(id) => out.remove(id),
        None => out,
    }
}

impl DumbPacketRouter {
    /// Every kept packet is kept under its own id.
    pub open spec fn wf(&self) -> bool {
        forall|k: u32| #[trigger] self.outstanding@.contains_key(k) ==> self.outstanding@[k].id == k
    }

    pub fn new(node_id: u32) -> (r: DumbPacketRouter)
        ensures
            r.node_id == node_id,
            r.outstanding@ == Map::<u32, MeshPacket>::empty(),
            r.wf(),
    {
        DumbPacketRouter { node_id, outstanding: HashMap::new() }
    }

    /// Takes note of an outbound packet; returns the id it was given, for the
    /// sender to learn. A packet that asks for an ack is kept until it comes.
    pub fn handle_mesh_packet(&mut self, packet: MeshPacket) -> (r: u32)
        requires
            old(self).wf(),
        ensures
            final(self).wf(),
            r == packet.id,
            final(self).outstanding@.dom().finite(),
            final(self).outstanding@.len() <= old(self).outstanding@.len() + 1,
            !packet.want_ack || old(self).outstanding@.contains_key(packet.id)
                ==> final(self).outstanding@.len() == old(self).outstanding@.len(),
            final(self).node_id == old(self).node_id,
            final(self).outstanding@ == if packet.want_ack {
                old(self).outstanding@.insert(packet.id, packet)
            } else {
                old(self).outstanding@
            },
    {
        let id = packet.id;
        if packet.want_ack {
            self.outstanding.insert(id, packet);
        }
        id
    }

    /// Looks at a frame read from the radio: a routing ack for a kept packet
    /// releases it and reports it delivered; the radio's report of its own
    /// node number sets the gateway's; any other frame changes nothing.
    pub fn handle_packet_from_radio(&mut self, frame: FromRadio) -> (r: Option<Action>)
        requires
            old(self).wf(),
        ensures
            final(self).wf(),
            final(self).outstanding@ == outstanding_after(old(self).outstanding@, frame),
            final(self).outstanding@.dom().finite(),
            final(self).outstanding@.len() + (if r is Some {
                1int
            } else {
                0int
            }) == old(self).outstanding@.len(),
            final(self).node_id == match reported_node(frame) {
                Some(n) => n,
                None => old(self).node_id,
            },
            match acked_id(frame) {
                Some(id) => if old(self).outstanding@.contains_key(id) {
                    &&& r matches Some(Action::MeshAck { packet, deliverd })
                    &&& packet == old(self).outstanding@[id]
                    &&& packet.id == id
                    &&& deliverd
                    &&& final(self).outstanding@ == old(self).outstanding@.remove(id)
                } else {
                    r is None && final(self).outstanding@ == old(self).outstanding@
                },
                None => r is None && final(self).outstanding@ == old(self).outstanding@,
            },
    {
        if let Some(FromRadioPayload::MyInfo(n)) = frame.payload_variant {
            self.node_id = n;
            return None;
        }
        match routing_ack_id(&frame) {
            Some(id) => match self.outstanding.remove(&id) {
                Some(packet) => Some(Action::MeshAck { packet, deliverd: true }),
                None => None,
            },
            None => None,
        }
    }

    /// The gateway's node number.
    pub fn source_node_id(&self) -> (r: u32)
        ensures
            r == self.node_id,
    {
        self.node_id
    }
}

} // verus!
