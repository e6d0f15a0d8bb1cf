//! From the mesh to Signal: frames read from the radio become model updates,
//! `pong!` replies, or attributed posts to the bridged group.
use vstd::prelude::*;
use vstd::utf8::{decode_utf8, encode_utf8, valid_utf8};

use crate::mesh::{
    text_bytes, FromRadio, FromRadioPayload, MeshChannel, MeshPacket, MeshPayload, NodeInfo,
    PacketDestination, PortNum, BRIDGED_CHANNEL, DIRECT_CHANNEL,
};
use crate::model::{channels_after, node_display_name, node_name, Config, Model, Nodes};
use crate::signal::GroupMasterKeyBytes;
use crate::text::{attribute, attributed, same_text};
use crate::update::{bold_ranges, is_group_post, Action};

verus! {

broadcast use vstd::std_specs::hash::group_hash_axioms;

/// The command that asks the gateway whether it is alive.
pub open spec fn ping_text() -> Seq<char> {
    seq!['/', 'p', 'i', 'n', 'g']
}

/// The gateway's answer to a ping.
pub open spec fn pong_text() -> Seq<char> {
    seq!['p', 'o', 'n', 'g', '!']
}

/// `r` sends `pong!` on `channel` to `dest`, carrying no Signal message.
pub open spec fn is_pong(r: Option<Action>, channel: u32, dest: PacketDestination) -> bool {
    &&& r matches Some(Action::SendToMesh { body, channel: c, destination, signal_message })
    &&& body@ == pong_text()
    &&& c == MeshChannel(channel)
    &&& destination == dest
    &&& signal_message is None
}

/// What the bridge answers to a mesh packet: a ping is answered on its own
/// channel (to the sender on the direct channel, to all on the bridged one);
/// other text on the bridged channel is posted to the group under the
/// sender's name, set in bold; everything else is ignored.
pub open spec fn mesh_reply(
    r: Option<Action>,
    p: MeshPacket,
    nodes: Map<u32, NodeInfo>,
    key: GroupMasterKeyBytes,
) -> bool {
    match text_bytes(p) {
        None => r is None,
        Some(b) => if (p.channel != DIRECT_CHANNEL && p.channel != BRIDGED_CHANNEL) || !valid_utf8(
            b,
        ) {
            r is None
        } else if decode_utf8(b) == ping_text() {
            if p.channel == DIRECT_CHANNEL {
                is_pong(r, DIRECT_CHANNEL, PacketDestination::Node(p.from))
            } else {
                is_pong(r, BRIDGED_CHANNEL, PacketDestination::Broadcast)
            }
        } else if p.channel == DIRECT_CHANNEL {
            r is None
        } else {
            let name = node_name(nodes, p.from);
            is_group_post(r, attributed(name, decode_utf8(b)), key, encode_utf8(name).len())
        },
    }
}

/// Whether two models hold the same state.
pub open spec fn same_state(a: Model, b: Model) -> bool {
    &&& a.running_state == b.running_state
    &&& a.contacts@ == b.contacts@
    &&& a.groups@ == b.groups@
    &&& a.channels@ == b.channels@
    &&& a.mesh_to_signal@ == b.mesh_to_signal@
    &&& a.pending_since@ == b.pending_since@
    &&& a.account == b.account
}

/// Relies on String::from_utf8: it accepts exactly the valid UTF-8 byte
/// sequences and keeps their characters.
#[verifier::external_body]
fn utf8_text(bytes: Vec<u8>) -> (r: Option<String>)
    ensures
        r is Some <==> valid_utf8(bytes@),
        r matches Some(s) ==> s@ == decode_utf8(bytes@),
{
    String::from_utf8(bytes).ok()
}

/// Handles a decoded mesh packet.
pub fn handle_mesh_packet(mesh_packet: MeshPacket, nodes: &Nodes, config: &Config) -> (r: Option<
    Action,
>)
    ensures
        mesh_reply(r, mesh_packet, nodes@, config.group_key),
{
    let channel = mesh_packet.channel;
    let from = mesh_packet.from;
    let data = match mesh_packet.payload_variant {
        Some(MeshPayload::Decoded(d)) => d,
        _ => {
            return None;
        },
    };
    if !matches!(data.portnum, PortNum::TextMessageApp) {
        return None;
    }
    if channel != DIRECT_CHANNEL && channel != BRIDGED_CHANNEL {
        return None;
    }
    let text = match utf8_text(data.payload) {
        Some(t) => t,
        None => {
            return None;
        },
    };
    proof {
        reveal_strlit("/ping");
        reveal_strlit("pong!");
    }
    if same_text(text.as_str(), "/ping") {
        assert(text@ == ping_text()) by {
            assert("/ping"@ =~= ping_text());
        }
        assert("pong!"@ =~= pong_text());
        if channel == DIRECT_CHANNEL {
            return Some(
                Action::SendToMesh {
                    body: "pong!".to_owned(),
                    channel: MeshChannel(DIRECT_CHANNEL),
                    destination: PacketDestination::Node(from),
                    signal_message: None,
                },
            );
        } else {
            return Some(
                Action::SendToMesh {
                    body: "pong!".to_owned(),
                    channel: MeshChannel(BRIDGED_CHANNEL),
                    destination: PacketDestination::Broadcast,
                    signal_message: None,
                },
            );
        }
    }
    assert(text@ != ping_text()) by {
        assert("/ping"@ =~= ping_text());
    }
    if channel == DIRECT_CHANNEL {
        return None;
    }
    let name = node_display_name(nodes, from);
    let message = attribute(name.as_str(), text.as_str());
    let ranges = bold_ranges(name.as_str().len());
    Some(Action::SendToGroup { message, master_key: config.group_key, ranges })
}

/// What handling a radio frame does: channel settings and node information
/// update the model and the node directory, mesh packets are answered as
/// `mesh_reply` says, anything else is ignored.
pub open spec fn radio_outcome(
    r: Option<Action>,
    f: FromRadio,
    m0: Model,
    m1: Model,
    n0: Map<u32, NodeInfo>,
    n1: Map<u32, NodeInfo>,
    key: GroupMasterKeyBytes,
) -> bool {
    match f.payload_variant {
        Some(FromRadioPayload::Channel(ch)) => {
            &&& r is None
            &&& n1 == n0
            &&& match ch.settings {
                Some(s) => m1.channels@ == channels_after(m0.channels@, ch.index as int, s),
                None => m1.channels@ == m0.channels@,
            }
            &&& m1.running_state == m0.running_state
            &&& m1.contacts@ == m0.contacts@
            &&& m1.groups@ == m0.groups@
            &&& m1.mesh_to_signal@ == m0.mesh_to_signal@
            &&& m1.pending_since@ == m0.pending_since@
            &&& m1.account == m0.account
        },
        Some(FromRadioPayload::NodeInfo(info)) => {
            &&& r is None
            &&& n1 == n0.insert(info.num, info)
            &&& same_state(m1, m0)
        },
        Some(FromRadioPayload::Packet(p)) => {
            &&& mesh_reply(r, p, n0, key)
            &&& n1 == n0
            &&& same_state(m1, m0)
        },
        _ => {
            &&& r is None
            &&& n1 == n0
            &&& same_state(m1, m0)
        },
    }
}

/// Handles a frame read from the radio.
pub fn handle_from_radio_packet(
    model: &mut Model,
    config: &Config,
    nodes: &mut Nodes,
    from_radio_packet: FromRadio,
) -> (r: Option<Action>)
    requires
        old(model).wf(),
    ensures
        final(model).wf(),
        radio_outcome(
            r,
            from_radio_packet,
            *old(model),
            *final(model),
            old(nodes)@,
            final(nodes)@,
            config.group_key,
        ),
{
    match from_radio_packet.payload_variant {
        Some(FromRadioPayload::Channel(channel)) => {
            if let Some(settings) = channel.settings {
                model.set_channel(channel.index, settings);
            }
            None
        },
        Some(FromRadioPayload::NodeInfo(node_info)) => {
            nodes.insert(node_info.num, node_info);
            None
        },
        Some(FromRadioPayload::Packet(mesh_packet)) => handle_mesh_packet(mesh_packet, nodes, config),
        _ => None,
    }
}

} // verus!
