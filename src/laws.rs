//! Laws of the bridge, proved over the contracts of its parts.
use vstd::prelude::*;
use vstd::utf8::{decode_utf8, encode_utf8, valid_utf8};

use crate::bridge::{ack_outcome, acked_message, Cmd};
use crate::dumb_packet_router::outstanding_after;
use crate::mesh::{acked_id, FromRadio};
use crate::mesh::{
    text_bytes, ChannelSettings, MeshChannel, MeshPacket, NodeInfo, PacketDestination,
    BRIDGED_CHANNEL, DIRECT_CHANNEL,
};
use crate::meshy::{mesh_reply, ping_text};
use crate::model::{node_name, Config, Contact, Model, SignalMessage};
use crate::signal::{sent_timestamp, thread_of, Content, GroupMasterKeyBytes, ThreadView};
use crate::update::{signal_reply, Action};

verus! {

/// A change to the table of pending acks: a bridged message recorded under
/// the id its mesh packet was given, an ack of a packet id, or the expiry of
/// the messages under some ids. `record_sent` makes an expiry (of
/// `expired_ids`) followed by a recording; `on_mesh_ack` makes an ack.
pub ghost enum PendingEvent {
    Sent(u32, SignalMessage),
    Acked(u32),
    Expired(Set<u32>),
}

/// The table after one event, as `record_sent` and `on_mesh_ack` change it.
pub open spec fn apply(m: Map<u32, SignalMessage>, e: PendingEvent) -> Map<u32, SignalMessage> {
    match e {
        PendingEvent::Sent(id, msg) => m.insert(id, msg),
        PendingEvent::Acked(id) => m.remove(id),
        PendingEvent::Expired(ids) => m.remove_keys(ids),
    }
}

/// The table after a run of events.
pub open spec fn replay(m: Map<u32, SignalMessage>, evs: Seq<PendingEvent>) -> Map<u32, SignalMessage>
    decreases evs.len(),
{
    if evs.len() == 0 {
        m
    } else {
        replay(apply(m, evs[0]), evs.drop_first())
    }
}

/// How many bridged messages a run of events records.
pub open spec fn sends(evs: Seq<PendingEvent>) -> nat
    decreases evs.len(),
{
    if evs.len() == 0 {
        0
    } else {
        (if evs[0] is Sent {
            1nat
        } else {
            0nat
        }) + sends(evs.drop_first())
    }
}

/// How many acks of a run, played from table `m`, release a pending message.
pub open spec fn releases(m: Map<u32, SignalMessage>, evs: Seq<PendingEvent>) -> nat
    decreases evs.len(),
{
    if evs.len() == 0 {
        0
    } else {
        (if evs[0] matches PendingEvent::Acked(id) && m.contains_key(id) {
            1nat
        } else {
            0nat
        }) + releases(apply(m, evs[0]), evs.drop_first())
    }
}

/// The table of pending acks never holds more entries than it started with
/// plus the bridged sends recorded, less the acks that released an entry
/// (expiry only shrinks it); from an empty table, at most the sends less
/// those acks.
pub proof fn lemma_pending_bounded(m: Map<u32, SignalMessage>, evs: Seq<PendingEvent>)
    requires
        m.dom().finite(),
    ensures
        replay(m, evs).dom().finite(),
        replay(m, evs).dom().len() + releases(m, evs) <= m.dom().len() + sends(evs),
    decreases evs.len(),
{
    if evs.len() > 0 {
        let m1 = apply(m, evs[0]);
        match evs[0] {
            PendingEvent::Sent(id, msg) => {
                assert(m1.dom() =~= m.dom().insert(id));
            },
            PendingEvent::Acked(id) => {
                assert(m1.dom() =~= m.dom().remove(id));
            },
            PendingEvent::Expired(ids) => {
                assert(m1.dom() =~= m.dom().difference(ids));
                vstd::set_lib::lemma_len_subset(m1.dom(), m.dom());
            },
        }
        lemma_pending_bounded(m1, evs.drop_first());
    }
}

/// Whether an event concerns packet `id`.
pub open spec fn touches(e: PendingEvent, id: u32) -> bool {
    match e {
        PendingEvent::Sent(j, _) => j == id,
        PendingEvent::Acked(j) => j == id,
        PendingEvent::Expired(ids) => ids.contains(id),
    }
}

/// Whether no event of a run concerns packet `id`.
pub open spec fn untouched(evs: Seq<PendingEvent>, id: u32) -> bool {
    forall|i: int| 0 <= i < evs.len() ==> !touches(#[trigger] evs[i], id)
}

/// A bridged message recorded under packet `id` stays pending, as the one
/// entry of that id, through any events that concern other packets (until
/// its ack, or its expiry); the ack of `id` then releases it.
pub proof fn lemma_pending_until_acked(
    m: Map<u32, SignalMessage>,
    id: u32,
    rec: SignalMessage,
    evs: Seq<PendingEvent>,
)
    requires
        untouched(evs, id),
    ensures
        acked_message(replay(m.insert(id, rec), evs), id) == Some(rec),
        !apply(replay(m.insert(id, rec), evs), PendingEvent::Acked(id)).contains_key(id),
    decreases evs.len(),
{
    if evs.len() > 0 {
        let m1 = apply(m.insert(id, rec), evs[0]);
        assert(untouched(evs.drop_first(), id)) by {
            assert forall|i: int| 0 <= i < evs.drop_first().len() implies !touches(
                #[trigger] evs.drop_first()[i],
                id,
            ) by {
                assert(evs.drop_first()[i] == evs[i + 1]);
            }
        }
        let e0 = evs[0];
        assert(!touches(e0, id));
        let m2 = apply(m, e0);
        assert(m1 =~= m2.insert(id, rec));
        lemma_pending_until_acked(m2, id, rec, evs.drop_first());
    }
}

/// Round trip: a Signal message bridged to the mesh and recorded under the
/// id its packet was given is, on the ack of that id, released and reacted
/// to in the bridged group, targeting the message's sent timestamp and
/// author.
pub proof fn lemma_ack_reacts_to_origin(
    r: Option<Action>,
    c: Content,
    contacts: Map<u128, Contact>,
    channels: Seq<Option<ChannelSettings>>,
    config: Config,
    m0: Model,
    m1: Model,
    id: u32,
    rec: SignalMessage,
    pending: Map<u32, SignalMessage>,
    cmd: Option<Cmd>,
    now: u64,
)
    requires
        signal_reply(r, c, m0.account.uuid, contacts, channels, config),
        r matches Some(Action::SendToMesh { signal_message, .. }) && signal_message == Some(rec),
        m0.mesh_to_signal@ == pending.insert(id, rec),
        ack_outcome(cmd, m0, m1, id, config.group_key, now),
    ensures
        cmd matches Some(Cmd::ReactToThread { master_key, target_timestamp, target_author, .. })
            && master_key == config.group_key && target_timestamp == sent_timestamp(c)
            && target_author == c.sender,
        !m1.mesh_to_signal@.contains_key(id),
{
    assert(m0.mesh_to_signal@.contains_key(id));
}

/// Every text frame the bridge accepts on the bridged channel becomes one
/// post to the group whose single bold range covers exactly the sender's
/// name, which the post begins with.
pub proof fn lemma_bridged_text_posts_bold_name(
    r: Option<Action>,
    p: MeshPacket,
    nodes: Map<u32, NodeInfo>,
    key: GroupMasterKeyBytes,
)
    requires
        mesh_reply(r, p, nodes, key),
        p.channel == BRIDGED_CHANNEL,
        text_bytes(p) matches Some(b) && valid_utf8(b) && decode_utf8(b) != ping_text(),
    ensures
        r matches Some(Action::SendToGroup { message, master_key, ranges }) && master_key == key
            && ranges@.len() == 1 && ranges@[0].start == Some(0usize) && ranges@[0].length == Some(
            encode_utf8(node_name(nodes, p.from)).len() as usize,
        ) && message@.subrange(0, node_name(nodes, p.from).len() as int) == node_name(nodes, p.from),
{
    let name = node_name(nodes, p.from);
    let b = text_bytes(p)->Some_0;
    let m = r->Some_0->SendToGroup_message;
    assert(m@ == name + seq![':', '\n'] + decode_utf8(b));
    assert(m@.subrange(0, name.len() as int) =~= name);
}

/// A Signal content whose conversation is not the bridged group produces no
/// action.
pub proof fn lemma_other_threads_ignored(
    r: Option<Action>,
    c: Content,
    account: u128,
    contacts: Map<u128, Contact>,
    channels: Seq<Option<ChannelSettings>>,
    config: Config,
)
    requires
        signal_reply(r, c, account, contacts, channels, config),
        thread_of(c, account) != ThreadView::Group(config.group_key@),
    ensures
        r is None,
{
}

/// A ping is answered on the channel it came on: to its sender on the direct
/// channel, to everyone on the bridged channel.
pub proof fn lemma_ping_answered_on_its_channel(
    r: Option<Action>,
    p: MeshPacket,
    nodes: Map<u32, NodeInfo>,
    key: GroupMasterKeyBytes,
)
    requires
        mesh_reply(r, p, nodes, key),
        p.channel == DIRECT_CHANNEL || p.channel == BRIDGED_CHANNEL,
        text_bytes(p) matches Some(b) && valid_utf8(b) && decode_utf8(b) == ping_text(),
    ensures
        r matches Some(Action::SendToMesh { channel, destination, .. }) && channel == MeshChannel(
            p.channel,
        ) && (p.channel == DIRECT_CHANNEL ==> destination == PacketDestination::Node(p.from)) && (
        p.channel == BRIDGED_CHANNEL ==> destination == PacketDestination::Broadcast),
{
}

/// The outstanding packets after a run of frames.
pub open spec fn outstanding_through(out: Map<u32, MeshPacket>, frames: Seq<FromRadio>) -> Map<
    u32,
    MeshPacket,
>
    decreases frames.len(),
{
    if frames.len() == 0 {
        out
    } else {
        outstanding_through(outstanding_after(out, frames[0]), frames.drop_first())
    }
}

/// A packet the router keeps stays kept, unchanged, through any frames that
/// do not acknowledge its id; the ack of its id then releases it, so a second
/// ack of that id finds nothing.
pub proof fn lemma_router_keeps_until_acked(
    out: Map<u32, MeshPacket>,
    p: MeshPacket,
    frames: Seq<FromRadio>,
    ack: FromRadio,
)
    requires
        out.contains_key(p.id),
        out[p.id] == p,
        forall|i: int| 0 <= i < frames.len() ==> acked_id(#[trigger] frames[i]) != Some(p.id),
        acked_id(ack) == Some(p.id),
    ensures
        outstanding_through(out, frames).contains_key(p.id),
        outstanding_through(out, frames)[p.id] == p,
        !outstanding_after(outstanding_through(out, frames), ack).contains_key(p.id),
    decreases frames.len(),
{
    if frames.len() > 0 {
        let out1 = outstanding_after(out, frames[0]);
        assert forall|i: int| 0 <= i < frames.drop_first().len() implies acked_id(
            #[trigger] frames.drop_first()[i],
        ) != Some(p.id) by {
            assert(frames.drop_first()[i] == frames[i + 1]);
        }
        lemma_router_keeps_until_acked(out1, p, frames.drop_first(), ack);
    }
}

/// What the router sees: a packet the radio client sends, or a frame it reads.
pub ghost enum RouterEvent {
    Sent(MeshPacket),
    Frame(FromRadio),
}

/// The outstanding packets after one event, as the router's two handlers
/// change them.
pub open spec fn router_apply(out: Map<u32, MeshPacket>, e: RouterEvent) -> Map<u32, MeshPacket> {
    match e {
        RouterEvent::Sent(p) => if p.want_ack {
            out.insert(p.id, p)
        } else {
            out
        },
        RouterEvent::Frame(f) => outstanding_after(out, f),
    }
}

/// The outstanding packets after a run of events.
pub open spec fn router_replay(out: Map<u32, MeshPacket>, evs: Seq<RouterEvent>) -> Map<u32, MeshPacket>
    decreases evs.len(),
{
    if evs.len() == 0 {
        out
    } else {
        router_replay(router_apply(out, evs[0]), evs.drop_first())
    }
}

/// How many sends of a run ask for an ack.
pub open spec fn acked_sends(evs: Seq<RouterEvent>) -> nat
    decreases evs.len(),
{
    if evs.len() == 0 {
        0
    } else {
        (if evs[0] matches RouterEvent::Sent(p) && p.want_ack {
            1nat
        } else {
            0nat
        }) + acked_sends(evs.drop_first())
    }
}

/// How many frames of a run, played from `out`, make the router report an ack.
pub open spec fn reported_acks(out: Map<u32, MeshPacket>, evs: Seq<RouterEvent>) -> nat
    decreases evs.len(),
{
    if evs.len() == 0 {
        0
    } else {
        (if evs[0] matches RouterEvent::Frame(f) && acked_id(f) is Some && out.contains_key(
            acked_id(f)->Some_0,
        ) {
            1nat
        } else {
            0nat
        }) + reported_acks(router_apply(out, evs[0]), evs.drop_first())
    }
}

/// The router never keeps more packets than it started with plus the sends
/// that asked for an ack, less the acks it reported.
pub proof fn lemma_router_bounded(out: Map<u32, MeshPacket>, evs: Seq<RouterEvent>)
    requires
        out.dom().finite(),
    ensures
        router_replay(out, evs).dom().finite(),
        router_replay(out, evs).dom().len() + reported_acks(out, evs) <= out.dom().len()
            + acked_sends(evs),
    decreases evs.len(),
{
    if evs.len() > 0 {
        let out1 = router_apply(out, evs[0]);
        match evs[0] {
            RouterEvent::Sent(p) => {
                if p.want_ack {
                    assert(out1.dom() =~= out.dom().insert(p.id));
                }
            },
            RouterEvent::Frame(f) => {
                match acked_id(f) {
                    Some(id) => {
                        assert(out1.dom() =~= out.dom().remove(id));
                    },
                    None => {},
                }
            },
        }
        lemma_router_bounded(out1, evs.drop_first());
    }
}

} // verus!
