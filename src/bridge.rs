//! The bridge loop's decisions: each action becomes the next step for the
//! loop to perform, and acks of bridged messages become reactions.
use vstd::prelude::*;

use crate::mesh::{MeshChannel, NodeInfo, PacketDestination};
use crate::meshy::{handle_from_radio_packet, radio_outcome, same_state};
use crate::model::{Config, Model, Nodes, PendingStamp, RunningState, SignalMessage};
use crate::signal::{GroupMasterKeyBytes, Received, Uuid};
use crate::update::{handle_message, signal_reply, Action, BodyRange};

verus! {

broadcast use vstd::std_specs::hash::group_hash_axioms;

/// A request to the Signal client.
#[derive(Debug)]
pub enum Cmd {
    SendToGroup {
        message: String,
        master_key: GroupMasterKeyBytes,
        ranges: Vec<BodyRange>,
        timestamp: u64,
    },
    ReactToThread {
        master_key: GroupMasterKeyBytes,
        emoji: String,
        timestamp: u64,
        target_timestamp: u64,
        target_author: Uuid,
    },
}

/// What the bridge loop does next.
#[derive(Debug)]
pub enum Step {
    /// Handle this action before waiting for more input.
    Next(Action),
    /// Send a text packet on the mesh. When a Signal message rides along,
    /// read back the id the packet was given and hand both to `record_sent`.
    SendMesh {
        body: String,
        channel: MeshChannel,
        destination: PacketDestination,
        want_ack: bool,
        correlation: Option<SignalMessage>,
    },
    /// Hand this request to the Signal client.
    Signal(Cmd),
    /// Fetch the contact list and profiles and hand them to `update_contacts`.
    RefreshContacts,
    /// Nothing to do; wait for the next input.
    Idle,
    /// Leave the loop.
    Stop,
}

/// The reaction posted once the mesh delivers a bridged message.
pub open spec fn check_mark() -> Seq<char> {
    seq!['\u{2714}', '\u{fe0f}']
}

/// `r` reacts with a check mark, in group `key` at time `now`, to message `m`.
pub open spec fn is_delivery_reaction(
    r: Option<Cmd>,
    m: SignalMessage,
    key: GroupMasterKeyBytes,
    now: u64,
) -> bool {
    &&& r matches Some(Cmd::ReactToThread { master_key, emoji, timestamp, target_timestamp, target_author })
    &&& master_key == key
    &&& emoji@ == check_mark()
    &&& timestamp == now
    &&& target_timestamp == m.timestamp
    &&& target_author == m.sender
}

/// The model apart from its table of pending acks is the same.
pub open spec fn same_but_pending(a: Model, b: Model) -> bool {
    &&& a.running_state == b.running_state
    &&& a.contacts@ == b.contacts@
    &&& a.groups@ == b.groups@
    &&& a.channels@ == b.channels@
    &&& a.account == b.account
}

/// The Signal message that an ack of packet `id` answers, if it is pending.
pub open spec fn acked_message(pending: Map<u32, SignalMessage>, id: u32) -> Option<SignalMessage> {
    if pending.contains_key(id) {
        Some(pending[id])
    } else {
        None
    }
}

/// What an ack of packet `id` does: a pending message is released and
/// reacted to; an unknown id changes nothing.
pub open spec fn ack_outcome(
    r: Option<Cmd>,
    m0: Model,
    m1: Model,
    id: u32,
    key: GroupMasterKeyBytes,
    now: u64,
) -> bool {
    &&& same_but_pending(m1, m0)
    &&& m1.pending_since@ == m0.pending_since@
    &&& match acked_message(m0.mesh_to_signal@, id) {
        Some(m) => is_delivery_reaction(r, m, key, now) && m1.mesh_to_signal@
            == m0.mesh_to_signal@.remove(id),
        None => r is None && m1.mesh_to_signal@ == m0.mesh_to_signal@,
    }
}

/// How long a bridged message waits for its mesh ack: ten minutes.
pub const PENDING_TTL_MS: u64 = 600_000;

/// Whether a recording has waited for its ack for `ttl` or longer at `now`.
pub open spec fn is_expired(s: PendingStamp, now: u64, ttl: u64) -> bool {
    now >= s.sent_at && now - s.sent_at >= ttl
}

/// The packet ids whose recording has expired at `now`.
pub open spec fn expired_ids(log: Seq<PendingStamp>, now: u64, ttl: u64) -> Set<u32> {
    Set::new(
        |id: u32|
            exists|i: int| 0 <= i < log.len() && (#[trigger] log[i]).id == id && is_expired(log[i], now, ttl),
    )
}

/// The recordings that have not expired at `now`, in order.
pub open spec fn unexpired(log: Seq<PendingStamp>, now: u64, ttl: u64) -> Seq<PendingStamp>
    decreases log.len(),
{
    if log.len() == 0 {
        Seq::empty()
    } else {
        let rest = unexpired(log.drop_last(), now, ttl);
        if is_expired(log.last(), now, ttl) {
            rest
        } else {
            rest.push(log.last())
        }
    }
}

/// Drops the bridged messages that have waited `ttl` or longer at `now`.
pub fn purge_expired(model: &mut Model, now: u64, ttl: u64)
    ensures
        final(model).mesh_to_signal@ == old(model).mesh_to_signal@.remove_keys(
            expired_ids(old(model).pending_since@, now, ttl),
        ),
        final(model).pending_since@ == unexpired(old(model).pending_since@, now, ttl),
        same_but_pending(*final(model), *old(model)),
{
    let ghost m0 = model.mesh_to_signal@;
    let ghost log = model.pending_since@;
    let mut kept: Vec<PendingStamp> = Vec::new();
    let mut i: usize = 0;
    while i < model.pending_since.len()
        invariant
            model.pending_since@ == log,
            i <= log.len(),
            kept@ == unexpired(log.subrange(0, i as int), now, ttl),
            model.mesh_to_signal@ == m0.remove_keys(expired_ids(log.subrange(0, i as int), now, ttl)),
            same_but_pending(*model, *old(model)),
        decreases log.len() - i,
    {
        let stamp = model.pending_since[i];
        let ghost before = log.subrange(0, i as int);
        let ghost after = log.subrange(0, i + 1);
        assert(after.drop_last() =~= before);
        assert(after.last() == stamp);
        if now >= stamp.sent_at && now - stamp.sent_at >= ttl {
            model.mesh_to_signal.remove(&stamp.id);
            assert(expired_ids(after, now, ttl) =~= expired_ids(before, now, ttl).insert(stamp.id)) by {
                assert(after[i as int] == stamp);
                assert forall|id: u32| expired_ids(before, now, ttl).contains(id) implies expired_ids(after, now, ttl).contains(id) by {
                    let w = choose|w: int| 0 <= w < before.len() && (#[trigger] before[w]).id == id && is_expired(before[w], now, ttl);
                    assert(after[w] == before[w]);
                }
                assert forall|id: u32| expired_ids(after, now, ttl).contains(id) && id != stamp.id implies expired_ids(before, now, ttl).contains(id) by {
                    let w = choose|w: int| 0 <= w < after.len() && (#[trigger] after[w]).id == id && is_expired(after[w], now, ttl);
                    assert(w < i);
                    assert(before[w] == after[w]);
                }
            }
            assert(model.mesh_to_signal@ =~= m0.remove_keys(expired_ids(after, now, ttl)));
        } else {
            kept.push(stamp);
            assert(expired_ids(after, now, ttl) =~= expired_ids(before, now, ttl)) by {
                assert forall|id: u32| expired_ids(before, now, ttl).contains(id) implies expired_ids(after, now, ttl).contains(id) by {
                    let w = choose|w: int| 0 <= w < before.len() && (#[trigger] before[w]).id == id && is_expired(before[w], now, ttl);
                    assert(after[w] == before[w]);
                }
                assert forall|id: u32| expired_ids(after, now, ttl).contains(id) implies expired_ids(before, now, ttl).contains(id) by {
                    let w = choose|w: int| 0 <= w < after.len() && (#[trigger] after[w]).id == id && is_expired(after[w], now, ttl);
                    if w == i {
                        assert(after[w] == stamp);
                    }
                    assert(before[w] == after[w]);
                }
            }
        }
        i = i + 1;
    }
    assert(log.subrange(0, log.len() as int) =~= log);
    model.pending_since = kept;
}

/// The recordings of a log apart from those of packet `id`, in order.
pub open spec fn without_id(log: Seq<PendingStamp>, id: u32) -> Seq<PendingStamp>
    decreases log.len(),
{
    if log.len() == 0 {
        Seq::empty()
    } else {
        let rest = without_id(log.drop_last(), id);
        if log.last().id == id {
            rest
        } else {
            rest.push(log.last())
        }
    }
}

fn drop_stamps(log: &mut Vec<PendingStamp>, id: u32)
    ensures
        final(log)@ == without_id(old(log)@, id),
{
    let ghost l = log@;
    let mut kept: Vec<PendingStamp> = Vec::new();
    let mut i: usize = 0;
    while i < log.len()
        invariant
            log@ == l,
            i <= l.len(),
            kept@ == without_id(l.subrange(0, i as int), id),
        decreases l.len() - i,
    {
        let stamp = log[i];
        proof {
            assert(l.subrange(0, i + 1).drop_last() =~= l.subrange(0, i as int));
        }
        if stamp.id != id {
            kept.push(stamp);
        }
        i = i + 1;
    }
    assert(l.subrange(0, l.len() as int) =~= l);
    *log = kept;
}

/// Records that the mesh packet `packet_id` carries the bridged message
/// `message`, sent at `now`, until its ack comes; messages that have waited
/// for their ack for the whole of `PENDING_TTL_MS` are dropped first, and an
/// earlier recording under the same id gives way to this one.
pub fn record_sent(model: &mut Model, packet_id: u32, message: SignalMessage, now: u64)
    ensures
        final(model).mesh_to_signal@ == old(model).mesh_to_signal@.remove_keys(
            expired_ids(old(model).pending_since@, now, PENDING_TTL_MS),
        ).insert(packet_id, message),
        final(model).pending_since@ == without_id(
            unexpired(old(model).pending_since@, now, PENDING_TTL_MS),
            packet_id,
        ).push(PendingStamp { id: packet_id, sent_at: now }),
        same_but_pending(*final(model), *old(model)),
{
    purge_expired(model, now, PENDING_TTL_MS);
    model.mesh_to_signal.insert(packet_id, message);
    drop_stamps(&mut model.pending_since, packet_id);
    model.pending_since.push(PendingStamp { id: packet_id, sent_at: now });
}

/// Handles the mesh's ack of packet `packet_id` at time `now`.
pub fn on_mesh_ack(model: &mut Model, config: &Config, packet_id: u32, now: u64) -> (r: Option<Cmd>)
    ensures
        ack_outcome(r, *old(model), *final(model), packet_id, config.group_key, now),
{
    let ghost m0 = *model;
    match model.mesh_to_signal.remove(&packet_id) {
        Some(m) => {
            let emoji = "\u{2714}\u{fe0f}".to_owned();
            proof {
                reveal_strlit("\u{2714}\u{fe0f}");
                assert(emoji@ =~= check_mark());
            }
            Some(
                Cmd::ReactToThread {
                    master_key: config.group_key,
                    emoji,
                    timestamp: now,
                    target_timestamp: m.timestamp,
                    target_author: m.sender,
                },
            )
        },
        None => {
            assert(model.mesh_to_signal@ =~= m0.mesh_to_signal@);
            None
        },
    }
}

/// The action a step hands back to the loop, if any.
pub open spec fn followup(s: Step) -> Option<Action> {
    match s {
        Step::Next(a) => Some(a),
        _ => None,
    }
}

/// Whether nothing changed.
pub open spec fn unchanged(m0: Model, m1: Model, n0: Map<u32, NodeInfo>, n1: Map<u32, NodeInfo>) -> bool {
    same_state(m1, m0) && n1 == n0
}

/// Decides what the bridge loop does with `action`, at wall-clock time
/// `now` (milliseconds).
pub fn update(model: &mut Model, config: &Config, nodes: &mut Nodes, action: Action, now: u64) -> (r: Step)
    requires
        old(model).wf(),
    ensures
        final(model).wf(),
        match action {
            Action::FromRadio(f) => {
                &&& (r is Next || r is Idle)
                &&& radio_outcome(
                    followup(r),
                    f,
                    *old(model),
                    *final(model),
                    old(nodes)@,
                    final(nodes)@,
                    config.group_key,
                )
            },
            Action::Receive(Received::Content(c)) => {
                &&& (r is Next || r is Idle)
                &&& signal_reply(
                    followup(r),
                    c,
                    old(model).account.uuid,
                    old(model).contacts@,
                    old(model).channels@,
                    *config,
                )
                &&& unchanged(*old(model), *final(model), old(nodes)@, final(nodes)@)
            },
            Action::Receive(Received::Contacts) => {
                &&& r is RefreshContacts
                &&& unchanged(*old(model), *final(model), old(nodes)@, final(nodes)@)
            },
            Action::SendToMesh { body, channel, destination, signal_message } => {
                &&& r matches Step::SendMesh { body: b, channel: c, destination: d, want_ack, correlation }
                &&& b == body
                &&& c == channel
                &&& d == destination
                &&& want_ack
                &&& correlation == signal_message
                &&& unchanged(*old(model), *final(model), old(nodes)@, final(nodes)@)
            },
            Action::SendToGroup { message, master_key, ranges } => {
                &&& r matches Step::Signal(Cmd::SendToGroup { message: m, master_key: k, ranges: rs, timestamp })
                &&& m == message
                &&& k == master_key
                &&& rs == ranges
                &&& timestamp == now
                &&& unchanged(*old(model), *final(model), old(nodes)@, final(nodes)@)
            },
            Action::MeshAck { packet, deliverd } => {
                &&& final(nodes)@ == old(nodes)@
                &&& if deliverd {
                    ack_outcome(
                        match r {
                            Step::Signal(cmd) => Some(cmd),
                            _ => None,
                        },
                        *old(model),
                        *final(model),
                        packet.id,
                        config.group_key,
                        now,
                    ) && (r is Signal || r is Idle)
                } else {
                    r is Idle && same_state(*final(model), *old(model))
                }
            },
            Action::Quit => {
                &&& r is Stop
                &&& final(model).running_state == RunningState::OhShit
                &&& final(model).groups@ == old(model).groups@
                &&& final(model).mesh_to_signal@ == old(model).mesh_to_signal@
                &&& final(model).pending_since@ == old(model).pending_since@
                &&& final(model).contacts@ == old(model).contacts@
                &&& final(model).channels@ == old(model).channels@
                &&& final(model).account == old(model).account
                &&& final(nodes)@ == old(nodes)@
            },
            _ => {
                &&& r is Idle
                &&& unchanged(*old(model), *final(model), old(nodes)@, final(nodes)@)
            },
        },
{
    match action {
        Action::FromRadio(f) => match handle_from_radio_packet(model, config, nodes, f) {
            Some(a) => Step::Next(a),
            None => Step::Idle,
        },
        Action::Receive(Received::Content(c)) => match handle_message(model, config, c) {
            Some(a) => Step::Next(a),
            None => Step::Idle,
        },
        Action::Receive(Received::Contacts) => Step::RefreshContacts,
        Action::SendToMesh { body, channel, destination, signal_message } => Step::SendMesh {
            body,
            channel,
            destination,
            want_ack: true,
            correlation: signal_message,
        },
        Action::SendToGroup { message, master_key, ranges } => Step::Signal(
            Cmd::SendToGroup { message, master_key, ranges, timestamp: now },
        ),
        Action::MeshAck { packet, deliverd } => {
            if deliverd {
                match on_mesh_ack(model, config, packet.id, now) {
                    Some(cmd) => Step::Signal(cmd),
                    None => Step::Idle,
                }
            } else {
                Step::Idle
            }
        },
        Action::Quit => {
            model.running_state = RunningState::OhShit;
            Step::Stop
        },
        _ => Step::Idle,
    }
}

} // verus!
