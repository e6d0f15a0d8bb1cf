//! The bridge's in-memory state: directories of both sides, the mesh channel
//! table and the table of bridged messages awaiting a mesh ack.
use std::collections::HashMap;
use vstd::prelude::*;

use crate::mesh::{ChannelSettings, NodeInfo, MAX_CHANNELS};
use crate::signal::{GroupMasterKeyBytes, Uuid};
use crate::text::{uuid_string, uuid_text};

verus! {

broadcast use vstd::std_specs::hash::group_hash_axioms;

/// Mesh nodes by node number.
pub type Nodes = HashMap<u32, NodeInfo>;

/// Signal contacts by account id.
pub type Contacts = HashMap<Uuid, Contact>;

#[derive(Clone, Copy, Debug, PartialEq, Eq, Structural, Default)]
pub enum RunningState {
    #[default]
    Running,
    OhShit,
}

#[derive(Clone, Copy, Debug, PartialEq, Eq, Structural)]
pub enum ReceiptType {
    Delivered,
    Read,
}

#[derive(Clone, Copy, Debug)]
pub struct Account {
    pub uuid: Uuid,
}

/// A Signal contact as the bridge knows it.
#[derive(Clone, Debug, Default)]
pub struct Contact {
    pub uuid: Uuid,
    pub name: Option<String>,
    pub profile_key: Option<Vec<u8>>,
}

/// A Signal group this account belongs to.
#[derive(Clone, Debug)]
pub struct Group {
    pub master_key: GroupMasterKeyBytes,
    pub title: String,
}

/// The Signal message that an outbound mesh packet carries: enough to react
/// to it once the mesh acknowledges the packet.
#[derive(Clone, Debug)]
pub struct SignalMessage {
    pub body: String,
    pub sender: Uuid,
    pub timestamp: u64,
}

#[derive(Clone, Copy, Debug)]
pub struct Reaction {
    pub emoji: char,
    pub author: Uuid,
}

/// What the bridge is configured with.
#[derive(Clone, Copy, Debug)]
pub struct Config {
    /// The master key of the bridged Signal group.
    pub group_key: GroupMasterKeyBytes,
    /// The slot of the mesh channel table that `/channel` describes.
    pub channel_index: usize,
}

#[derive(Debug)]
pub struct Model {
    pub running_state: RunningState,
    pub contacts: Contacts,
    /// The account's groups, no two with the same master key.
    pub groups: Vec<Group>,
    /// The mesh channel table: slot `i` holds the settings the radio
    /// reported for channel `i`, if it has.
    pub channels: Vec<Option<ChannelSettings>>,
    /// Bridged Signal messages by the id of the mesh packet that carries them,
    /// until the mesh acknowledges it.
    pub mesh_to_signal: HashMap<u32, SignalMessage>,
    /// When each bridged message was recorded, in the order of recording.
    pub pending_since: Vec<PendingStamp>,
    pub account: Account,
}

/// The time a bridged message was recorded under its packet id.
#[derive(Clone, Copy, Debug, PartialEq, Eq, Structural)]
pub struct PendingStamp {
    pub id: u32,
    /// Milliseconds of wall-clock time.
    pub sent_at: u64,
}

/// The name a mesh node goes by: its long name, or else its number in hex.
pub open spec fn node_name(nodes: Map<u32, NodeInfo>, num: u32) -> Seq<char> {
    if nodes.contains_key(num) && nodes[num].user is Some {
        nodes[num].user->Some_0.long_name@
    } else {
        crate::text::hex_lower(num as nat)
    }
}

/// The name a Signal account goes by: its contact name, or else its id.
pub open spec fn contact_name(contacts: Map<Uuid, Contact>, u: Uuid) -> Seq<char> {
    if contacts.contains_key(u) && contacts[u].name is Some {
        contacts[u].name->Some_0@
    } else {
        uuid_text(u)
    }
}

/// The channel table after a radio reports the settings of channel `index`:
/// the slot of that index holds them, whatever it held before; an index
/// outside the table is dropped.
pub open spec fn channels_after(
    t: Seq<Option<ChannelSettings>>,
    index: int,
    s: ChannelSettings,
) -> Seq<Option<ChannelSettings>> {
    if 0 <= index < t.len() {
        t.update(index, Some(s))
    } else {
        t
    }
}

/// A channel table with a slot for each channel index, none reported yet.
pub open spec fn no_channels() -> Seq<Option<ChannelSettings>> {
    Seq::new(MAX_CHANNELS as nat, |i: int| None)
}

/// A channel table with a slot for each channel index, none reported yet.
pub fn empty_channels() -> (r: Vec<Option<ChannelSettings>>)
    ensures
        r@ == no_channels(),
{
    let mut r: Vec<Option<ChannelSettings>> = Vec::new();
    let mut i: usize = 0;
    while i < MAX_CHANNELS
        invariant
            i <= MAX_CHANNELS,
            r@.len() == i,
            forall|j: int| 0 <= j < i ==> (#[trigger] r@[j]) is None,
        decreases MAX_CHANNELS - i,
    {
        r.push(None);
        i = i + 1;
    }
    assert(r@ =~= no_channels());
    r
}

impl Model {
    /// The channel table has a slot for each channel index.
    pub open spec fn wf(&self) -> bool {
        self.channels@.len() == MAX_CHANNELS
    }

    pub fn new(uuid: Uuid) -> (r: Model)
        ensures
            r.wf(),
            r.account.uuid == uuid,
            r.running_state == RunningState::Running,
            r.contacts@ == Map::<Uuid, Contact>::empty(),
            r.groups@.len() == 0,
            unique_keys(r.groups@),
            r.channels@ == no_channels(),
            r.mesh_to_signal@ == Map::<u32, SignalMessage>::empty(),
            r.pending_since@.len() == 0,
    {
        Model {
            running_state: RunningState::Running,
            contacts: HashMap::new(),
            groups: Vec::new(),
            channels: empty_channels(),
            mesh_to_signal: HashMap::new(),
            pending_since: Vec::new(),
            account: Account { uuid },
        }
    }

    /// A model whose directories are already known.
    pub fn new_for_test(uuid: Uuid, contacts: Contacts, groups: Vec<Group>) -> (r: Model)
        ensures
            r.wf(),
            r.account.uuid == uuid,
            r.running_state == RunningState::Running,
            r.contacts@ == contacts@,
            r.groups@ == groups@,
            r.channels@ == no_channels(),
            r.mesh_to_signal@ == Map::<u32, SignalMessage>::empty(),
            r.pending_since@.len() == 0,
    {
        Model {
            running_state: RunningState::Running,
            contacts,
            groups,
            channels: empty_channels(),
            mesh_to_signal: HashMap::new(),
            pending_since: Vec::new(),
            account: Account { uuid },
        }
    }

    /// Records the settings a radio reports for channel `index`.
    pub fn set_channel(&mut self, index: i32, settings: ChannelSettings)
        requires
            old(self).wf(),
        ensures
            final(self).wf(),
            final(self).channels@ == channels_after(old(self).channels@, index as int, settings),
            final(self).contacts@ == old(self).contacts@,
            final(self).mesh_to_signal@ == old(self).mesh_to_signal@,
            final(self).pending_since@ == old(self).pending_since@,
            final(self).account == old(self).account,
            final(self).groups@ == old(self).groups@,
            final(self).running_state == old(self).running_state,
    {
        if index < 0 {
            return ;
        }
        let i = index as usize;
        if i < self.channels.len() {
            self.channels.set(i, Some(settings));
        }
    }

    /// Adds or replaces the groups the Signal account lists, by master key.
    pub fn update_groups(&mut self, listed: Vec<Group>)
        requires
            unique_keys(old(self).groups@),
        ensures
            final(self).groups@ == groups_after(old(self).groups@, listed@),
            unique_keys(final(self).groups@),
            final(self).contacts@ == old(self).contacts@,
            final(self).channels@ == old(self).channels@,
            final(self).mesh_to_signal@ == old(self).mesh_to_signal@,
            final(self).pending_since@ == old(self).pending_since@,
            final(self).account == old(self).account,
            final(self).running_state == old(self).running_state,
    {
        let mut listed = listed;
        let ghost goal = groups_after(self.groups@, listed@);
        while listed.len() > 0
            invariant
                unique_keys(self.groups@),
                groups_after(self.groups@, listed@) == goal,
                self.contacts@ == old(self).contacts@,
                self.channels@ == old(self).channels@,
                self.mesh_to_signal@ == old(self).mesh_to_signal@,
                self.pending_since@ == old(self).pending_since@,
                self.account == old(self).account,
                self.running_state == old(self).running_state,
            decreases listed@.len(),
        {
            let ghost before = self.groups@;
            let ghost rest = listed@;
            let group = listed.remove(0);
            assert(listed@ =~= rest.drop_first());
            let ghost g = group;
            match find_group(&self.groups, &group.master_key) {
                Some(j) => {
                    proof {
                        let c = choose|c: int|
                            0 <= c < before.len() && (#[trigger] before[c]).master_key
                                == g.master_key;
                        assert(c == j);
                    }
                    self.groups.set(j, group);
                    assert(self.groups@ == put_group(before, g));
                },
                None => {
                    self.groups.push(group);
                    assert(self.groups@ == put_group(before, g));
                },
            }
        }
    }
}

/// Whether no two groups share a master key.
pub open spec fn unique_keys(groups: Seq<Group>) -> bool {
    forall|i: int, j: int|
        0 <= i < j < groups.len() ==> (#[trigger] groups[i]).master_key != (#[trigger] groups[j]).master_key
}

/// The groups after listing `g`: it replaces the group with its key, or is
/// added at the end.
pub open spec fn put_group(groups: Seq<Group>, g: Group) -> Seq<Group> {
    if has_group(groups, g.master_key) {
        let j = choose|j: int| 0 <= j < groups.len() && (#[trigger] groups[j]).master_key == g.master_key;
        groups.update(j, g)
    } else {
        groups.push(g)
    }
}

/// The groups after listing each of `listed` in turn.
pub open spec fn groups_after(groups: Seq<Group>, listed: Seq<Group>) -> Seq<Group>
    decreases listed.len(),
{
    if listed.len() == 0 {
        groups
    } else {
        groups_after(put_group(groups, listed[0]), listed.drop_first())
    }
}

/// Whether a group with master key `k` is among `groups`.
pub open spec fn has_group(groups: Seq<Group>, k: GroupMasterKeyBytes) -> bool {
    exists|j: int| 0 <= j < groups.len() && (#[trigger] groups[j]).master_key == k
}

/// Where the group with master key `k` stands in `groups`.
pub fn find_group(groups: &Vec<Group>, k: &GroupMasterKeyBytes) -> (r: Option<usize>)
    ensures
        match r {
            Some(j) => j < groups@.len() && groups@[j as int].master_key == *k,
            None => !has_group(groups@, *k),
        },
{
    let mut j: usize = 0;
    while j < groups.len()
        invariant
            j <= groups@.len(),
            forall|a: int| 0 <= a < j ==> (#[trigger] groups@[a]).master_key != *k,
        decreases groups@.len() - j,
    {
        if crate::signal::same_key(&groups[j].master_key, k) {
            return Some(j);
        }
        j = j + 1;
    }
    None
}

/// The name a mesh node goes by.
pub fn node_display_name(nodes: &Nodes, num: u32) -> (r: String)
    ensures
        r@ == node_name(nodes@, num),
{
    match nodes.get(&num) {
        Some(info) => match &info.user {
            Some(user) => user.long_name.clone(),
            None => crate::text::hex_u32(num),
        },
        None => crate::text::hex_u32(num),
    }
}

/// The name a Signal account goes by.
pub fn contact_display_name(contacts: &Contacts, u: Uuid) -> (r: String)
    ensures
        r@ == contact_name(contacts@, u),
{
    match contacts.get(&u) {
        Some(c) => match &c.name {
            Some(n) => n.clone(),
            None => uuid_string(u),
        },
        None => uuid_string(u),
    }
}

} // verus!
