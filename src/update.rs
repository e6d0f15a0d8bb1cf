//! The actions that flow through the bridge, and the way from Signal to the
//! mesh.
use vstd::prelude::*;

use crate::config::hex_encode;
use crate::mesh::{ChannelSettings, FromRadio, MeshChannel, MeshPacket, PacketDestination, BRIDGED_CHANNEL};
use crate::model::{contact_display_name, contact_name, Config, Model, SignalMessage};
use crate::signal::{
    body_of, derive_thread, is_key, message_of, message_timestamp, sent_timestamp, thread_of,
    Content, GroupMasterKeyBytes, Received, Thread, ThreadView,
};
use crate::text::{attribute, attributed, has_prefix, hex_of, starts_with};

verus! {

/// What the linking of a new device reports.
#[derive(Clone, Debug, PartialEq, Eq)]
pub enum LinkingAction {
    /// The URL to show the user, as text.
    Url(String),
    Success,
    Fail,
}

#[derive(Clone, Copy, Debug, PartialEq, Eq, Structural)]
pub enum MessageOption {
    Reply,
    React,
    Edit,
    Copy,
    Info,
    Delete,
}

/// The style of a body range of a Signal message.
#[derive(Clone, Copy, Debug, PartialEq, Eq, Structural)]
pub enum Style {
    Bold,
    Italic,
    Spoiler,
    Strikethrough,
    Monospace,
}

/// A styled range of a Signal message body, in bytes.
#[derive(Clone, Copy, Debug)]
pub struct BodyRange {
    pub start: Option<usize>,
    pub length: Option<usize>,
    pub style: Option<Style>,
}

/// The one message currency between the parts of the bridge.
#[derive(Debug)]
pub enum Action {
    /// Send a text packet on the mesh; a bridged Signal message rides along.
    SendToMesh {
        body: String,
        channel: MeshChannel,
        destination: PacketDestination,
        signal_message: Option<SignalMessage>,
    },
    FromRadio(FromRadio),
    SendToGroup { message: String, master_key: GroupMasterKeyBytes, ranges: Vec<BodyRange> },
    /// The mesh acknowledged an outbound packet.
    MeshAck { packet: MeshPacket, deliverd: bool },
    PickOption,
    DoOption(MessageOption),
    Receive(Received),
    ReceiveBatch(Vec<Content>),
    Link(LinkingAction),
    Quit,
}

/// The byte length of the bold header of a command reply: `Bridge commands:`
/// and `Channel Details:` alike.
pub const HEADER_LEN: usize = 16;

/// A bold range over the first `len` bytes.
pub open spec fn bold_prefix(len: nat) -> BodyRange {
    BodyRange { start: Some(0usize), length: Some(len as usize), style: Some(Style::Bold) }
}

/// `r` posts `message` to the group `key`, with its first `bold_len` bytes bold.
pub open spec fn is_group_post(
    r: Option<Action>,
    message: Seq<char>,
    key: GroupMasterKeyBytes,
    bold_len: nat,
) -> bool {
    &&& r matches Some(Action::SendToGroup { message: m, master_key, ranges })
    &&& m@ == message
    &&& master_key == key
    &&& ranges@ == seq![bold_prefix(bold_len)]
}

/// `r` broadcasts `text` from `name` on the bridged channel, carrying the
/// Signal message it came from.
pub open spec fn is_bridged_broadcast(
    r: Option<Action>,
    name: Seq<char>,
    text: Seq<char>,
    sender: u128,
    timestamp: u64,
) -> bool {
    &&& r matches Some(Action::SendToMesh { body, channel, destination, signal_message })
    &&& body@ == attributed(name, text)
    &&& channel == MeshChannel(BRIDGED_CHANNEL)
    &&& destination == PacketDestination::Broadcast
    &&& signal_message matches Some(m)
    &&& m.body@ == text
    &&& m.sender == sender
    &&& m.timestamp == timestamp
}

/// The reply to `/help`.
pub open spec fn help_text() -> Seq<char> {
    "Bridge commands:\n/help - list the commands\n/channel - show the bridged mesh channel"@
}

/// The settings in the channel table's slot `i`, if the radio reported them.
pub open spec fn channel_slot(t: Seq<Option<ChannelSettings>>, i: usize) -> Option<ChannelSettings> {
    if i < t.len() {
        t[i as int]
    } else {
        None
    }
}

/// The reply to `/channel`.
pub open spec fn channel_text(slot: Option<ChannelSettings>) -> Seq<char> {
    match slot {
        Some(s) => "Channel Details:"@ + "\nname: "@ + s.name@ + "\npsk: "@ + hex_of(s.psk@),
        None => "Channel Details:"@ + "\nno settings received yet"@,
    }
}

/// What the bridge answers to a Signal content, seen from `account`.
pub open spec fn signal_reply(
    r: Option<Action>,
    c: Content,
    account: u128,
    contacts: Map<u128, crate::model::Contact>,
    channels: Seq<Option<ChannelSettings>>,
    config: Config,
) -> bool {
    if thread_of(c, account) != ThreadView::Group(config.group_key@) || body_of(c) is None {
        r is None
    } else {
        let text = body_of(c)->Some_0;
        if starts_with(text, "/help"@) {
            is_group_post(r, help_text(), config.group_key, HEADER_LEN as nat)
        } else if starts_with(text, "/channel"@) {
            is_group_post(
                r,
                channel_text(channel_slot(channels, config.channel_index)),
                config.group_key,
                HEADER_LEN as nat,
            )
        } else {
            is_bridged_broadcast(r, contact_name(contacts, c.sender), text, c.sender, sent_timestamp(c))
        }
    }
}

/// One bold range over the first `len` bytes.
pub fn bold_ranges(len: usize) -> (r: Vec<BodyRange>)
    ensures
        r@ == seq![bold_prefix(len as nat)],
{
    let range = BodyRange { start: Some(0), length: Some(len), style: Some(Style::Bold) };
    let r = vec![range];
    assert(r@ =~= seq![bold_prefix(len as nat)]);
    r
}

fn channel_details(channels: &Vec<Option<ChannelSettings>>, index: usize) -> (r: String)
    ensures
        r@ == channel_text(channel_slot(channels@, index)),
{
    let mut s = "Channel Details:".to_owned();
    let slot = if index < channels.len() {
        &channels[index]
    } else {
        &None
    };
    match slot {
        Some(settings) => {
            s.append("\nname: ");
            s.append(settings.name.as_str());
            s.append("\npsk: ");
            s.append(hex_encode(&settings.psk).as_str());
        },
        None => {
            s.append("\nno settings received yet");
        },
    }
    s
}

/// Handles a Signal content: commands in the bridged group are answered
/// there, other messages of the bridged group are broadcast on the mesh;
/// everything else is ignored.
pub fn handle_message(model: &Model, config: &Config, content: Content) -> (r: Option<Action>)
    ensures
        signal_reply(
            r,
            content,
            model.account.uuid,
            model.contacts@,
            model.channels@,
            *config,
        ),
{
    match derive_thread(&content, model.account.uuid) {
        Thread::Group(k) => {
            if !is_key(&k, &config.group_key) {
                return None;
            }
        },
        Thread::Contact(_) => {
            return None;
        },
    }
    let text = match message_of(&content) {
        Some(m) => match &m.body {
            Some(b) => b,
            None => {
                return None;
            },
        },
        None => {
            return None;
        },
    };
    if has_prefix(text.as_str(), "/help") {
        let message = "Bridge commands:\n/help - list the commands\n/channel - show the bridged mesh channel".to_owned();
        let ranges = bold_ranges(HEADER_LEN);
        return Some(Action::SendToGroup { message, master_key: config.group_key, ranges });
    }
    if has_prefix(text.as_str(), "/channel") {
        let message = channel_details(&model.channels, config.channel_index);
        let ranges = bold_ranges(HEADER_LEN);
        return Some(Action::SendToGroup { message, master_key: config.group_key, ranges });
    }
    let name = contact_display_name(&model.contacts, content.sender);
    let body = attribute(name.as_str(), text.as_str());
    let record = SignalMessage {
        body: text.clone(),
        sender: content.sender,
        timestamp: message_timestamp(&content),
    };
    Some(
        Action::SendToMesh {
            body,
            channel: MeshChannel(BRIDGED_CHANNEL),
            destination: PacketDestination::Broadcast,
            signal_message: Some(record),
        },
    )
}

} // verus!
