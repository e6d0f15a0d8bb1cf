//! The parts of Signal envelopes that the bridge reads, as plain values.
use vstd::prelude::*;

verus! {

/// A 128-bit Signal account id.
pub type Uuid = u128;

/// The bytes of a group master key.
pub type GroupMasterKeyBytes = [u8; 32];

/// A reaction carried by a data message.
#[derive(Clone, Debug, Default)]
pub struct ReactionMessage {
    pub emoji: Option<String>,
    pub target_sent_timestamp: Option<u64>,
}

#[derive(Clone, Debug, Default)]
pub struct DataMessage {
    pub body: Option<String>,
    /// The master key of the group the message was sent in, if any.
    pub group_master_key: Option<Vec<u8>>,
    pub timestamp: Option<u64>,
    /// The sent timestamp of a quoted message.
    pub quote: Option<u64>,
    pub reaction: Option<ReactionMessage>,
}

/// A copy of a message that this account sent from another device.
#[derive(Clone, Debug, Default)]
pub struct Sent {
    pub destination: Option<Uuid>,
    pub timestamp: Option<u64>,
    pub message: Option<DataMessage>,
}

#[derive(Clone, Debug, Default)]
pub struct SyncMessage {
    pub sent: Option<Sent>,
}

#[derive(Clone, Debug, Default)]
pub struct ReceiptMessage {
    pub timestamps: Vec<u64>,
}

#[derive(Clone, Debug)]
pub enum ContentBody {
    DataMessage(DataMessage),
    SynchronizeMessage(SyncMessage),
    ReceiptMessage(ReceiptMessage),
    Other,
}

/// A decrypted envelope.
#[derive(Clone, Debug)]
pub struct Content {
    pub sender: Uuid,
    pub destination: Uuid,
    /// The envelope's own timestamp.
    pub timestamp: u64,
    pub body: ContentBody,
}

/// A conversation: a contact or a group.
#[derive(Clone, Debug)]
pub enum Thread {
    Contact(Uuid),
    Group(Vec<u8>),
}

/// A conversation, with the group key as a sequence of bytes.
pub ghost enum ThreadView {
    Contact(Uuid),
    Group(Seq<u8>),
}

impl View for Thread {
    type V = ThreadView;

    open spec fn view(&self) -> ThreadView {
        match self {
            Thread::Contact(u) => ThreadView::Contact(*u),
            Thread::Group(k) => ThreadView::Group(k@),
        }
    }
}

/// What the Signal stream delivers.
#[derive(Clone, Debug)]
pub enum Received {
    Content(Content),
    Contacts,
    QueueEmpty,
}

/// The data message that a content carries, directly or as a sync copy.
pub open spec fn carried_message(c: Content) -> Option<DataMessage> {
    match c.body {
        ContentBody::DataMessage(m) => Some(m),
        ContentBody::SynchronizeMessage(s) => match s.sent {
            Some(sent) => sent.message,
            None => None,
        },
        _ => None,
    }
}

/// The group master key of the conversation a content belongs to.
pub open spec fn group_of(c: Content) -> Option<Seq<u8>> {
    match carried_message(c) {
        Some(m) => match m.group_master_key {
            Some(k) => Some(k@),
            None => None,
        },
        None => None,
    }
}

/// The conversation a content belongs to, seen from `account`: its group,
/// or else the contact; a note to self is filed under its addressee.
pub open spec fn thread_of(c: Content, account: Uuid) -> ThreadView {
    match group_of(c) {
        Some(k) => ThreadView::Group(k),
        None => {
            let peer = match c.body {
                ContentBody::SynchronizeMessage(s) => match s.sent {
                    Some(sent) => match sent.destination {
                        Some(d) => d,
                        None => c.sender,
                    },
                    None => c.sender,
                },
                _ => c.sender,
            };
            if peer == account {
                ThreadView::Contact(c.destination)
            } else {
                ThreadView::Contact(peer)
            }
        },
    }
}

/// The text of a content that the bridge forwards: the body of a data
/// message or of a sync copy.
pub open spec fn body_of(c: Content) -> Option<Seq<char>> {
    match carried_message(c) {
        Some(m) => match m.body {
            Some(b) => Some(b@),
            None => None,
        },
        None => None,
    }
}

/// The timestamp the sender gave the message.
pub open spec fn sent_timestamp(c: Content) -> u64 {
    match carried_message(c) {
        Some(m) => match m.timestamp {
            Some(t) => t,
            None => c.timestamp,
        },
        None => c.timestamp,
    }
}

/// The data message a content carries.
pub fn message_of(c: &Content) -> (r: Option<&DataMessage>)
    ensures
        match r {
            Some(m) => carried_message(*c) == Some(*m),
            None => carried_message(*c) is None,
        },
{
    match &c.body {
        ContentBody::DataMessage(m) => Some(m),
        ContentBody::SynchronizeMessage(s) => match &s.sent {
            Some(sent) => match &sent.message {
                Some(m) => Some(m),
                None => None,
            },
            None => None,
        },
        _ => None,
    }
}

/// The conversation a content belongs to, seen from `account`.
pub fn derive_thread(c: &Content, account: Uuid) -> (r: Thread)
    ensures
        r@ == thread_of(*c, account),
{
    match message_of(c) {
        Some(m) => match &m.group_master_key {
            Some(k) => {
                return Thread::Group(k.clone());
            },
            None => {},
        },
        None => {},
    }
    let peer = match &c.body {
        ContentBody::SynchronizeMessage(s) => match &s.sent {
            Some(sent) => match sent.destination {
                Some(d) => d,
                None => c.sender,
            },
            None => c.sender,
        },
        _ => c.sender,
    };
    if peer == account {
        Thread::Contact(c.destination)
    } else {
        Thread::Contact(peer)
    }
}

/// The timestamp the sender gave the message.
pub fn message_timestamp(c: &Content) -> (r: u64)
    ensures
        r == sent_timestamp(*c),
{
    match message_of(c) {
        Some(m) => match m.timestamp {
            Some(t) => t,
            None => c.timestamp,
        },
        None => c.timestamp,
    }
}

/// Whether a key read off the wire is the given master key.
pub fn is_key(k: &Vec<u8>, key: &GroupMasterKeyBytes) -> (r: bool)
    ensures
        r == (k@ == key@),
{
    if k.len() != 32 {
        return false;
    }
    let mut i: usize = 0;
    while i < 32
        invariant
            k@.len() == 32,
            key@.len() == 32,
            i <= 32,
            forall|j: int| 0 <= j < i ==> k@[j] == key@[j],
        decreases 32 - i,
    {
        if k[i] != key[i] {
            return false;
        }
        i = i + 1;
    }
    assert(k@ =~= key@);
    true
}

/// Whether two master keys are the same.
pub fn same_key(a: &GroupMasterKeyBytes, b: &GroupMasterKeyBytes) -> (r: bool)
    ensures
        r == (*a == *b),
{
    let mut i: usize = 0;
    while i < 32
        invariant
            i <= 32,
            forall|j: int| 0 <= j < i ==> a[j] == b[j],
        decreases 32 - i,
    {
        if a[i] != b[i] {
            return false;
        }
        i = i + 1;
    }
    assert(*a =~= *b);
    true
}

} // verus!
