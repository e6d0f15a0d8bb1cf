use meshtastic_2_signal::mesh::{ChannelSettings, MeshChannel, PacketDestination};
use meshtastic_2_signal::model::{Config, Contact, Contacts, Model};
use meshtastic_2_signal::signal::{
    Content, ContentBody, DataMessage, ReactionMessage, ReceiptMessage, Sent, SyncMessage,
};
use meshtastic_2_signal::update::{handle_message, Action, Style};

const TEST_GROUP_KEY: [u8; 32] = [0x42; 32];
const ALICE_UUID: u128 = 0x11111111_1111_1111_1111_111111111111;
const BOB_UUID: u128 = 0x22222222_2222_2222_2222_222222222222;
const OUR_UUID: u128 = 0x00000000_0000_0000_0000_000000000000;

fn contact(uuid: u128, name: &str) -> Contact {
    Contact { uuid, name: Some(name.to_string()), profile_key: None }
}

fn setup() -> (Model, Config) {
    let mut contacts = Contacts::new();
    contacts.insert(ALICE_UUID, contact(ALICE_UUID, "Alice"));
    contacts.insert(BOB_UUID, contact(BOB_UUID, "Bob"));
    let model = Model::new_for_test(OUR_UUID, contacts, Vec::new());
    (model, Config { group_key: TEST_GROUP_KEY, channel_index: 0 })
}

fn data_message(sender: u128, key: Option<Vec<u8>>, body: Option<&str>, ts: u64) -> Content {
    Content {
        sender,
        destination: OUR_UUID,
        timestamp: 0,
        body: ContentBody::DataMessage(DataMessage {
            body: body.map(|b| b.to_string()),
            group_master_key: key,
            timestamp: Some(ts),
            ..Default::default()
        }),
    }
}

fn group_data_message(sender: u128, body: &str) -> Content {
    data_message(sender, Some(TEST_GROUP_KEY.to_vec()), Some(body), 1700000000000)
}

#[test]
fn group_message_bridges_to_mesh() {
    let (model, config) = setup();
    let content = group_data_message(ALICE_UUID, "Hello from Signal!");
    let action = handle_message(&model, &config, content);

    let action = action.expect("should produce an action");
    match action {
        Action::SendToMesh { body, channel, destination, signal_message } => {
            assert!(body.contains("Alice"));
            assert!(body.contains("Hello from Signal!"));
            assert_eq!(body, "Alice:\nHello from Signal!");
            assert_eq!(channel, MeshChannel(1));
            assert!(matches!(destination, PacketDestination::Broadcast));
            let sm = signal_message.expect("should have signal_message");
            assert_eq!(sm.sender, ALICE_UUID);
            assert_eq!(sm.body, "Hello from Signal!");
            assert_eq!(sm.timestamp, 1700000000000);
        }
        other => panic!("expected SendToMesh, got {:?}", other),
    }
}

#[test]
fn help_command_returns_help_text() {
    let (model, config) = setup();
    let content = group_data_message(ALICE_UUID, "/help");
    let action = handle_message(&model, &config, content);

    let action = action.expect("should produce an action");
    match action {
        Action::SendToGroup { message, master_key, ranges } => {
            assert_eq!(master_key, TEST_GROUP_KEY);
            assert!(message.contains("/channel"));
            assert!(message.contains("/help"));
            assert_eq!(ranges.len(), 1);
            assert_eq!(ranges[0].length, Some("Bridge commands:".len()));
        }
        other => panic!("expected SendToGroup, got {:?}", other),
    }
}

#[test]
fn channel_command_returns_channel_details() {
    let (mut model, config) = setup();
    model.channels[0] = Some(ChannelSettings { name: "gateway".to_string(), psk: vec![0x01, 0x02, 0x03] });

    let content = group_data_message(ALICE_UUID, "/channel");
    let action = handle_message(&model, &config, content);

    let action = action.expect("should produce an action");
    match action {
        Action::SendToGroup { message, master_key, ranges } => {
            assert_eq!(master_key, TEST_GROUP_KEY);
            assert!(message.contains("Channel Details:"));
            assert!(message.contains("gateway"));
            assert!(!ranges.is_empty());
            assert_eq!(message, "Channel Details:\nname: gateway\npsk: 010203");
            assert_eq!(ranges[0].start, Some(0));
            assert_eq!(ranges[0].length, Some("Channel Details:".len()));
            assert_eq!(ranges[0].style, Some(Style::Bold));
        }
        other => panic!("expected SendToGroup, got {:?}", other),
    }
}

#[test]
fn channel_command_without_settings_says_so() {
    let (model, config) = setup();
    let action = handle_message(&model, &config, group_data_message(ALICE_UUID, "/channel"));
    match action {
        Some(Action::SendToGroup { message, .. }) => {
            assert_eq!(message, "Channel Details:\nno settings received yet")
        }
        other => panic!("expected SendToGroup, got {:?}", other),
    }
}

#[test]
fn wrong_group_returns_none() {
    let (model, config) = setup();
    let content = data_message(ALICE_UUID, Some(vec![0x99; 32]), Some("wrong group"), 1700000000000);
    let action = handle_message(&model, &config, content);
    assert!(action.is_none(), "messages from wrong group should be ignored");
}

#[test]
fn direct_message_returns_none() {
    let (model, config) = setup();
    let content = data_message(ALICE_UUID, None, Some("hey"), 1700000000000);
    let action = handle_message(&model, &config, content);
    assert!(action.is_none(), "DMs (no group) should be ignored");
}

#[test]
fn reaction_only_message_returns_none() {
    let (model, config) = setup();
    let mut content = data_message(ALICE_UUID, Some(TEST_GROUP_KEY.to_vec()), None, 1700000000000);
    if let ContentBody::DataMessage(m) = &mut content.body {
        m.reaction = Some(ReactionMessage {
            emoji: Some("\u{1F44D}".to_string()),
            target_sent_timestamp: Some(12345),
        });
    }
    let action = handle_message(&model, &config, content);
    assert!(action.is_none(), "reaction-only messages should be ignored");
}

#[test]
fn receipt_message_returns_none() {
    let (model, config) = setup();
    let content = Content {
        sender: ALICE_UUID,
        destination: OUR_UUID,
        timestamp: 0,
        body: ContentBody::ReceiptMessage(ReceiptMessage { timestamps: vec![1700000000000] }),
    };
    let action = handle_message(&model, &config, content);
    assert!(action.is_none(), "receipt messages should be ignored");
}

#[test]
fn sync_message_bridges_to_mesh() {
    let (mut model, config) = setup();
    model.contacts.insert(OUR_UUID, contact(OUR_UUID, "BridgeBot"));

    let content = Content {
        sender: OUR_UUID,
        destination: OUR_UUID,
        timestamp: 0,
        body: ContentBody::SynchronizeMessage(SyncMessage {
            sent: Some(Sent {
                destination: None,
                timestamp: None,
                message: Some(DataMessage {
                    body: Some("synced from another device".to_string()),
                    group_master_key: Some(TEST_GROUP_KEY.to_vec()),
                    timestamp: Some(1700000000000),
                    ..Default::default()
                }),
            }),
        }),
    };
    let action = handle_message(&model, &config, content);

    let action = action.expect("sync message should produce an action");
    match action {
        Action::SendToMesh { body, .. } => {
            assert!(body.contains("synced from another device"));
            assert_eq!(body, "BridgeBot:\nsynced from another device");
        }
        other => panic!("expected SendToMesh, got {:?}", other),
    }
}

#[test]
fn unknown_contact_uses_uuid_fallback() {
    let (model, config) = setup();
    let content = group_data_message(0xffffffff_ffff_ffff_ffff_ffffffffffff, "from nobody");
    let action = handle_message(&model, &config, content);

    let action = action.expect("should produce an action");
    match action {
        Action::SendToMesh { body, .. } => {
            assert!(body.contains("from nobody"));
            assert!(!body.contains("Alice"));
            assert!(!body.contains("Bob"));
            assert_eq!(body, "ffffffff-ffff-ffff-ffff-ffffffffffff:\nfrom nobody");
        }
        other => panic!("expected SendToMesh, got {:?}", other),
    }
}

#[test]
fn uuid_fallback_keeps_leading_zeros() {
    let (model, config) = setup();
    let content = group_data_message(0x0000000a_000b_000c_000d_00000000000e, "x");
    match handle_message(&model, &config, content) {
        Some(Action::SendToMesh { body, .. }) => {
            assert_eq!(body, "0000000a-000b-000c-000d-00000000000e:\nx")
        }
        other => panic!("expected SendToMesh, got {:?}", other),
    }
}

#[test]
fn message_with_quote_still_bridges() {
    let (model, config) = setup();
    let mut content = group_data_message(ALICE_UUID, "reply text");
    if let ContentBody::DataMessage(m) = &mut content.body {
        m.quote = Some(99999);
    }
    let action = handle_message(&model, &config, content);

    let action = action.expect("quoted message should produce an action");
    match action {
        Action::SendToMesh { body, .. } => {
            assert!(body.contains("reply text"));
            assert!(body.contains("Alice"));
        }
        other => panic!("expected SendToMesh, got {:?}", other),
    }
}

#[test]
fn empty_body_matches_but_bridges() {
    let (model, config) = setup();
    let content = group_data_message(ALICE_UUID, "");
    let action = handle_message(&model, &config, content);

    let action = action.expect("empty body should still produce an action");
    match action {
        Action::SendToMesh { body, .. } => {
            assert!(body.contains("Alice"));
        }
        other => panic!("expected SendToMesh, got {:?}", other),
    }
}

#[test]
fn signal_dm_from_alice_produces_no_action() {
    let (model, config) = setup();
    let content = data_message(ALICE_UUID, None, Some("hey"), 5);
    assert!(handle_message(&model, &config, content).is_none());
}
