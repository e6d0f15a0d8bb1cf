use meshtastic_2_signal::bridge::{on_mesh_ack, purge_expired, record_sent, Cmd, PENDING_TTL_MS};
use meshtastic_2_signal::dumb_packet_router::DumbPacketRouter;
use meshtastic_2_signal::mesh::{Data, FromRadio, FromRadioPayload, MeshPacket, MeshPayload, PortNum};
use meshtastic_2_signal::model::{Config, Contact, Contacts, Model};
use meshtastic_2_signal::signal::{Content, ContentBody, DataMessage};
use meshtastic_2_signal::update::{handle_message, Action};

const TEST_GROUP_KEY: [u8; 32] = [0x42; 32];
const GATEWAY_NODE: u32 = 0x92345678;
const ALICE_NODE: u32 = 0xAAAA0001;
const ALICE_UUID: u128 = 0x11111111_1111_1111_1111_111111111111;

fn make_router() -> DumbPacketRouter {
    DumbPacketRouter::new(GATEWAY_NODE)
}

fn routing_ack(from: u32, request_id: u32) -> FromRadio {
    FromRadio {
        payload_variant: Some(FromRadioPayload::Packet(MeshPacket {
            from,
            to: GATEWAY_NODE,
            channel: 0,
            id: 1000,
            want_ack: false,
            payload_variant: Some(MeshPayload::Decoded(Data {
                portnum: PortNum::RoutingApp,
                payload: vec![],
                request_id,
            })),
        })),
    }
}

fn setup() -> (Model, Config) {
    let mut contacts = Contacts::new();
    contacts.insert(
        ALICE_UUID,
        Contact { uuid: ALICE_UUID, name: Some("Alice".to_string()), profile_key: None },
    );
    let model = Model::new_for_test(0, contacts, Vec::new());
    (model, Config { group_key: TEST_GROUP_KEY, channel_index: 0 })
}

#[test]
fn routing_ack_produces_mesh_ack_action() {
    let mut router = make_router();

    let outgoing = MeshPacket {
        id: 42,
        from: GATEWAY_NODE,
        to: ALICE_NODE,
        want_ack: true,
        ..Default::default()
    };
    let id = router.handle_mesh_packet(outgoing);
    assert_eq!(id, 42);

    let ack = routing_ack(ALICE_NODE, 42);
    let action = router.handle_packet_from_radio(ack).expect("should receive MeshAck");
    match action {
        Action::MeshAck { packet, deliverd } => {
            assert_eq!(packet.id, 42);
            assert!(deliverd);
        }
        other => panic!("expected MeshAck, got {:?}", other),
    }
    assert!(router.outstanding.is_empty());
}

#[test]
fn manual_round_trip_signal_to_mesh_ack() {
    let (mut model, config) = setup();
    let mut router = make_router();

    let content = Content {
        sender: ALICE_UUID,
        destination: 0,
        timestamp: 0,
        body: ContentBody::DataMessage(DataMessage {
            body: Some("test message".to_string()),
            group_master_key: Some(TEST_GROUP_KEY.to_vec()),
            timestamp: Some(1700000000000),
            ..Default::default()
        }),
    };
    let action = handle_message(&model, &config, content);
    let action = action.expect("should produce SendToMesh");

    match action {
        Action::SendToMesh { signal_message, .. } => {
            let signal_msg = signal_message.expect("should have signal_message");

            let packet_id: u32 = 500;
            record_sent(&mut model, packet_id, signal_msg.clone(), 1700000001000);

            let outgoing = MeshPacket { id: packet_id, want_ack: true, ..Default::default() };
            router.handle_mesh_packet(outgoing);

            let ack = routing_ack(ALICE_NODE, packet_id);
            let ack_action = router.handle_packet_from_radio(ack).expect("should receive MeshAck");
            match ack_action {
                Action::MeshAck { packet, deliverd } => {
                    assert_eq!(packet.id, packet_id);
                    assert!(deliverd);

                    assert_eq!(model.mesh_to_signal[&packet.id].body, "test message");
                    let cmd = on_mesh_ack(&mut model, &config, packet.id, 1700000005000);
                    assert!(!model.mesh_to_signal.contains_key(&packet_id));
                    match cmd {
                        Some(Cmd::ReactToThread { master_key, emoji, target_timestamp, target_author, .. }) => {
                            assert_eq!(master_key, TEST_GROUP_KEY);
                            assert_eq!(emoji, "\u{2714}\u{fe0f}");
                            assert_eq!(target_timestamp, 1700000000000);
                            assert_eq!(target_author, ALICE_UUID);
                        }
                        other => panic!("expected ReactToThread, got {:?}", other),
                    }
                }
                other => panic!("expected MeshAck, got {:?}", other),
            }
        }
        other => panic!("expected SendToMesh, got {:?}", other),
    }
}

#[test]
fn ack_for_unknown_packet_id_produces_nothing() {
    let mut router = make_router();

    let ack = routing_ack(ALICE_NODE, 99999);
    let action = router.handle_packet_from_radio(ack);

    assert!(action.is_none(), "should not produce MeshAck for unknown ID");
}

#[test]
fn delivered_flag_is_true_on_ack() {
    let mut router = make_router();

    let outgoing = MeshPacket { id: 77, want_ack: true, ..Default::default() };
    router.handle_mesh_packet(outgoing);

    let ack = routing_ack(ALICE_NODE, 77);
    let action = router.handle_packet_from_radio(ack).expect("should get MeshAck");
    match action {
        Action::MeshAck { deliverd, .. } => {
            assert!(deliverd, "deliverd flag should be true");
        }
        other => panic!("expected MeshAck, got {:?}", other),
    }
}

#[test]
fn packet_without_want_ack_is_not_kept() {
    let mut router = make_router();
    let id = router.handle_mesh_packet(MeshPacket { id: 9, want_ack: false, ..Default::default() });
    assert_eq!(id, 9);
    assert!(router.handle_packet_from_radio(routing_ack(ALICE_NODE, 9)).is_none());
    assert_eq!(router.source_node_id(), GATEWAY_NODE);
}

#[test]
fn routing_frame_with_zero_request_id_is_not_an_ack() {
    let mut router = make_router();
    router.handle_mesh_packet(MeshPacket { id: 0, want_ack: true, ..Default::default() });
    assert!(router.handle_packet_from_radio(routing_ack(ALICE_NODE, 0)).is_none());
    assert_eq!(router.outstanding.len(), 1);
}

#[test]
fn ack_with_request_id_500_reacts_and_clears() {
    let (mut model, config) = setup();
    record_sent(
        &mut model,
        500,
        meshtastic_2_signal::model::SignalMessage { body: "hi".to_string(), sender: ALICE_UUID, timestamp: 7 },
        7,
    );
    assert_eq!(model.mesh_to_signal.len(), 1);
    let cmd = on_mesh_ack(&mut model, &config, 500, 8);
    assert!(matches!(cmd, Some(Cmd::ReactToThread { target_timestamp: 7, target_author: ALICE_UUID, timestamp: 8, .. })));
    assert!(model.mesh_to_signal.is_empty());
}

#[test]
fn ack_with_unknown_id_99999_emits_nothing() {
    let (mut model, config) = setup();
    record_sent(
        &mut model,
        500,
        meshtastic_2_signal::model::SignalMessage { body: "hi".to_string(), sender: ALICE_UUID, timestamp: 7 },
        7,
    );
    assert!(on_mesh_ack(&mut model, &config, 99999, 8).is_none());
    assert_eq!(model.mesh_to_signal.len(), 1);
}

#[test]
fn radio_report_sets_gateway_node_id() {
    let mut router = DumbPacketRouter::new(0);
    let report = FromRadio { payload_variant: Some(FromRadioPayload::MyInfo(GATEWAY_NODE)) };
    assert!(router.handle_packet_from_radio(report).is_none());
    assert_eq!(router.source_node_id(), GATEWAY_NODE);
}

#[test]
fn pending_table_shrinks_only_on_matching_acks() {
    let (mut model, config) = setup();
    let msg = |t: u64| meshtastic_2_signal::model::SignalMessage { body: "m".to_string(), sender: ALICE_UUID, timestamp: t };
    record_sent(&mut model, 1, msg(1), 1);
    record_sent(&mut model, 2, msg(2), 2);
    assert_eq!(model.mesh_to_signal.len(), 2);
    assert!(on_mesh_ack(&mut model, &config, 3, 0).is_none());
    assert_eq!(model.mesh_to_signal.len(), 2);
    assert!(on_mesh_ack(&mut model, &config, 1, 0).is_some());
    assert_eq!(model.mesh_to_signal.len(), 1);
    assert!(on_mesh_ack(&mut model, &config, 1, 0).is_none());
    assert_eq!(model.mesh_to_signal.len(), 1);
}

#[test]
fn pending_entries_expire_after_ten_minutes() {
    let (mut model, _config) = setup();
    let msg = |t: u64| meshtastic_2_signal::model::SignalMessage { body: "m".to_string(), sender: ALICE_UUID, timestamp: t };
    record_sent(&mut model, 1, msg(1), 0);
    record_sent(&mut model, 2, msg(2), 599_999);
    assert_eq!(model.mesh_to_signal.len(), 2);
    record_sent(&mut model, 3, msg(3), 600_000);
    assert!(!model.mesh_to_signal.contains_key(&1));
    assert!(model.mesh_to_signal.contains_key(&2));
    assert!(model.mesh_to_signal.contains_key(&3));
    assert_eq!(model.pending_since.len(), 2);
    assert_eq!(PENDING_TTL_MS, 600_000);
}

#[test]
fn purge_drops_only_expired_entries() {
    let (mut model, _config) = setup();
    let msg = |t: u64| meshtastic_2_signal::model::SignalMessage { body: "m".to_string(), sender: ALICE_UUID, timestamp: t };
    record_sent(&mut model, 10, msg(1), 100);
    record_sent(&mut model, 11, msg(2), 200);
    purge_expired(&mut model, 250, 100);
    assert!(!model.mesh_to_signal.contains_key(&10));
    assert!(model.mesh_to_signal.contains_key(&11));
    assert_eq!(model.pending_since.len(), 1);
    assert_eq!(model.pending_since[0].id, 11);
}

#[test]
fn reused_packet_id_keeps_only_the_fresh_timestamp() {
    let (mut model, _config) = setup();
    let msg = |t: u64| meshtastic_2_signal::model::SignalMessage { body: "m".to_string(), sender: ALICE_UUID, timestamp: t };
    record_sent(&mut model, 5, msg(1), 0);
    record_sent(&mut model, 5, msg(2), 500_000);
    assert_eq!(model.pending_since.len(), 1);
    record_sent(&mut model, 6, msg(3), 700_000);
    assert_eq!(model.mesh_to_signal[&5].timestamp, 2);
}
