use torchflower::batch::observe_packet_ids;
use torchflower::bot::{AutomationPolicy, BotError, BotSession, ServerAddress};
use torchflower::compression::Compression;
use torchflower::observe::ObservedPacket;
use torchflower::packets::encode_network_stack_latency_packet_stream;
use torchflower::protocol_adapter::BedrockProtocolAdapter;
use torchflower::status::CapabilityStatus;
use torchflower::varint::write_unsigned_varint_u32;

type Session = BotSession<String, u32>;

#[test]
fn builder_refuses_missing_fields_in_order() {
    let err = Session::builder()
        .account("acct")
        .server(ServerAddress::new("play.example.org", 19132))
        .build()
        .err();
    assert_eq!(err, Some(BotError::MissingBuilderField("config")));

    let err = Session::builder()
        .config("cfg".to_string())
        .account("acct")
        .server(ServerAddress::new("play.example.org", 19132))
        .build()
        .err();
    assert_eq!(err, Some(BotError::MissingBuilderField("database")));

    let err = Session::builder().config("cfg".to_string()).database(7).build().err();
    assert_eq!(err, Some(BotError::MissingBuilderField("account")));

    let err = Session::builder().config("cfg".to_string()).database(7).account("acct").build().err();
    assert_eq!(err, Some(BotError::MissingBuilderField("server")));
}

#[test]
fn built_session_starts_disconnected_without_status() {
    let session = Session::builder()
        .config("cfg".to_string())
        .database(7)
        .account("acct")
        .server(ServerAddress::new("play.example.org", 19132))
        .automation_policy(AutomationPolicy::allow_for_hosts(&["play.example.org"]))
        .build()
        .unwrap();
    assert!(session.last_status().is_none());
    assert_eq!(session.config(), "cfg");
    assert_eq!(*session.database(), 7);
    assert!(session.block_interaction_controller().can_modify_blocks());
    assert!(session.require_connected().is_err());
}

#[test]
fn connect_records_last_status() {
    let mut session = Session::builder()
        .config("cfg".to_string())
        .database(7)
        .account("acct")
        .server(ServerAddress::new("play.example.org", 19132))
        .build()
        .unwrap();
    let mut status = CapabilityStatus::default();
    status.success = true;
    status.keepalive = true;
    let returned = session.finish_connect(status);
    assert!(returned.success);
    assert!(session.last_status().map(|s| s.success && s.keepalive).unwrap_or(false));
    assert!(session.chat("hi".to_string()).is_ok());

    let failed = CapabilityStatus::default();
    session.finish_connect(failed);
    assert!(session.chat("hi".to_string()).is_err());
    assert!(!session.last_status().unwrap().success);
}

#[test]
fn finalize_lists_missing_capabilities_in_order() {
    let mut status = CapabilityStatus::default();
    status.login = true;
    status.spawn = true;
    status.player_spawn = true;
    status.remained_connected = true;
    status.keepalive = true;
    status.chat = true;
    status.inventory_transactions = true;
    status.movement = true;
    status.block_breaking = true;
    status.forms = true;
    status.finalize();
    assert!(!status.gameplay_actions);
    assert_eq!(status.missing_capabilities, vec!["block_placing".to_string(), "gameplay_actions".to_string()]);
    assert_eq!(status.optional_capabilities_missing, vec!["disconnect_handling".to_string()]);
    assert!(!status.success);

    status.block_placing = true;
    status.finalize();
    assert!(status.gameplay_actions);
    assert!(status.missing_capabilities.is_empty());
    assert!(status.success);
}

#[test]
fn compression_always_succeeds_and_round_trips() {
    let batch: Vec<u8> = (0..2000u32).map(|i| (i % 251) as u8).collect();
    for c in [
        Compression::Zlib { threshold: 256, compression_level: 7 },
        Compression::Zlib { threshold: 0, compression_level: 10 },
        Compression::Snappy { threshold: 1 },
        Compression::NoCompression,
    ] {
        let out = c.compress(batch.clone()).unwrap();
        assert_eq!(c.decompress(out).unwrap(), batch);
    }
    let small = Compression::Zlib { threshold: 256, compression_level: 7 }.compress(vec![1, 2, 3]).unwrap();
    assert_eq!(small, vec![0xff, 1, 2, 3]);
    let zlib = Compression::Zlib { threshold: 256, compression_level: 7 }.compress(batch.clone()).unwrap();
    assert_eq!(zlib[0], 0);
    let snappy = Compression::Snappy { threshold: 256 }.compress(batch).unwrap();
    assert_eq!(snappy[0], 1);
}

#[test]
fn login_batch_refuses_bad_version_before_compression() {
    let odd = Compression::Zlib { threshold: 0, compression_level: 20 };
    assert!(BedrockProtocolAdapter::encode_login_packet_batch_with_protocol(&[0xAA], Some(&odd), 0).is_err());
    let batch = BedrockProtocolAdapter::encode_login_packet_batch_with_protocol(&[0xAA], None, 898).unwrap();
    assert_eq!(batch, vec![0x07, 0x01, 0x00, 0x00, 0x03, 0x82, 0x01, 0xAA]);
}

#[test]
fn varint_uses_fewest_groups_with_continuation_bits() {
    let mut out = Vec::new();
    write_unsigned_varint_u32(898, &mut out);
    assert_eq!(out, vec![0x82, 0x07]);
    for (value, len) in [(0u32, 1usize), (127, 1), (128, 2), (16_383, 2), (16_384, 3), (u32::MAX, 5)] {
        let mut out = Vec::new();
        write_unsigned_varint_u32(value, &mut out);
        assert_eq!(out.len(), len);
        assert!(out[..len - 1].iter().all(|b| b & 0x80 != 0));
        assert!(out[len - 1] & 0x80 == 0);
    }
}

#[test]
fn latency_packet_is_observed_back() {
    let stream = encode_network_stack_latency_packet_stream(0x0102_0304_0506_0708, true);
    assert_eq!(stream[..2], [0x0a, 0x73]);
    let observed = observe_packet_ids(&stream).unwrap();
    assert_eq!(observed.len(), 1);
    assert!(matches!(
        observed[0],
        ObservedPacket::NetworkStackLatency { timestamp: 0x0102_0304_0506_0708, needs_response: true }
    ));
}

#[test]
fn connected_time_and_disconnect_are_recorded() {
    let mut status = CapabilityStatus::default();
    status.requested_duration_seconds = 300;
    status.record_connected_for(299);
    assert!(!status.remained_connected);
    status.record_connected_for(300);
    assert!(status.remained_connected);
    assert_eq!(status.connected_duration_seconds, 300);
    status.record_disconnect("kicked".to_string());
    assert!(status.disconnect_handling);
    assert_eq!(status.disconnect_reason.as_deref(), Some("kicked"));
}

#[test]
fn varint_length_follows_leading_zeros() {
    for value in [0u32, 1, 127, 128, 898, 16_383, 16_384, 2_097_151, 2_097_152, 268_435_455, 268_435_456, u32::MAX] {
        let mut out = vec![0xAA];
        write_unsigned_varint_u32(value, &mut out);
        let expected = std::cmp::max(1, (38 - value.leading_zeros() as usize) / 7);
        assert_eq!(out.len() - 1, expected);
        assert_eq!(out[0], 0xAA);
    }
}
