use torchflower::encryption::{encryption_from_handshake_salt, Encryption, HandshakeKeyError};
use torchflower::observe::{ObservedPacket, ObservedStartGame, RotationBits, Vec3Bits};
use torchflower::session_loop::{LoopAction, PacketAction, RecvFailure, RecvOutcome, SessionProgress};
use torchflower::soft_enum::SoftEnumError;
use torchflower::status::CapabilityStatus;

fn start_game() -> ObservedStartGame {
    ObservedStartGame {
        entity_id: 1,
        runtime_id: 2,
        position: Vec3Bits { x: 0, y: 0, z: 0 },
        rotation: RotationBits { pitch: 0, yaw: 0 },
        disable_player_interactions: None,
        server_authoritative_block_breaking: None,
        block_network_ids_are_hashes: None,
        block_property_count: None,
    }
}

#[test]
fn loop_receives_then_ends_after_required_time() {
    let mut progress = SessionProgress::new(0, 300);
    let mut status = CapabilityStatus::default();
    status.requested_duration_seconds = 300;
    assert_eq!(progress.loop_step(&mut status, 0), LoopAction::Receive { lenient: false, timeout_millis: 10_000 });

    assert_eq!(progress.observed_step(&mut status, &ObservedPacket::ResourcePackStack, 10), PacketAction::SendStackCompleted);
    assert_eq!(progress.loop_step(&mut status, 20), LoopAction::Receive { lenient: true, timeout_millis: 60_000 });

    assert_eq!(progress.observed_step(&mut status, &ObservedPacket::PlayStatus(Some(3)), 30), PacketAction::Nothing);
    assert!(status.login && status.player_spawn);
    assert_eq!(
        progress.observed_step(&mut status, &ObservedPacket::StartGame(Some(start_game())), 1_000),
        PacketAction::StartMovement { init: true }
    );
    assert!(status.spawn && progress.movement_init_sent);
    assert_eq!(progress.loop_step(&mut status, 1_100), LoopAction::Receive { lenient: true, timeout_millis: 50 });

    assert_eq!(progress.recv_failure_step(&mut status, RecvFailure::Timeout, 301_000), RecvOutcome::Continue { drive_movement: true });
    assert!(status.remained_connected);
    assert_eq!(progress.loop_step(&mut status, 301_000), LoopAction::End);
    assert!(status.disconnect_handling);
    assert!(!status.success);
}

#[test]
fn loop_ends_after_overrun_and_fails_before_spawn() {
    let progress = SessionProgress::new(0, 10);
    let mut status = CapabilityStatus::default();
    assert_eq!(progress.loop_step(&mut status, 99_999), LoopAction::Receive { lenient: false, timeout_millis: 10_000 });
    assert_eq!(progress.loop_step(&mut status, 100_000), LoopAction::End);

    let mut progress = SessionProgress::new(0, 10);
    let mut status = CapabilityStatus::default();
    assert_eq!(progress.recv_failure_step(&mut status, RecvFailure::Timeout, 5), RecvOutcome::TimedOutBeforeSpawn);
    let err = RecvFailure::Error { post_spawn_decode: true, message: "decode packet batch".to_string() };
    assert_eq!(progress.recv_failure_step(&mut status, err, 5), RecvOutcome::Fail);
}

#[test]
fn post_spawn_decode_error_holds_and_disconnect_finishes() {
    let mut progress = SessionProgress::new(0, 300);
    let mut status = CapabilityStatus::default();
    progress.observed_step(&mut status, &ObservedPacket::Other(0x0b), 2_000);
    assert!(status.spawn);
    assert_eq!(progress.spawn_started_at, Some(2_000));
    let err = RecvFailure::Error { post_spawn_decode: true, message: "decrypt packet batch".to_string() };
    assert_eq!(progress.recv_failure_step(&mut status, err, 7_000), RecvOutcome::Continue { drive_movement: false });
    assert!(progress.post_spawn_decode_hold);
    assert_eq!(status.connected_duration_seconds, 5);
    assert_eq!(progress.loop_step(&mut status, 8_000), LoopAction::Hold { drive_movement: false });

    status.movement = true;
    let err = RecvFailure::Error { post_spawn_decode: false, message: "connection closed".to_string() };
    assert_eq!(progress.recv_failure_step(&mut status, err, 12_000), RecvOutcome::Finished);
    assert!(status.disconnect_handling);
    assert_eq!(status.disconnect_reason.as_deref(), Some("connection closed"));
    assert_eq!(status.connected_duration_seconds, 10);

    let mut status = CapabilityStatus::default();
    assert_eq!(progress.observed_step(&mut status, &ObservedPacket::Disconnect(None), 22_000), PacketAction::Finished);
    assert!(status.disconnect_handling);
    assert_eq!(status.connected_duration_seconds, 20);
    assert!(status.missing_capabilities.contains(&"login".to_string()));
}

#[test]
fn packets_prove_capabilities() {
    let mut progress = SessionProgress::new(0, 300);
    let mut status = CapabilityStatus::default();
    assert_eq!(
        progress.observed_step(&mut status, &ObservedPacket::NetworkStackLatency { timestamp: 9, needs_response: true }, 1),
        PacketAction::ReplyLatency { timestamp: 9 }
    );
    assert!(status.keepalive);
    progress.observed_step(&mut status, &ObservedPacket::Text(None), 1);
    progress.observed_step(&mut status, &ObservedPacket::ModalFormRequest, 1);
    assert_eq!(progress.observed_step(&mut status, &ObservedPacket::InventorySlot { item: None }, 1), PacketAction::ForMovement);
    assert!(status.chat && status.forms && status.inventory_transactions);
    assert_eq!(progress.observed_step(&mut status, &ObservedPacket::ResourcePacksInfo, 1), PacketAction::SendPackResponses);
}

#[test]
fn soft_enum_errors_render_as_the_engine_reports_them() {
    assert_eq!(SoftEnumError::UnknownActionType(7).message(), "unknown action_type 7");
    assert_eq!(SoftEnumError::StringNeedsBytes(12).message(), "string needs 12 bytes");
    assert_eq!(SoftEnumError::NeedByte.message(), "need 1 byte");
    assert_eq!(SoftEnumError::InvalidVarU32.message(), "invalid var_u32");
}

#[test]
fn handshake_salt_sets_up_the_session_key() {
    let client_secret = [0x11u8; 48];
    let server_secret = [0x22u8; 48];
    let server_public = p384::SecretKey::from_slice(&server_secret).unwrap().public_key().to_sec1_bytes();
    let mut from_salt = encryption_from_handshake_salt(&client_secret, &server_public, "BwcHBwcHBwcHBwcHBwcHBw==").unwrap();
    let mut direct = Encryption::new(&client_secret, &server_public, &[7u8; 16]).unwrap();
    assert_eq!(from_salt.encrypt(vec![1, 2, 3]).unwrap(), direct.encrypt(vec![1, 2, 3]).unwrap());

    assert_eq!(
        encryption_from_handshake_salt(&client_secret, &server_public, "AQID").err(),
        Some(HandshakeKeyError::SaltLength(3))
    );
    assert_eq!(
        encryption_from_handshake_salt(&client_secret, &server_public, "!!").err(),
        Some(HandshakeKeyError::InvalidBase64)
    );
}
