use torchflower::codec::NetworkCodecError;
use torchflower::compression::{Compression, CompressionError};
use torchflower::encryption::{Encryption, EncryptionError};
use torchflower::observe::ObservedPacket;
use torchflower::packets::encode_network_stack_latency_packet_stream;
use torchflower::protocol_adapter::{BedrockProtocolAdapter, InboundError};
use torchflower::protocol_options::BedrockProtocolOptions;

fn session_pair() -> (Encryption, Encryption) {
    let client_secret = [0x11u8; 48];
    let server_secret = [0x22u8; 48];
    let client_public = p384::SecretKey::from_slice(&client_secret).unwrap().public_key().to_sec1_bytes();
    let server_public = p384::SecretKey::from_slice(&server_secret).unwrap().public_key().to_sec1_bytes();
    let token = [7u8; 16];
    let client = Encryption::new(&client_secret, &server_public, &token).unwrap();
    let server = Encryption::new(&server_secret, &client_public, &token).unwrap();
    (client, server)
}

fn adapter(compression: Option<Compression>, encryption: Option<Encryption>) -> BedrockProtocolAdapter {
    let mut adapter = BedrockProtocolAdapter::new("127.0.0.1", 19132, BedrockProtocolOptions::from_config(898).unwrap(), None);
    adapter.compression = compression;
    adapter.encryption = encryption;
    adapter
}

fn pipelines(compression: Option<Compression>) -> (BedrockProtocolAdapter, BedrockProtocolAdapter) {
    let (client, server) = session_pair();
    (adapter(compression, Some(client)), adapter(compression, Some(server)))
}

#[test]
fn encryption_rejects_a_public_key_that_does_not_decode() {
    assert!(Encryption::new(&[0x11u8; 48], &[4u8, 1, 2], &[0u8; 16]).is_none());
}

#[test]
fn plain_pipeline_passes_batches_through() {
    let mut pipeline = adapter(None, None);
    let batch = vec![3u8, 1, 2, 3];
    let wire = pipeline.prepare_outbound_packet_stream(batch.clone()).unwrap();
    assert_eq!(wire, batch);
    assert_eq!(pipeline.prepare_inbound_packet_stream(wire).unwrap(), batch);
}

#[test]
fn sealed_batches_open_on_the_peer_in_order() {
    let compression = Some(Compression::Zlib { threshold: 4, compression_level: 6 });
    let (mut client, mut server) = pipelines(compression);
    let first: Vec<u8> = (0u8..200).collect();
    let second = vec![9u8, 8];
    let wire_first = client.prepare_outbound_packet_stream(first.clone()).unwrap();
    let wire_second = client.prepare_outbound_packet_stream(second.clone()).unwrap();
    assert_ne!(wire_first, first);
    assert_eq!(server.prepare_inbound_packet_stream(wire_first).unwrap(), first);
    assert_eq!(server.prepare_inbound_packet_stream(wire_second).unwrap(), second);
}

#[test]
fn snappy_sealed_batch_opens_on_the_peer() {
    let (mut client, mut server) = pipelines(Some(Compression::Snappy { threshold: 0 }));
    let batch = b"hello hello hello hello".to_vec();
    let wire = client.prepare_outbound_packet_stream(batch.clone()).unwrap();
    assert_eq!(server.prepare_inbound_packet_stream(wire).unwrap(), batch);
}

#[test]
fn tampered_batch_is_refused_by_its_trailer() {
    let (mut client, mut server) = pipelines(None);
    let mut wire = client.prepare_outbound_packet_stream(vec![1u8, 2, 3]).unwrap();
    assert_eq!(wire.len(), 3 + 8);
    wire[0] ^= 0x40;
    assert_eq!(
        server.prepare_inbound_packet_stream(wire),
        Err(NetworkCodecError::Encryption(EncryptionError::InvalidTrailer))
    );
}

#[test]
fn empty_encrypted_batch_without_compression_is_too_short_to_open() {
    let (mut client, mut server) = pipelines(None);
    let wire = client.prepare_outbound_packet_stream(Vec::new()).unwrap();
    assert_eq!(wire.len(), 8);
    assert_eq!(
        server.prepare_inbound_packet_stream(wire),
        Err(NetworkCodecError::Encryption(EncryptionError::InvalidLength(8)))
    );
}

#[test]
fn unknown_method_byte_is_reported() {
    let mut pipeline = adapter(Some(Compression::NoCompression), None);
    assert_eq!(
        pipeline.prepare_inbound_packet_stream(vec![7u8, 1]),
        Err(NetworkCodecError::Compression(CompressionError::UnknownMethod(7)))
    );
    assert!(matches!(
        pipeline.prepare_inbound_packet_stream(Vec::new()),
        Err(NetworkCodecError::Compression(CompressionError::Io(_)))
    ));
}

#[test]
fn latency_response_is_observed_by_the_peer_with_the_scaled_timestamp() {
    let compression = Some(Compression::Zlib { threshold: 256, compression_level: 6 });
    let (mut client, mut server) = pipelines(compression);
    let wire = client.network_stack_latency_response_batch(42).unwrap();
    let observed = server.receive_observed(wire).unwrap();
    assert_eq!(observed.len(), 1);
    match &observed[0] {
        ObservedPacket::NetworkStackLatency { timestamp, needs_response } => {
            assert_eq!(*timestamp, 42_000_000);
            assert!(!*needs_response);
        }
        other => panic!("unexpected observation {other:?}"),
    }
}

#[test]
fn latency_response_plain_batch_matches_the_encoder() {
    let mut pipeline = adapter(None, None);
    let wire = pipeline.network_stack_latency_response_batch(3).unwrap();
    assert_eq!(wire, encode_network_stack_latency_packet_stream(3_000_000, false));
}

#[test]
fn truncated_batch_stream_is_a_frame_error() {
    let mut pipeline = adapter(None, None);
    assert!(matches!(pipeline.receive_observed(vec![5u8, 1]), Err(InboundError::Frame(_))));
}

use torchflower::auth::ProvisionedBedrockSession;
use torchflower::protocol_adapter::{
    decode_connection_request_override, encode_request_network_settings_packet_stream, login_server_address,
    login_token_for_session, DisconnectInfo, HandshakeError, HandshakePacket, HandshakeStep,
    InvalidConnectionRequestOverride, LoginBatchError, LoginHandshake,
};
use torchflower::protocol_options::ProtocolVersionError;

#[test]
fn request_network_settings_framed_encoding_is_exact() {
    let payload = encode_request_network_settings_packet_stream(898);

    assert_eq!(payload.len(), 7);
    // 898 = 0x00000382, encoded as big-endian u32 -> [0x00, 0x00, 0x03, 0x82]
    assert_eq!(payload, vec![0x06, 0xc1, 0x01, 0x00, 0x00, 0x03, 0x82]);
}

#[test]
fn adapter_requests_network_settings_for_its_protocol() {
    let adapter = adapter(None, None);
    assert_eq!(adapter.request_network_settings_packet_stream(), vec![0x06, 0xc1, 0x01, 0x00, 0x00, 0x03, 0x82]);
    assert_eq!(adapter.protocol_options().requested_protocol_version, 898);
}

#[test]
fn login_address_defaults_to_host_and_port() {
    assert_eq!(login_server_address("play.example.net", 19132, None), "play.example.net:19132");
    assert_eq!(login_server_address("h", 0, Some("   ")), "h:0");
    assert_eq!(login_server_address("h", 1, Some("  proxy.example:19133 ")), "proxy.example:19133");
    let adapter = BedrockProtocolAdapter::new("10.0.0.1", 65535, BedrockProtocolOptions::from_config(898).unwrap(), None);
    assert_eq!(adapter.server_address, "10.0.0.1:65535");
}

#[test]
fn login_token_source_picks_legacy_token_case_insensitively() {
    let session = ProvisionedBedrockSession {
        account_id: "a".to_string(),
        playfab_id: "p".to_string(),
        playfab_session_ticket: "t".to_string(),
        minecraft_access_token: "m".to_string(),
        bedrock_login_token: "modern".to_string(),
        legacy_bedrock_token: "legacy-token".to_string(),
    };
    assert_eq!(login_token_for_session(&session, "LEGACY"), "legacy-token");
    assert_eq!(login_token_for_session(&session, ""), "modern");
    assert_eq!(login_token_for_session(&session, "legacy "), "modern");
}

#[test]
fn connection_request_override_decodes_standard_base64() {
    assert_eq!(decode_connection_request_override("  "), Ok(None));
    assert_eq!(decode_connection_request_override(" AQID "), Ok(Some(vec![1, 2, 3])));
    assert_eq!(decode_connection_request_override("not base64!"), Err(InvalidConnectionRequestOverride));
}

#[test]
fn login_batch_frames_the_connection_request_after_the_version() {
    let batch = BedrockProtocolAdapter::encode_login_packet_batch_with_protocol(&[9, 8, 7], None, 898).unwrap();
    assert_eq!(batch, vec![9, 0x01, 0x00, 0x00, 0x03, 0x82, 3, 9, 8, 7]);
    let compressed = BedrockProtocolAdapter::encode_login_packet_batch_with_protocol(
        &[9, 8, 7],
        Some(&Compression::Zlib { threshold: 512, compression_level: 7 }),
        898,
    )
    .unwrap();
    assert_eq!(compressed[0], 0xff);
    assert_eq!(&compressed[1..], &batch[..]);
    assert_eq!(
        BedrockProtocolAdapter::encode_login_packet_batch_with_protocol(&[1], None, 0),
        Err(LoginBatchError::Protocol(ProtocolVersionError::NotPositive(
            torchflower::protocol_options::BedrockProtocolVersionSource::Config,
            0
        )))
    );
}

#[test]
fn network_settings_turn_on_the_requested_compression() {
    let mut zlib = adapter(None, None);
    zlib.apply_network_settings(&[
        HandshakePacket::Other { packet_id: 5 },
        HandshakePacket::NetworkSettings { compression_algorithm: 0, compression_threshold: 256 },
        HandshakePacket::NetworkSettings { compression_algorithm: 1, compression_threshold: 1 },
    ])
    .unwrap();
    assert_eq!(zlib.compression, Some(Compression::Zlib { threshold: 256, compression_level: 7 }));
    let mut snappy = adapter(None, None);
    snappy
        .apply_network_settings(&[HandshakePacket::NetworkSettings { compression_algorithm: 1, compression_threshold: 9 }])
        .unwrap();
    assert_eq!(snappy.compression, Some(Compression::Snappy { threshold: 9 }));
    let mut other = adapter(None, None);
    other
        .apply_network_settings(&[HandshakePacket::NetworkSettings { compression_algorithm: 7, compression_threshold: 9 }])
        .unwrap();
    assert_eq!(other.compression, Some(Compression::NoCompression));
}

#[test]
fn missing_network_settings_name_the_last_disconnect() {
    let first = DisconnectInfo { reason: 1, hide_reason: false, message: None };
    let last = DisconnectInfo { reason: 2, hide_reason: false, message: Some("Banned".to_string()) };
    let mut adapter = adapter(None, None);
    let err = adapter
        .apply_network_settings(&[HandshakePacket::Disconnect(first), HandshakePacket::Disconnect(last.clone())])
        .unwrap_err();
    assert_eq!(
        err,
        HandshakeError::EarlyDisconnect { protocol_version: 898, codec_protocol_version: 898, disconnect: last }
    );
    assert_eq!(adapter.compression, None);
    assert_eq!(
        adapter.apply_network_settings(&[HandshakePacket::StartGame]),
        Err(HandshakeError::NetworkSettingsMissing { protocol_version: 898, codec_protocol_version: 898 })
    );
}

#[test]
fn login_handshake_disconnect_offline_formatting() {
    let disc = DisconnectInfo { reason: 0, hide_reason: false, message: Some("Invalid session".to_string()) };
    let mut handshake = LoginHandshake::new();
    let step = handshake.accept_packet(HandshakePacket::Disconnect(disc.clone()), "0");
    assert_eq!(
        step,
        HandshakeStep::Fail(HandshakeError::OfflineLoginRejected { reason: 0, message: Some("Invalid session".to_string()) })
    );
    let err_msg = format!(
        "Server rejected offline/mock login (xuid=0). Real Xbox Live authentication is required. Disconnect reason={}, message={:?}",
        disc.reason,
        disc.message
    );
    assert!(err_msg.contains("rejected offline/mock login"));
    assert!(err_msg.contains("Real Xbox Live authentication is required"));
    assert!(err_msg.contains("Disconnect reason=0"));
    assert!(err_msg.contains("message=Some(\"Invalid session\")"));
}

#[test]
fn login_handshake_disconnect_online_formatting() {
    let disc = DisconnectInfo { reason: 3, hide_reason: true, message: Some("Spamming".to_string()) };
    let mut handshake = LoginHandshake::new();
    let step = handshake.accept_packet(HandshakePacket::Disconnect(disc.clone()), "2535400000000000");
    assert_eq!(step, HandshakeStep::Fail(HandshakeError::Disconnected(disc.clone())));
    let err_msg = format!(
        "Server disconnected during login handshake. Reason: {}, HideReason: {}, Message: {:?}",
        disc.reason, disc.hide_reason, disc.message
    );
    assert!(err_msg.contains("Server disconnected during login handshake"));
    assert!(err_msg.contains("Reason: 3"));
    assert!(err_msg.contains("HideReason: true"));
    assert!(err_msg.contains("Message: Some(\"Spamming\")"));
}

#[test]
fn login_handshake_packet_log_classification() {
    let mut handshake = LoginHandshake::new();
    assert_eq!(handshake.accept_packet(HandshakePacket::PlayStatus { status: 0 }, "1"), HandshakeStep::Keep);
    let disconnect = DisconnectInfo { reason: 1, hide_reason: false, message: Some("Testing".to_string()) };
    assert!(matches!(
        handshake.accept_packet(HandshakePacket::Disconnect(disconnect), "1"),
        HandshakeStep::Fail(HandshakeError::Disconnected(_))
    ));
    assert_eq!(
        handshake.accept_packet(
            HandshakePacket::ServerToClientHandshake { handshake_web_token: "jwt_token".to_string() },
            "1"
        ),
        HandshakeStep::StartEncryption { handshake_web_token: "jwt_token".to_string() }
    );
}

#[test]
fn login_handshake_finishes_on_encryption_or_an_answer() {
    let mut handshake = LoginHandshake::new();
    assert_eq!(handshake.accept_packet(HandshakePacket::Other { packet_id: 9 }, "1"), HandshakeStep::Keep);
    assert!(!handshake.finished());
    assert_eq!(
        handshake.accept_packet(HandshakePacket::PlayStatus { status: 1 }, "1"),
        HandshakeStep::Fail(HandshakeError::PlayStatusFailure { status: 1 })
    );
    assert!(!handshake.finished());
    assert_eq!(handshake.accept_packet(HandshakePacket::ResourcePacksInfo, "1"), HandshakeStep::Keep);
    assert!(handshake.finished());
    assert_eq!(handshake.pending.len(), 2);
    let mut encrypted = LoginHandshake::new();
    encrypted.accept_packet(HandshakePacket::ServerToClientHandshake { handshake_web_token: "t".to_string() }, "1");
    assert!(encrypted.finished());
    assert!(encrypted.pending.is_empty());
}
