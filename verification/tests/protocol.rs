use torchflower::batch::{filter_locally_decoded_packets, observe_packet_ids};
use torchflower::candidates::{loose_text_candidates, prioritize_command_text_candidates};
use torchflower::chunk::{find_previous_subchunk_start, CHUNK_AIR_RUNTIME_ID};
use torchflower::names::play_status_to_string;
use torchflower::observe::ObservedPacket;
use torchflower::soft_enum::{TorchFlowerSoftEnumAction, TorchFlowerUpdateSoftEnumPacket};
use torchflower::varint::{write_unsigned_varint_u32, write_unsigned_varint_u64};
use torchflower::wire::read_packet_summary;
use torchflower::names::bedrock_packet_name;
use torchflower::packets::{encode_network_stack_latency_payload, network_stack_latency_response_timestamp};

#[test]
fn early_disconnect_error_message_formatting() {
    let protocol_ver = 999;
    let codec_protocol_ver = 898;
    let reason = 2;
    let hide_reason = false;
    let message = Some("Banned".to_string());

    let err_msg = format!(
        "server did not return NetworkSettingsPacket; received early Disconnect before NetworkSettings. \
         protocol_version={}. codec_protocol_version={}. reason={}. hide_reason={}. message={:?}. \
         This usually means unsupported protocol version, invalid RequestNetworkSettings encoding/framing, or server rejected the client before login.",
        protocol_ver, codec_protocol_ver, reason, hide_reason, message
    );

    assert!(err_msg.contains("protocol_version=999"));
    assert!(err_msg.contains("codec_protocol_version=898"));
    assert!(err_msg.contains("reason=2"));
    assert!(err_msg.contains("hide_reason=false"));
    assert!(err_msg.contains("message=Some(\"Banned\")"));
}

#[test]
fn registry_names_modern_command_and_sound_packets() {
    assert_eq!(bedrock_packet_name(0x4d), "command_request");
    assert_eq!(bedrock_packet_name(0x4f), "command_output");
    assert_eq!(bedrock_packet_name(0x56), "play_sound");
    assert_eq!(bedrock_packet_name(0x57), "stop_sound");
    assert_eq!(bedrock_packet_name(0xa0), "player_fog");
}

#[test]
fn network_stack_latency_response_scales_small_timestamp_as_le_payload() {
    let incoming = 2_687_948u64;
    let response = network_stack_latency_response_timestamp(incoming);
    assert_eq!(response, 2_687_948_000_000);

    let payload = encode_network_stack_latency_payload(response, false);
    let mut expected = Vec::new();
    expected.extend_from_slice(&2_687_948_000_000u64.to_le_bytes());
    expected.push(0);
    assert_eq!(payload, expected);
}

#[test]
fn network_stack_latency_response_scales_observed_valid_run_timestamp() {
    let incoming = 879_042u64;
    let response = network_stack_latency_response_timestamp(incoming);
    assert_eq!(response, 879_042_000_000);

    let payload = encode_network_stack_latency_payload(response, false);
    let mut expected = Vec::new();
    expected.extend_from_slice(&879_042_000_000u64.to_le_bytes());
    expected.push(0);
    assert_eq!(payload, expected);
}

#[test]
fn network_stack_latency_response_wraps_large_timestamp_bits() {
    let incoming = 18_446_744_073_706_980_378u64;
    let response = network_stack_latency_response_timestamp(incoming);
    assert_eq!(response, incoming.wrapping_mul(1_000_000));

    let payload = encode_network_stack_latency_payload(response, false);
    let mut expected = Vec::new();
    expected.extend_from_slice(&incoming.wrapping_mul(1_000_000).to_le_bytes());
    expected.push(0);
    assert_eq!(payload, expected);
}

#[test]
fn level_chunk_subchunk_recovery_finds_expected_geyser_header() {
    let context = [
        0x86, 0xba, 0x01, 0xea, 0xd8, 0x01, 0x09, 0x01, 0xfd, 0x07, 0x92, 0x24, 0x49, 0x12,
        0x92, 0x24, 0x49, 0x12,
    ];
    let recovered = find_previous_subchunk_start(&context, 16, Some(-3));
    assert_eq!(recovered, Some(6));
    assert_eq!(find_previous_subchunk_start(&context, 16, Some(-2)), None);
}

fn append_test_packet(stream: &mut Vec<u8>, packet_id: u32, payload: &[u8]) {
    let mut packet = Vec::new();
    write_unsigned_varint_u32(packet_id, &mut packet);
    packet.extend_from_slice(payload);
    write_unsigned_varint_u32(packet.len() as u32, stream);
    stream.extend_from_slice(&packet);
}

fn write_test_zigzag_i32(value: i32, out: &mut Vec<u8>) {
    let encoded = ((value << 1) ^ (value >> 31)) as u32;
    write_unsigned_varint_u32(encoded, out);
}

fn write_test_zigzag_i64(value: i64, out: &mut Vec<u8>) {
    let encoded = ((value << 1) ^ (value >> 63)) as u64;
    write_unsigned_varint_u64(encoded, out);
}

#[test]
fn packet_summary_reads_bedrock_batch_packets() {
    let mut stream = Vec::new();
    append_test_packet(&mut stream, 0x02, &[3, 0, 0, 0]);
    append_test_packet(&mut stream, 0x0b, &[0xaa, 0xbb, 0xcc]);

    let mut offset = 0usize;
    let first = read_packet_summary(&stream, &mut offset)
        .expect("first summary")
        .expect("first packet");
    assert_eq!(first.packet_id, 0x02);
    assert_eq!(first.payload_len, 4);
    assert_eq!(bedrock_packet_name(first.packet_id), "play_status");

    let second = read_packet_summary(&stream, &mut offset)
        .expect("second summary")
        .expect("second packet");
    assert_eq!(second.packet_id, 0x0b);
    assert_eq!(second.payload_len, 3);
    assert_eq!(bedrock_packet_name(second.packet_id), "start_game");

    assert!(read_packet_summary(&stream, &mut offset).unwrap().is_none());
}

#[test]
fn loose_text_candidates_extract_command_diagnostics() {
    let mut packet = Vec::new();
    write_unsigned_varint_u32(0x4f, &mut packet);
    let payload_offset = packet.len();
    packet.extend_from_slice(&[0xff, 0x00, 0x7f]);
    write_unsigned_varint_u32(3, &mut packet);
    packet.extend_from_slice(b"rtp");
    let message = b"Unknown command: rtp is not available here";
    write_unsigned_varint_u32(message.len() as u32, &mut packet);
    packet.extend_from_slice(message);
    packet.extend_from_slice(&[0x80, 0x80, 0x80, 0x80, 0x80]);

    let candidates = loose_text_candidates(&packet, payload_offset);
    assert!(candidates.iter().any(|candidate| candidate == "rtp"));
    assert!(candidates
        .iter()
        .any(|candidate| candidate == "Unknown command: rtp is not available here"));

    let prioritized = prioritize_command_text_candidates(&candidates);
    assert!(prioritized.iter().any(|candidate| candidate == "rtp"));
    assert!(prioritized
        .iter()
        .any(|candidate| candidate.contains("Unknown command")));
}

#[test]
fn observe_packet_ids_uses_same_batch_parser() {
    let mut stream = Vec::new();
    append_test_packet(&mut stream, 0x02, &[3, 0, 0, 0]);
    append_test_packet(&mut stream, 0x73, &[1, 0, 0, 0, 0, 0, 0, 0, 1]);

    let observed = observe_packet_ids(&stream).expect("observed packets");
    assert!(matches!(observed[0], ObservedPacket::PlayStatus(Some(3))));
    assert!(matches!(
        observed[1],
        ObservedPacket::NetworkStackLatency {
            timestamp: 1,
            needs_response: true
        }
    ));
}

#[test]
fn raw_start_game_observation_preserves_entity_and_runtime_ids() {
    let mut payload = Vec::new();
    write_test_zigzag_i64(-99, &mut payload);
    write_unsigned_varint_u64(1234, &mut payload);
    write_unsigned_varint_u32(1, &mut payload);
    payload.extend_from_slice(&10.0f32.to_le_bytes());
    payload.extend_from_slice(&64.0f32.to_le_bytes());
    payload.extend_from_slice(&20.0f32.to_le_bytes());
    payload.extend_from_slice(&90.0f32.to_le_bytes());
    payload.extend_from_slice(&15.0f32.to_le_bytes());

    let mut stream = Vec::new();
    append_test_packet(&mut stream, 0x0b, &payload);
    let observed = observe_packet_ids(&stream).expect("observed packets");
    let ObservedPacket::StartGame(Some(start_game)) = &observed[0] else {
        panic!("expected raw StartGame observation");
    };

    assert_eq!(start_game.entity_id, -99);
    assert_eq!(start_game.runtime_id, 1234);
    assert_eq!(
        (
            f32::from_bits(start_game.position.x),
            f32::from_bits(start_game.position.y),
            f32::from_bits(start_game.position.z)
        ),
        (10.0, 64.0, 20.0)
    );
    assert_eq!(
        (
            f32::from_bits(start_game.rotation.pitch),
            f32::from_bits(start_game.rotation.yaw)
        ),
        (90.0, 15.0)
    );
}

#[test]
fn network_stack_latency_payload_body_is_exactly_nine_bytes() {
    let response = network_stack_latency_response_timestamp(2_687_948);
    let payload = encode_network_stack_latency_payload(response, false);
    assert_eq!(payload.len(), 9);
    assert_eq!(&payload[..8], &response.to_le_bytes());
    assert_eq!(payload[8], 0);
}

#[test]
fn update_soft_enum_uses_varint_options_and_u8_action() {
    let packet = TorchFlowerUpdateSoftEnumPacket {
        enum_name: "commands".to_string(),
        options: vec!["spawn".to_string(), "home".to_string()],
        action_type: TorchFlowerSoftEnumAction::Update,
    };
    let mut payload = Vec::new();
    packet.serialize(&mut payload);

    let mut expected = Vec::new();
    expected.extend_from_slice(&[8]);
    expected.extend_from_slice(b"commands");
    expected.extend_from_slice(&[2]);
    expected.extend_from_slice(&[5]);
    expected.extend_from_slice(b"spawn");
    expected.extend_from_slice(&[4]);
    expected.extend_from_slice(b"home");
    expected.push(2);
    assert_eq!(payload, expected);

    let mut bedrock_packet = Vec::new();
    write_unsigned_varint_u32(0x72, &mut bedrock_packet);
    let payload_offset = bedrock_packet.len();
    bedrock_packet.extend_from_slice(&payload);

    let decoded =
        TorchFlowerUpdateSoftEnumPacket::deserialize(&bedrock_packet, payload_offset).unwrap();
    assert_eq!(decoded, packet);
}

#[test]
fn update_soft_enum_filter_removes_packet_before_upstream_decode() {
    let packet = TorchFlowerUpdateSoftEnumPacket {
        enum_name: "commands".to_string(),
        options: vec!["spawn".to_string()],
        action_type: TorchFlowerSoftEnumAction::Add,
    };
    let mut soft_enum_payload = Vec::new();
    packet.serialize(&mut soft_enum_payload);

    let mut stream = Vec::new();
    append_test_packet(&mut stream, 0x02, &[3, 0, 0, 0]);
    append_test_packet(&mut stream, 0x72, &soft_enum_payload);
    append_test_packet(&mut stream, 0x09, &[0]);

    let (filtered, local_observed) = filter_locally_decoded_packets(&stream).unwrap();
    assert_eq!(local_observed.len(), 1);
    assert!(matches!(local_observed[0], ObservedPacket::UpdateSoftEnum));
    let observed = observe_packet_ids(&filtered).unwrap();
    assert_eq!(observed.len(), 2);
    assert!(matches!(observed[0], ObservedPacket::PlayStatus(Some(3))));
    assert!(matches!(observed[1], ObservedPacket::Text(_)));
}

#[test]
fn network_chunk_publisher_update_observation_reads_position_radius() {
    let mut payload = Vec::new();
    write_test_zigzag_i32(-116_096, &mut payload);
    write_test_zigzag_i32(79, &mut payload);
    write_test_zigzag_i32(-159_776, &mut payload);
    write_unsigned_varint_u32(64, &mut payload);
    payload.extend_from_slice(&0u32.to_le_bytes());

    let mut stream = Vec::new();
    append_test_packet(&mut stream, 0x79, &payload);
    let observed = observe_packet_ids(&stream).expect("observed packets");

    assert!(matches!(
        observed[0],
        ObservedPacket::NetworkChunkPublisherUpdate {
            x: -116_096,
            y: 79,
            z: -159_776,
            radius: 64
        }
    ));
}

fn one_bit_subchunk(raw_payload: &mut Vec<u8>, layers: u8) {
    raw_payload.push(9); // subchunk version
    raw_payload.push(layers); // layer count
    raw_payload.push(4); // subchunk y index, base y = 64
    raw_payload.push((1 << 1) | 1); // 1 bit per index, runtime palette
    let mut words = vec![0u32; 128];
    let block_index = 15 + 16 + 256; // local x=1,z=1,y=15 in YZX order
    words[block_index / 32] |= 1 << (block_index % 32);
    for word in words {
        raw_payload.extend_from_slice(&word.to_le_bytes());
    }
    write_unsigned_varint_u32(2, raw_payload);
    write_unsigned_varint_u32(CHUNK_AIR_RUNTIME_ID, raw_payload);
    write_unsigned_varint_u32(9852, raw_payload);
}

fn level_chunk_stream(chunk_x: i32, chunk_z: i32, sub_chunk_count: u32, raw_payload: &[u8]) -> Vec<u8> {
    let mut payload = Vec::new();
    write_test_zigzag_i32(chunk_x, &mut payload);
    write_test_zigzag_i32(chunk_z, &mut payload);
    write_test_zigzag_i32(0, &mut payload);
    write_unsigned_varint_u32(sub_chunk_count, &mut payload);
    payload.push(0); // cache disabled
    write_unsigned_varint_u32(raw_payload.len() as u32, &mut payload);
    payload.extend_from_slice(raw_payload);

    let mut stream = Vec::new();
    append_test_packet(&mut stream, 0x3a, &payload);
    stream
}

#[test]
fn level_chunk_observation_samples_runtime_paletted_subchunk_blocks() {
    let chunk_x = -7256;
    let chunk_z = -9987;
    let mut raw_payload = Vec::new();
    one_bit_subchunk(&mut raw_payload, 1);

    let stream = level_chunk_stream(chunk_x, chunk_z, 1, &raw_payload);
    let observed = observe_packet_ids(&stream).expect("observed packets");

    let ObservedPacket::LevelChunk { samples, .. } = &observed[0] else {
        panic!("expected level chunk observation");
    };
    assert!(samples.iter().any(|sample| {
        sample.x == chunk_x * 16 + 1
            && sample.y == 79
            && sample.z == chunk_z * 16 + 1
            && sample.runtime_id == 9852
    }));
}

#[test]
fn level_chunk_observation_keeps_samples_when_payload_reaches_trailing_storage() {
    let chunk_x = -7510;
    let chunk_z = -1501;
    let mut raw_payload = Vec::new();
    one_bit_subchunk(&mut raw_payload, 1);
    raw_payload.push(0x11); // trailing biome/storage data, not a terrain subchunk version.

    let stream = level_chunk_stream(chunk_x, chunk_z, 2, &raw_payload);
    let observed = observe_packet_ids(&stream).expect("observed packets");

    let ObservedPacket::LevelChunk { samples, .. } = &observed[0] else {
        panic!("expected level chunk observation");
    };
    assert!(samples.iter().any(|sample| {
        sample.x == chunk_x * 16 + 1
            && sample.y == 79
            && sample.z == chunk_z * 16 + 1
            && sample.runtime_id == 9852
    }));
}

#[test]
fn level_chunk_observation_decodes_singleton_storage_without_palette_length() {
    let chunk_x = -2268;
    let chunk_z = -8658;
    let mut raw_payload = Vec::new();
    one_bit_subchunk(&mut raw_payload, 2);
    raw_payload.push(1); // V0 singleton runtime palette; no palette length is encoded.
    write_unsigned_varint_u32(CHUNK_AIR_RUNTIME_ID, &mut raw_payload);

    raw_payload.push(9); // next subchunk must start exactly here.
    raw_payload.push(1);
    raw_payload.push(5); // base y = 80
    raw_payload.push(1); // V0 singleton runtime palette.
    write_unsigned_varint_u32(9877, &mut raw_payload);

    let stream = level_chunk_stream(chunk_x, chunk_z, 2, &raw_payload);
    let observed = observe_packet_ids(&stream).expect("observed packets");

    let ObservedPacket::LevelChunk { samples, .. } = &observed[0] else {
        panic!("expected level chunk observation");
    };
    assert!(samples.iter().any(|sample| {
        sample.x == chunk_x * 16 + 1
            && sample.y == 79
            && sample.z == chunk_z * 16 + 1
            && sample.runtime_id == 9852
    }));
    assert!(samples.iter().any(|sample| {
        sample.x == chunk_x * 16 + 1
            && sample.y == 95
            && sample.z == chunk_z * 16 + 1
            && sample.runtime_id == 9877
    }));
}

#[test]
fn play_status_string_representation() {
    assert_eq!(play_status_to_string(0), "LoginSuccess");
    assert_eq!(play_status_to_string(1), "FailedClient (outdated client)");
    assert_eq!(play_status_to_string(2), "FailedServer (outdated server)");
    assert_eq!(play_status_to_string(3), "PlayerSpawn");
    assert_eq!(play_status_to_string(4), "InvalidTenant");
    assert_eq!(play_status_to_string(5), "EditionMismatchEduToVanilla");
    assert_eq!(play_status_to_string(6), "EditionMismatchVanillaToEdu");
    assert_eq!(play_status_to_string(7), "FailedMaxPlayers");
    assert_eq!(play_status_to_string(8), "FailedServerFull");
    assert_eq!(play_status_to_string(99), "Unknown");
}

#[test]
fn login_handshake_play_status_failure_formatting() {
    let status = 1;
    let status_str = play_status_to_string(status);
    let err_msg = format!(
        "Server returned PlayStatus failure: {} ({})",
        status, status_str
    );
    assert!(err_msg.contains("PlayStatus failure"));
    assert!(err_msg.contains("FailedClient (outdated client)"));
}
