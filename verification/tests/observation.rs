use torchflower::batch::{
    count_packet_summaries, filter_locally_decoded_packets,
    merge_locally_observed_with_raw_keepalives, observe_packet_ids, BatchError,
};
use torchflower::boundary::{decode_set_score_boundary, decode_update_abilities_boundary, trace_known_packet_impl};
use torchflower::candidates::{
    is_command_name_candidate, is_loose_packet_text_candidate, prioritize_command_text_candidates,
    sanitize_log_text,
};
use torchflower::diagnostics::{compression_name, hex_dump, observed_packet_label, observed_packet_summary};
use torchflower::compression::Compression;
use torchflower::observe::ObservedPacket;
use torchflower::packets::encode_network_stack_latency_packet_stream;
use torchflower::soft_enum::SoftEnumError;
use torchflower::start_game::{
    read_start_game_observation, read_start_game_policy_observation, trace_start_game_packet,
    StartGameError, StartGameFailure,
};
use torchflower::varint::write_unsigned_varint_u32;
use torchflower::wire::{read_packet_summary, FrameError, TraceError};

fn append_packet(stream: &mut Vec<u8>, packet_id: u32, payload: &[u8]) {
    let mut packet = Vec::new();
    write_unsigned_varint_u32(packet_id, &mut packet);
    packet.extend_from_slice(payload);
    write_unsigned_varint_u32(packet.len() as u32, stream);
    stream.extend_from_slice(&packet);
}

/// A StartGame packet whose payload is all zeros (every count and string
/// empty), with the three policy flags set.
fn zero_start_game(payload_len: usize) -> Vec<u8> {
    let mut packet = vec![0x0b];
    let mut payload = vec![0u8; payload_len];
    for flag in [102usize, 112, 152] {
        if flag < payload_len {
            payload[flag] = 1;
        }
    }
    packet.extend_from_slice(&payload);
    packet
}

#[test]
fn start_game_trace_walks_every_field() {
    let packet = zero_start_game(154);
    assert_eq!(trace_start_game_packet(&packet, 1), Ok(155));
    let policy = read_start_game_policy_observation(&packet, 1).expect("policy");
    assert!(policy.disable_player_interactions);
    assert!(policy.server_authoritative_block_breaking);
    assert!(policy.block_network_ids_are_hashes);
    assert_eq!(policy.block_property_count, 0);

    let observed = read_start_game_observation(&packet, 1).expect("observation");
    assert_eq!(observed.entity_id, 0);
    assert_eq!(observed.runtime_id, 0);
    assert_eq!(observed.disable_player_interactions, Some(true));
    assert_eq!(observed.block_property_count, Some(0));
}

#[test]
fn start_game_trace_names_the_field_where_it_stops() {
    let packet = zero_start_game(153);
    assert_eq!(
        trace_start_game_packet(&packet, 1),
        Err(StartGameFailure {
            field: "server_controlled_sound",
            error: StartGameError::NeedBytes(1),
        })
    );
    assert!(read_start_game_policy_observation(&packet, 1).is_some());

    let short = zero_start_game(5);
    assert_eq!(
        trace_start_game_packet(&short, 1),
        Err(StartGameFailure {
            field: "player_position",
            error: StartGameError::NeedBytes(12),
        })
    );
    assert!(read_start_game_policy_observation(&short, 1).is_none());
    assert!(read_start_game_observation(&short, 1).is_none());
}

#[test]
fn start_game_rejects_unknown_gamerule_type() {
    let mut packet = zero_start_game(154);
    // The game rule count sits after the first 31 fields (65 bytes).
    let rules_at = 1 + 65;
    let mut rule = vec![1u8]; // one rule
    rule.push(0); // empty name
    rule.push(0); // not editable
    rule.push(9); // unknown type
    packet.splice(rules_at..rules_at + 1, rule);
    assert_eq!(
        trace_start_game_packet(&packet, 1),
        Err(StartGameFailure {
            field: "gamerules.type",
            error: StartGameError::UnknownGameruleType(9),
        })
    );
}

#[test]
fn batch_counts_packets_and_reports_framing_errors() {
    let mut stream = Vec::new();
    append_packet(&mut stream, 0x02, &[3, 0, 0, 0]);
    append_packet(&mut stream, 0x06, &[]);
    assert_eq!(count_packet_summaries(&stream), Ok(2));
    stream.push(0x09); // a length prefix with too few bytes behind it
    assert_eq!(
        count_packet_summaries(&stream),
        Err(FrameError::PacketTooLong {
            packet_len: 9,
            remaining: 0
        })
    );
    assert_eq!(count_packet_summaries(&[]), Ok(0));
}

#[test]
fn encoded_keepalive_is_observed_back() {
    let stream = encode_network_stack_latency_packet_stream(0x0102_0304_0506_0708, true);
    let observed = observe_packet_ids(&stream).unwrap();
    assert_eq!(observed.len(), 1);
    assert!(matches!(
        observed[0],
        ObservedPacket::NetworkStackLatency {
            timestamp: 0x0102_0304_0506_0708,
            needs_response: true
        }
    ));
}

#[test]
fn filtered_batch_frames_the_remaining_packets_again() {
    let mut stream = Vec::new();
    append_packet(&mut stream, 0x06, &[]);
    append_packet(&mut stream, 0x07, &[1, 2]);
    let (filtered, local) = filter_locally_decoded_packets(&stream).unwrap();
    assert_eq!(filtered, stream);
    assert!(local.is_empty());
}

#[test]
fn soft_enum_that_does_not_decode_fails_the_filter() {
    let mut stream = Vec::new();
    append_packet(&mut stream, 0x72, &[0x80]);
    assert_eq!(
        filter_locally_decoded_packets(&stream).unwrap_err(),
        BatchError::SoftEnum(SoftEnumError::InvalidStringLength)
    );
}

#[test]
fn raw_keepalives_follow_local_observations() {
    let raw = vec![
        ObservedPacket::ModalFormRequest,
        ObservedPacket::NetworkStackLatency {
            timestamp: 5,
            needs_response: false,
        },
        ObservedPacket::Other(3),
        ObservedPacket::NetworkStackLatency {
            timestamp: 6,
            needs_response: true,
        },
    ];
    let merged = merge_locally_observed_with_raw_keepalives(raw, vec![ObservedPacket::UpdateSoftEnum]);
    assert_eq!(merged.len(), 3);
    assert!(matches!(merged[0], ObservedPacket::UpdateSoftEnum));
    assert!(matches!(
        merged[1],
        ObservedPacket::NetworkStackLatency { timestamp: 5, .. }
    ));
    assert!(matches!(
        merged[2],
        ObservedPacket::NetworkStackLatency { timestamp: 6, .. }
    ));
}

#[test]
fn known_packet_boundaries_are_traced() {
    let mut stream = Vec::new();
    append_packet(&mut stream, 0x3b, &[0x01]);
    let mut offset = 0;
    let summary = read_packet_summary(&stream, &mut offset).unwrap().unwrap();
    assert_eq!(
        trace_known_packet_impl(&summary),
        Some(("set_commands_enabled", Ok(2)))
    );

    let mut unknown = Vec::new();
    append_packet(&mut unknown, 0x02, &[0, 0, 0, 0]);
    let mut offset = 0;
    let summary = read_packet_summary(&unknown, &mut offset).unwrap().unwrap();
    assert_eq!(trace_known_packet_impl(&summary), None);
}

#[test]
fn set_score_boundary_checks_action_and_entries() {
    // Action 2 with one entry: id, empty name, score, then the unknown action.
    let packet = [2u8, 1, 7, 0, 0, 0, 0, 0];
    let mut offset = 0;
    assert_eq!(
        decode_set_score_boundary(&packet, &mut offset),
        Err(TraceError::Unknown("unknown set_score action", 2))
    );
    // Action 1 (remove) with no entries ends right after the count.
    let packet = [1u8, 0];
    let mut offset = 0;
    assert_eq!(decode_set_score_boundary(&packet, &mut offset), Ok(()));
    assert_eq!(offset, 2);
    let mut offset = 0;
    assert_eq!(
        decode_set_score_boundary(&[], &mut offset),
        Err(TraceError::Invalid("missing set_score action"))
    );
}

#[test]
fn update_abilities_boundary_skips_each_layer() {
    let mut packet = vec![0u8; 10];
    packet.push(2); // two layers
    packet.extend_from_slice(&[0u8; 22 * 2]);
    let mut offset = 0;
    assert_eq!(decode_update_abilities_boundary(&packet, &mut offset), Ok(()));
    assert_eq!(offset, packet.len());
    packet.pop();
    let mut offset = 0;
    assert_eq!(
        decode_update_abilities_boundary(&packet, &mut offset),
        Err(TraceError::NeedBytes(4))
    );
}

#[test]
fn loose_candidate_predicates_follow_their_rules() {
    assert!(is_loose_packet_text_candidate("ok"));
    assert!(!is_loose_packet_text_candidate("a"));
    assert!(!is_loose_packet_text_candidate("12"));
    assert!(!is_loose_packet_text_candidate("a\u{1}b"));
    assert!(is_loose_packet_text_candidate("a\nb"));
    assert!(!is_loose_packet_text_candidate(&"x".repeat(161)));
    assert!(is_command_name_candidate("//rtp"));
    assert!(is_command_name_candidate("minecraft:tp"));
    assert!(!is_command_name_candidate("/r"));
    assert!(!is_command_name_candidate("two words"));
}

#[test]
fn prioritized_candidates_fall_back_to_command_names() {
    let candidates = vec![
        "home".to_string(),
        "Hello there".to_string(),
        "warp".to_string(),
    ];
    assert_eq!(
        prioritize_command_text_candidates(&candidates),
        vec!["home".to_string(), "warp".to_string()]
    );
    let candidates = vec!["Teleporting...".to_string(), "home".to_string()];
    assert_eq!(
        prioritize_command_text_candidates(&candidates),
        vec!["Teleporting...".to_string()]
    );
}

#[test]
fn sanitized_log_text_is_one_short_line() {
    assert_eq!(sanitize_log_text("  a\r\n b\tc\u{7}d  "), "a b c d");
    let long = "y".repeat(130);
    assert_eq!(sanitize_log_text(&long), format!("{}...", "y".repeat(120)));
}

#[test]
fn packet_summaries_and_dumps_are_formatted() {
    assert_eq!(hex_dump(&[0x0a, 0xff, 0x00]), "0a ff 00");
    assert_eq!(hex_dump(&[]), "");
    assert_eq!(compression_name(None), "none");
    assert_eq!(
        compression_name(Some(&Compression::Snappy { threshold: 1 })),
        "snappy"
    );
    assert_eq!(observed_packet_label(&ObservedPacket::Other(42)), "other(42)");
    assert_eq!(
        observed_packet_label(&ObservedPacket::RegistryKnown(0x4d)),
        "command_request"
    );
    let observed = vec![
        ObservedPacket::PlayStatus(None),
        ObservedPacket::Other(7),
        ObservedPacket::PlayStatus(Some(3)),
    ];
    assert_eq!(observed_packet_summary(&observed), "other(7)=1 play_status=2");
    assert_eq!(observed_packet_summary(&[]), "none");
}
