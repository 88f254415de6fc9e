use torchflower::client::{
    expect_network_settings, frame_game_packet, game_step, native_chain_json, read_game_packet_header,
    request_network_settings_frame, ClientPacket, ClientReply, JoinProgress, JoinStep, UnexpectedPacket,
};

#[test]
fn game_packets_are_framed_with_header_length_and_id() {
    assert_eq!(frame_game_packet(0x01, &[1, 2, 3]), vec![0xfe, 4, 0x01, 1, 2, 3]);
    assert_eq!(request_network_settings_frame(898), vec![0xfe, 5, 0xc1, 0x01, 0x00, 0x00, 0x03, 0x82]);
}

#[test]
fn framed_header_reads_back() {
    let frame = frame_game_packet(0xc2, &[9, 9]);
    assert_eq!(read_game_packet_header(&frame), Some((3, 0xc2, 4)));
    assert_eq!(read_game_packet_header(&[3, 0x02, 7]), Some((3, 2, 2)));
    assert_eq!(read_game_packet_header(&[0xfe]), None);
    assert_eq!(read_game_packet_header(&[]), None);
}

#[test]
fn join_requires_network_settings_first() {
    assert_eq!(expect_network_settings(0xc2), Ok(()));
    assert_eq!(expect_network_settings(0x05), Err(UnexpectedPacket { packet_id: 0x05 }));
}

#[test]
fn offline_chain_names_the_user() {
    assert_eq!(native_chain_json("Steve"), "{\"chain\":[\"Steve\"]}");
}

#[test]
fn join_answers_packs_and_initializes_on_start_game() {
    let mut join = JoinProgress::new();
    assert_eq!(join.accept(&ClientPacket::PlayStatus { status: 1 }), JoinStep::Continue);
    assert!(!join.play_status_received);
    assert_eq!(join.accept(&ClientPacket::PlayStatus { status: 0 }), JoinStep::Continue);
    assert!(join.play_status_received);
    assert_eq!(
        join.accept(&ClientPacket::ResourcePacksInfo),
        JoinStep::Reply(ClientReply::ResourcePackClientResponse { response_status: 3 })
    );
    assert_eq!(
        join.accept(&ClientPacket::ResourcePackStack),
        JoinStep::Reply(ClientReply::ResourcePackClientResponse { response_status: 4 })
    );
    assert!(join.resource_packs_received && join.resource_stack_received);
    assert_eq!(join.accept(&ClientPacket::Other { packet_id: 0x2e }), JoinStep::Continue);
    assert_eq!(
        join.accept(&ClientPacket::StartGame { target_runtime_id: 77 }),
        JoinStep::Joined(ClientReply::SetLocalPlayerAsInitialized { runtime_entity_id: 77 })
    );
    assert_eq!(
        join.accept(&ClientPacket::Disconnect { message: Some("bye".to_string()) }),
        JoinStep::Disconnected(Some("bye".to_string()))
    );
}

#[test]
fn in_game_latency_probes_are_echoed_and_text_is_passed_on() {
    let echoed = game_step(&ClientPacket::NetworkStackLatency { timestamp: 42, needs_response: true });
    assert_eq!(echoed.reply, Some(ClientReply::NetworkStackLatency { timestamp: 42, needs_response: false }));
    assert_eq!(echoed.text, None);
    let quiet = game_step(&ClientPacket::NetworkStackLatency { timestamp: 42, needs_response: false });
    assert_eq!(quiet.reply, None);
    let text = game_step(&ClientPacket::Text { source_name: "Alex".to_string(), message: "hi".to_string() });
    assert_eq!(text.text, Some(("Alex".to_string(), "hi".to_string())));
    assert_eq!(text.reply, None);
}
