use std::time::Duration;

use torchflower::commands::{
    command_request_wire_command_with_slash_mode, fallback_rtp_command, tick_sync_step,
    validation_command_mode,
};
use torchflower::menu::{
    encode_item_stack_request_packet_stream, is_hand_droppable_placeable_runtime_id,
    is_normal_validation_placeable_drop_runtime_id, is_probably_placeable_block_item,
    menu_click_target_from_observed, normal_item_entity_rejection_reason, MenuClickMethod,
    CONTAINER_TYPE_CURSOR, SPRUCE_BUTTON_CEILING_RUNTIME_ID,
};
use torchflower::observe::{ObservedInventoryItem, Vec3Bits};
use torchflower::auth_input::{
    block_action_input_flags, encode_player_auth_input_packet_stream, RawBlockAction,
    RawPlayerAuthInput, Vec2Bits, INPUT_FLAG_MISSED_SWING, INPUT_FLAG_PERFORM_BLOCK_ACTIONS,
    INPUT_FLAG_RECEIVED_SERVER_DATA,
};
use torchflower::menu::{
    break_face_for_runtime_id, held_inventory_candidate_from_observed, is_menu_selector_item,
    normal_placeable_rejection_reason, place_geometry_for_break_target, BlockTarget,
    BLOCK_FACE_DOWN, BLOCK_FACE_UP, CONTAINER_TYPE_CONTAINER,
};
use torchflower::packets::{
    encode_command_request_packet_stream, encode_tick_sync_packet_stream,
    COMMAND_REQUEST_PACKET_ID, TICK_SYNC_PACKET_ID,
};

#[test]
fn rtp_menu_click_preserves_observed_full_container_name() {
    let item = ObservedInventoryItem {
        container_id: 1,
        slot: 13,
        item_id: 87,
        stack_id: Some(3),
        container_type: Some(0),
        dynamic_container_id: None,
        item_bytes: b"CustomName Nether Lore Click to randomly teleport".to_vec(),
    };

    let target = menu_click_target_from_observed(&item).expect("rtp menu target");
    assert_eq!(target.container_type, 0);
    assert_eq!(target.dynamic_container_id, None);
    assert_eq!(target.priority, 40);

    let stream = encode_item_stack_request_packet_stream(
        1,
        &target,
        MenuClickMethod::StandaloneObservedTake,
    );
    assert!(
        stream
            .windows(8)
            .any(|window| window == [0, 0, 13, 6, CONTAINER_TYPE_CURSOR, 0, 0, 0]),
        "observed menu click must encode source FullContainerName as type=0,dynamic_id=none"
    );
}

#[test]
fn item_stack_request_id_uses_unsigned_varint_encoding() {
    let item = ObservedInventoryItem {
        container_id: 1,
        slot: 11,
        item_id: 2,
        stack_id: Some(2),
        container_type: Some(0),
        dynamic_container_id: None,
        item_bytes: b"Name Overworld Lore Click to select region".to_vec(),
    };
    let target = menu_click_target_from_observed(&item).expect("rtp menu target");

    let stream = encode_item_stack_request_packet_stream(
        1,
        &target,
        MenuClickMethod::StandaloneObservedTake,
    );
    let packet = &stream[1..];
    assert_eq!(
        &packet[..5],
        &[0x93, 0x01, 0x01, 0x01, 0x01],
        "packet id, request-count, client-request-id, and action-count must match bedrock-rs ItemStackRequest"
    );
}

#[test]
fn rtp_command_fallback_retries_with_plain_rtp_after_overworld_timeout() {
    assert_eq!(
        fallback_rtp_command("/rtp overworld", 1).as_deref(),
        Some("/rtp")
    );
    assert_eq!(fallback_rtp_command("/rtp overworld", 2), None);
}

#[test]
fn rtp_command_fallback_retries_with_overworld_after_plain_rtp_timeout() {
    assert_eq!(
        fallback_rtp_command("/rtp", 1).as_deref(),
        Some("/rtp overworld")
    );
    assert_eq!(fallback_rtp_command("/rtp", 0), None);
}

#[test]
fn slash_validation_commands_default_to_command_request() {
    assert_eq!(validation_command_mode("/rtp", None), "command_request");
    assert_eq!(
        validation_command_mode("   /rtp overworld", None),
        "command_request"
    );
    assert_eq!(
        validation_command_mode("TorchFlower validation online", None),
        "text"
    );
}

#[test]
fn validation_command_mode_env_override_still_wins() {
    assert_eq!(
        validation_command_mode("/rtp", Some("text")),
        "text",
        "explicit text override should keep legacy chat-command behavior available"
    );
    assert_eq!(
        validation_command_mode("hello", Some("command-request")),
        "command-request"
    );
}

#[test]
fn command_request_wire_command_keeps_leading_slash_by_default() {
    assert_eq!(
        command_request_wire_command_with_slash_mode("/rtp", true),
        "/rtp"
    );
    assert_eq!(
        command_request_wire_command_with_slash_mode("rtp", true),
        "/rtp"
    );
    assert_eq!(
        command_request_wire_command_with_slash_mode("   /rtp overworld   ", true),
        "/rtp overworld"
    );
}

#[test]
fn command_request_wire_command_can_strip_leading_slash_for_servers_that_need_it() {
    assert_eq!(
        command_request_wire_command_with_slash_mode("/rtp", false),
        "rtp"
    );
    assert_eq!(
        command_request_wire_command_with_slash_mode("///rtp", false),
        "rtp"
    );
    assert_eq!(
        command_request_wire_command_with_slash_mode("rtp overworld", false),
        "rtp overworld"
    );
}

#[test]
fn tick_sync_step_matches_50ms_client_tick_units() {
    assert_eq!(tick_sync_step(Duration::from_millis(500).as_millis()), 10);
    assert_eq!(tick_sync_step(Duration::from_millis(1).as_millis()), 1);
}

#[test]
fn rtp_menu_click_attempts_prefer_observed_container_encoding() {
    assert!(matches!(
        MenuClickMethod::from_attempt(0),
        Some(MenuClickMethod::StandaloneObservedConsume)
    ));
    assert!(matches!(
        MenuClickMethod::from_attempt(1),
        Some(MenuClickMethod::PlayerAuthInputObservedConsume)
    ));
    assert!(matches!(
        MenuClickMethod::from_attempt(2),
        Some(MenuClickMethod::StandaloneObservedTake)
    ));
}

#[test]
fn observed_menu_consume_encodes_single_source_slot_without_cursor_destination() {
    let item = ObservedInventoryItem {
        container_id: 1,
        slot: 10,
        item_id: 2,
        stack_id: Some(6),
        container_type: Some(0),
        dynamic_container_id: None,
        item_bytes: b"Name Overworld Lore Click to randomly teleport NA West".to_vec(),
    };
    let target = menu_click_target_from_observed(&item).expect("rtp region menu target");

    let stream = encode_item_stack_request_packet_stream(
        7,
        &target,
        MenuClickMethod::StandaloneObservedConsume,
    );
    let packet = &stream[1..];
    assert_eq!(
        packet,
        &[
            0x93, 0x01, // ItemStackRequest packet id as unsigned varint
            0x01, // request count
            0x07, // unsigned client request id
            0x01, // action count
            0x05, // consume
            0x01, // count
            0x00, // observed FullContainerName container type
            0x00, // no dynamic id
            0x0a, // slot
            0x0c, // stack network id 6 zigzag encoded
            0x00, // strings_to_filter
            0xff, 0xff, 0xff, 0xff, // text processing origin unknown
        ],
        "consume must target only the observed menu source slot and must not add a cursor destination"
    );
}

#[test]
fn observed_modern_block_items_are_placeable_candidates_without_menu_nbt() {
    for item_id in [303, 306, 320, 343, 371, 372, 373, 374, 422] {
        assert!(
            is_probably_placeable_block_item(item_id),
            "modern Bedrock block item id {item_id} should be considered placeable"
        );
        assert_eq!(
            normal_item_entity_rejection_reason(item_id, &[0x01; 18]),
            None,
            "plain item entity {item_id} should be usable for pickup/place validation"
        );
    }
}

#[test]
fn stone_runtime_is_not_hand_droppable_placeable_target() {
    assert!(
        !is_hand_droppable_placeable_runtime_id(2532),
        "stone needs a tool and must not be used for pickup/place validation with empty hand"
    );
    assert!(is_hand_droppable_placeable_runtime_id(
        SPRUCE_BUTTON_CEILING_RUNTIME_ID
    ));
    assert!(
        !is_normal_validation_placeable_drop_runtime_id(SPRUCE_BUTTON_CEILING_RUNTIME_ID),
        "DonutSMP exposes button clusters as protected server terrain; they must not satisfy normal pickup/place validation"
    );
    assert!(is_hand_droppable_placeable_runtime_id(13114));
    assert!(is_normal_validation_placeable_drop_runtime_id(13114));
    assert!(is_hand_droppable_placeable_runtime_id(9852));
    assert!(is_normal_validation_placeable_drop_runtime_id(9852));
}

#[test]
fn observed_donutsmp_terrain_runtimes_are_validation_candidates() {
    for runtime_id in [
        3758, 10812, 12970, 22010, 24356, 25040, 26228, 27644, 27646, 27648, 27654, 27656,
        28878,
    ] {
        assert!(
            is_normal_validation_placeable_drop_runtime_id(runtime_id),
            "runtime_id {runtime_id} should be eligible for server-confirmed break/pickup/place validation"
        );
    }
    assert!(
        !is_normal_validation_placeable_drop_runtime_id(31612),
        "runtime_id 31612 failed repeated DonutSMP break confirmation and must stay excluded"
    );
    assert!(
        !is_normal_validation_placeable_drop_runtime_id(25060),
        "runtime_id 25060 failed repeated DonutSMP break confirmation and must stay excluded"
    );
    assert!(
        !is_normal_validation_placeable_drop_runtime_id(SPRUCE_BUTTON_CEILING_RUNTIME_ID),
        "protected DonutSMP button/update marker terrain remains excluded"
    );
}

fn vec3(x: f32, y: f32, z: f32) -> Vec3Bits {
    Vec3Bits {
        x: x.to_bits(),
        y: y.to_bits(),
        z: z.to_bits(),
    }
}

fn vec2(x: f32, y: f32) -> Vec2Bits {
    Vec2Bits {
        x: x.to_bits(),
        y: y.to_bits(),
    }
}

#[test]
fn raw_player_auth_input_uses_1_21_130_vec3_movement_layout() {
    let input = RawPlayerAuthInput {
        position: vec3(0.0, 64.0, 0.0),
        velocity: vec3(0.0, 0.0, 0.0),
        yaw: 0.0f32.to_bits(),
        pitch: 0.0f32.to_bits(),
        input_data: 0,
        tick: 0,
        move_vector: vec3(0.0, 0.0, 1.0),
        analog_move_vector: vec2(0.0, 1.0),
        raw_move_vector: vec2(0.0, 1.0),
        block_actions: &[],
        item_use_transaction_id: None,
        item_stack_request: None,
    };

    let stream = encode_player_auth_input_packet_stream(&input).expect("encoded input");
    assert_eq!(
        stream[0], 91,
        "packet length changed; check PlayerAuthInput layout"
    );
    assert_eq!(&stream[1..3], &[0x90, 0x01]);
}

#[test]
fn raw_player_auth_input_block_actions_use_unsigned_varint_count() {
    // Block action 0 is StartBreak.
    let actions = [RawBlockAction {
        action_id: 0,
        target: BlockTarget { x: 1, y: 2, z: 3 },
        face: BLOCK_FACE_UP,
    }];
    let input = RawPlayerAuthInput {
        position: vec3(0.0, 64.0, 0.0),
        velocity: vec3(0.0, 0.0, 0.0),
        yaw: 0.0f32.to_bits(),
        pitch: 0.0f32.to_bits(),
        input_data: INPUT_FLAG_PERFORM_BLOCK_ACTIONS,
        tick: 0,
        move_vector: vec3(0.0, 0.0, 0.0),
        analog_move_vector: vec2(0.0, 0.0),
        raw_move_vector: vec2(0.0, 0.0),
        block_actions: &actions,
        item_use_transaction_id: None,
        item_stack_request: None,
    };

    let stream = encode_player_auth_input_packet_stream(&input).expect("encoded input");
    let packet = &stream[2..];
    assert!(
        packet
            .windows(6)
            .any(|window| window == [0x01, 0x00, 0x02, 0x04, 0x06, 0x02]),
        "missing unsigned-varint block-action count/action/position/face sequence"
    );
}

#[test]
fn block_break_input_flags_do_not_mark_missed_swing() {
    let flags = block_action_input_flags();

    assert_ne!(
        flags & INPUT_FLAG_RECEIVED_SERVER_DATA,
        0,
        "block-action input must acknowledge server data"
    );
    assert_ne!(
        flags & INPUT_FLAG_PERFORM_BLOCK_ACTIONS,
        0,
        "block-action input must carry block actions"
    );
    assert_eq!(
        flags & INPUT_FLAG_MISSED_SWING,
        0,
        "block breaking should not be encoded as an air swing"
    );
}

#[test]
fn server_menu_items_are_not_placeable_candidates() {
    let item = ObservedInventoryItem {
        container_id: 1,
        slot: 13,
        item_id: 87,
        stack_id: Some(3),
        container_type: Some(CONTAINER_TYPE_CONTAINER),
        dynamic_container_id: Some(1),
        item_bytes: b"CustomName Click to randomly teleport Lore Click to select region".to_vec(),
    };

    assert!(is_menu_selector_item(&item));
    assert_eq!(
        normal_placeable_rejection_reason(item.container_id, item.item_id, &item.item_bytes),
        Some("server_ui_item")
    );
    assert!(held_inventory_candidate_from_observed(&item).is_none());
}

#[test]
fn donutsmp_spawn_hotbar_rtp_item_is_menu_not_placeable() {
    let item = ObservedInventoryItem {
        container_id: 0,
        slot: 0,
        item_id: 303,
        stack_id: Some(2),
        container_type: Some(0),
        dynamic_container_id: None,
        item_bytes: vec![0x01; 19],
    };

    let target = menu_click_target_from_observed(&item).expect("rtp fallback menu target");
    assert_eq!(target.slot, 0);
    assert_eq!(target.item_id, 303);
    assert_eq!(target.priority, 80);
    assert_eq!(
        normal_placeable_rejection_reason(item.container_id, item.item_id, &item.item_bytes),
        Some("server_ui_item")
    );
    assert!(held_inventory_candidate_from_observed(&item).is_none());
}

#[test]
fn tick_sync_packet_stream_uses_1_21_130_little_endian_i64_layout() {
    let stream = encode_tick_sync_packet_stream(42, 0);

    assert_eq!(stream.len(), 18);
    assert_eq!(
        stream[0], 17,
        "packet length should be id + two li64 fields"
    );
    assert_eq!(stream[1], TICK_SYNC_PACKET_ID as u8);
    assert_eq!(&stream[2..10], &42_i64.to_le_bytes());
    assert_eq!(&stream[10..18], &0_i64.to_le_bytes());
}

#[test]
fn command_request_uses_1_21_130_command_origin_layout() {
    let request_id = "00000000-0000-0000-0000-000000000001";
    let stream = encode_command_request_packet_stream("/rtp", request_id, 123_456_789);

    assert_eq!(
        stream[0], 78,
        "packet body length should include full 1.21.130 command origin"
    );
    assert_eq!(stream[1], COMMAND_REQUEST_PACKET_ID as u8);
    assert_eq!(&stream[2..7], &[4, b'/', b'r', b't', b'p']);
    assert_eq!(
        &stream[7..14],
        &[6, b'p', b'l', b'a', b'y', b'e', b'r'],
        "1.21.130 CommandOrigin.type is the string \"player\""
    );
    assert_eq!(
        &stream[14..30],
        &[0, 0, 0, 0, 0, 0, 0, 0, 0, 0, 0, 0, 0, 0, 0, 1]
    );
    assert_eq!(stream[30], 36);
    assert_eq!(&stream[31..67], request_id.as_bytes());
    assert_eq!(
        &stream[67..75],
        &(123_456_789_i64).to_le_bytes(),
        "1.21.130 CommandOrigin.player_entity_id is always encoded as li64"
    );
    assert_eq!(stream[75], 0, "internal=false");
    assert_eq!(&stream[76..79], &[2, b'5', b'2']);
}

#[test]
fn command_request_preserves_signed_unique_entity_id() {
    let request_id = "00000000-0000-0000-0000-000000000001";
    let player_entity_id = -12_345_678_901i64;
    let stream = encode_command_request_packet_stream("/rtp", request_id, player_entity_id);

    assert_eq!(
        &stream[67..75],
        &player_entity_id.to_le_bytes(),
        "origin.player_entity_id must be the signed StartGame actor/entity id"
    );
}

#[test]
fn player_inventory_normal_block_is_placeable_candidate() {
    let item = ObservedInventoryItem {
        container_id: 0,
        slot: 0,
        item_id: 3,
        stack_id: Some(10),
        container_type: None,
        dynamic_container_id: None,
        item_bytes: vec![0x06, 0x01, 0x00],
    };

    assert_eq!(
        normal_placeable_rejection_reason(item.container_id, item.item_id, &item.item_bytes),
        None
    );
    let held = held_inventory_candidate_from_observed(&item).expect("normal block candidate");
    assert_eq!(held.container_id, 0);
    assert_eq!(held.slot, 0);
    assert_eq!(held.item_id, 3);
}

#[test]
fn player_inventory_utility_item_is_not_placeable_candidate() {
    let item = ObservedInventoryItem {
        container_id: 0,
        slot: 1,
        item_id: 343,
        stack_id: Some(3),
        container_type: None,
        dynamic_container_id: None,
        item_bytes: vec![0x01; 37],
    };

    assert_eq!(
        normal_placeable_rejection_reason(item.container_id, item.item_id, &item.item_bytes),
        Some("server_ui_item")
    );
    assert!(held_inventory_candidate_from_observed(&item).is_none());
}

#[test]
fn ceiling_button_runtime_places_against_block_above() {
    let target = BlockTarget {
        x: -16_252,
        y: 42,
        z: 27_466,
    };
    let geometry = place_geometry_for_break_target(target, Some(SPRUCE_BUTTON_CEILING_RUNTIME_ID));

    assert_eq!(
        geometry.base,
        BlockTarget {
            x: target.x,
            y: target.y + 1,
            z: target.z,
        }
    );
    assert_eq!(geometry.result, target);
    assert_eq!(geometry.face, BLOCK_FACE_DOWN);
    assert_eq!(
        (
            f32::from_bits(geometry.click_pos.x),
            f32::from_bits(geometry.click_pos.y),
            f32::from_bits(geometry.click_pos.z)
        ),
        (0.5, 0.0, 0.5)
    );
    assert_eq!(
        break_face_for_runtime_id(Some(SPRUCE_BUTTON_CEILING_RUNTIME_ID)),
        BLOCK_FACE_DOWN
    );
    assert_eq!(break_face_for_runtime_id(Some(9852)), BLOCK_FACE_UP);
}

#[test]
fn normal_block_runtime_places_back_into_broken_target() {
    let target = BlockTarget {
        x: -16_259,
        y: 47,
        z: 27_469,
    };
    let geometry = place_geometry_for_break_target(target, Some(26228));

    assert_eq!(
        geometry.base,
        BlockTarget {
            x: target.x,
            y: target.y - 1,
            z: target.z,
        }
    );
    assert_eq!(geometry.result, target);
    assert_eq!(geometry.face, BLOCK_FACE_UP);
    assert_eq!(
        (
            f32::from_bits(geometry.click_pos.x),
            f32::from_bits(geometry.click_pos.y),
            f32::from_bits(geometry.click_pos.z)
        ),
        (0.5, 1.0, 0.5)
    );
}
