use torchflower::gameplay::{
    after_target_failure, cache_observed_held_inventory_candidate, is_post_spawn_decode_error,
    movement_start_delay_millis, next_tick_sync_request_time, observed_contains_progress,
    should_click_rtp_menu, should_close_rtp_container, tick_sync_interval_millis, update_block_evidence,
    validation_duration_env_millis_allow_zero, validation_duration_env_seconds, RtpMenuState,
    TargetFailureOutcome, TickSyncClock, RTP_MENU_CLICK_WAIT_SECONDS,
};
use torchflower::menu::{BlockTarget, HeldInventoryItem, OBSERVED_AIR_RUNTIME_ID};
use torchflower::observe::{ObservedInventoryItem, ObservedPacket};

#[test]
fn progress_is_any_login_milestone() {
    assert!(!observed_contains_progress(&[]));
    assert!(!observed_contains_progress(&[ObservedPacket::Other(5), ObservedPacket::UpdateSoftEnum]));
    assert!(observed_contains_progress(&[ObservedPacket::Other(5), ObservedPacket::ResourcePackStack]));
    assert!(observed_contains_progress(&[ObservedPacket::PlayStatus(Some(0))]));
    assert!(observed_contains_progress(&[ObservedPacket::ItemStackResponse { responses: Vec::new() }]));
}

#[test]
fn switches_read_truthy_words() {
    assert!(!should_close_rtp_container(None));
    assert!(should_click_rtp_menu(None));
    assert!(should_close_rtp_container(Some(" YES ")));
    assert!(should_close_rtp_container(Some("on")));
    assert!(should_close_rtp_container(Some("1")));
    assert!(!should_click_rtp_menu(Some("0")));
    assert!(!should_click_rtp_menu(Some("enabled")));
    assert!(should_click_rtp_menu(Some("True")));
}

#[test]
fn post_spawn_decode_errors_are_recognised() {
    assert!(is_post_spawn_decode_error("bedrock error: decrypt packet batch: encrypted packet is too short"));
    assert!(is_post_spawn_decode_error("decode packet batch: bad varint"));
    assert!(is_post_spawn_decode_error("Encrypted data trailer invalid"));
    assert!(!is_post_spawn_decode_error("connection reset"));
}

#[test]
fn duration_settings_fall_back_to_defaults() {
    assert_eq!(movement_start_delay_millis(None, None), 3000);
    assert_eq!(movement_start_delay_millis(Some(" 250 "), Some("9")), 250);
    assert_eq!(movement_start_delay_millis(Some("soon"), Some("9")), 9000);
    assert_eq!(validation_duration_env_seconds(Some("0"), RTP_MENU_CLICK_WAIT_SECONDS), 12);
    assert_eq!(validation_duration_env_seconds(Some("30"), 12), 30);
    assert_eq!(validation_duration_env_seconds(Some("-1"), 12), 12);
    assert_eq!(validation_duration_env_millis_allow_zero(Some("0"), 500), 0);
    assert_eq!(tick_sync_interval_millis(None), 500);
    assert_eq!(tick_sync_interval_millis(Some("x")), 500);
}

#[test]
fn tick_sync_clock_moves_by_interval_ticks() {
    let mut clock = TickSyncClock { time: 100, sent_count: 0 };
    assert_eq!(next_tick_sync_request_time(&mut clock, 500), Some(100));
    assert_eq!(clock, TickSyncClock { time: 110, sent_count: 1 });
    assert_eq!(next_tick_sync_request_time(&mut clock, 0), None);
    assert_eq!(clock, TickSyncClock { time: 110, sent_count: 1 });
    let mut wrapping = TickSyncClock { time: i64::MAX, sent_count: u64::MAX };
    assert_eq!(next_tick_sync_request_time(&mut wrapping, 49), Some(i64::MAX));
    assert_eq!(wrapping, TickSyncClock { time: i64::MIN, sent_count: u64::MAX });
}

#[test]
fn target_failures_give_up_at_the_limit() {
    assert_eq!(after_target_failure(0, true, false), (1, TargetFailureOutcome::NextTarget));
    assert_eq!(after_target_failure(1, false, true), (2, TargetFailureOutcome::RetryTeleport));
    assert_eq!(after_target_failure(1, false, false), (2, TargetFailureOutcome::GiveUp));
    assert_eq!(after_target_failure(3, true, true), (4, TargetFailureOutcome::GiveUp));
    assert_eq!(after_target_failure(u8::MAX, true, true), (u8::MAX, TargetFailureOutcome::GiveUp));
}

#[test]
fn block_evidence_needs_the_right_block_and_state() {
    let target = BlockTarget { x: 1, y: 2, z: 3 };
    let other = BlockTarget { x: 1, y: 2, z: 4 };
    let e = update_block_evidence(Some(target), true, Some(other), target, OBSERVED_AIR_RUNTIME_ID);
    assert!(e.break_confirmed && !e.place_confirmed);
    let e = update_block_evidence(Some(target), true, Some(other), other, 9852);
    assert!(!e.break_confirmed && e.place_confirmed);
    let e = update_block_evidence(None, false, Some(other), other, 9852);
    assert!(!e.break_confirmed && !e.place_confirmed);
}

#[test]
fn held_candidate_is_cached_once_and_never_a_selector() {
    let selector = ObservedInventoryItem {
        container_id: 0,
        slot: 1,
        item_id: 2,
        stack_id: Some(1),
        container_type: None,
        dynamic_container_id: None,
        item_bytes: b"Name Overworld Lore Click to select region".to_vec(),
    };
    let block = ObservedInventoryItem {
        container_id: 0,
        slot: 4,
        item_id: 1,
        stack_id: None,
        container_type: None,
        dynamic_container_id: None,
        item_bytes: vec![0x02, 0x01],
    };
    let mut candidate: Option<HeldInventoryItem> = None;
    cache_observed_held_inventory_candidate(&mut candidate, &selector);
    assert!(candidate.is_none());
    cache_observed_held_inventory_candidate(&mut candidate, &block);
    assert_eq!(candidate.as_ref().map(|h| (h.slot, h.item_id)), Some((4, 1)));
    let later = ObservedInventoryItem { slot: 5, ..block };
    cache_observed_held_inventory_candidate(&mut candidate, &later);
    assert_eq!(candidate.map(|h| h.slot), Some(4));
}

#[test]
fn menu_state_starts_empty() {
    let state = RtpMenuState::new();
    assert_eq!(state.item, None);
    assert!(!state.click_sent);
    assert_eq!(state.click_attempts, 0);
}
