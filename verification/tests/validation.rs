use torchflower::commands::RTP_MAX_COMMAND_ATTEMPTS;
use torchflower::menu::{
    BlockTarget, HeldInventoryItem, MenuClickTarget, OBSERVED_AIR_RUNTIME_ID, OBSERVED_CHEST_RUNTIME_ID,
    RTP_MENU_MAX_CLICK_ATTEMPTS,
};
use torchflower::observe::{ObservedBlockSample, ObservedInventoryItem};
use torchflower::status::CapabilityStatus;
use torchflower::terrain::{fallback_break_candidates, ObservedTerrain, MAX_OBSERVED_SOLID_BLOCKS};
use torchflower::validation::{LateMenuAction, TargetChoice, ValidationState};

const PLAYER_EYE_HEIGHT: f32 = 1.62;
const BREAK_REACH_VERTICAL: f32 = 4.5;

fn menu_item(slot: u32, item_id: i32, stack_id: i32, text: &[u8]) -> ObservedInventoryItem {
    ObservedInventoryItem {
        container_id: 1,
        slot,
        item_id,
        stack_id: Some(stack_id),
        container_type: Some(0),
        dynamic_container_id: None,
        item_bytes: text.to_vec(),
    }
}

fn horizontal_distance(target: BlockTarget, origin: (f32, f32, f32)) -> f32 {
    let dx = target.x as f32 + 0.5 - origin.0;
    let dz = target.z as f32 + 0.5 - origin.2;
    (dx * dx + dz * dz).sqrt()
}

fn vertical_delta(target: BlockTarget, origin: (f32, f32, f32)) -> f32 {
    (target.y as f32 + 0.5 - (origin.1 + PLAYER_EYE_HEIGHT)).abs()
}

fn within_reach(target: BlockTarget, origin: (f32, f32, f32)) -> bool {
    horizontal_distance(target, origin) <= 32.0 && vertical_delta(target, origin) <= 8.0
}

/// Whether each kept block lies within approach range.
fn reach_flags(terrain: &ObservedTerrain, origin: (f32, f32, f32)) -> Vec<bool> {
    terrain.solid_blocks.iter().map(|target| within_reach(*target, origin)).collect()
}

fn remember_and_trim(terrain: &mut ObservedTerrain, target: BlockTarget, runtime_id: u32, origin: (f32, f32, f32)) {
    let flags = reach_flags(terrain, origin);
    terrain.remember_observed_solid_block(target, runtime_id, &flags, within_reach(target, origin));
}

/// Feeds a block update to the run, with the player at the origin.
fn hint_from_update(
    movement: &mut ValidationState,
    target: BlockTarget,
    runtime_id: u32,
    layer: u32,
    movement_completed: bool,
    far_position_hint: bool,
    now_millis: u64,
) -> Option<BlockTarget> {
    let origin = (0.0, 64.0, 0.0);
    let flags = reach_flags(&movement.terrain, origin);
    movement.record_rtp_position_hint_from_update_block(
        target,
        runtime_id,
        layer,
        movement_completed,
        far_position_hint,
        now_millis,
        &flags,
        within_reach(target, origin),
    )
}

/// Remembers a block with the player at the origin.
fn remember(terrain: &mut ObservedTerrain, target: BlockTarget, runtime_id: u32) {
    remember_and_trim(terrain, target, runtime_id, (0.0, 64.0, 0.0));
}

fn has_placeable_within(terrain: &ObservedTerrain, origin: (f32, f32, f32), max_horizontal: f32, max_vertical: f32) -> bool {
    terrain.solid_blocks.iter().any(|target| {
        terrain.break_target_allowed_for_place_collection(*target)
            && horizontal_distance(*target, origin) <= max_horizontal
            && vertical_delta(*target, origin) <= max_vertical
    })
}

fn has_allowed_within(terrain: &ObservedTerrain, origin: (f32, f32, f32), max_horizontal: f32, max_vertical: f32) -> bool {
    terrain.solid_blocks.iter().any(|target| {
        terrain.break_target_allowed(*target)
            && horizontal_distance(*target, origin) <= max_horizontal
            && vertical_delta(*target, origin) <= max_vertical
    })
}

fn is_far(target: BlockTarget, current: (f32, f32, f32)) -> bool {
    let dx = target.x as f32 + 0.5 - current.0;
    let dz = target.z as f32 + 0.5 - current.2;
    dx * dx + dz * dz >= 64.0 * 64.0
}

#[test]
fn rtp_menu_prefers_overworld_selector_over_nether_random() {
    let nether = menu_item(13, 87, 3, b"Name Nether Lore Click to randomly teleport Players (1.57K) Asia (223ms)");
    let overworld = menu_item(11, 2, 2, b"Name Overworld Lore Click to select region");
    let mut movement = ValidationState::new();

    movement.record_observed_inventory_item(&nether, true);
    assert_eq!(movement.rtp.menu.item.as_ref().map(|item| item.slot), Some(13));

    movement.record_observed_inventory_item(&overworld, true);
    let selected = movement.rtp.menu.item.expect("selected menu item");
    assert_eq!(selected.slot, 11);
    assert_eq!(selected.priority, 110);
}

#[test]
fn rtp_menu_stage_change_resets_click_attempts() {
    let selector = menu_item(11, 2, 2, b"Name Overworld Lore Click to select region");
    let region = menu_item(10, 2, 6, b"Name Overworld Lore Click to randomly teleport NA West");
    let mut movement = ValidationState::new();

    movement.record_observed_inventory_item(&selector, true);
    movement.rtp.menu.click_sent = true;
    movement.rtp.menu.click_sent_at = Some(1);
    movement.rtp.menu.last_click_attempt_at = Some(1);
    movement.rtp.menu.click_attempts = RTP_MENU_MAX_CLICK_ATTEMPTS;
    movement.record_observed_inventory_item(&region, true);

    let selected = movement.rtp.menu.item.expect("selected region menu item");
    assert_eq!(selected.slot, 10);
    assert_eq!(selected.priority, 220);
    assert_eq!(movement.rtp.menu.click_attempts, 0);
    assert!(!movement.rtp.menu.click_sent);
    assert_eq!(movement.rtp.menu.click_sent_at, None);
    assert_eq!(movement.rtp.menu.last_click_attempt_at, None);
}

#[test]
fn rtp_menu_prefers_region_random_over_dimension_selector() {
    let selector = menu_item(11, 2, 2, b"Name Overworld Lore Click to select region");
    let region_random = menu_item(15, 3, 4, b"Name Asia Lore Click to randomly teleport Players (1.57K) Asia (223ms)");
    let mut movement = ValidationState::new();

    movement.record_observed_inventory_item(&selector, true);
    movement.rtp.menu.click_sent = true;
    movement.rtp.menu.click_sent_at = Some(1);
    movement.rtp.menu.last_click_attempt_at = Some(1);
    movement.rtp.menu.click_attempts = RTP_MENU_MAX_CLICK_ATTEMPTS;
    movement.record_observed_inventory_item(&region_random, true);

    let selected = movement.rtp.menu.item.expect("selected region random target");
    assert_eq!(selected.slot, 15);
    assert_eq!(selected.priority, 220);
    assert_eq!(movement.rtp.menu.click_attempts, 0);
    assert!(!movement.rtp.menu.click_sent);
}

#[test]
fn rtp_menu_does_not_promote_nether_or_end_random_after_overworld_selector() {
    let selector = menu_item(11, 2, 2, b"Name Overworld Lore Click to select region");
    let nether_random = menu_item(13, 87, 3, b"Name Nether Lore Click to randomly teleport Players (3.4K) Asia (30ms)");
    let end_random = menu_item(15, 121, 4, b"Name End Lore Click to randomly teleport Players (31.96K) Asia (30ms)");
    let mut movement = ValidationState::new();

    movement.record_observed_inventory_item(&selector, true);
    movement.rtp.menu.click_sent = true;
    movement.rtp.menu.click_sent_at = Some(1);
    movement.rtp.menu.last_click_attempt_at = Some(1);
    movement.rtp.menu.click_attempts = RTP_MENU_MAX_CLICK_ATTEMPTS;
    movement.record_observed_inventory_item(&nether_random, true);
    movement.record_observed_inventory_item(&end_random, true);

    let selected = movement.rtp.menu.item.expect("selected menu item");
    assert_eq!(selected.slot, 11);
    assert_eq!(selected.priority, 110);
    assert_eq!(
        movement.rtp.menu.click_attempts, RTP_MENU_MAX_CLICK_ATTEMPTS,
        "cross-dimension random entries must not reopen click attempts for validation"
    );
}

#[test]
fn late_rtp_menu_reopens_after_target_failure() {
    let selector = menu_item(11, 2, 2, b"Name Overworld Lore Click to select region");
    let mut movement = ValidationState::new();
    movement.rtp.command_sent = true;
    movement.rtp.wait_done = true;
    movement.probe.inventory_probe_sent = true;
    movement.probe.gameplay_probe_sent = true;
    movement.probe.gameplay_timeout_reported = true;
    movement.probe.pickup_terminal_failed = true;

    movement.record_observed_inventory_item(&selector, true);

    assert!(movement.rtp.menu.item.is_some());
    assert!(!movement.rtp.wait_done);
    assert!(!movement.probe.inventory_probe_sent);
    assert!(!movement.probe.gameplay_probe_sent);
    assert!(!movement.probe.gameplay_timeout_reported);
    assert!(!movement.probe.pickup_terminal_failed);
}

#[test]
fn exhausted_same_rtp_menu_does_not_reopen_wait_loop() {
    let selector = menu_item(11, 2, 2, b"Name Overworld Lore Click to select region");
    let mut movement = ValidationState::new();
    movement.record_observed_inventory_item(&selector, true);
    movement.rtp.command_sent = true;
    movement.rtp.wait_done = true;
    movement.probe.inventory_probe_sent = true;
    movement.rtp.menu.click_sent = true;
    movement.rtp.menu.click_attempts = RTP_MENU_MAX_CLICK_ATTEMPTS;

    movement.record_observed_inventory_item(&selector, true);

    assert!(movement.rtp.wait_done);
    assert!(movement.probe.inventory_probe_sent);
    assert!(movement.rtp.menu.click_sent);
    assert_eq!(movement.rtp.menu.click_attempts, RTP_MENU_MAX_CLICK_ATTEMPTS);
}

#[test]
fn late_menu_with_clicks_disabled_is_ignored() {
    let mut movement = ValidationState::new();
    movement.rtp.command_sent = true;
    movement.rtp.wait_done = true;
    assert_eq!(movement.late_rtp_menu_action(false), LateMenuAction::Ignore);
    assert_eq!(movement.late_rtp_menu_action(true), LateMenuAction::ReopenWait);
    movement.targets.break_target = Some(BlockTarget { x: 1, y: 63, z: 0 });
    assert_eq!(movement.recover_late_rtp_menu(true), LateMenuAction::GameplayActive);
    assert!(movement.rtp.wait_done);
}

#[test]
fn rtp_retry_after_target_failure_clears_stale_gameplay_state() {
    let mut movement = ValidationState::new();
    movement.rtp.command_attempts = 1;
    movement.rtp.command_sent = true;
    movement.rtp.wait_done = true;
    movement.probe.inventory_probe_sent = true;
    movement.probe.gameplay_probe_sent = true;
    movement.probe.pickup_terminal_failed = true;
    movement.targets.break_target = Some(BlockTarget { x: 1, y: 63, z: 0 });
    movement.terrain.rejected_break_runtime_ids.push(25060);
    remember(&mut movement.terrain, BlockTarget { x: 500, y: 63, z: 0 }, 13114);

    assert!(movement.reset_for_rtp_retry_after_target_failure());

    assert_eq!(movement.rtp.command_attempts, 1);
    assert!(!movement.rtp.command_sent);
    assert!(!movement.rtp.wait_done);
    assert!(!movement.probe.inventory_probe_sent);
    assert!(!movement.probe.gameplay_probe_sent);
    assert!(!movement.probe.pickup_terminal_failed);
    assert_eq!(movement.targets.break_target, None);
    assert_eq!(movement.terrain.rejected_break_runtime_ids, vec![25060]);
    assert!(movement.terrain.solid_blocks.is_empty());
}

#[test]
fn rtp_retry_after_target_failure_is_bounded() {
    let mut movement = ValidationState::new();
    movement.rtp.command_attempts = RTP_MAX_COMMAND_ATTEMPTS;

    assert!(!movement.reset_for_rtp_retry_after_target_failure());
}

#[test]
fn pickup_requires_confirmed_break_evidence() {
    let mut movement = ValidationState::new();
    movement.probe.gameplay_probe_sent = true;
    movement.probe.break_stop_sent = true;
    movement.targets.break_target = Some(BlockTarget { x: 1, y: 63, z: 1 });

    assert!(!movement.ready_for_pickup(), "pickup must not start from break_stop_sent alone");

    movement.probe.break_confirmed = true;
    assert!(movement.ready_for_pickup(), "pickup should start after server-confirmed break evidence");
}

#[test]
fn break_confirmation_requires_air_runtime() {
    let target = BlockTarget { x: 1, y: 63, z: 1 };
    let mut movement = ValidationState::new();
    movement.targets.break_target = Some(target);
    let mut status = CapabilityStatus::default();

    let evidence = movement.apply_update_block_evidence(&mut status, target, 5901);
    assert!(!movement.probe.break_confirmed);
    assert!(!status.block_breaking);
    assert!(!evidence.break_confirmed);

    let evidence = movement.apply_update_block_evidence(&mut status, target, OBSERVED_AIR_RUNTIME_ID);
    assert!(movement.probe.break_confirmed);
    assert!(status.block_breaking);
    assert!(evidence.break_confirmed);
}

#[test]
fn place_confirmation_rejects_air_runtime() {
    let place_target = BlockTarget { x: 1, y: 64, z: 1 };
    let mut movement = ValidationState::new();
    movement.targets.break_target = Some(BlockTarget { x: 1, y: 63, z: 1 });
    movement.targets.place_result = Some(place_target);
    movement.probe.place_probe_sent = true;
    let mut status = CapabilityStatus::default();

    let evidence = movement.apply_update_block_evidence(&mut status, place_target, OBSERVED_AIR_RUNTIME_ID);
    assert!(!status.block_placing);
    assert!(!evidence.place_confirmed);

    let evidence = movement.apply_update_block_evidence(&mut status, place_target, 5901);
    assert!(status.block_placing);
    assert!(evidence.place_confirmed);
}

#[test]
fn rtp_marker_updates_are_not_break_candidates() {
    let marker = BlockTarget { x: 10, y: 70, z: -4 };
    let origin = (0.0, 64.0, 0.0);
    let mut movement = ValidationState::new();
    movement.rtp.command_sent = true;

    let far = is_far(marker, origin);
    hint_from_update(&mut movement, marker, OBSERVED_CHEST_RUNTIME_ID, 0, false, far, 1);

    assert_eq!(
        movement.targets.observed_break_candidate, None,
        "transient RTP/menu marker blocks must not become break targets"
    );
    assert!(
        movement.terrain.solid_blocks.is_empty(),
        "marker blocks should not be tracked as normal terrain"
    );
}

#[test]
fn marker_cleanup_clears_stale_below_marker_candidate() {
    let marker = BlockTarget { x: 10, y: 70, z: -4 };
    let stale_candidate = BlockTarget { x: marker.x, y: marker.y - 1, z: marker.z };
    let origin = (0.0, 64.0, 0.0);
    let mut movement = ValidationState::new();
    movement.rtp.command_sent = true;
    movement.targets.observed_break_candidate = Some(stale_candidate);
    movement.terrain.solid_blocks.push(stale_candidate);
    movement.terrain.solid_block_runtime_ids.push((stale_candidate, 5901));

    let far = is_far(marker, origin);
    hint_from_update(&mut movement, marker, OBSERVED_AIR_RUNTIME_ID, 0, false, far, 1);

    assert_eq!(movement.targets.observed_break_candidate, None);
    assert!(!movement.terrain.solid_blocks.contains(&stale_candidate));
    assert!(!movement
        .terrain
        .solid_block_runtime_ids
        .iter()
        .any(|(target, _)| *target == stale_candidate));
}

#[test]
fn marker_only_rtp_hint_does_not_update_gameplay_position() {
    let marker = BlockTarget { x: 100, y: 70, z: -100 };
    let origin = (0.0, 64.0, 0.0);
    let mut movement = ValidationState::new();
    movement.rtp.command_sent = true;
    movement.rtp.menu.click_sent = true;

    let far = is_far(marker, origin);
    let moved_to = hint_from_update(&mut movement, marker, OBSERVED_CHEST_RUNTIME_ID, 0, false, far, 5);

    assert!(movement.rtp.position_hint_received);
    assert!(movement.rtp.marker_position_hint_received);
    assert!(!movement.rtp.terrain_position_hint_received);
    assert_eq!(moved_to, None);
    assert_eq!(movement.targets.observed_break_candidate, None);
}

#[test]
fn terrain_rtp_hint_updates_gameplay_position() {
    let target = BlockTarget { x: 100, y: 70, z: -100 };
    let origin = (0.0, 64.0, 0.0);
    let mut movement = ValidationState::new();
    movement.rtp.command_sent = true;
    movement.rtp.menu.click_sent = true;

    let far = is_far(target, origin);
    let moved_to = hint_from_update(&mut movement, target, 12178, 0, false, far, 5);

    assert!(movement.rtp.position_hint_received);
    assert!(!movement.rtp.marker_position_hint_received);
    assert!(movement.rtp.terrain_position_hint_received);
    assert_eq!(moved_to, Some(target));
    assert_eq!(movement.targets.observed_break_candidate, Some(target));
    assert_eq!(movement.rtp.menu.click_attempts, RTP_MENU_MAX_CLICK_ATTEMPTS);
    assert_eq!(movement.rtp.position_hint_received_at, Some(5));
}

#[test]
fn late_terrain_hint_after_rtp_wait_updates_gameplay_position() {
    let target = BlockTarget { x: 16_360, y: 112, z: 4_147 };
    let origin = (46_296.5, 72.0, -115_901.5);
    let mut movement = ValidationState::new();
    movement.rtp.command_sent = true;
    movement.rtp.menu.click_sent = true;
    movement.rtp.wait_done = true;
    movement.probe.inventory_probe_sent = true;
    movement.probe.gameplay_probe_sent = true;
    movement.probe.pickup_terminal_failed = true;

    let far = is_far(target, origin);
    let moved_to = hint_from_update(&mut movement, target, 13_114, 0, false, far, 9);

    assert!(movement.rtp.position_hint_received);
    assert!(movement.rtp.terrain_position_hint_received);
    assert!(!movement.rtp.wait_done);
    assert!(!movement.probe.inventory_probe_sent);
    assert!(!movement.probe.gameplay_probe_sent);
    assert!(!movement.probe.pickup_terminal_failed);
    assert_eq!(moved_to, Some(target));
    assert_eq!(movement.targets.observed_break_candidate, Some(target));
}

#[test]
fn direct_rtp_command_terrain_hint_updates_gameplay_position() {
    let target = BlockTarget { x: 100, y: 70, z: -100 };
    let origin = (0.0, 64.0, 0.0);
    let mut movement = ValidationState::new();
    movement.rtp.command_sent = true;

    let far = is_far(target, origin);
    let moved_to = hint_from_update(&mut movement, target, 13114, 0, false, far, 2);

    assert!(movement.rtp.position_hint_received);
    assert!(movement.rtp.terrain_position_hint_received);
    assert_eq!(moved_to, Some(target));
    assert_eq!(movement.targets.observed_break_candidate, Some(target));
}

#[test]
fn later_terrain_hints_do_not_move_locked_rtp_position() {
    let first = BlockTarget { x: 100, y: 70, z: -100 };
    let later = BlockTarget { x: 200, y: 12, z: -300 };
    let origin = (0.0, 64.0, 0.0);
    let mut movement = ValidationState::new();
    movement.rtp.command_sent = true;
    movement.rtp.menu.click_sent = true;

    let moved_to = hint_from_update(&mut movement, first, 13114, 0, false, is_far(first, origin), 3);
    assert_eq!(moved_to, Some(first));
    let position = (first.x as f32 + 0.5, first.y as f32 + 1.0, first.z as f32 + 0.5);

    let moved_again = hint_from_update(&mut movement, later, 15806, 0, false, is_far(later, position), 4);

    assert_eq!(
        moved_again, None,
        "later chunk UpdateBlock packets must not move the inferred RTP player position"
    );
    assert_eq!(movement.targets.observed_break_candidate, Some(later));
    assert!(movement.terrain.solid_blocks.contains(&later));
}

#[test]
fn placeable_observed_target_survives_non_placeable_observation_overflow() {
    let origin = (-16_259.5, 43.0, 27_470.5);
    let mut movement = ValidationState::new();
    let target = BlockTarget { x: -16_252, y: 42, z: 27_466 };
    remember_and_trim(&mut movement.terrain, target, 13114, origin);

    for index in 0..(MAX_OBSERVED_SOLID_BLOCKS + 64) {
        remember_and_trim(&mut movement.terrain, BlockTarget { x: 10_000 + index as i32, y: 10, z: 10_000 }, 2532, origin);
    }

    assert!(movement.terrain.solid_blocks.len() <= MAX_OBSERVED_SOLID_BLOCKS);
    assert!(movement.terrain.solid_blocks.contains(&target));
    assert_eq!(movement.terrain.observed_target_runtime_id(target), Some(13114));
    assert!(has_placeable_within(&movement.terrain, origin, 32.0, BREAK_REACH_VERTICAL));
}

#[test]
fn approachable_placeable_target_survives_far_placeable_observation_overflow() {
    let origin = (-16_259.5, 43.0, 27_470.5);
    let mut movement = ValidationState::new();
    let target = BlockTarget { x: -16_252, y: 42, z: 27_466 };
    remember_and_trim(&mut movement.terrain, target, 13114, origin);

    for index in 0..(MAX_OBSERVED_SOLID_BLOCKS + 64) {
        remember_and_trim(&mut movement.terrain, BlockTarget { x: 10_000 + index as i32, y: 120, z: 10_000 }, 13114, origin);
    }

    assert!(movement.terrain.solid_blocks.len() <= MAX_OBSERVED_SOLID_BLOCKS);
    assert!(movement.terrain.solid_blocks.contains(&target));
    assert_eq!(movement.terrain.observed_target_runtime_id(target), Some(13114));
    assert!(has_placeable_within(&movement.terrain, origin, 32.0, BREAK_REACH_VERTICAL));
}

#[test]
fn fallback_break_target_skips_rejected_candidates() {
    let origin: (f32, f32, f32) = (10.5, 70.0, -4.5);
    let feet = (origin.0.floor() as i32, origin.1.floor() as i32, origin.2.floor() as i32);
    let candidates = fallback_break_candidates(feet.0, feet.1, feet.2);
    let first = candidates[0];
    let mut movement = ValidationState::new();

    assert_eq!(movement.terrain.first_allowed_target(&candidates), Some(first));

    movement.terrain.rejected_break_targets.push(first);
    assert_ne!(movement.terrain.first_allowed_target(&candidates), Some(first));
    assert!(movement.terrain.first_allowed_target(&candidates).is_some());
}

#[test]
fn selected_break_runtime_survives_air_update_for_pickup_rejection() {
    let origin = (0.5, 64.0, 0.5);
    let target = BlockTarget { x: 1, y: 63, z: 0 };
    let mut movement = ValidationState::new();
    remember(&mut movement.terrain, target, 12178);
    // The caller picks the nearest placeable drop in reach as the break target.
    assert!(has_placeable_within(&movement.terrain, origin, 4.5, BREAK_REACH_VERTICAL));
    movement.targets.break_target = Some(target);
    movement.targets.break_target_runtime_id = movement.terrain.observed_target_runtime_id(target);

    assert_eq!(movement.targets.break_target, Some(target));
    assert_eq!(movement.targets.break_target_runtime_id, Some(12178));

    movement.terrain.solid_block_runtime_ids.clear();
    let has_next = has_placeable_within(&movement.terrain, origin, 128.0, BREAK_REACH_VERTICAL);
    movement.prepare_next_break_target_after_pickup_failure(has_next);

    assert!(
        movement.terrain.rejected_break_runtime_ids.contains(&12178),
        "pickup failure must reject the originally selected runtime even after air update removes observation state"
    );
}

#[test]
fn break_failure_retry_clears_probe_state_for_far_target_approach() {
    let origin = (0.0, 64.0, 0.0);
    let near = BlockTarget { x: 1, y: 63, z: 0 };
    let far = BlockTarget { x: 48, y: 63, z: 0 };
    let mut movement = ValidationState::new();
    remember(&mut movement.terrain, near, 12178);
    remember(&mut movement.terrain, far, 13114);
    movement.targets.break_target = Some(near);
    movement.targets.break_target_runtime_id = Some(12178);
    movement.probe.gameplay_probe_sent = true;
    movement.probe.gameplay_probe_sent_at = Some(1);
    movement.probe.gameplay_timeout_reported = true;
    movement.probe.break_probe_started_at = Some(1);

    assert_eq!(movement.targets.break_target, Some(near));
    // With nothing held, the next target is a placeable drop within walking range.
    let mut after_reject = ObservedTerrain::new();
    remember(&mut after_reject, far, 13114);
    let has_next = has_placeable_within(&after_reject, origin, 128.0, BREAK_REACH_VERTICAL);
    assert!(movement.prepare_next_break_target_after_break_failure(has_next));

    assert_eq!(movement.targets.break_target, None);
    assert!(!movement.probe.gameplay_probe_sent);
    assert_eq!(movement.probe.gameplay_probe_sent_at, None);
    assert!(!movement.probe.gameplay_timeout_reported);
    assert!(!movement.probe.pickup_terminal_failed);
    assert!(has_placeable_within(&movement.terrain, origin, 128.0, BREAK_REACH_VERTICAL));
}

#[test]
fn break_failure_retry_preserves_collected_held_item() {
    let origin = (0.0, 64.0, 0.0);
    let near = BlockTarget { x: 1, y: 63, z: 0 };
    let far = BlockTarget { x: 48, y: 63, z: 0 };
    let mut movement = ValidationState::new();
    movement.held_item = Some(HeldInventoryItem { container_id: 0, slot: 2, item_id: 422, item_bytes: vec![0x06, 0x01, 0x00] });
    movement.targets.held_item_equipped = true;
    remember(&mut movement.terrain, near, 2620);
    remember(&mut movement.terrain, far, 2620);
    movement.targets.break_target = Some(near);
    movement.targets.break_target_runtime_id = Some(2620);
    movement.probe.gameplay_probe_sent = true;
    movement.probe.gameplay_probe_sent_at = Some(1);
    movement.probe.break_probe_started_at = Some(1);

    // With an item held, any allowed block within the extended limits will do.
    let has_next = has_allowed_within(&movement.terrain, origin, 128.0, 16.0);
    assert!(movement.prepare_next_break_target_after_break_failure(has_next));

    let held_item = movement.held_item.expect("held item must survive retry");
    assert_eq!(held_item.item_id, 422);
    assert_eq!(held_item.slot, 2);
    assert!(movement.targets.held_item_equipped);
    assert!(!movement.probe.gameplay_probe_sent);
}

#[test]
fn break_failure_with_only_far_stale_targets_retries_rtp() {
    let origin = (0.0, 64.0, 0.0);
    let near = BlockTarget { x: 1, y: 63, z: 0 };
    let stale_far = BlockTarget { x: 500, y: 63, z: 0 };
    let mut movement = ValidationState::new();
    movement.rtp.command_sent = true;
    movement.rtp.wait_done = true;
    movement.rtp.command_attempts = 1;
    movement.probe.inventory_probe_sent = true;
    movement.probe.gameplay_probe_sent = true;
    remember(&mut movement.terrain, near, 13114);
    remember(&mut movement.terrain, stale_far, 9852);
    movement.targets.break_target = Some(near);
    movement.targets.break_target_runtime_id = Some(13114);

    assert_eq!(movement.targets.break_target, Some(near));
    let mut after_reject = ObservedTerrain::new();
    remember(&mut after_reject, stale_far, 9852);
    let has_next = has_placeable_within(&after_reject, origin, 128.0, BREAK_REACH_VERTICAL);
    assert!(movement.prepare_next_break_target_after_break_failure(has_next));

    assert_eq!(movement.rtp.command_attempts, 1);
    assert!(!movement.rtp.command_sent);
    assert!(!movement.probe.inventory_probe_sent);
    assert!(movement.terrain.solid_blocks.is_empty());
    assert_eq!(movement.targets.break_target, None);
    assert!(!movement.probe.pickup_terminal_failed);
}

#[test]
fn break_failure_without_target_gives_up() {
    let mut movement = ValidationState::new();
    assert!(!movement.prepare_next_break_target_after_break_failure(true));
    assert!(movement.probe.pickup_terminal_failed);
    let mut other = ValidationState::new();
    assert!(!other.prepare_next_break_target_after_pickup_failure(true));
    assert!(!other.probe.pickup_terminal_failed);
}

#[test]
fn repeated_break_failures_stop_after_the_attempt_limit() {
    let mut movement = ValidationState::new();
    for attempt in 0..4 {
        let target = BlockTarget { x: attempt, y: 63, z: 0 };
        movement.targets.break_target = Some(target);
        let goes_on = movement.prepare_next_break_target_after_break_failure(true);
        assert_eq!(goes_on, attempt < 3);
        assert!(movement.terrain.rejected_break_targets.contains(&target));
    }
    assert_eq!(movement.targets.break_target_attempts, 4);
    assert!(movement.probe.pickup_terminal_failed);
}

#[test]
fn block_samples_skip_air_and_markers() {
    let mut terrain = ObservedTerrain::new();
    { let flags = reach_flags(&terrain, (0.0, 64.0, 0.0)); terrain.record_observed_block_sample(&ObservedBlockSample { x: 1, y: 2, z: 3, runtime_id: OBSERVED_AIR_RUNTIME_ID }, &flags, true); }
    { let flags = reach_flags(&terrain, (0.0, 64.0, 0.0)); terrain.record_observed_block_sample(&ObservedBlockSample { x: 1, y: 2, z: 3, runtime_id: OBSERVED_CHEST_RUNTIME_ID }, &flags, true); }
    assert!(terrain.solid_blocks.is_empty());
    { let flags = reach_flags(&terrain, (0.0, 64.0, 0.0)); terrain.record_observed_block_sample(&ObservedBlockSample { x: 1, y: 2, z: 3, runtime_id: 9852 }, &flags, true); }
    { let flags = reach_flags(&terrain, (0.0, 64.0, 0.0)); terrain.record_observed_block_sample(&ObservedBlockSample { x: 1, y: 2, z: 3, runtime_id: 2532 }, &flags, true); }
    assert_eq!(terrain.solid_blocks, vec![BlockTarget { x: 1, y: 2, z: 3 }]);
    assert_eq!(terrain.observed_target_runtime_id(BlockTarget { x: 1, y: 2, z: 3 }), Some(2532));
    assert_eq!(terrain.observed_placeable_drop_count(), 0);
}

#[test]
fn highest_block_prefers_height_then_runtime_then_latest() {
    let mut terrain = ObservedTerrain::new();
    let low = BlockTarget { x: 0, y: 60, z: 0 };
    let high_a = BlockTarget { x: 1, y: 70, z: 0 };
    let high_b = BlockTarget { x: 2, y: 70, z: 0 };
    let high_c = BlockTarget { x: 3, y: 70, z: 0 };
    remember(&mut terrain, low, 13114);
    remember(&mut terrain, high_a, 9852);
    remember(&mut terrain, high_b, 13114);
    remember(&mut terrain, high_c, 13114);
    assert_eq!(terrain.highest_observed_solid_block(false), Some(high_c));
    terrain.reject_failed_break_target(high_c, None);
    assert_eq!(terrain.highest_observed_solid_block(false), Some(high_a));
    assert_eq!(terrain.observed_placeable_drop_count(), 1);
    assert!(terrain.any_break_target_allowed());
}

#[test]
fn menu_item_becomes_held_only_when_placeable_and_nothing_is_held() {
    let mut movement = ValidationState::new();
    let block = ObservedInventoryItem {
        container_id: 0,
        slot: 2,
        item_id: 422,
        stack_id: Some(9),
        container_type: None,
        dynamic_container_id: None,
        item_bytes: vec![0x06, 0x01, 0x00],
    };
    movement.targets.held_item_equipped = true;
    movement.record_observed_inventory_item(&block, true);
    let held = movement.held_item.clone().expect("placeable block is held");
    assert_eq!((held.container_id, held.slot, held.item_id), (0, 2, 422));
    assert!(!movement.targets.held_item_equipped);
    let other = ObservedInventoryItem { slot: 3, ..block };
    movement.record_observed_inventory_item(&other, true);
    assert_eq!(movement.held_item.expect("still held").slot, 2);
}

#[test]
fn menu_click_target_fields_are_kept_when_cached() {
    let mut movement = ValidationState::new();
    let item = ObservedInventoryItem {
        container_id: 4,
        slot: 13,
        item_id: 87,
        stack_id: Some(40),
        container_type: Some(13),
        dynamic_container_id: Some(3),
        item_bytes: b"CustomName Nether Lore Click to randomly teleport".to_vec(),
    };
    movement.record_observed_inventory_item(&item, true);
    let cached: MenuClickTarget = movement.rtp.menu.item.expect("menu entry cached");
    assert_eq!((cached.window_id, cached.slot, cached.stack_id), (4, 13, 40));
    assert_eq!((cached.container_type, cached.dynamic_container_id), (13, Some(3)));
}

fn block_score(target: BlockTarget, origin: (f32, f32, f32)) -> f32 {
    let dx = target.x as f32 + 0.5 - origin.0;
    let dz = target.z as f32 + 0.5 - origin.2;
    dx * dx + dz * dz + vertical_delta(target, origin) * 2.0
}

fn in_reach(target: BlockTarget, origin: (f32, f32, f32)) -> bool {
    horizontal_distance(target, origin) <= 4.5 && vertical_delta(target, origin) <= BREAK_REACH_VERTICAL
}

/// The caller's side of choosing a target: the reach and distance checks
/// on the player's position, then the library's choice and adoption.
fn ensure_gameplay_targets(movement: &mut ValidationState, origin: (f32, f32, f32)) -> TargetChoice {
    let require_placeable = movement.held_item.is_none();
    let nearest = movement
        .terrain
        .solid_blocks
        .iter()
        .copied()
        .filter(|t| {
            if require_placeable {
                movement.terrain.break_target_allowed_for_place_collection(*t)
            } else {
                movement.terrain.break_target_allowed(*t)
            }
        })
        .filter(|t| in_reach(*t, origin))
        .min_by(|a, b| block_score(*a, origin).partial_cmp(&block_score(*b, origin)).unwrap());
    let candidate_in_reach = movement.targets.observed_break_candidate.map(|c| in_reach(c, origin)).unwrap_or(false);
    let feet = (origin.0.floor() as i32, origin.1.floor() as i32, origin.2.floor() as i32);
    let fallback = movement.terrain.first_allowed_target(&fallback_break_candidates(feet.0, feet.1, feet.2));
    let forward_guess = BlockTarget { x: origin.0.floor() as i32, y: (origin.1 - 1.0).floor() as i32, z: (origin.2 + 1.5).floor() as i32 };
    let walkable = has_placeable_within(&movement.terrain, origin, 128.0, BREAK_REACH_VERTICAL);
    let choice = movement.choose_gameplay_target(nearest, candidate_in_reach, fallback, forward_guess, walkable);
    if let TargetChoice::Chosen(target) = choice {
        movement.adopt_break_target(target, in_reach(target, origin));
    }
    choice
}

#[test]
fn no_tool_target_selection_prefers_hand_droppable_placeable_runtime() {
    let origin = (0.5, 65.0, 0.5);
    let stone = BlockTarget { x: 0, y: 64, z: 0 };
    let netherrack = BlockTarget { x: 2, y: 64, z: 0 };
    let mut movement = ValidationState::new();
    remember(&mut movement.terrain, stone, 2532);
    remember(&mut movement.terrain, netherrack, 13114);

    ensure_gameplay_targets(&mut movement, origin);

    assert_eq!(movement.targets.break_target, Some(netherrack));
    assert_eq!(movement.targets.break_target_runtime_id, Some(13114));
    assert!(!movement.probe.pickup_terminal_failed);
}

#[test]
fn no_tool_target_selection_rejects_stone_only_observations() {
    let origin = (0.5, 65.0, 0.5);
    let stone = BlockTarget { x: 0, y: 64, z: 0 };
    let mut movement = ValidationState::new();
    remember(&mut movement.terrain, stone, 2532);

    assert_eq!(ensure_gameplay_targets(&mut movement, origin), TargetChoice::GaveUp);

    assert_eq!(movement.targets.break_target, None);
    assert!(movement.probe.pickup_terminal_failed);
}

#[test]
fn current_donutsmp_chunk_sample_creates_reachable_target() {
    let origin = (-16_259.5, 43.0, 27_470.5);
    let mut movement = ValidationState::new();
    let sample = ObservedBlockSample { x: -16_259, y: 47, z: 27_469, runtime_id: 26228 };
    let flags = reach_flags(&movement.terrain, origin);
    let sample_reach = within_reach(BlockTarget { x: sample.x, y: sample.y, z: sample.z }, origin);
    movement.terrain.record_observed_block_sample(&sample, &flags, sample_reach);

    assert!(has_placeable_within(&movement.terrain, origin, 4.5, BREAK_REACH_VERTICAL));

    ensure_gameplay_targets(&mut movement, origin);
    assert_eq!(movement.targets.break_target, Some(BlockTarget { x: -16_259, y: 47, z: 27_469 }));
    assert_eq!(movement.targets.break_target_runtime_id, Some(26228));
    assert_eq!(movement.targets.place_base, Some(BlockTarget { x: -16_259, y: 46, z: 27_469 }));
    assert_eq!(movement.targets.place_result, movement.targets.break_target);
}

#[test]
fn far_placeable_target_defers_terminal_failure_until_approach() {
    let origin = (0.0, 64.0, 0.0);
    let mut movement = ValidationState::new();
    remember(&mut movement.terrain, BlockTarget { x: 48, y: 63, z: 0 }, 13114);

    assert_eq!(ensure_gameplay_targets(&mut movement, origin), TargetChoice::Deferred);

    assert_eq!(movement.targets.break_target, None);
    assert!(!movement.probe.pickup_terminal_failed);
    assert!(has_placeable_within(&movement.terrain, origin, 128.0, BREAK_REACH_VERTICAL));
}

#[test]
fn far_observed_candidate_does_not_override_nearby_fallback_when_item_is_held() {
    let origin: (f32, f32, f32) = (10.5, 70.0, -4.5);
    let far_candidate = BlockTarget { x: 100, y: 90, z: 100 };
    let feet = (origin.0.floor() as i32, origin.1.floor() as i32, origin.2.floor() as i32);
    let expected_fallback = fallback_break_candidates(feet.0, feet.1, feet.2)[0];
    let mut movement = ValidationState::new();
    movement.targets.observed_break_candidate = Some(far_candidate);
    movement.held_item = Some(HeldInventoryItem { container_id: 0, slot: 0, item_id: 28, item_bytes: vec![0x38, 0x01, 0x00] });

    ensure_gameplay_targets(&mut movement, origin);

    assert_eq!(movement.targets.break_target, Some(expected_fallback));
    assert_ne!(movement.targets.break_target, Some(far_candidate));
}

#[test]
fn chosen_target_out_of_reach_is_not_adopted() {
    let mut movement = ValidationState::new();
    movement.targets.place_base = Some(BlockTarget { x: 0, y: 0, z: 0 });
    movement.adopt_break_target(BlockTarget { x: 100, y: 64, z: 0 }, false);
    assert_eq!(movement.targets.break_target, None);
    assert_eq!(movement.targets.place_base, Some(BlockTarget { x: 0, y: 0, z: 0 }));
    remember(&mut movement.terrain, BlockTarget { x: 1, y: 63, z: 0 }, 5901);
    movement.adopt_break_target(BlockTarget { x: 1, y: 63, z: 0 }, true);
    assert_eq!(movement.targets.place_base, Some(BlockTarget { x: 1, y: 64, z: 0 }));
    assert_eq!(
        movement.choose_gameplay_target(None, false, None, BlockTarget { x: 0, y: 0, z: 0 }, false),
        TargetChoice::AlreadyChosen
    );
}
