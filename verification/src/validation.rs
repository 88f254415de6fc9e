//! The progress of a movement and gameplay validation run: the random
//! teleport (command, menu, position hints), the break, pickup and place
//! probes, and the blocks seen on the way. Positions, rotations and clocks
//! stay with the caller, which hands in what they decide (the movement phase
//! being over, a hint being far away, a next target being in reach) and
//! applies the position a decision names; times are milliseconds on the
//! caller's clock.

use vstd::prelude::*;
use crate::commands::RTP_MAX_COMMAND_ATTEMPTS;
use crate::gameplay::{
    after_target_failure, menu_after_entry, target_failure, menu_entry_of, overworld_entry, update_block_evidence, BlockEvidence,
    RtpMenuState, TargetFailureOutcome,
};
use crate::menu::{
    below, held_inventory_candidate_from_observed, place_geometry_for_break_target, placeable_rejection, BlockTarget,
    HeldInventoryItem, OBSERVED_AIR_RUNTIME_ID, OBSERVED_CHEST_RUNTIME_ID, RTP_MENU_MAX_CLICK_ATTEMPTS,
    SPRUCE_BUTTON_CEILING_RUNTIME_ID,
};
use crate::observe::{ObservedInventoryItem, ObservedItemEntity};
use crate::status::CapabilityStatus;
use crate::terrain::{runtime_of, same_block, updated_blocks, ObservedTerrain};

verus! {

/// What to do about a random-teleport menu that shows up late.
#[derive(Debug, Clone, Copy, PartialEq, Eq)]
pub enum LateMenuAction {
    /// Nothing to recover: no command was sent, menu clicks are off, or the
    /// run is still waiting anyway.
    Ignore,
    /// Every click method was tried on this menu already.
    ClickMethodsExhausted,
    /// A break, pickup or place is under way; it is not interrupted.
    GameplayActive,
    /// Wait for the teleport again: the waits and probes start over.
    ReopenWait,
}

/// The random-teleport progress: command, menu, position hints and waits.
#[derive(Debug, Clone, Copy, PartialEq, Eq)]
pub struct RtpProgress {
    pub command_sent: bool,
    pub command_sent_at: Option<u64>,
    pub command_attempts: u8,
    pub menu: RtpMenuState,
    pub container_close_sent: bool,
    pub position_hint_received: bool,
    pub position_hint_received_at: Option<u64>,
    pub marker_position_hint_received: bool,
    pub terrain_position_hint_received: bool,
    pub terrain_position_hint_received_at: Option<u64>,
    pub waiting_for_menu_reported: bool,
    pub waiting_for_terrain_hint_reported: bool,
    pub terrain_position_hint_failed_reported: bool,
    pub wait_done: bool,
}

/// The progress of the inventory, break, pickup, place and approach probes.
#[derive(Debug, Clone, Copy, PartialEq, Eq)]
pub struct ProbeProgress {
    pub inventory_probe_sent: bool,
    pub gameplay_probe_sent: bool,
    pub gameplay_probe_sent_at: Option<u64>,
    pub gameplay_timeout_reported: bool,
    pub break_probe_started_at: Option<u64>,
    pub break_last_sent_at: Option<u64>,
    pub break_stop_sent: bool,
    pub break_confirmed: bool,
    pub break_confirmation_failed_reported: bool,
    pub place_probe_sent: bool,
    pub pickup_probe_started_at: Option<u64>,
    pub pickup_last_sent_at: Option<u64>,
    pub pickup_last_inventory_probe_at: Option<u64>,
    pub pickup_frames_sent: u64,
    pub pickup_prebreak: bool,
    pub pickup_failed_reported: bool,
    pub pickup_terminal_failed: bool,
    pub approach_last_sent_at: Option<u64>,
    pub approach_frames_sent: u64,
}

/// The block targets of the probes.
#[derive(Debug, Clone, Copy, PartialEq, Eq)]
pub struct TargetProgress {
    pub break_target: Option<BlockTarget>,
    pub break_target_runtime_id: Option<u32>,
    pub place_base: Option<BlockTarget>,
    pub place_result: Option<BlockTarget>,
    pub break_target_attempts: u8,
    pub observed_break_candidate: Option<BlockTarget>,
    pub held_item_equipped: bool,
}

/// What choosing a break target came to.
#[derive(Debug, Clone, Copy, PartialEq, Eq)]
pub enum TargetChoice {
    /// A break target was already set; nothing changed.
    AlreadyChosen,
    /// This block is the target (if it turns out to be in reach).
    Chosen(BlockTarget),
    /// Placeable drops were seen, but only out of reach: walk there first.
    Deferred,
    /// No usable target: pickup gives up.
    GaveUp,
}

/// The block a placed block rests on when `target` is broken and placed
/// back: above a ceiling button, else below.
pub open spec fn place_base_of(target: BlockTarget, runtime_id: Option<u32>) -> BlockTarget {
    if runtime_id == Some(SPRUCE_BUTTON_CEILING_RUNTIME_ID) {
        BlockTarget { x: target.x, y: (target.y + 1) as i32, z: target.z }
    } else {
        BlockTarget { x: target.x, y: below(target.y), z: target.z }
    }
}

/// The progress of a validation run.
pub struct ValidationState {
    pub rtp: RtpProgress,
    pub probe: ProbeProgress,
    pub targets: TargetProgress,
    pub held_item: Option<HeldInventoryItem>,
    pub terrain: ObservedTerrain,
    pub observed_item_entity: Option<ObservedItemEntity>,
    pub observed_item_entities: Vec<ObservedItemEntity>,
    pub rejected_item_entity_runtime_ids: Vec<u64>,
}

/// No break, pickup or place has started.
pub open spec fn gameplay_idle(probe: ProbeProgress, targets: TargetProgress) -> bool {
    targets.break_target is None && probe.break_probe_started_at is None && probe.pickup_probe_started_at is None
        && !probe.break_confirmed && !probe.place_probe_sent
}

/// What a late random-teleport menu leads to.
pub open spec fn late_menu_action(
    rtp: RtpProgress,
    probe: ProbeProgress,
    targets: TargetProgress,
    click_menu_enabled: bool,
) -> LateMenuAction {
    if !rtp.command_sent || !click_menu_enabled {
        LateMenuAction::Ignore
    } else if !(rtp.wait_done || probe.inventory_probe_sent || probe.gameplay_probe_sent
        || probe.pickup_terminal_failed) {
        LateMenuAction::Ignore
    } else if rtp.menu.click_sent && rtp.menu.click_attempts >= RTP_MENU_MAX_CLICK_ATTEMPTS {
        LateMenuAction::ClickMethodsExhausted
    } else if !gameplay_idle(probe, targets) {
        LateMenuAction::GameplayActive
    } else {
        LateMenuAction::ReopenWait
    }
}

/// The teleport progress after a late menu or hint reopened the wait.
pub open spec fn rtp_reopened(rtp: RtpProgress, close_again: bool) -> RtpProgress {
    RtpProgress {
        wait_done: false,
        container_close_sent: if close_again { false } else { rtp.container_close_sent },
        waiting_for_menu_reported: false,
        waiting_for_terrain_hint_reported: false,
        terrain_position_hint_failed_reported: false,
        ..rtp
    }
}

/// The probe progress after the wait was reopened.
pub open spec fn probe_reopened(probe: ProbeProgress) -> ProbeProgress {
    ProbeProgress {
        inventory_probe_sent: false,
        pickup_terminal_failed: false,
        gameplay_probe_sent: false,
        gameplay_probe_sent_at: None,
        gameplay_timeout_reported: false,
        ..probe
    }
}

/// The teleport progress after a retry: the command, menu clicks, hints and
/// waits start over; the menu entry and the command count stay.
pub open spec fn rtp_retried(rtp: RtpProgress) -> RtpProgress {
    RtpProgress {
        command_sent: false,
        command_sent_at: None,
        menu: RtpMenuState {
            click_sent: false,
            click_sent_at: None,
            click_attempts: 0,
            last_click_attempt_at: None,
            ..rtp.menu
        },
        container_close_sent: false,
        position_hint_received: false,
        position_hint_received_at: None,
        marker_position_hint_received: false,
        terrain_position_hint_received: false,
        terrain_position_hint_received_at: None,
        waiting_for_menu_reported: false,
        waiting_for_terrain_hint_reported: false,
        terrain_position_hint_failed_reported: false,
        wait_done: false,
        ..rtp
    }
}

/// Probe progress with no probe under way; whether the inventory probe
/// went out and whether pickup gave up are given.
pub open spec fn probe_cleared(inventory_probe_sent: bool, pickup_terminal_failed: bool) -> ProbeProgress {
    ProbeProgress {
        inventory_probe_sent: inventory_probe_sent,
        gameplay_probe_sent: false,
        gameplay_probe_sent_at: None,
        gameplay_timeout_reported: false,
        break_probe_started_at: None,
        break_last_sent_at: None,
        break_stop_sent: false,
        break_confirmed: false,
        break_confirmation_failed_reported: false,
        place_probe_sent: false,
        pickup_probe_started_at: None,
        pickup_last_sent_at: None,
        pickup_last_inventory_probe_at: None,
        pickup_frames_sent: 0,
        pickup_prebreak: false,
        pickup_failed_reported: false,
        pickup_terminal_failed: pickup_terminal_failed,
        approach_last_sent_at: None,
        approach_frames_sent: 0,
    }
}

/// No break or place target; the attempts, the observed candidate and
/// whether the held item is equipped are given.
pub open spec fn targets_cleared(
    break_target_attempts: u8,
    observed_break_candidate: Option<BlockTarget>,
    held_item_equipped: bool,
) -> TargetProgress {
    TargetProgress {
        break_target: None,
        break_target_runtime_id: None,
        place_base: None,
        place_result: None,
        break_target_attempts: break_target_attempts,
        observed_break_candidate: observed_break_candidate,
        held_item_equipped: held_item_equipped,
    }
}

/// The teleport progress with another menu state.
pub open spec fn with_menu(rtp: RtpProgress, menu: RtpMenuState) -> RtpProgress {
    RtpProgress { menu: menu, ..rtp }
}

/// The menu state after looking at an inventory item.
pub open spec fn menu_after_item(menu: RtpMenuState, item: ObservedInventoryItem) -> RtpMenuState {
    match menu_entry_of(item) {
        Some(entry) => menu_after_entry(menu, entry, overworld_entry(item)),
        None => menu,
    }
}

/// A late menu found by looking at `item` reopens the wait.
pub open spec fn item_reopens(
    rtp: RtpProgress,
    probe: ProbeProgress,
    targets: TargetProgress,
    item: ObservedInventoryItem,
    click_menu_enabled: bool,
) -> bool {
    menu_entry_of(item) is Some && late_menu_action(
        RtpProgress { menu: menu_after_item(rtp.menu, item), ..rtp },
        probe,
        targets,
        click_menu_enabled,
    ) == LateMenuAction::ReopenWait
}

/// A far block update reopens the wait: the run had moved on, yet the
/// command was sent and the menu clicked, no terrain position was taken,
/// and no gameplay has started.
pub open spec fn hint_reopens(rtp: RtpProgress, probe: ProbeProgress, targets: TargetProgress, far_position_hint: bool) -> bool {
    far_position_hint && (rtp.wait_done || probe.gameplay_probe_sent) && rtp.command_sent && rtp.menu.click_sent
        && !rtp.terrain_position_hint_received && gameplay_idle(probe, targets)
}

/// The run is in its teleport phase: the movement phase is over, or the
/// command was sent, or the menu clicked.
pub open spec fn in_rtp_phase(rtp: RtpProgress, movement_completed: bool) -> bool {
    movement_completed || rtp.command_sent || rtp.menu.click_sent
}

/// The observed break candidate after a layer-0 block update in the
/// teleport phase: air at (or just above) it clears it, a chest marker
/// leaves it, any other block becomes it.
pub open spec fn candidate_after_update(candidate: Option<BlockTarget>, t: BlockTarget, runtime_id: u32) -> Option<BlockTarget> {
    if runtime_id == OBSERVED_AIR_RUNTIME_ID {
        let under = BlockTarget { x: t.x, y: below(t.y), z: t.z };
        if candidate == Some(t) || candidate == Some(under) {
            None
        } else {
            candidate
        }
    } else if runtime_id == OBSERVED_CHEST_RUNTIME_ID {
        candidate
    } else {
        Some(t)
    }
}

/// A far block update is taken as where the teleport landed: the run is in
/// its teleport phase and still waiting, the block is neither air nor a
/// marker, a marker, a menu click or the command came first, and no terrain
/// position was taken yet.
pub open spec fn hint_adopted(rtp: RtpProgress, probe: ProbeProgress, runtime_id: u32, movement_completed: bool, far_position_hint: bool) -> bool {
    far_position_hint && in_rtp_phase(rtp, movement_completed) && !rtp.wait_done && !probe.gameplay_probe_sent
        && runtime_id != OBSERVED_AIR_RUNTIME_ID && runtime_id != OBSERVED_CHEST_RUNTIME_ID
        && (rtp.marker_position_hint_received || rtp.menu.click_sent || rtp.command_sent)
        && !rtp.terrain_position_hint_received
}

/// The teleport progress after a block update's hint step: a taken hint
/// marks the terrain position as received now (and ends the menu clicks);
/// a far marker marks a (marker) hint as received, keeping the first time.
pub open spec fn rtp_after_hint(rtp: RtpProgress, adopted: bool, marked: bool, now_millis: u64) -> RtpProgress {
    if adopted {
        RtpProgress {
            position_hint_received: true,
            position_hint_received_at: Some(now_millis),
            terrain_position_hint_received: true,
            terrain_position_hint_received_at: Some(now_millis),
            waiting_for_terrain_hint_reported: false,
            terrain_position_hint_failed_reported: false,
            menu: if rtp.menu.click_sent {
                RtpMenuState { click_attempts: RTP_MENU_MAX_CLICK_ATTEMPTS, ..rtp.menu }
            } else {
                rtp.menu
            },
            ..rtp
        }
    } else if marked {
        RtpProgress {
            position_hint_received: true,
            position_hint_received_at: match rtp.position_hint_received_at {
                Some(at) => Some(at),
                None => Some(now_millis),
            },
            marker_position_hint_received: true,
            ..rtp
        }
    } else {
        rtp
    }
}

/// The probe progress after a block update's hint step: a taken hint stops
/// the break probe.
pub open spec fn probe_after_hint(probe: ProbeProgress, adopted: bool) -> ProbeProgress {
    if adopted {
        ProbeProgress { break_probe_started_at: None, break_last_sent_at: None, break_stop_sent: false, ..probe }
    } else {
        probe
    }
}

/// The targets after a block update's hint step: a taken hint drops the
/// break and place targets.
pub open spec fn targets_after_hint(targets: TargetProgress, adopted: bool) -> TargetProgress {
    if adopted {
        TargetProgress { break_target: None, break_target_runtime_id: None, place_base: None, place_result: None, ..targets }
    } else {
        targets
    }
}

/// The observed break candidate after a block update, given the progress
/// after the reopen step.
pub open spec fn candidate_step(
    rtp: RtpProgress,
    probe: ProbeProgress,
    candidate: Option<BlockTarget>,
    t: BlockTarget,
    runtime_id: u32,
    layer: u32,
    movement_completed: bool,
) -> Option<BlockTarget> {
    if in_rtp_phase(rtp, movement_completed) && !rtp.wait_done && !probe.gameplay_probe_sent && layer == 0 {
        candidate_after_update(candidate, t, runtime_id)
    } else {
        candidate
    }
}

/// The teleport progress after a block update's reopen step.
pub open spec fn rtp_reopen_step(rtp: RtpProgress, probe: ProbeProgress, targets: TargetProgress, far: bool) -> RtpProgress {
    if hint_reopens(rtp, probe, targets, far) { rtp_reopened(rtp, false) } else { rtp }
}

/// The probe progress after a block update's reopen step.
pub open spec fn probe_reopen_step(rtp: RtpProgress, probe: ProbeProgress, targets: TargetProgress, far: bool) -> ProbeProgress {
    if hint_reopens(rtp, probe, targets, far) { probe_reopened(probe) } else { probe }
}

/// A far marker update counts as a (marker) position hint.
pub open spec fn hint_marked(rtp: RtpProgress, probe: ProbeProgress, runtime_id: u32, movement_completed: bool, far_position_hint: bool) -> bool {
    far_position_hint && in_rtp_phase(rtp, movement_completed) && !rtp.wait_done && !probe.gameplay_probe_sent
        && runtime_id == OBSERVED_CHEST_RUNTIME_ID
}

/// The random teleport may be tried again: the run used it, and fewer than
/// `RTP_MAX_COMMAND_ATTEMPTS` commands went out.
pub open spec fn rtp_retry_allowed(rtp: RtpProgress) -> bool {
    (rtp.command_sent || rtp.menu.click_sent || rtp.wait_done) && rtp.command_attempts < RTP_MAX_COMMAND_ATTEMPTS
}

impl ValidationState {
    pub fn new() -> (r: Self)
        ensures
            !r.rtp.command_sent && r.rtp.command_attempts == 0 && r.rtp.menu.item is None,
            !r.rtp.menu.click_sent && r.rtp.menu.click_attempts == 0,
            !r.rtp.wait_done && !r.probe.inventory_probe_sent && !r.probe.gameplay_probe_sent,
            !r.probe.pickup_terminal_failed,
            !r.rtp.position_hint_received && !r.rtp.marker_position_hint_received,
            !r.rtp.terrain_position_hint_received,
            gameplay_idle(r.probe, r.targets),
            r.held_item is None && !r.targets.held_item_equipped,
            r.targets.break_target_attempts == 0 && r.targets.observed_break_candidate is None,
            r.terrain.wf(),
            r.terrain.solid_blocks@.len() == 0 && r.terrain.solid_block_runtime_ids@.len() == 0,
            r.terrain.rejected_break_targets@.len() == 0 && r.terrain.rejected_break_runtime_ids@.len() == 0,
            r.observed_item_entity is None && r.observed_item_entities@.len() == 0,
            r.rejected_item_entity_runtime_ids@.len() == 0,
    {
        ValidationState {
            rtp: RtpProgress {
                command_sent: false,
                command_sent_at: None,
                command_attempts: 0,
                menu: RtpMenuState::new(),
                container_close_sent: false,
                position_hint_received: false,
                position_hint_received_at: None,
                marker_position_hint_received: false,
                terrain_position_hint_received: false,
                terrain_position_hint_received_at: None,
                waiting_for_menu_reported: false,
                waiting_for_terrain_hint_reported: false,
                terrain_position_hint_failed_reported: false,
                wait_done: false,
            },
            probe: ProbeProgress {
                inventory_probe_sent: false,
                gameplay_probe_sent: false,
                gameplay_probe_sent_at: None,
                gameplay_timeout_reported: false,
                break_probe_started_at: None,
                break_last_sent_at: None,
                break_stop_sent: false,
                break_confirmed: false,
                break_confirmation_failed_reported: false,
                place_probe_sent: false,
                pickup_probe_started_at: None,
                pickup_last_sent_at: None,
                pickup_last_inventory_probe_at: None,
                pickup_frames_sent: 0,
                pickup_prebreak: false,
                pickup_failed_reported: false,
                pickup_terminal_failed: false,
                approach_last_sent_at: None,
                approach_frames_sent: 0,
            },
            targets: TargetProgress {
                break_target: None,
                break_target_runtime_id: None,
                place_base: None,
                place_result: None,
                break_target_attempts: 0,
                observed_break_candidate: None,
                held_item_equipped: false,
            },
            held_item: None,
            terrain: ObservedTerrain::new(),
            observed_item_entity: None,
            observed_item_entities: Vec::new(),
            rejected_item_entity_runtime_ids: Vec::new(),
        }
    }

    pub fn gameplay_idle(&self) -> (r: bool)
        ensures
            r == gameplay_idle(self.probe, self.targets),
    {
        self.targets.break_target.is_none() && self.probe.break_probe_started_at.is_none()
            && self.probe.pickup_probe_started_at.is_none() && !self.probe.break_confirmed && !self.probe.place_probe_sent
    }

    /// What a late random-teleport menu leads to, with menu clicks enabled or not.
    pub fn late_rtp_menu_action(&self, click_menu_enabled: bool) -> (r: LateMenuAction)
        ensures
            r == late_menu_action(self.rtp, self.probe, self.targets, click_menu_enabled),
    {
        if !self.rtp.command_sent || !click_menu_enabled {
            return LateMenuAction::Ignore;
        }
        if !(self.rtp.wait_done || self.probe.inventory_probe_sent || self.probe.gameplay_probe_sent
            || self.probe.pickup_terminal_failed) {
            return LateMenuAction::Ignore;
        }
        if self.rtp.menu.click_sent && self.rtp.menu.click_attempts >= RTP_MENU_MAX_CLICK_ATTEMPTS {
            return LateMenuAction::ClickMethodsExhausted;
        }
        if !self.gameplay_idle() {
            return LateMenuAction::GameplayActive;
        }
        LateMenuAction::ReopenWait
    }

    /// Handles a late random-teleport menu: when it reopens the wait, the
    /// waits and probes start over; otherwise nothing changes.
    pub fn recover_late_rtp_menu(&mut self, click_menu_enabled: bool) -> (r: LateMenuAction)
        ensures
            r == late_menu_action(old(self).rtp, old(self).probe, old(self).targets, click_menu_enabled),
            final(self).rtp == (if r == LateMenuAction::ReopenWait {
                rtp_reopened(old(self).rtp, true)
            } else {
                old(self).rtp
            }),
            final(self).probe == (if r == LateMenuAction::ReopenWait {
                probe_reopened(old(self).probe)
            } else {
                old(self).probe
            }),
            final(self).targets == old(self).targets,
            final(self).held_item == old(self).held_item,
            final(self).terrain == old(self).terrain,
            final(self).observed_item_entity == old(self).observed_item_entity,
            final(self).observed_item_entities == old(self).observed_item_entities,
            final(self).rejected_item_entity_runtime_ids == old(self).rejected_item_entity_runtime_ids,
    {
        let action = self.late_rtp_menu_action(click_menu_enabled);
        if let LateMenuAction::ReopenWait = action {
            self.rtp.wait_done = false;
            self.probe.inventory_probe_sent = false;
            self.rtp.container_close_sent = false;
            self.probe.pickup_terminal_failed = false;
            self.probe.gameplay_probe_sent = false;
            self.probe.gameplay_probe_sent_at = None;
            self.probe.gameplay_timeout_reported = false;
            self.rtp.waiting_for_menu_reported = false;
            self.rtp.waiting_for_terrain_hint_reported = false;
            self.rtp.terrain_position_hint_failed_reported = false;
        }
        action
    }

    /// Looks at an inventory item: a teleport menu entry is cached (and a
    /// late menu handled), and while nothing is held a placeable item becomes
    /// the held item, not yet equipped.
    pub fn record_observed_inventory_item(&mut self, item: &ObservedInventoryItem, click_menu_enabled: bool)
        ensures
            final(self).rtp == (if item_reopens(old(self).rtp, old(self).probe, old(self).targets, *item, click_menu_enabled) {
                rtp_reopened(with_menu(old(self).rtp, menu_after_item(old(self).rtp.menu, *item)), true)
            } else {
                with_menu(old(self).rtp, menu_after_item(old(self).rtp.menu, *item))
            }),
            final(self).probe == (if item_reopens(old(self).rtp, old(self).probe, old(self).targets, *item, click_menu_enabled) {
                probe_reopened(old(self).probe)
            } else {
                old(self).probe
            }),
            final(self).terrain == old(self).terrain,
            final(self).observed_item_entity == old(self).observed_item_entity,
            final(self).observed_item_entities == old(self).observed_item_entities,
            final(self).rejected_item_entity_runtime_ids == old(self).rejected_item_entity_runtime_ids,
            old(self).held_item is Some ==> final(self).held_item == old(self).held_item && final(self).targets
                == old(self).targets,
            old(self).held_item is None ==> match placeable_rejection(item.container_id, item.item_id, item.item_bytes@) {
                Some(_) => final(self).held_item is None && final(self).targets == old(self).targets,
                None => final(self).held_item matches Some(held) && held.container_id == item.container_id
                    && held.slot == item.slot && held.item_id == item.item_id && held.item_bytes@
                    == item.item_bytes@ && final(self).targets == (TargetProgress {
                    held_item_equipped: false,
                    ..old(self).targets
                }),
            },
    {
        let mut menu = self.rtp.menu;
        if menu.observe_menu_item(item) {
            self.rtp.menu = menu;
            self.recover_late_rtp_menu(click_menu_enabled);
        }
        if self.held_item.is_none() {
            if let Some(held) = held_inventory_candidate_from_observed(item) {
                self.held_item = Some(held);
                self.targets.held_item_equipped = false;
            }
        }
    }

    /// A far block update may still move the player: the command was sent
    /// and the menu clicked, no terrain position was taken, and no gameplay
    /// has started.
    pub fn can_accept_late_rtp_position_hint(&self) -> (r: bool)
        ensures
            r == (self.rtp.command_sent && self.rtp.menu.click_sent && !self.rtp.terrain_position_hint_received
                && gameplay_idle(self.probe, self.targets)),
    {
        self.rtp.command_sent && self.rtp.menu.click_sent && !self.rtp.terrain_position_hint_received
            && self.gameplay_idle()
    }

    /// Reopens the wait for a late position hint: the waits and probes start over.
    pub fn reopen_rtp_for_late_position_hint(&mut self)
        ensures
            final(self).rtp == rtp_reopened(old(self).rtp, false),
            final(self).probe == probe_reopened(old(self).probe),
            final(self).targets == old(self).targets,
            final(self).held_item == old(self).held_item,
            final(self).terrain == old(self).terrain,
            final(self).observed_item_entity == old(self).observed_item_entity,
            final(self).observed_item_entities == old(self).observed_item_entities,
            final(self).rejected_item_entity_runtime_ids == old(self).rejected_item_entity_runtime_ids,
    {
        self.rtp.wait_done = false;
        self.probe.inventory_probe_sent = false;
        self.probe.gameplay_probe_sent = false;
        self.probe.gameplay_probe_sent_at = None;
        self.probe.gameplay_timeout_reported = false;
        self.probe.pickup_terminal_failed = false;
        self.rtp.waiting_for_menu_reported = false;
        self.rtp.waiting_for_terrain_hint_reported = false;
        self.rtp.terrain_position_hint_failed_reported = false;
    }

    /// The broken block's drop may be picked up: the break was confirmed,
    /// nothing was placed, nothing is held, and pickup has not given up.
    pub fn ready_for_pickup(&self) -> (r: bool)
        ensures
            r == (self.probe.gameplay_probe_sent && self.probe.break_confirmed && !self.probe.place_probe_sent
                && self.held_item is None && !self.probe.pickup_terminal_failed),
    {
        self.probe.gameplay_probe_sent && self.probe.break_confirmed && !self.probe.place_probe_sent
            && self.held_item.is_none() && !self.probe.pickup_terminal_failed
    }

    /// A held block may be placed: the probe ran and nothing was placed yet.
    pub fn ready_for_place(&self) -> (r: bool)
        ensures
            r == (self.probe.gameplay_probe_sent && !self.probe.place_probe_sent && self.held_item is Some),
    {
        self.probe.gameplay_probe_sent && !self.probe.place_probe_sent && self.held_item.is_some()
    }

    /// Reads a block update as probe evidence: air at the break target
    /// confirms the break (remembered here, and block breaking counts as seen
    /// in `status`); a non-air block where the place probe put one confirms
    /// the place (block placing counts as seen). Nothing else changes.
    pub fn apply_update_block_evidence(&mut self, status: &mut CapabilityStatus, target: BlockTarget, runtime_id: u32) -> (r: BlockEvidence)
        ensures
            *final(status) == (CapabilityStatus {
                block_breaking: old(status).block_breaking || r.break_confirmed,
                block_placing: old(status).block_placing || r.place_confirmed,
                ..*old(status)
            }),
            r.break_confirmed == (old(self).targets.break_target == Some(target) && runtime_id
                == OBSERVED_AIR_RUNTIME_ID),
            r.place_confirmed == (old(self).probe.place_probe_sent && old(self).targets.place_result == Some(target)
                && runtime_id != OBSERVED_AIR_RUNTIME_ID),
            final(self).probe == (ProbeProgress {
                break_confirmed: old(self).probe.break_confirmed || r.break_confirmed,
                ..old(self).probe
            }),
            final(self).rtp == old(self).rtp,
            final(self).targets == old(self).targets,
            final(self).held_item == old(self).held_item,
            final(self).terrain == old(self).terrain,
            final(self).observed_item_entity == old(self).observed_item_entity,
            final(self).observed_item_entities == old(self).observed_item_entities,
            final(self).rejected_item_entity_runtime_ids == old(self).rejected_item_entity_runtime_ids,
    {
        let evidence = update_block_evidence(
            self.targets.break_target,
            self.probe.place_probe_sent,
            self.targets.place_result,
            target,
            runtime_id,
        );
        if evidence.break_confirmed {
            self.probe.break_confirmed = true;
            status.block_breaking = true;
        }
        if evidence.place_confirmed {
            status.block_placing = true;
        }
        evidence
    }

    /// Starts the random teleport over after the targets ran out, when the
    /// run used it and fewer than `RTP_MAX_COMMAND_ATTEMPTS` commands went
    /// out: the command, menu clicks, hints, waits, probes, targets, held item,
    /// kept blocks, rejected targets and item entities start over; the menu
    /// entry, the command count and the rejected runtime ids stay.
    pub fn reset_for_rtp_retry_after_target_failure(&mut self) -> (r: bool)
        ensures
            r == rtp_retry_allowed(old(self).rtp),
            !r ==> final(self).rtp == old(self).rtp && final(self).probe == old(self).probe && final(self).targets
                == old(self).targets && final(self).held_item == old(self).held_item && final(self).terrain == old(
                self,
            ).terrain && final(self).observed_item_entity == old(self).observed_item_entity
                && final(self).observed_item_entities == old(self).observed_item_entities
                && final(self).rejected_item_entity_runtime_ids == old(self).rejected_item_entity_runtime_ids,
            r ==> {
                &&& final(self).rtp == rtp_retried(old(self).rtp)
                &&& final(self).probe == probe_cleared(false, false)
                &&& final(self).targets == targets_cleared(0, None, false)
                &&& final(self).held_item is None
                &&& final(self).terrain.solid_blocks@.len() == 0
                &&& final(self).terrain.solid_block_runtime_ids@.len() == 0
                &&& final(self).terrain.rejected_break_targets@.len() == 0
                &&& final(self).terrain.rejected_break_runtime_ids == old(self).terrain.rejected_break_runtime_ids
                &&& final(self).observed_item_entity is None
                &&& final(self).observed_item_entities@.len() == 0
                &&& final(self).rejected_item_entity_runtime_ids@.len() == 0
            },
    {
        let used_rtp_flow: bool = self.rtp.command_sent || self.rtp.menu.click_sent || self.rtp.wait_done;
        if !used_rtp_flow {
            return false;
        }
        if self.rtp.command_attempts >= RTP_MAX_COMMAND_ATTEMPTS {
            return false;
        }
        self.rtp.command_sent = false;
        self.rtp.command_sent_at = None;
        self.rtp.menu.click_sent = false;
        self.rtp.menu.click_sent_at = None;
        self.rtp.menu.click_attempts = 0;
        self.rtp.menu.last_click_attempt_at = None;
        self.rtp.container_close_sent = false;
        self.rtp.position_hint_received = false;
        self.rtp.position_hint_received_at = None;
        self.rtp.marker_position_hint_received = false;
        self.rtp.terrain_position_hint_received = false;
        self.rtp.terrain_position_hint_received_at = None;
        self.rtp.waiting_for_menu_reported = false;
        self.rtp.waiting_for_terrain_hint_reported = false;
        self.rtp.terrain_position_hint_failed_reported = false;
        self.rtp.wait_done = false;
        self.probe = ProbeProgress {
            inventory_probe_sent: false,
            gameplay_probe_sent: false,
            gameplay_probe_sent_at: None,
            gameplay_timeout_reported: false,
            break_probe_started_at: None,
            break_last_sent_at: None,
            break_stop_sent: false,
            break_confirmed: false,
            break_confirmation_failed_reported: false,
            place_probe_sent: false,
            pickup_probe_started_at: None,
            pickup_last_sent_at: None,
            pickup_last_inventory_probe_at: None,
            pickup_frames_sent: 0,
            pickup_prebreak: false,
            pickup_failed_reported: false,
            pickup_terminal_failed: false,
            approach_last_sent_at: None,
            approach_frames_sent: 0,
        };
        self.targets = TargetProgress {
            break_target: None,
            break_target_runtime_id: None,
            place_base: None,
            place_result: None,
            break_target_attempts: 0,
            observed_break_candidate: None,
            held_item_equipped: false,
        };
        self.held_item = None;
        self.terrain.rejected_break_targets.clear();
        self.terrain.solid_blocks.clear();
        self.terrain.solid_block_runtime_ids.clear();
        self.observed_item_entity = None;
        self.observed_item_entities.clear();
        self.rejected_item_entity_runtime_ids.clear();
        true
    }


    /// The reopen step of a block update: a far hint reopens a wait that
    /// had moved on while the run could still take it.
    fn reopen_step(&mut self, far_position_hint: bool)
        ensures
            final(self).rtp == rtp_reopen_step(old(self).rtp, old(self).probe, old(self).targets, far_position_hint),
            final(self).probe == probe_reopen_step(old(self).rtp, old(self).probe, old(self).targets, far_position_hint),
            final(self).targets == old(self).targets,
            final(self).held_item == old(self).held_item,
            final(self).terrain == old(self).terrain,
            final(self).observed_item_entity == old(self).observed_item_entity,
            final(self).observed_item_entities == old(self).observed_item_entities,
            final(self).rejected_item_entity_runtime_ids == old(self).rejected_item_entity_runtime_ids,
    {
        if far_position_hint && (self.rtp.wait_done || self.probe.gameplay_probe_sent)
            && self.can_accept_late_rtp_position_hint() {
            self.reopen_rtp_for_late_position_hint();
        }
    }

    /// The candidate step of a block update.
    fn candidate_step(&mut self, target: BlockTarget, runtime_id: u32, layer: u32, movement_completed: bool)
        ensures
            final(self).targets == (TargetProgress {
                observed_break_candidate: candidate_step(
                    old(self).rtp,
                    old(self).probe,
                    old(self).targets.observed_break_candidate,
                    target,
                    runtime_id,
                    layer,
                    movement_completed,
                ),
                ..old(self).targets
            }),
            final(self).rtp == old(self).rtp,
            final(self).probe == old(self).probe,
            final(self).held_item == old(self).held_item,
            final(self).terrain == old(self).terrain,
            final(self).observed_item_entity == old(self).observed_item_entity,
            final(self).observed_item_entities == old(self).observed_item_entities,
            final(self).rejected_item_entity_runtime_ids == old(self).rejected_item_entity_runtime_ids,
    {
        let in_phase: bool = movement_completed || self.rtp.command_sent || self.rtp.menu.click_sent;
        if in_phase && !self.rtp.wait_done && !self.probe.gameplay_probe_sent && layer == 0 {
            if runtime_id == OBSERVED_AIR_RUNTIME_ID {
                let under = BlockTarget { x: target.x, y: if target.y == i32::MIN { i32::MIN } else { target.y - 1 }, z: target.z };
                let clears: bool = match self.targets.observed_break_candidate {
                    Some(c) => same_block(c, target) || same_block(c, under),
                    None => false,
                };
                if clears {
                    self.targets.observed_break_candidate = None;
                }
            } else if runtime_id != OBSERVED_CHEST_RUNTIME_ID {
                self.targets.observed_break_candidate = Some(target);
            }
        }
    }

    /// The hint step of a block update: whether it counts as where the
    /// teleport landed, or as a marker hint.
    fn hint_step(
        &mut self,
        target: BlockTarget,
        runtime_id: u32,
        movement_completed: bool,
        far_position_hint: bool,
        now_millis: u64,
    ) -> (r: Option<BlockTarget>)
        ensures
            ({
                let adopted = hint_adopted(old(self).rtp, old(self).probe, runtime_id, movement_completed, far_position_hint);
                let marked = hint_marked(old(self).rtp, old(self).probe, runtime_id, movement_completed, far_position_hint);
                &&& r == (if adopted { Some(target) } else { None })
                &&& final(self).rtp == rtp_after_hint(old(self).rtp, adopted, marked, now_millis)
                &&& final(self).probe == probe_after_hint(old(self).probe, adopted)
                &&& final(self).targets == targets_after_hint(old(self).targets, adopted)
                &&& final(self).held_item == old(self).held_item
                &&& final(self).terrain == old(self).terrain
                &&& adopted ==> final(self).observed_item_entity is None && final(self).observed_item_entities@.len() == 0
                    && final(self).rejected_item_entity_runtime_ids@.len() == 0
                &&& !adopted ==> final(self).observed_item_entity == old(self).observed_item_entity
                    && final(self).observed_item_entities == old(self).observed_item_entities
                    && final(self).rejected_item_entity_runtime_ids == old(self).rejected_item_entity_runtime_ids
            }),
    {
        let in_phase: bool = movement_completed || self.rtp.command_sent || self.rtp.menu.click_sent;
        if !far_position_hint || !in_phase || self.rtp.wait_done || self.probe.gameplay_probe_sent {
            return None;
        }
        if runtime_id == OBSERVED_AIR_RUNTIME_ID {
            return None;
        }
        if runtime_id == OBSERVED_CHEST_RUNTIME_ID {
            self.rtp.position_hint_received = true;
            if self.rtp.position_hint_received_at.is_none() {
                self.rtp.position_hint_received_at = Some(now_millis);
            }
            self.rtp.marker_position_hint_received = true;
            return None;
        }
        if !self.rtp.marker_position_hint_received && !self.rtp.menu.click_sent && !self.rtp.command_sent {
            return None;
        }
        if self.rtp.terrain_position_hint_received {
            return None;
        }
        self.rtp.position_hint_received = true;
        self.rtp.position_hint_received_at = Some(now_millis);
        self.rtp.terrain_position_hint_received = true;
        self.rtp.terrain_position_hint_received_at = Some(now_millis);
        self.rtp.waiting_for_terrain_hint_reported = false;
        self.rtp.terrain_position_hint_failed_reported = false;
        self.targets.break_target = None;
        self.targets.break_target_runtime_id = None;
        self.targets.place_base = None;
        self.targets.place_result = None;
        self.probe.break_probe_started_at = None;
        self.probe.break_last_sent_at = None;
        self.probe.break_stop_sent = false;
        self.observed_item_entity = None;
        self.observed_item_entities.clear();
        self.rejected_item_entity_runtime_ids.clear();
        if self.rtp.menu.click_sent {
            self.rtp.menu.click_attempts = RTP_MENU_MAX_CLICK_ATTEMPTS;
        }
        Some(target)
    }

    /// Reads a block update during the teleport: on layer 0 the kept blocks
    /// follow it; a far update may reopen a wait that had moved on; while the
    /// run waits in its teleport phase the update moves the observed break
    /// candidate; and a far update may count as where the teleport landed.
    /// Gives the block the player now stands on top of when the update was
    /// taken as that position (the caller moves the player there). The reach
    /// flags are those `ObservedTerrain::remember_observed_solid_block` takes.
    pub fn record_rtp_position_hint_from_update_block(
        &mut self,
        target: BlockTarget,
        runtime_id: u32,
        layer: u32,
        movement_completed: bool,
        far_position_hint: bool,
        now_millis: u64,
        within_reach: &[bool],
        target_within_reach: bool,
    ) -> (r: Option<BlockTarget>)
        requires
            within_reach@.len() == old(self).terrain.solid_blocks@.len(),
        ensures
            (final(self).terrain.solid_blocks@, final(self).terrain.solid_block_runtime_ids@) == updated_blocks(
                old(self).terrain.solid_blocks@,
                old(self).terrain.solid_block_runtime_ids@,
                target,
                runtime_id,
                layer,
                within_reach@,
                target_within_reach,
            ),
            final(self).terrain.rejected_break_targets@ == old(self).terrain.rejected_break_targets@,
            final(self).terrain.rejected_break_runtime_ids@ == old(self).terrain.rejected_break_runtime_ids@,
            old(self).terrain.wf() ==> final(self).terrain.wf(),
            final(self).held_item == old(self).held_item,
            ({
                let rtp1 = rtp_reopen_step(old(self).rtp, old(self).probe, old(self).targets, far_position_hint);
                let probe1 = probe_reopen_step(old(self).rtp, old(self).probe, old(self).targets, far_position_hint);
                let candidate = candidate_step(
                    rtp1,
                    probe1,
                    old(self).targets.observed_break_candidate,
                    target,
                    runtime_id,
                    layer,
                    movement_completed,
                );
                let adopted = hint_adopted(rtp1, probe1, runtime_id, movement_completed, far_position_hint);
                let marked = hint_marked(rtp1, probe1, runtime_id, movement_completed, far_position_hint);
                &&& r == (if adopted { Some(target) } else { None })
                &&& final(self).rtp == rtp_after_hint(rtp1, adopted, marked, now_millis)
                &&& final(self).probe == probe_after_hint(probe1, adopted)
                &&& final(self).targets == targets_after_hint(
                    TargetProgress { observed_break_candidate: candidate, ..old(self).targets },
                    adopted,
                )
                &&& adopted ==> final(self).observed_item_entity is None && final(self).observed_item_entities@.len() == 0
                    && final(self).rejected_item_entity_runtime_ids@.len() == 0
                &&& !adopted ==> final(self).observed_item_entity == old(self).observed_item_entity
                    && final(self).observed_item_entities == old(self).observed_item_entities
                    && final(self).rejected_item_entity_runtime_ids == old(self).rejected_item_entity_runtime_ids
            }),
    {
        self.terrain.record_update_block_terrain(target, runtime_id, layer, within_reach, target_within_reach);
        self.reopen_step(far_position_hint);
        self.candidate_step(target, runtime_id, layer, movement_completed);
        self.hint_step(target, runtime_id, movement_completed, far_position_hint, now_millis)
    }

    /// Gives up on `prev` as the break target: the terrain rejects it (with
    /// the runtime id it was chosen for) and it stops being the candidate.
    fn reject_break_target(&mut self, prev: BlockTarget)
        ensures
            ObservedTerrain::rejected(old(self).terrain, final(self).terrain, prev, old(self).targets.break_target_runtime_id),
            old(self).terrain.wf() ==> final(self).terrain.wf(),
            final(self).targets == (TargetProgress {
                observed_break_candidate: if old(self).targets.observed_break_candidate == Some(prev) {
                    None
                } else {
                    old(self).targets.observed_break_candidate
                },
                ..old(self).targets
            }),
            final(self).rtp == old(self).rtp,
            final(self).probe == old(self).probe,
            final(self).held_item == old(self).held_item,
            final(self).observed_item_entity == old(self).observed_item_entity,
            final(self).observed_item_entities == old(self).observed_item_entities,
            final(self).rejected_item_entity_runtime_ids == old(self).rejected_item_entity_runtime_ids,
    {
        self.terrain.reject_failed_break_target(prev, self.targets.break_target_runtime_id);
        let clears: bool = match self.targets.observed_break_candidate {
            Some(c) => same_block(c, prev),
            None => false,
        };
        if clears {
            self.targets.observed_break_candidate = None;
        }
    }

    /// Drops the item entities the pickup was following.
    fn clear_item_entities(&mut self)
        ensures
            final(self).observed_item_entity is None,
            final(self).observed_item_entities@.len() == 0,
            final(self).rejected_item_entity_runtime_ids@.len() == 0,
            final(self).rtp == old(self).rtp,
            final(self).probe == old(self).probe,
            final(self).targets == old(self).targets,
            final(self).held_item == old(self).held_item,
            final(self).terrain == old(self).terrain,
    {
        self.observed_item_entity = None;
        self.observed_item_entities.clear();
        self.rejected_item_entity_runtime_ids.clear();
    }

    /// After the break target could not be broken: the target (and its
    /// runtime id) is rejected and one more attempt counted; then the run
    /// gives up (too many attempts, or no next target and no teleport retry
    /// left), starts the teleport over (no next target), or clears the probes
    /// for the next target, keeping the held item. `has_next_target` tells
    /// whether a next target is within the caller's reach. Gives whether the
    /// run goes on.
    pub fn prepare_next_break_target_after_break_failure(&mut self, has_next_target: bool) -> (r: bool)
        ensures
            match old(self).targets.break_target {
                None => !r && final(self).probe == (ProbeProgress { pickup_terminal_failed: true, ..old(self).probe })
                    && final(self).rtp == old(self).rtp && final(self).targets == old(self).targets
                    && final(self).held_item == old(self).held_item && final(self).terrain == old(self).terrain
                    && final(self).observed_item_entities == old(self).observed_item_entities,
                Some(prev) => {
                    let candidate = if old(self).targets.observed_break_candidate == Some(prev) {
                        None
                    } else {
                        old(self).targets.observed_break_candidate
                    };
                    let outcome = target_failure(
                        old(self).targets.break_target_attempts,
                        has_next_target,
                        rtp_retry_allowed(old(self).rtp),
                    );
                    let rejected_ids = old(self).terrain.rejected_ids_after(prev, old(self).targets.break_target_runtime_id);
                    match outcome.1 {
                        TargetFailureOutcome::GiveUp => {
                            &&& !r
                            &&& final(self).probe == (ProbeProgress { pickup_terminal_failed: true, ..old(self).probe })
                            &&& final(self).targets == (TargetProgress {
                                break_target_attempts: outcome.0,
                                observed_break_candidate: candidate,
                                ..old(self).targets
                            })
                            &&& final(self).rtp == old(self).rtp
                            &&& final(self).held_item == old(self).held_item
                            &&& ObservedTerrain::rejected(old(self).terrain, final(self).terrain, prev, old(self).targets.break_target_runtime_id)
                            &&& final(self).observed_item_entities == old(self).observed_item_entities
                        },
                        TargetFailureOutcome::RetryTeleport => {
                            &&& r
                            &&& final(self).rtp == rtp_retried(old(self).rtp)
                            &&& final(self).probe == probe_cleared(false, false)
                            &&& final(self).targets == targets_cleared(0, None, false)
                            &&& final(self).held_item is None
                            &&& final(self).terrain.solid_blocks@.len() == 0
                            &&& final(self).terrain.solid_block_runtime_ids@.len() == 0
                            &&& final(self).terrain.rejected_break_targets@.len() == 0
                            &&& final(self).terrain.rejected_break_runtime_ids@ == rejected_ids
                            &&& final(self).observed_item_entities@.len() == 0
                        },
                        TargetFailureOutcome::NextTarget => {
                            &&& r
                            &&& final(self).probe == probe_cleared(
                                old(self).probe.inventory_probe_sent,
                                old(self).probe.pickup_terminal_failed,
                            )
                            &&& final(self).targets == targets_cleared(outcome.0, candidate, old(self).targets.held_item_equipped)
                            &&& final(self).rtp == old(self).rtp
                            &&& final(self).held_item == old(self).held_item
                            &&& ObservedTerrain::rejected(old(self).terrain, final(self).terrain, prev, old(self).targets.break_target_runtime_id)
                            &&& final(self).observed_item_entity is None
                            &&& final(self).observed_item_entities@.len() == 0
                            &&& final(self).rejected_item_entity_runtime_ids@.len() == 0
                        },
                    }
                },
            },
    {
        let prev = match self.targets.break_target {
            Some(t) => t,
            None => {
                self.probe.pickup_terminal_failed = true;
                return false;
            },
        };
        let retry_allowed: bool = (self.rtp.command_sent || self.rtp.menu.click_sent || self.rtp.wait_done)
            && self.rtp.command_attempts < RTP_MAX_COMMAND_ATTEMPTS;
        self.reject_break_target(prev);
        let (attempts, outcome) = after_target_failure(self.targets.break_target_attempts, has_next_target, retry_allowed);
        self.targets.break_target_attempts = attempts;
        match outcome {
            TargetFailureOutcome::GiveUp => {
                self.probe.pickup_terminal_failed = true;
                false
            },
            TargetFailureOutcome::RetryTeleport => {
                self.reset_for_rtp_retry_after_target_failure();
                true
            },
            TargetFailureOutcome::NextTarget => {
                let inventory_probe_sent = self.probe.inventory_probe_sent;
                let pickup_terminal_failed = self.probe.pickup_terminal_failed;
                self.probe = ProbeProgress {
                    inventory_probe_sent,
                    gameplay_probe_sent: false,
                    gameplay_probe_sent_at: None,
                    gameplay_timeout_reported: false,
                    break_probe_started_at: None,
                    break_last_sent_at: None,
                    break_stop_sent: false,
                    break_confirmed: false,
                    break_confirmation_failed_reported: false,
                    place_probe_sent: false,
                    pickup_probe_started_at: None,
                    pickup_last_sent_at: None,
                    pickup_last_inventory_probe_at: None,
                    pickup_frames_sent: 0,
                    pickup_prebreak: false,
                    pickup_failed_reported: false,
                    pickup_terminal_failed,
                    approach_last_sent_at: None,
                    approach_frames_sent: 0,
                };
                self.targets.break_target = None;
                self.targets.break_target_runtime_id = None;
                self.targets.place_base = None;
                self.targets.place_result = None;
                self.clear_item_entities();
                true
            },
        }
    }

    /// After the broken block's drop could not be picked up: like a failed
    /// break (the target is rejected and an attempt counted, then give up,
    /// teleport again, or go on), except that nothing happens without a break
    /// target, and going on drops the held item and clears the pickup's
    /// failure.
    pub fn prepare_next_break_target_after_pickup_failure(&mut self, has_next_target: bool) -> (r: bool)
        ensures
            match old(self).targets.break_target {
                None => !r && final(self).probe == old(self).probe && final(self).rtp == old(self).rtp
                    && final(self).targets == old(self).targets && final(self).held_item == old(self).held_item
                    && final(self).terrain == old(self).terrain
                    && final(self).observed_item_entities == old(self).observed_item_entities,
                Some(prev) => {
                    let candidate = if old(self).targets.observed_break_candidate == Some(prev) {
                        None
                    } else {
                        old(self).targets.observed_break_candidate
                    };
                    let outcome = target_failure(
                        old(self).targets.break_target_attempts,
                        has_next_target,
                        rtp_retry_allowed(old(self).rtp),
                    );
                    let rejected_ids = old(self).terrain.rejected_ids_after(prev, old(self).targets.break_target_runtime_id);
                    match outcome.1 {
                        TargetFailureOutcome::GiveUp => {
                            &&& !r
                            &&& final(self).probe == (ProbeProgress { pickup_terminal_failed: true, ..old(self).probe })
                            &&& final(self).targets == (TargetProgress {
                                break_target_attempts: outcome.0,
                                observed_break_candidate: candidate,
                                ..old(self).targets
                            })
                            &&& final(self).rtp == old(self).rtp
                            &&& final(self).held_item == old(self).held_item
                            &&& ObservedTerrain::rejected(old(self).terrain, final(self).terrain, prev, old(self).targets.break_target_runtime_id)
                            &&& final(self).observed_item_entities == old(self).observed_item_entities
                        },
                        TargetFailureOutcome::RetryTeleport => {
                            &&& r
                            &&& final(self).rtp == rtp_retried(old(self).rtp)
                            &&& final(self).probe == probe_cleared(false, false)
                            &&& final(self).targets == targets_cleared(0, None, false)
                            &&& final(self).held_item is None
                            &&& final(self).terrain.solid_blocks@.len() == 0
                            &&& final(self).terrain.solid_block_runtime_ids@.len() == 0
                            &&& final(self).terrain.rejected_break_targets@.len() == 0
                            &&& final(self).terrain.rejected_break_runtime_ids@ == rejected_ids
                            &&& final(self).observed_item_entities@.len() == 0
                        },
                        TargetFailureOutcome::NextTarget => {
                            &&& r
                            &&& final(self).probe == probe_cleared(old(self).probe.inventory_probe_sent, false)
                            &&& final(self).targets == targets_cleared(outcome.0, candidate, false)
                            &&& final(self).rtp == old(self).rtp
                            &&& final(self).held_item is None
                            &&& ObservedTerrain::rejected(old(self).terrain, final(self).terrain, prev, old(self).targets.break_target_runtime_id)
                            &&& final(self).observed_item_entity is None
                            &&& final(self).observed_item_entities@.len() == 0
                            &&& final(self).rejected_item_entity_runtime_ids@.len() == 0
                        },
                    }
                },
            },
    {
        let prev = match self.targets.break_target {
            Some(t) => t,
            None => return false,
        };
        let retry_allowed: bool = (self.rtp.command_sent || self.rtp.menu.click_sent || self.rtp.wait_done)
            && self.rtp.command_attempts < RTP_MAX_COMMAND_ATTEMPTS;
        self.reject_break_target(prev);
        let (attempts, outcome) = after_target_failure(self.targets.break_target_attempts, has_next_target, retry_allowed);
        self.targets.break_target_attempts = attempts;
        match outcome {
            TargetFailureOutcome::GiveUp => {
                self.probe.pickup_terminal_failed = true;
                false
            },
            TargetFailureOutcome::RetryTeleport => {
                self.reset_for_rtp_retry_after_target_failure();
                true
            },
            TargetFailureOutcome::NextTarget => {
                let inventory_probe_sent = self.probe.inventory_probe_sent;
                self.probe = ProbeProgress {
                    inventory_probe_sent,
                    gameplay_probe_sent: false,
                    gameplay_probe_sent_at: None,
                    gameplay_timeout_reported: false,
                    break_probe_started_at: None,
                    break_last_sent_at: None,
                    break_stop_sent: false,
                    break_confirmed: false,
                    break_confirmation_failed_reported: false,
                    place_probe_sent: false,
                    pickup_probe_started_at: None,
                    pickup_last_sent_at: None,
                    pickup_last_inventory_probe_at: None,
                    pickup_frames_sent: 0,
                    pickup_prebreak: false,
                    pickup_failed_reported: false,
                    pickup_terminal_failed: false,
                    approach_last_sent_at: None,
                    approach_frames_sent: 0,
                };
                self.targets.break_target = None;
                self.targets.break_target_runtime_id = None;
                self.targets.place_base = None;
                self.targets.place_result = None;
                self.targets.held_item_equipped = false;
                self.held_item = None;
                self.clear_item_entities();
                true
            },
        }
    }

    /// The break target choice, given what only the caller's position can
    /// tell: the nearest allowed kept block in reach (`nearest_observed`),
    /// whether the observed candidate is in reach, the first allowed fallback
    /// block around the feet, the block ahead of the player, and whether a
    /// placeable drop is within walking range.
    pub open spec fn spec_target_choice(
        self,
        nearest_observed: Option<BlockTarget>,
        candidate_in_reach: bool,
        fallback: Option<BlockTarget>,
        forward_guess: BlockTarget,
        walkable_placeable_available: bool,
    ) -> TargetChoice {
        let require_placeable_drop = self.held_item is None;
        if self.targets.break_target is Some {
            TargetChoice::AlreadyChosen
        } else if nearest_observed is Some {
            TargetChoice::Chosen(nearest_observed->0)
        } else if self.targets.observed_break_candidate matches Some(c) && self.terrain.allows_candidate(
            require_placeable_drop,
            c,
        ) && candidate_in_reach {
            TargetChoice::Chosen(self.targets.observed_break_candidate->0)
        } else if !require_placeable_drop {
            TargetChoice::Chosen(
                match fallback {
                    Some(f) => f,
                    None => forward_guess,
                },
            )
        } else if self.terrain.placeable_count_upto(self.terrain.solid_blocks@.len()) == 0 {
            TargetChoice::GaveUp
        } else if walkable_placeable_available {
            TargetChoice::Deferred
        } else {
            TargetChoice::GaveUp
        }
    }

    /// Chooses the break target when none is set: the nearest kept block in
    /// reach, else the observed candidate in reach; with an item held, else
    /// a fallback block around the feet or the block ahead; with nothing held
    /// (a placeable drop is needed) the choice waits for an approach when
    /// placeable drops were seen within walking range, and gives up otherwise.
    pub fn choose_gameplay_target(
        &mut self,
        nearest_observed: Option<BlockTarget>,
        candidate_in_reach: bool,
        fallback: Option<BlockTarget>,
        forward_guess: BlockTarget,
        walkable_placeable_available: bool,
    ) -> (r: TargetChoice)
        ensures
            r == old(self).spec_target_choice(
                nearest_observed,
                candidate_in_reach,
                fallback,
                forward_guess,
                walkable_placeable_available,
            ),
            final(self).probe == (if r == TargetChoice::GaveUp {
                ProbeProgress { pickup_terminal_failed: true, ..old(self).probe }
            } else {
                old(self).probe
            }),
            final(self).rtp == old(self).rtp,
            final(self).targets == old(self).targets,
            final(self).held_item == old(self).held_item,
            final(self).terrain == old(self).terrain,
            final(self).observed_item_entity == old(self).observed_item_entity,
            final(self).observed_item_entities == old(self).observed_item_entities,
            final(self).rejected_item_entity_runtime_ids == old(self).rejected_item_entity_runtime_ids,
    {
        if self.targets.break_target.is_some() {
            return TargetChoice::AlreadyChosen;
        }
        let require_placeable_drop: bool = self.held_item.is_none();
        if let Some(t) = nearest_observed {
            return TargetChoice::Chosen(t);
        }
        if let Some(c) = self.targets.observed_break_candidate {
            let allowed: bool = if require_placeable_drop {
                self.terrain.break_target_allowed_for_place_collection(c)
            } else {
                self.terrain.break_target_allowed(c)
            };
            if allowed && candidate_in_reach {
                return TargetChoice::Chosen(c);
            }
        }
        if !require_placeable_drop {
            return TargetChoice::Chosen(
                match fallback {
                    Some(f) => f,
                    None => forward_guess,
                },
            );
        }
        if self.terrain.observed_placeable_drop_count() == 0 {
            self.probe.pickup_terminal_failed = true;
            return TargetChoice::GaveUp;
        }
        if walkable_placeable_available {
            return TargetChoice::Deferred;
        }
        self.probe.pickup_terminal_failed = true;
        TargetChoice::GaveUp
    }

    /// Takes a chosen target when it is within the caller's reach: it becomes
    /// the break target, with the runtime id it was last seen with and the
    /// place geometry for putting a block back; out of reach, no break target
    /// is set.
    pub fn adopt_break_target(&mut self, target: BlockTarget, in_reach: bool)
        requires
            runtime_of(old(self).terrain.solid_block_runtime_ids@, target) == Some(SPRUCE_BUTTON_CEILING_RUNTIME_ID)
                ==> target.y < i32::MAX,
        ensures
            in_reach ==> final(self).targets == (TargetProgress {
                break_target: Some(target),
                break_target_runtime_id: runtime_of(old(self).terrain.solid_block_runtime_ids@, target),
                place_base: Some(place_base_of(target, runtime_of(old(self).terrain.solid_block_runtime_ids@, target))),
                place_result: Some(target),
                ..old(self).targets
            }),
            !in_reach ==> final(self).targets == (TargetProgress {
                break_target: None,
                break_target_runtime_id: None,
                ..old(self).targets
            }),
            final(self).rtp == old(self).rtp,
            final(self).probe == old(self).probe,
            final(self).held_item == old(self).held_item,
            final(self).terrain == old(self).terrain,
            final(self).observed_item_entity == old(self).observed_item_entity,
            final(self).observed_item_entities == old(self).observed_item_entities,
            final(self).rejected_item_entity_runtime_ids == old(self).rejected_item_entity_runtime_ids,
    {
        if !in_reach {
            self.targets.break_target = None;
            self.targets.break_target_runtime_id = None;
            return;
        }
        let runtime_id = self.terrain.observed_target_runtime_id(target);
        let geometry = place_geometry_for_break_target(target, runtime_id);
        self.targets.break_target = Some(target);
        self.targets.break_target_runtime_id = runtime_id;
        self.targets.place_base = Some(geometry.base);
        self.targets.place_result = Some(geometry.result);
    }
}

} // verus!
