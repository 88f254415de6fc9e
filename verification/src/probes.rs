//! The timed break and pickup probes: at each tick of the run, what the
//! probe does next. The caller keeps the clock (milliseconds), sends what the
//! step asks for, and works out the geometry (aim, frame positions, reach).

use vstd::prelude::*;
use crate::commands::{fallback_rtp_command, rtp_fallback, RTP_MAX_COMMAND_ATTEMPTS};
use crate::menu::{
    break_face_for_runtime_id, method_of_attempt, BlockTarget, MenuClickMethod, MenuClickTarget, BLOCK_FACE_DOWN,
    BLOCK_FACE_UP, RTP_MENU_MAX_CLICK_ATTEMPTS, SPRUCE_BUTTON_CEILING_RUNTIME_ID,
};
use crate::gameplay::RtpMenuState;
use crate::status::CapabilityStatus;
use crate::terrain::runtime_of;
use crate::text::{str_chars, trim_char_vec, trimmed};
use crate::validation::{probe_after_hint, targets_after_hint, ProbeProgress, RtpProgress, ValidationState};

verus! {

/// How often the break probe sends, in milliseconds.
pub const GAMEPLAY_BREAK_SEND_INTERVAL_MILLIS: u64 = 200;
/// How long the block is mined before the break is finished.
pub const GAMEPLAY_BREAK_DURATION_MILLIS: u64 = 6_000;
/// How long after the mining time the server has to confirm the break.
pub const GAMEPLAY_BREAK_CONFIRM_TIMEOUT_MILLIS: u64 = 5_000;
/// How long the pickup walk lasts before it counts as failed.
pub const GAMEPLAY_PICKUP_DURATION_MILLIS: u64 = 8_000;
/// How often the pickup walk sends a movement frame.
pub const GAMEPLAY_PICKUP_SEND_INTERVAL_MILLIS: u64 = 200;
/// How often the pickup walk probes the inventory.
pub const GAMEPLAY_PICKUP_INVENTORY_PROBE_INTERVAL_MILLIS: u64 = 1_000;

/// Milliseconds from `since` to `now`; zero when the clock reads earlier.
pub open spec fn elapsed(now: u64, since: u64) -> u64 {
    if now >= since {
        (now - since) as u64
    } else {
        0
    }
}

fn elapsed_millis(now: u64, since: u64) -> (r: u64)
    ensures
        r == elapsed(now, since),
{
    if now >= since {
        now - since
    } else {
        0
    }
}

/// What the break probe does at this tick.
#[derive(Debug, Clone, Copy, PartialEq, Eq)]
pub enum BreakAction {
    /// No break started yet: send the gameplay action probe that starts it.
    StartProbe,
    /// Nothing to send now.
    Wait,
    /// The break started without a target: the run fails.
    MissingTarget,
    /// Keep mining: two continue-destroy actions on the target's face.
    Continue { target: BlockTarget, face: i32 },
    /// Mining time is up: a predictive break and a stop-break on the face.
    Finish { target: BlockTarget, face: i32 },
    /// The server never confirmed the break: the caller moves to the next
    /// target (`prepare_next_break_target_after_break_failure`).
    ConfirmationFailed,
}

/// The face a break aims at: down for a ceiling button, else up.
pub open spec fn face_of(runtime_id: Option<u32>) -> i32 {
    if runtime_id == Some(SPRUCE_BUTTON_CEILING_RUNTIME_ID) {
        BLOCK_FACE_DOWN
    } else {
        BLOCK_FACE_UP
    }
}

/// The break probe's progress and action at `now`, where `target` is the
/// break target with the runtime id it was chosen for, else `observed` (the
/// one it was last seen with).
pub open spec fn break_decision(
    probe: ProbeProgress,
    target: Option<BlockTarget>,
    chosen_runtime_id: Option<u32>,
    observed: Option<u32>,
    now: u64,
) -> (ProbeProgress, BreakAction) {
    match probe.break_probe_started_at {
        None => (probe, BreakAction::StartProbe),
        Some(started) => if probe.break_last_sent_at matches Some(sent) && elapsed(now, sent)
            < GAMEPLAY_BREAK_SEND_INTERVAL_MILLIS {
            (probe, BreakAction::Wait)
        } else {
            match target {
                None => (probe, BreakAction::MissingTarget),
                Some(t) => {
                    let face = face_of(if chosen_runtime_id is Some { chosen_runtime_id } else { observed });
                    let e = elapsed(now, started);
                    if probe.break_stop_sent {
                        if e >= GAMEPLAY_BREAK_DURATION_MILLIS + GAMEPLAY_BREAK_CONFIRM_TIMEOUT_MILLIS
                            && !probe.break_confirmed && !probe.break_confirmation_failed_reported {
                            (
                                ProbeProgress { break_confirmation_failed_reported: true, ..probe },
                                BreakAction::ConfirmationFailed,
                            )
                        } else {
                            (probe, BreakAction::Wait)
                        }
                    } else if e < GAMEPLAY_BREAK_DURATION_MILLIS {
                        (
                            ProbeProgress { break_last_sent_at: Some(now), ..probe },
                            BreakAction::Continue { target: t, face },
                        )
                    } else {
                        (
                            ProbeProgress { break_stop_sent: true, break_last_sent_at: Some(now), ..probe },
                            BreakAction::Finish { target: t, face },
                        )
                    }
                },
            }
        },
    }
}

/// How a pickup tick ends.
#[derive(Debug, Clone, Copy, PartialEq, Eq)]
pub enum PickupOutcome {
    /// Pickup already gave up for good: nothing happens.
    Terminal,
    /// Time ran out with nothing picked up, reported now: the caller tries
    /// the next item entity (`prebreak`) or the next break target.
    Failed { prebreak: bool },
    /// Time ran out earlier, or an item is held: nothing more happens.
    Expired,
    /// The last frame went out too recently.
    Wait,
    /// There is nowhere to walk to.
    NoTarget,
    /// Send the next walking frame, numbered `frame_index`.
    Frame { frame_index: u64 },
}

/// What a pickup tick does: whether it started the pickup now, whether it
/// sends an inventory probe, and how it ends.
#[derive(Debug, Clone, Copy, PartialEq, Eq)]
pub struct PickupStep {
    pub started: bool,
    pub inventory_probe: bool,
    pub outcome: PickupOutcome,
}

/// The pickup probe's progress and step at `now`. `holding` tells whether a
/// placeable item is held; `has_target` whether there is a place to walk to.
pub open spec fn pickup_decision(probe: ProbeProgress, holding: bool, has_target: bool, now: u64) -> (ProbeProgress, PickupStep) {
    if probe.pickup_terminal_failed {
        (probe, PickupStep { started: false, inventory_probe: false, outcome: PickupOutcome::Terminal })
    } else {
        let started_now = probe.pickup_probe_started_at is None;
        let p1 = if started_now {
            ProbeProgress { pickup_probe_started_at: Some(now), gameplay_probe_sent_at: Some(now), ..probe }
        } else {
            probe
        };
        let started = p1.pickup_probe_started_at->0;
        let probe_due = match p1.pickup_last_inventory_probe_at {
            None => true,
            Some(at) => elapsed(now, at) >= GAMEPLAY_PICKUP_INVENTORY_PROBE_INTERVAL_MILLIS,
        };
        let p2 = if probe_due { ProbeProgress { pickup_last_inventory_probe_at: Some(now), ..p1 } } else { p1 };
        let step = |outcome: PickupOutcome| PickupStep { started: started_now, inventory_probe: probe_due, outcome };
        if elapsed(now, started) > GAMEPLAY_PICKUP_DURATION_MILLIS {
            if !holding && !p2.pickup_failed_reported {
                (
                    ProbeProgress { pickup_failed_reported: true, ..p2 },
                    step(PickupOutcome::Failed { prebreak: p2.pickup_prebreak }),
                )
            } else {
                (p2, step(PickupOutcome::Expired))
            }
        } else if p2.pickup_last_sent_at matches Some(sent) && elapsed(now, sent) < GAMEPLAY_PICKUP_SEND_INTERVAL_MILLIS {
            (p2, step(PickupOutcome::Wait))
        } else if !has_target {
            (p2, step(PickupOutcome::NoTarget))
        } else {
            let n: u64 = if p2.pickup_frames_sent == u64::MAX { u64::MAX } else { (p2.pickup_frames_sent + 1) as u64 };
            (
                ProbeProgress { pickup_frames_sent: n, pickup_last_sent_at: Some(now), ..p2 },
                step(PickupOutcome::Frame { frame_index: n }),
            )
        }
    }
}

impl ValidationState {
    /// One tick of the break probe at `now`: only the probe progress moves.
    pub fn break_step(&mut self, now_millis: u64) -> (r: BreakAction)
        ensures
            ({
                let target = old(self).targets.break_target;
                let observed = match target {
                    Some(t) => runtime_of(old(self).terrain.solid_block_runtime_ids@, t),
                    None => None,
                };
                (final(self).probe, r) == break_decision(
                    old(self).probe,
                    target,
                    old(self).targets.break_target_runtime_id,
                    observed,
                    now_millis,
                )
            }),
            final(self).rtp == old(self).rtp,
            final(self).targets == old(self).targets,
            final(self).held_item == old(self).held_item,
            final(self).terrain == old(self).terrain,
            final(self).observed_item_entity == old(self).observed_item_entity,
            final(self).observed_item_entities == old(self).observed_item_entities,
            final(self).rejected_item_entity_runtime_ids == old(self).rejected_item_entity_runtime_ids,
    {
        let started: u64 = match self.probe.break_probe_started_at {
            None => return BreakAction::StartProbe,
            Some(s) => s,
        };
        if let Some(sent) = self.probe.break_last_sent_at {
            if elapsed_millis(now_millis, sent) < GAMEPLAY_BREAK_SEND_INTERVAL_MILLIS {
                return BreakAction::Wait;
            }
        }
        let target: BlockTarget = match self.targets.break_target {
            None => return BreakAction::MissingTarget,
            Some(t) => t,
        };
        let runtime_id: Option<u32> = match self.targets.break_target_runtime_id {
            Some(id) => Some(id),
            None => self.terrain.observed_target_runtime_id(target),
        };
        let face: i32 = break_face_for_runtime_id(runtime_id);
        let e: u64 = elapsed_millis(now_millis, started);
        if self.probe.break_stop_sent {
            if e >= GAMEPLAY_BREAK_DURATION_MILLIS + GAMEPLAY_BREAK_CONFIRM_TIMEOUT_MILLIS
                && !self.probe.break_confirmed && !self.probe.break_confirmation_failed_reported {
                self.probe.break_confirmation_failed_reported = true;
                return BreakAction::ConfirmationFailed;
            }
            return BreakAction::Wait;
        }
        self.probe.break_last_sent_at = Some(now_millis);
        if e < GAMEPLAY_BREAK_DURATION_MILLIS {
            BreakAction::Continue { target, face }
        } else {
            self.probe.break_stop_sent = true;
            BreakAction::Finish { target, face }
        }
    }

    /// One tick of the pickup walk at `now`: only the probe progress moves.
    /// `has_target` tells whether there is a place to walk to.
    pub fn pickup_step(&mut self, now_millis: u64, has_target: bool) -> (r: PickupStep)
        ensures
            (final(self).probe, r) == pickup_decision(old(self).probe, old(self).held_item is Some, has_target, now_millis),
            final(self).rtp == old(self).rtp,
            final(self).targets == old(self).targets,
            final(self).held_item == old(self).held_item,
            final(self).terrain == old(self).terrain,
            final(self).observed_item_entity == old(self).observed_item_entity,
            final(self).observed_item_entities == old(self).observed_item_entities,
            final(self).rejected_item_entity_runtime_ids == old(self).rejected_item_entity_runtime_ids,
    {
        if self.probe.pickup_terminal_failed {
            return PickupStep { started: false, inventory_probe: false, outcome: PickupOutcome::Terminal };
        }
        let started_now: bool = self.probe.pickup_probe_started_at.is_none();
        if started_now {
            self.probe.pickup_probe_started_at = Some(now_millis);
            self.probe.gameplay_probe_sent_at = Some(now_millis);
        }
        let started: u64 = match self.probe.pickup_probe_started_at {
            Some(s) => s,
            None => now_millis,
        };
        let probe_due: bool = match self.probe.pickup_last_inventory_probe_at {
            None => true,
            Some(at) => elapsed_millis(now_millis, at) >= GAMEPLAY_PICKUP_INVENTORY_PROBE_INTERVAL_MILLIS,
        };
        if probe_due {
            self.probe.pickup_last_inventory_probe_at = Some(now_millis);
        }
        if elapsed_millis(now_millis, started) > GAMEPLAY_PICKUP_DURATION_MILLIS {
            if self.held_item.is_none() && !self.probe.pickup_failed_reported {
                self.probe.pickup_failed_reported = true;
                return PickupStep {
                    started: started_now,
                    inventory_probe: probe_due,
                    outcome: PickupOutcome::Failed { prebreak: self.probe.pickup_prebreak },
                };
            }
            return PickupStep { started: started_now, inventory_probe: probe_due, outcome: PickupOutcome::Expired };
        }
        if let Some(sent) = self.probe.pickup_last_sent_at {
            if elapsed_millis(now_millis, sent) < GAMEPLAY_PICKUP_SEND_INTERVAL_MILLIS {
                return PickupStep { started: started_now, inventory_probe: probe_due, outcome: PickupOutcome::Wait };
            }
        }
        if !has_target {
            return PickupStep { started: started_now, inventory_probe: probe_due, outcome: PickupOutcome::NoTarget };
        }
        let n: u64 = if self.probe.pickup_frames_sent == u64::MAX {
            u64::MAX
        } else {
            self.probe.pickup_frames_sent + 1
        };
        self.probe.pickup_frames_sent = n;
        self.probe.pickup_last_sent_at = Some(now_millis);
        PickupStep { started: started_now, inventory_probe: probe_due, outcome: PickupOutcome::Frame { frame_index: n } }
    }
}

/// How long to wait between two clicks of the teleport menu.
pub const RTP_MENU_CLICK_RETRY_INTERVAL_MILLIS: u64 = 2_000;
/// How long to wait after a position hint when no menu entry was seen.
pub const RTP_HINT_WITHOUT_MENU_WAIT_MILLIS: u64 = 8_000;
/// How long to wait after a position hint.
pub const RTP_HINT_WAIT_MILLIS: u64 = 3_000;
/// The container type closed when no menu entry was seen.
pub const WINDOW_TYPE_CONTAINER: u8 = 0;

/// What the teleport phase reads from the run's settings and geometry.
#[derive(Debug, Clone, Copy, PartialEq, Eq)]
pub struct RtpInputs {
    /// Placeable drops were already seen nearby: no teleport is needed.
    pub loaded_world: bool,
    /// The teleport menu is to be clicked.
    pub click_menu: bool,
    /// The teleport container is to be closed afterwards.
    pub close_container: bool,
    /// The start position looks like a placeholder and a kept block can
    /// stand in for where the player is.
    pub terrain_hint_available: bool,
    pub rtp_wait_millis: u64,
    pub menu_open_wait_millis: u64,
    pub menu_click_wait_millis: u64,
}

/// What the teleport phase does at this tick.
#[derive(Debug, Clone, Copy, PartialEq, Eq)]
pub enum RtpAction {
    /// The inventory probe went out already: the phase is over.
    Inactive,
    /// Send the configured teleport command; this is attempt `attempt`.
    SendCommand { attempt: u8 },
    /// Click the menu entry with the given method.
    ClickMenu { item: MenuClickTarget, method: MenuClickMethod },
    /// Every click method was tried; no more clicks.
    ClickMethodsExhausted,
    /// Keep waiting for the teleport.
    Wait,
    /// No menu opened: send `fallback_rtp_command(command, attempt - 1)`.
    SendFallbackCommand { attempt: u8 },
    /// Only a chest marker hinted where the teleport went: keep waiting for
    /// terrain.
    AwaitTerrainHint,
    /// No terrain came in time; pickup gives up (reported once).
    TerrainHintMissing { first_report: bool },
    /// Close the teleport container.
    CloseContainer { window_id: u32, window_type: u8 },
    /// Send the inventory probe; the phase ends.
    InventoryProbe,
}

/// A tick of the teleport phase: its action, and whether it skipped the
/// teleport for a loaded world, took a kept block as the position (the
/// caller moves the player there), or finished waiting (the caller takes
/// the last server position as the start).
#[derive(Debug, Clone, Copy, PartialEq, Eq)]
pub struct RtpStep {
    pub loaded_world_skip: bool,
    pub terrain_hint_adopted: bool,
    pub wait_finished: bool,
    pub action: RtpAction,
}

/// The phase's progress and step, with which capability flags it sets and
/// whether it ends the inventory probe or the pickup for good.
#[derive(Debug, Clone, Copy, PartialEq, Eq)]
pub struct RtpOutcome {
    pub rtp: RtpProgress,
    pub step: RtpStep,
    pub chat: bool,
    pub inventory_transactions: bool,
    pub inventory_probe_sent: bool,
    pub pickup_terminal_failed: bool,
}

/// The wait the teleport needs: after a click, the click wait; while the
/// menu has not opened, the open wait; after a hint, eight seconds without a
/// menu entry and three with one; else the teleport wait.
pub open spec fn required_wait(rtp: RtpProgress, inputs: RtpInputs) -> u64 {
    let waiting_open = inputs.click_menu && rtp.menu.item is None && !rtp.menu.click_sent;
    if rtp.menu.click_sent {
        inputs.menu_click_wait_millis
    } else if waiting_open {
        inputs.menu_open_wait_millis
    } else if rtp.position_hint_received && rtp.menu.item is None {
        RTP_HINT_WITHOUT_MENU_WAIT_MILLIS
    } else if rtp.position_hint_received {
        RTP_HINT_WAIT_MILLIS
    } else {
        inputs.rtp_wait_millis
    }
}

/// How long the teleport has been waited for: since the click, since the
/// hint (without a menu entry), else since the command; zero when unknown.
pub open spec fn waited(rtp: RtpProgress, now: u64) -> u64 {
    let from = if rtp.menu.click_sent {
        rtp.menu.click_sent_at
    } else if rtp.position_hint_received && rtp.menu.item is None {
        rtp.position_hint_received_at
    } else {
        rtp.command_sent_at
    };
    match from {
        Some(at) => elapsed(now, at),
        None => 0,
    }
}

/// The progress after a kept block is taken as where the teleport went.
pub open spec fn rtp_terrain_adopted(rtp: RtpProgress, now: u64) -> RtpProgress {
    RtpProgress {
        position_hint_received: true,
        position_hint_received_at: Some(now),
        terrain_position_hint_received: true,
        terrain_position_hint_received_at: Some(now),
        waiting_for_terrain_hint_reported: false,
        terrain_position_hint_failed_reported: false,
        ..rtp
    }
}

pub open spec fn rtp_outcome(rtp: RtpProgress, step: RtpStep, chat: bool, inv_tx: bool, inv_sent: bool, terminal: bool) -> RtpOutcome {
    RtpOutcome { rtp, step, chat, inventory_transactions: inv_tx, inventory_probe_sent: inv_sent, pickup_terminal_failed: terminal }
}

/// After the wait: close the container once when asked to, else send the
/// inventory probe.
#[verifier::opaque]
pub open spec fn rtp_finish(rtp: RtpProgress, inputs: RtpInputs, skip: bool, adopted: bool, finished: bool) -> RtpOutcome {
    if inputs.close_container && !rtp.container_close_sent {
        let (window_id, window_type) = match rtp.menu.item {
            Some(item) => (item.window_id, item.container_type),
            None => (1u32, WINDOW_TYPE_CONTAINER),
        };
        rtp_outcome(
            RtpProgress { container_close_sent: true, ..rtp },
            RtpStep { loaded_world_skip: skip, terrain_hint_adopted: adopted, wait_finished: finished, action: RtpAction::CloseContainer { window_id, window_type } },
            false,
            false,
            false,
            false,
        )
    } else {
        rtp_outcome(
            rtp,
            RtpStep { loaded_world_skip: skip, terrain_hint_adopted: adopted, wait_finished: finished, action: RtpAction::InventoryProbe },
            false,
            true,
            true,
            false,
        )
    }
}

/// The wait for the teleport once the command went out: click the menu
/// when due, wait, send the fallback command when no menu opened, take a
/// kept block as the position, wait for terrain after a marker-only hint,
/// and otherwise finish waiting.
#[verifier::opaque]
pub open spec fn rtp_waiting(rtp: RtpProgress, inputs: RtpInputs, command: Seq<char>, skip: bool, now: u64) -> RtpOutcome {
    let step = |action: RtpAction| RtpStep { loaded_world_skip: skip, terrain_hint_adopted: false, wait_finished: false, action };
    let click_due = inputs.click_menu && rtp.menu.item is Some && rtp.menu.click_attempts < RTP_MENU_MAX_CLICK_ATTEMPTS
        && match rtp.menu.last_click_attempt_at {
            None => true,
            Some(at) => elapsed(now, at) >= RTP_MENU_CLICK_RETRY_INTERVAL_MILLIS,
        };
    let waiting_open = inputs.click_menu && rtp.menu.item is None && !rtp.menu.click_sent;
    if click_due {
        match method_of_attempt(rtp.menu.click_attempts) {
            None => rtp_outcome(
                RtpProgress { menu: RtpMenuState { click_attempts: RTP_MENU_MAX_CLICK_ATTEMPTS, ..rtp.menu }, ..rtp },
                step(RtpAction::ClickMethodsExhausted),
                false, false, false, false,
            ),
            Some(method) => rtp_outcome(
                RtpProgress {
                    menu: RtpMenuState {
                        click_sent: true,
                        click_sent_at: Some(now),
                        last_click_attempt_at: Some(now),
                        click_attempts: (rtp.menu.click_attempts + 1) as u8,
                        ..rtp.menu
                    },
                    ..rtp
                },
                step(RtpAction::ClickMenu { item: rtp.menu.item->0, method }),
                false, true, false, false,
            ),
        }
    } else {
        rtp_wait_tail(rtp, inputs, command, skip, now)
    }
}

/// The wait once no click is due: keep waiting, send the fallback command
/// when no menu opened, or settle where the teleport went.
#[verifier::opaque]
pub open spec fn rtp_wait_tail(rtp: RtpProgress, inputs: RtpInputs, command: Seq<char>, skip: bool, now: u64) -> RtpOutcome {
    let step = |action: RtpAction| RtpStep { loaded_world_skip: skip, terrain_hint_adopted: false, wait_finished: false, action };
    let waiting_open = inputs.click_menu && rtp.menu.item is None && !rtp.menu.click_sent;
    if waited(rtp, now) < required_wait(rtp, inputs) {
        rtp_outcome(
            if waiting_open { RtpProgress { waiting_for_menu_reported: true, ..rtp } } else { rtp },
            step(RtpAction::Wait),
            false, false, false, false,
        )
    } else if waiting_open && !rtp.position_hint_received && rtp_fallback(command, rtp.command_attempts) is Some {
        let attempt: u8 = if rtp.command_attempts == u8::MAX { u8::MAX } else { (rtp.command_attempts + 1) as u8 };
        rtp_outcome(
            RtpProgress { command_attempts: attempt, command_sent_at: Some(now), waiting_for_menu_reported: false, ..rtp },
            step(RtpAction::SendFallbackCommand { attempt }),
            true, false, false, false,
        )
    } else {
        rtp_settle(rtp, inputs, skip, now)
    }
}

/// The end of the wait: take a kept block as the position when the start
/// looks like a placeholder, wait for terrain after a marker-only hint (and
/// give pickup up when none comes), else finish waiting.
#[verifier::opaque]
pub open spec fn rtp_settle(rtp: RtpProgress, inputs: RtpInputs, skip: bool, now: u64) -> RtpOutcome {
    let adopted = !rtp.position_hint_received && inputs.terrain_hint_available && !rtp.terrain_position_hint_received;
    let r1 = if adopted { rtp_terrain_adopted(rtp, now) } else { rtp };
    let step1 = |action: RtpAction| RtpStep { loaded_world_skip: skip, terrain_hint_adopted: adopted, wait_finished: false, action };
    if r1.marker_position_hint_received && !r1.terrain_position_hint_received {
        let since_command = match r1.command_sent_at {
            Some(at) => elapsed(now, at),
            None => waited(rtp, now),
        };
        if since_command < inputs.rtp_wait_millis {
            rtp_outcome(
                RtpProgress { waiting_for_terrain_hint_reported: true, ..r1 },
                step1(RtpAction::AwaitTerrainHint),
                false, false, false, false,
            )
        } else if !r1.terrain_position_hint_failed_reported {
            rtp_outcome(
                RtpProgress { terrain_position_hint_failed_reported: true, ..r1 },
                step1(RtpAction::TerrainHintMissing { first_report: true }),
                false, false, false, true,
            )
        } else {
            rtp_outcome(r1, step1(RtpAction::TerrainHintMissing { first_report: false }), false, false, false, false)
        }
    } else {
        rtp_finish(RtpProgress { wait_done: true, ..r1 }, inputs, skip, adopted, true)
    }
}

/// The teleport phase at `now`, until the inventory probe goes out: skip
/// the teleport for a loaded world, send the command (at most
/// `RTP_MAX_COMMAND_ATTEMPTS` times), wait for it, then close the menu and
/// probe the inventory.
#[verifier::opaque]
pub open spec fn rtp_decision(rtp: RtpProgress, inventory_probe_sent: bool, inputs: RtpInputs, command: Seq<char>, now: u64) -> RtpOutcome {
    if inventory_probe_sent {
        rtp_outcome(
            rtp,
            RtpStep { loaded_world_skip: false, terrain_hint_adopted: false, wait_finished: false, action: RtpAction::Inactive },
            false, false, false, false,
        )
    } else {
        let skip = inputs.loaded_world && !rtp.wait_done;
        let r0 = if skip { RtpProgress { wait_done: true, ..rtp } } else { rtp };
        if trimmed(command).len() != 0 && !r0.command_sent && !inputs.loaded_world && r0.command_attempts
            < RTP_MAX_COMMAND_ATTEMPTS {
            let attempt = (r0.command_attempts + 1) as u8;
            rtp_outcome(
                RtpProgress { command_sent: true, command_sent_at: Some(now), command_attempts: attempt, ..r0 },
                RtpStep { loaded_world_skip: skip, terrain_hint_adopted: false, wait_finished: false, action: RtpAction::SendCommand { attempt } },
                true, false, false, false,
            )
        } else if r0.command_sent && !r0.wait_done {
            rtp_waiting(r0, inputs, command, skip, now)
        } else {
            rtp_finish(r0, inputs, skip, false, false)
        }
    }
}

/// `rtp_finish`, computed.
fn finish_outcome(rtp: RtpProgress, inputs: RtpInputs, skip: bool, adopted: bool, finished: bool) -> (r: RtpOutcome)
    ensures
        r == rtp_finish(rtp, inputs, skip, adopted, finished),
{
    proof {
        reveal(rtp_finish);
    }
    if inputs.close_container && !rtp.container_close_sent {
        let (window_id, window_type): (u32, u8) = match rtp.menu.item {
            Some(item) => (item.window_id, item.container_type),
            None => (1, WINDOW_TYPE_CONTAINER),
        };
        return RtpOutcome {
            rtp: RtpProgress { container_close_sent: true, ..rtp },
            step: RtpStep {
                loaded_world_skip: skip,
                terrain_hint_adopted: adopted,
                wait_finished: finished,
                action: RtpAction::CloseContainer { window_id, window_type },
            },
            chat: false,
            inventory_transactions: false,
            inventory_probe_sent: false,
            pickup_terminal_failed: false,
        };
    }
    RtpOutcome {
        rtp,
        step: RtpStep { loaded_world_skip: skip, terrain_hint_adopted: adopted, wait_finished: finished, action: RtpAction::InventoryProbe },
        chat: false,
        inventory_transactions: true,
        inventory_probe_sent: true,
        pickup_terminal_failed: false,
    }
}

/// `waited`, computed.
fn waited_millis(rtp: RtpProgress, now: u64) -> (r: u64)
    ensures
        r == waited(rtp, now),
{
    let from: Option<u64> = if rtp.menu.click_sent {
        rtp.menu.click_sent_at
    } else if rtp.position_hint_received && rtp.menu.item.is_none() {
        rtp.position_hint_received_at
    } else {
        rtp.command_sent_at
    };
    match from {
        Some(at) => elapsed_millis(now, at),
        None => 0,
    }
}

/// `rtp_settle`, computed.
fn settle_outcome(rtp: RtpProgress, inputs: RtpInputs, skip: bool, now: u64) -> (r: RtpOutcome)
    ensures
        r == rtp_settle(rtp, inputs, skip, now),
{
    proof {
        reveal(rtp_settle);
    }
    let adopted: bool = !rtp.position_hint_received && inputs.terrain_hint_available && !rtp.terrain_position_hint_received;
    let r1: RtpProgress = if adopted {
        RtpProgress {
            position_hint_received: true,
            position_hint_received_at: Some(now),
            terrain_position_hint_received: true,
            terrain_position_hint_received_at: Some(now),
            waiting_for_terrain_hint_reported: false,
            terrain_position_hint_failed_reported: false,
            ..rtp
        }
    } else {
        rtp
    };
    if r1.marker_position_hint_received && !r1.terrain_position_hint_received {
        let since_command: u64 = match r1.command_sent_at {
            Some(at) => elapsed_millis(now, at),
            None => waited_millis(rtp, now),
        };
        let (next, action, terminal): (RtpProgress, RtpAction, bool) = if since_command < inputs.rtp_wait_millis {
            (RtpProgress { waiting_for_terrain_hint_reported: true, ..r1 }, RtpAction::AwaitTerrainHint, false)
        } else if !r1.terrain_position_hint_failed_reported {
            (
                RtpProgress { terrain_position_hint_failed_reported: true, ..r1 },
                RtpAction::TerrainHintMissing { first_report: true },
                true,
            )
        } else {
            (r1, RtpAction::TerrainHintMissing { first_report: false }, false)
        };
        return RtpOutcome {
            rtp: next,
            step: RtpStep { loaded_world_skip: skip, terrain_hint_adopted: adopted, wait_finished: false, action },
            chat: false,
            inventory_transactions: false,
            inventory_probe_sent: false,
            pickup_terminal_failed: terminal,
        };
    }
    finish_outcome(RtpProgress { wait_done: true, ..r1 }, inputs, skip, adopted, true)
}

/// `rtp_wait_tail`, computed.
fn wait_tail_outcome(rtp: RtpProgress, inputs: RtpInputs, command: &str, skip: bool, now: u64) -> (r: RtpOutcome)
    ensures
        r == rtp_wait_tail(rtp, inputs, command@, skip, now),
{
    proof {
        reveal(rtp_wait_tail);
    }
    let waiting_open: bool = inputs.click_menu && rtp.menu.item.is_none() && !rtp.menu.click_sent;
    let required: u64 = if rtp.menu.click_sent {
        inputs.menu_click_wait_millis
    } else if waiting_open {
        inputs.menu_open_wait_millis
    } else if rtp.position_hint_received && rtp.menu.item.is_none() {
        RTP_HINT_WITHOUT_MENU_WAIT_MILLIS
    } else if rtp.position_hint_received {
        RTP_HINT_WAIT_MILLIS
    } else {
        inputs.rtp_wait_millis
    };
    if waited_millis(rtp, now) < required {
        return RtpOutcome {
            rtp: if waiting_open { RtpProgress { waiting_for_menu_reported: true, ..rtp } } else { rtp },
            step: RtpStep { loaded_world_skip: skip, terrain_hint_adopted: false, wait_finished: false, action: RtpAction::Wait },
            chat: false,
            inventory_transactions: false,
            inventory_probe_sent: false,
            pickup_terminal_failed: false,
        };
    }
    if waiting_open && !rtp.position_hint_received && fallback_rtp_command(command, rtp.command_attempts).is_some() {
        let attempt: u8 = if rtp.command_attempts == u8::MAX { u8::MAX } else { rtp.command_attempts + 1 };
        return RtpOutcome {
            rtp: RtpProgress { command_attempts: attempt, command_sent_at: Some(now), waiting_for_menu_reported: false, ..rtp },
            step: RtpStep {
                loaded_world_skip: skip,
                terrain_hint_adopted: false,
                wait_finished: false,
                action: RtpAction::SendFallbackCommand { attempt },
            },
            chat: true,
            inventory_transactions: false,
            inventory_probe_sent: false,
            pickup_terminal_failed: false,
        };
    }
    settle_outcome(rtp, inputs, skip, now)
}

/// `rtp_waiting`, computed.
fn waiting_outcome(rtp: RtpProgress, inputs: RtpInputs, command: &str, skip: bool, now: u64) -> (r: RtpOutcome)
    ensures
        r == rtp_waiting(rtp, inputs, command@, skip, now),
{
    proof {
        reveal(rtp_waiting);
    }
    let click_due: bool = inputs.click_menu && rtp.menu.item.is_some() && rtp.menu.click_attempts < RTP_MENU_MAX_CLICK_ATTEMPTS
        && match rtp.menu.last_click_attempt_at {
        None => true,
        Some(at) => elapsed_millis(now, at) >= RTP_MENU_CLICK_RETRY_INTERVAL_MILLIS,
    };
    if click_due {
        let item: MenuClickTarget = match rtp.menu.item {
            Some(i) => i,
            None => return wait_tail_outcome(rtp, inputs, command, skip, now),
        };
        return match MenuClickMethod::from_attempt(rtp.menu.click_attempts) {
            None => RtpOutcome {
                rtp: RtpProgress { menu: RtpMenuState { click_attempts: RTP_MENU_MAX_CLICK_ATTEMPTS, ..rtp.menu }, ..rtp },
                step: RtpStep {
                    loaded_world_skip: skip,
                    terrain_hint_adopted: false,
                    wait_finished: false,
                    action: RtpAction::ClickMethodsExhausted,
                },
                chat: false,
                inventory_transactions: false,
                inventory_probe_sent: false,
                pickup_terminal_failed: false,
            },
            Some(method) => RtpOutcome {
                rtp: RtpProgress {
                    menu: RtpMenuState {
                        click_sent: true,
                        click_sent_at: Some(now),
                        last_click_attempt_at: Some(now),
                        click_attempts: rtp.menu.click_attempts + 1,
                        ..rtp.menu
                    },
                    ..rtp
                },
                step: RtpStep {
                    loaded_world_skip: skip,
                    terrain_hint_adopted: false,
                    wait_finished: false,
                    action: RtpAction::ClickMenu { item, method },
                },
                chat: false,
                inventory_transactions: true,
                inventory_probe_sent: false,
                pickup_terminal_failed: false,
            },
        };
    }
    wait_tail_outcome(rtp, inputs, command, skip, now)
}

/// `rtp_decision`, computed.
fn rtp_outcome_of(rtp: RtpProgress, inventory_probe_sent: bool, inputs: RtpInputs, command: &str, now: u64) -> (r: RtpOutcome)
    ensures
        r == rtp_decision(rtp, inventory_probe_sent, inputs, command@, now),
{
    proof {
        reveal(rtp_decision);
    }
    if inventory_probe_sent {
        return RtpOutcome {
            rtp,
            step: RtpStep { loaded_world_skip: false, terrain_hint_adopted: false, wait_finished: false, action: RtpAction::Inactive },
            chat: false,
            inventory_transactions: false,
            inventory_probe_sent: false,
            pickup_terminal_failed: false,
        };
    }
    let skip: bool = inputs.loaded_world && !rtp.wait_done;
    let r0: RtpProgress = if skip { RtpProgress { wait_done: true, ..rtp } } else { rtp };
    let chars = str_chars(command);
    let trimmed_command = trim_char_vec(&chars);
    if trimmed_command.len() != 0 && !r0.command_sent && !inputs.loaded_world && r0.command_attempts < RTP_MAX_COMMAND_ATTEMPTS {
        let attempt: u8 = r0.command_attempts + 1;
        return RtpOutcome {
            rtp: RtpProgress { command_sent: true, command_sent_at: Some(now), command_attempts: attempt, ..r0 },
            step: RtpStep { loaded_world_skip: skip, terrain_hint_adopted: false, wait_finished: false, action: RtpAction::SendCommand { attempt } },
            chat: true,
            inventory_transactions: false,
            inventory_probe_sent: false,
            pickup_terminal_failed: false,
        };
    }
    if r0.command_sent && !r0.wait_done {
        return waiting_outcome(r0, inputs, command, skip, now);
    }
    finish_outcome(r0, inputs, skip, false, false)
}

/// Marks chat and inventory transactions as seen where asked.
fn mark_seen(status: &mut CapabilityStatus, chat: bool, inventory_transactions: bool)
    ensures
        *final(status) == (CapabilityStatus {
            chat: old(status).chat || chat,
            inventory_transactions: old(status).inventory_transactions || inventory_transactions,
            ..*old(status)
        }),
{
    if chat {
        status.chat = true;
    }
    if inventory_transactions {
        status.inventory_transactions = true;
    }
}

impl ValidationState {
    /// Drops the targets, the break probe and the item entities, as taking a
    /// position hint does.
    fn drop_targets_for_hint(&mut self)
        ensures
            final(self).rtp == old(self).rtp,
            final(self).probe == probe_after_hint(old(self).probe, true),
            final(self).targets == targets_after_hint(old(self).targets, true),
            final(self).observed_item_entity is None,
            final(self).observed_item_entities@.len() == 0,
            final(self).rejected_item_entity_runtime_ids@.len() == 0,
            final(self).held_item == old(self).held_item,
            final(self).terrain == old(self).terrain,
    {
        self.targets.break_target = None;
        self.targets.break_target_runtime_id = None;
        self.targets.place_base = None;
        self.targets.place_result = None;
        self.probe.break_probe_started_at = None;
        self.probe.break_last_sent_at = None;
        self.probe.break_stop_sent = false;
        self.observed_item_entity = None;
        self.observed_item_entities.clear();
        self.rejected_item_entity_runtime_ids.clear();
    }

    /// One tick of the teleport phase, which runs once the movement check
    /// passed and until the inventory probe goes out. `status` gains chat
    /// when a command goes out and inventory transactions when the menu is
    /// clicked or the inventory probed. Taking a kept block as the position
    /// drops the targets, probes and item entities as a block-update hint does.
    #[verifier::rlimit(60)]
    pub fn rtp_step(&mut self, status: &mut CapabilityStatus, command: &str, inputs: RtpInputs, now_millis: u64) -> (r: RtpStep)
        ensures
            ({
                let o = rtp_decision(old(self).rtp, old(self).probe.inventory_probe_sent, inputs, command@, now_millis);
                let adopted = o.step.terrain_hint_adopted;
                &&& r == o.step
                &&& final(self).rtp == o.rtp
                &&& final(self).probe == ProbeProgress {
                    inventory_probe_sent: old(self).probe.inventory_probe_sent || o.inventory_probe_sent,
                    pickup_terminal_failed: old(self).probe.pickup_terminal_failed || o.pickup_terminal_failed,
                    ..probe_after_hint(old(self).probe, adopted)
                }
                &&& final(self).targets == targets_after_hint(old(self).targets, adopted)
                &&& *final(status) == (CapabilityStatus {
                    chat: old(status).chat || o.chat,
                    inventory_transactions: old(status).inventory_transactions || o.inventory_transactions,
                    ..*old(status)
                })
                &&& adopted ==> final(self).observed_item_entity is None && final(self).observed_item_entities@.len() == 0
                    && final(self).rejected_item_entity_runtime_ids@.len() == 0
                &&& !adopted ==> final(self).observed_item_entity == old(self).observed_item_entity
                    && final(self).observed_item_entities == old(self).observed_item_entities
                    && final(self).rejected_item_entity_runtime_ids == old(self).rejected_item_entity_runtime_ids
            }),
            final(self).held_item == old(self).held_item,
            final(self).terrain == old(self).terrain,
    {
        let o = rtp_outcome_of(self.rtp, self.probe.inventory_probe_sent, inputs, command, now_millis);
        self.rtp = o.rtp;
        if o.step.terrain_hint_adopted {
            self.drop_targets_for_hint();
        }
        if o.inventory_probe_sent {
            self.probe.inventory_probe_sent = true;
        }
        if o.pickup_terminal_failed {
            self.probe.pickup_terminal_failed = true;
        }
        mark_seen(status, o.chat, o.inventory_transactions);
        o.step
    }
}

/// How long after the gameplay probe the run reports that the server did
/// not confirm every gameplay action.
pub const GAMEPLAY_PROBE_TIMEOUT_MILLIS: u64 = 30_000;

/// The pickup walk started and has not run out yet.
pub open spec fn pickup_active(probe: ProbeProgress, now: u64) -> bool {
    match probe.pickup_probe_started_at {
        Some(started) => elapsed(now, started) <= GAMEPLAY_PICKUP_DURATION_MILLIS,
        None => false,
    }
}

/// The gameplay probe went out at least thirty seconds ago, no pickup walk
/// is running, breaking or placing is still unconfirmed, and this was not
/// reported yet.
pub open spec fn gameplay_timed_out(probe: ProbeProgress, breaking: bool, placing: bool, now: u64) -> bool {
    &&& probe.gameplay_probe_sent
    &&& !probe.gameplay_timeout_reported
    &&& probe.gameplay_probe_sent_at matches Some(at) && elapsed(now, at) >= GAMEPLAY_PROBE_TIMEOUT_MILLIS
    &&& !pickup_active(probe, now)
    &&& (!breaking || !placing)
}

/// The run is ready to pick up an item entity before breaking anything:
/// movement passed, no gameplay probe went out, nothing is held, an item
/// entity was seen, pickup has not given up, and `no_reachable_drop` (no
/// sampled, approachable or walkable placeable drop is known).
pub open spec fn prebreak_pickup_ready(
    movement_ok: bool,
    probe: ProbeProgress,
    holding: bool,
    item_entity_seen: bool,
    no_reachable_drop: bool,
) -> bool {
    movement_ok && !probe.gameplay_probe_sent && !holding && item_entity_seen && !probe.pickup_terminal_failed
        && no_reachable_drop
}

impl ValidationState {
    /// Reports the gameplay probe's timeout once, when `gameplay_timed_out`.
    pub fn report_gameplay_timeout(&mut self, status: &CapabilityStatus, now_millis: u64) -> (r: bool)
        ensures
            r == gameplay_timed_out(old(self).probe, status.block_breaking, status.block_placing, now_millis),
            final(self).probe == (if r {
                ProbeProgress { gameplay_timeout_reported: true, ..old(self).probe }
            } else {
                old(self).probe
            }),
            final(self).rtp == old(self).rtp,
            final(self).targets == old(self).targets,
            final(self).held_item == old(self).held_item,
            final(self).terrain == old(self).terrain,
            final(self).observed_item_entity == old(self).observed_item_entity,
            final(self).observed_item_entities == old(self).observed_item_entities,
            final(self).rejected_item_entity_runtime_ids == old(self).rejected_item_entity_runtime_ids,
    {
        let pickup_running: bool = match self.probe.pickup_probe_started_at {
            Some(started) => elapsed_millis(now_millis, started) <= GAMEPLAY_PICKUP_DURATION_MILLIS,
            None => false,
        };
        let due: bool = match self.probe.gameplay_probe_sent_at {
            Some(at) => elapsed_millis(now_millis, at) >= GAMEPLAY_PROBE_TIMEOUT_MILLIS,
            None => false,
        };
        if self.probe.gameplay_probe_sent && !self.probe.gameplay_timeout_reported && due && !pickup_running
            && (!status.block_breaking || !status.block_placing) {
            self.probe.gameplay_timeout_reported = true;
            return true;
        }
        false
    }

    /// Starts (or keeps up) the pickup of an item entity before any break,
    /// when `prebreak_pickup_ready`: the teleport wait and the inventory
    /// probe count as done, the pickup is marked pre-break, and inventory
    /// transactions count as seen. Gives whether it applied; the caller then
    /// runs `pickup_step`.
    pub fn start_prebreak_pickup(&mut self, status: &mut CapabilityStatus, no_reachable_drop: bool) -> (r: bool)
        ensures
            r == prebreak_pickup_ready(
                old(status).movement,
                old(self).probe,
                old(self).held_item is Some,
                old(self).observed_item_entity is Some,
                no_reachable_drop,
            ),
            r ==> final(self).rtp == (RtpProgress { wait_done: true, ..old(self).rtp }) && final(self).probe == (ProbeProgress {
                inventory_probe_sent: true,
                pickup_prebreak: true,
                ..old(self).probe
            }) && *final(status) == (CapabilityStatus { inventory_transactions: true, ..*old(status) }),
            !r ==> final(self).rtp == old(self).rtp && final(self).probe == old(self).probe && *final(status) == *old(status),
            final(self).targets == old(self).targets,
            final(self).held_item == old(self).held_item,
            final(self).terrain == old(self).terrain,
            final(self).observed_item_entity == old(self).observed_item_entity,
            final(self).observed_item_entities == old(self).observed_item_entities,
            final(self).rejected_item_entity_runtime_ids == old(self).rejected_item_entity_runtime_ids,
    {
        if status.movement && !self.probe.gameplay_probe_sent && self.held_item.is_none() && self.observed_item_entity.is_some()
            && !self.probe.pickup_terminal_failed && no_reachable_drop {
            self.rtp.wait_done = true;
            self.probe.inventory_probe_sent = true;
            self.probe.pickup_prebreak = true;
            status.inventory_transactions = true;
            return true;
        }
        false
    }
}

/// How long the forward-movement check runs.
pub const MOVEMENT_VALIDATION_MILLIS: u64 = 10_000;
/// How often a movement frame goes out.
pub const MOVEMENT_SEND_INTERVAL_MILLIS: u64 = 50;
/// No forward frame goes out in the check's last second.
pub const MOVEMENT_COMPLETION_QUIET_MILLIS: u64 = 1_000;
/// How long movement waits for a first position hint.
pub const INITIAL_POSITION_HINT_WAIT_MILLIS: u64 = 3_000;

/// The clock of the forward-movement check: when it started, when a frame
/// last went out, how many forward and idle frames went out, how many
/// corrections the server sent, and what was reported.
#[derive(Debug, Clone, Copy, PartialEq, Eq)]
pub struct MovementClock {
    pub started_at: u64,
    pub last_sent_at: Option<u64>,
    pub sent_frames: u64,
    pub idle_frames_sent: u64,
    pub correction_count: u64,
    pub completion_reported: bool,
    pub initial_hint_wait_reported: bool,
}

/// What the movement check does at this tick.
#[derive(Debug, Clone, Copy, PartialEq, Eq)]
pub enum MovementAction {
    /// Wait for a first position hint (reported the first time).
    AwaitInitialHint { first_report: bool },
    /// Nothing to send now.
    Idle,
    /// Send forward frame number `frame_index`.
    Forward { frame_index: u64 },
    /// The check is over; `reported` tells whether its outcome was reported
    /// now, and `idle_frame` the number of an idle frame to send, if one is due.
    Completed { reported: bool, idle_frame: Option<u64> },
}

/// The clock and action at `now`. `hint_pending` tells whether a first
/// position hint is still expected (the start looks like a placeholder and
/// nothing placed the player yet).
pub open spec fn movement_decision(clock: MovementClock, hint_pending: bool, now: u64) -> (MovementClock, MovementAction) {
    if hint_pending && clock.sent_frames == 0 && elapsed(now, clock.started_at) < INITIAL_POSITION_HINT_WAIT_MILLIS {
        (
            MovementClock { initial_hint_wait_reported: true, ..clock },
            MovementAction::AwaitInitialHint { first_report: !clock.initial_hint_wait_reported },
        )
    } else {
        let c1 = if clock.sent_frames == 0 && clock.last_sent_at is None && clock.initial_hint_wait_reported {
            MovementClock { started_at: now, initial_hint_wait_reported: false, ..clock }
        } else {
            clock
        };
        let send_due = match c1.last_sent_at {
            None => true,
            Some(at) => elapsed(now, at) >= MOVEMENT_SEND_INTERVAL_MILLIS,
        };
        let e = elapsed(now, c1.started_at);
        if e >= MOVEMENT_VALIDATION_MILLIS {
            let reported = !c1.completion_reported;
            let c2 = MovementClock { completion_reported: true, ..c1 };
            if send_due {
                let n: u64 = if c2.idle_frames_sent == u64::MAX { u64::MAX } else { (c2.idle_frames_sent + 1) as u64 };
                (
                    MovementClock { idle_frames_sent: n, last_sent_at: Some(now), ..c2 },
                    MovementAction::Completed { reported, idle_frame: Some(n) },
                )
            } else {
                (c2, MovementAction::Completed { reported, idle_frame: None })
            }
        } else if !send_due || MOVEMENT_VALIDATION_MILLIS - e <= MOVEMENT_COMPLETION_QUIET_MILLIS {
            (c1, MovementAction::Idle)
        } else {
            (
                MovementClock { sent_frames: (c1.sent_frames + 1) as u64, last_sent_at: Some(now), ..c1 },
                MovementAction::Forward { frame_index: (c1.sent_frames + 1) as u64 },
            )
        }
    }
}

impl MovementClock {
    /// A check that starts at `now`.
    pub fn new(now_millis: u64) -> (r: Self)
        ensures
            r == (MovementClock {
                started_at: now_millis,
                last_sent_at: None,
                sent_frames: 0,
                idle_frames_sent: 0,
                correction_count: 0,
                completion_reported: false,
                initial_hint_wait_reported: false,
            }),
    {
        MovementClock {
            started_at: now_millis,
            last_sent_at: None,
            sent_frames: 0,
            idle_frames_sent: 0,
            correction_count: 0,
            completion_reported: false,
            initial_hint_wait_reported: false,
        }
    }

    /// One tick of the movement check. When the check ends, the movement
    /// capability is reported once: seen exactly when the server sent no
    /// correction.
    pub fn step(&mut self, status: &mut CapabilityStatus, hint_pending: bool, now_millis: u64) -> (r: MovementAction)
        requires
            old(self).sent_frames < u64::MAX,
        ensures
            (*final(self), r) == movement_decision(*old(self), hint_pending, now_millis),
            *final(status) == (if r matches MovementAction::Completed { reported: true, .. } {
                CapabilityStatus { movement: old(self).correction_count == 0, ..*old(status) }
            } else {
                *old(status)
            }),
    {
        if hint_pending && self.sent_frames == 0 && elapsed_millis(now_millis, self.started_at) < INITIAL_POSITION_HINT_WAIT_MILLIS {
            let first_report: bool = !self.initial_hint_wait_reported;
            self.initial_hint_wait_reported = true;
            return MovementAction::AwaitInitialHint { first_report };
        }
        if self.sent_frames == 0 && self.last_sent_at.is_none() && self.initial_hint_wait_reported {
            self.started_at = now_millis;
            self.initial_hint_wait_reported = false;
        }
        let send_due: bool = match self.last_sent_at {
            None => true,
            Some(at) => elapsed_millis(now_millis, at) >= MOVEMENT_SEND_INTERVAL_MILLIS,
        };
        let e: u64 = elapsed_millis(now_millis, self.started_at);
        if e >= MOVEMENT_VALIDATION_MILLIS {
            let reported: bool = !self.completion_reported;
            if reported {
                status.movement = self.correction_count == 0;
            }
            self.completion_reported = true;
            if send_due {
                let n: u64 = if self.idle_frames_sent == u64::MAX { u64::MAX } else { self.idle_frames_sent + 1 };
                self.idle_frames_sent = n;
                self.last_sent_at = Some(now_millis);
                return MovementAction::Completed { reported, idle_frame: Some(n) };
            }
            return MovementAction::Completed { reported, idle_frame: None };
        }
        if !send_due || MOVEMENT_VALIDATION_MILLIS - e <= MOVEMENT_COMPLETION_QUIET_MILLIS {
            return MovementAction::Idle;
        }
        self.sent_frames = self.sent_frames + 1;
        self.last_sent_at = Some(now_millis);
        MovementAction::Forward { frame_index: self.sent_frames }
    }
}

/// Whether an action sends a teleport command.
pub open spec fn sends_command(action: RtpAction) -> bool {
    action is SendCommand || action is SendFallbackCommand
}

/// Law: the command count counts exactly the commands the teleport phase
/// sends, and never passes `RTP_MAX_COMMAND_ATTEMPTS`; so over a whole run
/// at most that many commands go out.
pub proof fn lemma_rtp_commands_bounded(
    rtp: RtpProgress,
    inventory_probe_sent: bool,
    inputs: RtpInputs,
    command: Seq<char>,
    now: u64,
)
    requires
        rtp.command_attempts <= RTP_MAX_COMMAND_ATTEMPTS,
    ensures
        ({
            let o = rtp_decision(rtp, inventory_probe_sent, inputs, command, now);
            &&& o.rtp.command_attempts <= RTP_MAX_COMMAND_ATTEMPTS
            &&& o.rtp.command_attempts == rtp.command_attempts + (if sends_command(o.step.action) { 1int } else { 0int })
        }),
{
    reveal(rtp_decision);
    reveal(rtp_waiting);
    reveal(rtp_wait_tail);
    reveal(rtp_settle);
    reveal(rtp_finish);
}

/// Law: once the movement check has reported its outcome it never reports
/// it again, and the report is never forgotten.
pub proof fn lemma_movement_reported_once(clock: MovementClock, hint_pending: bool, now: u64)
    ensures
        ({
            let (next, action) = movement_decision(clock, hint_pending, now);
            &&& clock.completion_reported ==> next.completion_reported
            &&& clock.completion_reported ==> !(action matches MovementAction::Completed { reported: true, .. })
            &&& (action matches MovementAction::Completed { .. }) ==> next.completion_reported
        }),
{
}

/// Law: a break that the server never confirmed is given up at most once.
pub proof fn lemma_break_failure_reported_once(
    probe: ProbeProgress,
    target: Option<BlockTarget>,
    chosen_runtime_id: Option<u32>,
    observed: Option<u32>,
    now: u64,
)
    ensures
        ({
            let (next, action) = break_decision(probe, target, chosen_runtime_id, observed, now);
            &&& probe.break_confirmation_failed_reported ==> action != BreakAction::ConfirmationFailed
            &&& probe.break_confirmation_failed_reported ==> next.break_confirmation_failed_reported
            &&& action == BreakAction::ConfirmationFailed ==> next.break_confirmation_failed_reported
        }),
{
}

} // verus!
