//! The decisions of a validation run between the random-teleport menu, the
//! break, pickup and place probes, and the evidence the server sends back.
//! Positions and clocks stay with the caller; these rules read the flags.

use vstd::prelude::*;
use crate::commands::{tick_step, tick_sync_step, RTP_MAX_COMMAND_ATTEMPTS};
use crate::menu::{
    held_inventory_candidate_from_observed, is_menu_selector_item, is_overworld_or_neutral_random_teleport_menu_item,
    menu_click_target_from_observed, menu_target_of, overworld_or_neutral_rtp, placeable_rejection,
    server_ui_bytes, BlockTarget, HeldInventoryItem, MenuClickTarget, OBSERVED_AIR_RUNTIME_ID,
    RTP_MENU_MAX_CLICK_ATTEMPTS,
};
use crate::observe::{ObservedInventoryItem, ObservedPacket};
use crate::terrain::same_block;
use crate::transport::{parse_u64, parse_u64_spec};
use crate::protocol_adapter::opt_chars;
use crate::text::{contains_chars, contains_str, lower_chars, lowercase_chars, str_chars, trim_char_vec, trimmed};

verus! {

/// How many break targets may fail before the run gives up.
pub const GAMEPLAY_MAX_BREAK_TARGET_ATTEMPTS: u8 = 4;
/// The priority of the overworld selector in a dimension menu.
pub const OVERWORLD_SELECTOR_PRIORITY: u8 = 110;
/// The priority an overworld teleport entry gets once the selector was clicked.
pub const OVERWORLD_ENTRY_PRIORITY: u8 = 220;

/// What a failed break target leads to.
#[derive(Debug, Clone, Copy, PartialEq, Eq)]
pub enum TargetFailureOutcome {
    /// Too many targets failed, or there is none left and no teleport retry.
    GiveUp,
    /// No target is left; the random teleport starts over.
    RetryTeleport,
    /// Another target can be tried.
    NextTarget,
}

/// The attempts after one more failed target (saturating), and the outcome.
pub open spec fn target_failure(attempts: u8, has_next_target: bool, rtp_retry_allowed: bool) -> (u8, TargetFailureOutcome) {
    let next: u8 = if attempts == u8::MAX { u8::MAX } else { (attempts + 1) as u8 };
    (
        next,
        if next >= GAMEPLAY_MAX_BREAK_TARGET_ATTEMPTS {
            TargetFailureOutcome::GiveUp
        } else if !has_next_target {
            if rtp_retry_allowed {
                TargetFailureOutcome::RetryTeleport
            } else {
                TargetFailureOutcome::GiveUp
            }
        } else {
            TargetFailureOutcome::NextTarget
        },
    )
}

/// After a break target failed: the attempts so far (one more, saturating),
/// and whether to give up, teleport again, or try the next target.
pub fn after_target_failure(attempts: u8, has_next_target: bool, rtp_retry_allowed: bool) -> (r: (
    u8,
    TargetFailureOutcome,
))
    ensures
        r == target_failure(attempts, has_next_target, rtp_retry_allowed),
{
    let next: u8 = attempts.saturating_add(1);
    if next >= GAMEPLAY_MAX_BREAK_TARGET_ATTEMPTS {
        return (next, TargetFailureOutcome::GiveUp);
    }
    if !has_next_target {
        if rtp_retry_allowed {
            return (next, TargetFailureOutcome::RetryTeleport);
        }
        return (next, TargetFailureOutcome::GiveUp);
    }
    (next, TargetFailureOutcome::NextTarget)
}

/// What a block update proves about the probes.
#[derive(Debug, Clone, Copy, PartialEq, Eq)]
pub struct BlockEvidence {
    /// The break target became air.
    pub break_confirmed: bool,
    /// The placed block appeared where the place probe put it.
    pub place_confirmed: bool,
}

/// Reads a block update at `target` with `runtime_id` as evidence: air at
/// the break target confirms the break; anything but air where the place
/// probe put a block confirms the place.
pub fn update_block_evidence(
    break_target: Option<BlockTarget>,
    place_probe_sent: bool,
    place_result: Option<BlockTarget>,
    target: BlockTarget,
    runtime_id: u32,
) -> (r: BlockEvidence)
    ensures
        r.break_confirmed == (break_target == Some(target) && runtime_id == OBSERVED_AIR_RUNTIME_ID),
        r.place_confirmed == (place_probe_sent && place_result == Some(target) && runtime_id
            != OBSERVED_AIR_RUNTIME_ID),
{
    let at_break: bool = match break_target {
        Some(b) => same_block(b, target),
        None => false,
    };
    let at_place: bool = match place_result {
        Some(p) => same_block(p, target),
        None => false,
    };
    BlockEvidence {
        break_confirmed: at_break && runtime_id == OBSERVED_AIR_RUNTIME_ID,
        place_confirmed: place_probe_sent && at_place && runtime_id != OBSERVED_AIR_RUNTIME_ID,
    }
}

/// The random-teleport menu entry the run will click, and its click progress.
/// Times are milliseconds on the caller's clock.
#[derive(Debug, Clone, Copy, PartialEq, Eq)]
pub struct RtpMenuState {
    pub item: Option<MenuClickTarget>,
    pub click_sent: bool,
    pub click_sent_at: Option<u64>,
    pub click_attempts: u8,
    pub last_click_attempt_at: Option<u64>,
}

/// Two entries differ in where they are, what container they are in, or
/// their priority.
pub open spec fn menu_entry_changed(current: MenuClickTarget, next: MenuClickTarget) -> bool {
    current.window_id != next.window_id || current.slot != next.slot || current.stack_id != next.stack_id
        || current.container_type != next.container_type || current.dynamic_container_id
        != next.dynamic_container_id || current.priority != next.priority
}

/// The entry to cache for an observed menu item: once the overworld
/// selector was clicked, an overworld (or neutral) teleport entry ranks at
/// least `OVERWORLD_ENTRY_PRIORITY`.
pub open spec fn ranked_entry(state: RtpMenuState, entry: MenuClickTarget, overworld: bool) -> MenuClickTarget {
    let selector_clicked = match state.item {
        Some(c) => c.priority == OVERWORLD_SELECTOR_PRIORITY,
        None => false,
    };
    if state.click_sent && selector_clicked && overworld {
        MenuClickTarget {
            priority: if entry.priority >= OVERWORLD_ENTRY_PRIORITY {
                entry.priority
            } else {
                OVERWORLD_ENTRY_PRIORITY
            },
            ..entry
        }
    } else {
        entry
    }
}

/// The menu state after seeing `entry`: a higher-priority entry (or the
/// first) replaces the cached one, and when it differs from an entry that
/// was already clicked, the click progress starts over.
pub open spec fn menu_after_entry(state: RtpMenuState, entry: MenuClickTarget, overworld: bool) -> RtpMenuState {
    let next = ranked_entry(state, entry, overworld);
    let replace = match state.item {
        Some(c) => next.priority > c.priority,
        None => true,
    };
    let changed = match state.item {
        Some(c) => menu_entry_changed(c, next),
        None => true,
    };
    if !replace {
        state
    } else if changed && state.click_sent {
        RtpMenuState {
            item: Some(next),
            click_sent: false,
            click_sent_at: None,
            click_attempts: 0,
            last_click_attempt_at: None,
        }
    } else {
        RtpMenuState { item: Some(next), ..state }
    }
}

/// The menu entry an observed item stands for, if any (`menu_target_of`,
/// kept folded so that callers reason about the entry, not about the text).
#[verifier::opaque]
pub open spec fn menu_entry_of(item: ObservedInventoryItem) -> Option<MenuClickTarget> {
    menu_target_of(item)
}

/// The observed item is an overworld (or neutral) teleport entry
/// (`overworld_or_neutral_rtp`, kept folded).
#[verifier::opaque]
pub open spec fn overworld_entry(item: ObservedInventoryItem) -> bool {
    overworld_or_neutral_rtp(item.item_id, item.item_bytes@)
}

impl RtpMenuState {
    pub fn new() -> (r: Self)
        ensures
            r.item is None,
            !r.click_sent,
            r.click_sent_at is None,
            r.click_attempts == 0,
            r.last_click_attempt_at is None,
    {
        RtpMenuState { item: None, click_sent: false, click_sent_at: None, click_attempts: 0, last_click_attempt_at: None }
    }

    /// Caches an observed inventory item when it is a teleport menu entry;
    /// tells whether it was one (the caller then checks for a late menu).
    pub fn observe_menu_item(&mut self, item: &ObservedInventoryItem) -> (r: bool)
        ensures
            r == menu_entry_of(*item) is Some,
            match menu_entry_of(*item) {
                None => *final(self) == *old(self),
                Some(entry) => *final(self) == menu_after_entry(*old(self), entry, overworld_entry(*item)),
            },
    {
        proof {
            reveal(menu_entry_of);
            reveal(overworld_entry);
        }
        let entry = match menu_click_target_from_observed(item) {
            Some(e) => e,
            None => return false,
        };
        let overworld: bool = is_overworld_or_neutral_random_teleport_menu_item(item);
        let mut next = entry;
        let selector_clicked: bool = self.click_sent && match self.item {
            Some(c) => c.priority == OVERWORLD_SELECTOR_PRIORITY,
            None => false,
        };
        if selector_clicked && overworld {
            next.priority = if entry.priority >= OVERWORLD_ENTRY_PRIORITY {
                entry.priority
            } else {
                OVERWORLD_ENTRY_PRIORITY
            };
        }
        let (replace, changed): (bool, bool) = match self.item {
            Some(c) => (
                next.priority > c.priority,
                c.window_id != next.window_id || c.slot != next.slot || c.stack_id != next.stack_id
                    || c.container_type != next.container_type || c.dynamic_container_id
                    != next.dynamic_container_id || c.priority != next.priority,
            ),
            None => (true, true),
        };
        if replace {
            if changed && self.click_sent {
                self.click_attempts = 0;
                self.last_click_attempt_at = None;
                self.click_sent = false;
                self.click_sent_at = None;
            }
            self.item = Some(next);
        }
        true
    }
}

/// Keeps the first placeable item seen as the held candidate: an item is
/// taken only while none is cached, and never a menu selector.
pub fn cache_observed_held_inventory_candidate(candidate: &mut Option<HeldInventoryItem>, item: &ObservedInventoryItem)
    ensures
        *old(candidate) is Some ==> *final(candidate) == *old(candidate),
        *old(candidate) is None && server_ui_bytes(item.item_bytes@) ==> *final(candidate) is None,
        *old(candidate) is None && !server_ui_bytes(item.item_bytes@) ==> match placeable_rejection(
            item.container_id,
            item.item_id,
            item.item_bytes@,
        ) {
            Some(_) => *final(candidate) is None,
            None => *final(candidate) matches Some(held) && held.container_id == item.container_id && held.slot
                == item.slot && held.item_id == item.item_id && held.item_bytes@ == item.item_bytes@,
        },
{
    if candidate.is_some() {
        return;
    }
    if is_menu_selector_item(item) {
        return;
    }
    if let Some(held) = held_inventory_candidate_from_observed(item) {
        *candidate = Some(held);
    }
}

/// The tick-sync clock of a validation run: the next request time and how
/// many requests went out.
#[derive(Debug, Clone, Copy, PartialEq, Eq)]
pub struct TickSyncClock {
    pub time: i64,
    pub sent_count: u64,
}

/// Takes the next tick-sync request time for an interval of
/// `interval_millis`: none when the interval is zero; else the current time,
/// with the clock moved on by the interval's ticks (wrapping) and the count
/// moved on by one (saturating).
pub fn next_tick_sync_request_time(clock: &mut TickSyncClock, interval_millis: u128) -> (r: Option<i64>)
    requires
        interval_millis <= 18_446_744_073_709_551_615_999,
    ensures
        interval_millis == 0 ==> r is None && *final(clock) == *old(clock),
        interval_millis != 0 ==> {
            &&& r == Some(old(clock).time)
            &&& final(clock).time as int == (old(clock).time + tick_step(interval_millis) + 0x8000_0000_0000_0000)
                % 0x1_0000_0000_0000_0000 - 0x8000_0000_0000_0000
            &&& final(clock).sent_count == (if old(clock).sent_count == u64::MAX {
                u64::MAX
            } else {
                (old(clock).sent_count + 1) as u64
            })
        },
{
    if interval_millis == 0 {
        return None;
    }
    let request_time: i64 = clock.time;
    let step: i64 = tick_sync_step(interval_millis);
    clock.time = wrapping_add_i64(clock.time, step);
    clock.sent_count = clock.sent_count.saturating_add(1);
    Some(request_time)
}

/// `a + b` wrapped into `i64`.
fn wrapping_add_i64(a: i64, b: i64) -> (r: i64)
    ensures
        r as int == (a + b + 0x8000_0000_0000_0000) % 0x1_0000_0000_0000_0000 - 0x8000_0000_0000_0000,
{
    let sum: i128 = a as i128 + b as i128;
    if sum > i64::MAX as i128 {
        (sum - 0x1_0000_0000_0000_0000i128) as i64
    } else if sum < i64::MIN as i128 {
        (sum + 0x1_0000_0000_0000_0000i128) as i64
    } else {
        sum as i64
    }
}


/// A packet that shows the login is moving on.
pub open spec fn shows_progress(p: ObservedPacket) -> bool {
    ||| p is PlayStatus
    ||| p is ResourcePacksInfo
    ||| p is ResourcePackStack
    ||| p is StartGame
    ||| p is Disconnect
    ||| p is ItemStackResponse
}

/// Some observed packet shows the login moving on.
pub fn observed_contains_progress(observed: &[ObservedPacket]) -> (r: bool)
    ensures
        r == exists|i: int| 0 <= i < observed@.len() && shows_progress(#[trigger] observed@[i]),
{
    let mut i: usize = 0;
    while i < observed.len()
        invariant
            i <= observed@.len(),
            forall|j: int| 0 <= j < i ==> !shows_progress(#[trigger] observed@[j]),
        decreases observed@.len() - i,
    {
        let progress: bool = match &observed[i] {
            ObservedPacket::PlayStatus(_) => true,
            ObservedPacket::ResourcePacksInfo => true,
            ObservedPacket::ResourcePackStack => true,
            ObservedPacket::StartGame(_) => true,
            ObservedPacket::Disconnect(_) => true,
            ObservedPacket::ItemStackResponse { .. } => true,
            _ => false,
        };
        if progress {
            return true;
        }
        i = i + 1;
    }
    false
}

/// A setting that is on when trimmed and lowercased it reads `1`, `true`,
/// `yes` or `on`; any other value is off; an absent one is `default`.
pub open spec fn switch_on(value: Option<Seq<char>>, default: bool) -> bool {
    match value {
        None => default,
        Some(v) => {
            let w = lower_chars(trimmed(v));
            w == "1"@ || w == "true"@ || w == "yes"@ || w == "on"@
        },
    }
}

fn switch_setting(value: Option<&str>, default: bool) -> (r: bool)
    ensures
        r == switch_on(
            match value {
                Some(v) => Some(v@),
                None => None,
            },
            default,
        ),
{
    match value {
        None => default,
        Some(v) => {
            let chars = str_chars(v);
            let trimmed_chars = trim_char_vec(&chars);
            let w = lowercase_chars(&trimmed_chars);
            equals_literal(&w, "1") || equals_literal(&w, "true") || equals_literal(&w, "yes") || equals_literal(
                &w,
                "on",
            )
        },
    }
}

fn equals_literal(w: &Vec<char>, literal: &str) -> (r: bool)
    ensures
        r == (w@ == literal@),
{
    let l = str_chars(literal);
    crate::text::chars_equal(w, &l)
}

/// Whether the teleport container is closed after the click, from the
/// setting's value (off when unset).
pub fn should_close_rtp_container(value: Option<&str>) -> (r: bool)
    ensures
        r == switch_on(
            match value {
                Some(v) => Some(v@),
                None => None,
            },
            false,
        ),
{
    switch_setting(value, false)
}

/// Whether the teleport menu is clicked, from the setting's value (on when unset).
pub fn should_click_rtp_menu(value: Option<&str>) -> (r: bool)
    ensures
        r == switch_on(
            match value {
                Some(v) => Some(v@),
                None => None,
            },
            true,
        ),
{
    switch_setting(value, true)
}

/// An error message from decoding the packets after spawn: a failed batch
/// decryption or decode, or a bad encryption trailer.
pub open spec fn post_spawn_decode_message(message: Seq<char>) -> bool {
    contains_chars(message, "decrypt packet batch"@) || contains_chars(message, "decode packet batch"@)
        || contains_chars(message, "Encrypted data trailer invalid"@)
}

pub fn is_post_spawn_decode_error(message: &str) -> (r: bool)
    ensures
        r == post_spawn_decode_message(message@),
{
    let chars = str_chars(message);
    contains_str(&chars, "decrypt packet batch") || contains_str(&chars, "decode packet batch") || contains_str(
        &chars,
        "Encrypted data trailer invalid",
    )
}


/// Law: once a teleport menu entry is cached, seeing another entry never
/// lowers the cached entry's priority.
pub proof fn lemma_menu_priority_never_drops(state: RtpMenuState, entry: MenuClickTarget, overworld: bool)
    requires
        state.item is Some,
    ensures
        menu_after_entry(state, entry, overworld).item matches Some(next) && next.priority >= state.item->0.priority,
{
}

/// Law: a failed break target at the last allowed attempt always ends the
/// run's search, whatever targets remain or whether a teleport retry is left.
pub proof fn lemma_target_failures_are_bounded(attempts: u8, has_next_target: bool, rtp_retry_allowed: bool)
    requires
        attempts + 1 >= GAMEPLAY_MAX_BREAK_TARGET_ATTEMPTS,
    ensures
        target_failure(attempts, has_next_target, rtp_retry_allowed).1 == TargetFailureOutcome::GiveUp,
        target_failure(attempts, has_next_target, rtp_retry_allowed).0 >= GAMEPLAY_MAX_BREAK_TARGET_ATTEMPTS,
{
}


/// How long movement validation waits before moving, by default.
pub const MOVEMENT_START_DELAY_DEFAULT_SECONDS: u64 = 3;
/// The tick-sync interval, by default.
pub const TICK_SYNC_INTERVAL_MILLIS: u64 = 500;
/// How long the run waits for the teleport, by default.
pub const RTP_WAIT_SECONDS: u64 = 75;
/// How long the run waits for the teleport menu to open, by default.
pub const RTP_MENU_OPEN_WAIT_SECONDS: u64 = 75;
/// How long the run waits after clicking the teleport menu, by default.
pub const RTP_MENU_CLICK_WAIT_SECONDS: u64 = 12;

/// A setting read as a whole number, trimmed.
pub open spec fn setting_u64(value: Option<Seq<char>>) -> Option<u64> {
    match value {
        Some(v) => parse_u64_spec(trimmed(v)),
        None => None,
    }
}

fn read_setting_u64(value: Option<&str>) -> (r: Option<u64>)
    ensures
        r == setting_u64(opt_chars(value)),
{
    match value {
        Some(v) => {
            let chars = str_chars(v);
            let t = trim_char_vec(&chars);
            parse_u64(&t)
        },
        None => None,
    }
}

/// The delay before movement starts, in milliseconds: the millisecond
/// setting when it is a number, else the seconds setting when it is one,
/// else `MOVEMENT_START_DELAY_DEFAULT_SECONDS`.
pub fn movement_start_delay_millis(millis_value: Option<&str>, seconds_value: Option<&str>) -> (r: u128)
    ensures
        r == (match setting_u64(opt_chars(millis_value)) {
            Some(ms) => ms as u128,
            None => match setting_u64(opt_chars(seconds_value)) {
                Some(secs) => (secs * 1000) as u128,
                None => (MOVEMENT_START_DELAY_DEFAULT_SECONDS * 1000) as u128,
            },
        }),
{
    if let Some(ms) = read_setting_u64(millis_value) {
        return ms as u128;
    }
    if let Some(secs) = read_setting_u64(seconds_value) {
        return secs as u128 * 1000;
    }
    MOVEMENT_START_DELAY_DEFAULT_SECONDS as u128 * 1000
}

/// A duration setting in seconds: its value when it is a positive number,
/// else the default.
pub fn validation_duration_env_seconds(value: Option<&str>, default_seconds: u64) -> (r: u64)
    ensures
        r == (match setting_u64(opt_chars(value)) {
            Some(secs) => if secs > 0 { secs } else { default_seconds },
            None => default_seconds,
        }),
{
    match read_setting_u64(value) {
        Some(secs) => if secs > 0 {
            secs
        } else {
            default_seconds
        },
        None => default_seconds,
    }
}

/// A duration setting in milliseconds: its value when it is a number (zero
/// included), else the default.
pub fn validation_duration_env_millis_allow_zero(value: Option<&str>, default_millis: u64) -> (r: u64)
    ensures
        r == (match setting_u64(opt_chars(value)) {
            Some(ms) => ms,
            None => default_millis,
        }),
{
    match read_setting_u64(value) {
        Some(ms) => ms,
        None => default_millis,
    }
}

/// The tick-sync interval from its setting; zero turns tick sync off.
pub fn tick_sync_interval_millis(value: Option<&str>) -> (r: u64)
    ensures
        r == (match setting_u64(opt_chars(value)) {
            Some(ms) => ms,
            None => TICK_SYNC_INTERVAL_MILLIS,
        }),
{
    validation_duration_env_millis_allow_zero(value, TICK_SYNC_INTERVAL_MILLIS)
}

} // verus!
