//! Inventory and menu decisions of the validation bot: which observed items
//! are server menu entries and how urgently to click them, which items and
//! blocks may be used for pickup and placement, and the ItemStackRequest that
//! clicks a menu entry.

use vstd::prelude::*;
use crate::observe::{ObservedInventoryItem, Vec3Bits};
use crate::packets::framed_packet;
use crate::text::{compact_item_text_chars, compact_text, contains_chars, contains_str, item_text_hint, lower_chars, lowercase_chars, str_chars, utf8_lossy};
use crate::varint::{lemma_varint_u32_len, read_var_u32, var_u32_at, varint_encode, write_unsigned_varint_u32, write_zigzag_i32, zigzag_decode32, zigzag_encode32, zigzag_i32};
use crate::wire::{le_bytes, lemma_le_bytes_len, push_le_u32};

verus! {

broadcast use vstd::string::group_string_axioms;

pub const ITEM_STACK_REQUEST_PACKET_ID: u32 = 0x93;
pub const CONTAINER_TYPE_CONTAINER: u8 = 7;
pub const CONTAINER_TYPE_CURSOR: u8 = 59;
pub const CONTAINER_TYPE_DYNAMIC: u8 = 63;
pub const OBSERVED_AIR_RUNTIME_ID: u32 = 12530;
pub const OBSERVED_CHEST_RUNTIME_ID: u32 = 13313;
pub const SPRUCE_BUTTON_CEILING_RUNTIME_ID: u32 = 5901;
pub const BLOCK_FACE_DOWN: i32 = 0;
pub const BLOCK_FACE_UP: i32 = 1;
pub const RTP_MENU_MAX_CLICK_ATTEMPTS: u8 = 8;

// ---------------------------------------------------------------------------
// Menu entries
// ---------------------------------------------------------------------------

/// A menu entry to click: where it is, what it is, and how urgently.
#[derive(Debug, Clone, Copy, PartialEq, Eq)]
pub struct MenuClickTarget {
    pub window_id: u32,
    pub slot: u32,
    pub item_id: i32,
    pub stack_id: i32,
    pub container_type: u8,
    pub dynamic_container_id: Option<u32>,
    pub priority: u8,
}

/// The lowercased text hint of item bytes, if they hold one.
pub open spec fn lowered_hint(bytes: Seq<u8>) -> Option<Seq<char>> {
    match item_text_hint(bytes) {
        Some(t) => Some(lower_chars(t)),
        None => None,
    }
}

/// How urgently to click a random-teleport menu entry, by its text and item:
/// overworld random teleports first, then overworld region selectors,
/// server-region teleports, other same-dimension teleports, nether, end,
/// and other selectors last.
pub open spec fn rtp_priority(item_id: i32, bytes: Seq<u8>) -> Option<u8> {
    match lowered_hint(bytes) {
        None => None,
        Some(lower) => {
            let random = contains_chars(lower, "click to randomly teleport"@);
            let selector = contains_chars(lower, "click to select region"@);
            let overworld = item_id == 2 || contains_chars(lower, "overworld"@);
            let nether = item_id == 87 || contains_chars(lower, "nether"@);
            let end = item_id == 121 || contains_chars(lower, "end"@);
            let cross_dimension = nether || end;
            let server_region_random = random && !cross_dimension && (contains_chars(lower, "players"@)
                || contains_chars(lower, "ms"@) || contains_chars(lower, "asia"@) || contains_chars(
                lower,
                "europe"@,
            ) || contains_chars(lower, "na west"@) || contains_chars(lower, "na east"@)
                || contains_chars(lower, "north america"@));
            if !random && !selector {
                None
            } else if random && overworld {
                Some(120)
            } else if selector && overworld {
                Some(110)
            } else if server_region_random {
                Some(100)
            } else if random && !nether && !end {
                Some(90)
            } else if random && nether {
                Some(40)
            } else if random && end {
                Some(20)
            } else if selector {
                Some(10)
            } else {
                None
            }
        },
    }
}

fn lowered_hint_chars(bytes: &[u8]) -> (r: Option<Vec<char>>)
    ensures
        match lowered_hint(bytes@) {
            Some(l) => r matches Some(v) && v@ == l,
            None => r is None,
        },
{
    let text: Vec<char> = compact_item_text_chars(bytes);
    if text.len() == 0 {
        None
    } else {
        Some(lowercase_chars(&text))
    }
}

pub fn rtp_menu_item_priority(item: &ObservedInventoryItem) -> (r: Option<u8>)
    ensures
        r == rtp_priority(item.item_id, item.item_bytes@),
{
    let lower: Vec<char> = match lowered_hint_chars(item.item_bytes.as_slice()) {
        Some(l) => l,
        None => return None,
    };
    let random: bool = contains_str(&lower, "click to randomly teleport");
    let selector: bool = contains_str(&lower, "click to select region");
    if !random && !selector {
        return None;
    }
    let overworld: bool = item.item_id == 2 || contains_str(&lower, "overworld");
    let nether: bool = item.item_id == 87 || contains_str(&lower, "nether");
    let end: bool = item.item_id == 121 || contains_str(&lower, "end");
    let cross_dimension: bool = nether || end;
    let server_region_random: bool = random && !cross_dimension && (contains_str(&lower, "players")
        || contains_str(&lower, "ms") || contains_str(&lower, "asia") || contains_str(&lower, "europe")
        || contains_str(&lower, "na west") || contains_str(&lower, "na east") || contains_str(
        &lower,
        "north america",
    ));
    if random && overworld {
        Some(120)
    } else if selector && overworld {
        Some(110)
    } else if server_region_random {
        Some(100)
    } else if random && !nether && !end {
        Some(90)
    } else if random && nether {
        Some(40)
    } else if random && end {
        Some(20)
    } else if selector {
        Some(10)
    } else {
        None
    }
}

/// The RTP item of DonutSMP's spawn hotbar: item 303 in player slot 0, with
/// short item bytes.
pub open spec fn donutsmp_hotbar_rtp_priority(item: ObservedInventoryItem) -> Option<u8> {
    if item.container_id == 0 && item.slot == 0 && item.item_id == 303 && item.item_bytes@.len() <= 32 {
        Some(80)
    } else {
        None
    }
}

pub fn donutsmp_spawn_hotbar_rtp_item_priority(item: &ObservedInventoryItem) -> (r: Option<u8>)
    ensures
        r == donutsmp_hotbar_rtp_priority(*item),
{
    if item.container_id == 0 && item.slot == 0 && item.item_id == 303 && item.item_bytes.len() <= 32 {
        Some(80)
    } else {
        None
    }
}

/// The click target of an observed item: none for air, for an item that is
/// not a menu entry, or without a stack id; the container type defaults to
/// the dynamic container.
pub open spec fn menu_target_of(item: ObservedInventoryItem) -> Option<MenuClickTarget> {
    let priority = match rtp_priority(item.item_id, item.item_bytes@) {
        Some(p) => Some(p),
        None => donutsmp_hotbar_rtp_priority(item),
    };
    if item.item_id == 0 || priority is None || item.stack_id is None {
        None
    } else {
        Some(
            MenuClickTarget {
                window_id: item.container_id,
                slot: item.slot,
                item_id: item.item_id,
                stack_id: item.stack_id->0,
                container_type: match item.container_type {
                    Some(t) => t,
                    None => CONTAINER_TYPE_DYNAMIC,
                },
                dynamic_container_id: item.dynamic_container_id,
                priority: priority->0,
            },
        )
    }
}

pub fn menu_click_target_from_observed(item: &ObservedInventoryItem) -> (r: Option<MenuClickTarget>)
    ensures
        r == menu_target_of(*item),
{
    if item.item_id == 0 {
        return None;
    }
    let priority: u8 = match rtp_menu_item_priority(item) {
        Some(p) => p,
        None => match donutsmp_spawn_hotbar_rtp_item_priority(item) {
            Some(p) => p,
            None => return None,
        },
    };
    let stack_id: i32 = match item.stack_id {
        Some(s) => s,
        None => return None,
    };
    Some(
        MenuClickTarget {
            window_id: item.container_id,
            slot: item.slot,
            item_id: item.item_id,
            stack_id,
            container_type: match item.container_type {
                Some(t) => t,
                None => CONTAINER_TYPE_DYNAMIC,
            },
            dynamic_container_id: item.dynamic_container_id,
            priority,
        },
    )
}

/// Text of server UI items (menus, selectors, teleport entries).
pub open spec fn server_ui_text(text: Seq<char>) -> bool {
    let lower = lower_chars(text);
    ||| contains_chars(lower, "click to randomly teleport"@)
    ||| contains_chars(lower, "click to select region"@)
    ||| contains_chars(lower, "randomly teleport"@)
    ||| contains_chars(lower, "select region"@)
    ||| contains_chars(lower, "region selector"@)
    ||| contains_chars(lower, "server selector"@)
    ||| contains_chars(lower, "teleport menu"@)
    ||| contains_chars(lower, "rtp"@)
    ||| contains_chars(lower, "server ui"@)
    ||| contains_chars(lower, "menu item"@)
    ||| contains_chars(lower, "open menu"@)
    ||| contains_chars(lower, "right click"@)
    ||| contains_chars(lower, "click to"@)
    ||| contains_chars(lower, "lobby selector"@)
    ||| contains_chars(lower, "realm selector"@)
}

fn server_ui_chars(text: &Vec<char>) -> (r: bool)
    ensures
        r == server_ui_text(text@),
{
    let lower: Vec<char> = lowercase_chars(text);
    contains_str(&lower, "click to randomly teleport") || contains_str(&lower, "click to select region")
        || contains_str(&lower, "randomly teleport") || contains_str(&lower, "select region")
        || contains_str(&lower, "region selector") || contains_str(&lower, "server selector")
        || contains_str(&lower, "teleport menu") || contains_str(&lower, "rtp") || contains_str(
        &lower,
        "server ui",
    ) || contains_str(&lower, "menu item") || contains_str(&lower, "open menu") || contains_str(
        &lower,
        "right click",
    ) || contains_str(&lower, "click to") || contains_str(&lower, "lobby selector")
        || contains_str(&lower, "realm selector")
}

pub fn is_server_ui_item_text(text: &str) -> (r: bool)
    ensures
        r == server_ui_text(text@),
{
    let chars: Vec<char> = str_chars(text);
    server_ui_chars(&chars)
}

/// Item bytes whose text hint reads as server UI.
pub open spec fn server_ui_bytes(bytes: Seq<u8>) -> bool {
    match item_text_hint(bytes) {
        Some(text) => server_ui_text(text),
        None => false,
    }
}

pub fn is_server_ui_item_bytes(item_bytes: &[u8]) -> (r: bool)
    ensures
        r == server_ui_bytes(item_bytes@),
{
    let text: Vec<char> = compact_item_text_chars(item_bytes);
    if text.len() == 0 {
        return false;
    }
    server_ui_chars(&text)
}

pub fn is_menu_selector_item(item: &ObservedInventoryItem) -> (r: bool)
    ensures
        r == server_ui_bytes(item.item_bytes@),
{
    is_server_ui_item_bytes(item.item_bytes.as_slice())
}

/// A random-teleport entry that stays in the overworld or names no other dimension.
pub open spec fn overworld_or_neutral_rtp(item_id: i32, bytes: Seq<u8>) -> bool {
    match lowered_hint(bytes) {
        None => false,
        Some(lower) => {
            let overworld = item_id == 2 || contains_chars(lower, "overworld"@);
            let cross_dimension = item_id == 87 || item_id == 121 || contains_chars(lower, "nether"@)
                || contains_chars(lower, "end"@);
            contains_chars(lower, "click to randomly teleport"@) && (overworld || !cross_dimension)
        },
    }
}

pub fn is_overworld_or_neutral_random_teleport_menu_item(item: &ObservedInventoryItem) -> (r: bool)
    ensures
        r == overworld_or_neutral_rtp(item.item_id, item.item_bytes@),
{
    let lower: Vec<char> = match lowered_hint_chars(item.item_bytes.as_slice()) {
        Some(l) => l,
        None => return false,
    };
    if !contains_str(&lower, "click to randomly teleport") {
        return false;
    }
    let overworld: bool = item.item_id == 2 || contains_str(&lower, "overworld");
    let cross_dimension: bool = item.item_id == 87 || item.item_id == 121 || contains_str(&lower, "nether")
        || contains_str(&lower, "end");
    overworld || !cross_dimension
}

// ---------------------------------------------------------------------------
// Items usable for placement
// ---------------------------------------------------------------------------

/// Item ids that are probably placeable blocks: the legacy block range and
/// the modern block items seen on the validated servers.
pub open spec fn placeable_block_item(item_id: i32) -> bool {
    item_id > 0 && (item_id <= 255 || item_id == 303 || item_id == 306 || item_id == 320 || item_id
        == 343 || item_id == 371 || item_id == 372 || item_id == 373 || item_id == 374 || item_id == 422)
}

pub fn is_probably_placeable_block_item(item_id: i32) -> (r: bool)
    ensures
        r == placeable_block_item(item_id),
{
    item_id > 0 && (item_id <= 255 || item_id == 303 || item_id == 306 || item_id == 320 || item_id
        == 343 || item_id == 371 || item_id == 372 || item_id == 373 || item_id == 374 || item_id == 422)
}

pub fn is_player_inventory_container(container_id: u32) -> (r: bool)
    ensures
        r == (container_id == 0),
{
    container_id == 0
}

/// The utility items of DonutSMP's spawn hotbar.
pub open spec fn donutsmp_hotbar_utility(container_id: u32, item_id: i32, len: nat) -> bool {
    container_id == 0 && (item_id == 343 || item_id == 371 || item_id == 372 || item_id == 373 || item_id
        == 374) && 32 <= len <= 96
}

pub fn is_donutsmp_spawn_hotbar_utility_item_bytes(container_id: u32, item_id: i32, item_bytes: &[u8]) -> (r: bool)
    ensures
        r == donutsmp_hotbar_utility(container_id, item_id, item_bytes@.len()),
{
    container_id == 0 && (item_id == 343 || item_id == 371 || item_id == 372 || item_id == 373 || item_id
        == 374) && item_bytes.len() >= 32 && item_bytes.len() <= 96
}

/// DonutSMP's spawn-hotbar RTP item, by container, id and byte length.
pub open spec fn donutsmp_hotbar_rtp(container_id: u32, item_id: i32, len: nat) -> bool {
    container_id == 0 && item_id == 303 && len <= 32
}

pub fn is_donutsmp_spawn_hotbar_rtp_item_bytes(container_id: u32, item_id: i32, item_bytes: &[u8]) -> (r: bool)
    ensures
        r == donutsmp_hotbar_rtp(container_id, item_id, item_bytes@.len()),
{
    container_id == 0 && item_id == 303 && item_bytes.len() <= 32
}

/// Why an inventory item may not be used as the block to place, if it may not.
pub open spec fn placeable_rejection(container_id: u32, item_id: i32, bytes: Seq<u8>) -> Option<&'static str> {
    if item_id == 0 {
        Some("air")
    } else if donutsmp_hotbar_rtp(container_id, item_id, bytes.len()) || donutsmp_hotbar_utility(
        container_id,
        item_id,
        bytes.len(),
    ) || server_ui_bytes(bytes) {
        Some("server_ui_item")
    } else if container_id != 0 {
        Some("non_player_inventory_container")
    } else if !placeable_block_item(item_id) {
        Some("not_placeable_block_item")
    } else {
        None
    }
}

pub fn normal_placeable_rejection_reason(container_id: u32, item_id: i32, item_bytes: &[u8]) -> (r: Option<
    &'static str,
>)
    ensures
        r == placeable_rejection(container_id, item_id, item_bytes@),
{
    if item_id == 0 {
        return Some("air");
    }
    if is_donutsmp_spawn_hotbar_rtp_item_bytes(container_id, item_id, item_bytes) {
        return Some("server_ui_item");
    }
    if is_donutsmp_spawn_hotbar_utility_item_bytes(container_id, item_id, item_bytes) {
        return Some("server_ui_item");
    }
    if is_server_ui_item_bytes(item_bytes) {
        return Some("server_ui_item");
    }
    if !is_player_inventory_container(container_id) {
        return Some("non_player_inventory_container");
    }
    if !is_probably_placeable_block_item(item_id) {
        return Some("not_placeable_block_item");
    }
    None
}

/// Why a dropped item entity may not be used for pickup and placement, if it may not.
pub open spec fn item_entity_rejection(item_id: i32, bytes: Seq<u8>) -> Option<&'static str> {
    if item_id == 0 {
        Some("air")
    } else if server_ui_bytes(bytes) || ((item_id == 343 || item_id == 371 || item_id == 372 || item_id
        == 373 || item_id == 374) && bytes.len() >= 32) {
        Some("server_ui_item")
    } else if !placeable_block_item(item_id) {
        Some("not_placeable_block_item")
    } else {
        None
    }
}

pub fn normal_item_entity_rejection_reason(item_id: i32, item_bytes: &[u8]) -> (r: Option<&'static str>)
    ensures
        r == item_entity_rejection(item_id, item_bytes@),
{
    if item_id == 0 {
        return Some("air");
    }
    if is_server_ui_item_bytes(item_bytes) {
        return Some("server_ui_item");
    }
    if (item_id == 343 || item_id == 371 || item_id == 372 || item_id == 373 || item_id == 374)
        && item_bytes.len() >= 32 {
        return Some("server_ui_item");
    }
    if !is_probably_placeable_block_item(item_id) {
        return Some("not_placeable_block_item");
    }
    None
}

/// An inventory item the bot may hold and place.
#[derive(Debug, Clone, PartialEq, Eq)]
pub struct HeldInventoryItem {
    pub container_id: u32,
    pub slot: u32,
    pub item_id: i32,
    pub item_bytes: Vec<u8>,
}

pub fn held_inventory_candidate_from_observed(item: &ObservedInventoryItem) -> (r: Option<HeldInventoryItem>)
    ensures
        placeable_rejection(item.container_id, item.item_id, item.item_bytes@) is Some ==> r is None,
        placeable_rejection(item.container_id, item.item_id, item.item_bytes@) is None ==> (r matches Some(
            held,
        ) && held.container_id == item.container_id && held.slot == item.slot && held.item_id
            == item.item_id && held.item_bytes@ == item.item_bytes@),
{
    if normal_placeable_rejection_reason(item.container_id, item.item_id, item.item_bytes.as_slice()).is_some() {
        return None;
    }
    let mut bytes: Vec<u8> = Vec::new();
    bytes.extend_from_slice(item.item_bytes.as_slice());
    Some(
        HeldInventoryItem {
            container_id: item.container_id,
            slot: item.slot,
            item_id: item.item_id,
            item_bytes: bytes,
        },
    )
}

// ---------------------------------------------------------------------------
// Blocks usable for break, pickup and placement
// ---------------------------------------------------------------------------

/// DonutSMP terrain runtime ids seen in LevelChunk samples.
pub open spec fn observed_donutsmp_terrain(runtime_id: u32) -> bool {
    runtime_id == 3758 || runtime_id == 10812 || runtime_id == 12970 || runtime_id == 22010
        || runtime_id == 24356 || runtime_id == 25040 || runtime_id == 26228 || runtime_id == 27644
        || runtime_id == 27646 || runtime_id == 27648 || runtime_id == 27654 || runtime_id == 27656
        || runtime_id == 28878
}

pub fn is_observed_donutsmp_terrain_runtime_id(runtime_id: u32) -> (r: bool)
    ensures
        r == observed_donutsmp_terrain(runtime_id),
{
    runtime_id == 3758 || runtime_id == 10812 || runtime_id == 12970 || runtime_id == 22010
        || runtime_id == 24356 || runtime_id == 25040 || runtime_id == 26228 || runtime_id == 27644
        || runtime_id == 27646 || runtime_id == 27648 || runtime_id == 27654 || runtime_id == 27656
        || runtime_id == 28878
}

/// Blocks that drop themselves (or a placeable block) when broken by hand.
pub open spec fn hand_droppable(runtime_id: u32) -> bool {
    runtime_id == 2732 || runtime_id == 5213 || runtime_id == SPRUCE_BUTTON_CEILING_RUNTIME_ID
        || runtime_id == 6217 || runtime_id == 6234 || runtime_id == 6725 || runtime_id == 7292
        || runtime_id == 9852 || runtime_id == 9892 || runtime_id == 9893 || runtime_id == 11062
        || runtime_id == 12178 || runtime_id == 12524 || runtime_id == 13114 || observed_donutsmp_terrain(
        runtime_id,
    )
}

pub fn is_hand_droppable_placeable_runtime_id(runtime_id: u32) -> (r: bool)
    ensures
        r == hand_droppable(runtime_id),
{
    runtime_id == 2732 || runtime_id == 5213 || runtime_id == SPRUCE_BUTTON_CEILING_RUNTIME_ID
        || runtime_id == 6217 || runtime_id == 6234 || runtime_id == 6725 || runtime_id == 7292
        || runtime_id == 9852 || runtime_id == 9892 || runtime_id == 9893 || runtime_id == 11062
        || runtime_id == 12178 || runtime_id == 12524 || runtime_id == 13114
        || is_observed_donutsmp_terrain_runtime_id(runtime_id)
}

pub fn is_normal_validation_placeable_drop_runtime_id(runtime_id: u32) -> (r: bool)
    ensures
        r == (hand_droppable(runtime_id) && runtime_id != SPRUCE_BUTTON_CEILING_RUNTIME_ID),
{
    is_hand_droppable_placeable_runtime_id(runtime_id) && runtime_id != SPRUCE_BUTTON_CEILING_RUNTIME_ID
}

pub fn is_break_confirmation_runtime_id(runtime_id: u32) -> (r: bool)
    ensures
        r == (runtime_id == OBSERVED_AIR_RUNTIME_ID),
{
    runtime_id == OBSERVED_AIR_RUNTIME_ID
}

pub fn is_place_confirmation_runtime_id(runtime_id: u32) -> (r: bool)
    ensures
        r == (runtime_id != OBSERVED_AIR_RUNTIME_ID),
{
    runtime_id != OBSERVED_AIR_RUNTIME_ID
}

pub fn is_gameplay_marker_runtime(runtime_id: u32) -> (r: bool)
    ensures
        r == (runtime_id == OBSERVED_CHEST_RUNTIME_ID),
{
    runtime_id == OBSERVED_CHEST_RUNTIME_ID
}

/// A block position.
#[derive(Debug, Clone, Copy, PartialEq, Eq)]
pub struct BlockTarget {
    pub x: i32,
    pub y: i32,
    pub z: i32,
}

/// `v - 1`, or `i32::MIN` at the bottom.
pub open spec fn below(v: i32) -> i32 {
    if v == i32::MIN {
        i32::MIN
    } else {
        (v - 1) as i32
    }
}

fn saturating_dec(v: i32) -> (r: i32)
    ensures
        r == below(v),
{
    if v == i32::MIN {
        i32::MIN
    } else {
        v - 1
    }
}

/// The block to break for an UpdateBlock: the block under a chest marker,
/// else the updated block.
pub fn gameplay_break_candidate_for_update(target: BlockTarget, runtime_id: u32) -> (r: BlockTarget)
    ensures
        r == (if runtime_id == OBSERVED_CHEST_RUNTIME_ID {
            BlockTarget { x: target.x, y: below(target.y), z: target.z }
        } else {
            target
        }),
{
    if runtime_id == OBSERVED_CHEST_RUNTIME_ID {
        BlockTarget { x: target.x, y: saturating_dec(target.y), z: target.z }
    } else {
        target
    }
}

/// Where to click to place a block back where one was broken: the block
/// below and its top face, or for a ceiling button the block above and its
/// bottom face. The click position is the bit pattern of three `f32`s.
#[derive(Debug, Clone, Copy, PartialEq, Eq)]
pub struct PlaceGeometry {
    pub base: BlockTarget,
    pub result: BlockTarget,
    pub face: i32,
    pub click_pos: Vec3Bits,
}

/// `0.5f32`, `0.0f32` and `1.0f32` as bit patterns.
pub const F32_HALF_BITS: u32 = 0x3f00_0000;
pub const F32_ZERO_BITS: u32 = 0;
pub const F32_ONE_BITS: u32 = 0x3f80_0000;

pub fn place_geometry_for_break_target(target: BlockTarget, runtime_id: Option<u32>) -> (r: PlaceGeometry)
    requires
        runtime_id == Some(SPRUCE_BUTTON_CEILING_RUNTIME_ID) ==> target.y < i32::MAX,
    ensures
        runtime_id == Some(SPRUCE_BUTTON_CEILING_RUNTIME_ID) ==> r == (PlaceGeometry {
            base: BlockTarget { x: target.x, y: (target.y + 1) as i32, z: target.z },
            result: target,
            face: BLOCK_FACE_DOWN,
            click_pos: Vec3Bits { x: F32_HALF_BITS, y: F32_ZERO_BITS, z: F32_HALF_BITS },
        }),
        runtime_id != Some(SPRUCE_BUTTON_CEILING_RUNTIME_ID) ==> r == (PlaceGeometry {
            base: BlockTarget { x: target.x, y: below(target.y), z: target.z },
            result: target,
            face: BLOCK_FACE_UP,
            click_pos: Vec3Bits { x: F32_HALF_BITS, y: F32_ONE_BITS, z: F32_HALF_BITS },
        }),
{
    if runtime_id == Some(SPRUCE_BUTTON_CEILING_RUNTIME_ID) {
        return PlaceGeometry {
            base: BlockTarget { x: target.x, y: target.y + 1, z: target.z },
            result: target,
            face: BLOCK_FACE_DOWN,
            click_pos: Vec3Bits { x: F32_HALF_BITS, y: F32_ZERO_BITS, z: F32_HALF_BITS },
        };
    }
    PlaceGeometry {
        base: BlockTarget { x: target.x, y: saturating_dec(target.y), z: target.z },
        result: target,
        face: BLOCK_FACE_UP,
        click_pos: Vec3Bits { x: F32_HALF_BITS, y: F32_ONE_BITS, z: F32_HALF_BITS },
    }
}

pub fn break_face_for_runtime_id(runtime_id: Option<u32>) -> (r: i32)
    ensures
        r == (if runtime_id == Some(SPRUCE_BUTTON_CEILING_RUNTIME_ID) {
            BLOCK_FACE_DOWN
        } else {
            BLOCK_FACE_UP
        }),
{
    if runtime_id == Some(SPRUCE_BUTTON_CEILING_RUNTIME_ID) {
        BLOCK_FACE_DOWN
    } else {
        BLOCK_FACE_UP
    }
}

/// Appends a block position as three zigzag varints.
pub fn write_block_pos(target: BlockTarget, out: &mut Vec<u8>)
    ensures
        final(out)@ == old(out)@ + varint_encode(zigzag_encode32(target.x) as nat) + varint_encode(
            zigzag_encode32(target.y) as nat,
        ) + varint_encode(zigzag_encode32(target.z) as nat),
{
    write_zigzag_i32(target.x, out);
    write_zigzag_i32(target.y, out);
    write_zigzag_i32(target.z, out);
}

/// Appends block coordinates: zigzag x, the height clamped at zero as an
/// unsigned varint, zigzag z.
pub fn write_block_coordinates(target: BlockTarget, out: &mut Vec<u8>)
    ensures
        final(out)@ == old(out)@ + varint_encode(zigzag_encode32(target.x) as nat) + varint_encode(
            (if target.y < 0 { 0 } else { target.y }) as nat,
        ) + varint_encode(zigzag_encode32(target.z) as nat),
{
    write_zigzag_i32(target.x, out);
    let y: u32 = if target.y < 0 {
        0
    } else {
        target.y as u32
    };
    write_unsigned_varint_u32(y, out);
    write_zigzag_i32(target.z, out);
}

// ---------------------------------------------------------------------------
// Clicking a menu entry
// ---------------------------------------------------------------------------

/// How a menu click is sent: as its own ItemStackRequest or inside
/// PlayerAuthInput, and which source container encoding it uses.
#[derive(Debug, Clone, Copy, PartialEq, Eq)]
pub enum MenuClickMethod {
    StandaloneObservedTake,
    PlayerAuthInputObservedTake,
    StandaloneObservedConsume,
    PlayerAuthInputObservedConsume,
    StandaloneDynamicTake,
    PlayerAuthInputDynamicTake,
    StandaloneContainerTake,
    PlayerAuthInputContainerTake,
}

#[derive(Debug, Clone, Copy, PartialEq, Eq)]
pub enum MenuClickAction {
    Take,
    Consume,
}

impl MenuClickAction {
    pub fn label(self) -> (r: &'static str)
        ensures
            r == (match self {
                MenuClickAction::Take => "take",
                MenuClickAction::Consume => "consume",
            }),
    {
        match self {
            MenuClickAction::Take => "take",
            MenuClickAction::Consume => "consume",
        }
    }
}

/// The method tried at each click attempt: observed-container consume first,
/// then observed take, dynamic-container take and plain-container take, each
/// standalone before inside PlayerAuthInput.
pub open spec fn method_of_attempt(attempt: u8) -> Option<MenuClickMethod> {
    if attempt == 0 {
        Some(MenuClickMethod::StandaloneObservedConsume)
    } else if attempt == 1 {
        Some(MenuClickMethod::PlayerAuthInputObservedConsume)
    } else if attempt == 2 {
        Some(MenuClickMethod::StandaloneObservedTake)
    } else if attempt == 3 {
        Some(MenuClickMethod::PlayerAuthInputObservedTake)
    } else if attempt == 4 {
        Some(MenuClickMethod::StandaloneDynamicTake)
    } else if attempt == 5 {
        Some(MenuClickMethod::PlayerAuthInputDynamicTake)
    } else if attempt == 6 {
        Some(MenuClickMethod::StandaloneContainerTake)
    } else if attempt == 7 {
        Some(MenuClickMethod::PlayerAuthInputContainerTake)
    } else {
        None
    }
}

/// The source container of a click: the dynamic container (by its id, or
/// the window), the plain container, or the encoding the item was observed with.
pub open spec fn source_of(method: MenuClickMethod, target: MenuClickTarget) -> (u8, Option<u32>) {
    match method {
        MenuClickMethod::PlayerAuthInputDynamicTake | MenuClickMethod::StandaloneDynamicTake => (
            CONTAINER_TYPE_DYNAMIC,
            match target.dynamic_container_id {
                Some(d) => Some(d),
                None => Some(target.window_id),
            },
        ),
        MenuClickMethod::PlayerAuthInputContainerTake | MenuClickMethod::StandaloneContainerTake => (
            CONTAINER_TYPE_CONTAINER,
            None,
        ),
        _ => (target.container_type, target.dynamic_container_id),
    }
}

/// The action of a method: consume for the observed-consume methods, else take.
pub open spec fn action_of(method: MenuClickMethod) -> MenuClickAction {
    match method {
        MenuClickMethod::StandaloneObservedConsume | MenuClickMethod::PlayerAuthInputObservedConsume => MenuClickAction::Consume,
        _ => MenuClickAction::Take,
    }
}

impl MenuClickMethod {
    pub fn from_attempt(attempt: u8) -> (r: Option<Self>)
        ensures
            r == method_of_attempt(attempt),
    {
        match attempt {
            0 => Some(MenuClickMethod::StandaloneObservedConsume),
            1 => Some(MenuClickMethod::PlayerAuthInputObservedConsume),
            2 => Some(MenuClickMethod::StandaloneObservedTake),
            3 => Some(MenuClickMethod::PlayerAuthInputObservedTake),
            4 => Some(MenuClickMethod::StandaloneDynamicTake),
            5 => Some(MenuClickMethod::PlayerAuthInputDynamicTake),
            6 => Some(MenuClickMethod::StandaloneContainerTake),
            7 => Some(MenuClickMethod::PlayerAuthInputContainerTake),
            _ => None,
        }
    }

    pub fn label(self) -> (r: &'static str)
        ensures
            r == (match self {
                MenuClickMethod::StandaloneObservedTake => "standalone_observed_take",
                MenuClickMethod::PlayerAuthInputObservedTake => "player_auth_input_observed_take",
                MenuClickMethod::StandaloneObservedConsume => "standalone_observed_consume",
                MenuClickMethod::PlayerAuthInputObservedConsume => "player_auth_input_observed_consume",
                MenuClickMethod::StandaloneDynamicTake => "standalone_dynamic_take",
                MenuClickMethod::PlayerAuthInputDynamicTake => "player_auth_input_dynamic_take",
                MenuClickMethod::StandaloneContainerTake => "standalone_container_take",
                MenuClickMethod::PlayerAuthInputContainerTake => "player_auth_input_container_take",
            }),
    {
        match self {
            MenuClickMethod::StandaloneObservedTake => "standalone_observed_take",
            MenuClickMethod::PlayerAuthInputObservedTake => "player_auth_input_observed_take",
            MenuClickMethod::StandaloneObservedConsume => "standalone_observed_consume",
            MenuClickMethod::PlayerAuthInputObservedConsume => "player_auth_input_observed_consume",
            MenuClickMethod::StandaloneDynamicTake => "standalone_dynamic_take",
            MenuClickMethod::PlayerAuthInputDynamicTake => "player_auth_input_dynamic_take",
            MenuClickMethod::StandaloneContainerTake => "standalone_container_take",
            MenuClickMethod::PlayerAuthInputContainerTake => "player_auth_input_container_take",
        }
    }

    pub fn uses_player_auth_input(self) -> (r: bool)
        ensures
            r == (self is PlayerAuthInputObservedTake || self is PlayerAuthInputObservedConsume
                || self is PlayerAuthInputDynamicTake || self is PlayerAuthInputContainerTake),
    {
        match self {
            MenuClickMethod::PlayerAuthInputObservedTake => true,
            MenuClickMethod::PlayerAuthInputObservedConsume => true,
            MenuClickMethod::PlayerAuthInputDynamicTake => true,
            MenuClickMethod::PlayerAuthInputContainerTake => true,
            _ => false,
        }
    }

    pub fn source_container(self, target: &MenuClickTarget) -> (r: (u8, Option<u32>))
        ensures
            r == source_of(self, *target),
    {
        match self {
            MenuClickMethod::PlayerAuthInputDynamicTake | MenuClickMethod::StandaloneDynamicTake => (
                CONTAINER_TYPE_DYNAMIC,
                match target.dynamic_container_id {
                    Some(d) => Some(d),
                    None => Some(target.window_id),
                },
            ),
            MenuClickMethod::PlayerAuthInputContainerTake | MenuClickMethod::StandaloneContainerTake => (
                CONTAINER_TYPE_CONTAINER,
                None,
            ),
            _ => (target.container_type, target.dynamic_container_id),
        }
    }

    pub fn action(self) -> (r: MenuClickAction)
        ensures
            r == action_of(self),
    {
        match self {
            MenuClickMethod::StandaloneObservedConsume => MenuClickAction::Consume,
            MenuClickMethod::PlayerAuthInputObservedConsume => MenuClickAction::Consume,
            _ => MenuClickAction::Take,
        }
    }
}

/// A stack request slot: container type, the dynamic container id when
/// there is one (flag byte, then four little-endian bytes), slot, zigzag
/// stack network id.
pub open spec fn slot_info_bytes(container_type: u8, dynamic_container_id: Option<u32>, slot: u8, stack_id: i32) -> Seq<u8> {
    seq![container_type] + match dynamic_container_id {
        Some(d) => seq![1u8] + le_bytes(d as nat, 4),
        None => seq![0u8],
    } + seq![slot] + varint_encode(zigzag_encode32(stack_id) as nat)
}

pub fn write_stack_request_slot_info(
    container_type: u8,
    dynamic_container_id: Option<u32>,
    slot: u8,
    stack_id: i32,
    out: &mut Vec<u8>,
)
    ensures
        final(out)@ == old(out)@ + slot_info_bytes(container_type, dynamic_container_id, slot, stack_id),
{
    out.push(container_type);
    match dynamic_container_id {
        Some(dynamic_id) => {
            out.push(1);
            push_le_u32(out, dynamic_id);
        },
        None => out.push(0),
    }
    out.push(slot);
    write_zigzag_i32(stack_id, out);
    assert(out@ =~= old(out)@ + slot_info_bytes(container_type, dynamic_container_id, slot, stack_id));
}

/// One ItemStackRequest entry: the request id (clamped at zero) as a
/// varint, one action, the action with count one from the source slot (and,
/// for take, to the cursor), no strings to filter, and an unknown text
/// processing origin.
pub open spec fn request_entry_bytes(request_id: i32, target: MenuClickTarget, method: MenuClickMethod) -> Seq<u8> {
    let (source_type, source_dynamic) = source_of(method, target);
    let source = slot_info_bytes(source_type, source_dynamic, (target.slot % 256) as u8, target.stack_id);
    varint_encode((if request_id < 0 { 0 } else { request_id }) as nat) + varint_encode(1) + match action_of(method) {
        MenuClickAction::Take => seq![0u8, 1u8] + source + slot_info_bytes(CONTAINER_TYPE_CURSOR, None, 0, 0),
        MenuClickAction::Consume => seq![5u8, 1u8] + source,
    } + varint_encode(0) + seq![0xffu8, 0xffu8, 0xffu8, 0xffu8]
}

pub fn write_item_stack_request_entry(request_id: i32, target: &MenuClickTarget, method: MenuClickMethod, out: &mut Vec<u8>)
    ensures
        final(out)@ == old(out)@ + request_entry_bytes(request_id, *target, method),
{
    let (source_type, source_dynamic): (u8, Option<u32>) = method.source_container(target);
    let id: u32 = if request_id < 0 {
        0
    } else {
        request_id as u32
    };
    write_unsigned_varint_u32(id, out);
    write_unsigned_varint_u32(1, out);
    let ghost head = out@;
    match method.action() {
        MenuClickAction::Take => {
            out.push(0);
            out.push(1);
            write_stack_request_slot_info(source_type, source_dynamic, (target.slot % 256) as u8, target.stack_id, out);
            write_stack_request_slot_info(CONTAINER_TYPE_CURSOR, None, 0, 0, out);
        },
        MenuClickAction::Consume => {
            out.push(5);
            out.push(1);
            write_stack_request_slot_info(source_type, source_dynamic, (target.slot % 256) as u8, target.stack_id, out);
        },
    }
    write_unsigned_varint_u32(0, out);
    out.push(0xff);
    out.push(0xff);
    out.push(0xff);
    out.push(0xff);
    assert(out@ =~= old(out)@ + request_entry_bytes(request_id, *target, method));
}

/// A batch stream holding one ItemStackRequest packet with one request.
pub fn encode_item_stack_request_packet_stream(request_id: i32, target: &MenuClickTarget, method: MenuClickMethod) -> (stream: Vec<u8>)
    ensures
        stream@ == framed_packet(
            ITEM_STACK_REQUEST_PACKET_ID,
            varint_encode(1) + request_entry_bytes(request_id, *target, method),
        ),
{
    let mut packet: Vec<u8> = Vec::new();
    write_unsigned_varint_u32(ITEM_STACK_REQUEST_PACKET_ID, &mut packet);
    write_unsigned_varint_u32(1, &mut packet);
    write_item_stack_request_entry(request_id, target, method, &mut packet);
    proof {
        let (st, sd) = source_of(method, *target);
        lemma_varint_u32_len(ITEM_STACK_REQUEST_PACKET_ID);
        lemma_varint_u32_len(1);
        lemma_varint_u32_len(0);
        lemma_varint_u32_len((if request_id < 0 { 0 } else { request_id }) as u32);
        lemma_varint_u32_len(zigzag_encode32(target.stack_id));
        lemma_varint_u32_len(zigzag_encode32(0));
        match sd {
            Some(d) => lemma_le_bytes_len(d as nat, 4),
            None => {},
        }
        assert(packet@ =~= varint_encode(ITEM_STACK_REQUEST_PACKET_ID as nat) + (varint_encode(1)
            + request_entry_bytes(request_id, *target, method)));
    }
    let mut stream: Vec<u8> = Vec::new();
    crate::wire::frame_packet(packet.as_slice(), &mut stream);
    stream
}

/// The item id of network item descriptor bytes: their leading zigzag varint.
pub open spec fn descriptor_item_id(bytes: Seq<u8>) -> Option<i32> {
    match var_u32_at(bytes, 0) {
        Some(v) => Some(zigzag_decode32(v)),
        None => None,
    }
}

pub fn network_item_descriptor_id_from_bytes(bytes: &[u8]) -> (r: Option<i32>)
    ensures
        r == descriptor_item_id(bytes@),
{
    let mut offset: usize = 0;
    match read_var_u32(bytes, &mut offset) {
        Some(v) => Some(zigzag_i32(v)),
        None => None,
    }
}

} // verus!
