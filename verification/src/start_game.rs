//! The StartGame packet: its field layout, the policy flags the bot reads
//! from it, and a field-by-field boundary check that names the field where
//! decoding stops.

use vstd::prelude::*;
use crate::inventory::{read_vec3_bits, vec3_bits_at};
use crate::nbt::{nbt_end, skip_trace_nbt, NbtError};
use crate::observe::{le32, var32, var64, zz64, ObservedStartGame, RotationBits};
use crate::varint::{read_var_u32, read_var_u64, zigzag_i64};
use crate::wire::{has_bytes, le_value, read_le_i32, read_le_u32, skip_bytes};

verus! {

/// How one StartGame field is laid out on the wire.
#[derive(Debug, Clone, Copy, PartialEq, Eq)]
pub enum StartGameField {
    /// A 32-bit varint, plain or zigzag.
    VarInt32,
    /// A 64-bit varint, plain or zigzag.
    VarInt64,
    /// A boolean or other single byte.
    Byte,
    /// A fixed run of bytes (floats, little-endian integers, UUIDs).
    Bytes(usize),
    /// A varint-length-prefixed string.
    Str,
    /// Three varints.
    BlockCoordinates,
    /// A varint count of game rules.
    GameRules,
    /// A little-endian `i32` count of experiment toggles.
    Experiments,
    /// Two strings: button name and link.
    EduResourceUri,
    /// A varint count of (name, NBT state) pairs.
    BlockProperties,
    /// One network NBT value.
    Nbt,
}

/// The repeated entries inside the counted StartGame fields.
#[derive(Debug, Clone, Copy, PartialEq, Eq)]
pub enum StartGameItem {
    GameRule,
    Experiment,
    BlockProperty,
}

/// Why a StartGame field could not be decoded.
#[derive(Debug, Clone, Copy, PartialEq, Eq)]
pub enum StartGameError {
    NeedBytes(usize),
    InvalidVarU32,
    InvalidVarU64,
    InvalidStringLength,
    InvalidBlockX,
    InvalidBlockY,
    InvalidBlockZ,
    InvalidGameruleCount,
    UnknownGameruleType(u32),
    NegativeExperimentCount(i32),
    InvalidBlockPropertyCount,
    Nbt(NbtError),
}

/// The field (or sub-field) where decoding stopped, and why.
#[derive(Debug, Clone, Copy, PartialEq, Eq)]
pub struct StartGameFailure {
    pub field: &'static str,
    pub error: StartGameError,
}

/// The gameplay-policy flags the bot takes from StartGame.
#[derive(Debug, Clone, Copy, PartialEq, Eq)]
pub struct StartGamePolicy {
    pub disable_player_interactions: bool,
    pub server_authoritative_block_breaking: bool,
    pub block_network_ids_are_hashes: bool,
    pub block_property_count: u32,
}

/// Number of fields in the StartGame layout.
pub const START_GAME_FIELD_COUNT: usize = 78;

/// Number of leading fields the policy reader needs.
pub const START_GAME_POLICY_FIELD_COUNT: usize = 77;

pub open spec fn fail(field: &'static str, error: StartGameError) -> Result<int, StartGameFailure> {
    Err(StartGameFailure { field, error })
}

/// Attaches a field name to a primitive's outcome.
pub open spec fn named(r: Result<int, StartGameError>, field: &'static str) -> Result<int, StartGameFailure> {
    match r {
        Ok(o) => Ok(o),
        Err(e) => fail(field, e),
    }
}

/// `n` raw bytes at `off`.
pub open spec fn bytes_end(s: Seq<u8>, off: int, n: usize) -> Result<int, StartGameError> {
    if has_bytes(s, off, n as int) {
        Ok(off + n)
    } else {
        Err(StartGameError::NeedBytes(n))
    }
}

/// A 32-bit varint at `off`.
pub open spec fn var32_end(s: Seq<u8>, off: int) -> Result<int, StartGameError> {
    match var32(s, off) {
        Some((_, o)) => Ok(o),
        None => Err(StartGameError::InvalidVarU32),
    }
}

/// A 64-bit varint at `off`.
pub open spec fn var64_end(s: Seq<u8>, off: int) -> Result<int, StartGameError> {
    match var64(s, off) {
        Some((_, o)) => Ok(o),
        None => Err(StartGameError::InvalidVarU64),
    }
}

/// A varint-length-prefixed string at `off`.
pub open spec fn str_end(s: Seq<u8>, off: int) -> Result<int, StartGameError> {
    match var32(s, off) {
        Some((len, o)) => bytes_end(s, o, len as usize),
        None => Err(StartGameError::InvalidStringLength),
    }
}

/// One entry of a counted field.
pub open spec fn item_end(s: Seq<u8>, off: int, item: StartGameItem) -> Result<int, StartGameFailure> {
    match item {
        StartGameItem::GameRule => match named(str_end(s, off), "gamerules.name") {
            Err(f) => Err(f),
            Ok(o1) => match named(bytes_end(s, o1, 1), "gamerules.editable") {
                Err(f) => Err(f),
                Ok(o2) => match var32(s, o2) {
                    None => fail("gamerules.type", StartGameError::InvalidVarU32),
                    Some((rule_type, o3)) => if rule_type == 1 {
                        named(bytes_end(s, o3, 1), "gamerules.value.bool")
                    } else if rule_type == 2 {
                        named(var32_end(s, o3), "gamerules.value.int")
                    } else if rule_type == 3 {
                        named(bytes_end(s, o3, 4), "gamerules.value.float")
                    } else {
                        fail("gamerules.type", StartGameError::UnknownGameruleType(rule_type))
                    },
                },
            },
        },
        StartGameItem::Experiment => match named(str_end(s, off), "experiments.name") {
            Err(f) => Err(f),
            Ok(o) => named(bytes_end(s, o, 1), "experiments.enabled"),
        },
        StartGameItem::BlockProperty => match named(str_end(s, off), "block_properties.name") {
            Err(f) => Err(f),
            Ok(o) => match nbt_end(s, o) {
                Ok(o2) => Ok(o2),
                Err(e) => fail("block_properties.state", StartGameError::Nbt(e)),
            },
        },
    }
}

/// `k` consecutive entries starting at `off`.
pub open spec fn items_end(s: Seq<u8>, off: int, k: nat, item: StartGameItem) -> Result<int, StartGameFailure>
    decreases k,
{
    if k == 0 {
        Ok(off)
    } else {
        match items_end(s, off, (k - 1) as nat, item) {
            Ok(o) => item_end(s, o, item),
            Err(f) => Err(f),
        }
    }
}

/// The experiment count as the signed integer the wire carries.
pub open spec fn experiment_count(s: Seq<u8>, off: int) -> i32 {
    (le_value(s, off, 4) as u32) as i32
}

/// One field of kind `kind`, reported under `field` when it fails.
pub open spec fn field_end(s: Seq<u8>, off: int, kind: StartGameField, field: &'static str) -> Result<int, StartGameFailure> {
    match kind {
        StartGameField::VarInt32 => named(var32_end(s, off), field),
        StartGameField::VarInt64 => named(var64_end(s, off), field),
        StartGameField::Byte => named(bytes_end(s, off, 1), field),
        StartGameField::Bytes(n) => named(bytes_end(s, off, n), field),
        StartGameField::Str => named(str_end(s, off), field),
        StartGameField::BlockCoordinates => match var32(s, off) {
            None => fail(field, StartGameError::InvalidBlockX),
            Some((_, o1)) => match var32(s, o1) {
                None => fail(field, StartGameError::InvalidBlockY),
                Some((_, o2)) => match var32(s, o2) {
                    None => fail(field, StartGameError::InvalidBlockZ),
                    Some((_, o3)) => Ok(o3),
                },
            },
        },
        StartGameField::GameRules => match var32(s, off) {
            None => fail(field, StartGameError::InvalidGameruleCount),
            Some((count, o)) => items_end(s, o, count as nat, StartGameItem::GameRule),
        },
        StartGameField::Experiments => if !has_bytes(s, off, 4) {
            fail("experiments.count", StartGameError::NeedBytes(4))
        } else if experiment_count(s, off) < 0 {
            fail("experiments.count", StartGameError::NegativeExperimentCount(experiment_count(s, off)))
        } else {
            items_end(s, off + 4, experiment_count(s, off) as nat, StartGameItem::Experiment)
        },
        StartGameField::EduResourceUri => match named(str_end(s, off), "edu_resource_uri.button_name") {
            Err(f) => Err(f),
            Ok(o) => named(str_end(s, o), "edu_resource_uri.link_uri"),
        },
        StartGameField::BlockProperties => match var32(s, off) {
            None => fail(field, StartGameError::InvalidBlockPropertyCount),
            Some((count, o)) => items_end(s, o, count as nat, StartGameItem::BlockProperty),
        },
        StartGameField::Nbt => match nbt_end(s, off) {
            Ok(o) => Ok(o),
            Err(e) => fail(field, StartGameError::Nbt(e)),
        },
    }
}

/// The StartGame layout: field `i`'s kind and name, in wire order.
pub open spec fn start_game_layout(i: usize) -> (StartGameField, &'static str) {
    match i {
        0 => (StartGameField::VarInt64, "entity_id"),
        1 => (StartGameField::VarInt64, "runtime_entity_id"),
        2 => (StartGameField::VarInt32, "player_gamemode"),
        3 => (StartGameField::Bytes(12), "player_position"),
        4 => (StartGameField::Bytes(8), "rotation"),
        5 => (StartGameField::Bytes(8), "seed"),
        6 => (StartGameField::Bytes(2), "biome_type"),
        7 => (StartGameField::Str, "biome_name"),
        8 => (StartGameField::VarInt32, "dimension"),
        9 => (StartGameField::VarInt32, "generator"),
        10 => (StartGameField::VarInt32, "world_gamemode"),
        11 => (StartGameField::Byte, "hardcore"),
        12 => (StartGameField::VarInt32, "difficulty"),
        13 => (StartGameField::BlockCoordinates, "spawn_position"),
        14 => (StartGameField::Byte, "achievements_disabled"),
        15 => (StartGameField::VarInt32, "editor_world_type"),
        16 => (StartGameField::Byte, "created_in_editor"),
        17 => (StartGameField::Byte, "exported_from_editor"),
        18 => (StartGameField::VarInt32, "day_cycle_stop_time"),
        19 => (StartGameField::VarInt32, "edu_offer"),
        20 => (StartGameField::Byte, "edu_features_enabled"),
        21 => (StartGameField::Str, "edu_product_uuid"),
        22 => (StartGameField::Bytes(4), "rain_level"),
        23 => (StartGameField::Bytes(4), "lightning_level"),
        24 => (StartGameField::Byte, "has_confirmed_platform_locked_content"),
        25 => (StartGameField::Byte, "is_multiplayer"),
        26 => (StartGameField::Byte, "broadcast_to_lan"),
        27 => (StartGameField::VarInt32, "xbox_live_broadcast_mode"),
        28 => (StartGameField::VarInt32, "platform_broadcast_mode"),
        29 => (StartGameField::Byte, "enable_commands"),
        30 => (StartGameField::Byte, "is_texturepacks_required"),
        31 => (StartGameField::GameRules, "gamerules"),
        32 => (StartGameField::Experiments, "experiments"),
        33 => (StartGameField::Byte, "experiments_previously_used"),
        34 => (StartGameField::Byte, "bonus_chest"),
        35 => (StartGameField::Byte, "map_enabled"),
        36 => (StartGameField::VarInt32, "permission_level"),
        37 => (StartGameField::Bytes(4), "server_chunk_tick_range"),
        38 => (StartGameField::Byte, "has_locked_behavior_pack"),
        39 => (StartGameField::Byte, "has_locked_resource_pack"),
        40 => (StartGameField::Byte, "is_from_locked_world_template"),
        41 => (StartGameField::Byte, "msa_gamertags_only"),
        42 => (StartGameField::Byte, "is_from_world_template"),
        43 => (StartGameField::Byte, "is_world_template_option_locked"),
        44 => (StartGameField::Byte, "only_spawn_v1_villagers"),
        45 => (StartGameField::Byte, "persona_disabled"),
        46 => (StartGameField::Byte, "custom_skins_disabled"),
        47 => (StartGameField::Byte, "emote_chat_muted"),
        48 => (StartGameField::Str, "game_version"),
        49 => (StartGameField::Bytes(4), "limited_world_width"),
        50 => (StartGameField::Bytes(4), "limited_world_length"),
        51 => (StartGameField::Byte, "is_new_nether"),
        52 => (StartGameField::EduResourceUri, "edu_resource_uri"),
        53 => (StartGameField::Byte, "experimental_gameplay_override"),
        54 => (StartGameField::Byte, "chat_restriction_level"),
        55 => (StartGameField::Byte, "disable_player_interactions"),
        56 => (StartGameField::Str, "server_identifier"),
        57 => (StartGameField::Str, "world_identifier"),
        58 => (StartGameField::Str, "scenario_identifier"),
        59 => (StartGameField::Str, "owner_identifier"),
        60 => (StartGameField::Str, "level_id"),
        61 => (StartGameField::Str, "world_name"),
        62 => (StartGameField::Str, "premium_world_template_id"),
        63 => (StartGameField::Byte, "is_trial"),
        64 => (StartGameField::VarInt32, "rewind_history_size"),
        65 => (StartGameField::Byte, "server_authoritative_block_breaking"),
        66 => (StartGameField::Bytes(8), "current_tick"),
        67 => (StartGameField::VarInt32, "enchantment_seed"),
        68 => (StartGameField::BlockProperties, "block_properties"),
        69 => (StartGameField::Str, "multiplayer_correlation_id"),
        70 => (StartGameField::Byte, "server_authoritative_inventory"),
        71 => (StartGameField::Str, "engine"),
        72 => (StartGameField::Nbt, "property_data"),
        73 => (StartGameField::Bytes(8), "block_pallette_checksum"),
        74 => (StartGameField::Bytes(16), "world_template_id"),
        75 => (StartGameField::Byte, "client_side_generation"),
        76 => (StartGameField::Byte, "block_network_ids_are_hashes"),
        _ => (StartGameField::Byte, "server_controlled_sound"),
    }
}

/// Field `i` of the StartGame layout.
pub fn start_game_field(i: usize) -> (r: (StartGameField, &'static str))
    ensures
        r == start_game_layout(i),
{
    match i {
        0 => (StartGameField::VarInt64, "entity_id"),
        1 => (StartGameField::VarInt64, "runtime_entity_id"),
        2 => (StartGameField::VarInt32, "player_gamemode"),
        3 => (StartGameField::Bytes(12), "player_position"),
        4 => (StartGameField::Bytes(8), "rotation"),
        5 => (StartGameField::Bytes(8), "seed"),
        6 => (StartGameField::Bytes(2), "biome_type"),
        7 => (StartGameField::Str, "biome_name"),
        8 => (StartGameField::VarInt32, "dimension"),
        9 => (StartGameField::VarInt32, "generator"),
        10 => (StartGameField::VarInt32, "world_gamemode"),
        11 => (StartGameField::Byte, "hardcore"),
        12 => (StartGameField::VarInt32, "difficulty"),
        13 => (StartGameField::BlockCoordinates, "spawn_position"),
        14 => (StartGameField::Byte, "achievements_disabled"),
        15 => (StartGameField::VarInt32, "editor_world_type"),
        16 => (StartGameField::Byte, "created_in_editor"),
        17 => (StartGameField::Byte, "exported_from_editor"),
        18 => (StartGameField::VarInt32, "day_cycle_stop_time"),
        19 => (StartGameField::VarInt32, "edu_offer"),
        20 => (StartGameField::Byte, "edu_features_enabled"),
        21 => (StartGameField::Str, "edu_product_uuid"),
        22 => (StartGameField::Bytes(4), "rain_level"),
        23 => (StartGameField::Bytes(4), "lightning_level"),
        24 => (StartGameField::Byte, "has_confirmed_platform_locked_content"),
        25 => (StartGameField::Byte, "is_multiplayer"),
        26 => (StartGameField::Byte, "broadcast_to_lan"),
        27 => (StartGameField::VarInt32, "xbox_live_broadcast_mode"),
        28 => (StartGameField::VarInt32, "platform_broadcast_mode"),
        29 => (StartGameField::Byte, "enable_commands"),
        30 => (StartGameField::Byte, "is_texturepacks_required"),
        31 => (StartGameField::GameRules, "gamerules"),
        32 => (StartGameField::Experiments, "experiments"),
        33 => (StartGameField::Byte, "experiments_previously_used"),
        34 => (StartGameField::Byte, "bonus_chest"),
        35 => (StartGameField::Byte, "map_enabled"),
        36 => (StartGameField::VarInt32, "permission_level"),
        37 => (StartGameField::Bytes(4), "server_chunk_tick_range"),
        38 => (StartGameField::Byte, "has_locked_behavior_pack"),
        39 => (StartGameField::Byte, "has_locked_resource_pack"),
        40 => (StartGameField::Byte, "is_from_locked_world_template"),
        41 => (StartGameField::Byte, "msa_gamertags_only"),
        42 => (StartGameField::Byte, "is_from_world_template"),
        43 => (StartGameField::Byte, "is_world_template_option_locked"),
        44 => (StartGameField::Byte, "only_spawn_v1_villagers"),
        45 => (StartGameField::Byte, "persona_disabled"),
        46 => (StartGameField::Byte, "custom_skins_disabled"),
        47 => (StartGameField::Byte, "emote_chat_muted"),
        48 => (StartGameField::Str, "game_version"),
        49 => (StartGameField::Bytes(4), "limited_world_width"),
        50 => (StartGameField::Bytes(4), "limited_world_length"),
        51 => (StartGameField::Byte, "is_new_nether"),
        52 => (StartGameField::EduResourceUri, "edu_resource_uri"),
        53 => (StartGameField::Byte, "experimental_gameplay_override"),
        54 => (StartGameField::Byte, "chat_restriction_level"),
        55 => (StartGameField::Byte, "disable_player_interactions"),
        56 => (StartGameField::Str, "server_identifier"),
        57 => (StartGameField::Str, "world_identifier"),
        58 => (StartGameField::Str, "scenario_identifier"),
        59 => (StartGameField::Str, "owner_identifier"),
        60 => (StartGameField::Str, "level_id"),
        61 => (StartGameField::Str, "world_name"),
        62 => (StartGameField::Str, "premium_world_template_id"),
        63 => (StartGameField::Byte, "is_trial"),
        64 => (StartGameField::VarInt32, "rewind_history_size"),
        65 => (StartGameField::Byte, "server_authoritative_block_breaking"),
        66 => (StartGameField::Bytes(8), "current_tick"),
        67 => (StartGameField::VarInt32, "enchantment_seed"),
        68 => (StartGameField::BlockProperties, "block_properties"),
        69 => (StartGameField::Str, "multiplayer_correlation_id"),
        70 => (StartGameField::Byte, "server_authoritative_inventory"),
        71 => (StartGameField::Str, "engine"),
        72 => (StartGameField::Nbt, "property_data"),
        73 => (StartGameField::Bytes(8), "block_pallette_checksum"),
        74 => (StartGameField::Bytes(16), "world_template_id"),
        75 => (StartGameField::Byte, "client_side_generation"),
        76 => (StartGameField::Byte, "block_network_ids_are_hashes"),
        _ => (StartGameField::Byte, "server_controlled_sound"),
    }
}

/// The outcome of a skipping step, against its specification.
pub open spec fn steps_to(r: Result<(), StartGameFailure>, new_offset: int, spec: Result<int, StartGameFailure>) -> bool {
    match spec {
        Ok(o) => r is Ok && new_offset == o,
        Err(f) => r == Err::<(), StartGameFailure>(f),
    }
}

fn failure(field: &'static str, error: StartGameError) -> (r: Result<(), StartGameFailure>)
    ensures
        r == Err::<(), StartGameFailure>(StartGameFailure { field, error }),
{
    Err(StartGameFailure { field, error })
}

fn skip_named_bytes(packet: &[u8], offset: &mut usize, len: usize, field: &'static str) -> (r: Result<(), StartGameFailure>)
    ensures
        steps_to(r, *final(offset) as int, named(bytes_end(packet@, *old(offset) as int, len), field)),
{
    if skip_bytes(packet, offset, len) {
        Ok(())
    } else {
        failure(field, StartGameError::NeedBytes(len))
    }
}

fn skip_named_var32(packet: &[u8], offset: &mut usize, field: &'static str) -> (r: Result<(), StartGameFailure>)
    ensures
        steps_to(r, *final(offset) as int, named(var32_end(packet@, *old(offset) as int), field)),
{
    match read_var_u32(packet, offset) {
        Some(_) => Ok(()),
        None => failure(field, StartGameError::InvalidVarU32),
    }
}

fn skip_named_var64(packet: &[u8], offset: &mut usize, field: &'static str) -> (r: Result<(), StartGameFailure>)
    ensures
        steps_to(r, *final(offset) as int, named(var64_end(packet@, *old(offset) as int), field)),
{
    match read_var_u64(packet, offset) {
        Some(_) => Ok(()),
        None => failure(field, StartGameError::InvalidVarU64),
    }
}

fn skip_named_string(packet: &[u8], offset: &mut usize, field: &'static str) -> (r: Result<(), StartGameFailure>)
    ensures
        steps_to(r, *final(offset) as int, named(str_end(packet@, *old(offset) as int), field)),
{
    match read_var_u32(packet, offset) {
        Some(len) => skip_named_bytes(packet, offset, len as usize, field),
        None => failure(field, StartGameError::InvalidStringLength),
    }
}

fn skip_named_nbt(packet: &[u8], offset: &mut usize, field: &'static str) -> (r: Result<(), StartGameFailure>)
    ensures
        steps_to(
            r,
            *final(offset) as int,
            match nbt_end(packet@, *old(offset) as int) {
                Ok(o) => Ok(o),
                Err(e) => fail(field, StartGameError::Nbt(e)),
            },
        ),
{
    match skip_trace_nbt(packet, offset) {
        Ok(()) => Ok(()),
        Err(e) => failure(field, StartGameError::Nbt(e)),
    }
}

fn skip_item(packet: &[u8], offset: &mut usize, item: StartGameItem) -> (r: Result<(), StartGameFailure>)
    ensures
        steps_to(r, *final(offset) as int, item_end(packet@, *old(offset) as int, item)),
{
    match item {
        StartGameItem::GameRule => {
            match skip_named_string(packet, offset, "gamerules.name") {
                Ok(()) => {},
                Err(f) => return Err(f),
            }
            match skip_named_bytes(packet, offset, 1, "gamerules.editable") {
                Ok(()) => {},
                Err(f) => return Err(f),
            }
            let rule_type: u32 = match read_var_u32(packet, offset) {
                Some(t) => t,
                None => return failure("gamerules.type", StartGameError::InvalidVarU32),
            };
            if rule_type == 1 {
                skip_named_bytes(packet, offset, 1, "gamerules.value.bool")
            } else if rule_type == 2 {
                skip_named_var32(packet, offset, "gamerules.value.int")
            } else if rule_type == 3 {
                skip_named_bytes(packet, offset, 4, "gamerules.value.float")
            } else {
                failure("gamerules.type", StartGameError::UnknownGameruleType(rule_type))
            }
        },
        StartGameItem::Experiment => {
            match skip_named_string(packet, offset, "experiments.name") {
                Ok(()) => {},
                Err(f) => return Err(f),
            }
            skip_named_bytes(packet, offset, 1, "experiments.enabled")
        },
        StartGameItem::BlockProperty => {
            match skip_named_string(packet, offset, "block_properties.name") {
                Ok(()) => {},
                Err(f) => return Err(f),
            }
            skip_named_nbt(packet, offset, "block_properties.state")
        },
    }
}

/// Once a run of entries fails, every longer run fails the same way.
pub proof fn lemma_items_error_sticks(s: Seq<u8>, off: int, i: nat, j: nat, item: StartGameItem)
    requires
        items_end(s, off, i, item) is Err,
        i <= j,
    ensures
        items_end(s, off, j, item) == items_end(s, off, i, item),
    decreases j - i,
{
    if i < j {
        lemma_items_error_sticks(s, off, i, (j - 1) as nat, item);
    }
}

fn skip_items(packet: &[u8], offset: &mut usize, count: u32, item: StartGameItem) -> (r: Result<(), StartGameFailure>)
    ensures
        steps_to(r, *final(offset) as int, items_end(packet@, *old(offset) as int, count as nat, item)),
{
    let ghost start: int = *offset as int;
    let mut k: u32 = 0;
    while k < count
        invariant
            start == *old(offset) as int,
            k <= count,
            items_end(packet@, start, k as nat, item) == Ok::<int, StartGameFailure>(*offset as int),
        decreases count - k,
    {
        match skip_item(packet, offset, item) {
            Ok(()) => {},
            Err(f) => {
                proof {
                    lemma_items_error_sticks(packet@, start, (k + 1) as nat, count as nat, item);
                }
                return Err(f);
            },
        }
        k = k + 1;
    }
    Ok(())
}

/// Skips one StartGame field of the given kind.
pub fn skip_start_game_field(packet: &[u8], offset: &mut usize, kind: StartGameField, field: &'static str) -> (r: Result<(), StartGameFailure>)
    ensures
        steps_to(r, *final(offset) as int, field_end(packet@, *old(offset) as int, kind, field)),
{
    match kind {
        StartGameField::VarInt32 => skip_named_var32(packet, offset, field),
        StartGameField::VarInt64 => skip_named_var64(packet, offset, field),
        StartGameField::Byte => skip_named_bytes(packet, offset, 1, field),
        StartGameField::Bytes(n) => skip_named_bytes(packet, offset, n, field),
        StartGameField::Str => skip_named_string(packet, offset, field),
        StartGameField::BlockCoordinates => {
            if read_var_u32(packet, offset).is_none() {
                return failure(field, StartGameError::InvalidBlockX);
            }
            if read_var_u32(packet, offset).is_none() {
                return failure(field, StartGameError::InvalidBlockY);
            }
            if read_var_u32(packet, offset).is_none() {
                return failure(field, StartGameError::InvalidBlockZ);
            }
            Ok(())
        },
        StartGameField::GameRules => match read_var_u32(packet, offset) {
            Some(count) => skip_items(packet, offset, count, StartGameItem::GameRule),
            None => failure(field, StartGameError::InvalidGameruleCount),
        },
        StartGameField::Experiments => {
            let count: i32 = match read_le_i32(packet, offset) {
                Some(c) => c,
                None => return failure("experiments.count", StartGameError::NeedBytes(4)),
            };
            if count < 0 {
                return failure("experiments.count", StartGameError::NegativeExperimentCount(count));
            }
            skip_items(packet, offset, count as u32, StartGameItem::Experiment)
        },
        StartGameField::EduResourceUri => {
            match skip_named_string(packet, offset, "edu_resource_uri.button_name") {
                Ok(()) => {},
                Err(f) => return Err(f),
            }
            skip_named_string(packet, offset, "edu_resource_uri.link_uri")
        },
        StartGameField::BlockProperties => match read_var_u32(packet, offset) {
            Some(count) => skip_items(packet, offset, count, StartGameItem::BlockProperty),
            None => failure(field, StartGameError::InvalidBlockPropertyCount),
        },
        StartGameField::Nbt => skip_named_nbt(packet, offset, field),
    }
}

/// The offset after the first `n` fields of the layout, or the first failure.
pub open spec fn fields_end(s: Seq<u8>, off: int, n: nat) -> Result<int, StartGameFailure>
    decreases n,
{
    if n == 0 {
        Ok(off)
    } else {
        match fields_end(s, off, (n - 1) as nat) {
            Ok(o) => field_end(s, o, start_game_layout((n - 1) as usize).0, start_game_layout((n - 1) as usize).1),
            Err(f) => Err(f),
        }
    }
}

/// Once a prefix of the layout fails, every longer prefix fails the same way.
pub proof fn lemma_fields_error_sticks(s: Seq<u8>, off: int, i: nat, j: nat)
    requires
        fields_end(s, off, i) is Err,
        i <= j,
    ensures
        fields_end(s, off, j) == fields_end(s, off, i),
    decreases j - i,
{
    if i < j {
        lemma_fields_error_sticks(s, off, i, (j - 1) as nat);
    }
}

/// Where field `i` starts, once the fields before it decoded.
pub open spec fn field_start(s: Seq<u8>, off: int, i: nat) -> int {
    match fields_end(s, off, i) {
        Ok(o) => o,
        Err(_) => off,
    }
}

/// The policy flags, present when the leading fields all decode.
pub open spec fn start_game_policy_at(s: Seq<u8>, off: int) -> Option<StartGamePolicy> {
    if fields_end(s, off, START_GAME_POLICY_FIELD_COUNT as nat) is Ok {
        Some(StartGamePolicy {
            disable_player_interactions: s[field_start(s, off, 55)] != 0,
            server_authoritative_block_breaking: s[field_start(s, off, 65)] != 0,
            block_network_ids_are_hashes: s[field_start(s, off, 76)] != 0,
            block_property_count: var32(s, field_start(s, off, 68)).unwrap().0,
        })
    } else {
        None
    }
}

/// Reads the gameplay-policy flags of a StartGame payload starting at
/// `payload_offset`; `None` when a field before the last flag is malformed.
pub fn read_start_game_policy_observation(packet: &[u8], payload_offset: usize) -> (r: Option<StartGamePolicy>)
    ensures
        r == start_game_policy_at(packet@, payload_offset as int),
{
    let mut offset: usize = payload_offset;
    let mut disable_player_interactions = false;
    let mut server_authoritative_block_breaking = false;
    let mut block_network_ids_are_hashes = false;
    let mut block_property_count: u32 = 0;
    let mut i: usize = 0;
    while i < START_GAME_POLICY_FIELD_COUNT
        invariant
            i <= START_GAME_POLICY_FIELD_COUNT,
            fields_end(packet@, payload_offset as int, i as nat) == Ok::<int, StartGameFailure>(offset as int),
            i > 55 ==> disable_player_interactions == (packet@[field_start(packet@, payload_offset as int, 55)] != 0),
            i > 65 ==> server_authoritative_block_breaking == (packet@[field_start(packet@, payload_offset as int, 65)] != 0),
            i > 68 ==> block_property_count == var32(packet@, field_start(packet@, payload_offset as int, 68)).unwrap().0,
            i > 76 ==> block_network_ids_are_hashes == (packet@[field_start(packet@, payload_offset as int, 76)] != 0),
        decreases START_GAME_POLICY_FIELD_COUNT - i,
    {
        let before: usize = offset;
        let (kind, field) = start_game_field(i);
        match skip_start_game_field(packet, &mut offset, kind, field) {
            Ok(()) => {},
            Err(_) => {
                proof {
                    lemma_fields_error_sticks(packet@, payload_offset as int, (i + 1) as nat, START_GAME_POLICY_FIELD_COUNT as nat);
                }
                return None;
            },
        }
        if i == 55 {
            disable_player_interactions = packet[before] != 0;
        } else if i == 65 {
            server_authoritative_block_breaking = packet[before] != 0;
        } else if i == 76 {
            block_network_ids_are_hashes = packet[before] != 0;
        } else if i == 68 {
            let mut cursor: usize = before;
            block_property_count = match read_var_u32(packet, &mut cursor) {
                Some(count) => count,
                None => 0,
            };
        }
        i = i + 1;
    }
    Some(StartGamePolicy {
        disable_player_interactions,
        server_authoritative_block_breaking,
        block_network_ids_are_hashes,
        block_property_count,
    })
}

/// Checks every StartGame field in order from `payload_offset`: the offset
/// after the last field, or the field where decoding stopped and why.
pub fn trace_start_game_packet(packet: &[u8], payload_offset: usize) -> (r: Result<usize, StartGameFailure>)
    ensures
        match fields_end(packet@, payload_offset as int, START_GAME_FIELD_COUNT as nat) {
            Ok(o) => r == Ok::<usize, StartGameFailure>(o as usize),
            Err(f) => r == Err::<usize, StartGameFailure>(f),
        },
{
    let mut offset: usize = payload_offset;
    let mut i: usize = 0;
    while i < START_GAME_FIELD_COUNT
        invariant
            i <= START_GAME_FIELD_COUNT,
            fields_end(packet@, payload_offset as int, i as nat) == Ok::<int, StartGameFailure>(offset as int),
        decreases START_GAME_FIELD_COUNT - i,
    {
        let (kind, field) = start_game_field(i);
        match skip_start_game_field(packet, &mut offset, kind, field) {
            Ok(()) => {},
            Err(f) => {
                proof {
                    lemma_fields_error_sticks(packet@, payload_offset as int, (i + 1) as nat, START_GAME_FIELD_COUNT as nat);
                }
                return Err(f);
            },
        }
        i = i + 1;
    }
    Ok(offset)
}

/// Two little-endian 32-bit words at `off` (an `f32` pair's bits).
pub open spec fn rotation_bits_at(s: Seq<u8>, off: int) -> Option<(RotationBits, int)> {
    match le32(s, off) {
        None => None,
        Some((pitch, o1)) => match le32(s, o1) {
            None => None,
            Some((yaw, o2)) => Some((RotationBits { pitch, yaw }, o2)),
        },
    }
}

/// A StartGame observation: entity ids, position and rotation, with the
/// policy flags when the rest of the payload decodes that far.
pub open spec fn start_game_at(s: Seq<u8>, off: int) -> Option<ObservedStartGame> {
    match zz64(s, off) {
        None => None,
        Some((entity_id, o1)) => match var64(s, o1) {
            None => None,
            Some((runtime_id, o2)) => match var32(s, o2) {
                None => None,
                Some((_, o3)) => match vec3_bits_at(s, o3) {
                    None => None,
                    Some((position, o4)) => match rotation_bits_at(s, o4) {
                        None => None,
                        Some((rotation, _)) => {
                            let policy = start_game_policy_at(s, off);
                            Some(ObservedStartGame {
                                entity_id,
                                runtime_id,
                                position,
                                rotation,
                                disable_player_interactions: match policy {
                                    Some(p) => Some(p.disable_player_interactions),
                                    None => None,
                                },
                                server_authoritative_block_breaking: match policy {
                                    Some(p) => Some(p.server_authoritative_block_breaking),
                                    None => None,
                                },
                                block_network_ids_are_hashes: match policy {
                                    Some(p) => Some(p.block_network_ids_are_hashes),
                                    None => None,
                                },
                                block_property_count: match policy {
                                    Some(p) => Some(p.block_property_count),
                                    None => None,
                                },
                            })
                        },
                    },
                },
            },
        },
    }
}

/// Reads the StartGame observation of a payload starting at `payload_offset`.
pub fn read_start_game_observation(packet: &[u8], payload_offset: usize) -> (r: Option<ObservedStartGame>)
    ensures
        r == start_game_at(packet@, payload_offset as int),
{
    let mut offset: usize = payload_offset;
    let entity_id: i64 = match read_var_u64(packet, &mut offset) {
        Some(v) => zigzag_i64(v),
        None => return None,
    };
    let runtime_id: u64 = match read_var_u64(packet, &mut offset) {
        Some(v) => v,
        None => return None,
    };
    if read_var_u32(packet, &mut offset).is_none() {
        return None;
    }
    let position = match read_vec3_bits(packet, &mut offset) {
        Some(v) => v,
        None => return None,
    };
    let pitch: u32 = match read_le_u32(packet, &mut offset) {
        Some(v) => v,
        None => return None,
    };
    let yaw: u32 = match read_le_u32(packet, &mut offset) {
        Some(v) => v,
        None => return None,
    };
    let policy = read_start_game_policy_observation(packet, payload_offset);
    Some(ObservedStartGame {
        entity_id,
        runtime_id,
        position,
        rotation: RotationBits { pitch, yaw },
        disable_player_interactions: match policy {
            Some(p) => Some(p.disable_player_interactions),
            None => None,
        },
        server_authoritative_block_breaking: match policy {
            Some(p) => Some(p.server_authoritative_block_breaking),
            None => None,
        },
        block_network_ids_are_hashes: match policy {
            Some(p) => Some(p.block_network_ids_are_hashes),
            None => None,
        },
        block_property_count: match policy {
            Some(p) => Some(p.block_property_count),
            None => None,
        },
    })
}

} // verus!
