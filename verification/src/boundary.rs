//! Boundary checks for the packets this client knows the layout of: each
//! walks a payload field by field and gives the offset where it ends, or the
//! field that does not decode.

use vstd::prelude::*;
use crate::names::{implemented_name, implemented_packet_name};
use crate::nbt::{nbt_end, skip_trace_nbt};
use crate::observe::{var32, var64};
use crate::soft_enum::{soft_enum_at, TorchFlowerUpdateSoftEnumPacket};
use crate::varint::{read_var_u32, read_var_u64};
use crate::wire::{has_bytes, le_value, read_le_i32, read_u8, skip_trace_block_coordinates, skip_trace_bytes, skip_trace_string, trace_bytes_end, trace_coordinates_end, trace_string_end, PacketSummary, TraceError};

verus! {

/// The outcome of a boundary step, against its specification.
pub open spec fn traced_to(r: Result<(), TraceError>, new_offset: int, spec: Result<int, TraceError>) -> bool {
    match spec {
        Ok(o) => r is Ok && new_offset == o,
        Err(e) => r == Err::<(), TraceError>(e),
    }
}

/// A 32-bit varint at `off`, reported as `what` when malformed.
pub open spec fn trace_var32_end(s: Seq<u8>, off: int, what: &'static str) -> Result<int, TraceError> {
    match var32(s, off) {
        Some((_, o)) => Ok(o),
        None => Err(TraceError::Invalid(what)),
    }
}

/// A 64-bit varint at `off`, reported as `what` when malformed.
pub open spec fn trace_var64_end(s: Seq<u8>, off: int, what: &'static str) -> Result<int, TraceError> {
    match var64(s, off) {
        Some((_, o)) => Ok(o),
        None => Err(TraceError::Invalid(what)),
    }
}

pub open spec fn then_var32(s: Seq<u8>, r: Result<int, TraceError>, what: &'static str) -> Result<int, TraceError> {
    match r {
        Ok(o) => trace_var32_end(s, o, what),
        Err(e) => Err(e),
    }
}

pub open spec fn then_var64(s: Seq<u8>, r: Result<int, TraceError>, what: &'static str) -> Result<int, TraceError> {
    match r {
        Ok(o) => trace_var64_end(s, o, what),
        Err(e) => Err(e),
    }
}

pub open spec fn then_bytes(s: Seq<u8>, r: Result<int, TraceError>, n: usize) -> Result<int, TraceError> {
    match r {
        Ok(o) => trace_bytes_end(s, o, n),
        Err(e) => Err(e),
    }
}

pub open spec fn then_string(s: Seq<u8>, r: Result<int, TraceError>) -> Result<int, TraceError> {
    match r {
        Ok(o) => trace_string_end(s, o),
        Err(e) => Err(e),
    }
}

pub open spec fn then_coordinates(s: Seq<u8>, r: Result<int, TraceError>) -> Result<int, TraceError> {
    match r {
        Ok(o) => trace_coordinates_end(s, o),
        Err(e) => Err(e),
    }
}

fn skip_var32(packet: &[u8], offset: &mut usize, what: &'static str) -> (r: Result<(), TraceError>)
    ensures
        traced_to(r, *final(offset) as int, trace_var32_end(packet@, *old(offset) as int, what)),
{
    match read_var_u32(packet, offset) {
        Some(_) => Ok(()),
        None => Err(TraceError::Invalid(what)),
    }
}

fn skip_var64(packet: &[u8], offset: &mut usize, what: &'static str) -> (r: Result<(), TraceError>)
    ensures
        traced_to(r, *final(offset) as int, trace_var64_end(packet@, *old(offset) as int, what)),
{
    match read_var_u64(packet, offset) {
        Some(_) => Ok(()),
        None => Err(TraceError::Invalid(what)),
    }
}

fn skip_exact(packet: &[u8], offset: &mut usize, len: usize) -> (r: Result<(), TraceError>)
    ensures
        traced_to(r, *final(offset) as int, trace_bytes_end(packet@, *old(offset) as int, len)),
{
    skip_trace_bytes(packet, offset, len)
}

fn skip_string(packet: &[u8], offset: &mut usize) -> (r: Result<(), TraceError>)
    ensures
        traced_to(r, *final(offset) as int, trace_string_end(packet@, *old(offset) as int)),
{
    skip_trace_string(packet, offset)
}

fn skip_coordinates(packet: &[u8], offset: &mut usize) -> (r: Result<(), TraceError>)
    ensures
        traced_to(r, *final(offset) as int, trace_coordinates_end(packet@, *old(offset) as int)),
{
    skip_trace_block_coordinates(packet, offset)
}

/// The repeated entries of the counted packets.
#[derive(Debug, Clone, Copy, PartialEq, Eq)]
pub enum TraceItem {
    GameRule,
    /// A scoreboard entry of a SetScore packet with the given action.
    ScoreEntry(u8),
    AbilityLayer,
    Recipe,
    HudElement,
}

/// One entry at `off`.
pub open spec fn trace_item_end(s: Seq<u8>, off: int, item: TraceItem) -> Result<int, TraceError> {
    match item {
        TraceItem::GameRule => {
            let o = trace_string_end(s, off);
            let o = then_bytes(s, o, 1);
            match o {
                Err(e) => Err(e),
                Ok(o1) => match var32(s, o1) {
                    None => Err(TraceError::Invalid("invalid gamerule type")),
                    Some((rule_type, o2)) => if rule_type == 1 {
                        trace_bytes_end(s, o2, 1)
                    } else if rule_type == 2 || rule_type == 3 {
                        trace_bytes_end(s, o2, 4)
                    } else {
                        Err(TraceError::Unknown("unknown gamerule type", rule_type as u64))
                    },
                },
            }
        },
        TraceItem::ScoreEntry(action) => {
            let o = trace_var64_end(s, off, "invalid scoreboard_id");
            let o = then_string(s, o);
            let o = then_bytes(s, o, 4);
            match o {
                Err(e) => Err(e),
                Ok(o1) => if action == 0 {
                    if !has_bytes(s, o1, 1) {
                        Err(TraceError::Invalid("missing set_score entry_type"))
                    } else {
                        let entry_type = s[o1];
                        if entry_type == 1 || entry_type == 2 {
                            trace_var64_end(s, o1 + 1, "invalid set_score entity_unique_id")
                        } else if entry_type == 3 {
                            trace_string_end(s, o1 + 1)
                        } else {
                            Err(TraceError::Unknown("unknown set_score entry_type", entry_type as u64))
                        }
                    }
                } else if action != 1 {
                    Err(TraceError::Unknown("unknown set_score action", action as u64))
                } else {
                    Ok(o1)
                },
            }
        },
        TraceItem::AbilityLayer => {
            let o = trace_bytes_end(s, off, 2);
            let o = then_bytes(s, o, 4);
            let o = then_bytes(s, o, 4);
            let o = then_bytes(s, o, 4);
            let o = then_bytes(s, o, 4);
            then_bytes(s, o, 4)
        },
        TraceItem::Recipe => trace_string_end(s, off),
        TraceItem::HudElement => trace_var32_end(s, off, "invalid HUD element"),
    }
}

/// `k` consecutive entries from `off`.
pub open spec fn trace_items_end(s: Seq<u8>, off: int, k: nat, item: TraceItem) -> Result<int, TraceError>
    decreases k,
{
    if k == 0 {
        Ok(off)
    } else {
        match trace_items_end(s, off, (k - 1) as nat, item) {
            Ok(o) => trace_item_end(s, o, item),
            Err(e) => Err(e),
        }
    }
}

/// Once a run of entries fails, every longer run fails the same way.
pub proof fn lemma_trace_items_error_sticks(s: Seq<u8>, off: int, i: nat, j: nat, item: TraceItem)
    requires
        trace_items_end(s, off, i, item) is Err,
        i <= j,
    ensures
        trace_items_end(s, off, j, item) == trace_items_end(s, off, i, item),
    decreases j - i,
{
    if i < j {
        lemma_trace_items_error_sticks(s, off, i, (j - 1) as nat, item);
    }
}

fn skip_trace_item(packet: &[u8], offset: &mut usize, item: TraceItem) -> (r: Result<(), TraceError>)
    ensures
        traced_to(r, *final(offset) as int, trace_item_end(packet@, *old(offset) as int, item)),
{
    match item {
        TraceItem::GameRule => {
            match skip_string(packet, offset) {
                Ok(()) => {},
                Err(e) => return Err(e),
            }
            match skip_exact(packet, offset, 1) {
                Ok(()) => {},
                Err(e) => return Err(e),
            }
            let rule_type: u32 = match read_var_u32(packet, offset) {
                Some(t) => t,
                None => return Err(TraceError::Invalid("invalid gamerule type")),
            };
            if rule_type == 1 {
                skip_exact(packet, offset, 1)
            } else if rule_type == 2 || rule_type == 3 {
                skip_exact(packet, offset, 4)
            } else {
                Err(TraceError::Unknown("unknown gamerule type", rule_type as u64))
            }
        },
        TraceItem::ScoreEntry(action) => {
            match skip_var64(packet, offset, "invalid scoreboard_id") {
                Ok(()) => {},
                Err(e) => return Err(e),
            }
            match skip_string(packet, offset) {
                Ok(()) => {},
                Err(e) => return Err(e),
            }
            match skip_exact(packet, offset, 4) {
                Ok(()) => {},
                Err(e) => return Err(e),
            }
            if action == 0 {
                let entry_type: u8 = match read_u8(packet, offset) {
                    Some(t) => t,
                    None => return Err(TraceError::Invalid("missing set_score entry_type")),
                };
                if entry_type == 1 || entry_type == 2 {
                    skip_var64(packet, offset, "invalid set_score entity_unique_id")
                } else if entry_type == 3 {
                    skip_string(packet, offset)
                } else {
                    Err(TraceError::Unknown("unknown set_score entry_type", entry_type as u64))
                }
            } else if action != 1 {
                Err(TraceError::Unknown("unknown set_score action", action as u64))
            } else {
                Ok(())
            }
        },
        TraceItem::AbilityLayer => {
            match skip_exact(packet, offset, 2) {
                Ok(()) => {},
                Err(e) => return Err(e),
            }
            match skip_exact(packet, offset, 4) {
                Ok(()) => {},
                Err(e) => return Err(e),
            }
            match skip_exact(packet, offset, 4) {
                Ok(()) => {},
                Err(e) => return Err(e),
            }
            match skip_exact(packet, offset, 4) {
                Ok(()) => {},
                Err(e) => return Err(e),
            }
            match skip_exact(packet, offset, 4) {
                Ok(()) => {},
                Err(e) => return Err(e),
            }
            skip_exact(packet, offset, 4)
        },
        TraceItem::Recipe => skip_string(packet, offset),
        TraceItem::HudElement => skip_var32(packet, offset, "invalid HUD element"),
    }
}

fn skip_trace_items(packet: &[u8], offset: &mut usize, count: u32, item: TraceItem) -> (r: Result<(), TraceError>)
    ensures
        traced_to(r, *final(offset) as int, trace_items_end(packet@, *old(offset) as int, count as nat, item)),
{
    let ghost start: int = *offset as int;
    let mut k: u32 = 0;
    while k < count
        invariant
            start == *old(offset) as int,
            k <= count,
            trace_items_end(packet@, start, k as nat, item) == Ok::<int, TraceError>(*offset as int),
        decreases count - k,
    {
        match skip_trace_item(packet, offset, item) {
            Ok(()) => {},
            Err(e) => {
                proof {
                    lemma_trace_items_error_sticks(packet@, start, (k + 1) as nat, count as nat, item);
                }
                return Err(e);
            },
        }
        k = k + 1;
    }
    Ok(())
}


/// LevelChunk: chunk x and z, dimension, sub-chunk count (two more bytes
/// when it is -2), the cache flag with its blob hashes, then the payload.
pub open spec fn level_chunk_boundary_end(s: Seq<u8>, off: int) -> Result<int, TraceError> {
    let o = trace_var32_end(s, off, "invalid chunk x");
    let o = then_var32(s, o, "invalid chunk z");
    let o = then_var32(s, o, "invalid dimension");
    match o {
        Err(e) => Err(e),
        Ok(o1) => match var32(s, o1) {
            None => Err(TraceError::Invalid("invalid sub_chunk_count")),
            Some((raw_count, o2)) => {
                let o3 = if raw_count as i32 == -2 { trace_bytes_end(s, o2, 2) } else { Ok(o2) };
                match o3 {
                    Err(e) => Err(e),
                    Ok(o4) => if !has_bytes(s, o4, 1) {
                        Err(TraceError::Invalid("missing bool"))
                    } else {
                        let o5 = if s[o4] != 0 {
                            match var32(s, o4 + 1) {
                                None => Err(TraceError::Invalid("invalid cache blob count")),
                                Some((blobs, o)) => if has_bytes(s, o, blobs * 8) {
                                    Ok(o + blobs * 8)
                                } else {
                                    Err(TraceError::NeedBytes((blobs * 8) as usize))
                                },
                            }
                        } else {
                            Ok(o4 + 1)
                        };
                        match o5 {
                            Err(e) => Err(e),
                            Ok(o6) => match var32(s, o6) {
                                None => Err(TraceError::Invalid("invalid chunk payload length")),
                                Some((len, o7)) => trace_bytes_end(s, o7, len as usize),
                            },
                        }
                    },
                }
            },
        },
    }
}

pub fn decode_level_chunk_boundary(packet: &[u8], offset: &mut usize) -> (r: Result<(), TraceError>)
    ensures
        traced_to(r, *final(offset) as int, level_chunk_boundary_end(packet@, *old(offset) as int)),
{
    match skip_var32(packet, offset, "invalid chunk x") {
        Ok(()) => {},
        Err(e) => return Err(e),
    }
    match skip_var32(packet, offset, "invalid chunk z") {
        Ok(()) => {},
        Err(e) => return Err(e),
    }
    match skip_var32(packet, offset, "invalid dimension") {
        Ok(()) => {},
        Err(e) => return Err(e),
    }
    let sub_chunk_count: i32 = match read_var_u32(packet, offset) {
        Some(v) => #[verifier::truncate] (v as i32),
        None => return Err(TraceError::Invalid("invalid sub_chunk_count")),
    };
    if sub_chunk_count == -2 {
        match skip_exact(packet, offset, 2) {
            Ok(()) => {},
            Err(e) => return Err(e),
        }
    }
    let cache_enabled: bool = match read_u8(packet, offset) {
        Some(b) => b != 0,
        None => return Err(TraceError::Invalid("missing bool")),
    };
    if cache_enabled {
        let blob_count: u32 = match read_var_u32(packet, offset) {
            Some(v) => v,
            None => return Err(TraceError::Invalid("invalid cache blob count")),
        };
        let needed: u64 = blob_count as u64 * 8;
        if needed > usize::MAX as u64 {
            assert(packet@.len() <= usize::MAX) by {
                let _ = packet.len();
            }
            return Err(TraceError::NeedBytes(#[verifier::truncate] (needed as usize)));
        }
        match skip_exact(packet, offset, needed as usize) {
            Ok(()) => {},
            Err(e) => return Err(e),
        }
    }
    let payload_len: u32 = match read_var_u32(packet, offset) {
        Some(v) => v,
        None => return Err(TraceError::Invalid("invalid chunk payload length")),
    };
    skip_exact(packet, offset, payload_len as usize)
}

/// UpdateBlock: position, runtime id, flags and layer.
pub open spec fn update_block_boundary_end(s: Seq<u8>, off: int) -> Result<int, TraceError> {
    let o = trace_var32_end(s, off, "invalid block x");
    let o = then_var32(s, o, "invalid block y");
    let o = then_var32(s, o, "invalid block z");
    let o = then_var32(s, o, "invalid block_runtime_id");
    let o = then_var32(s, o, "invalid flags");
    then_var32(s, o, "invalid layer")
}

pub fn decode_update_block_boundary(packet: &[u8], offset: &mut usize) -> (r: Result<(), TraceError>)
    ensures
        traced_to(r, *final(offset) as int, update_block_boundary_end(packet@, *old(offset) as int)),
{
    match skip_var32(packet, offset, "invalid block x") {
        Ok(()) => {},
        Err(e) => return Err(e),
    }
    match skip_var32(packet, offset, "invalid block y") {
        Ok(()) => {},
        Err(e) => return Err(e),
    }
    match skip_var32(packet, offset, "invalid block z") {
        Ok(()) => {},
        Err(e) => return Err(e),
    }
    match skip_var32(packet, offset, "invalid block_runtime_id") {
        Ok(()) => {},
        Err(e) => return Err(e),
    }
    match skip_var32(packet, offset, "invalid flags") {
        Ok(()) => {},
        Err(e) => return Err(e),
    }
    skip_var32(packet, offset, "invalid layer")
}

/// GameRulesChanged: a varint count of rules.
pub open spec fn game_rules_changed_boundary_end(s: Seq<u8>, off: int) -> Result<int, TraceError> {
    match var32(s, off) {
        None => Err(TraceError::Invalid("invalid gamerule count")),
        Some((count, o)) => trace_items_end(s, o, count as nat, TraceItem::GameRule),
    }
}

pub fn decode_game_rules_changed_boundary(packet: &[u8], offset: &mut usize) -> (r: Result<(), TraceError>)
    ensures
        traced_to(r, *final(offset) as int, game_rules_changed_boundary_end(packet@, *old(offset) as int)),
{
    match read_var_u32(packet, offset) {
        Some(count) => skip_trace_items(packet, offset, count, TraceItem::GameRule),
        None => Err(TraceError::Invalid("invalid gamerule count")),
    }
}

/// SetEntityMotion: runtime id, velocity, tick.
pub open spec fn set_entity_motion_boundary_end(s: Seq<u8>, off: int) -> Result<int, TraceError> {
    let o = trace_var64_end(s, off, "invalid runtime_entity_id");
    let o = then_bytes(s, o, 12);
    then_var64(s, o, "invalid tick")
}

pub fn decode_set_entity_motion_boundary(packet: &[u8], offset: &mut usize) -> (r: Result<(), TraceError>)
    ensures
        traced_to(r, *final(offset) as int, set_entity_motion_boundary_end(packet@, *old(offset) as int)),
{
    match skip_var64(packet, offset, "invalid runtime_entity_id") {
        Ok(()) => {},
        Err(e) => return Err(e),
    }
    match skip_exact(packet, offset, 12) {
        Ok(()) => {},
        Err(e) => return Err(e),
    }
    skip_var64(packet, offset, "invalid tick")
}

/// SetSpawnPosition: spawn type, block position, dimension, block position.
pub open spec fn set_spawn_position_boundary_end(s: Seq<u8>, off: int) -> Result<int, TraceError> {
    let o = trace_var32_end(s, off, "invalid spawn_type");
    let o = then_coordinates(s, o);
    let o = then_var32(s, o, "invalid dimension");
    then_coordinates(s, o)
}

pub fn decode_set_spawn_position_boundary(packet: &[u8], offset: &mut usize) -> (r: Result<(), TraceError>)
    ensures
        traced_to(r, *final(offset) as int, set_spawn_position_boundary_end(packet@, *old(offset) as int)),
{
    match skip_var32(packet, offset, "invalid spawn_type") {
        Ok(()) => {},
        Err(e) => return Err(e),
    }
    match skip_coordinates(packet, offset) {
        Ok(()) => {},
        Err(e) => return Err(e),
    }
    match skip_var32(packet, offset, "invalid dimension") {
        Ok(()) => {},
        Err(e) => return Err(e),
    }
    skip_coordinates(packet, offset)
}

/// Respawn: position, state byte, runtime id.
pub open spec fn respawn_boundary_end(s: Seq<u8>, off: int) -> Result<int, TraceError> {
    let o = trace_bytes_end(s, off, 12);
    let o = then_bytes(s, o, 1);
    then_var64(s, o, "invalid runtime_entity_id")
}

pub fn decode_respawn_boundary(packet: &[u8], offset: &mut usize) -> (r: Result<(), TraceError>)
    ensures
        traced_to(r, *final(offset) as int, respawn_boundary_end(packet@, *old(offset) as int)),
{
    match skip_exact(packet, offset, 12) {
        Ok(()) => {},
        Err(e) => return Err(e),
    }
    match skip_exact(packet, offset, 1) {
        Ok(()) => {},
        Err(e) => return Err(e),
    }
    skip_var64(packet, offset, "invalid runtime_entity_id")
}

/// SetTitle: type, text, three timings, then three strings.
pub open spec fn set_title_boundary_end(s: Seq<u8>, off: int) -> Result<int, TraceError> {
    let o = trace_var32_end(s, off, "invalid title type");
    let o = then_string(s, o);
    let o = then_var32(s, o, "invalid fade_in_time");
    let o = then_var32(s, o, "invalid stay_time");
    let o = then_var32(s, o, "invalid fade_out_time");
    let o = then_string(s, o);
    let o = then_string(s, o);
    then_string(s, o)
}

pub fn decode_set_title_boundary(packet: &[u8], offset: &mut usize) -> (r: Result<(), TraceError>)
    ensures
        traced_to(r, *final(offset) as int, set_title_boundary_end(packet@, *old(offset) as int)),
{
    match skip_var32(packet, offset, "invalid title type") {
        Ok(()) => {},
        Err(e) => return Err(e),
    }
    match skip_string(packet, offset) {
        Ok(()) => {},
        Err(e) => return Err(e),
    }
    match skip_var32(packet, offset, "invalid fade_in_time") {
        Ok(()) => {},
        Err(e) => return Err(e),
    }
    match skip_var32(packet, offset, "invalid stay_time") {
        Ok(()) => {},
        Err(e) => return Err(e),
    }
    match skip_var32(packet, offset, "invalid fade_out_time") {
        Ok(()) => {},
        Err(e) => return Err(e),
    }
    match skip_string(packet, offset) {
        Ok(()) => {},
        Err(e) => return Err(e),
    }
    match skip_string(packet, offset) {
        Ok(()) => {},
        Err(e) => return Err(e),
    }
    skip_string(packet, offset)
}

/// SetScore: an action byte, then a varint count of entries.
pub open spec fn set_score_boundary_end(s: Seq<u8>, off: int) -> Result<int, TraceError> {
    if !has_bytes(s, off, 1) {
        Err(TraceError::Invalid("missing set_score action"))
    } else {
        match var32(s, off + 1) {
            None => Err(TraceError::Invalid("invalid set_score count")),
            Some((count, o)) => trace_items_end(s, o, count as nat, TraceItem::ScoreEntry(s[off])),
        }
    }
}

pub fn decode_set_score_boundary(packet: &[u8], offset: &mut usize) -> (r: Result<(), TraceError>)
    ensures
        traced_to(r, *final(offset) as int, set_score_boundary_end(packet@, *old(offset) as int)),
{
    let action: u8 = match read_u8(packet, offset) {
        Some(a) => a,
        None => return Err(TraceError::Invalid("missing set_score action")),
    };
    match read_var_u32(packet, offset) {
        Some(count) => skip_trace_items(packet, offset, count, TraceItem::ScoreEntry(action)),
        None => Err(TraceError::Invalid("invalid set_score count")),
    }
}

/// SetDisplayObjective: four strings and a sort order.
pub open spec fn set_display_objective_boundary_end(s: Seq<u8>, off: int) -> Result<int, TraceError> {
    let o = trace_string_end(s, off);
    let o = then_string(s, o);
    let o = then_string(s, o);
    let o = then_string(s, o);
    then_var32(s, o, "invalid sort_order")
}

pub fn decode_set_display_objective_boundary(packet: &[u8], offset: &mut usize) -> (r: Result<(), TraceError>)
    ensures
        traced_to(r, *final(offset) as int, set_display_objective_boundary_end(packet@, *old(offset) as int)),
{
    match skip_string(packet, offset) {
        Ok(()) => {},
        Err(e) => return Err(e),
    }
    match skip_string(packet, offset) {
        Ok(()) => {},
        Err(e) => return Err(e),
    }
    match skip_string(packet, offset) {
        Ok(()) => {},
        Err(e) => return Err(e),
    }
    match skip_string(packet, offset) {
        Ok(()) => {},
        Err(e) => return Err(e),
    }
    skip_var32(packet, offset, "invalid sort_order")
}

/// UpdateAbilities: unique id, permission bytes, then a one-byte count of layers.
pub open spec fn update_abilities_boundary_end(s: Seq<u8>, off: int) -> Result<int, TraceError> {
    let o = trace_bytes_end(s, off, 8);
    let o = then_bytes(s, o, 1);
    let o = then_bytes(s, o, 1);
    match o {
        Err(e) => Err(e),
        Ok(o1) => if !has_bytes(s, o1, 1) {
            Err(TraceError::Invalid("missing ability layer count"))
        } else {
            trace_items_end(s, o1 + 1, s[o1] as nat, TraceItem::AbilityLayer)
        },
    }
}

pub fn decode_update_abilities_boundary(packet: &[u8], offset: &mut usize) -> (r: Result<(), TraceError>)
    ensures
        traced_to(r, *final(offset) as int, update_abilities_boundary_end(packet@, *old(offset) as int)),
{
    match skip_exact(packet, offset, 8) {
        Ok(()) => {},
        Err(e) => return Err(e),
    }
    match skip_exact(packet, offset, 1) {
        Ok(()) => {},
        Err(e) => return Err(e),
    }
    match skip_exact(packet, offset, 1) {
        Ok(()) => {},
        Err(e) => return Err(e),
    }
    let layer_count: u8 = match read_u8(packet, offset) {
        Some(c) => c,
        None => return Err(TraceError::Invalid("missing ability layer count")),
    };
    skip_trace_items(packet, offset, layer_count as u32, TraceItem::AbilityLayer)
}

/// UnlockedRecipes: an unlock type, then a varint count of recipe names.
pub open spec fn unlocked_recipes_boundary_end(s: Seq<u8>, off: int) -> Result<int, TraceError> {
    match trace_bytes_end(s, off, 4) {
        Err(e) => Err(e),
        Ok(o1) => match var32(s, o1) {
            None => Err(TraceError::Invalid("invalid recipe count")),
            Some((count, o2)) => trace_items_end(s, o2, count as nat, TraceItem::Recipe),
        },
    }
}

pub fn decode_unlocked_recipes_boundary(packet: &[u8], offset: &mut usize) -> (r: Result<(), TraceError>)
    ensures
        traced_to(r, *final(offset) as int, unlocked_recipes_boundary_end(packet@, *old(offset) as int)),
{
    match skip_exact(packet, offset, 4) {
        Ok(()) => {},
        Err(e) => return Err(e),
    }
    match read_var_u32(packet, offset) {
        Some(count) => skip_trace_items(packet, offset, count, TraceItem::Recipe),
        None => Err(TraceError::Invalid("invalid recipe count")),
    }
}

/// SetHud: a varint count of elements, the elements, then the visibility.
pub open spec fn set_hud_boundary_end(s: Seq<u8>, off: int) -> Result<int, TraceError> {
    match var32(s, off) {
        None => Err(TraceError::Invalid("invalid HUD element count")),
        Some((count, o)) => then_var32(
            s,
            trace_items_end(s, o, count as nat, TraceItem::HudElement),
            "invalid HUD visibility",
        ),
    }
}

pub fn decode_set_hud_boundary(packet: &[u8], offset: &mut usize) -> (r: Result<(), TraceError>)
    ensures
        traced_to(r, *final(offset) as int, set_hud_boundary_end(packet@, *old(offset) as int)),
{
    let count: u32 = match read_var_u32(packet, offset) {
        Some(c) => c,
        None => return Err(TraceError::Invalid("invalid HUD element count")),
    };
    match skip_trace_items(packet, offset, count, TraceItem::HudElement) {
        Ok(()) => {},
        Err(e) => return Err(e),
    }
    skip_var32(packet, offset, "invalid HUD visibility")
}

/// PlayerLocation: a little-endian location type, the entity id, and a
/// position when the type is zero.
pub open spec fn player_location_boundary_end(s: Seq<u8>, off: int) -> Result<int, TraceError> {
    if !has_bytes(s, off, 4) {
        Err(TraceError::NeedBytes(4))
    } else {
        let location_type = (le_value(s, off, 4) as u32) as i32;
        match trace_var64_end(s, off + 4, "invalid entity_unique_id") {
            Err(e) => Err(e),
            Ok(o) => if location_type == 0 {
                trace_bytes_end(s, o, 12)
            } else {
                Ok(o)
            },
        }
    }
}

pub fn decode_player_location_boundary(packet: &[u8], offset: &mut usize) -> (r: Result<(), TraceError>)
    ensures
        traced_to(r, *final(offset) as int, player_location_boundary_end(packet@, *old(offset) as int)),
{
    let location_type: i32 = match read_le_i32(packet, offset) {
        Some(t) => t,
        None => return Err(TraceError::NeedBytes(4)),
    };
    match skip_var64(packet, offset, "invalid entity_unique_id") {
        Ok(()) => {},
        Err(e) => return Err(e),
    }
    if location_type == 0 {
        skip_exact(packet, offset, 12)
    } else {
        Ok(())
    }
}


/// Where the payload of a packet with id `packet_id` ends when walked from
/// `off`, or the field that does not decode; ids without a known layout end
/// where they start.
pub open spec fn known_boundary_end(s: Seq<u8>, packet_id: u32, off: int) -> Result<int, TraceError> {
    if packet_id == 0x3a {
        level_chunk_boundary_end(s, off)
    } else if packet_id == 0x15 {
        update_block_boundary_end(s, off)
    } else if packet_id == 0x28 {
        set_entity_motion_boundary_end(s, off)
    } else if packet_id == 0x2b {
        set_spawn_position_boundary_end(s, off)
    } else if packet_id == 0x2d {
        respawn_boundary_end(s, off)
    } else if packet_id == 0x3b || packet_id == 0x3c || packet_id == 0x46 {
        trace_var32_end(s, off, "invalid varint payload")
    } else if packet_id == 0x48 {
        game_rules_changed_boundary_end(s, off)
    } else if packet_id == 0x58 {
        set_title_boundary_end(s, off)
    } else if packet_id == 0x6a {
        trace_string_end(s, off)
    } else if packet_id == 0x6b {
        set_display_objective_boundary_end(s, off)
    } else if packet_id == 0x6c {
        set_score_boundary_end(s, off)
    } else if packet_id == 0x72 {
        match soft_enum_at(s, off) {
            Ok(_) => Ok(s.len() as int),
            Err(e) => Err(TraceError::SoftEnum(e)),
        }
    } else if packet_id == 0xa5 {
        match nbt_end(s, off) {
            Ok(o) => Ok(o),
            Err(e) => Err(TraceError::Nbt(e)),
        }
    } else if packet_id == 0xbb {
        update_abilities_boundary_end(s, off)
    } else if packet_id == 0xbc {
        trace_bytes_end(s, off, 5)
    } else if packet_id == 0xc7 {
        unlocked_recipes_boundary_end(s, off)
    } else if packet_id == 0x134 {
        set_hud_boundary_end(s, off)
    } else if packet_id == 0x146 {
        player_location_boundary_end(s, off)
    } else {
        Ok(off)
    }
}

/// Walks the payload of a packet whose layout this client knows: its name
/// and where the payload ends (or why it does not decode); `None` for other
/// packets.
pub fn trace_known_packet_impl(summary: &PacketSummary) -> (r: Option<(&'static str, Result<usize, TraceError>)>)
    ensures
        match implemented_name(summary.packet_id) {
            None => r is None,
            Some(name) => r matches Some((n, res)) && n == name && match known_boundary_end(
                summary.packet@,
                summary.packet_id,
                summary.payload_offset as int,
            ) {
                Ok(o) => res == Ok::<usize, TraceError>(o as usize),
                Err(e) => res == Err::<usize, TraceError>(e),
            },
        },
{
    let name = match implemented_packet_name(summary.packet_id) {
        Some(name) => name,
        None => return None,
    };
    let packet = summary.packet;
    let id = summary.packet_id;
    let mut offset: usize = summary.payload_offset;
    let result: Result<(), TraceError> = if id == 0x3a {
        decode_level_chunk_boundary(packet, &mut offset)
    } else if id == 0x15 {
        decode_update_block_boundary(packet, &mut offset)
    } else if id == 0x28 {
        decode_set_entity_motion_boundary(packet, &mut offset)
    } else if id == 0x2b {
        decode_set_spawn_position_boundary(packet, &mut offset)
    } else if id == 0x2d {
        decode_respawn_boundary(packet, &mut offset)
    } else if id == 0x3b || id == 0x3c || id == 0x46 {
        skip_var32(packet, &mut offset, "invalid varint payload")
    } else if id == 0x48 {
        decode_game_rules_changed_boundary(packet, &mut offset)
    } else if id == 0x58 {
        decode_set_title_boundary(packet, &mut offset)
    } else if id == 0x6a {
        skip_string(packet, &mut offset)
    } else if id == 0x6b {
        decode_set_display_objective_boundary(packet, &mut offset)
    } else if id == 0x6c {
        decode_set_score_boundary(packet, &mut offset)
    } else if id == 0x72 {
        match TorchFlowerUpdateSoftEnumPacket::deserialize(packet, summary.payload_offset) {
            Ok(_) => {
                offset = packet.len();
                Ok(())
            },
            Err(e) => Err(TraceError::SoftEnum(e)),
        }
    } else if id == 0xa5 {
        match skip_trace_nbt(packet, &mut offset) {
            Ok(()) => Ok(()),
            Err(e) => Err(TraceError::Nbt(e)),
        }
    } else if id == 0xbb {
        decode_update_abilities_boundary(packet, &mut offset)
    } else if id == 0xbc {
        skip_exact(packet, &mut offset, 5)
    } else if id == 0xc7 {
        decode_unlocked_recipes_boundary(packet, &mut offset)
    } else if id == 0x134 {
        decode_set_hud_boundary(packet, &mut offset)
    } else if id == 0x146 {
        decode_player_location_boundary(packet, &mut offset)
    } else {
        Ok(())
    };
    match result {
        Ok(()) => Some((name, Ok(offset))),
        Err(e) => Some((name, Err(e))),
    }
}

} // verus!
