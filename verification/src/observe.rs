//! What the client observes in raw packets before (or instead of) full decoding.
//!
//! Floating-point wire fields are carried as their IEEE-754 bit patterns.

use vstd::prelude::*;
use crate::varint::{read_var_u32, read_var_u64, var_u32_at, var_u64_at, varint_consumed, zigzag_decode32, zigzag_decode64, zigzag_i32};
use crate::wire::{be_value, block_coordinates_at, has_bytes, le_value, lemma_varint_consumed_bound, read_block_coordinates, read_le_i32, read_le_u32, read_le_u64, skip_bytes};

verus! {

/// A 32-bit varint at `off` with the offset after it.
pub open spec fn var32(s: Seq<u8>, off: int) -> Option<(u32, int)> {
    match var_u32_at(s, off) {
        Some(v) => Some((v, off + varint_consumed(s, off, 5))),
        None => None,
    }
}

/// A 64-bit varint at `off` with the offset after it.
pub open spec fn var64(s: Seq<u8>, off: int) -> Option<(u64, int)> {
    match var_u64_at(s, off) {
        Some(v) => Some((v, off + varint_consumed(s, off, 10))),
        None => None,
    }
}

/// A zigzag 32-bit varint at `off` with the offset after it.
pub open spec fn zz32(s: Seq<u8>, off: int) -> Option<(i32, int)> {
    match var32(s, off) {
        Some((v, o)) => Some((zigzag_decode32(v), o)),
        None => None,
    }
}

/// A zigzag 64-bit varint at `off` with the offset after it.
pub open spec fn zz64(s: Seq<u8>, off: int) -> Option<(i64, int)> {
    match var64(s, off) {
        Some((v, o)) => Some((zigzag_decode64(v), o)),
        None => None,
    }
}

/// Four little-endian bytes at `off` with the offset after them.
pub open spec fn le32(s: Seq<u8>, off: int) -> Option<(u32, int)> {
    if has_bytes(s, off, 4) {
        Some((le_value(s, off, 4) as u32, off + 4))
    } else {
        None
    }
}

/// Three IEEE-754 single-precision values carried as their bit patterns.
#[derive(Debug, Clone, Copy, PartialEq, Eq)]
pub struct Vec3Bits {
    pub x: u32,
    pub y: u32,
    pub z: u32,
}

/// Pitch and yaw carried as IEEE-754 single-precision bit patterns.
#[derive(Debug, Clone, Copy, PartialEq, Eq)]
pub struct RotationBits {
    pub pitch: u32,
    pub yaw: u32,
}

#[derive(Debug, Clone)]
pub struct ObservedStartGame {
    pub entity_id: i64,
    pub runtime_id: u64,
    /// Player position, IEEE-754 bits of x, y, z.
    pub position: Vec3Bits,
    /// Rotation, IEEE-754 bits of pitch and yaw as sent.
    pub rotation: RotationBits,
    pub disable_player_interactions: Option<bool>,
    pub server_authoritative_block_breaking: Option<bool>,
    pub block_network_ids_are_hashes: Option<bool>,
    pub block_property_count: Option<u32>,
}

#[derive(Debug, Clone)]
pub struct ObservedDisconnect {
    pub reason: i32,
    pub hide_reason: bool,
    pub message: Option<String>,
    pub filtered_message: Option<String>,
}

#[derive(Debug, Clone)]
pub struct ObservedInventoryItem {
    pub container_id: u32,
    pub slot: u32,
    pub item_id: i32,
    pub stack_id: Option<i32>,
    pub container_type: Option<u8>,
    pub dynamic_container_id: Option<u32>,
    pub item_bytes: Vec<u8>,
}

#[derive(Debug, Clone)]
pub struct ObservedItemStackResponse {
    pub result: u8,
    pub result_name: &'static str,
    pub raw_client_request_id: u32,
    pub client_request_id: i32,
    pub trailing_bytes: usize,
}

#[derive(Debug, Clone)]
pub struct ObservedText {
    pub strings: Vec<String>,
}

#[derive(Debug, Clone, Copy, PartialEq, Eq)]
pub struct ObservedBlockSample {
    pub x: i32,
    pub y: i32,
    pub z: i32,
    pub runtime_id: u32,
}

#[derive(Debug, Clone)]
pub struct ObservedItemEntity {
    pub entity_id: i64,
    pub runtime_entity_id: u64,
    pub item_id: i32,
    pub stack_id: Option<i32>,
    /// IEEE-754 bits of x, y, z.
    pub position: Vec3Bits,
    /// IEEE-754 bits of the velocity components.
    pub velocity: Vec3Bits,
    pub item_bytes: Vec<u8>,
}

#[derive(Debug, Clone)]
pub enum ObservedPacket {
    PlayStatus(Option<i32>),
    ResourcePacksInfo,
    ResourcePackStack,
    StartGame(Option<ObservedStartGame>),
    Disconnect(Option<ObservedDisconnect>),
    NetworkStackLatency { timestamp: u64, needs_response: bool },
    Text(Option<ObservedText>),
    ModalFormRequest,
    AddItemEntity(ObservedItemEntity),
    TakeItemEntity { runtime_entity_id: u64, target_runtime_entity_id: u32 },
    InventoryContent { items: Vec<ObservedInventoryItem> },
    InventorySlot { item: Option<ObservedInventoryItem> },
    ItemStackResponse { responses: Vec<ObservedItemStackResponse> },
    LevelChunk { chunk_x: i32, chunk_z: i32, dimension: i32, samples: Vec<ObservedBlockSample> },
    NetworkChunkPublisherUpdate { x: i32, y: i32, z: i32, radius: u32 },
    UpdateBlock { x: i32, y: i32, z: i32, runtime_id: u32, flags: u32, layer: u32 },
    ContainerOpen { container_id: u8, container_type: u8 },
    UpdateSoftEnum,
    RegistryKnown(u32),
    Other(u32),
}

/// The play status at `off`: the four bytes read little-endian when that
/// gives 0..=9, else big-endian when that does, else nothing.
pub open spec fn play_status_at(s: Seq<u8>, off: int) -> Option<i32> {
    if !has_bytes(s, off, 4) {
        None
    } else {
        let little = (le_value(s, off, 4) as u32) as i32;
        let big = (be_value(s, off, 4) as u32) as i32;
        if 0 <= little <= 9 {
            Some(little)
        } else if 0 <= big <= 9 {
            Some(big)
        } else {
            None
        }
    }
}

pub fn read_play_status(packet: &[u8], offset: usize) -> (res: Option<i32>)
    ensures
        res == play_status_at(packet@, offset as int),
{
    let mut at: usize = offset;
    let little: i32 = match read_le_i32(packet, &mut at) {
        Some(v) => v,
        None => return None,
    };
    if 0 <= little && little <= 9 {
        return Some(little);
    }
    let b0: u32 = packet[offset] as u32;
    let b1: u32 = packet[offset + 1] as u32;
    let b2: u32 = packet[offset + 2] as u32;
    let b3: u32 = packet[offset + 3] as u32;
    assert(be_value(packet@, offset as int, 4) == ((b0 * 256 + b1) * 256 + b2) * 256 + b3) by {
        reveal_with_fuel(be_value, 5);
    }
    let big: i32 = (((b0 * 256 + b1) * 256 + b2) * 256 + b3) as i32;
    if 0 <= big && big <= 9 {
        Some(big)
    } else {
        None
    }
}

/// A NetworkStackLatency observation: exactly nine payload bytes.
pub open spec fn latency_at(s: Seq<u8>, off: int) -> Option<(u64, bool)> {
    if off <= s.len() && s.len() - off == 9 {
        Some((le_value(s, off, 8) as u64, s[off + 8] != 0))
    } else {
        None
    }
}

pub fn read_network_stack_latency(packet: &[u8], offset: usize) -> (res: Option<ObservedPacket>)
    ensures
        match latency_at(packet@, offset as int) {
            Some((timestamp, needs_response)) => res == Some(
                ObservedPacket::NetworkStackLatency { timestamp, needs_response },
            ),
            None => res is None,
        },
{
    if offset > packet.len() || packet.len() - offset != 9 {
        return None;
    }
    let mut at: usize = offset;
    let timestamp: u64 = match read_le_u64(packet, &mut at) {
        Some(v) => v,
        None => return None,
    };
    let needs_response: bool = packet[offset + 8] != 0;
    Some(ObservedPacket::NetworkStackLatency { timestamp, needs_response })
}

/// A TakeItemEntity observation: runtime entity id, then target runtime id.
pub open spec fn take_item_entity_at(s: Seq<u8>, off: int) -> Option<(u64, u32)> {
    match var64(s, off) {
        Some((runtime, o1)) => match var32(s, o1) {
            Some((target, _)) => Some((runtime, target)),
            None => None,
        },
        None => None,
    }
}

pub fn read_take_item_entity(packet: &[u8], payload_offset: usize) -> (res: Option<ObservedPacket>)
    ensures
        match take_item_entity_at(packet@, payload_offset as int) {
            Some((runtime_entity_id, target_runtime_entity_id)) => res == Some(
                ObservedPacket::TakeItemEntity { runtime_entity_id, target_runtime_entity_id },
            ),
            None => res is None,
        },
{
    let mut offset: usize = payload_offset;
    let runtime_entity_id: u64 = match read_var_u64(packet, &mut offset) {
        Some(v) => v,
        None => return None,
    };
    let target_runtime_entity_id: u32 = match read_var_u32(packet, &mut offset) {
        Some(v) => v,
        None => return None,
    };
    Some(ObservedPacket::TakeItemEntity { runtime_entity_id, target_runtime_entity_id })
}

/// An UpdateBlock observation: position, runtime id, flags, layer.
pub open spec fn update_block_at(s: Seq<u8>, off: int) -> Option<(i32, i32, i32, u32, u32, u32)> {
    match block_coordinates_at(s, off) {
        Some(((x, y, z), o1)) => match var32(s, o1) {
            Some((runtime_id, o2)) => match var32(s, o2) {
                Some((flags, o3)) => match var32(s, o3) {
                    Some((layer, _)) => Some((x, y, z, runtime_id, flags, layer)),
                    None => None,
                },
                None => None,
            },
            None => None,
        },
        None => None,
    }
}

pub fn read_update_block(packet: &[u8], payload_offset: usize) -> (res: Option<ObservedPacket>)
    ensures
        match update_block_at(packet@, payload_offset as int) {
            Some((x, y, z, runtime_id, flags, layer)) => res == Some(
                ObservedPacket::UpdateBlock { x, y, z, runtime_id, flags, layer },
            ),
            None => res is None,
        },
{
    let mut offset: usize = payload_offset;
    let (x, y, z) = match read_block_coordinates(packet, &mut offset) {
        Some(v) => v,
        None => return None,
    };
    let runtime_id: u32 = match read_var_u32(packet, &mut offset) {
        Some(v) => v,
        None => return None,
    };
    let flags: u32 = match read_var_u32(packet, &mut offset) {
        Some(v) => v,
        None => return None,
    };
    let layer: u32 = match read_var_u32(packet, &mut offset) {
        Some(v) => v,
        None => return None,
    };
    Some(ObservedPacket::UpdateBlock { x, y, z, runtime_id, flags, layer })
}

/// A NetworkChunkPublisherUpdate observation: position and radius; when four
/// or more bytes follow, a little-endian count of saved chunks (eight bytes
/// each) must fit in what remains.
pub open spec fn chunk_publisher_at(s: Seq<u8>, off: int) -> Option<(i32, i32, i32, u32)> {
    match zz32(s, off) {
        Some((x, o1)) => match zz32(s, o1) {
            Some((y, o2)) => match zz32(s, o2) {
                Some((z, o3)) => match var32(s, o3) {
                    Some((radius, o4)) => {
                        if s.len() - o4 >= 4 {
                            match le32(s, o4) {
                                Some((count, o5)) => if has_bytes(s, o5, count * 8) {
                                    Some((x, y, z, radius))
                                } else {
                                    None
                                },
                                None => None,
                            }
                        } else {
                            Some((x, y, z, radius))
                        }
                    },
                    None => None,
                },
                None => None,
            },
            None => None,
        },
        None => None,
    }
}

pub fn read_network_chunk_publisher_update(packet: &[u8], payload_offset: usize) -> (res: Option<
    ObservedPacket,
>)
    ensures
        match chunk_publisher_at(packet@, payload_offset as int) {
            Some((x, y, z, radius)) => res == Some(
                ObservedPacket::NetworkChunkPublisherUpdate { x, y, z, radius },
            ),
            None => res is None,
        },
{
    let mut offset: usize = payload_offset;
    let x: i32 = match read_var_u32(packet, &mut offset) {
        Some(v) => zigzag_i32(v),
        None => return None,
    };
    let y: i32 = match read_var_u32(packet, &mut offset) {
        Some(v) => zigzag_i32(v),
        None => return None,
    };
    let z: i32 = match read_var_u32(packet, &mut offset) {
        Some(v) => zigzag_i32(v),
        None => return None,
    };
    let radius: u32 = match read_var_u32(packet, &mut offset) {
        Some(v) => v,
        None => return None,
    };
    proof {
        lemma_varint_consumed_bound(packet@, payload_offset as int, 0, 5);
    }
    if offset <= packet.len() && packet.len() - offset >= 4 {
        let saved_count: u32 = match read_le_u32(packet, &mut offset) {
            Some(v) => v,
            None => return None,
        };
        let bytes: u64 = (saved_count as u64) * 8;
        if bytes > usize::MAX as u64 {
            assert(packet@.len() <= usize::MAX);
            return None;
        }
        if !skip_bytes(packet, &mut offset, bytes as usize) {
            return None;
        }
    }
    Some(ObservedPacket::NetworkChunkPublisherUpdate { x, y, z, radius })
}

} // verus!
