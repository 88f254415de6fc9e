//! Raw readers of the inventory packets and item entities: item headers,
//! container names, inventory content and slots, and stack responses.

use vstd::prelude::*;
use crate::names::{item_stack_response_result_name, item_stack_result_name};
use crate::observe::{ObservedInventoryItem, ObservedItemEntity, ObservedItemStackResponse, ObservedPacket, Vec3Bits, le32, var32, var64, zz32, zz64};
use crate::varint::{
    lemma_var_u32_roundtrip, lemma_zigzag32_roundtrip, read_var_u32, read_var_u64, varint_encode, zigzag_decode32,
    zigzag_encode32, zigzag_i32, zigzag_i64,
};
use crate::wire::{has_bytes, le_value, lemma_varint_consumed_bound, read_le_u32, read_trace_bool, read_u8, skip_bytes};

verus! {

/// An inventory item as the reader sees it: container, slot, item id,
/// stack id, container type and dynamic id, and the item's bytes.
pub type ItemView = (u32, u32, i32, Option<i32>, Option<u8>, Option<u32>, Seq<u8>);

/// The view of an observed item.
pub open spec fn item_view(item: ObservedInventoryItem) -> ItemView {
    (
        item.container_id,
        item.slot,
        item.item_id,
        item.stack_id,
        item.container_type,
        item.dynamic_container_id,
        item.item_bytes@,
    )
}

#[verifier::opaque]
/// The item id and stack id of a network item descriptor at `off`, and the
/// offset after it: a zigzag id (zero for air, which ends there), two bytes,
/// a varint, a has-stack-id byte and the zigzag stack id, a zigzag block
/// runtime id, and length-prefixed extra data.
pub open spec fn item_header_at(s: Seq<u8>, off: int) -> Option<(i32, Option<i32>, int)> {
    match zz32(s, off) {
        None => None,
        Some((item_id, o1)) => {
            if item_id == 0 {
                Some((0, None, o1))
            } else if !has_bytes(s, o1, 2) {
                None
            } else {
                match var32(s, o1 + 2) {
                    None => None,
                    Some((_, o2)) => {
                        if !(0 <= o2 < s.len()) {
                            None
                        } else {
                            let has_stack_id = s[o2] != 0;
                            let stack: Option<(Option<i32>, int)> = if has_stack_id {
                                match zz32(s, o2 + 1) {
                                    Some((id, o3)) => Some((Some(id), o3)),
                                    None => None,
                                }
                            } else {
                                Some((None, o2 + 1))
                            };
                            match stack {
                                None => None,
                                Some((stack_id, o3)) => match zz32(s, o3) {
                                    None => None,
                                    Some((_, o4)) => match var32(s, o4) {
                                        None => None,
                                        Some((extra_len, o5)) => {
                                            if has_bytes(s, o5, extra_len as int) {
                                                Some((item_id, stack_id, o5 + extra_len))
                                            } else {
                                                None
                                            }
                                        },
                                    },
                                },
                            }
                        }
                    },
                }
            }
        },
    }
}

/// The item id and stack id of an item header.
#[derive(Debug, Clone, Copy, PartialEq, Eq)]
pub struct ObservedInventoryItemHeader {
    pub item_id: i32,
    pub stack_id: Option<i32>,
}

/// The wire form of a (non-air) item descriptor: the zigzag item id, two
/// bytes, the metadata varint, the has-stack-id byte (1 and the zigzag stack
/// id, or 0), the zigzag block runtime id, and the extra data with its
/// varint length.
pub open spec fn item_wire(
    item_id: i32,
    head: (u8, u8),
    metadata: u32,
    stack_id: Option<i32>,
    block_runtime_id: i32,
    extra: Seq<u8>,
) -> Seq<u8> {
    varint_encode(zigzag_encode32(item_id) as nat) + seq![head.0, head.1] + varint_encode(metadata as nat) + (match stack_id {
        Some(n) => seq![1u8] + varint_encode(zigzag_encode32(n) as nat),
        None => seq![0u8],
    }) + varint_encode(zigzag_encode32(block_runtime_id) as nat) + varint_encode(extra.len()) + extra
}

/// The stack id, block runtime id and extra data of a descriptor read back
/// field by field.
#[verifier::spinoff_prover]
#[verifier::rlimit(50)]
proof fn lemma_item_tail_fields(
    stack_id: Option<i32>,
    block_runtime_id: i32,
    extra: Seq<u8>,
    pre: Seq<u8>,
    rest: Seq<u8>,
)
    requires
        extra.len() <= u32::MAX,
    ensures
        ({
            let st = match stack_id {
                Some(n) => seq![1u8] + varint_encode(zigzag_encode32(n) as nat),
                None => seq![0u8],
            };
            let e4 = varint_encode(zigzag_encode32(block_runtime_id) as nat);
            let e5 = varint_encode(extra.len());
            let s = pre + (st + e4 + e5 + extra) + rest;
            let o2 = pre.len() as int;
            let o3 = o2 + st.len();
            let o4 = o3 + e4.len();
            let o5 = o4 + e5.len();
            &&& 0 <= o2 < s.len()
            &&& (s[o2] != 0) == (stack_id is Some)
            &&& (stack_id matches Some(n) ==> zz32(s, o2 + 1) == Some((n, o3)))
            &&& zz32(s, o3) matches Some((_, o)) && o == o4
            &&& var32(s, o4) == Some(((extra.len() as u32), o5))
            &&& has_bytes(s, o5, extra.len() as int)
        }),
{
    let st = match stack_id {
        Some(n) => seq![1u8] + varint_encode(zigzag_encode32(n) as nat),
        None => seq![0u8],
    };
    let e4 = varint_encode(zigzag_encode32(block_runtime_id) as nat);
    let xl = extra.len() as u32;
    let e5 = varint_encode(xl as nat);
    let s = pre + (st + e4 + e5 + extra) + rest;
    assert(s[pre.len() as int] == st[0]);
    match stack_id {
        Some(n) => {
            lemma_zigzag32_roundtrip(n, 0);
            let es = varint_encode(zigzag_encode32(n) as nat);
            assert(s =~= (pre + seq![1u8]) + es + (e4 + e5 + extra + rest));
            lemma_var_u32_roundtrip(zigzag_encode32(n), pre + seq![1u8], e4 + e5 + extra + rest);
        },
        None => {},
    }
    let p3 = pre + st;
    assert(s =~= p3 + e4 + (e5 + extra + rest));
    lemma_var_u32_roundtrip(zigzag_encode32(block_runtime_id), p3, e5 + extra + rest);
    let p4 = p3 + e4;
    assert(s =~= p4 + e5 + (extra + rest));
    lemma_var_u32_roundtrip(xl, p4, extra + rest);
}

/// The item id and metadata of a descriptor read back field by field.
#[verifier::spinoff_prover]
proof fn lemma_item_head_fields(item_id: i32, head: (u8, u8), metadata: u32, prefix: Seq<u8>, tail: Seq<u8>)
    ensures
        ({
            let e1 = varint_encode(zigzag_encode32(item_id) as nat);
            let e2 = varint_encode(metadata as nat);
            let s = prefix + (e1 + seq![head.0, head.1] + e2 + tail);
            let o1 = (prefix.len() + e1.len()) as int;
            &&& zz32(s, prefix.len() as int) == Some((item_id, o1))
            &&& has_bytes(s, o1, 2)
            &&& var32(s, o1 + 2) == Some((metadata, o1 + 2 + e2.len()))
            &&& s =~= (prefix + e1 + seq![head.0, head.1] + e2) + tail
        }),
{
    let e1 = varint_encode(zigzag_encode32(item_id) as nat);
    let h = seq![head.0, head.1];
    let e2 = varint_encode(metadata as nat);
    let s = prefix + (e1 + h + e2 + tail);
    lemma_zigzag32_roundtrip(item_id, 0);
    assert(s =~= prefix + e1 + (h + e2 + tail));
    lemma_var_u32_roundtrip(zigzag_encode32(item_id), prefix, h + e2 + tail);
    let p2 = prefix + e1 + h;
    assert(s =~= p2 + e2 + tail);
    lemma_var_u32_roundtrip(metadata, p2, tail);
}

/// An air descriptor is its one zero byte.
#[verifier::spinoff_prover]
proof fn lemma_air_header_read(prefix: Seq<u8>, rest: Seq<u8>)
    ensures
        item_header_at(prefix + seq![0u8] + rest, prefix.len() as int) == Some(
            (0i32, None::<i32>, (prefix.len() + 1) as int),
        ),
{
    reveal(item_header_at);
    let air = prefix + seq![0u8] + rest;
    assert(varint_encode(zigzag_encode32(0i32) as nat) =~= seq![0u8]);
    assert(air =~= prefix + varint_encode(zigzag_encode32(0i32) as nat) + rest);
    lemma_var_u32_roundtrip(zigzag_encode32(0i32), prefix, rest);
}

/// Law: an item descriptor written with item id `item_id` and stack id
/// `stack_id` reads back as exactly those ids (both zigzag-decoded),
/// consuming the whole descriptor, whatever precedes or follows it; an air
/// descriptor (id 0) is its one zero byte.
#[verifier::spinoff_prover]
#[verifier::rlimit(50)]
pub proof fn lemma_item_header_read(
    item_id: i32,
    head: (u8, u8),
    metadata: u32,
    stack_id: Option<i32>,
    block_runtime_id: i32,
    extra: Seq<u8>,
    prefix: Seq<u8>,
    rest: Seq<u8>,
)
    requires
        item_id != 0,
        extra.len() <= u32::MAX,
    ensures
        item_header_at(
            prefix + item_wire(item_id, head, metadata, stack_id, block_runtime_id, extra) + rest,
            prefix.len() as int,
        ) == Some(
            (
                item_id,
                stack_id,
                (prefix.len() + item_wire(item_id, head, metadata, stack_id, block_runtime_id, extra).len()) as int,
            ),
        ),
        item_header_at(prefix + seq![0u8] + rest, prefix.len() as int) == Some(
            (0i32, None::<i32>, (prefix.len() + 1) as int),
        ),
{
    let e1 = varint_encode(zigzag_encode32(item_id) as nat);
    let h = seq![head.0, head.1];
    let e2 = varint_encode(metadata as nat);
    let st = match stack_id {
        Some(n) => seq![1u8] + varint_encode(zigzag_encode32(n) as nat),
        None => seq![0u8],
    };
    let e4 = varint_encode(zigzag_encode32(block_runtime_id) as nat);
    let e5 = varint_encode(extra.len());
    let tail = st + e4 + e5 + extra;
    let w = item_wire(item_id, head, metadata, stack_id, block_runtime_id, extra);
    assert(w =~= e1 + h + e2 + tail);
    let s = prefix + w + rest;
    assert(s =~= prefix + (e1 + h + e2 + (tail + rest)));
    lemma_item_head_fields(item_id, head, metadata, prefix, tail + rest);
    let pre = prefix + e1 + h + e2;
    assert(s =~= pre + tail + rest);
    lemma_item_tail_fields(stack_id, block_runtime_id, extra, pre, rest);
    assert(w.len() == e1.len() + 2 + e2.len() + tail.len());
    reveal(item_header_at);
    lemma_air_header_read(prefix, rest);
}


/// Reads an item header; on success the offset is past it, and it never
/// passes the end of the packet.
pub fn read_inventory_item_header(packet: &[u8], offset: &mut usize) -> (r: Option<ObservedInventoryItemHeader>)
    ensures
        match item_header_at(packet@, *old(offset) as int) {
            Some((item_id, stack_id, o)) => r == Some(ObservedInventoryItemHeader { item_id, stack_id })
                && *final(offset) == o && o <= packet@.len() && *old(offset) <= o,
            None => r is None,
        },
{
    reveal(item_header_at);
    let start: usize = *offset;
    let item_id: i32 = match read_var_u32(packet, offset) {
        Some(v) => zigzag_i32(v),
        None => return None,
    };
    if item_id == 0 {
        proof {
            lemma_varint_consumed_bound(packet@, start as int, 0, 5);
        }
        return Some(ObservedInventoryItemHeader { item_id, stack_id: None });
    }
    if !skip_bytes(packet, offset, 2) {
        return None;
    }
    match read_var_u32(packet, offset) {
        Some(_) => {},
        None => return None,
    }
    let has_stack_id: u8 = match read_u8(packet, offset) {
        Some(b) => b,
        None => return None,
    };
    let stack_id: Option<i32> = if has_stack_id != 0 {
        match read_var_u32(packet, offset) {
            Some(v) => Some(zigzag_i32(v)),
            None => return None,
        }
    } else {
        None
    };
    match read_var_u32(packet, offset) {
        Some(_) => {},
        None => return None,
    }
    let extra_len: u32 = match read_var_u32(packet, offset) {
        Some(v) => v,
        None => return None,
    };
    if !skip_bytes(packet, offset, extra_len as usize) {
        return None;
    }
    Some(ObservedInventoryItemHeader { item_id, stack_id })
}

/// Reads an item and keeps its bytes; container type and dynamic id are not yet known.
pub fn read_inventory_item(packet: &[u8], offset: &mut usize, container_id: u32, slot: u32) -> (r: Option<
    ObservedInventoryItem,
>)
    ensures
        match item_header_at(packet@, *old(offset) as int) {
            Some((item_id, stack_id, o)) => r matches Some(item) && item_view(item) == (
                container_id,
                slot,
                item_id,
                stack_id,
                None::<u8>,
                None::<u32>,
                packet@.subrange(*old(offset) as int, o),
            ) && *final(offset) == o,
            None => r is None,
        },
{
    let start: usize = *offset;
    let header: ObservedInventoryItemHeader = match read_inventory_item_header(packet, offset) {
        Some(h) => h,
        None => return None,
    };
    let bytes: &[u8] = vstd::slice::slice_subrange(packet, start, *offset);
    let mut item_bytes: Vec<u8> = Vec::new();
    item_bytes.extend_from_slice(bytes);
    Some(
        ObservedInventoryItem {
            container_id,
            slot,
            item_id: header.item_id,
            stack_id: header.stack_id,
            container_type: None,
            dynamic_container_id: None,
            item_bytes,
        },
    )
}

/// Skips an item, giving its id.
pub fn skip_inventory_item(packet: &[u8], offset: &mut usize) -> (r: Option<i32>)
    ensures
        match item_header_at(packet@, *old(offset) as int) {
            Some((item_id, _, o)) => r == Some(item_id) && *final(offset) == o,
            None => r is None,
        },
{
    match read_inventory_item_header(packet, offset) {
        Some(h) => Some(h.item_id),
        None => None,
    }
}

/// A full container name at `off`: the container type byte and, when the
/// flag byte after it is set, a little-endian dynamic container id.
pub open spec fn container_name_at(s: Seq<u8>, off: int) -> Option<(u8, Option<u32>, int)> {
    if !has_bytes(s, off, 2) {
        None
    } else if s[off + 1] != 0 {
        match le32(s, off + 2) {
            Some((id, o)) => Some((s[off], Some(id), o)),
            None => None,
        }
    } else {
        Some((s[off], None, off + 2))
    }
}

/// The container type and dynamic id of a full container name.
#[derive(Debug, Clone, Copy, PartialEq, Eq)]
pub struct ObservedFullContainerName {
    pub container_type: u8,
    pub dynamic_id: Option<u32>,
}

pub fn read_full_container_name(packet: &[u8], offset: &mut usize) -> (r: Option<ObservedFullContainerName>)
    ensures
        match container_name_at(packet@, *old(offset) as int) {
            Some((container_type, dynamic_id, o)) => r == Some(ObservedFullContainerName { container_type, dynamic_id })
                && *final(offset) == o,
            None => r is None,
        },
{
    let container_type: u8 = match read_u8(packet, offset) {
        Some(b) => b,
        None => return None,
    };
    let flag: bool = match read_trace_bool(packet, offset) {
        Ok(b) => b,
        Err(_) => return None,
    };
    let dynamic_id: Option<u32> = if flag {
        match read_le_u32(packet, offset) {
            Some(v) => Some(v),
            None => return None,
        }
    } else {
        None
    };
    Some(ObservedFullContainerName { container_type, dynamic_id })
}

/// The non-air items of slots `0..count` of window `window` read from `off`,
/// with the offset after the last one.
pub open spec fn inventory_slots_at(s: Seq<u8>, off: int, window: u32, count: nat) -> Option<(Seq<ItemView>, int)>
    decreases count,
{
    if count == 0 {
        Some((seq![], off))
    } else {
        match inventory_slots_at(s, off, window, (count - 1) as nat) {
            None => None,
            Some((items, o)) => match item_header_at(s, o) {
                None => None,
                Some((item_id, stack_id, o2)) => {
                    let kept = if item_id != 0 {
                        items.push(
                            (window, (count - 1) as u32, item_id, stack_id, None::<u8>, None::<u32>, s.subrange(o, o2)),
                        )
                    } else {
                        items
                    };
                    Some((kept, o2))
                },
            },
        }
    }
}

/// `items` with the container type and dynamic id set.
pub open spec fn with_container(items: Seq<ItemView>, container_type: u8, dynamic_id: Option<u32>) -> Seq<ItemView> {
    items.map_values(|it: ItemView| (it.0, it.1, it.2, it.3, Some(container_type), dynamic_id, it.6))
}

/// An InventoryContent observation: window id, a count of at most 512
/// items, the items (air left out), the full container name, which every
/// item takes, and a trailing storage item.
pub open spec fn inventory_content_at(s: Seq<u8>, off: int) -> Option<Seq<ItemView>> {
    match var32(s, off) {
        None => None,
        Some((window, o1)) => match var32(s, o1) {
            None => None,
            Some((count, o2)) => {
                if count > 512 {
                    None
                } else {
                    match inventory_slots_at(s, o2, window, count as nat) {
                        None => None,
                        Some((items, o3)) => match container_name_at(s, o3) {
                            None => None,
                            Some((container_type, dynamic_id, o4)) => match item_header_at(s, o4) {
                                None => None,
                                Some(_) => Some(with_container(items, container_type, dynamic_id)),
                            },
                        },
                    }
                }
            },
        },
    }
}

proof fn lemma_slots_missing_sticks(s: Seq<u8>, off: int, window: u32, k: nat, n: nat)
    requires
        k <= n,
        inventory_slots_at(s, off, window, k) is None,
    ensures
        inventory_slots_at(s, off, window, n) is None,
    decreases n - k,
{
    if k < n {
        lemma_slots_missing_sticks(s, off, window, k, (n - 1) as nat);
    }
}

/// A copy of an item with the container type and dynamic id set.
fn item_in_container(item: &ObservedInventoryItem, container_type: u8, dynamic_id: Option<u32>) -> (r: ObservedInventoryItem)
    ensures
        item_view(r) == (
            item.container_id,
            item.slot,
            item.item_id,
            item.stack_id,
            Some(container_type),
            dynamic_id,
            item.item_bytes@,
        ),
{
    let mut item_bytes: Vec<u8> = Vec::new();
    item_bytes.extend_from_slice(item.item_bytes.as_slice());
    ObservedInventoryItem {
        container_id: item.container_id,
        slot: item.slot,
        item_id: item.item_id,
        stack_id: item.stack_id,
        container_type: Some(container_type),
        dynamic_container_id: dynamic_id,
        item_bytes,
    }
}

/// The views of a list of items.
pub open spec fn items_view(items: Seq<ObservedInventoryItem>) -> Seq<ItemView> {
    items.map_values(|it: ObservedInventoryItem| item_view(it))
}

pub fn read_inventory_content(packet: &[u8], payload_offset: usize) -> (r: Option<Vec<ObservedInventoryItem>>)
    ensures
        match inventory_content_at(packet@, payload_offset as int) {
            Some(items) => r matches Some(v) && items_view(v@) == items,
            None => r is None,
        },
{
    let mut offset: usize = payload_offset;
    let window_id: u32 = match read_var_u32(packet, &mut offset) {
        Some(v) => v,
        None => return None,
    };
    let ghost o1 = offset as int;
    let count: u32 = match read_var_u32(packet, &mut offset) {
        Some(v) => v,
        None => return None,
    };
    if count > 512 {
        return None;
    }
    let ghost slots_start = offset as int;
    let mut items: Vec<ObservedInventoryItem> = Vec::new();
    let mut slot: u32 = 0;
    while slot < count
        invariant
            slot <= count,
            count <= 512,
            var32(packet@, payload_offset as int) == Some((window_id, o1)),
            var32(packet@, o1) == Some((count, slots_start)),
            inventory_slots_at(packet@, slots_start, window_id, slot as nat) == Some(
                (items_view(items@), offset as int),
            ),
        decreases count - slot,
    {
        let item: ObservedInventoryItem = match read_inventory_item(packet, &mut offset, window_id, slot) {
            Some(it) => it,
            None => {
                proof {
                    lemma_slots_missing_sticks(packet@, slots_start, window_id, (slot + 1) as nat, count as nat);
                }
                return None;
            },
        };
        let ghost before = items_view(items@);
        if item.item_id != 0 {
            items.push(item);
            assert(items_view(items@) =~= before.push(item_view(item)));
        }
        slot = slot + 1;
    }
    let name: ObservedFullContainerName = match read_full_container_name(packet, &mut offset) {
        Some(n) => n,
        None => return None,
    };
    let mut named: Vec<ObservedInventoryItem> = Vec::new();
    let mut i: usize = 0;
    while i < items.len()
        invariant
            i <= items@.len(),
            items_view(named@) == with_container(items_view(items@).subrange(0, i as int), name.container_type, name.dynamic_id),
        decreases items@.len() - i,
    {
        let it: ObservedInventoryItem = item_in_container(&items[i], name.container_type, name.dynamic_id);
        let ghost before = items_view(named@);
        assert(items_view(items@)[i as int] == item_view(items@[i as int]));
        named.push(it);
        assert(items_view(named@) =~= before.push(item_view(it)));
        i = i + 1;
        assert(items_view(named@) =~= with_container(items_view(items@).subrange(0, i as int), name.container_type, name.dynamic_id));
    }
    assert(items_view(items@).subrange(0, i as int) =~= items_view(items@));
    match skip_inventory_item(packet, &mut offset) {
        Some(_) => {},
        None => return None,
    }
    Some(named)
}

/// An InventorySlot observation: window id, slot, full container name, a
/// storage item, then the item itself, which takes the container name; air
/// gives no item.
pub open spec fn inventory_slot_at(s: Seq<u8>, off: int) -> Option<Option<ItemView>> {
    match var32(s, off) {
        None => None,
        Some((window, o1)) => match var32(s, o1) {
            None => None,
            Some((slot, o2)) => match container_name_at(s, o2) {
                None => None,
                Some((container_type, dynamic_id, o3)) => match item_header_at(s, o3) {
                    None => None,
                    Some((_, _, o4)) => match item_header_at(s, o4) {
                        None => None,
                        Some((item_id, stack_id, o5)) => Some(
                            if item_id != 0 {
                                Some((window, slot, item_id, stack_id, Some(container_type), dynamic_id, s.subrange(o4, o5)))
                            } else {
                                None
                            },
                        ),
                    },
                },
            },
        },
    }
}

pub fn read_inventory_slot(packet: &[u8], payload_offset: usize) -> (r: Option<Option<ObservedInventoryItem>>)
    ensures
        match inventory_slot_at(packet@, payload_offset as int) {
            Some(Some(view)) => r matches Some(Some(item)) && item_view(item) == view,
            Some(None) => r == Some(None::<ObservedInventoryItem>),
            None => r is None,
        },
{
    let mut offset: usize = payload_offset;
    let window_id: u32 = match read_var_u32(packet, &mut offset) {
        Some(v) => v,
        None => return None,
    };
    let slot: u32 = match read_var_u32(packet, &mut offset) {
        Some(v) => v,
        None => return None,
    };
    let name: ObservedFullContainerName = match read_full_container_name(packet, &mut offset) {
        Some(n) => n,
        None => return None,
    };
    match skip_inventory_item(packet, &mut offset) {
        Some(_) => {},
        None => return None,
    }
    let item: ObservedInventoryItem = match read_inventory_item(packet, &mut offset, window_id, slot) {
        Some(it) => it,
        None => return None,
    };
    if item.item_id != 0 {
        Some(Some(item_in_container(&item, name.container_type, name.dynamic_id)))
    } else {
        Some(None)
    }
}

/// The stack responses of an ItemStackResponse at `off`, reading at most
/// `remaining` of them and stopping after the first success, which records
/// how many bytes follow it.
pub open spec fn responses_at(s: Seq<u8>, off: int, remaining: nat) -> Option<Seq<ObservedItemStackResponse>>
    decreases remaining,
{
    if remaining == 0 {
        Some(seq![])
    } else if !(0 <= off < s.len()) {
        None
    } else {
        let result = s[off];
        match var32(s, off + 1) {
            None => None,
            Some((raw, o)) => {
                let response = ObservedItemStackResponse {
                    result,
                    result_name: item_stack_result_name(result),
                    raw_client_request_id: raw,
                    client_request_id: zigzag_decode32(raw),
                    trailing_bytes: if result == 0 {
                        (if o <= s.len() { s.len() - o } else { 0 }) as usize
                    } else {
                        0
                    },
                };
                if result == 0 {
                    Some(seq![response])
                } else {
                    match responses_at(s, o, (remaining - 1) as nat) {
                        None => None,
                        Some(rest) => Some(seq![response] + rest),
                    }
                }
            },
        }
    }
}

/// An ItemStackResponse observation: a varint count, then the responses.
pub open spec fn item_stack_response_at(s: Seq<u8>, off: int) -> Option<Seq<ObservedItemStackResponse>> {
    match var32(s, off) {
        None => None,
        Some((count, o)) => responses_at(s, o, count as nat),
    }
}

/// `rest` behind `prefix`, when there is a rest.
pub open spec fn after_prefix(
    prefix: Seq<ObservedItemStackResponse>,
    rest: Option<Seq<ObservedItemStackResponse>>,
) -> Option<Seq<ObservedItemStackResponse>> {
    match rest {
        Some(r) => Some(prefix + r),
        None => None,
    }
}

pub fn read_item_stack_response(packet: &[u8], payload_offset: usize) -> (r: Option<Vec<ObservedItemStackResponse>>)
    ensures
        match item_stack_response_at(packet@, payload_offset as int) {
            Some(responses) => r matches Some(v) && v@ == responses,
            None => r is None,
        },
{
    let mut offset: usize = payload_offset;
    let count: u32 = match read_var_u32(packet, &mut offset) {
        Some(v) => v,
        None => return None,
    };
    let ghost total = responses_at(packet@, offset as int, count as nat);
    let mut responses: Vec<ObservedItemStackResponse> = Vec::new();
    let mut k: u32 = 0;
    while k < count
        invariant
            k <= count,
            total == item_stack_response_at(packet@, payload_offset as int),
            total == after_prefix(responses@, responses_at(packet@, offset as int, (count - k) as nat)),
        decreases count - k,
    {
        let result: u8 = match read_u8(packet, &mut offset) {
            Some(b) => b,
            None => return None,
        };
        let raw: u32 = match read_var_u32(packet, &mut offset) {
            Some(v) => v,
            None => return None,
        };
        let trailing_bytes: usize = if result == 0 {
            if offset <= packet.len() {
                packet.len() - offset
            } else {
                0
            }
        } else {
            0
        };
        let response = ObservedItemStackResponse {
            result,
            result_name: item_stack_response_result_name(result),
            raw_client_request_id: raw,
            client_request_id: zigzag_i32(raw),
            trailing_bytes,
        };
        let ghost before = responses@;
        responses.push(response);
        if result == 0 {
            assert(responses@ =~= before + seq![response]);
            return Some(responses);
        }
        k = k + 1;
        proof {
            match responses_at(packet@, offset as int, (count - k) as nat) {
                Some(rest) => {
                    assert(before + (seq![response] + rest) =~= responses@ + rest);
                },
                None => {},
            }
        }
    }
    assert(responses@ + seq![] =~= responses@);
    Some(responses)
}

/// Three little-endian 32-bit words at `off` (an `f32` vector's bits).
pub open spec fn vec3_bits_at(s: Seq<u8>, off: int) -> Option<(Vec3Bits, int)> {
    match le32(s, off) {
        None => None,
        Some((x, o1)) => match le32(s, o1) {
            None => None,
            Some((y, o2)) => match le32(s, o2) {
                None => None,
                Some((z, o3)) => Some((Vec3Bits { x, y, z }, o3)),
            },
        },
    }
}

pub fn read_vec3_bits(packet: &[u8], offset: &mut usize) -> (r: Option<Vec3Bits>)
    ensures
        match vec3_bits_at(packet@, *old(offset) as int) {
            Some((v, o)) => r == Some(v) && *final(offset) == o,
            None => r is None,
        },
{
    let x: u32 = match read_le_u32(packet, offset) {
        Some(v) => v,
        None => return None,
    };
    let y: u32 = match read_le_u32(packet, offset) {
        Some(v) => v,
        None => return None,
    };
    let z: u32 = match read_le_u32(packet, offset) {
        Some(v) => v,
        None => return None,
    };
    Some(Vec3Bits { x, y, z })
}

/// An AddItemEntity observation: zigzag entity id, runtime id, the item
/// (with its bytes), position and velocity.
pub open spec fn add_item_entity_at(s: Seq<u8>, off: int) -> Option<(i64, u64, i32, Option<i32>, Vec3Bits, Vec3Bits, Seq<u8>)> {
    match zz64(s, off) {
        None => None,
        Some((entity_id, o1)) => match var64(s, o1) {
            None => None,
            Some((runtime_entity_id, o2)) => match item_header_at(s, o2) {
                None => None,
                Some((item_id, stack_id, o3)) => match vec3_bits_at(s, o3) {
                    None => None,
                    Some((position, o4)) => match vec3_bits_at(s, o4) {
                        None => None,
                        Some((velocity, _)) => Some(
                            (entity_id, runtime_entity_id, item_id, stack_id, position, velocity, s.subrange(o2, o3)),
                        ),
                    },
                },
            },
        },
    }
}

pub fn read_add_item_entity(packet: &[u8], payload_offset: usize) -> (r: Option<ObservedPacket>)
    ensures
        match add_item_entity_at(packet@, payload_offset as int) {
            Some((entity_id, runtime_entity_id, item_id, stack_id, position, velocity, bytes)) => r matches Some(
                ObservedPacket::AddItemEntity(e),
            ) && e.entity_id == entity_id && e.runtime_entity_id == runtime_entity_id && e.item_id == item_id
                && e.stack_id == stack_id && e.position == position && e.velocity == velocity && e.item_bytes@
                == bytes,
            None => r is None,
        },
{
    let mut offset: usize = payload_offset;
    let entity_id: i64 = match read_var_u64(packet, &mut offset) {
        Some(v) => zigzag_i64(v),
        None => return None,
    };
    let runtime_entity_id: u64 = match read_var_u64(packet, &mut offset) {
        Some(v) => v,
        None => return None,
    };
    let item_start: usize = offset;
    let header: ObservedInventoryItemHeader = match read_inventory_item_header(packet, &mut offset) {
        Some(h) => h,
        None => return None,
    };
    let bytes: &[u8] = vstd::slice::slice_subrange(packet, item_start, offset);
    let mut item_bytes: Vec<u8> = Vec::new();
    item_bytes.extend_from_slice(bytes);
    let position: Vec3Bits = match read_vec3_bits(packet, &mut offset) {
        Some(v) => v,
        None => return None,
    };
    let velocity: Vec3Bits = match read_vec3_bits(packet, &mut offset) {
        Some(v) => v,
        None => return None,
    };
    Some(
        ObservedPacket::AddItemEntity(
            ObservedItemEntity {
                entity_id,
                runtime_entity_id,
                item_id: header.item_id,
                stack_id: header.stack_id,
                position,
                velocity,
                item_bytes,
            },
        ),
    )
}

} // verus!
