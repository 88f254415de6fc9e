//! Walking a decompressed batch: splitting it into packets, counting them,
//! and turning each into the observation the bot acts on.

use vstd::prelude::*;
use crate::chat::{container_open_at, disconnect_at, opt_chars, read_container_open_observed, read_disconnect, read_text_observation, text_observation_at};
use crate::chunk::{level_chunk_at, read_level_chunk_observation};
use crate::inventory::{add_item_entity_at, inventory_content_at, inventory_slot_at, item_stack_response_at, item_view, items_view, read_add_item_entity, read_inventory_content, read_inventory_slot, read_item_stack_response};
use crate::names::{bedrock_packet_registry_name, registry_name};
use crate::observe::{chunk_publisher_at, latency_at, play_status_at, read_network_chunk_publisher_update, read_network_stack_latency, read_play_status, read_take_item_entity, read_update_block, take_item_entity_at, update_block_at, ObservedPacket};
use crate::start_game::{read_start_game_observation, start_game_at};
use crate::soft_enum::{soft_enum_at, SoftEnumError, TorchFlowerUpdateSoftEnumPacket};
use crate::varint::{lemma_var_u32_roundtrip, lemma_varint_u32_len, var_u32_at, varint_consumed, varint_encode};
use crate::packets::{framed_packet, latency_payload, NETWORK_STACK_LATENCY_PACKET_ID};
use crate::wire::{le_bytes, lemma_le_bytes_len, lemma_le_bytes_roundtrip, pow256, frame_bounds, frame_packet, lemma_varint_consumed_bound, packet_header_id, read_packet_summary, FrameError};

verus! {

/// The packets of a batch stream from `off` on, in order, up to the first
/// framing error, and that error if there is one.
pub open spec fn stream_split(s: Seq<u8>, off: int) -> (Seq<Seq<u8>>, Option<FrameError>)
    decreases s.len() - off,
{
    if off < 0 {
        (Seq::empty(), None)
    } else {
        match frame_bounds(s, off) {
            Err(e) => (Seq::empty(), Some(e)),
            Ok(None) => (Seq::empty(), None),
            Ok(Some((start, end))) => {
                let packet = s.subrange(start, end);
                if packet_header_id(packet) is None {
                    (Seq::empty(), Some(FrameError::PacketHeader))
                } else if end <= off || end > s.len() {
                    (Seq::empty(), None)
                } else {
                    let rest = stream_split(s, end);
                    (seq![packet] + rest.0, rest.1)
                }
            },
        }
    }
}

/// The packets of a whole batch stream, or its first framing error.
pub open spec fn stream_packets(s: Seq<u8>) -> Result<Seq<Seq<u8>>, FrameError> {
    match stream_split(s, 0) {
        (ps, None) => Ok(ps),
        (_, Some(e)) => Err(e),
    }
}

/// The id of a framed packet and where its payload starts.
pub open spec fn packet_id_of(packet: Seq<u8>) -> u32 {
    packet_header_id(packet).unwrap()
}

pub open spec fn payload_start(packet: Seq<u8>) -> int {
    varint_consumed(packet, 0, 5) as int
}

/// What the bot observes of one framed packet, by its id.
pub open spec fn observation_of(o: ObservedPacket, packet: Seq<u8>) -> bool {
    let id = packet_id_of(packet);
    let off = payload_start(packet);
    if id == 0x02 {
        o == ObservedPacket::PlayStatus(play_status_at(packet, off))
    } else if id == 0x05 {
        o matches ObservedPacket::Disconnect(d) && match disconnect_at(packet, off) {
            Some((reason, hide_reason, message, filtered)) => d matches Some(x) && x.reason == reason
                && x.hide_reason == hide_reason && opt_chars(x.message) == message && opt_chars(
                x.filtered_message,
            ) == filtered,
            None => d is None,
        }
    } else if id == 0x06 {
        o == ObservedPacket::ResourcePacksInfo
    } else if id == 0x07 {
        o == ObservedPacket::ResourcePackStack
    } else if id == 0x09 {
        o matches ObservedPacket::Text(t) && match text_observation_at(packet, off) {
            Some(strings) => t matches Some(x) && x.strings@.map_values(|s: String| s@) == strings,
            None => t is None,
        }
    } else if id == 0x0b {
        o == ObservedPacket::StartGame(start_game_at(packet, off))
    } else if id == 0x0f {
        match add_item_entity_at(packet, off) {
            Some((entity_id, runtime_entity_id, item_id, stack_id, position, velocity, bytes)) => o matches ObservedPacket::AddItemEntity(e)
                && e.entity_id == entity_id && e.runtime_entity_id == runtime_entity_id && e.item_id == item_id
                && e.stack_id == stack_id && e.position == position && e.velocity == velocity && e.item_bytes@
                == bytes,
            None => o == ObservedPacket::Other(id),
        }
    } else if id == 0x11 {
        match take_item_entity_at(packet, off) {
            Some((runtime_entity_id, target_runtime_entity_id)) => o == ObservedPacket::TakeItemEntity {
                runtime_entity_id,
                target_runtime_entity_id,
            },
            None => o == ObservedPacket::Other(id),
        }
    } else if id == 0x15 {
        match update_block_at(packet, off) {
            Some((x, y, z, runtime_id, flags, layer)) => o == ObservedPacket::UpdateBlock {
                x,
                y,
                z,
                runtime_id,
                flags,
                layer,
            },
            None => o == ObservedPacket::Other(id),
        }
    } else if id == 0x3a {
        match level_chunk_at(packet, off) {
            Some((chunk_x, chunk_z, dimension, samples)) => o matches ObservedPacket::LevelChunk {
                chunk_x: x,
                chunk_z: z,
                dimension: d,
                samples: v,
            } && x == chunk_x && z == chunk_z && d == dimension && v@ == samples,
            None => o == ObservedPacket::RegistryKnown(id),
        }
    } else if id == 0x31 {
        o matches ObservedPacket::InventoryContent { items } && match inventory_content_at(packet, off) {
            Some(view) => items_view(items@) == view,
            None => items@.len() == 0,
        }
    } else if id == 0x32 {
        o matches ObservedPacket::InventorySlot { item } && match inventory_slot_at(packet, off) {
            Some(Some(view)) => item matches Some(x) && item_view(x) == view,
            _ => item is None,
        }
    } else if id == 0x94 {
        o matches ObservedPacket::ItemStackResponse { responses } && match item_stack_response_at(packet, off) {
            Some(view) => responses@ == view,
            None => responses@.len() == 0,
        }
    } else if id == 0x2e {
        match container_open_at(packet, off) {
            Some((container_id, container_type)) => o == ObservedPacket::ContainerOpen {
                container_id,
                container_type,
            },
            None => o == ObservedPacket::Other(id),
        }
    } else if id == 0x64 {
        o == ObservedPacket::ModalFormRequest
    } else if id == 0x72 {
        o == ObservedPacket::UpdateSoftEnum
    } else if id == 0x73 {
        match latency_at(packet, off) {
            Some((timestamp, needs_response)) => o == ObservedPacket::NetworkStackLatency {
                timestamp,
                needs_response,
            },
            None => o == ObservedPacket::Other(id),
        }
    } else if id == 0x79 {
        match chunk_publisher_at(packet, off) {
            Some((x, y, z, radius)) => o == ObservedPacket::NetworkChunkPublisherUpdate { x, y, z, radius },
            None => o == ObservedPacket::RegistryKnown(id),
        }
    } else if registry_name(id) is Some {
        o == ObservedPacket::RegistryKnown(id)
    } else {
        o == ObservedPacket::Other(id)
    }
}

/// The observation of one packet whose header gave `packet_id`.
pub fn observe_packet(packet: &[u8], packet_id: u32, payload_offset: usize) -> (o: ObservedPacket)
    requires
        packet_header_id(packet@) == Some(packet_id),
        payload_offset == payload_start(packet@),
    ensures
        observation_of(o, packet@),
{
    if packet_id == 0x02 {
        ObservedPacket::PlayStatus(read_play_status(packet, payload_offset))
    } else if packet_id == 0x05 {
        ObservedPacket::Disconnect(read_disconnect(packet, payload_offset))
    } else if packet_id == 0x06 {
        ObservedPacket::ResourcePacksInfo
    } else if packet_id == 0x07 {
        ObservedPacket::ResourcePackStack
    } else if packet_id == 0x09 {
        ObservedPacket::Text(read_text_observation(packet, payload_offset))
    } else if packet_id == 0x0b {
        ObservedPacket::StartGame(read_start_game_observation(packet, payload_offset))
    } else if packet_id == 0x0f {
        match read_add_item_entity(packet, payload_offset) {
            Some(o) => o,
            None => ObservedPacket::Other(packet_id),
        }
    } else if packet_id == 0x11 {
        match read_take_item_entity(packet, payload_offset) {
            Some(o) => o,
            None => ObservedPacket::Other(packet_id),
        }
    } else if packet_id == 0x15 {
        match read_update_block(packet, payload_offset) {
            Some(o) => o,
            None => ObservedPacket::Other(packet_id),
        }
    } else if packet_id == 0x3a {
        match read_level_chunk_observation(packet, payload_offset) {
            Some(o) => o,
            None => ObservedPacket::RegistryKnown(packet_id),
        }
    } else if packet_id == 0x31 {
        ObservedPacket::InventoryContent {
            items: match read_inventory_content(packet, payload_offset) {
                Some(items) => items,
                None => Vec::new(),
            },
        }
    } else if packet_id == 0x32 {
        ObservedPacket::InventorySlot {
            item: match read_inventory_slot(packet, payload_offset) {
                Some(item) => item,
                None => None,
            },
        }
    } else if packet_id == 0x94 {
        ObservedPacket::ItemStackResponse {
            responses: match read_item_stack_response(packet, payload_offset) {
                Some(responses) => responses,
                None => Vec::new(),
            },
        }
    } else if packet_id == 0x2e {
        match read_container_open_observed(packet, payload_offset) {
            Some(o) => o,
            None => ObservedPacket::Other(packet_id),
        }
    } else if packet_id == 0x64 {
        ObservedPacket::ModalFormRequest
    } else if packet_id == 0x72 {
        ObservedPacket::UpdateSoftEnum
    } else if packet_id == 0x73 {
        match read_network_stack_latency(packet, payload_offset) {
            Some(o) => o,
            None => ObservedPacket::Other(packet_id),
        }
    } else if packet_id == 0x79 {
        match read_network_chunk_publisher_update(packet, payload_offset) {
            Some(o) => o,
            None => ObservedPacket::RegistryKnown(packet_id),
        }
    } else if bedrock_packet_registry_name(packet_id).is_some() {
        ObservedPacket::RegistryKnown(packet_id)
    } else {
        ObservedPacket::Other(packet_id)
    }
}

/// One packet of the stream: the stream from `off` is that packet followed
/// by the stream after it.
pub proof fn lemma_stream_step(s: Seq<u8>, off: int, start: int, end: int)
    requires
        0 <= off,
        frame_bounds(s, off) == Ok::<Option<(int, int)>, FrameError>(Some((start, end))),
        packet_header_id(s.subrange(start, end)) is Some,
    ensures
        off < end <= s.len(),
        stream_split(s, off).0 == seq![s.subrange(start, end)] + stream_split(s, end).0,
        stream_split(s, off).1 == stream_split(s, end).1,
{
    assert(off < s.len());
    lemma_varint_consumed_bound(s, off, 0, 5);
    assert(varint_consumed(s, off, 5) >= 1) by {
        reveal_with_fuel(crate::varint::varint_consumed_from, 2);
        if s[off] >= 128 {
            lemma_varint_consumed_bound(s, off, 1, 5);
        }
    }
}

/// Counts the packets of a batch stream.
pub fn count_packet_summaries(packet_stream: &[u8]) -> (r: Result<usize, FrameError>)
    ensures
        match stream_packets(packet_stream@) {
            Ok(ps) => r == Ok::<usize, FrameError>(ps.len() as usize),
            Err(e) => r == Err::<usize, FrameError>(e),
        },
{
    let mut offset: usize = 0;
    let mut count: usize = 0;
    let ghost mut seen: Seq<Seq<u8>> = Seq::empty();
    loop
        invariant
            offset <= packet_stream@.len(),
            count == seen.len(),
            count <= offset,
            stream_split(packet_stream@, 0).0 == seen + stream_split(packet_stream@, offset as int).0,
            stream_split(packet_stream@, 0).1 == stream_split(packet_stream@, offset as int).1,
        decreases packet_stream@.len() - offset,
    {
        let ghost before: int = offset as int;
        match read_packet_summary(packet_stream, &mut offset) {
            Err(e) => {
                return Err(e);
            },
            Ok(None) => {
                assert(seen + Seq::<Seq<u8>>::empty() =~= seen);
                return Ok(count);
            },
            Ok(Some(summary)) => {
                proof {
                    let (start, end) = frame_bounds(packet_stream@, before).unwrap().unwrap();
                    lemma_stream_step(packet_stream@, before, start, end);
                    assert(seen + (seq![packet_stream@.subrange(start, end)] + stream_split(packet_stream@, end).0)
                        =~= seen.push(packet_stream@.subrange(start, end)) + stream_split(packet_stream@, end).0);
                    seen = seen.push(packet_stream@.subrange(start, end));
                }
                count = count + 1;
            },
        }
    }
}

/// Splits a batch stream into packets and observes each, in order.
pub fn observe_packet_ids(packet_stream: &[u8]) -> (r: Result<Vec<ObservedPacket>, FrameError>)
    ensures
        match stream_packets(packet_stream@) {
            Ok(ps) => r matches Ok(v) && v@.len() == ps.len() && forall|i: int|
                0 <= i < ps.len() ==> #[trigger] observation_of(v@[i], ps[i]),
            Err(e) => r == Err::<Vec<ObservedPacket>, FrameError>(e),
        },
{
    let mut offset: usize = 0;
    let mut observed: Vec<ObservedPacket> = Vec::new();
    let ghost mut seen: Seq<Seq<u8>> = Seq::empty();
    loop
        invariant
            offset <= packet_stream@.len(),
            observed@.len() == seen.len(),
            forall|i: int| 0 <= i < seen.len() ==> #[trigger] observation_of(observed@[i], seen[i]),
            stream_split(packet_stream@, 0).0 == seen + stream_split(packet_stream@, offset as int).0,
            stream_split(packet_stream@, 0).1 == stream_split(packet_stream@, offset as int).1,
        decreases packet_stream@.len() - offset,
    {
        let ghost before: int = offset as int;
        match read_packet_summary(packet_stream, &mut offset) {
            Err(e) => {
                return Err(e);
            },
            Ok(None) => {
                assert(seen + Seq::<Seq<u8>>::empty() =~= seen);
                return Ok(observed);
            },
            Ok(Some(summary)) => {
                let ghost (start, end) = frame_bounds(packet_stream@, before).unwrap().unwrap();
                proof {
                    lemma_stream_step(packet_stream@, before, start, end);
                    assert(seen + (seq![packet_stream@.subrange(start, end)] + stream_split(packet_stream@, end).0)
                        =~= seen.push(packet_stream@.subrange(start, end)) + stream_split(packet_stream@, end).0);
                }
                let o = observe_packet(summary.packet, summary.packet_id, summary.payload_offset);
                observed.push(o);
                proof {
                    seen = seen.push(packet_stream@.subrange(start, end));
                }
            },
        }
    }
}


/// Why a batch could not be taken apart.
#[derive(Debug, Clone, PartialEq, Eq)]
pub enum BatchError {
    Frame(FrameError),
    SoftEnum(SoftEnumError),
}

/// The packets other than UpdateSoftEnum, re-framed in order, and the number
/// of UpdateSoftEnum packets decoded locally; or the first of those that
/// does not decode.
pub open spec fn filter_packets(ps: Seq<Seq<u8>>) -> Result<(Seq<u8>, nat), SoftEnumError>
    decreases ps.len(),
{
    if ps.len() == 0 {
        Ok((Seq::empty(), 0))
    } else {
        match filter_packets(ps.drop_last()) {
            Err(e) => Err(e),
            Ok((bytes, n)) => {
                let p = ps.last();
                if packet_id_of(p) == 0x72 {
                    match soft_enum_at(p, payload_start(p)) {
                        Ok(_) => Ok((bytes, n + 1)),
                        Err(e) => Err(e),
                    }
                } else {
                    Ok((bytes + varint_encode(p.len()) + p, n))
                }
            },
        }
    }
}

/// A failed prefix fails the whole sequence the same way.
pub proof fn lemma_filter_prefix_err(a: Seq<Seq<u8>>, b: Seq<Seq<u8>>)
    requires
        filter_packets(a) is Err,
    ensures
        filter_packets(a + b) == filter_packets(a),
    decreases b.len(),
{
    if b.len() == 0 {
        assert(a + b =~= a);
    } else {
        lemma_filter_prefix_err(a, b.drop_last());
        assert((a + b).drop_last() =~= a + b.drop_last());
    }
}

/// Takes the UpdateSoftEnum packets out of a batch, decoding each locally:
/// the rest of the batch re-framed, and one observation per packet taken out.
pub fn filter_locally_decoded_packets(packet_stream: &[u8]) -> (r: Result<(Vec<u8>, Vec<ObservedPacket>), BatchError>)
    ensures
        match filter_packets(stream_split(packet_stream@, 0).0) {
            Err(e) => r == Err::<(Vec<u8>, Vec<ObservedPacket>), BatchError>(BatchError::SoftEnum(e)),
            Ok((bytes, n)) => match stream_split(packet_stream@, 0).1 {
                Some(e) => r == Err::<(Vec<u8>, Vec<ObservedPacket>), BatchError>(BatchError::Frame(e)),
                None => r matches Ok((filtered, observed)) && filtered@ == bytes && observed@.len() == n
                    && forall|i: int| 0 <= i < n ==> #[trigger] observed@[i] == ObservedPacket::UpdateSoftEnum,
            },
        },
{
    let mut offset: usize = 0;
    let mut filtered: Vec<u8> = Vec::new();
    let mut observed: Vec<ObservedPacket> = Vec::new();
    let ghost mut seen: Seq<Seq<u8>> = Seq::empty();
    loop
        invariant
            offset <= packet_stream@.len(),
            filter_packets(seen) == Ok::<(Seq<u8>, nat), SoftEnumError>((filtered@, observed@.len())),
            forall|i: int| 0 <= i < observed@.len() ==> #[trigger] observed@[i] == ObservedPacket::UpdateSoftEnum,
            stream_split(packet_stream@, 0).0 == seen + stream_split(packet_stream@, offset as int).0,
            stream_split(packet_stream@, 0).1 == stream_split(packet_stream@, offset as int).1,
        decreases packet_stream@.len() - offset,
    {
        let ghost before: int = offset as int;
        match read_packet_summary(packet_stream, &mut offset) {
            Err(e) => {
                return Err(BatchError::Frame(e));
            },
            Ok(None) => {
                assert(seen + Seq::<Seq<u8>>::empty() =~= seen);
                return Ok((filtered, observed));
            },
            Ok(Some(summary)) => {
                let ghost (start, end) = frame_bounds(packet_stream@, before).unwrap().unwrap();
                let ghost packet = packet_stream@.subrange(start, end);
                proof {
                    lemma_stream_step(packet_stream@, before, start, end);
                    assert(seen + (seq![packet] + stream_split(packet_stream@, end).0) =~= seen.push(packet)
                        + stream_split(packet_stream@, end).0);
                    assert(seen.push(packet).drop_last() =~= seen);
                }
                if summary.packet_id == 0x72 {
                    match TorchFlowerUpdateSoftEnumPacket::deserialize(summary.packet, summary.payload_offset) {
                        Ok(_) => {},
                        Err(e) => {
                            proof {
                                lemma_filter_prefix_err(seen.push(packet), stream_split(packet_stream@, end).0);
                            }
                            return Err(BatchError::SoftEnum(e));
                        },
                    }
                    observed.push(ObservedPacket::UpdateSoftEnum);
                } else {
                    let ghost mid = filtered@;
                    frame_packet(summary.packet, &mut filtered);
                    assert(filtered@ =~= mid + varint_encode(packet.len()) + packet);
                }
                proof {
                    seen = seen.push(packet);
                }
            },
        }
    }
}

/// The local observations followed by the keep-alive requests among the raw ones.
pub open spec fn keepalives_after(raw: Seq<ObservedPacket>, local: Seq<ObservedPacket>) -> Seq<ObservedPacket> {
    local + raw.filter(is_keepalive())
}

/// Keep-alive requests: the NetworkStackLatency observations.
pub open spec fn is_keepalive() -> spec_fn(ObservedPacket) -> bool {
    |p: ObservedPacket| p is NetworkStackLatency
}

/// Appends the NetworkStackLatency observations of `raw_observed`, in order,
/// to `locally_observed`.
pub fn merge_locally_observed_with_raw_keepalives(raw_observed: Vec<ObservedPacket>, locally_observed: Vec<ObservedPacket>) -> (r: Vec<ObservedPacket>)
    ensures
        r@ == keepalives_after(raw_observed@, locally_observed@),
{
    let mut merged = locally_observed;
    let mut i: usize = 0;
    while i < raw_observed.len()
        invariant
            i <= raw_observed@.len(),
            merged@ == locally_observed@ + raw_observed@.subrange(0, i as int).filter(is_keepalive()),
        decreases raw_observed@.len() - i,
    {
        proof {
            assert(raw_observed@.subrange(0, i + 1) =~= raw_observed@.subrange(0, i as int).push(raw_observed@[i as int]));
            raw_observed@.subrange(0, i as int).lemma_filter_push(raw_observed@[i as int], is_keepalive());
        }
        match &raw_observed[i] {
            ObservedPacket::NetworkStackLatency { timestamp, needs_response } => {
                merged.push(ObservedPacket::NetworkStackLatency { timestamp: *timestamp, needs_response: *needs_response });
            },
            _ => {},
        }
        i = i + 1;
    }
    assert(raw_observed@.subrange(0, raw_observed@.len() as int) =~= raw_observed@);
    merged
}


/// The packets framed one after another, each behind its varint length.
pub open spec fn framed_stream(ps: Seq<Seq<u8>>) -> Seq<u8>
    decreases ps.len(),
{
    if ps.len() == 0 {
        Seq::empty()
    } else {
        varint_encode(ps[0].len()) + ps[0] + framed_stream(ps.drop_first())
    }
}

/// A packet a batch can carry: a readable header and a length that fits the
/// 32-bit length prefix.
pub open spec fn frameable(p: Seq<u8>) -> bool {
    packet_header_id(p) is Some && p.len() <= u32::MAX
}

proof fn lemma_framed_stream_push(ps: Seq<Seq<u8>>, x: Seq<u8>)
    ensures
        framed_stream(ps.push(x)) == framed_stream(ps) + varint_encode(x.len()) + x,
    decreases ps.len(),
{
    if ps.len() == 0 {
        assert(ps.push(x).drop_first() =~= Seq::<Seq<u8>>::empty());
        assert(ps.push(x)[0] == x);
        assert(framed_stream(Seq::<Seq<u8>>::empty()) == Seq::<u8>::empty());
        assert(framed_stream(ps.push(x)) =~= varint_encode(x.len()) + x);
    } else {
        lemma_framed_stream_push(ps.drop_first(), x);
        assert(ps.push(x).drop_first() =~= ps.drop_first().push(x));
        assert(framed_stream(ps.push(x)) =~= framed_stream(ps) + varint_encode(x.len()) + x);
    }
}

proof fn lemma_framed_split_from(ps: Seq<Seq<u8>>, prefix: Seq<u8>)
    requires
        forall|i: int| 0 <= i < ps.len() ==> frameable(#[trigger] ps[i]),
    ensures
        stream_split(prefix + framed_stream(ps), prefix.len() as int) == (ps, None::<FrameError>),
    decreases ps.len(),
{
    let s = prefix + framed_stream(ps);
    let off = prefix.len() as int;
    if ps.len() == 0 {
        assert(s =~= prefix);
        assert(ps =~= Seq::<Seq<u8>>::empty());
    } else {
        let p = ps[0];
        assert(frameable(p));
        let rest = ps.drop_first();
        let e = varint_encode(p.len());
        let tail = p + framed_stream(rest);
        assert(s =~= prefix + e + tail);
        lemma_var_u32_roundtrip(p.len() as u32, prefix, tail);
        lemma_varint_u32_len(p.len() as u32);
        let start = off + e.len();
        let end = start + p.len();
        assert(s.subrange(start, end) =~= p);
        assert(frame_bounds(s, off) == Ok::<Option<(int, int)>, FrameError>(Some((start, end))));
        let prefix2 = prefix + e + p;
        assert(s =~= prefix2 + framed_stream(rest));
        assert forall|i: int| 0 <= i < rest.len() implies frameable(#[trigger] rest[i]) by {
            assert(rest[i] == ps[i + 1]);
        }
        lemma_framed_split_from(rest, prefix2);
        assert(prefix2.len() == end);
        assert(seq![p] + rest =~= ps);
    }
}

/// Law: a batch built by framing packets, each behind its length, splits
/// back into exactly those packets, with no framing error.
pub proof fn lemma_framed_stream_splits(ps: Seq<Seq<u8>>)
    requires
        forall|i: int| 0 <= i < ps.len() ==> frameable(#[trigger] ps[i]),
    ensures
        stream_split(framed_stream(ps), 0) == (ps, None::<FrameError>),
        stream_packets(framed_stream(ps)) == Ok::<Seq<Seq<u8>>, FrameError>(ps),
{
    lemma_framed_split_from(ps, Seq::empty());
    assert(Seq::<u8>::empty() + framed_stream(ps) =~= framed_stream(ps));
}

/// Every packet a split yields is one a batch can carry.
proof fn lemma_split_packets_frameable(s: Seq<u8>, off: int)
    ensures
        forall|i: int| 0 <= i < stream_split(s, off).0.len() ==> frameable(#[trigger] stream_split(s, off).0[i]),
    decreases s.len() - off,
{
    if off >= 0 {
        match frame_bounds(s, off) {
            Ok(Some((start, end))) => {
                let packet = s.subrange(start, end);
                if packet_header_id(packet) is Some && end > off && end <= s.len() {
                    lemma_split_packets_frameable(s, end);
                    let rest = stream_split(s, end).0;
                    assert(end - start <= u32::MAX);
                    assert forall|i: int| 0 <= i < stream_split(s, off).0.len() implies frameable(#[trigger] stream_split(s, off).0[i]) by {
                        if i > 0 {
                            assert(stream_split(s, off).0[i] == rest[i - 1]);
                        }
                    }
                }
            },
            _ => {},
        }
    }
}

/// The packets other than UpdateSoftEnum.
pub open spec fn kept_packet() -> spec_fn(Seq<u8>) -> bool {
    |p: Seq<u8>| packet_id_of(p) != 0x72
}

/// The UpdateSoftEnum packets.
pub open spec fn soft_enum_packet() -> spec_fn(Seq<u8>) -> bool {
    |p: Seq<u8>| packet_id_of(p) == 0x72
}

proof fn lemma_filter_packets_shape(ps: Seq<Seq<u8>>)
    requires
        filter_packets(ps) is Ok,
    ensures
        filter_packets(ps).unwrap().0 == framed_stream(ps.filter(kept_packet())),
        filter_packets(ps).unwrap().1 == ps.filter(soft_enum_packet()).len(),
    decreases ps.len(),
{
    reveal(Seq::filter);
    if ps.len() > 0 {
        lemma_filter_packets_shape(ps.drop_last());
        let x = ps.last();
        if packet_id_of(x) != 0x72 {
            lemma_framed_stream_push(ps.drop_last().filter(kept_packet()), x);
        }
    }
}

/// Law: taking the UpdateSoftEnum packets out of a batch leaves a batch that
/// splits into the other packets, in their order, with one local
/// observation per packet taken out.
pub proof fn lemma_filtered_batch_keeps_other_packets(s: Seq<u8>)
    requires
        stream_packets(s) is Ok,
        filter_packets(stream_split(s, 0).0) is Ok,
    ensures
        stream_packets(filter_packets(stream_split(s, 0).0).unwrap().0) == Ok::<Seq<Seq<u8>>, FrameError>(
            stream_split(s, 0).0.filter(kept_packet()),
        ),
        filter_packets(stream_split(s, 0).0).unwrap().1 == stream_split(s, 0).0.filter(soft_enum_packet()).len(),
{
    let ps = stream_split(s, 0).0;
    lemma_filter_packets_shape(ps);
    lemma_split_packets_frameable(s, 0);
    let kept = ps.filter(kept_packet());
    assert forall|i: int| 0 <= i < kept.len() implies frameable(#[trigger] kept[i]) by {
        assert(kept.contains(kept[i]));
        ps.lemma_filter_contains_rev(kept_packet(), kept[i]);
        let j = choose|j: int| 0 <= j < ps.len() && ps[j] == kept[i];
        assert(frameable(ps[j]));
    }
    lemma_framed_stream_splits(kept);
}


/// The batch holds one packet, and `expected` is exactly what is observed of it.
pub open spec fn observed_as_one(r: Result<Seq<Seq<u8>>, FrameError>, expected: ObservedPacket) -> bool {
    &&& r is Ok
    &&& r.unwrap().len() == 1
    &&& forall|o: ObservedPacket| #[trigger] observation_of(o, r.unwrap()[0]) <==> o == expected
}

/// The one packet of an encoded NetworkStackLatency batch, with its id,
/// payload start and latency fields.
proof fn lemma_latency_packet_shape(timestamp: u64, needs_response: bool) -> (packet: Seq<u8>)
    ensures
        stream_packets(framed_packet(NETWORK_STACK_LATENCY_PACKET_ID, latency_payload(timestamp, needs_response)))
            == Ok::<Seq<Seq<u8>>, FrameError>(seq![packet]),
        packet_id_of(packet) == NETWORK_STACK_LATENCY_PACKET_ID,
        payload_start(packet) == 1,
        latency_at(packet, 1) == Some((timestamp, needs_response)),
{
    let payload = latency_payload(timestamp, needs_response);
    let id_bytes = varint_encode(NETWORK_STACK_LATENCY_PACKET_ID as nat);
    let packet = id_bytes + payload;
    lemma_var_u32_roundtrip(NETWORK_STACK_LATENCY_PACKET_ID, Seq::empty(), payload);
    assert(Seq::<u8>::empty() + id_bytes + payload =~= packet);
    lemma_varint_u32_len(NETWORK_STACK_LATENCY_PACKET_ID);
    lemma_le_bytes_len(timestamp as nat, 8);
    assert(id_bytes.len() == 1) by {
        reveal_with_fuel(varint_encode, 2);
    }
    let ps = seq![packet];
    assert(frameable(ps[0]));
    lemma_framed_stream_splits(ps);
    assert(framed_stream(ps) =~= framed_packet(NETWORK_STACK_LATENCY_PACKET_ID, payload)) by {
        assert(ps.drop_first() =~= Seq::<Seq<u8>>::empty());
        assert(framed_stream(Seq::<Seq<u8>>::empty()) == Seq::<u8>::empty());
    }
    let flag = seq![if needs_response { 1u8 } else { 0u8 }];
    assert(packet =~= id_bytes + le_bytes(timestamp as nat, 8) + flag);
    lemma_le_bytes_roundtrip(timestamp as nat, 8, id_bytes, flag);
    assert(pow256(8) == 0x1_0000_0000_0000_0000) by {
        reveal_with_fuel(pow256, 9);
    }
    assert(packet[9] == flag[0]);
    packet
}

/// Law: a NetworkStackLatency packet the client encodes is observed back,
/// as the one packet of its batch, with the same timestamp and flag.
#[verifier::spinoff_prover]
pub proof fn lemma_latency_packet_observed(timestamp: u64, needs_response: bool)
    ensures
        observed_as_one(
            stream_packets(framed_packet(NETWORK_STACK_LATENCY_PACKET_ID, latency_payload(timestamp, needs_response))),
            (ObservedPacket::NetworkStackLatency { timestamp, needs_response }),
        ),
{
    let packet = lemma_latency_packet_shape(timestamp, needs_response);
    let expected = ObservedPacket::NetworkStackLatency { timestamp, needs_response };
    assert forall|o: ObservedPacket| #[trigger] observation_of(o, packet) <==> o == expected by {
        assert(packet_id_of(packet) == 0x73);
    }
    assert(seq![packet][0] == packet);
}

} // verus!
