//! Encoders for the raw packets this client writes itself, and small packet readers.

use vstd::prelude::*;
use crate::varint::{lemma_varint_u32_len, varint_encode, write_unsigned_varint_u32};
use crate::wire::{frame_packet, le_bytes, lemma_le_bytes_len, push_le_u64};

verus! {

pub const NETWORK_STACK_LATENCY_PACKET_ID: u32 = 0x73;
pub const NETWORK_STACK_LATENCY_MAGNITUDE: u64 = 1_000_000;
pub const COMMAND_REQUEST_PACKET_ID: u32 = 0x4d;
pub const TICK_SYNC_PACKET_ID: u32 = 0x17;
pub const CONTAINER_CLOSE_PACKET_ID: u32 = 0x2f;

/// The batch stream that holds one packet with the given id and payload.
pub open spec fn framed_packet(packet_id: u32, payload: Seq<u8>) -> Seq<u8> {
    let packet = varint_encode(packet_id as nat) + payload;
    varint_encode(packet.len()) + packet
}

/// Payload of a NetworkStackLatency packet: the timestamp as eight
/// little-endian bytes, then the needs-response flag.
pub open spec fn latency_payload(timestamp: u64, needs_response: bool) -> Seq<u8> {
    le_bytes(timestamp as nat, 8) + seq![if needs_response { 1u8 } else { 0u8 }]
}

pub fn encode_network_stack_latency_payload(timestamp: u64, needs_response: bool) -> (payload: Vec<u8>)
    ensures
        payload@ == latency_payload(timestamp, needs_response),
{
    let mut payload: Vec<u8> = Vec::with_capacity(9);
    push_le_u64(&mut payload, timestamp);
    payload.push(if needs_response { 1u8 } else { 0u8 });
    assert(payload@ =~= latency_payload(timestamp, needs_response));
    payload
}

/// A batch stream holding one NetworkStackLatency packet.
pub fn encode_network_stack_latency_packet_stream(timestamp: u64, needs_response: bool) -> (stream: Vec<u8>)
    ensures
        stream@ == framed_packet(NETWORK_STACK_LATENCY_PACKET_ID, latency_payload(timestamp, needs_response)),
{
    let mut packet: Vec<u8> = Vec::with_capacity(10);
    write_unsigned_varint_u32(NETWORK_STACK_LATENCY_PACKET_ID, &mut packet);
    let payload: Vec<u8> = encode_network_stack_latency_payload(timestamp, needs_response);
    packet.extend_from_slice(payload.as_slice());
    proof {
        lemma_varint_u32_len(NETWORK_STACK_LATENCY_PACKET_ID);
        lemma_le_bytes_len(timestamp as nat, 8);
        assert(packet@ =~= varint_encode(NETWORK_STACK_LATENCY_PACKET_ID as nat) + latency_payload(timestamp, needs_response));
    }
    let mut stream: Vec<u8> = Vec::new();
    frame_packet(packet.as_slice(), &mut stream);
    assert(stream@ =~= framed_packet(NETWORK_STACK_LATENCY_PACKET_ID, latency_payload(timestamp, needs_response)));
    stream
}

/// The timestamp the client answers a latency probe with: the probe's
/// timestamp times one million, wrapping at 2^64.
pub fn network_stack_latency_response_timestamp(timestamp: u64) -> (r: u64)
    ensures
        r == (timestamp as nat * NETWORK_STACK_LATENCY_MAGNITUDE as nat) % 0x1_0000_0000_0000_0000,
{
    scale_latency_timestamp_for_donut(timestamp)
}

pub fn scale_latency_timestamp_for_donut(timestamp: u64) -> (r: u64)
    ensures
        r == (timestamp as nat * NETWORK_STACK_LATENCY_MAGNITUDE as nat) % 0x1_0000_0000_0000_0000,
{
    timestamp.wrapping_mul(NETWORK_STACK_LATENCY_MAGNITUDE)
}


/// A string on the wire: its UTF-8 byte length as a varint, then the bytes.
pub open spec fn wire_string(value: Seq<char>) -> Seq<u8> {
    varint_encode((vstd::utf8::encode_utf8(value).len() as u32) as nat) + vstd::utf8::encode_utf8(value)
}

/// UTF-8 takes at most four bytes per character.
proof fn lemma_utf8_len_bound(chars: Seq<char>)
    ensures
        vstd::utf8::encode_utf8(chars).len() <= 4 * chars.len(),
    decreases chars.len(),
{
    if chars.len() > 0 {
        lemma_utf8_len_bound(chars.drop_first());
    }
}

/// Appends a varint-length-prefixed UTF-8 string.
pub fn write_string_local(value: &str, out: &mut Vec<u8>)
    ensures
        final(out)@ == old(out)@ + wire_string(value@),
{
    let bytes: &[u8] = value.as_bytes();
    write_unsigned_varint_u32(bytes.len() as u32, out);
    let ghost mid = out@;
    out.extend_from_slice(bytes);
    assert(out@ =~= old(out)@ + wire_string(value@));
}

/// A batch stream holding one TickSync packet with the two times as
/// little-endian 64-bit fields.
pub fn encode_tick_sync_packet_stream(request_time: i64, response_time: i64) -> (stream: Vec<u8>)
    ensures
        stream@ == framed_packet(
            TICK_SYNC_PACKET_ID,
            le_bytes((request_time as u64) as nat, 8) + le_bytes((response_time as u64) as nat, 8),
        ),
{
    let mut packet: Vec<u8> = Vec::with_capacity(17);
    write_unsigned_varint_u32(TICK_SYNC_PACKET_ID, &mut packet);
    let ghost head = packet@;
    push_le_u64(&mut packet, request_time as u64);
    push_le_u64(&mut packet, response_time as u64);
    proof {
        lemma_varint_u32_len(TICK_SYNC_PACKET_ID);
        lemma_le_bytes_len((request_time as u64) as nat, 8);
        lemma_le_bytes_len((response_time as u64) as nat, 8);
    }
    assert(packet@ =~= varint_encode(TICK_SYNC_PACKET_ID as nat) + (le_bytes((request_time as u64) as nat, 8) + le_bytes((response_time as u64) as nat, 8)));
    let mut stream: Vec<u8> = Vec::new();
    frame_packet(packet.as_slice(), &mut stream);
    assert(stream@ =~= framed_packet(
        TICK_SYNC_PACKET_ID,
        le_bytes((request_time as u64) as nat, 8) + le_bytes((response_time as u64) as nat, 8),
    ));
    stream
}

/// A ContainerClose packet (unframed): id, window id byte, window type, server-side flag.
pub fn encode_container_close_packet_stream(window_id: u32, window_type: u8, server_side: bool) -> (packet: Vec<u8>)
    ensures
        packet@ == varint_encode(CONTAINER_CLOSE_PACKET_ID as nat) + seq![
            (window_id % 256) as u8,
            window_type,
            if server_side { 1u8 } else { 0u8 },
        ],
{
    let mut packet: Vec<u8> = Vec::with_capacity(4);
    write_unsigned_varint_u32(CONTAINER_CLOSE_PACKET_ID, &mut packet);
    packet.push((window_id % 256) as u8);
    packet.push(window_type);
    packet.push(if server_side { 1u8 } else { 0u8 });
    assert(packet@ =~= varint_encode(CONTAINER_CLOSE_PACKET_ID as nat) + seq![
        (window_id % 256) as u8,
        window_type,
        if server_side { 1u8 } else { 0u8 },
    ]);
    packet
}

/// The sixteen bytes that the uuid crate parses from a textual UUID.
pub uninterp spec fn uuid_bytes_of(text: Seq<char>) -> Option<Seq<u8>>;

/// Calls `uuid::Uuid::parse_str` and hands back the sixteen bytes of the UUID.
/// Trusted: the result is `uuid_bytes_of` of the text, and a parsed UUID has
/// sixteen bytes; how the crate parses is not restated.
#[verifier::external_body]
fn parse_uuid_bytes(text: &str) -> (r: Option<Vec<u8>>)
    ensures
        match r {
            Some(b) => uuid_bytes_of(text@) == Some(b@) && b@.len() == 16,
            None => uuid_bytes_of(text@) is None,
        },
{
    match uuid::Uuid::parse_str(text) {
        Ok(uuid) => Some(uuid.as_bytes().to_vec()),
        Err(_) => None,
    }
}

/// The sixteen bytes of the request UUID, the nil UUID when the text does not parse.
pub open spec fn request_uuid_bytes(request_id: Seq<char>) -> Seq<u8> {
    match uuid_bytes_of(request_id) {
        Some(b) => b,
        None => Seq::new(16, |i: int| 0u8),
    }
}

/// Body of a CommandRequest packet after its id: command, origin "player",
/// origin UUID, request id, player entity id, internal flag, version "52".
pub open spec fn command_request_body(command: Seq<char>, request_id: Seq<char>, player_entity_id: i64) -> Seq<u8> {
    wire_string(command) + wire_string("player"@) + request_uuid_bytes(request_id) + wire_string(
        request_id,
    ) + le_bytes((player_entity_id as u64) as nat, 8) + seq![0u8] + wire_string("52"@)
}

/// A batch stream holding one CommandRequest packet; the packet's length
/// must fit the 32-bit length that frames it.
pub fn encode_command_request_packet_stream(command: &str, request_id: &str, player_entity_id: i64) -> (stream: Vec<u8>)
    requires
        varint_encode(COMMAND_REQUEST_PACKET_ID as nat).len() + command_request_body(
            command@,
            request_id@,
            player_entity_id,
        ).len() <= u32::MAX,
    ensures
        stream@ == framed_packet(
            COMMAND_REQUEST_PACKET_ID,
            command_request_body(command@, request_id@, player_entity_id),
        ),
{
    let uuid: Vec<u8> = match parse_uuid_bytes(request_id) {
        Some(b) => b,
        None => {
            let mut nil: Vec<u8> = Vec::new();
            let mut i: usize = 0;
            while i < 16
                invariant
                    i <= 16,
                    nil@ == Seq::new(i as nat, |j: int| 0u8),
                decreases 16 - i,
            {
                nil.push(0u8);
                i = i + 1;
                assert(nil@ =~= Seq::new(i as nat, |j: int| 0u8));
            }
            nil
        },
    };
    assert(uuid@ == request_uuid_bytes(request_id@) && uuid@.len() == 16);
    let mut packet: Vec<u8> = Vec::new();
    write_unsigned_varint_u32(COMMAND_REQUEST_PACKET_ID, &mut packet);
    let ghost head = packet@;
    write_string_local(command, &mut packet);
    write_string_local("player", &mut packet);
    packet.extend_from_slice(uuid.as_slice());
    write_string_local(request_id, &mut packet);
    push_le_u64(&mut packet, player_entity_id as u64);
    packet.push(0u8);
    write_string_local("52", &mut packet);
    assert(packet@ =~= head + command_request_body(command@, request_id@, player_entity_id));
    let ghost body = command_request_body(command@, request_id@, player_entity_id);
    proof {
        reveal_strlit("player");
        reveal_strlit("52");
        lemma_utf8_len_bound("player"@);
        lemma_utf8_len_bound("52"@);
        lemma_le_bytes_len((player_entity_id as u64) as nat, 8);
        lemma_varint_u32_len((vstd::utf8::encode_utf8(command@).len() as u32));
        lemma_varint_u32_len((vstd::utf8::encode_utf8(request_id@).len() as u32));
        lemma_varint_u32_len((vstd::utf8::encode_utf8("player"@).len() as u32));
        lemma_varint_u32_len((vstd::utf8::encode_utf8("52"@).len() as u32));
        lemma_varint_u32_len(COMMAND_REQUEST_PACKET_ID);
    }
    let mut stream: Vec<u8> = Vec::new();
    frame_packet(packet.as_slice(), &mut stream);
    assert(stream@ =~= framed_packet(COMMAND_REQUEST_PACKET_ID, body));
    stream
}

} // verus!
