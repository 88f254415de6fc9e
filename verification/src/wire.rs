//! Fixed-width fields, byte skipping and batch framing of the Bedrock packet stream.

use vstd::prelude::*;
use crate::nbt::NbtError;
use crate::soft_enum::SoftEnumError;
use crate::varint::{
    lemma_var_u32_roundtrip, lemma_zigzag32_roundtrip, read_var_u32, var_u32_at, varint_consumed, varint_consumed_from,
    varint_encode, write_unsigned_varint_u32, zigzag_decode32, zigzag_encode32, zigzag_i32,
};

verus! {

/// Little-endian bytes of the low `n` bytes of `v`.
pub open spec fn le_bytes(v: nat, n: nat) -> Seq<u8>
    decreases n,
{
    if n == 0 {
        seq![]
    } else {
        seq![(v % 256) as u8] + le_bytes(v / 256, (n - 1) as nat)
    }
}

/// `le_bytes(v, n)` has `n` bytes.
pub proof fn lemma_le_bytes_len(v: nat, n: nat)
    ensures
        le_bytes(v, n).len() == n,
    decreases n,
{
    if n > 0 {
        lemma_le_bytes_len(v / 256, (n - 1) as nat);
    }
}

/// Value of the `n` little-endian bytes at `off`.
pub open spec fn le_value(s: Seq<u8>, off: int, n: nat) -> nat
    decreases n,
{
    if n == 0 {
        0
    } else {
        s[off] as nat + 256 * le_value(s, off + 1, (n - 1) as nat)
    }
}

/// Value of the `n` big-endian bytes at `off`.
pub open spec fn be_value(s: Seq<u8>, off: int, n: nat) -> nat
    decreases n,
{
    if n == 0 {
        0
    } else {
        be_value(s, off, (n - 1) as nat) * 256 + s[off + n - 1] as nat
    }
}

/// True when `n` bytes are available at `off`.
pub open spec fn has_bytes(s: Seq<u8>, off: int, n: int) -> bool {
    0 <= off && n >= 0 && off + n <= s.len()
}

/// Appends the eight little-endian bytes of `v`.
pub fn push_le_u64(out: &mut Vec<u8>, v: u64)
    ensures
        final(out)@ == old(out)@ + le_bytes(v as nat, 8),
{
    let mut w: u64 = v;
    let mut i: usize = 0;
    while i < 8
        invariant
            i <= 8,
            out@ + le_bytes(w as nat, (8 - i) as nat) == old(out)@ + le_bytes(v as nat, 8),
        decreases 8 - i,
    {
        let ghost before = out@;
        let ghost old_w = w;
        out.push((w % 256) as u8);
        w = w / 256;
        assert(le_bytes(old_w as nat, (8 - i) as nat) == seq![(old_w % 256) as u8] + le_bytes(
            w as nat,
            (8 - i - 1) as nat,
        ));
        assert(out@ + le_bytes(w as nat, (8 - i - 1) as nat) =~= before + le_bytes(
            old_w as nat,
            (8 - i) as nat,
        ));
        i = i + 1;
    }
    assert(out@ =~= old(out)@ + le_bytes(v as nat, 8));
}

/// Appends the four little-endian bytes of `v`.
pub fn push_le_u32(out: &mut Vec<u8>, v: u32)
    ensures
        final(out)@ == old(out)@ + le_bytes(v as nat, 4),
{
    let mut w: u32 = v;
    let mut i: usize = 0;
    while i < 4
        invariant
            i <= 4,
            out@ + le_bytes(w as nat, (4 - i) as nat) == old(out)@ + le_bytes(v as nat, 4),
        decreases 4 - i,
    {
        let ghost before = out@;
        let ghost old_w = w;
        out.push((w % 256) as u8);
        w = w / 256;
        assert(le_bytes(old_w as nat, (4 - i) as nat) == seq![(old_w % 256) as u8] + le_bytes(
            w as nat,
            (4 - i - 1) as nat,
        ));
        assert(out@ + le_bytes(w as nat, (4 - i - 1) as nat) =~= before + le_bytes(
            old_w as nat,
            (4 - i) as nat,
        ));
        i = i + 1;
    }
    assert(out@ =~= old(out)@ + le_bytes(v as nat, 4));
}

/// Reads one byte.
pub fn read_u8(bytes: &[u8], offset: &mut usize) -> (res: Option<u8>)
    ensures
        res == (if has_bytes(bytes@, *old(offset) as int, 1) {
            Some(bytes@[*old(offset) as int])
        } else {
            None::<u8>
        }),
        *final(offset) == (if res is Some {
            *old(offset) + 1
        } else {
            *old(offset) as int
        }),
{
    if *offset < bytes.len() {
        let value: u8 = bytes[*offset];
        *offset = *offset + 1;
        Some(value)
    } else {
        None
    }
}

/// Reads one byte as a signed value.
pub fn read_i8(bytes: &[u8], offset: &mut usize) -> (res: Option<i8>)
    ensures
        res == (if has_bytes(bytes@, *old(offset) as int, 1) {
            Some(bytes@[*old(offset) as int] as i8)
        } else {
            None::<i8>
        }),
        *final(offset) == (if res is Some {
            *old(offset) + 1
        } else {
            *old(offset) as int
        }),
{
    match read_u8(bytes, offset) {
        Some(value) => Some(value as i8),
        None => None,
    }
}

/// Value of four little-endian bytes read from a slice position.
fn le_u32_at(bytes: &[u8], at: usize) -> (r: u32)
    requires
        at + 4 <= bytes@.len(),
    ensures
        r == le_value(bytes@, at as int, 4),
{
    let b0: u32 = bytes[at] as u32;
    let b1: u32 = bytes[at + 1] as u32;
    let b2: u32 = bytes[at + 2] as u32;
    let b3: u32 = bytes[at + 3] as u32;
    assert(le_value(bytes@, at as int, 4) == b0 + 256 * (b1 + 256 * (b2 + 256 * b3))) by {
        reveal_with_fuel(le_value, 5);
    }
    b0 + 256 * (b1 + 256 * (b2 + 256 * b3))
}

/// Value of eight little-endian bytes read from a slice position.
fn le_u64_at(bytes: &[u8], at: usize) -> (r: u64)
    requires
        at + 8 <= bytes@.len(),
    ensures
        r == le_value(bytes@, at as int, 8),
{
    let len: usize = bytes.len();
    let lo: u64 = le_u32_at(bytes, at) as u64;
    let hi: u64 = le_u32_at(bytes, at + 4) as u64;
    proof {
        lemma_le_value_split(bytes@, at as int, 4, 4);
        assert(pow256(4) == 0x1_0000_0000) by {
            reveal_with_fuel(pow256, 5);
        }
        assert(hi * 0x1_0000_0000 + lo < 0x1_0000_0000_0000_0000) by (nonlinear_arith)
            requires
                hi < 0x1_0000_0000,
                lo < 0x1_0000_0000,
        ;
    }
    lo + hi * 0x1_0000_0000
}

pub open spec fn pow256(n: nat) -> nat
    decreases n,
{
    if n == 0 {
        1
    } else {
        256 * pow256((n - 1) as nat)
    }
}

proof fn lemma_le_value_split(s: Seq<u8>, off: int, a: nat, b: nat)
    ensures
        le_value(s, off, a + b) == le_value(s, off, a) + pow256(a) * le_value(s, off + a, b),
    decreases a,
{
    if a == 0 {
        assert(pow256(0) == 1);
    } else {
        lemma_le_value_split(s, off + 1, (a - 1) as nat, b);
        assert(le_value(s, off, a + b) == s[off] as nat + 256 * le_value(s, off + 1, (a - 1 + b) as nat));
        let x = le_value(s, off + 1 + (a - 1), b);
        let p = pow256((a - 1) as nat);
        assert(256 * (p * x) == (256 * p) * x) by (nonlinear_arith);
    }
}

/// Reads a little-endian `u32`; the offset moves only on success.
pub fn read_le_u32(bytes: &[u8], offset: &mut usize) -> (res: Option<u32>)
    ensures
        res == (if has_bytes(bytes@, *old(offset) as int, 4) {
            Some(le_value(bytes@, *old(offset) as int, 4) as u32)
        } else {
            None::<u32>
        }),
        *final(offset) == (if res is Some {
            *old(offset) + 4
        } else {
            *old(offset) as int
        }),
{
    if *offset <= bytes.len() && bytes.len() - *offset >= 4 {
        let value: u32 = le_u32_at(bytes, *offset);
        *offset = *offset + 4;
        Some(value)
    } else {
        None
    }
}

/// Reads a little-endian `i32`; the offset moves only on success.
pub fn read_le_i32(bytes: &[u8], offset: &mut usize) -> (res: Option<i32>)
    ensures
        res == (if has_bytes(bytes@, *old(offset) as int, 4) {
            Some((le_value(bytes@, *old(offset) as int, 4) as u32) as i32)
        } else {
            None::<i32>
        }),
        *final(offset) == (if res is Some {
            *old(offset) + 4
        } else {
            *old(offset) as int
        }),
{
    match read_le_u32(bytes, offset) {
        Some(value) => Some(value as i32),
        None => None,
    }
}

/// Reads a little-endian `u64`; the offset moves only on success.
pub fn read_le_u64(bytes: &[u8], offset: &mut usize) -> (res: Option<u64>)
    ensures
        res == (if has_bytes(bytes@, *old(offset) as int, 8) {
            Some(le_value(bytes@, *old(offset) as int, 8) as u64)
        } else {
            None::<u64>
        }),
        *final(offset) == (if res is Some {
            *old(offset) + 8
        } else {
            *old(offset) as int
        }),
{
    if *offset <= bytes.len() && bytes.len() - *offset >= 8 {
        let value: u64 = le_u64_at(bytes, *offset);
        *offset = *offset + 8;
        Some(value)
    } else {
        None
    }
}

/// Advances the offset past `len` bytes when they are all present.
pub fn skip_bytes(bytes: &[u8], offset: &mut usize, len: usize) -> (ok: bool)
    ensures
        ok == has_bytes(bytes@, *old(offset) as int, len as int),
        *final(offset) == (if ok {
            *old(offset) + len
        } else {
            *old(offset) as int
        }),
{
    if *offset <= bytes.len() && bytes.len() - *offset >= len {
        *offset = *offset + len;
        true
    } else {
        false
    }
}


/// A diagnostic for a field that could not be decoded.
#[derive(Debug, Clone, PartialEq, Eq)]
pub enum TraceError {
    /// The field needs more bytes than remain.
    NeedBytes(usize),
    /// The named field is malformed or missing.
    Invalid(&'static str),
    /// The named field holds a value that the format does not define.
    Unknown(&'static str, u64),
    /// An embedded NBT value does not decode.
    Nbt(NbtError),
    /// An embedded UpdateSoftEnum payload does not decode.
    SoftEnum(SoftEnumError),
}

/// `n` raw bytes at `off`.
pub open spec fn trace_bytes_end(s: Seq<u8>, off: int, n: usize) -> Result<int, TraceError> {
    if has_bytes(s, off, n as int) {
        Ok(off + n)
    } else {
        Err(TraceError::NeedBytes(n))
    }
}

/// Skips `len` bytes, failing when fewer remain.
pub fn skip_trace_bytes(packet: &[u8], offset: &mut usize, len: usize) -> (res: Result<(), TraceError>)
    ensures
        res is Ok <==> has_bytes(packet@, *old(offset) as int, len as int),
        res is Err ==> res == Err::<(), TraceError>(TraceError::NeedBytes(len)),
        *final(offset) == (if res is Ok {
            *old(offset) + len
        } else {
            *old(offset) as int
        }),
{
    if skip_bytes(packet, offset, len) {
        Ok(())
    } else {
        Err(TraceError::NeedBytes(len))
    }
}

/// Reads a boolean byte (any non-zero value is true).
pub fn read_trace_bool(packet: &[u8], offset: &mut usize) -> (res: Result<bool, TraceError>)
    ensures
        res == (if has_bytes(packet@, *old(offset) as int, 1) {
            Ok(packet@[*old(offset) as int] != 0)
        } else {
            Err(TraceError::Invalid("missing bool"))
        }),
        *final(offset) == (if res is Ok {
            *old(offset) + 1
        } else {
            *old(offset) as int
        }),
{
    match read_u8(packet, offset) {
        Some(value) => Ok(value != 0),
        None => Err(TraceError::Invalid("missing bool")),
    }
}

/// A varint-length-prefixed string at `off`.
pub open spec fn trace_string_end(s: Seq<u8>, off: int) -> Result<int, TraceError> {
    match var_u32_at(s, off) {
        Some(len) => trace_bytes_end(s, off + varint_consumed(s, off, 5), len as usize),
        None => Err(TraceError::Invalid("invalid string length")),
    }
}

/// Skips a varint-length-prefixed string.
pub fn skip_trace_string(packet: &[u8], offset: &mut usize) -> (res: Result<(), TraceError>)
    ensures
        match trace_string_end(packet@, *old(offset) as int) {
            Ok(o) => res is Ok && *final(offset) == o,
            Err(e) => res == Err::<(), TraceError>(e),
        },
{
    match read_var_u32(packet, offset) {
        Some(len) => skip_trace_bytes(packet, offset, len as usize),
        None => Err(TraceError::Invalid("invalid string length")),
    }
}

/// Three varints (a block position) at `off`.
pub open spec fn trace_coordinates_end(s: Seq<u8>, off: int) -> Result<int, TraceError> {
    let o1 = off + varint_consumed(s, off, 5);
    let o2 = o1 + varint_consumed(s, o1, 5);
    let o3 = o2 + varint_consumed(s, o2, 5);
    if var_u32_at(s, off) is None {
        Err(TraceError::Invalid("invalid block x"))
    } else if var_u32_at(s, o1) is None {
        Err(TraceError::Invalid("invalid block y"))
    } else if var_u32_at(s, o2) is None {
        Err(TraceError::Invalid("invalid block z"))
    } else {
        Ok(o3)
    }
}

/// Skips a block position written as three varints.
pub fn skip_trace_block_coordinates(packet: &[u8], offset: &mut usize) -> (res: Result<(), TraceError>)
    ensures
        match trace_coordinates_end(packet@, *old(offset) as int) {
            Ok(o) => res is Ok && *final(offset) == o,
            Err(e) => res == Err::<(), TraceError>(e),
        },
{
    if read_var_u32(packet, offset).is_none() {
        return Err(TraceError::Invalid("invalid block x"));
    }
    if read_var_u32(packet, offset).is_none() {
        return Err(TraceError::Invalid("invalid block y"));
    }
    if read_var_u32(packet, offset).is_none() {
        return Err(TraceError::Invalid("invalid block z"));
    }
    Ok(())
}

/// A block position in network order: zigzag x, plain varint y, zigzag z.
pub open spec fn block_coordinates_at(s: Seq<u8>, off: int) -> Option<((i32, i32, i32), int)> {
    let o1 = off + varint_consumed(s, off, 5);
    let o2 = o1 + varint_consumed(s, o1, 5);
    let o3 = o2 + varint_consumed(s, o2, 5);
    match (var_u32_at(s, off), var_u32_at(s, o1), var_u32_at(s, o2)) {
        (Some(x), Some(y), Some(z)) => Some(
            ((zigzag_decode32(x), y as i32, zigzag_decode32(z)), o3),
        ),
        _ => None,
    }
}

/// Law: a block position written as the zigzag varint of `x`, the plain
/// varint of `y` and the zigzag varint of `z` reads back as `(x, y, z)`
/// (`y` taken as the 32-bit value it is), consuming exactly those bytes,
/// whatever precedes or follows them.
pub proof fn lemma_block_coordinates_read(x: i32, y: u32, z: i32, prefix: Seq<u8>, rest: Seq<u8>)
    ensures
        ({
            let ex = varint_encode(zigzag_encode32(x) as nat);
            let ey = varint_encode(y as nat);
            let ez = varint_encode(zigzag_encode32(z) as nat);
            block_coordinates_at(prefix + ex + ey + ez + rest, prefix.len() as int) == Some(
                ((x, y as i32, z), (prefix.len() + ex.len() + ey.len() + ez.len()) as int),
            )
        }),
{
    let ex = varint_encode(zigzag_encode32(x) as nat);
    let ey = varint_encode(y as nat);
    let ez = varint_encode(zigzag_encode32(z) as nat);
    let s = prefix + ex + ey + ez + rest;
    assert(s =~= prefix + ex + (ey + ez + rest));
    lemma_var_u32_roundtrip(zigzag_encode32(x), prefix, ey + ez + rest);
    assert(s =~= (prefix + ex) + ey + (ez + rest));
    lemma_var_u32_roundtrip(y, prefix + ex, ez + rest);
    assert(s =~= (prefix + ex + ey) + ez + rest);
    lemma_var_u32_roundtrip(zigzag_encode32(z), prefix + ex + ey, rest);
    lemma_zigzag32_roundtrip(x, 0);
    lemma_zigzag32_roundtrip(z, 0);
}

/// Reads a block position: zigzag x, varint y, zigzag z.
pub fn read_block_coordinates(packet: &[u8], offset: &mut usize) -> (res: Option<(i32, i32, i32)>)
    ensures
        res == (match block_coordinates_at(packet@, *old(offset) as int) {
            Some((v, _)) => Some(v),
            None => None::<(i32, i32, i32)>,
        }),
        res is Some ==> *final(offset) == block_coordinates_at(packet@, *old(offset) as int).unwrap().1,
{
    let x: u32 = match read_var_u32(packet, offset) {
        Some(v) => v,
        None => return None,
    };
    let y: u32 = match read_var_u32(packet, offset) {
        Some(v) => v,
        None => return None,
    };
    let z: u32 = match read_var_u32(packet, offset) {
        Some(v) => v,
        None => return None,
    };
    Some((zigzag_i32(x), y as i32, zigzag_i32(z)))
}

/// Appends a varint length prefix and then `packet`: one entry of a batch stream.
pub fn frame_packet(packet: &[u8], out: &mut Vec<u8>)
    requires
        packet@.len() <= u32::MAX,
    ensures
        final(out)@ == old(out)@ + varint_encode(packet@.len()) + packet@,
{
    write_unsigned_varint_u32(packet.len() as u32, out);
    let ghost mid = out@;
    out.extend_from_slice(packet);
    assert(out@ =~= mid + packet@);
}

/// One packet of a batch stream: the packet's bytes, its id and where its payload starts.
pub struct PacketSummary<'a> {
    pub packet: &'a [u8],
    pub packet_id: u32,
    pub payload_len: usize,
    pub payload_offset: usize,
}

/// Why a batch stream could not be split into packets.
#[derive(Debug, Clone, PartialEq, Eq)]
pub enum FrameError {
    /// The length prefix of the next packet is not a valid varint.
    PacketLength,
    /// The length prefix asks for more bytes than remain.
    PacketTooLong { packet_len: usize, remaining: usize },
    /// The packet does not start with a valid header varint.
    PacketHeader,
}

/// The bounds of the next packet in a batch stream at `off`:
/// `Ok(None)` at the end of the stream, else `(start, end)` of the packet bytes.
pub open spec fn frame_bounds(s: Seq<u8>, off: int) -> Result<Option<(int, int)>, FrameError> {
    if off >= s.len() {
        Ok(None)
    } else {
        match var_u32_at(s, off) {
            None => Err(FrameError::PacketLength),
            Some(len) => {
                let start = off + varint_consumed(s, off, 5);
                if start + len <= s.len() {
                    Ok(Some((start, start + len)))
                } else {
                    Err(
                        FrameError::PacketTooLong {
                            packet_len: len as usize,
                            remaining: (s.len() - start) as usize,
                        },
                    )
                }
            },
        }
    }
}

/// Offset after the next packet, or after the bytes examined on a length error.
pub open spec fn frame_next_offset(s: Seq<u8>, off: int) -> int {
    match frame_bounds(s, off) {
        Ok(Some((_, end))) => end,
        Ok(None) => off,
        Err(FrameError::PacketLength) => off + varint_consumed(s, off, 5),
        Err(_) => off + varint_consumed(s, off, 5),
    }
}

/// The id of a packet: the low ten bits of its header varint.
pub open spec fn packet_header_id(packet: Seq<u8>) -> Option<u32> {
    match var_u32_at(packet, 0) {
        Some(h) => Some((h % 1024) as u32),
        None => None,
    }
}

/// Reads the next packet of a batch stream and moves the offset past it.
pub fn read_packet_summary<'a>(packet_stream: &'a [u8], offset: &mut usize) -> (res: Result<
    Option<PacketSummary<'a>>,
    FrameError,
>)
    ensures
        frame_bounds(packet_stream@, *old(offset) as int) is Err ==> res == Err::<
            Option<PacketSummary<'a>>,
            FrameError,
        >(frame_bounds(packet_stream@, *old(offset) as int)->Err_0),
        frame_bounds(packet_stream@, *old(offset) as int) == Ok::<Option<(int, int)>, FrameError>(
            None,
        ) ==> res matches Ok(None),
        *final(offset) == frame_next_offset(packet_stream@, *old(offset) as int),
        frame_bounds(packet_stream@, *old(offset) as int) matches Ok(Some((start, end))) ==> {
            let packet = packet_stream@.subrange(start, end);
            &&& packet_header_id(packet) is None ==> res == Err::<
                Option<PacketSummary<'a>>,
                FrameError,
            >(FrameError::PacketHeader)
            &&& packet_header_id(packet) matches Some(id) ==> res matches Ok(Some(summary)) && {
                &&& summary.packet@ == packet
                &&& summary.packet_id == id
                &&& summary.payload_offset == varint_consumed(packet, 0, 5)
                &&& summary.payload_len == packet.len() - varint_consumed(packet, 0, 5)
            }
        },
{
    if *offset >= packet_stream.len() {
        return Ok(None);
    }
    let off0: usize = *offset;
    proof {
        lemma_varint_consumed_bound(packet_stream@, off0 as int, 0, 5);
    }
    let packet_len: usize = match read_var_u32(packet_stream, offset) {
        Some(len) => len as usize,
        None => return Err(FrameError::PacketLength),
    };
    let start: usize = *offset;
    if packet_stream.len() - start < packet_len {
        return Err(
            FrameError::PacketTooLong {
                packet_len,
                remaining: packet_stream.len() - start,
            },
        );
    }
    let end: usize = start + packet_len;
    let packet: &'a [u8] = vstd::slice::slice_subrange(packet_stream, start, end);
    *offset = end;
    let mut packet_offset: usize = 0;
    let header: u32 = match read_var_u32(packet, &mut packet_offset) {
        Some(h) => h,
        None => return Err(FrameError::PacketHeader),
    };
    proof {
        assert(varint_consumed(packet@, 0, 5) <= packet@.len()) by {
            lemma_varint_consumed_bound(packet@, 0, 0, 5);
        }
    }
    Ok(
        Some(
            PacketSummary {
                packet,
                packet_id: header % 1024,
                payload_len: packet_len - packet_offset,
                payload_offset: packet_offset,
            },
        ),
    )
}

pub proof fn lemma_varint_consumed_bound(s: Seq<u8>, start: int, i: nat, max: nat)
    requires
        0 <= start,
        start + i <= s.len(),
    ensures
        start + varint_consumed_from(s, start, i, max) <= s.len(),
        varint_consumed_from(s, start, i, max) >= i,
    decreases max - i,
{
    if !(i >= max || start + i >= s.len()) && s[start + i] >= 128 {
        lemma_varint_consumed_bound(s, start, i + 1, max);
    }
}

/// Calls `std::str::from_utf8` and copies the text out. Trusted: the call
/// succeeds exactly on well-formed UTF-8, and the text is what those bytes
/// decode to.
#[verifier::external_body]
pub(crate) fn utf8_to_string(bytes: &[u8]) -> (r: Option<String>)
    ensures
        r is Some <==> vstd::utf8::valid_utf8(bytes@),
        r matches Some(text) ==> text@ == vstd::utf8::decode_utf8(bytes@),
{
    match std::str::from_utf8(bytes) {
        Ok(text) => Some(text.to_string()),
        Err(_) => None,
    }
}

/// Law: the `n` little-endian bytes written for `v` read back as `v` modulo
/// `256^n`, whatever precedes or follows them.
pub proof fn lemma_le_bytes_roundtrip(v: nat, n: nat, pre: Seq<u8>, post: Seq<u8>)
    ensures
        le_value(pre + le_bytes(v, n) + post, pre.len() as int, n) == v % pow256(n),
    decreases n,
{
    if n == 0 {
        assert(pow256(0) == 1);
    } else {
        let first = seq![(v % 256) as u8];
        let rest = le_bytes(v / 256, (n - 1) as nat);
        assert(pre + le_bytes(v, n) + post =~= (pre + first) + rest + post);
        lemma_le_bytes_roundtrip(v / 256, (n - 1) as nat, pre + first, post);
        let s = pre + le_bytes(v, n) + post;
        assert(s[pre.len() as int] == (v % 256) as u8);
        let p = pow256((n - 1) as nat);
        assert(p > 0) by {
            lemma_pow256_positive((n - 1) as nat);
        }
        vstd::arithmetic::div_mod::lemma_mod_breakdown(v as int, 256, p as int);
    }
}

pub proof fn lemma_pow256_positive(n: nat)
    ensures
        pow256(n) > 0,
    decreases n,
{
    if n > 0 {
        lemma_pow256_positive((n - 1) as nat);
    }
}

} // verus!

