//! Sampling the LevelChunk payload: the top non-air block of sixteen columns
//! in each decoded subchunk, with recovery from a known misalignment of some
//! servers' subchunk streams.

use vstd::prelude::*;
use crate::observe::{ObservedBlockSample, ObservedPacket, var32, zz32};
use crate::varint::{read_var_u32, zigzag_i32};
use crate::wire::{has_bytes, le_value, lemma_varint_consumed_bound, read_le_u32, read_trace_bool, read_u8, skip_bytes};

verus! {

/// The runtime id that the sampled servers use for air.
pub const CHUNK_AIR_RUNTIME_ID: u32 = 12530;

/// At most this many block samples are kept from one chunk.
pub const MAX_LEVEL_CHUNK_SAMPLES: usize = 256;

/// Why a subchunk or one of its layers could not be read.
#[derive(Debug, Clone, Copy, PartialEq, Eq)]
pub enum ChunkError {
    MissingLayerCount,
    MissingSubchunkY,
    UnsupportedSubchunkVersion { version: u8, offset: usize },
    MissingPaletteHeader,
    UnsupportedBitsPerIndex(u8),
    TruncatedPaletteWords,
    PersistentPalette,
    MissingSingletonEntry,
    MissingPaletteLength,
    InvalidPaletteLength(i32),
    TruncatedPaletteEntry,
    PaletteIndexOutsideWords,
}

/// `v` clamped to the `i32` range.
pub open spec fn sat_i32(v: int) -> i32 {
    if v > i32::MAX {
        i32::MAX
    } else if v < i32::MIN {
        i32::MIN
    } else {
        v as i32
    }
}

/// `a * b` clamped to the `i32` range.
pub fn saturating_mul_i32(a: i32, b: i32) -> (r: i32)
    ensures
        r == sat_i32(a * b),
{
    assert(-0x4000_0000_0000_0000 <= (a as int) * (b as int) <= 0x4000_0000_0000_0000) by (nonlinear_arith)
        requires
            -0x8000_0000 <= a < 0x8000_0000,
            -0x8000_0000 <= b < 0x8000_0000,
    ;
    let wide: i64 = (a as i64) * (b as i64);
    if wide > i32::MAX as i64 {
        i32::MAX
    } else if wide < i32::MIN as i64 {
        i32::MIN
    } else {
        wide as i32
    }
}

/// `a + b` clamped to the `i32` range.
pub fn saturating_add_i32(a: i32, b: i32) -> (r: i32)
    ensures
        r == sat_i32(a + b),
{
    let wide: i64 = (a as i64) + (b as i64);
    if wide > i32::MAX as i64 {
        i32::MAX
    } else if wide < i32::MIN as i64 {
        i32::MIN
    } else {
        wide as i32
    }
}

/// The palette bit widths a subchunk layer may use.
pub open spec fn is_palette_width(bits: u8) -> bool {
    bits == 1 || bits == 2 || bits == 3 || bits == 4 || bits == 5 || bits == 6 || bits == 8 || bits
        == 16
}

/// Number of 32-bit words that hold 4096 indices of `bits` bits, none split
/// across words; zero words for a single-entry palette.
pub open spec fn palette_words(bits: u8) -> Option<nat> {
    if bits == 0 {
        Some(0)
    } else if is_palette_width(bits) {
        let per_word = 32int / (bits as int);
        Some(((4096 + per_word - 1) / per_word) as nat)
    } else {
        None
    }
}

/// Law: for a single-entry palette (width 0) no words follow; for each
/// width 1, 2, 3, 4, 5, 6, 8 or 16 the count is the fewest words that hold
/// all 4096 indices when `32 / width` indices go in a word (enough words,
/// and one fewer would not be); any other width is refused.
pub proof fn lemma_palette_words_hold_all_indices(bits: u8)
    ensures
        bits == 0 ==> palette_words(bits) == Some(0nat),
        (bits == 1 || bits == 2 || bits == 3 || bits == 4 || bits == 5 || bits == 6 || bits == 8 || bits == 16)
            ==> (palette_words(bits) matches Some(n) && n * (32int / (bits as int)) >= 4096 && (n - 1) * (32int
            / (bits as int)) < 4096),
        !(bits == 0 || bits == 1 || bits == 2 || bits == 3 || bits == 4 || bits == 5 || bits == 6 || bits == 8
            || bits == 16) ==> palette_words(bits) is None,
{
    if bits == 1 {
        assert(palette_words(1) == Some(128nat));
    } else if bits == 2 {
        assert(palette_words(2) == Some(256nat));
    } else if bits == 3 {
        assert(palette_words(3) == Some(410nat));
    } else if bits == 4 {
        assert(palette_words(4) == Some(512nat));
    } else if bits == 5 {
        assert(palette_words(5) == Some(683nat));
    } else if bits == 6 {
        assert(palette_words(6) == Some(820nat));
    } else if bits == 8 {
        assert(palette_words(8) == Some(1024nat));
    } else if bits == 16 {
        assert(palette_words(16) == Some(2048nat));
    }
}

pub fn palette_word_count(bits_per_index: u8) -> (r: Option<usize>)
    ensures
        match palette_words(bits_per_index) {
            Some(n) => r == Some(n as usize),
            None => r is None,
        },
{
    if bits_per_index == 0 {
        return Some(0);
    }
    if !(bits_per_index == 1 || bits_per_index == 2 || bits_per_index == 3 || bits_per_index == 4
        || bits_per_index == 5 || bits_per_index == 6 || bits_per_index == 8 || bits_per_index
        == 16) {
        return None;
    }
    let per_word: usize = 32 / bits_per_index as usize;
    assert(per_word >= 2) by (nonlinear_arith)
        requires
            per_word == 32int / (bits_per_index as int),
            1 <= bits_per_index <= 16,
    ;
    Some((4096 + per_word - 1) / per_word)
}

/// The palette index of block `block_index`: the `bits`-bit field at its
/// position in its word, or an error when the word is missing.
pub open spec fn palette_index(words: Seq<u32>, bits: u8, block_index: int) -> Result<u32, ChunkError> {
    if bits == 0 {
        Ok(0)
    } else {
        let per_word = 32int / (bits as int);
        let word_index = block_index / per_word;
        let bit_index = (block_index % per_word) * (bits as int);
        if word_index < words.len() {
            Ok((words[word_index] >> (bit_index as u32)) & (((1u32 << bits) - 1) as u32))
        } else {
            Err(ChunkError::PaletteIndexOutsideWords)
        }
    }
}

pub fn palette_index_at(words: &[u32], bits_per_index: u8, block_index: usize) -> (r: Result<u32, ChunkError>)
    requires
        palette_words(bits_per_index) is Some,
    ensures
        r == palette_index(words@, bits_per_index, block_index as int),
{
    if bits_per_index == 0 {
        return Ok(0);
    }
    let per_word: usize = 32 / bits_per_index as usize;
    let word_index: usize = block_index / per_word;
    let slot: usize = block_index % per_word;
    proof {
        let b = bits_per_index as int;
        assert(per_word * b <= 32) by (nonlinear_arith)
            requires
                per_word == 32int / b,
                b > 0,
        ;
        assert(slot * b < 32) by (nonlinear_arith)
            requires
                slot < per_word,
                per_word * b <= 32,
                b > 0,
        ;
    }
    let bit_index: usize = slot * bits_per_index as usize;
    if word_index >= words.len() {
        return Err(ChunkError::PaletteIndexOutsideWords);
    }
    let word: u32 = words[word_index];
    let b: u8 = bits_per_index;
    assert((1u32 << b) >= 1) by (bit_vector)
        requires
            b <= 16,
    ;
    let mask: u32 = (1u32 << bits_per_index) - 1;
    Ok((word >> bit_index as u32) & mask)
}

/// True when `off` looks like the start of a version-9 subchunk: version
/// byte 9, at most four layers, the expected y index when one is given, and,
/// when there are layers, a runtime palette header of a known width.
pub open spec fn plausible_v9_start(p: Seq<u8>, off: int, expected_y: Option<i32>) -> bool {
    &&& 0 <= off
    &&& off + 2 < p.len()
    &&& p[off] == 9
    &&& p[off + 1] <= 4
    &&& (expected_y matches Some(y) ==> (p[off + 2] as i8) as i32 == y)
    &&& (p[off + 1] == 0 || (off + 3 < p.len() && p[off + 3] % 2 == 1 && palette_words(
        p[off + 3] / 2,
    ) is Some))
}

pub fn is_plausible_version_9_subchunk_start(payload: &[u8], offset: usize, expected_y: Option<i32>) -> (r: bool)
    ensures
        r == plausible_v9_start(payload@, offset as int, expected_y),
{
    let n: usize = payload.len();
    if offset >= n || payload[offset] != 9 {
        return false;
    }
    if n - offset < 2 {
        return false;
    }
    let layer_count: u8 = payload[offset + 1];
    if layer_count > 4 {
        return false;
    }
    if n - offset < 3 {
        return false;
    }
    let subchunk_y: i32 = (payload[offset + 2] as i8) as i32;
    match expected_y {
        Some(y) => {
            if subchunk_y != y {
                return false;
            }
        },
        None => {},
    }
    if layer_count == 0 {
        return true;
    }
    if n - offset < 4 {
        return false;
    }
    let header: u8 = payload[offset + 3];
    let bits_per_index: u8 = header / 2;
    let runtime_palette: bool = header % 2 == 1;
    runtime_palette && palette_word_count(bits_per_index).is_some()
}

/// The first offset searched back from: 24 bytes before, or the start.
pub open spec fn recovery_window_start(unsupported_offset: int) -> int {
    if unsupported_offset >= 24 {
        unsupported_offset - 24
    } else {
        0
    }
}

/// The nearest plausible start below `c` and at or above `lo`.
pub open spec fn plausible_start_below(p: Seq<u8>, c: int, lo: int, expected_y: Option<i32>) -> Option<int>
    decreases c - lo,
{
    if c <= lo {
        None
    } else if plausible_v9_start(p, c - 1, expected_y) {
        Some(c - 1)
    } else {
        plausible_start_below(p, c - 1, lo, expected_y)
    }
}

/// The nearest plausible version-9 subchunk start within the 24 bytes
/// before `unsupported_offset`.
pub open spec fn previous_subchunk_start(p: Seq<u8>, unsupported_offset: int, expected_y: Option<i32>) -> Option<int> {
    plausible_start_below(p, unsupported_offset, recovery_window_start(unsupported_offset), expected_y)
}

/// The nearest plausible version-9 subchunk start within the 24 bytes
/// before `unsupported_offset`.
pub fn find_previous_subchunk_start(payload: &[u8], unsupported_offset: usize, expected_y: Option<i32>) -> (r: Option<usize>)
    ensures
        match r {
            Some(c) => {
                &&& recovery_window_start(unsupported_offset as int) <= c < unsupported_offset
                &&& plausible_v9_start(payload@, c as int, expected_y)
                &&& forall|k: int|
                    c < k < unsupported_offset ==> !#[trigger] plausible_v9_start(payload@, k, expected_y)
            },
            None => forall|k: int|
                recovery_window_start(unsupported_offset as int) <= k < unsupported_offset
                    ==> !#[trigger] plausible_v9_start(payload@, k, expected_y),
        },
        match r {
            Some(c) => previous_subchunk_start(payload@, unsupported_offset as int, expected_y) == Some(c as int),
            None => previous_subchunk_start(payload@, unsupported_offset as int, expected_y) is None,
        },
{
    let start: usize = if unsupported_offset >= 24 {
        unsupported_offset - 24
    } else {
        0
    };
    let mut candidate: usize = unsupported_offset;
    while candidate > start
        invariant
            start == recovery_window_start(unsupported_offset as int),
            start <= candidate <= unsupported_offset,
            forall|k: int|
                candidate <= k < unsupported_offset ==> !#[trigger] plausible_v9_start(payload@, k, expected_y),
            previous_subchunk_start(payload@, unsupported_offset as int, expected_y)
                == plausible_start_below(payload@, candidate as int, start as int, expected_y),
        decreases candidate,
    {
        candidate = candidate - 1;
        if is_plausible_version_9_subchunk_start(payload, candidate, expected_y) {
            return Some(candidate);
        }
    }
    None
}

// ---------------------------------------------------------------------------
// One layer of a subchunk
// ---------------------------------------------------------------------------

/// The `count` little-endian words that start at `off`.
pub open spec fn words_at(p: Seq<u8>, off: int, count: nat) -> Seq<u32> {
    Seq::new(count, |i: int| le_value(p, off + 4 * i, 4) as u32)
}

/// `count` varint runtime ids read one after the other from `off`.
pub open spec fn runtime_palette_at(p: Seq<u8>, off: int, count: nat) -> Option<(Seq<u32>, int)>
    decreases count,
{
    if count == 0 {
        Some((seq![], off))
    } else {
        match runtime_palette_at(p, off, (count - 1) as nat) {
            None => None,
            Some((palette, o)) => match var32(p, o) {
                None => None,
                Some((v, o2)) => Some((palette.push(v), o2)),
            },
        }
    }
}

/// The header, index words and runtime palette of a layer at `off`, with the
/// offset after them: `(bits per index, words, palette, end)`.
pub open spec fn layer_parse(p: Seq<u8>, off: int) -> Result<(u8, Seq<u32>, Seq<u32>, int), ChunkError> {
    if !(0 <= off < p.len()) {
        Err(ChunkError::MissingPaletteHeader)
    } else {
        let header = p[off];
        let bits = header / 2;
        match palette_words(bits) {
            None => Err(ChunkError::UnsupportedBitsPerIndex(bits)),
            Some(word_count) => {
                if !has_bytes(p, off + 1, (4 * word_count) as int) {
                    Err(ChunkError::TruncatedPaletteWords)
                } else {
                    let words = words_at(p, off + 1, word_count);
                    let o = off + 1 + 4 * word_count;
                    if header % 2 != 1 {
                        Err(ChunkError::PersistentPalette)
                    } else if bits == 0 {
                        match var32(p, o) {
                            None => Err(ChunkError::MissingSingletonEntry),
                            Some((v, o2)) => Ok((bits, words, seq![v], o2)),
                        }
                    } else {
                        match var32(p, o) {
                            None => Err(ChunkError::MissingPaletteLength),
                            Some((len, o2)) => {
                                let n = len as i32;
                                if n <= 0 || n > 4096 {
                                    Err(ChunkError::InvalidPaletteLength(n))
                                } else {
                                    match runtime_palette_at(p, o2, n as nat) {
                                        None => Err(ChunkError::TruncatedPaletteEntry),
                                        Some((palette, o3)) => Ok((bits, words, palette, o3)),
                                    }
                                }
                            },
                        }
                    }
                }
            },
        }
    }
}

/// Sampled column coordinates within a subchunk: 1, 5, 9, 13.
pub open spec fn sample_coord(k: int) -> int {
    1 + 4 * k
}

/// Whether a runtime id counts as a block worth sampling.
pub open spec fn is_solid_runtime(runtime_id: u32) -> bool {
    runtime_id != 0 && runtime_id != CHUNK_AIR_RUNTIME_ID
}

/// The topmost block at or below local height `y` of column (`lx`, `lz`)
/// whose palette entry exists and is solid, as `(height, runtime id)`.
pub open spec fn column_top(
    words: Seq<u32>,
    bits: u8,
    palette: Seq<u32>,
    lx: int,
    lz: int,
    y: int,
) -> Result<Option<(int, u32)>, ChunkError>
    decreases y + 1,
{
    if y < 0 {
        Ok(None)
    } else {
        match palette_index(words, bits, y + lz * 16 + lx * 256) {
            Err(e) => Err(e),
            Ok(index) => {
                if (index as int) < palette.len() && is_solid_runtime(palette[index as int]) {
                    Ok(Some((y, palette[index as int])))
                } else {
                    column_top(words, bits, palette, lx, lz, y - 1)
                }
            },
        }
    }
}

/// The block sample at local (`lx`, `ly`, `lz`) of the subchunk at height
/// index `sy` in chunk (`cx`, `cz`), coordinates clamped to `i32`.
pub open spec fn block_sample(cx: i32, cz: i32, sy: i32, lx: int, ly: int, lz: int, runtime_id: u32) -> ObservedBlockSample {
    ObservedBlockSample {
        x: sat_i32(sat_i32(cx * 16) + lx),
        y: sat_i32(sat_i32(sy * 16) + ly),
        z: sat_i32(sat_i32(cz * 16) + lz),
        runtime_id,
    }
}

/// The samples of columns `k..16` appended to `acc`, columns taken x-major.
pub open spec fn layer_columns(
    words: Seq<u32>,
    bits: u8,
    palette: Seq<u32>,
    cx: i32,
    cz: i32,
    sy: i32,
    k: int,
    acc: Seq<ObservedBlockSample>,
) -> Result<Seq<ObservedBlockSample>, ChunkError>
    decreases 16 - k,
{
    if k >= 16 {
        Ok(acc)
    } else {
        let lx = sample_coord(k / 4);
        let lz = sample_coord(k % 4);
        match column_top(words, bits, palette, lx, lz, 15) {
            Err(e) => Err(e),
            Ok(None) => layer_columns(words, bits, palette, cx, cz, sy, k + 1, acc),
            Ok(Some((ly, runtime_id))) => layer_columns(
                words,
                bits,
                palette,
                cx,
                cz,
                sy,
                k + 1,
                acc.push(block_sample(cx, cz, sy, lx, ly, lz, runtime_id)),
            ),
        }
    }
}

/// A layer at `off`: its samples (none unless `collect`) and the offset after it.
pub open spec fn layer_at(p: Seq<u8>, off: int, cx: i32, cz: i32, sy: i32, collect: bool) -> Result<
    (Seq<ObservedBlockSample>, int),
    ChunkError,
> {
    match layer_parse(p, off) {
        Err(e) => Err(e),
        Ok((bits, words, palette, o)) => {
            if !collect {
                Ok((seq![], o))
            } else {
                match layer_columns(words, bits, palette, cx, cz, sy, 0, seq![]) {
                    Err(e) => Err(e),
                    Ok(samples) => Ok((samples, o)),
                }
            }
        },
    }
}

fn read_palette_words(payload: &[u8], offset: &mut usize, count: usize) -> (r: Option<Vec<u32>>)
    ensures
        (count == 0 || has_bytes(payload@, *old(offset) as int, 4 * count)) ==> (r matches Some(w) && w@ == words_at(
            payload@,
            *old(offset) as int,
            count as nat,
        ) && *final(offset) == *old(offset) + 4 * count),
        count > 0 && !has_bytes(payload@, *old(offset) as int, 4 * count) ==> r is None,
{
    let ghost start = *offset;
    let mut words: Vec<u32> = Vec::new();
    let mut i: usize = 0;
    while i < count
        invariant
            i <= count,
            start == *old(offset),
            *offset == start + 4 * i,
            i == 0 || has_bytes(payload@, start as int, 4 * i),
            words@ == words_at(payload@, start as int, i as nat),
        decreases count - i,
    {
        let w: u32 = match read_le_u32(payload, offset) {
            Some(w) => w,
            None => return None,
        };
        words.push(w);
        i = i + 1;
        assert(words@ =~= words_at(payload@, start as int, i as nat));
    }
    Some(words)
}

fn read_runtime_palette(payload: &[u8], offset: &mut usize, count: u32) -> (r: Option<Vec<u32>>)
    ensures
        match runtime_palette_at(payload@, *old(offset) as int, count as nat) {
            Some((palette, o)) => r matches Some(v) && v@ == palette && *final(offset) == o,
            None => r is None,
        },
{
    let ghost start = *offset;
    let mut palette: Vec<u32> = Vec::new();
    let mut j: u32 = 0;
    while j < count
        invariant
            j <= count,
            start == *old(offset),
            runtime_palette_at(payload@, start as int, j as nat) == Some((palette@, *offset as int)),
        decreases count - j,
    {
        match read_var_u32(payload, offset) {
            Some(v) => palette.push(v),
            None => {
                proof {
                    lemma_palette_missing_sticks(payload@, start as int, (j + 1) as nat, count as nat);
                }
                return None;
            },
        }
        j = j + 1;
    }
    Some(palette)
}

/// A layer's index words number at most 4096.
proof fn lemma_palette_words_bound(bits: u8)
    ensures
        palette_words(bits) matches Some(n) ==> n <= 4096,
{
    if bits > 0 && is_palette_width(bits) {
        let per_word = 32int / (bits as int);
        assert(per_word >= 1) by (nonlinear_arith)
            requires
                per_word == 32int / (bits as int),
                1 <= bits <= 16,
        ;
        assert((4096 + per_word - 1) / per_word <= 4096) by (nonlinear_arith)
            requires
                per_word >= 1,
        ;
    }
}

/// A column's top block lies at or below the height the scan starts from.
proof fn lemma_column_top_range(words: Seq<u32>, bits: u8, palette: Seq<u32>, lx: int, lz: int, y: int)
    ensures
        column_top(words, bits, palette, lx, lz, y) matches Ok(Some((h, _))) ==> 0 <= h <= y,
    decreases y + 1,
{
    if y >= 0 {
        lemma_column_top_range(words, bits, palette, lx, lz, y - 1);
    }
}

fn column_top_exec(
    words: &Vec<u32>,
    bits: u8,
    palette: &Vec<u32>,
    lx: usize,
    lz: usize,
) -> (r: Result<Option<(usize, u32)>, ChunkError>)
    requires
        palette_words(bits) is Some,
        lx <= 13,
        lz <= 13,
    ensures
        match column_top(words@, bits, palette@, lx as int, lz as int, 15) {
            Ok(Some((y, id))) => r == Ok::<Option<(usize, u32)>, ChunkError>(Some((y as usize, id))),
            Ok(None) => r == Ok::<Option<(usize, u32)>, ChunkError>(None),
            Err(e) => r == Err::<Option<(usize, u32)>, ChunkError>(e),
        },
{
    let mut above: usize = 16;
    while above > 0
        invariant
            above <= 16,
            lx <= 13,
            lz <= 13,
            palette_words(bits) is Some,
            column_top(words@, bits, palette@, lx as int, lz as int, 15) == column_top(
                words@,
                bits,
                palette@,
                lx as int,
                lz as int,
                above - 1,
            ),
        decreases above,
    {
        let ly: usize = above - 1;
        let block_index: usize = ly + lz * 16 + lx * 256;
        let index: u32 = match palette_index_at(words.as_slice(), bits, block_index) {
            Ok(i) => i,
            Err(e) => return Err(e),
        };
        if (index as usize) < palette.len() {
            let runtime_id: u32 = palette[index as usize];
            if runtime_id != 0 && runtime_id != CHUNK_AIR_RUNTIME_ID {
                return Ok(Some((ly, runtime_id)));
            }
        }
        above = ly;
    }
    Ok(None)
}

fn sample_layer(
    words: &Vec<u32>,
    bits: u8,
    palette: &Vec<u32>,
    chunk_x: i32,
    chunk_z: i32,
    subchunk_y: i32,
) -> (r: Result<Vec<ObservedBlockSample>, ChunkError>)
    requires
        palette_words(bits) is Some,
    ensures
        match layer_columns(words@, bits, palette@, chunk_x, chunk_z, subchunk_y, 0, seq![]) {
            Ok(s) => r matches Ok(v) && v@ == s,
            Err(e) => r == Err::<Vec<ObservedBlockSample>, ChunkError>(e),
        },
{
    let mut samples: Vec<ObservedBlockSample> = Vec::new();
    let mut k: usize = 0;
    while k < 16
        invariant
            k <= 16,
            palette_words(bits) is Some,
            layer_columns(words@, bits, palette@, chunk_x, chunk_z, subchunk_y, 0, seq![])
                == layer_columns(words@, bits, palette@, chunk_x, chunk_z, subchunk_y, k as int, samples@),
        decreases 16 - k,
    {
        let lx: usize = 1 + 4 * (k / 4);
        let lz: usize = 1 + 4 * (k % 4);
        match column_top_exec(words, bits, palette, lx, lz) {
            Err(e) => return Err(e),
            Ok(None) => {},
            Ok(Some((ly, runtime_id))) => {
                proof {
                    lemma_column_top_range(words@, bits, palette@, lx as int, lz as int, 15);
                }
                let base_x: i32 = saturating_mul_i32(chunk_x, 16);
                let base_y: i32 = saturating_mul_i32(subchunk_y, 16);
                let base_z: i32 = saturating_mul_i32(chunk_z, 16);
                samples.push(
                    ObservedBlockSample {
                        x: saturating_add_i32(base_x, lx as i32),
                        y: saturating_add_i32(base_y, ly as i32),
                        z: saturating_add_i32(base_z, lz as i32),
                        runtime_id,
                    },
                );
            },
        }
        k = k + 1;
    }
    Ok(samples)
}

/// Reads the index words and runtime palette of a layer and, when `collect_samples`,
/// the top solid block of sixteen columns.
pub fn read_subchunk_runtime_layer(
    payload: &[u8],
    offset: &mut usize,
    chunk_x: i32,
    chunk_z: i32,
    subchunk_y: i32,
    collect_samples: bool,
) -> (r: Result<Vec<ObservedBlockSample>, ChunkError>)
    ensures
        match layer_at(payload@, *old(offset) as int, chunk_x, chunk_z, subchunk_y, collect_samples) {
            Ok((s, o)) => r matches Ok(v) && v@ == s && *final(offset) == o,
            Err(e) => r == Err::<Vec<ObservedBlockSample>, ChunkError>(e),
        },
{
    let start: usize = *offset;
    let header: u8 = match read_u8(payload, offset) {
        Some(h) => h,
        None => return Err(ChunkError::MissingPaletteHeader),
    };
    let bits_per_index: u8 = header / 2;
    let runtime_palette: bool = header % 2 == 1;
    let word_count: usize = match palette_word_count(bits_per_index) {
        Some(n) => n,
        None => return Err(ChunkError::UnsupportedBitsPerIndex(bits_per_index)),
    };
    proof {
        lemma_palette_words_bound(bits_per_index);
    }
    let words: Vec<u32> = match read_palette_words(payload, offset, word_count) {
        Some(w) => w,
        None => return Err(ChunkError::TruncatedPaletteWords),
    };
    if !runtime_palette {
        return Err(ChunkError::PersistentPalette);
    }
    let mut palette: Vec<u32> = Vec::new();
    if bits_per_index == 0 {
        match read_var_u32(payload, offset) {
            Some(v) => palette.push(v),
            None => return Err(ChunkError::MissingSingletonEntry),
        }
        assert(palette@ =~= seq![palette@[0]]);
    } else {
        let len: u32 = match read_var_u32(payload, offset) {
            Some(v) => v,
            None => return Err(ChunkError::MissingPaletteLength),
        };
        let palette_len: i32 = len as i32;
        if palette_len <= 0 || palette_len > 4096 {
            return Err(ChunkError::InvalidPaletteLength(palette_len));
        }
        palette = match read_runtime_palette(payload, offset, palette_len as u32) {
            Some(p) => p,
            None => return Err(ChunkError::TruncatedPaletteEntry),
        };
    }
    if !collect_samples {
        return Ok(Vec::new());
    }
    sample_layer(&words, bits_per_index, &palette, chunk_x, chunk_z, subchunk_y)
}

/// Once an entry of the runtime palette is missing, longer palettes are missing too.
proof fn lemma_palette_missing_sticks(p: Seq<u8>, off: int, k: nat, n: nat)
    requires
        k <= n,
        runtime_palette_at(p, off, k) is None,
    ensures
        runtime_palette_at(p, off, n) is None,
    decreases n - k,
{
    if k < n {
        lemma_palette_missing_sticks(p, off, k, (n - 1) as nat);
    }
}

// ---------------------------------------------------------------------------
// A whole chunk payload
// ---------------------------------------------------------------------------

/// Why sampling stopped early after something had been decoded.
#[derive(Debug, Clone, Copy, PartialEq, Eq)]
pub enum ChunkStop {
    /// A subchunk version the client does not read, with no recovery point.
    UnsupportedVersion { version: u8, offset: usize },
    /// A layer of the given subchunk could not be read.
    LayerFailed { subchunk: u32, layer: u8, error: ChunkError },
}

/// The samples of a chunk payload, how many subchunks were decoded, and why
/// sampling stopped early, if it did.
#[derive(Debug, Clone)]
pub struct LevelChunkSamples {
    pub samples: Vec<ObservedBlockSample>,
    pub decoded_subchunks: u32,
    pub stop_reason: Option<ChunkStop>,
}

/// At most the first `MAX_LEVEL_CHUNK_SAMPLES` samples.
pub open spec fn capped(samples: Seq<ObservedBlockSample>) -> Seq<ObservedBlockSample> {
    if samples.len() > MAX_LEVEL_CHUNK_SAMPLES {
        samples.take(MAX_LEVEL_CHUNK_SAMPLES as int)
    } else {
        samples
    }
}

/// Layers `layer..count` of a subchunk read from `off`, collecting from the
/// first layer only, while fewer than the cap are held: the samples and the
/// offset after them, or the failing error, the samples so far and the layer.
pub open spec fn layers_from(
    p: Seq<u8>,
    off: int,
    cx: i32,
    cz: i32,
    sy: i32,
    samples: Seq<ObservedBlockSample>,
    layer: nat,
    count: nat,
) -> Result<(Seq<ObservedBlockSample>, int), (ChunkError, Seq<ObservedBlockSample>, nat)>
    decreases count - layer,
{
    if layer >= count {
        Ok((samples, off))
    } else {
        match layer_at(p, off, cx, cz, sy, layer == 0 && samples.len() < MAX_LEVEL_CHUNK_SAMPLES) {
            Err(e) => Err((e, samples, layer)),
            Ok((found, o)) => layers_from(p, o, cx, cz, sy, capped(samples + found), layer + 1, count),
        }
    }
}

/// The scan of a chunk payload from the given state: at `off`, about to read
/// subchunk `index` of `n`, holding `samples`, with `decoded` subchunks done,
/// the height index of the last one, and whether the scan has just jumped
/// back to a recovered subchunk start.
pub open spec fn chunk_scan(
    p: Seq<u8>,
    cx: i32,
    cz: i32,
    n: nat,
    off: int,
    index: nat,
    samples: Seq<ObservedBlockSample>,
    decoded: nat,
    last_y: Option<i32>,
    recovered: bool,
) -> Result<(Seq<ObservedBlockSample>, nat, Option<ChunkStop>), ChunkError>
    decreases (if index < n { (n - index) * 2 + (if recovered { 0int } else { 1int }) } else { 0int }),
{
    if !(index < n) || off < 0 || off >= p.len() || samples.len() >= MAX_LEVEL_CHUNK_SAMPLES {
        Ok((samples, decoded, None))
    } else {
        let version = p[off];
        let o1 = off + 1;
        if version == 0 {
            Ok((samples, decoded, None))
        } else if version == 1 || version == 8 || version == 9 {
            let count_and_next: Option<(u8, int)> = if version == 1 {
                Some((1u8, o1))
            } else if o1 < p.len() {
                Some((p[o1], o1 + 1))
            } else {
                None
            };
            match count_and_next {
                None => Err(ChunkError::MissingLayerCount),
                Some((layer_count, o2)) => {
                    let y_and_next: Option<(i32, int)> = if version == 9 {
                        if o2 < p.len() {
                            Some((((p[o2] as i8) as i32), o2 + 1))
                        } else {
                            None
                        }
                    } else {
                        Some((index as i32, o2))
                    };
                    match y_and_next {
                        None => Err(ChunkError::MissingSubchunkY),
                        Some((sy, o3)) => match layers_from(p, o3, cx, cz, sy, samples, 0, layer_count as nat) {
                            Err((e, held, layer)) => {
                                if decoded > 0 || held.len() > 0 {
                                    Ok((held, decoded, Some(ChunkStop::LayerFailed { subchunk: index as u32, layer: layer as u8, error: e })))
                                } else {
                                    Err(e)
                                }
                            },
                            Ok((held, o4)) => chunk_scan(p, cx, cz, n, o4, index + 1, held, decoded + 1, Some(sy), false),
                        },
                    }
                },
            }
        } else {
            let expected_y = match last_y {
                Some(y) => Some(sat_i32(y + 1)),
                None => None,
            };
            match previous_subchunk_start(p, off, expected_y) {
                Some(c) if !recovered => chunk_scan(p, cx, cz, n, c, index, samples, decoded, last_y, true),
                _ => {
                    if decoded > 0 || samples.len() > 0 {
                        Ok((samples, decoded, Some(ChunkStop::UnsupportedVersion { version, offset: off as usize })))
                    } else {
                        Err(ChunkError::UnsupportedSubchunkVersion { version, offset: off as usize })
                    }
                },
            }
        }
    }
}

/// The samples of a chunk payload with `sub_chunk_count` subchunks, at most 32 of them read.
pub open spec fn level_chunk_samples(p: Seq<u8>, cx: i32, cz: i32, sub_chunk_count: u32) -> Result<
    (Seq<ObservedBlockSample>, nat, Option<ChunkStop>),
    ChunkError,
> {
    let n: nat = if sub_chunk_count < 32 { sub_chunk_count as nat } else { 32 };
    chunk_scan(p, cx, cz, n, 0, 0, seq![], 0, None, false)
}

fn read_layers(
    payload: &[u8],
    offset: &mut usize,
    chunk_x: i32,
    chunk_z: i32,
    subchunk_y: i32,
    samples: &mut Vec<ObservedBlockSample>,
    layer_count: u8,
) -> (r: Result<(), (ChunkError, u8)>)
    requires
        old(samples)@.len() <= MAX_LEVEL_CHUNK_SAMPLES,
    ensures
        final(samples)@.len() <= MAX_LEVEL_CHUNK_SAMPLES,
        match layers_from(payload@, *old(offset) as int, chunk_x, chunk_z, subchunk_y, old(samples)@, 0, layer_count as nat) {
            Ok((s, o)) => r is Ok && final(samples)@ == s && *final(offset) == o,
            Err((e, s, layer)) => r == Err::<(), (ChunkError, u8)>((e, layer as u8)) && final(samples)@ == s,
        },
{
    let mut layer: u8 = 0;
    while layer < layer_count
        invariant
            layer <= layer_count,
            samples@.len() <= MAX_LEVEL_CHUNK_SAMPLES,
            layers_from(payload@, *old(offset) as int, chunk_x, chunk_z, subchunk_y, old(samples)@, 0, layer_count as nat)
                == layers_from(payload@, *offset as int, chunk_x, chunk_z, subchunk_y, samples@, layer as nat, layer_count as nat),
        decreases layer_count - layer,
    {
        let collect: bool = layer == 0 && samples.len() < MAX_LEVEL_CHUNK_SAMPLES;
        let mut found: Vec<ObservedBlockSample> = match read_subchunk_runtime_layer(
            payload,
            offset,
            chunk_x,
            chunk_z,
            subchunk_y,
            collect,
        ) {
            Ok(v) => v,
            Err(e) => return Err((e, layer)),
        };
        let ghost joined = samples@ + found@;
        samples.append(&mut found);
        if samples.len() >= MAX_LEVEL_CHUNK_SAMPLES {
            samples.truncate(MAX_LEVEL_CHUNK_SAMPLES);
        }
        assert(samples@ =~= capped(joined));
        layer = layer + 1;
    }
    Ok(())
}

/// Samples a LevelChunk payload: for each of at most 32 subchunks, its
/// version and layers, collecting the top solid block of sixteen columns
/// from the first layer, up to 256 samples in all. An unsupported version
/// jumps back to a nearby plausible version-9 start once; errors after
/// something was decoded end the scan with a stop reason instead.
pub fn sample_level_chunk_payload(chunk_x: i32, chunk_z: i32, sub_chunk_count: u32, payload: &[u8]) -> (r: Result<
    LevelChunkSamples,
    ChunkError,
>)
    ensures
        match level_chunk_samples(payload@, chunk_x, chunk_z, sub_chunk_count) {
            Ok((s, d, stop)) => r matches Ok(res) && res.samples@ == s && res.decoded_subchunks == d
                && res.stop_reason == stop,
            Err(e) => r == Err::<LevelChunkSamples, ChunkError>(e),
        },
{
    let sub_chunks: u32 = if sub_chunk_count < 32 {
        sub_chunk_count
    } else {
        32
    };
    let mut offset: usize = 0;
    let mut samples: Vec<ObservedBlockSample> = Vec::new();
    let mut decoded: u32 = 0;
    let mut index: u32 = 0;
    let mut last_y: Option<i32> = None;
    let ghost mut recovered: bool = false;
    loop
        invariant
            index <= sub_chunks <= 32,
            decoded <= index,
            samples@.len() <= MAX_LEVEL_CHUNK_SAMPLES,
            recovered ==> offset < payload@.len() && payload@[offset as int] == 9,
            sub_chunks as nat == (if sub_chunk_count < 32 { sub_chunk_count as nat } else { 32nat }),
            level_chunk_samples(payload@, chunk_x, chunk_z, sub_chunk_count) == chunk_scan(
                payload@,
                chunk_x,
                chunk_z,
                sub_chunks as nat,
                offset as int,
                index as nat,
                samples@,
                decoded as nat,
                last_y,
                recovered,
            ),
        decreases (sub_chunks - index) * 2 + (if recovered { 0int } else { 1int }),
    {
        if index >= sub_chunks || offset >= payload.len() || samples.len() >= MAX_LEVEL_CHUNK_SAMPLES {
            return Ok(LevelChunkSamples { samples, decoded_subchunks: decoded, stop_reason: None });
        }
        let ghost off0 = offset as int;
        let ghost index0 = index as nat;
        let ghost samples0 = samples@;
        let ghost decoded0 = decoded as nat;
        let ghost last_y0 = last_y;
        let ghost recovered0 = recovered;
        let version: u8 = payload[offset];
        let after_version: usize = offset + 1;
        if version == 0 {
            return Ok(LevelChunkSamples { samples, decoded_subchunks: decoded, stop_reason: None });
        }
        if version == 1 || version == 8 || version == 9 {
            let mut at: usize = after_version;
            let layer_count: u8 = if version == 1 {
                1
            } else {
                match read_u8(payload, &mut at) {
                    Some(c) => c,
                    None => return Err(ChunkError::MissingLayerCount),
                }
            };
            let subchunk_y: i32 = if version == 9 {
                if at >= payload.len() {
                    return Err(ChunkError::MissingSubchunkY);
                }
                let y: i32 = (payload[at] as i8) as i32;
                at = at + 1;
                y
            } else {
                index as i32
            };
            let ghost before_layers = samples@;
            match read_layers(payload, &mut at, chunk_x, chunk_z, subchunk_y, &mut samples, layer_count) {
                Ok(()) => {},
                Err((e, layer)) => {
                    if decoded > 0 || samples.len() > 0 {
                        return Ok(
                            LevelChunkSamples {
                                samples,
                                decoded_subchunks: decoded,
                                stop_reason: Some(ChunkStop::LayerFailed { subchunk: index, layer, error: e }),
                            },
                        );
                    }
                    return Err(e);
                },
            }
            offset = at;
            last_y = Some(subchunk_y);
            decoded = decoded + 1;
            index = index + 1;
            proof {
                recovered = false;
                assert(chunk_scan(payload@, chunk_x, chunk_z, sub_chunks as nat, off0, index0, samples0, decoded0, last_y0, recovered0)
                    == chunk_scan(payload@, chunk_x, chunk_z, sub_chunks as nat, offset as int, index as nat, samples@, decoded as nat, last_y, recovered));
            }
        } else {
            let expected_y: Option<i32> = match last_y {
                Some(y) => Some(saturating_add_i32(y, 1)),
                None => None,
            };
            match find_previous_subchunk_start(payload, offset, expected_y) {
                Some(c) => {
                    offset = c;
                    proof {
                        recovered = true;
                        assert(chunk_scan(payload@, chunk_x, chunk_z, sub_chunks as nat, off0, index0, samples0, decoded0, last_y0, recovered0)
                            == chunk_scan(payload@, chunk_x, chunk_z, sub_chunks as nat, offset as int, index as nat, samples@, decoded as nat, last_y, recovered));
                    }
                },
                None => {
                    if decoded > 0 || samples.len() > 0 {
                        return Ok(
                            LevelChunkSamples {
                                samples,
                                decoded_subchunks: decoded,
                                stop_reason: Some(ChunkStop::UnsupportedVersion { version, offset }),
                            },
                        );
                    }
                    return Err(ChunkError::UnsupportedSubchunkVersion { version, offset });
                },
            }
        }
    }
}

/// A LevelChunk observation at `off`: chunk x and z and dimension (zigzag),
/// the subchunk count (a varint read as `i32`, with two more bytes when it is
/// -2), the cache flag and, when set, eight bytes per blob hash, then the
/// length-prefixed payload, which must be present. Samples come from the
/// payload when the cache is off and the count is not negative; a payload
/// that fails to decode gives no samples.
pub open spec fn level_chunk_at(s: Seq<u8>, off: int) -> Option<(i32, i32, i32, Seq<ObservedBlockSample>)> {
    match zz32(s, off) {
        None => None,
        Some((cx, o1)) => match zz32(s, o1) {
            None => None,
            Some((cz, o2)) => match zz32(s, o2) {
                None => None,
                Some((dimension, o3)) => match var32(s, o3) {
                    None => None,
                    Some((raw_count, o4)) => {
                        let sub_chunk_count = raw_count as i32;
                        let o5_ok = if sub_chunk_count == -2 { has_bytes(s, o4, 2) } else { true };
                        let o5 = if sub_chunk_count == -2 { o4 + 2 } else { o4 };
                        if !o5_ok || !has_bytes(s, o5, 1) {
                            None
                        } else {
                            let cache_enabled = s[o5] != 0;
                            let o6 = o5 + 1;
                            let blobs: Option<int> = if cache_enabled {
                                match var32(s, o6) {
                                    None => None,
                                    Some((count, o7)) => if has_bytes(s, o7, count * 8) {
                                        Some(o7 + count * 8)
                                    } else {
                                        None
                                    },
                                }
                            } else {
                                Some(o6)
                            };
                            match blobs {
                                None => None,
                                Some(o8) => match var32(s, o8) {
                                    None => None,
                                    Some((payload_len, o9)) => {
                                        if !has_bytes(s, o9, payload_len as int) {
                                            None
                                        } else {
                                            let payload = s.subrange(o9, o9 + payload_len);
                                            let samples = if cache_enabled || sub_chunk_count < 0 {
                                                seq![]
                                            } else {
                                                match level_chunk_samples(payload, cx, cz, sub_chunk_count as u32) {
                                                    Ok((found, _, _)) => found,
                                                    Err(_) => seq![],
                                                }
                                            };
                                            Some((cx, cz, dimension, samples))
                                        }
                                    },
                                },
                            }
                        }
                    },
                },
            },
        },
    }
}

pub fn read_level_chunk_observation(packet: &[u8], payload_offset: usize) -> (r: Option<ObservedPacket>)
    ensures
        match level_chunk_at(packet@, payload_offset as int) {
            Some((chunk_x, chunk_z, dimension, samples)) => r matches Some(ObservedPacket::LevelChunk { chunk_x: x, chunk_z: z, dimension: d, samples: v })
                && x == chunk_x && z == chunk_z && d == dimension && v@ == samples,
            None => r is None,
        },
{
    let mut offset: usize = payload_offset;
    let chunk_x: i32 = match read_var_u32(packet, &mut offset) {
        Some(v) => zigzag_i32(v),
        None => return None,
    };
    let chunk_z: i32 = match read_var_u32(packet, &mut offset) {
        Some(v) => zigzag_i32(v),
        None => return None,
    };
    let dimension: i32 = match read_var_u32(packet, &mut offset) {
        Some(v) => zigzag_i32(v),
        None => return None,
    };
    let sub_chunk_count: i32 = match read_var_u32(packet, &mut offset) {
        Some(v) => v as i32,
        None => return None,
    };
    if sub_chunk_count == -2 {
        if !skip_bytes(packet, &mut offset, 2) {
            return None;
        }
    }
    let cache_enabled: bool = match read_trace_bool(packet, &mut offset) {
        Ok(b) => b,
        Err(_) => return None,
    };
    if cache_enabled {
        let blob_count: u32 = match read_var_u32(packet, &mut offset) {
            Some(v) => v,
            None => return None,
        };
        let bytes: u64 = (blob_count as u64) * 8;
        if bytes > usize::MAX as u64 {
            let n: usize = packet.len();
            assert(packet@.len() <= usize::MAX);
            return None;
        }
        if !skip_bytes(packet, &mut offset, bytes as usize) {
            return None;
        }
    }
    let payload_len: u32 = match read_var_u32(packet, &mut offset) {
        Some(v) => v,
        None => return None,
    };
    if offset > packet.len() || (payload_len as usize) > packet.len() - offset {
        return None;
    }
    let payload: &[u8] = vstd::slice::slice_subrange(packet, offset, offset + payload_len as usize);
    let samples: Vec<ObservedBlockSample> = if cache_enabled || sub_chunk_count < 0 {
        Vec::new()
    } else {
        match sample_level_chunk_payload(chunk_x, chunk_z, sub_chunk_count as u32, payload) {
            Ok(result) => result.samples,
            Err(_) => Vec::new(),
        }
    };
    Some(ObservedPacket::LevelChunk { chunk_x, chunk_z, dimension, samples })
}

} // verus!
