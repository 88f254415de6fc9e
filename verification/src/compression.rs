//! Batch compression as negotiated with the server: a method byte, then the
//! batch deflated, snappy-framed, or as it was.

use vstd::prelude::*;
use std::io::{Read, Write};

verus! {

/// The compression a connection negotiated, with the batch size below which
/// batches go out uncompressed.
#[derive(Debug, Clone, Copy, PartialEq, Eq)]
pub enum Compression {
    Zlib { threshold: u16, compression_level: u8 },
    Snappy { threshold: u16 },
    NoCompression,
}

/// Why a batch could not be compressed or decompressed; I/O failures carry
/// the underlying error's message.
#[derive(Debug, Clone, PartialEq, Eq)]
pub enum CompressionError {
    Io(String),
    Zlib(String),
    Snappy(String),
    UnknownMethod(u8),
}

/// Method byte of a deflated batch.
pub const COMPRESSION_ID_ZLIB: u8 = 0;
/// Method byte of a snappy-framed batch.
pub const COMPRESSION_ID_SNAPPY: u8 = 1;
/// Method byte of a batch sent as it is.
pub const COMPRESSION_ID_NONE: u8 = 255;

/// The raw deflate stream that flate2's `DeflateEncoder` writes for `data` at `level`.
pub uninterp spec fn deflate_stream(level: u8, data: Seq<u8>) -> Seq<u8>;

/// What flate2's `DeflateDecoder` reads out of `data`, or `None` when it fails.
pub uninterp spec fn inflate_stream(data: Seq<u8>) -> Option<Seq<u8>>;

/// The snappy frame stream that snap's `FrameEncoder` writes for `data`.
pub uninterp spec fn snappy_frames(data: Seq<u8>) -> Seq<u8>;

/// What snap's `FrameDecoder` reads out of `data`, or `None` when it fails.
pub uninterp spec fn snappy_unframe(data: Seq<u8>) -> Option<Seq<u8>>;

/// Deflates `data` with flate2's `DeflateEncoder` at `level` into a fresh vector.
/// Trusted: it succeeds (writing into a vector cannot fail, and the
/// miniz_oxide backend fails only on bad parameters, which a level of at
/// most 10 rules out), the bytes are `deflate_stream(level, data)`, and
/// `DeflateDecoder` reads them back as `data` (deflate is lossless). Levels
/// above 10 are left out: flate2's default backend asserts against them.
#[verifier::external_body]
fn deflate_compress(level: u8, data: &[u8]) -> (r: Result<Vec<u8>, String>)
    requires
        level <= 10,
    ensures
        r is Ok,
        r matches Ok(out) ==> out@ == deflate_stream(level, data@) && inflate_stream(out@) == Some(
            data@,
        ),
{
    let mut encoder = flate2::write::DeflateEncoder::new(
        Vec::new(),
        flate2::Compression::new(level as u32),
    );
    if let Err(err) = encoder.write_all(data) {
        return Err(err.to_string());
    }
    encoder.finish().map_err(|err| err.to_string())
}

/// Inflates `data` with flate2's `DeflateDecoder` read to the end.
/// Trusted: succeeds exactly when `inflate_stream(data)` is some output, and gives it.
#[verifier::external_body]
fn deflate_decompress(data: &[u8]) -> (r: Result<Vec<u8>, String>)
    ensures
        match inflate_stream(data@) {
            Some(out) => r matches Ok(v) && v@ == out,
            None => r is Err,
        },
{
    let mut out = Vec::new();
    match flate2::read::DeflateDecoder::new(data).read_to_end(&mut out) {
        Ok(_) => Ok(out),
        Err(err) => Err(err.to_string()),
    }
}

/// Frames `data` with snap's `FrameEncoder` into a fresh vector.
/// Trusted: it succeeds (a frame encoder writing into a vector has no
/// failing path), the bytes are `snappy_frames(data)`, and `FrameDecoder`
/// reads them back as `data`.
#[verifier::external_body]
fn snappy_compress(data: &[u8]) -> (r: Result<Vec<u8>, String>)
    ensures
        r is Ok,
        r matches Ok(out) ==> out@ == snappy_frames(data@) && snappy_unframe(out@) == Some(data@),
{
    let mut encoder = snap::write::FrameEncoder::new(Vec::new());
    if let Err(err) = encoder.write_all(data) {
        return Err(err.to_string());
    }
    encoder.into_inner().map_err(|err| err.into_error().to_string())
}

/// Reads `data` to the end through snap's `FrameDecoder`.
/// Trusted: succeeds exactly when `snappy_unframe(data)` is some output, and gives it.
#[verifier::external_body]
fn snappy_decompress(data: &[u8]) -> (r: Result<Vec<u8>, String>)
    ensures
        match snappy_unframe(data@) {
            Some(out) => r matches Ok(v) && v@ == out,
            None => r is Err,
        },
{
    let mut out = Vec::new();
    match snap::read::FrameDecoder::new(data).read_to_end(&mut out) {
        Ok(_) => Ok(out),
        Err(err) => Err(err.to_string()),
    }
}

/// A compression the client can apply: zlib levels go up to 10.
pub open spec fn compression_supported(c: Compression) -> bool {
    c matches Compression::Zlib { compression_level, .. } ==> compression_level <= 10
}

/// The batch-size threshold of a compression; zero for none.
pub open spec fn threshold_of(c: Compression) -> u16 {
    match c {
        Compression::Zlib { threshold, .. } => threshold,
        Compression::Snappy { threshold } => threshold,
        Compression::NoCompression => 0,
    }
}

/// The compressed form of `src`: the none method byte and `src` below the
/// threshold or without compression, else the method byte and the encoding.
pub open spec fn compressed_form(c: Compression, src: Seq<u8>) -> Seq<u8> {
    if src.len() < threshold_of(c) {
        seq![COMPRESSION_ID_NONE] + src
    } else {
        match c {
            Compression::Zlib { compression_level, .. } => seq![COMPRESSION_ID_ZLIB] + deflate_stream(
                compression_level,
                src,
            ),
            Compression::Snappy { .. } => seq![COMPRESSION_ID_SNAPPY] + snappy_frames(src),
            Compression::NoCompression => seq![COMPRESSION_ID_NONE] + src,
        }
    }
}

/// What decompressing `src` gives: by its method byte, the inflated, unframed
/// or plain rest; an I/O error for an empty batch or a failed decoder; an
/// unknown-method error for any other byte.
pub open spec fn decompressed_form(src: Seq<u8>) -> Result<Seq<u8>, Option<u8>> {
    if src.len() == 0 {
        Err(None)
    } else {
        let payload = src.drop_first();
        if src[0] == COMPRESSION_ID_ZLIB {
            match inflate_stream(payload) {
                Some(out) => Ok(out),
                None => Err(None),
            }
        } else if src[0] == COMPRESSION_ID_SNAPPY {
            match snappy_unframe(payload) {
                Some(out) => Ok(out),
                None => Err(None),
            }
        } else if src[0] == COMPRESSION_ID_NONE {
            Ok(payload)
        } else {
            Err(Some(src[0]))
        }
    }
}

impl Compression {
    pub fn threshold(&self) -> (r: u16)
        ensures
            r == threshold_of(*self),
    {
        match self {
            Compression::Zlib { threshold, .. } => *threshold,
            Compression::Snappy { threshold } => *threshold,
            Compression::NoCompression => 0,
        }
    }

    /// Compresses a batch: below the threshold, or with no compression, the
    /// none method byte and the batch; else the method byte and the encoded
    /// batch. It always succeeds, and decompressing gives the batch back.
    pub fn compress(&self, src: Vec<u8>) -> (r: Result<Vec<u8>, CompressionError>)
        requires
            compression_supported(*self),
        ensures
            r matches Ok(out) ==> out@ == compressed_form(*self, src@),
            r matches Ok(out) ==> decompressed_form(out@) == Ok::<Seq<u8>, Option<u8>>(src@),
            r is Ok,
    {
        let mut dst: Vec<u8> = Vec::new();
        if src.len() < self.threshold() as usize {
            dst.push(COMPRESSION_ID_NONE);
            dst.extend_from_slice(src.as_slice());
            assert(dst@.drop_first() =~= src@);
            return Ok(dst);
        }
        match self {
            Compression::Zlib { compression_level, .. } => {
                dst.push(COMPRESSION_ID_ZLIB);
                match deflate_compress(*compression_level, src.as_slice()) {
                    Ok(mut body) => {
                        let ghost encoded = body@;
                        dst.append(&mut body);
                        assert(dst@.drop_first() =~= encoded);
                        Ok(dst)
                    },
                    Err(message) => Err(CompressionError::Zlib(message)),
                }
            },
            Compression::Snappy { .. } => {
                dst.push(COMPRESSION_ID_SNAPPY);
                match snappy_compress(src.as_slice()) {
                    Ok(mut body) => {
                        let ghost encoded = body@;
                        dst.append(&mut body);
                        assert(dst@.drop_first() =~= encoded);
                        Ok(dst)
                    },
                    Err(message) => Err(CompressionError::Snappy(message)),
                }
            },
            Compression::NoCompression => {
                dst.push(COMPRESSION_ID_NONE);
                dst.extend_from_slice(src.as_slice());
                assert(dst@.drop_first() =~= src@);
                Ok(dst)
            },
        }
    }

    /// Decompresses a batch by its method byte, whatever compression `self` is.
    pub fn decompress(&self, src: Vec<u8>) -> (r: Result<Vec<u8>, CompressionError>)
        ensures
            match decompressed_form(src@) {
                Ok(out) => r matches Ok(v) && v@ == out,
                Err(None) => r matches Err(CompressionError::Io(_)),
                Err(Some(method)) => r == Err::<Vec<u8>, CompressionError>(
                    CompressionError::UnknownMethod(method),
                ),
            },
    {
        if src.len() == 0 {
            return Err(CompressionError::Io(String::from_str("failed to fill whole buffer")));
        }
        let method: u8 = src[0];
        let payload: &[u8] = vstd::slice::slice_subrange(src.as_slice(), 1, src.len());
        assert(payload@ =~= src@.drop_first());
        if method == COMPRESSION_ID_ZLIB {
            match deflate_decompress(payload) {
                Ok(out) => Ok(out),
                Err(message) => Err(CompressionError::Io(message)),
            }
        } else if method == COMPRESSION_ID_SNAPPY {
            match snappy_decompress(payload) {
                Ok(out) => Ok(out),
                Err(message) => Err(CompressionError::Io(message)),
            }
        } else if method == COMPRESSION_ID_NONE {
            Ok(slice_to_vec(payload))
        } else {
            Err(CompressionError::UnknownMethod(method))
        }
    }
}

/// A copy of a byte slice.
pub fn slice_to_vec(bytes: &[u8]) -> (r: Vec<u8>)
    ensures
        r@ == bytes@,
{
    let mut out: Vec<u8> = Vec::new();
    out.extend_from_slice(bytes);
    out
}

} // verus!
