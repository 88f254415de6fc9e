//! The batch pipeline around compression and encryption: each step applies
//! when the connection has negotiated it and passes the batch through when not.

use vstd::prelude::*;
use crate::compression::{Compression, CompressionError, compressed_form, compression_supported, decompressed_form};
use crate::encryption::{Encryption, EncryptionError, decrypted_frame, encrypted_frame, received_one, sent_one};

verus! {

/// Why a batch could not go through the pipeline.
#[derive(Debug, Clone, PartialEq, Eq)]
pub enum NetworkCodecError {
    Compression(CompressionError),
    Encryption(EncryptionError),
}

/// What decompressing a received batch gives under the negotiated compression.
pub open spec fn packets_decompressed(stream: Seq<u8>, compression: Option<Compression>) -> Result<Seq<u8>, Option<u8>> {
    match compression {
        Some(_) => decompressed_form(stream),
        None => Ok(stream),
    }
}

/// Compresses a batch when compression was negotiated.
pub fn compress_packets(packet_stream: Vec<u8>, compression: Option<&Compression>) -> (r: Result<
    Vec<u8>,
    NetworkCodecError,
>)
    requires
        compression matches Some(c) ==> compression_supported(*c),
    ensures
        compression is None ==> (r matches Ok(v) && v@ == packet_stream@),
        compression matches Some(c) ==> (r matches Ok(v) ==> v@ == compressed_form(*c, packet_stream@)),
        r is Ok,
        r matches Ok(v) ==> packets_decompressed(
            v@,
            match compression {
                Some(c) => Some(*c),
                None => None,
            },
        ) == Ok::<Seq<u8>, Option<u8>>(packet_stream@),
{
    match compression {
        Some(c) => match c.compress(packet_stream) {
            Ok(v) => Ok(v),
            Err(e) => Err(NetworkCodecError::Compression(e)),
        },
        None => Ok(packet_stream),
    }
}

/// Decompresses a batch when compression was negotiated.
pub fn decompress_packets(packet_stream: Vec<u8>, compression: Option<&Compression>) -> (r: Result<
    Vec<u8>,
    NetworkCodecError,
>)
    ensures
        match packets_decompressed(
            packet_stream@,
            match compression {
                Some(c) => Some(*c),
                None => None,
            },
        ) {
            Ok(out) => r matches Ok(v) && v@ == out,
            Err(None) => r matches Err(NetworkCodecError::Compression(CompressionError::Io(_))),
            Err(Some(method)) => r == Err::<Vec<u8>, NetworkCodecError>(
                NetworkCodecError::Compression(CompressionError::UnknownMethod(method)),
            ),
        },
{
    match compression {
        Some(c) => match c.decompress(packet_stream) {
            Ok(v) => Ok(v),
            Err(e) => Err(NetworkCodecError::Compression(e)),
        },
        None => Ok(packet_stream),
    }
}

/// Encrypts a batch when encryption is on.
pub fn encrypt_packets(packet_stream: Vec<u8>, encryption: Option<&mut Encryption>) -> (r: Result<
    Vec<u8>,
    NetworkCodecError,
>)
    requires
        encryption matches Some(e) ==> e.spec_encrypt_pos() + packet_stream@.len() + 8 <= u128::MAX,
    ensures
        encryption is None ==> (r matches Ok(v) && v@ == packet_stream@),
        encryption matches Some(e) ==> (r matches Ok(v) && v@ == encrypted_frame(
            e.spec_key(),
            e.spec_iv(),
            e.spec_encrypt_pos() as int,
            e.spec_encrypt_counter(),
            packet_stream@,
        )),
        encryption matches Some(e) ==> sent_one(*e, *final(e), packet_stream@.len() + 8),
{
    match encryption {
        Some(e) => match e.encrypt(packet_stream) {
            Ok(v) => Ok(v),
            Err(err) => Err(NetworkCodecError::Encryption(err)),
        },
        None => Ok(packet_stream),
    }
}

/// Decrypts a batch when encryption is on.
pub fn decrypt_packets(packet_stream: Vec<u8>, encryption: Option<&mut Encryption>) -> (r: Result<
    Vec<u8>,
    NetworkCodecError,
>)
    requires
        encryption matches Some(e) ==> e.spec_decrypt_pos() + packet_stream@.len() <= u128::MAX,
    ensures
        encryption is None ==> (r matches Ok(v) && v@ == packet_stream@),
        encryption matches Some(e) ==> match decrypted_frame(
            e.spec_key(),
            e.spec_iv(),
            e.spec_decrypt_pos() as int,
            e.spec_decrypt_counter(),
            packet_stream@,
        ) {
            Ok(body) => r matches Ok(v) && v@ == body,
            Err(err) => r == Err::<Vec<u8>, NetworkCodecError>(NetworkCodecError::Encryption(err)),
        },
        encryption matches Some(e) ==> received_one(
            *e,
            *final(e),
            packet_stream@.len(),
            decrypted_frame(e.spec_key(), e.spec_iv(), e.spec_decrypt_pos() as int, e.spec_decrypt_counter(), packet_stream@) is Ok,
        ),
{
    match encryption {
        Some(e) => match e.decrypt(packet_stream) {
            Ok(v) => Ok(v),
            Err(err) => Err(NetworkCodecError::Encryption(err)),
        },
        None => Ok(packet_stream),
    }
}

} // verus!
