//! Bedrock packet encryption: AES-256 in 128-bit big-endian counter mode,
//! with an eight-byte SHA-256 trailer that binds each batch to its sequence
//! number and the session key.
//!
//! The cipher of each direction is kept as its key, IV and keystream
//! position; applying the keystream at a position is the outside call.

use vstd::prelude::*;
use crate::wire::{le_bytes, push_le_u64};
use crate::compression::{Compression, CompressionError, compressed_form, compression_supported, decompressed_form, threshold_of};
use aes::cipher::{KeyIvInit, StreamCipher, StreamCipherSeek};
use sha2::Digest;
use base64::Engine;

verus! {

#[derive(Debug, Clone, PartialEq, Eq)]
pub enum EncryptionError {
    /// A batch too short to hold a trailer, by its length.
    InvalidLength(usize),
    /// The trailer did not match the digest of the batch.
    InvalidTrailer,
}

/// The SHA-256 digest of `data`.
pub uninterp spec fn sha256_digest(data: Seq<u8>) -> Seq<u8>;

/// The AES-256-CTR (128-bit big-endian counter) keystream of `key` and `iv`
/// from byte `pos`, `len` bytes long.
pub uninterp spec fn aes_ctr_keystream(key: Seq<u8>, iv: Seq<u8>, pos: int, len: nat) -> Seq<u8>;

/// The raw shared secret of P-384 Diffie-Hellman between the secret scalar
/// `secret` and the SEC1-encoded point `public`, or `None` when either does
/// not decode.
pub uninterp spec fn p384_shared_secret(secret: Seq<u8>, public: Seq<u8>) -> Option<Seq<u8>>;

/// Hashes `data` with sha2's `Sha256`.
/// Trusted: the result is `sha256_digest(data)`.
#[verifier::external_body]
fn sha256(data: &[u8]) -> (r: [u8; 32])
    ensures
        r@ == sha256_digest(data@),
{
    sha2::Sha256::digest(data).into()
}

/// XORs `data` in place with the keystream of a fresh `ctr::Ctr128BE<aes::Aes256>`
/// for `key` and `iv`, sought to byte `pos`.
/// Trusted: the result is `data` XOR `aes_ctr_keystream(key, iv, pos, len)`.
#[verifier::external_body]
fn apply_aes_ctr(key: &[u8; 32], iv: &[u8; 16], pos: u128, data: &mut Vec<u8>)
    ensures
        final(data)@ == xor_bytes(old(data)@, aes_ctr_keystream(key@, iv@, pos as int, old(data)@.len())),
{
    let mut cipher = ctr::Ctr128BE::<aes::Aes256>::new(key.into(), iv.into());
    cipher.seek(pos);
    cipher.apply_keystream(data.as_mut_slice());
}

/// Computes the P-384 Diffie-Hellman shared secret of a secret scalar and a
/// SEC1-encoded public point with p384 / elliptic-curve.
/// Trusted: the result is `p384_shared_secret(secret, public)`, 48 bytes when present.
#[verifier::external_body]
fn p384_diffie_hellman(secret: &[u8], public: &[u8]) -> (r: Option<Vec<u8>>)
    ensures
        match p384_shared_secret(secret@, public@) {
            Some(shared) => r matches Some(v) && v@ == shared && v@.len() == 48,
            None => r is None,
        },
{
    let secret = p384::SecretKey::from_slice(secret).ok()?;
    let public = p384::PublicKey::from_sec1_bytes(public).ok()?;
    let shared = p384::elliptic_curve::ecdh::diffie_hellman(secret.to_nonzero_scalar(), public.as_affine());
    Some(shared.raw_secret_bytes().to_vec())
}

/// Byte-wise XOR of `data` with `key`.
pub open spec fn xor_bytes(data: Seq<u8>, key: Seq<u8>) -> Seq<u8> {
    Seq::new(data.len(), |i: int| data[i] ^ key[i])
}

/// The eight-byte trailer of `buf` as batch number `counter`: the start of
/// SHA-256 over the counter (little-endian), the batch and the key.
pub open spec fn trailer_of(key: Seq<u8>, buf: Seq<u8>, counter: u64) -> Seq<u8> {
    let digest = sha256_digest(le_bytes(counter as nat, 8) + buf + key);
    Seq::new(8, |i: int| digest[i])
}

/// An encrypted batch: the batch and its trailer, XORed with the keystream
/// from `pos`.
pub open spec fn encrypted_frame(key: Seq<u8>, iv: Seq<u8>, pos: int, counter: u64, buf: Seq<u8>) -> Seq<u8> {
    let framed = buf + trailer_of(key, buf, counter);
    xor_bytes(framed, aes_ctr_keystream(key, iv, pos, framed.len()))
}

/// What decrypting `data` at keystream position `pos` as batch `counter` gives.
pub open spec fn decrypted_frame(key: Seq<u8>, iv: Seq<u8>, pos: int, counter: u64, data: Seq<u8>) -> Result<
    Seq<u8>,
    EncryptionError,
> {
    if data.len() <= 8 {
        Err(EncryptionError::InvalidLength(data.len() as usize))
    } else {
        let plain = xor_bytes(data, aes_ctr_keystream(key, iv, pos, data.len()));
        let body = plain.take(plain.len() - 8);
        if plain.skip(plain.len() - 8) == trailer_of(key, body, counter) {
            Ok(body)
        } else {
            Err(EncryptionError::InvalidTrailer)
        }
    }
}

/// The IV the key gives: its first twelve bytes, then 0, 0, 0, 2.
pub open spec fn iv_of(key: Seq<u8>) -> Seq<u8> {
    key.take(12) + seq![0u8, 0u8, 0u8, 2u8]
}

/// Law: the counter block of the keystream is the key's first twelve bytes
/// followed by the 32-bit big-endian counter 2, that is the bytes 0, 0, 0, 2.
pub proof fn lemma_iv_layout(key: Seq<u8>)
    requires
        key.len() >= 12,
    ensures
        iv_of(key).len() == 16,
        forall|i: int| 0 <= i < 12 ==> #[trigger] iv_of(key)[i] == key[i],
        iv_of(key)[12] == 0,
        iv_of(key)[13] == 0,
        iv_of(key)[14] == 0,
        iv_of(key)[15] == 2,
{
}

/// The session key: SHA-256 over the handshake token and the shared secret.
pub open spec fn session_key(token: Seq<u8>, shared: Seq<u8>) -> Seq<u8> {
    sha256_digest(token + shared)
}

/// The ciphers of both directions and their batch counters.
#[derive(Debug)]
pub struct Encryption {
    encrypt_counter: u64,
    encrypt_pos: u128,
    decrypt_counter: u64,
    decrypt_pos: u128,
    key: [u8; 32],
    iv: [u8; 16],
}

impl Encryption {
    pub closed spec fn spec_key(&self) -> Seq<u8> {
        self.key@
    }

    pub closed spec fn spec_iv(&self) -> Seq<u8> {
        self.iv@
    }

    pub closed spec fn spec_encrypt_counter(&self) -> u64 {
        self.encrypt_counter
    }

    pub closed spec fn spec_decrypt_counter(&self) -> u64 {
        self.decrypt_counter
    }

    pub closed spec fn spec_encrypt_pos(&self) -> u128 {
        self.encrypt_pos
    }

    pub closed spec fn spec_decrypt_pos(&self) -> u128 {
        self.decrypt_pos
    }

    /// Keys both directions from P-384 Diffie-Hellman of the client's secret
    /// scalar and the server's SEC1 public point, and the handshake token;
    /// `None` when either key does not decode.
    pub fn new(secret: &[u8], public: &[u8], token: &[u8; 16]) -> (r: Option<Self>)
        ensures
            match p384_shared_secret(secret@, public@) {
                None => r is None,
                Some(shared) => r matches Some(e) && {
                    &&& e.spec_key() == session_key(token@, shared)
                    &&& e.spec_iv() == iv_of(e.spec_key())
                    &&& e.spec_key().len() == 32
                    &&& e.spec_iv().len() == 16
                    &&& forall|i: int| 0 <= i < 12 ==> #[trigger] e.spec_iv()[i] == e.spec_key()[i]
                    &&& e.spec_iv()[12] == 0 && e.spec_iv()[13] == 0 && e.spec_iv()[14] == 0 && e.spec_iv()[15] == 2
                    &&& e.spec_encrypt_counter() == 0
                    &&& e.spec_decrypt_counter() == 0
                    &&& e.spec_encrypt_pos() == 0
                    &&& e.spec_decrypt_pos() == 0
                },
            },
    {
        let shared: Vec<u8> = match p384_diffie_hellman(secret, public) {
            Some(s) => s,
            None => return None,
        };
        let mut input: Vec<u8> = Vec::new();
        input.extend_from_slice(token.as_slice());
        input.extend_from_slice(shared.as_slice());
        assert(input@ =~= token@ + shared@);
        let key: [u8; 32] = sha256(input.as_slice());
        let iv: [u8; 16] = [
            key[0],
            key[1],
            key[2],
            key[3],
            key[4],
            key[5],
            key[6],
            key[7],
            key[8],
            key[9],
            key[10],
            key[11],
            0,
            0,
            0,
            2,
        ];
        assert(iv@ =~= iv_of(key@));
        Some(Encryption { encrypt_counter: 0, encrypt_pos: 0, decrypt_counter: 0, decrypt_pos: 0, key, iv })
    }

    /// The trailer of `buf` as batch number `counter`.
    pub fn trailer(&self, buf: &[u8], counter: u64) -> (r: [u8; 8])
        ensures
            r@ == trailer_of(self.spec_key(), buf@, counter),
    {
        let mut input: Vec<u8> = Vec::new();
        push_le_u64(&mut input, counter);
        input.extend_from_slice(buf);
        input.extend_from_slice(self.key.as_slice());
        assert(input@ =~= le_bytes(counter as nat, 8) + buf@ + self.key@);
        let digest: [u8; 32] = sha256(input.as_slice());
        let t: [u8; 8] = [digest[0], digest[1], digest[2], digest[3], digest[4], digest[5], digest[6], digest[7]];
        assert(t@ =~= trailer_of(self.spec_key(), buf@, counter));
        t
    }

    /// Appends the trailer and encrypts; the next batch gets the next number.
    pub fn encrypt(&mut self, buf: Vec<u8>) -> (r: Result<Vec<u8>, EncryptionError>)
        requires
            old(self).spec_encrypt_pos() + buf@.len() + 8 <= u128::MAX,
        ensures
            r matches Ok(out) && out@ == encrypted_frame(
                old(self).spec_key(),
                old(self).spec_iv(),
                old(self).spec_encrypt_pos() as int,
                old(self).spec_encrypt_counter(),
                buf@,
            ),
            final(self).spec_encrypt_pos() == old(self).spec_encrypt_pos() + buf@.len() + 8,
            final(self).spec_encrypt_counter() == (old(self).spec_encrypt_counter() + 1) % 0x1_0000_0000_0000_0000,
            final(self).spec_key() == old(self).spec_key(),
            final(self).spec_iv() == old(self).spec_iv(),
            final(self).spec_decrypt_pos() == old(self).spec_decrypt_pos(),
            final(self).spec_decrypt_counter() == old(self).spec_decrypt_counter(),
    {
        let trailer: [u8; 8] = self.trailer(buf.as_slice(), self.encrypt_counter);
        let mut out: Vec<u8> = Vec::new();
        out.extend_from_slice(buf.as_slice());
        out.extend_from_slice(trailer.as_slice());
        let len: usize = out.len();
        apply_aes_ctr(&self.key, &self.iv, self.encrypt_pos, &mut out);
        self.encrypt_pos = self.encrypt_pos + len as u128;
        self.encrypt_counter = self.encrypt_counter.wrapping_add(1);
        Ok(out)
    }

    #[verifier::loop_isolation(false)]
    /// Decrypts and checks the trailer. The keystream moves on by the batch
    /// length once the batch is long enough, whether or not the trailer matches;
    /// the batch number moves on only when it does.
    pub fn decrypt(&mut self, buf: Vec<u8>) -> (r: Result<Vec<u8>, EncryptionError>)
        requires
            old(self).spec_decrypt_pos() + buf@.len() <= u128::MAX,
        ensures
            match decrypted_frame(
                old(self).spec_key(),
                old(self).spec_iv(),
                old(self).spec_decrypt_pos() as int,
                old(self).spec_decrypt_counter(),
                buf@,
            ) {
                Ok(body) => r matches Ok(v) && v@ == body,
                Err(e) => r == Err::<Vec<u8>, EncryptionError>(e),
            },
            final(self).spec_decrypt_pos() == (if buf@.len() <= 8 {
                old(self).spec_decrypt_pos() as int
            } else {
                old(self).spec_decrypt_pos() + buf@.len()
            }),
            final(self).spec_decrypt_counter() == (if r is Ok {
                ((old(self).spec_decrypt_counter() + 1) % 0x1_0000_0000_0000_0000) as u64
            } else {
                old(self).spec_decrypt_counter()
            }),
            final(self).spec_key() == old(self).spec_key(),
            final(self).spec_iv() == old(self).spec_iv(),
            final(self).spec_encrypt_pos() == old(self).spec_encrypt_pos(),
            final(self).spec_encrypt_counter() == old(self).spec_encrypt_counter(),
    {
        let len: usize = buf.len();
        if len <= 8 {
            return Err(EncryptionError::InvalidLength(len));
        }
        let mut out: Vec<u8> = buf;
        apply_aes_ctr(&self.key, &self.iv, self.decrypt_pos, &mut out);
        self.decrypt_pos = self.decrypt_pos + len as u128;
        let trailer_offset: usize = len - 8;
        let body: &[u8] = vstd::slice::slice_subrange(out.as_slice(), 0, trailer_offset);
        let expected: [u8; 8] = self.trailer(body, self.decrypt_counter);
        let mut i: usize = 0;
        while i < 8
            invariant
                i <= 8,
                out@.len() == len,
                trailer_offset == len - 8,
                forall|j: int| 0 <= j < i ==> out@[trailer_offset + j] == expected@[j],
            decreases 8 - i,
        {
            if out[trailer_offset + i] != expected[i] {
                assert(out@.skip(trailer_offset as int)[i as int] != expected@[i as int]);
                return Err(EncryptionError::InvalidTrailer);
            }
            i = i + 1;
        }
        assert(out@.skip(trailer_offset as int) =~= expected@);
        assert(body@ =~= out@.take(trailer_offset as int));
        self.decrypt_counter = self.decrypt_counter.wrapping_add(1);
        out.truncate(trailer_offset);
        Ok(out)
    }
}

/// The outgoing direction moved on by one batch of `len` bytes (trailer
/// included); everything else stayed.
pub open spec fn sent_one(before: Encryption, after: Encryption, len: nat) -> bool {
    &&& after.spec_key() == before.spec_key()
    &&& after.spec_iv() == before.spec_iv()
    &&& after.spec_encrypt_pos() == before.spec_encrypt_pos() + len
    &&& after.spec_encrypt_counter() == (before.spec_encrypt_counter() + 1) % 0x1_0000_0000_0000_0000
    &&& after.spec_decrypt_pos() == before.spec_decrypt_pos()
    &&& after.spec_decrypt_counter() == before.spec_decrypt_counter()
}

/// The incoming direction moved past a received batch of `len` bytes (a
/// batch too short to hold a trailer moves nothing), and its batch number
/// moved on when the batch was accepted; everything else stayed.
pub open spec fn received_one(before: Encryption, after: Encryption, len: nat, accepted: bool) -> bool {
    &&& after.spec_key() == before.spec_key()
    &&& after.spec_iv() == before.spec_iv()
    &&& after.spec_decrypt_pos() == (if len <= 8 {
        before.spec_decrypt_pos() as int
    } else {
        before.spec_decrypt_pos() + len
    })
    &&& after.spec_decrypt_counter() == (if accepted {
        ((before.spec_decrypt_counter() + 1) % 0x1_0000_0000_0000_0000) as u64
    } else {
        before.spec_decrypt_counter()
    })
    &&& after.spec_encrypt_pos() == before.spec_encrypt_pos()
    &&& after.spec_encrypt_counter() == before.spec_encrypt_counter()
}

/// XORing twice with the same key gives the data back.
pub proof fn lemma_xor_twice(data: Seq<u8>, key: Seq<u8>)
    ensures
        xor_bytes(xor_bytes(data, key), key) == data,
{
    assert forall|i: int| 0 <= i < data.len() implies #[trigger] xor_bytes(xor_bytes(data, key), key)[i] == data[i] by {
        let d = data[i];
        let k = key[i];
        assert((d ^ k) ^ k == d) by (bit_vector);
    }
    assert(xor_bytes(xor_bytes(data, key), key) =~= data);
}

/// Law: a batch encrypted at a keystream position and batch number decrypts
/// to itself at the same position and number under the same key and IV, for
/// every non-empty batch (an empty batch encrypts to eight bytes, which
/// decryption refuses as too short).
pub proof fn lemma_encryption_roundtrip(key: Seq<u8>, iv: Seq<u8>, pos: int, counter: u64, buf: Seq<u8>)
    requires
        buf.len() > 0,
    ensures
        decrypted_frame(key, iv, pos, counter, encrypted_frame(key, iv, pos, counter, buf)) == Ok::<
            Seq<u8>,
            EncryptionError,
        >(buf),
{
    let framed = buf + trailer_of(key, buf, counter);
    let ks = aes_ctr_keystream(key, iv, pos, framed.len());
    let sent = encrypted_frame(key, iv, pos, counter, buf);
    assert(framed.len() == buf.len() + 8);
    assert(sent.len() == framed.len());
    lemma_xor_twice(framed, ks);
    assert(framed.take(buf.len() as int) =~= buf);
    assert(framed.skip(buf.len() as int) =~= trailer_of(key, buf, counter));
}

/// What base64's standard (padded) engine decodes the text to, when it decodes.
pub uninterp spec fn base64_standard_decoded(text: Seq<char>) -> Option<Seq<u8>>;

/// What base64's URL-safe unpadded engine decodes the text to, when it decodes.
pub uninterp spec fn base64_url_safe_no_pad_decoded(text: Seq<char>) -> Option<Seq<u8>>;

/// Calls `base64::engine::general_purpose::STANDARD.decode` on the text's
/// bytes. Trusted: the result, or its absence on a decode error, is
/// `base64_standard_decoded` of the text.
#[verifier::external_body]
pub(crate) fn base64_standard_decode(text: &str) -> (r: Option<Vec<u8>>)
    ensures
        match r {
            Some(b) => base64_standard_decoded(text@) == Some(b@),
            None => base64_standard_decoded(text@) is None,
        },
{
    match base64::engine::general_purpose::STANDARD.decode(text) {
        Ok(bytes) => Some(bytes),
        Err(_) => None,
    }
}

/// Calls `base64::engine::general_purpose::URL_SAFE_NO_PAD.decode` on the
/// text's bytes. Trusted: the result, or its absence on a decode error, is
/// `base64_url_safe_no_pad_decoded` of the text.
#[verifier::external_body]
fn base64_url_safe_no_pad_decode(text: &str) -> (r: Option<Vec<u8>>)
    ensures
        match r {
            Some(b) => base64_url_safe_no_pad_decoded(text@) == Some(b@),
            None => base64_url_safe_no_pad_decoded(text@) is None,
        },
{
    match base64::engine::general_purpose::URL_SAFE_NO_PAD.decode(text) {
        Ok(bytes) => Some(bytes),
        Err(_) => None,
    }
}

/// Handshake material that is base64 in neither alphabet.
#[derive(Debug, Clone, Copy, PartialEq, Eq)]
pub struct InvalidBase64;

/// The bytes of base64 handshake material: the standard padded alphabet
/// first, then the URL-safe unpadded one.
pub open spec fn handshake_base64(text: Seq<char>) -> Option<Seq<u8>> {
    match base64_standard_decoded(text) {
        Some(b) => Some(b),
        None => base64_url_safe_no_pad_decoded(text),
    }
}

pub fn decode_base64(value: &str) -> (r: Result<Vec<u8>, InvalidBase64>)
    ensures
        match handshake_base64(value@) {
            Some(b) => r matches Ok(v) && v@ == b,
            None => r == Err::<Vec<u8>, InvalidBase64>(InvalidBase64),
        },
{
    match base64_standard_decode(value) {
        Some(bytes) => Ok(bytes),
        None => match base64_url_safe_no_pad_decode(value) {
            Some(bytes) => Ok(bytes),
            None => Err(InvalidBase64),
        },
    }
}

/// Why the session encryption could not be set up from the handshake.
#[derive(Debug, Clone, Copy, PartialEq, Eq)]
pub enum HandshakeKeyError {
    /// The salt is base64 in neither alphabet.
    InvalidBase64,
    /// The salt is not sixteen bytes; it carries the length it has.
    SaltLength(usize),
    /// The keys do not agree on a shared secret.
    KeyExchange,
}

/// The session encryption the server's handshake sets up, once its token
/// was verified: the base64 salt decoded (standard, then URL-safe) must be
/// sixteen bytes; the key comes from the client's secret key, the server's
/// public key and the salt.
pub fn encryption_from_handshake_salt(secret: &[u8], public: &[u8], salt_text: &str) -> (r: Result<Encryption, HandshakeKeyError>)
    ensures
        match handshake_base64(salt_text@) {
            None => r == Err::<Encryption, HandshakeKeyError>(HandshakeKeyError::InvalidBase64),
            Some(salt) => if salt.len() != 16 {
                r == Err::<Encryption, HandshakeKeyError>(HandshakeKeyError::SaltLength(salt.len() as usize))
            } else {
                match p384_shared_secret(secret@, public@) {
                    None => r == Err::<Encryption, HandshakeKeyError>(HandshakeKeyError::KeyExchange),
                    Some(shared) => r matches Ok(e) && {
                        &&& e.spec_key() == session_key(salt, shared)
                        &&& e.spec_iv() == iv_of(e.spec_key())
                        &&& e.spec_encrypt_counter() == 0
                        &&& e.spec_decrypt_counter() == 0
                        &&& e.spec_encrypt_pos() == 0
                        &&& e.spec_decrypt_pos() == 0
                    },
                }
            },
        },
{
    let salt: Vec<u8> = match decode_base64(salt_text) {
        Ok(bytes) => bytes,
        Err(_) => return Err(HandshakeKeyError::InvalidBase64),
    };
    if salt.len() != 16 {
        return Err(HandshakeKeyError::SaltLength(salt.len()));
    }
    let token: [u8; 16] = [
        salt[0], salt[1], salt[2], salt[3], salt[4], salt[5], salt[6], salt[7],
        salt[8], salt[9], salt[10], salt[11], salt[12], salt[13], salt[14], salt[15],
    ];
    assert(token@ =~= salt@);
    match Encryption::new(secret, public, &token) {
        Some(e) => Ok(e),
        None => Err(HandshakeKeyError::KeyExchange),
    }
}

} // verus!

