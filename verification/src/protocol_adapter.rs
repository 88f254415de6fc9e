//! The client side of a Bedrock connection above the transport: the login
//! address and token, the packets of the handshake, and the batch pipeline
//! (a batch going out is compressed, then encrypted; a batch coming in is
//! decrypted, then decompressed).

use vstd::prelude::*;
use crate::batch::{observation_of, observe_packet_ids, stream_packets};
use crate::wire::FrameError;
use crate::codec::{compress_packets, packets_decompressed, NetworkCodecError};
use crate::compression::{compressed_form, compression_supported, Compression, CompressionError};
use crate::encryption::{decrypted_frame, encrypted_frame, lemma_encryption_roundtrip, received_one, sent_one, Encryption, EncryptionError};
use crate::observe::ObservedPacket;
use crate::protocol_options::{codec_number, validate_protocol_version, BedrockProtocolOptions, BedrockProtocolVersionSource, ProtocolVersionError};
use crate::varint::{varint_encode, write_unsigned_varint_u32};
use crate::wire::frame_packet;
use crate::auth::ProvisionedBedrockSession;
use crate::diagnostics::{decimal, push_decimal};
use crate::text::{chars_eq_ignore_ascii_case, chars_to_string, lower_chars, str_chars, trim_char_vec, trimmed};
use crate::encryption::{base64_standard_decode, base64_standard_decoded};
use crate::packets::{
    encode_network_stack_latency_packet_stream, framed_packet, latency_payload,
    network_stack_latency_response_timestamp, NETWORK_STACK_LATENCY_MAGNITUDE,
    NETWORK_STACK_LATENCY_PACKET_ID,
};

verus! {

/// Why a received batch could not be read.
#[derive(Debug, Clone, PartialEq, Eq)]
pub enum InboundError {
    Codec(NetworkCodecError),
    Frame(FrameError),
}

/// A connection's codec state: the compression and the session ciphers it
/// has negotiated (either is absent until the handshake turns it on), the
/// address it logs in to, and the protocol it speaks.
pub struct BedrockProtocolAdapter {
    pub compression: Option<Compression>,
    pub encryption: Option<Encryption>,
    pub server_address: String,
    pub protocol_options: BedrockProtocolOptions,
}

/// The text of an optional string.
pub open spec fn opt_chars(s: Option<&str>) -> Option<Seq<char>> {
    match s {
        Some(v) => Some(v@),
        None => None,
    }
}

/// The address a login names: the override, trimmed, when it holds
/// anything; else `host:port`.
pub open spec fn login_address(host: Seq<char>, port: u16, login_address_override: Option<Seq<char>>) -> Seq<char> {
    match login_address_override {
        Some(a) if trimmed(a).len() > 0 => trimmed(a),
        _ => host + seq![':'] + decimal(port as nat),
    }
}

/// The address the login packet names, with the override (the
/// `BEDROCK_LOGIN_SERVER_ADDRESS` setting) taking precedence when not blank.
pub fn login_server_address(host: &str, port: u16, login_address_override: Option<&str>) -> (r: String)
    ensures
        r@ == login_address(host@, port, opt_chars(login_address_override)),
{
    if let Some(address) = login_address_override {
        let chars = str_chars(address);
        let t = trim_char_vec(&chars);
        if t.len() > 0 {
            return chars_to_string(t.as_slice());
        }
    }
    let mut out: Vec<char> = str_chars(host);
    out.push(':');
    push_decimal(port as u64, &mut out);
    chars_to_string(out.as_slice())
}

/// The token the login uses: the legacy Bedrock token when the source
/// setting reads `legacy` (any case), else the Bedrock login token.
pub fn login_token_for_session<'a>(session: &'a ProvisionedBedrockSession, source: &str) -> (r: &'a str)
    ensures
        r@ == (if lower_chars(source@) == "legacy"@ {
            session.legacy_bedrock_token@
        } else {
            session.bedrock_login_token@
        }),
{
    let s = str_chars(source);
    let legacy = str_chars("legacy");
    proof {
        reveal_strlit("legacy");
        assert(lower_chars("legacy"@) =~= "legacy"@);
    }
    if chars_eq_ignore_ascii_case(&s, &legacy) {
        session.legacy_bedrock_token.as_str()
    } else {
        session.bedrock_login_token.as_str()
    }
}

/// Why an overriding Login connection request could not be used.
#[derive(Debug, Clone, Copy, PartialEq, Eq)]
pub struct InvalidConnectionRequestOverride;

/// The Login connection request an override setting supplies, as base64
/// text: none when it is blank, else its bytes, or an error when it is not
/// standard base64.
pub fn decode_connection_request_override(value: &str) -> (r: Result<Option<Vec<u8>>, InvalidConnectionRequestOverride>)
    ensures
        trimmed(value@).len() == 0 ==> r == Ok::<Option<Vec<u8>>, InvalidConnectionRequestOverride>(None),
        trimmed(value@).len() > 0 ==> match base64_standard_decoded(trimmed(value@)) {
            Some(bytes) => r matches Ok(Some(v)) && v@ == bytes,
            None => r == Err::<Option<Vec<u8>>, InvalidConnectionRequestOverride>(InvalidConnectionRequestOverride),
        },
{
    let chars = str_chars(value);
    let t = trim_char_vec(&chars);
    if t.len() == 0 {
        return Ok(None);
    }
    let text = chars_to_string(t.as_slice());
    match base64_standard_decode(text.as_str()) {
        Some(bytes) => Ok(Some(bytes)),
        None => Err(InvalidConnectionRequestOverride),
    }
}

/// Packet id of RequestNetworkSettings.
pub const REQUEST_NETWORK_SETTINGS_PACKET_ID: u32 = 0xc1;
/// Packet id of Login.
pub const LOGIN_PACKET_ID: u32 = 0x01;
/// The zlib level used once the server asks for zlib.
pub const NETWORK_ZLIB_LEVEL: u8 = 7;

/// The four bytes of a protocol version, big-endian.
pub open spec fn be_i32_bytes(v: i32) -> Seq<u8> {
    let u = v as u32;
    seq![(u >> 24u32) as u8, ((u >> 16u32) & 0xff) as u8, ((u >> 8u32) & 0xff) as u8, (u & 0xff) as u8]
}

fn push_be_i32(out: &mut Vec<u8>, v: i32)
    ensures
        final(out)@ == old(out)@ + be_i32_bytes(v),
{
    let u: u32 = v as u32;
    out.push((u >> 24u32) as u8);
    out.push(((u >> 16u32) & 0xff) as u8);
    out.push(((u >> 8u32) & 0xff) as u8);
    out.push((u & 0xff) as u8);
    assert(final(out)@ =~= old(out)@ + be_i32_bytes(v));
}

/// The batch stream of a RequestNetworkSettings packet asking for
/// `protocol_version`: its id, then the version big-endian.
pub fn encode_request_network_settings_packet_stream(protocol_version: i32) -> (r: Vec<u8>)
    ensures
        r@ == framed_packet(REQUEST_NETWORK_SETTINGS_PACKET_ID, be_i32_bytes(protocol_version)),
{
    let mut packet: Vec<u8> = Vec::new();
    write_unsigned_varint_u32(REQUEST_NETWORK_SETTINGS_PACKET_ID, &mut packet);
    push_be_i32(&mut packet, protocol_version);
    proof {
        crate::varint::lemma_varint_u32_len(REQUEST_NETWORK_SETTINGS_PACKET_ID);
        assert(packet@ =~= varint_encode(REQUEST_NETWORK_SETTINGS_PACKET_ID as nat) + be_i32_bytes(protocol_version));
    }
    let mut stream: Vec<u8> = Vec::new();
    frame_packet(packet.as_slice(), &mut stream);
    assert(stream@ =~= framed_packet(REQUEST_NETWORK_SETTINGS_PACKET_ID, be_i32_bytes(protocol_version)));
    stream
}

/// A Login packet: its id, the protocol version big-endian, then the
/// connection request with its length as a varint (of the length's low 32 bits).
pub open spec fn login_packet(protocol_version: i32, connection_request: Seq<u8>) -> Seq<u8> {
    varint_encode(LOGIN_PACKET_ID as nat) + be_i32_bytes(protocol_version) + varint_encode(
        (connection_request.len() as u32) as nat,
    ) + connection_request
}

/// The Login batch stream before compression: the packet with its length
/// as a varint (of the length's low 32 bits).
pub open spec fn login_batch(protocol_version: i32, connection_request: Seq<u8>) -> Seq<u8> {
    let packet = login_packet(protocol_version, connection_request);
    varint_encode((packet.len() as u32) as nat) + packet
}

/// Why a Login batch could not be made.
#[derive(Debug, Clone, PartialEq, Eq)]
pub enum LoginBatchError {
    Protocol(ProtocolVersionError),
    Codec(NetworkCodecError),
}

impl BedrockProtocolAdapter {
    /// The batch stream of RequestNetworkSettings for the requested protocol.
    pub fn request_network_settings_packet_stream(&self) -> (r: Vec<u8>)
        ensures
            r@ == framed_packet(
                REQUEST_NETWORK_SETTINGS_PACKET_ID,
                be_i32_bytes(self.protocol_options.requested_protocol_version),
            ),
    {
        encode_request_network_settings_packet_stream(self.protocol_options.requested_protocol_version)
    }

    /// The Login batch for a connection request at `protocol_version`,
    /// compressed when compression is on; a version that is not positive is
    /// refused first.
    pub fn encode_login_packet_batch_with_protocol(
        connection_request: &[u8],
        compression: Option<&Compression>,
        protocol_version: i32,
    ) -> (r: Result<Vec<u8>, LoginBatchError>)
        requires
            protocol_version > 0 ==> (compression matches Some(c) ==> compression_supported(*c)),
        ensures
            protocol_version <= 0 ==> r == Err::<Vec<u8>, LoginBatchError>(
                LoginBatchError::Protocol(ProtocolVersionError::NotPositive(BedrockProtocolVersionSource::Config, protocol_version)),
            ),
            protocol_version > 0 ==> match compression {
                None => r matches Ok(v) && v@ == login_batch(protocol_version, connection_request@),
                Some(c) => r matches Ok(v) && v@ == compressed_form(*c, login_batch(protocol_version, connection_request@)),
            },
    {
        match validate_protocol_version(BedrockProtocolVersionSource::Config, protocol_version) {
            Ok(()) => {},
            Err(e) => return Err(LoginBatchError::Protocol(e)),
        }
        let mut packet: Vec<u8> = Vec::new();
        write_unsigned_varint_u32(LOGIN_PACKET_ID, &mut packet);
        push_be_i32(&mut packet, protocol_version);
        let request_len: usize = connection_request.len();
        #[verifier::truncate]
        let request_len32: u32 = request_len as u32;
        write_unsigned_varint_u32(request_len32, &mut packet);
        let ghost before_request = packet@;
        packet.extend_from_slice(connection_request);
        assert(packet@ =~= login_packet(protocol_version, connection_request@));
        let packet_len: usize = packet.len();
        #[verifier::truncate]
        let packet_len32: u32 = packet_len as u32;
        let mut batch: Vec<u8> = Vec::new();
        write_unsigned_varint_u32(packet_len32, &mut batch);
        batch.extend_from_slice(packet.as_slice());
        assert(batch@ =~= login_batch(protocol_version, connection_request@));
        match compress_packets(batch, compression) {
            Ok(v) => Ok(v),
            Err(e) => Err(LoginBatchError::Codec(e)),
        }
    }
}

/// A Disconnect, as the handshake reads it.
#[derive(Debug, Clone, PartialEq, Eq)]
pub struct DisconnectInfo {
    pub reason: i32,
    pub hide_reason: bool,
    pub message: Option<String>,
}

/// A packet received during the handshake, as far as the handshake reads it.
#[derive(Debug, Clone, PartialEq, Eq)]
pub enum HandshakePacket {
    NetworkSettings { compression_algorithm: u16, compression_threshold: u16 },
    ServerToClientHandshake { handshake_web_token: String },
    PlayStatus { status: i32 },
    Disconnect(DisconnectInfo),
    ResourcePacksInfo,
    ResourcePackStack,
    StartGame,
    Other { packet_id: u32 },
}

/// Why the handshake failed.
#[derive(Debug, Clone, PartialEq, Eq)]
pub enum HandshakeError {
    /// The server disconnected before sending its network settings.
    EarlyDisconnect { protocol_version: i32, codec_protocol_version: i32, disconnect: DisconnectInfo },
    /// The server sent no network settings.
    NetworkSettingsMissing { protocol_version: i32, codec_protocol_version: i32 },
    /// The server answered the login with a failing play status.
    PlayStatusFailure { status: i32 },
    /// The server disconnected an offline (xuid 0) login.
    OfflineLoginRejected { reason: i32, message: Option<String> },
    /// The server disconnected during the login.
    Disconnected(DisconnectInfo),
}

/// The compression the server's network settings ask for: algorithm 0 is
/// zlib at `NETWORK_ZLIB_LEVEL`, 1 is snappy, anything else is none.
pub open spec fn network_compression(algorithm: u16, threshold: u16) -> Compression {
    if algorithm == 0 {
        Compression::Zlib { threshold: threshold, compression_level: NETWORK_ZLIB_LEVEL }
    } else if algorithm == 1 {
        Compression::Snappy { threshold: threshold }
    } else {
        Compression::NoCompression
    }
}

/// The first network settings among the packets from `from` on.
pub open spec fn first_settings(packets: Seq<HandshakePacket>, from: int) -> Option<(u16, u16)>
    decreases packets.len() - from,
{
    if from < 0 || from >= packets.len() {
        None
    } else {
        match packets[from] {
            HandshakePacket::NetworkSettings { compression_algorithm, compression_threshold } => Some(
                (compression_algorithm, compression_threshold),
            ),
            _ => first_settings(packets, from + 1),
        }
    }
}

/// The last Disconnect among the first `n` packets.
pub open spec fn last_disconnect(packets: Seq<HandshakePacket>, n: int) -> Option<DisconnectInfo>
    decreases n,
{
    if n <= 0 || n > packets.len() {
        None
    } else {
        match packets[n - 1] {
            HandshakePacket::Disconnect(d) => Some(d),
            _ => last_disconnect(packets, n - 1),
        }
    }
}

/// What the answer to RequestNetworkSettings leads to: the compression of
/// its first network settings; else an error naming the last Disconnect, if
/// any.
pub open spec fn settings_outcome(packets: Seq<HandshakePacket>, protocol_version: i32, codec_protocol_version: i32) -> Result<
    Compression,
    HandshakeError,
> {
    match first_settings(packets, 0) {
        Some((algorithm, threshold)) => Ok(network_compression(algorithm, threshold)),
        None => match last_disconnect(packets, packets.len() as int) {
            Some(d) => Err(HandshakeError::EarlyDisconnect { protocol_version, codec_protocol_version, disconnect: d }),
            None => Err(HandshakeError::NetworkSettingsMissing { protocol_version, codec_protocol_version }),
        },
    }
}

fn copy_disconnect(d: &DisconnectInfo) -> (r: DisconnectInfo)
    ensures
        r == *d,
{
    DisconnectInfo {
        reason: d.reason,
        hide_reason: d.hide_reason,
        message: match &d.message {
            Some(m) => Some(m.clone()),
            None => None,
        },
    }
}

/// The compression of the first network settings among `packets`.
fn find_network_settings(packets: &[HandshakePacket]) -> (r: Option<Compression>)
    ensures
        r == (match first_settings(packets@, 0) {
            Some((algorithm, threshold)) => Some(network_compression(algorithm, threshold)),
            None => None,
        }),
{
    let mut i: usize = 0;
    while i < packets.len()
        invariant
            i <= packets@.len(),
            first_settings(packets@, 0) == first_settings(packets@, i as int),
        decreases packets@.len() - i,
    {
        if let HandshakePacket::NetworkSettings { compression_algorithm, compression_threshold } = &packets[i] {
            let compression = if *compression_algorithm == 0 {
                Compression::Zlib { threshold: *compression_threshold, compression_level: NETWORK_ZLIB_LEVEL }
            } else if *compression_algorithm == 1 {
                Compression::Snappy { threshold: *compression_threshold }
            } else {
                Compression::NoCompression
            };
            return Some(compression);
        }
        i = i + 1;
    }
    None
}

/// The last Disconnect among `packets`.
fn find_last_disconnect(packets: &[HandshakePacket]) -> (r: Option<DisconnectInfo>)
    ensures
        r == last_disconnect(packets@, packets@.len() as int),
{
    let mut j: usize = packets.len();
    while j > 0
        invariant
            j <= packets@.len(),
            last_disconnect(packets@, packets@.len() as int) == last_disconnect(packets@, j as int),
        decreases j,
    {
        if let HandshakePacket::Disconnect(d) = &packets[j - 1] {
            return Some(copy_disconnect(d));
        }
        j = j - 1;
    }
    None
}

/// A play status that lets the login go on: success (0) or spawn (3).
pub open spec fn play_status_ok(status: i32) -> bool {
    status == 0 || status == 3
}

/// A packet that ends the wait for the login's answer.
pub open spec fn answers_login(p: HandshakePacket) -> bool {
    ||| p is PlayStatus
    ||| p is ResourcePacksInfo
    ||| p is ResourcePackStack
    ||| p is StartGame
}

/// What the login handshake does with a packet.
#[derive(Debug, Clone, PartialEq, Eq)]
pub enum HandshakeStep {
    /// Derive the session keys from this token, turn encryption on and
    /// answer with ClientToServerHandshake.
    StartEncryption { handshake_web_token: String },
    /// Keep the packet for after the handshake.
    Keep,
    /// Stop: the login failed.
    Fail(HandshakeError),
}

/// The login handshake so far: the packets kept for afterwards, and whether
/// encryption was turned on.
pub struct LoginHandshake {
    pub pending: Vec<HandshakePacket>,
    pub encryption_enabled: bool,
}

impl LoginHandshake {
    pub fn new() -> (r: Self)
        ensures
            r.pending@.len() == 0,
            !r.encryption_enabled,
    {
        LoginHandshake { pending: Vec::new(), encryption_enabled: false }
    }

    /// Takes one received packet: a handshake token starts encryption; a
    /// failing play status or a Disconnect (told apart for an offline login,
    /// xuid `0`) fails the login; anything else is kept.
    pub fn accept_packet(&mut self, packet: HandshakePacket, xuid: &str) -> (r: HandshakeStep)
        ensures
            match packet {
                HandshakePacket::ServerToClientHandshake { handshake_web_token } => r == HandshakeStep::StartEncryption {
                    handshake_web_token,
                } && final(self).encryption_enabled && final(self).pending@ == old(self).pending@,
                HandshakePacket::PlayStatus { status } => if play_status_ok(status) {
                    r == HandshakeStep::Keep && final(self).pending@ == old(self).pending@.push(packet)
                        && final(self).encryption_enabled == old(self).encryption_enabled
                } else {
                    r == HandshakeStep::Fail(HandshakeError::PlayStatusFailure { status })
                        && final(self).pending@ == old(self).pending@
                        && final(self).encryption_enabled == old(self).encryption_enabled
                },
                HandshakePacket::Disconnect(d) => r == HandshakeStep::Fail(
                    if xuid@ == "0"@ {
                        HandshakeError::OfflineLoginRejected { reason: d.reason, message: d.message }
                    } else {
                        HandshakeError::Disconnected(d)
                    },
                ) && final(self).pending@ == old(self).pending@
                    && final(self).encryption_enabled == old(self).encryption_enabled,
                _ => r == HandshakeStep::Keep && final(self).pending@ == old(self).pending@.push(packet)
                    && final(self).encryption_enabled == old(self).encryption_enabled,
            },
    {
        proof {
            reveal_strlit("0");
        }
        match packet {
            HandshakePacket::ServerToClientHandshake { handshake_web_token } => {
                self.encryption_enabled = true;
                HandshakeStep::StartEncryption { handshake_web_token }
            },
            HandshakePacket::PlayStatus { status } => {
                if status != 0 && status != 3 {
                    HandshakeStep::Fail(HandshakeError::PlayStatusFailure { status })
                } else {
                    self.pending.push(HandshakePacket::PlayStatus { status });
                    HandshakeStep::Keep
                }
            },
            HandshakePacket::Disconnect(d) => {
                let xuid_chars = str_chars(xuid);
                let zero = str_chars("0");
                let offline: bool = crate::text::chars_equal(&xuid_chars, &zero);
                if offline {
                    HandshakeStep::Fail(HandshakeError::OfflineLoginRejected { reason: d.reason, message: d.message })
                } else {
                    HandshakeStep::Fail(HandshakeError::Disconnected(d))
                }
            },
            other => {
                self.pending.push(other);
                HandshakeStep::Keep
            },
        }
    }

    /// The handshake is over: encryption is on, or a kept packet answers the login.
    pub fn finished(&self) -> (r: bool)
        ensures
            r == (self.encryption_enabled || exists|i: int| 0 <= i < self.pending@.len() && answers_login(
                #[trigger] self.pending@[i],
            )),
    {
        if self.encryption_enabled {
            return true;
        }
        let mut i: usize = 0;
        while i < self.pending.len()
            invariant
                i <= self.pending@.len(),
                forall|j: int| 0 <= j < i ==> !answers_login(#[trigger] self.pending@[j]),
            decreases self.pending@.len() - i,
        {
            let answers: bool = match &self.pending[i] {
                HandshakePacket::PlayStatus { .. } => true,
                HandshakePacket::ResourcePacksInfo => true,
                HandshakePacket::ResourcePackStack => true,
                HandshakePacket::StartGame => true,
                _ => false,
            };
            if answers {
                return true;
            }
            i = i + 1;
        }
        false
    }
}

impl BedrockProtocolAdapter {
    /// Takes the answer to RequestNetworkSettings: the first network
    /// settings turn compression on; without them the handshake fails,
    /// naming the last Disconnect if there was one.
    pub fn apply_network_settings(&mut self, packets: &[HandshakePacket]) -> (r: Result<(), HandshakeError>)
        ensures
            match settings_outcome(
                packets@,
                old(self).protocol_options.requested_protocol_version,
                codec_number(old(self).protocol_options.codec_protocol_version) as i32,
            ) {
                Ok(c) => r is Ok && final(self).compression == Some(c),
                Err(e) => r == Err::<(), HandshakeError>(e) && final(self).compression == old(self).compression,
            },
            final(self).encryption == old(self).encryption,
            final(self).server_address == old(self).server_address,
            final(self).protocol_options == old(self).protocol_options,
    {
        let protocol_version = self.protocol_options.requested_protocol_version;
        let codec_version = self.protocol_options.codec_protocol_version_number();
        match find_network_settings(packets) {
            Some(compression) => {
                self.compression = Some(compression);
                return Ok(());
            },
            None => {},
        }
        match find_last_disconnect(packets) {
            Some(d) => Err(HandshakeError::EarlyDisconnect { protocol_version, codec_protocol_version: codec_version, disconnect: d }),
            None => Err(HandshakeError::NetworkSettingsMissing { protocol_version, codec_protocol_version: codec_version }),
        }
    }
}

/// Key, IV, keystream position and batch number of the outgoing direction.
pub open spec fn outgoing_cipher(e: Option<Encryption>) -> Option<(Seq<u8>, Seq<u8>, int, u64)> {
    match e {
        Some(e) => Some((e.spec_key(), e.spec_iv(), e.spec_encrypt_pos() as int, e.spec_encrypt_counter())),
        None => None,
    }
}

/// Key, IV, keystream position and batch number of the incoming direction.
pub open spec fn incoming_cipher(e: Option<Encryption>) -> Option<(Seq<u8>, Seq<u8>, int, u64)> {
    match e {
        Some(e) => Some((e.spec_key(), e.spec_iv(), e.spec_decrypt_pos() as int, e.spec_decrypt_counter())),
        None => None,
    }
}

/// A batch after the compression step: unchanged when none was negotiated.
pub open spec fn compressed_batch(c: Option<Compression>, plain: Seq<u8>) -> Seq<u8> {
    match c {
        Some(c) => compressed_form(c, plain),
        None => plain,
    }
}

/// A batch as it goes on the wire: compressed, then framed and encrypted
/// under the outgoing cipher when there is one.
pub open spec fn sealed_batch(
    c: Option<Compression>,
    cipher: Option<(Seq<u8>, Seq<u8>, int, u64)>,
    plain: Seq<u8>,
) -> Seq<u8> {
    let body = compressed_batch(c, plain);
    match cipher {
        Some((key, iv, pos, counter)) => encrypted_frame(key, iv, pos, counter, body),
        None => body,
    }
}

/// A received batch after the decryption step.
pub open spec fn deciphered(cipher: Option<(Seq<u8>, Seq<u8>, int, u64)>, wire: Seq<u8>) -> Result<Seq<u8>, EncryptionError> {
    match cipher {
        Some((key, iv, pos, counter)) => decrypted_frame(key, iv, pos, counter, wire),
        None => Ok(wire),
    }
}

/// Which step refused a received batch.
#[derive(Debug, Clone, PartialEq, Eq)]
pub enum OpenFault {
    /// Decryption refused it.
    Cipher(EncryptionError),
    /// Its compression method byte is unknown.
    Method(u8),
    /// It is empty after decryption, or its compressed stream does not decode.
    Stream,
}

/// What opening a received batch gives: decrypted under the incoming
/// cipher, then decompressed.
pub open spec fn opened_batch(
    c: Option<Compression>,
    cipher: Option<(Seq<u8>, Seq<u8>, int, u64)>,
    wire: Seq<u8>,
) -> Result<Seq<u8>, OpenFault> {
    match deciphered(cipher, wire) {
        Err(e) => Err(OpenFault::Cipher(e)),
        Ok(body) => match packets_decompressed(body, c) {
            Ok(plain) => Ok(plain),
            Err(Some(method)) => Err(OpenFault::Method(method)),
            Err(None) => Err(OpenFault::Stream),
        },
    }
}

/// The pipeline's error for a refused batch is the fault `opened_batch` names.
pub open spec fn reports_fault(r: NetworkCodecError, f: OpenFault) -> bool {
    match f {
        OpenFault::Cipher(e) => r == NetworkCodecError::Encryption(e),
        OpenFault::Method(m) => r == NetworkCodecError::Compression(CompressionError::UnknownMethod(m)),
        OpenFault::Stream => r matches NetworkCodecError::Compression(CompressionError::Io(_)),
    }
}

/// The outgoing keystream has room for any batch a vector can hold.
pub open spec fn outgoing_room(e: Option<Encryption>) -> bool {
    e matches Some(e) ==> e.spec_encrypt_pos() + usize::MAX + 8 <= u128::MAX
}

/// The incoming keystream has room for any batch a vector can hold.
pub open spec fn incoming_room(e: Option<Encryption>) -> bool {
    e matches Some(e) ==> e.spec_decrypt_pos() + usize::MAX <= u128::MAX
}

/// The compression, when there is one, is one the client can apply.
pub open spec fn applicable(c: Option<Compression>) -> bool {
    c matches Some(c) ==> compression_supported(c)
}

/// Law: a batch the pipeline sealed opens back to itself on a peer that
/// uses the same compression and whose incoming cipher stands where the
/// sender's outgoing cipher stood. It holds of every batch whose compression
/// step decodes back (which a successful send guarantees), except an empty
/// batch sent encrypted without compression: its frame is the bare
/// eight-byte trailer, which decryption refuses as too short.
pub proof fn lemma_sealed_batch_opens(
    c: Option<Compression>,
    cipher: Option<(Seq<u8>, Seq<u8>, int, u64)>,
    plain: Seq<u8>,
)
    requires
        packets_decompressed(compressed_batch(c, plain), c) == Ok::<Seq<u8>, Option<u8>>(plain),
        cipher is Some ==> compressed_batch(c, plain).len() > 0,
    ensures
        opened_batch(c, cipher, sealed_batch(c, cipher, plain)) == Ok::<Seq<u8>, OpenFault>(plain),
{
    match cipher {
        Some((key, iv, pos, counter)) => {
            lemma_encryption_roundtrip(key, iv, pos, counter, compressed_batch(c, plain));
        },
        None => {},
    }
}

/// Compressing always adds the method byte, so only an uncompressed empty
/// batch is empty after the compression step.
pub proof fn lemma_compressed_batch_nonempty(c: Option<Compression>, plain: Seq<u8>)
    requires
        c is Some || plain.len() > 0,
    ensures
        compressed_batch(c, plain).len() > 0,
{
}

impl BedrockProtocolAdapter {
    /// A connection to `host:port` before the handshake: no compression, no
    /// encryption; it logs in to the address the override names, if any.
    pub fn new(host: &str, port: u16, protocol_options: BedrockProtocolOptions, login_address_override: Option<&str>) -> (r: Self)
        ensures
            r.compression is None,
            r.encryption is None,
            r.server_address@ == login_address(host@, port, opt_chars(login_address_override)),
            r.protocol_options == protocol_options,
    {
        BedrockProtocolAdapter {
            compression: None,
            encryption: None,
            server_address: login_server_address(host, port, login_address_override),
            protocol_options,
        }
    }

    pub fn protocol_options(&self) -> (r: BedrockProtocolOptions)
        ensures
            r == self.protocol_options,
    {
        self.protocol_options
    }

    /// Turns a plain batch stream into what goes on the wire: compressed when
    /// compression is on, then encrypted when encryption is on. It always
    /// succeeds.
    pub fn prepare_outbound_packet_stream(&mut self, plain_batch: Vec<u8>) -> (r: Result<Vec<u8>, NetworkCodecError>)
        requires
            applicable(old(self).compression),
            outgoing_room(old(self).encryption),
        ensures
            final(self).compression == old(self).compression,
            r is Ok,
            r matches Ok(wire) ==> {
                &&& wire@ == sealed_batch(old(self).compression, outgoing_cipher(old(self).encryption), plain_batch@)
                &&& packets_decompressed(compressed_batch(old(self).compression, plain_batch@), old(self).compression)
                    == Ok::<Seq<u8>, Option<u8>>(plain_batch@)
            },
            match old(self).encryption {
                None => final(self).encryption is None,
                Some(before) => if r is Ok {
                    final(self).encryption matches Some(after) && sent_one(
                        before,
                        after,
                        compressed_batch(old(self).compression, plain_batch@).len() + 8,
                    )
                } else {
                    final(self).encryption == old(self).encryption
                },
            },
    {
        let compressed: Vec<u8> = match compress_packets(plain_batch, self.compression.as_ref()) {
            Ok(v) => v,
            Err(e) => return Err(e),
        };
        let compressed_len: usize = compressed.len();
        match &mut self.encryption {
            Some(e) => match e.encrypt(compressed) {
                Ok(wire) => Ok(wire),
                Err(err) => Err(NetworkCodecError::Encryption(err)),
            },
            None => Ok(compressed),
        }
    }

    /// Turns a received wire batch into its plain batch stream: decrypted
    /// when encryption is on, then decompressed when compression is on.
    pub fn prepare_inbound_packet_stream(&mut self, payload: Vec<u8>) -> (r: Result<Vec<u8>, NetworkCodecError>)
        requires
            incoming_room(old(self).encryption),
        ensures
            final(self).compression == old(self).compression,
            match opened_batch(old(self).compression, incoming_cipher(old(self).encryption), payload@) {
                Ok(plain) => r matches Ok(v) && v@ == plain,
                Err(f) => r matches Err(e) && reports_fault(e, f),
            },
            match old(self).encryption {
                None => final(self).encryption is None,
                Some(before) => final(self).encryption matches Some(after) && received_one(
                    before,
                    after,
                    payload@.len(),
                    deciphered(incoming_cipher(old(self).encryption), payload@) is Ok,
                ),
            },
    {
        let payload_len: usize = payload.len();
        let body: Vec<u8> = match &mut self.encryption {
            Some(e) => match e.decrypt(payload) {
                Ok(v) => v,
                Err(err) => return Err(NetworkCodecError::Encryption(err)),
            },
            None => payload,
        };
        match &self.compression {
            Some(c) => match c.decompress(body) {
                Ok(v) => Ok(v),
                Err(e) => Err(NetworkCodecError::Compression(e)),
            },
            None => Ok(body),
        }
    }

    /// The wire batch answering a latency probe stamped `timestamp`: one
    /// NetworkStackLatency packet with the scaled timestamp and no request
    /// for a response, sealed by the pipeline.
    pub fn network_stack_latency_response_batch(&mut self, timestamp: u64) -> (r: Result<Vec<u8>, NetworkCodecError>)
        requires
            applicable(old(self).compression),
            outgoing_room(old(self).encryption),
        ensures
            ({
                let plain = framed_packet(
                    NETWORK_STACK_LATENCY_PACKET_ID,
                    latency_payload(
                        ((timestamp as nat * NETWORK_STACK_LATENCY_MAGNITUDE as nat) % 0x1_0000_0000_0000_0000) as u64,
                        false,
                    ),
                );
                &&& final(self).compression == old(self).compression
                &&& r matches Ok(wire) && wire@ == sealed_batch(
                    old(self).compression,
                    outgoing_cipher(old(self).encryption),
                    plain,
                )
                &&& match old(self).encryption {
                    None => final(self).encryption is None,
                    Some(before) => final(self).encryption matches Some(after) && sent_one(
                        before,
                        after,
                        compressed_batch(old(self).compression, plain).len() + 8,
                    ),
                }
            }),
    {
        let response_timestamp: u64 = network_stack_latency_response_timestamp(timestamp);
        let plain_batch: Vec<u8> = encode_network_stack_latency_packet_stream(response_timestamp, false);
        self.prepare_outbound_packet_stream(plain_batch)
    }

    /// Opens a received batch and reads the id (and, for the packets it
    /// knows, the fields) of every packet in it, without decoding the rest.
    pub fn receive_observed(&mut self, payload: Vec<u8>) -> (r: Result<Vec<ObservedPacket>, InboundError>)
        requires
            incoming_room(old(self).encryption),
        ensures
            final(self).compression == old(self).compression,
            match opened_batch(old(self).compression, incoming_cipher(old(self).encryption), payload@) {
                Err(f) => r matches Err(InboundError::Codec(e)) && reports_fault(e, f),
                Ok(plain) => match stream_packets(plain) {
                    Ok(ps) => r matches Ok(v) && v@.len() == ps.len() && forall|i: int|
                        0 <= i < ps.len() ==> #[trigger] observation_of(v@[i], ps[i]),
                    Err(e) => r == Err::<Vec<ObservedPacket>, InboundError>(InboundError::Frame(e)),
                },
            },
    {
        let plain: Vec<u8> = match self.prepare_inbound_packet_stream(payload) {
            Ok(v) => v,
            Err(e) => return Err(InboundError::Codec(e)),
        };
        match observe_packet_ids(plain.as_slice()) {
            Ok(observed) => Ok(observed),
            Err(e) => Err(InboundError::Frame(e)),
        }
    }
}

} // verus!
