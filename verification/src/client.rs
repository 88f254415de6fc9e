//! The native client's side of a connection: how it frames game packets for
//! RakNet, reads their headers back, and what it answers while joining and
//! while in game. The connection itself and the packet decoding are the
//! caller's part.

use vstd::prelude::*;
use crate::observe::var32;
use crate::protocol_adapter::{be_i32_bytes, REQUEST_NETWORK_SETTINGS_PACKET_ID};
use crate::text::{chars_to_string, str_chars};
use crate::varint::{lemma_var_u32_roundtrip, read_var_u32, varint_encode, write_unsigned_varint_u32};

verus! {

/// The byte that opens a game packet on a RakNet connection.
pub const GAME_PACKET_HEADER: u8 = 0xfe;
/// Packet id of NetworkSettings.
pub const NETWORK_SETTINGS_PACKET_ID: u32 = 0xc2;
/// The client's answer to ResourcePacksInfo: all packs present.
pub const PACKS_INFO_RESPONSE_STATUS: u8 = 3;
/// The client's answer to ResourcePackStack: completed.
pub const PACK_STACK_RESPONSE_STATUS: u8 = 4;

/// A game packet as the client writes it: the game header, the payload
/// length plus one (low 32 bits) as a varint, the packet id as a varint, and
/// the payload.
pub open spec fn game_packet_frame(packet_id: u32, payload: Seq<u8>) -> Seq<u8> {
    seq![GAME_PACKET_HEADER] + varint_encode(((payload.len() + 1) as u32) as nat) + varint_encode(packet_id as nat)
        + payload
}

/// Frames one encoded packet for the connection.
pub fn frame_game_packet(packet_id: u32, payload: &[u8]) -> (r: Vec<u8>)
    requires
        payload@.len() < usize::MAX,
    ensures
        r@ == game_packet_frame(packet_id, payload@),
{
    let mut out: Vec<u8> = Vec::new();
    out.push(GAME_PACKET_HEADER);
    let len_plus_one: usize = payload.len() + 1;
    #[verifier::truncate]
    let len32: u32 = len_plus_one as u32;
    write_unsigned_varint_u32(len32, &mut out);
    write_unsigned_varint_u32(packet_id, &mut out);
    out.extend_from_slice(payload);
    assert(out@ =~= game_packet_frame(packet_id, payload@));
    out
}

/// The client's RequestNetworkSettings for `protocol_version`.
pub fn request_network_settings_frame(protocol_version: i32) -> (r: Vec<u8>)
    ensures
        r@ == game_packet_frame(REQUEST_NETWORK_SETTINGS_PACKET_ID, be_i32_bytes(protocol_version)),
{
    let u: u32 = protocol_version as u32;
    let payload: Vec<u8> = vec![(u >> 24u32) as u8, ((u >> 16u32) & 0xff) as u8, ((u >> 8u32) & 0xff) as u8, (u & 0xff) as u8];
    assert(payload@ =~= be_i32_bytes(protocol_version));
    frame_game_packet(REQUEST_NETWORK_SETTINGS_PACKET_ID, payload.as_slice())
}

/// The header of a received game packet: after an optional game header
/// byte, the length varint and the id varint; gives the length, the id and
/// where the payload starts.
pub open spec fn game_packet_header(s: Seq<u8>) -> Option<(u32, u32, int)> {
    let start: int = if s.len() > 0 && s[0] == GAME_PACKET_HEADER { 1 } else { 0 };
    match var32(s, start) {
        None => None,
        Some((len, after_len)) => match var32(s, after_len) {
            None => None,
            Some((id, after_id)) => Some((len, id, after_id)),
        },
    }
}

/// Law: the header of a framed game packet reads back as the length the
/// frame wrote (the payload length plus one, low 32 bits) and the packet id,
/// and the payload starts right after them.
pub proof fn lemma_game_packet_header_roundtrip(packet_id: u32, payload: Seq<u8>)
    ensures
        game_packet_header(game_packet_frame(packet_id, payload)) == Some(
            (
                ((payload.len() + 1) as u32),
                packet_id,
                (1 + varint_encode(((payload.len() + 1) as u32) as nat).len() + varint_encode(packet_id as nat).len()) as int,
            ),
        ),
{
    let len32: u32 = ((payload.len() + 1) as u32);
    let head = seq![GAME_PACKET_HEADER];
    let el = varint_encode(len32 as nat);
    let ei = varint_encode(packet_id as nat);
    let s = game_packet_frame(packet_id, payload);
    assert(s =~= head + el + (ei + payload));
    lemma_var_u32_roundtrip(len32, head, ei + payload);
    assert(s =~= (head + el) + ei + payload);
    lemma_var_u32_roundtrip(packet_id, head + el, payload);
    assert(s[0] == GAME_PACKET_HEADER);
}

/// Reads the header of a received game packet.
pub fn read_game_packet_header(payload: &[u8]) -> (r: Option<(u32, u32, usize)>)
    ensures
        match game_packet_header(payload@) {
            None => r is None,
            Some((len, id, off)) => r matches Some((l, i, o)) && l == len && i == id && o == off,
        },
{
    let mut offset: usize = if payload.len() > 0 && payload[0] == GAME_PACKET_HEADER {
        1
    } else {
        0
    };
    let len = match read_var_u32(payload, &mut offset) {
        Some(v) => v,
        None => return None,
    };
    let id = match read_var_u32(payload, &mut offset) {
        Some(v) => v,
        None => return None,
    };
    Some((len, id, offset))
}

/// The first packet after RequestNetworkSettings was not NetworkSettings.
#[derive(Debug, Clone, Copy, PartialEq, Eq)]
pub struct UnexpectedPacket {
    pub packet_id: u32,
}

/// The answer to RequestNetworkSettings must be NetworkSettings.
pub fn expect_network_settings(packet_id: u32) -> (r: Result<(), UnexpectedPacket>)
    ensures
        r == (if packet_id == NETWORK_SETTINGS_PACKET_ID {
            Ok::<(), UnexpectedPacket>(())
        } else {
            Err(UnexpectedPacket { packet_id })
        }),
{
    if packet_id == NETWORK_SETTINGS_PACKET_ID {
        Ok(())
    } else {
        Err(UnexpectedPacket { packet_id })
    }
}

/// The login chain the native client sends for an offline name.
pub open spec fn offline_chain_json(username: Seq<char>) -> Seq<char> {
    "{\"chain\":[\""@ + username + "\"]}"@
}

pub fn native_chain_json(username: &str) -> (r: String)
    ensures
        r@ == offline_chain_json(username@),
{
    let mut out: Vec<char> = str_chars("{\"chain\":[\"");
    let name: Vec<char> = str_chars(username);
    let tail: Vec<char> = str_chars("\"]}");
    let mut i: usize = 0;
    let ghost head = out@;
    while i < name.len()
        invariant
            i <= name@.len(),
            out@ == head + name@.take(i as int),
        decreases name@.len() - i,
    {
        out.push(name[i]);
        i = i + 1;
        assert(out@ =~= head + name@.take(i as int));
    }
    let ghost mid = out@;
    let mut j: usize = 0;
    while j < tail.len()
        invariant
            j <= tail@.len(),
            out@ == mid + tail@.take(j as int),
        decreases tail@.len() - j,
    {
        out.push(tail[j]);
        j = j + 1;
        assert(out@ =~= mid + tail@.take(j as int));
    }
    assert(name@.take(name@.len() as int) =~= name@);
    assert(tail@.take(tail@.len() as int) =~= tail@);
    assert(out@ =~= offline_chain_json(username@));
    chars_to_string(out.as_slice())
}

/// A received packet, as far as the client reads it.
#[derive(Debug, Clone, PartialEq, Eq)]
pub enum ClientPacket {
    PlayStatus { status: i32 },
    ResourcePacksInfo,
    ResourcePackStack,
    StartGame { target_runtime_id: u64 },
    Disconnect { message: Option<String> },
    NetworkStackLatency { timestamp: u64, needs_response: bool },
    Text { source_name: String, message: String },
    Other { packet_id: u32 },
}

/// A packet the client sends back.
#[derive(Debug, Clone, Copy, PartialEq, Eq)]
pub enum ClientReply {
    ResourcePackClientResponse { response_status: u8 },
    SetLocalPlayerAsInitialized { runtime_entity_id: u64 },
    NetworkStackLatency { timestamp: u64, needs_response: bool },
}

/// What the join does with a packet.
#[derive(Debug, Clone, PartialEq, Eq)]
pub enum JoinStep {
    /// Nothing to send; wait for the next packet.
    Continue,
    /// Send this and wait for the next packet.
    Reply(ClientReply),
    /// Send this: the client has joined.
    Joined(ClientReply),
    /// The server disconnected the client, with its message.
    Disconnected(Option<String>),
}

/// What the client has seen of the join.
#[derive(Debug, Clone, Copy, PartialEq, Eq)]
pub struct JoinProgress {
    pub play_status_received: bool,
    pub resource_packs_received: bool,
    pub resource_stack_received: bool,
}

impl JoinProgress {
    pub fn new() -> (r: Self)
        ensures
            !r.play_status_received && !r.resource_packs_received && !r.resource_stack_received,
    {
        JoinProgress { play_status_received: false, resource_packs_received: false, resource_stack_received: false }
    }

    /// Takes one packet of the join: a successful play status is noted, the
    /// pack announcements are answered as complete, StartGame is answered by
    /// initializing the local player (the join is over), and a Disconnect
    /// ends it; anything else is passed over.
    pub fn accept(&mut self, packet: &ClientPacket) -> (r: JoinStep)
        ensures
            match *packet {
                ClientPacket::PlayStatus { status } => r == JoinStep::Continue && *final(self) == (JoinProgress {
                    play_status_received: old(self).play_status_received || status == 0,
                    ..*old(self)
                }),
                ClientPacket::ResourcePacksInfo => r == JoinStep::Reply(
                    ClientReply::ResourcePackClientResponse { response_status: PACKS_INFO_RESPONSE_STATUS },
                ) && *final(self) == (JoinProgress { resource_packs_received: true, ..*old(self) }),
                ClientPacket::ResourcePackStack => r == JoinStep::Reply(
                    ClientReply::ResourcePackClientResponse { response_status: PACK_STACK_RESPONSE_STATUS },
                ) && *final(self) == (JoinProgress { resource_stack_received: true, ..*old(self) }),
                ClientPacket::StartGame { target_runtime_id } => r == JoinStep::Joined(
                    ClientReply::SetLocalPlayerAsInitialized { runtime_entity_id: target_runtime_id },
                ) && *final(self) == *old(self),
                ClientPacket::Disconnect { message } => r == JoinStep::Disconnected(message) && *final(self) == *old(
                    self,
                ),
                _ => r == JoinStep::Continue && *final(self) == *old(self),
            },
    {
        match packet {
            ClientPacket::PlayStatus { status } => {
                if *status == 0 {
                    self.play_status_received = true;
                }
                JoinStep::Continue
            },
            ClientPacket::ResourcePacksInfo => {
                self.resource_packs_received = true;
                JoinStep::Reply(ClientReply::ResourcePackClientResponse { response_status: PACKS_INFO_RESPONSE_STATUS })
            },
            ClientPacket::ResourcePackStack => {
                self.resource_stack_received = true;
                JoinStep::Reply(ClientReply::ResourcePackClientResponse { response_status: PACK_STACK_RESPONSE_STATUS })
            },
            ClientPacket::StartGame { target_runtime_id } => JoinStep::Joined(
                ClientReply::SetLocalPlayerAsInitialized { runtime_entity_id: *target_runtime_id },
            ),
            ClientPacket::Disconnect { message } => JoinStep::Disconnected(
                match message {
                    Some(m) => Some(m.clone()),
                    None => None,
                },
            ),
            _ => JoinStep::Continue,
        }
    }
}

/// What the client does with a packet in game: a latency probe that asks
/// for an answer is echoed with its timestamp, and a text message is passed
/// on as a text event (every packet is also passed on as it is).
#[derive(Debug, Clone, PartialEq, Eq)]
pub struct GameStep {
    pub reply: Option<ClientReply>,
    pub text: Option<(String, String)>,
}

pub fn game_step(packet: &ClientPacket) -> (r: GameStep)
    ensures
        r.reply == (match *packet {
            ClientPacket::NetworkStackLatency { timestamp, needs_response } => if needs_response {
                Some(ClientReply::NetworkStackLatency { timestamp, needs_response: false })
            } else {
                None
            },
            _ => None,
        }),
        r.text == (match *packet {
            ClientPacket::Text { source_name, message } => Some((source_name, message)),
            _ => None,
        }),
{
    match packet {
        ClientPacket::NetworkStackLatency { timestamp, needs_response } => GameStep {
            reply: if *needs_response {
                Some(ClientReply::NetworkStackLatency { timestamp: *timestamp, needs_response: false })
            } else {
                None
            },
            text: None,
        },
        ClientPacket::Text { source_name, message } => GameStep {
            reply: None,
            text: Some((source_name.clone(), message.clone())),
        },
        _ => GameStep { reply: None, text: None },
    }
}

} // verus!
