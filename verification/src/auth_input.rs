//! The PlayerAuthInput packet the client sends every movement tick: pose,
//! input flags, tick, velocity, and the optional item interaction, item stack
//! request and block actions that the flags announce.
//!
//! Floating-point fields are carried as their IEEE-754 bit patterns.

use vstd::prelude::*;
use crate::menu::{request_entry_bytes, write_block_coordinates, write_block_pos, write_item_stack_request_entry, BlockTarget, MenuClickMethod, MenuClickTarget};
use crate::observe::Vec3Bits;
use crate::varint::{varint_encode, write_unsigned_varint_u128, write_unsigned_varint_u32, write_unsigned_varint_u64, write_zigzag_i32, zigzag_encode32};
use crate::wire::{le_bytes, push_le_u32};

verus! {

pub const PLAYER_AUTH_INPUT_PACKET_ID: u32 = 0x90;

/// PlayerAuthInput flag bits (one bit per input flag, by its position in
/// the Bedrock input-flag list).
pub const INPUT_FLAG_PERFORM_ITEM_INTERACTION: u128 = 0x4_0000_0000;
pub const INPUT_FLAG_PERFORM_BLOCK_ACTIONS: u128 = 0x8_0000_0000;
pub const INPUT_FLAG_PERFORM_ITEM_STACK_REQUEST: u128 = 0x10_0000_0000;
pub const INPUT_FLAG_MISSED_SWING: u128 = 0x80_0000_0000;
pub const INPUT_FLAG_RECEIVED_SERVER_DATA: u128 = 0x1000_0000_0000;
pub const INPUT_FLAG_IN_CLIENT_PREDICTED_VEHICLE: u128 = 0x2000_0000_0000;

/// The flags of an input that only acknowledges server data.
pub fn received_server_data_input_flag() -> (r: u128)
    ensures
        r == INPUT_FLAG_RECEIVED_SERVER_DATA,
{
    INPUT_FLAG_RECEIVED_SERVER_DATA
}

/// The flags of an input that carries block actions: it acknowledges
/// server data and performs block actions, and marks no missed swing.
pub fn block_action_input_flags() -> (r: u128)
    ensures
        r == INPUT_FLAG_RECEIVED_SERVER_DATA | INPUT_FLAG_PERFORM_BLOCK_ACTIONS,
        r & INPUT_FLAG_RECEIVED_SERVER_DATA != 0,
        r & INPUT_FLAG_PERFORM_BLOCK_ACTIONS != 0,
        r & INPUT_FLAG_MISSED_SWING == 0,
{
    let r: u128 = received_server_data_input_flag() | INPUT_FLAG_PERFORM_BLOCK_ACTIONS;
    assert(r == 0x1008_0000_0000u128) by (bit_vector)
        requires
            r == 0x1000_0000_0000u128 | 0x8_0000_0000u128,
    ;
    assert(r & 0x1000_0000_0000u128 != 0 && r & 0x8_0000_0000u128 != 0 && r & 0x80_0000_0000u128 == 0)
        by (bit_vector)
        requires
            r == 0x1008_0000_0000u128,
    ;
    r
}

/// Two IEEE-754 single-precision values carried as their bit patterns.
#[derive(Debug, Clone, Copy, PartialEq, Eq)]
pub struct Vec2Bits {
    pub x: u32,
    pub y: u32,
}

/// One block action: its action id, and for the actions that name a block,
/// the block and face.
#[derive(Debug, Clone, Copy, PartialEq, Eq)]
pub struct RawBlockAction {
    pub action_id: i32,
    pub target: BlockTarget,
    pub face: i32,
}

/// An item-use transaction (placing or using the held item on a block).
#[derive(Debug, Clone)]
pub struct RawItemUseTransaction {
    pub action_type: u32,
    pub trigger_type: u32,
    pub block_position: BlockTarget,
    pub face: i32,
    pub hotbar_slot: i32,
    pub held_item_bytes: Vec<u8>,
    pub player_pos: Vec3Bits,
    pub click_pos: Vec3Bits,
    pub block_runtime_id: u32,
    pub client_prediction: u32,
}

/// An item stack request carried inside PlayerAuthInput; its action is the
/// one its click method uses.
#[derive(Debug, Clone, Copy)]
pub struct RawItemStackRequest<'a> {
    pub request_id: i32,
    pub target: &'a MenuClickTarget,
    pub method: MenuClickMethod,
}

/// One PlayerAuthInput frame.
#[derive(Debug, Clone, Copy)]
pub struct RawPlayerAuthInput<'a> {
    pub position: Vec3Bits,
    pub velocity: Vec3Bits,
    pub yaw: u32,
    pub pitch: u32,
    pub input_data: u128,
    pub tick: u64,
    pub move_vector: Vec3Bits,
    pub analog_move_vector: Vec2Bits,
    pub raw_move_vector: Vec2Bits,
    pub block_actions: &'a [RawBlockAction],
    pub item_use_transaction_id: Option<&'a RawItemUseTransaction>,
    pub item_stack_request: Option<RawItemStackRequest<'a>>,
}

/// Why a PlayerAuthInput frame could not be encoded.
#[derive(Debug, Clone, Copy, PartialEq, Eq)]
pub enum AuthInputError {
    /// The item-interaction flag is set but no transaction is given.
    MissingItemUseTransaction,
    /// The item-stack-request flag is set but no request is given.
    MissingItemStackRequest,
    /// The client-predicted-vehicle flag is set; vehicles are not encoded.
    PredictedVehicleUnsupported,
}

pub open spec fn f32_bytes(bits: u32) -> Seq<u8> {
    le_bytes(bits as nat, 4)
}

pub open spec fn vec3_bytes(v: Vec3Bits) -> Seq<u8> {
    f32_bytes(v.x) + f32_bytes(v.y) + f32_bytes(v.z)
}

pub open spec fn vec2_bytes(v: Vec2Bits) -> Seq<u8> {
    f32_bytes(v.x) + f32_bytes(v.y)
}

pub open spec fn zigzag_bytes(v: i32) -> Seq<u8> {
    varint_encode(zigzag_encode32(v) as nat)
}

/// A block position as three zigzag varints.
pub open spec fn block_pos_bytes(t: BlockTarget) -> Seq<u8> {
    zigzag_bytes(t.x) + zigzag_bytes(t.y) + zigzag_bytes(t.z)
}

/// Block coordinates: zigzag x, the height clamped at zero, zigzag z.
pub open spec fn block_coordinates_bytes(t: BlockTarget) -> Seq<u8> {
    zigzag_bytes(t.x) + varint_encode((if t.y < 0 { 0 } else { t.y }) as nat) + zigzag_bytes(t.z)
}

/// The block actions that name a block and face: start and abort breaking,
/// predicted destroy, and the continue/crack actions.
pub open spec fn action_names_block(action_id: i32) -> bool {
    action_id == 0 || action_id == 1 || action_id == 18 || action_id == 26 || action_id == 27
}

pub open spec fn block_action_bytes(a: RawBlockAction) -> Seq<u8> {
    zigzag_bytes(a.action_id) + if action_names_block(a.action_id) {
        block_pos_bytes(a.target) + zigzag_bytes(a.face)
    } else {
        Seq::empty()
    }
}

pub open spec fn block_actions_bytes(actions: Seq<RawBlockAction>) -> Seq<u8>
    decreases actions.len(),
{
    if actions.len() == 0 {
        Seq::empty()
    } else {
        block_actions_bytes(actions.drop_last()) + block_action_bytes(actions.last())
    }
}

/// An item-use transaction: no legacy request, no transaction actions, the
/// action and trigger types, block, face, hotbar slot, the held item's
/// bytes, player and click positions, block runtime id and prediction.
pub open spec fn item_use_transaction_bytes(t: RawItemUseTransaction) -> Seq<u8> {
    zigzag_bytes(0) + varint_encode(0) + varint_encode(t.action_type as nat) + varint_encode(
        t.trigger_type as nat,
    ) + block_coordinates_bytes(t.block_position) + zigzag_bytes(t.face) + zigzag_bytes(t.hotbar_slot)
        + t.held_item_bytes@ + vec3_bytes(t.player_pos) + vec3_bytes(t.click_pos) + varint_encode(
        t.block_runtime_id as nat,
    ) + varint_encode(t.client_prediction as nat)
}

/// The fields before the optional parts: pitch, yaw, position, move
/// vector, head yaw, input flags, mouse input mode, normal play mode,
/// crosshair interaction, rotation, tick and velocity.
pub open spec fn auth_input_head(input: RawPlayerAuthInput) -> Seq<u8> {
    varint_encode(PLAYER_AUTH_INPUT_PACKET_ID as nat) + f32_bytes(input.pitch) + f32_bytes(input.yaw)
        + vec3_bytes(input.position) + vec3_bytes(input.move_vector) + f32_bytes(input.yaw) + varint_encode(
        input.input_data as nat,
    ) + varint_encode(1) + varint_encode(0) + zigzag_bytes(1) + f32_bytes(input.pitch) + f32_bytes(
        input.yaw,
    ) + varint_encode(input.tick as nat) + vec3_bytes(input.velocity)
}

/// The analog and raw move vectors around an all-zero interaction vector.
pub open spec fn auth_input_tail(input: RawPlayerAuthInput) -> Seq<u8> {
    vec2_bytes(input.analog_move_vector) + vec3_bytes(Vec3Bits { x: 0, y: 0, z: 0 }) + vec2_bytes(
        input.raw_move_vector,
    )
}

/// The whole packet (id included), or why it cannot be encoded.
pub open spec fn auth_input_packet(input: RawPlayerAuthInput) -> Result<Seq<u8>, AuthInputError> {
    let flags = input.input_data;
    let interacts = flags & INPUT_FLAG_PERFORM_ITEM_INTERACTION != 0;
    let requests = flags & INPUT_FLAG_PERFORM_ITEM_STACK_REQUEST != 0;
    let vehicle = flags & INPUT_FLAG_IN_CLIENT_PREDICTED_VEHICLE != 0;
    let blocks = flags & INPUT_FLAG_PERFORM_BLOCK_ACTIONS != 0;
    if interacts && input.item_use_transaction_id is None {
        Err(AuthInputError::MissingItemUseTransaction)
    } else if requests && input.item_stack_request is None {
        Err(AuthInputError::MissingItemStackRequest)
    } else if vehicle {
        Err(AuthInputError::PredictedVehicleUnsupported)
    } else {
        let transaction = if interacts {
            item_use_transaction_bytes(*input.item_use_transaction_id.unwrap())
        } else {
            Seq::empty()
        };
        let request = if requests {
            let r = input.item_stack_request.unwrap();
            request_entry_bytes(r.request_id, *r.target, r.method)
        } else {
            Seq::empty()
        };
        let actions = if blocks {
            varint_encode((input.block_actions@.len() as u32) as nat) + block_actions_bytes(input.block_actions@)
        } else {
            Seq::empty()
        };
        Ok(auth_input_head(input) + transaction + request + actions + auth_input_tail(input))
    }
}

fn write_f32_bits(bits: u32, out: &mut Vec<u8>)
    ensures
        final(out)@ == old(out)@ + f32_bytes(bits),
{
    push_le_u32(out, bits);
}

pub fn write_vec3_bits(v: Vec3Bits, out: &mut Vec<u8>)
    ensures
        final(out)@ == old(out)@ + vec3_bytes(v),
{
    write_f32_bits(v.x, out);
    write_f32_bits(v.y, out);
    write_f32_bits(v.z, out);
    assert(out@ =~= old(out)@ + vec3_bytes(v));
}

pub fn write_vec2_bits(v: Vec2Bits, out: &mut Vec<u8>)
    ensures
        final(out)@ == old(out)@ + vec2_bytes(v),
{
    write_f32_bits(v.x, out);
    write_f32_bits(v.y, out);
    assert(out@ =~= old(out)@ + vec2_bytes(v));
}

pub fn write_item_use_transaction(transaction: &RawItemUseTransaction, packet: &mut Vec<u8>)
    ensures
        final(packet)@ == old(packet)@ + item_use_transaction_bytes(*transaction),
{
    write_zigzag_i32(0, packet);
    write_unsigned_varint_u32(0, packet);
    write_unsigned_varint_u32(transaction.action_type, packet);
    write_unsigned_varint_u32(transaction.trigger_type, packet);
    write_block_coordinates(transaction.block_position, packet);
    write_zigzag_i32(transaction.face, packet);
    write_zigzag_i32(transaction.hotbar_slot, packet);
    let ghost mid = packet@;
    packet.extend_from_slice(transaction.held_item_bytes.as_slice());
    assert(packet@ =~= mid + transaction.held_item_bytes@);
    write_vec3_bits(transaction.player_pos, packet);
    write_vec3_bits(transaction.click_pos, packet);
    write_unsigned_varint_u32(transaction.block_runtime_id, packet);
    write_unsigned_varint_u32(transaction.client_prediction, packet);
    assert(packet@ =~= old(packet)@ + item_use_transaction_bytes(*transaction));
}

fn write_block_actions(actions: &[RawBlockAction], out: &mut Vec<u8>)
    ensures
        final(out)@ == old(out)@ + block_actions_bytes(actions@),
{
    let mut i: usize = 0;
    while i < actions.len()
        invariant
            i <= actions@.len(),
            out@ == old(out)@ + block_actions_bytes(actions@.subrange(0, i as int)),
        decreases actions@.len() - i,
    {
        let action: RawBlockAction = actions[i];
        let ghost before = out@;
        write_zigzag_i32(action.action_id, out);
        let id: i32 = action.action_id;
        if id == 0 || id == 1 || id == 18 || id == 26 || id == 27 {
            write_block_pos(action.target, out);
            write_zigzag_i32(action.face, out);
        }
        assert(actions@.subrange(0, i + 1).drop_last() =~= actions@.subrange(0, i as int));
        assert(out@ =~= before + block_action_bytes(action));
        i = i + 1;
    }
    assert(actions@.subrange(0, i as int) =~= actions@);
}

/// Encodes one PlayerAuthInput frame as a batch stream holding that packet.
pub fn encode_player_auth_input_packet_stream(input: &RawPlayerAuthInput) -> (r: Result<Vec<u8>, AuthInputError>)
    ensures
        match auth_input_packet(*input) {
            Ok(packet) => r matches Ok(stream) && stream@ == varint_encode((packet.len() as u32) as nat) + packet,
            Err(e) => r == Err::<Vec<u8>, AuthInputError>(e),
        },
{
    let mut packet: Vec<u8> = Vec::new();
    write_unsigned_varint_u32(PLAYER_AUTH_INPUT_PACKET_ID, &mut packet);
    write_f32_bits(input.pitch, &mut packet);
    write_f32_bits(input.yaw, &mut packet);
    write_vec3_bits(input.position, &mut packet);
    write_vec3_bits(input.move_vector, &mut packet);
    write_f32_bits(input.yaw, &mut packet);
    write_unsigned_varint_u128(input.input_data, &mut packet);
    write_unsigned_varint_u32(1, &mut packet);
    write_unsigned_varint_u32(0, &mut packet);
    write_zigzag_i32(1, &mut packet);
    write_f32_bits(input.pitch, &mut packet);
    write_f32_bits(input.yaw, &mut packet);
    write_unsigned_varint_u64(input.tick, &mut packet);
    write_vec3_bits(input.velocity, &mut packet);
    assert(packet@ =~= auth_input_head(*input));
    let ghost head = packet@;

    let interacts: bool = input.input_data & INPUT_FLAG_PERFORM_ITEM_INTERACTION != 0;
    if interacts {
        match input.item_use_transaction_id {
            Some(transaction) => write_item_use_transaction(transaction, &mut packet),
            None => return Err(AuthInputError::MissingItemUseTransaction),
        }
    }
    let ghost with_transaction = packet@;
    let ghost t_part: Seq<u8> = if interacts {
        item_use_transaction_bytes(*input.item_use_transaction_id.unwrap())
    } else {
        Seq::empty()
    };
    assert(with_transaction =~= head + t_part);

    let requests: bool = input.input_data & INPUT_FLAG_PERFORM_ITEM_STACK_REQUEST != 0;
    if requests {
        match input.item_stack_request {
            Some(request) => write_item_stack_request_entry(request.request_id, request.target, request.method, &mut packet),
            None => return Err(AuthInputError::MissingItemStackRequest),
        }
    }
    let ghost with_request = packet@;
    let ghost r_part: Seq<u8> = if requests {
        let r = input.item_stack_request.unwrap();
        request_entry_bytes(r.request_id, *r.target, r.method)
    } else {
        Seq::empty()
    };
    assert(with_request =~= with_transaction + r_part);

    if input.input_data & INPUT_FLAG_IN_CLIENT_PREDICTED_VEHICLE != 0 {
        return Err(AuthInputError::PredictedVehicleUnsupported);
    }

    if input.input_data & INPUT_FLAG_PERFORM_BLOCK_ACTIONS != 0 {
        write_unsigned_varint_u32(#[verifier::truncate] (input.block_actions.len() as u32), &mut packet);
        write_block_actions(input.block_actions, &mut packet);
    }
    let ghost with_actions = packet@;
    let ghost a_part: Seq<u8> = if input.input_data & INPUT_FLAG_PERFORM_BLOCK_ACTIONS != 0 {
        varint_encode((input.block_actions@.len() as u32) as nat) + block_actions_bytes(input.block_actions@)
    } else {
        Seq::empty()
    };
    assert(with_actions =~= with_request + a_part);

    write_vec2_bits(input.analog_move_vector, &mut packet);
    write_vec3_bits(Vec3Bits { x: 0, y: 0, z: 0 }, &mut packet);
    write_vec2_bits(input.raw_move_vector, &mut packet);
    assert(packet@ =~= with_actions + auth_input_tail(*input));
    assert(packet@ =~= auth_input_head(*input) + t_part + r_part + a_part + auth_input_tail(*input));

    let mut stream: Vec<u8> = Vec::new();
    write_unsigned_varint_u32(#[verifier::truncate] (packet.len() as u32), &mut stream);
    let ghost framed = stream@;
    stream.extend_from_slice(packet.as_slice());
    assert(stream@ =~= framed + packet@);
    Ok(stream)
}

} // verus!
