//! The UpdateSoftEnum packet, which the client decodes itself: an enum name,
//! a varint count of option strings, the options, and a one-byte action.

use vstd::prelude::*;
use crate::varint::{lemma_var_u32_roundtrip, read_var_u32, var_u32_at, varint_consumed, varint_encode, write_unsigned_varint_u32};
use crate::wire::{has_bytes, utf8_to_string};
use crate::packets::{wire_string, write_string_local};
use crate::observe::var32;
use crate::diagnostics::{decimal, push_decimal};
use crate::text::{chars_to_string, str_chars};

verus! {

broadcast use {vstd::utf8::encode_utf8_valid_utf8, vstd::utf8::encode_utf8_decode_utf8};

#[derive(Debug, Clone, Copy, PartialEq, Eq)]
pub enum TorchFlowerSoftEnumAction {
    Add,
    Remove,
    Update,
}

/// Why an UpdateSoftEnum payload could not be decoded.
#[derive(Debug, Clone, PartialEq, Eq)]
pub enum SoftEnumError {
    /// The option count is not a valid varint.
    InvalidVarU32,
    /// The action byte is missing.
    NeedByte,
    /// A string's length prefix is not a valid varint.
    InvalidStringLength,
    /// A string asks for more bytes than remain.
    StringNeedsBytes(usize),
    /// A string's bytes are not UTF-8.
    InvalidUtf8,
    /// The action byte is not 0, 1 or 2.
    UnknownActionType(u8),
}

/// The message of a decoding error, as the engine reports it.
pub open spec fn soft_enum_error_text(e: SoftEnumError) -> Seq<char> {
    match e {
        SoftEnumError::InvalidVarU32 => "invalid var_u32"@,
        SoftEnumError::NeedByte => "need 1 byte"@,
        SoftEnumError::InvalidStringLength => "invalid string length"@,
        SoftEnumError::StringNeedsBytes(n) => "string needs "@ + decimal(n as nat) + " bytes"@,
        SoftEnumError::InvalidUtf8 => "invalid UTF-8 string"@,
        SoftEnumError::UnknownActionType(b) => "unknown action_type "@ + decimal(b as nat),
    }
}

impl SoftEnumError {
    /// The error's message (for invalid UTF-8, without the position detail
    /// that std's error adds).
    pub fn message(&self) -> (r: String)
        ensures
            r@ == soft_enum_error_text(*self),
    {
        let mut out: Vec<char>;
        match self {
            SoftEnumError::InvalidVarU32 => {
                out = str_chars("invalid var_u32");
            },
            SoftEnumError::NeedByte => {
                out = str_chars("need 1 byte");
            },
            SoftEnumError::InvalidStringLength => {
                out = str_chars("invalid string length");
            },
            SoftEnumError::StringNeedsBytes(n) => {
                out = str_chars("string needs ");
                push_decimal(*n as u64, &mut out);
                let tail = str_chars(" bytes");
                let ghost before = out@;
                let mut i: usize = 0;
                while i < tail.len()
                    invariant
                        i <= tail@.len(),
                        out@ == before + tail@.take(i as int),
                    decreases tail@.len() - i,
                {
                    out.push(tail[i]);
                    i = i + 1;
                    assert(out@ =~= before + tail@.take(i as int));
                }
                assert(tail@.take(i as int) =~= tail@);
            },
            SoftEnumError::InvalidUtf8 => {
                out = str_chars("invalid UTF-8 string");
            },
            SoftEnumError::UnknownActionType(b) => {
                out = str_chars("unknown action_type ");
                push_decimal(*b as u64, &mut out);
            },
        }
        chars_to_string(out.as_slice())
    }
}

/// The wire byte of an action.
pub open spec fn action_byte(action: TorchFlowerSoftEnumAction) -> u8 {
    match action {
        TorchFlowerSoftEnumAction::Add => 0,
        TorchFlowerSoftEnumAction::Remove => 1,
        TorchFlowerSoftEnumAction::Update => 2,
    }
}

/// The action a wire byte names, if any.
pub open spec fn action_of_byte(value: u8) -> Option<TorchFlowerSoftEnumAction> {
    if value == 0 {
        Some(TorchFlowerSoftEnumAction::Add)
    } else if value == 1 {
        Some(TorchFlowerSoftEnumAction::Remove)
    } else if value == 2 {
        Some(TorchFlowerSoftEnumAction::Update)
    } else {
        None
    }
}

impl TorchFlowerSoftEnumAction {
    pub fn from_u8(value: u8) -> (r: Result<Self, SoftEnumError>)
        ensures
            match action_of_byte(value) {
                Some(a) => r == Ok::<Self, SoftEnumError>(a),
                None => r == Err::<Self, SoftEnumError>(SoftEnumError::UnknownActionType(value)),
            },
    {
        match value {
            0 => Ok(TorchFlowerSoftEnumAction::Add),
            1 => Ok(TorchFlowerSoftEnumAction::Remove),
            2 => Ok(TorchFlowerSoftEnumAction::Update),
            other => Err(SoftEnumError::UnknownActionType(other)),
        }
    }

    pub fn as_u8(self) -> (r: u8)
        ensures
            r == action_byte(self),
    {
        match self {
            TorchFlowerSoftEnumAction::Add => 0,
            TorchFlowerSoftEnumAction::Remove => 1,
            TorchFlowerSoftEnumAction::Update => 2,
        }
    }
}

/// Reading a byte back gives the action it was written from.
pub proof fn lemma_action_byte_roundtrip(action: TorchFlowerSoftEnumAction)
    ensures
        action_of_byte(action_byte(action)) == Some(action),
{
}

#[derive(Debug, Clone, PartialEq, Eq)]
pub struct TorchFlowerUpdateSoftEnumPacket {
    pub enum_name: String,
    pub options: Vec<String>,
    pub action_type: TorchFlowerSoftEnumAction,
}

/// The characters of each option.
pub open spec fn options_view(options: Seq<String>) -> Seq<Seq<char>> {
    options.map_values(|s: String| s@)
}

/// The options, each as a wire string, one after the other.
pub open spec fn serialized_options(options: Seq<Seq<char>>) -> Seq<u8>
    decreases options.len(),
{
    if options.len() == 0 {
        seq![]
    } else {
        serialized_options(options.drop_last()) + wire_string(options.last())
    }
}

/// The payload of an UpdateSoftEnum packet.
pub open spec fn soft_enum_bytes(
    name: Seq<char>,
    options: Seq<Seq<char>>,
    action: TorchFlowerSoftEnumAction,
) -> Seq<u8> {
    wire_string(name) + varint_encode((options.len() as u32) as nat) + serialized_options(options)
        + seq![action_byte(action)]
}

/// A varint-length-prefixed UTF-8 string at `off` and the offset after it.
pub open spec fn string_field_at(s: Seq<u8>, off: int) -> Result<(Seq<char>, int), SoftEnumError> {
    match var32(s, off) {
        None => Err(SoftEnumError::InvalidStringLength),
        Some((len, o)) => {
            if o + len <= s.len() {
                let bytes = s.subrange(o, o + len);
                if vstd::utf8::valid_utf8(bytes) {
                    Ok((vstd::utf8::decode_utf8(bytes), o + len))
                } else {
                    Err(SoftEnumError::InvalidUtf8)
                }
            } else {
                Err(SoftEnumError::StringNeedsBytes(len as usize))
            }
        },
    }
}

/// `count` strings read one after the other from `off`.
pub open spec fn options_at(s: Seq<u8>, off: int, count: nat) -> Result<
    (Seq<Seq<char>>, int),
    SoftEnumError,
>
    decreases count,
{
    if count == 0 {
        Ok((seq![], off))
    } else {
        match options_at(s, off, (count - 1) as nat) {
            Err(e) => Err(e),
            Ok((options, o)) => match string_field_at(s, o) {
                Err(e) => Err(e),
                Ok((value, o2)) => Ok((options.push(value), o2)),
            },
        }
    }
}

/// The UpdateSoftEnum payload at `off`: name, options and action, or the
/// first field that fails.
pub open spec fn soft_enum_at(s: Seq<u8>, off: int) -> Result<
    (Seq<char>, Seq<Seq<char>>, TorchFlowerSoftEnumAction),
    SoftEnumError,
> {
    match string_field_at(s, off) {
        Err(e) => Err(e),
        Ok((name, o1)) => match var32(s, o1) {
            None => Err(SoftEnumError::InvalidVarU32),
            Some((count, o2)) => match options_at(s, o2, count as nat) {
                Err(e) => Err(e),
                Ok((options, o3)) => {
                    if has_bytes(s, o3, 1) {
                        match action_of_byte(s[o3]) {
                            Some(action) => Ok((name, options, action)),
                            None => Err(SoftEnumError::UnknownActionType(s[o3])),
                        }
                    } else {
                        Err(SoftEnumError::NeedByte)
                    }
                },
            },
        },
    }
}

/// Reads a varint-length-prefixed UTF-8 string.
fn read_string_field(packet: &[u8], offset: &mut usize) -> (r: Result<String, SoftEnumError>)
    ensures
        match string_field_at(packet@, *old(offset) as int) {
            Ok((value, o)) => r matches Ok(text) && text@ == value && *final(offset) == o,
            Err(e) => r == Err::<String, SoftEnumError>(e),
        },
{
    let len: u32 = match read_var_u32(packet, offset) {
        Some(v) => v,
        None => return Err(SoftEnumError::InvalidStringLength),
    };
    let start: usize = *offset;
    if start <= packet.len() && (len as usize) <= packet.len() - start {
        let end: usize = start + len as usize;
        let bytes: &[u8] = vstd::slice::slice_subrange(packet, start, end);
        match utf8_to_string(bytes) {
            Some(text) => {
                *offset = end;
                Ok(text)
            },
            None => Err(SoftEnumError::InvalidUtf8),
        }
    } else {
        Err(SoftEnumError::StringNeedsBytes(len as usize))
    }
}

impl TorchFlowerUpdateSoftEnumPacket {
    /// Appends the payload: name, option count, options, action byte.
    pub fn serialize(&self, out: &mut Vec<u8>)
        ensures
            final(out)@ == old(out)@ + soft_enum_bytes(
                self.enum_name@,
                options_view(self.options@),
                self.action_type,
            ),
    {
        write_string_local(self.enum_name.as_str(), out);
        write_unsigned_varint_u32(self.options.len() as u32, out);
        let ghost head = out@;
        let mut i: usize = 0;
        while i < self.options.len()
            invariant
                i <= self.options@.len(),
                out@ == head + serialized_options(options_view(self.options@).subrange(0, i as int)),
            decreases self.options@.len() - i,
        {
            let ghost before = out@;
            write_string_local(self.options[i].as_str(), out);
            i = i + 1;
            proof {
                let done = options_view(self.options@).subrange(0, i as int);
                assert(done.drop_last() =~= options_view(self.options@).subrange(0, i - 1));
                assert(out@ =~= head + serialized_options(done));
            }
        }
        out.push(self.action_type.as_u8());
        proof {
            assert(options_view(self.options@).subrange(0, self.options@.len() as int) =~= options_view(
                self.options@,
            ));
            assert(out@ =~= old(out)@ + soft_enum_bytes(
                self.enum_name@,
                options_view(self.options@),
                self.action_type,
            ));
        }
    }

    /// Decodes the payload that starts at `payload_offset`.
    pub fn deserialize(packet: &[u8], payload_offset: usize) -> (r: Result<Self, SoftEnumError>)
        ensures
            match soft_enum_at(packet@, payload_offset as int) {
                Ok((name, options, action)) => r matches Ok(p) && p.enum_name@ == name
                    && options_view(p.options@) == options && p.action_type == action,
                Err(e) => r == Err::<Self, SoftEnumError>(e),
            },
    {
        Self::decode(packet, payload_offset)
    }

    /// Decodes as `deserialize` does; the field-by-field trace is the caller's to print.
    pub fn deserialize_with_trace(packet: &[u8], payload_offset: usize) -> (r: Result<
        Self,
        SoftEnumError,
    >)
        ensures
            match soft_enum_at(packet@, payload_offset as int) {
                Ok((name, options, action)) => r matches Ok(p) && p.enum_name@ == name
                    && options_view(p.options@) == options && p.action_type == action,
                Err(e) => r == Err::<Self, SoftEnumError>(e),
            },
    {
        Self::decode(packet, payload_offset)
    }

    fn decode(packet: &[u8], payload_offset: usize) -> (r: Result<Self, SoftEnumError>)
        ensures
            match soft_enum_at(packet@, payload_offset as int) {
                Ok((name, options, action)) => r matches Ok(p) && p.enum_name@ == name
                    && options_view(p.options@) == options && p.action_type == action,
                Err(e) => r == Err::<Self, SoftEnumError>(e),
            },
    {
        let mut offset: usize = payload_offset;
        let enum_name: String = match read_string_field(packet, &mut offset) {
            Ok(s) => s,
            Err(e) => return Err(e),
        };
        let ghost o2 = offset;
        let option_count: u32 = match read_var_u32(packet, &mut offset) {
            Some(v) => v,
            None => return Err(SoftEnumError::InvalidVarU32),
        };
        let ghost o_opts = offset;
        assert(var32(packet@, o2 as int) == Some((option_count, o_opts as int)));
        assert(string_field_at(packet@, payload_offset as int) matches Ok((nm, o)) && nm == enum_name@ && o == o2);
        let mut options: Vec<String> = Vec::new();
        let mut index: u32 = 0;
        while index < option_count
            invariant
                index <= option_count,
                var32(packet@, o2 as int) == Some((option_count, o_opts as int)),
                string_field_at(packet@, payload_offset as int) matches Ok((nm, o)) && nm == enum_name@
                    && o == o2,
                options_at(packet@, o_opts as int, index as nat) matches Ok((v, o)) && v
                    == options_view(options@) && o == offset,
            decreases option_count - index,
        {
            let ghost before = offset;
            let value: String = match read_string_field(packet, &mut offset) {
                Ok(s) => s,
                Err(e) => {
                    assert(options_at(packet@, o_opts as int, (index + 1) as nat) == Err::<
                        (Seq<Seq<char>>, int),
                        SoftEnumError,
                    >(e));
                    proof {
                        lemma_options_error_sticks(
                            packet@,
                            o_opts as int,
                            (index + 1) as nat,
                            option_count as nat,
                        );
                    }
                    assert(soft_enum_at(packet@, payload_offset as int) == Err::<
                        (Seq<char>, Seq<Seq<char>>, TorchFlowerSoftEnumAction),
                        SoftEnumError,
                    >(e));
                    return Err(e);
                },
            };
            let ghost old_view = options_view(options@);
            options.push(value);
            assert(options_view(options@) =~= old_view.push(value@));
            index = index + 1;
        }
        if offset >= packet.len() {
            return Err(SoftEnumError::NeedByte);
        }
        let action_type: TorchFlowerSoftEnumAction = match TorchFlowerSoftEnumAction::from_u8(
            packet[offset],
        ) {
            Ok(a) => a,
            Err(e) => return Err(e),
        };
        Ok(TorchFlowerUpdateSoftEnumPacket { enum_name, options, action_type })
    }
}

/// Once reading the options fails, reading more of them fails the same way.
proof fn lemma_options_error_sticks(s: Seq<u8>, off: int, k: nat, n: nat)
    requires
        k <= n,
        options_at(s, off, k) is Err,
    ensures
        options_at(s, off, n) == options_at(s, off, k),
    decreases n - k,
{
    if k < n {
        lemma_options_error_sticks(s, off, k, (n - 1) as nat);
    }
}

/// A wire string reads back as the characters it was written from.
pub proof fn lemma_string_field_roundtrip(value: Seq<char>, prefix: Seq<u8>, rest: Seq<u8>)
    requires
        vstd::utf8::encode_utf8(value).len() <= u32::MAX,
    ensures
        string_field_at(prefix + wire_string(value) + rest, prefix.len() as int) == Ok::<
            (Seq<char>, int),
            SoftEnumError,
        >((value, (prefix.len() + wire_string(value).len()) as int)),
{
    let bytes = vstd::utf8::encode_utf8(value);
    let len = bytes.len() as u32;
    let s = prefix + wire_string(value) + rest;
    assert(s =~= prefix + varint_encode(len as nat) + (bytes + rest));
    lemma_var_u32_roundtrip(len, prefix, bytes + rest);
    let o = prefix.len() + varint_encode(len as nat).len();
    assert(s.subrange(o as int, o + len) =~= bytes);
}

/// Options written one after the other read back in order.
pub proof fn lemma_options_roundtrip(options: Seq<Seq<char>>, prefix: Seq<u8>, rest: Seq<u8>)
    requires
        forall|i: int| 0 <= i < options.len() ==> vstd::utf8::encode_utf8(#[trigger] options[i]).len() <= u32::MAX,
    ensures
        options_at(prefix + serialized_options(options) + rest, prefix.len() as int, options.len())
            == Ok::<(Seq<Seq<char>>, int), SoftEnumError>(
            (options, (prefix.len() + serialized_options(options).len()) as int),
        ),
    decreases options.len(),
{
    if options.len() > 0 {
        let front = options.drop_last();
        let last = options.last();
        let s = prefix + serialized_options(options) + rest;
        assert(s =~= prefix + serialized_options(front) + (wire_string(last) + rest));
        assert forall|i: int| 0 <= i < front.len() implies vstd::utf8::encode_utf8(
            #[trigger] front[i],
        ).len() <= u32::MAX by {
            assert(front[i] == options[i]);
        }
        lemma_options_roundtrip(front, prefix, wire_string(last) + rest);
        assert(vstd::utf8::encode_utf8(options[options.len() - 1]).len() <= u32::MAX);
        assert(s =~= (prefix + serialized_options(front)) + wire_string(last) + rest);
        lemma_string_field_roundtrip(last, prefix + serialized_options(front), rest);
        assert(front.push(last) =~= options);
    } else {
        assert(options =~= seq![]);
    }
}

#[verifier::rlimit(60)]
/// Law: a serialized UpdateSoftEnum payload decodes to the name, options and
/// action it was serialized from, whatever precedes or follows it, as long as
/// every string is shorter than 2^32 bytes and there are fewer than 2^32 options.
pub proof fn lemma_soft_enum_roundtrip(
    name: Seq<char>,
    options: Seq<Seq<char>>,
    action: TorchFlowerSoftEnumAction,
    prefix: Seq<u8>,
    rest: Seq<u8>,
)
    requires
        vstd::utf8::encode_utf8(name).len() <= u32::MAX,
        options.len() <= u32::MAX,
        forall|i: int| 0 <= i < options.len() ==> vstd::utf8::encode_utf8(#[trigger] options[i]).len() <= u32::MAX,
    ensures
        soft_enum_at(prefix + soft_enum_bytes(name, options, action) + rest, prefix.len() as int)
            == Ok::<(Seq<char>, Seq<Seq<char>>, TorchFlowerSoftEnumAction), SoftEnumError>(
            (name, options, action),
        ),
{
    let count = options.len() as u32;
    let s = prefix + soft_enum_bytes(name, options, action) + rest;
    let tail = varint_encode(count as nat) + serialized_options(options) + seq![action_byte(action)] + rest;
    assert(s =~= prefix + wire_string(name) + tail);
    lemma_string_field_roundtrip(name, prefix, tail);
    let p1 = prefix + wire_string(name);
    let tail2 = serialized_options(options) + seq![action_byte(action)] + rest;
    assert(s =~= p1 + varint_encode(count as nat) + tail2);
    lemma_var_u32_roundtrip(count, p1, tail2);
    let p2 = p1 + varint_encode(count as nat);
    assert(s =~= p2 + serialized_options(options) + (seq![action_byte(action)] + rest));
    lemma_options_roundtrip(options, p2, seq![action_byte(action)] + rest);
    let o3 = p2.len() + serialized_options(options).len();
    assert(s[o3 as int] == action_byte(action));
    lemma_action_byte_roundtrip(action);
}

/// An UpdateSoftEnum payload whose fields are written in order, with
/// `action` as its last byte.
pub open spec fn soft_enum_wire(name: Seq<char>, options: Seq<Seq<char>>, action: u8) -> Seq<u8> {
    wire_string(name) + varint_encode((options.len() as u32) as nat) + serialized_options(options) + seq![action]
}

/// A payload with any last byte reads its name and options, then the
/// action that byte names, or fails on the byte.
proof fn lemma_soft_enum_action_read(
    name: Seq<char>,
    options: Seq<Seq<char>>,
    action: u8,
    prefix: Seq<u8>,
    rest: Seq<u8>,
)
    requires
        vstd::utf8::encode_utf8(name).len() <= u32::MAX,
        options.len() <= u32::MAX,
        forall|i: int| 0 <= i < options.len() ==> vstd::utf8::encode_utf8(#[trigger] options[i]).len() <= u32::MAX,
    ensures
        soft_enum_at(prefix + soft_enum_wire(name, options, action) + rest, prefix.len() as int) == match action_of_byte(
            action,
        ) {
            Some(a) => Ok::<(Seq<char>, Seq<Seq<char>>, TorchFlowerSoftEnumAction), SoftEnumError>((name, options, a)),
            None => Err(SoftEnumError::UnknownActionType(action)),
        },
{
    let count = options.len() as u32;
    let s = prefix + soft_enum_wire(name, options, action) + rest;
    let tail = varint_encode(count as nat) + serialized_options(options) + seq![action] + rest;
    assert(s =~= prefix + wire_string(name) + tail);
    lemma_string_field_roundtrip(name, prefix, tail);
    let p1 = prefix + wire_string(name);
    let tail2 = serialized_options(options) + seq![action] + rest;
    assert(s =~= p1 + varint_encode(count as nat) + tail2);
    lemma_var_u32_roundtrip(count, p1, tail2);
    let p2 = p1 + varint_encode(count as nat);
    assert(s =~= p2 + serialized_options(options) + (seq![action] + rest));
    lemma_options_roundtrip(options, p2, seq![action] + rest);
    let o3 = p2.len() + serialized_options(options).len();
    assert(s[o3 as int] == action);
}

/// Law: on the wire, Add is byte 0, Remove byte 1 and Update byte 2. A
/// payload ending in one of these decodes to that action (with its name
/// and options); any other last byte is refused as an unknown action; and
/// serializing a packet ends its payload with its action's byte.
pub proof fn lemma_soft_enum_action_wire_bytes(
    name: Seq<char>,
    options: Seq<Seq<char>>,
    action: u8,
    prefix: Seq<u8>,
    rest: Seq<u8>,
)
    requires
        vstd::utf8::encode_utf8(name).len() <= u32::MAX,
        options.len() <= u32::MAX,
        forall|i: int| 0 <= i < options.len() ==> vstd::utf8::encode_utf8(#[trigger] options[i]).len() <= u32::MAX,
    ensures
        soft_enum_at(prefix + soft_enum_wire(name, options, action) + rest, prefix.len() as int) == (if action == 0 {
            Ok::<(Seq<char>, Seq<Seq<char>>, TorchFlowerSoftEnumAction), SoftEnumError>(
                (name, options, TorchFlowerSoftEnumAction::Add),
            )
        } else if action == 1 {
            Ok((name, options, TorchFlowerSoftEnumAction::Remove))
        } else if action == 2 {
            Ok((name, options, TorchFlowerSoftEnumAction::Update))
        } else {
            Err(SoftEnumError::UnknownActionType(action))
        }),
        soft_enum_bytes(name, options, TorchFlowerSoftEnumAction::Add) == soft_enum_wire(name, options, 0),
        soft_enum_bytes(name, options, TorchFlowerSoftEnumAction::Remove) == soft_enum_wire(name, options, 1),
        soft_enum_bytes(name, options, TorchFlowerSoftEnumAction::Update) == soft_enum_wire(name, options, 2),
{
    lemma_soft_enum_action_read(name, options, action, prefix, rest);
}

} // verus!
