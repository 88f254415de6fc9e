//! Text the client reads out of packets: disconnect messages, the strings of
//! Text packets, and container openings.

use vstd::prelude::*;
use crate::observe::{ObservedDisconnect, ObservedPacket, ObservedText, var32, zz32, zz64};
use crate::text::{chars_equal, chars_to_string, is_control, is_control_char, is_unicode_white_space, is_white_space, lossy_chars, utf8_lossy};
use crate::varint::{read_var_u32, read_var_u64, zigzag_i32};
use crate::wire::{has_bytes, lemma_varint_consumed_bound, read_u8, utf8_to_string};

verus! {

broadcast use vstd::string::group_string_axioms;

/// Decodes bytes with `String::from_utf8_lossy` into an owned string.
/// Trusted: the string holds `utf8_lossy(bytes)`.
#[verifier::external_body]
fn lossy_string(bytes: &[u8]) -> (r: String)
    ensures
        r@ == utf8_lossy(bytes@),
{
    String::from_utf8_lossy(bytes).into_owned()
}

/// A length-prefixed string at `off`, decoded lossily, and where reading
/// stops: after the string, or after the length prefix when the bytes run
/// out, or after what the malformed prefix took.
pub open spec fn trace_string_at(s: Seq<u8>, off: int) -> (Option<Seq<char>>, int) {
    match var32(s, off) {
        None => (None, off + crate::varint::varint_consumed(s, off, 5)),
        Some((len, o)) => {
            if has_bytes(s, o, len as int) {
                (Some(utf8_lossy(s.subrange(o, o + len))), o + len)
            } else {
                (None, o)
            }
        },
    }
}

pub fn read_trace_string(packet: &[u8], offset: &mut usize) -> (r: Option<String>)
    ensures
        *final(offset) == trace_string_at(packet@, *old(offset) as int).1,
        match trace_string_at(packet@, *old(offset) as int).0 {
            Some(text) => r matches Some(s) && s@ == text,
            None => r is None,
        },
{
    let len: u32 = match read_var_u32(packet, offset) {
        Some(v) => v,
        None => return None,
    };
    let start: usize = *offset;
    if start > packet.len() || (len as usize) > packet.len() - start {
        return None;
    }
    let end: usize = start + len as usize;
    let bytes: &[u8] = vstd::slice::slice_subrange(packet, start, end);
    *offset = end;
    Some(lossy_string(bytes))
}

/// A Disconnect observation: zigzag reason, the hide flag and, when the
/// reason is shown, the message and filtered message (each absent when it
/// does not read).
pub open spec fn disconnect_at(s: Seq<u8>, off: int) -> Option<(i32, bool, Option<Seq<char>>, Option<Seq<char>>)> {
    match zz32(s, off) {
        None => None,
        Some((reason, o1)) => {
            if !(0 <= o1 < s.len()) {
                None
            } else {
                let hide_reason = s[o1] != 0;
                if hide_reason {
                    Some((reason, true, None, None))
                } else {
                    let (message, o2) = trace_string_at(s, o1 + 1);
                    let (filtered, _) = trace_string_at(s, o2);
                    Some((reason, false, message, filtered))
                }
            }
        },
    }
}

/// The characters of an optional string.
pub open spec fn opt_chars(s: Option<String>) -> Option<Seq<char>> {
    match s {
        Some(t) => Some(t@),
        None => None,
    }
}

pub fn read_disconnect(packet: &[u8], payload_offset: usize) -> (r: Option<ObservedDisconnect>)
    ensures
        match disconnect_at(packet@, payload_offset as int) {
            Some((reason, hide_reason, message, filtered)) => r matches Some(d) && d.reason == reason
                && d.hide_reason == hide_reason && opt_chars(d.message) == message && opt_chars(
                d.filtered_message,
            ) == filtered,
            None => r is None,
        },
{
    let mut offset: usize = payload_offset;
    let reason: i32 = match read_var_u32(packet, &mut offset) {
        Some(v) => zigzag_i32(v),
        None => return None,
    };
    let hide: u8 = match read_u8(packet, &mut offset) {
        Some(b) => b,
        None => return None,
    };
    let hide_reason: bool = hide != 0;
    if hide_reason {
        return Some(ObservedDisconnect { reason, hide_reason, message: None, filtered_message: None });
    }
    let message: Option<String> = read_trace_string(packet, &mut offset);
    let filtered_message: Option<String> = read_trace_string(packet, &mut offset);
    Some(ObservedDisconnect { reason, hide_reason, message, filtered_message })
}

/// A string of a Text packet: no control characters but new lines, carriage
/// returns and tabs, and not only white space.
pub open spec fn is_text_string(value: Seq<char>) -> bool {
    (forall|i: int|
        0 <= i < value.len() ==> !is_control_char(#[trigger] value[i]) || value[i] == '\n' || value[i]
            == '\r' || value[i] == '\t') && (exists|i: int|
        0 <= i < value.len() && !is_unicode_white_space(#[trigger] value[i]))
}

/// The string whose length prefix starts at `start` of `payload`, when it is
/// one to 512 bytes of UTF-8 that reads as Text-packet text.
pub open spec fn text_candidate_at(payload: Seq<u8>, start: int) -> Option<Seq<char>> {
    match var32(payload, start) {
        None => None,
        Some((len, o)) => {
            if len == 0 || len > 512 || !has_bytes(payload, o, len as int) {
                None
            } else {
                let bytes = payload.subrange(o, o + len);
                if vstd::utf8::valid_utf8(bytes) && is_text_string(vstd::utf8::decode_utf8(bytes)) {
                    Some(vstd::utf8::decode_utf8(bytes))
                } else {
                    None
                }
            }
        },
    }
}

/// The distinct Text-packet strings whose prefixes start before `k`, in order.
pub open spec fn text_strings_upto(payload: Seq<u8>, k: int) -> Seq<Seq<char>>
    decreases k,
{
    if k <= 0 {
        seq![]
    } else {
        let earlier = text_strings_upto(payload, k - 1);
        match text_candidate_at(payload, k - 1) {
            Some(v) => if earlier.contains(v) {
                earlier
            } else {
                earlier.push(v)
            },
            None => earlier,
        }
    }
}

/// The strings of a Text packet: every distinct candidate string at any
/// byte of the payload, in order of where it starts.
pub open spec fn text_observation_at(s: Seq<u8>, off: int) -> Option<Seq<Seq<char>>> {
    if 0 <= off <= s.len() {
        let payload = s.subrange(off, s.len() as int);
        Some(text_strings_upto(payload, payload.len() as int))
    } else {
        None
    }
}

fn is_text_chars(value: &Vec<char>) -> (r: bool)
    ensures
        r == is_text_string(value@),
{
    let mut clean: bool = true;
    let mut visible: bool = false;
    let mut i: usize = 0;
    while i < value.len()
        invariant
            i <= value@.len(),
            clean == (forall|j: int|
                0 <= j < i ==> !is_control_char(#[trigger] value@[j]) || value@[j] == '\n' || value@[j]
                    == '\r' || value@[j] == '\t'),
            visible == (exists|j: int| 0 <= j < i && !is_unicode_white_space(#[trigger] value@[j])),
        decreases value@.len() - i,
    {
        let c: char = value[i];
        if is_control(c) && c != '\n' && c != '\r' && c != '\t' {
            clean = false;
        }
        if !is_white_space(c) {
            visible = true;
        }
        i = i + 1;
    }
    clean && visible
}

fn text_candidate(payload: &[u8], start: usize) -> (r: Option<Vec<char>>)
    ensures
        match text_candidate_at(payload@, start as int) {
            Some(v) => r matches Some(c) && c@ == v,
            None => r is None,
        },
{
    let mut offset: usize = start;
    let len: u32 = match read_var_u32(payload, &mut offset) {
        Some(v) => v,
        None => return None,
    };
    if len == 0 || len > 512 {
        return None;
    }
    if offset > payload.len() || (len as usize) > payload.len() - offset {
        return None;
    }
    let bytes: &[u8] = vstd::slice::slice_subrange(payload, offset, offset + len as usize);
    match utf8_to_string(bytes) {
        None => None,
        Some(text) => {
            let chars: Vec<char> = crate::text::str_chars(text.as_str());
            if is_text_chars(&chars) {
                Some(chars)
            } else {
                None
            }
        },
    }
}

fn contains_chars_vec(seen: &Vec<Vec<char>>, value: &Vec<char>) -> (r: bool)
    ensures
        r == seen@.map_values(|v: Vec<char>| v@).contains(value@),
{
    let ghost views = seen@.map_values(|v: Vec<char>| v@);
    let mut i: usize = 0;
    while i < seen.len()
        invariant
            i <= seen@.len(),
            views == seen@.map_values(|v: Vec<char>| v@),
            forall|j: int| 0 <= j < i ==> views[j] != value@,
        decreases seen@.len() - i,
    {
        if chars_equal(&seen[i], value) {
            assert(views[i as int] == value@);
            return true;
        }
        i = i + 1;
    }
    false
}

pub fn read_text_observation(packet: &[u8], payload_offset: usize) -> (r: Option<ObservedText>)
    ensures
        match text_observation_at(packet@, payload_offset as int) {
            Some(strings) => r matches Some(t) && t.strings@.map_values(|s: String| s@) == strings,
            None => r is None,
        },
{
    if payload_offset > packet.len() {
        return None;
    }
    let payload: &[u8] = vstd::slice::slice_subrange(packet, payload_offset, packet.len());
    let mut found: Vec<Vec<char>> = Vec::new();
    let mut start: usize = 0;
    while start < payload.len()
        invariant
            start <= payload@.len(),
            found@.map_values(|v: Vec<char>| v@) == text_strings_upto(payload@, start as int),
        decreases payload@.len() - start,
    {
        match text_candidate(payload, start) {
            Some(value) => {
                if !contains_chars_vec(&found, &value) {
                    let ghost before = found@.map_values(|v: Vec<char>| v@);
                    found.push(value);
                    assert(found@.map_values(|v: Vec<char>| v@) =~= before.push(value@));
                }
            },
            None => {},
        }
        start = start + 1;
    }
    let mut strings: Vec<String> = Vec::new();
    let mut i: usize = 0;
    while i < found.len()
        invariant
            i <= found@.len(),
            strings@.map_values(|s: String| s@) == found@.map_values(|v: Vec<char>| v@).subrange(0, i as int),
        decreases found@.len() - i,
    {
        let s: String = chars_to_string(found[i].as_slice());
        let ghost before = strings@.map_values(|s: String| s@);
        let ghost want = found@.map_values(|v: Vec<char>| v@);
        assert(s@ == want[i as int]);
        strings.push(s);
        assert(strings@.map_values(|s: String| s@) =~= before.push(s@));
        assert(want.subrange(0, i + 1) =~= want.subrange(0, i as int).push(want[i as int]));
        i = i + 1;
        assert(strings@.map_values(|s: String| s@) =~= found@.map_values(|v: Vec<char>| v@).subrange(0, i as int));
    }
    assert(found@.map_values(|v: Vec<char>| v@).subrange(0, i as int) =~= found@.map_values(|v: Vec<char>| v@));
    assert(payload@ =~= packet@.subrange(payload_offset as int, packet@.len() as int));
    Some(ObservedText { strings })
}

/// A ContainerOpen observation: container id and type bytes, a block
/// position (zigzag, varint, zigzag) and a zigzag entity id, all of which
/// must read.
pub open spec fn container_open_at(s: Seq<u8>, off: int) -> Option<(u8, u8)> {
    if !has_bytes(s, off, 2) {
        None
    } else {
        match zz32(s, off + 2) {
            None => None,
            Some((_, o1)) => match var32(s, o1) {
                None => None,
                Some((_, o2)) => match zz32(s, o2) {
                    None => None,
                    Some((_, o3)) => match zz64(s, o3) {
                        None => None,
                        Some(_) => Some((s[off], s[off + 1])),
                    },
                },
            },
        }
    }
}

pub fn read_container_open_observed(packet: &[u8], payload_offset: usize) -> (r: Option<ObservedPacket>)
    ensures
        match container_open_at(packet@, payload_offset as int) {
            Some((container_id, container_type)) => r == Some(
                ObservedPacket::ContainerOpen { container_id, container_type },
            ),
            None => r is None,
        },
{
    let mut offset: usize = payload_offset;
    let container_id: u8 = match read_u8(packet, &mut offset) {
        Some(b) => b,
        None => return None,
    };
    let container_type: u8 = match read_u8(packet, &mut offset) {
        Some(b) => b,
        None => return None,
    };
    match read_var_u32(packet, &mut offset) {
        Some(_) => {},
        None => return None,
    }
    match read_var_u32(packet, &mut offset) {
        Some(_) => {},
        None => return None,
    }
    match read_var_u32(packet, &mut offset) {
        Some(_) => {},
        None => return None,
    }
    match read_var_u64(packet, &mut offset) {
        Some(_) => {},
        None => return None,
    }
    Some(ObservedPacket::ContainerOpen { container_id, container_type })
}

} // verus!
