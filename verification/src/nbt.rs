//! Skipping network little-endian NBT: tags, names and payloads, nested
//! lists and compounds included.

use vstd::prelude::*;
use crate::observe::{var32, var64};
use crate::varint::{read_var_u32, read_var_u64, varint_consumed};
use crate::wire::{has_bytes, lemma_varint_consumed_bound, read_u8, skip_bytes};

verus! {

/// Why an NBT value could not be skipped.
#[derive(Debug, Clone, Copy, PartialEq, Eq)]
pub enum NbtError {
    MissingTag,
    InvalidStringLength,
    NeedBytes(usize),
    InvalidVarint,
    InvalidVarint64,
    InvalidByteArrayLength,
    MissingListItemTag,
    InvalidListLength,
    MissingCompoundChildTag,
    InvalidIntArrayLength,
    InvalidIntArrayItem,
    InvalidLongArrayLength,
    InvalidLongArrayItem,
    UnknownTag(u8),
}

/// Bytes left after `off`, or zero past the end.
pub open spec fn nbt_measure(s: Seq<u8>, off: int) -> int {
    if off <= s.len() {
        s.len() - off
    } else {
        0
    }
}

/// `n` bytes at `off` skipped.
pub open spec fn skip_end(s: Seq<u8>, off: int, n: int) -> Result<int, NbtError> {
    if has_bytes(s, off, n) {
        Ok(off + n)
    } else {
        Err(NbtError::NeedBytes(n as usize))
    }
}

/// A varint-length-prefixed string at `off` skipped.
pub open spec fn nbt_string_end(s: Seq<u8>, off: int) -> Result<int, NbtError> {
    match var32(s, off) {
        None => Err(NbtError::InvalidStringLength),
        Some((len, o)) => skip_end(s, o, len as int),
    }
}

/// `n` varints (64-bit when `wide`) skipped.
pub open spec fn nbt_varints_end(s: Seq<u8>, off: int, n: nat, wide: bool) -> Result<int, NbtError>
    decreases n,
{
    if n == 0 {
        Ok(off)
    } else {
        match nbt_varints_end(s, off, (n - 1) as nat, wide) {
            Err(e) => Err(e),
            Ok(o) => {
                if wide {
                    match var64(s, o) {
                        Some((_, o2)) => Ok(o2),
                        None => Err(NbtError::InvalidLongArrayItem),
                    }
                } else {
                    match var32(s, o) {
                        Some((_, o2)) => Ok(o2),
                        None => Err(NbtError::InvalidIntArrayItem),
                    }
                }
            },
        }
    }
}

/// The end of the payload of a value of type `tag` at `off`.
pub open spec fn nbt_payload_end(s: Seq<u8>, off: int, tag: u8) -> Result<int, NbtError>
    decreases nbt_measure(s, off), 1int, 0int,
{
    if tag == 0 {
        Ok(off)
    } else if tag == 1 {
        skip_end(s, off, 1)
    } else if tag == 2 || tag == 3 {
        match var32(s, off) {
            Some((_, o)) => Ok(o),
            None => Err(NbtError::InvalidVarint),
        }
    } else if tag == 4 {
        match var64(s, off) {
            Some((_, o)) => Ok(o),
            None => Err(NbtError::InvalidVarint64),
        }
    } else if tag == 5 {
        skip_end(s, off, 4)
    } else if tag == 6 {
        skip_end(s, off, 8)
    } else if tag == 7 {
        match var32(s, off) {
            None => Err(NbtError::InvalidByteArrayLength),
            Some((len, o)) => skip_end(s, o, len as int),
        }
    } else if tag == 8 {
        nbt_string_end(s, off)
    } else if tag == 9 {
        if !(0 <= off < s.len()) {
            Err(NbtError::MissingListItemTag)
        } else {
            match var32(s, off + 1) {
                None => Err(NbtError::InvalidListLength),
                Some((len, o)) => {
                    proof {
                        lemma_varint_consumed_bound(s, off + 1, 0, 5);
                    }
                    nbt_list_end(s, o, s[off], len as nat)
                },
            }
        }
    } else if tag == 10 {
        nbt_compound_end(s, off)
    } else if tag == 11 {
        match var32(s, off) {
            None => Err(NbtError::InvalidIntArrayLength),
            Some((len, o)) => nbt_varints_end(s, o, len as nat, false),
        }
    } else if tag == 12 {
        match var32(s, off) {
            None => Err(NbtError::InvalidLongArrayLength),
            Some((len, o)) => nbt_varints_end(s, o, len as nat, true),
        }
    } else {
        Err(NbtError::UnknownTag(tag))
    }
}

/// `n` payloads of type `tag` one after the other.
pub open spec fn nbt_list_end(s: Seq<u8>, off: int, tag: u8, n: nat) -> Result<int, NbtError>
    decreases nbt_measure(s, off), 2int, n,
{
    if n == 0 {
        Ok(off)
    } else {
        match nbt_payload_end(s, off, tag) {
            Err(e) => Err(e),
            Ok(o) => {
                if o < off || o > s.len() {
                    Err(NbtError::NeedBytes(0))
                } else {
                    nbt_list_end(s, o, tag, (n - 1) as nat)
                }
            },
        }
    }
}

/// Named children up to the end tag of a compound.
pub open spec fn nbt_compound_end(s: Seq<u8>, off: int) -> Result<int, NbtError>
    decreases nbt_measure(s, off), 0int, 0int,
{
    if !(0 <= off < s.len()) {
        Err(NbtError::MissingCompoundChildTag)
    } else if s[off] == 0 {
        Ok(off + 1)
    } else {
        match nbt_string_end(s, off + 1) {
            Err(e) => Err(e),
            Ok(o1) => {
                if o1 <= off || o1 > s.len() {
                    Err(NbtError::NeedBytes(0))
                } else {
                    match nbt_payload_end(s, o1, s[off]) {
                        Err(e) => Err(e),
                        Ok(o2) => {
                            if o2 <= off || o2 > s.len() {
                                Err(NbtError::NeedBytes(0))
                            } else {
                                nbt_compound_end(s, o2)
                            }
                        },
                    }
                }
            },
        }
    }
}

/// A whole tagged value: its tag, then (unless it is the end tag) its name and payload.
pub open spec fn nbt_end(s: Seq<u8>, off: int) -> Result<int, NbtError> {
    if !(0 <= off < s.len()) {
        Err(NbtError::MissingTag)
    } else if s[off] == 0 {
        Ok(off + 1)
    } else {
        match nbt_string_end(s, off + 1) {
            Err(e) => Err(e),
            Ok(o) => nbt_payload_end(s, o, s[off]),
        }
    }
}

fn skip_nbt_bytes(packet: &[u8], offset: &mut usize, len: usize) -> (r: Result<(), NbtError>)
    ensures
        match skip_end(packet@, *old(offset) as int, len as int) {
            Ok(o) => r is Ok && *final(offset) == o,
            Err(e) => r == Err::<(), NbtError>(e),
        },
{
    if skip_bytes(packet, offset, len) {
        Ok(())
    } else {
        Err(NbtError::NeedBytes(len))
    }
}

pub fn skip_trace_nbt_string(packet: &[u8], offset: &mut usize) -> (r: Result<(), NbtError>)
    ensures
        match nbt_string_end(packet@, *old(offset) as int) {
            Ok(o) => r is Ok && *final(offset) == o,
            Err(e) => r == Err::<(), NbtError>(e),
        },
{
    match read_var_u32(packet, offset) {
        Some(len) => skip_nbt_bytes(packet, offset, len as usize),
        None => Err(NbtError::InvalidStringLength),
    }
}

fn skip_varints(packet: &[u8], offset: &mut usize, n: u32, wide: bool) -> (r: Result<(), NbtError>)
    ensures
        match nbt_varints_end(packet@, *old(offset) as int, n as nat, wide) {
            Ok(o) => r is Ok && *final(offset) == o,
            Err(e) => r == Err::<(), NbtError>(e),
        },
{
    let ghost start = *offset as int;
    let mut k: u32 = 0;
    while k < n
        invariant
            k <= n,
            start == *old(offset),
            nbt_varints_end(packet@, start, k as nat, wide) == Ok::<int, NbtError>(*offset as int),
        decreases n - k,
    {
        if wide {
            match read_var_u64(packet, offset) {
                Some(_) => {},
                None => {
                    proof {
                        lemma_varints_error_sticks(packet@, start, (k + 1) as nat, n as nat, wide);
                    }
                    return Err(NbtError::InvalidLongArrayItem);
                },
            }
        } else {
            match read_var_u32(packet, offset) {
                Some(_) => {},
                None => {
                    proof {
                        lemma_varints_error_sticks(packet@, start, (k + 1) as nat, n as nat, wide);
                    }
                    return Err(NbtError::InvalidIntArrayItem);
                },
            }
        }
        k = k + 1;
    }
    Ok(())
}

proof fn lemma_varints_error_sticks(s: Seq<u8>, off: int, k: nat, n: nat, wide: bool)
    requires
        k <= n,
        nbt_varints_end(s, off, k, wide) is Err,
    ensures
        nbt_varints_end(s, off, n, wide) == nbt_varints_end(s, off, k, wide),
    decreases n - k,
{
    if k < n {
        lemma_varints_error_sticks(s, off, k, (n - 1) as nat, wide);
    }
}

/// A successful payload skip never moves backwards or past the end.
pub proof fn lemma_payload_end_bounds(s: Seq<u8>, off: int, tag: u8)
    requires
        0 <= off <= s.len(),
    ensures
        nbt_payload_end(s, off, tag) matches Ok(o) ==> off <= o <= s.len(),
    decreases nbt_measure(s, off), 1int, 0int,
{
    if tag == 2 || tag == 3 || tag == 7 || tag == 8 || tag == 11 || tag == 12 {
        lemma_varint_consumed_bound(s, off, 0, 5);
        if tag == 11 || tag == 12 {
            match var32(s, off) {
                Some((len, o)) => lemma_varints_end_bounds(s, o, len as nat, tag == 12),
                None => {},
            }
        }
    } else if tag == 4 {
        lemma_varint_consumed_bound(s, off, 0, 10);
    } else if tag == 9 {
        if 0 <= off < s.len() {
            lemma_varint_consumed_bound(s, off + 1, 0, 5);
            match var32(s, off + 1) {
                Some((len, o)) => lemma_list_end_bounds(s, o, s[off], len as nat),
                None => {},
            }
        }
    } else if tag == 10 {
        lemma_compound_end_bounds(s, off);
    }
}

proof fn lemma_varints_end_bounds(s: Seq<u8>, off: int, n: nat, wide: bool)
    requires
        0 <= off <= s.len(),
    ensures
        nbt_varints_end(s, off, n, wide) matches Ok(o) ==> off <= o <= s.len(),
    decreases n,
{
    if n > 0 {
        lemma_varints_end_bounds(s, off, (n - 1) as nat, wide);
        match nbt_varints_end(s, off, (n - 1) as nat, wide) {
            Ok(o) => {
                if wide {
                    if 0 <= o < s.len() {
                        lemma_varint_consumed_bound(s, o, 0, 10);
                    }
                } else {
                    if 0 <= o < s.len() {
                        lemma_varint_consumed_bound(s, o, 0, 5);
                    }
                }
            },
            Err(_) => {},
        }
    }
}

proof fn lemma_list_end_bounds(s: Seq<u8>, off: int, tag: u8, n: nat)
    requires
        0 <= off <= s.len(),
    ensures
        nbt_list_end(s, off, tag, n) matches Ok(o) ==> off <= o <= s.len(),
    decreases nbt_measure(s, off), 2int, n,
{
    if n > 0 {
        lemma_payload_end_bounds(s, off, tag);
        match nbt_payload_end(s, off, tag) {
            Ok(o) => {
                if off <= o <= s.len() {
                    lemma_list_end_bounds(s, o, tag, (n - 1) as nat);
                }
            },
            Err(_) => {},
        }
    }
}

proof fn lemma_compound_end_bounds(s: Seq<u8>, off: int)
    requires
        0 <= off <= s.len(),
    ensures
        nbt_compound_end(s, off) matches Ok(o) ==> off <= o <= s.len(),
    decreases nbt_measure(s, off), 0int, 0int,
{
    if 0 <= off < s.len() && s[off] != 0 {
        match nbt_string_end(s, off + 1) {
            Ok(o1) => {
                if off < o1 <= s.len() {
                    lemma_payload_end_bounds(s, o1, s[off]);
                    match nbt_payload_end(s, o1, s[off]) {
                        Ok(o2) => {
                            if off < o2 <= s.len() {
                                lemma_compound_end_bounds(s, o2);
                            }
                        },
                        Err(_) => {},
                    }
                }
            },
            Err(_) => {},
        }
    }
}

/// Skips the payload of a value of type `tag`.
pub fn skip_trace_nbt_payload(packet: &[u8], offset: &mut usize, tag: u8) -> (r: Result<(), NbtError>)
    requires
        *old(offset) <= packet@.len(),
    ensures
        match nbt_payload_end(packet@, *old(offset) as int, tag) {
            Ok(o) => r is Ok && *final(offset) == o,
            Err(e) => r == Err::<(), NbtError>(e),
        },
    decreases packet@.len() - *old(offset), 1int,
{
    if tag == 0 {
        Ok(())
    } else if tag == 1 {
        skip_nbt_bytes(packet, offset, 1)
    } else if tag == 2 || tag == 3 {
        match read_var_u32(packet, offset) {
            Some(_) => Ok(()),
            None => Err(NbtError::InvalidVarint),
        }
    } else if tag == 4 {
        match read_var_u64(packet, offset) {
            Some(_) => Ok(()),
            None => Err(NbtError::InvalidVarint64),
        }
    } else if tag == 5 {
        skip_nbt_bytes(packet, offset, 4)
    } else if tag == 6 {
        skip_nbt_bytes(packet, offset, 8)
    } else if tag == 7 {
        match read_var_u32(packet, offset) {
            Some(len) => skip_nbt_bytes(packet, offset, len as usize),
            None => Err(NbtError::InvalidByteArrayLength),
        }
    } else if tag == 8 {
        skip_trace_nbt_string(packet, offset)
    } else if tag == 9 {
        skip_nbt_list(packet, offset)
    } else if tag == 10 {
        skip_nbt_compound(packet, offset)
    } else if tag == 11 {
        match read_var_u32(packet, offset) {
            Some(len) => skip_varints(packet, offset, len, false),
            None => Err(NbtError::InvalidIntArrayLength),
        }
    } else if tag == 12 {
        match read_var_u32(packet, offset) {
            Some(len) => skip_varints(packet, offset, len, true),
            None => Err(NbtError::InvalidLongArrayLength),
        }
    } else {
        Err(NbtError::UnknownTag(tag))
    }
}

fn skip_nbt_list(packet: &[u8], offset: &mut usize) -> (r: Result<(), NbtError>)
    requires
        *old(offset) <= packet@.len(),
    ensures
        match nbt_payload_end(packet@, *old(offset) as int, 9) {
            Ok(o) => r is Ok && *final(offset) == o,
            Err(e) => r == Err::<(), NbtError>(e),
        },
    decreases packet@.len() - *old(offset), 0int,
{
    let start: usize = *offset;
    let item_tag: u8 = match read_u8(packet, offset) {
        Some(t) => t,
        None => return Err(NbtError::MissingListItemTag),
    };
    proof {
        lemma_varint_consumed_bound(packet@, start + 1, 0, 5);
    }
    let len: u32 = match read_var_u32(packet, offset) {
        Some(v) => v,
        None => return Err(NbtError::InvalidListLength),
    };
    let ghost list_start = *offset as int;
    let mut k: u32 = 0;
    while k < len
        invariant
            k <= len,
            start < list_start <= *offset <= packet@.len(),
            start == *old(offset),
            packet@[start as int] == item_tag,
            nbt_payload_end(packet@, start as int, 9) == nbt_list_end(packet@, list_start, item_tag, len as nat),
            nbt_list_end(packet@, list_start, item_tag, len as nat) == nbt_list_end(
                packet@,
                *offset as int,
                item_tag,
                (len - k) as nat,
            ),
        decreases len - k,
    {
        let ghost before = *offset as int;
        proof {
            lemma_payload_end_bounds(packet@, before, item_tag);
        }
        match skip_trace_nbt_payload(packet, offset, item_tag) {
            Ok(()) => {},
            Err(e) => return Err(e),
        }
        k = k + 1;
    }
    Ok(())
}

fn skip_nbt_compound(packet: &[u8], offset: &mut usize) -> (r: Result<(), NbtError>)
    requires
        *old(offset) <= packet@.len(),
    ensures
        match nbt_compound_end(packet@, *old(offset) as int) {
            Ok(o) => r is Ok && *final(offset) == o,
            Err(e) => r == Err::<(), NbtError>(e),
        },
    decreases packet@.len() - *old(offset), 0int,
{
    let start: usize = *offset;
    loop
        invariant
            start == *old(offset),
            start <= *offset <= packet@.len(),
            nbt_compound_end(packet@, start as int) == nbt_compound_end(packet@, *offset as int),
        decreases packet@.len() - *offset,
    {
        let here: usize = *offset;
        let child_tag: u8 = match read_u8(packet, offset) {
            Some(t) => t,
            None => return Err(NbtError::MissingCompoundChildTag),
        };
        if child_tag == 0 {
            return Ok(());
        }
        proof {
            lemma_varint_consumed_bound(packet@, here + 1, 0, 5);
        }
        match skip_trace_nbt_string(packet, offset) {
            Ok(()) => {},
            Err(e) => return Err(e),
        }
        let ghost o1 = *offset as int;
        proof {
            lemma_payload_end_bounds(packet@, o1, child_tag);
        }
        match skip_trace_nbt_payload(packet, offset, child_tag) {
            Ok(()) => {},
            Err(e) => return Err(e),
        }
    }
}

/// Skips a whole tagged value.
pub fn skip_trace_nbt(packet: &[u8], offset: &mut usize) -> (r: Result<(), NbtError>)
    ensures
        match nbt_end(packet@, *old(offset) as int) {
            Ok(o) => r is Ok && *final(offset) == o,
            Err(e) => r == Err::<(), NbtError>(e),
        },
{
    let start: usize = *offset;
    let tag: u8 = match read_u8(packet, offset) {
        Some(t) => t,
        None => return Err(NbtError::MissingTag),
    };
    if tag == 0 {
        return Ok(());
    }
    proof {
        lemma_varint_consumed_bound(packet@, start + 1, 0, 5);
    }
    match skip_trace_nbt_string(packet, offset) {
        Ok(()) => {},
        Err(e) => return Err(e),
    }
    skip_trace_nbt_payload(packet, offset, tag)
}

} // verus!
