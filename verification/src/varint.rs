//! Unsigned LEB128 varints and zigzag encodings as used on the Bedrock wire.

use vstd::prelude::*;

verus! {

/// `128^n`.
pub open spec fn pow128(n: nat) -> nat
    decreases n,
{
    if n == 0 {
        1
    } else {
        128 * pow128((n - 1) as nat)
    }
}

/// The LEB128 encoding of `v`: seven bits per byte, low group first, the high
/// bit set on every byte but the last.
pub open spec fn varint_encode(v: nat) -> Seq<u8>
    decreases v,
{
    if v < 128 {
        seq![v as u8]
    } else {
        seq![((v % 128) + 128) as u8] + varint_encode(v / 128)
    }
}

/// Length of the varint group that starts at `start`, looking at bytes
/// `i..max` of it: the index after the first byte below 0x80, or `None` when
/// the buffer or the byte budget runs out first.
pub open spec fn varint_len_from(s: Seq<u8>, start: int, i: nat, max: nat) -> Option<nat>
    decreases max - i,
{
    if i >= max || start < 0 || start + i >= s.len() {
        None
    } else if s[start + i] < 128 {
        Some(i + 1)
    } else {
        varint_len_from(s, start, i + 1, max)
    }
}

pub open spec fn varint_len(s: Seq<u8>, start: int, max: nat) -> Option<nat> {
    varint_len_from(s, start, 0, max)
}

/// Number of bytes a reader examines from `start` (on success and on failure).
pub open spec fn varint_consumed_from(s: Seq<u8>, start: int, i: nat, max: nat) -> nat
    decreases max - i,
{
    if i >= max || start < 0 || start + i >= s.len() {
        i
    } else if s[start + i] < 128 {
        i + 1
    } else {
        varint_consumed_from(s, start, i + 1, max)
    }
}

pub open spec fn varint_consumed(s: Seq<u8>, start: int, max: nat) -> nat {
    varint_consumed_from(s, start, 0, max)
}

/// Value of the low seven bits of the first `n` bytes from `start`, low group first.
pub open spec fn varint_digits(s: Seq<u8>, start: int, n: nat) -> nat
    decreases n,
{
    if n == 0 {
        0
    } else {
        varint_digits(s, start, (n - 1) as nat) + (s[start + n - 1] % 128) as nat * pow128(
            (n - 1) as nat,
        )
    }
}

/// A 32-bit varint read at `start`: at most five bytes, the value taken modulo 2^32.
pub open spec fn var_u32_at(s: Seq<u8>, start: int) -> Option<u32> {
    match varint_len(s, start, 5) {
        Some(n) => Some((varint_digits(s, start, n) % 0x1_0000_0000) as u32),
        None => None,
    }
}

/// A 64-bit varint read at `start`: at most ten bytes, the value taken modulo 2^64.
pub open spec fn var_u64_at(s: Seq<u8>, start: int) -> Option<u64> {
    match varint_len(s, start, 10) {
        Some(n) => Some((varint_digits(s, start, n) % 0x1_0000_0000_0000_0000) as u64),
        None => None,
    }
}

/// Zigzag decoding of a 32-bit value: even values are non-negative, odd ones negative.
pub open spec fn zigzag_decode32(v: u32) -> i32 {
    if v % 2 == 0 {
        (v / 2) as i32
    } else {
        (-((v / 2) as int) - 1) as i32
    }
}

pub open spec fn zigzag_decode64(v: u64) -> i64 {
    if v % 2 == 0 {
        (v / 2) as i64
    } else {
        (-((v / 2) as int) - 1) as i64
    }
}

pub open spec fn zigzag_encode32(v: i32) -> u32 {
    if v >= 0 {
        (2 * v) as u32
    } else {
        (-2 * v - 1) as u32
    }
}

pub open spec fn zigzag_encode64(v: i64) -> u64 {
    if v >= 0 {
        (2 * v) as u64
    } else {
        (-2 * v - 1) as u64
    }
}

proof fn lemma_pow128_pos(n: nat)
    ensures
        pow128(n) >= 1,
    decreases n,
{
    if n > 0 {
        lemma_pow128_pos((n - 1) as nat);
    }
}

proof fn lemma_digits_bound(s: Seq<u8>, start: int, n: nat)
    ensures
        varint_digits(s, start, n) < pow128(n),
    decreases n,
{
    if n > 0 {
        lemma_digits_bound(s, start, (n - 1) as nat);
        let d = (s[start + n - 1] % 128) as nat;
        let p = pow128((n - 1) as nat);
        assert(d * p <= 127 * p) by (nonlinear_arith)
            requires
                d <= 127,
        ;
    }
}

/// Writes `value` as an unsigned varint.
pub fn write_unsigned_varint_u32(value: u32, out: &mut Vec<u8>)
    ensures
        final(out)@ == old(out)@ + varint_encode(value as nat),
{
    let mut v: u32 = value;
    loop
        invariant
            out@ + varint_encode(v as nat) == old(out)@ + varint_encode(value as nat),
        decreases v,
    {
        if v < 128 {
            out.push(v as u8);
            assert(out@ =~= old(out)@ + varint_encode(value as nat));
            return;
        }
        let ghost before = out@;
        let ghost old_v = v;
        out.push((v % 128 + 128) as u8);
        v = v / 128;
        assert(varint_encode(old_v as nat) == seq![((old_v % 128) + 128) as u8] + varint_encode(
            v as nat,
        ));
        assert(out@ + varint_encode(v as nat) =~= before + varint_encode(old_v as nat));
    }
}


/// Writes `value` as an unsigned varint.
pub fn write_unsigned_varint_u64(value: u64, out: &mut Vec<u8>)
    ensures
        final(out)@ == old(out)@ + varint_encode(value as nat),
{
    let mut v: u64 = value;
    loop
        invariant
            out@ + varint_encode(v as nat) == old(out)@ + varint_encode(value as nat),
        decreases v,
    {
        if v < 128 {
            out.push(v as u8);
            assert(out@ =~= old(out)@ + varint_encode(value as nat));
            return;
        }
        let ghost before = out@;
        let ghost old_v = v;
        out.push((v % 128 + 128) as u8);
        v = v / 128;
        assert(varint_encode(old_v as nat) == seq![((old_v % 128) + 128) as u8] + varint_encode(
            v as nat,
        ));
        assert(out@ + varint_encode(v as nat) =~= before + varint_encode(old_v as nat));
    }
}

/// Writes `value` as an unsigned varint.
pub fn write_unsigned_varint_u128(value: u128, out: &mut Vec<u8>)
    ensures
        final(out)@ == old(out)@ + varint_encode(value as nat),
{
    let mut v: u128 = value;
    loop
        invariant
            out@ + varint_encode(v as nat) == old(out)@ + varint_encode(value as nat),
        decreases v,
    {
        if v < 128 {
            out.push(v as u8);
            assert(out@ =~= old(out)@ + varint_encode(value as nat));
            return;
        }
        let ghost before = out@;
        let ghost old_v = v;
        out.push((v % 128 + 128) as u8);
        v = v / 128;
        assert(varint_encode(old_v as nat) == seq![((old_v % 128) + 128) as u8] + varint_encode(
            v as nat,
        ));
        assert(out@ + varint_encode(v as nat) =~= before + varint_encode(old_v as nat));
    }
}

/// Writes the zigzag encoding of `value` as an unsigned varint.
pub fn write_zigzag_i32(value: i32, out: &mut Vec<u8>)
    ensures
        final(out)@ == old(out)@ + varint_encode(zigzag_encode32(value) as nat),
{
    let encoded: u32 = if value >= 0 {
        (2 * (value as i64)) as u32
    } else {
        let neg: i64 = -(value as i64);
        (neg * 2 - 1) as u32
    };
    write_unsigned_varint_u32(encoded, out);
}

/// Zigzag decoding of a 32-bit varint value.
pub fn zigzag_i32(value: u32) -> (r: i32)
    ensures
        r == zigzag_decode32(value),
{
    if value % 2 == 0 {
        (value / 2) as i32
    } else {
        -((value / 2) as i32) - 1
    }
}

/// Zigzag decoding of a 64-bit varint value.
pub fn zigzag_i64(value: u64) -> (r: i64)
    ensures
        r == zigzag_decode64(value),
{
    if value % 2 == 0 {
        (value / 2) as i64
    } else {
        -((value / 2) as i64) - 1
    }
}

/// Reads a 32-bit varint at `*offset`, moving `*offset` past every byte it examined.
pub fn read_var_u32(packet: &[u8], offset: &mut usize) -> (res: Option<u32>)
    ensures
        res == var_u32_at(packet@, *old(offset) as int),
        *final(offset) == *old(offset) + varint_consumed(packet@, *old(offset) as int, 5),
{
    let start: usize = *offset;
    let mut pos: usize = start;
    let mut acc: u64 = 0;
    let mut mult: u64 = 1;
    let mut i: usize = 0;
    while i < 5
        invariant
            start == *old(offset),
            0 <= i <= 5,
            pos == start + i,
            pos <= packet@.len() || i == 0,
            acc == varint_digits(packet@, start as int, i as nat),
            i < 5 ==> mult == pow128(i as nat),
            varint_len(packet@, start as int, 5) == varint_len_from(
                packet@,
                start as int,
                i as nat,
                5,
            ),
            varint_consumed(packet@, start as int, 5) == varint_consumed_from(
                packet@,
                start as int,
                i as nat,
                5,
            ),
        decreases 5 - i,
    {
        if pos >= packet.len() {
            *offset = pos;
            assert(varint_len_from(packet@, start as int, i as nat, 5) is None);
            return None;
        }
        let byte: u8 = packet[pos];
        proof {
            lemma_digits_bound(packet@, start as int, i as nat);
            reveal_with_fuel(pow128, 6);
            assert(pow128(4) == 0x1000_0000);
            lemma_pow128_mono(i as nat, 4);
            assert((byte % 128) as nat * mult <= 127 * mult) by (nonlinear_arith)
                requires
                    byte % 128 <= 127,
            ;
        }
        acc = acc + ((byte % 128) as u64) * mult;
        pos = pos + 1;
        if byte < 128 {
            *offset = pos;
            assert(varint_len_from(packet@, start as int, i as nat, 5) == Some((i + 1) as nat));
            assert(varint_digits(packet@, start as int, (i + 1) as nat) == acc);
            return Some((acc % 0x1_0000_0000) as u32);
        }
        if i < 4 {
            mult = mult * 128;
        }
        i = i + 1;
    }
    *offset = pos;
    None
}

proof fn lemma_pow128_mono(i: nat, j: nat)
    requires
        i <= j,
    ensures
        pow128(i) <= pow128(j),
    decreases j - i,
{
    if i < j {
        lemma_pow128_mono(i, (j - 1) as nat);
        lemma_pow128_pos((j - 1) as nat);
    }
}


/// Reads a 64-bit varint at `*offset`, moving `*offset` past every byte it examined.
pub fn read_var_u64(packet: &[u8], offset: &mut usize) -> (res: Option<u64>)
    ensures
        res == var_u64_at(packet@, *old(offset) as int),
        *final(offset) == *old(offset) + varint_consumed(packet@, *old(offset) as int, 10),
{
    let start: usize = *offset;
    let mut pos: usize = start;
    let mut acc: u128 = 0;
    let mut mult: u128 = 1;
    let mut i: usize = 0;
    while i < 10
        invariant
            start == *old(offset),
            0 <= i <= 10,
            pos == start + i,
            pos <= packet@.len() || i == 0,
            acc == varint_digits(packet@, start as int, i as nat),
            i < 10 ==> mult == pow128(i as nat),
            varint_len(packet@, start as int, 10) == varint_len_from(
                packet@,
                start as int,
                i as nat,
                10,
            ),
            varint_consumed(packet@, start as int, 10) == varint_consumed_from(
                packet@,
                start as int,
                i as nat,
                10,
            ),
        decreases 10 - i,
    {
        if pos >= packet.len() {
            *offset = pos;
            assert(varint_len_from(packet@, start as int, i as nat, 10) is None);
            return None;
        }
        let byte: u8 = packet[pos];
        proof {
            lemma_digits_bound(packet@, start as int, i as nat);
            reveal_with_fuel(pow128, 10);
            assert(pow128(9) == 0x8000_0000_0000_0000);
            lemma_pow128_mono(i as nat, 9);
            assert((byte % 128) as nat * mult <= 127 * mult) by (nonlinear_arith)
                requires
                    byte % 128 <= 127,
            ;
        }
        acc = acc + ((byte % 128) as u128) * mult;
        pos = pos + 1;
        if byte < 128 {
            *offset = pos;
            assert(varint_len_from(packet@, start as int, i as nat, 10) == Some((i + 1) as nat));
            assert(varint_digits(packet@, start as int, (i + 1) as nat) == acc);
            return Some((acc % 0x1_0000_0000_0000_0000) as u64);
        }
        if i < 9 {
            mult = mult * 128;
        }
        i = i + 1;
    }
    *offset = pos;
    None
}

proof fn lemma_encode_len_bound(v: nat, n: nat)
    requires
        n >= 1,
        v < pow128(n),
    ensures
        varint_encode(v).len() <= n,
        varint_encode(v).len() >= 1,
    decreases v,
{
    if v >= 128 {
        if n == 1 {
            assert(pow128(1) == 128) by {
                reveal_with_fuel(pow128, 2);
            }
        }
        let p = pow128((n - 1) as nat);
        assert(v / 128 < p) by (nonlinear_arith)
            requires
                v < 128 * p,
        ;
        lemma_encode_len_bound(v / 128, (n - 1) as nat);
    }
}

/// The encoding takes the fewest seven-bit groups that hold `v` (one for
/// zero): `v` is below `128^len`, and at least `128^(len-1)` when more than
/// one byte is used. Every byte but the last has its high bit set, and the
/// last has it clear.
pub proof fn lemma_varint_shape(v: nat)
    ensures
        varint_encode(v).len() >= 1,
        v < pow128(varint_encode(v).len()),
        varint_encode(v).len() > 1 ==> v >= pow128((varint_encode(v).len() - 1) as nat),
        forall|i: int| 0 <= i < varint_encode(v).len() - 1 ==> #[trigger] varint_encode(v)[i] >= 0x80,
        varint_encode(v)[varint_encode(v).len() - 1] < 0x80,
    decreases v,
{
    reveal_with_fuel(pow128, 2);
    if v >= 128 {
        let rest = varint_encode(v / 128);
        lemma_varint_shape(v / 128);
        let n = rest.len();
        let enc = varint_encode(v);
        assert(enc == seq![((v % 128) + 128) as u8] + rest);
        let p = pow128(n);
        assert(pow128(n + 1) == 128 * p);
        assert(v < 128 * p) by (nonlinear_arith)
            requires
                v / 128 < p,
        ;
        if n > 1 {
            let q = pow128((n - 1) as nat);
            assert(p == 128 * q);
            assert(v >= 128 * q) by (nonlinear_arith)
                requires
                    v / 128 >= q,
            ;
        }
        assert forall|i: int| 0 <= i < enc.len() - 1 implies #[trigger] enc[i] >= 0x80 by {
            if i > 0 {
                assert(enc[i] == rest[i - 1]);
            }
        }
        assert(enc[enc.len() - 1] == rest[n - 1]);
    }
}

/// A 32-bit value encodes in one to five bytes.
pub proof fn lemma_varint_u32_len(v: u32)
    ensures
        1 <= varint_encode(v as nat).len() <= 5,
{
    assert(pow128(5) == 0x8_0000_0000) by {
        reveal_with_fuel(pow128, 6);
    }
    lemma_encode_len_bound(v as nat, 5);
}

/// Reading a varint that starts `k` bytes into a group picks up exactly the
/// encoding of `v` placed there.
proof fn lemma_decode_encoded(v: nat, s: Seq<u8>, start: int, k: nat, max: nat)
    requires
        start >= 0,
        start + k + varint_encode(v).len() <= s.len(),
        s.subrange(start + k, start + k + varint_encode(v).len()) == varint_encode(v),
        k + varint_encode(v).len() <= max,
    ensures
        varint_len_from(s, start, k, max) == Some(k + varint_encode(v).len()),
        varint_consumed_from(s, start, k, max) == k + varint_encode(v).len(),
        varint_digits(s, start, k + varint_encode(v).len()) == varint_digits(s, start, k) + v
            * pow128(k),
    decreases v,
{
    let e = varint_encode(v);
    assert(s[start + k] == e[0]);
    if v < 128 {
        assert(varint_digits(s, start, k + 1) == varint_digits(s, start, k) + (s[start + k] % 128) as nat * pow128(k));
    } else {
        let rest = varint_encode(v / 128);
        assert(e == seq![((v % 128) + 128) as u8] + rest);
        assert(s.subrange(start + k + 1, start + k + 1 + rest.len()) =~= rest) by {
            assert forall|j: int| 0 <= j < rest.len() implies s[start + k + 1 + j] == rest[j] by {
                assert(s.subrange(start + k, start + k + e.len())[j + 1] == e[j + 1]);
            }
        }
        lemma_decode_encoded(v / 128, s, start, k + 1, max);
        let p = pow128(k);
        assert(varint_digits(s, start, k + 1) == varint_digits(s, start, k) + (v % 128) * p);
        assert(pow128(k + 1) == 128 * p);
        assert((v % 128) * p + (v / 128) * (128 * p) == v * p) by (nonlinear_arith)
            requires
                v == 128 * (v / 128) + v % 128,
        ;
    }
}

/// Law: a 32-bit varint written by `write_unsigned_varint_u32` reads back as the
/// same value, and the reader consumes exactly the written bytes, whatever
/// precedes or follows them.
pub proof fn lemma_var_u32_roundtrip(v: u32, prefix: Seq<u8>, rest: Seq<u8>)
    ensures
        var_u32_at(prefix + varint_encode(v as nat) + rest, prefix.len() as int) == Some(v),
        varint_consumed(prefix + varint_encode(v as nat) + rest, prefix.len() as int, 5)
            == varint_encode(v as nat).len(),
{
    let e = varint_encode(v as nat);
    let s = prefix + e + rest;
    reveal_with_fuel(pow128, 6);
    assert(pow128(5) == 0x8_0000_0000);
    lemma_encode_len_bound(v as nat, 5);
    assert(s.subrange(prefix.len() as int, (prefix.len() + e.len()) as int) =~= e);
    lemma_decode_encoded(v as nat, s, prefix.len() as int, 0, 5);
    assert(varint_digits(s, prefix.len() as int, 0) == 0);
    assert(pow128(0) == 1);
    assert(varint_digits(s, prefix.len() as int, (0 + e.len()) as nat) == 0 + (v as nat) * pow128(0));
    let p0 = pow128(0);
    assert((v as nat) * p0 == v as nat) by (nonlinear_arith)
        requires
            p0 == 1,
    ;
    assert(varint_digits(s, prefix.len() as int, e.len()) == v);
}

/// Law: a 64-bit varint written by `write_unsigned_varint_u64` reads back as the
/// same value, and the reader consumes exactly the written bytes.
pub proof fn lemma_var_u64_roundtrip(v: u64, prefix: Seq<u8>, rest: Seq<u8>)
    ensures
        var_u64_at(prefix + varint_encode(v as nat) + rest, prefix.len() as int) == Some(v),
        varint_consumed(prefix + varint_encode(v as nat) + rest, prefix.len() as int, 10)
            == varint_encode(v as nat).len(),
{
    let e = varint_encode(v as nat);
    let s = prefix + e + rest;
    reveal_with_fuel(pow128, 11);
    assert(pow128(10) == 0x40_0000_0000_0000_0000);
    lemma_encode_len_bound(v as nat, 10);
    assert(s.subrange(prefix.len() as int, (prefix.len() + e.len()) as int) =~= e);
    lemma_decode_encoded(v as nat, s, prefix.len() as int, 0, 10);
    assert(varint_digits(s, prefix.len() as int, 0) == 0);
    assert(pow128(0) == 1);
    assert(varint_digits(s, prefix.len() as int, (0 + e.len()) as nat) == 0 + (v as nat) * pow128(0));
    let p0 = pow128(0);
    assert((v as nat) * p0 == v as nat) by (nonlinear_arith)
        requires
            p0 == 1,
    ;
    assert(varint_digits(s, prefix.len() as int, e.len()) == v);
}

/// Law: zigzag decoding undoes zigzag encoding, in both directions.
pub proof fn lemma_zigzag32_roundtrip(v: i32, w: u32)
    ensures
        zigzag_decode32(zigzag_encode32(v)) == v,
        zigzag_encode32(zigzag_decode32(w)) == w,
{
}

/// Law: zigzag decoding undoes zigzag encoding, in both directions.
pub proof fn lemma_zigzag64_roundtrip(v: i64, w: u64)
    ensures
        zigzag_decode64(zigzag_encode64(v)) == v,
        zigzag_encode64(zigzag_decode64(w)) == w,
{
}

} // verus!
