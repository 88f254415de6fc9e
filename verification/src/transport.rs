//! Settings of the RakNet transport.

use vstd::prelude::*;
use crate::text::{str_chars, trim_char_vec, trimmed};

verus! {

broadcast use vstd::string::group_string_axioms;

/// The RakNet timeout when none, or one under five seconds, is configured.
pub const DEFAULT_RAKNET_TIMEOUT_MILLIS: u64 = 60_000;
/// The shortest RakNet timeout accepted from configuration.
pub const MIN_RAKNET_TIMEOUT_MILLIS: u64 = 5_000;

pub open spec fn is_ascii_digit(c: char) -> bool {
    '0' <= c <= '9'
}

/// The value of a string of decimal digits.
pub open spec fn digits_value(s: Seq<char>) -> int
    decreases s.len(),
{
    if s.len() == 0 {
        0
    } else {
        digits_value(s.drop_last()) * 10 + ((s.last() as u32) - ('0' as u32))
    }
}

/// `s` without a leading `+`.
pub open spec fn unsigned_body(s: Seq<char>) -> Seq<char> {
    if s.len() > 0 && s[0] == '+' {
        s.drop_first()
    } else {
        s
    }
}

/// True when every character is a decimal digit.
pub open spec fn all_digits(s: Seq<char>) -> bool {
    forall|i: int| 0 <= i < s.len() ==> is_ascii_digit(#[trigger] s[i])
}

/// What `u64::from_str` gives: an optional `+`, then one or more decimal
/// digits whose value fits in 64 bits.
pub open spec fn parse_u64_spec(s: Seq<char>) -> Option<u64> {
    let body = unsigned_body(s);
    if body.len() > 0 && all_digits(body) && digits_value(body) <= u64::MAX {
        Some(digits_value(body) as u64)
    } else {
        None
    }
}

proof fn lemma_digits_value_grows(s: Seq<char>, k: int)
    requires
        0 <= k <= s.len(),
        forall|i: int| 0 <= i < s.len() ==> is_ascii_digit(#[trigger] s[i]),
    ensures
        digits_value(s) >= digits_value(s.take(k)),
        digits_value(s.take(k)) >= 0,
    decreases s.len(),
{
    if k == s.len() {
        assert(s.take(k) =~= s);
        lemma_digits_value_nonneg(s);
    } else {
        lemma_digits_value_grows(s.drop_last(), k);
        assert(s.drop_last().take(k) =~= s.take(k));
        lemma_digits_value_nonneg(s.drop_last());
    }
}

pub proof fn lemma_digits_value_nonneg(s: Seq<char>)
    requires
        forall|i: int| 0 <= i < s.len() ==> is_ascii_digit(#[trigger] s[i]),
    ensures
        digits_value(s) >= 0,
    decreases s.len(),
{
    if s.len() > 0 {
        lemma_digits_value_nonneg(s.drop_last());
    }
}

/// Parses a decimal `u64` as `str::parse` does.
pub fn parse_u64(chars: &Vec<char>) -> (r: Option<u64>)
    ensures
        r == parse_u64_spec(chars@),
{
    let start: usize = if chars.len() > 0 && chars[0] == '+' {
        1
    } else {
        0
    };
    let ghost body = unsigned_body(chars@);
    assert(body =~= chars@.subrange(start as int, chars@.len() as int));
    if start >= chars.len() {
        return None;
    }
    let mut acc: u64 = 0;
    let mut i: usize = start;
    while i < chars.len()
        invariant
            start <= i <= chars@.len(),
            body == chars@.subrange(start as int, chars@.len() as int),
            body == unsigned_body(chars@),
            forall|j: int| 0 <= j < i - start ==> is_ascii_digit(#[trigger] body[j]),
            acc == digits_value(body.take(i - start)),
        decreases chars@.len() - i,
    {
        let c: char = chars[i];
        if !('0' <= c && c <= '9') {
            assert(!is_ascii_digit(body[i - start]));
            assert(!all_digits(body));
            assert(parse_u64_spec(chars@) is None);
            return None;
        }
        let d: u64 = ((c as u32) - ('0' as u32)) as u64;
        assert(body.take(i - start + 1).drop_last() =~= body.take(i - start));
        if acc > (u64::MAX - d) / 10 {
            proof {
                assert(acc * 10 + d > u64::MAX) by (nonlinear_arith)
                    requires
                        acc > (u64::MAX - d) / 10,
                        d <= 9,
                ;
                assert(digits_value(body.take(i - start + 1)) == acc * 10 + d);
                if all_digits(body) {
                    lemma_digits_value_grows(body, i - start + 1);
                    assert(digits_value(body) > u64::MAX);
                }
                assert(parse_u64_spec(chars@) is None);
            }
            return None;
        }
        acc = acc * 10 + d;
        i = i + 1;
    }
    assert(body.take(i - start) =~= body);
    Some(acc)
}

/// The RakNet timeout a configured value gives: its trimmed decimal value
/// when that is at least five seconds, else sixty seconds.
pub open spec fn raknet_timeout(value: Option<Seq<char>>) -> u64 {
    match value {
        Some(v) => match parse_u64_spec(trimmed(v)) {
            Some(millis) => if millis >= MIN_RAKNET_TIMEOUT_MILLIS {
                millis
            } else {
                DEFAULT_RAKNET_TIMEOUT_MILLIS
            },
            None => DEFAULT_RAKNET_TIMEOUT_MILLIS,
        },
        None => DEFAULT_RAKNET_TIMEOUT_MILLIS,
    }
}

pub fn parse_raknet_timeout_millis(value: Option<&str>) -> (r: u64)
    ensures
        r == raknet_timeout(
            match value {
                Some(v) => Some(v@),
                None => None,
            },
        ),
{
    match value {
        Some(v) => {
            let chars: Vec<char> = str_chars(v);
            let t: Vec<char> = trim_char_vec(&chars);
            match parse_u64(&t) {
                Some(millis) => if millis >= MIN_RAKNET_TIMEOUT_MILLIS {
                    millis
                } else {
                    DEFAULT_RAKNET_TIMEOUT_MILLIS
                },
                None => DEFAULT_RAKNET_TIMEOUT_MILLIS,
            }
        },
        None => DEFAULT_RAKNET_TIMEOUT_MILLIS,
    }
}

} // verus!
