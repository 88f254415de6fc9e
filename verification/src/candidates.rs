//! Text scraped from packets the client does not decode (command lists,
//! command output): which strings count as candidates, which of them a log
//! shows first, and how a candidate is made safe to print on one line.

use vstd::prelude::*;
use crate::commands::{strip_leading_slash_chars, strip_leading_slashes};
use crate::varint::read_var_u32;
use crate::wire::{has_bytes, utf8_to_string};
use crate::observe::var32;
use crate::text::{chars_equal, trim_char_vec, trimmed, chars_to_string, compact_text, contains_chars, contains_str, is_control, is_control_char, is_white_space, lower_chars, lowercase_chars, str_chars};

verus! {

broadcast use vstd::seq_lib::group_seq_properties;

/// Bytes a character takes in UTF-8.
pub open spec fn utf8_width(c: char) -> nat {
    let u = c as u32;
    if u < 0x80 {
        1
    } else if u < 0x800 {
        2
    } else if u < 0x10000 {
        3
    } else {
        4
    }
}

/// Bytes a string takes in UTF-8 (what `str::len` gives).
pub open spec fn utf8_len(s: Seq<char>) -> nat
    decreases s.len(),
{
    if s.len() == 0 {
        0
    } else {
        utf8_len(s.drop_last()) + utf8_width(s.last())
    }
}

proof fn lemma_utf8_len_prefix(s: Seq<char>, i: int)
    requires
        0 <= i <= s.len(),
    ensures
        utf8_len(s.subrange(0, i)) <= utf8_len(s),
    decreases s.len() - i,
{
    if i < s.len() {
        lemma_utf8_len_prefix(s, i + 1);
        assert(s.subrange(0, i + 1).drop_last() =~= s.subrange(0, i));
    } else {
        assert(s.subrange(0, i) =~= s);
    }
}

/// The UTF-8 length of `chars`, or `cap + 1` once it passes `cap`.
fn utf8_len_capped(chars: &Vec<char>, cap: usize) -> (r: usize)
    requires
        cap <= 1024,
    ensures
        r == (if utf8_len(chars@) > cap {
            (cap + 1) as nat
        } else {
            utf8_len(chars@)
        }),
{
    let mut acc: usize = 0;
    let mut i: usize = 0;
    while i < chars.len()
        invariant
            i <= chars@.len(),
            cap <= 1024,
            acc == utf8_len(chars@.subrange(0, i as int)),
            acc <= cap,
        decreases chars@.len() - i,
    {
        let c: char = chars[i];
        let width: usize = if (c as u32) < 0x80 {
            1
        } else if (c as u32) < 0x800 {
            2
        } else if (c as u32) < 0x10000 {
            3
        } else {
            4
        };
        assert(chars@.subrange(0, i + 1).drop_last() =~= chars@.subrange(0, i as int));
        if acc + width > cap {
            proof {
                lemma_utf8_len_prefix(chars@, i + 1);
            }
            return cap + 1;
        }
        acc = acc + width;
        i = i + 1;
    }
    assert(chars@.subrange(0, i as int) =~= chars@);
    acc
}

pub open spec fn is_ascii_alphabetic(c: char) -> bool {
    ('a' <= c <= 'z') || ('A' <= c <= 'Z')
}

pub open spec fn is_ascii_alphanumeric(c: char) -> bool {
    is_ascii_alphabetic(c) || ('0' <= c <= '9')
}

/// A control character other than line feed, carriage return and tab.
pub open spec fn is_stray_control(c: char) -> bool {
    is_control_char(c) && c != '\n' && c != '\r' && c != '\t'
}

/// A loose text candidate: 2 to 160 bytes, no stray control characters,
/// and at least one ASCII letter.
pub open spec fn loose_text_ok(v: Seq<char>) -> bool {
    &&& 2 <= utf8_len(v) <= 160
    &&& forall|i: int| 0 <= i < v.len() ==> !is_stray_control(#[trigger] v[i])
    &&& exists|i: int| 0 <= i < v.len() && is_ascii_alphabetic(#[trigger] v[i])
}

pub fn is_loose_packet_text_candidate(value: &str) -> (r: bool)
    ensures
        r == loose_text_ok(value@),
{
    let chars: Vec<char> = str_chars(value);
    let len: usize = utf8_len_capped(&chars, 160);
    if len < 2 || len > 160 {
        return false;
    }
    let mut i: usize = 0;
    while i < chars.len()
        invariant
            i <= chars@.len(),
            chars@ == value@,
            2 <= utf8_len(value@) <= 160,
            forall|j: int| 0 <= j < i ==> !is_stray_control(#[trigger] chars@[j]),
        decreases chars@.len() - i,
    {
        let c: char = chars[i];
        if is_control(c) && c != '\n' && c != '\r' && c != '\t' {
            assert(is_stray_control(chars@[i as int]));
            return false;
        }
        i = i + 1;
    }
    let mut k: usize = 0;
    while k < chars.len()
        invariant
            k <= chars@.len(),
            chars@ == value@,
            2 <= utf8_len(value@) <= 160,
            forall|j: int| 0 <= j < chars@.len() ==> !is_stray_control(#[trigger] chars@[j]),
            forall|j: int| 0 <= j < k ==> !is_ascii_alphabetic(#[trigger] chars@[j]),
        decreases chars@.len() - k,
    {
        let c: char = chars[k];
        if ('a' <= c && c <= 'z') || ('A' <= c && c <= 'Z') {
            assert(forall|j: int| 0 <= j < chars@.len() ==> !is_stray_control(#[trigger] chars@[j]));
            assert(is_ascii_alphabetic(chars@[k as int]));
            return true;
        }
        k = k + 1;
    }
    false
}

/// A character a command name may hold.
pub open spec fn is_command_name_char(c: char) -> bool {
    is_ascii_alphanumeric(c) || c == '_' || c == '-' || c == ':' || c == '.'
}

/// Without its leading slashes: 2 to 32 bytes of command-name characters.
pub open spec fn command_name_ok(v: Seq<char>) -> bool {
    let name = strip_leading_slashes(v);
    &&& 2 <= utf8_len(name) <= 32
    &&& forall|i: int| 0 <= i < name.len() ==> is_command_name_char(#[trigger] name[i])
}

pub fn is_command_name_candidate(value: &str) -> (r: bool)
    ensures
        r == command_name_ok(value@),
{
    let chars: Vec<char> = str_chars(value);
    let name: Vec<char> = strip_leading_slash_chars(&chars);
    let len: usize = utf8_len_capped(&name, 32);
    if len < 2 || len > 32 {
        return false;
    }
    let mut i: usize = 0;
    while i < name.len()
        invariant
            i <= name@.len(),
            name@ == strip_leading_slashes(value@),
            2 <= utf8_len(name@) <= 32,
            forall|j: int| 0 <= j < i ==> is_command_name_char(#[trigger] name@[j]),
        decreases name@.len() - i,
    {
        let c: char = name[i];
        if !((('a' <= c && c <= 'z') || ('A' <= c && c <= 'Z') || ('0' <= c && c <= '9')) || c == '_' || c
            == '-' || c == ':' || c == '.') {
            assert(!is_command_name_char(name@[i as int]));
            return false;
        }
        i = i + 1;
    }
    true
}

/// A candidate that mentions teleporting, spawning, regions or command trouble
/// (ASCII case ignored).
pub open spec fn mentions_priority_word(v: Seq<char>) -> bool {
    let lower = lower_chars(v);
    ||| contains_chars(lower, "rtp"@)
    ||| contains_chars(lower, "random"@)
    ||| contains_chars(lower, "teleport"@)
    ||| contains_chars(lower, "wild"@)
    ||| contains_chars(lower, "spawn"@)
    ||| contains_chars(lower, "survival"@)
    ||| contains_chars(lower, "overworld"@)
    ||| contains_chars(lower, "region"@)
    ||| contains_chars(lower, "command"@)
    ||| contains_chars(lower, "permission"@)
    ||| contains_chars(lower, "unknown"@)
    ||| contains_chars(lower, "error"@)
    ||| contains_chars(lower, "fail"@)
}

pub open spec fn priority_candidate() -> spec_fn(String) -> bool {
    |s: String| mentions_priority_word(s@)
}

pub open spec fn command_name_candidate() -> spec_fn(String) -> bool {
    |s: String| command_name_ok(s@)
}

/// At most the first `n` elements of `s`.
pub open spec fn first_n<A>(s: Seq<A>, n: nat) -> Seq<A> {
    if s.len() <= n {
        s
    } else {
        s.take(n as int)
    }
}

/// The largest number of candidates a log line shows.
pub const MAX_SHOWN_CANDIDATES: usize = 80;

/// The candidates a log line shows first: up to 80 that mention a priority
/// word, or, when none does, up to 80 that look like command names.
pub open spec fn prioritized_candidates(candidates: Seq<String>) -> Seq<String> {
    let by_word = first_n(candidates.filter(priority_candidate()), MAX_SHOWN_CANDIDATES as nat);
    if by_word.len() > 0 {
        by_word
    } else {
        first_n(candidates.filter(command_name_candidate()), MAX_SHOWN_CANDIDATES as nat)
    }
}

fn mentions_priority_word_exec(value: &String) -> (r: bool)
    ensures
        r == mentions_priority_word(value@),
{
    let chars: Vec<char> = str_chars(value.as_str());
    let lower: Vec<char> = lowercase_chars(&chars);
    contains_str(&lower, "rtp") || contains_str(&lower, "random") || contains_str(&lower, "teleport")
        || contains_str(&lower, "wild") || contains_str(&lower, "spawn") || contains_str(&lower, "survival")
        || contains_str(&lower, "overworld") || contains_str(&lower, "region") || contains_str(&lower, "command")
        || contains_str(&lower, "permission") || contains_str(&lower, "unknown") || contains_str(&lower, "error")
        || contains_str(&lower, "fail")
}

proof fn lemma_first_n_push<A>(f: Seq<A>, x: A, n: nat)
    ensures
        first_n(f.push(x), n) == (if f.len() < n {
            first_n(f, n).push(x)
        } else {
            first_n(f, n)
        }),
{
    if f.len() < n {
        assert(first_n(f, n) == f);
    } else {
        assert(f.push(x).take(n as int) =~= first_n(f, n));
    }
}

/// The candidates that mention a priority word (`by_word`) or look like a
/// command name, at most 80 of each, in order.
fn collect_candidates(candidates: &[String], by_word: bool) -> (r: Vec<String>)
    ensures
        r@ == first_n(
            candidates@.filter(if by_word { priority_candidate() } else { command_name_candidate() }),
            MAX_SHOWN_CANDIDATES as nat,
        ),
{
    let ghost pred = if by_word { priority_candidate() } else { command_name_candidate() };
    let mut out: Vec<String> = Vec::new();
    let mut i: usize = 0;
    while i < candidates.len()
        invariant
            i <= candidates@.len(),
            pred == (if by_word { priority_candidate() } else { command_name_candidate() }),
            out@ == first_n(candidates@.subrange(0, i as int).filter(pred), MAX_SHOWN_CANDIDATES as nat),
        decreases candidates@.len() - i,
    {
        let candidate: &String = &candidates[i];
        let keep: bool = if by_word {
            mentions_priority_word_exec(candidate)
        } else {
            is_command_name_candidate(candidate.as_str())
        };
        proof {
            assert(candidates@.subrange(0, i + 1) =~= candidates@.subrange(0, i as int).push(candidates@[i as int]));
            candidates@.subrange(0, i as int).lemma_filter_push(candidates@[i as int], pred);
            lemma_first_n_push(candidates@.subrange(0, i as int).filter(pred), candidates@[i as int], MAX_SHOWN_CANDIDATES as nat);
            candidates@.subrange(0, i as int).filter(pred).lemma_filter_len(pred);
        }
        if keep && out.len() < MAX_SHOWN_CANDIDATES {
            out.push(candidate.clone());
        } else if keep {
            assert(candidates@.subrange(0, i as int).filter(pred).len() >= MAX_SHOWN_CANDIDATES);
        }
        i = i + 1;
    }
    assert(candidates@.subrange(0, i as int) =~= candidates@);
    out
}

pub fn prioritize_command_text_candidates(candidates: &[String]) -> (r: Vec<String>)
    ensures
        r@ == prioritized_candidates(candidates@),
{
    let by_word: Vec<String> = collect_candidates(candidates, true);
    if by_word.len() > 0 {
        by_word
    } else {
        collect_candidates(candidates, false)
    }
}

/// The longest a sanitized log text gets before it is cut.
pub const MAX_LOG_TEXT_CHARS: usize = 120;

/// A candidate as a log line prints it: its words joined by single spaces
/// (control characters count as spaces), cut to 120 characters and marked
/// with "..." when longer.
pub open spec fn sanitized_log_text(v: Seq<char>) -> Seq<char> {
    let compact = compact_text(v);
    if compact.len() > MAX_LOG_TEXT_CHARS {
        compact.take(MAX_LOG_TEXT_CHARS as int) + seq!['.', '.', '.']
    } else {
        compact
    }
}

/// The words of `chars` joined by single spaces.
pub fn compact_chars(chars: &Vec<char>) -> (r: Vec<char>)
    ensures
        r@ == compact_text(chars@),
{
    let mut out: Vec<char> = Vec::new();
    let mut pending: bool = false;
    let mut i: usize = 0;
    while i < chars.len()
        invariant
            i <= chars@.len(),
            (out@, pending) == crate::text::compact_state(chars@.subrange(0, i as int)),
        decreases chars@.len() - i,
    {
        let c: char = chars[i];
        assert(chars@.subrange(0, i + 1).drop_last() =~= chars@.subrange(0, i as int));
        if is_white_space(c) || is_control(c) {
            pending = out.len() > 0;
        } else {
            if pending {
                out.push(' ');
            }
            out.push(c);
            pending = false;
        }
        i = i + 1;
    }
    assert(chars@.subrange(0, i as int) =~= chars@);
    out
}

pub fn sanitize_log_text(value: &str) -> (r: String)
    ensures
        r@ == sanitized_log_text(value@),
{
    let chars: Vec<char> = str_chars(value);
    let compact: Vec<char> = compact_chars(&chars);
    if compact.len() > MAX_LOG_TEXT_CHARS {
        let mut out: Vec<char> = Vec::new();
        let mut i: usize = 0;
        while i < MAX_LOG_TEXT_CHARS
            invariant
                i <= MAX_LOG_TEXT_CHARS < compact@.len(),
                out@ == compact@.take(i as int),
            decreases MAX_LOG_TEXT_CHARS - i,
        {
            out.push(compact[i]);
            i = i + 1;
            assert(out@ =~= compact@.take(i as int));
        }
        out.push('.');
        out.push('.');
        out.push('.');
        assert(out@ =~= compact@.take(MAX_LOG_TEXT_CHARS as int) + seq!['.', '.', '.']);
        chars_to_string(out.as_slice())
    } else {
        chars_to_string(compact.as_slice())
    }
}


/// Lexicographic order of character sequences by code point (the order of
/// their UTF-8 bytes, which is how `String` compares).
pub open spec fn chars_lt(a: Seq<char>, b: Seq<char>) -> bool
    decreases a.len(),
{
    if a.len() == 0 {
        b.len() > 0
    } else if b.len() == 0 {
        false
    } else if a[0] != b[0] {
        (a[0] as int) < (b[0] as int)
    } else {
        chars_lt(a.drop_first(), b.drop_first())
    }
}

pub proof fn lemma_chars_lt_irreflexive(a: Seq<char>)
    ensures
        !chars_lt(a, a),
    decreases a.len(),
{
    if a.len() > 0 {
        lemma_chars_lt_irreflexive(a.drop_first());
    }
}

pub proof fn lemma_chars_lt_transitive(a: Seq<char>, b: Seq<char>, c: Seq<char>)
    requires
        chars_lt(a, b),
        chars_lt(b, c),
    ensures
        chars_lt(a, c),
    decreases a.len(),
{
    if a.len() > 0 && b.len() > 0 && c.len() > 0 && a[0] == b[0] && b[0] == c[0] {
        lemma_chars_lt_transitive(a.drop_first(), b.drop_first(), c.drop_first());
    }
}

pub proof fn lemma_chars_lt_total(a: Seq<char>, b: Seq<char>)
    requires
        a != b,
    ensures
        chars_lt(a, b) || chars_lt(b, a),
    decreases a.len(),
{
    if a.len() > 0 && b.len() > 0 && a[0] == b[0] {
        if a.drop_first() == b.drop_first() {
            assert(a =~= seq![a[0]] + a.drop_first());
            assert(b =~= seq![b[0]] + b.drop_first());
        }
        lemma_chars_lt_total(a.drop_first(), b.drop_first());
    } else if a.len() == 0 && b.len() == 0 {
        assert(a =~= b);
    } else if a.len() > 0 && b.len() > 0 {
        assert((a[0] as int) != (b[0] as int));
    }
}

/// True when `a` sorts before `b`.
pub fn chars_less(a: &Vec<char>, b: &Vec<char>) -> (r: bool)
    ensures
        r == chars_lt(a@, b@),
{
    let mut i: usize = 0;
    while i < a.len() && i < b.len()
        invariant
            i <= a@.len(),
            i <= b@.len(),
            chars_lt(a@, b@) == chars_lt(a@.subrange(i as int, a@.len() as int), b@.subrange(i as int, b@.len() as int)),
        decreases a@.len() - i,
    {
        let x: char = a[i];
        let y: char = b[i];
        if x != y {
            return x < y;
        }
        assert(a@.subrange(i as int, a@.len() as int).drop_first() =~= a@.subrange(i + 1, a@.len() as int));
        assert(b@.subrange(i as int, b@.len() as int).drop_first() =~= b@.subrange(i + 1, b@.len() as int));
        i = i + 1;
    }
    i == a.len() && i < b.len()
}

pub open spec fn strictly_sorted(s: Seq<Seq<char>>) -> bool {
    forall|i: int, j: int| 0 <= i < j < s.len() ==> chars_lt(#[trigger] s[i], #[trigger] s[j])
}

pub open spec fn char_views(v: Seq<Vec<char>>) -> Seq<Seq<char>> {
    v.map_values(|c: Vec<char>| c@)
}

/// Adds `value` to a strictly sorted list unless it is already there.
fn insert_sorted(found: &mut Vec<Vec<char>>, value: Vec<char>)
    requires
        strictly_sorted(char_views(old(found)@)),
    ensures
        strictly_sorted(char_views(final(found)@)),
        forall|x: Seq<char>| char_views(final(found)@).contains(x) <==> (char_views(old(found)@).contains(x) || x
            == value@),
{
    let ghost old_views = char_views(found@);
    let mut p: usize = 0;
    while p < found.len() && chars_less(&found[p], &value)
        invariant
            p <= found@.len(),
            found@ == old(found)@,
            old_views == char_views(found@),
            strictly_sorted(old_views),
            forall|i: int| 0 <= i < p ==> chars_lt(#[trigger] old_views[i], value@),
        decreases found@.len() - p,
    {
        p = p + 1;
    }
    if p < found.len() && chars_equal(&found[p], &value) {
        assert(old_views[p as int] == value@);
        assert(forall|x: Seq<char>| old_views.contains(x) <==> (old_views.contains(x) || x == value@));
        return;
    }
    proof {
        if p < old_views.len() {
            lemma_chars_lt_total(old_views[p as int], value@);
            assert(chars_lt(value@, old_views[p as int]));
            assert forall|j: int| p <= j < old_views.len() implies chars_lt(value@, #[trigger] old_views[j]) by {
                if j > p {
                    lemma_chars_lt_transitive(value@, old_views[p as int], old_views[j]);
                }
            }
        }
    }
    let ghost v = value@;
    found.insert(p, value);
    proof {
        let nv = char_views(found@);
        assert(nv =~= old_views.insert(p as int, v));
        assert forall|i: int, j: int| 0 <= i < j < nv.len() implies chars_lt(#[trigger] nv[i], #[trigger] nv[j]) by {
            if j < p {
            } else if j == p {
            } else if i < p {
                assert(nv[j] == old_views[j - 1]);
                lemma_chars_lt_transitive(nv[i], v, nv[j]);
            } else if i == p {
                assert(nv[j] == old_views[j - 1]);
            } else {
                assert(nv[i] == old_views[i - 1]);
                assert(nv[j] == old_views[j - 1]);
            }
        }
        assert forall|x: Seq<char>| nv.contains(x) <==> (old_views.contains(x) || x == v) by {
            if nv.contains(x) {
                let k = choose|k: int| 0 <= k < nv.len() && nv[k] == x;
                if k < p {
                    assert(old_views[k] == x);
                } else if k > p {
                    assert(old_views[k - 1] == x);
                }
            }
            if old_views.contains(x) {
                let k = choose|k: int| 0 <= k < old_views.len() && old_views[k] == x;
                if k < p {
                    assert(nv[k] == x);
                } else {
                    assert(nv[k + 1] == x);
                }
            }
            if x == v {
                assert(nv[p as int] == x);
            }
        }
    }
}

/// The loose text candidate a length-prefixed string at `start` gives:
/// 2 to 160 bytes of UTF-8 whose trimmed text passes `loose_text_ok`.
pub open spec fn loose_candidate_at(s: Seq<u8>, start: int) -> Option<Seq<char>> {
    match var32(s, start) {
        None => None,
        Some((len, o)) => if 2 <= len <= 160 && has_bytes(s, o, len as int) && vstd::utf8::valid_utf8(
            s.subrange(o, o + len),
        ) {
            let v = trimmed(vstd::utf8::decode_utf8(s.subrange(o, o + len)));
            if loose_text_ok(v) {
                Some(v)
            } else {
                None
            }
        } else {
            None
        },
    }
}

/// Some start in `from..to` gives the candidate `v`.
pub open spec fn candidate_in(s: Seq<u8>, from: int, to: int, v: Seq<char>) -> bool {
    exists|k: int| from <= k < to && #[trigger] loose_candidate_at(s, k) == Some(v)
}

/// `found` holds exactly the candidates of the starts in `from..to`.
pub open spec fn holds_candidates(found: Seq<Seq<char>>, s: Seq<u8>, from: int, to: int) -> bool {
    &&& forall|i: int| 0 <= i < found.len() ==> candidate_in(s, from, to, #[trigger] found[i])
    &&& forall|k: int| from <= k < to && #[trigger] loose_candidate_at(s, k) is Some ==> found.contains(loose_candidate_at(s, k).unwrap())
}

fn loose_candidate(packet: &[u8], start: usize) -> (r: Option<Vec<char>>)
    ensures
        match loose_candidate_at(packet@, start as int) {
            Some(v) => r matches Some(c) && c@ == v,
            None => r is None,
        },
{
    let mut offset: usize = start;
    let len: usize = match read_var_u32(packet, &mut offset) {
        Some(len) => len as usize,
        None => return None,
    };
    if len < 2 || len > 160 || offset > packet.len() || packet.len() - offset < len {
        return None;
    }
    let bytes: &[u8] = vstd::slice::slice_subrange(packet, offset, offset + len);
    let text: String = match utf8_to_string(bytes) {
        Some(t) => t,
        None => return None,
    };
    let chars: Vec<char> = str_chars(text.as_str());
    let value: Vec<char> = trim_char_vec(&chars);
    let value_text: String = chars_to_string(value.as_slice());
    if is_loose_packet_text_candidate(value_text.as_str()) {
        Some(value)
    } else {
        None
    }
}

/// Every loose text candidate of the packet from `payload_offset` on: each
/// position read as a length-prefixed string, trimmed, kept when it passes
/// `loose_text_ok`; sorted, each once.
pub fn loose_text_candidates(packet: &[u8], payload_offset: usize) -> (r: Vec<String>)
    ensures
        strictly_sorted(r@.map_values(|s: String| s@)),
        holds_candidates(r@.map_values(|s: String| s@), packet@, payload_offset as int, packet@.len() as int),
{
    let mut found: Vec<Vec<char>> = Vec::new();
    let mut start: usize = payload_offset;
    let ghost from: int = payload_offset as int;
    assert(char_views(found@) =~= Seq::<Seq<char>>::empty());
    while start < packet.len()
        invariant
            from == payload_offset,
            strictly_sorted(char_views(found@)),
            holds_candidates(char_views(found@), packet@, from, if start < from { from } else { start as int }),
            start >= from,
        decreases packet@.len() - start,
    {
        let ghost before = char_views(found@);
        match loose_candidate(packet, start) {
            Some(value) => {
                let ghost v = value@;
                insert_sorted(&mut found, value);
                proof {
                    let now = char_views(found@);
                    assert forall|i: int| 0 <= i < now.len() implies candidate_in(packet@, from, start + 1, #[trigger] now[i]) by {
                        assert(now.contains(now[i]));
                        if before.contains(now[i]) {
                            let j = choose|j: int| 0 <= j < before.len() && before[j] == now[i];
                            assert(candidate_in(packet@, from, start as int, before[j]));
                            let k = choose|k: int| from <= k < start && #[trigger] loose_candidate_at(packet@, k) == Some(before[j]);
                            assert(loose_candidate_at(packet@, k) == Some(now[i]));
                        } else {
                            assert(loose_candidate_at(packet@, start as int) == Some(now[i]));
                        }
                    }
                    assert forall|k: int| from <= k < start + 1 && #[trigger] loose_candidate_at(packet@, k) is Some implies now.contains(loose_candidate_at(packet@, k).unwrap()) by {
                        if k < start {
                            assert(before.contains(loose_candidate_at(packet@, k).unwrap()));
                        }
                    }
                }
            },
            None => {},
        }
        start = start + 1;
    }
    let mut out: Vec<String> = Vec::new();
    let mut i: usize = 0;
    while i < found.len()
        invariant
            i <= found@.len(),
            out@.len() == i,
            forall|j: int| 0 <= j < i ==> #[trigger] out@[j]@ == found@[j]@,
        decreases found@.len() - i,
    {
        out.push(chars_to_string(found[i].as_slice()));
        i = i + 1;
    }
    assert(out@.map_values(|s: String| s@) =~= char_views(found@));
    out
}

} // verus!
