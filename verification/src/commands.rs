//! The validation commands the bot sends: how a command goes on the wire,
//! which fallback follows an unanswered `/rtp`, and the tick-sync step.

use vstd::prelude::*;
use crate::text::{chars_eq_ignore_ascii_case, chars_start_with, chars_to_string, copy_chars, lower_chars, lowercase_chars, starts_with_chars, str_chars, trim_char_vec, trim_start, trim_start_char_vec, trimmed};

verus! {

broadcast use vstd::string::group_string_axioms;

/// How many times the `/rtp` command is sent before giving up.
pub const RTP_MAX_COMMAND_ATTEMPTS: u8 = 2;

/// The command to send after `attempts_sent` unanswered ones: `/rtp
/// overworld` after a plain `/rtp`, else `/rtp`; none before the first
/// attempt, once the attempts are used up, for an empty command, or when the
/// fallback is the command itself.
pub open spec fn rtp_fallback(primary: Seq<char>, attempts_sent: u8) -> Option<Seq<char>> {
    let command = trimmed(primary);
    if attempts_sent == 0 || attempts_sent >= RTP_MAX_COMMAND_ATTEMPTS || command.len() == 0 {
        None
    } else {
        let fallback = if lower_chars(command) == lower_chars("/rtp"@) {
            "/rtp overworld"@
        } else {
            "/rtp"@
        };
        if lower_chars(fallback) == lower_chars(command) {
            None
        } else {
            Some(fallback)
        }
    }
}

pub fn fallback_rtp_command(primary: &str, attempts_sent: u8) -> (r: Option<String>)
    ensures
        match rtp_fallback(primary@, attempts_sent) {
            Some(command) => r matches Some(s) && s@ == command,
            None => r is None,
        },
{
    if attempts_sent == 0 || attempts_sent >= RTP_MAX_COMMAND_ATTEMPTS {
        return None;
    }
    let chars: Vec<char> = str_chars(primary);
    let command: Vec<char> = trim_char_vec(&chars);
    if command.len() == 0 {
        return None;
    }
    let plain: Vec<char> = str_chars("/rtp");
    let fallback: &str = if chars_eq_ignore_ascii_case(&command, &plain) {
        "/rtp overworld"
    } else {
        "/rtp"
    };
    let fallback_chars: Vec<char> = str_chars(fallback);
    if chars_eq_ignore_ascii_case(&fallback_chars, &command) {
        None
    } else {
        Some(String::from_str(fallback))
    }
}

/// The mode a validation command is sent in: a non-blank override, trimmed
/// and lowercased; else `command_request` for a command that starts with a
/// slash after leading white space, and `text` for anything else.
pub open spec fn command_mode(command: Seq<char>, override_mode: Option<Seq<char>>) -> Seq<char> {
    let overridden = match override_mode {
        Some(m) => lower_chars(trimmed(m)),
        None => seq![],
    };
    if overridden.len() > 0 {
        overridden
    } else if starts_with_chars(trim_start(command), seq!['/']) {
        "command_request"@
    } else {
        "text"@
    }
}

pub fn validation_command_mode(command: &str, override_mode: Option<&str>) -> (r: String)
    ensures
        r@ == command_mode(
            command@,
            match override_mode {
                Some(m) => Some(m@),
                None => None,
            },
        ),
{
    match override_mode {
        Some(mode) => {
            let chars: Vec<char> = str_chars(mode);
            let trimmed_mode: Vec<char> = trim_char_vec(&chars);
            let lowered: Vec<char> = lowercase_chars(&trimmed_mode);
            if lowered.len() > 0 {
                return chars_to_string(lowered.as_slice());
            }
        },
        None => {},
    }
    let chars: Vec<char> = str_chars(command);
    let front: Vec<char> = trim_start_char_vec(&chars);
    let mut slash: Vec<char> = Vec::new();
    slash.push('/');
    assert(slash@ =~= seq!['/']);
    if chars_start_with(&front, &slash) {
        String::from_str("command_request")
    } else {
        String::from_str("text")
    }
}

/// `s` without any leading slashes.
pub open spec fn strip_leading_slashes(s: Seq<char>) -> Seq<char>
    decreases s.len(),
{
    if s.len() > 0 && s[0] == '/' {
        strip_leading_slashes(s.drop_first())
    } else {
        s
    }
}

/// The command as a CommandRequest carries it: trimmed, then with exactly
/// the leading slash it had or one added, or with all leading slashes removed.
pub open spec fn wire_command(command: Seq<char>, leading_slash: bool) -> Seq<char> {
    let c = trimmed(command);
    if leading_slash {
        if starts_with_chars(c, seq!['/']) {
            c
        } else {
            seq!['/'] + c
        }
    } else {
        strip_leading_slashes(c)
    }
}

pub fn command_request_wire_command_with_slash_mode(command: &str, leading_slash: bool) -> (r: String)
    ensures
        r@ == wire_command(command@, leading_slash),
{
    let chars: Vec<char> = str_chars(command);
    let c: Vec<char> = trim_char_vec(&chars);
    let mut slash: Vec<char> = Vec::new();
    slash.push('/');
    assert(slash@ =~= seq!['/']);
    if leading_slash {
        if chars_start_with(&c, &slash) {
            chars_to_string(c.as_slice())
        } else {
            let mut out: Vec<char> = Vec::new();
            out.push('/');
            let mut i: usize = 0;
            while i < c.len()
                invariant
                    i <= c@.len(),
                    out@ == seq!['/'] + c@.subrange(0, i as int),
                decreases c@.len() - i,
            {
                out.push(c[i]);
                i = i + 1;
                assert(out@ =~= seq!['/'] + c@.subrange(0, i as int));
            }
            assert(c@.subrange(0, i as int) =~= c@);
            chars_to_string(out.as_slice())
        }
    } else {
        let rest: Vec<char> = strip_leading_slash_chars(&c);
        chars_to_string(rest.as_slice())
    }
}

/// The characters without any leading slashes.
pub fn strip_leading_slash_chars(c: &Vec<char>) -> (r: Vec<char>)
    ensures
        r@ == strip_leading_slashes(c@),
{
    let n: usize = c.len();
    let mut start: usize = 0;
    assert(c@.subrange(0, n as int) =~= c@);
    while start < n && c[start] == '/'
        invariant
            start <= n,
            n == c@.len(),
            strip_leading_slashes(c@) == strip_leading_slashes(c@.subrange(start as int, n as int)),
        decreases n - start,
    {
        assert(c@.subrange(start as int, n as int).drop_first() =~= c@.subrange(start + 1, n as int));
        start = start + 1;
    }
    copy_chars(c, start, n)
}

/// Client ticks in a tick-sync interval: its milliseconds over 50, rounded
/// to the nearest tick, at least one, as `i64`.
pub open spec fn tick_step(interval_millis: u128) -> i64 {
    let ticks = (interval_millis + 25) / 50;
    (if ticks < 1 { 1 } else { ticks }) as i64
}

/// The tick step of an interval of `interval_millis` milliseconds (at most
/// what a `Duration` holds).
pub fn tick_sync_step(interval_millis: u128) -> (r: i64)
    requires
        interval_millis <= 18_446_744_073_709_551_615_999,
    ensures
        r == tick_step(interval_millis),
{
    let ticks: u128 = (interval_millis + 25) / 50;
    let at_least_one: u128 = if ticks < 1 {
        1
    } else {
        ticks
    };
    at_least_one as i64
}

} // verus!
