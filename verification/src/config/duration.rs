//! Durations written as text, such as `30s`, `5m`, `1h` or `100ms`.
use vstd::prelude::*;
use crate::text::number::{decimal, law_decimal_reads_back, lemma_decimal_digits, parse_u64, parse_u64_spec};

verus! {

/// The number before a unit suffix of `len` characters.
pub open spec fn amount(s: Seq<char>, len: int) -> Option<u64> {
    parse_u64_spec(s.take(s.len() - len))
}

/// Whether `s` ends with the unit `ms`.
pub open spec fn has_millis_unit(s: Seq<char>) -> bool {
    s.len() >= 2 && s[s.len() - 2] == 'm' && s[s.len() - 1] == 's'
}

/// Whether the last character of `s` is `c`.
pub open spec fn ends_with_char(s: Seq<char>, c: char) -> bool {
    s.len() >= 1 && s[s.len() - 1] == c
}

/// The number of seconds in one unit of the last character (`s`, `m` or `h`).
pub open spec fn unit_seconds(c: char) -> int {
    if c == 's' {
        1
    } else if c == 'm' {
        60
    } else {
        3600
    }
}

/// Whether reading `s` as a duration overflows the 64-bit count of seconds
/// (a number of minutes or hours too large to be counted in seconds).
pub open spec fn duration_overflows(s: Seq<char>) -> bool {
    &&& !has_millis_unit(s)
    &&& (ends_with_char(s, 'm') || ends_with_char(s, 'h'))
    &&& amount(s, 1) matches Some(v)
    &&& v * unit_seconds(s[s.len() - 1]) > u64::MAX
}

/// The duration, in milliseconds, that `s` denotes: a decimal number
/// followed by `ms`, `s`, `m` or `h`; `None` for any other text.
pub open spec fn duration_millis(s: Seq<char>) -> Option<int> {
    if has_millis_unit(s) {
        match amount(s, 2) {
            Some(v) => Some(v as int),
            None => None,
        }
    } else if ends_with_char(s, 's') || ends_with_char(s, 'm') || ends_with_char(s, 'h') {
        match amount(s, 1) {
            Some(v) => Some(v * unit_seconds(s[s.len() - 1]) * 1000),
            None => None,
        }
    } else {
        None
    }
}

/// A number written with a unit reads back as that many milliseconds,
/// seconds, minutes or hours.
pub proof fn law_written_durations_read_back(n: u64)
    ensures
        duration_millis(decimal(n as nat) + "ms"@) == Some(n as int),
        duration_millis(decimal(n as nat) + "s"@) == Some(n * 1000),
        duration_millis(decimal(n as nat) + "m"@) == Some(n * 60 * 1000),
        duration_millis(decimal(n as nat) + "h"@) == Some(n * 3600 * 1000),
{
    reveal_strlit("ms");
    reveal_strlit("s");
    reveal_strlit("m");
    reveal_strlit("h");
    let d = decimal(n as nat);
    law_decimal_reads_back(n);
    lemma_decimal_digits(n as nat);
    let last = d[d.len() - 1];
    assert(crate::text::number::is_digit(last));
    let ms = d + "ms"@;
    assert(ms.take(ms.len() - 2) =~= d);
    let sec = d + "s"@;
    assert(sec.take(sec.len() - 1) =~= d);
    assert(sec[sec.len() - 2] == last);
    let min = d + "m"@;
    assert(min.take(min.len() - 1) =~= d);
    let hr = d + "h"@;
    assert(hr.take(hr.len() - 1) =~= d);
}

/// Parse a duration string (`100ms`, `30s`, `5m`, `1h`) into milliseconds.
pub fn parse_duration(s: &str) -> (r: Option<u128>)
    requires
        !duration_overflows(s@),
    ensures
        match r {
            Some(ms) => duration_millis(s@) == Some(ms as int),
            None => duration_millis(s@) is None,
        },
{
    let n = s.unicode_len();
    if n >= 2 && s.get_char(n - 2) == 'm' && s.get_char(n - 1) == 's' {
        let head = s.substring_char(0, n - 2);
        assert(head@ =~= s@.take(s@.len() - 2));
        match parse_u64(head) {
            Some(v) => Some(v as u128),
            None => None,
        }
    } else if n >= 1 && (s.get_char(n - 1) == 's' || s.get_char(n - 1) == 'm' || s.get_char(n - 1) == 'h') {
        let unit = s.get_char(n - 1);
        let head = s.substring_char(0, n - 1);
        assert(head@ =~= s@.take(s@.len() - 1));
        match parse_u64(head) {
            Some(v) => {
                let secs: u64 = if unit == 's' {
                    v
                } else if unit == 'm' {
                    v * 60
                } else {
                    v * 3600
                };
                Some(secs as u128 * 1000)
            },
            None => None,
        }
    } else {
        None
    }
}

/// Whether reading `s` as a duration would overflow (see `duration_overflows`).
pub fn duration_would_overflow(s: &str) -> (b: bool)
    ensures
        b == duration_overflows(s@),
{
    let n = s.unicode_len();
    if n >= 2 && s.get_char(n - 2) == 'm' && s.get_char(n - 1) == 's' {
        return false;
    }
    if n >= 1 && (s.get_char(n - 1) == 'm' || s.get_char(n - 1) == 'h') {
        let unit = s.get_char(n - 1);
        let head = s.substring_char(0, n - 1);
        assert(head@ =~= s@.take(s@.len() - 1));
        match parse_u64(head) {
            Some(v) => {
                if unit == 'm' {
                    v.checked_mul(60).is_none()
                } else {
                    v.checked_mul(3600).is_none()
                }
            },
            None => false,
        }
    } else {
        false
    }
}

} // verus!
