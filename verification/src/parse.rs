//! Scanning primitives for the inbound line protocol: whitespace, JSON
//! strings without escapes, `true`/`false`, and nonnegative decimal numbers
//! read as whole milliseconds.
//!
//! Each primitive is an exact mirror of a spec function over the character
//! sequence, so the accepted grammar is pinned down completely: a line is
//! understood if and only if the spec functions say so.

use vstd::prelude::*;

verus! {

/// The largest whole-second value a millisecond count can carry in a `u64`.
pub const SECONDS_LIMIT: u64 = 18446744073709550;

/// JSON insignificant whitespace.
pub open spec fn is_ws(c: char) -> bool {
    c == ' ' || c == '\t' || c == '\n' || c == '\r'
}

/// A character that may stand unescaped inside a JSON string.
pub open spec fn is_plain(c: char) -> bool {
    c != '"' && c != '\\' && (c as u32) >= 32
}

/// An ASCII decimal digit.
pub open spec fn is_digit(c: char) -> bool {
    48 <= (c as u32) && (c as u32) <= 57
}

/// The numeric value of a decimal digit character.
pub open spec fn digit_val(c: char) -> int {
    c as u32 - 48
}

/// The first position at or after `i` that holds no whitespace.
pub open spec fn spec_skip_ws(s: Seq<char>, i: int) -> int
    decreases s.len() - i,
{
    if 0 <= i < s.len() && is_ws(s[i]) {
        spec_skip_ws(s, i + 1)
    } else {
        i
    }
}

pub fn skip_ws(s: &str, i: usize) -> (r: usize)
    requires
        i <= s@.len(),
    ensures
        r == spec_skip_ws(s@, i as int),
        i <= r <= s@.len(),
{
    let len = s.unicode_len();
    let mut j = i;
    loop
        invariant
            i <= j <= len,
            len == s@.len(),
            spec_skip_ws(s@, i as int) == spec_skip_ws(s@, j as int),
        decreases len - j,
    {
        if j == len {
            return j;
        }
        let c = s.get_char(j);
        if !(c == ' ' || c == '\t' || c == '\n' || c == '\r') {
            return j;
        }
        j = j + 1;
    }
}

/// The position of the closing quote of a string body that starts at `i`,
/// provided every character before it may stand unescaped.
pub open spec fn string_end(s: Seq<char>, i: int) -> Option<int>
    decreases s.len() - i,
{
    if !(0 <= i < s.len()) {
        None
    } else if s[i] == '"' {
        Some(i)
    } else if is_plain(s[i]) {
        string_end(s, i + 1)
    } else {
        None
    }
}

/// A quoted string at `i`: its contents and the position after the closing
/// quote. Escape sequences are not part of the inbound vocabulary; a string
/// holding a backslash, quote or control character is not understood.
pub open spec fn spec_parse_string(s: Seq<char>, i: int) -> Option<(Seq<char>, int)> {
    if 0 <= i < s.len() && s[i] == '"' {
        match string_end(s, i + 1) {
            Some(j) => Some((s.subrange(i + 1, j), j + 1)),
            None => None,
        }
    } else {
        None
    }
}

pub fn parse_string(s: &str, i: usize) -> (r: Option<(String, usize)>)
    requires
        i <= s@.len(),
    ensures
        match r {
            Some((v, p)) => spec_parse_string(s@, i as int) == Some((v@, p as int)) && p <= s@.len(),
            None => spec_parse_string(s@, i as int) is None,
        },
{
    let len = s.unicode_len();
    if i >= len || s.get_char(i) != '"' {
        return None;
    }
    let mut j = i + 1;
    loop
        invariant
            i + 1 <= j <= len,
            len == s@.len(),
            s@[i as int] == '"',
            string_end(s@, i + 1) == string_end(s@, j as int),
        decreases len - j,
    {
        if j == len {
            return None;
        }
        let c = s.get_char(j);
        if c == '"' {
            proof {
                assert(string_end(s@, j as int) == Some(j as int));
            }
            let body = s.substring_char(i + 1, j);
            return Some((body.to_owned(), j + 1));
        }
        if c == '\\' || (c as u32) < 32 {
            return None;
        }
        j = j + 1;
    }
}

/// Whether the characters of `w` stand in `s` at position `i`.
pub open spec fn spec_match_at(s: Seq<char>, i: int, w: Seq<char>) -> bool {
    0 <= i && i + w.len() <= s.len() && s.subrange(i, i + w.len()) == w
}

pub fn match_at(s: &str, i: usize, w: &str) -> (r: bool)
    requires
        i <= s@.len(),
    ensures
        r == spec_match_at(s@, i as int, w@),
{
    let len = s.unicode_len();
    let wlen = w.unicode_len();
    if wlen > len - i {
        return false;
    }
    let mut k: usize = 0;
    while k < wlen
        invariant
            k <= wlen,
            i + wlen <= len,
            len == s@.len(),
            wlen == w@.len(),
            forall|m: int| 0 <= m < k ==> s@[i + m] == w@[m],
        decreases wlen - k,
    {
        if s.get_char(i + k) != w.get_char(k) {
            assert(s@.subrange(i as int, i + wlen) != w@) by {
                assert(s@.subrange(i as int, i + wlen)[k as int] != w@[k as int]);
            }
            return false;
        }
        k = k + 1;
    }
    proof {
        assert(s@.subrange(i as int, i + wlen) =~= w@);
    }
    true
}

/// A `true` or `false` literal at `i`, and the position after it.
pub open spec fn spec_parse_bool(s: Seq<char>, i: int) -> Option<(bool, int)> {
    if spec_match_at(s, i, "true"@) {
        Some((true, i + "true"@.len()))
    } else if spec_match_at(s, i, "false"@) {
        Some((false, i + "false"@.len()))
    } else {
        None
    }
}

pub fn parse_bool(s: &str, i: usize) -> (r: Option<(bool, usize)>)
    requires
        i <= s@.len(),
    ensures
        match r {
            Some((v, p)) => spec_parse_bool(s@, i as int) == Some((v, p as int)) && p <= s@.len(),
            None => spec_parse_bool(s@, i as int) is None,
        },
{
    proof {
        reveal_strlit("true");
        reveal_strlit("false");
    }
    let _len = s.unicode_len();
    if match_at(s, i, "true") {
        Some((true, i + 4))
    } else if match_at(s, i, "false") {
        Some((false, i + 5))
    } else {
        None
    }
}

/// The first position at or after `i` that holds no decimal digit.
pub open spec fn digits_end(s: Seq<char>, i: int) -> int
    decreases s.len() - i,
{
    if 0 <= i < s.len() && is_digit(s[i]) {
        digits_end(s, i + 1)
    } else {
        i
    }
}

/// The value of a digit sequence, most significant digit first.
pub open spec fn digits_val(ds: Seq<char>) -> int
    decreases ds.len(),
{
    if ds.len() == 0 {
        0
    } else {
        digits_val(ds.drop_last()) * 10 + digit_val(ds.last())
    }
}

/// The milliseconds encoded by fraction digits after the decimal point; the
/// first three digits carry weight, finer digits are cut off.
pub open spec fn frac_ms(fd: Seq<char>) -> int {
    (if fd.len() >= 1 {
        digit_val(fd[0]) * 100
    } else {
        0
    }) + (if fd.len() >= 2 {
        digit_val(fd[1]) * 10
    } else {
        0
    }) + (if fd.len() >= 3 {
        digit_val(fd[2])
    } else {
        0
    })
}

/// A nonnegative decimal number at `i` — digits with an optional fraction —
/// read as whole milliseconds, and the position after it. A number whose
/// whole-second part exceeds what a millisecond `u64` can carry is not
/// understood.
pub open spec fn spec_parse_number_ms(s: Seq<char>, i: int) -> Option<(u64, int)> {
    let j = digits_end(s, i);
    if j == i {
        None
    } else {
        let v = digits_val(s.subrange(i, j));
        if v > SECONDS_LIMIT {
            None
        } else if j < s.len() && s[j] == '.' {
            let k = digits_end(s, j + 1);
            if k == j + 1 {
                None
            } else {
                Some(((v * 1000 + frac_ms(s.subrange(j + 1, k))) as u64, k))
            }
        } else {
            Some(((v * 1000) as u64, j))
        }
    }
}

fn find_digits_end(s: &str, i: usize) -> (r: usize)
    requires
        i <= s@.len(),
    ensures
        r == digits_end(s@, i as int),
        i <= r <= s@.len(),
        forall|m: int| i <= m < r ==> is_digit(s@[m]),
{
    let len = s.unicode_len();
    let mut j = i;
    loop
        invariant
            i <= j <= len,
            len == s@.len(),
            digits_end(s@, i as int) == digits_end(s@, j as int),
            forall|m: int| i <= m < j ==> is_digit(s@[m]),
        decreases len - j,
    {
        if j == len {
            return j;
        }
        let c = s.get_char(j);
        let u = c as u32;
        if !(48 <= u && u <= 57) {
            return j;
        }
        j = j + 1;
    }
}

/// The value of the digits standing in `s` at `[i, j)`, unless it exceeds
/// the whole-second limit.
fn digits_value(s: &str, i: usize, j: usize) -> (r: Option<u64>)
    requires
        i <= j <= s@.len(),
        forall|m: int| i <= m < j ==> is_digit(s@[m]),
    ensures
        match r {
            Some(v) => v == digits_val(s@.subrange(i as int, j as int)) && v <= SECONDS_LIMIT,
            None => digits_val(s@.subrange(i as int, j as int)) > SECONDS_LIMIT,
        },
{
    let mut acc: u64 = 0;
    let mut too_big = false;
    let mut k = i;
    while k < j
        invariant
            i <= k <= j <= s@.len(),
            forall|m: int| i <= m < j ==> is_digit(s@[m]),
            !too_big ==> acc == digits_val(s@.subrange(i as int, k as int)) && acc <= SECONDS_LIMIT,
            too_big ==> digits_val(s@.subrange(i as int, k as int)) > SECONDS_LIMIT,
        decreases j - k,
    {
        let c = s.get_char(k);
        let d = (c as u32) as u64 - 48;
        proof {
            assert(s@.subrange(i as int, k + 1).drop_last() =~= s@.subrange(i as int, k as int));
            assert(s@.subrange(i as int, k + 1).last() == s@[k as int]);
        }
        if !too_big {
            let next = acc * 10 + d;
            if next > SECONDS_LIMIT {
                too_big = true;
            } else {
                acc = next;
            }
        } else {
            proof {
                let prev = digits_val(s@.subrange(i as int, k as int));
                assert(prev * 10 == prev + 9 * prev);
            }
        }
        k = k + 1;
    }
    if too_big {
        None
    } else {
        Some(acc)
    }
}

pub fn parse_number_ms(s: &str, i: usize) -> (r: Option<(u64, usize)>)
    requires
        i <= s@.len(),
    ensures
        match r {
            Some((v, p)) => spec_parse_number_ms(s@, i as int) == Some((v, p as int)) && p
                <= s@.len(),
            None => spec_parse_number_ms(s@, i as int) is None,
        },
{
    let len = s.unicode_len();
    let j = find_digits_end(s, i);
    if j == i {
        return None;
    }
    let v = match digits_value(s, i, j) {
        Some(v) => v,
        None => {
            return None;
        },
    };
    if j < len && s.get_char(j) == '.' {
        let k = find_digits_end(s, j + 1);
        if k == j + 1 {
            return None;
        }
        let d0 = (s.get_char(j + 1) as u32) as u64 - 48;
        let d1 = if k - j >= 3 {
            (s.get_char(j + 2) as u32) as u64 - 48
        } else {
            0
        };
        let d2 = if k - j >= 4 {
            (s.get_char(j + 3) as u32) as u64 - 48
        } else {
            0
        };
        let frac = d0 * 100 + d1 * 10 + d2;
        proof {
            let fd = s@.subrange(j + 1, k as int);
            assert(fd[0] == s@[j + 1]);
            assert(fd.len() >= 2 ==> fd[1] == s@[j + 2]);
            assert(fd.len() >= 3 ==> fd[2] == s@[j + 3]);
        }
        Some((v * 1000 + frac, k))
    } else {
        Some((v * 1000, j))
    }
}

} // verus!
