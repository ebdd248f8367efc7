//! Parsing of the submitted duration text: surrounding whitespace is
//! ignored, an optional leading `+` is allowed, and the rest must be one or
//! more decimal digits whose value fits in a `u64` count of seconds.

use vstd::prelude::*;
use vstd::string::StrSliceExecFns;
use crate::digits::{all_digits, dec_rep, digits_val, is_digit, lemma_dec_rep_digits};

verus! {

/// A character with the Unicode `White_Space` property.
pub open spec fn is_space(c: char) -> bool {
    let u = c as u32;
    (9 <= u && u <= 13) || u == 32 || u == 0x85 || u == 0xa0 || u == 0x1680 || (0x2000 <= u
        && u <= 0x200a) || u == 0x2028 || u == 0x2029 || u == 0x202f || u == 0x205f || u == 0x3000
}

fn is_space_char(c: char) -> (b: bool)
    ensures
        b == is_space(c),
{
    let u: u32 = c as u32;
    (9 <= u && u <= 13) || u == 32 || u == 0x85 || u == 0xa0 || u == 0x1680 || (0x2000 <= u
        && u <= 0x200a) || u == 0x2028 || u == 0x2029 || u == 0x202f || u == 0x205f || u == 0x3000
}

/// `s` without its leading whitespace.
pub open spec fn trim_start_spec(s: Seq<char>) -> Seq<char>
    decreases s.len(),
{
    if s.len() > 0 && is_space(s[0]) {
        trim_start_spec(s.subrange(1, s.len() as int))
    } else {
        s
    }
}

/// `s` without its trailing whitespace.
pub open spec fn trim_end_spec(s: Seq<char>) -> Seq<char>
    decreases s.len(),
{
    if s.len() > 0 && is_space(s.last()) {
        trim_end_spec(s.drop_last())
    } else {
        s
    }
}

/// `s` without leading and trailing whitespace.
pub open spec fn trim_spec(s: Seq<char>) -> Seq<char> {
    trim_end_spec(trim_start_spec(s))
}

/// `s` without a single leading `+`, if it has one.
pub open spec fn strip_plus(s: Seq<char>) -> Seq<char> {
    if s.len() > 0 && s[0] == '+' {
        s.subrange(1, s.len() as int)
    } else {
        s
    }
}

/// The value of `s` read as an unsigned decimal number: after an optional
/// leading `+`, one or more digits whose value fits in a `u64`. Anything
/// else — an empty string, a minus sign, a fraction point, a letter, an
/// overflowing value — does not parse.
pub open spec fn parse_u64_spec(s: Seq<char>) -> Option<u64> {
    let b = strip_plus(s);
    if b.len() > 0 && all_digits(b) && digits_val(b) <= u64::MAX {
        Some(digits_val(b) as u64)
    } else {
        None
    }
}

/// The duration a submission denotes: its text with surrounding whitespace
/// removed, read as an unsigned decimal count of seconds.
pub open spec fn parse_duration_spec(s: Seq<char>) -> Option<u64> {
    parse_u64_spec(trim_spec(s))
}

/// If everything before `a` is whitespace and `a` is the end or a
/// non-whitespace position, trimming from the start cuts exactly at `a`.
proof fn lemma_trim_start_at(s: Seq<char>, a: int)
    requires
        0 <= a <= s.len(),
        forall|i: int| 0 <= i < a ==> is_space(#[trigger] s[i]),
        a == s.len() || !is_space(s[a]),
    ensures
        trim_start_spec(s) == s.subrange(a, s.len() as int),
    decreases a,
{
    if a == 0 {
        assert(s.subrange(0, s.len() as int) =~= s);
    } else {
        let s1 = s.subrange(1, s.len() as int);
        lemma_trim_start_at(s1, a - 1);
        assert(s1.subrange(a - 1, s1.len() as int) =~= s.subrange(a, s.len() as int));
    }
}

/// If everything from `b` on is whitespace and `b` is the start or follows
/// a non-whitespace position, trimming from the end cuts exactly at `b`.
proof fn lemma_trim_end_at(s: Seq<char>, b: int)
    requires
        0 <= b <= s.len(),
        forall|i: int| b <= i < s.len() ==> is_space(#[trigger] s[i]),
        b == 0 || !is_space(s[b - 1]),
    ensures
        trim_end_spec(s) == s.subrange(0, b),
    decreases s.len() - b,
{
    if b == s.len() {
        assert(s.subrange(0, b) =~= s);
    } else {
        let s1 = s.drop_last();
        assert(s1 =~= s.subrange(0, s.len() - 1));
        lemma_trim_end_at(s1, b);
        assert(s1.subrange(0, b) =~= s.subrange(0, b));
    }
}

/// Reads `text` as a whole number of seconds, exactly as
/// [`parse_duration_spec`] describes.
pub fn parse_duration(text: &str) -> (r: Option<u64>)
    ensures
        r == parse_duration_spec(text@),
{
    let ghost s = text@;
    let n: usize = text.unicode_len();

    let mut start: usize = 0;
    while start < n && is_space_char(text.get_char(start))
        invariant
            0 <= start <= n,
            n == s.len(),
            s == text@,
            forall|i: int| 0 <= i < start ==> is_space(#[trigger] s[i]),
        decreases n - start,
    {
        start = start + 1;
    }

    let mut end: usize = n;
    while end > start && is_space_char(text.get_char(end - 1))
        invariant
            start <= end <= n,
            n == s.len(),
            s == text@,
            forall|i: int| end <= i < n ==> is_space(#[trigger] s[i]),
        decreases end,
    {
        end = end - 1;
    }

    proof {
        lemma_trim_start_at(s, start as int);
        let t = s.subrange(start as int, n as int);
        lemma_trim_end_at(t, end - start);
        assert(t.subrange(0, end - start) =~= s.subrange(start as int, end as int));
        assert(trim_spec(s) == s.subrange(start as int, end as int));
    }
    let ghost trimmed = s.subrange(start as int, end as int);

    // Skip a single leading '+'.
    let mut pos: usize = start;
    if pos < end && text.get_char(pos) == '+' {
        pos = pos + 1;
    }
    let ghost body = s.subrange(pos as int, end as int);
    proof {
        assert(strip_plus(trimmed) =~= body);
    }

    if pos == end {
        // Nothing but whitespace and at most a sign: no digits to read.
        return None;
    }

    let mut val: u64 = 0;
    let mut j: usize = pos;
    while j < end
        invariant
            pos <= j <= end <= n,
            n == s.len(),
            s == text@,
            body == s.subrange(pos as int, end as int),
            trim_spec(s) == s.subrange(start as int, end as int),
            body == strip_plus(s.subrange(start as int, end as int)),
            body.len() == end - pos,
            body.len() > 0,
            forall|k: int| 0 <= k < j - pos ==> is_digit(#[trigger] body[k]),
            val == digits_val(body.take(j - pos)),
        decreases end - j,
    {
        let c: char = text.get_char(j);
        assert(body[j - pos] == s[j as int]);
        if !(48 <= c as u32 && c as u32 <= 57) {
            // A non-digit inside the number: the submission is malformed.
            assert(!is_digit(body[j - pos]));
            return None;
        }
        let d: u64 = (c as u32 - 48) as u64;
        if val > (u64::MAX - d) / 10 {
            // The digits read so far already exceed what a u64 can hold.
            proof {
                assert(val * 10 + d > u64::MAX) by (nonlinear_arith)
                    requires
                        val > (u64::MAX - d) / 10,
                        0 <= d <= 9,
                ;
                crate::digits::lemma_digits_val_step(body, j - pos);
                if all_digits(body) {
                    crate::digits::lemma_digits_val_take_le(body, j - pos + 1);
                    assert(digits_val(body) > u64::MAX);
                }
            }
            return None;
        }
        proof {
            assert(val * 10 + d <= u64::MAX) by (nonlinear_arith)
                requires
                    val <= (u64::MAX - d) / 10,
                    0 <= d <= 9,
            ;
            crate::digits::lemma_digits_val_step(body, j - pos);
        }
        val = val * 10 + d;
        j = j + 1;
    }

    proof {
        assert(body.take(j - pos) =~= body);
        assert(all_digits(body));
        assert(digits_val(body) == val);
    }
    Some(val)
}

/// Every non-negative number round-trips: its canonical decimal text
/// parses back to the number itself.
pub proof fn lemma_decimal_round_trip(n: u64)
    ensures
        parse_duration_spec(dec_rep(n as int)) == Some(n),
{
    lemma_dec_rep_digits(n as int);
    let t = dec_rep(n as int);
    assert(is_digit(t[0]));
    assert(is_digit(t.last()));
    assert(trim_start_spec(t) == t);
    assert(trim_end_spec(t) == t);
    assert(strip_plus(t) == t);
}

} // verus!
