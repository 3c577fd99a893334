use vstd::prelude::*;
use vstd::string::*;
use vstd::utf8::{decode_utf8, encode_utf8_decode_utf8, valid_utf8};

use crate::config::{Check, CheckKind};
use crate::text::{
    chars_of, contains, contains_chars, decimal, digit_char, is_ascii_digit, is_blank,
    is_white_space, occurs_at, trim, trim_removes_surrounding_white_space, trimmed,
};

verus! {

/// The most standard output, in bytes, that a row-count or schema check's
/// command has captured; output beyond it is cut off.
pub const OUTPUT_CAPTURE_LIMIT: usize = 65536;

/// What running one drill command gave back: whether it exited with success,
/// what it printed on standard output (the first `OUTPUT_CAPTURE_LIMIT` bytes,
/// and only for a row-count or schema check), whether output was cut off
/// there, how long it took, and whether it ran out of time (and was stopped).
#[derive(Debug)]
pub struct CommandResult {
    pub success: bool,
    pub stdout: Vec<u8>,
    pub truncated: bool,
    pub duration_ms: u128,
    pub timed_out: bool,
}

impl CommandResult {
    /// The result that stands for a command that was not run.
    pub fn skipped() -> (r: Self)
        ensures
            r.success,
            r.stdout@.len() == 0,
            !r.truncated,
            r.duration_ms == 0,
            !r.timed_out,
    {
        CommandResult {
            success: true,
            stdout: Vec::new(),
            truncated: false,
            duration_ms: 0,
            timed_out: false,
        }
    }
}

// ---------------------------------------------------------------------------
// Integers as `i64::from_str` reads them
// ---------------------------------------------------------------------------

pub open spec fn digit_value(c: char) -> nat {
    ((c as u32) - ('0' as u32)) as nat
}

/// The value of a string of decimal digits.
pub open spec fn digits_value(d: Seq<char>) -> nat
    decreases d.len(),
{
    if d.len() == 0 {
        0
    } else {
        digits_value(d.drop_last()) * 10 + digit_value(d.last())
    }
}

pub open spec fn all_digits(d: Seq<char>) -> bool {
    forall|i: int| 0 <= i < d.len() ==> is_ascii_digit(#[trigger] d[i])
}

pub open spec fn i64_magnitude_limit() -> nat {
    0x8000_0000_0000_0000
}

/// `i64::from_str`: an optional `+` or `-`, then one or more ASCII digits,
/// whose value fits in an `i64`.
pub open spec fn parse_i64(s: Seq<char>) -> Option<i64> {
    if s.len() == 0 {
        None
    } else {
        let negative = s[0] == '-';
        let digits = if s[0] == '-' || s[0] == '+' {
            s.drop_first()
        } else {
            s
        };
        if digits.len() == 0 || !all_digits(digits) {
            None
        } else if negative {
            if digits_value(digits) <= i64_magnitude_limit() {
                Some((0 - digits_value(digits)) as i64)
            } else {
                None
            }
        } else {
            if digits_value(digits) < i64_magnitude_limit() {
                Some(digits_value(digits) as i64)
            } else {
                None
            }
        }
    }
}

proof fn lemma_digits_value_prefix(d: Seq<char>, k: int)
    requires
        0 <= k <= d.len(),
    ensures
        digits_value(d.take(k)) <= digits_value(d),
    decreases d.len(),
{
    if k == d.len() {
        assert(d.take(k) == d);
    } else {
        assert(d.drop_last().take(k) == d.take(k));
        lemma_digits_value_prefix(d.drop_last(), k);
    }
}

/// Reads `s` as `i64::from_str` does.
pub fn parse_integer(s: &Vec<char>) -> (r: Option<i64>)
    ensures
        r == parse_i64(s@),
{
    if s.len() == 0 {
        return None;
    }
    let negative = s[0] == '-';
    let start: usize = if s[0] == '-' || s[0] == '+' {
        1
    } else {
        0
    };
    let ghost digits = s@.skip(start as int);
    assert(digits == if s@[0] == '-' || s@[0] == '+' {
        s@.drop_first()
    } else {
        s@
    });
    if start == s.len() {
        return None;
    }
    let mut value: u128 = 0;
    let mut i: usize = start;
    while i < s.len()
        invariant
            start <= i <= s.len(),
            start < s.len(),
            s@.len() > 0,
            negative == (s@[0] == '-'),
            digits == s@.skip(start as int),
            digits == if s@[0] == '-' || s@[0] == '+' {
                s@.drop_first()
            } else {
                s@
            },
            value == digits_value(digits.take(i - start)),
            value <= i64_magnitude_limit(),
            all_digits(digits.take(i - start)),
        decreases s.len() - i,
    {
        let c = s[i];
        assert(digits[i - start] == c);
        if c < '0' || c > '9' {
            assert(!is_ascii_digit(digits[i - start]));
            return None;
        }
        let d = ((c as u32) - ('0' as u32)) as u128;
        let next = value * 10 + d;
        assert(digits.take(i - start + 1).drop_last() == digits.take(i - start));
        assert(next == digits_value(digits.take(i - start + 1)));
        if next > 0x8000_0000_0000_0000u128 {
            proof {
                lemma_digits_value_prefix(digits, i - start + 1);
            }
            return None;
        }
        value = next;
        i = i + 1;
    }
    assert(digits.take(i - start) == digits);
    if negative {
        if value == 0x8000_0000_0000_0000u128 {
            Some(i64::MIN)
        } else {
            Some(0 - (value as i64))
        }
    } else if value == 0x8000_0000_0000_0000u128 {
        None
    } else {
        Some(value as i64)
    }
}

// ---------------------------------------------------------------------------
// Whether a check passed
// ---------------------------------------------------------------------------

/// `std::str::from_utf8`: the bytes read as text when they are valid UTF-8.
#[verifier::external_body]
fn utf8_text(bytes: &[u8]) -> (r: Option<&str>)
    ensures
        r is Some <==> valid_utf8(bytes@),
        r matches Some(s) ==> s.spec_bytes() == bytes@,
{
    std::str::from_utf8(bytes).ok()
}

/// The output was cut off at the capture limit, or is longer than it.
pub open spec fn output_cut_off(result: CommandResult) -> bool {
    result.truncated || result.stdout@.len() > OUTPUT_CAPTURE_LIMIT
}

/// The check's verdict on its command's result: the command succeeded in time
/// and, for a schema check, its whole output (as UTF-8) holds the `contains`
/// text, and for a row-count check, its whole trimmed output is an integer
/// within `min` and `max`. Output that was cut off fails both of these.
pub open spec fn check_passes(check: Check, result: CommandResult) -> bool {
    if !result.success || result.timed_out {
        false
    } else {
        let output = decode_utf8(result.stdout@);
        match check.kind {
            CheckKind::Schema => {
                &&& !output_cut_off(result)
                &&& valid_utf8(result.stdout@)
                &&& check.contains is Some
                &&& contains(output, check.contains->0@)
            },
            CheckKind::RowCount => {
                &&& !output_cut_off(result)
                &&& valid_utf8(result.stdout@)
                &&& parse_i64(trim(output)) matches Some(count)
                &&& (check.min is Some ==> count >= check.min->0)
                &&& (check.max is Some ==> count <= check.max->0)
            },
            _ => true,
        }
    }
}

/// Decides whether `check` passed on the result of its command.
pub fn check_passed(check: &Check, result: &CommandResult) -> (passed: bool)
    ensures
        passed == check_passes(*check, *result),
{
    broadcast use vstd::string::group_string_axioms;

    if !result.success || result.timed_out {
        return false;
    }
    let cut_off = result.truncated || result.stdout.len() > OUTPUT_CAPTURE_LIMIT;
    match check.kind {
        CheckKind::Application | CheckKind::Command => true,
        CheckKind::Schema => {
            if cut_off {
                return false;
            }
            match utf8_text(result.stdout.as_slice()) {
                None => false,
                Some(output) => {
                    proof {
                        encode_utf8_decode_utf8(output@);
                    }
                    match &check.contains {
                        None => false,
                        Some(expected) => {
                            let hay = chars_of(output);
                            let needle = chars_of(expected.as_str());
                            contains_chars(&hay, &needle)
                        },
                    }
                },
            }
        },
        CheckKind::RowCount => {
            if cut_off {
                return false;
            }
            match utf8_text(result.stdout.as_slice()) {
                None => false,
                Some(output) => {
                    proof {
                        encode_utf8_decode_utf8(output@);
                    }
                    let text = chars_of(output);
                    let t = trimmed(&text);
                    match parse_integer(&t) {
                        None => false,
                        Some(count) => {
                            let above = match check.min {
                                None => true,
                                Some(min) => count >= min,
                            };
                            let below = match check.max {
                                None => true,
                                Some(max) => count <= max,
                            };
                            above && below
                        },
                    }
                },
            }
        },
    }
}

} // verus!

verus! {

/// A row-count check passes exactly when its command succeeded in time, its
/// whole output was captured and is valid UTF-8, the output with white space
/// trimmed reads as an integer, and that integer is at least `min` when `min`
/// is set and at most `max` when `max` is set, each bound on its own.
pub proof fn row_count_verdict(check: Check, result: CommandResult)
    requires
        check.kind is RowCount,
    ensures
        check_passes(check, result) <==> {
            let count = parse_i64(trim(decode_utf8(result.stdout@)));
            &&& result.success
            &&& !result.timed_out
            &&& !result.truncated
            &&& result.stdout@.len() <= OUTPUT_CAPTURE_LIMIT
            &&& valid_utf8(result.stdout@)
            &&& count is Some
            &&& forall|low: i64| check.min == Some(low) ==> low <= count->0
            &&& forall|high: i64| check.max == Some(high) ==> count->0 <= high
        },
{
}

/// A row-count check with an upper bound never passes on a count above it,
/// whether or not it has a lower bound.
pub proof fn row_count_above_max_fails(check: Check, result: CommandResult, high: i64)
    requires
        check.kind is RowCount,
        check.max == Some(high),
        parse_i64(trim(decode_utf8(result.stdout@))) matches Some(count) && count > high,
    ensures
        !check_passes(check, result),
{
    row_count_verdict(check, result);
}

/// A row-count check with a lower bound never passes on a count below it,
/// whether or not it has an upper bound.
pub proof fn row_count_below_min_fails(check: Check, result: CommandResult, low: i64)
    requires
        check.kind is RowCount,
        check.min == Some(low),
        parse_i64(trim(decode_utf8(result.stdout@))) matches Some(count) && count < low,
    ensures
        !check_passes(check, result),
{
    row_count_verdict(check, result);
}

/// A schema check passes exactly when its command succeeded in time, its
/// whole output was captured and is valid UTF-8, and the `contains` text
/// stands somewhere in that output, character for character.
pub proof fn schema_verdict(check: Check, result: CommandResult)
    requires
        check.kind is Schema,
    ensures
        check_passes(check, result) <==> {
            let output = decode_utf8(result.stdout@);
            &&& result.success
            &&& !result.timed_out
            &&& !result.truncated
            &&& result.stdout@.len() <= OUTPUT_CAPTURE_LIMIT
            &&& valid_utf8(result.stdout@)
            &&& check.contains is Some
            &&& exists|i: int|
                0 <= i && i + check.contains->0@.len() <= output.len() && #[trigger] output.subrange(
                    i,
                    i + check.contains->0@.len(),
                ) == check.contains->0@
        },
{
    let output = decode_utf8(result.stdout@);
    if check.contains is Some {
        let needle = check.contains->0@;
        if contains(output, needle) {
            let i = choose|i: int| occurs_at(output, needle, i);
            assert(output.subrange(i, i + needle.len()) == needle);
        }
        if exists|i: int|
            0 <= i && i + needle.len() <= output.len() && #[trigger] output.subrange(
                i,
                i + needle.len(),
            ) == needle {
            let i = choose|i: int|
                0 <= i && i + needle.len() <= output.len() && #[trigger] output.subrange(
                    i,
                    i + needle.len(),
                ) == needle;
            assert(occurs_at(output, needle, i));
        }
    }
}

/// A schema check never passes on empty output when its `contains` text is
/// not empty: there is nothing for the text to stand in.
pub proof fn schema_on_empty_output_fails(check: Check, result: CommandResult)
    requires
        check.kind is Schema,
        check.contains matches Some(text) && text@.len() > 0,
        decode_utf8(result.stdout@).len() == 0,
    ensures
        !check_passes(check, result),
{
    schema_verdict(check, result);
}

/// An application or command check passes exactly when its command exited
/// with success in time; its output does not matter.
pub proof fn command_verdict(check: Check, result: CommandResult)
    requires
        check.kind is Application || check.kind is Command,
    ensures
        check_passes(check, result) <==> result.success && !result.timed_out,
{
}

} // verus!

verus! {

proof fn lemma_digit_char_value(k: nat)
    requires
        k < 10,
    ensures
        is_ascii_digit(digit_char(k)),
        digit_value(digit_char(k)) == k,
{
    assert(digit_char(k) as u32 == 48 + k);
}

proof fn lemma_decimal_digits(n: nat)
    ensures
        decimal(n).len() > 0,
        all_digits(decimal(n)),
        digits_value(decimal(n)) == n,
    decreases n,
{
    if n < 10 {
        let d = decimal(n);
        assert(d == seq![digit_char(n)]);
        lemma_digit_char_value(n);
        assert(d.drop_last() =~= Seq::<char>::empty());
        assert(digits_value(d.drop_last()) == 0);
        assert(digits_value(d) == digits_value(d.drop_last()) * 10 + digit_value(d.last()));
    } else {
        lemma_decimal_digits(n / 10);
        let d = decimal(n);
        let c = digit_char(n % 10);
        lemma_digit_char_value(n % 10);
        assert(d == decimal(n / 10).push(c));
        assert(d.drop_last() =~= decimal(n / 10));
        assert(d.last() == c);
        assert(digits_value(d) == digits_value(d.drop_last()) * 10 + digit_value(d.last()));
        assert((n / 10) * 10 + n % 10 == n);
        assert(forall|i: int| 0 <= i < d.len() ==> #[trigger] d[i] == (if i < d.len() - 1 {
            decimal(n / 10)[i]
        } else {
            c
        }));
    }
}

/// Reading an integer gives back every count written in decimal digits: the
/// digits of any `n` up to `i64::MAX` read as `n`, and with a `-` in front of
/// them as `-n`, down to `i64::MIN`.
pub proof fn integer_reads_back_decimal(n: nat)
    ensures
        n < i64_magnitude_limit() ==> parse_i64(decimal(n)) == Some(n as i64),
        n <= i64_magnitude_limit() ==> parse_i64(seq!['-'] + decimal(n)) == Some((0 - n) as i64),
{
    lemma_decimal_digits(n);
    let d = decimal(n);
    assert(is_ascii_digit(d[0]));
    let s = seq!['-'] + d;
    assert(s[0] == '-');
    assert(s.drop_first() =~= d);
}

/// A row-count check whose command succeeded in time and printed a count
/// `n` in decimal digits, with any white space around it, passes exactly when
/// `n` is at least `min` where `min` is set and at most `max` where `max` is
/// set; each bound applies whether or not the other is set.
pub proof fn row_count_compares_printed_count(
    check: Check,
    result: CommandResult,
    before: Seq<char>,
    n: nat,
    after: Seq<char>,
)
    requires
        check.kind is RowCount,
        result.success,
        !result.timed_out,
        !result.truncated,
        result.stdout@.len() <= OUTPUT_CAPTURE_LIMIT,
        valid_utf8(result.stdout@),
        decode_utf8(result.stdout@) == before + decimal(n) + after,
        is_blank(before),
        is_blank(after),
        n < i64_magnitude_limit(),
    ensures
        check_passes(check, result) <==> {
            &&& (check.min matches Some(low) ==> low <= n)
            &&& (check.max matches Some(high) ==> n <= high)
        },
{
    lemma_decimal_digits(n);
    let d = decimal(n);
    assert(is_ascii_digit(d[0]));
    assert(is_ascii_digit(d[d.len() - 1]));
    trim_removes_surrounding_white_space(before, d, after);
    integer_reads_back_decimal(n);
    row_count_verdict(check, result);
}

} // verus!
