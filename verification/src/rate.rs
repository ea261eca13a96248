//! Frame pacing: from a decoder's stream description to the delay between frames.

use crate::number::{all_digits, chars_of, digits_value, read_digits};
use regex::Regex;
use vstd::prelude::*;

verus! {

/// The largest whole part of a frame rate that is read, exclusive.
pub const WHOLE_LIMIT: u64 = 1_000_000_000_000_000;

/// The largest number of fraction digits of a frame rate that is read.
pub const FRACTION_DIGITS: usize = 15;

/// What `Regex::captures` finds for `pattern` in `haystack`: the text of the
/// first capture group of the leftmost match; `None` where the pattern does
/// not compile, nothing matches or the group took no part.
pub uninterp spec fn first_group(pattern: Seq<char>, haystack: Seq<char>) -> Option<Seq<char>>;

/// The characters of an optional string.
pub open spec fn text_of(found: &Option<String>) -> Option<Seq<char>> {
    match found {
        Some(text) => Some(text@),
        None => None,
    }
}

/// Compiles `pattern` with `Regex::new`, searches `haystack` with
/// `Regex::captures` and copies the text of group 1. The result is named by
/// `first_group`; nothing more is claimed of it.
#[verifier::external_body]
fn search_group(pattern: &str, haystack: &str) -> (found: Option<String>)
    ensures
        text_of(&found) == first_group(pattern@, haystack@),
{
    match Regex::new(pattern) {
        Ok(regex) => regex.captures(haystack).and_then(|found| found.get(1)).map(|group| group.as_str().to_string()),
        Err(_) => None,
    }
}

/// The pattern that finds the frame rate in a stream description.
pub open spec fn rate_pattern() -> Seq<char> {
    "(\\d*\\.?\\d*) fps"@
}

/// The message for a stream description without a usable frame rate.
pub open spec fn rate_error_text() -> Seq<char> {
    "Could not determine framerate of video!"@
}

/// Ten to the power `k`.
pub open spec fn pow10(k: nat) -> nat
    decreases k,
{
    if k == 0 {
        1
    } else {
        10 * pow10((k - 1) as nat)
    }
}

/// The position of the first point in `s`, or its length where it has none.
pub open spec fn point_index(s: Seq<char>) -> int
    decreases s.len(),
{
    if s.len() == 0 {
        0
    } else if s[0] == '.' {
        0
    } else {
        1 + point_index(s.drop_first())
    }
}

/// The digits before the first point.
pub open spec fn whole_digits(s: Seq<char>) -> Seq<char> {
    s.subrange(0, point_index(s))
}

/// The digits after the first point; none where there is no point.
pub open spec fn fraction_digits(s: Seq<char>) -> Seq<char> {
    if point_index(s) < s.len() {
        s.subrange(point_index(s) + 1, s.len() as int)
    } else {
        Seq::<char>::empty()
    }
}

/// Whether `s` is a frame rate that is read: digits with at most one point
/// among them, at least one digit, a whole part below `WHOLE_LIMIT`, at most
/// `FRACTION_DIGITS` fraction digits, and a value above zero.
pub open spec fn is_rate(s: Seq<char>) -> bool {
    let whole = whole_digits(s);
    let fraction = fraction_digits(s);
    &&& all_digits(whole)
    &&& all_digits(fraction)
    &&& whole.len() + fraction.len() >= 1
    &&& digits_value(whole) < WHOLE_LIMIT
    &&& fraction.len() <= FRACTION_DIGITS
    &&& rate_numerator(s) > 0
}

/// The frame rate times `rate_denominator`.
pub open spec fn rate_numerator(s: Seq<char>) -> nat {
    digits_value(whole_digits(s)) * pow10(fraction_digits(s).len()) + digits_value(fraction_digits(s))
}

/// The power of ten by which `rate_numerator` is scaled.
pub open spec fn rate_denominator(s: Seq<char>) -> nat {
    pow10(fraction_digits(s).len())
}

/// A thousand milliseconds divided by the frame rate, rounded to the nearest
/// whole number, halves upward.
pub open spec fn rounded_delay(numerator: nat, denominator: nat) -> nat {
    ((2000 * denominator + numerator) / (2 * numerator)) as nat
}

/// The delay in milliseconds for what the search found: `None` where it
/// found nothing or no frame rate that is read.
pub open spec fn delay_of(found: Option<Seq<char>>) -> Option<nat> {
    match found {
        Some(s) => if is_rate(s) {
            Some(rounded_delay(rate_numerator(s), rate_denominator(s)))
        } else {
            None
        },
        None => None,
    }
}

/// Digits spell a number below ten to the power of their count.
pub proof fn digits_value_bound(s: Seq<char>)
    requires
        all_digits(s),
    ensures
        digits_value(s) < pow10(s.len()),
    decreases s.len(),
{
    if s.len() > 0 {
        let shorter = s.drop_last();
        assert forall|i: int| 0 <= i < shorter.len() implies crate::number::is_digit(#[trigger] shorter[i]) by {
            assert(shorter[i] == s[i]);
        }
        digits_value_bound(shorter);
        assert(crate::number::is_digit(s[s.len() - 1]));
    }
}

/// Powers of ten grow with the exponent.
pub proof fn pow10_grows(i: nat, j: nat)
    requires
        i <= j,
    ensures
        1 <= pow10(i) <= pow10(j),
    decreases j,
{
    if i < j {
        pow10_grows(i, (j - 1) as nat);
    } else if i > 0 {
        pow10_grows((i - 1) as nat, (j - 1) as nat);
    }
}

/// Ten to the power fifteen, written out.
pub proof fn pow10_of_fifteen()
    ensures
        pow10(15) == 1_000_000_000_000_000,
{
    reveal_with_fuel(pow10, 16);
}

fn find_point(chars: &Vec<char>) -> (at: usize)
    ensures
        at == point_index(chars@),
        at <= chars.len(),
{
    let mut at: usize = 0;
    assert(chars@.subrange(0, chars.len() as int) =~= chars@);
    while at < chars.len() && chars[at] != '.'
        invariant
            at <= chars.len(),
            point_index(chars@) == at + point_index(chars@.subrange(at as int, chars.len() as int)),
        decreases chars.len() - at,
    {
        let ghost rest = chars@.subrange(at as int, chars.len() as int);
        assert(rest[0] == chars@[at as int]);
        assert(rest.drop_first() =~= chars@.subrange(at + 1, chars.len() as int));
        at = at + 1;
    }
    proof {
        let rest = chars@.subrange(at as int, chars.len() as int);
        if at < chars.len() {
            assert(rest[0] == '.');
        }
    }
    assert(chars@.subrange(0, chars.len() as int) =~= chars@);
    at
}

fn power_of_ten(k: usize) -> (power: u64)
    requires
        k <= FRACTION_DIGITS,
    ensures
        power == pow10(k as nat),
        power <= WHOLE_LIMIT,
{
    let mut power: u64 = 1;
    let mut i: usize = 0;
    proof {
        pow10_of_fifteen();
    }
    while i < k
        invariant
            i <= k <= FRACTION_DIGITS,
            power == pow10(i as nat),
            pow10(15) == 1_000_000_000_000_000,
        decreases k - i,
    {
        proof {
            pow10_grows((i + 1) as nat, 15);
        }
        power = power * 10;
        i = i + 1;
    }
    proof {
        pow10_grows(k as nat, 15);
    }
    power
}

/// Reads a frame rate and computes the delay between frames from it.
pub fn delay_from_rate(rate: &str) -> (delay: Option<u64>)
    ensures
        match delay {
            Some(millis) => is_rate(rate@) && millis == rounded_delay(rate_numerator(rate@), rate_denominator(rate@)),
            None => !is_rate(rate@),
        },
{
    let chars = chars_of(rate);
    let n = chars.len();
    let point = find_point(&chars);
    let ghost whole = whole_digits(rate@);
    let ghost fraction = fraction_digits(rate@);
    let after: usize = if point < n {
        point + 1
    } else {
        n
    };
    assert(fraction =~= chars@.subrange(after as int, n as int));
    assert(whole =~= chars@.subrange(0, point as int));
    if n - after > FRACTION_DIGITS || point + (n - after) < 1 {
        return None;
    }
    let units = match read_digits(&chars, 0, point, WHOLE_LIMIT) {
        Some(value) => value,
        None => {
            return None;
        },
    };
    let parts = match read_digits(&chars, after, n, WHOLE_LIMIT) {
        Some(value) => value,
        None => {
            proof {
                if all_digits(fraction) {
                    digits_value_bound(fraction);
                    pow10_grows(fraction.len(), 15);
                    pow10_of_fifteen();
                }
            }
            return None;
        },
    };
    let scale = power_of_ten(n - after);
    assert(units * scale <= 1_000_000_000_000_000 * 1_000_000_000_000_000) by (nonlinear_arith)
        requires
            units < 1_000_000_000_000_000,
            scale <= 1_000_000_000_000_000,
    ;
    let numerator: u128 = (units as u128) * (scale as u128) + (parts as u128);
    assert(numerator == rate_numerator(rate@)) by (nonlinear_arith)
        requires
            numerator == (units as int) * (scale as int) + (parts as int),
            units == digits_value(whole),
            scale == pow10(fraction.len()),
            parts == digits_value(fraction),
            rate_numerator(rate@) == digits_value(whole) * pow10(fraction.len()) + digits_value(fraction),
    ;
    if numerator == 0 {
        return None;
    }
    let doubled: u128 = 2000 * (scale as u128) + numerator;
    let delay: u128 = doubled / (2 * numerator);
    assert(delay <= 2000 * scale + numerator) by (nonlinear_arith)
        requires
            delay == (2000 * scale + numerator) / (2 * numerator),
            numerator > 0,
            scale >= 0,
    ;
    assert(delay <= u64::MAX) by {
        assert(delay == (2000 * scale + numerator) / (2 * numerator));
        assert(delay <= 2000 * scale / 1 + 1) by (nonlinear_arith)
            requires
                delay == (2000 * scale + numerator) / (2 * numerator),
                numerator > 0,
                scale >= 0,
        ;
    }
    Some(delay as u64)
}

/// The message for a stream description without a usable frame rate.
pub fn rate_error() -> (message: String)
    ensures
        message@ == rate_error_text(),
{
    String::from_str("Could not determine framerate of video!")
}

/// The delay for what the search for the frame rate found, or the failure
/// where it found nothing that is read as a frame rate.
pub fn delay_from_capture(found: &Option<String>) -> (delay: Result<u64, String>)
    ensures
        match delay_of(text_of(found)) {
            Some(millis) => delay == Ok::<u64, String>(millis as u64) && millis <= u64::MAX,
            None => delay is Err && delay->Err_0@ == rate_error_text(),
        },
{
    match found {
        Some(rate) => match delay_from_rate(rate.as_str()) {
            Some(millis) => Ok(millis),
            None => Err(rate_error()),
        },
        None => Err(rate_error()),
    }
}

/// Finds the frame rate in a stream description, as a number followed by
/// ` fps`, and computes the delay between frames in milliseconds.
pub fn resolve_delay(metadata: &str) -> (delay: Result<u64, String>)
    ensures
        match delay_of(first_group(rate_pattern(), metadata@)) {
            Some(millis) => delay == Ok::<u64, String>(millis as u64) && millis <= u64::MAX,
            None => delay is Err && delay->Err_0@ == rate_error_text(),
        },
{
    let found = search_group("(\\d*\\.?\\d*) fps", metadata);
    delay_from_capture(&found)
}

} // verus!
