//! Conversion of playback positions and durations into display values.

use vstd::prelude::*;

verus! {

/// Milliseconds in one second.
pub const MILLIS_PER_SECOND: u64 = 1000;

/// Nanoseconds in one millisecond.
pub const NANOS_PER_MILLI: u32 = 1_000_000;

/// A duration given as whole seconds plus a sub-second remainder in
/// nanoseconds, expressed in whole milliseconds.
pub fn to_millis(secs: u64, subsec_nanos: u32) -> (millis: u64)
    requires
        secs <= (u64::MAX - 999) / 1000,
        subsec_nanos < 1_000_000_000,
    ensures
        millis == secs * 1000 + subsec_nanos / 1_000_000,
{
    secs * MILLIS_PER_SECOND + (subsec_nanos / NANOS_PER_MILLI) as u64
}

/// The character that displays a single decimal digit.
pub open spec fn digit_char(d: u64) -> char {
    if d == 0 {
        '0'
    } else if d == 1 {
        '1'
    } else if d == 2 {
        '2'
    } else if d == 3 {
        '3'
    } else if d == 4 {
        '4'
    } else if d == 5 {
        '5'
    } else if d == 6 {
        '6'
    } else if d == 7 {
        '7'
    } else if d == 8 {
        '8'
    } else {
        '9'
    }
}

/// The decimal rendering of `n`, most significant digit first, with no
/// leading zeros (a lone `0` for zero).
pub open spec fn spec_decimal(n: u64) -> Seq<char>
    decreases n,
{
    if n < 10 {
        seq![digit_char(n)]
    } else {
        spec_decimal((n / 10) as u64).push(digit_char((n % 10) as u64))
    }
}

/// The `m:ss` rendering of a position in milliseconds: minutes in full,
/// then a colon, then the seconds zero-padded to two digits.
pub open spec fn spec_minutes_str(millis: u64) -> Seq<char> {
    let seconds = (millis / 1000) % 60;
    spec_decimal(((millis / 1000) / 60) as u64) + seq![':'] + seq![
        digit_char((seconds / 10) as u64),
        digit_char((seconds % 10) as u64),
    ]
}

fn digit_to_char(d: u64) -> (c: char)
    requires
        d < 10,
    ensures
        c == digit_char(d),
{
    if d == 0 {
        '0'
    } else if d == 1 {
        '1'
    } else if d == 2 {
        '2'
    } else if d == 3 {
        '3'
    } else if d == 4 {
        '4'
    } else if d == 5 {
        '5'
    } else if d == 6 {
        '6'
    } else if d == 7 {
        '7'
    } else if d == 8 {
        '8'
    } else {
        '9'
    }
}

fn push_decimal(n: u64, out: &mut Vec<char>)
    ensures
        final(out)@ == old(out)@ + spec_decimal(n),
    decreases n,
{
    if n < 10 {
        out.push(digit_to_char(n));
        assert(out@ =~= old(out)@ + spec_decimal(n));
    } else {
        push_decimal(n / 10, out);
        out.push(digit_to_char(n % 10));
        assert(out@ =~= old(out)@ + spec_decimal(n));
    }
}

/// Relies on `String::from_iter` (reached through `Iterator::collect`):
/// the string holds exactly the characters of the vector, in order.
#[verifier::external_body]
fn chars_to_string(chars: &Vec<char>) -> (r: String)
    ensures
        r@ == chars@,
{
    chars.iter().collect()
}

/// A position in milliseconds rendered for display as `m:ss`.
pub fn millis_to_minutes(millis: u64) -> (r: String)
    ensures
        r@ == spec_minutes_str(millis),
{
    let mut seconds: u64 = millis / MILLIS_PER_SECOND;
    let minutes: u64 = seconds / 60;
    seconds = seconds % 60;
    let mut chars: Vec<char> = Vec::new();
    push_decimal(minutes, &mut chars);
    chars.push(':');
    chars.push(digit_to_char(seconds / 10));
    chars.push(digit_to_char(seconds % 10));
    let r = chars_to_string(&chars);
    assert(r@ =~= spec_minutes_str(millis));
    r
}

} // verus!
