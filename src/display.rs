use vstd::prelude::*;

verus! {

/// Raw battery readings at or below this show an empty gauge.
pub const BATTERY_EMPTY: u16 = 1300;

/// Raw battery readings at or above this show a full gauge.
pub const BATTERY_FULL: u16 = 1920;

/// Width of the battery gauge, in pixels.
pub const BATTERY_BAR_WIDTH: u16 = 32;

/// The character of decimal digit `d`.
pub open spec fn digit_char(d: nat) -> char
    recommends
        d < 10,
{
    seq!['0', '1', '2', '3', '4', '5', '6', '7', '8', '9'][d as int]
}

/// `n` written in decimal, without leading zeros.
pub open spec fn decimal(n: nat) -> Seq<char>
    decreases n,
{
    if n < 10 {
        seq![digit_char(n)]
    } else {
        decimal(n / 10).push(digit_char(n % 10))
    }
}

/// `n` written in decimal, padded with zeros to at least two digits.
pub open spec fn two_digits(n: nat) -> Seq<char> {
    if n < 10 {
        seq!['0', digit_char(n)]
    } else {
        decimal(n)
    }
}

/// A number of seconds shown as whole minutes and seconds, `MM:SS`; the
/// minutes are not wrapped at an hour.
pub open spec fn time_text(seconds: nat) -> Seq<char> {
    two_digits(seconds / 60) + seq![':'] + two_digits(seconds % 60)
}

/// Relies on String::push: the character is appended at the end.
#[verifier::external_body]
fn push_char(s: &mut String, c: char)
    ensures
        final(s)@ == old(s)@.push(c),
{
    s.push(c)
}

fn digit(d: u32) -> (c: char)
    requires
        d < 10,
    ensures
        c == digit_char(d as nat),
{
    match d {
        0 => '0',
        1 => '1',
        2 => '2',
        3 => '3',
        4 => '4',
        5 => '5',
        6 => '6',
        7 => '7',
        8 => '8',
        _ => '9',
    }
}

fn push_decimal(out: &mut String, n: u32)
    ensures
        final(out)@ == old(out)@ + decimal(n as nat),
    decreases n,
{
    if n >= 10 {
        push_decimal(out, n / 10);
    }
    push_char(out, digit(n % 10));
    assert(out@ =~= old(out)@ + decimal(n as nat));
}

fn push_two_digits(out: &mut String, n: u32)
    ensures
        final(out)@ == old(out)@ + two_digits(n as nat),
{
    if n < 10 {
        push_char(out, '0');
        push_char(out, digit(n));
        assert(out@ =~= old(out)@ + two_digits(n as nat));
    } else {
        push_decimal(out, n);
    }
}

/// Formats a countdown as `MM:SS`.
pub fn format_time(seconds: u32) -> (r: String)
    ensures
        r@ == time_text(seconds as nat),
{
    let mut out = String::new();
    push_two_digits(&mut out, seconds / 60);
    push_char(&mut out, ':');
    push_two_digits(&mut out, seconds % 60);
    assert(out@ =~= time_text(seconds as nat));
    out
}

/// `value` limited to the range from `min` to `max`.
pub fn clamp(value: u16, min: u16, max: u16) -> (r: u16)
    ensures
        r == clamp_spec(value, min, max),
        min <= max ==> min <= r <= max,
{
    if value < min {
        min
    } else if value > max {
        max
    } else {
        value
    }
}

/// Maps `value` linearly from the range `in_min..=in_max` onto
/// `out_min..=out_max`, rounding down.
pub fn scale(value: u16, in_min: u16, in_max: u16, out_min: u16, out_max: u16) -> (r: u16)
    requires
        in_min <= value <= in_max,
        in_min < in_max,
        out_min <= out_max,
        (value - in_min) * (out_max - out_min) <= u16::MAX,
        (value - in_min) * (out_max - out_min) / (in_max - in_min) + out_min <= u16::MAX,
    ensures
        r as int == (value - in_min) * (out_max - out_min) / (in_max - in_min) + out_min,
        out_min <= r <= out_max,
{
    let span_in = in_max - in_min;
    let span_out = out_max - out_min;
    let offset = value - in_min;
    proof {
        let (a, b, c) = (offset as int, span_out as int, span_in as int);
        assert(a * b <= c * b) by (nonlinear_arith)
            requires
                a <= c,
                0 <= b,
        ;
        assert(a * b / c <= b) by (nonlinear_arith)
            requires
                a * b <= c * b,
                c > 0,
                0 <= a * b,
        ;
    }
    offset * span_out / span_in + out_min
}

/// Width of the filled part of the battery gauge for a raw battery reading.
pub fn battery_bar_width(raw: u16) -> (r: u16)
    ensures
        r as int == (clamp_spec(raw, BATTERY_EMPTY, BATTERY_FULL) - BATTERY_EMPTY) * BATTERY_BAR_WIDTH
            / (BATTERY_FULL - BATTERY_EMPTY),
        r <= BATTERY_BAR_WIDTH,
{
    let level = clamp(raw, BATTERY_EMPTY, BATTERY_FULL);
    scale(level, BATTERY_EMPTY, BATTERY_FULL, 0, BATTERY_BAR_WIDTH)
}

/// `value` limited to the range from `min` to `max`.
pub open spec fn clamp_spec(value: u16, min: u16, max: u16) -> u16 {
    if value < min {
        min
    } else if value > max {
        max
    } else {
        value
    }
}

} // verus!
