//! Rendering of decoded telemetry into the display line: decimal numbers,
//! fixed-point fractions built from the device's integer units, and the
//! `h:mm:ss` elapsed-time form.

use vstd::prelude::*;
use vstd::arithmetic::div_mod::lemma_breakdown;
use vstd::arithmetic::div_mod::lemma_fundamental_div_mod;

use crate::codec::Telemetry;

verus! {

/// The character for one decimal digit.
pub open spec fn digit_char(d: int) -> char
    recommends
        0 <= d < 10,
{
    if d == 0 {
        '0'
    } else if d == 1 {
        '1'
    } else if d == 2 {
        '2'
    } else if d == 3 {
        '3'
    } else if d == 4 {
        '4'
    } else if d == 5 {
        '5'
    } else if d == 6 {
        '6'
    } else if d == 7 {
        '7'
    } else if d == 8 {
        '8'
    } else {
        '9'
    }
}

/// The usual decimal rendering of `n`, most significant digit first, with no
/// leading zero except for `n == 0` itself.
pub open spec fn decimal(n: nat) -> Seq<char>
    decreases n,
{
    if n < 10 {
        seq![digit_char(n as int)]
    } else {
        decimal(n / 10) + seq![digit_char((n % 10) as int)]
    }
}

/// Two-digit rendering of `n`, zero-padded.
pub open spec fn two_digits(n: nat) -> Seq<char>
    recommends
        n < 100,
{
    seq![digit_char((n / 10) as int), digit_char((n % 10) as int)]
}

fn digit_str(d: u8) -> (r: &'static str)
    requires
        d < 10,
    ensures
        r@ == seq![digit_char(d as int)],
{
    proof {
        reveal_strlit("0");
        reveal_strlit("1");
        reveal_strlit("2");
        reveal_strlit("3");
        reveal_strlit("4");
        reveal_strlit("5");
        reveal_strlit("6");
        reveal_strlit("7");
        reveal_strlit("8");
        reveal_strlit("9");
    }
    let r: &'static str = match d {
        0 => "0",
        1 => "1",
        2 => "2",
        3 => "3",
        4 => "4",
        5 => "5",
        6 => "6",
        7 => "7",
        8 => "8",
        _ => "9",
    };
    proof {
        assert(r@ =~= seq![digit_char(d as int)]);
    }
    r
}

/// Renders `n` in decimal.
pub fn to_decimal(n: u32) -> (r: String)
    ensures
        r@ == decimal(n as nat),
    decreases n,
{
    if n < 10 {
        String::from_str(digit_str(n as u8))
    } else {
        let mut s = to_decimal(n / 10);
        s.append(digit_str((n % 10) as u8));
        s
    }
}

/// Renders `n` as exactly two digits, zero-padded.
pub fn to_two_digits(n: u32) -> (r: String)
    requires
        n < 100,
    ensures
        r@ == two_digits(n as nat),
{
    let mut s = String::from_str(digit_str((n / 10) as u8));
    s.append(digit_str((n % 10) as u8));
    proof {
        assert(s@ =~= two_digits(n as nat));
    }
    s
}

/// The `h:mm:ss` form of `t` seconds: hours unpadded, minutes and seconds
/// zero-padded to two digits.
pub open spec fn duration_text(t: nat) -> Seq<char> {
    decimal(t / 3600) + ":"@ + two_digits((t / 60) % 60) + ":"@ + two_digits(t % 60)
}

/// Renders elapsed seconds as `h:mm:ss`.
pub fn format_duration(t: u32) -> (r: String)
    ensures
        r@ == duration_text(t as nat),
{
    let mut s = to_decimal(t / 3600);
    s.append(":");
    let m = to_two_digits((t / 60) % 60);
    s.append(m.as_str());
    s.append(":");
    let sec = to_two_digits(t % 60);
    s.append(sec.as_str());
    s
}

/// Speed in deci-km/h rendered as km/h with one decimal place.
pub open spec fn speed_text(s: u8) -> Seq<char> {
    decimal((s / 10) as nat) + "."@ + seq![digit_char((s % 10) as int)]
}

/// Renders a deci-km/h speed as km/h with one decimal place.
pub fn render_speed(s: u8) -> (r: String)
    ensures
        r@ == speed_text(s),
{
    let mut out = to_decimal((s / 10) as u32);
    out.append(".");
    out.append(digit_str(s % 10));
    out
}

/// Distance in centimeters rendered as meters with three decimal places (the
/// third is always zero: centimeters carry only two).
pub open spec fn distance_text(d: u32) -> Seq<char> {
    decimal((d / 100) as nat) + "."@ + two_digits((d % 100) as nat) + "0"@
}

/// Renders a centimeter distance as meters with three decimal places.
pub fn render_distance(d: u32) -> (r: String)
    ensures
        r@ == distance_text(d),
{
    let mut out = to_decimal(d / 100);
    out.append(".");
    let frac = to_two_digits(d % 100);
    out.append(frac.as_str());
    out.append("0");
    out
}

/// The whole display line for one telemetry report.
pub open spec fn telemetry_text(t: Telemetry) -> Seq<char> {
    "Speed: "@ + speed_text(t.speed) + " km/h, Time: "@ + duration_text(t.time as nat)
        + ", Distance: "@ + distance_text(t.distance) + " m, Steps: "@ + decimal(t.steps as nat)
}

/// Renders one telemetry report as its display line.
pub fn render_telemetry(t: &Telemetry) -> (r: String)
    ensures
        r@ == telemetry_text(*t),
{
    let mut out = String::from_str("Speed: ");
    let speed = render_speed(t.speed);
    out.append(speed.as_str());
    out.append(" km/h, Time: ");
    let time = format_duration(t.time);
    out.append(time.as_str());
    out.append(", Distance: ");
    let dist = render_distance(t.distance);
    out.append(dist.as_str());
    out.append(" m, Steps: ");
    let steps = to_decimal(t.steps);
    out.append(steps.as_str());
    out
}

/// Law: the three rendered time components recombine to the original count of
/// seconds — `(t/3600)*3600 + ((t/60) % 60)*60 + t % 60 == t`.
pub proof fn lemma_duration_round_trip(t: u32)
    ensures
        (t as int / 3600) * 3600 + ((t as int / 60) % 60) * 60 + (t as int % 60) == t as int,
{
    let ti = t as int;
    lemma_fundamental_div_mod(ti, 3600);
    lemma_breakdown(ti, 60, 60);
    assert(60 * 60 == 3600);
}

} // verus!
