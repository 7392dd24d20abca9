//! Formatting of fixed-point values into display strings: right-justified
//! integers, fixed-point decimals, and clock times.
//!
//! Every string a formatter yields is pinned down, character by
//! character, by the spec functions in this module. Division rounds
//! toward negative infinity (the Euclidean `/` and `%` of mathematical
//! integers), except that the integer form truncates toward zero (as a
//! numeric cast would) and the decimal form rounds its fraction to
//! nearest, half away from zero.

use vstd::prelude::*;
use vstd::math::abs;
use vstd::string::{StringExecFns, StrSliceExecFns};
use crate::num::{div_mod_floor, Fixed};

verus! {

/// A numeric-to-string rendering rule. `Integer(width)` renders the
/// truncated value right-justified in a field of `width` characters.
/// `Decimal(intDigits, decDigits)` renders a fixed-point decimal with a
/// minimum integer-field width and an exact count of fraction digits.
/// `Time(scaleFactor)` multiplies the value by the fixed-point scale
/// factor to obtain seconds and renders `H:MM:SS.ss`.
#[derive(Debug, Clone, Copy, PartialEq, Eq, Structural)]
pub enum Format {
    Integer(u32),
    Decimal(u32, u32),
    Time(Fixed),
}

/// Largest magnitude (of the value and of the scale factor alike) for
/// which `Time` formatting cannot overflow the 64-bit product.
pub const TIME_INPUT_LIMIT: i64 = 3_000_000_000;

/// The decimal digit `d` as a character.
pub open spec fn digit_char(d: int) -> char
    recommends
        0 <= d < 10,
{
    if d == 0 { '0' }
    else if d == 1 { '1' }
    else if d == 2 { '2' }
    else if d == 3 { '3' }
    else if d == 4 { '4' }
    else if d == 5 { '5' }
    else if d == 6 { '6' }
    else if d == 7 { '7' }
    else if d == 8 { '8' }
    else { '9' }
}

/// Decimal digits of `n`, most significant first, with no sign and no
/// leading zeros (except for `n == 0`, which is the single digit `0`).
pub open spec fn dec_rep(n: nat) -> Seq<char>
    decreases n,
{
    if n < 10 {
        seq![digit_char(n as int)]
    } else {
        dec_rep(n / 10) + seq![digit_char((n % 10) as int)]
    }
}

/// Decimal digits of `v`, preceded by `-` when `v` is negative.
pub open spec fn int_rep(v: int) -> Seq<char> {
    if v < 0 {
        seq!['-'] + dec_rep((-v) as nat)
    } else {
        dec_rep(v as nat)
    }
}

pub open spec fn spaces(n: nat) -> Seq<char> {
    Seq::new(n, |i: int| ' ')
}

pub open spec fn zeros(n: nat) -> Seq<char> {
    Seq::new(n, |i: int| '0')
}

/// `s`, space-padded on the left to at least `w` characters.
pub open spec fn pad_left(s: Seq<char>, w: nat) -> Seq<char> {
    if s.len() >= w {
        s
    } else {
        spaces((w - s.len()) as nat) + s
    }
}

/// `s`, zero-padded on the left to at least `w` characters.
pub open spec fn zero_pad_left(s: Seq<char>, w: nat) -> Seq<char> {
    if s.len() >= w {
        s
    } else {
        zeros((w - s.len()) as nat) + s
    }
}

pub open spec fn pow10(n: nat) -> nat
    decreases n,
{
    if n == 0 { 1 } else { 10 * pow10((n - 1) as nat) }
}

/// Exactly two digits, zero-padded: the rendering of minutes, seconds
/// and hundredths, all of which are below 100.
pub open spec fn two_dig(n: int) -> Seq<char>
    recommends
        0 <= n < 100,
{
    seq![digit_char(n / 10), digit_char(n % 10)]
}

/// Whole units of a fixed-point value, truncated toward zero (as a cast
/// to an integer type would truncate).
pub open spec fn trunc_units(v: int) -> int {
    if v >= 0 {
        v / 1000
    } else {
        -((-v) / 1000)
    }
}

/// `Integer(w)`: the value truncated toward zero to whole units,
/// right-justified in a space-padded field of at least `w` characters.
pub open spec fn integer_rep(v: int, w: nat) -> Seq<char> {
    pad_left(int_rep(trunc_units(v)), w)
}

/// The magnitude `m` of a fixed-point value (in thousandths), rounded to
/// `dw <= 3` fraction digits, as a count of `10^-dw` units. Rounding is
/// to nearest, half away from zero (the sign is handled by the caller),
/// and may carry into the whole units.
pub open spec fn round_to_digits(m: nat, dw: nat) -> nat
    recommends
        dw <= 3,
{
    (m + pow10((3 - dw) as nat) / 2) / pow10((3 - dw) as nat)
}

/// `Decimal(iw, dw)`: sign and whole units space-padded together to at
/// least `iw` characters, then — unless `dw == 0` — a point and exactly
/// `dw` fraction digits. A fraction shorter than the stored thousandths
/// is rounded to nearest, half away from zero (so `0.16` at one digit is
/// `0.2`, and the rounding may carry: `0.96` at one digit is `1.0`); past
/// the third digit the fraction is exact and is extended with zeros.
pub open spec fn decimal_rep(v: int, iw: nat, dw: nat) -> Seq<char> {
    let sign = if v < 0 { seq!['-'] } else { Seq::<char>::empty() };
    if dw <= 3 {
        let scaled = round_to_digits(abs(v) as nat, dw);
        let int_field = pad_left(sign + dec_rep(scaled / pow10(dw)), iw);
        if dw == 0 {
            int_field
        } else {
            int_field + seq!['.'] + zero_pad_left(dec_rep(scaled % pow10(dw)), dw)
        }
    } else {
        let int_field = pad_left(sign + dec_rep((abs(v) / 1000) as nat), iw);
        int_field + seq!['.'] + zero_pad_left(dec_rep((abs(v) % 1000) as nat), 3)
            + zeros((dw - 3) as nat)
    }
}

/// `Time(sc)`: `value * sc` is a span in seconds; it is split into
/// hours, minutes, seconds and hundredths with floor division, so the
/// three trailing components are always in range, and rendered as
/// `H:MM:SS.ss` with the hours right-justified in a field of at least
/// two characters.
pub open spec fn time_rep(v: int, sc: int) -> Seq<char> {
    let hundredths = v * sc / 10000;
    let ss = hundredths % 100;
    let total_seconds = hundredths / 100;
    let sec = total_seconds % 60;
    let total_minutes = total_seconds / 60;
    let min = total_minutes % 60;
    let hours = total_minutes / 60;
    pad_left(int_rep(hours), 2) + seq![':'] + two_dig(min) + seq![':'] + two_dig(sec)
        + seq!['.'] + two_dig(ss)
}

/// Inputs a format accepts: everything negatable for the integer and
/// decimal forms, and magnitudes whose product fits 64 bits for the
/// clock form.
pub open spec fn format_pre(f: Format, v: int) -> bool {
    match f {
        Format::Integer(_) => v > i64::MIN,
        Format::Decimal(_, _) => v > i64::MIN,
        Format::Time(sc) => -TIME_INPUT_LIMIT <= v <= TIME_INPUT_LIMIT
            && -TIME_INPUT_LIMIT <= sc <= TIME_INPUT_LIMIT,
    }
}

/// A format descriptor is well formed when a `Time` scale factor lies
/// within the product limit that exact 64-bit arithmetic needs; the
/// integer and decimal widths need no restriction. A format failing this
/// is a configuration error.
pub open spec fn format_valid(f: Format) -> bool {
    f matches Format::Time(sc) ==> -TIME_INPUT_LIMIT <= sc <= TIME_INPUT_LIMIT
}

/// The exact character sequence `format_value` yields.
pub open spec fn format_spec(f: Format, v: int) -> Seq<char> {
    match f {
        Format::Integer(w) => integer_rep(v, w as nat),
        Format::Decimal(iw, dw) => decimal_rep(v, iw as nat, dw as nat),
        Format::Time(sc) => time_rep(v, sc as int),
    }
}

/// The single decimal digit `d` as a string slice.
fn digit_str(d: u64) -> (r: &'static str)
    requires
        d < 10,
    ensures
        r@ == seq![digit_char(d as int)],
{
    proof {
        reveal_strlit("0");
        reveal_strlit("1");
        reveal_strlit("2");
        reveal_strlit("3");
        reveal_strlit("4");
        reveal_strlit("5");
        reveal_strlit("6");
        reveal_strlit("7");
        reveal_strlit("8");
        reveal_strlit("9");
        assert("0"@ =~= seq!['0']);
        assert("1"@ =~= seq!['1']);
        assert("2"@ =~= seq!['2']);
        assert("3"@ =~= seq!['3']);
        assert("4"@ =~= seq!['4']);
        assert("5"@ =~= seq!['5']);
        assert("6"@ =~= seq!['6']);
        assert("7"@ =~= seq!['7']);
        assert("8"@ =~= seq!['8']);
        assert("9"@ =~= seq!['9']);
    }
    match d {
        0 => "0",
        1 => "1",
        2 => "2",
        3 => "3",
        4 => "4",
        5 => "5",
        6 => "6",
        7 => "7",
        8 => "8",
        _ => "9",
    }
}

/// Decimal digits of `n`, most significant first.
fn u64_dec(n: u64) -> (r: String)
    ensures
        r@ == dec_rep(n as nat),
    decreases n,
{
    if n < 10 {
        String::from_str(digit_str(n))
    } else {
        let mut s = u64_dec(n / 10);
        s.append(digit_str(n % 10));
        s
    }
}

/// Decimal digits of `v` with a leading `-` when negative.
fn i64_dec(v: i64) -> (r: String)
    requires
        v > i64::MIN,
    ensures
        r@ == int_rep(v as int),
{
    if v >= 0 {
        u64_dec(v as u64)
    } else {
        proof {
            reveal_strlit("-");
            assert("-"@ =~= seq!['-']);
        }
        let mut s = String::from_str("-");
        let digits = u64_dec((-v) as u64);
        s.append(digits.as_str());
        s
    }
}

/// Left-pad with spaces to at least `w` characters.
fn pad_spaces(s: String, w: usize) -> (r: String)
    ensures
        r@ == pad_left(s@, w as nat),
{
    let n = s.as_str().unicode_len();
    if n >= w {
        s
    } else {
        let mut p = String::new();
        let mut k: usize = 0;
        proof {
            assert(p@ =~= spaces(0));
        }
        while k < w - n
            invariant
                k <= w - n,
                n == s@.len(),
                n < w,
                p@ == spaces(k as nat),
            decreases w - n - k,
        {
            p.append(" ");
            proof {
                reveal_strlit(" ");
                assert(p@ =~= spaces((k + 1) as nat));
            }
            k += 1;
        }
        p.append(s.as_str());
        proof {
            assert(p@ =~= pad_left(s@, w as nat));
        }
        p
    }
}

/// Left-pad with zeros to at least `w` characters.
fn pad_zeros(s: String, w: usize) -> (r: String)
    ensures
        r@ == zero_pad_left(s@, w as nat),
{
    let n = s.as_str().unicode_len();
    if n >= w {
        s
    } else {
        let mut p = String::new();
        let mut k: usize = 0;
        proof {
            assert(p@ =~= zeros(0));
        }
        while k < w - n
            invariant
                k <= w - n,
                n == s@.len(),
                n < w,
                p@ == zeros(k as nat),
            decreases w - n - k,
        {
            p.append("0");
            proof {
                reveal_strlit("0");
                assert(p@ =~= zeros((k + 1) as nat));
            }
            k += 1;
        }
        p.append(s.as_str());
        proof {
            assert(p@ =~= zero_pad_left(s@, w as nat));
        }
        p
    }
}

/// Exactly two zero-padded digits of `n < 100`.
fn two_digits(n: u64) -> (r: String)
    requires
        n < 100,
    ensures
        r@ == two_dig(n as int),
{
    let mut s = String::from_str(digit_str(n / 10));
    s.append(digit_str(n % 10));
    proof {
        assert(s@ =~= two_dig(n as int));
    }
    s
}

/// `Integer(w)` rendering (see `integer_rep`).
fn format_integer(v: i64, w: u32) -> (r: String)
    requires
        v > i64::MIN,
    ensures
        r@ == integer_rep(v as int, w as nat),
{
    let neg = v < 0;
    let m: u64 = if neg { (-v) as u64 } else { v as u64 };
    let units: u64 = m / 1000;
    let s: String = if neg && units > 0 {
        proof {
            reveal_strlit("-");
            assert("-"@ =~= seq!['-']);
        }
        let mut t = String::from_str("-");
        let digits = u64_dec(units);
        t.append(digits.as_str());
        t
    } else {
        u64_dec(units)
    };
    pad_spaces(s, w as usize)
}

/// `Decimal(iw, dw)` rendering (see `decimal_rep`).
fn format_decimal(v: i64, iw: u32, dw: u32) -> (r: String)
    requires
        v > i64::MIN,
    ensures
        r@ == decimal_rep(v as int, iw as nat, dw as nat),
{
    proof {
        assert(pow10(0) == 1);
        assert(pow10(1) == 10);
        assert(pow10(2) == 100);
        assert(pow10(3) == 1000);
    }
    let neg = v < 0;
    let m: u64 = if neg { (-v) as u64 } else { v as u64 };
    let (units, frac): (u64, u64) = if dw <= 3 {
        let divisor: u64 = if dw == 0 {
            1000
        } else if dw == 1 {
            100
        } else if dw == 2 {
            10
        } else {
            1
        };
        let one: u64 = if dw == 0 {
            1
        } else if dw == 1 {
            10
        } else if dw == 2 {
            100
        } else {
            1000
        };
        let scaled: u64 = (m + divisor / 2) / divisor;
        (scaled / one, scaled % one)
    } else {
        (m / 1000, m % 1000)
    };
    let base: String = if neg {
        proof {
            reveal_strlit("-");
            assert("-"@ =~= seq!['-']);
        }
        let mut t = String::from_str("-");
        let digits = u64_dec(units);
        t.append(digits.as_str());
        t
    } else {
        u64_dec(units)
    };
    let mut r = pad_spaces(base, iw as usize);
    if dw == 0 {
        return r;
    }
    let fd: String = if dw <= 3 {
        pad_zeros(u64_dec(frac), dw as usize)
    } else {
        let mut f = pad_zeros(u64_dec(frac), 3);
        let mut k: u32 = 3;
        while k < dw
            invariant
                3 <= k <= dw,
                f@ == zero_pad_left(dec_rep(frac as nat), 3) + zeros((k - 3) as nat),
            decreases dw - k,
        {
            f.append("0");
            proof {
                reveal_strlit("0");
                assert(f@ =~= zero_pad_left(dec_rep(frac as nat), 3)
                    + zeros((k + 1 - 3) as nat));
            }
            k += 1;
        }
        f
    };
    r.append(".");
    r.append(fd.as_str());
    proof {
        reveal_strlit(".");
        assert("."@ =~= seq!['.']);
        assert(r@ =~= decimal_rep(v as int, iw as nat, dw as nat));
    }
    r
}

/// `Time(sc)` rendering (see `time_rep`).
fn format_time(v: i64, sc: i64) -> (r: String)
    requires
        -TIME_INPUT_LIMIT <= v <= TIME_INPUT_LIMIT,
        -TIME_INPUT_LIMIT <= sc <= TIME_INPUT_LIMIT,
    ensures
        r@ == time_rep(v as int, sc as int),
{
    proof {
        assert((v as int) * (sc as int) <= 9_000_000_000_000_000_000
            && (v as int) * (sc as int) >= -9_000_000_000_000_000_000) by (nonlinear_arith)
            requires
                -TIME_INPUT_LIMIT <= v <= TIME_INPUT_LIMIT,
                -TIME_INPUT_LIMIT <= sc <= TIME_INPUT_LIMIT,
        ;
    }
    let p: i64 = v * sc;
    let (hundredths, _) = div_mod_floor(p, 10000);
    let (total_seconds, ss) = div_mod_floor(hundredths, 100);
    let (total_minutes, sec) = div_mod_floor(total_seconds, 60);
    let (hours, min) = div_mod_floor(total_minutes, 60);
    let mut r = pad_spaces(i64_dec(hours), 2);
    let mm = two_digits(min);
    let sst = two_digits(sec);
    let sub = two_digits(ss);
    r.append(":");
    r.append(mm.as_str());
    r.append(":");
    r.append(sst.as_str());
    r.append(".");
    r.append(sub.as_str());
    proof {
        reveal_strlit(":");
        reveal_strlit(".");
        assert(":"@ =~= seq![':']);
        assert("."@ =~= seq!['.']);
        assert(r@ =~= time_rep(v as int, sc as int));
    }
    r
}

impl Format {
    /// Whether the descriptor is well formed (see `format_valid`).
    pub fn valid(&self) -> (r: bool)
        ensures
            r == format_valid(*self),
    {
        match *self {
            Format::Time(sc) => -TIME_INPUT_LIMIT <= sc && sc <= TIME_INPUT_LIMIT,
            _ => true,
        }
    }

    /// Render `value` under this format; the result is exactly
    /// `format_spec(*self, value)`.
    pub fn format_value(&self, value: Fixed) -> (r: String)
        requires
            format_pre(*self, value as int),
        ensures
            r@ == format_spec(*self, value as int),
    {
        match *self {
            Format::Integer(w) => format_integer(value, w),
            Format::Decimal(iw, dw) => format_decimal(value, iw, dw),
            Format::Time(sc) => format_time(value, sc),
        }
    }
}

} // verus!
