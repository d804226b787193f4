//! Byte-size formatting: a byte count becomes a human-readable magnitude
//! string in B, KB, MB or GB, with one decimal place above the byte tier,
//! rounded to the nearest tenth (ties to even).
use vstd::prelude::*;

use vstd::arithmetic::div_mod::{
    lemma_div_by_multiple, lemma_div_is_ordered, lemma_div_is_ordered_by_denominator,
    lemma_fundamental_div_mod, lemma_mod_bound, lemma_multiply_divide_lt,
};
use vstd::arithmetic::mul::lemma_mul_inequality;

verus! {

/// The decimal digit character for a value below ten.
pub open spec fn digit_char(d: nat) -> char {
    if d == 0 {
        '0'
    } else if d == 1 {
        '1'
    } else if d == 2 {
        '2'
    } else if d == 3 {
        '3'
    } else if d == 4 {
        '4'
    } else if d == 5 {
        '5'
    } else if d == 6 {
        '6'
    } else if d == 7 {
        '7'
    } else if d == 8 {
        '8'
    } else {
        '9'
    }
}

/// The decimal rendering of a number, most significant digit first.
pub open spec fn dec_str(n: nat) -> Seq<char>
    decreases n,
{
    if n < 10 {
        seq![digit_char(n)]
    } else {
        dec_str(n / 10) + seq![digit_char(n % 10)]
    }
}

/// `10 * n / unit` rounded to the nearest whole number of tenths, ties going
/// to the even neighbour: the number of tenths of a unit that the formatter
/// displays.
pub open spec fn round_tenths(n: nat, unit: nat) -> nat
    recommends
        unit > 0,
{
    let q = (10 * n) / unit;
    let r = (10 * n) % unit;
    if 2 * r > unit {
        q + 1
    } else if 2 * r == unit && q % 2 == 1 {
        q + 1
    } else {
        q
    }
}

/// The scaled rendering above the byte tier: whole units, a dot, and one
/// digit of tenths.
pub open spec fn scaled_str(n: nat, unit: nat) -> Seq<char>
    recommends
        unit > 0,
{
    let t = round_tenths(n, unit);
    dec_str(t / 10) + "."@ + seq![digit_char(t % 10)]
}

/// The human-readable magnitude string for a byte count: bytes verbatim
/// below 1024, then tenths of a KB, MB or GB under the respective bound.
pub open spec fn size_str(n: nat) -> Seq<char> {
    if n < 1024 {
        dec_str(n) + " B"@
    } else if n < 1048576 {
        scaled_str(n, 1024) + " KB"@
    } else if n < 1073741824 {
        scaled_str(n, 1048576) + " MB"@
    } else {
        scaled_str(n, 1073741824) + " GB"@
    }
}

/// The one-character string for a decimal digit.
fn digit_str(d: u64) -> (r: &'static str)
    requires
        d < 10,
    ensures
        r@ == seq![digit_char(d as nat)],
{
    proof {
        reveal_strlit("0");
        reveal_strlit("1");
        reveal_strlit("2");
        reveal_strlit("3");
        reveal_strlit("4");
        reveal_strlit("5");
        reveal_strlit("6");
        reveal_strlit("7");
        reveal_strlit("8");
        reveal_strlit("9");
    }
    let r = if d == 0 {
        "0"
    } else if d == 1 {
        "1"
    } else if d == 2 {
        "2"
    } else if d == 3 {
        "3"
    } else if d == 4 {
        "4"
    } else if d == 5 {
        "5"
    } else if d == 6 {
        "6"
    } else if d == 7 {
        "7"
    } else if d == 8 {
        "8"
    } else {
        "9"
    };
    proof {
        assert(r@ =~= seq![digit_char(d as nat)]);
    }
    r
}

/// Renders a number in decimal, most significant digit first.
fn dec_string(n: u64) -> (s: String)
    ensures
        s@ == dec_str(n as nat),
    decreases n,
{
    if n < 10 {
        String::from_str(digit_str(n))
    } else {
        let mut s = dec_string(n / 10);
        s.append(digit_str(n % 10));
        s
    }
}

/// The displayed tenths of a unit, computed without overflow in 128 bits.
fn round_tenths_exec(n: u64, unit: u64) -> (t: u64)
    requires
        unit >= 1024,
    ensures
        t as nat == round_tenths(n as nat, unit as nat),
{
    let m: u128 = 10 * (n as u128);
    let q: u128 = m / (unit as u128);
    let r: u128 = m % (unit as u128);
    proof {
        lemma_div_is_ordered_by_denominator(m as int, 1024, unit as int);
        lemma_div_is_ordered(m as int, 10 * u64::MAX as int, 1024);
        lemma_mod_bound(m as int, unit as int);
    }
    if 2 * r > unit as u128 {
        (q + 1) as u64
    } else if 2 * r == unit as u128 && q % 2 == 1 {
        (q + 1) as u64
    } else {
        q as u64
    }
}

/// Renders whole units, a dot, and one digit of tenths.
fn scaled_string(n: u64, unit: u64) -> (s: String)
    requires
        unit >= 1024,
    ensures
        s@ == scaled_str(n as nat, unit as nat),
{
    let t = round_tenths_exec(n, unit);
    let mut s = dec_string(t / 10);
    s.append(".");
    s.append(digit_str(t % 10));
    s
}

/// Formats a byte count as a human-readable magnitude string: bytes verbatim
/// below 1024, and above that one decimal place of KB, MB or GB, rounded to
/// the nearest tenth with ties to even.
pub fn format_size(size: &usize) -> (r: String)
    ensures
        r@ == size_str(*size as nat),
{
    let n = *size as u64;
    if n < 1024 {
        let mut s = dec_string(n);
        s.append(" B");
        s
    } else if n < 1048576 {
        let mut s = scaled_string(n, 1024);
        s.append(" KB");
        s
    } else if n < 1073741824 {
        let mut s = scaled_string(n, 1048576);
        s.append(" MB");
        s
    } else {
        let mut s = scaled_string(n, 1073741824);
        s.append(" GB");
        s
    }
}

/// The magnitude that the displayed string denotes, in tenths of a byte: the
/// bytes themselves below 1024, and above that the displayed tenths of a unit
/// times that unit. Each branch reads off the same `round_tenths` value whose
/// digits `size_str` prints.
pub open spec fn displayed_magnitude_x10(n: nat) -> nat {
    if n < 1024 {
        10 * n
    } else if n < 1048576 {
        round_tenths(n, 1024) * 1024
    } else if n < 1073741824 {
        round_tenths(n, 1048576) * 1048576
    } else {
        round_tenths(n, 1073741824) * 1073741824
    }
}

/// Displayed tenths never shrink as the input grows, for a fixed unit.
proof fn lemma_round_tenths_monotone(a: nat, b: nat, unit: nat)
    requires
        unit > 0,
        a <= b,
    ensures
        round_tenths(a, unit) <= round_tenths(b, unit),
{
    let ma = 10 * a;
    let mb = 10 * b;
    lemma_div_is_ordered(ma as int, mb as int, unit as int);
    lemma_fundamental_div_mod(ma as int, unit as int);
    lemma_fundamental_div_mod(mb as int, unit as int);
}

/// A full unit or more is displayed as at least `1.0` of that unit.
proof fn lemma_round_tenths_at_least_one(n: nat, unit: nat)
    requires
        unit > 0,
        n >= unit,
    ensures
        round_tenths(n, unit) >= 10,
{
    lemma_div_by_multiple(10, unit as int);
    lemma_div_is_ordered(10 * unit as int, 10 * n as int, unit as int);
}

/// Below 1024 units the display stays at or below `1024.0` of the unit.
proof fn lemma_round_tenths_below_kilo(n: nat, unit: nat)
    requires
        unit > 0,
        n < 1024 * unit,
    ensures
        round_tenths(n, unit) <= 10240,
{
    assert(10 * n < (unit as int) * 10240) by {
        lemma_mul_inequality(10240, 10240, unit as int);
    }
    lemma_multiply_divide_lt(10 * n as int, unit as int, 10240);
}

/// The displayed magnitude is monotonic as the byte count grows: a larger
/// input never shows a smaller magnitude, within a unit tier or across the
/// boundary into the next one.
pub proof fn lemma_displayed_magnitude_monotonic(a: nat, b: nat)
    requires
        a <= b,
    ensures
        displayed_magnitude_x10(a) <= displayed_magnitude_x10(b),
{
    if a >= 1024 {
        lemma_round_tenths_at_least_one(a, 1024);
    }
    if a >= 1048576 {
        lemma_round_tenths_at_least_one(a, 1048576);
    }
    if a >= 1073741824 {
        lemma_round_tenths_at_least_one(a, 1073741824);
    }
    if b >= 1024 {
        lemma_round_tenths_at_least_one(b, 1024);
    }
    if b >= 1048576 {
        lemma_round_tenths_at_least_one(b, 1048576);
    }
    if b >= 1073741824 {
        lemma_round_tenths_at_least_one(b, 1073741824);
    }
    if b < 1024 {
        // both in the byte tier
    } else if b < 1048576 {
        if a >= 1024 {
            lemma_round_tenths_monotone(a, b, 1024);
        }
    } else if b < 1073741824 {
        if 1024 <= a && a < 1048576 {
            lemma_round_tenths_below_kilo(a, 1024);
        } else if a >= 1048576 {
            lemma_round_tenths_monotone(a, b, 1048576);
        }
    } else {
        if 1024 <= a && a < 1048576 {
            lemma_round_tenths_below_kilo(a, 1024);
        } else if 1048576 <= a && a < 1073741824 {
            lemma_round_tenths_below_kilo(a, 1048576);
        } else if a >= 1073741824 {
            lemma_round_tenths_monotone(a, b, 1073741824);
        }
    }
}

} // verus!
