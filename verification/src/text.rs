//! Decimal and hexadecimal text for integers and fixed-point numbers.
//!
//! Every number that ends up in markup goes through this module, so the
//! exact characters produced are part of each function's contract.
use vstd::prelude::*;

verus! {

/// The text of one decimal digit; `d` is expected to be below ten.
pub open spec fn digit_text(d: nat) -> Seq<char> {
    if d == 0 {
        "0"@
    } else if d == 1 {
        "1"@
    } else if d == 2 {
        "2"@
    } else if d == 3 {
        "3"@
    } else if d == 4 {
        "4"@
    } else if d == 5 {
        "5"@
    } else if d == 6 {
        "6"@
    } else if d == 7 {
        "7"@
    } else if d == 8 {
        "8"@
    } else {
        "9"@
    }
}

/// The text of one lower-case hexadecimal digit; `d` is expected to be below sixteen.
pub open spec fn hex_digit_text(d: nat) -> Seq<char> {
    if d < 10 {
        digit_text(d)
    } else if d == 10 {
        "a"@
    } else if d == 11 {
        "b"@
    } else if d == 12 {
        "c"@
    } else if d == 13 {
        "d"@
    } else if d == 14 {
        "e"@
    } else {
        "f"@
    }
}

/// A byte as exactly two lower-case hexadecimal digits.
pub open spec fn hex_byte_text(b: u8) -> Seq<char> {
    hex_digit_text((b / 16) as nat) + hex_digit_text((b % 16) as nat)
}

/// A natural number in decimal, without leading zeros.
pub open spec fn nat_text(n: nat) -> Seq<char>
    decreases n,
{
    if n < 10 {
        digit_text(n)
    } else {
        nat_text(n / 10) + digit_text(n % 10)
    }
}

/// An integer in decimal, with a leading minus sign when negative.
pub open spec fn int_text(v: int) -> Seq<char> {
    if v < 0 {
        "-"@ + nat_text((-v) as nat)
    } else {
        nat_text(v as nat)
    }
}

/// The last `width` decimal digits of `n`, padded with leading zeros.
pub open spec fn padded_text(n: nat, width: nat) -> Seq<char>
    decreases width,
{
    if width == 0 {
        Seq::empty()
    } else {
        padded_text(n / 10, (width - 1) as nat) + digit_text(n % 10)
    }
}

/// Ten to the power `e`.
pub open spec fn pow10(e: nat) -> nat
    decreases e,
{
    if e == 0 {
        1
    } else {
        10 * pow10((e - 1) as nat)
    }
}

/// The shortest decimal text of the fraction `m / 10^places`: trailing zeros
/// of the fractional part are dropped, and so is the point when nothing
/// follows it.
pub open spec fn fixed_nat_text(m: nat, places: nat) -> Seq<char>
    decreases places,
{
    if places == 0 {
        nat_text(m)
    } else if m % 10 == 0 {
        fixed_nat_text(m / 10, (places - 1) as nat)
    } else {
        nat_text(m / pow10(places)) + "."@ + padded_text(m % pow10(places), places)
    }
}

/// The shortest decimal text of the signed fraction `v / 10^places`.
pub open spec fn fixed_text(v: int, places: nat) -> Seq<char> {
    if v < 0 {
        "-"@ + fixed_nat_text((-v) as nat, places)
    } else {
        fixed_nat_text(v as nat, places)
    }
}

/// `h / 100` written with exactly two digits after the point.
pub open spec fn hundredths_text(h: nat) -> Seq<char> {
    nat_text(h / 100) + "."@ + padded_text(h % 100, 2)
}

pub proof fn lemma_pow10_positive(e: nat)
    ensures
        pow10(e) > 0,
    decreases e,
{
    if e > 0 {
        lemma_pow10_positive((e - 1) as nat);
    }
}

pub proof fn lemma_pow10_monotonic(a: nat, b: nat)
    requires
        a <= b,
    ensures
        pow10(a) <= pow10(b),
    decreases b - a,
{
    if a < b {
        lemma_pow10_monotonic(a, (b - 1) as nat);
    }
}

fn digit_str(d: u8) -> (s: &'static str)
    requires
        d < 10,
    ensures
        s@ == digit_text(d as nat),
{
    if d == 0 {
        "0"
    } else if d == 1 {
        "1"
    } else if d == 2 {
        "2"
    } else if d == 3 {
        "3"
    } else if d == 4 {
        "4"
    } else if d == 5 {
        "5"
    } else if d == 6 {
        "6"
    } else if d == 7 {
        "7"
    } else if d == 8 {
        "8"
    } else {
        "9"
    }
}

fn hex_digit_str(d: u8) -> (s: &'static str)
    requires
        d < 16,
    ensures
        s@ == hex_digit_text(d as nat),
{
    if d < 10 {
        digit_str(d)
    } else if d == 10 {
        "a"
    } else if d == 11 {
        "b"
    } else if d == 12 {
        "c"
    } else if d == 13 {
        "d"
    } else if d == 14 {
        "e"
    } else {
        "f"
    }
}

/// Appends a byte as two lower-case hexadecimal digits.
pub fn push_hex_byte(out: &mut String, b: u8)
    ensures
        final(out)@ == old(out)@ + hex_byte_text(b),
{
    out.append(hex_digit_str(b / 16));
    out.append(hex_digit_str(b % 16));
    assert(out@ =~= old(out)@ + hex_byte_text(b));
}

/// Appends a natural number in decimal.
pub fn push_nat(out: &mut String, n: u64)
    ensures
        final(out)@ == old(out)@ + nat_text(n as nat),
    decreases n,
{
    if n >= 10 {
        push_nat(out, n / 10);
    }
    out.append(digit_str((n % 10) as u8));
    assert(out@ =~= old(out)@ + nat_text(n as nat));
}

/// Appends a signed integer in decimal.
pub fn push_int(out: &mut String, v: i64)
    ensures
        final(out)@ == old(out)@ + int_text(v as int),
{
    if v < 0 {
        out.append("-");
        let m: u64 = if v == i64::MIN {
            9223372036854775808u64
        } else {
            (-v) as u64
        };
        push_nat(out, m);
        assert(out@ =~= old(out)@ + int_text(v as int));
    } else {
        push_nat(out, v as u64);
    }
}

/// Appends the last `width` decimal digits of `n`, zero-padded.
pub fn push_padded(out: &mut String, n: u64, width: u8)
    ensures
        final(out)@ == old(out)@ + padded_text(n as nat, width as nat),
    decreases width,
{
    if width > 0 {
        push_padded(out, n / 10, width - 1);
        out.append(digit_str((n % 10) as u8));
    }
    assert(out@ =~= old(out)@ + padded_text(n as nat, width as nat));
}

/// Ten to the power `e`, for exponents whose power fits in 64 bits.
pub fn pow10_u64(e: u8) -> (p: u64)
    requires
        e <= 18,
    ensures
        p == pow10(e as nat),
        p <= 1_000_000_000_000_000_000,
{
    proof {
        lemma_pow10_monotonic(e as nat, 18);
        assert(pow10(18) == 1_000_000_000_000_000_000) by {
            reveal_with_fuel(pow10, 20);
        }
    }
    let mut p: u64 = 1;
    let mut i: u8 = 0;
    while i < e
        invariant
            i <= e,
            e <= 18,
            p == pow10(i as nat),
            p * pow10((e - i) as nat) == pow10(e as nat),
            pow10(e as nat) <= 1_000_000_000_000_000_000,
        decreases e - i,
    {
        proof {
            lemma_pow10_positive((e - i - 1) as nat);
            assert(p * pow10((e - i) as nat) == (p * 10) * pow10((e - i - 1) as nat))
                by (nonlinear_arith)
                requires
                    pow10((e - i) as nat) == 10 * pow10((e - i - 1) as nat),
            ;
            assert(p * 10 <= pow10(e as nat)) by (nonlinear_arith)
                requires
                    (p * 10) * pow10((e - i - 1) as nat) == pow10(e as nat),
                    pow10((e - i - 1) as nat) > 0,
            ;
        }
        p = p * 10;
        i = i + 1;
    }
    p
}

/// Appends the shortest decimal text of `m / 10^places`.
pub fn push_fixed_nat(out: &mut String, m: u64, places: u8)
    requires
        places <= 18,
    ensures
        final(out)@ == old(out)@ + fixed_nat_text(m as nat, places as nat),
{
    let mut rest = m;
    let mut left = places;
    while left > 0 && rest % 10 == 0
        invariant
            left <= 18,
            fixed_nat_text(rest as nat, left as nat) == fixed_nat_text(m as nat, places as nat),
        decreases left,
    {
        rest = rest / 10;
        left = left - 1;
    }
    if left == 0 {
        push_nat(out, rest);
    } else {
        let p = pow10_u64(left);
        proof {
            lemma_pow10_positive(left as nat);
        }
        push_nat(out, rest / p);
        out.append(".");
        push_padded(out, rest % p, left);
        assert(out@ =~= old(out)@ + fixed_nat_text(rest as nat, left as nat));
    }
}

/// Appends the shortest decimal text of the signed fraction `v / 10^places`.
pub fn push_fixed(out: &mut String, v: i64, places: u8)
    requires
        places <= 18,
    ensures
        final(out)@ == old(out)@ + fixed_text(v as int, places as nat),
{
    if v < 0 {
        out.append("-");
        let m: u64 = if v == i64::MIN {
            9223372036854775808u64
        } else {
            (-v) as u64
        };
        push_fixed_nat(out, m, places);
        assert(out@ =~= old(out)@ + fixed_text(v as int, places as nat));
    } else {
        push_fixed_nat(out, v as u64, places);
    }
}

/// Appends `h / 100` with exactly two digits after the point.
pub fn push_hundredths(out: &mut String, h: u64)
    ensures
        final(out)@ == old(out)@ + hundredths_text(h as nat),
{
    push_nat(out, h / 100);
    out.append(".");
    push_padded(out, h % 100, 2);
    assert(out@ =~= old(out)@ + hundredths_text(h as nat));
}

} // verus!
