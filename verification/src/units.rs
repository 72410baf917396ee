//! Human-readable byte counts ("512 B", "1.50 KB", ...).

use vstd::arithmetic::power2::pow2;
use vstd::prelude::*;

verus! {

/// The character of a decimal digit.
pub open spec fn digit_char(d: nat) -> char {
    if d == 0 { '0' }
    else if d == 1 { '1' }
    else if d == 2 { '2' }
    else if d == 3 { '3' }
    else if d == 4 { '4' }
    else if d == 5 { '5' }
    else if d == 6 { '6' }
    else if d == 7 { '7' }
    else if d == 8 { '8' }
    else { '9' }
}

/// Decimal rendering of a natural number, without leading zeros ("0" for zero),
/// as `{}` prints an unsigned integer.
pub open spec fn decimal(n: nat) -> Seq<char>
    decreases n,
{
    if n < 10 {
        seq![digit_char(n)]
    } else {
        decimal(n / 10).push(digit_char(n % 10))
    }
}

/// The number that a string of decimal digits denotes, most significant first.
pub open spec fn digits_value(s: Seq<char>) -> nat
    decreases s.len(),
{
    if s.len() == 0 {
        0
    } else {
        digits_value(s.drop_last()) * 10 + (s.last() as int - 48) as nat
    }
}

/// Digit characters are the ASCII digits: `d` is the character with code
/// `48 + d`.
pub proof fn lemma_digit_char_is_ascii(d: nat)
    requires
        d < 10,
    ensures
        digit_char(d) as int == 48 + d,
{
}

/// The decimal rendering of `n` is made of ASCII digits, has no leading zero
/// (unless `n` is 0, rendered "0"), and reads back as `n`.
pub proof fn lemma_decimal_reads_back(n: nat)
    ensures
        digits_value(decimal(n)) == n,
        decimal(n).len() >= 1,
        forall|i: int| 0 <= i < decimal(n).len() ==> 48 <= (#[trigger] decimal(n)[i]) as int <= 57,
        decimal(n)[0] == '0' ==> n == 0,
    decreases n,
{
    if n < 10 {
        lemma_digit_char_is_ascii(n);
        assert(decimal(n).drop_last() =~= Seq::<char>::empty());
        assert(decimal(n).last() == digit_char(n));
        assert(digits_value(Seq::<char>::empty()) == 0);
    } else {
        lemma_decimal_reads_back(n / 10);
        lemma_digit_char_is_ascii(n % 10);
        let d = decimal(n / 10);
        assert(decimal(n).drop_last() =~= d);
        assert(decimal(n).last() == digit_char(n % 10));
        vstd::arithmetic::div_mod::lemma_fundamental_div_mod(n as int, 10);
        assert(digits_value(decimal(n)) == digits_value(d) * 10 + (decimal(n).last() as int - 48) as nat);
        assert forall|i: int| 0 <= i < decimal(n).len() implies 48 <= (#[trigger] decimal(n)[i]) as int <= 57 by {
            if i < d.len() {
                assert(decimal(n)[i] == d[i]);
            }
        }
        assert(decimal(n)[0] == d[0]);
    }
}

/// The units are named B, KB, MB, GB, TB and PB.
pub proof fn lemma_unit_names()
    ensures
        unit_suffix(0) == "B"@,
        unit_suffix(1) == "KB"@,
        unit_suffix(2) == "MB"@,
        unit_suffix(3) == "GB"@,
        unit_suffix(4) == "TB"@,
        unit_suffix(5) == "PB"@,
{
    reveal_strlit("B");
    reveal_strlit("KB");
    reveal_strlit("MB");
    reveal_strlit("GB");
    reveal_strlit("TB");
    reveal_strlit("PB");
    assert(unit_suffix(0) =~= "B"@);
    assert(unit_suffix(1) =~= "KB"@);
    assert(unit_suffix(2) =~= "MB"@);
    assert(unit_suffix(3) =~= "GB"@);
    assert(unit_suffix(4) =~= "TB"@);
    assert(unit_suffix(5) =~= "PB"@);
}

fn digit_str(d: u128) -> (s: &'static str)
    requires
        d < 10,
    ensures
        s@ == seq![digit_char(d as nat)],
{
    if d == 0 {
        proof { reveal_strlit("0"); }
        "0"
    } else if d == 1 {
        proof { reveal_strlit("1"); }
        "1"
    } else if d == 2 {
        proof { reveal_strlit("2"); }
        "2"
    } else if d == 3 {
        proof { reveal_strlit("3"); }
        "3"
    } else if d == 4 {
        proof { reveal_strlit("4"); }
        "4"
    } else if d == 5 {
        proof { reveal_strlit("5"); }
        "5"
    } else if d == 6 {
        proof { reveal_strlit("6"); }
        "6"
    } else if d == 7 {
        proof { reveal_strlit("7"); }
        "7"
    } else if d == 8 {
        proof { reveal_strlit("8"); }
        "8"
    } else {
        proof { reveal_strlit("9"); }
        "9"
    }
}

/// Appends the decimal rendering of `n` to `out`.
fn push_decimal(out: &mut String, n: u128)
    ensures
        final(out)@ == old(out)@ + decimal(n as nat),
    decreases n,
{
    if n >= 10 {
        push_decimal(out, n / 10);
    }
    out.append(digit_str(n % 10));
    proof {
        if n < 10 {
            assert(n % 10 == n);
        }
    }
}


/// `1024^k`: the size of the `k`-th binary unit in bytes.
pub open spec fn pow1024(k: nat) -> nat
    decreases k,
{
    if k == 0 { 1 } else { 1024 * pow1024((k - 1) as nat) }
}

/// `num / den` rounded to the nearest integer, ties to the even one.
pub open spec fn round_half_even(num: nat, den: nat) -> nat {
    let q = num / den;
    let r = num % den;
    if 2 * r > den || (2 * r == den && q % 2 == 1) { q + 1 } else { q }
}

/// How many low bits of `v` an `f64` (53-bit significand) cannot hold.
pub open spec fn f64_dropped_bits(v: nat) -> nat
    decreases v,
{
    if v < 0x20_0000_0000_0000 { 0 } else { 1 + f64_dropped_bits(v / 2) }
}

/// The value of `v as f64`: `v` rounded to the nearest number with a 53-bit
/// significand, ties to an even significand.
pub open spec fn f64_value(v: nat) -> nat {
    let p = pow2(f64_dropped_bits(v));
    round_half_even(v, p) * p
}

/// Index of the largest unit (B, KB, MB, GB, TB, PB) that is at most `b`
/// bytes, or 0 when `b` is under 1 KB.
pub open spec fn unit_index(b: nat) -> nat {
    if b < 0x400 { 0 }
    else if b < 0x10_0000 { 1 }
    else if b < 0x4000_0000 { 2 }
    else if b < 0x100_0000_0000 { 3 }
    else if b < 0x4_0000_0000_0000 { 4 }
    else { 5 }
}

/// The name of unit `i`.
pub open spec fn unit_suffix(i: nat) -> Seq<char> {
    if i == 0 { seq!['B'] }
    else if i == 1 { seq!['K', 'B'] }
    else if i == 2 { seq!['M', 'B'] }
    else if i == 3 { seq!['G', 'B'] }
    else if i == 4 { seq!['T', 'B'] }
    else { seq!['P', 'B'] }
}

/// The size of `b` bytes in unit `unit_index(b)`, in hundredths, rounded as
/// `{:.2}` rounds the `f64` quotient (ties to even).
pub open spec fn hundredths(b: nat) -> nat {
    round_half_even(f64_value(b) * 100, pow1024(unit_index(b)))
}

/// What `format_bytes(b)` prints: whole bytes as "{b} B"; otherwise the size
/// in the largest fitting unit up to PB with two decimals, e.g. "1.50 KB".
pub open spec fn format_bytes_spec(b: nat) -> Seq<char> {
    let i = unit_index(b);
    if i == 0 {
        decimal(b) + seq![' ', 'B']
    } else {
        let h = hundredths(b);
        decimal(h / 100) + seq!['.', digit_char((h % 100) / 10), digit_char(h % 10), ' ']
            + unit_suffix(i)
    }
}

/// Rounding to the nearest integer is off by at most half a unit.
pub proof fn lemma_round_half_even_error(num: nat, den: nat)
    requires
        den > 0,
    ensures
        2 * (round_half_even(num, den) * den - num) <= den,
        2 * (num - round_half_even(num, den) * den) <= den,
{
    let q = num / den;
    let r = num % den;
    vstd::arithmetic::div_mod::lemma_fundamental_div_mod(num as int, den as int);
    assert((q + 1) * den == q * den + den) by (nonlinear_arith);
    assert(q * den == den * q) by (nonlinear_arith);
}

/// The unit is the largest of KB..PB that `b` reaches: bytes below 1 KB are
/// shown as bytes, and below 1024 PB a count is shown in unit `i` exactly when
/// `1024^i <= b < 1024^(i + 1)`.
pub proof fn lemma_unit_choice(b: nat)
    ensures
        unit_index(b) == 0 <==> b < 1024,
        unit_index(b) <= 5,
        unit_index(b) >= 1 ==> pow1024(unit_index(b)) <= b,
        unit_index(b) < 5 ==> b < pow1024(unit_index(b) + 1),
{
    reveal_with_fuel(pow1024, 7);
}

/// Below 2^53 a byte count converts to `f64` exactly, so the number shown is
/// the count in the chosen unit rounded to the nearest hundredth: it is off by
/// at most half a hundredth of the unit.
pub proof fn lemma_shown_size_is_nearest(b: nat)
    requires
        b < 0x20_0000_0000_0000,
    ensures
        f64_value(b) == b,
        unit_index(b) >= 1 ==> 2 * (hundredths(b) * pow1024(unit_index(b)) - 100 * b) <= pow1024(unit_index(b)),
        unit_index(b) >= 1 ==> 2 * (100 * b - hundredths(b) * pow1024(unit_index(b))) <= pow1024(unit_index(b)),
{
    vstd::arithmetic::power2::lemma2_to64();
    assert(f64_dropped_bits(b) == 0);
    assert(round_half_even(b, 1) == b);
    lemma_unit_choice(b);
    reveal_with_fuel(pow1024, 7);
    lemma_round_half_even_error(100 * b, pow1024(unit_index(b)));
}

fn round_div_half_even(num: u128, den: u128) -> (r: u128)
    requires
        0 < den < 0x1_0000_0000_0000_0000_0000,
        num < 0x1_0000_0000_0000_0000_0000_0000,
    ensures
        r == round_half_even(num as nat, den as nat),
{
    let q = num / den;
    let rem = num % den;
    if 2 * rem > den || (2 * rem == den && q % 2 == 1) {
        q + 1
    } else {
        q
    }
}

/// The value of `v as f64`, as an integer.
fn f64_nearest(v: u128) -> (f: u128)
    requires
        v < 0x1_0000_0000_0000_0000,
    ensures
        f == f64_value(v as nat),
        f <= 0x2_0000_0000_0000_0000,
{
    let mut w = v;
    let mut p: u128 = 1;
    let ghost mut k: nat = 0;
    proof {
        vstd::arithmetic::power2::lemma2_to64();
    }
    while w >= 0x20_0000_0000_0000
        invariant
            v < 0x1_0000_0000_0000_0000,
            p > 0,
            p == pow2(k),
            w == v / p,
            p <= 0x1000,
            f64_dropped_bits(v as nat) == k + f64_dropped_bits(w as nat),
        decreases w,
    {
        proof {
            vstd::arithmetic::div_mod::lemma_div_denominator(v as int, p as int, 2);
            assert(p * 0x20_0000_0000_0000 <= v) by {
                vstd::arithmetic::div_mod::lemma_fundamental_div_mod(v as int, p as int);
                vstd::arithmetic::mul::lemma_mul_inequality(0x20_0000_0000_0000, w as int, p as int);
            }
        }
        w = w / 2;
        p = p * 2;
        proof {
            k = k + 1;
            vstd::arithmetic::power2::lemma_pow2_unfold(k);
        }
    }
    let q = round_div_half_even(v, p);
    proof {
        assert(q <= w + 1);
        vstd::arithmetic::mul::lemma_mul_inequality(q as int, 0x20_0000_0000_0000, p as int);
        vstd::arithmetic::mul::lemma_mul_inequality(p as int, 0x1000, 0x20_0000_0000_0000);
    }
    q * p
}

/// Renders a byte count for display: "{bytes} B" below 1 KB, otherwise the
/// count in KB, MB, GB, TB or PB (powers of 1024) with two decimals.
pub fn format_bytes(bytes: usize) -> (s: String)
    ensures
        s@ == format_bytes_spec(bytes as nat),
{
    let v = bytes as u128;
    let i: u128 = if v < 0x400 { 0 }
        else if v < 0x10_0000 { 1 }
        else if v < 0x4000_0000 { 2 }
        else if v < 0x100_0000_0000 { 3 }
        else if v < 0x4_0000_0000_0000 { 4 }
        else { 5 };
    let mut out = String::new();
    if i == 0 {
        push_decimal(&mut out, v);
        proof { reveal_strlit(" B"); }
        out.append(" B");
        return out;
    }
    let (unit, suffix): (u128, &str) = if i == 1 {
        proof { reveal_strlit("KB"); reveal_with_fuel(pow1024, 2); }
        (0x400, "KB")
    } else if i == 2 {
        proof { reveal_strlit("MB"); reveal_with_fuel(pow1024, 3); }
        (0x10_0000, "MB")
    } else if i == 3 {
        proof { reveal_strlit("GB"); reveal_with_fuel(pow1024, 4); }
        (0x4000_0000, "GB")
    } else if i == 4 {
        proof { reveal_strlit("TB"); reveal_with_fuel(pow1024, 5); }
        (0x100_0000_0000, "TB")
    } else {
        proof { reveal_strlit("PB"); reveal_with_fuel(pow1024, 6); }
        (0x4_0000_0000_0000, "PB")
    };
    assert(unit == pow1024(i as nat));
    let f = f64_nearest(v);
    let h = round_div_half_even(f * 100, unit);
    push_decimal(&mut out, h / 100);
    proof { reveal_strlit("."); reveal_strlit(" "); }
    out.append(".");
    out.append(digit_str((h % 100) / 10));
    out.append(digit_str(h % 10));
    out.append(" ");
    out.append(suffix);
    proof {
        assert(out@ =~= format_bytes_spec(bytes as nat));
    }
    out
}

} // verus!
