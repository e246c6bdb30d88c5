use crate::text::{
    concat, concat3, decimal_text, digit_char, repeat, repeated, u128_to_string, u64_to_string,
};
use vstd::prelude::*;

verus! {

/// Ten to the power of `p`.
pub open spec fn power_of_ten(p: nat) -> nat
    decreases p,
{
    if p == 0 {
        1
    } else {
        10 * power_of_ten((p - 1) as nat)
    }
}

/// `num` divided by `den` and rounded to the nearest whole number; a value half
/// way between two whole numbers goes to the even one.
pub open spec fn rounded_quotient(num: nat, den: nat) -> nat {
    let q = num / den;
    let r = num % den;
    if 2 * r > den || (2 * r == den && q % 2 == 1) {
        q + 1
    } else {
        q
    }
}

/// The step between the numbers near `n` that have fifty-three binary digits:
/// one for a number below two to the power of fifty-three.
pub open spec fn double_unit(n: nat) -> nat
    decreases n,
{
    if n < 0x20_0000_0000_0000 {
        1
    } else {
        2 * double_unit(n / 2)
    }
}

/// The number of fifty-three binary digits that is nearest to `n`: what a count
/// of bytes becomes when it is taken as a double-precision number.
pub open spec fn as_double(n: nat) -> nat {
    rounded_quotient(n, double_unit(n)) * double_unit(n)
}

/// The digits `s` with zeros before them that bring them to `width` digits.
pub open spec fn zero_padded(s: Seq<char>, width: nat) -> Seq<char> {
    if s.len() >= width {
        s
    } else {
        repeated("0"@, (width - s.len()) as nat) + s
    }
}

/// The number `q / 10^p` written with `p` digits behind the point, and without a
/// point where `p` is zero.
pub open spec fn fixed_text(q: nat, p: nat) -> Seq<char> {
    decimal_text(q / power_of_ten(p)) + if p > 0 {
        "."@ + zero_padded(decimal_text(q % power_of_ten(p)), p)
    } else {
        seq![]
    }
}

/// A count of bytes in units of `unit` bytes, with `precision` digits behind the
/// point: the count is taken as a double-precision number, and the quotient is
/// rounded to the nearest number that can be so written.
pub open spec fn in_units(bytes: u64, unit: nat, precision: nat) -> Seq<char> {
    fixed_text(rounded_quotient(as_double(bytes as nat) * power_of_ten(precision), unit), precision)
}

/// A count of bytes for a reader: in the largest of the units GB, MB and KB that
/// it reaches, and in bytes below that; with the count itself behind it where
/// that is asked for.
pub open spec fn bytes_text(bytes: u64, precision: nat, show_original: bool) -> Seq<char> {
    let original = " ("@ + decimal_text(bytes as nat) + " bytes)"@;
    if bytes >= 0x4000_0000 {
        in_units(bytes, 0x4000_0000, precision) + " GB"@ + if show_original {
            original
        } else {
            seq![]
        }
    } else if bytes >= 0x10_0000 {
        in_units(bytes, 0x10_0000, precision) + " MB"@ + if show_original {
            original
        } else {
            seq![]
        }
    } else if bytes >= 0x400 {
        in_units(bytes, 0x400, precision) + " KB"@ + if show_original {
            original
        } else {
            seq![]
        }
    } else if show_original {
        decimal_text(bytes as nat) + " bytes"@
    } else {
        decimal_text(bytes as nat) + " B"@
    }
}

/// Ten to the power of `p`, for a power that fits.
fn ten_to(p: usize) -> (r: u128)
    requires
        p <= 30,
    ensures
        r == power_of_ten(p as nat),
        1 <= r <= 1_000_000_000_000_000_000_000_000_000_000,
        p <= 29 ==> r <= 100_000_000_000_000_000_000_000_000_000,
        p >= 1 ==> r % 2 == 0,
{
    reveal_with_fuel(power_of_ten, 32);
    match p {
        0 => 1,
        1 => 10,
        2 => 100,
        3 => 1_000,
        4 => 10_000,
        5 => 100_000,
        6 => 1_000_000,
        7 => 10_000_000,
        8 => 100_000_000,
        9 => 1_000_000_000,
        10 => 10_000_000_000,
        11 => 100_000_000_000,
        12 => 1_000_000_000_000,
        13 => 10_000_000_000_000,
        14 => 100_000_000_000_000,
        15 => 1_000_000_000_000_000,
        16 => 10_000_000_000_000_000,
        17 => 100_000_000_000_000_000,
        18 => 1_000_000_000_000_000_000,
        19 => 10_000_000_000_000_000_000,
        20 => 100_000_000_000_000_000_000,
        21 => 1_000_000_000_000_000_000_000,
        22 => 10_000_000_000_000_000_000_000,
        23 => 100_000_000_000_000_000_000_000,
        24 => 1_000_000_000_000_000_000_000_000,
        25 => 10_000_000_000_000_000_000_000_000,
        26 => 100_000_000_000_000_000_000_000_000,
        27 => 1_000_000_000_000_000_000_000_000_000,
        28 => 10_000_000_000_000_000_000_000_000_000,
        29 => 100_000_000_000_000_000_000_000_000_000,
        _ => 1_000_000_000_000_000_000_000_000_000_000,
    }
}

/// Divides and rounds to the nearest whole number, a half to the even one.
fn divide_rounded(num: u128, den: u128) -> (r: u128)
    requires
        den > 0,
        den <= 0x4000_0000,
        num < u128::MAX,
    ensures
        r == rounded_quotient(num as nat, den as nat),
{
    let q = num / den;
    let rem = num % den;
    if 2 * rem > den || (2 * rem == den && q % 2 == 1) {
        q + 1
    } else {
        q
    }
}

/// A power of ten is above zero, and even but for the power of zero.
proof fn lemma_power_of_ten(p: nat)
    ensures
        power_of_ten(p) > 0,
        p >= 1 ==> power_of_ten(p) % 2 == 0,
    decreases p,
{
    if p > 0 {
        lemma_power_of_ten((p - 1) as nat);
        assert((10 * power_of_ten((p - 1) as nat)) % 2 == 0) by (nonlinear_arith);
    }
}

/// The power of a sum is the product of the powers.
proof fn lemma_power_of_sum(a: nat, b: nat)
    ensures
        power_of_ten(a + b) == power_of_ten(a) * power_of_ten(b),
    decreases a,
{
    if a == 0 {
        assert(power_of_ten(0) == 1);
        assert(1 * power_of_ten(b) == power_of_ten(b)) by (nonlinear_arith);
    } else {
        lemma_power_of_sum((a - 1) as nat, b);
        assert(10 * (power_of_ten((a - 1) as nat) * power_of_ten(b)) == (10 * power_of_ten(
            (a - 1) as nat,
        )) * power_of_ten(b)) by (nonlinear_arith);
    }
}

/// The rounded quotient of a number scaled by an even factor is that of its
/// whole units, scaled, and that of what is left of it; the latter does not
/// exceed the factor.
proof fn lemma_split_quotient(m: nat, unit: nat, scale: nat)
    requires
        unit > 0,
        scale > 0,
        scale % 2 == 0,
    ensures
        rounded_quotient(m * scale, unit) == (m / unit) * scale + rounded_quotient(
            (m % unit) * scale,
            unit,
        ),
        rounded_quotient((m % unit) * scale, unit) <= scale,
{
    let w = m / unit;
    let r = m % unit;
    let q2 = (r * scale) / unit;
    let r2 = (r * scale) % unit;
    vstd::arithmetic::div_mod::lemma_fundamental_div_mod(m as int, unit as int);
    vstd::arithmetic::div_mod::lemma_fundamental_div_mod((r * scale) as int, unit as int);
    assert(m * scale == (w * scale + q2) * unit + r2) by (nonlinear_arith)
        requires
            m == unit * w + r,
            r * scale == unit * q2 + r2,
    ;
    vstd::arithmetic::div_mod::lemma_fundamental_div_mod_converse(
        (m * scale) as int,
        unit as int,
        (w * scale + q2) as int,
        r2 as int,
    );
    let h = scale / 2;
    assert(w * scale == 2 * (w * h)) by (nonlinear_arith)
        requires
            scale == 2 * h,
    ;
    assert((w * scale + q2) % 2 == q2 % 2);
    assert(q2 < scale) by (nonlinear_arith)
        requires
            r < unit,
            r * scale == unit * q2 + r2,
            r2 >= 0,
            unit > 0,
            scale > 0,
            q2 >= 0,
            r >= 0,
    ;
}

/// A number of so many whole units and a part below one unit has those for its
/// quotient and its remainder; a part of a whole unit counts as one more.
proof fn lemma_whole_and_part(w: nat, f: nat, scale: nat)
    requires
        scale > 0,
        f <= scale,
    ensures
        (w * scale + f) / scale == if f == scale {
            w + 1
        } else {
            w
        },
        (w * scale + f) % scale == if f == scale {
            0
        } else {
            f
        },
{
    if f == scale {
        assert(w * scale + f == (w + 1) * scale + 0) by (nonlinear_arith)
            requires
                f == scale,
        ;
        vstd::arithmetic::div_mod::lemma_fundamental_div_mod_converse(
            (w * scale + f) as int,
            scale as int,
            (w + 1) as int,
            0,
        );
    } else {
        vstd::arithmetic::div_mod::lemma_fundamental_div_mod_converse(
            (w * scale + f) as int,
            scale as int,
            w as int,
            f as int,
        );
    }
}

/// The rounded quotient of a multiple is the factor.
proof fn lemma_quotient_of_multiple(a: nat, unit: nat)
    requires
        unit > 0,
    ensures
        rounded_quotient(a * unit, unit) == a,
{
    vstd::arithmetic::div_mod::lemma_fundamental_div_mod_converse(
        (a * unit) as int,
        unit as int,
        a as int,
        0,
    );
}

/// So many zeros are so many characters.
proof fn lemma_repeated_len(j: nat)
    ensures
        repeated("0"@, j).len() == j,
    decreases j,
{
    reveal_strlit("0");
    if j > 0 {
        lemma_repeated_len((j - 1) as nat);
    }
}

/// A number above zero, multiplied by a power of ten, is written with as many
/// zeros behind its digits.
proof fn lemma_decimal_of_multiple(n: nat, j: nat)
    requires
        n > 0,
    ensures
        decimal_text(n * power_of_ten(j)) == decimal_text(n) + repeated("0"@, j),
        n * power_of_ten(j) > 0,
    decreases j,
{
    reveal_strlit("0");
    if j == 0 {
        assert(n * power_of_ten(0) == n) by (nonlinear_arith)
            requires
                power_of_ten(0) == 1,
        ;
        assert(decimal_text(n) + repeated("0"@, 0) =~= decimal_text(n));
    } else {
        lemma_decimal_of_multiple(n, (j - 1) as nat);
        let x = n * power_of_ten((j - 1) as nat);
        assert(n * power_of_ten(j) == x * 10) by (nonlinear_arith)
            requires
                power_of_ten(j) == 10 * power_of_ten((j - 1) as nat),
                x == n * power_of_ten((j - 1) as nat),
        ;
        assert((x * 10) / 10 == x && (x * 10) % 10 == 0) by (nonlinear_arith)
            requires
                x > 0,
        ;
        assert(decimal_text(x * 10) == decimal_text(x).push(digit_char(0)));
        assert(digit_char(0) == '0');
        assert(decimal_text(x).push('0') =~= decimal_text(n) + (repeated("0"@, (j - 1) as nat)
            + "0"@));
    }
}

/// The count of bytes as a double-precision number.
fn to_double(bytes: u64) -> (r: u128)
    ensures
        r == as_double(bytes as nat),
        r <= 0x2_0000_0000_0000_0000,
{
    let mut t: u64 = bytes;
    let mut unit: u64 = 1;
    while t >= 0x20_0000_0000_0000
        invariant
            unit >= 1,
            unit * t <= bytes,
            unit > 1 ==> t >= 0x10_0000_0000_0000,
            double_unit(bytes as nat) == unit * double_unit(t as nat),
        decreases t,
    {
        assert(unit * 0x20_0000_0000_0000 <= unit * t) by (nonlinear_arith)
            requires
                t >= 0x20_0000_0000_0000,
                unit >= 1,
        ;
        assert((2 * unit) * (t / 2) <= unit * t) by (nonlinear_arith)
            requires
                unit >= 1,
                t >= 0,
        ;
        assert(unit * (2 * double_unit((t / 2) as nat)) == (2 * unit) * double_unit(
            (t / 2) as nat,
        )) by (nonlinear_arith);
        t = t / 2;
        unit = unit * 2;
    }
    assert(double_unit(t as nat) == 1);
    assert(double_unit(bytes as nat) == unit) by (nonlinear_arith)
        requires
            double_unit(bytes as nat) == unit * double_unit(t as nat),
            double_unit(t as nat) == 1,
    ;
    assert(unit <= 0xFFF) by (nonlinear_arith)
        requires
            unit * t <= bytes,
            bytes <= 0xFFFF_FFFF_FFFF_FFFF,
            unit >= 1,
            unit > 1 ==> t >= 0x10_0000_0000_0000,
    ;
    let q = divide_rounded(bytes as u128, unit as u128);
    assert(q <= (bytes as int) / (unit as int) + 1);
    assert(q * unit <= bytes + unit) by (nonlinear_arith)
        requires
            q <= (bytes as int) / (unit as int) + 1,
            unit >= 1,
            bytes >= 0,
            q >= 0,
    ;
    q * (unit as u128)
}

/// The digits of `n` with zeros before them that bring them to `width` digits.
fn pad_zeros(n: u128, width: usize) -> (r: String)
    ensures
        r@ == zero_padded(decimal_text(n as nat), width as nat),
{
    let digits = u128_to_string(n);
    let len = digits.as_str().unicode_len();
    if len >= width {
        digits
    } else {
        let zeros = repeat("0", width - len);
        concat(zeros.as_str(), digits.as_str())
    }
}

/// Whether a number of bytes is one of the three units.
pub open spec fn is_unit(unit: nat) -> bool {
    unit == 0x400 || unit == 0x10_0000 || unit == 0x4000_0000
}

/// The digits behind the point of a part of a unit, where at least thirty are
/// asked for: thirty digits write a part of any of the units exactly, and zeros
/// follow them.
fn long_part(rem: u128, unit: u128, precision: usize) -> (r: String)
    requires
        is_unit(unit as nat),
        rem < unit,
        precision >= 30,
    ensures
        r@ == zero_padded(
            decimal_text(
                rounded_quotient((rem * power_of_ten(precision as nat)) as nat, unit as nat)
                    % power_of_ten(precision as nat),
            ),
            precision as nat,
        ),
        rounded_quotient((rem * power_of_ten(precision as nat)) as nat, unit as nat)
            < power_of_ten(precision as nat),
{
    let tens = ten_to(30);
    let c = tens / unit;
    assert(c * unit == tens && c <= 976_562_500_000_000_000_000_000_000) by {
        reveal_with_fuel(power_of_ten, 32);
    }
    assert(rem * c < tens) by (nonlinear_arith)
        requires
            rem < unit,
            c * unit == tens,
            c > 0,
    ;
    let g = rem * c;
    let ghost j = (precision - 30) as nat;
    let ghost scale = power_of_ten(precision as nat);
    let ghost f = g as nat * power_of_ten(j);
    proof {
        lemma_power_of_sum(30, j);
        lemma_power_of_ten(j);
        assert(rem * scale == f * unit) by (nonlinear_arith)
            requires
                scale == power_of_ten(30) * power_of_ten(j),
                tens == power_of_ten(30),
                c * unit == tens,
                g == rem * c,
                f == g * power_of_ten(j),
        ;
        lemma_quotient_of_multiple(f, unit as nat);
        assert(f < scale) by (nonlinear_arith)
            requires
                f == g * power_of_ten(j),
                g < tens,
                scale == tens * power_of_ten(j),
                power_of_ten(j) > 0,
        ;
        vstd::arithmetic::div_mod::lemma_small_mod(f, scale);
        assert(rounded_quotient((rem * scale) as nat, unit as nat) == f);
        assert(f % scale == f);
    }
    let zeros = repeat("0", precision - 30);
    if g == 0 {
        proof {
            reveal_strlit("0");
            assert(f == 0) by (nonlinear_arith)
                requires
                    f == g * power_of_ten(j),
                    g == 0,
            ;
            assert(decimal_text(0) =~= "0"@);
            assert("0"@.len() == 1);
            assert(repeated("0"@, precision as nat) == repeated("0"@, (precision - 1) as nat)
                + "0"@);
            assert(zero_padded(decimal_text(f), precision as nat) == repeated(
                "0"@,
                precision as nat,
            ));
        }
        repeat("0", precision)
    } else {
        let head = pad_zeros(g, 30);
        proof {
            lemma_decimal_of_multiple(g as nat, j);
            let d = decimal_text(g as nat);
            assert(decimal_text(f) == d + repeated("0"@, j));
            lemma_repeated_len(j);
            assert(decimal_text(f).len() == d.len() + j);
            if d.len() < 30 {
                assert(repeated("0"@, (30 + j - (d.len() + j)) as nat) + (d + repeated("0"@, j))
                    =~= (repeated("0"@, (30 - d.len()) as nat) + d) + repeated("0"@, j));
            }
            assert(zero_padded(decimal_text(f), precision as nat) == zero_padded(d, 30) + repeated(
                "0"@,
                j,
            ));
        }
        concat(head.as_str(), zeros.as_str())
    }
}

/// A count of bytes in one of the three units.
fn format_in_units(bytes: u64, unit: u128, precision: usize) -> (r: String)
    requires
        is_unit(unit as nat),
    ensures
        r@ == in_units(bytes, unit as nat, precision as nat),
{
    let m = to_double(bytes);
    if precision == 0 {
        let q = divide_rounded(m, unit);
        let whole = u128_to_string(q);
        proof {
            assert(m * power_of_ten(0) == m) by (nonlinear_arith)
                requires
                    power_of_ten(0) == 1,
            ;
            assert(whole@ + Seq::<char>::empty() =~= whole@);
            assert(whole@ == fixed_text(q as nat, 0));
        }
        return whole;
    }
    let whole = m / unit;
    let rem = m % unit;
    let ghost scale = power_of_ten(precision as nat);
    proof {
        lemma_power_of_ten(precision as nat);
        lemma_split_quotient(m as nat, unit as nat, scale);
    }
    let ghost f = rounded_quotient((rem * scale) as nat, unit as nat);
    proof {
        lemma_whole_and_part(whole as nat, f, scale);
        assert(rounded_quotient((m * scale) as nat, unit as nat) == whole * scale + f);
    }
    if precision <= 29 {
        let tens = ten_to(precision);
        assert(rem * tens <= 0x4000_0000 * 100_000_000_000_000_000_000_000_000_000)
            by (nonlinear_arith)
            requires
                rem <= 0x4000_0000,
                tens <= 100_000_000_000_000_000_000_000_000_000,
        ;
        let part = divide_rounded(rem * tens, unit);
        let (shown, behind): (u128, u128) = if part == tens {
            (whole + 1, 0)
        } else {
            (whole, part)
        };
        assert(part == f);
        assert(shown == (whole as nat * scale + f) / scale && behind == (whole as nat * scale + f)
            % scale);
        let digits = pad_zeros(behind, precision);
        let out = concat3(u128_to_string(shown).as_str(), ".", digits.as_str());
        assert(out@ =~= fixed_text(whole as nat * scale + f, precision as nat));
        out
    } else {
        let digits = long_part(rem, unit, precision);
        assert(whole == (whole as nat * scale + f) / scale);
        let out = concat3(u128_to_string(whole).as_str(), ".", digits.as_str());
        proof {
            vstd::arithmetic::div_mod::lemma_small_mod(f, scale);
        }
        assert(f == (whole as nat * scale + f) % scale);
        assert(out@ =~= fixed_text(whole as nat * scale + f, precision as nat));
        out
    }
}

/// Writes a count of bytes for a reader, with `precision` digits behind the
/// point.
pub fn format_bytes(bytes: u64, precision: usize, show_original: bool) -> (r: String)
    ensures
        r@ == bytes_text(bytes, precision as nat, show_original),
{
    let count = u64_to_string(bytes);
    let (unit, name): (u128, &str) = if bytes >= 0x4000_0000 {
        (0x4000_0000, " GB")
    } else if bytes >= 0x10_0000 {
        (0x10_0000, " MB")
    } else if bytes >= 0x400 {
        (0x400, " KB")
    } else {
        if show_original {
            return concat(count.as_str(), " bytes");
        } else {
            return concat(count.as_str(), " B");
        }
    };
    let formatted = format_in_units(bytes, unit, precision);
    let with_unit = concat(formatted.as_str(), name);
    if show_original {
        let original = concat3(" (", count.as_str(), " bytes)");
        concat(with_unit.as_str(), original.as_str())
    } else {
        assert(with_unit@ + Seq::<char>::empty() =~= with_unit@);
        with_unit
    }
}

} // verus!
