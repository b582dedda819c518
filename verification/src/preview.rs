//! The size of a screenshot preview, computed as IEEE 754 binary64 arithmetic computes it.

use vstd::arithmetic::power2::lemma_pow2_adds;
use vstd::arithmetic::power2::lemma_pow2_pos;
use vstd::arithmetic::power2::lemma_pow2_unfold;
use vstd::arithmetic::power2::pow2;
use vstd::prelude::*;

verus! {

/// The doubles below `2^53`, from zero on: `significand / 2^bits`.
pub struct Double {
    pub significand: nat,
    pub bits: nat,
}

/// `num / den` rounded to the nearest integer, a tie to the even one.
pub open spec fn round_to_even(num: nat, den: nat) -> nat {
    let quotient = num / den;
    let rest = num % den;
    if 2 * rest < den || (2 * rest == den && quotient % 2 == 0) {
        quotient
    } else {
        quotient + 1
    }
}

/// The number of binary places at which `num / den`, a number below `2^53`, has 53 digits.
pub open spec fn binary_places(num: nat, den: nat) -> nat
    decreases
            (if num < 0x10_0000_0000_0000 * den {
                0x10_0000_0000_0000 * den - num
            } else {
                0
            }),
{
    if 0 < num < 0x10_0000_0000_0000 * den {
        1 + binary_places(2 * num, den)
    } else {
        0
    }
}

/// The double nearest to `num / den`, a tie going to the even significand.
pub open spec fn nearest_double(num: nat, den: nat) -> Double {
    let bits = binary_places(num, den);
    Double { significand: round_to_even(num * pow2(bits), den), bits }
}

/// The smaller of the two ratios, numerator first, in which an image shrinks to fit a box; one
/// to one where the image fits already.
pub open spec fn shrink_ratio(width: nat, height: nat, max_width: nat, max_height: nat) -> (
    nat,
    nat,
) {
    let across: (nat, nat) = if max_width < width {
        (max_width, width)
    } else {
        (1, 1)
    };
    let down: (nat, nat) = if max_height < height {
        (max_height, height)
    } else {
        (1, 1)
    };
    if across.0 * down.1 <= down.0 * across.1 {
        across
    } else {
        down
    }
}

/// A side times the scale, as a double, rounded half away from zero, and no less than one.
pub open spec fn scaled_side(side: nat, scale: Double) -> nat {
    let product = nearest_double(side * scale.significand, pow2(scale.bits));
    let rounded = (2 * product.significand + pow2(product.bits)) / (2 * pow2(product.bits));
    if rounded < 1 {
        1
    } else {
        rounded
    }
}

/// The size at which an image is shown in a box: both sides scaled by the double nearest to the
/// ratio in which the image has to shrink. Rounding keeps the order of two ratios, so this is
/// also the smaller of the doubles nearest to each.
pub open spec fn fitted(width: nat, height: nat, max_width: nat, max_height: nat) -> (nat, nat) {
    let ratio = shrink_ratio(width, height, max_width, max_height);
    let scale = nearest_double(ratio.0, ratio.1);
    (scaled_side(width, scale), scaled_side(height, scale))
}

proof fn lemma_binary_places(num: nat, den: nat, bits: nat)
    requires
        0 < num,
        0x10_0000_0000_0000 * den <= num * pow2(bits),
        bits > 0 ==> num * pow2((bits - 1) as nat) < 0x10_0000_0000_0000 * den,
    ensures
        binary_places(num, den) == bits,
    decreases bits,
{
    assert(pow2(0) == 1) by {
        vstd::arithmetic::power2::lemma2_to64();
    }
    if bits > 0 {
        lemma_pow2_unfold(bits);
        let less = (bits - 1) as nat;
        lemma_pow2_pos(less);
        assert(num <= num * pow2(less)) by (nonlinear_arith)
            requires
                pow2(less) >= 1,
        ;
        assert((2 * num) * pow2(less) == num * (2 * pow2(less))) by (nonlinear_arith);
        if less > 0 {
            lemma_pow2_unfold(less);
            let least = (less - 1) as nat;
            assert((2 * num) * pow2(least) == num * (2 * pow2(least))) by (nonlinear_arith);
        }
        lemma_binary_places(2 * num, den, less);
    } else {
        assert(num * pow2(0) == num) by (nonlinear_arith)
            requires
                pow2(0) == 1,
        ;
    }
}

proof fn lemma_round_to_even(num: nat, den: nat)
    requires
        den > 0,
    ensures
        2 * num <= 2 * (round_to_even(num, den) * den) + den,
        2 * (round_to_even(num, den) * den) <= 2 * num + den,
{
    let q = num / den;
    let r = num % den;
    vstd::arithmetic::div_mod::lemma_fundamental_div_mod(num as int, den as int);
    assert(q * den == den * q) by (nonlinear_arith);
    assert((q + 1) * den == q * den + den) by (nonlinear_arith);
    vstd::arithmetic::div_mod::lemma_mod_bound(num as int, den as int);
}

/// Rounds `num / den` to the nearest integer, a tie to the even one.
fn round_quotient(num: u128, den: u128) -> (r: u128)
    requires
        0 < den < 0x1_0000_0000_0000_0000_0000_0000,
        num < 0x1_0000_0000_0000_0000_0000_0000_0000,
    ensures
        r == round_to_even(num as nat, den as nat),
{
    let quotient: u128 = num / den;
    let rest: u128 = num % den;
    proof {
        vstd::arithmetic::div_mod::lemma_mod_bound(num as int, den as int);
        vstd::arithmetic::div_mod::lemma_div_is_ordered_by_denominator(num as int, 1, den as int);
    }
    if 2 * rest < den || (2 * rest == den && quotient % 2 == 0) {
        quotient
    } else {
        quotient + 1
    }
}

/// A power of two.
fn power_of_two(n: u32) -> (p: u128)
    requires
        n < 120,
    ensures
        p == pow2(n as nat),
        0 < p < 0x100_0000_0000_0000_0000_0000_0000_0000,
{
    let mut p: u128 = 1;
    let mut i: u32 = 0;
    proof {
        vstd::arithmetic::power2::lemma2_to64();
        vstd::arithmetic::power2::lemma2_to64_rest();
        lemma_pow2_adds(60, 60);
    }
    while i < n
        invariant
            i <= n < 120,
            p == pow2(i as nat),
            pow2(120) == 0x100_0000_0000_0000_0000_0000_0000_0000,
        decreases n - i,
    {
        proof {
            lemma_pow2_unfold((i + 1) as nat);
            vstd::arithmetic::power2::lemma_pow2_strictly_increases(i as nat, 119);
            lemma_pow2_unfold(120);
        }
        p = p * 2;
        i += 1;
    }
    proof {
        vstd::arithmetic::power2::lemma_pow2_strictly_increases(n as nat, 120);
        lemma_pow2_pos(n as nat);
    }
    p
}

/// A double below `2^53`, the least significand or more unless it is zero.
struct Scale {
    significand: u128,
    bits: u32,
}

impl Scale {
    spec fn double(self) -> Double {
        Double { significand: self.significand as nat, bits: self.bits as nat }
    }
}

/// The double nearest to a ratio between zero and one.
fn nearest_scale(num: u32, den: u32) -> (scale: Scale)
    requires
        0 < num <= den,
    ensures
        scale.double() == nearest_double(num as nat, den as nat),
        0x10_0000_0000_0000 <= scale.significand <= 0x20_0000_0000_0000,
        52 <= scale.bits <= 84,
{
    let target: u128 = 0x10_0000_0000_0000 * den as u128;
    let mut x: u128 = num as u128;
    let mut bits: u32 = 0;
    proof {
        vstd::arithmetic::power2::lemma2_to64();
        vstd::arithmetic::power2::lemma2_to64_rest();
        lemma_pow2_adds(52, 32);
    }
    while x < target
        invariant
            0 < num <= den,
            target == 0x10_0000_0000_0000 * den,
            target < pow2(84),
            pow2(84) == 0x10_0000_0000_0000_0000_0000,
            pow2(0) == 1,
            x == num * pow2(bits as nat),
            0 < x < 2 * target,
            bits > 0 ==> num * pow2((bits - 1) as nat) < target,
            bits <= 84,
        decreases 2 * target - x,
    {
        proof {
            if bits == 84 {
                assert(num * pow2(84) >= pow2(84)) by (nonlinear_arith)
                    requires
                        num >= 1,
                ;
            }
            lemma_pow2_unfold((bits + 1) as nat);
            assert(num * (2 * pow2(bits as nat)) == 2 * (num * pow2(bits as nat)))
                by (nonlinear_arith);
        }
        x = x * 2;
        bits += 1;
    }
    proof {
        lemma_binary_places(num as nat, den as nat, bits as nat);
        if bits < 52 {
            vstd::arithmetic::power2::lemma_pow2_strictly_increases(bits as nat, 52);
            assert(num * pow2(bits as nat) < 0x10_0000_0000_0000 * den) by (nonlinear_arith)
                requires
                    pow2(bits as nat) < 0x10_0000_0000_0000,
                    0 < num <= den,
            ;
        }
        lemma_round_to_even(x as nat, den as nat);
        let m = round_to_even(x as nat, den as nat);
        assert(0x10_0000_0000_0000 <= m) by (nonlinear_arith)
            requires
                2 * x <= 2 * (m * den) + den,
                0x10_0000_0000_0000 * den <= x,
                den > 0,
        ;
        assert(m <= 0x20_0000_0000_0000) by (nonlinear_arith)
            requires
                2 * (m * den) <= 2 * x + den,
                x < 0x20_0000_0000_0000 * den,
                den > 0,
        ;
    }
    let significand: u128 = round_quotient(x, den as u128);
    Scale { significand, bits }
}

/// A side times a scale, rounded to a pixel.
fn scale_side(side: u32, scale: &Scale) -> (scaled: u32)
    requires
        0 < side,
        0x10_0000_0000_0000 <= scale.significand <= 0x20_0000_0000_0000,
        52 <= scale.bits <= 84,
        scaled_side(side as nat, scale.double()) <= u32::MAX,
    ensures
        scaled == scaled_side(side as nat, scale.double()),
{
    proof {
        assert(0x10_0000_0000_0000 <= side * scale.significand <= 0x20_0000_0000_0000_0000_0000)
            by (nonlinear_arith)
            requires
                0 < side <= 0x1_0000_0000,
                0x10_0000_0000_0000 <= scale.significand <= 0x20_0000_0000_0000,
        ;
    }
    let product: u128 = side as u128 * scale.significand;
    let mut drop: u32 = 0;
    let mut unit: u128 = 1;
    proof {
        vstd::arithmetic::power2::lemma2_to64();
        vstd::arithmetic::power2::lemma2_to64_rest();
    }
    while product >= 0x20_0000_0000_0000 * unit
        invariant
            product <= 0x20_0000_0000_0000_0000_0000,
            unit == pow2(drop as nat),
            drop < 40,
            0x10_0000_0000_0000 * unit <= product,
            0 < unit <= 0x2_0000_0000,
            pow2(34) == 0x4_0000_0000,
        decreases 40 - drop,
    {
        proof {
            lemma_pow2_unfold((drop + 1) as nat);
            if drop >= 34 {
                if drop > 34 {
                    vstd::arithmetic::power2::lemma_pow2_strictly_increases(34, drop as nat);
                }
            }
        }
        unit = unit * 2;
        drop += 1;
    }
    let bits: u32 = scale.bits - drop;
    let significand: u128 = round_quotient(product, unit);
    let one: u128 = power_of_two(bits);
    proof {
        lemma_drop_bits(product as nat, scale.bits as nat, drop as nat);
    }
    let rounded: u128 = (2 * significand + one) / (2 * one);
    if rounded < 1 {
        1
    } else {
        rounded as u32
    }
}

/// Dropping binary places before rounding: what the nearest double of `num / 2^bits` is.
proof fn lemma_drop_bits(num: nat, bits: nat, drop: nat)
    requires
        drop < bits,
        0x10_0000_0000_0000 * pow2(drop) <= num < 0x20_0000_0000_0000 * pow2(drop),
    ensures
        nearest_double(num, pow2(bits)).bits == bits - drop,
        nearest_double(num, pow2(bits)).significand == round_to_even(num, pow2(drop)),
        round_to_even(num, pow2(drop)) <= 0x20_0000_0000_0000,
{
    let rest = (bits - drop) as nat;
    let unit = pow2(drop);
    let lift = pow2(rest);
    lemma_pow2_pos(drop);
    lemma_pow2_pos(rest);
    lemma_pow2_adds(drop, rest);
    lemma_pow2_unfold(rest);
    lemma_pow2_pos((rest - 1) as nat);
    let half = pow2((rest - 1) as nat);
    assert(0x10_0000_0000_0000 * (unit * lift) <= num * lift) by (nonlinear_arith)
        requires
            0x10_0000_0000_0000 * unit <= num,
            lift > 0,
    ;
    assert(num * half < 0x10_0000_0000_0000 * (unit * lift)) by (nonlinear_arith)
        requires
            num < 0x20_0000_0000_0000 * unit,
            lift == 2 * half,
            half > 0,
    ;
    assert(0 < num) by (nonlinear_arith)
        requires
            0x10_0000_0000_0000 * unit <= num,
            unit > 0,
    ;
    lemma_binary_places(num, pow2(bits), rest);
    lemma_round_common_factor(num, unit, lift);
    lemma_round_to_even(num, unit);
    let m = round_to_even(num, unit);
    assert(m <= 0x20_0000_0000_0000) by (nonlinear_arith)
        requires
            2 * (m * unit) <= 2 * num + unit,
            num < 0x20_0000_0000_0000 * unit,
            unit > 0,
    ;
}

/// A common factor of the two parts of a fraction does not change how it rounds.
proof fn lemma_round_common_factor(num: nat, den: nat, factor: nat)
    requires
        den > 0,
        factor > 0,
    ensures
        round_to_even(num * factor, den * factor) == round_to_even(num, den),
{
    let q = num / den;
    let r = num % den;
    vstd::arithmetic::div_mod::lemma_fundamental_div_mod(num as int, den as int);
    vstd::arithmetic::div_mod::lemma_mod_bound(num as int, den as int);
    assert(num * factor == q * (den * factor) + r * factor) by (nonlinear_arith)
        requires
            num == den * q + r,
    ;
    assert(0 <= r * factor < den * factor) by (nonlinear_arith)
        requires
            0 <= r < den,
            factor > 0,
    ;
    vstd::arithmetic::div_mod::lemma_fundamental_div_mod_converse(
        (num * factor) as int,
        (den * factor) as int,
        q as int,
        (r * factor) as int,
    );
    assert((2 * (r * factor) < den * factor) == (2 * r < den)) by (nonlinear_arith)
        requires
            factor > 0,
    ;
    assert((2 * (r * factor) == den * factor) == (2 * r == den)) by (nonlinear_arith)
        requires
            factor > 0,
    ;
}

proof fn lemma_places_suffice(num: nat, den: nat)
    requires
        0 < num,
    ensures
        0x10_0000_0000_0000 * den <= num * pow2(binary_places(num, den)),
    decreases
            (if num < 0x10_0000_0000_0000 * den {
                0x10_0000_0000_0000 * den - num
            } else {
                0
            }),
{
    vstd::arithmetic::power2::lemma2_to64();
    let bits = binary_places(num, den);
    if num < 0x10_0000_0000_0000 * den {
        lemma_places_suffice(2 * num, den);
        lemma_pow2_unfold(bits);
        let less = pow2((bits - 1) as nat);
        assert((2 * num) * less == num * (2 * less)) by (nonlinear_arith);
    } else {
        assert(num * pow2(bits) == num) by (nonlinear_arith)
            requires
                pow2(bits) == 1,
        ;
    }
}

/// A double is off from what it stands for by no more than one part in `2^53`.
proof fn lemma_double_error(num: nat, den: nat)
    requires
        0 < num,
        0 < den,
    ensures
        ({
            let d = nearest_double(num, den);
            let exact = num * pow2(d.bits);
            &&& 0x20_0000_0000_0000 * (d.significand * den) <= 0x20_0000_0000_0001 * exact
            &&& 0x1f_ffff_ffff_ffff * exact <= 0x20_0000_0000_0000 * (d.significand * den)
        }),
{
    let d = nearest_double(num, den);
    let exact = num * pow2(d.bits);
    lemma_places_suffice(num, den);
    lemma_round_to_even(exact, den);
}

proof fn lemma_error_above(
    p: nat,
    s: nat,
    side: nat,
    m: nat,
    f: nat,
    a: nat,
    b: nat,
    t: nat,
    u: nat,
)
    requires
        0 < s,
        t * (p * s) <= u * (side * m * f),
        t * (m * b) <= u * (a * s),
    ensures
        t * t * (p * b) <= u * u * (side * a * f),
{
    assert((t * b) * (t * (p * s)) <= (t * b) * (u * (side * m * f))) by (nonlinear_arith)
        requires
            t * (p * s) <= u * (side * m * f),
    ;
    assert((t * b) * (u * (side * m * f)) == (u * side * f) * (t * (m * b))) by (nonlinear_arith);
    assert((u * side * f) * (t * (m * b)) <= (u * side * f) * (u * (a * s))) by (nonlinear_arith)
        requires
            t * (m * b) <= u * (a * s),
    ;
    assert((t * b) * (t * (p * s)) == s * (t * t * (p * b))) by (nonlinear_arith);
    assert((u * side * f) * (u * (a * s)) == s * (u * u * (side * a * f))) by (nonlinear_arith);
    assert(t * t * (p * b) <= u * u * (side * a * f)) by (nonlinear_arith)
        requires
            s * (t * t * (p * b)) <= s * (u * u * (side * a * f)),
            0 < s,
    ;
}

proof fn lemma_error_below(
    p: nat,
    s: nat,
    side: nat,
    m: nat,
    f: nat,
    a: nat,
    b: nat,
    t: nat,
    u: nat,
)
    requires
        0 < s,
        u * (side * m * f) <= t * (p * s),
        u * (a * s) <= t * (m * b),
    ensures
        u * u * (side * a * f) <= t * t * (p * b),
{
    assert((t * b) * (u * (side * m * f)) <= (t * b) * (t * (p * s))) by (nonlinear_arith)
        requires
            u * (side * m * f) <= t * (p * s),
    ;
    assert((t * b) * (u * (side * m * f)) == (u * side * f) * (t * (m * b))) by (nonlinear_arith);
    assert((u * side * f) * (u * (a * s)) <= (u * side * f) * (t * (m * b))) by (nonlinear_arith)
        requires
            u * (a * s) <= t * (m * b),
    ;
    assert((t * b) * (t * (p * s)) == s * (t * t * (p * b))) by (nonlinear_arith);
    assert((u * side * f) * (u * (a * s)) == s * (u * u * (side * a * f))) by (nonlinear_arith);
    assert(u * u * (side * a * f) <= t * t * (p * b)) by (nonlinear_arith)
        requires
            s * (u * u * (side * a * f)) <= s * (t * t * (p * b)),
            0 < s,
    ;
}

proof fn lemma_cancel_above(t: nat, p: nat, b: nat, u: nat, x: nat, high: nat, f: nat)
    requires
        t * (p * b) <= u * (x * f),
        x <= high * b,
        0 < b,
    ensures
        t * p <= u * (high * f),
{
    assert(u * (x * f) <= u * (high * b * f)) by (nonlinear_arith)
        requires
            x <= high * b,
    ;
    assert(u * (high * b * f) == b * (u * (high * f))) by (nonlinear_arith);
    assert(t * (p * b) == b * (t * p)) by (nonlinear_arith);
    assert(t * p <= u * (high * f)) by (nonlinear_arith)
        requires
            b * (t * p) <= b * (u * (high * f)),
            0 < b,
    ;
}

proof fn lemma_cancel_below(t: nat, p: nat, b: nat, u: nat, x: nat, low: nat, f: nat)
    requires
        u * (x * f) <= t * (p * b),
        low * b <= x,
        0 < b,
    ensures
        u * (low * f) <= t * p,
{
    assert(u * (low * b * f) <= u * (x * f)) by (nonlinear_arith)
        requires
            low * b <= x,
    ;
    assert(u * (low * b * f) == b * (u * (low * f))) by (nonlinear_arith);
    assert(t * (p * b) == b * (t * p)) by (nonlinear_arith);
    assert(u * (low * f) <= t * p) by (nonlinear_arith)
        requires
            b * (u * (low * f)) <= b * (t * p),
            0 < b,
    ;
}

/// The product of a side and a scale is off from `side * a / b` by no more than the two roundings.
proof fn lemma_product_error(side: nat, a: nat, b: nat)
    requires
        0 < side,
        0 < a,
        0 < b,
    ensures
        ({
            let scale = nearest_double(a, b);
            let product = nearest_double(side * scale.significand, pow2(scale.bits));
            let p = product.significand;
            let f = pow2(product.bits);
            &&& 0 < f
            &&& 0x20_0000_0000_0000 * 0x20_0000_0000_0000 * (p * b) <= 0x20_0000_0000_0001
                * 0x20_0000_0000_0001 * (side * a * f)
            &&& 0x1f_ffff_ffff_ffff * 0x1f_ffff_ffff_ffff * (side * a * f) <= 0x20_0000_0000_0000
                * 0x20_0000_0000_0000 * (p * b)
        }),
{
    let scale = nearest_double(a, b);
    let m = scale.significand;
    let s = pow2(scale.bits);
    lemma_pow2_pos(scale.bits);
    lemma_double_error(a, b);
    assert(0 < m) by (nonlinear_arith)
        requires
            0x1f_ffff_ffff_ffff * (a * s) <= 0x20_0000_0000_0000 * (m * b),
            0 < a,
            0 < s,
    ;
    let num = side * m;
    assert(0 < num) by (nonlinear_arith)
        requires
            num == side * m,
            0 < side,
            0 < m,
    ;
    let product = nearest_double(num, s);
    let p = product.significand;
    let f = pow2(product.bits);
    lemma_pow2_pos(product.bits);
    lemma_double_error(num, s);
    lemma_error_above(p, s, side, m, f, a, b, 0x20_0000_0000_0000, 0x20_0000_0000_0001);
    lemma_error_below(p, s, side, m, f, a, b, 0x20_0000_0000_0000, 0x1f_ffff_ffff_ffff);
}

/// A scaled side lies between the integers that bound the exact value: where
/// `low <= side * a / b <= high`, also `low <= scaled <= high`.
proof fn lemma_scaled_side(side: nat, a: nat, b: nat, low: nat, high: nat)
    requires
        0 < side,
        0 < a,
        0 < b,
        low * b <= side * a <= high * b,
        1 <= high <= u32::MAX,
    ensures
        low <= scaled_side(side, nearest_double(a, b)) <= high,
{
    let scale = nearest_double(a, b);
    let product = nearest_double(side * scale.significand, pow2(scale.bits));
    let p = product.significand;
    let f = pow2(product.bits);
    lemma_product_error(side, a, b);
    let square: nat = 0x20_0000_0000_0000 * 0x20_0000_0000_0000;
    let above: nat = 0x20_0000_0000_0001 * 0x20_0000_0000_0001;
    let below: nat = 0x1f_ffff_ffff_ffff * 0x1f_ffff_ffff_ffff;
    lemma_cancel_above(square, p, b, above, side * a, high, f);
    lemma_cancel_below(square, p, b, below, side * a, low, f);
    assert(low <= high) by (nonlinear_arith)
        requires
            low * b <= high * b,
            0 < b,
    ;
    let top = high * f;
    let bottom = low * f;
    assert(top <= 0x1_0000_0000 * f) by (nonlinear_arith)
        requires
            top == high * f,
            high <= 0x1_0000_0000,
            0 <= f,
    ;
    assert(bottom <= 0x1_0000_0000 * f) by (nonlinear_arith)
        requires
            bottom == low * f,
            low <= 0x1_0000_0000,
            0 <= f,
    ;
    assert(2 * p < 2 * top + f);
    assert(2 * bottom <= 2 * p + f);
    let rounded = (2 * p + f) / (2 * f);
    assert(rounded <= high) by {
        assert(2 * p + f < (2 * f) * (high + 1)) by (nonlinear_arith)
            requires
                2 * p < 2 * (high * f) + f,
        ;
        vstd::arithmetic::div_mod::lemma_multiply_divide_lt(
            (2 * p + f) as int,
            (2 * f) as int,
            (high + 1) as int,
        );
    }
    assert(low <= rounded) by {
        assert((2 * f) * low <= 2 * p + f) by (nonlinear_arith)
            requires
                2 * (low * f) <= 2 * p + f,
        ;
        vstd::arithmetic::div_mod::lemma_div_is_ordered(
            ((2 * f) * low) as int,
            (2 * p + f) as int,
            (2 * f) as int,
        );
        vstd::arithmetic::div_mod::lemma_div_multiples_vanish(low as int, (2 * f) as int);
    }
}

/// What a side becomes whose scale, or which itself, is zero: one pixel.
proof fn lemma_nothing_to_scale(side: nat, a: nat, b: nat)
    requires
        side == 0 || a == 0,
        0 < b,
    ensures
        scaled_side(side, nearest_double(a, b)) == 1,
{
    vstd::arithmetic::power2::lemma2_to64();
    let scale = nearest_double(a, b);
    if a == 0 {
        assert(0 * pow2(0) == 0);
        assert(0nat / b == 0 && 0nat % b == 0) by {
            vstd::arithmetic::div_mod::lemma_div_basics(b as int);
            vstd::arithmetic::div_mod::lemma_small_mod(0, b);
        }
        assert(scale.significand == 0);
    }
    let num = side * scale.significand;
    assert(num == 0) by (nonlinear_arith)
        requires
            num == side * scale.significand,
            side == 0 || scale.significand == 0,
    ;
    let den = pow2(scale.bits);
    lemma_pow2_pos(scale.bits);
    assert(0 * pow2(0) == 0);
    vstd::arithmetic::div_mod::lemma_div_basics(den as int);
    vstd::arithmetic::div_mod::lemma_small_mod(0, den);
}

/// The ratio in which an image shrinks leaves it no larger than the box, nor than it was.
proof fn lemma_shrink_ratio(width: nat, height: nat, max_width: nat, max_height: nat)
    ensures
        ({
            let r = shrink_ratio(width, height, max_width, max_height);
            &&& r.0 <= r.1
            &&& 0 < r.1
            &&& r == (1nat, 1nat) || r == (max_width, width) || r == (max_height, height)
            &&& width * r.0 <= max_width * r.1
            &&& height * r.0 <= max_height * r.1
            &&& width <= max_width && height <= max_height ==> r == (1nat, 1nat)
            &&& (max_width < width || max_height < height) ==> (width * r.0 == max_width * r.1
                && max_width < width) || (height * r.0 == max_height * r.1 && max_height < height)
        }),
{
    broadcast use vstd::arithmetic::mul::group_mul_basics;

    let r = shrink_ratio(width, height, max_width, max_height);
    assert(width * max_width == max_width * width) by (nonlinear_arith);
    assert(height * max_height == max_height * height) by (nonlinear_arith);
    assert(height * max_width == max_width * height) by (nonlinear_arith);
    assert(width * max_height == max_height * width) by (nonlinear_arith);
    if max_width < width && height <= max_height {
        assert(height * max_width <= max_height * width) by (nonlinear_arith)
            requires
                height <= max_height,
                max_width < width,
        ;
    }
    if max_height < height && width <= max_width {
        assert(width * max_height <= max_width * height) by (nonlinear_arith)
            requires
                width <= max_width,
                max_height < height,
        ;
    }
}

/// Fits an image into a box: how large its preview is.
pub fn fit_within(width: u32, height: u32, max_width: u32, max_height: u32) -> (size: (u32, u32))
    ensures
        (size.0 as nat, size.1 as nat) == fitted(
            width as nat,
            height as nat,
            max_width as nat,
            max_height as nat,
        ),
{
    let across: (u32, u32) = if max_width < width {
        (max_width, width)
    } else {
        (1, 1)
    };
    let down: (u32, u32) = if max_height < height {
        (max_height, height)
    } else {
        (1, 1)
    };
    proof {
        assert(across.0 * down.1 <= 0xffff_ffff * 0xffff_ffff) by (nonlinear_arith)
            requires
                across.0 <= 0xffff_ffff,
                down.1 <= 0xffff_ffff,
        ;
        assert(down.0 * across.1 <= 0xffff_ffff * 0xffff_ffff) by (nonlinear_arith)
            requires
                down.0 <= 0xffff_ffff,
                across.1 <= 0xffff_ffff,
        ;
        lemma_shrink_ratio(width as nat, height as nat, max_width as nat, max_height as nat);
    }
    let ratio: (u32, u32) = if across.0 as u64 * down.1 as u64 <= down.0 as u64 * across.1 as u64 {
        across
    } else {
        down
    };
    proof {
        if ratio.0 == 0 || width == 0 {
            lemma_nothing_to_scale(width as nat, ratio.0 as nat, ratio.1 as nat);
        } else {
            lemma_side_shrinks(width, ratio.0, ratio.1);
        }
        if ratio.0 == 0 || height == 0 {
            lemma_nothing_to_scale(height as nat, ratio.0 as nat, ratio.1 as nat);
        } else {
            lemma_side_shrinks(height, ratio.0, ratio.1);
        }
    }
    if ratio.0 == 0 {
        return (1, 1);
    }
    let scale = nearest_scale(ratio.0, ratio.1);
    let output_width: u32 = if width == 0 {
        1
    } else {
        scale_side(width, &scale)
    };
    let output_height: u32 = if height == 0 {
        1
    } else {
        scale_side(height, &scale)
    };
    (output_width, output_height)
}

proof fn lemma_side_shrinks(side: u32, a: u32, b: u32)
    requires
        0 < side,
        0 < a <= b,
    ensures
        scaled_side(side as nat, nearest_double(a as nat, b as nat)) <= side,
{
    assert(side * a <= side * b) by (nonlinear_arith)
        requires
            a <= b,
    ;
    lemma_scaled_side(side as nat, a as nat, b as nat, 0, side as nat);
}

/// A preview has at least one pixel, and no more than the image or one on each side.
pub proof fn lemma_fitted_size(width: u32, height: u32, max_width: u32, max_height: u32)
    ensures
        ({
            let size = fitted(width as nat, height as nat, max_width as nat, max_height as nat);
            &&& 1 <= size.0 && (size.0 <= width || size.0 == 1)
            &&& 1 <= size.1 && (size.1 <= height || size.1 == 1)
        }),
{
    let r = shrink_ratio(width as nat, height as nat, max_width as nat, max_height as nat);
    lemma_shrink_ratio(width as nat, height as nat, max_width as nat, max_height as nat);
    if width == 0 || r.0 == 0 {
        lemma_nothing_to_scale(width as nat, r.0, r.1);
    } else {
        lemma_side_shrinks(width, r.0 as u32, r.1 as u32);
    }
    if height == 0 || r.0 == 0 {
        lemma_nothing_to_scale(height as nat, r.0, r.1);
    } else {
        lemma_side_shrinks(height, r.0 as u32, r.1 as u32);
    }
}

/// A preview has at least one pixel, and stays within a box of at least one pixel.
pub proof fn law_preview_stays_in_the_box(width: u32, height: u32, max_width: u32, max_height: u32)
    requires
        1 <= max_width,
        1 <= max_height,
    ensures
        ({
            let size = fitted(width as nat, height as nat, max_width as nat, max_height as nat);
            1 <= size.0 <= max_width && 1 <= size.1 <= max_height
        }),
{
    let r = shrink_ratio(width as nat, height as nat, max_width as nat, max_height as nat);
    lemma_shrink_ratio(width as nat, height as nat, max_width as nat, max_height as nat);
    if width == 0 {
        lemma_nothing_to_scale(0, r.0, r.1);
    } else {
        lemma_scaled_side(width as nat, r.0, r.1, 0, max_width as nat);
    }
    if height == 0 {
        lemma_nothing_to_scale(0, r.0, r.1);
    } else {
        lemma_scaled_side(height as nat, r.0, r.1, 0, max_height as nat);
    }
}

/// An image is never scaled up.
pub proof fn law_preview_is_never_larger(width: u32, height: u32, max_width: u32, max_height: u32)
    requires
        1 <= width,
        1 <= height,
    ensures
        ({
            let size = fitted(width as nat, height as nat, max_width as nat, max_height as nat);
            size.0 <= width && size.1 <= height
        }),
{
    let r = shrink_ratio(width as nat, height as nat, max_width as nat, max_height as nat);
    lemma_shrink_ratio(width as nat, height as nat, max_width as nat, max_height as nat);
    if r.0 == 0 {
        lemma_nothing_to_scale(width as nat, r.0, r.1);
        lemma_nothing_to_scale(height as nat, r.0, r.1);
    } else {
        lemma_side_shrinks(width, r.0 as u32, r.1 as u32);
        lemma_side_shrinks(height, r.0 as u32, r.1 as u32);
    }
}

/// An image that fits the box keeps its size.
pub proof fn law_preview_keeps_what_fits(width: u32, height: u32, max_width: u32, max_height: u32)
    requires
        1 <= width <= max_width,
        1 <= height <= max_height,
    ensures
        fitted(width as nat, height as nat, max_width as nat, max_height as nat) == (
            width as nat,
            height as nat,
        ),
{
    lemma_shrink_ratio(width as nat, height as nat, max_width as nat, max_height as nat);
    lemma_scaled_side(width as nat, 1, 1, width as nat, width as nat);
    lemma_scaled_side(height as nat, 1, 1, height as nat, height as nat);
}

/// An image that does not fit the box is shown as wide, or as high, as the box.
pub proof fn law_preview_fills_the_box(width: u32, height: u32, max_width: u32, max_height: u32)
    requires
        1 <= max_width,
        1 <= max_height,
        max_width < width || max_height < height,
    ensures
        ({
            let size = fitted(width as nat, height as nat, max_width as nat, max_height as nat);
            size.0 == max_width || size.1 == max_height
        }),
{
    let r = shrink_ratio(width as nat, height as nat, max_width as nat, max_height as nat);
    lemma_shrink_ratio(width as nat, height as nat, max_width as nat, max_height as nat);
    if width * r.0 == max_width * r.1 && max_width < width {
        lemma_scaled_side(width as nat, r.0, r.1, max_width as nat, max_width as nat);
    } else {
        lemma_scaled_side(height as nat, r.0, r.1, max_height as nat, max_height as nat);
    }
}

proof fn lemma_within_a_pixel(side: u32, a: nat, b: nat)
    requires
        0 < side,
        0 < a <= b,
    ensures
        ({
            let scaled = scaled_side(side as nat, nearest_double(a, b));
            scaled * b < side * a + b && side * a < scaled * b + b
        }),
{
    let scaled = scaled_side(side as nat, nearest_double(a, b));
    let x = (side * a) as nat;
    let low = x / b;
    let rest = x % b;
    vstd::arithmetic::div_mod::lemma_fundamental_div_mod(x as int, b as int);
    vstd::arithmetic::div_mod::lemma_mod_bound(x as int, b as int);
    let high = if rest == 0 {
        low
    } else {
        low + 1
    };
    assert(low * b == b * low) by (nonlinear_arith);
    assert((low + 1) * b == b * low + b) by (nonlinear_arith);
    assert(0 < x) by (nonlinear_arith)
        requires
            x == side * a,
            0 < side,
            0 < a,
    ;
    assert(x <= side * b) by (nonlinear_arith)
        requires
            x == side * a,
            a <= b,
    ;
    assert(high <= side) by (nonlinear_arith)
        requires
            x <= side * b,
            x == b * low + rest,
            0 <= rest < b,
            high == (if rest == 0 {
                low
            } else {
                low + 1
            }),
    ;
    assert(1 <= high) by (nonlinear_arith)
        requires
            0 < x,
            x <= high * b,
            0 < b,
    ;
    lemma_scaled_side(side as nat, a, b, low, high);
    assert(low * b <= scaled * b <= high * b) by (nonlinear_arith)
        requires
            low <= scaled <= high,
            0 < b,
    ;
}

/// A preview keeps the aspect ratio of the image to within a pixel: each side is less than one
/// pixel away from the side scaled exactly in one and the same ratio.
pub proof fn law_preview_keeps_the_aspect_ratio(
    width: u32,
    height: u32,
    max_width: u32,
    max_height: u32,
)
    requires
        1 <= width,
        1 <= height,
        1 <= max_width,
        1 <= max_height,
    ensures
        ({
            let r = shrink_ratio(width as nat, height as nat, max_width as nat, max_height as nat);
            let size = fitted(width as nat, height as nat, max_width as nat, max_height as nat);
            &&& width * r.0 - r.1 < size.0 * r.1 < width * r.0 + r.1
            &&& height * r.0 - r.1 < size.1 * r.1 < height * r.0 + r.1
        }),
{
    let r = shrink_ratio(width as nat, height as nat, max_width as nat, max_height as nat);
    lemma_shrink_ratio(width as nat, height as nat, max_width as nat, max_height as nat);
    lemma_within_a_pixel(width, r.0, r.1);
    lemma_within_a_pixel(height, r.0, r.1);
}

/// A scaled side is the whole number nearest to the exact value, but for the two roundings of a
/// double, which come to less than a part in `2^18` of a pixel; and no less than one.
proof fn lemma_side_is_nearest(side: u32, a: nat, b: nat)
    requires
        0 < side,
        0 < a <= b,
    ensures
        ({
            let scaled = scaled_side(side as nat, nearest_double(a, b));
            &&& 0x4_0000 * (2 * (side * a)) <= 0x4_0000 * (2 * (scaled * b) + b) + b
            &&& 1 < scaled ==> 0x4_0000 * (2 * (scaled * b)) <= 0x4_0000 * (2 * (side * a) + b) + b
        }),
{
    let scale = nearest_double(a, b);
    let product = nearest_double(side as nat * scale.significand, pow2(scale.bits));
    let p = product.significand;
    let f = pow2(product.bits);
    lemma_product_error(side as nat, a, b);
    let x = (side * a) as nat;
    let rounded = (2 * p + f) / (2 * f);
    let scaled = scaled_side(side as nat, scale);
    vstd::arithmetic::div_mod::lemma_fundamental_div_mod((2 * p + f) as int, (2 * f) as int);
    vstd::arithmetic::div_mod::lemma_mod_bound((2 * p + f) as int, (2 * f) as int);
    let spare = (2 * p + f) % (2 * f);
    assert(x <= 0xffff_ffff * b) by (nonlinear_arith)
        requires
            x == side * a,
            side <= 0xffff_ffff,
            a <= b,
    ;
    let square: nat = 0x20_0000_0000_0000 * 0x20_0000_0000_0000;
    let above: nat = 0x20_0000_0000_0001 * 0x20_0000_0000_0001;
    let below: nat = 0x1f_ffff_ffff_ffff * 0x1f_ffff_ffff_ffff;
    assert(side * a * f == x * f);
    assert(square * (2 * (rounded * b)) <= above * (2 * x) + square * b) by (nonlinear_arith)
        requires
            square * (p * b) <= above * (x * f),
            2 * p + f == (2 * f) * rounded + spare,
            0 <= spare,
            0 < f,
    ;
    assert(below * (2 * x) <= square * (2 * (rounded * b) + b)) by (nonlinear_arith)
        requires
            below * (x * f) <= square * (p * b),
            2 * p + f == (2 * f) * rounded + spare,
            spare < 2 * f,
            0 < f,
    ;
    assert(rounded * b <= scaled * b) by (nonlinear_arith)
        requires
            rounded <= scaled,
    ;
}

/// A preview has each side at the whole number that is nearest to the side scaled exactly, all but
/// exactly: the one that it has is less than half a pixel and a part in `2^18` of one away. A side
/// is one pixel at least.
pub proof fn law_preview_sides_are_nearest(
    width: u32,
    height: u32,
    max_width: u32,
    max_height: u32,
)
    requires
        1 <= width,
        1 <= height,
        1 <= max_width,
        1 <= max_height,
    ensures
        ({
            let r = shrink_ratio(width as nat, height as nat, max_width as nat, max_height as nat);
            let size = fitted(width as nat, height as nat, max_width as nat, max_height as nat);
            &&& 0x4_0000 * (2 * (width * r.0)) <= 0x4_0000 * (2 * (size.0 * r.1) + r.1) + r.1
            &&& 0x4_0000 * (2 * (height * r.0)) <= 0x4_0000 * (2 * (size.1 * r.1) + r.1) + r.1
            &&& 1 < size.0 ==> 0x4_0000 * (2 * (size.0 * r.1)) <= 0x4_0000 * (2 * (width * r.0)
                + r.1) + r.1
            &&& 1 < size.1 ==> 0x4_0000 * (2 * (size.1 * r.1)) <= 0x4_0000 * (2 * (height * r.0)
                + r.1) + r.1
        }),
{
    let r = shrink_ratio(width as nat, height as nat, max_width as nat, max_height as nat);
    lemma_shrink_ratio(width as nat, height as nat, max_width as nat, max_height as nat);
    lemma_side_is_nearest(width, r.0, r.1);
    lemma_side_is_nearest(height, r.0, r.1);
}

/// The ratio in which an image shrinks is the smaller of the two that bring a side that is too long
/// into the box, and is one to one where neither is: it leaves neither side too long, and one that
/// was just as long as the box.
pub proof fn law_images_shrink_as_little_as_they_must(
    width: nat,
    height: nat,
    max_width: nat,
    max_height: nat,
)
    ensures
        ({
            let r = shrink_ratio(width, height, max_width, max_height);
            &&& 0 < r.1 && r.0 <= r.1
            &&& width * r.0 <= max_width * r.1
            &&& height * r.0 <= max_height * r.1
            &&& width <= max_width && height <= max_height ==> r.0 == r.1
            &&& max_width < width || max_height < height ==> width * r.0 == max_width * r.1
                || height * r.0 == max_height * r.1
        }),
{
    lemma_shrink_ratio(width, height, max_width, max_height);
}

proof fn lemma_half(side: u32, a: nat)
    requires
        0 < side,
        0 < a,
    ensures
        scaled_side(side as nat, nearest_double(a, 2 * a)) == (side + 1) / 2,
{
    vstd::arithmetic::power2::lemma2_to64();
    vstd::arithmetic::power2::lemma2_to64_rest();
    let den = 2 * a;
    assert(0x10_0000_0000_0000 * den == a * pow2(53)) by (nonlinear_arith)
        requires
            den == 2 * a,
            pow2(53) == 0x20_0000_0000_0000,
    ;
    assert(a * pow2(52) < a * pow2(53)) by (nonlinear_arith)
        requires
            0 < a,
            pow2(52) < pow2(53),
    ;
    lemma_binary_places(a, den, 53);
    let exact = a * pow2(53);
    assert(exact == 0x10_0000_0000_0000 * den);
    lemma_whole(0x10_0000_0000_0000, den);
    let num = (side * 0x10_0000_0000_0000) as nat;
    let unit = pow2(53);
    lemma_places_suffice(num, unit);
    let bits = binary_places(num, unit);
    assert(bits > 0) by {
        assert(num < 0x10_0000_0000_0000 * unit);
    }
    let f = pow2(bits);
    lemma_pow2_unfold(bits);
    lemma_pow2_pos((bits - 1) as nat);
    let half = pow2((bits - 1) as nat);
    let p = (side * half) as nat;
    assert(num * f == p * unit) by (nonlinear_arith)
        requires
            num == side * 0x10_0000_0000_0000,
            f == 2 * half,
            p == side * half,
            unit == 0x20_0000_0000_0000,
    ;
    lemma_whole(p, unit);
    assert(2 * p + f == (side + 1) * f) by (nonlinear_arith)
        requires
            f == 2 * half,
            p == side * half,
    ;
    vstd::arithmetic::div_mod::lemma_div_denominator(((side + 1) * f) as int, f as int, 2);
    vstd::arithmetic::div_mod::lemma_div_multiples_vanish((side + 1) as int, f as int);
    assert(f * (side + 1) == (side + 1) * f) by (nonlinear_arith);
    assert(f * 2 == 2 * f);
}

proof fn lemma_whole(q: nat, den: nat)
    requires
        0 < den,
    ensures
        round_to_even(q * den, den) == q,
{
    vstd::arithmetic::div_mod::lemma_div_by_multiple(q as int, den as int);
    vstd::arithmetic::div_mod::lemma_mod_multiples_basic(q as int, den as int);
}

/// Halves are rounded up: an image that shrinks to half its size has each side at half of it, and
/// where that is no whole number at the next.
pub proof fn law_halves_are_rounded_up(width: u32, height: u32, max_width: u32, max_height: u32)
    requires
        1 <= width,
        1 <= height,
        ({
            let r = shrink_ratio(width as nat, height as nat, max_width as nat, max_height as nat);
            0 < r.0 && r.1 == 2 * r.0
        }),
    ensures
        fitted(width as nat, height as nat, max_width as nat, max_height as nat) == (
            ((width + 1) / 2) as nat,
            ((height + 1) / 2) as nat,
        ),
{
    let r = shrink_ratio(width as nat, height as nat, max_width as nat, max_height as nat);
    lemma_half(width, r.0);
    lemma_half(height, r.0);
}

/// The point of the device that a point of a preview stands for, along one side: scaled by the
/// ratio of the sides and rounded to the nearest, a half upwards.
pub open spec fn device_point(x: nat, original: nat, shown: nat) -> nat {
    (2 * x * original + shown) / (2 * shown)
}

proof fn lemma_device_point(x: nat, original: nat, shown: nat)
    requires
        0 < shown <= original,
        x < shown,
    ensures
        device_point(x, original, shown) < original,
{
    assert(2 * x * original + shown < 2 * shown * original) by (nonlinear_arith)
        requires
            0 < shown <= original,
            x + 1 <= shown,
    ;
    vstd::arithmetic::div_mod::lemma_multiply_divide_lt(
        (2 * x * original + shown) as int,
        (2 * shown) as int,
        original as int,
    );
}

/// A point of a preview stands for a point of the device: scaled back, it stays on the screen. In
/// a preview of the same size each point stands for itself.
pub proof fn law_preview_points_are_on_the_device(
    width: u32,
    height: u32,
    max_width: u32,
    max_height: u32,
    x: nat,
    y: nat,
)
    requires
        1 <= width,
        1 <= height,
        x < fitted(width as nat, height as nat, max_width as nat, max_height as nat).0,
        y < fitted(width as nat, height as nat, max_width as nat, max_height as nat).1,
    ensures
        ({
            let size = fitted(width as nat, height as nat, max_width as nat, max_height as nat);
            &&& device_point(x, width as nat, size.0) < width
            &&& device_point(y, height as nat, size.1) < height
            &&& size.0 == width ==> device_point(x, width as nat, size.0) == x
            &&& size.1 == height ==> device_point(y, height as nat, size.1) == y
        }),
{
    let size = fitted(width as nat, height as nat, max_width as nat, max_height as nat);
    law_preview_is_never_larger(width, height, max_width, max_height);
    lemma_device_point(x, width as nat, size.0);
    lemma_device_point(y, height as nat, size.1);
    lemma_point_stays(x, width as nat);
    lemma_point_stays(y, height as nat);
}

proof fn lemma_point_stays(x: nat, side: nat)
    requires
        0 < side,
    ensures
        device_point(x, side, side) == x,
{
    assert(2 * x * side + side == x * (2 * side) + side) by (nonlinear_arith);
    vstd::arithmetic::div_mod::lemma_fundamental_div_mod_converse(
        (2 * x * side + side) as int,
        (2 * side) as int,
        x as int,
        side as int,
    );
}

/// The point of the device that a point of a preview stands for is the nearest to it, scaled back
/// exactly: half a pixel away at most, and the upper one of two that are as near.
pub proof fn law_device_points_are_nearest(x: nat, original: nat, shown: nat)
    requires
        0 < shown,
    ensures
        ({
            let point = device_point(x, original, shown);
            &&& 2 * (point * shown) <= 2 * (x * original) + shown
            &&& 2 * (x * original) < 2 * (point * shown) + shown
        }),
{
    let point = device_point(x, original, shown);
    let whole = 2 * x * original + shown;
    vstd::arithmetic::div_mod::lemma_fundamental_div_mod(whole as int, (2 * shown) as int);
    vstd::arithmetic::div_mod::lemma_mod_bound(whole as int, (2 * shown) as int);
    assert((2 * shown) * point == 2 * (point * shown)) by (nonlinear_arith);
    assert(2 * x * original == 2 * (x * original)) by (nonlinear_arith);
}

} // verus!
