//! Figures for labels, in the arithmetic of binary64 quotients done with
//! integers.

use crate::text::{cat2, cat4, count_text, decimal, number};
use vstd::prelude::*;

verus! {

/// Two to the 53rd: a binary64 significand is below it.
pub const SIGNIFICANDS: u128 = 9_007_199_254_740_992;

/// Two to the 64th.
pub const WORDS: u128 = 18_446_744_073_709_551_616;

/// The whole number nearest to `a / b`, the even one where two are as near.
pub open spec fn half_even(a: nat, b: nat) -> nat
    recommends
        b > 0,
{
    let q = a / b;
    let r = a % b;
    if 2 * r < b {
        q
    } else if 2 * r > b {
        q + 1
    } else {
        q + q % 2
    }
}

/// The whole number nearest to `a / b`, the even one where two are as near.
fn nearest_even(a: u128, b: u128) -> (n: u128)
    requires
        0 < b < WORDS * SIGNIFICANDS * 8,
        a < WORDS * SIGNIFICANDS * 8,
    ensures
        n == half_even(a as nat, b as nat),
        n <= a + 1,
{
    let q: u128 = a / b;
    let r: u128 = a % b;
    assert(q <= a) by (nonlinear_arith)
        requires
            q == a / b,
            b > 0,
    ;
    if 2 * r < b {
        q
    } else if 2 * r > b {
        q + 1
    } else {
        q + q % 2
    }
}

/// The power of two that brings `a / b` up to a full significand, one where it
/// has one already.
pub open spec fn upscale(a: nat, b: nat) -> nat
    decreases SIGNIFICANDS * b - a,
{
    if 0 < a && 2 * a < SIGNIFICANDS * b {
        2 * upscale(2 * a, b)
    } else {
        1
    }
}

/// The power of two that brings `a / b` down to a significand, one where it is
/// small enough already.
pub open spec fn downscale(a: nat, b: nat) -> nat
    decreases a - b,
{
    if 0 < b && a >= SIGNIFICANDS * b {
        2 * downscale(a, 2 * b)
    } else {
        1
    }
}

/// The binary64 number nearest to `a / b`, as the numerator and denominator of
/// a fraction.
pub open spec fn quotient(a: nat, b: nat) -> (nat, nat) {
    let up = upscale(a, b);
    let down = downscale(a, b);
    (half_even(a * up, b * down) * down, up)
}

/// The binary64 number nearest to a whole number.
pub open spec fn rounded(n: nat) -> nat {
    quotient(n, 1).0 / quotient(n, 1).1
}

/// The power of two that brings `a / b` up to a full significand.
fn up(a: u128, b: u128) -> (unit: u128)
    requires
        0 < a <= 2 * WORDS,
        0 < b <= 2 * WORDS,
    ensures
        unit == upscale(a as nat, b as nat),
        1 <= unit,
        unit == 1 || a * unit < SIGNIFICANDS * b,
{
    let limit: u128 = SIGNIFICANDS * b;
    let mut unit: u128 = 1;
    let mut x: u128 = a;
    while 2 * x < limit
        invariant
            0 < a <= 2 * WORDS,
            0 < b <= 2 * WORDS,
            limit == SIGNIFICANDS * b,
            x == a * unit,
            1 <= unit <= x,
            x <= 2 * WORDS * SIGNIFICANDS,
            unit == 1 || x < limit,
            upscale(a as nat, b as nat) == unit * upscale(x as nat, b as nat),
        decreases limit - x,
    {
        assert(2 * (a * unit) == a * (2 * unit)) by (nonlinear_arith);
        assert(unit * (2 * upscale((2 * x) as nat, b as nat)) == (2 * unit) * upscale(
            (2 * x) as nat,
            b as nat,
        )) by (nonlinear_arith);
        x = 2 * x;
        unit = 2 * unit;
    }
    assert(upscale(x as nat, b as nat) == 1);
    assert(unit * 1 == unit);
    unit
}

/// The power of two that brings `a / b` down to a significand.
fn down(a: u128, b: u128) -> (unit: u128)
    requires
        0 < a <= 2 * WORDS,
        0 < b <= 2 * WORDS,
    ensures
        unit == downscale(a as nat, b as nat),
        1 <= unit,
        unit == 1 || SIGNIFICANDS * (b * unit) <= 2 * a,
{
    let mut unit: u128 = 1;
    let mut y: u128 = b;
    while a >= SIGNIFICANDS * y
        invariant
            0 < a <= 2 * WORDS,
            y == b * unit,
            0 < b <= 2 * WORDS,
            1 <= unit <= y,
            y <= 2 * WORDS,
            unit == 1 || SIGNIFICANDS * y <= 2 * a,
            downscale(a as nat, b as nat) == unit * downscale(a as nat, y as nat),
        decreases a - y,
    {
        assert(2 * (b * unit) == b * (2 * unit)) by (nonlinear_arith);
        assert(unit * (2 * downscale(a as nat, (2 * y) as nat)) == (2 * unit) * downscale(
            a as nat,
            (2 * y) as nat,
        )) by (nonlinear_arith);
        y = 2 * y;
        unit = 2 * unit;
    }
    assert(downscale(a as nat, y as nat) == 1);
    assert(unit * 1 == unit);
    unit
}

/// A quotient that needs scaling down needs none up.
proof fn scales_one_way(a: nat, b: nat)
    requires
        0 < a,
        0 < b,
    ensures
        a >= SIGNIFICANDS * b ==> upscale(a, b) == 1,
        a < SIGNIFICANDS * b ==> downscale(a, b) == 1,
{
}

/// The binary64 number nearest to `a / b`, as a fraction.
fn divide(a: u128, b: u128) -> (q: (u128, u128))
    requires
        0 < a <= 2 * WORDS,
        0 < b <= 2 * WORDS,
    ensures
        (q.0 as nat, q.1 as nat) == quotient(a as nat, b as nat),
        1 <= q.1,
        q.1 <= 2 * WORDS * SIGNIFICANDS,
        q.0 <= 8 * WORDS * SIGNIFICANDS,
        a < SIGNIFICANDS * b ==> q.0 <= SIGNIFICANDS,
{
    let grow: u128 = up(a, b);
    let shrink: u128 = down(a, b);
    proof {
        scales_one_way(a as nat, b as nat);
    }
    if shrink == 1 {
        assert(a * 1 == a);
        assert(b * 1 == b);
        if grow == 1 {
            let n: u128 = nearest_even(a, b);
            assert(b == b * shrink && a == a * grow && n * 1 == n);
            proof {
                if a < SIGNIFICANDS * b {
                    half_even_bound(a as nat, b as nat, SIGNIFICANDS as nat);
                }
            }
            (n, 1)
        } else {
            assert(grow <= a * grow) by (nonlinear_arith)
                requires
                    a >= 1,
            ;
            let n: u128 = nearest_even(a * grow, b);
            proof {
                half_even_bound((a * grow) as nat, b as nat, SIGNIFICANDS as nat);
            }
            assert(n * 1 == n);
            (n, grow)
        }
    } else {
        assert(a >= SIGNIFICANDS * b);
        assert(b * shrink <= 2 * WORDS);
        assert(shrink <= b * shrink) by (nonlinear_arith)
            requires
                b >= 1,
        ;
        let n: u128 = nearest_even(a, b * shrink);
        assert(n * shrink <= (2 * WORDS + 1) * 8192) by (nonlinear_arith)
            requires
                n <= 2 * WORDS + 1,
                shrink <= 8192,
        ;
        assert(a * 1 == a);
        (n * shrink, 1)
    }
}

/// A quotient below a bound rounds to at most that bound.
proof fn half_even_bound(a: nat, b: nat, bound: nat)
    requires
        0 < b,
        a < bound * b,
    ensures
        half_even(a, b) <= bound,
{
    assert(a / b < bound) by (nonlinear_arith)
        requires
            0 < b,
            a < bound * b,
    ;
}

/// A token count shortened for a label.
///
/// Under a thousand it is exact. From there it is the binary64 quotient by a
/// thousand: to one decimal place below ten, the even one where two are as
/// near, and to the nearest whole number above, halves away from zero.
pub open spec fn compacted(n: nat) -> Seq<char> {
    if n < 1000 {
        decimal(n)
    } else {
        let (top, unit) = quotient(rounded(n), 1000);
        if top >= 10 * unit {
            decimal((2 * top + unit) / (2 * unit)) + "k"@
        } else {
            let tenths = half_even(10 * top, unit);
            decimal(tenths / 10) + "."@ + decimal(tenths % 10) + "k"@
        }
    }
}

/// A whole number below two to the 53rd is a binary64 number.
proof fn small_numbers_stay(n: nat)
    requires
        n < SIGNIFICANDS,
    ensures
        rounded(n) == n,
{
    let unit = upscale(n, 1);
    upscale_is_positive(n, 1);
    assert(n * unit / 1 == n * unit);
    assert(half_even(n * unit, 1) == n * unit);
    assert((n * unit) * 1 == n * unit);
    assert((n * unit) / unit == n) by (nonlinear_arith)
        requires
            unit > 0,
    ;
    if n > 0 {
        scales_one_way(n, 1);
    }
}

/// Scaling up is by at least one.
proof fn upscale_is_positive(a: nat, b: nat)
    ensures
        upscale(a, b) >= 1,
    decreases SIGNIFICANDS * b - a,
{
    if 0 < a && 2 * a < SIGNIFICANDS * b {
        upscale_is_positive(2 * a, b);
    }
}

/// The binary64 number nearest to a whole number.
fn round_whole(n: u128) -> (r: u128)
    requires
        n <= WORDS,
    ensures
        r == rounded(n as nat),
        r <= 2 * WORDS,
        r <= 2 * n,
        n <= 2 * r,
{
    if n < SIGNIFICANDS {
        proof {
            small_numbers_stay(n as nat);
        }
        return n;
    }
    let shrink: u128 = down(n, 1);
    proof {
        rounded_large(n as nat);
    }
    let m: u128 = nearest_even(n, shrink);
    proof {
        let q = n / shrink;
        let r = n % shrink;
        assert(n == shrink * q + r && 0 <= r < shrink) by (nonlinear_arith)
            requires
                shrink > 0,
                q == n / shrink,
                r == n % shrink,
        ;
        assert(m <= q + 1);
        assert(m * shrink <= q * shrink + shrink) by (nonlinear_arith)
            requires
                m <= q + 1,
                shrink > 0,
        ;
        assert(q * shrink == shrink * q) by (nonlinear_arith);
        assert(m * shrink <= n + shrink);
        assert(q > 0) by (nonlinear_arith)
            requires
                shrink > 0,
                q == n / shrink,
                n >= shrink,
        ;
        assert(q * shrink <= m * shrink) by (nonlinear_arith)
            requires
                q <= m,
                shrink > 0,
        ;
    }
    m * shrink
}

/// A token count shortened for a label: `117000` reads `117k`, `1500` reads
/// `1.5k`, and anything under a thousand stays exact.
pub fn compact_count(n: usize) -> (text: String)
    ensures
        text@ == compacted(n as nat),
{
    if n < 1000 {
        return count_text(n);
    }
    let whole: u128 = round_whole(n as u128);
    let (top, unit) = divide(whole, 1000);
    if top >= 10 * unit {
        let thousands: u128 = (2 * top + unit) / (2 * unit);
        let text = number_wide(thousands);
        cat2(text.as_str(), "k")
    } else {
        let tenths: u128 = nearest_even(10 * top, unit);
        proof {
            half_even_bound((10 * top) as nat, unit as nat, 100);
        }
        let ones = number((tenths / 10) as u64);
        let rest = number((tenths % 10) as u64);
        cat4(ones.as_str(), ".", rest.as_str(), "k")
    }
}

/// A number in decimal, beyond a word.
fn number_wide(n: u128) -> (text: String)
    ensures
        text@ == decimal(n as nat),
    decreases n,
{
    if n < 10 {
        number(n as u64)
    } else {
        let mut text = number_wide(n / 10);
        let last = number((n % 10) as u64);
        text.append(last.as_str());
        proof {
            let head = decimal((n / 10) as nat);
            let d = crate::text::digit((n % 10) as nat);
            assert(last@ =~= seq![d]);
            assert(head + seq![d] =~= head.push(d));
        }
        text
    }
}

/// The share of `whole` that `part` is, in percent, to the nearest whole number
/// of the binary64 product.
pub open spec fn share(part: nat, whole: nat) -> nat {
    let (top, unit) = quotient(rounded(part), rounded(whole));
    half_even(rounded(100 * top), unit)
}

/// What is at most `c` times `b` rounds to at most `c`.
proof fn half_even_at_most(a: nat, b: nat, c: nat)
    requires
        0 < b,
        a <= b * c,
    ensures
        half_even(a, b) <= c,
{
    let q = a / b;
    let r = a % b;
    assert(a == b * q + r && r < b) by (nonlinear_arith)
        requires
            0 < b,
            q == a / b,
            r == a % b,
    ;
    assert(q < c || (q == c && r == 0)) by (nonlinear_arith)
        requires
            0 < b,
            a == b * q + r,
            0 <= r,
            a <= b * c,
    ;
}

/// Rounding keeps order for one divisor.
proof fn half_even_is_monotone(a: nat, b: nat, d: nat)
    requires
        0 < d,
        a <= b,
    ensures
        half_even(a, d) <= half_even(b, d),
{
    let (p, r) = (a / d, a % d);
    let (q, t) = (b / d, b % d);
    assert(a == d * p + r && r < d && b == d * q + t && t < d) by (nonlinear_arith)
        requires
            0 < d,
            p == a / d,
            r == a % d,
            q == b / d,
            t == b % d,
    ;
    assert(p < q || (p == q && r <= t)) by (nonlinear_arith)
        requires
            0 < d,
            a == d * p + r,
            b == d * q + t,
            a <= b,
            0 <= r < d,
            0 <= t < d,
    ;
}

/// Whether a number is a power of two.
spec fn power_of_two(n: nat) -> bool
    decreases n,
{
    n == 1 || (n > 1 && n % 2 == 0 && power_of_two(n / 2))
}

/// A smaller power of two divides a larger one.
proof fn powers_divide(d: nat, u: nat)
    requires
        power_of_two(d),
        power_of_two(u),
        d <= u,
    ensures
        u == d * (u / d),
    decreases d,
{
    if d == 1 {
        assert(u / 1 == u);
    } else {
        powers_divide(d / 2, u / 2);
        let (e, v) = (d / 2, u / 2);
        let c = v / e;
        assert(d == 2 * e && u == 2 * v);
        assert(u / d == c) by (nonlinear_arith)
            requires
                e > 0,
                d == 2 * e,
                u == 2 * v,
                v == e * c,
        ;
        assert(u == d * c) by (nonlinear_arith)
            requires
                d == 2 * e,
                u == 2 * v,
                v == e * c,
        ;
    }
}

/// Scales are powers of two.
proof fn upscale_is_a_power(a: nat, b: nat)
    ensures
        power_of_two(upscale(a, b)),
    decreases SIGNIFICANDS * b - a,
{
    if 0 < a && 2 * a < SIGNIFICANDS * b {
        upscale_is_a_power(2 * a, b);
        let half = upscale(2 * a, b);
        assert((2 * half) / 2 == half);
    }
}

/// Scales are powers of two, and scaling down stops in time.
proof fn downscale_is_a_power(a: nat, b: nat)
    requires
        0 < b,
    ensures
        power_of_two(downscale(a, b)),
        downscale(a, b) == 1 || SIGNIFICANDS * (b * downscale(a, b)) <= 2 * a,
        a < SIGNIFICANDS * (b * downscale(a, b)),
    decreases a - b,
{
    if a >= SIGNIFICANDS * b {
        downscale_is_a_power(a, 2 * b);
        let half = downscale(a, 2 * b);
        assert((2 * half) / 2 == half);
        assert((2 * b) * half == b * (2 * half)) by (nonlinear_arith);
        assert((2 * b) * 1 == 2 * b);
    } else {
        assert(b * 1 == b);
    }
}

/// Larger numbers are scaled down as much or at least twice as much.
proof fn downscale_steps(a: nat, c: nat, b: nat)
    requires
        0 < b,
        a <= c,
    ensures
        downscale(a, b) == downscale(c, b) || 2 * downscale(a, b) <= downscale(c, b),
    decreases c - b,
{
    downscale_is_a_power(c, b);
    if a >= SIGNIFICANDS * b {
        downscale_steps(a, c, 2 * b);
    } else if c >= SIGNIFICANDS * b {
        downscale_is_a_power(c, 2 * b);
    }
}

/// What a whole number from two to the 53rd on rounds to.
proof fn rounded_large(n: nat)
    requires
        n >= SIGNIFICANDS,
    ensures
        rounded(n) == half_even(n, downscale(n, 1)) * downscale(n, 1),
        SIGNIFICANDS * downscale(n, 1) <= 2 * n,
        n < SIGNIFICANDS * downscale(n, 1),
        power_of_two(downscale(n, 1)),
{
    scales_one_way(n, 1);
    downscale_is_a_power(n, 1);
    let d = downscale(n, 1);
    assert(1 * d == d);
    assert(n * 1 == n);
    assert((half_even(n, d) * d) / 1 == half_even(n, d) * d);
}

/// Rounding to binary64 keeps the order of whole numbers.
pub proof fn rounding_keeps_order(a: nat, b: nat)
    requires
        a <= b,
    ensures
        rounded(a) <= rounded(b),
{
    if b < SIGNIFICANDS {
        small_numbers_stay(a);
        small_numbers_stay(b);
        return;
    }
    rounded_large(b);
    let d = downscale(b, 1);
    let top = half_even(b, d);
    assert(2 * (b / d) >= SIGNIFICANDS) by (nonlinear_arith)
        requires
            d > 0,
            SIGNIFICANDS * d <= 2 * b,
            SIGNIFICANDS % 2 == 0,
    ;
    assert(2 * (top * d) >= SIGNIFICANDS * d) by (nonlinear_arith)
        requires
            2 * top >= SIGNIFICANDS,
    ;
    if a < SIGNIFICANDS {
        small_numbers_stay(a);
        assert(d >= 2) by {
            reveal_with_fuel(downscale, 2);
        }
    } else {
        rounded_large(a);
        downscale_steps(a, b, 1);
        let e = downscale(a, 1);
        let low = half_even(a, e);
        if e == d {
            half_even_is_monotone(a, b, d);
            assert(low * d <= top * d) by (nonlinear_arith)
                requires
                    low <= top,
            ;
        } else {
            assert(a <= e * SIGNIFICANDS) by (nonlinear_arith)
                requires
                    a < SIGNIFICANDS * e,
            ;
            half_even_at_most(a, e, SIGNIFICANDS as nat);
            assert(low * e <= SIGNIFICANDS * e) by (nonlinear_arith)
                requires
                    low <= SIGNIFICANDS,
            ;
        }
    }
}

/// A part is never more than a hundred percent of its whole.
pub proof fn share_is_at_most_all(part: nat, whole: nat)
    requires
        0 < part <= whole,
    ensures
        share(part, whole) <= 100,
{
    let (p, w) = (rounded(part), rounded(whole));
    rounding_keeps_order(part, whole);
    rounding_keeps_order(1, part);
    small_numbers_stay(1);
    assert(p < SIGNIFICANDS * w) by (nonlinear_arith)
        requires
            0 < p <= w,
    ;
    scales_one_way(p, w);
    let u = upscale(p, w);
    upscale_is_a_power(p, w);
    upscale_is_positive(p, w);
    assert(w * 1 == w);
    assert(p * u <= w * u) by (nonlinear_arith)
        requires
            p <= w,
    ;
    half_even_at_most(p * u, w, u);
    let top = half_even(p * u, w);
    assert(quotient(p, w) == (top, u));
    let n = 100 * top;
    if n < SIGNIFICANDS {
        small_numbers_stay(n);
    } else {
        rounded_large(n);
        let d = downscale(n, 1);
        powers_divide(d, u);
        let c = u / d;
        assert(n <= d * (100 * c)) by (nonlinear_arith)
            requires
                n <= 100 * u,
                u == d * c,
        ;
        half_even_at_most(n, d, 100 * c);
        assert(half_even(n, d) * d <= 100 * u) by (nonlinear_arith)
            requires
                half_even(n, d) <= 100 * c,
                u == d * c,
        ;
    }
    assert(rounded(n) <= u * 100);
    half_even_at_most(rounded(n), u, 100);
}

/// The share of `whole` that `part` is, in percent.
pub fn share_percent(part: usize, whole: usize) -> (percent: u64)
    requires
        0 < part <= whole,
    ensures
        percent == share(part as nat, whole as nat),
        percent <= 100,
{
    let p: u128 = round_whole(part as u128);
    let w: u128 = round_whole(whole as u128);
    proof {
        share_is_at_most_all(part as nat, whole as nat);
        assert(p < SIGNIFICANDS * w) by (nonlinear_arith)
            requires
                0 < p <= 4 * w,
        ;
    }
    let (top, unit) = divide(p, w);
    let scaled: u128 = round_whole(100 * top);
    let percent: u128 = nearest_even(scaled, unit);
    percent as u64
}

/// A token count as the panes show it: exact under a thousand, in thousands
/// under a million, else in millions, rounded down.
pub open spec fn token_figure(n: nat) -> Seq<char> {
    if n < 1000 {
        decimal(n)
    } else if n < 1_000_000 {
        decimal(n / 1000) + "k"@
    } else {
        decimal(n / 1_000_000) + "M"@
    }
}

/// A token count as the panes show it.
pub fn format_tokens(n: usize) -> (text: String)
    ensures
        text@ == token_figure(n as nat),
{
    let n: u64 = n as u64;
    if n < 1000 {
        number(n)
    } else if n < 1_000_000 {
        let thousands = number(n / 1000);
        cat2(thousands.as_str(), "k")
    } else {
        let millions = number(n / 1_000_000);
        cat2(millions.as_str(), "M")
    }
}

// ── How near the figures are ─────────────────────────────────────────────────

/// The nearest whole number is no further than half away, and is even where it is half.
pub proof fn the_nearest_is_at_most_half_away(a: nat, b: nat)
    requires
        b > 0,
    ensures
        ({
            let near = half_even(a, b);
            &&& 2 * (near * b) <= 2 * a + b
            &&& 2 * a <= 2 * (near * b) + b
            &&& (2 * (near * b) == 2 * a + b || 2 * a == 2 * (near * b) + b ==> near % 2 == 0)
        }),
{
    let q = a / b;
    let r = a % b;
    assert(a == q * b + r && r < b) by (nonlinear_arith)
        requires
            0 < b,
            q == a / b,
            r == a % b,
    ;
    assert((q + 1) * b == q * b + b) by (nonlinear_arith);
    assert((q + q % 2) % 2 == 0);
}

/// Scaling up reaches a full significand.
proof fn upscale_reaches(a: nat, b: nat)
    requires
        0 < a,
        0 < b,
    ensures
        SIGNIFICANDS * b <= 2 * (a * upscale(a, b)),
    decreases SIGNIFICANDS * b - a,
{
    if 2 * a < SIGNIFICANDS * b {
        upscale_reaches(2 * a, b);
        let half = upscale(2 * a, b);
        assert((2 * a) * half == a * (2 * half)) by (nonlinear_arith);
    } else {
        assert(a * 1 == a);
    }
}

/// A quotient below the significands is within half of its last place.
proof fn a_quotient_is_near(a: nat, b: nat)
    requires
        0 < a < SIGNIFICANDS * b,
        0 < b,
    ensures
        ({
            let (top, unit) = quotient(a, b);
            &&& unit > 0
            &&& 2 * (top * b) <= 2 * (a * unit) + b
            &&& 2 * (a * unit) <= 2 * (top * b) + b
            &&& SIGNIFICANDS * b <= 2 * (a * unit)
        }),
{
    scales_one_way(a, b);
    upscale_is_positive(a, b);
    upscale_reaches(a, b);
    let unit = upscale(a, b);
    assert(b * 1 == b);
    the_nearest_is_at_most_half_away(a * unit, b);
    assert(half_even(a * unit, b) * 1 == half_even(a * unit, b));
}

/// A count under a thousand is shown as it is. From there on it is shown in thousands: to the
/// nearest tenth where it is short, so that a hundred times the tenths is at most fifty away,
/// and to the nearest thousand where it is long, at most five hundred away.
pub proof fn a_compact_count_is_near(n: nat) -> (figure: nat)
    requires
        n < SIGNIFICANDS,
    ensures
        n < 1000 ==> compacted(n) == decimal(n),
        1000 <= n < 9950 ==> compacted(n) == decimal(figure / 10) + "."@ + decimal(figure % 10)
            + "k"@ && 100 * figure <= n + 50 && n <= 100 * figure + 50,
        n >= 10_000 ==> compacted(n) == decimal(figure) + "k"@ && 1000 * figure <= n + 500 && n
            <= 1000 * figure + 500,
{
    if n < 1000 {
        0
    } else {
        small_numbers_stay(n);
        a_quotient_is_near(n, 1000);
        let (top, unit) = quotient(n, 1000);
        assert(unit > 500) by (nonlinear_arith)
            requires
                SIGNIFICANDS * 1000 <= 2 * (n * unit),
                0 < n < SIGNIFICANDS,
        ;
        if top >= 10 * unit {
            let k = (2 * top + unit) / (2 * unit);
            assert(2 * (k * unit) <= 2 * top + unit && 2 * top < 2 * (k * unit) + unit)
                by (nonlinear_arith)
                requires
                    unit > 0,
                    k == (2 * top + unit) / (2 * unit),
            ;
            assert(1000 * k <= n + 500 && n <= 1000 * k + 500) by (nonlinear_arith)
                requires
                    unit > 500,
                    2 * (k * unit) <= 2 * top + unit,
                    2 * top < 2 * (k * unit) + unit,
                    2 * (top * 1000) <= 2 * (n * unit) + 1000,
                    2 * (n * unit) <= 2 * (top * 1000) + 1000,
            ;
            assert(n >= 9950) by (nonlinear_arith)
                requires
                    unit > 500,
                    top >= 10 * unit,
                    2 * (top * 1000) <= 2 * (n * unit) + 1000,
            ;
            k
        } else {
            let tenths = half_even(10 * top, unit);
            the_nearest_is_at_most_half_away(10 * top, unit);
            assert(100 * tenths <= n + 50 && n <= 100 * tenths + 50) by (nonlinear_arith)
                requires
                    unit > 500,
                    2 * (tenths * unit) <= 2 * (10 * top) + unit,
                    2 * (10 * top) <= 2 * (tenths * unit) + unit,
                    2 * (top * 1000) <= 2 * (n * unit) + 1000,
                    2 * (n * unit) <= 2 * (top * 1000) + 1000,
            ;
            assert(n < 10_000) by (nonlinear_arith)
                requires
                    unit > 500,
                    top < 10 * unit,
                    2 * (n * unit) <= 2 * (top * 1000) + 1000,
            ;
            tenths
        }
    }
}

/// A percentage is the nearest: as many hundredths of the whole are at most half a hundredth
/// away from the part.
pub proof fn a_share_is_the_nearest_percent(part: nat, whole: nat)
    requires
        0 < part <= whole <= 0x1_0000_0000,
    ensures
        2 * (share(part, whole) * whole) <= 200 * part + whole,
        200 * part <= 2 * (share(part, whole) * whole) + whole,
        share(whole, whole) == 100,
{
    near_percent(part, whole);
    near_percent(whole, whole);
    let all = share(whole, whole);
    assert(all == 100) by (nonlinear_arith)
        requires
            0 < whole,
            2 * (all * whole) <= 200 * whole + whole,
            200 * whole <= 2 * (all * whole) + whole,
    ;
}

/// How far a percentage is from its part.
proof fn near_percent(part: nat, whole: nat)
    requires
        0 < part <= whole <= 0x1_0000_0000,
    ensures
        2 * (share(part, whole) * whole) <= 200 * part + whole,
        200 * part <= 2 * (share(part, whole) * whole) + whole,
{
    small_numbers_stay(part);
    small_numbers_stay(whole);
    assert(part < SIGNIFICANDS * whole) by (nonlinear_arith)
        requires
            0 < part <= whole,
    ;
    a_quotient_is_near(part, whole);
    let (top, unit) = quotient(part, whole);
    assert(2 * unit >= SIGNIFICANDS) by (nonlinear_arith)
        requires
            SIGNIFICANDS * whole <= 2 * (part * unit),
            0 < part <= whole,
    ;
    assert(part * unit < 2 * (SIGNIFICANDS * whole)) by {
        below_twice(part, whole);
    }
    assert(top < 4 * SIGNIFICANDS) by (nonlinear_arith)
        requires
            2 * (top * whole) <= 2 * (part * unit) + whole,
            part * unit < 2 * (SIGNIFICANDS * whole),
            whole > 0,
    ;
    let product = rounded(100 * top);
    whole_numbers_round_nearby(100 * top);
    let s = half_even(product, unit);
    the_nearest_is_at_most_half_away(product, unit);
    assert(2 * (s * whole) <= 200 * part + whole && 200 * part <= 2 * (s * whole) + whole)
        by (nonlinear_arith)
        requires
            0 < part <= whole <= 0x1_0000_0000,
            2 * unit >= SIGNIFICANDS,
            2 * (s * unit) <= 2 * product + unit,
            2 * product <= 2 * (s * unit) + unit,
            product <= 100 * top + 1024,
            100 * top <= product + 1024,
            2 * (top * whole) <= 2 * (part * unit) + whole,
            2 * (part * unit) <= 2 * (top * whole) + whole,
    {
        assert(2 * (s * unit) * whole <= 2 * product * whole + unit * whole);
        assert(2 * product * whole <= 2 * (s * unit) * whole + unit * whole);
        assert(product * whole <= 100 * top * whole + 1024 * whole);
        assert(100 * top * whole <= product * whole + 1024 * whole);
        let x = s * whole;
        assert(2 * (s * unit) * whole == 2 * x * unit);
        assert(2 * x * unit <= 200 * part * unit + unit * whole + 2148 * whole);
        assert(200 * part * unit <= 2 * x * unit + unit * whole + 2148 * whole);
        assert(2148 * whole < unit);
        assert((2 * x - 200 * part - whole) * unit < unit);
        assert((200 * part - 2 * x - whole) * unit < unit);
        assert(2 * x - 200 * part - whole < 1);
        assert(200 * part - 2 * x - whole < 1);
    }
}

/// Scaling up stops below twice a full significand.
proof fn below_twice(a: nat, b: nat)
    requires
        0 < a < SIGNIFICANDS * b,
        0 < b,
    ensures
        a * upscale(a, b) < 2 * (SIGNIFICANDS * b),
    decreases SIGNIFICANDS * b - a,
{
    if 2 * a < SIGNIFICANDS * b {
        below_twice(2 * a, b);
        let half = upscale(2 * a, b);
        assert((2 * a) * half == a * (2 * half)) by (nonlinear_arith);
    } else {
        assert(a * 1 == a);
    }
}

/// A whole number of moderate size rounds to one nearby.
proof fn whole_numbers_round_nearby(n: nat)
    requires
        n < 400 * SIGNIFICANDS,
    ensures
        rounded(n) <= n + 1024,
        n <= rounded(n) + 1024,
{
    if n < SIGNIFICANDS {
        small_numbers_stay(n);
    } else {
        rounded_large(n);
        let d = downscale(n, 1);
        assert(d <= 800) by (nonlinear_arith)
            requires
                SIGNIFICANDS * d <= 2 * n,
                n < 400 * SIGNIFICANDS,
        ;
        assert(d > 0);
        the_nearest_is_at_most_half_away(n, d);
    }
}

/// A figure in thousands or millions is rounded down: it is the most of them that the count
/// holds.
pub proof fn a_token_figure_is_rounded_down(n: nat) -> (figure: nat)
    ensures
        n < 1000 ==> token_figure(n) == decimal(n),
        1000 <= n < 1_000_000 ==> token_figure(n) == decimal(figure) + "k"@ && 1000 * figure <= n
            < 1000 * (figure + 1),
        n >= 1_000_000 ==> token_figure(n) == decimal(figure) + "M"@ && 1_000_000 * figure <= n
            < 1_000_000 * (figure + 1),
{
    if n < 1_000_000 {
        n / 1000
    } else {
        n / 1_000_000
    }
}

} // verus!
