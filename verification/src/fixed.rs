//! Signed fixed-point numbers with ten fractional bits, and 2D vectors
//! over them. All motion math in the game runs on these: they keep the
//! simulation deterministic and hardware-friendly (no floating point).

use vstd::prelude::*;
use vstd::arithmetic::div_mod::*;

verus! {

/// Raw steps per whole unit: ten fractional bits.
pub const FRAC: i32 = 1024;

/// Truncating (round-toward-zero) division, for a positive divisor.
/// This is what `/` does on the console's signed integers.
pub open spec fn tdiv(a: int, b: int) -> int {
    if a >= 0 {
        a / b
    } else {
        -((-a) / b)
    }
}

/// Raw value of a fixed-point product: the wide raw product, scaled back
/// down by one unit.
pub open spec fn fmul(a: int, b: int) -> int {
    tdiv(a * b, FRAC as int)
}

/// Raw value of a fixed-point quotient: the dividend is scaled up by one
/// unit before the divide.
pub open spec fn fdiv(a: int, b: int) -> int {
    tdiv(a * (FRAC as int), b)
}

/// Floor of the integer square root.
pub open spec fn isqrt(v: int) -> int
    decreases v,
{
    if v <= 0 {
        0
    } else {
        let r = isqrt(v - 1);
        if (r + 1) * (r + 1) <= v {
            r + 1
        } else {
            r
        }
    }
}

/// A truncating quotient lies between zero and the dividend, and its
/// magnitude is bounded by `m / b` for any bound `m` on the dividend.
pub proof fn lemma_tdiv_bound(a: int, b: int, m: int)
    requires
        0 < b,
        -m <= a <= m,
    ensures
        -(m / b) <= tdiv(a, b) <= m / b,
        a >= 0 ==> 0 <= tdiv(a, b) <= a,
        a <= 0 ==> a <= tdiv(a, b) <= 0,
{
    assert(0 <= m) by {
        assert(-m <= m);
    }
    lemma_div_pos_is_pos(m, b);
    if a >= 0 {
        lemma_div_pos_is_pos(a, b);
        lemma_div_is_ordered(a, m, b);
        lemma_div_nonincreasing(a, b);
    } else {
        lemma_div_pos_is_pos(-a, b);
        lemma_div_is_ordered(-a, m, b);
        lemma_div_nonincreasing(-a, b);
    }
}

/// The integer square root really is the floor of the square root.
pub proof fn lemma_isqrt(v: int)
    requires
        v >= 0,
    ensures
        isqrt(v) >= 0,
        isqrt(v) * isqrt(v) <= v,
        v < (isqrt(v) + 1) * (isqrt(v) + 1),
    decreases v,
{
    if v > 0 {
        lemma_isqrt(v - 1);
        let r = isqrt(v - 1);
        if (r + 1) * (r + 1) <= v {
            assert(v <= (r + 1) * (r + 1)) by {
                assert(v - 1 < (r + 1) * (r + 1));
            }
            assert((r + 2) * (r + 2) > (r + 1) * (r + 1)) by (nonlinear_arith)
                requires r >= 0;
        }
    }
}

/// Any `r` whose square brackets `v` is the integer square root of `v`.
pub proof fn lemma_isqrt_unique(v: int, r: int)
    requires
        v >= 0,
        r >= 0,
        r * r <= v,
        v < (r + 1) * (r + 1),
    ensures
        r == isqrt(v),
{
    lemma_isqrt(v);
    let s = isqrt(v);
    if r < s {
        assert((r + 1) * (r + 1) <= s * s) by (nonlinear_arith)
            requires 0 <= r + 1 <= s;
    }
    if s < r {
        assert((s + 1) * (s + 1) <= r * r) by (nonlinear_arith)
            requires 0 <= s + 1 <= r;
    }
}

/// The integer square root is monotone.
pub proof fn lemma_isqrt_le(a: int, b: int)
    requires
        0 <= a <= b,
    ensures
        isqrt(a) <= isqrt(b),
{
    lemma_isqrt(a);
    lemma_isqrt(b);
    let ra = isqrt(a);
    let rb = isqrt(b);
    if rb < ra {
        assert((rb + 1) * (rb + 1) <= ra * ra) by (nonlinear_arith)
            requires 0 <= rb + 1 <= ra;
    }
}

/// The integer square root of a perfect square.
pub proof fn lemma_isqrt_square(x: int)
    requires
        x >= 0,
    ensures
        isqrt(x * x) == x,
{
    assert(x * x < (x + 1) * (x + 1)) by (nonlinear_arith)
        requires x >= 0;
    lemma_isqrt_unique(x * x, x);
}

/// Truncating division on machine words, matching `tdiv`.
pub fn div_trunc(a: i64, b: i64) -> (q: i64)
    requires
        0 < b,
    ensures
        q == tdiv(a as int, b as int),
{
    proof {
        if a >= 0 {
            lemma_div_pos_is_pos(a as int, b as int);
            lemma_div_nonincreasing(a as int, b as int);
        } else {
            lemma_div_pos_is_pos(-(a as int), b as int);
            lemma_div_nonincreasing(-(a as int), b as int);
        }
    }
    a.checked_div(b).unwrap()
}

/// Floor division on machine words: the Euclidean quotient `a / b`
/// of the specification language, for a positive divisor.
pub fn div_floor(a: i64, b: i64) -> (q: i64)
    requires
        0 < b,
        i64::MIN < a,
    ensures
        q == a as int / b as int,
{
    if a >= 0 {
        div_trunc(a, b)
    } else {
        let n: u64 = (-a) as u64;
        let q0: u64 = n / b as u64;
        let r0: u64 = n % b as u64;
        proof {
            lemma_fundamental_div_mod(n as int, b as int);
            lemma_div_pos_is_pos(n as int, b as int);
            lemma_div_nonincreasing(n as int, b as int);
            assert(n as int == (b as int) * (q0 as int) + r0 as int);
            if r0 == 0 {
                assert(a as int == (-(q0 as int)) * (b as int) + 0) by (nonlinear_arith)
                    requires
                        a as int == -(n as int),
                        n as int == (b as int) * (q0 as int),
                ;
                lemma_fundamental_div_mod_converse(a as int, b as int, -(q0 as int), 0);
            } else {
                assert(a as int == (-(q0 as int) - 1) * (b as int) + (b as int - r0 as int))
                    by (nonlinear_arith)
                    requires
                        a as int == -(n as int),
                        n as int == (b as int) * (q0 as int) + r0 as int,
                ;
                lemma_fundamental_div_mod_converse(
                    a as int,
                    b as int,
                    -(q0 as int) - 1,
                    b - r0 as int,
                );
            }
        }
        if r0 == 0 {
            -(q0 as i64)
        } else {
            -(q0 as i64) - 1
        }
    }
}

/// Exact integer square root of a 64-bit value, by bisection.
pub fn isqrt64(v: u64) -> (r: u64)
    ensures
        r == isqrt(v as int),
{
    let mut lo: u64 = 0;
    let mut hi: u64 = 0x1_0000_0000;
    proof {
        assert((0x1_0000_0000 as int) * (0x1_0000_0000 as int) > u64::MAX as int);
    }
    while lo + 1 < hi
        invariant
            lo < hi <= 0x1_0000_0000,
            (lo as int) * (lo as int) <= v as int,
            (v as int) < (hi as int) * (hi as int),
        decreases hi - lo,
    {
        let mid = lo + (hi - lo) / 2;
        proof {
            assert((mid as int) * (mid as int) <= 0x1_0000_0000 * 0x1_0000_0000)
                by (nonlinear_arith)
                requires 0 <= mid as int <= 0x1_0000_0000;
        }
        let sq: u128 = (mid as u128) * (mid as u128);
        if sq <= v as u128 {
            lo = mid;
        } else {
            hi = mid;
        }
    }
    proof {
        lemma_isqrt_unique(v as int, lo as int);
    }
    lo
}

/// One signed fixed-point number: `raw` counts 1024ths of a unit.
#[derive(Clone, Copy, PartialEq, Eq, Structural, Debug)]
pub struct Fix {
    pub raw: i32,
}

impl Fix {
    /// The whole number `n`.
    pub fn from_int(n: i32) -> (r: Fix)
        requires
            -0x1f_ffff <= n <= 0x1f_ffff,
        ensures
            r.raw == n * 1024,
    {
        Fix { raw: n * 1024 }
    }

    pub fn zero() -> (r: Fix)
        ensures
            r.raw == 0,
    {
        Fix { raw: 0 }
    }

    pub fn plus(self, o: Fix) -> (r: Fix)
        requires
            i32::MIN <= self.raw + o.raw <= i32::MAX,
        ensures
            r.raw == self.raw + o.raw,
    {
        Fix { raw: self.raw + o.raw }
    }

    pub fn minus(self, o: Fix) -> (r: Fix)
        requires
            i32::MIN <= self.raw - o.raw <= i32::MAX,
        ensures
            r.raw == self.raw - o.raw,
    {
        Fix { raw: self.raw - o.raw }
    }

    /// Multiplication by a plain integer.
    pub fn scale(self, n: i32) -> (r: Fix)
        requires
            i32::MIN <= self.raw * n <= i32::MAX,
        ensures
            r.raw == self.raw * n,
    {
        let p: i64 = (self.raw as i64) * (n as i64);
        proof {
            assert(i32::MIN <= p <= i32::MAX);
        }
        Fix { raw: p as i32 }
    }

    /// Truncating division by a positive plain integer.
    pub fn div_int(self, n: i32) -> (r: Fix)
        requires
            0 < n,
        ensures
            r.raw == tdiv(self.raw as int, n as int),
    {
        let q = div_trunc(self.raw as i64, n as i64);
        proof {
            lemma_tdiv_bound(self.raw as int, n as int, 0x8000_0000);
        }
        Fix { raw: q as i32 }
    }

    /// Fixed-point multiplication.
    pub fn times(self, o: Fix) -> (r: Fix)
        requires
            i32::MIN <= fmul(self.raw as int, o.raw as int) <= i32::MAX,
        ensures
            r.raw == fmul(self.raw as int, o.raw as int),
    {
        let p: i64 = (self.raw as i64) * (o.raw as i64);
        let q = div_trunc(p, 1024);
        Fix { raw: q as i32 }
    }

    /// Fixed-point division by a positive fixed-point number.
    pub fn div_fix(self, o: Fix) -> (r: Fix)
        requires
            0 < o.raw,
            i32::MIN <= fdiv(self.raw as int, o.raw as int) <= i32::MAX,
        ensures
            r.raw == fdiv(self.raw as int, o.raw as int),
    {
        let p: i64 = (self.raw as i64) * 1024;
        let q = div_trunc(p, o.raw as i64);
        Fix { raw: q as i32 }
    }

    /// The largest whole number not above this one.
    pub fn floor(self) -> (r: i32)
        ensures
            r == self.raw as int / 1024,
    {
        let q = div_floor(self.raw as i64, 1024);
        proof {
            if self.raw >= 0 {
                lemma_div_pos_is_pos(self.raw as int, 1024);
                lemma_div_nonincreasing(self.raw as int, 1024);
            } else {
                lemma_div_is_ordered(self.raw as int, 0, 1024);
                lemma_div_is_ordered(-0x8000_0000, self.raw as int, 1024);
                lemma_fundamental_div_mod_converse(-0x8000_0000, 1024, -0x20_0000, 0);
                lemma_div_of0(1024);
            }
        }
        q as i32
    }

    pub fn abs(self) -> (r: Fix)
        requires
            self.raw != i32::MIN,
        ensures
            r.raw == if self.raw >= 0 { self.raw as int } else { -(self.raw as int) },
    {
        if self.raw >= 0 {
            self
        } else {
            Fix { raw: -self.raw }
        }
    }
}

/// The raw components of a vector, as unbounded integers.
pub ghost struct V2 {
    pub x: int,
    pub y: int,
}

/// A 2D fixed-point vector.
#[derive(Clone, Copy, PartialEq, Eq, Structural, Debug)]
pub struct Vec2 {
    pub x: Fix,
    pub y: Fix,
}

impl View for Vec2 {
    type V = V2;

    open spec fn view(&self) -> V2 {
        V2 { x: self.x.raw as int, y: self.y.raw as int }
    }
}

pub open spec fn v2(x: int, y: int) -> V2 {
    V2 { x: x, y: y }
}

pub open spec fn v2_add(a: V2, b: V2) -> V2 {
    V2 { x: a.x + b.x, y: a.y + b.y }
}

pub open spec fn v2_sub(a: V2, b: V2) -> V2 {
    V2 { x: a.x - b.x, y: a.y - b.y }
}

pub open spec fn v2_scale(a: V2, n: int) -> V2 {
    V2 { x: a.x * n, y: a.y * n }
}

pub open spec fn v2_div_int(a: V2, n: int) -> V2 {
    V2 { x: tdiv(a.x, n), y: tdiv(a.y, n) }
}

pub open spec fn v2_mul_fix(a: V2, f: int) -> V2 {
    V2 { x: fmul(a.x, f), y: fmul(a.y, f) }
}

pub open spec fn v2_div_fix(a: V2, f: int) -> V2 {
    V2 { x: fdiv(a.x, f), y: fdiv(a.y, f) }
}

/// Raw length of a vector: the square root of the raw squared length.
/// (The squared raw length is exactly the squared length scaled by one
/// unit squared, so its square root is the length's raw value.)
pub open spec fn v2_mag(a: V2) -> int {
    isqrt(a.x * a.x + a.y * a.y)
}

/// The unit vector along `a`, or zero when `a` is zero (guarded: never a
/// divide by zero).
pub open spec fn v2_norm(a: V2) -> V2 {
    if v2_mag(a) == 0 {
        V2 { x: 0, y: 0 }
    } else {
        v2_div_fix(a, v2_mag(a))
    }
}

impl Vec2 {
    pub fn new(x: Fix, y: Fix) -> (r: Vec2)
        ensures
            r@ == (V2 { x: x.raw as int, y: y.raw as int }),
    {
        Vec2 { x, y }
    }

    pub fn from_ints(x: i32, y: i32) -> (r: Vec2)
        requires
            -0x1f_ffff <= x <= 0x1f_ffff,
            -0x1f_ffff <= y <= 0x1f_ffff,
        ensures
            r@ == v2(x * 1024, y * 1024),
    {
        Vec2 { x: Fix::from_int(x), y: Fix::from_int(y) }
    }

    pub fn zero() -> (r: Vec2)
        ensures
            r@ == v2(0, 0),
    {
        Vec2 { x: Fix::zero(), y: Fix::zero() }
    }

    pub fn plus(self, o: Vec2) -> (r: Vec2)
        requires
            i32::MIN <= self@.x + o@.x <= i32::MAX,
            i32::MIN <= self@.y + o@.y <= i32::MAX,
        ensures
            r@ == v2_add(self@, o@),
    {
        Vec2 { x: self.x.plus(o.x), y: self.y.plus(o.y) }
    }

    pub fn minus(self, o: Vec2) -> (r: Vec2)
        requires
            i32::MIN <= self@.x - o@.x <= i32::MAX,
            i32::MIN <= self@.y - o@.y <= i32::MAX,
        ensures
            r@ == v2_sub(self@, o@),
    {
        Vec2 { x: self.x.minus(o.x), y: self.y.minus(o.y) }
    }

    pub fn scale(self, n: i32) -> (r: Vec2)
        requires
            i32::MIN <= self@.x * n <= i32::MAX,
            i32::MIN <= self@.y * n <= i32::MAX,
        ensures
            r@ == v2_scale(self@, n as int),
    {
        Vec2 { x: self.x.scale(n), y: self.y.scale(n) }
    }

    pub fn div_int(self, n: i32) -> (r: Vec2)
        requires
            0 < n,
        ensures
            r@ == v2_div_int(self@, n as int),
    {
        Vec2 { x: self.x.div_int(n), y: self.y.div_int(n) }
    }

    pub fn mul_fix(self, f: Fix) -> (r: Vec2)
        requires
            i32::MIN <= fmul(self@.x, f.raw as int) <= i32::MAX,
            i32::MIN <= fmul(self@.y, f.raw as int) <= i32::MAX,
        ensures
            r@ == v2_mul_fix(self@, f.raw as int),
    {
        Vec2 { x: self.x.times(f), y: self.y.times(f) }
    }

    pub fn div_fix(self, f: Fix) -> (r: Vec2)
        requires
            0 < f.raw,
            i32::MIN <= fdiv(self@.x, f.raw as int) <= i32::MAX,
            i32::MIN <= fdiv(self@.y, f.raw as int) <= i32::MAX,
        ensures
            r@ == v2_div_fix(self@, f.raw as int),
    {
        Vec2 { x: self.x.div_fix(f), y: self.y.div_fix(f) }
    }

    /// Length of the vector, as a fixed-point number.
    pub fn magnitude(self) -> (r: Fix)
        requires
            -0x4000_0000 <= self@.x <= 0x4000_0000,
            -0x4000_0000 <= self@.y <= 0x4000_0000,
        ensures
            r.raw == v2_mag(self@),
    {
        proof {
            assert(0 <= self@.x * self@.x <= 0x1000_0000_0000_0000) by (nonlinear_arith)
                requires -0x4000_0000 <= self@.x <= 0x4000_0000;
            assert(0 <= self@.y * self@.y <= 0x1000_0000_0000_0000) by (nonlinear_arith)
                requires -0x4000_0000 <= self@.y <= 0x4000_0000;
        }
        let xx: i64 = (self.x.raw as i64) * (self.x.raw as i64);
        let yy: i64 = (self.y.raw as i64) * (self.y.raw as i64);
        let s: u64 = (xx + yy) as u64;
        let r = isqrt64(s);
        proof {
            lemma_isqrt_le(s as int, 0x2000_0000_0000_0000);
            lemma_isqrt_mag_bound();
        }
        Fix { raw: r as i32 }
    }

    /// The unit vector along `self`, or zero for the zero vector.
    pub fn normalise(self) -> (r: Vec2)
        requires
            -0x4000_0000 <= self@.x <= 0x4000_0000,
            -0x4000_0000 <= self@.y <= 0x4000_0000,
        ensures
            r@ == v2_norm(self@),
    {
        let m = self.magnitude();
        if m.raw == 0 {
            Vec2::zero()
        } else {
            proof {
                lemma_unit_components(self@);
            }
            self.div_fix(m)
        }
    }
}

/// Each component of a normalised vector has magnitude at most one unit.
pub proof fn lemma_unit_components(a: V2)
    ensures
        v2_mag(a) >= 0,
        -1024 <= v2_norm(a).x <= 1024,
        -1024 <= v2_norm(a).y <= 1024,
        v2_mag(a) != 0 ==> v2_norm(a).x == fdiv(a.x, v2_mag(a)),
        v2_mag(a) != 0 ==> v2_norm(a).y == fdiv(a.y, v2_mag(a)),
{
    let m = v2_mag(a);
    lemma_mag_dominates(a);
    if m != 0 {
        lemma_tdiv_bound(a.x * 1024, m, m * 1024);
        lemma_tdiv_bound(a.y * 1024, m, m * 1024);
        assert((m * 1024) / m == 1024) by {
            lemma_div_multiples_vanish(1024, m);
        }
    }
}

/// `isqrt(0x2000_0000_0000_0000)` is below `0x6000_0000`: the largest
/// squared length `magnitude` can see still yields a length that fits.
proof fn lemma_isqrt_mag_bound()
    ensures
        isqrt(0x2000_0000_0000_0000) <= 0x6000_0000,
{
    lemma_isqrt(0x2000_0000_0000_0000);
    let r = isqrt(0x2000_0000_0000_0000);
    if r > 0x6000_0000 {
        assert(r * r >= 0x6000_0001 * 0x6000_0001) by (nonlinear_arith)
            requires r >= 0x6000_0001;
    }
}

/// A vector's length bounds the magnitude of each of its components.
pub proof fn lemma_mag_dominates(a: V2)
    ensures
        v2_mag(a) >= 0,
        -v2_mag(a) <= a.x <= v2_mag(a),
        -v2_mag(a) <= a.y <= v2_mag(a),
{
    let s = a.x * a.x + a.y * a.y;
    assert(a.x * a.x >= 0 && a.y * a.y >= 0) by (nonlinear_arith);
    lemma_isqrt(s);
    lemma_isqrt_le(a.x * a.x, s);
    lemma_isqrt_le(a.y * a.y, s);
    if a.x >= 0 {
        lemma_isqrt_square(a.x);
    } else {
        lemma_isqrt_square(-a.x);
        assert((-a.x) * (-a.x) == a.x * a.x) by (nonlinear_arith);
    }
    if a.y >= 0 {
        lemma_isqrt_square(a.y);
    } else {
        lemma_isqrt_square(-a.y);
        assert((-a.y) * (-a.y) == a.y * a.y) by (nonlinear_arith);
    }
}

} // verus!
