//! Exact rational scalars.
//!
//! `Rat` is the executable scalar of this crate: a fraction of two `i64`
//! values, kept in lowest terms with a positive denominator.  Its
//! mathematical model is `Ratio`, a ghost pair of unbounded integers;
//! all contracts are stated over `Ratio` values.  Two ratios are equal as
//! rationals when they cross-multiply equally (`rq_eq`), which is the
//! equality the decomposition laws are stated in.

use vstd::prelude::*;
use vstd::arithmetic::div_mod::{
    lemma_fundamental_div_mod, lemma_mod_multiples_vanish, lemma_mod_self_0, lemma_small_mod,
    lemma_div_multiples_vanish,
};

verus! {

/// Mathematical model of a rational number: numerator over denominator,
/// both unbounded integers.  Meaningful when the denominator is nonzero.
pub ghost struct Ratio {
    pub n: int,
    pub d: int,
}

/// Shorthand constructor for `Ratio`.
pub open spec fn rq(n: int, d: int) -> Ratio {
    Ratio { n, d }
}

pub open spec fn rq_zero() -> Ratio {
    rq(0, 1)
}

pub open spec fn rq_one() -> Ratio {
    rq(1, 1)
}

pub open spec fn rq_half() -> Ratio {
    rq(1, 2)
}

pub open spec fn rq_two() -> Ratio {
    rq(2, 1)
}

/// A ratio in the form every executable `Rat` has: positive denominator.
pub open spec fn rq_wf(a: Ratio) -> bool {
    a.d >= 1
}

/// The component ranges of a ratio that is the view of an executable
/// `Rat`: numerator in `i64` range, denominator positive in `i64` range.
pub open spec fn rq_rep(a: Ratio) -> bool {
    -0x8000_0000_0000_0000 <= a.n <= 0x7fff_ffff_ffff_ffff && 1 <= a.d <= 0x7fff_ffff_ffff_ffff
}

/// A ratio that denotes a rational at all: nonzero denominator.  Symbolic
/// intermediate results of the spec-level operators satisfy only this.
pub open spec fn rq_nz(a: Ratio) -> bool {
    a.d != 0
}

/// Rational equality by cross-multiplication.  An equivalence relation on
/// ratios with nonzero denominators.
pub open spec fn rq_eq(a: Ratio, b: Ratio) -> bool {
    a.n * b.d == b.n * a.d
}

/// Rational order by cross-multiplication.  Meaningful when both
/// denominators are positive.
pub open spec fn rq_le(a: Ratio, b: Ratio) -> bool {
    a.n * b.d <= b.n * a.d
}

pub open spec fn rq_mul(a: Ratio, b: Ratio) -> Ratio {
    rq(a.n * b.n, a.d * b.d)
}

pub open spec fn rq_add(a: Ratio, b: Ratio) -> Ratio {
    rq(a.n * b.d + b.n * a.d, a.d * b.d)
}

pub open spec fn rq_sub(a: Ratio, b: Ratio) -> Ratio {
    rq(a.n * b.d - b.n * a.d, a.d * b.d)
}

pub open spec fn rq_neg(a: Ratio) -> Ratio {
    rq(-a.n, a.d)
}

pub open spec fn rq_div(a: Ratio, b: Ratio) -> Ratio {
    rq(a.n * b.d, a.d * b.n)
}

pub open spec fn iabs(x: int) -> int {
    if x < 0 {
        -x
    } else {
        x
    }
}

pub open spec fn rq_abs(a: Ratio) -> Ratio {
    rq(iabs(a.n), iabs(a.d))
}

/// Flip both signs if needed so that the denominator is positive.
pub open spec fn rq_norm(a: Ratio) -> Ratio {
    if a.d < 0 {
        rq(-a.n, -a.d)
    } else {
        a
    }
}

/// Greatest common divisor by the Euclidean recursion.
pub open spec fn gcd_nat(a: nat, b: nat) -> nat
    decreases b,
{
    if b == 0 {
        a
    } else {
        gcd_nat(b, a % b)
    }
}

/// The canonical lowest-terms form of a ratio with positive denominator.
pub open spec fn rq_reduce(a: Ratio) -> Ratio
    recommends
        rq_wf(a),
{
    let g = gcd_nat(iabs(a.n) as nat, a.d as nat) as int;
    rq(a.n / g, a.d / g)
}

/// The symmetric range of scalars an executable `Rat` component may hold.
pub open spec fn fits_i64(x: int) -> bool {
    -0x7fff_ffff_ffff_ffff <= x <= 0x7fff_ffff_ffff_ffff
}

/// Whether a ratio with positive denominator is representable as a `Rat`
/// after reduction to lowest terms.
pub open spec fn rq_fits(a: Ratio) -> bool
    recommends
        rq_wf(a),
{
    fits_i64(rq_reduce(a).n) && fits_i64(rq_reduce(a).d)
}

/// Product of two values in `i64` range stays well inside `i128` range.
pub proof fn lemma_prod_fits(x: int, y: int)
    by (nonlinear_arith)
    requires
        -0x8000_0000_0000_0000 <= x <= 0x7fff_ffff_ffff_ffff,
        -0x8000_0000_0000_0000 <= y <= 0x7fff_ffff_ffff_ffff,
    ensures
        -0x4000_0000_0000_0000_0000_0000_0000_0000 <= x * y
            <= 0x4000_0000_0000_0000_0000_0000_0000_0000,
{
}

/// Product of an `i64`-range value with a positive `i64`-range value is
/// strictly inside two to the 126th, so a sum of two such products still
/// fits an `i128`.
pub proof fn lemma_prod_pos_fits(x: int, y: int)
    by (nonlinear_arith)
    requires
        -0x8000_0000_0000_0000 <= x <= 0x7fff_ffff_ffff_ffff,
        1 <= y <= 0x7fff_ffff_ffff_ffff,
    ensures
        -0x4000_0000_0000_0000_0000_0000_0000_0000 < x * y
            < 0x4000_0000_0000_0000_0000_0000_0000_0000,
{
}

/// Product of two positive `i64`-range values is positive and fits.
pub proof fn lemma_den_prod(x: int, y: int)
    by (nonlinear_arith)
    requires
        1 <= x <= 0x7fff_ffff_ffff_ffff,
        1 <= y <= 0x7fff_ffff_ffff_ffff,
    ensures
        1 <= x * y < 0x4000_0000_0000_0000_0000_0000_0000_0000,
{
}

/// If `g` divides both `b` and `a % b`, it divides `a`.
proof fn lemma_divides_step(a: int, b: int, g: int)
    requires
        a >= 0,
        b >= 1,
        g >= 1,
        b % g == 0,
        (a % b) % g == 0,
    ensures
        a % g == 0,
{
    let q = a / b;
    let r = a % b;
    lemma_fundamental_div_mod(a, b);
    lemma_fundamental_div_mod(b, g);
    let k = b / g;
    assert(a == g * (k * q) + r) by (nonlinear_arith)
        requires
            a == b * q + r,
            b == g * k + b % g,
            b % g == 0,
    ;
    lemma_mod_multiples_vanish(k * q, r, g);
}

/// The Euclidean gcd of two naturals, not both zero, is positive and
/// divides both.
pub proof fn lemma_gcd_divides(a: nat, b: nat)
    requires
        a > 0 || b > 0,
    ensures
        gcd_nat(a, b) >= 1,
        a % gcd_nat(a, b) == 0,
        b % gcd_nat(a, b) == 0,
    decreases b,
{
    let g = gcd_nat(a, b);
    if b == 0 {
        assert(a % a == 0) by {
            lemma_mod_self_0(a as int);
        }
        assert(b % g == 0) by {
            lemma_small_mod(0, a);
        }
    } else {
        lemma_gcd_divides(b, a % b);
        lemma_divides_step(a as int, b as int, g as int);
    }
}

/// Dividing out an exact divisor leaves an exact multiple:
/// `x == g * (x / g)`, and the quotient of the negation is the negation.
proof fn lemma_exact_div(x: int, g: int)
    requires
        x >= 0,
        g >= 1,
        x % g == 0,
    ensures
        x == g * (x / g),
        (-x) / g == -(x / g),
        x / g >= 0,
{
    lemma_fundamental_div_mod(x, g);
    let q = x / g;
    assert(x == g * q);
    assert(q >= 0) by (nonlinear_arith)
        requires
            x == g * q,
            x >= 0,
            g >= 1,
    ;
    assert(-x == (-q) * g) by (nonlinear_arith)
        requires
            x == g * q,
    ;
    lemma_div_multiples_vanish(-q, g);
    assert((-q) * g == g * (-q)) by (nonlinear_arith);
}

/// Reduction preserves the rational value and keeps the denominator
/// positive; the reduced components are no larger in magnitude.
pub proof fn lemma_reduce_eq(a: Ratio)
    requires
        rq_wf(a),
    ensures
        rq_wf(rq_reduce(a)),
        rq_eq(rq_reduce(a), a),
        rq_eq(a, rq_reduce(a)),
        rq_reduce(a).n == 0 <==> a.n == 0,
{
    let na = iabs(a.n);
    let g = gcd_nat(na as nat, a.d as nat) as int;
    lemma_gcd_divides(na as nat, a.d as nat);
    assert(na % g == 0);
    assert(a.d % g == 0);
    lemma_exact_div(na, g);
    lemma_exact_div(a.d, g);
    let rn = a.n / g;
    let rd = a.d / g;
    if a.n < 0 {
        assert(a.n == -na);
        assert((-na) / g == -(na / g));
        assert(rn == -(na / g));
    }
    assert(a.n == g * rn) by (nonlinear_arith)
        requires
            na == iabs(a.n),
            na == g * (na / g),
            a.n < 0 ==> rn == -(na / g),
            a.n >= 0 ==> rn == na / g,
            a.n < 0 ==> na == -a.n,
            a.n >= 0 ==> na == a.n,
    ;
    assert(rd >= 1) by (nonlinear_arith)
        requires
            a.d == g * rd,
            a.d >= 1,
            g >= 1,
            rd >= 0,
    ;
    assert(rn * a.d == a.n * rd) by (nonlinear_arith)
        requires
            a.n == g * rn,
            a.d == g * rd,
            g >= 1,
    ;
    assert(rn == 0 <==> a.n == 0) by (nonlinear_arith)
        requires
            a.n == g * rn,
            g >= 1,
    ;
}

/// A product with a zero factor is zero.
pub proof fn lemma_zero_mul(x: int, y: int)
    by (nonlinear_arith)
    requires
        x == 0 || y == 0,
    ensures
        x * y == 0,
{
}

/// A three-term linear combination's denominator (a product of six
/// nonzero factors) is nonzero.
pub proof fn lemma_nz_den6(p: int, q: int, r2: int, s2: int, t: int, u: int, e: int)
    by (nonlinear_arith)
    requires
        e == ((p * q) * (r2 * s2)) * (t * u),
        p != 0,
        q != 0,
        r2 != 0,
        s2 != 0,
        t != 0,
        u != 0,
    ensures
        e != 0,
{
}

/// A product of nonzero integers is nonzero.
pub proof fn lemma_nz_mul(x: int, y: int)
    by (nonlinear_arith)
    requires
        x != 0,
        y != 0,
    ensures
        x * y != 0,
{
}

/// Cross-multiplication equality is transitive across a ratio whose
/// denominator is nonzero.
#[verifier::rlimit(60)]
pub proof fn lemma_rq_trans(a: Ratio, b: Ratio, c: Ratio)
    requires
        rq_eq(a, b),
        rq_eq(b, c),
        b.d != 0,
    ensures
        rq_eq(a, c),
{
    assert(a.n * c.d == c.n * a.d) by (nonlinear_arith)
        requires
            a.n * b.d == b.n * a.d,
            b.n * c.d == c.n * b.d,
            b.d != 0,
    ;
}

/// Multiplication respects rational equality.
#[verifier::rlimit(60)]
pub proof fn lemma_mul_cong(a: Ratio, a2: Ratio, b: Ratio, b2: Ratio)
    requires
        rq_eq(a, a2),
        rq_eq(b, b2),
    ensures
        rq_eq(rq_mul(a, b), rq_mul(a2, b2)),
{
    assert((a.n * b.n) * (a2.d * b2.d) == (a.n * a2.d) * (b.n * b2.d)) by (nonlinear_arith);
    assert((a.n * a2.d) * (b.n * b2.d) == (a2.n * a.d) * (b2.n * b.d)) by (nonlinear_arith)
        requires
            a.n * a2.d == a2.n * a.d,
            b.n * b2.d == b2.n * b.d,
    ;
    assert((a2.n * a.d) * (b2.n * b.d) == (a2.n * b2.n) * (a.d * b.d)) by (nonlinear_arith);
}

/// Addition respects rational equality.
#[verifier::rlimit(60)]
pub proof fn lemma_add_cong(a: Ratio, a2: Ratio, b: Ratio, b2: Ratio)
    requires
        rq_eq(a, a2),
        rq_eq(b, b2),
    ensures
        rq_eq(rq_add(a, b), rq_add(a2, b2)),
{
    assert((a.n * b.d + b.n * a.d) * (a2.d * b2.d) == (a.n * b.d) * (a2.d * b2.d) + (b.n * a.d)
        * (a2.d * b2.d)) by (nonlinear_arith);
    assert((a2.n * b2.d + b2.n * a2.d) * (a.d * b.d) == (a2.n * b2.d) * (a.d * b.d) + (b2.n
        * a2.d) * (a.d * b.d)) by (nonlinear_arith);
    assert((a.n * b.d) * (a2.d * b2.d) == (a2.n * b2.d) * (a.d * b.d)) by (nonlinear_arith)
        requires
            a.n * a2.d == a2.n * a.d,
    ;
    assert((b.n * a.d) * (a2.d * b2.d) == (b2.n * a2.d) * (a.d * b.d)) by (nonlinear_arith)
        requires
            b.n * b2.d == b2.n * b.d,
    ;
}

/// Subtraction respects rational equality.
#[verifier::rlimit(60)]
pub proof fn lemma_sub_cong(a: Ratio, a2: Ratio, b: Ratio, b2: Ratio)
    requires
        rq_eq(a, a2),
        rq_eq(b, b2),
    ensures
        rq_eq(rq_sub(a, b), rq_sub(a2, b2)),
{
    assert((a.n * b.d - b.n * a.d) * (a2.d * b2.d) == (a.n * b.d) * (a2.d * b2.d) - (b.n * a.d)
        * (a2.d * b2.d)) by (nonlinear_arith);
    assert((a2.n * b2.d - b2.n * a2.d) * (a.d * b.d) == (a2.n * b2.d) * (a.d * b.d) - (b2.n
        * a2.d) * (a.d * b.d)) by (nonlinear_arith);
    assert((a.n * b.d) * (a2.d * b2.d) == (a2.n * b2.d) * (a.d * b.d)) by (nonlinear_arith)
        requires
            a.n * a2.d == a2.n * a.d,
    ;
    assert((b.n * a.d) * (a2.d * b2.d) == (b2.n * a2.d) * (a.d * b.d)) by (nonlinear_arith)
        requires
            b.n * b2.d == b2.n * b.d,
    ;
}

/// Division respects rational equality.
#[verifier::rlimit(60)]
pub proof fn lemma_div_cong(a: Ratio, a2: Ratio, b: Ratio, b2: Ratio)
    requires
        rq_eq(a, a2),
        rq_eq(b, b2),
    ensures
        rq_eq(rq_div(a, b), rq_div(a2, b2)),
{
    assert((a.n * b.d) * (a2.d * b2.n) == (a2.n * b2.d) * (a.d * b.n)) by (nonlinear_arith)
        requires
            a.n * a2.d == a2.n * a.d,
            b.n * b2.d == b2.n * b.d,
    ;
}

/// Sign normalisation preserves the rational value; it yields a positive
/// denominator whenever the input denominator is nonzero.
pub proof fn lemma_norm_eq(a: Ratio)
    ensures
        rq_eq(rq_norm(a), a),
        rq_eq(a, rq_norm(a)),
        rq_norm(a).n == 0 <==> a.n == 0,
        a.d != 0 ==> rq_norm(a).d >= 1,
{
    if a.d < 0 {
        assert((-a.n) * a.d == a.n * (-a.d)) by (nonlinear_arith);
    }
}

/// Equal rationals with nonzero denominators are zero together.
#[verifier::rlimit(60)]
pub proof fn lemma_pivot_cong(a: Ratio, b: Ratio)
    requires
        rq_eq(a, b),
        a.d != 0,
        b.d != 0,
    ensures
        a.n == 0 <==> b.n == 0,
{
    assert(a.n == 0 <==> b.n == 0) by (nonlinear_arith)
        requires
            a.n * b.d == b.n * a.d,
            a.d != 0,
            b.d != 0,
    ;
}

/// Multiplying by one on the right is the identity.
pub proof fn lemma_mul_one_r(x: Ratio)
    ensures
        rq_eq(rq_mul(x, rq_one()), x),
        rq_eq(x, rq_mul(x, rq_one())),
        rq_mul(x, rq_one()).d == x.d,
{
}

/// Multiplying by one on the left is the identity.
pub proof fn lemma_one_mul(x: Ratio)
    ensures
        rq_eq(rq_mul(rq_one(), x), x),
        rq_eq(x, rq_mul(rq_one(), x)),
        rq_mul(rq_one(), x).d == x.d,
{
}

/// Multiplying by a ratio with zero numerator yields a zero numerator.
pub proof fn lemma_mul_zero_r(x: Ratio, z: Ratio)
    requires
        z.n == 0,
    ensures
        rq_mul(x, z).n == 0,
{
}

/// Adding a ratio with zero numerator changes nothing.
pub proof fn lemma_add_zero_r(x: Ratio, z: Ratio)
    requires
        z.n == 0,
    ensures
        rq_eq(rq_add(x, z), x),
        rq_eq(x, rq_add(x, z)),
{
    assert((x.n * z.d + z.n * x.d) * x.d == x.n * (x.d * z.d)) by (nonlinear_arith)
        requires
            z.n == 0,
    ;
}

/// A three-term sum whose second and third terms have zero numerators
/// equals its first term as a rational.
pub proof fn lemma_add_two_zeros(p: Ratio, q2: Ratio, q3: Ratio)
    requires
        q2.n == 0,
        q3.n == 0,
        p.d != 0,
        q2.d != 0,
    ensures
        rq_eq(rq_add(rq_add(p, q2), q3), p),
        rq_eq(p, rq_add(rq_add(p, q2), q3)),
{
    lemma_add_zero_r(p, q2);
    lemma_add_zero_r(rq_add(p, q2), q3);
    lemma_nz_mul(p.d, q2.d);
    lemma_rq_trans(rq_add(rq_add(p, q2), q3), rq_add(p, q2), p);
    lemma_rq_trans(p, rq_add(p, q2), rq_add(rq_add(p, q2), q3));
}

/// A three-term sum whose first and third terms have zero numerators
/// equals its middle term as a rational.
pub proof fn lemma_add_zero_lr(z1: Ratio, p: Ratio, z3: Ratio)
    requires
        z1.n == 0,
        z3.n == 0,
        p.d != 0,
        z1.d != 0,
    ensures
        rq_eq(rq_add(rq_add(z1, p), z3), p),
        rq_eq(p, rq_add(rq_add(z1, p), z3)),
{
    lemma_add_zero_l(z1, p);
    lemma_add_zero_r(rq_add(z1, p), z3);
    lemma_nz_mul(z1.d, p.d);
    lemma_rq_trans(rq_add(rq_add(z1, p), z3), rq_add(z1, p), p);
    lemma_rq_trans(p, rq_add(z1, p), rq_add(rq_add(z1, p), z3));
}

/// `(p / q) * q == p` as rationals (a cross-multiplication ring identity,
/// independent of whether the denominators vanish).
pub proof fn lemma_div_cancel(p: Ratio, q: Ratio)
    ensures
        rq_eq(rq_mul(rq_div(p, q), q), p),
        rq_eq(p, rq_mul(rq_div(p, q), q)),
{
    assert(((p.n * q.d) * q.n) * p.d == p.n * ((p.d * q.n) * q.d)) by (nonlinear_arith);
}

/// `(p / r) * q == (p * q) / r` as rationals.
pub proof fn lemma_mul_div_swap(p: Ratio, q: Ratio, r: Ratio)
    ensures
        rq_eq(rq_mul(rq_div(p, r), q), rq_div(rq_mul(p, q), r)),
        rq_eq(rq_div(rq_mul(p, q), r), rq_mul(rq_div(p, r), q)),
{
    assert(((p.n * r.d) * q.n) * ((p.d * q.d) * r.n) == ((p.n * q.n) * r.d) * ((p.d * r.n)
        * q.d)) by (nonlinear_arith);
}

/// `y + (x - y) == x` as rationals.
pub proof fn lemma_add_sub_cancel(x: Ratio, y: Ratio)
    ensures
        rq_eq(rq_add(y, rq_sub(x, y)), x),
        rq_eq(x, rq_add(y, rq_sub(x, y))),
{
    assert((y.n * (x.d * y.d) + (x.n * y.d - y.n * x.d) * y.d) * x.d == x.n * (y.d * (x.d
        * y.d))) by (nonlinear_arith);
}


/// The reduced form is componentwise no larger in magnitude.
pub proof fn lemma_reduce_bounds(a: Ratio)
    requires
        rq_wf(a),
    ensures
        iabs(rq_reduce(a).n) <= iabs(a.n),
        1 <= rq_reduce(a).d <= a.d,
{
    lemma_reduce_eq(a);
    let na = iabs(a.n);
    let g = gcd_nat(na as nat, a.d as nat) as int;
    lemma_gcd_divides(na as nat, a.d as nat);
    lemma_exact_div(na, g);
    lemma_exact_div(a.d, g);
    let rn = a.n / g;
    let rd = a.d / g;
    if a.n < 0 {
        assert(a.n == -na);
        assert((-na) / g == -(na / g));
    }
    assert(iabs(rn) <= na && 1 <= rd <= a.d) by (nonlinear_arith)
        requires
            na == g * (na / g),
            a.d == g * rd,
            g >= 1,
            na >= 0,
            na / g >= 0,
            rd >= 0,
            a.d >= 1,
            a.n < 0 ==> rn == -(na / g),
            a.n >= 0 ==> rn == na / g,
            a.n < 0 ==> iabs(rn) == na / g,
            iabs(rn) == if rn < 0 { -rn } else { rn },
    ;
}

/// The rational order is transitive when all denominators are positive.
pub proof fn lemma_le_trans(a: Ratio, b: Ratio, c: Ratio)
    requires
        rq_le(a, b),
        rq_le(b, c),
        a.d >= 1,
        b.d >= 1,
        c.d >= 1,
    ensures
        rq_le(a, c),
{
    assert(a.n * c.d <= c.n * a.d) by (nonlinear_arith)
        requires
            a.n * b.d <= b.n * a.d,
            b.n * c.d <= c.n * b.d,
            a.d >= 1,
            b.d >= 1,
            c.d >= 1,
    ;
}

/// The exact value of the executable addition (reduced lowest terms).
pub open spec fn xadd(a: Ratio, b: Ratio) -> Ratio {
    rq_reduce(rq_add(a, b))
}

pub open spec fn xsub(a: Ratio, b: Ratio) -> Ratio {
    rq_reduce(rq_sub(a, b))
}

pub open spec fn xmul(a: Ratio, b: Ratio) -> Ratio {
    rq_reduce(rq_mul(a, b))
}

pub open spec fn xneg(a: Ratio) -> Ratio {
    rq_reduce(rq_neg(a))
}

pub open spec fn xabs(a: Ratio) -> Ratio {
    rq_reduce(rq_abs(a))
}

/// The exact value of the executable division (sign-normalised, reduced).
pub open spec fn xdiv(a: Ratio, b: Ratio) -> Ratio {
    rq_reduce(rq_norm(rq_div(a, b)))
}

/// When the executable operations succeed.
pub open spec fn xadd_ok(a: Ratio, b: Ratio) -> bool {
    rq_fits(rq_add(a, b))
}

pub open spec fn xsub_ok(a: Ratio, b: Ratio) -> bool {
    rq_fits(rq_sub(a, b))
}

pub open spec fn xmul_ok(a: Ratio, b: Ratio) -> bool {
    rq_fits(rq_mul(a, b))
}

pub open spec fn xneg_ok(a: Ratio) -> bool {
    rq_fits(rq_neg(a))
}

pub open spec fn xabs_ok(a: Ratio) -> bool {
    rq_fits(rq_abs(a))
}

pub open spec fn xdiv_ok(a: Ratio, b: Ratio) -> bool {
    b.n != 0 && rq_fits(rq_norm(rq_div(a, b)))
}

/// Adding a ratio with zero numerator on the left changes nothing.
pub proof fn lemma_add_zero_l(z: Ratio, x: Ratio)
    requires
        z.n == 0,
    ensures
        rq_eq(rq_add(z, x), x),
        rq_eq(x, rq_add(z, x)),
{
    assert((z.n * x.d + x.n * z.d) * x.d == x.n * (z.d * x.d)) by (nonlinear_arith)
        requires
            z.n == 0,
    ;
}

/// `(c - w) + w == c` as rationals.
pub proof fn lemma_sub_then_add(c: Ratio, w: Ratio)
    ensures
        rq_eq(rq_add(rq_sub(c, w), w), c),
        rq_eq(c, rq_add(rq_sub(c, w), w)),
{
    assert(((c.n * w.d - w.n * c.d) * w.d + w.n * (c.d * w.d)) * c.d == c.n * ((c.d * w.d)
        * w.d)) by (nonlinear_arith);
}

/// The executable scalar: an exact rational held as numerator and
/// denominator, in lowest terms with a positive denominator.
#[derive(Clone, Copy, PartialEq, Eq, Structural, Debug)]
pub struct Rat {
    n: i64,
    d: i64,
}

impl View for Rat {
    type V = Ratio;

    closed spec fn view(&self) -> Ratio {
        rq(self.n as int, self.d as int)
    }
}

impl Rat {
    #[verifier::type_invariant]
    spec fn type_inv(self) -> bool {
        self.d >= 1
    }
}

impl Rat {
    /// Every executable `Rat` has a positive denominator.
    pub fn wf_witness(&self) -> (u: ())
        ensures
            rq_wf(self@),
            rq_rep(self@),
    {
        proof {
            use_type_invariant(self);
        }
    }
}

/// Euclid's algorithm.
fn gcd_u128(a0: u128, b0: u128) -> (g: u128)
    ensures
        g as nat == gcd_nat(a0 as nat, b0 as nat),
{
    let mut a = a0;
    let mut b = b0;
    while b != 0
        invariant
            gcd_nat(a as nat, b as nat) == gcd_nat(a0 as nat, b0 as nat),
        decreases b,
    {
        let t = a % b;
        a = b;
        b = t;
    }
    a
}

/// Reduce a fraction with positive denominator to lowest terms, failing
/// exactly when the reduced components do not fit the scalar range.
fn make_reduced(num: i128, den: i128) -> (r: Option<Rat>)
    requires
        1 <= den,
        -0x7fff_ffff_ffff_ffff_ffff_ffff_ffff_ffff <= num,
    ensures
        r matches Some(q) ==> q@ == rq_reduce(rq(num as int, den as int)) && rq_wf(q@) && rq_rep(q@),
        r is Some <==> rq_fits(rq(num as int, den as int)),
{
    let neg = num < 0;
    let na: u128 = if neg {
        (-num) as u128
    } else {
        num as u128
    };
    let da: u128 = den as u128;
    assert(na as int == iabs(num as int));
    let g = gcd_u128(na, da);
    proof {
        lemma_gcd_divides(na as nat, da as nat);
        lemma_exact_div(na as int, g as int);
        lemma_exact_div(da as int, g as int);
    }
    let rn = na / g;
    let rd = da / g;
    proof {
        assert(rd >= 1) by (nonlinear_arith)
            requires
                da as int == g as int * (rd as int),
                da >= 1,
                g >= 1,
                rd >= 0,
        ;
        if neg {
            assert((num as int) / (g as int) == -(rn as int)) by {
                lemma_exact_div(na as int, g as int);
                assert(num as int == -(na as int));
            }
        }
        assert(rq_reduce(rq(num as int, den as int)).n == if neg {
            -(rn as int)
        } else {
            rn as int
        });
        assert(rq_reduce(rq(num as int, den as int)).d == rd as int);
    }
    if rn <= 0x7fff_ffff_ffff_ffff && rd <= 0x7fff_ffff_ffff_ffff {
        let n_small: i64 = if neg {
            -(rn as i64)
        } else {
            rn as i64
        };
        Some(Rat { n: n_small, d: rd as i64 })
    } else {
        None
    }
}

impl Rat {
    /// Build a rational `n / d`.  Fails exactly when `d` is zero or the
    /// lowest-terms form does not fit the scalar range.
    pub fn new(n: i64, d: i64) -> (r: Option<Rat>)
        ensures
            r matches Some(q) ==> q@ == rq_reduce(rq_norm(rq(n as int, d as int))) && rq_wf(q@) && rq_rep(q@),
            r is Some <==> d != 0 && rq_fits(rq_norm(rq(n as int, d as int))),
    {
        if d == 0 {
            return None;
        }
        let mut num: i128 = n as i128;
        let mut den: i128 = d as i128;
        if den < 0 {
            num = -num;
            den = -den;
        }
        make_reduced(num, den)
    }

    /// The integer `n` as a rational.
    pub fn from_int(n: i64) -> (r: Rat)
        ensures
            r@ == rq(n as int, 1),
    {
        Rat { n, d: 1 }
    }

    /// One half, the corner offset of a unit sample footprint.
    pub fn half() -> (r: Rat)
        ensures
            r@ == rq_half(),
    {
        Rat { n: 1, d: 2 }
    }

    pub fn num(&self) -> (n: i64)
        ensures
            n as int == self@.n,
    {
        self.n
    }

    pub fn den(&self) -> (d: i64)
        ensures
            d as int == self@.d,
            d >= 1,
    {
        proof {
            use_type_invariant(self);
        }
        self.d
    }

    pub fn is_zero(&self) -> (r: bool)
        ensures
            r == (self@.n == 0),
    {
        self.n == 0
    }

    /// Rational equality test (cross-multiplication; never overflows).
    pub fn eq_val(&self, other: &Rat) -> (r: bool)
        ensures
            r == rq_eq(self@, other@),
    {
        proof {
            use_type_invariant(self);
            use_type_invariant(other);
            lemma_prod_fits(self.n as int, other.d as int);
            lemma_prod_fits(other.n as int, self.d as int);
        }
        (self.n as i128) * (other.d as i128) == (other.n as i128) * (self.d as i128)
    }

    /// Rational order test.
    pub fn le(&self, other: &Rat) -> (r: bool)
        ensures
            r == rq_le(self@, other@),
    {
        proof {
            use_type_invariant(self);
            use_type_invariant(other);
            lemma_prod_fits(self.n as int, other.d as int);
            lemma_prod_fits(other.n as int, self.d as int);
        }
        (self.n as i128) * (other.d as i128) <= (other.n as i128) * (self.d as i128)
    }

    /// The smaller of two rationals (the left one on ties).
    pub fn min(&self, other: &Rat) -> (r: Rat)
        ensures
            r@ == if rq_le(self@, other@) {
                self@
            } else {
                other@
            },
    {
        if self.le(other) {
            *self
        } else {
            *other
        }
    }

    /// Exact sum.  Fails exactly when the lowest-terms result leaves the
    /// scalar range.
    pub fn add(&self, other: &Rat) -> (r: Option<Rat>)
        ensures
            r matches Some(q) ==> q@ == rq_reduce(rq_add(self@, other@)) && rq_wf(q@) && rq_rep(q@),
            r is Some <==> rq_fits(rq_add(self@, other@)),
    {
        proof {
            use_type_invariant(self);
            use_type_invariant(other);
            lemma_prod_pos_fits(self.n as int, other.d as int);
            lemma_prod_pos_fits(other.n as int, self.d as int);
            lemma_prod_pos_fits(self.d as int, other.d as int);
            lemma_den_prod(self.d as int, other.d as int);
        }
        let num = (self.n as i128) * (other.d as i128) + (other.n as i128) * (self.d as i128);
        let den = (self.d as i128) * (other.d as i128);
        make_reduced(num, den)
    }

    /// Exact difference.  Fails exactly when the lowest-terms result
    /// leaves the scalar range.
    pub fn sub(&self, other: &Rat) -> (r: Option<Rat>)
        ensures
            r matches Some(q) ==> q@ == rq_reduce(rq_sub(self@, other@)) && rq_wf(q@) && rq_rep(q@),
            r is Some <==> rq_fits(rq_sub(self@, other@)),
    {
        proof {
            use_type_invariant(self);
            use_type_invariant(other);
            lemma_prod_pos_fits(self.n as int, other.d as int);
            lemma_prod_pos_fits(other.n as int, self.d as int);
            lemma_prod_pos_fits(self.d as int, other.d as int);
            lemma_den_prod(self.d as int, other.d as int);
        }
        let num = (self.n as i128) * (other.d as i128) - (other.n as i128) * (self.d as i128);
        let den = (self.d as i128) * (other.d as i128);
        make_reduced(num, den)
    }

    /// Exact product.  Fails exactly when the lowest-terms result leaves
    /// the scalar range.
    pub fn mul(&self, other: &Rat) -> (r: Option<Rat>)
        ensures
            r matches Some(q) ==> q@ == rq_reduce(rq_mul(self@, other@)) && rq_wf(q@) && rq_rep(q@),
            r is Some <==> rq_fits(rq_mul(self@, other@)),
    {
        proof {
            use_type_invariant(self);
            use_type_invariant(other);
            lemma_prod_fits(self.n as int, other.n as int);
            lemma_prod_pos_fits(self.d as int, other.d as int);
            lemma_den_prod(self.d as int, other.d as int);
        }
        let num = (self.n as i128) * (other.n as i128);
        let den = (self.d as i128) * (other.d as i128);
        make_reduced(num, den)
    }

    /// Exact quotient.  Fails exactly when the divisor is zero or the
    /// lowest-terms result leaves the scalar range.
    pub fn div(&self, other: &Rat) -> (r: Option<Rat>)
        ensures
            r matches Some(q) ==> q@ == rq_reduce(rq_norm(rq_div(self@, other@))) && rq_wf(q@) && rq_rep(q@),
            r is Some <==> other@.n != 0 && rq_fits(rq_norm(rq_div(self@, other@))),
    {
        proof {
            use_type_invariant(self);
            use_type_invariant(other);
            lemma_prod_pos_fits(self.n as int, other.d as int);
            lemma_prod_fits(self.d as int, other.n as int);
        }
        if other.n == 0 {
            return None;
        }
        let mut num = (self.n as i128) * (other.d as i128);
        let mut den = (self.d as i128) * (other.n as i128);
        if den < 0 {
            num = -num;
            den = -den;
        }
        proof {
            assert((self.d as int) * (other.n as int) != 0) by (nonlinear_arith)
                requires
                    self.d as int >= 1,
                    other.n as int != 0,
            ;
        }
        make_reduced(num, den)
    }

    /// Exact negation.  Fails exactly when the result leaves the scalar
    /// range (the negation of the most negative numerator).
    pub fn neg(&self) -> (r: Option<Rat>)
        ensures
            r matches Some(q) ==> q@ == rq_reduce(rq_neg(self@)) && rq_wf(q@) && rq_rep(q@),
            r is Some <==> rq_fits(rq_neg(self@)),
    {
        proof {
            use_type_invariant(self);
        }
        make_reduced(-(self.n as i128), self.d as i128)
    }

    /// Exact absolute value.
    pub fn abs(&self) -> (r: Option<Rat>)
        ensures
            r matches Some(q) ==> q@ == rq_reduce(rq_abs(self@)) && rq_wf(q@) && rq_rep(q@),
            r is Some <==> rq_fits(rq_abs(self@)),
    {
        proof {
            use_type_invariant(self);
        }
        if self.n < 0 {
            make_reduced(-(self.n as i128), self.d as i128)
        } else {
            make_reduced(self.n as i128, self.d as i128)
        }
    }
}

} // verus!
