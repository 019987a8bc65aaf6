//! Exact rational numbers, kept in lowest terms with a positive denominator.
//!
//! Attack strengths and target values are exact fractions: two fractions that
//! denote the same value (such as 2/6 and 1/3) compare equal, and divisibility
//! is decided on the exact value, never on a floating-point approximation.
use vstd::prelude::*;

verus! {

use vstd::arithmetic::div_mod::{
    lemma_fundamental_div_mod,
    lemma_div_multiples_vanish,
    lemma_div_nonincreasing,
};
use vstd::math::abs;

/// Magnitude bound for numerators and denominators, large enough for any
/// number that appears in the game's content.
pub const NUM_MAG_LIMIT: i32 = 0x4000_0000;

/// `d` divides `n` over the integers.
pub open spec fn divides(d: int, n: int) -> bool {
    exists|k: int| n == #[trigger] (d * k)
}

/// Greatest common divisor by Euclid's algorithm.
pub open spec fn gcd(a: nat, b: nat) -> nat
    decreases b,
{
    if b == 0 {
        a
    } else {
        gcd(b, a % b)
    }
}

/// The gcd divides both of its arguments.
pub proof fn lemma_gcd_divides(a: nat, b: nat)
    ensures
        divides(gcd(a, b) as int, a as int),
        divides(gcd(a, b) as int, b as int),
    decreases b,
{
    if b == 0 {
        assert(a as int == gcd(a, b) as int * 1);
        assert(0 as int == gcd(a, b) as int * 0);
    } else {
        let r = (a % b) as nat;
        lemma_gcd_divides(b, r);
        let g = gcd(b, r) as int;
        let kb = choose|k: int| b as int == #[trigger] (g * k);
        let kr = choose|k: int| r as int == #[trigger] (g * k);
        lemma_fundamental_div_mod(a as int, b as int);
        let q = a as int / b as int;
        assert(a as int == g * (kb * q + kr)) by (nonlinear_arith)
            requires
                a as int == (b as int) * q + r as int,
                b as int == g * kb,
                r as int == g * kr,
        ;
        assert(divides(g, a as int));
    }
}

/// Any common divisor of `a` and `b` divides their gcd.
pub proof fn lemma_common_divisor_divides_gcd(a: nat, b: nat, e: int)
    requires
        divides(e, a as int),
        divides(e, b as int),
    ensures
        divides(e, gcd(a, b) as int),
    decreases b,
{
    if b == 0 {
    } else {
        let r = (a % b) as nat;
        let ka = choose|k: int| a as int == #[trigger] (e * k);
        let kb = choose|k: int| b as int == #[trigger] (e * k);
        lemma_fundamental_div_mod(a as int, b as int);
        let q = a as int / b as int;
        assert(r as int == e * (ka - kb * q)) by (nonlinear_arith)
            requires
                a as int == (b as int) * q + r as int,
                a as int == e * ka,
                b as int == e * kb,
        ;
        assert(divides(e, r as int));
        lemma_common_divisor_divides_gcd(b, r, e);
    }
}

/// The gcd is positive as soon as one argument is.
pub proof fn lemma_gcd_pos(a: nat, b: nat)
    requires
        a > 0 || b > 0,
    ensures
        gcd(a, b) > 0,
    decreases b,
{
    if b == 0 {
    } else {
        lemma_gcd_pos(b, (a % b) as nat);
    }
}

/// A positive divisor of a positive number is no larger than that number.
pub proof fn lemma_divides_le(d: int, n: int)
    requires
        divides(d, n),
        d > 0,
        n > 0,
    ensures
        d <= n,
{
    let k = choose|k: int| n == #[trigger] (d * k);
    assert(d <= n) by (nonlinear_arith)
        requires
            n == d * k,
            d > 0,
            n > 0,
    ;
}

/// `gcd(a, 1) == 1`.
pub proof fn lemma_gcd_one_right(a: nat)
    ensures
        gcd(a, 1) == 1,
{
    assert(a % 1 == 0);
    assert(gcd(a, 1) == gcd(1, 0));
    assert(gcd(1nat, 0nat) == 1);
}

/// Dividing both arguments by their gcd leaves coprime parts.
pub proof fn lemma_div_by_gcd_coprime(a: nat, b: nat, g: nat, x: nat, y: nat)
    requires
        g == gcd(a, b),
        b > 0,
        a == x * g,
        b == y * g,
    ensures
        gcd(x, y) == 1,
{
    lemma_gcd_pos(a, b);
    assert(y > 0) by (nonlinear_arith)
        requires
            b as int == y as int * g as int,
            b > 0,
    ;
    let e = gcd(x, y);
    lemma_gcd_pos(x, y);
    lemma_gcd_divides(x, y);
    let kx = choose|k: int| x as int == #[trigger] (e as int * k);
    let ky = choose|k: int| y as int == #[trigger] (e as int * k);
    assert(a as int == (e * g) as int * kx && b as int == (e * g) as int * ky)
        by (nonlinear_arith)
        requires
            a as int == x as int * g as int,
            b as int == y as int * g as int,
            x as int == e as int * kx,
            y as int == e as int * ky,
    ;
    assert(divides((e * g) as int, a as int));
    assert(divides((e * g) as int, b as int));
    lemma_common_divisor_divides_gcd(a, b, (e * g) as int);
    assert((e * g) as int > 0) by (nonlinear_arith)
        requires
            e > 0,
            g > 0,
    ;
    lemma_divides_le((e * g) as int, g as int);
    assert(e == 1) by (nonlinear_arith)
        requires
            (e * g) as int <= g as int,
            g > 0,
            e > 0,
    ;
}

/// Scaling both operands of a division scales the remainder.
pub proof fn lemma_mod_scale(a: int, b: int, k: int)
    requires
        a >= 0,
        b > 0,
        k > 0,
    ensures
        (k * a) % (k * b) == k * (a % b),
{
    lemma_fundamental_div_mod(a, b);
    let q = a / b;
    let r = a % b;
    assert(k * a == q * (k * b) + k * r && 0 <= k * r < k * b) by (nonlinear_arith)
        requires
            a == b * q + r,
            0 <= r < b,
            k > 0,
    ;
    vstd::arithmetic::div_mod::lemma_fundamental_div_mod_converse(k * a, k * b, q, k * r);
}

/// Scaling both arguments of the gcd scales the gcd.
pub proof fn lemma_gcd_scale(a: nat, b: nat, k: nat)
    requires
        k > 0,
    ensures
        gcd(k * a, k * b) == k * gcd(a, b),
    decreases b,
{
    if b == 0 {
        assert(k * b == 0);
    } else {
        assert(k * b > 0) by (nonlinear_arith)
            requires
                k > 0,
                b > 0,
        ;
        lemma_mod_scale(a as int, b as int, k as int);
        assert((k * a) % (k * b) == k * (a % b));
        lemma_gcd_scale(b, a % b, k);
        assert(gcd(k * a, k * b) == gcd(k * b, (k * a) % (k * b)));
    }
}

/// A rational value has exactly one reduced representation: two well-formed
/// rationals that denote the same value are identical.
pub proof fn lemma_reduced_unique(x: Num, y: Num)
    requires
        x.wf(),
        y.wf(),
        num_eq(x, y),
    ensures
        x == y,
{
    let p = abs(x.numer as int);
    let q = x.denom as nat;
    let r = abs(y.numer as int);
    let s = y.denom as nat;
    assert(s * p == q * r && s * q == q * s) by (nonlinear_arith)
        requires
            x.numer * y.denom == y.numer * x.denom,
            p == abs(x.numer as int),
            r == abs(y.numer as int),
            q == x.denom as int,
            s == y.denom as int,
            x.denom > 0,
            y.denom > 0,
    ;
    lemma_gcd_scale(p, q, s);
    lemma_gcd_scale(r, s, q);
    assert(gcd(s * p, s * q) == gcd(q * r, q * s));
    assert(s * gcd(p, q) == q * gcd(r, s));
    assert(x.denom == y.denom) by (nonlinear_arith)
        requires
            s * gcd(p, q) == q * gcd(r, s),
            gcd(p, q) == 1,
            gcd(r, s) == 1,
            q == x.denom as int,
            s == y.denom as int,
    ;
    assert(x.numer == y.numer) by (nonlinear_arith)
        requires
            x.numer * y.denom == y.numer * x.denom,
            x.denom == y.denom,
            x.denom > 0,
    ;
}

/// For a positive modulus, a remainder of zero means exact divisibility.
pub proof fn lemma_divides_iff_mod_zero(m: int, x: int)
    requires
        m > 0,
        x >= 0,
    ensures
        (x % m == 0) <==> divides(m, x),
{
    if x % m == 0 {
        lemma_fundamental_div_mod(x, m);
        assert(x == m * (x / m));
        assert(divides(m, x));
    }
    if divides(m, x) {
        let k = choose|k: int| x == #[trigger] (m * k);
        vstd::arithmetic::div_mod::lemma_mod_multiples_basic(k, m);
        assert(x == k * m) by (nonlinear_arith)
            requires
                x == m * k,
        ;
    }
}

/// Euclid's algorithm, executable form.
pub fn gcd_u64(a: u64, b: u64) -> (g: u64)
    ensures
        g as nat == gcd(a as nat, b as nat),
{
    let mut x = a;
    let mut y = b;
    while y != 0
        invariant
            gcd(x as nat, y as nat) == gcd(a as nat, b as nat),
        decreases y,
    {
        let r = x % y;
        x = y;
        y = r;
    }
    x
}

/// An exact rational number.
///
/// Well-formed values keep the fraction in lowest terms with a positive
/// denominator, so structural facts (such as `denom == 1` for whole numbers)
/// coincide with facts about the value.
#[derive(Debug, Clone, Copy)]
pub struct Num {
    pub numer: i32,
    pub denom: i32,
}

/// `x` denotes the same rational value as the fraction `n / d`.
pub open spec fn rat_eq_frac(x: Num, n: int, d: int) -> bool {
    x.numer * d == n * x.denom
}

/// The reduced form of the fraction `n / d`, for nonzero `d`: the sign moves
/// to the numerator and both parts are divided by their gcd. This is the
/// exact value that construction returns.
pub open spec fn spec_reduced(n: int, d: int) -> Num {
    let sn = if d < 0 {
        -n
    } else {
        n
    };
    let g = gcd(abs(n), abs(d)) as int;
    Num { numer: (sn / g) as i32, denom: ((abs(d) as int) / g) as i32 }
}

/// The two rationals denote the same value (cross multiplication).
pub open spec fn num_eq(x: Num, y: Num) -> bool {
    x.numer * y.denom == y.numer * x.denom
}

impl Num {
    /// Reduced fraction with a positive, bounded denominator.
    pub open spec fn wf(self) -> bool {
        &&& 0 < self.denom <= NUM_MAG_LIMIT
        &&& -NUM_MAG_LIMIT <= self.numer <= NUM_MAG_LIMIT
        &&& gcd(abs(self.numer as int), self.denom as nat) == 1
    }

    /// Construct the rational `n / d`, reduced to lowest terms with a
    /// positive denominator.
    pub fn new(n: i32, d: i32) -> (r: Num)
        requires
            d != 0,
            -NUM_MAG_LIMIT <= n <= NUM_MAG_LIMIT,
            -NUM_MAG_LIMIT <= d <= NUM_MAG_LIMIT,
        ensures
            r.wf(),
            rat_eq_frac(r, n as int, d as int),
            r == spec_reduced(n as int, d as int),
    {
        let ni: i64 = n as i64;
        let di: i64 = d as i64;
        let na: u64 = if ni < 0 {
            (-ni) as u64
        } else {
            ni as u64
        };
        let da: u64 = if di < 0 {
            (-di) as u64
        } else {
            di as u64
        };
        let g: u64 = gcd_u64(na, da);
        proof {
            lemma_gcd_pos(na as nat, da as nat);
            lemma_gcd_divides(na as nat, da as nat);
        }
        let nm: u64 = na / g;
        let dm: u64 = da / g;
        proof {
            let gi = g as int;
            let k1 = choose|k: int| na as int == #[trigger] (gi * k);
            lemma_div_multiples_vanish(k1, gi);
            assert(k1 >= 0) by (nonlinear_arith)
                requires
                    na as int == gi * k1,
                    gi > 0,
                    na >= 0,
            ;
            assert(nm as int == k1);
            let k2 = choose|k: int| da as int == #[trigger] (gi * k);
            lemma_div_multiples_vanish(k2, gi);
            assert(k2 >= 0) by (nonlinear_arith)
                requires
                    da as int == gi * k2,
                    gi > 0,
                    da >= 0,
            ;
            assert(dm as int == k2);
            lemma_div_nonincreasing(na as int, gi);
            lemma_div_nonincreasing(da as int, gi);
            assert(na as int == nm as int * gi && da as int == dm as int * gi)
                by (nonlinear_arith)
                requires
                    na as int == gi * (nm as int),
                    da as int == gi * (dm as int),
            ;
            lemma_div_by_gcd_coprime(na as nat, da as nat, g as nat, nm as nat, dm as nat);
            assert(dm > 0) by (nonlinear_arith)
                requires
                    da as int == dm as int * gi,
                    da > 0,
                    gi > 0,
            ;
        }
        let neg: bool = (n < 0) != (d < 0);
        let numer: i32 = if neg {
            -(nm as i32)
        } else {
            nm as i32
        };
        let denom: i32 = dm as i32;
        let r = Num { numer, denom };
        proof {
            let nn = n as int;
            let dd = d as int;
            let gi = g as int;
            assert(abs(r.numer as int) == nm as nat);
            assert(r.numer as int * dd == nn * (r.denom as int)) by (nonlinear_arith)
                requires
                    na as int == gi * (nm as int),
                    da as int == gi * (dm as int),
                    (nn < 0 ==> na as int == -nn),
                    (nn >= 0 ==> na as int == nn),
                    (dd < 0 ==> da as int == -dd),
                    (dd >= 0 ==> da as int == dd),
                    r.denom as int == dm as int,
                    ((nn < 0) != (dd < 0) ==> r.numer as int == -(nm as int)),
                    (!((nn < 0) != (dd < 0)) ==> r.numer as int == nm as int),
            ;
            // the result is exactly the mathematical reduced form
            let sn = if dd < 0 {
                -nn
            } else {
                nn
            };
            assert(abs(nn) == na as nat && abs(dd) == da as nat);
            if sn >= 0 {
                assert(sn == na as int) by (nonlinear_arith)
                    requires
                        sn == (if dd < 0 {
                            -nn
                        } else {
                            nn
                        }),
                        sn >= 0,
                        (nn < 0 ==> na as int == -nn),
                        (nn >= 0 ==> na as int == nn),
                        dd != 0,
                ;
                lemma_div_multiples_vanish(nm as int, gi);
                assert(sn / gi == nm as int);
                if nm == 0 {
                    assert(r.numer as int == 0);
                } else {
                    assert(!((nn < 0) != (dd < 0))) by (nonlinear_arith)
                        requires
                            sn == (if dd < 0 {
                                -nn
                            } else {
                                nn
                            }),
                            sn == na as int,
                            na as int == gi * (nm as int),
                            nm as int > 0,
                            gi > 0,
                            (nn < 0 ==> na as int == -nn),
                            (nn >= 0 ==> na as int == nn),
                            dd != 0,
                    ;
                }
            } else {
                assert(sn == -(na as int) && ((nn < 0) != (dd < 0))) by (nonlinear_arith)
                    requires
                        sn == (if dd < 0 {
                            -nn
                        } else {
                            nn
                        }),
                        sn < 0,
                        (nn < 0 ==> na as int == -nn),
                        (nn >= 0 ==> na as int == nn),
                        dd != 0,
                ;
                assert(sn == gi * (-(nm as int))) by (nonlinear_arith)
                    requires
                        sn == -(na as int),
                        na as int == gi * (nm as int),
                ;
                lemma_div_multiples_vanish(-(nm as int), gi);
                assert(sn / gi == -(nm as int));
            }
            lemma_div_multiples_vanish(dm as int, gi);
            assert((da as int) / gi == dm as int);
            assert(r == spec_reduced(nn, dd));
        }
        r
    }

    /// The whole number `n` as a rational.
    pub fn whole(n: i32) -> (r: Num)
        requires
            -NUM_MAG_LIMIT <= n <= NUM_MAG_LIMIT,
        ensures
            r.wf(),
            r.numer == n,
            r.denom == 1,
    {
        proof {
            lemma_gcd_one_right(abs(n as int));
        }
        Num { numer: n, denom: 1 }
    }

    /// The rational one.
    pub fn one() -> (r: Num)
        ensures
            r.wf(),
            r.numer == 1,
            r.denom == 1,
    {
        Num::whole(1)
    }

    /// Whether the value is a whole number; for a reduced fraction this is
    /// exactly a denominator of one.
    pub fn is_integer(&self) -> (r: bool)
        requires
            self.wf(),
        ensures
            r == (self.denom == 1),
            r <==> divides(self.denom as int, self.numer as int),
    {
        proof {
            if self.denom == 1 {
                assert(self.numer as int == 1 * self.numer as int);
                assert(divides(1int, self.numer as int));
            }
            if divides(self.denom as int, self.numer as int) {
                let d = self.denom as int;
                let k = choose|k: int| self.numer as int == #[trigger] (d * k);
                let m = abs(self.numer as int);
                assert(m as int == d * k || m as int == d * (-k)) by (nonlinear_arith)
                    requires
                        self.numer as int == d * k,
                        m == abs(self.numer as int),
                ;
                assert(divides(d, m as int));
                assert(d as int == d * 1);
                assert(divides(d, d));
                lemma_common_divisor_divides_gcd(m, self.denom as nat, d);
                lemma_divides_le(d, gcd(m, self.denom as nat) as int);
            }
        }
        self.denom == 1
    }

    /// Whether the value is exactly one.
    pub fn is_one(&self) -> (r: bool)
        requires
            self.wf(),
        ensures
            r == (self.numer == self.denom),
    {
        self.numer == self.denom
    }
}

/// `t` is an integer multiple of `a`.
pub open spec fn spec_is_multiple_of(t: Num, a: Num) -> bool {
    exists|k: int| t.numer * a.denom == #[trigger] (k * a.numer * t.denom)
}

proof fn lemma_mul_fits_i64(x: int, y: int)
    by (nonlinear_arith)
    requires
        -0x8000_0000 <= x <= 0x8000_0000,
        -0x8000_0000 <= y <= 0x8000_0000,
    ensures
        -0x4000_0000_0000_0000 <= x * y <= 0x4000_0000_0000_0000,
{
}

impl PartialEq for Num {
    /// Rational equality: equal cross products.
    fn eq(&self, other: &Num) -> (r: bool) {
        proof {
            lemma_mul_fits_i64(self.numer as int, other.denom as int);
            lemma_mul_fits_i64(other.numer as int, self.denom as int);
        }
        (self.numer as i64) * (other.denom as i64) == (other.numer as i64) * (self.denom as i64)
    }
}

impl vstd::std_specs::cmp::PartialEqSpecImpl for Num {
    open spec fn obeys_eq_spec() -> bool {
        true
    }

    open spec fn eq_spec(&self, other: &Num) -> bool {
        num_eq(*self, *other)
    }
}

impl Num {
    /// Exact division by a whole number: `Some(q)` exactly when `self` is an
    /// integer multiple of `a`, and then `q` is the whole quotient.
    pub fn div_by_whole(&self, a: &Num) -> (r: Option<Num>)
        requires
            self.wf(),
            a.wf(),
            a.denom == 1,
        ensures
            r.is_some() <==> (a.numer != 0 && spec_is_multiple_of(*self, *a)),
            match r {
                Some(q) => {
                    &&& q.wf()
                    &&& q.denom == 1
                    &&& self.numer as int == q.numer as int * a.numer as int
                        * self.denom as int
                },
                None => true,
            },
    {
        let x: i64 = self.numer as i64;
        proof {
            lemma_mul_fits_i64(a.numer as int, self.denom as int);
        }
        let m: i64 = (a.numer as i64) * (self.denom as i64);
        if m == 0 {
            proof {
                assert(a.numer as int == 0) by (nonlinear_arith)
                    requires
                        a.numer as int * self.denom as int == 0,
                        self.denom as int > 0,
                ;
            }
            None
        } else {
            let xa: u64 = if x < 0 {
                (-x) as u64
            } else {
                x as u64
            };
            let ma: u64 = if m < 0 {
                (-m) as u64
            } else {
                m as u64
            };
            if xa % ma == 0 {
                let va: u64 = xa / ma;
                proof {
                    lemma_divides_iff_mod_zero(ma as int, xa as int);
                    let k = choose|k: int| xa as int == #[trigger] (ma as int * k);
                    lemma_div_multiples_vanish(k, ma as int);
                    assert(va as int == k);
                    lemma_div_nonincreasing(xa as int, ma as int);
                }
                let neg: bool = (x < 0) != (m < 0);
                let v: i64 = if neg {
                    -(va as i64)
                } else {
                    va as i64
                };
                proof {
                    assert(x as int == m as int * v as int) by (nonlinear_arith)
                        requires
                            xa as int == ma as int * (va as int),
                            (x < 0 ==> xa as int == -(x as int)),
                            (x >= 0 ==> xa as int == x as int),
                            (m < 0 ==> ma as int == -(m as int)),
                            (m >= 0 ==> ma as int == m as int),
                            ((x < 0) != (m < 0) ==> v as int == -(va as int)),
                            (!((x < 0) != (m < 0)) ==> v as int == va as int),
                    ;
                    lemma_gcd_one_right(va as nat);
                    assert(abs(v as int) == va as nat);
                    // the quotient witnesses that self is a multiple of a
                    assert(self.numer as int * a.denom as int
                        == v as int * a.numer as int * self.denom as int) by (nonlinear_arith)
                        requires
                            x as int == m as int * v as int,
                            x as int == self.numer as int,
                            m as int == a.numer as int * self.denom as int,
                            a.denom as int == 1,
                    ;
                    assert(spec_is_multiple_of(*self, *a));
                }
                Some(Num { numer: v as i32, denom: 1 })
            } else {
                proof {
                    lemma_divides_iff_mod_zero(ma as int, xa as int);
                    if spec_is_multiple_of(*self, *a) {
                        let k = choose|k: int|
                            self.numer as int * a.denom as int
                                == #[trigger] (k * a.numer as int * self.denom as int);
                        assert(x as int == m as int * k) by (nonlinear_arith)
                            requires
                                self.numer as int * a.denom as int
                                    == k * a.numer as int * self.denom as int,
                                x as int == self.numer as int,
                                m as int == a.numer as int * self.denom as int,
                                a.denom as int == 1,
                        ;
                        assert(xa as int == ma as int * k || xa as int == ma as int * (-k))
                            by (nonlinear_arith)
                            requires
                                x as int == m as int * k,
                                (x < 0 ==> xa as int == -(x as int)),
                                (x >= 0 ==> xa as int == x as int),
                                (m < 0 ==> ma as int == -(m as int)),
                                (m >= 0 ==> ma as int == m as int),
                        ;
                        assert(divides(ma as int, xa as int));
                        assert(false);
                    }
                }
                None
            }
        }
    }
}

/// Law: rational equality ignores representation. Any well-formed rational
/// built from the fraction `a / b` compares equal to — indeed is identical
/// to — any well-formed rational built from the scaled fraction
/// `(a * c) / (b * c)`, for every nonzero scaling factor `c`.
pub proof fn lemma_eq_ignores_representation(x: Num, y: Num, a: int, b: int, c: int)
    requires
        x.wf(),
        y.wf(),
        b != 0,
        c != 0,
        rat_eq_frac(x, a, b),
        rat_eq_frac(y, a * c, b * c),
    ensures
        num_eq(x, y),
        x == y,
{
    assert(x.numer * y.denom == y.numer * x.denom) by (nonlinear_arith)
        requires
            x.numer * b == a * x.denom,
            y.numer * (b * c) == (a * c) * y.denom,
            b != 0,
            c != 0,
            x.denom > 0,
            y.denom > 0,
    ;
    lemma_reduced_unique(x, y);
}

} // verus!
