//! Greatest common divisors: the mathematical definition used by the PLL divider solver and
//! by the UART baud rate computation, with the facts about it that those two rely on.

use vstd::prelude::*;

verus! {

/// The greatest common divisor of `a` and `b`, by Euclid's recurrence.
/// `gcd_of(a, 0) == a`, so `gcd_of(0, 0) == 0`.
pub open spec fn gcd_of(a: nat, b: nat) -> nat
    decreases b,
{
    if b == 0 {
        a
    } else {
        gcd_of(b, a % b)
    }
}

/// `d` divides `n`: `n` is `d` times some integer.
pub open spec fn divides(d: int, n: int) -> bool {
    exists|k: int| n == #[trigger] (d * k)
}

/// Any integer that divides `x` and `y` divides `x - q * y`.
proof fn lemma_divides_remainder(d: int, x: int, y: int, q: int)
    requires
        divides(d, x),
        divides(d, y),
    ensures
        divides(d, x - q * y),
{
    let kx = choose|k: int| x == #[trigger] (d * k);
    let ky = choose|k: int| y == #[trigger] (d * k);
    assert(x - q * y == d * (kx - q * ky)) by (nonlinear_arith)
        requires
            x == d * kx,
            y == d * ky,
    ;
}

/// Any integer that divides `y` and `x - q * y` divides `x`.
proof fn lemma_divides_dividend(d: int, x: int, y: int, q: int)
    requires
        divides(d, y),
        divides(d, x - q * y),
    ensures
        divides(d, x),
{
    let ky = choose|k: int| y == #[trigger] (d * k);
    let kr = choose|k: int| x - q * y == #[trigger] (d * k);
    assert(x == d * (kr + q * ky)) by (nonlinear_arith)
        requires
            x - q * y == d * kr,
            y == d * ky,
    ;
}

/// The gcd is a common divisor of its two arguments.
pub proof fn lemma_gcd_divides(a: nat, b: nat)
    ensures
        divides(gcd_of(a, b) as int, a as int),
        divides(gcd_of(a, b) as int, b as int),
    decreases b,
{
    let g = gcd_of(a, b) as int;
    if b == 0 {
        assert(a as int == g * 1);
        assert(b as int == g * 0);
    } else {
        lemma_gcd_divides(b, a % b);
        let q = (a / b) as int;
        assert(a as int == q * b + (a % b)) by (nonlinear_arith)
            requires
                b > 0,
                q == (a / b) as int,
        ;
        assert((a % b) as int == a - q * b);
        lemma_divides_dividend(g, a as int, b as int, q);
    }
}

/// Every common divisor of the two arguments divides their gcd: the gcd is the greatest.
pub proof fn lemma_gcd_greatest(a: nat, b: nat, d: int)
    requires
        divides(d, a as int),
        divides(d, b as int),
    ensures
        divides(d, gcd_of(a, b) as int),
    decreases b,
{
    if b != 0 {
        let q = (a / b) as int;
        assert(a as int == q * b + (a % b)) by (nonlinear_arith)
            requires
                b > 0,
                q == (a / b) as int,
        ;
        lemma_divides_remainder(d, a as int, b as int, q);
        assert((a % b) as int == a - q * b);
        lemma_gcd_greatest(b, a % b, d);
    }
}

/// The gcd is zero only when both arguments are.
pub proof fn lemma_gcd_positive(a: nat, b: nat)
    requires
        a > 0 || b > 0,
    ensures
        gcd_of(a, b) > 0,
    decreases b,
{
    if b != 0 {
        lemma_gcd_positive(b, a % b);
    }
}

/// Bézout's identity: the gcd is an integer combination of its arguments.
/// The coefficients are returned.
pub proof fn lemma_bezout(a: nat, b: nat) -> (c: (int, int))
    ensures
        c.0 * a + c.1 * b == gcd_of(a, b),
    decreases b,
{
    if b == 0 {
        (1, 0)
    } else {
        let (x, y) = lemma_bezout(b, a % b);
        let q = (a / b) as int;
        let r = (a % b) as int;
        let g = gcd_of(a, b) as int;
        assert(a as int == q * b + r) by (nonlinear_arith)
            requires
                b > 0,
                q == (a / b) as int,
                r == (a % b) as int,
        ;
        assert(y * a + (x - q * y) * b == g) by (nonlinear_arith)
            requires
                a == q * b + r,
                x * b + y * r == g,
        ;
        (y, x - q * y)
    }
}

/// A positive divisor `g` of `n` satisfies `n == g * (n / g)`.
pub proof fn lemma_exact_quotient(g: int, n: int)
    requires
        g > 0,
        n >= 0,
        divides(g, n),
    ensures
        n == g * (n / g),
        n % g == 0,
{
    let k = choose|k: int| n == #[trigger] (g * k);
    assert(n / g == k && n % g == 0) by (nonlinear_arith)
        requires
            g > 0,
            n == g * k,
    ;
}

} // verus!
