//! The PLL divider solver: finds the pair of divide factors that turns the external crystal
//! frequency into a wanted PLL output frequency.
//!
//! The PLL multiplies the crystal frequency by `numerator / denominator`, where the hardware
//! takes only numerators in `[24, 55]` and denominators in `[1, 25]`. The solver reduces the
//! ratio `desired / crystal` to lowest terms and scales it by the least multiplier that lifts
//! the numerator to 24 or more; it refuses when that pair leaves the legal box.

use vstd::prelude::*;
use crate::error::ClockError;
use crate::euclid::{
    gcd_of, lemma_bezout, lemma_exact_quotient, lemma_gcd_divides, lemma_gcd_positive,
};

verus! {

/// The smallest PLL VCO divide factor, the numerator of the PLL divider.
pub const PLL_DIVIDER_NUMERATOR_MIN: u8 = 24;

/// The largest PLL VCO divide factor.
pub const PLL_DIVIDER_NUMERATOR_MAX: u8 = 55;

/// The smallest PLL reference divide factor, the denominator of the PLL divider.
pub const PLL_DIVIDER_DENOMINATOR_MIN: u8 = 1;

/// The largest PLL reference divide factor.
pub const PLL_DIVIDER_DENOMINATOR_MAX: u8 = 25;

/// The pairs of divide factors that the PLL hardware can be programmed with.
pub open spec fn is_pll_divider(numerator: int, denominator: int) -> bool {
    &&& PLL_DIVIDER_NUMERATOR_MIN <= numerator <= PLL_DIVIDER_NUMERATOR_MAX
    &&& PLL_DIVIDER_DENOMINATOR_MIN <= denominator <= PLL_DIVIDER_DENOMINATOR_MAX
}

/// The legal pair `(numerator, denominator)` turns `crystal` into exactly `desired`:
/// `crystal * numerator / denominator == desired`, with nothing lost in the division.
pub open spec fn realizes(numerator: int, denominator: int, desired: int, crystal: int) -> bool {
    &&& desired > 0
    &&& crystal > 0
    &&& is_pll_divider(numerator, denominator)
    &&& numerator * crystal == denominator * desired
}

/// The least multiplier `m >= 1` with `numerator * m >= 24`, for a positive `numerator`.
pub open spec fn pll_multiplier(numerator: int) -> int {
    if numerator >= PLL_DIVIDER_NUMERATOR_MIN {
        1
    } else {
        (PLL_DIVIDER_NUMERATOR_MIN - 1 + numerator) / numerator
    }
}

/// What the solver answers for `desired / crystal`: the ratio in lowest terms, scaled by
/// `pll_multiplier`, if that pair is legal; nothing if either input is zero or the scaled
/// pair is not legal.
pub open spec fn solved_pll_divider(desired: nat, crystal: nat) -> Option<(int, int)> {
    if desired == 0 || crystal == 0 {
        None
    } else {
        let g = gcd_of(desired, crystal);
        let numerator = (desired / g) as int;
        let denominator = (crystal / g) as int;
        let m = pll_multiplier(numerator);
        if is_pll_divider(numerator * m, denominator * m) {
            Some((numerator * m, denominator * m))
        } else {
            None
        }
    }
}

/// `pll_multiplier(numerator)` reaches 24 and is the first multiplier to do so.
proof fn lemma_pll_multiplier(numerator: int)
    requires
        numerator >= 1,
    ensures
        pll_multiplier(numerator) >= 1,
        numerator * pll_multiplier(numerator) >= PLL_DIVIDER_NUMERATOR_MIN,
        numerator * (pll_multiplier(numerator) - 1) < PLL_DIVIDER_NUMERATOR_MIN,
{
    if numerator < 24 {
        let m = (23 + numerator) / numerator;
        assert(m >= 1 && numerator * m >= 24 && numerator * (m - 1) < 24) by (nonlinear_arith)
            requires
                1 <= numerator < 24,
                m == (23 + numerator) / numerator,
        ;
    } else {
        assert(numerator * 1 >= 24 && numerator * 0 < 24) by (nonlinear_arith)
            requires
                numerator >= 24,
        ;
    }
}

/// A multiplier that reaches 24 is at least `pll_multiplier(numerator)`.
proof fn lemma_pll_multiplier_is_least(numerator: int, k: int)
    requires
        numerator >= 1,
        numerator * k >= PLL_DIVIDER_NUMERATOR_MIN,
    ensures
        k >= pll_multiplier(numerator),
{
    lemma_pll_multiplier(numerator);
    let m = pll_multiplier(numerator);
    assert(k >= m) by (nonlinear_arith)
        requires
            numerator >= 1,
            numerator * k >= 24,
            numerator * (m - 1) < 24,
    ;
}

/// The reduced pair of a ratio of positive numbers: both parts are positive, and scaling
/// them by the gcd gives the ratio back.
proof fn lemma_reduced_pair(desired: nat, crystal: nat)
    requires
        desired > 0,
        crystal > 0,
    ensures
        gcd_of(desired, crystal) > 0,
        desired == gcd_of(desired, crystal) * (desired / gcd_of(desired, crystal)),
        crystal == gcd_of(desired, crystal) * (crystal / gcd_of(desired, crystal)),
        desired / gcd_of(desired, crystal) >= 1,
        crystal / gcd_of(desired, crystal) >= 1,
{
    let g = gcd_of(desired, crystal) as int;
    lemma_gcd_positive(desired, crystal);
    lemma_gcd_divides(desired, crystal);
    lemma_exact_quotient(g, desired as int);
    lemma_exact_quotient(g, crystal as int);
    let n = desired as int / g;
    let d = crystal as int / g;
    assert(n >= 1 && d >= 1) by (nonlinear_arith)
        requires
            g > 0,
            desired > 0,
            crystal > 0,
            desired == g * n,
            crystal == g * d,
    ;
}

/// A ratio whose lowest terms already lie in the legal box is answered with exactly those
/// lowest terms: no multiplier is applied.
pub proof fn lemma_reduced_pair_is_kept(desired: u8, crystal: u8)
    requires
        gcd_of(desired as nat, crystal as nat) > 0,
        is_pll_divider(
            desired as int / gcd_of(desired as nat, crystal as nat) as int,
            crystal as int / gcd_of(desired as nat, crystal as nat) as int,
        ),
    ensures
        solved_pll_divider(desired as nat, crystal as nat) == Some(
            (
                desired as int / gcd_of(desired as nat, crystal as nat) as int,
                crystal as int / gcd_of(desired as nat, crystal as nat) as int,
            ),
        ),
{
    let g = gcd_of(desired as nat, crystal as nat) as int;
    let n = desired as int / g;
    let d = crystal as int / g;
    assert(desired > 0 && crystal > 0) by (nonlinear_arith)
        requires
            g > 0,
            desired >= 0,
            crystal >= 0,
            n == desired as int / g,
            d == crystal as int / g,
            n >= 24,
            d >= 1,
    ;
    assert(n * 1 == n && d * 1 == d);
}

/// Every answer of the solver is a legal pair that reproduces the wanted frequency exactly:
/// `numerator * crystal / denominator == desired`, and the division leaves no remainder.
pub proof fn lemma_solution_keeps_ratio(desired: u8, crystal: u8)
    requires
        solved_pll_divider(desired as nat, crystal as nat) is Some,
    ensures
        ({
            let (n, d) = solved_pll_divider(desired as nat, crystal as nat)->0;
            &&& realizes(n, d, desired as int, crystal as int)
            &&& (n * crystal) / d == desired
            &&& (n * crystal) % d == 0
        }),
{
    let (n, d) = solved_pll_divider(desired as nat, crystal as nat)->0;
    lemma_reduced_pair(desired as nat, crystal as nat);
    let g = gcd_of(desired as nat, crystal as nat) as int;
    let num = desired as int / g;
    let den = crystal as int / g;
    let m = pll_multiplier(num);
    assert((num * m) * crystal == (den * m) * desired) by (nonlinear_arith)
        requires
            desired == g * num,
            crystal == g * den,
    ;
    assert((n * crystal) / d == desired && (n * crystal) % d == 0) by (nonlinear_arith)
        requires
            d > 0,
            n * crystal == d * desired,
    ;
}

/// A wanted frequency of zero and a crystal frequency of zero are refused.
pub proof fn lemma_zero_is_refused(desired: u8, crystal: u8)
    requires
        desired == 0 || crystal == 0,
    ensures
        solved_pll_divider(desired as nat, crystal as nat) is None,
{
}

/// The solver finds a pair whenever one exists, and it finds the smallest: if any legal
/// pair `(n, d)` reproduces the wanted frequency, the request is answered, with a numerator
/// and a denominator no larger than `n` and `d`.
pub proof fn lemma_solution_is_least(desired: u8, crystal: u8, n: int, d: int)
    requires
        realizes(n, d, desired as int, crystal as int),
    ensures
        match solved_pll_divider(desired as nat, crystal as nat) {
            Some((least_n, least_d)) => least_n <= n && least_d <= d,
            None => false,
        },
{
    lemma_reduced_pair(desired as nat, crystal as nat);
    let g = gcd_of(desired as nat, crystal as nat) as int;
    let num = desired as int / g;
    let den = crystal as int / g;
    let m = pll_multiplier(num);
    // By Bezout the gcd is x * desired + y * crystal, so n * g is a multiple of desired,
    // and n is a multiple k of the reduced numerator.
    let (x, y) = lemma_bezout(desired as nat, crystal as nat);
    let k = n * x + d * y;
    assert(n * g == desired * k) by (nonlinear_arith)
        requires
            x * desired + y * crystal == g,
            n * crystal == d * desired,
            k == n * x + d * y,
    ;
    assert(n == num * k) by (nonlinear_arith)
        requires
            n * g == desired * k,
            desired == g * num,
            g > 0,
    ;
    assert(d == den * k) by (nonlinear_arith)
        requires
            n == num * k,
            n * crystal == d * desired,
            desired == g * num,
            crystal == g * den,
            g > 0,
            num >= 1,
    ;
    lemma_pll_multiplier(num);
    lemma_pll_multiplier_is_least(num, k);
    lemma_scaled_pair_grows(num, den, m, k);
    assert(den * m >= 1) by (nonlinear_arith)
        requires
            den >= 1,
            m >= 1,
    ;
}

/// Finds the PLL divide factors for the ratio `numerator / denominator` (the wanted
/// frequency over the crystal frequency, both in MHz).
///
/// The answer is `solved_pll_divider`: the ratio in lowest terms, scaled by the least
/// multiplier that makes the numerator 24 or more. The request is refused when either input
/// is zero, or when the scaled pair has a numerator above 55 or a denominator above 25.
pub fn pll_frequency_divider_gcd(numerator: u8, denominator: u8) -> (r: Result<(u8, u8), ClockError>)
    ensures
        match solved_pll_divider(numerator as nat, denominator as nat) {
            Some((n, d)) => r == Ok::<(u8, u8), ClockError>((n as u8, d as u8)),
            None => r == Err::<(u8, u8), ClockError>(
                ClockError::UnsolvablePllDivider { numerator, denominator },
            ),
        },
{
    let refused = Err(ClockError::UnsolvablePllDivider { numerator, denominator });
    let mut num: u8 = numerator;
    let mut den: u8 = denominator;
    while den != 0
        invariant
            gcd_of(num as nat, den as nat) == gcd_of(numerator as nat, denominator as nat),
        decreases den,
    {
        let temp: u8 = den;
        den = num % den;
        num = temp;
    }
    let gcd: u8 = num;
    if gcd == 0 {
        proof {
            if numerator > 0 || denominator > 0 {
                lemma_gcd_positive(numerator as nat, denominator as nat);
            }
        }
        return refused;
    }
    num = numerator / gcd;
    den = denominator / gcd;
    if num == 0 || den == 0 {
        proof {
            if numerator > 0 && denominator > 0 {
                lemma_reduced_pair(numerator as nat, denominator as nat);
            }
        }
        return refused;
    }
    proof {
        lemma_gcd_divides(numerator as nat, denominator as nat);
        lemma_exact_quotient(gcd as int, numerator as int);
        lemma_exact_quotient(gcd as int, denominator as int);
        lemma_pll_multiplier(num as int);
    }
    let ghost m = pll_multiplier(num as int);
    if num > PLL_DIVIDER_NUMERATOR_MAX || den > PLL_DIVIDER_DENOMINATOR_MAX {
        proof {
            assert(den * m >= den) by (nonlinear_arith)
                requires
                    den >= 1,
                    m >= 1,
            ;
        }
        return refused;
    }
    let mut freq_num: u8 = num;
    let mut freq_den: u8 = den;
    let mut mul: u8 = 1;
    while freq_num < PLL_DIVIDER_NUMERATOR_MIN || freq_den < PLL_DIVIDER_DENOMINATOR_MIN
        invariant
            1 <= num <= PLL_DIVIDER_NUMERATOR_MAX,
            1 <= den <= PLL_DIVIDER_DENOMINATOR_MAX,
            1 <= mul <= m,
            freq_num == num * mul,
            freq_den == den * mul,
            freq_num <= PLL_DIVIDER_NUMERATOR_MAX,
            freq_den <= PLL_DIVIDER_DENOMINATOR_MAX,
            m == pll_multiplier(num as int),
            numerator > 0,
            denominator > 0,
            num == numerator / gcd,
            den == denominator / gcd,
            gcd == gcd_of(numerator as nat, denominator as nat),
            refused == Err::<(u8, u8), ClockError>(
                ClockError::UnsolvablePllDivider { numerator, denominator },
            ),
        decreases m - mul,
    {
        proof {
            lemma_pll_multiplier(num as int);
            assert(freq_den >= 1) by (nonlinear_arith)
                requires
                    freq_den == den * mul,
                    den >= 1,
                    mul >= 1,
            ;
            // The multiplier in hand does not reach 24, so the least one is larger.
            assert(mul < m) by (nonlinear_arith)
                requires
                    num * mul < 24,
                    num * m >= 24,
                    num >= 1,
            ;
            assert(m <= 24) by (nonlinear_arith)
                requires
                    num >= 1,
                    num * (m - 1) < 24,
            ;
        }
        mul += 1;
        match (num.checked_mul(mul), den.checked_mul(mul)) {
            (Some(new_freq_num), Some(new_freq_den)) => {
                if new_freq_num <= PLL_DIVIDER_NUMERATOR_MAX && new_freq_den
                    <= PLL_DIVIDER_DENOMINATOR_MAX {
                    freq_num = new_freq_num;
                    freq_den = new_freq_den;
                } else {
                    proof {
                        lemma_scaled_pair_grows(num as int, den as int, mul as int, m);
                    }
                    return refused;
                }
            },
            _ => {
                proof {
                    lemma_scaled_pair_grows(num as int, den as int, mul as int, m);
                }
                return refused;
            },
        }
    }
    proof {
        lemma_pll_multiplier_is_least(num as int, mul as int);
    }
    Ok((freq_num, freq_den))
}

/// Scaling a positive pair by a larger multiplier gives a pair that is no smaller.
proof fn lemma_scaled_pair_grows(num: int, den: int, k: int, m: int)
    requires
        num >= 1,
        den >= 1,
        1 <= k <= m,
    ensures
        num * k <= num * m,
        den * k <= den * m,
{
    assert(num * k <= num * m && den * k <= den * m) by (nonlinear_arith)
        requires
            num >= 1,
            den >= 1,
            1 <= k <= m,
    ;
}

} // verus!
