//! The curve engine: a quadratic bonding curve priced in constant time.
//!
//! The marginal price of the unit at supply `k` is
//! `base_price + k^2 * slope / precision`. A batch of `amount` units
//! starting at `supply` is priced with the closed-form sum-of-squares
//! identity, so a trade costs the same number of arithmetic operations
//! whatever its size. Every step is overflow-checked; a value that does
//! not fit is a hard `Overflow` failure, never a wrapped number.

use vstd::prelude::*;
use crate::errors::TradeError;

verus! {

/// The immutable parameters of one market's bonding curve.
///
/// Invariant: `base_price`, `slope`, `precision` and `max_supply` are all
/// strictly positive.
#[derive(Clone, Copy, Debug, PartialEq, Eq, Structural)]
pub struct CurveParameters {
    /// Price of the unit at supply zero, in the smallest payment unit.
    pub base_price: u64,
    /// Numerator of the quadratic coefficient.
    pub slope: u64,
    /// Denominator of the quadratic coefficient.
    pub precision: u64,
    /// Largest circulating supply the market may reach.
    pub max_supply: u64,
}

impl CurveParameters {
    /// The parameter invariant: all four fields strictly positive.
    pub open spec fn wf(&self) -> bool {
        &&& self.base_price > 0
        &&& self.slope > 0
        &&& self.precision > 0
        &&& self.max_supply > 0
    }

    /// Validates and builds a parameter set; rejects any zero field.
    pub fn new(base_price: u64, slope: u64, precision: u64, max_supply: u64) -> (r: Result<
        CurveParameters,
        TradeError,
    >)
        ensures
            r matches Ok(p) ==> p.wf() && p.base_price == base_price && p.slope == slope
                && p.precision == precision && p.max_supply == max_supply,
            r is Ok <==> base_price > 0 && slope > 0 && precision > 0 && max_supply > 0,
            r is Err ==> r == Err::<CurveParameters, TradeError>(
                TradeError::InvalidCurveParameters,
            ),
    {
        if base_price == 0 || slope == 0 || precision == 0 || max_supply == 0 {
            return Err(TradeError::InvalidCurveParameters);
        }
        Ok(CurveParameters { base_price, slope, precision, max_supply })
    }
}

/// The sum of the squares below `x`: `0^2 + 1^2 + ... + (x-1)^2`.
pub open spec fn sum_sq(x: int) -> int
    decreases x,
{
    if x <= 0 {
        0
    } else {
        sum_sq(x - 1) + (x - 1) * (x - 1)
    }
}

/// The sum of the squares of the `n` integers from `s` up to `s + n - 1`.
pub open spec fn sq_range(s: int, n: int) -> int {
    sum_sq(s + n) - sum_sq(s)
}

/// The marginal unit price at supply `s`: `base_price + s^2 * slope / precision`.
pub open spec fn spec_unit_price(p: CurveParameters, s: int) -> int {
    p.base_price + (s * s * p.slope) / (p.precision as int)
}

/// The exact discrete batch price of `n` units starting at supply `s`:
/// the linear base term plus the quadratic term of the whole batch,
/// scaled once by `slope / precision` with truncation.
pub open spec fn spec_batch_price(p: CurveParameters, s: int, n: int) -> int {
    p.base_price * n + (p.slope * sq_range(s, n)) / (p.precision as int)
}

/// Whether the unit price at `s` can be computed within the machine widths.
pub open spec fn unit_price_fits(p: CurveParameters, s: int) -> bool {
    &&& s * s * p.slope <= u128::MAX
    &&& spec_unit_price(p, s) <= u64::MAX
}

/// What `price_of_supply` returns for every input.
pub open spec fn spec_price_result(p: CurveParameters, s: int) -> Result<u64, TradeError> {
    if s > p.max_supply {
        Err(TradeError::InvalidSupply)
    } else if !unit_price_fits(p, s) {
        Err(TradeError::Overflow)
    } else {
        Ok(spec_unit_price(p, s) as u64)
    }
}

/// Whether the batch price of `n` units at `s` can be computed within the
/// machine widths.
pub open spec fn batch_fits(p: CurveParameters, s: int, n: int) -> bool {
    &&& 3 * sum_sq(s + n) <= u128::MAX
    &&& p.slope * sq_range(s, n) <= u128::MAX
    &&& spec_batch_price(p, s, n) <= u64::MAX
}

/// What `batch_price` returns for every input.
pub open spec fn spec_batch_result(p: CurveParameters, s: int, n: int) -> Result<u64, TradeError> {
    if n == 0 {
        Ok(0u64)
    } else if s + n > p.max_supply {
        Err(TradeError::ExceedsMaxSupply)
    } else if !batch_fits(p, s, n) {
        Err(TradeError::Overflow)
    } else {
        Ok(spec_batch_price(p, s, n) as u64)
    }
}

/// What `get_sell_price` returns for every input: selling `n` units at
/// supply `s` is priced as buying the same `n` units at supply `s - n`.
pub open spec fn spec_sell_result(p: CurveParameters, s: int, n: int) -> Result<u64, TradeError> {
    if n > s {
        Err(TradeError::InsufficientSupply)
    } else {
        spec_batch_result(p, s - n, n)
    }
}

/// What `batch_price_trapezoid` returns for every input.
pub open spec fn spec_trapezoid_result(p: CurveParameters, s: int, n: int) -> Result<
    u64,
    TradeError,
> {
    if n == 0 {
        Ok(0u64)
    } else if s + n > p.max_supply {
        Err(TradeError::ExceedsMaxSupply)
    } else {
        match spec_price_result(p, s) {
            Err(e) => Err(e),
            Ok(p1) => match spec_price_result(p, s + n) {
                Err(e) => Err(e),
                Ok(p2) => if p1 + p2 > u64::MAX {
                    Err(TradeError::Overflow)
                } else if ((p1 + p2) / 2) * n > u64::MAX {
                    Err(TradeError::Overflow)
                } else {
                    Ok((((p1 + p2) / 2) * n) as u64)
                },
            },
        }
    }
}

/// Six times the sum of squares below `x` is `x * (x - 1) * (2x - 1)`.
pub proof fn lemma_sum_sq_closed_form(x: int)
    requires
        x >= 0,
    ensures
        6 * sum_sq(x) == x * (x - 1) * (2 * x - 1),
    decreases x,
{
    if x == 0 {
    } else {
        lemma_sum_sq_closed_form(x - 1);
        assert(6 * sum_sq(x) == 6 * sum_sq(x - 1) + 6 * ((x - 1) * (x - 1)));
        assert((x - 1) * (x - 2) * (2 * x - 3) + 6 * ((x - 1) * (x - 1)) == x * (x - 1) * (2 * x
            - 1)) by (nonlinear_arith);
    }
}

/// The product of two consecutive integers is even.
pub proof fn lemma_consecutive_product_even(x: int)
    requires
        x >= 0,
    ensures
        x * (x - 1) % 2 == 0,
    decreases x,
{
    if x == 0 {
    } else {
        lemma_consecutive_product_even(x - 1);
        assert(x * (x - 1) == (x - 1) * (x - 2) + 2 * (x - 1)) by (nonlinear_arith);
        assert(((x - 1) * (x - 2) + 2 * (x - 1)) % 2 == 0) by (nonlinear_arith)
            requires
                (x - 1) * (x - 2) % 2 == 0,
        ;
    }
}

/// The sum of squares grows with its bound.
pub proof fn lemma_sum_sq_monotone(a: int, b: int)
    requires
        a <= b,
    ensures
        sum_sq(a) <= sum_sq(b),
    decreases b - a,
{
    if a < b {
        lemma_sum_sq_monotone(a, b - 1);
        assert((b - 1) * (b - 1) >= 0) by (nonlinear_arith);
    }
}

/// The sum of squares is never negative.
pub proof fn lemma_sum_sq_nonneg(x: int)
    ensures
        sum_sq(x) >= 0,
{
    if x >= 0 {
        lemma_sum_sq_monotone(0, x);
    }
}

/// Computes `sum_sq(x)` exactly in 128-bit arithmetic, or reports that the
/// triple of that sum does not fit the width.
fn sum_sq_u128(x: u64) -> (r: Option<u128>)
    ensures
        r == if 3 * sum_sq(x as int) <= u128::MAX {
            Some(sum_sq(x as int) as u128)
        } else {
            None::<u128>
        },
{
    if x == 0 {
        return Some(0);
    }
    let xw: u128 = x as u128;
    proof {
        assert(xw * (xw - 1) < 0x100000000000000000000000000000000) by (nonlinear_arith)
            requires
                0 < xw < 0x10000000000000000,
        ;
        lemma_consecutive_product_even(x as int);
        lemma_sum_sq_closed_form(x as int);
    }
    let prod: u128 = xw * (xw - 1);
    let tri: u128 = prod / 2;
    let odd: u128 = 2 * xw - 1;
    proof {
        assert(prod == 2 * (tri as int));
        assert(prod * (odd as int) == 2 * ((tri as int) * (odd as int))) by (nonlinear_arith)
            requires
                prod == 2 * (tri as int),
        ;
        assert((tri as int) * (odd as int) == 3 * sum_sq(x as int));
    }
    match tri.checked_mul(odd) {
        Some(m) => {
            proof {
                vstd::arithmetic::div_mod::lemma_div_multiples_vanish(sum_sq(x as int), 3);
            }
            Some(m / 3)
        },
        None => None,
    }
}

impl CurveParameters {
    /// The instantaneous marginal unit price at a supply point.
    ///
    /// Returns `base_price + supply^2 * slope / precision` with truncating
    /// division; fails `InvalidSupply` above `max_supply` and `Overflow`
    /// where an intermediate or the result does not fit.
    pub fn price_of_supply(&self, supply: u64) -> (r: Result<u64, TradeError>)
        requires
            self.wf(),
        ensures
            r == spec_price_result(*self, supply as int),
    {
        if supply > self.max_supply {
            return Err(TradeError::InvalidSupply);
        }
        let sw = supply as u128;
        proof {
            assert(sw * sw < 0x100000000000000000000000000000000) by (nonlinear_arith)
                requires
                    0 <= sw < 0x10000000000000000,
            ;
        }
        let sq: u128 = sw * sw;
        let m = match sq.checked_mul(self.slope as u128) {
            Some(v) => v,
            None => {
                return Err(TradeError::Overflow);
            },
        };
        let q: u128 = m / (self.precision as u128);
        let tot = match (self.base_price as u128).checked_add(q) {
            Some(v) => v,
            None => {
                return Err(TradeError::Overflow);
            },
        };
        if tot > u64::MAX as u128 {
            return Err(TradeError::Overflow);
        }
        Ok(tot as u64)
    }

    /// The exact discrete price of a batch of `amount` units starting at
    /// `supply`, in constant time.
    ///
    /// Equals `base_price * amount` plus the truncated quadratic term of
    /// the whole batch. A zero amount prices at zero and is not an error;
    /// a batch that would pass `max_supply` fails `ExceedsMaxSupply`; a
    /// value that does not fit its width fails `Overflow`.
    pub fn batch_price(&self, supply: u64, amount: u64) -> (r: Result<u64, TradeError>)
        requires
            self.wf(),
        ensures
            r == spec_batch_result(*self, supply as int, amount as int),
    {
        if amount == 0 {
            return Ok(0u64);
        }
        let new_supply = match supply.checked_add(amount) {
            Some(v) => v,
            None => {
                return Err(TradeError::ExceedsMaxSupply);
            },
        };
        if new_supply > self.max_supply {
            return Err(TradeError::ExceedsMaxSupply);
        }
        let f2 = match sum_sq_u128(new_supply) {
            Some(v) => v,
            None => {
                return Err(TradeError::Overflow);
            },
        };
        proof {
            lemma_sum_sq_nonneg(supply as int);
            lemma_sum_sq_monotone(supply as int, supply as int + amount as int);
        }
        let f1 = match sum_sq_u128(supply) {
            Some(v) => v,
            None => {
                // The narrower sum fits whenever the wider one does.
                assert(false);
                return Err(TradeError::Overflow);
            },
        };
        let d: u128 = f2 - f1;
        let m = match (self.slope as u128).checked_mul(d) {
            Some(v) => v,
            None => {
                return Err(TradeError::Overflow);
            },
        };
        let q: u128 = m / (self.precision as u128);
        proof {
            assert((self.base_price as u128) * (amount as u128)
                < 0x100000000000000000000000000000000) by (nonlinear_arith)
                requires
                    0 <= (self.base_price as u128) < 0x10000000000000000,
                    0 <= (amount as u128) < 0x10000000000000000,
            ;
        }
        let lin: u128 = (self.base_price as u128) * (amount as u128);
        let tot = match lin.checked_add(q) {
            Some(v) => v,
            None => {
                return Err(TradeError::Overflow);
            },
        };
        if tot > u64::MAX as u128 {
            return Err(TradeError::Overflow);
        }
        Ok(tot as u64)
    }

    /// The trapezoidal batch price: `amount` times the truncated average
    /// of the marginal prices at the old and the new supply.
    ///
    /// This is an explicit lower-precision mode. It only approximates the
    /// exact discrete sum of `batch_price`, with a rounding bias that
    /// grows with the curve's curvature, and must not be mixed with
    /// `batch_price` within one market.
    pub fn batch_price_trapezoid(&self, supply: u64, amount: u64) -> (r: Result<u64, TradeError>)
        requires
            self.wf(),
        ensures
            r == spec_trapezoid_result(*self, supply as int, amount as int),
    {
        if amount == 0 {
            return Ok(0u64);
        }
        let new_supply = match supply.checked_add(amount) {
            Some(v) => v,
            None => {
                return Err(TradeError::ExceedsMaxSupply);
            },
        };
        if new_supply > self.max_supply {
            return Err(TradeError::ExceedsMaxSupply);
        }
        let p1 = match self.price_of_supply(supply) {
            Ok(v) => v,
            Err(e) => {
                return Err(e);
            },
        };
        let p2 = match self.price_of_supply(new_supply) {
            Ok(v) => v,
            Err(e) => {
                return Err(e);
            },
        };
        let sum = match p1.checked_add(p2) {
            Some(v) => v,
            None => {
                return Err(TradeError::Overflow);
            },
        };
        let avg = sum / 2;
        match avg.checked_mul(amount) {
            Some(v) => Ok(v),
            None => Err(TradeError::Overflow),
        }
    }

    /// The exact discrete proceeds of selling `amount` units at supply
    /// `supply`: what buying the same batch at the post-sale supply would
    /// cost. Fails `InsufficientSupply` where `amount > supply`.
    pub fn get_sell_price(&self, supply: u64, amount: u64) -> (r: Result<u64, TradeError>)
        requires
            self.wf(),
        ensures
            r == spec_sell_result(*self, supply as int, amount as int),
    {
        if amount > supply {
            return Err(TradeError::InsufficientSupply);
        }
        self.batch_price(supply - amount, amount)
    }

    /// The exact discrete cost of buying `amount` units at supply
    /// `supply`; a named entry point for the canonical `batch_price`.
    pub fn get_buy_price(&self, supply: u64, amount: u64) -> (r: Result<u64, TradeError>)
        requires
            self.wf(),
        ensures
            r == spec_batch_result(*self, supply as int, amount as int),
    {
        self.batch_price(supply, amount)
    }

    /// The marginal price at `supply` times the supply itself.
    pub fn get_market_cap(&self, supply: u64) -> (r: Result<u64, TradeError>)
        requires
            self.wf(),
        ensures
            r == spec_market_cap_result(*self, supply as int),
    {
        let price = match self.price_of_supply(supply) {
            Ok(v) => v,
            Err(e) => {
                return Err(e);
            },
        };
        match price.checked_mul(supply) {
            Some(v) => Ok(v),
            None => Err(TradeError::Overflow),
        }
    }

    /// What selling the entire supply back to the curve would return.
    pub fn get_liquidity(&self, supply: u64) -> (r: Result<u64, TradeError>)
        requires
            self.wf(),
        ensures
            r == spec_batch_result(*self, 0, supply as int),
    {
        self.batch_price(0, supply)
    }

    /// A snapshot of the curve at one supply point.
    pub fn get_curve_stats(&self, supply: u64) -> (r: Result<CurveStats, TradeError>)
        requires
            self.wf(),
        ensures
            r == spec_curve_stats_result(*self, supply as int),
    {
        let current_price = match self.price_of_supply(supply) {
            Ok(v) => v,
            Err(e) => {
                return Err(e);
            },
        };
        let market_cap = match self.get_market_cap(supply) {
            Ok(v) => v,
            Err(e) => {
                return Err(e);
            },
        };
        let liquidity = match self.get_liquidity(supply) {
            Ok(v) => v,
            Err(e) => {
                return Err(e);
            },
        };
        Ok(
            CurveStats {
                current_price,
                market_cap,
                liquidity,
                supply,
                max_supply: self.max_supply,
            },
        )
    }
}

/// A snapshot of one market's curve position.
#[derive(Clone, Copy, Debug, PartialEq, Eq, Structural)]
pub struct CurveStats {
    /// The marginal unit price at the snapshot supply.
    pub current_price: u64,
    /// That price times the snapshot supply.
    pub market_cap: u64,
    /// What selling the whole supply back to the curve would return.
    pub liquidity: u64,
    /// The snapshot supply.
    pub supply: u64,
    /// The market's maximum supply.
    pub max_supply: u64,
}

/// What `get_market_cap` returns for every input.
pub open spec fn spec_market_cap_result(p: CurveParameters, s: int) -> Result<u64, TradeError> {
    match spec_price_result(p, s) {
        Err(e) => Err(e),
        Ok(price) => if price * s > u64::MAX {
            Err(TradeError::Overflow)
        } else {
            Ok((price * s) as u64)
        },
    }
}

/// What `get_curve_stats` returns for every input.
pub open spec fn spec_curve_stats_result(p: CurveParameters, s: int) -> Result<
    CurveStats,
    TradeError,
> {
    match spec_price_result(p, s) {
        Err(e) => Err(e),
        Ok(current_price) => match spec_market_cap_result(p, s) {
            Err(e) => Err(e),
            Ok(market_cap) => match spec_batch_result(p, 0, s) {
                Err(e) => Err(e),
                Ok(liquidity) => Ok(
                    (CurveStats {
                        current_price,
                        market_cap,
                        liquidity,
                        supply: s as u64,
                        max_supply: p.max_supply,
                    }),
                ),
            },
        },
    }
}

/// Shifting a square-sum range up by one trades its lowest square for a
/// new highest one.
pub proof fn lemma_sq_range_shift(s: int, n: int)
    requires
        s >= 0,
        n >= 0,
    ensures
        sq_range(s + 1, n) == sq_range(s, n) + (s + n) * (s + n) - s * s,
{
    assert(sum_sq(s + n + 1) == sum_sq(s + n) + (s + n) * (s + n));
    assert(sum_sq(s + 1) == sum_sq(s) + s * s);
}

/// The closed form of the gap between two square-sum ranges of the same
/// width `n` starting at `s1` and at `s2`.
pub proof fn lemma_sq_range_diff(s1: int, s2: int, n: int)
    requires
        0 <= s1 <= s2,
        0 <= n,
    ensures
        sq_range(s2, n) - sq_range(s1, n) == (s2 - s1) * n * (s1 + s2 + n - 1),
    decreases s2 - s1,
{
    if s1 == s2 {
        assert((s2 - s1) * n * (s1 + s2 + n - 1) == 0) by (nonlinear_arith)
            requires
                s1 == s2,
        ;
    } else {
        lemma_sq_range_diff(s1, s2 - 1, n);
        lemma_sq_range_shift(s2 - 1, n);
        assert((s2 - 1 - s1) * n * (s1 + s2 + n - 2) + ((s2 - 1 + n) * (s2 - 1 + n) - (s2 - 1) * (s2
            - 1)) == (s2 - s1) * n * (s1 + s2 + n - 1)) by (nonlinear_arith);
    }
}

/// Monotonic pricing: for a fixed batch size, the batch price never
/// decreases as the starting supply grows.
pub proof fn lemma_batch_price_monotone(p: CurveParameters, s1: int, s2: int, n: int)
    requires
        p.wf(),
        0 <= s1 <= s2,
        0 <= n,
    ensures
        spec_batch_price(p, s1, n) <= spec_batch_price(p, s2, n),
{
    lemma_sq_range_diff(s1, s2, n);
    assert((s2 - s1) * n * (s1 + s2 + n - 1) >= 0) by (nonlinear_arith)
        requires
            0 <= s1 <= s2,
            0 <= n,
    ;
    vstd::arithmetic::mul::lemma_mul_inequality(
        sq_range(s1, n),
        sq_range(s2, n),
        p.slope as int,
    );
    vstd::arithmetic::div_mod::lemma_div_is_ordered(
        (p.slope as int) * sq_range(s1, n),
        (p.slope as int) * sq_range(s2, n),
        p.precision as int,
    );
}

/// Monotonic pricing, strictly: for a fixed batch size the price at the
/// larger supply is strictly greater. The one exclusion is the set of
/// inputs where truncation collapses both quadratic terms to the same
/// value — there the two batch prices tie, so the law cannot hold.
pub proof fn lemma_batch_price_strict_monotone(p: CurveParameters, s1: int, s2: int, n: int)
    requires
        p.wf(),
        0 <= s1 < s2,
        1 <= n,
        (p.slope * sq_range(s1, n)) / (p.precision as int) != (p.slope * sq_range(s2, n)) / (
        p.precision as int),
    ensures
        spec_batch_price(p, s1, n) < spec_batch_price(p, s2, n),
{
    lemma_batch_price_monotone(p, s1, s2, n);
    lemma_sq_range_diff(s1, s2, n);
    assert((s2 - s1) * n * (s1 + s2 + n - 1) >= 0) by (nonlinear_arith)
        requires
            0 <= s1 <= s2,
            0 <= n,
    ;
    vstd::arithmetic::mul::lemma_mul_inequality(sq_range(s1, n), sq_range(s2, n), p.slope as int);
    assert(sq_range(s1, n) * (p.slope as int) == (p.slope as int) * sq_range(s1, n))
        by (nonlinear_arith);
    assert(sq_range(s2, n) * (p.slope as int) == (p.slope as int) * sq_range(s2, n))
        by (nonlinear_arith);
    vstd::arithmetic::div_mod::lemma_div_is_ordered(
        (p.slope as int) * sq_range(s1, n),
        (p.slope as int) * sq_range(s2, n),
        p.precision as int,
    );
}

/// A checkable sufficient condition for strict monotonic pricing: the
/// quadratic term's growth between the two supplies clears one whole
/// precision denominator, so truncation cannot make the prices tie.
pub proof fn lemma_batch_price_strict_when_gap_clears_precision(
    p: CurveParameters,
    s1: int,
    s2: int,
    n: int,
)
    requires
        p.wf(),
        0 <= s1 < s2,
        1 <= n,
        p.slope * ((s2 - s1) * n * (s1 + s2 + n - 1)) >= p.precision,
    ensures
        spec_batch_price(p, s1, n) < spec_batch_price(p, s2, n),
{
    lemma_sq_range_diff(s1, s2, n);
    let r1 = sq_range(s1, n);
    let r2 = sq_range(s2, n);
    let sl = p.slope as int;
    let pr = p.precision as int;
    assert(sl * r2 == sl * r1 + sl * (r2 - r1)) by (nonlinear_arith);
    assert(sl * (r2 - r1) >= pr) by (nonlinear_arith)
        requires
            r2 - r1 == (s2 - s1) * n * (s1 + s2 + n - 1),
            sl * ((s2 - s1) * n * (s1 + s2 + n - 1)) >= pr,
    ;
    vstd::arithmetic::div_mod::lemma_div_is_ordered(sl * r1 + pr, sl * r2, pr);
    vstd::arithmetic::div_mod::lemma_div_plus_one(sl * r1, pr);
}

/// A square-sum range widens with its width.
pub proof fn lemma_sq_range_monotone_width(s: int, n1: int, n2: int)
    requires
        0 <= s,
        0 <= n1 <= n2,
    ensures
        0 <= sq_range(s, n1) <= sq_range(s, n2),
{
    lemma_sum_sq_monotone(s, s + n1);
    lemma_sum_sq_monotone(s + n1, s + n2);
}

/// The batch price is never negative.
pub proof fn lemma_batch_price_nonneg(p: CurveParameters, s: int, n: int)
    requires
        p.wf(),
        0 <= s,
        0 <= n,
    ensures
        spec_batch_price(p, s, n) >= 0,
{
    lemma_sq_range_monotone_width(s, 0, n);
    assert(p.base_price * n >= 0) by (nonlinear_arith)
        requires
            p.base_price >= 0,
            n >= 0,
    ;
    assert(p.slope * sq_range(s, n) >= 0) by (nonlinear_arith)
        requires
            p.slope >= 0,
            sq_range(s, n) >= 0,
    ;
    vstd::arithmetic::div_mod::lemma_div_pos_is_pos(p.slope * sq_range(s, n), p.precision as int);
}

/// For a fixed starting supply, a wider batch never costs less.
pub proof fn lemma_batch_price_monotone_in_amount(p: CurveParameters, s: int, n1: int, n2: int)
    requires
        p.wf(),
        0 <= s,
        0 <= n1 <= n2,
    ensures
        spec_batch_price(p, s, n1) <= spec_batch_price(p, s, n2),
{
    lemma_sq_range_monotone_width(s, n1, n2);
    vstd::arithmetic::mul::lemma_mul_inequality(sq_range(s, n1), sq_range(s, n2), p.slope as int);
    assert(sq_range(s, n1) * (p.slope as int) == (p.slope as int) * sq_range(s, n1))
        by (nonlinear_arith);
    assert(sq_range(s, n2) * (p.slope as int) == (p.slope as int) * sq_range(s, n2))
        by (nonlinear_arith);
    vstd::arithmetic::div_mod::lemma_div_is_ordered(
        (p.slope as int) * sq_range(s, n1),
        (p.slope as int) * sq_range(s, n2),
        p.precision as int,
    );
    vstd::arithmetic::mul::lemma_mul_inequality(n1, n2, p.base_price as int);
    assert(n1 * (p.base_price as int) == (p.base_price as int) * n1) by (nonlinear_arith);
    assert(n2 * (p.base_price as int) == (p.base_price as int) * n2) by (nonlinear_arith);
}

/// Affordability is downward closed in the batch size: where a wider
/// batch prices successfully, every narrower one at the same supply does
/// too, and for no more.
pub proof fn lemma_batch_result_downward(p: CurveParameters, s: int, n1: int, n2: int)
    requires
        p.wf(),
        0 <= s,
        0 <= n1 <= n2,
        spec_batch_result(p, s, n2) is Ok,
    ensures
        spec_batch_result(p, s, n1) is Ok,
        spec_batch_result(p, s, n1)->Ok_0 <= spec_batch_result(p, s, n2)->Ok_0,
{
    lemma_batch_price_nonneg(p, s, n2);
    if n1 == 0 {
    } else {
        lemma_sum_sq_monotone(s + n1, s + n2);
        lemma_sum_sq_nonneg(s + n1);
        lemma_sq_range_monotone_width(s, n1, n2);
        vstd::arithmetic::mul::lemma_mul_inequality(
            sq_range(s, n1),
            sq_range(s, n2),
            p.slope as int,
        );
        assert(sq_range(s, n1) * (p.slope as int) == (p.slope as int) * sq_range(s, n1))
            by (nonlinear_arith);
        assert(sq_range(s, n2) * (p.slope as int) == (p.slope as int) * sq_range(s, n2))
            by (nonlinear_arith);
        lemma_batch_price_monotone_in_amount(p, s, n1, n2);
        lemma_batch_price_nonneg(p, s, n1);
    }
}

/// Buy/sell symmetry: selling a batch returns exactly what buying the
/// same batch at the post-sale supply would have cost, including the
/// error taxonomy of both paths.
pub proof fn lemma_buy_sell_symmetry(p: CurveParameters, supply: int, amount: int)
    requires
        0 <= amount <= supply,
    ensures
        spec_sell_result(p, supply, amount) == spec_batch_result(p, supply - amount, amount),
{
}

/// The sum of the marginal unit prices of the `n` units from `s` up to
/// `s + n - 1`, priced one by one.
pub open spec fn unit_price_sum(p: CurveParameters, s: int, n: nat) -> int
    decreases n,
{
    if n == 0 {
        0
    } else {
        unit_price_sum(p, s, (n - 1) as nat) + spec_unit_price(p, s + n - 1)
    }
}

/// Where nothing truncates, the closed-form batch price reproduces the
/// unit-by-unit sum exactly: with a precision of one, pricing a batch in
/// constant time equals pricing each unit in turn.
pub proof fn lemma_batch_price_matches_unit_sum(p: CurveParameters, s: int, n: nat)
    requires
        p.wf(),
        p.precision == 1,
        0 <= s,
    ensures
        spec_batch_price(p, s, n as int) == unit_price_sum(p, s, n),
    decreases n,
{
    let sl = p.slope as int;
    if n == 0 {
        assert(sq_range(s, 0) == 0);
        assert(sl * sq_range(s, 0) == 0) by (nonlinear_arith)
            requires
                sq_range(s, 0) == 0,
        ;
        assert(p.base_price * 0 == 0) by (nonlinear_arith);
        vstd::arithmetic::div_mod::lemma_div_multiples_vanish(0, 1);
        assert(1 * 0 == 0);
        assert((0int) / 1 == 0);
    } else {
        lemma_batch_price_matches_unit_sum(p, s, (n - 1) as nat);
        let k = s + n - 1;
        assert(sum_sq(s + n) == sum_sq(s + n - 1) + k * k);
        assert(sl * (sq_range(s, n - 1) + k * k) == sl * sq_range(s, n - 1) + sl * (k * k))
            by (nonlinear_arith);
        assert(k * k * sl == sl * (k * k)) by (nonlinear_arith);
        assert(p.base_price * (n as int) == p.base_price * (n - 1) + p.base_price)
            by (nonlinear_arith);
        vstd::arithmetic::div_mod::lemma_div_multiples_vanish(sl * sq_range(s, n as int), 1);
        vstd::arithmetic::div_mod::lemma_div_multiples_vanish(sl * sq_range(s, n - 1), 1);
        vstd::arithmetic::div_mod::lemma_div_multiples_vanish(sl * (k * k), 1);
        assert(1 * (sl * sq_range(s, n as int)) == sl * sq_range(s, n as int));
        assert(1 * (sl * sq_range(s, n - 1)) == sl * sq_range(s, n - 1));
        assert(1 * (sl * (k * k)) == sl * (k * k));
    }
}

/// A zero amount prices at zero on both the exact and the trapezoidal
/// path, and is never an error.
pub proof fn lemma_zero_amount_prices_at_zero(p: CurveParameters, supply: int)
    ensures
        spec_batch_result(p, supply, 0) == Ok::<u64, TradeError>(0u64),
        spec_trapezoid_result(p, supply, 0) == Ok::<u64, TradeError>(0u64),
{
}

} // verus!
