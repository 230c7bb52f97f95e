use vstd::prelude::*;

use crate::address::Address;
use crate::constants::{INITIAL_SUPPLY_TOKENS, MAX_DECIMALS};
use crate::errors::LaunchError;
use crate::math::{lemma_pow10_monotone, lemma_pow10_18, lemma_wide_products, pow10, pow10_u128};
use vstd::arithmetic::div_mod::lemma_div_is_ordered;

verus! {

/// The linear price curve of one launch: `price(s) = base_price + slope * s`,
/// in reserve units per `10^decimals` base units of the asset.
#[derive(Debug, Clone, Copy)]
pub struct BondingCurveState {
    pub launch_metadata: Address,
    pub base_price: u64,
    pub slope: u64,
    pub current_supply: u64,
    pub decimals: u8,
}

/// Most base units a curve with `decimals` decimals may have sold:
/// `INITIAL_SUPPLY_TOKENS` whole tokens, scaled by `10^decimals`.
pub open spec fn supply_cap(decimals: u8) -> int {
    INITIAL_SUPPLY_TOKENS * pow10(decimals as nat)
}

/// The supply cap of a curve with `decimals` decimals, in 128 bits.
pub fn supply_cap_u128(decimals: u8) -> (r: u128)
    requires
        decimals <= 18,
    ensures
        r == supply_cap(decimals),
{
    let m = pow10_u128(decimals);
    proof {
        assert(INITIAL_SUPPLY_TOKENS * m <= 1_000_000_000_000_000_000_000_000_000) by (
        nonlinear_arith)
            requires
                m <= 1_000_000_000_000_000_000,
                INITIAL_SUPPLY_TOKENS == 1_000_000_000,
        ;
    }
    INITIAL_SUPPLY_TOKENS as u128 * m
}

/// `10^decimals` of the curve.
pub open spec fn scale_of(c: BondingCurveState) -> int {
    pow10(c.decimals as nat) as int
}

/// Price steps paid for `qty` units bought on top of `supply`.
pub open spec fn buy_steps(supply: int, qty: int) -> int {
    supply * qty + qty * (qty + 1) / 2
}

/// Price steps returned for `qty` units sold back from `supply`.
pub open spec fn sell_steps(supply: int, qty: int) -> int {
    supply * qty - qty * (qty - 1) / 2
}

/// The base-price part of an amount: `base_price * qty * 10^decimals`.
pub open spec fn base_part(c: BondingCurveState, qty: u64) -> int {
    c.base_price * qty * scale_of(c)
}

/// Exact purchase cost before the division by `10^(2 * decimals)`.
pub open spec fn cost_numerator(c: BondingCurveState, qty: u64) -> int {
    base_part(c, qty) + c.slope * buy_steps(c.current_supply as int, qty as int)
}

/// Exact sale payout before the division by `10^(2 * decimals)`.
pub open spec fn payout_numerator(c: BondingCurveState, qty: u64) -> int {
    base_part(c, qty) + c.slope * sell_steps(c.current_supply as int, qty as int)
}

/// Every intermediate of the purchase cost fits in 128 bits and the
/// result fits in 64 bits.
pub open spec fn cost_in_range(c: BondingCurveState, qty: u64) -> bool {
    &&& base_part(c, qty) <= u128::MAX
    &&& buy_steps(c.current_supply as int, qty as int) <= u128::MAX
    &&& cost_numerator(c, qty) <= u128::MAX
    &&& cost_numerator(c, qty) / (scale_of(c) * scale_of(c)) <= u64::MAX
}

/// Every intermediate of the sale payout fits in 128 bits and the result
/// fits in 64 bits.
pub open spec fn payout_in_range(c: BondingCurveState, qty: u64) -> bool {
    &&& base_part(c, qty) <= u128::MAX
    &&& payout_numerator(c, qty) <= u128::MAX
    &&& payout_numerator(c, qty) / (scale_of(c) * scale_of(c)) <= u64::MAX
}

/// What buying `qty` units at the curve's current supply costs.
pub open spec fn cost_result(c: BondingCurveState, qty: u64) -> Result<u64, LaunchError> {
    if c.decimals > MAX_DECIMALS {
        Err(LaunchError::InvalidDecimals)
    } else if !cost_in_range(c, qty) {
        Err(LaunchError::MathOverflow)
    } else {
        Ok((cost_numerator(c, qty) / (scale_of(c) * scale_of(c))) as u64)
    }
}

/// What selling `qty` units back at the curve's current supply pays.
pub open spec fn payout_result(c: BondingCurveState, qty: u64) -> Result<u64, LaunchError> {
    if c.decimals > MAX_DECIMALS {
        Err(LaunchError::InvalidDecimals)
    } else if qty > c.current_supply {
        Err(LaunchError::MathOverflow)
    } else if !payout_in_range(c, qty) {
        Err(LaunchError::MathOverflow)
    } else {
        Ok((payout_numerator(c, qty) / (scale_of(c) * scale_of(c))) as u64)
    }
}

/// Cost of buying `qty` units: the integral of the price from the current
/// supply to `current_supply + qty`, truncated to whole reserve units.
pub fn compute_cost(curve: &BondingCurveState, qty: u64) -> (r: Result<u64, LaunchError>)
    ensures
        r == cost_result(*curve, qty),
{
    if curve.decimals > MAX_DECIMALS {
        return Err(LaunchError::InvalidDecimals);
    }
    let m = pow10_u128(curve.decimals);
    let base = curve.base_price as u128;
    let slope = curve.slope as u128;
    let supply = curve.current_supply as u128;
    let q = qty as u128;
    proof {
        lemma_wide_products(curve.base_price, qty);
        lemma_wide_products(curve.current_supply, qty);
        assert(1 <= m * m <= 1_000_000_000_000_000_000_000_000_000_000_000_000) by (nonlinear_arith)
            requires
                1 <= m <= 1_000_000_000_000_000_000,
        ;
        assert(0 <= base * q * m) by (nonlinear_arith)
            requires
                0 <= base * q,
                1 <= m,
        ;
    }
    let part1 = match (base * q).checked_mul(m) {
        Some(v) => v,
        None => return Err(LaunchError::MathOverflow),
    };
    let triangle = q * (q + 1) / 2;
    let steps = match (supply * q).checked_add(triangle) {
        Some(v) => v,
        None => return Err(LaunchError::MathOverflow),
    };
    proof {
        assert(0 <= slope * steps) by (nonlinear_arith)
            requires
                0 <= slope,
                0 <= steps,
        ;
    }
    let part2 = match slope.checked_mul(steps) {
        Some(v) => v,
        None => return Err(LaunchError::MathOverflow),
    };
    let numerator = match part1.checked_add(part2) {
        Some(v) => v,
        None => return Err(LaunchError::MathOverflow),
    };
    let denom = m * m;
    let value = numerator / denom;
    if value > u64::MAX as u128 {
        return Err(LaunchError::MathOverflow);
    }
    Ok(value as u64)
}

impl BondingCurveState {
    /// Payout for selling `amount` units back: the integral of the price from
    /// `current_supply - amount` to the current supply, truncated to whole
    /// reserve units.
    pub fn compute_payout(&self, amount: u64) -> (r: Result<u64, LaunchError>)
        ensures
            r == payout_result(*self, amount),
    {
        if self.decimals > MAX_DECIMALS {
            return Err(LaunchError::InvalidDecimals);
        }
        if amount > self.current_supply {
            return Err(LaunchError::MathOverflow);
        }
        let m = pow10_u128(self.decimals);
        let base = self.base_price as u128;
        let slope = self.slope as u128;
        let supply = self.current_supply as u128;
        let q = amount as u128;
        proof {
            lemma_wide_products(self.base_price, amount);
            lemma_wide_products(self.current_supply, amount);
            assert(1 <= m * m <= 1_000_000_000_000_000_000_000_000_000_000_000_000)
                by (nonlinear_arith)
                requires
                    1 <= m <= 1_000_000_000_000_000_000,
            ;
            assert(0 <= base * q * m) by (nonlinear_arith)
                requires
                    0 <= base * q,
                    1 <= m,
            ;
            assert(q * (q - 1) / 2 <= supply * q) by (nonlinear_arith)
                requires
                    0 <= q <= supply,
            ;
            assert(q * (q - 1) <= q * (q + 1)) by (nonlinear_arith)
                requires
                    0 <= q,
            ;
            assert(sell_steps(supply as int, 0) == 0) by (nonlinear_arith);
        }
        let part1 = match (base * q).checked_mul(m) {
            Some(v) => v,
            None => return Err(LaunchError::MathOverflow),
        };
        let triangle = if q == 0 {
            0
        } else {
            q * (q - 1) / 2
        };
        let steps = supply * q - triangle;
        proof {
            assert(steps == sell_steps(self.current_supply as int, amount as int));
            assert(0 <= slope * steps) by (nonlinear_arith)
                requires
                    0 <= slope,
                    0 <= steps,
            ;
        }
        let part2 = match slope.checked_mul(steps) {
            Some(v) => v,
            None => return Err(LaunchError::MathOverflow),
        };
        let numerator = match part1.checked_add(part2) {
            Some(v) => v,
            None => return Err(LaunchError::MathOverflow),
        };
        let denom = m * m;
        let value = numerator / denom;
        if value > u64::MAX as u128 {
            return Err(LaunchError::MathOverflow);
        }
        Ok(value as u64)
    }
}

/// One of two consecutive integers is even.
proof fn lemma_consecutive_product_even(q: int)
    ensures
        (q * (q - 1)) % 2 == 0,
{
    let k = q / 2;
    if q % 2 == 0 {
        assert(q * (q - 1) == 2 * (k * (q - 1))) by (nonlinear_arith)
            requires
                q == 2 * k,
        ;
    } else {
        assert(q * (q - 1) == 2 * (k * q)) by (nonlinear_arith)
            requires
                q == 2 * k + 1,
        ;
    }
}

/// Buying `qty` units from `supply` walks the same price steps as selling
/// them back from `supply + qty`.
proof fn lemma_steps_symmetric(supply: int, qty: int)
    ensures
        sell_steps(supply + qty, qty) == buy_steps(supply, qty),
{
    let x = qty * (qty - 1);
    lemma_consecutive_product_even(qty);
    assert(qty * (qty + 1) == x + 2 * qty) by (nonlinear_arith)
        requires
            x == qty * (qty - 1),
    ;
    assert((supply + qty) * qty == supply * qty + x + qty) by (nonlinear_arith)
        requires
            x == qty * (qty - 1),
    ;
}

/// Price steps never decrease when the supply or the quantity grows, and
/// grow strictly with the quantity.
proof fn lemma_buy_steps_monotone(s1: int, s2: int, q1: int, q2: int)
    requires
        0 <= s1 <= s2,
        0 <= q1 <= q2,
    ensures
        0 <= buy_steps(s1, q1) <= buy_steps(s2, q2),
        q1 < q2 ==> buy_steps(s1, q1) < buy_steps(s2, q2),
        s1 < s2 && 0 < q1 ==> buy_steps(s1, q1) < buy_steps(s2, q1),
{
    assert(s1 * q1 <= s2 * q2) by (nonlinear_arith)
        requires
            0 <= s1 <= s2,
            0 <= q1 <= q2,
    ;
    assert(0 <= s1 * q1) by (nonlinear_arith)
        requires
            0 <= s1,
            0 <= q1,
    ;
    assert(0 <= q1 * (q1 + 1) <= q2 * (q2 + 1)) by (nonlinear_arith)
        requires
            0 <= q1 <= q2,
    ;
    if q1 < q2 {
        assert(q1 * (q1 + 1) + 2 * (q1 + 1) <= q2 * (q2 + 1)) by (nonlinear_arith)
            requires
                0 <= q1 < q2,
        ;
    }
    if s1 < s2 && 0 < q1 {
        assert(s1 * q1 < s2 * q1) by (nonlinear_arith)
            requires
                s1 < s2,
                0 < q1,
        ;
    }
}

/// `a * b` never decreases when its non-negative factors grow, and grows
/// strictly with `b` when `a` is positive.
proof fn lemma_mul_monotone(a1: int, a2: int, b1: int, b2: int)
    requires
        0 <= a1 <= a2,
        0 <= b1 <= b2,
    ensures
        0 <= a1 * b1 <= a2 * b2,
        0 < a1 && b1 < b2 ==> a1 * b1 < a1 * b2,
{
    assert(0 <= a1 * b1 <= a2 * b2) by (nonlinear_arith)
        requires
            0 <= a1 <= a2,
            0 <= b1 <= b2,
    ;
    if 0 < a1 && b1 < b2 {
        assert(a1 * b1 < a1 * b2) by (nonlinear_arith)
            requires
                0 < a1,
                b1 < b2,
        ;
    }
}

/// The curve with its supply replaced.
pub open spec fn with_supply(c: BondingCurveState, supply: u64) -> BondingCurveState {
    BondingCurveState { current_supply: supply, ..c }
}

/// Buying nothing costs nothing.
pub proof fn lemma_cost_of_nothing(c: BondingCurveState)
    requires
        c.decimals <= 18,
    ensures
        cost_result(c, 0) == Ok::<u64, LaunchError>(0),
{
    let m = scale_of(c);
    lemma_pow10_monotone(0, c.decimals as nat);
    assert(base_part(c, 0) == 0) by (nonlinear_arith);
    assert(buy_steps(c.current_supply as int, 0) == 0) by (nonlinear_arith);
    assert(c.slope * 0 == 0);
    assert(1 <= m * m) by (nonlinear_arith)
        requires
            1 <= m,
    ;
}

/// Cost never decreases as the quantity grows; where the curve is not flat
/// and works in whole units (`decimals == 0`), every further unit costs
/// strictly more. (At a finer scale the truncation can absorb a step: with
/// `decimals == 9`, one or two units both cost nothing.)
pub proof fn lemma_cost_monotone_in_qty(c: BondingCurveState, q1: u64, q2: u64)
    requires
        q1 <= q2,
        cost_result(c, q2) is Ok,
    ensures
        cost_result(c, q1) is Ok,
        cost_result(c, q1)->Ok_0 <= cost_result(c, q2)->Ok_0,
        q1 < q2 && c.decimals == 0 && (c.base_price > 0 || c.slope > 0) ==> cost_result(
            c,
            q1,
        )->Ok_0 < cost_result(c, q2)->Ok_0,
{
    let m = scale_of(c);
    let s = c.current_supply as int;
    lemma_pow10_monotone(0, c.decimals as nat);
    lemma_mul_monotone(c.base_price as int, c.base_price as int, q1 as int, q2 as int);
    lemma_mul_monotone(c.base_price * q1, c.base_price * q2, m, m);
    lemma_buy_steps_monotone(s, s, q1 as int, q2 as int);
    lemma_mul_monotone(c.slope as int, c.slope as int, buy_steps(s, q1 as int), buy_steps(s, q2 as int));
    assert(1 <= m * m) by (nonlinear_arith)
        requires
            1 <= m,
    ;
    lemma_div_is_ordered(cost_numerator(c, q1), cost_numerator(c, q2), m * m);
    if c.decimals == 0 {
        assert(pow10(0) == 1);
        assert(m == 1);
        assert(m * m == 1) by (nonlinear_arith)
            requires
                m == 1,
        ;
        assert(base_part(c, q1) == c.base_price * q1) by (nonlinear_arith)
            requires
                m == 1,
                base_part(c, q1) == c.base_price * q1 * m,
        ;
        assert(base_part(c, q2) == c.base_price * q2) by (nonlinear_arith)
            requires
                m == 1,
                base_part(c, q2) == c.base_price * q2 * m,
        ;
        assert(cost_numerator(c, q1) / 1 == cost_numerator(c, q1));
        assert(cost_numerator(c, q2) / 1 == cost_numerator(c, q2));
    }
}

/// Cost never decreases as the supply already sold grows; where the slope is
/// positive and the curve works in whole units (`decimals == 0`), a
/// non-empty purchase at a higher supply costs strictly more.
pub proof fn lemma_cost_monotone_in_supply(c: BondingCurveState, supply: u64, qty: u64)
    requires
        c.current_supply <= supply,
        cost_result(with_supply(c, supply), qty) is Ok,
    ensures
        cost_result(c, qty) is Ok,
        cost_result(c, qty)->Ok_0 <= cost_result(with_supply(c, supply), qty)->Ok_0,
        c.current_supply < supply && qty > 0 && c.decimals == 0 && c.slope > 0 ==> cost_result(
            c,
            qty,
        )->Ok_0 < cost_result(with_supply(c, supply), qty)->Ok_0,
{
    let c2 = with_supply(c, supply);
    let m = scale_of(c);
    let s1 = c.current_supply as int;
    let s2 = supply as int;
    lemma_pow10_monotone(0, c.decimals as nat);
    lemma_buy_steps_monotone(s1, s2, qty as int, qty as int);
    lemma_mul_monotone(c.slope as int, c.slope as int, buy_steps(s1, qty as int), buy_steps(s2, qty as int));
    assert(1 <= m * m) by (nonlinear_arith)
        requires
            1 <= m,
    ;
    assert(base_part(c, qty) == base_part(c2, qty));
    lemma_div_is_ordered(cost_numerator(c, qty), cost_numerator(c2, qty), m * m);
    if c.decimals == 0 {
        assert(pow10(0) == 1);
        assert(m == 1);
        assert(m * m == 1) by (nonlinear_arith)
            requires
                m == 1,
        ;
        assert(cost_numerator(c, qty) / 1 == cost_numerator(c, qty));
        assert(cost_numerator(c2, qty) / 1 == cost_numerator(c2, qty));
    }
}

/// Selling units straight back returns exactly what buying them cost, so a
/// round trip never yields more than was paid: the payout for `qty` units
/// from `supply + qty` equals the cost of `qty` units from `supply`.
pub proof fn lemma_sell_back_never_exceeds_cost(c: BondingCurveState, qty: u64)
    requires
        c.current_supply + qty <= u64::MAX,
    ensures
        payout_result(with_supply(c, (c.current_supply + qty) as u64), qty) == cost_result(c, qty),
        cost_result(c, qty) is Ok ==> payout_result(
            with_supply(c, (c.current_supply + qty) as u64),
            qty,
        )->Ok_0 <= cost_result(c, qty)->Ok_0,
{
    let s = c.current_supply as int;
    let after = with_supply(c, (c.current_supply + qty) as u64);
    lemma_steps_symmetric(s, qty as int);
    lemma_wide_products(after.current_supply, qty);
    assert(0 <= qty * (qty - 1) / 2) by (nonlinear_arith)
        requires
            0 <= qty,
    ;
    assert(base_part(c, qty) == base_part(after, qty));
    assert(payout_numerator(after, qty) == cost_numerator(c, qty));
}

} // verus!
