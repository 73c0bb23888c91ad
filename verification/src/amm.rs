use vstd::prelude::*;
use crate::errors::TradingEndpointError;

verus! {

/// Output of a constant-product swap: `amount_in * reserve_out`
/// divided by `reserve_in + amount_in`, rounded down.
pub open spec fn spec_swap_out(reserve_in: nat, reserve_out: nat, amount_in: nat) -> nat
    recommends
        reserve_in > 0,
{
    (amount_in * reserve_out) / (reserve_in + amount_in)
}

/// The quotient `a / b` rounded up.
pub open spec fn ceil_div(a: nat, b: nat) -> nat
    recommends
        b > 0,
{
    (a + b - 1) as nat / b
}

/// The most a buyer pays: `amount` and the part that the slippage adds.
/// The part added is `amount * bps / 10000` rounded up to whole units.
pub open spec fn spec_with_slippage_buy(amount: nat, slippage_bps: nat) -> nat {
    amount + ceil_div(amount * slippage_bps, 10_000)
}

/// The least a seller accepts: `amount` less the part that the slippage
/// gives up. The part given up is `amount * bps / 10000` in integer
/// division: it is the division that rounds down, so the seller's floor is
/// the amount less a whole number of units. A slippage of 100% or more
/// leaves a floor of zero.
pub open spec fn spec_with_slippage_sell(amount: nat, slippage_bps: nat) -> nat {
    if amount * slippage_bps / 10_000 >= amount {
        0
    } else {
        (amount - amount * slippage_bps / 10_000) as nat
    }
}

/// A swap against reserves with `reserve_in > 0` takes less than the whole
/// of `reserve_out` when that reserve is not empty, and never more than it.
pub proof fn lemma_swap_out_below_reserve(reserve_in: nat, reserve_out: nat, amount_in: nat)
    requires
        reserve_in > 0,
    ensures
        spec_swap_out(reserve_in, reserve_out, amount_in) <= reserve_out,
        reserve_out > 0 ==> spec_swap_out(reserve_in, reserve_out, amount_in) < reserve_out,
{
    let num = (amount_in * reserve_out) as int;
    let den = (reserve_in + amount_in) as int;
    let q = num / den;
    vstd::arithmetic::div_mod::lemma_fundamental_div_mod(num, den);
    vstd::arithmetic::div_mod::lemma_mod_bound(num, den);
    assert(den * q <= num);
    if reserve_out > 0 {
        assert(num < den * reserve_out) by (nonlinear_arith)
            requires
                num == amount_in * reserve_out,
                den == reserve_in + amount_in,
                reserve_in > 0,
                reserve_out > 0,
        ;
        assert(q < reserve_out) by (nonlinear_arith)
            requires
                den * q <= num,
                num < den * reserve_out,
                den > 0,
        ;
    } else {
        assert(num == 0) by (nonlinear_arith)
            requires
                num == amount_in * reserve_out,
                reserve_out == 0,
        ;
    }
}

/// A larger input never buys less: the output of a swap does not fall
/// when `amount_in` grows.
pub proof fn lemma_swap_out_monotonic(reserve_in: nat, reserve_out: nat, smaller: nat, larger: nat)
    requires
        reserve_in > 0,
        smaller <= larger,
    ensures
        spec_swap_out(reserve_in, reserve_out, smaller) <= spec_swap_out(
            reserve_in,
            reserve_out,
            larger,
        ),
{
    let n1 = (smaller * reserve_out) as int;
    let d1 = (reserve_in + smaller) as int;
    let n2 = (larger * reserve_out) as int;
    let d2 = (reserve_in + larger) as int;
    let q1 = n1 / d1;
    let q2 = n2 / d2;
    vstd::arithmetic::div_mod::lemma_fundamental_div_mod(n1, d1);
    vstd::arithmetic::div_mod::lemma_mod_bound(n1, d1);
    vstd::arithmetic::div_mod::lemma_fundamental_div_mod(n2, d2);
    vstd::arithmetic::div_mod::lemma_mod_bound(n2, d2);
    assert(q1 >= 0) by (nonlinear_arith)
        requires
            n1 >= 0,
            d1 > 0,
            q1 == n1 / d1,
    ;
    // q1 * d1 <= n1 and n1 * d2 <= n2 * d1 give q1 * d2 <= n2.
    assert(n1 * d2 <= n2 * d1) by (nonlinear_arith)
        requires
            n1 == smaller * reserve_out,
            n2 == larger * reserve_out,
            d1 == reserve_in + smaller,
            d2 == reserve_in + larger,
            smaller <= larger,
    ;
    assert(q1 * d1 * d2 <= n1 * d2) by (nonlinear_arith)
        requires
            d1 * q1 <= n1,
            d2 > 0,
    ;
    assert(q1 * d2 <= n2) by (nonlinear_arith)
        requires
            q1 * d1 * d2 <= n2 * d1,
            d1 > 0,
    ;
    assert(q1 <= q2) by (nonlinear_arith)
        requires
            q1 * d2 <= n2,
            n2 == d2 * q2 + n2 % d2,
            0 <= n2 % d2 < d2,
            d2 > 0,
    ;
}

/// A larger input never gets a better price: up to the rounding of one
/// unit of output, the output for each unit of input does not rise when
/// `amount_in` grows.
pub proof fn lemma_swap_out_price_never_improves(
    reserve_in: nat,
    reserve_out: nat,
    smaller: nat,
    larger: nat,
)
    requires
        reserve_in > 0,
        0 < smaller <= larger,
    ensures
        spec_swap_out(reserve_in, reserve_out, larger) * smaller < (spec_swap_out(
            reserve_in,
            reserve_out,
            smaller,
        ) + 1) * larger,
{
    let n1 = (smaller * reserve_out) as int;
    let d1 = (reserve_in + smaller) as int;
    let n2 = (larger * reserve_out) as int;
    let d2 = (reserve_in + larger) as int;
    let q1 = n1 / d1;
    let q2 = n2 / d2;
    let a1 = smaller as int;
    let a2 = larger as int;
    vstd::arithmetic::div_mod::lemma_fundamental_div_mod(n1, d1);
    vstd::arithmetic::div_mod::lemma_mod_bound(n1, d1);
    vstd::arithmetic::div_mod::lemma_fundamental_div_mod(n2, d2);
    vstd::arithmetic::div_mod::lemma_mod_bound(n2, d2);
    // q2 * d2 <= n2 and n1 < (q1 + 1) * d1.
    assert(q2 * d2 <= n2) by (nonlinear_arith)
        requires
            n2 == d2 * q2 + n2 % d2,
            0 <= n2 % d2,
    ;
    assert(n1 < (q1 + 1) * d1) by (nonlinear_arith)
        requires
            n1 == d1 * q1 + n1 % d1,
            n1 % d1 < d1,
    ;
    assert(q2 >= 0) by (nonlinear_arith)
        requires
            n2 >= 0,
            d2 > 0,
            q2 == n2 / d2,
    ;
    // n2 * a1 == n1 * a2, so q2 * d2 * a1 <= n1 * a2 < (q1 + 1) * d1 * a2.
    assert(n2 * a1 == n1 * a2) by (nonlinear_arith)
        requires
            n1 == a1 * reserve_out,
            n2 == a2 * reserve_out,
    ;
    assert(q2 * d2 * a1 <= n2 * a1) by (nonlinear_arith)
        requires
            q2 * d2 <= n2,
            a1 > 0,
    ;
    assert(n1 * a2 < (q1 + 1) * d1 * a2) by (nonlinear_arith)
        requires
            n1 < (q1 + 1) * d1,
            a2 > 0,
    ;
    let x = q2 * a1;
    let y = (q1 + 1) * a2;
    assert(x * d2 < y * d1) by (nonlinear_arith)
        requires
            q2 * d2 * a1 < (q1 + 1) * d1 * a2,
            x == q2 * a1,
            y == (q1 + 1) * a2,
    ;
    // d1 <= d2 turns x * d2 < y * d1 into x < y.
    assert(x < y) by (nonlinear_arith)
        requires
            x * d2 < y * d1,
            0 < d1 <= d2,
            x >= 0,
    ;
}

/// With no slippage both limits are the amount itself; with any slippage
/// the buy ceiling is at or above the amount and the sell floor at or
/// below it.
pub proof fn lemma_slippage_bounds(amount: nat, slippage_bps: nat)
    ensures
        spec_with_slippage_buy(amount, 0) == amount,
        spec_with_slippage_sell(amount, 0) == amount,
        spec_with_slippage_buy(amount, slippage_bps) >= amount,
        spec_with_slippage_sell(amount, slippage_bps) <= amount,
{
    assert(amount * 0 == 0) by (nonlinear_arith);
    assert(ceil_div(0, 10_000) == 0);
    assert(0nat / 10_000 == 0);
}

/// A slippage of 100% or more leaves a sell floor of zero.
pub proof fn lemma_full_slippage_sell_is_zero(amount: nat, slippage_bps: nat)
    requires
        slippage_bps >= 10_000,
    ensures
        spec_with_slippage_sell(amount, slippage_bps) == 0,
{
    let p = amount * slippage_bps;
    assert(p >= amount * 10_000) by (nonlinear_arith)
        requires
            p == amount * slippage_bps,
            slippage_bps >= 10_000,
    ;
    assert(p / 10_000 >= amount) by (nonlinear_arith)
        requires
            p >= amount * 10_000,
    ;
}

/// Below a slippage of 100% the seller's floor is the amount less the part
/// given up, and that part is never more than the amount.
pub proof fn lemma_partial_slippage_sell(amount: nat, slippage_bps: nat)
    requires
        slippage_bps <= 10_000,
    ensures
        amount * slippage_bps / 10_000 <= amount,
        spec_with_slippage_sell(amount, slippage_bps) == amount - amount * slippage_bps / 10_000,
{
    let p = amount * slippage_bps;
    assert(p <= amount * 10_000) by (nonlinear_arith)
        requires
            p == amount * slippage_bps,
            slippage_bps <= 10_000,
    ;
    assert(p / 10_000 <= amount) by (nonlinear_arith)
        requires
            p <= amount * 10_000,
            p >= 0,
    ;
}

/// Prices a swap of `amount_in` against the reserves of a constant-product
/// pool. A pool with an empty reserve has no price.
pub fn swap_out(reserve_in: u64, reserve_out: u64, amount_in: u64) -> (r: Result<
    u64,
    TradingEndpointError,
>)
    ensures
        (reserve_in == 0 || reserve_out == 0) ==> r == Err::<u64, TradingEndpointError>(
            TradingEndpointError::PoolUninitialized,
        ),
        (reserve_in > 0 && reserve_out > 0) ==> r == Ok::<u64, TradingEndpointError>(
            spec_swap_out(reserve_in as nat, reserve_out as nat, amount_in as nat) as u64,
        ),
        (reserve_in > 0 && reserve_out > 0) ==> spec_swap_out(
            reserve_in as nat,
            reserve_out as nat,
            amount_in as nat,
        ) < reserve_out,
{
    if reserve_in == 0 || reserve_out == 0 {
        return Err(TradingEndpointError::PoolUninitialized);
    }
    proof {
        lemma_swap_out_below_reserve(reserve_in as nat, reserve_out as nat, amount_in as nat);
        assert(amount_in * reserve_out <= 0xffff_ffff_ffff_ffff * 0xffff_ffff_ffff_ffff)
            by (nonlinear_arith)
            requires
                amount_in <= 0xffff_ffff_ffff_ffff,
                reserve_out <= 0xffff_ffff_ffff_ffff,
        ;
    }
    let product: u128 = (amount_in as u128) * (reserve_out as u128);
    let total: u128 = (reserve_in as u128) + (amount_in as u128);
    let out: u128 = product / total;
    Ok(out as u64)
}

/// Tokens received for paying `sol_amount` into a pool.
pub fn amm_buy_get_token_out(sol_reserves: u64, token_reserves: u64, sol_amount: u64) -> (r:
    Result<u64, TradingEndpointError>)
    ensures
        (sol_reserves == 0 || token_reserves == 0) ==> r == Err::<u64, TradingEndpointError>(
            TradingEndpointError::PoolUninitialized,
        ),
        (sol_reserves > 0 && token_reserves > 0) ==> r == Ok::<u64, TradingEndpointError>(
            spec_swap_out(sol_reserves as nat, token_reserves as nat, sol_amount as nat) as u64,
        ),
        (sol_reserves > 0 && token_reserves > 0) ==> spec_swap_out(
            sol_reserves as nat,
            token_reserves as nat,
            sol_amount as nat,
        ) < token_reserves,
{
    swap_out(sol_reserves, token_reserves, sol_amount)
}

/// Lamports received for selling `token_amount` into a pool.
pub fn amm_sell_get_sol_out(sol_reserves: u64, token_reserves: u64, token_amount: u64) -> (r:
    Result<u64, TradingEndpointError>)
    ensures
        (sol_reserves == 0 || token_reserves == 0) ==> r == Err::<u64, TradingEndpointError>(
            TradingEndpointError::PoolUninitialized,
        ),
        (sol_reserves > 0 && token_reserves > 0) ==> r == Ok::<u64, TradingEndpointError>(
            spec_swap_out(token_reserves as nat, sol_reserves as nat, token_amount as nat) as u64,
        ),
        (sol_reserves > 0 && token_reserves > 0) ==> spec_swap_out(
            token_reserves as nat,
            sol_reserves as nat,
            token_amount as nat,
        ) < sol_reserves,
{
    swap_out(token_reserves, sol_reserves, token_amount)
}

/// The buyer's input ceiling for `amount` under `slippage_bps`, capped at
/// the largest 64-bit count.
pub fn calculate_with_slippage_buy(amount: u64, slippage_bps: u64) -> (r: u64)
    ensures
        spec_with_slippage_buy(amount as nat, slippage_bps as nat) <= u64::MAX ==> r
            == spec_with_slippage_buy(amount as nat, slippage_bps as nat),
        spec_with_slippage_buy(amount as nat, slippage_bps as nat) > u64::MAX ==> r == u64::MAX,
        r >= amount,
{
    proof {
        assert(amount * slippage_bps <= 0xffff_ffff_ffff_ffff * 0xffff_ffff_ffff_ffff)
            by (nonlinear_arith)
            requires
                amount <= 0xffff_ffff_ffff_ffff,
                slippage_bps <= 0xffff_ffff_ffff_ffff,
        ;
    }
    let product: u128 = (amount as u128) * (slippage_bps as u128);
    let extra: u128 = (product + 9_999) / 10_000;
    let total: u128 = (amount as u128) + extra;
    if total > u64::MAX as u128 {
        u64::MAX
    } else {
        total as u64
    }
}

/// The seller's output floor for `amount` under `slippage_bps`: the amount
/// less `amount * slippage_bps / 10000` in integer division, and zero where
/// that would go below zero.
pub fn calculate_with_slippage_sell(amount: u64, slippage_bps: u64) -> (r: u64)
    ensures
        r == spec_with_slippage_sell(amount as nat, slippage_bps as nat),
        r <= amount,
{
    proof {
        assert(amount * slippage_bps <= 0xffff_ffff_ffff_ffff * 0xffff_ffff_ffff_ffff)
            by (nonlinear_arith)
            requires
                amount <= 0xffff_ffff_ffff_ffff,
                slippage_bps <= 0xffff_ffff_ffff_ffff,
        ;
    }
    let product: u128 = (amount as u128) * (slippage_bps as u128);
    let cut: u128 = product / 10_000;
    if cut >= amount as u128 {
        0
    } else {
        amount - (cut as u64)
    }
}

} // verus!
