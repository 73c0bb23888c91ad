use vstd::prelude::*;
use crate::amm::amm_buy_get_token_out;
use crate::amm::amm_sell_get_sol_out;
use crate::amm::calculate_with_slippage_buy;
use crate::amm::calculate_with_slippage_sell;
use crate::amm::lemma_swap_out_below_reserve;
use crate::amm::spec_swap_out;
use crate::amm::spec_with_slippage_buy;
use crate::amm::spec_with_slippage_sell;
use crate::errors::TradingEndpointError;
use crate::types::PoolInfo;
use crate::types::SwapInfo;

verus! {

/// A count capped at the largest 64-bit value.
pub open spec fn spec_capped(amount: nat) -> u64 {
    if amount > u64::MAX {
        u64::MAX
    } else {
        amount as u64
    }
}

/// The two legs of a buy of `sol_amount` lamports against reserves: the
/// tokens that the pool gives, and the lamports that the buyer pays at
/// most.
pub open spec fn spec_buy_quote(sol: nat, token: nat, sol_amount: u64, slippage_bps: u64) -> SwapInfo {
    SwapInfo {
        token_amount: spec_swap_out(sol, token, sol_amount as nat) as u64,
        sol_amount: spec_capped(spec_with_slippage_buy(sol_amount as nat, slippage_bps as nat)),
    }
}

/// The two legs of a sell of `token_amount` tokens against reserves: the
/// tokens that the seller gives, and the lamports that the seller accepts
/// at least.
pub open spec fn spec_sell_quote(sol: nat, token: nat, token_amount: u64, slippage_bps: u64) -> SwapInfo {
    SwapInfo {
        token_amount,
        sol_amount: spec_with_slippage_sell(
            spec_swap_out(token, sol, token_amount as nat),
            slippage_bps as nat,
        ) as u64,
    }
}

/// A value, or zero where none is given.
pub open spec fn spec_or_zero(value: Option<u64>) -> u64 {
    match value {
        Some(v) => v,
        None => 0,
    }
}

/// The outcome of quoting a buy of `sol_amount` lamports against a pool
/// with the reserves `sol` and `token`: an error where a reserve is empty,
/// and the buy's quote otherwise.
pub open spec fn spec_quote_buy(sol: u64, token: u64, sol_amount: u64, slippage_bps: u64) -> Result<
    SwapInfo,
    TradingEndpointError,
> {
    if sol == 0 || token == 0 {
        Err(TradingEndpointError::PoolUninitialized)
    } else {
        Ok(spec_buy_quote(sol as nat, token as nat, sol_amount, slippage_bps))
    }
}

/// The outcome of quoting a sell of `token_amount` tokens against a pool
/// with the reserves `sol` and `token`.
pub open spec fn spec_quote_sell(sol: u64, token: u64, token_amount: u64, slippage_bps: u64) -> Result<
    SwapInfo,
    TradingEndpointError,
> {
    if sol == 0 || token == 0 {
        Err(TradingEndpointError::PoolUninitialized)
    } else {
        Ok(spec_sell_quote(sol as nat, token as nat, token_amount, slippage_bps))
    }
}

/// The reserves `(sol, token)` of a pool after the first `count` buys of a
/// batch, each priced against the reserves that the buys before it left.
pub open spec fn spec_buy_reserves(sol: nat, token: nat, amounts: Seq<u64>, count: nat) -> (
    nat,
    nat,
)
    decreases count,
{
    if count == 0 {
        (sol, token)
    } else {
        let (s, t) = spec_buy_reserves(sol, token, amounts, (count - 1) as nat);
        let paid = amounts[count - 1] as nat;
        (s + paid, (t - spec_swap_out(s, t, paid)) as nat)
    }
}

/// The reserves `(sol, token)` of a pool after the first `count` sells of a
/// batch.
pub open spec fn spec_sell_reserves(sol: nat, token: nat, amounts: Seq<u64>, count: nat) -> (
    nat,
    nat,
)
    decreases count,
{
    if count == 0 {
        (sol, token)
    } else {
        let (s, t) = spec_sell_reserves(sol, token, amounts, (count - 1) as nat);
        let sold = amounts[count - 1] as nat;
        ((s - spec_swap_out(t, s, sold)) as nat, t + sold)
    }
}

/// The tokens that the buy at `index` of a batch receives.
pub open spec fn spec_bought(sol: nat, token: nat, amounts: Seq<u64>, index: nat) -> nat {
    let (s, t) = spec_buy_reserves(sol, token, amounts, index);
    spec_swap_out(s, t, amounts[index as int] as nat)
}

/// The tokens that the first `count` buys of a batch receive together.
pub open spec fn spec_total_bought(sol: nat, token: nat, amounts: Seq<u64>, count: nat) -> nat
    decreases count,
{
    if count == 0 {
        0
    } else {
        spec_total_bought(sol, token, amounts, (count - 1) as nat) + spec_bought(
            sol,
            token,
            amounts,
            (count - 1) as nat,
        )
    }
}

/// The quotes of a batch of buys, in the items' order. A batch with no item
/// has no quote and needs no pool. Otherwise an empty reserve is an error,
/// and so is a SOL reserve that grows beyond a 64-bit count.
pub open spec fn spec_batch_buy(sol: u64, token: u64, amounts: Seq<u64>, slippage_bps: u64) -> Result<
    Seq<SwapInfo>,
    TradingEndpointError,
> {
    if amounts.len() == 0 {
        Ok(Seq::empty())
    } else if sol == 0 || token == 0 {
        Err(TradingEndpointError::PoolUninitialized)
    } else if spec_buy_reserves(sol as nat, token as nat, amounts, amounts.len()).0 > u64::MAX {
        Err(TradingEndpointError::AmountOutOfRange)
    } else {
        Ok(
            Seq::new(
                amounts.len(),
                |k: int|
                    {
                        let (s, t) = spec_buy_reserves(sol as nat, token as nat, amounts, k as nat);
                        spec_buy_quote(s, t, amounts[k], slippage_bps)
                    },
            ),
        )
    }
}

/// The quotes of a batch of sells, in the items' order. A batch with no
/// item has no quote and needs no pool. Otherwise an empty reserve is an
/// error, and so is a token reserve that grows beyond a 64-bit count.
pub open spec fn spec_batch_sell(sol: u64, token: u64, amounts: Seq<u64>, slippage_bps: u64) -> Result<
    Seq<SwapInfo>,
    TradingEndpointError,
> {
    if amounts.len() == 0 {
        Ok(Seq::empty())
    } else if sol == 0 || token == 0 {
        Err(TradingEndpointError::PoolUninitialized)
    } else if spec_sell_reserves(sol as nat, token as nat, amounts, amounts.len()).1 > u64::MAX {
        Err(TradingEndpointError::AmountOutOfRange)
    } else {
        Ok(
            Seq::new(
                amounts.len(),
                |k: int|
                    {
                        let (s, t) = spec_sell_reserves(
                            sol as nat,
                            token as nat,
                            amounts,
                            k as nat,
                        );
                        spec_sell_quote(s, t, amounts[k], slippage_bps)
                    },
            ),
        )
    }
}

/// Through a batch of buys both reserves stay above zero, the SOL reserve
/// never falls and the token reserve never rises.
pub proof fn lemma_buy_reserves_stay_positive(sol: nat, token: nat, amounts: Seq<u64>, count: nat)
    requires
        sol > 0,
        token > 0,
        count <= amounts.len(),
    ensures
        spec_buy_reserves(sol, token, amounts, count).0 >= sol,
        0 < spec_buy_reserves(sol, token, amounts, count).1 <= token,
    decreases count,
{
    if count > 0 {
        lemma_buy_reserves_stay_positive(sol, token, amounts, (count - 1) as nat);
        let (s, t) = spec_buy_reserves(sol, token, amounts, (count - 1) as nat);
        lemma_swap_out_below_reserve(s, t, amounts[count - 1] as nat);
    }
}

/// Through a batch of sells both reserves stay above zero, the token
/// reserve never falls and the SOL reserve never rises.
pub proof fn lemma_sell_reserves_stay_positive(sol: nat, token: nat, amounts: Seq<u64>, count: nat)
    requires
        sol > 0,
        token > 0,
        count <= amounts.len(),
    ensures
        0 < spec_sell_reserves(sol, token, amounts, count).0 <= sol,
        spec_sell_reserves(sol, token, amounts, count).1 >= token,
    decreases count,
{
    if count > 0 {
        lemma_sell_reserves_stay_positive(sol, token, amounts, (count - 1) as nat);
        let (s, t) = spec_sell_reserves(sol, token, amounts, (count - 1) as nat);
        lemma_swap_out_below_reserve(t, s, amounts[count - 1] as nat);
    }
}

/// After any number of buys of a batch the token reserve is what it was at
/// the start less all that was bought.
pub proof fn lemma_batch_buy_token_total(sol: nat, token: nat, amounts: Seq<u64>, count: nat)
    requires
        sol > 0,
        token > 0,
        count <= amounts.len(),
    ensures
        spec_total_bought(sol, token, amounts, count) <= token,
        spec_buy_reserves(sol, token, amounts, count).1 == token - spec_total_bought(
            sol,
            token,
            amounts,
            count,
        ),
    decreases count,
{
    if count > 0 {
        let before = (count - 1) as nat;
        lemma_batch_buy_token_total(sol, token, amounts, before);
        lemma_buy_reserves_stay_positive(sol, token, amounts, before);
        let (s, t) = spec_buy_reserves(sol, token, amounts, before);
        lemma_swap_out_below_reserve(s, t, amounts[before as int] as nat);
    }
}

/// A buy of a batch never raises the token reserve, and lowers it whenever
/// it buys a token at all: whenever the lamports paid, times the token
/// reserve, reach the SOL reserve after the payment.
pub proof fn lemma_batch_buy_token_decreases(sol: nat, token: nat, amounts: Seq<u64>, index: nat)
    requires
        sol > 0,
        token > 0,
        index < amounts.len(),
    ensures
        spec_buy_reserves(sol, token, amounts, index + 1).1 <= spec_buy_reserves(
            sol,
            token,
            amounts,
            index,
        ).1,
        ({
            let (s, t) = spec_buy_reserves(sol, token, amounts, index);
            amounts[index as int] * t >= s + amounts[index as int]
        }) ==> spec_buy_reserves(sol, token, amounts, index + 1).1 < spec_buy_reserves(
            sol,
            token,
            amounts,
            index,
        ).1,
{
    lemma_buy_reserves_stay_positive(sol, token, amounts, index);
    let (s, t) = spec_buy_reserves(sol, token, amounts, index);
    let paid = amounts[index as int] as nat;
    lemma_swap_out_below_reserve(s, t, paid);
    assert(spec_buy_reserves(sol, token, amounts, index + 1).1 == t - spec_swap_out(s, t, paid));
    if paid * t >= s + paid {
        let num = (paid * t) as int;
        let den = (s + paid) as int;
        vstd::arithmetic::div_mod::lemma_fundamental_div_mod(num, den);
        vstd::arithmetic::div_mod::lemma_mod_bound(num, den);
        assert(num / den >= 1) by (nonlinear_arith)
            requires
                num == den * (num / den) + num % den,
                0 <= num % den < den,
                num >= den,
                den > 0,
        ;
    }
}

/// The quote of a buy of `sol_amount` lamports against the pool as the
/// ledger showed it. A pool with an empty reserve is an error.
pub fn quote_buy(pool: &PoolInfo, sol_amount: u64, slippage_bps: u64) -> (r: Result<
    SwapInfo,
    TradingEndpointError,
>)
    ensures
        r == spec_quote_buy(pool.sol_reserves, pool.token_reserves, sol_amount, slippage_bps),
{
    quote_first_buy(pool.sol_reserves, pool.token_reserves, sol_amount, Some(slippage_bps))
}

/// The quote of a buy of `buy_sol_amount` lamports against reserves that
/// are known without a look at the ledger, as those of a pool that is just
/// being created. Where no slippage is given, none is allowed.
pub fn quote_first_buy(
    sol_reserves: u64,
    token_reserves: u64,
    buy_sol_amount: u64,
    slippage_basis_points: Option<u64>,
) -> (r: Result<SwapInfo, TradingEndpointError>)
    ensures
        r == spec_quote_buy(
            sol_reserves,
            token_reserves,
            buy_sol_amount,
            spec_or_zero(slippage_basis_points),
        ),
{
    let slippage_bps: u64 = match slippage_basis_points {
        Some(bps) => bps,
        None => 0,
    };
    let token_amount = match amm_buy_get_token_out(sol_reserves, token_reserves, buy_sol_amount) {
        Ok(amount) => amount,
        Err(e) => {
            return Err(e);
        },
    };
    Ok(
        SwapInfo {
            token_amount,
            sol_amount: calculate_with_slippage_buy(buy_sol_amount, slippage_bps),
        },
    )
}

/// The quote of a sell of `token_amount` tokens against the pool as the
/// ledger showed it. A pool with an empty reserve is an error.
pub fn quote_sell(pool: &PoolInfo, token_amount: u64, slippage_bps: u64) -> (r: Result<
    SwapInfo,
    TradingEndpointError,
>)
    ensures
        r == spec_quote_sell(pool.sol_reserves, pool.token_reserves, token_amount, slippage_bps),
{
    let sol_out = match amm_sell_get_sol_out(pool.sol_reserves, pool.token_reserves, token_amount) {
        Ok(amount) => amount,
        Err(e) => {
            return Err(e);
        },
    };
    Ok(SwapInfo { token_amount, sol_amount: calculate_with_slippage_sell(sol_out, slippage_bps) })
}

/// Prices a batch of buys against one pool: each buy is priced against the
/// reserves that the buys before it leave, as if the batch ran in order
/// within one block. The reserves are a simulation of the call's own;
/// nothing is written back.
pub fn simulate_batch_buy(pool: &PoolInfo, amounts: &Vec<u64>, slippage_bps: u64) -> (r: Result<
    Vec<SwapInfo>,
    TradingEndpointError,
>)
    ensures
        match spec_batch_buy(pool.sol_reserves, pool.token_reserves, amounts@, slippage_bps) {
            Ok(quotes) => r is Ok && r->Ok_0@ == quotes,
            Err(e) => r == Err::<Vec<SwapInfo>, TradingEndpointError>(e),
        },
{
    let mut quotes: Vec<SwapInfo> = Vec::new();
    let n = amounts.len();
    if n == 0 {
        proof {
            assert(quotes@ =~= Seq::<SwapInfo>::empty());
        }
        return Ok(quotes);
    }
    if pool.sol_reserves == 0 || pool.token_reserves == 0 {
        return Err(TradingEndpointError::PoolUninitialized);
    }
    let ghost sol0 = pool.sol_reserves as nat;
    let ghost token0 = pool.token_reserves as nat;
    let mut pool_sol: u64 = pool.sol_reserves;
    let mut pool_token: u64 = pool.token_reserves;
    let mut k: usize = 0;
    while k < n
        invariant
            n == amounts@.len(),
            n > 0,
            k <= n,
            sol0 == pool.sol_reserves,
            token0 == pool.token_reserves,
            sol0 > 0,
            token0 > 0,
            spec_buy_reserves(sol0, token0, amounts@, k as nat) == (pool_sol as nat, pool_token as nat),
            pool_sol > 0,
            pool_token > 0,
            quotes@.len() == k,
            forall|j: int|
                0 <= j < k ==> #[trigger] quotes@[j] == ({
                    let (s, t) = spec_buy_reserves(sol0, token0, amounts@, j as nat);
                    spec_buy_quote(s, t, amounts@[j], slippage_bps)
                }),
        decreases n - k,
    {
        let paid = amounts[k];
        let bought = match amm_buy_get_token_out(pool_sol, pool_token, paid) {
            Ok(amount) => amount,
            Err(e) => {
                return Err(e);
            },
        };
        let capped = calculate_with_slippage_buy(paid, slippage_bps);
        if paid > u64::MAX - pool_sol {
            proof {
                lemma_buy_reserves_grow(sol0, token0, amounts@, k as nat + 1, n as nat);
            }
            return Err(TradingEndpointError::AmountOutOfRange);
        }
        quotes.push(SwapInfo { token_amount: bought, sol_amount: capped });
        pool_sol = pool_sol + paid;
        pool_token = pool_token - bought;
        k = k + 1;
    }
    Ok(quotes)
}

/// Prices a batch of sells against one pool: each sell is priced against
/// the reserves that the sells before it leave.
pub fn simulate_batch_sell(pool: &PoolInfo, amounts: &Vec<u64>, slippage_bps: u64) -> (r: Result<
    Vec<SwapInfo>,
    TradingEndpointError,
>)
    ensures
        match spec_batch_sell(pool.sol_reserves, pool.token_reserves, amounts@, slippage_bps) {
            Ok(quotes) => r is Ok && r->Ok_0@ == quotes,
            Err(e) => r == Err::<Vec<SwapInfo>, TradingEndpointError>(e),
        },
{
    let mut quotes: Vec<SwapInfo> = Vec::new();
    let n = amounts.len();
    if n == 0 {
        proof {
            assert(quotes@ =~= Seq::<SwapInfo>::empty());
        }
        return Ok(quotes);
    }
    if pool.sol_reserves == 0 || pool.token_reserves == 0 {
        return Err(TradingEndpointError::PoolUninitialized);
    }
    let ghost sol0 = pool.sol_reserves as nat;
    let ghost token0 = pool.token_reserves as nat;
    let mut pool_sol: u64 = pool.sol_reserves;
    let mut pool_token: u64 = pool.token_reserves;
    let mut k: usize = 0;
    while k < n
        invariant
            n == amounts@.len(),
            n > 0,
            k <= n,
            sol0 == pool.sol_reserves,
            token0 == pool.token_reserves,
            sol0 > 0,
            token0 > 0,
            spec_sell_reserves(sol0, token0, amounts@, k as nat) == (pool_sol as nat, pool_token as nat),
            pool_sol > 0,
            pool_token > 0,
            quotes@.len() == k,
            forall|j: int|
                0 <= j < k ==> #[trigger] quotes@[j] == ({
                    let (s, t) = spec_sell_reserves(sol0, token0, amounts@, j as nat);
                    spec_sell_quote(s, t, amounts@[j], slippage_bps)
                }),
        decreases n - k,
    {
        let sold = amounts[k];
        let sol_out = match amm_sell_get_sol_out(pool_sol, pool_token, sold) {
            Ok(amount) => amount,
            Err(e) => {
                return Err(e);
            },
        };
        let floor = calculate_with_slippage_sell(sol_out, slippage_bps);
        if sold > u64::MAX - pool_token {
            proof {
                lemma_sell_reserves_grow(sol0, token0, amounts@, k as nat + 1, n as nat);
            }
            return Err(TradingEndpointError::AmountOutOfRange);
        }
        quotes.push(SwapInfo { token_amount: sold, sol_amount: floor });
        pool_sol = pool_sol - sol_out;
        pool_token = pool_token + sold;
        k = k + 1;
    }
    Ok(quotes)
}

proof fn lemma_buy_reserves_grow(sol: nat, token: nat, amounts: Seq<u64>, early: nat, late: nat)
    requires
        early <= late,
    ensures
        spec_buy_reserves(sol, token, amounts, early).0 <= spec_buy_reserves(
            sol,
            token,
            amounts,
            late,
        ).0,
    decreases late,
{
    if early < late {
        lemma_buy_reserves_grow(sol, token, amounts, early, (late - 1) as nat);
    }
}

proof fn lemma_sell_reserves_grow(sol: nat, token: nat, amounts: Seq<u64>, early: nat, late: nat)
    requires
        early <= late,
    ensures
        spec_sell_reserves(sol, token, amounts, early).1 <= spec_sell_reserves(
            sol,
            token,
            amounts,
            late,
        ).1,
    decreases late,
{
    if early < late {
        lemma_sell_reserves_grow(sol, token, amounts, early, (late - 1) as nat);
    }
}

} // verus!
