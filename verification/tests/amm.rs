use solana_trading_sdk::amm::amm_buy_get_token_out;
use solana_trading_sdk::amm::amm_sell_get_sol_out;
use solana_trading_sdk::amm::calculate_with_slippage_buy;
use solana_trading_sdk::amm::calculate_with_slippage_sell;
use solana_trading_sdk::amm::swap_out;
use solana_trading_sdk::errors::TradingEndpointError;

#[test]
fn swap_out_matches_the_reference_scenario() {
    let out = swap_out(30_000_000_000, 1_073_000_000_000_000, 1_000_000_000);
    assert_eq!(out, Ok(34_612_903_225_806));
    assert_eq!(
        amm_buy_get_token_out(30_000_000_000, 1_073_000_000_000_000, 1_000_000_000),
        Ok(34_612_903_225_806)
    );
}

#[test]
fn swap_out_rejects_an_empty_reserve() {
    assert_eq!(swap_out(0, 5, 1), Err(TradingEndpointError::PoolUninitialized));
    assert_eq!(swap_out(5, 0, 1), Err(TradingEndpointError::PoolUninitialized));
    assert_eq!(swap_out(0, 0, 0), Err(TradingEndpointError::PoolUninitialized));
    assert_eq!(amm_sell_get_sol_out(0, 5, 1), Err(TradingEndpointError::PoolUninitialized));
}

#[test]
fn swap_out_never_drains_the_pool() {
    assert_eq!(swap_out(1, u64::MAX, u64::MAX), Ok(u64::MAX - 1));
    assert_eq!(swap_out(u64::MAX, u64::MAX, u64::MAX), Ok(u64::MAX / 2));
    assert_eq!(swap_out(10, 5, 0), Ok(0));
    assert_eq!(swap_out(10, 5, 1), Ok(0));
}

#[test]
fn swap_out_grows_with_the_input() {
    let mut last = 0;
    for amount in 0..200u64 {
        let out = swap_out(1_000, 50_000, amount).unwrap();
        assert!(out >= last);
        assert!(out < 50_000);
        last = out;
    }
}

#[test]
fn sell_uses_the_token_reserve_as_input_side() {
    // 1_000 tokens into (sol = 2_000, token = 8_000): 1_000 * 2_000 / 9_000 = 222
    assert_eq!(amm_sell_get_sol_out(2_000, 8_000, 1_000), Ok(222));
}

#[test]
fn slippage_of_zero_changes_nothing() {
    assert_eq!(calculate_with_slippage_buy(12_345, 0), 12_345);
    assert_eq!(calculate_with_slippage_sell(12_345, 0), 12_345);
    assert_eq!(calculate_with_slippage_buy(0, 500), 0);
    assert_eq!(calculate_with_slippage_sell(0, 500), 0);
}

#[test]
fn slippage_buy_rounds_up() {
    assert_eq!(calculate_with_slippage_buy(1_000_000, 3_000), 1_300_000);
    // 1 * 1 / 10000 rounds up to 1
    assert_eq!(calculate_with_slippage_buy(1, 1), 2);
    assert_eq!(calculate_with_slippage_buy(10_001, 1), 10_003);
    assert_eq!(calculate_with_slippage_buy(u64::MAX, 1), u64::MAX);
    assert_eq!(calculate_with_slippage_buy(u64::MAX, u64::MAX), u64::MAX);
}

#[test]
fn slippage_sell_takes_off_whole_units_and_stops_at_zero() {
    assert_eq!(calculate_with_slippage_sell(1_000_000, 3_000), 700_000);
    // the part given up, 1 * 1 / 10000, rounds down to nothing
    assert_eq!(calculate_with_slippage_sell(1, 1), 1);
    assert_eq!(calculate_with_slippage_sell(10_001, 1), 10_000);
    assert_eq!(calculate_with_slippage_sell(199, 100), 198);
    assert_eq!(calculate_with_slippage_sell(9_999, 9_999), 1);
    assert_eq!(calculate_with_slippage_sell(777, 10_000), 0);
    assert_eq!(calculate_with_slippage_sell(777, 20_000), 0);
    assert_eq!(calculate_with_slippage_sell(u64::MAX, u64::MAX), 0);
}

#[test]
fn slippage_brackets_the_amount() {
    for bps in [0u64, 1, 50, 9_999, 10_000, 10_001, 1_000_000] {
        for amount in [0u64, 1, 9_999, 10_000, 123_456_789, u64::MAX] {
            assert!(calculate_with_slippage_buy(amount, bps) >= amount);
            assert!(calculate_with_slippage_sell(amount, bps) <= amount);
        }
    }
}
