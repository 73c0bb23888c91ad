use solana_sdk::pubkey::Pubkey;
use solana_trading_sdk::fee::PriorityFee;
use solana_trading_sdk::fee::TipFee;

#[test]
fn default_fee_is_zero() {
    assert_eq!(PriorityFee::default(), PriorityFee { unit_limit: 0, unit_price: 0 });
}

#[test]
fn fees_add_limits_and_take_the_higher_price() {
    let a = PriorityFee { unit_limit: 100_000, unit_price: 10 };
    let b = PriorityFee { unit_limit: 50_000, unit_price: 25 };
    assert_eq!(a + b, PriorityFee { unit_limit: 150_000, unit_price: 25 });
    assert_eq!(b + a, PriorityFee { unit_limit: 150_000, unit_price: 25 });
    assert_eq!(a.combine(b), a + b);
    assert_eq!(a + a, PriorityFee { unit_limit: 200_000, unit_price: 10 });
}

#[test]
fn fee_limit_saturates() {
    let a = PriorityFee { unit_limit: u32::MAX - 1, unit_price: 1 };
    let b = PriorityFee { unit_limit: 2, unit_price: u64::MAX };
    assert_eq!(a + b, PriorityFee { unit_limit: u32::MAX, unit_price: u64::MAX });
    let c = PriorityFee { unit_limit: 1, unit_price: 0 };
    assert_eq!(a + c, PriorityFee { unit_limit: u32::MAX, unit_price: 1 });
    let top = PriorityFee { unit_limit: u32::MAX, unit_price: 3 };
    assert_eq!(top + top, top);
}

#[test]
fn adding_the_zero_fee_changes_nothing() {
    let a = PriorityFee { unit_limit: 7, unit_price: 9 };
    assert_eq!(a + PriorityFee::default(), a);
    assert_eq!(PriorityFee::default() + a, a);
}

#[test]
fn tip_fee_holds_account_and_amount() {
    let account = Pubkey::new_unique();
    let tip = TipFee { tip_account: account, tip_lamports: 42 };
    let copy = tip;
    assert_eq!(copy.tip_account, account);
    assert_eq!(tip.tip_lamports, 42);
}
