use solana_sdk::compute_budget::ComputeBudgetInstruction;
use solana_sdk::instruction::Instruction;
use solana_sdk::pubkey::Pubkey;
use solana_sdk::signature::Keypair;
use solana_sdk::signer::Signer;
use solana_trading_sdk::endpoint::clone_instructions;
use solana_trading_sdk::endpoint::TradingEndpoint;
use solana_trading_sdk::errors::TradingEndpointError;
use solana_trading_sdk::fee::PriorityFee;
use solana_trading_sdk::fee::TipFee;
use solana_trading_sdk::lamports::Lamports;
use solana_trading_sdk::swqos::SWQoSConfig;
use solana_trading_sdk::swqos::SWQoSRuntime;
use solana_trading_sdk::swqos::SWQoSType;
use solana_trading_sdk::types::TransactionType;

fn runtime(config: SWQoSConfig) -> SWQoSRuntime {
    SWQoSRuntime::new_single(config, &[Pubkey::new_unique(), Pubkey::new_unique()])
}

fn blox() -> SWQoSConfig {
    SWQoSConfig::new(SWQoSType::Blox("https://blox.example".to_string(), "t".to_string()))
}

fn endpoint() -> TradingEndpoint {
    TradingEndpoint::new(vec![])
}

const F: PriorityFee = PriorityFee { unit_limit: 100_000, unit_price: 5_000 };
const G: PriorityFee = PriorityFee { unit_limit: 40_000, unit_price: 9_000 };

#[test]
fn sell_fee_falls_back_to_buy_fee() {
    let rt = runtime(blox().with_buy_fee(F));
    assert_eq!(endpoint().get_fee_config(&rt, TransactionType::Sell, None), Some(F));
    assert_eq!(endpoint().get_fee_config(&rt, TransactionType::Buy, None), Some(F));
    assert_eq!(endpoint().get_fee_config(&rt, TransactionType::Create, None), Some(F));
}

#[test]
fn sell_fee_of_its_own_wins_over_buy_fee() {
    let rt = runtime(blox().with_buy_fee(F).with_sell_fee(G));
    assert_eq!(endpoint().get_fee_config(&rt, TransactionType::Sell, None), Some(G));
    assert_eq!(endpoint().get_fee_config(&rt, TransactionType::Buy, None), Some(F));
    assert_eq!(endpoint().get_fee_config(&rt, TransactionType::Create, None), Some(F));
}

#[test]
fn buy_and_create_never_use_the_sell_fee() {
    let rt = runtime(blox().with_sell_fee(G));
    assert_eq!(endpoint().get_fee_config(&rt, TransactionType::Buy, None), None);
    assert_eq!(endpoint().get_fee_config(&rt, TransactionType::Create, None), None);
    assert_eq!(endpoint().get_fee_config(&rt, TransactionType::Sell, None), Some(G));
}

#[test]
fn additional_fee_combines_with_the_configured_fee() {
    let rt = runtime(blox().with_buy_fee(F));
    assert_eq!(
        endpoint().get_fee_config(&rt, TransactionType::Buy, Some(G)),
        Some(PriorityFee { unit_limit: 140_000, unit_price: 9_000 })
    );
    let bare = runtime(blox());
    assert_eq!(endpoint().get_fee_config(&bare, TransactionType::Buy, Some(G)), Some(G));
    assert_eq!(endpoint().get_fee_config(&bare, TransactionType::Buy, None), None);
}

#[test]
fn sell_tip_falls_back_to_buy_tip() {
    let rt = runtime(blox().with_buy_tip(Lamports(1_000)));
    let e = endpoint();
    assert_eq!(e.get_default_tip_for_tx_type(&rt, TransactionType::Sell), Ok(Lamports(1_000)));
    assert_eq!(e.get_default_tip_for_tx_type(&rt, TransactionType::Buy), Ok(Lamports(1_000)));
    assert_eq!(e.get_default_tip_for_tx_type(&rt, TransactionType::Create), Ok(Lamports(1_000)));
    let both = runtime(blox().with_buy_tip(Lamports(1_000)).with_sell_tip(Lamports(3)));
    assert_eq!(e.get_default_tip_for_tx_type(&both, TransactionType::Sell), Ok(Lamports(3)));
    assert_eq!(e.get_default_tip_for_tx_type(&both, TransactionType::Buy), Ok(Lamports(1_000)));
}

#[test]
fn a_missing_tip_names_the_provider() {
    let rt = runtime(blox().with_sell_tip(Lamports(3)));
    let e = endpoint();
    assert_eq!(
        e.get_default_tip_for_tx_type(&rt, TransactionType::Buy),
        Err(TradingEndpointError::MissingFeeOrTipConfiguration("blox".to_string()))
    );
    assert_eq!(
        e.get_default_tip_for_tx_type(&rt, TransactionType::Create),
        Err(TradingEndpointError::MissingFeeOrTipConfiguration("blox".to_string()))
    );
    assert_eq!(e.get_default_tip_for_tx_type(&rt, TransactionType::Sell), Ok(Lamports(3)));
}

#[test]
fn a_provider_without_tip_account_is_not_tipped() {
    let rt = runtime(blox());
    assert!(matches!(endpoint().resolve_tip(&rt, None, TransactionType::Buy, 5), Ok(None)));
    let generic = SWQoSRuntime::new_single(
        SWQoSConfig::new(SWQoSType::Default("https://rpc.example".to_string(), None)),
        &[Pubkey::new_unique()],
    );
    assert!(matches!(endpoint().get_tip_config(&generic, TransactionType::Buy, 5), Ok(None)));
}

#[test]
fn a_provider_with_tip_account_must_be_tipped() {
    let rt = runtime(blox());
    let account = Pubkey::new_unique();
    let r = endpoint().resolve_tip(&rt, Some(account), TransactionType::Buy, 5);
    assert!(matches!(
        r,
        Err(TradingEndpointError::MissingFeeOrTipConfiguration(ref name)) if name == "blox"
    ));
    let drawn = endpoint().get_tip_config(&rt, TransactionType::Sell, 5);
    assert!(matches!(drawn, Err(TradingEndpointError::MissingFeeOrTipConfiguration(_))));
}

#[test]
fn the_tip_is_the_configured_tip_plus_the_addition() {
    let rt = runtime(blox().with_buy_tip(Lamports(1_000)));
    let account = Pubkey::new_unique();
    let tip = endpoint().resolve_tip(&rt, Some(account), TransactionType::Sell, 234).unwrap().unwrap();
    assert_eq!(tip.tip_account, account);
    assert_eq!(tip.tip_lamports, 1_234);
    let drawn = endpoint().get_tip_config(&rt, TransactionType::Buy, 0).unwrap().unwrap();
    assert!(rt.client.tip_accounts.contains(&drawn.tip_account));
    assert_eq!(drawn.tip_lamports, 1_000);
}

#[test]
fn a_tip_beyond_the_range_stops_at_the_largest_count() {
    let rt = runtime(blox().with_buy_tip(Lamports(u64::MAX)));
    let account = Pubkey::new_unique();
    let capped = endpoint().resolve_tip(&rt, Some(account), TransactionType::Buy, 1).unwrap().unwrap();
    assert_eq!(capped.tip_lamports, u64::MAX);
    let top = endpoint().resolve_tip(&rt, Some(account), TransactionType::Buy, 0).unwrap().unwrap();
    assert_eq!(top.tip_lamports, u64::MAX);
    let near = runtime(blox().with_buy_tip(Lamports(u64::MAX - 5)));
    let sum = endpoint().resolve_tip(&near, Some(account), TransactionType::Buy, 5).unwrap().unwrap();
    assert_eq!(sum.tip_lamports, u64::MAX);
    let over = endpoint().resolve_tip(&near, Some(account), TransactionType::Buy, 6).unwrap().unwrap();
    assert_eq!(over.tip_lamports, u64::MAX);
}

#[test]
fn fee_instructions_are_price_then_limit() {
    let rt = runtime(blox().with_buy_fee(F));
    let ixs = endpoint().build_fee_instructions(&rt, TransactionType::Buy, None);
    assert_eq!(
        ixs,
        vec![
            ComputeBudgetInstruction::set_compute_unit_price(5_000),
            ComputeBudgetInstruction::set_compute_unit_limit(100_000),
        ]
    );
    let none = endpoint().build_fee_instructions(&runtime(blox()), TransactionType::Buy, None);
    assert!(none.is_empty());
}

#[test]
fn the_tip_instruction_is_a_transfer_from_the_payer() {
    let payer = Keypair::new();
    let account = Pubkey::new_unique();
    let ix = endpoint()
        .build_tip_instruction(&payer, Some(TipFee { tip_account: account, tip_lamports: 77 }));
    assert_eq!(
        ix,
        Some(solana_sdk::system_instruction::transfer(&payer.pubkey(), &account, 77))
    );
    assert_eq!(endpoint().build_tip_instruction(&payer, None), None);
}

#[test]
fn instructions_are_assembled_in_order() {
    let payer = Keypair::new();
    let account = Pubkey::new_unique();
    let rt = runtime(blox().with_buy_fee(F));
    let nonce = Instruction::new_with_bytes(Pubkey::new_unique(), &[9], vec![]);
    let trade = vec![
        Instruction::new_with_bytes(Pubkey::new_unique(), &[1], vec![]),
        Instruction::new_with_bytes(Pubkey::new_unique(), &[2], vec![]),
    ];
    let tip = TipFee { tip_account: account, tip_lamports: 10 };
    let all = endpoint().assemble_instructions(
        &rt,
        TransactionType::Buy,
        &payer,
        &Some(nonce.clone()),
        Some(tip),
        Some(G),
        &trade,
    );
    assert_eq!(
        all,
        vec![
            nonce.clone(),
            ComputeBudgetInstruction::set_compute_unit_price(9_000),
            ComputeBudgetInstruction::set_compute_unit_limit(140_000),
            solana_sdk::system_instruction::transfer(&payer.pubkey(), &account, 10),
            trade[0].clone(),
            trade[1].clone(),
        ]
    );
    let bare = endpoint().assemble_instructions(
        &runtime(blox()),
        TransactionType::Sell,
        &payer,
        &None,
        None,
        None,
        &trade,
    );
    assert_eq!(bare, trade);
}

#[test]
fn instruction_lists_are_copied_whole() {
    let list = vec![
        Instruction::new_with_bytes(Pubkey::new_unique(), &[1, 2, 3], vec![]),
        Instruction::new_with_bytes(Pubkey::new_unique(), &[], vec![]),
    ];
    assert_eq!(clone_instructions(&list), list);
    assert!(clone_instructions(&vec![]).is_empty());
}
