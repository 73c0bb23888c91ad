use solana_sdk::instruction::Instruction;
use solana_sdk::pubkey::Pubkey;
use solana_sdk::signature::Keypair;
use solana_sdk::signer::Signer;
use solana_trading_sdk::builder::build_seeded_token_address;
use solana_trading_sdk::builder::build_sol_sell_instructions;
use solana_trading_sdk::builder::build_token_account_instructions;
use solana_trading_sdk::builder::build_wsol_buy_instructions;
use solana_trading_sdk::builder::build_wsol_sell_instructions;
use solana_trading_sdk::builder::wsol_mint;
use solana_trading_sdk::builder::TOKEN_ACCOUNT_RENT;
use solana_trading_sdk::builder::TOKEN_ACCOUNT_SPACE;
use solana_trading_sdk::builder::WSOL_MINT_BYTES;
use solana_trading_sdk::errors::TradingEndpointError;
use solana_trading_sdk::random::random_seed;
use solana_trading_sdk::types::CreateATA;
use spl_associated_token_account::get_associated_token_address;
use spl_associated_token_account::instruction::create_associated_token_account;
use spl_associated_token_account::instruction::create_associated_token_account_idempotent;

fn venue_instruction(tag: u8) -> Instruction {
    Instruction::new_with_bytes(Pubkey::new_unique(), &[tag], vec![])
}

fn close(account: &Pubkey, owner: &Pubkey) -> Instruction {
    spl_token::instruction::close_account(&spl_token::ID, account, owner, owner, &[owner]).unwrap()
}

#[test]
fn the_wrapped_sol_mint_is_the_token_programs_native_mint() {
    assert_eq!(wsol_mint(), spl_token::native_mint::ID);
    assert_eq!(WSOL_MINT_BYTES, spl_token::native_mint::ID.to_bytes());
}

#[test]
fn a_token_account_holds_165_bytes() {
    assert_eq!(TOKEN_ACCOUNT_SPACE, 165);
    assert_eq!(TOKEN_ACCOUNT_RENT, 2_139_280);
}

#[test]
fn create_builds_the_failing_creation() {
    let payer = Keypair::new();
    let mint = Pubkey::new_unique();
    let (account, ixs) = build_token_account_instructions(&payer, &mint, CreateATA::Create).unwrap();
    assert_eq!(account, get_associated_token_address(&payer.pubkey(), &mint));
    assert_eq!(
        ixs,
        vec![create_associated_token_account(&payer.pubkey(), &payer.pubkey(), &mint, &spl_token::ID)]
    );
}

#[test]
fn idempotent_builds_the_idempotent_creation() {
    let payer = Keypair::new();
    let mint = Pubkey::new_unique();
    let (account, ixs) =
        build_token_account_instructions(&payer, &mint, CreateATA::Idempotent).unwrap();
    assert_eq!(account, get_associated_token_address(&payer.pubkey(), &mint));
    assert_eq!(
        ixs,
        vec![create_associated_token_account_idempotent(
            &payer.pubkey(),
            &payer.pubkey(),
            &mint,
            &spl_token::ID
        )]
    );
    assert_ne!(
        ixs[0],
        create_associated_token_account(&payer.pubkey(), &payer.pubkey(), &mint, &spl_token::ID)
    );
}

#[test]
fn no_create_builds_nothing() {
    let payer = Keypair::new();
    let mint = Pubkey::new_unique();
    let (account, ixs) = build_token_account_instructions(&payer, &mint, CreateATA::NoCreate).unwrap();
    assert_eq!(account, get_associated_token_address(&payer.pubkey(), &mint));
    assert!(ixs.is_empty());
}

#[test]
fn a_seed_builds_creation_and_initialisation() {
    let payer = Keypair::new().pubkey();
    let mint = Pubkey::new_unique();
    let (account, ixs) = build_seeded_token_address(&payer, &mint, "abc12345").unwrap();
    let expected = Pubkey::create_with_seed(&payer, "abc12345", &spl_token::ID).unwrap();
    assert_eq!(account, expected);
    assert_ne!(account, payer);
    assert_eq!(
        ixs,
        vec![
            solana_sdk::system_instruction::create_account_with_seed(
                &payer,
                &expected,
                &payer,
                "abc12345",
                2_139_280,
                165,
                &spl_token::ID
            ),
            spl_token::instruction::initialize_account3(&spl_token::ID, &expected, &mint, &payer)
                .unwrap(),
        ]
    );
}

#[test]
fn a_seed_through_the_token_account_builder() {
    let payer = Keypair::new();
    let mint = Pubkey::new_unique();
    let seed = random_seed();
    let (account, ixs) =
        build_token_account_instructions(&payer, &mint, CreateATA::CreateWithSeed(seed.clone()))
            .unwrap();
    assert_eq!(account, Pubkey::create_with_seed(&payer.pubkey(), &seed, &spl_token::ID).unwrap());
    assert_eq!(ixs.len(), 2);
}

#[test]
fn a_seed_that_is_too_long_is_an_error() {
    let payer = Keypair::new();
    let mint = Pubkey::new_unique();
    let long = "x".repeat(33);
    assert!(matches!(
        build_seeded_token_address(&payer.pubkey(), &mint, &long),
        Err(TradingEndpointError::InstructionBuildError(_))
    ));
    assert!(matches!(
        build_token_account_instructions(&payer, &mint, CreateATA::CreateWithSeed(long.clone())),
        Err(TradingEndpointError::InstructionBuildError(_))
    ));
    assert!(matches!(
        build_wsol_buy_instructions(&payer, &mint, 1, venue_instruction(1), CreateATA::CreateWithSeed(long)),
        Err(TradingEndpointError::InstructionBuildError(_))
    ));
    assert!(build_seeded_token_address(&payer.pubkey(), &mint, &"x".repeat(32)).is_ok());
}

#[test]
fn random_seeds_are_eight_letters_or_digits() {
    for _ in 0..20 {
        let seed = random_seed();
        assert_eq!(seed.chars().count(), 8);
        assert!(seed.chars().all(|c| c.is_ascii_alphanumeric()));
    }
}

#[test]
fn a_sol_sell_is_the_venue_instruction_and_an_optional_close() {
    let payer = Keypair::new();
    let owner = payer.pubkey();
    let mint = Pubkey::new_unique();
    let sell = venue_instruction(2);
    assert_eq!(
        build_sol_sell_instructions(&payer, &mint, sell.clone(), false).unwrap(),
        vec![sell.clone()]
    );
    let mint_ata = get_associated_token_address(&owner, &mint);
    assert_eq!(
        build_sol_sell_instructions(&payer, &mint, sell.clone(), true).unwrap(),
        vec![sell, close(&mint_ata, &owner)]
    );
}

#[test]
fn a_wrapped_buy_funds_and_closes_the_wrapped_account() {
    let payer = Keypair::new();
    let owner = payer.pubkey();
    let mint = Pubkey::new_unique();
    let buy = venue_instruction(1);
    let wsol = spl_token::native_mint::ID;
    let wsol_ata = get_associated_token_address(&owner, &wsol);
    let ixs =
        build_wsol_buy_instructions(&payer, &mint, 5_000, buy.clone(), CreateATA::Idempotent).unwrap();
    assert_eq!(
        ixs,
        vec![
            create_associated_token_account_idempotent(&owner, &owner, &mint, &spl_token::ID),
            create_associated_token_account_idempotent(&owner, &owner, &wsol, &spl_token::ID),
            solana_sdk::system_instruction::transfer(&owner, &wsol_ata, 5_000),
            spl_token::instruction::sync_native(&spl_token::ID, &wsol_ata).unwrap(),
            buy.clone(),
            close(&wsol_ata, &owner),
        ]
    );
    let bare = build_wsol_buy_instructions(&payer, &mint, 1, buy.clone(), CreateATA::NoCreate).unwrap();
    assert_eq!(bare.len(), 5);
    assert_eq!(bare[3], buy);
    let created = build_wsol_buy_instructions(&payer, &mint, 1, buy.clone(), CreateATA::Create).unwrap();
    assert_eq!(
        created[0],
        create_associated_token_account(&owner, &owner, &mint, &spl_token::ID)
    );
    let seeded = build_wsol_buy_instructions(
        &payer,
        &mint,
        1,
        buy.clone(),
        CreateATA::CreateWithSeed("seed".to_string()),
    )
    .unwrap();
    assert_eq!(seeded.len(), 7);
    assert_eq!(seeded[5], buy);
}

#[test]
fn a_wrapped_sell_closes_the_wrapped_account_and_optionally_the_token_account() {
    let payer = Keypair::new();
    let owner = payer.pubkey();
    let mint = Pubkey::new_unique();
    let sell = venue_instruction(2);
    let wsol = spl_token::native_mint::ID;
    let wsol_ata = get_associated_token_address(&owner, &wsol);
    let mint_ata = get_associated_token_address(&owner, &mint);
    let kept = build_wsol_sell_instructions(&payer, &mint, sell.clone(), false).unwrap();
    assert_eq!(
        kept,
        vec![
            create_associated_token_account_idempotent(&owner, &owner, &wsol, &spl_token::ID),
            sell.clone(),
            close(&wsol_ata, &owner),
        ]
    );
    let closed = build_wsol_sell_instructions(&payer, &mint, sell.clone(), true).unwrap();
    assert_eq!(closed.len(), 4);
    assert_eq!(closed[..3], kept[..]);
    assert_eq!(closed[3], close(&mint_ata, &owner));
}
