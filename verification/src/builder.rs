use vstd::prelude::*;
use solana_sdk::instruction::Instruction;
use solana_sdk::pubkey::Pubkey;
use solana_sdk::signature::Keypair;
use crate::errors::TradingEndpointError;
use crate::sdk::address_of;
use crate::sdk::keypair_address;
use crate::sdk::keypair_pubkey;
use crate::sdk::pubkey_from_bytes;
use crate::sdk::transfer;
use crate::sdk::transfer_instruction;
use crate::token::associated_address;
use crate::token::associated_address_exists;
use crate::token::close_account;
use crate::token::close_account_instruction;
use crate::token::create_account_idempotent_instruction;
use crate::token::create_account_instruction;
use crate::token::create_account_with_seed;
use crate::token::create_associated_token_account;
use crate::token::create_associated_token_account_idempotent;
use crate::token::create_seeded_account_instruction;
use crate::token::create_with_seed;
use crate::token::get_associated_token_address;
use crate::token::has_associated_address;
use crate::token::initialize_account3;
use crate::token::initialize_account_instruction;
use crate::token::seeded_token_address;
use crate::token::sync_native;
use crate::token::sync_native_instruction;
use crate::types::CreateATA;

verus! {

/// The bytes of the wrapped-SOL mint's address.
pub const WSOL_MINT_BYTES: [u8; 32] = [
    6, 155, 136, 87, 254, 171, 129, 132, 251, 104, 127, 99, 70, 24, 192, 53,
    218, 196, 57, 220, 26, 235, 59, 85, 152, 160, 240, 0, 0, 0, 0, 1,
];

/// The size in bytes of a token account.
pub const TOKEN_ACCOUNT_SPACE: u64 = 165;

/// The lamports that keep a token account exempt from rent.
pub const TOKEN_ACCOUNT_RENT: u64 = 2_139_280;

/// The address of the wrapped-SOL mint.
pub open spec fn spec_wsol_mint() -> Pubkey {
    address_of(WSOL_MINT_BYTES@)
}

/// The address of the wrapped-SOL mint.
pub fn wsol_mint() -> (r: Pubkey)
    ensures
        r == spec_wsol_mint(),
{
    pubkey_from_bytes(WSOL_MINT_BYTES)
}

/// The two instructions that create and initialise the token account
/// `account` derived from `payer` and `seed`.
pub open spec fn spec_seeded_instructions(
    payer: Pubkey,
    mint: Pubkey,
    seed: Seq<char>,
    account: Pubkey,
) -> Seq<Instruction> {
    seq![
        create_seeded_account_instruction(
            payer,
            account,
            payer,
            seed,
            TOKEN_ACCOUNT_RENT,
            TOKEN_ACCOUNT_SPACE,
        ),
        initialize_account_instruction(account, mint, payer),
    ]
}

/// Whether `payer` can get a token account for `mint` in the way `create`
/// asks for: whether the account has an address.
pub open spec fn token_account_available(payer: Pubkey, mint: Pubkey, create: CreateATA) -> bool {
    match create {
        CreateATA::CreateWithSeed(seed) => seeded_token_address(payer, seed@) is Some,
        _ => associated_address_exists(payer, mint),
    }
}

/// Whether the accounts that a buy paid in wrapped SOL touches have
/// addresses: the buyer's token account where it is created, and the
/// wrapped-SOL account. An account that is used as it is needs no address
/// here, since no instruction names it.
pub open spec fn wsol_buy_available(payer: Pubkey, mint: Pubkey, create: CreateATA) -> bool {
    &&& create is NoCreate || token_account_available(payer, mint, create)
    &&& associated_address_exists(payer, spec_wsol_mint())
}

/// The token account that a trade of `payer` in `mint` uses.
pub open spec fn spec_token_account(payer: Pubkey, mint: Pubkey, create: CreateATA) -> Pubkey {
    match create {
        CreateATA::CreateWithSeed(seed) => seeded_token_address(payer, seed@)->Some_0,
        _ => associated_address(payer, mint),
    }
}

/// The instructions that bring that token account into being.
pub open spec fn spec_token_account_instructions(
    payer: Pubkey,
    mint: Pubkey,
    create: CreateATA,
) -> Seq<Instruction> {
    match create {
        CreateATA::Create => seq![create_account_instruction(payer, payer, mint)],
        CreateATA::Idempotent => seq![create_account_idempotent_instruction(payer, payer, mint)],
        CreateATA::NoCreate => Seq::empty(),
        CreateATA::CreateWithSeed(seed) => spec_seeded_instructions(
            payer,
            mint,
            seed@,
            seeded_token_address(payer, seed@)->Some_0,
        ),
    }
}

/// The instructions of a sell that is paid out in SOL: the venue's sell,
/// then the closing of the seller's token account where that is asked for.
pub open spec fn spec_sol_sell_instructions(
    payer: Pubkey,
    mint: Pubkey,
    sell_instruction: Instruction,
    close_mint_ata: bool,
) -> Seq<Instruction> {
    if close_mint_ata {
        seq![
            sell_instruction,
            close_account_instruction(associated_address(payer, mint), payer, payer, payer),
        ]
    } else {
        seq![sell_instruction]
    }
}

/// The instructions of a buy that pays in wrapped SOL: the buyer's token
/// account, the wrapped-SOL account, its funding with `amount_sol`, the
/// venue's buy, and the closing of the wrapped-SOL account.
pub open spec fn spec_wsol_buy_instructions(
    payer: Pubkey,
    mint: Pubkey,
    amount_sol: u64,
    buy_instruction: Instruction,
    create: CreateATA,
) -> Seq<Instruction> {
    let wsol_account = associated_address(payer, spec_wsol_mint());
    spec_token_account_instructions(payer, mint, create) + seq![
        create_account_idempotent_instruction(payer, payer, spec_wsol_mint()),
        transfer_instruction(payer, wsol_account, amount_sol),
        sync_native_instruction(wsol_account),
        buy_instruction,
        close_account_instruction(wsol_account, payer, payer, payer),
    ]
}

/// The instructions of a sell that is paid out in wrapped SOL: the
/// wrapped-SOL account, the venue's sell, the closing of the wrapped-SOL
/// account, and the closing of the seller's token account where that is
/// asked for.
pub open spec fn spec_wsol_sell_instructions(
    payer: Pubkey,
    mint: Pubkey,
    sell_instruction: Instruction,
    close_mint_ata: bool,
) -> Seq<Instruction> {
    let wsol_account = associated_address(payer, spec_wsol_mint());
    let base = seq![
        create_account_idempotent_instruction(payer, payer, spec_wsol_mint()),
        sell_instruction,
        close_account_instruction(wsol_account, payer, payer, payer),
    ];
    if close_mint_ata {
        base.push(close_account_instruction(associated_address(payer, mint), payer, payer, payer))
    } else {
        base
    }
}

fn unavailable<T>(what: &str) -> (r: Result<T, TradingEndpointError>)
    ensures
        r matches Err(TradingEndpointError::InstructionBuildError(_)),
{
    Err(TradingEndpointError::InstructionBuildError(what.to_owned()))
}

/// Derives the token account of `payer` for `seed` and builds the two
/// instructions that create and initialise it. A seed that gives no
/// address is an error.
pub fn build_seeded_token_address(payer: &Pubkey, mint: &Pubkey, seed: &str) -> (r: Result<
    (Pubkey, Vec<Instruction>),
    TradingEndpointError,
>)
    ensures
        seeded_token_address(*payer, seed@) is Some ==> r is Ok && r->Ok_0.0 == seeded_token_address(
            *payer,
            seed@,
        )->Some_0 && r->Ok_0.1@ == spec_seeded_instructions(*payer, *mint, seed@, r->Ok_0.0),
        seeded_token_address(*payer, seed@) is None ==> r matches Err(
            TradingEndpointError::InstructionBuildError(_),
        ),
{
    let token_account = match create_with_seed(payer, seed) {
        Some(address) => address,
        None => {
            return unavailable("seed gives no address");
        },
    };
    let create = create_account_with_seed(
        payer,
        &token_account,
        payer,
        seed,
        TOKEN_ACCOUNT_RENT,
        TOKEN_ACCOUNT_SPACE,
    );
    let init = match initialize_account3(&token_account, mint, payer) {
        Some(instruction) => instruction,
        None => {
            return unavailable("token program refused");
        },
    };
    let mut instructions: Vec<Instruction> = Vec::new();
    instructions.push(create);
    instructions.push(init);
    proof {
        assert(instructions@ =~= spec_seeded_instructions(*payer, *mint, seed@, token_account));
    }
    Ok((token_account, instructions))
}

/// The payer's token account for `mint` and the instructions that bring
/// it into being, as `create_ata` asks. An account without an address is
/// an error.
pub fn build_token_account_instructions(payer: &Keypair, mint: &Pubkey, create_ata: CreateATA) -> (r:
    Result<(Pubkey, Vec<Instruction>), TradingEndpointError>)
    ensures
        token_account_available(keypair_address(payer), *mint, create_ata) ==> r is Ok
            && r->Ok_0.0 == spec_token_account(keypair_address(payer), *mint, create_ata)
            && r->Ok_0.1@ == spec_token_account_instructions(
            keypair_address(payer),
            *mint,
            create_ata,
        ),
        !token_account_available(keypair_address(payer), *mint, create_ata) ==> r matches Err(
            TradingEndpointError::InstructionBuildError(_),
        ),
{
    let owner = keypair_pubkey(payer);
    match create_ata {
        CreateATA::CreateWithSeed(seed) => build_seeded_token_address(&owner, mint, seed.as_str()),
        CreateATA::Create => {
            if !has_associated_address(&owner, mint) {
                return unavailable("no associated token address");
            }
            let mut instructions: Vec<Instruction> = Vec::new();
            instructions.push(create_associated_token_account(&owner, &owner, mint));
            proof {
                assert(instructions@ =~= seq![create_account_instruction(owner, owner, *mint)]);
            }
            Ok((get_associated_token_address(&owner, mint), instructions))
        },
        CreateATA::Idempotent => {
            if !has_associated_address(&owner, mint) {
                return unavailable("no associated token address");
            }
            let mut instructions: Vec<Instruction> = Vec::new();
            instructions.push(create_associated_token_account_idempotent(&owner, &owner, mint));
            proof {
                assert(instructions@ =~= seq![
                    create_account_idempotent_instruction(owner, owner, *mint),
                ]);
            }
            Ok((get_associated_token_address(&owner, mint), instructions))
        },
        CreateATA::NoCreate => {
            if !has_associated_address(&owner, mint) {
                return unavailable("no associated token address");
            }
            let instructions: Vec<Instruction> = Vec::new();
            proof {
                assert(instructions@ =~= Seq::<Instruction>::empty());
            }
            Ok((get_associated_token_address(&owner, mint), instructions))
        },
    }
}

/// The instructions of a sell paid out in SOL. Closing the seller's token
/// account needs that account's address; without one it is an error.
pub fn build_sol_sell_instructions(
    payer: &Keypair,
    mint: &Pubkey,
    sell_instruction: Instruction,
    close_mint_ata: bool,
) -> (r: Result<Vec<Instruction>, TradingEndpointError>)
    ensures
        !close_mint_ata || associated_address_exists(keypair_address(payer), *mint) ==> r is Ok
            && r->Ok_0@ == spec_sol_sell_instructions(
            keypair_address(payer),
            *mint,
            sell_instruction,
            close_mint_ata,
        ),
        close_mint_ata && !associated_address_exists(keypair_address(payer), *mint) ==> r matches Err(
            TradingEndpointError::InstructionBuildError(_),
        ),
{
    let owner = keypair_pubkey(payer);
    let mut instructions: Vec<Instruction> = Vec::new();
    instructions.push(sell_instruction);
    if close_mint_ata {
        if !has_associated_address(&owner, mint) {
            return unavailable("no associated token address");
        }
        let mint_ata = get_associated_token_address(&owner, mint);
        match close_account(&mint_ata, &owner, &owner, &owner) {
            Some(close) => instructions.push(close),
            None => {
                return unavailable("token program refused");
            },
        }
    }
    proof {
        assert(instructions@ =~= spec_sol_sell_instructions(
            owner,
            *mint,
            sell_instruction,
            close_mint_ata,
        ));
    }
    Ok(instructions)
}

/// The instructions of a buy paid in wrapped SOL. The wrapped-SOL account
/// needs an address, and so does the buyer's token account where it is
/// created; without one it is an error.
pub fn build_wsol_buy_instructions(
    payer: &Keypair,
    mint: &Pubkey,
    amount_sol: u64,
    buy_instruction: Instruction,
    create_ata: CreateATA,
) -> (r: Result<Vec<Instruction>, TradingEndpointError>)
    ensures
        wsol_buy_available(keypair_address(payer), *mint, create_ata) ==> r is Ok && r->Ok_0@
            == spec_wsol_buy_instructions(
            keypair_address(payer),
            *mint,
            amount_sol,
            buy_instruction,
            create_ata,
        ),
        !wsol_buy_available(keypair_address(payer), *mint, create_ata) ==> r matches Err(
            TradingEndpointError::InstructionBuildError(_),
        ),
{
    let owner = keypair_pubkey(payer);
    let wsol = wsol_mint();
    let ghost wanted = spec_token_account_instructions(owner, *mint, create_ata);
    let mut instructions: Vec<Instruction> = match create_ata {
        CreateATA::CreateWithSeed(seed) => {
            match build_seeded_token_address(&owner, mint, seed.as_str()) {
                Ok((_, seeded)) => seeded,
                Err(e) => {
                    return Err(e);
                },
            }
        },
        CreateATA::Create => {
            if !has_associated_address(&owner, mint) {
                return unavailable("no associated token address");
            }
            let mut first: Vec<Instruction> = Vec::new();
            first.push(create_associated_token_account(&owner, &owner, mint));
            first
        },
        CreateATA::Idempotent => {
            if !has_associated_address(&owner, mint) {
                return unavailable("no associated token address");
            }
            let mut first: Vec<Instruction> = Vec::new();
            first.push(create_associated_token_account_idempotent(&owner, &owner, mint));
            first
        },
        CreateATA::NoCreate => Vec::new(),
    };
    proof {
        assert(instructions@ =~= wanted);
    }
    if !has_associated_address(&owner, &wsol) {
        return unavailable("no wrapped SOL address");
    }
    instructions.push(create_associated_token_account_idempotent(&owner, &owner, &wsol));
    let wsol_ata = get_associated_token_address(&owner, &wsol);
    instructions.push(transfer(&owner, &wsol_ata, amount_sol));
    match sync_native(&wsol_ata) {
        Some(sync) => instructions.push(sync),
        None => {
            return unavailable("token program refused");
        },
    }
    instructions.push(buy_instruction);
    match close_account(&wsol_ata, &owner, &owner, &owner) {
        Some(close) => instructions.push(close),
        None => {
            return unavailable("token program refused");
        },
    }
    proof {
        assert(instructions@ =~= spec_wsol_buy_instructions(
            owner,
            *mint,
            amount_sol,
            buy_instruction,
            create_ata,
        ));
    }
    Ok(instructions)
}

/// The instructions of a sell paid out in wrapped SOL. The seller's token
/// account and the wrapped-SOL account both need an address; without one
/// it is an error.
pub fn build_wsol_sell_instructions(
    payer: &Keypair,
    mint: &Pubkey,
    sell_instruction: Instruction,
    close_mint_ata: bool,
) -> (r: Result<Vec<Instruction>, TradingEndpointError>)
    ensures
        associated_address_exists(keypair_address(payer), *mint) && associated_address_exists(
            keypair_address(payer),
            spec_wsol_mint(),
        ) ==> r is Ok && r->Ok_0@ == spec_wsol_sell_instructions(
            keypair_address(payer),
            *mint,
            sell_instruction,
            close_mint_ata,
        ),
        !(associated_address_exists(keypair_address(payer), *mint) && associated_address_exists(
            keypair_address(payer),
            spec_wsol_mint(),
        )) ==> r matches Err(TradingEndpointError::InstructionBuildError(_)),
{
    let owner = keypair_pubkey(payer);
    let wsol = wsol_mint();
    if !has_associated_address(&owner, mint) {
        return unavailable("no associated token address");
    }
    if !has_associated_address(&owner, &wsol) {
        return unavailable("no wrapped SOL address");
    }
    let mint_ata = get_associated_token_address(&owner, mint);
    let wsol_ata = get_associated_token_address(&owner, &wsol);
    let mut instructions: Vec<Instruction> = Vec::new();
    instructions.push(create_associated_token_account_idempotent(&owner, &owner, &wsol));
    instructions.push(sell_instruction);
    match close_account(&wsol_ata, &owner, &owner, &owner) {
        Some(close) => instructions.push(close),
        None => {
            return unavailable("token program refused");
        },
    }
    if close_mint_ata {
        match close_account(&mint_ata, &owner, &owner, &owner) {
            Some(close) => instructions.push(close),
            None => {
                return unavailable("token program refused");
            },
        }
    }
    proof {
        assert(instructions@ =~= spec_wsol_sell_instructions(
            owner,
            *mint,
            sell_instruction,
            close_mint_ata,
        ));
    }
    Ok(instructions)
}

} // verus!
