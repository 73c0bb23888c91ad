//! Calls into the token program's and the associated-token-account
//! program's instruction builders. Verus takes every contract in this file
//! on trust.

use vstd::prelude::*;
use solana_sdk::instruction::Instruction;
use solana_sdk::pubkey::Pubkey;

verus! {

/// Whether the associated token account of `wallet` for `mint` has an
/// address: whether some bump seed gives an address off the curve.
pub uninterp spec fn associated_address_exists(wallet: Pubkey, mint: Pubkey) -> bool;

/// The address of the associated token account of `wallet` for `mint`
/// under the token program.
pub uninterp spec fn associated_address(wallet: Pubkey, mint: Pubkey) -> Pubkey;

/// The instruction that creates the associated token account of `wallet`
/// for `mint`, paid by `funder`, and fails where the account exists.
pub uninterp spec fn create_account_instruction(
    funder: Pubkey,
    wallet: Pubkey,
    mint: Pubkey,
) -> Instruction;

/// The instruction that creates the associated token account of `wallet`
/// for `mint`, paid by `funder`, and does nothing where the account exists.
pub uninterp spec fn create_account_idempotent_instruction(
    funder: Pubkey,
    wallet: Pubkey,
    mint: Pubkey,
) -> Instruction;

/// The token-program instruction that closes `account` and sends its
/// lamports to `destination`, on the authority of `owner` with `signer`
/// listed as the signing key.
pub uninterp spec fn close_account_instruction(
    account: Pubkey,
    destination: Pubkey,
    owner: Pubkey,
    signer: Pubkey,
) -> Instruction;

/// The token-program instruction that brings the token balance of a
/// wrapped-SOL account up to its lamports.
pub uninterp spec fn sync_native_instruction(account: Pubkey) -> Instruction;

/// The token-program instruction that initialises `account` as a token
/// account of `owner` for `mint`.
pub uninterp spec fn initialize_account_instruction(
    account: Pubkey,
    mint: Pubkey,
    owner: Pubkey,
) -> Instruction;

/// The address derived from `base` and `seed` for an account owned by the
/// token program, where the seed is short enough to have one.
pub uninterp spec fn seeded_token_address(base: Pubkey, seed: Seq<char>) -> Option<Pubkey>;

/// The system-program instruction that creates the account `to`, derived
/// from `base` and `seed`, owned by the token program, with `lamports` and
/// `space` bytes, paid by `from`.
pub uninterp spec fn create_seeded_account_instruction(
    from: Pubkey,
    to: Pubkey,
    base: Pubkey,
    seed: Seq<char>,
    lamports: u64,
    space: u64,
) -> Instruction;

/// Calls `Pubkey::try_find_program_address` with the seeds and the program
/// from which `get_associated_token_address` derives an address, and says
/// whether it found one.
#[verifier::external_body]
pub(crate) fn has_associated_address(wallet: &Pubkey, mint: &Pubkey) -> (r: bool)
    ensures
        r == associated_address_exists(*wallet, *mint),
{
    Pubkey::try_find_program_address(
        &[wallet.as_ref(), spl_token::ID.as_ref(), mint.as_ref()],
        &spl_associated_token_account::ID,
    ).is_some()
}

/// Calls `get_associated_token_address`, which stops the program where the
/// derivation finds no address; `requires` leaves that out.
#[verifier::external_body]
pub(crate) fn get_associated_token_address(wallet: &Pubkey, mint: &Pubkey) -> (r: Pubkey)
    requires
        associated_address_exists(*wallet, *mint),
    ensures
        r == associated_address(*wallet, *mint),
{
    spl_associated_token_account::get_associated_token_address(wallet, mint)
}

/// Calls `create_associated_token_account` for the token program. It
/// derives the account's address and stops the program where there is
/// none; `requires` leaves that out.
#[verifier::external_body]
pub(crate) fn create_associated_token_account(
    funder: &Pubkey,
    wallet: &Pubkey,
    mint: &Pubkey,
) -> (r: Instruction)
    requires
        associated_address_exists(*wallet, *mint),
    ensures
        r == create_account_instruction(*funder, *wallet, *mint),
{
    spl_associated_token_account::instruction::create_associated_token_account(
        funder,
        wallet,
        mint,
        &spl_token::ID,
    )
}

/// Calls `create_associated_token_account_idempotent` for the token
/// program. It derives the account's address and stops the program where
/// there is none; `requires` leaves that out.
#[verifier::external_body]
pub(crate) fn create_associated_token_account_idempotent(
    funder: &Pubkey,
    wallet: &Pubkey,
    mint: &Pubkey,
) -> (r: Instruction)
    requires
        associated_address_exists(*wallet, *mint),
    ensures
        r == create_account_idempotent_instruction(*funder, *wallet, *mint),
{
    spl_associated_token_account::instruction::create_associated_token_account_idempotent(
        funder,
        wallet,
        mint,
        &spl_token::ID,
    )
}

/// Calls `spl_token::instruction::close_account` for the token program
/// with one signing key. The call fails only for a foreign program
/// address, so with the token program's own it gives an instruction.
#[verifier::external_body]
pub(crate) fn close_account(
    account: &Pubkey,
    destination: &Pubkey,
    owner: &Pubkey,
    signer: &Pubkey,
) -> (r: Option<Instruction>)
    ensures
        r == Some(close_account_instruction(*account, *destination, *owner, *signer)),
{
    spl_token::instruction::close_account(&spl_token::ID, account, destination, owner, &[signer]).ok()
}

/// Calls `spl_token::instruction::sync_native` for the token program. The
/// call fails only for a foreign program address, so with the token
/// program's own it gives an instruction.
#[verifier::external_body]
pub(crate) fn sync_native(account: &Pubkey) -> (r: Option<Instruction>)
    ensures
        r == Some(sync_native_instruction(*account)),
{
    spl_token::instruction::sync_native(&spl_token::ID, account).ok()
}

/// Calls `spl_token::instruction::initialize_account3` for the token
/// program. The call fails only for a foreign program address, so with the
/// token program's own it gives an instruction.
#[verifier::external_body]
pub(crate) fn initialize_account3(account: &Pubkey, mint: &Pubkey, owner: &Pubkey) -> (r: Option<
    Instruction,
>)
    ensures
        r == Some(initialize_account_instruction(*account, *mint, *owner)),
{
    spl_token::instruction::initialize_account3(&spl_token::ID, account, mint, owner).ok()
}

/// Calls `Pubkey::create_with_seed` with the token program as the owner.
/// It gives no address for a seed that is too long.
#[verifier::external_body]
pub(crate) fn create_with_seed(base: &Pubkey, seed: &str) -> (r: Option<Pubkey>)
    ensures
        r == seeded_token_address(*base, seed@),
{
    Pubkey::create_with_seed(base, seed, &spl_token::ID).ok()
}

/// Calls `system_instruction::create_account_with_seed` with the token
/// program as the owner of the new account.
#[verifier::external_body]
pub(crate) fn create_account_with_seed(
    from: &Pubkey,
    to: &Pubkey,
    base: &Pubkey,
    seed: &str,
    lamports: u64,
    space: u64,
) -> (r: Instruction)
    ensures
        r == create_seeded_account_instruction(*from, *to, *base, seed@, lamports, space),
{
    solana_sdk::system_instruction::create_account_with_seed(
        from,
        to,
        base,
        seed,
        lamports,
        space,
        &spl_token::ID,
    )
}

} // verus!
