//! The ledger's own types and the calls into its SDK. Verus takes every
//! contract in this file on trust: each is a statement about code that it
//! does not read.

use vstd::prelude::*;
use solana_sdk::hash::Hash as Blockhash;
use solana_sdk::instruction::Instruction;
use solana_sdk::message::CompileError;
use solana_sdk::pubkey::Pubkey;
use solana_sdk::signature::Keypair;
use solana_sdk::signature::Signature;
use solana_sdk::signer::Signer;
use solana_sdk::signer::SignerError;
use solana_sdk::transaction::Transaction as LegacyTransaction;
use solana_sdk::transaction::VersionedTransaction;

verus! {

/// An account address of the ledger, carried as an opaque value.
#[verifier::external_type_specification]
#[verifier::external_body]
pub struct ExPubkey(solana_sdk::pubkey::Pubkey);

/// One instruction of a transaction, carried as an opaque value.
#[verifier::external_type_specification]
#[verifier::external_body]
pub struct ExInstruction(solana_sdk::instruction::Instruction);

/// A recent block's hash, carried as an opaque value.
#[verifier::external_type_specification]
#[verifier::external_body]
pub struct ExHash(solana_sdk::hash::Hash);

/// A signing key pair, carried as an opaque value.
#[verifier::external_type_specification]
#[verifier::external_body]
pub struct ExKeypair(solana_sdk::signature::Keypair);

/// A transaction signature, carried as an opaque value.
#[verifier::external_type_specification]
#[verifier::external_body]
pub struct ExSignature(solana_sdk::signature::Signature);

/// The error of a conversion from a slice to an array, which the SDK's
/// conversions to a signature name.
#[verifier::external_type_specification]
#[verifier::external_body]
pub struct ExTryFromSliceError(core::array::TryFromSliceError);

/// A signed transaction in the legacy wire format.
#[verifier::external_type_specification]
#[verifier::external_body]
pub struct ExLegacyTransaction(LegacyTransaction);

/// A signed transaction in the versioned wire format.
#[verifier::external_type_specification]
#[verifier::external_body]
pub struct ExVersionedTransaction(solana_sdk::transaction::VersionedTransaction);

/// Why signing failed.
#[verifier::external_type_specification]
#[verifier::external_body]
pub struct ExSignerError(solana_sdk::signer::SignerError);

/// Why a versioned message could not be compiled.
#[verifier::external_type_specification]
#[verifier::external_body]
pub struct ExCompileError(solana_sdk::message::CompileError);

/// Why a versioned transaction could not be built: its message did not
/// compile, or it could not be signed.
pub enum VersionedFailure {
    Compile(CompileError),
    Sign(SignerError),
}

/// The address whose 32 bytes are `bytes`.
pub uninterp spec fn address_of(bytes: Seq<u8>) -> Pubkey;

/// The address that a key pair signs for.
pub uninterp spec fn keypair_address(keypair: &Keypair) -> Pubkey;

/// The compute-budget instruction that sets the price of a compute unit.
pub uninterp spec fn compute_unit_price_instruction(micro_lamports: u64) -> Instruction;

/// The compute-budget instruction that sets the limit of compute units.
pub uninterp spec fn compute_unit_limit_instruction(units: u32) -> Instruction;

/// The system-program instruction that moves `lamports` from `from` to `to`.
pub uninterp spec fn transfer_instruction(from: Pubkey, to: Pubkey, lamports: u64) -> Instruction;

/// The number of accounts that an instruction lists.
pub uninterp spec fn account_count(instruction: Instruction) -> nat;

/// The number of bytes of an instruction's data.
pub uninterp spec fn data_len(instruction: Instruction) -> nat;

/// The outcome of compiling `instructions` into a legacy message paid by
/// `payer` and signing it with `signers` over `blockhash`.
pub uninterp spec fn legacy_signed(
    payer: Pubkey,
    instructions: Seq<Instruction>,
    signers: Seq<&Keypair>,
    blockhash: Blockhash,
) -> Result<LegacyTransaction, SignerError>;

/// The outcome of compiling `instructions` into a version-0 message paid by
/// `payer`, with no address lookup table, and signing it with `signers`.
pub uninterp spec fn versioned_signed(
    payer: Pubkey,
    instructions: Seq<Instruction>,
    signers: Seq<&Keypair>,
    blockhash: Blockhash,
) -> Result<VersionedTransaction, VersionedFailure>;

/// The signatures that a legacy transaction carries, in order.
pub uninterp spec fn legacy_signatures(transaction: LegacyTransaction) -> Seq<Signature>;

/// The signatures that a versioned transaction carries, in order.
pub uninterp spec fn versioned_signatures(transaction: VersionedTransaction) -> Seq<Signature>;

/// The program that an instruction calls.
pub uninterp spec fn program_of(instruction: Instruction) -> Pubkey;

/// The account at `index` of those that an instruction lists.
pub uninterp spec fn account_key(instruction: Instruction, index: int) -> Pubkey;

/// The accounts that an instruction names: its program, then the accounts
/// it lists, in order and with repetitions.
pub open spec fn instruction_keys(instruction: Instruction) -> Seq<Pubkey> {
    seq![program_of(instruction)] + Seq::new(
        account_count(instruction),
        |j: int| account_key(instruction, j),
    )
}

/// The accounts that a message names: the payer, then those of each
/// instruction, in order and with repetitions.
pub open spec fn message_keys(payer: Pubkey, instructions: Seq<Instruction>) -> Seq<Pubkey>
    decreases instructions.len(),
{
    if instructions.len() == 0 {
        seq![payer]
    } else {
        message_keys(payer, instructions.drop_last()) + instruction_keys(instructions.last())
    }
}

/// The number of different accounts that a message names.
pub open spec fn distinct_key_count(payer: Pubkey, instructions: Seq<Instruction>) -> nat {
    message_keys(payer, instructions).to_set().len()
}

/// Whether every length of `instructions` fits the 16-bit length prefix of
/// the wire format.
pub open spec fn encodable(instructions: Seq<Instruction>) -> bool {
    &&& instructions.len() <= 0xffff
    &&& forall|i: int|
        0 <= i < instructions.len() ==> account_count(#[trigger] instructions[i]) <= 0xffff
            && data_len(instructions[i]) <= 0xffff
}

/// Calls `Pubkey::new_from_array`: the address is a function of its bytes.
#[verifier::external_body]
pub(crate) fn pubkey_from_bytes(bytes: [u8; 32]) -> (r: Pubkey)
    ensures
        r == address_of(bytes@),
{
    Pubkey::new_from_array(bytes)
}

/// Calls `Signer::pubkey` on a key pair, which cannot fail: the address is
/// derived from the pair's public key.
#[verifier::external_body]
pub(crate) fn keypair_pubkey(keypair: &Keypair) -> (r: Pubkey)
    ensures
        r == keypair_address(keypair),
{
    keypair.pubkey()
}

/// Calls `ComputeBudgetInstruction::set_compute_unit_price`.
#[verifier::external_body]
pub(crate) fn set_compute_unit_price(micro_lamports: u64) -> (r: Instruction)
    ensures
        r == compute_unit_price_instruction(micro_lamports),
{
    solana_sdk::compute_budget::ComputeBudgetInstruction::set_compute_unit_price(micro_lamports)
}

/// Calls `ComputeBudgetInstruction::set_compute_unit_limit`.
#[verifier::external_body]
pub(crate) fn set_compute_unit_limit(units: u32) -> (r: Instruction)
    ensures
        r == compute_unit_limit_instruction(units),
{
    solana_sdk::compute_budget::ComputeBudgetInstruction::set_compute_unit_limit(units)
}

/// Calls `system_instruction::transfer`.
#[verifier::external_body]
pub(crate) fn transfer(from: &Pubkey, to: &Pubkey, lamports: u64) -> (r: Instruction)
    ensures
        r == transfer_instruction(*from, *to, lamports),
{
    solana_sdk::system_instruction::transfer(from, to, lamports)
}

/// Reads the length of an instruction's `accounts`.
#[verifier::external_body]
pub(crate) fn instruction_account_count(instruction: &Instruction) -> (r: usize)
    ensures
        r == account_count(*instruction),
{
    instruction.accounts.len()
}

/// Reads the length of an instruction's `data`.
#[verifier::external_body]
pub(crate) fn instruction_data_len(instruction: &Instruction) -> (r: usize)
    ensures
        r == data_len(*instruction),
{
    instruction.data.len()
}

/// Reads an instruction's `program_id`.
#[verifier::external_body]
pub(crate) fn instruction_program(instruction: &Instruction) -> (r: Pubkey)
    ensures
        r == program_of(*instruction),
{
    instruction.program_id
}

/// Reads the address of the account at `index` of an instruction's
/// `accounts`.
#[verifier::external_body]
pub(crate) fn instruction_account(instruction: &Instruction, index: usize) -> (r: Pubkey)
    requires
        index < account_count(*instruction),
    ensures
        r == account_key(*instruction, index as int),
{
    instruction.accounts[index].pubkey
}

/// Calls `==` of two addresses, which compares their 32 bytes: two
/// addresses are equal exactly when they are the same address.
#[verifier::external_body]
pub(crate) fn same_address(a: &Pubkey, b: &Pubkey) -> (r: bool)
    ensures
        r == (*a == *b),
{
    a == b
}

/// Calls `Instruction::clone`, which copies the program, the accounts and
/// the data.
#[verifier::external_body]
pub(crate) fn clone_instruction(instruction: &Instruction) -> (r: Instruction)
    ensures
        r == *instruction,
{
    instruction.clone()
}

/// Calls `Message::new`, `Transaction::new_unsigned` and
/// `Transaction::try_sign`. `Message::new` stops the program when a message
/// has more than 255 signers or more than 255 read-only accounts, which a
/// message that names at most 255 different accounts cannot have; signing
/// stops it when a length of the message does not fit its 16-bit prefix.
/// `requires` leaves both out. A transaction that comes back signed carries
/// one signature for each required signer, the payer among them.
#[verifier::external_body]
pub(crate) fn sign_legacy(
    payer: &Pubkey,
    instructions: &Vec<Instruction>,
    signers: &Vec<&Keypair>,
    blockhash: &Blockhash,
) -> (r: Result<LegacyTransaction, SignerError>)
    requires
        distinct_key_count(*payer, instructions@) <= 255,
        encodable(instructions@),
    ensures
        r == legacy_signed(*payer, instructions@, signers@, *blockhash),
        r is Ok ==> legacy_signatures(r->Ok_0).len() >= 1,
{
    let message = solana_sdk::message::Message::new(instructions, Some(payer));
    let mut transaction = LegacyTransaction::new_unsigned(message);
    transaction.try_sign(signers, *blockhash)?;
    Ok(transaction)
}

/// Calls `v0::Message::try_compile` with no address lookup table and
/// `VersionedTransaction::try_new`. Signing stops the program when the
/// message cannot be encoded; `requires` leaves that out. A transaction that
/// comes back carries one signature for each required signer, the payer
/// among them.
#[verifier::external_body]
pub(crate) fn sign_versioned(
    payer: &Pubkey,
    instructions: &Vec<Instruction>,
    signers: &Vec<&Keypair>,
    blockhash: &Blockhash,
) -> (r: Result<VersionedTransaction, VersionedFailure>)
    requires
        encodable(instructions@),
    ensures
        r == versioned_signed(*payer, instructions@, signers@, *blockhash),
        r is Ok ==> versioned_signatures(r->Ok_0).len() >= 1,
{
    match solana_sdk::message::v0::Message::try_compile(payer, instructions, &[], *blockhash) {
        Err(e) => Err(VersionedFailure::Compile(e)),
        Ok(message) => VersionedTransaction::try_new(
            solana_sdk::message::VersionedMessage::V0(message),
            signers,
        ).map_err(VersionedFailure::Sign),
    }
}

/// Reads the first of a legacy transaction's `signatures`, where there is
/// one.
#[verifier::external_body]
pub(crate) fn legacy_first_signature(transaction: &LegacyTransaction) -> (r: Option<Signature>)
    ensures
        legacy_signatures(*transaction).len() == 0 ==> r is None,
        legacy_signatures(*transaction).len() > 0 ==> r == Some(legacy_signatures(*transaction)[0]),
{
    transaction.signatures.first().copied()
}

/// Reads the first of a versioned transaction's `signatures`, where there
/// is one.
#[verifier::external_body]
pub(crate) fn versioned_first_signature(transaction: &VersionedTransaction) -> (r: Option<
    Signature,
>)
    ensures
        versioned_signatures(*transaction).len() == 0 ==> r is None,
        versioned_signatures(*transaction).len() > 0 ==> r == Some(
            versioned_signatures(*transaction)[0],
        ),
{
    transaction.signatures.first().copied()
}

/// Calls `SignerError::to_string`.
#[verifier::external_body]
pub(crate) fn describe_signer_error(error: &SignerError) -> (r: String) {
    error.to_string()
}

/// Calls `CompileError::to_string`.
#[verifier::external_body]
pub(crate) fn describe_compile_error(error: &CompileError) -> (r: String) {
    error.to_string()
}

/// The bytes of a legacy transaction in the wire format, where it has an
/// encoding.
pub uninterp spec fn legacy_wire_bytes(transaction: LegacyTransaction) -> Option<Seq<u8>>;

/// The bytes of a versioned transaction in the wire format, where it has an
/// encoding.
pub uninterp spec fn versioned_wire_bytes(transaction: VersionedTransaction) -> Option<Seq<u8>>;

/// The standard base64 text of `bytes`, with padding.
pub uninterp spec fn base64_standard(bytes: Seq<u8>) -> Seq<char>;

/// Calls `bincode::serialize` on a legacy transaction.
#[verifier::external_body]
pub(crate) fn serialize_legacy(transaction: &LegacyTransaction) -> (r: Option<Vec<u8>>)
    ensures
        r is Some ==> legacy_wire_bytes(*transaction) == Some(r->Some_0@),
        r is None ==> legacy_wire_bytes(*transaction) is None,
{
    bincode::serialize(transaction).ok()
}

/// Calls `bincode::serialize` on a versioned transaction.
#[verifier::external_body]
pub(crate) fn serialize_versioned(transaction: &VersionedTransaction) -> (r: Option<Vec<u8>>)
    ensures
        r is Some ==> versioned_wire_bytes(*transaction) == Some(r->Some_0@),
        r is None ==> versioned_wire_bytes(*transaction) is None,
{
    bincode::serialize(transaction).ok()
}

/// Calls `encode` of base64's `STANDARD` engine. The call stops the program
/// when the length of the text does not fit the machine; `requires` leaves
/// that out.
#[verifier::external_body]
pub(crate) fn base64_encode(bytes: &Vec<u8>) -> (r: String)
    requires
        bytes@.len() <= usize::MAX / 4,
    ensures
        r@ == base64_standard(bytes@),
{
    base64::Engine::encode(&base64::engine::general_purpose::STANDARD, bytes)
}

} // verus!
