use vstd::prelude::*;
use solana_sdk::hash::Hash as Blockhash;
use solana_sdk::instruction::Instruction;
use solana_sdk::pubkey::Pubkey;
use solana_sdk::signature::Keypair;
use solana_sdk::signature::Signature;
use solana_sdk::transaction::Transaction as LegacyTransaction;
use solana_sdk::transaction::VersionedTransaction;
use crate::errors::TradingEndpointError;
use crate::sdk::account_count;
use crate::sdk::base64_encode;
use crate::sdk::base64_standard;
use crate::sdk::data_len;
use crate::sdk::describe_compile_error;
use crate::sdk::describe_signer_error;
use crate::sdk::encodable;
use crate::sdk::instruction_account_count;
use crate::sdk::instruction_data_len;
use crate::sdk::distinct_key_count;
use crate::sdk::instruction_account;
use crate::sdk::instruction_keys;
use crate::sdk::instruction_program;
use crate::sdk::message_keys;
use crate::sdk::account_key;
use crate::sdk::program_of;
use crate::sdk::same_address;
use crate::sdk::keypair_address;
use crate::sdk::keypair_pubkey;
use crate::sdk::legacy_first_signature;
use crate::sdk::legacy_signatures;
use crate::sdk::legacy_signed;
use crate::sdk::legacy_wire_bytes;
use crate::sdk::serialize_legacy;
use crate::sdk::serialize_versioned;
use crate::sdk::sign_legacy;
use crate::sdk::sign_versioned;
use crate::sdk::versioned_first_signature;
use crate::sdk::versioned_signatures;
use crate::sdk::versioned_signed;
use crate::sdk::versioned_wire_bytes;
use crate::sdk::VersionedFailure;

verus! {

/// A signed transaction in one of the two wire formats. Once built it is
/// only read: its signatures are part of it.
#[derive(Debug)]
pub enum Transaction {
    Legacy(LegacyTransaction),
    Versioned(VersionedTransaction),
}

/// A signed transaction that can be written as base64 text of its wire
/// format.
pub trait FormatBase64VersionedTransaction {
    /// The standard base64 text of the wire format, where the transaction
    /// has one.
    spec fn spec_base64(&self) -> Option<Seq<char>>;

    /// The base64 text of the transaction, or an error where it cannot be
    /// encoded.
    fn to_base64_string(&self) -> (r: Result<String, TradingEndpointError>)
        ensures
            self.spec_base64() is Some ==> r is Ok && r->Ok_0@ == self.spec_base64()->Some_0,
            self.spec_base64() is None ==> r matches Err(TradingEndpointError::EncodingError(_)),
    ;
}

/// The base64 text of wire bytes that are short enough for the machine to
/// hold their text.
pub open spec fn spec_base64_of(bytes: Option<Seq<u8>>) -> Option<Seq<char>> {
    match bytes {
        Some(b) => if b.len() <= usize::MAX / 4 {
            Some(base64_standard(b))
        } else {
            None
        },
        None => None,
    }
}

fn encode_wire_bytes(bytes: Option<Vec<u8>>) -> (r: Result<String, TradingEndpointError>)
    ensures
        bytes is Some && bytes->Some_0@.len() <= usize::MAX / 4 ==> r is Ok && r->Ok_0@
            == base64_standard(bytes->Some_0@),
        !(bytes is Some && bytes->Some_0@.len() <= usize::MAX / 4) ==> r matches Err(
            TradingEndpointError::EncodingError(_),
        ),
{
    match bytes {
        Some(b) => {
            if b.len() <= usize::MAX / 4 {
                Ok(base64_encode(&b))
            } else {
                Err(TradingEndpointError::EncodingError("transaction too long".to_owned()))
            }
        },
        None => Err(TradingEndpointError::EncodingError("transaction has no encoding".to_owned())),
    }
}

impl FormatBase64VersionedTransaction for VersionedTransaction {
    open spec fn spec_base64(&self) -> Option<Seq<char>> {
        spec_base64_of(versioned_wire_bytes(*self))
    }

    fn to_base64_string(&self) -> (r: Result<String, TradingEndpointError>) {
        encode_wire_bytes(serialize_versioned(self))
    }
}

impl FormatBase64VersionedTransaction for LegacyTransaction {
    open spec fn spec_base64(&self) -> Option<Seq<char>> {
        spec_base64_of(legacy_wire_bytes(*self))
    }

    fn to_base64_string(&self) -> (r: Result<String, TradingEndpointError>) {
        encode_wire_bytes(serialize_legacy(self))
    }
}

impl Transaction {
    /// The signatures that the transaction carries, in order.
    pub open spec fn signatures(self) -> Seq<Signature> {
        match self {
            Transaction::Legacy(t) => legacy_signatures(t),
            Transaction::Versioned(t) => versioned_signatures(t),
        }
    }

    /// The bytes of the transaction in its wire format, where it has an
    /// encoding.
    pub open spec fn wire_bytes(self) -> Option<Seq<u8>> {
        match self {
            Transaction::Legacy(t) => legacy_wire_bytes(t),
            Transaction::Versioned(t) => versioned_wire_bytes(t),
        }
    }

    /// The first signature, by which the ledger knows the transaction. It
    /// is read off the signed value.
    pub fn signature(&self) -> (r: Option<Signature>)
        ensures
            self.signatures().len() == 0 ==> r is None,
            self.signatures().len() > 0 ==> r == Some(self.signatures()[0]),
    {
        match self {
            Transaction::Legacy(t) => legacy_first_signature(t),
            Transaction::Versioned(t) => versioned_first_signature(t),
        }
    }

    /// The base64 text of the transaction's wire format, or an error where
    /// it cannot be encoded.
    pub fn to_base64_string(&self) -> (r: Result<String, TradingEndpointError>)
        ensures
            spec_base64_of(self.wire_bytes()) is Some ==> r is Ok && r->Ok_0@ == spec_base64_of(
                self.wire_bytes(),
            )->Some_0,
            spec_base64_of(self.wire_bytes()) is None ==> r matches Err(
                TradingEndpointError::EncodingError(_),
            ),
    {
        match self {
            Transaction::Legacy(t) => t.to_base64_string(),
            Transaction::Versioned(t) => t.to_base64_string(),
        }
    }
}

/// The signers of a transaction: the payer first, then the others.
pub open spec fn spec_signers<'a>(payer: &'a Keypair, others: Option<Vec<&'a Keypair>>) -> Seq<
    &'a Keypair,
> {
    match others {
        Some(list) => seq![payer] + list@,
        None => seq![payer],
    }
}

/// Whether a legacy message of `instructions` paid by `payer` is within
/// the format's limits: it names at most 255 different accounts, and every
/// length fits its 16-bit prefix.
pub open spec fn fits_legacy(payer: Pubkey, instructions: Seq<Instruction>) -> bool {
    &&& distinct_key_count(payer, instructions) <= 255
    &&& encodable(instructions)
}

proof fn lemma_message_keys_step(payer: Pubkey, instructions: Seq<Instruction>, count: int)
    requires
        0 <= count < instructions.len(),
    ensures
        message_keys(payer, instructions.take(count + 1)) == message_keys(
            payer,
            instructions.take(count),
        ) + instruction_keys(instructions[count]),
{
    let longer = instructions.take(count + 1);
    assert(longer.drop_last() =~= instructions.take(count));
    assert(longer.last() == instructions[count]);
}

/// The accounts that a message names, in order and with repetitions.
fn collect_keys(payer: &Pubkey, instructions: &Vec<Instruction>) -> (r: Vec<Pubkey>)
    ensures
        r@ == message_keys(*payer, instructions@),
{
    let mut keys: Vec<Pubkey> = Vec::new();
    keys.push(*payer);
    let n = instructions.len();
    let mut i: usize = 0;
    proof {
        assert(instructions@.take(0) =~= Seq::<Instruction>::empty());
        assert(keys@ =~= message_keys(*payer, instructions@.take(0)));
    }
    while i < n
        invariant
            n == instructions@.len(),
            i <= n,
            keys@ == message_keys(*payer, instructions@.take(i as int)),
        decreases n - i,
    {
        let instruction = &instructions[i];
        let ghost before = keys@;
        keys.push(instruction_program(instruction));
        let count = instruction_account_count(instruction);
        let mut j: usize = 0;
        proof {
            assert(keys@ =~= before + seq![program_of(*instruction)] + Seq::new(
                0,
                |t: int| account_key(*instruction, t),
            ));
        }
        while j < count
            invariant
                count == account_count(*instruction),
                j <= count,
                keys@ == before + seq![program_of(*instruction)] + Seq::new(
                    j as nat,
                    |t: int| account_key(*instruction, t),
                ),
            decreases count - j,
        {
            keys.push(instruction_account(instruction, j));
            proof {
                assert(keys@ =~= before + seq![program_of(*instruction)] + Seq::new(
                    (j + 1) as nat,
                    |t: int| account_key(*instruction, t),
                ));
            }
            j = j + 1;
        }
        proof {
            lemma_message_keys_step(*payer, instructions@, i as int);
            assert(keys@ =~= before + instruction_keys(*instruction));
        }
        i = i + 1;
    }
    proof {
        assert(instructions@.take(n as int) =~= instructions@);
    }
    keys
}

/// Whether `key` is among `seen`.
fn contains_address(seen: &Vec<Pubkey>, key: &Pubkey) -> (r: bool)
    ensures
        r == seen@.contains(*key),
{
    let mut i: usize = 0;
    while i < seen.len()
        invariant
            i <= seen@.len(),
            forall|j: int| 0 <= j < i ==> seen@[j] != *key,
        decreases seen@.len() - i,
    {
        if same_address(&seen[i], key) {
            return true;
        }
        i = i + 1;
    }
    false
}

/// Whether `keys` holds at most `limit` different addresses.
fn at_most_distinct(keys: &Vec<Pubkey>, limit: usize) -> (r: bool)
    ensures
        r == (keys@.to_set().len() <= limit),
{
    let mut seen: Vec<Pubkey> = Vec::new();
    let n = keys.len();
    let mut k: usize = 0;
    proof {
        assert(seen@.to_set() =~= keys@.take(0).to_set());
    }
    while k < n
        invariant
            n == keys@.len(),
            k <= n,
            seen@.no_duplicates(),
            seen@.len() <= limit,
            seen@.to_set() == keys@.take(k as int).to_set(),
        decreases n - k,
    {
        let key = keys[k];
        let known = contains_address(&seen, &key);
        proof {
            assert(keys@.take(k as int + 1) =~= keys@.take(k as int).push(key));
            keys@.take(k as int).lemma_push_to_set_commute(key);
            seen@.lemma_push_to_set_commute(key);
        }
        if !known {
            if seen.len() == limit {
                proof {
                    let more = seen@.push(key);
                    assert(more.no_duplicates());
                    more.unique_seq_to_set();
                    let part = keys@.take(k as int + 1).to_set();
                    assert(more.to_set() =~= part);
                    assert(part.subset_of(keys@.to_set())) by {
                        assert forall|x: Pubkey| part.contains(x) implies keys@.to_set().contains(
                            x,
                        ) by {
                            let prefix = keys@.take(k as int + 1);
                            assert(prefix.contains(x));
                            let at = choose|at: int| 0 <= at < prefix.len() && prefix[at] == x;
                            assert(keys@[at] == x);
                        }
                    }
                    vstd::seq_lib::seq_to_set_is_finite(keys@);
                    vstd::set_lib::lemma_len_subset(part, keys@.to_set());
                }
                return false;
            }
            seen.push(key);
        } else {
            proof {
                assert(seen@.to_set().insert(key) =~= seen@.to_set());
            }
        }
        k = k + 1;
    }
    proof {
        assert(keys@.take(n as int) =~= keys@);
        seen@.unique_seq_to_set();
    }
    true
}

fn check_fits_legacy(payer: &Pubkey, instructions: &Vec<Instruction>) -> (r: bool)
    ensures
        r == fits_legacy(*payer, instructions@),
{
    if !check_encodable(instructions) {
        return false;
    }
    let keys = collect_keys(payer, instructions);
    at_most_distinct(&keys, 255)
}

fn check_encodable(instructions: &Vec<Instruction>) -> (r: bool)
    ensures
        r == encodable(instructions@),
{
    let n = instructions.len();
    if n > 0xffff {
        return false;
    }
    let mut i: usize = 0;
    while i < n
        invariant
            n == instructions@.len(),
            i <= n,
            forall|j: int|
                0 <= j < i ==> account_count(#[trigger] instructions@[j]) <= 0xffff && data_len(
                    instructions@[j],
                ) <= 0xffff,
        decreases n - i,
    {
        if instruction_account_count(&instructions[i]) > 0xffff {
            return false;
        }
        if instruction_data_len(&instructions[i]) > 0xffff {
            return false;
        }
        i = i + 1;
    }
    true
}

/// The signers of a transaction as one list: the payer, then the others.
pub fn collect_signers<'a>(payer: &'a Keypair, others: Option<Vec<&'a Keypair>>) -> (r: Vec<
    &'a Keypair,
>)
    ensures
        r@ == spec_signers(payer, others),
{
    let mut signers: Vec<&'a Keypair> = Vec::new();
    signers.push(payer);
    match others {
        Some(list) => {
            let mut i: usize = 0;
            while i < list.len()
                invariant
                    i <= list@.len(),
                    signers@ == seq![payer] + list@.take(i as int),
                decreases list@.len() - i,
            {
                signers.push(list[i]);
                proof {
                    assert(list@.take(i as int + 1) =~= list@.take(i as int).push(list@[i as int]));
                    assert(signers@ =~= seq![payer] + list@.take(i as int + 1));
                }
                i = i + 1;
            }
            proof {
                assert(list@.take(list@.len() as int) =~= list@);
            }
            signers
        },
        None => signers,
    }
}

/// The signed version-0 transaction of `instructions`, where they fit the
/// wire format, compile and can be signed.
pub open spec fn spec_versioned_transaction(
    payer: Pubkey,
    instructions: Seq<Instruction>,
    signers: Seq<&Keypair>,
    blockhash: Blockhash,
) -> Option<Transaction> {
    if encodable(instructions) {
        match versioned_signed(payer, instructions, signers, blockhash) {
            Ok(signed) => Some(Transaction::Versioned(signed)),
            Err(_) => None,
        }
    } else {
        None
    }
}

/// The signed legacy transaction of `instructions`, where they fit the
/// format's limits and can be signed.
pub open spec fn spec_legacy_transaction(
    payer: Pubkey,
    instructions: Seq<Instruction>,
    signers: Seq<&Keypair>,
    blockhash: Blockhash,
) -> Option<Transaction> {
    if fits_legacy(payer, instructions) {
        match legacy_signed(payer, instructions, signers, blockhash) {
            Ok(signed) => Some(Transaction::Legacy(signed)),
            Err(_) => None,
        }
    } else {
        None
    }
}

/// Compiles `instructions` into a version-0 message paid by `payer` and
/// signs it with `signers`, the payer among them.
pub fn sign_transaction(
    payer: &Keypair,
    instructions: Vec<Instruction>,
    blockhash: Blockhash,
    signers: &Vec<&Keypair>,
) -> (r: Result<Transaction, TradingEndpointError>)
    ensures
        match spec_versioned_transaction(
            keypair_address(payer),
            instructions@,
            signers@,
            blockhash,
        ) {
            Some(signed) => r is Ok && r->Ok_0 == signed && signed.signatures().len() >= 1,
            None => r matches Err(TradingEndpointError::SigningError(_)),
        },
{
    if !check_encodable(&instructions) {
        return Err(TradingEndpointError::SigningError("instructions too long".to_owned()));
    }
    let owner = keypair_pubkey(payer);
    match sign_versioned(&owner, &instructions, signers, &blockhash) {
        Ok(signed) => Ok(Transaction::Versioned(signed)),
        Err(VersionedFailure::Compile(e)) => Err(
            TradingEndpointError::SigningError(describe_compile_error(&e)),
        ),
        Err(VersionedFailure::Sign(e)) => Err(
            TradingEndpointError::SigningError(describe_signer_error(&e)),
        ),
    }
}

/// Compiles `instructions` into a legacy message paid by `payer` and signs
/// it with `signers`, the payer among them.
pub fn sign_legacy_transaction(
    payer: &Keypair,
    instructions: Vec<Instruction>,
    blockhash: Blockhash,
    signers: &Vec<&Keypair>,
) -> (r: Result<Transaction, TradingEndpointError>)
    ensures
        match spec_legacy_transaction(keypair_address(payer), instructions@, signers@, blockhash) {
            Some(signed) => r is Ok && r->Ok_0 == signed && signed.signatures().len() >= 1,
            None => r matches Err(TradingEndpointError::SigningError(_)),
        },
{
    let owner = keypair_pubkey(payer);
    if !check_fits_legacy(&owner, &instructions) {
        return Err(TradingEndpointError::SigningError("too many accounts".to_owned()));
    }
    match sign_legacy(&owner, &instructions, signers, &blockhash) {
        Ok(signed) => Ok(Transaction::Legacy(signed)),
        Err(e) => Err(TradingEndpointError::SigningError(describe_signer_error(&e))),
    }
}

/// Builds the signed version-0 transaction of `instructions`, paid by
/// `payer` and signed by the payer and `other_signers`. Instructions beyond
/// the wire format's lengths, a message that does not compile and a failed
/// signing are errors.
pub fn build_transaction<'a>(
    payer: &'a Keypair,
    instructions: Vec<Instruction>,
    blockhash: Blockhash,
    other_signers: Option<Vec<&'a Keypair>>,
) -> (r: Result<Transaction, TradingEndpointError>)
    ensures
        match spec_versioned_transaction(
            keypair_address(payer),
            instructions@,
            spec_signers(payer, other_signers),
            blockhash,
        ) {
            Some(signed) => r is Ok && r->Ok_0 == signed && signed.signatures().len() >= 1,
            None => r matches Err(TradingEndpointError::SigningError(_)),
        },
{
    let signers = collect_signers(payer, other_signers);
    sign_transaction(payer, instructions, blockhash, &signers)
}

/// Builds the signed legacy transaction of `instructions`, paid by `payer`
/// and signed by the payer and `other_signers`. Instructions beyond the
/// format's limits and a failed signing are errors.
pub fn build_legacy_transaction<'a>(
    payer: &'a Keypair,
    instructions: Vec<Instruction>,
    blockhash: Blockhash,
    other_signers: Option<Vec<&'a Keypair>>,
) -> (r: Result<Transaction, TradingEndpointError>)
    ensures
        match spec_legacy_transaction(
            keypair_address(payer),
            instructions@,
            spec_signers(payer, other_signers),
            blockhash,
        ) {
            Some(signed) => r is Ok && r->Ok_0 == signed && signed.signatures().len() >= 1,
            None => r matches Err(TradingEndpointError::SigningError(_)),
        },
{
    let signers = collect_signers(payer, other_signers);
    sign_legacy_transaction(payer, instructions, blockhash, &signers)
}

} // verus!
