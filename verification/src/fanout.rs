use vstd::prelude::*;
use solana_sdk::hash::Hash as Blockhash;
use solana_sdk::instruction::Instruction;
use solana_sdk::pubkey::Pubkey;
use solana_sdk::signature::Keypair;
use solana_sdk::signature::Signature;
use crate::endpoint::spec_assembled;
use crate::endpoint::spec_fee;
use crate::endpoint::spec_tip;
use crate::endpoint::TradingEndpoint;
use crate::errors::TradingEndpointError;
use crate::endpoint::BatchTxItem;
use crate::fee::PriorityFee;
use crate::fee::TipFee;
use vstd::string::StringExecFns;
use crate::sdk::keypair_address;
use crate::transaction::collect_signers;
use crate::transaction::sign_legacy_transaction;
use crate::transaction::sign_transaction;
use crate::transaction::spec_versioned_transaction;
use crate::transaction::spec_legacy_transaction;
use crate::transaction::spec_signers;
use crate::transaction::Transaction;
use crate::types::TransactionType;

verus! {

/// The signed transactions of one call, one for each runtime and in the
/// runtimes' order, with the signature of each. The signatures are read off
/// the transactions before anything is submitted.
pub struct PreparedBroadcast {
    pub signatures: Vec<Signature>,
    pub transactions: Vec<Transaction>,
}

/// What one call hands to every runtime's transaction.
pub struct BroadcastRequest<'a> {
    pub tx_type: TransactionType,
    pub payer: &'a Keypair,
    pub instructions: Seq<Instruction>,
    pub nonce_ix: Option<Instruction>,
    pub blockhashes: Seq<Blockhash>,
    pub additional_fee: Option<PriorityFee>,
    pub additional_tip: u64,
    pub signers: Seq<&'a Keypair>,
}

impl TradingEndpoint {
    /// Whether `accounts` can be what the runtimes' clients picked as tip
    /// accounts: one entry for each runtime, none for a client without tip
    /// accounts, and one of the client's accounts otherwise.
    pub open spec fn spec_drawn(self, accounts: Seq<Option<Pubkey>>) -> bool {
        &&& accounts.len() == self.swqos@.len()
        &&& forall|i: int|
            0 <= i < accounts.len() ==> {
                let pool = self.swqos@[i].client.tip_accounts@;
                if pool.len() == 0 {
                    (#[trigger] accounts[i]) is None
                } else {
                    accounts[i] is Some && pool.contains(accounts[i]->Some_0)
                }
            }
    }

    /// The instructions of the transaction for the runtime at `index`, or
    /// the error of its tip.
    pub open spec fn spec_runtime_instructions(
        self,
        index: int,
        tip_account: Option<Pubkey>,
        request: BroadcastRequest,
    ) -> Result<Seq<Instruction>, TradingEndpointError> {
        match spec_tip(self.swqos@[index], tip_account, request.tx_type, request.additional_tip) {
            Err(e) => Err(e),
            Ok(tip) => Ok(
                spec_assembled(
                    request.nonce_ix,
                    spec_fee(self.swqos@[index].config, request.tx_type, request.additional_fee),
                    keypair_address(request.payer),
                    tip,
                    request.instructions,
                ),
            ),
        }
    }

    /// The signed transaction for the runtime at `index`, where it can be
    /// built. Runtimes take the block hashes in turn.
    pub open spec fn spec_runtime_transaction(
        self,
        index: int,
        tip_account: Option<Pubkey>,
        request: BroadcastRequest,
    ) -> Option<Transaction> {
        if request.blockhashes.len() == 0 {
            None
        } else {
            match self.spec_runtime_instructions(index, tip_account, request) {
                Err(_) => None,
                Ok(instructions) => spec_legacy_transaction(
                    keypair_address(request.payer),
                    instructions,
                    request.signers,
                    request.blockhashes[index % (request.blockhashes.len() as int)],
                ),
            }
        }
    }

    /// Whether `error` is what building the transaction for the runtime at
    /// `index` fails with.
    pub open spec fn spec_runtime_error(
        self,
        index: int,
        tip_account: Option<Pubkey>,
        request: BroadcastRequest,
        error: TradingEndpointError,
    ) -> bool {
        if request.blockhashes.len() == 0 {
            error matches TradingEndpointError::LedgerQueryError(_)
        } else {
            match self.spec_runtime_instructions(index, tip_account, request) {
                Err(e) => error == e,
                Ok(_) => error matches TradingEndpointError::SigningError(_),
            }
        }
    }

    /// Whether `outcome` is what preparing `request` gives when the clients
    /// picked `accounts`: every runtime's transaction with its first
    /// signature, or the error of the first runtime whose transaction
    /// cannot be built.
    pub open spec fn spec_prepared(
        self,
        accounts: Seq<Option<Pubkey>>,
        request: BroadcastRequest,
        outcome: Result<PreparedBroadcast, TradingEndpointError>,
    ) -> bool {
        match outcome {
            Ok(prepared) => {
                &&& prepared.transactions@.len() == self.swqos@.len()
                &&& prepared.signatures@.len() == self.swqos@.len()
                &&& forall|i: int|
                    0 <= i < self.swqos@.len() ==> {
                        &&& self.spec_runtime_transaction(i, accounts[i], request) == Some(
                            #[trigger] prepared.transactions@[i],
                        )
                        &&& prepared.transactions@[i].signatures().len() >= 1
                        &&& prepared.signatures@[i] == prepared.transactions@[i].signatures()[0]
                    }
            },
            Err(error) => exists|i: int|
                {
                    &&& 0 <= i < self.swqos@.len()
                    &&& forall|j: int|
                        0 <= j < i ==> (#[trigger] self.spec_runtime_transaction(
                            j,
                            accounts[j],
                            request,
                        )) is Some
                    &&& (#[trigger] self.spec_runtime_transaction(i, accounts[i], request)) is None
                    &&& self.spec_runtime_error(i, accounts[i], request, error)
                },
        }
    }

    /// Whether `outcome` is what preparing `request` gives for some tip
    /// accounts that the clients can pick.
    pub open spec fn spec_prepared_for_a_draw(
        self,
        request: BroadcastRequest,
        outcome: Result<PreparedBroadcast, TradingEndpointError>,
    ) -> bool {
        exists|accounts: Seq<Option<Pubkey>>|
            self.spec_drawn(accounts) && #[trigger] self.spec_prepared(accounts, request, outcome)
    }

    /// Where the transactions of the runtimes before `index` are built and
    /// that of the runtime at `index` cannot be, `error` being why, the
    /// call comes to `error`.
    proof fn lemma_first_failure(
        self,
        accounts: Seq<Option<Pubkey>>,
        request: BroadcastRequest,
        built: Seq<Transaction>,
        index: int,
        error: TradingEndpointError,
    )
        requires
            0 <= index < self.swqos@.len(),
            built.len() == index,
            forall|i: int|
                0 <= i < index ==> self.spec_runtime_transaction(i, accounts[i], request) == Some(
                    #[trigger] built[i],
                ),
            self.spec_runtime_transaction(index, accounts[index], request) is None,
            self.spec_runtime_error(index, accounts[index], request, error),
        ensures
            self.spec_prepared(accounts, request, Err(error)),
    {
        assert forall|j: int| 0 <= j < index implies (#[trigger] self.spec_runtime_transaction(
            j,
            accounts[j],
            request,
        )) is Some by {
            let one = built[j];
            assert(self.spec_runtime_transaction(j, accounts[j], request) == Some(one));
        }
    }

    /// Builds and signs one legacy transaction for each runtime, where
    /// `tip_accounts` holds the tip account that each runtime's client
    /// picked. Each transaction carries the runtime's own fee and tip before
    /// the trade. The first transaction that cannot be built ends the call:
    /// nothing is prepared in part.
    pub fn prepare_tx_with_tip_accounts<'a>(
        &self,
        tx_type: TransactionType,
        payer: &'a Keypair,
        instructions: &Vec<Instruction>,
        nonce_ix: &Option<Instruction>,
        blockhashes: &Vec<Blockhash>,
        additional_fee: Option<PriorityFee>,
        additional_tip: u64,
        other_signers: Option<Vec<&'a Keypair>>,
        tip_accounts: &Vec<Option<Pubkey>>,
    ) -> (r: Result<PreparedBroadcast, TradingEndpointError>)
        requires
            tip_accounts@.len() == self.swqos@.len(),
        ensures
            self.spec_prepared(
                tip_accounts@,
                BroadcastRequest {
                    tx_type,
                    payer,
                    instructions: instructions@,
                    nonce_ix: *nonce_ix,
                    blockhashes: blockhashes@,
                    additional_fee,
                    additional_tip,
                    signers: spec_signers(payer, other_signers),
                },
                r,
            ),
    {
        let ghost request = BroadcastRequest {
            tx_type,
            payer,
            instructions: instructions@,
            nonce_ix: *nonce_ix,
            blockhashes: blockhashes@,
            additional_fee,
            additional_tip,
            signers: spec_signers(payer, other_signers),
        };
        let signers = collect_signers(payer, other_signers);
        let mut signatures: Vec<Signature> = Vec::new();
        let mut transactions: Vec<Transaction> = Vec::new();
        let n = self.swqos.len();
        let mut index: usize = 0;
        while index < n
            invariant
                n == self.swqos@.len(),
                tip_accounts@.len() == n,
                index <= n,
                signers@ == request.signers,
                request == (BroadcastRequest {
                    tx_type,
                    payer,
                    instructions: instructions@,
                    nonce_ix: *nonce_ix,
                    blockhashes: blockhashes@,
                    additional_fee,
                    additional_tip,
                    signers: spec_signers(payer, other_signers),
                }),
                transactions@.len() == index,
                signatures@.len() == index,
                forall|i: int|
                    0 <= i < index ==> {
                        &&& self.spec_runtime_transaction(i, tip_accounts@[i], request) == Some(
                            #[trigger] transactions@[i],
                        )
                        &&& transactions@[i].signatures().len() >= 1
                        &&& signatures@[i] == transactions@[i].signatures()[0]
                    },
            decreases n - index,
        {
            let swqos = &self.swqos[index];
            if blockhashes.len() == 0 {
                let error = TradingEndpointError::LedgerQueryError("no block hash".to_owned());
                proof {
                    self.lemma_first_failure(tip_accounts@, request, transactions@, index as int, error);
                }
                return Err(error);
            }
            let tip_config = match self.resolve_tip(
                swqos,
                tip_accounts[index],
                tx_type,
                additional_tip,
            ) {
                Ok(tip) => tip,
                Err(error) => {
                    proof {
                        self.lemma_first_failure(tip_accounts@, request, transactions@, index as int, error);
                    }
                    return Err(error);
                },
            };
            let assembled = self.assemble_instructions(
                swqos,
                tx_type,
                payer,
                nonce_ix,
                tip_config,
                additional_fee,
                instructions,
            );
            let blockhash = blockhashes[index % blockhashes.len()];
            let transaction = match sign_legacy_transaction(payer, assembled, blockhash, &signers) {
                Ok(transaction) => transaction,
                Err(error) => {
                    proof {
                        self.lemma_first_failure(tip_accounts@, request, transactions@, index as int, error);
                    }
                    return Err(error);
                },
            };
            let signature = match transaction.signature() {
                Some(signature) => signature,
                None => {
                    return Err(TradingEndpointError::SigningError("no signature".to_owned()));
                },
            };
            signatures.push(signature);
            transactions.push(transaction);
            index = index + 1;
        }
        Ok(PreparedBroadcast { signatures, transactions })
    }

    /// Lets every runtime's client pick its tip account.
    pub fn draw_tip_accounts(&self) -> (r: Vec<Option<Pubkey>>)
        ensures
            self.spec_drawn(r@),
    {
        let mut accounts: Vec<Option<Pubkey>> = Vec::new();
        let mut index: usize = 0;
        while index < self.swqos.len()
            invariant
                index <= self.swqos@.len(),
                accounts@.len() == index,
                forall|i: int|
                    0 <= i < index ==> {
                        let pool = self.swqos@[i].client.tip_accounts@;
                        if pool.len() == 0 {
                            (#[trigger] accounts@[i]) is None
                        } else {
                            accounts@[i] is Some && pool.contains(accounts@[i]->Some_0)
                        }
                    },
            decreases self.swqos@.len() - index,
        {
            accounts.push(self.swqos[index].get_tip_account());
            index = index + 1;
        }
        accounts
    }

    /// Builds and signs one legacy transaction for each runtime, each
    /// tipping an account that the runtime's client picks at random.
    /// Whatever accounts are picked, the outcome is that of
    /// `prepare_tx_with_tip_accounts` for them.
    pub fn prepare_tx<'a>(
        &self,
        tx_type: TransactionType,
        payer: &'a Keypair,
        instructions: &Vec<Instruction>,
        nonce_ix: &Option<Instruction>,
        blockhashes: &Vec<Blockhash>,
        additional_fee: Option<PriorityFee>,
        additional_tip: u64,
        other_signers: Option<Vec<&'a Keypair>>,
    ) -> (r: Result<PreparedBroadcast, TradingEndpointError>)
        ensures
            self.spec_prepared_for_a_draw(
                BroadcastRequest {
                    tx_type,
                    payer,
                    instructions: instructions@,
                    nonce_ix: *nonce_ix,
                    blockhashes: blockhashes@,
                    additional_fee,
                    additional_tip,
                    signers: spec_signers(payer, other_signers),
                },
                r,
            ),
    {
        let tip_accounts = self.draw_tip_accounts();
        self.prepare_tx_with_tip_accounts(
            tx_type,
            payer,
            instructions,
            nonce_ix,
            blockhashes,
            additional_fee,
            additional_tip,
            other_signers,
            &tip_accounts,
        )
    }
}

/// The signed transactions of one batch call: for each runtime, in the
/// runtimes' order, one transaction for each item, in the items' order.
/// The signatures are those of all the transactions, runtime by runtime.
pub struct PreparedBatch {
    pub signatures: Vec<Signature>,
    pub transactions: Vec<Vec<Transaction>>,
}

/// What one batch call hands to every transaction.
pub struct BatchRequest {
    pub tx_type: TransactionType,
    pub items: Seq<BatchTxItem>,
    pub blockhash: Blockhash,
    pub custom_fee: Option<PriorityFee>,
    pub custom_tip: u64,
}

/// The first signature of each of `transactions`.
pub open spec fn spec_first_signatures(transactions: Seq<Transaction>) -> Seq<Signature> {
    Seq::new(transactions.len(), |k: int| transactions[k].signatures()[0])
}

/// The first signatures of the transactions of the first `count` runtimes,
/// runtime by runtime.
pub open spec fn spec_batch_signatures(transactions: Seq<Vec<Transaction>>, count: nat) -> Seq<
    Signature,
>
    decreases count,
{
    if count == 0 {
        Seq::empty()
    } else {
        spec_batch_signatures(transactions, (count - 1) as nat) + spec_first_signatures(
            transactions[count - 1]@,
        )
    }
}

impl TradingEndpoint {
    /// The signed transaction of the item at `item` for the runtime at
    /// `index`, which tips as `tip` says, where it can be built.
    pub open spec fn spec_batch_transaction(
        self,
        index: int,
        tip: Option<TipFee>,
        request: BatchRequest,
        item: int,
    ) -> Option<Transaction> {
        let payer = &request.items[item].payer;
        spec_versioned_transaction(
            keypair_address(payer),
            spec_assembled(
                None,
                spec_fee(self.swqos@[index].config, request.tx_type, request.custom_fee),
                keypair_address(payer),
                tip,
                request.items[item].instructions@,
            ),
            seq![payer],
            request.blockhash,
        )
    }

    /// Whether every transaction for the runtime at `index` can be built:
    /// its tip resolves and every item's transaction can be signed.
    pub open spec fn spec_batch_ready(
        self,
        index: int,
        tip_account: Option<Pubkey>,
        request: BatchRequest,
    ) -> bool {
        match spec_tip(self.swqos@[index], tip_account, request.tx_type, request.custom_tip) {
            Err(_) => false,
            Ok(tip) => forall|k: int|
                0 <= k < request.items.len() ==> (#[trigger] self.spec_batch_transaction(
                    index,
                    tip,
                    request,
                    k,
                )) is Some,
        }
    }

    /// Whether `transactions` are the transactions of the batch for the
    /// runtime at `index`: its tip resolves, and there is one signed
    /// transaction for each item, in the items' order.
    pub open spec fn spec_batch_built(
        self,
        index: int,
        tip_account: Option<Pubkey>,
        request: BatchRequest,
        transactions: Seq<Transaction>,
    ) -> bool {
        let tip = spec_tip(self.swqos@[index], tip_account, request.tx_type, request.custom_tip);
        &&& tip is Ok
        &&& transactions.len() == request.items.len()
        &&& forall|k: int|
            0 <= k < request.items.len() ==> {
                &&& self.spec_batch_transaction(index, tip->Ok_0, request, k) == Some(
                    #[trigger] transactions[k],
                )
                &&& transactions[k].signatures().len() >= 1
            }
    }

    /// Whether `error` is what building the transactions for the runtime at
    /// `index` fails with.
    pub open spec fn spec_batch_error(
        self,
        index: int,
        tip_account: Option<Pubkey>,
        request: BatchRequest,
        error: TradingEndpointError,
    ) -> bool {
        match spec_tip(self.swqos@[index], tip_account, request.tx_type, request.custom_tip) {
            Err(e) => error == e,
            Ok(_) => error matches TradingEndpointError::SigningError(_),
        }
    }

    /// Whether `outcome` is what preparing the batch `request` gives when
    /// the clients picked `accounts`: every runtime's transactions with
    /// their first signatures, or the error of the first runtime for which
    /// a transaction cannot be built.
    pub open spec fn spec_prepared_batch(
        self,
        accounts: Seq<Option<Pubkey>>,
        request: BatchRequest,
        outcome: Result<PreparedBatch, TradingEndpointError>,
    ) -> bool {
        match outcome {
            Ok(prepared) => {
                &&& prepared.transactions@.len() == self.swqos@.len()
                &&& prepared.signatures@ == spec_batch_signatures(
                    prepared.transactions@,
                    self.swqos@.len(),
                )
                &&& forall|i: int|
                    0 <= i < self.swqos@.len() ==> self.spec_batch_built(
                        i,
                        accounts[i],
                        request,
                        (#[trigger] prepared.transactions@[i])@,
                    )
            },
            Err(error) => exists|i: int|
                {
                    &&& 0 <= i < self.swqos@.len()
                    &&& forall|j: int|
                        0 <= j < i ==> #[trigger] self.spec_batch_ready(j, accounts[j], request)
                    &&& !(#[trigger] self.spec_batch_ready(i, accounts[i], request))
                    &&& self.spec_batch_error(i, accounts[i], request, error)
                },
        }
    }

    /// Whether `outcome` is what preparing the batch `request` gives for
    /// some tip accounts that the clients can pick.
    pub open spec fn spec_prepared_batch_for_a_draw(
        self,
        request: BatchRequest,
        outcome: Result<PreparedBatch, TradingEndpointError>,
    ) -> bool {
        exists|accounts: Seq<Option<Pubkey>>|
            self.spec_drawn(accounts) && #[trigger] self.spec_prepared_batch(
                accounts,
                request,
                outcome,
            )
    }

    /// Builds and signs the transactions of one runtime for a batch: one
    /// version-0 transaction for each item, each paid and signed by the
    /// item's payer and carrying the runtime's fee and tip before the
    /// item's instructions.
    fn prepare_batch_for_runtime(
        &self,
        index: usize,
        tip: Option<TipFee>,
        tx_type: TransactionType,
        items: &Vec<BatchTxItem>,
        blockhash: Blockhash,
        custom_fee: Option<PriorityFee>,
        Ghost(request): Ghost<BatchRequest>,
    ) -> (r: Result<(Vec<Transaction>, Vec<Signature>), TradingEndpointError>)
        requires
            index < self.swqos@.len(),
            request.tx_type == tx_type,
            request.items == items@,
            request.blockhash == blockhash,
            request.custom_fee == custom_fee,
        ensures
            match r {
                Ok((transactions, signatures)) => {
                    &&& transactions@.len() == items@.len()
                    &&& signatures@ == spec_first_signatures(transactions@)
                    &&& forall|k: int|
                        0 <= k < items@.len() ==> {
                            &&& self.spec_batch_transaction(index as int, tip, request, k) == Some(
                                #[trigger] transactions@[k],
                            )
                            &&& transactions@[k].signatures().len() >= 1
                        }
                },
                Err(error) => {
                    &&& error matches TradingEndpointError::SigningError(_)
                    &&& exists|k: int|
                        0 <= k < items@.len() && (#[trigger] self.spec_batch_transaction(
                            index as int,
                            tip,
                            request,
                            k,
                        )) is None
                },
            },
    {
        let swqos = &self.swqos[index];
        let mut transactions: Vec<Transaction> = Vec::new();
        let mut signatures: Vec<Signature> = Vec::new();
        let no_nonce: Option<Instruction> = None;
        let mut k: usize = 0;
        while k < items.len()
            invariant
                index < self.swqos@.len(),
                swqos == &self.swqos@[index as int],
                no_nonce is None,
                request.tx_type == tx_type,
                request.items == items@,
                request.blockhash == blockhash,
                request.custom_fee == custom_fee,
                k <= items@.len(),
                transactions@.len() == k,
                signatures@ == spec_first_signatures(transactions@),
                forall|j: int|
                    0 <= j < k ==> {
                        &&& self.spec_batch_transaction(index as int, tip, request, j) == Some(
                            #[trigger] transactions@[j],
                        )
                        &&& transactions@[j].signatures().len() >= 1
                    },
            decreases items@.len() - k,
        {
            let item = &items[k];
            let assembled = self.assemble_instructions(
                swqos,
                tx_type,
                &item.payer,
                &no_nonce,
                tip,
                custom_fee,
                &item.instructions,
            );
            let signers = collect_signers(&item.payer, None);
            let transaction = match sign_transaction(&item.payer, assembled, blockhash, &signers) {
                Ok(transaction) => transaction,
                Err(error) => {
                    proof {
                        assert(self.spec_batch_transaction(index as int, tip, request, k as int)
                            is None);
                    }
                    return Err(error);
                },
            };
            let signature = match transaction.signature() {
                Some(signature) => signature,
                None => {
                    proof {
                        assert(transaction.signatures().len() >= 1);
                    }
                    return Err(TradingEndpointError::SigningError("no signature".to_owned()));
                },
            };
            let ghost before = transactions@;
            signatures.push(signature);
            transactions.push(transaction);
            proof {
                assert(signatures@ =~= spec_first_signatures(transactions@));
            }
            k = k + 1;
        }
        Ok((transactions, signatures))
    }

    /// Builds and signs the transactions of a batch: for each runtime one
    /// version-0 transaction for each item, where `tip_accounts` holds the
    /// tip account that each runtime's client picked. All transactions
    /// share one block hash. The first transaction that cannot be built
    /// ends the call: nothing is prepared in part.
    pub fn prepare_batch_txs_with_tip_accounts(
        &self,
        tx_type: TransactionType,
        items: &Vec<BatchTxItem>,
        blockhash: Blockhash,
        custom_fee: Option<PriorityFee>,
        custom_tip: u64,
        tip_accounts: &Vec<Option<Pubkey>>,
    ) -> (r: Result<PreparedBatch, TradingEndpointError>)
        requires
            tip_accounts@.len() == self.swqos@.len(),
        ensures
            self.spec_prepared_batch(
                tip_accounts@,
                BatchRequest { tx_type, items: items@, blockhash, custom_fee, custom_tip },
                r,
            ),
    {
        let ghost request = BatchRequest {
            tx_type,
            items: items@,
            blockhash,
            custom_fee,
            custom_tip,
        };
        let mut signatures: Vec<Signature> = Vec::new();
        let mut transactions: Vec<Vec<Transaction>> = Vec::new();
        let n = self.swqos.len();
        let mut index: usize = 0;
        while index < n
            invariant
                n == self.swqos@.len(),
                tip_accounts@.len() == n,
                index <= n,
                request == (BatchRequest {
                    tx_type,
                    items: items@,
                    blockhash,
                    custom_fee,
                    custom_tip,
                }),
                transactions@.len() == index,
                signatures@ == spec_batch_signatures(transactions@, index as nat),
                forall|i: int|
                    0 <= i < index ==> self.spec_batch_built(
                        i,
                        tip_accounts@[i],
                        request,
                        (#[trigger] transactions@[i])@,
                    ),
            decreases n - index,
        {
            let swqos = &self.swqos[index];
            proof {
                assert forall|j: int| 0 <= j < index implies #[trigger] self.spec_batch_ready(
                    j,
                    tip_accounts@[j],
                    request,
                ) by {
                    let built = transactions@[j]@;
                    assert(self.spec_batch_built(j, tip_accounts@[j], request, built));
                    let tip = spec_tip(
                        self.swqos@[j],
                        tip_accounts@[j],
                        request.tx_type,
                        request.custom_tip,
                    );
                    assert forall|k: int| 0 <= k < request.items.len() implies (
                    #[trigger] self.spec_batch_transaction(j, tip->Ok_0, request, k)) is Some by {
                        let one = built[k];
                        assert(self.spec_batch_transaction(j, tip->Ok_0, request, k) == Some(one));
                    }
                }
            }
            let tip = match self.resolve_tip(swqos, tip_accounts[index], tx_type, custom_tip) {
                Ok(tip) => tip,
                Err(error) => {
                    proof {
                        assert(!self.spec_batch_ready(
                            index as int,
                            tip_accounts@[index as int],
                            request,
                        ));
                        assert(self.spec_batch_error(
                            index as int,
                            tip_accounts@[index as int],
                            request,
                            error,
                        ));
                    }
                    return Err(error);
                },
            };
            let (built, mut signed) = match self.prepare_batch_for_runtime(
                index,
                tip,
                tx_type,
                items,
                blockhash,
                custom_fee,
                Ghost(request),
            ) {
                Ok(pair) => pair,
                Err(error) => {
                    proof {
                        assert(!self.spec_batch_ready(
                            index as int,
                            tip_accounts@[index as int],
                            request,
                        ));
                        assert(self.spec_batch_error(
                            index as int,
                            tip_accounts@[index as int],
                            request,
                            error,
                        ));
                    }
                    return Err(error);
                },
            };
            let ghost earlier = transactions@;
            signatures.append(&mut signed);
            let ghost fresh = built@;
            transactions.push(built);
            proof {
                assert(self.spec_batch_built(
                    index as int,
                    tip_accounts@[index as int],
                    request,
                    fresh,
                ));
                assert forall|i: int| 0 <= i < index + 1 implies self.spec_batch_built(
                    i,
                    tip_accounts@[i],
                    request,
                    (#[trigger] transactions@[i])@,
                ) by {
                    if i < index {
                        assert(transactions@[i] == earlier[i]);
                    }
                }
                lemma_batch_signatures_prefix(earlier, transactions@, index as nat);
                assert(signatures@ =~= spec_batch_signatures(transactions@, (index + 1) as nat));
            }
            index = index + 1;
        }
        Ok(PreparedBatch { signatures, transactions })
    }

    /// Builds and signs the transactions of a batch, each runtime tipping
    /// an account that its client picks at random. Whatever accounts are
    /// picked, the outcome is that of `prepare_batch_txs_with_tip_accounts`
    /// for them.
    pub fn prepare_batch_txs(
        &self,
        tx_type: TransactionType,
        items: &Vec<BatchTxItem>,
        blockhash: Blockhash,
        custom_fee: Option<PriorityFee>,
        custom_tip: u64,
    ) -> (r: Result<PreparedBatch, TradingEndpointError>)
        ensures
            self.spec_prepared_batch_for_a_draw(
                BatchRequest { tx_type, items: items@, blockhash, custom_fee, custom_tip },
                r,
            ),
    {
        let tip_accounts = self.draw_tip_accounts();
        self.prepare_batch_txs_with_tip_accounts(
            tx_type,
            items,
            blockhash,
            custom_fee,
            custom_tip,
            &tip_accounts,
        )
    }
}

proof fn lemma_batch_signatures_prefix(
    shorter: Seq<Vec<Transaction>>,
    longer: Seq<Vec<Transaction>>,
    count: nat,
)
    requires
        count <= shorter.len(),
        shorter.len() <= longer.len(),
        forall|i: int| 0 <= i < shorter.len() ==> shorter[i] == longer[i],
    ensures
        spec_batch_signatures(shorter, count) == spec_batch_signatures(longer, count),
    decreases count,
{
    if count > 0 {
        lemma_batch_signatures_prefix(shorter, longer, (count - 1) as nat);
    }
}

/// The failure of one provider's submission: the provider's name and the
/// cause it gave.
#[derive(Debug, PartialEq, Eq)]
pub struct ProviderFailure {
    pub provider: String,
    pub cause: String,
}

/// What a broadcast came to: the signatures of all transactions that were
/// submitted, whether or not their provider accepted them, and the failure
/// of every provider that did not.
#[derive(Debug)]
pub struct BroadcastReport {
    pub signatures: Vec<Signature>,
    pub failures: Vec<ProviderFailure>,
}

/// The failures among the first `count` outcomes, in the providers' order,
/// each under its provider's name.
pub open spec fn spec_failures(
    names: Seq<String>,
    outcomes: Seq<Result<(), String>>,
    count: nat,
) -> Seq<ProviderFailure>
    decreases count,
{
    if count == 0 {
        Seq::empty()
    } else {
        let earlier = spec_failures(names, outcomes, (count - 1) as nat);
        match outcomes[count - 1] {
            Err(cause) => earlier.push(ProviderFailure { provider: names[count - 1], cause }),
            Ok(_) => earlier,
        }
    }
}

/// The text of an aggregate error: for each of the first `count` failures
/// the provider's name, a colon and the cause, with a semicolon between
/// two failures.
pub open spec fn spec_failure_text(failures: Seq<ProviderFailure>, count: nat) -> Seq<char>
    decreases count,
{
    if count == 0 {
        Seq::empty()
    } else {
        let earlier = spec_failure_text(failures, (count - 1) as nat);
        let separator = if count == 1 {
            Seq::empty()
        } else {
            "; "@
        };
        earlier + separator + failures[count - 1].provider@ + ": "@ + failures[count - 1].cause@
    }
}

/// The failure of the provider at `index`, where its submission failed.
pub open spec fn spec_failure_of(
    names: Seq<String>,
    outcomes: Seq<Result<(), String>>,
    index: int,
) -> ProviderFailure {
    ProviderFailure { provider: names[index], cause: outcomes[index]->Err_0 }
}

/// Whether `failure` is the failure of one of the first `count` providers.
pub open spec fn is_failure_of_one(
    names: Seq<String>,
    outcomes: Seq<Result<(), String>>,
    count: nat,
    failure: ProviderFailure,
) -> bool {
    exists|i: int|
        0 <= i < count && outcomes[i] is Err && #[trigger] spec_failure_of(names, outcomes, i)
            == failure
}

/// Every failed submission is listed under its provider's name, and
/// nothing else is: each entry of the list is the failure of a provider
/// whose submission failed.
pub proof fn lemma_failures_are_the_failed(
    names: Seq<String>,
    outcomes: Seq<Result<(), String>>,
    count: nat,
)
    requires
        count <= outcomes.len(),
    ensures
        forall|i: int|
            0 <= i < count && outcomes[i] is Err ==> spec_failures(names, outcomes, count).contains(
                #[trigger] spec_failure_of(names, outcomes, i),
            ),
        forall|k: int|
            0 <= k < spec_failures(names, outcomes, count).len() ==> is_failure_of_one(
                names,
                outcomes,
                count,
                #[trigger] spec_failures(names, outcomes, count)[k],
            ),
        spec_failures(names, outcomes, count).len() <= count,
    decreases count,
{
    if count > 0 {
        let before = (count - 1) as nat;
        lemma_failures_are_the_failed(names, outcomes, before);
        let earlier = spec_failures(names, outcomes, before);
        let all = spec_failures(names, outcomes, count);
        assert forall|i: int| 0 <= i < count && outcomes[i] is Err implies all.contains(
            #[trigger] spec_failure_of(names, outcomes, i),
        ) by {
            if i < before {
                let k = choose|k: int|
                    0 <= k < earlier.len() && earlier[k] == spec_failure_of(names, outcomes, i);
                assert(all[k] == spec_failure_of(names, outcomes, i));
            } else {
                assert(all[all.len() - 1] == spec_failure_of(names, outcomes, i));
            }
        }
        assert forall|k: int| 0 <= k < all.len() implies is_failure_of_one(
            names,
            outcomes,
            count,
            #[trigger] all[k],
        ) by {
            if k < earlier.len() {
                assert(is_failure_of_one(names, outcomes, before, earlier[k]));
                let i = choose|i: int|
                    0 <= i < before && outcomes[i] is Err && #[trigger] spec_failure_of(
                        names,
                        outcomes,
                        i,
                    ) == earlier[k];
                assert(spec_failure_of(names, outcomes, i) == all[k]);
            } else {
                assert(spec_failure_of(names, outcomes, before as int) == all[k]);
            }
        }
    }
}

/// Where the submission of one provider alone failed, the list holds that
/// provider's failure and nothing more, and the text of the aggregate
/// error is that provider's name, a colon and the cause: it names no other
/// provider.
pub proof fn lemma_single_failure(
    names: Seq<String>,
    outcomes: Seq<Result<(), String>>,
    failed: int,
)
    requires
        0 <= failed < outcomes.len(),
        outcomes[failed] is Err,
        forall|i: int| 0 <= i < outcomes.len() && i != failed ==> outcomes[i] is Ok,
    ensures
        spec_failures(names, outcomes, outcomes.len()) == seq![
            spec_failure_of(names, outcomes, failed),
        ],
        spec_failure_text(spec_failures(names, outcomes, outcomes.len()), 1) == names[failed]@
            + ": "@ + (outcomes[failed]->Err_0)@,
{
    lemma_single_failure_prefix(names, outcomes, failed, outcomes.len());
    let failures = spec_failures(names, outcomes, outcomes.len());
    assert(spec_failure_text(failures, 0) =~= Seq::<char>::empty());
    assert(spec_failure_text(failures, 1) =~= names[failed]@ + ": "@ + (outcomes[failed]->Err_0)@)
        by {
        reveal_with_fuel(spec_failure_text, 2);
    }
}

proof fn lemma_single_failure_prefix(
    names: Seq<String>,
    outcomes: Seq<Result<(), String>>,
    failed: int,
    count: nat,
)
    requires
        0 <= failed < outcomes.len(),
        count <= outcomes.len(),
        outcomes[failed] is Err,
        forall|i: int| 0 <= i < outcomes.len() && i != failed ==> outcomes[i] is Ok,
    ensures
        count <= failed ==> spec_failures(names, outcomes, count) == Seq::<ProviderFailure>::empty(),
        count > failed ==> spec_failures(names, outcomes, count) == seq![
            spec_failure_of(names, outcomes, failed),
        ],
    decreases count,
{
    if count > 0 {
        lemma_single_failure_prefix(names, outcomes, failed, (count - 1) as nat);
        if count - 1 == failed {
            assert(spec_failures(names, outcomes, count) =~= seq![
                spec_failure_of(names, outcomes, failed),
            ]);
        }
    }
}

/// Where every submission succeeded, no failure is listed.
pub proof fn lemma_no_failure(names: Seq<String>, outcomes: Seq<Result<(), String>>, count: nat)
    requires
        count <= outcomes.len(),
        forall|i: int| 0 <= i < outcomes.len() ==> outcomes[i] is Ok,
    ensures
        spec_failures(names, outcomes, count) == Seq::<ProviderFailure>::empty(),
    decreases count,
{
    if count > 0 {
        lemma_no_failure(names, outcomes, (count - 1) as nat);
    }
}

impl TradingEndpoint {
    /// The names of the runtimes' providers, in the runtimes' order.
    pub open spec fn spec_names(self) -> Seq<String> {
        Seq::new(self.swqos@.len(), |i: int| self.swqos@[i].client.name)
    }

    /// Gathers the outcomes of the submissions, one for each runtime and in
    /// the runtimes' order. Every failure is kept under its provider's
    /// name, and the signatures stay as they are: one failed provider does
    /// not take away what the others were sent.
    pub fn collect_results(
        &self,
        signatures: Vec<Signature>,
        outcomes: &Vec<Result<(), String>>,
    ) -> (r: BroadcastReport)
        requires
            outcomes@.len() == self.swqos@.len(),
        ensures
            r.signatures == signatures,
            r.failures@ == spec_failures(self.spec_names(), outcomes@, outcomes@.len()),
    {
        let mut failures: Vec<ProviderFailure> = Vec::new();
        let mut index: usize = 0;
        while index < outcomes.len()
            invariant
                outcomes@.len() == self.swqos@.len(),
                index <= outcomes@.len(),
                failures@ == spec_failures(self.spec_names(), outcomes@, index as nat),
            decreases outcomes@.len() - index,
        {
            match &outcomes[index] {
                Err(cause) => {
                    failures.push(
                        ProviderFailure {
                            provider: self.swqos[index].client.name.clone(),
                            cause: cause.clone(),
                        },
                    );
                },
                Ok(_) => {},
            }
            index = index + 1;
        }
        BroadcastReport { signatures, failures }
    }
}

impl BroadcastReport {
    /// Whether every provider accepted its submission.
    pub fn is_success(&self) -> (r: bool)
        ensures
            r == (self.failures@.len() == 0),
    {
        self.failures.len() == 0
    }

    /// The text that names every failed provider with its cause.
    pub fn failure_text(&self) -> (r: String)
        ensures
            r@ == spec_failure_text(self.failures@, self.failures@.len()),
    {
        let mut text = String::new();
        let mut index: usize = 0;
        while index < self.failures.len()
            invariant
                index <= self.failures@.len(),
                text@ == spec_failure_text(self.failures@, index as nat),
            decreases self.failures@.len() - index,
        {
            if index > 0 {
                text.append("; ");
            }
            text.append(self.failures[index].provider.as_str());
            text.append(": ");
            text.append(self.failures[index].cause.as_str());
            proof {
                let earlier = spec_failure_text(self.failures@, index as nat);
                let separator = if index == 0 {
                    Seq::<char>::empty()
                } else {
                    "; "@
                };
                assert(earlier + Seq::<char>::empty() =~= earlier);
                assert(text@ =~= earlier + separator + self.failures@[index as int].provider@
                    + ": "@ + self.failures@[index as int].cause@);
            }
            index = index + 1;
        }
        text
    }

    /// The signatures where every provider accepted its submission, and
    /// otherwise one error that names every failed provider.
    pub fn into_result(self) -> (r: Result<Vec<Signature>, TradingEndpointError>)
        ensures
            self.failures@.len() == 0 ==> r is Ok && r->Ok_0 == self.signatures,
            self.failures@.len() > 0 ==> match r {
                Err(TradingEndpointError::ProviderSubmissionError(text)) => text@
                    == spec_failure_text(self.failures@, self.failures@.len()),
                _ => false,
            },
    {
        if self.failures.len() == 0 {
            Ok(self.signatures)
        } else {
            Err(TradingEndpointError::ProviderSubmissionError(self.failure_text()))
        }
    }
}

/// Whether the `error` member of a provider's answer, given as its JSON
/// text where the answer has one, reports a failure: the member is there
/// and holds more than nothing or an empty string.
pub fn reports_failure(error_member: &Option<String>) -> (r: bool)
    ensures
        r == match *error_member {
            Some(text) => text@.len() != 0 && text@ != "\"\""@,
            None => false,
        },
{
    match error_member {
        Some(text) => {
            let quotes = "\"\"".to_owned();
            !text.as_str().is_empty() && !(*text == quotes)
        },
        None => false,
    }
}

} // verus!
