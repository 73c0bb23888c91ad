use vstd::prelude::*;
use solana_sdk::instruction::Instruction;
use solana_sdk::pubkey::Pubkey;
use solana_sdk::signature::Keypair;
use crate::errors::TradingEndpointError;
use crate::fee::PriorityFee;
use crate::fee::TipFee;
use crate::lamports::Lamports;
use crate::sdk::clone_instruction;
use crate::sdk::compute_unit_limit_instruction;
use crate::sdk::compute_unit_price_instruction;
use crate::sdk::keypair_address;
use crate::sdk::keypair_pubkey;
use crate::sdk::set_compute_unit_limit;
use crate::sdk::set_compute_unit_price;
use crate::sdk::transfer;
use crate::sdk::transfer_instruction;
use crate::swqos::SWQoSConfig;
use crate::swqos::SWQoSRuntime;
use crate::types::TransactionType;

verus! {

/// The relay runtimes that a call broadcasts through. The set is fixed
/// once built.
pub struct TradingEndpoint {
    pub swqos: Vec<SWQoSRuntime>,
}

/// One leg of a batch: who pays, and the instructions of the trade.
pub struct BatchTxItem {
    pub payer: Keypair,
    pub instructions: Vec<Instruction>,
}

/// The tip that a configuration gives an operation before any addition:
/// a sell falls back to the buy tip, and a creation is tipped as a buy.
pub open spec fn spec_default_tip(config: SWQoSConfig, tx_type: TransactionType) -> Option<
    Lamports,
> {
    match tx_type {
        TransactionType::Buy => config.buy_tip,
        TransactionType::Sell => if config.sell_tip is Some {
            config.sell_tip
        } else {
            config.buy_tip
        },
        TransactionType::Create => config.buy_tip,
    }
}

/// The priority fee that a configuration gives an operation before any
/// addition: a sell falls back to the buy fee, and a creation pays as a buy.
pub open spec fn spec_base_fee(config: SWQoSConfig, tx_type: TransactionType) -> Option<
    PriorityFee,
> {
    match tx_type {
        TransactionType::Buy => config.buy_fee,
        TransactionType::Sell => if config.sell_fee is Some {
            config.sell_fee
        } else {
            config.buy_fee
        },
        TransactionType::Create => config.buy_fee,
    }
}

/// The priority fee of a transaction: the configured fee and the caller's
/// addition combined, or the one that is there.
pub open spec fn spec_fee(
    config: SWQoSConfig,
    tx_type: TransactionType,
    additional: Option<PriorityFee>,
) -> Option<PriorityFee> {
    match (spec_base_fee(config, tx_type), additional) {
        (Some(base), Some(more)) => Some(base.combined(more)),
        (Some(base), None) => Some(base),
        (None, Some(more)) => Some(more),
        (None, None) => None,
    }
}

/// The lamports of a tip: the configured tip and the caller's addition,
/// and the largest 64-bit count where the two go beyond it.
pub open spec fn spec_tip_lamports(configured: u64, additional: u64) -> u64 {
    if configured + additional > u64::MAX {
        u64::MAX
    } else {
        (configured + additional) as u64
    }
}

/// The tip of a transaction sent through `runtime` when its client named
/// `tip_account`. A client without a tip account is not tipped. A client
/// with one must be: it is an error exactly where the configuration has no
/// tip for the operation.
pub open spec fn spec_tip(
    runtime: SWQoSRuntime,
    tip_account: Option<Pubkey>,
    tx_type: TransactionType,
    additional_tip: u64,
) -> Result<Option<TipFee>, TradingEndpointError> {
    match tip_account {
        None => Ok(None),
        Some(account) => match spec_default_tip(runtime.config, tx_type) {
            None => Err(TradingEndpointError::MissingFeeOrTipConfiguration(runtime.client.name)),
            Some(tip) => Ok(
                Some(
                    TipFee {
                        tip_account: account,
                        tip_lamports: spec_tip_lamports(tip.0, additional_tip),
                    },
                ),
            ),
        },
    }
}

/// The compute-budget instructions of a fee: the price, then the limit.
pub open spec fn spec_fee_instructions(fee: Option<PriorityFee>) -> Seq<Instruction> {
    match fee {
        Some(f) => seq![
            compute_unit_price_instruction(f.unit_price),
            compute_unit_limit_instruction(f.unit_limit),
        ],
        None => Seq::empty(),
    }
}

/// The transfer that pays a tip, where there is one.
pub open spec fn spec_tip_instruction(payer: Pubkey, tip: Option<TipFee>) -> Option<Instruction> {
    match tip {
        Some(t) => Some(transfer_instruction(payer, t.tip_account, t.tip_lamports)),
        None => None,
    }
}

/// Zero or one instruction as a sequence.
pub open spec fn spec_optional(instruction: Option<Instruction>) -> Seq<Instruction> {
    match instruction {
        Some(ix) => seq![ix],
        None => Seq::empty(),
    }
}

/// The instructions of one transaction, in order: the nonce advance, the
/// compute budget, the tip, and the trade.
pub open spec fn spec_assembled(
    nonce: Option<Instruction>,
    fee: Option<PriorityFee>,
    payer: Pubkey,
    tip: Option<TipFee>,
    trade: Seq<Instruction>,
) -> Seq<Instruction> {
    spec_optional(nonce) + spec_fee_instructions(fee) + spec_optional(
        spec_tip_instruction(payer, tip),
    ) + trade
}

/// A sell without a fee of its own pays the buy fee; one with a fee of its
/// own pays that, whatever the buy fee is. Tips resolve in the same way.
pub proof fn lemma_sell_falls_back_to_buy(config: SWQoSConfig)
    ensures
        config.sell_fee is None ==> spec_base_fee(config, TransactionType::Sell) == config.buy_fee,
        config.sell_fee is Some ==> spec_base_fee(config, TransactionType::Sell) == config.sell_fee,
        config.sell_tip is None ==> spec_default_tip(config, TransactionType::Sell)
            == config.buy_tip,
        config.sell_tip is Some ==> spec_default_tip(config, TransactionType::Sell)
            == config.sell_tip,
        spec_base_fee(config, TransactionType::Create) == config.buy_fee,
        spec_default_tip(config, TransactionType::Create) == config.buy_tip,
        spec_base_fee(config, TransactionType::Buy) == config.buy_fee,
        spec_default_tip(config, TransactionType::Buy) == config.buy_tip,
{
}

/// A copy of a list of instructions.
pub fn clone_instructions(instructions: &Vec<Instruction>) -> (r: Vec<Instruction>)
    ensures
        r@ == instructions@,
{
    let mut copy: Vec<Instruction> = Vec::new();
    let mut i: usize = 0;
    while i < instructions.len()
        invariant
            i <= instructions@.len(),
            copy@ == instructions@.take(i as int),
        decreases instructions@.len() - i,
    {
        copy.push(clone_instruction(&instructions[i]));
        proof {
            assert(instructions@.take(i as int + 1) =~= instructions@.take(i as int).push(
                instructions@[i as int],
            ));
        }
        i = i + 1;
    }
    proof {
        assert(instructions@.take(instructions@.len() as int) =~= instructions@);
    }
    copy
}

impl TradingEndpoint {
    /// An endpoint that broadcasts through `swqos`, in that order.
    pub fn new(swqos: Vec<SWQoSRuntime>) -> (r: TradingEndpoint)
        ensures
            r.swqos == swqos,
    {
        TradingEndpoint { swqos }
    }

    /// The tip that the runtime's configuration gives the operation. A
    /// configuration without one is an error that names the provider.
    pub fn get_default_tip_for_tx_type(&self, swqos: &SWQoSRuntime, tx_type: TransactionType) -> (r:
        Result<Lamports, TradingEndpointError>)
        ensures
            match spec_default_tip(swqos.config, tx_type) {
                Some(tip) => r == Ok::<Lamports, TradingEndpointError>(tip),
                None => r == Err::<Lamports, TradingEndpointError>(
                    TradingEndpointError::MissingFeeOrTipConfiguration(swqos.client.name),
                ),
            },
    {
        let tip = match tx_type {
            TransactionType::Buy => swqos.config.buy_tip,
            TransactionType::Sell => match swqos.config.sell_tip {
                Some(tip) => Some(tip),
                None => swqos.config.buy_tip,
            },
            TransactionType::Create => swqos.config.buy_tip,
        };
        match tip {
            Some(tip) => Ok(tip),
            None => Err(
                TradingEndpointError::MissingFeeOrTipConfiguration(swqos.client.name.clone()),
            ),
        }
    }

    /// The tip of a transaction sent through `swqos` when its client named
    /// `tip_account`.
    pub fn resolve_tip(
        &self,
        swqos: &SWQoSRuntime,
        tip_account: Option<Pubkey>,
        tx_type: TransactionType,
        additional_tip: u64,
    ) -> (r: Result<Option<TipFee>, TradingEndpointError>)
        ensures
            r == spec_tip(*swqos, tip_account, tx_type, additional_tip),
    {
        let account = match tip_account {
            Some(account) => account,
            None => {
                return Ok(None);
            },
        };
        let base = match self.get_default_tip_for_tx_type(swqos, tx_type) {
            Ok(tip) => tip,
            Err(e) => {
                return Err(e);
            },
        };
        let tip_lamports: u64 = if additional_tip > u64::MAX - base.0 {
            u64::MAX
        } else {
            base.0 + additional_tip
        };
        Ok(Some(TipFee { tip_account: account, tip_lamports }))
    }

    /// The tip of a transaction sent through `swqos`, paid to an account
    /// that the client picks at random. Whatever account is picked, the
    /// result is the tip for that account.
    pub fn get_tip_config(
        &self,
        swqos: &SWQoSRuntime,
        tx_type: TransactionType,
        additional_tip: u64,
    ) -> (r: Result<Option<TipFee>, TradingEndpointError>)
        ensures
            swqos.client.tip_accounts@.len() == 0 ==> r == spec_tip(
                *swqos,
                None,
                tx_type,
                additional_tip,
            ),
            swqos.client.tip_accounts@.len() > 0 ==> exists|account: Pubkey|
                swqos.client.tip_accounts@.contains(account) && r == #[trigger] spec_tip(
                    *swqos,
                    Some(account),
                    tx_type,
                    additional_tip,
                ),
    {
        let tip_account = swqos.get_tip_account();
        self.resolve_tip(swqos, tip_account, tx_type, additional_tip)
    }

    /// The priority fee of a transaction sent through `swqos`.
    pub fn get_fee_config(
        &self,
        swqos: &SWQoSRuntime,
        tx_type: TransactionType,
        additional_fee: Option<PriorityFee>,
    ) -> (r: Option<PriorityFee>)
        ensures
            r == spec_fee(swqos.config, tx_type, additional_fee),
    {
        let base_fee = match tx_type {
            TransactionType::Buy => swqos.config.buy_fee,
            TransactionType::Sell => match swqos.config.sell_fee {
                Some(fee) => Some(fee),
                None => swqos.config.buy_fee,
            },
            TransactionType::Create => swqos.config.buy_fee,
        };
        match (base_fee, additional_fee) {
            (Some(base), Some(additional)) => Some(base.combine(additional)),
            (Some(base), None) => Some(base),
            (None, Some(additional)) => Some(additional),
            (None, None) => None,
        }
    }

    /// The compute-budget instructions of a transaction sent through
    /// `swqos`: none where no fee resolves.
    pub fn build_fee_instructions(
        &self,
        swqos: &SWQoSRuntime,
        tx_type: TransactionType,
        custom_fee: Option<PriorityFee>,
    ) -> (r: Vec<Instruction>)
        ensures
            r@ == spec_fee_instructions(spec_fee(swqos.config, tx_type, custom_fee)),
    {
        let mut instructions: Vec<Instruction> = Vec::new();
        match self.get_fee_config(swqos, tx_type, custom_fee) {
            Some(fee) => {
                instructions.push(set_compute_unit_price(fee.unit_price));
                instructions.push(set_compute_unit_limit(fee.unit_limit));
                proof {
                    assert(instructions@ =~= spec_fee_instructions(Some(fee)));
                }
            },
            None => {
                proof {
                    assert(instructions@ =~= spec_fee_instructions(None));
                }
            },
        }
        instructions
    }

    /// The transfer by which `payer` pays a tip, where there is one.
    pub fn build_tip_instruction(&self, payer: &Keypair, tip_config: Option<TipFee>) -> (r: Option<
        Instruction,
    >)
        ensures
            r == spec_tip_instruction(keypair_address(payer), tip_config),
    {
        match tip_config {
            Some(tip) => Some(transfer(&keypair_pubkey(payer), &tip.tip_account, tip.tip_lamports)),
            None => None,
        }
    }

    /// The instructions of one transaction sent through `swqos`, in order:
    /// the nonce advance where there is one, the compute budget, the tip
    /// where there is one, and the trade.
    pub fn assemble_instructions(
        &self,
        swqos: &SWQoSRuntime,
        tx_type: TransactionType,
        payer: &Keypair,
        nonce_ix: &Option<Instruction>,
        tip_config: Option<TipFee>,
        additional_fee: Option<PriorityFee>,
        instructions: &Vec<Instruction>,
    ) -> (r: Vec<Instruction>)
        ensures
            r@ == spec_assembled(
                *nonce_ix,
                spec_fee(swqos.config, tx_type, additional_fee),
                keypair_address(payer),
                tip_config,
                instructions@,
            ),
    {
        let mut assembled: Vec<Instruction> = Vec::new();
        match nonce_ix {
            Some(ix) => {
                assembled.push(clone_instruction(ix));
            },
            None => {},
        }
        proof {
            assert(assembled@ =~= spec_optional(*nonce_ix));
        }
        let mut fee_instructions = self.build_fee_instructions(swqos, tx_type, additional_fee);
        assembled.append(&mut fee_instructions);
        match self.build_tip_instruction(payer, tip_config) {
            Some(tip_instruction) => {
                assembled.push(tip_instruction);
            },
            None => {},
        }
        proof {
            assert(assembled@ =~= spec_optional(*nonce_ix) + spec_fee_instructions(
                spec_fee(swqos.config, tx_type, additional_fee),
            ) + spec_optional(spec_tip_instruction(keypair_address(payer), tip_config)));
        }
        let mut trade = clone_instructions(instructions);
        assembled.append(&mut trade);
        assembled
    }
}

} // verus!
