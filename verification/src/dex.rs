use vstd::prelude::*;
use solana_sdk::hash::Hash as Blockhash;
use solana_sdk::instruction::Instruction;
use solana_sdk::pubkey::Pubkey;
use solana_sdk::signature::Keypair;
use crate::batch::build_batch_buy_items;
use crate::batch::build_batch_sell_items;
use crate::batch::buy_amounts;
use crate::batch::sell_amounts;
use crate::batch::spec_buy_amounts;
use crate::batch::spec_buy_items_built;
use crate::batch::spec_sell_amounts;
use crate::batch::spec_sell_items_built;
use crate::fanout::BatchRequest;
use crate::fanout::BroadcastRequest;
use crate::fanout::PreparedBatch;
use crate::fanout::PreparedBroadcast;
use crate::builder::build_sol_sell_instructions;
use crate::builder::build_token_account_instructions;
use crate::builder::build_wsol_sell_instructions;
use crate::builder::spec_sol_sell_instructions;
use crate::builder::spec_token_account;
use crate::builder::spec_token_account_instructions;
use crate::builder::spec_wsol_mint;
use crate::builder::spec_wsol_sell_instructions;
use crate::builder::token_account_available;
use crate::endpoint::BatchTxItem;
use crate::endpoint::TradingEndpoint;
use crate::errors::TradingEndpointError;
use crate::fee::PriorityFee;
use crate::quote::quote_buy;
use crate::quote::quote_sell;
use crate::quote::simulate_batch_buy;
use crate::quote::simulate_batch_sell;
use crate::quote::spec_batch_buy;
use crate::quote::spec_batch_sell;
use crate::quote::spec_buy_quote;
use crate::quote::spec_or_zero;
use crate::quote::spec_sell_quote;
use crate::sdk::keypair_address;
use crate::token::associated_address_exists;
use crate::types::BatchBuyParam;
use crate::types::BatchSellParam;
use crate::types::Create;
use crate::types::CreateATA;
use crate::types::PoolInfo;
use crate::types::SwapInfo;
use crate::types::TokenAmountType;
use crate::types::TransactionType;

verus! {

/// An optional reference as an optional value.
pub open spec fn spec_deref(address: Option<&Pubkey>) -> Option<Pubkey> {
    match address {
        Some(a) => Some(*a),
        None => None,
    }
}

/// Whether the accounts that a sell touches have addresses.
pub open spec fn sell_accounts_available(
    use_wsol: bool,
    payer: Pubkey,
    mint: Pubkey,
    close_mint_ata: bool,
) -> bool {
    if use_wsol {
        associated_address_exists(payer, mint) && associated_address_exists(payer, spec_wsol_mint())
    } else {
        !close_mint_ata || associated_address_exists(payer, mint)
    }
}

/// The instructions of a sell around the venue's sell: through wrapped SOL
/// where the venue trades against it.
pub open spec fn spec_sell_instructions(
    use_wsol: bool,
    payer: Pubkey,
    mint: Pubkey,
    venue_instruction: Instruction,
    close_mint_ata: bool,
) -> Seq<Instruction> {
    if use_wsol {
        spec_wsol_sell_instructions(payer, mint, venue_instruction, close_mint_ata)
    } else {
        spec_sol_sell_instructions(payer, mint, venue_instruction, close_mint_ata)
    }
}

/// What a call hands on to every runtime for one trade of `payer`, signed
/// by the payer alone.
pub open spec fn spec_trade_request<'a>(
    tx_type: TransactionType,
    payer: &'a Keypair,
    instructions: Seq<Instruction>,
    nonce_ix: Option<Instruction>,
    blockhashes: Seq<Blockhash>,
    additional_fee: Option<PriorityFee>,
    additional_tip: u64,
) -> BroadcastRequest<'a> {
    BroadcastRequest {
        tx_type,
        payer,
        instructions,
        nonce_ix,
        blockhashes,
        additional_fee,
        additional_tip,
        signers: seq![payer],
    }
}

/// Whether `outcome` is what a buy comes to once the venue has answered
/// with `built`: the venue's error, or the prepared transactions of the
/// instructions `lead` followed by the venue's.
pub open spec fn spec_buy_completed(
    endpoint: TradingEndpoint,
    payer: &Keypair,
    lead: Seq<Instruction>,
    built: Result<Instruction, TradingEndpointError>,
    nonce_ix: Option<Instruction>,
    blockhashes: Seq<Blockhash>,
    additional_fee: Option<PriorityFee>,
    additional_tip: u64,
    outcome: Result<PreparedBroadcast, TradingEndpointError>,
) -> bool {
    match built {
        Err(e) => outcome == Err::<PreparedBroadcast, TradingEndpointError>(e),
        Ok(instruction) => endpoint.spec_prepared_for_a_draw(
            spec_trade_request(
                TransactionType::Buy,
                payer,
                lead.push(instruction),
                nonce_ix,
                blockhashes,
                additional_fee,
                additional_tip,
            ),
            outcome,
        ),
    }
}

/// Whether `outcome` is what a sell comes to once the venue has answered
/// with `built`.
pub open spec fn spec_sell_completed(
    endpoint: TradingEndpoint,
    use_wsol: bool,
    payer: &Keypair,
    mint: Pubkey,
    close_mint_ata: bool,
    built: Result<Instruction, TradingEndpointError>,
    nonce_ix: Option<Instruction>,
    blockhashes: Seq<Blockhash>,
    additional_fee: Option<PriorityFee>,
    additional_tip: u64,
    outcome: Result<PreparedBroadcast, TradingEndpointError>,
) -> bool {
    match built {
        Err(e) => outcome == Err::<PreparedBroadcast, TradingEndpointError>(e),
        Ok(instruction) => if sell_accounts_available(
            use_wsol,
            keypair_address(payer),
            mint,
            close_mint_ata,
        ) {
            endpoint.spec_prepared_for_a_draw(
                spec_trade_request(
                    TransactionType::Sell,
                    payer,
                    spec_sell_instructions(
                        use_wsol,
                        keypair_address(payer),
                        mint,
                        instruction,
                        close_mint_ata,
                    ),
                    nonce_ix,
                    blockhashes,
                    additional_fee,
                    additional_tip,
                ),
                outcome,
            )
        } else {
            outcome matches Err(TradingEndpointError::InstructionBuildError(_))
        },
    }
}

/// Finishes a buy once the venue has answered: puts the venue's
/// instruction behind `lead`, the instructions of the buyer's token
/// account, and prepares one transaction for each runtime. A venue's error
/// ends the buy unchanged.
pub fn complete_buy(
    endpoint: &TradingEndpoint,
    payer: &Keypair,
    lead: Vec<Instruction>,
    built: Result<Instruction, TradingEndpointError>,
    nonce_ix: &Option<Instruction>,
    blockhashes: &Vec<Blockhash>,
    additional_fee: Option<PriorityFee>,
    additional_tip: u64,
) -> (r: Result<PreparedBroadcast, TradingEndpointError>)
    ensures
        spec_buy_completed(
            *endpoint,
            payer,
            lead@,
            built,
            *nonce_ix,
            blockhashes@,
            additional_fee,
            additional_tip,
            r,
        ),
{
    let instruction = match built {
        Ok(instruction) => instruction,
        Err(e) => {
            return Err(e);
        },
    };
    let mut instructions = lead;
    instructions.push(instruction);
    endpoint.prepare_tx(
        TransactionType::Buy,
        payer,
        &instructions,
        nonce_ix,
        blockhashes,
        additional_fee,
        additional_tip,
        None,
    )
}

/// Finishes a sell once the venue has answered: wraps the venue's
/// instruction as the venue's currency asks and prepares one transaction
/// for each runtime. A venue's error ends the sell unchanged.
pub fn complete_sell(
    endpoint: &TradingEndpoint,
    use_wsol: bool,
    payer: &Keypair,
    mint: &Pubkey,
    close_mint_ata: bool,
    built: Result<Instruction, TradingEndpointError>,
    nonce_ix: &Option<Instruction>,
    blockhashes: &Vec<Blockhash>,
    additional_fee: Option<PriorityFee>,
    additional_tip: u64,
) -> (r: Result<PreparedBroadcast, TradingEndpointError>)
    ensures
        spec_sell_completed(
            *endpoint,
            use_wsol,
            payer,
            *mint,
            close_mint_ata,
            built,
            *nonce_ix,
            blockhashes@,
            additional_fee,
            additional_tip,
            r,
        ),
{
    let instruction = match built {
        Ok(instruction) => instruction,
        Err(e) => {
            return Err(e);
        },
    };
    let wrapped = if use_wsol {
        build_wsol_sell_instructions(payer, mint, instruction, close_mint_ata)
    } else {
        build_sol_sell_instructions(payer, mint, instruction, close_mint_ata)
    };
    let instructions = match wrapped {
        Ok(instructions) => instructions,
        Err(e) => {
            return Err(e);
        },
    };
    endpoint.prepare_tx(
        TransactionType::Sell,
        payer,
        &instructions,
        nonce_ix,
        blockhashes,
        additional_fee,
        additional_tip,
        None,
    )
}

/// Whether `outcome` is what a batch comes to once the instructions of its
/// items are `built`: the error of the item that could not be built, or
/// the prepared transactions of the batch.
pub open spec fn spec_batch_completed(
    endpoint: TradingEndpoint,
    tx_type: TransactionType,
    built: Result<Vec<BatchTxItem>, TradingEndpointError>,
    blockhash: Blockhash,
    fee: PriorityFee,
    tip: u64,
    outcome: Result<PreparedBatch, TradingEndpointError>,
) -> bool {
    match built {
        Err(e) => outcome == Err::<PreparedBatch, TradingEndpointError>(e),
        Ok(batch) => endpoint.spec_prepared_batch_for_a_draw(
            BatchRequest { tx_type, items: batch@, blockhash, custom_fee: Some(fee), custom_tip: tip },
            outcome,
        ),
    }
}

/// Finishes a batch once the instructions of its items are built: prepares
/// for each runtime one transaction for each item, all on one block hash
/// and with one fee and tip. An item's error ends the batch unchanged.
pub fn complete_batch(
    endpoint: &TradingEndpoint,
    tx_type: TransactionType,
    built: Result<Vec<BatchTxItem>, TradingEndpointError>,
    blockhash: Blockhash,
    fee: PriorityFee,
    tip: u64,
) -> (r: Result<PreparedBatch, TradingEndpointError>)
    ensures
        spec_batch_completed(*endpoint, tx_type, built, blockhash, fee, tip, r),
{
    match built {
        Err(e) => Err(e),
        Ok(batch) => endpoint.prepare_batch_txs(tx_type, &batch, blockhash, Some(fee), tip),
    }
}

/// Whether `outcome` is what a creation comes to once the venue has
/// answered with `built`: the venue's error, or the prepared transactions
/// of the venue's instructions, signed by the payer and by the mint.
pub open spec fn spec_create_completed(
    endpoint: TradingEndpoint,
    payer: &Keypair,
    mint: &Keypair,
    built: Result<Vec<Instruction>, TradingEndpointError>,
    blockhash: Blockhash,
    fee: Option<PriorityFee>,
    tip: Option<u64>,
    outcome: Result<PreparedBroadcast, TradingEndpointError>,
) -> bool {
    match built {
        Err(e) => outcome == Err::<PreparedBroadcast, TradingEndpointError>(e),
        Ok(instructions) => endpoint.spec_prepared_for_a_draw(
            BroadcastRequest {
                tx_type: TransactionType::Create,
                payer,
                instructions: instructions@,
                nonce_ix: None,
                blockhashes: seq![blockhash],
                additional_fee: fee,
                additional_tip: spec_or_zero(tip),
                signers: seq![payer, mint],
            },
            outcome,
        ),
    }
}

/// Finishes a creation once the venue has answered: prepares one
/// transaction for each runtime, signed by the payer and by the new mint
/// and tipped as a buy. A venue's error ends the creation unchanged.
pub fn complete_create(
    endpoint: &TradingEndpoint,
    payer: &Keypair,
    mint: &Keypair,
    built: Result<Vec<Instruction>, TradingEndpointError>,
    blockhash: Blockhash,
    fee: Option<PriorityFee>,
    tip: Option<u64>,
) -> (r: Result<PreparedBroadcast, TradingEndpointError>)
    ensures
        spec_create_completed(*endpoint, payer, mint, built, blockhash, fee, tip, r),
{
    let instructions = match built {
        Ok(instructions) => instructions,
        Err(e) => {
            return Err(e);
        },
    };
    let mut blockhashes: Vec<Blockhash> = Vec::new();
    blockhashes.push(blockhash);
    let mut others: Vec<&Keypair> = Vec::new();
    others.push(mint);
    let additional_tip: u64 = match tip {
        Some(t) => t,
        None => 0,
    };
    let no_nonce: Option<Instruction> = None;
    proof {
        assert(blockhashes@ =~= seq![blockhash]);
        assert(seq![payer] + others@ =~= seq![payer, mint]);
    }
    endpoint.prepare_tx(
        TransactionType::Create,
        payer,
        &instructions,
        &no_nonce,
        &blockhashes,
        fee,
        additional_tip,
        Some(others),
    )
}

/// The tokens that a sell gives up: the amount named, or the balance where
/// all is sold.
pub open spec fn spec_sold_amount(token_amount: TokenAmountType, balance: Option<u64>) -> u64 {
    match token_amount {
        TokenAmountType::Amount(amount) => amount,
        TokenAmountType::All => balance->Some_0,
    }
}

/// A market venue. A venue knows how to encode its own buy and sell
/// instructions; the trading algorithm is the same for all venues and
/// rests on these methods alone.
pub trait DexTrait {
    /// Whether `built` is what the venue makes of a request for a buy
    /// instruction. A venue may say as much or as little as it likes.
    open spec fn spec_buy_instruction(
        &self,
        payer: Pubkey,
        mint: Pubkey,
        creator_vault: Option<Pubkey>,
        token_account: Pubkey,
        buy: SwapInfo,
        built: Result<Instruction, TradingEndpointError>,
    ) -> bool {
        true
    }

    /// Whether `built` is what the venue makes of a request for a sell
    /// instruction.
    open spec fn spec_sell_instruction(
        &self,
        payer: Pubkey,
        mint: Pubkey,
        custom_ata: Option<Pubkey>,
        creator_vault: Option<Pubkey>,
        sell: SwapInfo,
        built: Result<Instruction, TradingEndpointError>,
    ) -> bool {
        true
    }

    /// Whether `endpoint` is what the venue broadcasts through.
    open spec fn spec_is_endpoint(&self, endpoint: TradingEndpoint) -> bool {
        true
    }

    /// Whether `wrapped` is the venue's answer to whether it trades against
    /// wrapped SOL.
    open spec fn spec_uses_wsol(&self, wrapped: bool) -> bool {
        true
    }

    /// Whether `built` is what the venue makes of a request for the
    /// instructions of a creation.
    open spec fn spec_create_instructions(
        &self,
        payer: Pubkey,
        create: Create,
        built: Result<Vec<Instruction>, TradingEndpointError>,
    ) -> bool {
        true
    }

    /// Whether the venue has what it needs to build instructions.
    fn initialized(&self) -> Result<(), TradingEndpointError>;

    /// The venue's instructions for the creation of a token. A venue that
    /// creates no tokens reports the operation unsupported.
    fn build_create_instructions(&self, payer: &Keypair, create: &Create) -> (r: Result<
        Vec<Instruction>,
        TradingEndpointError,
    >)
        ensures
            self.spec_create_instructions(keypair_address(payer), *create, r),
    ;

    /// Whether the venue trades against wrapped SOL.
    fn use_wsol(&self) -> (r: bool)
        ensures
            self.spec_uses_wsol(r),
    ;

    /// The runtimes through which the venue's trades are broadcast.
    fn get_trading_endpoint(&self) -> (r: &TradingEndpoint)
        ensures
            self.spec_is_endpoint(*r),
    ;

    /// The venue's instruction for a buy of `buy.token_amount` tokens for
    /// at most `buy.sol_amount` lamports into `token_account`.
    fn build_buy_instruction(
        &self,
        payer: &Keypair,
        mint: &Pubkey,
        creator_vault: Option<&Pubkey>,
        token_account: &Pubkey,
        buy: SwapInfo,
    ) -> (r: Result<Instruction, TradingEndpointError>)
        ensures
            self.spec_buy_instruction(
                keypair_address(payer),
                *mint,
                spec_deref(creator_vault),
                *token_account,
                buy,
                r,
            ),
    ;

    /// The venue's instruction for a sell of `sell.token_amount` tokens for
    /// at least `sell.sol_amount` lamports.
    fn build_sell_instruction(
        &self,
        payer: &Keypair,
        mint: &Pubkey,
        custom_ata: Option<&Pubkey>,
        creator_vault: Option<&Pubkey>,
        sell: SwapInfo,
    ) -> (r: Result<Instruction, TradingEndpointError>)
        ensures
            self.spec_sell_instruction(
                keypair_address(payer),
                *mint,
                spec_deref(custom_ata),
                spec_deref(creator_vault),
                sell,
                r,
            ),
    ;

    /// The number of runtimes that a trade is broadcast through.
    fn get_swqos_quantity(&self) -> (r: usize)
        ensures
            exists|endpoint: TradingEndpoint|
                #[trigger] self.spec_is_endpoint(endpoint) && r == endpoint.swqos@.len(),
    {
        let endpoint = self.get_trading_endpoint();
        proof {
            assert(self.spec_is_endpoint(*endpoint));
        }
        endpoint.swqos.len()
    }

    /// Prepares the creation of a token: the venue's instructions in one
    /// transaction for each runtime of the venue's endpoint, signed by the
    /// payer and by the new mint. The venue's answer decides the outcome
    /// as `spec_create_completed` says.
    fn create(
        &self,
        payer: &Keypair,
        create: &Create,
        blockhash: Blockhash,
        fee: Option<PriorityFee>,
        tip: Option<u64>,
    ) -> (r: Result<PreparedBroadcast, TradingEndpointError>)
        ensures
            exists|endpoint: TradingEndpoint, built: Result<Vec<Instruction>, TradingEndpointError>|
                {
                    &&& self.spec_is_endpoint(endpoint)
                    &&& #[trigger] self.spec_create_instructions(
                        keypair_address(payer),
                        *create,
                        built,
                    )
                    &&& #[trigger] spec_create_completed(
                        endpoint,
                        payer,
                        &create.mint_private_key,
                        built,
                        blockhash,
                        fee,
                        tip,
                        r,
                    )
                },
    {
        let built = self.build_create_instructions(payer, create);
        let endpoint = self.get_trading_endpoint();
        let r = complete_create(
            endpoint,
            payer,
            &create.mint_private_key,
            built,
            blockhash,
            fee,
            tip,
        );
        proof {
            assert(self.spec_is_endpoint(*endpoint));
            assert(spec_create_completed(
                *endpoint,
                payer,
                &create.mint_private_key,
                built,
                blockhash,
                fee,
                tip,
                r,
            ));
        }
        r
    }

    /// Prepares a buy of `token_amount` tokens for at most `sol_amount`
    /// lamports: the buyer's token account as `create_ata` asks, then the
    /// venue's buy, in one transaction for each runtime of the venue's
    /// endpoint. A token account without an address is an error; the
    /// venue's answer decides the rest as `spec_buy_completed` says.
    fn buy_immediately(
        &self,
        payer: &Keypair,
        mint: &Pubkey,
        extra_address: Option<&Pubkey>,
        sol_amount: u64,
        token_amount: u64,
        blockhashes: &Vec<Blockhash>,
        nonce_ix: &Option<Instruction>,
        create_ata: CreateATA,
        additional_fee: Option<PriorityFee>,
        additional_tip: u64,
    ) -> (r: Result<PreparedBroadcast, TradingEndpointError>)
        ensures
            !token_account_available(keypair_address(payer), *mint, create_ata) ==> r matches Err(
                TradingEndpointError::InstructionBuildError(_),
            ),
            token_account_available(keypair_address(payer), *mint, create_ata) ==> exists|
                endpoint: TradingEndpoint,
                built: Result<Instruction, TradingEndpointError>,
            |
                {
                    &&& #[trigger] self.spec_buy_instruction(
                        keypair_address(payer),
                        *mint,
                        spec_deref(extra_address),
                        spec_token_account(keypair_address(payer), *mint, create_ata),
                        SwapInfo { token_amount, sol_amount },
                        built,
                    )
                    &&& self.spec_is_endpoint(endpoint)
                    &&& #[trigger] spec_buy_completed(
                        endpoint,
                        payer,
                        spec_token_account_instructions(keypair_address(payer), *mint, create_ata),
                        built,
                        *nonce_ix,
                        blockhashes@,
                        additional_fee,
                        additional_tip,
                        r,
                    )
                },
    {
        let (token_account, lead) = match build_token_account_instructions(payer, mint, create_ata) {
            Ok(pair) => pair,
            Err(e) => {
                return Err(e);
            },
        };
        let built = self.build_buy_instruction(
            payer,
            mint,
            extra_address,
            &token_account,
            SwapInfo { token_amount, sol_amount },
        );
        let endpoint = self.get_trading_endpoint();
        let r = complete_buy(
            endpoint,
            payer,
            lead,
            built,
            nonce_ix,
            blockhashes,
            additional_fee,
            additional_tip,
        );
        proof {
            assert(spec_buy_completed(
                *endpoint,
                payer,
                spec_token_account_instructions(keypair_address(payer), *mint, create_ata),
                built,
                *nonce_ix,
                blockhashes@,
                additional_fee,
                additional_tip,
                r,
            ));
        }
        r
    }

    /// Prepares a sell of `token_amount` tokens for at least `sol_amount`
    /// lamports: the venue's sell, wrapped as the venue's currency asks, in
    /// one transaction for each runtime of the venue's endpoint. The
    /// venue's answers decide the outcome as `spec_sell_completed` says.
    fn sell_immediately(
        &self,
        payer: &Keypair,
        mint: &Pubkey,
        custom_ata: Option<&Pubkey>,
        extra_address: Option<&Pubkey>,
        token_amount: u64,
        sol_amount: u64,
        close_mint_ata: bool,
        blockhashes: &Vec<Blockhash>,
        nonce_ix: &Option<Instruction>,
        additional_fee: Option<PriorityFee>,
        additional_tip: u64,
    ) -> (r: Result<PreparedBroadcast, TradingEndpointError>)
        ensures
            exists|
                endpoint: TradingEndpoint,
                use_wsol: bool,
                built: Result<Instruction, TradingEndpointError>,
            |
                {
                    &&& #[trigger] self.spec_sell_instruction(
                        keypair_address(payer),
                        *mint,
                        spec_deref(custom_ata),
                        spec_deref(extra_address),
                        SwapInfo { token_amount, sol_amount },
                        built,
                    )
                    &&& self.spec_is_endpoint(endpoint)
                    &&& self.spec_uses_wsol(use_wsol)
                    &&& #[trigger] spec_sell_completed(
                        endpoint,
                        use_wsol,
                        payer,
                        *mint,
                        close_mint_ata,
                        built,
                        *nonce_ix,
                        blockhashes@,
                        additional_fee,
                        additional_tip,
                        r,
                    )
                },
    {
        let built = self.build_sell_instruction(
            payer,
            mint,
            custom_ata,
            extra_address,
            SwapInfo { token_amount, sol_amount },
        );
        let use_wsol = self.use_wsol();
        let endpoint = self.get_trading_endpoint();
        let r = complete_sell(
            endpoint,
            use_wsol,
            payer,
            mint,
            close_mint_ata,
            built,
            nonce_ix,
            blockhashes,
            additional_fee,
            additional_tip,
        );
        proof {
            assert(spec_sell_completed(
                *endpoint,
                use_wsol,
                payer,
                *mint,
                close_mint_ata,
                built,
                *nonce_ix,
                blockhashes@,
                additional_fee,
                additional_tip,
                r,
            ));
        }
        r
    }

    /// Prepares a buy for `sol_amount` lamports against the pool as the
    /// ledger showed it: prices the buy, caps the lamports by the slippage,
    /// and goes on as `buy_immediately` with a token account that is
    /// created where it is missing. A pool with an empty reserve is an
    /// error, and nothing is prepared.
    fn buy(
        &self,
        payer: &Keypair,
        mint: &Pubkey,
        pool_info: &PoolInfo,
        blockhash: Blockhash,
        sol_amount: u64,
        slippage_basis_points: u64,
        fee: Option<PriorityFee>,
        tip: Option<u64>,
    ) -> (r: Result<PreparedBroadcast, TradingEndpointError>)
        ensures
            pool_info.sol_reserves == 0 || pool_info.token_reserves == 0 ==> r == Err::<
                PreparedBroadcast,
                TradingEndpointError,
            >(TradingEndpointError::PoolUninitialized),
            pool_info.sol_reserves > 0 && pool_info.token_reserves > 0 && !token_account_available(
                keypair_address(payer),
                *mint,
                CreateATA::Idempotent,
            ) ==> r matches Err(TradingEndpointError::InstructionBuildError(_)),
            pool_info.sol_reserves > 0 && pool_info.token_reserves > 0 && token_account_available(
                keypair_address(payer),
                *mint,
                CreateATA::Idempotent,
            ) ==> exists|endpoint: TradingEndpoint, built: Result<Instruction, TradingEndpointError>|
                {
                    &&& #[trigger] self.spec_buy_instruction(
                        keypair_address(payer),
                        *mint,
                        pool_info.creator_vault,
                        spec_token_account(keypair_address(payer), *mint, CreateATA::Idempotent),
                        spec_buy_quote(
                            pool_info.sol_reserves as nat,
                            pool_info.token_reserves as nat,
                            sol_amount,
                            slippage_basis_points,
                        ),
                        built,
                    )
                    &&& self.spec_is_endpoint(endpoint)
                    &&& #[trigger] spec_buy_completed(
                        endpoint,
                        payer,
                        spec_token_account_instructions(
                            keypair_address(payer),
                            *mint,
                            CreateATA::Idempotent,
                        ),
                        built,
                        None,
                        seq![blockhash],
                        fee,
                        spec_or_zero(tip),
                        r,
                    )
                },
    {
        let quote = match quote_buy(pool_info, sol_amount, slippage_basis_points) {
            Ok(quote) => quote,
            Err(e) => {
                return Err(e);
            },
        };
        let mut blockhashes: Vec<Blockhash> = Vec::new();
        blockhashes.push(blockhash);
        proof {
            assert(blockhashes@ =~= seq![blockhash]);
        }
        let additional_tip: u64 = match tip {
            Some(t) => t,
            None => 0,
        };
        let no_nonce: Option<Instruction> = None;
        let vault = pool_info.creator_vault.as_ref();
        proof {
            assert(spec_deref(vault) == pool_info.creator_vault);
            assert(quote == SwapInfo {
                token_amount: quote.token_amount,
                sol_amount: quote.sol_amount,
            });
        }
        let r = self.buy_immediately(
            payer,
            mint,
            vault,
            quote.sol_amount,
            quote.token_amount,
            &blockhashes,
            &no_nonce,
            CreateATA::Idempotent,
            fee,
            additional_tip,
        );
        proof {
            let owner = keypair_address(payer);
            if token_account_available(owner, *mint, CreateATA::Idempotent) {
                let (endpoint, built) = choose|
                    endpoint: TradingEndpoint,
                    built: Result<Instruction, TradingEndpointError>,
                |
                    {
                        &&& #[trigger] self.spec_buy_instruction(
                            owner,
                            *mint,
                            spec_deref(vault),
                            spec_token_account(owner, *mint, CreateATA::Idempotent),
                            SwapInfo {
                                token_amount: quote.token_amount,
                                sol_amount: quote.sol_amount,
                            },
                            built,
                        )
                        &&& self.spec_is_endpoint(endpoint)
                        &&& #[trigger] spec_buy_completed(
                            endpoint,
                            payer,
                            spec_token_account_instructions(owner, *mint, CreateATA::Idempotent),
                            built,
                            no_nonce,
                            blockhashes@,
                            fee,
                            additional_tip,
                            r,
                        )
                    };
                assert(self.spec_buy_instruction(
                    owner,
                    *mint,
                    pool_info.creator_vault,
                    spec_token_account(owner, *mint, CreateATA::Idempotent),
                    spec_buy_quote(
                        pool_info.sol_reserves as nat,
                        pool_info.token_reserves as nat,
                        sol_amount,
                        slippage_basis_points,
                    ),
                    built,
                ));
                assert(spec_buy_completed(
                    endpoint,
                    payer,
                    spec_token_account_instructions(owner, *mint, CreateATA::Idempotent),
                    built,
                    None,
                    seq![blockhash],
                    fee,
                    spec_or_zero(tip),
                    r,
                ));
            }
        }
        r
    }

    /// Prepares a sell against the pool as the ledger showed it: settles
    /// the amount to sell, from `balance` where all is sold, prices the
    /// sell, lowers the lamports by the slippage, and goes on as
    /// `sell_immediately`. An unknown balance where all is sold and a pool
    /// with an empty reserve are errors, and nothing is prepared.
    fn sell(
        &self,
        payer: &Keypair,
        mint: &Pubkey,
        pool_info: &PoolInfo,
        blockhash: Blockhash,
        token_amount: TokenAmountType,
        balance: Option<u64>,
        slippage_basis_points: u64,
        custom_ata: Option<&Pubkey>,
        close_mint_ata: bool,
        additional_fee: Option<PriorityFee>,
        additional_tip: u64,
    ) -> (r: Result<PreparedBroadcast, TradingEndpointError>)
        ensures
            token_amount is All && balance is None ==> r matches Err(
                TradingEndpointError::LedgerQueryError(_),
            ),
            !(token_amount is All && balance is None) && (pool_info.sol_reserves == 0
                || pool_info.token_reserves == 0) ==> r == Err::<
                PreparedBroadcast,
                TradingEndpointError,
            >(TradingEndpointError::PoolUninitialized),
            !(token_amount is All && balance is None) && pool_info.sol_reserves > 0
                && pool_info.token_reserves > 0 ==> exists|
                endpoint: TradingEndpoint,
                use_wsol: bool,
                built: Result<Instruction, TradingEndpointError>,
            |
                {
                    &&& #[trigger] self.spec_sell_instruction(
                        keypair_address(payer),
                        *mint,
                        spec_deref(custom_ata),
                        pool_info.creator_vault,
                        spec_sell_quote(
                            pool_info.sol_reserves as nat,
                            pool_info.token_reserves as nat,
                            spec_sold_amount(token_amount, balance),
                            slippage_basis_points,
                        ),
                        built,
                    )
                    &&& self.spec_is_endpoint(endpoint)
                    &&& self.spec_uses_wsol(use_wsol)
                    &&& #[trigger] spec_sell_completed(
                        endpoint,
                        use_wsol,
                        payer,
                        *mint,
                        close_mint_ata,
                        built,
                        None,
                        seq![blockhash],
                        additional_fee,
                        additional_tip,
                        r,
                    )
                },
    {
        let amount = match token_amount.to_amount(balance) {
            Ok(amount) => amount,
            Err(e) => {
                return Err(e);
            },
        };
        let quote = match quote_sell(pool_info, amount, slippage_basis_points) {
            Ok(quote) => quote,
            Err(e) => {
                return Err(e);
            },
        };
        let mut blockhashes: Vec<Blockhash> = Vec::new();
        blockhashes.push(blockhash);
        proof {
            assert(blockhashes@ =~= seq![blockhash]);
        }
        let no_nonce: Option<Instruction> = None;
        let vault = pool_info.creator_vault.as_ref();
        proof {
            assert(spec_deref(vault) == pool_info.creator_vault);
            assert(quote == SwapInfo {
                token_amount: quote.token_amount,
                sol_amount: quote.sol_amount,
            });
        }
        let r = self.sell_immediately(
            payer,
            mint,
            custom_ata,
            vault,
            quote.token_amount,
            quote.sol_amount,
            close_mint_ata,
            &blockhashes,
            &no_nonce,
            additional_fee,
            additional_tip,
        );
        proof {
            let owner = keypair_address(payer);
            let (endpoint, use_wsol, built) = choose|
                endpoint: TradingEndpoint,
                use_wsol: bool,
                built: Result<Instruction, TradingEndpointError>,
            |
                {
                    &&& #[trigger] self.spec_sell_instruction(
                        owner,
                        *mint,
                        spec_deref(custom_ata),
                        spec_deref(vault),
                        SwapInfo { token_amount: quote.token_amount, sol_amount: quote.sol_amount },
                        built,
                    )
                    &&& self.spec_is_endpoint(endpoint)
                    &&& self.spec_uses_wsol(use_wsol)
                    &&& #[trigger] spec_sell_completed(
                        endpoint,
                        use_wsol,
                        payer,
                        *mint,
                        close_mint_ata,
                        built,
                        no_nonce,
                        blockhashes@,
                        additional_fee,
                        additional_tip,
                        r,
                    )
                };
            assert(self.spec_sell_instruction(
                owner,
                *mint,
                spec_deref(custom_ata),
                pool_info.creator_vault,
                spec_sell_quote(
                    pool_info.sol_reserves as nat,
                    pool_info.token_reserves as nat,
                    spec_sold_amount(token_amount, balance),
                    slippage_basis_points,
                ),
                built,
            ));
            assert(spec_sell_completed(
                endpoint,
                use_wsol,
                payer,
                *mint,
                close_mint_ata,
                built,
                None,
                seq![blockhash],
                additional_fee,
                additional_tip,
                r,
            ));
        }
        r
    }
}

/// The batch trades of a venue. Every venue has them: they rest on the
/// venue's own methods alone.
pub trait DexBatch: DexTrait {
    /// Prepares a batch of buys against one pool as the ledger showed it.
    /// The buys are priced in the items' order, each against the reserves
    /// that the buys before it leave; then the instructions of every buyer
    /// are built, and for each runtime one transaction for each buyer is
    /// prepared. All share one block hash, one fee and one tip. An error in
    /// the pricing ends the call before any instruction is built.
    fn batch_buy(
        &self,
        mint: &Pubkey,
        pool_info: &PoolInfo,
        blockhash: Blockhash,
        slippage_basis_points: u64,
        fee: PriorityFee,
        tip: u64,
        items: Vec<BatchBuyParam>,
    ) -> (r: Result<PreparedBatch, TradingEndpointError>)
        ensures
            match spec_batch_buy(
                pool_info.sol_reserves,
                pool_info.token_reserves,
                spec_buy_amounts(items@),
                slippage_basis_points,
            ) {
                Err(e) => r == Err::<PreparedBatch, TradingEndpointError>(e),
                Ok(quotes) => exists|
                    endpoint: TradingEndpoint,
                    built: Result<Vec<BatchTxItem>, TradingEndpointError>,
                |
                    {
                        &&& #[trigger] spec_buy_items_built(
                            self,
                            *mint,
                            pool_info.creator_vault,
                            items@,
                            quotes,
                            built,
                        )
                        &&& self.spec_is_endpoint(endpoint)
                        &&& #[trigger] spec_batch_completed(
                            endpoint,
                            TransactionType::Buy,
                            built,
                            blockhash,
                            fee,
                            tip,
                            r,
                        )
                    },
            },
    {
        let amounts = buy_amounts(&items);
        let quotes = match simulate_batch_buy(pool_info, &amounts, slippage_basis_points) {
            Ok(quotes) => quotes,
            Err(e) => {
                return Err(e);
            },
        };
        let vault = pool_info.creator_vault.as_ref();
        proof {
            assert(spec_deref(vault) == pool_info.creator_vault);
        }
        let built = build_batch_buy_items(self, mint, vault, items, &quotes);
        let endpoint = self.get_trading_endpoint();
        let r = complete_batch(endpoint, TransactionType::Buy, built, blockhash, fee, tip);
        proof {
            assert(spec_buy_items_built(
                self,
                *mint,
                pool_info.creator_vault,
                items@,
                quotes@,
                built,
            ));
            assert(spec_batch_completed(
                *endpoint,
                TransactionType::Buy,
                built,
                blockhash,
                fee,
                tip,
                r,
            ));
        }
        r
    }

    /// Prepares a batch of sells against one pool as the ledger showed it,
    /// in the way of `batch_buy`: each sell is priced against the reserves
    /// that the sells before it leave.
    fn batch_sell(
        &self,
        mint: &Pubkey,
        pool_info: &PoolInfo,
        blockhash: Blockhash,
        slippage_basis_points: u64,
        fee: PriorityFee,
        tip: u64,
        items: Vec<BatchSellParam>,
    ) -> (r: Result<PreparedBatch, TradingEndpointError>)
        ensures
            match spec_batch_sell(
                pool_info.sol_reserves,
                pool_info.token_reserves,
                spec_sell_amounts(items@),
                slippage_basis_points,
            ) {
                Err(e) => r == Err::<PreparedBatch, TradingEndpointError>(e),
                Ok(quotes) => exists|
                    endpoint: TradingEndpoint,
                    use_wsol: bool,
                    built: Result<Vec<BatchTxItem>, TradingEndpointError>,
                |
                    {
                        &&& self.spec_uses_wsol(use_wsol)
                        &&& #[trigger] spec_sell_items_built(
                            self,
                            use_wsol,
                            *mint,
                            pool_info.creator_vault,
                            items@,
                            quotes,
                            built,
                        )
                        &&& self.spec_is_endpoint(endpoint)
                        &&& #[trigger] spec_batch_completed(
                            endpoint,
                            TransactionType::Sell,
                            built,
                            blockhash,
                            fee,
                            tip,
                            r,
                        )
                    },
            },
    {
        let amounts = sell_amounts(&items);
        let quotes = match simulate_batch_sell(pool_info, &amounts, slippage_basis_points) {
            Ok(quotes) => quotes,
            Err(e) => {
                return Err(e);
            },
        };
        let vault = pool_info.creator_vault.as_ref();
        proof {
            assert(spec_deref(vault) == pool_info.creator_vault);
        }
        let use_wsol = self.use_wsol();
        let built = build_batch_sell_items(self, use_wsol, mint, vault, items, &quotes);
        let endpoint = self.get_trading_endpoint();
        let r = complete_batch(endpoint, TransactionType::Sell, built, blockhash, fee, tip);
        proof {
            assert(spec_sell_items_built(
                self,
                use_wsol,
                *mint,
                pool_info.creator_vault,
                items@,
                quotes@,
                built,
            ));
            assert(spec_batch_completed(
                *endpoint,
                TransactionType::Sell,
                built,
                blockhash,
                fee,
                tip,
                r,
            ));
        }
        r
    }
}

impl<D: DexTrait + ?Sized> DexBatch for D {
}

} // verus!
