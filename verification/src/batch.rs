use vstd::prelude::*;
use solana_sdk::instruction::Instruction;
use solana_sdk::pubkey::Pubkey;
use solana_sdk::signature::Keypair;
use crate::builder::build_sol_sell_instructions;
use crate::builder::build_token_account_instructions;
use crate::builder::build_wsol_sell_instructions;
use crate::builder::spec_token_account;
use crate::builder::spec_token_account_instructions;
use crate::builder::token_account_available;
use crate::dex::sell_accounts_available;
use crate::dex::spec_deref;
use crate::dex::spec_sell_instructions;
use crate::dex::DexTrait;
use crate::endpoint::BatchTxItem;
use crate::errors::TradingEndpointError;
use crate::sdk::keypair_address;
use crate::types::BatchBuyParam;
use crate::types::BatchSellParam;
use crate::types::CreateATA;
use crate::types::SwapInfo;

verus! {

/// The lamports that the buyers of a batch pay, in the items' order.
pub open spec fn spec_buy_amounts(items: Seq<BatchBuyParam>) -> Seq<u64> {
    Seq::new(items.len(), |k: int| items[k].sol_amount)
}

/// The tokens that the sellers of a batch give, in the items' order.
pub open spec fn spec_sell_amounts(items: Seq<BatchSellParam>) -> Seq<u64> {
    Seq::new(items.len(), |k: int| items[k].token_amount)
}

/// Whether `instructions` are those of one buyer of a batch: the buyer's
/// token account, created where it is missing, then an instruction that the
/// venue built for the buyer's quote.
pub open spec fn spec_buy_item_built<D: DexTrait + ?Sized>(
    dex: &D,
    mint: Pubkey,
    creator_vault: Option<Pubkey>,
    payer: &Keypair,
    quote: SwapInfo,
    instructions: Seq<Instruction>,
) -> bool {
    let owner = keypair_address(payer);
    &&& token_account_available(owner, mint, CreateATA::Idempotent)
    &&& exists|venue: Instruction|
        {
            &&& #[trigger] dex.spec_buy_instruction(
                owner,
                mint,
                creator_vault,
                spec_token_account(owner, mint, CreateATA::Idempotent),
                quote,
                Ok(venue),
            )
            &&& instructions == spec_token_account_instructions(
                owner,
                mint,
                CreateATA::Idempotent,
            ).push(venue)
        }
}

/// Whether `error` is why the instructions of one buyer of a batch could
/// not be built: the buyer's token account has no address, or the venue
/// answered with the error.
pub open spec fn spec_buy_item_failed<D: DexTrait + ?Sized>(
    dex: &D,
    mint: Pubkey,
    creator_vault: Option<Pubkey>,
    payer: &Keypair,
    quote: SwapInfo,
    error: TradingEndpointError,
) -> bool {
    let owner = keypair_address(payer);
    if token_account_available(owner, mint, CreateATA::Idempotent) {
        dex.spec_buy_instruction(
            owner,
            mint,
            creator_vault,
            spec_token_account(owner, mint, CreateATA::Idempotent),
            quote,
            Err(error),
        )
    } else {
        error matches TradingEndpointError::InstructionBuildError(_)
    }
}

/// Whether `instructions` are those of one seller of a batch: an
/// instruction that the venue built for the seller's quote, wrapped as the
/// venue's currency asks.
pub open spec fn spec_sell_item_built<D: DexTrait + ?Sized>(
    dex: &D,
    use_wsol: bool,
    mint: Pubkey,
    creator_vault: Option<Pubkey>,
    item: BatchSellParam,
    quote: SwapInfo,
    instructions: Seq<Instruction>,
) -> bool {
    let owner = keypair_address(&item.payer);
    &&& sell_accounts_available(use_wsol, owner, mint, item.close_mint_ata)
    &&& exists|venue: Instruction|
        {
            &&& #[trigger] dex.spec_sell_instruction(
                owner,
                mint,
                item.custom_ata,
                creator_vault,
                quote,
                Ok(venue),
            )
            &&& instructions == spec_sell_instructions(
                use_wsol,
                owner,
                mint,
                venue,
                item.close_mint_ata,
            )
        }
}

/// Whether `error` is why the instructions of one seller of a batch could
/// not be built: the venue answered with the error, or an account that the
/// sell touches has no address.
pub open spec fn spec_sell_item_failed<D: DexTrait + ?Sized>(
    dex: &D,
    use_wsol: bool,
    mint: Pubkey,
    creator_vault: Option<Pubkey>,
    item: BatchSellParam,
    quote: SwapInfo,
    error: TradingEndpointError,
) -> bool {
    let owner = keypair_address(&item.payer);
    ||| dex.spec_sell_instruction(owner, mint, item.custom_ata, creator_vault, quote, Err(error))
    ||| (!sell_accounts_available(use_wsol, owner, mint, item.close_mint_ata)
        && error matches TradingEndpointError::InstructionBuildError(_))
}

/// Whether `outcome` is what building the instructions of a batch of buys
/// gives: for every buyer the instructions of the buy at the buyer's
/// quote, or the error of a buyer whose instructions could not be built.
pub open spec fn spec_buy_items_built<D: DexTrait + ?Sized>(
    dex: &D,
    mint: Pubkey,
    creator_vault: Option<Pubkey>,
    items: Seq<BatchBuyParam>,
    quotes: Seq<SwapInfo>,
    outcome: Result<Vec<BatchTxItem>, TradingEndpointError>,
) -> bool {
    match outcome {
        Ok(batch) => {
            &&& batch@.len() == items.len()
            &&& forall|k: int|
                0 <= k < items.len() ==> {
                    &&& (#[trigger] batch@[k]).payer == items[k].payer
                    &&& spec_buy_item_built(
                        dex,
                        mint,
                        creator_vault,
                        &items[k].payer,
                        quotes[k],
                        batch@[k].instructions@,
                    )
                }
        },
        Err(error) => exists|k: int|
            0 <= k < items.len() && #[trigger] spec_buy_item_failed(
                dex,
                mint,
                creator_vault,
                &items[k].payer,
                quotes[k],
                error,
            ),
    }
}

/// Whether `outcome` is what building the instructions of a batch of
/// sells gives.
pub open spec fn spec_sell_items_built<D: DexTrait + ?Sized>(
    dex: &D,
    use_wsol: bool,
    mint: Pubkey,
    creator_vault: Option<Pubkey>,
    items: Seq<BatchSellParam>,
    quotes: Seq<SwapInfo>,
    outcome: Result<Vec<BatchTxItem>, TradingEndpointError>,
) -> bool {
    match outcome {
        Ok(batch) => {
            &&& batch@.len() == items.len()
            &&& forall|k: int|
                0 <= k < items.len() ==> {
                    &&& (#[trigger] batch@[k]).payer == items[k].payer
                    &&& spec_sell_item_built(
                        dex,
                        use_wsol,
                        mint,
                        creator_vault,
                        items[k],
                        quotes[k],
                        batch@[k].instructions@,
                    )
                }
        },
        Err(error) => exists|k: int|
            0 <= k < items.len() && #[trigger] spec_sell_item_failed(
                dex,
                use_wsol,
                mint,
                creator_vault,
                items[k],
                quotes[k],
                error,
            ),
    }
}

/// The items of a list in the opposite order.
pub fn reversed<T>(list: Vec<T>) -> (r: Vec<T>)
    ensures
        r@.len() == list@.len(),
        forall|k: int| 0 <= k < r@.len() ==> #[trigger] r@[k] == list@[list@.len() - 1 - k],
{
    let mut rest = list;
    let mut out: Vec<T> = Vec::new();
    while rest.len() > 0
        invariant
            rest@.len() + out@.len() == list@.len(),
            rest@ == list@.take(rest@.len() as int),
            forall|k: int| 0 <= k < out@.len() ==> #[trigger] out@[k] == list@[list@.len() - 1 - k],
        decreases rest@.len(),
    {
        let item = rest.pop().unwrap();
        out.push(item);
    }
    out
}

/// The lamports that the buyers of a batch pay, in the items' order.
pub fn buy_amounts(items: &Vec<BatchBuyParam>) -> (r: Vec<u64>)
    ensures
        r@ == spec_buy_amounts(items@),
{
    let mut amounts: Vec<u64> = Vec::new();
    let mut k: usize = 0;
    while k < items.len()
        invariant
            k <= items@.len(),
            amounts@.len() == k,
            forall|j: int| 0 <= j < k ==> #[trigger] amounts@[j] == items@[j].sol_amount,
        decreases items@.len() - k,
    {
        amounts.push(items[k].sol_amount);
        k = k + 1;
    }
    proof {
        assert(amounts@ =~= spec_buy_amounts(items@));
    }
    amounts
}

/// The tokens that the sellers of a batch give, in the items' order.
pub fn sell_amounts(items: &Vec<BatchSellParam>) -> (r: Vec<u64>)
    ensures
        r@ == spec_sell_amounts(items@),
{
    let mut amounts: Vec<u64> = Vec::new();
    let mut k: usize = 0;
    while k < items.len()
        invariant
            k <= items@.len(),
            amounts@.len() == k,
            forall|j: int| 0 <= j < k ==> #[trigger] amounts@[j] == items@[j].token_amount,
        decreases items@.len() - k,
    {
        amounts.push(items[k].token_amount);
        k = k + 1;
    }
    proof {
        assert(amounts@ =~= spec_sell_amounts(items@));
    }
    amounts
}

/// Builds the instructions of every buyer of a batch, each at the buyer's
/// quote, and hands each buyer's key pair on with them. The first buyer
/// whose instructions cannot be built ends the call.
pub fn build_batch_buy_items<D: DexTrait + ?Sized>(
    dex: &D,
    mint: &Pubkey,
    creator_vault: Option<&Pubkey>,
    items: Vec<BatchBuyParam>,
    quotes: &Vec<SwapInfo>,
) -> (r: Result<Vec<BatchTxItem>, TradingEndpointError>)
    requires
        quotes@.len() == items@.len(),
    ensures
        spec_buy_items_built(dex, *mint, spec_deref(creator_vault), items@, quotes@, r),
{
    let n = items.len();
    let mut all: Vec<Vec<Instruction>> = Vec::new();
    let mut k: usize = 0;
    while k < n
        invariant
            n == items@.len(),
            quotes@.len() == n,
            k <= n,
            all@.len() == k,
            forall|j: int|
                0 <= j < k ==> spec_buy_item_built(
                    dex,
                    *mint,
                    spec_deref(creator_vault),
                    &items@[j].payer,
                    quotes@[j],
                    (#[trigger] all@[j])@,
                ),
        decreases n - k,
    {
        let payer = &items[k].payer;
        let (token_account, mut instructions) = match build_token_account_instructions(
            payer,
            mint,
            CreateATA::Idempotent,
        ) {
            Ok(pair) => pair,
            Err(e) => {
                proof {
                    assert(spec_buy_item_failed(
                        dex,
                        *mint,
                        spec_deref(creator_vault),
                        &items@[k as int].payer,
                        quotes@[k as int],
                        e,
                    ));
                }
                return Err(e);
            },
        };
        let venue = match dex.build_buy_instruction(
            payer,
            mint,
            creator_vault,
            &token_account,
            quotes[k],
        ) {
            Ok(venue) => venue,
            Err(e) => {
                proof {
                    assert(spec_buy_item_failed(
                        dex,
                        *mint,
                        spec_deref(creator_vault),
                        &items@[k as int].payer,
                        quotes@[k as int],
                        e,
                    ));
                }
                return Err(e);
            },
        };
        instructions.push(venue);
        proof {
            assert(dex.spec_buy_instruction(
                keypair_address(payer),
                *mint,
                spec_deref(creator_vault),
                spec_token_account(keypair_address(payer), *mint, CreateATA::Idempotent),
                quotes@[k as int],
                Ok(venue),
            ));
            assert(spec_buy_item_built(
                dex,
                *mint,
                spec_deref(creator_vault),
                &items@[k as int].payer,
                quotes@[k as int],
                instructions@,
            ));
        }
        all.push(instructions);
        k = k + 1;
    }
    let ghost given = items@;
    let ghost built = all@;
    let mut items_left = reversed(items);
    let mut all_left = reversed(all);
    let mut batch: Vec<BatchTxItem> = Vec::new();
    while items_left.len() > 0
        invariant
            n == given.len(),
            built.len() == n,
            items_left@.len() == all_left@.len(),
            items_left@.len() + batch@.len() == n,
            forall|j: int|
                0 <= j < items_left@.len() ==> #[trigger] items_left@[j] == given[n - 1 - j],
            forall|j: int| 0 <= j < all_left@.len() ==> #[trigger] all_left@[j] == built[n - 1 - j],
            forall|j: int|
                0 <= j < batch@.len() ==> (#[trigger] batch@[j]).payer == given[j].payer
                    && batch@[j].instructions == built[j],
        decreases items_left@.len(),
    {
        let item = items_left.pop().unwrap();
        let instructions = all_left.pop().unwrap();
        batch.push(BatchTxItem { payer: item.payer, instructions });
    }
    proof {
        assert forall|j: int| 0 <= j < n implies {
            &&& (#[trigger] batch@[j]).payer == given[j].payer
            &&& spec_buy_item_built(
                dex,
                *mint,
                spec_deref(creator_vault),
                &given[j].payer,
                quotes@[j],
                batch@[j].instructions@,
            )
        } by {
            assert(batch@[j].instructions == built[j]);
        }
    }
    Ok(batch)
}

/// Builds the instructions of every seller of a batch, each at the
/// seller's quote, and hands each seller's key pair on with them. The
/// first seller whose instructions cannot be built ends the call.
pub fn build_batch_sell_items<D: DexTrait + ?Sized>(
    dex: &D,
    use_wsol: bool,
    mint: &Pubkey,
    creator_vault: Option<&Pubkey>,
    items: Vec<BatchSellParam>,
    quotes: &Vec<SwapInfo>,
) -> (r: Result<Vec<BatchTxItem>, TradingEndpointError>)
    requires
        quotes@.len() == items@.len(),
    ensures
        spec_sell_items_built(dex, use_wsol, *mint, spec_deref(creator_vault), items@, quotes@, r),
{
    let n = items.len();
    let mut all: Vec<Vec<Instruction>> = Vec::new();
    let mut k: usize = 0;
    while k < n
        invariant
            n == items@.len(),
            quotes@.len() == n,
            k <= n,
            all@.len() == k,
            forall|j: int|
                0 <= j < k ==> spec_sell_item_built(
                    dex,
                    use_wsol,
                    *mint,
                    spec_deref(creator_vault),
                    items@[j],
                    quotes@[j],
                    (#[trigger] all@[j])@,
                ),
        decreases n - k,
    {
        let item = &items[k];
        let venue = match dex.build_sell_instruction(
            &item.payer,
            mint,
            item.custom_ata.as_ref(),
            creator_vault,
            quotes[k],
        ) {
            Ok(venue) => venue,
            Err(e) => {
                proof {
                    assert(spec_sell_item_failed(
                        dex,
                        use_wsol,
                        *mint,
                        spec_deref(creator_vault),
                        items@[k as int],
                        quotes@[k as int],
                        e,
                    ));
                }
                return Err(e);
            },
        };
        let wrapped = if use_wsol {
            build_wsol_sell_instructions(&item.payer, mint, venue, item.close_mint_ata)
        } else {
            build_sol_sell_instructions(&item.payer, mint, venue, item.close_mint_ata)
        };
        let instructions = match wrapped {
            Ok(instructions) => instructions,
            Err(e) => {
                proof {
                    assert(spec_sell_item_failed(
                        dex,
                        use_wsol,
                        *mint,
                        spec_deref(creator_vault),
                        items@[k as int],
                        quotes@[k as int],
                        e,
                    ));
                }
                return Err(e);
            },
        };
        proof {
            assert(dex.spec_sell_instruction(
                keypair_address(&item.payer),
                *mint,
                item.custom_ata,
                spec_deref(creator_vault),
                quotes@[k as int],
                Ok(venue),
            ));
            assert(spec_sell_item_built(
                dex,
                use_wsol,
                *mint,
                spec_deref(creator_vault),
                items@[k as int],
                quotes@[k as int],
                instructions@,
            ));
        }
        all.push(instructions);
        k = k + 1;
    }
    let ghost given = items@;
    let ghost built = all@;
    let mut items_left = reversed(items);
    let mut all_left = reversed(all);
    let mut batch: Vec<BatchTxItem> = Vec::new();
    while items_left.len() > 0
        invariant
            n == given.len(),
            built.len() == n,
            items_left@.len() == all_left@.len(),
            items_left@.len() + batch@.len() == n,
            forall|j: int|
                0 <= j < items_left@.len() ==> #[trigger] items_left@[j] == given[n - 1 - j],
            forall|j: int| 0 <= j < all_left@.len() ==> #[trigger] all_left@[j] == built[n - 1 - j],
            forall|j: int|
                0 <= j < batch@.len() ==> (#[trigger] batch@[j]).payer == given[j].payer
                    && batch@[j].instructions == built[j],
        decreases items_left@.len(),
    {
        let item = items_left.pop().unwrap();
        let instructions = all_left.pop().unwrap();
        batch.push(BatchTxItem { payer: item.payer, instructions });
    }
    proof {
        assert forall|j: int| 0 <= j < n implies {
            &&& (#[trigger] batch@[j]).payer == given[j].payer
            &&& spec_sell_item_built(
                dex,
                use_wsol,
                *mint,
                spec_deref(creator_vault),
                given[j],
                quotes@[j],
                batch@[j].instructions@,
            )
        } by {
            assert(batch@[j].instructions == built[j]);
        }
    }
    Ok(batch)
}

} // verus!
