//! Calls into the random number generator. Verus takes every contract in
//! this file on trust.

use vstd::prelude::*;
use solana_sdk::pubkey::Pubkey;

verus! {

/// Whether `c` is an ASCII letter or digit.
pub open spec fn is_alphanumeric(c: char) -> bool {
    ('a' <= c && c <= 'z') || ('A' <= c && c <= 'Z') || ('0' <= c && c <= '9')
}

/// Calls `choose` of rand's `IndexedRandom` on the pool with the thread's
/// generator. An empty pool gives nothing; any other gives one of its
/// accounts, and which one is left open.
#[verifier::external_body]
pub(crate) fn choose_account(pool: &Vec<Pubkey>) -> (r: Option<Pubkey>)
    ensures
        pool@.len() == 0 ==> r is None,
        pool@.len() > 0 ==> r is Some && pool@.contains(r->Some_0),
{
    rand::seq::IndexedRandom::choose(pool.as_slice(), &mut rand::rng()).copied()
}

/// Draws eight characters from rand's `Alphanumeric` distribution with the
/// thread's generator. Which characters come is left open.
#[verifier::external_body]
pub fn random_seed() -> (r: String)
    ensures
        r@.len() == 8,
        forall|i: int| 0 <= i < r@.len() ==> is_alphanumeric(#[trigger] r@[i]),
{
    rand::Rng::sample_iter(rand::rng(), &rand::distr::Alphanumeric).take(8).map(char::from).collect()
}

} // verus!
