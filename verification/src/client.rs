use vstd::prelude::*;
use solana_sdk::pubkey::Pubkey;
use crate::endpoint::TradingEndpoint;
use crate::swqos::SWQoSClientView;
use crate::swqos::SWQoSConfig;
use crate::swqos::SWQoSRuntime;

verus! {

/// What a trading client is set up from: the ledger's address and the
/// relay providers to broadcast through.
#[derive(Debug)]
pub struct TradingConfig {
    pub rpc_url: String,
    pub swqos: Vec<SWQoSConfig>,
}

/// Runtimes as plain values: each one's configuration and client.
pub open spec fn spec_runtime_views(runtimes: Seq<SWQoSRuntime>) -> Seq<
    (SWQoSConfig, SWQoSClientView),
> {
    Seq::new(runtimes.len(), |k: int| (runtimes[k].config, runtimes[k].client@))
}

/// The tip accounts of the provider at `index`: none where `pools` has no
/// entry for it.
pub open spec fn spec_pool(pools: Seq<Vec<Pubkey>>, index: int) -> Seq<Pubkey> {
    if 0 <= index < pools.len() {
        pools[index]@
    } else {
        Seq::empty()
    }
}

impl TradingConfig {
    /// The runtimes of the first `count` providers, provider by provider
    /// and each provider's runtimes in the order of its clients.
    pub open spec fn spec_runtimes(self, pools: Seq<Vec<Pubkey>>, count: nat) -> Seq<
        (SWQoSConfig, SWQoSClientView),
    >
        decreases count,
    {
        if count == 0 {
            Seq::empty()
        } else {
            let config = self.swqos@[count - 1];
            let clients = config.kind.spec_clients(spec_pool(pools, count - 1), config.threads);
            self.spec_runtimes(pools, (count - 1) as nat) + Seq::new(
                clients.len(),
                |k: int| (config, clients[k]),
            )
        }
    }

    /// Builds the endpoint of the configuration: the runtimes of every
    /// provider, in the providers' order, where `pools` holds each
    /// provider's tip accounts at the provider's place.
    pub fn build_endpoint(&self, pools: &Vec<Vec<Pubkey>>) -> (r: TradingEndpoint)
        ensures
            spec_runtime_views(r.swqos@) == self.spec_runtimes(pools@, self.swqos@.len()),
    {
        let mut all: Vec<SWQoSRuntime> = Vec::new();
        let empty: Vec<Pubkey> = Vec::new();
        let mut index: usize = 0;
        proof {
            assert(spec_runtime_views(all@) =~= self.spec_runtimes(pools@, 0));
        }
        while index < self.swqos.len()
            invariant
                index <= self.swqos@.len(),
                empty@.len() == 0,
                spec_runtime_views(all@) == self.spec_runtimes(pools@, index as nat),
            decreases self.swqos@.len() - index,
        {
            let config = self.swqos[index].clone();
            let pool: &Vec<Pubkey> = if index < pools.len() {
                &pools[index]
            } else {
                &empty
            };
            proof {
                assert(pool@ =~= spec_pool(pools@, index as int));
            }
            let mut runtimes = config.build_runtimes(pool.as_slice());
            let ghost earlier = all@;
            let ghost fresh = runtimes@;
            all.append(&mut runtimes);
            proof {
                let clients = config.kind.spec_clients(pool@, config.threads);
                assert(spec_runtime_views(all@) =~= spec_runtime_views(earlier) + Seq::new(
                    clients.len(),
                    |k: int| (config, clients[k]),
                )) by {
                    assert forall|k: int| 0 <= k < fresh.len() implies spec_runtime_views(all@)[earlier.len()
                        + k] == (config, clients[k]) by {
                        assert(all@[earlier.len() + k] == fresh[k]);
                    }
                }
            }
            index = index + 1;
        }
        TradingEndpoint::new(all)
    }
}

} // verus!
