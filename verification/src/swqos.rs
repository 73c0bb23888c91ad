use vstd::prelude::*;
use vstd::slice::slice_to_vec;
use vstd::string::StringExecFns;
use solana_sdk::pubkey::Pubkey;
use crate::fee::PriorityFee;
use crate::lamports::Lamports;
use crate::random::choose_account;
use crate::sharding::chunk_accounts;
use crate::sharding::spec_chunk;
use crate::sharding::spec_chunk_count;
use crate::sharding::spec_wanted_chunks;

verus! {

/// A relay provider and how to reach it: an endpoint, and for most kinds a
/// credential. The generic kind may carry an authentication header, given
/// as the header's name and value.
#[derive(Debug, PartialEq, Eq, Hash)]
pub enum SWQoSType {
    Default(String, Option<(String, String)>),
    Jito(String),
    NextBlock(String, String),
    Blox(String, String),
    Temporal(String, String),
    ZeroSlot(String, String),
    BlockRazor(String, String),
}

impl Clone for SWQoSType {
    fn clone(&self) -> (r: SWQoSType)
        ensures
            r == *self,
    {
        match self {
            SWQoSType::Default(endpoint, header) => {
                let header = match header {
                    Some((key, value)) => Some((key.clone(), value.clone())),
                    None => None,
                };
                SWQoSType::Default(endpoint.clone(), header)
            },
            SWQoSType::Jito(endpoint) => SWQoSType::Jito(endpoint.clone()),
            SWQoSType::NextBlock(endpoint, token) => SWQoSType::NextBlock(
                endpoint.clone(),
                token.clone(),
            ),
            SWQoSType::Blox(endpoint, token) => SWQoSType::Blox(endpoint.clone(), token.clone()),
            SWQoSType::Temporal(endpoint, token) => SWQoSType::Temporal(
                endpoint.clone(),
                token.clone(),
            ),
            SWQoSType::ZeroSlot(endpoint, token) => SWQoSType::ZeroSlot(
                endpoint.clone(),
                token.clone(),
            ),
            SWQoSType::BlockRazor(endpoint, token) => SWQoSType::BlockRazor(
                endpoint.clone(),
                token.clone(),
            ),
        }
    }
}

/// How a provider that offers several modes of submission is asked to
/// submit.
#[derive(Debug, Clone, Copy, PartialEq, Eq, Structural)]
pub enum Mode {
    Fast,
}

impl Mode {
    /// The mode's name on the wire.
    pub fn as_str(&self) -> (r: &'static str)
        ensures
            r@ == "fast"@,
    {
        "fast"
    }
}

/// How one relay provider is used: its kind, how many runtimes submit to it
/// side by side, and the tip and priority fee of buys and of sells.
#[derive(Debug)]
pub struct SWQoSConfig {
    pub kind: SWQoSType,
    pub threads: u64,
    pub buy_tip: Option<Lamports>,
    pub buy_fee: Option<PriorityFee>,
    pub sell_tip: Option<Lamports>,
    pub sell_fee: Option<PriorityFee>,
}

impl Clone for SWQoSConfig {
    fn clone(&self) -> (r: SWQoSConfig)
        ensures
            r == *self,
    {
        SWQoSConfig {
            kind: self.kind.clone(),
            threads: self.threads,
            buy_tip: self.buy_tip,
            buy_fee: self.buy_fee,
            sell_tip: self.sell_tip,
            sell_fee: self.sell_fee,
        }
    }
}

impl SWQoSConfig {
    /// The number of runtimes that the configuration stands for: `threads`,
    /// and one where `threads` is zero.
    pub open spec fn spec_concurrency(self) -> u64 {
        if self.threads == 0 {
            1
        } else {
            self.threads
        }
    }

    /// A configuration of one runtime with no tip and no fee.
    pub fn new(kind: SWQoSType) -> (r: SWQoSConfig)
        ensures
            r == (SWQoSConfig {
                kind,
                threads: 1,
                buy_tip: None,
                buy_fee: None,
                sell_tip: None,
                sell_fee: None,
            }),
    {
        SWQoSConfig {
            kind,
            threads: 1,
            buy_tip: None,
            buy_fee: None,
            sell_tip: None,
            sell_fee: None,
        }
    }

    /// Sets the number of runtimes. Zero is kept as given and counts as one
    /// when runtimes are built.
    pub fn with_threads(self, threads: u64) -> (r: SWQoSConfig)
        ensures
            r == (SWQoSConfig { threads, ..self }),
    {
        SWQoSConfig { threads, ..self }
    }

    /// Sets the tip and the fee of buys, both at once.
    pub fn with_buy_config(self, tip: Option<Lamports>, fee: Option<PriorityFee>) -> (r:
        SWQoSConfig)
        ensures
            r == (SWQoSConfig { buy_tip: tip, buy_fee: fee, ..self }),
    {
        SWQoSConfig { buy_tip: tip, buy_fee: fee, ..self }
    }

    /// Sets the tip and the fee of sells, both at once.
    pub fn with_sell_config(self, tip: Option<Lamports>, fee: Option<PriorityFee>) -> (r:
        SWQoSConfig)
        ensures
            r == (SWQoSConfig { sell_tip: tip, sell_fee: fee, ..self }),
    {
        SWQoSConfig { sell_tip: tip, sell_fee: fee, ..self }
    }

    /// Sets the tip of buys.
    pub fn with_buy_tip(self, tip: Lamports) -> (r: SWQoSConfig)
        ensures
            r == (SWQoSConfig { buy_tip: Some(tip), ..self }),
    {
        SWQoSConfig { buy_tip: Some(tip), ..self }
    }

    /// Sets the priority fee of buys.
    pub fn with_buy_fee(self, fee: PriorityFee) -> (r: SWQoSConfig)
        ensures
            r == (SWQoSConfig { buy_fee: Some(fee), ..self }),
    {
        SWQoSConfig { buy_fee: Some(fee), ..self }
    }

    /// Sets the tip of sells.
    pub fn with_sell_tip(self, tip: Lamports) -> (r: SWQoSConfig)
        ensures
            r == (SWQoSConfig { sell_tip: Some(tip), ..self }),
    {
        SWQoSConfig { sell_tip: Some(tip), ..self }
    }

    /// Sets the priority fee of sells.
    pub fn with_sell_fee(self, fee: PriorityFee) -> (r: SWQoSConfig)
        ensures
            r == (SWQoSConfig { sell_fee: Some(fee), ..self }),
    {
        SWQoSConfig { sell_fee: Some(fee), ..self }
    }

    /// The tip and fee configured for buys, as they were set.
    pub fn get_buy_config(&self) -> (r: (Option<Lamports>, Option<PriorityFee>))
        ensures
            r == (self.buy_tip, self.buy_fee),
    {
        (self.buy_tip, self.buy_fee)
    }

    /// The tip and fee configured for sells, as they were set: no fallback
    /// to the buy configuration is applied here.
    pub fn get_sell_config(&self) -> (r: (Option<Lamports>, Option<PriorityFee>))
        ensures
            r == (self.sell_tip, self.sell_fee),
    {
        (self.sell_tip, self.sell_fee)
    }

    /// The number of runtimes asked for, never zero.
    pub fn concurrency(&self) -> (r: u64)
        ensures
            r == self.spec_concurrency(),
            r >= 1,
    {
        if self.threads == 0 {
            1
        } else {
            self.threads
        }
    }
}

/// What a relay client needs to submit to its provider: the provider's
/// name, the address it posts to, the authentication header it sends and
/// the tip accounts it may pay.
#[derive(Debug)]
pub struct SWQoSClient {
    pub name: String,
    pub endpoint: String,
    pub auth_header: Option<(String, String)>,
    pub tip_accounts: Vec<Pubkey>,
}

/// A relay client as plain values.
pub struct SWQoSClientView {
    pub name: Seq<char>,
    pub endpoint: Seq<char>,
    pub auth_header: Option<(Seq<char>, Seq<char>)>,
    pub tip_accounts: Seq<Pubkey>,
}

impl View for SWQoSClient {
    type V = SWQoSClientView;

    open spec fn view(&self) -> SWQoSClientView {
        SWQoSClientView {
            name: self.name@,
            endpoint: self.endpoint@,
            auth_header: match self.auth_header {
                Some((key, value)) => Some((key@, value@)),
                None => None,
            },
            tip_accounts: self.tip_accounts@,
        }
    }
}

/// One runtime of a provider: the provider's configuration and the client
/// that submits for it.
#[derive(Debug)]
pub struct SWQoSRuntime {
    pub config: SWQoSConfig,
    pub client: SWQoSClient,
}

impl SWQoSType {
    /// The name under which the provider's clients report.
    pub open spec fn spec_name(self) -> Seq<char> {
        match self {
            SWQoSType::Default(_, _) => "default"@,
            SWQoSType::Jito(_) => "jito"@,
            SWQoSType::NextBlock(_, _) => "nextblock"@,
            SWQoSType::Blox(_, _) => "blox"@,
            SWQoSType::Temporal(_, _) => "temporal"@,
            SWQoSType::ZeroSlot(_, _) => "0slot"@,
            SWQoSType::BlockRazor(_, _) => "blockrazor"@,
        }
    }

    /// The address that the provider's clients post to. Two kinds carry
    /// their credential in the address.
    pub open spec fn spec_endpoint(self) -> Seq<char> {
        match self {
            SWQoSType::Default(endpoint, _) => endpoint@,
            SWQoSType::Jito(endpoint) => endpoint@,
            SWQoSType::NextBlock(endpoint, _) => endpoint@,
            SWQoSType::Blox(endpoint, _) => endpoint@,
            SWQoSType::Temporal(endpoint, token) => endpoint@ + "?c="@ + token@,
            SWQoSType::ZeroSlot(endpoint, token) => endpoint@ + "?api-key="@ + token@,
            SWQoSType::BlockRazor(endpoint, _) => endpoint@,
        }
    }

    /// The authentication header that the provider's clients send.
    pub open spec fn spec_auth_header(self) -> Option<(Seq<char>, Seq<char>)> {
        match self {
            SWQoSType::Default(_, Some((key, value))) => Some((key@, value@)),
            SWQoSType::Default(_, None) => None,
            SWQoSType::Jito(_) => None,
            SWQoSType::NextBlock(_, token) => Some(("Authorization"@, token@)),
            SWQoSType::Blox(_, token) => Some(("Authorization"@, token@)),
            SWQoSType::Temporal(_, _) => None,
            SWQoSType::ZeroSlot(_, _) => None,
            SWQoSType::BlockRazor(_, token) => Some(("apikey"@, token@)),
        }
    }

    /// Whether clients of this kind pay tips: the generic kind has no tip
    /// account.
    pub open spec fn pays_tips(self) -> bool {
        !(self is Default)
    }

    /// The client of this kind that may pay the accounts `accounts`.
    pub open spec fn spec_client(self, accounts: Seq<Pubkey>) -> SWQoSClientView {
        SWQoSClientView {
            name: self.spec_name(),
            endpoint: self.spec_endpoint(),
            auth_header: self.spec_auth_header(),
            tip_accounts: if self.pays_tips() {
                accounts
            } else {
                Seq::empty()
            },
        }
    }

    /// The clients for `threads` runtimes of this kind, given the
    /// provider's pool of tip accounts: one client for each chunk that the
    /// pool is cut into for the runtimes, and for the generic kind one
    /// client for each runtime.
    pub open spec fn spec_clients(self, pool: Seq<Pubkey>, threads: u64) -> Seq<SWQoSClientView> {
        if self.pays_tips() {
            Seq::new(
                spec_chunk_count(pool.len(), threads as nat),
                |i: int|
                    self.spec_client(
                        spec_chunk(pool, spec_chunk_count(pool.len(), threads as nat), i as nat),
                    ),
            )
        } else {
            Seq::new(
                if threads == 0 {
                    1
                } else {
                    threads as nat
                },
                |i: int| self.spec_client(Seq::empty()),
            )
        }
    }

    fn with_query(endpoint: &String, mark: &str, token: &String) -> (r: String)
        ensures
            r@ == endpoint@ + mark@ + token@,
    {
        let mut url = endpoint.clone();
        url.append(mark);
        url.append(token.as_str());
        url
    }

    /// One client of this kind that may pay any account of `pool`.
    pub fn instantiate(&self, pool: &[Pubkey]) -> (r: SWQoSClient)
        ensures
            r@ == self.spec_client(pool@),
    {
        let empty: Vec<Pubkey> = Vec::new();
        let client = match self {
            SWQoSType::Default(endpoint, header) => SWQoSClient {
                name: "default".to_owned(),
                endpoint: endpoint.clone(),
                auth_header: match header {
                    Some((key, value)) => Some((key.clone(), value.clone())),
                    None => None,
                },
                tip_accounts: empty,
            },
            SWQoSType::Jito(endpoint) => SWQoSClient {
                name: "jito".to_owned(),
                endpoint: endpoint.clone(),
                auth_header: None,
                tip_accounts: slice_to_vec(pool),
            },
            SWQoSType::NextBlock(endpoint, token) => SWQoSClient {
                name: "nextblock".to_owned(),
                endpoint: endpoint.clone(),
                auth_header: Some(("Authorization".to_owned(), token.clone())),
                tip_accounts: slice_to_vec(pool),
            },
            SWQoSType::Blox(endpoint, token) => SWQoSClient {
                name: "blox".to_owned(),
                endpoint: endpoint.clone(),
                auth_header: Some(("Authorization".to_owned(), token.clone())),
                tip_accounts: slice_to_vec(pool),
            },
            SWQoSType::Temporal(endpoint, token) => SWQoSClient {
                name: "temporal".to_owned(),
                endpoint: Self::with_query(endpoint, "?c=", token),
                auth_header: None,
                tip_accounts: slice_to_vec(pool),
            },
            SWQoSType::ZeroSlot(endpoint, token) => SWQoSClient {
                name: "0slot".to_owned(),
                endpoint: Self::with_query(endpoint, "?api-key=", token),
                auth_header: None,
                tip_accounts: slice_to_vec(pool),
            },
            SWQoSType::BlockRazor(endpoint, token) => SWQoSClient {
                name: "blockrazor".to_owned(),
                endpoint: endpoint.clone(),
                auth_header: Some(("apikey".to_owned(), token.clone())),
                tip_accounts: slice_to_vec(pool),
            },
        };
        proof {
            assert(client@.tip_accounts =~= self.spec_client(pool@).tip_accounts);
        }
        client
    }

    /// The clients for `threads` runtimes of this kind. A provider with
    /// tip accounts gets one client for each runtime, and no more clients
    /// than it has accounts; each client gets a chunk of the pool of its
    /// own, so that no two of them pay the same account. A provider whose
    /// pool is empty gets one client without tip accounts. The generic kind
    /// gets `threads` clients. A count of zero runtimes stands for one.
    pub fn instantiate_many(&self, pool: &[Pubkey], threads: u64) -> (r: Vec<SWQoSClient>)
        ensures
            r@.len() == self.spec_clients(pool@, threads).len(),
            self.pays_tips() ==> r@.len() == spec_wanted_chunks(pool@.len(), threads as nat),
            !self.pays_tips() ==> r@.len() == if threads == 0 {
                1
            } else {
                threads as int
            },
            forall|i: int|
                0 <= i < r@.len() ==> (#[trigger] r@[i])@ == self.spec_clients(pool@, threads)[i],
    {
        let mut clients: Vec<SWQoSClient> = Vec::new();
        match self {
            SWQoSType::Default(_, _) => {
                let wanted: u64 = if threads == 0 {
                    1
                } else {
                    threads
                };
                let mut made: u64 = 0;
                while made < wanted
                    invariant
                        self is Default,
                        wanted == self.spec_clients(pool@, threads).len(),
                        made <= wanted,
                        clients@.len() == made,
                        forall|i: int|
                            0 <= i < clients@.len() ==> (#[trigger] clients@[i])@
                                == self.spec_clients(pool@, threads)[i],
                    decreases wanted - made,
                {
                    clients.push(self.instantiate(pool));
                    made = made + 1;
                }
            },
            _ => {
                let chunks = chunk_accounts(pool, threads);
                let mut i: usize = 0;
                while i < chunks.len()
                    invariant
                        self.pays_tips(),
                        i <= chunks@.len(),
                        chunks@.len() == spec_chunk_count(pool@.len(), threads as nat),
                        forall|k: int|
                            0 <= k < chunks@.len() ==> (#[trigger] chunks@[k])@ == spec_chunk(
                                pool@,
                                spec_chunk_count(pool@.len(), threads as nat),
                                k as nat,
                            ),
                        clients@.len() == i,
                        forall|k: int|
                            0 <= k < clients@.len() ==> (#[trigger] clients@[k])@
                                == self.spec_clients(pool@, threads)[k],
                    decreases chunks@.len() - i,
                {
                    clients.push(self.instantiate(chunks[i].as_slice()));
                    i = i + 1;
                }
            },
        }
        clients
    }
}

impl SWQoSClientView {
    /// Whether the provider takes submissions at paths of its own below
    /// its address, and not as JSON-RPC calls at the address itself.
    pub open spec fn has_submit_paths(self) -> bool {
        self.name == "blox"@ || self.name == "nextblock"@ || self.name == "blockrazor"@
    }

    /// The address that a submission is posted to: of one transaction, or
    /// of several in one request where `batch` is set.
    pub open spec fn spec_submit_url(self, batch: bool) -> Seq<char> {
        if batch && self.has_submit_paths() {
            self.endpoint + "/api/v2/submit-batch"@
        } else if self.name == "blockrazor"@ {
            self.endpoint + "/sendTransaction"@
        } else if self.has_submit_paths() {
            self.endpoint + "/api/v2/submit"@
        } else {
            self.endpoint
        }
    }
}

impl SWQoSClient {
    /// The address that a submission is posted to: of one transaction, or
    /// of several in one request where `batch` is set.
    pub fn submit_url(&self, batch: bool) -> (r: String)
        ensures
            r@ == self@.spec_submit_url(batch),
    {
        let razor = self.name == "blockrazor".to_owned();
        let paths = razor || self.name == "blox".to_owned() || self.name == "nextblock".to_owned();
        let mut url = self.endpoint.clone();
        if batch && paths {
            url.append("/api/v2/submit-batch");
        } else if razor {
            url.append("/sendTransaction");
        } else if paths {
            url.append("/api/v2/submit");
        }
        url
    }

    /// The provider's name.
    pub fn get_name(&self) -> (r: &str)
        ensures
            r@ == self.name@,
    {
        self.name.as_str()
    }

    /// The tip account that the draw `seed` selects: accounts take turns as
    /// `seed` counts up. A client without tip accounts has none.
    pub fn tip_account_at(&self, seed: u64) -> (r: Option<Pubkey>)
        ensures
            self.tip_accounts@.len() == 0 ==> r is None,
            self.tip_accounts@.len() > 0 ==> r == Some(
                self.tip_accounts@[(seed as int) % (self.tip_accounts@.len() as int)],
            ),
    {
        let n = self.tip_accounts.len();
        if n == 0 {
            None
        } else {
            let index: usize = (seed % (n as u64)) as usize;
            Some(self.tip_accounts[index])
        }
    }

    /// A tip account of the client, picked at random. A client without tip
    /// accounts has none.
    pub fn get_tip_account(&self) -> (r: Option<Pubkey>)
        ensures
            self.tip_accounts@.len() == 0 ==> r is None,
            self.tip_accounts@.len() > 0 ==> r is Some && self.tip_accounts@.contains(r->Some_0),
    {
        choose_account(&self.tip_accounts)
    }
}

impl SWQoSConfig {
    /// The runtimes that this configuration stands for, given the
    /// provider's pool of tip accounts: one for each client of the kind,
    /// each with a copy of the configuration.
    pub fn build_runtimes(self, pool: &[Pubkey]) -> (r: Vec<SWQoSRuntime>)
        ensures
            r@.len() == self.kind.spec_clients(pool@, self.threads).len(),
            forall|i: int|
                0 <= i < r@.len() ==> (#[trigger] r@[i]).config == self && r@[i].client@
                    == self.kind.spec_clients(pool@, self.threads)[i],
    {
        let mut clients = self.kind.instantiate_many(pool, self.threads);
        let ghost all = clients@;
        let mut reversed: Vec<SWQoSRuntime> = Vec::new();
        while clients.len() > 0
            invariant
                clients@.len() + reversed@.len() == all.len(),
                clients@ == all.take(clients@.len() as int),
                forall|k: int|
                    0 <= k < reversed@.len() ==> (#[trigger] reversed@[k]).config == self
                        && reversed@[k].client == all[all.len() - 1 - k],
            decreases clients@.len(),
        {
            let client = clients.pop().unwrap();
            reversed.push(SWQoSRuntime { config: self.clone(), client });
        }
        let mut runtimes: Vec<SWQoSRuntime> = Vec::new();
        while reversed.len() > 0
            invariant
                reversed@.len() + runtimes@.len() == all.len(),
                forall|k: int|
                    0 <= k < reversed@.len() ==> (#[trigger] reversed@[k]).config == self
                        && reversed@[k].client == all[all.len() - 1 - k],
                forall|k: int|
                    0 <= k < runtimes@.len() ==> (#[trigger] runtimes@[k]).config == self
                        && runtimes@[k].client == all[k],
            decreases reversed@.len(),
        {
            let runtime = reversed.pop().unwrap();
            runtimes.push(runtime);
        }
        runtimes
    }
}

impl SWQoSRuntime {
    /// The runtimes of a configuration; see `SWQoSConfig::build_runtimes`.
    pub fn new(config: SWQoSConfig, pool: &[Pubkey]) -> (r: Vec<SWQoSRuntime>)
        ensures
            r@.len() == config.kind.spec_clients(pool@, config.threads).len(),
            forall|i: int|
                0 <= i < r@.len() ==> (#[trigger] r@[i]).config == config && r@[i].client@
                    == config.kind.spec_clients(pool@, config.threads)[i],
    {
        config.build_runtimes(pool)
    }

    /// One runtime whose client may pay any account of `pool`.
    pub fn new_single(config: SWQoSConfig, pool: &[Pubkey]) -> (r: SWQoSRuntime)
        ensures
            r.config == config,
            r.client@ == config.kind.spec_client(pool@),
    {
        let client = config.kind.instantiate(pool);
        SWQoSRuntime { config, client }
    }

    /// The tip and fee configured for buys.
    pub fn get_buy_config(&self) -> (r: (Option<Lamports>, Option<PriorityFee>))
        ensures
            r == (self.config.buy_tip, self.config.buy_fee),
    {
        self.config.get_buy_config()
    }

    /// The tip and fee configured for sells, without fallback.
    pub fn get_sell_config(&self) -> (r: (Option<Lamports>, Option<PriorityFee>))
        ensures
            r == (self.config.sell_tip, self.config.sell_fee),
    {
        self.config.get_sell_config()
    }

    /// The client that submits for the runtime.
    pub fn get_client(&self) -> (r: &SWQoSClient)
        ensures
            r == &self.client,
    {
        &self.client
    }

    /// A tip account of the runtime's client, picked at random.
    pub fn get_tip_account(&self) -> (r: Option<Pubkey>)
        ensures
            self.client.tip_accounts@.len() == 0 ==> r is None,
            self.client.tip_accounts@.len() > 0 ==> r is Some
                && self.client.tip_accounts@.contains(r->Some_0),
    {
        self.client.get_tip_account()
    }

    /// The name of the runtime's provider.
    pub fn get_client_name(&self) -> (r: &str)
        ensures
            r@ == self.client.name@,
    {
        self.client.get_name()
    }
}

} // verus!
