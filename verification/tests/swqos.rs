use solana_sdk::pubkey::Pubkey;
use solana_trading_sdk::fee::PriorityFee;
use solana_trading_sdk::lamports::Lamports;
use solana_trading_sdk::swqos::Mode;
use solana_trading_sdk::swqos::SWQoSClient;
use solana_trading_sdk::swqos::SWQoSConfig;
use solana_trading_sdk::swqos::SWQoSRuntime;
use solana_trading_sdk::swqos::SWQoSType;

fn pool(size: usize) -> Vec<Pubkey> {
    (0..size).map(|_| Pubkey::new_unique()).collect()
}

fn jito() -> SWQoSType {
    SWQoSType::Jito("https://jito.example".to_string())
}

#[test]
fn new_config_has_one_runtime_and_nothing_set() {
    let config = SWQoSConfig::new(jito());
    assert_eq!(config.kind, jito());
    assert_eq!(config.threads, 1);
    assert_eq!(config.buy_tip, None);
    assert_eq!(config.buy_fee, None);
    assert_eq!(config.sell_tip, None);
    assert_eq!(config.sell_fee, None);
    assert_eq!(config.get_buy_config(), (None, None));
    assert_eq!(config.get_sell_config(), (None, None));
}

#[test]
fn builders_set_one_field_each() {
    let fee = PriorityFee { unit_limit: 100_000, unit_price: 7 };
    let other = PriorityFee { unit_limit: 5, unit_price: 9 };
    let config = SWQoSConfig::new(jito())
        .with_threads(3)
        .with_buy_tip(Lamports(11))
        .with_buy_fee(fee)
        .with_sell_tip(Lamports(22))
        .with_sell_fee(other);
    assert_eq!(config.threads, 3);
    assert_eq!(config.kind, jito());
    assert_eq!(config.get_buy_config(), (Some(Lamports(11)), Some(fee)));
    assert_eq!(config.get_sell_config(), (Some(Lamports(22)), Some(other)));
}

#[test]
fn pair_builders_overwrite_both_fields() {
    let fee = PriorityFee { unit_limit: 1, unit_price: 2 };
    let config = SWQoSConfig::new(jito())
        .with_buy_tip(Lamports(1))
        .with_buy_config(None, Some(fee))
        .with_sell_tip(Lamports(9))
        .with_sell_config(Some(Lamports(4)), None);
    assert_eq!(config.get_buy_config(), (None, Some(fee)));
    assert_eq!(config.get_sell_config(), (Some(Lamports(4)), None));
    assert_eq!(config.threads, 1);
}

#[test]
fn sell_config_getter_applies_no_fallback() {
    let fee = PriorityFee { unit_limit: 1, unit_price: 2 };
    let config = SWQoSConfig::new(jito()).with_buy_config(Some(Lamports(5)), Some(fee));
    assert_eq!(config.get_sell_config(), (None, None));
}

#[test]
fn concurrency_is_never_zero() {
    assert_eq!(SWQoSConfig::new(jito()).with_threads(0).concurrency(), 1);
    assert_eq!(SWQoSConfig::new(jito()).with_threads(1).concurrency(), 1);
    assert_eq!(SWQoSConfig::new(jito()).with_threads(9).concurrency(), 9);
    assert_eq!(SWQoSConfig::new(jito()).with_threads(0).threads, 0);
}

#[test]
fn config_clone_keeps_every_field() {
    let config = SWQoSConfig::new(SWQoSType::Default(
        "https://rpc.example".to_string(),
        Some(("x-key".to_string(), "secret".to_string())),
    ))
    .with_threads(4)
    .with_buy_tip(Lamports(3));
    let copy = config.clone();
    assert_eq!(copy.kind, config.kind);
    assert_eq!(copy.threads, 4);
    assert_eq!(copy.buy_tip, Some(Lamports(3)));
    assert_eq!(copy.sell_fee, None);
}

#[test]
fn mode_has_its_wire_name() {
    assert_eq!(Mode::Fast.as_str(), "fast");
}

fn check_client(client: &SWQoSClient, name: &str, endpoint: &str, header: Option<(&str, &str)>) {
    assert_eq!(client.get_name(), name);
    assert_eq!(client.endpoint, endpoint);
    let expected = header.map(|(k, v)| (k.to_string(), v.to_string()));
    assert_eq!(client.auth_header, expected);
}

#[test]
fn each_kind_describes_its_client() {
    let accounts = pool(3);
    let e = "https://relay.example".to_string();
    let t = "token".to_string();

    let client = SWQoSType::Jito(e.clone()).instantiate(&accounts);
    check_client(&client, "jito", "https://relay.example", None);
    assert_eq!(client.tip_accounts, accounts);

    let client = SWQoSType::NextBlock(e.clone(), t.clone()).instantiate(&accounts);
    check_client(&client, "nextblock", "https://relay.example", Some(("Authorization", "token")));
    assert_eq!(client.tip_accounts, accounts);

    let client = SWQoSType::Blox(e.clone(), t.clone()).instantiate(&accounts);
    check_client(&client, "blox", "https://relay.example", Some(("Authorization", "token")));

    let client = SWQoSType::BlockRazor(e.clone(), t.clone()).instantiate(&accounts);
    check_client(&client, "blockrazor", "https://relay.example", Some(("apikey", "token")));

    let client = SWQoSType::ZeroSlot(e.clone(), t.clone()).instantiate(&accounts);
    check_client(&client, "0slot", "https://relay.example?api-key=token", None);
    assert_eq!(client.tip_accounts, accounts);

    let client = SWQoSType::Temporal(e.clone(), t.clone()).instantiate(&accounts);
    check_client(&client, "temporal", "https://relay.example?c=token", None);
}

#[test]
fn the_generic_kind_has_no_tip_account() {
    let accounts = pool(3);
    let kind = SWQoSType::Default(
        "https://rpc.example".to_string(),
        Some(("x-key".to_string(), "secret".to_string())),
    );
    let client = kind.instantiate(&accounts);
    check_client(&client, "default", "https://rpc.example", Some(("x-key", "secret")));
    assert!(client.tip_accounts.is_empty());
    assert_eq!(client.get_tip_account(), None);
    assert_eq!(client.tip_account_at(5), None);

    let plain = SWQoSType::Default("https://rpc.example".to_string(), None).instantiate(&accounts);
    check_client(&plain, "default", "https://rpc.example", None);
}

#[test]
fn four_runtimes_share_eight_tip_accounts_in_pairs() {
    let accounts = pool(8);
    let clients = jito().instantiate_many(&accounts, 4);
    assert_eq!(clients.len(), 4);
    let mut seen: Vec<Pubkey> = vec![];
    for (i, client) in clients.iter().enumerate() {
        assert_eq!(client.get_name(), "jito");
        assert_eq!(client.endpoint, "https://jito.example");
        assert_eq!(client.tip_accounts, accounts[2 * i..2 * i + 2].to_vec());
        for account in &client.tip_accounts {
            assert!(!seen.contains(account));
            seen.push(*account);
        }
    }
    assert_eq!(seen, accounts);
}

#[test]
fn the_generic_kind_gets_one_client_for_each_runtime() {
    let kind = SWQoSType::Default("https://rpc.example".to_string(), None);
    assert_eq!(kind.instantiate_many(&pool(8), 3).len(), 3);
    assert_eq!(kind.instantiate_many(&pool(8), 0).len(), 1);
    assert_eq!(kind.instantiate_many(&[], 2).len(), 2);
    for client in kind.instantiate_many(&pool(8), 3) {
        assert!(client.tip_accounts.is_empty());
        assert_eq!(client.get_name(), "default");
    }
}

#[test]
fn a_tipping_kind_without_accounts_gets_one_untipped_client() {
    let clients = jito().instantiate_many(&[], 3);
    assert_eq!(clients.len(), 1);
    assert_eq!(clients[0].get_name(), "jito");
    assert!(clients[0].tip_accounts.is_empty());
    assert_eq!(clients[0].get_tip_account(), None);
}

#[test]
fn a_pool_of_four_for_three_runtimes_gives_three_clients() {
    let accounts = pool(4);
    let clients = jito().instantiate_many(&accounts, 3);
    assert_eq!(clients.len(), 3);
    assert_eq!(clients[0].tip_accounts, accounts[..2].to_vec());
    assert_eq!(clients[1].tip_accounts, accounts[2..3].to_vec());
    assert_eq!(clients[2].tip_accounts, accounts[3..].to_vec());
    assert_eq!(jito().instantiate_many(&pool(5), 4).len(), 4);
    assert_eq!(jito().instantiate_many(&pool(5), 9).len(), 5);
    assert_eq!(jito().instantiate_many(&pool(5), 0).len(), 1);
}

#[test]
fn runtimes_carry_the_configuration() {
    let accounts = pool(6);
    let config = SWQoSConfig::new(jito()).with_threads(3).with_buy_tip(Lamports(77));
    let runtimes = config.clone().build_runtimes(&accounts);
    assert_eq!(runtimes.len(), 3);
    for (i, runtime) in runtimes.iter().enumerate() {
        assert_eq!(runtime.config.threads, 3);
        assert_eq!(runtime.get_buy_config(), (Some(Lamports(77)), None));
        assert_eq!(runtime.get_sell_config(), (None, None));
        assert_eq!(runtime.get_client_name(), "jito");
        assert_eq!(runtime.get_client().tip_accounts, accounts[2 * i..2 * i + 2].to_vec());
    }
    let again = SWQoSRuntime::new(config.clone(), &accounts);
    assert_eq!(again.len(), 3);
    assert_eq!(again[2].client.tip_accounts, accounts[4..6].to_vec());
    let single = SWQoSRuntime::new_single(config, &accounts);
    assert_eq!(single.client.tip_accounts, accounts);
    assert_eq!(single.config.buy_tip, Some(Lamports(77)));
}

#[test]
fn a_random_tip_account_is_one_of_the_pool() {
    let accounts = pool(5);
    let runtime = SWQoSRuntime::new_single(SWQoSConfig::new(jito()), &accounts);
    for _ in 0..50 {
        let picked = runtime.get_tip_account().unwrap();
        assert!(accounts.contains(&picked));
    }
    let one = SWQoSRuntime::new_single(SWQoSConfig::new(jito()), &accounts[..1]);
    assert_eq!(one.get_tip_account(), Some(accounts[0]));
}

#[test]
fn a_seed_selects_its_tip_account() {
    let accounts = pool(3);
    let client = jito().instantiate(&accounts);
    assert_eq!(client.tip_account_at(0), Some(accounts[0]));
    assert_eq!(client.tip_account_at(1), Some(accounts[1]));
    assert_eq!(client.tip_account_at(2), Some(accounts[2]));
    assert_eq!(client.tip_account_at(3), Some(accounts[0]));
    assert_eq!(client.tip_account_at(u64::MAX), Some(accounts[(u64::MAX % 3) as usize]));
}

#[test]
fn each_provider_has_its_submission_address() {
    let accounts = pool(1);
    let e = "https://relay.example".to_string();
    let t = "token".to_string();
    let blox = SWQoSType::Blox(e.clone(), t.clone()).instantiate(&accounts);
    assert_eq!(blox.submit_url(false), "https://relay.example/api/v2/submit");
    assert_eq!(blox.submit_url(true), "https://relay.example/api/v2/submit-batch");
    let next = SWQoSType::NextBlock(e.clone(), t.clone()).instantiate(&accounts);
    assert_eq!(next.submit_url(false), "https://relay.example/api/v2/submit");
    assert_eq!(next.submit_url(true), "https://relay.example/api/v2/submit-batch");
    let razor = SWQoSType::BlockRazor(e.clone(), t.clone()).instantiate(&accounts);
    assert_eq!(razor.submit_url(false), "https://relay.example/sendTransaction");
    assert_eq!(razor.submit_url(true), "https://relay.example/api/v2/submit-batch");
    let jito = SWQoSType::Jito(e.clone()).instantiate(&accounts);
    assert_eq!(jito.submit_url(false), "https://relay.example");
    assert_eq!(jito.submit_url(true), "https://relay.example");
    let slot = SWQoSType::ZeroSlot(e.clone(), t.clone()).instantiate(&accounts);
    assert_eq!(slot.submit_url(false), "https://relay.example?api-key=token");
    let generic = SWQoSType::Default(e.clone(), None).instantiate(&accounts);
    assert_eq!(generic.submit_url(true), "https://relay.example");
}
