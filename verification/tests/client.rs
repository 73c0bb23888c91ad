use solana_sdk::pubkey::Pubkey;
use solana_trading_sdk::client::TradingConfig;
use solana_trading_sdk::lamports::Lamports;
use solana_trading_sdk::swqos::SWQoSConfig;
use solana_trading_sdk::swqos::SWQoSType;

fn pool(size: usize) -> Vec<Pubkey> {
    (0..size).map(|_| Pubkey::new_unique()).collect()
}

#[test]
fn the_endpoint_holds_every_providers_runtimes_in_order() {
    let config = TradingConfig {
        rpc_url: "https://rpc.example".to_string(),
        swqos: vec![
            SWQoSConfig::new(SWQoSType::Jito("https://jito.example".to_string()))
                .with_threads(2)
                .with_buy_tip(Lamports(5)),
            SWQoSConfig::new(SWQoSType::Default("https://rpc.example".to_string(), None))
                .with_threads(0),
            SWQoSConfig::new(SWQoSType::Blox("https://blox.example".to_string(), "k".to_string()))
                .with_threads(3),
        ],
    };
    let pools = vec![pool(4), pool(9), pool(3)];
    let endpoint = config.build_endpoint(&pools);
    let names: Vec<&str> = endpoint.swqos.iter().map(|r| r.get_client_name()).collect();
    assert_eq!(names, vec!["jito", "jito", "default", "blox", "blox", "blox"]);
    assert_eq!(endpoint.swqos[0].client.tip_accounts, pools[0][..2].to_vec());
    assert_eq!(endpoint.swqos[1].client.tip_accounts, pools[0][2..].to_vec());
    assert!(endpoint.swqos[2].client.tip_accounts.is_empty());
    assert_eq!(endpoint.swqos[3].client.tip_accounts, vec![pools[2][0]]);
    assert_eq!(endpoint.swqos[5].client.tip_accounts, vec![pools[2][2]]);
    assert_eq!(endpoint.swqos[0].config.buy_tip, Some(Lamports(5)));
    assert_eq!(endpoint.swqos[1].config.threads, 2);
    assert_eq!(endpoint.swqos[2].config.threads, 0);
    assert_eq!(endpoint.swqos[4].config.threads, 3);
}

#[test]
fn a_provider_without_a_pool_gets_no_tip_account() {
    let config = TradingConfig {
        rpc_url: String::new(),
        swqos: vec![
            SWQoSConfig::new(SWQoSType::Default("https://rpc.example".to_string(), None)),
            SWQoSConfig::new(SWQoSType::Jito("https://jito.example".to_string())),
        ],
    };
    let endpoint = config.build_endpoint(&vec![]);
    assert_eq!(endpoint.swqos.len(), 2);
    assert_eq!(endpoint.swqos[0].get_client_name(), "default");
    assert_eq!(endpoint.swqos[1].get_client_name(), "jito");
    assert!(endpoint.swqos[1].client.tip_accounts.is_empty());
    let none = TradingConfig { rpc_url: String::new(), swqos: vec![] };
    assert!(none.build_endpoint(&vec![pool(2)]).swqos.is_empty());
}
