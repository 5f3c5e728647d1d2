use erc20_metrics::address::Address;
use erc20_metrics::config::{ChainConfig, ConfigError, ConfigTest, PoolConfig, TokenConfigTest};
use erc20_metrics::price::ReserveSlot;
use erc20_metrics::state::{AppState, Chain};

const ENS: &str = "0xc18360217d8f7ab5e7c516566761ea12ce7f9d72";
const USDC: &str = "0xa0b86991c6218b36c1d19d4a2e9eb0ce3606eb48";
const POOL: &str = "0xb169c3e8dda6456a18aefa49c58f7f53e120a9b4";
const WALLET_A: &str = "0x00000000000000000000000000000000000000aa";
const WALLET_B: &str = "0x00000000000000000000000000000000000000bb";

fn token(address: &str) -> TokenConfigTest {
    TokenConfigTest {
        address: address.to_string(),
        fixed_rate: None,
        uniswap_v2: None,
        uniswap_v3: None,
    }
}

fn eth() -> ChainConfig {
    let mut usdc = token(USDC);
    usdc.fixed_rate = Some("1.0".to_string());
    let mut ens = token(ENS);
    ens.uniswap_v2 = Some(PoolConfig {
        pool: POOL.to_string(),
        base: ReserveSlot::Second,
        quote: ReserveSlot::First,
        base_decimals: 18,
        quote_decimals: 6,
    });
    ChainConfig {
        rpc_url: "https://eth.example.org/rpc".to_string(),
        wallets: vec![WALLET_A.to_string(), WALLET_B.to_string()],
        tokens: vec![usdc, ens],
    }
}

fn other() -> ChainConfig {
    ChainConfig {
        rpc_url: "http://localhost:8545".to_string(),
        wallets: vec![WALLET_A.to_string()],
        tokens: vec![token(ENS)],
    }
}

#[test]
fn state_holds_the_configured_chains_in_order() {
    let config = ConfigTest { tokens: vec![("eth".to_string(), eth()), ("op".to_string(), other())] };
    let state = AppState::new(&config).unwrap();
    assert_eq!(state.chains.len(), 2);
    assert_eq!(state.chains[0].name, "eth");
    assert_eq!(state.chains[0].url, "https://eth.example.org/rpc");
    assert_eq!(
        state.chains[0].wallets,
        vec![Address::parse(WALLET_A).unwrap(), Address::parse(WALLET_B).unwrap()]
    );
    assert_eq!(state.chains[0].erc20s.len(), 2);
    assert_eq!(state.chains[0].erc20s[0].address, Address::parse(USDC).unwrap());
    assert_eq!(state.chains[0].erc20s[0].chain_slug, "eth");
    assert_eq!(state.chains[0].erc20s[1].address, Address::parse(ENS).unwrap());
    assert!(state.chains[0].erc20s[1].strategy.is_some());
    assert_eq!(state.chains[1].name, "op");
    assert_eq!(state.chains[1].erc20s[0].chain_slug, "op");
    assert_eq!(state.chains[1].erc20s[0].strategy, None);
    assert_eq!(state.metrics.balance_of.len(), 0);
    assert_eq!(state.metrics.balance_of_usd.len(), 0);
    assert_eq!(state.metrics.price_in_usd.len(), 0);
    assert_eq!(state.metrics.balance_of.family_name(), "balance_of");
    assert_eq!(state.metrics.balance_of_usd.family_name(), "balance_of_usd");
    assert_eq!(state.metrics.price_in_usd.family_name(), "price_in_usd");
    assert_eq!(
        state.metrics.balance_of.label_names(),
        vec!["chain", "token", "token_name", "wallet"]
    );
    assert_eq!(state.metrics.price_in_usd.label_names(), vec!["chain", "token", "token_name"]);
    assert_eq!(state.token_counts(), vec![2, 1]);
}

#[test]
fn empty_configuration_is_an_empty_state() {
    let state = AppState::new(&ConfigTest { tokens: vec![] }).unwrap();
    assert_eq!(state.chains.len(), 0);
    assert_eq!(state.token_counts(), Vec::<usize>::new());
    let bare = ChainConfig {
        rpc_url: "http://localhost:8545".to_string(),
        wallets: vec![],
        tokens: vec![],
    };
    let chain = Chain::new("local", &bare).unwrap();
    assert_eq!(chain.name, "local");
    assert!(chain.wallets.is_empty());
    assert!(chain.erc20s.is_empty());
}

#[test]
fn endpoint_must_be_a_url() {
    for bad in ["", "not a url", "eth.example.org/rpc", "://missing"] {
        let mut chain = eth();
        chain.rpc_url = bad.to_string();
        assert_eq!(Chain::new("eth", &chain), Err(ConfigError::InvalidEndpoint));
    }
}

#[test]
fn endpoint_verdict_decides_before_wallets_and_tokens() {
    let good = eth();
    assert_eq!(Chain::with_endpoint_verdict("eth", &good, false), Err(ConfigError::InvalidEndpoint));
    assert_eq!(Chain::with_endpoint_verdict("eth", &good, true), Chain::new("eth", &good));
    let built = Chain::with_endpoint_verdict("eth", &good, true).unwrap();
    assert_eq!(built.name, "eth");
    assert_eq!(built.url, "https://eth.example.org/rpc");
    assert_eq!(built.wallets.len(), 2);
    assert_eq!(built.erc20s.len(), 2);
    let mut bad = eth();
    bad.wallets.push("0x12".to_string());
    bad.tokens[0].fixed_rate = Some("one".to_string());
    assert_eq!(Chain::with_endpoint_verdict("eth", &bad, false), Err(ConfigError::InvalidEndpoint));
    assert_eq!(Chain::with_endpoint_verdict("eth", &bad, true), Err(ConfigError::InvalidAddress));
    bad.wallets.pop();
    assert_eq!(Chain::with_endpoint_verdict("eth", &bad, true), Err(ConfigError::InvalidRate));
    // The verdict counts, not the text.
    bad.tokens[0].fixed_rate = Some("1".to_string());
    bad.rpc_url = "no url".to_string();
    assert!(Chain::with_endpoint_verdict("eth", &bad, true).is_ok());
}

#[test]
fn wallets_must_be_addresses() {
    let mut chain = eth();
    chain.wallets.push("0x12".to_string());
    assert_eq!(Chain::new("eth", &chain), Err(ConfigError::InvalidAddress));
}

#[test]
fn first_error_of_a_chain_is_reported() {
    // The endpoint comes before the wallets, the wallets before the tokens.
    let mut chain = eth();
    chain.tokens[0].fixed_rate = Some("one".to_string());
    assert_eq!(Chain::new("eth", &chain), Err(ConfigError::InvalidRate));
    chain.tokens.insert(0, token("nowhere"));
    assert_eq!(Chain::new("eth", &chain), Err(ConfigError::InvalidAddress));
    chain.tokens.remove(0);
    chain.tokens[1].fixed_rate = Some("2".to_string());
    assert_eq!(Chain::new("eth", &chain), Err(ConfigError::InvalidRate));
    chain.tokens[0].fixed_rate = Some("1".to_string());
    assert_eq!(Chain::new("eth", &chain), Err(ConfigError::AmbiguousStrategy));
    chain.rpc_url = "nothing".to_string();
    assert_eq!(Chain::new("eth", &chain), Err(ConfigError::InvalidEndpoint));
}

#[test]
fn chains_must_have_different_slugs() {
    let config = ConfigTest {
        tokens: vec![
            ("eth".to_string(), eth()),
            ("op".to_string(), other()),
            ("eth".to_string(), other()),
        ],
    };
    assert_eq!(AppState::new(&config), Err(ConfigError::DuplicateChain));
}

#[test]
fn first_chain_with_an_error_decides() {
    let mut broken = other();
    broken.rpc_url = "nothing".to_string();
    let mut wallets = other();
    wallets.wallets = vec!["w".to_string()];
    let config = ConfigTest {
        tokens: vec![
            ("eth".to_string(), eth()),
            ("a".to_string(), wallets.clone()),
            ("b".to_string(), broken.clone()),
        ],
    };
    assert_eq!(AppState::new(&config), Err(ConfigError::InvalidAddress));
    let config = ConfigTest {
        tokens: vec![
            ("eth".to_string(), eth()),
            ("b".to_string(), broken),
            ("eth".to_string(), wallets),
        ],
    };
    assert_eq!(AppState::new(&config), Err(ConfigError::InvalidEndpoint));
}
