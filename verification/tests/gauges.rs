use erc20_metrics::address::Address;
use erc20_metrics::amount::RawAmount;
use erc20_metrics::gauge::{
    GaugeFamily, SampleLabels, LABEL_CHAIN, LABEL_TOKEN, LABEL_TOKEN_NAME, LABEL_WALLET,
};
use erc20_metrics::metrics::{
    balance_of, balance_of_usd, wallet_labels, MetricsStore, BALANCE_OF, BALANCE_OF_USD,
    PRICE_IN_USD,
};
use erc20_metrics::price::{PricingStrategy, ResolutionError};
use erc20_metrics::ratio::Ratio;
use erc20_metrics::token::IndexableTokenERC20;

fn amount(v: u128) -> RawAmount {
    RawAmount::from_u128(v)
}

fn ratio(num: u128, den: u128) -> Ratio {
    Ratio::new(amount(num), amount(den)).unwrap()
}

fn address(last: u8) -> Address {
    let mut bytes = [0u8; 20];
    bytes[19] = last;
    Address::from_bytes(bytes)
}

fn labels(chain: &str, token: u8, name: &str, wallet: Option<u8>) -> SampleLabels {
    SampleLabels {
        chain: chain.to_string(),
        token: address(token),
        token_name: name.to_string(),
        wallet: wallet.map(address),
    }
}

fn token_with_price(price: Ratio, decimals: u8) -> IndexableTokenERC20 {
    let mut token = IndexableTokenERC20::with_strategy(
        address(1),
        "eth".to_string(),
        Some(PricingStrategy::Fixed { rate: price }),
    );
    token.set_name("Token".to_string(), 1);
    token.set_decimals(decimals, 1);
    token.set_price(price, 1);
    token
}

#[test]
fn family_keeps_the_last_value_under_each_label_tuple() {
    let mut family = GaugeFamily::new("balance_of", true);
    assert_eq!(family.len(), 0);
    assert_eq!(family.get(&labels("eth", 1, "A", Some(7))), None);
    family.set(labels("eth", 1, "A", Some(7)), ratio(1, 2));
    family.set(labels("eth", 1, "A", Some(8)), ratio(3, 4));
    family.set(labels("bsc", 1, "A", Some(7)), ratio(5, 6));
    assert_eq!(family.len(), 3);
    family.set(labels("eth", 1, "A", Some(7)), ratio(9, 10));
    assert_eq!(family.len(), 3);
    assert_eq!(family.get(&labels("eth", 1, "A", Some(7))), Some(ratio(9, 10)));
    assert_eq!(family.get(&labels("eth", 1, "A", Some(8))), Some(ratio(3, 4)));
    assert_eq!(family.get(&labels("bsc", 1, "A", Some(7))), Some(ratio(5, 6)));
    assert_eq!(family.get(&labels("eth", 2, "A", Some(7))), None);
    assert_eq!(family.get(&labels("eth", 1, "B", Some(7))), None);
    assert_eq!(family.get(&labels("eth", 1, "A", None)), None);
    assert_eq!(family.sample_at(0).map(|s| s.value), Some(ratio(9, 10)));
    assert_eq!(family.sample_at(2).map(|s| s.labels.chain.clone()), Some("bsc".to_string()));
    assert!(family.sample_at(3).is_none());
}

#[test]
fn labels_differ_in_any_part() {
    let a = labels("eth", 1, "A", Some(7));
    assert!(a.same(&labels("eth", 1, "A", Some(7))));
    assert!(!a.same(&labels("et", 1, "A", Some(7))));
    assert!(!a.same(&labels("eth", 2, "A", Some(7))));
    assert!(!a.same(&labels("eth", 1, "a", Some(7))));
    assert!(!a.same(&labels("eth", 1, "A", Some(8))));
    assert!(!a.same(&labels("eth", 1, "A", None)));
    assert!(labels("eth", 1, "A", None).same(&labels("eth", 1, "A", None)));
}

#[test]
fn balance_in_whole_units_for_each_number_of_decimals() {
    let raw = amount(123_456_789_000_000_000_000);
    for decimals in 0u8..=18 {
        let balance = balance_of(&raw, decimals).unwrap();
        assert_eq!(balance.numerator(), raw);
        assert_eq!(Some(balance.denominator()), RawAmount::pow10(decimals));
        let as_float = 123_456_789_000_000_000_000f64 / 10f64.powi(decimals as i32);
        let got = balance.numerator().to_u128().unwrap() as f64
            / balance.denominator().to_u128().unwrap() as f64;
        assert!((got - as_float).abs() <= as_float * 1e-12);
    }
    let exact = balance_of(&amount(1_500_000), 6).unwrap();
    assert_eq!(exact.numerator(), amount(1_500_000));
    assert_eq!(exact.denominator(), amount(1_000_000));
    assert_eq!(balance_of(&raw, 78), Err(ResolutionError::ParseFailure));
    assert!(balance_of(&raw, 77).is_ok());
}

#[test]
fn balance_in_usd_is_balance_times_price() {
    let balance = ratio(5_000_000, 1_000_000);
    let price = ratio(2000, 1);
    let usd = balance_of_usd(&balance, &price).unwrap();
    assert_eq!(usd.numerator(), amount(10_000_000_000));
    assert_eq!(usd.denominator(), amount(1_000_000));
    assert_eq!(balance_of_usd(&balance, &Ratio::zero()), None);
    assert_eq!(balance_of_usd(&balance, &ratio(0, 5)), None);
    let huge = Ratio::new(RawAmount::from_limbs([0, 0, 0, 1]), amount(1)).unwrap();
    assert_eq!(balance_of_usd(&huge, &huge), None);
}

#[test]
fn record_balance_writes_both_gauges_for_a_priced_token() {
    let mut store = MetricsStore::new();
    let token = token_with_price(ratio(3, 2), 6);
    let wallet = address(9);
    assert_eq!(store.record_balance(&token, &wallet, Ok(amount(4_000_000))), Ok(()));
    let key = wallet_labels(&token, &wallet);
    assert_eq!(key, labels("eth", 1, "Token", Some(9)));
    assert_eq!(store.balance_of.get(&key), Some(ratio(4_000_000, 1_000_000)));
    assert_eq!(store.balance_of_usd.get(&key), Some(ratio(12_000_000, 2_000_000)));
    assert_eq!(store.price_in_usd.len(), 0);
    assert!(store.record_price(&token));
    assert_eq!(store.price_in_usd.get(&labels("eth", 1, "Token", None)), Some(ratio(3, 2)));
    assert_eq!(store.price_in_usd.len(), 1);
    assert_eq!(store.balance_of.len(), 1);
    assert_eq!(store.balance_of_usd.len(), 1);
}

#[test]
fn usd_gauges_stay_unset_for_a_token_without_price() {
    let mut store = MetricsStore::new();
    let mut token = IndexableTokenERC20::with_strategy(address(1), "eth".to_string(), None);
    token.set_decimals(18, 1);
    let wallet = address(9);
    assert_eq!(store.record_balance(&token, &wallet, Ok(amount(5))), Ok(()));
    assert!(!store.record_price(&token));
    assert_eq!(store.balance_of.len(), 1);
    assert_eq!(store.balance_of_usd.len(), 0);
    assert_eq!(store.price_in_usd.len(), 0);
    assert_eq!(store.balance_of_usd.get(&wallet_labels(&token, &wallet)), None);
    assert_eq!(store.price_in_usd.get(&labels("eth", 1, "", None)), None);
}

#[test]
fn failed_balance_call_leaves_the_store_as_it_was() {
    let mut store = MetricsStore::new();
    let token = token_with_price(ratio(3, 2), 6);
    let wallet = address(9);
    store.record_balance(&token, &wallet, Ok(amount(4_000_000))).unwrap();
    let before = store.clone();
    assert_eq!(
        store.record_balance(&token, &wallet, Err(ResolutionError::ProviderFailure)),
        Err(ResolutionError::ProviderFailure)
    );
    assert_eq!(store, before);
    assert_eq!(
        store.record_balance(&token, &wallet, Err(ResolutionError::ParseFailure)),
        Err(ResolutionError::ParseFailure)
    );
    assert_eq!(store, before);
    let absurd = token_with_price(ratio(3, 2), 200);
    assert_eq!(
        store.record_balance(&absurd, &wallet, Ok(amount(1))),
        Err(ResolutionError::ParseFailure)
    );
    assert_eq!(store, before);
}

#[test]
fn usd_value_that_cannot_be_held_is_not_written() {
    let mut store = MetricsStore::new();
    let huge = Ratio::new(RawAmount::from_limbs([0, 0, 0, 1]), amount(1)).unwrap();
    let token = token_with_price(huge, 0);
    let wallet = address(9);
    let raw = RawAmount::from_limbs([0, 0, 1, 0]);
    assert_eq!(
        store.record_balance(&token, &wallet, Ok(raw)),
        Err(ResolutionError::ParseFailure)
    );
    assert_eq!(store.balance_of.len(), 1);
    assert_eq!(store.balance_of_usd.len(), 0);
    // A value that was written before stays until one can be held again.
    assert_eq!(store.record_balance(&token, &wallet, Ok(amount(2))), Ok(()));
    let key = wallet_labels(&token, &wallet);
    let kept = store.balance_of_usd.get(&key);
    assert!(kept.is_some());
    assert_eq!(
        store.record_balance(&token, &wallet, Ok(raw)),
        Err(ResolutionError::ParseFailure)
    );
    assert_eq!(store.balance_of_usd.get(&key), kept);
    assert_eq!(store.balance_of.get(&key).map(|b| b.numerator()), Some(raw));
}

#[test]
fn remove_takes_out_one_label_tuple() {
    let mut family = GaugeFamily::new("balance_of_usd", true);
    family.set(labels("eth", 1, "A", Some(7)), ratio(1, 2));
    family.set(labels("eth", 1, "A", Some(8)), ratio(3, 4));
    family.set(labels("eth", 2, "B", Some(7)), ratio(5, 6));
    family.remove(&labels("eth", 1, "A", Some(8)));
    assert_eq!(family.len(), 2);
    assert_eq!(family.get(&labels("eth", 1, "A", Some(8))), None);
    assert_eq!(family.get(&labels("eth", 1, "A", Some(7))), Some(ratio(1, 2)));
    assert_eq!(family.get(&labels("eth", 2, "B", Some(7))), Some(ratio(5, 6)));
    assert_eq!(family.sample_at(1).map(|s| s.value), Some(ratio(5, 6)));
    let before = family.clone();
    family.remove(&labels("eth", 1, "A", Some(8)));
    family.remove(&labels("eth", 9, "A", Some(7)));
    family.remove(&labels("eth", 1, "A", None));
    assert_eq!(family, before);
    family.remove(&labels("eth", 1, "A", Some(7)));
    family.remove(&labels("eth", 2, "B", Some(7)));
    assert_eq!(family.len(), 0);
    family.remove(&labels("eth", 2, "B", Some(7)));
    assert_eq!(family.len(), 0);
}

#[test]
fn families_have_their_names_and_labels() {
    let store = MetricsStore::new();
    assert_eq!(store.balance_of.family_name(), "balance_of");
    assert_eq!(store.balance_of_usd.family_name(), "balance_of_usd");
    assert_eq!(store.price_in_usd.family_name(), "price_in_usd");
    assert_eq!(BALANCE_OF, "balance_of");
    assert_eq!(BALANCE_OF_USD, "balance_of_usd");
    assert_eq!(PRICE_IN_USD, "price_in_usd");
    assert_eq!(store.balance_of.label_names(), vec!["chain", "token", "token_name", "wallet"]);
    assert_eq!(
        store.balance_of_usd.label_names(),
        vec!["chain", "token", "token_name", "wallet"]
    );
    assert_eq!(store.price_in_usd.label_names(), vec!["chain", "token", "token_name"]);
    assert_eq!(
        [LABEL_CHAIN, LABEL_TOKEN, LABEL_TOKEN_NAME, LABEL_WALLET],
        ["chain", "token", "token_name", "wallet"]
    );
    let mut family = GaugeFamily::new("anything", false);
    family.set(labels("eth", 1, "A", None), ratio(1, 2));
    family.remove(&labels("eth", 1, "A", None));
    assert_eq!(family.family_name(), "anything");
    assert_eq!(family.label_names().len(), 3);
}

#[test]
fn usd_gauges_go_when_the_price_falls_to_zero() {
    let mut store = MetricsStore::new();
    let mut token = token_with_price(ratio(3000, 1), 6);
    let wallet = address(9);
    let other = address(8);
    store.record_balance(&token, &wallet, Ok(amount(4_000_000))).unwrap();
    store.record_balance(&token, &other, Ok(amount(1_000_000))).unwrap();
    assert!(store.record_price(&token));
    assert_eq!(store.balance_of_usd.len(), 2);
    assert_eq!(store.price_in_usd.len(), 1);
    token.set_price(ratio(0, 1_000_000), 2);
    assert_eq!(store.record_balance(&token, &wallet, Ok(amount(5_000_000))), Ok(()));
    assert_eq!(store.balance_of_usd.get(&wallet_labels(&token, &wallet)), None);
    assert_eq!(store.balance_of.get(&wallet_labels(&token, &wallet)), Some(ratio(5_000_000, 1_000_000)));
    // The other wallet's sample goes with its own balance step, even where
    // the call for the balance fails.
    assert_eq!(store.balance_of_usd.len(), 1);
    assert_eq!(
        store.record_balance(&token, &other, Err(ResolutionError::ProviderFailure)),
        Err(ResolutionError::ProviderFailure)
    );
    assert_eq!(store.balance_of_usd.len(), 0);
    assert_eq!(store.balance_of.get(&wallet_labels(&token, &other)), Some(ratio(1_000_000, 1_000_000)));
    assert!(!store.record_price(&token));
    assert_eq!(store.price_in_usd.len(), 0);
    assert_eq!(store.price_in_usd.get(&labels("eth", 1, "Token", None)), None);
    assert_eq!(store.balance_of.len(), 2);
}
