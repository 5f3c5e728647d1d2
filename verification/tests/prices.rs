use erc20_metrics::address::Address;
use erc20_metrics::amount::RawAmount;
use erc20_metrics::price::{
    pick_reserve, price_from_quote, price_from_reserves, PriceQuery, PriceReply, PricingStrategy,
    ReserveSlot, ResolutionError,
};
use erc20_metrics::ratio::Ratio;

fn amount(v: u128) -> RawAmount {
    RawAmount::from_u128(v)
}

fn address(last: u8) -> Address {
    let mut bytes = [0u8; 20];
    bytes[19] = last;
    Address::from_bytes(bytes)
}

fn as_float(r: &Ratio) -> f64 {
    let num = r.numerator().to_u128().unwrap() as f64;
    let den = r.denominator().to_u128().unwrap() as f64;
    num / den
}

fn pool_strategy(base: ReserveSlot, quote: ReserveSlot) -> PricingStrategy {
    PricingStrategy::AmmV2 {
        pool: address(1),
        base,
        quote,
        base_decimals: 18,
        quote_decimals: 6,
    }
}

fn quoter_strategy() -> PricingStrategy {
    PricingStrategy::AmmV3 {
        quoter: address(2),
        counter_token: address(3),
        fee_tier: 3000,
        counter_decimals: 6,
    }
}

#[test]
fn fixed_rate_is_the_price_whatever_the_reply() {
    let rate = Ratio::new(amount(3), amount(2)).unwrap();
    let strategy = PricingStrategy::Fixed { rate };
    let replies = [
        PriceReply::Nothing,
        PriceReply::Failed,
        PriceReply::Reserves { reserve0: amount(0), reserve1: amount(0) },
        PriceReply::Reserves { reserve0: amount(7), reserve1: amount(9) },
        PriceReply::Quote { amount_out: amount(123) },
    ];
    for reply in replies.iter() {
        assert_eq!(strategy.resolve(reply), Ok(rate));
    }
    assert_eq!(strategy.query(&address(9), 18), Ok(PriceQuery::Nothing));
    assert_eq!(strategy.query(&address(9), 255), Ok(PriceQuery::Nothing));
}

#[test]
fn pool_price_from_reserves_is_2000() {
    // reserve0 = 1,000,000 units of the quote asset (6 decimals),
    // reserve1 = 500 units of the base asset (18 decimals).
    let reserve0 = amount(1_000_000 * 1_000_000);
    let reserve1 = amount(500 * 1_000_000_000_000_000_000);
    let strategy = pool_strategy(ReserveSlot::Second, ReserveSlot::First);
    let price = strategy.resolve(&PriceReply::Reserves { reserve0, reserve1 }).unwrap();
    assert_eq!(price.numerator(), amount(1_000_000_000_000 * 1_000_000_000_000_000_000));
    assert_eq!(price.denominator(), amount(500 * 1_000_000_000_000_000_000 * 1_000_000));
    let two_thousand = price.denominator().checked_mul(&amount(2000)).unwrap();
    assert_eq!(price.numerator(), two_thousand);
    assert_eq!(as_float(&price), 2000.0);
}

#[test]
fn pool_price_follows_the_configured_roles() {
    let reserve0 = amount(1_000_000 * 1_000_000);
    let reserve1 = amount(500 * 1_000_000_000_000_000_000);
    // With the roles the other way round the reserves are read the other way
    // round: base = reserve0, quote = reserve1.
    let swapped = pool_strategy(ReserveSlot::First, ReserveSlot::Second);
    let price = swapped.resolve(&PriceReply::Reserves { reserve0, reserve1 }).unwrap();
    assert_eq!(
        price.numerator(),
        reserve1.checked_mul(&RawAmount::pow10(18).unwrap()).unwrap()
    );
    assert_eq!(
        price.denominator(),
        reserve0.checked_mul(&RawAmount::pow10(6).unwrap()).unwrap()
    );
    assert_eq!(pick_reserve(ReserveSlot::First, &reserve0, &reserve1), reserve0);
    assert_eq!(pick_reserve(ReserveSlot::Second, &reserve0, &reserve1), reserve1);
}

#[test]
fn pool_asks_for_its_reserves() {
    let strategy = pool_strategy(ReserveSlot::Second, ReserveSlot::First);
    assert_eq!(strategy.query(&address(9), 18), Ok(PriceQuery::Reserves { pool: address(1) }));
}

#[test]
fn pool_failures() {
    let strategy = pool_strategy(ReserveSlot::Second, ReserveSlot::First);
    assert_eq!(strategy.resolve(&PriceReply::Failed), Err(ResolutionError::ProviderFailure));
    assert_eq!(strategy.resolve(&PriceReply::Nothing), Err(ResolutionError::ParseFailure));
    assert_eq!(
        strategy.resolve(&PriceReply::Quote { amount_out: amount(1) }),
        Err(ResolutionError::ParseFailure)
    );
    // An empty base reserve gives no price.
    assert_eq!(
        strategy.resolve(&PriceReply::Reserves { reserve0: amount(5), reserve1: amount(0) }),
        Err(ResolutionError::ParseFailure)
    );
    // An empty quote reserve gives the price zero.
    let zero = strategy
        .resolve(&PriceReply::Reserves { reserve0: amount(0), reserve1: amount(5) })
        .unwrap();
    assert!(!zero.is_positive());
}

#[test]
fn reserves_that_overflow_are_a_parse_failure() {
    let huge = RawAmount::from_limbs([0, 0, 0, 1 << 60]);
    assert_eq!(
        price_from_reserves(&amount(1), &huge, 18, 6),
        Err(ResolutionError::ParseFailure)
    );
    assert_eq!(
        price_from_reserves(&huge, &amount(1), 18, 6),
        Err(ResolutionError::ParseFailure)
    );
    assert_eq!(
        price_from_reserves(&amount(1), &amount(1), 78, 6),
        Err(ResolutionError::ParseFailure)
    );
    assert_eq!(
        price_from_reserves(&amount(1), &amount(1), 6, 78),
        Err(ResolutionError::ParseFailure)
    );
    assert_eq!(
        price_from_reserves(&amount(1), &amount(0), 78, 6),
        Err(ResolutionError::ParseFailure)
    );
    let fits = price_from_reserves(&amount(1), &amount(1), 77, 77).unwrap();
    assert_eq!(fits.numerator(), RawAmount::pow10(77).unwrap());
    assert_eq!(fits.denominator(), RawAmount::pow10(77).unwrap());
}

#[test]
fn quoter_price_for_one_whole_unit_is_3000() {
    let strategy = quoter_strategy();
    let token = address(9);
    let query = strategy.query(&token, 18).unwrap();
    assert_eq!(
        query,
        PriceQuery::Quote {
            quoter: address(2),
            token_in: token,
            token_out: address(3),
            fee_tier: 3000,
            amount_in: amount(1_000_000_000_000_000_000),
        }
    );
    let price = strategy.resolve(&PriceReply::Quote { amount_out: amount(3000 * 1_000_000) }).unwrap();
    assert_eq!(price.numerator(), amount(3_000_000_000));
    assert_eq!(price.denominator(), amount(1_000_000));
    assert_eq!(as_float(&price), 3000.0);
}

#[test]
fn quoter_failures() {
    let strategy = quoter_strategy();
    assert_eq!(strategy.resolve(&PriceReply::Failed), Err(ResolutionError::ProviderFailure));
    assert_eq!(strategy.resolve(&PriceReply::Nothing), Err(ResolutionError::ParseFailure));
    assert_eq!(
        strategy.resolve(&PriceReply::Reserves { reserve0: amount(1), reserve1: amount(1) }),
        Err(ResolutionError::ParseFailure)
    );
    assert_eq!(strategy.query(&address(9), 78), Err(ResolutionError::ParseFailure));
    assert_eq!(price_from_quote(&amount(1), 78), Err(ResolutionError::ParseFailure));
    let tiny = price_from_quote(&amount(1), 77).unwrap();
    assert_eq!(tiny.denominator(), RawAmount::pow10(77).unwrap());
}

#[test]
fn quoter_is_asked_about_one_whole_unit() {
    let strategy = quoter_strategy();
    for decimals in [0u8, 6, 8, 18, 77] {
        match strategy.query(&address(9), decimals) {
            Ok(PriceQuery::Quote { amount_in, .. }) => {
                assert_eq!(Some(amount_in), RawAmount::pow10(decimals));
            }
            other => panic!("unexpected query {:?}", other),
        }
    }
}

#[test]
fn ratio_rules() {
    assert_eq!(Ratio::new(amount(1), amount(0)), None);
    let half = Ratio::new(amount(1), amount(2)).unwrap();
    let third = Ratio::new(amount(1), amount(3)).unwrap();
    let product = half.checked_mul(&third).unwrap();
    assert_eq!(product.numerator(), amount(1));
    assert_eq!(product.denominator(), amount(6));
    assert!(half.is_positive());
    assert!(!Ratio::zero().is_positive());
    assert_eq!(Ratio::zero().denominator(), RawAmount::one());
    assert_eq!(Ratio::whole(amount(5)).numerator(), amount(5));
    assert_eq!(Ratio::whole(amount(5)).denominator(), RawAmount::one());
    let big = Ratio::new(RawAmount::from_limbs([0, 0, 0, 1]), amount(1)).unwrap();
    assert_eq!(big.checked_mul(&big), None);
    let small = Ratio::new(amount(1), RawAmount::from_limbs([0, 0, 0, 1])).unwrap();
    assert_eq!(small.checked_mul(&small), None);
}
