//! Price resolution: from a token's pricing strategy and what the chain
//! answered to a price in USD.
//!
//! Resolution is split in two around the contract call. `PricingStrategy::query`
//! says which call a strategy needs; `PricingStrategy::resolve` turns the
//! answer into a price or an error. Neither performs the call.

use crate::address::Address;
use crate::amount::{lemma_pow10_fits, lemma_pow10_positive, pow10, word_limit, RawAmount};
use crate::ratio::Ratio;
use vstd::prelude::*;

verus! {

/// Why a price or a balance could not be had.
#[derive(Clone, Copy, Debug, PartialEq, Eq, Structural)]
pub enum ResolutionError {
    /// The call failed: a timeout, a network or node error, a revert.
    ProviderFailure,
    /// The answer was not of the expected kind, or a number in it or derived
    /// from it cannot be held.
    ParseFailure,
}

/// One of the two reserves of a two-asset pool, in the pool's storage order.
#[derive(Clone, Copy, Debug, PartialEq, Eq, Structural)]
pub enum ReserveSlot {
    /// `reserve0`.
    First,
    /// `reserve1`.
    Second,
}

/// How a token's price in USD is found.
#[derive(Clone, Copy, Debug, PartialEq, Eq)]
pub enum PricingStrategy {
    /// The price is the configured rate.
    Fixed { rate: Ratio },
    /// The price is the ratio of the reserves of a two-asset pool. Which
    /// reserve is the priced token (`base`) and which the USD asset (`quote`)
    /// is configured, as are the decimals of the two.
    AmmV2 {
        pool: Address,
        base: ReserveSlot,
        quote: ReserveSlot,
        base_decimals: u8,
        quote_decimals: u8,
    },
    /// The price is what a quoter contract offers, in the counter token, for
    /// one whole unit of the priced token.
    AmmV3 { quoter: Address, counter_token: Address, fee_tier: u32, counter_decimals: u8 },
}

/// The contract call that a price resolution needs.
#[derive(Clone, Copy, Debug, PartialEq, Eq)]
pub enum PriceQuery {
    /// No call.
    Nothing,
    /// The reserves of a pool.
    Reserves { pool: Address },
    /// A quote for swapping `amount_in` of `token_in` into `token_out`.
    Quote {
        quoter: Address,
        token_in: Address,
        token_out: Address,
        fee_tier: u32,
        amount_in: RawAmount,
    },
}

/// What came back from the call of a `PriceQuery`.
#[derive(Clone, Copy, Debug, PartialEq, Eq)]
pub enum PriceReply {
    /// No call was made.
    Nothing,
    /// The two reserves of a pool, in storage order.
    Reserves { reserve0: RawAmount, reserve1: RawAmount },
    /// The amount of the counter token that the quoter offers.
    Quote { amount_out: RawAmount },
    /// The call failed.
    Failed,
}

/// The reserve that stands in `slot`.
pub open spec fn reserve_at(slot: ReserveSlot, reserve0: nat, reserve1: nat) -> nat {
    match slot {
        ReserveSlot::First => reserve0,
        ReserveSlot::Second => reserve1,
    }
}

/// The price that a pool's reserves give, as numerator and denominator:
/// `(quote / 10^quote_decimals) / (base / 10^base_decimals)`, which is
/// `(quote * 10^base_decimals) / (base * 10^quote_decimals)`. There is none
/// where the base reserve is zero, or where one of the two powers of ten or
/// of the two products is not below `2^256`.
pub open spec fn reserves_price(
    base_reserve: nat,
    quote_reserve: nat,
    base_decimals: u8,
    quote_decimals: u8,
) -> Result<(nat, nat), ResolutionError> {
    let num = quote_reserve * pow10(base_decimals as nat);
    let den = base_reserve * pow10(quote_decimals as nat);
    if base_reserve > 0 && base_decimals <= 77 && quote_decimals <= 77 && num < word_limit() && den
        < word_limit() {
        Ok((num, den))
    } else {
        Err(ResolutionError::ParseFailure)
    }
}

/// The price that a quote for one whole unit gives:
/// `amount_out / 10^counter_decimals`. There is none where the power of ten
/// is not below `2^256`.
pub open spec fn quote_price(amount_out: nat, counter_decimals: u8) -> Result<
    (nat, nat),
    ResolutionError,
> {
    if counter_decimals <= 77 {
        Ok((amount_out, pow10(counter_decimals as nat)))
    } else {
        Err(ResolutionError::ParseFailure)
    }
}

impl PricingStrategy {
    /// The price that this strategy gives for a reply, as numerator and
    /// denominator, or the error.
    pub open spec fn resolve_spec(self, reply: PriceReply) -> Result<(nat, nat), ResolutionError> {
        match self {
            PricingStrategy::Fixed { rate } => Ok((rate.numer(), rate.denom())),
            PricingStrategy::AmmV2 { base, quote, base_decimals, quote_decimals, .. } => match reply {
                PriceReply::Failed => Err(ResolutionError::ProviderFailure),
                PriceReply::Reserves { reserve0, reserve1 } => reserves_price(
                    reserve_at(base, reserve0.value(), reserve1.value()),
                    reserve_at(quote, reserve0.value(), reserve1.value()),
                    base_decimals,
                    quote_decimals,
                ),
                _ => Err(ResolutionError::ParseFailure),
            },
            PricingStrategy::AmmV3 { counter_decimals, .. } => match reply {
                PriceReply::Failed => Err(ResolutionError::ProviderFailure),
                PriceReply::Quote { amount_out } => quote_price(
                    amount_out.value(),
                    counter_decimals,
                ),
                _ => Err(ResolutionError::ParseFailure),
            },
        }
    }

    /// Says which call the resolution of a token's price needs. A fixed rate
    /// needs none; a pool is asked for its reserves; a quoter is asked what it
    /// offers for one whole unit, `10^decimals`, of the token. The last fails
    /// where `10^decimals` is not below `2^256`.
    pub fn query(&self, token: &Address, decimals: u8) -> (r: Result<PriceQuery, ResolutionError>)
        ensures
            match *self {
                PricingStrategy::Fixed { .. } => r == Ok::<PriceQuery, ResolutionError>(
                    PriceQuery::Nothing,
                ),
                PricingStrategy::AmmV2 { pool, .. } => r == Ok::<PriceQuery, ResolutionError>(
                    PriceQuery::Reserves { pool },
                ),
                PricingStrategy::AmmV3 { quoter, counter_token, fee_tier, .. } => if decimals
                    <= 77 {
                    r matches Ok(
                        PriceQuery::Quote { quoter: q, token_in, token_out, fee_tier: f, amount_in },
                    ) && q == quoter && token_in == *token && token_out == counter_token && f
                        == fee_tier && amount_in.value() == pow10(decimals as nat)
                } else {
                    r == Err::<PriceQuery, ResolutionError>(ResolutionError::ParseFailure)
                },
            },
    {
        match self {
            PricingStrategy::Fixed { .. } => Ok(PriceQuery::Nothing),
            PricingStrategy::AmmV2 { pool, .. } => Ok(PriceQuery::Reserves { pool: *pool }),
            PricingStrategy::AmmV3 { quoter, counter_token, fee_tier, .. } => {
                match RawAmount::pow10(decimals) {
                    Some(amount_in) => Ok(
                        PriceQuery::Quote {
                            quoter: *quoter,
                            token_in: *token,
                            token_out: *counter_token,
                            fee_tier: *fee_tier,
                            amount_in,
                        },
                    ),
                    None => Err(ResolutionError::ParseFailure),
                }
            },
        }
    }

    /// Resolves the price from the reply to this strategy's query. A fixed
    /// rate is the price whatever the reply. A failed call is a
    /// `ProviderFailure`; a reply of another kind than the strategy asks for,
    /// an empty base reserve, or a number that cannot be held is a
    /// `ParseFailure`.
    pub fn resolve(&self, reply: &PriceReply) -> (r: Result<Ratio, ResolutionError>)
        ensures
            match r {
                Ok(price) => price.wf() && self.resolve_spec(*reply) == Ok::<
                    (nat, nat),
                    ResolutionError,
                >((price.numer(), price.denom())),
                Err(e) => self.resolve_spec(*reply) == Err::<(nat, nat), ResolutionError>(e),
            },
            *self matches PricingStrategy::Fixed { rate } ==> r == Ok::<Ratio, ResolutionError>(
                rate,
            ),
    {
        match self {
            PricingStrategy::Fixed { rate } => {
                proof {
                    use_type_invariant(rate);
                }
                Ok(*rate)
            },
            PricingStrategy::AmmV2 { base, quote, base_decimals, quote_decimals, .. } => {
                match reply {
                    PriceReply::Failed => Err(ResolutionError::ProviderFailure),
                    PriceReply::Reserves { reserve0, reserve1 } => {
                        let base_reserve = pick_reserve(*base, reserve0, reserve1);
                        let quote_reserve = pick_reserve(*quote, reserve0, reserve1);
                        price_from_reserves(
                            &base_reserve,
                            &quote_reserve,
                            *base_decimals,
                            *quote_decimals,
                        )
                    },
                    _ => Err(ResolutionError::ParseFailure),
                }
            },
            PricingStrategy::AmmV3 { counter_decimals, .. } => {
                match reply {
                    PriceReply::Failed => Err(ResolutionError::ProviderFailure),
                    PriceReply::Quote { amount_out } => price_from_quote(
                        amount_out,
                        *counter_decimals,
                    ),
                    _ => Err(ResolutionError::ParseFailure),
                }
            },
        }
    }
}

/// A fixed rate is the resolved price whatever the chain answered: any two
/// replies, a failed call among them, resolve to the configured rate.
pub proof fn lemma_fixed_rate_ignores_reply(rate: Ratio, first: PriceReply, second: PriceReply)
    ensures
        (PricingStrategy::Fixed { rate }).resolve_spec(first) == Ok::<(nat, nat), ResolutionError>(
            (rate.numer(), rate.denom()),
        ),
        (PricingStrategy::Fixed { rate }).resolve_spec(second) == (PricingStrategy::Fixed {
            rate,
        }).resolve_spec(first),
{
}

/// A strategy that asks the chain resolves a failed call to
/// `ProviderFailure`, and to nothing else.
pub proof fn lemma_failed_call_is_provider_failure(strategy: PricingStrategy)
    requires
        !(strategy is Fixed),
    ensures
        strategy.resolve_spec(PriceReply::Failed) == Err::<(nat, nat), ResolutionError>(
            ResolutionError::ProviderFailure,
        ),
{
}

/// The reserve that stands in `slot`.
pub fn pick_reserve(slot: ReserveSlot, reserve0: &RawAmount, reserve1: &RawAmount) -> (r: RawAmount)
    ensures
        r == match slot {
            ReserveSlot::First => *reserve0,
            ReserveSlot::Second => *reserve1,
        },
        r.value() == reserve_at(slot, reserve0.value(), reserve1.value()),
{
    match slot {
        ReserveSlot::First => *reserve0,
        ReserveSlot::Second => *reserve1,
    }
}

/// The price of the base asset in units of the quote asset, from the raw
/// reserves of a two-asset pool and the decimals of the two assets.
pub fn price_from_reserves(
    base_reserve: &RawAmount,
    quote_reserve: &RawAmount,
    base_decimals: u8,
    quote_decimals: u8,
) -> (r: Result<Ratio, ResolutionError>)
    ensures
        match r {
            Ok(price) => price.wf() && reserves_price(
                base_reserve.value(),
                quote_reserve.value(),
                base_decimals,
                quote_decimals,
            ) == Ok::<(nat, nat), ResolutionError>((price.numer(), price.denom())),
            Err(e) => reserves_price(
                base_reserve.value(),
                quote_reserve.value(),
                base_decimals,
                quote_decimals,
            ) == Err::<(nat, nat), ResolutionError>(e),
        },
{
    proof {
        lemma_pow10_fits(base_decimals as nat);
        lemma_pow10_fits(quote_decimals as nat);
        lemma_pow10_positive(base_decimals as nat);
        lemma_pow10_positive(quote_decimals as nat);
        lemma_product_bounds(base_reserve.value(), pow10(quote_decimals as nat));
        lemma_product_bounds(quote_reserve.value(), pow10(base_decimals as nat));
    }
    if base_reserve.is_zero() {
        return Err(ResolutionError::ParseFailure);
    }
    let base_unit = match RawAmount::pow10(base_decimals) {
        Some(u) => u,
        None => {
            return Err(ResolutionError::ParseFailure);
        },
    };
    let quote_unit = match RawAmount::pow10(quote_decimals) {
        Some(u) => u,
        None => {
            return Err(ResolutionError::ParseFailure);
        },
    };
    let num = match quote_reserve.checked_mul(&base_unit) {
        Some(n) => n,
        None => {
            return Err(ResolutionError::ParseFailure);
        },
    };
    let den = match base_reserve.checked_mul(&quote_unit) {
        Some(d) => d,
        None => {
            return Err(ResolutionError::ParseFailure);
        },
    };
    match Ratio::new(num, den) {
        Some(price) => Ok(price),
        None => Err(ResolutionError::ParseFailure),
    }
}

/// The price of one whole unit, from the raw amount of the counter token
/// that a quoter offers for it and the counter token's decimals.
pub fn price_from_quote(amount_out: &RawAmount, counter_decimals: u8) -> (r: Result<
    Ratio,
    ResolutionError,
>)
    ensures
        match r {
            Ok(price) => price.wf() && quote_price(amount_out.value(), counter_decimals) == Ok::<
                (nat, nat),
                ResolutionError,
            >((price.numer(), price.denom())),
            Err(e) => quote_price(amount_out.value(), counter_decimals) == Err::<
                (nat, nat),
                ResolutionError,
            >(e),
        },
{
    proof {
        lemma_pow10_positive(counter_decimals as nat);
    }
    match RawAmount::pow10(counter_decimals) {
        None => Err(ResolutionError::ParseFailure),
        Some(unit) => match Ratio::new(*amount_out, unit) {
            Some(price) => Ok(price),
            None => Err(ResolutionError::ParseFailure),
        },
    }
}

/// A product with a positive second factor is zero only where the first
/// factor is, and is no smaller than either factor where neither is zero.
proof fn lemma_product_bounds(a: nat, b: nat)
    requires
        b >= 1,
    ensures
        a * b >= a,
        a >= 1 ==> a * b >= b,
        a >= 1 ==> a * b >= 1,
{
    assert(a * b >= a) by (nonlinear_arith)
        requires
            b >= 1,
    ;
    if a >= 1 {
        assert(a * b >= b) by (nonlinear_arith)
            requires
                a >= 1,
        ;
    }
}

} // verus!
