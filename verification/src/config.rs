//! The configured topology, as it is read: chains, their wallets and tokens,
//! and how each token is priced. Addresses and rates are still text here.

use crate::address::{address_from_text, Address};
use crate::decimal::{decimal_value, parse_decimal};
use crate::price::{PricingStrategy, ReserveSlot};
use vstd::prelude::*;

verus! {

/// Why a configuration is refused.
#[derive(Clone, Copy, Debug, PartialEq, Eq, Structural)]
pub enum ConfigError {
    /// Two chains have the same slug.
    DuplicateChain,
    /// An endpoint is not a URL.
    InvalidEndpoint,
    /// A wallet, token, pool or quoter address is not an address.
    InvalidAddress,
    /// A token has more than one pricing strategy.
    AmbiguousStrategy,
    /// A fixed rate is not in decimal notation.
    InvalidRate,
    /// The base and the quote asset of a pool name the same reserve.
    SameReserve,
    /// A fee tier does not fit in 24 bits.
    InvalidFeeTier,
}

/// The first fee tier that a quoter cannot take, `2^24`.
pub const FEE_TIER_LIMIT: u32 = 0x100_0000;

/// The fee tier of a quoter for which none is configured: the medium tier
/// of the pools, in hundredths of a basis point.
pub const MEDIUM_FEE_TIER: u32 = 3000;

/// The decimals of a USD asset for which none are configured.
pub const USD_STABLE_DECIMALS: u8 = 6;

/// A two-asset pool whose reserve ratio prices a token.
#[derive(Clone, Debug, PartialEq, Eq)]
pub struct PoolConfig {
    /// The pool's address.
    pub pool: String,
    /// The reserve that holds the priced token.
    pub base: ReserveSlot,
    /// The reserve that holds the USD asset.
    pub quote: ReserveSlot,
    /// The decimals of the priced token.
    pub base_decimals: u8,
    /// The decimals of the USD asset.
    pub quote_decimals: u8,
}

/// A quoter contract whose offer for one whole unit prices a token.
#[derive(Clone, Debug, PartialEq, Eq)]
pub struct QuoterConfig {
    /// The quoter's address.
    pub quoter: String,
    /// The address of the USD asset that the quote is in.
    pub counter_token: String,
    /// The fee tier of the pool to quote from; the medium tier where none
    /// is given.
    pub fee_tier: Option<u32>,
    /// The decimals of the USD asset; six where none are given.
    pub counter_decimals: Option<u8>,
}

/// One token of a chain: its address and at most one way of pricing it.
#[derive(Clone, Debug, PartialEq, Eq)]
pub struct TokenConfigTest {
    /// The token contract's address.
    pub address: String,
    /// A fixed price in USD, in decimal notation.
    pub fixed_rate: Option<String>,
    /// A pool to price the token from.
    pub uniswap_v2: Option<PoolConfig>,
    /// A quoter to price the token from.
    pub uniswap_v3: Option<QuoterConfig>,
}

/// One chain: its endpoint, the wallets to watch and the tokens to watch in
/// them.
#[derive(Clone, Debug, PartialEq, Eq)]
pub struct ChainConfig {
    /// The URL of the chain's RPC endpoint.
    pub rpc_url: String,
    /// The addresses of the wallets.
    pub wallets: Vec<String>,
    /// The tokens.
    pub tokens: Vec<TokenConfigTest>,
}

/// The whole configuration: the chains, each under its slug.
#[derive(Clone, Debug, PartialEq, Eq)]
pub struct ConfigTest {
    /// Slug and configuration of each chain.
    pub tokens: Vec<(String, ChainConfig)>,
}

/// Whether `strategy` is the pool strategy that `config` describes.
pub open spec fn is_pool_strategy(strategy: PricingStrategy, config: PoolConfig) -> bool {
    strategy matches PricingStrategy::AmmV2 { pool, base, quote, base_decimals, quote_decimals }
        && address_from_text(config.pool@) == Some(pool@) && base == config.base && quote
        == config.quote && base_decimals == config.base_decimals && quote_decimals
        == config.quote_decimals
}

/// Whether `strategy` is the quoter strategy that `config` describes.
pub open spec fn is_quoter_strategy(strategy: PricingStrategy, config: QuoterConfig) -> bool {
    strategy matches PricingStrategy::AmmV3 { quoter, counter_token, fee_tier, counter_decimals }
        && address_from_text(config.quoter@) == Some(quoter@) && address_from_text(
        config.counter_token@,
    ) == Some(counter_token@) && fee_tier == config.fee_tier_or_medium() && counter_decimals
        == config.counter_decimals_or_six()
}

/// Whether `strategy` is the fixed rate that `text` writes.
pub open spec fn is_fixed_strategy(strategy: PricingStrategy, text: Seq<char>) -> bool {
    strategy matches PricingStrategy::Fixed { rate } && rate.wf() && decimal_value(text) == Some(
        (rate.numer(), rate.denom()),
    )
}

impl PoolConfig {
    /// What is wrong with this pool, if anything.
    pub open spec fn error(self) -> Option<ConfigError> {
        if address_from_text(self.pool@) is None {
            Some(ConfigError::InvalidAddress)
        } else if self.base == self.quote {
            Some(ConfigError::SameReserve)
        } else {
            None
        }
    }

    /// The pricing strategy that this pool gives. The pool's address must be
    /// one, and the two roles must name different reserves.
    pub fn strategy(&self) -> (r: Result<PricingStrategy, ConfigError>)
        ensures
            match r {
                Ok(s) => self.error() is None && is_pool_strategy(s, *self),
                Err(e) => self.error() == Some(e),
            },
    {
        let pool = match Address::parse(self.pool.as_str()) {
            Some(a) => a,
            None => {
                return Err(ConfigError::InvalidAddress);
            },
        };
        if self.base == self.quote {
            return Err(ConfigError::SameReserve);
        }
        Ok(
            PricingStrategy::AmmV2 {
                pool,
                base: self.base,
                quote: self.quote,
                base_decimals: self.base_decimals,
                quote_decimals: self.quote_decimals,
            },
        )
    }
}

impl QuoterConfig {
    /// The fee tier to quote from: the configured one, or the medium tier.
    pub open spec fn fee_tier_or_medium(self) -> u32 {
        match self.fee_tier {
            Some(fee_tier) => fee_tier,
            None => MEDIUM_FEE_TIER,
        }
    }

    /// The decimals of the USD asset: the configured ones, or six.
    pub open spec fn counter_decimals_or_six(self) -> u8 {
        match self.counter_decimals {
            Some(decimals) => decimals,
            None => USD_STABLE_DECIMALS,
        }
    }

    /// What is wrong with this quoter, if anything.
    pub open spec fn error(self) -> Option<ConfigError> {
        if address_from_text(self.quoter@) is None || address_from_text(self.counter_token@)
            is None {
            Some(ConfigError::InvalidAddress)
        } else if self.fee_tier_or_medium() >= FEE_TIER_LIMIT {
            Some(ConfigError::InvalidFeeTier)
        } else {
            None
        }
    }

    /// The pricing strategy that this quoter gives. Both addresses must be
    /// addresses, and the fee tier must fit in 24 bits. A fee tier that is
    /// not given is the medium one; decimals that are not given are six.
    pub fn strategy(&self) -> (r: Result<PricingStrategy, ConfigError>)
        ensures
            match r {
                Ok(s) => self.error() is None && is_quoter_strategy(s, *self),
                Err(e) => self.error() == Some(e),
            },
    {
        let quoter = match Address::parse(self.quoter.as_str()) {
            Some(a) => a,
            None => {
                return Err(ConfigError::InvalidAddress);
            },
        };
        let counter_token = match Address::parse(self.counter_token.as_str()) {
            Some(a) => a,
            None => {
                return Err(ConfigError::InvalidAddress);
            },
        };
        let fee_tier: u32 = match self.fee_tier {
            Some(fee_tier) => fee_tier,
            None => medium_fee_tier(),
        };
        if fee_tier >= FEE_TIER_LIMIT {
            return Err(ConfigError::InvalidFeeTier);
        }
        let counter_decimals: u8 = match self.counter_decimals {
            Some(decimals) => decimals,
            None => USD_STABLE_DECIMALS,
        };
        Ok(PricingStrategy::AmmV3 { quoter, counter_token, fee_tier, counter_decimals })
    }
}

impl TokenConfigTest {
    /// How many pricing strategies the token has.
    pub open spec fn strategy_count(self) -> nat {
        (if self.fixed_rate is Some {
            1nat
        } else {
            0nat
        }) + (if self.uniswap_v2 is Some {
            1nat
        } else {
            0nat
        }) + (if self.uniswap_v3 is Some {
            1nat
        } else {
            0nat
        })
    }

    /// What is wrong with the token's pricing, if anything: more than one
    /// strategy, or what is wrong with the one it has.
    pub open spec fn strategy_error(self) -> Option<ConfigError> {
        if self.strategy_count() > 1 {
            Some(ConfigError::AmbiguousStrategy)
        } else if self.fixed_rate is Some {
            if decimal_value(self.fixed_rate->0@) is None {
                Some(ConfigError::InvalidRate)
            } else {
                None
            }
        } else if self.uniswap_v2 is Some {
            self.uniswap_v2->0.error()
        } else if self.uniswap_v3 is Some {
            self.uniswap_v3->0.error()
        } else {
            None
        }
    }

    /// What is wrong with the token, if anything: its address first, then its
    /// pricing.
    pub open spec fn error(self) -> Option<ConfigError> {
        if address_from_text(self.address@) is None {
            Some(ConfigError::InvalidAddress)
        } else {
            self.strategy_error()
        }
    }

    /// Whether `strategy` is what this configuration says of the token's
    /// pricing: nothing where no strategy is configured, else the one that is.
    pub open spec fn describes(self, strategy: Option<PricingStrategy>) -> bool {
        if self.fixed_rate is Some {
            strategy is Some && is_fixed_strategy(strategy->0, self.fixed_rate->0@)
        } else if self.uniswap_v2 is Some {
            strategy is Some && is_pool_strategy(strategy->0, self.uniswap_v2->0)
        } else if self.uniswap_v3 is Some {
            strategy is Some && is_quoter_strategy(strategy->0, self.uniswap_v3->0)
        } else {
            strategy is None
        }
    }

    /// The token's pricing strategy. A token without one has no price; a
    /// token with more than one is refused.
    pub fn strategy(&self) -> (r: Result<Option<PricingStrategy>, ConfigError>)
        ensures
            match r {
                Ok(s) => self.strategy_error() is None && self.describes(s),
                Err(e) => self.strategy_error() == Some(e),
            },
    {
        let mut count: u8 = 0;
        if self.fixed_rate.is_some() {
            count = count + 1;
        }
        if self.uniswap_v2.is_some() {
            count = count + 1;
        }
        if self.uniswap_v3.is_some() {
            count = count + 1;
        }
        if count > 1 {
            return Err(ConfigError::AmbiguousStrategy);
        }
        match &self.fixed_rate {
            Some(text) => {
                return match parse_decimal(text.as_str()) {
                    Some(rate) => Ok(Some(PricingStrategy::Fixed { rate })),
                    None => Err(ConfigError::InvalidRate),
                };
            },
            None => {},
        }
        match &self.uniswap_v2 {
            Some(pool) => {
                return match pool.strategy() {
                    Ok(s) => Ok(Some(s)),
                    Err(e) => Err(e),
                };
            },
            None => {},
        }
        match &self.uniswap_v3 {
            Some(quoter) => {
                return match quoter.strategy() {
                    Ok(s) => Ok(Some(s)),
                    Err(e) => Err(e),
                };
            },
            None => {},
        }
        Ok(None)
    }
}

/// `<U24 as From<FeeAmount>>::from` of uniswap_v3_sdk, through `into`, on
/// `FeeAmount::MEDIUM`, with the result read as a `u32` (`Uint::to`).
/// Assumed: the medium tier is 3000.
#[verifier::external_body]
fn medium_fee_tier() -> (fee_tier: u32)
    ensures
        fee_tier == MEDIUM_FEE_TIER,
{
    let fee: alloy::primitives::aliases::U24 = uniswap_v3_sdk::prelude::FeeAmount::MEDIUM.into();
    fee.to::<u32>()
}

} // verus!
