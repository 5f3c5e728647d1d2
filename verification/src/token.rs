//! The cached state of one token: its name, its decimals and its price.
//!
//! Each field is written on its own, from the answer to its own contract
//! call. A failed call leaves its field as it was.

use crate::address::{address_from_text, Address};
use crate::config::{ConfigError, TokenConfigTest};
use crate::price::{PriceQuery, PriceReply, PricingStrategy, ResolutionError};
use crate::amount::pow10;
use crate::ratio::Ratio;
use vstd::prelude::*;

verus! {

/// What a reader sees of a token at one moment.
#[derive(Clone, Debug, PartialEq, Eq)]
pub struct TokenSnapshot {
    /// The token's name.
    pub name: String,
    /// The token's decimals.
    pub decimals: u8,
    /// The token's price in USD; zero while it is unknown.
    pub usd_price: Ratio,
}

/// A token of a chain, with what is cached of it.
#[derive(Clone, Debug, PartialEq, Eq)]
pub struct IndexableTokenERC20 {
    /// The token contract's address.
    pub address: Address,
    /// The slug of the chain that the token lives on.
    pub chain_slug: String,
    /// How the token is priced, if at all.
    pub strategy: Option<PricingStrategy>,
    /// The name that the contract last reported; empty until it did.
    pub name: String,
    /// Whether the contract has reported its name yet.
    pub name_known: bool,
    /// The decimals that the contract last reported; zero until it did.
    pub decimals: u8,
    /// Whether the contract has reported its decimals yet.
    pub decimals_known: bool,
    /// The price in USD that was last resolved; zero until one was.
    pub usd_price: Ratio,
    /// When a field was last written, as the caller counts time.
    pub last_updated: u64,
}

impl IndexableTokenERC20 {
    /// Whether nothing has been cached of the token yet.
    pub open spec fn is_fresh(self) -> bool {
        &&& self.name@.len() == 0
        &&& !self.name_known
        &&& self.decimals == 0
        &&& !self.decimals_known
        &&& self.usd_price.wf()
        &&& self.usd_price.numer() == 0
        &&& self.last_updated == 0
    }

    /// Whether this is the token that `config` describes on the chain `slug`.
    pub open spec fn matches_config(self, config: TokenConfigTest, slug: Seq<char>) -> bool {
        &&& address_from_text(config.address@) == Some(self.address@)
        &&& self.chain_slug@ == slug
        &&& config.describes(self.strategy)
    }

    /// The token once `name` was written at `now`.
    pub open spec fn with_name(self, name: String, now: u64) -> IndexableTokenERC20 {
        IndexableTokenERC20 { name, name_known: true, last_updated: now, ..self }
    }

    /// The token once `decimals` were written at `now`.
    pub open spec fn with_decimals(self, decimals: u8, now: u64) -> IndexableTokenERC20 {
        IndexableTokenERC20 { decimals, decimals_known: true, last_updated: now, ..self }
    }

    /// The token once `price` was written at `now`.
    pub open spec fn with_price(self, price: Ratio, now: u64) -> IndexableTokenERC20 {
        IndexableTokenERC20 { usd_price: price, last_updated: now, ..self }
    }

    /// Writing a field is idempotent: to write the same value at the same
    /// time once more changes nothing. And each write leaves the other two
    /// fields as they were.
    pub proof fn lemma_writes_are_idempotent(self, name: String, decimals: u8, price: Ratio, now: u64)
        ensures
            self.with_name(name, now).with_name(name, now) == self.with_name(name, now),
            self.with_decimals(decimals, now).with_decimals(decimals, now) == self.with_decimals(
                decimals,
                now,
            ),
            self.with_price(price, now).with_price(price, now) == self.with_price(price, now),
            self.with_name(name, now).decimals == self.decimals && self.with_name(
                name,
                now,
            ).usd_price == self.usd_price,
            self.with_decimals(decimals, now).name == self.name && self.with_decimals(
                decimals,
                now,
            ).usd_price == self.usd_price,
            self.with_price(price, now).name == self.name && self.with_price(price, now).decimals
                == self.decimals,
    {
    }

    /// Whether the token has a price: one above zero.
    pub open spec fn has_price(self) -> bool {
        self.usd_price.numer() > 0
    }

    /// A token of which nothing is cached yet.
    pub fn with_strategy(address: Address, chain_slug: String, strategy: Option<PricingStrategy>) -> (t:
        IndexableTokenERC20)
        ensures
            t.address == address,
            t.chain_slug == chain_slug,
            t.strategy == strategy,
            t.is_fresh(),
    {
        IndexableTokenERC20 {
            address,
            chain_slug,
            strategy,
            name: String::new(),
            name_known: false,
            decimals: 0,
            decimals_known: false,
            usd_price: Ratio::zero(),
            last_updated: 0,
        }
    }

    /// The token that `config` describes, with nothing cached of it yet, or
    /// what is wrong with `config`.
    pub fn new(config: &TokenConfigTest, chain_slug: String) -> (r: Result<
        IndexableTokenERC20,
        ConfigError,
    >)
        ensures
            match r {
                Ok(t) => config.error() is None && t.matches_config(*config, chain_slug@)
                    && t.is_fresh(),
                Err(e) => config.error() == Some(e),
            },
    {
        let address = match Address::parse(config.address.as_str()) {
            Some(a) => a,
            None => {
                return Err(ConfigError::InvalidAddress);
            },
        };
        match config.strategy() {
            Ok(strategy) => Ok(IndexableTokenERC20::with_strategy(address, chain_slug, strategy)),
            Err(e) => Err(e),
        }
    }

    /// What is cached of the token.
    pub fn snapshot(&self) -> (s: TokenSnapshot)
        ensures
            s.name@ == self.name@,
            s.decimals == self.decimals,
            s.usd_price == self.usd_price,
    {
        TokenSnapshot {
            name: self.name.clone(),
            decimals: self.decimals,
            usd_price: self.usd_price,
        }
    }

    /// Writes the name.
    pub fn set_name(&mut self, name: String, now: u64)
        ensures
            *final(self) == old(self).with_name(name, now),
    {
        self.name = name;
        self.name_known = true;
        self.last_updated = now;
    }

    /// Writes the decimals.
    pub fn set_decimals(&mut self, decimals: u8, now: u64)
        ensures
            *final(self) == old(self).with_decimals(decimals, now),
    {
        self.decimals = decimals;
        self.decimals_known = true;
        self.last_updated = now;
    }

    /// Writes the price.
    pub fn set_price(&mut self, price: Ratio, now: u64)
        ensures
            *final(self) == old(self).with_price(price, now),
    {
        self.usd_price = price;
        self.last_updated = now;
    }

    /// Takes the answer to the contract's `name` call: the name is written,
    /// a failure leaves the token as it was.
    pub fn update_name(&mut self, reply: Result<String, ResolutionError>, now: u64)
        ensures
            match reply {
                Ok(name) => *final(self) == old(self).with_name(name, now),
                Err(_) => *final(self) == *old(self),
            },
    {
        match reply {
            Ok(name) => self.set_name(name, now),
            Err(_) => {},
        }
    }

    /// Takes the answer to the contract's `decimals` call: the decimals are
    /// written, a failure leaves the token as it was.
    pub fn update_decimals(&mut self, reply: Result<u8, ResolutionError>, now: u64)
        ensures
            match reply {
                Ok(decimals) => *final(self) == old(self).with_decimals(decimals, now),
                Err(_) => *final(self) == *old(self),
            },
    {
        match reply {
            Ok(decimals) => self.set_decimals(decimals, now),
            Err(_) => {},
        }
    }

    /// The call that the token's price needs now. A token without a strategy
    /// needs none. A quoter is asked about one whole unit, so the decimals
    /// must have been reported before: until then the resolution fails as the
    /// call for the decimals did, with `ProviderFailure`.
    pub fn price_query(&self) -> (r: Result<PriceQuery, ResolutionError>)
        ensures
            match self.strategy {
                None | Some(PricingStrategy::Fixed { .. }) => r == Ok::<
                    PriceQuery,
                    ResolutionError,
                >(PriceQuery::Nothing),
                Some(PricingStrategy::AmmV2 { pool, .. }) => r == Ok::<PriceQuery, ResolutionError>(
                    PriceQuery::Reserves { pool },
                ),
                Some(PricingStrategy::AmmV3 { quoter, counter_token, fee_tier, .. }) => if
                    !self.decimals_known {
                    r == Err::<PriceQuery, ResolutionError>(ResolutionError::ProviderFailure)
                } else if self.decimals <= 77 {
                    r matches Ok(
                        PriceQuery::Quote { quoter: q, token_in, token_out, fee_tier: f, amount_in },
                    ) && q == quoter && token_in == self.address && token_out == counter_token
                        && f == fee_tier && amount_in.value() == pow10(self.decimals as nat)
                } else {
                    r == Err::<PriceQuery, ResolutionError>(ResolutionError::ParseFailure)
                },
            },
    {
        match &self.strategy {
            None => Ok(PriceQuery::Nothing),
            Some(strategy) => {
                match strategy {
                    PricingStrategy::AmmV3 { .. } => {
                        if !self.decimals_known {
                            return Err(ResolutionError::ProviderFailure);
                        }
                    },
                    _ => {},
                }
                strategy.query(&self.address, self.decimals)
            },
        }
    }

    /// Whether `after` is this token once `reply` to its price query came in
    /// at `now`. A fixed rate is the price whatever the reply. With another
    /// strategy the resolved price is written; where the resolution fails, or
    /// without a strategy, the token stays as it was.
    pub open spec fn priced(self, after: IndexableTokenERC20, reply: PriceReply, now: u64) -> bool {
        match self.strategy {
            None => after == self,
            Some(strategy) => match strategy.resolve_spec(reply) {
                Ok(price) => {
                    &&& after == self.with_price(after.usd_price, now)
                    &&& after.usd_price.wf()
                    &&& (after.usd_price.numer(), after.usd_price.denom()) == price
                    &&& strategy matches PricingStrategy::Fixed { rate } ==> after.usd_price == rate
                },
                Err(_) => after == self,
            },
        }
    }

    /// The outcome of a price resolution for this token: nothing to report
    /// where it has no strategy or a price was resolved, else the error.
    pub open spec fn pricing_outcome(self, reply: PriceReply) -> Result<(), ResolutionError> {
        match self.strategy {
            None => Ok(()),
            Some(strategy) => match strategy.resolve_spec(reply) {
                Ok(_) => Ok(()),
                Err(e) => Err(e),
            },
        }
    }

    /// Takes the answer to the token's price query. A resolved price is
    /// written. Without a strategy, or where the resolution fails, the token
    /// stays as it was; a failure is returned.
    pub fn update_usd_price(&mut self, reply: &PriceReply, now: u64) -> (r: Result<
        (),
        ResolutionError,
    >)
        ensures
            old(self).priced(*final(self), *reply, now),
            r == old(self).pricing_outcome(*reply),
            r is Err ==> *final(self) == *old(self),
    {
        let outcome = match &self.strategy {
            None => {
                return Ok(());
            },
            Some(strategy) => strategy.resolve(reply),
        };
        match outcome {
            Ok(price) => {
                self.set_price(price, now);
                Ok(())
            },
            Err(e) => Err(e),
        }
    }
}

} // verus!
