//! The three gauge families and what is written to them.
//!
//! `balance_of` holds each wallet's balance of each token in whole units,
//! `balance_of_usd` the same balance in USD, and `price_in_usd` each token's
//! price. The two USD families are written only for a token whose cached
//! price is above zero; for a token whose price is zero, what they held
//! under its labels is taken out.

use crate::address::Address;
use crate::amount::{lemma_pow10_positive, pow10, word_limit, RawAmount};
use crate::gauge::{parts, GaugeFamily, LabelKey, SampleLabels};
use crate::price::ResolutionError;
use crate::ratio::Ratio;
use crate::token::IndexableTokenERC20;
use vstd::prelude::*;

verus! {

/// The labels under which a wallet's balance of a token is kept.
pub open spec fn wallet_key(token: IndexableTokenERC20, wallet: Address) -> LabelKey {
    (token.chain_slug@, token.address@, token.name@, Some(wallet@))
}

/// The labels under which a token's price is kept.
pub open spec fn token_key(token: IndexableTokenERC20) -> LabelKey {
    (token.chain_slug@, token.address@, token.name@, None)
}

/// A raw balance in whole units, `raw / 10^decimals`, as numerator and
/// denominator.
pub open spec fn units(raw: nat, decimals: u8) -> (nat, nat) {
    (raw, pow10(decimals as nat))
}

/// A balance in USD, `balance * price`, as numerator and denominator.
pub open spec fn usd_value(balance: (nat, nat), price: (nat, nat)) -> (nat, nat) {
    (balance.0 * price.0, balance.1 * price.1)
}

/// Whether a balance in USD is written: the price is above zero, and
/// numerator and denominator of the product are below `2^256`.
pub open spec fn usd_value_is_kept(balance: (nat, nat), price: (nat, nat)) -> bool {
    price.0 > 0 && balance.0 * price.0 < word_limit() && balance.1 * price.1 < word_limit()
}

/// A raw balance in whole units of a token with `decimals` decimals:
/// `raw / 10^decimals`. It fails where `10^decimals` is not below `2^256`.
pub fn balance_of(raw: &RawAmount, decimals: u8) -> (r: Result<Ratio, ResolutionError>)
    ensures
        decimals <= 77 ==> (r matches Ok(b) && b.wf() && parts(b) == units(
            raw.value(),
            decimals,
        )),
        decimals > 77 ==> r == Err::<Ratio, ResolutionError>(ResolutionError::ParseFailure),
{
    proof {
        lemma_pow10_positive(decimals as nat);
    }
    match RawAmount::pow10(decimals) {
        None => Err(ResolutionError::ParseFailure),
        Some(unit) => match Ratio::new(*raw, unit) {
            Some(b) => Ok(b),
            None => Err(ResolutionError::ParseFailure),
        },
    }
}

/// A balance in USD, `balance * price`, where the price is above zero and
/// the product can be held.
pub fn balance_of_usd(balance: &Ratio, price: &Ratio) -> (r: Option<Ratio>)
    ensures
        r is Some <==> usd_value_is_kept(parts(*balance), parts(*price)),
        r matches Some(v) ==> v.wf() && parts(v) == usd_value(parts(*balance), parts(*price)),
{
    if !price.is_positive() {
        return None;
    }
    balance.checked_mul(price)
}

/// The name of the family of balances in whole units.
pub const BALANCE_OF: &'static str = "balance_of";

/// The name of the family of balances in USD.
pub const BALANCE_OF_USD: &'static str = "balance_of_usd";

/// The name of the family of prices in USD.
pub const PRICE_IN_USD: &'static str = "price_in_usd";

/// The balance in whole units that an answer to a `balanceOf` call gives for
/// a token, as numerator and denominator, or `None` where the call failed or
/// the power of ten of the token's decimals cannot be held.
pub open spec fn balance_units(
    token: IndexableTokenERC20,
    reply: Result<RawAmount, ResolutionError>,
) -> Option<(nat, nat)> {
    match reply {
        Ok(raw) => if token.decimals <= 77 {
            Some(units(raw.value(), token.decimals))
        } else {
            None
        },
        Err(_) => None,
    }
}

/// The three gauge families.
#[derive(Clone, Debug, PartialEq, Eq)]
pub struct MetricsStore {
    /// Balance by chain, token, token name and wallet, in whole units.
    pub balance_of: GaugeFamily,
    /// Balance by chain, token, token name and wallet, in USD.
    pub balance_of_usd: GaugeFamily,
    /// Price in USD by chain, token and token name.
    pub price_in_usd: GaugeFamily,
}

impl MetricsStore {
    /// A store is well formed when its three families are, each under its
    /// name: `balance_of` and `balance_of_usd` kept by wallet, `price_in_usd`
    /// by token.
    pub open spec fn wf(self) -> bool {
        &&& self.balance_of.wf()
        &&& self.balance_of_usd.wf()
        &&& self.price_in_usd.wf()
        &&& self.balance_of.name() == BALANCE_OF@
        &&& self.balance_of_usd.name() == BALANCE_OF_USD@
        &&& self.price_in_usd.name() == PRICE_IN_USD@
        &&& self.balance_of.by_wallet()
        &&& self.balance_of_usd.by_wallet()
        &&& !self.price_in_usd.by_wallet()
    }

    /// A store in which nothing is set: the three families, each under its
    /// name and with its labels, and no sample in any.
    pub fn new() -> (s: MetricsStore)
        ensures
            s.wf(),
            s.balance_of@ == Map::<LabelKey, (nat, nat)>::empty(),
            s.balance_of_usd@ == Map::<LabelKey, (nat, nat)>::empty(),
            s.price_in_usd@ == Map::<LabelKey, (nat, nat)>::empty(),
    {
        MetricsStore {
            balance_of: GaugeFamily::new(BALANCE_OF, true),
            balance_of_usd: GaugeFamily::new(BALANCE_OF_USD, true),
            price_in_usd: GaugeFamily::new(PRICE_IN_USD, false),
        }
    }

    /// Whether `after` is this store once `reply` to a `balanceOf` call for
    /// `wallet` came in.
    ///
    /// The balance in whole units is written to `balance_of`, under what is
    /// cached of the token; a failed call, or decimals whose power of ten
    /// cannot be held, leave `balance_of` as it was.
    ///
    /// For a token whose cached price is zero `balance_of_usd` holds nothing
    /// under the wallet's labels afterwards, whatever the reply. For a token
    /// with a price the balance in USD is written; where there is no balance,
    /// or the product cannot be held, `balance_of_usd` stays as it was.
    pub open spec fn with_balance(
        self,
        after: MetricsStore,
        token: IndexableTokenERC20,
        wallet: Address,
        reply: Result<RawAmount, ResolutionError>,
    ) -> bool {
        &&& after.wf()
        &&& after.price_in_usd == self.price_in_usd
        &&& match balance_units(token, reply) {
            Some(balance) => after.balance_of@ == self.balance_of@.insert(
                wallet_key(token, wallet),
                balance,
            ),
            None => after.balance_of == self.balance_of,
        }
        &&& if !token.has_price() {
            after.balance_of_usd@ == self.balance_of_usd@.remove(wallet_key(token, wallet))
        } else {
            match balance_units(token, reply) {
                Some(balance) => if usd_value_is_kept(balance, parts(token.usd_price)) {
                    after.balance_of_usd@ == self.balance_of_usd@.insert(
                        wallet_key(token, wallet),
                        usd_value(balance, parts(token.usd_price)),
                    )
                } else {
                    after.balance_of_usd == self.balance_of_usd
                },
                None => after.balance_of_usd == self.balance_of_usd,
            }
        }
    }

    /// The outcome of recording a balance: the error of a failed call;
    /// `ParseFailure` where the power of ten of the token's decimals, or the
    /// balance in USD of a token with a price, cannot be held; else nothing
    /// to report.
    pub open spec fn balance_outcome(
        token: IndexableTokenERC20,
        reply: Result<RawAmount, ResolutionError>,
    ) -> Result<(), ResolutionError> {
        match reply {
            Err(e) => Err(e),
            Ok(raw) => if token.decimals > 77 || (token.has_price() && !usd_value_is_kept(
                units(raw.value(), token.decimals),
                parts(token.usd_price),
            )) {
                Err(ResolutionError::ParseFailure)
            } else {
                Ok(())
            },
        }
    }

    /// Whether `after` is this store once the token's cached price was
    /// published: a price above zero is written to `price_in_usd`; for a
    /// price of zero `price_in_usd` holds nothing under the token's labels
    /// afterwards. The two families of balances stay as they were.
    pub open spec fn with_price(self, after: MetricsStore, token: IndexableTokenERC20) -> bool {
        &&& after.wf()
        &&& after.balance_of == self.balance_of
        &&& after.balance_of_usd == self.balance_of_usd
        &&& after.price_in_usd@ == if token.has_price() {
            self.price_in_usd@.insert(token_key(token), parts(token.usd_price))
        } else {
            self.price_in_usd@.remove(token_key(token))
        }
    }

    /// Takes the answer to a `balanceOf` call for `wallet`: writes the
    /// balance in whole units and, for a token with a price, in USD, and
    /// takes out the balance in USD of a token whose price is zero.
    pub fn record_balance(
        &mut self,
        token: &IndexableTokenERC20,
        wallet: &Address,
        reply: Result<RawAmount, ResolutionError>,
    ) -> (r: Result<(), ResolutionError>)
        requires
            old(self).wf(),
        ensures
            final(self).wf(),
            old(self).with_balance(*final(self), *token, *wallet, reply),
            r == MetricsStore::balance_outcome(*token, reply),
            !token.has_price() ==> !final(self).balance_of_usd@.contains_key(
                wallet_key(*token, *wallet),
            ),
    {
        if !token.usd_price.is_positive() {
            self.balance_of_usd.remove(&wallet_labels(token, wallet));
        }
        let raw = match reply {
            Ok(raw) => raw,
            Err(e) => {
                return Err(e);
            },
        };
        let balance = match balance_of(&raw, token.decimals) {
            Ok(b) => b,
            Err(e) => {
                return Err(e);
            },
        };
        self.balance_of.set(wallet_labels(token, wallet), balance);
        if !token.usd_price.is_positive() {
            return Ok(());
        }
        match balance_of_usd(&balance, &token.usd_price) {
            Some(value) => {
                self.balance_of_usd.set(wallet_labels(token, wallet), value);
                Ok(())
            },
            None => Err(ResolutionError::ParseFailure),
        }
    }

    /// Publishes the token's cached price: writes it to `price_in_usd` where
    /// it is above zero, and takes out what `price_in_usd` holds under the
    /// token's labels where it is zero. It returns whether it wrote.
    pub fn record_price(&mut self, token: &IndexableTokenERC20) -> (written: bool)
        requires
            old(self).wf(),
        ensures
            final(self).wf(),
            old(self).with_price(*final(self), *token),
            written == token.has_price(),
            !token.has_price() ==> !final(self).price_in_usd@.contains_key(token_key(*token)),
    {
        let labels = SampleLabels {
            chain: token.chain_slug.clone(),
            token: token.address,
            token_name: token.name.clone(),
            wallet: None,
        };
        if token.usd_price.is_positive() {
            self.price_in_usd.set(labels, token.usd_price);
            true
        } else {
            self.price_in_usd.remove(&labels);
            false
        }
    }
}

/// The labels under which a wallet's balance of a token is kept.
pub fn wallet_labels(token: &IndexableTokenERC20, wallet: &Address) -> (labels: SampleLabels)
    ensures
        labels@ == wallet_key(*token, *wallet),
{
    SampleLabels {
        chain: token.chain_slug.clone(),
        token: token.address,
        token_name: token.name.clone(),
        wallet: Some(*wallet),
    }
}

} // verus!
