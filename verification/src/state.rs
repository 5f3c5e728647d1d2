//! The topology that is watched and everything that is cached of it.
//!
//! An `AppState` is made once, from the configuration. After that its chains,
//! wallets and tokens stay as they are; only what is cached of each token and
//! the gauge values change.

use crate::address::{address_from_text, Address};
use crate::config::{ChainConfig, ConfigError, ConfigTest, TokenConfigTest};
use crate::gauge::LabelKey;
use crate::metrics::MetricsStore;
use crate::token::IndexableTokenERC20;
use vstd::prelude::*;

verus! {

/// Whether `reqwest::Url` reads a text as a URL.
pub uninterp spec fn url_parses(text: Seq<char>) -> bool;

/// What is wrong with the first token, from `from` on, with which something
/// is wrong.
pub open spec fn first_token_error(tokens: Seq<TokenConfigTest>, from: int) -> Option<ConfigError>
    decreases tokens.len() - from,
{
    if from < 0 || from >= tokens.len() {
        None
    } else {
        match tokens[from].error() {
            Some(e) => Some(e),
            None => first_token_error(tokens, from + 1),
        }
    }
}

/// Whether each wallet of a sequence is an address.
pub open spec fn wallets_parse(wallets: Seq<String>) -> bool {
    forall|j: int| 0 <= j < wallets.len() ==> address_from_text((#[trigger] wallets[j])@) is Some
}

impl ChainConfig {
    /// What is wrong with the chain, if anything, given whether its endpoint
    /// is a URL: its endpoint first, then its wallets, then its tokens in
    /// their order.
    pub open spec fn error_given(self, endpoint_is_url: bool) -> Option<ConfigError> {
        if !endpoint_is_url {
            Some(ConfigError::InvalidEndpoint)
        } else if !wallets_parse(self.wallets@) {
            Some(ConfigError::InvalidAddress)
        } else {
            first_token_error(self.tokens@, 0)
        }
    }

    /// What is wrong with the chain, if anything.
    pub open spec fn error(self) -> Option<ConfigError> {
        self.error_given(url_parses(self.rpc_url@))
    }
}

/// Whether the chain at `index` has the slug of a chain before it.
pub open spec fn repeats_slug(chains: Seq<(String, ChainConfig)>, index: int) -> bool {
    exists|j: int| 0 <= j < index && (#[trigger] chains[j]).0@ == chains[index].0@
}

/// What is wrong with the chain at `index`, if anything: a slug that an
/// earlier chain has, or what is wrong with the chain itself.
pub open spec fn chain_error(chains: Seq<(String, ChainConfig)>, index: int) -> Option<
    ConfigError,
> {
    if repeats_slug(chains, index) {
        Some(ConfigError::DuplicateChain)
    } else {
        chains[index].1.error()
    }
}

/// What is wrong with the first chain, from `from` on, with which something
/// is wrong.
pub open spec fn first_chain_error(chains: Seq<(String, ChainConfig)>, from: int) -> Option<
    ConfigError,
>
    decreases chains.len() - from,
{
    if from < 0 || from >= chains.len() {
        None
    } else {
        match chain_error(chains, from) {
            Some(e) => Some(e),
            None => first_chain_error(chains, from + 1),
        }
    }
}

impl ConfigTest {
    /// What is wrong with the configuration, if anything: what is wrong with
    /// the first of its chains with which something is.
    pub open spec fn error(self) -> Option<ConfigError> {
        first_chain_error(self.tokens@, 0)
    }
}

/// One chain: its endpoint, the wallets that are watched on it and the
/// tokens that are watched in them.
#[derive(Clone, Debug, PartialEq, Eq)]
pub struct Chain {
    /// The chain's slug.
    pub name: String,
    /// The URL of the chain's RPC endpoint.
    pub url: String,
    /// The wallets.
    pub wallets: Vec<Address>,
    /// The tokens.
    pub erc20s: Vec<IndexableTokenERC20>,
}

impl Chain {
    /// Whether this is the chain that `config` describes under `slug`, with
    /// nothing cached of its tokens yet.
    pub open spec fn matches_config(self, slug: Seq<char>, config: ChainConfig) -> bool {
        &&& self.name@ == slug
        &&& self.url@ == config.rpc_url@
        &&& self.wallets@.len() == config.wallets@.len()
        &&& forall|j: int|
            0 <= j < self.wallets@.len() ==> address_from_text(config.wallets@[j]@) == Some(
                (#[trigger] self.wallets@[j])@,
            )
        &&& self.erc20s@.len() == config.tokens@.len()
        &&& forall|k: int|
            0 <= k < self.erc20s@.len() ==> (#[trigger] self.erc20s@[k]).matches_config(
                config.tokens@[k],
                slug,
            ) && self.erc20s@[k].is_fresh()
    }

    /// The chain that `config` describes under `slug`, or what is wrong with
    /// `config`.
    pub fn new(slug: &str, config: &ChainConfig) -> (r: Result<Chain, ConfigError>)
        ensures
            match r {
                Ok(chain) => config.error() is None && chain.matches_config(slug@, *config),
                Err(e) => config.error() == Some(e),
            },
    {
        Chain::with_endpoint_verdict(slug, config, endpoint_parses(config.rpc_url.as_str()))
    }

    /// The chain that `config` describes under `slug`, or what is wrong with
    /// `config`, given whether its endpoint was found to be a URL. An endpoint
    /// that is none is refused first; then the wallets are read, then the
    /// tokens, and the first of them that is wrong decides.
    pub fn with_endpoint_verdict(slug: &str, config: &ChainConfig, endpoint_is_url: bool) -> (r:
        Result<Chain, ConfigError>)
        ensures
            match r {
                Ok(chain) => config.error_given(endpoint_is_url) is None && chain.matches_config(
                    slug@,
                    *config,
                ),
                Err(e) => config.error_given(endpoint_is_url) == Some(e),
            },
    {
        if !endpoint_is_url {
            return Err(ConfigError::InvalidEndpoint);
        }
        let mut wallets: Vec<Address> = Vec::new();
        let mut j: usize = 0;
        while j < config.wallets.len()
            invariant
                j <= config.wallets@.len(),
                wallets@.len() == j,
                endpoint_is_url,
                forall|i: int|
                    0 <= i < j ==> address_from_text(config.wallets@[i]@) == Some(
                        (#[trigger] wallets@[i])@,
                    ),
            decreases config.wallets@.len() - j,
        {
            match Address::parse(config.wallets[j].as_str()) {
                Some(wallet) => wallets.push(wallet),
                None => {
                    assert(address_from_text(config.wallets@[j as int]@) is None);
                    return Err(ConfigError::InvalidAddress);
                },
            }
            j = j + 1;
        }
        assert(wallets_parse(config.wallets@)) by {
            assert forall|i: int| 0 <= i < config.wallets@.len() implies address_from_text(
                (#[trigger] config.wallets@[i])@,
            ) is Some by {
                assert(address_from_text(config.wallets@[i]@) == Some(wallets@[i]@));
            }
        }
        let mut erc20s: Vec<IndexableTokenERC20> = Vec::new();
        let mut k: usize = 0;
        while k < config.tokens.len()
            invariant
                k <= config.tokens@.len(),
                erc20s@.len() == k,
                endpoint_is_url,
                wallets_parse(config.wallets@),
                first_token_error(config.tokens@, 0) == first_token_error(config.tokens@, k as int),
                forall|i: int|
                    0 <= i < k ==> (#[trigger] erc20s@[i]).matches_config(config.tokens@[i], slug@)
                        && erc20s@[i].is_fresh(),
            decreases config.tokens@.len() - k,
        {
            match IndexableTokenERC20::new(&config.tokens[k], slug.to_owned()) {
                Ok(token) => erc20s.push(token),
                Err(e) => {
                    return Err(e);
                },
            }
            k = k + 1;
        }
        Ok(Chain { name: slug.to_owned(), url: config.rpc_url.clone(), wallets, erc20s })
    }
}

/// Everything that is watched, and everything that is cached of it.
#[derive(Clone, Debug, PartialEq, Eq)]
pub struct AppState {
    /// The gauge families.
    pub metrics: MetricsStore,
    /// The chains.
    pub chains: Vec<Chain>,
}

impl AppState {
    /// Whether this is the state that `config` describes, before anything was
    /// read from a chain.
    pub open spec fn matches_config(self, config: ConfigTest) -> bool {
        &&& self.metrics.wf()
        &&& self.metrics.balance_of@ == Map::<LabelKey, (nat, nat)>::empty()
        &&& self.metrics.balance_of_usd@ == Map::<LabelKey, (nat, nat)>::empty()
        &&& self.metrics.price_in_usd@ == Map::<LabelKey, (nat, nat)>::empty()
        &&& self.chains@.len() == config.tokens@.len()
        &&& forall|i: int|
            0 <= i < self.chains@.len() ==> (#[trigger] self.chains@[i]).matches_config(
                config.tokens@[i].0@,
                config.tokens@[i].1,
            )
    }

    /// The state that `config` describes: its chains in their order, with
    /// nothing cached of any token and no gauge set. A configuration with
    /// which something is wrong is refused, with what is wrong with the first
    /// of its chains with which something is.
    pub fn new(config: &ConfigTest) -> (r: Result<AppState, ConfigError>)
        ensures
            match r {
                Ok(state) => config.error() is None && state.matches_config(*config),
                Err(e) => config.error() == Some(e),
            },
    {
        let mut chains: Vec<Chain> = Vec::new();
        let mut i: usize = 0;
        while i < config.tokens.len()
            invariant
                i <= config.tokens@.len(),
                chains@.len() == i,
                first_chain_error(config.tokens@, 0) == first_chain_error(config.tokens@, i as int),
                forall|c: int|
                    0 <= c < i ==> (#[trigger] chains@[c]).matches_config(
                        config.tokens@[c].0@,
                        config.tokens@[c].1,
                    ),
            decreases config.tokens@.len() - i,
        {
            let entry = &config.tokens[i];
            let mut j: usize = 0;
            while j < i
                invariant
                    j <= i,
                    i < config.tokens@.len(),
                    first_chain_error(config.tokens@, 0) == first_chain_error(
                        config.tokens@,
                        i as int,
                    ),
                    *entry == config.tokens@[i as int],
                    forall|c: int| 0 <= c < j ==> (#[trigger] config.tokens@[c]).0@ != entry.0@,
                decreases i - j,
            {
                if config.tokens[j].0 == entry.0 {
                    assert(repeats_slug(config.tokens@, i as int));
                    return Err(ConfigError::DuplicateChain);
                }
                j = j + 1;
            }
            match Chain::new(entry.0.as_str(), &entry.1) {
                Ok(chain) => chains.push(chain),
                Err(e) => {
                    return Err(e);
                },
            }
            i = i + 1;
        }
        Ok(AppState { metrics: MetricsStore::new(), chains })
    }

    /// How many tokens each chain has, chain by chain.
    pub fn token_counts(&self) -> (counts: Vec<usize>)
        ensures
            counts@.len() == self.chains@.len(),
            forall|c: int|
                0 <= c < counts@.len() ==> #[trigger] counts@[c] == self.chains@[c].erc20s@.len(),
    {
        let mut counts: Vec<usize> = Vec::new();
        let mut c: usize = 0;
        while c < self.chains.len()
            invariant
                c <= self.chains@.len(),
                counts@.len() == c,
                forall|i: int| 0 <= i < c ==> #[trigger] counts@[i] == self.chains@[i].erc20s@.len(),
            decreases self.chains@.len() - c,
        {
            counts.push(self.chains[c].erc20s.len());
            c = c + 1;
        }
        counts
    }
}

/// `reqwest::Url::parse`, with the URL dropped. Assumed: whether the text is
/// read as a URL depends on the text alone.
#[verifier::external_body]
fn endpoint_parses(text: &str) -> (b: bool)
    ensures
        b == url_parses(text@),
{
    reqwest::Url::parse(text).is_ok()
}

} // verus!
