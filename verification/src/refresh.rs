//! One token's refresh, step by step.
//!
//! A refresh reads the token's name and decimals, resolves its price, reads
//! each wallet's balance and publishes the price. Each step that needs the
//! chain is split around the contract call: `AppState::call_for` says which
//! call to make, `AppState::step` takes the answer, writes what it gives and
//! says which step comes next and what is to report. The order is fixed:
//! decimals before the price, the price before the balances.
//!
//! A step writes to the token or to the gauges, never to both. `token_step`
//! and `gauge_step` take the two kinds of step on a token and a store of
//! their own, for a caller that guards each token by itself.

use crate::address::Address;
use crate::amount::{pow10, RawAmount};
use crate::config::ConfigTest;
use crate::gauge::LabelKey;
use crate::metrics::{token_key, wallet_key, MetricsStore};
use crate::price::{PriceQuery, PriceReply, PricingStrategy, ResolutionError};
use crate::state::AppState;
use crate::token::IndexableTokenERC20;
use vstd::prelude::*;

verus! {

/// How often a field of a token is read from the chain.
#[derive(Clone, Copy, Debug, PartialEq, Eq, Structural)]
pub enum Cadence {
    /// Until it was read once.
    Once,
    /// In every cycle.
    EveryCycle,
}

/// How often a token's name and decimals are read.
#[derive(Clone, Copy, Debug, PartialEq, Eq, Structural)]
pub struct RefreshPolicy {
    /// How often the name is read.
    pub name: Cadence,
    /// How often the decimals are read.
    pub decimals: Cadence,
}

/// A step of a token's refresh.
#[derive(Clone, Copy, Debug, PartialEq, Eq, Structural)]
pub enum RefreshStep {
    /// Read the name.
    Name,
    /// Read the decimals.
    Decimals,
    /// Resolve the price.
    Price,
    /// Read the balance of the wallet at this index.
    Balance { wallet: usize },
    /// Publish the price.
    Publish,
    /// Nothing is left to do.
    Finished,
}

/// Whether a step writes to the gauges: reading a balance and publishing
/// do; the other steps write to the token.
pub open spec fn is_gauge_step(step: RefreshStep) -> bool {
    step is Balance || step is Publish
}

impl RefreshStep {
    /// Whether the step writes to the gauges and not to the token.
    pub fn writes_gauges(&self) -> (b: bool)
        ensures
            b == is_gauge_step(*self),
    {
        match self {
            RefreshStep::Balance { .. } => true,
            RefreshStep::Publish => true,
            _ => false,
        }
    }
}

/// What a step came to: the step that follows, and whether what it was to
/// write could be had.
#[derive(Clone, Copy, Debug, PartialEq, Eq)]
pub struct StepResult {
    /// The step that comes next.
    pub next: RefreshStep,
    /// Nothing to report, or why the step wrote nothing or not all.
    pub outcome: Result<(), ResolutionError>,
}

/// A read-only contract call.
#[derive(Clone, Copy, Debug, PartialEq, Eq)]
pub enum ChainCall {
    /// `name()` of a token.
    Name { token: Address },
    /// `decimals()` of a token.
    Decimals { token: Address },
    /// The reserves of a two-asset pool.
    Reserves { pool: Address },
    /// A quoter's offer for swapping `amount_in` of `token_in` into
    /// `token_out`.
    Quote {
        quoter: Address,
        token_in: Address,
        token_out: Address,
        fee_tier: u32,
        amount_in: RawAmount,
    },
    /// `balanceOf(wallet)` of a token.
    Balance { token: Address, wallet: Address },
}

/// What came back from a contract call.
#[derive(Clone, Debug, PartialEq, Eq)]
pub enum ChainAnswer {
    /// No call was made.
    Nothing,
    /// A token's name.
    Name(String),
    /// A token's decimals.
    Decimals(u8),
    /// A pool's reserves, in storage order.
    Reserves { reserve0: RawAmount, reserve1: RawAmount },
    /// The amount that a quoter offers.
    Quote { amount_out: RawAmount },
    /// A raw balance.
    Balance(RawAmount),
    /// The call failed.
    Failed,
}

impl ChainAnswer {
    /// The answer as one to a `name` call. A failed call is a
    /// `ProviderFailure`, an answer of another kind a `ParseFailure`.
    pub open spec fn name_reply(self) -> Result<String, ResolutionError> {
        match self {
            ChainAnswer::Name(name) => Ok(name),
            ChainAnswer::Failed => Err(ResolutionError::ProviderFailure),
            _ => Err(ResolutionError::ParseFailure),
        }
    }

    /// The answer as one to a `decimals` call.
    pub open spec fn decimals_reply(self) -> Result<u8, ResolutionError> {
        match self {
            ChainAnswer::Decimals(decimals) => Ok(decimals),
            ChainAnswer::Failed => Err(ResolutionError::ProviderFailure),
            _ => Err(ResolutionError::ParseFailure),
        }
    }

    /// The answer as one to a `balanceOf` call.
    pub open spec fn balance_reply(self) -> Result<RawAmount, ResolutionError> {
        match self {
            ChainAnswer::Balance(raw) => Ok(raw),
            ChainAnswer::Failed => Err(ResolutionError::ProviderFailure),
            _ => Err(ResolutionError::ParseFailure),
        }
    }

    /// The answer as one to a price query. An answer that is none to a price
    /// query counts as no answer.
    pub open spec fn price_reply(self) -> PriceReply {
        match self {
            ChainAnswer::Reserves { reserve0, reserve1 } => PriceReply::Reserves { reserve0, reserve1 },
            ChainAnswer::Quote { amount_out } => PriceReply::Quote { amount_out },
            ChainAnswer::Failed => PriceReply::Failed,
            _ => PriceReply::Nothing,
        }
    }

    /// The answer as one to a `name` call.
    pub fn to_name_reply(&self) -> (r: Result<String, ResolutionError>)
        ensures
            r == self.name_reply(),
    {
        match self {
            ChainAnswer::Name(name) => Ok(name.clone()),
            ChainAnswer::Failed => Err(ResolutionError::ProviderFailure),
            _ => Err(ResolutionError::ParseFailure),
        }
    }

    /// The answer as one to a `decimals` call.
    pub fn to_decimals_reply(&self) -> (r: Result<u8, ResolutionError>)
        ensures
            r == self.decimals_reply(),
    {
        match self {
            ChainAnswer::Decimals(decimals) => Ok(*decimals),
            ChainAnswer::Failed => Err(ResolutionError::ProviderFailure),
            _ => Err(ResolutionError::ParseFailure),
        }
    }

    /// The answer as one to a `balanceOf` call.
    pub fn to_balance_reply(&self) -> (r: Result<RawAmount, ResolutionError>)
        ensures
            r == self.balance_reply(),
    {
        match self {
            ChainAnswer::Balance(raw) => Ok(*raw),
            ChainAnswer::Failed => Err(ResolutionError::ProviderFailure),
            _ => Err(ResolutionError::ParseFailure),
        }
    }

    /// The answer as one to a price query.
    pub fn to_price_reply(&self) -> (r: PriceReply)
        ensures
            r == self.price_reply(),
    {
        match self {
            ChainAnswer::Reserves { reserve0, reserve1 } => PriceReply::Reserves {
                reserve0: *reserve0,
                reserve1: *reserve1,
            },
            ChainAnswer::Quote { amount_out } => PriceReply::Quote { amount_out: *amount_out },
            ChainAnswer::Failed => PriceReply::Failed,
            _ => PriceReply::Nothing,
        }
    }
}

/// Whether the name of `token` is read in this cycle.
pub open spec fn wants_name(token: IndexableTokenERC20, policy: RefreshPolicy) -> bool {
    policy.name == Cadence::EveryCycle || !token.name_known
}

/// Whether the decimals of `token` are read in this cycle.
pub open spec fn wants_decimals(token: IndexableTokenERC20, policy: RefreshPolicy) -> bool {
    policy.decimals == Cadence::EveryCycle || !token.decimals_known
}

/// The reply that a token's price is resolved from in the price step, or
/// `None` where no resolution is attempted. A token without a strategy or
/// with a fixed rate needs no call, so the answer does not count. A quoter
/// cannot be asked before the decimals are known, nor where one whole unit
/// cannot be held.
pub open spec fn price_step_reply(token: IndexableTokenERC20, answer: ChainAnswer) -> Option<
    PriceReply,
> {
    match token.strategy {
        None | Some(PricingStrategy::Fixed { .. }) => Some(PriceReply::Nothing),
        Some(PricingStrategy::AmmV2 { .. }) => Some(answer.price_reply()),
        Some(PricingStrategy::AmmV3 { .. }) => if token.decimals_known && token.decimals <= 77 {
            Some(answer.price_reply())
        } else {
            None
        },
    }
}

/// The step that a token's refresh begins with.
pub open spec fn first_step_of(token: IndexableTokenERC20, policy: RefreshPolicy) -> RefreshStep {
    if wants_name(token, policy) {
        RefreshStep::Name
    } else if wants_decimals(token, policy) {
        RefreshStep::Decimals
    } else {
        RefreshStep::Price
    }
}

/// The step that follows `step` for a token, as it was before the step, on
/// a chain with `wallets` wallets.
pub open spec fn step_after(
    step: RefreshStep,
    token: IndexableTokenERC20,
    wallets: nat,
    policy: RefreshPolicy,
) -> RefreshStep {
    match step {
        RefreshStep::Name => if wants_decimals(token, policy) {
            RefreshStep::Decimals
        } else {
            RefreshStep::Price
        },
        RefreshStep::Decimals => RefreshStep::Price,
        RefreshStep::Price => if wallets > 0 {
            RefreshStep::Balance { wallet: 0 }
        } else {
            RefreshStep::Publish
        },
        RefreshStep::Balance { wallet } => if wallet + 1 < wallets {
            RefreshStep::Balance { wallet: (wallet + 1) as usize }
        } else {
            RefreshStep::Publish
        },
        RefreshStep::Publish | RefreshStep::Finished => RefreshStep::Finished,
    }
}

/// Whether `token_after` is `token` once `answer` was taken in `step`. The
/// name, the decimals and the price are written by their steps; a failed
/// call, an answer of the wrong kind, and every other step leave the token as
/// it was.
pub open spec fn token_step_taken(
    step: RefreshStep,
    token: IndexableTokenERC20,
    token_after: IndexableTokenERC20,
    answer: ChainAnswer,
    now: u64,
) -> bool {
    match step {
        RefreshStep::Name => token_after == match answer.name_reply() {
            Ok(name) => token.with_name(name, now),
            Err(_) => token,
        },
        RefreshStep::Decimals => token_after == match answer.decimals_reply() {
            Ok(decimals) => token.with_decimals(decimals, now),
            Err(_) => token,
        },
        RefreshStep::Price => match price_step_reply(token, answer) {
            Some(reply) => token.priced(token_after, reply, now),
            None => token_after == token,
        },
        _ => token_after == token,
    }
}

/// Whether `metrics_after` is `metrics` once `answer` was taken in `step`
/// for `token`. A balance step records the balance of its wallet, the
/// publishing step the price; every other step, and a balance step for a
/// wallet that does not exist, leave the gauges as they were.
pub open spec fn gauge_step_taken(
    step: RefreshStep,
    token: IndexableTokenERC20,
    metrics: MetricsStore,
    metrics_after: MetricsStore,
    wallets: Seq<Address>,
    answer: ChainAnswer,
) -> bool {
    match step {
        RefreshStep::Balance { wallet } => if wallet < wallets.len() {
            metrics.with_balance(metrics_after, token, wallets[wallet as int], answer.balance_reply())
        } else {
            metrics_after == metrics
        },
        RefreshStep::Publish => metrics.with_price(metrics_after, token),
        _ => metrics_after == metrics,
    }
}

/// Whether `token_after` and `metrics_after` are `token` and `metrics` once
/// `answer` was taken in `step`. A step touches the token or the gauges,
/// never both.
pub open spec fn step_taken(
    step: RefreshStep,
    token: IndexableTokenERC20,
    token_after: IndexableTokenERC20,
    metrics: MetricsStore,
    metrics_after: MetricsStore,
    wallets: Seq<Address>,
    answer: ChainAnswer,
    now: u64,
) -> bool {
    token_step_taken(step, token, token_after, answer, now) && gauge_step_taken(
        step,
        token,
        metrics,
        metrics_after,
        wallets,
        answer,
    )
}

/// What is to report of a step: the error of a call that failed or of an
/// answer of the wrong kind; for the price, the error of the resolution, or
/// why a quoter could not be asked; for a balance, the outcome of recording
/// it. A step that wrote what it was to write has nothing to report.
pub open spec fn step_outcome(
    step: RefreshStep,
    token: IndexableTokenERC20,
    wallets: Seq<Address>,
    answer: ChainAnswer,
) -> Result<(), ResolutionError> {
    match step {
        RefreshStep::Name => match answer.name_reply() {
            Ok(_) => Ok(()),
            Err(e) => Err(e),
        },
        RefreshStep::Decimals => match answer.decimals_reply() {
            Ok(_) => Ok(()),
            Err(e) => Err(e),
        },
        RefreshStep::Price => match price_step_reply(token, answer) {
            Some(reply) => token.pricing_outcome(reply),
            None => if token.decimals_known {
                Err(ResolutionError::ParseFailure)
            } else {
                Err(ResolutionError::ProviderFailure)
            },
        },
        RefreshStep::Balance { wallet } => if wallet < wallets.len() {
            MetricsStore::balance_outcome(token, answer.balance_reply())
        } else {
            Ok(())
        },
        RefreshStep::Publish | RefreshStep::Finished => Ok(()),
    }
}

/// Whether `call` is the contract call that `step` of the refresh of
/// `token` needs, on a chain with these wallets: the name, the decimals, the
/// balance of the step's wallet, or the call of the token's price query; none
/// for a price that is fixed, unknown or cannot be asked for yet, for a wallet
/// that does not exist, for publishing and at the end.
pub open spec fn is_call_of(
    call: Option<ChainCall>,
    token: IndexableTokenERC20,
    wallets: Seq<Address>,
    step: RefreshStep,
) -> bool {
    match step {
        RefreshStep::Name => call == Some(ChainCall::Name { token: token.address }),
        RefreshStep::Decimals => call == Some(ChainCall::Decimals { token: token.address }),
        RefreshStep::Price => match token.strategy {
            None | Some(PricingStrategy::Fixed { .. }) => call is None,
            Some(PricingStrategy::AmmV2 { pool, .. }) => call == Some(ChainCall::Reserves { pool }),
            Some(PricingStrategy::AmmV3 { quoter, counter_token, fee_tier, .. }) => if
                token.decimals_known && token.decimals <= 77 {
                call matches Some(
                    ChainCall::Quote { quoter: q, token_in, token_out, fee_tier: f, amount_in },
                ) && q == quoter && token_in == token.address && token_out == counter_token && f
                    == fee_tier && amount_in.value() == pow10(token.decimals as nat)
            } else {
                call is None
            },
        },
        RefreshStep::Balance { wallet } => if wallet < wallets.len() {
            call == Some(ChainCall::Balance { token: token.address, wallet: wallets[wallet as int] })
        } else {
            call is None
        },
        RefreshStep::Publish | RefreshStep::Finished => call is None,
    }
}

/// The step with which the refresh of a token begins: its name or its
/// decimals where the policy has them read, else its price.
pub fn first_step_for(token: &IndexableTokenERC20, policy: &RefreshPolicy) -> (step: RefreshStep)
    ensures
        step == first_step_of(*token, *policy),
{
    if policy.name == Cadence::EveryCycle || !token.name_known {
        RefreshStep::Name
    } else if policy.decimals == Cadence::EveryCycle || !token.decimals_known {
        RefreshStep::Decimals
    } else {
        RefreshStep::Price
    }
}

/// The contract call that `step` of a token's refresh needs, on a chain with
/// these wallets, or `None` where it needs none.
pub fn step_call(token: &IndexableTokenERC20, wallets: &Vec<Address>, step: RefreshStep) -> (r:
    Option<ChainCall>)
    ensures
        is_call_of(r, *token, wallets@, step),
{
    match step {
        RefreshStep::Name => Some(ChainCall::Name { token: token.address }),
        RefreshStep::Decimals => Some(ChainCall::Decimals { token: token.address }),
        RefreshStep::Price => match token.price_query() {
            Ok(PriceQuery::Reserves { pool }) => Some(ChainCall::Reserves { pool }),
            Ok(PriceQuery::Quote { quoter, token_in, token_out, fee_tier, amount_in }) => Some(
                ChainCall::Quote { quoter, token_in, token_out, fee_tier, amount_in },
            ),
            _ => None,
        },
        RefreshStep::Balance { wallet } => {
            if wallet < wallets.len() {
                Some(ChainCall::Balance { token: token.address, wallet: wallets[wallet] })
            } else {
                None
            }
        },
        _ => None,
    }
}

/// Takes the answer to the call of a step that writes to the token, at
/// `now`: the name, the decimals or the price is written, and a failed call
/// or an answer of the wrong kind leaves the token as it was. It says which
/// step comes next on a chain with `wallets` wallets, and what is to report.
/// A step that writes to the gauges is not taken: it comes back as the next
/// step, with the token as it was.
pub fn token_step(
    token: &mut IndexableTokenERC20,
    step: RefreshStep,
    answer: &ChainAnswer,
    policy: &RefreshPolicy,
    wallets: usize,
    now: u64,
) -> (r: StepResult)
    ensures
        token_step_taken(step, *old(token), *final(token), *answer, now),
        r.next == if is_gauge_step(step) {
            step
        } else {
            step_after(step, *old(token), wallets as nat, *policy)
        },
        r.outcome == if is_gauge_step(step) {
            Ok::<(), ResolutionError>(())
        } else {
            step_outcome(step, *old(token), Seq::empty(), *answer)
        },
{
    match step {
        RefreshStep::Name => {
            let reads_decimals = policy.decimals == Cadence::EveryCycle || !token.decimals_known;
            let reply = answer.to_name_reply();
            let outcome = match &reply {
                Ok(_) => Ok(()),
                Err(e) => Err(*e),
            };
            token.update_name(reply, now);
            StepResult {
                next: if reads_decimals {
                    RefreshStep::Decimals
                } else {
                    RefreshStep::Price
                },
                outcome,
            }
        },
        RefreshStep::Decimals => {
            let reply = answer.to_decimals_reply();
            let outcome = match &reply {
                Ok(_) => Ok(()),
                Err(e) => Err(*e),
            };
            token.update_decimals(reply, now);
            StepResult { next: RefreshStep::Price, outcome }
        },
        RefreshStep::Price => {
            let outcome = match token.price_query() {
                Ok(PriceQuery::Nothing) => token.update_usd_price(&PriceReply::Nothing, now),
                Ok(_) => token.update_usd_price(&answer.to_price_reply(), now),
                Err(e) => Err(e),
            };
            StepResult {
                next: if wallets > 0 {
                    RefreshStep::Balance { wallet: 0 }
                } else {
                    RefreshStep::Publish
                },
                outcome,
            }
        },
        RefreshStep::Finished => StepResult { next: RefreshStep::Finished, outcome: Ok(()) },
        _ => StepResult { next: step, outcome: Ok(()) },
    }
}

/// Takes the answer to the call of a step that writes to the gauges, for a
/// token as it is cached: a balance step records the balance of its wallet,
/// the publishing step the price. It says which step comes next, and what is
/// to report. A step that writes to the token is not taken: it comes back as
/// the next step, with the gauges as they were.
pub fn gauge_step(
    metrics: &mut MetricsStore,
    token: &IndexableTokenERC20,
    wallets: &Vec<Address>,
    step: RefreshStep,
    answer: &ChainAnswer,
    policy: &RefreshPolicy,
) -> (r: StepResult)
    requires
        old(metrics).wf(),
    ensures
        final(metrics).wf(),
        gauge_step_taken(step, *token, *old(metrics), *final(metrics), wallets@, *answer),
        r.next == if is_gauge_step(step) {
            step_after(step, *token, wallets@.len(), *policy)
        } else {
            step
        },
        r.outcome == if is_gauge_step(step) {
            step_outcome(step, *token, wallets@, *answer)
        } else {
            Ok::<(), ResolutionError>(())
        },
{
    match step {
        RefreshStep::Balance { wallet } => {
            let count: usize = wallets.len();
            let outcome = if wallet < count {
                metrics.record_balance(token, &wallets[wallet], answer.to_balance_reply())
            } else {
                Ok(())
            };
            StepResult {
                next: if count > 0 && wallet < count - 1 {
                    RefreshStep::Balance { wallet: wallet + 1 }
                } else {
                    RefreshStep::Publish
                },
                outcome,
            }
        },
        RefreshStep::Publish => {
            let _ = metrics.record_price(token);
            StepResult { next: RefreshStep::Finished, outcome: Ok(()) }
        },
        _ => StepResult { next: step, outcome: Ok(()) },
    }
}

/// The place of a step in the order of a refresh: name, decimals, price, the
/// balances wallet by wallet, publishing, and the end.
pub open spec fn step_rank(step: RefreshStep) -> int {
    match step {
        RefreshStep::Name => 0,
        RefreshStep::Decimals => 1,
        RefreshStep::Price => 2,
        RefreshStep::Balance { wallet } => 3 + wallet,
        RefreshStep::Publish => 3 + usize::MAX + 1,
        RefreshStep::Finished => 3 + usize::MAX + 2,
    }
}

/// A refresh goes forward: the step that follows a step stands later in the
/// order. So the decimals are read before the price is resolved, the price is
/// resolved before a balance is converted, and every refresh comes to its
/// end.
pub proof fn lemma_steps_go_forward(
    step: RefreshStep,
    token: IndexableTokenERC20,
    wallets: nat,
    policy: RefreshPolicy,
)
    requires
        step != RefreshStep::Finished,
        wallets <= usize::MAX,
    ensures
        step_rank(step_after(step, token, wallets, policy)) > step_rank(step),
        step_rank(first_step_of(token, policy)) <= step_rank(RefreshStep::Price),
{
}

/// Only the price step writes a token's price: after any other step the
/// price is the one before it.
pub proof fn lemma_price_changes_in_price_step_only(
    step: RefreshStep,
    token: IndexableTokenERC20,
    token_after: IndexableTokenERC20,
    metrics: MetricsStore,
    metrics_after: MetricsStore,
    wallets: Seq<Address>,
    answer: ChainAnswer,
    now: u64,
)
    requires
        step_taken(step, token, token_after, metrics, metrics_after, wallets, answer, now),
        step != RefreshStep::Price,
    ensures
        token_after.usd_price == token.usd_price,
{
}

/// A price resolution that ends in an error leaves the token as it was: its
/// price after the step is its price before. A failed call to a pool or a
/// quoter is such an error.
pub proof fn lemma_failed_resolution_keeps_token(
    token: IndexableTokenERC20,
    token_after: IndexableTokenERC20,
    metrics: MetricsStore,
    metrics_after: MetricsStore,
    wallets: Seq<Address>,
    answer: ChainAnswer,
    now: u64,
)
    requires
        step_taken(
            RefreshStep::Price,
            token,
            token_after,
            metrics,
            metrics_after,
            wallets,
            answer,
            now,
        ),
        token.strategy is Some,
        token.strategy->0.resolve_spec(answer.price_reply()) is Err || (answer is Failed && !(
        token.strategy->0 is Fixed)),
    ensures
        token_after == token,
        token_after.usd_price == token.usd_price,
        metrics_after == metrics,
{
}

/// The balance gauge is exact: after a balance of `raw` came in for a token
/// with at most 77 decimals, `balance_of` holds `raw / 10^decimals` under the
/// wallet's labels, as numerator and denominator.
pub proof fn lemma_balance_gauge_is_exact(
    token: IndexableTokenERC20,
    metrics: MetricsStore,
    metrics_after: MetricsStore,
    wallets: Seq<Address>,
    wallet: usize,
    raw: RawAmount,
    now: u64,
)
    requires
        wallet < wallets.len(),
        token.decimals <= 77,
        step_taken(
            RefreshStep::Balance { wallet },
            token,
            token,
            metrics,
            metrics_after,
            wallets,
            ChainAnswer::Balance(raw),
            now,
        ),
    ensures
        metrics_after.balance_of@.contains_key(wallet_key(token, wallets[wallet as int])),
        metrics_after.balance_of@[wallet_key(token, wallets[wallet as int])] == (
            raw.value(),
            pow10(token.decimals as nat),
        ),
{
}

/// A token whose cached price is zero has no USD gauge: after its balance
/// step for a wallet, `balance_of_usd` holds nothing under the labels of the
/// token and that wallet, whatever was there before and whatever the answer;
/// after its publishing step, `price_in_usd` holds nothing under the token's
/// labels. And no step of such a token adds a label tuple to either family.
pub proof fn lemma_unpriced_token_has_no_usd_gauge(
    step: RefreshStep,
    token: IndexableTokenERC20,
    token_after: IndexableTokenERC20,
    metrics: MetricsStore,
    metrics_after: MetricsStore,
    wallets: Seq<Address>,
    answer: ChainAnswer,
    now: u64,
)
    requires
        step_taken(step, token, token_after, metrics, metrics_after, wallets, answer, now),
        !token.has_price(),
    ensures
        step matches RefreshStep::Balance { wallet } ==> wallet < wallets.len()
            ==> !metrics_after.balance_of_usd@.contains_key(
            wallet_key(token, wallets[wallet as int]),
        ),
        step is Publish ==> !metrics_after.price_in_usd@.contains_key(token_key(token)),
        forall|key: LabelKey| #[trigger]
            metrics_after.balance_of_usd@.contains_key(key)
                ==> metrics.balance_of_usd@.contains_key(key),
        forall|key: LabelKey| #[trigger]
            metrics_after.price_in_usd@.contains_key(key) ==> metrics.price_in_usd@.contains_key(
                key,
            ),
{
}

/// A USD gauge is written under a price only: a label tuple that a step adds
/// to `balance_of_usd` or to `price_in_usd` is one of the token of the step,
/// under its cached name, and that token has a price above zero.
pub proof fn lemma_usd_gauge_is_written_under_a_price(
    step: RefreshStep,
    token: IndexableTokenERC20,
    token_after: IndexableTokenERC20,
    metrics: MetricsStore,
    metrics_after: MetricsStore,
    wallets: Seq<Address>,
    answer: ChainAnswer,
    now: u64,
    key: LabelKey,
)
    requires
        step_taken(step, token, token_after, metrics, metrics_after, wallets, answer, now),
        (metrics_after.balance_of_usd@.contains_key(key) && !metrics.balance_of_usd@.contains_key(
            key,
        )) || (metrics_after.price_in_usd@.contains_key(key) && !metrics.price_in_usd@.contains_key(
            key,
        )),
    ensures
        token.has_price(),
        key.0 == token.chain_slug@,
        key.1 == token.address@,
        key.2 == token.name@,
{
}

/// A chain whose calls fail takes nothing from another chain: after any step
/// of a token on one chain, with any answer, a balance that came in for a
/// token of another chain is recorded from that answer. The token of the
/// other chain must have at most 77 decimals, since above that no balance can
/// be held.
pub proof fn lemma_other_chain_still_records(
    before: AppState,
    between: AppState,
    after: AppState,
    failing: (usize, usize),
    failed_step: RefreshStep,
    failed_answer: ChainAnswer,
    chain: usize,
    token: usize,
    wallet: usize,
    raw: RawAmount,
    now: u64,
)
    requires
        before.has_token(failing.0, failing.1),
        before.has_token(chain, token),
        chain != failing.0,
        wallet < before.chains@[chain as int].wallets@.len(),
        before.token_at(chain, token).decimals <= 77,
        before.same_but_token(between, failing.0, failing.1),
        step_taken(
            failed_step,
            before.token_at(failing.0, failing.1),
            between.token_at(failing.0, failing.1),
            before.metrics,
            between.metrics,
            before.chains@[failing.0 as int].wallets@,
            failed_answer,
            now,
        ),
        between.same_but_token(after, chain, token),
        step_taken(
            RefreshStep::Balance { wallet },
            between.token_at(chain, token),
            after.token_at(chain, token),
            between.metrics,
            after.metrics,
            between.chains@[chain as int].wallets@,
            ChainAnswer::Balance(raw),
            now,
        ),
    ensures
        between.token_at(chain, token) == before.token_at(chain, token),
        between.chains@[chain as int].wallets == before.chains@[chain as int].wallets,
        after.metrics.balance_of@.contains_key(
            wallet_key(before.token_at(chain, token), before.chains@[chain as int].wallets@[wallet as int]),
        ),
        after.metrics.balance_of@[wallet_key(
            before.token_at(chain, token),
            before.chains@[chain as int].wallets@[wallet as int],
        )] == (raw.value(), pow10(before.token_at(chain, token).decimals as nat)),
{
    lemma_step_keeps_other_tokens(before, between, failing.0, failing.1, chain, token);
    assert(between.chains@[chain as int] == before.chains@[chain as int]);
}

/// What was recorded for one chain stays while another chain is refreshed,
/// in whatever order the two are visited: a step of a token on a chain with
/// another slug, with any answer, leaves every balance of this chain's token
/// as it was recorded.
pub proof fn lemma_recorded_balance_survives_another_chain(
    recorded: IndexableTokenERC20,
    wallet: Address,
    step: RefreshStep,
    token: IndexableTokenERC20,
    token_after: IndexableTokenERC20,
    metrics: MetricsStore,
    metrics_after: MetricsStore,
    wallets: Seq<Address>,
    answer: ChainAnswer,
    now: u64,
)
    requires
        step_taken(step, token, token_after, metrics, metrics_after, wallets, answer, now),
        token.chain_slug@ != recorded.chain_slug@,
        metrics.balance_of@.contains_key(wallet_key(recorded, wallet)),
    ensures
        metrics_after.balance_of@.contains_key(wallet_key(recorded, wallet)),
        metrics_after.balance_of@[wallet_key(recorded, wallet)] == metrics.balance_of@[wallet_key(
            recorded,
            wallet,
        )],
{
}

/// A step for one token leaves every other token, on its chain and on every
/// other chain, as it was, whatever the answer: a call that fails for one
/// token takes nothing from another.
pub proof fn lemma_step_keeps_other_tokens(
    before: AppState,
    after: AppState,
    chain: usize,
    token: usize,
    other_chain: usize,
    other_token: usize,
)
    requires
        before.same_but_token(after, chain, token),
        before.has_token(other_chain, other_token),
        other_chain != chain || other_token != token,
    ensures
        after.has_token(other_chain, other_token),
        after.token_at(other_chain, other_token) == before.token_at(other_chain, other_token),
{
    if other_chain != chain {
        assert(after.chains@[other_chain as int] == before.chains@[other_chain as int]);
    } else {
        assert(after.chains@[chain as int].erc20s@[other_token as int] == before.chains@[chain as int].erc20s@[other_token as int]);
    }
}

/// Whether the state has a token with a pricing strategy on the chain `slug`
/// at `address`.
pub open spec fn has_priced_token(state: AppState, slug: Seq<char>, address: Seq<u8>) -> bool {
    exists|c: usize, t: usize|
        state.has_token(c, t) && (#[trigger] state.token_at(c, t)).strategy is Some
            && state.token_at(c, t).chain_slug@ == slug && state.token_at(c, t).address@
            == address
}

/// A token without a pricing strategy has no price, and every USD gauge
/// belongs to a token that has a strategy.
pub open spec fn usd_gauges_are_priced(state: AppState) -> bool {
    &&& forall|c: usize, t: usize|
        state.has_token(c, t) && (#[trigger] state.token_at(c, t)).strategy is None
            ==> !state.token_at(c, t).has_price()
    &&& forall|key: LabelKey| #[trigger]
        state.metrics.balance_of_usd@.contains_key(key) ==> has_priced_token(state, key.0, key.1)
    &&& forall|key: LabelKey| #[trigger]
        state.metrics.price_in_usd@.contains_key(key) ==> has_priced_token(state, key.0, key.1)
}

/// In the state that a configuration describes no token has a price and no
/// USD gauge is set.
pub proof fn lemma_fresh_state_has_no_usd_gauge(state: AppState, config: ConfigTest)
    requires
        state.matches_config(config),
    ensures
        usd_gauges_are_priced(state),
{
    assert forall|c: usize, t: usize|
        state.has_token(c, t) && (#[trigger] state.token_at(c, t)).strategy
            is None implies !state.token_at(c, t).has_price() by {
        assert(state.chains@[c as int].matches_config(
            config.tokens@[c as int].0@,
            config.tokens@[c as int].1,
        ));
        assert(state.chains@[c as int].erc20s@[t as int].is_fresh());
    }
}

/// A token without a pricing strategy never gets a price, and no step ever
/// sets a USD gauge for it: what holds of the state that a configuration
/// describes, holds after every step of every refresh.
pub proof fn lemma_step_keeps_usd_gauges_priced(
    before: AppState,
    after: AppState,
    chain: usize,
    token: usize,
    step: RefreshStep,
    answer: ChainAnswer,
    now: u64,
)
    requires
        usd_gauges_are_priced(before),
        before.has_token(chain, token),
        before.same_but_token(after, chain, token),
        step_taken(
            step,
            before.token_at(chain, token),
            after.token_at(chain, token),
            before.metrics,
            after.metrics,
            before.chains@[chain as int].wallets@,
            answer,
            now,
        ),
    ensures
        usd_gauges_are_priced(after),
{
    let old_token = before.token_at(chain, token);
    let new_token = after.token_at(chain, token);
    assert(new_token.strategy == old_token.strategy && new_token.chain_slug == old_token.chain_slug
        && new_token.address == old_token.address);
    assert(old_token.strategy is None ==> !old_token.has_price() && new_token.usd_price
        == old_token.usd_price);
    // Every token keeps its chain, its address and its strategy.
    assert forall|c: usize, t: usize| before.has_token(c, t) implies after.has_token(c, t) && (
    #[trigger] after.token_at(c, t)).strategy == before.token_at(c, t).strategy && after.token_at(
        c,
        t,
    ).chain_slug == before.token_at(c, t).chain_slug && after.token_at(c, t).address
        == before.token_at(c, t).address && (before.token_at(c, t).strategy is None
        ==> !after.token_at(c, t).has_price()) by {
        if c != chain || t != token {
            lemma_step_keeps_other_tokens(before, after, chain, token, c, t);
        }
        assert(before.token_at(c, t).strategy is None ==> !before.token_at(c, t).has_price());
    }
    assert forall|c: usize, t: usize|
        after.has_token(c, t) && (#[trigger] after.token_at(c, t)).strategy
            is None implies !after.token_at(c, t).has_price() by {
        assert(before.has_token(c, t));
        assert(after.token_at(c, t).strategy == before.token_at(c, t).strategy);
    }
    assert forall|slug: Seq<char>, address: Seq<u8>|
        has_priced_token(before, slug, address) implies has_priced_token(after, slug, address) by {
        let (c, t) = choose|c: usize, t: usize|
            before.has_token(c, t) && (#[trigger] before.token_at(c, t)).strategy is Some
                && before.token_at(c, t).chain_slug@ == slug && before.token_at(c, t).address@
                == address;
        assert(after.has_token(c, t) && after.token_at(c, t).strategy is Some);
    }
    // What a step adds to a USD family, it adds for the token of the step,
    // and only where that token has a price.
    assert(old_token.has_price() ==> has_priced_token(
        after,
        old_token.chain_slug@,
        old_token.address@,
    )) by {
        if old_token.has_price() {
            assert(after.has_token(chain, token) && after.token_at(chain, token).strategy is Some);
        }
    }
    assert forall|key: LabelKey| #[trigger]
        after.metrics.balance_of_usd@.contains_key(key) implies has_priced_token(
        after,
        key.0,
        key.1,
    ) by {
        if !before.metrics.balance_of_usd@.contains_key(key) {
            assert(old_token.has_price());
            assert(key.0 == old_token.chain_slug@ && key.1 == old_token.address@);
        }
    }
    assert forall|key: LabelKey| #[trigger]
        after.metrics.price_in_usd@.contains_key(key) implies has_priced_token(
        after,
        key.0,
        key.1,
    ) by {
        if !before.metrics.price_in_usd@.contains_key(key) {
            assert(old_token.has_price());
            assert(key.0 == old_token.chain_slug@ && key.1 == old_token.address@);
        }
    }
}

impl AppState {
    /// Whether `chain` and `token` are the indices of a token.
    pub open spec fn has_token(self, chain: usize, token: usize) -> bool {
        chain < self.chains@.len() && token < self.chains@[chain as int].erc20s@.len()
    }

    /// The token at these indices.
    pub open spec fn token_at(self, chain: usize, token: usize) -> IndexableTokenERC20 {
        self.chains@[chain as int].erc20s@[token as int]
    }

    /// Whether `after` differs from this state at most in the gauges and in
    /// what is cached of the token at these indices.
    pub open spec fn same_but_token(self, after: AppState, chain: usize, token: usize) -> bool {
        &&& after.chains@.len() == self.chains@.len()
        &&& forall|c: int|
            0 <= c < self.chains@.len() && c != chain ==> #[trigger] after.chains@[c]
                == self.chains@[c]
        &&& chain < self.chains@.len() ==> {
            let before = self.chains@[chain as int];
            let now = after.chains@[chain as int];
            &&& now.name == before.name
            &&& now.url == before.url
            &&& now.wallets == before.wallets
            &&& now.erc20s@.len() == before.erc20s@.len()
            &&& forall|t: int|
                0 <= t < before.erc20s@.len() && t != token ==> #[trigger] now.erc20s@[t]
                    == before.erc20s@[t]
        }
    }

    /// The step with which the refresh of a token begins: its name or its
    /// decimals where the policy has them read, else its price. There is
    /// nothing to do for a token that does not exist.
    pub fn first_step(&self, chain: usize, token: usize, policy: &RefreshPolicy) -> (step:
        RefreshStep)
        ensures
            step == if self.has_token(chain, token) {
                first_step_of(self.token_at(chain, token), *policy)
            } else {
                RefreshStep::Finished
            },
    {
        if chain >= self.chains.len() {
            return RefreshStep::Finished;
        }
        if token >= self.chains[chain].erc20s.len() {
            return RefreshStep::Finished;
        }
        first_step_for(&self.chains[chain].erc20s[token], policy)
    }

    /// The contract call that `step` of a token's refresh needs, or `None`
    /// where it needs none: for a price that is fixed, unknown or cannot be
    /// asked for yet, for publishing, and for what does not exist.
    pub fn call_for(&self, chain: usize, token: usize, step: RefreshStep) -> (r: Option<ChainCall>)
        ensures
            !self.has_token(chain, token) ==> r is None,
            self.has_token(chain, token) ==> is_call_of(
                r,
                self.token_at(chain, token),
                self.chains@[chain as int].wallets@,
                step,
            ),
    {
        if chain >= self.chains.len() {
            return None;
        }
        if token >= self.chains[chain].erc20s.len() {
            return None;
        }
        step_call(&self.chains[chain].erc20s[token], &self.chains[chain].wallets, step)
    }

    /// Takes the answer to the call of `step` of a token's refresh, at `now`,
    /// and says which step comes next and what is to report. What the answer
    /// gives is written to the token or to the gauges; a failed call, or an
    /// answer of the wrong kind, writes nothing. Nothing else of the state
    /// changes. For a token that does not exist nothing is done.
    pub fn step(
        &mut self,
        chain: usize,
        token: usize,
        step: RefreshStep,
        answer: &ChainAnswer,
        policy: &RefreshPolicy,
        now: u64,
    ) -> (r: StepResult)
        requires
            old(self).metrics.wf(),
        ensures
            final(self).metrics.wf(),
            old(self).same_but_token(*final(self), chain, token),
            !old(self).has_token(chain, token) ==> r.next == RefreshStep::Finished && r.outcome
                is Ok && *final(self) == *old(self),
            old(self).has_token(chain, token) ==> step_taken(
                step,
                old(self).token_at(chain, token),
                final(self).token_at(chain, token),
                old(self).metrics,
                final(self).metrics,
                old(self).chains@[chain as int].wallets@,
                *answer,
                now,
            ) && r.next == step_after(
                step,
                old(self).token_at(chain, token),
                old(self).chains@[chain as int].wallets@.len(),
                *policy,
            ) && r.outcome == step_outcome(
                step,
                old(self).token_at(chain, token),
                old(self).chains@[chain as int].wallets@,
                *answer,
            ),
    {
        if chain >= self.chains.len() {
            return StepResult { next: RefreshStep::Finished, outcome: Ok(()) };
        }
        if token >= self.chains[chain].erc20s.len() {
            return StepResult { next: RefreshStep::Finished, outcome: Ok(()) };
        }
        if step.writes_gauges() {
            let watched = &self.chains[chain];
            gauge_step(
                &mut self.metrics,
                &watched.erc20s[token],
                &watched.wallets,
                step,
                answer,
                policy,
            )
        } else {
            let wallets: usize = self.chains[chain].wallets.len();
            token_step(&mut self.chains[chain].erc20s[token], step, answer, policy, wallets, now)
        }
    }

    /// Takes the answer to the call of `step` of a token's refresh, at `now`,
    /// as `step` does, and says which step comes next.
    pub fn apply(
        &mut self,
        chain: usize,
        token: usize,
        step: RefreshStep,
        answer: &ChainAnswer,
        policy: &RefreshPolicy,
        now: u64,
    ) -> (next: RefreshStep)
        requires
            old(self).metrics.wf(),
        ensures
            final(self).metrics.wf(),
            old(self).same_but_token(*final(self), chain, token),
            !old(self).has_token(chain, token) ==> next == RefreshStep::Finished && *final(self)
                == *old(self),
            old(self).has_token(chain, token) ==> step_taken(
                step,
                old(self).token_at(chain, token),
                final(self).token_at(chain, token),
                old(self).metrics,
                final(self).metrics,
                old(self).chains@[chain as int].wallets@,
                *answer,
                now,
            ) && next == step_after(
                step,
                old(self).token_at(chain, token),
                old(self).chains@[chain as int].wallets@.len(),
                *policy,
            ),
    {
        self.step(chain, token, step, answer, policy, now).next
    }
}

} // verus!
