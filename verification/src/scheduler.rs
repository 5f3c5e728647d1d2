//! The refresh cycle: which token refreshes may start, and when a cycle is
//! over.
//!
//! A cycle refreshes every token of every chain once. Refreshes of one chain
//! share its endpoint, so at most `limit` of them are under way at a time;
//! chains do not wait for each other. The scheduler only counts: the caller
//! runs the refreshes and reports each one that has ended, however it ended.

use vstd::prelude::*;

verus! {

/// The number of refreshes that may be under way on one endpoint, where
/// nothing else is asked for.
pub const DEFAULT_LIMIT: usize = 4;

/// The seconds between two timer ticks.
pub const CYCLE_SECONDS: u64 = 60;

/// The seconds after which a contract call that has not answered counts as
/// failed.
pub const CALL_TIMEOUT_SECONDS: u64 = 20;

/// How far a cycle has come on one chain.
#[derive(Clone, Copy, Debug, PartialEq, Eq, Structural)]
pub struct ChainProgress {
    /// How many tokens the chain has.
    pub tokens: usize,
    /// How many refreshes have started in this cycle.
    pub started: usize,
    /// How many of them have ended.
    pub finished: usize,
}

impl ChainProgress {
    /// How many refreshes are under way.
    pub open spec fn in_flight(self) -> int {
        self.started - self.finished
    }

    /// Whether a refresh may start now under `limit`: a token is left, and
    /// fewer than `limit` refreshes are under way.
    pub open spec fn can_start(self, limit: usize) -> bool {
        self.started < self.tokens && self.in_flight() < limit
    }

    /// Whether every token has been refreshed.
    pub open spec fn done(self) -> bool {
        self.finished == self.tokens
    }

    /// The counts are consistent, and no more than `limit` refreshes are
    /// under way.
    pub open spec fn wf(self, limit: usize) -> bool {
        self.finished <= self.started <= self.tokens && self.in_flight() <= limit
    }

    /// How many refreshes have started once every refresh that may start has:
    /// all tokens, or as many as the limit lets be under way.
    pub open spec fn started_when_full(self, limit: usize) -> int {
        if self.tokens <= self.finished + limit {
            self.tokens as int
        } else {
            self.finished + limit
        }
    }
}

/// The refreshes of one chain from token `from` up to, not including, token
/// `to`, in their order.
pub open spec fn chain_units(chain: usize, from: int, to: int) -> Seq<(usize, usize)> {
    Seq::new((to - from) as nat, |k: int| (chain, (from + k) as usize))
}

/// The refreshes that may start now on the first `count` chains, chain by
/// chain: on each chain the tokens from the first that has not started up to
/// where the chain is full.
pub open spec fn ready_units(chains: Seq<ChainProgress>, limit: usize, count: int) -> Seq<
    (usize, usize),
>
    decreases count,
{
    if count <= 0 {
        Seq::empty()
    } else {
        ready_units(chains, limit, count - 1) + chain_units(
            (count - 1) as usize,
            chains[count - 1].started as int,
            chains[count - 1].started_when_full(limit),
        )
    }
}

/// Whether a cycle is over on every chain.
pub open spec fn all_done(chains: Seq<ChainProgress>) -> bool {
    forall|c: int| 0 <= c < chains.len() ==> (#[trigger] chains[c]).done()
}

/// Whether no refresh can start on any chain.
pub open spec fn none_can_start(chains: Seq<ChainProgress>, limit: usize) -> bool {
    forall|c: int| 0 <= c < chains.len() ==> !(#[trigger] chains[c]).can_start(limit)
}

/// Under a limit that is no smaller than the number of a chain's tokens,
/// every refresh of the chain that has not started may start at once: none
/// waits for another to end.
pub proof fn lemma_wide_limit_starts_all(progress: ChainProgress, limit: usize)
    requires
        progress.wf(limit),
        progress.tokens <= limit,
    ensures
        progress.started < progress.tokens ==> progress.can_start(limit),
        progress.started_when_full(limit) == progress.tokens,
{
}

/// A chain never waits for another chain: whether a refresh may start on it,
/// and how many are under way once all that may start have, are given by its
/// own progress and the limit alone. A chain that is not through always has a
/// refresh that may start or one that is under way, so that it goes on while
/// another chain's endpoint is out of reach.
pub proof fn lemma_chain_goes_on_alone(progress: ChainProgress, limit: usize)
    requires
        progress.wf(limit),
        limit >= 1,
        !progress.done(),
    ensures
        progress.can_start(limit) || progress.in_flight() > 0,
        progress.started_when_full(limit) > progress.finished,
{
}

/// The scheduler of refresh cycles.
#[derive(Clone, Debug, PartialEq, Eq)]
pub struct RefreshScheduler {
    running: bool,
    limit: usize,
    chains: Vec<ChainProgress>,
}

impl RefreshScheduler {
    /// Whether a cycle is running; the scheduler is idle otherwise.
    pub closed spec fn running(self) -> bool {
        self.running
    }

    /// How many refreshes may be under way on one chain.
    pub closed spec fn limit(self) -> usize {
        self.limit
    }

    /// The progress on each chain.
    pub closed spec fn progress(self) -> Seq<ChainProgress> {
        self.chains@
    }

    /// A scheduler is well formed when its limit is at least one, its counts
    /// are consistent, a running cycle has something left to end, and an idle
    /// scheduler has nothing under way.
    pub open spec fn wf(self) -> bool {
        &&& self.limit() >= 1
        &&& forall|c: int|
            0 <= c < self.progress().len() ==> (#[trigger] self.progress()[c]).wf(self.limit())
        &&& self.running() ==> !all_done(self.progress())
        &&& !self.running() ==> forall|c: int|
            0 <= c < self.progress().len() ==> (#[trigger] self.progress()[c]).in_flight() == 0
    }

    /// An idle scheduler for chains with the given numbers of tokens. A limit
    /// of zero would let nothing start: it is taken as one.
    pub fn new(token_counts: &Vec<usize>, limit: usize) -> (s: RefreshScheduler)
        ensures
            s.wf(),
            !s.running(),
            s.limit() == if limit == 0 {
                1usize
            } else {
                limit
            },
            s.progress().len() == token_counts@.len(),
            forall|c: int|
                0 <= c < token_counts@.len() ==> #[trigger] s.progress()[c] == (ChainProgress {
                    tokens: token_counts@[c],
                    started: 0,
                    finished: 0,
                }),
    {
        let mut chains: Vec<ChainProgress> = Vec::new();
        let mut c: usize = 0;
        while c < token_counts.len()
            invariant
                c <= token_counts@.len(),
                chains@.len() == c,
                forall|i: int|
                    0 <= i < c ==> #[trigger] chains@[i] == (ChainProgress {
                        tokens: token_counts@[i],
                        started: 0,
                        finished: 0,
                    }),
            decreases token_counts@.len() - c,
        {
            chains.push(ChainProgress { tokens: token_counts[c], started: 0, finished: 0 });
            c = c + 1;
        }
        RefreshScheduler { running: false, limit: if limit == 0 { 1 } else { limit }, chains }
    }

    /// Whether the scheduler is idle.
    pub fn is_idle(&self) -> (b: bool)
        ensures
            b == !self.running(),
    {
        !self.running
    }

    /// How many refreshes are under way on a chain; none on a chain that does
    /// not exist.
    pub fn in_flight(&self, chain: usize) -> (n: usize)
        requires
            self.wf(),
        ensures
            n == if chain < self.progress().len() {
                self.progress()[chain as int].in_flight()
            } else {
                0
            },
    {
        if chain < self.chains.len() {
            self.chains[chain].started - self.chains[chain].finished
        } else {
            0
        }
    }

    /// The timer has fired. An idle scheduler begins a cycle, in which
    /// nothing has started yet; with no token on any chain the cycle is over
    /// at once. A running cycle is not disturbed. It returns whether a cycle
    /// began.
    pub fn tick(&mut self) -> (began: bool)
        requires
            old(self).wf(),
        ensures
            final(self).wf(),
            began == !old(self).running(),
            final(self).limit() == old(self).limit(),
            final(self).progress().len() == old(self).progress().len(),
            old(self).running() ==> *final(self) == *old(self),
            !old(self).running() ==> {
                &&& forall|c: int|
                    0 <= c < old(self).progress().len() ==> #[trigger] final(self).progress()[c]
                        == (ChainProgress {
                        tokens: old(self).progress()[c].tokens,
                        started: 0,
                        finished: 0,
                    })
                &&& final(self).running() == !all_done(final(self).progress())
            },
    {
        if self.running {
            return false;
        }
        let mut any: bool = false;
        let mut c: usize = 0;
        while c < self.chains.len()
            invariant
                c <= self.chains@.len(),
                self.chains@.len() == old(self).chains@.len(),
                self.limit == old(self).limit,
                self.limit >= 1,
                !self.running,
                forall|i: int|
                    0 <= i < c ==> #[trigger] self.chains@[i] == (ChainProgress {
                        tokens: old(self).chains@[i].tokens,
                        started: 0,
                        finished: 0,
                    }),
                forall|i: int| c <= i < self.chains@.len() ==> self.chains@[i] == old(self).chains@[i],
                any == exists|i: int| 0 <= i < c && (#[trigger] self.chains@[i]).tokens > 0,
            decreases self.chains@.len() - c,
        {
            let tokens: usize = self.chains[c].tokens;
            self.chains[c] = ChainProgress { tokens, started: 0, finished: 0 };
            if tokens > 0 {
                any = true;
            }
            proof {
                if any {
                    if tokens > 0 {
                        assert(self.chains@[c as int].tokens > 0);
                    } else {
                        let i = choose|i: int|
                            0 <= i < c && (#[trigger] old(self).chains@[i]).tokens > 0 && self.chains@[i].tokens > 0;
                        assert(self.chains@[i].tokens > 0);
                    }
                }
            }
            c = c + 1;
        }
        proof {
            if any {
                let i = choose|i: int| 0 <= i < c && (#[trigger] self.chains@[i]).tokens > 0;
                assert(!self.chains@[i].done());
            } else {
                assert(all_done(self.chains@));
            }
        }
        self.running = any;
        true
    }

    /// Starts one refresh, if one may start: the next token of the first
    /// chain that has a token left and fewer than `limit` refreshes under
    /// way. It returns the chain's index and the token's, or `None` where the
    /// scheduler is idle or every chain is either through or at its limit.
    pub fn next_unit(&mut self) -> (r: Option<(usize, usize)>)
        requires
            old(self).wf(),
        ensures
            final(self).wf(),
            final(self).running() == old(self).running(),
            final(self).limit() == old(self).limit(),
            final(self).progress().len() == old(self).progress().len(),
            r is None <==> !old(self).running() || none_can_start(
                old(self).progress(),
                old(self).limit(),
            ),
            r is None ==> *final(self) == *old(self),
            r matches Some((chain, token)) ==> {
                &&& chain < old(self).progress().len()
                &&& old(self).progress()[chain as int].can_start(old(self).limit())
                &&& forall|c: int|
                    0 <= c < chain ==> !(#[trigger] old(self).progress()[c]).can_start(
                        old(self).limit(),
                    )
                &&& token == old(self).progress()[chain as int].started
                &&& final(self).progress() == old(self).progress().update(
                    chain as int,
                    ChainProgress {
                        started: (token + 1) as usize,
                        ..old(self).progress()[chain as int]
                    },
                )
            },
    {
        if !self.running {
            return None;
        }
        let mut c: usize = 0;
        while c < self.chains.len()
            invariant
                c <= self.chains@.len(),
                *self == *old(self),
                self.wf(),
                self.running,
                forall|i: int| 0 <= i < c ==> !(#[trigger] self.chains@[i]).can_start(self.limit),
            decreases self.chains@.len() - c,
        {
            let progress = self.chains[c];
            assert(self.progress()[c as int].wf(self.limit()));
            if progress.started < progress.tokens && progress.started - progress.finished
                < self.limit {
                let token: usize = progress.started;
                self.chains[c] = ChainProgress { started: token + 1, ..progress };
                proof {
                    assert(self.chains@ =~= old(self).chains@.update(
                        c as int,
                        ChainProgress { started: (token + 1) as usize, ..progress },
                    ));
                    assert forall|i: int| 0 <= i < self.progress().len() implies (
                    #[trigger] self.progress()[i]).wf(self.limit()) by {
                        if i != c {
                            assert(old(self).progress()[i].wf(old(self).limit()));
                        }
                    }
                    assert(!self.progress()[c as int].done());
                    assert(old(self).progress()[c as int].can_start(old(self).limit()));
                }
                return Some((c, token));
            }
            c = c + 1;
        }
        None
    }

    /// Starts every refresh that may start now, chain by chain, and returns
    /// them in their order. Afterwards each chain has as many refreshes under
    /// way as its own tokens and the limit allow, whatever the other chains
    /// are doing.
    pub fn start_ready(&mut self) -> (units: Vec<(usize, usize)>)
        requires
            old(self).wf(),
        ensures
            final(self).wf(),
            final(self).running() == old(self).running(),
            final(self).limit() == old(self).limit(),
            final(self).progress().len() == old(self).progress().len(),
            !old(self).running() ==> *final(self) == *old(self) && units@.len() == 0,
            old(self).running() ==> none_can_start(final(self).progress(), final(self).limit())
                && forall|c: int|
                0 <= c < old(self).progress().len() ==> #[trigger] final(self).progress()[c]
                    == (ChainProgress {
                    started: old(self).progress()[c].started_when_full(
                        old(self).limit(),
                    ) as usize,
                    ..old(self).progress()[c]
                }),
            old(self).running() ==> units@ == ready_units(
                old(self).progress(),
                old(self).limit(),
                old(self).progress().len() as int,
            ),
    {
        let mut units: Vec<(usize, usize)> = Vec::new();
        if !self.running {
            return units;
        }
        let mut c: usize = 0;
        while c < self.chains.len()
            invariant
                c <= self.chains@.len(),
                self.running == old(self).running,
                self.running,
                self.limit == old(self).limit,
                self.chains@.len() == old(self).chains@.len(),
                old(self).wf(),
                self.wf(),
                forall|i: int|
                    0 <= i < c ==> #[trigger] self.chains@[i] == (ChainProgress {
                        started: old(self).chains@[i].started_when_full(self.limit) as usize,
                        ..old(self).chains@[i]
                    }),
                forall|i: int| c <= i < self.chains@.len() ==> self.chains@[i] == old(self).chains@[i],
                units@ == ready_units(old(self).chains@, self.limit, c as int),
            decreases self.chains@.len() - c,
        {
            let progress = self.chains[c];
            assert(progress.wf(self.limit));
            let mut started: usize = progress.started;
            assert(chain_units(c, progress.started as int, started as int) =~= Seq::empty());
            while started < progress.tokens && started - progress.finished < self.limit
                invariant
                    c < self.chains@.len(),
                    progress == self.chains@[c as int],
                    progress.wf(self.limit),
                    progress.started <= started <= progress.tokens,
                    started - progress.finished <= self.limit,
                    units@ == ready_units(old(self).chains@, self.limit, c as int) + chain_units(
                        c,
                        progress.started as int,
                        started as int,
                    ),
                    progress == old(self).chains@[c as int],
                    self.chains@.len() == old(self).chains@.len(),
                decreases progress.tokens - started,
            {
                proof {
                    assert(chain_units(c, progress.started as int, started + 1) =~= chain_units(
                        c,
                        progress.started as int,
                        started as int,
                    ).push((c, started)));
                }
                units.push((c, started));
                started = started + 1;
            }
            assert(started == progress.started_when_full(self.limit));
            let ghost before = self.chains@;
            self.chains[c] = ChainProgress { started, ..progress };
            proof {
                assert forall|i: int| 0 <= i < self.chains@.len() implies (
                #[trigger] self.chains@[i]).wf(self.limit) by {
                    if i != c {
                        assert(before[i].wf(self.limit));
                    }
                }
                assert(!all_done(self.chains@)) by {
                    let d = choose|d: int| 0 <= d < before.len() && !(#[trigger] before[d]).done();
                    assert(!self.chains@[d].done());
                }
            }
            c = c + 1;
        }
        proof {
            assert forall|i: int| 0 <= i < self.chains@.len() implies !(
            #[trigger] self.chains@[i]).can_start(self.limit) by {
                assert(old(self).chains@[i].wf(self.limit));
            }
        }
        units
    }

    /// A refresh on `chain` has ended, with or without failures. It no longer
    /// counts against the chain's limit; with the last one of the last chain
    /// the cycle is over and the scheduler idle. A report for a chain on
    /// which nothing is under way is refused and changes nothing. It returns
    /// whether the report was taken.
    pub fn complete(&mut self, chain: usize) -> (taken: bool)
        requires
            old(self).wf(),
        ensures
            final(self).wf(),
            final(self).limit() == old(self).limit(),
            final(self).progress().len() == old(self).progress().len(),
            taken == (chain < old(self).progress().len() && old(self).progress()[chain as int].in_flight()
                > 0),
            !taken ==> *final(self) == *old(self),
            taken ==> {
                &&& final(self).progress() == old(self).progress().update(
                    chain as int,
                    ChainProgress {
                        finished: (old(self).progress()[chain as int].finished + 1) as usize,
                        ..old(self).progress()[chain as int]
                    },
                )
                &&& final(self).running() == !all_done(final(self).progress())
            },
    {
        if chain >= self.chains.len() {
            return false;
        }
        let progress = self.chains[chain];
        assert(progress.wf(self.limit));
        if progress.started == progress.finished {
            return false;
        }
        let ghost before = self.chains@;
        self.chains[chain] = ChainProgress { finished: progress.finished + 1, ..progress };
        proof {
            assert(self.chains@ =~= before.update(
                chain as int,
                ChainProgress { finished: (progress.finished + 1) as usize, ..progress },
            ));
            assert forall|i: int| 0 <= i < self.chains@.len() implies (#[trigger] self.chains@[i]).wf(
                self.limit,
            ) by {
                if i != chain {
                    assert(before[i].wf(self.limit));
                }
            }
        }
        let mut through: bool = true;
        let mut c: usize = 0;
        while c < self.chains.len()
            invariant
                c <= self.chains@.len(),
                through == forall|i: int| 0 <= i < c ==> (#[trigger] self.chains@[i]).done(),
            decreases self.chains@.len() - c,
        {
            if self.chains[c].finished != self.chains[c].tokens {
                through = false;
            }
            c = c + 1;
        }
        proof {
            if through {
                assert forall|i: int| 0 <= i < self.chains@.len() implies (
                #[trigger] self.chains@[i]).in_flight() == 0 by {
                    assert(self.chains@[i].done());
                    assert(self.chains@[i].wf(self.limit));
                }
            }
        }
        self.running = !through;
        true
    }
}

} // verus!
