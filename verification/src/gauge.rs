//! Gauge families: the latest value under each label tuple.
//!
//! A family is a finite map from label tuples to values. Setting a value
//! under a tuple replaces the one that was there; a tuple that was never set
//! is not in the map.

use crate::address::Address;
use crate::ratio::Ratio;
use vstd::prelude::*;

verus! {

/// A label tuple as contracts see it: chain, token address, token name and,
/// for a gauge that is kept by wallet, the wallet's address.
pub type LabelKey = (Seq<char>, Seq<u8>, Seq<char>, Option<Seq<u8>>);

/// The labels of one sample.
#[derive(Clone, Debug, PartialEq, Eq)]
pub struct SampleLabels {
    /// The chain's slug.
    pub chain: String,
    /// The token's address.
    pub token: Address,
    /// The token's name.
    pub token_name: String,
    /// The wallet's address, where the gauge is kept by wallet.
    pub wallet: Option<Address>,
}

impl View for SampleLabels {
    type V = LabelKey;

    open spec fn view(&self) -> LabelKey {
        (
            self.chain@,
            self.token@,
            self.token_name@,
            match self.wallet {
                Some(w) => Some(w@),
                None => None,
            },
        )
    }
}

impl SampleLabels {
    /// Whether two label tuples are the same.
    pub fn same(&self, other: &SampleLabels) -> (b: bool)
        ensures
            b == (self@ == other@),
    {
        let wallets = match (&self.wallet, &other.wallet) {
            (Some(a), Some(b)) => a.same(b),
            (None, None) => true,
            _ => false,
        };
        wallets && self.token.same(&other.token) && self.chain == other.chain && self.token_name
            == other.token_name
    }
}

/// One gauge value with its labels.
#[derive(Clone, Debug, PartialEq, Eq)]
pub struct Sample {
    /// The labels.
    pub labels: SampleLabels,
    /// The value.
    pub value: Ratio,
}

/// The numerator and the denominator of a value.
pub open spec fn parts(value: Ratio) -> (nat, nat) {
    (value.numer(), value.denom())
}

/// The map that a sequence of samples stands for: each label tuple with the
/// value of the last sample that carries it.
pub open spec fn samples_map(samples: Seq<Sample>) -> Map<LabelKey, (nat, nat)>
    decreases samples.len(),
{
    if samples.len() == 0 {
        Map::empty()
    } else {
        samples_map(samples.drop_last()).insert(samples.last().labels@, parts(samples.last().value))
    }
}

/// Whether no two samples of a sequence carry the same labels.
pub open spec fn distinct_labels(samples: Seq<Sample>) -> bool {
    forall|i: int, j: int|
        0 <= i < j < samples.len() ==> (#[trigger] samples[i]).labels@ != (
        #[trigger] samples[j]).labels@
}

/// The label tuples of a sequence of samples are the keys of its map.
pub proof fn lemma_samples_keys(samples: Seq<Sample>, key: LabelKey)
    ensures
        samples_map(samples).contains_key(key) <==> exists|i: int|
            0 <= i < samples.len() && (#[trigger] samples[i]).labels@ == key,
    decreases samples.len(),
{
    if samples.len() > 0 {
        let front = samples.drop_last();
        lemma_samples_keys(front, key);
        if samples_map(samples).contains_key(key) {
            if samples.last().labels@ == key {
                assert(samples[samples.len() - 1].labels@ == key);
            } else {
                let i = choose|i: int| 0 <= i < front.len() && (#[trigger] front[i]).labels@ == key;
                assert(samples[i].labels@ == key);
            }
        }
        if exists|i: int| 0 <= i < samples.len() && (#[trigger] samples[i]).labels@ == key {
            let i = choose|i: int| 0 <= i < samples.len() && (#[trigger] samples[i]).labels@ == key;
            if i < samples.len() - 1 {
                assert(front[i].labels@ == key);
            }
        }
    }
}

/// A sequence without its last sample still has no two samples with the same
/// labels, and none of them has the labels of the last.
pub proof fn lemma_front_distinct(samples: Seq<Sample>)
    requires
        distinct_labels(samples),
        samples.len() > 0,
    ensures
        distinct_labels(samples.drop_last()),
        !samples_map(samples.drop_last()).contains_key(samples.last().labels@),
{
    let front = samples.drop_last();
    assert forall|a: int, b: int| 0 <= a < b < front.len() implies (#[trigger] front[a]).labels@ != (
    #[trigger] front[b]).labels@ by {
        assert(front[a] == samples[a] && front[b] == samples[b]);
    }
    lemma_samples_keys(front, samples.last().labels@);
    if samples_map(front).contains_key(samples.last().labels@) {
        let i = choose|i: int|
            0 <= i < front.len() && (#[trigger] front[i]).labels@ == samples.last().labels@;
        assert(samples[i].labels@ != samples[samples.len() - 1].labels@);
    }
}

/// Where no two samples carry the same labels, each sample's value is the
/// one that the map holds under its labels.
pub proof fn lemma_samples_value(samples: Seq<Sample>, i: int)
    requires
        distinct_labels(samples),
        0 <= i < samples.len(),
    ensures
        samples_map(samples).contains_key(samples[i].labels@),
        samples_map(samples)[samples[i].labels@] == parts(samples[i].value),
    decreases samples.len(),
{
    let front = samples.drop_last();
    if i < samples.len() - 1 {
        lemma_front_distinct(samples);
        lemma_samples_value(front, i);
        assert(front[i] == samples[i]);
        assert(samples[i].labels@ != samples[samples.len() - 1].labels@);
    }
}

/// Replacing the value of one sample replaces the value under its labels.
pub proof fn lemma_samples_update(samples: Seq<Sample>, i: int, sample: Sample)
    requires
        distinct_labels(samples),
        0 <= i < samples.len(),
        sample.labels@ == samples[i].labels@,
    ensures
        distinct_labels(samples.update(i, sample)),
        samples_map(samples.update(i, sample)) == samples_map(samples).insert(
            sample.labels@,
            parts(sample.value),
        ),
    decreases samples.len(),
{
    let after = samples.update(i, sample);
    assert(distinct_labels(after)) by {
        assert forall|a: int, b: int| 0 <= a < b < after.len() implies (#[trigger] after[a]).labels@
            != (#[trigger] after[b]).labels@ by {
            assert(samples[a].labels@ != samples[b].labels@);
        }
    }
    let front = samples.drop_last();
    let last = samples.len() - 1;
    if i == last {
        assert(after.drop_last() =~= front);
        assert(samples_map(after) =~= samples_map(samples).insert(
            sample.labels@,
            parts(sample.value),
        ));
    } else {
        lemma_front_distinct(samples);
        assert(front[i] == samples[i]);
        lemma_samples_update(front, i, sample);
        assert(after.drop_last() =~= front.update(i, sample));
        assert(after.last() == samples.last());
        assert(samples[i].labels@ != samples[last].labels@);
        assert(samples_map(after) =~= samples_map(samples).insert(
            sample.labels@,
            parts(sample.value),
        ));
    }
}

/// Taking one sample out takes its labels out of the map, and nothing else.
pub proof fn lemma_samples_remove(samples: Seq<Sample>, i: int)
    requires
        distinct_labels(samples),
        0 <= i < samples.len(),
    ensures
        distinct_labels(samples.remove(i)),
        samples_map(samples.remove(i)) == samples_map(samples).remove(samples[i].labels@),
    decreases samples.len(),
{
    let after = samples.remove(i);
    assert forall|a: int, b: int| 0 <= a < b < after.len() implies (#[trigger] after[a]).labels@ != (
    #[trigger] after[b]).labels@ by {
        let a0 = if a < i { a } else { a + 1 };
        let b0 = if b < i { b } else { b + 1 };
        assert(after[a] == samples[a0] && after[b] == samples[b0]);
        assert(samples[a0].labels@ != samples[b0].labels@);
    }
    let front = samples.drop_last();
    let last = samples.len() - 1;
    lemma_front_distinct(samples);
    if i == last {
        assert(after =~= front);
        assert(samples_map(after) =~= samples_map(samples).remove(samples[i].labels@));
    } else {
        assert(front[i] == samples[i]);
        lemma_samples_remove(front, i);
        assert(after.drop_last() =~= front.remove(i));
        assert(after.last() == samples.last());
        assert(samples[i].labels@ != samples[last].labels@);
        assert(samples_map(after) =~= samples_map(samples).remove(samples[i].labels@));
    }
}

/// The last write wins: of two values written under the same labels the
/// second is kept, as if the first had never been written, and a write under
/// other labels leaves the value as it is.
pub proof fn lemma_last_write_wins(
    before: Map<LabelKey, (nat, nat)>,
    labels: LabelKey,
    other: LabelKey,
    first: (nat, nat),
    second: (nat, nat),
)
    requires
        other != labels,
    ensures
        before.insert(labels, first).insert(labels, second) == before.insert(labels, second),
        before.insert(labels, first).insert(labels, second)[labels] == second,
        before.insert(labels, first).insert(other, second)[labels] == first,
        before.insert(labels, first).dom() == before.dom().insert(labels),
{
    assert(before.insert(labels, first).insert(labels, second) =~= before.insert(labels, second));
}

/// The name of the label that holds the chain's slug.
pub const LABEL_CHAIN: &'static str = "chain";

/// The name of the label that holds the token's address.
pub const LABEL_TOKEN: &'static str = "token";

/// The name of the label that holds the token's name.
pub const LABEL_TOKEN_NAME: &'static str = "token_name";

/// The name of the label that holds the wallet's address.
pub const LABEL_WALLET: &'static str = "wallet";

/// The names of the labels of a family: chain, token and token name, and the
/// wallet where the family is kept by wallet.
pub open spec fn label_names_of(by_wallet: bool) -> Seq<Seq<char>> {
    if by_wallet {
        seq![LABEL_CHAIN@, LABEL_TOKEN@, LABEL_TOKEN_NAME@, LABEL_WALLET@]
    } else {
        seq![LABEL_CHAIN@, LABEL_TOKEN@, LABEL_TOKEN_NAME@]
    }
}

/// A family of gauges: one value under each label tuple that was set.
#[derive(Clone, Debug, PartialEq, Eq)]
pub struct GaugeFamily {
    name: String,
    by_wallet: bool,
    samples: Vec<Sample>,
}

impl View for GaugeFamily {
    type V = Map<LabelKey, (nat, nat)>;

    closed spec fn view(&self) -> Map<LabelKey, (nat, nat)> {
        samples_map(self.samples@)
    }
}

impl GaugeFamily {
    /// A family is well formed when no two of its samples carry the same
    /// labels. `new` makes such a family; `set` and `remove` keep it one.
    pub closed spec fn wf(self) -> bool {
        distinct_labels(self.samples@)
    }

    /// The samples of the family, in the order in which their label tuples
    /// were first set.
    pub closed spec fn samples(self) -> Seq<Sample> {
        self.samples@
    }

    /// The samples of a family are its map, once each.
    pub proof fn lemma_samples(self)
        requires
            self.wf(),
        ensures
            distinct_labels(self.samples()),
            self@ == samples_map(self.samples()),
    {
    }

    /// The name under which the family is exposed.
    pub closed spec fn name(self) -> Seq<char> {
        self.name@
    }

    /// Whether the family is kept by wallet.
    pub closed spec fn by_wallet(self) -> bool {
        self.by_wallet
    }

    /// A family with the given name, kept by wallet or not, in which nothing
    /// is set.
    pub fn new(name: &str, by_wallet: bool) -> (f: GaugeFamily)
        ensures
            f.wf(),
            f.name() == name@,
            f.by_wallet() == by_wallet,
            f@ == Map::<LabelKey, (nat, nat)>::empty(),
            f.samples().len() == 0,
    {
        GaugeFamily { name: name.to_owned(), by_wallet, samples: Vec::new() }
    }

    /// The name under which the family is exposed.
    pub fn family_name(&self) -> (name: String)
        ensures
            name@ == self.name(),
    {
        self.name.clone()
    }

    /// The names of the family's labels, in the order of the label values.
    pub fn label_names(&self) -> (names: Vec<&'static str>)
        ensures
            names@.len() == label_names_of(self.by_wallet()).len(),
            forall|i: int|
                0 <= i < names@.len() ==> (#[trigger] names@[i])@ == label_names_of(
                    self.by_wallet(),
                )[i],
    {
        let mut names: Vec<&'static str> = Vec::new();
        names.push(LABEL_CHAIN);
        names.push(LABEL_TOKEN);
        names.push(LABEL_TOKEN_NAME);
        if self.by_wallet {
            names.push(LABEL_WALLET);
        }
        names
    }

    /// Where in the family the sample with these labels stands.
    fn position(&self, labels: &SampleLabels) -> (r: Option<usize>)
        ensures
            match r {
                Some(i) => i < self.samples@.len() && self.samples@[i as int].labels@ == labels@,
                None => forall|j: int|
                    0 <= j < self.samples@.len() ==> (#[trigger] self.samples@[j]).labels@
                        != labels@,
            },
    {
        let mut i: usize = 0;
        while i < self.samples.len()
            invariant
                i <= self.samples@.len(),
                forall|j: int| 0 <= j < i ==> (#[trigger] self.samples@[j]).labels@ != labels@,
            decreases self.samples@.len() - i,
        {
            if self.samples[i].labels.same(labels) {
                return Some(i);
            }
            i = i + 1;
        }
        None
    }

    /// Sets the value under `labels`; the value that was there is replaced.
    /// The sample takes the place of the one with the same labels, or the
    /// last place where there was none.
    pub fn set(&mut self, labels: SampleLabels, value: Ratio)
        requires
            old(self).wf(),
        ensures
            final(self).wf(),
            final(self).name() == old(self).name(),
            final(self).by_wallet() == old(self).by_wallet(),
            final(self)@ == old(self)@.insert(labels@, parts(value)),
            forall|i: int|
                0 <= i < old(self).samples().len() && (#[trigger] old(self).samples()[i]).labels@
                    == labels@ ==> final(self).samples() == old(self).samples().update(
                    i,
                    Sample { labels, value },
                ),
            !old(self)@.contains_key(labels@) ==> final(self).samples() == old(self).samples().push(Sample { labels, value }),
    {
        let sample = Sample { labels, value };
        proof {
            lemma_samples_keys(self.samples@, sample.labels@);
        }
        match self.position(&sample.labels) {
            Some(i) => {
                proof {
                    lemma_samples_update(self.samples@, i as int, sample);
                    assert forall|j: int|
                        0 <= j < self.samples@.len() && (#[trigger] self.samples@[j]).labels@
                            == sample.labels@ implies j == i by {
                        if j < i {
                            assert(self.samples@[j].labels@ != self.samples@[i as int].labels@);
                        } else if i < j {
                            assert(self.samples@[i as int].labels@ != self.samples@[j].labels@);
                        }
                    }
                }
                self.samples[i] = sample;
            },
            None => {
                proof {
                    let after = self.samples@.push(sample);
                    assert(after.drop_last() =~= self.samples@);
                    assert(distinct_labels(after));
                }
                self.samples.push(sample);
            },
        }
    }

    /// Takes out the value under `labels`, if one was set: the label tuple is
    /// no longer in the family, and every other one keeps its value and its
    /// order.
    pub fn remove(&mut self, labels: &SampleLabels)
        requires
            old(self).wf(),
        ensures
            final(self).wf(),
            final(self).name() == old(self).name(),
            final(self).by_wallet() == old(self).by_wallet(),
            final(self)@ == old(self)@.remove(labels@),
            !old(self)@.contains_key(labels@) ==> *final(self) == *old(self),
            forall|i: int|
                0 <= i < old(self).samples().len() && (#[trigger] old(self).samples()[i]).labels@
                    == labels@ ==> final(self).samples() == old(self).samples().remove(i),
    {
        proof {
            lemma_samples_keys(self.samples@, labels@);
        }
        match self.position(labels) {
            Some(i) => {
                proof {
                    lemma_samples_remove(self.samples@, i as int);
                    assert forall|j: int|
                        0 <= j < self.samples@.len() && (#[trigger] self.samples@[j]).labels@
                            == labels@ implies j == i by {
                        if j < i {
                            assert(self.samples@[j].labels@ != self.samples@[i as int].labels@);
                        } else if i < j {
                            assert(self.samples@[i as int].labels@ != self.samples@[j].labels@);
                        }
                    }
                }
                let _ = self.samples.remove(i);
            },
            None => {
                assert(self@.remove(labels@) =~= self@);
            },
        }
    }

    /// The value under `labels`, if one was set.
    pub fn get(&self, labels: &SampleLabels) -> (r: Option<Ratio>)
        requires
            self.wf(),
        ensures
            match r {
                Some(value) => self@.contains_key(labels@) && self@[labels@] == parts(value),
                None => !self@.contains_key(labels@),
            },
    {
        proof {
            lemma_samples_keys(self.samples@, labels@);
        }
        match self.position(labels) {
            Some(i) => {
                proof {
                    lemma_samples_value(self.samples@, i as int);
                }
                Some(self.samples[i].value)
            },
            None => None,
        }
    }

    /// How many label tuples are set.
    pub fn len(&self) -> (n: usize)
        ensures
            n == self.samples().len(),
    {
        self.samples.len()
    }

    /// The sample at `index`, or `None` where the family has fewer.
    pub fn sample_at(&self, index: usize) -> (r: Option<&Sample>)
        ensures
            index < self.samples().len() ==> r == Some(&self.samples()[index as int]),
            index >= self.samples().len() ==> r is None,
    {
        if index < self.samples.len() {
            Some(&self.samples[index])
        } else {
            None
        }
    }
}

} // verus!
