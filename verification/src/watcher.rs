//! The change watcher: the latest and the previous sample of one quantity.

use vstd::prelude::*;

verus! {

/// Two consecutive successful samples of a quantity.
#[derive(Clone, Copy, Debug, PartialEq, Eq, Structural)]
pub struct Pair {
    /// The most recent successful sample.
    pub current: i32,
    /// The successful sample before `current`; zero until two samples were taken.
    pub old: i32,
}

impl Pair {
    /// The pair before anything was sampled.
    pub open spec fn zero() -> Pair {
        Pair { current: 0, old: 0 }
    }

    /// The pair after sampling `value`: the current sample ages, whether or not
    /// the new one differs from it.
    pub open spec fn updated(self, value: i32) -> Pair {
        Pair { current: value, old: self.current }
    }

    /// The pair after one read attempt: a failed read leaves it as it is.
    pub open spec fn absorbed(self, sample: Option<i32>) -> Pair {
        match sample {
            Some(value) => self.updated(value),
            None => self,
        }
    }

    /// The pair after a run of read attempts, oldest first.
    pub open spec fn absorbed_all(self, samples: Seq<Option<i32>>) -> Pair
        decreases samples.len(),
    {
        if samples.len() == 0 {
            self
        } else {
            self.absorbed_all(samples.drop_last()).absorbed(samples.last())
        }
    }

    /// Whether the last sample differs from the one before it.
    pub open spec fn spec_changed(self) -> bool {
        self.current != self.old
    }

    /// The pair before anything was sampled.
    pub fn new() -> (pair: Pair)
        ensures
            pair == Pair::zero(),
    {
        Pair { current: 0, old: 0 }
    }

    /// Records a successful sample and hands back the new pair.
    pub fn update(&mut self, value: i32) -> (pair: Pair)
        ensures
            *final(self) == old(self).updated(value),
            pair == old(self).updated(value),
    {
        self.old = self.current;
        self.current = value;
        *self
    }

    /// Records the outcome of one read attempt and hands back the new pair.
    pub fn absorb(&mut self, sample: Option<i32>) -> (pair: Pair)
        ensures
            *final(self) == old(self).absorbed(sample),
            pair == old(self).absorbed(sample),
    {
        match sample {
            Some(value) => self.update(value),
            None => *self,
        }
    }

    /// Whether the last sample differs from the one before it.
    #[verifier::when_used_as_spec(spec_changed)]
    pub fn changed(self) -> (changed: bool)
        ensures
            changed == self.spec_changed(),
    {
        self.current != self.old
    }
}

/// A run of read attempts, all failed.
pub open spec fn failures(n: nat) -> Seq<Option<i32>> {
    Seq::new(n, |i: int| None::<i32>)
}

/// Failed reads never touch a pair, however many there are.
pub proof fn lemma_failures_keep_pair(pair: Pair, n: nat)
    ensures
        pair.absorbed_all(failures(n)) == pair,
    decreases n,
{
    if n > 0 {
        assert(failures(n).drop_last() =~= failures((n - 1) as nat));
        lemma_failures_keep_pair(pair, (n - 1) as nat);
    }
}

/// After any number of failed reads and then one successful read of `value`,
/// `current` is `value` and `old` is what `current` was before the failures
/// began.
pub proof fn lemma_success_after_failures(pair: Pair, n: nat, value: i32)
    ensures
        pair.absorbed_all(failures(n).push(Some(value))) == pair.updated(value),
        pair.absorbed_all(failures(n).push(Some(value))).current == value,
        pair.absorbed_all(failures(n).push(Some(value))).old == pair.current,
{
    let samples = failures(n).push(Some(value));
    assert(samples.drop_last() =~= failures(n));
    lemma_failures_keep_pair(pair, n);
}

} // verus!
