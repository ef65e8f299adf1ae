use vstd::prelude::*;

verus! {

/// How many attempts a retry sequence may make: `max_attempts`, and one where it is 0.
pub open spec fn attempt_limit(max_attempts: nat) -> nat {
    if max_attempts == 0 {
        1
    } else {
        max_attempts
    }
}

/// Whether a sequence whose attempts returned `history` has come to an end:
/// the last attempt succeeded, or no attempt is left.
pub open spec fn is_done<T, E>(limit: nat, history: Seq<Result<T, E>>) -> bool {
    history.len() > 0 && (history.last() is Ok || history.len() >= limit)
}

/// The decisions of a retry sequence against one endpoint.
///
/// The caller asks `next_attempt` what to do, makes the attempt it names,
/// hands its outcome to `record`, and asks again. Once no attempt is named,
/// `into_outcome` gives the first success, or else the failure of the last attempt.
/// Attempts follow one another at once, with no delay.
pub struct RetryRun<T, E> {
    limit: usize,
    made: usize,
    last: Option<Result<T, E>>,
    outcomes: Ghost<Seq<Result<T, E>>>,
}

impl<T, E> RetryRun<T, E> {
    /// The number of attempts that this sequence may make.
    pub closed spec fn limit(&self) -> nat {
        self.limit as nat
    }

    /// The outcome of each attempt made so far, in order.
    pub closed spec fn history(&self) -> Seq<Result<T, E>> {
        self.outcomes@
    }

    /// Whether the sequence has come to an end.
    pub open spec fn finished(&self) -> bool {
        is_done(self.limit(), self.history())
    }

    pub closed spec fn wf(&self) -> bool {
        &&& 1 <= self.limit
        &&& self.made == self.outcomes@.len()
        &&& self.made <= self.limit
        &&& forall|i: int| 0 <= i < self.outcomes@.len() - 1 ==> (#[trigger] self.outcomes@[i]) is Err
        &&& (self.made == 0 <==> self.last is None)
        &&& (self.made > 0 ==> self.last == Some(self.outcomes@.last()))
    }

    /// A sequence that may make `max_attempts` attempts, and exactly one where that is 0 or 1.
    pub fn new(max_attempts: usize) -> (r: Self)
        ensures
            r.wf(),
            r.limit() == attempt_limit(max_attempts as nat),
            r.history() == Seq::<Result<T, E>>::empty(),
            !r.finished(),
    {
        let limit: usize = if max_attempts == 0 {
            1
        } else {
            max_attempts
        };
        RetryRun { limit, made: 0, last: None, outcomes: Ghost(Seq::empty()) }
    }

    /// The number of the attempt to make next (from 1), or `None` once the sequence is over.
    pub fn next_attempt(&self) -> (r: Option<usize>)
        requires
            self.wf(),
        ensures
            r is None <==> self.finished(),
            r matches Some(n) ==> n == self.history().len() + 1 && n <= self.limit(),
    {
        match &self.last {
            Some(Ok(_)) => None,
            _ => {
                if self.made < self.limit {
                    Some(self.made + 1)
                } else {
                    None
                }
            },
        }
    }

    /// Takes note of the outcome of the attempt that `next_attempt` named.
    pub fn record(&mut self, outcome: Result<T, E>)
        requires
            old(self).wf(),
            !old(self).finished(),
        ensures
            final(self).wf(),
            final(self).limit() == old(self).limit(),
            final(self).history() == old(self).history().push(outcome),
    {
        let ghost o = outcome;
        let ghost before = self.outcomes@;
        self.outcomes = Ghost(self.outcomes@.push(o));
        self.made = self.made + 1;
        self.last = Some(outcome);
        assert forall|i: int| 0 <= i < self.outcomes@.len() - 1 implies (#[trigger] self.outcomes@[i]) is Err by {
            assert(self.outcomes@[i] == before[i]);
            if i == before.len() - 1 {
                assert(before.last() is Err);
            }
        }
    }

    /// The number of attempts made so far.
    pub fn attempts_made(&self) -> (r: usize)
        requires
            self.wf(),
        ensures
            r == self.history().len(),
    {
        self.made
    }

    /// The outcome of the sequence: that of its last attempt, which is its only success if it had one.
    pub fn into_outcome(self) -> (r: Result<T, E>)
        requires
            self.wf(),
            self.finished(),
        ensures
            r == self.history().last(),
    {
        self.last.unwrap()
    }

    /// A sequence made for `max_attempts` makes at most `max_attempts` attempts
    /// where that is at least 1, and once over it has made at least one; every
    /// attempt but the last has failed.
    pub proof fn attempt_bounds(&self, max_attempts: nat)
        requires
            self.wf(),
            self.limit() == attempt_limit(max_attempts),
        ensures
            1 <= self.limit(),
            self.history().len() <= self.limit(),
            max_attempts >= 1 ==> self.history().len() <= max_attempts,
            self.finished() ==> 1 <= self.history().len(),
            !self.finished() ==> self.history().len() < self.limit(),
            forall|i: int| 0 <= i < self.history().len() - 1 ==> (#[trigger] self.history()[i]) is Err,
    {
    }

    /// Where the first attempt succeeds, the sequence is over after exactly one
    /// attempt, whatever its limit.
    pub proof fn first_success_ends(&self)
        requires
            self.wf(),
            self.history().len() >= 1,
            self.history()[0] is Ok,
        ensures
            self.history().len() == 1,
            self.finished(),
    {
        if self.history().len() > 1 {
            assert(self.history()[0] is Err);
        }
    }

    /// Where every attempt fails, the sequence ends only after `limit` attempts,
    /// and what it gives back is the failure of the last of them alone.
    pub proof fn all_failed_gives_last(&self)
        requires
            self.wf(),
            self.finished(),
            forall|i: int| 0 <= i < self.history().len() ==> (#[trigger] self.history()[i]) is Err,
        ensures
            self.history().len() == self.limit(),
            self.history().last() == self.history()[self.limit() - 1],
            self.history().last() is Err,
    {
        assert(self.history()[self.history().len() - 1] is Err);
    }
}

} // verus!
