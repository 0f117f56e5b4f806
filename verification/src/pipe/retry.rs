//! The decisions of a retried operation: after each failed attempt, whether
//! another attempt is due. Waiting between attempts is the caller's work.

use vstd::prelude::*;

verus! {

/// What follows an attempt of a retried operation.
#[derive(Debug)]
pub enum RetryStep<O, E> {
    /// The operation is over, with this outcome.
    Done(Result<O, E>),
    /// The attempt failed and another one is due.
    Again,
}

/// The retries of an operation that is retried at most `max_retries` times
/// after its first attempt fails: it runs at most `max_retries + 1` times.
#[derive(Debug, Clone, Copy)]
pub struct Retries {
    max_retries: usize,
    used: usize,
}

impl Retries {
    #[verifier::type_invariant]
    spec fn within_limit(&self) -> bool {
        self.used <= self.max_retries
    }

    pub closed spec fn max_retries(&self) -> nat {
        self.max_retries as nat
    }

    /// How many retries have been started so far.
    pub closed spec fn used(&self) -> nat {
        self.used as nat
    }

    /// No retry used yet, of at most `max_retries`.
    pub fn new(max_retries: usize) -> (r: Self)
        ensures
            r.max_retries() == max_retries,
            r.used() == 0,
    {
        Retries { max_retries, used: 0 }
    }

    pub fn used_retries(&self) -> (n: usize)
        ensures
            n == self.used(),
            n <= self.max_retries(),
    {
        proof {
            use_type_invariant(self);
        }
        self.used
    }

    /// What follows an attempt with this outcome: a success ends the
    /// operation; a failure is retried while retries are left, and otherwise
    /// ends it with the failure.
    pub fn after_attempt<O, E>(&mut self, outcome: Result<O, E>) -> (step: RetryStep<O, E>)
        ensures
            final(self).max_retries() == old(self).max_retries(),
            final(self).used() <= final(self).max_retries(),
            match outcome {
                Ok(v) => step == RetryStep::<O, E>::Done(Ok(v)) && final(self).used() == old(self).used(),
                Err(e) => if old(self).used() < old(self).max_retries() {
                    step is Again && final(self).used() == old(self).used() + 1
                } else {
                    step == RetryStep::<O, E>::Done(Err(e)) && final(self).used() == old(self).used()
                },
            },
    {
        proof {
            use_type_invariant(&*self);
        }
        match outcome {
            Ok(v) => RetryStep::Done(Ok(v)),
            Err(e) => {
                if self.used < self.max_retries {
                    self.used = self.used + 1;
                    RetryStep::Again
                } else {
                    RetryStep::Done(Err(e))
                }
            },
        }
    }
}

impl Default for Retries {
    /// Three retries.
    fn default() -> (r: Self)
        ensures
            r.max_retries() == 3,
            r.used() == 0,
    {
        Retries::new(3)
    }
}

} // verus!
