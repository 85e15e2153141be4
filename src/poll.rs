//! A readiness poll with a budget of attempts, in place of a loop that waits
//! forever.
use vstd::prelude::*;

verus! {

/// What a poll concluded from one observation.
#[derive(Clone, Copy, Debug, PartialEq, Eq, Structural)]
pub enum PollOutcome {
    /// The awaited condition was observed.
    Ready,
    /// Not yet; observe again.
    Pending,
    /// The budget of observations is used up.
    TimedOut,
}

/// Counts the observations made so far against a fixed budget.
pub struct BoundedPoll {
    pub attempts: u32,
    pub budget: u32,
}

impl BoundedPoll {
    pub open spec fn wf(&self) -> bool {
        self.attempts <= self.budget
    }

    /// A poll that may observe at most `budget` times.
    pub fn new(budget: u32) -> (r: BoundedPoll)
        ensures
            r.wf(),
            r.attempts == 0,
            r.budget == budget,
    {
        BoundedPoll { attempts: 0, budget }
    }

    /// Whether another observation is allowed.
    pub fn has_budget(&self) -> (r: bool)
        ensures
            r == (self.attempts < self.budget),
    {
        self.attempts < self.budget
    }

    /// Records one observation, `ready` telling whether the awaited
    /// condition held in it. A poll whose budget is used up reports
    /// `TimedOut` whatever it is shown.
    pub fn observe(&mut self, ready: bool) -> (r: PollOutcome)
        requires
            old(self).wf(),
        ensures
            final(self).wf(),
            final(self).budget == old(self).budget,
            old(self).attempts < old(self).budget ==> final(self).attempts == old(self).attempts + 1,
            old(self).attempts == old(self).budget ==> final(self).attempts == old(self).attempts,
            r == (if old(self).attempts == old(self).budget {
                PollOutcome::TimedOut
            } else if ready {
                PollOutcome::Ready
            } else if old(self).attempts + 1 == old(self).budget {
                PollOutcome::TimedOut
            } else {
                PollOutcome::Pending
            }),
    {
        if self.attempts == self.budget {
            return PollOutcome::TimedOut;
        }
        self.attempts = self.attempts + 1;
        if ready {
            PollOutcome::Ready
        } else if self.attempts == self.budget {
            PollOutcome::TimedOut
        } else {
            PollOutcome::Pending
        }
    }
}

} // verus!
