//! The reset-and-wait sequencer: deassert the reset of a set of peripheral
//! domains, then watch the reset-done register until every one of them
//! reports ready.
use vstd::prelude::*;
use crate::error::PeriphError;
use crate::poll::{BoundedPoll, PollOutcome};

verus! {

/// Base address of the reset controller.
pub const RESETS_BASE: u32 = 0x4000_c000;

/// Offset of the reset register: a set bit holds its domain in reset.
pub const RESETS_RESET_OFFSET: u32 = 0x00;

/// Offset of the reset-done register: a set bit reports its domain ready.
pub const RESETS_RESET_DONE_OFFSET: u32 = 0x08;

/// Reset bit of the I/O bank that routes pins to peripherals.
pub const RESET_IO_BANK0: u32 = 0x0000_0020;

/// Reset bit of the pad control bank.
pub const RESET_PADS_BANK0: u32 = 0x0000_0100;

/// Every reset domain the controller defines (bits 0 to 24).
pub const RESET_ALL_DOMAINS: u32 = 0x01ff_ffff;

/// Whether every domain of `mask` reads ready in the reset-done value `done`.
pub open spec fn domains_ready(done: u32, mask: u32) -> bool {
    done & mask == mask
}

/// Whether `mask` names at least one domain and only defined ones.
pub open spec fn valid_domain_mask(mask: u32) -> bool {
    mask != 0 && mask & !RESET_ALL_DOMAINS == 0
}

/// Index of the first observation, among the first `budget`, in which every
/// domain of `mask` reads ready.
pub open spec fn first_ready(samples: Seq<u32>, mask: u32, budget: u32, i: int) -> bool {
    0 <= i < samples.len() && i < budget && domains_ready(samples[i], mask)
        && forall|j: int| 0 <= j < i ==> !domains_ready(#[trigger] samples[j], mask)
}

/// The value to write to the reset register so that the domains of `mask`
/// leave reset and every other domain keeps its state.
pub fn deassert_value(reset: u32, mask: u32) -> (r: u32)
    ensures
        r == reset & !mask,
{
    reset & !mask
}

/// Whether every domain of `mask` reads ready in `done`.
pub fn reset_done(done: u32, mask: u32) -> (r: bool)
    ensures
        r == domains_ready(done, mask),
{
    done & mask == mask
}

/// The state of one reset-and-wait: which domains, and the poll budget.
pub struct ResetWait {
    pub mask: u32,
    pub poll: BoundedPoll,
}

impl ResetWait {
    pub open spec fn wf(&self) -> bool {
        valid_domain_mask(self.mask) && self.poll.wf()
    }

    /// Starts a wait for the domains of `mask`, allowing at most `budget`
    /// reads of the reset-done register. A mask that is empty or names an
    /// undefined domain is refused.
    pub fn new(mask: u32, budget: u32) -> (r: Result<ResetWait, PeriphError>)
        ensures
            match r {
                Ok(w) => valid_domain_mask(mask) && w.wf() && w.mask == mask
                    && w.poll.attempts == 0 && w.poll.budget == budget,
                Err(e) => !valid_domain_mask(mask) && e == PeriphError::ConfigurationError,
            },
    {
        if mask == 0 || mask & !RESET_ALL_DOMAINS != 0 {
            Err(PeriphError::ConfigurationError)
        } else {
            Ok(ResetWait { mask, poll: BoundedPoll::new(budget) })
        }
    }

    /// Takes one read of the reset-done register. `Ready` comes exactly when
    /// every requested domain reads ready and budget was left.
    pub fn observe(&mut self, done: u32) -> (r: PollOutcome)
        requires
            old(self).wf(),
        ensures
            final(self).wf(),
            final(self).mask == old(self).mask,
            final(self).poll.budget == old(self).poll.budget,
            old(self).poll.attempts < old(self).poll.budget ==> final(self).poll.attempts
                == old(self).poll.attempts + 1,
            old(self).poll.attempts == old(self).poll.budget ==> final(self).poll.attempts
                == old(self).poll.attempts,
            (r == PollOutcome::Ready) == (old(self).poll.attempts < old(self).poll.budget
                && domains_ready(done, old(self).mask)),
            (r == PollOutcome::TimedOut) == (old(self).poll.attempts + 1 >= old(self).poll.budget
                && !(old(self).poll.attempts < old(self).poll.budget && domains_ready(done, old(self).mask))),
    {
        let ready = reset_done(done, self.mask);
        self.poll.observe(ready)
    }
}

/// Runs the wait over `samples`, the successive values that the reset-done
/// register reads. Returns the index of the read in which every domain of
/// `mask` first shows ready: the sequencer never returns on an earlier read.
/// Fails with `Timeout` when none of the first `budget` reads shows them all,
/// and with `ConfigurationError` on a mask that `ResetWait::new` refuses.
pub fn wait_reset_done(samples: &Vec<u32>, mask: u32, budget: u32) -> (r: Result<usize, PeriphError>)
    ensures
        match r {
            Ok(i) => valid_domain_mask(mask) && first_ready(samples@, mask, budget, i as int),
            Err(PeriphError::ConfigurationError) => !valid_domain_mask(mask),
            Err(PeriphError::Timeout) => valid_domain_mask(mask) && forall|j: int|
                0 <= j < samples@.len() && j < budget ==> !domains_ready(#[trigger] samples@[j], mask),
            Err(PeriphError::BusError) => false,
        },
{
    let mut wait = match ResetWait::new(mask, budget) {
        Ok(w) => w,
        Err(e) => return Err(e),
    };
    let mut i: usize = 0;
    while i < samples.len()
        invariant
            wait.wf(),
            wait.mask == mask,
            wait.poll.budget == budget,
            wait.poll.attempts == i,
            i <= samples@.len(),
            i <= budget,
            forall|j: int| 0 <= j < i ==> !domains_ready(#[trigger] samples@[j], mask),
        decreases samples@.len() - i,
    {
        if !wait.poll.has_budget() {
            return Err(PeriphError::Timeout);
        }
        match wait.observe(samples[i]) {
            PollOutcome::Ready => return Ok(i),
            PollOutcome::Pending => {},
            PollOutcome::TimedOut => return Err(PeriphError::Timeout),
        }
        i = i + 1;
    }
    Err(PeriphError::Timeout)
}

} // verus!
