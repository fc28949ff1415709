use vstd::prelude::*;

verus! {

/// Backoff, in seconds, after the first failed accept.
pub const INITIAL_BACKOFF: u64 = 1;

/// Once the backoff exceeds this many seconds, a failed accept is fatal.
pub const MAX_BACKOFF: u64 = 64;

/// What the acceptor does after a failed accept.
#[derive(Debug, Clone, Copy, PartialEq, Eq, Structural)]
pub enum AcceptStep {
    /// Sleep this many seconds, then accept again.
    Retry(u64),
    /// Stop serving: the error is fatal.
    GiveUp,
}

/// Exponential backoff between failed accepts.
#[derive(Debug)]
pub struct AcceptBackoff {
    delay: u64,
}

/// The backoff after one more failure from `d`, or `None` where that failure is fatal.
pub open spec fn next_delay(d: int) -> Option<int> {
    if d > MAX_BACKOFF {
        None
    } else {
        Some(2 * d)
    }
}

/// Outcome of `n` consecutive failures from a fresh backoff: the backoff then
/// held, whether the acceptor has given up, and the seconds slept so far.
pub open spec fn failures(n: nat) -> (int, bool, int)
    decreases n,
{
    if n == 0 {
        (INITIAL_BACKOFF as int, false, 0)
    } else {
        let (d, gave_up, slept) = failures((n - 1) as nat);
        if gave_up {
            (d, true, slept)
        } else {
            match next_delay(d) {
                None => (d, true, slept),
                Some(d2) => (d2, false, slept + d),
            }
        }
    }
}

pub open spec fn pow2(n: nat) -> int
    decreases n,
{
    if n == 0 {
        1
    } else {
        2 * pow2((n - 1) as nat)
    }
}

impl AcceptBackoff {
    pub closed spec fn delay_spec(&self) -> int {
        self.delay as int
    }

    pub open spec fn wf(&self) -> bool {
        1 <= self.delay_spec() <= 2 * MAX_BACKOFF
    }

    pub fn new() -> (r: AcceptBackoff)
        ensures
            r.wf(),
            r.delay_spec() == INITIAL_BACKOFF,
    {
        AcceptBackoff { delay: INITIAL_BACKOFF }
    }

    /// Decides what follows a failed accept.
    pub fn on_error(&mut self) -> (r: AcceptStep)
        requires
            old(self).wf(),
        ensures
            final(self).wf(),
            match next_delay(old(self).delay_spec()) {
                None => r == AcceptStep::GiveUp && final(self).delay_spec() == old(self).delay_spec(),
                Some(d) => r == AcceptStep::Retry(old(self).delay_spec() as u64)
                    && final(self).delay_spec() == d,
            },
    {
        if self.delay > MAX_BACKOFF {
            AcceptStep::GiveUp
        } else {
            let d = self.delay;
            self.delay = d * 2;
            AcceptStep::Retry(d)
        }
    }

    /// A successful accept starts the backoff over.
    pub fn on_success(&mut self)
        ensures
            final(self).wf(),
            final(self).delay_spec() == INITIAL_BACKOFF,
    {
        self.delay = INITIAL_BACKOFF;
    }
}

/// Consecutive failed accepts: the first seven are retried after sleeping
/// 1, 2, 4, ... seconds, and the eighth, which comes once the slept backoff
/// has passed the cap, is fatal.
pub proof fn lemma_backoff_gives_up(n: nat)
    ensures
        n <= 7 ==> failures(n) == (pow2(n), false, pow2(n) - 1),
        n >= 8 ==> failures(n) == (pow2(7), true, pow2(7) - 1),
        pow2(7) - 1 > MAX_BACKOFF,
    decreases n,
{
    reveal_with_fuel(pow2, 8);
    if n > 0 {
        lemma_backoff_gives_up((n - 1) as nat);
    }
}

/// A single failed accept is not fatal: it is retried after the initial
/// backoff.
pub proof fn lemma_single_failure_recovers()
    ensures
        failures(1) == (2int, false, 1int),
{
    reveal_with_fuel(failures, 2);
}

} // verus!
