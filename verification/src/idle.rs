//! Inferring the end of input from silence.

use vstd::prelude::*;

verus! {

/// Tracks how long a connection has been silent.
///
/// Times are milliseconds on a clock of the caller's choosing; only
/// differences between them matter.
#[derive(Clone, Copy, Debug)]
pub struct IdleTimeout {
    timeout: u64,
    last_activity: u64,
}

/// What an [`IdleTimeout`] stands for: the configured idle duration and the
/// time of the last byte received.
pub struct IdleTimeoutView {
    pub timeout: nat,
    pub last_activity: nat,
}

impl IdleTimeoutView {
    /// Silence has lasted longer than the idle duration at time `now`.
    pub open spec fn timed_out(self, now: nat) -> bool {
        now - self.last_activity > self.timeout
    }

    /// The time from `now` to the first moment at which the silence has
    /// lasted longer than the idle duration: nothing, if it has already.
    pub open spec fn due_in(self, now: nat) -> nat {
        if self.timed_out(now) {
            0
        } else {
            (self.last_activity + self.timeout + 1 - now) as nat
        }
    }
}

/// A number as a `u64` holds it: it stops at `u64::MAX`.
pub open spec fn capped(count: nat) -> nat {
    if count > u64::MAX {
        u64::MAX as nat
    } else {
        count
    }
}

impl View for IdleTimeout {
    type V = IdleTimeoutView;

    closed spec fn view(&self) -> IdleTimeoutView {
        IdleTimeoutView { timeout: self.timeout as nat, last_activity: self.last_activity as nat }
    }
}

impl IdleTimeout {
    /// A detector with idle duration `timeout`, whose silence starts at `start`.
    pub fn new(timeout: u64, start: u64) -> (detector: IdleTimeout)
        ensures
            detector@ == (IdleTimeoutView { timeout: timeout as nat, last_activity: start as nat }),
    {
        IdleTimeout { timeout, last_activity: start }
    }

    /// The idle duration.
    pub fn timeout(&self) -> (timeout: u64)
        ensures
            timeout as nat == self@.timeout,
    {
        self.timeout
    }

    /// The time of the last byte received, or the starting time where none
    /// has come yet.
    pub fn last_activity(&self) -> (at: u64)
        ensures
            at as nat == self@.last_activity,
    {
        self.last_activity
    }

    /// Notes that bytes arrived at time `now`.
    pub fn record_activity(&mut self, now: u64)
        ensures
            final(self)@ == (IdleTimeoutView { last_activity: now as nat, ..old(self)@ }),
    {
        self.last_activity = now;
    }

    /// Whether the silence has lasted longer than the idle duration.
    pub fn is_timed_out(&self, now: u64) -> (timed_out: bool)
        ensures
            timed_out == self@.timed_out(now as nat),
    {
        now > self.last_activity && now - self.last_activity > self.timeout
    }

    /// The time from `now` after which the silence will have lasted longer
    /// than the idle duration, as far as a `u64` counts.
    pub fn due_in(&self, now: u64) -> (wait: u64)
        ensures
            wait == capped(self@.due_in(now as nat)),
    {
        if now > self.last_activity {
            let silent = now - self.last_activity;
            if silent > self.timeout {
                0
            } else {
                (self.timeout - silent).saturating_add(1)
            }
        } else {
            (self.last_activity - now).saturating_add(self.timeout).saturating_add(1)
        }
    }
}

/// `due_in` is the wait that ends just as the timeout sets in: from a moment
/// without a timeout, and with no bytes in between, the silence counts as a
/// timeout `later` on exactly when `later` is `due_in` or more.
pub proof fn law_due_in_is_the_wait(idle: IdleTimeoutView, now: nat, later: nat)
    requires
        !idle.timed_out(now),
    ensures
        idle.timed_out(now + later) <==> later >= idle.due_in(now),
        idle.due_in(now) >= 1,
{
}

} // verus!
