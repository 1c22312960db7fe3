//! The readiness probe: when a freshly spawned process counts as reachable,
//! and when waiting for it must give up.

use vstd::prelude::*;

verus! {

/// What the probe tells its runner after one connection attempt.
#[derive(Clone, Copy, Debug, PartialEq, Eq, Structural)]
pub enum ProbeStatus {
    /// The connection succeeded: the process is ready.
    Ready,
    /// The connection was refused and the deadline has not passed: sleep for
    /// `sleep_ms` milliseconds, then try again.
    Retry { sleep_ms: u64 },
    /// The connection was refused and the accumulated waiting time has
    /// reached the deadline: the wait is over, the spawn timed out.
    TimedOut,
}

/// The state of one bounded readiness wait against a `host:port` pair.  The
/// probe itself never connects and never sleeps; its runner attempts the
/// connection, reports the outcome, and performs the sleep the probe asks
/// for.  Time is accounted as the sum of the sleeps the probe has ordered.
#[derive(Clone, Copy, Debug)]
pub struct ReadinessProbe {
    timeout_ms: u64,
    retry_interval_ms: u64,
    elapsed_ms: u64,
}

impl ReadinessProbe {
    /// The probe is well formed: the retry interval is positive, so every
    /// refused attempt makes progress toward the deadline, the accounted time
    /// never runs more than one interval past the deadline, and the sum of
    /// the two fits the counter.
    pub open spec fn wf(self) -> bool {
        &&& 1 <= self.spec_retry_interval_ms()
        &&& self.spec_timeout_ms() + self.spec_retry_interval_ms() <= u64::MAX
        &&& self.spec_elapsed_ms() <= self.spec_timeout_ms() + self.spec_retry_interval_ms()
    }

    /// The overall deadline, in milliseconds.
    pub closed spec fn spec_timeout_ms(self) -> u64 {
        self.timeout_ms
    }

    /// The sleep ordered after each refused attempt, in milliseconds.
    pub closed spec fn spec_retry_interval_ms(self) -> u64 {
        self.retry_interval_ms
    }

    /// The waiting time accounted so far, in milliseconds.
    pub closed spec fn spec_elapsed_ms(self) -> u64 {
        self.elapsed_ms
    }

    /// A fresh wait with the given deadline and retry interval and no time
    /// spent yet.
    pub fn new(timeout_ms: u64, retry_interval_ms: u64) -> (r: Self)
        requires
            1 <= retry_interval_ms,
            timeout_ms + retry_interval_ms <= u64::MAX,
        ensures
            r.wf(),
            r.spec_timeout_ms() == timeout_ms,
            r.spec_retry_interval_ms() == retry_interval_ms,
            r.spec_elapsed_ms() == 0,
    {
        ReadinessProbe { timeout_ms, retry_interval_ms, elapsed_ms: 0 }
    }

    /// Record the outcome of one connection attempt and decide what follows.
    /// A successful connection ends the wait at once.  A refused one either
    /// orders a sleep of one retry interval, accounting for it, or — once the
    /// accounted time has reached the deadline — gives up.  The wait can
    /// neither give up before the deadline nor keep a runner that obeys it
    /// waiting forever: every retry moves `elapsed` strictly forward.
    pub fn record_attempt(&mut self, connected: bool) -> (r: ProbeStatus)
        requires
            old(self).wf(),
        ensures
            final(self).wf(),
            final(self).spec_timeout_ms() == old(self).spec_timeout_ms(),
            final(self).spec_retry_interval_ms() == old(self).spec_retry_interval_ms(),
            connected ==> r == ProbeStatus::Ready && *final(self) == *old(self),
            !connected && old(self).spec_elapsed_ms() >= old(self).spec_timeout_ms() ==> r
                == ProbeStatus::TimedOut && *final(self) == *old(self),
            !connected && old(self).spec_elapsed_ms() < old(self).spec_timeout_ms() ==> r
                == (ProbeStatus::Retry { sleep_ms: old(self).spec_retry_interval_ms() })
                && final(self).spec_elapsed_ms() == old(self).spec_elapsed_ms() + old(
                self,
            ).spec_retry_interval_ms(),
            r == ProbeStatus::TimedOut ==> old(self).spec_elapsed_ms() >= old(
                self,
            ).spec_timeout_ms(),
    {
        if connected {
            ProbeStatus::Ready
        } else if self.elapsed_ms >= self.timeout_ms {
            ProbeStatus::TimedOut
        } else {
            self.elapsed_ms = self.elapsed_ms + self.retry_interval_ms;
            ProbeStatus::Retry { sleep_ms: self.retry_interval_ms }
        }
    }
}

} // verus!
