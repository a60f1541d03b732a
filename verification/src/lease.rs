//! When to renew a mapping.
//!
//! A mapping lasts for the lifetime the gateway granted. Its lease says when
//! to renew it: for the first time after a third of the lifetime, and after
//! a failed renewal with a delay that doubles, starting at two seconds and
//! always shorter than what is left of the lifetime. After five failures in
//! a row, or when the lifetime is over, the renewal is given up.
//!
//! Time is counted in seconds on a clock of the caller's that never runs back.

use vstd::prelude::*;
use crate::manager::LifecycleError;

verus! {

/// Renewals that may fail in a row before a mapping is given up.
pub const MAX_RENEWAL_FAILURES: u32 = 5;

/// When a mapping is to be renewed next.
#[derive(Debug, Clone, Copy, PartialEq, Eq, Structural)]
pub struct Lease {
    /// When the lifetime was granted, in seconds on the manager's clock.
    pub granted_at: u64,
    /// The lifetime the gateway granted, in seconds.
    pub lifetime_seconds: u32,
    /// Renewals that failed since the lifetime was granted.
    pub failures: u32,
    /// When to renew, in seconds on the manager's clock.
    pub due_at: u64,
}

/// `a + b`, or the largest number if that is too large.
pub open spec fn saturating_sum(a: u64, b: u64) -> u64 {
    if a + b > u64::MAX {
        u64::MAX
    } else {
        (a + b) as u64
    }
}

/// The delay before the retry that follows the given number of failures in
/// a row: two seconds after the first, twice as long after each further one.
pub open spec fn backoff_seconds(failures: u32) -> u64 {
    if failures <= 1 {
        2
    } else if failures == 2 {
        4
    } else if failures == 3 {
        8
    } else if failures == 4 {
        16
    } else {
        32
    }
}

impl Lease {
    /// When the lifetime ends.
    pub open spec fn expires_at(self) -> u64 {
        saturating_sum(self.granted_at, self.lifetime_seconds as u64)
    }

    /// The lease of a lifetime granted at `now`: the first renewal is due
    /// after a third of the lifetime.
    pub open spec fn granted_spec(now: u64, lifetime_seconds: u32) -> Lease {
        Lease {
            granted_at: now,
            lifetime_seconds,
            failures: 0,
            due_at: saturating_sum(now, (lifetime_seconds / 3) as u64),
        }
    }

    /// What a failed renewal at `now` makes of the lease: the retry is due
    /// after the backoff, or one second before the lifetime ends where that
    /// is earlier. The renewal is given up after too many failures in a row,
    /// and when the lifetime is over.
    pub open spec fn failed_spec(self, now: u64) -> Result<Lease, LifecycleError> {
        if self.failures + 1 >= MAX_RENEWAL_FAILURES || now >= self.expires_at() {
            Err(LifecycleError::RenewalExhausted)
        } else {
            let failures = (self.failures + 1) as u32;
            let remaining = (self.expires_at() - now) as u64;
            let delay = if backoff_seconds(failures) < remaining {
                backoff_seconds(failures)
            } else {
                (remaining - 1) as u64
            };
            Ok(Lease { failures, due_at: (now + delay) as u64, ..self })
        }
    }

    /// The lease of a lifetime granted at `now`.
    pub fn granted(now: u64, lifetime_seconds: u32) -> (lease: Lease)
        ensures
            lease == Lease::granted_spec(now, lifetime_seconds),
    {
        Lease {
            granted_at: now,
            lifetime_seconds,
            failures: 0,
            due_at: now.saturating_add((lifetime_seconds / 3) as u64),
        }
    }

    /// Whether the mapping is to be renewed at `now`.
    pub fn is_due(&self, now: u64) -> (due: bool)
        ensures
            due <==> self.due_at <= now,
    {
        self.due_at <= now
    }

    /// Takes a failed renewal at `now`: the lease with the next retry, or
    /// the word that the renewal is given up.
    pub fn failed(&self, now: u64) -> (r: Result<Lease, LifecycleError>)
        ensures
            r == self.failed_spec(now),
    {
        let expires_at = self.granted_at.saturating_add(self.lifetime_seconds as u64);
        if self.failures >= MAX_RENEWAL_FAILURES - 1 || now >= expires_at {
            return Err(LifecycleError::RenewalExhausted);
        }
        let failures = self.failures + 1;
        let remaining = expires_at - now;
        let backoff: u64 = if failures <= 1 {
            2
        } else if failures == 2 {
            4
        } else if failures == 3 {
            8
        } else if failures == 4 {
            16
        } else {
            32
        };
        let delay = if backoff < remaining {
            backoff
        } else {
            remaining - 1
        };
        Ok(
            Lease {
                granted_at: self.granted_at,
                lifetime_seconds: self.lifetime_seconds,
                failures,
                due_at: now + delay,
            },
        )
    }
}

/// A retry is always due before the lifetime ends, and the first renewal is
/// due before half of the lifetime is over.
pub proof fn lemma_renewal_in_time(lease: Lease, now: u64, lifetime_seconds: u32)
    ensures
        lease.failed_spec(now) matches Ok(next) ==> {
            &&& now <= next.due_at < lease.expires_at()
            &&& next.failures == lease.failures + 1
            &&& next.expires_at() == lease.expires_at()
        },
        now + lifetime_seconds <= u64::MAX ==> {
            let first = Lease::granted_spec(now, lifetime_seconds);
            &&& first.due_at == now + lifetime_seconds / 3
            &&& (first.due_at - now) * 2 <= lifetime_seconds
        },
{
}

} // verus!
