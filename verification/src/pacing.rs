//! Pacing of request starts: permissions that are never closer together than
//! a fixed interval.
//!
//! The limiter never fails and never sleeps. It says whether a start is
//! permitted at a given time, or how long the caller is to wait before asking
//! again. Times are nanoseconds on any clock that the caller keeps to.

use vstd::prelude::*;

verus! {

/// The answer to a request for permission to start.
#[derive(Clone, Copy, Debug, PartialEq, Eq)]
pub enum Permission {
    /// The start is permitted now.
    Granted,
    /// No start is permitted before this many nanoseconds have passed.
    Wait { nanos: u64 },
}

/// Whether every time in `starts` comes at least `interval` after the one
/// before it.
pub open spec fn paced(starts: Seq<u64>, interval: u64) -> bool {
    forall|k: int|
        0 <= k && k + 1 < starts.len() ==> starts[k] + interval <= #[trigger] starts[k + 1]
}

/// The answer at time `now`, given the interval and the time of the latest
/// permission. The first permission is granted at once. After that a
/// permission is granted once the interval has passed, and until then the
/// answer is to wait for the rest of it. A time before the latest permission
/// is a clock that ran backwards: the answer is to wait a whole interval.
pub open spec fn permission_at(interval: u64, latest: Option<u64>, now: u64) -> Permission {
    match latest {
        None => Permission::Granted,
        Some(t) => if now < t {
            Permission::Wait { nanos: interval }
        } else if now - t < interval {
            Permission::Wait { nanos: (interval - (now - t)) as u64 }
        } else {
            Permission::Granted
        },
    }
}

/// The last element of a sequence of times, if there is one.
pub open spec fn latest_of(times: Seq<u64>) -> Option<u64> {
    if times.len() == 0 {
        None
    } else {
        Some(times.last())
    }
}

/// A gate that lets starts pass at a fixed interval at most.
pub struct RateLimiter {
    interval: u64,
    latest: Option<u64>,
    granted: Ghost<Seq<u64>>,
}

impl RateLimiter {
    /// The least time between two permissions, in nanoseconds.
    pub closed spec fn interval(&self) -> u64 {
        self.interval
    }

    /// The times of all permissions granted so far, in order.
    pub closed spec fn granted(&self) -> Seq<u64> {
        self.granted@
    }

    /// The limiter remembers its latest permission, and all its permissions
    /// are paced.
    pub closed spec fn wf(&self) -> bool {
        &&& self.latest == latest_of(self.granted@)
        &&& paced(self.granted@, self.interval)
    }

    /// A limiter that has granted nothing yet.
    pub fn new(interval: u64) -> (limiter: Self)
        ensures
            limiter.wf(),
            limiter.interval() == interval,
            limiter.granted() == Seq::<u64>::empty(),
    {
        RateLimiter { interval, latest: None, granted: Ghost(Seq::empty()) }
    }

    /// Asks for permission to start at time `now`. A permission that is
    /// granted is on record from then on; an answer to wait changes nothing.
    pub fn request(&mut self, now: u64) -> (permission: Permission)
        requires
            old(self).wf(),
        ensures
            final(self).wf(),
            final(self).interval() == old(self).interval(),
            permission == permission_at(
                old(self).interval(),
                latest_of(old(self).granted()),
                now,
            ),
            permission == Permission::Granted ==> final(self).granted() == old(
                self,
            ).granted().push(now),
            permission != Permission::Granted ==> final(self).granted() == old(self).granted(),
    {
        match self.latest {
            Some(t) => {
                if now < t {
                    return Permission::Wait { nanos: self.interval };
                }
                if now - t < self.interval {
                    return Permission::Wait { nanos: self.interval - (now - t) };
                }
            },
            None => {},
        }
        self.latest = Some(now);
        self.granted = Ghost(self.granted@.push(now));
        Permission::Granted
    }

    /// Any two consecutive permissions are at least the interval apart.
    pub proof fn lemma_permissions_are_paced(&self, k: int)
        requires
            self.wf(),
            0 <= k,
            k + 1 < self.granted().len(),
        ensures
            self.granted()[k + 1] - self.granted()[k] >= self.interval(),
    {
    }
}

} // verus!
