//! Admission of a fixed population of requests under a concurrency bound and
//! an optional pacing interval.
//!
//! The engine decides; its caller acts. The caller asks `poll` with the
//! current time, performs the action that comes back, and reports every
//! finished request with `complete`. Times are nanoseconds on any clock that
//! the caller keeps to.

use vstd::prelude::*;
use crate::outcome::RequestOutcome;
use crate::pacing::{latest_of, permission_at, Permission, RateLimiter};

verus! {

/// What the caller is to do next.
#[derive(Clone, Copy, Debug, PartialEq, Eq)]
pub enum Action {
    /// Start one request now; the engine has counted it as in flight.
    Start,
    /// No request may start before this many nanoseconds have passed.
    Pause { nanos: u64 },
    /// No request may start before one in flight has finished.
    AwaitCompletion,
    /// Every outcome has been collected.
    Finished,
}

/// Why the engine refused a call.
#[derive(Clone, Copy, Debug, PartialEq, Eq)]
pub enum DispatchError {
    /// The population of requests is empty.
    NoRequests,
    /// The concurrency bound is zero.
    NoConcurrency,
    /// A completion was reported while no request was in flight.
    NothingInFlight,
}

/// The decision for a state given by its numbers: the population, the bound,
/// the pacing interval, the requests started and collected so far, and the time
/// of the latest start.
pub open spec fn decide(
    total: nat,
    concurrency: nat,
    interval: Option<u64>,
    started: nat,
    collected: nat,
    last_start: Option<u64>,
    now: u64,
) -> Action {
    if collected == total {
        Action::Finished
    } else if started == total || started - collected == concurrency {
        Action::AwaitCompletion
    } else {
        match interval {
            Some(d) => match permission_at(d, last_start, now) {
                Permission::Granted => Action::Start,
                Permission::Wait { nanos } => Action::Pause { nanos },
            },
            None => Action::Start,
        }
    }
}

/// The scheduler of one run.
pub struct DispatchEngine {
    total: usize,
    concurrency: usize,
    limiter: Option<RateLimiter>,
    started: usize,
    outcomes: Vec<RequestOutcome>,
    starts: Ghost<Seq<u64>>,
}

impl DispatchEngine {
    /// The number of requests of the run.
    pub closed spec fn total(&self) -> nat {
        self.total as nat
    }

    /// The largest number of requests that may be in flight together.
    pub closed spec fn concurrency(&self) -> nat {
        self.concurrency as nat
    }

    /// The least time between two starts, where starts are paced.
    pub closed spec fn interval(&self) -> Option<u64> {
        match self.limiter {
            Some(limiter) => Some(limiter.interval()),
            None => None,
        }
    }

    /// The number of requests started so far.
    pub closed spec fn started(&self) -> nat {
        self.started as nat
    }

    /// The outcomes collected so far, in the order in which they came.
    pub closed spec fn collected(&self) -> Seq<RequestOutcome> {
        self.outcomes@
    }

    /// The times at which the requests were started, in order.
    pub closed spec fn start_times(&self) -> Seq<u64> {
        self.starts@
    }

    /// The number of requests started and not yet finished.
    pub open spec fn in_flight(&self) -> int {
        self.started() - self.collected().len()
    }

    /// The time of the latest start, if any request was started.
    pub open spec fn last_start(&self) -> Option<u64> {
        latest_of(self.start_times())
    }

    /// The decision that the engine takes at time `now`.
    pub open spec fn next_action(&self, now: u64) -> Action {
        decide(
            self.total(),
            self.concurrency(),
            self.interval(),
            self.started(),
            self.collected().len(),
            self.last_start(),
            now,
        )
    }

    /// What holds of the engine at every moment of a run: no more requests are
    /// started than the run has, none finished that was not started, never
    /// more in flight than the bound allows, and starts are paced.
    pub closed spec fn wf(&self) -> bool {
        &&& self.total >= 1
        &&& self.concurrency >= 1
        &&& self.started <= self.total
        &&& self.outcomes@.len() <= self.started
        &&& self.started - self.outcomes@.len() <= self.concurrency
        &&& self.starts@.len() == self.started
        &&& self.limiter matches Some(limiter) ==> limiter.wf() && limiter.granted() == self.starts@
    }

    /// An engine for `total` requests, at most `concurrency` of them in flight
    /// together and, where `interval` is given, starts at least that many
    /// nanoseconds apart. A run needs at least one request and room for one.
    pub fn new(total: usize, concurrency: usize, interval: Option<u64>) -> (result: Result<
        Self,
        DispatchError,
    >)
        ensures
            total == 0 <==> result == Err::<Self, DispatchError>(DispatchError::NoRequests),
            total > 0 && concurrency == 0 <==> result == Err::<Self, DispatchError>(
                DispatchError::NoConcurrency,
            ),
            total > 0 && concurrency > 0 <==> result is Ok,
            result matches Ok(engine) ==> {
                &&& engine.wf()
                &&& engine.total() == total
                &&& engine.concurrency() == concurrency
                &&& engine.interval() == interval
                &&& engine.started() == 0
                &&& engine.collected() == Seq::<RequestOutcome>::empty()
                &&& engine.start_times() == Seq::<u64>::empty()
            },
    {
        if total == 0 {
            return Err(DispatchError::NoRequests);
        }
        if concurrency == 0 {
            return Err(DispatchError::NoConcurrency);
        }
        Ok(DispatchEngine::fresh(total, concurrency, interval))
    }

    /// An engine at the start of a run whose numbers are known to be in order.
    pub(crate) fn fresh(total: usize, concurrency: usize, interval: Option<u64>) -> (engine: Self)
        requires
            total >= 1,
            concurrency >= 1,
        ensures
            engine.wf(),
            engine.total() == total,
            engine.concurrency() == concurrency,
            engine.interval() == interval,
            engine.started() == 0,
            engine.collected() == Seq::<RequestOutcome>::empty(),
            engine.start_times() == Seq::<u64>::empty(),
    {
        let limiter = match interval {
            Some(d) => Some(RateLimiter::new(d)),
            None => None,
        };
        DispatchEngine {
            total,
            concurrency,
            limiter,
            started: 0,
            outcomes: Vec::new(),
            starts: Ghost(Seq::empty()),
        }
    }

    /// Decides what to do at time `now`. Where the decision is to start a
    /// request, the engine counts it as started at `now`; any other decision
    /// leaves the engine as it was.
    pub fn poll(&mut self, now: u64) -> (action: Action)
        requires
            old(self).wf(),
        ensures
            final(self).wf(),
            action == old(self).next_action(now),
            final(self).total() == old(self).total(),
            final(self).concurrency() == old(self).concurrency(),
            final(self).interval() == old(self).interval(),
            final(self).collected() == old(self).collected(),
            action == Action::Start ==> final(self).started() == old(self).started() + 1
                && final(self).start_times() == old(self).start_times().push(now),
            action != Action::Start ==> final(self).started() == old(self).started()
                && final(self).start_times() == old(self).start_times(),
            final(self).in_flight() <= final(self).concurrency(),
    {
        if self.outcomes.len() == self.total {
            return Action::Finished;
        }
        if self.started == self.total || self.started - self.outcomes.len() == self.concurrency {
            return Action::AwaitCompletion;
        }
        match &mut self.limiter {
            Some(limiter) => match limiter.request(now) {
                Permission::Granted => {},
                Permission::Wait { nanos } => {
                    return Action::Pause { nanos };
                },
            },
            None => {},
        }
        self.started = self.started + 1;
        self.starts = Ghost(self.starts@.push(now));
        Action::Start
    }

    /// Collects the outcome of one request in flight. Where none is in flight
    /// the outcome is refused and the engine stays as it was.
    pub fn complete(&mut self, outcome: RequestOutcome) -> (result: Result<(), DispatchError>)
        requires
            old(self).wf(),
        ensures
            final(self).wf(),
            old(self).in_flight() == 0 <==> result == Err::<(), DispatchError>(
                DispatchError::NothingInFlight,
            ),
            old(self).in_flight() > 0 <==> result is Ok,
            final(self).total() == old(self).total(),
            final(self).concurrency() == old(self).concurrency(),
            final(self).interval() == old(self).interval(),
            final(self).started() == old(self).started(),
            final(self).start_times() == old(self).start_times(),
            result is Ok ==> final(self).collected() == old(self).collected().push(outcome),
            result is Err ==> final(self).collected() == old(self).collected(),
    {
        if self.started == self.outcomes.len() {
            return Err(DispatchError::NothingInFlight);
        }
        self.outcomes.push(outcome);
        Ok(())
    }

    /// Whether every outcome of the run has been collected.
    pub fn is_finished(&self) -> (done: bool)
        requires
            self.wf(),
        ensures
            done == (self.collected().len() == self.total()),
    {
        self.outcomes.len() == self.total
    }

    /// The number of requests started and not yet finished.
    pub fn requests_in_flight(&self) -> (n: usize)
        requires
            self.wf(),
        ensures
            n == self.in_flight(),
            n <= self.concurrency(),
    {
        self.started - self.outcomes.len()
    }

    /// The number of requests that are still to be started.
    pub fn requests_pending(&self) -> (n: usize)
        requires
            self.wf(),
        ensures
            n == self.total() - self.started(),
    {
        self.total - self.started
    }

    /// The outcomes collected so far.
    pub fn outcomes(&self) -> (outcomes: &Vec<RequestOutcome>)
        ensures
            outcomes@ == self.collected(),
    {
        &self.outcomes
    }

    /// Ends the run and hands out what was collected.
    pub fn into_outcomes(self) -> (outcomes: Vec<RequestOutcome>)
        ensures
            outcomes@ == self.collected(),
    {
        self.outcomes
    }

    /// At every moment of a run the requests in flight are within the bound,
    /// and the outcomes collected are never more than the run has requests.
    pub proof fn lemma_bounds(&self)
        requires
            self.wf(),
        ensures
            0 <= self.in_flight() <= self.concurrency(),
            self.collected().len() <= self.started() <= self.total(),
            self.start_times().len() == self.started(),
    {
    }

    /// Where starts are paced, any two consecutive starts of a run are at
    /// least the interval apart.
    pub proof fn lemma_starts_are_paced(&self, k: int)
        requires
            self.wf(),
            self.interval() is Some,
            0 <= k,
            k + 1 < self.start_times().len(),
        ensures
            self.start_times()[k + 1] - self.start_times()[k] >= self.interval()->Some_0,
    {
        self.limiter->Some_0.lemma_permissions_are_paced(k);
    }

    /// A run is over exactly when as many outcomes are collected as it has
    /// requests; until then the engine never tells its caller to stop.
    pub proof fn lemma_finished_exactly_at_total(&self, now: u64)
        requires
            self.wf(),
        ensures
            self.next_action(now) == Action::Finished <==> self.collected().len() == self.total(),
    {
    }

    /// Where the engine tells its caller to wait for a completion, a request
    /// is in flight, so a completion is due.
    pub proof fn lemma_waiting_has_request_in_flight(&self, now: u64)
        requires
            self.wf(),
            self.next_action(now) == Action::AwaitCompletion,
        ensures
            self.in_flight() > 0,
    {
    }
}

} // verus!
