//! The settings of one run and the rules that make them valid.

use vstd::prelude::*;
use crate::continuous::{Fraction, Quotient};
use crate::dispatch::DispatchEngine;
use crate::outcome::RequestOutcome;

verus! {

/// One request template: the path below the target address and the HTTP method.
pub struct TaskDefinition {
    api_endpoint: String,
    method: String,
}

impl TaskDefinition {
    /// Builds a task definition from its endpoint path and method.
    pub fn new(api_endpoint: String, method: String) -> (task: Self)
        ensures
            task.endpoint_text() == api_endpoint@,
            task.method_text() == method@,
    {
        TaskDefinition { api_endpoint, method }
    }

    /// The endpoint path as a sequence of characters.
    pub closed spec fn endpoint_text(&self) -> Seq<char> {
        self.api_endpoint@
    }

    /// The method as a sequence of characters.
    pub closed spec fn method_text(&self) -> Seq<char> {
        self.method@
    }

    /// The endpoint path given at construction.
    pub fn api_endpoint(&self) -> (text: &str)
        ensures
            text@ == self.endpoint_text(),
    {
        self.api_endpoint.as_str()
    }

    /// The HTTP method given at construction.
    pub fn method(&self) -> (text: &str)
        ensures
            text@ == self.method_text(),
    {
        self.method.as_str()
    }
}

/// Why a set of settings is refused.
#[derive(Clone, Copy, Debug, PartialEq, Eq)]
pub enum ConfigError {
    /// The run has no request to make.
    NoUsers,
    /// The run may have no request in flight.
    NoConcurrentUsers,
    /// More requests may be in flight together than the run has.
    ConcurrencyAboveTotal,
    /// There is no task definition to take the endpoint and method from.
    NoTask,
}

/// The first rule that the given numbers break, if they break one.
pub open spec fn first_violation(total_users: usize, concurrent_users: usize, tasks: nat) -> Option<
    ConfigError,
> {
    if total_users == 0 {
        Some(ConfigError::NoUsers)
    } else if concurrent_users == 0 {
        Some(ConfigError::NoConcurrentUsers)
    } else if concurrent_users > total_users {
        Some(ConfigError::ConcurrencyAboveTotal)
    } else if tasks == 0 {
        Some(ConfigError::NoTask)
    } else {
        None
    }
}

/// The number of nanoseconds in a second.
pub const NANOS_PER_SECOND: u64 = 1_000_000_000;

/// The largest number of starts per second that an interval between starts
/// allows: a second over the interval. Without an interval, or with one of
/// zero, starts are not paced and there is no such number.
pub open spec fn rate_of(interval: Option<u64>) -> Option<Quotient> {
    match interval {
        Some(d) => if d == 0 {
            None
        } else {
            Some(Quotient { numerator: NANOS_PER_SECOND as int, denominator: d as int })
        },
        None => None,
    }
}

/// The settings of one run. A value of this type has passed every rule.
pub struct Config {
    total_users: usize,
    concurrent_users: usize,
    start_interval_nanos: Option<u64>,
    target_address: String,
    tasks: Vec<TaskDefinition>,
}

impl Config {
    /// The number of requests of the run.
    pub closed spec fn spec_total_users(&self) -> usize {
        self.total_users
    }

    /// The largest number of requests in flight together.
    pub closed spec fn spec_concurrent_users(&self) -> usize {
        self.concurrent_users
    }

    /// The least time between two starts in nanoseconds, where starts are
    /// paced.
    pub closed spec fn spec_start_interval_nanos(&self) -> Option<u64> {
        self.start_interval_nanos
    }

    /// The address that every endpoint path is appended to.
    pub closed spec fn spec_target_address(&self) -> Seq<char> {
        self.target_address@
    }

    /// The task definitions, in the order in which they were given.
    pub closed spec fn spec_task_definitions(&self) -> Seq<TaskDefinition> {
        self.tasks@
    }

    /// The settings break no rule.
    pub open spec fn wf(&self) -> bool {
        first_violation(
            self.spec_total_users(),
            self.spec_concurrent_users(),
            self.spec_task_definitions().len(),
        ) is None
    }

    /// Checks the settings and keeps them. They are refused with the first
    /// rule that they break, and kept unchanged where they break none.
    pub fn new(
        total_users: usize,
        concurrent_users: usize,
        start_interval_nanos: Option<u64>,
        target_address: String,
        tasks: Vec<TaskDefinition>,
    ) -> (result: Result<Config, ConfigError>)
        ensures
            match first_violation(total_users, concurrent_users, tasks@.len()) {
                Some(error) => result == Err::<Config, ConfigError>(error),
                None => {
                    &&& result is Ok
                    &&& result->Ok_0.wf()
                    &&& result->Ok_0.spec_total_users() == total_users
                    &&& result->Ok_0.spec_concurrent_users() == concurrent_users
                    &&& result->Ok_0.spec_start_interval_nanos() == start_interval_nanos
                    &&& result->Ok_0.spec_target_address() == target_address@
                    &&& result->Ok_0.spec_task_definitions() == tasks@
                },
            },
    {
        if total_users == 0 {
            return Err(ConfigError::NoUsers);
        }
        if concurrent_users == 0 {
            return Err(ConfigError::NoConcurrentUsers);
        }
        if concurrent_users > total_users {
            return Err(ConfigError::ConcurrencyAboveTotal);
        }
        if tasks.len() == 0 {
            return Err(ConfigError::NoTask);
        }
        Ok(Config { total_users, concurrent_users, start_interval_nanos, target_address, tasks })
    }

    /// The number of requests of the run.
    pub fn total_users(&self) -> (n: usize)
        ensures
            n == self.spec_total_users(),
    {
        self.total_users
    }

    /// The largest number of requests in flight together.
    pub fn concurrent_users(&self) -> (n: usize)
        ensures
            n == self.spec_concurrent_users(),
    {
        self.concurrent_users
    }

    /// The least time between two starts in nanoseconds, where starts are
    /// paced.
    pub fn start_interval_nanos(&self) -> (interval: Option<u64>)
        ensures
            interval == self.spec_start_interval_nanos(),
    {
        self.start_interval_nanos
    }

    /// The largest number of starts per second, where starts are paced.
    pub fn max_requests_per_second(&self) -> (rate: Option<Fraction>)
        ensures
            match rate {
                Some(f) => rate_of(self.spec_start_interval_nanos()) == Some(f@),
                None => rate_of(self.spec_start_interval_nanos()) is None,
            },
    {
        match self.start_interval_nanos {
            Some(d) => Fraction::new(NANOS_PER_SECOND as u128, d as u128),
            None => None,
        }
    }

    /// The address that every endpoint path is appended to.
    pub fn target_address(&self) -> (text: &str)
        ensures
            text@ == self.spec_target_address(),
    {
        self.target_address.as_str()
    }

    /// The task definitions, in the order in which they were given.
    pub fn task_definitions(&self) -> (tasks: &Vec<TaskDefinition>)
        ensures
            tasks@ == self.spec_task_definitions(),
    {
        &self.tasks
    }

    /// The task definition that the run takes its endpoint and method from: the
    /// first.
    pub fn first_task(&self) -> (task: &TaskDefinition)
        requires
            self.wf(),
        ensures
            *task == self.spec_task_definitions()[0],
    {
        &self.tasks[0]
    }

    /// A fresh engine for a run under these settings.
    pub fn engine(&self) -> (engine: DispatchEngine)
        requires
            self.wf(),
        ensures
            engine.wf(),
            engine.total() == self.spec_total_users(),
            engine.concurrency() == self.spec_concurrent_users(),
            engine.interval() == self.spec_start_interval_nanos(),
            engine.started() == 0,
            engine.collected() == Seq::<RequestOutcome>::empty(),
            engine.start_times() == Seq::<u64>::empty(),
    {
        DispatchEngine::fresh(self.total_users, self.concurrent_users, self.start_interval_nanos)
    }
}

} // verus!
