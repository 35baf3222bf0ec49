//! The record of one finished request, and the label under which it is
//! counted.

use vstd::prelude::*;

verus! {

/// The classes of transport failure that a probe can report.
#[derive(Clone, Copy, Debug, PartialEq, Eq, Hash)]
pub enum ErrorClass {
    ConnectionRefused,
    Timeout,
    MalformedResponse,
    DnsFailure,
    Cancelled,
    Other,
}

/// How one request ended: with a status code, or with a failure.
#[derive(Clone, Copy, Debug, PartialEq, Eq, Hash)]
pub enum ProbeResult {
    Success { status_code: u16 },
    Failure { error_class: ErrorClass },
}

/// One finished request: how it ended and how long it took, in nanoseconds
/// from just before the call to just after it resolved.
#[derive(Clone, Copy, Debug, PartialEq, Eq, Hash)]
pub struct RequestOutcome {
    pub result: ProbeResult,
    pub elapsed_nanos: u64,
}

/// The first label that stands for an error class; every label below it is a
/// status code.
pub const ERROR_LABEL_BASE: u64 = 65536;

/// The place of an error class among the classes.
pub open spec fn class_index(class: ErrorClass) -> nat {
    match class {
        ErrorClass::ConnectionRefused => 0,
        ErrorClass::Timeout => 1,
        ErrorClass::MalformedResponse => 2,
        ErrorClass::DnsFailure => 3,
        ErrorClass::Cancelled => 4,
        ErrorClass::Other => 5,
    }
}

/// The label of a result: the status code itself, or the base of the error
/// labels plus the place of the error class.
pub open spec fn label_of(result: ProbeResult) -> u64 {
    match result {
        ProbeResult::Success { status_code } => status_code as u64,
        ProbeResult::Failure { error_class } => (ERROR_LABEL_BASE + class_index(
            error_class,
        )) as u64,
    }
}

/// The error class that a label stands for, if it stands for one.
pub open spec fn class_of_label(label: u64) -> Option<ErrorClass> {
    if label == ERROR_LABEL_BASE {
        Some(ErrorClass::ConnectionRefused)
    } else if label == ERROR_LABEL_BASE + 1 {
        Some(ErrorClass::Timeout)
    } else if label == ERROR_LABEL_BASE + 2 {
        Some(ErrorClass::MalformedResponse)
    } else if label == ERROR_LABEL_BASE + 3 {
        Some(ErrorClass::DnsFailure)
    } else if label == ERROR_LABEL_BASE + 4 {
        Some(ErrorClass::Cancelled)
    } else if label == ERROR_LABEL_BASE + 5 {
        Some(ErrorClass::Other)
    } else {
        None
    }
}

/// The short text that names an error class.
pub open spec fn class_text(class: ErrorClass) -> Seq<char> {
    match class {
        ErrorClass::ConnectionRefused => "connection refused"@,
        ErrorClass::Timeout => "timeout"@,
        ErrorClass::MalformedResponse => "malformed response"@,
        ErrorClass::DnsFailure => "dns failure"@,
        ErrorClass::Cancelled => "cancelled"@,
        ErrorClass::Other => "other"@,
    }
}

/// The labels of a collection of outcomes, one per outcome and in its order.
pub open spec fn labels_of(outcomes: Seq<RequestOutcome>) -> Seq<u64> {
    outcomes.map_values(|o: RequestOutcome| label_of(o.result))
}

/// Whether the request got a response.
pub open spec fn succeeded() -> spec_fn(RequestOutcome) -> bool {
    |o: RequestOutcome| o.result is Success
}

/// The latencies of the requests that got a response, in their order.
pub open spec fn success_latencies(outcomes: Seq<RequestOutcome>) -> Seq<u64> {
    outcomes.filter(succeeded()).map_values(|o: RequestOutcome| o.elapsed_nanos)
}

impl ErrorClass {
    /// The short text that names the class; the same class always has the
    /// same text.
    pub fn description(&self) -> (text: &'static str)
        ensures
            text@ == class_text(*self),
    {
        match self {
            ErrorClass::ConnectionRefused => "connection refused",
            ErrorClass::Timeout => "timeout",
            ErrorClass::MalformedResponse => "malformed response",
            ErrorClass::DnsFailure => "dns failure",
            ErrorClass::Cancelled => "cancelled",
            ErrorClass::Other => "other",
        }
    }

    /// The class that an error label stands for.
    pub fn from_label(label: u64) -> (class: Option<ErrorClass>)
        ensures
            class == class_of_label(label),
    {
        if label == ERROR_LABEL_BASE {
            Some(ErrorClass::ConnectionRefused)
        } else if label == ERROR_LABEL_BASE + 1 {
            Some(ErrorClass::Timeout)
        } else if label == ERROR_LABEL_BASE + 2 {
            Some(ErrorClass::MalformedResponse)
        } else if label == ERROR_LABEL_BASE + 3 {
            Some(ErrorClass::DnsFailure)
        } else if label == ERROR_LABEL_BASE + 4 {
            Some(ErrorClass::Cancelled)
        } else if label == ERROR_LABEL_BASE + 5 {
            Some(ErrorClass::Other)
        } else {
            None
        }
    }
}

impl RequestOutcome {
    /// The outcome of a request that got a response.
    pub fn success(status_code: u16, elapsed_nanos: u64) -> (outcome: Self)
        ensures
            outcome == (RequestOutcome {
                result: ProbeResult::Success { status_code },
                elapsed_nanos,
            }),
    {
        RequestOutcome { result: ProbeResult::Success { status_code }, elapsed_nanos }
    }

    /// The outcome of a request that failed in transport.
    pub fn failure(error_class: ErrorClass, elapsed_nanos: u64) -> (outcome: Self)
        ensures
            outcome == (RequestOutcome {
                result: ProbeResult::Failure { error_class },
                elapsed_nanos,
            }),
    {
        RequestOutcome { result: ProbeResult::Failure { error_class }, elapsed_nanos }
    }

    /// Whether the request got a response.
    pub fn is_success(&self) -> (yes: bool)
        ensures
            yes == (self.result is Success),
    {
        match self.result {
            ProbeResult::Success { .. } => true,
            ProbeResult::Failure { .. } => false,
        }
    }

    /// The label under which the outcome is counted.
    pub fn label(&self) -> (label: u64)
        ensures
            label == label_of(self.result),
    {
        match self.result {
            ProbeResult::Success { status_code } => status_code as u64,
            ProbeResult::Failure { error_class } => {
                let index: u64 = match error_class {
                    ErrorClass::ConnectionRefused => 0,
                    ErrorClass::Timeout => 1,
                    ErrorClass::MalformedResponse => 2,
                    ErrorClass::DnsFailure => 3,
                    ErrorClass::Cancelled => 4,
                    ErrorClass::Other => 5,
                };
                ERROR_LABEL_BASE + index
            },
        }
    }
}

/// The label of a failure stands for the class of that failure, and the label
/// of a response stands for no class.
pub proof fn lemma_label_keeps_the_class(result: ProbeResult)
    ensures
        match result {
            ProbeResult::Failure { error_class } => class_of_label(label_of(result)) == Some(
                error_class,
            ),
            ProbeResult::Success { .. } => class_of_label(label_of(result)) is None,
        },
{
}

/// Two results have the same label only if they are the same result.
pub proof fn lemma_label_is_injective(a: ProbeResult, b: ProbeResult)
    requires
        label_of(a) == label_of(b),
    ensures
        a == b,
{
}

} // verus!
