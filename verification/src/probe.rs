//! The boundary to the HTTP transport: which targets it accepts, what a
//! response or a transport error becomes, and how a label reads in a report.

use vstd::prelude::*;
use crate::outcome::{
    class_of_label,
    class_text,
    ErrorClass,
    RequestOutcome,
    ERROR_LABEL_BASE,
};
use crate::text::{decimal, push_char, push_decimal, push_text};

verus! {

/// `hyper::Error`, the error of a request that got no response. Nothing is
/// known of what a value holds.
#[verifier::external_type_specification]
#[verifier::external_body]
pub struct ExTransportError(hyper::Error);

/// `hyper::StatusCode`, the status of a response. Nothing is known of what a
/// value holds.
#[verifier::external_type_specification]
#[verifier::external_body]
pub struct ExStatusCode(hyper::StatusCode);

/// `hyper::Error::is_connect`: whether the error came from connecting.
/// Nothing is claimed of the answer.
pub assume_specification[ hyper::Error::is_connect ](error: &hyper::Error) -> (yes: bool)
;

/// `hyper::Error::is_timeout`: whether the error was caused by a timeout.
/// Nothing is claimed of the answer.
pub assume_specification[ hyper::Error::is_timeout ](error: &hyper::Error) -> (yes: bool)
;

/// `hyper::Error::is_parse`: whether the response could not be parsed.
/// Nothing is claimed of the answer.
pub assume_specification[ hyper::Error::is_parse ](error: &hyper::Error) -> (yes: bool)
;

/// `hyper::Error::is_incomplete_message`: whether the connection closed before
/// the response was complete. Nothing is claimed of the answer.
pub assume_specification[ hyper::Error::is_incomplete_message ](error: &hyper::Error) -> (yes:
    bool)
;

/// `hyper::Error::is_canceled`: whether the request was cancelled. Nothing is
/// claimed of the answer.
pub assume_specification[ hyper::Error::is_canceled ](error: &hyper::Error) -> (yes: bool)
;

/// `hyper::StatusCode::as_u16`: the status as a number. Nothing is claimed of
/// the number.
pub assume_specification[ hyper::StatusCode::as_u16 ](status: &hyper::StatusCode) -> (code: u16)
;

/// The reason phrase that the transport knows for a status code, if it knows
/// one.
pub uninterp spec fn canonical_reason(code: u16) -> Option<Seq<char>>;

/// Whether the transport accepts a text as a URI.
pub uninterp spec fn is_uri(text: Seq<char>) -> bool;

/// Whether the transport accepts a text as an HTTP method.
pub uninterp spec fn is_method(text: Seq<char>) -> bool;

/// `hyper::StatusCode::canonical_reason`, on the status that
/// `hyper::StatusCode::from_u16` makes of the code: the reason phrase is a
/// function of the code alone, and a code that is no status has none.
#[verifier::external_body]
fn reason_phrase(code: u16) -> (reason: Option<&'static str>)
    ensures
        match reason {
            Some(text) => canonical_reason(code) == Some(text@),
            None => canonical_reason(code) is None,
        },
{
    match hyper::StatusCode::from_u16(code) {
        Ok(status) => status.canonical_reason(),
        Err(_) => None,
    }
}

/// `str::parse` into `hyper::Uri`: whether the text parses is a function of
/// the text alone.
#[verifier::external_body]
fn parses_as_uri(text: &str) -> (yes: bool)
    ensures
        yes == is_uri(text@),
{
    text.parse::<hyper::Uri>().is_ok()
}

/// `hyper::Method::from_bytes`, on the bytes of the text: whether they make a
/// method is a function of the text alone.
#[verifier::external_body]
fn parses_as_method(text: &str) -> (yes: bool)
    ensures
        yes == is_method(text@),
{
    hyper::Method::from_bytes(text.as_bytes()).is_ok()
}

/// Why a target is refused.
#[derive(Clone, Copy, Debug, PartialEq, Eq)]
pub enum TargetError {
    /// The address with the endpoint path behind it is no URI.
    InvalidEndpoint,
    /// The method is no HTTP method.
    InvalidMethod,
}

/// The verdict on a target, given its full endpoint and what the transport
/// says of the endpoint and of the method: the endpoint is looked at first.
pub open spec fn verdict_of(full: Seq<char>, uri_ok: bool, method_ok: bool) -> Result<
    Seq<char>,
    TargetError,
> {
    if !uri_ok {
        Err(TargetError::InvalidEndpoint)
    } else if !method_ok {
        Err(TargetError::InvalidMethod)
    } else {
        Ok(full)
    }
}

/// The class of a transport error, given what the transport says of it. The
/// first that applies decides: connecting, a timeout, a response that is
/// malformed or incomplete, a cancellation; any other error is of class
/// `Other`.
pub open spec fn class_for(
    connect: bool,
    timeout: bool,
    parse: bool,
    incomplete: bool,
    canceled: bool,
) -> ErrorClass {
    if connect {
        ErrorClass::ConnectionRefused
    } else if timeout {
        ErrorClass::Timeout
    } else if parse || incomplete {
        ErrorClass::MalformedResponse
    } else if canceled {
        ErrorClass::Cancelled
    } else {
        ErrorClass::Other
    }
}

/// The text that stands where the transport knows no reason phrase.
pub open spec fn unknown_reason() -> Seq<char> {
    "<unknown status code>"@
}

/// The text of a status: the code in decimal, a space, and the reason phrase
/// or, where there is none, the text that says so.
pub open spec fn status_line(code: u16, reason: Option<Seq<char>>) -> Seq<char> {
    decimal(code as nat) + seq![' '] + match reason {
        Some(phrase) => phrase,
        None => unknown_reason(),
    }
}

/// The text of a label in a report: the status text for a status code, the
/// name of the class for an error label, and the number itself for any other
/// label.
pub open spec fn label_line(label: u64) -> Seq<char> {
    if label < ERROR_LABEL_BASE {
        status_line(label as u16, canonical_reason(label as u16))
    } else {
        match class_of_label(label) {
            Some(class) => class_text(class),
            None => decimal(label as nat),
        }
    }
}

/// The address with the endpoint path behind it.
pub fn full_endpoint(address: &str, endpoint: &str) -> (full: String)
    ensures
        full@ == address@ + endpoint@,
{
    let mut full = String::new();
    push_text(&mut full, address);
    push_text(&mut full, endpoint);
    full
}

/// The verdict on a target whose endpoint and method the transport has
/// already judged.
pub fn target_verdict(full: String, uri_ok: bool, method_ok: bool) -> (verdict: Result<
    String,
    TargetError,
>)
    ensures
        match verdict {
            Ok(text) => verdict_of(full@, uri_ok, method_ok) == Ok::<Seq<char>, TargetError>(
                text@,
            ),
            Err(error) => verdict_of(full@, uri_ok, method_ok) == Err::<Seq<char>, TargetError>(
                error,
            ),
        },
{
    if !uri_ok {
        Err(TargetError::InvalidEndpoint)
    } else if !method_ok {
        Err(TargetError::InvalidMethod)
    } else {
        Ok(full)
    }
}

/// Checks the target of a run before any request is sent: the full endpoint
/// where the transport accepts it and the method, and else the reason why not.
pub fn check_target(address: &str, endpoint: &str, method: &str) -> (verdict: Result<
    String,
    TargetError,
>)
    ensures
        match verdict {
            Ok(text) => verdict_of(
                address@ + endpoint@,
                is_uri(address@ + endpoint@),
                is_method(method@),
            ) == Ok::<Seq<char>, TargetError>(text@),
            Err(error) => verdict_of(
                address@ + endpoint@,
                is_uri(address@ + endpoint@),
                is_method(method@),
            ) == Err::<Seq<char>, TargetError>(error),
        },
{
    let full = full_endpoint(address, endpoint);
    let uri_ok = parses_as_uri(full.as_str());
    let method_ok = parses_as_method(method);
    target_verdict(full, uri_ok, method_ok)
}

/// The class of a transport error of which the transport has said what it is.
pub fn classify(connect: bool, timeout: bool, parse: bool, incomplete: bool, canceled: bool) -> (class:
    ErrorClass)
    ensures
        class == class_for(connect, timeout, parse, incomplete, canceled),
{
    if connect {
        ErrorClass::ConnectionRefused
    } else if timeout {
        ErrorClass::Timeout
    } else if parse || incomplete {
        ErrorClass::MalformedResponse
    } else if canceled {
        ErrorClass::Cancelled
    } else {
        ErrorClass::Other
    }
}

/// The outcome of one request: a response becomes a success with its status
/// code, a transport error becomes a failure with its class. The elapsed time
/// is kept either way.
pub fn outcome_of(response: &Result<hyper::StatusCode, hyper::Error>, elapsed_nanos: u64) -> (outcome:
    RequestOutcome)
    ensures
        outcome.elapsed_nanos == elapsed_nanos,
        response is Ok <==> outcome.result is Success,
        response is Err <==> outcome.result is Failure,
{
    match response {
        Ok(status) => RequestOutcome::success(status.as_u16(), elapsed_nanos),
        Err(error) => {
            let class = classify(
                error.is_connect(),
                error.is_timeout(),
                error.is_parse(),
                error.is_incomplete_message(),
                error.is_canceled(),
            );
            RequestOutcome::failure(class, elapsed_nanos)
        },
    }
}

/// The text of a status with the given reason phrase.
pub fn status_line_with(code: u16, reason: Option<&str>) -> (text: String)
    ensures
        text@ == status_line(
            code,
            match reason {
                Some(phrase) => Some(phrase@),
                None => None,
            },
        ),
{
    let mut text = String::new();
    push_decimal(&mut text, code as u64);
    push_char(&mut text, ' ');
    match reason {
        Some(phrase) => push_text(&mut text, phrase),
        None => push_text(&mut text, "<unknown status code>"),
    }
    assert(text@ =~= status_line(
        code,
        match reason {
            Some(phrase) => Some(phrase@),
            None => None,
        },
    ));
    text
}

/// The text of a status as the transport words it.
pub fn status_text(code: u16) -> (text: String)
    ensures
        text@ == status_line(code, canonical_reason(code)),
{
    status_line_with(code, reason_phrase(code))
}

/// The text of a label in a report.
pub fn label_text(label: u64) -> (text: String)
    ensures
        text@ == label_line(label),
{
    if label < ERROR_LABEL_BASE {
        status_text(label as u16)
    } else {
        let mut text = String::new();
        match ErrorClass::from_label(label) {
            Some(class) => push_text(&mut text, class.description()),
            None => push_decimal(&mut text, label),
        }
        text
    }
}

} // verus!
