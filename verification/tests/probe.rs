use loadgen::outcome::{ErrorClass, RequestOutcome};
use loadgen::probe::{
    check_target, classify, full_endpoint, label_text, outcome_of, status_line_with, status_text,
    target_verdict, TargetError,
};

#[test]
fn full_endpoint_is_address_then_path() {
    assert_eq!("http://localhost:8080/health", full_endpoint("http://localhost:8080", "/health"));
    assert_eq!("", full_endpoint("", ""));
}

#[test]
fn target_is_accepted_with_its_full_endpoint() {
    assert_eq!(
        Ok(String::from("http://localhost:8080/health")),
        check_target("http://localhost:8080", "/health", "GET")
    );
    assert_eq!(Ok(String::from("http://a/b")), check_target("http://a", "/b", "PURGE"));
}

#[test]
fn target_with_a_bad_endpoint_is_refused() {
    assert_eq!(Err(TargetError::InvalidEndpoint), check_target("http://a b", "/c", "GET"));
    assert_eq!(Err(TargetError::InvalidEndpoint), check_target("", "", "GET"));
    assert_eq!(Err(TargetError::InvalidEndpoint), check_target("http://a b", "/c", "G T"));
}

#[test]
fn target_with_a_bad_method_is_refused() {
    assert_eq!(Err(TargetError::InvalidMethod), check_target("http://a", "/b", "G T"));
    assert_eq!(Err(TargetError::InvalidMethod), check_target("http://a", "/b", ""));
}

#[test]
fn verdict_looks_at_the_endpoint_first() {
    let full = || String::from("x");
    assert_eq!(Ok(full()), target_verdict(full(), true, true));
    assert_eq!(Err(TargetError::InvalidMethod), target_verdict(full(), true, false));
    assert_eq!(Err(TargetError::InvalidEndpoint), target_verdict(full(), false, true));
    assert_eq!(Err(TargetError::InvalidEndpoint), target_verdict(full(), false, false));
}

#[test]
fn transport_errors_fall_into_classes() {
    assert_eq!(ErrorClass::ConnectionRefused, classify(true, true, true, true, true));
    assert_eq!(ErrorClass::Timeout, classify(false, true, true, true, true));
    assert_eq!(ErrorClass::MalformedResponse, classify(false, false, true, false, true));
    assert_eq!(ErrorClass::MalformedResponse, classify(false, false, false, true, true));
    assert_eq!(ErrorClass::Cancelled, classify(false, false, false, false, true));
    assert_eq!(ErrorClass::Other, classify(false, false, false, false, false));
}

#[test]
fn response_becomes_a_success_with_its_code() {
    let response = Ok(hyper::StatusCode::NOT_FOUND);
    assert_eq!(RequestOutcome::success(404, 5), outcome_of(&response, 5));
    let response = Ok(hyper::StatusCode::OK);
    assert_eq!(RequestOutcome::success(200, 0), outcome_of(&response, 0));
}

#[test]
fn status_text_has_code_and_reason() {
    assert_eq!("200 OK", status_text(200));
    assert_eq!("404 Not Found", status_text(404));
    assert_eq!("503 Service Unavailable", status_text(503));
}

#[test]
fn status_text_without_reason_says_so() {
    assert_eq!("799 <unknown status code>", status_text(799));
    assert_eq!("99 <unknown status code>", status_text(99));
    assert_eq!("0 <unknown status code>", status_text(0));
    assert_eq!("1000 <unknown status code>", status_text(1000));
}

#[test]
fn status_line_takes_the_given_reason() {
    assert_eq!("200 Fine", status_line_with(200, Some("Fine")));
    assert_eq!("200 ", status_line_with(200, Some("")));
    assert_eq!("7 <unknown status code>", status_line_with(7, None));
}

#[test]
fn label_text_of_each_kind_of_label() {
    assert_eq!("200 OK", label_text(200));
    assert_eq!("connection refused", label_text(65536));
    assert_eq!("timeout", label_text(65537));
    assert_eq!("other", label_text(65541));
    assert_eq!("65542", label_text(65542));
    assert_eq!("18446744073709551615", label_text(u64::MAX));
    assert_eq!("timeout", label_text(RequestOutcome::failure(ErrorClass::Timeout, 1).label()));
}
