use loadgen::config::{Config, ConfigError, TaskDefinition};
use loadgen::dispatch::{Action, DispatchEngine, DispatchError};
use loadgen::outcome::{ErrorClass, ProbeResult, RequestOutcome};
use loadgen::summary::{latencies_of_successes, outcome_labels, RequestSummary};
use loadgen::text::{digit, push_decimal};

fn task() -> TaskDefinition {
    TaskDefinition::new(String::from("/health"), String::from("GET"))
}

#[test]
fn task_definition_keeps_its_parts() {
    let t = task();
    assert_eq!("/health", t.api_endpoint());
    assert_eq!("GET", t.method());
}

#[test]
fn config_keeps_valid_settings() {
    let config =
        Config::new(10, 3, Some(500), String::from("http://localhost:8080"), vec![task()]);
    let config = match config {
        Ok(c) => c,
        Err(e) => panic!("refused: {:?}", e),
    };
    assert_eq!(10, config.total_users());
    assert_eq!(3, config.concurrent_users());
    assert_eq!(Some(500), config.start_interval_nanos());
    assert_eq!("http://localhost:8080", config.target_address());
    assert_eq!(1, config.task_definitions().len());
    assert_eq!("/health", config.first_task().api_endpoint());
    let mut engine = config.engine();
    assert_eq!(10, engine.requests_pending());
    assert_eq!(Action::Start, engine.poll(0));
}

fn refusal(total: usize, concurrent: usize, tasks: Vec<TaskDefinition>) -> Option<ConfigError> {
    Config::new(total, concurrent, None, String::from("a"), tasks).err()
}

#[test]
fn config_refuses_what_breaks_a_rule() {
    assert_eq!(Some(ConfigError::NoUsers), refusal(0, 0, vec![]));
    assert_eq!(Some(ConfigError::NoConcurrentUsers), refusal(1, 0, vec![]));
    assert_eq!(Some(ConfigError::ConcurrencyAboveTotal), refusal(2, 3, vec![]));
    assert_eq!(Some(ConfigError::NoTask), refusal(2, 2, vec![]));
    assert_eq!(None, refusal(2, 2, vec![task()]));
}

#[test]
fn engine_needs_a_request_and_a_slot() {
    assert_eq!(Some(DispatchError::NoRequests), DispatchEngine::new(0, 1, None).err());
    assert_eq!(Some(DispatchError::NoRequests), DispatchEngine::new(0, 0, None).err());
    assert_eq!(Some(DispatchError::NoConcurrency), DispatchEngine::new(1, 0, None).err());
    assert!(DispatchEngine::new(1, 1, None).is_ok());
}

#[test]
fn engine_never_exceeds_the_concurrency_bound() {
    let mut engine = DispatchEngine::new(5, 2, None).ok().unwrap();
    assert_eq!(Action::Start, engine.poll(0));
    assert_eq!(Action::Start, engine.poll(0));
    assert_eq!(2, engine.requests_in_flight());
    assert_eq!(Action::AwaitCompletion, engine.poll(0));
    assert_eq!(Action::AwaitCompletion, engine.poll(1_000_000));
    assert_eq!(2, engine.requests_in_flight());
    assert_eq!(Ok(()), engine.complete(RequestOutcome::success(200, 10)));
    assert_eq!(1, engine.requests_in_flight());
    assert_eq!(Action::Start, engine.poll(5));
    assert_eq!(Action::AwaitCompletion, engine.poll(5));
    assert_eq!(2, engine.requests_pending());
}

#[test]
fn engine_collects_every_outcome_once() {
    let total = 7;
    let mut engine = DispatchEngine::new(total, 3, None).ok().unwrap();
    let mut high_water = 0;
    let mut now = 0;
    let mut sent = 0u64;
    loop {
        now += 1;
        match engine.poll(now) {
            Action::Start => {
                sent += 1;
            }
            Action::AwaitCompletion => {
                let outcome = if engine.outcomes().len() % 2 == 0 {
                    RequestOutcome::success(200, now)
                } else {
                    RequestOutcome::failure(ErrorClass::Timeout, now)
                };
                assert_eq!(Ok(()), engine.complete(outcome));
            }
            Action::Pause { nanos } => panic!("unpaced engine paused for {}", nanos),
            Action::Finished => break,
        }
        high_water = high_water.max(engine.requests_in_flight());
    }
    assert_eq!(7, sent);
    assert_eq!(3, high_water);
    assert!(engine.is_finished());
    assert_eq!(0, engine.requests_in_flight());
    let outcomes = engine.into_outcomes();
    assert_eq!(total, outcomes.len());
    let summary = RequestSummary::new(&outcomes);
    assert_eq!(Some(4), summary.status_code.count_of(200));
    assert_eq!(Some(3), summary.status_code.count_of(65537));
    assert_eq!(2, summary.status_code.distinct());
}

#[test]
fn engine_refuses_a_completion_with_nothing_in_flight() {
    let mut engine = DispatchEngine::new(1, 1, None).ok().unwrap();
    let outcome = RequestOutcome::success(204, 1);
    assert_eq!(Err(DispatchError::NothingInFlight), engine.complete(outcome));
    assert_eq!(0, engine.outcomes().len());
    assert_eq!(Action::Start, engine.poll(0));
    assert_eq!(Ok(()), engine.complete(outcome));
    assert_eq!(Err(DispatchError::NothingInFlight), engine.complete(outcome));
    assert_eq!(Action::Finished, engine.poll(0));
    assert_eq!(vec![outcome], engine.into_outcomes());
}

#[test]
fn engine_waits_for_the_tail_in_flight() {
    let mut engine = DispatchEngine::new(2, 2, None).ok().unwrap();
    assert_eq!(Action::Start, engine.poll(0));
    assert_eq!(Action::Start, engine.poll(0));
    assert_eq!(Action::AwaitCompletion, engine.poll(0));
    assert_eq!(Ok(()), engine.complete(RequestOutcome::success(200, 1)));
    assert!(!engine.is_finished());
    assert_eq!(Action::AwaitCompletion, engine.poll(0));
    assert_eq!(Ok(()), engine.complete(RequestOutcome::success(200, 1)));
    assert_eq!(Action::Finished, engine.poll(0));
    assert!(engine.is_finished());
}

#[test]
fn engine_paces_starts_by_the_interval() {
    let mut engine = DispatchEngine::new(3, 3, Some(1_000)).ok().unwrap();
    assert_eq!(Action::Start, engine.poll(500));
    assert_eq!(Action::Pause { nanos: 1_000 }, engine.poll(500));
    assert_eq!(Action::Pause { nanos: 1 }, engine.poll(1_499));
    assert_eq!(Action::Start, engine.poll(1_500));
    assert_eq!(Action::Pause { nanos: 600 }, engine.poll(1_900));
    assert_eq!(Action::Pause { nanos: 1_000 }, engine.poll(1_000));
    assert_eq!(Action::Start, engine.poll(9_000));
    assert_eq!(Action::AwaitCompletion, engine.poll(20_000));
}

#[test]
fn engine_without_interval_starts_up_to_the_bound_at_once() {
    let mut engine = DispatchEngine::new(4, 4, None).ok().unwrap();
    for _ in 0..4 {
        assert_eq!(Action::Start, engine.poll(0));
    }
    assert_eq!(Action::AwaitCompletion, engine.poll(0));
}

#[test]
fn labels_tell_results_apart() {
    assert_eq!(200, RequestOutcome::success(200, 0).label());
    assert_eq!(65535, RequestOutcome::success(u16::MAX, 0).label());
    let classes = [
        ErrorClass::ConnectionRefused,
        ErrorClass::Timeout,
        ErrorClass::MalformedResponse,
        ErrorClass::DnsFailure,
        ErrorClass::Cancelled,
        ErrorClass::Other,
    ];
    for (index, class) in classes.iter().enumerate() {
        let label = RequestOutcome::failure(*class, 0).label();
        assert_eq!(65536 + index as u64, label);
        assert_eq!(Some(*class), ErrorClass::from_label(label));
    }
    assert_eq!(None, ErrorClass::from_label(200));
    assert_eq!(None, ErrorClass::from_label(65542));
}

#[test]
fn error_classes_have_stable_texts() {
    assert_eq!("connection refused", ErrorClass::ConnectionRefused.description());
    assert_eq!("timeout", ErrorClass::Timeout.description());
    assert_eq!("malformed response", ErrorClass::MalformedResponse.description());
    assert_eq!("dns failure", ErrorClass::DnsFailure.description());
    assert_eq!("cancelled", ErrorClass::Cancelled.description());
    assert_eq!("other", ErrorClass::Other.description());
}

#[test]
fn outcome_constructors_fill_the_record() {
    let ok = RequestOutcome::success(201, 42);
    assert_eq!(ProbeResult::Success { status_code: 201 }, ok.result);
    assert_eq!(42, ok.elapsed_nanos);
    assert!(ok.is_success());
    let failed = RequestOutcome::failure(ErrorClass::DnsFailure, 7);
    assert_eq!(ProbeResult::Failure { error_class: ErrorClass::DnsFailure }, failed.result);
    assert!(!failed.is_success());
}

#[test]
fn summary_counts_all_and_times_only_successes() {
    let outcomes = vec![
        RequestOutcome::success(200, 10),
        RequestOutcome::failure(ErrorClass::ConnectionRefused, 1),
        RequestOutcome::success(200, 3),
        RequestOutcome::success(404, 1),
        RequestOutcome::failure(ErrorClass::ConnectionRefused, 2),
        RequestOutcome::success(200, 6),
    ];
    assert_eq!(vec![200, 65536, 200, 404, 65536, 200], outcome_labels(&outcomes));
    assert_eq!(vec![10, 3, 1, 6], latencies_of_successes(&outcomes));
    let summary = RequestSummary::new(&outcomes);
    assert_eq!("[200]: 3, [65536]: 2, [404]: 1", summary.status_code.histogram_as_str());
    let times = summary.response_time.unwrap();
    assert_eq!((20, 4), (times.mean().numerator(), times.mean().denominator()));
    assert_eq!((9, 2), (times.median().numerator(), times.median().denominator()));
    assert_eq!(10, times.percentile_90th());
}

#[test]
fn summary_without_success_has_no_response_time() {
    let outcomes = vec![
        RequestOutcome::failure(ErrorClass::Timeout, 5),
        RequestOutcome::failure(ErrorClass::Other, 6),
    ];
    let summary = RequestSummary::new(&outcomes);
    assert!(summary.response_time.is_err());
    assert_eq!(Some(1), summary.status_code.count_of(65537));
    assert_eq!(Some(1), summary.status_code.count_of(65541));
}

#[test]
fn decimal_text_of_numbers() {
    let mut text = String::from("n=");
    push_decimal(&mut text, 0);
    push_decimal(&mut text, 907);
    assert_eq!("n=0907", text);
    assert_eq!('7', digit(7));
}

#[test]
fn config_gives_the_rate_of_its_interval() {
    let paced = Config::new(1, 1, Some(250_000_000), String::from("a"), vec![task()]);
    let rate = paced.ok().unwrap().max_requests_per_second().unwrap();
    assert_eq!((1_000_000_000, 250_000_000), (rate.numerator(), rate.denominator()));
    assert_eq!(4, rate.floor());
    let unpaced = Config::new(1, 1, None, String::from("a"), vec![task()]);
    assert_eq!(None, unpaced.ok().unwrap().max_requests_per_second());
    let zero = Config::new(1, 1, Some(0), String::from("a"), vec![task()]);
    assert_eq!(None, zero.ok().unwrap().max_requests_per_second());
}
