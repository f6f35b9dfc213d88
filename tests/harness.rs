use ic_mockery::config::{MockConfig, DEFAULT_MAX_STEPS};
use ic_mockery::envelope::{http_response, HttpResponse, MockHttpResult, REJECT_CODE};
use ic_mockery::error::MockError;
use ic_mockery::registry::Registry;
use ic_mockery::scheduler::{DecodeAttempts, Scheduler};
use ic_mockery::service::{GreetRequest, GreetResponse, HelloService, Status};
use ic_mockery::wire::read_request;

fn s(x: &str) -> String {
    x.to_string()
}

fn body(method: &str) -> Vec<u8> {
    format!("{{\"method\":\"{}\",\"args\":[{{\"name\":\"Wizard\"}}]}}", method).into_bytes()
}

fn undecodable() -> DecodeAttempts<u32> {
    DecodeAttempts { canonical: Err(s("not a result")), direct: Err(s("not a u32")) }
}

#[test]
fn registry_refuses_duplicate_method() {
    let mut r: Registry<u32> = Registry::new();
    assert!(r.insert(s("m"), 1).is_ok());
    match r.insert(s("m"), 2) {
        Err(MockError::DuplicateRule { method }) => assert_eq!(method, "m"),
        other => panic!("unexpected {:?}", other),
    }
    assert_eq!(r.len(), 1);
    assert_eq!(r.take(&s("m")), Some(1));
}

#[test]
fn registry_takes_each_rule_once() {
    let mut r: Registry<u32> = Registry::new();
    r.insert(s("a"), 1).unwrap();
    r.insert(s("b"), 2).unwrap();
    assert_eq!(r.take(&s("b")), Some(2));
    assert_eq!(r.take(&s("b")), None);
    assert!(r.contains(&s("a")));
    assert!(!r.contains(&s("b")));
    assert_eq!(r.method_names(), vec![s("a")]);
    assert_eq!(r.take(&s("a")), Some(1));
    assert!(r.is_empty());
}

#[test]
fn registry_keeps_registration_order() {
    let mut r: Registry<()> = Registry::new();
    r.insert(s("z"), ()).unwrap();
    r.insert(s("a"), ()).unwrap();
    r.insert(s("m"), ()).unwrap();
    assert_eq!(r.method_names(), vec![s("z"), s("a"), s("m")]);
}

#[test]
fn read_request_names_method() {
    let req = read_request(&body("greet")).unwrap();
    assert_eq!(req.method, "greet");
    assert_eq!(req.payload["args"][0]["name"], "Wizard");
}

#[test]
fn read_request_without_method_names_empty() {
    let req = read_request(&b"{\"args\":[]}".to_vec()).unwrap();
    assert_eq!(req.method, "");
    let req = read_request(&b"{\"method\":7}".to_vec()).unwrap();
    assert_eq!(req.method, "");
}

#[test]
fn read_request_refuses_non_json() {
    assert!(matches!(read_request(&b"not json".to_vec()), Err(MockError::InvalidBody)));
}

#[test]
fn reply_becomes_status_200_with_json_body() {
    let value = serde_json::Value::from(42);
    match http_response(MockHttpResult::Reply(value)) {
        HttpResponse::Reply { status, headers, body } => {
            assert_eq!(status, 200);
            assert!(headers.is_empty());
            assert_eq!(body, b"42".to_vec());
        }
        HttpResponse::Reject { .. } => panic!("expected a reply"),
    }
    let value: serde_json::Value = serde_json::from_str("{\"ok\":\"hi\"}").unwrap();
    match http_response(MockHttpResult::Reply(value)) {
        HttpResponse::Reply { body, .. } => assert_eq!(body, b"{\"ok\":\"hi\"}".to_vec()),
        HttpResponse::Reject { .. } => panic!("expected a reply"),
    }
}

#[test]
fn failure_rule_rejects_with_its_message() {
    let outcome = MockHttpResult::rejection(s("boom"));
    match http_response(outcome) {
        HttpResponse::Reject { reject_code, message } => {
            assert_eq!(reject_code, 1);
            assert_eq!(reject_code, REJECT_CODE as u64);
            assert_eq!(message, "boom");
        }
        HttpResponse::Reply { .. } => panic!("expected a rejection"),
    }
}

#[test]
fn reject_keeps_its_code() {
    let outcome = MockHttpResult::Reject { code: 4, message: s("no") };
    match http_response(outcome) {
        HttpResponse::Reject { reject_code, message } => {
            assert_eq!(reject_code, 4);
            assert_eq!(message, "no");
        }
        HttpResponse::Reply { .. } => panic!("expected a rejection"),
    }
}

#[test]
fn config_without_call_fails() {
    let c: MockConfig<(), ()> = MockConfig::new();
    assert!(matches!(c.start(), Err(MockError::MissingCall)));
}

#[test]
fn config_missing_call_comes_before_duplicates() {
    let mut c: MockConfig<(), u32> = MockConfig::new();
    c.add_response(s("m"), 1);
    c.add_response(s("m"), 2);
    assert!(matches!(c.start(), Err(MockError::MissingCall)));
}

#[test]
fn config_reports_first_duplicate() {
    let mut c: MockConfig<u32, u32> = MockConfig::new();
    c.set_call();
    c.add_response(s("a"), 1);
    c.add_response(s("a"), 2);
    c.add_expectation(s("b"), 1);
    c.add_expectation(s("b"), 2);
    match c.start() {
        Err(MockError::DuplicateRule { method }) => assert_eq!(method, "a"),
        Err(e) => panic!("unexpected {:?}", e),
        Ok(_) => panic!("expected a usage error"),
    }
}

#[test]
fn config_starts_with_budget() {
    let mut c: MockConfig<(), u32> = MockConfig::new();
    c.set_call();
    c.add_response(s("a"), 1);
    let sched = c.start().ok().unwrap();
    let mut steps = 0;
    let mut sched = sched;
    while sched.wants_step() {
        sched.begin_step();
        steps += 1;
    }
    assert_eq!(steps, DEFAULT_MAX_STEPS);
    let mut c: MockConfig<(), u32> = MockConfig::new();
    c.set_call();
    c.set_max_steps(3);
    c.add_response(s("a"), 1);
    let mut sched = c.start().ok().unwrap();
    let mut steps = 0;
    while sched.wants_step() {
        sched.begin_step();
        steps += 1;
    }
    assert_eq!(steps, 3);
}

#[test]
fn second_request_to_consumed_method_stays_pending() {
    let mut responders: Registry<u32> = Registry::new();
    responders.insert(s("m"), 7).unwrap();
    let mut sched: Scheduler<(), u32> = Scheduler::new(Registry::new(), responders, 10);
    sched.begin_step();
    assert_eq!(sched.match_request(&s("m")).respond, Some(7));
    assert!(!sched.wants_step());
    let mut responders: Registry<u32> = Registry::new();
    responders.insert(s("m"), 7).unwrap();
    responders.insert(s("x"), 8).unwrap();
    let mut sched: Scheduler<(), u32> = Scheduler::new(Registry::new(), responders, 10);
    sched.begin_step();
    assert_eq!(sched.match_request(&s("m")).respond, Some(7));
    assert!(sched.wants_step());
    sched.begin_step();
    let again = sched.match_request(&s("m"));
    assert!(again.respond.is_none());
    assert!(again.check.is_none());
    assert!(sched.step_open());
}

#[test]
fn one_response_per_step() {
    let mut responders: Registry<u32> = Registry::new();
    responders.insert(s("a"), 1).unwrap();
    responders.insert(s("b"), 2).unwrap();
    let mut sched: Scheduler<(), u32> = Scheduler::new(Registry::new(), responders, 10);
    sched.begin_step();
    assert!(sched.step_open());
    assert_eq!(sched.match_request(&s("a")).respond, Some(1));
    assert!(!sched.step_open());
    sched.begin_step();
    assert!(sched.step_open());
    assert_eq!(sched.match_request(&s("b")).respond, Some(2));
}

#[test]
fn assertion_then_response_for_same_request() {
    let mut expectations: Registry<&str> = Registry::new();
    expectations.insert(s("m"), "check").unwrap();
    let mut responders: Registry<u32> = Registry::new();
    responders.insert(s("m"), 3).unwrap();
    let mut sched = Scheduler::new(expectations, responders, 5);
    sched.begin_step();
    let got = sched.match_request(&s("m"));
    assert_eq!(got.check, Some("check"));
    assert_eq!(got.respond, Some(3));
    assert!(!sched.wants_step());
}

// The system under test calls `prepare_greet`, and only once that reply has
// been observed, `greet`; each request appears one step after the previous
// reply was injected.
#[test]
fn two_sequential_requests_resolve_within_budget() {
    let mut responders: Registry<&str> = Registry::new();
    responders.insert(s("prepare_greet"), "prepared").unwrap();
    responders.insert(s("greet"), "greeted").unwrap();
    let mut sched: Scheduler<(), &str> = Scheduler::new(Registry::new(), responders, 10);
    let script = ["prepare_greet", "greet"];
    let mut next = 0;
    let mut answered: Vec<&str> = vec![];
    let mut steps = 0;
    while sched.wants_step() {
        sched.begin_step();
        steps += 1;
        let pending: Vec<String> = if next < script.len() { vec![s(script[next])] } else { vec![] };
        for m in &pending {
            if !sched.step_open() {
                break;
            }
            if let Some(r) = sched.match_request(m).respond {
                answered.push(r);
                next += 1;
            }
        }
    }
    assert_eq!(answered, vec!["prepared", "greeted"]);
    assert_eq!(steps, 2);
    let d = DecodeAttempts { canonical: Err(s("plain")), direct: Ok(5u32) };
    assert_eq!(sched.finish(Ok(d)).unwrap(), 5);
}

#[test]
fn no_rules_resolves_real_outcome() {
    let mut sched: Scheduler<(), ()> = Scheduler::new(Registry::new(), Registry::new(), 50);
    assert!(sched.wants_step());
    sched.begin_step();
    assert!(!sched.wants_step());
    let d = DecodeAttempts { canonical: Err(s("plain")), direct: Ok(9u32) };
    assert_eq!(sched.finish(Ok(d)).unwrap(), 9);
}

#[test]
fn unmet_expectation_is_reported() {
    let mut expectations: Registry<()> = Registry::new();
    expectations.insert(s("m"), ()).unwrap();
    let mut responders: Registry<()> = Registry::new();
    responders.insert(s("r"), ()).unwrap();
    let mut sched = Scheduler::new(expectations, responders, 3);
    while sched.wants_step() {
        sched.begin_step();
        let got = sched.match_request(&s("other"));
        assert!(got.check.is_none() && got.respond.is_none());
    }
    let d = DecodeAttempts { canonical: Ok(Ok(1u32)), direct: Err(s("x")) };
    match sched.finish(Ok(d)) {
        Err(MockError::Unmet { methods }) => assert_eq!(methods, vec![s("m"), s("r")]),
        other => panic!("unexpected {:?}", other),
    }
}

#[test]
fn canonical_ok_round_trips() {
    let sched: Scheduler<(), ()> = Scheduler::new(Registry::new(), Registry::new(), 0);
    let d = DecodeAttempts { canonical: Ok(Ok(s("V"))), direct: Err(s("x")) };
    assert_eq!(sched.finish(Ok(d)).unwrap(), "V");
}

#[test]
fn canonical_err_fails_with_message() {
    let sched: Scheduler<(), ()> = Scheduler::new(Registry::new(), Registry::new(), 0);
    let d: DecodeAttempts<String> = DecodeAttempts { canonical: Ok(Err(s("X"))), direct: Err(s("x")) };
    match sched.finish(Ok(d)) {
        Err(MockError::Rejected { message }) => assert_eq!(message, "X"),
        other => panic!("unexpected {:?}", other),
    }
}

#[test]
fn environment_error_passes_through() {
    let mut responders: Registry<()> = Registry::new();
    responders.insert(s("r"), ()).unwrap();
    let sched: Scheduler<(), ()> = Scheduler::new(Registry::new(), responders, 0);
    match sched.finish::<u32>(Err(s("canister trapped"))) {
        Err(MockError::Environment { message }) => assert_eq!(message, "canister trapped"),
        other => panic!("unexpected {:?}", other),
    }
}

#[test]
fn zero_budget_gives_decode_error_with_exhaustion() {
    let mut responders: Registry<()> = Registry::new();
    responders.insert(s("greet"), ()).unwrap();
    let sched: Scheduler<(), ()> = Scheduler::new(Registry::new(), responders, 0);
    assert!(!sched.wants_step());
    match sched.finish(Ok(undecodable())) {
        Err(MockError::Decode { detail, exhausted, unmatched }) => {
            assert_eq!(detail, "not a u32");
            assert!(exhausted);
            assert_eq!(unmatched, vec![s("greet")]);
        }
        other => panic!("unexpected {:?}", other),
    }
}

#[test]
fn early_stop_is_not_exhaustion() {
    let mut sched: Scheduler<(), ()> = Scheduler::new(Registry::new(), Registry::new(), 4);
    sched.begin_step();
    assert!(!sched.wants_step());
    match sched.finish(Ok(undecodable())) {
        Err(MockError::Decode { exhausted, unmatched, .. }) => {
            assert!(!exhausted);
            assert!(unmatched.is_empty());
        }
        other => panic!("unexpected {:?}", other),
    }
}

#[test]
fn service_types_hold_their_fields() {
    let req = GreetRequest { name: s("Wizard") };
    let resp = GreetResponse { message: req.name.clone(), status: Status::Success };
    assert_eq!(resp.message, "Wizard");
    assert_eq!(resp.status, Status::Success);
    assert_ne!(Status::Error, Status::Success);
    let _service = HelloService;
}

#[test]
fn failed_assertion_stops_stepping() {
    let mut expectations: Registry<()> = Registry::new();
    expectations.insert(s("m"), ()).unwrap();
    let mut responders: Registry<u32> = Registry::new();
    responders.insert(s("m"), 1).unwrap();
    responders.insert(s("n"), 2).unwrap();
    let mut sched = Scheduler::new(expectations, responders, 10);
    sched.begin_step();
    let got = sched.match_request(&s("m"));
    assert!(got.check.is_some());
    match sched.record_check(s("m"), Err(s("bad args"))) {
        Some(MockError::AssertionFailed { method, detail }) => {
            assert_eq!(method, "m");
            assert_eq!(detail, "bad args");
        }
        other => panic!("unexpected {:?}", other),
    }
    assert!(!sched.wants_step());
    assert!(!sched.step_open());
}

#[test]
fn passed_assertion_changes_nothing() {
    let mut expectations: Registry<()> = Registry::new();
    expectations.insert(s("m"), ()).unwrap();
    let mut responders: Registry<u32> = Registry::new();
    responders.insert(s("n"), 2).unwrap();
    let mut sched = Scheduler::new(expectations, responders, 10);
    sched.begin_step();
    assert!(sched.match_request(&s("m")).check.is_some());
    assert!(sched.record_check(s("m"), Ok(())).is_none());
    assert!(sched.step_open());
    assert!(sched.wants_step());
}
