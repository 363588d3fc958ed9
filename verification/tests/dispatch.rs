use afterparty::{Delivery, Event, Hub, Outcome, Status, Worker};
use std::sync::Arc;
use std::sync::Mutex;

type Log = Arc<Mutex<Vec<String>>>;

fn logging(log: &Log, label: &'static str) -> impl Fn(&Delivery) + Send + Sync + 'static {
    let log = Arc::clone(log);
    move |delivery: &Delivery| {
        let payload = match &delivery.payload {
            Event::Known { kind, .. } => format!("{:?}", kind),
            Event::Opaque { raw } => format!("opaque {}", raw),
        };
        log.lock().unwrap().push(format!("{} {} {} {}", label, delivery.id, delivery.event, payload));
    }
}

fn seen(log: &Log) -> Vec<String> {
    log.lock().unwrap().clone()
}

fn push_and_wildcard(log: &Log) -> Hub {
    let mut hub = Hub::new();
    hub.handle("push", logging(log, "push-hook"));
    hub.handle("*", logging(log, "any-hook"));
    hub
}

const SIGNED_BODY: &str = r#"{"ref":"refs/heads/main","before":"0000","after":"1111","commits":[],"repository":{"name":"r"},"pusher":{"name":"p"}}"#;
const SIGNATURE: &str = "sha1=0a552d15377cda742ac365f323584ef6d22c92a0";
const PING_BODY: &str = r#"{"zen":"Approachable is better than simple.","hook_id":7,"hook":{"id":7}}"#;

#[test]
fn delivery_goes_to_every_interested_hook_in_order() {
    let log = Log::default();
    let hub = push_and_wildcard(&log);
    let response = Worker::from(&hub).call(Some("push"), Some("d-1"), None, Some(SIGNED_BODY.as_bytes()));
    assert_eq!(Status::Success, response.status);
    assert_eq!(200, response.status.code());
    assert_eq!("OK", response.body);
    assert_eq!(vec!["push-hook d-1 push Push", "any-hook d-1 push Push"], seen(&log));
}

#[test]
fn missing_event_header_is_a_bad_request() {
    let log = Log::default();
    let hub = push_and_wildcard(&log);
    let response = Worker::from(&hub).call(None, Some("d-1"), None, Some(b"{}"));
    assert_eq!(Status::BadRequest, response.status);
    assert_eq!(400, response.status.code());
    assert_eq!("invalid request headers", response.body);
    assert!(seen(&log).is_empty());
}

#[test]
fn missing_delivery_header_is_a_bad_request() {
    let log = Log::default();
    let hub = push_and_wildcard(&log);
    let response = Worker::from(&hub).call(Some("push"), None, Some(SIGNATURE), Some(SIGNED_BODY.as_bytes()));
    assert_eq!(Status::BadRequest, response.status);
    assert_eq!("invalid request headers", response.body);
    assert!(seen(&log).is_empty());
}

#[test]
fn headers_are_checked_before_hooks_and_body() {
    let hub = Hub::new();
    let response = Worker::from(&hub).call(None, None, None, None);
    assert_eq!("invalid request headers", response.body);
}

#[test]
fn kind_without_hooks_is_accepted_and_nothing_is_done() {
    let log = Log::default();
    let mut hub = Hub::new();
    hub.handle("push", logging(&log, "push-hook"));
    let worker = Worker::from(&hub);
    let response = worker.call(Some("issues"), Some("d-1"), None, Some(b"{}"));
    assert_eq!(Status::Accepted, response.status);
    assert_eq!(202, response.status.code());
    assert_eq!("no hook configured", response.body);
    assert!(seen(&log).is_empty());
}

#[test]
fn kind_without_hooks_is_answered_without_looking_at_the_body() {
    let hub = Hub::new();
    let worker = Worker::from(&hub);
    for body in [None, Some(&b"not json"[..]), Some(&b"\xff\xfe"[..]), Some(&b"{}"[..])] {
        let response = worker.call(Some("push"), Some("d-1"), None, body);
        assert_eq!(Status::Accepted, response.status);
        assert_eq!("no hook configured", response.body);
    }
}

#[test]
fn unreadable_body_is_a_bad_request() {
    let log = Log::default();
    let hub = push_and_wildcard(&log);
    let response = Worker::from(&hub).call(Some("push"), Some("d-1"), None, None);
    assert_eq!(Status::BadRequest, response.status);
    assert_eq!("failed to read body", response.body);
    assert!(seen(&log).is_empty());
}

#[test]
fn malformed_body_of_a_known_kind_is_a_parse_failure() {
    let log = Log::default();
    let hub = push_and_wildcard(&log);
    let worker = Worker::from(&hub);
    for body in [&b"{\"ref\": "[..], &b""[..], &b"not json"[..], &b"{\"a\":\"\xff"[..]] {
        let response = worker.call(Some("push"), Some("d-1"), None, Some(body));
        assert_eq!(Status::BadRequest, response.status);
        assert_eq!("failed to parse event", response.body);
    }
    assert!(seen(&log).is_empty());
}

#[test]
fn body_that_is_json_only_once_patched_is_a_parse_failure() {
    let log = Log::default();
    let hub = push_and_wildcard(&log);
    let worker = Worker::from(&hub);
    for body in [&b"1,\"X\":2"[..], &b"{},\"X\":{}"[..], &b"null,\"a\":null"[..]] {
        let response = worker.call(Some("push"), Some("d-1"), None, Some(body));
        assert_eq!(Status::BadRequest, response.status);
        assert_eq!("failed to parse event", response.body);
    }
    assert!(seen(&log).is_empty());
}

#[test]
fn body_without_the_shape_of_its_kind_is_a_parse_failure() {
    let log = Log::default();
    let hub = push_and_wildcard(&log);
    let worker = Worker::from(&hub);
    let no_pusher = r#"{"ref":"r","before":"0","after":"1","commits":[],"repository":{}}"#;
    for body in ["{}", "[]", "null", "12", "\"push\"", no_pusher, PING_BODY] {
        let response = worker.call(Some("push"), Some("d-1"), None, Some(body.as_bytes()));
        assert_eq!(Status::BadRequest, response.status);
        assert_eq!("failed to parse event", response.body);
    }
    assert!(seen(&log).is_empty());
}

#[test]
fn unknown_kind_reaches_the_wildcard_hook_with_an_opaque_payload() {
    let log = Log::default();
    let hub = push_and_wildcard(&log);
    let response = Worker::from(&hub).call(Some("workflow_run"), Some("d-9"), None, Some(b"{\"a\": 1}"));
    assert_eq!(Status::Success, response.status);
    assert_eq!("OK", response.body);
    assert_eq!(vec!["any-hook d-9 workflow_run opaque {\"a\": 1}"], seen(&log));
}

#[test]
fn unknown_kind_is_delivered_even_if_its_body_is_not_json() {
    let log = Log::default();
    let hub = push_and_wildcard(&log);
    let response = Worker::from(&hub).call(Some("workflow_run"), Some("d-9"), None, Some(b"<xml/>"));
    assert_eq!(Status::Success, response.status);
    assert_eq!(vec!["any-hook d-9 workflow_run opaque <xml/>"], seen(&log));
}

#[test]
fn known_kind_without_hooks_of_its_own_reaches_the_wildcard_hook() {
    let log = Log::default();
    let hub = push_and_wildcard(&log);
    let response = Worker::from(&hub).call(Some("ping"), Some("d-2"), None, Some(PING_BODY.as_bytes()));
    assert_eq!(Status::Success, response.status);
    assert_eq!(vec!["any-hook d-2 ping Ping"], seen(&log));
}

#[test]
fn body_that_is_not_utf8_is_read_with_replacement_characters() {
    let log = Log::default();
    let hub = push_and_wildcard(&log);
    let response = Worker::from(&hub).call(Some("workflow_run"), Some("d-3"), None, Some(b"a\xffb"));
    assert_eq!(Status::Success, response.status);
    assert_eq!(vec!["any-hook d-3 workflow_run opaque a\u{fffd}b"], seen(&log));
}

#[test]
fn body_that_is_utf8_is_read_as_it_is() {
    let log = Log::default();
    let hub = push_and_wildcard(&log);
    let body = "{\"názov\": \"言語\"}";
    Worker::from(&hub).call(Some("workflow_run"), Some("d-3"), None, Some(body.as_bytes()));
    assert_eq!(vec![format!("any-hook d-3 workflow_run opaque {}", body)], seen(&log));
}

#[test]
fn authenticated_hook_runs_when_the_signature_is_authentic() {
    let log = Log::default();
    let mut hub = Hub::new();
    hub.handle_authenticated("push", "secret", logging(&log, "gated"));
    let response =
        Worker::from(&hub).call(Some("push"), Some("d-4"), Some(SIGNATURE), Some(SIGNED_BODY.as_bytes()));
    assert_eq!(Status::Success, response.status);
    assert_eq!(vec!["gated d-4 push Push"], seen(&log));
}

#[test]
fn failed_authentication_skips_the_hook_and_not_the_response() {
    let log = Log::default();
    let mut hub = Hub::new();
    hub.handle_authenticated("push", "secret", logging(&log, "gated"));
    hub.handle("push", logging(&log, "plain"));
    let worker = Worker::from(&hub);
    let forged = "sha1=0a552d15377cda742ac365f323584ef6d22c92a1";
    for signature in [None, Some(forged), Some("sha1=xyz"), Some("")] {
        let response = worker.call(Some("push"), Some("d-5"), signature, Some(SIGNED_BODY.as_bytes()));
        assert_eq!(Status::Success, response.status);
        assert_eq!("OK", response.body);
    }
    assert_eq!(vec!["plain d-5 push Push"; 4], seen(&log));
}

#[test]
fn authenticated_hook_checks_against_its_own_secret() {
    let log = Log::default();
    let mut hub = Hub::new();
    hub.handle_authenticated("push", "another secret", logging(&log, "other"));
    hub.handle_authenticated("push", "secret", logging(&log, "ours"));
    Worker::from(&hub).call(Some("push"), Some("d-6"), Some(SIGNATURE), Some(SIGNED_BODY.as_bytes()));
    assert_eq!(vec!["ours d-6 push Push"], seen(&log));
}

#[test]
fn screen_settles_what_needs_no_body() {
    let log = Log::default();
    let hub = push_and_wildcard(&log);
    let worker = Worker::from(&hub);
    assert_eq!(Some(Outcome::InvalidHeaders), worker.screen(None, Some("d-1")));
    assert_eq!(Some(Outcome::InvalidHeaders), worker.screen(Some("push"), None));
    assert_eq!(None, worker.screen(Some("push"), Some("d-1")));
    assert_eq!(None, worker.screen(Some("anything"), Some("d-1")));
    let empty = Hub::new();
    assert_eq!(Some(Outcome::NoHook), Worker::from(&empty).screen(Some("push"), Some("d-1")));
    assert!(seen(&log).is_empty());
}

#[test]
fn plan_names_the_hooks_and_the_delivery() {
    let log = Log::default();
    let hub = push_and_wildcard(&log);
    let worker = Worker::from(&hub);
    let plan = worker.plan(Some("push"), Some("d-7"), Some("sha1=00"), Some(SIGNED_BODY));
    assert_eq!(Outcome::Delivered, plan.outcome);
    assert_eq!(2, plan.hooks.len());
    let delivery = plan.delivery.unwrap();
    assert_eq!("d-7", delivery.id);
    assert_eq!("push", delivery.event);
    assert_eq!(SIGNED_BODY, delivery.unparsed_payload);
    assert_eq!(Some("sha1=00"), delivery.signature);
    assert!(seen(&log).is_empty());
}

#[test]
fn plan_without_delivery_names_no_hooks() {
    let log = Log::default();
    let hub = push_and_wildcard(&log);
    let worker = Worker::from(&hub);
    let cases: [(Option<&str>, Option<&str>, Option<&str>, Outcome); 6] = [
        (None, Some("d"), Some("{}"), Outcome::InvalidHeaders),
        (Some("push"), None, Some("{}"), Outcome::InvalidHeaders),
        (Some("push"), Some("d"), None, Outcome::BodyUnreadable),
        (Some("push"), Some("d"), Some("{"), Outcome::ParseFailure),
        (Some("push"), Some("d"), Some("{}"), Outcome::ParseFailure),
        (Some("push"), Some("d"), Some("1,\"X\":2"), Outcome::ParseFailure),
    ];
    for (event, delivery, body, outcome) in cases {
        let plan = worker.plan(event, delivery, None, body);
        assert_eq!(outcome, plan.outcome);
        assert!(plan.delivery.is_none());
        assert!(plan.hooks.is_empty());
    }
    let empty = Hub::new();
    let plan = Worker::from(&empty).plan(Some("push"), Some("d"), None, Some("{}"));
    assert_eq!(Outcome::NoHook, plan.outcome);
    assert!(plan.hooks.is_empty());
}

#[test]
fn every_outcome_has_its_response() {
    let table = [
        (Outcome::InvalidHeaders, Status::BadRequest, 400, "invalid request headers"),
        (Outcome::NoHook, Status::Accepted, 202, "no hook configured"),
        (Outcome::BodyUnreadable, Status::BadRequest, 400, "failed to read body"),
        (Outcome::ParseFailure, Status::BadRequest, 400, "failed to parse event"),
        (Outcome::Delivered, Status::Success, 200, "OK"),
    ];
    for (outcome, status, code, body) in table {
        assert_eq!(status, outcome.status());
        assert_eq!(body, outcome.message());
        let response = outcome.response();
        assert_eq!(status, response.status);
        assert_eq!(code, response.status.code());
        assert_eq!(body, response.body);
    }
}
