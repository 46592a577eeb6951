use serde_json::Value;
use tailscale_mcp::common::{answered_or, AboutValue, Answered, Done};
use tailscale_mcp::common::{command_failure, document};
use tailscale_mcp::error::ErrorCode;
use tailscale_mcp::json::documents;
use tailscale_mcp::local_debug::{watch_ipn, watch_report, WatchIpnParams};
use tailscale_mcp::local_serve::{serve_set, EndpointParams, ServeSetParams};
use tailscale_mcp::local_status::version;
use tailscale_mcp::tailnet_devices::checked_batch;
use tailscale_mcp::tailnet_policy::{
    validate_request, validation_answer, PolicyShape, Validation, ValidationAnswer, HUJSON, JSON,
};

fn argv(words: &[&str]) -> Vec<String> {
    words.iter().map(|w| w.to_string()).collect()
}

#[test]
fn concatenated_notifications_are_read_one_at_a_time() {
    let stream = "{\n\t\"Version\": \"1.102.2\"\n}\n{\n\t\"Version\": \"1.102.2\"\n}\n";
    assert!(serde_json::from_str::<Value>(stream).is_err());

    let events = documents(stream);
    assert_eq!(events.len(), 2);
    assert_eq!(events[0]["Version"], "1.102.2");
}

#[test]
fn a_half_written_notification_is_dropped_rather_than_losing_the_rest() {
    let events = documents("{\"a\": 1}\n{\"b\": 2}\n{\"c\":");
    assert_eq!(events.len(), 2, "the whole objects survive the truncated one");
}

#[test]
fn an_empty_stream_is_no_events_rather_than_an_error() {
    assert!(documents("").is_empty());
}

#[test]
fn a_watch_answers_with_what_arrived() {
    let plan = watch_ipn(&WatchIpnParams { count: 3, ..WatchIpnParams::default() }).expect("a plan");
    let report = watch_report(&plan, "{\"Version\":\"1.102.2\"}\n", "  warming up \n");
    assert_eq!(report.events.len(), 1);
    assert_eq!(report.asked_for, 3);
    assert_eq!(report.note.as_deref(), Some("warming up"));
}

#[test]
fn a_document_is_read_even_from_a_command_that_failed() {
    let args = argv(&["status", "--json"]);
    let value = document(&args, "  {\"BackendState\": \"Stopped\"}\n", "", false).expect("a document");
    assert_eq!(value["BackendState"], "Stopped");

    let error = document(&args, "not json", "", true).expect_err("not a document");
    assert_eq!(error.code, ErrorCode::CliFailed);
    assert!(error.message.starts_with("`tailscale status --json` did not print JSON: "), "{}", error.message);

    let error = document(&args, "", "permission denied\n", false).expect_err("a refusal");
    assert_eq!(error.code, ErrorCode::CliFailed);
    assert_eq!(error.message, "`tailscale status --json` failed: permission denied");
    assert_eq!(error.message, command_failure(&args, "", "permission denied\n").message);
}

#[test]
fn a_service_call_carries_everything_a_service_needs() {
    let plan = serve_set(&ServeSetParams {
        endpoints: EndpointParams { https: Some(443), ..EndpointParams::default() },
        target: "3000".to_owned(),
        service: Some("web".to_owned()),
        tun: Some(true),
        accept_app_caps: Some(vec!["example.com/cap/a".to_owned()]),
        ..ServeSetParams::default()
    })
    .expect("a valid call");
    assert_eq!(
        plan.args,
        [
            "serve",
            "--bg=true",
            "--yes=true",
            "--https=443",
            "--service=svc:web",
            "--accept-app-caps=example.com/cap/a",
            "--tun=true",
            "3000",
        ]
    );
    assert_eq!(plan.report.service.as_deref(), Some("svc:web"));
    assert!(!plan.report.public);
}

#[test]
fn a_validation_sends_one_body_in_its_own_spelling() {
    let tests = validate_request(true, None).expect("tests");
    assert_eq!(tests.mode, Validation::Tests);
    assert_eq!(tests.media_type, JSON);
    let text = validate_request(false, Some(PolicyShape::Text)).expect("a HuJSON policy");
    assert_eq!(text.media_type, HUJSON);
    let object = validate_request(false, Some(PolicyShape::Object)).expect("a policy object");
    assert_eq!(object.media_type, JSON);
    let error = validate_request(false, Some(PolicyShape::Other)).expect_err("neither");
    assert_eq!(error.code, ErrorCode::InvalidArgs);
    assert!(validate_request(true, Some(PolicyShape::Text)).is_err());
    assert!(validate_request(false, None).is_err());
}

#[test]
fn an_empty_validation_answer_is_a_stated_pass() {
    match validation_answer::<u32>(Validation::Policy, None) {
        ValidationAnswer::Passed { checked } => assert_eq!(checked, "the policy given"),
        other => panic!("{other:?}"),
    }
    match validation_answer(Validation::Tests, Some(7u32)) {
        ValidationAnswer::Found(v) => assert_eq!(v, 7),
        other => panic!("{other:?}"),
    }
}

#[test]
fn a_batch_refusal_names_the_first_bad_entry() {
    let nodes = vec![
        ("n1".to_owned(), vec!["custom:a".to_owned()]),
        ("n2".to_owned(), vec!["custom:b".to_owned(), "node:os".to_owned()]),
        ("n/3".to_owned(), vec![]),
    ];
    let error = match checked_batch(&nodes) {
        Ok(_) => panic!("a bad key was accepted"),
        Err(error) => error,
    };
    assert_eq!(
        error.message,
        "`node:os` on `n2` does not begin with `custom:`; only custom attributes can be set"
    );
}

#[test]
fn an_unstable_build_ranks_below_the_stable_release_after_it() {
    assert!(!version("1.71.0\n").meets_floor);
    assert!(version("1.77.3\n").meets_floor);
}

#[test]
fn an_empty_write_answer_says_what_was_done() {
    let done = Done::new("attribute set")
        .about("device_id", AboutValue::Text("n1".to_owned()))
        .about("changed", AboutValue::Count(2));
    match answered_or::<u32>(None, done) {
        Answered::Done(d) => {
            assert_eq!(d.done, "attribute set");
            assert_eq!(d.about.len(), 2);
            assert_eq!(d.about[0], ("device_id".to_owned(), AboutValue::Text("n1".to_owned())));
            assert_eq!(d.about[1].1, AboutValue::Count(2));
        }
        other => panic!("{other:?}"),
    }
    match answered_or(Some(5u32), Done::new("attribute set")) {
        Answered::Answer(v) => assert_eq!(v, 5),
        other => panic!("{other:?}"),
    }
}

#[test]
fn the_events_come_back_in_the_order_they_were_published() {
    let events = documents("{\"n\": 1}\n{\"n\": 2}\n{\"n\": 3}\n");
    let order: Vec<i64> = events.iter().map(|e| e["n"].as_i64().unwrap()).collect();
    assert_eq!(order, [1, 2, 3]);
}

#[test]
fn an_up_reads_its_state_and_the_login_url_it_names() {
    let reading = tailscale_mcp::local_prefs::connect_reading(
        "{\"BackendState\": \"NeedsLogin\", \"AuthURL\": \"https://login.tailscale.com/a/1\"}\n",
    );
    assert_eq!(reading.state.as_ref().unwrap()["BackendState"], "NeedsLogin");
    assert_eq!(reading.login_url.as_deref(), Some("https://login.tailscale.com/a/1"));
    let plain = tailscale_mcp::local_prefs::connect_reading(
        "To authenticate, visit:\n\n\thttps://login.tailscale.com/a/2\n",
    );
    assert!(plain.state.is_none());
    assert_eq!(plain.login_url.as_deref(), Some("https://login.tailscale.com/a/2"));
}

#[test]
fn a_document_is_the_one_that_was_printed() {
    let value = document(&argv(&["status", "--json"]), "{\"Self\": {\"HostName\": \"box\"}}", "", true)
        .expect("a document");
    assert_eq!(value["Self"]["HostName"], "box");
}

#[test]
fn a_path_refusal_names_the_first_path_that_failed() {
    let policy = tailscale_mcp::path_policy::PathPolicy::Within(vec!["/srv".to_owned()]);
    let params = tailscale_mcp::local_debug::StatParams {
        paths: vec!["/srv/a".to_owned(), " - ".to_owned(), "/etc/x".to_owned()],
    };
    let error = tailscale_mcp::local_debug::stat(&policy, &params).unwrap_err();
    assert_eq!(error.code, ErrorCode::InvalidArgs);
    assert!(error.message.contains("`-` means a stream"));
}
