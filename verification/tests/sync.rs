use vercel_ddns::cli::{
    mechanisms, outcome_is_success, outcome_message, run, Action, Args, Event, Mechanism, Outcome,
    SyncState,
};
use vercel_ddns::ip::IpType;
use vercel_ddns::vercel::{ApiFailure, Method, VercelError};

fn config() -> Args {
    Args {
        domain: "example.com".to_string(),
        subdomain: "home".to_string(),
        ip_type: IpType::IPV4,
        ttl: 3600,
        token: "secret".to_string(),
    }
}

#[test]
fn fallback_list_has_two_independent_mechanisms_in_order() {
    let m = mechanisms();
    assert_eq!(m.len(), 2);
    assert_eq!(m[0], Mechanism::OpenDns);
    assert_eq!(m[1], Mechanism::GoogleDns);
}

#[test]
fn begin_queries_the_first_mechanism() {
    let args = config();
    let (state, action) = run(&args, SyncState::Start, Event::Begin);
    assert!(matches!(state, SyncState::Resolving { next: 0 }));
    assert!(matches!(action, Action::Query { mechanism: Mechanism::OpenDns }));
}

#[test]
fn successful_run_submits_the_exact_record() {
    let args = config();
    let (state, _) = run(&args, SyncState::Start, Event::Begin);
    let (state, action) = run(
        &args,
        state,
        Event::Answer { address: Some("203.0.113.7".to_string()) },
    );
    assert!(matches!(state, SyncState::Submitting));
    let request = match action {
        Action::Submit { request } => request,
        other => panic!("expected a submission, got {:?}", other),
    };
    assert_eq!(request.method, Method::Post);
    assert_eq!(request.url, "https://api.vercel.com/v2/domains/example.com/records");
    assert_eq!(request.token, "secret");
    assert_eq!(
        request.body.as_deref(),
        Some("{\"name\":\"home\",\"value\":\"203.0.113.7\",\"type\":\"A\",\"ttl\":3600}")
    );
    let (state, action) = run(
        &args,
        state,
        Event::Response { status: 200, body: String::new() },
    );
    assert!(matches!(state, SyncState::Done { outcome: Outcome::Success }));
    let outcome = match action {
        Action::Report { outcome } => outcome,
        other => panic!("expected the terminal report, got {:?}", other),
    };
    assert!(outcome_is_success(&outcome));
    assert_eq!(outcome_message(&outcome), "Record added / updated successfully.");
}

#[test]
fn first_mechanism_fails_second_answer_wins() {
    let args = config();
    let (state, _) = run(&args, SyncState::Start, Event::Begin);
    let (state, action) = run(&args, state, Event::Answer { address: None });
    assert!(matches!(state, SyncState::Resolving { next: 1 }));
    assert!(matches!(action, Action::Query { mechanism: Mechanism::GoogleDns }));
    let (state, action) = run(
        &args,
        state,
        Event::Answer { address: Some("198.51.100.4".to_string()) },
    );
    assert!(matches!(state, SyncState::Submitting));
    let request = match action {
        Action::Submit { request } => request,
        other => panic!("expected a submission, got {:?}", other),
    };
    assert_eq!(
        request.body.as_deref(),
        Some("{\"name\":\"home\",\"value\":\"198.51.100.4\",\"type\":\"A\",\"ttl\":3600}")
    );
}

#[test]
fn family_mismatch_counts_as_a_failed_mechanism() {
    let args = config();
    let (state, _) = run(&args, SyncState::Start, Event::Begin);
    // A syntactically fine IPv6 answer is not an IPv4 address.
    let (state, action) = run(
        &args,
        state,
        Event::Answer { address: Some("2001:db8::1".to_string()) },
    );
    assert!(matches!(state, SyncState::Resolving { next: 1 }));
    assert!(matches!(action, Action::Query { mechanism: Mechanism::GoogleDns }));
}

#[test]
fn all_mechanisms_failing_never_reaches_the_api() {
    let args = config();
    let (state, action) = run(&args, SyncState::Start, Event::Begin);
    assert!(!matches!(action, Action::Submit { .. }));
    let (state, action) = run(&args, state, Event::Answer { address: None });
    assert!(!matches!(action, Action::Submit { .. }));
    let (state, action) = run(
        &args,
        state,
        Event::Answer { address: Some("999.1.2.3".to_string()) },
    );
    assert!(!matches!(action, Action::Submit { .. }));
    assert!(matches!(state, SyncState::Done { outcome: Outcome::DiscoveryFailed }));
    let outcome = match action {
        Action::Report { outcome } => outcome,
        other => panic!("expected the terminal report, got {:?}", other),
    };
    assert!(!outcome_is_success(&outcome));
    assert_eq!(outcome_message(&outcome), "Unable to get public IP.");
}

#[test]
fn ipv6_run_builds_a_quad_a_record() {
    let args = Args { ip_type: IpType::IPV6, ..config() };
    let (state, _) = run(&args, SyncState::Start, Event::Begin);
    let (_, action) = run(
        &args,
        state,
        Event::Answer { address: Some("2001:db8::1".to_string()) },
    );
    let request = match action {
        Action::Submit { request } => request,
        other => panic!("expected a submission, got {:?}", other),
    };
    assert_eq!(
        request.body.as_deref(),
        Some("{\"name\":\"home\",\"value\":\"2001:db8::1\",\"type\":\"AAAA\",\"ttl\":3600}")
    );
}

#[test]
fn rejected_submission_reports_the_classified_failure() {
    let args = config();
    let (state, _) = run(&args, SyncState::Start, Event::Begin);
    let (state, _) = run(
        &args,
        state,
        Event::Answer { address: Some("203.0.113.7".to_string()) },
    );
    let (state, action) = run(
        &args,
        state,
        Event::Response { status: 403, body: String::new() },
    );
    assert!(matches!(
        state,
        SyncState::Done {
            outcome: Outcome::SubmitFailed {
                failure: ApiFailure::Vercel { error: VercelError::Unauthorized }
            }
        }
    ));
    let outcome = match action {
        Action::Report { outcome } => outcome,
        other => panic!("expected the terminal report, got {:?}", other),
    };
    assert_eq!(
        outcome_message(&outcome),
        "Unable to add / update the record. Unauthorized credentials. Check your Vercel token."
    );
}

#[test]
fn unknown_api_error_is_passed_through_to_the_report() {
    let args = config();
    let (state, _) = run(&args, SyncState::Start, Event::Begin);
    let (state, _) = run(
        &args,
        state,
        Event::Answer { address: Some("203.0.113.7".to_string()) },
    );
    let body = "{\"error\":{\"code\":\"rate_limited\",\"message\":\"Too many requests\"}}";
    let (_, action) = run(
        &args,
        state,
        Event::Response { status: 429, body: body.to_string() },
    );
    let outcome = match action {
        Action::Report { outcome } => outcome,
        other => panic!("expected the terminal report, got {:?}", other),
    };
    assert_eq!(
        outcome_message(&outcome),
        "Unable to add / update the record. Vercel Error rate_limited: Too many requests."
    );
}

#[test]
fn unreadable_api_response_reports_a_malformed_response() {
    let args = config();
    let (state, _) = run(&args, SyncState::Start, Event::Begin);
    let (state, _) = run(
        &args,
        state,
        Event::Answer { address: Some("203.0.113.7".to_string()) },
    );
    let (state, action) = run(
        &args,
        state,
        Event::Response { status: 500, body: "not json".to_string() },
    );
    assert!(matches!(
        state,
        SyncState::Done {
            outcome: Outcome::SubmitFailed { failure: ApiFailure::MalformedResponse }
        }
    ));
    let outcome = match action {
        Action::Report { outcome } => outcome,
        other => panic!("expected the terminal report, got {:?}", other),
    };
    assert_eq!(
        outcome_message(&outcome),
        "Unable to add / update the record. Received a malformed response from the Vercel API."
    );
}
