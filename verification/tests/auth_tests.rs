use huestatus::bridge::auth::{AuthStep, AuthTick, BridgeAuth};
use huestatus::bridge::client::{Exchange, HttpMethod, RequestBody};
use huestatus::bridge::{AuthResult, AuthStatus};
use huestatus::HueStatusError;

fn now_millis() -> i64 {
    chrono::Utc::now().timestamp_millis()
}

fn answered(body: &str) -> Exchange {
    Exchange::Answered { status: 200, status_text: "200 OK".to_string(), body: body.to_string() }
}

#[test]
fn test_bridge_auth_creation() {
    let auth = BridgeAuth::new("192.168.1.100".to_string());
    assert!(auth.is_ok());
}

#[test]
fn test_auth_result_age() {
    let result = AuthResult {
        username: "test-user".to_string(),
        device_type: "huestatus#test".to_string(),
        created_at: now_millis() - 30 * 60 * 1000,
    };

    assert!(result.is_recent()); // 30 minutes is within 1 hour
    assert!(!result.is_old());
    assert!(result.age_string().contains("minutes ago"));
}

#[test]
fn test_auth_result_recent() {
    let result = AuthResult {
        username: "test-user".to_string(),
        device_type: "huestatus#test".to_string(),
        created_at: now_millis() - 10 * 60 * 1000,
    };

    assert!(result.is_recent());
    assert!(!result.is_old());
}

#[test]
fn test_auth_result_old() {
    let result = AuthResult {
        username: "test-user".to_string(),
        device_type: "huestatus#test".to_string(),
        created_at: now_millis() - 45 * 24 * 60 * 60 * 1000,
    };

    assert!(!result.is_recent());
    assert!(result.is_old());
}

#[test]
fn test_auth_status_display() {
    assert_eq!(AuthStatus::WaitingForButton.to_string(), "Waiting for button press");
    assert_eq!(AuthStatus::Timeout.to_string(), "Timeout");
    assert_eq!(AuthStatus::Success("test-user".to_string()).to_string(), "Success (test-user)");
    assert_eq!(AuthStatus::Error("Test error".to_string()).to_string(), "Error: Test error");
}

#[test]
fn test_auth_result_summary() {
    let result = AuthResult {
        username: "test-user".to_string(),
        device_type: "huestatus#test".to_string(),
        created_at: now_millis(),
    };

    let summary = result.summary();
    assert!(summary.contains("test-user"));
    assert!(summary.contains("huestatus#test"));
}

#[test]
fn test_age_in_words_at_fixed_times() {
    let result = AuthResult { username: "u".to_string(), device_type: "d".to_string(), created_at: 1_000 };
    assert_eq!(result.age_string_at(1_000), "just now");
    assert_eq!(result.age_string_at(1_000 + 59_999), "just now");
    assert_eq!(result.age_string_at(1_000 + 60_000), "1 minutes ago");
    assert_eq!(result.age_string_at(1_000 + 3_599_999), "59 minutes ago");
    assert_eq!(result.age_string_at(1_000 + 3_600_000), "1 hours ago");
    assert_eq!(result.age_string_at(1_000 + 86_400_000 * 3), "3 days ago");
    assert_eq!(result.age_string_at(0), "just now");
    assert_eq!(result.age_at(i64::MAX), i64::MAX - 1_000);
    let early = AuthResult { username: "u".to_string(), device_type: "d".to_string(), created_at: i64::MIN };
    assert_eq!(early.age_at(10), i64::MAX);
    assert_eq!(result.summary_at(1_000 + 120_000), "User: u, Device: d, Created: 2 minutes ago");
    assert!(result.is_recent_at(1_000 + 3_599_999));
    assert!(!result.is_recent_at(1_000 + 3_600_000));
    assert!(!result.is_old_at(1_000 + 30 * 86_400_000));
    assert!(result.is_old_at(1_001 + 30 * 86_400_000));
}

#[test]
fn test_credential_request_shape() {
    let auth = BridgeAuth::new("10.0.0.2".to_string()).unwrap();
    let request = auth.credential_request(&BridgeAuth::device_type("app", "inst"));
    assert_eq!(request.method, HttpMethod::Post);
    assert_eq!(request.url, "http://10.0.0.2/api");
    match request.body {
        RequestBody::Auth(body) => assert_eq!(body.devicetype, "app#inst"),
        _ => panic!("expected a request for a credential"),
    }
}

#[test]
fn test_try_authenticate_reads_the_first_element() {
    let auth = BridgeAuth::new("10.0.0.2".to_string()).unwrap();
    assert_eq!(
        auth.try_authenticate(answered(r#"[{"success":{"username":"abc123"}}]"#)).unwrap(),
        "abc123"
    );
    assert_eq!(
        auth.try_authenticate(answered(
            r#"[{"error":{"type":101,"address":"","description":"link button not pressed"}}]"#
        )),
        Err(HueStatusError::LinkButtonNotPressed)
    );
    assert_eq!(
        auth.try_authenticate(answered("[]")),
        Err(HueStatusError::ApiError { message: "Empty response from bridge".to_string() })
    );
    assert_eq!(
        auth.try_authenticate(answered(r#"[{"other":1}]"#)),
        Err(HueStatusError::ApiError { message: "Unexpected response format".to_string() })
    );
    assert_eq!(
        auth.try_authenticate(answered(r#"[{"error":{"type":"x"}}]"#)),
        Err(HueStatusError::JsonError { source: "malformed error in bridge response".to_string() })
    );
    assert!(matches!(
        auth.try_authenticate(answered(r#"{"success":{"username":"abc123"}}"#)),
        Err(HueStatusError::JsonError { .. })
    ));
    assert_eq!(
        auth.try_authenticate(Exchange::TimedOut),
        Err(HueStatusError::TimeoutError { operation: "Authentication request".to_string() })
    );
    assert_eq!(
        auth.try_authenticate(Exchange::Failed { description: "connection reset".to_string() }),
        Err(HueStatusError::NetworkError { source: "connection reset".to_string() })
    );
}

// Five polls find the link button not pressed, the sixth is granted.
#[test]
fn test_authenticate_after_five_waiting_polls() {
    let auth = BridgeAuth::new("192.168.1.100".to_string()).unwrap();
    let waiting = r#"[{"error":{"type":101,"address":"","description":"link button not pressed"}}]"#;
    let granted = r#"[{"success":{"username":"abc123"}}]"#;
    let mut ticks = Vec::new();
    for k in 0..5u64 {
        ticks.push(AuthTick { elapsed_ms: k * 1000, reply: auth.try_authenticate(answered(waiting)) });
    }
    ticks.push(AuthTick { elapsed_ms: 5000, reply: auth.try_authenticate(answered(granted)) });
    let run = auth.authenticate("app", "inst", ticks).unwrap();
    let issued = run.result.unwrap();
    assert_eq!(issued.username, "abc123");
    assert_eq!(issued.device_type, "app#inst");
    assert_eq!(run.requests, 6);
    assert_eq!(run.statuses, vec![AuthStatus::WaitingForButton, AuthStatus::Success("abc123".to_string())]);
}

#[test]
fn test_authenticate_times_out_while_waiting() {
    let auth = BridgeAuth::new("192.168.1.100".to_string()).unwrap().with_timeout(3);
    let mut ticks = Vec::new();
    for k in 0..10u64 {
        ticks.push(AuthTick { elapsed_ms: k * 1000 + 1, reply: Err(HueStatusError::LinkButtonNotPressed) });
    }
    let run = auth.authenticate("app", "inst", ticks).unwrap();
    assert_eq!(run.result, Err(HueStatusError::TimeoutError { operation: "Authentication".to_string() }));
    // Ticks at 1, 1001 and 2001 ms are within 3 s; the tick at 3001 ms is past it.
    assert_eq!(run.requests, 3);
    assert_eq!(run.statuses, vec![AuthStatus::WaitingForButton, AuthStatus::Timeout]);
}

#[test]
fn test_authenticate_deadline_is_inclusive() {
    let auth = BridgeAuth::new("h".to_string()).unwrap().with_timeout(3);
    let ticks = vec![AuthTick { elapsed_ms: 3000, reply: Ok("k".to_string()) }];
    assert!(auth.authenticate("a", "b", ticks).unwrap().result.is_ok());
    let ticks = vec![AuthTick { elapsed_ms: 3001, reply: Ok("k".to_string()) }];
    assert!(auth.authenticate("a", "b", ticks).unwrap().result.is_err());
}

#[test]
fn test_authenticate_stops_at_terminal_error() {
    let auth = BridgeAuth::new("h".to_string()).unwrap();
    let ticks = vec![
        AuthTick { elapsed_ms: 0, reply: Err(HueStatusError::LinkButtonNotPressed) },
        AuthTick { elapsed_ms: 1000, reply: Err(HueStatusError::AuthenticationFailed) },
        AuthTick { elapsed_ms: 2000, reply: Ok("never".to_string()) },
    ];
    let run = auth.authenticate("a", "b", ticks).unwrap();
    assert_eq!(run.result, Err(HueStatusError::AuthenticationFailed));
    assert_eq!(run.requests, 2);
    assert_eq!(
        run.statuses,
        vec![
            AuthStatus::WaitingForButton,
            AuthStatus::Error("Authentication failed. Run 'huestatus --setup' to re-authenticate.".to_string())
        ]
    );
}

#[test]
fn test_authenticate_script_runs_out() {
    let auth = BridgeAuth::new("h".to_string()).unwrap();
    let ticks = vec![AuthTick { elapsed_ms: 0, reply: Err(HueStatusError::LinkButtonNotPressed) }];
    assert!(auth.authenticate("a", "b", ticks).is_none());
    assert!(auth.authenticate("a", "b", vec![]).is_none());
}

#[test]
fn test_poller_steps() {
    let auth = BridgeAuth::new("h".to_string()).unwrap().with_timeout(1);
    assert_eq!(auth.authenticate_begin(), AuthStep::ReadClock);
    assert!(matches!(auth.check_deadline("a#b", 1000), AuthStep::Poll(_)));
    assert!(matches!(auth.check_deadline("a#b", 1001), AuthStep::Done(Err(HueStatusError::TimeoutError { .. }))));
    assert_eq!(auth.after_poll("a#b", Err(HueStatusError::LinkButtonNotPressed)), AuthStep::ReadClock);
    assert_eq!(
        auth.after_poll("a#b", Err(HueStatusError::BridgeNotFound)),
        AuthStep::Done(Err(HueStatusError::BridgeNotFound))
    );
    let huge = BridgeAuth::new("h".to_string()).unwrap().with_timeout(u64::MAX);
    assert!(matches!(huge.check_deadline("a#b", u64::MAX), AuthStep::Poll(_)));
}

#[test]
fn test_test_authentication() {
    let auth = BridgeAuth::new("h".to_string()).unwrap();
    assert_eq!(auth.test_authentication_request("key").url, "http://h/api/key/config");
    assert_eq!(auth.test_authentication(answered(r#"{"bridgeid":"001788"}"#)), Ok(()));
    assert_eq!(auth.test_authentication(answered(r#"{"name":"x"}"#)), Err(HueStatusError::AuthenticationFailed));
    assert_eq!(
        auth.test_authentication(answered(
            r#"[{"error":{"type":1,"address":"/","description":"unauthorized user"}}]"#
        )),
        Err(HueStatusError::AuthenticationFailed)
    );
    assert_eq!(
        auth.test_authentication(Exchange::Answered {
            status: 403,
            status_text: "403 Forbidden".to_string(),
            body: r#"{"bridgeid":"001788"}"#.to_string()
        }),
        Err(HueStatusError::AuthenticationFailed)
    );
    assert_eq!(
        auth.test_authentication(Exchange::TimedOut),
        Err(HueStatusError::TimeoutError { operation: "Authentication test".to_string() })
    );
    assert!(matches!(
        auth.test_authentication(answered("not json")),
        Err(HueStatusError::NetworkError { .. })
    ));
}

#[test]
fn test_transitions() {
    let auth = BridgeAuth::new("h".to_string()).unwrap().with_timeout(1);
    assert_eq!(auth.transition_after_poll(&Ok("k".to_string())), Some(AuthStatus::Success("k".to_string())));
    assert_eq!(auth.transition_after_poll(&Err(HueStatusError::LinkButtonNotPressed)), None);
    assert_eq!(
        auth.transition_after_poll(&Err(HueStatusError::ApiError { message: "m".to_string() })),
        Some(AuthStatus::Error("API error: m".to_string()))
    );
    assert_eq!(auth.transition_at_deadline(&auth.check_deadline("a#b", 1001)), Some(AuthStatus::Timeout));
    assert_eq!(auth.transition_at_deadline(&auth.check_deadline("a#b", 1000)), None);
    assert_eq!(auth.transition_at_deadline(&AuthStep::ReadClock), None);
}

#[test]
fn test_auth_status_of_test() {
    let auth = BridgeAuth::new("h".to_string()).unwrap();
    assert_eq!(auth.get_auth_status("key", Ok(())), AuthStatus::Success("key".to_string()));
    assert_eq!(
        auth.get_auth_status("key", Err(HueStatusError::AuthenticationFailed)),
        AuthStatus::Error("Invalid credentials".to_string())
    );
    assert_eq!(auth.get_auth_status("key", Err(HueStatusError::LinkButtonNotPressed)), AuthStatus::WaitingForButton);
    assert_eq!(
        auth.get_auth_status("key", Err(HueStatusError::ApiError { message: "m".to_string() })),
        AuthStatus::Error("API error: m".to_string())
    );
}

#[test]
fn test_authenticated_client_and_accessibility() {
    let auth = BridgeAuth::new("h".to_string()).unwrap().with_verbose(true);
    let client = auth.create_authenticated_client("key".to_string()).unwrap();
    assert_eq!(client.bridge_ip, "h");
    assert_eq!(client.username, Some("key".to_string()));
    assert!(client.verbose);
    assert_eq!(auth.accessibility_request().url, "http://h/api/0/config");
    assert_eq!(auth.check_bridge_accessibility(&answered("x")), Ok(()));
    assert_eq!(
        auth.check_bridge_accessibility(&Exchange::TimedOut),
        Err(HueStatusError::TimeoutError { operation: "Bridge accessibility check".to_string() })
    );
    assert_eq!(
        auth.check_bridge_accessibility(&Exchange::Failed { description: "refused".to_string() }),
        Err(HueStatusError::BridgeConnectionFailed { reason: "refused".to_string() })
    );
    let quick = auth.quick_authenticate("a", "b", answered(r#"[{"success":{"username":"q"}}]"#)).unwrap();
    assert_eq!(quick.username, "q");
    assert_eq!(quick.device_type, "a#b");
    assert!(quick.created_at > 0);
}

#[test]
fn test_callback_sees_each_transition_once() {
    let auth = BridgeAuth::new("h".to_string()).unwrap();
    let seen = std::cell::RefCell::new(Vec::new());
    let ticks = vec![
        AuthTick { elapsed_ms: 0, reply: Err(HueStatusError::LinkButtonNotPressed) },
        AuthTick { elapsed_ms: 1000, reply: Err(HueStatusError::LinkButtonNotPressed) },
        AuthTick { elapsed_ms: 2000, reply: Ok("key".to_string()) },
    ];
    let run = auth.authenticate_with_callback("a", "b", ticks, |status| seen.borrow_mut().push(status)).unwrap();
    assert_eq!(run.requests, 3);
    assert_eq!(*seen.borrow(), vec![AuthStatus::WaitingForButton, AuthStatus::Success("key".to_string())]);
    seen.borrow_mut().clear();
    assert!(auth.authenticate_with_callback("a", "b", vec![], |status| seen.borrow_mut().push(status)).is_none());
    assert_eq!(*seen.borrow(), vec![AuthStatus::WaitingForButton]);
}
