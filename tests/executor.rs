use chromemanagement1::error::Error;
use chromemanagement1::executor::{is_success, Action, CallState, DefaultDelegate, Phase, Retry};
use chromemanagement1::json::parse_server_error;

/// What a fake transport answers to one request.
enum Reply {
    Transient,
    Status(u16, &'static str),
}

/// Runs one call against a transport that answers with `replies` in turn; `retry` decides for
/// every transient failure. Returns the outcome and the number of requests sent.
fn drive(replies: Vec<Reply>, retry: &dyn Fn() -> Retry) -> (Result<serde_json::Value, Error>, usize, CallState) {
    let mut state = CallState::new();
    let mut sent = 0usize;
    loop {
        match state.on_token(Ok(Some("token".to_string()))) {
            Action::Send(Some(t)) => assert_eq!(t, "token"),
            other => panic!("expected a send, got {:?}", other),
        }
        let reply = &replies[sent];
        sent += 1;
        let action = match reply {
            Reply::Transient => state.on_transport_error("connection reset".to_string(), retry()),
            Reply::Status(status, body) if is_success(*status) => {
                let decoded = serde_json::from_str::<serde_json::Value>(body).map_err(|e| e.to_string());
                return (state.on_success(body.to_string(), decoded), sent, state);
            }
            Reply::Status(status, body) => {
                let parsed = parse_server_error(body);
                state.on_failure(*status, body.to_string(), parsed, retry())
            }
        };
        match action {
            Action::Wait(_) => continue,
            Action::Fail(e) => return (Err(e), sent, state),
            Action::Send(_) => panic!("a send after a failure"),
        }
    }
}

#[test]
fn retried_transient_failures_then_success() {
    for n in 0..4 {
        let mut replies: Vec<Reply> = (0..n).map(|_| Reply::Transient).collect();
        replies.push(Reply::Status(200, "{\"appId\":\"com.foo\"}"));
        let (r, sent, state) = drive(replies, &|| Retry::After(0));
        assert_eq!(r.unwrap()["appId"], "com.foo");
        assert_eq!(sent, n + 1);
        assert_eq!(state.attempts, (n + 1) as u64);
        assert_eq!(state.phase, Phase::Done(true));
    }
}

#[test]
fn default_delegate_fails_after_one_attempt() {
    let replies = vec![Reply::Transient, Reply::Status(200, "{}")];
    let (r, sent, state) = drive(replies, &|| DefaultDelegate.http_error(&"reset".to_string()));
    match r {
        Err(Error::HttpError(m)) => assert_eq!(m, "connection reset"),
        other => panic!("expected a transport error, got {:?}", other),
    }
    assert_eq!(sent, 1);
    assert_eq!(state.attempts, 1);
    assert_eq!(state.phase, Phase::Done(false));
}

#[test]
fn body_of_wrong_shape_is_a_decode_error_without_retry() {
    let mut state = CallState::new();
    let _ = state.on_token(Ok(None));
    let body = "{\"appId\": 17}";
    let decoded = serde_json::from_str::<Vec<String>>(body).map_err(|e| e.to_string());
    match state.on_success(body.to_string(), decoded) {
        Err(Error::JsonDecodeError(b, diag)) => {
            assert_eq!(b, body);
            assert!(!diag.is_empty());
        }
        other => panic!("expected a decode error, got {:?}", other),
    }
    assert_eq!(state.attempts, 1);
    assert_eq!(state.phase, Phase::Done(false));
}

#[test]
fn json_error_body_is_a_bad_request() {
    let body = "{\"error\":{\"code\":403,\"message\":\"The caller does not have permission\",\"status\":\"PERMISSION_DENIED\"}}";
    let replies = vec![Reply::Status(403, body)];
    let (r, sent, _) = drive(replies, &|| Retry::Abort);
    match r {
        Err(Error::BadRequest(v)) => {
            assert_eq!(v["error"]["code"], 403);
            assert_eq!(v["error"]["message"], "The caller does not have permission");
        }
        other => panic!("expected a bad request, got {:?}", other),
    }
    assert_eq!(sent, 1);
}

#[test]
fn non_json_error_body_is_a_failure() {
    let body = "<html>Bad Gateway</html>";
    let (r, _, _) = drive(vec![Reply::Status(502, body)], &|| Retry::Abort);
    match r {
        Err(Error::Failure(resp)) => {
            assert_eq!(resp.status, 502);
            assert_eq!(resp.body, body);
        }
        other => panic!("expected a failure, got {:?}", other),
    }
}

#[test]
fn retried_server_failure_then_success() {
    let replies = vec![Reply::Status(503, "{\"error\":{\"code\":503}}"), Reply::Status(200, "[]")];
    let (r, sent, state) = drive(replies, &|| Retry::After(5));
    assert_eq!(r.unwrap(), serde_json::Value::Array(vec![]));
    assert_eq!(sent, 2);
    assert_eq!(state.attempts, 2);
}

#[test]
fn refused_token_is_missing_token() {
    let mut state = CallState::new();
    let decided = DefaultDelegate.token("no credentials".to_string());
    match state.on_token(decided) {
        Action::Fail(Error::MissingToken(m)) => assert_eq!(m, "no credentials"),
        other => panic!("expected a missing token, got {:?}", other),
    }
    assert_eq!(state.attempts, 0);
    assert_eq!(state.phase, Phase::Done(false));
}

#[test]
fn retry_waits_the_delegates_delay() {
    let mut state = CallState::new();
    let _ = state.on_token(Ok(None));
    match state.on_transport_error("timeout".to_string(), Retry::After(250)) {
        Action::Wait(d) => assert_eq!(d, 250),
        other => panic!("expected a wait, got {:?}", other),
    }
    assert_eq!(state.phase, Phase::AcquireToken);
}

#[test]
fn server_error_parsing() {
    assert!(parse_server_error("{\"error\":{}}").is_some());
    assert!(parse_server_error(" 42 ").is_some());
    assert!(parse_server_error("").is_none());
    assert!(parse_server_error("{\"a\":1} trailing").is_none());
}

#[test]
fn success_statuses() {
    assert!(is_success(200));
    assert!(is_success(204));
    assert!(is_success(299));
    assert!(!is_success(199));
    assert!(!is_success(300));
    assert!(!is_success(404));
}

#[test]
fn default_delegate_retries_no_failure() {
    let mut d = DefaultDelegate;
    assert_eq!(d.http_failure(500, &None), Retry::Abort);
    assert_eq!(d.http_error(&"x".to_string()), Retry::Abort);
}
