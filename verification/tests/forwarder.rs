use backend_supervisor::forwarder::{
    status_is_success, BackendEndpoint, CommandError, CommandRequest, Exchange, HttpMethod,
    BACKEND_PORT, FULL_FETCH_TIMEOUT_SECS,
};
use backend_supervisor::text::decimal_string;

fn text_object(members: &[(&str, &str)]) -> serde_json::Map<String, serde_json::Value> {
    let mut object = serde_json::Map::new();
    for (key, text) in members {
        object.insert(key.to_string(), serde_json::Value::String(text.to_string()));
    }
    object
}

#[test]
fn decimal_string_writes_exact_digits() {
    assert_eq!(decimal_string(0), "0");
    assert_eq!(decimal_string(7), "7");
    assert_eq!(decimal_string(10), "10");
    assert_eq!(decimal_string(500), "500");
    assert_eq!(decimal_string(3000), "3000");
    assert_eq!(decimal_string(65535), "65535");
    assert_eq!(decimal_string(1234567890), "1234567890");
    assert_eq!(decimal_string(u64::MAX), "18446744073709551615");
}

#[test]
fn local_endpoint_is_loopback_on_the_backend_port() {
    assert_eq!(BACKEND_PORT, 3000);
    assert_eq!(BackendEndpoint::local(), BackendEndpoint::Local { port: 3000 });
    assert_eq!(BackendEndpoint::local().base_url(), "http://127.0.0.1:3000");
    assert_eq!(BackendEndpoint::Local { port: 8 }.base_url(), "http://127.0.0.1:8");
    assert_eq!(BackendEndpoint::Local { port: 65535 }.base_url(), "http://127.0.0.1:65535");
}

#[test]
fn external_endpoint_is_taken_as_given() {
    let endpoint = BackendEndpoint::external("http://api.example.com".to_string());
    assert_eq!(endpoint.base_url(), "http://api.example.com");
    let with_slash = BackendEndpoint::external("http://api.example.com/".to_string());
    assert_eq!(with_slash.base_url(), "http://api.example.com/");
}

#[test]
fn health_check_plan_is_a_bare_get() {
    let plan = CommandRequest::health_check().plan(&BackendEndpoint::local());
    assert_eq!(plan.method, HttpMethod::Get);
    assert_eq!(plan.url, "http://127.0.0.1:3000/health");
    assert_eq!(plan.body, None);
    assert_eq!(plan.timeout_secs, None);
}

#[test]
fn fetch_cache_plan_posts_the_student_id() {
    let request = CommandRequest::fetch_cache("2021001".to_string());
    let plan = request.plan(&BackendEndpoint::external("http://api.example.com".to_string()));
    assert_eq!(plan.method, HttpMethod::Post);
    assert_eq!(plan.url, "http://api.example.com/api/homework-cache");
    assert_eq!(plan.body, Some(text_object(&[("student_id", "2021001")])));
    assert_eq!(plan.timeout_secs, None);
    let sent = serde_json::to_string(&plan.body.unwrap()).unwrap();
    assert_eq!(sent, "{\"student_id\":\"2021001\"}");
}

#[test]
fn fetch_full_plan_posts_credentials_with_a_time_limit() {
    let request = CommandRequest::fetch_full(
        "2021001".to_string(),
        "s3cret \"quoted\"".to_string(),
        Some("unfinished".to_string()),
    );
    let plan = request.plan(&BackendEndpoint::local());
    assert_eq!(plan.method, HttpMethod::Post);
    assert_eq!(plan.url, "http://127.0.0.1:3000/api/homework-query");
    assert_eq!(FULL_FETCH_TIMEOUT_SECS, 120);
    assert_eq!(plan.timeout_secs, Some(120));
    let body = plan.body.unwrap();
    assert_eq!(body.len(), 3);
    assert_eq!(body.get("student_id"), Some(&serde_json::Value::String("2021001".to_string())));
    assert_eq!(
        body.get("password"),
        Some(&serde_json::Value::String("s3cret \"quoted\"".to_string()))
    );
    assert_eq!(
        body.get("finish_status"),
        Some(&serde_json::Value::String("unfinished".to_string()))
    );
    assert_eq!(
        serde_json::to_string(&body).unwrap(),
        "{\"finish_status\":\"unfinished\",\"password\":\"s3cret \\\"quoted\\\"\",\"student_id\":\"2021001\"}"
    );
}

#[test]
fn body_keeps_texts_apart() {
    let request = CommandRequest::fetch_full("a".to_string(), "b".to_string(), Some("c".to_string()));
    let body = request.body().unwrap();
    assert_eq!(body, text_object(&[("student_id", "a"), ("password", "b"), ("finish_status", "c")]));
    assert_ne!(body, text_object(&[("student_id", "b"), ("password", "a"), ("finish_status", "c")]));
    assert_ne!(body, serde_json::Map::new());
    assert_eq!(CommandRequest::health_check().body(), None);
}

#[test]
fn omitted_finish_status_is_all() {
    let omitted = CommandRequest::fetch_full("2021001".to_string(), "pw".to_string(), None);
    let explicit =
        CommandRequest::fetch_full("2021001".to_string(), "pw".to_string(), Some("all".to_string()));
    assert_eq!(omitted, explicit);
    assert_eq!(
        omitted,
        CommandRequest::FetchFull {
            student_id: "2021001".to_string(),
            password: "pw".to_string(),
            finish_status: "all".to_string(),
        }
    );
    let endpoint = BackendEndpoint::local();
    assert_eq!(omitted.plan(&endpoint), explicit.plan(&endpoint));
    assert_eq!(
        omitted.body().unwrap().get("finish_status"),
        Some(&serde_json::Value::String("all".to_string()))
    );
    let exchange = Exchange::Completed { status: 200, body: "[]".to_string() };
    assert_eq!(omitted.report(exchange.clone()), explicit.report(exchange));
}

#[test]
fn supplied_finish_status_is_kept() {
    let request =
        CommandRequest::fetch_full("1".to_string(), "2".to_string(), Some("finished".to_string()));
    assert_eq!(
        request,
        CommandRequest::FetchFull {
            student_id: "1".to_string(),
            password: "2".to_string(),
            finish_status: "finished".to_string(),
        }
    );
    let empty = CommandRequest::fetch_full("1".to_string(), "2".to_string(), Some(String::new()));
    assert_eq!(
        empty.body().unwrap().get("finish_status"),
        Some(&serde_json::Value::String(String::new()))
    );
}

#[test]
fn routes_methods_and_timeouts() {
    let cache = CommandRequest::fetch_cache("1".to_string());
    let full = CommandRequest::fetch_full("1".to_string(), "2".to_string(), None);
    let health = CommandRequest::health_check();
    assert_eq!(cache.route(), "/api/homework-cache");
    assert_eq!(full.route(), "/api/homework-query");
    assert_eq!(health.route(), "/health");
    assert_eq!(cache.method(), HttpMethod::Post);
    assert_eq!(full.method(), HttpMethod::Post);
    assert_eq!(health.method(), HttpMethod::Get);
    assert_eq!(cache.timeout_secs(), None);
    assert_eq!(full.timeout_secs(), Some(120));
    assert_eq!(health.timeout_secs(), None);
}

#[test]
fn success_is_the_two_hundreds() {
    assert!(!status_is_success(0));
    assert!(!status_is_success(199));
    assert!(status_is_success(200));
    assert!(status_is_success(204));
    assert!(status_is_success(299));
    assert!(!status_is_success(300));
    assert!(!status_is_success(404));
    assert!(!status_is_success(500));
    assert!(!status_is_success(u16::MAX));
}

#[test]
fn health_check_with_500_fails_carrying_the_status() {
    let health = CommandRequest::health_check();
    let exchange = Exchange::Completed { status: 500, body: "boom".to_string() };
    assert_eq!(
        health.conclude(exchange.clone()),
        Err(CommandError::HealthCheckFailed { status: 500 })
    );
    let message = health.report(exchange).unwrap_err();
    assert_eq!(message, "Health check failed with status 500");
    assert!(message.contains("500"));
}

#[test]
fn health_check_with_200_passes_the_body_through() {
    let health = CommandRequest::health_check();
    let exchange = Exchange::Completed { status: 200, body: "ok".to_string() };
    assert_eq!(health.conclude(exchange.clone()), Ok("ok".to_string()));
    assert_eq!(health.report(exchange), Ok("ok".to_string()));
    let odd = Exchange::Completed { status: 204, body: " {not json \u{1F600}\n".to_string() };
    assert_eq!(health.report(odd), Ok(" {not json \u{1F600}\n".to_string()));
}

#[test]
fn health_check_minds_the_status_before_the_body() {
    let health = CommandRequest::health_check();
    let unreadable = Exchange::Unreadable { status: 503, cause: "reset".to_string() };
    assert_eq!(health.conclude(unreadable), Err(CommandError::HealthCheckFailed { status: 503 }));
    let readable_status = Exchange::Unreadable { status: 200, cause: "reset".to_string() };
    assert_eq!(
        health.conclude(readable_status),
        Err(CommandError::ResponseUnreadable { cause: "reset".to_string() })
    );
    assert_eq!(
        health.conclude(Exchange::Completed { status: 199, body: String::new() }),
        Err(CommandError::HealthCheckFailed { status: 199 })
    );
    assert_eq!(
        health.conclude(Exchange::Completed { status: 300, body: String::new() }),
        Err(CommandError::HealthCheckFailed { status: 300 })
    );
}

#[test]
fn fetches_pass_the_body_through_whatever_the_status() {
    let cache = CommandRequest::fetch_cache("1".to_string());
    let full = CommandRequest::fetch_full("1".to_string(), "2".to_string(), None);
    let failing = Exchange::Completed { status: 500, body: "{\"error\":\"x\"}".to_string() };
    assert_eq!(cache.report(failing.clone()), Ok("{\"error\":\"x\"}".to_string()));
    assert_eq!(full.report(failing), Ok("{\"error\":\"x\"}".to_string()));
    let fine = Exchange::Completed { status: 200, body: String::new() };
    assert_eq!(cache.conclude(fine), Ok(String::new()));
}

#[test]
fn no_response_is_request_failed() {
    let cause = "error sending request: connection refused".to_string();
    for request in [
        CommandRequest::health_check(),
        CommandRequest::fetch_cache("1".to_string()),
        CommandRequest::fetch_full("1".to_string(), "2".to_string(), None),
    ] {
        assert_eq!(
            request.conclude(Exchange::Failed { cause: cause.clone() }),
            Err(CommandError::RequestFailed { cause: cause.clone() })
        );
        assert_eq!(
            request.report(Exchange::Failed { cause: cause.clone() }),
            Err("Request failed: error sending request: connection refused".to_string())
        );
    }
}

#[test]
fn timed_out_full_fetch_is_request_failed() {
    let full = CommandRequest::fetch_full("1".to_string(), "2".to_string(), None);
    assert_eq!(full.plan(&BackendEndpoint::local()).timeout_secs, Some(120));
    let message = full.report(Exchange::Failed { cause: "operation timed out".to_string() });
    assert_eq!(message, Err("Request failed: operation timed out".to_string()));
}

#[test]
fn unreadable_response_is_reported_as_such() {
    let cache = CommandRequest::fetch_cache("1".to_string());
    let exchange = Exchange::Unreadable { status: 500, cause: "broken pipe".to_string() };
    assert_eq!(
        cache.conclude(exchange.clone()),
        Err(CommandError::ResponseUnreadable { cause: "broken pipe".to_string() })
    );
    assert_eq!(cache.report(exchange), Err("Failed to read response: broken pipe".to_string()));
}

#[test]
fn error_messages() {
    assert_eq!(
        CommandError::RequestFailed { cause: String::new() }.message(),
        "Request failed: "
    );
    assert_eq!(
        CommandError::ResponseUnreadable { cause: "x".to_string() }.message(),
        "Failed to read response: x"
    );
    assert_eq!(
        CommandError::HealthCheckFailed { status: 0 }.message(),
        "Health check failed with status 0"
    );
    assert_eq!(
        CommandError::HealthCheckFailed { status: 404 }.message(),
        "Health check failed with status 404"
    );
}
