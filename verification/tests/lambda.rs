use rust_lambda_runtime::config::RuntimeConfig;
use rust_lambda_runtime::headers::{find_header, names_equal};
use rust_lambda_runtime::invocation::{
    assemble_invocation, interpret_fetch, FetchResult, HttpResponse, InvocationRequest,
};
use rust_lambda_runtime::runtime::{process_events, report_for};
use rust_lambda_runtime::uri::{build_uri, error_uri, next_invocation_uri, response_uri};
use rust_lambda_runtime::{LambdaHandler, LambdaStatus};

#[test]
pub fn test_lambda() {}

fn default_config() -> RuntimeConfig {
    RuntimeConfig::resolve(None)
}

fn full_headers() -> Vec<(String, String)> {
    vec![
        ("Lambda-Runtime-Aws-Request-Id".to_string(), "req-1".to_string()),
        ("Lambda-Runtime-Trace-Id".to_string(), "trace-1".to_string()),
        (
            "Lambda-Runtime-Invoked-Function-Arn".to_string(),
            "arn:aws:lambda:us-east-1:123:function:f".to_string(),
        ),
    ]
}

#[test]
fn build_uri_default_endpoint() {
    let uri = build_uri(&default_config(), "/invocation/next");
    assert_eq!(uri, "http://127.0.0.1/2018-06-01/runtime/invocation/next");
}

#[test]
fn build_uri_override_endpoint() {
    let config = RuntimeConfig::resolve(Some("abc:9001".to_string()));
    let uri = build_uri(&config, "/invocation/next");
    assert_eq!(uri, "http://abc:9001/2018-06-01/runtime/invocation/next");
}

#[test]
fn empty_override_falls_back_to_loopback() {
    let config = RuntimeConfig::resolve(Some(String::new()));
    assert_eq!(config.endpoint, "127.0.0.1");
}

#[test]
fn next_invocation_uri_matches_build_uri() {
    let config = default_config();
    assert_eq!(next_invocation_uri(&config), build_uri(&config, "/invocation/next"));
}

#[test]
fn outcome_uris_embed_the_request_id() {
    let config = default_config();
    assert_eq!(
        response_uri(&config, "req-9"),
        "http://127.0.0.1/2018-06-01/runtime/invocation/req-9/response"
    );
    assert_eq!(
        error_uri(&config, "req-9"),
        "http://127.0.0.1/2018-06-01/runtime/invocation/req-9/error"
    );
}

#[test]
fn header_names_match_case_insensitively() {
    assert!(names_equal("Lambda-Runtime-Aws-Request-Id", "lambda-runtime-aws-request-id"));
    assert!(names_equal("LAMBDA-RUNTIME-TRACE-ID", "Lambda-Runtime-Trace-Id"));
    assert!(!names_equal("Lambda-Runtime-Trace-Id", "Lambda-Runtime-Trace-Idx"));
    assert!(!names_equal("a-b", "a_b"));
}

#[test]
fn find_header_ignores_case_and_takes_first_match() {
    let headers = vec![
        ("content-type".to_string(), "application/json".to_string()),
        ("LAMBDA-RUNTIME-AWS-REQUEST-ID".to_string(), "first".to_string()),
        ("lambda-runtime-aws-request-id".to_string(), "second".to_string()),
    ];
    assert_eq!(
        find_header(&headers, "Lambda-Runtime-Aws-Request-Id"),
        Some("first".to_string())
    );
    assert_eq!(find_header(&headers, "missing"), None);
}

#[test]
fn fetch_round_trips_payload_and_metadata() {
    let body = "{\"key1\":\"a\",\"key2\":\"b\"}";
    let expected: serde_json::Value = serde_json::from_str(body).unwrap();
    let response = HttpResponse {
        status: 200,
        headers: full_headers(),
        body: body.to_string(),
    };
    match interpret_fetch::<serde_json::Value>(Some(response)) {
        FetchResult::Present(inv) => {
            assert_eq!(inv.payload, expected);
            assert_eq!(inv.request_id, "req-1");
            assert_eq!(inv.trace_id, "trace-1");
            assert_eq!(inv.function_arn, "arn:aws:lambda:us-east-1:123:function:f");
        }
        _ => panic!("expected an invocation"),
    }
}

#[test]
fn fetch_round_trips_typed_payload() {
    let original = vec![1i64, 2, 3];
    let body = serde_json::to_string(&original).unwrap();
    let response = HttpResponse { status: 200, headers: full_headers(), body };
    match interpret_fetch::<Vec<i64>>(Some(response)) {
        FetchResult::Present(inv) => assert_eq!(inv.payload, original),
        _ => panic!("expected an invocation"),
    }
}

#[test]
fn missing_header_yields_absent_even_when_body_parses() {
    for skip in 0..3 {
        let headers: Vec<(String, String)> = full_headers()
            .into_iter()
            .enumerate()
            .filter(|(i, _)| *i != skip)
            .map(|(_, h)| h)
            .collect();
        let response = HttpResponse {
            status: 200,
            headers,
            body: "\"fine\"".to_string(),
        };
        let fetched = interpret_fetch::<String>(Some(response));
        assert!(matches!(fetched, FetchResult::Absent));
    }
}

#[test]
fn transport_failure_yields_absent() {
    assert!(matches!(interpret_fetch::<String>(None), FetchResult::Absent));
}

#[test]
fn non_2xx_status_yields_absent() {
    let response = HttpResponse {
        status: 500,
        headers: full_headers(),
        body: "\"fine\"".to_string(),
    };
    assert!(matches!(interpret_fetch::<String>(Some(response)), FetchResult::Absent));
}

#[test]
fn malformed_body_is_skipped_not_fatal() {
    let response = HttpResponse {
        status: 200,
        headers: full_headers(),
        body: "{not json".to_string(),
    };
    assert!(matches!(interpret_fetch::<String>(Some(response)), FetchResult::Skipped));
}

#[test]
fn assemble_requires_payload_and_metadata() {
    let fetched = assemble_invocation(Some(7u8), &full_headers());
    match fetched {
        FetchResult::Present(inv) => assert_eq!(inv.payload, 7u8),
        _ => panic!("expected an invocation"),
    }
    assert!(matches!(assemble_invocation::<u8>(None, &full_headers()), FetchResult::Skipped));
    assert!(matches!(assemble_invocation(Some(7u8), &Vec::new()), FetchResult::Absent));
}

#[test]
fn success_report_posts_body_to_response_uri() {
    let report = report_for(&default_config(), "req-1", Ok("okay".to_string()));
    assert_eq!(report.uri, "http://127.0.0.1/2018-06-01/runtime/invocation/req-1/response");
    assert_eq!(report.body, "okay");
}

#[test]
fn failure_report_posts_message_to_error_uri() {
    let report = report_for(&default_config(), "req-1", Err("boom".to_string()));
    assert_eq!(report.uri, "http://127.0.0.1/2018-06-01/runtime/invocation/req-1/error");
    assert_eq!(report.body, "boom");
}

struct FixedHandler {
    outcome: LambdaStatus,
}

impl LambdaHandler<String> for FixedHandler {
    fn handle(&self, _payload: String) -> LambdaStatus {
        self.outcome.clone()
    }
}

fn invocation(id: &str) -> InvocationRequest<String> {
    InvocationRequest {
        payload: "p".to_string(),
        request_id: id.to_string(),
        trace_id: "t".to_string(),
        function_arn: "arn".to_string(),
    }
}

#[test]
fn loop_reports_each_invocation_until_absent() {
    let fetches = vec![
        FetchResult::Present(invocation("a")),
        FetchResult::Present(invocation("b")),
        FetchResult::Present(invocation("c")),
        FetchResult::Absent,
        FetchResult::Present(invocation("d")),
    ];
    let handler = FixedHandler { outcome: Ok("okay".to_string()) };
    let reports = process_events(&default_config(), &handler, fetches);
    assert_eq!(reports.len(), 3);
    assert_eq!(reports[0].uri, "http://127.0.0.1/2018-06-01/runtime/invocation/a/response");
    assert_eq!(reports[1].uri, "http://127.0.0.1/2018-06-01/runtime/invocation/b/response");
    assert_eq!(reports[2].uri, "http://127.0.0.1/2018-06-01/runtime/invocation/c/response");
    assert_eq!(reports[0].body, "okay");
}

#[test]
fn loop_routes_failures_to_error_uri() {
    let fetches = vec![FetchResult::Present(invocation("a")), FetchResult::Absent];
    let handler = FixedHandler { outcome: Err("boom".to_string()) };
    let reports = process_events(&default_config(), &handler, fetches);
    assert_eq!(reports.len(), 1);
    assert_eq!(reports[0].uri, "http://127.0.0.1/2018-06-01/runtime/invocation/a/error");
    assert_eq!(reports[0].body, "boom");
}

#[test]
fn loop_continues_past_skipped_invocations() {
    let fetches = vec![
        FetchResult::Skipped,
        FetchResult::Present(invocation("a")),
        FetchResult::Skipped,
        FetchResult::Present(invocation("b")),
        FetchResult::Absent,
    ];
    let handler = FixedHandler { outcome: Ok("okay".to_string()) };
    let reports = process_events(&default_config(), &handler, fetches);
    assert_eq!(reports.len(), 2);
    assert_eq!(reports[0].uri, "http://127.0.0.1/2018-06-01/runtime/invocation/a/response");
    assert_eq!(reports[1].uri, "http://127.0.0.1/2018-06-01/runtime/invocation/b/response");
}

#[test]
fn loop_with_no_work_reports_nothing() {
    let handler = FixedHandler { outcome: Ok("okay".to_string()) };
    let reports = process_events(&default_config(), &handler, vec![FetchResult::Absent]);
    assert_eq!(reports.len(), 0);
    let reports = process_events::<String, FixedHandler>(&default_config(), &handler, vec![]);
    assert_eq!(reports.len(), 0);
}
