use rocket_sentry_logger::fairing::{read_body, BodyReading, HookKind, Response, Verdict};
use rocket_sentry_logger::{fairing, log, track_step, LogLevel, Scope, Step, StepType};
use serde_json::Value;

fn sorted(mut keys: Vec<String>) -> Vec<String> {
    keys.sort();
    keys
}

fn response(status: u16, body: &[u8]) -> Response {
    Response { status, body: body.to_vec() }
}

fn text(value: &str) -> Value {
    Value::String(value.to_string())
}

#[test]
fn request_breadcrumb_tells_method_and_path() {
    let hook = fairing(None);
    let mut scope = Scope::new();
    hook.on_request(&mut scope, "DELETE", "/users/7/sessions");
    assert_eq!(scope.breadcrumbs.len(), 1);
    let crumb = &scope.breadcrumbs[0];
    assert_eq!(crumb.ty, "http");
    assert_eq!(crumb.category.as_deref(), Some("request"));
    assert_eq!(crumb.message, None);
    assert_eq!(crumb.level, LogLevel::Info);
    assert_eq!(crumb.data.get("url"), Some(&text("/users/7/sessions")));
    assert_eq!(crumb.data.get("method"), Some(&text("DELETE")));
    assert_eq!(sorted(crumb.data.keys()), vec!["method".to_string(), "url".to_string()]);
}

#[test]
fn request_data_is_made_of_json_strings() {
    let hook = fairing(None);
    let mut scope = Scope::new();
    hook.on_request(&mut scope, "GET", "/a \"quoted\" path");
    let url = scope.breadcrumbs[0].data.get("url").unwrap();
    assert!(url.is_string());
    assert_eq!(url.as_str(), Some("/a \"quoted\" path"));
    assert_eq!(url.to_string(), "\"/a \\\"quoted\\\" path\"");
}

#[test]
fn request_starts_the_trail_afresh() {
    let hook = fairing(None);
    let mut scope = Scope::new();
    hook.on_request(&mut scope, "GET", "/first");
    track_step(&mut scope, Step::new(StepType::Info, "cache", "miss", LogLevel::Info, None));
    rocket_sentry_logger::set_tag(&mut scope, "region", "eu");
    hook.on_request(&mut scope, "GET", "/second");
    assert_eq!(scope.breadcrumbs.len(), 1);
    assert_eq!(scope.breadcrumbs[0].data.get("url"), Some(&text("/second")));
    assert_eq!(scope.tags.get("region"), Some(&"eu".to_string()));
}

#[test]
fn request_breadcrumb_is_stamped_with_the_present_time() {
    let before = std::time::SystemTime::now();
    let hook = fairing(None);
    let mut scope = Scope::new();
    hook.on_request(&mut scope, "GET", "/");
    let after = std::time::SystemTime::now();
    assert!(before <= scope.breadcrumbs[0].timestamp);
    assert!(scope.breadcrumbs[0].timestamp <= after);
}

#[test]
fn ignored_not_found_is_not_reported() {
    let hook = fairing(Some(vec![404]));
    let mut scope = Scope::new();
    hook.on_request(&mut scope, "GET", "/orders/42");
    let (out, report) = hook.on_response(&mut scope, response(404, b"no such order"));
    assert!(report.is_none());
    assert_eq!(scope.breadcrumbs.len(), 1);
    assert_eq!(scope.breadcrumbs[0].data.get("url"), Some(&text("/orders/42")));
    assert_eq!(scope.breadcrumbs[0].data.get("method"), Some(&text("GET")));
    assert_eq!(out.status, 404);
    assert_eq!(out.body, b"no such order".to_vec());
    assert!(scope.extras.keys().is_empty());
}

#[test]
fn unsuccessful_body_is_reported_by_its_text() {
    let hook = fairing(None);
    let mut scope = Scope::new();
    hook.on_request(&mut scope, "POST", "/orders");
    let body = b"{\"success\":false,\"error\":\"out of stock\"}";
    let (out, report) = hook.on_response(&mut scope, response(200, body));
    let event = report.expect("one report");
    assert_eq!(event.message, "{\"success\":false,\"error\":\"out of stock\"}");
    assert_eq!(event.level, LogLevel::Error);
    assert_eq!(event.scope.breadcrumbs.len(), 1);
    assert_eq!(event.scope.breadcrumbs[0].data.get("url"), Some(&text("/orders")));
    assert_eq!(out.body, body.to_vec());
    assert!(scope.extras.keys().is_empty());
    assert!(event.scope.extras.keys().is_empty());
}

#[test]
fn bad_status_is_reported_by_its_reason() {
    let hook = fairing(Some(vec![404]));
    let mut scope = Scope::new();
    let body = b"{\"error\":\"boom\",\"code\":17}";
    let (out, report) = hook.on_response(&mut scope, response(500, body));
    let event = report.expect("one report");
    assert_eq!(event.message, "Internal Server Error");
    assert_eq!(event.level, LogLevel::Error);
    let parsed: Value = serde_json::from_str("{\"code\":17,\"error\":\"boom\"}").unwrap();
    assert_eq!(event.scope.extras.get("Response"), Some(&parsed));
    assert_eq!(scope.extras.get("Response"), Some(&parsed));
    assert_eq!(out.status, 500);
    assert_eq!(out.body, body.to_vec());
}

#[test]
fn lowest_bad_status_is_reported() {
    let hook = fairing(None);
    let mut scope = Scope::new();
    let (_, report) = hook.on_response(&mut scope, response(400, b""));
    assert_eq!(report.expect("one report").message, "Bad Request");
    let (_, report) = hook.on_response(&mut scope, response(399, b""));
    assert!(report.is_none());
}

#[test]
fn status_without_a_name_is_reported_by_its_class() {
    let hook = fairing(None);
    let mut scope = Scope::new();
    let (_, report) = hook.on_response(&mut scope, response(499, b""));
    assert_eq!(report.expect("one report").message, "Client Error");
    let (_, report) = hook.on_response(&mut scope, response(599, b""));
    assert_eq!(report.expect("one report").message, "Server Error");
    let (out, report) = hook.on_response(&mut scope, response(65535, b"x"));
    assert_eq!(report.expect("one report").message, "Unknown");
    assert_eq!(out.status, 65535);
}

#[test]
fn bad_status_with_plain_text_body_leaves_no_extra() {
    let hook = fairing(None);
    let mut scope = Scope::new();
    let (out, report) = hook.on_response(&mut scope, response(502, b"upstream is down"));
    let event = report.expect("one report");
    assert_eq!(event.message, "Bad Gateway");
    assert_eq!(event.scope.extras.get("Response"), None);
    assert_eq!(scope.extras.get("Response"), None);
    assert_eq!(out.body, b"upstream is down".to_vec());
}

#[test]
fn bad_status_with_binary_body_is_still_reported() {
    let hook = fairing(None);
    let mut scope = Scope::new();
    let body = [0xff_u8, 0xfe, 0x00, 0x7b];
    let (out, report) = hook.on_response(&mut scope, response(503, &body));
    assert_eq!(report.expect("one report").message, "Service Unavailable");
    assert_eq!(scope.extras.get("Response"), None);
    assert_eq!(out.body, body.to_vec());
}

#[test]
fn status_comes_before_the_success_flag() {
    let hook = fairing(None);
    let mut scope = Scope::new();
    let (_, report) = hook.on_response(&mut scope, response(422, b"{\"success\":false}"));
    assert_eq!(report.expect("one report").message, "Unprocessable Entity");
    let (_, report) = hook.on_response(&mut scope, response(500, b"{\"success\":true}"));
    assert_eq!(report.expect("one report").message, "Internal Server Error");
}

#[test]
fn ignore_list_comes_before_everything() {
    let hook = fairing(Some(vec![500, 200]));
    let mut scope = Scope::new();
    let (_, report) = hook.on_response(&mut scope, response(500, b"{\"a\":1}"));
    assert!(report.is_none());
    assert_eq!(scope.extras.get("Response"), None);
    let (_, report) = hook.on_response(&mut scope, response(200, b"{\"success\":false}"));
    assert!(report.is_none());
    let (_, report) = hook.on_response(&mut scope, response(201, b"{\"success\":false}"));
    assert!(report.is_some());
}

#[test]
fn successful_or_silent_bodies_are_not_reported() {
    let hook = fairing(None);
    let mut scope = Scope::new();
    let bodies: Vec<&[u8]> = vec![
        b"{\"success\":true}",
        b"{\"data\":[1,2,3]}",
        b"{\"success\":\"false\"}",
        b"{\"success\":0}",
        b"{\"success\":null}",
        b"{\"result\":{\"success\":false}}",
        b"[{\"success\":false}]",
        b"false",
        b"\"success: false\"",
        b"{\"success\":false",
        b"success=false",
        b"",
        b"\xff\xfe",
    ];
    for body in bodies {
        for status in [200_u16, 204, 302, 399] {
            let (out, report) = hook.on_response(&mut scope, response(status, body));
            assert!(report.is_none());
            assert_eq!(out.body, body.to_vec());
        }
    }
    assert!(scope.extras.keys().is_empty());
}

#[test]
fn success_flag_is_found_among_other_members() {
    let hook = fairing(None);
    let mut scope = Scope::new();
    let body = b" { \"id\": 9, \"success\" : false, \"items\": [] } \n";
    let (_, report) = hook.on_response(&mut scope, response(302, body));
    assert_eq!(report.expect("one report").message, " { \"id\": 9, \"success\" : false, \"items\": [] } \n");
}

#[test]
fn body_text_is_not_cut_or_escaped() {
    let hook = fairing(None);
    let mut scope = Scope::new();
    let body = "{\"success\":false,\"error\":\"épuisé – 在庫なし\"}";
    let (out, report) = hook.on_response(&mut scope, response(200, body.as_bytes()));
    assert_eq!(report.expect("one report").message, body);
    assert_eq!(out.body, body.as_bytes().to_vec());
}

#[test]
fn report_carries_the_scope_of_the_request() {
    let hook = fairing(None);
    let mut scope = Scope::new();
    hook.on_request(&mut scope, "PUT", "/cart");
    track_step(&mut scope, Step::new(StepType::Debug, "stock", "checked", LogLevel::Debug, None));
    rocket_sentry_logger::set_tag(&mut scope, "tenant", "acme");
    let (_, report) = hook.on_response(&mut scope, response(500, b"[]"));
    let event = report.expect("one report");
    assert_eq!(event.scope.breadcrumbs.len(), 2);
    assert_eq!(event.scope.breadcrumbs[0].ty, "http");
    assert_eq!(event.scope.breadcrumbs[1].category.as_deref(), Some("stock"));
    assert_eq!(event.scope.tags.get("tenant"), Some(&"acme".to_string()));
    assert_eq!(event.scope.extras.get("Response"), Some(&Value::Array(vec![])));
}

#[test]
fn later_response_replaces_the_extra() {
    let hook = fairing(None);
    let mut scope = Scope::new();
    hook.on_response(&mut scope, response(500, b"1"));
    hook.on_response(&mut scope, response(500, b"\"two\""));
    assert_eq!(scope.extras.get("Response"), Some(&text("two")));
    assert_eq!(sorted(scope.extras.keys()), vec!["Response".to_string()]);
}

#[test]
fn reading_tells_binary_text_and_document_apart() {
    assert!(matches!(read_body(&[0xc3, 0x28]), BodyReading::Binary));
    match read_body(b"not json") {
        BodyReading::Text(text) => assert_eq!(text, "not json"),
        other => panic!("no text: {:?}", other),
    }
    match read_body(b"{\"success\":true,\"n\":1}") {
        BodyReading::Document { text, document, success } => {
            assert_eq!(text, "{\"success\":true,\"n\":1}");
            assert_eq!(document.get("n").and_then(Value::as_u64), Some(1));
            assert_eq!(success, Some(true));
        }
        other => panic!("no document: {:?}", other),
    }
    match read_body(b"{\"success\":{}}") {
        BodyReading::Document { success, .. } => assert_eq!(success, None),
        other => panic!("no document: {:?}", other),
    }
    match read_body(b"null") {
        BodyReading::Document { document, success, .. } => {
            assert_eq!(document, Value::Null);
            assert_eq!(success, None);
        }
        other => panic!("no document: {:?}", other),
    }
    assert_eq!(read_body(b"{\"success\":false}").success(), Some(false));
    assert_eq!(read_body(b"{}").success(), None);
    assert_eq!(read_body(b"nope").success(), None);
}

#[test]
fn deeply_nested_body_is_read_as_text() {
    let body = "[".repeat(200) + &"]".repeat(200);
    assert!(matches!(read_body(body.as_bytes()), BodyReading::Text(_)));
    let shallow = "[".repeat(100) + &"]".repeat(100);
    assert!(matches!(read_body(shallow.as_bytes()), BodyReading::Document { .. }));
}

#[test]
fn verdicts_follow_the_order_of_the_rules() {
    let hook = fairing(Some(vec![404, 410]));
    assert_eq!(hook.judge(404, None), Verdict::Ignored);
    assert_eq!(hook.judge(410, Some(false)), Verdict::Ignored);
    assert_eq!(hook.judge(400, None), Verdict::BadStatus);
    assert_eq!(hook.judge(65535, Some(true)), Verdict::BadStatus);
    assert_eq!(hook.judge(399, Some(false)), Verdict::Unsuccessful);
    assert_eq!(hook.judge(0, Some(false)), Verdict::Unsuccessful);
    assert_eq!(hook.judge(200, Some(true)), Verdict::Sound);
    assert_eq!(hook.judge(200, None), Verdict::Sound);
    assert!(hook.is_ignored(410));
    assert!(!hook.is_ignored(411));
    assert!(!fairing(None).is_ignored(404));
    assert!(!fairing(Some(vec![])).is_ignored(404));
}

#[test]
fn conclude_goes_by_the_reading_it_is_given() {
    let hook = fairing(None);
    let mut scope = Scope::new();
    let reading = BodyReading::Document {
        text: "{}".to_string(),
        document: Value::Bool(true),
        success: Some(false),
    };
    let event = hook.conclude(&mut scope, 200, "OK", reading).expect("one report");
    assert_eq!(event.message, "{}");
    assert!(scope.extras.keys().is_empty());
    let reading = BodyReading::Document {
        text: "{}".to_string(),
        document: Value::Bool(true),
        success: Some(false),
    };
    let event = hook.conclude(&mut scope, 404, "Not Found", reading).expect("one report");
    assert_eq!(event.message, "Not Found");
    assert_eq!(scope.extras.get("Response"), Some(&Value::Bool(true)));
    assert!(hook.conclude(&mut scope, 200, "OK", BodyReading::Binary).is_none());
    assert!(hook.conclude(&mut scope, 200, "OK", BodyReading::Text("x".to_string())).is_none());
}

#[test]
fn hook_asks_for_requests_and_responses() {
    let info = fairing(None).info();
    assert_eq!(info.name, "Sentry logger");
    assert_eq!(info.kind, HookKind::RequestAndResponse);
}

#[test]
fn fairing_keeps_the_ignore_list() {
    assert_eq!(fairing(Some(vec![404, 401])).ignore_list, Some(vec![404, 401]));
    assert_eq!(fairing(None).ignore_list, None);
}

#[test]
fn report_after_response_still_carries_the_trail() {
    let hook = fairing(Some(vec![404]));
    let mut scope = Scope::new();
    hook.on_request(&mut scope, "GET", "/orders/42");
    let (_, report) = hook.on_response(&mut scope, response(404, b""));
    assert!(report.is_none());
    let event = log(&scope, "order lookup failed", LogLevel::Warning);
    assert_eq!(event.scope.breadcrumbs.len(), 1);
    assert_eq!(event.scope.breadcrumbs[0].data.get("url"), Some(&text("/orders/42")));
}
