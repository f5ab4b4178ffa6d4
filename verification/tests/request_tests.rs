use backend_dispatch::dispatch::plan_dispatch;
use backend_dispatch::request::parse_request;
use backend_dispatch::request::ReqOutcome;
use backend_dispatch::response::not_found_response;
use backend_dispatch::response::run_response;

#[test]
fn run_target_with_encoded_parameter() {
    let req = "GET /run?exports_dir=%2Ftmp%2Fexports HTTP/1.1\r\nHost: localhost\r\n\r\n";
    match parse_request(req) {
        ReqOutcome::Run { exports_dir } => assert_eq!(exports_dir, "/tmp/exports"),
        _ => panic!("expected a run outcome"),
    }
}

#[test]
fn run_target_without_query_yields_empty_value() {
    match parse_request("GET /run HTTP/1.1\r\n\r\n") {
        ReqOutcome::Run { exports_dir } => assert_eq!(exports_dir, ""),
        _ => panic!("expected a run outcome"),
    }
}

#[test]
fn run_target_without_matching_segment_yields_empty_value() {
    match parse_request("GET /run?other=1&more=2 HTTP/1.1\r\n\r\n") {
        ReqOutcome::Run { exports_dir } => assert_eq!(exports_dir, ""),
        _ => panic!("expected a run outcome"),
    }
}

#[test]
fn parameter_found_in_later_segment() {
    match parse_request("GET /run?a=1&exports_dir=x%20y HTTP/1.1\r\n\r\n") {
        ReqOutcome::Run { exports_dir } => assert_eq!(exports_dir, "x y"),
        _ => panic!("expected a run outcome"),
    }
}

#[test]
fn other_target_is_not_found() {
    assert!(matches!(parse_request("GET /other HTTP/1.1\r\n\r\n"), ReqOutcome::NotFound));
}

#[test]
fn one_token_line_gets_no_reply() {
    assert!(matches!(parse_request("GET\r\n\r\n"), ReqOutcome::NoReply));
    assert!(matches!(parse_request(""), ReqOutcome::NoReply));
    assert!(matches!(parse_request("   \r\n"), ReqOutcome::NoReply));
}

#[test]
fn not_found_response_is_exact() {
    assert_eq!(
        not_found_response(),
        "HTTP/1.1 404 Not Found\r\nContent-Length: 9\r\n\r\nNot Found"
    );
}

#[test]
fn ok_response_is_exact() {
    let resp = run_response(&Ok(String::from("out\n")));
    assert_eq!(
        resp,
        "HTTP/1.1 200 OK\r\nContent-Type: text/plain; charset=utf-8\r\nContent-Length: 7\r\n\r\nOK\nout\n"
    );
}

#[test]
fn error_response_is_exact() {
    let resp = run_response(&Err(String::from("boom")));
    assert_eq!(
        resp,
        "HTTP/1.1 200 OK\r\nContent-Type: text/plain; charset=utf-8\r\nContent-Length: 10\r\n\r\nERROR\nboom"
    );
}

#[test]
fn content_length_counts_bytes_not_characters() {
    let resp = run_response(&Ok(String::from("\u{e9}")));
    // body is "OK\n" plus a two-byte character: five bytes
    assert_eq!(
        resp,
        "HTTP/1.1 200 OK\r\nContent-Type: text/plain; charset=utf-8\r\nContent-Length: 5\r\n\r\nOK\n\u{e9}"
    );
}

#[test]
fn http_run_with_no_artifact_reports_error_body() {
    let req = "GET /run?exports_dir=%2Ftmp%2Fexports HTTP/1.1\r\n\r\n";
    let exports_dir = match parse_request(req) {
        ReqOutcome::Run { exports_dir } => exports_dir,
        _ => panic!("expected a run outcome"),
    };
    let outcome = plan_dispatch("/work", false, false, false, false, &exports_dir)
        .map(|_| String::new());
    assert!(outcome.is_err());
    let resp = run_response(&outcome);
    assert!(resp.starts_with("HTTP/1.1 200 OK\r\n"));
    let body = resp.split("\r\n\r\n").nth(1).unwrap();
    assert!(body.starts_with("ERROR\n"));
    assert!(body.contains("No backend binary or script found"));
    assert!(body.contains("/work/Backend/MessagesWrapped.py"));
}
