use tor_check::error::TorCheckError as Error;
use tor_check::marker::{
    check_page, line_ends_scan, line_is_marker, scan_lines, PageCheckError, PageReply,
    TOR_CHECK_MARKER,
};
use tor_check::status::{check_status, StatusReply, TorCheckStatus};
use tor_check::TorCheck;

#[derive(Debug, PartialEq)]
struct MockError;

#[derive(Debug, PartialEq, Clone)]
struct Client(u32);

fn decode_status(body: &str) -> TorCheckStatus {
    let value: serde_json::Value = serde_json::from_str(body).unwrap();
    TorCheckStatus {
        is_tor: value["IsTor"].as_bool().unwrap(),
    }
}

fn page(text: &str) -> Vec<Result<String, MockError>> {
    text.lines().map(|l| Ok(l.to_string())).collect()
}

#[test]
fn test_tor_check_result() {
    let failure = decode_status(r#"{"IsTor":false,"IP":"192.0.2.1"}"#);
    let success = decode_status(r#"{"IsTor":true,"IP":"192.0.2.1"}"#);
    let expected_error = Error::YouAreNotUsingTor;

    assert_eq!(failure.result::<MockError>(), Err(expected_error));
    assert_eq!(success.result::<MockError>(), Ok(()));
}

#[test]
fn status_not_tor_is_refused() {
    let status = decode_status(r#"{"IsTor":false,"IP":"192.0.2.1"}"#);
    let r = check_status::<Client, MockError>(Client(1), Ok(status));
    assert_eq!(r, Err(Error::YouAreNotUsingTor));
}

#[test]
fn status_tor_returns_client() {
    let status = decode_status(r#"{"IsTor":true,"IP":"192.0.2.1"}"#);
    let r = check_status::<Client, MockError>(Client(7), Ok(status));
    assert_eq!(r, Ok(Client(7)));
}

#[test]
fn status_client_error_is_passed_on() {
    let r = check_status::<Client, MockError>(Client(7), Err(MockError));
    assert_eq!(r, Err(Error::HttpClient(MockError)));
}

#[test]
fn status_reply_through_trait() {
    let reply = StatusReply::<Client, MockError> {
        client: Client(3),
        reply: Ok(TorCheckStatus { is_tor: true }),
    };
    assert_eq!(reply.tor_check(), Ok(Client(3)));
}

#[test]
fn malformed_json_is_a_decode_error() {
    let bad = serde_json::from_str::<serde_json::Value>("{\"IsTor\": tru").unwrap_err();
    let r = check_status::<Client, ureq::Error>(Client(1), Err(ureq::Error::from(bad)));
    let err = r.unwrap_err();
    assert!(matches!(err, Error::HttpClient(_)));
    assert!(err.is_decode());
}

#[test]
fn transport_failure_is_not_a_decode_error() {
    let r = check_status::<Client, ureq::Error>(Client(1), Err(ureq::Error::StatusCode(503)));
    let err = r.unwrap_err();
    assert!(matches!(err, Error::HttpClient(ureq::Error::StatusCode(503))));
    assert!(!err.is_decode());
    let r = check_status::<Client, ureq::Error>(Client(1), Err(ureq::Error::HostNotFound));
    assert!(!r.unwrap_err().is_decode());
}

#[test]
fn not_tor_is_not_a_decode_error() {
    let err: Error<ureq::Error> = Error::YouAreNotUsingTor;
    assert!(!err.is_decode());
}

#[test]
fn status_checks_twice_are_independent() {
    let first = check_status::<Client, MockError>(Client(1), Ok(TorCheckStatus { is_tor: true }));
    let second = check_status::<Client, MockError>(Client(2), Ok(TorCheckStatus { is_tor: false }));
    let third = check_status::<Client, MockError>(Client(3), Ok(TorCheckStatus { is_tor: true }));
    assert_eq!(first, Ok(Client(1)));
    assert_eq!(second, Err(Error::YouAreNotUsingTor));
    assert_eq!(third, Ok(Client(3)));
}

#[test]
fn marker_line_exact() {
    assert!(line_is_marker(
        "<a id=\"TorCheckResult\" target=\"success\" href=\"/\"></a>"
    ));
    assert!(line_is_marker(TOR_CHECK_MARKER));
}

#[test]
fn marker_line_trimmed() {
    assert!(line_is_marker(
        "  <a id=\"TorCheckResult\" target=\"success\" href=\"/\"></a>  "
    ));
    assert!(line_is_marker(
        "\t\u{a0}<a id=\"TorCheckResult\" target=\"success\" href=\"/\"></a>\r\u{3000}"
    ));
}

#[test]
fn marker_line_other_text() {
    assert!(!line_is_marker(""));
    assert!(!line_is_marker("   "));
    assert!(!line_is_marker(
        "<a id=\"TorCheckResult\" target=\"failure\" href=\"/\"></a>"
    ));
    assert!(!line_is_marker(
        "x <a id=\"TorCheckResult\" target=\"success\" href=\"/\"></a>"
    ));
    assert!(!line_is_marker(
        "<a id=\"TorCheckResult\" target=\"success\" href=\"/\"></a"
    ));
}

#[test]
fn page_with_marker_returns_client() {
    let body = "<html>\n<body>\n    <a id=\"TorCheckResult\" target=\"success\" href=\"/\"></a>\n</body>\n</html>\n";
    let r = check_page::<Client, MockError, MockError>(Client(9), Ok(page(body)));
    assert_eq!(r, Ok(Client(9)));
}

#[test]
fn page_without_marker_is_refused() {
    let body = "<html>\n<body>\n<h1>Sorry. You are not using Tor.</h1>\n</body>\n</html>\n";
    let r = check_page::<Client, MockError, MockError>(Client(9), Ok(page(body)));
    assert_eq!(r, Err(PageCheckError::YouAreNotUsingTor));
}

#[test]
fn empty_page_is_refused() {
    let r = check_page::<Client, MockError, MockError>(Client(9), Ok(Vec::new()));
    assert_eq!(r, Err(PageCheckError::YouAreNotUsingTor));
}

#[test]
fn marker_on_first_or_last_line() {
    let first = "<a id=\"TorCheckResult\" target=\"success\" href=\"/\"></a>\nb\nc";
    let last = "a\nb\n<a id=\"TorCheckResult\" target=\"success\" href=\"/\"></a>";
    assert_eq!(scan_lines(page(first)), Ok(true));
    assert_eq!(scan_lines(page(last)), Ok(true));
}

#[test]
fn read_error_before_marker_is_parsing_error() {
    let lines: Vec<Result<String, MockError>> = vec![
        Ok("a".to_string()),
        Err(MockError),
        Ok(TOR_CHECK_MARKER.to_string()),
    ];
    let r = check_page::<Client, MockError, MockError>(Client(1), Ok(lines));
    assert_eq!(r, Err(PageCheckError::Parsing(MockError)));
}

#[test]
fn read_error_after_marker_is_not_reached() {
    let lines: Vec<Result<String, MockError>> = vec![
        Ok("a".to_string()),
        Ok(TOR_CHECK_MARKER.to_string()),
        Err(MockError),
    ];
    let r = check_page::<Client, MockError, MockError>(Client(1), Ok(lines));
    assert_eq!(r, Ok(Client(1)));
}

#[test]
fn page_client_error_is_passed_on() {
    let r = check_page::<Client, &str, MockError>(Client(1), Err("refused"));
    assert_eq!(r, Err(PageCheckError::HttpClient("refused")));
}

#[test]
fn settling_lines() {
    assert!(line_ends_scan::<MockError>(&Err(MockError)));
    assert!(line_ends_scan::<MockError>(&Ok(TOR_CHECK_MARKER.to_string())));
    assert!(!line_ends_scan::<MockError>(&Ok("<html>".to_string())));
}

#[test]
fn page_checks_twice_are_independent() {
    let body = "x\n<a id=\"TorCheckResult\" target=\"success\" href=\"/\"></a>\n";
    let a = PageReply::<Client, MockError, MockError> { client: Client(1), page: Ok(page(body)) };
    let b = PageReply::<Client, MockError, MockError> { client: Client(2), page: Ok(page(body)) };
    assert_eq!(a.tor_check(), Ok(Client(1)));
    assert_eq!(b.tor_check(), Ok(Client(2)));
}

#[test]
fn client_error_converts() {
    let err = Error::<ureq::Error>::from(ureq::Error::StatusCode(404));
    assert!(matches!(err, Error::HttpClient(ureq::Error::StatusCode(404))));
}

#[test]
fn reqwest_builder_error_is_not_a_decode_error() {
    let bad = reqwest::Client::new().get("not a url").build().unwrap_err();
    let r = check_status::<Client, reqwest::Error>(Client(1), Err(bad));
    let err = r.unwrap_err();
    assert!(matches!(err, Error::HttpClient(_)));
    assert!(!err.is_decode());
}

#[test]
fn not_found_status_is_not_a_decode_error() {
    let err: Error<ureq::Error> = Error::HttpClient(ureq::Error::StatusCode(404));
    assert!(!err.is_decode());
    let json = serde_json::from_str::<serde_json::Value>("[").unwrap_err();
    let err: Error<ureq::Error> = Error::HttpClient(ureq::Error::Json(json));
    assert!(err.is_decode());
}
