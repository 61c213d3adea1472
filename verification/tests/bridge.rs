use host_bridge::decimal::append_u32_decimal;
use host_bridge::fetch::fetch_complete;
use host_bridge::fetch::prepare_fetch;
use host_bridge::fetch::BridgeError;
use host_bridge::fetch::FetchSuccess;
use host_bridge::fetch::HandleCell;
use host_bridge::fetch::HostCallResult;
use host_bridge::fetch::StatusCell;
use host_bridge::logging::build_log_line;

fn strings(texts: &[&str]) -> Vec<String> {
    texts.iter().map(|t| t.to_string()).collect()
}

#[test]
fn log_line_joins_with_spaces() {
    let args = strings(&["a", "1", "true"]);
    assert_eq!(build_log_line(&args), "a 1 true\n");
}

#[test]
fn log_line_no_args() {
    let args = strings(&[]);
    assert_eq!(build_log_line(&args), "\n");
}

#[test]
fn log_line_single_arg() {
    let args = strings(&["hello"]);
    assert_eq!(build_log_line(&args), "hello\n");
}

#[test]
fn log_line_empty_texts_keep_separators() {
    let args = strings(&["", "", ""]);
    assert_eq!(build_log_line(&args), "  \n");
}

#[test]
fn fetch_rejects_zero_args() {
    let args = strings(&[]);
    assert_eq!(prepare_fetch(&args).err(), Some(BridgeError::ArgumentError));
}

#[test]
fn fetch_rejects_one_arg() {
    let args = strings(&["https://example.com"]);
    assert_eq!(prepare_fetch(&args).err(), Some(BridgeError::ArgumentError));
}

#[test]
fn fetch_rejects_three_args() {
    let args = strings(&["https://example.com", "GET", ""]);
    assert_eq!(prepare_fetch(&args).err(), Some(BridgeError::ArgumentError));
}

#[test]
fn fetch_serializes_four_args() {
    let args = strings(&["https://example.com", "GET", "", "accept: text/plain"]);
    let d = prepare_fetch(&args).unwrap();
    assert_eq!(d.url, b"https://example.com".to_vec());
    assert_eq!(d.method, b"GET".to_vec());
    assert_eq!(d.body, Vec::<u8>::new());
    assert_eq!(d.headers, b"accept: text/plain".to_vec());
}

#[test]
fn fetch_serializes_multibyte_text() {
    let args = strings(&["https://example.com/\u{00e9}", "GET", "", ""]);
    let d = prepare_fetch(&args).unwrap();
    assert_eq!(d.url, "https://example.com/\u{00e9}".as_bytes().to_vec());
}

#[test]
fn fetch_ignores_extra_args() {
    let four = strings(&["https://example.com", "POST", "payload", "accept: */*"]);
    let six = strings(&["https://example.com", "POST", "payload", "accept: */*", "extra", "more"]);
    let d4 = prepare_fetch(&four).unwrap();
    let d6 = prepare_fetch(&six).unwrap();
    assert_eq!(d4.url, d6.url);
    assert_eq!(d4.method, d6.method);
    assert_eq!(d4.body, d6.body);
    assert_eq!(d4.headers, d6.headers);
}

#[test]
fn fetch_serialization_is_stateless() {
    let args = strings(&["https://example.com", "PUT", "body bytes", "x: y"]);
    let first = prepare_fetch(&args).unwrap();
    let second = prepare_fetch(&args).unwrap();
    assert_eq!(first.url, second.url);
    assert_eq!(first.method, second.method);
    assert_eq!(first.body, second.body);
    assert_eq!(first.headers, second.headers);
}

#[test]
fn fetch_failure_on_nonzero_code() {
    let result = HostCallResult {
        code: 1,
        status: StatusCell::Uninitialized,
        handle: HandleCell::Uninitialized,
    };
    assert_eq!(fetch_complete(&result), Err(BridgeError::HostCallError));
}

#[test]
fn fetch_failure_exposes_no_written_values() {
    let result = HostCallResult {
        code: 7,
        status: StatusCell::Written(200),
        handle: HandleCell::Written(9),
    };
    assert_eq!(fetch_complete(&result), Err(BridgeError::HostCallError));
}

#[test]
fn fetch_success_reports_host_values() {
    let result = HostCallResult {
        code: 0,
        status: StatusCell::Written(200),
        handle: HandleCell::Written(7),
    };
    let success = fetch_complete(&result).unwrap();
    assert_eq!(success, FetchSuccess { status_code: 200, response_handle: 7 });
    assert_eq!(success.message(), "fetch result: status code 200, response handle 7");
}

#[test]
fn success_message_zero_values() {
    let success = FetchSuccess { status_code: 0, response_handle: 0 };
    assert_eq!(success.message(), "fetch result: status code 0, response handle 0");
}

#[test]
fn success_message_largest_values() {
    let success = FetchSuccess { status_code: 65535, response_handle: 4294967295 };
    assert_eq!(success.message(), "fetch result: status code 65535, response handle 4294967295");
}

#[test]
fn decimal_rendering_exact_values() {
    let mut s = String::new();
    append_u32_decimal(&mut s, 0);
    assert_eq!(s, "0");
    let mut s = String::new();
    append_u32_decimal(&mut s, 10);
    assert_eq!(s, "10");
    let mut s = String::new();
    append_u32_decimal(&mut s, 305);
    assert_eq!(s, "305");
    let mut s = String::from("n = ");
    append_u32_decimal(&mut s, 4294967295);
    assert_eq!(s, "n = 4294967295");
}

#[test]
fn error_messages() {
    assert_eq!(BridgeError::ArgumentError.message(), "fetch requires at least four arguments");
    assert_eq!(BridgeError::HostCallError.message(), "fetch failed");
    assert_eq!(BridgeError::WriteError.message(), "write to the bound stream failed");
}
