use clonk::api_caller::{
    redeem_outcome, status_message, write_status_line, ApiCaller, FormField, RedeemError,
    COOKIE_ORIGIN, INPUT_FIELD, NAME_FIELD, NO_INPUT, REDEEM_URL, UNKNOWN_REASON,
};
use clonk::config::AuthData;
use clonk::decimal::decimal_text;

fn auth(cookies: &str) -> AuthData {
    AuthData {
        username: "clonk".to_string(),
        password: "hunter2".to_string(),
        cookies: cookies.to_string(),
    }
}

fn field(name: &str, value: &str) -> FormField {
    FormField { name: name.to_string(), value: value.to_string() }
}

#[test]
fn wire_constants_are_the_fixed_ones() {
    assert_eq!(REDEEM_URL, "https://secure.colonq.computer/api/redeem");
    assert_eq!(COOKIE_ORIGIN, "https://secure.colonq.computer");
    assert_eq!(NAME_FIELD, "name");
    assert_eq!(INPUT_FIELD, "input");
    assert_eq!(NO_INPUT, "undefined");
    assert_eq!(UNKNOWN_REASON, "<unknown status code>");
}

#[test]
fn call_without_input_sends_undefined() {
    let caller = ApiCaller::new(&auth("session=abc")).unwrap();
    let request = caller.call_api("hydrate", None);
    assert_eq!(request.form, vec![field("name", "hydrate"), field("input", "undefined")]);
}

#[test]
fn call_with_input_sends_the_text() {
    let caller = ApiCaller::new(&auth("session=abc")).unwrap();
    let request = caller.call_api("say", Some("T".to_string()));
    assert_eq!(request.form, vec![field("name", "say"), field("input", "T")]);
}

#[test]
fn call_with_empty_input_sends_the_empty_text() {
    let caller = ApiCaller::new(&auth("session=abc")).unwrap();
    let request = caller.call_api("say", Some(String::new()));
    assert_eq!(request.form, vec![field("name", "say"), field("input", "")]);
}

#[test]
fn call_goes_to_the_fixed_endpoint_with_the_session_cookies() {
    let cookies = "session=abc; Path=/; Secure";
    let caller = ApiCaller::new(&auth(cookies)).unwrap();
    let request = caller.call_api("hydrate", None);
    assert_eq!(request.url, "https://secure.colonq.computer/api/redeem");
    assert_eq!(request.cookie_origin, "https://secure.colonq.computer");
    assert_eq!(request.cookies, cookies);
}

#[test]
fn request_parts_are_taken_by_the_http_types() {
    let caller = ApiCaller::new(&auth("session=abc; Path=/")).unwrap();
    let request = caller.call_api("hydrate", None);
    let header = reqwest::header::HeaderValue::from_str(&request.cookies).unwrap();
    assert_eq!(header.as_bytes(), b"session=abc; Path=/");
    assert!(request.url.parse::<reqwest::Url>().is_ok());
    assert!(request.cookie_origin.parse::<reqwest::Url>().is_ok());
}

#[test]
fn caller_takes_plain_cookies() {
    assert!(ApiCaller::new(&auth("")).is_some());
    assert!(ApiCaller::new(&auth("a=b")).is_some());
    assert!(ApiCaller::new(&auth("a=b;\tc=d")).is_some());
    assert!(ApiCaller::new(&auth("name=gr\u{fc}n \u{1f600}")).is_some());
}

#[test]
fn caller_turns_down_control_characters() {
    assert!(ApiCaller::new(&auth("a=b\n")).is_none());
    assert!(ApiCaller::new(&auth("a=b\r\nc=d")).is_none());
    assert!(ApiCaller::new(&auth("\u{0}")).is_none());
    assert!(ApiCaller::new(&auth("a\u{1f}b")).is_none());
    assert!(ApiCaller::new(&auth("a\u{7f}b")).is_none());
}

#[test]
fn caller_agrees_with_the_header_type_on_every_ascii_character() {
    for code in 0u8..128 {
        let text = format!("a{}b", code as char);
        let taken = reqwest::header::HeaderValue::from_str(&text).is_ok();
        let expected = code == 9 || (code >= 32 && code != 127);
        assert_eq!(taken, expected);
        assert_eq!(ApiCaller::new(&auth(&text)).is_some(), expected);
    }
}

#[test]
fn outcome_is_ok_in_the_success_range() {
    assert_eq!(redeem_outcome(200), Ok(()));
    assert_eq!(redeem_outcome(204), Ok(()));
    assert_eq!(redeem_outcome(299), Ok(()));
}

#[test]
fn outcome_is_the_status_outside_the_success_range() {
    assert_eq!(redeem_outcome(199), Err(RedeemError::HttpStatus(199)));
    assert_eq!(redeem_outcome(300), Err(RedeemError::HttpStatus(300)));
    assert_eq!(redeem_outcome(403), Err(RedeemError::HttpStatus(403)));
    assert_eq!(redeem_outcome(500), Err(RedeemError::HttpStatus(500)));
    assert_eq!(redeem_outcome(0), Err(RedeemError::HttpStatus(0)));
    assert_eq!(redeem_outcome(u16::MAX), Err(RedeemError::HttpStatus(u16::MAX)));
}

#[test]
fn outcome_agrees_with_the_status_type() {
    for code in 100u16..1000 {
        let status = reqwest::StatusCode::from_u16(code).unwrap();
        assert_eq!(redeem_outcome(code).is_ok(), status.is_success());
    }
}

#[test]
fn decimal_text_of_some_numbers() {
    assert_eq!(decimal_text(0), "0");
    assert_eq!(decimal_text(7), "7");
    assert_eq!(decimal_text(10), "10");
    assert_eq!(decimal_text(99), "99");
    assert_eq!(decimal_text(100), "100");
    assert_eq!(decimal_text(403), "403");
    assert_eq!(decimal_text(9090), "9090");
    assert_eq!(decimal_text(u16::MAX), "65535");
}

#[test]
fn decimal_text_agrees_with_std_on_every_number() {
    for n in 0..=u16::MAX {
        assert_eq!(decimal_text(n), n.to_string());
    }
}

#[test]
fn status_line_joins_code_and_phrase() {
    assert_eq!(write_status_line(403, Some("Forbidden")), "403 Forbidden");
    assert_eq!(write_status_line(200, Some("OK")), "200 OK");
    assert_eq!(write_status_line(200, Some("")), "200 ");
    assert_eq!(write_status_line(299, None), "299 <unknown status code>");
    assert_eq!(write_status_line(0, None), "0 <unknown status code>");
}

#[test]
fn error_message_of_a_status_names_code_and_phrase() {
    assert_eq!(RedeemError::HttpStatus(403).message(), "Failed to redeem: 403 Forbidden");
    assert_eq!(RedeemError::HttpStatus(404).message(), "Failed to redeem: 404 Not Found");
    assert_eq!(
        RedeemError::HttpStatus(500).message(),
        "Failed to redeem: 500 Internal Server Error"
    );
    assert_eq!(RedeemError::HttpStatus(302).message(), "Failed to redeem: 302 Found");
}

#[test]
fn error_message_of_a_status_without_phrase() {
    assert_eq!(
        RedeemError::HttpStatus(599).message(),
        "Failed to redeem: 599 <unknown status code>"
    );
    assert_eq!(
        RedeemError::HttpStatus(99).message(),
        "Failed to redeem: 99 <unknown status code>"
    );
    assert_eq!(
        RedeemError::HttpStatus(1000).message(),
        "Failed to redeem: 1000 <unknown status code>"
    );
    assert_eq!(
        RedeemError::HttpStatus(u16::MAX).message(),
        "Failed to redeem: 65535 <unknown status code>"
    );
}

#[test]
fn error_message_agrees_with_the_status_type() {
    for code in 100u16..1000 {
        let status = reqwest::StatusCode::from_u16(code).unwrap();
        assert_eq!(
            RedeemError::HttpStatus(code).message(),
            format!("Failed to redeem: {}", status)
        );
    }
}

#[test]
fn error_message_of_a_transport_failure_is_its_account() {
    let error = RedeemError::Transport("connection refused".to_string());
    assert_eq!(error.message(), "connection refused");
    assert_eq!(RedeemError::Transport(String::new()).message(), "");
}

#[test]
fn error_clone_is_equal() {
    let status = RedeemError::HttpStatus(403);
    assert_eq!(status.clone(), status);
    let transport = RedeemError::Transport("timed out".to_string());
    assert_eq!(transport.clone(), transport);
}

#[test]
fn status_after_http_200_names_the_button() {
    let text = status_message("Hydrate", &redeem_outcome(200));
    assert_eq!(text, "Successfully redeemed Hydrate");
}

#[test]
fn status_after_http_403_holds_the_code() {
    let text = status_message("Hydrate", &redeem_outcome(403));
    assert!(text.contains("403"));
    assert_eq!(text, "Error: Failed to redeem: 403 Forbidden");
}

#[test]
fn status_after_a_transport_failure_holds_its_account() {
    let outcome = Err(RedeemError::Transport("dns error".to_string()));
    assert_eq!(status_message("Hydrate", &outcome), "Error: dns error");
}

#[test]
fn status_of_a_button_without_text() {
    assert_eq!(status_message("", &Ok(())), "Successfully redeemed ");
}
