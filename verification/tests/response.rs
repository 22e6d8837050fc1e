use feishu_notifier::response::{
    classify, decode_response, interpret_reply, response_from_members, Member,
};
use feishu_notifier::{SendError, WebHookOutput};

fn member(name: &str, integer: Option<i64>, text: Option<&str>) -> Member {
    (name.to_string(), integer, text.map(|t| t.to_string()))
}

#[test]
fn accepted_reply_round_trips_to_success() {
    let written = WebHookOutput::new(0, String::new()).to_json();
    assert_eq!(written, "{\"StatusCode\":0,\"StatusMessage\":\"\"}");
    let output = decode_response(&written).unwrap();
    assert_eq!(output.status_code(), 0);
    assert_eq!(output.status_message(), "");
}

#[test]
fn refused_reply_round_trips_to_a_failure_with_its_message() {
    let written = WebHookOutput::new(1, "bad sign".to_string()).to_json();
    assert_eq!(written, "{\"StatusCode\":1,\"StatusMessage\":\"bad sign\"}");
    match decode_response(&written) {
        Err(SendError::Application(detail)) => assert_eq!(detail, "bad sign"),
        other => panic!("expected a refusal, got {:?}", other),
    }
}

#[test]
fn decode_response_reads_a_reply_as_the_service_writes_it() {
    let output = decode_response("{ \"StatusCode\": 0, \"StatusMessage\": \"success\" }\n").unwrap();
    assert_eq!(output.status_code(), 0);
    assert_eq!(output.status_message(), "success");
}

#[test]
fn decode_response_ignores_other_members() {
    let body = "{\"Extra\":{\"StatusCode\":5},\"StatusMessage\":\"ok\",\"code\":19021,\"StatusCode\":0,\"data\":[1,2]}";
    let output = decode_response(body).unwrap();
    assert_eq!(output.status_code(), 0);
    assert_eq!(output.status_message(), "ok");
}

#[test]
fn any_other_status_code_is_a_refusal() {
    for code in [1i64, -1, 19021, i64::MAX, i64::MIN] {
        let body = format!("{{\"StatusCode\":{},\"StatusMessage\":\"why {}\"}}", code, code);
        match decode_response(&body) {
            Err(SendError::Application(detail)) => assert_eq!(detail, format!("why {}", code)),
            other => panic!("expected a refusal, got {:?}", other),
        }
    }
}

#[test]
fn malformed_body_is_a_decode_error() {
    for body in ["", "not json", "<html>502</html>", "{", "{\"StatusCode\":0,", "{\"StatusCode\":0,\"StatusMessage\":\"\"} trailing"] {
        assert!(matches!(decode_response(body), Err(SendError::Decode)), "body {:?}", body);
    }
}

#[test]
fn json_of_another_shape_is_a_decode_error() {
    let bodies = [
        "null",
        "0",
        "\"ok\"",
        "[0,\"\"]",
        "{}",
        "{\"StatusCode\":0}",
        "{\"StatusMessage\":\"\"}",
        "{\"StatusCode\":\"0\",\"StatusMessage\":\"\"}",
        "{\"StatusCode\":0.0,\"StatusMessage\":\"\"}",
        "{\"StatusCode\":null,\"StatusMessage\":\"\"}",
        "{\"StatusCode\":9223372036854775808,\"StatusMessage\":\"\"}",
        "{\"StatusCode\":0,\"StatusMessage\":null}",
        "{\"StatusCode\":0,\"StatusMessage\":7}",
        "{\"statuscode\":0,\"statusmessage\":\"\"}",
    ];
    for body in bodies {
        assert!(matches!(decode_response(body), Err(SendError::Decode)), "body {:?}", body);
    }
}

#[test]
fn decode_response_unescapes_the_message() {
    match decode_response("{\"StatusCode\":3,\"StatusMessage\":\"sign \\\"x\\\" \\u67e5\\n\"}") {
        Err(SendError::Application(detail)) => assert_eq!(detail, "sign \"x\" 查\n"),
        other => panic!("expected a refusal, got {:?}", other),
    }
}

#[test]
fn to_json_writes_negative_codes_and_escapes_the_message() {
    assert_eq!(
        WebHookOutput::new(-12, "a\"b".to_string()).to_json(),
        "{\"StatusCode\":-12,\"StatusMessage\":\"a\\\"b\"}"
    );
    assert_eq!(
        WebHookOutput::new(i64::MIN, String::new()).to_json(),
        "{\"StatusCode\":-9223372036854775808,\"StatusMessage\":\"\"}"
    );
    assert_eq!(
        WebHookOutput::new(i64::MAX, String::new()).to_json(),
        "{\"StatusCode\":9223372036854775807,\"StatusMessage\":\"\"}"
    );
}

#[test]
fn to_json_round_trips_through_the_parser() {
    for (code, message) in [(0i64, "fine"), (-7, "line\nbreak"), (42, "查 \\ \" \u{7f}")] {
        let written = WebHookOutput::new(code, message.to_string()).to_json();
        let parsed: serde_json::Value = serde_json::from_str(&written).unwrap();
        assert_eq!(parsed["StatusCode"].as_i64(), Some(code));
        assert_eq!(parsed["StatusMessage"].as_str(), Some(message));
    }
}

#[test]
fn classify_accepts_code_zero_only() {
    let accepted = classify(WebHookOutput::new(0, "any text".to_string())).unwrap();
    assert_eq!(accepted.status_code(), 0);
    assert_eq!(accepted.status_message(), "any text");
    match classify(WebHookOutput::new(2, "bad sign".to_string())) {
        Err(SendError::Application(detail)) => assert_eq!(detail, "bad sign"),
        other => panic!("expected a refusal, got {:?}", other),
    }
}

#[test]
fn response_from_members_reads_the_two_members() {
    let members = vec![
        member("Other", Some(9), None),
        member("StatusCode", Some(0), None),
        member("StatusMessage", None, Some("ok")),
    ];
    let output = response_from_members(&members).unwrap();
    assert_eq!(output.status_code(), 0);
    assert_eq!(output.status_message(), "ok");
}

#[test]
fn response_from_members_takes_the_first_of_a_name() {
    let members = vec![
        member("StatusCode", Some(4), None),
        member("StatusCode", Some(0), None),
        member("StatusMessage", None, Some("first")),
        member("StatusMessage", None, Some("second")),
    ];
    match response_from_members(&members) {
        Err(SendError::Application(detail)) => assert_eq!(detail, "first"),
        other => panic!("expected a refusal, got {:?}", other),
    }
}

#[test]
fn response_from_members_wants_an_integer_and_a_string() {
    let no_members: Vec<Member> = Vec::new();
    assert!(matches!(response_from_members(&no_members), Err(SendError::Decode)));
    let text_code = vec![member("StatusCode", None, Some("0")), member("StatusMessage", None, Some(""))];
    assert!(matches!(response_from_members(&text_code), Err(SendError::Decode)));
    let integer_message = vec![member("StatusCode", Some(0), None), member("StatusMessage", Some(1), None)];
    assert!(matches!(response_from_members(&integer_message), Err(SendError::Decode)));
    let no_message = vec![member("StatusCode", Some(0), None)];
    assert!(matches!(response_from_members(&no_message), Err(SendError::Decode)));
    let no_code = vec![member("StatusMessage", None, Some(""))];
    assert!(matches!(response_from_members(&no_code), Err(SendError::Decode)));
}

#[test]
fn interpret_reply_passes_a_transport_failure_on() {
    match interpret_reply(Err("connection refused".to_string())) {
        Err(SendError::Transport(detail)) => assert_eq!(detail, "connection refused"),
        other => panic!("expected a transport error, got {:?}", other),
    }
}

#[test]
fn interpret_reply_decodes_a_body() {
    let accepted = interpret_reply(Ok("{\"StatusCode\":0,\"StatusMessage\":\"\"}".to_string())).unwrap();
    assert_eq!(accepted.status_code(), 0);
    assert!(matches!(interpret_reply(Ok("gateway timeout".to_string())), Err(SendError::Decode)));
    match interpret_reply(Ok("{\"StatusCode\":1,\"StatusMessage\":\"bad sign\"}".to_string())) {
        Err(SendError::Application(detail)) => assert_eq!(detail, "bad sign"),
        other => panic!("expected a refusal, got {:?}", other),
    }
}

#[test]
fn send_error_message_says_what_went_wrong() {
    assert_eq!(SendError::Application("bad sign".to_string()).message(), "bad sign");
    assert_eq!(SendError::Transport("connection refused".to_string()).message(), "connection refused");
    assert_eq!(SendError::Decode.message(), "the response body is not a reply of the remote service");
    assert_eq!(
        SendError::Configuration.message(),
        "the secret or the destination URL is not configured"
    );
}
