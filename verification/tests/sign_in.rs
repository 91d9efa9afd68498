use serde_json::Value;
use youkoso::config::MyStudio;
use youkoso::my_studio::error::ApiError;
use youkoso::my_studio::{
    session_token_from_response, session_token_from_status, session_token_request,
    SESSION_TOKEN_URL,
};

const URL: &str = "https://service.example/token";

fn some(text: &str) -> Option<String> {
    Some(text.to_owned())
}

fn json(text: &str) -> Value {
    serde_json::from_str(text).unwrap()
}

#[test]
fn success_gives_the_message_as_the_token() {
    let outcome = session_token_from_status(some("Success"), some("abc123"), URL);
    assert_eq!(outcome.unwrap(), "abc123");
}

#[test]
fn success_without_a_message_lacks_a_field() {
    match session_token_from_status(some("Success"), None, URL) {
        Err(ApiError::MissingField { field, url }) => {
            assert_eq!(field, "msg");
            assert_eq!(url, URL);
        }
        other => panic!("unexpected outcome {:?}", other),
    }
}

#[test]
fn failure_gives_the_reason() {
    match session_token_from_status(some("Failed"), some("Invalid company"), URL) {
        Err(ApiError::InvalidRequest { message, url }) => {
            assert_eq!(message, "Invalid company");
            assert_eq!(url, URL);
        }
        other => panic!("unexpected outcome {:?}", other),
    }
}

#[test]
fn failure_without_a_message_lacks_a_field() {
    match session_token_from_status(some("Failed"), None, URL) {
        Err(ApiError::MissingField { field, url }) => {
            assert_eq!(field, "msg");
            assert_eq!(url, URL);
        }
        other => panic!("unexpected outcome {:?}", other),
    }
}

#[test]
fn an_answer_without_a_status_lacks_a_field() {
    match session_token_from_status(None, some("abc123"), URL) {
        Err(ApiError::MissingField { field, url }) => {
            assert_eq!(field, "status");
            assert_eq!(url, URL);
        }
        other => panic!("unexpected outcome {:?}", other),
    }
}

#[test]
fn any_other_status_is_not_recognised() {
    for status in ["success", "SUCCESS", "Failed ", "", "Pending"] {
        match session_token_from_status(some(status), some("abc123"), URL) {
            Err(ApiError::UnrecognizedValue { field, value, url }) => {
                assert_eq!(field, "status");
                assert_eq!(value, status);
                assert_eq!(url, URL);
            }
            other => panic!("unexpected outcome {:?}", other),
        }
    }
}

#[test]
fn the_token_is_read_from_a_json_answer() {
    let answer = json(r#"{"status": "Success", "msg": "tok-42", "extra": 1}"#);
    assert_eq!(session_token_from_response(&answer, URL).unwrap(), "tok-42");
}

#[test]
fn a_refusal_is_read_from_a_json_answer() {
    let answer = json(r#"{"msg": "Invalid company", "status": "Failed"}"#);
    match session_token_from_response(&answer, URL) {
        Err(ApiError::InvalidRequest { message, url }) => {
            assert_eq!(message, "Invalid company");
            assert_eq!(url, URL);
        }
        other => panic!("unexpected outcome {:?}", other),
    }
}

#[test]
fn a_status_that_is_no_text_counts_as_missing() {
    for answer in [
        r#"{"status": 200, "msg": "tok"}"#,
        r#"{"status": null, "msg": "tok"}"#,
        r#"{"status": true, "msg": "tok"}"#,
        r#"{"status": ["Success"], "msg": "tok"}"#,
        r#"{"msg": "tok"}"#,
        r#"{}"#,
    ] {
        match session_token_from_response(&json(answer), URL) {
            Err(ApiError::MissingField { field, url }) => {
                assert_eq!(field, "status");
                assert_eq!(url, URL);
            }
            other => panic!("unexpected outcome {:?}", other),
        }
    }
}

#[test]
fn a_message_that_is_no_text_counts_as_missing() {
    for answer in [
        r#"{"status": "Success", "msg": 5}"#,
        r#"{"status": "Success"}"#,
        r#"{"status": "Failed", "msg": {"text": "no"}}"#,
    ] {
        match session_token_from_response(&json(answer), URL) {
            Err(ApiError::MissingField { field, url }) => {
                assert_eq!(field, "msg");
                assert_eq!(url, URL);
            }
            other => panic!("unexpected outcome {:?}", other),
        }
    }
}

#[test]
fn an_answer_that_is_no_object_lacks_the_status() {
    for answer in [r#""Success""#, r#"["status", "Success"]"#, "null", "17"] {
        match session_token_from_response(&json(answer), URL) {
            Err(ApiError::MissingField { field, .. }) => assert_eq!(field, "status"),
            other => panic!("unexpected outcome {:?}", other),
        }
    }
}

#[test]
fn an_unknown_status_is_read_from_a_json_answer() {
    let answer = json(r#"{"status": "Maintenance", "msg": "later"}"#);
    match session_token_from_response(&answer, URL) {
        Err(ApiError::UnrecognizedValue { field, value, url }) => {
            assert_eq!(field, "status");
            assert_eq!(value, "Maintenance");
            assert_eq!(url, URL);
        }
        other => panic!("unexpected outcome {:?}", other),
    }
}

#[test]
fn each_error_has_its_message() {
    let refused = ApiError::InvalidRequest {
        message: "Invalid company".to_owned(),
        url: URL.to_owned(),
    };
    assert_eq!(
        refused.message(),
        "'Invalid company' received from call to https://service.example/token."
    );
    let missing = ApiError::MissingField { field: "status".to_owned(), url: URL.to_owned() };
    assert_eq!(
        missing.message(),
        "Missing or invalid field 'status' in response from call to https://service.example/token."
    );
    let unknown = ApiError::UnrecognizedValue {
        field: "status".to_owned(),
        value: "Maintenance".to_owned(),
        url: URL.to_owned(),
    };
    assert_eq!(
        unknown.message(),
        "Unrecognized value 'Maintenance' for field 'status' in response from call to https://service.example/token."
    );
}

#[test]
fn the_request_names_company_email_and_page() {
    let my_studio = MyStudio { email: "front@desk.example".to_owned(), company_id: "1234".to_owned() };
    let fields = session_token_request(&my_studio);
    assert_eq!(
        fields,
        vec![
            ("company_id".to_owned(), "1234".to_owned()),
            ("email".to_owned(), "front@desk.example".to_owned()),
            ("from_page".to_owned(), "attendance".to_owned()),
        ]
    );
}

#[test]
fn tokens_are_asked_for_at_the_attendance_address() {
    assert_eq!(
        SESSION_TOKEN_URL,
        "https://cn.mystudio.io/Api/v2/generateStudioAttendanceToken"
    );
}
