use gemini_processor::error::AppError;
use gemini_processor::response::{
    error_from_status, reply_from_response, transport_error, ApiErrorDetail, ApiErrorResponse,
    ApiResponse, Choice, ResponseMessage,
};

fn choice(text: &str) -> Choice {
    Choice { message: ResponseMessage { content: text.to_string() } }
}

#[test]
fn first_choice_is_returned_verbatim() {
    let r = reply_from_response(Ok(ApiResponse { choices: vec![choice("X")] }));
    assert_eq!(r.unwrap(), "X");
    let r = reply_from_response(Ok(ApiResponse { choices: vec![choice("  a \n"), choice("b")] }));
    assert_eq!(r.unwrap(), "  a \n");
}

#[test]
fn empty_choices_is_an_api_error() {
    let r = reply_from_response(Ok(ApiResponse { choices: vec![] }));
    assert!(matches!(r, Err(AppError::Api(_))));
}

#[test]
fn unparsable_success_body_is_an_api_error() {
    match reply_from_response(Err("expected value".to_string())) {
        Err(AppError::Api(m)) => {
            assert_eq!(m, "Failed to parse successful API response JSON: expected value")
        }
        other => panic!("unexpected {:?}", other),
    }
}

#[test]
fn provider_message_is_propagated() {
    let parsed = ApiErrorResponse {
        error: ApiErrorDetail { message: "bad key".to_string(), error_type: None, code: None },
    };
    match error_from_status("401 Unauthorized", "{}", Some(parsed)) {
        AppError::Api(m) => {
            assert!(m.contains("bad key"));
            assert_eq!(m, "API Error: bad key");
        }
        other => panic!("unexpected {:?}", other),
    }
}

#[test]
fn undescribed_failure_carries_status_and_body() {
    match error_from_status("500 Internal Server Error", "oops", None) {
        AppError::Api(m) => assert_eq!(
            m,
            "API request failed with status 500 Internal Server Error. Response body: oops"
        ),
        other => panic!("unexpected {:?}", other),
    }
}

#[test]
fn transport_failure_is_an_api_error() {
    match transport_error("timed out") {
        AppError::Api(m) => assert_eq!(m, "Network request failed: timed out"),
        other => panic!("unexpected {:?}", other),
    }
}
