use vstd::prelude::*;
use vstd::string::*;
use crate::error::{join_message, AppError};

verus! {

/// The text of a reply.
#[derive(Debug)]
pub struct ResponseMessage {
    pub content: String,
}

/// One proposed reply.
#[derive(Debug)]
pub struct Choice {
    pub message: ResponseMessage,
}

/// The body of a successful chat-completion response.
#[derive(Debug)]
pub struct ApiResponse {
    pub choices: Vec<Choice>,
}

/// What the provider says went wrong.
#[derive(Debug)]
pub struct ApiErrorDetail {
    pub message: String,
    pub error_type: Option<String>,
    pub code: Option<String>,
}

/// The body of a failed chat-completion response.
#[derive(Debug)]
pub struct ApiErrorResponse {
    pub error: ApiErrorDetail,
}

/// The message of an error that the provider described.
pub open spec fn provider_error_text(message: Seq<char>) -> Seq<char> {
    "API Error: "@ + message
}

/// The message of a failure whose body the provider did not describe.
pub open spec fn status_error_text(status: Seq<char>, body: Seq<char>) -> Seq<char> {
    "API request failed with status "@ + status + ". Response body: "@ + body
}

/// The reply in a successful response: the first choice's text, verbatim.
pub fn reply_from_response(parsed: Result<ApiResponse, String>) -> (r: Result<String, AppError>)
    ensures
        match parsed {
            Ok(resp) => if resp.choices@.len() > 0 {
                r is Ok && r->Ok_0@ == resp.choices@[0].message.content@
            } else {
                r is Err && r->Err_0 is Api
            },
            Err(d) => r is Err && r->Err_0 is Api && r->Err_0->Api_0@
                == "Failed to parse successful API response JSON: "@ + d@,
        },
{
    match parsed {
        Ok(resp) => {
            if resp.choices.len() > 0 {
                Ok(resp.choices[0].message.content.clone())
            } else {
                Err(
                    AppError::Api(
                        String::from_str("Invalid API response format: missing 'choices'"),
                    ),
                )
            }
        },
        Err(d) => Err(
            AppError::Api(
                join_message("Failed to parse successful API response JSON: ", d.as_str()),
            ),
        ),
    }
}

/// The error for a response with a failure status: the provider's own message
/// where the body describes it, else the status and the raw body.
pub fn error_from_status(status: &str, body: &str, parsed: Option<ApiErrorResponse>) -> (r:
    AppError)
    ensures
        r is Api,
        match parsed {
            Some(p) => r->Api_0@ == provider_error_text(p.error.message@),
            None => r->Api_0@ == status_error_text(status@, body@),
        },
{
    match parsed {
        Some(p) => AppError::Api(join_message("API Error: ", p.error.message.as_str())),
        None => {
            let mut m = String::from_str("API request failed with status ");
            m.append(status);
            m.append(". Response body: ");
            m.append(body);
            AppError::Api(m)
        },
    }
}

/// The error for a request that got no response at all.
pub fn transport_error(detail: &str) -> (r: AppError)
    ensures
        r is Api,
        r->Api_0@ == "Network request failed: "@ + detail@,
{
    AppError::Api(join_message("Network request failed: ", detail))
}

/// The provider's own message appears, whole, in the error built from it.
pub proof fn provider_message_is_kept(message: Seq<char>)
    ensures
        exists|i: int|
            0 <= i && i + message.len() <= provider_error_text(message).len()
                && #[trigger] provider_error_text(message).subrange(i, i + message.len())
                == message,
{
    let t = provider_error_text(message);
    let k = "API Error: "@.len() as int;
    assert(t.subrange(k, k + message.len()) =~= message);
}

} // verus!
