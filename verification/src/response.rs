//! The response that an error is rendered to: its status and its body.

use vstd::prelude::*;

verus! {

#[verifier::external_type_specification]
#[verifier::external_body]
#[verifier::reject_recursive_types(T)]
pub struct ExResponse<T>(axum::http::Response<T>);

#[verifier::external_type_specification]
#[verifier::external_body]
pub struct ExBody(axum::body::Body);

/// The status code of every response that reports an error: Internal Server
/// Error.
pub const INTERNAL_SERVER_ERROR: u16 = 500;

/// The status of `response` as a number: what `http::Response::status` reads,
/// taken through `StatusCode::as_u16`.
pub uninterp spec fn response_status(response: axum::response::Response) -> u16;

/// The bytes that the body of `response` yields when it is read to its end.
pub uninterp spec fn response_body(response: axum::response::Response) -> Seq<u8>;

/// Builds a response from a status and a text, with axum's
/// `IntoResponse::into_response` for a pair of a `StatusCode` and a `String`.
///
/// Trusted: axum makes the body from the bytes of the string, marks it as
/// plain UTF-8 text in the `content-type` header, and then sets the status.
/// `StatusCode::from_u16` accepts the numbers from 100 to 999 and no others.
#[verifier::external_body]
pub(crate) fn text_response(status: u16, body: String) -> (response: axum::response::Response)
    requires
        100 <= status <= 999,
    ensures
        response_status(response) == status,
        response_body(response) == vstd::utf8::encode_utf8(body@),
{
    let code = axum::http::StatusCode::from_u16(status).unwrap();
    axum::response::IntoResponse::into_response((code, body))
}

/// Whether `response` reports a failure whose description is `text`: its
/// status is 500, and its body is `text` as UTF-8.
pub open spec fn reports_failure(text: Seq<char>, response: axum::response::Response) -> bool {
    &&& response_status(response) == INTERNAL_SERVER_ERROR
    &&& response_body(response) == vstd::utf8::encode_utf8(text)
}

/// The response that reports a failure whose description is `text`: status
/// 500, and `text` as the body.
pub fn error_response(text: String) -> (response: axum::response::Response)
    ensures
        reports_failure(text@, response),
        response_status(response) == 500,
        response_body(response) == vstd::utf8::encode_utf8(text@),
{
    text_response(INTERNAL_SERVER_ERROR, text)
}

/// The response is a function of the text: two responses that report
/// failures with equal descriptions have the same status and the same body.
pub proof fn lemma_equal_texts_give_equal_responses(
    first_text: Seq<char>,
    second_text: Seq<char>,
    first: axum::response::Response,
    second: axum::response::Response,
)
    requires
        first_text == second_text,
        reports_failure(first_text, first),
        reports_failure(second_text, second),
    ensures
        response_status(first) == response_status(second),
        response_body(first) == response_body(second),
{
}

} // verus!
