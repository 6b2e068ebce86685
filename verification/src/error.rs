//! The error type that a handler returns.

use crate::report::{debug_text, report_debug};
use crate::response::{error_response, reports_failure, response_body, response_status, INTERNAL_SERVER_ERROR};
use vstd::prelude::*;
use vstd::std_specs::convert::{FromSpecImpl, IntoSpec};
use vstd::utf8::encode_utf8;

verus! {

/// A failure of a handler: one report, which holds the root cause and every
/// context that was added to it. It is made once, never changed, and used up
/// when it is rendered.
#[derive(Debug)]
pub struct Error(pub eyre::Report);

/// What a handler returns: a value, or the failure that ends the request.
pub type Result<T, E = Error> = core::result::Result<T, E>;

impl Error {
    /// The status of the response that this error is rendered to. It is the
    /// same for every error.
    pub open spec fn status(self) -> u16 {
        INTERNAL_SERVER_ERROR
    }

    /// Whether `response` is one that this error is rendered to: its status is
    /// 500, and its body is, as UTF-8, a debug text of the report.
    pub open spec fn renders_to(self, response: axum::response::Response) -> bool {
        &&& response_status(response) == self.status()
        &&& exists|text: Seq<char>| #[trigger]
            report_debug(self.0, text) && response_body(response) == encode_utf8(text)
    }

    /// Renders the error, which is used up: a response with status 500 whose
    /// body is the debug text of the report. There is no failure case.
    pub fn into_response(self) -> (response: axum::response::Response)
        ensures
            self.renders_to(response),
            response_status(response) == 500,
    {
        let text = debug_text(&self.0);
        let ghost written = text@;
        let response = error_response(text);
        assert(report_debug(self.0, written) && response_body(response) == encode_utf8(written));
        response
    }
}

impl<E: Into<eyre::Report>> From<E> for Error {
    /// Wraps the report that `error` converts into. There is no failure case.
    ///
    /// How a value becomes a report is the business of its `Into` impl, and
    /// may depend on where and when it happens; the report in the result is
    /// one that this conversion gave for `error`.
    fn from(error: E) -> (wrapped: Error)
        ensures
            call_ensures(<E as Into<eyre::Report>>::into, (error,), wrapped.0),
    {
        Error(error.into())
    }
}

impl<E: Into<eyre::Report>> FromSpecImpl<E> for Error {
    open spec fn obeys_from_spec() -> bool {
        <E as IntoSpec<eyre::Report>>::obeys_into_spec()
    }

    open spec fn from_spec(error: E) -> Error {
        Error(error.into_spec())
    }
}

/// Whatever an error was made from, it is rendered with status 500, and the
/// body is a debug text of a report that the value converts into.
pub proof fn lemma_converted_error_renders<E: Into<eyre::Report>>(
    error: E,
    wrapped: Error,
    response: axum::response::Response,
)
    requires
        call_ensures(<Error as From<E>>::from, (error,), wrapped),
        wrapped.renders_to(response),
    ensures
        response_status(response) == 500,
        exists|text: Seq<char>| #[trigger]
            report_debug(wrapped.0, text) && reports_failure(text, response),
        call_ensures(<E as Into<eyre::Report>>::into, (error,), wrapped.0),
{
    let text = choose|text: Seq<char>| #[trigger]
        report_debug(wrapped.0, text) && response_body(response) == encode_utf8(text);
    assert(report_debug(wrapped.0, text) && reports_failure(text, response));
}

/// Rendering follows the text: two responses that report one text that the
/// report's `Debug` impl wrote are both renderings of the error, and have the
/// same status and the same body.
pub proof fn lemma_rendering_follows_the_text(
    error: Error,
    text: Seq<char>,
    first: axum::response::Response,
    second: axum::response::Response,
)
    requires
        report_debug(error.0, text),
        reports_failure(text, first),
        reports_failure(text, second),
    ensures
        error.renders_to(first),
        error.renders_to(second),
        response_status(first) == response_status(second),
        response_body(first) == response_body(second),
{
}

} // verus!
