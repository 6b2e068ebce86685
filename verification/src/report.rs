//! The error report that an [`Error`](crate::error::Error) carries, and its
//! debug text.

use std::fmt::Write;
use vstd::prelude::*;

verus! {

#[verifier::external_type_specification]
#[verifier::external_body]
pub struct ExReport(eyre::Report);

/// Whether `text` is what the `Debug` impl of `eyre::Report` wrote for
/// `report` when it was asked with `{:?}`.
///
/// The text comes from the report's handler and from the `Display` impls of
/// the errors in its chain. With eyre's default handler it is the message of
/// the outermost error, then its causes in order under `Caused by:`, then the
/// place where the report was made, and a backtrace where one was captured.
/// Nothing binds a handler or an impl to write the same text twice, so this is
/// a relation: a report may have more than one such text.
pub uninterp spec fn report_debug(report: eyre::Report, text: Seq<char>) -> bool;

/// Writes `report` with `{:?}`, that is through `<eyre::Report as Debug>::fmt`,
/// into a new string.
///
/// Trusted: the string holds what that impl wrote, and nothing else. Where the
/// impl reports a failure, the string holds what was written up to then.
#[verifier::external_body]
pub(crate) fn debug_text(report: &eyre::Report) -> (text: String)
    ensures
        report_debug(*report, text@),
{
    let mut text = String::new();
    let _ = write!(text, "{:?}", report);
    text
}

} // verus!
