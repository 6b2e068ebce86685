//! An error type for `axum` handlers that carries an `eyre::Report` and turns
//! into a `500 Internal Server Error` response whose body is the report's
//! debug text.
//!
//! A handler returns `Result<T, Error>`; any failure that converts into an
//! `eyre::Report` converts into [`Error`], and [`Error::into_response`] is the
//! one place where such a failure becomes a response.

pub mod report;
pub mod response;
pub mod error;

pub use error::{Error, Result};
