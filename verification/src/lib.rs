//! A unified error representation: one public error type that holds the
//! well-known failure kinds inline, accepts any other failure behind a
//! single heap allocation, and preserves each failure's display text and
//! immediate cause; together with an uninhabited error type that proves,
//! at the type level, that an operation cannot fail.

mod error;
mod failure;
mod infallible;
mod model;
mod sparql;

pub use error::{Cause, CauseModel, Error, ErrorModel};
pub use failure::{Failure, OpaqueFailure};
pub use infallible::{Infallible, UnwrapInfallible};
pub use model::{BlankNodeIdParseError, IriParseError, LanguageTagParseError};
pub use sparql::SparqlParseError;
