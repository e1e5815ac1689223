//! A standardized operation-result envelope.
//!
//! The library wraps the outcome of a fallible unit of work in a uniform,
//! inspectable record: [`envelope::OperationResult`]. Two constructors build
//! the record so that its invariants hold by construction, a structural codec
//! turns it into (and back out of) a JSON-shaped value, and a wrapping
//! boundary converts a possibly-failing inner step into a value that callers
//! can always inspect without any fault handling of their own.

pub mod json;
pub mod envelope;
pub mod codec;
pub mod boundary;
