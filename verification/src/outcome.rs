//! How a unit of work can end.

use vstd::prelude::*;

verus! {

/// Why a unit of work failed.
#[derive(Clone, Copy, Debug, PartialEq, Eq, Structural)]
pub enum FetchError {
    /// The configured method is no HTTP method.
    InvalidMethod,
    /// The request did not complete: no connection, a transport error, or the
    /// timeout ran out.
    RequestFailed,
    /// The body of the response could not be read as text.
    BodyDecodeFailed,
    /// The output directory or the output file could not be written.
    IOError,
}

/// The result of one unit of work. A response that the configuration ignores is
/// a success.
pub type Outcome = Result<(), FetchError>;

} // verus!
