use vstd::prelude::*;

verus! {

/// The way an embedding source failed.
#[derive(Clone, Copy, Debug, PartialEq, Eq, Structural)]
pub enum ProviderFailure {
    Transport,
    Auth,
    Decode,
    Model,
}

/// The kinds of failure that the service reports.
#[derive(Clone, Copy, Debug, PartialEq, Eq, Structural)]
pub enum ServiceError {
    /// Malformed request: bad JSON, a vector of the wrong length, or lists of
    /// different lengths.
    BadInput,
    /// A vector that should have `expected` lanes has `found`.
    BadDimension { expected: usize, found: usize },
    /// The metadata store could not be reached.
    StoreUnavailable,
    /// Persisted data could not be read back.
    Corrupt,
    /// The snapshot file does not exist.
    NotFound,
    /// The embedding source failed.
    EmbedProvider(ProviderFailure),
    /// A snapshot could not be written or read.
    Persist,
    /// The nearest-neighbour index refused an insertion.
    Index,
}

impl ServiceError {
    /// The HTTP status that answers a request failing with this error.
    pub fn status_code(&self) -> (r: u16)
        ensures
            r == (if *self == ServiceError::BadInput { 400u16 } else { 500u16 }),
    {
        match self {
            ServiceError::BadInput => 400,
            _ => 500,
        }
    }
}

} // verus!
