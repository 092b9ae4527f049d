use vstd::prelude::*;

use crate::error::ServiceError;

verus! {

/// Sentences to embed.
#[derive(Clone, Debug, Default)]
pub struct EmbedRequest {
    pub sentences: Vec<String>,
}

/// Sentences to run through the pipeline, each with its label.
#[derive(Clone, Debug, Default)]
pub struct EmbedLabelRequest {
    pub sentences: Vec<String>,
    pub labels: Vec<String>,
}

impl EmbedLabelRequest {
    /// A labelled request pairs every sentence with exactly one label.
    pub fn check(&self) -> (r: Result<(), ServiceError>)
        ensures
            r is Ok <==> self.sentences@.len() == self.labels@.len(),
            r is Err ==> r == Err::<(), ServiceError>(ServiceError::BadInput),
    {
        if self.sentences.len() == self.labels.len() {
            Ok(())
        } else {
            Err(ServiceError::BadInput)
        }
    }
}

/// Sentences with their vectors, for building or extending the index; each
/// vector given as the bit patterns of its lanes.
#[derive(Clone, Debug, Default)]
pub struct Request {
    pub sentences: Vec<String>,
    pub vectors: Vec<Vec<u32>>,
}

/// Token accounting reported by the hosted embedding API.
#[derive(Clone, Copy, Debug, Default, PartialEq, Eq)]
pub struct Usage {
    pub prompt_tokens: i64,
    pub total_tokens: i64,
}

} // verus!
