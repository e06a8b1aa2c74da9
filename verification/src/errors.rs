//! The error taxonomy of a cleanup invocation.

use vstd::prelude::*;

verus! {

/// Why an invocation failed. Every error is fatal to the invocation: there
/// is no local recovery, no retry and no partial processing; the platform's
/// redelivery is the only retry mechanism.
#[derive(Clone, Copy, Debug, PartialEq, Eq, Structural)]
pub enum HandlerError {
    /// The batch is non-empty but its first record carries no bucket name.
    MissingBucket,
    /// A decoded key was rejected when building an object identifier.
    IdentifierBuild,
    /// The batched delete call failed.
    DeleteRequest,
}

impl HandlerError {
    /// A human-readable description, used as the invocation failure message.
    pub fn message(&self) -> (r: String)
        ensures
            self is MissingBucket ==> r@ == "No bucket name found in S3 event"@,
            self is IdentifierBuild ==> r@ == "Object key rejected while building an object identifier"@,
            self is DeleteRequest ==> r@ == "Batched delete request failed"@,
    {
        match self {
            HandlerError::MissingBucket => "No bucket name found in S3 event".to_owned(),
            HandlerError::IdentifierBuild => "Object key rejected while building an object identifier".to_owned(),
            HandlerError::DeleteRequest => "Batched delete request failed".to_owned(),
        }
    }
}

} // verus!
