//! Failures as the command surface reports them: a kind for callers that
//! branch on it and a message for the operator.

use vstd::prelude::*;
use vstd::string::*;
use crate::store::StoreError;

verus! {

/// Why an operation failed.
#[derive(Clone, Copy, Debug, PartialEq, Eq, Structural)]
pub enum ErrorKind {
    /// A store could not be reached.
    Connection,
    /// The identity is absent or already soft-deleted.
    NotFound,
    /// A unique name or address is already taken.
    Conflict,
    /// A stored payload could not be read back.
    Serialization,
    /// The guard around a shared handle could not be taken.
    Lock,
    /// The request itself is unacceptable.
    InvalidInput,
    /// The password does not match.
    Denied,
    /// A helper that the operation relies on failed.
    Internal,
}

/// A failed operation.
#[derive(Debug)]
pub struct Failure {
    pub kind: ErrorKind,
    pub message: String,
}

/// A failure as a plain value.
pub ghost struct FailureView {
    pub kind: ErrorKind,
    pub message: Seq<char>,
}

impl View for Failure {
    type V = FailureView;

    open spec fn view(&self) -> FailureView {
        FailureView { kind: self.kind, message: self.message@ }
    }
}

impl Clone for Failure {
    fn clone(&self) -> (r: Failure)
        ensures
            r@ == self@,
    {
        Failure { kind: self.kind, message: self.message.clone() }
    }
}

impl Failure {
    /// A failure of the given kind with the given message.
    pub fn new(kind: ErrorKind, message: &str) -> (r: Failure)
        ensures
            r@.kind == kind,
            r@.message == message@,
    {
        Failure { kind, message: message.to_owned() }
    }
}

/// A failure with a fixed message.
pub open spec fn failure(kind: ErrorKind, message: Seq<char>) -> FailureView {
    FailureView { kind, message }
}

/// A result seen through the views of its value and of its failure.
pub open spec fn result_view<T: View, E: View>(r: Result<T, E>) -> Result<T::V, E::V> {
    match r {
        Ok(value) => Ok(value@),
        Err(failure) => Err(failure@),
    }
}

/// How a failure of a store is worded.
pub open spec fn store_error_text(e: StoreError) -> Seq<char> {
    match e {
        StoreError::Unreachable => "archivio non raggiungibile"@,
        StoreError::Rejected => "scrittura rifiutata"@,
    }
}

/// The kind under which a failure of a store is reported.
pub open spec fn store_error_kind(e: StoreError) -> ErrorKind {
    match e {
        StoreError::Unreachable => ErrorKind::Connection,
        StoreError::Rejected => ErrorKind::Conflict,
    }
}

/// The failure that reports a failure of a store: the given introduction
/// followed by the wording of the store's failure.
pub open spec fn store_failure_view(intro: Seq<char>, e: StoreError) -> FailureView {
    FailureView { kind: store_error_kind(e), message: intro + store_error_text(e) }
}

/// Reports a failure of a store under the given introduction.
pub fn store_failure(intro: &str, e: StoreError) -> (r: Failure)
    ensures
        r@ == store_failure_view(intro@, e),
{
    let mut message = intro.to_owned();
    match e {
        StoreError::Unreachable => {
            message.append("archivio non raggiungibile");
            Failure { kind: ErrorKind::Connection, message }
        },
        StoreError::Rejected => {
            message.append("scrittura rifiutata");
            Failure { kind: ErrorKind::Conflict, message }
        },
    }
}

/// Reports a failure with a message made of an introduction and a detail.
pub fn detailed_failure(kind: ErrorKind, intro: &str, detail: &str) -> (r: Failure)
    ensures
        r@ == (FailureView { kind, message: intro@ + detail@ }),
{
    let mut message = intro.to_owned();
    message.append(detail);
    Failure { kind, message }
}

} // verus!
