//! The error type shared by the whole crate.

use vstd::prelude::*;
use vstd::string::*;

verus! {

/// An error of the object store crate. Its contents are not modelled.
#[verifier::external_type_specification]
#[verifier::external_body]
pub struct ExObjectStoreError(object_store::Error);

/// Why an operation failed.
#[derive(Debug)]
pub enum DeltaError {
    /// A failure described by a message alone.
    Generic(String),
    /// A failure reported by an object store.
    ObjectStore(object_store::Error),
}

/// What the operations of this crate return.
pub type DeltaResult<T> = Result<T, DeltaError>;

/// The model of an [`DeltaError`]: a generic error is its message.
pub enum ErrorView {
    Generic(Seq<char>),
    ObjectStore(object_store::Error),
}

impl View for DeltaError {
    type V = ErrorView;

    open spec fn view(&self) -> ErrorView {
        match *self {
            DeltaError::Generic(message) => ErrorView::Generic(message@),
            DeltaError::ObjectStore(error) => ErrorView::ObjectStore(error),
        }
    }
}

impl DeltaError {
    /// A failure described by `message` alone.
    pub fn generic(message: &str) -> (r: DeltaError)
        ensures
            r@ == ErrorView::Generic(message@),
    {
        DeltaError::Generic(message.to_string())
    }

    /// Whether `text` is how this error reads: a generic error reads as its message, an object
    /// store error as its own rendering.
    pub open spec fn reads_as(self, text: String) -> bool {
        match self {
            DeltaError::Generic(message) => text@ == message@,
            DeltaError::ObjectStore(error) => to_string_from_display_ensures::<object_store::Error>(
                &error,
                text,
            ),
        }
    }

    /// This error as text for a person to read.
    pub fn message(&self) -> (r: String)
        ensures
            self.reads_as(r),
    {
        match self {
            DeltaError::Generic(message) => message.clone(),
            DeltaError::ObjectStore(error) => error.to_string(),
        }
    }
}

} // verus!
