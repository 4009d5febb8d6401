//! The one failure category of the storage layer, and its causes.

use vstd::prelude::*;

verus! {

/// Why an operation failed. Every failure is a storage error; the variant is
/// its cause.
#[derive(Debug, Clone, PartialEq, Eq)]
pub enum StorageError {
    /// The HTTP request did not complete. Holds what the transport reported.
    Transport(String),
    /// A response arrived, with a status outside the 2xx class.
    Rejected(u16),
    /// Reading the upload source or the response body failed. Holds what the
    /// reader reported.
    BodyRead(String),
    /// A reference that belongs to another backend was handed to this one.
    UnknownReference,
}

/// A storage error as a mathematical value.
pub enum StorageErrorView {
    Transport(Seq<char>),
    Rejected(u16),
    BodyRead(Seq<char>),
    UnknownReference,
}

impl View for StorageError {
    type V = StorageErrorView;

    open spec fn view(&self) -> StorageErrorView {
        match self {
            StorageError::Transport(cause) => StorageErrorView::Transport(cause@),
            StorageError::Rejected(status) => StorageErrorView::Rejected(*status),
            StorageError::BodyRead(cause) => StorageErrorView::BodyRead(cause@),
            StorageError::UnknownReference => StorageErrorView::UnknownReference,
        }
    }
}

/// The cause text of a rejected request.
pub open spec fn rejected_text() -> Seq<char> {
    "the response status is not in the 2xx class"@
}

/// The cause text of a reference that this backend does not own.
pub open spec fn unknown_reference_text() -> Seq<char> {
    "does not understand the remote file reference"@
}

impl StorageErrorView {
    /// The cause as text: what the transport or the reader reported, or the
    /// fixed text of the two causes that arise in this layer.
    pub open spec fn cause(self) -> Seq<char> {
        match self {
            StorageErrorView::Transport(cause) => cause,
            StorageErrorView::Rejected(_) => rejected_text(),
            StorageErrorView::BodyRead(cause) => cause,
            StorageErrorView::UnknownReference => unknown_reference_text(),
        }
    }
}

/// A result of this layer as a mathematical value.
pub open spec fn result_view<T: View>(r: Result<T, StorageError>) -> Result<T::V, StorageErrorView> {
    match r {
        Ok(value) => Ok(value@),
        Err(error) => Err(error@),
    }
}

/// What a reader handed over, as a mathematical value: the bytes, or what it
/// reported when it failed.
pub open spec fn read_view(read: Result<Vec<u8>, String>) -> Result<Seq<u8>, Seq<char>> {
    match read {
        Ok(bytes) => Ok(bytes@),
        Err(cause) => Err(cause@),
    }
}

impl StorageError {
    /// The cause of this error as text.
    pub fn cause(&self) -> (text: String)
        ensures
            text@ == self@.cause(),
    {
        match self {
            StorageError::Transport(cause) => cause.clone(),
            StorageError::Rejected(_) => "the response status is not in the 2xx class".to_owned(),
            StorageError::BodyRead(cause) => cause.clone(),
            StorageError::UnknownReference => "does not understand the remote file reference".to_owned(),
        }
    }
}

} // verus!
