//! Errors of the installed local model and engine registry store.
use vstd::prelude::*;
use crate::text::concat;

verus! {

/// Why reading or writing the local model registry failed.
#[derive(Clone, Debug, PartialEq, Eq)]
pub enum LocalModelRegistryStoreError {
    Storage(String),
    Json(String),
    InvalidStoragePath(String),
}

impl LocalModelRegistryStoreError {
    /// The error's text, as its display form shows it.
    pub open spec fn text(self) -> Seq<char> {
        match self {
            LocalModelRegistryStoreError::Storage(m) => "registry storage error: "@ + m@,
            LocalModelRegistryStoreError::Json(m) => "registry JSON error: "@ + m@,
            LocalModelRegistryStoreError::InvalidStoragePath(m) => "invalid registry storage path: "@ + m@,
        }
    }

    /// The error's text.
    pub fn message(&self) -> (r: String)
        ensures
            r@ == self.text(),
    {
        match self {
            LocalModelRegistryStoreError::Storage(m) => concat("registry storage error: ", m.as_str()),
            LocalModelRegistryStoreError::Json(m) => concat("registry JSON error: ", m.as_str()),
            LocalModelRegistryStoreError::InvalidStoragePath(m) => concat("invalid registry storage path: ", m.as_str()),
        }
    }
}

} // verus!
