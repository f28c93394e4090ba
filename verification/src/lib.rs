//! Helpers around three cloud services: a secret store, an object store and
//! a task queue.
//!
//! The crate holds the part that computes: resource names, request shapes,
//! the reading of answers, content-type validation and the order of steps of
//! the multi-step operations. Sending a request is left to the caller.
use vstd::prelude::*;
use vstd::string::*;
use vstd::std_specs::convert::FromSpecImpl;

pub mod secret;
pub mod storage;
pub mod task;
pub mod text;

pub use task::TaskHelper;

verus! {

/// Failure of any of the three service areas.
#[derive(Debug, Clone, PartialEq, Eq)]
pub enum NimbusError {
    /// A failure of the secret store.
    SecretManager(secret::Error),
    /// A failure of the object store.
    StorageClient(storage::Error),
    /// A failure of the task queue.
    TasksClient(task::Error),
    /// Any other failure, in words.
    Other(String),
}

/// A [`NimbusError`] with its texts as character sequences.
pub enum NimbusErrorView {
    SecretManager(secret::ErrorView),
    StorageClient(storage::ErrorView),
    TasksClient(task::ErrorView),
    Other(Seq<char>),
}

impl View for NimbusError {
    type V = NimbusErrorView;

    open spec fn view(&self) -> NimbusErrorView {
        match *self {
            NimbusError::SecretManager(e) => NimbusErrorView::SecretManager(e@),
            NimbusError::StorageClient(e) => NimbusErrorView::StorageClient(e@),
            NimbusError::TasksClient(e) => NimbusErrorView::TasksClient(e@),
            NimbusError::Other(m) => NimbusErrorView::Other(m@),
        }
    }
}

impl NimbusErrorView {
    /// The text shown for this error.
    pub open spec fn text(self) -> Seq<char> {
        match self {
            NimbusErrorView::SecretManager(e) => "SecretManager error: "@ + e.text(),
            NimbusErrorView::StorageClient(e) => "Storage error: "@ + e.text(),
            NimbusErrorView::TasksClient(e) => "CloudTasks error: "@ + e.text(),
            NimbusErrorView::Other(m) => "Error: "@ + m,
        }
    }
}

/// The outcome of an operation that yields bytes, over views.
pub open spec fn bytes_outcome(r: Result<Vec<u8>, NimbusError>) -> Result<Seq<u8>, NimbusErrorView> {
    match r {
        Ok(v) => Ok(v@),
        Err(e) => Err(e@),
    }
}

/// The outcome of an operation that yields nothing, over views.
pub open spec fn unit_outcome(r: Result<(), NimbusError>) -> Result<(), NimbusErrorView> {
    match r {
        Ok(_) => Ok(()),
        Err(e) => Err(e@),
    }
}

impl NimbusError {
    /// The text shown for this error.
    pub fn message(&self) -> (s: String)
        ensures
            s@ == self@.text(),
    {
        match self {
            NimbusError::SecretManager(e) => {
                let inner = e.message();
                text::prefixed("SecretManager error: ", inner.as_str())
            },
            NimbusError::StorageClient(e) => {
                let inner = e.message();
                text::prefixed("Storage error: ", inner.as_str())
            },
            NimbusError::TasksClient(e) => {
                let inner = e.message();
                text::prefixed("CloudTasks error: ", inner.as_str())
            },
            NimbusError::Other(m) => text::prefixed("Error: ", m.as_str()),
        }
    }
}

impl From<secret::Error> for NimbusError {
    fn from(e: secret::Error) -> (r: NimbusError) {
        NimbusError::SecretManager(e)
    }
}

impl FromSpecImpl<secret::Error> for NimbusError {
    open spec fn obeys_from_spec() -> bool {
        true
    }

    open spec fn from_spec(e: secret::Error) -> NimbusError {
        NimbusError::SecretManager(e)
    }
}

impl From<storage::Error> for NimbusError {
    fn from(e: storage::Error) -> (r: NimbusError) {
        NimbusError::StorageClient(e)
    }
}

impl FromSpecImpl<storage::Error> for NimbusError {
    open spec fn obeys_from_spec() -> bool {
        true
    }

    open spec fn from_spec(e: storage::Error) -> NimbusError {
        NimbusError::StorageClient(e)
    }
}

impl From<task::Error> for NimbusError {
    fn from(e: task::Error) -> (r: NimbusError) {
        NimbusError::TasksClient(e)
    }
}

impl FromSpecImpl<task::Error> for NimbusError {
    open spec fn obeys_from_spec() -> bool {
        true
    }

    open spec fn from_spec(e: task::Error) -> NimbusError {
        NimbusError::TasksClient(e)
    }
}

} // verus!
