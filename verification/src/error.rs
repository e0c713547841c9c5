//! Error taxonomy of the worker-manager core.

use vstd::prelude::*;

verus! {

/// Why a dispatch phase failed; carried by `WorkerError::SchedulerFailed`.
#[derive(Clone, Debug, PartialEq, Eq)]
pub struct DispatchFailure {
    pub message: String,
}

/// Why a store operation failed; carried by the store collaborator.
#[derive(Clone, Debug, PartialEq, Eq)]
pub struct StorageFailure {
    pub message: String,
}

/// The errors this core surfaces to callers.
///
/// No failure here is fatal to the process: each is scoped to one lookup
/// call or one scheduling tick.
#[derive(Clone, Debug, PartialEq, Eq)]
pub enum WorkerError {
    /// The backend read or write failed; wraps the store's cause.
    WorkerStorageError { source: StorageFailure },
    /// The app is unknown to the store.
    WorkerNotRegistered { app_name_or_id: String },
    /// Election retries were exhausted without resolving an owner.
    LookupFail { server_ip: String },
    /// A dispatch phase failed; the rest of that tick was abandoned.
    SchedulerFailed { source: DispatchFailure },
}

} // verus!
