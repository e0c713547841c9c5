//! Persisted records and plain data carried through the manager.

use vstd::prelude::*;

verus! {

/// Which node currently owns the scheduling rights for an app (persisted).
///
/// Mutated only during usurpation; read by every lookup and by the tick's
/// owned-apps query. Never deleted by this core.
#[derive(Clone, Debug, PartialEq, Eq)]
pub struct AppOwnership {
    pub app_id: u64,
    pub app_name: String,
    pub current_server: String,
    pub last_modified: i64,
}

/// Advisory mutual-exclusion record created during a contested election
/// (persisted, ephemeral). No release or expiry path exists at this layer;
/// enforcement of the ttl, if any, is the store's.
#[derive(Clone, Debug, PartialEq, Eq)]
pub struct ElectionLock {
    pub resource_id: u64,
    pub ttl_millis: u64,
    pub holder: String,
}

impl ElectionLock {
    pub fn new(resource_id: u64, ttl_millis: u64, holder: String) -> (r: ElectionLock)
        ensures
            r.resource_id == resource_id,
            r.ttl_millis == ttl_millis,
            r.holder == holder,
    {
        ElectionLock { resource_id, ttl_millis, holder }
    }
}

/// A known remote node, keyed in the registry by its address. The live
/// connection it stands for is runtime plumbing held outside the verified
/// library.
#[derive(Clone, Debug, PartialEq, Eq)]
pub struct WorkerHandle {
    pub address: String,
}

/// Settings handed to the manager's builder. The core reads nothing from
/// them; they travel with the builder for the surrounding process.
#[derive(Clone, Copy, Debug, PartialEq, Eq, Structural, Default)]
pub struct WorkerManagerConfig {}

/// The lifecycle state of the manager.
#[derive(Clone, Copy, Debug, PartialEq, Eq, Structural)]
pub enum ComponentStatus {
    Starting,
    Running,
    Stopping,
    Stopped,
}

} // verus!
