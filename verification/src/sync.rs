//! Reconciliation of the local store with what the remote offers.

pub mod state;

pub use state::GroupSyncState;
pub use state::SyncStateManager;
pub use state::SyncStatus;
