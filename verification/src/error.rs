use vstd::prelude::*;

use crate::secret::SecretVaultError;

verus! {

/// Failures at the local durable-storage boundary.
///
/// Failures of the file system and of the database engine are raised where those are driven;
/// the rules of the store raise the ones below.
#[derive(Debug)]
pub enum StorageError {
    /// The database schema is newer than this library.
    UnsupportedSchema {
        /// Version found in the database.
        found: i64,
        /// Latest version implemented here.
        supported: i64,
    },
    /// A retained result uses a format newer than this library can read.
    UnsupportedResultFormat {
        /// Opaque result id.
        id: String,
        /// Format found in the index.
        found: i64,
        /// Latest format implemented here.
        supported: i64,
    },
    /// A stored value or a setting violates an invariant of the store.
    Integrity(&'static str),
    /// The database engine refuses a value that it is asked to read, or holds one that cannot be read.
    Sqlite(&'static str),
    /// The database engine reports damage, in its own words.
    IntegrityReport(String),
    /// The requested datasource does not exist.
    DatasourceNotFound(String),
    /// A datasource update lost an optimistic-concurrency race.
    RevisionConflict {
        /// Datasource id.
        id: String,
        /// Revision supplied by the caller.
        expected: u64,
        /// Current revision, or `None` when the record was deleted.
        actual: Option<u64>,
    },
    /// A datasource field violates the durable contract.
    InvalidDatasource(&'static str),
    /// The external secret vault rejected an operation.
    SecretVault {
        /// Non-sensitive operation name.
        operation: &'static str,
        /// Vault-provided safe error classification.
        source: SecretVaultError,
    },
    /// The requested provider profile does not exist.
    ProviderNotFound(String),
    /// A provider update lost an optimistic-concurrency race.
    ProviderRevisionConflict {
        /// Provider profile id.
        id: String,
        /// Revision supplied by the caller.
        expected: u64,
        /// Current revision, or `None` when the record was deleted.
        actual: Option<u64>,
    },
    /// A provider field violates the durable contract.
    InvalidProvider(&'static str),
    /// A provider profile is still referenced by a session.
    ProviderInUse(String),
    /// A resource is pinned by an active agent run.
    AgentDependencyBusy {
        /// Resource family.
        resource: &'static str,
        /// Resource id.
        id: String,
    },
    /// An agent value violates the durable contract.
    InvalidAgent(&'static str),
    /// The requested agent session does not exist.
    AgentSessionNotFound(String),
    /// The session has an active run.
    AgentSessionBusy(String),
    /// A session update lost an optimistic-concurrency race.
    AgentSessionRevisionConflict {
        /// Session id.
        id: String,
        /// Revision supplied by the caller.
        expected: u64,
        /// Current revision, or `None` when the record was deleted.
        actual: Option<u64>,
    },
    /// The requested agent run does not exist.
    AgentRunNotFound(String),
    /// A run is not in the state its caller expected.
    AgentStateConflict {
        /// Run id.
        id: String,
        /// State supplied by the caller.
        expected: &'static str,
        /// Current state.
        actual: &'static str,
    },
    /// An agent quota would be exceeded.
    AgentQuotaExceeded {
        /// Bounded resource.
        resource: &'static str,
        /// Its limit.
        limit: u64,
    },
    /// The requested tool permission does not exist.
    PermissionNotFound(String),
    /// A tool permission cannot be executed.
    PermissionNotExecutable {
        /// Permission or run id.
        id: String,
        /// Non-sensitive reason.
        reason: &'static str,
    },
    /// A permission update lost an optimistic-concurrency race.
    PermissionRevisionConflict {
        /// Permission id.
        id: String,
        /// Revision supplied by the caller.
        expected: u64,
        /// Current revision, or `None` when the record was deleted.
        actual: Option<u64>,
    },
    /// The requested result handle does not exist, has expired or has another owner.
    ResultHandleNotFound(String),
    /// The requested retained result does not exist or has expired.
    ResultNotFound(String),
    /// A result write or page request violates the storage contract.
    InvalidResult(&'static str),
    /// A completed result file or index is damaged.
    CorruptResult {
        /// Opaque result id.
        result_id: String,
        /// Non-sensitive corruption reason.
        reason: &'static str,
    },
    /// A numeric value cannot be represented by the database or the local platform.
    NumericRange(&'static str),
    /// Retained-result data would exceed the configured disk budget.
    QuotaExceeded {
        /// Additional bytes requested by the write.
        requested: u64,
        /// Remaining configured bytes.
        available: u64,
    },
    /// A durable commit may or may not have reached disk and could not be reconciled.
    OutcomeUnknown {
        /// Non-sensitive operation name.
        operation: &'static str,
        /// Opaque record id.
        id: String,
    },
    /// A transfer value violates the durable contract, or its task is in another state.
    InvalidTransfer(&'static str),
    /// The requested transfer task does not exist.
    TransferTaskNotFound(i64),
    /// The requested transfer artifact does not exist or has expired.
    TransferArtifactNotFound(String),
    /// An operation log violates the durable contract.
    InvalidOperationLog(&'static str),
    /// A saved console violates the durable contract.
    InvalidSavedConsole(&'static str),
    /// The requested saved console does not exist.
    SavedConsoleNotFound(i64),
    /// A dashboard violates the durable contract.
    InvalidCommunityDashboard(&'static str),
    /// The requested dashboard does not exist.
    CommunityDashboardNotFound(i64),
    /// A chart violates the durable contract.
    InvalidCommunityChart(&'static str),
    /// The requested chart does not exist.
    CommunityChartNotFound(i64),
    /// A workspace value violates the durable contract.
    InvalidWorkspace(&'static str),
}

} // verus!
