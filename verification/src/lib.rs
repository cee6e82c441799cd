//! Rules of a local durable store for database tooling.
//!
//! The store keeps datasources, provider profiles, agent sessions with their runs, retained query
//! results, transfer tasks, operation logs, saved consoles, dashboards and workspace layouts. This
//! crate holds what the store decides: which requests are valid, which rows an operation writes,
//! which failure it ends with, how a file of result frames is laid out and read back, and what a
//! restart repairs. Each decision is a function of the rows that were read, the time and the fresh
//! ids that it needs; reading and writing belong to the caller.

pub mod agent;
pub mod catalog;
pub mod clock;
pub mod commit;
pub mod community_dashboard;
pub mod datasource;
pub mod digest;
pub mod error;
pub mod failures;
pub mod identity;
pub mod json;
pub mod listing;
pub mod mysql_workspace;
pub mod number;
pub mod operation_log;
pub mod provider;
pub mod query;
pub mod result;
pub mod row;
pub mod saved_console;
pub mod secret;
pub mod sqlite;
pub mod startup;
pub mod storage;
pub mod text;
pub mod transfer;
pub mod vault;

pub use agent::content::{
    AgentMessageContent, AgentToolCall, AgentToolOutput, MAX_AGENT_MESSAGE_BYTES,
};
pub use agent::message::{MAX_AGENT_MESSAGES_PER_SESSION, MAX_AGENT_MESSAGE_BYTES_PER_SESSION};
pub use agent::model::{
    AgentCompaction, AgentMessageRecord, AgentRecoveryReport, AgentResultHandle, AgentRunMessage,
    AgentRunRecord, AgentRunUpdate, AgentSessionRecord, AppendAgentMessage, CancelAgentRun,
    CancelledAgentRun, CompactAgentRun, CompactedAgentRun, CompleteAgentRun, CompletedAgentRun,
    CreateAgentSession, FailAgentRun, FailedAgentRun, RequestToolPermission, StartAgentRun,
    StartedAgentRun, ToolPermissionRecord, UnknownAgentWrite, UpdateAgentSession,
};
pub use agent::session::{MAX_AGENT_MESSAGE_PAGE_SIZE, MAX_AGENT_SESSION_TITLE_BYTES};
pub use agent::status::{
    AgentMessageRole, AgentRunStatus, SqlPermissionMode, ToolPermissionDecision,
    ToolPermissionStatus,
};
pub use commit::{CommitOutcome, Readback};
pub use community_dashboard::chart::{
    CommunityChart, CreateCommunityChartRequest, UpdateCommunityChartRequest,
};
pub use community_dashboard::dashboard::{
    CommunityDashboard, CommunityDashboardListQuery, CommunityDashboardPage,
    CreateCommunityDashboardRequest, UpdateCommunityDashboardRequest,
};
pub use datasource::{CreateDatasource, DatasourceRecord, UpdateDatasource};
pub use error::StorageError;
pub use operation_log::{
    CreateOperationLog, OperationLogListQuery, OperationLogPage, OperationLogRecord,
};
pub use provider::{
    CreateProviderProfile, ProviderKind, ProviderProfileRecord, UpdateProviderProfile,
};
pub use result::page::{
    PageRequest, MAX_RESULT_PAGE_BYTES, MAX_RESULT_PAGE_ROWS, MIN_RESULT_PAGE_BYTES,
};
pub use result::read::ResultPage;
pub use result::recovery::{PurgeReport, RecoveryReport};
pub use result::rows::ResultMetadata;
pub use result::writer::ResultWriter;
pub use saved_console::{
    CreateSavedConsole, SavedConsoleListQuery, SavedConsolePage, SavedConsoleRecord,
    UpdateSavedConsole,
};
pub use secret::{SecretRef, SecretValue, SecretVault, SecretVaultError};
pub use startup::StartupReport;
pub use storage::{Storage, StorageOptions};
pub use transfer::model::{
    CreateTransferTask, StoredTransferTaskKind, StoredTransferTaskStatus, TransferArtifactRecord,
    TransferRecoveryReport, TransferTaskRecord,
};
pub use vault::{SecretChange, SecretCleanupReport};
