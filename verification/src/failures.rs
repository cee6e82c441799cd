//! Which failure an operation ends with: that of the first rule that is broken.

use vstd::prelude::*;

use crate::community_dashboard::chart::{chart_fields_check, CommunityChart};
use crate::community_dashboard::dashboard::{dashboard_fields_check, CommunityDashboard};
use crate::datasource::{
    datasource_deletion, datasource_updated, DatasourceRecord, UpdateDatasource,
};
use crate::error::StorageError;
use crate::json::{document, id_list, rendered};
use crate::mysql_workspace::{er_position_check, pin_check};
use crate::operation_log::{
    log_fields_check, log_query_check, CreateOperationLog, OperationLogListQuery,
};
use crate::provider::{
    after_scheme, plain_url, provider_check, provider_deletion, provider_updated,
    CreateProviderProfile, ProviderProfileRecord, ProviderUse,
};
use crate::saved_console::{
    console_fields_check, console_query_check, SavedConsoleListQuery, SavedConsoleRecord,
};
use crate::secret::SecretRef;
use crate::text::{blank, byte_len};
use crate::transfer::model::{create_task_check, CreateTransferTask, TransferTaskRecord};
use crate::transfer::task::{
    completion_check, ending_check, progress_check, start_check, TransferProgress,
};
use crate::vault::{SecretMutation, StagedChange};

verus! {

/// An update of a datasource fails by the first of its rules that is broken: with the rule, or with the
/// id and what was found.
pub proof fn law_datasource_update_fails_by_its_first_broken_rule(
    id: String,
    expected_revision: u64,
    input: UpdateDatasource,
    change: StagedChange,
    current: Option<DatasourceRecord>,
    active: bool,
    timestamp: i64,
)
    ensures
        ({
            let outcome = datasource_updated(id, expected_revision, input, change, current, active,
                timestamp);
            let broken_0 = (blank(input.name@) || byte_len(input.name@) > 512);
            let broken_1 = (input.driver_id@.len() == 0 || byte_len(input.driver_id@) > 255);
            let broken_2 = current is None;
            let broken_3 = (current matches Some(record) && record.revision != expected_revision);
            let broken_4 = expected_revision >= i64::MAX;
            let broken_5 = active;
            &&& broken_0 ==> outcome
                == Err::<SecretMutation<DatasourceRecord>,
                    StorageError>(StorageError::InvalidDatasource(
                    "name must be non-empty and at most 512 UTF-8 bytes"))
            &&& !broken_0 && broken_1
                ==> outcome == Err::<SecretMutation<DatasourceRecord>,
                    StorageError>(StorageError::InvalidDatasource(
                    "driver id must be non-empty and at most 255 UTF-8 bytes"))
            &&& !broken_0 && !broken_1 && broken_2
                ==> outcome == Err::<SecretMutation<DatasourceRecord>,
                    StorageError>(StorageError::DatasourceNotFound(id))
            &&& !broken_0 && !broken_1 && !broken_2 && broken_3
                ==> outcome == Err::<SecretMutation<DatasourceRecord>,
                    StorageError>(StorageError::RevisionConflict { id, expected: expected_revision,
                    actual: Some(current->0.revision) })
            &&& !broken_0 && !broken_1 && !broken_2 && !broken_3 && broken_4
                ==> outcome == Err::<SecretMutation<DatasourceRecord>,
                    StorageError>(StorageError::NumericRange("datasource revision"))
            &&& !broken_0 && !broken_1 && !broken_2 && !broken_3 && !broken_4 && broken_5
                ==> outcome == Err::<SecretMutation<DatasourceRecord>,
                    StorageError>(StorageError::AgentDependencyBusy { resource: "datasource", id })
            &&& !broken_0 && !broken_1 && !broken_2 && !broken_3 && !broken_4 && !broken_5
                ==> outcome is Ok
        }),
{
}

/// A deletion of a datasource fails by the first of its rules that is broken.
pub proof fn law_datasource_deletion_fails_by_its_first_broken_rule(
    id: String,
    expected_revision: u64,
    current: Option<DatasourceRecord>,
    active: bool,
)
    ensures
        ({
            let outcome = datasource_deletion(id, expected_revision, current, active);
            let broken_0 = current is None;
            let broken_1 = (current matches Some(record) && record.revision != expected_revision);
            let broken_2 = expected_revision > i64::MAX;
            let broken_3 = active;
            &&& broken_0 ==> outcome
                == Err::<Option<SecretRef>, StorageError>(StorageError::DatasourceNotFound(id))
            &&& !broken_0 && broken_1
                ==> outcome == Err::<Option<SecretRef>,
                    StorageError>(StorageError::RevisionConflict { id, expected: expected_revision,
                    actual: Some(current->0.revision) })
            &&& !broken_0 && !broken_1 && broken_2
                ==> outcome == Err::<Option<SecretRef>,
                    StorageError>(StorageError::NumericRange("datasource revision"))
            &&& !broken_0 && !broken_1 && !broken_2 && broken_3
                ==> outcome == Err::<Option<SecretRef>,
                    StorageError>(StorageError::AgentDependencyBusy { resource: "datasource", id })
            &&& !broken_0 && !broken_1 && !broken_2 && !broken_3 ==> outcome is Ok
        }),
{
}

/// A provider profile fails by the first of its rules that is broken.
pub proof fn law_provider_fails_by_its_first_broken_rule(
    input: CreateProviderProfile,
)
    ensures
        ({
            let outcome = provider_check(input);
            let broken_0 = (blank(input.name@) || byte_len(input.name@) > 512);
            let broken_1 = (blank(input.base_url@) || byte_len(input.base_url@) > 4096);
            let broken_2 = after_scheme(input.base_url@) is None;
            let broken_3 = !plain_url(input.base_url@, after_scheme(input.base_url@)->0);
            let broken_4 = (blank(input.model@) || byte_len(input.model@) > 512);
            let broken_5 = input.context_window_tokens > i64::MAX;
            let broken_6 = input.context_window_tokens == 0;
            let broken_7 = input.max_output_tokens > i64::MAX;
            let broken_8 = input.max_output_tokens == 0;
            let broken_9 = input.max_output_tokens > input.context_window_tokens;
            &&& broken_0 ==> outcome
                == Err::<(), StorageError>(StorageError::InvalidProvider(
                    "name must be non-empty and at most 512 UTF-8 bytes"))
            &&& !broken_0 && broken_1
                ==> outcome == Err::<(),
                    StorageError>(StorageError::InvalidProvider(
                    "base URL must be non-empty and at most 4096 UTF-8 bytes"))
            &&& !broken_0 && !broken_1 && broken_2
                ==> outcome == Err::<(),
                    StorageError>(StorageError::InvalidProvider("base URL must use HTTP or HTTPS"))
            &&& !broken_0 && !broken_1 && !broken_2 && broken_3
                ==> outcome == Err::<(),
                    StorageError>(StorageError::InvalidProvider(
                    "base URL cannot contain credentials, query, or fragment data"))
            &&& !broken_0 && !broken_1 && !broken_2 && !broken_3 && broken_4
                ==> outcome == Err::<(),
                    StorageError>(StorageError::InvalidProvider(
                    "model must be non-empty and at most 512 UTF-8 bytes"))
            &&& !broken_0 && !broken_1 && !broken_2 && !broken_3 && !broken_4 && broken_5
                ==> outcome == Err::<(),
                    StorageError>(StorageError::NumericRange("provider context window"))
            &&& !broken_0 && !broken_1 && !broken_2 && !broken_3 && !broken_4 && !broken_5
                && broken_6 ==> outcome
                    == Err::<(), StorageError>(StorageError::InvalidProvider(
                    "context window must be greater than zero"))
            &&& !broken_0 && !broken_1 && !broken_2 && !broken_3 && !broken_4 && !broken_5
                && !broken_6 && broken_7
                    ==> outcome == Err::<(),
                    StorageError>(StorageError::NumericRange("provider max output tokens"))
            &&& !broken_0 && !broken_1 && !broken_2 && !broken_3 && !broken_4 && !broken_5
                && !broken_6 && !broken_7 && broken_8
                    ==> outcome == Err::<(),
                    StorageError>(StorageError::InvalidProvider(
                    "maximum output tokens must be greater than zero"))
            &&& !broken_0 && !broken_1 && !broken_2 && !broken_3 && !broken_4 && !broken_5
                && !broken_6 && !broken_7 && !broken_8 && broken_9
                    ==> outcome == Err::<(),
                    StorageError>(StorageError::InvalidProvider(
                    "maximum output tokens cannot exceed the context window"))
            &&& !broken_0 && !broken_1 && !broken_2 && !broken_3 && !broken_4 && !broken_5
                && !broken_6 && !broken_7 && !broken_8 && !broken_9 ==> outcome is Ok
        }),
{
}

/// An update of a provider profile with valid fields fails by the first of its other rules that is
/// broken: with the id and what was found.
pub proof fn law_provider_update_fails_by_its_first_broken_rule(
    id: String,
    expected_revision: u64,
    input: CreateProviderProfile,
    change: StagedChange,
    current: Option<ProviderProfileRecord>,
    active: bool,
    timestamp: i64,
)
    requires
        provider_check(input) is Ok,
    ensures
        ({
            let outcome = provider_updated(id, expected_revision, input, change, current, active,
                timestamp);
            let broken_0 = expected_revision >= i64::MAX;
            let broken_1 = current is None;
            let broken_2 = (current matches Some(record) && record.revision != expected_revision);
            let broken_3 = active;
            &&& broken_0 ==> outcome
                == Err::<SecretMutation<ProviderProfileRecord>,
                    StorageError>(StorageError::NumericRange("provider revision"))
            &&& !broken_0 && broken_1
                ==> outcome == Err::<SecretMutation<ProviderProfileRecord>,
                    StorageError>(StorageError::ProviderNotFound(id))
            &&& !broken_0 && !broken_1 && broken_2
                ==> outcome == Err::<SecretMutation<ProviderProfileRecord>,
                    StorageError>(StorageError::ProviderRevisionConflict { id,
                    expected: expected_revision, actual: Some(current->0.revision) })
            &&& !broken_0 && !broken_1 && !broken_2 && broken_3
                ==> outcome == Err::<SecretMutation<ProviderProfileRecord>,
                    StorageError>(StorageError::AgentDependencyBusy { resource: "provider profile",
                    id })
            &&& !broken_0 && !broken_1 && !broken_2 && !broken_3 ==> outcome is Ok
        }),
{
}

/// A deletion of a provider profile fails by the first of its rules that is broken.
pub proof fn law_provider_deletion_fails_by_its_first_broken_rule(
    id: String,
    expected_revision: u64,
    current: Option<ProviderProfileRecord>,
    usage: ProviderUse,
)
    ensures
        ({
            let outcome = provider_deletion(id, expected_revision, current, usage);
            let broken_0 = expected_revision > i64::MAX;
            let broken_1 = current is None;
            let broken_2 = (current matches Some(record) && record.revision != expected_revision);
            let broken_3 = usage.active;
            let broken_4 = usage.in_use;
            &&& broken_0 ==> outcome
                == Err::<Option<SecretRef>,
                    StorageError>(StorageError::NumericRange("provider revision"))
            &&& !broken_0 && broken_1
                ==> outcome == Err::<Option<SecretRef>,
                    StorageError>(StorageError::ProviderNotFound(id))
            &&& !broken_0 && !broken_1 && broken_2
                ==> outcome == Err::<Option<SecretRef>,
                    StorageError>(StorageError::ProviderRevisionConflict { id,
                    expected: expected_revision, actual: Some(current->0.revision) })
            &&& !broken_0 && !broken_1 && !broken_2 && broken_3
                ==> outcome == Err::<Option<SecretRef>,
                    StorageError>(StorageError::AgentDependencyBusy { resource: "provider profile",
                    id })
            &&& !broken_0 && !broken_1 && !broken_2 && !broken_3 && broken_4
                ==> outcome == Err::<Option<SecretRef>,
                    StorageError>(StorageError::ProviderInUse(id))
            &&& !broken_0 && !broken_1 && !broken_2 && !broken_3 && !broken_4 ==> outcome is Ok
        }),
{
}

/// An execution-history entry fails by the first of its rules that is broken.
pub proof fn law_log_fails_by_its_first_broken_rule(
    input: CreateOperationLog,
)
    ensures
        ({
            let outcome = log_fields_check(input);
            let broken_0 = (input.name matches Some(text) && byte_len(text@) > 512);
            let broken_1 = (input.data_source_id matches Some(text) && byte_len(text@) > 512);
            let broken_2 = (input.data_source_name matches Some(text)
                && byte_len(text@) > 1024) || (input.database_name matches Some(text)
                    && byte_len(text@) > 1024) || (input.schema_name matches Some(text)
                    && byte_len(text@) > 1024) || (input.user_name matches Some(text)
                    && byte_len(text@) > 1024);
            let broken_3 = (input.database_type matches Some(text) && byte_len(text@) > 255);
            let broken_4 = blank(input.ddl@) || byte_len(input.ddl@) > 16_777_216;
            let broken_5 = input.status@.len() == 0 || byte_len(input.status@) > 255;
            let broken_6 = (input.operation_rows matches Some(rows) && rows < 0);
            let broken_7 = (input.use_time matches Some(time) && time < 0);
            let broken_8 = (input.extend_info matches Some(text) && byte_len(text@) > 16_777_216);
            let broken_9 = input.operation_type@.len() == 0
                || byte_len(input.operation_type@) > 255;
            &&& broken_0 ==> outcome
                == Err::<(), StorageError>(StorageError::InvalidOperationLog(
                    "name must be at most 512 UTF-8 bytes"))
            &&& !broken_0 && broken_1
                ==> outcome == Err::<(),
                    StorageError>(StorageError::InvalidOperationLog(
                    "datasource id must be at most 512 UTF-8 bytes"))
            &&& !broken_0 && !broken_1 && broken_2
                ==> outcome == Err::<(),
                    StorageError>(StorageError::InvalidOperationLog(
                    "datasource, database, schema, and user names must be at most 1024 UTF-8 bytes"))
            &&& !broken_0 && !broken_1 && !broken_2 && broken_3
                ==> outcome == Err::<(),
                    StorageError>(StorageError::InvalidOperationLog(
                    "database type must be at most 255 UTF-8 bytes"))
            &&& !broken_0 && !broken_1 && !broken_2 && !broken_3 && broken_4
                ==> outcome == Err::<(),
                    StorageError>(StorageError::InvalidOperationLog(
                    "SQL text must be non-empty and at most 16 MiB"))
            &&& !broken_0 && !broken_1 && !broken_2 && !broken_3 && !broken_4 && broken_5
                ==> outcome == Err::<(),
                    StorageError>(StorageError::InvalidOperationLog(
                    "status must be non-empty and at most 255 UTF-8 bytes"))
            &&& !broken_0 && !broken_1 && !broken_2 && !broken_3 && !broken_4 && !broken_5
                && broken_6 ==> outcome
                    == Err::<(), StorageError>(StorageError::InvalidOperationLog(
                    "operation rows must be non-negative"))
            &&& !broken_0 && !broken_1 && !broken_2 && !broken_3 && !broken_4 && !broken_5
                && !broken_6 && broken_7
                    ==> outcome == Err::<(),
                    StorageError>(StorageError::InvalidOperationLog(
                    "use time must be non-negative"))
            &&& !broken_0 && !broken_1 && !broken_2 && !broken_3 && !broken_4 && !broken_5
                && !broken_6 && !broken_7 && broken_8
                    ==> outcome == Err::<(),
                    StorageError>(StorageError::InvalidOperationLog(
                    "extended information must be at most 16 MiB"))
            &&& !broken_0 && !broken_1 && !broken_2 && !broken_3 && !broken_4 && !broken_5
                && !broken_6 && !broken_7 && !broken_8 && broken_9
                    ==> outcome == Err::<(),
                    StorageError>(StorageError::InvalidOperationLog(
                    "operation type must be non-empty and at most 255 UTF-8 bytes"))
            &&& !broken_0 && !broken_1 && !broken_2 && !broken_3 && !broken_4 && !broken_5
                && !broken_6 && !broken_7 && !broken_8 && !broken_9 ==> outcome is Ok
        }),
{
}

/// A query of the execution history fails by the first of its rules that is broken.
pub proof fn law_log_query_fails_by_its_first_broken_rule(
    query: OperationLogListQuery,
)
    ensures
        ({
            let outcome = log_query_check(query);
            let broken_0 = query.page_no == 0;
            let broken_1 = query.page_size == 0 || query.page_size > 1_000;
            let broken_2 = (query.search_key matches Some(text) && byte_len(text@) > 256);
            &&& broken_0 ==> outcome
                == Err::<(), StorageError>(StorageError::InvalidOperationLog(
                    "page number must be greater than zero"))
            &&& !broken_0 && broken_1
                ==> outcome == Err::<(),
                    StorageError>(StorageError::InvalidOperationLog(
                    "page size must be between 1 and 1000"))
            &&& !broken_0 && !broken_1 && broken_2
                ==> outcome == Err::<(),
                    StorageError>(StorageError::InvalidOperationLog(
                    "search key must be at most 256 UTF-8 bytes"))
            &&& !broken_0 && !broken_1 && !broken_2 ==> outcome is Ok
        }),
{
}

/// A saved console fails by the first of its rules that is broken.
pub proof fn law_console_fails_by_its_first_broken_rule(
    record: SavedConsoleRecord,
)
    ensures
        ({
            let outcome = console_fields_check(record);
            let broken_0 = byte_len(record.name@) > 512;
            let broken_1 = (record.data_source_id matches Some(text) && byte_len(text@) > 512);
            let broken_2 = (record.data_source_name matches Some(text)
                && byte_len(text@) > 1024) || (record.database_name matches Some(text)
                    && byte_len(text@) > 1024) || (record.schema_name matches Some(text)
                    && byte_len(text@) > 1024);
            let broken_3 = (record.database_type matches Some(text) && byte_len(text@) > 255);
            let broken_4 = byte_len(record.ddl@) > 16_777_216;
            let broken_5 = record.status@.len() == 0 || byte_len(record.status@) > 255;
            let broken_6 = record.tab_opened@ != "y"@ && record.tab_opened@ != "n"@;
            let broken_7 = record.operation_type@.len() == 0
                || byte_len(record.operation_type@) > 255;
            &&& broken_0 ==> outcome
                == Err::<(), StorageError>(StorageError::InvalidSavedConsole(
                    "name must be at most 512 UTF-8 bytes"))
            &&& !broken_0 && broken_1
                ==> outcome == Err::<(),
                    StorageError>(StorageError::InvalidSavedConsole(
                    "datasource id must be at most 512 UTF-8 bytes"))
            &&& !broken_0 && !broken_1 && broken_2
                ==> outcome == Err::<(),
                    StorageError>(StorageError::InvalidSavedConsole(
                    "datasource, database, and schema names must be at most 1024 UTF-8 bytes"))
            &&& !broken_0 && !broken_1 && !broken_2 && broken_3
                ==> outcome == Err::<(),
                    StorageError>(StorageError::InvalidSavedConsole(
                    "database type must be at most 255 UTF-8 bytes"))
            &&& !broken_0 && !broken_1 && !broken_2 && !broken_3 && broken_4
                ==> outcome == Err::<(),
                    StorageError>(StorageError::InvalidSavedConsole(
                    "SQL text must be at most 16 MiB"))
            &&& !broken_0 && !broken_1 && !broken_2 && !broken_3 && !broken_4 && broken_5
                ==> outcome == Err::<(),
                    StorageError>(StorageError::InvalidSavedConsole(
                    "status must be non-empty and at most 255 UTF-8 bytes"))
            &&& !broken_0 && !broken_1 && !broken_2 && !broken_3 && !broken_4 && !broken_5
                && broken_6 ==> outcome
                    == Err::<(), StorageError>(StorageError::InvalidSavedConsole(
                    "tab-opened must be either y or n"))
            &&& !broken_0 && !broken_1 && !broken_2 && !broken_3 && !broken_4 && !broken_5
                && !broken_6 && broken_7
                    ==> outcome == Err::<(),
                    StorageError>(StorageError::InvalidSavedConsole(
                    "operation type must be non-empty and at most 255 UTF-8 bytes"))
            &&& !broken_0 && !broken_1 && !broken_2 && !broken_3 && !broken_4 && !broken_5
                && !broken_6 && !broken_7 ==> outcome is Ok
        }),
{
}

/// A query of the saved consoles fails by the first of its rules that is broken.
pub proof fn law_console_query_fails_by_its_first_broken_rule(
    query: SavedConsoleListQuery,
)
    ensures
        ({
            let outcome = console_query_check(query);
            let broken_0 = query.page_no == 0;
            let broken_1 = query.page_size == 0 || query.page_size > 1_000;
            let broken_2 = (query.search_key matches Some(text) && byte_len(text@) > 256);
            &&& broken_0 ==> outcome
                == Err::<(), StorageError>(StorageError::InvalidSavedConsole(
                    "page number must be greater than zero"))
            &&& !broken_0 && broken_1
                ==> outcome == Err::<(),
                    StorageError>(StorageError::InvalidSavedConsole(
                    "page size must be between 1 and 1000"))
            &&& !broken_0 && !broken_1 && broken_2
                ==> outcome == Err::<(),
                    StorageError>(StorageError::InvalidSavedConsole(
                    "search key must be at most 256 UTF-8 bytes"))
            &&& !broken_0 && !broken_1 && !broken_2 ==> outcome is Ok
        }),
{
}

/// A dashboard fails by the first of its rules that is broken.
pub proof fn law_dashboard_fails_by_its_first_broken_rule(
    dashboard: CommunityDashboard,
)
    ensures
        ({
            let outcome = dashboard_fields_check(dashboard);
            let broken_0 = (dashboard.name matches Some(text)
                && (byte_len(text@) > 1024 || text@.contains('\0')));
            let broken_1 = (dashboard.description matches Some(text)
                && (byte_len(text@) > 1_048_576 || text@.contains('\0')));
            let broken_2 = (dashboard.schema matches Some(text)
                && (byte_len(text@) > 16_777_216 || text@.contains('\0')));
            let broken_3 = (dashboard.refresh_type matches Some(text)
                && (byte_len(text@) > 256 || text@.contains('\0')));
            let broken_4 = dashboard.chart_ids@.len() > 100_000;
            let broken_5 = byte_len(id_list(dashboard.chart_ids@)) > 2_097_152;
            let broken_6 = (dashboard.refresh_cycle matches Some(tree)
                && byte_len(rendered(document(tree))) > 16_777_216);
            &&& broken_0 ==> outcome
                == Err::<(), StorageError>(StorageError::InvalidCommunityDashboard(
                    "name must be at most 1024 UTF-8 bytes"))
            &&& !broken_0 && broken_1
                ==> outcome == Err::<(),
                    StorageError>(StorageError::InvalidCommunityDashboard(
                    "description must be at most 1 MiB"))
            &&& !broken_0 && !broken_1 && broken_2
                ==> outcome == Err::<(),
                    StorageError>(StorageError::InvalidCommunityDashboard(
                    "schema must be at most 16 MiB"))
            &&& !broken_0 && !broken_1 && !broken_2 && broken_3
                ==> outcome == Err::<(),
                    StorageError>(StorageError::InvalidCommunityDashboard(
                    "refreshType must be at most 256 UTF-8 bytes"))
            &&& !broken_0 && !broken_1 && !broken_2 && !broken_3 && broken_4
                ==> outcome == Err::<(),
                    StorageError>(StorageError::InvalidCommunityDashboard(
                    "chartIds must contain at most 100000 ids"))
            &&& !broken_0 && !broken_1 && !broken_2 && !broken_3 && !broken_4 && broken_5
                ==> outcome == Err::<(),
                    StorageError>(StorageError::InvalidCommunityDashboard(
                    "encoded chartIds exceeds the 2 MiB limit"))
            &&& !broken_0 && !broken_1 && !broken_2 && !broken_3 && !broken_4 && !broken_5
                && broken_6 ==> outcome
                    == Err::<(), StorageError>(StorageError::InvalidCommunityDashboard(
                    "refreshCycle exceeds the 16 MiB encoded JSON limit"))
            &&& !broken_0 && !broken_1 && !broken_2 && !broken_3 && !broken_4 && !broken_5
                && !broken_6 ==> outcome is Ok
        }),
{
}

/// A chart fails by the first of its rules that is broken.
pub proof fn law_chart_fails_by_its_first_broken_rule(
    chart: CommunityChart,
)
    ensures
        ({
            let outcome = chart_fields_check(chart);
            let broken_0 = (chart.name matches Some(text)
                && (byte_len(text@) > 1024 || text@.contains('\0')));
            let broken_1 = (chart.description matches Some(text)
                && (byte_len(text@) > 1_048_576 || text@.contains('\0')));
            let broken_2 = (chart.schema matches Some(text)
                && (byte_len(text@) > 16_777_216 || text@.contains('\0')));
            let broken_3 = (chart.data_source_name matches Some(text)
                && (byte_len(text@) > 1024 || text@.contains('\0')))
                    || (chart.schema_name matches Some(text)
                    && (byte_len(text@) > 1024 || text@.contains('\0')))
                    || (chart.database_name matches Some(text)
                    && (byte_len(text@) > 1024 || text@.contains('\0')));
            let broken_4 = (chart.chart_type matches Some(text)
                && (byte_len(text@) > 256 || text@.contains('\0')));
            let broken_5 = (chart.ddl matches Some(text)
                && (byte_len(text@) > 16_777_216 || text@.contains('\0')));
            let broken_6 = (chart.deleted matches Some(text)
                && (byte_len(text@) > 32 || text@.contains('\0')));
            let broken_7 = (chart.refresh_type matches Some(text)
                && (byte_len(text@) > 256 || text@.contains('\0')));
            let broken_8 = (chart.chart_schema matches Some(tree)
                && byte_len(rendered(document(tree))) > 16_777_216);
            let broken_9 = (chart.meta_data matches Some(tree)
                && byte_len(rendered(document(tree))) > 16_777_216);
            let broken_10 = (chart.database_info matches Some(tree)
                && byte_len(rendered(document(tree))) > 16_777_216);
            let broken_11 = (chart.refresh_cycle matches Some(tree)
                && byte_len(rendered(document(tree))) > 16_777_216);
            &&& broken_0 ==> outcome
                == Err::<(), StorageError>(StorageError::InvalidCommunityChart(
                    "name must be at most 1024 UTF-8 bytes"))
            &&& !broken_0 && broken_1
                ==> outcome == Err::<(),
                    StorageError>(StorageError::InvalidCommunityChart(
                    "description must be at most 1 MiB"))
            &&& !broken_0 && !broken_1 && broken_2
                ==> outcome == Err::<(),
                    StorageError>(StorageError::InvalidCommunityChart(
                    "schema must be at most 16 MiB"))
            &&& !broken_0 && !broken_1 && !broken_2 && broken_3
                ==> outcome == Err::<(),
                    StorageError>(StorageError::InvalidCommunityChart(
                    "datasource, schema, and database names must be at most 1024 UTF-8 bytes"))
            &&& !broken_0 && !broken_1 && !broken_2 && !broken_3 && broken_4
                ==> outcome == Err::<(),
                    StorageError>(StorageError::InvalidCommunityChart(
                    "type must be at most 256 UTF-8 bytes"))
            &&& !broken_0 && !broken_1 && !broken_2 && !broken_3 && !broken_4 && broken_5
                ==> outcome == Err::<(),
                    StorageError>(StorageError::InvalidCommunityChart("ddl must be at most 16 MiB"))
            &&& !broken_0 && !broken_1 && !broken_2 && !broken_3 && !broken_4 && !broken_5
                && broken_6 ==> outcome
                    == Err::<(), StorageError>(StorageError::InvalidCommunityChart(
                    "deleted must be at most 32 UTF-8 bytes"))
            &&& !broken_0 && !broken_1 && !broken_2 && !broken_3 && !broken_4 && !broken_5
                && !broken_6 && broken_7
                    ==> outcome == Err::<(),
                    StorageError>(StorageError::InvalidCommunityChart(
                    "refreshType must be at most 256 UTF-8 bytes"))
            &&& !broken_0 && !broken_1 && !broken_2 && !broken_3 && !broken_4 && !broken_5
                && !broken_6 && !broken_7 && broken_8
                    ==> outcome == Err::<(),
                    StorageError>(StorageError::InvalidCommunityChart(
                    "chartSchema exceeds the 16 MiB encoded JSON limit"))
            &&& !broken_0 && !broken_1 && !broken_2 && !broken_3 && !broken_4 && !broken_5
                && !broken_6 && !broken_7 && !broken_8 && broken_9
                    ==> outcome == Err::<(),
                    StorageError>(StorageError::InvalidCommunityChart(
                    "metaData exceeds the 16 MiB encoded JSON limit"))
            &&& !broken_0 && !broken_1 && !broken_2 && !broken_3 && !broken_4 && !broken_5
                && !broken_6 && !broken_7 && !broken_8 && !broken_9 && broken_10
                    ==> outcome == Err::<(),
                    StorageError>(StorageError::InvalidCommunityChart(
                    "databaseInfo exceeds the 16 MiB encoded JSON limit"))
            &&& !broken_0 && !broken_1 && !broken_2 && !broken_3 && !broken_4 && !broken_5
                && !broken_6 && !broken_7 && !broken_8 && !broken_9 && !broken_10 && broken_11
                    ==> outcome == Err::<(),
                    StorageError>(StorageError::InvalidCommunityChart(
                    "refreshCycle exceeds the 16 MiB encoded JSON limit"))
            &&& !broken_0 && !broken_1 && !broken_2 && !broken_3 && !broken_4 && !broken_5
                && !broken_6 && !broken_7 && !broken_8 && !broken_9 && !broken_10 && !broken_11
                    ==> outcome is Ok
        }),
{
}

/// A pin and an ER layout fail by the first of their rules that is broken.
pub proof fn law_workspace_input_fails_by_its_first_broken_rule(
    datasource_id: Seq<char>,
    database_name: Seq<char>,
    schema_name: Seq<char>,
    text: Seq<char>,
)
    ensures
        ({
            let outcome = pin_check(datasource_id, database_name, schema_name, text);
            let broken_0 = blank(datasource_id) || byte_len(datasource_id) > 512;
            let broken_1 = byte_len(database_name) > 256 || database_name.contains('\0');
            let broken_2 = byte_len(schema_name) > 256 || schema_name.contains('\0');
            let broken_3 = text.len() == 0 || byte_len(text) > 256 || text.contains('\0');
            &&& broken_0 ==> outcome
                == Err::<(), StorageError>(StorageError::InvalidWorkspace(
                    "datasource id must be non-empty and at most 512 UTF-8 bytes"))
            &&& !broken_0 && broken_1
                ==> outcome == Err::<(),
                    StorageError>(StorageError::InvalidWorkspace(
                    "database name must be NUL-free and at most 256 UTF-8 bytes"))
            &&& !broken_0 && !broken_1 && broken_2
                ==> outcome == Err::<(),
                    StorageError>(StorageError::InvalidWorkspace(
                    "schema name must be NUL-free and at most 256 UTF-8 bytes"))
            &&& !broken_0 && !broken_1 && !broken_2 && broken_3
                ==> outcome == Err::<(),
                    StorageError>(StorageError::InvalidWorkspace(
                    "table name must be non-empty, NUL-free, and at most 256 UTF-8 bytes"))
            &&& !broken_0 && !broken_1 && !broken_2 && !broken_3 ==> outcome is Ok
        }),
        ({
            let outcome = er_position_check(datasource_id, database_name, schema_name, text);
            let broken_0 = blank(datasource_id) || byte_len(datasource_id) > 512;
            let broken_1 = byte_len(database_name) > 256 || database_name.contains('\0');
            let broken_2 = byte_len(schema_name) > 256 || schema_name.contains('\0');
            let broken_3 = byte_len(text) > 16_777_216;
            &&& broken_0 ==> outcome
                == Err::<(), StorageError>(StorageError::InvalidWorkspace(
                    "datasource id must be non-empty and at most 512 UTF-8 bytes"))
            &&& !broken_0 && broken_1
                ==> outcome == Err::<(),
                    StorageError>(StorageError::InvalidWorkspace(
                    "database name must be NUL-free and at most 256 UTF-8 bytes"))
            &&& !broken_0 && !broken_1 && broken_2
                ==> outcome == Err::<(),
                    StorageError>(StorageError::InvalidWorkspace(
                    "schema name must be NUL-free and at most 256 UTF-8 bytes"))
            &&& !broken_0 && !broken_1 && !broken_2 && broken_3
                ==> outcome == Err::<(),
                    StorageError>(StorageError::InvalidWorkspace(
                    "ER position exceeds the 16 MiB UTF-8 limit"))
            &&& !broken_0 && !broken_1 && !broken_2 && !broken_3 ==> outcome is Ok
        }),
{
}

/// A new transfer task fails by the first of its rules that is broken.
pub proof fn law_new_task_fails_by_its_first_broken_rule(
    input: CreateTransferTask,
)
    ensures
        ({
            let outcome = create_task_check(input);
            let broken_0 = (blank(input.datasource_id@) || byte_len(input.datasource_id@) > 1024);
            let broken_1 = (blank(input.database_name@) || byte_len(input.database_name@) > 1024);
            let broken_2 = byte_len(input.schema_name@) > 1024;
            let broken_3 = (input.table_name matches Some(table)
                && (blank(table@) || byte_len(table@) > 1024));
            let broken_4 = (blank(input.task_name@) || byte_len(input.task_name@) > 1024);
            &&& broken_0 ==> outcome
                == Err::<(), StorageError>(StorageError::InvalidTransfer("datasource id"))
            &&& !broken_0 && broken_1
                ==> outcome == Err::<(),
                    StorageError>(StorageError::InvalidTransfer("database name"))
            &&& !broken_0 && !broken_1 && broken_2
                ==> outcome == Err::<(), StorageError>(StorageError::InvalidTransfer("schema name"))
            &&& !broken_0 && !broken_1 && !broken_2 && broken_3
                ==> outcome == Err::<(), StorageError>(StorageError::InvalidTransfer("table name"))
            &&& !broken_0 && !broken_1 && !broken_2 && !broken_3 && broken_4
                ==> outcome == Err::<(), StorageError>(StorageError::InvalidTransfer("task name"))
            &&& !broken_0 && !broken_1 && !broken_2 && !broken_3 && !broken_4 ==> outcome is Ok
        }),
{
}

/// A step of a transfer task fails by the first of its rules that is broken.
pub proof fn law_task_step_fails_by_its_first_broken_rule(
    id: i64,
    task: Option<TransferTaskRecord>,
    progress: TransferProgress,
    message: Seq<char>,
)
    ensures
        ({
            let outcome = start_check(id, task);
            let broken_0 = task is None;
            let broken_1 = !(task->0.status is Queued) || task->0.cancel_requested;
            &&& broken_0 ==> outcome
                == Err::<(), StorageError>(StorageError::TransferTaskNotFound(id))
            &&& !broken_0 && broken_1
                ==> outcome == Err::<(),
                    StorageError>(StorageError::InvalidTransfer(
                    "task cannot start in its current state"))
            &&& !broken_0 && !broken_1 ==> outcome is Ok
        }),
        ({
            let outcome = progress_check(id, progress, task);
            let broken_0 = byte_len(progress.description@) > 1024;
            let broken_1 = (progress.info matches Some(text) && byte_len(text@) > 262_144);
            let broken_2 = progress.current > i64::MAX;
            let broken_3 = (progress.total matches Some(total) && total > i64::MAX);
            let broken_4 = task is None;
            let broken_5 = !(task->0.status is Running);
            &&& broken_0 ==> outcome
                == Err::<(), StorageError>(StorageError::InvalidTransfer("progress description"))
            &&& !broken_0 && broken_1
                ==> outcome == Err::<(),
                    StorageError>(StorageError::InvalidTransfer("task info log entry"))
            &&& !broken_0 && !broken_1 && broken_2
                ==> outcome == Err::<(),
                    StorageError>(StorageError::NumericRange("transfer progress"))
            &&& !broken_0 && !broken_1 && !broken_2 && broken_3
                ==> outcome == Err::<(),
                    StorageError>(StorageError::NumericRange("transfer progress total"))
            &&& !broken_0 && !broken_1 && !broken_2 && !broken_3 && broken_4
                ==> outcome == Err::<(), StorageError>(StorageError::TransferTaskNotFound(id))
            &&& !broken_0 && !broken_1 && !broken_2 && !broken_3 && !broken_4 && broken_5
                ==> outcome == Err::<(),
                    StorageError>(StorageError::InvalidTransfer(
                    "task progress can only update while running"))
            &&& !broken_0 && !broken_1 && !broken_2 && !broken_3 && !broken_4 && !broken_5
                ==> outcome is Ok
        }),
        ({
            let outcome = ending_check(id, message, task);
            let broken_0 = byte_len(message) > 262_144;
            let broken_1 = task is None;
            let broken_2 = !(task->0.status is Queued) && !(task->0.status is Running);
            &&& broken_0 ==> outcome
                == Err::<(), StorageError>(StorageError::InvalidTransfer("task terminal message"))
            &&& !broken_0 && broken_1
                ==> outcome == Err::<(), StorageError>(StorageError::TransferTaskNotFound(id))
            &&& !broken_0 && !broken_1 && broken_2
                ==> outcome == Err::<(),
                    StorageError>(StorageError::InvalidTransfer(
                    "task is already in a terminal state"))
            &&& !broken_0 && !broken_1 && !broken_2 ==> outcome is Ok
        }),
        ({
            let outcome = completion_check(id, message, task);
            let broken_0 = byte_len(message) > 262_144;
            let broken_1 = task is None;
            let broken_2 = !(task->0.status is Running) || task->0.cancel_requested;
            &&& broken_0 ==> outcome
                == Err::<(), StorageError>(StorageError::InvalidTransfer("task completion message"))
            &&& !broken_0 && broken_1
                ==> outcome == Err::<(), StorageError>(StorageError::TransferTaskNotFound(id))
            &&& !broken_0 && !broken_1 && broken_2
                ==> outcome == Err::<(),
                    StorageError>(StorageError::InvalidTransfer(
                    "task cannot complete in its current state"))
            &&& !broken_0 && !broken_1 && !broken_2 ==> outcome is Ok
        }),
{
}

} // verus!
