use vstd::prelude::*;

use crate::catalog::{catalog, cataloged, law_catalog_is_ordered, CatalogOrder, Keyed};
use crate::commit::{CommitOutcome, Readback};
use crate::datasource::{decode_reference, reference_held};
use crate::error::StorageError;
use crate::number::{fits_sql, from_sql_u64, next_count, to_sql_i64};
use crate::row::{read_row, read_rows, row_read, rows_read, Row};
use crate::secret::{
    is_reference, is_same_reference, same_reference, SecretRef, SecretValue, SecretVaultError,
};
use crate::storage::Storage;
use crate::text::{
    blank, byte_len, contains_char, is_blank, same_text, strip_prefix, take_until, text_len, until,
};
use crate::vault::{
    apply_change, installed_reference, looked_up, next_reference, retired_reference, take_secret,
    SecretCommit, SecretMutation, StagedChange,
};

verus! {

/// Maximum UTF-8 bytes of a provider name.
pub const MAX_PROVIDER_NAME_BYTES: usize = 512;

/// Maximum UTF-8 bytes of a provider URL.
pub const MAX_PROVIDER_URL_BYTES: usize = 4096;

/// Maximum UTF-8 bytes of a model identifier.
pub const MAX_PROVIDER_MODEL_BYTES: usize = 512;

/// Provider protocols supported by the durable agent profile contract.
#[derive(Debug, Clone, Copy, PartialEq, Eq, Structural)]
pub enum ProviderKind {
    /// OpenAI-compatible HTTP APIs, including private compatible endpoints.
    OpenAiCompatible,
    /// Anthropic Messages API.
    Anthropic,
    /// Google Gemini API.
    Gemini,
}

impl ProviderKind {
    /// The name under which the value is persisted.
    pub open spec fn name(self) -> &'static str {
        match self {
            ProviderKind::OpenAiCompatible => "openai_compatible",
            ProviderKind::Anthropic => "anthropic",
            ProviderKind::Gemini => "gemini",
        }
    }

    /// The value persisted under a name.
    pub open spec fn persisted(text: Seq<char>) -> Result<ProviderKind, StorageError> {
        if text == ProviderKind::OpenAiCompatible.name()@ {
            Ok(ProviderKind::OpenAiCompatible)
        } else if text == ProviderKind::Anthropic.name()@ {
            Ok(ProviderKind::Anthropic)
        } else if text == ProviderKind::Gemini.name()@ {
            Ok(ProviderKind::Gemini)
        } else {
            Err(StorageError::InvalidProvider("persisted provider kind is invalid"))
        }
    }

    /// Returns the name under which the value is persisted.
    pub fn as_str(self) -> (result: &'static str)
        ensures
            result == self.name(),
    {
        match self {
            ProviderKind::OpenAiCompatible => "openai_compatible",
            ProviderKind::Anthropic => "anthropic",
            ProviderKind::Gemini => "gemini",
        }
    }

    /// Reads a persisted name.
    pub fn from_persisted(value: &str) -> (result: Result<ProviderKind, StorageError>)
        ensures
            result == ProviderKind::persisted(value@),
    {
        if same_text(value, "openai_compatible") {
            Ok(ProviderKind::OpenAiCompatible)
        } else if same_text(value, "anthropic") {
            Ok(ProviderKind::Anthropic)
        } else if same_text(value, "gemini") {
            Ok(ProviderKind::Gemini)
        } else {
            Err(StorageError::InvalidProvider("persisted provider kind is invalid"))
        }
    }

}

/// A persisted name reads back as the value it was written for.
pub proof fn law_provider_kind_round_trip(value: ProviderKind)
    ensures
        ProviderKind::persisted(value.name()@) == Ok::<ProviderKind, StorageError>(value),
{
    reveal_strlit("openai_compatible");
    reveal_strlit("anthropic");
    reveal_strlit("gemini");
    assert("openai_compatible"@.len() != "anthropic"@.len());
    assert("openai_compatible"@.len() != "gemini"@.len());
    assert("anthropic"@.len() != "gemini"@.len());
}

/// Public fields required to create a provider profile.
#[derive(Debug, Clone, PartialEq, Eq)]
pub struct CreateProviderProfile {
    /// User-visible profile name.
    pub name: String,
    /// Provider protocol family.
    pub kind: ProviderKind,
    /// Provider endpoint base URL.
    pub base_url: String,
    /// Default model identifier.
    pub model: String,
    /// Maximum model context window used by the agent budget.
    pub context_window_tokens: u64,
    /// Maximum completion tokens requested from the provider.
    pub max_output_tokens: u64,
}

/// Durable provider metadata. API-key bytes never enter this value.
#[derive(Debug, Clone, PartialEq, Eq)]
pub struct ProviderProfileRecord {
    /// Opaque provider profile id.
    pub id: String,
    /// User-visible profile name.
    pub name: String,
    /// Provider protocol family.
    pub kind: ProviderKind,
    /// Provider endpoint base URL.
    pub base_url: String,
    /// Default model identifier.
    pub model: String,
    /// Maximum model context window used by the agent budget.
    pub context_window_tokens: u64,
    /// Maximum completion tokens requested from the provider.
    pub max_output_tokens: u64,
    /// Opaque vault reference for the API key.
    pub secret_ref: Option<SecretRef>,
    /// Monotonic optimistic-concurrency revision.
    pub revision: u64,
    /// Creation time as Unix epoch milliseconds.
    pub created_at_ms: i64,
    /// Last update time as Unix epoch milliseconds.
    pub updated_at_ms: i64,
}

/// Public provider fields replaced by a revisioned update.
pub type UpdateProviderProfile = CreateProviderProfile;

/// A provider profile as its database row holds it.
#[derive(Debug, Clone, PartialEq, Eq)]
pub struct RawProvider {
    pub id: String,
    pub name: String,
    pub kind: String,
    pub base_url: String,
    pub model: String,
    pub context_window_tokens: i64,
    pub max_output_tokens: i64,
    pub secret_ref: Option<String>,
    pub revision: i64,
    pub created_at_ms: i64,
    pub updated_at_ms: i64,
}

/// What depends on a provider profile.
#[derive(Debug, Clone, Copy, PartialEq, Eq, Structural)]
pub struct ProviderUse {
    /// An active run of a session that uses the profile.
    pub active: bool,
    /// Any session that uses the profile.
    pub in_use: bool,
}

/// What follows the scheme of an HTTP or HTTPS URL.
pub open spec fn after_scheme(url: Seq<char>) -> Option<Seq<char>> {
    if "https://"@.is_prefix_of(url) {
        Some(url.skip("https://"@.len() as int))
    } else if "http://"@.is_prefix_of(url) {
        Some(url.skip("http://"@.len() as int))
    } else {
        None
    }
}

/// The URL names a host and carries neither credentials nor a query nor a fragment.
pub open spec fn plain_url(url: Seq<char>, rest: Seq<char>) -> bool {
    &&& until(rest, '/').len() > 0
    &&& !until(rest, '/').contains('@')
    &&& !url.contains('?')
    &&& !url.contains('#')
}

/// The rules of a provider profile; the first one broken decides the failure.
pub open spec fn provider_check(input: CreateProviderProfile) -> Result<(), StorageError> {
    if blank(input.name@) || byte_len(input.name@) > MAX_PROVIDER_NAME_BYTES {
        Err(StorageError::InvalidProvider("name must be non-empty and at most 512 UTF-8 bytes"))
    } else if blank(input.base_url@) || byte_len(input.base_url@) > MAX_PROVIDER_URL_BYTES {
        Err(
            StorageError::InvalidProvider(
                "base URL must be non-empty and at most 4096 UTF-8 bytes",
            ),
        )
    } else if after_scheme(input.base_url@) is None {
        Err(StorageError::InvalidProvider("base URL must use HTTP or HTTPS"))
    } else if !plain_url(input.base_url@, after_scheme(input.base_url@)->0) {
        Err(
            StorageError::InvalidProvider(
                "base URL cannot contain credentials, query, or fragment data",
            ),
        )
    } else if blank(input.model@) || byte_len(input.model@) > MAX_PROVIDER_MODEL_BYTES {
        Err(StorageError::InvalidProvider("model must be non-empty and at most 512 UTF-8 bytes"))
    } else if !fits_sql(input.context_window_tokens) {
        Err(StorageError::NumericRange("provider context window"))
    } else if input.context_window_tokens == 0 {
        Err(StorageError::InvalidProvider("context window must be greater than zero"))
    } else if !fits_sql(input.max_output_tokens) {
        Err(StorageError::NumericRange("provider max output tokens"))
    } else if input.max_output_tokens == 0 {
        Err(StorageError::InvalidProvider("maximum output tokens must be greater than zero"))
    } else if input.max_output_tokens > input.context_window_tokens {
        Err(StorageError::InvalidProvider("maximum output tokens cannot exceed the context window"))
    } else {
        Ok(())
    }
}

/// The first column of a provider row that is broken.
pub open spec fn provider_row_check(raw: RawProvider) -> Result<(), StorageError> {
    if ProviderKind::persisted(raw.kind@) is Err {
        Err(ProviderKind::persisted(raw.kind@)->Err_0)
    } else if raw.context_window_tokens < 0 {
        Err(StorageError::NumericRange("provider context window"))
    } else if raw.max_output_tokens < 0 {
        Err(StorageError::NumericRange("provider max output tokens"))
    } else if raw.secret_ref matches Some(key) && !is_reference(key@) {
        Err(StorageError::InvalidDatasource("persisted secret reference is invalid"))
    } else if raw.revision < 0 {
        Err(StorageError::NumericRange("provider revision"))
    } else {
        Ok(())
    }
}

/// A record holds the profile of a row.
pub open spec fn provider_held(record: ProviderProfileRecord, raw: RawProvider) -> bool {
    &&& reference_held(record.secret_ref, raw.secret_ref)
    &&& record == (ProviderProfileRecord {
        id: raw.id,
        name: raw.name,
        kind: ProviderKind::persisted(raw.kind@)->Ok_0,
        base_url: raw.base_url,
        model: raw.model,
        context_window_tokens: raw.context_window_tokens as u64,
        max_output_tokens: raw.max_output_tokens as u64,
        secret_ref: record.secret_ref,
        revision: raw.revision as u64,
        created_at_ms: raw.created_at_ms,
        updated_at_ms: raw.updated_at_ms,
    })
}

/// A profile with the fields of a request.
pub open spec fn provider_record(
    id: String,
    input: CreateProviderProfile,
    secret_ref: Option<SecretRef>,
    revision: u64,
    created_at_ms: i64,
    updated_at_ms: i64,
) -> ProviderProfileRecord {
    ProviderProfileRecord {
        id,
        name: input.name,
        kind: input.kind,
        base_url: input.base_url,
        model: input.model,
        context_window_tokens: input.context_window_tokens,
        max_output_tokens: input.max_output_tokens,
        secret_ref,
        revision,
        created_at_ms,
        updated_at_ms,
    }
}

/// A profile as it is created, with the reference of its staged key.
pub open spec fn provider_created(
    id: String,
    input: CreateProviderProfile,
    staged: Option<SecretRef>,
    timestamp: i64,
) -> Result<SecretMutation<ProviderProfileRecord>, StorageError> {
    match provider_check(input) {
        Err(error) => Err(error),
        Ok(_) => Ok(
            SecretMutation {
                record: provider_record(id, input, staged, 1, timestamp, timestamp),
                installed: staged,
                retired: None,
            },
        ),
    }
}

/// The profile at the revision that its caller saw.
pub open spec fn provider_at(
    id: String,
    expected_revision: u64,
    current: Option<ProviderProfileRecord>,
) -> Result<ProviderProfileRecord, StorageError> {
    match current {
        None => Err(StorageError::ProviderNotFound(id)),
        Some(record) => if record.revision != expected_revision {
            Err(
                StorageError::ProviderRevisionConflict {
                    id,
                    expected: expected_revision,
                    actual: Some(record.revision),
                },
            )
        } else {
            Ok(record)
        },
    }
}

/// What an update has to meet before a key is staged.
pub open spec fn provider_update_check(
    id: String,
    expected_revision: u64,
    input: CreateProviderProfile,
    current: Option<ProviderProfileRecord>,
) -> Result<(), StorageError> {
    match provider_check(input) {
        Err(error) => Err(error),
        Ok(_) => if expected_revision >= i64::MAX {
            Err(StorageError::NumericRange("provider revision"))
        } else {
            match provider_at(id, expected_revision, current) {
                Err(error) => Err(error),
                Ok(_) => Ok(()),
            }
        },
    }
}

/// The failure of a profile that an active run depends on.
pub open spec fn provider_busy(id: String) -> StorageError {
    StorageError::AgentDependencyBusy { resource: "provider profile", id }
}

/// An update replaces the fields, applies the key change and advances the revision by one, unless
/// an active run depends on the profile.
pub open spec fn provider_updated(
    id: String,
    expected_revision: u64,
    input: CreateProviderProfile,
    change: StagedChange,
    current: Option<ProviderProfileRecord>,
    active: bool,
    timestamp: i64,
) -> Result<SecretMutation<ProviderProfileRecord>, StorageError> {
    match provider_update_check(id, expected_revision, input, current) {
        Err(error) => Err(error),
        Ok(_) => if active {
            Err(provider_busy(id))
        } else {
            let record = current->0;
            Ok(
                SecretMutation {
                    record: provider_record(
                        record.id,
                        input,
                        next_reference(record.secret_ref, change),
                        (expected_revision + 1) as u64,
                        record.created_at_ms,
                        timestamp,
                    ),
                    installed: installed_reference(change),
                    retired: retired_reference(record.secret_ref, change),
                },
            )
        },
    }
}

/// A profile is deleted at the revision its caller saw, and its reference is retired, unless a run
/// depends on it or a session uses it.
pub open spec fn provider_deletion(
    id: String,
    expected_revision: u64,
    current: Option<ProviderProfileRecord>,
    usage: ProviderUse,
) -> Result<Option<SecretRef>, StorageError> {
    if !fits_sql(expected_revision) {
        Err(StorageError::NumericRange("provider revision"))
    } else {
        match provider_at(id, expected_revision, current) {
            Err(error) => Err(error),
            Ok(record) => if usage.active {
                Err(provider_busy(id))
            } else if usage.in_use {
                Err(StorageError::ProviderInUse(id))
            } else {
                Ok(record.secret_ref)
            },
        }
    }
}

/// Two records hold the same profile.
pub open spec fn same_provider(left: ProviderProfileRecord, right: ProviderProfileRecord) -> bool {
    &&& left.id@ == right.id@
    &&& left.name@ == right.name@
    &&& left.kind == right.kind
    &&& left.base_url@ == right.base_url@
    &&& left.model@ == right.model@
    &&& left.context_window_tokens == right.context_window_tokens
    &&& left.max_output_tokens == right.max_output_tokens
    &&& same_reference(left.secret_ref, right.secret_ref)
    &&& left.revision == right.revision
    &&& left.created_at_ms == right.created_at_ms
    &&& left.updated_at_ms == right.updated_at_ms
}

/// A creation took effect if the very record is there; otherwise it did not, and if the store
/// cannot be read nothing is known.
pub open spec fn provider_create_settled(
    expected: ProviderProfileRecord,
    readback: Readback<ProviderProfileRecord>,
) -> SecretCommit<ProviderProfileRecord> {
    match readback {
        Readback::Unreadable => SecretCommit::Unknown(
            StorageError::OutcomeUnknown { operation: "create provider profile", id: expected.id },
        ),
        Readback::Found(Some(actual)) => if same_provider(actual, expected) {
            SecretCommit::Applied(actual)
        } else {
            SecretCommit::NotApplied(expected.secret_ref)
        },
        Readback::Found(None) => SecretCommit::NotApplied(expected.secret_ref),
    }
}

/// An update took effect if the new record is there, had no effect if the old one is or if it lost
/// its race, and is unknown otherwise.
pub open spec fn provider_update_settled(
    previous: ProviderProfileRecord,
    expected: ProviderProfileRecord,
    staged: Option<SecretRef>,
    lost_race: bool,
    readback: Readback<ProviderProfileRecord>,
) -> SecretCommit<ProviderProfileRecord> {
    let unknown = SecretCommit::Unknown(
        StorageError::OutcomeUnknown { operation: "update provider profile", id: expected.id },
    );
    if lost_race {
        SecretCommit::NotApplied(staged)
    } else {
        match readback {
            Readback::Found(Some(actual)) => if same_provider(actual, expected) {
                SecretCommit::Applied(actual)
            } else if same_provider(actual, previous) {
                SecretCommit::NotApplied(staged)
            } else {
                unknown
            },
            _ => unknown,
        }
    }
}

/// A deletion took effect if the record is gone, had no effect if it is unchanged or if it lost its
/// race, and is unknown otherwise.
pub open spec fn provider_delete_settled(
    id: String,
    current: ProviderProfileRecord,
    lost_race: bool,
    readback: Readback<ProviderProfileRecord>,
) -> CommitOutcome<()> {
    let unknown = CommitOutcome::Unknown(
        StorageError::OutcomeUnknown { operation: "delete provider profile", id },
    );
    if lost_race {
        CommitOutcome::NotApplied
    } else {
        match readback {
            Readback::Found(None) => CommitOutcome::Applied(()),
            Readback::Found(Some(actual)) => if same_provider(actual, current) {
                CommitOutcome::NotApplied
            } else {
                unknown
            },
            Readback::Unreadable => unknown,
        }
    }
}

/// Checks the fields of a provider profile.
pub fn validate_provider(input: &CreateProviderProfile) -> (result: Result<(), StorageError>)
    ensures
        result == provider_check(*input),
{
    let name = input.name.as_str();
    let base_url = input.base_url.as_str();
    let model = input.model.as_str();
    if is_blank(name) || text_len(name) > MAX_PROVIDER_NAME_BYTES {
        return Err(
            StorageError::InvalidProvider("name must be non-empty and at most 512 UTF-8 bytes"),
        );
    }
    if is_blank(base_url) || text_len(base_url) > MAX_PROVIDER_URL_BYTES {
        return Err(
            StorageError::InvalidProvider(
                "base URL must be non-empty and at most 4096 UTF-8 bytes",
            ),
        );
    }
    let rest = match strip_prefix(base_url, "https://") {
        Some(rest) => rest,
        None => match strip_prefix(base_url, "http://") {
            Some(rest) => rest,
            None => return Err(StorageError::InvalidProvider("base URL must use HTTP or HTTPS")),
        },
    };
    let authority = take_until(rest, '/');
    let authority = authority.as_str();
    if authority.is_empty() || contains_char(authority, '@') || contains_char(base_url, '?')
        || contains_char(base_url, '#') {
        return Err(
            StorageError::InvalidProvider(
                "base URL cannot contain credentials, query, or fragment data",
            ),
        );
    }
    if is_blank(model) || text_len(model) > MAX_PROVIDER_MODEL_BYTES {
        return Err(
            StorageError::InvalidProvider("model must be non-empty and at most 512 UTF-8 bytes"),
        );
    }
    to_sql_i64(input.context_window_tokens, "provider context window")?;
    if input.context_window_tokens == 0 {
        return Err(StorageError::InvalidProvider("context window must be greater than zero"));
    }
    to_sql_i64(input.max_output_tokens, "provider max output tokens")?;
    if input.max_output_tokens == 0 {
        return Err(
            StorageError::InvalidProvider("maximum output tokens must be greater than zero"),
        );
    }
    if input.max_output_tokens > input.context_window_tokens {
        return Err(
            StorageError::InvalidProvider("maximum output tokens cannot exceed the context window"),
        );
    }
    Ok(())
}

/// Reads a provider row.
pub fn decode_provider(raw: RawProvider) -> (result: Result<ProviderProfileRecord, StorageError>)
    ensures
        match result {
            Ok(record) => provider_row_check(raw) is Ok && provider_held(record, raw),
            Err(error) => provider_row_check(raw) == Err::<(), StorageError>(error),
        },
{
    let kind = ProviderKind::from_persisted(raw.kind.as_str())?;
    let context_window_tokens: u64 = from_sql_u64(
        raw.context_window_tokens,
        "provider context window",
    )?;
    let max_output_tokens: u64 = from_sql_u64(raw.max_output_tokens, "provider max output tokens")?;
    let secret_ref = decode_reference(raw.secret_ref)?;
    let revision: u64 = from_sql_u64(raw.revision, "provider revision")?;
    Ok(
        ProviderProfileRecord {
            id: raw.id,
            name: raw.name,
            kind,
            base_url: raw.base_url,
            model: raw.model,
            context_window_tokens,
            max_output_tokens,
            secret_ref,
            revision,
            created_at_ms: raw.created_at_ms,
            updated_at_ms: raw.updated_at_ms,
        },
    )
}

/// Tests whether two records hold the same profile.
pub fn is_same_provider(left: &ProviderProfileRecord, right: &ProviderProfileRecord) -> (result:
    bool)
    ensures
        result == same_provider(*left, *right),
{
    same_text(left.id.as_str(), right.id.as_str()) && same_text(
        left.name.as_str(),
        right.name.as_str(),
    ) && left.kind == right.kind && same_text(left.base_url.as_str(), right.base_url.as_str())
        && same_text(left.model.as_str(), right.model.as_str()) && left.context_window_tokens
        == right.context_window_tokens && left.max_output_tokens == right.max_output_tokens
        && is_same_reference(&left.secret_ref, &right.secret_ref) && left.revision
        == right.revision && left.created_at_ms == right.created_at_ms && left.updated_at_ms
        == right.updated_at_ms
}

/// The failure of a profile at another revision than its caller saw.
pub fn provider_revision_conflict(id: &String, expected: u64, actual: Option<u64>) -> (result:
    StorageError)
    ensures
        result == (StorageError::ProviderRevisionConflict { id: *id, expected, actual }),
{
    StorageError::ProviderRevisionConflict { id: id.clone(), expected, actual }
}

/// Refuses to change a profile that an active run depends on.
pub fn reject_active_provider_mutation(id: &String, active: bool) -> (result: Result<
    (),
    StorageError,
>)
    ensures
        result == (if active {
            Err::<(), StorageError>(provider_busy(*id))
        } else {
            Ok(())
        }),
{
    if active {
        return Err(
            StorageError::AgentDependencyBusy { resource: "provider profile", id: id.clone() },
        );
    }
    Ok(())
}

/// Refuses to delete a profile that a session uses.
pub fn reject_provider_delete_if_in_use(id: &String, in_use: bool) -> (result: Result<
    (),
    StorageError,
>)
    ensures
        result == (if in_use {
            Err::<(), StorageError>(StorageError::ProviderInUse(*id))
        } else {
            Ok(())
        }),
{
    if in_use {
        return Err(StorageError::ProviderInUse(id.clone()));
    }
    Ok(())
}

impl Row for RawProvider {
    type Record = ProviderProfileRecord;

    open spec fn broken(self) -> Option<StorageError> {
        match provider_row_check(self) {
            Ok(_) => None,
            Err(error) => Some(error),
        }
    }

    open spec fn holds(self, record: ProviderProfileRecord) -> bool {
        provider_held(record, self)
    }

    fn read(self) -> (result: Result<ProviderProfileRecord, StorageError>) {
        decode_provider(self)
    }
}

impl Keyed for RawProvider {
    open spec fn rank(self) -> i64 {
        self.created_at_ms
    }

    open spec fn key(self) -> Seq<char> {
        self.id@
    }

    fn entry_rank(&self) -> (result: i64) {
        self.created_at_ms
    }

    fn entry_key(&self) -> (result: &str) {
        self.id.as_str()
    }
}

/// The profiles are listed in the order of their creation.
pub open spec fn providers_listed(
    rows: Seq<RawProvider>,
    result: Result<Vec<ProviderProfileRecord>, StorageError>,
) -> bool {
    exists|list: Seq<RawProvider>| #[trigger]
        cataloged(list, rows, CatalogOrder::Ascending) && rows_read(list, result)
}

impl Storage {
    /// Reads a provider profile.
    pub fn get_provider_profile(row: Option<RawProvider>) -> (result: Result<
        Option<ProviderProfileRecord>,
        StorageError,
    >)
        ensures
            row_read(row, result),
    {
        read_row(row)
    }

    /// Lists provider profiles in the order of their creation.
    pub fn list_provider_profiles(rows: Vec<RawProvider>) -> (result: Result<
        Vec<ProviderProfileRecord>,
        StorageError,
    >)
        ensures
            providers_listed(rows@, result),
    {
        let list = catalog(rows, CatalogOrder::Ascending);
        let ghost ordered = list@;
        let records = read_rows(list);
        assert(cataloged(ordered, rows@, CatalogOrder::Ascending));
        records
    }

    /// Creates a provider profile, with the reference of its staged key.
    pub fn create_provider_profile(
        id: String,
        input: CreateProviderProfile,
        staged: Option<SecretRef>,
        timestamp: i64,
    ) -> (result: Result<SecretMutation<ProviderProfileRecord>, StorageError>)
        ensures
            result == provider_created(id, input, staged, timestamp),
    {
        validate_provider(&input)?;
        let installed = staged.clone();
        Ok(
            SecretMutation {
                record: ProviderProfileRecord {
                    id,
                    name: input.name,
                    kind: input.kind,
                    base_url: input.base_url,
                    model: input.model,
                    context_window_tokens: input.context_window_tokens,
                    max_output_tokens: input.max_output_tokens,
                    secret_ref: staged,
                    revision: 1,
                    created_at_ms: timestamp,
                    updated_at_ms: timestamp,
                },
                installed,
                retired: None,
            },
        )
    }

    /// Checks an update before a key is staged for it.
    pub fn check_provider_update(
        id: &String,
        expected_revision: u64,
        input: &UpdateProviderProfile,
        current: &Option<ProviderProfileRecord>,
    ) -> (result: Result<(), StorageError>)
        ensures
            result == provider_update_check(*id, expected_revision, *input, *current),
    {
        validate_provider(input)?;
        let revision: u64 = next_count(expected_revision, "provider revision")?;
        to_sql_i64(revision, "provider revision")?;
        match current {
            None => Err(StorageError::ProviderNotFound(id.clone())),
            Some(record) => if record.revision != expected_revision {
                Err(provider_revision_conflict(id, expected_revision, Some(record.revision)))
            } else {
                Ok(())
            },
        }
    }

    /// Replaces the fields of a provider profile and applies a key change.
    pub fn update_provider_profile(
        id: &String,
        expected_revision: u64,
        input: UpdateProviderProfile,
        change: StagedChange,
        current: Option<ProviderProfileRecord>,
        active: bool,
        timestamp: i64,
    ) -> (result: Result<SecretMutation<ProviderProfileRecord>, StorageError>)
        ensures
            result == provider_updated(
                *id,
                expected_revision,
                input,
                change,
                current,
                active,
                timestamp,
            ),
    {
        validate_provider(&input)?;
        let revision: u64 = next_count(expected_revision, "provider revision")?;
        to_sql_i64(revision, "provider revision")?;
        let record = match current {
            Some(record) => record,
            None => return Err(StorageError::ProviderNotFound(id.clone())),
        };
        if record.revision != expected_revision {
            return Err(provider_revision_conflict(id, expected_revision, Some(record.revision)));
        }
        reject_active_provider_mutation(id, active)?;
        let (secret_ref, installed, retired) = apply_change(record.secret_ref, change);
        Ok(
            SecretMutation {
                record: ProviderProfileRecord {
                    id: record.id,
                    name: input.name,
                    kind: input.kind,
                    base_url: input.base_url,
                    model: input.model,
                    context_window_tokens: input.context_window_tokens,
                    max_output_tokens: input.max_output_tokens,
                    secret_ref,
                    revision,
                    created_at_ms: record.created_at_ms,
                    updated_at_ms: timestamp,
                },
                installed,
                retired,
            },
        )
    }

    /// Decides whether a provider profile may be deleted, and which reference it gives up.
    pub fn delete_provider_profile(
        id: &String,
        expected_revision: u64,
        current: Option<ProviderProfileRecord>,
        usage: ProviderUse,
    ) -> (result: Result<Option<SecretRef>, StorageError>)
        ensures
            result == provider_deletion(*id, expected_revision, current, usage),
    {
        to_sql_i64(expected_revision, "provider revision")?;
        let record = match current {
            Some(record) => record,
            None => return Err(StorageError::ProviderNotFound(id.clone())),
        };
        if record.revision != expected_revision {
            return Err(provider_revision_conflict(id, expected_revision, Some(record.revision)));
        }
        reject_active_provider_mutation(id, usage.active)?;
        reject_provider_delete_if_in_use(id, usage.in_use)?;
        Ok(record.secret_ref)
    }

    /// Puts a profile together with the key that the vault answered for its reference; there is
    /// no answer if the profile has no reference.
    pub fn get_provider_profile_with_secret(
        id: &String,
        record: Option<ProviderProfileRecord>,
        answer: Option<Result<Option<SecretValue>, SecretVaultError>>,
    ) -> (result: Result<(ProviderProfileRecord, Option<SecretValue>), StorageError>)
        ensures
            result == (match record {
                None => Err(StorageError::ProviderNotFound(*id)),
                Some(found) => match answer {
                    None => Ok((found, None)),
                    Some(lookup) => match looked_up(lookup) {
                        Err(error) => Err(error),
                        Ok(value) => Ok((found, Some(value))),
                    },
                },
            }),
    {
        let found = match record {
            Some(found) => found,
            None => return Err(StorageError::ProviderNotFound(id.clone())),
        };
        match answer {
            None => Ok((found, None)),
            Some(lookup) => {
                let value = take_secret(lookup)?;
                Ok((found, Some(value)))
            },
        }
    }

    /// Settles a creation whose commit reported a failure.
    pub fn reconcile_provider_create_commit(
        expected: ProviderProfileRecord,
        readback: Readback<ProviderProfileRecord>,
    ) -> (result: SecretCommit<ProviderProfileRecord>)
        ensures
            result == provider_create_settled(expected, readback),
    {
        match readback {
            Readback::Unreadable => SecretCommit::Unknown(
                StorageError::OutcomeUnknown {
                    operation: "create provider profile",
                    id: expected.id,
                },
            ),
            Readback::Found(Some(actual)) => if is_same_provider(&actual, &expected) {
                SecretCommit::Applied(actual)
            } else {
                SecretCommit::NotApplied(expected.secret_ref)
            },
            Readback::Found(None) => SecretCommit::NotApplied(expected.secret_ref),
        }
    }

    /// Settles an update whose commit reported a failure.
    pub fn reconcile_provider_update_commit(
        previous: &ProviderProfileRecord,
        expected: ProviderProfileRecord,
        staged: Option<SecretRef>,
        lost_race: bool,
        readback: Readback<ProviderProfileRecord>,
    ) -> (result: SecretCommit<ProviderProfileRecord>)
        ensures
            result == provider_update_settled(*previous, expected, staged, lost_race, readback),
    {
        if lost_race {
            return SecretCommit::NotApplied(staged);
        }
        if let Readback::Found(Some(actual)) = readback {
            if is_same_provider(&actual, &expected) {
                return SecretCommit::Applied(actual);
            }
            if is_same_provider(&actual, previous) {
                return SecretCommit::NotApplied(staged);
            }
        }
        SecretCommit::Unknown(
            StorageError::OutcomeUnknown { operation: "update provider profile", id: expected.id },
        )
    }

    /// Settles a deletion whose commit reported a failure.
    pub fn reconcile_provider_delete_commit(
        id: &String,
        current: &ProviderProfileRecord,
        lost_race: bool,
        readback: Readback<ProviderProfileRecord>,
    ) -> (result: CommitOutcome<()>)
        ensures
            result == provider_delete_settled(*id, *current, lost_race, readback),
    {
        if lost_race {
            return CommitOutcome::NotApplied;
        }
        match readback {
            Readback::Found(None) => return CommitOutcome::Applied(()),
            Readback::Found(Some(actual)) => if is_same_provider(&actual, current) {
                return CommitOutcome::NotApplied;
            },
            Readback::Unreadable => {},
        }
        CommitOutcome::Unknown(
            StorageError::OutcomeUnknown { operation: "delete provider profile", id: id.clone() },
        )
    }
}

/// Of two updates that saw the same revision only the first is accepted.
pub proof fn law_provider_update_is_optimistic(
    id: String,
    expected_revision: u64,
    input: CreateProviderProfile,
    change: StagedChange,
    current: Option<ProviderProfileRecord>,
    active: bool,
    timestamp: i64,
    later: CreateProviderProfile,
    later_change: StagedChange,
    later_active: bool,
    later_timestamp: i64,
)
    requires
        provider_updated(id, expected_revision, input, change, current, active, timestamp) is Ok,
        provider_check(later) is Ok,
    ensures
        ({
            let next = provider_updated(
                id,
                expected_revision,
                input,
                change,
                current,
                active,
                timestamp,
            )->Ok_0.record;
            &&& next.revision == expected_revision + 1
            &&& provider_updated(
                id,
                expected_revision,
                later,
                later_change,
                Some(next),
                later_active,
                later_timestamp,
            ) == Err::<SecretMutation<ProviderProfileRecord>, StorageError>(
                StorageError::ProviderRevisionConflict {
                    id,
                    expected: expected_revision,
                    actual: Some((expected_revision + 1) as u64),
                },
            )
        }),
{
}

/// A profile that a run depends on is not changed, and one that a session uses is not deleted.
pub proof fn law_used_provider_stays(
    id: String,
    expected_revision: u64,
    input: CreateProviderProfile,
    change: StagedChange,
    current: Option<ProviderProfileRecord>,
    usage: ProviderUse,
    timestamp: i64,
)
    ensures
        provider_updated(id, expected_revision, input, change, current, true, timestamp) is Err,
        (usage.active || usage.in_use) ==> provider_deletion(
            id,
            expected_revision,
            current,
            usage,
        ) is Err,
{
}

/// An accepted profile is stored as given: all of its numbers fit the database.
pub proof fn law_valid_provider_fits(input: CreateProviderProfile)
    requires
        provider_check(input) is Ok,
    ensures
        fits_sql(input.context_window_tokens),
        fits_sql(input.max_output_tokens),
        0 < input.max_output_tokens <= input.context_window_tokens,
{
}

/// The URL is one of a scheme, a host without an `@`, and, from a first `/` on, a path; nothing in
/// it is a `?` or a `#`.
pub open spec fn url_of(url: Seq<char>, scheme: Seq<char>, host: Seq<char>, path: Seq<char>) -> bool {
    &&& url == scheme + host + path
    &&& scheme == "https://"@ || scheme == "http://"@
    &&& host.len() > 0
    &&& !host.contains('/')
    &&& !host.contains('@')
    &&& path.len() > 0 ==> path[0] == '/'
    &&& !url.contains('?')
    &&& !url.contains('#')
}

/// The URL names a host by HTTP or HTTPS and carries neither credentials nor a query nor a
/// fragment.
pub open spec fn base_url_accepted(url: Seq<char>) -> bool {
    exists|scheme: Seq<char>, host: Seq<char>, path: Seq<char>| #[trigger]
        url_of(url, scheme, host, path)
}

proof fn lemma_until(text: Seq<char>, stop: char)
    ensures
        until(text, stop).is_prefix_of(text),
        !until(text, stop).contains(stop),
        until(text, stop).len() < text.len() ==> text[until(text, stop).len() as int] == stop,
    decreases text.len(),
{
    if text.len() > 0 && text[0] != stop {
        lemma_until(text.drop_first(), stop);
        let rest = until(text.drop_first(), stop);
        let all = until(text, stop);
        assert(all =~= seq![text[0]] + rest);
        assert(text.take(all.len() as int) =~= seq![text[0]] + text.drop_first().take(
            rest.len() as int,
        ));
        if all.contains(stop) {
            let i = choose|i: int| 0 <= i < all.len() && all[i] == stop;
            assert(rest[i - 1] == stop);
            assert(false);
        }
    }
}

proof fn lemma_until_of_parts(host: Seq<char>, path: Seq<char>, stop: char)
    requires
        !host.contains(stop),
        path.len() > 0 ==> path[0] == stop,
    ensures
        until(host + path, stop) == host,
    decreases host.len(),
{
    let text = host + path;
    if host.len() > 0 {
        assert(host.contains(host[0]));
        assert(text.drop_first() =~= host.drop_first() + path);
        if host.drop_first().contains(stop) {
            let i = choose|i: int|
                0 <= i < host.drop_first().len() && host.drop_first()[i] == stop;
            assert(host[i + 1] == stop);
            assert(false);
        }
        lemma_until_of_parts(host.drop_first(), path, stop);
        assert(until(text, stop) =~= host);
    } else {
        assert(text =~= path);
        assert(until(text, stop) =~= host);
    }
}

proof fn lemma_base_url(url: Seq<char>)
    ensures
        (after_scheme(url) is Some && plain_url(url, after_scheme(url)->0)) <==> base_url_accepted(
            url,
        ),
{
    reveal_strlit("https://");
    reveal_strlit("http://");
    if after_scheme(url) is Some {
        let rest = after_scheme(url)->0;
        let scheme = url.take(url.len() - rest.len());
        lemma_until(rest, '/');
        let host = until(rest, '/');
        let path = rest.skip(host.len() as int);
        assert(url =~= scheme + host + path);
        assert(scheme == "https://"@ || scheme == "http://"@);
        if plain_url(url, rest) {
            assert(url_of(url, scheme, host, path));
        }
    }
    if base_url_accepted(url) {
        let (scheme, host, path) = choose|scheme: Seq<char>, host: Seq<char>, path: Seq<char>|
         #[trigger]
            url_of(url, scheme, host, path);
        lemma_until_of_parts(host, path, '/');
        assert(url.take(scheme.len() as int) =~= scheme);
        assert(scheme.is_prefix_of(url));
        assert(url.skip(scheme.len() as int) =~= host + path);
        if scheme == "http://"@ {
            assert(url[4] == scheme[4]);
            assert(!"https://"@.is_prefix_of(url)) by {
                if "https://"@.is_prefix_of(url) {
                    assert(url[4] == "https://"@[4]);
                }
            }
        }
    }
}

/// A profile is valid exactly if its name and its model are not blank, its URL names a host by HTTP
/// or HTTPS and carries neither credentials nor a query nor a fragment, every text is within its
/// bound, and the output tokens are at least one and no more than the context window.
pub proof fn law_provider_is_valid(input: CreateProviderProfile)
    ensures
        provider_check(input) is Ok <==> {
            &&& !blank(input.name@) && byte_len(input.name@) <= 512
            &&& !blank(input.base_url@) && byte_len(input.base_url@) <= 4096
            &&& base_url_accepted(input.base_url@)
            &&& !blank(input.model@) && byte_len(input.model@) <= 512
            &&& 0 < input.max_output_tokens <= input.context_window_tokens <= i64::MAX
        },
{
    lemma_base_url(input.base_url@);
}

/// A profile is created with every field that was asked for, the reference of the staged key, at
/// revision one and at the given time, if it is valid.
pub proof fn law_provider_is_created_as_asked(
    id: String,
    input: CreateProviderProfile,
    staged: Option<SecretRef>,
    timestamp: i64,
)
    ensures
        provider_created(id, input, staged, timestamp) matches Ok(done) ==> {
            &&& done.record.id == id
            &&& done.record.name == input.name
            &&& done.record.kind == input.kind
            &&& done.record.base_url == input.base_url
            &&& done.record.model == input.model
            &&& done.record.context_window_tokens == input.context_window_tokens
            &&& done.record.max_output_tokens == input.max_output_tokens
            &&& done.record.secret_ref == staged
            &&& done.record.revision == 1
            &&& done.record.created_at_ms == timestamp
            &&& done.record.updated_at_ms == timestamp
            &&& done.installed == staged
            &&& done.retired is None
        },
        provider_created(id, input, staged, timestamp) is Ok <==> {
            &&& !blank(input.name@) && byte_len(input.name@) <= 512
            &&& !blank(input.base_url@) && byte_len(input.base_url@) <= 4096
            &&& base_url_accepted(input.base_url@)
            &&& !blank(input.model@) && byte_len(input.model@) <= 512
            &&& 0 < input.max_output_tokens <= input.context_window_tokens <= i64::MAX
        },
{
    law_provider_is_valid(input);
}

/// An update gives the profile every field that was asked for, moves its key as asked, advances its
/// revision by one and sets its update time to the given one; its id and its creation time stay.
pub proof fn law_provider_update_sets_what_is_asked(
    id: String,
    expected_revision: u64,
    input: CreateProviderProfile,
    change: StagedChange,
    current: ProviderProfileRecord,
    active: bool,
    timestamp: i64,
)
    ensures
        provider_updated(
            id,
            expected_revision,
            input,
            change,
            Some(current),
            active,
            timestamp,
        ) matches Ok(done) ==> {
            &&& done.record.name == input.name
            &&& done.record.kind == input.kind
            &&& done.record.base_url == input.base_url
            &&& done.record.model == input.model
            &&& done.record.context_window_tokens == input.context_window_tokens
            &&& done.record.max_output_tokens == input.max_output_tokens
            &&& done.record.id == current.id
            &&& done.record.created_at_ms == current.created_at_ms
            &&& done.record.updated_at_ms == timestamp
            &&& done.record.revision == current.revision + 1
            &&& change is Keep ==> done.record.secret_ref == current.secret_ref
                && done.installed is None && done.retired is None
            &&& change is Clear ==> done.record.secret_ref is None && done.installed is None
                && done.retired == current.secret_ref
            &&& change matches StagedChange::Replace(new) ==> done.record.secret_ref == Some(new)
                && done.installed == Some(new) && (current.secret_ref matches Some(old)
                ==> done.retired == (if old.key()@ == new.key()@ {
                None
            } else {
                Some(old)
            })) && (current.secret_ref is None ==> done.retired is None)
        },
{
}

/// An update is accepted exactly if the fields are valid, the profile is there at the revision that
/// was expected, its next revision can be stored, and no active run depends on it.
pub proof fn law_provider_update_is_accepted(
    id: String,
    expected_revision: u64,
    input: CreateProviderProfile,
    change: StagedChange,
    current: Option<ProviderProfileRecord>,
    active: bool,
    timestamp: i64,
)
    ensures
        provider_updated(
            id,
            expected_revision,
            input,
            change,
            current,
            active,
            timestamp,
        ) is Ok <==> {
            &&& !blank(input.name@) && byte_len(input.name@) <= 512
            &&& !blank(input.base_url@) && byte_len(input.base_url@) <= 4096
            &&& base_url_accepted(input.base_url@)
            &&& !blank(input.model@) && byte_len(input.model@) <= 512
            &&& 0 < input.max_output_tokens <= input.context_window_tokens <= i64::MAX
            &&& current matches Some(record) && record.revision == expected_revision
            &&& expected_revision < i64::MAX
            &&& !active
        },
{
    law_provider_is_valid(input);
}

/// A profile is deleted exactly if it is there at the revision that was expected, no active run
/// depends on it and no session uses it; its reference is given up.
pub proof fn law_provider_deletion_gives_up_its_reference(
    id: String,
    expected_revision: u64,
    current: Option<ProviderProfileRecord>,
    usage: ProviderUse,
)
    ensures
        provider_deletion(id, expected_revision, current, usage) is Ok <==> {
            &&& current matches Some(record) && record.revision == expected_revision
            &&& expected_revision <= i64::MAX
            &&& !usage.active
            &&& !usage.in_use
        },
        provider_deletion(id, expected_revision, current, usage) matches Ok(retired) ==> (
        current matches Some(record) && retired == record.secret_ref),
{
}

/// A row is read into a record with the same values, if its numbers are not negative, its protocol
/// is a known one and its reference, if there is one, is valid.
pub proof fn law_provider_row_is_read_as_it_is(raw: RawProvider, record: ProviderProfileRecord)
    ensures
        provider_row_check(raw) is Ok <==> {
            &&& raw.kind@ == "openai_compatible"@ || raw.kind@ == "anthropic"@ || raw.kind@
                == "gemini"@
            &&& raw.context_window_tokens >= 0
            &&& raw.max_output_tokens >= 0
            &&& raw.secret_ref matches Some(key) ==> is_reference(key@)
            &&& raw.revision >= 0
        },
        provider_row_check(raw) is Ok && provider_held(record, raw) ==> {
            &&& record.id == raw.id
            &&& record.name == raw.name
            &&& record.kind is OpenAiCompatible <==> raw.kind@ == "openai_compatible"@
            &&& record.kind is Anthropic <==> raw.kind@ == "anthropic"@
            &&& record.kind is Gemini <==> raw.kind@ == "gemini"@
            &&& record.base_url == raw.base_url
            &&& record.model == raw.model
            &&& record.context_window_tokens == raw.context_window_tokens
            &&& record.max_output_tokens == raw.max_output_tokens
            &&& raw.secret_ref is None ==> record.secret_ref is None
            &&& raw.secret_ref matches Some(key) ==> (record.secret_ref matches Some(held)
                && held.key() == key)
            &&& record.revision == raw.revision
            &&& record.created_at_ms == raw.created_at_ms
            &&& record.updated_at_ms == raw.updated_at_ms
        },
{
    reveal_strlit("openai_compatible");
    reveal_strlit("anthropic");
    reveal_strlit("gemini");
    assert("openai_compatible"@.len() == 17);
    assert("anthropic"@.len() == 9);
    assert("gemini"@.len() == 6);
}

/// A commit that reported a failure has taken effect exactly if the store holds the new profile
/// with all of its fields, and has had none if it holds the old one or none at all.
pub proof fn law_provider_commit_is_settled_by_what_is_stored(
    previous: ProviderProfileRecord,
    expected: ProviderProfileRecord,
    staged: Option<SecretRef>,
    lost_race: bool,
    readback: Readback<ProviderProfileRecord>,
)
    ensures
        provider_create_settled(expected, readback) is Applied <==> (
        readback matches Readback::Found(Some(actual)) && same_provider(actual, expected)),
        provider_create_settled(expected, readback) is Unknown <==> readback is Unreadable,
        provider_create_settled(expected, readback) matches SecretCommit::NotApplied(left) ==> left
            == expected.secret_ref,
        provider_create_settled(expected, readback) matches SecretCommit::Applied(actual)
            ==> readback == Readback::Found(Some(actual)),
        provider_update_settled(previous, expected, staged, lost_race, readback) is Applied <==> !
        lost_race && (readback matches Readback::Found(Some(actual)) && same_provider(
            actual,
            expected,
        )),
        provider_update_settled(
            previous,
            expected,
            staged,
            lost_race,
            readback,
        ) matches SecretCommit::Applied(actual) ==> readback == Readback::Found(Some(actual)),
        provider_update_settled(previous, expected, staged, lost_race, readback) is NotApplied
            <==> {
            ||| lost_race
            ||| (readback matches Readback::Found(Some(actual)) && !same_provider(actual, expected)
                && same_provider(actual, previous))
        },
        provider_update_settled(
            previous,
            expected,
            staged,
            lost_race,
            readback,
        ) matches SecretCommit::NotApplied(left) ==> left == staged,
        provider_delete_settled(expected.id, previous, lost_race, readback) is Applied <==> !
        lost_race && readback == Readback::<ProviderProfileRecord>::Found(None),
        provider_delete_settled(expected.id, previous, lost_race, readback) is NotApplied <==> {
            ||| lost_race
            ||| (readback matches Readback::Found(Some(actual)) && same_provider(actual, previous))
        },
{
}

/// Two records are the same profile exactly if all of their fields are the same.
pub proof fn law_same_provider_has_the_same_fields(
    left: ProviderProfileRecord,
    right: ProviderProfileRecord,
)
    ensures
        same_provider(left, right) <==> {
            &&& left.id@ == right.id@
            &&& left.name@ == right.name@
            &&& left.kind == right.kind
            &&& left.base_url@ == right.base_url@
            &&& left.model@ == right.model@
            &&& left.context_window_tokens == right.context_window_tokens
            &&& left.max_output_tokens == right.max_output_tokens
            &&& left.secret_ref is Some <==> right.secret_ref is Some
            &&& left.secret_ref matches Some(a) ==> (right.secret_ref matches Some(b) ==> a.key()@
                == b.key()@)
            &&& left.revision == right.revision
            &&& left.created_at_ms == right.created_at_ms
            &&& left.updated_at_ms == right.updated_at_ms
        },
{
}

/// All profiles are listed, the oldest one first.
pub proof fn law_providers_are_listed_by_their_creation(
    rows: Seq<RawProvider>,
    result: Result<Vec<ProviderProfileRecord>, StorageError>,
)
    requires
        providers_listed(rows, result),
    ensures
        result matches Ok(records) ==> {
            &&& records@.len() == rows.len()
            &&& forall|i: int, j: int|
                0 <= i < j < records@.len() ==> (#[trigger] records@[i]).created_at_ms <= (
                #[trigger] records@[j]).created_at_ms
            &&& forall|i: int|
                0 <= i < rows.len() ==> exists|k: int|
                    0 <= k < records@.len() && (#[trigger] records@[k]).id == (
                    #[trigger] rows[i]).id
        },
{
    if let Ok(records) = result {
        let list = choose|list: Seq<RawProvider>| #[trigger]
            cataloged(list, rows, CatalogOrder::Ascending) && rows_read(list, result);
        law_catalog_is_ordered(list, rows, CatalogOrder::Ascending);
        assert forall|i: int| 0 <= i < list.len() implies (#[trigger] records@[i]).created_at_ms
            == list[i].rank() && records@[i].id == list[i].id by {
            assert(list[i].broken() is None && list[i].holds(records@[i]));
        }
        assert forall|i: int| 0 <= i < rows.len() implies exists|k: int|
            0 <= k < records@.len() && (#[trigger] records@[k]).id == (#[trigger] rows[i]).id by {
            assert(list.contains(rows[i]));
            let k = choose|k: int| 0 <= k < list.len() && list[k] == rows[i];
            assert(records@[k].id == rows[i].id);
        }
    }
}

} // verus!
