use vstd::prelude::*;

use crate::catalog::{catalog, cataloged, law_catalog_is_ordered, CatalogOrder, Keyed};
use crate::commit::{CommitOutcome, Readback};
use crate::error::StorageError;
use crate::number::{fits_sql, from_sql_u64, next_count, successor, to_sql_i64};
use crate::row::{read_row, read_rows, row_read, rows_read, Row};
use crate::secret::{
    is_reference, is_same_reference, same_reference, SecretRef, SecretValue, SecretVaultError,
};
use crate::storage::Storage;
use crate::text::{blank, byte_len, is_blank, same_text, text_len};
use crate::vault::{
    apply_change, installed_reference, looked_up, next_reference, retired_reference, take_secret,
    SecretCommit, SecretMutation, StagedChange,
};

verus! {

/// Maximum UTF-8 bytes of a datasource name.
pub const MAX_NAME_BYTES: usize = 512;

/// Maximum UTF-8 bytes of a driver id.
pub const MAX_DRIVER_ID_BYTES: usize = 255;

/// Fields required to create a datasource record.
#[derive(Debug, Clone)]
pub struct CreateDatasource {
    /// User-visible datasource name.
    pub name: String,
    /// Compatibility-engine driver id.
    pub driver_id: String,
}

/// Public fields replaced by an optimistic datasource update.
#[derive(Debug, Clone)]
pub struct UpdateDatasource {
    /// User-visible datasource name.
    pub name: String,
    /// Compatibility-engine driver id.
    pub driver_id: String,
}

/// Durable datasource metadata. Secret material is represented only by a ref.
#[derive(Debug, Clone, PartialEq, Eq)]
pub struct DatasourceRecord {
    /// Opaque datasource id.
    pub id: String,
    /// User-visible datasource name.
    pub name: String,
    /// Compatibility-engine driver id.
    pub driver_id: String,
    /// Opaque OS-vault reference, never the secret itself.
    pub secret_ref: Option<SecretRef>,
    /// Monotonic optimistic-concurrency revision.
    pub revision: u64,
    /// Creation time as Unix epoch milliseconds.
    pub created_at_ms: i64,
    /// Last update time as Unix epoch milliseconds.
    pub updated_at_ms: i64,
}

/// A datasource as its database row holds it.
#[derive(Debug, Clone, PartialEq, Eq)]
pub struct RawDatasource {
    pub id: String,
    pub name: String,
    pub driver_id: String,
    pub secret_ref: Option<String>,
    pub revision: i64,
    pub created_at_ms: i64,
    pub updated_at_ms: i64,
}

/// The name is present and both fields are bounded.
pub open spec fn datasource_check(name: Seq<char>, driver_id: Seq<char>) -> Result<
    (),
    StorageError,
> {
    if blank(name) || byte_len(name) > MAX_NAME_BYTES {
        Err(
            StorageError::InvalidDatasource(
                "name must be non-empty and at most 512 UTF-8 bytes",
            ),
        )
    } else if driver_id.len() == 0 || byte_len(driver_id) > MAX_DRIVER_ID_BYTES {
        Err(
            StorageError::InvalidDatasource(
                "driver id must be non-empty and at most 255 UTF-8 bytes",
            ),
        )
    } else {
        Ok(())
    }
}

/// The first column of a datasource row that is broken.
pub open spec fn datasource_row_check(raw: RawDatasource) -> Result<(), StorageError> {
    if raw.secret_ref matches Some(key) && !is_reference(key@) {
        Err(StorageError::InvalidDatasource("persisted secret reference is invalid"))
    } else if raw.revision < 0 {
        Err(StorageError::NumericRange("datasource revision"))
    } else {
        Ok(())
    }
}

/// A record holds the datasource of a row.
pub open spec fn datasource_held(record: DatasourceRecord, raw: RawDatasource) -> bool {
    &&& reference_held(record.secret_ref, raw.secret_ref)
    &&& record == (DatasourceRecord {
        id: raw.id,
        name: raw.name,
        driver_id: raw.driver_id,
        secret_ref: record.secret_ref,
        revision: raw.revision as u64,
        created_at_ms: raw.created_at_ms,
        updated_at_ms: raw.updated_at_ms,
    })
}

/// A reference has the key of a column.
pub open spec fn reference_held(reference: Option<SecretRef>, key: Option<String>) -> bool {
    match (reference, key) {
        (None, None) => true,
        (Some(held), Some(text)) => held.key() == text,
        _ => false,
    }
}

/// A datasource as it is created, with the reference of its staged secret.
pub open spec fn datasource_created(
    id: String,
    input: CreateDatasource,
    staged: Option<SecretRef>,
    timestamp: i64,
) -> Result<SecretMutation<DatasourceRecord>, StorageError> {
    match datasource_check(input.name@, input.driver_id@) {
        Err(error) => Err(error),
        Ok(_) => Ok(
            SecretMutation {
                record: DatasourceRecord {
                    id,
                    name: input.name,
                    driver_id: input.driver_id,
                    secret_ref: staged,
                    revision: 1,
                    created_at_ms: timestamp,
                    updated_at_ms: timestamp,
                },
                installed: staged,
                retired: None,
            },
        ),
    }
}

/// The datasource at the revision that its caller saw.
pub open spec fn datasource_at(
    id: String,
    expected_revision: u64,
    current: Option<DatasourceRecord>,
) -> Result<DatasourceRecord, StorageError> {
    match current {
        None => Err(StorageError::DatasourceNotFound(id)),
        Some(record) => if record.revision != expected_revision {
            Err(
                StorageError::RevisionConflict {
                    id,
                    expected: expected_revision,
                    actual: Some(record.revision),
                },
            )
        } else {
            Ok(record)
        },
    }
}

/// What an update has to meet before a secret is staged.
pub open spec fn datasource_update_check(
    id: String,
    expected_revision: u64,
    input: UpdateDatasource,
    current: Option<DatasourceRecord>,
) -> Result<(), StorageError> {
    match datasource_check(input.name@, input.driver_id@) {
        Err(error) => Err(error),
        Ok(_) => match datasource_at(id, expected_revision, current) {
            Err(error) => Err(error),
            Ok(_) => Ok(()),
        },
    }
}

/// The failure of a datasource that an active run depends on.
pub open spec fn datasource_busy(id: String) -> StorageError {
    StorageError::AgentDependencyBusy { resource: "datasource", id }
}

/// An update replaces the fields, applies the secret change and advances the revision by one,
/// unless an active run depends on the datasource.
pub open spec fn datasource_updated(
    id: String,
    expected_revision: u64,
    input: UpdateDatasource,
    change: StagedChange,
    current: Option<DatasourceRecord>,
    active: bool,
    timestamp: i64,
) -> Result<SecretMutation<DatasourceRecord>, StorageError> {
    match datasource_update_check(id, expected_revision, input, current) {
        Err(error) => Err(error),
        Ok(_) => {
            let record = current->0;
            match successor(expected_revision, "datasource revision") {
                Err(error) => Err(error),
                Ok(revision) => if !fits_sql(revision) {
                    Err(StorageError::NumericRange("datasource revision"))
                } else if active {
                    Err(datasource_busy(id))
                } else {
                    Ok(
                        SecretMutation {
                            record: DatasourceRecord {
                                name: input.name,
                                driver_id: input.driver_id,
                                secret_ref: next_reference(record.secret_ref, change),
                                revision,
                                updated_at_ms: timestamp,
                                ..record
                            },
                            installed: installed_reference(change),
                            retired: retired_reference(record.secret_ref, change),
                        },
                    )
                },
            }
        },
    }
}

/// A datasource is deleted at the revision its caller saw, and its reference is retired, unless an
/// active run depends on it.
pub open spec fn datasource_deletion(
    id: String,
    expected_revision: u64,
    current: Option<DatasourceRecord>,
    active: bool,
) -> Result<Option<SecretRef>, StorageError> {
    match datasource_at(id, expected_revision, current) {
        Err(error) => Err(error),
        Ok(record) => if !fits_sql(expected_revision) {
            Err(StorageError::NumericRange("datasource revision"))
        } else if active {
            Err(datasource_busy(id))
        } else {
            Ok(record.secret_ref)
        },
    }
}

/// Two records hold the same datasource.
pub open spec fn same_datasource(left: DatasourceRecord, right: DatasourceRecord) -> bool {
    &&& left.id@ == right.id@
    &&& left.name@ == right.name@
    &&& left.driver_id@ == right.driver_id@
    &&& same_reference(left.secret_ref, right.secret_ref)
    &&& left.revision == right.revision
    &&& left.created_at_ms == right.created_at_ms
    &&& left.updated_at_ms == right.updated_at_ms
}

/// A creation took effect if the very record is there; otherwise it did not, and if the store
/// cannot be read nothing is known.
pub open spec fn create_settled(
    expected: DatasourceRecord,
    readback: Readback<DatasourceRecord>,
) -> SecretCommit<DatasourceRecord> {
    match readback {
        Readback::Unreadable => SecretCommit::Unknown(
            StorageError::OutcomeUnknown { operation: "create datasource", id: expected.id },
        ),
        Readback::Found(Some(actual)) => if same_datasource(actual, expected) {
            SecretCommit::Applied(actual)
        } else {
            SecretCommit::NotApplied(expected.secret_ref)
        },
        Readback::Found(None) => SecretCommit::NotApplied(expected.secret_ref),
    }
}

/// An update took effect if the new record is there, had no effect if the old one is or if it lost
/// its race, and is unknown otherwise.
pub open spec fn update_settled(
    previous: DatasourceRecord,
    expected: DatasourceRecord,
    staged: Option<SecretRef>,
    lost_race: bool,
    readback: Readback<DatasourceRecord>,
) -> SecretCommit<DatasourceRecord> {
    let unknown = SecretCommit::Unknown(
        StorageError::OutcomeUnknown { operation: "update datasource", id: expected.id },
    );
    if lost_race {
        SecretCommit::NotApplied(staged)
    } else {
        match readback {
            Readback::Found(Some(actual)) => if same_datasource(actual, expected) {
                SecretCommit::Applied(actual)
            } else if same_datasource(actual, previous) {
                SecretCommit::NotApplied(staged)
            } else {
                unknown
            },
            _ => unknown,
        }
    }
}

/// A deletion took effect if the record is gone, had no effect if it is unchanged or if it lost its
/// race, and is unknown otherwise.
pub open spec fn delete_settled(
    id: String,
    current: DatasourceRecord,
    lost_race: bool,
    readback: Readback<DatasourceRecord>,
) -> CommitOutcome<()> {
    let unknown = CommitOutcome::Unknown(
        StorageError::OutcomeUnknown { operation: "delete datasource", id },
    );
    if lost_race {
        CommitOutcome::NotApplied
    } else {
        match readback {
            Readback::Found(None) => CommitOutcome::Applied(()),
            Readback::Found(Some(actual)) => if same_datasource(actual, current) {
                CommitOutcome::NotApplied
            } else {
                unknown
            },
            Readback::Unreadable => unknown,
        }
    }
}

/// Checks the fields of a datasource.
pub fn validate_datasource(name: &str, driver_id: &str) -> (result: Result<(), StorageError>)
    ensures
        result == datasource_check(name@, driver_id@),
{
    if is_blank(name) || text_len(name) > MAX_NAME_BYTES {
        return Err(
            StorageError::InvalidDatasource(
                "name must be non-empty and at most 512 UTF-8 bytes",
            ),
        );
    }
    if driver_id.is_empty() || text_len(driver_id) > MAX_DRIVER_ID_BYTES {
        return Err(
            StorageError::InvalidDatasource(
                "driver id must be non-empty and at most 255 UTF-8 bytes",
            ),
        );
    }
    Ok(())
}

/// Reads an optional reference column.
pub(crate) fn decode_reference(key: Option<String>) -> (result: Result<
    Option<SecretRef>,
    StorageError,
>)
    ensures
        match result {
            Ok(reference) => reference_held(reference, key) && (key matches Some(text)
                ==> is_reference(text@)),
            Err(error) => key matches Some(text) && !is_reference(text@) && error
                == StorageError::InvalidDatasource("persisted secret reference is invalid"),
        },
{
    match key {
        None => Ok(None),
        Some(text) => Ok(Some(SecretRef::from_persisted(text)?)),
    }
}

/// Reads a datasource row.
pub fn decode_datasource(raw: RawDatasource) -> (result: Result<DatasourceRecord, StorageError>)
    ensures
        match result {
            Ok(record) => datasource_row_check(raw) is Ok && datasource_held(record, raw),
            Err(error) => datasource_row_check(raw) == Err::<(), StorageError>(error),
        },
{
    let secret_ref = decode_reference(raw.secret_ref)?;
    let revision: u64 = from_sql_u64(raw.revision, "datasource revision")?;
    Ok(
        DatasourceRecord {
            id: raw.id,
            name: raw.name,
            driver_id: raw.driver_id,
            secret_ref,
            revision,
            created_at_ms: raw.created_at_ms,
            updated_at_ms: raw.updated_at_ms,
        },
    )
}

/// Tests whether two records hold the same datasource.
pub fn is_same_datasource(left: &DatasourceRecord, right: &DatasourceRecord) -> (result: bool)
    ensures
        result == same_datasource(*left, *right),
{
    same_text(left.id.as_str(), right.id.as_str()) && same_text(
        left.name.as_str(),
        right.name.as_str(),
    ) && same_text(left.driver_id.as_str(), right.driver_id.as_str()) && is_same_reference(
        &left.secret_ref,
        &right.secret_ref,
    ) && left.revision == right.revision && left.created_at_ms == right.created_at_ms
        && left.updated_at_ms == right.updated_at_ms
}

/// Takes the datasource at the revision that its caller saw.
fn take_datasource(id: &String, expected_revision: u64, current: Option<DatasourceRecord>) -> (result:
    Result<DatasourceRecord, StorageError>)
    ensures
        result == datasource_at(*id, expected_revision, current),
{
    match current {
        None => Err(StorageError::DatasourceNotFound(id.clone())),
        Some(record) => if record.revision != expected_revision {
            Err(
                StorageError::RevisionConflict {
                    id: id.clone(),
                    expected: expected_revision,
                    actual: Some(record.revision),
                },
            )
        } else {
            Ok(record)
        },
    }
}

impl Row for RawDatasource {
    type Record = DatasourceRecord;

    open spec fn broken(self) -> Option<StorageError> {
        match datasource_row_check(self) {
            Ok(_) => None,
            Err(error) => Some(error),
        }
    }

    open spec fn holds(self, record: DatasourceRecord) -> bool {
        datasource_held(record, self)
    }

    fn read(self) -> (result: Result<DatasourceRecord, StorageError>) {
        decode_datasource(self)
    }
}

impl Keyed for RawDatasource {
    open spec fn rank(self) -> i64 {
        self.created_at_ms
    }

    open spec fn key(self) -> Seq<char> {
        self.id@
    }

    fn entry_rank(&self) -> (result: i64) {
        self.created_at_ms
    }

    fn entry_key(&self) -> (result: &str) {
        self.id.as_str()
    }
}

/// The datasources are listed in the order of their creation.
pub open spec fn datasources_listed(
    rows: Seq<RawDatasource>,
    result: Result<Vec<DatasourceRecord>, StorageError>,
) -> bool {
    exists|list: Seq<RawDatasource>| #[trigger]
        cataloged(list, rows, CatalogOrder::Ascending) && rows_read(list, result)
}

impl Storage {
    /// Reads a datasource.
    pub fn get_datasource(row: Option<RawDatasource>) -> (result: Result<
        Option<DatasourceRecord>,
        StorageError,
    >)
        ensures
            row_read(row, result),
    {
        read_row(row)
    }

    /// Lists datasources in the order of their creation.
    pub fn list_datasources(rows: Vec<RawDatasource>) -> (result: Result<
        Vec<DatasourceRecord>,
        StorageError,
    >)
        ensures
            datasources_listed(rows@, result),
    {
        let list = catalog(rows, CatalogOrder::Ascending);
        let ghost ordered = list@;
        let records = read_rows(list);
        assert(cataloged(ordered, rows@, CatalogOrder::Ascending));
        records
    }

    /// Creates a datasource, with the reference of its staged secret.
    pub fn create_datasource(
        id: String,
        input: CreateDatasource,
        staged: Option<SecretRef>,
        timestamp: i64,
    ) -> (result: Result<SecretMutation<DatasourceRecord>, StorageError>)
        ensures
            result == datasource_created(id, input, staged, timestamp),
    {
        validate_datasource(input.name.as_str(), input.driver_id.as_str())?;
        let installed = staged.clone();
        Ok(
            SecretMutation {
                record: DatasourceRecord {
                    id,
                    name: input.name,
                    driver_id: input.driver_id,
                    secret_ref: staged,
                    revision: 1,
                    created_at_ms: timestamp,
                    updated_at_ms: timestamp,
                },
                installed,
                retired: None,
            },
        )
    }

    /// Checks an update before a secret is staged for it.
    pub fn check_datasource_update(
        id: &String,
        expected_revision: u64,
        input: &UpdateDatasource,
        current: &Option<DatasourceRecord>,
    ) -> (result: Result<(), StorageError>)
        ensures
            result == datasource_update_check(*id, expected_revision, *input, *current),
    {
        validate_datasource(input.name.as_str(), input.driver_id.as_str())?;
        match current {
            None => Err(StorageError::DatasourceNotFound(id.clone())),
            Some(record) => if record.revision != expected_revision {
                Err(
                    StorageError::RevisionConflict {
                        id: id.clone(),
                        expected: expected_revision,
                        actual: Some(record.revision),
                    },
                )
            } else {
                Ok(())
            },
        }
    }

    /// Replaces the fields of a datasource and applies a secret change.
    pub fn update_datasource(
        id: &String,
        expected_revision: u64,
        input: UpdateDatasource,
        change: StagedChange,
        current: Option<DatasourceRecord>,
        active: bool,
        timestamp: i64,
    ) -> (result: Result<SecretMutation<DatasourceRecord>, StorageError>)
        ensures
            result == datasource_updated(
                *id,
                expected_revision,
                input,
                change,
                current,
                active,
                timestamp,
            ),
    {
        validate_datasource(input.name.as_str(), input.driver_id.as_str())?;
        let record = take_datasource(id, expected_revision, current)?;
        let revision: u64 = next_count(expected_revision, "datasource revision")?;
        to_sql_i64(revision, "datasource revision")?;
        if active {
            return Err(
                StorageError::AgentDependencyBusy { resource: "datasource", id: id.clone() },
            );
        }
        let (secret_ref, installed, retired) = apply_change(record.secret_ref, change);
        Ok(
            SecretMutation {
                record: DatasourceRecord {
                    id: record.id,
                    name: input.name,
                    driver_id: input.driver_id,
                    secret_ref,
                    revision,
                    created_at_ms: record.created_at_ms,
                    updated_at_ms: timestamp,
                },
                installed,
                retired,
            },
        )
    }

    /// Decides whether a datasource may be deleted, and which reference it gives up.
    pub fn delete_datasource(
        id: &String,
        expected_revision: u64,
        current: Option<DatasourceRecord>,
        active: bool,
    ) -> (result: Result<Option<SecretRef>, StorageError>)
        ensures
            result == datasource_deletion(*id, expected_revision, current, active),
    {
        let record = take_datasource(id, expected_revision, current)?;
        to_sql_i64(expected_revision, "datasource revision")?;
        if active {
            return Err(
                StorageError::AgentDependencyBusy { resource: "datasource", id: id.clone() },
            );
        }
        Ok(record.secret_ref)
    }

    /// Finds the reference under which the secret of a datasource is kept, if it has one.
    pub fn datasource_secret_reference(id: &String, record: Option<DatasourceRecord>) -> (result:
        Result<Option<SecretRef>, StorageError>)
        ensures
            result == (match record {
                None => Err(StorageError::DatasourceNotFound(*id)),
                Some(found) => Ok(found.secret_ref),
            }),
    {
        match record {
            None => Err(StorageError::DatasourceNotFound(id.clone())),
            Some(found) => Ok(found.secret_ref),
        }
    }

    /// Takes the secret of a datasource from what the vault answered about its reference; there
    /// is no answer if the datasource has no reference.
    pub fn resolve_datasource_secret(
        answer: Option<Result<Option<SecretValue>, SecretVaultError>>,
    ) -> (result: Result<Option<SecretValue>, StorageError>)
        ensures
            result == (match answer {
                None => Ok(None),
                Some(found) => match looked_up(found) {
                    Err(error) => Err(error),
                    Ok(value) => Ok(Some(value)),
                },
            }),
    {
        match answer {
            None => Ok(None),
            Some(found) => Ok(Some(take_secret(found)?)),
        }
    }

    /// Settles a creation whose commit reported a failure.
    pub fn reconcile_create_commit(
        expected: DatasourceRecord,
        readback: Readback<DatasourceRecord>,
    ) -> (result: SecretCommit<DatasourceRecord>)
        ensures
            result == create_settled(expected, readback),
    {
        match readback {
            Readback::Unreadable => SecretCommit::Unknown(
                StorageError::OutcomeUnknown { operation: "create datasource", id: expected.id },
            ),
            Readback::Found(Some(actual)) => if is_same_datasource(&actual, &expected) {
                SecretCommit::Applied(actual)
            } else {
                SecretCommit::NotApplied(expected.secret_ref)
            },
            Readback::Found(None) => SecretCommit::NotApplied(expected.secret_ref),
        }
    }

    /// Settles an update whose commit reported a failure.
    pub fn reconcile_update_commit(
        previous: &DatasourceRecord,
        expected: DatasourceRecord,
        staged: Option<SecretRef>,
        lost_race: bool,
        readback: Readback<DatasourceRecord>,
    ) -> (result: SecretCommit<DatasourceRecord>)
        ensures
            result == update_settled(*previous, expected, staged, lost_race, readback),
    {
        if lost_race {
            return SecretCommit::NotApplied(staged);
        }
        if let Readback::Found(Some(actual)) = readback {
            if is_same_datasource(&actual, &expected) {
                return SecretCommit::Applied(actual);
            }
            if is_same_datasource(&actual, previous) {
                return SecretCommit::NotApplied(staged);
            }
        }
        SecretCommit::Unknown(
            StorageError::OutcomeUnknown { operation: "update datasource", id: expected.id },
        )
    }

    /// Settles a deletion whose commit reported a failure.
    pub fn reconcile_delete_commit(
        id: &String,
        current: &DatasourceRecord,
        lost_race: bool,
        readback: Readback<DatasourceRecord>,
    ) -> (result: CommitOutcome<()>)
        ensures
            result == delete_settled(*id, *current, lost_race, readback),
    {
        if lost_race {
            return CommitOutcome::NotApplied;
        }
        match readback {
            Readback::Found(None) => return CommitOutcome::Applied(()),
            Readback::Found(Some(actual)) => if is_same_datasource(&actual, current) {
                return CommitOutcome::NotApplied;
            },
            Readback::Unreadable => {},
        }
        CommitOutcome::Unknown(
            StorageError::OutcomeUnknown { operation: "delete datasource", id: id.clone() },
        )
    }
}

/// Of two updates that saw the same revision only the first is accepted.
pub proof fn law_datasource_update_is_optimistic(
    id: String,
    expected_revision: u64,
    input: UpdateDatasource,
    change: StagedChange,
    current: Option<DatasourceRecord>,
    active: bool,
    timestamp: i64,
    later: UpdateDatasource,
    later_change: StagedChange,
    later_active: bool,
    later_timestamp: i64,
)
    requires
        datasource_updated(id, expected_revision, input, change, current, active, timestamp) is Ok,
        datasource_check(later.name@, later.driver_id@) is Ok,
    ensures
        ({
            let next = datasource_updated(
                id,
                expected_revision,
                input,
                change,
                current,
                active,
                timestamp,
            )->Ok_0.record;
            let conflict = StorageError::RevisionConflict {
                id,
                expected: expected_revision,
                actual: Some((expected_revision + 1) as u64),
            };
            &&& next.revision == expected_revision + 1
            &&& datasource_updated(
                id,
                expected_revision,
                later,
                later_change,
                Some(next),
                later_active,
                later_timestamp,
            ) == Err::<SecretMutation<DatasourceRecord>, StorageError>(conflict)
            &&& datasource_deletion(id, expected_revision, Some(next), later_active) == Err::<
                Option<SecretRef>,
                StorageError,
            >(conflict)
        }),
{
}

/// While a run depends on a datasource it is neither changed nor deleted.
pub proof fn law_active_run_pins_its_datasource(
    id: String,
    expected_revision: u64,
    input: UpdateDatasource,
    change: StagedChange,
    current: Option<DatasourceRecord>,
    timestamp: i64,
)
    ensures
        datasource_updated(id, expected_revision, input, change, current, true, timestamp) is Err,
        datasource_deletion(id, expected_revision, current, true) is Err,
{
}

/// A mutation whose commit failed is reported as successful only if its record was seen in the
/// store, and as failed only if the store was seen without it; the staged secret is deleted in
/// no other case.
pub proof fn law_update_is_settled_by_what_is_seen(
    previous: DatasourceRecord,
    expected: DatasourceRecord,
    staged: Option<SecretRef>,
    readback: Readback<DatasourceRecord>,
)
    requires
        !same_datasource(previous, expected),
    ensures
        match update_settled(previous, expected, staged, false, readback) {
            SecretCommit::Applied(actual) => readback == Readback::Found(Some(actual))
                && same_datasource(actual, expected),
            SecretCommit::NotApplied(cleanup) => cleanup == staged && (readback matches
                Readback::Found(Some(actual)) && same_datasource(actual, previous)),
            SecretCommit::Unknown(_) => !(readback matches Readback::Found(Some(actual)) && (
            same_datasource(actual, expected) || same_datasource(actual, previous))),
        },
{
}

/// A datasource is created with the name and the driver that were asked for, the reference of the
/// staged secret, at revision one and at the given time. That succeeds exactly if the name is not
/// blank, the driver is named and both are within their bounds.
pub proof fn law_datasource_is_created_as_asked(
    id: String,
    input: CreateDatasource,
    staged: Option<SecretRef>,
    timestamp: i64,
)
    ensures
        datasource_created(id, input, staged, timestamp) matches Ok(done) ==> {
            &&& done.record.id == id
            &&& done.record.name == input.name
            &&& done.record.driver_id == input.driver_id
            &&& done.record.secret_ref == staged
            &&& done.record.revision == 1
            &&& done.record.created_at_ms == timestamp
            &&& done.record.updated_at_ms == timestamp
            &&& done.installed == staged
            &&& done.retired is None
        },
        datasource_created(id, input, staged, timestamp) is Ok <==> {
            &&& !blank(input.name@) && byte_len(input.name@) <= 512
            &&& 0 < input.driver_id@.len() && byte_len(input.driver_id@) <= 255
        },
{
}

/// An update gives the datasource the name and the driver that were asked for, moves its secret as
/// asked, advances its revision by one and sets its update time to the given one; its id and its
/// creation time stay.
pub proof fn law_datasource_update_sets_what_is_asked(
    id: String,
    expected_revision: u64,
    input: UpdateDatasource,
    change: StagedChange,
    current: DatasourceRecord,
    active: bool,
    timestamp: i64,
)
    ensures
        datasource_updated(
            id,
            expected_revision,
            input,
            change,
            Some(current),
            active,
            timestamp,
        ) matches Ok(done) ==> {
            &&& done.record.name == input.name
            &&& done.record.driver_id == input.driver_id
            &&& done.record.id == current.id
            &&& done.record.created_at_ms == current.created_at_ms
            &&& done.record.updated_at_ms == timestamp
            &&& done.record.revision == current.revision + 1
            &&& change is Keep ==> done.record.secret_ref == current.secret_ref
                && done.installed is None && done.retired is None
            &&& change is Clear ==> done.record.secret_ref is None && done.installed is None
                && done.retired == current.secret_ref
            &&& change matches StagedChange::Replace(new) ==> done.record.secret_ref == Some(new)
                && done.installed == Some(new) && (current.secret_ref matches Some(old)
                ==> done.retired == (if old.key()@ == new.key()@ {
                None
            } else {
                Some(old)
            })) && (current.secret_ref is None ==> done.retired is None)
        },
{
}

/// An update is accepted exactly if the fields are valid, the datasource is there at the revision
/// that was expected, its next revision can be stored, and no active run depends on it.
pub proof fn law_datasource_update_is_accepted(
    id: String,
    expected_revision: u64,
    input: UpdateDatasource,
    change: StagedChange,
    current: Option<DatasourceRecord>,
    active: bool,
    timestamp: i64,
)
    ensures
        datasource_updated(
            id,
            expected_revision,
            input,
            change,
            current,
            active,
            timestamp,
        ) is Ok <==> {
            &&& !blank(input.name@) && byte_len(input.name@) <= 512
            &&& 0 < input.driver_id@.len() && byte_len(input.driver_id@) <= 255
            &&& current matches Some(record) && record.revision == expected_revision
            &&& expected_revision < i64::MAX
            &&& !active
        },
        datasource_update_check(id, expected_revision, input, current) is Ok <==> {
            &&& !blank(input.name@) && byte_len(input.name@) <= 512
            &&& 0 < input.driver_id@.len() && byte_len(input.driver_id@) <= 255
            &&& current matches Some(record) && record.revision == expected_revision
        },
{
}

/// A datasource is deleted exactly if it is there at the revision that was expected and no active
/// run depends on it; its reference is given up.
pub proof fn law_datasource_deletion_gives_up_its_reference(
    id: String,
    expected_revision: u64,
    current: Option<DatasourceRecord>,
    active: bool,
)
    ensures
        datasource_deletion(id, expected_revision, current, active) is Ok <==> {
            &&& current matches Some(record) && record.revision == expected_revision
            &&& expected_revision <= i64::MAX
            &&& !active
        },
        datasource_deletion(id, expected_revision, current, active) matches Ok(retired) ==> (
        current matches Some(record) && retired == record.secret_ref),
{
}

/// A row is read into a record with the same values, if its revision is not negative and its
/// reference, if there is one, is a valid one.
pub proof fn law_datasource_row_is_read_as_it_is(raw: RawDatasource, record: DatasourceRecord)
    ensures
        datasource_row_check(raw) is Ok <==> raw.revision >= 0 && (raw.secret_ref matches Some(key)
            ==> is_reference(key@)),
        datasource_row_check(raw) is Ok && datasource_held(record, raw) ==> {
            &&& record.id == raw.id
            &&& record.name == raw.name
            &&& record.driver_id == raw.driver_id
            &&& raw.secret_ref is None ==> record.secret_ref is None
            &&& raw.secret_ref matches Some(key) ==> (record.secret_ref matches Some(held)
                && held.key() == key)
            &&& record.revision == raw.revision
            &&& record.created_at_ms == raw.created_at_ms
            &&& record.updated_at_ms == raw.updated_at_ms
        },
{
}

/// A commit that reported a failure has taken effect exactly if the store holds the new datasource
/// with all of its fields, and has had none if it holds the old one or none at all.
pub proof fn law_datasource_commit_is_settled_by_what_is_stored(
    previous: DatasourceRecord,
    expected: DatasourceRecord,
    staged: Option<SecretRef>,
    lost_race: bool,
    readback: Readback<DatasourceRecord>,
)
    ensures
        create_settled(expected, readback) is Applied <==> (readback matches Readback::Found(
            Some(actual),
        ) && same_datasource(actual, expected)),
        create_settled(expected, readback) is Unknown <==> readback is Unreadable,
        create_settled(expected, readback) matches SecretCommit::NotApplied(left) ==> left
            == expected.secret_ref,
        create_settled(expected, readback) matches SecretCommit::Applied(actual) ==> readback
            == Readback::Found(Some(actual)),
        update_settled(previous, expected, staged, lost_race, readback) is Applied <==> !lost_race
            && (readback matches Readback::Found(Some(actual)) && same_datasource(
            actual,
            expected,
        )),
        update_settled(
            previous,
            expected,
            staged,
            lost_race,
            readback,
        ) matches SecretCommit::Applied(actual) ==> readback == Readback::Found(Some(actual)),
        update_settled(previous, expected, staged, lost_race, readback) is NotApplied <==> {
            ||| lost_race
            ||| (readback matches Readback::Found(Some(actual)) && !same_datasource(
                actual,
                expected,
            ) && same_datasource(actual, previous))
        },
        update_settled(
            previous,
            expected,
            staged,
            lost_race,
            readback,
        ) matches SecretCommit::NotApplied(left) ==> left == staged,
        delete_settled(expected.id, previous, lost_race, readback) is Applied <==> !lost_race
            && readback == Readback::<DatasourceRecord>::Found(None),
        delete_settled(expected.id, previous, lost_race, readback) is NotApplied <==> {
            ||| lost_race
            ||| (readback matches Readback::Found(Some(actual)) && same_datasource(
                actual,
                previous,
            ))
        },
{
}

/// Two records are the same datasource exactly if all of their fields are the same.
pub proof fn law_same_datasource_has_the_same_fields(
    left: DatasourceRecord,
    right: DatasourceRecord,
)
    ensures
        same_datasource(left, right) <==> {
            &&& left.id@ == right.id@
            &&& left.name@ == right.name@
            &&& left.driver_id@ == right.driver_id@
            &&& left.secret_ref is Some <==> right.secret_ref is Some
            &&& left.secret_ref matches Some(a) ==> (right.secret_ref matches Some(b) ==> a.key()@
                == b.key()@)
            &&& left.revision == right.revision
            &&& left.created_at_ms == right.created_at_ms
            &&& left.updated_at_ms == right.updated_at_ms
        },
{
}

/// All datasources are listed, the oldest one first.
pub proof fn law_datasources_are_listed_by_their_creation(
    rows: Seq<RawDatasource>,
    result: Result<Vec<DatasourceRecord>, StorageError>,
)
    requires
        datasources_listed(rows, result),
    ensures
        result matches Ok(records) ==> {
            &&& records@.len() == rows.len()
            &&& forall|i: int, j: int|
                0 <= i < j < records@.len() ==> (#[trigger] records@[i]).created_at_ms <= (
                #[trigger] records@[j]).created_at_ms
            &&& forall|i: int|
                0 <= i < rows.len() ==> exists|k: int|
                    0 <= k < records@.len() && (#[trigger] records@[k]).id == (
                    #[trigger] rows[i]).id
        },
{
    if let Ok(records) = result {
        let list = choose|list: Seq<RawDatasource>| #[trigger]
            cataloged(list, rows, CatalogOrder::Ascending) && rows_read(list, result);
        law_catalog_is_ordered(list, rows, CatalogOrder::Ascending);
        assert forall|i: int| 0 <= i < list.len() implies (#[trigger] records@[i]).created_at_ms
            == list[i].rank() && records@[i].id == list[i].id by {
            assert(list[i].broken() is None && list[i].holds(records@[i]));
        }
        assert forall|i: int| 0 <= i < rows.len() implies exists|k: int|
            0 <= k < records@.len() && (#[trigger] records@[k]).id == (#[trigger] rows[i]).id by {
            assert(list.contains(rows[i]));
            let k = choose|k: int| 0 <= k < list.len() && list[k] == rows[i];
            assert(records@[k].id == rows[i].id);
        }
    }
}

} // verus!
