//! What a store checks before it is used.

use std::time::Duration;

use vstd::prelude::*;

use crate::agent::model::AgentRecoveryReport;
use crate::clock::nanoseconds;
use crate::error::StorageError;
use crate::result::recovery::RecoveryReport;
use crate::secret::SecretVaultError;
use crate::storage::Storage;
use crate::text::{lowered, same_text, to_ascii_lower};
use crate::transfer::model::TransferRecoveryReport;
use crate::vault::SecretCleanupReport;

verus! {

/// Version of the database schema that this library works with.
pub const CURRENT_SCHEMA_VERSION: i64 = 2;

/// A step from one schema version to the next.
#[derive(Debug, Clone, Copy, PartialEq, Eq, Structural)]
pub enum Migration {
    /// From an empty database to version one.
    Initial,
    /// From version one to version two.
    Agent,
}

/// Recovery work completed before a store becomes usable.
#[derive(Debug, Clone, Copy, PartialEq, Eq, Structural)]
pub struct StartupReport {
    /// Retained-result filesystem and index recovery.
    pub results: RecoveryReport,
    /// Deferred secret deletions retried against the configured vault.
    pub secrets: SecretCleanupReport,
    /// Agent runs, permissions, and result handles recovered at startup.
    pub agents: AgentRecoveryReport,
    /// Transfer tasks and artifacts recovered at startup.
    pub transfers: TransferRecoveryReport,
}

impl Migration {
    /// Version that the step starts from.
    pub open spec fn from_version(self) -> i64 {
        match self {
            Migration::Initial => 0,
            Migration::Agent => 1,
        }
    }
}

/// The steps from a schema version to the current one.
pub open spec fn migrations_from(version: i64) -> Result<Seq<Migration>, StorageError> {
    if version > CURRENT_SCHEMA_VERSION {
        Err(
            StorageError::UnsupportedSchema { found: version, supported: CURRENT_SCHEMA_VERSION },
        )
    } else if version == 0 {
        Ok(seq![Migration::Initial, Migration::Agent])
    } else if version == 1 {
        Ok(seq![Migration::Agent])
    } else {
        Ok(Seq::empty())
    }
}

/// The time since the epoch in milliseconds; a clock before the epoch has none.
pub open spec fn epoch_millis(since_epoch: Option<Duration>) -> Result<i64, StorageError> {
    match since_epoch {
        None => Err(StorageError::NumericRange("system clock is before the Unix epoch")),
        Some(elapsed) => if nanoseconds(elapsed) / 1_000_000 > i64::MAX {
            Err(StorageError::NumericRange("timestamp milliseconds"))
        } else {
            Ok((nanoseconds(elapsed) / 1_000_000) as i64)
        },
    }
}

/// Finds the steps from a schema version to the current one.
pub fn pending_migrations(version: i64) -> (result: Result<Vec<Migration>, StorageError>)
    ensures
        match result {
            Ok(steps) => migrations_from(version) == Ok::<Seq<Migration>, StorageError>(steps@),
            Err(error) => migrations_from(version) == Err::<Seq<Migration>, StorageError>(error),
        },
{
    if version > CURRENT_SCHEMA_VERSION {
        return Err(
            StorageError::UnsupportedSchema { found: version, supported: CURRENT_SCHEMA_VERSION },
        );
    }
    let mut steps: Vec<Migration> = Vec::new();
    if version == 0 {
        steps.push(Migration::Initial);
    }
    if version == 0 || version == 1 {
        steps.push(Migration::Agent);
    }
    proof {
        if version == 0 {
            assert(steps@ =~= seq![Migration::Initial, Migration::Agent]);
        } else if version == 1 {
            assert(steps@ =~= seq![Migration::Agent]);
        } else {
            assert(steps@ =~= Seq::empty());
        }
    }
    Ok(steps)
}

/// Checks that the settings on which durability rests have been applied.
pub fn check_durability(foreign_keys: i64, journal_mode: &str, synchronous: i64) -> (result: Result<
    (),
    StorageError,
>)
    ensures
        result == (if foreign_keys == 1 && lowered(journal_mode@) == "wal"@ && synchronous == 2 {
            Ok::<(), StorageError>(())
        } else {
            Err(StorageError::Integrity("required SQLite durability settings were not applied"))
        }),
{
    let mode = to_ascii_lower(journal_mode);
    if foreign_keys != 1 || !same_text(mode.as_str(), "wal") || synchronous != 2 {
        return Err(
            StorageError::Integrity("required SQLite durability settings were not applied"),
        );
    }
    Ok(())
}

/// Accepts the answers of the database engine's own checks.
pub fn check_integrity(report: String, foreign_key_violation: bool) -> (result: Result<
    (),
    StorageError,
>)
    ensures
        result == (if report@ != "ok"@ {
            Err::<(), StorageError>(StorageError::IntegrityReport(report))
        } else if foreign_key_violation {
            Err(StorageError::Integrity("SQLite foreign key check failed"))
        } else {
            Ok(())
        }),
{
    if !same_text(report.as_str(), "ok") {
        return Err(StorageError::IntegrityReport(report));
    }
    if foreign_key_violation {
        return Err(StorageError::Integrity("SQLite foreign key check failed"));
    }
    Ok(())
}

/// Tells whether a lock was refused because another process holds it, from the codes of the refusal
/// and of a contended lock, or from their kinds where a code is missing.
pub fn lock_is_contended(actual: Option<i32>, contended: Option<i32>, same_kind: bool) -> (result:
    bool)
    ensures
        result == (match (actual, contended) {
            (Some(code), Some(expected)) => code == expected,
            _ => same_kind,
        }),
{
    match (actual, contended) {
        (Some(code), Some(expected)) => code == expected,
        _ => same_kind,
    }
}

/// Returns the time since the epoch in milliseconds.
pub fn millis_since_epoch(since_epoch: Option<Duration>) -> (result: Result<i64, StorageError>)
    ensures
        result == epoch_millis(since_epoch),
{
    match since_epoch {
        None => Err(StorageError::NumericRange("system clock is before the Unix epoch")),
        Some(elapsed) => {
            let millis: u128 = elapsed.as_millis();
            if millis > i64::MAX as u128 {
                return Err(StorageError::NumericRange("timestamp milliseconds"));
            }
            Ok(millis as i64)
        },
    }
}

/// Accepts the answer of the vault to a probe.
pub fn check_vault(answer: Result<(), SecretVaultError>) -> (result: Result<(), StorageError>)
    ensures
        result == (match answer {
            Ok(_) => Ok::<(), StorageError>(()),
            Err(source) => Err(StorageError::SecretVault { operation: "probe", source }),
        }),
{
    match answer {
        Ok(()) => Ok(()),
        Err(source) => Err(StorageError::SecretVault { operation: "probe", source }),
    }
}

impl Storage {
    /// Puts the reports of a startup together.
    pub fn startup_report(
        results: RecoveryReport,
        secrets: SecretCleanupReport,
        agents: AgentRecoveryReport,
        transfers: TransferRecoveryReport,
    ) -> (result: StartupReport)
        ensures
            result == (StartupReport { results, secrets, agents, transfers }),
    {
        StartupReport { results, secrets, agents, transfers }
    }
}

/// The steps lead from the version that was found to the current one, without a gap.
pub proof fn law_migrations_reach_the_current_version(version: i64)
    requires
        0 <= version <= CURRENT_SCHEMA_VERSION,
    ensures
        migrations_from(version) is Ok,
        ({
            let steps = migrations_from(version)->Ok_0;
            &&& steps.len() == CURRENT_SCHEMA_VERSION - version
            &&& forall|i: int|
                0 <= i < steps.len() ==> (#[trigger] steps[i]).from_version() == version + i
        }),
{
}

/// A database that is up to date is left alone.
pub proof fn law_migration_is_idempotent()
    ensures
        migrations_from(CURRENT_SCHEMA_VERSION) == Ok::<Seq<Migration>, StorageError>(Seq::empty()),
{
}

/// A new database takes both steps, one at version one takes the second, one at a later version none,
/// and one beyond the version that is supported is refused with both versions.
pub proof fn law_migrations_depend_on_the_version(version: i64)
    ensures
        CURRENT_SCHEMA_VERSION == 2,
        version > 2 ==> migrations_from(version) == Err::<Seq<Migration>, StorageError>(
            StorageError::UnsupportedSchema { found: version, supported: 2 },
        ),
        version == 0 ==> migrations_from(version) == Ok::<Seq<Migration>, StorageError>(
            seq![Migration::Initial, Migration::Agent],
        ),
        version == 1 ==> migrations_from(version) == Ok::<Seq<Migration>, StorageError>(
            seq![Migration::Agent],
        ),
        version == 2 || version < 0 ==> migrations_from(version) == Ok::<
            Seq<Migration>,
            StorageError,
        >(Seq::empty()),
{
}

/// The time since the epoch is counted in whole milliseconds; a clock before the epoch, or one whose
/// milliseconds are too many, has none.
pub proof fn law_time_counts_milliseconds(elapsed: Duration)
    ensures
        epoch_millis(None) is Err,
        epoch_millis(Some(elapsed)) is Ok <==> nanoseconds(elapsed) / 1_000_000 <= i64::MAX,
        epoch_millis(Some(elapsed)) matches Ok(millis) ==> millis == nanoseconds(elapsed)
            / 1_000_000,
{
}

} // verus!
