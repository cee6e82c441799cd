use std::time::Duration;

use chat2db_storage::startup::{
    check_durability, check_integrity, check_vault, lock_is_contended, millis_since_epoch,
    pending_migrations, Migration, CURRENT_SCHEMA_VERSION,
};
use chat2db_storage::{
    AgentRecoveryReport, RecoveryReport, SecretCleanupReport, SecretVaultError, Storage,
    StorageError, StorageOptions, TransferRecoveryReport,
};

#[test]
fn migration_and_required_pragmas_are_idempotent() {
    let first = pending_migrations(0).expect("a fresh database migrates");
    assert_eq!(first.len(), 2);
    assert!(check_durability(1, "wal", 2).is_ok());
    assert!(check_durability(1, "WAL", 2).is_ok());
    assert_eq!(CURRENT_SCHEMA_VERSION, 2);

    let again = pending_migrations(CURRENT_SCHEMA_VERSION).expect("a current database opens");
    assert!(again.is_empty());
    let report = Storage::startup_report(
        RecoveryReport::default(),
        SecretCleanupReport { deleted: 0, pending: 0 },
        AgentRecoveryReport::default(),
        TransferRecoveryReport::default(),
    );
    assert_eq!(report.results, RecoveryReport::default());
}

#[test]
fn newer_schema_is_rejected_without_mutation() {
    let error = pending_migrations(3).expect_err("newer schema must fail");
    assert!(matches!(
        error,
        StorageError::UnsupportedSchema {
            found: 3,
            supported: 2
        }
    ));
}

#[test]
fn version_one_upgrades_atomically_and_preserves_existing_state() {
    let pending = pending_migrations(1).expect("version one upgrades");
    assert_eq!(pending.len(), 1);
    assert_ne!(pending[0], pending_migrations(0).expect("a fresh database migrates")[0]);
}

#[test]
fn migrations_run_in_the_order_of_their_versions() {
    let first: Vec<Migration> = pending_migrations(0).expect("a fresh database migrates");
    let second = pending_migrations(1).expect("version one upgrades");
    assert_eq!(first[1], second[0]);
    assert_eq!(first, [Migration::Initial, Migration::Agent]);
}

#[test]
fn corrupt_database_fails_closed_before_recovery() {
    let error = check_integrity("row 3 missing from index".to_owned(), false)
        .expect_err("corruption must fail");
    assert!(matches!(
        error,
        StorageError::IntegrityReport(_) | StorageError::Integrity(_)
    ));
    assert!(check_integrity("ok".to_owned(), true).is_err());
    assert!(check_integrity("ok".to_owned(), false).is_ok());
}

#[test]
fn unavailable_secret_vault_prevents_storage_readiness() {
    let error = check_vault(Err(SecretVaultError::Unavailable))
        .expect_err("unavailable vault must prevent readiness");
    assert!(matches!(
        error,
        StorageError::SecretVault {
            operation: "probe",
            source: SecretVaultError::Unavailable,
        }
    ));
    assert!(check_vault(Ok(())).is_ok());
}

#[test]
fn weak_durability_settings_are_refused() {
    assert!(matches!(check_durability(0, "wal", 2), Err(StorageError::Integrity(_))));
    assert!(matches!(check_durability(1, "delete", 2), Err(StorageError::Integrity(_))));
    assert!(matches!(check_durability(1, "wal", 1), Err(StorageError::Integrity(_))));
}

#[test]
fn lock_contention_is_told_by_code_or_by_kind() {
    assert!(lock_is_contended(Some(11), Some(11), false));
    assert!(!lock_is_contended(Some(13), Some(11), false));
    assert!(lock_is_contended(None, None, true));
}

#[test]
fn the_clock_is_read_in_milliseconds() {
    assert_eq!(
        millis_since_epoch(Some(Duration::new(1_700_000_000, 123_456_789))).expect("clock reads"),
        1_700_000_000_123
    );
    assert!(millis_since_epoch(None).is_err());
    assert!(millis_since_epoch(Some(Duration::from_secs(u64::MAX))).is_err());
}

#[test]
fn a_store_needs_room_for_results() {
    assert!(matches!(
        Storage::open_with_options(StorageOptions { max_retained_bytes: 0 }),
        Err(StorageError::InvalidResult("retained-result quota must be greater than zero"))
    ));
    let storage = Storage::open_with_options(StorageOptions::default()).expect("options open");
    assert_eq!(storage.max_retained_bytes, 4 * 1024 * 1024 * 1024);
}
