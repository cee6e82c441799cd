use std::collections::HashMap;
use std::sync::{Arc, Mutex};

use chat2db_storage::datasource::{decode_datasource, validate_datasource, RawDatasource};
use chat2db_storage::identity::fresh_id;
use chat2db_storage::vault::{
    cleanup_staged_secret, stage_secret, Compensated, SecretCommit, StagedChange,
};
use chat2db_storage::{
    CommitOutcome, CreateDatasource, DatasourceRecord, Readback, SecretChange, SecretCleanupReport,
    SecretRef, SecretValue, SecretVault, SecretVaultError, Storage, StorageError,
    UpdateDatasource,
};

#[derive(Default)]
struct MemoryVault {
    values: Mutex<HashMap<String, Vec<u8>>>,
    fail_create_after_store: Mutex<bool>,
    fail_delete: Mutex<bool>,
    deletions: Mutex<usize>,
}

impl SecretVault for MemoryVault {
    fn probe(&self) -> Result<(), SecretVaultError> {
        Ok(())
    }

    fn create(&self, reference: &SecretRef, value: &SecretValue) -> Result<(), SecretVaultError> {
        self.values.lock().expect("vault lock").insert(
            reference.as_str().to_owned(),
            value.expose_secret().to_vec(),
        );
        if *self.fail_create_after_store.lock().expect("create flag lock") {
            return Err(SecretVaultError::Backend);
        }
        Ok(())
    }

    fn get(&self, reference: &SecretRef) -> Result<Option<SecretValue>, SecretVaultError> {
        Ok(self
            .values
            .lock()
            .expect("vault lock")
            .get(reference.as_str())
            .cloned()
            .map(SecretValue::new))
    }

    fn delete(&self, reference: &SecretRef) -> Result<(), SecretVaultError> {
        if *self.fail_delete.lock().expect("delete flag lock") {
            return Err(SecretVaultError::Backend);
        }
        *self.deletions.lock().expect("deletions lock") += 1;
        self.values.lock().expect("vault lock").remove(reference.as_str());
        Ok(())
    }
}

#[derive(Clone, Copy, PartialEq, Eq)]
enum FaultPoint {
    CreateBeforeCommit,
    CreateAfterCommit,
    UpdateAfterCommit,
    DeleteAfterCommit,
}

#[derive(Debug)]
enum Failure {
    Rule(StorageError),
    Duplicate,
    SecretCompensation,
}

impl From<StorageError> for Failure {
    fn from(error: StorageError) -> Failure {
        Failure::Rule(error)
    }
}

fn injected_commit_error() -> Failure {
    Failure::Rule(StorageError::Integrity("injected commit failure"))
}

/// Tables in memory, driven by the rules of the library.
struct Tables {
    vault: Arc<MemoryVault>,
    datasources: Vec<DatasourceRecord>,
    queue: Vec<String>,
    faults: Vec<FaultPoint>,
    now: i64,
}

fn raw(record: &DatasourceRecord) -> RawDatasource {
    RawDatasource {
        id: record.id.clone(),
        name: record.name.clone(),
        driver_id: record.driver_id.clone(),
        secret_ref: record.secret_ref.as_ref().map(|reference| reference.as_str().to_owned()),
        revision: i64::try_from(record.revision).expect("revision fits"),
        created_at_ms: record.created_at_ms,
        updated_at_ms: record.updated_at_ms,
    }
}

impl Tables {
    fn open(vault: Arc<MemoryVault>) -> Tables {
        Tables {
            vault,
            datasources: Vec::new(),
            queue: Vec::new(),
            faults: Vec::new(),
            now: 1_000,
        }
    }

    fn tick(&mut self) -> i64 {
        self.now += 1;
        self.now
    }

    fn take_fault(&mut self, point: FaultPoint) -> bool {
        match self.faults.iter().position(|fault| *fault == point) {
            Some(index) => {
                self.faults.remove(index);
                true
            }
            None => false,
        }
    }

    fn find(&self, id: &str) -> Option<DatasourceRecord> {
        self.datasources.iter().find(|record| record.id == id).cloned()
    }

    fn get_datasource(&self, id: &str) -> Result<Option<DatasourceRecord>, StorageError> {
        Storage::get_datasource(self.find(id).as_ref().map(raw))
    }

    fn list_datasources(&self) -> Result<Vec<DatasourceRecord>, StorageError> {
        Storage::list_datasources(self.datasources.iter().map(raw).collect())
    }

    fn stage(&mut self, value: &SecretValue) -> Result<SecretRef, StorageError> {
        let reference = SecretRef::generate();
        self.queue.push(reference.as_str().to_owned());
        let created = self.vault.create(&reference, value);
        stage_secret(reference, created)
    }

    fn leave_queue(&mut self, reference: &SecretRef) {
        self.queue.retain(|queued| queued != reference.as_str());
    }

    fn compensate(&mut self, staged: Option<SecretRef>, primary: Failure) -> Failure {
        let Some(reference) = staged else {
            return primary;
        };
        match cleanup_staged_secret(primary, self.vault.delete(&reference)) {
            Compensated::Primary(primary) => {
                self.leave_queue(&reference);
                primary
            }
            Compensated::Both(_, _) => Failure::SecretCompensation,
        }
    }

    fn create_datasource(
        &mut self,
        input: CreateDatasource,
        secret: Option<SecretValue>,
    ) -> Result<DatasourceRecord, Failure> {
        self.create_datasource_with_id(fresh_id(), input, secret)
    }

    fn create_datasource_with_id(
        &mut self,
        id: String,
        input: CreateDatasource,
        secret: Option<SecretValue>,
    ) -> Result<DatasourceRecord, Failure> {
        validate_datasource(&input.name, &input.driver_id)?;
        let staged = match &secret {
            Some(value) => Some(self.stage(value)?),
            None => None,
        };
        let timestamp = self.tick();
        let mutation = Storage::create_datasource(id, input, staged, timestamp)?;
        let expected = mutation.record;
        let primary = if self.find(&expected.id).is_some() {
            Failure::Duplicate
        } else if self.take_fault(FaultPoint::CreateBeforeCommit) {
            injected_commit_error()
        } else {
            self.datasources.push(expected.clone());
            if let Some(reference) = &mutation.installed {
                self.leave_queue(reference);
            }
            if !self.take_fault(FaultPoint::CreateAfterCommit) {
                return Ok(expected);
            }
            injected_commit_error()
        };
        let readback = Readback::Found(self.find(&expected.id));
        match Storage::reconcile_create_commit(expected, readback) {
            SecretCommit::Applied(record) => Ok(record),
            SecretCommit::NotApplied(staged) => Err(self.compensate(staged, primary)),
            SecretCommit::Unknown(error) => Err(Failure::Rule(error)),
        }
    }

    fn update_datasource(
        &mut self,
        id: &str,
        expected_revision: u64,
        input: UpdateDatasource,
        change: SecretChange,
    ) -> Result<DatasourceRecord, Failure> {
        let id = id.to_owned();
        let current = self.find(&id);
        Storage::check_datasource_update(&id, expected_revision, &input, &current)?;
        let change = match change {
            SecretChange::Keep => StagedChange::Keep,
            SecretChange::Replace(value) => StagedChange::Replace(self.stage(&value)?),
            SecretChange::Clear => StagedChange::Clear,
        };
        let timestamp = self.tick();
        let mutation = Storage::update_datasource(
            &id,
            expected_revision,
            input,
            change,
            current.clone(),
            false,
            timestamp,
        )?;
        let previous = current.expect("an updated record exists");
        let expected = mutation.record;
        for record in &mut self.datasources {
            if record.id == id {
                *record = expected.clone();
            }
        }
        if let Some(reference) = &mutation.installed {
            self.leave_queue(reference);
        }
        if let Some(reference) = &mutation.retired {
            self.queue.push(reference.as_str().to_owned());
        }
        if !self.take_fault(FaultPoint::UpdateAfterCommit) {
            self.reconcile_secrets()?;
            return Ok(expected);
        }
        let readback = Readback::Found(self.find(&id));
        match Storage::reconcile_update_commit(
            &previous,
            expected,
            mutation.installed,
            false,
            readback,
        ) {
            SecretCommit::Applied(record) => {
                self.reconcile_secrets()?;
                Ok(record)
            }
            SecretCommit::NotApplied(staged) => {
                Err(self.compensate(staged, injected_commit_error()))
            },
            SecretCommit::Unknown(error) => Err(Failure::Rule(error)),
        }
    }

    fn delete_datasource(&mut self, id: &str, expected_revision: u64) -> Result<(), Failure> {
        let id = id.to_owned();
        let current = self.find(&id);
        let retired = Storage::delete_datasource(&id, expected_revision, current.clone(), false)?;
        self.datasources.retain(|record| record.id != id);
        if let Some(reference) = retired {
            self.queue.push(reference.as_str().to_owned());
        }
        if self.take_fault(FaultPoint::DeleteAfterCommit) {
            let readback = Readback::Found(self.find(&id));
            let current = current.expect("a deleted record existed");
            match Storage::reconcile_delete_commit(&id, &current, false, readback) {
                CommitOutcome::Applied(()) => {}
                CommitOutcome::NotApplied => return Err(injected_commit_error()),
                CommitOutcome::Unknown(error) => return Err(Failure::Rule(error)),
            }
        }
        self.reconcile_secrets()?;
        Ok(())
    }

    fn resolve_datasource_secret(&self, id: &str) -> Result<Option<SecretValue>, StorageError> {
        let reference = Storage::datasource_secret_reference(&id.to_owned(), self.find(id))?;
        Storage::resolve_datasource_secret(
            reference.map(|reference| self.vault.get(&reference)),
        )
    }

    fn reconcile_secrets(&mut self) -> Result<SecretCleanupReport, StorageError> {
        let held: Vec<String> = self
            .datasources
            .iter()
            .filter_map(|record| record.secret_ref.as_ref())
            .map(|reference| reference.as_str().to_owned())
            .collect();
        let mut answers = Vec::new();
        for text in Storage::reconcile_secrets(self.queue.clone(), &held) {
            answers.push(self.vault.delete(&SecretRef::from_persisted(text)?));
        }
        let cleanup = Storage::settle_secret_cleanup(self.queue.clone(), &held, &answers);
        self.queue = cleanup.left;
        Ok(cleanup.report)
    }
}

fn input(name: &str) -> CreateDatasource {
    CreateDatasource {
        name: name.to_owned(),
        driver_id: "sha256:driver".to_owned(),
    }
}

#[test]
fn datasource_secret_never_reaches_sqlite_or_debug_output() {
    let vault = Arc::new(MemoryVault::default());
    let mut storage = Tables::open(vault);
    let sentinel = "stage4-sentinel-password-never-persist";

    let record = storage
        .create_datasource(
            input("warehouse"),
            Some(SecretValue::new(sentinel.as_bytes().to_vec())),
        )
        .expect("datasource creates");
    assert!(!format!("{record:?}").contains(sentinel));
    let row = raw(&record);
    for text in [
        Some(row.id.as_str()),
        Some(row.name.as_str()),
        Some(row.driver_id.as_str()),
        row.secret_ref.as_deref(),
    ] {
        assert!(!text.unwrap_or_default().contains(sentinel));
    }
    assert!(storage.queue.iter().all(|text| !text.contains(sentinel)));
}

#[test]
fn staging_resolution_and_cleanup_share_one_secret_gate() {
    let vault = Arc::new(MemoryVault::default());
    let mut storage = Tables::open(vault.clone());

    let created = storage
        .create_datasource(
            input("warehouse"),
            Some(SecretValue::new(b"first-secret".to_vec())),
        )
        .expect("datasource creates");
    assert!(storage
        .resolve_datasource_secret(&created.id)
        .expect("secret resolves")
        .is_some());
    let updated = storage
        .update_datasource(
            &created.id,
            created.revision,
            UpdateDatasource {
                name: "warehouse".to_owned(),
                driver_id: created.driver_id,
            },
            SecretChange::Replace(SecretValue::new(b"second-secret".to_vec())),
        )
        .expect("secret rotates");
    storage
        .delete_datasource(&updated.id, updated.revision)
        .expect("datasource deletes");

    let orphan = SecretRef::generate();
    vault
        .values
        .lock()
        .expect("vault lock")
        .insert(orphan.as_str().to_owned(), b"orphan".to_vec());
    storage.queue.push(orphan.as_str().to_owned());
    let report = storage.reconcile_secrets().expect("orphan reconciles");
    assert_eq!(report.deleted, 1);
    assert!(vault.values.lock().expect("vault lock").is_empty());
}

#[test]
fn concurrent_cleanup_cannot_delete_a_staged_secret_before_datasource_commit() {
    let vault = Arc::new(MemoryVault::default());
    let mut storage = Tables::open(vault.clone());

    // A cleanup waits until the staged secret is installed, so it runs before or after, never between.
    let before = storage.reconcile_secrets().expect("cleanup succeeds");
    assert_eq!(before.deleted, 0);
    let created = storage
        .create_datasource(
            input("staged"),
            Some(SecretValue::new(b"staged-secret".to_vec())),
        )
        .expect("datasource commits");
    let report = storage.reconcile_secrets().expect("cleanup succeeds");
    assert_eq!(report.deleted, 0);
    assert!(storage
        .resolve_datasource_secret(&created.id)
        .expect("active secret resolves")
        .is_some());
    assert_eq!(*vault.deletions.lock().expect("deletions lock"), 0);
}

#[test]
fn revisions_detect_stale_updates_and_secret_rotation_is_compensated() {
    let vault = Arc::new(MemoryVault::default());
    let mut storage = Tables::open(vault.clone());
    let created = storage
        .create_datasource(
            input("warehouse"),
            Some(SecretValue::new(b"old-secret".to_vec())),
        )
        .expect("datasource creates");
    let old_reference = created.secret_ref.clone().expect("secret ref");

    let updated = storage
        .update_datasource(
            &created.id,
            created.revision,
            UpdateDatasource {
                name: "warehouse-primary".to_owned(),
                driver_id: created.driver_id.clone(),
            },
            SecretChange::Replace(SecretValue::new(b"new-secret".to_vec())),
        )
        .expect("datasource updates");
    assert_eq!(updated.revision, 2);
    assert_ne!(updated.secret_ref, Some(old_reference.clone()));
    assert!(vault.get(&old_reference).expect("vault reads").is_none());

    let conflict = storage
        .update_datasource(
            &created.id,
            created.revision,
            UpdateDatasource {
                name: "stale".to_owned(),
                driver_id: created.driver_id,
            },
            SecretChange::Keep,
        )
        .expect_err("stale revision must fail");
    assert!(matches!(
        conflict,
        Failure::Rule(StorageError::RevisionConflict {
            actual: Some(2),
            ..
        })
    ));
}

#[test]
fn datasource_mutations_reconcile_post_commit_failures() {
    let vault = Arc::new(MemoryVault::default());
    let mut storage = Tables::open(vault.clone());
    storage.faults = vec![
        FaultPoint::CreateAfterCommit,
        FaultPoint::UpdateAfterCommit,
        FaultPoint::DeleteAfterCommit,
    ];

    let created = storage
        .create_datasource(
            input("warehouse"),
            Some(SecretValue::new(b"first-secret".to_vec())),
        )
        .expect("committed create reconciles");
    let updated = storage
        .update_datasource(
            &created.id,
            created.revision,
            UpdateDatasource {
                name: "warehouse-primary".to_owned(),
                driver_id: created.driver_id,
            },
            SecretChange::Replace(SecretValue::new(b"second-secret".to_vec())),
        )
        .expect("committed update reconciles");
    storage
        .delete_datasource(&updated.id, updated.revision)
        .expect("committed delete reconciles");

    assert!(storage
        .get_datasource(&updated.id)
        .expect("datasource reads")
        .is_none());
    assert!(vault.values.lock().expect("vault lock").is_empty());
    assert_eq!(storage.reconcile_secrets().expect("queue reads").pending, 0);
}

#[test]
fn datasource_create_rolls_back_and_compensates_a_pre_commit_failure() {
    let vault = Arc::new(MemoryVault::default());
    let mut storage = Tables::open(vault.clone());
    storage.faults = vec![FaultPoint::CreateBeforeCommit];

    let error = storage
        .create_datasource(
            input("warehouse"),
            Some(SecretValue::new(b"staged-secret".to_vec())),
        )
        .expect_err("pre-commit failure must surface");
    assert!(matches!(error, Failure::Rule(StorageError::Integrity(_))));
    assert!(storage.list_datasources().expect("datasources list").is_empty());
    assert!(vault.values.lock().expect("vault lock").is_empty());
    assert_eq!(storage.reconcile_secrets().expect("queue reads").pending, 0);
}

#[test]
fn failed_create_deletes_the_staged_secret_or_leaves_a_retry_intent() {
    let vault = Arc::new(MemoryVault::default());
    let mut storage = Tables::open(vault.clone());
    let fixed_id = "8df08cac-24e7-446d-92ea-cda948ec9184".to_owned();
    storage
        .create_datasource_with_id(fixed_id.clone(), input("first"), None)
        .expect("first datasource creates");

    *vault.fail_delete.lock().expect("delete flag lock") = true;
    let error = storage
        .create_datasource_with_id(
            fixed_id,
            input("duplicate"),
            Some(SecretValue::new(b"staged-secret".to_vec())),
        )
        .expect_err("duplicate id must fail");
    assert!(matches!(error, Failure::SecretCompensation));

    *vault.fail_delete.lock().expect("delete flag lock") = false;
    let report = storage.reconcile_secrets().expect("cleanup retries");
    assert_eq!(report.deleted, 1);
    assert_eq!(report.pending, 0);
}

#[test]
fn startup_retries_pending_secret_compensation_without_touching_active_refs() {
    let vault = Arc::new(MemoryVault::default());
    let mut storage = Tables::open(vault.clone());
    let record = storage
        .create_datasource(
            input("active"),
            Some(SecretValue::new(b"active-secret".to_vec())),
        )
        .expect("active datasource creates");
    let active_ref = record.secret_ref.clone().expect("active secret ref");
    storage.queue.push(active_ref.as_str().to_owned());

    let report = storage.reconcile_secrets().expect("startup reconciles");
    assert_eq!(report.deleted, 0);
    assert_eq!(report.pending, 1);
    assert!(vault.get(&active_ref).expect("vault reads").is_some());
}

#[test]
fn startup_cleans_a_secret_after_unknown_vault_create_outcome() {
    let vault = Arc::new(MemoryVault::default());
    let mut storage = Tables::open(vault.clone());
    *vault.fail_create_after_store.lock().expect("create flag lock") = true;

    let error = storage
        .create_datasource(
            input("failed"),
            Some(SecretValue::new(b"possibly-stored".to_vec())),
        )
        .expect_err("vault create outcome must fail");
    assert!(matches!(
        error,
        Failure::Rule(StorageError::SecretVault {
            operation: "create",
            ..
        })
    ));

    *vault.fail_create_after_store.lock().expect("create flag lock") = false;
    let report = storage.reconcile_secrets().expect("startup reconciles");
    assert_eq!(report.deleted, 1);
    assert_eq!(report.pending, 0);
    assert!(vault.values.lock().expect("vault lock").is_empty());
}

#[test]
fn concurrent_revision_cas_allows_exactly_one_update() {
    let vault = Arc::new(MemoryVault::default());
    let mut storage = Tables::open(vault);
    let created = storage
        .create_datasource(input("original"), None)
        .expect("datasource creates");

    let mut results = Vec::new();
    for name in ["winner-a", "winner-b"] {
        results.push(storage.update_datasource(
            &created.id,
            created.revision,
            UpdateDatasource {
                name: name.to_owned(),
                driver_id: created.driver_id.clone(),
            },
            SecretChange::Keep,
        ));
    }

    assert_eq!(results.iter().filter(|result| result.is_ok()).count(), 1);
    assert_eq!(
        results
            .iter()
            .filter(|result| matches!(
                result,
                Err(Failure::Rule(StorageError::RevisionConflict { .. }))
            ))
            .count(),
        1
    );
}

#[test]
fn datasource_fields_are_bounded() {
    assert!(validate_datasource("warehouse", "driver").is_ok());
    for (name, driver) in [
        ("", "driver"),
        ("   ", "driver"),
        (&"n".repeat(513) as &str, "driver"),
        ("warehouse", ""),
        ("warehouse", &"d".repeat(256) as &str),
    ] {
        assert!(matches!(
            validate_datasource(name, driver),
            Err(StorageError::InvalidDatasource(_))
        ));
    }
    assert!(validate_datasource(&"n".repeat(512), &"d".repeat(255)).is_ok());
}

#[test]
fn a_missing_datasource_is_not_updated_and_not_deleted() {
    let mut storage = Tables::open(Arc::new(MemoryVault::default()));
    let update = UpdateDatasource {
        name: "warehouse".to_owned(),
        driver_id: "driver".to_owned(),
    };
    assert!(matches!(
        storage.update_datasource("missing", 1, update, SecretChange::Keep),
        Err(Failure::Rule(StorageError::DatasourceNotFound(id))) if id == "missing"
    ));
    assert!(matches!(
        storage.delete_datasource("missing", 1),
        Err(Failure::Rule(StorageError::DatasourceNotFound(id))) if id == "missing"
    ));
    assert!(matches!(
        storage.resolve_datasource_secret("missing"),
        Err(StorageError::DatasourceNotFound(id)) if id == "missing"
    ));
}

#[test]
fn an_active_run_pins_its_datasource() {
    let mut storage = Tables::open(Arc::new(MemoryVault::default()));
    let created = storage
        .create_datasource(input("warehouse"), None)
        .expect("datasource creates");
    let update = UpdateDatasource {
        name: "renamed".to_owned(),
        driver_id: "driver".to_owned(),
    };
    assert!(matches!(
        Storage::update_datasource(
            &created.id,
            1,
            update,
            StagedChange::Keep,
            Some(created.clone()),
            true,
            2_000
        ),
        Err(StorageError::AgentDependencyBusy { resource: "datasource", .. })
    ));
    assert!(matches!(
        Storage::delete_datasource(&created.id, 1, Some(created.clone()), true),
        Err(StorageError::AgentDependencyBusy { resource: "datasource", .. })
    ));
}

#[test]
fn clearing_a_secret_retires_its_reference() {
    let vault = Arc::new(MemoryVault::default());
    let mut storage = Tables::open(vault.clone());
    let created = storage
        .create_datasource(input("warehouse"), Some(SecretValue::new(b"secret".to_vec())))
        .expect("datasource creates");
    let cleared = storage
        .update_datasource(
            &created.id,
            1,
            UpdateDatasource {
                name: "warehouse".to_owned(),
                driver_id: created.driver_id,
            },
            SecretChange::Clear,
        )
        .expect("secret clears");
    assert!(cleared.secret_ref.is_none());
    assert!(vault.values.lock().expect("vault lock").is_empty());
    assert!(storage
        .resolve_datasource_secret(&created.id)
        .expect("secret resolves")
        .is_none());
}

#[test]
fn a_reference_without_a_vault_entry_is_a_vault_failure() {
    let vault = Arc::new(MemoryVault::default());
    let mut storage = Tables::open(vault.clone());
    let created = storage
        .create_datasource(input("warehouse"), Some(SecretValue::new(b"secret".to_vec())))
        .expect("datasource creates");
    vault.values.lock().expect("vault lock").clear();
    assert!(matches!(
        storage.resolve_datasource_secret(&created.id),
        Err(StorageError::SecretVault {
            operation: "get",
            source: SecretVaultError::Backend,
        })
    ));
}

#[test]
fn an_unreadable_store_leaves_the_outcome_unknown() {
    let mut storage = Tables::open(Arc::new(MemoryVault::default()));
    let created = storage
        .create_datasource(input("warehouse"), None)
        .expect("datasource creates");
    let id = created.id.clone();
    assert!(matches!(
        Storage::reconcile_create_commit(created.clone(), Readback::Unreadable),
        SecretCommit::Unknown(StorageError::OutcomeUnknown { operation: "create datasource", .. })
    ));
    assert!(matches!(
        Storage::reconcile_update_commit(
            &created,
            created.clone(),
            None,
            false,
            Readback::Found(None)
        ),
        SecretCommit::Unknown(StorageError::OutcomeUnknown { operation: "update datasource", .. })
    ));
    assert!(matches!(
        Storage::reconcile_update_commit(
            &created,
            created.clone(),
            None,
            true,
            Readback::Unreadable
        ),
        SecretCommit::NotApplied(None)
    ));
    assert!(matches!(
        Storage::reconcile_delete_commit(&id, &created, false, Readback::Unreadable),
        CommitOutcome::Unknown(StorageError::OutcomeUnknown { operation: "delete datasource", .. })
    ));
    assert!(matches!(
        Storage::reconcile_delete_commit(
            &id,
            &created,
            false,
            Readback::Found(Some(created.clone()))
        ),
        CommitOutcome::NotApplied
    ));
}

#[test]
fn datasources_are_listed_in_creation_order() {
    let row = |id: &str, created: i64| RawDatasource {
        id: id.to_owned(),
        name: id.to_owned(),
        driver_id: "driver".to_owned(),
        secret_ref: None,
        revision: 1,
        created_at_ms: created,
        updated_at_ms: created,
    };
    let listed = Storage::list_datasources(vec![row("c", 2), row("b", 1), row("a", 2)])
        .expect("datasources list");
    let ids: Vec<&str> = listed.iter().map(|record| record.id.as_str()).collect();
    assert_eq!(ids, ["b", "a", "c"]);
}

#[test]
fn broken_datasource_rows_fail_closed() {
    let mut row = RawDatasource {
        id: "id".to_owned(),
        name: "name".to_owned(),
        driver_id: "driver".to_owned(),
        secret_ref: Some("chat2db:datasource:not-a-uuid".to_owned()),
        revision: 1,
        created_at_ms: 0,
        updated_at_ms: 0,
    };
    assert!(matches!(
        Storage::get_datasource(Some(RawDatasource {
            id: "id".to_owned(),
            name: "name".to_owned(),
            driver_id: "driver".to_owned(),
            secret_ref: Some("chat2db:datasource:not-a-uuid".to_owned()),
            revision: 1,
            created_at_ms: 0,
            updated_at_ms: 0,
        })),
        Err(StorageError::InvalidDatasource("persisted secret reference is invalid"))
    ));
    row.secret_ref = None;
    row.revision = -1;
    assert!(matches!(
        decode_datasource(row),
        Err(StorageError::NumericRange("datasource revision"))
    ));
    assert!(Storage::get_datasource(None).expect("nothing reads").is_none());
}
